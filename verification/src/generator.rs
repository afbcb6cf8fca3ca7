//! The generator itself: naming conventions and artifact location.
//!
//! A canister is identified by its source directory; its name is that
//! directory's last component. The compiled artifact is named
//! `<name>.wasm` and is expected under the conventional build-output
//! subdirectory `target/wasm32-unknown-unknown/release`, first inside the
//! canister directory itself and otherwise under one of its ancestors (a
//! workspace places build output next to its own manifest, not the
//! member's). The candidate paths are tried shallowest first, and the
//! first that exists on disk wins.

use vstd::prelude::*;
use vstd::string::*;

use crate::error::DidGeneratorError;
use crate::fs_path::FsPath;

verus! {

/// Index of the first `true` in a sequence of answers, or the sequence's
/// length when every answer is `false`.
pub open spec fn first_true(s: Seq<bool>) -> int
    decreases s.len(),
{
    if s.len() <= 0 {
        0
    } else if s[0] {
        0
    } else {
        1 + first_true(s.skip(1))
    }
}

/// Law (locate-first-match): `first_true` names the shallowest hit of the
/// artifact search — it is in bounds, it points at a `true` answer whenever
/// one exists, and every earlier answer is `false`. Since the locate
/// routine returns the candidate at exactly this index, it never returns a
/// deeper ancestor's artifact while a shallower one exists.
pub proof fn lemma_first_true_is_first_match(s: Seq<bool>)
    ensures
        0 <= first_true(s) <= s.len(),
        first_true(s) < s.len() ==> s[first_true(s)],
        forall|j: int| 0 <= j < first_true(s) ==> !s[j],
    decreases s.len(),
{
    if s.len() > 0 && !s[0] {
        lemma_first_true_is_first_match(s.skip(1));
        assert forall|j: int| 0 <= j < first_true(s) implies !s[j] by {
            if j > 0 {
                assert(s.skip(1)[j - 1] == s[j]);
            }
        }
    }
}

/// `first_true` is pinned down by its characterisation: an in-bounds index
/// holding `true` with only `false` before it is the first match.
pub proof fn lemma_first_true_unique(s: Seq<bool>, i: int)
    requires
        0 <= i < s.len(),
        s[i],
        forall|j: int| 0 <= j < i ==> !s[j],
    ensures
        first_true(s) == i,
    decreases s.len(),
{
    if i > 0 {
        assert(s.skip(1)[i - 1] == s[i]);
        assert forall|j: int| 0 <= j < i - 1 implies !s.skip(1)[j] by {
            assert(s.skip(1)[j] == s[j + 1]);
        }
        lemma_first_true_unique(s.skip(1), i - 1);
    }
}

/// The conventional build-output subdirectory, relative to whichever
/// directory the build tool placed its output under.
pub open spec fn build_output_parts() -> Seq<Seq<char>> {
    seq!["target"@, "wasm32-unknown-unknown"@, "release"@]
}

/// Generates the Candid interface file of one canister.
pub struct DidGenerator {
    pub canister_dir: FsPath,
    pub canister_name: String,
}

impl DidGenerator {
    /// The canister directory's components.
    pub open spec fn dir_parts(&self) -> Seq<Seq<char>> {
        self.canister_dir.parts()
    }

    /// The artifact's file name, `<canister-name>.wasm`.
    pub open spec fn wasm_name(&self) -> Seq<char> {
        self.canister_name@ + ".wasm"@
    }

    /// The destination's file name, `<canister-name>.did`.
    pub open spec fn did_name(&self) -> Seq<char> {
        self.canister_name@ + ".did"@
    }

    /// How many places the artifact search looks at: the canister
    /// directory itself, then each of its ancestors up to the root.
    pub open spec fn num_candidates(&self) -> int {
        self.dir_parts().len() as int + 1
    }

    /// The candidate artifact path `levels_up` ancestors above the
    /// canister directory (zero: the canister directory itself).
    pub open spec fn candidate_parts(&self, levels_up: int) -> Seq<Seq<char>> {
        self.dir_parts().take(self.dir_parts().len() - levels_up) + build_output_parts()
            + seq![self.wasm_name()]
    }

    /// The destination path of the interface description,
    /// `<canister-dir>/<canister-name>.did`.
    pub open spec fn did_parts(&self) -> Seq<Seq<char>> {
        self.dir_parts().push(self.did_name())
    }

    /// Creates a generator for the canister living in `canister_dir`,
    /// taking the canister's name from the directory's last component.
    pub fn new(canister_dir: FsPath) -> (r: Self)
        requires
            canister_dir.components@.len() > 0,
        ensures
            r.canister_dir == canister_dir,
            r.canister_name@ == canister_dir.parts().last(),
    {
        let canister_name = canister_dir.components[canister_dir.components.len() - 1].clone();
        Self { canister_dir, canister_name }
    }

    /// The artifact's file name as a string, `<canister-name>.wasm`.
    pub fn wasm_file_name(&self) -> (r: String)
        ensures
            r@ == self.wasm_name(),
    {
        self.canister_name.clone().concat(".wasm")
    }

    /// The candidate artifact path `levels_up` ancestors above the
    /// canister directory.
    pub fn candidate(&self, levels_up: usize) -> (r: FsPath)
        requires
            levels_up <= self.canister_dir.components@.len(),
        ensures
            r.absolute == self.canister_dir.absolute,
            r.parts() == self.candidate_parts(levels_up as int),
    {
        let keep = self.canister_dir.components.len() - levels_up;
        let mut components: Vec<String> = Vec::new();
        for i in 0..keep
            invariant
                keep <= self.canister_dir.components@.len(),
                components@.len() == i,
                forall|j: int| 0 <= j < i ==> components@[j]@ == self.canister_dir.components@[j]@,
        {
            components.push(self.canister_dir.components[i].clone());
        }
        components.push(String::from_str("target"));
        components.push(String::from_str("wasm32-unknown-unknown"));
        components.push(String::from_str("release"));
        components.push(self.wasm_file_name());
        let r = FsPath { absolute: self.canister_dir.absolute, components };
        proof {
            assert(r.parts() =~= self.candidate_parts(levels_up as int));
        }
        r
    }

    /// The destination path of the interface description.
    pub fn did_path(&self) -> (r: FsPath)
        ensures
            r.absolute == self.canister_dir.absolute,
            r.parts() == self.did_parts(),
    {
        let mut r = self.canister_dir.duplicate();
        r.components.push(self.canister_name.clone().concat(".did"));
        proof {
            assert(r.parts() =~= self.did_parts());
        }
        r
    }

    /// Picks the artifact's location from the answers of the existence
    /// checks, one answer per candidate, shallowest first.
    ///
    /// Returns the first candidate whose answer is `true`; when every
    /// answer is `false` the search is exhausted and the result is
    /// `ArtifactNotFound`, carrying the first path that was tried.
    pub fn find_wasm_file(&self, exists: &Vec<bool>) -> (r: Result<FsPath, DidGeneratorError>)
        requires
            exists@.len() == self.num_candidates(),
        ensures
            match r {
                Ok(p) => {
                    &&& first_true(exists@) < exists@.len()
                    &&& p.absolute == self.canister_dir.absolute
                    &&& p.parts() == self.candidate_parts(first_true(exists@))
                },
                Err(e) => {
                    &&& first_true(exists@) == exists@.len()
                    &&& (e matches DidGeneratorError::ArtifactNotFound { canister_name, first_tried }
                        && canister_name@ == self.canister_name@
                        && first_tried.absolute == self.canister_dir.absolute
                        && first_tried.parts() == self.candidate_parts(0))
                },
            },
    {
        let n = exists.len();
        for i in 0..n
            invariant
                n == exists@.len(),
                n == self.num_candidates(),
                forall|j: int| 0 <= j < i ==> !exists@[j],
        {
            if exists[i] {
                proof {
                    lemma_first_true_unique(exists@, i as int);
                }
                return Ok(self.candidate(i));
            }
        }
        proof {
            lemma_first_true_is_first_match(exists@);
        }
        Err(DidGeneratorError::ArtifactNotFound {
            canister_name: self.canister_name.clone(),
            first_tried: self.candidate(0),
        })
    }
}

} // verus!
