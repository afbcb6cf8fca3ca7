//! A filesystem path modelled as plain data.
//!
//! The orchestration logic only ever assembles paths, compares them, and
//! walks to ancestor directories; it never reads a file through one. A path
//! is therefore kept as the list of its components together with a flag
//! saying whether it hangs off the filesystem root, which makes "this path
//! has no parent" an explicit, platform-independent check (the component
//! list is empty) instead of a comparison of a path with its own parent.
//! The front end converts between this representation and the platform's
//! native paths at the boundary.

use vstd::prelude::*;

verus! {

/// A filesystem path: its components in order, and whether the path is
/// anchored at the filesystem root (`/a/b`) or relative (`a/b`).
///
/// The empty component list stands for the walk's terminus: the filesystem
/// root itself when `absolute`, the process's working directory otherwise.
/// Such a path has no parent, and an upward walk stops there.
pub struct FsPath {
    pub absolute: bool,
    pub components: Vec<String>,
}

impl FsPath {
    /// The path's components as mathematical sequences of characters.
    pub open spec fn parts(&self) -> Seq<Seq<char>> {
        Seq::new(self.components@.len(), |i: int| self.components@[i]@)
    }

    /// Whether the path has a parent directory: every path but the walk's
    /// terminus (the root, or the bare working directory) has one.
    pub open spec fn spec_has_parent(&self) -> bool {
        self.components@.len() > 0
    }

    /// Explicit "is there a parent directory" check; an upward walk stops
    /// exactly when this returns false.
    pub fn has_parent(&self) -> (r: bool)
        ensures
            r == self.spec_has_parent(),
    {
        self.components.len() > 0
    }

    /// A fresh path with the same anchor and the same components.
    pub fn duplicate(&self) -> (r: FsPath)
        ensures
            r.absolute == self.absolute,
            r.parts() == self.parts(),
    {
        let mut components: Vec<String> = Vec::new();
        let n = self.components.len();
        for i in 0..n
            invariant
                n == self.components@.len(),
                components@.len() == i,
                forall|j: int| 0 <= j < i ==> components@[j]@ == self.components@[j]@,
        {
            components.push(self.components[i].clone());
        }
        let r = FsPath { absolute: self.absolute, components };
        proof {
            assert(r.parts() =~= self.parts());
        }
        r
    }
}

} // verus!
