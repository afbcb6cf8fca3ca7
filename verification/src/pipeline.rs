//! The generation pipeline as an explicit state machine.
//!
//! One run of the generator is a strict, linear pipeline: build the
//! canister, locate the artifact, run the extractor, persist its output.
//! The outside work — spawning the two processes, checking a path's
//! existence, writing the destination file — cannot be done here, so each
//! transition hands the front end a [`PipelineAction`] to perform and
//! takes the outcome back as a [`PipelineEvent`]. Every decision (which
//! path to try next, when the search is exhausted, which error a stage
//! fails with, what bytes are persisted where) is made by [`DidGenerator::step`]
//! and pinned down by [`DidGenerator::step_rel`]. Any failure is terminal:
//! a failed pipeline absorbs every further event and issues no action.

use vstd::prelude::*;
use vstd::string::*;

use crate::error::DidGeneratorError;
use crate::fs_path::FsPath;
use crate::generator::DidGenerator;

verus! {

/// Where one run of the pipeline stands.
pub enum PipelineState {
    /// Waiting for the compiler to finish.
    Building,
    /// Waiting for the existence check of candidate `next_index`.
    Locating { next_index: usize },
    /// The artifact was found at candidate `found_index`; waiting for the
    /// extractor to finish.
    Extracting { found_index: usize },
    /// Waiting for the write of the destination file to finish.
    Persisting,
    /// The destination file was written; the run succeeded.
    Done,
    /// Some stage failed; the run is over and no further action follows.
    Failed { error: DidGeneratorError },
}

/// The outcome of the outside work the front end was asked to perform.
pub enum PipelineEvent {
    /// The compiler exited; `success` is whether its status was zero.
    BuildFinished { success: bool },
    /// The existence check of the current candidate path answered `exists`.
    CandidateChecked { exists: bool },
    /// The extractor exited with its captured output: `success` is whether
    /// its status was zero, `stdout` its standard output bytes, `stderr`
    /// its standard-error text.
    ExtractorFinished { success: bool, stdout: Vec<u8>, stderr: String },
    /// The write of the destination file finished; on failure `message`
    /// is the text of the underlying I/O error.
    WriteFinished { success: bool, message: String },
}

/// What the front end is asked to do next.
pub enum PipelineAction {
    /// Run the compiler for the wasm release target, in directory `dir`.
    RunBuild { dir: FsPath },
    /// Check whether the file at `path` exists.
    CheckCandidate { path: FsPath },
    /// Run the extractor with `path` as its sole argument, capturing its
    /// output.
    RunExtractor { path: FsPath },
    /// Write `content` to the file at `path`, overwriting it.
    WriteFile { path: FsPath, content: Vec<u8> },
    /// Nothing: the run is over, successfully or not.
    Stop,
}

/// The events a state can take: each stage accepts exactly the outcome of
/// the action it issued, and a finished run (`Done` or `Failed`) absorbs
/// anything.
pub open spec fn accepts(s: PipelineState, ev: PipelineEvent) -> bool {
    match (s, ev) {
        (PipelineState::Building, PipelineEvent::BuildFinished { .. }) => true,
        (PipelineState::Locating { .. }, PipelineEvent::CandidateChecked { .. }) => true,
        (PipelineState::Extracting { .. }, PipelineEvent::ExtractorFinished { .. }) => true,
        (PipelineState::Persisting, PipelineEvent::WriteFinished { .. }) => true,
        (PipelineState::Done, _) => true,
        (PipelineState::Failed { .. }, _) => true,
        _ => false,
    }
}

impl DidGenerator {
    /// The candidate indexes a state may hold are bounded by the number of
    /// candidates of this generator's upward walk.
    pub open spec fn state_ok(&self, s: PipelineState) -> bool {
        match s {
            PipelineState::Locating { next_index } => next_index < self.num_candidates(),
            PipelineState::Extracting { found_index } => found_index < self.num_candidates(),
            _ => true,
        }
    }

    /// The transition relation of the pipeline: what the next state and
    /// the issued action are, for a state and the event it accepts.
    /// Paths in actions and errors are pinned down through their parts.
    pub open spec fn step_rel(
        &self,
        s: PipelineState,
        ev: PipelineEvent,
        s2: PipelineState,
        a: PipelineAction,
    ) -> bool {
        match (s, ev) {
            (PipelineState::Building, PipelineEvent::BuildFinished { success }) => {
                if success {
                    &&& s2 == (PipelineState::Locating { next_index: 0usize })
                    &&& (a matches PipelineAction::CheckCandidate { path }
                        && path.absolute == self.canister_dir.absolute
                        && path.parts() == self.candidate_parts(0))
                } else {
                    &&& (s2 matches PipelineState::Failed { error }
                        && (error matches DidGeneratorError::BuildError(m)
                        && m@ == "Failed to build canister"@))
                    &&& a is Stop
                }
            },
            (PipelineState::Locating { next_index }, PipelineEvent::CandidateChecked { exists }) => {
                if exists {
                    &&& s2 == (PipelineState::Extracting { found_index: next_index })
                    &&& (a matches PipelineAction::RunExtractor { path }
                        && path.absolute == self.canister_dir.absolute
                        && path.parts() == self.candidate_parts(next_index as int))
                } else if next_index + 1 < self.num_candidates() {
                    &&& s2 == (PipelineState::Locating { next_index: (next_index + 1) as usize })
                    &&& (a matches PipelineAction::CheckCandidate { path }
                        && path.absolute == self.canister_dir.absolute
                        && path.parts() == self.candidate_parts(next_index + 1))
                } else {
                    &&& (s2 matches PipelineState::Failed { error }
                        && (error matches DidGeneratorError::ArtifactNotFound {
                            canister_name,
                            first_tried,
                        }
                        && canister_name@ == self.canister_name@
                        && first_tried.absolute == self.canister_dir.absolute
                        && first_tried.parts() == self.candidate_parts(0)))
                    &&& a is Stop
                }
            },
            (
                PipelineState::Extracting { .. },
                PipelineEvent::ExtractorFinished { success, stdout, stderr },
            ) => {
                if success {
                    &&& s2 is Persisting
                    &&& (a matches PipelineAction::WriteFile { path, content }
                        && path.absolute == self.canister_dir.absolute
                        && path.parts() == self.did_parts()
                        && content@ == stdout@)
                } else {
                    &&& (s2 matches PipelineState::Failed { error }
                        && (error matches DidGeneratorError::CandidGenerationError(m)
                        && m@ == stderr@))
                    &&& a is Stop
                }
            },
            (PipelineState::Persisting, PipelineEvent::WriteFinished { success, message }) => {
                if success {
                    &&& s2 is Done
                    &&& a is Stop
                } else {
                    &&& (s2 matches PipelineState::Failed { error }
                        && (error matches DidGeneratorError::FileWriteError(m)
                        && m@ == message@))
                    &&& a is Stop
                }
            },
            (PipelineState::Done, _) => s2 is Done && a is Stop,
            (PipelineState::Failed { error }, _) => {
                &&& (s2 matches PipelineState::Failed { error: e2 } && e2 == error)
                &&& a is Stop
            },
            _ => false,
        }
    }

    /// The pipeline's entry: the initial state and the first action, a
    /// release build for the wasm target in the canister directory.
    pub fn start(&self) -> (r: (PipelineState, PipelineAction))
        ensures
            r.0 is Building,
            self.state_ok(r.0),
            (r.1 matches PipelineAction::RunBuild { dir }
                && dir.absolute == self.canister_dir.absolute
                && dir.parts() == self.dir_parts()),
    {
        (PipelineState::Building, PipelineAction::RunBuild { dir: self.canister_dir.duplicate() })
    }

    /// One transition of the pipeline: takes the outcome of the last
    /// action and decides the next state and the next action.
    pub fn step(&self, s: PipelineState, ev: PipelineEvent) -> (r: (
        PipelineState,
        PipelineAction,
    ))
        requires
            self.state_ok(s),
            accepts(s, ev),
        ensures
            self.step_rel(s, ev, r.0, r.1),
            self.state_ok(r.0),
    {
        match (s, ev) {
            (PipelineState::Building, PipelineEvent::BuildFinished { success }) => {
                if success {
                    (
                        PipelineState::Locating { next_index: 0 },
                        PipelineAction::CheckCandidate { path: self.candidate(0) },
                    )
                } else {
                    (
                        PipelineState::Failed {
                            error: DidGeneratorError::BuildError(
                                String::from_str("Failed to build canister"),
                            ),
                        },
                        PipelineAction::Stop,
                    )
                }
            },
            (PipelineState::Locating { next_index }, PipelineEvent::CandidateChecked { exists }) => {
                if exists {
                    (
                        PipelineState::Extracting { found_index: next_index },
                        PipelineAction::RunExtractor { path: self.candidate(next_index) },
                    )
                } else if next_index < self.canister_dir.components.len() {
                    (
                        PipelineState::Locating { next_index: next_index + 1 },
                        PipelineAction::CheckCandidate { path: self.candidate(next_index + 1) },
                    )
                } else {
                    (
                        PipelineState::Failed {
                            error: DidGeneratorError::ArtifactNotFound {
                                canister_name: self.canister_name.clone(),
                                first_tried: self.candidate(0),
                            },
                        },
                        PipelineAction::Stop,
                    )
                }
            },
            (
                PipelineState::Extracting { .. },
                PipelineEvent::ExtractorFinished { success, stdout, stderr },
            ) => {
                if success {
                    (
                        PipelineState::Persisting,
                        PipelineAction::WriteFile { path: self.did_path(), content: stdout },
                    )
                } else {
                    (
                        PipelineState::Failed {
                            error: DidGeneratorError::CandidGenerationError(stderr),
                        },
                        PipelineAction::Stop,
                    )
                }
            },
            (PipelineState::Persisting, PipelineEvent::WriteFinished { success, message }) => {
                if success {
                    (PipelineState::Done, PipelineAction::Stop)
                } else {
                    (
                        PipelineState::Failed {
                            error: DidGeneratorError::FileWriteError(message),
                        },
                        PipelineAction::Stop,
                    )
                }
            },
            (PipelineState::Done, _) => (PipelineState::Done, PipelineAction::Stop),
            (PipelineState::Failed { error }, _) => (
                PipelineState::Failed { error },
                PipelineAction::Stop,
            ),
            _ => {
                proof {
                    assert(false);
                }
                (PipelineState::Done, PipelineAction::Stop)
            },
        }
    }

    /// A trace of the pipeline: `states[0]` is where it stands at first,
    /// and event `i` takes `states[i]` to `states[i + 1]`, issuing
    /// `actions[i]`.
    pub open spec fn is_trace(
        &self,
        states: Seq<PipelineState>,
        events: Seq<PipelineEvent>,
        actions: Seq<PipelineAction>,
    ) -> bool {
        &&& states.len() == events.len() + 1
        &&& actions.len() == events.len()
        &&& forall|i: int|
            0 <= i < events.len() ==> self.step_rel(states[i], events[i], states[i + 1], actions[i])
    }

    /// A failed pipeline never recovers: from a `Failed` state every event
    /// leads back to the same failure and issues no action.
    pub proof fn lemma_failed_is_terminal(
        &self,
        s: PipelineState,
        ev: PipelineEvent,
        s2: PipelineState,
        a: PipelineAction,
    )
        requires
            self.step_rel(s, ev, s2, a),
            s is Failed,
        ensures
            s2 is Failed,
            a is Stop,
    {
    }

    /// Along a trace whose second state is already failed, every later
    /// state is failed too.
    proof fn lemma_failure_persists(
        &self,
        states: Seq<PipelineState>,
        events: Seq<PipelineEvent>,
        actions: Seq<PipelineAction>,
        k: int,
    )
        requires
            self.is_trace(states, events, actions),
            1 <= k < states.len(),
            states[1] is Failed,
        ensures
            states[k] is Failed,
        decreases k,
    {
        if k > 1 {
            self.lemma_failure_persists(states, events, actions, k - 1);
            assert(self.step_rel(states[k - 1], events[k - 1], states[k], actions[k - 1]));
        }
    }

    /// Law (stage isolation): when the compiler reports failure, the
    /// pipeline fails at once and for good — every later state is failed,
    /// no further action is issued, and in particular the extractor is
    /// never invoked.
    pub proof fn lemma_stage_isolation(
        &self,
        states: Seq<PipelineState>,
        events: Seq<PipelineEvent>,
        actions: Seq<PipelineAction>,
    )
        requires
            self.is_trace(states, events, actions),
            events.len() > 0,
            states[0] is Building,
            events[0] == (PipelineEvent::BuildFinished { success: false }),
        ensures
            forall|k: int| 1 <= k < states.len() ==> states[k] is Failed,
            forall|k: int| 0 <= k < actions.len() ==> actions[k] is Stop,
            forall|k: int| 0 <= k < actions.len() ==> !(actions[k] is RunExtractor),
    {
        assert(self.step_rel(states[0], events[0], states[1], actions[0]));
        assert forall|k: int| 1 <= k < states.len() implies states[k] is Failed by {
            self.lemma_failure_persists(states, events, actions, k);
        }
        assert forall|k: int| 0 <= k < actions.len() implies actions[k] is Stop by {
            if k > 0 {
                assert(states[k] is Failed);
                assert(self.step_rel(states[k], events[k], states[k + 1], actions[k]));
            }
        }
    }

    /// Law (error fidelity): a failing extractor run fails the pipeline
    /// with the extractor's standard-error text carried verbatim.
    pub proof fn lemma_error_fidelity(
        &self,
        s: PipelineState,
        ev: PipelineEvent,
        s2: PipelineState,
        a: PipelineAction,
    )
        requires
            self.step_rel(s, ev, s2, a),
            s is Extracting,
            (ev matches PipelineEvent::ExtractorFinished { success, .. } && !success),
        ensures
            s2 matches PipelineState::Failed { error } && (error
                matches DidGeneratorError::CandidGenerationError(m) && m@ == stderr_text(ev)),
            a is Stop,
    {
    }
}

/// How far along the linear pipeline a state stands; failure outranks
/// everything, since nothing follows it.
pub open spec fn phase_rank(s: PipelineState) -> int {
    match s {
        PipelineState::Building => 0,
        PipelineState::Locating { .. } => 1,
        PipelineState::Extracting { .. } => 2,
        PipelineState::Persisting => 3,
        PipelineState::Done => 4,
        PipelineState::Failed { .. } => 5,
    }
}

/// The bytes a write action persists (empty for any other action).
pub open spec fn write_bytes(a: PipelineAction) -> Seq<u8> {
    match a {
        PipelineAction::WriteFile { content, .. } => content@,
        _ => Seq::empty(),
    }
}

/// The destination parts of a write action (empty for any other action).
pub open spec fn write_path_parts(a: PipelineAction) -> Seq<Seq<char>> {
    match a {
        PipelineAction::WriteFile { path, .. } => path.parts(),
        _ => Seq::empty(),
    }
}

/// The standard-output bytes an extractor event carries (empty for any
/// other event).
pub open spec fn stdout_bytes(ev: PipelineEvent) -> Seq<u8> {
    match ev {
        PipelineEvent::ExtractorFinished { stdout, .. } => stdout@,
        _ => Seq::empty(),
    }
}

/// The standard-error text an extractor event carries (empty for any
/// other event).
pub open spec fn stderr_text(ev: PipelineEvent) -> Seq<char> {
    match ev {
        PipelineEvent::ExtractorFinished { stderr, .. } => stderr@,
        _ => Seq::empty(),
    }
}

impl DidGenerator {
    /// Law (idempotent persistence): the only write the pipeline ever
    /// issues targets the canister's descriptor path and carries exactly
    /// the extractor's standard output. Two runs against an unchanged
    /// canister — runs whose extractors emitted the same bytes — therefore
    /// persist byte-identical content at the same destination, the second
    /// run's whole-file write overwriting the first.
    pub proof fn lemma_idempotent_persistence(
        &self,
        s1: PipelineState,
        ev1: PipelineEvent,
        t1: PipelineState,
        a1: PipelineAction,
        s2: PipelineState,
        ev2: PipelineEvent,
        t2: PipelineState,
        a2: PipelineAction,
    )
        requires
            self.step_rel(s1, ev1, t1, a1),
            self.step_rel(s2, ev2, t2, a2),
            a1 is WriteFile,
            a2 is WriteFile,
            stdout_bytes(ev1) == stdout_bytes(ev2),
        ensures
            write_path_parts(a1) == self.did_parts(),
            write_path_parts(a2) == self.did_parts(),
            write_bytes(a1) == stdout_bytes(ev1),
            write_bytes(a2) == stdout_bytes(ev2),
            write_bytes(a1) == write_bytes(a2),
    {
    }

    /// Every transition moves forward along the linear pipeline — no
    /// stage is ever re-entered — and a write is issued only on the one
    /// transition from extraction to persistence.
    pub proof fn lemma_pipeline_is_linear(
        &self,
        s: PipelineState,
        ev: PipelineEvent,
        s2: PipelineState,
        a: PipelineAction,
    )
        requires
            self.step_rel(s, ev, s2, a),
        ensures
            phase_rank(s) <= phase_rank(s2),
            a is WriteFile ==> s is Extracting && s2 is Persisting,
    {
    }

    /// Along a trace, a state's rank never decreases.
    proof fn lemma_rank_monotone(
        &self,
        states: Seq<PipelineState>,
        events: Seq<PipelineEvent>,
        actions: Seq<PipelineAction>,
        i: int,
        j: int,
    )
        requires
            self.is_trace(states, events, actions),
            0 <= i <= j < states.len(),
        ensures
            phase_rank(states[i]) <= phase_rank(states[j]),
        decreases j - i,
    {
        if i < j {
            self.lemma_rank_monotone(states, events, actions, i, j - 1);
            assert(self.step_rel(states[j - 1], events[j - 1], states[j], actions[j - 1]));
            self.lemma_pipeline_is_linear(states[j - 1], events[j - 1], states[j], actions[j - 1]);
        }
    }

    /// Law (no appended duplication): one run of the pipeline writes the
    /// destination at most once. A write only happens on the transition
    /// out of extraction, and the linear pipeline never returns there.
    pub proof fn lemma_write_at_most_once(
        &self,
        states: Seq<PipelineState>,
        events: Seq<PipelineEvent>,
        actions: Seq<PipelineAction>,
        i: int,
        j: int,
    )
        requires
            self.is_trace(states, events, actions),
            0 <= i < j < actions.len(),
            actions[i] is WriteFile,
        ensures
            !(actions[j] is WriteFile),
    {
        assert(self.step_rel(states[i], events[i], states[i + 1], actions[i]));
        self.lemma_pipeline_is_linear(states[i], events[i], states[i + 1], actions[i]);
        self.lemma_rank_monotone(states, events, actions, i + 1, j);
        assert(self.step_rel(states[j], events[j], states[j + 1], actions[j]));
        self.lemma_pipeline_is_linear(states[j], events[j], states[j + 1], actions[j]);
    }
}

} // verus!
