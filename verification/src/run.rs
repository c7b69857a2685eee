//! Sync protocol: the pull / push-if-needed / re-pull-once flow.
//!
//! The orchestration loop asks the machine what to do next, performs the pull
//! or push, and reports the outcome back. A pull that finds artifacts ends
//! the run ready; a pull that finds none triggers the single push and one
//! retry pull; a second empty pull ends the run failed. There is no third
//! pull.

use vstd::prelude::*;

verus! {

/// Arguments naming the job to pull or build.
pub struct JobArgs {
    pub job: String,
    pub container: String,
}

/// What the orchestration loop must do next.
#[derive(PartialEq, Eq, Structural, Clone, Copy, Debug)]
pub enum SyncAction {
    /// Ask the scheduler for artifacts.
    Pull,
    /// Snapshot and push the tree, asking the scheduler to wait for a build.
    Push,
    /// Artifacts were retrieved; the run succeeded.
    Done,
    /// Artifacts are unavailable; the run failed.
    Fail,
}

/// The phase of one pull-or-build run.
#[derive(PartialEq, Eq, Structural, Clone, Copy, Debug)]
pub enum SyncPhase {
    /// About to ask the scheduler whether artifacts exist.
    CheckingRemote,
    /// The first pull found nothing: the snapshot must be pushed.
    Pushing,
    /// Artifacts were retrieved.
    Ready,
    /// The retry pull also found nothing: artifacts unavailable.
    Failed,
}

/// The retry state machine of one run: its phase and how many pulls and
/// pushes have completed.
#[derive(PartialEq, Eq, Structural, Clone, Copy, Debug)]
pub struct SyncMachine {
    pub phase: SyncPhase,
    pub pulls: u8,
    pub pushes: u8,
}

/// The machine a run starts in.
pub open spec fn initial_machine() -> SyncMachine {
    SyncMachine { phase: SyncPhase::CheckingRemote, pulls: 0, pushes: 0 }
}

/// The machine after a pull completed with `ready` telling whether artifacts
/// were retrieved.
pub open spec fn spec_on_pull(m: SyncMachine, ready: bool) -> SyncMachine {
    SyncMachine {
        phase: if ready {
            SyncPhase::Ready
        } else if m.pushes == 0 {
            SyncPhase::Pushing
        } else {
            SyncPhase::Failed
        },
        pulls: (m.pulls + 1) as u8,
        pushes: m.pushes,
    }
}

/// The machine after the push completed.
pub open spec fn spec_on_push(m: SyncMachine) -> SyncMachine {
    SyncMachine { phase: SyncPhase::CheckingRemote, pulls: m.pulls, pushes: (m.pushes + 1) as u8 }
}

impl SyncMachine {
    /// Every state a run can reach: at most two pulls and one push, and the
    /// phase agrees with the counters.
    pub open spec fn wf(self) -> bool {
        &&& self.pulls <= 2
        &&& self.pushes <= 1
        &&& (self.phase == SyncPhase::CheckingRemote ==> self.pulls == self.pushes)
        &&& (self.phase == SyncPhase::Pushing ==> self.pulls == 1 && self.pushes == 0)
        &&& (self.phase == SyncPhase::Failed ==> self.pulls == 2 && self.pushes == 1)
    }

    /// What the loop must do in this state.
    pub open spec fn next_action_spec(self) -> SyncAction {
        match self.phase {
            SyncPhase::CheckingRemote => SyncAction::Pull,
            SyncPhase::Pushing => SyncAction::Push,
            SyncPhase::Ready => SyncAction::Done,
            SyncPhase::Failed => SyncAction::Fail,
        }
    }

    /// Starts a run.
    pub fn new() -> (m: SyncMachine)
        ensures
            m == initial_machine(),
            m.wf(),
    {
        SyncMachine { phase: SyncPhase::CheckingRemote, pulls: 0, pushes: 0 }
    }

    /// What the loop must do next.
    pub fn next_action(&self) -> (a: SyncAction)
        ensures
            a == self.next_action_spec(),
    {
        match self.phase {
            SyncPhase::CheckingRemote => SyncAction::Pull,
            SyncPhase::Pushing => SyncAction::Push,
            SyncPhase::Ready => SyncAction::Done,
            SyncPhase::Failed => SyncAction::Fail,
        }
    }

    /// Records a completed pull. When artifacts came back the run is ready;
    /// otherwise the first empty pull asks for the push, and the second ends
    /// the run failed.
    pub fn on_pull(&mut self, ready: bool)
        requires
            old(self).wf(),
            old(self).phase == SyncPhase::CheckingRemote,
        ensures
            *final(self) == spec_on_pull(*old(self), ready),
            final(self).wf(),
    {
        self.pulls = self.pulls + 1;
        self.phase = if ready {
            SyncPhase::Ready
        } else if self.pushes == 0 {
            SyncPhase::Pushing
        } else {
            SyncPhase::Failed
        };
    }

    /// Records the completed push: the run re-checks the remote once more.
    pub fn on_push(&mut self)
        requires
            old(self).wf(),
            old(self).phase == SyncPhase::Pushing,
        ensures
            *final(self) == spec_on_push(*old(self)),
            final(self).wf(),
    {
        self.pushes = self.pushes + 1;
        self.phase = SyncPhase::CheckingRemote;
    }
}

/// Law: a run whose pulls both come back empty performs exactly one push and
/// two pulls, ends failed, and asks for nothing but failing afterwards —
/// never a third pull.
pub proof fn lemma_retry_policy()
    ensures
        ({
            let first = spec_on_pull(initial_machine(), false);
            let pushed = spec_on_push(first);
            let second = spec_on_pull(pushed, false);
            &&& first.phase == SyncPhase::Pushing
            &&& first.next_action_spec() == SyncAction::Push
            &&& pushed.phase == SyncPhase::CheckingRemote
            &&& second.phase == SyncPhase::Failed
            &&& second.pulls == 2
            &&& second.pushes == 1
            &&& second.next_action_spec() == SyncAction::Fail
        }),
{
}

/// Law: no reachable state of a run holds more than two pulls or more than
/// one push.
pub proof fn lemma_bounded_retries(m: SyncMachine)
    requires
        m.wf(),
    ensures
        m.pulls <= 2,
        m.pushes <= 1,
{
}

} // verus!
