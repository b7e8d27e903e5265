//! One backup run: ask the selector for a ready target, then drive the
//! snapshot rotation against it, and report the first error unchanged.
//!
//! The remote probes and the rotation command are I/O, so the runner is a
//! state machine like the selector: `next_action` names the one remote
//! operation to perform, and the `note_*` methods fold its outcome back in.
//! The surrounding application performs the operations; the contracts here
//! fix every decision in between.

use vstd::prelude::*;
use crate::config::Configuration;
use crate::errors::BackupError;
use crate::selector::SelectAction;
use crate::selector::Selector;

verus! {

/// Where the run stands.
#[derive(Debug)]
pub enum Phase {
    /// Still probing targets in declared order.
    Selecting,
    /// Committed to one ready target; its snapshot rotation is owed.
    BackingUp,
    /// The rotation succeeded.
    Done,
    /// The run failed; the error is kept unchanged for the caller.
    Failed(BackupError),
}

/// The one remote operation owed next, if any.
#[derive(Debug)]
pub enum RunnerAction {
    /// Probe the target at this index for readiness.
    ProbeTarget(usize),
    /// Issue the snapshot rotation against the target at this index.
    RunSnapshot(usize),
    /// The run is over; `outcome` has the result.
    Finished,
}

/// One backup run over a configuration: the selection state and the phase.
#[derive(Debug)]
pub struct Runner {
    pub configuration: Configuration,
    pub selector: Selector,
    pub phase: Phase,
}

impl Runner {
    /// The run invariant: the selector ranges over the configured targets;
    /// while selecting, a probe is always pending; once backing up, a target
    /// is committed.
    pub open spec fn wf(&self) -> bool {
        &&& self.selector.wf()
        &&& self.selector.n_targets == self.configuration.targets.len()
        &&& (self.phase is Selecting ==> self.selector.selected is None && self.selector.cursor
            < self.selector.n_targets)
        &&& (self.phase is BackingUp ==> self.selector.selected is Some)
    }

    /// What `next_action` answers in a given state.
    pub open spec fn action_spec(s: Runner) -> RunnerAction {
        match s.phase {
            Phase::Selecting => RunnerAction::ProbeTarget(s.selector.cursor),
            Phase::BackingUp => RunnerAction::RunSnapshot(s.selector.selected.unwrap()),
            Phase::Done => RunnerAction::Finished,
            Phase::Failed(_) => RunnerAction::Finished,
        }
    }

    /// A fresh run. With no targets configured there is nothing to probe:
    /// the run fails outright with `NoReachableTarget`.
    pub fn new(configuration: Configuration) -> (r: Runner)
        ensures
            r.wf(),
            r.configuration == configuration,
            r.selector.probe_count == 0,
            r.selector.cursor == 0,
            r.selector.selected is None,
            configuration.targets.len() == 0 ==> r.phase matches Phase::Failed(
                BackupError::NoReachableTarget,
            ),
            configuration.targets.len() > 0 ==> r.phase is Selecting,
    {
        let n = configuration.targets.len();
        let phase = if n == 0 {
            Phase::Failed(BackupError::NoReachableTarget)
        } else {
            Phase::Selecting
        };
        Runner { configuration, selector: Selector::new(n), phase }
    }

    /// The one remote operation owed next.
    pub fn next_action(&self) -> (r: RunnerAction)
        requires
            self.wf(),
        ensures
            r == Self::action_spec(*self),
    {
        match &self.phase {
            Phase::Selecting => RunnerAction::ProbeTarget(self.selector.cursor),
            Phase::BackingUp => {
                match self.selector.selected {
                    Some(i) => RunnerAction::RunSnapshot(i),
                    None => vstd::pervasive::unreached(),
                }
            },
            Phase::Done => RunnerAction::Finished,
            Phase::Failed(_) => RunnerAction::Finished,
        }
    }

    /// Fold in the outcome of the probe that `next_action` asked for: a
    /// ready target commits the run to it; a failed probe moves on to the
    /// next target, and to `NoReachableTarget` once every target has failed.
    /// A target found ready is probed exactly once and never re-validated:
    /// within one run there is no fallback after commitment.
    pub fn note_probe(&mut self, ready: bool)
        requires
            old(self).wf(),
            old(self).phase is Selecting,
        ensures
            final(self).wf(),
            final(self).configuration == old(self).configuration,
            final(self).selector == Selector::step(old(self).selector, ready),
            final(self).selector.probe_count == old(self).selector.probe_count + 1,
            ready ==> final(self).phase is BackingUp && final(self).selector.selected == Some(
                old(self).selector.cursor,
            ),
            (!ready && old(self).selector.cursor + 1 < old(self).selector.n_targets) ==> (final(self).phase is Selecting
                && final(self).selector.cursor == old(self).selector.cursor + 1),
            (!ready && old(self).selector.cursor + 1 == old(self).selector.n_targets) ==> final(self).phase matches Phase::Failed(
                BackupError::NoReachableTarget,
            ),
    {
        self.selector.record_probe(ready);
        if ready {
            self.phase = Phase::BackingUp;
        } else if self.selector.cursor == self.selector.n_targets {
            self.phase = Phase::Failed(BackupError::NoReachableTarget);
        }
    }

    /// Fold in the outcome of the snapshot rotation: success ends the run;
    /// a failure ends it with that error, propagated unchanged — no second
    /// target is tried after a ready target's backup fails.
    pub fn note_snapshot(&mut self, result: Result<(), BackupError>)
        requires
            old(self).wf(),
            old(self).phase is BackingUp,
        ensures
            final(self).wf(),
            final(self).configuration == old(self).configuration,
            final(self).selector == old(self).selector,
            result is Ok ==> final(self).phase is Done,
            result matches Err(e) ==> final(self).phase == Phase::Failed(e),
    {
        match result {
            Ok(()) => {
                self.phase = Phase::Done;
            },
            Err(e) => {
                self.phase = Phase::Failed(e);
            },
        }
    }

    /// The run's result, once `next_action` answers `Finished`: success, or
    /// the error that ended the run, unchanged.
    pub fn outcome(&self) -> (r: Option<Result<(), BackupError>>)
        ensures
            self.phase is Done ==> r == Some(Result::<(), BackupError>::Ok(())),
            self.phase matches Phase::Failed(e) ==> r == Some(Result::<(), BackupError>::Err(e)),
            self.phase is Selecting || self.phase is BackingUp ==> r is None,
    {
        match &self.phase {
            Phase::Done => Some(Ok(())),
            Phase::Failed(e) => Some(Err(e.clone())),
            Phase::Selecting => None,
            Phase::BackingUp => None,
        }
    }
}

} // verus!
