//! Target selection: probe the configured targets in declared order, commit
//! to the first one that is ready, and keep that choice for the rest of the
//! run.
//!
//! Probing is I/O, so the selector is a state machine: `next_action` says
//! what to do next (probe one target, use the committed one, or give up),
//! and `record_probe` folds one probe's outcome into the state. The driver
//! that performs the probes lives with the surrounding application; the
//! facts below hold of every driver that follows the actions.

use vstd::prelude::*;

verus! {

/// What the selector asks for next.
#[derive(Debug, Clone, Copy, PartialEq, Eq, Structural)]
pub enum SelectAction {
    /// Probe the target at this index for readiness.
    Probe(usize),
    /// A target is committed; use it without any further probe.
    Use(usize),
    /// Every target has been probed and none was ready.
    Exhausted,
}

/// The selection state over a list of `n_targets` targets: the next index to
/// probe, the committed index once a probe succeeded, and how many probes
/// were issued.
#[derive(Debug, Clone, Copy, PartialEq, Eq, Structural)]
pub struct Selector {
    pub n_targets: usize,
    pub cursor: usize,
    pub selected: Option<usize>,
    pub probe_count: usize,
}

impl Selector {
    /// The selection invariant: the cursor never passes the end of the list;
    /// a committed target is the one under the cursor, reached while the
    /// list was not exhausted; and exactly one probe was issued per target
    /// that failed, plus one for the committed target — never a probe more.
    pub open spec fn wf(&self) -> bool {
        &&& self.cursor <= self.n_targets
        &&& (self.selected matches Some(i) ==> i == self.cursor && self.cursor < self.n_targets)
        &&& self.probe_count == self.cursor + (if self.selected is Some {
            1int
        } else {
            0int
        })
    }

    /// What `next_action` answers in a given state.
    pub open spec fn action_spec(s: Selector) -> SelectAction {
        match s.selected {
            Some(i) => SelectAction::Use(i),
            None => if s.cursor < s.n_targets {
                SelectAction::Probe(s.cursor)
            } else {
                SelectAction::Exhausted
            },
        }
    }

    /// How one probe's outcome changes the state: a ready target is
    /// committed on the spot; a failed probe moves the cursor to the next
    /// target; either way one more probe has been issued.
    pub open spec fn step(s: Selector, ready: bool) -> Selector {
        if ready {
            Selector { selected: Some(s.cursor), probe_count: (s.probe_count + 1) as usize, ..s }
        } else {
            Selector {
                cursor: (s.cursor + 1) as usize,
                probe_count: (s.probe_count + 1) as usize,
                ..s
            }
        }
    }

    /// A fresh selector over `n_targets` targets.
    pub fn new(n_targets: usize) -> (r: Selector)
        ensures
            r.wf(),
            r.n_targets == n_targets,
            r.cursor == 0,
            r.selected is None,
            r.probe_count == 0,
    {
        Selector { n_targets, cursor: 0, selected: None, probe_count: 0 }
    }

    /// What to do next. Once a target is committed this answers `Use` of
    /// that same target, every time, and never asks for another probe.
    pub fn next_action(&self) -> (r: SelectAction)
        ensures
            r == Self::action_spec(*self),
    {
        match self.selected {
            Some(i) => SelectAction::Use(i),
            None => if self.cursor < self.n_targets {
                SelectAction::Probe(self.cursor)
            } else {
                SelectAction::Exhausted
            },
        }
    }

    /// Fold in the outcome of the probe that `next_action` asked for.
    pub fn record_probe(&mut self, ready: bool)
        requires
            old(self).wf(),
            old(self).selected is None,
            old(self).cursor < old(self).n_targets,
        ensures
            *final(self) == Self::step(*old(self), ready),
            final(self).wf(),
            final(self).probe_count == old(self).probe_count + 1,
            final(self).n_targets == old(self).n_targets,
            ready ==> final(self).selected == Some(old(self).cursor),
            !ready ==> final(self).selected is None && final(self).cursor == old(self).cursor + 1,
    {
        self.probe_count = self.probe_count + 1;
        if ready {
            self.selected = Some(self.cursor);
        } else {
            self.cursor = self.cursor + 1;
        }
    }
}

/// The index of the first ready target at or after position `i`, where
/// `outcomes` gives each target's readiness in declared order.
pub open spec fn first_ready_from(outcomes: Seq<bool>, i: int) -> Option<int>
    decreases outcomes.len() - i,
{
    if i < 0 || i >= outcomes.len() {
        None
    } else if outcomes[i] {
        Some(i)
    } else {
        first_ready_from(outcomes, i + 1)
    }
}

/// A whole selection run: probe targets from the cursor on, in declared
/// order, with the given outcomes, until one is ready or the list is
/// exhausted.
pub open spec fn run_selection(s: Selector, outcomes: Seq<bool>) -> Selector
    decreases s.n_targets - s.cursor,
{
    if s.selected is Some || s.cursor >= s.n_targets {
        s
    } else if outcomes[s.cursor as int] {
        Selector::step(s, true)
    } else {
        run_selection(Selector::step(s, false), outcomes)
    }
}

/// A selection run from any mid-run state commits to the first ready target
/// at or after the cursor — skipping every earlier target, whatever its
/// failure reason, since only readiness enters the outcome — and issues
/// exactly one probe per target it passes over, plus one for the target it
/// commits to. Where no target at or after the cursor is ready, the run
/// exhausts the list, having probed each remaining target exactly once.
pub proof fn lemma_run_selection(s: Selector, outcomes: Seq<bool>)
    requires
        s.wf(),
        s.selected is None,
        outcomes.len() == s.n_targets,
    ensures
        run_selection(s, outcomes).wf(),
        run_selection(s, outcomes).n_targets == s.n_targets,
        match first_ready_from(outcomes, s.cursor as int) {
            Some(i) => run_selection(s, outcomes).selected == Some(i as usize) && run_selection(
                s,
                outcomes,
            ).cursor == i && run_selection(s, outcomes).probe_count == i + 1,
            None => run_selection(s, outcomes).selected is None && run_selection(s, outcomes).cursor
                == s.n_targets && run_selection(s, outcomes).probe_count == s.n_targets,
        },
    decreases s.n_targets - s.cursor,
{
    if s.cursor >= s.n_targets {
    } else if outcomes[s.cursor as int] {
    } else {
        lemma_run_selection(Selector::step(s, false), outcomes);
    }
}

/// The first target ready by declared order is the one selected: a full run
/// from a fresh selector commits to index `i` exactly when target `i` is
/// ready and every target before it is not, and answers `Use(i)` from then
/// on.
pub proof fn lemma_select_first_ready(n: usize, outcomes: Seq<bool>, i: int)
    requires
        outcomes.len() == n,
        0 <= i < n,
        outcomes[i],
        forall|j: int| 0 <= j < i ==> !outcomes[j],
    ensures
        run_selection(Selector { n_targets: n, cursor: 0, selected: None, probe_count: 0 }, outcomes).selected
            == Some(i as usize),
        run_selection(Selector { n_targets: n, cursor: 0, selected: None, probe_count: 0 }, outcomes).probe_count
            == i + 1,
        Selector::action_spec(
            run_selection(
                Selector { n_targets: n, cursor: 0, selected: None, probe_count: 0 },
                outcomes,
            ),
        ) == SelectAction::Use(i as usize),
{
    let s = Selector { n_targets: n, cursor: 0, selected: None, probe_count: 0 };
    lemma_run_selection(s, outcomes);
    lemma_first_ready_from_characterisation(outcomes, 0, i);
}

/// Where no target is ready — in particular where the list is empty — a full
/// run from a fresh selector exhausts the list without committing, having
/// probed every target exactly once; `NoReachableTarget` is then the only
/// possible answer.
pub proof fn lemma_select_none_ready(n: usize, outcomes: Seq<bool>)
    requires
        outcomes.len() == n,
        forall|j: int| 0 <= j < n ==> !outcomes[j],
    ensures
        run_selection(Selector { n_targets: n, cursor: 0, selected: None, probe_count: 0 }, outcomes).selected
            is None,
        run_selection(Selector { n_targets: n, cursor: 0, selected: None, probe_count: 0 }, outcomes).probe_count
            == n,
        Selector::action_spec(
            run_selection(
                Selector { n_targets: n, cursor: 0, selected: None, probe_count: 0 },
                outcomes,
            ),
        ) == SelectAction::Exhausted,
{
    let s = Selector { n_targets: n, cursor: 0, selected: None, probe_count: 0 };
    lemma_run_selection(s, outcomes);
    lemma_first_ready_from_none(outcomes, 0);
}

/// `first_ready_from` answers exactly the first index with a ready outcome.
proof fn lemma_first_ready_from_characterisation(outcomes: Seq<bool>, from: int, i: int)
    requires
        0 <= from <= i < outcomes.len(),
        outcomes[i],
        forall|j: int| from <= j < i ==> !outcomes[j],
    ensures
        first_ready_from(outcomes, from) == Some(i),
    decreases i - from,
{
    if from < i {
        lemma_first_ready_from_characterisation(outcomes, from + 1, i);
    }
}

/// `first_ready_from` answers nothing where no outcome is ready.
proof fn lemma_first_ready_from_none(outcomes: Seq<bool>, from: int)
    requires
        0 <= from,
        forall|j: int| from <= j < outcomes.len() ==> !outcomes[j],
    ensures
        first_ready_from(outcomes, from) is None,
    decreases outcomes.len() - from,
{
    if from < outcomes.len() {
        lemma_first_ready_from_none(outcomes, from + 1);
    }
}

/// Selection is memoized: once a target is committed, every later call
/// answers `Use` of that identical target and no probe is ever asked for
/// again (`record_probe` requires that no target is committed, so no new
/// probe can even be recorded).
pub proof fn lemma_select_memoized(s: Selector, i: usize)
    requires
        s.wf(),
        s.selected == Some(i),
    ensures
        Selector::action_spec(s) == SelectAction::Use(i),
        forall|j: usize| Selector::action_spec(s) != SelectAction::Probe(j),
{
}

} // verus!
