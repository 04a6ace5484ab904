//! The shared context: one aggregate that every agent reads as a whole and
//! that one writer at a time changes.

use vstd::prelude::*;

use crate::types::PerformanceMetrics;
use crate::types::SystemContext;

verus! {

/// Holds the shared state. A reader gets a copy of the whole state; a writer
/// needs the holder for itself while it changes the state.
pub struct SharedContext {
    state: SystemContext,
}

impl View for SharedContext {
    type V = SystemContext;

    closed spec fn view(&self) -> SystemContext {
        self.state
    }
}

impl SharedContext {
    /// Creates the holder with its first state.
    pub fn new(initial: SystemContext) -> (shared: SharedContext)
        ensures
            shared@ == initial,
    {
        SharedContext { state: initial }
    }

    /// A copy of the whole state as it is now. Later changes do not reach
    /// the copy.
    pub fn snapshot(&self) -> (copy: SystemContext)
        ensures
            copy == self@,
    {
        self.state
    }

    /// Applies `update` to the state. The new state is what `update` makes of
    /// the old one, whole: nothing else can read or write in between.
    pub fn mutate<F: FnOnce(SystemContext) -> SystemContext>(&mut self, update: F)
        requires
            update.requires((old(self)@,)),
        ensures
            update.ensures((old(self)@,), final(self)@),
    {
        self.state = update(self.state);
    }

    /// Replaces the performance figures and leaves the rest as it is.
    pub fn set_performance_metrics(&mut self, metrics: PerformanceMetrics)
        ensures
            final(self)@ == (SystemContext { performance_metrics: metrics, ..old(self)@ }),
    {
        self.state.performance_metrics = metrics;
    }

    /// Counts one more open position, unless the count is at its limit.
    /// Returns whether it was counted.
    pub fn open_position(&mut self) -> (counted: bool)
        ensures
            counted == (old(self)@.active_positions < u32::MAX),
            counted ==> position_opened(old(self)@, final(self)@),
            !counted ==> final(self)@ == old(self)@,
    {
        if self.state.active_positions < u32::MAX {
            self.state.active_positions = self.state.active_positions + 1;
            true
        } else {
            false
        }
    }
}

/// Whether `after` is `before` with one more open position.
pub open spec fn position_opened(before: SystemContext, after: SystemContext) -> bool {
    after == (SystemContext {
        active_positions: (before.active_positions + 1) as u32,
        ..before
    }) && before.active_positions < u32::MAX
}

/// Whether each state of `states` follows from the one before it by one
/// position being opened: the states that a series of such mutations leaves,
/// in the order in which they were applied.
pub open spec fn positions_opened_in_turn(states: Seq<SystemContext>) -> bool {
    forall|i: int| 0 <= i < states.len() - 1 ==> position_opened(states[i], #[trigger] states[i + 1])
}

/// No update is lost: however many mutations that each open one position are
/// applied, and in whatever order they get their turn, the count ends as many
/// higher as there were mutations.
pub proof fn lemma_no_update_lost(states: Seq<SystemContext>)
    requires
        states.len() > 0,
        positions_opened_in_turn(states),
    ensures
        states.last().active_positions == states[0].active_positions + states.len() - 1,
        states.last() == (SystemContext {
            active_positions: states.last().active_positions,
            ..states[0]
        }),
    decreases states.len(),
{
    if states.len() > 1 {
        let earlier = states.drop_last();
        assert forall|i: int| 0 <= i < earlier.len() - 1 implies position_opened(
            earlier[i],
            #[trigger] earlier[i + 1],
        ) by {
            assert(earlier[i] == states[i]);
            assert(earlier[i + 1] == states[i + 1]);
        }
        lemma_no_update_lost(earlier);
        assert(position_opened(states[states.len() - 2], states[states.len() - 2 + 1]));
        assert(earlier.last() == states[states.len() - 2]);
    }
}

} // verus!
