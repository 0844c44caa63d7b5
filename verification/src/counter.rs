//! Counter state owned by the main loop: the number shown on the display and
//! a dirty flag that marks it as changed since the last completed redraw.

use vstd::prelude::*;

verus! {

/// The displayed counter and its dirty flag. The counter starts at 1 and only
/// ever grows, by exactly 1 per accepted press; the dirty flag is set when the
/// counter changes and cleared right after a completed redraw. It starts
/// clean: the loop entry composes and shows the initial value once, outside
/// the tick, so that a tick redraws exactly when a press was accepted.
pub struct CounterState {
    /// Value shown on the display.
    pub count: u64,
    /// True when `count` changed since the last completed redraw.
    pub dirty: bool,
}

impl CounterState {
    /// The initial state: counter at 1, clean. The caller shows the initial
    /// value once at loop entry; from then on only accepted presses dirty the
    /// state.
    pub fn new() -> (r: CounterState)
        ensures
            r.count == 1,
            !r.dirty,
    {
        CounterState { count: 1, dirty: false }
    }

    /// An accepted press: the counter grows by exactly 1 and the state is
    /// marked dirty.
    pub fn record_press(&mut self)
        requires
            old(self).count < u64::MAX,
        ensures
            final(self).count == old(self).count + 1,
            final(self).dirty,
    {
        self.count = self.count + 1;
        self.dirty = true;
    }

    /// A completed redraw: the dirty flag is cleared, the counter untouched.
    pub fn mark_clean(&mut self)
        ensures
            final(self).count == old(self).count,
            !final(self).dirty,
    {
        self.dirty = false;
    }
}

/// The counter value after a run of ticks whose accepted-press outcomes are
/// `flags`, starting from `start`.
pub open spec fn count_after(start: int, flags: Seq<bool>) -> int
    decreases flags.len(),
{
    if flags.len() == 0 {
        start
    } else {
        count_after(start + if flags[0] { 1int } else { 0int }, flags.drop_first())
    }
}

/// How many presses of a run were accepted.
pub open spec fn num_accepted(flags: Seq<bool>) -> int
    decreases flags.len(),
{
    if flags.len() == 0 {
        0int
    } else {
        (if flags[0] { 1int } else { 0int }) + num_accepted(flags.drop_first())
    }
}

/// Counter law: over any run of ticks the counter grows by exactly the number
/// of accepted presses — in particular it never decreases — so from its
/// initial value it always reads 1 plus the number of presses accepted so far.
pub proof fn lemma_counter_monotone(start: int, flags: Seq<bool>)
    ensures
        count_after(start, flags) == start + num_accepted(flags),
        num_accepted(flags) >= 0,
        count_after(start, flags) >= start,
    decreases flags.len(),
{
    if flags.len() > 0 {
        lemma_counter_monotone(start + if flags[0] { 1int } else { 0int }, flags.drop_first());
    }
}

} // verus!
