//! Debounced input reader: turns raw button samples into clean press events,
//! accepting at most one press per debounce window.

use vstd::prelude::*;

verus! {

/// Milliseconds that must strictly elapse between two accepted presses.
pub const DEBOUNCE_WINDOW_MS: u64 = 200;

/// State of the debounced input reader: the debounce window and the timestamp
/// of the last accepted press (none before the first press, so that the first
/// press is always accepted).
pub struct ButtonState {
    /// Debounce window, milliseconds.
    pub window_ms: u64,
    /// Timestamp (milliseconds) of the last accepted press.
    pub last_press_ms: Option<u64>,
}

/// A press at time `t` is accepted exactly when no press was accepted before,
/// or strictly more than `window` ms elapsed since the last accepted press.
/// Defined for every timestamp ordering: the subtraction is over mathematical
/// integers, so a reading at or before the last accepted press is rejected.
pub open spec fn press_accepted(last: Option<u64>, window: u64, t: u64) -> bool {
    match last {
        Option::None => true,
        Option::Some(l) => t - l > window,
    }
}

/// The recorded last-press timestamp after a press at time `t`: updated only
/// on acceptance.
pub open spec fn press_state_after(last: Option<u64>, window: u64, t: u64) -> Option<u64> {
    if press_accepted(last, window, t) {
        Option::Some(t)
    } else {
        last
    }
}

impl ButtonState {
    /// A fresh reader: no press accepted yet, 200 ms window.
    pub fn new() -> (r: ButtonState)
        ensures
            r.window_ms == DEBOUNCE_WINDOW_MS,
            r.last_press_ms is None,
    {
        ButtonState { window_ms: DEBOUNCE_WINDOW_MS, last_press_ms: None }
    }

    /// Debounce filter: accepts the press at `now_ms` exactly when the elapsed
    /// time since the last accepted press strictly exceeds the window (the
    /// first press is always accepted), and records the timestamp only then.
    /// It never fails, whatever the timestamp ordering: a clock reading at or
    /// before the last accepted press reads as nothing elapsed, so the press
    /// is rejected.
    pub fn accept_press(&mut self, now_ms: u64) -> (accepted: bool)
        ensures
            accepted == press_accepted(old(self).last_press_ms, old(self).window_ms, now_ms),
            final(self).window_ms == old(self).window_ms,
            final(self).last_press_ms == press_state_after(
                old(self).last_press_ms,
                old(self).window_ms,
                now_ms,
            ),
    {
        match self.last_press_ms {
            None => {
                self.last_press_ms = Some(now_ms);
                true
            },
            Some(l) => {
                if now_ms > l && now_ms - l > self.window_ms {
                    self.last_press_ms = Some(now_ms);
                    true
                } else {
                    false
                }
            },
        }
    }
}

/// The acceptance flags of a run of presses at times `ts`, starting from a
/// reader whose last accepted press is `last`.
pub open spec fn debounce_flags(last: Option<u64>, window: u64, ts: Seq<u64>) -> Seq<bool>
    decreases ts.len(),
{
    if ts.len() == 0 {
        Seq::empty()
    } else {
        seq![press_accepted(last, window, ts[0])] + debounce_flags(
            press_state_after(last, window, ts[0]),
            window,
            ts.drop_first(),
        )
    }
}

/// The last accepted timestamp after a run of presses at times `ts`.
pub open spec fn debounce_last(last: Option<u64>, window: u64, ts: Seq<u64>) -> Option<u64>
    decreases ts.len(),
{
    if ts.len() == 0 {
        last
    } else {
        debounce_last(press_state_after(last, window, ts[0]), window, ts.drop_first())
    }
}

/// A run of presses yields one acceptance flag per press.
pub proof fn lemma_debounce_flags_len(last: Option<u64>, window: u64, ts: Seq<u64>)
    ensures
        debounce_flags(last, window, ts).len() == ts.len(),
    decreases ts.len(),
{
    if ts.len() > 0 {
        lemma_debounce_flags_len(press_state_after(last, window, ts[0]), window, ts.drop_first());
    }
}

/// Debounce law: in any run of presses, the press at index `i` is accepted
/// exactly when strictly more than `window` ms elapsed between it and the
/// last accepted press among the earlier ones, and unconditionally when no
/// earlier press was accepted.
pub proof fn lemma_debounce_accepts(last: Option<u64>, window: u64, ts: Seq<u64>, i: int)
    requires
        0 <= i < ts.len(),
    ensures
        debounce_flags(last, window, ts)[i] == press_accepted(
            debounce_last(last, window, ts.take(i)),
            window,
            ts[i],
        ),
    decreases i,
{
    if i == 0 {
        assert(ts.take(0) =~= Seq::<u64>::empty());
    } else {
        let after = press_state_after(last, window, ts[0]);
        lemma_debounce_flags_len(after, window, ts.drop_first());
        lemma_debounce_accepts(after, window, ts.drop_first(), i - 1);
        assert(debounce_flags(last, window, ts) == seq![
            press_accepted(last, window, ts[0]),
        ] + debounce_flags(after, window, ts.drop_first()));
        assert(debounce_flags(last, window, ts)[i] == debounce_flags(
            after,
            window,
            ts.drop_first(),
        )[i - 1]);
        assert(ts.take(i)[0] == ts[0]);
        assert(ts.take(i).drop_first() =~= ts.drop_first().take(i - 1));
        assert(debounce_last(last, window, ts.take(i)) == debounce_last(
            after,
            window,
            ts.take(i).drop_first(),
        ));
        assert(ts.drop_first()[i - 1] == ts[i]);
    }
}

/// Debounce law, first press: a fresh reader accepts the first press of any
/// run unconditionally.
pub proof fn lemma_first_press_accepted(window: u64, ts: Seq<u64>)
    requires
        ts.len() > 0,
    ensures
        debounce_flags(Option::None, window, ts)[0],
{
    assert(debounce_flags(Option::None, window, ts)[0] == press_accepted(
        Option::None,
        window,
        ts[0],
    ));
}

} // verus!
