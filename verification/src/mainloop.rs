//! The steady-state loop's decision core: one tick polls the debounced button,
//! updates the counter, and redraws exactly when the state is dirty. The
//! caller supplies the sampled line level and the current timestamp, performs
//! the bus transfer of a returned frame, and sleeps the fixed tick between
//! iterations.

use crate::counter::CounterState;
use crate::debounce::{ButtonState, press_accepted};
use crate::frame::{FrameRenderer, blank_frame, text_blit};
use crate::text::{lemma_roar_text_len, roar_label, roar_text};
use vstd::prelude::*;

verus! {

/// Pixel x position of the counter text.
pub const MAIN_TEXT_X: i32 = 0;

/// Pixel y position of the counter text.
pub const MAIN_TEXT_Y: i32 = 20;

/// The fixed tick the caller sleeps between iterations, milliseconds.
pub const TICK_MS: u32 = 1;

/// Whether a tick's accepted-press check fires: the line is pressed and the
/// debounce filter accepts it.
pub open spec fn tick_accepts(b: ButtonState, pressed: bool, now_ms: u64) -> bool {
    pressed && press_accepted(b.last_press_ms, b.window_ms, now_ms)
}

/// Whether a tick redraws: exactly when a press was just accepted or the
/// counter was already dirty.
pub open spec fn tick_redraws(c: CounterState, b: ButtonState, pressed: bool, now_ms: u64) -> bool {
    tick_accepts(b, pressed, now_ms) || c.dirty
}

/// Composes and flushes the steady-state frame for `count`: clear, draw
/// "Roar {count}" at the fixed position, flush. The loop entry shows the
/// initial counter value through this once, before any tick; afterwards the
/// tick redraws through it exactly when a press was accepted.
pub fn render_count_frame(r: &mut FrameRenderer, count: u64) -> (frame: Vec<u8>)
    requires
        old(r).wf(),
    ensures
        final(r).wf(),
        frame@ == text_blit(
            blank_frame(),
            roar_text(count),
            MAIN_TEXT_X as int,
            MAIN_TEXT_Y as int,
        ),
        final(r).buffer() == frame@,
        final(r).phase() is Flushed,
{
    let label = roar_label(count);
    proof {
        lemma_roar_text_len(count);
    }
    r.clear();
    r.draw_text(label.as_str(), MAIN_TEXT_X, MAIN_TEXT_Y);
    r.flush()
}

/// One iteration of the steady-state loop. If the press is accepted, the
/// counter grows by exactly 1 and turns dirty; if the counter is dirty the
/// tick composes the "Roar {count}" frame (clear, draw, flush), returns it for
/// the bus transfer and leaves the counter clean. On a tick with no accepted
/// press and a clean counter, nothing is drawn or flushed and the renderer is
/// untouched — and since the counter starts clean and every tick leaves it
/// clean, a tick redraws exactly when its accepted-press check fires.
pub fn tick(
    c: &mut CounterState,
    b: &mut ButtonState,
    r: &mut FrameRenderer,
    pressed: bool,
    now_ms: u64,
) -> (frame: Option<Vec<u8>>)
    requires
        old(c).count < u64::MAX,
        old(r).wf(),
    ensures
        final(r).wf(),
        final(b).window_ms == old(b).window_ms,
        final(b).last_press_ms == (if tick_accepts(*old(b), pressed, now_ms) {
            Some(now_ms)
        } else {
            old(b).last_press_ms
        }),
        final(c).count == old(c).count + (if tick_accepts(*old(b), pressed, now_ms) {
            1int
        } else {
            0int
        }),
        !final(c).dirty,
        frame is Some <==> tick_redraws(*old(c), *old(b), pressed, now_ms),
        (frame matches Some(f) ==> f@ == text_blit(
            blank_frame(),
            roar_text(final(c).count),
            MAIN_TEXT_X as int,
            MAIN_TEXT_Y as int,
        )),
        (frame matches Some(f) ==> final(r).buffer() == f@ && final(r).phase() is Flushed),
        frame is None ==> *final(r) == *old(r),
{
    let accepted = if pressed {
        b.accept_press(now_ms)
    } else {
        false
    };
    if accepted {
        c.record_press();
    }
    if c.dirty {
        let f = render_count_frame(r, c.count);
        c.mark_clean();
        Some(f)
    } else {
        None
    }
}

/// Dirty-flag law: with a clean counter at the start of a tick — as it is at
/// loop entry and after every tick, since the counter starts clean and a tick
/// always leaves it clean — the tick redraws exactly when its accepted-press
/// check fires; in particular, ticks without an accepted press never flush.
pub proof fn lemma_redraw_iff_accepted(c: CounterState, b: ButtonState, pressed: bool, now_ms: u64)
    requires
        !c.dirty,
    ensures
        tick_redraws(c, b, pressed, now_ms) <==> tick_accepts(b, pressed, now_ms),
{
}

} // verus!
