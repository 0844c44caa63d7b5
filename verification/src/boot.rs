//! Boot sequence: a one-shot state machine that shows the splash image once,
//! then plays the count-up animation, then hands control to the main loop.
//! Each step composes at most one complete frame; the caller performs the bus
//! transfer and the dwell between frames.

use crate::frame::{FRAME_HEIGHT, FrameRenderer, blank_frame, image_blit, text_blit};
use crate::text::{lemma_roar_text_len, roar_label, roar_text};
use vstd::prelude::*;

verus! {

/// Frames of the count-up animation.
pub const COUNTUP_FRAMES: u32 = 100;

/// How long the splash frame is held, milliseconds.
pub const SPLASH_DWELL_MS: u32 = 5000;

/// Dwell between count-up frames, milliseconds.
pub const COUNTUP_DWELL_MS: u32 = 1;

/// Bytes of tool metadata at the front of the boot image asset; they carry no
/// pixel data and are stripped before drawing.
pub const HEADER_BYTES: usize = 4;

/// Pixel x position of the count-up text.
pub const COUNTUP_TEXT_X: i32 = 10;

/// State of the one-shot boot sequence; strictly sequential, no loop-back.
pub enum BootState {
    /// The splash image is about to be shown.
    Splash,
    /// The count-up animation is running; `i` is the next frame index.
    CountUp { i: u32 },
    /// The sequence is finished; control belongs to the main loop.
    Done,
}

/// The state after one boot step.
pub open spec fn boot_next(s: BootState) -> BootState {
    match s {
        BootState::Splash => BootState::CountUp { i: 0 },
        BootState::CountUp { i } => if i < COUNTUP_FRAMES {
            BootState::CountUp { i: (i + 1) as u32 }
        } else {
            BootState::Done
        },
        BootState::Done => BootState::Done,
    }
}

/// Whether a step from `s` draws and flushes one frame.
pub open spec fn boot_emits(s: BootState) -> bool {
    match s {
        BootState::Splash => true,
        BootState::CountUp { i } => i < COUNTUP_FRAMES,
        BootState::Done => false,
    }
}

/// Steps left until the boot sequence is done.
pub open spec fn boot_rank(s: BootState) -> nat {
    match s {
        BootState::Splash => (COUNTUP_FRAMES + 2) as nat,
        BootState::CountUp { i } => if i < COUNTUP_FRAMES {
            (COUNTUP_FRAMES + 1 - i) as nat
        } else {
            1nat
        },
        BootState::Done => 0nat,
    }
}

/// How many draw+flush pairs the boot sequence still produces from state `s`.
pub open spec fn boot_pairs(s: BootState) -> nat
    decreases boot_rank(s),
{
    if s is Done {
        0nat
    } else {
        (if boot_emits(s) {
            1nat
        } else {
            0nat
        }) + boot_pairs(boot_next(s))
    }
}

/// Strips the asset header: the drawable pixel data is everything after the
/// fixed 4-byte header written by the image conversion tool, so an asset of
/// length L yields exactly L - 4 bytes of pixel data.
pub fn boot_image_payload(asset: &[u8]) -> (r: Vec<u8>)
    requires
        asset@.len() >= HEADER_BYTES,
    ensures
        r@ == asset@.skip(HEADER_BYTES as int),
        r@.len() == asset@.len() - HEADER_BYTES,
{
    let mut r: Vec<u8> = Vec::new();
    let mut idx: usize = HEADER_BYTES;
    while idx < asset.len()
        invariant
            HEADER_BYTES <= idx <= asset@.len(),
            r@ == asset@.subrange(HEADER_BYTES as int, idx as int),
        decreases asset@.len() - idx,
    {
        let b = asset[idx];
        r.push(b);
        idx = idx + 1;
        proof {
            assert(r@ =~= asset@.subrange(HEADER_BYTES as int, idx as int));
        }
    }
    proof {
        assert(r@ =~= asset@.skip(HEADER_BYTES as int));
    }
    r
}

/// The boot sequence: the raw splash asset (header still on) and the current
/// state.
pub struct BootSequence {
    asset: Vec<u8>,
    state: BootState,
}

impl BootSequence {
    /// The current state.
    pub closed spec fn state(self) -> BootState {
        self.state
    }

    /// The raw splash asset bytes, header included.
    pub closed spec fn asset_bytes(self) -> Seq<u8> {
        self.asset@
    }

    /// Well-formed: the asset holds at least its header.
    pub open spec fn wf(self) -> bool {
        self.asset_bytes().len() >= HEADER_BYTES
    }

    /// A boot sequence about to show the splash drawn from `asset`.
    pub fn new(asset: Vec<u8>) -> (r: BootSequence)
        requires
            asset@.len() >= HEADER_BYTES,
        ensures
            r.wf(),
            r.state() is Splash,
            r.asset_bytes() == asset@,
    {
        BootSequence { asset, state: BootState::Splash }
    }

    /// Whether the sequence has handed control off.
    pub fn is_done(&self) -> (r: bool)
        ensures
            r == (self.state() is Done),
    {
        match self.state {
            BootState::Done => true,
            _ => false,
        }
    }

    /// One boot step: composes and flushes at most one complete frame
    /// (clear, one draw, flush) and advances the state. A `Some` result
    /// carries the finished frame and how long to hold it, milliseconds:
    /// the splash frame once, then one count-up frame per step.
    pub fn step(&mut self, r: &mut FrameRenderer) -> (out: Option<(Vec<u8>, u32)>)
        requires
            old(self).wf(),
            old(r).wf(),
        ensures
            final(self).wf(),
            final(r).wf(),
            final(self).asset_bytes() == old(self).asset_bytes(),
            final(self).state() == boot_next(old(self).state()),
            out is Some <==> boot_emits(old(self).state()),
            (match old(self).state() {
                BootState::Splash => out matches Some((f, d)) && f@ == image_blit(
                    blank_frame(),
                    old(self).asset_bytes().skip(HEADER_BYTES as int),
                ) && d == SPLASH_DWELL_MS,
                BootState::CountUp { i } => i < COUNTUP_FRAMES ==> (out matches Some((f, d))
                    && f@ == text_blit(
                    blank_frame(),
                    roar_text(i as u64),
                    COUNTUP_TEXT_X as int,
                    (i % FRAME_HEIGHT) as int,
                ) && d == COUNTUP_DWELL_MS),
                BootState::Done => out is None,
            }),
            out is Some ==> final(r).phase() is Flushed,
            out is None ==> *final(r) == *old(r),
    {
        match self.state {
            BootState::Splash => {
                let payload = boot_image_payload(self.asset.as_slice());
                r.clear();
                r.draw_image(payload.as_slice());
                let f = r.flush();
                self.state = BootState::CountUp { i: 0 };
                Some((f, SPLASH_DWELL_MS))
            },
            BootState::CountUp { i } => {
                if i < COUNTUP_FRAMES {
                    let label = roar_label(i as u64);
                    proof {
                        lemma_roar_text_len(i as u64);
                    }
                    r.clear();
                    r.draw_text(label.as_str(), COUNTUP_TEXT_X, (i % FRAME_HEIGHT) as i32);
                    let f = r.flush();
                    self.state = BootState::CountUp { i: i + 1 };
                    Some((f, COUNTUP_DWELL_MS))
                } else {
                    self.state = BootState::Done;
                    None
                }
            },
            BootState::Done => None,
        }
    }
}

/// Count-up law: from frame `i`, the count-up emits exactly
/// `COUNTUP_FRAMES - i` more draw+flush pairs before the sequence is done.
pub proof fn lemma_countup_pairs(i: u32)
    requires
        i <= COUNTUP_FRAMES,
    ensures
        boot_pairs(BootState::CountUp { i }) == COUNTUP_FRAMES - i,
    decreases COUNTUP_FRAMES - i,
{
    if i < COUNTUP_FRAMES {
        lemma_countup_pairs((i + 1) as u32);
        assert(boot_next(BootState::CountUp { i }) == (BootState::CountUp { i: (i + 1) as u32 }));
        assert(boot_pairs(BootState::CountUp { i }) == 1 + boot_pairs(
            BootState::CountUp { i: (i + 1) as u32 },
        ));
    } else {
        assert(boot_pairs(BootState::Done) == 0);
        assert(boot_pairs(BootState::CountUp { i }) == 0 + boot_pairs(BootState::Done));
    }
}

/// Boot law: the whole boot sequence draws and flushes exactly one splash
/// frame — the only pair emitted in the splash state — and then exactly
/// `COUNTUP_FRAMES` count-up frames.
pub proof fn lemma_boot_pairs()
    ensures
        boot_emits(BootState::Splash),
        boot_next(BootState::Splash) == (BootState::CountUp { i: 0 }),
        boot_pairs(BootState::CountUp { i: 0 }) == COUNTUP_FRAMES,
        boot_pairs(BootState::Splash) == COUNTUP_FRAMES + 1,
{
    lemma_countup_pairs(0);
}

} // verus!
