//! Frame renderer: owns the off-screen 1-bit frame buffer, composes a frame
//! (clear, then draws, then flush) and hands the completed buffer out for the
//! bus transport. Glyph and image rasterization come from embedded_graphics
//! behind trusted wrappers; everything around them is verified, including the
//! clear-before-draw / flush-after-complete-draw ordering, which the phase
//! tracked by the renderer enforces: a partial frame can never be flushed.

use embedded_graphics::Drawable;
use embedded_graphics::framebuffer::Framebuffer;
use embedded_graphics::geometry::Point;
use embedded_graphics::image::{Image, ImageRaw};
use embedded_graphics::mono_font::MonoTextStyle;
use embedded_graphics::mono_font::ascii::FONT_10X20;
use embedded_graphics::pixelcolor::BinaryColor;
use embedded_graphics::pixelcolor::raw::{LittleEndian, RawU1};
use embedded_graphics::text::Text;
use vstd::prelude::*;

verus! {

/// Display width, pixels.
pub const FRAME_WIDTH: u32 = 128;

/// Display height, pixels.
pub const FRAME_HEIGHT: u32 = 64;

/// Bytes in one frame: 1 bit per pixel, row-major, 128 / 8 bytes per row.
pub const FRAME_BYTES: usize = 1024;

/// An all-background frame.
pub open spec fn blank_frame() -> Seq<u8> {
    Seq::new(FRAME_BYTES as nat, |i: int| 0u8)
}

/// What clearing leaves in the buffer: the blank frame, whatever was there.
pub open spec fn clear_spec(buf: Seq<u8>) -> Seq<u8> {
    blank_frame()
}

/// How far a text position or a string may lie from the display before the
/// renderer refuses it; generous, the display itself is 128x64.
pub const TEXT_LIMIT: i32 = 100000;

/// The contents of a 128x64 1-bit frame `buf` after the glyphs of `s` are
/// rasterized into it at pixel position `(x, y)` in the fixed 10x20 monospace
/// font, foreground on; a function of its arguments alone.
pub uninterp spec fn text_blit(buf: Seq<u8>, s: Seq<char>, x: int, y: int) -> Seq<u8>;

/// How many leading bytes of a raw image blit replace frame bytes: the data is
/// packed 1 bit per pixel and 128 pixels wide, so 16 bytes per row; a trailing
/// partial row is ignored, and rows beyond the display height are dropped.
pub open spec fn image_copied_bytes(data_len: int) -> int {
    let rows = data_len / (FRAME_WIDTH as int / 8);
    let visible = if rows < FRAME_HEIGHT as int {
        rows
    } else {
        FRAME_HEIGHT as int
    };
    visible * (FRAME_WIDTH as int / 8)
}

/// The contents of a 128x64 1-bit frame `buf` after the packed 1-bit-per-pixel
/// raster `data`, 128 pixels wide and row-major, is blitted at the origin:
/// both sides pack pixels most-significant-bit first into whole-byte rows, so
/// the fully drawn rows replace the frame bytes one for one and the rest keeps
/// the old contents.
pub open spec fn image_blit(buf: Seq<u8>, data: Seq<u8>) -> Seq<u8> {
    Seq::new(
        buf.len(),
        |i: int|
            if i < image_copied_bytes(data.len() as int) {
                data[i]
            } else {
                buf[i]
            },
    )
}

/// Relies on embedded_graphics: `Text::draw` rasterizes `s` in the 10x20
/// monospace ASCII font at `(x, y)` into a 128x64 1-bit framebuffer. The
/// result depends on its arguments alone, drawing cannot fail (the target's
/// error is `Infallible`) and pixels outside the frame are dropped. The text
/// layout advances the position with 32-bit arithmetic (10 px per glyph, 20
/// per line), so the position and the string length are bounded to keep that
/// arithmetic far from overflow.
#[verifier::external_body]
fn blit_text(buf: &mut Vec<u8>, s: &str, x: i32, y: i32)
    requires
        old(buf)@.len() == FRAME_BYTES,
        -TEXT_LIMIT <= x <= TEXT_LIMIT,
        -TEXT_LIMIT <= y <= TEXT_LIMIT,
        s@.len() <= TEXT_LIMIT,
    ensures
        final(buf)@ == text_blit(old(buf)@, s@, x as int, y as int),
        final(buf)@.len() == FRAME_BYTES,
{
    let mut fb = Framebuffer::<BinaryColor, RawU1, LittleEndian, 128, 64, 1024>::new();
    fb.data_mut().copy_from_slice(buf);
    let style = MonoTextStyle::new(&FONT_10X20, BinaryColor::On);
    Text::new(s, Point::new(x, y), style).draw(&mut fb).unwrap();
    buf.copy_from_slice(fb.data());
}

/// Relies on embedded_graphics: drawing an `ImageRaw` (packed 1 bit per
/// pixel, width 128, rows padded to whole bytes, a trailing partial row
/// ignored) at the origin blits `data` into the 128x64 1-bit framebuffer. The
/// result depends on its arguments alone, drawing cannot fail (the target's
/// error is `Infallible`) and pixels outside the frame are dropped.
#[verifier::external_body]
fn blit_image(buf: &mut Vec<u8>, data: &[u8])
    requires
        old(buf)@.len() == FRAME_BYTES,
    ensures
        final(buf)@ == image_blit(old(buf)@, data@),
        final(buf)@.len() == FRAME_BYTES,
{
    let mut fb = Framebuffer::<BinaryColor, RawU1, LittleEndian, 128, 64, 1024>::new();
    fb.data_mut().copy_from_slice(buf);
    let raw: ImageRaw<BinaryColor> = ImageRaw::new(data, 128);
    Image::new(&raw, Point::zero()).draw(&mut fb).unwrap();
    buf.copy_from_slice(fb.data());
}

/// A fresh all-background frame buffer.
fn blank_vec() -> (r: Vec<u8>)
    ensures
        r@ == blank_frame(),
{
    let mut r: Vec<u8> = Vec::new();
    while r.len() < FRAME_BYTES
        invariant
            r@.len() <= FRAME_BYTES,
            forall|i: int| 0 <= i < r@.len() ==> r@[i] == 0u8,
        decreases FRAME_BYTES - r@.len(),
    {
        r.push(0u8);
    }
    proof {
        assert(r@ =~= blank_frame());
    }
    r
}

/// A copy of a byte buffer.
fn clone_bytes(v: &Vec<u8>) -> (r: Vec<u8>)
    ensures
        r@ == v@,
{
    let mut r: Vec<u8> = Vec::new();
    let mut idx: usize = 0;
    while idx < v.len()
        invariant
            idx <= v@.len(),
            r@ == v@.subrange(0, idx as int),
        decreases v@.len() - idx,
    {
        let b = v[idx];
        r.push(b);
        idx = idx + 1;
        proof {
            assert(r@ =~= v@.subrange(0, idx as int));
        }
    }
    proof {
        assert(r@ =~= v@);
    }
    r
}

/// Where the renderer stands in the clear → draw → flush cycle of one frame.
pub enum FramePhase {
    /// The buffer was cleared and nothing was drawn since.
    Cleared,
    /// At least one draw happened since the last clear: the frame is complete
    /// enough to flush.
    Drawn,
    /// The frame was handed out; the buffer must be cleared before the next
    /// logical frame is drawn.
    Flushed,
}

/// The frame renderer: the off-screen 1-bit buffer for one 128x64 frame, and
/// the phase of the current frame. Draws are rejected after a flush until the
/// next clear, and a flush is rejected until something was drawn, so a flush
/// always follows a complete draw of the current logical content.
pub struct FrameRenderer {
    frame: Vec<u8>,
    phase: Ghost<FramePhase>,
}

impl FrameRenderer {
    /// The off-screen buffer contents.
    pub closed spec fn buffer(self) -> Seq<u8> {
        self.frame@
    }

    /// The phase of the current frame.
    pub closed spec fn phase(self) -> FramePhase {
        self.phase@
    }

    /// Well-formed: the buffer has exactly the fixed frame size.
    pub open spec fn wf(self) -> bool {
        self.buffer().len() == FRAME_BYTES
    }

    /// A fresh renderer: blank buffer, ready to draw.
    pub fn new() -> (r: FrameRenderer)
        ensures
            r.wf(),
            r.buffer() == blank_frame(),
            r.phase() is Cleared,
    {
        FrameRenderer { frame: blank_vec(), phase: Ghost(FramePhase::Cleared) }
    }

    /// Resets the buffer to background (all pixels off).
    pub fn clear(&mut self)
        requires
            old(self).wf(),
        ensures
            final(self).wf(),
            final(self).buffer() == clear_spec(old(self).buffer()),
            final(self).phase() is Cleared,
    {
        self.frame = blank_vec();
        self.phase = Ghost(FramePhase::Cleared);
    }

    /// Rasterizes `s` into the buffer at pixel position `(x, y)`, in the one
    /// text style the device uses: the fixed 10x20 monospace font, foreground
    /// on. The position and the string length must stay within the generous
    /// `TEXT_LIMIT` around the display.
    pub fn draw_text(&mut self, s: &str, x: i32, y: i32)
        requires
            old(self).wf(),
            !(old(self).phase() is Flushed),
            -TEXT_LIMIT <= x <= TEXT_LIMIT,
            -TEXT_LIMIT <= y <= TEXT_LIMIT,
            s@.len() <= TEXT_LIMIT,
        ensures
            final(self).wf(),
            final(self).buffer() == text_blit(old(self).buffer(), s@, x as int, y as int),
            final(self).phase() is Drawn,
    {
        blit_text(&mut self.frame, s, x, y);
        self.phase = Ghost(FramePhase::Drawn);
    }

    /// Blits a packed 1-bit-per-pixel raster, 128 pixels wide, at the origin
    /// — the only placement the device's full-width assets use.
    pub fn draw_image(&mut self, data: &[u8])
        requires
            old(self).wf(),
            !(old(self).phase() is Flushed),
        ensures
            final(self).wf(),
            final(self).buffer() == image_blit(old(self).buffer(), data@),
            final(self).phase() is Drawn,
    {
        blit_image(&mut self.frame, data);
        self.phase = Ghost(FramePhase::Drawn);
    }

    /// Completes the frame: hands the full buffer out for the bus transport.
    /// Only a completely drawn frame can be flushed, and nothing more can be
    /// drawn into it until the next clear.
    pub fn flush(&mut self) -> (r: Vec<u8>)
        requires
            old(self).wf(),
            old(self).phase() is Drawn,
        ensures
            final(self).wf(),
            r@ == old(self).buffer(),
            final(self).buffer() == old(self).buffer(),
            final(self).phase() is Flushed,
    {
        self.phase = Ghost(FramePhase::Flushed);
        clone_bytes(&self.frame)
    }

    /// A copy of the current buffer contents, for inspection; the phase is
    /// untouched.
    pub fn snapshot(&self) -> (r: Vec<u8>)
        ensures
            r@ == self.buffer(),
    {
        clone_bytes(&self.frame)
    }
}

/// Idempotent clear: clearing leaves the blank frame whatever the buffer held
/// before, so clearing twice in a row leaves the buffer identical to clearing
/// once — every pixel at background.
pub proof fn lemma_clear_idempotent(buf: Seq<u8>)
    ensures
        clear_spec(clear_spec(buf)) == clear_spec(buf),
        clear_spec(buf) == blank_frame(),
        forall|i: int| 0 <= i < clear_spec(buf).len() ==> clear_spec(buf)[i] == 0u8,
{
}

} // verus!
