//! Verified render/input core for a one-button counter display.
//!
//! The library drives a small 128x64 monochrome display: a boot splash image,
//! a short count-up animation, then a steady-state loop that increments and
//! shows a counter on each debounced button press. The hardware edges (bus
//! transport, pin sampling, clock, sleeps) stay outside; the library decides
//! when to redraw and composes each frame into an off-screen buffer.

pub mod boot;
pub mod counter;
pub mod debounce;
pub mod frame;
pub mod mainloop;
pub mod text;
