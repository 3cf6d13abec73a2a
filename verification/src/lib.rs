//! Verified core of an `async` driver for Waveshare e-paper displays.
//!
//! The crate holds what such a driver decides and computes:
//!
//! * [`buffer`]: compact framebuffers that pack pixels into bytes, and the drawing operations
//!   on them;
//! * [`rotation`]: drawing through quarter-turn rotations;
//! * [`display`] and the `epd*` modules: the panels' states and the command sequences that
//!   initialise, refresh, clear and put them to sleep, planned as hardware [`hw::Step`]s;
//! * [`hw`]: how a command with its data goes over the bus, and when to wait for a busy panel.
//!
//! Carrying out the steps over SPI, pins and timers is left to the caller.
pub mod buffer;
pub mod canvas;
pub mod display;
pub mod epd7in3e;
pub mod epd7in5_v2;
pub mod geometry;
pub mod hw;
pub mod rotation;

pub use display::{Clear, DisplayPartial, DisplaySimple, Displayable, Reset, Sleep, Wake};
