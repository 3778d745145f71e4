//! The decisions of an X11 screen locker.
//!
//! The library holds everything that the locker decides or computes: which
//! monitors to cover, how a key press changes the typed password, when the
//! screen is redrawn, how often a grab is retried, what a frame looks like and
//! which message a refused login shows. Talking to the X server, to PAM and to
//! the clock is left to the program around it, which performs the actions that
//! the library asks for and hands back what came of them.

pub mod auth;
pub mod clock;
pub mod grab;
pub mod input;
pub mod keysyms;
pub mod laws;
pub mod locker;
pub mod monitor;
pub mod render;
pub mod text;
pub mod window;
