//! Core logic of a themeable two-screen countdown timer.
//!
//! The crate verifies the domain logic only: the countdown engine with its
//! borrow/reset rules, the cyclic theme selector, the adjustable duration
//! settings, and the two-screen navigation state machine.  Rendering, the
//! real one-second tick source and all other I/O live outside the library
//! and drive it through the message types defined here.

pub mod app;
pub mod countdown;
pub mod display;
pub mod main_screen;
pub mod settings;
pub mod theme;
