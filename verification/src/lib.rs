//! Keyboard-focus cycling for a fleet of windows of one application.
//!
//! Several running instances of the same program are told apart by a fixed
//! title prefix.  This crate holds the window record model, the cycling
//! engine that tracks the current selection and plans backend operations,
//! the persisted index mirror, and the pure protocol logic of each window
//! manager backend: listing parsers, command builders, and the filter that
//! selects the matched windows.  Everything that talks to the outside world
//! (process spawning, the display protocol, the mirror file) lives in the
//! thin front end built on top of this crate.

pub mod backend;
pub mod engine;
pub mod hyprland;
pub mod json;
pub mod kwin;
pub mod mirror;
pub mod numeral;
pub mod sway;
pub mod text;
pub mod window;
pub mod x11;
