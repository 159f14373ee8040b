//! Window-compositor integration for a desktop launcher, together with the
//! small data transformations the launcher is built from.
//!
//! Everything here is pure: the functions take and return plain values, and
//! the program around the library performs the bus calls and file accesses
//! that the [`compositor::protocol`] state machine asks for.

pub mod text;
pub mod compositor;
pub mod state;
pub mod desktop;
pub mod emoji;
pub mod search;
