//! A keyboard-driven terminal front-end for a version-control working tree:
//! styled lines, scrollable windows, key dispatch, and the screens built on them.
//!
//! Every screen is a state machine. A key press goes in, the new state of the
//! screen and its window comes out, together with the outside work (a command to
//! run, a nested screen to show) that the host performs before it paints the
//! next frame.

pub mod ascii_table;
pub mod gitko;
pub mod render;
pub mod text;
