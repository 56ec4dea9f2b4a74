//! The screen engine: styled lines, the window that scrolls over them, the table
//! of key handlers and the session that drives one screen.

use vstd::prelude::*;

pub mod component;
pub mod frame;
pub mod key_handlers;
pub mod line;
pub mod palette;
pub mod renderer;
pub mod search;
pub mod window;

verus! {

/// A modal session that can be run to completion on a terminal.
pub trait Render {
    /// Runs the session until its screen asks to leave.
    fn render(&mut self);
}

/// A cell of the terminal: column `x`, row `y`, counted from the top left corner.
#[derive(Clone, Copy, PartialEq, Eq, Debug, Structural)]
pub struct Point {
    pub x: i32,
    pub y: i32,
}

} // verus!
