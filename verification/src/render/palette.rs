//! The colours of the terminal's palette of eight that the screens use, by the
//! index under which the terminal driver knows them.

use crate::render::line::Color;
use vstd::prelude::*;

verus! {

/// The index of black in the palette.
pub const BLACK: i16 = 0;

/// The index of red in the palette.
pub const RED: i16 = 1;

/// The index of green in the palette.
pub const GREEN: i16 = 2;

/// The index of cyan in the palette.
pub const CYAN: i16 = 6;

/// The index of white in the palette.
pub const WHITE: i16 = 7;

/// The number of colours in the palette.
pub const COLORS: i16 = 8;

/// The place of `color` in the palette: its index, if that is one of the
/// palette's, and white if not; for a colour given by its shares, the
/// palette's colour that has red, green and blue where the share is at least
/// half. The palette has red at 1, green at 2 and blue at 4, and their mixtures
/// at the sums.
pub open spec fn slot_of(color: Color) -> int {
    match color {
        Color::Indexed(index) => if 0 <= index < COLORS {
            index as int
        } else {
            WHITE as int
        },
        Color::Rgb(red, green, blue) => (if red >= 128 {
            1int
        } else {
            0
        }) + (if green >= 128 {
            2int
        } else {
            0
        }) + (if blue >= 128 {
            4int
        } else {
            0
        }),
    }
}

/// The number of the pair of colours under which the terminal driver is to
/// know `foreground` on `background`: pair 0, the terminal's own, where neither
/// is set; otherwise one of the 64 pairs from 1 on, counted by the foreground's
/// place and then the background's, with white for a foreground and black for
/// a background that is not set.
pub open spec fn pair_of(foreground: Option<Color>, background: Option<Color>) -> int {
    if foreground is None && background is None {
        0
    } else {
        let front = match foreground {
            Some(color) => slot_of(color),
            None => WHITE as int,
        };
        let back = match background {
            Some(color) => slot_of(color),
            None => BLACK as int,
        };
        1 + front * COLORS + back
    }
}

/// `ncurses::COLOR_BLACK`, which the driver declares as the constant 0.
#[verifier::external_body]
fn driver_black() -> (index: i16)
    ensures
        index == BLACK,
{
    ncurses::COLOR_BLACK
}

/// `ncurses::COLOR_RED`, which the driver declares as the constant 1.
#[verifier::external_body]
fn driver_red() -> (index: i16)
    ensures
        index == RED,
{
    ncurses::COLOR_RED
}

/// `ncurses::COLOR_GREEN`, which the driver declares as the constant 2.
#[verifier::external_body]
fn driver_green() -> (index: i16)
    ensures
        index == GREEN,
{
    ncurses::COLOR_GREEN
}

/// `ncurses::COLOR_CYAN`, which the driver declares as the constant 6.
#[verifier::external_body]
fn driver_cyan() -> (index: i16)
    ensures
        index == CYAN,
{
    ncurses::COLOR_CYAN
}

/// The palette's black.
pub fn black() -> (color: Color)
    ensures
        color == Color::Indexed(BLACK),
{
    Color::Indexed(driver_black())
}

/// The palette's red.
pub fn red() -> (color: Color)
    ensures
        color == Color::Indexed(RED),
{
    Color::Indexed(driver_red())
}

/// The palette's green.
pub fn green() -> (color: Color)
    ensures
        color == Color::Indexed(GREEN),
{
    Color::Indexed(driver_green())
}

/// The palette's cyan.
pub fn cyan() -> (color: Color)
    ensures
        color == Color::Indexed(CYAN),
{
    Color::Indexed(driver_cyan())
}

/// The place of `color` in the palette.
pub fn slot(color: Color) -> (index: i16)
    ensures
        index == slot_of(color),
        0 <= index < COLORS,
{
    match color {
        Color::Indexed(index) => if 0 <= index && index < COLORS {
            index
        } else {
            WHITE
        },
        Color::Rgb(red, green, blue) => {
            let mut index: i16 = 0;
            if red >= 128 {
                index = index + 1;
            }
            if green >= 128 {
                index = index + 2;
            }
            if blue >= 128 {
                index = index + 4;
            }
            index
        },
    }
}

/// The number of the pair of colours for `foreground` on `background`.
pub fn pair(foreground: Option<Color>, background: Option<Color>) -> (number: i16)
    ensures
        number == pair_of(foreground, background),
        0 <= number <= COLORS * COLORS,
{
    if foreground.is_none() && background.is_none() {
        return 0;
    }
    let front = match foreground {
        Some(color) => slot(color),
        None => WHITE,
    };
    let back = match background {
        Some(color) => slot(color),
        None => BLACK,
    };
    1 + front * COLORS + back
}

} // verus!
