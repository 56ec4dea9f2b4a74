//! The key codes that the screens bind, by the name of the key.

use vstd::prelude::*;

verus! {

/// Control-D, "end of transmission".
pub const KEY_EOT: i32 = 4;

/// Enter, "line feed".
pub const KEY_LF: i32 = 10;

/// Control-U, "negative acknowledge".
pub const KEY_NAK: i32 = 21;

/// Control-W, "end of transmission block".
pub const KEY_ETB: i32 = 23;

pub const KEY_FORWARD_SLASH: i32 = 47;

pub const KEY_COLON: i32 = 58;

pub const KEY_C_UPPER: i32 = 67;

pub const KEY_N_UPPER: i32 = 78;

pub const KEY_O_UPPER: i32 = 79;

pub const KEY_P_UPPER: i32 = 80;

pub const KEY_R_UPPER: i32 = 82;

pub const KEY_B_LOWER: i32 = 98;

pub const KEY_C_LOWER: i32 = 99;

pub const KEY_D_LOWER: i32 = 100;

pub const KEY_J_LOWER: i32 = 106;

pub const KEY_K_LOWER: i32 = 107;

pub const KEY_L_LOWER: i32 = 108;

pub const KEY_N_LOWER: i32 = 110;

pub const KEY_T_LOWER: i32 = 116;

pub const KEY_U_LOWER: i32 = 117;

} // verus!
