//! The keys that are held down with another, as Android counts them.

use vstd::prelude::*;

verus! {

pub const AMETA_NONE: i32 = 0;
pub const AMETA_SHIFT_ON: i32 = 0x01;
pub const AMETA_ALT_ON: i32 = 0x02;
pub const AMETA_CTRL_ON: i32 = 0x1000;

} // verus!
