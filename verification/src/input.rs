//! The keys of the host as keys of Android.
//!
//! A key of the host goes by its SDL number: that of its character where it has
//! one, and one of a range of its own otherwise. Three keys of the host stand
//! for the navigation that an app's window has no room for.

use crate::control::keycodes::{
    AKEYCODE_0,
    AKEYCODE_A,
    AKEYCODE_APOSTROPHE,
    AKEYCODE_APP_SWITCH,
    AKEYCODE_BACK,
    AKEYCODE_BACKSLASH,
    AKEYCODE_COMMA,
    AKEYCODE_DEL,
    AKEYCODE_DPAD_DOWN,
    AKEYCODE_DPAD_LEFT,
    AKEYCODE_DPAD_RIGHT,
    AKEYCODE_DPAD_UP,
    AKEYCODE_ENTER,
    AKEYCODE_EQUALS,
    AKEYCODE_FORWARD_DEL,
    AKEYCODE_GRAVE,
    AKEYCODE_HOME,
    AKEYCODE_LEFT_BRACKET,
    AKEYCODE_MINUS,
    AKEYCODE_MOVE_END,
    AKEYCODE_MOVE_HOME,
    AKEYCODE_PAGE_DOWN,
    AKEYCODE_PAGE_UP,
    AKEYCODE_PERIOD,
    AKEYCODE_RIGHT_BRACKET,
    AKEYCODE_SEMICOLON,
    AKEYCODE_SLASH,
    AKEYCODE_SPACE,
    AKEYCODE_TAB,
};
use crate::control::metastate::{AMETA_ALT_ON, AMETA_CTRL_ON, AMETA_SHIFT_ON};
use vstd::prelude::*;

verus! {

pub const KEY_RETURN: u32 = 0xd;
pub const KEY_ESCAPE: u32 = 0x1b;
pub const KEY_BACKSPACE: u32 = 0x8;
pub const KEY_TAB: u32 = 0x9;
pub const KEY_SPACE: u32 = 0x20;
pub const KEY_DELETE: u32 = 0x7f;
pub const KEY_APOSTROPHE: u32 = 0x27;
pub const KEY_COMMA: u32 = 0x2c;
pub const KEY_MINUS: u32 = 0x2d;
pub const KEY_PERIOD: u32 = 0x2e;
pub const KEY_SLASH: u32 = 0x2f;
pub const KEY_SEMICOLON: u32 = 0x3b;
pub const KEY_EQUALS: u32 = 0x3d;
pub const KEY_LEFT_BRACKET: u32 = 0x5b;
pub const KEY_BACKSLASH: u32 = 0x5c;
pub const KEY_RIGHT_BRACKET: u32 = 0x5d;
pub const KEY_GRAVE: u32 = 0x60;
pub const KEY_F1: u32 = 0x4000003a;
pub const KEY_F2: u32 = 0x4000003b;
pub const KEY_HOME: u32 = 0x4000004a;
pub const KEY_PAGE_UP: u32 = 0x4000004b;
pub const KEY_END: u32 = 0x4000004d;
pub const KEY_PAGE_DOWN: u32 = 0x4000004e;
pub const KEY_RIGHT: u32 = 0x4000004f;
pub const KEY_LEFT: u32 = 0x40000050;
pub const KEY_DOWN: u32 = 0x40000051;
pub const KEY_UP: u32 = 0x40000052;

/// The bits of the keys that are held with another, left and right.
pub const MOD_SHIFT: u16 = 0x0003;
pub const MOD_CTRL: u16 = 0x00c0;
pub const MOD_ALT: u16 = 0x0300;

/// The flag where the bit is set.
pub open spec fn flag(set: bool, value: i32) -> int {
    if set {
        value as int
    } else {
        0
    }
}

/// The keys that are held with another, as Android counts them.
pub open spec fn meta(mods: u16) -> int {
    flag(mods & MOD_SHIFT != 0, AMETA_SHIFT_ON) + flag(mods & MOD_ALT != 0, AMETA_ALT_ON) + flag(
        mods & MOD_CTRL != 0,
        AMETA_CTRL_ON,
    )
}

/// The keys that are held with another, as Android counts them.
pub fn meta_of(mods: u16) -> (r: i32)
    ensures
        r == meta(mods),
{
    let mut r: i32 = 0;
    if mods & MOD_SHIFT != 0 {
        r = r + AMETA_SHIFT_ON;
    }
    if mods & MOD_ALT != 0 {
        r = r + AMETA_ALT_ON;
    }
    if mods & MOD_CTRL != 0 {
        r = r + AMETA_CTRL_ON;
    }
    r
}

/// The key of Android for a key of the host; none where there is no such key.
pub open spec fn android_key(key: u32) -> Option<i32> {
    if 97 <= key <= 122 {
        Some((AKEYCODE_A + (key - 97)) as i32)
    } else if 48 <= key <= 57 {
        Some((AKEYCODE_0 + (key - 48)) as i32)
    } else if key == KEY_RETURN {
        Some(AKEYCODE_ENTER)
    } else if key == KEY_BACKSPACE {
        Some(AKEYCODE_DEL)
    } else if key == KEY_DELETE {
        Some(AKEYCODE_FORWARD_DEL)
    } else if key == KEY_TAB {
        Some(AKEYCODE_TAB)
    } else if key == KEY_SPACE {
        Some(AKEYCODE_SPACE)
    } else if key == KEY_UP {
        Some(AKEYCODE_DPAD_UP)
    } else if key == KEY_DOWN {
        Some(AKEYCODE_DPAD_DOWN)
    } else if key == KEY_LEFT {
        Some(AKEYCODE_DPAD_LEFT)
    } else if key == KEY_RIGHT {
        Some(AKEYCODE_DPAD_RIGHT)
    } else if key == KEY_COMMA {
        Some(AKEYCODE_COMMA)
    } else if key == KEY_PERIOD {
        Some(AKEYCODE_PERIOD)
    } else if key == KEY_MINUS {
        Some(AKEYCODE_MINUS)
    } else if key == KEY_EQUALS {
        Some(AKEYCODE_EQUALS)
    } else if key == KEY_LEFT_BRACKET {
        Some(AKEYCODE_LEFT_BRACKET)
    } else if key == KEY_RIGHT_BRACKET {
        Some(AKEYCODE_RIGHT_BRACKET)
    } else if key == KEY_BACKSLASH {
        Some(AKEYCODE_BACKSLASH)
    } else if key == KEY_SEMICOLON {
        Some(AKEYCODE_SEMICOLON)
    } else if key == KEY_APOSTROPHE {
        Some(AKEYCODE_APOSTROPHE)
    } else if key == KEY_GRAVE {
        Some(AKEYCODE_GRAVE)
    } else if key == KEY_SLASH {
        Some(AKEYCODE_SLASH)
    } else if key == KEY_HOME {
        Some(AKEYCODE_MOVE_HOME)
    } else if key == KEY_END {
        Some(AKEYCODE_MOVE_END)
    } else if key == KEY_PAGE_UP {
        Some(AKEYCODE_PAGE_UP)
    } else if key == KEY_PAGE_DOWN {
        Some(AKEYCODE_PAGE_DOWN)
    } else if key == KEY_ESCAPE {
        Some(AKEYCODE_BACK)
    } else if key == KEY_F1 {
        Some(AKEYCODE_HOME)
    } else if key == KEY_F2 {
        Some(AKEYCODE_APP_SWITCH)
    } else {
        None
    }
}

/// The key of Android for a key of the host; none where there is no such key.
pub fn android_keycode(key: u32) -> (r: Option<i32>)
    ensures
        r == android_key(key),
{
    if 97 <= key && key <= 122 {
        Some(AKEYCODE_A + (key - 97) as i32)
    } else if 48 <= key && key <= 57 {
        Some(AKEYCODE_0 + (key - 48) as i32)
    } else if key == KEY_RETURN {
        Some(AKEYCODE_ENTER)
    } else if key == KEY_BACKSPACE {
        Some(AKEYCODE_DEL)
    } else if key == KEY_DELETE {
        Some(AKEYCODE_FORWARD_DEL)
    } else if key == KEY_TAB {
        Some(AKEYCODE_TAB)
    } else if key == KEY_SPACE {
        Some(AKEYCODE_SPACE)
    } else if key == KEY_UP {
        Some(AKEYCODE_DPAD_UP)
    } else if key == KEY_DOWN {
        Some(AKEYCODE_DPAD_DOWN)
    } else if key == KEY_LEFT {
        Some(AKEYCODE_DPAD_LEFT)
    } else if key == KEY_RIGHT {
        Some(AKEYCODE_DPAD_RIGHT)
    } else if key == KEY_COMMA {
        Some(AKEYCODE_COMMA)
    } else if key == KEY_PERIOD {
        Some(AKEYCODE_PERIOD)
    } else if key == KEY_MINUS {
        Some(AKEYCODE_MINUS)
    } else if key == KEY_EQUALS {
        Some(AKEYCODE_EQUALS)
    } else if key == KEY_LEFT_BRACKET {
        Some(AKEYCODE_LEFT_BRACKET)
    } else if key == KEY_RIGHT_BRACKET {
        Some(AKEYCODE_RIGHT_BRACKET)
    } else if key == KEY_BACKSLASH {
        Some(AKEYCODE_BACKSLASH)
    } else if key == KEY_SEMICOLON {
        Some(AKEYCODE_SEMICOLON)
    } else if key == KEY_APOSTROPHE {
        Some(AKEYCODE_APOSTROPHE)
    } else if key == KEY_GRAVE {
        Some(AKEYCODE_GRAVE)
    } else if key == KEY_SLASH {
        Some(AKEYCODE_SLASH)
    } else if key == KEY_HOME {
        Some(AKEYCODE_MOVE_HOME)
    } else if key == KEY_END {
        Some(AKEYCODE_MOVE_END)
    } else if key == KEY_PAGE_UP {
        Some(AKEYCODE_PAGE_UP)
    } else if key == KEY_PAGE_DOWN {
        Some(AKEYCODE_PAGE_DOWN)
    } else if key == KEY_ESCAPE {
        Some(AKEYCODE_BACK)
    } else if key == KEY_F1 {
        Some(AKEYCODE_HOME)
    } else if key == KEY_F2 {
        Some(AKEYCODE_APP_SWITCH)
    } else {
        None
    }
}

/// Different letters and digits are different keys of Android.
pub proof fn letters_and_digits_differ(a: u32, b: u32)
    requires
        97 <= a <= 122 || 48 <= a <= 57,
        97 <= b <= 122 || 48 <= b <= 57,
        a != b,
    ensures
        android_key(a) != android_key(b),
{
}

/// No two keys of the host are the same key of Android, and letters and digits
/// are counted from the first of each.
pub proof fn keys_differ(a: u32, b: u32)
    requires
        a != b,
        android_key(a) is Some,
    ensures
        android_key(a) != android_key(b),
        97 <= a <= 122 ==> android_key(a) == Some((29 + (a - 97)) as i32),
        48 <= a <= 57 ==> android_key(a) == Some((7 + (a - 48)) as i32),
{
}

/// The keys that are held with another count for themselves: each adds its own
/// flag, whether the left one or the right one is held, and the others change
/// nothing.
pub proof fn held_keys_count_for_themselves(mods: u16)
    ensures
        meta(mods) == (if mods & 1 != 0 || mods & 2 != 0 {
            1int
        } else {
            0
        }) + (if mods & 0x100 != 0 || mods & 0x200 != 0 {
            2int
        } else {
            0
        }) + (if mods & 0x40 != 0 || mods & 0x80 != 0 {
            0x1000int
        } else {
            0
        }),
{
    assert((mods & 0x0003u16 != 0) == (mods & 1 != 0 || mods & 2 != 0)) by (bit_vector);
    assert((mods & 0x0300u16 != 0) == (mods & 0x100 != 0 || mods & 0x200 != 0)) by (bit_vector);
    assert((mods & 0x00c0u16 != 0) == (mods & 0x40 != 0 || mods & 0x80 != 0)) by (bit_vector);
}

} // verus!
