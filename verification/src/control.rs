//! The messages of the control channel: input events as the device's server
//! takes them. All numbers are written with their most significant byte first.

use crate::fixed::{fixed, fixed_i16, fixed_u16};
use crate::text::to_chars;
use crate::wire::{
    be, from_be, put_be, to_unsigned16, to_unsigned32, unsigned16, unsigned32,
};
use vstd::prelude::*;
use vstd::utf8::{encode_scalar, encode_utf8};

pub mod keycodes;
pub mod metastate;

verus! {

pub const TYPE_INJECT_KEYCODE: u8 = 0;
pub const TYPE_INJECT_TEXT: u8 = 1;
pub const TYPE_INJECT_TOUCH_EVENT: u8 = 2;
pub const TYPE_INJECT_SCROLL_EVENT: u8 = 3;
pub const TYPE_BACK_OR_SCREEN_ON: u8 = 4;
pub const TYPE_START_APP: u8 = 16;

pub const ACTION_DOWN: u8 = 0;
pub const ACTION_UP: u8 = 1;
pub const ACTION_MOVE: u8 = 2;

pub const BUTTON_PRIMARY: u32 = 1;
pub const BUTTON_SECONDARY: u32 = 2;
pub const BUTTON_TERTIARY: u32 = 4;

/// The pointer that the server takes for a finger on the screen.
pub const POINTER_ID_GENERIC_FINGER: u64 = 0xffff_ffff_ffff_fffe;

/// A point of the stream's picture, with the size of the picture.
#[derive(Debug, Clone, Copy)]
pub struct Position {
    pub x: i32,
    pub y: i32,
    pub width: u16,
    pub height: u16,
}

impl Position {
    /// The twelve bytes of the point and the size.
    pub open spec fn message(self) -> Seq<u8> {
        be(unsigned32(self.x), 4) + be(unsigned32(self.y), 4) + be(self.width as nat, 2) + be(
            self.height as nat,
            2,
        )
    }

    fn put(&self, buf: &mut Vec<u8>)
        ensures
            final(buf)@ == old(buf)@ + self.message(),
    {
        put_be(buf, to_unsigned32(self.x), 4);
        put_be(buf, to_unsigned32(self.y), 4);
        put_be(buf, self.width as u64, 2);
        put_be(buf, self.height as u64, 2);
        assert(buf@ =~= old(buf)@ + self.message());
    }
}

/// The message for a touch. `pressure` is the bits of a fraction of one.
pub open spec fn touch_message(
    action: u8,
    pointer_id: u64,
    pos: Position,
    pressure: u32,
    action_button: u32,
    buttons: u32,
) -> Seq<u8> {
    seq![TYPE_INJECT_TOUCH_EVENT, action] + be(pointer_id as nat, 8) + pos.message() + be(
        fixed(pressure, 16, 0, 0xffff) as nat,
        2,
    ) + be(action_button as nat, 4) + be(buttons as nat, 4)
}

/// Writes a touch, in 32 bytes. `pressure` is the bits of a fraction of one.
pub fn touch_event(
    action: u8,
    pointer_id: u64,
    pos: Position,
    pressure: u32,
    action_button: u32,
    buttons: u32,
) -> (buf: Vec<u8>)
    ensures
        buf@ == touch_message(action, pointer_id, pos, pressure, action_button, buttons),
        buf@.len() == 32,
{
    let mut buf: Vec<u8> = Vec::new();
    buf.push(TYPE_INJECT_TOUCH_EVENT);
    buf.push(action);
    put_be(&mut buf, pointer_id, 8);
    pos.put(&mut buf);
    put_be(&mut buf, fixed_u16(pressure) as u64, 2);
    put_be(&mut buf, action_button as u64, 4);
    put_be(&mut buf, buttons as u64, 4);
    proof {
        assert(buf@ =~= touch_message(action, pointer_id, pos, pressure, action_button, buttons));
        position_len(pos);
        crate::wire::be_len(pointer_id as nat, 8);
        crate::wire::be_len(fixed(pressure, 16, 0, 0xffff) as nat, 2);
        crate::wire::be_len(action_button as nat, 4);
        crate::wire::be_len(buttons as nat, 4);
    }
    buf
}

proof fn position_len(pos: Position)
    ensures
        pos.message().len() == 12,
{
    crate::wire::be_len(unsigned32(pos.x), 4);
    crate::wire::be_len(unsigned32(pos.y), 4);
    crate::wire::be_len(pos.width as nat, 2);
    crate::wire::be_len(pos.height as nat, 2);
}

/// The message for a turn of the wheel.
pub open spec fn scroll_message(pos: Position, hscroll: u32, vscroll: u32, buttons: u32) -> Seq<
    u8,
> {
    seq![TYPE_INJECT_SCROLL_EVENT] + pos.message() + be(
        unsigned16(fixed(hscroll, 15, -0x8000, 0x7fff) as i16),
        2,
    ) + be(unsigned16(fixed(vscroll, 15, -0x8000, 0x7fff) as i16), 2) + be(buttons as nat, 4)
}

/// Writes a turn of the wheel, in 21 bytes. `hscroll` and `vscroll` are the
/// bits of fractions between minus one and one.
pub fn scroll_event(pos: Position, hscroll: u32, vscroll: u32, buttons: u32) -> (buf: Vec<u8>)
    ensures
        buf@ == scroll_message(pos, hscroll, vscroll, buttons),
        buf@.len() == 21,
{
    let mut buf: Vec<u8> = Vec::new();
    buf.push(TYPE_INJECT_SCROLL_EVENT);
    pos.put(&mut buf);
    let h = fixed_i16(hscroll);
    let v = fixed_i16(vscroll);
    put_be(&mut buf, to_unsigned16(h), 2);
    put_be(&mut buf, to_unsigned16(v), 2);
    put_be(&mut buf, buttons as u64, 4);
    proof {
        assert(buf@ =~= scroll_message(pos, hscroll, vscroll, buttons));
        position_len(pos);
        crate::wire::be_len(unsigned16(h), 2);
        crate::wire::be_len(unsigned16(v), 2);
        crate::wire::be_len(buttons as nat, 4);
    }
    buf
}

/// The message for a key.
pub open spec fn key_message(action: u8, keycode: i32, repeat: i32, metastate: i32) -> Seq<u8> {
    seq![TYPE_INJECT_KEYCODE, action] + be(unsigned32(keycode), 4) + be(unsigned32(repeat), 4) + be(
        unsigned32(metastate),
        4,
    )
}

/// Writes a key, in 14 bytes.
pub fn key_event(action: u8, keycode: i32, repeat: i32, metastate: i32) -> (buf: Vec<u8>)
    ensures
        buf@ == key_message(action, keycode, repeat, metastate),
        buf@.len() == 14,
{
    let mut buf: Vec<u8> = Vec::new();
    buf.push(TYPE_INJECT_KEYCODE);
    buf.push(action);
    put_be(&mut buf, to_unsigned32(keycode), 4);
    put_be(&mut buf, to_unsigned32(repeat), 4);
    put_be(&mut buf, to_unsigned32(metastate), 4);
    proof {
        assert(buf@ =~= key_message(action, keycode, repeat, metastate));
        crate::wire::be_len(unsigned32(keycode), 4);
        crate::wire::be_len(unsigned32(repeat), 4);
        crate::wire::be_len(unsigned32(metastate), 4);
    }
    buf
}

/// The message for a text: its length in bytes, and its bytes.
pub open spec fn text_message(text: Seq<u8>) -> Seq<u8> {
    seq![TYPE_INJECT_TEXT] + be(text.len(), 4) + text
}

/// Writes a text.
pub fn text_event(text: &str) -> (buf: Vec<u8>)
    ensures
        buf@ == text_message(encode_utf8(text@)),
{
    let bytes = text.as_bytes();
    let mut buf: Vec<u8> = Vec::new();
    buf.push(TYPE_INJECT_TEXT);
    put_be(&mut buf, bytes.len() as u64, 4);
    buf.extend_from_slice(bytes);
    assert(buf@ =~= text_message(bytes@));
    buf
}

/// Writes a press of the back key, which wakes a screen that is off.
pub fn back_or_screen_on(action: u8) -> (buf: Vec<u8>)
    ensures
        buf@ == seq![TYPE_BACK_OR_SCREEN_ON, action],
{
    let mut buf: Vec<u8> = Vec::new();
    buf.push(TYPE_BACK_OR_SCREEN_ON);
    buf.push(action);
    buf
}

/// The longest text that `name` begins with whose UTF-8 has at most 255 bytes.
pub open spec fn tiny(name: Seq<char>) -> Seq<char>
    decreases name.len(),
{
    if name.len() == 0 || encode_utf8(name).len() <= 255 {
        name
    } else {
        tiny(name.drop_last())
    }
}

/// The message that starts an app: the length of its name, in one byte, and the
/// name in UTF-8. A name that is longer than the byte can count is cut behind
/// the last character that fits.
pub open spec fn start_message(name: Seq<char>) -> Seq<u8> {
    seq![TYPE_START_APP, encode_utf8(tiny(name)).len() as u8] + encode_utf8(tiny(name))
}

proof fn encode_joins(a: Seq<char>, b: Seq<char>)
    ensures
        encode_utf8(a + b) == encode_utf8(a) + encode_utf8(b),
    decreases a.len(),
{
    if a.len() == 0 {
        assert(a + b =~= b);
        assert(encode_utf8(a) + encode_utf8(b) =~= encode_utf8(b));
    } else {
        assert((a + b).drop_first() =~= a.drop_first() + b);
        encode_joins(a.drop_first(), b);
        assert(encode_utf8(a + b) =~= encode_utf8(a) + encode_utf8(b));
    }
}

/// A longer text has a longer UTF-8, by the bytes of the character behind it.
proof fn encode_grows(name: Seq<char>, i: int)
    requires
        0 <= i < name.len(),
    ensures
        encode_utf8(name.take(i + 1)) == encode_utf8(name.take(i)) + encode_scalar(name[i] as u32),
        encode_utf8(name) == encode_utf8(name.take(i)) + encode_utf8(name.skip(i)),
{
    assert(name.take(i + 1) =~= name.take(i) + seq![name[i]]);
    encode_joins(name.take(i), seq![name[i]]);
    assert(seq![name[i]].drop_first() =~= Seq::<char>::empty());
    reveal_with_fuel(encode_utf8, 2);
    assert(encode_utf8(seq![name[i]]) =~= encode_scalar(name[i] as u32));
    assert(name =~= name.take(i) + name.skip(i));
    encode_joins(name.take(i), name.skip(i));
}

/// Of two beginnings of a text the shorter one has no more bytes.
proof fn encode_keeps_order(name: Seq<char>, i: int, j: int)
    requires
        0 <= i <= j <= name.len(),
    ensures
        encode_utf8(name.take(i)).len() <= encode_utf8(name.take(j)).len(),
{
    assert(name.take(j) =~= name.take(i) + name.subrange(i, j));
    encode_joins(name.take(i), name.subrange(i, j));
}

/// What is sent of a name is its longest beginning that fits: the characters
/// before `k`, where these have at most 255 bytes of UTF-8 and one more would
/// not fit.
pub proof fn tiny_is_longest(name: Seq<char>, k: int)
    requires
        0 <= k <= name.len(),
        encode_utf8(name.take(k)).len() <= 255,
        k == name.len() || encode_utf8(name.take(k + 1)).len() > 255,
    ensures
        tiny(name) == name.take(k),
    decreases name.len(),
{
    if k == name.len() {
        assert(name.take(k) =~= name);
    } else {
        encode_keeps_order(name, k + 1, name.len() as int);
        assert(name.take(name.len() as int) =~= name);
        let front = name.drop_last();
        assert(front.take(k) =~= name.take(k));
        if k < front.len() {
            assert(front.take(k + 1) =~= name.take(k + 1));
        }
        tiny_is_longest(front, k);
    }
}

/// How many bytes of UTF-8 a character has.
fn width_of(c: char) -> (n: usize)
    ensures
        n == encode_scalar(c as u32).len(),
        1 <= n <= 4,
{
    let v: u32 = c as u32;
    if v <= 0x7f {
        1
    } else if v <= 0x7ff {
        2
    } else if v <= 0xffff {
        3
    } else {
        4
    }
}

/// Writes the start of an app.
pub fn start_app(name: &str) -> (buf: Vec<u8>)
    ensures
        buf@ == start_message(name@),
        exists|k: int|
            0 <= k <= name@.len() && buf@ == seq![
                TYPE_START_APP,
                encode_utf8(#[trigger] name@.take(k)).len() as u8,
            ] + encode_utf8(name@.take(k)) && encode_utf8(name@.take(k)).len() <= 255 && (k
                == name@.len() || encode_utf8(name@.take(k + 1)).len() > 255),
{
    let v = to_chars(name);
    let bytes = name.as_bytes();
    let mut i: usize = 0;
    let mut n: usize = 0;
    assert(v@.take(0) =~= Seq::<char>::empty());
    while i < v.len() && n + width_of(v[i]) <= 255
        invariant
            v@ == name@,
            i <= v.len(),
            n <= 255,
            n == encode_utf8(v@.take(i as int)).len(),
        decreases v.len() - i,
    {
        proof {
            encode_grows(v@, i as int);
        }
        n = n + width_of(v[i]);
        i = i + 1;
    }
    let ghost part = encode_utf8(v@.take(i as int));
    proof {
        if i < v.len() {
            encode_grows(v@, i as int);
        } else {
            assert(v@.take(i as int) =~= v@);
        }
        tiny_is_longest(v@, i as int);
        assert(bytes@.take(n as int) =~= part);
    }
    let mut buf: Vec<u8> = Vec::new();
    buf.push(TYPE_START_APP);
    buf.push(n as u8);
    let mut j: usize = 0;
    while j < n
        invariant
            j <= n <= bytes@.len(),
            n <= 255,
            buf@ == seq![TYPE_START_APP, n as u8] + bytes@.take(j as int),
        decreases n - j,
    {
        buf.push(bytes[j]);
        assert(buf@ =~= seq![TYPE_START_APP, n as u8] + bytes@.take(j + 1));
        j = j + 1;
    }
    assert(name@.take(i as int) == v@.take(i as int));
    buf
}

/// Writes a touch of the one finger that the suite has.
pub fn finger_event(
    action: u8,
    pos: Position,
    pressure: u32,
    action_button: u32,
    buttons: u32,
) -> (buf: Vec<u8>)
    ensures
        buf@ == touch_message(
            action,
            POINTER_ID_GENERIC_FINGER,
            pos,
            pressure,
            action_button,
            buttons,
        ),
{
    touch_event(action, POINTER_ID_GENERIC_FINGER, pos, pressure, action_button, buttons)
}

/// Writes a press of the back key and its release, as two messages.
pub fn back_events() -> (r: (Vec<u8>, Vec<u8>))
    ensures
        r.0@ == seq![TYPE_BACK_OR_SCREEN_ON, ACTION_DOWN],
        r.1@ == seq![TYPE_BACK_OR_SCREEN_ON, ACTION_UP],
{
    (back_or_screen_on(ACTION_DOWN), back_or_screen_on(ACTION_UP))
}

/// The server reads the position that was written: the two coordinates and the
/// two sizes stand at fixed places of a touch.
pub proof fn touch_position_reads_back(
    action: u8,
    pointer_id: u64,
    pos: Position,
    pressure: u32,
    action_button: u32,
    buttons: u32,
)
    ensures
        ({
            let m = touch_message(action, pointer_id, pos, pressure, action_button, buttons);
            &&& from_be(m.subrange(2, 10)) == pointer_id
            &&& from_be(m.subrange(10, 14)) == unsigned32(pos.x)
            &&& from_be(m.subrange(14, 18)) == unsigned32(pos.y)
            &&& from_be(m.subrange(18, 20)) == pos.width
            &&& from_be(m.subrange(20, 22)) == pos.height
            &&& from_be(m.subrange(24, 28)) == action_button
            &&& from_be(m.subrange(28, 32)) == buttons
        }),
{
    let m = touch_message(action, pointer_id, pos, pressure, action_button, buttons);
    let f = fixed(pressure, 16, 0, 0xffff) as nat;
    crate::wire::spans();
    crate::wire::be_len(pointer_id as nat, 8);
    crate::wire::be_len(unsigned32(pos.x), 4);
    crate::wire::be_len(unsigned32(pos.y), 4);
    crate::wire::be_len(pos.width as nat, 2);
    crate::wire::be_len(pos.height as nat, 2);
    crate::wire::be_len(f, 2);
    crate::wire::be_len(action_button as nat, 4);
    crate::wire::be_len(buttons as nat, 4);
    assert(m.subrange(2, 10) =~= be(pointer_id as nat, 8));
    assert(m.subrange(10, 14) =~= be(unsigned32(pos.x), 4));
    assert(m.subrange(14, 18) =~= be(unsigned32(pos.y), 4));
    assert(m.subrange(18, 20) =~= be(pos.width as nat, 2));
    assert(m.subrange(20, 22) =~= be(pos.height as nat, 2));
    assert(m.subrange(24, 28) =~= be(action_button as nat, 4));
    assert(m.subrange(28, 32) =~= be(buttons as nat, 4));
    crate::wire::be_reads_back(pointer_id as nat, 8);
    crate::wire::be_reads_back(unsigned32(pos.x), 4);
    crate::wire::be_reads_back(unsigned32(pos.y), 4);
    crate::wire::be_reads_back(pos.width as nat, 2);
    crate::wire::be_reads_back(pos.height as nat, 2);
    crate::wire::be_reads_back(action_button as nat, 4);
    crate::wire::be_reads_back(buttons as nat, 4);
}

/// The server reads the fields of a message where it expects them: its kind in
/// the first byte, and behind it what was written.
pub proof fn touch_reads_back(
    action: u8,
    pointer_id: u64,
    pos: Position,
    pressure: u32,
    action_button: u32,
    buttons: u32,
)
    ensures
        ({
            let m = touch_message(action, pointer_id, pos, pressure, action_button, buttons);
            &&& m.len() == 32
            &&& m[0] == 2
            &&& m[1] == action
            &&& from_be(m.subrange(22, 24)) == fixed(pressure, 16, 0, 0xffff)
        }),
{
    let m = touch_message(action, pointer_id, pos, pressure, action_button, buttons);
    let f = fixed(pressure, 16, 0, 0xffff) as nat;
    crate::wire::spans();
    crate::wire::be_len(pointer_id as nat, 8);
    crate::wire::be_len(unsigned32(pos.x), 4);
    crate::wire::be_len(unsigned32(pos.y), 4);
    crate::wire::be_len(pos.width as nat, 2);
    crate::wire::be_len(pos.height as nat, 2);
    crate::wire::be_len(f, 2);
    crate::wire::be_len(action_button as nat, 4);
    crate::wire::be_len(buttons as nat, 4);
    assert(m.subrange(22, 24) =~= be(f, 2));
    crate::wire::be_reads_back(f, 2);
}

/// The server reads a key as it was written.
pub proof fn key_reads_back(action: u8, keycode: i32, repeat: i32, metastate: i32)
    ensures
        ({
            let m = key_message(action, keycode, repeat, metastate);
            &&& m.len() == 14
            &&& m[0] == 0
            &&& m[1] == action
            &&& from_be(m.subrange(2, 6)) == unsigned32(keycode)
            &&& from_be(m.subrange(6, 10)) == unsigned32(repeat)
            &&& from_be(m.subrange(10, 14)) == unsigned32(metastate)
        }),
{
    let m = key_message(action, keycode, repeat, metastate);
    crate::wire::spans();
    crate::wire::be_len(unsigned32(keycode), 4);
    crate::wire::be_len(unsigned32(repeat), 4);
    crate::wire::be_len(unsigned32(metastate), 4);
    assert(m.subrange(2, 6) =~= be(unsigned32(keycode), 4));
    assert(m.subrange(6, 10) =~= be(unsigned32(repeat), 4));
    assert(m.subrange(10, 14) =~= be(unsigned32(metastate), 4));
    crate::wire::be_reads_back(unsigned32(keycode), 4);
    crate::wire::be_reads_back(unsigned32(repeat), 4);
    crate::wire::be_reads_back(unsigned32(metastate), 4);
}

/// The server reads a turn of the wheel as it was written: where the mouse was,
/// how far it was turned across, and how far down.
pub proof fn scroll_reads_back(pos: Position, h: u32, v: u32, buttons: u32)
    ensures
        ({
            let m = scroll_message(pos, h, v, buttons);
            &&& m.len() == 21
            &&& m[0] == 3
            &&& from_be(m.subrange(1, 5)) == unsigned32(pos.x)
            &&& from_be(m.subrange(5, 9)) == unsigned32(pos.y)
            &&& from_be(m.subrange(9, 11)) == pos.width
            &&& from_be(m.subrange(11, 13)) == pos.height
            &&& from_be(m.subrange(13, 15)) == unsigned16(fixed(h, 15, -0x8000, 0x7fff) as i16)
            &&& from_be(m.subrange(15, 17)) == unsigned16(fixed(v, 15, -0x8000, 0x7fff) as i16)
            &&& from_be(m.subrange(17, 21)) == buttons
        }),
{
    let m = scroll_message(pos, h, v, buttons);
    let a = unsigned16(fixed(h, 15, -0x8000, 0x7fff) as i16);
    let b = unsigned16(fixed(v, 15, -0x8000, 0x7fff) as i16);
    crate::wire::spans();
    crate::wire::be_len(unsigned32(pos.x), 4);
    crate::wire::be_len(unsigned32(pos.y), 4);
    crate::wire::be_len(pos.width as nat, 2);
    crate::wire::be_len(pos.height as nat, 2);
    crate::wire::be_len(a, 2);
    crate::wire::be_len(b, 2);
    crate::wire::be_len(buttons as nat, 4);
    assert(m.subrange(1, 5) =~= be(unsigned32(pos.x), 4));
    assert(m.subrange(5, 9) =~= be(unsigned32(pos.y), 4));
    assert(m.subrange(9, 11) =~= be(pos.width as nat, 2));
    assert(m.subrange(11, 13) =~= be(pos.height as nat, 2));
    assert(m.subrange(13, 15) =~= be(a, 2));
    assert(m.subrange(15, 17) =~= be(b, 2));
    assert(m.subrange(17, 21) =~= be(buttons as nat, 4));
    crate::wire::be_reads_back(unsigned32(pos.x), 4);
    crate::wire::be_reads_back(unsigned32(pos.y), 4);
    crate::wire::be_reads_back(pos.width as nat, 2);
    crate::wire::be_reads_back(pos.height as nat, 2);
    crate::wire::be_reads_back(a, 2);
    crate::wire::be_reads_back(b, 2);
    crate::wire::be_reads_back(buttons as nat, 4);
}

/// The server reads a text as it was written: as many bytes as the message says,
/// and those.
pub proof fn text_reads_back(text: Seq<u8>)
    requires
        text.len() <= 0xffff_ffff,
    ensures
        ({
            let m = text_message(text);
            &&& m[0] == 1
            &&& from_be(m.subrange(1, 5)) == text.len()
            &&& m.skip(5) == text
        }),
{
    let m = text_message(text);
    crate::wire::spans();
    crate::wire::be_len(text.len(), 4);
    crate::wire::be_reads_back(text.len(), 4);
    assert(m.subrange(1, 5) =~= be(text.len(), 4));
    assert(m.skip(5) =~= text);
}

/// The server reads the start of an app as it was written: as many bytes as the
/// message says, and those are the name's, all of them where they fit.
pub proof fn start_reads_back(name: Seq<char>)
    ensures
        ({
            let m = start_message(name);
            &&& m[0] == 16
            &&& m.len() == m[1] + 2
            &&& m.len() <= 257
            &&& encode_utf8(name).len() <= 255 ==> m.skip(2) == encode_utf8(name)
        }),
    decreases name.len(),
{
    let m = start_message(name);
    tiny_fits(name);
    assert(m.skip(2) =~= encode_utf8(tiny(name)));
}

proof fn tiny_fits(name: Seq<char>)
    ensures
        encode_utf8(tiny(name)).len() <= 255,
    decreases name.len(),
{
    reveal_with_fuel(encode_utf8, 1);
    if name.len() > 0 && encode_utf8(name).len() > 255 {
        tiny_fits(name.drop_last());
    }
}

} // verus!
