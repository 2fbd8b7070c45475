use androlon::control::{
    back_events, back_or_screen_on, finger_event, key_event, keycodes, metastate, scroll_event,
    start_app, text_event, touch_event, Position, ACTION_DOWN, ACTION_UP, BUTTON_PRIMARY,
    POINTER_ID_GENERIC_FINGER, TYPE_BACK_OR_SCREEN_ON, TYPE_INJECT_KEYCODE,
    TYPE_INJECT_SCROLL_EVENT, TYPE_INJECT_TEXT, TYPE_INJECT_TOUCH_EVENT, TYPE_START_APP,
};
use androlon::fixed::{fixed_i16, fixed_u16};
use androlon::input::{
    android_keycode, meta_of, KEY_ESCAPE, KEY_RETURN, KEY_SPACE, KEY_UP, MOD_CTRL, MOD_SHIFT,
};
use androlon::keymap::{canonical_name, path_of, Action, Direction, JoyState, Keymap};
use androlon::wire::{get_be, put_be};
use keycodes::{AKEYCODE_0, AKEYCODE_A, AKEYCODE_BACK, AKEYCODE_ENTER};

fn known() -> Vec<(String, u32)> {
    let mut v = Vec::new();
    for (name, key) in [("w", 'w'), ("a", 'a'), ("s", 's'), ("d", 'd'), ("e", 'e')] {
        v.push((name.to_string(), key as u32));
    }
    v.push(("Space".to_string(), KEY_SPACE));
    v
}

#[test]
fn letters_and_digits() {
    assert_eq!(android_keycode('a' as u32), Some(AKEYCODE_A));
    assert_eq!(android_keycode('z' as u32), Some(AKEYCODE_A + 25));
    assert_eq!(android_keycode('0' as u32), Some(AKEYCODE_0));
    assert_eq!(android_keycode('9' as u32), Some(AKEYCODE_0 + 9));
}

#[test]
fn nav_keys() {
    assert_eq!(android_keycode(KEY_ESCAPE), Some(AKEYCODE_BACK));
    assert_eq!(android_keycode(KEY_RETURN), Some(AKEYCODE_ENTER));
    // The fifth function key.
    assert_eq!(android_keycode(0x4000_003e), None);
    assert_eq!(android_keycode(KEY_UP), Some(19));
}

#[test]
fn parses_taps_and_joystick() {
    let map = Keymap::parse(
        "# demo\njoystick w a s d 0.2 0.75 0.12\ntap space 0.85 0.8\ntap e 0.92 0.6\n",
        &known(),
    );
    assert!(map.joystick.is_some());
    assert!(matches!(map.get(KEY_SPACE), Some(Action::Tap { .. })));
    assert!(matches!(map.get('w' as u32), Some(Action::Joy(Direction::Up))));
    // Distinct pointers per tap binding.
    let (Some(Action::Tap { pointer: p1, .. }), Some(Action::Tap { pointer: p2, .. })) =
        (map.get(KEY_SPACE), map.get('e' as u32))
    else {
        panic!("taps missing")
    };
    assert_ne!(p1, p2);
}

#[test]
fn joystick_combines_directions() {
    let mut joy = JoyState::default();
    joy.press(Direction::Up); // W
    joy.press(Direction::Right); // D
    let (x, y) = joy.direction().unwrap();
    let len = ((x * x + y * y) as f32).sqrt();
    let (dx, dy) = (x as f32 / len, y as f32 / len);
    assert!(dx > 0.5 && dy < -0.5); // up-right diagonal, normalized
    joy.release(Direction::Up);
    assert_eq!(joy.direction(), Some((1, 0)));
    joy.release(Direction::Right);
    assert_eq!(joy.direction(), None);
}

#[test]
fn opposing_keys_center_the_stick() {
    let mut joy = JoyState::default();
    joy.press(Direction::Left);
    joy.press(Direction::Right);
    assert_eq!(joy.direction(), Some((0, 0)));
}

#[test]
fn a_key_that_is_held_counts_once() {
    let mut joy = JoyState::default();
    joy.press(Direction::Down);
    joy.press(Direction::Down);
    assert_eq!(joy.direction(), Some((0, 1)));
    joy.release(Direction::Down);
    assert_eq!(joy.direction(), None);
    joy.release(Direction::Down);
    assert_eq!(joy.direction(), None);
}

#[test]
fn touch_layout() {
    let pos = Position { x: 100, y: 200, width: 1080, height: 2400 };
    let msg = touch_event(
        ACTION_DOWN,
        POINTER_ID_GENERIC_FINGER,
        pos,
        1.0f32.to_bits(),
        BUTTON_PRIMARY,
        BUTTON_PRIMARY,
    );
    assert_eq!(msg.len(), 32);
    assert_eq!(msg[0], TYPE_INJECT_TOUCH_EVENT);
    assert_eq!(msg[1], ACTION_DOWN);
    assert_eq!(&msg[2..10], &(u64::MAX - 1).to_be_bytes());
    assert_eq!(&msg[10..14], &100i32.to_be_bytes());
    assert_eq!(&msg[14..18], &200i32.to_be_bytes());
    assert_eq!(&msg[18..20], &1080u16.to_be_bytes());
    assert_eq!(&msg[20..22], &2400u16.to_be_bytes());
    assert_eq!(&msg[22..24], &0xffffu16.to_be_bytes()); // pressure 1.0
    assert_eq!(&msg[24..28], &1u32.to_be_bytes());
    assert_eq!(&msg[28..32], &1u32.to_be_bytes());
}

#[test]
fn negative_positions_are_sent_in_two_complement() {
    let pos = Position { x: -5, y: i32::MIN, width: 1, height: 65535 };
    let msg = touch_event(ACTION_UP, 7, pos, 0, 0, 0);
    assert_eq!(&msg[2..10], &7u64.to_be_bytes());
    assert_eq!(&msg[10..14], &(-5i32).to_be_bytes());
    assert_eq!(&msg[14..18], &i32::MIN.to_be_bytes());
    assert_eq!(&msg[20..22], &65535u16.to_be_bytes());
    assert_eq!(&msg[22..24], &[0, 0]);
}

#[test]
fn the_mouse_is_a_finger() {
    let pos = Position { x: 1, y: 2, width: 3, height: 4 };
    assert_eq!(
        finger_event(ACTION_DOWN, pos, 1.0f32.to_bits(), 1, 1),
        touch_event(ACTION_DOWN, POINTER_ID_GENERIC_FINGER, pos, 1.0f32.to_bits(), 1, 1)
    );
}

#[test]
fn scroll_layout() {
    let pos = Position { x: 5, y: 6, width: 720, height: 1280 };
    let msg = scroll_event(pos, 0.0f32.to_bits(), (-1.0f32).to_bits(), 0);
    assert_eq!(msg.len(), 21);
    assert_eq!(msg[0], TYPE_INJECT_SCROLL_EVENT);
    assert_eq!(&msg[13..15], &0i16.to_be_bytes());
    assert_eq!(&msg[15..17], &(-0x8000i16).to_be_bytes()); // vscroll -1.0
}

#[test]
fn key_layout() {
    let msg = key_event(ACTION_UP, keycodes::AKEYCODE_ENTER, 0, metastate::AMETA_SHIFT_ON);
    assert_eq!(msg.len(), 14);
    assert_eq!(msg[0], TYPE_INJECT_KEYCODE);
    assert_eq!(msg[1], ACTION_UP);
    assert_eq!(&msg[2..6], &66i32.to_be_bytes());
    assert_eq!(&msg[10..14], &1i32.to_be_bytes());
}

#[test]
fn text_layout() {
    let msg = text_event("hi");
    assert_eq!(msg, vec![TYPE_INJECT_TEXT, 0, 0, 0, 2, b'h', b'i']);
}

#[test]
fn texts_are_counted_in_bytes() {
    let msg = text_event("ü");
    assert_eq!(msg, vec![TYPE_INJECT_TEXT, 0, 0, 0, 2, 0xc3, 0xbc]);
    let msg = start_app("com.a");
    assert_eq!(msg, vec![TYPE_START_APP, 5, b'c', b'o', b'm', b'.', b'a']);
    let long = "x".repeat(300);
    let msg = start_app(&long);
    assert_eq!(msg.len(), 257);
    assert_eq!(msg[1], 255);
}

#[test]
fn a_long_name_is_cut_between_characters() {
    for (name, kept) in [
        ("a".repeat(254) + "é", "a".repeat(254)),
        ("a".repeat(253) + "é", "a".repeat(253) + "é"),
        ("é".repeat(200), "é".repeat(127)),
        ("€".repeat(200), "€".repeat(85)),
        ("😀".repeat(200), "😀".repeat(63)),
        ("a".to_string() + &"😀".repeat(200), "a".to_string() + &"😀".repeat(63)),
        (String::new(), String::new()),
    ] {
        let msg = start_app(&name);
        assert_eq!(msg[0], TYPE_START_APP);
        assert_eq!(msg[1] as usize, msg.len() - 2);
        assert_eq!(std::str::from_utf8(&msg[2..]).unwrap(), kept);
    }
}

#[test]
fn back_is_pressed_and_released() {
    assert_eq!(back_or_screen_on(ACTION_DOWN), vec![TYPE_BACK_OR_SCREEN_ON, ACTION_DOWN]);
    let (down, up) = back_events();
    assert_eq!(down, vec![TYPE_BACK_OR_SCREEN_ON, 0]);
    assert_eq!(up, vec![TYPE_BACK_OR_SCREEN_ON, 1]);
}

#[test]
fn fixed_point_clamps() {
    assert_eq!(fixed_u16(0.0f32.to_bits()), 0);
    assert_eq!(fixed_u16(1.0f32.to_bits()), 0xffff);
    assert_eq!(fixed_u16(2.0f32.to_bits()), 0xffff);
    assert_eq!(fixed_i16(1.0f32.to_bits()), 0x7fff);
    assert_eq!(fixed_i16((-1.0f32).to_bits()), -0x8000);
    assert_eq!(fixed_i16(0.5f32.to_bits()), 0x4000);
}

#[test]
fn fixed_point_is_that_of_the_machine() {
    let mut bits: u32 = 1;
    for i in 0..200_000u32 {
        bits = bits.wrapping_mul(1664525).wrapping_add(1013904223 + i);
        // Most numbers of interest lie around one.
        for b in [bits, (bits & 0x83ff_ffff) | 0x3c00_0000] {
            let f = f32::from_bits(b);
            let u = ((f * 65536.0).round() as i64).clamp(0, 0xffff) as u16;
            let s = ((f * 32768.0).round() as i64).clamp(-0x8000, 0x7fff) as i16;
            assert_eq!(fixed_u16(b), u, "{f}");
            assert_eq!(fixed_i16(b), s, "{f}");
        }
    }
}

#[test]
fn numbers_on_the_wire_read_back() {
    let mut out = vec![9u8];
    put_be(&mut out, 0x0102_0304_0506, 6);
    assert_eq!(out, vec![9, 1, 2, 3, 4, 5, 6]);
    assert_eq!(get_be(&out, 1, 6), 0x0102_0304_0506);
    assert_eq!(get_be(&out, 1, 2), 0x0102);
}

#[test]
fn modifiers_become_a_meta_state() {
    assert_eq!(meta_of(0), 0);
    assert_eq!(meta_of(MOD_SHIFT), metastate::AMETA_SHIFT_ON);
    assert_eq!(meta_of(0x0001), metastate::AMETA_SHIFT_ON);
    assert_eq!(
        meta_of(MOD_SHIFT | MOD_CTRL),
        metastate::AMETA_SHIFT_ON | metastate::AMETA_CTRL_ON
    );
}

#[test]
fn keymap_lines_that_cannot_be_read_are_left_out() {
    let map = Keymap::parse(
        "tap nokey 0.1 0.2\ntap w x y\ntap\njoystick w a s d 0.2\n\n  tap  e  .5  1  # note\n",
        &known(),
    );
    assert!(map.joystick.is_none());
    assert!(map.get('w' as u32).is_none());
    match map.get('e' as u32) {
        Some(Action::Tap { x, y, pointer }) => {
            assert_eq!((x.as_str(), y.as_str(), pointer), (".5", "1", 1));
        }
        other => panic!("{other:?}"),
    }
}

#[test]
fn key_names_are_asked_for_as_the_system_spells_them() {
    assert_eq!(canonical_name("SPACE"), "Space");
    assert_eq!(
        Keymap::key_names("joystick w a s d 0.2 0.75 0.12\ntap space 0.85 0.8\n"),
        vec!["w", "a", "s", "d", "Space"]
    );
}

#[test]
fn a_keymap_without_bindings_is_none() {
    assert!(Keymap::load("# nothing\n", &known()).is_none());
    assert!(Keymap::load("tap e 0.5 0.5\n", &known()).is_some());
    assert_eq!(path_of("/home/u", "com.a"), "/home/u/.androlon/keymaps/com.a.conf");
}
