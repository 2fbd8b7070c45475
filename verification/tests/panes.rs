use androlon::control::keycodes::AKEYCODE_HOME;
use androlon::control::{
    key_event, scroll_event, Position, ACTION_DOWN, ACTION_MOVE, ACTION_UP, BUTTON_PRIMARY,
    POINTER_ID_GENERIC_FINGER,
};
use androlon::input::KEY_SPACE;
use androlon::keymap::Keymap;
use androlon::pane::{
    Aim, Effect, Pane, PaneEvent, Place, AIM_POINTER, FIRE_POINTER, FULL_PRESSURE,
};

fn at(x: i32, y: i32) -> Position {
    Position { x, y, width: 100, height: 100 }
}

fn aim(edge: bool) -> Aim {
    Aim { now: at(1, 1), anchor: at(2, 2), next: at(3, 3), edge }
}

fn keymap() -> Keymap {
    let known = vec![
        ("w".to_string(), 'w' as u32),
        ("a".to_string(), 'a' as u32),
        ("s".to_string(), 's' as u32),
        ("d".to_string(), 'd' as u32),
        ("Space".to_string(), KEY_SPACE),
    ];
    Keymap::parse("joystick w a s d 0.2 0.7 0.1\ntap space 0.8 0.9\n", &known)
}

fn key(k: char, down: bool) -> PaneEvent {
    if down {
        PaneEvent::KeyDown { key: k as u32, mods: 0, repeat: false }
    } else {
        PaneEvent::KeyUp { key: k as u32, mods: 0 }
    }
}

/// The touches among the effects: what the finger does, which one, and where.
fn touches(effects: &[Effect]) -> Vec<(u8, u64, String)> {
    let mut v = Vec::new();
    for e in effects {
        if let Effect::Touch { action, pointer, place, .. } = e {
            v.push((*action, *pointer, format!("{place:?}")));
        }
    }
    v
}

#[test]
fn without_a_connection_nothing_is_sent() {
    let mut p = Pane::new(false, None, Some('`' as u32));
    for e in [key('a', true), PaneEvent::RightDown, PaneEvent::FocusLost] {
        assert!(p.handle_input(&e, &aim(false)).is_empty());
    }
    assert!(!p.captured && !p.touch_down);
}

#[test]
fn a_click_is_a_touch() {
    let mut p = Pane::new(true, None, None);
    assert!(p.handle_input(&PaneEvent::Motion { at: at(5, 5) }, &aim(false)).is_empty());
    let down = p.handle_input(&PaneEvent::LeftDown { at: at(5, 6), fire: None }, &aim(false));
    match &down[..] {
        [Effect::Touch { action, pointer, place: Place::At(pos), pressure, action_button, buttons }] => {
            assert_eq!((*action, *pointer), (ACTION_DOWN, POINTER_ID_GENERIC_FINGER));
            assert_eq!((pos.x, pos.y), (5, 6));
            assert_eq!(*pressure, FULL_PRESSURE);
            assert_eq!((*action_button, *buttons), (BUTTON_PRIMARY, BUTTON_PRIMARY));
        }
        other => panic!("{other:?}"),
    }
    let moved = p.handle_input(&PaneEvent::Motion { at: at(7, 8) }, &aim(false));
    assert_eq!(touches(&moved)[0].0, ACTION_MOVE);
    let up = p.handle_input(&PaneEvent::LeftUp { at: at(9, 9), fire: None }, &aim(false));
    match &up[..] {
        [Effect::Touch { action, pressure, action_button, buttons, .. }] => {
            assert_eq!((*action, *pressure), (ACTION_UP, 0));
            assert_eq!((*action_button, *buttons), (BUTTON_PRIMARY, 0));
        }
        other => panic!("{other:?}"),
    }
    assert!(p.handle_input(&PaneEvent::Motion { at: at(1, 1) }, &aim(false)).is_empty());
}

#[test]
fn other_buttons_are_shortcuts() {
    let mut p = Pane::new(true, None, None);
    let back = p.handle_input(&PaneEvent::RightDown, &aim(false));
    assert_eq!(back.len(), 2);
    let home = p.handle_input(&PaneEvent::MiddleDown, &aim(false));
    match &home[..] {
        [Effect::Message(a), Effect::Message(b)] => {
            assert_eq!(*a, key_event(ACTION_DOWN, AKEYCODE_HOME, 0, 0));
            assert_eq!(*b, key_event(ACTION_UP, AKEYCODE_HOME, 0, 0));
        }
        other => panic!("{other:?}"),
    }
    let (h, v) = (0.0f32.to_bits(), 1.0f32.to_bits());
    let wheel = p.handle_input(&PaneEvent::Wheel { at: at(1, 2), h, v }, &aim(false));
    match &wheel[..] {
        [Effect::Message(m)] => assert_eq!(*m, scroll_event(at(1, 2), h, v, 0)),
        other => panic!("{other:?}"),
    }
}

#[test]
fn keys_are_keys_unless_they_are_bound() {
    let mut p = Pane::new(true, Some(keymap()), None);
    let free = p.handle_input(&key('q', true), &aim(false));
    assert!(matches!(&free[..], [Effect::Message(_)]));
    let space = PaneEvent::KeyDown { key: KEY_SPACE, mods: 0, repeat: false };
    let tap = p.handle_input(&space, &aim(false));
    assert_eq!(touches(&tap), vec![(ACTION_DOWN, 1, "Point { x: \"0.8\", y: \"0.9\" }".into())]);
    let again = PaneEvent::KeyDown { key: KEY_SPACE, mods: 0, repeat: true };
    assert!(p.handle_input(&again, &aim(false)).is_empty());
    let up = p.handle_input(&PaneEvent::KeyUp { key: KEY_SPACE, mods: 0 }, &aim(false));
    assert_eq!(touches(&up)[0].0, ACTION_UP);
    // A key that neither side knows.
    assert!(p.handle_input(&PaneEvent::KeyUp { key: 0x4000_003e, mods: 0 }, &aim(false)).is_empty());
}

#[test]
fn the_stick_slides_like_a_thumb() {
    let mut p = Pane::new(true, Some(keymap()), None);
    let down = p.handle_input(&key('w', true), &aim(false));
    assert_eq!(
        touches(&down),
        vec![
            (ACTION_DOWN, 0, "Center".into()),
            (ACTION_MOVE, 0, "Stick { dx: 0, dy: -1 }".into())
        ]
    );
    let both = p.handle_input(&key('d', true), &aim(false));
    assert_eq!(touches(&both), vec![(ACTION_MOVE, 0, "Stick { dx: 1, dy: -1 }".into())]);
    p.handle_input(&key('w', false), &aim(false));
    let up = p.handle_input(&key('d', false), &aim(false));
    assert_eq!(touches(&up), vec![(ACTION_UP, 0, "Center".into())]);
}

#[test]
fn the_mouse_drags_the_view_while_it_is_captured() {
    let mut p = Pane::new(true, Some(keymap()), Some('`' as u32));
    let on = p.handle_input(&key('`', true), &aim(false));
    assert!(matches!(&on[..], [Effect::Capture(true)]));
    let first = p.handle_input(&PaneEvent::Motion { at: at(9, 9) }, &aim(false));
    assert_eq!(
        touches(&first).iter().map(|t| (t.0, t.1)).collect::<Vec<_>>(),
        vec![(ACTION_DOWN, AIM_POINTER), (ACTION_MOVE, AIM_POINTER)]
    );
    let edge = p.handle_input(&PaneEvent::Motion { at: at(9, 9) }, &aim(true));
    assert_eq!(
        touches(&edge).iter().map(|t| t.0).collect::<Vec<_>>(),
        vec![ACTION_MOVE, ACTION_UP]
    );
    let shot = PaneEvent::LeftDown { at: at(9, 9), fire: Some(at(50, 50)) };
    assert_eq!(touches(&p.handle_input(&shot, &aim(false)))[0].1, FIRE_POINTER);
    p.handle_input(&PaneEvent::Motion { at: at(9, 9) }, &aim(false));
    let off = p.handle_input(&PaneEvent::FocusLost, &aim(false));
    assert!(matches!(
        &off[..],
        [Effect::Touch { action: ACTION_UP, pointer: AIM_POINTER, .. }, Effect::Capture(false)]
    ));
    assert!(!p.captured && !p.aim_down);
}
