//! The window of one app: what its events mean for the device.
//!
//! The mouse is a finger, the wheel scrolls, keys are keys unless a keymap binds
//! them to the screen. With a key for it, the mouse can be captured, and then
//! drags the view of a game.

use crate::control::keycodes::AKEYCODE_HOME;
use crate::control::{
    back_or_screen_on, key_event, key_message, scroll_event, scroll_message, Position, ACTION_DOWN, ACTION_MOVE, ACTION_UP, BUTTON_PRIMARY,
    POINTER_ID_GENERIC_FINGER, TYPE_BACK_OR_SCREEN_ON,
};
use crate::input::{android_key, android_keycode, meta, meta_of};
use crate::keymap::{deflection, stick_of, Action, Bind, Direction, JoyState, Keymap, Stick};
use vstd::prelude::*;

verus! {

/// The finger that drags the view.
pub const AIM_POINTER: u64 = 100;

/// The finger that fires.
pub const FIRE_POINTER: u64 = 101;

/// The bits of one, and of zero, as fractions.
pub const FULL_PRESSURE: u32 = 0x3f80_0000;
pub const NO_PRESSURE: u32 = 0;

/// Where a finger is put.
#[derive(Debug)]
pub enum Place {
    /// At a point of the picture.
    At(Position),
    /// At fractions of the picture, as texts.
    Point { x: String, y: String },
    /// In the middle of the stick.
    Center,
    /// At the stick, held in a direction.
    Stick { dx: i32, dy: i32 },
}

/// What a `Place` stands for.
pub enum Spot {
    At(Position),
    Point { x: Seq<char>, y: Seq<char> },
    Center,
    Stick { dx: int, dy: int },
}

impl View for Place {
    type V = Spot;

    open spec fn view(&self) -> Spot {
        match self {
            Place::At(p) => Spot::At(*p),
            Place::Point { x, y } => Spot::Point { x: x@, y: y@ },
            Place::Center => Spot::Center,
            Place::Stick { dx, dy } => Spot::Stick { dx: *dx as int, dy: *dy as int },
        }
    }
}

/// What an event leads to.
#[derive(Debug)]
pub enum Effect {
    /// A touch is sent, once its place is a point of the picture.
    Touch {
        action: u8,
        pointer: u64,
        place: Place,
        pressure: u32,
        action_button: u32,
        buttons: u32,
    },
    /// A message is sent.
    Message(Vec<u8>),
    /// The mouse is captured, or let go.
    Capture(bool),
}

/// What an `Effect` stands for.
pub enum Sent {
    Touch {
        action: u8,
        pointer: int,
        place: Spot,
        pressure: u32,
        action_button: u32,
        buttons: u32,
    },
    Message(Seq<u8>),
    Capture(bool),
}

impl View for Effect {
    type V = Sent;

    open spec fn view(&self) -> Sent {
        match self {
            Effect::Touch { action, pointer, place, pressure, action_button, buttons } => {
                Sent::Touch {
                    action: *action,
                    pointer: *pointer as int,
                    place: place@,
                    pressure: *pressure,
                    action_button: *action_button,
                    buttons: *buttons,
                }
            },
            Effect::Message(m) => Sent::Message(m@),
            Effect::Capture(on) => Sent::Capture(*on),
        }
    }
}

/// What the effects of a list stand for, in order.
pub open spec fn results(v: Seq<Effect>) -> Seq<Sent> {
    v.map_values(|e: Effect| e@)
}

/// An event of a window, with the points of the picture that it happened at.
#[derive(Debug)]
pub enum PaneEvent {
    KeyDown { key: u32, mods: u16, repeat: bool },
    KeyUp { key: u32, mods: u16 },
    Motion { at: Position },
    /// The left button, with the place that fires where the keymap has one.
    LeftDown { at: Position, fire: Option<Position> },
    LeftUp { at: Position, fire: Option<Position> },
    RightDown,
    MiddleDown,
    /// The wheel; `h` and `v` are the bits of fractions between minus one and
    /// one.
    Wheel { at: Position, h: u32, v: u32 },
    FocusLost,
    Other,
}

/// Where the finger is that drags the view: now, where it begins, where the
/// event brings it, and whether that is near an edge.
#[derive(Debug, Clone, Copy)]
pub struct Aim {
    pub now: Position,
    pub anchor: Position,
    pub next: Position,
    pub edge: bool,
}

/// The window of one app.
#[derive(Debug)]
pub struct Pane {
    /// Input can be sent.
    pub control: bool,
    pub keymap: Option<Keymap>,
    /// The key that captures the mouse, where there is a view to drag.
    pub capture_key: Option<u32>,
    pub captured: bool,
    /// The finger that drags the view is down.
    pub aim_down: bool,
    /// The finger of the mouse is down.
    pub touch_down: bool,
    pub joy: JoyState,
}

/// What a `Pane` stands for.
#[verifier::ext_equal]
pub struct PaneState {
    pub control: bool,
    pub binds: Map<u32, Bind>,
    pub stick: Option<Stick>,
    pub capture_key: Option<u32>,
    pub captured: bool,
    pub aim_down: bool,
    pub touch_down: bool,
    pub held: Set<Direction>,
    pub joy_down: bool,
}

impl View for Pane {
    type V = PaneState;

    open spec fn view(&self) -> PaneState {
        PaneState {
            control: self.control,
            binds: match self.keymap {
                Some(m) => m.binds(),
                None => Map::empty(),
            },
            stick: match self.keymap {
                Some(m) => stick_of(m.joystick),
                None => None,
            },
            capture_key: self.capture_key,
            captured: self.captured,
            aim_down: self.aim_down,
            touch_down: self.touch_down,
            held: self.joy.held(),
            joy_down: self.joy.down,
        }
    }
}

/// A finger goes down, moves or goes up, with no button.
pub open spec fn finger(action: u8, pointer: int, place: Spot) -> Sent {
    Sent::Touch {
        action,
        pointer,
        place,
        pressure: if action == ACTION_UP {
            NO_PRESSURE
        } else {
            FULL_PRESSURE
        },
        action_button: 0,
        buttons: 0,
    }
}

/// The finger of the mouse goes down, moves or goes up.
pub open spec fn mouse(action: u8, at: Position) -> Sent {
    Sent::Touch {
        action,
        pointer: POINTER_ID_GENERIC_FINGER as int,
        place: Spot::At(at),
        pressure: if action == ACTION_UP {
            NO_PRESSURE
        } else {
            FULL_PRESSURE
        },
        action_button: if action == ACTION_MOVE {
            0
        } else {
            BUTTON_PRIMARY
        },
        buttons: if action == ACTION_UP {
            0
        } else {
            BUTTON_PRIMARY
        },
    }
}

/// A key goes down or up.
pub open spec fn key(action: u8, keycode: i32, metastate: int) -> Sent {
    Sent::Message(key_message(action, keycode, 0, metastate as i32))
}

/// The mouse is let go, and the finger that drags the view is lifted.
pub open spec fn let_go(p: PaneState, aim: Aim) -> (PaneState, Seq<Sent>) {
    if !p.captured {
        (p, seq![])
    } else {
        (
            PaneState { captured: false, aim_down: false, ..p },
            (if p.aim_down && p.capture_key is Some {
                seq![finger(ACTION_UP, AIM_POINTER as int, Spot::At(aim.now))]
            } else {
                Seq::<Sent>::empty()
            }) + seq![Sent::Capture(false)],
        )
    }
}

/// The view is dragged: the finger is put down where it is up, moved, and lifted
/// again where it comes near an edge.
pub open spec fn drag(p: PaneState, aim: Aim) -> (PaneState, Seq<Sent>) {
    if p.capture_key is None {
        (p, seq![])
    } else {
        (
            PaneState { aim_down: !aim.edge, ..p },
            (if p.aim_down {
                Seq::<Sent>::empty()
            } else {
                seq![finger(ACTION_DOWN, AIM_POINTER as int, Spot::At(aim.anchor))]
            }) + seq![finger(ACTION_MOVE, AIM_POINTER as int, Spot::At(aim.next))] + (if aim.edge {
                seq![finger(ACTION_UP, AIM_POINTER as int, Spot::At(aim.next))]
            } else {
                Seq::<Sent>::empty()
            }),
        )
    }
}

/// The game's button is pressed or released.
pub open spec fn shoot(action: u8, fire: Option<Position>) -> Seq<Sent> {
    match fire {
        Some(at) => seq![finger(action, FIRE_POINTER as int, Spot::At(at))],
        None => seq![],
    }
}

/// What the stick's finger does when the directions that are held have changed:
/// it is put down in the middle, as a thumb would, and slides from there.
pub open spec fn slide(s: Stick, held: Set<Direction>, down: bool) -> Seq<Sent> {
    let (dx, dy) = deflection(held);
    let out = finger(ACTION_MOVE, s.pointer, Spot::Stick { dx, dy });
    if held =~= Set::<Direction>::empty() {
        if down {
            seq![finger(ACTION_UP, s.pointer, Spot::Center)]
        } else {
            seq![]
        }
    } else if down {
        seq![out]
    } else {
        seq![finger(ACTION_DOWN, s.pointer, Spot::Center), out]
    }
}

/// A bound key goes down or up.
pub open spec fn press(p: PaneState, b: Bind, down: bool) -> (PaneState, Seq<Sent>) {
    match b {
        Bind::Tap { x, y, pointer } => (
            p,
            seq![
                finger(
                    if down {
                        ACTION_DOWN
                    } else {
                        ACTION_UP
                    },
                    pointer,
                    Spot::Point { x, y },
                ),
            ],
        ),
        Bind::Joy(d) => match p.stick {
            None => (p, seq![]),
            Some(s) => {
                let held = if down {
                    p.held.insert(d)
                } else {
                    p.held.remove(d)
                };
                (
                    PaneState { held, joy_down: !(held =~= Set::<Direction>::empty()), ..p },
                    slide(s, held, p.joy_down),
                )
            },
        },
    }
}

/// A key that is not bound goes to the device as a key.
pub open spec fn plain_key(action: u8, k: u32, mods: u16) -> Seq<Sent> {
    match android_key(k) {
        Some(code) => seq![key(action, code, meta(mods))],
        None => seq![],
    }
}

/// What an event leads to.
pub open spec fn reaction(p: PaneState, e: PaneEvent, aim: Aim) -> (PaneState, Seq<Sent>) {
    if !p.control {
        (p, seq![])
    } else {
        match e {
            PaneEvent::KeyDown { key: k, mods, repeat } => if !repeat && p.capture_key == Some(k) {
                if p.captured {
                    let_go(p, aim)
                } else {
                    (PaneState { captured: true, ..p }, seq![Sent::Capture(true)])
                }
            } else if p.binds.dom().contains(k) {
                if repeat {
                    (p, seq![])
                } else {
                    press(p, p.binds[k], true)
                }
            } else {
                (p, plain_key(ACTION_DOWN, k, mods))
            },
            PaneEvent::KeyUp { key: k, mods } => if p.binds.dom().contains(k) {
                press(p, p.binds[k], false)
            } else {
                (p, plain_key(ACTION_UP, k, mods))
            },
            PaneEvent::Motion { at } => if p.captured {
                drag(p, aim)
            } else if p.touch_down {
                (p, seq![mouse(ACTION_MOVE, at)])
            } else {
                (p, seq![])
            },
            PaneEvent::LeftDown { at, fire } => if p.captured {
                (p, shoot(ACTION_DOWN, fire))
            } else {
                (PaneState { touch_down: true, ..p }, seq![mouse(ACTION_DOWN, at)])
            },
            PaneEvent::LeftUp { at, fire } => if p.captured {
                (p, shoot(ACTION_UP, fire))
            } else {
                (PaneState { touch_down: false, ..p }, seq![mouse(ACTION_UP, at)])
            },
            PaneEvent::RightDown => (
                p,
                seq![
                    Sent::Message(seq![TYPE_BACK_OR_SCREEN_ON, ACTION_DOWN]),
                    Sent::Message(seq![TYPE_BACK_OR_SCREEN_ON, ACTION_UP]),
                ],
            ),
            PaneEvent::MiddleDown => (
                p,
                seq![key(ACTION_DOWN, AKEYCODE_HOME, 0), key(ACTION_UP, AKEYCODE_HOME, 0)],
            ),
            PaneEvent::Wheel { at, h, v } => (
                p,
                seq![Sent::Message(scroll_message(at, h, v, 0))],
            ),
            PaneEvent::FocusLost => let_go(p, aim),
            PaneEvent::Other => (p, seq![]),
        }
    }
}

fn finger_effect(action: u8, pointer: u64, place: Place) -> (e: Effect)
    ensures
        e@ == finger(action, pointer as int, place@),
{
    Effect::Touch {
        action,
        pointer,
        place,
        pressure: if action == ACTION_UP {
            NO_PRESSURE
        } else {
            FULL_PRESSURE
        },
        action_button: 0,
        buttons: 0,
    }
}

fn mouse_effect(action: u8, at: Position) -> (e: Effect)
    ensures
        e@ == mouse(action, at),
{
    Effect::Touch {
        action,
        pointer: POINTER_ID_GENERIC_FINGER,
        place: Place::At(at),
        pressure: if action == ACTION_UP {
            NO_PRESSURE
        } else {
            FULL_PRESSURE
        },
        action_button: if action == ACTION_MOVE {
            0
        } else {
            BUTTON_PRIMARY
        },
        buttons: if action == ACTION_UP {
            0
        } else {
            BUTTON_PRIMARY
        },
    }
}

fn nothing() -> (r: Vec<Effect>)
    ensures
        results(r@) == Seq::<Sent>::empty(),
{
    let r: Vec<Effect> = Vec::new();
    assert(results(r@) =~= Seq::<Sent>::empty());
    r
}

fn one(e: Effect) -> (r: Vec<Effect>)
    ensures
        results(r@) == seq![e@],
{
    let mut r: Vec<Effect> = Vec::new();
    r.push(e);
    assert(results(r@) =~= seq![e@]);
    r
}

fn two(a: Effect, b: Effect) -> (r: Vec<Effect>)
    ensures
        results(r@) == seq![a@, b@],
{
    let mut r: Vec<Effect> = Vec::new();
    r.push(a);
    r.push(b);
    assert(results(r@) =~= seq![a@, b@]);
    r
}

fn add_effect(r: &mut Vec<Effect>, e: Effect)
    ensures
        results(final(r)@) == results(old(r)@).push(e@),
{
    r.push(e);
    assert(results(r@) =~= results(old(r)@).push(e@));
}

fn plain_key_effect(action: u8, k: u32, mods: u16) -> (r: Vec<Effect>)
    ensures
        results(r@) == plain_key(action, k, mods),
{
    match android_keycode(k) {
        Some(code) => one(Effect::Message(key_event(action, code, 0, meta_of(mods)))),
        None => nothing(),
    }
}

fn shoot_effect(action: u8, fire: Option<Position>) -> (r: Vec<Effect>)
    ensures
        results(r@) == shoot(action, fire),
{
    match fire {
        Some(at) => one(finger_effect(action, FIRE_POINTER, Place::At(at))),
        None => nothing(),
    }
}

impl Pane {
    /// A window in which nothing is held yet.
    pub fn new(control: bool, keymap: Option<Keymap>, capture_key: Option<u32>) -> (r: Pane)
        ensures
            r.control == control,
            r.keymap == keymap,
            r.capture_key == capture_key,
            !r.captured,
            !r.aim_down,
            !r.touch_down,
            r.joy.held() == Set::<Direction>::empty(),
            !r.joy.down,
    {
        Pane {
            control,
            keymap,
            capture_key,
            captured: false,
            aim_down: false,
            touch_down: false,
            joy: JoyState::default(),
        }
    }

    fn binding(&self, k: u32) -> (r: Option<Action>)
        ensures
            match r {
                Some(a) => self@.binds.dom().contains(k) && a@ == self@.binds[k],
                None => !self@.binds.dom().contains(k),
            },
    {
        match &self.keymap {
            Some(m) => m.get(k),
            None => None,
        }
    }

    /// Lets the mouse go.
    pub fn release_capture(&mut self, aim: &Aim) -> (r: Vec<Effect>)
        ensures
            (final(self)@, results(r@)) == let_go(old(self)@, *aim),
    {
        if !self.captured {
            return nothing();
        }
        let mut r = nothing();
        if self.aim_down && self.capture_key.is_some() {
            add_effect(&mut r, finger_effect(ACTION_UP, AIM_POINTER, Place::At(aim.now)));
        }
        add_effect(&mut r, Effect::Capture(false));
        self.captured = false;
        self.aim_down = false;
        assert(results(r@) =~= let_go(old(self)@, *aim).1);
        r
    }

    /// Drags the view.
    pub fn aim_move(&mut self, aim: &Aim) -> (r: Vec<Effect>)
        ensures
            (final(self)@, results(r@)) == drag(old(self)@, *aim),
    {
        if self.capture_key.is_none() {
            return nothing();
        }
        let mut r = nothing();
        if !self.aim_down {
            add_effect(&mut r, finger_effect(ACTION_DOWN, AIM_POINTER, Place::At(aim.anchor)));
        }
        add_effect(&mut r, finger_effect(ACTION_MOVE, AIM_POINTER, Place::At(aim.next)));
        if aim.edge {
            add_effect(&mut r, finger_effect(ACTION_UP, AIM_POINTER, Place::At(aim.next)));
        }
        self.aim_down = !aim.edge;
        assert(results(r@) =~= drag(old(self)@, *aim).1);
        r
    }

    /// A bound key goes down or up.
    pub fn apply_binding(&mut self, action: Action, down: bool) -> (r: Vec<Effect>)
        ensures
            (final(self)@, results(r@)) == press(old(self)@, action@, down),
    {
        match action {
            Action::Tap { x, y, pointer } => {
                let act: u8 = if down {
                    ACTION_DOWN
                } else {
                    ACTION_UP
                };
                one(finger_effect(act, pointer, Place::Point { x, y }))
            },
            Action::Joy(d) => {
                let pointer: u64 = match &self.keymap {
                    Some(m) => match &m.joystick {
                        Some(c) => c.pointer,
                        None => {
                            return nothing();
                        },
                    },
                    None => {
                        return nothing();
                    },
                };
                if down {
                    self.joy.press(d);
                } else {
                    self.joy.release(d);
                }
                let was_down = self.joy.down;
                match self.joy.direction() {
                    Some((dx, dy)) => {
                        self.joy.down = true;
                        let out = finger_effect(ACTION_MOVE, pointer, Place::Stick { dx, dy });
                        if was_down {
                            one(out)
                        } else {
                            two(finger_effect(ACTION_DOWN, pointer, Place::Center), out)
                        }
                    },
                    None => {
                        self.joy.down = false;
                        if was_down {
                            one(finger_effect(ACTION_UP, pointer, Place::Center))
                        } else {
                            nothing()
                        }
                    },
                }
            },
        }
    }

    /// Takes an event of the window: what it leads to.
    pub fn handle_input(&mut self, event: &PaneEvent, aim: &Aim) -> (r: Vec<Effect>)
        ensures
            (final(self)@, results(r@)) == reaction(old(self)@, *event, *aim),
    {
        if !self.control {
            return nothing();
        }
        match event {
            PaneEvent::KeyDown { key, mods, repeat } => {
                if !*repeat && self.capture_key == Some(*key) {
                    if self.captured {
                        return self.release_capture(aim);
                    }
                    self.captured = true;
                    return one(Effect::Capture(true));
                }
                match self.binding(*key) {
                    Some(action) => if *repeat {
                        nothing()
                    } else {
                        self.apply_binding(action, true)
                    },
                    None => plain_key_effect(ACTION_DOWN, *key, *mods),
                }
            },
            PaneEvent::KeyUp { key, mods } => match self.binding(*key) {
                Some(action) => self.apply_binding(action, false),
                None => plain_key_effect(ACTION_UP, *key, *mods),
            },
            PaneEvent::Motion { at } => {
                if self.captured {
                    self.aim_move(aim)
                } else if self.touch_down {
                    one(mouse_effect(ACTION_MOVE, *at))
                } else {
                    nothing()
                }
            },
            PaneEvent::LeftDown { at, fire } => {
                if self.captured {
                    shoot_effect(ACTION_DOWN, *fire)
                } else {
                    self.touch_down = true;
                    one(mouse_effect(ACTION_DOWN, *at))
                }
            },
            PaneEvent::LeftUp { at, fire } => {
                if self.captured {
                    shoot_effect(ACTION_UP, *fire)
                } else {
                    self.touch_down = false;
                    one(mouse_effect(ACTION_UP, *at))
                }
            },
            PaneEvent::RightDown => two(
                Effect::Message(back_or_screen_on(ACTION_DOWN)),
                Effect::Message(back_or_screen_on(ACTION_UP)),
            ),
            PaneEvent::MiddleDown => two(
                Effect::Message(key_event(ACTION_DOWN, AKEYCODE_HOME, 0, 0)),
                Effect::Message(key_event(ACTION_UP, AKEYCODE_HOME, 0, 0)),
            ),
            PaneEvent::Wheel { at, h, v } => one(Effect::Message(scroll_event(*at, *h, *v, 0))),
            PaneEvent::FocusLost => self.release_capture(aim),
            PaneEvent::Other => nothing(),
        }
    }
}

/// A window without input sends nothing and stays as it is.
pub proof fn no_control_no_effect(p: PaneState, e: PaneEvent, aim: Aim)
    requires
        !p.control,
    ensures
        reaction(p, e, aim) == (p, Seq::<Sent>::empty()),
{
}

/// A bound key never reaches the device as a key; one that is not bound does,
/// where Android has it.
pub proof fn bound_keys_are_touches(p: PaneState, k: u32, mods: u16, repeat: bool, aim: Aim)
    requires
        p.control,
        p.capture_key != Some(k),
    ensures
        p.binds.dom().contains(k) ==> (forall|i: int|
            0 <= i < reaction(p, PaneEvent::KeyDown { key: k, mods, repeat }, aim).1.len()
                ==> (#[trigger] reaction(p, PaneEvent::KeyDown { key: k, mods, repeat }, aim).1[i])
                is Touch),
        !p.binds.dom().contains(k) ==> reaction(
            p,
            PaneEvent::KeyDown { key: k, mods, repeat },
            aim,
        ).1 == plain_key(ACTION_DOWN, k, mods),
        p.binds.dom().contains(k) ==> (forall|i: int|
            0 <= i < reaction(p, PaneEvent::KeyUp { key: k, mods }, aim).1.len() ==> (
            #[trigger] reaction(p, PaneEvent::KeyUp { key: k, mods }, aim).1[i]) is Touch),
        !p.binds.dom().contains(k) ==> reaction(p, PaneEvent::KeyUp { key: k, mods }, aim).1
            == plain_key(ACTION_UP, k, mods),
{
}

/// The stick's finger is down exactly while one of its keys is held: every event
/// keeps it so.
pub proof fn stick_finger_follows_keys(p: PaneState, e: PaneEvent, aim: Aim)
    requires
        p.joy_down == !(p.held =~= Set::<Direction>::empty()),
    ensures
        ({
            let q = reaction(p, e, aim).0;
            q.joy_down == !(q.held =~= Set::<Direction>::empty())
        }),
{
}

/// Where the focus is lost the mouse is let go, and the view's finger is up.
pub proof fn focus_loss_releases(p: PaneState, aim: Aim)
    requires
        p.control,
        p.aim_down ==> p.captured,
    ensures
        !reaction(p, PaneEvent::FocusLost, aim).0.captured,
        !reaction(p, PaneEvent::FocusLost, aim).0.aim_down,
{
}

/// The finger that drags the view is down only while the mouse is captured:
/// every event keeps it so.
pub proof fn view_finger_needs_capture(p: PaneState, e: PaneEvent, aim: Aim)
    requires
        p.aim_down ==> p.captured,
    ensures
        ({
            let q = reaction(p, e, aim).0;
            q.aim_down ==> q.captured
        }),
{
}

/// A left button that goes down and up again without a capture presses and lifts
/// the finger of the mouse once, and leaves the window as it was.
pub proof fn click_is_one_touch(
    p: PaneState,
    at: Position,
    to: Position,
    fire: Option<Position>,
    aim: Aim,
)
    requires
        p.control,
        !p.captured,
        !p.touch_down,
    ensures
        ({
            let (q, down) = reaction(p, PaneEvent::LeftDown { at, fire }, aim);
            let (r, up) = reaction(q, PaneEvent::LeftUp { at: to, fire }, aim);
            &&& down == seq![mouse(ACTION_DOWN, at)]
            &&& up == seq![mouse(ACTION_UP, to)]
            &&& r == p
        }),
{
}

/// The mouse is a finger that stays under it. While its button is down, the
/// finger is where the mouse is: it goes down at the point that was clicked,
/// moves to each point that the mouse moves to, and goes up where the button was
/// released, with the same coordinates and in a picture of the same size. While
/// the button is up, a motion leads to nothing.
pub proof fn the_mouse_is_a_finger_under_it(
    p: PaneState,
    at: Position,
    fire: Option<Position>,
    aim: Aim,
)
    requires
        p.control,
        !p.captured,
    ensures
        ({
            let sent = reaction(p, PaneEvent::Motion { at }, aim).1;
            if p.touch_down {
                &&& sent.len() == 1
                &&& sent[0] matches Sent::Touch {
                    action,
                    pointer,
                    place: Spot::At(spot),
                    pressure,
                    action_button,
                    buttons,
                }
                &&& action == 2
                &&& pointer == 0xffff_ffff_ffff_fffe
                &&& spot.x == at.x
                &&& spot.y == at.y
                &&& spot.width == at.width
                &&& spot.height == at.height
                &&& pressure == 0x3f80_0000
                &&& action_button == 0
                &&& buttons == 1
            } else {
                sent.len() == 0
            }
        }),
        ({
            let sent = reaction(p, PaneEvent::LeftDown { at, fire }, aim).1;
            &&& sent.len() == 1
            &&& sent[0] matches Sent::Touch {
                action,
                pointer,
                place: Spot::At(spot),
                pressure,
                action_button,
                buttons,
            }
            &&& action == 0
            &&& pointer == 0xffff_ffff_ffff_fffe
            &&& spot.x == at.x
            &&& spot.y == at.y
            &&& spot.width == at.width
            &&& spot.height == at.height
            &&& pressure == 0x3f80_0000
            &&& action_button == 1
            &&& buttons == 1
        }),
        ({
            let sent = reaction(p, PaneEvent::LeftUp { at, fire }, aim).1;
            &&& sent.len() == 1
            &&& sent[0] matches Sent::Touch {
                action,
                pointer,
                place: Spot::At(spot),
                pressure,
                action_button,
                buttons,
            }
            &&& action == 1
            &&& pointer == 0xffff_ffff_ffff_fffe
            &&& spot.x == at.x
            &&& spot.y == at.y
            &&& spot.width == at.width
            &&& spot.height == at.height
            &&& pressure == 0
            &&& action_button == 1
            &&& buttons == 0
        }),
        reaction(p, PaneEvent::Motion { at }, aim).0 == p,
        reaction(p, PaneEvent::LeftDown { at, fire }, aim).0 == (PaneState {
            touch_down: true,
            ..p
        }),
        reaction(p, PaneEvent::LeftUp { at, fire }, aim).0 == (PaneState { touch_down: false, ..p }),
{
}

/// What was sent is a touch of the finger `pointer`, which does `action` at
/// `place`: pressed unless it goes up, and with no button.
pub open spec fn is_finger(s: Sent, what: u8, which: int, spot: Spot) -> bool {
    &&& s matches Sent::Touch { action, pointer, place, pressure, action_button, buttons }
    &&& action == what
    &&& pointer == which
    &&& place == spot
    &&& pressure == (if what == 1 {
        0u32
    } else {
        0x3f80_0000u32
    })
    &&& action_button == 0
    &&& buttons == 0
}

/// While the mouse is captured it drags the view with a finger of its own: the
/// finger is put down at its beginning where it is up, moves to where the event
/// brings it, and is lifted there where that is near an edge; it is down behind
/// the event exactly where it was not lifted. The button then fires with another
/// finger, at the place for that, and at none where there is none.
pub proof fn a_captured_mouse_drags_the_view(
    p: PaneState,
    at: Position,
    fire: Option<Position>,
    aim: Aim,
)
    requires
        p.control,
        p.captured,
        p.capture_key is Some,
    ensures
        ({
            let (q, sent) = reaction(p, PaneEvent::Motion { at }, aim);
            let first: int = if p.aim_down {
                0
            } else {
                1
            };
            &&& sent.len() == first + 1 + (if aim.edge {
                1int
            } else {
                0int
            })
            &&& !p.aim_down ==> is_finger(sent[0], 0, 100, Spot::At(aim.anchor))
            &&& is_finger(sent[first], 2, 100, Spot::At(aim.next))
            &&& aim.edge ==> is_finger(sent[first + 1], 1, 100, Spot::At(aim.next))
            &&& q == (PaneState { aim_down: !aim.edge, ..p })
        }),
        ({
            let (q, down) = reaction(p, PaneEvent::LeftDown { at, fire }, aim);
            let (r, up) = reaction(p, PaneEvent::LeftUp { at, fire }, aim);
            &&& q == p
            &&& r == p
            &&& match fire {
                Some(spot) => {
                    &&& down.len() == 1
                    &&& up.len() == 1
                    &&& is_finger(down[0], 0, 101, Spot::At(spot))
                    &&& is_finger(up[0], 1, 101, Spot::At(spot))
                },
                None => down.len() == 0 && up.len() == 0,
            }
        }),
{
}

/// The key for it captures the mouse and lets it go again, in turn; it lifts the
/// finger that drags the view where that is down, and changes nothing else. A
/// key that repeats does neither.
pub proof fn the_capture_key_captures_in_turn(p: PaneState, k: u32, mods: u16, aim: Aim)
    requires
        p.control,
        p.capture_key == Some(k),
        !p.captured,
        !p.aim_down,
    ensures
        ({
            let (q, on) = reaction(p, PaneEvent::KeyDown { key: k, mods, repeat: false }, aim);
            let (r, off) = reaction(q, PaneEvent::KeyDown { key: k, mods, repeat: false }, aim);
            let dragged = PaneState { aim_down: true, ..q };
            let (t, lifted) = reaction(
                dragged,
                PaneEvent::KeyDown { key: k, mods, repeat: false },
                aim,
            );
            &&& on == seq![Sent::Capture(true)]
            &&& off == seq![Sent::Capture(false)]
            &&& r == p
            &&& t == p
            &&& q == (PaneState { captured: true, ..p })
            &&& lifted.len() == 2
            &&& is_finger(lifted[0], 1, 100, Spot::At(aim.now))
            &&& lifted[1] == Sent::Capture(false)
            &&& reaction(q, PaneEvent::FocusLost, aim) == (p, off)
            &&& reaction(dragged, PaneEvent::FocusLost, aim) == (p, lifted)
        }),
        forall|captured: bool|
            #![auto]
            reaction(
                PaneState { captured, ..p },
                PaneEvent::KeyDown { key: k, mods, repeat: true },
                aim,
            ).0.captured == captured,
{
}

/// A key that is bound to a place is a finger at that place: down with the key,
/// and up with it.
pub proof fn a_bound_key_is_a_finger_at_its_place(p: PaneState, k: u32, mods: u16, aim: Aim)
    requires
        p.control,
        p.capture_key != Some(k),
        p.binds.dom().contains(k),
    ensures
        p.binds[k] matches Bind::Tap { x, y, pointer } ==> ({
            let (q, down) = reaction(p, PaneEvent::KeyDown { key: k, mods, repeat: false }, aim);
            let (r, up) = reaction(p, PaneEvent::KeyUp { key: k, mods }, aim);
            &&& q == p
            &&& r == p
            &&& down.len() == 1
            &&& up.len() == 1
            &&& is_finger(down[0], 0, pointer, Spot::Point { x, y })
            &&& is_finger(up[0], 1, pointer, Spot::Point { x, y })
        }),
        reaction(p, PaneEvent::KeyDown { key: k, mods, repeat: true }, aim) == (
            p,
            Seq::<Sent>::empty(),
        ),
{
}

/// A key of the stick, alone: the stick's finger is put down in the middle and
/// slides in the direction of the key, and is lifted with the key. Behind it the
/// stick is as it was.
pub proof fn a_stick_key_moves_the_stick(p: PaneState, k: u32, mods: u16, aim: Aim)
    requires
        p.control,
        p.capture_key != Some(k),
        p.binds.dom().contains(k),
        p.binds[k] is Joy,
        p.stick is Some,
        p.held =~= Set::<Direction>::empty(),
        !p.joy_down,
    ensures
        ({
            let d = p.binds[k]->Joy_0;
            let finger = (p.stick->0).pointer;
            let (q, down) = reaction(p, PaneEvent::KeyDown { key: k, mods, repeat: false }, aim);
            let (r, up) = reaction(q, PaneEvent::KeyUp { key: k, mods }, aim);
            let dx: int = if d is Right {
                1
            } else if d is Left {
                -1
            } else {
                0
            };
            let dy: int = if d is Down {
                1
            } else if d is Up {
                -1
            } else {
                0
            };
            &&& down.len() == 2
            &&& is_finger(down[0], 0, finger, Spot::Center)
            &&& is_finger(down[1], 2, finger, Spot::Stick { dx, dy })
            &&& q.joy_down
            &&& up.len() == 1
            &&& is_finger(up[0], 1, finger, Spot::Center)
            &&& r == p
        }),
{
    let d = p.binds[k]->Joy_0;
    let held = p.held.insert(d);
    assert(held.contains(d));
    assert(!(held =~= Set::<Direction>::empty()));
    assert(held.remove(d) =~= p.held);
}

/// With one direction held, a key of another moves the stick's finger and lifts
/// nothing: where the stick is held is the sum of the two.
pub proof fn a_second_stick_key_moves_the_stick_on(p: PaneState, k: u32, mods: u16, aim: Aim)
    requires
        p.control,
        p.capture_key != Some(k),
        p.binds.dom().contains(k),
        p.binds[k] is Joy,
        p.stick is Some,
        !(p.held =~= Set::<Direction>::empty()),
        p.joy_down,
        !p.held.contains(p.binds[k]->Joy_0),
    ensures
        ({
            let d = p.binds[k]->Joy_0;
            let finger = (p.stick->0).pointer;
            let (x, y) = deflection(p.held);
            let (q, down) = reaction(p, PaneEvent::KeyDown { key: k, mods, repeat: false }, aim);
            let (r, up) = reaction(q, PaneEvent::KeyUp { key: k, mods }, aim);
            let dx: int = if d is Right {
                1
            } else if d is Left {
                -1
            } else {
                0
            };
            let dy: int = if d is Down {
                1
            } else if d is Up {
                -1
            } else {
                0
            };
            &&& down.len() == 1
            &&& is_finger(down[0], 2, finger, Spot::Stick { dx: x + dx, dy: y + dy })
            &&& up.len() == 1
            &&& is_finger(up[0], 2, finger, Spot::Stick { dx: x, dy: y })
            &&& q.joy_down
            &&& r == p
        }),
{
    let d = p.binds[k]->Joy_0;
    let held = p.held.insert(d);
    assert(held.contains(d));
    assert(!(held =~= Set::<Direction>::empty()));
    assert(held.remove(d) =~= p.held);
}

/// A key that is not bound goes to the device under the device's number for it,
/// with the keys that are held beside it; its release differs from its press in
/// what it does alone. A key that the device has none for leads to nothing.
pub proof fn a_free_key_is_a_key(p: PaneState, k: u32, mods: u16, repeat: bool, aim: Aim)
    requires
        p.control,
        p.capture_key != Some(k),
        !p.binds.dom().contains(k),
    ensures
        ({
            let (q, down) = reaction(p, PaneEvent::KeyDown { key: k, mods, repeat }, aim);
            let (r, up) = reaction(p, PaneEvent::KeyUp { key: k, mods }, aim);
            &&& q == p
            &&& r == p
            &&& match android_key(k) {
                None => down.len() == 0 && up.len() == 0,
                Some(code) => {
                    &&& down == seq![Sent::Message(key_message(0, code, 0, meta(mods) as i32))]
                    &&& up == seq![Sent::Message(key_message(1, code, 0, meta(mods) as i32))]
                },
            }
        }),
{
}

/// The other buttons are keys that are pressed and released at once, back and
/// home; the wheel scrolls at the point under the mouse, as far as it was turned
/// across and down. None of them changes what is held.
pub proof fn other_buttons_are_keys(p: PaneState, at: Position, h: u32, v: u32, aim: Aim)
    requires
        p.control,
    ensures
        reaction(p, PaneEvent::RightDown, aim) == (
            p,
            seq![Sent::Message(seq![4u8, 0u8]), Sent::Message(seq![4u8, 1u8])],
        ),
        reaction(p, PaneEvent::MiddleDown, aim) == (
            p,
            seq![
                Sent::Message(key_message(0, 3, 0, 0)),
                Sent::Message(key_message(1, 3, 0, 0)),
            ],
        ),
        reaction(p, PaneEvent::Wheel { at, h, v }, aim) == (
            p,
            seq![Sent::Message(scroll_message(at, h, v, 0))],
        ),
        reaction(p, PaneEvent::Other, aim) == (p, Seq::<Sent>::empty()),
{
}

} // verus!
