//! Keys that press on an app's screen: a text binds keys to places, and four
//! keys to a stick.
//!
//! ```text
//! # comment
//! joystick w a s d  0.20 0.75 0.12
//! tap space         0.85 0.80
//! ```
//!
//! Each place has a finger of its own, so that several can be held at once.

use crate::number::{fraction, is_fraction};
use crate::text::{
    before, lines, lowercase, push_text, same, text_before, text_lines, text_words, to_lowercase,
    trim, trimmed, views, words,
};
use std::collections::HashMap;
use vstd::prelude::*;

verus! {

broadcast use vstd::std_specs::hash::group_hash_axioms;

/// A direction of the stick.
#[derive(Debug, Clone, Copy, PartialEq, Eq, Structural)]
pub enum Direction {
    Up,
    Left,
    Down,
    Right,
}

/// What a key does. A place is given by two fractions of the screen, as texts.
#[derive(Debug)]
pub enum Action {
    /// The finger `pointer` is down at the place while the key is held.
    Tap { x: String, y: String, pointer: u64 },
    /// The stick is held in a direction.
    Joy(Direction),
}

/// What an `Action` stands for.
pub enum Bind {
    Tap { x: Seq<char>, y: Seq<char>, pointer: int },
    Joy(Direction),
}

impl View for Action {
    type V = Bind;

    open spec fn view(&self) -> Bind {
        match self {
            Action::Tap { x, y, pointer } => Bind::Tap { x: x@, y: y@, pointer: *pointer as int },
            Action::Joy(d) => Bind::Joy(*d),
        }
    }
}

impl Action {
    /// A copy of the action.
    pub fn copy(&self) -> (r: Action)
        ensures
            r@ == self@,
    {
        match self {
            Action::Tap { x, y, pointer } => Action::Tap {
                x: x.clone(),
                y: y.clone(),
                pointer: *pointer,
            },
            Action::Joy(d) => Action::Joy(*d),
        }
    }
}

/// Where the stick is, how far it goes, and its finger.
#[derive(Debug)]
pub struct JoystickCfg {
    pub cx: String,
    pub cy: String,
    pub radius: String,
    pub pointer: u64,
}

/// What a `JoystickCfg` stands for.
pub struct Stick {
    pub cx: Seq<char>,
    pub cy: Seq<char>,
    pub radius: Seq<char>,
    pub pointer: int,
}

impl View for JoystickCfg {
    type V = Stick;

    open spec fn view(&self) -> Stick {
        Stick {
            cx: self.cx@,
            cy: self.cy@,
            radius: self.radius@,
            pointer: self.pointer as int,
        }
    }
}

/// The stick of a keymap, where it has one.
pub open spec fn stick_of(j: Option<JoystickCfg>) -> Option<Stick> {
    match j {
        Some(c) => Some(c@),
        None => None,
    }
}

/// What the name that is written for a key is called in full.
pub open spec fn canonical(name: Seq<char>) -> Seq<char> {
    let low = lowercase(name);
    if low == "space"@ {
        "Space"@
    } else if low == "lshift"@ {
        "Left Shift"@
    } else if low == "rshift"@ {
        "Right Shift"@
    } else if low == "tab"@ {
        "Tab"@
    } else if low == "up"@ {
        "Up"@
    } else if low == "down"@ {
        "Down"@
    } else if low == "left"@ {
        "Left"@
    } else if low == "right"@ {
        "Right"@
    } else {
        low
    }
}

/// What the name that is written for a key is called in full.
pub fn canonical_name(name: &str) -> (r: String)
    ensures
        r@ == canonical(name@),
{
    let low = to_lowercase(name);
    let l = low.as_str();
    if same(l, "space") {
        "Space".to_owned()
    } else if same(l, "lshift") {
        "Left Shift".to_owned()
    } else if same(l, "rshift") {
        "Right Shift".to_owned()
    } else if same(l, "tab") {
        "Tab".to_owned()
    } else if same(l, "up") {
        "Up".to_owned()
    } else if same(l, "down") {
        "Down".to_owned()
    } else if same(l, "left") {
        "Left".to_owned()
    } else if same(l, "right") {
        "Right".to_owned()
    } else {
        low
    }
}

/// The number of the key called `name` in full, of the keys that are known.
pub open spec fn number_of(known: Seq<(String, u32)>, name: Seq<char>) -> Option<u32>
    decreases known.len(),
{
    if known.len() == 0 {
        None
    } else if known[0].0@ == name {
        Some(known[0].1)
    } else {
        number_of(known.skip(1), name)
    }
}

/// The number of the key that is written `name`.
pub open spec fn key(known: Seq<(String, u32)>, name: Seq<char>) -> Option<u32> {
    number_of(known, canonical(name))
}

fn keycode(known: &Vec<(String, u32)>, name: &str) -> (r: Option<u32>)
    ensures
        r == key(known@, name@),
{
    let full = canonical_name(name);
    let mut i: usize = 0;
    assert(known@.skip(0) =~= known@);
    while i < known.len()
        invariant
            i <= known.len(),
            full@ == canonical(name@),
            number_of(known@, full@) == number_of(known@.skip(i as int), full@),
        decreases known.len() - i,
    {
        assert(known@.skip(i as int)[0] == known@[i as int]);
        if same(known[i].0.as_str(), full.as_str()) {
            return Some(known[i].1);
        }
        assert(known@.skip(i as int).skip(1) =~= known@.skip(i + 1));
        i = i + 1;
    }
    None
}

/// The words of a line, without the comment at its end.
pub open spec fn tokens(line: Seq<char>) -> Seq<Seq<char>> {
    words(trim(before(line, "#"@)))
}

/// The words bind a key to a place.
pub open spec fn is_tap(t: Seq<Seq<char>>) -> bool {
    t.len() == 4 && t[0] == "tap"@
}

/// The words bind four keys to the stick.
pub open spec fn is_stick(t: Seq<Seq<char>>) -> bool {
    t.len() == 8 && t[0] == "joystick"@
}

/// What was read so far: the keys, the stick, and the next finger.
pub struct Read {
    pub binds: Map<u32, Bind>,
    pub stick: Option<Stick>,
    pub next: int,
}

/// `m` with the key bound, where it is known.
pub open spec fn bound(m: Map<u32, Bind>, k: Option<u32>, b: Bind) -> Map<u32, Bind> {
    match k {
        Some(k) => m.insert(k, b),
        None => m,
    }
}

/// What was read behind one line more. A line that is not understood is left
/// out.
pub open spec fn read_line(r: Read, line: Seq<char>, known: Seq<(String, u32)>) -> Read {
    let t = tokens(line);
    if is_tap(t) {
        match key(known, t[1]) {
            Some(k) => if fraction(t[2]) && fraction(t[3]) {
                Read {
                    binds: r.binds.insert(k, Bind::Tap { x: t[2], y: t[3], pointer: r.next }),
                    stick: r.stick,
                    next: r.next + 1,
                }
            } else {
                r
            },
            None => r,
        }
    } else if is_stick(t) {
        if fraction(t[5]) && fraction(t[6]) && fraction(t[7]) {
            let m1 = bound(r.binds, key(known, t[1]), Bind::Joy(Direction::Up));
            let m2 = bound(m1, key(known, t[2]), Bind::Joy(Direction::Left));
            let m3 = bound(m2, key(known, t[3]), Bind::Joy(Direction::Down));
            Read {
                binds: bound(m3, key(known, t[4]), Bind::Joy(Direction::Right)),
                stick: Some(Stick { cx: t[5], cy: t[6], radius: t[7], pointer: 0 }),
                next: r.next,
            }
        } else {
            r
        }
    } else {
        r
    }
}

/// What the lines say. The stick has the finger zero; the others are counted
/// from one.
pub open spec fn read_lines(ls: Seq<Seq<char>>, known: Seq<(String, u32)>) -> Read
    decreases ls.len(),
{
    if ls.len() == 0 {
        Read { binds: Map::empty(), stick: None, next: 1 }
    } else {
        read_line(read_lines(ls.drop_last(), known), ls.last(), known)
    }
}

/// The keys that a line names, in full.
pub open spec fn names_of_line(line: Seq<char>) -> Seq<Seq<char>> {
    let t = tokens(line);
    if is_tap(t) {
        seq![canonical(t[1])]
    } else if is_stick(t) {
        seq![canonical(t[1]), canonical(t[2]), canonical(t[3]), canonical(t[4])]
    } else {
        seq![]
    }
}

/// The keys that the lines name, in full.
pub open spec fn names_of(ls: Seq<Seq<char>>) -> Seq<Seq<char>>
    decreases ls.len(),
{
    if ls.len() == 0 {
        seq![]
    } else {
        names_of(ls.drop_last()) + names_of_line(ls.last())
    }
}

/// Every finger is one that was counted, and no two keys have the same.
pub open spec fn fingers_differ(r: Read) -> bool {
    &&& r.next >= 1
    &&& forall|k: u32| #[trigger]
        r.binds.dom().contains(k) ==> (r.binds[k] matches Bind::Tap { pointer, .. } ==> 1
            <= pointer < r.next)
    &&& forall|k: u32, l: u32|
        k != l && #[trigger] r.binds.dom().contains(k) && #[trigger] r.binds.dom().contains(l) ==> (
        r.binds[k] matches Bind::Tap { pointer: p, .. } ==> (r.binds[l] matches Bind::Tap {
            pointer: q,
            ..
        } ==> p != q))
}

/// Each place has a finger of its own, which is not the stick's.
pub proof fn taps_have_own_fingers(ls: Seq<Seq<char>>, known: Seq<(String, u32)>)
    ensures
        fingers_differ(read_lines(ls, known)),
    decreases ls.len(),
{
    if ls.len() > 0 {
        taps_have_own_fingers(ls.drop_last(), known);
    }
}

proof fn next_is_small(ls: Seq<Seq<char>>, known: Seq<(String, u32)>)
    ensures
        1 <= read_lines(ls, known).next <= ls.len() + 1,
    decreases ls.len(),
{
    if ls.len() > 0 {
        next_is_small(ls.drop_last(), known);
    }
}

/// Next to a line, a text has a character for each further line.
proof fn lines_take_room(s: Seq<char>)
    ensures
        lines(s).len() <= s.len(),
        forall|i: int|
            0 <= i < lines(s).len() ==> (#[trigger] lines(s)[i]).len() + lines(s).len() <= s.len()
                + 1,
    decreases s.len(),
{
    if s.len() > 0 {
        crate::text::line_len_bounds(s);
        let n = crate::text::line_len(s);
        if 0 <= n < s.len() {
            let rest = s.skip(n + 1);
            lines_take_room(rest);
            assert forall|i: int| 0 <= i < lines(s).len() implies (#[trigger] lines(s)[i]).len()
                + lines(s).len() <= s.len() + 1 by {
                if i > 0 {
                    assert(lines(s)[i] == lines(rest)[i - 1]);
                }
            }
        }
    }
}

proof fn words_take_room(s: Seq<char>)
    ensures
        words(s).len() <= s.len(),
    decreases s.len(),
{
    if s.len() > 0 {
        if crate::text::white(s[0]) {
            words_take_room(s.skip(1));
        } else {
            crate::text::word_len_bounds(s);
            let n = crate::text::word_len(s);
            if 0 < n <= s.len() {
                words_take_room(s.skip(n));
            }
        }
    }
}

proof fn tokens_take_room(line: Seq<char>)
    ensures
        tokens(line).len() <= line.len(),
{
    let left = before(line, "#"@);
    crate::text::find_from_is_first(line, "#"@, 0);
    assert(left.len() <= line.len());
    crate::text::trim_is_a_part(left);
    words_take_room(trim(left));
}

/// The keys of an app.
#[derive(Debug)]
pub struct Keymap {
    pub bindings: HashMap<u32, Action>,
    pub joystick: Option<JoystickCfg>,
}

impl Keymap {
    /// What the keys do.
    pub open spec fn binds(&self) -> Map<u32, Bind> {
        self.bindings@.map_values(|a: Action| a@)
    }

    /// The keys that a text names, in full: what a keymap has to know the
    /// numbers of.
    pub fn key_names(text: &str) -> (r: Vec<String>)
        ensures
            views(r@) == names_of(lines(text@)),
    {
        let ls = text_lines(text);
        let ghost all = views(ls@);
        let mut r: Vec<String> = Vec::new();
        let mut i: usize = 0;
        assert(all.take(0) =~= seq![]);
        assert(views(r@) =~= seq![]);
        while i < ls.len()
            invariant
                i <= ls.len(),
                all == views(ls@),
                views(r@) == names_of(all.take(i as int)),
            decreases ls.len() - i,
        {
            assert(all.take(i + 1).drop_last() =~= all.take(i as int));
            assert(all.take(i + 1).last() == ls@[i as int]@);
            let ghost was = views(r@);
            let t = text_words(trimmed(text_before(ls[i].as_str(), "#").as_str()).as_str());
            let ghost w = views(t@);
            assert(forall|j: int| 0 <= j < w.len() ==> #[trigger] w[j] == t@[j]@);
            if t.len() == 4 && same(t[0].as_str(), "tap") {
                push_text(&mut r, canonical_name(t[1].as_str()).as_str());
                assert(views(r@) =~= was + names_of_line(ls@[i as int]@));
            } else if t.len() == 8 && same(t[0].as_str(), "joystick") {
                push_text(&mut r, canonical_name(t[1].as_str()).as_str());
                push_text(&mut r, canonical_name(t[2].as_str()).as_str());
                push_text(&mut r, canonical_name(t[3].as_str()).as_str());
                push_text(&mut r, canonical_name(t[4].as_str()).as_str());
                assert(views(r@) =~= was + names_of_line(ls@[i as int]@));
            } else {
                assert(was + names_of_line(ls@[i as int]@) =~= was);
            }
            i = i + 1;
        }
        assert(all.take(ls@.len() as int) =~= all);
        r
    }

    fn bind(&mut self, k: Option<u32>, d: Direction)
        ensures
            final(self).binds() == bound(old(self).binds(), k, Bind::Joy(d)),
            final(self).joystick == old(self).joystick,
    {
        if let Some(k) = k {
            let _ = self.bindings.insert(k, Action::Joy(d));
            assert(self.binds() =~= old(self).binds().insert(k, Bind::Joy(d)));
        }
    }

    /// Reads a keymap. `known` holds the keys that the text names, in full, with
    /// their numbers, as far as they have one.
    pub fn parse(text: &str, known: &Vec<(String, u32)>) -> (r: Keymap)
        ensures
            r.binds() == read_lines(lines(text@), known@).binds,
            stick_of(r.joystick) == read_lines(lines(text@), known@).stick,
    {
        let size: usize = text.unicode_len();
        let ls = text_lines(text);
        let ghost all = views(ls@);
        let mut map = Keymap { bindings: HashMap::new(), joystick: None };
        let mut next: u64 = 1;
        let mut i: usize = 0;
        assert(all.take(0) =~= seq![]);
        assert(map.binds() =~= Map::<u32, Bind>::empty());
        proof {
            lines_take_room(text@);
        }
        while i < ls.len()
            invariant
                i <= ls.len(),
                all == views(ls@),
                size == text@.len(),
                all == lines(text@),
                forall|j: int|
                    0 <= j < all.len() ==> (#[trigger] all[j]).len() + all.len() <= size + 1,
                map.binds() == read_lines(all.take(i as int), known@).binds,
                stick_of(map.joystick) == read_lines(all.take(i as int), known@).stick,
                next == read_lines(all.take(i as int), known@).next,
            decreases ls.len() - i,
        {
            assert(all.take(i + 1).drop_last() =~= all.take(i as int));
            assert(all.take(i + 1).last() == ls@[i as int]@);
            proof {
                next_is_small(all.take(i as int), known@);
            }
            let t = text_words(trimmed(text_before(ls[i].as_str(), "#").as_str()).as_str());
            let ghost w = views(t@);
            assert(w == tokens(ls@[i as int]@));
            proof {
                tokens_take_room(ls@[i as int]@);
                assert(all[i as int] == ls@[i as int]@);
            }
            assert(forall|j: int| 0 <= j < w.len() ==> #[trigger] w[j] == t@[j]@);
            if t.len() == 4 && same(t[0].as_str(), "tap") {
                if let Some(k) = keycode(known, t[1].as_str()) {
                    if is_fraction(t[2].as_str()) && is_fraction(t[3].as_str()) {
                        let ghost was = map.binds();
                        let a = Action::Tap { x: t[2].clone(), y: t[3].clone(), pointer: next };
                        let ghost b = a@;
                        let _ = map.bindings.insert(k, a);
                        assert(map.binds() =~= was.insert(k, b));
                        next = next + 1;
                    }
                }
            } else if t.len() == 8 && same(t[0].as_str(), "joystick") {
                if is_fraction(t[5].as_str()) && is_fraction(t[6].as_str()) && is_fraction(
                    t[7].as_str(),
                ) {
                    map.bind(keycode(known, t[1].as_str()), Direction::Up);
                    map.bind(keycode(known, t[2].as_str()), Direction::Left);
                    map.bind(keycode(known, t[3].as_str()), Direction::Down);
                    map.bind(keycode(known, t[4].as_str()), Direction::Right);
                    map.joystick = Some(
                        JoystickCfg {
                            cx: t[5].clone(),
                            cy: t[6].clone(),
                            radius: t[7].clone(),
                            pointer: 0,
                        },
                    );
                }
            }
            i = i + 1;
        }
        assert(all.take(ls@.len() as int) =~= all);
        map
    }

    /// The keymap of a text that binds any key; none otherwise.
    pub fn load(text: &str, known: &Vec<(String, u32)>) -> (r: Option<Keymap>)
        ensures
            match r {
                Some(m) => {
                    &&& m.binds() == read_lines(lines(text@), known@).binds
                    &&& stick_of(m.joystick) == read_lines(lines(text@), known@).stick
                    &&& m.binds().len() > 0
                },
                None => read_lines(lines(text@), known@).binds.len() == 0,
            },
    {
        let map = Keymap::parse(text, known);
        assert(map.binds().dom() =~= map.bindings@.dom());
        if map.bindings.len() == 0 {
            None
        } else {
            Some(map)
        }
    }

    /// What a key does.
    pub fn get(&self, key: u32) -> (r: Option<Action>)
        ensures
            match r {
                Some(a) => self.binds().dom().contains(key) && a@ == self.binds()[key],
                None => !self.binds().dom().contains(key),
            },
    {
        match self.bindings.get(&key) {
            Some(a) => Some(a.copy()),
            None => None,
        }
    }
}

/// Where the keymap of a package lies in the user's home.
pub open spec fn keymap_path(home: Seq<char>, package: Seq<char>) -> Seq<char> {
    crate::host::Host::Linux.path(
        crate::host::Host::Linux.path(home, ".androlon/keymaps"@),
        package + ".conf"@,
    )
}

/// Where the keymap of a package lies in the user's home.
pub fn path_of(home: &str, package: &str) -> (r: String)
    ensures
        r@ == keymap_path(home@, package@),
{
    let host = crate::host::Host::Linux;
    let dir = host.join(home, ".androlon/keymaps");
    host.join(dir.as_str(), crate::text::cat2(package, ".conf").as_str())
}

/// The directions in which the stick is held, and whether its finger is down.
#[derive(Debug)]
pub struct JoyState {
    pub held: Vec<Direction>,
    pub down: bool,
}

/// The sum of the directions, across and down.
pub open spec fn deflection(held: Set<Direction>) -> (int, int) {
    (
        count(held, Direction::Right) - count(held, Direction::Left),
        count(held, Direction::Down) - count(held, Direction::Up),
    )
}

/// One where the direction is held.
pub open spec fn count(held: Set<Direction>, d: Direction) -> int {
    if held.contains(d) {
        1
    } else {
        0
    }
}

impl Default for JoyState {
    fn default() -> (r: JoyState)
        ensures
            r.held() == Set::<Direction>::empty(),
            !r.down,
    {
        let r = JoyState { held: Vec::new(), down: false };
        assert(r.held() =~= Set::<Direction>::empty());
        r
    }
}

impl JoyState {
    /// The directions that are held.
    pub open spec fn held(&self) -> Set<Direction> {
        self.held@.to_set()
    }

    fn holds(&self, d: Direction) -> (r: bool)
        ensures
            r == self.held().contains(d),
    {
        let mut i: usize = 0;
        while i < self.held.len()
            invariant
                i <= self.held.len(),
                forall|k: int| 0 <= k < i ==> self.held@[k] != d,
            decreases self.held.len() - i,
        {
            if self.held[i] == d {
                return true;
            }
            i = i + 1;
        }
        false
    }

    /// Holds the stick in one direction more.
    pub fn press(&mut self, d: Direction)
        ensures
            final(self).held() == old(self).held().insert(d),
            final(self).down == old(self).down,
    {
        if !self.holds(d) {
            self.held.push(d);
            proof {
                let was = old(self).held@;
                assert(self.held@ == was.push(d));
                assert forall|x: Direction|
                    self.held@.to_set().contains(x) == was.to_set().insert(d).contains(x) by {
                    if was.contains(x) {
                        let k = choose|k: int| 0 <= k < was.len() && was[k] == x;
                        assert(self.held@[k] == x);
                    }
                    assert(self.held@[was.len() as int] == d);
                    if self.held@.contains(x) && x != d {
                        let k = choose|k: int| 0 <= k < self.held@.len() && self.held@[k] == x;
                        assert(was[k] == x);
                    }
                }
                assert(self.held() =~= old(self).held().insert(d));
            }
        } else {
            assert(self.held() =~= old(self).held().insert(d));
        }
    }

    /// Holds the stick in one direction less.
    pub fn release(&mut self, d: Direction)
        ensures
            final(self).held() == old(self).held().remove(d),
            final(self).down == old(self).down,
    {
        let mut kept: Vec<Direction> = Vec::new();
        let mut i: usize = 0;
        while i < self.held.len()
            invariant
                i <= self.held.len(),
                self.held == old(self).held,
                self.down == old(self).down,
                forall|k: int| 0 <= k < kept@.len() ==> kept@[k] != d && self.held@.contains(
                    #[trigger] kept@[k],
                ),
                forall|k: int| 0 <= k < i && self.held@[k] != d ==> kept@.contains(
                    #[trigger] self.held@[k],
                ),
            decreases self.held.len() - i,
        {
            let x = self.held[i];
            if x != d {
                let ghost was = kept@;
                kept.push(x);
                proof {
                    assert(kept@[was.len() as int] == x);
                    assert forall|k: int| 0 <= k < i + 1 && self.held@[k] != d implies kept@.contains(
                        #[trigger] self.held@[k],
                    ) by {
                        if k < i {
                            let j = choose|j: int| 0 <= j < was.len() && was[j] == self.held@[k];
                            assert(kept@[j] == self.held@[k]);
                        }
                    }
                }
            }
            i = i + 1;
        }
        let ghost was = self.held@;
        self.held = kept;
        proof {
            assert forall|x: Direction|
                self.held@.to_set().contains(x) == was.to_set().remove(d).contains(x) by {
                if was.contains(x) && x != d {
                    let k = choose|k: int| 0 <= k < was.len() && was[k] == x;
                    assert(self.held@.contains(was[k]));
                }
                if self.held@.contains(x) {
                    let k = choose|k: int| 0 <= k < self.held@.len() && self.held@[k] == x;
                    assert(was.contains(self.held@[k]));
                }
            }
            assert(self.held() =~= old(self).held().remove(d));
        }
    }

    /// Where the stick is held: the sum of the directions, across and down, each
    /// between minus one and one. None where none is held; opposite directions
    /// cancel, and the stick is then held in the middle.
    pub fn direction(&self) -> (r: Option<(i32, i32)>)
        ensures
            match r {
                Some((x, y)) => !(self.held() =~= Set::<Direction>::empty()) && (x as int, y as int)
                    == deflection(self.held()),
                None => self.held() =~= Set::<Direction>::empty(),
            },
    {
        if self.held.len() == 0 {
            assert(self.held() =~= Set::<Direction>::empty());
            return None;
        }
        assert(self.held().contains(self.held@[0]));
        let mut x: i32 = 0;
        let mut y: i32 = 0;
        if self.holds(Direction::Right) {
            x = x + 1;
        }
        if self.holds(Direction::Left) {
            x = x - 1;
        }
        if self.holds(Direction::Down) {
            y = y + 1;
        }
        if self.holds(Direction::Up) {
            y = y - 1;
        }
        Some((x, y))
    }
}

/// A key that is pressed and released leaves the stick as it was, where it was
/// not held before.
pub proof fn release_undoes_press(held: Set<Direction>, d: Direction)
    requires
        !held.contains(d),
    ensures
        held.insert(d).remove(d) == held,
{
    assert(held.insert(d).remove(d) =~= held);
}

/// Opposite directions cancel.
pub proof fn opposites_cancel(held: Set<Direction>)
    requires
        held.contains(Direction::Left) == held.contains(Direction::Right),
        held.contains(Direction::Up) == held.contains(Direction::Down),
    ensures
        deflection(held) == (0int, 0int),
{
}

/// A line that binds a key to a place does so behind all lines before it: the key
/// is bound to the two fractions that the line gives, with a finger that no line
/// before has used, and the other keys and the stick stay as they are.
pub proof fn a_line_binds_its_key(
    ls: Seq<Seq<char>>,
    line: Seq<char>,
    known: Seq<(String, u32)>,
    name: Seq<char>,
    x: Seq<char>,
    y: Seq<char>,
    k: u32,
)
    requires
        tokens(line) == seq!["tap"@, name, x, y],
        key(known, name) == Some(k),
        fraction(x),
        fraction(y),
    ensures
        ({
            let r = read_lines(ls, known);
            let s = read_lines(ls.push(line), known);
            &&& s.binds.dom() == r.binds.dom().insert(k)
            &&& s.binds[k] == (Bind::Tap { x, y, pointer: r.next })
            &&& s.stick == r.stick
            &&& s.next == r.next + 1
            &&& forall|l: u32| #[trigger]
                r.binds.dom().contains(l) && l != k ==> s.binds[l] == r.binds[l]
        }),
{
    assert(ls.push(line).drop_last() =~= ls);
    let r = read_lines(ls, known);
    assert(r.binds.insert(k, Bind::Tap { x, y, pointer: r.next }).dom() =~= r.binds.dom().insert(
        k,
    ));
}

/// A line that binds the stick names its keys in the order up, left, down, right,
/// and then where the stick is and how far it goes; its finger is the first of
/// all. Where the four keys are known and differ, each of them is bound to its own
/// direction.
pub proof fn a_line_binds_the_stick(
    ls: Seq<Seq<char>>,
    line: Seq<char>,
    known: Seq<(String, u32)>,
    t: Seq<Seq<char>>,
    up: u32,
    left: u32,
    down: u32,
    right: u32,
)
    requires
        tokens(line) == t,
        t.len() == 8,
        t[0] == "joystick"@,
        key(known, t[1]) == Some(up),
        key(known, t[2]) == Some(left),
        key(known, t[3]) == Some(down),
        key(known, t[4]) == Some(right),
        up != left && up != down && up != right && left != down && left != right && down != right,
        fraction(t[5]),
        fraction(t[6]),
        fraction(t[7]),
    ensures
        ({
            let r = read_lines(ls, known);
            let s = read_lines(ls.push(line), known);
            &&& s.binds.dom().contains(up) && s.binds[up] == Bind::Joy(Direction::Up)
            &&& s.binds.dom().contains(left) && s.binds[left] == Bind::Joy(Direction::Left)
            &&& s.binds.dom().contains(down) && s.binds[down] == Bind::Joy(Direction::Down)
            &&& s.binds.dom().contains(right) && s.binds[right] == Bind::Joy(Direction::Right)
            &&& s.stick == Some(Stick { cx: t[5], cy: t[6], radius: t[7], pointer: 0 })
            &&& s.next == r.next
            &&& forall|l: u32| #[trigger]
                r.binds.dom().contains(l) && l != up && l != left && l != down && l != right
                    ==> s.binds[l] == r.binds[l]
        }),
{
    assert(ls.push(line).drop_last() =~= ls);
    reveal_strlit("tap");
    reveal_strlit("joystick");
    assert("tap"@[0] == 't' && "joystick"@[0] == 'j');
}

/// A line that is not understood changes nothing, and neither does one whose key
/// is not known or whose place is no place.
pub proof fn other_lines_change_nothing(
    ls: Seq<Seq<char>>,
    line: Seq<char>,
    known: Seq<(String, u32)>,
)
    requires
        ({
            let t = tokens(line);
            ||| t.len() != 4 && t.len() != 8
            ||| t.len() > 0 && t[0] != "tap"@ && t[0] != "joystick"@
            ||| t.len() == 4 && (!fraction(t[2]) || !fraction(t[3]) || key(known, t[1]) is None)
            ||| t.len() == 8 && (!fraction(t[5]) || !fraction(t[6]) || !fraction(t[7]))
        }),
    ensures
        read_lines(ls.push(line), known) == read_lines(ls, known),
{
    assert(ls.push(line).drop_last() =~= ls);
}

/// What stands behind the mark of a comment does not count.
pub proof fn comments_do_not_count(line: Seq<char>, comment: Seq<char>)
    requires
        forall|i: int| 0 <= i < line.len() ==> #[trigger] line[i] != '#',
    ensures
        tokens(line + "#"@ + comment) == tokens(line),
        tokens(line) == words(trim(line)),
{
    let p = "#"@;
    let s = line + p + comment;
    reveal_strlit("#");
    crate::text::find_from_is_first(s, p, 0);
    crate::text::find_from_is_first(line, p, 0);
    let at = line.len() as int;
    assert(s.subrange(at, at + 1) =~= p);
    assert(crate::text::occurs_at(s, p, at));
    if let Some(k) = crate::text::find(s, p) {
        if k < at {
            assert(s.subrange(k, k + 1)[0] == line[k]);
        }
    }
    if let Some(k) = crate::text::find(line, p) {
        assert(line.subrange(k, k + 1)[0] == line[k]);
    }
    assert(s.take(at) =~= line);
}

/// The number of a key is one that its name is known by: the first of those.
pub proof fn keys_go_by_their_names(known: Seq<(String, u32)>, name: Seq<char>, i: int)
    requires
        0 <= i < known.len(),
        known[i].0@ == name,
        forall|j: int| 0 <= j < i ==> (#[trigger] known[j]).0@ != name,
    ensures
        number_of(known, name) == Some(known[i].1),
    decreases known.len(),
{
    if i > 0 {
        assert(known[0].0@ != name);
        let rest = known.skip(1);
        assert(rest[i - 1] == known[i]);
        assert(forall|j: int| 0 <= j < i - 1 ==> rest[j] == known[j + 1]);
        keys_go_by_their_names(rest, name, i - 1);
    }
}

/// The stick is held where its keys point: each direction moves it by one, to the
/// right and down by a positive one, and to the left and up by a negative one.
pub proof fn directions_move_the_stick(held: Set<Direction>, d: Direction)
    requires
        !held.contains(d),
    ensures
        ({
            let (x, y) = deflection(held);
            deflection(held.insert(d)) == match d {
                Direction::Right => (x + 1, y),
                Direction::Left => (x - 1, y),
                Direction::Down => (x, y + 1),
                Direction::Up => (x, y - 1),
            }
        }),
        deflection(Set::empty()) == (0int, 0int),
{
}

/// A key that has a short name is called by its full one, whatever the letters are
/// written like; every other key is called by its name in small letters.
pub proof fn short_names_stand_for_full_ones(name: Seq<char>)
    ensures
        lowercase(name) == "space"@ ==> canonical(name) == "Space"@,
        lowercase(name) == "lshift"@ ==> canonical(name) == "Left Shift"@,
        lowercase(name) == "rshift"@ ==> canonical(name) == "Right Shift"@,
        lowercase(name) == "tab"@ ==> canonical(name) == "Tab"@,
        lowercase(name) == "up"@ ==> canonical(name) == "Up"@,
        lowercase(name) == "down"@ ==> canonical(name) == "Down"@,
        lowercase(name) == "left"@ ==> canonical(name) == "Left"@,
        lowercase(name) == "right"@ ==> canonical(name) == "Right"@,
        lowercase(name).len() == 1 ==> canonical(name) == lowercase(name),
{
    reveal_strlit("space");
    reveal_strlit("lshift");
    reveal_strlit("rshift");
    reveal_strlit("tab");
    reveal_strlit("up");
    reveal_strlit("down");
    reveal_strlit("left");
    reveal_strlit("right");
    assert("space"@.len() == 5 && "space"@[0] == 's');
    assert("lshift"@.len() == 6 && "lshift"@[0] == 'l');
    assert("rshift"@.len() == 6 && "rshift"@[0] == 'r');
    assert("tab"@.len() == 3);
    assert("up"@.len() == 2);
    assert("down"@.len() == 4 && "down"@[0] == 'd');
    assert("left"@.len() == 4 && "left"@[0] == 'l');
    assert("right"@.len() == 5 && "right"@[0] == 'r');
}

} // verus!
