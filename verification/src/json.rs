//! A small dialect of JSON: one flat object to a line, whose values are
//! strings, integers, booleans and lists of strings.

use crate::number::{
    dec, decimal_signed, digit, digit_run, hex, hex_digit, hex_value, hexadecimal, is_decimal,
    is_digit, signed, signed_at,
};
use crate::text::{
    code, copy_list, is_less, join_texts, joined, less, push_text, same, starts_with, to_chars,
    views,
};
use vstd::prelude::*;

verus! {

/// A value of an object.
#[derive(Debug, PartialEq)]
pub enum Value {
    Str(String),
    Int(i64),
    Bool(bool),
    List(Vec<String>),
}

/// What a `Value` stands for.
pub enum Item {
    Str(Seq<char>),
    Int(int),
    Bool(bool),
    List(Seq<Seq<char>>),
}

impl View for Value {
    type V = Item;

    open spec fn view(&self) -> Item {
        match self {
            Value::Str(s) => Item::Str(s@),
            Value::Int(n) => Item::Int(*n as int),
            Value::Bool(b) => Item::Bool(*b),
            Value::List(l) => Item::List(views(l@)),
        }
    }
}

impl Value {
    /// A copy of the value.
    pub fn copy(&self) -> (r: Value)
        ensures
            r@ == self@,
    {
        match self {
            Value::Str(s) => Value::Str(s.clone()),
            Value::Int(n) => Value::Int(*n),
            Value::Bool(b) => Value::Bool(*b),
            Value::List(l) => Value::List(copy_list(l)),
        }
    }
}

/// The map that holds what `ms` lists, a later member in place of an earlier
/// one with the same name.
pub open spec fn map_of(ms: Seq<(Seq<char>, Item)>) -> Map<Seq<char>, Item>
    decreases ms.len(),
{
    if ms.len() == 0 {
        Map::empty()
    } else {
        map_of(ms.drop_last()).insert(ms.last().0, ms.last().1)
    }
}

/// The names of `ms` ascend in the order of code points; none stands twice.
pub open spec fn ascending(ms: Seq<(Seq<char>, Item)>) -> bool {
    forall|i: int, j: int| 0 <= i < j < ms.len() ==> less(#[trigger] ms[i].0, #[trigger] ms[j].0)
}

/// A flat object: names, each with a value.
#[derive(Debug, PartialEq)]
pub struct Object {
    entries: Vec<(String, Value)>,
}

impl View for Object {
    type V = Map<Seq<char>, Item>;

    open spec fn view(&self) -> Map<Seq<char>, Item> {
        map_of(self.members())
    }
}

/// What a list of entries stands for.
pub open spec fn members_of(entries: Seq<(String, Value)>) -> Seq<(Seq<char>, Item)> {
    entries.map_values(|e: (String, Value)| (e.0@, e.1@))
}

proof fn map_of_distinct(ms: Seq<(Seq<char>, Item)>)
    requires
        ascending(ms),
    ensures
        forall|i: int|
            0 <= i < ms.len() ==> map_of(ms).dom().contains(#[trigger] ms[i].0)
                && map_of(ms)[ms[i].0] == ms[i].1,
        forall|k: Seq<char>| #[trigger]
            map_of(ms).dom().contains(k) ==> exists|i: int| 0 <= i < ms.len() && ms[i].0 == k,
    decreases ms.len(),
{
    if ms.len() > 0 {
        let front = ms.drop_last();
        map_of_distinct(front);
        assert forall|i: int| 0 <= i < ms.len() implies map_of(ms).dom().contains(
            #[trigger] ms[i].0,
        ) && map_of(ms)[ms[i].0] == ms[i].1 by {
            if i < ms.len() - 1 {
                assert(front[i] == ms[i]);
                assert(less(ms[i].0, ms[ms.len() - 1].0));
                crate::text::less_is_total(ms[i].0, ms.last().0);
            }
        }
        assert forall|k: Seq<char>| #[trigger] map_of(ms).dom().contains(k) implies exists|i: int|
            0 <= i < ms.len() && ms[i].0 == k by {
            if k != ms.last().0 {
                assert(map_of(front).dom().contains(k));
                let i = choose|i: int| 0 <= i < front.len() && front[i].0 == k;
                assert(ms[i] == front[i]);
            } else {
                assert(ms[ms.len() - 1].0 == k);
            }
        }
    }
}

impl Object {
    /// The members, in the order of their names.
    pub closed spec fn members(&self) -> Seq<(Seq<char>, Item)> {
        members_of(self.entries@)
    }

    /// The members stand in the order of their names.
    pub open spec fn wf(&self) -> bool {
        ascending(self.members())
    }

    /// An object without members.
    pub fn new() -> (o: Object)
        ensures
            o.wf(),
            o@ == Map::<Seq<char>, Item>::empty(),
            o.members() == Seq::<(Seq<char>, Item)>::empty(),
    {
        let o = Object { entries: Vec::new() };
        assert(o.members() =~= seq![]);
        o
    }

    /// How many members there are.
    pub fn len(&self) -> (n: usize)
        ensures
            n == self.members().len(),
    {
        self.entries.len()
    }

    /// The first place whose name is not before `key`.
    fn place(&self, key: &str) -> (at: usize)
        requires
            self.wf(),
        ensures
            at <= self.entries@.len(),
            forall|i: int| 0 <= i < at ==> less(#[trigger] self.members()[i].0, key@),
            at < self.entries@.len() ==> !less(self.members()[at as int].0, key@),
    {
        let mut at: usize = 0;
        while at < self.entries.len()
            invariant_except_break
                forall|i: int| 0 <= i < at ==> less(#[trigger] self.members()[i].0, key@),
            invariant
                at <= self.entries@.len(),
            ensures
                forall|i: int| 0 <= i < at ==> less(#[trigger] self.members()[i].0, key@),
                at < self.entries@.len() ==> !less(self.members()[at as int].0, key@),
            decreases self.entries@.len() - at,
        {
            assert(self.members()[at as int].0 == self.entries@[at as int].0@);
            if !is_less(self.entries[at].0.as_str(), key) {
                break;
            }
            at = at + 1;
        }
        at
    }

    /// The value that goes by the name `key`.
    pub fn get(&self, key: &str) -> (r: Option<&Value>)
        requires
            self.wf(),
        ensures
            match r {
                Some(v) => self@.dom().contains(key@) && v@ == self@[key@],
                None => !self@.dom().contains(key@),
            },
    {
        let at: usize = self.place(key);
        let ghost ms = self.members();
        proof {
            map_of_distinct(ms);
        }
        if at < self.entries.len() && same(self.entries[at].0.as_str(), key) {
            assert(ms[at as int] == (self.entries@[at as int].0@, self.entries@[at as int].1@));
            assert(ms[at as int].0 == key@);
            Some(&self.entries[at].1)
        } else {
            proof {
                if self@.dom().contains(key@) {
                    let i = choose|i: int| 0 <= i < ms.len() && ms[i].0 == key@;
                    crate::text::less_is_total(key@, key@);
                    if i > at {
                        assert(less(ms[at as int].0, ms[i].0));
                    } else if i < at {
                        assert(less(ms[i].0, key@));
                    } else {
                        assert(ms[i].0 == self.entries@[i].0@);
                    }
                    assert(false);
                }
            }
            None
        }
    }

    /// There is a value by the name `key`.
    pub fn contains_key(&self, key: &str) -> (r: bool)
        requires
            self.wf(),
        ensures
            r == self@.dom().contains(key@),
    {
        self.get(key).is_some()
    }

    /// Puts `value` under the name `key`, in place of what stood there.
    pub fn insert(&mut self, key: String, value: Value)
        requires
            old(self).wf(),
        ensures
            final(self).wf(),
            final(self)@ == old(self)@.insert(key@, value@),
    {
        let at: usize = self.place(key.as_str());
        let ghost ms = self.members();
        let ghost k = key@;
        let ghost v = value@;
        if at < self.entries.len() && same(self.entries[at].0.as_str(), key.as_str()) {
            assert(ms[at as int].0 == k);
            self.entries.set(at, (key, value));
            assert(self.members() =~= ms.update(at as int, (k, v)));
            proof {
                replaced(ms, at as int, k, v);
            }
        } else {
            assert(at < ms.len() ==> ms[at as int].0 == self.entries@[at as int].0@);
            self.entries.insert(at, (key, value));
            assert(self.members() =~= ms.insert(at as int, (k, v)));
            proof {
                put_between(ms, at as int, k, v);
            }
        }
    }
}

proof fn replaced(ms: Seq<(Seq<char>, Item)>, at: int, k: Seq<char>, v: Item)
    requires
        ascending(ms),
        0 <= at < ms.len(),
        ms[at].0 == k,
    ensures
        ascending(ms.update(at, (k, v))),
        map_of(ms.update(at, (k, v))) == map_of(ms).insert(k, v),
{
    let now = ms.update(at, (k, v));
    assert forall|i: int, j: int| 0 <= i < j < now.len() implies less(
        #[trigger] now[i].0,
        #[trigger] now[j].0,
    ) by {
        assert(now[i].0 == ms[i].0 && now[j].0 == ms[j].0);
    }
    map_of_distinct(ms);
    map_of_distinct(now);
    assert forall|x: Seq<char>| #[trigger]
        map_of(now).dom().contains(x) == map_of(ms).insert(k, v).dom().contains(x) by {
        if map_of(now).dom().contains(x) {
            let i = choose|i: int| 0 <= i < now.len() && now[i].0 == x;
            assert(ms[i].0 == x);
        }
        if map_of(ms).dom().contains(x) {
            let i = choose|i: int| 0 <= i < ms.len() && ms[i].0 == x;
            assert(now[i].0 == x);
        }
        assert(now[at].0 == k);
    }
    assert forall|x: Seq<char>| #[trigger] map_of(now).dom().contains(x) implies map_of(now)[x]
        == map_of(ms).insert(k, v)[x] by {
        let i = choose|i: int| 0 <= i < now.len() && now[i].0 == x;
        assert(now[i].0 == x);
        assert(ms[i].0 == x);
        if i != at {
            distinct_names(ms, i, at);
        }
    }
    assert(map_of(now) =~= map_of(ms).insert(k, v));
}

proof fn distinct_names(ms: Seq<(Seq<char>, Item)>, i: int, j: int)
    requires
        ascending(ms),
        0 <= i < ms.len(),
        0 <= j < ms.len(),
        i != j,
    ensures
        ms[i].0 != ms[j].0,
{
    crate::text::less_is_total(ms[i].0, ms[j].0);
    if i < j {
        assert(less(ms[i].0, ms[j].0));
    } else {
        assert(less(ms[j].0, ms[i].0));
    }
}

proof fn put_between(ms: Seq<(Seq<char>, Item)>, at: int, k: Seq<char>, v: Item)
    requires
        ascending(ms),
        0 <= at <= ms.len(),
        forall|i: int| 0 <= i < at ==> less(#[trigger] ms[i].0, k),
        at < ms.len() ==> !less(ms[at].0, k) && ms[at].0 != k,
    ensures
        ascending(ms.insert(at, (k, v))),
        map_of(ms.insert(at, (k, v))) == map_of(ms).insert(k, v),
{
    let now = ms.insert(at, (k, v));
    if at < ms.len() {
        crate::text::less_is_total(k, ms[at].0);
    }
    assert forall|i: int, j: int| 0 <= i < j < now.len() implies less(
        #[trigger] now[i].0,
        #[trigger] now[j].0,
    ) by {
        let i0 = if i > at {
            i - 1
        } else {
            i
        };
        let j0 = if j > at {
            j - 1
        } else {
            j
        };
        if i == at {
            if at < j0 {
                assert(less(ms[at].0, ms[j0].0));
                crate::text::less_is_transitive(k, ms[at].0, ms[j0].0);
            }
        } else if j == at {
            assert(less(ms[i0].0, k));
        } else {
            assert(less(ms[i0].0, ms[j0].0));
        }
    }
    map_of_distinct(ms);
    map_of_distinct(now);
    assert forall|x: Seq<char>| #[trigger]
        map_of(now).dom().contains(x) == map_of(ms).insert(k, v).dom().contains(x) by {
        if map_of(now).dom().contains(x) {
            let i = choose|i: int| 0 <= i < now.len() && now[i].0 == x;
            if i < at {
                assert(ms[i].0 == x);
            } else if i > at {
                assert(ms[i - 1].0 == x);
            }
        }
        if map_of(ms).dom().contains(x) {
            let i = choose|i: int| 0 <= i < ms.len() && ms[i].0 == x;
            if i < at {
                assert(now[i].0 == x);
            } else {
                assert(now[i + 1].0 == x);
            }
        }
        assert(now[at].0 == k);
    }
    assert forall|x: Seq<char>| #[trigger] map_of(now).dom().contains(x) implies map_of(now)[x]
        == map_of(ms).insert(k, v)[x] by {
        let i = choose|i: int| 0 <= i < now.len() && now[i].0 == x;
        assert(now[i].0 == x);
        if i != at {
            distinct_names(now, i, at);
            assert(now[at].0 == k);
            if i < at {
                assert(ms[i].0 == x);
            } else {
                assert(ms[i - 1].0 == x);
            }
        } else {
            assert(now[at] == (k, v));
        }
    }
    assert(map_of(now) =~= map_of(ms).insert(k, v));
}

/// How one character of a string is written.
pub open spec fn escape(c: char) -> Seq<char> {
    if c == '"' {
        seq!['\\', '"']
    } else if c == '\\' {
        seq!['\\', '\\']
    } else if c == '\n' {
        seq!['\\', 'n']
    } else if c == '\r' {
        seq!['\\', 'r']
    } else if c == '\t' {
        seq!['\\', 't']
    } else if (c as int) < 0x20 {
        seq!['\\', 'u'] + hex(c as nat, 4)
    } else {
        seq![c]
    }
}

/// How the characters of a string are written.
pub open spec fn escaped(s: Seq<char>) -> Seq<char>
    decreases s.len(),
{
    if s.len() == 0 {
        seq![]
    } else {
        escape(s[0]) + escaped(s.skip(1))
    }
}

/// How a string is written.
pub open spec fn quoted(s: Seq<char>) -> Seq<char> {
    seq!['"'] + escaped(s) + seq!['"']
}

/// How the strings of a list are written.
pub open spec fn quoted_all(l: Seq<Seq<char>>) -> Seq<Seq<char>> {
    l.map_values(|s: Seq<char>| quoted(s))
}

/// How a value is written.
pub open spec fn item_text(v: Item) -> Seq<char> {
    match v {
        Item::Str(s) => quoted(s),
        Item::Int(n) => dec(n),
        Item::Bool(b) => if b {
            "true"@
        } else {
            "false"@
        },
        Item::List(l) => seq!['['] + joined(quoted_all(l), seq![',']) + seq![']'],
    }
}

/// How a member is written.
pub open spec fn member_text(m: (Seq<char>, Item)) -> Seq<char> {
    quoted(m.0) + seq![':'] + item_text(m.1)
}

/// How members are written, each by itself.
pub open spec fn member_texts(ms: Seq<(Seq<char>, Item)>) -> Seq<Seq<char>> {
    ms.map_values(|m: (Seq<char>, Item)| member_text(m))
}

/// How an object is written.
pub open spec fn object_text(ms: Seq<(Seq<char>, Item)>) -> Seq<char> {
    seq!['{'] + joined(member_texts(ms), seq![',']) + seq!['}']
}

/// `s` behind the blanks, tabs and line ends that it begins with.
pub open spec fn skip_ws(s: Seq<char>) -> Seq<char>
    decreases s.len(),
{
    if s.len() > 0 && (s[0] == ' ' || s[0] == '\t' || s[0] == '\r' || s[0] == '\n') {
        skip_ws(s.skip(1))
    } else {
        s
    }
}

/// `s` is nothing but blanks, tabs and line ends.
pub open spec fn is_blank(s: Seq<char>) -> bool {
    skip_ws(s).len() == 0
}

/// What a backslash and `c` stand for.
pub open spec fn escape_of(c: char) -> Option<char> {
    if c == '"' || c == '\\' {
        Some(c)
    } else if c == 'n' {
        Some('\n')
    } else if c == 'r' {
        Some('\r')
    } else if c == 't' {
        Some('\t')
    } else {
        None
    }
}

/// The character whose code point the first four characters of `s` give.
pub open spec fn hex_char(s: Seq<char>) -> Option<char> {
    if s.len() < 4 {
        None
    } else {
        match (hex_digit(s[0]), hex_digit(s[1]), hex_digit(s[2]), hex_digit(s[3])) {
            (Some(a), Some(b), Some(c), Some(d)) => {
                let n = ((a * 16 + b) * 16 + c) * 16 + d;
                if 0xd800 <= n <= 0xdfff {
                    None
                } else {
                    Some(n as char)
                }
            },
            _ => None,
        }
    }
}

/// A string that was read behind `front`, and what follows it.
pub open spec fn behind(front: Seq<char>, r: Option<(Seq<char>, Seq<char>)>) -> Option<
    (Seq<char>, Seq<char>),
> {
    match r {
        Some((t, rest)) => Some((front + t, rest)),
        None => None,
    }
}

/// Reads the characters of a string up to the quotation mark that ends it: the
/// string, and what follows the mark.
pub open spec fn string_body(s: Seq<char>) -> Option<(Seq<char>, Seq<char>)>
    decreases s.len(),
{
    if s.len() == 0 {
        None
    } else if s[0] == '"' {
        Some((seq![], s.skip(1)))
    } else if s[0] == '\\' {
        if s.len() == 1 {
            None
        } else if s[1] == 'u' {
            match hex_char(s.skip(2)) {
                Some(c) => behind(seq![c], string_body(s.skip(6))),
                None => None,
            }
        } else {
            match escape_of(s[1]) {
                Some(c) => behind(seq![c], string_body(s.skip(2))),
                None => None,
            }
        }
    } else {
        behind(seq![s[0]], string_body(s.skip(1)))
    }
}

/// Reads a string.
pub open spec fn string(s: Seq<char>) -> Option<(Seq<char>, Seq<char>)> {
    if s.len() > 0 && s[0] == '"' {
        string_body(s.skip(1))
    } else {
        None
    }
}

/// What follows a string is shorter than the text that it was read from.
pub proof fn string_body_shortens(s: Seq<char>)
    ensures
        string_body(s) matches Some((t, rest)) ==> rest.len() < s.len(),
    decreases s.len(),
{
    if s.len() > 0 && s[0] != '"' {
        if s[0] == '\\' {
            if s.len() > 1 {
                if s[1] == 'u' {
                    if s.len() >= 6 {
                        string_body_shortens(s.skip(6));
                    }
                } else {
                    string_body_shortens(s.skip(2));
                }
            }
        } else {
            string_body_shortens(s.skip(1));
        }
    }
}

/// Blanks are only left out.
pub proof fn skip_ws_shortens(s: Seq<char>)
    ensures
        skip_ws(s).len() <= s.len(),
    decreases s.len(),
{
    if s.len() > 0 {
        skip_ws_shortens(s.skip(1));
    }
}

/// Reads strings with commas between them, up to a closing bracket, behind the
/// strings `front`.
pub open spec fn strings(s: Seq<char>, front: Seq<Seq<char>>) -> Option<
    (Seq<Seq<char>>, Seq<char>),
>
    decreases s.len(),
{
    match string(skip_ws(s)) {
        Some((t, rest)) => {
            let next = skip_ws(rest);
            proof {
                skip_ws_shortens(s);
                string_body_shortens(skip_ws(s).skip(1));
                skip_ws_shortens(rest);
            }
            if next.len() == 0 {
                None
            } else if next[0] == ',' {
                strings(next.skip(1), front.push(t))
            } else if next[0] == ']' {
                Some((front.push(t), next.skip(1)))
            } else {
                None
            }
        },
        None => None,
    }
}

/// How many characters of `s` may belong to a number.
pub open spec fn number_len(s: Seq<char>) -> int {
    if s.len() > 0 && s[0] == '-' {
        1 + digit_run(s.skip(1))
    } else {
        digit_run(s)
    }
}

/// Reads a value: the value, and what follows it.
pub open spec fn item(s: Seq<char>) -> Option<(Item, Seq<char>)> {
    if s.len() == 0 {
        None
    } else if s[0] == '"' {
        match string(s) {
            Some((t, rest)) => Some((Item::Str(t), rest)),
            None => None,
        }
    } else if s[0] == 't' {
        if starts_with(s, "true"@) {
            Some((Item::Bool(true), s.skip(4)))
        } else {
            None
        }
    } else if s[0] == 'f' {
        if starts_with(s, "false"@) {
            Some((Item::Bool(false), s.skip(5)))
        } else {
            None
        }
    } else if s[0] == '[' {
        let inner = skip_ws(s.skip(1));
        if inner.len() > 0 && inner[0] == ']' {
            Some((Item::List(seq![]), inner.skip(1)))
        } else {
            match strings(inner, seq![]) {
                Some((l, rest)) => Some((Item::List(l), rest)),
                None => None,
            }
        }
    } else if s[0] == '-' || is_digit(s[0]) {
        match signed(s.take(number_len(s))) {
            Some(n) => Some((Item::Int(n), s.skip(number_len(s)))),
            None => None,
        }
    } else {
        None
    }
}

/// What follows a list is shorter than the text that it was read from.
pub proof fn strings_shorten(s: Seq<char>, front: Seq<Seq<char>>)
    ensures
        strings(s, front) matches Some((l, rest)) ==> rest.len() < s.len(),
    decreases s.len(),
{
    if let Some((t, rest)) = string(skip_ws(s)) {
        let next = skip_ws(rest);
        skip_ws_shortens(s);
        string_body_shortens(skip_ws(s).skip(1));
        skip_ws_shortens(rest);
        if next.len() > 0 {
            strings_shorten(next.skip(1), front.push(t));
        }
    }
}

/// What follows a value is shorter than the text that it was read from.
pub proof fn item_shortens(s: Seq<char>)
    ensures
        item(s) matches Some((v, rest)) ==> rest.len() < s.len(),
{
    reveal_strlit("true");
    reveal_strlit("false");
    if s.len() > 0 {
        string_body_shortens(s.skip(1));
        skip_ws_shortens(s.skip(1));
        strings_shorten(skip_ws(s.skip(1)), seq![]);
        crate::number::digit_run_bounds(s);
        crate::number::digit_run_bounds(s.skip(1));
    }
}

/// Reads members with commas between them, up to a closing brace, into the map
/// `m`. Nothing but blanks may follow the brace.
pub open spec fn members(s: Seq<char>, m: Map<Seq<char>, Item>) -> Option<Map<Seq<char>, Item>>
    decreases s.len(),
{
    match string(skip_ws(s)) {
        Some((name, after)) => {
            let colon = skip_ws(after);
            if colon.len() > 0 && colon[0] == ':' {
                match item(skip_ws(colon.skip(1))) {
                    Some((v, rest)) => {
                        let next = skip_ws(rest);
                        proof {
                            skip_ws_shortens(s);
                            string_body_shortens(skip_ws(s).skip(1));
                            skip_ws_shortens(after);
                            skip_ws_shortens(colon.skip(1));
                            item_shortens(skip_ws(colon.skip(1)));
                            skip_ws_shortens(rest);
                        }
                        if next.len() == 0 {
                            None
                        } else if next[0] == ',' {
                            members(next.skip(1), m.insert(name, v))
                        } else if next[0] == '}' && is_blank(next.skip(1)) {
                            Some(m.insert(name, v))
                        } else {
                            None
                        }
                    },
                    None => None,
                }
            } else {
                None
            }
        },
        None => None,
    }
}

/// The object that `s` holds, with nothing but blanks around it.
pub open spec fn object(s: Seq<char>) -> Option<Map<Seq<char>, Item>> {
    let open = skip_ws(s);
    if open.len() > 0 && open[0] == '{' {
        let inner = skip_ws(open.skip(1));
        if inner.len() > 0 && inner[0] == '}' {
            if is_blank(inner.skip(1)) {
                Some(Map::empty())
            } else {
                None
            }
        } else {
            members(inner, Map::empty())
        }
    } else {
        None
    }
}

fn quote(s: &str) -> (r: String)
    ensures
        r@ == quoted(s@),
{
    let v = to_chars(s);
    let mut out = String::new();
    out.push('"');
    let mut i: usize = 0;
    assert(v@.skip(0) =~= v@);
    assert(out@ + escaped(v@) =~= seq!['"'] + escaped(s@));
    while i < v.len()
        invariant
            i <= v.len(),
            v@ == s@,
            out@ + escaped(v@.skip(i as int)) == seq!['"'] + escaped(s@),
        decreases v.len() - i,
    {
        let c = v[i];
        let ghost was = out@;
        if c == '"' {
            out.push('\\');
            out.push('"');
        } else if c == '\\' {
            out.push('\\');
            out.push('\\');
        } else if c == '\n' {
            out.push('\\');
            out.push('n');
        } else if c == '\r' {
            out.push('\\');
            out.push('r');
        } else if c == '\t' {
            out.push('\\');
            out.push('t');
        } else if code(c) < 0x20 {
            out.push('\\');
            out.push('u');
            out.append(hexadecimal(code(c), 4).as_str());
        } else {
            out.push(c);
        }
        assert(out@ =~= was + escape(c));
        assert(v@.skip(i as int).skip(1) =~= v@.skip(i + 1));
        assert(out@ + escaped(v@.skip(i + 1)) =~= was + escaped(v@.skip(i as int)));
        i = i + 1;
    }
    assert(out@ =~= seq!['"'] + escaped(s@));
    out.push('"');
    assert(out@ =~= quoted(s@));
    out
}

fn quote_all(items: &Vec<String>) -> (r: Vec<String>)
    ensures
        views(r@) == quoted_all(views(items@)),
{
    let mut r: Vec<String> = Vec::new();
    let mut i: usize = 0;
    while i < items.len()
        invariant
            i <= items.len(),
            views(r@) == quoted_all(views(items@)).take(i as int),
        decreases items.len() - i,
    {
        push_text(&mut r, quote(items[i].as_str()).as_str());
        assert(views(items@)[i as int] == items@[i as int]@);
        assert(quoted_all(views(items@)).take(i + 1) =~= quoted_all(views(items@)).take(
            i as int,
        ).push(quoted(items@[i as int]@)));
        i = i + 1;
    }
    assert(quoted_all(views(items@)).take(items@.len() as int) =~= quoted_all(views(items@)));
    r
}

fn value_text(v: &Value) -> (r: String)
    ensures
        r@ == item_text(v@),
{
    match v {
        Value::Str(s) => quote(s.as_str()),
        Value::Int(n) => decimal_signed(*n),
        Value::Bool(b) => if *b {
            "true".to_owned()
        } else {
            "false".to_owned()
        },
        Value::List(items) => {
            let parts = quote_all(items);
            let mut out = String::new();
            out.push('[');
            proof {
                reveal_strlit(",");
                assert(","@ =~= seq![',']);
            }
            out.append(join_texts(&parts, ",").as_str());
            out.push(']');
            assert(out@ =~= item_text(v@));
            out
        },
    }
}

/// Writes an object as one line, without a line end.
pub fn encode(obj: &Object) -> (r: String)
    ensures
        r@ == object_text(obj.members()),
{
    let ghost texts = member_texts(obj.members());
    let mut parts: Vec<String> = Vec::new();
    let mut i: usize = 0;
    while i < obj.entries.len()
        invariant
            i <= obj.entries.len(),
            texts == member_texts(obj.members()),
            views(parts@) == texts.take(i as int),
        decreases obj.entries.len() - i,
    {
        let mut part = quote(obj.entries[i].0.as_str());
        part.push(':');
        part.append(value_text(&obj.entries[i].1).as_str());
        let ghost e = obj.entries@[i as int];
        assert(obj.members()[i as int] == (e.0@, e.1@));
        assert(part@ =~= member_text((e.0@, e.1@)));
        push_text(&mut parts, part.as_str());
        assert(texts.take(i + 1) =~= texts.take(i as int).push(member_text((e.0@, e.1@))));
        i = i + 1;
    }
    assert(texts.take(texts.len() as int) =~= texts);
    proof {
        reveal_strlit(",");
        assert(","@ =~= seq![',']);
    }
    let mut out = String::new();
    out.push('{');
    out.append(join_texts(&parts, ",").as_str());
    out.push('}');
    assert(out@ =~= object_text(obj.members()));
    out
}

struct Parser {
    chars: Vec<char>,
    pos: usize,
}

impl Parser {
    spec fn wf(&self) -> bool {
        self.pos <= self.chars.len()
    }

    spec fn rest(&self) -> Seq<char> {
        self.chars@.skip(self.pos as int)
    }

    fn peek(&self) -> (r: Option<char>)
        requires
            self.wf(),
        ensures
            match r {
                Some(c) => self.rest().len() > 0 && c == self.rest()[0],
                None => self.rest().len() == 0,
            },
    {
        if self.pos < self.chars.len() {
            Some(self.chars[self.pos])
        } else {
            None
        }
    }

    fn next(&mut self) -> (r: Option<char>)
        requires
            old(self).wf(),
        ensures
            final(self).wf(),
            match r {
                Some(c) => {
                    &&& old(self).rest().len() > 0
                    &&& c == old(self).rest()[0]
                    &&& final(self).rest() == old(self).rest().skip(1)
                },
                None => old(self).rest().len() == 0,
            },
    {
        if self.pos < self.chars.len() {
            let c = self.chars[self.pos];
            self.pos = self.pos + 1;
            assert(self.rest() =~= old(self).rest().skip(1));
            Some(c)
        } else {
            None
        }
    }

    fn skip_ws(&mut self)
        requires
            old(self).wf(),
        ensures
            final(self).wf(),
            final(self).rest() == skip_ws(old(self).rest()),
    {
        while self.pos < self.chars.len() && (self.chars[self.pos] == ' ' || self.chars[self.pos]
            == '\t' || self.chars[self.pos] == '\r' || self.chars[self.pos] == '\n')
            invariant
                self.wf(),
                skip_ws(self.rest()) == skip_ws(old(self).rest()),
            decreases self.chars.len() - self.pos,
        {
            assert(self.rest().skip(1) =~= self.chars@.skip(self.pos + 1));
            self.pos = self.pos + 1;
        }
    }

    /// Nothing but blanks is left.
    fn is_at_end(&mut self) -> (r: bool)
        requires
            old(self).wf(),
        ensures
            r == is_blank(old(self).rest()),
    {
        self.skip_ws();
        self.pos == self.chars.len()
    }

    fn code_point(&mut self) -> (r: Option<char>)
        requires
            old(self).wf(),
        ensures
            final(self).wf(),
            match r {
                Some(c) => hex_char(old(self).rest()) == Some(c) && final(self).rest() == old(
                    self,
                ).rest().skip(4),
                None => hex_char(old(self).rest()) is None,
            },
    {
        if self.chars.len() - self.pos < 4 {
            return None;
        }
        let at = self.pos;
        let ghost s = self.rest();
        let a = hex_value(self.chars[at]);
        let b = hex_value(self.chars[at + 1]);
        let c = hex_value(self.chars[at + 2]);
        let d = hex_value(self.chars[at + 3]);
        assert(s[0] == self.chars@[at as int]);
        assert(s[1] == self.chars@[at + 1]);
        assert(s[2] == self.chars@[at + 2]);
        assert(s[3] == self.chars@[at + 3]);
        self.pos = at + 4;
        assert(self.rest() =~= s.skip(4));
        match (a, b, c, d) {
            (Some(a), Some(b), Some(c), Some(d)) => {
                let n: u32 = ((a * 16 + b) * 16 + c) * 16 + d;
                char::from_u32(n)
            },
            _ => None,
        }
    }

    fn string(&mut self) -> (r: Option<String>)
        requires
            old(self).wf(),
        ensures
            final(self).wf(),
            match r {
                Some(t) => string(old(self).rest()) == Some((t@, final(self).rest())),
                None => string(old(self).rest()) is None,
            },
    {
        match self.next() {
            Some('"') => {},
            _ => {
                return None;
            },
        }
        let ghost body = self.rest();
        let mut out = String::new();
        assert(forall|t: Seq<char>| #[trigger] (seq![] + t) =~= t);
        loop
            invariant
                self.wf(),
                string(old(self).rest()) == string_body(body),
                string_body(body) == behind(out@, string_body(self.rest())),
            decreases self.rest().len(),
        {
            let ghost s = self.rest();
            let ghost was = out@;
            let c = match self.next() {
                Some(c) => c,
                None => {
                    return None;
                },
            };
            if c == '"' {
                assert(was + Seq::<char>::empty() =~= was);
                return Some(out);
            }
            if c == '\\' {
                let e = match self.next() {
                    Some(e) => e,
                    None => {
                        return None;
                    },
                };
                assert(s.skip(1).skip(1) =~= s.skip(2));
                if e == 'u' {
                    match self.code_point() {
                        Some(x) => {
                            assert(s.skip(2).skip(4) =~= s.skip(6));
                            out.push(x);
                        },
                        None => {
                            return None;
                        },
                    }
                } else if e == '"' || e == '\\' {
                    out.push(e);
                } else if e == 'n' {
                    out.push('\n');
                } else if e == 'r' {
                    out.push('\r');
                } else if e == 't' {
                    out.push('\t');
                } else {
                    return None;
                }
            } else {
                out.push(c);
            }
            proof {
                let x = out@.last();
                assert(string_body(s) == behind(seq![x], string_body(self.rest())));
                if let Some((t, rest)) = string_body(self.rest()) {
                    assert(was + (seq![x] + t) =~= out@ + t);
                }
            }
        }
    }

    fn literal(&mut self, lit: &str) -> (r: bool)
        requires
            old(self).wf(),
        ensures
            final(self).wf(),
            r == starts_with(old(self).rest(), lit@),
            r ==> final(self).rest() == old(self).rest().skip(lit@.len() as int),
    {
        let w = to_chars(lit);
        let ghost s = self.rest();
        let mut i: usize = 0;
        assert(s.skip(0) =~= s);
        while i < w.len()
            invariant
                self.wf(),
                s == old(self).rest(),
                i <= w.len(),
                w@ == lit@,
                i <= s.len(),
                self.rest() == s.skip(i as int),
                forall|k: int| 0 <= k < i ==> s[k] == w@[k],
            decreases w.len() - i,
        {
            match self.next() {
                Some(c) => {
                    if c != w[i] {
                        assert(s.take(w@.len() as int)[i as int] != w@[i as int]
                            || s.len() < w@.len());
                        return false;
                    }
                },
                None => {
                    return false;
                },
            }
            assert(s.skip(i as int).skip(1) =~= s.skip(i + 1));
            i = i + 1;
        }
        assert(s.take(w@.len() as int) =~= w@);
        true
    }

    fn list(&mut self) -> (r: Option<Vec<String>>)
        requires
            old(self).wf(),
        ensures
            final(self).wf(),
            match r {
                Some(l) => strings(old(self).rest(), seq![]) == Some((views(l@), final(self).rest())),
                None => strings(old(self).rest(), seq![]) is None,
            },
    {
        let mut items: Vec<String> = Vec::new();
        assert(views(items@) =~= seq![]);
        loop
            invariant
                self.wf(),
                strings(old(self).rest(), seq![]) == strings(self.rest(), views(items@)),
            decreases self.rest().len(),
        {
            let ghost s = self.rest();
            self.skip_ws();
            let t = match self.string() {
                Some(t) => t,
                None => {
                    return None;
                },
            };
            proof {
                skip_ws_shortens(s);
                string_body_shortens(skip_ws(s).skip(1));
                skip_ws_shortens(self.rest());
            }
            self.skip_ws();
            push_text(&mut items, t.as_str());
            match self.next() {
                Some(',') => {},
                Some(']') => {
                    return Some(items);
                },
                _ => {
                    return None;
                },
            }
        }
    }

    fn value(&mut self) -> (r: Option<Value>)
        requires
            old(self).wf(),
        ensures
            final(self).wf(),
            match r {
                Some(v) => item(old(self).rest()) == Some((v@, final(self).rest())),
                None => item(old(self).rest()) is None,
            },
    {
        let ghost s = self.rest();
        proof {
            reveal_strlit("true");
            reveal_strlit("false");
        }
        let c = match self.peek() {
            Some(c) => c,
            None => {
                return None;
            },
        };
        if c == '"' {
            match self.string() {
                Some(t) => Some(Value::Str(t)),
                None => None,
            }
        } else if c == 't' {
            if self.literal("true") {
                Some(Value::Bool(true))
            } else {
                None
            }
        } else if c == 'f' {
            if self.literal("false") {
                Some(Value::Bool(false))
            } else {
                None
            }
        } else if c == '[' {
            self.pos = self.pos + 1;
            assert(self.rest() =~= s.skip(1));
            self.skip_ws();
            let ghost inner = self.rest();
            if self.peek() == Some(']') {
                self.pos = self.pos + 1;
                assert(self.rest() =~= inner.skip(1));
                let items: Vec<String> = Vec::new();
                assert(views(items@) =~= seq![]);
                return Some(Value::List(items));
            }
            match self.list() {
                Some(items) => Some(Value::List(items)),
                None => None,
            }
        } else if c == '-' || is_decimal(c) {
            let start: usize = self.pos;
            if c == '-' {
                self.pos = self.pos + 1;
                assert(self.rest() =~= s.skip(1));
            }
            let ghost run = self.rest();
            while self.pos < self.chars.len() && is_decimal(self.chars[self.pos])
                invariant
                    self.wf(),
                    self.chars == old(self).chars,
                    start <= self.pos,
                    start == old(self).pos,
                    s == old(self).rest(),
                    number_len(s) == self.pos - start + digit_run(self.rest()),
                decreases self.chars.len() - self.pos,
            {
                assert(self.rest().skip(1) =~= self.chars@.skip(self.pos + 1));
                self.pos = self.pos + 1;
            }
            assert(s.take(number_len(s)) =~= self.chars@.subrange(start as int, self.pos as int));
            assert(s.skip(number_len(s)) =~= self.rest());
            match signed_at(&self.chars, start, self.pos) {
                Some(n) => Some(Value::Int(n)),
                None => None,
            }
        } else {
            None
        }
    }
}

/// Reads one object. `None` for what the dialect does not hold.
pub fn decode(line: &str) -> (r: Option<Object>)
    ensures
        match r {
            Some(o) => o.wf() && object(line@) == Some(o@),
            None => object(line@) is None,
        },
{
    let mut p = Parser { chars: to_chars(line), pos: 0 };
    assert(p.rest() =~= line@);
    p.skip_ws();
    match p.next() {
        Some('{') => {},
        _ => {
            return None;
        },
    }
    let mut obj = Object::new();
    p.skip_ws();
    if p.peek() == Some('}') {
        let _ = p.next();
        return if p.is_at_end() {
            Some(obj)
        } else {
            None
        };
    }
    loop
        invariant
            p.wf(),
            obj.wf(),
            object(line@) == members(p.rest(), obj@),
        decreases p.rest().len(),
    {
        let ghost s = p.rest();
        p.skip_ws();
        let key = match p.string() {
            Some(key) => key,
            None => {
                return None;
            },
        };
        let ghost after = p.rest();
        p.skip_ws();
        let ghost colon = p.rest();
        match p.next() {
            Some(':') => {},
            _ => {
                return None;
            },
        }
        p.skip_ws();
        let value = match p.value() {
            Some(value) => value,
            None => {
                return None;
            },
        };
        proof {
            skip_ws_shortens(s);
            string_body_shortens(skip_ws(s).skip(1));
            skip_ws_shortens(after);
            skip_ws_shortens(colon.skip(1));
            item_shortens(skip_ws(colon.skip(1)));
            skip_ws_shortens(p.rest());
        }
        obj.insert(key, value);
        p.skip_ws();
        match p.next() {
            Some(',') => {},
            Some('}') => {
                return if p.is_at_end() {
                    Some(obj)
                } else {
                    None
                };
            },
            _ => {
                return None;
            },
        }
    }
}

/// `v` can be held by a `Value`: an integer fits in 64 bits.
pub open spec fn fits(v: Item) -> bool {
    v matches Item::Int(n) ==> i64::MIN <= n <= i64::MAX
}

/// `s` does not begin with a digit.
pub open spec fn no_digit_first(s: Seq<char>) -> bool {
    s.len() == 0 || !is_digit(s[0])
}

/// `m` with the members `ms` put in, one after the other.
pub open spec fn inserted(m: Map<Seq<char>, Item>, ms: Seq<(Seq<char>, Item)>) -> Map<
    Seq<char>,
    Item,
>
    decreases ms.len(),
{
    if ms.len() == 0 {
        m
    } else {
        inserted(m.insert(ms[0].0, ms[0].1), ms.skip(1))
    }
}

proof fn escape_reads_back(c: char, s: Seq<char>)
    ensures
        string_body(escape(c) + s) == behind(seq![c], string_body(s)),
{
    let text = escape(c) + s;
    if c == '"' || c == '\\' || c == '\n' || c == '\r' || c == '\t' {
        assert(text.skip(2) =~= s);
    } else if (c as int) < 0x20 {
        let n = c as nat;
        reveal_with_fuel(hex, 5);
        assert(hex(n, 4) =~= seq!['0', '0', digit((n / 16) as int), digit((n % 16) as int)]) by {
            assert(n / 16 / 16 == 0);
            assert(n / 16 % 16 == n / 16);
            assert(hex(0, 0) =~= seq![]);
            assert(hex(0, 1) =~= seq!['0']);
            assert(hex(0, 2) =~= seq!['0', '0']);
        }
        assert(text.skip(6) =~= s);
        let four = text.skip(2);
        assert(four[0] == '0' && four[1] == '0');
        assert(four[2] == digit((n / 16) as int));
        assert(four[3] == digit((n % 16) as int));
        assert(hex_digit(digit((n / 16) as int)) == Some((n / 16) as int));
        assert(hex_digit(digit((n % 16) as int)) == Some((n % 16) as int));
        assert(hex_char(four) == Some(c));
    } else {
        assert(text.skip(1) =~= s);
    }
}

/// Reading a written string gives the string back, and what stood behind it.
pub proof fn string_reads_back(t: Seq<char>, rest: Seq<char>)
    ensures
        string(quoted(t) + rest) == Some((t, rest)),
{
    body_reads_back(t, rest);
    assert((quoted(t) + rest).skip(1) =~= escaped(t) + seq!['"'] + rest);
}

proof fn body_reads_back(t: Seq<char>, rest: Seq<char>)
    ensures
        string_body(escaped(t) + seq!['"'] + rest) == Some((t, rest)),
    decreases t.len(),
{
    let text = escaped(t) + seq!['"'] + rest;
    if t.len() == 0 {
        assert(text.skip(1) =~= rest);
        assert(t =~= seq![]);
    } else {
        let tail = escaped(t.skip(1)) + seq!['"'] + rest;
        body_reads_back(t.skip(1), rest);
        escape_reads_back(t[0], tail);
        assert(text =~= escape(t[0]) + tail);
        assert(seq![t[0]] + t.skip(1) =~= t);
    }
}

proof fn strings_read_back(l: Seq<Seq<char>>, front: Seq<Seq<char>>, rest: Seq<char>)
    requires
        l.len() > 0,
    ensures
        strings(joined(quoted_all(l), seq![',']) + seq![']'] + rest, front) == Some(
            (front + l, rest),
        ),
    decreases l.len(),
{
    let sep = seq![','];
    let s = joined(quoted_all(l), sep) + seq![']'] + rest;
    if l.len() == 1 {
        let after = seq![']'] + rest;
        assert(s =~= quoted(l[0]) + after);
        string_reads_back(l[0], after);
        assert(s[0] == '"');
        assert(after.skip(1) =~= rest);
        assert(front.push(l[0]) =~= front + l);
    } else {
        crate::text::joined_from_the_front(quoted_all(l), sep);
        assert(quoted_all(l).skip(1) =~= quoted_all(l.skip(1)));
        let tail = joined(quoted_all(l.skip(1)), sep) + seq![']'] + rest;
        let after = sep + tail;
        assert(s =~= quoted(l[0]) + after);
        string_reads_back(l[0], after);
        assert(s[0] == '"');
        assert(after.skip(1) =~= tail);
        strings_read_back(l.skip(1), front.push(l[0]), rest);
        assert(front.push(l[0]) + l.skip(1) =~= front + l);
    }
}

proof fn digit_run_stops(d: Seq<char>, rest: Seq<char>)
    requires
        forall|i: int| 0 <= i < d.len() ==> is_digit(#[trigger] d[i]),
        no_digit_first(rest),
    ensures
        digit_run(d + rest) == d.len(),
    decreases d.len(),
{
    if d.len() == 0 {
        assert(d + rest =~= rest);
    } else {
        assert(is_digit(d[0]));
        assert((d + rest).skip(1) =~= d.skip(1) + rest);
        digit_run_stops(d.skip(1), rest);
    }
}

/// Reading a written value gives the value back, and what stood behind it.
pub proof fn item_reads_back(v: Item, rest: Seq<char>)
    requires
        fits(v),
        no_digit_first(rest),
    ensures
        item(item_text(v) + rest) == Some((v, rest)),
{
    let s = item_text(v) + rest;
    reveal_strlit("true");
    reveal_strlit("false");
    match v {
        Item::Str(t) => {
            string_reads_back(t, rest);
            assert(s[0] == '"');
        },
        Item::Bool(b) => {
            if b {
                assert(s.take(4) =~= "true"@);
                assert(s.skip(4) =~= rest);
            } else {
                assert(s.take(5) =~= "false"@);
                assert(s.skip(5) =~= rest);
            }
        },
        Item::Int(n) => {
            crate::number::dec_reads_back(n);
            if n < 0 {
                let d = crate::number::dec_nat((-n) as nat);
                crate::number::dec_nat_reads_back((-n) as nat);
                digit_run_stops(d, rest);
                assert(s.skip(1) =~= d + rest);
                assert(s[0] == '-');
            } else {
                crate::number::dec_nat_reads_back(n as nat);
                digit_run_stops(dec(n), rest);
                assert(is_digit(dec(n)[0]));
                assert(s[0] == dec(n)[0]);
            }
            assert(s.take(number_len(s)) =~= dec(n));
            assert(s.skip(number_len(s)) =~= rest);
        },
        Item::List(l) => {
            let inner = joined(quoted_all(l), seq![',']) + seq![']'] + rest;
            assert(s.skip(1) =~= inner);
            if l.len() == 0 {
                assert(inner.skip(1) =~= rest);
                assert(l =~= seq![]);
            } else {
                if l.len() > 1 {
                    crate::text::joined_from_the_front(quoted_all(l), seq![',']);
                }
                assert(inner[0] == '"');
                strings_read_back(l, seq![], rest);
                assert(Seq::<Seq<char>>::empty() + l =~= l);
            }
        },
    }
}

proof fn member_reads_back(m: (Seq<char>, Item), after: Seq<char>, map: Map<Seq<char>, Item>)
    requires
        fits(m.1),
        after.len() > 0,
        after[0] == ',' || after[0] == '}',
    ensures
        after[0] == ',' ==> members(member_text(m) + after, map) == members(
            after.skip(1),
            map.insert(m.0, m.1),
        ),
        after[0] == '}' && is_blank(after.skip(1)) ==> members(member_text(m) + after, map) == Some(
            map.insert(m.0, m.1),
        ),
{
    let s = member_text(m) + after;
    let tail = item_text(m.1) + after;
    let colon = seq![':'] + tail;
    assert(s =~= quoted(m.0) + colon);
    string_reads_back(m.0, colon);
    assert(s[0] == '"');
    assert(colon.skip(1) =~= tail);
    item_reads_back(m.1, after);
    item_text_first(m.1);
    assert(tail[0] == item_text(m.1)[0]);
    assert(skip_ws(tail) == tail);
}

proof fn item_text_first(v: Item)
    ensures
        item_text(v).len() > 0,
        item_text(v)[0] as int > 0x20,
{
    reveal_strlit("true");
    reveal_strlit("false");
    if let Item::Int(n) = v {
        if n >= 0 {
            crate::number::dec_nat_reads_back(n as nat);
            assert(is_digit(dec(n)[0]));
        }
    }
}

proof fn members_read_back(
    ms: Seq<(Seq<char>, Item)>,
    map: Map<Seq<char>, Item>,
    rest: Seq<char>,
)
    requires
        ms.len() > 0,
        is_blank(rest),
        forall|i: int| 0 <= i < ms.len() ==> fits(#[trigger] ms[i].1),
    ensures
        members(joined(member_texts(ms), seq![',']) + seq!['}'] + rest, map) == Some(
            inserted(map, ms),
        ),
    decreases ms.len(),
{
    let sep = seq![','];
    let s = joined(member_texts(ms), sep) + seq!['}'] + rest;
    assert(fits(ms[0].1));
    if ms.len() == 1 {
        let after = seq!['}'] + rest;
        assert(s =~= member_text(ms[0]) + after);
        assert(after.skip(1) =~= rest);
        member_reads_back(ms[0], after, map);
        assert(inserted(map.insert(ms[0].0, ms[0].1), ms.skip(1)) == map.insert(
            ms[0].0,
            ms[0].1,
        ));
    } else {
        crate::text::joined_from_the_front(member_texts(ms), sep);
        assert(member_texts(ms).skip(1) =~= member_texts(ms.skip(1)));
        let tail = joined(member_texts(ms.skip(1)), sep) + seq!['}'] + rest;
        let after = sep + tail;
        assert(s =~= member_text(ms[0]) + after);
        member_reads_back(ms[0], after, map);
        assert(after.skip(1) =~= tail);
        assert forall|i: int| 0 <= i < ms.skip(1).len() implies fits(
            #[trigger] ms.skip(1)[i].1,
        ) by {
            assert(fits(ms[i + 1].1));
        }
        members_read_back(ms.skip(1), map.insert(ms[0].0, ms[0].1), rest);
    }
}

proof fn inserted_one_by_one(ms: Seq<(Seq<char>, Item)>, m: Map<Seq<char>, Item>)
    requires
        ms.len() > 0,
    ensures
        inserted(m, ms) == inserted(m, ms.drop_last()).insert(ms.last().0, ms.last().1),
    decreases ms.len(),
{
    if ms.len() > 1 {
        inserted_one_by_one(ms.skip(1), m.insert(ms[0].0, ms[0].1));
        assert(ms.skip(1).drop_last() =~= ms.drop_last().skip(1));
    } else {
        assert(ms.drop_last() =~= seq![]);
        assert(inserted(m.insert(ms[0].0, ms[0].1), ms.skip(1)) == m.insert(ms[0].0, ms[0].1));
    }
}

proof fn inserted_is_map_of(ms: Seq<(Seq<char>, Item)>)
    ensures
        inserted(Map::empty(), ms) == map_of(ms),
    decreases ms.len(),
{
    if ms.len() > 0 {
        inserted_is_map_of(ms.drop_last());
        inserted_one_by_one(ms, Map::empty());
    }
}

/// Reading a written object gives its members back, whatever blanks stand
/// behind it.
pub proof fn object_reads_back(ms: Seq<(Seq<char>, Item)>, rest: Seq<char>)
    requires
        is_blank(rest),
        forall|i: int| 0 <= i < ms.len() ==> fits(#[trigger] ms[i].1),
    ensures
        object(object_text(ms) + rest) == Some(map_of(ms)),
{
    let s = object_text(ms) + rest;
    let inner = joined(member_texts(ms), seq![',']) + seq!['}'] + rest;
    assert(s[0] == '{');
    assert(s.skip(1) =~= inner);
    if ms.len() > 0 {
        if ms.len() > 1 {
            crate::text::joined_from_the_front(member_texts(ms), seq![',']);
        }
        assert(inner[0] == member_text(ms[0])[0]);
        assert(inner[0] == '"');
        members_read_back(ms, Map::empty(), rest);
        inserted_is_map_of(ms);
    } else {
        assert(inner.skip(1) =~= rest);
    }
}

proof fn value_fits(v: Value)
    ensures
        fits(v@),
{
}

/// An object that was encoded is decoded to the same object: what `encode`
/// writes for `o` reads as what `o` holds.
pub proof fn decode_undoes_encode(o: Object)
    ensures
        object(object_text(o.members())) == Some(o@),
{
    assert forall|i: int| 0 <= i < o.members().len() implies fits(#[trigger] o.members()[i].1) by {
        value_fits(o.entries@[i].1);
    }
    object_reads_back(o.members(), seq![]);
    assert(object_text(o.members()) + Seq::<char>::empty() =~= object_text(o.members()));
}

/// No character of `s` is a control character such as a line end.
pub open spec fn printable(s: Seq<char>) -> bool {
    forall|i: int| 0 <= i < s.len() ==> #[trigger] s[i] as int >= 0x20
}

proof fn printable_joined(list: Seq<Seq<char>>)
    requires
        forall|i: int| 0 <= i < list.len() ==> printable(#[trigger] list[i]),
    ensures
        printable(joined(list, seq![','])),
    decreases list.len(),
{
    if list.len() == 1 {
        assert(printable(list[0]));
    } else if list.len() > 1 {
        assert forall|i: int| 0 <= i < list.drop_last().len() implies printable(
            #[trigger] list.drop_last()[i],
        ) by {
            assert(printable(list[i]));
        }
        printable_joined(list.drop_last());
        assert(printable(list[list.len() - 1]));
    }
}

proof fn printable_hex(n: nat, width: nat)
    ensures
        printable(hex(n, width)),
    decreases width,
{
    if width > 0 {
        printable_hex(n / 16, (width - 1) as nat);
    }
}

proof fn printable_quoted(t: Seq<char>)
    ensures
        printable(quoted(t)),
{
    printable_escaped(t);
}

proof fn printable_escaped(t: Seq<char>)
    ensures
        printable(escaped(t)),
    decreases t.len(),
{
    if t.len() > 0 {
        printable_hex(t[0] as nat, 4);
        assert(printable(escape(t[0])));
        printable_escaped(t.skip(1));
    }
}

proof fn printable_item(v: Item)
    ensures
        printable(item_text(v)),
{
    reveal_strlit("true");
    reveal_strlit("false");
    match v {
        Item::Str(t) => printable_quoted(t),
        Item::Int(n) => {
            let m = if n < 0 {
                (-n) as nat
            } else {
                n as nat
            };
            crate::number::dec_nat_reads_back(m);
            let d = crate::number::dec_nat(m);
            assert forall|i: int| 0 <= i < d.len() implies #[trigger] d[i] as int >= 0x20 by {
                assert(is_digit(d[i]));
            }
        },
        Item::Bool(b) => {},
        Item::List(l) => {
            assert forall|i: int| 0 <= i < quoted_all(l).len() implies printable(
                #[trigger] quoted_all(l)[i],
            ) by {
                printable_quoted(l[i]);
            }
            printable_joined(quoted_all(l));
        },
    }
}

/// An encoded object is one line: no line end, and no other control character,
/// stands in it.
pub proof fn encoded_is_one_line(ms: Seq<(Seq<char>, Item)>)
    ensures
        printable(object_text(ms)),
{
    let texts = member_texts(ms);
    assert forall|i: int| 0 <= i < texts.len() implies printable(#[trigger] texts[i]) by {
        printable_quoted(ms[i].0);
        printable_item(ms[i].1);
    }
    printable_joined(texts);
}

/// An encoded object, sent as a line and read with the blanks around it taken
/// off, is decoded to the same object.
pub proof fn line_reads_back(o: Object)
    ensures
        object(crate::text::trim(object_text(o.members()).push('\n'))) == Some(o@),
{
    let text = object_text(o.members());
    let line = text.push('\n');
    assert(crate::text::trim_start(line) == line);
    assert(line.drop_last() =~= text);
    assert(text.last() == '}');
    assert(crate::text::trim_end(text) == text);
    assert(crate::text::trim_end(line) == text);
    decode_undoes_encode(o);
}

proof fn last_name_is_greatest(ms: Seq<(Seq<char>, Item)>, k: Seq<char>)
    requires
        ascending(ms),
        map_of(ms).dom().contains(k),
    ensures
        k == ms.last().0 || less(k, ms.last().0),
{
    map_of_distinct(ms);
    let i = choose|i: int| 0 <= i < ms.len() && ms[i].0 == k;
    if i < ms.len() - 1 {
        assert(less(ms[i].0, ms[ms.len() - 1].0));
    }
}

proof fn map_without_last(ms: Seq<(Seq<char>, Item)>)
    requires
        ascending(ms),
        ms.len() > 0,
    ensures
        ascending(ms.drop_last()),
        map_of(ms.drop_last()) == map_of(ms).remove(ms.last().0),
{
    let front = ms.drop_last();
    assert forall|i: int, j: int| 0 <= i < j < front.len() implies less(
        #[trigger] front[i].0,
        #[trigger] front[j].0,
    ) by {
        assert(less(ms[i].0, ms[j].0));
    }
    map_of_distinct(front);
    if map_of(front).dom().contains(ms.last().0) {
        let i = choose|i: int| 0 <= i < front.len() && front[i].0 == ms.last().0;
        assert(less(ms[i].0, ms[ms.len() - 1].0));
        crate::text::less_is_total(ms.last().0, ms.last().0);
        assert(false);
    }
    assert(map_of(front) =~= map_of(ms).remove(ms.last().0));
}

/// An object is written in one way only: two lists of members whose names
/// ascend and that hold the same are the same list.
pub proof fn members_are_canonical(a: Seq<(Seq<char>, Item)>, b: Seq<(Seq<char>, Item)>)
    requires
        ascending(a),
        ascending(b),
        map_of(a) == map_of(b),
    ensures
        a == b,
    decreases a.len(),
{
    map_of_distinct(a);
    map_of_distinct(b);
    if a.len() == 0 {
        if b.len() > 0 {
            assert(map_of(b).dom().contains(b[0].0));
        }
        assert(a =~= b);
    } else {
        assert(map_of(a).dom().contains(a[a.len() - 1].0));
        if b.len() == 0 {
            assert(false);
        }
        assert(map_of(b).dom().contains(b[b.len() - 1].0));
        last_name_is_greatest(b, a.last().0);
        last_name_is_greatest(a, b.last().0);
        crate::text::less_is_total(a.last().0, b.last().0);
        assert(a.last().0 == b.last().0);
        assert(map_of(a)[a[a.len() - 1].0] == a[a.len() - 1].1);
        assert(map_of(b)[b[b.len() - 1].0] == b[b.len() - 1].1);
        map_without_last(a);
        map_without_last(b);
        members_are_canonical(a.drop_last(), b.drop_last());
        assert(a =~= a.drop_last().push(a.last()));
        assert(b =~= b.drop_last().push(b.last()));
    }
}

/// `text` is the line for an object that holds `m`.
pub open spec fn is_line(text: Seq<char>, m: Map<Seq<char>, Item>) -> bool {
    exists|ms: Seq<(Seq<char>, Item)>|
        ascending(ms) && map_of(ms) == m && text == #[trigger] object_text(ms).push('\n')
}

/// There is one line for what an object holds.
pub proof fn line_is_unique(a: Seq<char>, b: Seq<char>, m: Map<Seq<char>, Item>)
    requires
        is_line(a, m),
        is_line(b, m),
    ensures
        a == b,
{
    let x = choose|ms: Seq<(Seq<char>, Item)>|
        ascending(ms) && map_of(ms) == m && a == #[trigger] object_text(ms).push('\n');
    let y = choose|ms: Seq<(Seq<char>, Item)>|
        ascending(ms) && map_of(ms) == m && b == #[trigger] object_text(ms).push('\n');
    members_are_canonical(x, y);
}

/// The line for an object.
pub fn line_of(obj: &Object) -> (r: String)
    requires
        obj.wf(),
    ensures
        is_line(r@, obj@),
{
    let mut r = encode(obj);
    r.push('\n');
    assert(r@ == object_text(obj.members()).push('\n'));
    r
}

/// The line for an object is read as what the object holds, where its integers
/// fit in 64 bits.
pub proof fn is_line_reads_back(text: Seq<char>, m: Map<Seq<char>, Item>)
    requires
        is_line(text, m),
        forall|k: Seq<char>| #[trigger] m.dom().contains(k) ==> fits(m[k]),
    ensures
        object(crate::text::trim(text)) == Some(m),
{
    let ms = choose|ms: Seq<(Seq<char>, Item)>|
        ascending(ms) && map_of(ms) == m && text == #[trigger] object_text(ms).push('\n');
    map_of_distinct(ms);
    assert forall|i: int| 0 <= i < ms.len() implies fits(#[trigger] ms[i].1) by {
        assert(m.dom().contains(ms[i].0));
    }
    let bare = object_text(ms);
    object_reads_back(ms, seq![]);
    assert(bare + Seq::<char>::empty() =~= bare);
    assert(crate::text::trim_start(text) == text);
    assert(text.drop_last() =~= bare);
    assert(bare.last() == '}');
    assert(crate::text::trim_end(bare) == bare);
    assert(crate::text::trim_end(text) == bare);
}

} // verus!
