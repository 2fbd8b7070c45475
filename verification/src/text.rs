//! Text as sequences of characters: searching, trimming, splitting, joining.
//!
//! Every function is specified over the characters of its arguments (`s@`),
//! so callers can speak of what a text holds without mentioning its encoding.

use vstd::prelude::*;

verus! {

/// `String::push` appends one character to the end of the string.
pub assume_specification[ String::push ](s: &mut String, c: char)
    ensures
        final(s)@ == old(s)@.push(c),
;

/// What the strings of a list hold, in order.
pub open spec fn views(v: Seq<String>) -> Seq<Seq<char>> {
    v.map_values(|s: String| s@)
}

/// `p` stands in `s` at position `i`.
pub open spec fn occurs_at(s: Seq<char>, p: Seq<char>, i: int) -> bool {
    0 <= i && i + p.len() <= s.len() && s.subrange(i, i + p.len()) == p
}

/// The first position at or after `i` where `p` stands in `s`.
pub open spec fn find_from(s: Seq<char>, p: Seq<char>, i: int) -> Option<int>
    decreases s.len() - i + 1,
{
    if i < 0 || i + p.len() > s.len() {
        None
    } else if s.subrange(i, i + p.len()) == p {
        Some(i)
    } else {
        find_from(s, p, i + 1)
    }
}

/// The first position where `p` stands in `s`.
pub open spec fn find(s: Seq<char>, p: Seq<char>) -> Option<int> {
    find_from(s, p, 0)
}

/// `p` stands somewhere in `s`.
pub open spec fn contains(s: Seq<char>, p: Seq<char>) -> bool {
    find(s, p) is Some
}

/// `s` begins with `p`.
pub open spec fn starts_with(s: Seq<char>, p: Seq<char>) -> bool {
    p.len() <= s.len() && s.take(p.len() as int) == p
}

/// `s` ends with `p`.
pub open spec fn ends_with(s: Seq<char>, p: Seq<char>) -> bool {
    p.len() <= s.len() && s.skip(s.len() - p.len()) == p
}

/// The part of `s` before the first `p`, or all of it when `p` does not occur.
pub open spec fn before(s: Seq<char>, p: Seq<char>) -> Seq<char> {
    match find(s, p) {
        Some(i) => s.take(i),
        None => s,
    }
}

/// The part of `s` behind the first `p`, when `p` occurs.
pub open spec fn after(s: Seq<char>, p: Seq<char>) -> Option<Seq<char>> {
    match find(s, p) {
        Some(i) => Some(s.skip(i + p.len())),
        None => None,
    }
}

/// `s` without the occurrences of `p` (left to right, not overlapping).
pub open spec fn without(s: Seq<char>, p: Seq<char>) -> Seq<char>
    decreases s.len(),
{
    if p.len() == 0 {
        s
    } else {
        match find(s, p) {
            Some(i) => if 0 <= i && i + p.len() <= s.len() {
                s.take(i) + without(s.skip(i + p.len()), p)
            } else {
                s
            },
            None => s,
        }
    }
}

/// The characters with the Unicode property `White_Space`.
pub open spec fn white(c: char) -> bool {
    let n = c as int;
    ||| 0x09 <= n <= 0x0d
    ||| n == 0x20
    ||| n == 0x85
    ||| n == 0xa0
    ||| n == 0x1680
    ||| 0x2000 <= n <= 0x200a
    ||| n == 0x2028
    ||| n == 0x2029
    ||| n == 0x202f
    ||| n == 0x205f
    ||| n == 0x3000
}

/// `s` without its leading white space.
pub open spec fn trim_start(s: Seq<char>) -> Seq<char>
    decreases s.len(),
{
    if s.len() > 0 && white(s[0]) {
        trim_start(s.skip(1))
    } else {
        s
    }
}

/// `s` without its trailing white space.
pub open spec fn trim_end(s: Seq<char>) -> Seq<char>
    decreases s.len(),
{
    if s.len() > 0 && white(s.last()) {
        trim_end(s.drop_last())
    } else {
        s
    }
}

/// `s` without the white space around it.
pub open spec fn trim(s: Seq<char>) -> Seq<char> {
    trim_end(trim_start(s))
}

/// `s` without a carriage return at its end.
pub open spec fn strip_cr(s: Seq<char>) -> Seq<char> {
    if s.len() > 0 && s.last() == '\r' {
        s.drop_last()
    } else {
        s
    }
}

/// The lines of `s`: each ends at a line feed, which a carriage return may
/// precede; what follows the last line feed is a line unless it is empty.
pub open spec fn lines(s: Seq<char>) -> Seq<Seq<char>>
    decreases s.len(),
{
    if s.len() == 0 {
        seq![]
    } else {
        let n = line_len(s);
        if 0 <= n < s.len() {
            seq![strip_cr(s.take(n))] + lines(s.skip(n + 1))
        } else {
            seq![s]
        }
    }
}

/// How many characters of `s` stand before its first line feed.
pub open spec fn line_len(s: Seq<char>) -> int
    decreases s.len(),
{
    if s.len() == 0 || s[0] == '\n' {
        0
    } else {
        1 + line_len(s.skip(1))
    }
}

/// How many characters `s` begins with that are not white space.
pub open spec fn word_len(s: Seq<char>) -> int
    decreases s.len(),
{
    if s.len() == 0 || white(s[0]) {
        0
    } else {
        1 + word_len(s.skip(1))
    }
}

/// The words of `s`: its longest runs without white space.
pub open spec fn words(s: Seq<char>) -> Seq<Seq<char>>
    decreases s.len(),
{
    if s.len() == 0 {
        seq![]
    } else if white(s[0]) {
        words(s.skip(1))
    } else {
        let n = word_len(s);
        if 0 < n <= s.len() {
            seq![s.take(n)] + words(s.skip(n))
        } else {
            seq![]
        }
    }
}

/// The texts of `list` with `sep` between each two.
pub open spec fn joined(list: Seq<Seq<char>>, sep: Seq<char>) -> Seq<char>
    decreases list.len(),
{
    if list.len() == 0 {
        seq![]
    } else if list.len() == 1 {
        list[0]
    } else {
        joined(list.drop_last(), sep) + sep + list.last()
    }
}

/// Joining texts puts the first one, and behind it a separator and the others
/// joined.
pub proof fn joined_from_the_front(list: Seq<Seq<char>>, sep: Seq<char>)
    requires
        list.len() >= 2,
    ensures
        joined(list, sep) == list[0] + sep + joined(list.skip(1), sep),
    decreases list.len(),
{
    let tail = list.skip(1);
    if list.len() == 2 {
        assert(joined(list.drop_last(), sep) == list[0]);
    } else {
        joined_from_the_front(list.drop_last(), sep);
        assert(list.drop_last().skip(1) =~= tail.drop_last());
        assert(joined(list, sep) =~= list[0] + sep + joined(tail, sep));
    }
}

/// `a` comes before `b` in the order of code points, first difference first.
pub open spec fn less(a: Seq<char>, b: Seq<char>) -> bool
    decreases a.len(),
{
    if b.len() == 0 {
        false
    } else if a.len() == 0 {
        true
    } else if a[0] == b[0] {
        less(a.skip(1), b.skip(1))
    } else {
        (a[0] as int) < (b[0] as int)
    }
}

/// `find` gives the first of all positions where `p` stands, if there is one.
pub proof fn find_from_is_first(s: Seq<char>, p: Seq<char>, i: int)
    requires
        0 <= i,
    ensures
        match find_from(s, p, i) {
            Some(k) => i <= k && occurs_at(s, p, k) && forall|j: int|
                i <= j < k ==> !occurs_at(s, p, j),
            None => forall|j: int| i <= j ==> !occurs_at(s, p, j),
        },
    decreases s.len() - i + 1,
{
    if i + p.len() <= s.len() && s.subrange(i, i + p.len()) != p {
        find_from_is_first(s, p, i + 1);
    }
}

/// Exactly one of: `a` before `b`, `a` equal to `b`, `b` before `a`.
pub proof fn less_is_total(a: Seq<char>, b: Seq<char>)
    ensures
        less(a, b) || a == b || less(b, a),
        !(less(a, b) && less(b, a)),
        a == b ==> !less(a, b),
    decreases a.len(),
{
    if a.len() > 0 && b.len() > 0 && a[0] == b[0] {
        less_is_total(a.skip(1), b.skip(1));
        if a.skip(1) == b.skip(1) {
            assert(a =~= seq![a[0]] + a.skip(1));
            assert(b =~= seq![b[0]] + b.skip(1));
            assert(a == b);
        }
    } else if a.len() == 0 && b.len() == 0 {
        assert(a =~= b);
    }
}

/// The order of texts is transitive.
pub proof fn less_is_transitive(a: Seq<char>, b: Seq<char>, c: Seq<char>)
    requires
        less(a, b),
        less(b, c),
    ensures
        less(a, c),
    decreases a.len(),
{
    if a.len() > 0 && a[0] == b[0] && b[0] == c[0] {
        less_is_transitive(a.skip(1), b.skip(1), c.skip(1));
    }
}

pub(crate) proof fn line_len_bounds(s: Seq<char>)
    ensures
        0 <= line_len(s) <= s.len(),
        line_len(s) < s.len() ==> s[line_len(s)] == '\n',
        forall|k: int| 0 <= k < line_len(s) ==> s[k] != '\n',
    decreases s.len(),
{
    if s.len() > 0 && s[0] != '\n' {
        line_len_bounds(s.skip(1));
        assert forall|k: int| 0 <= k < line_len(s) implies s[k] != '\n' by {
            if k > 0 {
                assert(s.skip(1)[k - 1] != '\n');
            }
        }
    }
}

pub(crate) proof fn word_len_bounds(s: Seq<char>)
    ensures
        0 <= word_len(s) <= s.len(),
    decreases s.len(),
{
    if s.len() > 0 && !white(s[0]) {
        word_len_bounds(s.skip(1));
    }
}

/// The characters of `s`, in order.
pub fn to_chars(s: &str) -> (v: Vec<char>)
    ensures
        v@ == s@,
{
    let mut v: Vec<char> = Vec::new();
    for c in it: s.chars()
        invariant
            v@ == s@.take(it.index()),
            it.seq() == s@,
    {
        v.push(c);
        assert(s@.take(it.index() + 1) =~= s@.take(it.index()).push(c));
    }
    assert(s@.take(s@.len() as int) =~= s@);
    v
}

/// The text made of `v[from..to]`.
pub fn slice_text(v: &Vec<char>, from: usize, to: usize) -> (s: String)
    requires
        from <= to <= v@.len(),
    ensures
        s@ == v@.subrange(from as int, to as int),
{
    let mut s = String::new();
    let mut i: usize = from;
    while i < to
        invariant
            from <= i <= to <= v@.len(),
            s@ == v@.subrange(from as int, i as int),
        decreases to - i,
    {
        s.push(v[i]);
        assert(v@.subrange(from as int, i + 1) =~= v@.subrange(from as int, i as int).push(
            v@[i as int],
        ));
        i = i + 1;
    }
    s
}

/// The texts hold the same characters.
pub fn same(a: &str, b: &str) -> (r: bool)
    ensures
        r == (a@ == b@),
{
    a.to_owned() == b.to_owned()
}

/// `list` with a copy of `s` at its end.
pub fn push_text(list: &mut Vec<String>, s: &str)
    ensures
        views(final(list)@) == views(old(list)@).push(s@),
{
    list.push(s.to_owned());
    assert(views(list@) =~= views(old(list)@).push(s@));
}

/// A copy of `list`.
pub fn copy_list(list: &Vec<String>) -> (r: Vec<String>)
    ensures
        views(r@) == views(list@),
{
    let mut r: Vec<String> = Vec::new();
    let mut i: usize = 0;
    while i < list.len()
        invariant
            i <= list@.len(),
            views(r@) == views(list@).take(i as int),
        decreases list@.len() - i,
    {
        push_text(&mut r, &list[i]);
        assert(views(list@).take(i + 1) =~= views(list@).take(i as int).push(list@[i as int]@));
        i = i + 1;
    }
    assert(views(list@).take(list@.len() as int) =~= views(list@));
    r
}

/// `list` holds the text `s`.
pub fn list_has(list: &Vec<String>, s: &str) -> (r: bool)
    ensures
        r == views(list@).contains(s@),
{
    let mut i: usize = 0;
    while i < list.len()
        invariant
            i <= list@.len(),
            forall|k: int| 0 <= k < i ==> views(list@)[k] != s@,
        decreases list@.len() - i,
    {
        if same(&list[i], s) {
            assert(views(list@)[i as int] == s@);
            return true;
        }
        i = i + 1;
    }
    false
}

fn stands_at(s: &Vec<char>, p: &Vec<char>, i: usize) -> (r: bool)
    requires
        i + p.len() <= s.len(),
    ensures
        r == (s@.subrange(i as int, i + p@.len()) == p@),
{
    let mut k: usize = 0;
    while k < p.len()
        invariant
            k <= p.len(),
            i + p.len() <= s.len(),
            forall|j: int| 0 <= j < k ==> s@[i + j] == p@[j],
        decreases p@.len() - k,
    {
        if s[i + k] != p[k] {
            assert(s@.subrange(i as int, i + p@.len())[k as int] != p@[k as int]);
            return false;
        }
        k = k + 1;
    }
    assert(s@.subrange(i as int, i + p@.len()) =~= p@);
    true
}

/// The first position at or after `from` where `p` stands in `s`.
pub fn find_chars(s: &Vec<char>, p: &Vec<char>, from: usize) -> (r: Option<usize>)
    ensures
        match r {
            Some(i) => find_from(s@, p@, from as int) == Some(i as int) && i + p.len() <= s.len(),
            None => find_from(s@, p@, from as int) is None,
        },
{
    let mut i: usize = from;
    while i <= s.len() && p.len() <= s.len() - i
        invariant
            from <= i,
            i <= s.len() + 1 || i == from,
            find_from(s@, p@, from as int) == find_from(s@, p@, i as int),
        decreases s@.len() + 1 - i,
    {
        if stands_at(s, p, i) {
            return Some(i);
        }
        if i == s.len() {
            assert(find_from(s@, p@, i + 1) is None);
            return None;
        }
        i = i + 1;
    }
    None
}

/// `p` stands somewhere in `s`.
pub fn includes(s: &str, p: &str) -> (r: bool)
    ensures
        r == contains(s@, p@),
{
    find_chars(&to_chars(s), &to_chars(p), 0).is_some()
}

/// `s` begins with `p`.
pub fn begins(s: &str, p: &str) -> (r: bool)
    ensures
        r == starts_with(s@, p@),
{
    let a = to_chars(s);
    let b = to_chars(p);
    if b.len() > a.len() {
        return false;
    }
    assert(a@.take(b@.len() as int) =~= a@.subrange(0, b@.len() as int));
    stands_at(&a, &b, 0)
}

/// `s` ends with `p`.
pub fn ends(s: &str, p: &str) -> (r: bool)
    ensures
        r == ends_with(s@, p@),
{
    let a = to_chars(s);
    let b = to_chars(p);
    if b.len() > a.len() {
        return false;
    }
    let at: usize = a.len() - b.len();
    assert(a@.skip(at as int) =~= a@.subrange(at as int, at + b@.len()));
    stands_at(&a, &b, at)
}

/// The part of `s` before the first `p`, or all of it when `p` does not occur.
pub fn text_before(s: &str, p: &str) -> (r: String)
    ensures
        r@ == before(s@, p@),
{
    let a = to_chars(s);
    let b = to_chars(p);
    match find_chars(&a, &b, 0) {
        Some(i) => {
            proof {
                find_from_is_first(s@, p@, 0);
            }
            assert(a@.take(i as int) =~= a@.subrange(0, i as int));
            slice_text(&a, 0, i)
        },
        None => s.to_owned(),
    }
}

/// The part of `s` behind the first `p`, when `p` occurs.
pub fn text_after(s: &str, p: &str) -> (r: Option<String>)
    ensures
        match r {
            Some(t) => after(s@, p@) == Some(t@),
            None => after(s@, p@) is None,
        },
{
    let a = to_chars(s);
    let b = to_chars(p);
    match find_chars(&a, &b, 0) {
        Some(i) => {
            assert(a@.skip(i + b@.len()) =~= a@.subrange(i + b@.len(), a@.len() as int));
            Some(slice_text(&a, i + b.len(), a.len()))
        },
        None => None,
    }
}

/// `s` without the occurrences of `p`.
pub fn text_without(s: &str, p: &str) -> (r: String)
    requires
        p@.len() > 0,
    ensures
        r@ == without(s@, p@),
{
    let a = to_chars(s);
    let b = to_chars(p);
    let mut r = String::new();
    let mut at: usize = 0;
    assert(a@.skip(0) =~= a@);
    loop
        invariant_except_break
            without(s@, p@) == r@ + without(a@.skip(at as int), p@),
        invariant
            at <= a.len(),
            a@ == s@,
            b@ == p@,
            p@.len() > 0,
        ensures
            r@ == without(s@, p@),
        decreases a@.len() - at,
    {
        let ghost rest = a@.skip(at as int);
        proof {
            find_in_suffix(a@, b@, at as int, at as int);
        }
        match find_chars(&a, &b, at) {
            Some(i) => {
                proof {
                    find_from_is_first(a@, b@, at as int);
                }
                let piece = slice_text(&a, at, i);
                proof {
                    assert(rest.take(i - at) =~= piece@);
                    assert(rest.skip(i - at + b@.len()) =~= a@.skip(i + b@.len()));
                    assert(r@ + (piece@ + without(a@.skip(i + b@.len()), p@)) =~= (r@ + piece@)
                        + without(a@.skip(i + b@.len()), p@));
                }
                r.append(piece.as_str());
                at = i + b.len();
            },
            None => {
                let piece = slice_text(&a, at, a.len());
                assert(piece@ =~= rest);
                r.append(piece.as_str());
                break;
            },
        }
    }
    r
}

/// Searching a suffix is searching the whole from the suffix's start.
pub(crate) proof fn find_in_suffix(s: Seq<char>, p: Seq<char>, at: int, i: int)
    requires
        0 <= at <= i,
        at <= s.len(),
    ensures
        find_from(s.skip(at), p, i - at) == match find_from(s, p, i) {
            Some(k) => Some(k - at),
            None => None,
        },
    decreases s.len() - i + 1,
{
    if i + p.len() <= s.len() {
        assert(s.skip(at).subrange(i - at, i - at + p.len()) =~= s.subrange(i, i + p.len()));
        if s.subrange(i, i + p.len()) != p {
            find_in_suffix(s, p, at, i + 1);
        }
    }
}

/// The character has the Unicode property `White_Space`.
pub fn is_white(c: char) -> (r: bool)
    ensures
        r == white(c),
{
    let n: u32 = code(c);
    (0x09 <= n && n <= 0x0d) || n == 0x20 || n == 0x85 || n == 0xa0 || n == 0x1680 || (0x2000 <= n
        && n <= 0x200a) || n == 0x2028 || n == 0x2029 || n == 0x202f || n == 0x205f || n == 0x3000
}

/// `s` without the white space around it.
pub fn trimmed(s: &str) -> (r: String)
    ensures
        r@ == trim(s@),
{
    let a = to_chars(s);
    let mut from: usize = 0;
    assert(a@.skip(0) =~= a@);
    while from < a.len() && is_white(a[from])
        invariant
            from <= a@.len(),
            trim_start(a@.skip(from as int)) == trim_start(a@),
        decreases a@.len() - from,
    {
        assert(a@.skip(from as int).skip(1) =~= a@.skip(from + 1));
        from = from + 1;
    }
    let ghost rest = a@.skip(from as int);
    assert(trim_start(a@) == rest);
    let mut to: usize = a.len();
    assert(a@.subrange(from as int, to as int) =~= rest);
    while from < to && is_white(a[to - 1])
        invariant
            from <= to <= a@.len(),
            trim_end(a@.subrange(from as int, to as int)) == trim_end(rest),
        decreases to,
    {
        assert(a@.subrange(from as int, to as int).drop_last() =~= a@.subrange(
            from as int,
            to - 1,
        ));
        to = to - 1;
    }
    slice_text(&a, from, to)
}

/// The lines of `s`.
pub fn text_lines(s: &str) -> (r: Vec<String>)
    ensures
        views(r@) == lines(s@),
{
    let a = to_chars(s);
    let mut r: Vec<String> = Vec::new();
    let mut at: usize = 0;
    assert(a@.skip(0) =~= a@);
    assert(views(r@) =~= seq![]);
    while at < a.len()
        invariant
            at <= a@.len(),
            a@ == s@,
            lines(s@) == views(r@) + lines(a@.skip(at as int)),
        decreases a@.len() - at,
    {
        let ghost rest = a@.skip(at as int);
        let mut end: usize = at;
        assert(a@.skip(end as int) =~= rest);
        while end < a.len() && a[end] != '\n'
            invariant
                at <= end <= a@.len(),
                rest == a@.skip(at as int),
                line_len(rest) == end - at + line_len(a@.skip(end as int)),
            decreases a@.len() - end,
        {
            assert(a@.skip(end as int).skip(1) =~= a@.skip(end + 1));
            end = end + 1;
        }
        assert(line_len(rest) == end - at);
        let ghost shown = views(r@);
        if end < a.len() {
            let mut stop: usize = end;
            if stop > at && a[stop - 1] == '\r' {
                stop = stop - 1;
            }
            let line = slice_text(&a, at, stop);
            assert(line@ =~= strip_cr(rest.take(end - at)));
            assert(rest.skip(end - at + 1) =~= a@.skip(end + 1));
            push_text(&mut r, line.as_str());
            assert(shown + (seq![line@] + lines(a@.skip(end + 1))) =~= views(r@) + lines(
                a@.skip(end + 1),
            ));
            at = end + 1;
        } else {
            let line = slice_text(&a, at, end);
            assert(line@ =~= rest);
            push_text(&mut r, line.as_str());
            assert(a@.skip(end as int) =~= seq![]);
            assert(shown + seq![rest] =~= views(r@) + lines(a@.skip(end as int)));
            at = end;
        }
    }
    assert(a@.skip(at as int) =~= seq![]);
    assert(views(r@) + lines(a@.skip(at as int)) =~= views(r@));
    r
}

/// The words of `s`.
pub fn text_words(s: &str) -> (r: Vec<String>)
    ensures
        views(r@) == words(s@),
{
    let a = to_chars(s);
    let mut r: Vec<String> = Vec::new();
    let mut at: usize = 0;
    assert(a@.skip(0) =~= a@);
    assert(views(r@) =~= seq![]);
    while at < a.len()
        invariant
            at <= a@.len(),
            a@ == s@,
            words(s@) == views(r@) + words(a@.skip(at as int)),
        decreases a@.len() - at,
    {
        let ghost rest = a@.skip(at as int);
        if is_white(a[at]) {
            assert(rest.skip(1) =~= a@.skip(at + 1));
            at = at + 1;
        } else {
            let mut end: usize = at;
            assert(a@.skip(end as int) =~= rest);
            while end < a.len() && !is_white(a[end])
                invariant
                    at <= end <= a@.len(),
                    rest == a@.skip(at as int),
                    word_len(rest) == end - at + word_len(a@.skip(end as int)),
                decreases a@.len() - end,
            {
                assert(a@.skip(end as int).skip(1) =~= a@.skip(end + 1));
                end = end + 1;
            }
            proof {
                word_len_bounds(rest.skip(1));
            }
            let word = slice_text(&a, at, end);
            assert(word@ =~= rest.take(end - at));
            assert(rest.skip(end - at) =~= a@.skip(end as int));
            let ghost shown = views(r@);
            push_text(&mut r, word.as_str());
            assert(shown + (seq![word@] + words(a@.skip(end as int))) =~= views(r@) + words(
                a@.skip(end as int),
            ));
            at = end;
        }
    }
    assert(a@.skip(at as int) =~= seq![]);
    assert(views(r@) + words(a@.skip(at as int)) =~= views(r@));
    r
}

/// A list of one text.
pub fn list1(a: &str) -> (r: Vec<String>)
    ensures
        views(r@) == seq![a@],
{
    let mut r: Vec<String> = Vec::new();
    push_text(&mut r, a);
    r
}

/// A list of two texts.
pub fn list2(a: &str, b: &str) -> (r: Vec<String>)
    ensures
        views(r@) == seq![a@, b@],
{
    let mut r: Vec<String> = Vec::new();
    push_text(&mut r, a);
    push_text(&mut r, b);
    r
}

/// A list of three texts.
pub fn list3(a: &str, b: &str, c: &str) -> (r: Vec<String>)
    ensures
        views(r@) == seq![a@, b@, c@],
{
    let mut r: Vec<String> = Vec::new();
    push_text(&mut r, a);
    push_text(&mut r, b);
    push_text(&mut r, c);
    r
}

/// A list of four texts.
pub fn list4(a: &str, b: &str, c: &str, d: &str) -> (r: Vec<String>)
    ensures
        views(r@) == seq![a@, b@, c@, d@],
{
    let mut r: Vec<String> = Vec::new();
    push_text(&mut r, a);
    push_text(&mut r, b);
    push_text(&mut r, c);
    push_text(&mut r, d);
    r
}

/// A list of five texts.
pub fn list5(a: &str, b: &str, c: &str, d: &str, e: &str) -> (r: Vec<String>)
    ensures
        views(r@) == seq![a@, b@, c@, d@, e@],
{
    let mut r: Vec<String> = Vec::new();
    push_text(&mut r, a);
    push_text(&mut r, b);
    push_text(&mut r, c);
    push_text(&mut r, d);
    push_text(&mut r, e);
    r
}

/// A list of six texts.
pub fn list6(a: &str, b: &str, c: &str, d: &str, e: &str, f: &str) -> (r: Vec<String>)
    ensures
        views(r@) == seq![a@, b@, c@, d@, e@, f@],
{
    let mut r: Vec<String> = Vec::new();
    push_text(&mut r, a);
    push_text(&mut r, b);
    push_text(&mut r, c);
    push_text(&mut r, d);
    push_text(&mut r, e);
    push_text(&mut r, f);
    r
}

/// A list of seven texts.
pub fn list7(a: &str, b: &str, c: &str, d: &str, e: &str, f: &str, g: &str) -> (r: Vec<String>)
    ensures
        views(r@) == seq![a@, b@, c@, d@, e@, f@, g@],
{
    let mut r: Vec<String> = Vec::new();
    push_text(&mut r, a);
    push_text(&mut r, b);
    push_text(&mut r, c);
    push_text(&mut r, d);
    push_text(&mut r, e);
    push_text(&mut r, f);
    push_text(&mut r, g);
    r
}

/// A list of nine texts.
pub fn list9(
    a: &str,
    b: &str,
    c: &str,
    d: &str,
    e: &str,
    f: &str,
    g: &str,
    h: &str,
    i: &str,
) -> (r: Vec<String>)
    ensures
        views(r@) == seq![a@, b@, c@, d@, e@, f@, g@, h@, i@],
{
    let mut r: Vec<String> = Vec::new();
    push_text(&mut r, a);
    push_text(&mut r, b);
    push_text(&mut r, c);
    push_text(&mut r, d);
    push_text(&mut r, e);
    push_text(&mut r, f);
    push_text(&mut r, g);
    push_text(&mut r, h);
    push_text(&mut r, i);
    r
}

/// Two texts, one behind the other.
pub fn cat2(a: &str, b: &str) -> (r: String)
    ensures
        r@ == a@ + b@,
{
    let mut r = a.to_owned();
    r.append(b);
    r
}

/// Three texts, one behind the other.
pub fn cat3(a: &str, b: &str, c: &str) -> (r: String)
    ensures
        r@ == a@ + b@ + c@,
{
    let mut r = a.to_owned();
    r.append(b);
    r.append(c);
    r
}

/// Four texts, one behind the other.
pub fn cat4(a: &str, b: &str, c: &str, d: &str) -> (r: String)
    ensures
        r@ == a@ + b@ + c@ + d@,
{
    let mut r = a.to_owned();
    r.append(b);
    r.append(c);
    r.append(d);
    r
}

/// Five texts, one behind the other.
pub fn cat5(a: &str, b: &str, c: &str, d: &str, e: &str) -> (r: String)
    ensures
        r@ == a@ + b@ + c@ + d@ + e@,
{
    let mut r = a.to_owned();
    r.append(b);
    r.append(c);
    r.append(d);
    r.append(e);
    r
}

/// Six texts, one behind the other.
pub fn cat6(a: &str, b: &str, c: &str, d: &str, e: &str, f: &str) -> (r: String)
    ensures
        r@ == a@ + b@ + c@ + d@ + e@ + f@,
{
    let mut r = a.to_owned();
    r.append(b);
    r.append(c);
    r.append(d);
    r.append(e);
    r.append(f);
    r
}

/// Seven texts, one behind the other.
pub fn cat7(a: &str, b: &str, c: &str, d: &str, e: &str, f: &str, g: &str) -> (r: String)
    ensures
        r@ == a@ + b@ + c@ + d@ + e@ + f@ + g@,
{
    let mut r = a.to_owned();
    r.append(b);
    r.append(c);
    r.append(d);
    r.append(e);
    r.append(f);
    r.append(g);
    r
}

/// Eight texts, one behind the other.
pub fn cat8(a: &str, b: &str, c: &str, d: &str, e: &str, f: &str, g: &str, h: &str) -> (r: String)
    ensures
        r@ == a@ + b@ + c@ + d@ + e@ + f@ + g@ + h@,
{
    let mut r = a.to_owned();
    r.append(b);
    r.append(c);
    r.append(d);
    r.append(e);
    r.append(f);
    r.append(g);
    r.append(h);
    r
}

/// The texts of `list` with `sep` between each two.
pub fn join_texts(list: &Vec<String>, sep: &str) -> (r: String)
    ensures
        r@ == joined(views(list@), sep@),
{
    let ghost all = views(list@);
    let mut r = String::new();
    let mut i: usize = 0;
    assert(all.take(0) =~= seq![]);
    while i < list.len()
        invariant
            i <= list@.len(),
            all == views(list@),
            r@ == joined(all.take(i as int), sep@),
        decreases list@.len() - i,
    {
        assert(all.take(i + 1).drop_last() =~= all.take(i as int));
        if i > 0 {
            r.append(sep);
            r.append(list[i].as_str());
        } else {
            r = list[i].clone();
        }
        i = i + 1;
    }
    assert(all.take(list@.len() as int) =~= all);
    r
}

/// `char::from_u32` gives the character with a code point, and none for a
/// number that is no code point or stands for half of a surrogate pair.
pub assume_specification[ char::from_u32 ](n: u32) -> (r: Option<char>)
    ensures
        match r {
            Some(c) => c == n as char && n <= 0x10ffff && !(0xd800 <= n <= 0xdfff),
            None => 0xd800 <= n <= 0xdfff || n > 0x10ffff,
        },
;

/// What `str::to_lowercase` makes of a text.
pub uninterp spec fn lowercase(s: Seq<char>) -> Seq<char>;

/// `c` with a capital letter of ASCII made small.
pub open spec fn small(c: char) -> char {
    if 65 <= c as int <= 90 {
        (c as int + 32) as char
    } else {
        c
    }
}

/// All of `s` is ASCII.
pub open spec fn ascii(s: Seq<char>) -> bool {
    forall|i: int| 0 <= i < s.len() ==> (#[trigger] s[i] as int) < 128
}

/// `str::to_lowercase` makes the capital letters of a text small. Of a text
/// that is all ASCII, each letter is made small by itself; of others nothing is
/// said here but that the same text gives the same result.
#[verifier::external_body]
pub(crate) fn to_lowercase(s: &str) -> (r: String)
    ensures
        r@ == lowercase(s@),
        ascii(s@) ==> r@ == s@.map_values(|c: char| small(c)),
{
    s.to_lowercase()
}

/// The code point of `c`.
pub fn code(c: char) -> (n: u32)
    ensures
        n == c as int,
{
    c as u32
}

/// `a` comes before `b` in the order of code points.
pub fn is_less(a: &str, b: &str) -> (r: bool)
    ensures
        r == less(a@, b@),
{
    let x = to_chars(a);
    let y = to_chars(b);
    let mut i: usize = 0;
    assert(x@.skip(0) =~= x@);
    assert(y@.skip(0) =~= y@);
    while i < x.len() && i < y.len()
        invariant
            i <= x@.len(),
            i <= y@.len(),
            x@ == a@,
            y@ == b@,
            less(a@, b@) == less(x@.skip(i as int), y@.skip(i as int)),
        decreases x@.len() - i,
    {
        if x[i] != y[i] {
            return code(x[i]) < code(y[i]);
        }
        assert(x@.skip(i as int).skip(1) =~= x@.skip(i + 1));
        assert(y@.skip(i as int).skip(1) =~= y@.skip(i + 1));
        i = i + 1;
    }
    i < y.len()
}

pub(crate) proof fn trim_start_is_suffix(s: Seq<char>)
    ensures
        trim_start(s).len() <= s.len(),
        trim_start(s) == s.skip(s.len() - trim_start(s).len()),
        trim_start(s).len() > 0 ==> !white(trim_start(s)[0]),
        forall|i: int| 0 <= i < s.len() - trim_start(s).len() ==> white(#[trigger] s[i]),
    decreases s.len(),
{
    if s.len() > 0 && white(s[0]) {
        trim_start_is_suffix(s.skip(1));
        let k = s.len() - trim_start(s).len();
        assert(s.skip(1).skip(k - 1) =~= s.skip(k));
        assert forall|i: int| 0 <= i < k implies white(#[trigger] s[i]) by {
            if i > 0 {
                assert(white(s.skip(1)[i - 1]));
            }
        }
    } else {
        assert(s.skip(0) =~= s);
    }
}

pub(crate) proof fn trim_end_is_prefix(s: Seq<char>)
    ensures
        trim_end(s).len() <= s.len(),
        trim_end(s) == s.take(trim_end(s).len() as int),
        trim_end(s).len() > 0 ==> !white(trim_end(s).last()),
        forall|i: int| trim_end(s).len() <= i < s.len() ==> white(#[trigger] s[i]),
    decreases s.len(),
{
    if s.len() > 0 && white(s.last()) {
        trim_end_is_prefix(s.drop_last());
        let k = trim_end(s).len() as int;
        assert(s.drop_last().take(k) =~= s.take(k));
        assert forall|i: int| k <= i < s.len() implies white(#[trigger] s[i]) by {
            if i < s.len() - 1 {
                assert(white(s.drop_last()[i]));
            }
        }
    } else {
        assert(s.take(s.len() as int) =~= s);
    }
}

/// What trimming leaves is a part of the text, with no white space at either
/// end; it is empty only where the text is nothing but white space.
pub proof fn trim_is_a_part(s: Seq<char>)
    ensures
        exists|a: int, b: int| 0 <= a <= b <= s.len() && trim(s) == #[trigger] s.subrange(a, b),
        trim(s).len() > 0 ==> !white(trim(s)[0]) && !white(trim(s).last()),
        trim(s).len() == 0 <==> forall|i: int| 0 <= i < s.len() ==> white(#[trigger] s[i]),
{
    let t = trim_start(s);
    trim_start_is_suffix(s);
    trim_end_is_prefix(t);
    let a = s.len() - t.len();
    let b = a + trim(s).len();
    assert(trim(s) =~= s.subrange(a, b));
    if trim(s).len() > 0 {
        assert(trim(s)[0] == t[0]);
    } else {
        assert forall|i: int| 0 <= i < s.len() implies white(#[trigger] s[i]) by {
            if i >= a {
                assert(t[i - a] == s[i]);
            }
        }
    }
    if forall|i: int| 0 <= i < s.len() ==> white(#[trigger] s[i]) {
        if trim(s).len() > 0 {
            assert(trim(s)[0] == s[a]);
            assert(false);
        }
    }
}

} // verus!
