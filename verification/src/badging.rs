//! What an app's package says of itself, and the name that is made of it.

use crate::text::{
    after, before, begins, code, ends, ends_with, find, find_chars, lines, slice_text,
    starts_with, text_after, text_before, text_lines, to_chars, trim, trimmed, views, white,
};
use vstd::prelude::*;

verus! {

/// What stands in `s` behind the first `key`, up to the quotation mark that
/// follows it.
pub open spec fn quoted_after(s: Seq<char>, key: Seq<char>) -> Option<Seq<char>> {
    match after(s, key) {
        None => None,
        Some(rest) => match find(rest, "'"@) {
            None => None,
            Some(end) => Some(rest.take(end)),
        },
    }
}

/// What stands behind the first `key`, up to the quotation mark that follows it.
pub fn extract(badging: &str, key: &str) -> (r: Option<String>)
    ensures
        crate::step::text_of(r) == quoted_after(badging@, key@),
{
    match text_after(badging, key) {
        None => None,
        Some(rest) => {
            let v = to_chars(rest.as_str());
            let mark = to_chars("'");
            match find_chars(&v, &mark, 0) {
                None => None,
                Some(end) => {
                    proof {
                        crate::text::find_from_is_first(v@, "'"@, 0);
                        reveal_strlit("'");
                    }
                    let r = slice_text(&v, 0, end);
                    assert(r@ =~= v@.take(end as int));
                    Some(r)
                },
            }
        },
    }
}

/// The icon that a line names: a picture made of pixels.
pub open spec fn icon_in_line(line: Seq<char>) -> Option<Seq<char>> {
    if starts_with(line, "application-icon-"@) {
        match quoted_after(line, ":'"@) {
            Some(p) => if ends_with(p, ".png"@) || ends_with(p, ".webp"@) {
                Some(p)
            } else {
                None
            },
            None => None,
        }
    } else {
        None
    }
}

/// The last icon that the lines name. The densest one comes last.
pub open spec fn last_icon(ls: Seq<Seq<char>>) -> Option<Seq<char>>
    decreases ls.len(),
{
    if ls.len() == 0 {
        None
    } else if icon_in_line(ls.last()) is Some {
        icon_in_line(ls.last())
    } else {
        last_icon(ls.drop_last())
    }
}

fn line_icon(line: &str) -> (r: Option<String>)
    ensures
        crate::step::text_of(r) == icon_in_line(line@),
{
    if !begins(line, "application-icon-") {
        return None;
    }
    match extract(line, ":'") {
        Some(p) => if ends(p.as_str(), ".png") || ends(p.as_str(), ".webp") {
            Some(p)
        } else {
            None
        },
        None => None,
    }
}

/// The densest icon that the package names, of those made of pixels.
pub fn icon_path(badging: &str) -> (r: Option<String>)
    ensures
        crate::step::text_of(r) == last_icon(lines(badging@)),
{
    let ls = text_lines(badging);
    let ghost all = views(ls@);
    let mut n: usize = ls.len();
    assert(all.take(n as int) =~= all);
    while n > 0
        invariant
            n <= ls.len(),
            all == views(ls@),
            all == lines(badging@),
            last_icon(all) == last_icon(all.take(n as int)),
        decreases n,
    {
        assert(all.take(n as int).last() == ls@[n - 1]@);
        assert(all.take(n as int).drop_last() =~= all.take(n - 1));
        let icon = line_icon(ls[n - 1].as_str());
        if icon.is_some() {
            return icon;
        }
        n = n - 1;
    }
    None
}

/// What an app's package says of itself.
#[derive(Debug)]
pub struct ApkInfo {
    pub label: String,
    pub package: String,
    pub version: String,
    pub min_sdk: String,
    pub size_bytes: u64,
}

/// What the app is called: its label, its English one, or its package.
pub open spec fn label_in(badging: Seq<char>, package: Seq<char>) -> Seq<char> {
    match quoted_after(badging, "application-label:'"@) {
        Some(label) => label,
        None => match quoted_after(badging, "application-label-en:'"@) {
            Some(label) => label,
            None => package,
        },
    }
}

/// What the app is called.
pub fn label_of(badging: &str, package: &str) -> (r: String)
    ensures
        r@ == label_in(badging@, package@),
{
    match extract(badging, "application-label:'") {
        Some(label) => label,
        None => match extract(badging, "application-label-en:'") {
            Some(label) => label,
            None => package.to_owned(),
        },
    }
}

/// `s`, or a question mark where there is none.
pub open spec fn or_unknown(s: Option<Seq<char>>) -> Seq<char> {
    match s {
        Some(t) => t,
        None => "?"@,
    }
}

/// `info` is what the package says of itself, with a file of `size` bytes.
pub open spec fn is_info(info: ApkInfo, badging: Seq<char>, size: int) -> bool {
    &&& quoted_after(badging, "package: name='"@) == Some(info.package@)
    &&& info.label@ == label_in(badging, info.package@)
    &&& info.version@ == or_unknown(quoted_after(badging, "versionName='"@))
    &&& info.min_sdk@ == or_unknown(quoted_after(badging, "sdkVersion:'"@))
    &&& info.size_bytes == size
}

/// What the package says of itself; none where it does not say what it is.
pub fn info_of(badging: &str, size: u64) -> (r: Option<ApkInfo>)
    ensures
        match r {
            Some(info) => is_info(info, badging@, size as int),
            None => quoted_after(badging@, "package: name='"@) is None,
        },
{
    match extract(badging, "package: name='") {
        None => None,
        Some(package) => {
            let label = label_of(badging, package.as_str());
            let version = match extract(badging, "versionName='") {
                Some(v) => v,
                None => "?".to_owned(),
            };
            let min_sdk = match extract(badging, "sdkVersion:'") {
                Some(v) => v,
                None => "?".to_owned(),
            };
            Some(ApkInfo { label, package, version, min_sdk, size_bytes: size })
        },
    }
}

/// A control character.
pub open spec fn control(c: char) -> bool {
    (c as int) < 0x20 || 0x7f <= c as int <= 0x9f
}

/// `c` as it may stand in the name of a file.
pub open spec fn clean(c: char) -> char {
    if c == '/' || c == ':' || c == '\\' {
        '-'
    } else if control(c) {
        ' '
    } else {
        c
    }
}

/// `s` as it may stand in the name of a file.
pub open spec fn cleaned(s: Seq<char>) -> Seq<char> {
    s.map_values(|c: char| clean(c))
}

/// `s` without the dots that it begins with.
pub open spec fn without_dots(s: Seq<char>) -> Seq<char>
    decreases s.len(),
{
    if s.len() > 0 && s[0] == '.' {
        without_dots(s.skip(1))
    } else {
        s
    }
}

/// The first `n` characters of `s`, or all where there are fewer.
pub open spec fn at_most(s: Seq<char>, n: int) -> Seq<char> {
    if s.len() <= n {
        s
    } else {
        s.take(n)
    }
}

/// The first clause of a cleaned label, without the dots before it.
pub open spec fn first_clause(s: Seq<char>) -> Seq<char> {
    trim(without_dots(trim(before(before(s, " - "@), "-"@))))
}

/// `s` with dashes for the dots that it begins with.
pub open spec fn undotted(s: Seq<char>) -> Seq<char>
    decreases s.len(),
{
    if s.len() > 0 && s[0] == '.' {
        seq!['-'] + undotted(s.skip(1))
    } else {
        s
    }
}

/// The part of a label that makes the name: its first clause, or all of it
/// where nothing is left of that, or a dash where nothing is left at all. What
/// begins with a dot would be hidden, so it begins with a dash instead.
pub open spec fn chosen(label: Seq<char>) -> Seq<char> {
    let s = cleaned(label);
    if first_clause(s).len() > 0 {
        undotted(first_clause(s))
    } else if trim(s).len() > 0 {
        undotted(trim(s))
    } else {
        "-"@
    }
}

/// The name that is made of a label.
pub open spec fn name_of(label: Seq<char>) -> Seq<char> {
    trim(at_most(chosen(label), 40))
}

fn clean_char(c: char) -> (r: char)
    ensures
        r == clean(c),
{
    let n: u32 = code(c);
    if c == '/' || c == ':' || c == '\\' {
        '-'
    } else if n < 0x20 || (0x7f <= n && n <= 0x9f) {
        ' '
    } else {
        c
    }
}

fn clean_text(s: &str) -> (r: String)
    ensures
        r@ == cleaned(s@),
{
    let v = to_chars(s);
    let mut r = String::new();
    let mut i: usize = 0;
    while i < v.len()
        invariant
            i <= v.len(),
            v@ == s@,
            r@ == cleaned(s@).take(i as int),
        decreases v.len() - i,
    {
        r.push(clean_char(v[i]));
        assert(r@ =~= cleaned(s@).take(i + 1));
        i = i + 1;
    }
    assert(cleaned(s@).take(s@.len() as int) =~= cleaned(s@));
    r
}

fn drop_dots(s: &str) -> (r: String)
    ensures
        r@ == without_dots(s@),
{
    let v = to_chars(s);
    let mut i: usize = 0;
    assert(v@.skip(0) =~= v@);
    while i < v.len() && v[i] == '.'
        invariant
            i <= v.len(),
            without_dots(v@) == without_dots(v@.skip(i as int)),
        decreases v.len() - i,
    {
        assert(v@.skip(i as int).skip(1) =~= v@.skip(i + 1));
        i = i + 1;
    }
    assert(v@.skip(i as int) =~= v@.subrange(i as int, v@.len() as int));
    slice_text(&v, i, v.len())
}

fn undot(s: &str) -> (r: String)
    ensures
        r@ == undotted(s@),
{
    let v = to_chars(s);
    let mut r = String::new();
    let mut i: usize = 0;
    assert(v@.skip(0) =~= v@);
    assert(r@ + undotted(v@) =~= undotted(v@));
    while i < v.len() && v[i] == '.'
        invariant
            i <= v.len(),
            undotted(v@) == r@ + undotted(v@.skip(i as int)),
        decreases v.len() - i,
    {
        let ghost rest = undotted(v@.skip(i + 1));
        assert(v@.skip(i as int).skip(1) =~= v@.skip(i + 1));
        assert(r@ + (seq!['-'] + rest) =~= r@.push('-') + rest);
        r.push('-');
        i = i + 1;
    }
    assert(v@.skip(i as int) =~= v@.subrange(i as int, v@.len() as int));
    r.append(slice_text(&v, i, v.len()).as_str());
    r
}

/// The name that is made of a label: its first clause, without what cannot
/// stand in the name of a file, and short enough to be read. It is neither
/// empty nor hidden.
pub fn safe_name(label: &str) -> (r: String)
    ensures
        r@ == name_of(label@),
{
    let all = clean_text(label);
    let first = text_before(text_before(all.as_str(), " - ").as_str(), "-");
    let clause = trimmed(drop_dots(trimmed(first.as_str()).as_str()).as_str());
    let whole = trimmed(all.as_str());
    let name = if clause.as_str().unicode_len() > 0 {
        undot(clause.as_str())
    } else if whole.as_str().unicode_len() > 0 {
        undot(whole.as_str())
    } else {
        "-".to_owned()
    };
    let v = to_chars(name.as_str());
    if v.len() <= 40 {
        trimmed(name.as_str())
    } else {
        let short = slice_text(&v, 0, 40);
        assert(short@ =~= v@.take(40));
        trimmed(short.as_str())
    }
}

/// `c` may stand in the name of a file.
pub open spec fn harmless(c: char) -> bool {
    c != '/' && c != ':' && c != '\\' && !control(c)
}

/// Every character of `s` may stand in the name of a file.
pub open spec fn all_harmless(s: Seq<char>) -> bool {
    forall|i: int| 0 <= i < s.len() ==> harmless(#[trigger] s[i])
}

proof fn part_is_harmless(s: Seq<char>, a: int, b: int)
    requires
        all_harmless(s),
        0 <= a <= b <= s.len(),
    ensures
        all_harmless(s.subrange(a, b)),
{
    assert forall|i: int| 0 <= i < s.subrange(a, b).len() implies harmless(
        #[trigger] s.subrange(a, b)[i],
    ) by {
        assert(harmless(s[a + i]));
    }
}

proof fn trim_is_harmless(s: Seq<char>)
    requires
        all_harmless(s),
    ensures
        all_harmless(trim(s)),
{
    crate::text::trim_is_a_part(s);
    let (a, b) = choose|a: int, b: int|
        0 <= a <= b <= s.len() && trim(s) == #[trigger] s.subrange(a, b);
    part_is_harmless(s, a, b);
}

proof fn before_is_harmless(s: Seq<char>, p: Seq<char>)
    requires
        all_harmless(s),
    ensures
        all_harmless(before(s, p)),
{
    crate::text::find_from_is_first(s, p, 0);
    if let Some(i) = find(s, p) {
        assert(s.take(i) =~= s.subrange(0, i));
        part_is_harmless(s, 0, i);
    }
}

proof fn dots_are_harmless(s: Seq<char>)
    requires
        all_harmless(s),
    ensures
        all_harmless(without_dots(s)),
    decreases s.len(),
{
    if s.len() > 0 && s[0] == '.' {
        assert(s.skip(1) =~= s.subrange(1, s.len() as int));
        part_is_harmless(s, 1, s.len() as int);
        dots_are_harmless(s.skip(1));
    }
}

proof fn undotted_is_harmless(s: Seq<char>)
    requires
        all_harmless(s),
    ensures
        all_harmless(undotted(s)),
        undotted(s).len() == s.len(),
        s.len() > 0 ==> undotted(s)[0] != '.',
        s.len() > 0 && !white(s[0]) ==> !white(undotted(s)[0]),
    decreases s.len(),
{
    if s.len() > 0 && s[0] == '.' {
        assert(s.skip(1) =~= s.subrange(1, s.len() as int));
        part_is_harmless(s, 1, s.len() as int);
        undotted_is_harmless(s.skip(1));
        let rest = undotted(s.skip(1));
        assert forall|i: int| 0 <= i < undotted(s).len() implies harmless(
            #[trigger] undotted(s)[i],
        ) by {
            if i > 0 {
                assert(harmless(rest[i - 1]));
            }
        }
    }
}

/// What makes a name is harmless, and neither empty nor hidden nor begun by
/// white space.
proof fn choice_is_good(label: Seq<char>)
    ensures
        all_harmless(chosen(label)),
        chosen(label).len() > 0,
        chosen(label)[0] != '.',
        !white(chosen(label)[0]),
{
    let s = cleaned(label);
    assert forall|i: int| 0 <= i < s.len() implies harmless(#[trigger] s[i]) by {
        assert(s[i] == clean(label[i]));
    }
    let f = before(before(s, " - "@), "-"@);
    before_is_harmless(s, " - "@);
    before_is_harmless(before(s, " - "@), "-"@);
    trim_is_harmless(f);
    dots_are_harmless(trim(f));
    trim_is_harmless(without_dots(trim(f)));
    trim_is_harmless(s);
    crate::text::trim_is_a_part(without_dots(trim(f)));
    crate::text::trim_is_a_part(s);
    undotted_is_harmless(first_clause(s));
    undotted_is_harmless(trim(s));
    reveal_strlit("-");
}

/// No character of a name separates the parts of a path, upsets the file
/// manager, or is a control character; and a name has at most forty characters.
pub proof fn names_are_harmless(label: Seq<char>)
    ensures
        all_harmless(name_of(label)),
        name_of(label).len() <= 40,
{
    let c = chosen(label);
    choice_is_good(label);
    if c.len() > 40 {
        assert(c.take(40) =~= c.subrange(0, 40));
        part_is_harmless(c, 0, 40);
    }
    let t = at_most(c, 40);
    trim_is_harmless(t);
    crate::text::trim_is_a_part(t);
    let (a, b) = choose|a: int, b: int|
        0 <= a <= b <= t.len() && trim(t) == #[trigger] t.subrange(a, b);
}

/// A name is never empty, and never hidden: it does not begin with a dot.
pub proof fn names_are_visible(label: Seq<char>)
    ensures
        name_of(label).len() > 0,
        name_of(label)[0] != '.',
{
    let c = chosen(label);
    choice_is_good(label);
    let t = at_most(c, 40);
    assert(t[0] == c[0]);
    crate::text::trim_start_is_suffix(t);
    assert(crate::text::trim_start(t) == t);
    crate::text::trim_end_is_prefix(t);
    crate::text::trim_is_a_part(t);
}

/// What a package says under a key is read as it was written, up to the first
/// quotation mark, where the key stands nowhere before.
pub proof fn quoted_text_reads_back(
    front: Seq<char>,
    key: Seq<char>,
    value: Seq<char>,
    rest: Seq<char>,
)
    requires
        forall|j: int|
            0 <= j < front.len() ==> !crate::text::occurs_at(
                front + key + value + seq!['\''] + rest,
                key,
                j,
            ),
        forall|i: int| 0 <= i < value.len() ==> value[i] != '\'',
    ensures
        quoted_after(front + key + value + seq!['\''] + rest, key) == Some(value),
{
    let s = front + key + value + seq!['\''] + rest;
    reveal_strlit("'");
    crate::text::find_from_is_first(s, key, 0);
    let at = front.len() as int;
    assert(s.subrange(at, at + key.len()) =~= key);
    assert(crate::text::occurs_at(s, key, at));
    assert(find(s, key) == Some(at));
    let tail = s.skip(at + key.len());
    assert(tail =~= value + seq!['\''] + rest);
    let q = "'"@;
    assert(q =~= seq!['\'']);
    crate::text::find_from_is_first(tail, q, 0);
    let end = value.len() as int;
    assert(tail.subrange(end, end + 1) =~= q);
    assert(crate::text::occurs_at(tail, q, end));
    if let Some(k) = find(tail, q) {
        if k < end {
            assert(tail.subrange(k, k + 1)[0] == value[k]);
        }
    }
    assert(tail.take(end) =~= value);
}

/// The icon of a package is the last one that its lines name, the densest: one
/// made of pixels, and none of another kind.
pub proof fn the_last_icon_counts(ls: Seq<Seq<char>>, i: int)
    requires
        0 <= i < ls.len(),
        icon_in_line(ls[i]) is Some,
        forall|j: int| i < j < ls.len() ==> icon_in_line(#[trigger] ls[j]) is None,
    ensures
        last_icon(ls) == icon_in_line(ls[i]),
        ends_with(last_icon(ls)->0, ".png"@) || ends_with(last_icon(ls)->0, ".webp"@),
        starts_with(ls[i], "application-icon-"@),
        quoted_after(ls[i], ":'"@) == last_icon(ls),
    decreases ls.len(),
{
    if i < ls.len() - 1 {
        let front = ls.drop_last();
        assert(icon_in_line(ls[ls.len() - 1]) is None);
        assert(front[i] == ls[i]);
        assert(forall|j: int| i < j < front.len() ==> front[j] == ls[j]);
        the_last_icon_counts(front, i);
    }
}

/// What the app is called is its label where it has one, then its English label,
/// and its package only where it has neither.
pub proof fn labels_count_in_order(badging: Seq<char>, package: Seq<char>)
    ensures
        quoted_after(badging, "application-label:'"@) matches Some(label) ==> label_in(
            badging,
            package,
        ) == label,
        quoted_after(badging, "application-label:'"@) is None ==> (quoted_after(
            badging,
            "application-label-en:'"@,
        ) matches Some(label) ==> label_in(badging, package) == label),
        quoted_after(badging, "application-label:'"@) is None && quoted_after(
            badging,
            "application-label-en:'"@,
        ) is None ==> label_in(badging, package) == package,
{
}

/// A label that can be the name of a file as it stands is the name: a short one
/// without marks, dashes or blanks at its ends.
pub proof fn plain_labels_are_names(label: Seq<char>)
    requires
        0 < label.len() <= 40,
        all_harmless(label),
        forall|i: int| 0 <= i < label.len() ==> #[trigger] label[i] != '-',
        label[0] != '.',
        !crate::text::white(label[0]),
        !crate::text::white(label.last()),
    ensures
        name_of(label) == label,
{
    assert(cleaned(label) =~= label) by {
        assert forall|i: int| 0 <= i < label.len() implies cleaned(label)[i] == label[i] by {
            assert(harmless(label[i]));
        }
    }
    reveal_strlit(" - ");
    reveal_strlit("-");
    no_dash(label, " - "@, 1);
    no_dash(label, "-"@, 0);
    assert(trim(label) == label);
    assert(without_dots(label) == label);
    assert(first_clause(label) == label);
    assert(undotted(label) == label);
}

proof fn no_dash(s: Seq<char>, p: Seq<char>, k: int)
    requires
        0 <= k < p.len(),
        p[k] == '-',
        forall|i: int| 0 <= i < s.len() ==> #[trigger] s[i] != '-',
    ensures
        before(s, p) == s,
{
    crate::text::find_from_is_first(s, p, 0);
    if let Some(j) = find(s, p) {
        assert(s.subrange(j, j + p.len())[k] == s[j + k]);
    }
}

/// Of a label in clauses the first one is the name.
pub proof fn the_first_clause_is_the_name(label: Seq<char>, rest: Seq<char>)
    requires
        0 < label.len() <= 40,
        all_harmless(label),
        forall|i: int| 0 <= i < label.len() ==> #[trigger] label[i] != '-',
        label[0] != '.',
        !crate::text::white(label[0]),
        !crate::text::white(label.last()),
        all_harmless(rest),
    ensures
        name_of(label + " - "@ + rest) == label,
        name_of(label + "-"@ + rest) == label,
{
    reveal_strlit(" - ");
    reveal_strlit("-");
    clause_before(label, " - "@, rest);
    clause_before(label, "-"@, rest);
}

proof fn clause_before(label: Seq<char>, mark: Seq<char>, rest: Seq<char>)
    requires
        0 < label.len() <= 40,
        all_harmless(label),
        forall|i: int| 0 <= i < label.len() ==> #[trigger] label[i] != '-',
        label[0] != '.',
        !crate::text::white(label[0]),
        !crate::text::white(label.last()),
        all_harmless(rest),
        mark =~= " - "@ || mark =~= "-"@,
    ensures
        name_of(label + mark + rest) == label,
{
    let s = label + mark + rest;
    reveal_strlit(" - ");
    reveal_strlit("-");
    assert(cleaned(s) =~= s) by {
        assert forall|i: int| 0 <= i < s.len() implies cleaned(s)[i] == s[i] by {
            if i < label.len() {
                assert(harmless(label[i]));
            } else if i >= label.len() + mark.len() {
                assert(harmless(rest[i - label.len() - mark.len()]));
            }
        }
    }
    let t = before(s, " - "@);
    crate::text::find_from_is_first(s, " - "@, 0);
    if let Some(k) = find(s, " - "@) {
        assert(s.subrange(k, k + 3)[1] == s[k + 1]);
        assert(k + 1 >= label.len());
        if mark =~= " - "@ {
            let at = label.len() as int;
            assert(s.subrange(at, at + 3) =~= " - "@);
            assert(crate::text::occurs_at(s, " - "@, at));
            if k < at {
                assert(s.subrange(k, k + 3)[0] == label.last());
                assert(crate::text::white(' '));
            }
            assert(k == at);
            assert(t =~= label);
        } else {
            if k < label.len() {
                assert(s.subrange(k, k + 3)[0] == label.last());
                assert(crate::text::white(' '));
            }
        }
    } else if mark =~= " - "@ {
        let at = label.len() as int;
        assert(s.subrange(at, at + 3) =~= " - "@);
        assert(crate::text::occurs_at(s, " - "@, at));
    }
    if mark =~= "-"@ {
        let at = label.len() as int;
        crate::text::find_from_is_first(t, "-"@, 0);
        if t.len() > at {
            assert(t[at] == '-');
            assert(t.subrange(at, at + 1) =~= "-"@);
            assert(crate::text::occurs_at(t, "-"@, at));
            let k = find(t, "-"@)->0;
            if k < at {
                assert(t.subrange(k, k + 1)[0] == label[k]);
            }
            assert(t.take(at) =~= label);
        } else {
            assert(t =~= label);
            no_dash(label, "-"@, 0);
        }
    } else {
        no_dash(label, "-"@, 0);
    }
    assert(before(t, "-"@) =~= label);
    assert(trim(label) == label);
    assert(without_dots(label) == label);
    assert(first_clause(s) == label);
    assert(undotted(label) == label);
}

} // verus!
