//! The icon of an app: the densest picture in its package, and the icon file
//! that is made of it.

use crate::badging::{icon_path, last_icon};
use crate::host::Host;
use crate::number::{dec, decimal, parse_u32, unsigned};
use crate::step::{failure_of, Act, Action, Entry, Plan, Reply, Step};
use crate::subprocess::{from_utf8_lossy, lossy, plain, CommandLine, Invocation};
use crate::text::{
    cat2, contains, includes, lines, list3, list5, list7, list9, push_text, slice_text, text_lines,
    to_chars, views,
};
use vstd::prelude::*;

verus! {

/// What a program wrote to its first output, or what the system said where it
/// could not be launched.
pub open spec fn stdout_of(r: Reply) -> Result<Seq<u8>, Seq<char>> {
    match r {
        Reply::Ran(Ok(out)) => Ok(out.stdout@),
        Reply::Ran(Err(e)) => Err(e@),
        _ => Err(seq![]),
    }
}

/// A program was run and ended with the status zero.
pub open spec fn succeeded(r: Reply) -> bool {
    r matches Reply::Ran(Ok(out)) && out.code == Some(0i32)
}

/// What a program wrote to its second output.
pub open spec fn stderr_text(r: Reply) -> Seq<char> {
    match r {
        Reply::Ran(Ok(out)) => lossy(out.stderr@),
        _ => seq![],
    }
}

/// What follows the last blank of `s`, or all of it.
pub open spec fn last_word(s: Seq<char>) -> Seq<char>
    decreases s.len(),
{
    if s.len() == 0 || s.last() == ' ' {
        seq![]
    } else {
        last_word(s.drop_last()).push(s.last())
    }
}

/// The number at the end of the first line that holds `key`.
pub open spec fn dimension(ls: Seq<Seq<char>>, key: Seq<char>) -> Option<int>
    decreases ls.len(),
{
    if ls.len() == 0 {
        None
    } else if contains(ls[0], key) {
        unsigned(last_word(ls[0]), u32::MAX as int)
    } else {
        dimension(ls.skip(1), key)
    }
}

/// How well a picture does for an icon, by its size and by whether its name
/// says that it is one. None where it does not do at all: it is not square, or
/// too small or too large.
pub open spec fn score(host: Host, path: Seq<char>, measured: Seq<char>) -> Option<int> {
    let w = dimension(lines(measured), "pixelWidth"@);
    let h = dimension(lines(measured), "pixelHeight"@);
    if w is Some && w == h && 48 <= w->0 <= 1024 {
        Some(
            w->0 + if named_icon(host, path) {
                4096int
            } else {
                0
            },
        )
    } else {
        None
    }
}

/// The name of the file says that it is an icon.
pub open spec fn named_icon(host: Host, path: Seq<char>) -> bool {
    match host.last_part(path) {
        Some(name) => contains(name, "launcher"@) || contains(name, "icon"@),
        None => false,
    }
}

/// The better of what was found before and one more picture: a later one has to
/// do better, not as well.
pub open spec fn better(
    host: Host,
    best: Option<(int, Seq<char>)>,
    path: Seq<char>,
    measured: Seq<char>,
) -> Option<(int, Seq<char>)> {
    match score(host, path, measured) {
        None => best,
        Some(s) => match best {
            None => Some((s, path)),
            Some((b, _)) => if s > b {
                Some((s, path))
            } else {
                best
            },
        },
    }
}

/// The best of the first pictures, by what was measured of each.
pub open spec fn best_of(host: Host, paths: Seq<Seq<char>>, measured: Seq<Seq<char>>) -> Option<
    (int, Seq<char>),
>
    decreases paths.len(),
{
    if paths.len() == 0 || paths.len() != measured.len() {
        None
    } else {
        better(
            host,
            best_of(host, paths.drop_last(), measured.drop_last()),
            paths.last(),
            measured.last(),
        )
    }
}

/// No picture does better than the one that is chosen, and where any does, one
/// is chosen.
pub proof fn best_is_best(host: Host, paths: Seq<Seq<char>>, measured: Seq<Seq<char>>)
    requires
        paths.len() == measured.len(),
    ensures
        forall|i: int|
            0 <= i < paths.len() && #[trigger] score(host, paths[i], measured[i]) is Some ==> (best_of(
                host,
                paths,
                measured,
            ) matches Some((b, _)) && score(host, paths[i], measured[i])->0 <= b),
        best_of(host, paths, measured) matches Some((b, p)) ==> exists|i: int|
            0 <= i < paths.len() && paths[i] == p && #[trigger] score(host, paths[i], measured[i])
                == Some(b),
    decreases paths.len(),
{
    if paths.len() > 0 {
        let ps = paths.drop_last();
        let ms = measured.drop_last();
        best_is_best(host, ps, ms);
        assert forall|i: int|
            0 <= i < paths.len() && #[trigger] score(host, paths[i], measured[i]) is Some implies (
        best_of(host, paths, measured) matches Some((b, _)) && score(host, paths[i], measured[i])->0
            <= b) by {
            if i < paths.len() - 1 {
                assert(score(host, ps[i], ms[i]) is Some);
            }
        }
        if let Some((b, p)) = best_of(host, paths, measured) {
            let n = paths.len() - 1;
            if score(host, paths[n], measured[n]) == Some(b) && paths[n] == p {
            } else {
                let i = choose|i: int|
                    0 <= i < ps.len() && ps[i] == p && #[trigger] score(host, ps[i], ms[i]) == Some(b);
                assert(score(host, paths[i], measured[i]) == Some(b));
            }
        }
    }
}

/// The directories, or the files, among the entries.
pub open spec fn select(es: Seq<Entry>, dirs: bool) -> Seq<Seq<char>>
    decreases es.len(),
{
    if es.len() == 0 {
        seq![]
    } else if es.last().is_dir == dirs {
        select(es.drop_last(), dirs).push(es.last().path@)
    } else {
        select(es.drop_last(), dirs)
    }
}

/// What a directory holds; nothing where it cannot be listed.
pub open spec fn entries_of(r: Reply) -> Seq<Entry> {
    match r {
        Reply::Entries(Some(es)) => es@,
        _ => seq![],
    }
}

/// The command that measures a picture.
pub open spec fn measure_call(path: Seq<char>) -> Invocation {
    plain("sips"@, seq!["-g"@, "pixelWidth"@, "-g"@, "pixelHeight"@, path])
}

/// The command that takes one file out of a package.
pub open spec fn unpack_call(apk: Seq<char>, icon: Seq<char>) -> Invocation {
    plain("unzip"@, seq!["-p"@, apk, icon])
}

/// The command that takes all pictures out of a package.
pub open spec fn unpack_all_call(apk: Seq<char>, dir: Seq<char>) -> Invocation {
    plain("unzip"@, seq!["-o"@, "-q"@, apk, "res/*.png"@, "res/*.webp"@, "-d"@, dir])
}

/// How pictures are measured from the one at `i` on, of which `best` is the
/// best so far. It ends with the best of all, and the replies behind those that
/// it took.
pub open spec fn measure_plan(
    host: Host,
    found: Seq<Seq<char>>,
    i: int,
    best: Option<(int, Seq<char>)>,
    replies: Seq<Reply>,
) -> Plan<(Result<Option<Seq<char>>, Seq<char>>, Seq<Reply>)>
    decreases found.len() - i,
{
    if i >= found.len() {
        Plan::Done((Ok(path_in(best)), replies))
    } else if replies.len() == 0 {
        Plan::Do(Act::Run(measure_call(found[i])))
    } else {
        match stdout_of(replies[0]) {
            Err(e) => Plan::Done((Err("sips: "@ + e), replies.skip(1))),
            Ok(bytes) => measure_plan(
                host,
                found,
                i + 1,
                better(host, best, found[i], lossy(bytes)),
                replies.skip(1),
            ),
        }
    }
}

/// The path of the best picture, where there is one.
pub open spec fn path_in(best: Option<(int, Seq<char>)>) -> Option<Seq<char>> {
    match best {
        Some((_, path)) => Some(path),
        None => None,
    }
}

/// What programs wrote to their first outputs, as texts.
pub open spec fn texts_of(replies: Seq<Reply>) -> Seq<Seq<char>> {
    replies.map_values(|r: Reply| lossy(stdout_of(r)->Ok_0))
}

/// Where each of the pictures that were found can be measured, the best of them
/// is chosen, and none where none does for an icon.
pub proof fn the_best_is_chosen(host: Host, found: Seq<Seq<char>>, replies: Seq<Reply>)
    requires
        found.len() <= replies.len(),
        forall|i: int| 0 <= i < found.len() ==> stdout_of(#[trigger] replies[i]) is Ok,
    ensures
        measure_plan(host, found, 0, None, replies) == Plan::Done(
            (
                Ok::<_, Seq<char>>(
                    path_in(
                        best_of(host, found, texts_of(replies.take(found.len() as int))),
                    ),
                ),
                replies.skip(found.len() as int),
            ),
        ),
{
    let n = found.len() as int;
    measuring_goes_on(host, found, replies, n);
    assert(found.take(n) =~= found);
}

proof fn measuring_goes_on(host: Host, found: Seq<Seq<char>>, replies: Seq<Reply>, i: int)
    requires
        0 <= i <= found.len() <= replies.len(),
        forall|k: int| 0 <= k < found.len() ==> stdout_of(#[trigger] replies[k]) is Ok,
    ensures
        measure_plan(host, found, 0, None, replies) == measure_plan(
            host,
            found,
            i,
            best_of(host, found.take(i), texts_of(replies.take(i))),
            replies.skip(i),
        ),
    decreases i,
{
    if i == 0 {
        assert(replies.skip(0) =~= replies);
    } else {
        let k = i - 1;
        measuring_goes_on(host, found, replies, k);
        assert(replies.skip(k)[0] == replies[k]);
        assert(replies.skip(k).skip(1) =~= replies.skip(i));
        assert(found.take(i).drop_last() =~= found.take(k));
        assert(texts_of(replies.take(i)).drop_last() =~= texts_of(replies.take(k)));
    }
}

/// How the directories of `stack` are searched, the last one first, where
/// `found` was found before. Where there are no pictures at all there is no icon.
pub open spec fn walk_plan(
    host: Host,
    stack: Seq<Seq<char>>,
    found: Seq<Seq<char>>,
    replies: Seq<Reply>,
) -> Plan<(Result<Option<Seq<char>>, Seq<char>>, Seq<Reply>)>
    decreases replies.len(),
{
    if stack.len() == 0 {
        measure_plan(host, found, 0, None, replies)
    } else if replies.len() == 0 {
        Plan::Do(Act::List(stack.last()))
    } else {
        let es = entries_of(replies[0]);
        walk_plan(
            host,
            stack.drop_last() + select(es, true),
            found + select(es, false),
            replies.skip(1),
        )
    }
}

/// How the icon of the package `apk`, which says `badging` of itself, is found,
/// in the directory `tmp`. Where the package names one, that is taken out;
/// otherwise all pictures are, and the best is chosen. It ends with the replies
/// behind those that it took.
pub open spec fn icon_plan(
    host: Host,
    badging: Seq<char>,
    apk: Seq<char>,
    tmp: Seq<char>,
    replies: Seq<Reply>,
) -> Plan<(Result<Option<Seq<char>>, Seq<char>>, Seq<Reply>)> {
    let raw = host.path(tmp, "icon-src"@);
    let rasters = host.path(tmp, "rasters"@);
    if replies.len() == 0 {
        Plan::Do(Act::MakeDir(tmp))
    } else if failure_of(replies[0]) is Some {
        Plan::Done((Err(failure_of(replies[0])->0), replies.skip(1)))
    } else {
        match last_icon(lines(badging)) {
            Some(path) => if replies.len() == 1 {
                Plan::Do(Act::Run(unpack_call(apk, path)))
            } else {
                match stdout_of(replies[1]) {
                    Err(e) => Plan::Done((Err("unzip: "@ + e), replies.skip(2))),
                    Ok(bytes) => if bytes.len() == 0 {
                        Plan::Done((Err("could not extract "@ + path), replies.skip(2)))
                    } else if replies.len() == 2 {
                        Plan::Do(Act::Keep(raw))
                    } else if failure_of(replies[2]) is Some {
                        Plan::Done((Err(failure_of(replies[2])->0), replies.skip(3)))
                    } else {
                        Plan::Done((Ok(Some(raw)), replies.skip(3)))
                    },
                }
            },
            None => if replies.len() == 1 {
                Plan::Do(Act::Run(unpack_all_call(apk, rasters)))
            } else {
                match stdout_of(replies[1]) {
                    Err(e) => Plan::Done((Err("unzip: "@ + e), replies.skip(2))),
                    Ok(_) => walk_plan(
                        host,
                        seq![host.path(rasters, "res"@)],
                        seq![],
                        replies.skip(2),
                    ),
                }
            },
        }
    }
}

/// `s` is what `p` says, where `all` are the replies: it ends with where the
/// replies begin that were not taken.
pub open spec fn is_search(
    s: Step<(Result<Option<String>, String>, usize)>,
    p: Plan<(Result<Option<Seq<char>>, Seq<char>>, Seq<Reply>)>,
    all: Seq<Reply>,
) -> bool {
    match (s, p) {
        (Step::Do(a), Plan::Do(b)) => a@ == b,
        (Step::Done((x, at)), Plan::Done((y, rest))) => {
            &&& at <= all.len()
            &&& rest == all.skip(at as int)
            &&& match (x, y) {
                (Ok(a), Ok(b)) => crate::step::text_of(a) == b,
                (Err(a), Err(b)) => a@ == b,
                _ => false,
            }
        },
        _ => false,
    }
}

/// What a program wrote to its first output as a text.
fn stdout_text(r: &Reply) -> (t: Result<(usize, String), String>)
    ensures
        match t {
            Ok((n, text)) => stdout_of(*r) matches Ok(b) && n == b.len() && text@ == lossy(b),
            Err(e) => stdout_of(*r) matches Err(f) && e@ == f,
        },
{
    match r {
        Reply::Ran(Ok(out)) => Ok((out.stdout.len(), from_utf8_lossy(&out.stdout))),
        Reply::Ran(Err(e)) => Err(e.clone()),
        _ => {
            let e = String::new();
            assert(e@ =~= seq![]);
            Err(e)
        },
    }
}

fn word_at_end(s: &str) -> (r: String)
    ensures
        r@ == last_word(s@),
{
    let v = to_chars(s);
    let mut i: usize = v.len();
    assert(v@.take(v@.len() as int) =~= v@);
    assert(last_word(v@.take(i as int)) + v@.skip(i as int) =~= last_word(v@));
    while i > 0 && v[i - 1] != ' '
        invariant
            i <= v.len(),
            last_word(v@.take(i as int)) + v@.skip(i as int) == last_word(v@),
        decreases i,
    {
        assert(v@.take(i as int).drop_last() =~= v@.take(i - 1));
        assert(last_word(v@.take(i - 1)) + v@.skip(i - 1) =~= last_word(v@.take(i as int))
            + v@.skip(i as int));
        i = i - 1;
    }
    assert(last_word(v@.take(i as int)) =~= seq![]);
    assert(v@.skip(i as int) =~= v@.subrange(i as int, v@.len() as int));
    let r = slice_text(&v, i, v.len());
    assert(r@ =~= last_word(v@));
    r
}

fn dimension_of(measured: &str, key: &str) -> (r: Option<u32>)
    ensures
        match r {
            Some(n) => dimension(lines(measured@), key@) == Some(n as int),
            None => dimension(lines(measured@), key@) is None,
        },
{
    let ls = text_lines(measured);
    let ghost all = views(ls@);
    let mut i: usize = 0;
    assert(all.skip(0) =~= all);
    while i < ls.len()
        invariant
            i <= ls.len(),
            all == views(ls@),
            all == lines(measured@),
            dimension(all, key@) == dimension(all.skip(i as int), key@),
        decreases ls.len() - i,
    {
        assert(all.skip(i as int)[0] == ls@[i as int]@);
        if includes(ls[i].as_str(), key) {
            return parse_u32(word_at_end(ls[i].as_str()).as_str());
        }
        assert(all.skip(i as int).skip(1) =~= all.skip(i + 1));
        i = i + 1;
    }
    None
}

fn is_named_icon(host: Host, path: &str) -> (r: bool)
    ensures
        r == named_icon(host, path@),
{
    match host.file_name(path) {
        Some(name) => includes(name.as_str(), "launcher") || includes(name.as_str(), "icon"),
        None => false,
    }
}

fn score_of(host: Host, path: &str, measured: &str) -> (r: Option<u32>)
    ensures
        match r {
            Some(n) => score(host, path@, measured@) == Some(n as int),
            None => score(host, path@, measured@) is None,
        },
{
    let w = dimension_of(measured, "pixelWidth");
    let h = dimension_of(measured, "pixelHeight");
    match (w, h) {
        (Some(w), Some(h)) => if w == h && 48 <= w && w <= 1024 {
            if is_named_icon(host, path) {
                Some(w + 4096)
            } else {
                Some(w)
            }
        } else {
            None
        },
        _ => None,
    }
}

/// What the best picture so far stands for.
pub open spec fn found_best(b: Option<(u32, String)>) -> Option<(int, Seq<char>)> {
    match b {
        Some((s, p)) => Some((s as int, p@)),
        None => None,
    }
}

/// The better of what was found before and one more picture.
pub fn better_of(
    host: Host,
    best: Option<(u32, String)>,
    path: &str,
    measured: &str,
) -> (r: Option<(u32, String)>)
    ensures
        found_best(r) == better(host, found_best(best), path@, measured@),
{
    match score_of(host, path, measured) {
        None => best,
        Some(s) => match best {
            None => Some((s, path.to_owned())),
            Some((b, p)) => if s > b {
                Some((s, path.to_owned()))
            } else {
                Some((b, p))
            },
        },
    }
}

fn push_selected(list: &mut Vec<String>, es: &Vec<Entry>, dirs: bool)
    ensures
        views(final(list)@) == views(old(list)@) + select(es@, dirs),
{
    let ghost front = views(list@);
    let mut i: usize = 0;
    assert(es@.take(0) =~= seq![]);
    assert(front + select(es@.take(0), dirs) =~= front);
    while i < es.len()
        invariant
            i <= es.len(),
            front == views(old(list)@),
            views(list@) == front + select(es@.take(i as int), dirs),
        decreases es.len() - i,
    {
        assert(es@.take(i + 1).drop_last() =~= es@.take(i as int));
        assert(es@.take(i + 1).last() == es@[i as int]);
        let ghost was = views(list@);
        if es[i].is_dir == dirs {
            push_text(list, es[i].path.as_str());
            assert(views(list@) =~= front + select(es@.take(i + 1), dirs));
        }
        i = i + 1;
    }
    assert(es@.take(es@.len() as int) =~= es@);
}

fn measure(host: Host, found: &Vec<String>, replies: &Vec<Reply>, from: usize) -> (s: Step<
    (Result<Option<String>, String>, usize),
>)
    requires
        from <= replies.len(),
    ensures
        is_search(
            s,
            measure_plan(host, views(found@), 0, None, replies@.skip(from as int)),
            replies@,
        ),
{
    let ghost paths = views(found@);
    let ghost plan = measure_plan(host, paths, 0, None, replies@.skip(from as int));
    let mut best: Option<(u32, String)> = None;
    let mut i: usize = 0;
    let mut at: usize = from;
    while i < found.len()
        invariant
            i <= found.len(),
            at <= replies.len(),
            paths == views(found@),
            plan == measure_plan(host, paths, i as int, found_best(best), replies@.skip(at as int)),
            plan == measure_plan(host, paths, 0, None, replies@.skip(from as int)),
        decreases found.len() - i,
    {
        assert(paths[i as int] == found@[i as int]@);
        if at == replies.len() {
            return Step::Do(
                Action::Run(
                    CommandLine::plain(
                        "sips",
                        list5("-g", "pixelWidth", "-g", "pixelHeight", found[i].as_str()),
                    ),
                ),
            );
        }
        assert(replies@.skip(at as int)[0] == replies@[at as int]);
        assert(replies@.skip(at as int).skip(1) =~= replies@.skip(at + 1));
        match stdout_text(&replies[at]) {
            Err(e) => {
                return Step::Done((Err(cat2("sips: ", e.as_str())), at + 1));
            },
            Ok((_, text)) => {
                best = better_of(host, best, found[i].as_str(), text.as_str());
            },
        }
        at = at + 1;
        i = i + 1;
    }
    match best {
        Some((_, path)) => Step::Done((Ok(Some(path)), at)),
        None => Step::Done((Ok(None), at)),
    }
}

fn walk(host: Host, root: String, replies: &Vec<Reply>, from: usize) -> (s: Step<
    (Result<Option<String>, String>, usize),
>)
    requires
        from <= replies.len(),
    ensures
        is_search(
            s,
            walk_plan(host, seq![root@], seq![], replies@.skip(from as int)),
            replies@,
        ),
{
    let ghost plan = walk_plan(host, seq![root@], seq![], replies@.skip(from as int));
    let ghost start = root@;
    let mut stack: Vec<String> = Vec::new();
    stack.push(root);
    let mut found: Vec<String> = Vec::new();
    let mut at: usize = from;
    assert(views(stack@) =~= seq![start]);
    assert(views(found@) =~= seq![]);
    while stack.len() > 0
        invariant
            from <= at <= replies.len(),
            plan == walk_plan(host, views(stack@), views(found@), replies@.skip(at as int)),
            plan == walk_plan(host, seq![start], seq![], replies@.skip(from as int)),
            start == root@,
        decreases replies.len() - at,
    {
        let n: usize = stack.len();
        assert(views(stack@).last() == stack@[n - 1]@);
        if at == replies.len() {
            return Step::Do(Action::List(stack[n - 1].clone()));
        }
        assert(replies@.skip(at as int)[0] == replies@[at as int]);
        let ghost before = views(stack@);
        let _ = stack.pop();
        assert(views(stack@) =~= before.drop_last());
        match &replies[at] {
            Reply::Entries(Some(es)) => {
                push_selected(&mut stack, es, true);
                push_selected(&mut found, es, false);
            },
            _ => {
                assert(views(stack@) + select(seq![], true) =~= views(stack@));
                assert(views(found@) + select(seq![], false) =~= views(found@));
            },
        }
        assert(replies@.skip(at as int).skip(1) =~= replies@.skip(at + 1));
        at = at + 1;
    }
    measure(host, &found, replies, at)
}

/// The next step of finding the icon of a package, where the replies for it
/// begin at `from`; it ends with where the replies behind it begin.
pub(crate) fn search(
    host: Host,
    badging: &str,
    apk: &str,
    tmp: &str,
    replies: &Vec<Reply>,
    from: usize,
) -> (s: Step<(Result<Option<String>, String>, usize)>)
    requires
        from <= replies.len(),
    ensures
        is_search(
            s,
            icon_plan(host, badging@, apk@, tmp@, replies@.skip(from as int)),
            replies@,
        ),
{
    let n: usize = replies.len() - from;
    if n == 0 {
        return Step::Do(Action::MakeDir(tmp.to_owned()));
    }
    assert(replies@.skip(from as int).skip(1) =~= replies@.skip(from + 1));
    if let Some(e) = replies[from].failure() {
        return Step::Done((Err(e), from + 1));
    }
    match icon_path(badging) {
        Some(path) => {
            if n == 1 {
                return Step::Do(
                    Action::Run(CommandLine::plain("unzip", list3("-p", apk, path.as_str()))),
                );
            }
            assert(replies@.skip(from as int).skip(2) =~= replies@.skip(from + 2));
            match stdout_text(&replies[from + 1]) {
                Err(e) => Step::Done((Err(cat2("unzip: ", e.as_str())), from + 2)),
                Ok((len, _)) => {
                    if len == 0 {
                        return Step::Done(
                            (Err(cat2("could not extract ", path.as_str())), from + 2),
                        );
                    }
                    let raw = host.join(tmp, "icon-src");
                    if n == 2 {
                        return Step::Do(Action::Keep(raw));
                    }
                    assert(replies@.skip(from as int).skip(3) =~= replies@.skip(from + 3));
                    match replies[from + 2].failure() {
                        Some(e) => Step::Done((Err(e), from + 3)),
                        None => Step::Done((Ok(Some(raw)), from + 3)),
                    }
                },
            }
        },
        None => {
            let rasters = host.join(tmp, "rasters");
            if n == 1 {
                return Step::Do(
                    Action::Run(
                        CommandLine::plain(
                            "unzip",
                            list7(
                                "-o",
                                "-q",
                                apk,
                                "res/*.png",
                                "res/*.webp",
                                "-d",
                                rasters.as_str(),
                            ),
                        ),
                    ),
                );
            }
            assert(replies@.skip(from as int).skip(2) =~= replies@.skip(from + 2));
            match stdout_text(&replies[from + 1]) {
                Err(e) => Step::Done((Err(cat2("unzip: ", e.as_str())), from + 2)),
                Ok(_) => walk(host, host.join(rasters.as_str(), "res"), replies, from + 2),
            }
        },
    }
}

/// The directory that an icon is taken out to, under the directory `temp`, by
/// the process with this number.
pub fn icon_dir(host: Host, temp: &str, pid: u32) -> (r: String)
    ensures
        r@ == host.path(temp@, "androlon-icon-"@ + dec(pid as int)),
{
    host.join(temp, cat2("androlon-icon-", decimal(pid as u64).as_str()).as_str())
}

/// The next step of finding the icon of the package `apk`, which says `badging`
/// of itself; `tmp` is a directory for what is taken out of it.
pub fn icon_source(host: Host, badging: &str, apk: &str, tmp: &str, replies: &Vec<Reply>) -> (s:
    Step<Result<Option<String>, String>>)
    ensures
        match (s, icon_plan(host, badging@, apk@, tmp@, replies@)) {
            (Step::Do(a), Plan::Do(b)) => a@ == b,
            (Step::Done(Ok(a)), Plan::Done((Ok(b), _))) => crate::step::text_of(a) == b,
            (Step::Done(Err(a)), Plan::Done((Err(b), _))) => a@ == b,
            _ => false,
        },
{
    assert(replies@.skip(0) =~= replies@);
    match search(host, badging, apk, tmp, replies, 0) {
        Step::Do(a) => Step::Do(a),
        Step::Done((r, _)) => Step::Done(r),
    }
}

/// The sizes of an icon file, with the names of their pictures.
pub open spec fn icon_sizes() -> Seq<(int, Seq<char>)> {
    seq![
        (16, "icon_16x16.png"@),
        (32, "icon_16x16@2x.png"@),
        (32, "icon_32x32.png"@),
        (64, "icon_32x32@2x.png"@),
        (128, "icon_128x128.png"@),
        (256, "icon_128x128@2x.png"@),
        (256, "icon_256x256.png"@),
        (512, "icon_256x256@2x.png"@),
        (512, "icon_512x512.png"@),
    ]
}

fn icon_size(k: usize) -> (r: (u64, &'static str))
    requires
        k < 9,
    ensures
        (r.0 as int, r.1@) == icon_sizes()[k as int],
{
    if k == 0 {
        (16, "icon_16x16.png")
    } else if k == 1 {
        (32, "icon_16x16@2x.png")
    } else if k == 2 {
        (32, "icon_32x32.png")
    } else if k == 3 {
        (64, "icon_32x32@2x.png")
    } else if k == 4 {
        (128, "icon_128x128.png")
    } else if k == 5 {
        (256, "icon_128x128@2x.png")
    } else if k == 6 {
        (256, "icon_256x256.png")
    } else if k == 7 {
        (512, "icon_256x256@2x.png")
    } else {
        (512, "icon_512x512.png")
    }
}

/// The command that makes one size of an icon.
pub open spec fn resize_call(host: Host, raw: Seq<char>, iconset: Seq<char>, k: int) -> Invocation {
    let size = dec(icon_sizes()[k].0);
    plain(
        "sips"@,
        seq![
            "-s"@,
            "format"@,
            "png"@,
            "-z"@,
            size,
            size,
            raw,
            "--out"@,
            host.path(iconset, icon_sizes()[k].1),
        ],
    )
}

/// The command that makes the icon file.
pub open spec fn pack_call(host: Host, iconset: Seq<char>, res_dir: Seq<char>) -> Invocation {
    plain(
        "iconutil"@,
        seq!["-c"@, "icns"@, "-o"@, host.path(res_dir, "app.icns"@), iconset],
    )
}

/// How the sizes of an icon are made from the one at `k` on. It ends with the
/// replies behind those that it took.
pub open spec fn resize_plan(
    host: Host,
    raw: Seq<char>,
    iconset: Seq<char>,
    k: int,
    replies: Seq<Reply>,
) -> Plan<(Result<(), Seq<char>>, Seq<Reply>)>
    decreases icon_sizes().len() - k,
{
    if k >= icon_sizes().len() {
        Plan::Done((Ok(()), replies))
    } else if replies.len() == 0 {
        Plan::Do(Act::Run(resize_call(host, raw, iconset, k)))
    } else {
        match stdout_of(replies[0]) {
            Err(e) => Plan::Done((Err("sips: "@ + e), replies.skip(1))),
            Ok(_) => if succeeded(replies[0]) {
                resize_plan(host, raw, iconset, k + 1, replies.skip(1))
            } else {
                Plan::Done((Err("sips failed converting the icon"@), replies.skip(1)))
            },
        }
    }
}

/// How the icon file is packed, in the directory `res_dir`, and what it was made
/// of is removed.
pub open spec fn pack_plan(
    host: Host,
    tmp: Seq<char>,
    iconset: Seq<char>,
    res_dir: Seq<char>,
    replies: Seq<Reply>,
) -> Plan<(Result<bool, Seq<char>>, Seq<Reply>)> {
    if replies.len() == 0 {
        Plan::Do(Act::Run(pack_call(host, iconset, res_dir)))
    } else {
        match stdout_of(replies[0]) {
            Err(e) => Plan::Done((Err("iconutil: "@ + e), replies.skip(1))),
            Ok(_) => if !succeeded(replies[0]) {
                Plan::Done((Err(stderr_text(replies[0])), replies.skip(1)))
            } else if replies.len() == 1 {
                Plan::Do(Act::RemoveDir(tmp))
            } else {
                Plan::Done((Ok(true), replies.skip(2)))
            },
        }
    }
}

/// How the icon file is made of the picture `raw`, in the directory `res_dir`.
pub open spec fn icns_plan(
    host: Host,
    raw: Seq<char>,
    res_dir: Seq<char>,
    replies: Seq<Reply>,
) -> Plan<(Result<bool, Seq<char>>, Seq<Reply>)> {
    let tmp = host.parent(raw);
    let iconset = host.path(tmp, "app.iconset"@);
    if replies.len() == 0 {
        Plan::Do(Act::MakeDir(iconset))
    } else if failure_of(replies[0]) is Some {
        Plan::Done((Err(failure_of(replies[0])->0), replies.skip(1)))
    } else {
        match resize_plan(host, raw, iconset, 0, replies.skip(1)) {
            Plan::Do(a) => Plan::Do(a),
            Plan::Done((Err(e), rest)) => Plan::Done((Err(e), rest)),
            Plan::Done((Ok(_), rest)) => pack_plan(host, tmp, iconset, res_dir, rest),
        }
    }
}

/// How the icon file of the package `apk`, which says `badging` of itself, is
/// made in the directory `res_dir`: its icon is found, and the file made of it.
/// A package without one is no error.
pub open spec fn build_plan(
    host: Host,
    badging: Seq<char>,
    apk: Seq<char>,
    tmp: Seq<char>,
    res_dir: Seq<char>,
    replies: Seq<Reply>,
) -> Plan<(Result<bool, Seq<char>>, Seq<Reply>)> {
    match icon_plan(host, badging, apk, tmp, replies) {
        Plan::Do(a) => Plan::Do(a),
        Plan::Done((Err(e), rest)) => Plan::Done((Err(e), rest)),
        Plan::Done((Ok(None), rest)) => Plan::Done((Ok(false), rest)),
        Plan::Done((Ok(Some(raw)), rest)) => icns_plan(host, raw, res_dir, rest),
    }
}

/// `s` is what `p` says, where `all` are the replies: it ends with where the
/// replies begin that were not taken.
pub open spec fn is_build<T>(
    s: Step<(Result<T, String>, usize)>,
    p: Plan<(Result<T, Seq<char>>, Seq<Reply>)>,
    all: Seq<Reply>,
) -> bool {
    match (s, p) {
        (Step::Do(a), Plan::Do(b)) => a@ == b,
        (Step::Done((x, at)), Plan::Done((y, rest))) => {
            &&& at <= all.len()
            &&& rest == all.skip(at as int)
            &&& match (x, y) {
                (Ok(a), Ok(b)) => a == b,
                (Err(a), Err(b)) => a@ == b,
                _ => false,
            }
        },
        _ => false,
    }
}

fn has_succeeded(r: &Reply) -> (b: bool)
    ensures
        b == succeeded(*r),
{
    match r {
        Reply::Ran(Ok(out)) => match out.code {
            Some(n) => n == 0,
            None => false,
        },
        _ => false,
    }
}

fn resize(host: Host, raw: &str, iconset: &str, replies: &Vec<Reply>, from: usize) -> (s: Step<
    (Result<(), String>, usize),
>)
    requires
        from <= replies.len(),
    ensures
        is_build(
            s,
            resize_plan(host, raw@, iconset@, 0, replies@.skip(from as int)),
            replies@,
        ),
{
    let ghost plan = resize_plan(host, raw@, iconset@, 0, replies@.skip(from as int));
    let mut k: usize = 0;
    let mut at: usize = from;
    while k < 9
        invariant
            k <= 9,
            at <= replies.len(),
            plan == resize_plan(host, raw@, iconset@, k as int, replies@.skip(at as int)),
            plan == resize_plan(host, raw@, iconset@, 0, replies@.skip(from as int)),
        decreases 9 - k,
    {
        if at == replies.len() {
            let (size, name) = icon_size(k);
            let number = decimal(size);
            let out = host.join(iconset, name);
            return Step::Do(
                Action::Run(
                    CommandLine::plain(
                        "sips",
                        list9(
                            "-s",
                            "format",
                            "png",
                            "-z",
                            number.as_str(),
                            number.as_str(),
                            raw,
                            "--out",
                            out.as_str(),
                        ),
                    ),
                ),
            );
        }
        assert(replies@.skip(at as int)[0] == replies@[at as int]);
        assert(replies@.skip(at as int).skip(1) =~= replies@.skip(at + 1));
        match stdout_text(&replies[at]) {
            Err(e) => {
                return Step::Done((Err(cat2("sips: ", e.as_str())), at + 1));
            },
            Ok(_) => {
                if !has_succeeded(&replies[at]) {
                    return Step::Done(
                        (Err("sips failed converting the icon".to_owned()), at + 1),
                    );
                }
            },
        }
        at = at + 1;
        k = k + 1;
    }
    Step::Done((Ok(()), at))
}

fn pack(
    host: Host,
    tmp: String,
    iconset: &str,
    res_dir: &str,
    replies: &Vec<Reply>,
    from: usize,
) -> (s: Step<(Result<bool, String>, usize)>)
    requires
        from <= replies.len(),
    ensures
        is_build(
            s,
            pack_plan(host, tmp@, iconset@, res_dir@, replies@.skip(from as int)),
            replies@,
        ),
{
    let n: usize = replies.len() - from;
    if n == 0 {
        let out = host.join(res_dir, "app.icns");
        return Step::Do(
            Action::Run(
                CommandLine::plain("iconutil", list5("-c", "icns", "-o", out.as_str(), iconset)),
            ),
        );
    }
    assert(replies@.skip(from as int).skip(1) =~= replies@.skip(from + 1));
    match stdout_text(&replies[from]) {
        Err(e) => Step::Done((Err(cat2("iconutil: ", e.as_str())), from + 1)),
        Ok(_) => {
            if !has_succeeded(&replies[from]) {
                let text = match &replies[from] {
                    Reply::Ran(Ok(out)) => from_utf8_lossy(&out.stderr),
                    _ => {
                        let none = String::new();
                        assert(none@ =~= seq![]);
                        none
                    },
                };
                return Step::Done((Err(text), from + 1));
            }
            if n == 1 {
                return Step::Do(Action::RemoveDir(tmp));
            }
            assert(replies@.skip(from as int).skip(2) =~= replies@.skip(from + 2));
            Step::Done((Ok(true), from + 2))
        },
    }
}

/// The next step of making the icon file of the picture `raw`, where the replies
/// for it begin at `from`.
fn make_icns(host: Host, raw: &str, res_dir: &str, replies: &Vec<Reply>, from: usize) -> (s: Step<
    (Result<bool, String>, usize),
>)
    requires
        from <= replies.len(),
    ensures
        is_build(s, icns_plan(host, raw@, res_dir@, replies@.skip(from as int)), replies@),
{
    let tmp = host.parent_of(raw);
    let iconset = host.join(tmp.as_str(), "app.iconset");
    if replies.len() == from {
        return Step::Do(Action::MakeDir(iconset));
    }
    assert(replies@.skip(from as int).skip(1) =~= replies@.skip(from + 1));
    if let Some(e) = replies[from].failure() {
        return Step::Done((Err(e), from + 1));
    }
    match resize(host, raw, iconset.as_str(), replies, from + 1) {
        Step::Do(a) => Step::Do(a),
        Step::Done((Err(e), at)) => Step::Done((Err(e), at)),
        Step::Done((Ok(_), at)) => pack(host, tmp, iconset.as_str(), res_dir, replies, at),
    }
}

/// The next step of making the icon file of a package, where the replies for it
/// begin at `from`; it ends with where the replies behind it begin.
pub(crate) fn build(
    host: Host,
    badging: &str,
    apk: &str,
    tmp: &str,
    res_dir: &str,
    replies: &Vec<Reply>,
    from: usize,
) -> (s: Step<(Result<bool, String>, usize)>)
    requires
        from <= replies.len(),
    ensures
        is_build(
            s,
            build_plan(host, badging@, apk@, tmp@, res_dir@, replies@.skip(from as int)),
            replies@,
        ),
{
    match search(host, badging, apk, tmp, replies, from) {
        Step::Do(a) => Step::Do(a),
        Step::Done((Err(e), at)) => Step::Done((Err(e), at)),
        Step::Done((Ok(None), at)) => Step::Done((Ok(false), at)),
        Step::Done((Ok(Some(raw)), at)) => make_icns(host, raw.as_str(), res_dir, replies, at),
    }
}

/// The next step of making the icon file of the package `apk`, which says
/// `badging` of itself, in the directory `res_dir`. It ends with whether there
/// is one.
pub fn build_icns(
    host: Host,
    badging: &str,
    apk: &str,
    tmp: &str,
    res_dir: &str,
    replies: &Vec<Reply>,
) -> (s: Step<Result<bool, String>>)
    ensures
        match (s, build_plan(host, badging@, apk@, tmp@, res_dir@, replies@)) {
            (Step::Do(a), Plan::Do(b)) => a@ == b,
            (Step::Done(Ok(a)), Plan::Done((Ok(b), _))) => a == b,
            (Step::Done(Err(a)), Plan::Done((Err(b), _))) => a@ == b,
            _ => false,
        },
{
    assert(replies@.skip(0) =~= replies@);
    match build(host, badging, apk, tmp, res_dir, replies, 0) {
        Step::Do(a) => Step::Do(a),
        Step::Done((r, _)) => Step::Done(r),
    }
}

/// A picture does for an icon exactly where it is square and its side lies
/// between 48 and 1024 pixels. Of two that do, one that is called an icon does
/// better than one that is not, and of two of the same kind the larger one does.
pub proof fn square_pictures_do_for_icons(
    host: Host,
    a: Seq<char>,
    b: Seq<char>,
    measured: Seq<char>,
    other: Seq<char>,
)
    ensures
        score(host, a, measured) is Some <==> (dimension(lines(measured), "pixelWidth"@) matches Some(
            w,
        ) && 48 <= w <= 1024 && dimension(lines(measured), "pixelHeight"@) == Some(w)),
        score(host, a, measured) is Some && score(host, b, other) is Some && named_icon(host, a)
            && !named_icon(host, b) ==> score(host, a, measured)->0 > score(host, b, other)->0,
        score(host, a, measured) is Some && score(host, b, other) is Some && named_icon(host, a)
            == named_icon(host, b) ==> (score(host, a, measured)->0 > score(host, b, other)->0
            <==> dimension(lines(measured), "pixelWidth"@)->0 > dimension(
            lines(other),
            "pixelWidth"@,
        )->0),
        named_icon(host, a) <==> (host.last_part(a) matches Some(name) && (contains(
            name,
            "launcher"@,
        ) || contains(name, "icon"@))),
{
}

/// The entries of a directory are told apart: each of them is among the
/// directories, or among the files, by what it is.
pub proof fn entries_are_told_apart(es: Seq<Entry>, i: int)
    requires
        0 <= i < es.len(),
    ensures
        select(es, es[i].is_dir).contains(es[i].path@),
        select(es, true).len() + select(es, false).len() == es.len(),
    decreases es.len(),
{
    reveal_with_fuel(select, 2);
    let front = es.drop_last();
    let d = es.last().is_dir;
    if front.len() > 0 {
        let k: int = if i < front.len() {
            i
        } else {
            0
        };
        entries_are_told_apart(front, k);
    }
    if i < front.len() {
        let kind = es[i].is_dir;
        let before = select(front, kind);
        assert(front[i] == es[i]);
        let j = before.index_of(es[i].path@);
        assert(before[j] == es[i].path@);
        assert(select(es, kind)[j] == es[i].path@);
    } else {
        let s = select(es, d);
        assert(s[s.len() - 1] == es[i].path@);
    }
}

/// An icon file is made exactly where every size of it was, and the file could be
/// packed: each of the nine sizes is made of the same picture, one after the
/// other, and the first one that fails ends the making.
pub proof fn every_size_of_an_icon_is_made(
    host: Host,
    raw: Seq<char>,
    iconset: Seq<char>,
    k: int,
    replies: Seq<Reply>,
)
    requires
        0 <= k <= 9,
    ensures
        resize_plan(host, raw, iconset, k, replies) matches Plan::Done((Ok(_), rest)) ==> {
            &&& replies.len() >= 9 - k
            &&& rest == replies.skip(9 - k)
            &&& forall|i: int| 0 <= i < 9 - k ==> crate::step::ran_well(#[trigger] replies[i])
        },
        resize_plan(host, raw, iconset, k, replies) matches Plan::Do(a) ==> {
            let n = replies.len() as int;
            &&& k + n < 9
            &&& forall|i: int| 0 <= i < n ==> crate::step::ran_well(#[trigger] replies[i])
            &&& a matches Act::Run(c)
            &&& c.exe == "sips"@
            &&& c.args.len() == 9
            &&& c.args[3] == "-z"@
            &&& c.args[4] == dec(icon_sizes()[k + n].0)
            &&& c.args[5] == c.args[4]
            &&& c.args[6] == raw
            &&& c.args[7] == "--out"@
            &&& c.args[8] == host.path(iconset, icon_sizes()[k + n].1)
        },
        replies.len() >= 9 - k && (forall|i: int|
            0 <= i < 9 - k ==> crate::step::ran_well(#[trigger] replies[i])) ==> (resize_plan(
            host,
            raw,
            iconset,
            k,
            replies,
        ) matches Plan::Done((Ok(_), _))),
    decreases 9 - k,
{
    if k < 9 && replies.len() > 0 {
        let rest = replies.skip(1);
        every_size_of_an_icon_is_made(host, raw, iconset, k + 1, rest);
        assert(forall|i: int| 0 <= i < rest.len() ==> rest[i] == replies[i + 1]);
        if crate::step::ran_well(replies[0]) {
            if replies.len() >= 9 - k {
                assert(rest.skip(9 - (k + 1)) =~= replies.skip(9 - k));
            }
            assert forall|i: int|
                0 <= i < replies.len() && (i == 0 || crate::step::ran_well(rest[i - 1])) implies crate::step::ran_well(
                #[trigger] replies[i],
            ) by {
            }
            assert forall|i: int| 0 <= i < rest.len() && crate::step::ran_well(replies[i + 1]) implies crate::step::ran_well(
                #[trigger] rest[i],
            ) by {
            }
        }
    } else if k == 9 {
        assert(replies.skip(0) =~= replies);
    }
}

/// The icon file of a picture is there exactly where its sizes could be made and
/// packed, in the directory for it; what it was made of is then removed.
pub proof fn an_icon_file_is_packed_of_its_sizes(
    host: Host,
    raw: Seq<char>,
    res_dir: Seq<char>,
    replies: Seq<Reply>,
)
    ensures
        ({
            let p = icns_plan(host, raw, res_dir, replies);
            let tmp = host.parent(raw);
            let iconset = host.path(tmp, "app.iconset"@);
            &&& replies.len() == 0 ==> (p matches Plan::Do(a) && a == Act::MakeDir(iconset))
            &&& p matches Plan::Done((Ok(there), rest)) ==> {
                &&& there
                &&& replies.len() >= 12
                &&& crate::step::was_done(replies[0])
                &&& forall|i: int| 1 <= i <= 10 ==> crate::step::ran_well(#[trigger] replies[i])
                &&& rest == replies.skip(12)
            }
            &&& replies.len() == 10 && crate::step::was_done(replies[0]) && (forall|i: int|
                1 <= i < 10 ==> crate::step::ran_well(#[trigger] replies[i])) ==> (p matches Plan::Do(
                Act::Run(c),
            ) && c.exe == "iconutil"@ && c.args == seq![
                "-c"@,
                "icns"@,
                "-o"@,
                host.path(res_dir, "app.icns"@),
                iconset,
            ])
        }),
{
    if replies.len() > 0 {
        let iconset = host.path(host.parent(raw), "app.iconset"@);
        let rest = replies.skip(1);
        every_size_of_an_icon_is_made(host, raw, iconset, 0, rest);
        assert(forall|i: int| 0 <= i < rest.len() ==> rest[i] == replies[i + 1]);
        if let Plan::Done((Ok(_), behind)) = resize_plan(host, raw, iconset, 0, rest) {
            assert(behind =~= replies.skip(10));
            assert forall|i: int| 1 <= i < 10 implies crate::step::ran_well(
                #[trigger] replies[i],
            ) by {
                assert(crate::step::ran_well(rest[i - 1]));
            }
            if behind.len() > 0 {
                assert(behind[0] == replies[10]);
            }
            if behind.len() > 1 {
                assert(behind.skip(2) =~= replies.skip(12));
            }
        }
        if replies.len() == 10 && (forall|i: int|
            1 <= i < 10 ==> crate::step::ran_well(#[trigger] replies[i])) {
            assert forall|i: int| 0 <= i < 9 implies crate::step::ran_well(#[trigger] rest[i]) by {
                assert(crate::step::ran_well(replies[i + 1]));
            }
        }
    }
}

/// The icon of a package is the one that it names, where it names one: that file
/// is taken out of the package, kept, and is the icon exactly where it held
/// anything and could be kept. Where it names none, all its pictures are taken
/// out.
pub proof fn a_named_icon_is_taken(
    host: Host,
    badging: Seq<char>,
    apk: Seq<char>,
    tmp: Seq<char>,
    replies: Seq<Reply>,
)
    ensures
        ({
            let p = icon_plan(host, badging, apk, tmp, replies);
            let n = replies.len();
            let made = n > 0 && crate::step::was_done(replies[0]);
            &&& n == 0 ==> (p matches Plan::Do(a) && a == Act::MakeDir(tmp))
            &&& last_icon(lines(badging)) matches Some(path) ==> {
                &&& made && n == 1 ==> (p matches Plan::Do(Act::Run(c)) && c.exe == "unzip"@
                    && c.args == seq!["-p"@, apk, path])
                &&& p matches Plan::Done((Ok(icon), rest)) ==> {
                    &&& icon == Some(host.path(tmp, "icon-src"@))
                    &&& n >= 3
                    &&& made
                    &&& replies[1] matches Reply::Ran(Ok(out))
                    &&& out.stdout@.len() > 0
                    &&& crate::step::was_done(replies[2])
                    &&& rest == replies.skip(3)
                }
                &&& made && n >= 2 ==> (replies[1] matches Reply::Ran(Ok(out)) ==> out.stdout@.len()
                    == 0 ==> (p matches Plan::Done((Err(e), _)) && e == "could not extract "@
                    + path))
                &&& made && n >= 3 && crate::step::was_done(replies[2]) ==> (replies[1] matches Reply::Ran(
                    Ok(out),
                ) ==> out.stdout@.len() > 0 ==> (p matches Plan::Done((Ok(Some(_)), _))))
            }
            &&& last_icon(lines(badging)) is None && made && n == 1 ==> (p matches Plan::Do(
                Act::Run(c),
            ) && c.exe == "unzip"@ && c.args.contains(apk) && c.args.contains("res/*.png"@)
                && c.args.contains("res/*.webp"@) && c.args.last() == host.path(tmp, "rasters"@))
        }),
{
    let c = unpack_all_call(apk, host.path(tmp, "rasters"@));
    assert(c.args[2] == apk);
    assert(c.args[3] == "res/*.png"@);
    assert(c.args[4] == "res/*.webp"@);
}

/// The side of a picture is the number at the end of the first line that speaks of
/// it, behind the last blank.
pub proof fn a_side_is_the_last_word_of_its_line(
    front: Seq<Seq<char>>,
    line: Seq<char>,
    rest: Seq<Seq<char>>,
    key: Seq<char>,
    word: Seq<char>,
)
    requires
        forall|i: int| 0 <= i < front.len() ==> !contains(#[trigger] front[i], key),
        contains(line + " "@ + word, key),
        forall|i: int| 0 <= i < word.len() ==> #[trigger] word[i] != ' ',
    ensures
        dimension(front + seq![line + " "@ + word] + rest, key) == unsigned(
            word,
            u32::MAX as int,
        ),
    decreases front.len(),
{
    let full = line + " "@ + word;
    let all = front + seq![full] + rest;
    if front.len() == 0 {
        assert(all[0] == full);
        word_behind_blank(line, word);
    } else {
        let less = front.skip(1);
        assert(all[0] == front[0]);
        assert(all.skip(1) =~= less + seq![full] + rest);
        assert(forall|i: int| 0 <= i < less.len() ==> less[i] == front[i + 1]);
        a_side_is_the_last_word_of_its_line(less, line, rest, key, word);
    }
}

proof fn word_behind_blank(line: Seq<char>, word: Seq<char>)
    requires
        forall|i: int| 0 <= i < word.len() ==> #[trigger] word[i] != ' ',
    ensures
        last_word(line + " "@ + word) == word,
    decreases word.len(),
{
    reveal_strlit(" ");
    let s = line + " "@ + word;
    if word.len() == 0 {
        assert(s.last() == ' ');
        assert(last_word(s) =~= word);
    } else {
        let less = word.drop_last();
        assert(s.drop_last() =~= line + " "@ + less);
        word_behind_blank(line, less);
        assert(less.push(word.last()) =~= word);
    }
}

/// Where a package names no icon, its pictures are searched for where they were
/// taken out to, from the replies on that come behind; without any there is no icon.
pub proof fn pictures_are_searched_for(
    host: Host,
    badging: Seq<char>,
    apk: Seq<char>,
    tmp: Seq<char>,
    replies: Seq<Reply>,
)
    requires
        last_icon(lines(badging)) is None,
        replies.len() >= 2,
        crate::step::was_done(replies[0]),
    ensures
        ({
            let p = icon_plan(host, badging, apk, tmp, replies);
            &&& replies[1] matches Reply::Ran(Err(e)) ==> (p matches Plan::Done((Err(f), rest)) && f
                == "unzip: "@ + e@ && rest == replies.skip(2))
            &&& replies[1] matches Reply::Ran(Ok(_)) ==> {
                &&& replies.len() == 2 ==> (p matches Plan::Do(a) && a == Act::List(
                    host.path(host.path(tmp, "rasters"@), "res"@),
                ))
                &&& replies.len() >= 3 && !(replies[2] matches Reply::Entries(Some(es)) && es@.len()
                    > 0) ==> (p matches Plan::Done((Ok(icon), rest)) && icon is None && rest
                    == replies.skip(3))
                &&& replies.len() == 3 ==> (replies[2] matches Reply::Entries(Some(es)) ==> es@.len()
                    == 1 ==> (p matches Plan::Do(a) && a == if es@[0].is_dir {
                    Act::List(es@[0].path@)
                } else {
                    Act::Run(
                        plain(
                            "sips"@,
                            seq!["-g"@, "pixelWidth"@, "-g"@, "pixelHeight"@, es@[0].path@],
                        ),
                    )
                }))
            }
        }),
{
    reveal_with_fuel(walk_plan, 3);
    reveal_with_fuel(measure_plan, 3);
    reveal_with_fuel(select, 3);
    let rest = replies.skip(2);
    let root = host.path(host.path(tmp, "rasters"@), "res"@);
    let stack = seq![root];
    assert(stack.last() == root);
    if replies.len() >= 3 {
        assert(rest[0] == replies[2]);
        assert(rest.skip(1) =~= replies.skip(3));
        let es = entries_of(rest[0]);
        assert(stack.drop_last() =~= Seq::<Seq<char>>::empty());
        let dirs = stack.drop_last() + select(es, true);
        let files = Seq::<Seq<char>>::empty() + select(es, false);
        assert(dirs =~= select(es, true));
        assert(files =~= select(es, false));
        if es.len() == 1 {
            let none = es.drop_last();
            assert(none.len() == 0);
            assert(select(none, true).len() == 0);
            assert(select(none, false).len() == 0);
            if es[0].is_dir {
                assert(dirs.last() == es[0].path@);
            } else {
                assert(files[0] == es[0].path@);
            }
        }
    }
}

/// A making of an icon file that fails takes the reply that it failed by, and no
/// more, and says what failed; behind one that went well the directory of its
/// pictures is removed, whatever comes of that.
pub proof fn a_failed_packing_says_why(
    host: Host,
    tmp: Seq<char>,
    iconset: Seq<char>,
    res_dir: Seq<char>,
    replies: Seq<Reply>,
)
    requires
        replies.len() > 0,
    ensures
        ({
            let p = pack_plan(host, tmp, iconset, res_dir, replies);
            &&& replies[0] matches Reply::Ran(Err(e)) ==> p == Plan::Done(
                (Err::<bool, Seq<char>>("iconutil: "@ + e@), replies.skip(1)),
            )
            &&& replies[0] matches Reply::Ran(Ok(out)) ==> out.code != Some(0i32) ==> p
                == Plan::Done((Err::<bool, Seq<char>>(lossy(out.stderr@)), replies.skip(1)))
            &&& crate::step::ran_well(replies[0]) && replies.len() == 1 ==> (p matches Plan::Do(a)
                && a == Act::RemoveDir(tmp))
            &&& crate::step::ran_well(replies[0]) && replies.len() > 1 ==> p == Plan::Done(
                (Ok::<bool, Seq<char>>(true), replies.skip(2)),
            )
        }),
{
}

/// A size of an icon that could not be made ends the making of the others, with
/// what failed, and takes no reply behind it.
pub proof fn a_failed_size_says_why(
    host: Host,
    raw: Seq<char>,
    iconset: Seq<char>,
    k: int,
    replies: Seq<Reply>,
)
    requires
        0 <= k < 9,
        replies.len() > 0,
        !crate::step::ran_well(replies[0]),
    ensures
        resize_plan(host, raw, iconset, k, replies) matches Plan::Done((Err(why), rest)) && rest
            == replies.skip(1) && (replies[0] matches Reply::Ran(Err(e)) ==> why == "sips: "@ + e@)
            && (replies[0] matches Reply::Ran(Ok(_)) ==> why == "sips failed converting the icon"@),
{
}

} // verus!
