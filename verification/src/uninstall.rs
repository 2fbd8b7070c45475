//! The uninstaller: removes an app that was made of an Android package, both
//! the bundle and the package with its data, after it has said what goes.

use crate::adb::{adb_call, shell_call, AdbService};
use crate::appify::{icon_entry, plist_text, register_tool};
use crate::config::SdkConfig;
use crate::error::problem_text;
use crate::step::{
    failure_of, is_some_text, is_texts, outcome_of, output_of, text_of, yes, Act, Action, Plan,
    Reply, Step,
};
use crate::subprocess::{plain, CommandLine, Invocation};
use crate::text::{
    after, cat2, cat3, cat7, contains, ends, ends_with, find, find_chars, find_from_is_first,
    includes, join_texts, joined, list1, list2, list3, list4, occurs_at, push_text, slice_text,
    text_after, text_words, to_chars, trim, trimmed, views, words,
};
use vstd::prelude::*;

verus! {

/// What stands between the tags behind the first `key` of a bundle's own words.
pub open spec fn value_of(plist: Seq<char>, key: Seq<char>) -> Option<Seq<char>> {
    match find(plist, "<key>"@ + key + "</key>"@) {
        None => None,
        Some(at) => match after(plist.skip(at), "<string>"@) {
            None => None,
            Some(rest) => match find(rest, "</string>"@) {
                None => None,
                Some(end) => Some(trim(rest.take(end))),
            },
        },
    }
}

/// Which app a bundle was made of: what it is called, and its package. A bundle
/// that names no package was not made of one.
pub open spec fn identity_in(plist: Seq<char>) -> Option<(Seq<char>, Seq<char>)> {
    match value_of(plist, "ANDROLON_APP"@) {
        None => None,
        Some(package) => Some(
            (
                match (value_of(plist, "CFBundleDisplayName"@), value_of(
                    plist,
                    "CFBundleName"@,
                )) {
                    (Some(name), _) => name,
                    (None, Some(name)) => name,
                    (None, None) => package,
                },
                package,
            ),
        ),
    }
}

/// What stands between the tags behind the first `key`.
pub fn plist_value_after(plist: &str, key: &str) -> (r: Option<String>)
    ensures
        text_of(r) == value_of(plist@, key@),
{
    let v = to_chars(plist);
    let tag = to_chars(cat3("<key>", key, "</key>").as_str());
    let at = match find_chars(&v, &tag, 0) {
        None => {
            return None;
        },
        Some(at) => at,
    };
    proof {
        find_from_is_first(v@, tag@, 0);
    }
    assert(v@.subrange(at as int, v@.len() as int) =~= plist@.skip(at as int));
    let rest = match text_after(slice_text(&v, at, v.len()).as_str(), "<string>") {
        None => {
            return None;
        },
        Some(rest) => rest,
    };
    let w = to_chars(rest.as_str());
    let close = to_chars("</string>");
    match find_chars(&w, &close, 0) {
        None => None,
        Some(end) => {
            proof {
                find_from_is_first(w@, close@, 0);
            }
            assert(w@.subrange(0, end as int) =~= w@.take(end as int));
            Some(trimmed(slice_text(&w, 0, end).as_str()))
        },
    }
}

/// Reads which app a bundle was made of: what it is called, and its package.
pub fn read_identity(plist: &str) -> (r: Option<(String, String)>)
    ensures
        match r {
            Some(id) => identity_in(plist@) == Some((id.0@, id.1@)),
            None => identity_in(plist@) is None,
        },
{
    match plist_value_after(plist, "ANDROLON_APP") {
        None => None,
        Some(package) => {
            let label = match plist_value_after(plist, "CFBundleDisplayName") {
                Some(name) => name,
                None => match plist_value_after(plist, "CFBundleName") {
                    Some(name) => name,
                    None => package.clone(),
                },
            };
            Some((label, package))
        },
    }
}

/// The first of `args` from `i` on that names a bundle.
pub open spec fn bundle_from(args: Seq<Seq<char>>, i: int) -> Option<Seq<char>>
    decreases args.len() - i,
{
    if i < 0 || i >= args.len() {
        None
    } else if ends_with(args[i], ".app"@) {
        Some(args[i])
    } else {
        bundle_from(args, i + 1)
    }
}

/// How the bundle that is to go is found: the first one that the program was
/// started with, where it is there.
pub open spec fn target_plan(args: Seq<Seq<char>>, replies: Seq<Reply>) -> Plan<
    Option<Seq<char>>,
> {
    match bundle_from(args, 1) {
        None => Plan::Done(None),
        Some(path) => if replies.len() == 0 {
            Plan::Do(Act::Exists(path))
        } else if yes(replies[0]) {
            Plan::Done(Some(path))
        } else {
            Plan::Done(None)
        },
    }
}

/// The next step of finding the bundle that is to go. `args` begin with the
/// program's own name. Without a bundle the user is to be asked.
pub fn target_bundle(args: &Vec<String>, replies: &Vec<Reply>) -> (s: Step<Option<String>>)
    ensures
        is_some_text(s, target_plan(views(args@), replies@)),
{
    let ghost all = views(args@);
    let mut i: usize = 1;
    while i < args.len()
        invariant
            1 <= i,
            all == views(args@),
            bundle_from(all, 1) == bundle_from(all, i as int),
        decreases args.len() - i,
    {
        assert(all[i as int] == args@[i as int]@);
        if ends(args[i].as_str(), ".app") {
            if replies.len() == 0 {
                return Step::Do(Action::Exists(args[i].clone()));
            }
            return Step::Done(
                if replies[0].is_yes() {
                    Some(args[i].clone())
                } else {
                    None
                },
            );
        }
        i = i + 1;
    }
    Step::Done(None)
}

/// The command that lists packages with this name.
pub open spec fn list_call(config: SdkConfig, package: Seq<char>) -> Invocation {
    shell_call(config, seq!["pm"@, "list"@, "packages"@, package])
}

/// The command that measures what a package has stored.
pub open spec fn measure_call(config: SdkConfig, package: Seq<char>) -> Invocation {
    shell_call(config, seq!["du"@, "-sh"@, "/data/data/"@ + package])
}

/// How it is found out what the runtime holds of a package: whether it is
/// installed, and how much it has stored.
pub open spec fn survey_plan(config: SdkConfig, package: Seq<char>, replies: Seq<Reply>) -> Plan<
    (bool, Option<Seq<char>>),
> {
    if replies.len() == 0 {
        Plan::Do(Act::Run(list_call(config, package)))
    } else if output_of(replies[0]) matches Some(text) && contains(trim(text), package) {
        if replies.len() == 1 {
            Plan::Do(Act::Run(measure_call(config, package)))
        } else {
            let all = match output_of(replies[1]) {
                Some(text) => words(trim(text)),
                None => seq![],
            };
            Plan::Done(
                (
                    true,
                    if all.len() > 0 {
                        Some(all[0])
                    } else {
                        None
                    },
                ),
            )
        }
    } else {
        Plan::Done((false, None))
    }
}

/// The next step of finding out what the runtime holds of a package.
pub fn survey(config: &SdkConfig, package: &str, replies: &Vec<Reply>) -> (s: Step<
    (bool, Option<String>),
>)
    ensures
        match (s, survey_plan(*config, package@, replies@)) {
            (Step::Do(a), Plan::Do(b)) => a@ == b,
            (Step::Done(x), Plan::Done(y)) => x.0 == y.0 && text_of(x.1) == y.1,
            _ => false,
        },
{
    let adb = AdbService::new(config);
    if replies.len() == 0 {
        return Step::Do(Action::Run(adb.shell(list4("pm", "list", "packages", package))));
    }
    let installed = match replies[0].output() {
        Some(text) => includes(trimmed(text.as_str()).as_str(), package),
        None => false,
    };
    if !installed {
        return Step::Done((false, None));
    }
    if replies.len() == 1 {
        let dir = cat2("/data/data/", package);
        return Step::Do(Action::Run(adb.shell(list3("du", "-sh", dir.as_str()))));
    }
    Step::Done(
        (
            true,
            match replies[1].output() {
                Some(text) => {
                    let all = text_words(trimmed(text.as_str()).as_str());
                    if all.len() > 0 {
                        assert(views(all@)[0] == all@[0]@);
                        Some(all[0].clone())
                    } else {
                        None
                    }
                },
                None => None,
            },
        ),
    )
}

/// A question or a message in a window of its own.
#[derive(Debug)]
pub struct Alert {
    /// Something is wrong, or something cannot be undone.
    pub warning: bool,
    pub message: String,
    pub detail: String,
    /// The first one is what the Return key presses.
    pub buttons: Vec<String>,
}

/// What is said of the data of a package.
pub open spec fn data_words(installed: bool, data: Option<Seq<char>>) -> Seq<char> {
    match (installed, data) {
        (false, _) => " (not currently installed in the runtime)"@,
        (true, Some(size)) => " and its data ("@ + size + ")"@,
        (true, None) => " and its data"@,
    }
}

/// What is said before an app goes.
pub open spec fn warning_text(
    bundle: Seq<char>,
    package: Seq<char>,
    installed: bool,
    data: Option<Seq<char>>,
) -> Seq<char> {
    "This will permanently remove:\n\n•  "@ + bundle + "\n•  the Android app “"@ + package + "”"@
        + data_words(installed, data)
        + "\n\nAnything the app saved — progress, logins, downloads — is removed with it. This cannot be undone."@
}

/// The question whether an app is to go.
pub fn question(
    label: &str,
    bundle: &str,
    package: &str,
    installed: bool,
    data: &Option<String>,
) -> (r: Alert)
    ensures
        r.warning,
        r.message@ == "Completely uninstall “"@ + label@ + "”?"@,
        r.detail@ == warning_text(bundle@, package@, installed, text_of(*data)),
        views(r.buttons@) == seq!["Cancel"@, "Uninstall"@],
{
    let held = if !installed {
        " (not currently installed in the runtime)".to_owned()
    } else {
        match data {
            Some(size) => cat3(" and its data (", size.as_str(), ")"),
            None => " and its data".to_owned(),
        }
    };
    Alert {
        warning: true,
        message: cat3("Completely uninstall “", label, "”?"),
        detail: cat7(
            "This will permanently remove:\n\n•  ",
            bundle,
            "\n•  the Android app “",
            package,
            "”",
            held.as_str(),
            "\n\nAnything the app saved — progress, logins, downloads — is removed with it. This cannot be undone.",
        ),
        buttons: list2("Cancel", "Uninstall"),
    }
}

/// The message on a bundle that was not made of a package.
pub fn not_ours(bundle: &str) -> (r: Alert)
    ensures
        r.warning,
        r.message@ == "Not an Androlon app"@,
        r.detail@ == bundle@
            + " wasn't created by Androlon, so there's no Android app behind it to remove. You can move it to the Trash yourself."@,
        views(r.buttons@) == seq!["OK"@],
{
    Alert {
        warning: true,
        message: "Not an Androlon app".to_owned(),
        detail: cat2(
            bundle,
            " wasn't created by Androlon, so there's no Android app behind it to remove. You can move it to the Trash yourself.",
        ),
        buttons: list1("OK"),
    }
}

/// The number that the system gives the first button of an alert.
pub const FIRST_BUTTON: i64 = 1000;

/// Whether the answer to the question is that the app is to go: every answer
/// but the first button.
pub fn is_confirmed(response: i64) -> (r: bool)
    ensures
        r == (response != FIRST_BUTTON),
{
    response != FIRST_BUTTON
}

/// What is said of the removal of the package, where it failed.
pub open spec fn package_problem(config: SdkConfig, package: Seq<char>, r: Reply) -> Seq<
    Seq<char>,
> {
    match outcome_of(config.host, adb_call(config, seq!["uninstall"@, package]), r) {
        Ok((status, text)) => if status == 0 {
            seq![]
        } else {
            seq!["Android app: "@ + trim(text)]
        },
        Err(e) => seq!["Android app: "@ + problem_text(e)],
    }
}

/// How the bundle goes, behind what is already said in `problems`; at last the
/// system is told to forget it.
pub open spec fn bundle_plan(bundle: Seq<char>, problems: Seq<Seq<char>>, replies: Seq<Reply>) -> Plan<
    Seq<Seq<char>>,
> {
    if replies.len() == 0 {
        Plan::Do(Act::RemoveDir(bundle))
    } else if replies.len() == 1 {
        Plan::Do(Act::Run(plain(register_tool(), seq!["-u"@, bundle])))
    } else {
        Plan::Done(
            match failure_of(replies[0]) {
                Some(e) => problems.push("Mac app: "@ + e),
                None => problems,
            },
        )
    }
}

/// How an app goes: the package where it is installed, and then the bundle,
/// whatever came of the package.
pub open spec fn removal_plan(
    config: SdkConfig,
    bundle: Seq<char>,
    package: Seq<char>,
    installed: bool,
    replies: Seq<Reply>,
) -> Plan<Seq<Seq<char>>> {
    if !installed {
        bundle_plan(bundle, seq![], replies)
    } else if replies.len() == 0 {
        Plan::Do(Act::Run(adb_call(config, seq!["uninstall"@, package])))
    } else {
        bundle_plan(bundle, package_problem(config, package, replies[0]), replies.skip(1))
    }
}

/// The next step of removing an app; it ends with what could not be removed.
pub fn remove(
    config: &SdkConfig,
    bundle: &str,
    package: &str,
    installed: bool,
    replies: &Vec<Reply>,
) -> (s: Step<Vec<String>>)
    ensures
        is_texts(s, removal_plan(*config, bundle@, package@, installed, replies@)),
{
    let mut problems: Vec<String> = Vec::new();
    assert(views(problems@) =~= seq![]);
    let mut from: usize = 0;
    assert(replies@.skip(0) =~= replies@);
    if installed {
        let c = AdbService::new(config).adb(list2("uninstall", package));
        if replies.len() == 0 {
            return Step::Do(Action::Run(c));
        }
        match replies[0].ran(config.host, &c) {
            Ok(out) => {
                if !out.ok() {
                    push_text(
                        &mut problems,
                        cat2("Android app: ", out.trimmed().as_str()).as_str(),
                    );
                }
            },
            Err(e) => {
                push_text(&mut problems, cat2("Android app: ", e.message().as_str()).as_str());
            },
        }
        assert(views(problems@) =~= package_problem(*config, package@, replies@[0]));
        from = 1;
    }
    let n: usize = replies.len() - from;
    if n == 0 {
        return Step::Do(Action::RemoveDir(bundle.to_owned()));
    }
    if n == 1 {
        return Step::Do(
            Action::Run(
                CommandLine::plain(
                    "/System/Library/Frameworks/CoreServices.framework/Frameworks/LaunchServices.framework/Support/lsregister",
                    list2("-u", bundle),
                ),
            ),
        );
    }
    if let Some(e) = replies[from].failure() {
        push_text(&mut problems, cat2("Mac app: ", e.as_str()).as_str());
    }
    Step::Done(problems)
}

/// What is said when all is done.
pub fn closing(label: &str, problems: &Vec<String>) -> (r: Alert)
    ensures
        r.warning == (problems@.len() > 0),
        if problems@.len() == 0 {
            &&& r.message@ == "“"@ + label@ + "” was removed"@
            &&& r.detail@
                == "The Mac app and the Android app it ran, along with its data, are gone."@
            &&& views(r.buttons@) == seq!["Done"@]
        } else {
            &&& r.message@ == "“"@ + label@ + "” was only partly removed"@
            &&& r.detail@ == "These parts could not be removed:\n\n"@ + joined(
                views(problems@),
                "\n"@,
            )
            &&& views(r.buttons@) == seq!["OK"@]
        },
{
    if problems.len() == 0 {
        Alert {
            warning: false,
            message: cat3("“", label, "” was removed"),
            detail: "The Mac app and the Android app it ran, along with its data, are gone.".to_owned(),
            buttons: list1("Done"),
        }
    } else {
        Alert {
            warning: true,
            message: cat3("“", label, "” was only partly removed"),
            detail: cat2(
                "These parts could not be removed:\n\n",
                join_texts(problems, "\n").as_str(),
            ),
            buttons: list1("OK"),
        }
    }
}

/// Both halves of an app go: the package where it is installed, and the bundle
/// whatever came of the package.
pub proof fn both_halves_are_removed(
    config: SdkConfig,
    bundle: Seq<char>,
    package: Seq<char>,
    reply: Reply,
)
    ensures
        removal_plan(config, bundle, package, true, seq![]) == Plan::<Seq<Seq<char>>>::Do(
            Act::Run(adb_call(config, seq!["uninstall"@, package])),
        ),
        removal_plan(config, bundle, package, true, seq![reply]) == Plan::<Seq<Seq<char>>>::Do(
            Act::RemoveDir(bundle),
        ),
        removal_plan(config, bundle, package, false, seq![]) == Plan::<Seq<Seq<char>>>::Do(
            Act::RemoveDir(bundle),
        ),
{
}

/// No `p` begins in `s`, whatever follows it: at each place some character of
/// `s` is another.
spec fn clear_of(s: Seq<char>, p: Seq<char>) -> bool {
    forall|j: int| 0 <= j < s.len() ==> #[trigger] differs(s, p, j)
}

/// `p` does not stand in `s` at `j`, as a character of `s` shows.
spec fn differs(s: Seq<char>, p: Seq<char>, j: int) -> bool {
    exists|d: int| 0 <= d < p.len() && j + d < s.len() && #[trigger] s[j + d] != p[d]
}

proof fn differs_at(s: Seq<char>, p: Seq<char>, j: int, d: int)
    requires
        0 <= d < p.len(),
        j + d < s.len(),
        s[j + d] != p[d],
    ensures
        differs(s, p, j),
{
}

proof fn clear_together(a: Seq<char>, b: Seq<char>, p: Seq<char>)
    requires
        clear_of(a, p),
        clear_of(b, p),
    ensures
        clear_of(a + b, p),
{
    let s = a + b;
    assert forall|j: int| 0 <= j < s.len() implies #[trigger] differs(s, p, j) by {
        if j < a.len() {
            assert(differs(a, p, j));
            let d = choose|d: int|
                0 <= d < p.len() && j + d < a.len() && #[trigger] a[j + d] != p[d];
            differs_at(s, p, j, d);
        } else {
            assert(differs(b, p, j - a.len()));
            let d = choose|d: int|
                0 <= d < p.len() && j - a.len() + d < b.len() && #[trigger] b[j - a.len() + d]
                    != p[d];
            assert(s[j + d] == b[j - a.len() + d]);
            differs_at(s, p, j, d);
        }
    }
}

/// Behind a text that is clear of it, `p` is found where it stands.
proof fn found_behind(a: Seq<char>, p: Seq<char>, rest: Seq<char>)
    requires
        clear_of(a, p),
    ensures
        find(a + p + rest, p) == Some(a.len() as int),
{
    let t = a + p + rest;
    find_from_is_first(t, p, 0);
    assert(t.subrange(a.len() as int, a.len() as int + p.len()) =~= p);
    assert(occurs_at(t, p, a.len() as int));
    if let Some(k) = find(t, p) {
        if k < a.len() {
            assert(differs(a, p, k));
            let d = choose|d: int|
                0 <= d < p.len() && k + d < a.len() && #[trigger] a[k + d] != p[d];
            assert(t.subrange(k, k + p.len())[d] == t[k + d]);
        }
    }
}

/// The tags around a key.
spec fn tag(key: Seq<char>) -> Seq<char> {
    "<key>"@ + key + "</key>"@
}

/// A value without a tag for `key` in it is clear of one, together with the
/// literal `tail` that closes it.
proof fn value_is_clear(v: Seq<char>, key: Seq<char>, tail: Seq<char>)
    requires
        !contains(v, tag(key)),
        forall|i: int| 0 <= i < key.len() ==> key[i] != '<',
        tail.len() > 2,
        tail[0] == '<',
        tail[1] == '/',
        tail[2] == 's',
        clear_of(tail, tag(key)),
    ensures
        clear_of(v + tail, tag(key)),
{
    reveal_strlit("<key>");
    reveal_strlit("</key>");
    let p = tag(key);
    let s = v + tail;
    find_from_is_first(v, p, 0);
    assert forall|j: int| 0 <= j < s.len() implies #[trigger] differs(s, p, j) by {
        if j >= v.len() {
            assert(differs(tail, p, j - v.len()));
            let d = choose|d: int|
                0 <= d < p.len() && j - v.len() + d < tail.len() && #[trigger] tail[j - v.len() + d]
                    != p[d];
            assert(s[j + d] == tail[j - v.len() + d]);
            differs_at(s, p, j, d);
        } else if j + p.len() <= v.len() {
            assert(!occurs_at(v, p, j));
            let part = v.subrange(j, j + p.len());
            if forall|d: int| 0 <= d < p.len() ==> part[d] == p[d] {
                assert(part =~= p);
            }
            let d = choose|d: int| 0 <= d < p.len() && part[d] != p[d];
            assert(s[j + d] == part[d]);
            differs_at(s, p, j, d);
        } else {
            let d = v.len() - j;
            assert(s[j + d] == '<');
            if d == 5 + key.len() {
                assert(s[j + d + 2] == 's');
                assert(p[d + 2] == 'k');
                differs_at(s, p, j, d + 2);
            } else {
                assert(p[d] != '<');
                differs_at(s, p, j, d);
            }
        }
    }
}

/// A value without a closing tag ends at the closing tag behind it.
proof fn value_ends(v: Seq<char>, rest: Seq<char>)
    requires
        !contains(v, "</string>"@),
    ensures
        find(v + "</string>"@ + rest, "</string>"@) == Some(v.len() as int),
{
    reveal_strlit("</string>");
    let q = "</string>"@;
    let t = v + q + rest;
    find_from_is_first(v, q, 0);
    find_from_is_first(t, q, 0);
    assert(t.subrange(v.len() as int, v.len() as int + q.len()) =~= q);
    assert(occurs_at(t, q, v.len() as int));
    if let Some(k) = find(t, q) {
        if k < v.len() {
            if k + q.len() <= v.len() {
                assert(t.subrange(k, k + q.len()) =~= v.subrange(k, k + q.len()));
                assert(occurs_at(v, q, k));
            } else {
                let d = v.len() - k;
                assert(t.subrange(k, k + q.len())[d] == t[v.len() as int]);
                assert(t[v.len() as int] == '<');
                assert(q[d] != '<');
            }
        }
    }
}

/// A value behind its key is read as it stands, without the white space around
/// it. `gap` is what stands between the two.
proof fn value_reads_back(
    a: Seq<char>,
    key: Seq<char>,
    gap: Seq<char>,
    v: Seq<char>,
    rest: Seq<char>,
)
    requires
        clear_of(a, tag(key)),
        clear_of(tag(key) + gap, "<string>"@),
        !contains(v, "</string>"@),
    ensures
        value_of(a + tag(key) + gap + "<string>"@ + v + "</string>"@ + rest, key) == Some(trim(v)),
{
    let p = tag(key);
    let open = "<string>"@;
    let close = "</string>"@;
    let t = a + p + gap + open + v + close + rest;
    let inner = v + close + rest;
    assert(t =~= a + p + (gap + open + inner));
    found_behind(a, p, gap + open + inner);
    let u = t.skip(a.len() as int);
    assert(u =~= (p + gap) + open + inner);
    found_behind(p + gap, open, inner);
    assert(u.skip((p + gap).len() as int + open.len()) =~= inner);
    value_ends(v, rest);
    assert(inner.take(v.len() as int) =~= v);
}

/// The places of a literal where a tag could begin differ from the key's tag
/// in one of three characters.
spec fn apart(s: Seq<char>, p: Seq<char>) -> bool {
    forall|i: int|
        0 <= i < s.len() && #[trigger] s[i] == '<' ==> {
            ||| i + 1 < s.len() && s[i + 1] != p[1]
            ||| i + 5 < s.len() && s[i + 5] != p[5]
            ||| i + 13 < s.len() && s[i + 13] != p[13]
        }
}

proof fn apart_is_clear(s: Seq<char>, p: Seq<char>)
    requires
        p.len() > 13,
        p[0] == '<',
        apart(s, p),
    ensures
        clear_of(s, p),
{
    assert forall|j: int| 0 <= j < s.len() implies #[trigger] differs(s, p, j) by {
        if s[j] != '<' {
            assert(s[j + 0] != p[0]);
            differs_at(s, p, j, 0);
        } else if j + 1 < s.len() && s[j + 1] != p[1] {
            differs_at(s, p, j, 1);
        } else if j + 5 < s.len() && s[j + 5] != p[5] {
            differs_at(s, p, j, 5);
        } else {
            differs_at(s, p, j, 13);
        }
    }
}

/// The name of a bundle is read back from what the bundle says of itself.
proof fn label_reads_back(
    label: Seq<char>,
    exe_name: Seq<char>,
    package: Seq<char>,
    icon: bool,
    sdk: Seq<char>,
    server: Seq<char>,
    runtimed: Seq<char>,
)
    requires
        !contains(label, tag("CFBundleDisplayName"@)),
        !contains(label, "</string>"@),
    ensures
        value_of(
            plist_text(label, exe_name, package, icon, sdk, server, runtimed),
            "CFBundleDisplayName"@,
        ) == Some(trim(label)),
{
    let key = "CFBundleDisplayName"@;
    let p = tag(key);
    let head = "<?xml version=\"1.0\" encoding=\"UTF-8\"?>\n<!DOCTYPE plist PUBLIC \"-//Apple//DTD PLIST 1.0//EN\" \"http://www.apple.com/DTDs/PropertyList-1.0.dtd\">\n<plist version=\"1.0\">\n<dict>\n    <key>CFBundleName</key>\n    <string>"@;
    let mid = "</string>\n    <key>CFBundleDisplayName</key>\n    <string>"@;
    let tail = "</string>\n    <key>CFBundleExecutable</key>\n    <string>"@;
    let close = "</string>\n    "@;
    let gap = "\n    "@;
    reveal_strlit("<key>");
    reveal_strlit("</key>");
    reveal_strlit("<string>");
    reveal_strlit("</string>");
    reveal_strlit("CFBundleDisplayName");
    reveal_strlit("</string>\n    ");
    reveal_strlit("\n    ");
    assert(apart(head, p)) by {
        reveal_strlit("<?xml version=\"1.0\" encoding=\"UTF-8\"?>\n<!DOCTYPE plist PUBLIC \"-//Apple//DTD PLIST 1.0//EN\" \"http://www.apple.com/DTDs/PropertyList-1.0.dtd\">\n<plist version=\"1.0\">\n<dict>\n    <key>CFBundleName</key>\n    <string>");
    }
    apart_is_clear(head, p);
    assert(apart(close, p));
    apart_is_clear(close, p);
    value_is_clear(label, key, close);
    clear_together(head, label + close, p);
    assert(mid =~= close + p + gap + "<string>"@) by {
        reveal_strlit("</string>\n    <key>CFBundleDisplayName</key>\n    <string>");
    }
    let after_tail = tail.skip(9);
    assert(tail =~= "</string>"@ + after_tail) by {
        reveal_strlit("</string>\n    <key>CFBundleExecutable</key>\n    <string>");
    }
    let between = p + gap;
    assert forall|j: int| 0 <= j < between.len() implies #[trigger] differs(
        between,
        "<string>"@,
        j,
    ) by {
        if between[j] != '<' {
            assert(between[j + 0] != "<string>"@[0]);
            differs_at(between, "<string>"@, j, 0);
        } else {
            differs_at(between, "<string>"@, j, 1);
        }
    }
    let t = plist_text(label, exe_name, package, icon, sdk, server, runtimed);
    let rest = t.skip((head + label + mid + label).len() as int + 9);
    assert(t =~= (head + (label + close)) + p + gap + "<string>"@ + label + "</string>"@ + rest);
    value_reads_back(head + (label + close), key, gap, label, rest);
}

/// The package of a bundle is read back from what the bundle says of itself.
proof fn package_reads_back(
    label: Seq<char>,
    exe_name: Seq<char>,
    package: Seq<char>,
    icon: bool,
    sdk: Seq<char>,
    server: Seq<char>,
    runtimed: Seq<char>,
)
    requires
        !contains(label, tag("ANDROLON_APP"@)),
        !contains(exe_name, tag("ANDROLON_APP"@)),
        !contains(package, tag("ANDROLON_APP"@)),
        !contains(package, "</string>"@),
    ensures
        value_of(
            plist_text(label, exe_name, package, icon, sdk, server, runtimed),
            "ANDROLON_APP"@,
        ) == Some(trim(package)),
{
    let key = "ANDROLON_APP"@;
    let p = tag(key);
    let head = "<?xml version=\"1.0\" encoding=\"UTF-8\"?>\n<!DOCTYPE plist PUBLIC \"-//Apple//DTD PLIST 1.0//EN\" \"http://www.apple.com/DTDs/PropertyList-1.0.dtd\">\n<plist version=\"1.0\">\n<dict>\n    <key>CFBundleName</key>\n    <string>"@;
    let first = "</string>\n    <key>CFBundleDisplayName</key>\n    <string>"@;
    let second = "</string>\n    <key>CFBundleExecutable</key>\n    <string>"@;
    let third = "</string>\n    <key>CFBundleIdentifier</key>\n    <string>com.androlon.app."@;
    let fourth = "</string>\n    <key>CFBundlePackageType</key>\n    <string>APPL</string>\n    <key>CFBundleShortVersionString</key>\n    <string>1.0</string>\n    <key>NSHighResolutionCapable</key>\n    <true/>\n"@;
    let entry = icon_entry(icon);
    let env = "    <key>LSEnvironment</key>\n    <dict>\n        <key>ANDROLON_APP</key>\n        <string>"@;
    let opening = "    <key>LSEnvironment</key>\n    <dict>\n        "@;
    let gap = "\n        "@;
    let tail = "</string>\n        <key>APKRUN_SDK</key>\n        <string>"@;
    reveal_strlit("<key>");
    reveal_strlit("</key>");
    reveal_strlit("<string>");
    reveal_strlit("</string>");
    reveal_strlit("ANDROLON_APP");
    reveal_strlit("\n        ");
    assert(apart(head, p)) by {
        reveal_strlit("<?xml version=\"1.0\" encoding=\"UTF-8\"?>\n<!DOCTYPE plist PUBLIC \"-//Apple//DTD PLIST 1.0//EN\" \"http://www.apple.com/DTDs/PropertyList-1.0.dtd\">\n<plist version=\"1.0\">\n<dict>\n    <key>CFBundleName</key>\n    <string>");
    }
    assert(apart(first, p) && first.len() > 2 && first[0] == '<' && first[1] == '/' && first[2]
        == 's') by {
        reveal_strlit("</string>\n    <key>CFBundleDisplayName</key>\n    <string>");
    }
    assert(apart(second, p) && second.len() > 2 && second[0] == '<' && second[1] == '/' && second[2]
        == 's') by {
        reveal_strlit("</string>\n    <key>CFBundleExecutable</key>\n    <string>");
    }
    assert(apart(third, p) && third.len() > 2 && third[0] == '<' && third[1] == '/' && third[2]
        == 's') by {
        reveal_strlit("</string>\n    <key>CFBundleIdentifier</key>\n    <string>com.androlon.app.");
    }
    assert(apart(fourth, p) && fourth.len() > 2 && fourth[0] == '<' && fourth[1] == '/' && fourth[2]
        == 's') by {
        reveal_strlit("</string>\n    <key>CFBundlePackageType</key>\n    <string>APPL</string>\n    <key>CFBundleShortVersionString</key>\n    <string>1.0</string>\n    <key>NSHighResolutionCapable</key>\n    <true/>\n");
    }
    assert(apart(entry, p)) by {
        reveal_strlit("    <key>CFBundleIconFile</key>\n    <string>app</string>\n");
        reveal_strlit("");
    }
    assert(apart(opening, p)) by {
        reveal_strlit("    <key>LSEnvironment</key>\n    <dict>\n        ");
    }
    assert(env =~= opening + p + gap + "<string>"@) by {
        reveal_strlit("    <key>LSEnvironment</key>\n    <dict>\n        ");
        reveal_strlit("    <key>LSEnvironment</key>\n    <dict>\n        <key>ANDROLON_APP</key>\n        <string>");
    }
    apart_is_clear(head, p);
    apart_is_clear(first, p);
    apart_is_clear(second, p);
    apart_is_clear(third, p);
    apart_is_clear(fourth, p);
    apart_is_clear(entry, p);
    apart_is_clear(opening, p);
    value_is_clear(label, key, first);
    value_is_clear(label, key, second);
    value_is_clear(exe_name, key, third);
    value_is_clear(package, key, fourth);
    let a1 = head + (label + first);
    let a2 = a1 + (label + second);
    let a3 = a2 + (exe_name + third);
    let a4 = a3 + (package + fourth);
    let a5 = a4 + entry;
    let a = a5 + opening;
    clear_together(head, label + first, p);
    clear_together(a1, label + second, p);
    clear_together(a2, exe_name + third, p);
    clear_together(a3, package + fourth, p);
    clear_together(a4, entry, p);
    clear_together(a5, opening, p);
    let between = p + gap;
    assert forall|j: int| 0 <= j < between.len() implies #[trigger] differs(
        between,
        "<string>"@,
        j,
    ) by {
        if between[j] != '<' {
            assert(between[j + 0] != "<string>"@[0]);
            differs_at(between, "<string>"@, j, 0);
        } else {
            differs_at(between, "<string>"@, j, 1);
        }
    }
    let after_tail = tail.skip(9);
    assert(tail =~= "</string>"@ + after_tail) by {
        reveal_strlit("</string>\n        <key>APKRUN_SDK</key>\n        <string>");
    }
    let t = plist_text(label, exe_name, package, icon, sdk, server, runtimed);
    let front = head + label + first + label + second + exe_name + third + package + fourth + entry;
    assert(front + opening =~= a);
    let rest = t.skip((front + env + package).len() as int + 9);
    assert(t =~= front + env + package + "</string>"@ + rest);
    assert(t =~= a + p + gap + "<string>"@ + package + "</string>"@ + rest);
    value_reads_back(a, key, gap, package, rest);
}

/// A bundle that was made of a package is recognised as such: what it says of
/// itself gives back its name and the package, without the white space around
/// them, where the values hold none of the tags that are looked for.
pub proof fn bundles_are_recognised(
    label: Seq<char>,
    exe_name: Seq<char>,
    package: Seq<char>,
    icon: bool,
    sdk: Seq<char>,
    server: Seq<char>,
    runtimed: Seq<char>,
)
    requires
        !contains(label, "<key>CFBundleDisplayName</key>"@),
        !contains(label, "<key>ANDROLON_APP</key>"@),
        !contains(label, "</string>"@),
        !contains(exe_name, "<key>ANDROLON_APP</key>"@),
        !contains(package, "<key>ANDROLON_APP</key>"@),
        !contains(package, "</string>"@),
    ensures
        identity_in(plist_text(label, exe_name, package, icon, sdk, server, runtimed)) == Some(
            (trim(label), trim(package)),
        ),
{
    assert(tag("CFBundleDisplayName"@) =~= "<key>CFBundleDisplayName</key>"@) by {
        reveal_strlit("<key>");
        reveal_strlit("</key>");
        reveal_strlit("CFBundleDisplayName");
        reveal_strlit("<key>CFBundleDisplayName</key>");
    }
    assert(tag("ANDROLON_APP"@) =~= "<key>ANDROLON_APP</key>"@) by {
        reveal_strlit("<key>");
        reveal_strlit("</key>");
        reveal_strlit("ANDROLON_APP");
        reveal_strlit("<key>ANDROLON_APP</key>");
    }
    label_reads_back(label, exe_name, package, icon, sdk, server, runtimed);
    package_reads_back(label, exe_name, package, icon, sdk, server, runtimed);
}

/// What could not be removed is said, and nothing else is: nothing where the
/// package went, or was not there, and the bundle went; of the package what the
/// device said, and of the bundle what the system said. An app is over once both
/// were tried and the system was told.
pub proof fn what_stays_is_said(
    config: SdkConfig,
    bundle: Seq<char>,
    package: Seq<char>,
    installed: bool,
    replies: Seq<Reply>,
)
    ensures
        ({
            let p = removal_plan(config, bundle, package, installed, replies);
            let n: int = if installed {
                1
            } else {
                0
            };
            &&& p is Done <==> replies.len() >= n + 2
            &&& replies.len() == n ==> (p matches Plan::Do(a) && a == Act::RemoveDir(bundle))
            &&& replies.len() == n + 1 ==> (p matches Plan::Do(Act::Run(c)) && c.args == seq![
                "-u"@,
                bundle,
            ])
            &&& p matches Plan::Done(said) ==> {
                &&& said.len() == 0 <==> (installed ==> crate::step::ran_well(replies[0]))
                    && crate::step::was_done(replies[n])
                &&& installed && !crate::step::ran_well(replies[0]) ==> (replies[0] matches Reply::Ran(
                    Ok(out),
                ) ==> said[0] == "Android app: "@ + trim(
                    crate::subprocess::lossy(out.stdout@) + crate::subprocess::lossy(out.stderr@),
                ))
                &&& replies[n] matches Reply::Did(Err(e)) ==> said.last() == "Mac app: "@ + e@
                &&& said.len() <= 2
            }
        }),
{
}

/// The first word of what a program wrote.
pub open spec fn first_word_of(r: Reply) -> Option<Seq<char>> {
    match r {
        Reply::Ran(Ok(out)) => {
            let all = words(
                trim(crate::subprocess::lossy(out.stdout@) + crate::subprocess::lossy(out.stderr@)),
            );
            if all.len() == 0 {
                None
            } else {
                Some(all[0])
            }
        },
        _ => None,
    }
}

/// A package is installed exactly where the device's list of packages with its
/// name holds it; what it has stored is asked for only then, and is the first word
/// of what the device says of it.
pub proof fn a_survey_asks_the_device(config: SdkConfig, package: Seq<char>, replies: Seq<Reply>)
    ensures
        ({
            let p = survey_plan(config, package, replies);
            let there = replies.len() > 0 && (replies[0] matches Reply::Ran(Ok(out)) && contains(
                trim(crate::subprocess::lossy(out.stdout@) + crate::subprocess::lossy(out.stderr@)),
                package,
            ));
            &&& replies.len() == 0 ==> (p matches Plan::Do(Act::Run(c)) && c.exe
                == config.adb_path() && c.args == seq![
                "shell"@,
                "pm"@,
                "list"@,
                "packages"@,
                package,
            ])
            &&& replies.len() == 1 && there ==> (p matches Plan::Do(Act::Run(c)) && c.exe
                == config.adb_path() && c.args == seq![
                "shell"@,
                "du"@,
                "-sh"@,
                "/data/data/"@ + package,
            ])
            &&& replies.len() > 0 && !there ==> p == Plan::Done((false, None::<Seq<char>>))
            &&& replies.len() > 1 && there ==> p == Plan::Done((true, first_word_of(replies[1])))
        }),
{
    assert(seq!["shell"@] + seq!["pm"@, "list"@, "packages"@, package] =~= seq![
        "shell"@,
        "pm"@,
        "list"@,
        "packages"@,
        package,
    ]);
    assert(seq!["shell"@] + seq!["du"@, "-sh"@, "/data/data/"@ + package] =~= seq![
        "shell"@,
        "du"@,
        "-sh"@,
        "/data/data/"@ + package,
    ]);
}

/// The bundle that is to go is the first word that is called like one, behind the
/// program's own name, and it goes only where it is there.
pub proof fn the_first_bundle_goes(args: Seq<Seq<char>>, replies: Seq<Reply>, i: int)
    requires
        1 <= i < args.len(),
        ends_with(args[i], ".app"@),
        forall|j: int| 1 <= j < i ==> !ends_with(#[trigger] args[j], ".app"@),
    ensures
        replies.len() == 0 ==> target_plan(args, replies) == Plan::<Option<Seq<char>>>::Do(
            Act::Exists(args[i]),
        ),
        replies.len() > 0 && replies[0] == Reply::Answer(true) ==> target_plan(args, replies)
            == Plan::Done(Some(args[i])),
        replies.len() > 0 && replies[0] == Reply::Answer(false) ==> target_plan(args, replies)
            == Plan::Done(None::<Seq<char>>),
{
    first_bundle(args, 1, i);
}

proof fn first_bundle(args: Seq<Seq<char>>, from: int, i: int)
    requires
        0 <= from <= i < args.len(),
        ends_with(args[i], ".app"@),
        forall|j: int| from <= j < i ==> !ends_with(#[trigger] args[j], ".app"@),
    ensures
        bundle_from(args, from) == Some(args[i]),
    decreases i - from,
{
    if from < i {
        first_bundle(args, from + 1, i);
    }
}

} // verus!
