//! The shell around the windows: how it is started, where an event goes, how it
//! waits for the runtime, and how a confirmed package is installed.

use crate::appify::AppifyOutcome;
use crate::error::{problem_text, EngineError};
use crate::host::Host;
use crate::model::DoctorReport;
use crate::number::{dec, decimal};
use crate::step::{failure_of, text_of, yes, Act, Action, Plan, Reply, Step};
use crate::subprocess::{plain, CommandLine};
use crate::text::{
    cat2, cat3, cat4, ends, ends_with, list1, list2, lowercase, same, slice_text, to_chars,
    to_lowercase, views,
};
use crate::ui::all_present;
use vstd::prelude::*;

verus! {

/// Where `word` first stands among `args`, from `i` on.
pub open spec fn place_from(args: Seq<Seq<char>>, word: Seq<char>, i: int) -> Option<int>
    decreases args.len() - i,
{
    if i < 0 || i >= args.len() {
        None
    } else if args[i] == word {
        Some(i)
    } else {
        place_from(args, word, i + 1)
    }
}

/// Where `word` first stands among `args`.
pub open spec fn place(args: Seq<Seq<char>>, word: Seq<char>) -> Option<int> {
    place_from(args, word, 0)
}

/// What stands behind the first `word` among `args`.
pub open spec fn value_after(args: Seq<Seq<char>>, word: Seq<char>) -> Option<Seq<char>> {
    match place(args, word) {
        Some(i) => if i + 1 < args.len() {
            Some(args[i + 1])
        } else {
            None
        },
        None => None,
    }
}

/// Where `word` first stands among `args`.
pub fn find_arg(args: &Vec<String>, word: &str) -> (r: Option<usize>)
    ensures
        match r {
            Some(i) => i < args.len() && place(views(args@), word@) == Some(i as int),
            None => place(views(args@), word@) is None,
        },
{
    let ghost all = views(args@);
    let mut i: usize = 0;
    while i < args.len()
        invariant
            i <= args.len(),
            all == views(args@),
            place(all, word@) == place_from(all, word@, i as int),
        decreases args.len() - i,
    {
        assert(all[i as int] == args@[i as int]@);
        if same(args[i].as_str(), word) {
            return Some(i);
        }
        i = i + 1;
    }
    None
}

/// What stands behind the first `word` among `args`.
pub fn arg_after(args: &Vec<String>, word: &str) -> (r: Option<String>)
    ensures
        text_of(r) == value_after(views(args@), word@),
{
    match find_arg(args, word) {
        Some(i) => if args.len() - i > 1 {
            Some(args[i + 1].clone())
        } else {
            None
        },
        None => None,
    }
}

/// The app that is to be shown alone: the one behind `--app`, or the one that
/// the environment names.
pub open spec fn app_in(args: Seq<Seq<char>>, named: Option<&str>) -> Option<Seq<char>> {
    match (value_after(args, "--app"@), named) {
        (Some(app), _) => Some(app),
        (None, Some(app)) => Some(app@),
        (None, None) => None,
    }
}

/// The app that is to be shown alone. `named` is what the environment holds
/// under `ANDROLON_APP`.
pub fn app_package(args: &Vec<String>, named: Option<&str>) -> (r: Option<String>)
    ensures
        text_of(r) == app_in(views(args@), named),
{
    match arg_after(args, "--app") {
        Some(app) => Some(app),
        None => match named {
            Some(app) => Some(app.to_owned()),
            None => None,
        },
    }
}

/// What the program was started for.
#[derive(Debug)]
pub enum Mode {
    /// Say whether the engine can be reached, without a window.
    Headless,
    /// Show made-up pictures.
    VideoDemo,
    /// Show made-up pictures that were coded and decoded.
    DecodeDemo,
    /// Show one app.
    Single(String),
    /// Show the panel.
    Shell,
}

/// What the program was started for: the first flag of these that is there
/// decides.
pub fn mode_of(args: &Vec<String>, named: Option<&str>) -> (r: Mode)
    ensures
        ({
            let all = views(args@);
            if place(all, "--headless"@) is Some {
                r is Headless
            } else if place(all, "--video-demo"@) is Some {
                r is VideoDemo
            } else if place(all, "--decode-demo"@) is Some {
                r is DecodeDemo
            } else {
                match app_in(all, named) {
                    Some(app) => r matches Mode::Single(p) && p@ == app,
                    None => r is Shell,
                }
            }
        }),
{
    if find_arg(args, "--headless").is_some() {
        Mode::Headless
    } else if find_arg(args, "--video-demo").is_some() {
        Mode::VideoDemo
    } else if find_arg(args, "--decode-demo").is_some() {
        Mode::DecodeDemo
    } else {
        match app_package(args, named) {
            Some(app) => Mode::Single(app),
            None => Mode::Shell,
        }
    }
}

/// What is said of the engine without a window.
pub fn headless_lines(report: &DoctorReport) -> (r: Vec<String>)
    ensures
        views(r@) == seq![
            "✓ headless: engine reachable — API "@ + dec(report.api as int) + " · "@
                + report.system_image@,
            "  SDK provisioned: "@ + crate::scrcpy::word_of(all_present(report.tools@)),
        ],
{
    let mut all = true;
    let mut i: usize = 0;
    while i < report.tools.len()
        invariant
            i <= report.tools.len(),
            all == forall|j: int| 0 <= j < i ==> (#[trigger] report.tools@[j]).present,
        decreases report.tools.len() - i,
    {
        if !report.tools[i].present {
            all = false;
        }
        i = i + 1;
    }
    let api = decimal(report.api as u64);
    let first = cat4(
        "✓ headless: engine reachable — API ",
        api.as_str(),
        " · ",
        report.system_image.as_str(),
    );
    let word = if all {
        "true"
    } else {
        "false"
    };
    list2(first.as_str(), cat2("  SDK provisioned: ", word).as_str())
}

/// The parts of `s` between commas, without the empty ones.
pub open spec fn names_in(s: Seq<char>) -> Seq<Seq<char>>
    decreases s.len(),
{
    if s.len() == 0 {
        seq![]
    } else {
        let rest = names_in(s.drop_last());
        if s.last() == ',' {
            rest
        } else if s.len() == 1 || s[s.len() - 2] == ',' {
            rest.push(seq![s.last()])
        } else {
            rest.drop_last().push(rest.last().push(s.last()))
        }
    }
}

/// The apps that a list names, with commas between them.
pub fn app_names(list: &str) -> (r: Vec<String>)
    ensures
        views(r@) == names_in(list@),
{
    let v = to_chars(list);
    let mut r: Vec<String> = Vec::new();
    let mut start: usize = 0;
    let mut i: usize = 0;
    assert(v@.take(0) =~= seq![]);
    assert(views(r@) =~= seq![]);
    while i < v.len()
        invariant
            start <= i <= v.len(),
            start == 0 || v@[start - 1] == ',',
            forall|j: int| start <= j < i ==> v@[j] != ',',
            names_in(v@.take(i as int)) == (if start == i {
                views(r@)
            } else {
                views(r@).push(v@.subrange(start as int, i as int))
            }),
        decreases v.len() - i,
    {
        let ghost before = v@.take(i as int);
        let ghost now = v@.take(i + 1);
        assert(now.drop_last() =~= before);
        assert(now.last() == v@[i as int]);
        assert(i > 0 ==> now[i - 1] == v@[i - 1]);
        if v[i] == ',' {
            if start < i {
                let part = slice_text(&v, start, i);
                let ghost old_views = views(r@);
                r.push(part);
                assert(views(r@) =~= old_views.push(v@.subrange(start as int, i as int)));
            }
            start = i + 1;
        } else {
            if start == i {
                assert(v@.subrange(start as int, i + 1) =~= seq![v@[i as int]]);
            } else {
                let ghost rest = names_in(before);
                assert(rest.drop_last() =~= views(r@));
                assert(v@.subrange(start as int, i + 1) =~= rest.last().push(v@[i as int]));
            }
        }
        i = i + 1;
    }
    assert(v@.take(i as int) =~= v@);
    if start < v.len() {
        let part = slice_text(&v, start, v.len());
        let ghost old_views = views(r@);
        r.push(part);
        assert(views(r@) =~= old_views.push(v@.subrange(start as int, v@.len() as int)));
    }
    r
}

/// The file is a package, by its name.
pub open spec fn apk_name(name: Seq<char>) -> bool {
    ends_with(lowercase(name), ".apk"@)
}

/// Whether the file is a package, by its name.
pub fn is_apk(name: &str) -> (r: bool)
    ensures
        r == apk_name(name@),
{
    ends(to_lowercase(name).as_str(), ".apk")
}

/// Something that happened to a window.
#[derive(Debug)]
pub enum ShellEvent {
    /// The program is to end.
    Quit,
    /// A window is to be closed.
    Close(u32),
    /// A file was dropped.
    Drop(String),
    /// The mouse or a key was used in a window, or the window lost the focus.
    Input(u32),
    Other,
}

/// Where an event goes.
#[derive(Debug)]
pub enum Route {
    /// The program ends.
    Quit,
    /// The surfaces with this window go.
    Close(u32),
    /// The package is looked into.
    Inspect(String),
    /// The surface with this number has it.
    Pane(usize),
    Nowhere,
}

/// `i` is the first of `panes` with the window `id`.
pub open spec fn is_pane(panes: Seq<u32>, id: u32, i: int) -> bool {
    &&& 0 <= i < panes.len()
    &&& panes[i] == id
    &&& forall|j: int| 0 <= j < i ==> panes[j] != id
}

/// The first of `panes` with the window `id`.
fn pane_of(panes: &Vec<u32>, id: u32) -> (r: Option<usize>)
    ensures
        match r {
            Some(i) => is_pane(panes@, id, i as int),
            None => !panes@.contains(id),
        },
{
    let mut i: usize = 0;
    while i < panes.len()
        invariant
            i <= panes.len(),
            forall|j: int| 0 <= j < i ==> panes@[j] != id,
        decreases panes.len() - i,
    {
        if panes[i] == id {
            return Some(i);
        }
        i = i + 1;
    }
    None
}

/// Says where an event goes. `own` is the panel's window, `panes` are the
/// windows of the surfaces.
pub fn route(event: ShellEvent, own: u32, panes: &Vec<u32>) -> (r: Route)
    ensures
        match event {
            ShellEvent::Quit => r is Quit,
            ShellEvent::Close(id) => if id == own {
                r is Quit
            } else {
                r == Route::Close(id)
            },
            ShellEvent::Drop(name) => if apk_name(name@) {
                r == Route::Inspect(name)
            } else {
                r is Nowhere
            },
            ShellEvent::Input(id) => if id != own && panes@.contains(id) {
                r matches Route::Pane(i) && is_pane(panes@, id, i as int)
            } else {
                r is Nowhere
            },
            ShellEvent::Other => r is Nowhere,
        },
{
    match event {
        ShellEvent::Quit => Route::Quit,
        ShellEvent::Close(id) => if id == own {
            Route::Quit
        } else {
            Route::Close(id)
        },
        ShellEvent::Drop(name) => if is_apk(name.as_str()) {
            Route::Inspect(name)
        } else {
            Route::Nowhere
        },
        ShellEvent::Input(id) => {
            if id == own {
                return Route::Nowhere;
            }
            match pane_of(panes, id) {
                Some(i) => Route::Pane(i),
                None => Route::Nowhere,
            }
        },
        ShellEvent::Other => Route::Nowhere,
    }
}

/// What is said of a package that could not be looked into.
pub fn inspect_failure(name: &str, e: &EngineError) -> (r: String)
    ensures
        r@ == "✗ "@ + name@ + ": "@ + problem_text(e@),
{
    cat4("✗ ", name, ": ", e.message().as_str())
}

/// What the hub says of a package that it handed to the installer.
pub fn handed_to_installer(name: &str, started: &Result<(), String>) -> (r: String)
    ensures
        r@ == (match started {
            Ok(_) => "› installing "@ + name@ + "…"@,
            Err(e) => "✗ installer: "@ + e@,
        }),
{
    match started {
        Ok(_) => cat3("› installing ", name, "…"),
        Err(e) => cat2("✗ installer: ", e.as_str()),
    }
}

/// What is said of a surface that was opened, or could not be.
pub fn surface_line(what: &str, opened: &Result<u32, String>) -> (r: String)
    ensures
        r@ == (match opened {
            Ok(id) => "✓ "@ + what@ + " (id "@ + dec(*id as int) + ")"@,
            Err(e) => "✗ "@ + what@ + ": "@ + e@,
        }),
{
    match opened {
        Ok(id) => {
            let head = cat3("✓ ", what, " (id ");
            cat3(head.as_str(), decimal(*id as u64).as_str(), ")")
        },
        Err(e) => cat4("✗ ", what, ": ", e.as_str()),
    }
}

/// What the thread that asks for a lease has said so far.
#[derive(Debug)]
pub enum LeasePoll {
    /// There is a lease.
    Lease,
    /// There is none, and why.
    Failed(String),
    /// The thread has gone without a word.
    Gone,
    /// Nothing yet.
    Empty,
}

/// What to do next while the runtime is waited for.
#[derive(Debug)]
pub enum WaitStep {
    /// Go on with the lease.
    Take,
    /// Go on without a lease, as if a device were there; say the line.
    GiveUp(Option<String>),
    /// Wait; say the line.
    Wait(Option<String>),
}

/// Waiting for the runtime.
#[derive(Debug, Clone, Copy, PartialEq, Eq, Structural)]
pub struct RuntimeWait {
    /// It was said that the start takes a while.
    pub announced: bool,
}

/// For how many nanoseconds nothing is said of the start.
pub const QUIET_NANOS: u128 = 3_000_000_000;

/// It is to be said now that the start takes a while.
pub open spec fn announces(w: RuntimeWait, elapsed: int) -> bool {
    !w.announced && elapsed > QUIET_NANOS
}

impl RuntimeWait {
    pub fn new() -> (r: RuntimeWait)
        ensures
            !r.announced,
    {
        RuntimeWait { announced: false }
    }

    /// What to do next; `elapsed` is how long it has been waited, in
    /// nanoseconds.
    pub fn next(&mut self, poll: LeasePoll, elapsed: u128) -> (r: WaitStep)
        ensures
            match poll {
                LeasePoll::Lease => r is Take && *final(self) == *old(self),
                LeasePoll::Failed(e) => {
                    &&& r matches WaitStep::GiveUp(Some(line))
                    &&& line@ == "⚠ runtime daemon unavailable ("@ + e@
                        + "); assuming a booted device"@
                    &&& *final(self) == *old(self)
                },
                LeasePoll::Gone => r == WaitStep::GiveUp(None) && *final(self) == *old(self),
                LeasePoll::Empty => if announces(*old(self), elapsed as int) {
                    &&& r matches WaitStep::Wait(Some(line))
                    &&& line@
                        == "› starting the Android runtime (first boot can take a few minutes)…"@
                    &&& final(self).announced
                } else {
                    r == WaitStep::Wait(None) && *final(self) == *old(self)
                },
            },
    {
        match poll {
            LeasePoll::Lease => WaitStep::Take,
            LeasePoll::Failed(e) => WaitStep::GiveUp(
                Some(
                    cat3(
                        "⚠ runtime daemon unavailable (",
                        e.as_str(),
                        "); assuming a booted device",
                    ),
                ),
            ),
            LeasePoll::Gone => WaitStep::GiveUp(None),
            LeasePoll::Empty => {
                if !self.announced && elapsed > QUIET_NANOS {
                    self.announced = true;
                    WaitStep::Wait(
                        Some(
                            "› starting the Android runtime (first boot can take a few minutes)…".to_owned(),
                        ),
                    )
                } else {
                    WaitStep::Wait(None)
                }
            },
        }
    }
}

/// How the ground for an install is laid: the directory is made, and the program
/// that bundles run is chosen, the player where it is there, and else the
/// shell's own program.
pub open spec fn install_plan(
    out_dir: Seq<char>,
    exe: Result<String, String>,
    replies: Seq<Reply>,
) -> Plan<Result<Seq<char>, Seq<char>>> {
    if replies.len() == 0 {
        Plan::Do(Act::MakeDir(out_dir))
    } else if failure_of(replies[0]) is Some {
        Plan::Done(Err("✗ create "@ + out_dir + ": "@ + failure_of(replies[0])->0))
    } else {
        match exe {
            Err(e) => Plan::Done(Err("✗ locate androlon-player: "@ + e@)),
            Ok(exe) => {
                let player = Host::Linux.sibling(exe@, "androlon-player"@);
                if replies.len() == 1 {
                    Plan::Do(Act::Exists(player))
                } else if yes(replies[1]) {
                    Plan::Done(Ok(player))
                } else {
                    Plan::Done(Ok(exe@))
                }
            },
        }
    }
}

/// The next step of laying the ground for an install; it ends with the program
/// that bundles run, or with a line that says why not.
pub fn install_apk(out_dir: &str, exe: &Result<String, String>, replies: &Vec<Reply>) -> (s: Step<
    Result<String, String>,
>)
    ensures
        match (s, install_plan(out_dir@, *exe, replies@)) {
            (Step::Do(a), Plan::Do(b)) => a@ == b,
            (Step::Done(Ok(p)), Plan::Done(Ok(q))) => p@ == q,
            (Step::Done(Err(e)), Plan::Done(Err(f))) => e@ == f,
            _ => false,
        },
{
    if replies.len() == 0 {
        return Step::Do(Action::MakeDir(out_dir.to_owned()));
    }
    if let Some(e) = replies[0].failure() {
        return Step::Done(Err(cat4("✗ create ", out_dir, ": ", e.as_str())));
    }
    match exe {
        Err(e) => Step::Done(Err(cat2("✗ locate androlon-player: ", e.as_str()))),
        Ok(exe) => {
            let player = Host::Linux.with_file_name(exe.as_str(), "androlon-player");
            if replies.len() == 1 {
                Step::Do(Action::Exists(player))
            } else if replies[1].is_yes() {
                Step::Done(Ok(player))
            } else {
                Step::Done(Ok(exe.clone()))
            }
        },
    }
}

/// What is said when an install begins.
pub fn installing_line(apk: &str) -> (r: String)
    ensures
        r@ == "› installing "@ + apk@ + "…"@,
{
    cat3("› installing ", apk, "…")
}

/// What is said when an install is over.
pub open spec fn install_words(made: Result<AppifyOutcome, EngineError>) -> Seq<Seq<char>> {
    match made {
        Err(e) => seq!["✗ appify failed: "@ + problem_text(e@)],
        Ok(done) => {
            let done_words = seq![
                "✓ "@ + done.label@ + " → "@ + done.bundle@,
                "› launching "@ + done.label@ + "…"@,
            ];
            if done.installed {
                done_words
            } else {
                seq!["⚠ APK not installed (is the runtime booted?)"@] + done_words
            }
        },
    }
}

/// Ends an install: what is said, and the command that opens the bundle.
pub fn installed(made: &Result<AppifyOutcome, EngineError>) -> (r: (
    Vec<String>,
    Option<CommandLine>,
))
    ensures
        views(r.0@) == install_words(*made),
        match made {
            Ok(done) => r.1 matches Some(c) && c@ == plain("open"@, seq![done.bundle@]),
            Err(_) => r.1 is None,
        },
{
    match made {
        Err(e) => (list1(cat2("✗ appify failed: ", e.message().as_str()).as_str()), None),
        Ok(done) => {
            let first = cat4("✓ ", done.label.as_str(), " → ", done.bundle.as_str());
            let second = cat3("› launching ", done.label.as_str(), "…");
            let mut words = list2(first.as_str(), second.as_str());
            if !done.installed {
                let ghost after = views(words@);
                let mut all = list1("⚠ APK not installed (is the runtime booted?)");
                let ghost before = views(all@);
                all.append(&mut words);
                assert(views(all@) =~= before + after);
                words = all;
            }
            (words, Some(CommandLine::plain("open", list1(done.bundle.as_str()))))
        },
    }
}

/// That the start takes a while is said once at most: after it was said, it is
/// never said again, however long the wait is.
pub proof fn announced_once(w: RuntimeWait, elapsed: int)
    requires
        w.announced,
    ensures
        !announces(w, elapsed),
{
}

/// No name in a list is empty, and none has a comma.
pub proof fn names_are_names(s: Seq<char>, i: int, j: int)
    requires
        0 <= i < names_in(s).len(),
    ensures
        names_in(s)[i].len() > 0,
        0 <= j < names_in(s)[i].len() ==> names_in(s)[i][j] != ',',
    decreases s.len(),
{
    let rest = names_in(s.drop_last());
    if i < rest.len() {
        names_are_names(s.drop_last(), i, j);
        if s.last() != ',' && !(s.len() == 1 || s[s.len() - 2] == ',') {
            last_name_is_open(s.drop_last());
        }
    } else if s.last() != ',' && !(s.len() == 1 || s[s.len() - 2] == ',') {
        last_name_is_open(s.drop_last());
        if j < rest.last().len() {
            names_are_names(s.drop_last(), rest.len() - 1, j);
        }
    }
}

/// A list that does not end with a comma has a name at its end.
proof fn last_name_is_open(s: Seq<char>)
    requires
        s.len() > 0,
        s.last() != ',',
    ensures
        names_in(s).len() > 0,
    decreases s.len(),
{
}

/// A word has a place among the arguments exactly where it is one of them, and
/// its place is the first at which it stands.
pub proof fn a_word_has_a_place(args: Seq<Seq<char>>, word: Seq<char>)
    ensures
        place(args, word) is Some <==> args.contains(word),
        place(args, word) matches Some(i) ==> 0 <= i < args.len() && args[i] == word && forall|
            j: int,
        |
            0 <= j < i ==> #[trigger] args[j] != word,
{
    first_place(args, word, 0);
}

proof fn first_place(args: Seq<Seq<char>>, word: Seq<char>, from: int)
    requires
        0 <= from,
        forall|j: int| 0 <= j < from && j < args.len() ==> #[trigger] args[j] != word,
    ensures
        place_from(args, word, from) is Some <==> args.contains(word),
        place_from(args, word, from) matches Some(i) ==> from <= i < args.len() && args[i] == word
            && forall|j: int| 0 <= j < i ==> #[trigger] args[j] != word,
    decreases args.len() - from,
{
    if from < args.len() && args[from] != word {
        first_place(args, word, from + 1);
    }
}

/// What stands behind a word is the argument next to its first place, and the app
/// that the arguments name counts before the one that the environment names.
pub proof fn the_named_app_is_shown(args: Seq<Seq<char>>, named: Option<&str>, i: int)
    requires
        0 <= i < args.len(),
        args[i] == "--app"@,
        forall|j: int| 0 <= j < i ==> #[trigger] args[j] != "--app"@,
    ensures
        i + 1 < args.len() ==> app_in(args, named) == Some(args[i + 1]),
        i + 1 == args.len() ==> app_in(args, named) == (match named {
            Some(n) => Some(n@),
            None => None,
        }),
{
    a_word_has_a_place(args, "--app"@);
    let k = place(args, "--app"@)->0;
    if k < i {
        assert(args[k] != "--app"@);
    }
    if i < k {
        assert(args[i] != "--app"@);
    }
}

/// Names with commas between them are read back, each as it was written.
pub proof fn lists_read_back(front: Seq<char>, name: Seq<char>)
    requires
        name.len() > 0,
        forall|i: int| 0 <= i < name.len() ==> name[i] != ',',
        front.len() > 0 ==> front.last() == ',',
    ensures
        names_in(front + name) == names_in(front).push(name),
        names_in(front + name + seq![',']) == names_in(front).push(name),
    decreases name.len(),
{
    let s = front + name;
    let head = name.drop_last();
    assert(s.drop_last() =~= front + head);
    assert(s.last() == name.last());
    if name.len() == 1 {
        assert(front + head =~= front);
        assert(seq![name.last()] =~= name);
        if s.len() > 1 {
            assert(s[s.len() - 2] == front.last());
        }
        assert(names_in(s) =~= names_in(front).push(name));
    } else {
        lists_read_back(front, head);
        let rest = names_in(front + head);
        assert(s[s.len() - 2] == name[name.len() - 2]);
        assert(rest.last() == head);
        assert(head.push(name.last()) =~= name);
        assert(rest.drop_last() =~= names_in(front));
        assert(names_in(s) =~= names_in(front).push(name));
    }
    let t = s + seq![','];
    assert(t.drop_last() =~= s);
}

/// The ground for an install is laid exactly where the directory could be made and
/// the shell knows its own program; bundles then run the player where it is there,
/// and the shell itself where it is not.
pub proof fn bundles_run_the_player(
    out_dir: Seq<char>,
    exe: Result<String, String>,
    replies: Seq<Reply>,
)
    ensures
        ({
            let p = install_plan(out_dir, exe, replies);
            let n = replies.len();
            let made = n > 0 && crate::step::was_done(replies[0]);
            &&& n == 0 ==> (p matches Plan::Do(a) && a == Act::MakeDir(out_dir))
            &&& (p matches Plan::Done(Ok(_))) <==> made && exe is Ok && n > 1
            &&& exe matches Ok(e) ==> {
                let player = Host::Linux.sibling(e@, "androlon-player"@);
                &&& made && n == 1 ==> (p matches Plan::Do(a) && a == Act::Exists(player))
                &&& made && n > 1 && replies[1] == Reply::Answer(true) ==> p == Plan::Done(
                    Ok::<Seq<char>, Seq<char>>(player),
                )
                &&& made && n > 1 && replies[1] == Reply::Answer(false) ==> p == Plan::Done(
                    Ok::<Seq<char>, Seq<char>>(e@),
                )
            }
            &&& n > 0 ==> (replies[0] matches Reply::Did(Err(e)) ==> p == Plan::Done(
                Err::<Seq<char>, Seq<char>>("✗ create "@ + out_dir + ": "@ + e@),
            ))
        }),
{
}

/// What is said of an install names the app that was made of the package, and says
/// beforehand where it was not installed.
pub proof fn an_install_says_what_was_made(done: AppifyOutcome)
    ensures
        ({
            let said = install_words(Ok(done));
            &&& said.len() == (if done.installed {
                2int
            } else {
                3int
            })
            &&& said[said.len() - 2] == "✓ "@ + done.label@ + " → "@ + done.bundle@
            &&& said.last() == "› launching "@ + done.label@ + "…"@
            &&& !done.installed ==> said[0] == "⚠ APK not installed (is the runtime booted?)"@
        }),
{
}

/// A file is a package where its name ends like one, in small letters or large
/// ones.
pub proof fn packages_end_like_packages(name: Seq<char>, stem: Seq<char>)
    ensures
        lowercase(name) == stem + ".apk"@ ==> apk_name(name),
        apk_name(name) ==> lowercase(name).len() >= 4 && lowercase(name).skip(
            lowercase(name).len() - 4,
        ) == ".apk"@,
{
    reveal_strlit(".apk");
    let s = stem + ".apk"@;
    assert(s.skip(s.len() - 4) =~= ".apk"@);
}

/// That the start takes a while is said once three seconds have passed, and not
/// before.
pub proof fn long_starts_are_announced(w: RuntimeWait, elapsed: int)
    ensures
        elapsed <= 3_000_000_000 ==> !announces(w, elapsed),
        elapsed > 3_000_000_000 && !w.announced ==> announces(w, elapsed),
{
}

} // verus!
