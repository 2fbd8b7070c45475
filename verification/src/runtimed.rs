//! The daemon that owns the runtime: it boots the runtime on demand, counts who
//! needs it, and stops it once nobody has needed it for a while.

use crate::adb::{adb_call, online, shell_call, AdbService};
use crate::backend::{AndroidBackend, GpuBackend};
use crate::config::SdkConfig;
use crate::emulator::{boot_plan, EmulatorService};
use crate::error::{problem_text, EngineError, Problem};
use crate::ipc::text_under;
use crate::json::{decode, is_line, line_of, object, Item, Object, Value};
use crate::model::{Avd, BootProfile};
use crate::number::{parse_unsigned, unsigned};
use crate::step::{outcome_of, Act, Action, Plan, Reply, Step};
use crate::text::{
    begins, cat2, lines, list1, list4, push_text, same, slice_text, starts_with, text_lines,
    to_chars, trim, trimmed, views,
};
use vstd::prelude::*;

verus! {

/// One more, in 64 bits.
pub open spec fn bumped(generation: int, n: int) -> int {
    (generation + n) % 0x1_0000_0000_0000_0000
}

/// Who needs the runtime, and whose it is to stop.
#[derive(Debug, Clone, Copy, PartialEq, Eq, Structural)]
pub struct Leases {
    /// How many connections need the runtime.
    pub leases: usize,
    /// A number that every change of `leases` changes.
    pub generation: u64,
    /// The daemon booted the runtime itself.
    pub booted_by_us: bool,
}

/// The runtime is to be stopped after so many seconds, unless the number of a
/// change is another by then.
#[derive(Debug, Clone, Copy, PartialEq, Eq, Structural)]
pub struct Timer {
    pub generation: u64,
    pub seconds: u64,
}

impl Leases {
    /// Nobody needs the runtime yet.
    pub fn new() -> (r: Leases)
        ensures
            r == (Leases { leases: 0, generation: 0, booted_by_us: false }),
    {
        Leases { leases: 0, generation: 0, booted_by_us: false }
    }

    /// The state behind one lease more.
    pub open spec fn added(self) -> Leases {
        Leases {
            leases: (self.leases + 1) as usize,
            generation: bumped(self.generation as int, 1) as u64,
            booted_by_us: self.booted_by_us,
        }
    }

    /// The state behind one lease less.
    pub open spec fn removed(self) -> Leases {
        Leases {
            leases: if self.leases > 0 {
                (self.leases - 1) as usize
            } else {
                0
            },
            generation: bumped(self.generation as int, 1) as u64,
            booted_by_us: self.booted_by_us,
        }
    }

    /// What the removal of a lease sets off: nothing while someone needs the
    /// runtime, and nothing where the daemon did not boot it.
    pub open spec fn timer(self, linger: u64) -> Option<Timer> {
        if self.removed().leases == 0 && self.booted_by_us {
            Some(Timer { generation: self.removed().generation, seconds: linger })
        } else {
            None
        }
    }

    /// Counts one lease more.
    pub fn lease_added(&mut self)
        requires
            old(self).leases < usize::MAX,
        ensures
            *final(self) == old(self).added(),
    {
        self.leases = self.leases + 1;
        self.generation = self.generation.wrapping_add(1);
    }

    /// Counts one lease less, and says what that sets off. `linger` is how long
    /// the runtime is kept for someone to come back.
    pub fn lease_removed(&mut self, linger: u64) -> (r: Option<Timer>)
        ensures
            *final(self) == old(self).removed(),
            r == old(self).timer(linger),
    {
        if self.leases > 0 {
            self.leases = self.leases - 1;
        }
        self.generation = self.generation.wrapping_add(1);
        if self.leases == 0 && self.booted_by_us {
            Some(Timer { generation: self.generation, seconds: linger })
        } else {
            None
        }
    }

    /// Whether the runtime is to be stopped now that the time is up.
    pub fn stops(&self, timer: Timer) -> (r: bool)
        ensures
            r == (self.generation == timer.generation),
    {
        self.generation == timer.generation
    }
}

/// How long the runtime is kept, in seconds, from what the environment holds
/// under `ANDROLON_LINGER`.
pub open spec fn linger_of(value: Option<&str>) -> int {
    match value {
        Some(v) => match unsigned(v@, u64::MAX as int) {
            Some(n) => n,
            None => 120,
        },
        None => 120,
    }
}

/// How long the runtime is kept, in seconds, from what the environment holds
/// under `ANDROLON_LINGER`.
pub fn linger_seconds(value: Option<&str>) -> (r: u64)
    ensures
        r == linger_of(value),
{
    match value {
        Some(v) => match parse_unsigned(v, 0xffff_ffff_ffff_ffff) {
            Some(n) => n,
            None => 120,
        },
        None => 120,
    }
}

/// A runtime that the daemon did not boot is never stopped for want of leases.
pub proof fn foreign_runtime_is_left_alone(s: Leases, linger: u64)
    requires
        !s.booted_by_us,
    ensures
        s.timer(linger) is None,
{
}

/// While a lease is left, nothing is set off.
pub proof fn needed_runtime_is_left_alone(s: Leases, linger: u64)
    requires
        s.leases > 1,
    ensures
        s.timer(linger) is None,
{
}

/// The state behind changes of the leases, one after the other: one lease more
/// where a change is true, and one less where it is not.
pub open spec fn changed(s: Leases, changes: Seq<bool>) -> Leases
    decreases changes.len(),
{
    if changes.len() == 0 {
        s
    } else {
        let before = changed(s, changes.drop_last());
        if changes.last() {
            before.added()
        } else {
            before.removed()
        }
    }
}

proof fn changes_are_numbered(s: Leases, changes: Seq<bool>)
    ensures
        changed(s, changes).generation == bumped(s.generation as int, changes.len() as int),
    decreases changes.len(),
{
    let m = 0x1_0000_0000_0000_0000int;
    if changes.len() > 0 {
        changes_are_numbered(s, changes.drop_last());
        let x = s.generation as int + changes.len() - 1;
        assert((x % m + 1) % m == (x + 1) % m);
    }
}

/// The timer that the removal of a lease sets off stops the runtime where nothing
/// changes until the time is up. Whoever comes back or goes meanwhile cancels it,
/// whatever happens after that, for as many changes as 64 bits can count.
pub proof fn a_change_cancels_the_timer(s: Leases, linger: u64, changes: Seq<bool>)
    requires
        s.timer(linger) is Some,
        changes.len() < 0x1_0000_0000_0000_0000,
    ensures
        changed(s.removed(), changes).generation == s.timer(linger)->0.generation <==> changes.len()
            == 0,
{
    let m = 0x1_0000_0000_0000_0000int;
    let g = s.removed().generation as int;
    let n = changes.len() as int;
    changes_are_numbered(s.removed(), changes);
    if g + n < m {
        assert((g + n) % m == g + n);
    } else {
        assert((g + n) % m == g + n - m);
    }
}

/// A lease that is added and removed leaves the count as it was.
pub proof fn removing_undoes_adding(s: Leases)
    requires
        s.leases < usize::MAX,
    ensures
        s.added().removed().leases == s.leases,
{
}

/// What a client asks for.
#[derive(Debug)]
pub enum Request {
    /// The line holds no object.
    Bad,
    /// The object names no verb.
    NoVerb,
    Status,
    EnsureBooted,
    Release,
    InstalledApps,
    Shutdown,
    Unknown(String),
}

/// What a `Request` stands for.
pub enum Ask {
    Bad,
    NoVerb,
    Status,
    EnsureBooted,
    Release,
    InstalledApps,
    Shutdown,
    Unknown(Seq<char>),
}

impl View for Request {
    type V = Ask;

    open spec fn view(&self) -> Ask {
        match self {
            Request::Bad => Ask::Bad,
            Request::NoVerb => Ask::NoVerb,
            Request::Status => Ask::Status,
            Request::EnsureBooted => Ask::EnsureBooted,
            Request::Release => Ask::Release,
            Request::InstalledApps => Ask::InstalledApps,
            Request::Shutdown => Ask::Shutdown,
            Request::Unknown(verb) => Ask::Unknown(verb@),
        }
    }
}

/// What the verb `verb` asks for.
pub open spec fn ask_of_verb(verb: Seq<char>) -> Ask {
    if verb == "status"@ {
        Ask::Status
    } else if verb == "ensure-booted"@ {
        Ask::EnsureBooted
    } else if verb == "release"@ {
        Ask::Release
    } else if verb == "installed-apps"@ {
        Ask::InstalledApps
    } else if verb == "shutdown"@ {
        Ask::Shutdown
    } else {
        Ask::Unknown(verb)
    }
}

/// What a line asks for.
pub open spec fn ask_of(line: Seq<char>) -> Ask {
    match object(trim(line)) {
        None => Ask::Bad,
        Some(m) => match text_under(m, "req"@) {
            None => Ask::NoVerb,
            Some(verb) => ask_of_verb(verb),
        },
    }
}

/// Reads what a client asks for.
pub fn read_request(line: &str) -> (r: Request)
    ensures
        r@ == ask_of(line@),
{
    let obj = match decode(trimmed(line).as_str()) {
        Some(obj) => obj,
        None => {
            return Request::Bad;
        },
    };
    match obj.get("req") {
        Some(Value::Str(verb)) => {
            if same(verb.as_str(), "status") {
                Request::Status
            } else if same(verb.as_str(), "ensure-booted") {
                Request::EnsureBooted
            } else if same(verb.as_str(), "release") {
                Request::Release
            } else if same(verb.as_str(), "installed-apps") {
                Request::InstalledApps
            } else if same(verb.as_str(), "shutdown") {
                Request::Shutdown
            } else {
                Request::Unknown(verb.clone())
            }
        },
        _ => Request::NoVerb,
    }
}

/// What came of doing what a client asked for.
#[derive(Debug)]
pub enum Outcome {
    /// Nothing was to be done, or it was done.
    Nothing,
    /// The runtime is there, or not.
    Running(bool),
    /// The runtime is booted, by the daemon where the flag says so.
    Booted(bool),
    /// The apps that are installed.
    Apps(Vec<String>),
    /// It could not be done.
    Failed(String),
}

/// The packages that lines of the manager's output name.
pub open spec fn packages_in(ls: Seq<Seq<char>>) -> Seq<Seq<char>>
    decreases ls.len(),
{
    if ls.len() == 0 {
        seq![]
    } else {
        let front = packages_in(ls.drop_last());
        if starts_with(ls.last(), "package:"@) {
            front.push(trim(ls.last().skip(8)))
        } else {
            front
        }
    }
}

/// The packages that the manager's output names.
pub fn package_names(output: &str) -> (r: Vec<String>)
    ensures
        views(r@) == packages_in(lines(output@)),
{
    let ls = text_lines(output);
    let ghost all = views(ls@);
    let mut r: Vec<String> = Vec::new();
    let mut i: usize = 0;
    assert(all.take(0) =~= seq![]);
    assert(views(r@) =~= seq![]);
    while i < ls.len()
        invariant
            i <= ls.len(),
            all == views(ls@),
            views(r@) == packages_in(all.take(i as int)),
        decreases ls.len() - i,
    {
        assert(all.take(i + 1).drop_last() =~= all.take(i as int));
        assert(all.take(i + 1).last() == ls@[i as int]@);
        if begins(ls[i].as_str(), "package:") {
            proof {
                reveal_strlit("package:");
            }
            let v = to_chars(ls[i].as_str());
            let rest = slice_text(&v, 8, v.len());
            assert(rest@ =~= v@.skip(8));
            push_text(&mut r, trimmed(rest.as_str()).as_str());
        }
        i = i + 1;
    }
    assert(all.take(ls@.len() as int) =~= all);
    r
}

/// The command that lists the apps of the user.
pub open spec fn apps_call(config: SdkConfig) -> crate::subprocess::Invocation {
    shell_call(config, seq!["pm"@, "list"@, "packages"@, "-3"@])
}

/// How the runtime is booted where it is not there: without a window, from a
/// snapshot, within four minutes. The result says whether it was booted.
pub open spec fn ensure_plan(
    config: SdkConfig,
    args: Seq<Seq<char>>,
    log: Seq<char>,
    replies: Seq<Reply>,
) -> Plan<Result<bool, Problem>> {
    if replies.len() == 0 {
        Plan::Do(Act::Run(adb_call(config, seq!["get-state"@])))
    } else if online(replies[0]) {
        Plan::Done(Ok(false))
    } else {
        match boot_plan(config, args, log, 240_000, replies.skip(1)) {
            Plan::Do(a) => Plan::Do(a),
            Plan::Done(Ok(_)) => Plan::Done(Ok(true)),
            Plan::Done(Err(e)) => Plan::Done(Err(e)),
        }
    }
}

/// The device that the daemon boots is the one behind the windows of the apps.
pub open spec fn daemon_args() -> Seq<Seq<char>> {
    seq!["-avd"@, "androlon_desktop"@] + BootProfile::Consumer.snapshot_flags() + seq![
        "-no-window"@,
        "-gpu"@,
        "host"@,
    ]
}

/// The daemon's side of the suite.
pub struct Daemon<G> {
    pub engine: EmulatorService<G>,
    /// Where the emulator's output goes.
    pub log: String,
}

impl<G: GpuBackend> Daemon<G> {
    /// The next step of booting the runtime where it is not there.
    pub fn ensure_booted(&self, replies: &Vec<Reply>) -> (s: Step<Result<bool, EngineError>>)
        ensures
            match (
                s,
                ensure_plan(
                    self.engine.config,
                    daemon_args(),
                    self.log@,
                    replies@,
                ),
            ) {
                (Step::Do(a), Plan::Do(b)) => a@ == b,
                (Step::Done(Ok(a)), Plan::Done(Ok(b))) => a == b,
                (Step::Done(Err(a)), Plan::Done(Err(b))) => a@ == b,
                _ => false,
            },
    {
        let adb = AdbService::new(&self.engine.config);
        if replies.len() == 0 {
            return Step::Do(Action::Run(adb.adb(list1("get-state"))));
        }
        if adb.device_online(&replies[0]) {
            return Step::Done(Ok(false));
        }
        let avd = Avd::desktop();
        let args = self.engine.boot_list(&avd, BootProfile::Consumer, true);
        assert(views(args@) =~= daemon_args());
        match self.engine.boot_from(args, self.log.as_str(), 240_000, replies, 1) {
            Step::Do(a) => Step::Do(a),
            Step::Done(Ok(_)) => Step::Done(Ok(true)),
            Step::Done(Err(e)) => Step::Done(Err(e)),
        }
    }

    /// The next step of listing the apps of the user.
    pub fn installed_apps(&self, replies: &Vec<Reply>) -> (s: Step<
        Result<Vec<String>, EngineError>,
    >)
        ensures
            match s {
                Step::Do(a) => replies@.len() == 0 && a@ == Act::Run(apps_call(self.engine.config)),
                Step::Done(r) => {
                    &&& replies@.len() > 0
                    &&& match outcome_of(
                        self.engine.config.host,
                        apps_call(self.engine.config),
                        replies@[0],
                    ) {
                        Ok((_, text)) => r matches Ok(list) && views(list@) == packages_in(
                            lines(trim(text)),
                        ),
                        Err(e) => r matches Err(f) && f@ == e,
                    }
                },
            },
    {
        let c = AdbService::new(&self.engine.config).shell(list4("pm", "list", "packages", "-3"));
        if replies.len() == 0 {
            return Step::Do(Action::Run(c));
        }
        match replies[0].ran(self.engine.config.host, &c) {
            Ok(done) => Step::Done(Ok(package_names(done.trimmed().as_str()))),
            Err(e) => Step::Done(Err(e)),
        }
    }

    /// The next step of doing what a client asks for.
    pub fn attend(&self, request: &Request, replies: &Vec<Reply>) -> (s: Step<Outcome>)
        ensures
            is_attended(*self, request@, replies@, s),
            s matches Step::Done(outcome) ==> can_come(request@, outcome),
    {
        match request {
            Request::Status => match self.engine.emulator_running(replies) {
                Step::Do(a) => Step::Do(a),
                Step::Done(b) => Step::Done(Outcome::Running(b)),
            },
            Request::EnsureBooted => match self.ensure_booted(replies) {
                Step::Do(a) => Step::Do(a),
                Step::Done(Ok(by_us)) => Step::Done(Outcome::Booted(by_us)),
                Step::Done(Err(e)) => Step::Done(Outcome::Failed(e.message())),
            },
            Request::InstalledApps => match self.installed_apps(replies) {
                Step::Do(a) => Step::Do(a),
                Step::Done(Ok(apps)) => Step::Done(Outcome::Apps(apps)),
                Step::Done(Err(e)) => Step::Done(Outcome::Failed(e.message())),
            },
            Request::Shutdown => match self.engine.stop(replies) {
                Step::Do(a) => Step::Do(a),
                Step::Done(_) => Step::Done(Outcome::Nothing),
            },
            _ => Step::Done(Outcome::Nothing),
        }
    }
}

/// `s` is the next step of doing what a client asks for, or what came of it.
pub open spec fn is_attended<G: GpuBackend>(
    d: Daemon<G>,
    ask: Ask,
    replies: Seq<Reply>,
    s: Step<Outcome>,
) -> bool {
    let config = d.engine.config;
    match ask {
        Ask::Status => if replies.len() == 0 {
            s matches Step::Do(a) && a@ == Act::Run(adb_call(config, seq!["get-state"@]))
        } else {
            s == Step::Done(Outcome::Running(online(replies[0])))
        },
        Ask::EnsureBooted => match ensure_plan(
            config,
            daemon_args(),
            d.log@,
            replies,
        ) {
            Plan::Do(a) => s matches Step::Do(b) && b@ == a,
            Plan::Done(Ok(by_us)) => s == Step::Done(Outcome::Booted(by_us)),
            Plan::Done(Err(e)) => s matches Step::Done(Outcome::Failed(text)) && text@
                == problem_text(e),
        },
        Ask::InstalledApps => if replies.len() == 0 {
            s matches Step::Do(a) && a@ == Act::Run(apps_call(config))
        } else {
            match outcome_of(config.host, apps_call(config), replies[0]) {
                Ok((_, text)) => s matches Step::Done(Outcome::Apps(list)) && views(list@)
                    == packages_in(lines(trim(text))),
                Err(e) => s matches Step::Done(Outcome::Failed(text)) && text@ == problem_text(e),
            }
        },
        Ask::Shutdown => if replies.len() == 0 {
            s matches Step::Do(a) && a@ == Act::Run(adb_call(config, seq!["emu"@, "kill"@]))
        } else {
            s == Step::Done(Outcome::Nothing)
        },
        _ => s == Step::Done(Outcome::Nothing),
    }
}

/// `outcome` can come of doing what a client asks for.
pub open spec fn can_come(ask: Ask, outcome: Outcome) -> bool {
    match ask {
        Ask::Status => outcome is Running,
        Ask::EnsureBooted => outcome is Booted || outcome is Failed,
        Ask::InstalledApps => outcome is Apps || outcome is Failed,
        _ => outcome is Nothing,
    }
}

/// An answer without members.
pub open spec fn blank() -> Map<Seq<char>, Item> {
    Map::empty()
}

/// An answer that nothing went wrong.
pub open spec fn fine() -> Map<Seq<char>, Item> {
    blank().insert("ok"@, Item::Bool(true))
}

/// An answer that something went wrong.
pub open spec fn wrong(text: Seq<char>) -> Map<Seq<char>, Item> {
    blank().insert("err"@, Item::Str(text))
}

/// What the daemon answers, with `leases` connections that need the runtime.
pub open spec fn answer_of(ask: Ask, outcome: Outcome, leases: int) -> Map<Seq<char>, Item> {
    match (ask, outcome) {
        (Ask::Bad, _) => wrong("bad request"@),
        (Ask::NoVerb, _) => wrong("missing req"@),
        (Ask::Unknown(verb), _) => wrong("unknown req: "@ + verb),
        (_, Outcome::Failed(text)) => wrong(text@),
        (Ask::Status, Outcome::Running(b)) => fine().insert("booted"@, Item::Bool(b)).insert(
            "leases"@,
            Item::Int(leases),
        ),
        (Ask::EnsureBooted, Outcome::Booted(_)) => fine().insert("booted"@, Item::Bool(true)),
        (Ask::InstalledApps, Outcome::Apps(list)) => fine().insert(
            "packages"@,
            Item::List(views(list@)),
        ),
        _ => fine(),
    }
}

/// The connection of one client.
#[derive(Debug, Clone, Copy, PartialEq, Eq, Structural)]
pub struct Connection {
    /// The client needs the runtime.
    pub leased: bool,
}

/// The request was met: the runtime is booted.
pub open spec fn booted(ask: Ask, outcome: Outcome) -> bool {
    ask is EnsureBooted && outcome is Booted
}

/// The state of the leases behind an answer.
pub open spec fn leases_after(s: Leases, c: Connection, ask: Ask, outcome: Outcome) -> Leases {
    let s = if outcome == Outcome::Booted(true) && ask is EnsureBooted {
        Leases { booted_by_us: true, ..s }
    } else {
        s
    };
    if booted(ask, outcome) && !c.leased {
        s.added()
    } else if ask is Release && c.leased {
        s.removed()
    } else {
        s
    }
}

/// The connection behind an answer.
pub open spec fn connection_after(c: Connection, ask: Ask, outcome: Outcome) -> Connection {
    if booted(ask, outcome) {
        Connection { leased: true }
    } else if ask is Release {
        Connection { leased: false }
    } else {
        c
    }
}

/// One for a connection that needs the runtime.
pub open spec fn count(c: Connection) -> int {
    if c.leased {
        1
    } else {
        0
    }
}

/// How many of the connections need the runtime.
pub open spec fn total(cs: Seq<Connection>) -> int
    decreases cs.len(),
{
    if cs.len() == 0 {
        0
    } else {
        total(cs.drop_last()) + count(cs.last())
    }
}

proof fn total_of_one_changed(cs: Seq<Connection>, i: int, c: Connection)
    requires
        0 <= i < cs.len(),
    ensures
        total(cs.update(i, c)) == total(cs) - count(cs[i]) + count(c),
        total(cs) >= count(cs[i]),
        total(cs) >= 0,
    decreases cs.len(),
{
    let front = cs.drop_last();
    if i == cs.len() - 1 {
        assert(cs.update(i, c).drop_last() =~= front);
        if front.len() > 0 {
            total_of_one_changed(front, 0, front[0]);
        }
    } else {
        assert(cs.update(i, c).drop_last() =~= front.update(i, c));
        total_of_one_changed(front, i, c);
    }
}

/// The leases are the connections that need the runtime, in every state: however
/// often a client asks it counts once, a release counts only for one that has a
/// lease, and a client that is gone counts no more.
pub proof fn leases_count_connections(
    s: Leases,
    cs: Seq<Connection>,
    i: int,
    ask: Ask,
    outcome: Outcome,
)
    requires
        0 <= i < cs.len(),
        s.leases == total(cs),
        s.leases < usize::MAX,
    ensures
        leases_after(s, cs[i], ask, outcome).leases == total(
            cs.update(i, connection_after(cs[i], ask, outcome)),
        ),
        (if cs[i].leased {
            s.removed()
        } else {
            s
        }).leases == total(cs.update(i, Connection { leased: false })),
        total(cs.push(Connection { leased: false })) == total(cs),
{
    total_of_one_changed(cs, i, connection_after(cs[i], ask, outcome));
    total_of_one_changed(cs, i, Connection { leased: false });
    assert(cs.push(Connection { leased: false }).drop_last() =~= cs);
}

/// The leases and the connection behind requests of one client, each with what
/// came of it.
pub open spec fn served(s: Leases, c: Connection, asked: Seq<(Ask, Outcome)>) -> (
    Leases,
    Connection,
)
    decreases asked.len(),
{
    if asked.len() == 0 {
        (s, c)
    } else {
        let (t, d) = served(s, c, asked.drop_last());
        let (ask, outcome) = asked.last();
        (leases_after(t, d, ask, outcome), connection_after(d, ask, outcome))
    }
}

/// The client needs the runtime behind the requests: it was booted for it, and
/// there was no release since.
pub open spec fn needs_runtime(asked: Seq<(Ask, Outcome)>) -> bool {
    exists|i: int|
        0 <= i < asked.len() && #[trigger] booted(asked[i].0, asked[i].1) && forall|j: int|
            i < j < asked.len() ==> #[trigger] asked[j].0 !is Release
}

/// A client holds one lease at most, however many requests it makes: exactly
/// from where the runtime was booted for it until it releases it. When it is
/// gone, the leases are what they were before it came.
pub proof fn a_client_holds_one_lease(s: Leases, asked: Seq<(Ask, Outcome)>)
    requires
        s.leases < usize::MAX,
    ensures
        ({
            let (t, c) = served(s, Connection { leased: false }, asked);
            &&& c.leased == needs_runtime(asked)
            &&& t.leases == s.leases + count(c)
            &&& (if c.leased {
                t.removed()
            } else {
                t
            }).leases == s.leases
        }),
    decreases asked.len(),
{
    if asked.len() > 0 {
        let front = asked.drop_last();
        let n = asked.len() - 1;
        a_client_holds_one_lease(s, front);
        let (t, c) = served(s, Connection { leased: false }, front);
        let (ask, outcome) = asked.last();
        assert(asked[n] == (ask, outcome));
        if booted(ask, outcome) {
            assert(booted(asked[n].0, asked[n].1));
        } else if ask is Release {
            assert(!needs_runtime(asked)) by {
                if needs_runtime(asked) {
                    let i = choose|i: int|
                        0 <= i < asked.len() && #[trigger] booted(asked[i].0, asked[i].1)
                            && forall|j: int|
                            i < j < asked.len() ==> #[trigger] asked[j].0 !is Release;
                    assert(i < n);
                    assert(asked[n].0 !is Release);
                }
            }
        } else {
            if needs_runtime(front) {
                let i = choose|i: int|
                    0 <= i < front.len() && #[trigger] booted(front[i].0, front[i].1) && forall|
                        j: int,
                    |
                        i < j < front.len() ==> #[trigger] front[j].0 !is Release;
                assert(booted(asked[i].0, asked[i].1));
                assert forall|j: int| i < j < asked.len() implies #[trigger] asked[j].0 !is Release by {
                    if j < n {
                        assert(front[j].0 !is Release);
                    }
                }
            }
            if needs_runtime(asked) {
                let i = choose|i: int|
                    0 <= i < asked.len() && #[trigger] booted(asked[i].0, asked[i].1) && forall|
                        j: int,
                    |
                        i < j < asked.len() ==> #[trigger] asked[j].0 !is Release;
                assert(i < n);
                assert(booted(front[i].0, front[i].1));
                assert forall|j: int| i < j < front.len() implies #[trigger] front[j].0 !is Release by {
                    assert(asked[j].0 !is Release);
                }
            }
        }
    }
}

/// A refused request is answered with an error, and changes no lease.
pub proof fn refusals_change_nothing(s: Leases, c: Connection, ask: Ask, outcome: Outcome)
    requires
        can_come(ask, outcome),
        ask is Bad || ask is NoVerb || ask is Unknown || outcome is Failed,
    ensures
        leases_after(s, c, ask, outcome) == s,
        connection_after(c, ask, outcome) == c,
        answer_of(ask, outcome, s.leases as int).dom().contains("err"@),
{
}

/// No answer holds both a success and an error.
pub proof fn answers_are_one_or_the_other(ask: Ask, outcome: Outcome, leases: int)
    ensures
        answer_of(ask, outcome, leases).dom().contains("ok"@) != answer_of(
            ask,
            outcome,
            leases,
        ).dom().contains("err"@),
{
    reveal_strlit("ok");
    reveal_strlit("err");
    reveal_strlit("booted");
    reveal_strlit("leases");
    reveal_strlit("packages");
    assert("ok"@.len() == 2 && "err"@.len() == 3 && "booted"@.len() == 6 && "leases"@.len() == 6
        && "packages"@.len() == 8);
}

impl Connection {
    /// A client that was just connected.
    pub fn new() -> (r: Connection)
        ensures
            !r.leased,
    {
        Connection { leased: false }
    }

    /// Answers a request: the line of the answer, and what the answer sets off.
    pub fn serve(
        &mut self,
        state: &mut Leases,
        request: &Request,
        outcome: Outcome,
        linger: u64,
    ) -> (r: (String, Option<Timer>))
        requires
            can_come(request@, outcome),
            booted(request@, outcome) && !old(self).leased ==> old(state).leases < usize::MAX,
        ensures
            *final(state) == leases_after(*old(state), *old(self), request@, outcome),
            *final(self) == connection_after(*old(self), request@, outcome),
            is_line((r.0)@, answer_of(request@, outcome, old(state).leases as i64 as int)),
            r.1 == (if request@ is Release && old(self).leased {
                old(state).timer(linger)
            } else {
                None
            }),
    {
        let mut obj = Object::new();
        let mut timer: Option<Timer> = None;
        let leases: i64 = state.leases as i64;
        let error = match request {
            Request::Bad => Some("bad request".to_owned()),
            Request::NoVerb => Some("missing req".to_owned()),
            Request::Unknown(verb) => Some(cat2("unknown req: ", verb.as_str())),
            _ => match &outcome {
                Outcome::Failed(text) => Some(text.clone()),
                _ => None,
            },
        };
        match request {
            Request::EnsureBooted => {
                match &outcome {
                    Outcome::Booted(by_us) => {
                        if *by_us {
                            state.booted_by_us = true;
                        }
                        if !self.leased {
                            self.leased = true;
                            state.lease_added();
                        }
                    },
                    _ => {},
                }
            },
            Request::Release => {
                if self.leased {
                    self.leased = false;
                    timer = state.lease_removed(linger);
                }
            },
            _ => {},
        }
        match error {
            Some(text) => {
                obj.insert("err".to_owned(), Value::Str(text));
            },
            None => {
                obj.insert("ok".to_owned(), Value::Bool(true));
                match request {
                    Request::Status => {
                        let running = matches!(outcome, Outcome::Running(true));
                        obj.insert("booted".to_owned(), Value::Bool(running));
                        obj.insert("leases".to_owned(), Value::Int(leases));
                    },
                    Request::EnsureBooted => {
                        obj.insert("booted".to_owned(), Value::Bool(true));
                    },
                    Request::InstalledApps => {
                        let list = match outcome {
                            Outcome::Apps(list) => list,
                            _ => Vec::new(),
                        };
                        obj.insert("packages".to_owned(), Value::List(list));
                    },
                    _ => {},
                }
            },
        }
        (line_of(&obj), timer)
    }

    /// The client is gone: the lease that it had is taken back.
    pub fn close(&mut self, state: &mut Leases, linger: u64) -> (r: Option<Timer>)
        ensures
            !final(self).leased,
            *final(state) == (if old(self).leased {
                old(state).removed()
            } else {
                *old(state)
            }),
            r == (if old(self).leased {
                old(state).timer(linger)
            } else {
                None
            }),
    {
        if self.leased {
            self.leased = false;
            state.lease_removed(linger)
        } else {
            None
        }
    }
}

/// A boot on demand says whether the daemon booted the runtime: it did exactly
/// where no device was there before and the boot ended well, and it did not
/// exactly where a device was there. A device is there where it says so of
/// itself.
pub proof fn a_boot_on_demand_tells_who_booted(
    config: SdkConfig,
    args: Seq<Seq<char>>,
    log: Seq<char>,
    replies: Seq<Reply>,
)
    ensures
        ensure_plan(config, args, log, replies) == Plan::Done(Ok::<bool, Problem>(false))
            <==> replies.len() > 0 && crate::adb::says_only(replies[0], "device"@),
        ensure_plan(config, args, log, replies) == Plan::Done(Ok::<bool, Problem>(true))
            <==> replies.len() > 0 && !crate::adb::says_only(replies[0], "device"@) && (boot_plan(
            config,
            args,
            log,
            240_000,
            replies.skip(1),
        ) matches Plan::Done(Ok(_))),
        replies.len() > 0 && !crate::adb::says_only(replies[0], "device"@) ==> (ensure_plan(
            config,
            args,
            log,
            replies,
        ) is Done <==> boot_plan(config, args, log, 240_000, replies.skip(1)) is Done),
        replies.len() > 0 && !crate::adb::says_only(replies[0], "device"@) ==> (boot_plan(
            config,
            args,
            log,
            240_000,
            replies.skip(1),
        ) matches Plan::Done(Err(e)) ==> ensure_plan(config, args, log, replies) == Plan::Done(
            Err::<bool, Problem>(e),
        )),
        replies.len() == 0 ==> (ensure_plan(config, args, log, replies) matches Plan::Do(
            Act::Run(c),
        ) && c.exe == config.adb_path() && c.args == seq!["get-state"@]),
{
}

/// A runtime that the daemon booted is the daemon's to stop: the client that it
/// was booted for is the first that needs it, and once that client has released
/// it, it is kept for the time that was chosen and then stopped. One that was
/// there before is never stopped on that account.
pub proof fn a_runtime_that_was_booted_is_stopped_again(
    config: SdkConfig,
    args: Seq<Seq<char>>,
    log: Seq<char>,
    replies: Seq<Reply>,
    s: Leases,
    linger: u64,
    by_us: bool,
)
    requires
        s.leases == 0,
        ensure_plan(config, args, log, replies) == Plan::Done(Ok::<bool, Problem>(by_us)),
    ensures
        ({
            let c = Connection { leased: false };
            let t = leases_after(s, c, Ask::EnsureBooted, Outcome::Booted(by_us));
            let d = connection_after(c, Ask::EnsureBooted, Outcome::Booted(by_us));
            &&& d.leased
            &&& t.leases == 1
            &&& t.booted_by_us == (s.booted_by_us || !crate::adb::says_only(
                replies[0],
                "device"@,
            ))
            &&& !crate::adb::says_only(replies[0], "device"@) ==> (t.timer(linger) matches Some(
                timer,
            ) && timer.seconds == linger && timer.generation == leases_after(
                t,
                d,
                Ask::Release,
                Outcome::Nothing,
            ).generation)
            &&& crate::adb::says_only(replies[0], "device"@) && !s.booted_by_us ==> t.timer(linger)
                is None
        }),
{
    a_boot_on_demand_tells_who_booted(config, args, log, replies);
}

/// A request that was written by its verb is understood as that verb; none of
/// the verbs is taken for another.
pub proof fn verbs_are_understood(line: Seq<char>, verb: Seq<char>, args: Seq<(String, Value)>)
    requires
        is_line(line, crate::ipc::request_map(verb, args)),
        forall|i: int| 0 <= i < args.len() ==> (#[trigger] args[i]).0@ != "req"@,
    ensures
        verb == "status"@ ==> ask_of(line) is Status,
        verb == "ensure-booted"@ ==> ask_of(line) is EnsureBooted,
        verb == "release"@ ==> ask_of(line) is Release,
        verb == "installed-apps"@ ==> ask_of(line) is InstalledApps,
        verb == "shutdown"@ ==> ask_of(line) is Shutdown,
        ask_of(line) matches Ask::Unknown(v) ==> v == verb,
        !(ask_of(line) is Bad),
        !(ask_of(line) is NoVerb),
{
    crate::ipc::request_reads_back(line, verb, args);
    verb_stays(Map::<Seq<char>, Item>::empty().insert("req"@, Item::Str(verb)), args);
    reveal_strlit("status");
    reveal_strlit("ensure-booted");
    reveal_strlit("release");
    reveal_strlit("installed-apps");
    reveal_strlit("shutdown");
    assert("status"@[1] == 't' && "release"@[1] == 'e' && "shutdown"@[1] == 'h'
        && "ensure-booted"@[1] == 'n' && "installed-apps"@[1] == 'n');
    assert("ensure-booted"@[0] != "installed-apps"@[0]);
}

proof fn verb_stays(m: Map<Seq<char>, Item>, args: Seq<(String, Value)>)
    requires
        m.dom().contains("req"@),
        forall|i: int| 0 <= i < args.len() ==> (#[trigger] args[i]).0@ != "req"@,
    ensures
        crate::ipc::with_args(m, args).dom().contains("req"@),
        crate::ipc::with_args(m, args)["req"@] == m["req"@],
    decreases args.len(),
{
    if args.len() > 0 {
        let front = args.drop_last();
        assert(forall|i: int| 0 <= i < front.len() ==> front[i] == args[i]);
        assert(args.last().0@ != "req"@);
        verb_stays(m, front);
    }
}

/// The device that the daemon boots is the one behind the windows of the apps, for
/// a consumer and without a window, whatever the graphics of the engine are.
pub proof fn the_daemon_boots_the_desktop(avd: Avd, gpu: Seq<Seq<char>>)
    requires
        avd.name@ == "androlon_desktop"@,
    ensures
        daemon_args() == crate::emulator::boot_args(avd, BootProfile::Consumer, gpu, true),
        daemon_args()[0] == "-avd"@,
        daemon_args()[1] == "androlon_desktop"@,
        !daemon_args().contains("-no-snapshot"@),
        daemon_args().contains("-no-window"@),
{
    let a = daemon_args();
    assert(a =~= seq!["-avd"@, "androlon_desktop"@, "-no-window"@, "-gpu"@, "host"@]);
    assert(a[2] == "-no-window"@);
    reveal_strlit("-no-snapshot");
    reveal_strlit("-avd");
    reveal_strlit("androlon_desktop");
    reveal_strlit("-no-window");
    reveal_strlit("-gpu");
    reveal_strlit("host");
    assert("-no-snapshot"@.len() == 12);
}

/// The packages of a list are those of the lines that name one, in their order:
/// each is what stands behind the mark, and lines without it are left out.
pub proof fn packages_are_named_by_their_lines(ls: Seq<Seq<char>>, name: Seq<char>)
    ensures
        packages_in(ls.push("package:"@ + name)) == packages_in(ls).push(trim(name)),
        !starts_with(name, "package:"@) ==> packages_in(ls.push(name)) == packages_in(ls),
{
    let line = "package:"@ + name;
    reveal_strlit("package:");
    assert("package:"@.len() == 8);
    assert(line.take(8) =~= "package:"@);
    assert(line.skip(8) =~= name);
    assert(ls.push(line).drop_last() =~= ls);
    assert(ls.push(name).drop_last() =~= ls);
}

/// An answer says what came of the request: whether the runtime is there and how
/// many need it, that it is booted, the apps, or what went wrong.
pub proof fn answers_say_what_came(ask: Ask, outcome: Outcome, leases: int)
    requires
        can_come(ask, outcome),
    ensures
        ({
            let m = answer_of(ask, outcome, leases);
            &&& m.dom().contains("ok"@) ==> m["ok"@] == Item::Bool(true)
            &&& outcome matches Outcome::Failed(text) ==> m.dom().contains("err"@) && m["err"@]
                == Item::Str(text@)
            &&& ask matches Ask::Unknown(verb) ==> m.dom().contains("err"@) && m["err"@]
                == Item::Str("unknown req: "@ + verb)
            &&& outcome matches Outcome::Running(b) ==> m.dom().contains("booted"@) && m["booted"@]
                == Item::Bool(b) && m.dom().contains("leases"@) && m["leases"@] == Item::Int(leases)
            &&& outcome is Booted ==> m.dom().contains("ok"@) && m.dom().contains("booted"@)
                && m["booted"@] == Item::Bool(true)
            &&& outcome matches Outcome::Apps(list) ==> m.dom().contains("packages"@)
                && m["packages"@] == Item::List(views(list@))
            &&& ask is Release || ask is Shutdown ==> m.dom().contains("ok"@)
        }),
{
    reveal_strlit("ok");
    reveal_strlit("err");
    reveal_strlit("booted");
    reveal_strlit("leases");
    reveal_strlit("packages");
    assert("ok"@.len() == 2 && "err"@.len() == 3 && "packages"@.len() == 8);
    assert("booted"@[0] == 'b' && "leases"@[0] == 'l');
}

/// What a client asks for is what is done: the state of the device is asked for
/// its status, the apps are those that the device lists, the emulator is told to
/// end where it is to be shut down, and nothing is done for a release.
pub proof fn requests_are_attended_to<G: GpuBackend>(
    d: Daemon<G>,
    ask: Ask,
    replies: Seq<Reply>,
    s: Step<Outcome>,
)
    requires
        is_attended(d, ask, replies, s),
    ensures
        replies.len() == 0 && ask is Status ==> (s matches Step::Do(Action::Run(c)) && c@.exe
            == d.engine.config.adb_path() && c@.args == seq!["get-state"@]),
        replies.len() > 0 && ask is Status ==> s == Step::Done(
            Outcome::Running(crate::adb::says_only(replies[0], "device"@)),
        ),
        replies.len() == 0 && ask is InstalledApps ==> (s matches Step::Do(Action::Run(c)) && c@.exe
            == d.engine.config.adb_path() && c@.args == seq![
            "shell"@,
            "pm"@,
            "list"@,
            "packages"@,
            "-3"@,
        ]),
        replies.len() > 0 && ask is InstalledApps ==> (s matches Step::Done(Outcome::Apps(_)) <==> (
        replies[0] matches Reply::Ran(Ok(_)))),
        replies.len() == 0 && ask is Shutdown ==> (s matches Step::Do(Action::Run(c)) && c@.exe
            == d.engine.config.adb_path() && c@.args == seq!["emu"@, "kill"@]),
        replies.len() > 0 && ask is Shutdown ==> s == Step::Done(Outcome::Nothing),
        ask is Release ==> s == Step::Done(Outcome::Nothing),
        ask is EnsureBooted ==> (s == Step::Done(Outcome::Booted(false)) <==> replies.len() > 0
            && crate::adb::says_only(replies[0], "device"@)),
{
    a_boot_on_demand_tells_who_booted(d.engine.config, daemon_args(), d.log@, replies);
    assert(seq!["shell"@] + seq!["pm"@, "list"@, "packages"@, "-3"@] =~= seq![
        "shell"@,
        "pm"@,
        "list"@,
        "packages"@,
        "-3"@,
    ]);
    if let Step::Do(a) = s {
        if a is Run {
            let c = a->Run_0;
            assert(a@ == Act::Run(c@));
        }
    }
}

/// How long the runtime is kept is the number that was chosen, and two minutes
/// where none was.
pub proof fn the_chosen_time_counts(n: int, v: &str, other: &str)
    requires
        0 <= n <= u64::MAX,
        v@ == crate::number::dec(n),
        unsigned(other@, u64::MAX as int) is None,
    ensures
        linger_of(Some(v)) == n,
        linger_of(Some(other)) == 120,
        linger_of(None) == 120,
{
    crate::number::dec_unsigned_reads_back(n, u64::MAX as int);
}

} // verus!
