//! The management panel: what it shows, and what a press of its buttons does.
//! Long work runs beside the panel and reports back in messages.

use crate::badging::ApkInfo;
use crate::error::{problem_text, EngineError, Problem};
use crate::host::Host;
use crate::model::{BootProfile, DoctorReport, RootStatus, ToolCheck};
use crate::number::{dec, decimal, megabytes, megabytes_text};
use crate::text::{cat2, cat3, cat5, copy_list, join_texts, joined, views};
use vstd::prelude::*;

verus! {

/// A long piece of work that the panel can start.
#[derive(Clone, Copy, Debug, PartialEq, Eq, Structural)]
pub enum Task {
    Refresh,
    Setup,
    CreateAvds,
    BootDesktop,
    RootAdbd,
    Stop,
}

impl Task {
    /// What the task does, in words.
    pub open spec fn name(self) -> Seq<char> {
        match self {
            Task::Refresh => "refresh status"@,
            Task::Setup => "install SDK"@,
            Task::CreateAvds => "create AVDs"@,
            Task::BootDesktop => "boot desktop AVD"@,
            Task::RootAdbd => "enable adbd root"@,
            Task::Stop => "stop emulator"@,
        }
    }

    /// What the task does, in words.
    pub fn verb(self) -> (r: &'static str)
        ensures
            r@ == self.name(),
    {
        match self {
            Task::Refresh => "refresh status",
            Task::Setup => "install SDK",
            Task::CreateAvds => "create AVDs",
            Task::BootDesktop => "boot desktop AVD",
            Task::RootAdbd => "enable adbd root",
            Task::Stop => "stop emulator",
        }
    }
}

/// What a task reports back to the panel.
#[derive(Debug)]
pub enum Msg {
    /// A line for the log.
    Log(String),
    /// What the engine looks like now.
    Report(DoctorReport),
    /// The task is over.
    Done,
}

/// A package that waits for the user's go-ahead.
#[derive(Debug)]
pub struct PendingInstall {
    pub apk: String,
    pub info: ApkInfo,
    /// Where the app is to be made; the user can change it.
    pub dest: String,
}

/// How many lines the log keeps.
pub const LOG_LINES: usize = 200;

/// How many lines of the log are shown.
pub const SHOWN_LINES: usize = 14;

/// The last `n` entries of `log`, or all of them where it has fewer.
pub open spec fn last_of(log: Seq<Seq<char>>, n: int) -> Seq<Seq<char>> {
    if log.len() > n {
        log.skip(log.len() - n)
    } else {
        log
    }
}

/// What an `AppState` stands for.
pub struct Panel {
    pub report: DoctorReport,
    pub log: Seq<Seq<char>>,
    pub busy: bool,
    pub profile: BootProfile,
    pub open_video: bool,
    pub open_live: bool,
    pub pending: Option<PendingInstall>,
    pub confirmed: Option<PendingInstall>,
}

impl Panel {
    /// The panel with one more line in its log, which keeps its last lines only.
    pub open spec fn with_line(self, line: Seq<char>) -> Panel {
        Panel { log: last_of(self.log.push(line), LOG_LINES as int), ..self }
    }

    /// The panel once it has had the message.
    pub open spec fn after(self, m: Msg) -> Panel {
        match m {
            Msg::Log(line) => self.with_line(line@),
            Msg::Report(report) => Panel { report, ..self },
            Msg::Done => Panel { busy: false, ..self },
        }
    }

    /// The panel once it has had all the messages, the first one first.
    pub open spec fn after_all(self, msgs: Seq<Msg>) -> Panel
        decreases msgs.len(),
    {
        if msgs.len() == 0 {
            self
        } else {
            self.after(msgs[0]).after_all(msgs.skip(1))
        }
    }

    /// The panel once `task` was asked for: nothing starts while another task
    /// goes on.
    pub open spec fn started(self, task: Task) -> Panel {
        if self.busy {
            self
        } else {
            Panel { busy: true, ..self.with_line("▶ "@ + task.name() + "…"@) }
        }
    }

    /// The panel once the dialog was answered: the package goes to those that
    /// are confirmed, or is dropped.
    pub open spec fn answered(self, pressed: Seq<Button>) -> Panel {
        if pressed.contains(Button::Install) {
            Panel { confirmed: self.pending, pending: None, ..self }
        } else if pressed.contains(Button::Cancel) && self.pending is Some {
            Panel { pending: None, ..self }.with_line(
                "✗ install of "@ + self.pending->0.info.label@ + " cancelled"@,
            )
        } else {
            self
        }
    }

    /// The panel once the profile button was pressed or not.
    pub open spec fn toggled(self, pressed: Seq<Button>) -> Panel {
        if pressed.contains(Button::Toggle) && !self.busy {
            let profile = other(self.profile);
            Panel { profile, ..self }.with_line("profile → "@ + profile.name())
        } else {
            self
        }
    }

    /// The panel once the buttons for surfaces were pressed or not.
    pub open spec fn opened(self, pressed: Seq<Button>) -> Panel {
        Panel {
            open_video: self.open_video || pressed.contains(Button::Demo),
            open_live: self.open_live || pressed.contains(Button::Live),
            ..self
        }
    }

    /// The panel once the buttons `pressed` were pressed.
    pub open spec fn pressed(self, pressed: Seq<Button>) -> Panel {
        let p = self.answered(pressed).toggled(pressed).opened(pressed);
        match asked_task(pressed) {
            Some(task) => p.started(task),
            None => p,
        }
    }
}

/// The other profile.
pub open spec fn other(profile: BootProfile) -> BootProfile {
    match profile {
        BootProfile::Developer => BootProfile::Consumer,
        BootProfile::Consumer => BootProfile::Developer,
    }
}

/// A button of the panel or of the dialog.
#[derive(Clone, Copy, Debug, PartialEq, Eq, Structural)]
pub enum Button {
    Toggle,
    Setup,
    CreateAvds,
    Boot,
    Root,
    Stop,
    Refresh,
    Demo,
    Live,
    Install,
    Cancel,
}

impl Button {
    /// What stands on the button.
    pub open spec fn title(self) -> Seq<char> {
        match self {
            Button::Toggle => "Toggle profile"@,
            Button::Setup => "Setup SDK"@,
            Button::CreateAvds => "Create AVDs"@,
            Button::Boot => "Boot desktop"@,
            Button::Root => "Root (adbd)"@,
            Button::Stop => "Stop"@,
            Button::Refresh => "Refresh"@,
            Button::Demo => "Open surface (demo)"@,
            Button::Live => "Open surface (LIVE scrcpy)"@,
            Button::Install => "Install"@,
            Button::Cancel => "Cancel"@,
        }
    }

    /// What stands on the button.
    pub fn label(self) -> (r: &'static str)
        ensures
            r@ == self.title(),
    {
        match self {
            Button::Toggle => "Toggle profile",
            Button::Setup => "Setup SDK",
            Button::CreateAvds => "Create AVDs",
            Button::Boot => "Boot desktop",
            Button::Root => "Root (adbd)",
            Button::Stop => "Stop",
            Button::Refresh => "Refresh",
            Button::Demo => "Open surface (demo)",
            Button::Live => "Open surface (LIVE scrcpy)",
            Button::Install => "Install",
            Button::Cancel => "Cancel",
        }
    }
}

/// The task that the buttons ask for: of several, the one whose button comes
/// first.
pub open spec fn asked_task(pressed: Seq<Button>) -> Option<Task> {
    if pressed.contains(Button::Setup) {
        Some(Task::Setup)
    } else if pressed.contains(Button::CreateAvds) {
        Some(Task::CreateAvds)
    } else if pressed.contains(Button::Boot) {
        Some(Task::BootDesktop)
    } else if pressed.contains(Button::Root) {
        Some(Task::RootAdbd)
    } else if pressed.contains(Button::Stop) {
        Some(Task::Stop)
    } else if pressed.contains(Button::Refresh) {
        Some(Task::Refresh)
    } else {
        None
    }
}

/// Whether `b` is among the buttons that were pressed.
fn is_pressed(pressed: &Vec<Button>, b: Button) -> (r: bool)
    ensures
        r == pressed@.contains(b),
{
    let mut i: usize = 0;
    while i < pressed.len()
        invariant
            i <= pressed.len(),
            forall|j: int| 0 <= j < i ==> pressed@[j] != b,
        decreases pressed.len() - i,
    {
        if pressed[i] == b {
            return true;
        }
        i = i + 1;
    }
    false
}

/// The task that the buttons ask for.
fn task_of(pressed: &Vec<Button>) -> (r: Option<Task>)
    ensures
        r == asked_task(pressed@),
{
    if is_pressed(pressed, Button::Setup) {
        Some(Task::Setup)
    } else if is_pressed(pressed, Button::CreateAvds) {
        Some(Task::CreateAvds)
    } else if is_pressed(pressed, Button::Boot) {
        Some(Task::BootDesktop)
    } else if is_pressed(pressed, Button::Root) {
        Some(Task::RootAdbd)
    } else if is_pressed(pressed, Button::Stop) {
        Some(Task::Stop)
    } else if is_pressed(pressed, Button::Refresh) {
        Some(Task::Refresh)
    } else {
        None
    }
}

/// Drops the first entries of `log`, so that the last `n` are left.
fn keep_last(log: &mut Vec<String>, n: usize)
    ensures
        views(final(log)@) == last_of(views(old(log)@), n as int),
{
    let ghost whole = views(log@);
    while log.len() > n
        invariant
            views(log@) == whole.skip(whole.len() - log.len()),
            log.len() <= whole.len(),
            log.len() >= n || log.len() == whole.len(),
        decreases log.len(),
    {
        let ghost before = views(log@);
        let _ = log.remove(0);
        assert(views(log@) =~= before.skip(1));
        assert(views(log@) =~= whole.skip(whole.len() - log.len()));
    }
    assert(whole.skip(0) =~= whole);
}

/// The state of the management panel.
#[derive(Debug)]
pub struct AppState {
    report: DoctorReport,
    log: Vec<String>,
    busy: bool,
    profile: BootProfile,
    open_video: bool,
    open_live: bool,
    pending_install: Option<PendingInstall>,
    confirmed_install: Option<PendingInstall>,
}

impl View for AppState {
    type V = Panel;

    closed spec fn view(&self) -> Panel {
        Panel {
            report: self.report,
            log: views(self.log@),
            busy: self.busy,
            profile: self.profile,
            open_video: self.open_video,
            open_live: self.open_live,
            pending: self.pending_install,
            confirmed: self.confirmed_install,
        }
    }
}

/// Where apps are made: the user's own applications, or the working directory
/// where there is no home.
pub open spec fn apps_dir(home: Option<&str>) -> Seq<char> {
    match home {
        Some(h) => h@ + "/Applications"@,
        None => "."@,
    }
}

/// What the log of a new panel holds.
pub open spec fn greeting(report: DoctorReport) -> Seq<Seq<char>> {
    seq![
        "Ready · Android "@ + dec(report.api as int) + " · "@ + report.system_image@,
        "Tip: run `Setup` once (~1–2 GB) before booting."@,
    ]
}

impl AppState {
    /// A panel that shows `report`.
    pub fn new(report: DoctorReport) -> (r: AppState)
        ensures
            r@ == (Panel {
                report,
                log: greeting(report),
                busy: false,
                profile: BootProfile::Developer,
                open_video: false,
                open_live: false,
                pending: None,
                confirmed: None,
            }),
    {
        let mut log: Vec<String> = Vec::new();
        let ready = cat2("Ready · Android ", decimal(report.api as u64).as_str());
        log.push(cat3(ready.as_str(), " · ", report.system_image.as_str()));
        log.push("Tip: run `Setup` once (~1–2 GB) before booting.".to_owned());
        assert(views(log@) =~= greeting(report));
        AppState {
            report,
            log,
            busy: false,
            profile: BootProfile::Developer,
            open_video: false,
            open_live: false,
            pending_install: None,
            confirmed_install: None,
        }
    }

    /// Appends a line to the log.
    fn push_log(&mut self, line: String)
        ensures
            final(self)@ == old(self)@.with_line(line@),
    {
        let ghost text = line@;
        let ghost before = views(self.log@);
        self.log.push(line);
        assert(views(self.log@) =~= before.push(text));
        keep_last(&mut self.log, LOG_LINES);
    }

    /// Appends a line to the log.
    pub fn log_line(&mut self, line: String)
        ensures
            final(self)@ == old(self)@.with_line(line@),
    {
        self.push_log(line);
    }

    /// Asks the user whether a package is to be installed; `home` is the user's
    /// home.
    pub fn request_install(&mut self, apk: String, info: ApkInfo, home: Option<&str>)
        ensures
            final(self)@.pending matches Some(p) && p.apk == apk && p.info == info && p.dest@
                == apps_dir(home) && final(self)@ == (Panel {
                pending: Some(p),
                ..old(self)@.with_line(
                    "› install requested: "@ + info.label@ + " ("@ + info.package@ + ")"@,
                )
            }),
    {
        let dest = match home {
            Some(h) => cat2(h, "/Applications"),
            None => ".".to_owned(),
        };
        self.push_log(
            cat5(
                "› install requested: ",
                info.label.as_str(),
                " (",
                info.package.as_str(),
                ")",
            ),
        );
        self.pending_install = Some(PendingInstall { apk, info, dest });
    }

    /// Changes where the app of the package that waits is to be made.
    pub fn edit_destination(&mut self, dest: String)
        ensures
            match old(self)@.pending {
                None => final(self)@ == old(self)@,
                Some(p) => final(self)@ == (Panel {
                    pending: Some(PendingInstall { dest, ..p }),
                    ..old(self)@
                }),
            },
    {
        if let Some(p) = self.pending_install.take() {
            self.pending_install = Some(PendingInstall { apk: p.apk, info: p.info, dest });
        }
    }

    /// Takes the package that the user has confirmed.
    pub fn take_install(&mut self) -> (r: Option<PendingInstall>)
        ensures
            r == old(self)@.confirmed,
            final(self)@ == (Panel { confirmed: None, ..old(self)@ }),
    {
        self.confirmed_install.take()
    }

    /// Takes the wish for a demo surface.
    pub fn take_open_video(&mut self) -> (r: bool)
        ensures
            r == old(self)@.open_video,
            final(self)@ == (Panel { open_video: false, ..old(self)@ }),
    {
        let r = self.open_video;
        self.open_video = false;
        r
    }

    /// Takes the wish for a live surface.
    pub fn take_open_live(&mut self) -> (r: bool)
        ensures
            r == old(self)@.open_live,
            final(self)@ == (Panel { open_live: false, ..old(self)@ }),
    {
        let r = self.open_live;
        self.open_live = false;
        r
    }

    /// Takes in what the task that goes on has reported; says whether it is
    /// over.
    pub fn poll(&mut self, msgs: Vec<Msg>) -> (over: bool)
        ensures
            final(self)@ == old(self)@.after_all(msgs@),
            over == msgs@.contains(Msg::Done),
    {
        let mut left = msgs;
        let mut over = false;
        let ghost whole = msgs@;
        assert(whole.skip(0) =~= whole);
        let ghost mut n: int = 0;
        while left.len() > 0
            invariant
                0 <= n <= whole.len(),
                left@ == whole.skip(n),
                old(self)@.after_all(whole) == self@.after_all(left@),
                over == exists|i: int| 0 <= i < n && #[trigger] whole[i] == Msg::Done,
            decreases left.len(),
        {
            let ghost before = left@;
            let msg = left.remove(0);
            assert(left@ =~= before.skip(1));
            assert(left@ =~= whole.skip(n + 1));
            assert(whole[n] == msg);
            proof {
                n = n + 1;
            }
            match msg {
                Msg::Log(line) => self.push_log(line),
                Msg::Report(report) => {
                    self.report = report;
                },
                Msg::Done => {
                    self.busy = false;
                    over = true;
                },
            }
        }
        over
    }

    /// Starts the task, unless another one goes on; says whether it started.
    pub fn spawn(&mut self, task: Task) -> (started: bool)
        ensures
            started == !old(self)@.busy,
            final(self)@ == old(self)@.started(task),
    {
        if self.busy {
            return false;
        }
        self.push_log(cat3("▶ ", task.verb(), "…"));
        self.busy = true;
        true
    }

    /// The profile that devices are booted with.
    pub fn profile(&self) -> (r: BootProfile)
        ensures
            r == self@.profile,
    {
        self.profile
    }

    /// Answers a press of buttons; the result is the task that is to be run.
    pub fn press(&mut self, pressed: &Vec<Button>) -> (r: Option<Task>)
        ensures
            final(self)@ == old(self)@.pressed(pressed@),
            r == (if old(self)@.busy {
                None
            } else {
                asked_task(pressed@)
            }),
    {
        if is_pressed(pressed, Button::Install) {
            self.confirmed_install = self.pending_install.take();
        } else if is_pressed(pressed, Button::Cancel) {
            if let Some(p) = self.pending_install.take() {
                self.push_log(cat3("✗ install of ", p.info.label.as_str(), " cancelled"));
            }
        }
        assert(self@ == old(self)@.answered(pressed@));
        if is_pressed(pressed, Button::Toggle) && !self.busy {
            self.profile = match self.profile {
                BootProfile::Developer => BootProfile::Consumer,
                BootProfile::Consumer => BootProfile::Developer,
            };
            self.push_log(cat2("profile → ", self.profile.label()));
        }
        assert(self@ == old(self)@.answered(pressed@).toggled(pressed@));
        if is_pressed(pressed, Button::Demo) {
            self.open_video = true;
        }
        if is_pressed(pressed, Button::Live) {
            self.open_live = true;
        }
        match task_of(pressed) {
            None => None,
            Some(task) => if self.spawn(task) {
                Some(task)
            } else {
                None
            },
        }
    }
}

/// What a coloured text is about.
#[derive(Clone, Copy, Debug, PartialEq, Eq, Structural)]
pub enum Tone {
    Subtitle,
    Good,
    Bad,
    Developer,
    Consumer,
    Working,
    Hint,
    Title,
}

/// One thing that a window shows.
#[derive(Debug)]
pub enum Widget {
    Text(String),
    Toned(Tone, String),
    Bullet(String),
    Button(Button),
    /// A text that the user can change.
    Field(String),
    Separator,
    Spacing,
    /// What follows stands beside what came before.
    SameLine,
}

/// What a `Widget` stands for.
pub enum Part {
    Text(Seq<char>),
    Toned(Tone, Seq<char>),
    Bullet(Seq<char>),
    Button(Button),
    Field(Seq<char>),
    Separator,
    Spacing,
    SameLine,
}

impl View for Widget {
    type V = Part;

    open spec fn view(&self) -> Part {
        match self {
            Widget::Text(s) => Part::Text(s@),
            Widget::Toned(t, s) => Part::Toned(*t, s@),
            Widget::Bullet(s) => Part::Bullet(s@),
            Widget::Button(b) => Part::Button(*b),
            Widget::Field(s) => Part::Field(s@),
            Widget::Separator => Part::Separator,
            Widget::Spacing => Part::Spacing,
            Widget::SameLine => Part::SameLine,
        }
    }
}

/// What a list of widgets stands for.
pub open spec fn parts(v: Seq<Widget>) -> Seq<Part> {
    Seq::new(v.len(), |i: int| v[i]@)
}

/// How a tool of the SDK is shown.
pub open spec fn tool_part(t: ToolCheck) -> Part {
    if t.present {
        Part::Toned(Tone::Good, "  OK  "@ + t.name@)
    } else {
        Part::Toned(Tone::Bad, "  --  "@ + t.name@ + " (needs setup)"@)
    }
}

/// How the tools of the SDK are shown.
pub open spec fn tool_parts(tools: Seq<ToolCheck>) -> Seq<Part> {
    Seq::new(tools.len(), |i: int| tool_part(tools[i]))
}

/// All tools are there.
pub open spec fn all_present(tools: Seq<ToolCheck>) -> bool {
    forall|i: int| 0 <= i < tools.len() ==> (#[trigger] tools[i]).present
}

/// One of two words.
pub open spec fn word(b: bool, yes: Seq<char>, no: Seq<char>) -> Seq<char> {
    if b {
        yes
    } else {
        no
    }
}

/// How the state of the engine is shown.
pub open spec fn status_parts(r: DoctorReport) -> Seq<Part> {
    seq![
        Part::Spacing,
        Part::Bullet("SDK: "@ + word(all_present(r.tools@), "provisioned"@, "incomplete"@)),
        Part::Bullet(
            "AVDs: "@ + word(r.avds@.len() == 0, "none"@, joined(views(r.avds@), ", "@)),
        ),
        Part::Bullet("Emulator: "@ + word(r.emulator_running, "running"@, "stopped"@)),
        Part::Bullet("Rootable image: "@ + word(r.is_rootable, "yes"@, "no"@)),
        Part::Bullet("Root: "@ + r.root_status.name()),
        Part::Separator,
        Part::Text("Boot profile"@),
    ]
}

/// How the profile is shown.
pub open spec fn profile_part(profile: BootProfile) -> Part {
    match profile {
        BootProfile::Developer => Part::Toned(
            Tone::Developer,
            "  developer · cold boot, root-safe, deterministic"@,
        ),
        BootProfile::Consumer => Part::Toned(
            Tone::Consumer,
            "  consumer · Quick Boot, fast resume"@,
        ),
    }
}

/// The buttons that start a task; none while one goes on.
pub open spec fn action_parts(busy: bool) -> Seq<Part> {
    if busy {
        seq![
            Part::Separator,
            Part::Text("Actions"@),
            Part::Toned(Tone::Working, "  working…"@),
        ]
    } else {
        seq![
            Part::Button(Button::Toggle),
            Part::Separator,
            Part::Text("Actions"@),
            Part::Button(Button::Setup),
            Part::SameLine,
            Part::Button(Button::CreateAvds),
            Part::Button(Button::Boot),
            Part::SameLine,
            Part::Button(Button::Root),
            Part::Button(Button::Stop),
            Part::SameLine,
            Part::Button(Button::Refresh),
        ]
    }
}

/// What the control window shows.
pub open spec fn control_parts(p: Panel) -> Seq<Part> {
    seq![
        Part::Text("Parallels-class Android · Apple Silicon"@),
        Part::Toned(Tone::Subtitle, "Android 17 (API 37) · arm64 · gfxstream"@),
        Part::Separator,
        Part::Text("Engine status"@),
    ] + tool_parts(p.report.tools@) + status_parts(p.report) + seq![profile_part(p.profile)]
        + action_parts(p.busy) + seq![
        Part::Separator,
        Part::Text("App surface"@),
        Part::Button(Button::Demo),
        Part::SameLine,
        Part::Button(Button::Live),
        Part::Toned(Tone::Hint, "  LIVE needs a booted device + vendor/scrcpy-server"@),
    ]
}

/// What the dialog shows of a package that waits.
pub open spec fn dialog_parts(p: PendingInstall) -> Seq<Part> {
    seq![
        Part::Toned(Tone::Title, p.info.label@),
        Part::Separator,
        Part::Bullet("Package   "@ + p.info.package@),
        Part::Bullet("Version   "@ + p.info.version@),
        Part::Bullet("Min SDK   API "@ + p.info.min_sdk@),
        Part::Bullet("Size      "@ + megabytes_text(p.info.size_bytes as int) + " MB"@),
        Part::Spacing,
        Part::Text("Create the Mac app in:"@),
        Part::Field(p.dest@),
        Part::Toned(
            Tone::Hint,
            "Installs into the Android runtime and creates a native app."@,
        ),
        Part::Spacing,
        Part::Button(Button::Install),
        Part::SameLine,
        Part::Button(Button::Cancel),
    ]
}

/// Puts a widget behind the others.
fn put(list: &mut Vec<Widget>, w: Widget)
    ensures
        parts(final(list)@) == parts(old(list)@).push(w@),
{
    list.push(w);
    assert(parts(list@) =~= parts(old(list)@).push(w@));
}

/// Puts the tools behind the others.
fn put_tools(list: &mut Vec<Widget>, tools: &Vec<ToolCheck>)
    ensures
        parts(final(list)@) == parts(old(list)@) + tool_parts(tools@),
{
    let mut i: usize = 0;
    let ghost before = parts(list@);
    assert(tool_parts(tools@).take(0) =~= seq![]);
    assert(before + seq![] =~= before);
    while i < tools.len()
        invariant
            i <= tools.len(),
            parts(list@) == before + tool_parts(tools@).take(i as int),
        decreases tools.len() - i,
    {
        if tools[i].present {
            put(list, Widget::Toned(Tone::Good, cat2("  OK  ", tools[i].name.as_str())));
        } else {
            put(
                list,
                Widget::Toned(
                    Tone::Bad,
                    cat3("  --  ", tools[i].name.as_str(), " (needs setup)"),
                ),
            );
        }
        assert(tool_parts(tools@).take(i + 1) =~= tool_parts(tools@).take(i as int).push(
            tool_part(tools@[i as int]),
        ));
        assert(parts(list@) =~= before + tool_parts(tools@).take(i + 1));
        i = i + 1;
    }
    assert(tool_parts(tools@).take(i as int) =~= tool_parts(tools@));
}

/// Whether all tools are there.
fn has_all(tools: &Vec<ToolCheck>) -> (r: bool)
    ensures
        r == all_present(tools@),
{
    let mut i: usize = 0;
    while i < tools.len()
        invariant
            i <= tools.len(),
            forall|j: int| 0 <= j < i ==> (#[trigger] tools@[j]).present,
        decreases tools.len() - i,
    {
        if !tools[i].present {
            return false;
        }
        i = i + 1;
    }
    true
}

/// Puts the state of the engine behind the others.
fn put_status(list: &mut Vec<Widget>, r: &DoctorReport)
    ensures
        parts(final(list)@) == parts(old(list)@) + status_parts(*r),
{
    let sdk = if has_all(&r.tools) {
        "provisioned"
    } else {
        "incomplete"
    };
    let avds = if r.avds.len() == 0 {
        "none".to_owned()
    } else {
        join_texts(&r.avds, ", ")
    };
    let emulator = if r.emulator_running {
        "running"
    } else {
        "stopped"
    };
    let rootable = if r.is_rootable {
        "yes"
    } else {
        "no"
    };
    put(list, Widget::Spacing);
    put(list, Widget::Bullet(cat2("SDK: ", sdk)));
    put(list, Widget::Bullet(cat2("AVDs: ", avds.as_str())));
    put(list, Widget::Bullet(cat2("Emulator: ", emulator)));
    put(list, Widget::Bullet(cat2("Rootable image: ", rootable)));
    put(list, Widget::Bullet(cat2("Root: ", r.root_status.label())));
    put(list, Widget::Separator);
    put(list, Widget::Text("Boot profile".to_owned()));
    assert(parts(list@) =~= parts(old(list)@) + status_parts(*r));
}

/// Puts the buttons that start a task behind the others.
fn put_actions(list: &mut Vec<Widget>, busy: bool)
    ensures
        parts(final(list)@) == parts(old(list)@) + action_parts(busy),
{
    if busy {
        put(list, Widget::Separator);
        put(list, Widget::Text("Actions".to_owned()));
        put(list, Widget::Toned(Tone::Working, "  working…".to_owned()));
    } else {
        put(list, Widget::Button(Button::Toggle));
        put(list, Widget::Separator);
        put(list, Widget::Text("Actions".to_owned()));
        put(list, Widget::Button(Button::Setup));
        put(list, Widget::SameLine);
        put(list, Widget::Button(Button::CreateAvds));
        put(list, Widget::Button(Button::Boot));
        put(list, Widget::SameLine);
        put(list, Widget::Button(Button::Root));
        put(list, Widget::Button(Button::Stop));
        put(list, Widget::SameLine);
        put(list, Widget::Button(Button::Refresh));
    }
    assert(parts(list@) =~= parts(old(list)@) + action_parts(busy));
}

/// What the dialog for a package shows.
fn dialog_of(p: &PendingInstall) -> (r: Vec<Widget>)
    ensures
        parts(r@) == dialog_parts(*p),
{
    let mut list: Vec<Widget> = Vec::new();
    put(&mut list, Widget::Toned(Tone::Title, p.info.label.clone()));
    put(&mut list, Widget::Separator);
    put(&mut list, Widget::Bullet(cat2("Package   ", p.info.package.as_str())));
    put(&mut list, Widget::Bullet(cat2("Version   ", p.info.version.as_str())));
    put(&mut list, Widget::Bullet(cat2("Min SDK   API ", p.info.min_sdk.as_str())));
    let size = megabytes(p.info.size_bytes);
    put(&mut list, Widget::Bullet(cat3("Size      ", size.as_str(), " MB")));
    put(&mut list, Widget::Spacing);
    put(&mut list, Widget::Text("Create the Mac app in:".to_owned()));
    put(&mut list, Widget::Field(p.dest.clone()));
    put(
        &mut list,
        Widget::Toned(
            Tone::Hint,
            "Installs into the Android runtime and creates a native app.".to_owned(),
        ),
    );
    put(&mut list, Widget::Spacing);
    put(&mut list, Widget::Button(Button::Install));
    put(&mut list, Widget::SameLine);
    put(&mut list, Widget::Button(Button::Cancel));
    assert(parts(list@) =~= dialog_parts(*p));
    list
}

/// What the windows of the panel show.
#[derive(Debug)]
pub struct Drawing {
    pub control: Vec<Widget>,
    /// The last lines of the log.
    pub log: Vec<String>,
    /// The dialog for a package that waits: its title, and what it shows.
    pub dialog: Option<(String, Vec<Widget>)>,
}

/// `d` shows the panel `p`.
pub open spec fn shows(d: Drawing, p: Panel) -> bool {
    &&& parts(d.control@) == control_parts(p)
    &&& views(d.log@) == last_of(p.log, SHOWN_LINES as int)
    &&& match (d.dialog, p.pending) {
        (None, None) => true,
        (Some(dialog), Some(q)) => dialog.0@ == "Install “"@ + q.info.label@ + "”?###installer"@
            && parts(dialog.1@) == dialog_parts(q),
        _ => false,
    }
}

impl AppState {
    /// What the windows show.
    pub fn draw(&self) -> (d: Drawing)
        ensures
            shows(d, self@),
    {
        let mut control: Vec<Widget> = Vec::new();
        put(&mut control, Widget::Text("Parallels-class Android · Apple Silicon".to_owned()));
        put(
            &mut control,
            Widget::Toned(
                Tone::Subtitle,
                "Android 17 (API 37) · arm64 · gfxstream".to_owned(),
            ),
        );
        put(&mut control, Widget::Separator);
        put(&mut control, Widget::Text("Engine status".to_owned()));
        put_tools(&mut control, &self.report.tools);
        put_status(&mut control, &self.report);
        match self.profile {
            BootProfile::Developer => put(
                &mut control,
                Widget::Toned(
                    Tone::Developer,
                    "  developer · cold boot, root-safe, deterministic".to_owned(),
                ),
            ),
            BootProfile::Consumer => put(
                &mut control,
                Widget::Toned(
                    Tone::Consumer,
                    "  consumer · Quick Boot, fast resume".to_owned(),
                ),
            ),
        }
        put_actions(&mut control, self.busy);
        put(&mut control, Widget::Separator);
        put(&mut control, Widget::Text("App surface".to_owned()));
        put(&mut control, Widget::Button(Button::Demo));
        put(&mut control, Widget::SameLine);
        put(&mut control, Widget::Button(Button::Live));
        put(
            &mut control,
            Widget::Toned(
                Tone::Hint,
                "  LIVE needs a booted device + vendor/scrcpy-server".to_owned(),
            ),
        );
        assert(parts(control@) =~= control_parts(self@));
        let mut log = copy_list(&self.log);
        keep_last(&mut log, SHOWN_LINES);
        let dialog = match &self.pending_install {
            None => None,
            Some(p) => Some(
                (cat3("Install “", p.info.label.as_str(), "”?###installer"), dialog_of(p)),
            ),
        };
        Drawing { control, log, dialog }
    }
}

/// A part of a task that the engine does in one go.
#[derive(Clone, Copy, Debug, PartialEq, Eq, Structural)]
pub enum Job {
    InstallPackages,
    CreatePhone,
    CreateDesktop,
    BootDesktop,
    EnableRoot,
    RootStatus,
    Stop,
    /// Look at the engine once more, which ends every task.
    Doctor,
}

/// What came of a job.
#[derive(Debug)]
pub enum JobDone {
    InstallPackages(Result<(), EngineError>),
    CreatePhone(Result<(), EngineError>),
    CreateDesktop(Result<(), EngineError>),
    BootDesktop(Result<(), EngineError>),
    EnableRoot(Result<(), EngineError>),
    RootStatus(RootStatus),
    Stop,
    Doctor(DoctorReport),
}

/// The job that a task begins with.
pub fn first_job(task: Task) -> (r: Job)
    ensures
        r == (match task {
            Task::Refresh => Job::Doctor,
            Task::Setup => Job::InstallPackages,
            Task::CreateAvds => Job::CreatePhone,
            Task::BootDesktop => Job::BootDesktop,
            Task::RootAdbd => Job::EnableRoot,
            Task::Stop => Job::Stop,
        }),
{
    match task {
        Task::Refresh => Job::Doctor,
        Task::Setup => Job::InstallPackages,
        Task::CreateAvds => Job::CreatePhone,
        Task::BootDesktop => Job::BootDesktop,
        Task::RootAdbd => Job::EnableRoot,
        Task::Stop => Job::Stop,
    }
}

/// The job that follows: a device for the desktop follows one for the phone,
/// and the root state is looked at once root was enabled. Of a job that failed,
/// and of every other one, the last look at the engine follows.
pub open spec fn next_job(done: JobDone) -> Option<Job> {
    match done {
        JobDone::CreatePhone(Ok(_)) => Some(Job::CreateDesktop),
        JobDone::EnableRoot(Ok(_)) => Some(Job::RootStatus),
        JobDone::Doctor(_) => None,
        _ => Some(Job::Doctor),
    }
}

/// A line that says that something went wrong.
pub open spec fn failure_line(e: Problem) -> Seq<char> {
    "✗ "@ + problem_text(e)
}

/// What a job says in the log; `profile` is what the device was booted with.
pub open spec fn job_line(done: JobDone, profile: BootProfile) -> Option<Seq<char>> {
    match done {
        JobDone::InstallPackages(Ok(_)) => Some("✓ SDK packages installed"@),
        JobDone::InstallPackages(Err(e)) => Some(failure_line(e@)),
        JobDone::CreatePhone(Ok(_)) => None,
        JobDone::CreatePhone(Err(e)) => Some(failure_line(e@)),
        JobDone::CreateDesktop(Ok(_)) => Some("✓ phone + desktop AVDs ready"@),
        JobDone::CreateDesktop(Err(e)) => Some(failure_line(e@)),
        JobDone::BootDesktop(Ok(_)) => Some(
            "✓ desktop AVD booted ("@ + profile.name() + " profile)"@,
        ),
        JobDone::BootDesktop(Err(e)) => Some(failure_line(e@)),
        JobDone::EnableRoot(Ok(_)) => None,
        JobDone::EnableRoot(Err(e)) => Some(failure_line(e@)),
        JobDone::RootStatus(s) => Some("✓ root: "@ + s.name()),
        JobDone::Stop => Some("✓ stop signal sent"@),
        JobDone::Doctor(_) => None,
    }
}

/// `msgs` is what the panel is told of a job.
pub open spec fn is_told(msgs: Seq<Msg>, done: JobDone, profile: BootProfile) -> bool {
    match (done, job_line(done, profile)) {
        (JobDone::Doctor(report), _) => msgs == seq![Msg::Report(report), Msg::Done],
        (_, None) => msgs == Seq::<Msg>::empty(),
        (_, Some(line)) => msgs.len() == 1 && (msgs[0] matches Msg::Log(text) && text@ == line),
    }
}

/// The one line that says `e`.
fn failed(e: &EngineError) -> (r: Vec<Msg>)
    ensures
        r@.len() == 1,
        r@[0] matches Msg::Log(text) && text@ == failure_line(e@),
{
    told(cat2("✗ ", e.message().as_str()))
}

/// The one line `line`.
fn told(line: String) -> (r: Vec<Msg>)
    ensures
        r@ == seq![Msg::Log(line)],
{
    let mut r: Vec<Msg> = Vec::new();
    r.push(Msg::Log(line));
    r
}

/// Goes on with a task of which the job `done` is over: what the panel is told,
/// and the job that follows.
pub fn run_task(done: JobDone, profile: BootProfile) -> (r: (Vec<Msg>, Option<Job>))
    ensures
        is_told(r.0@, done, profile),
        r.1 == next_job(done),
{
    match done {
        JobDone::InstallPackages(Ok(_)) => (
            told("✓ SDK packages installed".to_owned()),
            Some(Job::Doctor),
        ),
        JobDone::InstallPackages(Err(e)) => (failed(&e), Some(Job::Doctor)),
        JobDone::CreatePhone(Ok(_)) => (Vec::new(), Some(Job::CreateDesktop)),
        JobDone::CreatePhone(Err(e)) => (failed(&e), Some(Job::Doctor)),
        JobDone::CreateDesktop(Ok(_)) => (
            told("✓ phone + desktop AVDs ready".to_owned()),
            Some(Job::Doctor),
        ),
        JobDone::CreateDesktop(Err(e)) => (failed(&e), Some(Job::Doctor)),
        JobDone::BootDesktop(Ok(_)) => (
            told(cat3("✓ desktop AVD booted (", profile.label(), " profile)")),
            Some(Job::Doctor),
        ),
        JobDone::BootDesktop(Err(e)) => (failed(&e), Some(Job::Doctor)),
        JobDone::EnableRoot(Ok(_)) => (Vec::new(), Some(Job::RootStatus)),
        JobDone::EnableRoot(Err(e)) => (failed(&e), Some(Job::Doctor)),
        JobDone::RootStatus(s) => (told(cat2("✓ root: ", s.label())), Some(Job::Doctor)),
        JobDone::Stop => (told("✓ stop signal sent".to_owned()), Some(Job::Doctor)),
        JobDone::Doctor(report) => {
            let mut msgs: Vec<Msg> = Vec::new();
            msgs.push(Msg::Report(report));
            msgs.push(Msg::Done);
            assert(msgs@ =~= seq![Msg::Report(report), Msg::Done]);
            (msgs, None)
        },
    }
}

/// Where the output of an emulator goes: to a file beside the SDK, whose
/// directory is in `dir` where it is in one.
pub fn emulator_log(host: Host, dir: Option<&str>) -> (r: String)
    ensures
        r@ == host.path(
            match dir {
                Some(d) => d@,
                None => "."@,
            },
            ".emulator.log"@,
        ),
{
    match dir {
        Some(d) => host.join(d, ".emulator.log"),
        None => host.join(".", ".emulator.log"),
    }
}

/// The log never has more lines than it keeps, whatever is appended to it.
pub proof fn log_is_bounded(p: Panel, line: Seq<char>)
    ensures
        p.with_line(line).log.len() <= LOG_LINES,
        p.with_line(line).log.last() == line,
{
}

/// While a task goes on no other one starts, whatever is pressed, and the
/// profile stays as it is.
pub proof fn busy_panel_starts_nothing(p: Panel, pressed: Seq<Button>)
    requires
        p.busy,
    ensures
        p.pressed(pressed).busy,
        p.pressed(pressed).profile == p.profile,
{
}

/// A package is confirmed by no other button than the one for it, and was
/// waiting before.
pub proof fn nothing_is_installed_unasked(p: Panel, pressed: Seq<Button>)
    requires
        p.confirmed is None,
        p.pressed(pressed).confirmed is Some,
    ensures
        pressed.contains(Button::Install),
        p.pressed(pressed).confirmed == p.pending,
        p.pressed(pressed).pending is None,
{
}

/// The profile button pressed twice leaves the profile as it was.
pub proof fn toggling_twice_changes_nothing(profile: BootProfile)
    ensures
        other(other(profile)) == profile,
        other(profile) != profile,
{
}

/// Which job it was that something came of.
pub open spec fn job_of(done: JobDone) -> Job {
    match done {
        JobDone::InstallPackages(_) => Job::InstallPackages,
        JobDone::CreatePhone(_) => Job::CreatePhone,
        JobDone::CreateDesktop(_) => Job::CreateDesktop,
        JobDone::BootDesktop(_) => Job::BootDesktop,
        JobDone::EnableRoot(_) => Job::EnableRoot,
        JobDone::RootStatus(_) => Job::RootStatus,
        JobDone::Stop => Job::Stop,
        JobDone::Doctor(_) => Job::Doctor,
    }
}

/// How many jobs can follow a job at most.
pub open spec fn jobs_left(job: Job) -> nat {
    match job {
        Job::Doctor => 0,
        Job::CreatePhone => 2,
        Job::EnableRoot => 2,
        _ => 1,
    }
}

/// Every task ends, and ends with a last look at the engine: each job leaves
/// fewer to follow, and nothing else has none behind it.
pub proof fn tasks_end(done: JobDone)
    ensures
        next_job(done) matches Some(job) ==> jobs_left(job) < jobs_left(job_of(done)),
        next_job(done) is None <==> job_of(done) == Job::Doctor,
{
}

/// The log keeps its last two hundred lines in their order: a line that is
/// appended comes last, and at most the oldest one goes.
pub proof fn lines_keep_their_order(p: Panel, line: Seq<char>, i: int)
    requires
        p.log.len() <= 200,
        0 <= i < p.log.len(),
    ensures
        ({
            let q = p.with_line(line);
            let gone: int = if p.log.len() == 200 {
                1
            } else {
                0
            };
            &&& q.log.len() == p.log.len() + 1 - gone
            &&& i >= gone ==> q.log[i - gone] == p.log[i]
            &&& q == (Panel { log: q.log, ..p })
        }),
{
}

/// A task that is asked for while none goes on is begun and said; the panel is
/// busy from there until it is told that the task is over, and no other message
/// ends it.
pub proof fn a_task_makes_the_panel_busy(p: Panel, task: Task, m: Msg)
    ensures
        p.started(task).busy,
        !p.busy ==> p.started(task).log.last() == "▶ "@ + task.name() + "…"@,
        p.busy ==> p.started(task) == p,
        p.started(task).report == p.report,
        p.started(task).profile == p.profile,
        p.started(task).pending == p.pending,
        p.started(task).confirmed == p.confirmed,
        p.after(m).busy == (p.busy && !(m is Done)),
        m matches Msg::Log(line) ==> p.after(m).log.last() == line@,
        m matches Msg::Report(report) ==> p.after(m).report == report,
        !(m is Report) ==> p.after(m).report == p.report,
        !(m is Log) ==> p.after(m).log == p.log,
        p.after(m).profile == p.profile,
{
}

/// Messages are had in the order in which they come, one after the other.
pub proof fn messages_are_had_in_order(p: Panel, a: Seq<Msg>, b: Seq<Msg>)
    ensures
        p.after_all(a + b) == p.after_all(a).after_all(b),
        a.len() == 1 ==> p.after_all(a) == p.after(a[0]),
    decreases a.len(),
{
    reveal_with_fuel(Panel::after_all, 2);
    if a.len() == 0 {
        assert(a + b =~= b);
    } else {
        messages_are_had_in_order(p.after(a[0]), a.skip(1), b);
        assert((a + b).skip(1) =~= a.skip(1) + b);
        if a.len() == 1 {
            assert(a.skip(1).len() == 0);
        }
    }
}

/// Each button does its own: alone it asks for its task, or for none, and what
/// it is not for stays as it was.
pub proof fn each_button_does_its_own(p: Panel, b: Button)
    requires
        !p.busy,
    ensures
        ({
            let q = p.pressed(seq![b]);
            &&& asked_task(seq![b]) == match b {
                Button::Setup => Some(Task::Setup),
                Button::CreateAvds => Some(Task::CreateAvds),
                Button::Boot => Some(Task::BootDesktop),
                Button::Root => Some(Task::RootAdbd),
                Button::Stop => Some(Task::Stop),
                Button::Refresh => Some(Task::Refresh),
                _ => None,
            }
            &&& q.busy <==> asked_task(seq![b]) is Some
            &&& q.open_video == (p.open_video || b is Demo)
            &&& q.open_live == (p.open_live || b is Live)
            &&& q.profile != p.profile <==> b is Toggle
            &&& b is Toggle ==> q.log.last() == "profile → "@ + q.profile.name()
            &&& b is Install ==> q.confirmed == p.pending && q.pending is None
            &&& b is Cancel ==> q.confirmed == p.confirmed && q.pending is None
            &&& b is Cancel && p.pending is Some ==> q.log.last() == "✗ install of "@
                + p.pending->0.info.label@ + " cancelled"@
            &&& !(b is Install || b is Cancel) ==> q.pending == p.pending && q.confirmed
                == p.confirmed
            &&& q.report == p.report
        }),
{
    let s = seq![b];
    assert(s[0] == b);
    assert forall|c: Button| s.contains(c) <==> c == b by {
        if s.contains(c) {
            let i = choose|i: int| 0 <= i < s.len() && s[i] == c;
            assert(i == 0);
        }
    }
}

/// A job that went well says so and one that failed says what went wrong; the two
/// are told apart by the mark that the line begins with. Only the last look at the
/// engine brings a report, and with it the end of the task.
pub proof fn jobs_say_what_came_of_them(done: JobDone, profile: BootProfile, msgs: Seq<Msg>)
    requires
        is_told(msgs, done, profile),
    ensures
        (exists|i: int| 0 <= i < msgs.len() && #[trigger] msgs[i] is Done) <==> done is Doctor,
        (exists|i: int| 0 <= i < msgs.len() && #[trigger] msgs[i] is Report) <==> done is Doctor,
        done matches JobDone::Doctor(report) ==> msgs.len() == 2 && msgs[0] == Msg::Report(report),
        done matches JobDone::InstallPackages(Err(e)) ==> msgs.len() == 1 && (msgs[0] matches
            Msg::Log(text) && text@ == "✗ "@ + problem_text(e@)),
        done matches JobDone::CreatePhone(Err(e)) ==> msgs.len() == 1 && (msgs[0] matches
            Msg::Log(text) && text@ == "✗ "@ + problem_text(e@)),
        done matches JobDone::CreateDesktop(Err(e)) ==> msgs.len() == 1 && (msgs[0] matches
            Msg::Log(text) && text@ == "✗ "@ + problem_text(e@)),
        done matches JobDone::BootDesktop(Err(e)) ==> msgs.len() == 1 && (msgs[0] matches Msg::Log(
            text,
        ) && text@ == "✗ "@ + problem_text(e@)),
        done matches JobDone::EnableRoot(Err(e)) ==> msgs.len() == 1 && (msgs[0] matches Msg::Log(
            text,
        ) && text@ == "✗ "@ + problem_text(e@)),
        done matches JobDone::RootStatus(s) ==> msgs.len() == 1 && (msgs[0] matches Msg::Log(text)
            && text@ == "✓ root: "@ + s.name()),
        done matches JobDone::BootDesktop(Ok(_)) ==> msgs.len() == 1 && (msgs[0] matches Msg::Log(
            text,
        ) && text@ == "✓ desktop AVD booted ("@ + profile.name() + " profile)"@),
{
    if done is Doctor {
        assert(msgs[0] is Report);
        assert(msgs[1] is Done);
    }
}

/// A making of devices that went well makes the one for the desktop next, and root
/// that was enabled is looked at; every failure goes straight to the last look.
pub proof fn failures_go_to_the_last_look(done: JobDone)
    ensures
        next_job(done) == Some(Job::CreateDesktop) <==> (done matches JobDone::CreatePhone(Ok(_))),
        next_job(done) == Some(Job::RootStatus) <==> (done matches JobDone::EnableRoot(Ok(_))),
        next_job(done) is None <==> done is Doctor,
        next_job(done) matches Some(job) ==> job == Job::Doctor || job == Job::CreateDesktop || job
            == Job::RootStatus,
{
}

/// While a task goes on no button for a task is shown, and otherwise each of them
/// is, once; the buttons for surfaces are always there.
pub proof fn buttons_are_shown_when_they_count(busy: bool, b: Button)
    ensures
        action_parts(busy).contains(Part::Button(b)) <==> !busy && (asked_task(seq![b]) is Some || b
            is Toggle),
{
    let s = seq![b];
    assert(s[0] == b);
    assert forall|c: Button| s.contains(c) <==> c == b by {
        if s.contains(c) {
            let i = choose|i: int| 0 <= i < s.len() && s[i] == c;
            assert(i == 0);
        }
    }
    let a = action_parts(busy);
    if !busy {
        assert(a[0] == Part::Button(Button::Toggle));
        assert(a[3] == Part::Button(Button::Setup));
        assert(a[5] == Part::Button(Button::CreateAvds));
        assert(a[6] == Part::Button(Button::Boot));
        assert(a[8] == Part::Button(Button::Root));
        assert(a[9] == Part::Button(Button::Stop));
        assert(a[11] == Part::Button(Button::Refresh));
    }
}

/// A dialog is shown exactly where a package waits, and is for that package: it
/// says what the package is, and has the two buttons that answer it. The log shows
/// its last lines, fourteen at most.
pub proof fn a_dialog_is_for_what_waits(d: Drawing, p: Panel)
    requires
        shows(d, p),
    ensures
        d.dialog is Some <==> p.pending is Some,
        p.pending matches Some(q) ==> {
            let shown = parts((d.dialog->0).1@);
            &&& (d.dialog->0).0@ == "Install “"@ + q.info.label@ + "”?###installer"@
            &&& shown.contains(Part::Bullet("Package   "@ + q.info.package@))
            &&& shown.contains(Part::Bullet("Version   "@ + q.info.version@))
            &&& shown.contains(Part::Bullet("Min SDK   API "@ + q.info.min_sdk@))
            &&& shown.contains(Part::Field(q.dest@))
            &&& shown.contains(Part::Button(Button::Install))
            &&& shown.contains(Part::Button(Button::Cancel))
        },
        d.log@.len() == (if p.log.len() > 14 {
            14
        } else {
            p.log.len()
        }),
        d.log@.len() > 0 ==> d.log@.last()@ == p.log.last(),
{
    if let Some(q) = p.pending {
        let shown = dialog_parts(q);
        assert(shown[2] == Part::Bullet("Package   "@ + q.info.package@));
        assert(shown[3] == Part::Bullet("Version   "@ + q.info.version@));
        assert(shown[4] == Part::Bullet("Min SDK   API "@ + q.info.min_sdk@));
        assert(shown[8] == Part::Field(q.dest@));
        assert(shown[11] == Part::Button(Button::Install));
        assert(shown[13] == Part::Button(Button::Cancel));
    }
    let v = views(d.log@);
    assert(v.len() == d.log@.len());
    if v.len() > 0 {
        assert(v[v.len() - 1] == d.log@[v.len() - 1]@);
    }
}

} // verus!
