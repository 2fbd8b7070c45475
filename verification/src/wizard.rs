//! The install wizard: its steps, what each of them shows, where everything
//! stands in its window, and where a button leads.

use crate::appify::AppifyOutcome;
use crate::badging::ApkInfo;
use crate::error::{problem_text, EngineError};
use crate::host::Host;
use crate::number::{megabytes, megabytes_text};
use crate::shell::{apk_name, is_apk};
use crate::step::{is_some_text, yes, Act, Action, Plan, Reply, Step as Progress};
use crate::text::{cat2, cat3, cat4, cat8, views};
use vstd::prelude::*;

verus! {

/// A step of the wizard, in the order of the list beside it.
#[derive(Clone, Copy, Debug, PartialEq, Eq, Structural)]
pub enum Step {
    Introduction,
    Destination,
    InstallType,
    Installing,
    Summary,
}

/// How many steps there are.
pub const STEPS: usize = 5;

impl Step {
    /// What the step is called.
    pub open spec fn name(self) -> Seq<char> {
        match self {
            Step::Introduction => "Introduction"@,
            Step::Destination => "Destination Select"@,
            Step::InstallType => "Installation Type"@,
            Step::Installing => "Installation"@,
            Step::Summary => "Summary"@,
        }
    }

    /// The place of the step in the list.
    pub open spec fn place(self) -> int {
        match self {
            Step::Introduction => 0,
            Step::Destination => 1,
            Step::InstallType => 2,
            Step::Installing => 3,
            Step::Summary => 4,
        }
    }

    /// What the step is called.
    pub fn title(self) -> (r: &'static str)
        ensures
            r@ == self.name(),
    {
        match self {
            Step::Introduction => "Introduction",
            Step::Destination => "Destination Select",
            Step::InstallType => "Installation Type",
            Step::Installing => "Installation",
            Step::Summary => "Summary",
        }
    }

    /// The place of the step in the list.
    pub fn index(self) -> (r: usize)
        ensures
            r == self.place(),
            r < STEPS,
    {
        match self {
            Step::Introduction => 0,
            Step::Destination => 1,
            Step::InstallType => 2,
            Step::Installing => 3,
            Step::Summary => 4,
        }
    }

    /// The step at a place of the list.
    pub fn at(i: usize) -> (r: Option<Step>)
        ensures
            match r {
                Some(step) => step.place() == i,
                None => i >= STEPS,
            },
    {
        match i {
            0 => Some(Step::Introduction),
            1 => Some(Step::Destination),
            2 => Some(Step::InstallType),
            3 => Some(Step::Installing),
            4 => Some(Step::Summary),
            _ => None,
        }
    }
}

/// The button that leads on.
pub const TAG_CONTINUE: i64 = 1;

/// The button that leads back.
pub const TAG_BACK: i64 = 2;

/// The window was closed.
pub const TAG_CANCEL: i64 = 3;

/// The button that asks for another folder.
pub const TAG_CHOOSE: i64 = 4;

/// What a step shows.
#[derive(Debug)]
pub struct Page {
    /// The place in the list that stands out.
    pub current: usize,
    pub heading: String,
    pub body: String,
    /// What stands on the button that leads on.
    pub forward: &'static str,
    pub forward_hidden: bool,
    pub back_enabled: bool,
    pub choose_hidden: bool,
    pub progress_hidden: bool,
}

/// The heading of a step.
pub open spec fn heading_of(step: Step, info: ApkInfo) -> Seq<char> {
    match step {
        Step::Introduction => "Welcome to the "@ + info.label@ + " Installer"@,
        Step::Destination => "Select a Destination"@,
        Step::InstallType => "Standard Install of "@ + info.label@,
        Step::Installing => "Installing…"@,
        Step::Summary => "The installation was successful."@,
    }
}

/// What a step says; `dest` is where the app is to be made.
pub open spec fn body_of(step: Step, info: ApkInfo, dest: Seq<char>) -> Seq<char> {
    match step {
        Step::Introduction => {
            "You will be guided through the steps necessary to install this Android app on your Mac.\n\n"@
                + info.label@
                + " will run in its own window, with its own icon in the Dock, like any other Mac app. The Android runtime it needs starts automatically and stays out of your way."@
        },
        Step::Destination => {
            info.label@ + " will be created as a Mac app in:\n\n"@ + dest
                + "\n\nChoose a different folder if you'd prefer it elsewhere."@
        },
        Step::InstallType => {
            "This will install "@ + info.label@ + " ("@ + info.package@
                + ") into the Android runtime and create an app in "@ + dest + ".\n\nVersion "@
                + info.version@ + "  ·  Requires Android API "@ + info.min_sdk@ + "  ·  "@
                + megabytes_text(info.size_bytes as int)
                + " MB\n\nClick Install to perform a standard installation."@
        },
        Step::Installing => "Installing "@ + info.label@ + " and creating its Mac app."@,
        Step::Summary => {
            info.label@ + " is installed and ready.\n\nIt has been added to "@ + dest
                + " — open it from there, from Launchpad, or from Spotlight, like any Mac app."@
        },
    }
}

/// What stands on the button that leads on.
pub open spec fn forward_of(step: Step) -> Seq<char> {
    match step {
        Step::InstallType => "Install"@,
        Step::Summary => "Close"@,
        _ => "Continue"@,
    }
}

/// `p` is what `step` shows.
pub open spec fn is_page(p: Page, step: Step, info: ApkInfo, dest: Seq<char>) -> bool {
    &&& p.current == step.place()
    &&& p.heading@ == heading_of(step, info)
    &&& p.body@ == body_of(step, info, dest)
    &&& p.forward@ == forward_of(step)
    &&& p.forward_hidden == (step == Step::Installing)
    &&& p.back_enabled == (step == Step::Destination || step == Step::InstallType)
    &&& p.choose_hidden == (step != Step::Destination)
    &&& p.progress_hidden == (step != Step::Installing)
}

/// What the step before the install says.
fn install_type_body(info: &ApkInfo, dest: &str) -> (r: String)
    ensures
        r@ == body_of(Step::InstallType, *info, dest@),
{
    let head = cat8(
        "This will install ",
        info.label.as_str(),
        " (",
        info.package.as_str(),
        ") into the Android runtime and create an app in ",
        dest,
        ".\n\nVersion ",
        info.version.as_str(),
    );
    let size = megabytes(info.size_bytes);
    let mid = cat4(
        head.as_str(),
        "  ·  Requires Android API ",
        info.min_sdk.as_str(),
        "  ·  ",
    );
    cat3(
        mid.as_str(),
        size.as_str(),
        " MB\n\nClick Install to perform a standard installation.",
    )
}

/// What a step shows: which place of the list stands out, the texts, and which
/// buttons there are.
fn page_of(step: Step, info: &ApkInfo, dest: &str) -> (p: Page)
    ensures
        is_page(p, step, *info, dest@),
{
    let heading = match step {
        Step::Introduction => cat3("Welcome to the ", info.label.as_str(), " Installer"),
        Step::Destination => "Select a Destination".to_owned(),
        Step::InstallType => cat2("Standard Install of ", info.label.as_str()),
        Step::Installing => "Installing…".to_owned(),
        Step::Summary => "The installation was successful.".to_owned(),
    };
    let body = match step {
        Step::Introduction => cat3(
            "You will be guided through the steps necessary to install this Android app on your Mac.\n\n",
            info.label.as_str(),
            " will run in its own window, with its own icon in the Dock, like any other Mac app. The Android runtime it needs starts automatically and stays out of your way.",
        ),
        Step::Destination => cat4(
            info.label.as_str(),
            " will be created as a Mac app in:\n\n",
            dest,
            "\n\nChoose a different folder if you'd prefer it elsewhere.",
        ),
        Step::InstallType => install_type_body(info, dest),
        Step::Installing => cat3("Installing ", info.label.as_str(), " and creating its Mac app."),
        Step::Summary => cat4(
            info.label.as_str(),
            " is installed and ready.\n\nIt has been added to ",
            dest,
            " — open it from there, from Launchpad, or from Spotlight, like any Mac app.",
        ),
    };
    let forward = match step {
        Step::InstallType => "Install",
        Step::Summary => "Close",
        _ => "Continue",
    };
    let installing = step == Step::Installing;
    Page {
        current: step.index(),
        heading,
        body,
        forward,
        forward_hidden: installing,
        back_enabled: step == Step::Destination || step == Step::InstallType,
        choose_hidden: step != Step::Destination,
        progress_hidden: !installing,
    }
}

/// What is to be done after a button.
#[derive(Clone, Copy, Debug, PartialEq, Eq, Structural)]
pub enum Turn {
    /// Show the step.
    Show,
    /// Show the step, and install meanwhile.
    Install,
    /// Ask for another folder, and show the step again.
    ChooseFolder,
    /// Close the window and open what was made.
    Finish,
    /// Leave without a word.
    Leave,
}

/// The step behind `step`.
pub open spec fn forward_from(step: Step) -> Step {
    match step {
        Step::Introduction => Step::Destination,
        Step::Destination => Step::InstallType,
        Step::InstallType => Step::Installing,
        Step::Installing => Step::Installing,
        Step::Summary => Step::Summary,
    }
}

/// The step before `step`. There is no way back from the first one, from the
/// install, or from behind it.
pub open spec fn back_from(step: Step) -> Step {
    match step {
        Step::Destination => Step::Introduction,
        Step::InstallType => Step::Destination,
        _ => step,
    }
}

/// A message in a window of its own.
#[derive(Debug)]
pub struct Notice {
    pub message: String,
    pub detail: String,
}

/// The wizard.
#[derive(Debug)]
pub struct Wizard {
    pub step: Step,
    /// Where the app is to be made.
    pub dest: String,
    /// The app that was made.
    pub bundle: Option<String>,
}

impl Wizard {
    /// A wizard at its first step.
    pub fn new(dest: String) -> (r: Wizard)
        ensures
            r == (Wizard { step: Step::Introduction, dest, bundle: None }),
    {
        Wizard { step: Step::Introduction, dest, bundle: None }
    }

    /// What the window is called.
    pub fn title(info: &ApkInfo) -> (r: String)
        ensures
            r@ == "Install "@ + info.label@,
    {
        cat2("Install ", info.label.as_str())
    }

    /// What the wizard shows: which place of the list stands out, the texts, and
    /// which buttons there are.
    pub fn show_step(&self, info: &ApkInfo) -> (p: Page)
        ensures
            is_page(p, self.step, *info, self.dest@),
    {
        page_of(self.step, info, self.dest.as_str())
    }

    /// What the end of a turn of the window means: a window that was closed says
    /// nothing.
    pub fn next_action(response: i64) -> (r: i64)
        ensures
            r == (if response == 0 {
                TAG_CANCEL
            } else {
                response
            }),
    {
        if response == 0 {
            TAG_CANCEL
        } else {
            response
        }
    }

    /// Answers a button.
    pub fn on_action(&mut self, tag: i64) -> (r: Turn)
        ensures
            final(self).dest == old(self).dest,
            final(self).bundle == old(self).bundle,
            if tag == TAG_CONTINUE {
                &&& final(self).step == forward_from(old(self).step)
                &&& r == (if old(self).step == Step::Summary {
                    Turn::Finish
                } else if final(self).step == Step::Installing {
                    Turn::Install
                } else {
                    Turn::Show
                })
            } else if tag == TAG_BACK {
                final(self).step == back_from(old(self).step) && r == Turn::Show
            } else {
                &&& final(self).step == old(self).step
                &&& r == (if tag == TAG_CHOOSE {
                    Turn::ChooseFolder
                } else {
                    Turn::Leave
                })
            },
    {
        if tag == TAG_CONTINUE {
            if self.step == Step::Summary {
                return Turn::Finish;
            }
            self.step = match self.step {
                Step::Introduction => Step::Destination,
                Step::Destination => Step::InstallType,
                Step::InstallType => Step::Installing,
                Step::Installing => Step::Installing,
                Step::Summary => Step::Summary,
            };
            if self.step == Step::Installing {
                Turn::Install
            } else {
                Turn::Show
            }
        } else if tag == TAG_BACK {
            self.step = match self.step {
                Step::Destination => Step::Introduction,
                Step::InstallType => Step::Destination,
                other => other,
            };
            Turn::Show
        } else if tag == TAG_CHOOSE {
            Turn::ChooseFolder
        } else {
            Turn::Leave
        }
    }

    /// Takes the folder that was chosen; none where the choice was called off.
    pub fn on_folder(&mut self, picked: Option<String>)
        ensures
            final(self).step == old(self).step,
            final(self).bundle == old(self).bundle,
            final(self).dest == (match picked {
                Some(dir) => dir,
                None => old(self).dest,
            }),
    {
        if let Some(dir) = picked {
            self.dest = dir;
        }
    }

    /// Takes what came of the install: whether to go on, and what to say. After
    /// a failure the wizard is over.
    pub fn on_installed(&mut self, made: Result<AppifyOutcome, EngineError>) -> (r: (
        Turn,
        Option<Notice>,
    ))
        ensures
            final(self).dest == old(self).dest,
            match made {
                Ok(done) => {
                    &&& r.0 == Turn::Show
                    &&& final(self).step == Step::Summary
                    &&& final(self).bundle == Some(done.bundle)
                    &&& r.1 is None <==> done.installed
                    &&& r.1 matches Some(n) ==> n.message@
                        == "The app was created, but not installed yet"@ && n.detail@
                        == "The Android runtime wasn't reachable, so the APK couldn't be installed into it. Opening the app will start the runtime; if it doesn't launch, install again."@
                },
                Err(e) => {
                    &&& r.0 == Turn::Leave
                    &&& *final(self) == *old(self)
                    &&& r.1 matches Some(n)
                    &&& n.message@ == "Installation failed"@
                    &&& n.detail@ == problem_text(e@)
                },
            },
    {
        match made {
            Ok(done) => {
                let notice = if done.installed {
                    None
                } else {
                    Some(
                        Notice {
                            message: "The app was created, but not installed yet".to_owned(),
                            detail: "The Android runtime wasn't reachable, so the APK couldn't be installed into it. Opening the app will start the runtime; if it doesn't launch, install again.".to_owned(),
                        },
                    )
                };
                self.bundle = Some(done.bundle);
                self.step = Step::Summary;
                (Turn::Show, notice)
            },
            Err(e) => (
                Turn::Leave,
                Some(
                    Notice { message: "Installation failed".to_owned(), detail: e.message() },
                ),
            ),
        }
    }
}

/// What is said of a package that cannot be read.
pub fn unreadable(e: &EngineError) -> (r: Notice)
    ensures
        r.message@ == "Can't read this APK"@,
        r.detail@ == problem_text(e@),
{
    Notice { message: "Can't read this APK".to_owned(), detail: e.message() }
}

/// The first of `args` from `i` on that names a package.
pub open spec fn apk_from(args: Seq<Seq<char>>, i: int) -> Option<Seq<char>>
    decreases args.len() - i,
{
    if i < 0 || i >= args.len() {
        None
    } else if apk_name(args[i]) {
        Some(args[i])
    } else {
        apk_from(args, i + 1)
    }
}

/// How the package that is to be installed is found: the first one that the
/// program was started with, where it is there.
pub open spec fn apk_plan(args: Seq<Seq<char>>, replies: Seq<Reply>) -> Plan<Option<Seq<char>>> {
    match apk_from(args, 1) {
        None => Plan::Done(None),
        Some(path) => if replies.len() == 0 {
            Plan::Do(Act::Exists(path))
        } else if yes(replies[0]) {
            Plan::Done(Some(path))
        } else {
            Plan::Done(None)
        },
    }
}

/// The next step of finding the package that is to be installed. `args` begin
/// with the program's own name.
pub fn apk_from_args(args: &Vec<String>, replies: &Vec<Reply>) -> (s: Progress<Option<String>>)
    ensures
        is_some_text(s, apk_plan(views(args@), replies@)),
{
    let ghost all = views(args@);
    let mut i: usize = 1;
    while i < args.len()
        invariant
            1 <= i,
            all == views(args@),
            apk_from(all, 1) == apk_from(all, i as int),
        decreases args.len() - i,
    {
        assert(all[i as int] == args@[i as int]@);
        if is_apk(args[i].as_str()) {
            if replies.len() == 0 {
                return Progress::Do(Action::Exists(args[i].clone()));
            }
            return Progress::Done(
                if replies[0].is_yes() {
                    Some(args[i].clone())
                } else {
                    None
                },
            );
        }
        i = i + 1;
    }
    Progress::Done(None)
}

/// Where an app is made as long as no other folder was chosen.
pub fn default_destination(home: Option<&str>) -> (r: String)
    ensures
        r@ == (match home {
            Some(h) => Host::Mac.path(h@, "Applications"@),
            None => "."@,
        }),
{
    match home {
        Some(h) => Host::Mac.join(h, "Applications"),
        None => ".".to_owned(),
    }
}

/// The program that bundles run: the one that the environment names under
/// `ANDROLON_PLAYER`, or the player beside this program, or by its bare name.
pub fn player_binary(named: Option<&str>, exe: &Result<String, String>) -> (r: String)
    ensures
        r@ == (match (named, exe) {
            (Some(path), _) => path@,
            (None, Ok(exe)) => Host::Mac.sibling(exe@, "androlon-player"@),
            (None, Err(_)) => "androlon-player"@,
        }),
{
    match named {
        Some(path) => path.to_owned(),
        None => match exe {
            Ok(exe) => Host::Mac.with_file_name(exe.as_str(), "androlon-player"),
            Err(_) => "androlon-player".to_owned(),
        },
    }
}

/// The window is so wide.
pub const WIN_W: i32 = 620;

/// The window is so high.
pub const WIN_H: i32 = 460;

/// The list of steps is so wide.
pub const SIDEBAR_W: i32 = 190;

/// The bar with the buttons is so high.
pub const BAR_H: i32 = 52;

/// A part of the window, from its lower left corner.
#[derive(Clone, Copy, Debug, PartialEq, Eq, Structural)]
pub struct Rect {
    pub x: i32,
    pub y: i32,
    pub w: i32,
    pub h: i32,
}

impl Rect {
    /// It lies in the window.
    pub open spec fn inside(self) -> bool {
        0 <= self.x && 0 <= self.y && 0 < self.w && 0 < self.h && self.x + self.w <= WIN_W && self.y
            + self.h <= WIN_H
    }

    /// The two have no point in common.
    pub open spec fn beside(self, other: Rect) -> bool {
        self.x + self.w <= other.x || other.x + other.w <= self.x || self.y + self.h <= other.y
            || other.y + other.h <= self.y
    }
}

/// Where everything stands in the window.
#[derive(Debug)]
pub struct Layout {
    pub sidebar: Rect,
    pub icon: Rect,
    /// The dots before the steps, in their order.
    pub dots: Vec<Rect>,
    /// The names of the steps, in their order.
    pub labels: Vec<Rect>,
    pub heading: Rect,
    pub frame: Rect,
    pub body: Rect,
    pub progress: Rect,
    pub forward: Rect,
    pub back: Rect,
    pub choose: Rect,
}

/// Where the name of the step at place `i` stands.
pub open spec fn label_rect(i: int) -> Rect {
    Rect { x: 42, y: (WIN_H - 140 - 26 * i) as i32, w: (SIDEBAR_W - 54) as i32, h: 20 }
}

/// Where the dot of the step at place `i` stands.
pub open spec fn dot_rect(i: int) -> Rect {
    Rect { x: 22, y: (WIN_H - 140 - 26 * i + 1) as i32, w: 14, h: 18 }
}

/// The frame around the text: beside the list, above the buttons, below the
/// heading.
pub open spec fn frame_rect() -> Rect {
    Rect {
        x: (SIDEBAR_W + 24) as i32,
        y: (BAR_H + 8) as i32,
        w: (WIN_W - SIDEBAR_W - 48) as i32,
        h: (WIN_H - 92 - (BAR_H + 8)) as i32,
    }
}

/// `l` is where everything stands.
pub open spec fn is_layout(l: Layout) -> bool {
    let f = frame_rect();
    &&& l.sidebar == (Rect { x: (-2) as i32, y: (-2) as i32, w: (SIDEBAR_W + 2) as i32, h: (WIN_H + 4) as i32 })
    &&& l.icon == (Rect { x: (SIDEBAR_W / 2 - 32) as i32, y: (WIN_H - 100) as i32, w: 64, h: 64 })
    &&& l.dots@.len() == STEPS
    &&& l.labels@.len() == STEPS
    &&& forall|i: int| 0 <= i < STEPS ==> #[trigger] l.dots@[i] == dot_rect(i)
    &&& forall|i: int| 0 <= i < STEPS ==> #[trigger] l.labels@[i] == label_rect(i)
    &&& l.heading == (Rect { x: f.x, y: (WIN_H - 70) as i32, w: f.w, h: 22 })
    &&& l.frame == f
    &&& l.body == (Rect {
        x: (f.x + 18) as i32,
        y: (f.y + 16) as i32,
        w: (f.w - 36) as i32,
        h: (f.h - 34) as i32,
    })
    &&& l.progress == (Rect {
        x: (f.x + 18) as i32,
        y: (f.y + 24) as i32,
        w: (f.w - 36) as i32,
        h: 20,
    })
    &&& l.forward == (Rect { x: (WIN_W - 130) as i32, y: 14, w: 112, h: 30 })
    &&& l.back == (Rect { x: (WIN_W - 248) as i32, y: 14, w: 112, h: 30 })
    &&& l.choose == (Rect { x: (SIDEBAR_W + 24) as i32, y: 14, w: 150, h: 30 })
}

/// Where everything stands in the window.
pub fn layout() -> (l: Layout)
    ensures
        is_layout(l),
{
    let mut dots: Vec<Rect> = Vec::new();
    let mut labels: Vec<Rect> = Vec::new();
    let mut y: i32 = WIN_H - 140;
    let mut i: usize = 0;
    while i < STEPS
        invariant
            i <= STEPS,
            y == WIN_H - 140 - 26 * i,
            dots@.len() == i,
            labels@.len() == i,
            forall|j: int| 0 <= j < i ==> #[trigger] dots@[j] == dot_rect(j),
            forall|j: int| 0 <= j < i ==> #[trigger] labels@[j] == label_rect(j),
        decreases STEPS - i,
    {
        dots.push(Rect { x: 22, y: y + 1, w: 14, h: 18 });
        labels.push(Rect { x: 42, y, w: SIDEBAR_W - 54, h: 20 });
        y = y - 26;
        i = i + 1;
    }
    let x: i32 = SIDEBAR_W + 24;
    let bottom: i32 = BAR_H + 8;
    let w: i32 = WIN_W - SIDEBAR_W - 48;
    let h: i32 = WIN_H - 92 - bottom;
    Layout {
        sidebar: Rect { x: -2, y: -2, w: SIDEBAR_W + 2, h: WIN_H + 4 },
        icon: Rect { x: SIDEBAR_W / 2 - 32, y: WIN_H - 100, w: 64, h: 64 },
        dots,
        labels,
        heading: Rect { x, y: WIN_H - 70, w, h: 22 },
        frame: Rect { x, y: bottom, w, h },
        body: Rect { x: x + 18, y: bottom + 16, w: w - 36, h: h - 34 },
        progress: Rect { x: x + 18, y: bottom + 24, w: w - 36, h: 20 },
        forward: Rect { x: WIN_W - 130, y: 14, w: 112, h: 30 },
        back: Rect { x: WIN_W - 248, y: 14, w: 112, h: 30 },
        choose: Rect { x: SIDEBAR_W + 24, y: 14, w: 150, h: 30 },
    }
}

/// Everything but the list's own background lies in the window, and no name of a
/// step, button or text stands on another one.
pub proof fn nothing_stands_on_another(l: Layout)
    requires
        is_layout(l),
    ensures
        l.icon.inside(),
        l.heading.inside(),
        l.frame.inside(),
        l.body.inside(),
        l.progress.inside(),
        l.forward.inside(),
        l.back.inside(),
        l.choose.inside(),
        forall|i: int| 0 <= i < STEPS ==> (#[trigger] l.labels@[i]).inside(),
        forall|i: int| 0 <= i < STEPS ==> (#[trigger] l.dots@[i]).inside(),
        forall|i: int, j: int|
            0 <= i < STEPS && 0 <= j < STEPS && i != j ==> (#[trigger] l.labels@[i]).beside(
                #[trigger] l.labels@[j],
            ),
        forall|i: int, j: int|
            0 <= i < STEPS && 0 <= j < STEPS ==> (#[trigger] l.dots@[i]).beside(
                #[trigger] l.labels@[j],
            ),
        forall|i: int| 0 <= i < STEPS ==> (#[trigger] l.labels@[i]).beside(l.frame),
        forall|i: int| 0 <= i < STEPS ==> (#[trigger] l.labels@[i]).beside(l.icon),
        l.forward.beside(l.back),
        l.back.beside(l.choose),
        l.forward.beside(l.choose),
        l.frame.beside(l.heading),
        l.frame.beside(l.forward),
        l.frame.beside(l.back),
        l.frame.beside(l.choose),
{
    assert forall|i: int| 0 <= i < STEPS implies (#[trigger] l.labels@[i]).inside() && l.labels@[i].beside(
        l.frame,
    ) && l.labels@[i].beside(l.icon) by {
        assert(l.labels@[i] == label_rect(i));
    }
    assert forall|i: int| 0 <= i < STEPS implies (#[trigger] l.dots@[i]).inside() by {
        assert(l.dots@[i] == dot_rect(i));
    }
    assert forall|i: int, j: int|
        0 <= i < STEPS && 0 <= j < STEPS && i != j implies (#[trigger] l.labels@[i]).beside(
        #[trigger] l.labels@[j],
    ) by {
        assert(l.labels@[i] == label_rect(i));
        assert(l.labels@[j] == label_rect(j));
    }
    assert forall|i: int, j: int| 0 <= i < STEPS && 0 <= j < STEPS implies (
    #[trigger] l.dots@[i]).beside(#[trigger] l.labels@[j]) by {
        assert(l.dots@[i] == dot_rect(i));
        assert(l.labels@[j] == label_rect(j));
    }
}

/// The button that leads back undoes the one that leads on, up to the install.
pub proof fn back_undoes_forward(step: Step)
    requires
        step == Step::Introduction || step == Step::Destination,
    ensures
        back_from(forward_from(step)) == step,
{
}

/// A step goes on by one place, and stays only where an install goes on or all
/// is done; so an install comes after every step before it was shown.
pub proof fn steps_come_in_order(step: Step)
    ensures
        forward_from(step).place() == step.place() + 1 || forward_from(step) == step,
        forward_from(step) == step <==> step == Step::Installing || step == Step::Summary,
        back_from(step).place() <= step.place(),
        forward_from(step) == Step::Installing && step != Step::Installing ==> step
            == Step::InstallType,
{
}

/// The wizard goes on by one step of its list at a time up to the install, which
/// is not gone on from by a button; the way back undoes the way on, as long as the
/// install has not begun.
pub proof fn steps_follow_the_list(step: Step)
    ensures
        forward_from(step).place() == (if step.place() < 3 {
            step.place() + 1
        } else {
            step.place()
        }),
        step.place() < 2 ==> back_from(forward_from(step)) == step,
        back_from(step).place() == (if 1 <= step.place() <= 2 {
            step.place() - 1
        } else {
            step.place()
        }),
        step.place() <= 3 && forward_from(step) == Step::Installing <==> step.place() == 2
            || step.place() == 3,
{
}

/// A page shows the buttons that do something in its step: the way back where
/// there is one, the choice of a folder where a folder is chosen, and no way on
/// while the install goes on, which is then shown instead.
pub proof fn pages_show_what_can_be_done(p: Page, step: Step, info: ApkInfo, dest: Seq<char>)
    requires
        is_page(p, step, info, dest),
    ensures
        p.current == step.place(),
        p.back_enabled <==> back_from(step) != step,
        p.forward_hidden <==> step is Installing,
        p.progress_hidden <==> !(step is Installing),
        p.choose_hidden <==> !(step is Destination),
        p.forward@ == "Install"@ <==> forward_from(step) is Installing && !(step is Installing),
        p.forward@ == "Close"@ <==> step is Summary,
        step is Introduction ==> p.heading@ == "Welcome to the "@ + info.label@ + " Installer"@,
        step is InstallType ==> p.heading@ == "Standard Install of "@ + info.label@,
{
    reveal_strlit("Install");
    reveal_strlit("Close");
    reveal_strlit("Continue");
    assert("Install"@[0] == 'I' && "Close"@[0] == 'C' && "Continue"@[0] == 'C');
    assert("Close"@[1] == 'l' && "Continue"@[1] == 'o');
}

/// The package that is to be installed is the first word that is called like one,
/// behind the program's own name, and counts only where it is there.
pub proof fn the_first_package_is_installed(args: Seq<Seq<char>>, replies: Seq<Reply>, i: int)
    requires
        1 <= i < args.len(),
        apk_name(args[i]),
        forall|j: int| 1 <= j < i ==> !apk_name(#[trigger] args[j]),
    ensures
        replies.len() == 0 ==> apk_plan(args, replies) == Plan::<Option<Seq<char>>>::Do(
            Act::Exists(args[i]),
        ),
        replies.len() > 0 && replies[0] == Reply::Answer(true) ==> apk_plan(args, replies)
            == Plan::Done(Some(args[i])),
        replies.len() > 0 && replies[0] == Reply::Answer(false) ==> apk_plan(args, replies)
            == Plan::Done(None::<Seq<char>>),
{
    first_package(args, 1, i);
}

proof fn first_package(args: Seq<Seq<char>>, from: int, i: int)
    requires
        0 <= from <= i < args.len(),
        apk_name(args[i]),
        forall|j: int| from <= j < i ==> !apk_name(#[trigger] args[j]),
    ensures
        apk_from(args, from) == Some(args[i]),
    decreases i - from,
{
    if from < i {
        first_package(args, from + 1, i);
    }
}

} // verus!
