//! The command line over the engine: what a command asks for, how a package is
//! run, and what is said of it.

use crate::appify::{register_tool, resolved, AppifyOutcome};
use crate::backend::{Gfxstream, GpuBackend};
use crate::config::SdkConfig;
use crate::error::{EngineError, Problem};
use crate::host::Host;
use crate::media::{DecodedFrame, EncodedPacket, StreamMeta};
use crate::model::{Avd, BootProfile, DoctorReport, RootStatus, ToolCheck, WindowMode};
use crate::number::{dec, decimal};
use crate::scrcpy::word_of;
use crate::shell::{arg_after, find_arg, place, value_after};
use crate::step::{failure_of, is_try, yes, Act, Action, Plan, Reply, Step};
use crate::subprocess::{plain, CommandLine};
use crate::text::{
    cat2, cat3, cat4, cat5, cat6, cat7, join_texts, joined, lines, list2, list5, push_text, same,
    text_lines, views,
};
use vstd::prelude::*;

verus! {

/// What the command line asks for.
#[derive(Debug)]
pub enum Command {
    Doctor,
    Usage,
    Setup,
    Avd,
    Run,
    ScrcpyProbe,
    Appify,
    BundleHost,
    Root,
    Stop,
    Unknown(String),
}

/// What a `Command` stands for.
pub enum CommandView {
    Doctor,
    Usage,
    Setup,
    Avd,
    Run,
    ScrcpyProbe,
    Appify,
    BundleHost,
    Root,
    Stop,
    Unknown(Seq<char>),
}

impl View for Command {
    type V = CommandView;

    open spec fn view(&self) -> CommandView {
        match self {
            Command::Doctor => CommandView::Doctor,
            Command::Usage => CommandView::Usage,
            Command::Setup => CommandView::Setup,
            Command::Avd => CommandView::Avd,
            Command::Run => CommandView::Run,
            Command::ScrcpyProbe => CommandView::ScrcpyProbe,
            Command::Appify => CommandView::Appify,
            Command::BundleHost => CommandView::BundleHost,
            Command::Root => CommandView::Root,
            Command::Stop => CommandView::Stop,
            Command::Unknown(s) => CommandView::Unknown(s@),
        }
    }
}

/// What the command line asks for. `args` begin behind the program's own name.
pub open spec fn command_in(args: Seq<Seq<char>>) -> CommandView {
    if args.len() == 0 {
        CommandView::Usage
    } else if args[0] == "doctor"@ {
        CommandView::Doctor
    } else if args[0] == "-h"@ || args[0] == "--help"@ || args[0] == "help"@ {
        CommandView::Usage
    } else if args[0] == "setup"@ {
        CommandView::Setup
    } else if args[0] == "avd"@ {
        CommandView::Avd
    } else if args[0] == "run"@ {
        CommandView::Run
    } else if args[0] == "scrcpy-probe"@ {
        CommandView::ScrcpyProbe
    } else if args[0] == "appify"@ {
        CommandView::Appify
    } else if args[0] == "bundle-host"@ {
        CommandView::BundleHost
    } else if args[0] == "root"@ {
        CommandView::Root
    } else if args[0] == "stop"@ {
        CommandView::Stop
    } else {
        CommandView::Unknown(args[0])
    }
}

/// What the command line asks for.
pub fn command(args: &Vec<String>) -> (r: Command)
    ensures
        r@ == command_in(views(args@)),
{
    if args.len() == 0 {
        return Command::Usage;
    }
    assert(views(args@)[0] == args@[0]@);
    let word = args[0].as_str();
    if same(word, "doctor") {
        Command::Doctor
    } else if same(word, "-h") || same(word, "--help") || same(word, "help") {
        Command::Usage
    } else if same(word, "setup") {
        Command::Setup
    } else if same(word, "avd") {
        Command::Avd
    } else if same(word, "run") {
        Command::Run
    } else if same(word, "scrcpy-probe") {
        Command::ScrcpyProbe
    } else if same(word, "appify") {
        Command::Appify
    } else if same(word, "bundle-host") {
        Command::BundleHost
    } else if same(word, "root") {
        Command::Root
    } else if same(word, "stop") {
        Command::Stop
    } else {
        Command::Unknown(args[0].clone())
    }
}

/// What is said of a command that there is not.
pub fn unknown_command(word: &str) -> (r: String)
    ensures
        r@ == "unknown command: "@ + word@ + "  (try: androlon-ctl --help)"@,
{
    cat3("unknown command: ", word, "  (try: androlon-ctl --help)")
}

/// How the program is used.
pub open spec fn usage_text(config: SdkConfig) -> Seq<char> {
    "androlon-ctl — Androlon engine CLI (Android 17 / API 37, arm64)\n\n  androlon-ctl doctor              show what's installed / missing + root status\n  androlon-ctl setup               install SDK packages (cmdline-tools must exist)\n  androlon-ctl avd                 create phone + desktop AVDs\n  androlon-ctl run <apk> [--desktop|--coherence|--phone] [--consumer]\n  androlon-ctl root [status|adbd]  report / enable root\n  androlon-ctl stop                shut the emulator down\n\nEnv: APKRUN_API="@
        + dec(config.api as int) + "  APKRUN_IMG_TYPE="@ + config.image_type@ + "  APKRUN_SDK="@
        + config.sdk_root@
}

/// How the program is used.
pub fn usage(config: &SdkConfig) -> (r: String)
    ensures
        r@ == usage_text(*config),
{
    let api = decimal(config.api as u64);
    cat6(
        "androlon-ctl — Androlon engine CLI (Android 17 / API 37, arm64)\n\n  androlon-ctl doctor              show what's installed / missing + root status\n  androlon-ctl setup               install SDK packages (cmdline-tools must exist)\n  androlon-ctl avd                 create phone + desktop AVDs\n  androlon-ctl run <apk> [--desktop|--coherence|--phone] [--consumer]\n  androlon-ctl root [status|adbd]  report / enable root\n  androlon-ctl stop                shut the emulator down\n\nEnv: APKRUN_API=",
        api.as_str(),
        "  APKRUN_IMG_TYPE=",
        config.image_type.as_str(),
        "  APKRUN_SDK=",
        config.sdk_root.as_str(),
    )
}

/// What is said of a tool of the SDK.
pub open spec fn tool_line(t: ToolCheck) -> Seq<char> {
    if t.present {
        "  ✓ "@ + t.name@ + " -> "@ + t.path@
    } else {
        "  ✗ "@ + t.name@ + " (run: androlon-ctl setup)"@
    }
}

/// One of two words.
pub open spec fn one_of(b: bool, yes: Seq<char>, no: Seq<char>) -> Seq<char> {
    if b {
        yes
    } else {
        no
    }
}

/// What is said of the engine.
pub open spec fn doctor_lines(r: DoctorReport) -> Seq<Seq<char>> {
    seq![
        "SDK root : "@ + r.sdk_root@,
        "API level: "@ + dec(r.api as int) + "   image: "@ + r.system_image@,
    ] + Seq::new(r.tools@.len(), |i: int| tool_line(r.tools@[i])) + seq![
        "AVDs: "@ + one_of(
            r.avds@.len() == 0,
            "(none — run: androlon-ctl avd)"@,
            joined(views(r.avds@), ", "@),
        ),
        "Emulator running: "@ + one_of(r.emulator_running, "yes"@, "no"@),
        "Rootable image  : "@ + one_of(r.is_rootable, "yes"@, "no (locked user build)"@),
        "Root status     : "@ + r.root_status.name() + "   (none | adbd | magisk)"@,
    ]
}

/// What is said of the engine.
pub fn print_doctor(r: &DoctorReport) -> (out: Vec<String>)
    ensures
        views(out@) == doctor_lines(*r),
{
    let root = cat2("SDK root : ", r.sdk_root.as_str());
    let api = decimal(r.api as u64);
    let image = cat4("API level: ", api.as_str(), "   image: ", r.system_image.as_str());
    let mut out = list2(root.as_str(), image.as_str());
    let ghost head = views(out@);
    let ghost all = Seq::new(r.tools@.len(), |i: int| tool_line(r.tools@[i]));
    let mut i: usize = 0;
    assert(head + all.take(0) =~= head);
    while i < r.tools.len()
        invariant
            i <= r.tools.len(),
            all == Seq::new(r.tools@.len(), |i: int| tool_line(r.tools@[i])),
            views(out@) == head + all.take(i as int),
        decreases r.tools.len() - i,
    {
        let t = &r.tools[i];
        let line = if t.present {
            cat4("  ✓ ", t.name.as_str(), " -> ", t.path.as_str())
        } else {
            cat3("  ✗ ", t.name.as_str(), " (run: androlon-ctl setup)")
        };
        push_text(&mut out, line.as_str());
        assert(all.take(i + 1) =~= all.take(i as int).push(all[i as int]));
        assert(views(out@) =~= head + all.take(i + 1));
        i = i + 1;
    }
    assert(all.take(i as int) =~= all);
    let avds = if r.avds.len() == 0 {
        "(none — run: androlon-ctl avd)".to_owned()
    } else {
        join_texts(&r.avds, ", ")
    };
    let running = if r.emulator_running {
        "yes"
    } else {
        "no"
    };
    let rootable = if r.is_rootable {
        "yes"
    } else {
        "no (locked user build)"
    };
    push_text(&mut out, cat2("AVDs: ", avds.as_str()).as_str());
    push_text(&mut out, cat2("Emulator running: ", running).as_str());
    push_text(&mut out, cat2("Rootable image  : ", rootable).as_str());
    push_text(
        &mut out,
        cat3("Root status     : ", r.root_status.label(), "   (none | adbd | magisk)").as_str(),
    );
    assert(views(out@) =~= doctor_lines(*r));
    out
}

/// What a command for root asks for.
#[derive(Clone, Copy, Debug, PartialEq, Eq, Structural)]
pub enum RootCommand {
    Status,
    Adbd,
    /// Something that there is not.
    Usage,
}

/// What the second word of a command for root asks for.
pub fn root_command(args: &Vec<String>) -> (r: RootCommand)
    ensures
        r == (if args@.len() < 2 || args@[1]@ == "status"@ {
            RootCommand::Status
        } else if args@[1]@ == "adbd"@ {
            RootCommand::Adbd
        } else {
            RootCommand::Usage
        }),
{
    if args.len() < 2 || same(args[1].as_str(), "status") {
        RootCommand::Status
    } else if same(args[1].as_str(), "adbd") {
        RootCommand::Adbd
    } else {
        RootCommand::Usage
    }
}

/// What is said of the root state, after it was looked at or after root was
/// enabled.
pub fn root_line(command: RootCommand, status: RootStatus) -> (r: String)
    ensures
        r@ == (match command {
            RootCommand::Status => "root: "@ + status.name(),
            RootCommand::Adbd => "✓ adbd root: "@ + status.name(),
            RootCommand::Usage => "usage: androlon-ctl root [status|adbd]"@,
        }),
{
    match command {
        RootCommand::Status => cat2("root: ", status.label()),
        RootCommand::Adbd => cat2("✓ adbd root: ", status.label()),
        RootCommand::Usage => "usage: androlon-ctl root [status|adbd]".to_owned(),
    }
}

/// How a package is to be run.
#[derive(Debug)]
pub struct RunRequest {
    pub apk: String,
    pub mode: WindowMode,
    pub profile: BootProfile,
}

/// How the words of a command say that a package is presented: one flag counts
/// before the other, and without a flag it is the desktop.
pub open spec fn mode_in(args: Seq<Seq<char>>) -> WindowMode {
    if place(args, "--coherence"@) is Some {
        WindowMode::Coherence
    } else if place(args, "--phone"@) is Some {
        WindowMode::Phone
    } else {
        WindowMode::Desktop
    }
}

/// The profile that the words of a command ask for.
pub open spec fn profile_in(args: Seq<Seq<char>>) -> BootProfile {
    if place(args, "--consumer"@) is Some {
        BootProfile::Consumer
    } else {
        BootProfile::Developer
    }
}

/// Reads how a package is to be run; without a package it is said how the
/// command is used.
pub fn run_request(args: &Vec<String>) -> (r: Result<RunRequest, String>)
    ensures
        match r {
            Ok(q) => {
                &&& args@.len() > 1
                &&& q.apk@ == args@[1]@
                &&& q.mode == mode_in(views(args@))
                &&& q.profile == profile_in(views(args@))
            },
            Err(e) => args@.len() <= 1 && e@
                == "usage: androlon-ctl run <apk> [--desktop|--coherence|--phone]"@,
        },
{
    if args.len() <= 1 {
        return Err("usage: androlon-ctl run <apk> [--desktop|--coherence|--phone]".to_owned());
    }
    let mode = if find_arg(args, "--coherence").is_some() {
        WindowMode::Coherence
    } else if find_arg(args, "--phone").is_some() {
        WindowMode::Phone
    } else {
        WindowMode::Desktop
    };
    let profile = if find_arg(args, "--consumer").is_some() {
        BootProfile::Consumer
    } else {
        BootProfile::Developer
    };
    Ok(RunRequest { apk: args[1].clone(), mode, profile })
}

/// The name of a way to present a package.
pub open spec fn mode_name(mode: WindowMode) -> Seq<char> {
    match mode {
        WindowMode::Desktop => "Desktop"@,
        WindowMode::Coherence => "Coherence"@,
        WindowMode::Phone => "Phone"@,
    }
}

impl RunRequest {
    /// The device that the package is run on.
    pub fn avd(&self) -> (r: Avd)
        ensures
            r.is_medium_phone(
                if self.mode == WindowMode::Phone {
                    "androlon_phone"@
                } else {
                    "androlon_desktop"@
                },
            ),
    {
        if self.mode == WindowMode::Phone {
            Avd::phone()
        } else {
            Avd::desktop()
        }
    }

    /// What is said when the device is booted.
    pub fn boot_line(&self, avd: &Avd) -> (r: String)
        ensures
            r@ == "› Booting "@ + avd.name@ + " ["@ + mode_name(self.mode) + " · "@
                + self.profile.name() + " profile] with GPU backend '"@ + "gfxstream"@ + "'…"@,
    {
        let mode = match self.mode {
            WindowMode::Desktop => "Desktop",
            WindowMode::Coherence => "Coherence",
            WindowMode::Phone => "Phone",
        };
        let head = cat4("› Booting ", avd.name.as_str(), " [", mode);
        let gpu = Gfxstream;
        cat6(
            head.as_str(),
            " · ",
            self.profile.label(),
            " profile] with GPU backend '",
            gpu.name(),
            "'…",
        )
    }
}

/// The next part of running a package.
#[derive(Debug)]
pub enum RunJob {
    /// Boot the device.
    Boot,
    /// Install the package.
    Install,
    /// Find out the name of the package.
    Package,
    /// Find the entry point of the package.
    Component(String),
    /// Start the entry point.
    Launch(String),
}

/// What came of a part of running a package.
#[derive(Debug)]
pub enum RunDone {
    /// Whether the file is there.
    Exists(bool),
    Boot(Result<(), EngineError>),
    Install(Result<(), EngineError>),
    Package(String),
    Component(String, Option<String>),
    Launch(String, Result<(), EngineError>),
}

/// How the run of a package goes on.
#[derive(Debug)]
pub enum RunTurn {
    /// With the next part.
    Next(RunJob),
    /// To its end, with a line or with what went wrong.
    Done(Result<String, EngineError>),
}

/// `r` is how the run of a package goes on.
pub open spec fn is_next(
    r: RunTurn,
    apk: Seq<char>,
    done: RunDone,
) -> bool {
    match done {
        RunDone::Exists(there) => if there {
            r == RunTurn::Next(RunJob::Boot)
        } else {
            r matches RunTurn::Done(Err(e)) && e@ == Problem::ApkNotFound(apk)
        },
        RunDone::Boot(Ok(_)) => r == RunTurn::Next(RunJob::Install),
        RunDone::Boot(Err(e)) => r matches RunTurn::Done(Err(f)) && f@ == e@,
        RunDone::Install(Ok(_)) => r == RunTurn::Next(RunJob::Package),
        RunDone::Install(Err(e)) => r matches RunTurn::Done(Err(f)) && f@ == e@,
        RunDone::Package(package) => if package@.len() == 0 {
            r matches RunTurn::Done(Err(e)) && e@ == Problem::PackageUnresolved(apk)
        } else {
            r matches RunTurn::Next(RunJob::Component(p)) && p@ == package@
        },
        RunDone::Component(package, None) => r matches RunTurn::Done(Err(e)) && e@
            == Problem::PackageUnresolved(package@),
        RunDone::Component(_, Some(component)) => r matches RunTurn::Next(RunJob::Launch(c)) && c@
            == component@,
        RunDone::Launch(component, Ok(_)) => r matches RunTurn::Done(Ok(line)) && line@ == "✓ Launched "@
            + component@,
        RunDone::Launch(_, Err(e)) => r matches RunTurn::Done(Err(f)) && f@ == e@,
    }
}

/// Goes on with the run of the package `apk`, of which the part `done` is over.
pub fn cmd_run(apk: &str, done: RunDone) -> (r: RunTurn)
    ensures
        is_next(r, apk@, done),
{
    match done {
        RunDone::Exists(there) => if there {
            RunTurn::Next(RunJob::Boot)
        } else {
            RunTurn::Done(Err(EngineError::ApkNotFound(apk.to_owned())))
        },
        RunDone::Boot(Ok(_)) => RunTurn::Next(RunJob::Install),
        RunDone::Boot(Err(e)) => RunTurn::Done(Err(e)),
        RunDone::Install(Ok(_)) => RunTurn::Next(RunJob::Package),
        RunDone::Install(Err(e)) => RunTurn::Done(Err(e)),
        RunDone::Package(package) => if package.as_str().unicode_len() == 0 {
            RunTurn::Done(Err(EngineError::PackageUnresolved(apk.to_owned())))
        } else {
            RunTurn::Next(RunJob::Component(package))
        },
        RunDone::Component(package, None) => RunTurn::Done(Err(EngineError::PackageUnresolved(package))),
        RunDone::Component(_, Some(component)) => RunTurn::Next(RunJob::Launch(component)),
        RunDone::Launch(component, Ok(_)) => RunTurn::Done(Ok(cat2("✓ Launched ", component.as_str()))),
        RunDone::Launch(_, Err(e)) => RunTurn::Done(Err(e)),
    }
}

/// How many packets the probe reads.
pub const PROBE_PACKETS: u32 = 30;

/// How many packets the probe tells of.
pub const TOLD_PACKETS: u32 = 6;

/// What the probe has counted so far.
#[derive(Clone, Copy, Debug, PartialEq, Eq, Structural)]
pub struct Tally {
    pub packets: u32,
    pub config: u32,
    pub key: u32,
    pub decoded: u32,
    pub bytes: u64,
}

/// What is said of a packet.
pub open spec fn packet_line(n: int, p: EncodedPacket) -> Seq<char> {
    "    pkt "@ + dec(n) + ": "@ + dec(p.data@.len() as int) + " bytes  config="@ + word_of(
        p.is_config,
    ) + " key="@ + word_of(p.is_keyframe) + "  pts="@ + dec(p.pts as int)
}

/// What is said of the first picture.
pub open spec fn frame_line(f: DecodedFrame) -> Seq<char> {
    "    ✓ FIRST FRAME DECODED: "@ + dec(f.width as int) + "x"@ + dec(f.height as int) + " RGBA ("@
        + dec(f.rgba@.len() as int) + " bytes)"@
}

/// One or nothing.
pub open spec fn count(b: bool) -> int {
    if b {
        1
    } else {
        0
    }
}

/// One line or none.
pub open spec fn line_if(b: bool, line: Seq<char>) -> Seq<Seq<char>> {
    if b {
        seq![line]
    } else {
        seq![]
    }
}

impl Tally {
    /// No more packets were counted than the probe reads, and of those no more
    /// of a kind than there were.
    pub open spec fn wf(self) -> bool {
        &&& self.packets <= PROBE_PACKETS
        &&& self.config <= self.packets
        &&& self.key <= self.packets
        &&& self.decoded <= self.packets
        &&& self.bytes <= self.packets * 0xffff_ffff
    }

    pub fn new() -> (r: Tally)
        ensures
            r == (Tally { packets: 0, config: 0, key: 0, decoded: 0, bytes: 0 }),
            r.wf(),
    {
        Tally { packets: 0, config: 0, key: 0, decoded: 0, bytes: 0 }
    }

    /// Counts a packet, and the picture that was made of it; says what there is
    /// to say of them.
    pub fn on_packet(&mut self, p: &EncodedPacket, frame: &Option<DecodedFrame>) -> (r: Vec<String>)
        requires
            old(self).wf(),
            old(self).packets < PROBE_PACKETS,
            p.data@.len() <= 0xffff_ffff,
        ensures
            final(self).wf(),
            final(self).packets == old(self).packets + 1,
            final(self).config == old(self).config + count(p.is_config),
            final(self).key == old(self).key + count(p.is_keyframe),
            final(self).decoded == old(self).decoded + count(frame is Some),
            final(self).bytes == old(self).bytes + p.data@.len(),
            views(r@) == line_if(
                final(self).packets <= TOLD_PACKETS,
                packet_line(final(self).packets as int, *p),
            ) + line_if(
                frame is Some && old(self).decoded == 0,
                frame_line(frame->0),
            ),
    {
        let mut out: Vec<String> = Vec::new();
        assert(views(out@) =~= seq![]);
        self.packets = self.packets + 1;
        self.bytes = self.bytes + p.data.len() as u64;
        if p.is_config {
            self.config = self.config + 1;
        }
        if p.is_keyframe {
            self.key = self.key + 1;
        }
        if self.packets <= TOLD_PACKETS {
            let n = decimal(self.packets as u64);
            let len = decimal(p.data.len() as u64);
            let pts = decimal(p.pts);
            let config = if p.is_config {
                "true"
            } else {
                "false"
            };
            let key = if p.is_keyframe {
                "true"
            } else {
                "false"
            };
            let head = cat4("    pkt ", n.as_str(), ": ", len.as_str());
            let line = cat7(
                head.as_str(),
                " bytes  config=",
                config,
                " key=",
                key,
                "  pts=",
                pts.as_str(),
            );
            push_text(&mut out, line.as_str());
        }
        assert(views(out@) =~= line_if(
            self.packets <= TOLD_PACKETS,
            packet_line(self.packets as int, *p),
        ));
        if let Some(f) = frame {
            self.decoded = self.decoded + 1;
            if self.decoded == 1 {
                let w = decimal(f.width as u64);
                let h = decimal(f.height as u64);
                let len = decimal(f.rgba.len() as u64);
                let line = cat7(
                    "    ✓ FIRST FRAME DECODED: ",
                    w.as_str(),
                    "x",
                    h.as_str(),
                    " RGBA (",
                    len.as_str(),
                    " bytes)",
                );
                push_text(&mut out, line.as_str());
            }
        }
        out
    }

    /// What is said where the stream has ended.
    pub fn ended(&self, e: &str) -> (r: String)
        ensures
            r@ == "    stream ended/err after "@ + dec(self.packets as int) + " packets: "@ + e@,
    {
        cat4(
            "    stream ended/err after ",
            decimal(self.packets as u64).as_str(),
            " packets: ",
            e,
        )
    }

    /// What is said at the end.
    pub fn summary(&self) -> (r: Vec<String>)
        ensures
            views(r@) == seq![
                "✓ summary: "@ + dec(self.packets as int) + " packets, "@ + dec(self.config as int)
                    + " config, "@ + dec(self.key as int) + " keyframe, "@ + dec(
                    self.decoded as int,
                ) + " decoded, "@ + dec(self.bytes as int) + " total bytes"@,
                one_of(
                    self.decoded > 0,
                    "🎉 LIVE PIPELINE WORKS: scrcpy → decode → RGBA. The SDL_GPU app will show this."@,
                    "⚠ packets flowed but none decoded — likely a codec/version detail; share this output."@,
                ),
            ],
    {
        let packets = decimal(self.packets as u64);
        let config = decimal(self.config as u64);
        let key = decimal(self.key as u64);
        let decoded = decimal(self.decoded as u64);
        let bytes = decimal(self.bytes);
        let head = cat7(
            "✓ summary: ",
            packets.as_str(),
            " packets, ",
            config.as_str(),
            " config, ",
            key.as_str(),
            " keyframe, ",
        );
        let first = cat5(
            head.as_str(),
            decoded.as_str(),
            " decoded, ",
            bytes.as_str(),
            " total bytes",
        );
        let second = if self.decoded > 0 {
            "🎉 LIVE PIPELINE WORKS: scrcpy → decode → RGBA. The SDL_GPU app will show this."
        } else {
            "⚠ packets flowed but none decoded — likely a codec/version detail; share this output."
        };
        list2(first.as_str(), second)
    }
}

/// The devices that `adb` knows, as the probe lists them.
pub fn device_lines(output: &str) -> (r: Vec<String>)
    ensures
        views(r@) == Seq::new(
            lines(output@).len(),
            |i: int| "    "@ + lines(output@)[i],
        ),
{
    let all = text_lines(output);
    let ghost whole = Seq::new(lines(output@).len(), |i: int| "    "@ + lines(output@)[i]);
    let mut r: Vec<String> = Vec::new();
    let mut i: usize = 0;
    assert(views(r@) =~= whole.take(0));
    while i < all.len()
        invariant
            i <= all.len(),
            views(all@) == lines(output@),
            whole == Seq::new(lines(output@).len(), |i: int| "    "@ + lines(output@)[i]),
            views(r@) == whole.take(i as int),
        decreases all.len() - i,
    {
        assert(views(all@)[i as int] == all@[i as int]@);
        push_text(&mut r, cat2("    ", all[i].as_str()).as_str());
        assert(whole.take(i + 1) =~= whole.take(i as int).push(whole[i as int]));
        i = i + 1;
    }
    assert(views(all@).len() == all@.len());
    assert(whole.take(i as int) =~= whole);
    r
}

/// What is said of the stream once it is there.
pub fn handshake_lines(m: &StreamMeta) -> (r: Vec<String>)
    ensures
        views(r@) == seq![
            "✓ handshake OK"@,
            "    device : "@ + m.device_name@,
            "    codec  : "@ + m.codec.name(),
            "    size   : "@ + dec(m.width as int) + "x"@ + dec(m.height as int),
        ],
{
    let device = cat2("    device : ", m.device_name.as_str());
    let label = m.codec.label();
    let codec = cat2("    codec  : ", label.as_str());
    let w = decimal(m.width as u64);
    let h = decimal(m.height as u64);
    let size = cat4("    size   : ", w.as_str(), "x", h.as_str());
    crate::text::list4("✓ handshake OK", device.as_str(), codec.as_str(), size.as_str())
}

/// Where a bundle is to be made: the directory behind `--out`, or the working
/// directory.
pub fn out_dir_arg(args: &Vec<String>) -> (r: String)
    ensures
        r@ == (match value_after(views(args@), "--out"@) {
            Some(dir) => dir,
            None => "."@,
        }),
{
    match arg_after(args, "--out") {
        Some(dir) => dir,
        None => ".".to_owned(),
    }
}

/// The package that the second word of a command names.
pub fn appify_arg(args: &Vec<String>) -> (r: Result<String, EngineError>)
    ensures
        match r {
            Ok(apk) => args@.len() > 1 && apk@ == args@[1]@,
            Err(e) => args@.len() <= 1 && e@ == Problem::ApkNotFound(
                "usage: androlon-ctl appify <apk> [--out <dir>]"@,
            ),
        },
{
    if args.len() > 1 {
        Ok(args[1].clone())
    } else {
        Err(EngineError::ApkNotFound("usage: androlon-ctl appify <apk> [--out <dir>]".to_owned()))
    }
}

/// What is said of a bundle that was made.
pub open spec fn appify_lines(o: AppifyOutcome) -> Seq<Seq<char>> {
    seq![
        "› "@ + o.label@ + " ("@ + o.package@ + ")"@,
        one_of(
            o.installed,
            "✓ installed into the Android runtime"@,
            "⚠ not installed now (no booted device?) — install before launch"@,
        ),
    ] + line_if(!o.icon, "⚠ no raster icon found in the APK — bundle has a generic icon"@) + seq![
        "✓ created "@ + o.bundle@,
        "  double-click it (or `open '"@ + o.bundle@ + "'`) to launch "@ + o.label@,
    ]
}

/// What is said of a bundle that was made.
pub fn cmd_appify(o: &AppifyOutcome) -> (r: Vec<String>)
    ensures
        views(r@) == appify_lines(*o),
{
    let first = cat5("› ", o.label.as_str(), " (", o.package.as_str(), ")");
    let second = if o.installed {
        "✓ installed into the Android runtime"
    } else {
        "⚠ not installed now (no booted device?) — install before launch"
    };
    let mut r = list2(first.as_str(), second);
    if !o.icon {
        push_text(&mut r, "⚠ no raster icon found in the APK — bundle has a generic icon");
    }
    push_text(&mut r, cat2("✓ created ", o.bundle.as_str()).as_str());
    push_text(
        &mut r,
        cat4(
            "  double-click it (or `open '",
            o.bundle.as_str(),
            "'`) to launch ",
            o.label.as_str(),
        ).as_str(),
    );
    assert(views(r@) =~= appify_lines(*o));
    r
}

/// How the player beside this program is found.
pub open spec fn player_plan(host: Host, exe: Result<String, String>, replies: Seq<Reply>) -> Plan<
    Result<Seq<char>, Problem>,
> {
    match exe {
        Err(e) => Plan::Done(
            Err(Problem::Launch { tool: "locate androlon-ctl"@, source: e@ }),
        ),
        Ok(exe) => {
            let player = host.sibling(exe@, "androlon-player"@);
            if replies.len() == 0 {
                Plan::Do(Act::Exists(player))
            } else if yes(replies[0]) {
                Plan::Done(Ok(player))
            } else {
                Plan::Done(
                    Err(
                        Problem::SdkMissing(
                            "androlon-player binary (expected next to androlon-ctl at "@ + player
                                + ")"@,
                        ),
                    ),
                )
            }
        },
    }
}

/// The next step of finding the player beside this program, which is `exe` where
/// the system could tell it.
pub fn host_binary(host: Host, exe: &Result<String, String>, replies: &Vec<Reply>) -> (s: Step<
    Result<String, EngineError>,
>)
    ensures
        match (s, player_plan(host, *exe, replies@)) {
            (Step::Do(a), Plan::Do(b)) => a@ == b,
            (Step::Done(Ok(p)), Plan::Done(Ok(q))) => p@ == q,
            (Step::Done(Err(e)), Plan::Done(Err(f))) => e@ == f,
            _ => false,
        },
{
    match exe {
        Err(e) => Step::Done(
            Err(
                EngineError::Launch { tool: "locate androlon-ctl".to_owned(), source: e.clone() },
            ),
        ),
        Ok(exe) => {
            let player = host.with_file_name(exe.as_str(), "androlon-player");
            if replies.len() == 0 {
                Step::Do(Action::Exists(player))
            } else if replies[0].is_yes() {
                Step::Done(Ok(player))
            } else {
                Step::Done(
                    Err(
                        EngineError::SdkMissing(
                            cat3(
                                "androlon-player binary (expected next to androlon-ctl at ",
                                player.as_str(),
                                ")",
                            ),
                        ),
                    ),
                )
            }
        },
    }
}

/// What the bundle of the shell says of itself.
pub open spec fn host_plist_text(sdk: Seq<char>, server: Seq<char>) -> Seq<char> {
    "<?xml version=\"1.0\" encoding=\"UTF-8\"?>\n<!DOCTYPE plist PUBLIC \"-//Apple//DTD PLIST 1.0//EN\" \"http://www.apple.com/DTDs/PropertyList-1.0.dtd\">\n<plist version=\"1.0\">\n<dict>\n    <key>CFBundleName</key>\n    <string>Androlon</string>\n    <key>CFBundleDisplayName</key>\n    <string>Androlon</string>\n    <key>CFBundleExecutable</key>\n    <string>Androlon</string>\n    <key>CFBundleIdentifier</key>\n    <string>com.androlon.host</string>\n    <key>CFBundlePackageType</key>\n    <string>APPL</string>\n    <key>CFBundleShortVersionString</key>\n    <string>0.1.0</string>\n    <key>NSHighResolutionCapable</key>\n    <true/>\n    <key>CFBundleDocumentTypes</key>\n    <array>\n        <dict>\n            <key>CFBundleTypeName</key>\n            <string>Android Package</string>\n            <key>CFBundleTypeExtensions</key>\n            <array><string>apk</string></array>\n            <key>CFBundleTypeRole</key>\n            <string>Viewer</string>\n            <key>LSHandlerRank</key>\n            <string>Owner</string>\n        </dict>\n    </array>\n    <key>LSEnvironment</key>\n    <dict>\n        <key>APKRUN_SDK</key>\n        <string>"@
        + sdk
        + "</string>\n        <key>ANDROLON_SCRCPY_SERVER</key>\n        <string>"@
        + server
        + "</string>\n    </dict>\n</dict>\n</plist>\n"@
}

/// What the bundle of the shell says of itself.
pub fn host_plist(sdk: &str, server: &str) -> (r: String)
    ensures
        r@ == host_plist_text(sdk@, server@),
{
    cat5(
        "<?xml version=\"1.0\" encoding=\"UTF-8\"?>\n<!DOCTYPE plist PUBLIC \"-//Apple//DTD PLIST 1.0//EN\" \"http://www.apple.com/DTDs/PropertyList-1.0.dtd\">\n<plist version=\"1.0\">\n<dict>\n    <key>CFBundleName</key>\n    <string>Androlon</string>\n    <key>CFBundleDisplayName</key>\n    <string>Androlon</string>\n    <key>CFBundleExecutable</key>\n    <string>Androlon</string>\n    <key>CFBundleIdentifier</key>\n    <string>com.androlon.host</string>\n    <key>CFBundlePackageType</key>\n    <string>APPL</string>\n    <key>CFBundleShortVersionString</key>\n    <string>0.1.0</string>\n    <key>NSHighResolutionCapable</key>\n    <true/>\n    <key>CFBundleDocumentTypes</key>\n    <array>\n        <dict>\n            <key>CFBundleTypeName</key>\n            <string>Android Package</string>\n            <key>CFBundleTypeExtensions</key>\n            <array><string>apk</string></array>\n            <key>CFBundleTypeRole</key>\n            <string>Viewer</string>\n            <key>LSHandlerRank</key>\n            <string>Owner</string>\n        </dict>\n    </array>\n    <key>LSEnvironment</key>\n    <dict>\n        <key>APKRUN_SDK</key>\n        <string>",
        sdk,
        "</string>\n        <key>ANDROLON_SCRCPY_SERVER</key>\n        <string>",
        server,
        "</string>\n    </dict>\n</dict>\n</plist>\n",
    )
}

/// The bundle of the shell in `out_dir`.
pub open spec fn host_bundle(host: Host, out_dir: Seq<char>) -> Seq<char> {
    host.path(out_dir, "Androlon.app"@)
}

/// Where the programs of the bundle lie.
pub open spec fn programs_dir(host: Host, out_dir: Seq<char>) -> Seq<char> {
    host.path(host_bundle(host, out_dir), "Contents/MacOS"@)
}

/// How a program that lies beside the player comes into the bundle, where it is
/// there: it ends with how many replies that took.
pub open spec fn tool_plan(
    host: Host,
    player: Seq<char>,
    out_dir: Seq<char>,
    tool: Seq<char>,
    replies: Seq<Reply>,
) -> Plan<Result<int, Problem>> {
    let from = host.sibling(player, tool);
    if replies.len() == 0 {
        Plan::Do(Act::Exists(from))
    } else if !yes(replies[0]) {
        Plan::Done(Ok(1))
    } else if replies.len() == 1 {
        Plan::Do(Act::Copy { from, to: host.path(programs_dir(host, out_dir), tool) })
    } else {
        match failure_of(replies[1]) {
            Some(source) => Plan::Done(
                Err(Problem::Launch { tool: "copy "@ + tool, source }),
            ),
            None => Plan::Done(Ok(2)),
        }
    }
}

/// How the bundle is finished once its programs are in it.
pub open spec fn closing_plan(
    config: SdkConfig,
    out_dir: Seq<char>,
    server: Seq<char>,
    replies: Seq<Reply>,
) -> Plan<Result<(), Problem>> {
    let bundle = host_bundle(config.host, out_dir);
    let n = replies.len();
    if n == 0 {
        Plan::Do(Act::Resolve(config.sdk_root@))
    } else if n == 1 {
        Plan::Do(Act::Resolve(server))
    } else if n == 2 {
        Plan::Do(
            Act::Write {
                path: config.host.path(bundle, "Contents/Info.plist"@),
                text: host_plist_text(
                    resolved(replies[0], config.sdk_root@),
                    resolved(replies[1], server),
                ),
            },
        )
    } else if failure_of(replies[2]) is Some {
        Plan::Done(
            Err(Problem::Launch { tool: "write plist"@, source: failure_of(replies[2])->0 }),
        )
    } else if n == 3 {
        Plan::Do(Act::Run(plain("codesign"@, seq!["--force"@, "--deep"@, "-s"@, "-"@, bundle])))
    } else if n == 4 {
        Plan::Do(Act::Run(plain(register_tool(), seq!["-f"@, bundle])))
    } else {
        Plan::Done(Ok(()))
    }
}

/// How the bundle of the shell is made: the directory, the shell itself, the
/// player and the daemon beside it where they are there, and what the bundle
/// says of itself.
pub open spec fn host_plan(
    config: SdkConfig,
    player: Seq<char>,
    out_dir: Seq<char>,
    server: Seq<char>,
    replies: Seq<Reply>,
) -> Plan<Result<(), Problem>> {
    let programs = programs_dir(config.host, out_dir);
    let n = replies.len();
    if n == 0 {
        Plan::Do(Act::MakeDir(programs))
    } else if failure_of(replies[0]) is Some {
        Plan::Done(
            Err(Problem::Launch { tool: "create bundle"@, source: failure_of(replies[0])->0 }),
        )
    } else if n == 1 {
        Plan::Do(
            Act::Copy {
                from: config.host.sibling(player, "androlon-app"@),
                to: config.host.path(programs, "Androlon"@),
            },
        )
    } else if failure_of(replies[1]) is Some {
        Plan::Done(
            Err(Problem::Launch { tool: "copy androlon-app"@, source: failure_of(replies[1])->0 }),
        )
    } else {
        let first = replies.skip(2);
        match tool_plan(config.host, player, out_dir, "androlon-player"@, first) {
            Plan::Do(a) => Plan::Do(a),
            Plan::Done(Err(e)) => Plan::Done(Err(e)),
            Plan::Done(Ok(k)) => {
                let second = first.skip(k);
                match tool_plan(config.host, player, out_dir, "androlon-runtimed"@, second) {
                    Plan::Do(a) => Plan::Do(a),
                    Plan::Done(Err(e)) => Plan::Done(Err(e)),
                    Plan::Done(Ok(m)) => closing_plan(config, out_dir, server, second.skip(m)),
                }
            },
        }
    }
}

/// The next step of bringing a program into the bundle, where the replies for
/// it begin at `from`; it ends with where the replies behind it begin.
fn copy_tool(
    host: Host,
    player: &str,
    programs: &str,
    tool: &str,
    replies: &Vec<Reply>,
    from: usize,
    Ghost(out_dir): Ghost<Seq<char>>,
) -> (s: Step<Result<usize, EngineError>>)
    requires
        from <= replies.len(),
        programs@ == programs_dir(host, out_dir),
    ensures
        match (s, tool_plan(host, player@, out_dir, tool@, replies@.skip(from as int))) {
            (Step::Do(a), Plan::Do(b)) => a@ == b,
            (Step::Done(Ok(end)), Plan::Done(Ok(k))) => end == from + k && end <= replies.len(),
            (Step::Done(Err(e)), Plan::Done(Err(f))) => e@ == f,
            _ => false,
        },
{
    let src = host.with_file_name(player, tool);
    let n: usize = replies.len() - from;
    if n == 0 {
        return Step::Do(Action::Exists(src));
    }
    if !replies[from].is_yes() {
        return Step::Done(Ok(from + 1));
    }
    if n == 1 {
        return Step::Do(Action::Copy { from: src, to: host.join(programs, tool) });
    }
    match replies[from + 1].failure() {
        Some(source) => Step::Done(
            Err(EngineError::Launch { tool: cat2("copy ", tool), source }),
        ),
        None => Step::Done(Ok(from + 2)),
    }
}

fn resolve(r: &Reply, path: &str) -> (t: String)
    ensures
        t@ == resolved(*r, path@),
{
    match r.path() {
        Some(p) => p,
        None => path.to_owned(),
    }
}

/// The next step of finishing the bundle, where the replies for it begin at
/// `from`.
fn close_bundle(
    config: &SdkConfig,
    out_dir: &str,
    server: &str,
    replies: &Vec<Reply>,
    from: usize,
) -> (s: Step<Result<(), EngineError>>)
    requires
        from <= replies.len(),
    ensures
        is_try(s, closing_plan(*config, out_dir@, server@, replies@.skip(from as int))),
{
    let bundle = config.host.join(out_dir, "Androlon.app");
    let n: usize = replies.len() - from;
    if n == 0 {
        return Step::Do(Action::Resolve(config.sdk_root.clone()));
    }
    if n == 1 {
        return Step::Do(Action::Resolve(server.to_owned()));
    }
    if n == 2 {
        let sdk = resolve(&replies[from], config.sdk_root.as_str());
        let jar = resolve(&replies[from + 1], server);
        return Step::Do(
            Action::Write {
                path: config.host.join(bundle.as_str(), "Contents/Info.plist"),
                text: host_plist(sdk.as_str(), jar.as_str()),
            },
        );
    }
    if let Some(source) = replies[from + 2].failure() {
        return Step::Done(Err(EngineError::Launch { tool: "write plist".to_owned(), source }));
    }
    if n == 3 {
        return Step::Do(
            Action::Run(
                CommandLine::plain(
                    "codesign",
                    list5("--force", "--deep", "-s", "-", bundle.as_str()),
                ),
            ),
        );
    }
    if n == 4 {
        return Step::Do(
            Action::Run(
                CommandLine::plain(
                    "/System/Library/Frameworks/CoreServices.framework/Frameworks/LaunchServices.framework/Support/lsregister",
                    list2("-f", bundle.as_str()),
                ),
            ),
        );
    }
    Step::Done(Ok(()))
}

/// The next step of making the bundle of the shell in `out_dir`. `player` is the
/// player beside the programs that go into it.
pub fn cmd_bundle_host(
    config: &SdkConfig,
    player: &str,
    out_dir: &str,
    server: &str,
    replies: &Vec<Reply>,
) -> (s: Step<Result<(), EngineError>>)
    ensures
        is_try(s, host_plan(*config, player@, out_dir@, server@, replies@)),
{
    let bundle = config.host.join(out_dir, "Androlon.app");
    let programs = config.host.join(bundle.as_str(), "Contents/MacOS");
    if replies.len() == 0 {
        return Step::Do(Action::MakeDir(programs));
    }
    if let Some(source) = replies[0].failure() {
        return Step::Done(Err(EngineError::Launch { tool: "create bundle".to_owned(), source }));
    }
    if replies.len() == 1 {
        return Step::Do(
            Action::Copy {
                from: config.host.with_file_name(player, "androlon-app"),
                to: config.host.join(programs.as_str(), "Androlon"),
            },
        );
    }
    if let Some(source) = replies[1].failure() {
        return Step::Done(
            Err(EngineError::Launch { tool: "copy androlon-app".to_owned(), source }),
        );
    }
    let at: usize = match copy_tool(
        config.host,
        player,
        programs.as_str(),
        "androlon-player",
        replies,
        2,
        Ghost(out_dir@),
    ) {
        Step::Do(a) => {
            return Step::Do(a);
        },
        Step::Done(Err(e)) => {
            return Step::Done(Err(e));
        },
        Step::Done(Ok(at)) => at,
    };
    assert(replies@.skip(2).skip(at - 2) =~= replies@.skip(at as int));
    let end: usize = match copy_tool(
        config.host,
        player,
        programs.as_str(),
        "androlon-runtimed",
        replies,
        at,
        Ghost(out_dir@),
    ) {
        Step::Do(a) => {
            return Step::Do(a);
        },
        Step::Done(Err(e)) => {
            return Step::Done(Err(e));
        },
        Step::Done(Ok(end)) => end,
    };
    assert(replies@.skip(at as int).skip(end - at) =~= replies@.skip(end as int));
    close_bundle(config, out_dir, server, replies, end)
}

/// What is said of the bundle of the shell.
pub fn bundle_lines(host: Host, out_dir: &str) -> (r: Vec<String>)
    ensures
        views(r@) == seq![
            "✓ created "@ + host_bundle(host, out_dir@),
            "  registered as a handler for .apk files."@,
            "  Double-click an APK → if Finder asks, choose Androlon (or right-click →"@,
            "  Open With → Androlon). Androlon installs it, creates the app bundle, and"@,
            "  launches it."@,
        ],
{
    let bundle = host.join(out_dir, "Androlon.app");
    list5(
        cat2("✓ created ", bundle.as_str()).as_str(),
        "  registered as a handler for .apk files.",
        "  Double-click an APK → if Finder asks, choose Androlon (or right-click →",
        "  Open With → Androlon). Androlon installs it, creates the app bundle, and",
        "  launches it.",
    )
}

/// A further word that is none of the three flags changes neither how a package
/// is presented nor the profile.
pub proof fn other_words_change_nothing(args: Seq<Seq<char>>, flag: Seq<char>)
    requires
        flag != "--coherence"@,
        flag != "--phone"@,
        flag != "--consumer"@,
    ensures
        mode_in(args.push(flag)) == mode_in(args),
        profile_in(args.push(flag)) == profile_in(args),
{
    place_of_another(args, flag, "--coherence"@, 0);
    place_of_another(args, flag, "--phone"@, 0);
    place_of_another(args, flag, "--consumer"@, 0);
}

proof fn place_of_another(args: Seq<Seq<char>>, flag: Seq<char>, word: Seq<char>, i: int)
    requires
        0 <= i <= args.len(),
        flag != word,
    ensures
        crate::shell::place_from(args.push(flag), word, i) == crate::shell::place_from(
            args,
            word,
            i,
        ),
    decreases args.len() - i,
{
    if i < args.len() {
        place_of_another(args, flag, word, i + 1);
    } else {
        assert(args.push(flag)[i] == flag);
        assert(crate::shell::place_from(args.push(flag), word, i + 1) is None);
    }
}

/// A run of a package goes on only behind a part that went well: the device is
/// booted where the file is there, the package installed once the device is
/// booted, and what is started is the entry point that was found. A part that
/// failed ends the run with its own error, and only the last part ends it well.
pub proof fn a_run_goes_on_behind_success(r: RunTurn, apk: Seq<char>, done: RunDone)
    requires
        is_next(r, apk, done),
    ensures
        r == RunTurn::Next(RunJob::Boot) <==> done == RunDone::Exists(true),
        r == RunTurn::Next(RunJob::Install) <==> (done matches RunDone::Boot(Ok(_))),
        r == RunTurn::Next(RunJob::Package) <==> (done matches RunDone::Install(Ok(_))),
        r matches RunTurn::Next(RunJob::Component(p)) ==> (done matches RunDone::Package(q) && p@
            == q@ && p@.len() > 0),
        r matches RunTurn::Next(RunJob::Launch(c)) ==> (done matches RunDone::Component(_, Some(d))
            && c@ == d@),
        (r matches RunTurn::Done(Ok(_))) <==> (done matches RunDone::Launch(_, Ok(_))),
        r matches RunTurn::Done(Ok(line)) ==> line@ == "✓ Launched "@ + done->Launch_0@,
        done == RunDone::Exists(false) ==> (r matches RunTurn::Done(Err(e)) && e@
            == Problem::ApkNotFound(apk)),
        done matches RunDone::Boot(Err(e)) ==> (r matches RunTurn::Done(Err(f)) && f@ == e@),
        done matches RunDone::Install(Err(e)) ==> (r matches RunTurn::Done(Err(f)) && f@ == e@),
        done matches RunDone::Launch(_, Err(e)) ==> (r matches RunTurn::Done(Err(f)) && f@ == e@),
        done matches RunDone::Component(p, None) ==> (r matches RunTurn::Done(Err(f)) && f@
            == Problem::PackageUnresolved(p@)),
{
}

/// Each command is asked for by its own word, which comes first; without a word,
/// and with those for help, it is said how the program is used.
pub proof fn commands_are_asked_for_by_their_words(rest: Seq<Seq<char>>, word: Seq<char>)
    ensures
        ({
            let c = command_in(seq![word] + rest);
            &&& word == "doctor"@ ==> c is Doctor
            &&& word == "setup"@ ==> c is Setup
            &&& word == "avd"@ ==> c is Avd
            &&& word == "run"@ ==> c is Run
            &&& word == "scrcpy-probe"@ ==> c is ScrcpyProbe
            &&& word == "appify"@ ==> c is Appify
            &&& word == "bundle-host"@ ==> c is BundleHost
            &&& word == "root"@ ==> c is Root
            &&& word == "stop"@ ==> c is Stop
            &&& word == "help"@ || word == "-h"@ || word == "--help"@ ==> c is Usage
            &&& c matches CommandView::Unknown(w) ==> w == word
        }),
        command_in(seq![]) is Usage,
{
    let all = seq![word] + rest;
    assert(all[0] == word);
    reveal_strlit("doctor");
    reveal_strlit("setup");
    reveal_strlit("avd");
    reveal_strlit("run");
    reveal_strlit("scrcpy-probe");
    reveal_strlit("appify");
    reveal_strlit("bundle-host");
    reveal_strlit("root");
    reveal_strlit("stop");
    reveal_strlit("help");
    reveal_strlit("-h");
    reveal_strlit("--help");
    assert("doctor"@[0] == 'd');
    assert("setup"@[0] == 's' && "setup"@[1] == 'e');
    assert("avd"@[0] == 'a' && "avd"@[1] == 'v');
    assert("run"@[0] == 'r' && "run"@[1] == 'u');
    assert("scrcpy-probe"@[0] == 's' && "scrcpy-probe"@[1] == 'c');
    assert("appify"@[0] == 'a' && "appify"@[1] == 'p');
    assert("bundle-host"@[0] == 'b');
    assert("root"@[0] == 'r' && "root"@[1] == 'o');
    assert("stop"@[0] == 's' && "stop"@[1] == 't');
    assert("help"@[0] == 'h');
    assert("-h"@[0] == '-' && "--help"@[0] == '-');
}

/// A flag counts wherever it stands: the one for the app's own windows before the
/// one for the phone, and without either it is the desktop.
pub proof fn flags_count_wherever_they_stand(args: Seq<Seq<char>>)
    ensures
        mode_in(args) is Coherence <==> args.contains("--coherence"@),
        mode_in(args) is Phone <==> args.contains("--phone"@) && !args.contains("--coherence"@),
        profile_in(args) is Consumer <==> args.contains("--consumer"@),
{
    crate::shell::a_word_has_a_place(args, "--coherence"@);
    crate::shell::a_word_has_a_place(args, "--phone"@);
    crate::shell::a_word_has_a_place(args, "--consumer"@);
}

/// The player is the program beside this one, and counts only where it is there.
pub proof fn the_player_lies_beside(host: Host, exe: Result<String, String>, replies: Seq<Reply>)
    ensures
        exe matches Ok(e) ==> {
            let player = host.sibling(e@, "androlon-player"@);
            &&& replies.len() == 0 ==> (player_plan(host, exe, replies) matches Plan::Do(a) && a
                == Act::Exists(player))
            &&& replies.len() > 0 && replies[0] == Reply::Answer(true) ==> player_plan(
                host,
                exe,
                replies,
            ) == Plan::Done(Ok::<Seq<char>, Problem>(player))
            &&& replies.len() > 0 && replies[0] == Reply::Answer(false) ==> (player_plan(
                host,
                exe,
                replies,
            ) matches Plan::Done(Err(Problem::SdkMissing(_))))
        },
        exe matches Err(why) ==> (player_plan(host, exe, replies) matches Plan::Done(
            Err(Problem::Launch { tool, source }),
        ) && source == why@ && tool == "locate androlon-ctl"@),
{
}

/// A program comes into the bundle of the shell from beside the player, under its
/// own name, exactly where it is there; one that is not there is no error.
pub proof fn a_tool_comes_from_beside(
    host: Host,
    player: Seq<char>,
    out_dir: Seq<char>,
    tool: Seq<char>,
    replies: Seq<Reply>,
)
    ensures
        ({
            let p = tool_plan(host, player, out_dir, tool, replies);
            let n = replies.len();
            &&& n == 0 ==> (p matches Plan::Do(a) && a == Act::Exists(host.sibling(player, tool)))
            &&& n == 1 && replies[0] == Reply::Answer(true) ==> (p matches Plan::Do(
                Act::Copy { from, to },
            ) && from == host.sibling(player, tool) && to == host.path(
                host.path(host.path(out_dir, "Androlon.app"@), "Contents/MacOS"@),
                tool,
            ))
            &&& n > 0 && replies[0] == Reply::Answer(false) ==> p == Plan::Done(
                Ok::<int, Problem>(1),
            )
            &&& n > 1 && replies[0] == Reply::Answer(true) && crate::step::was_done(replies[1])
                ==> p == Plan::Done(Ok::<int, Problem>(2))
            &&& n > 1 && replies[0] == Reply::Answer(true) ==> (replies[1] matches Reply::Did(Err(e))
                ==> p == Plan::Done(
                Err::<int, Problem>(Problem::Launch { tool: "copy "@ + tool, source: e@ }),
            ))
        }),
{
}

/// The bundle of the shell holds the shell under the bundle's name, and is closed
/// exactly where what it says of itself could be written; the system is then told
/// of that bundle.
pub proof fn the_shell_has_its_bundle(
    config: SdkConfig,
    player: Seq<char>,
    out_dir: Seq<char>,
    server: Seq<char>,
    replies: Seq<Reply>,
)
    ensures
        ({
            let p = host_plan(config, player, out_dir, server, replies);
            let n = replies.len();
            let bundle = config.host.path(out_dir, "Androlon.app"@);
            let programs = config.host.path(bundle, "Contents/MacOS"@);
            &&& n == 0 ==> (p matches Plan::Do(a) && a == Act::MakeDir(programs))
            &&& n == 1 && crate::step::was_done(replies[0]) ==> (p matches Plan::Do(
                Act::Copy { from, to },
            ) && from == config.host.sibling(player, "androlon-app"@) && to == config.host.path(
                programs,
                "Androlon"@,
            ))
            &&& (p matches Plan::Done(Ok(_))) ==> n > 2 && crate::step::was_done(replies[0])
                && crate::step::was_done(replies[1])
            &&& n == 2 && crate::step::was_done(replies[0]) && crate::step::was_done(replies[1])
                ==> (p matches Plan::Do(a) && a == Act::Exists(
                config.host.sibling(player, "androlon-player"@),
            ))
        }),
        ({
            let p = closing_plan(config, out_dir, server, replies);
            let n = replies.len();
            let bundle = config.host.path(out_dir, "Androlon.app"@);
            let good = n > 2 && crate::step::was_done(replies[2]);
            &&& (p matches Plan::Done(Ok(_))) <==> n > 4 && good
            &&& n == 2 ==> (p matches Plan::Do(Act::Write { path, .. }) && path
                == config.host.path(bundle, "Contents/Info.plist"@))
            &&& n == 3 && good ==> (p matches Plan::Do(Act::Run(c)) && c.exe == "codesign"@
                && c.args == seq!["--force"@, "--deep"@, "-s"@, "-"@, bundle])
            &&& n == 4 && good ==> (p matches Plan::Do(Act::Run(c)) && c.args == seq!["-f"@, bundle])
        }),
{
}

} // verus!
