//! The client of the device's streaming server: how the server is deployed and
//! started, and how its stream is read.

use crate::adb::{adb_call, tool_command, AdbService};
use crate::config::SdkConfig;
use crate::control::{start_app, start_message};
use crate::error::{problem_text, EngineError, Problem};
use crate::media::{Codec, EncodedPacket, StreamError, StreamMeta, StreamProblem};
use crate::number::{dec, decimal, hex, hexadecimal};
use crate::step::{outcome_of, yes, Act, Action, Plan, Reply, Step};
use crate::subprocess::{from_utf8_lossy, lossy, tool_name, CommandLine, Invocation};
use crate::text::{cat2, cat4, cat6, list3, push_text, trim, trimmed, views};
use crate::wire::{from_be, get_be};
use vstd::prelude::*;

verus! {

/// Where the server lies on the device.
pub open spec fn server_on_device() -> Seq<char> {
    "/data/local/tmp/scrcpy-server.jar"@
}

/// What the server is asked for.
#[derive(Debug)]
pub struct ScrcpyOptions {
    /// The server's file on the host.
    pub server_jar: String,
    /// The server's version, which its file must have.
    pub server_version: String,
    /// A number that tells clients apart, in hexadecimal digits.
    pub scid: String,
    /// The port of the tunnel on the host.
    pub port: u16,
    /// The longer side of the picture; zero for the device's own.
    pub max_size: u32,
    /// Frames in a second; zero for the server's choice.
    pub max_fps: u32,
    /// Bits in a second; zero for the server's choice.
    pub video_bit_rate: u32,
    /// The display that is captured.
    pub display_id: u32,
    /// Input is sent, on a second connection.
    pub control: bool,
    /// A new display of this size is captured instead.
    pub new_display: Option<(u32, u32)>,
    /// The density of the new display.
    pub new_display_dpi: Option<u32>,
    /// The app that is started on the display.
    pub start_app: Option<String>,
    /// The new display shows the bars of the system.
    pub vd_system_decorations: bool,
}

/// The number of the client `n` of the process `pid`: the lowest fifteen bits
/// of the process, and the client.
pub open spec fn client_number(pid: u32, n: u16) -> nat {
    ((pid as nat) % 0x8000) * 0x1_0000 + n as nat
}

impl ScrcpyOptions {
    /// What the client `n` of the process `pid` asks for where nothing else is
    /// said. Each client has a port and a number of its own.
    pub fn numbered(pid: u32, n: u16) -> (r: ScrcpyOptions)
        requires
            n <= 0xffff - 27183,
        ensures
            r.server_jar@ == "vendor/scrcpy-server"@,
            r.server_version@ == "4.1"@,
            r.scid@ == hex(client_number(pid, n), 8),
            r.port == 27183 + n,
            r.max_size == 0,
            r.max_fps == 0,
            r.video_bit_rate == 0,
            r.display_id == 0,
            r.control,
            r.new_display is None,
            r.new_display_dpi is None,
            r.start_app is None,
            r.vd_system_decorations,
    {
        let number: u32 = (pid % 0x8000) * 0x1_0000 + n as u32;
        ScrcpyOptions {
            server_jar: "vendor/scrcpy-server".to_owned(),
            server_version: "4.1".to_owned(),
            scid: hexadecimal(number, 8),
            port: 27183 + n,
            max_size: 0,
            max_fps: 0,
            video_bit_rate: 0,
            display_id: 0,
            control: true,
            new_display: None,
            new_display_dpi: None,
            start_app: None,
            vd_system_decorations: true,
        }
    }
}

/// Two clients of one process have different ports, and different names on the
/// device.
pub proof fn clients_are_told_apart(pid: u32, a: u16, b: u16)
    requires
        a != b,
        a <= 0xffff - 27183,
        b <= 0xffff - 27183,
    ensures
        27183 + a != 27183 + b,
        hex(client_number(pid, a), 8) != hex(client_number(pid, b), 8),
{
    reveal_with_fuel(crate::number::hex_numbers, 9);
    crate::number::hex_tells_apart(client_number(pid, a), client_number(pid, b), 8);
}

/// Which display is captured.
pub open spec fn display_word(o: ScrcpyOptions) -> Seq<char> {
    match o.new_display {
        Some((w, h)) => {
            let size = "new_display="@ + dec(w as int) + "x"@ + dec(h as int);
            match o.new_display_dpi {
                Some(dpi) => size + "/"@ + dec(dpi as int),
                None => size,
            }
        },
        None => "display_id="@ + dec(o.display_id as int),
    }
}

/// A truth value as a word.
pub open spec fn word_of(b: bool) -> Seq<char> {
    if b {
        "true"@
    } else {
        "false"@
    }
}

/// What is said to the server only where it differs from its own choice.
pub open spec fn extra_words(o: ScrcpyOptions) -> Seq<Seq<char>> {
    (if o.vd_system_decorations {
        Seq::<Seq<char>>::empty()
    } else {
        seq!["vd_system_decorations=false"@]
    }) + (if o.max_fps > 0 {
        seq!["max_fps="@ + dec(o.max_fps as int)]
    } else {
        Seq::<Seq<char>>::empty()
    }) + (if o.video_bit_rate > 0 {
        seq!["video_bit_rate="@ + dec(o.video_bit_rate as int)]
    } else {
        Seq::<Seq<char>>::empty()
    })
}

/// The command line of the server, behind `adb`.
pub open spec fn server_words(o: ScrcpyOptions) -> Seq<Seq<char>> {
    seq![
        "shell"@,
        "CLASSPATH=/data/local/tmp/scrcpy-server.jar"@,
        "app_process"@,
        "/"@,
        "com.genymobile.scrcpy.Server"@,
        o.server_version@,
        "tunnel_forward=true"@,
        "audio=false"@,
        "control="@ + word_of(o.control),
        "cleanup=true"@,
        "video_codec=h264"@,
        "send_device_meta=true"@,
        "send_frame_meta=true"@,
        "scid="@ + o.scid@,
        "max_size="@ + dec(o.max_size as int),
        display_word(o),
    ] + extra_words(o)
}

fn display_arg(o: &ScrcpyOptions) -> (r: String)
    ensures
        r@ == display_word(*o),
{
    match o.new_display {
        Some((w, h)) => {
            let width = decimal(w as u64);
            let height = decimal(h as u64);
            match o.new_display_dpi {
                Some(dpi) => cat6(
                    "new_display=",
                    width.as_str(),
                    "x",
                    height.as_str(),
                    "/",
                    decimal(dpi as u64).as_str(),
                ),
                None => cat4("new_display=", width.as_str(), "x", height.as_str()),
            }
        },
        None => cat2("display_id=", decimal(o.display_id as u64).as_str()),
    }
}

/// The command line of the server, behind `adb`.
pub fn server_args(o: &ScrcpyOptions) -> (r: Vec<String>)
    ensures
        views(r@) == server_words(*o),
{
    let mut r: Vec<String> = Vec::new();
    push_text(&mut r, "shell");
    push_text(&mut r, "CLASSPATH=/data/local/tmp/scrcpy-server.jar");
    push_text(&mut r, "app_process");
    push_text(&mut r, "/");
    push_text(&mut r, "com.genymobile.scrcpy.Server");
    push_text(&mut r, o.server_version.as_str());
    push_text(&mut r, "tunnel_forward=true");
    push_text(&mut r, "audio=false");
    push_text(
        &mut r,
        cat2(
            "control=",
            if o.control {
                "true"
            } else {
                "false"
            },
        ).as_str(),
    );
    push_text(&mut r, "cleanup=true");
    push_text(&mut r, "video_codec=h264");
    push_text(&mut r, "send_device_meta=true");
    push_text(&mut r, "send_frame_meta=true");
    push_text(&mut r, cat2("scid=", o.scid.as_str()).as_str());
    push_text(&mut r, cat2("max_size=", decimal(o.max_size as u64).as_str()).as_str());
    push_text(&mut r, display_arg(o).as_str());
    if !o.vd_system_decorations {
        push_text(&mut r, "vd_system_decorations=false");
    }
    if o.max_fps > 0 {
        push_text(&mut r, cat2("max_fps=", decimal(o.max_fps as u64).as_str()).as_str());
    }
    if o.video_bit_rate > 0 {
        push_text(
            &mut r,
            cat2("video_bit_rate=", decimal(o.video_bit_rate as u64).as_str()).as_str(),
        );
    }
    assert(views(r@) =~= server_words(*o));
    r
}

/// What came of a command of `adb` that has to go well.
pub open spec fn adb_result(config: SdkConfig, c: Invocation, r: Reply) -> Result<
    (),
    StreamProblem,
> {
    match outcome_of(config.host, c, r) {
        Err(e) => Err(StreamProblem::Engine(problem_text(e))),
        Ok((status, output)) => if status == 0 {
            Ok(())
        } else {
            Err(StreamProblem::Engine(trim(output)))
        },
    }
}

/// `a` is what `b` says.
pub open spec fn is_result(a: Result<(), StreamError>, b: Result<(), StreamProblem>) -> bool {
    match (a, b) {
        (Ok(_), Ok(_)) => true,
        (Err(e), Err(f)) => e@ == f,
        _ => false,
    }
}

fn adb_ok(config: &SdkConfig, c: &CommandLine, reply: &Reply) -> (r: Result<(), StreamError>)
    ensures
        is_result(r, adb_result(*config, c@, *reply)),
{
    match reply.ran(config.host, c) {
        Err(e) => Err(StreamError::Engine(e.message())),
        Ok(done) => if done.ok() {
            Ok(())
        } else {
            Err(StreamError::Engine(done.trimmed()))
        },
    }
}

/// How the server's file gets onto the device.
pub open spec fn deploy_plan(config: SdkConfig, o: ScrcpyOptions, replies: Seq<Reply>) -> Plan<
    Result<(), StreamProblem>,
> {
    let push = adb_call(config, seq!["push"@, o.server_jar@, server_on_device()]);
    if replies.len() == 0 {
        Plan::Do(Act::Exists(o.server_jar@))
    } else if !yes(replies[0]) {
        Plan::Done(Err(StreamProblem::ServerNotFound(o.server_jar@)))
    } else if replies.len() == 1 {
        Plan::Do(Act::Run(push))
    } else {
        Plan::Done(adb_result(config, push, replies[1]))
    }
}

/// Something to do while the stream is started.
#[derive(Debug)]
pub enum StartAction {
    /// Say whether the port is free.
    Probe(u16),
    /// Run a program to its end.
    Run(CommandLine),
    /// Start a program that goes on by itself, its output in the file `log`.
    Spawn { command: CommandLine, log: String },
    /// Connect to the port and read the one byte that shows that the server is
    /// there, within a second.
    Connect(u16),
    /// Wait for so many milliseconds.
    Wait(u64),
    /// Connect to the port a second time.
    ConnectControl(u16),
    /// Read so many bytes of the stream.
    Read(usize),
    /// Send the message on the second connection.
    Send(Vec<u8>),
    /// Nothing is left to do.
    Finished,
}

/// What a `StartAction` stands for.
pub enum StartAct {
    Probe(int),
    Run(Invocation),
    Spawn { command: Invocation, log: Seq<char> },
    Connect(int),
    Wait(int),
    ConnectControl(int),
    Read(int),
    Send(Seq<u8>),
    Finished,
}

impl View for StartAction {
    type V = StartAct;

    open spec fn view(&self) -> StartAct {
        match self {
            StartAction::Probe(p) => StartAct::Probe(*p as int),
            StartAction::Run(c) => StartAct::Run(c@),
            StartAction::Spawn { command, log } => StartAct::Spawn {
                command: command@,
                log: log@,
            },
            StartAction::Connect(p) => StartAct::Connect(*p as int),
            StartAction::Wait(ms) => StartAct::Wait(*ms as int),
            StartAction::ConnectControl(p) => StartAct::ConnectControl(*p as int),
            StartAction::Read(n) => StartAct::Read(*n as int),
            StartAction::Send(m) => StartAct::Send(m@),
            StartAction::Finished => StartAct::Finished,
        }
    }
}

/// What came of a `StartAction`.
#[derive(Debug)]
pub enum StartReply {
    /// The port is free, or not.
    Free(bool),
    /// A program was run or started, or could not be.
    Process(Reply),
    /// A connection was made, a time waited for, a message sent, or not.
    Did(Result<(), String>),
    /// Bytes were read, or could not be.
    Bytes(Result<Vec<u8>, String>),
}

/// How far the start of a stream has come.
#[derive(Debug)]
pub enum Phase {
    /// The port so far behind the first one is tried.
    Probing(u16),
    Forwarding,
    Launching,
    /// So many tries have failed.
    Connecting(u32),
    /// A try has failed; what the system said.
    Waiting(u32, String),
    ConnectingControl,
    Greeting,
    StartingApp,
    Started,
}

/// What a `Phase` stands for.
pub enum Stage {
    Probing(int),
    Forwarding,
    Launching,
    Connecting(int),
    Waiting(int, Seq<char>),
    ConnectingControl,
    Greeting,
    StartingApp,
    Started,
}

impl View for Phase {
    type V = Stage;

    open spec fn view(&self) -> Stage {
        match self {
            Phase::Probing(k) => Stage::Probing(*k as int),
            Phase::Forwarding => Stage::Forwarding,
            Phase::Launching => Stage::Launching,
            Phase::Connecting(n) => Stage::Connecting(*n as int),
            Phase::Waiting(n, e) => Stage::Waiting(*n as int, e@),
            Phase::ConnectingControl => Stage::ConnectingControl,
            Phase::Greeting => Stage::Greeting,
            Phase::StartingApp => Stage::StartingApp,
            Phase::Started => Stage::Started,
        }
    }
}

/// How many ports are tried.
pub const PORTS: u16 = 100;

/// How often a connection is tried.
pub const TRIES: u32 = 50;

/// How many bytes a stream begins with: the device's name, the codec and the
/// size of the picture.
pub const GREETING_LEN: usize = 80;

/// The first bytes of `s` up to a zero, or all of them.
pub open spec fn up_to_zero(s: Seq<u8>) -> Seq<u8>
    decreases s.len(),
{
    if s.len() == 0 || s[0] == 0 {
        seq![]
    } else {
        seq![s[0]] + up_to_zero(s.skip(1))
    }
}

/// `m` is what the bytes say that a stream begins with.
pub open spec fn is_meta(b: Seq<u8>, m: StreamMeta) -> bool {
    &&& m.device_name@ == lossy(up_to_zero(b.take(64)))
    &&& m.codec == Codec::of(from_be(b.subrange(64, 68)) as u32)
    &&& m.width == from_be(b.subrange(72, 76))
    &&& m.height == from_be(b.subrange(76, 80))
}

/// The bytes of a header say that the picture has a size from here on, and
/// nothing else follows them.
pub open spec fn is_session(first: u8) -> bool {
    first & 0x80 != 0
}

fn name_bytes(b: &Vec<u8>) -> (r: Vec<u8>)
    requires
        b.len() >= 64,
    ensures
        r@ == up_to_zero(b@.take(64)),
{
    let ghost name = b@.take(64);
    let mut r: Vec<u8> = Vec::new();
    let mut i: usize = 0;
    assert(name.skip(0) =~= name);
    assert(r@ + up_to_zero(name) =~= up_to_zero(name));
    while i < 64 && b[i] != 0
        invariant
            i <= 64 <= b.len(),
            name == b@.take(64),
            r@ + up_to_zero(name.skip(i as int)) == up_to_zero(name),
        decreases 64 - i,
    {
        let ghost was = r@;
        r.push(b[i]);
        assert(name.skip(i as int)[0] == b@[i as int]);
        assert(name.skip(i as int).skip(1) =~= name.skip(i + 1));
        assert(r@ + up_to_zero(name.skip(i + 1)) =~= was + up_to_zero(name.skip(i as int)));
        i = i + 1;
    }
    assert(up_to_zero(name.skip(i as int)) =~= seq![]);
    assert(r@ =~= up_to_zero(name));
    r
}

/// Reads what a stream begins with.
pub fn read_meta(b: &Vec<u8>) -> (r: Result<StreamMeta, StreamError>)
    requires
        b.len() == GREETING_LEN,
    ensures
        match r {
            Ok(m) => is_session(b@[68]) && is_meta(b@, m),
            Err(e) => !is_session(b@[68]) && e@ == StreamProblem::Protocol(
                "expected a session header (resolution) after codec id"@,
            ),
        },
{
    let device_name = from_utf8_lossy(&name_bytes(b));
    let id: u64 = get_be(b, 64, 4);
    if b[68] & 0x80 == 0 {
        return Err(
            StreamError::Protocol(
                "expected a session header (resolution) after codec id".to_owned(),
            ),
        );
    }
    let width: u64 = get_be(b, 72, 4);
    let height: u64 = get_be(b, 76, 4);
    proof {
        crate::wire::spans();
        crate::wire::from_be_bound(b@.subrange(64, 68));
        crate::wire::from_be_bound(b@.subrange(72, 76));
        crate::wire::from_be_bound(b@.subrange(76, 80));
    }
    Ok(
        StreamMeta {
            device_name,
            codec: Codec::from_id(id as u32),
            width: width as u32,
            height: height as u32,
        },
    )
}

/// The tunnel's end on the host.
pub open spec fn tunnel_word(port: int) -> Seq<char> {
    "tcp:"@ + dec(port)
}

/// The command that makes the tunnel.
pub open spec fn forward_call(config: SdkConfig, o: ScrcpyOptions, port: int) -> Invocation {
    adb_call(
        config,
        seq!["forward"@, tunnel_word(port), "localabstract:scrcpy_"@ + o.scid@],
    )
}

/// What is to be done in a phase.
pub open spec fn start_act(config: SdkConfig, o: ScrcpyOptions, first: int, stage: Stage) -> StartAct {
    match stage {
        Stage::Probing(k) => StartAct::Probe(first + k),
        Stage::Forwarding => StartAct::Run(forward_call(config, o, o.port as int)),
        Stage::Launching => StartAct::Spawn {
            command: adb_call(config, server_words(o)),
            log: config.under_root(".scrcpy-server.log"@),
        },
        Stage::Connecting(_) => StartAct::Connect(o.port as int),
        Stage::Waiting(_, _) => StartAct::Wait(100),
        Stage::ConnectingControl => StartAct::ConnectControl(o.port as int),
        Stage::Greeting => StartAct::Read(GREETING_LEN as int),
        Stage::StartingApp => StartAct::Send(
            match o.start_app {
                Some(name) => start_message(name@),
                None => seq![],
            },
        ),
        Stage::Started => StartAct::Finished,
    }
}

/// What the system said where something could not be done.
pub open spec fn refused(r: StartReply) -> Option<Seq<char>> {
    match r {
        StartReply::Did(Ok(_)) => None,
        StartReply::Did(Err(e)) => Some(e@),
        _ => Some(seq![]),
    }
}

/// What the system said where a program could not be started.
pub open spec fn not_spawned(r: StartReply) -> Option<Seq<char>> {
    match r {
        StartReply::Process(p) => crate::step::failure_of(p),
        _ => Some(seq![]),
    }
}

/// What a reply says of a program that was run.
pub open spec fn process_of(r: StartReply) -> Reply {
    match r {
        StartReply::Process(p) => p,
        _ => Reply::Answer(false),
    }
}

/// The phase behind the greeting: an app is started on the second connection,
/// without which none can be.
pub open spec fn after_greeting(o: ScrcpyOptions) -> Result<Stage, StreamProblem> {
    if o.start_app is None {
        Ok(Stage::Started)
    } else if o.control {
        Ok(Stage::StartingApp)
    } else {
        Err(StreamProblem::Protocol("start_app requires the control channel (control=true)"@))
    }
}

/// The phase that a reply leads to, or why the stream cannot be started.
pub open spec fn next_stage(
    config: SdkConfig,
    o: ScrcpyOptions,
    stage: Stage,
    r: StartReply,
) -> Result<Stage, StreamProblem> {
    match stage {
        Stage::Probing(k) => if r == StartReply::Free(true) || k + 1 >= PORTS {
            Ok(Stage::Forwarding)
        } else {
            Ok(Stage::Probing(k + 1))
        },
        Stage::Forwarding => match adb_result(
            config,
            forward_call(config, o, o.port as int),
            process_of(r),
        ) {
            Ok(_) => Ok(Stage::Launching),
            Err(e) => Err(e),
        },
        Stage::Launching => match not_spawned(r) {
            None => Ok(Stage::Connecting(0)),
            Some(e) => Err(
                StreamProblem::Engine(
                    problem_text(
                        Problem::Launch {
                            tool: tool_name(config.host, config.adb_path()),
                            source: e,
                        },
                    ),
                ),
            ),
        },
        Stage::Connecting(n) => match refused(r) {
            None => if o.control {
                Ok(Stage::ConnectingControl)
            } else {
                Ok(Stage::Greeting)
            },
            Some(e) => Ok(Stage::Waiting(n, e)),
        },
        Stage::Waiting(n, e) => if n + 1 < TRIES {
            Ok(Stage::Connecting(n + 1))
        } else {
            Err(StreamProblem::Io(e))
        },
        Stage::ConnectingControl => match refused(r) {
            None => Ok(Stage::Greeting),
            Some(e) => Err(StreamProblem::Io(e)),
        },
        Stage::Greeting => match r {
            StartReply::Bytes(Ok(b)) => if b@.len() != GREETING_LEN {
                Err(StreamProblem::Io(seq![]))
            } else if !is_session(b@[68]) {
                Err(
                    StreamProblem::Protocol(
                        "expected a session header (resolution) after codec id"@,
                    ),
                )
            } else {
                after_greeting(o)
            },
            StartReply::Bytes(Err(e)) => Err(StreamProblem::Io(e@)),
            _ => Err(StreamProblem::Io(seq![])),
        },
        Stage::StartingApp => match refused(r) {
            None => Ok(Stage::Started),
            Some(e) => Err(StreamProblem::Io(e)),
        },
        Stage::Started => Ok(Stage::Started),
    }
}

/// The port that is used behind a reply, where `port` was used before it.
pub open spec fn next_port(first: int, port: int, stage: Stage, r: StartReply) -> int {
    match stage {
        Stage::Probing(k) => if r == StartReply::Free(true) {
            first + k
        } else {
            port
        },
        _ => port,
    }
}

/// The options are the same but for the port.
pub open spec fn same_but_port(b: ScrcpyOptions, a: ScrcpyOptions) -> bool {
    &&& b.server_jar == a.server_jar
    &&& b.server_version == a.server_version
    &&& b.scid == a.scid
    &&& b.max_size == a.max_size
    &&& b.max_fps == a.max_fps
    &&& b.video_bit_rate == a.video_bit_rate
    &&& b.display_id == a.display_id
    &&& b.control == a.control
    &&& b.new_display == a.new_display
    &&& b.new_display_dpi == a.new_display_dpi
    &&& b.start_app == a.start_app
    &&& b.vd_system_decorations == a.vd_system_decorations
}

fn refusal(r: StartReply) -> (e: Option<String>)
    ensures
        crate::step::text_of(e) == refused(r),
{
    match r {
        StartReply::Did(Ok(_)) => None,
        StartReply::Did(Err(e)) => Some(e),
        _ => {
            let e = String::new();
            assert(e@ =~= seq![]);
            Some(e)
        },
    }
}

/// The client of the streaming server.
pub struct ScrcpyClient {
    pub config: SdkConfig,
    pub opts: ScrcpyOptions,
    /// The port that the start began with; `opts` holds the one that is used.
    pub first_port: u16,
    pub phase: Phase,
    /// What the stream said of itself at its start.
    pub meta: Option<StreamMeta>,
}

impl ScrcpyClient {
    /// No more ports, and no more connections, are tried than are to be, and an
    /// app is started only where there is one to start.
    pub open spec fn wf(&self) -> bool {
        &&& self.phase matches Phase::Probing(k) ==> k < PORTS
        &&& self.phase matches Phase::Connecting(n) ==> n < TRIES
        &&& self.phase matches Phase::Waiting(n, _) ==> n < TRIES
        &&& self.phase is StartingApp ==> self.opts.start_app is Some
    }

    /// The ports that are tried are ports.
    pub open spec fn in_range(&self) -> bool {
        self.phase is Probing ==> self.first_port + PORTS <= 0xffff
    }

    pub fn new(config: SdkConfig, opts: ScrcpyOptions) -> (r: ScrcpyClient)
        requires
            opts.port + PORTS <= 0xffff,
        ensures
            r.wf(),
            r.in_range(),
            r.config == config,
            r.opts == opts,
            r.first_port == opts.port,
            r.phase@ == Stage::Probing(0),
            r.meta is None,
    {
        let first_port = opts.port;
        ScrcpyClient { config, opts, first_port, phase: Phase::Probing(0), meta: None }
    }

    fn adb(&self) -> (r: AdbService<'_>)
        ensures
            *r.config == self.config,
    {
        AdbService::new(&self.config)
    }

    /// The next step of getting the server's file onto the device.
    pub fn deploy_server(&self, replies: &Vec<Reply>) -> (s: Step<Result<(), StreamError>>)
        ensures
            match (s, deploy_plan(self.config, self.opts, replies@)) {
                (Step::Do(a), Plan::Do(b)) => a@ == b,
                (Step::Done(a), Plan::Done(b)) => is_result(a, b),
                _ => false,
            },
    {
        if replies.len() == 0 {
            return Step::Do(Action::Exists(self.opts.server_jar.clone()));
        }
        if !replies[0].is_yes() {
            return Step::Done(Err(StreamError::ServerNotFound(self.opts.server_jar.clone())));
        }
        let push = self.adb().adb(
            list3("push", self.opts.server_jar.as_str(), "/data/local/tmp/scrcpy-server.jar"),
        );
        if replies.len() == 1 {
            return Step::Do(Action::Run(push));
        }
        Step::Done(adb_ok(&self.config, &push, &replies[1]))
    }

    fn forward_command(&self) -> (c: CommandLine)
        ensures
            c@ == forward_call(self.config, self.opts, self.opts.port as int),
    {
        let tcp = cat2("tcp:", decimal(self.opts.port as u64).as_str());
        let socket = cat2("localabstract:scrcpy_", self.opts.scid.as_str());
        self.adb().adb(list3("forward", tcp.as_str(), socket.as_str()))
    }

    /// Begins anew, with the port that is held.
    pub fn restart(&mut self)
        ensures
            final(self).wf(),
            final(self).phase@ == Stage::Probing(0),
            final(self).first_port == old(self).opts.port,
            final(self).config == old(self).config,
            final(self).opts == old(self).opts,
            final(self).meta == old(self).meta,
    {
        self.first_port = self.opts.port;
        self.phase = Phase::Probing(0);
    }

    /// What is to be done next to start the stream.
    pub fn start(&self) -> (a: StartAction)
        requires
            self.wf(),
            self.in_range(),
        ensures
            a@ == start_act(self.config, self.opts, self.first_port as int, self.phase@),
    {
        match &self.phase {
            Phase::Probing(k) => StartAction::Probe(self.first_port + *k),
            Phase::Forwarding => StartAction::Run(self.forward_command()),
            Phase::Launching => StartAction::Spawn {
                command: tool_command(&self.config, self.config.adb(), server_args(&self.opts)),
                log: self.config.host.join(self.config.sdk_root.as_str(), ".scrcpy-server.log"),
            },
            Phase::Connecting(_) => StartAction::Connect(self.opts.port),
            Phase::Waiting(_, _) => StartAction::Wait(100),
            Phase::ConnectingControl => StartAction::ConnectControl(self.opts.port),
            Phase::Greeting => StartAction::Read(GREETING_LEN),
            Phase::StartingApp => StartAction::Send(
                match &self.opts.start_app {
                    Some(name) => start_app(name.as_str()),
                    None => {
                        let none: Vec<u8> = Vec::new();
                        assert(none@ =~= seq![]);
                        none
                    },
                },
            ),
            Phase::Started => StartAction::Finished,
        }
    }

    /// Takes what came of the last action. The port is the first one that is
    /// free; where none of those that were tried is, it is the one that was
    /// asked for. Behind an error the stream can be started anew, with the port
    /// that is held.
    pub fn on_reply(&mut self, reply: StartReply) -> (r: Result<(), StreamError>)
        requires
            old(self).wf(),
            old(self).in_range(),
        ensures
            final(self).wf(),
            final(self).config == old(self).config,
            match next_stage(old(self).config, old(self).opts, old(self).phase@, reply) {
                Ok(stage) => {
                    &&& r is Ok
                    &&& final(self).in_range()
                    &&& final(self).first_port == old(self).first_port
                    &&& final(self).phase@ == stage
                    &&& final(self).opts.port == next_port(
                        old(self).first_port as int,
                        old(self).opts.port as int,
                        old(self).phase@,
                        reply,
                    )
                    &&& if old(self).phase is Greeting {
                        final(self).meta matches Some(m) && is_meta(reply->Bytes_0->Ok_0@, m)
                    } else {
                        final(self).meta == old(self).meta
                    }
                },
                Err(e) => {
                    &&& r matches Err(f)
                    &&& f@ == e
                    &&& final(self).phase@ == Stage::Probing(0)
                    &&& final(self).first_port == old(self).opts.port
                    &&& final(self).opts.port == old(self).opts.port
                    &&& final(self).meta == old(self).meta
                },
            },
            same_but_port(final(self).opts, old(self).opts),
    {
        let r = self.take(reply);
        if r.is_err() {
            self.restart();
        }
        r
    }

    /// Takes what came of the last action, and leaves the phase open where it
    /// is an error.
    fn take(&mut self, reply: StartReply) -> (r: Result<(), StreamError>)
        requires
            old(self).wf(),
            old(self).in_range(),
        ensures
            final(self).config == old(self).config,
            match next_stage(old(self).config, old(self).opts, old(self).phase@, reply) {
                Ok(stage) => {
                    &&& r is Ok
                    &&& final(self).wf()
                    &&& final(self).in_range()
                    &&& final(self).first_port == old(self).first_port
                    &&& final(self).phase@ == stage
                    &&& final(self).opts.port == next_port(
                        old(self).first_port as int,
                        old(self).opts.port as int,
                        old(self).phase@,
                        reply,
                    )
                    &&& if old(self).phase is Greeting {
                        final(self).meta matches Some(m) && is_meta(reply->Bytes_0->Ok_0@, m)
                    } else {
                        final(self).meta == old(self).meta
                    }
                },
                Err(e) => {
                    &&& r matches Err(f)
                    &&& f@ == e
                    &&& final(self).opts.port == old(self).opts.port
                    &&& final(self).meta == old(self).meta
                },
            },
            same_but_port(final(self).opts, old(self).opts),
    {
        let mut phase = Phase::Started;
        std::mem::swap(&mut phase, &mut self.phase);
        match phase {
            Phase::Probing(k) => {
                let free = match reply {
                    StartReply::Free(b) => b,
                    _ => false,
                };
                if free {
                    self.opts.port = self.first_port + k;
                    self.phase = Phase::Forwarding;
                } else if k + 1 >= PORTS {
                    self.phase = Phase::Forwarding;
                } else {
                    self.phase = Phase::Probing(k + 1);
                }
                Ok(())
            },
            Phase::Forwarding => {
                let process = match reply {
                    StartReply::Process(p) => p,
                    _ => Reply::Answer(false),
                };
                match adb_ok(&self.config, &self.forward_command(), &process) {
                    Ok(_) => {
                        self.phase = Phase::Launching;
                        Ok(())
                    },
                    Err(e) => Err(e),
                }
            },
            Phase::Launching => {
                let failure = match reply {
                    StartReply::Process(p) => p.failure(),
                    _ => {
                        let e = String::new();
                        assert(e@ =~= seq![]);
                        Some(e)
                    },
                };
                match failure {
                    None => {
                        self.phase = Phase::Connecting(0);
                        Ok(())
                    },
                    Some(source) => {
                        let adb = tool_command(&self.config, self.config.adb(), Vec::new());
                        let e = EngineError::Launch { tool: adb.tool(self.config.host), source };
                        Err(StreamError::Engine(e.message()))
                    },
                }
            },
            Phase::Connecting(n) => {
                match refusal(reply) {
                    None => {
                        if self.opts.control {
                            self.phase = Phase::ConnectingControl;
                        } else {
                            self.phase = Phase::Greeting;
                        }
                    },
                    Some(e) => {
                        self.phase = Phase::Waiting(n, e);
                    },
                }
                Ok(())
            },
            Phase::Waiting(n, e) => {
                if n + 1 < TRIES {
                    self.phase = Phase::Connecting(n + 1);
                    Ok(())
                } else {
                    Err(StreamError::Io(e))
                }
            },
            Phase::ConnectingControl => match refusal(reply) {
                None => {
                    self.phase = Phase::Greeting;
                    Ok(())
                },
                Some(e) => Err(StreamError::Io(e)),
            },
            Phase::Greeting => match reply {
                StartReply::Bytes(Ok(b)) => {
                    if b.len() != GREETING_LEN {
                        let none = String::new();
                        assert(none@ =~= seq![]);
                        return Err(StreamError::Io(none));
                    }
                    match read_meta(&b) {
                        Err(e) => Err(e),
                        Ok(meta) => {
                            if self.opts.start_app.is_none() {
                                self.phase = Phase::Started;
                            } else if self.opts.control {
                                self.phase = Phase::StartingApp;
                            } else {
                                return Err(
                                    StreamError::Protocol(
                                        "start_app requires the control channel (control=true)".to_owned(),
                                    ),
                                );
                            }
                            self.meta = Some(meta);
                            Ok(())
                        },
                    }
                },
                StartReply::Bytes(Err(e)) => Err(StreamError::Io(e)),
                _ => {
                    let none = String::new();
                    assert(none@ =~= seq![]);
                    Err(StreamError::Io(none))
                },
            },
            Phase::StartingApp => match refusal(reply) {
                None => Ok(()),
                Some(e) => Err(StreamError::Io(e)),
            },
            Phase::Started => Ok(()),
        }
    }

    /// The command that takes the tunnel down.
    pub fn stop(&self) -> (c: CommandLine)
        ensures
            c@ == adb_call(
                self.config,
                seq!["forward"@, "--remove"@, tunnel_word(self.opts.port as int)],
            ),
    {
        let tcp = cat2("tcp:", decimal(self.opts.port as u64).as_str());
        self.adb().adb(list3("forward", "--remove", tcp.as_str()))
    }
}

/// The header of a packet that holds a frame.
#[derive(Debug, Clone, Copy, PartialEq, Eq, Structural)]
pub struct MediaHeader {
    pub pts: u64,
    pub is_config: bool,
    pub is_keyframe: bool,
    /// How many bytes follow.
    pub len: u32,
}

/// What the twelve bytes of a header say.
#[derive(Debug, Clone, Copy, PartialEq, Eq, Structural)]
pub enum Header {
    /// The picture has this size from here on.
    Session { width: u32, height: u32 },
    /// A frame follows.
    Media(MediaHeader),
}

/// What the twelve bytes of a header say.
pub open spec fn header_of(h: Seq<u8>) -> Header {
    if is_session(h[0]) {
        Header::Session {
            width: from_be(h.subrange(4, 8)) as u32,
            height: from_be(h.subrange(8, 12)) as u32,
        }
    } else {
        let flags = from_be(h.subrange(0, 8)) as u64;
        Header::Media(
            MediaHeader {
                pts: flags & 0x1fff_ffff_ffff_ffff,
                is_config: flags & 0x4000_0000_0000_0000 != 0,
                is_keyframe: flags & 0x2000_0000_0000_0000 != 0,
                len: from_be(h.subrange(8, 12)) as u32,
            },
        )
    }
}

/// Reads a header.
pub fn read_header(h: &Vec<u8>) -> (r: Header)
    requires
        h.len() == 12,
    ensures
        r == header_of(h@),
{
    proof {
        crate::wire::spans();
        crate::wire::from_be_bound(h@.subrange(4, 8));
        crate::wire::from_be_bound(h@.subrange(8, 12));
    }
    if h[0] & 0x80 != 0 {
        Header::Session { width: get_be(h, 4, 4) as u32, height: get_be(h, 8, 4) as u32 }
    } else {
        let flags: u64 = get_be(h, 0, 8);
        Header::Media(
            MediaHeader {
                pts: flags & 0x1fff_ffff_ffff_ffff,
                is_config: flags & 0x4000_0000_0000_0000 != 0,
                is_keyframe: flags & 0x2000_0000_0000_0000 != 0,
                len: get_be(h, 8, 4) as u32,
            },
        )
    }
}

/// A stream that was started.
#[derive(Debug)]
pub struct VideoStream {
    pub meta: StreamMeta,
}

impl VideoStream {
    pub fn meta(&self) -> (r: &StreamMeta)
        ensures
            *r == self.meta,
    {
        &self.meta
    }

    /// Takes a header. Where a frame follows, says how many bytes are to be
    /// read for it; otherwise the size of the picture is taken over, and the
    /// next header is to be read.
    pub fn read_packet(&mut self, header: &Vec<u8>) -> (r: Option<MediaHeader>)
        requires
            header.len() == 12,
        ensures
            final(self).meta.device_name == old(self).meta.device_name,
            final(self).meta.codec == old(self).meta.codec,
            match header_of(header@) {
                Header::Session { width, height } => {
                    &&& r is None
                    &&& final(self).meta.width == width
                    &&& final(self).meta.height == height
                },
                Header::Media(m) => r == Some(m) && final(self).meta == old(self).meta,
            },
    {
        match read_header(header) {
            Header::Session { width, height } => {
                self.meta.width = width;
                self.meta.height = height;
                None
            },
            Header::Media(m) => Some(m),
        }
    }
}

/// The packet with this header and these bytes.
pub fn packet_of(header: MediaHeader, data: Vec<u8>) -> (r: EncodedPacket)
    ensures
        r.pts == header.pts,
        r.is_config == header.is_config,
        r.is_keyframe == header.is_keyframe,
        r.data@ == data@,
{
    EncodedPacket {
        pts: header.pts,
        is_config: header.is_config,
        is_keyframe: header.is_keyframe,
        data,
    }
}

/// The flags and the time of a frame, in one number.
pub open spec fn flags_of(m: MediaHeader) -> u64 {
    m.pts | (if m.is_config {
        0x4000_0000_0000_0000u64
    } else {
        0u64
    }) | (if m.is_keyframe {
        0x2000_0000_0000_0000u64
    } else {
        0u64
    })
}

/// The header that a server writes for a frame is read as that frame's, where
/// its time fits in the bits that are left for it.
pub proof fn media_header_reads_back(m: MediaHeader)
    requires
        m.pts < 0x2000_0000_0000_0000,
    ensures
        header_of(crate::wire::be(flags_of(m) as nat, 8) + crate::wire::be(m.len as nat, 4))
            == Header::Media(m),
{
    let flags = flags_of(m);
    let h = crate::wire::be(flags as nat, 8) + crate::wire::be(m.len as nat, 4);
    crate::wire::spans();
    crate::wire::be_len(flags as nat, 8);
    crate::wire::be_len(m.len as nat, 4);
    crate::wire::be_reads_back(flags as nat, 8);
    crate::wire::be_reads_back(m.len as nat, 4);
    assert(h.subrange(0, 8) =~= crate::wire::be(flags as nat, 8));
    assert(h.subrange(8, 12) =~= crate::wire::be(m.len as nat, 4));
    let pts = m.pts;
    let c = if m.is_config {
        0x4000_0000_0000_0000u64
    } else {
        0u64
    };
    let k = if m.is_keyframe {
        0x2000_0000_0000_0000u64
    } else {
        0u64
    };
    assert((pts | c | k) & 0x1fff_ffff_ffff_ffff == pts && ((pts | c | k) & 0x4000_0000_0000_0000
        != 0) == (c != 0) && ((pts | c | k) & 0x2000_0000_0000_0000 != 0) == (k != 0) && (pts | c
        | k) < 0x8000_0000_0000_0000) by (bit_vector)
        requires
            pts < 0x2000_0000_0000_0000u64,
            c == 0 || c == 0x4000_0000_0000_0000u64,
            k == 0 || k == 0x2000_0000_0000_0000u64,
    ;
    first_byte(flags as nat);
    let b = h[0];
    assert(b < 0x80);
    assert(b < 0x80 ==> b & 0x80 == 0) by (bit_vector);
}

proof fn first_byte(n: nat)
    requires
        n < 0x8000_0000_0000_0000,
    ensures
        crate::wire::be(n, 8).len() == 8,
        crate::wire::be(n, 8)[0] < 0x80,
{
    reveal_with_fuel(crate::wire::be, 9);
    crate::wire::be_len(n, 8);
}

/// The options with another port.
pub open spec fn with_port(o: ScrcpyOptions, port: int) -> ScrcpyOptions {
    ScrcpyOptions { port: port as u16, ..o }
}

/// How far the start of a stream has come behind the replies, and the port that
/// is then used; none where it has failed.
pub open spec fn course(config: SdkConfig, o: ScrcpyOptions, replies: Seq<StartReply>) -> Option<
    (Stage, int),
>
    decreases replies.len(),
{
    if replies.len() == 0 {
        Some((Stage::Probing(0), o.port as int))
    } else {
        match course(config, o, replies.drop_last()) {
            None => None,
            Some((stage, port)) => match next_stage(
                config,
                with_port(o, port),
                stage,
                replies.last(),
            ) {
                Ok(next) => Some((next, next_port(o.port as int, port, stage, replies.last()))),
                Err(_) => None,
            },
        }
    }
}

/// How far the start of a stream has come behind the replies.
pub open spec fn stage_behind(
    config: SdkConfig,
    o: ScrcpyOptions,
    replies: Seq<StartReply>,
) -> Stage {
    (course(config, o, replies)->0).0
}

/// The port that is used behind the replies.
pub open spec fn port_behind(config: SdkConfig, o: ScrcpyOptions, replies: Seq<StartReply>) -> int {
    (course(config, o, replies)->0).1
}

/// What was done for each of the replies, in order.
pub open spec fn done_for(
    config: SdkConfig,
    o: ScrcpyOptions,
    replies: Seq<StartReply>,
) -> Seq<StartAct>
    decreases replies.len(),
{
    if replies.len() == 0 {
        seq![]
    } else {
        match course(config, o, replies.drop_last()) {
            None => seq![],
            Some((stage, port)) => done_for(config, o, replies.drop_last()).push(
                start_act(config, with_port(o, port), o.port as int, stage),
            ),
        }
    }
}

/// How many of the acts are of a kind.
pub open spec fn how_many(acts: Seq<StartAct>, kind: spec_fn(StartAct) -> bool) -> nat
    decreases acts.len(),
{
    if acts.len() == 0 {
        0
    } else {
        how_many(acts.drop_last(), kind) + if kind(acts.last()) {
            1nat
        } else {
            0nat
        }
    }
}

/// One where it holds, and nothing otherwise.
pub open spec fn once(b: bool) -> nat {
    if b {
        1
    } else {
        0
    }
}

/// What has been done, and how often, where a start has come to a phase.
pub open spec fn is_tally(o: ScrcpyOptions, acts: Seq<StartAct>, stage: Stage) -> bool {
    let forwarded = !(stage is Probing || stage is Forwarding);
    let launched = forwarded && !(stage is Launching);
    let connected = launched && !(stage is Connecting || stage is Waiting);
    let controlled = connected && !(stage is ConnectingControl);
    let greeted = controlled && !(stage is Greeting);
    let sent = greeted && !(stage is StartingApp);
    &&& how_many(acts, |a: StartAct| a is Run) == once(forwarded)
    &&& how_many(acts, |a: StartAct| a is Spawn) == once(launched)
    &&& how_many(acts, |a: StartAct| a is ConnectControl) == once(controlled && o.control)
    &&& how_many(acts, |a: StartAct| a is Read) == once(greeted)
    &&& how_many(acts, |a: StartAct| a is Send) == once(sent && o.start_app is Some)
    &&& match stage {
        Stage::Probing(k) => how_many(acts, |a: StartAct| a is Probe) == k && k < 100,
        _ => 1 <= how_many(acts, |a: StartAct| a is Probe) <= 100,
    }
    &&& match stage {
        Stage::Connecting(n) => how_many(acts, |a: StartAct| a is Connect) == n && n < 50,
        Stage::Waiting(n, _) => how_many(acts, |a: StartAct| a is Connect) == n + 1 && n < 50,
        _ => how_many(acts, |a: StartAct| a is Connect) <= 50 && (connected ==> how_many(
            acts,
            |a: StartAct| a is Connect,
        ) >= 1) && (!launched ==> how_many(acts, |a: StartAct| a is Connect) == 0),
    }
    &&& greeted && o.start_app is Some ==> o.control
}

/// What is done on the way is what the options ask for, at the port that is
/// used.
pub open spec fn is_fitting(config: SdkConfig, o: ScrcpyOptions, port: int, a: StartAct) -> bool {
    match a {
        StartAct::Probe(p) => o.port <= p < o.port + 100,
        StartAct::Run(c) => c.exe == config.adb_path() && c.args == seq![
            "forward"@,
            "tcp:"@ + dec(port),
            "localabstract:scrcpy_"@ + o.scid@,
        ],
        StartAct::Spawn { command, .. } => command.exe == config.adb_path() && command.args.contains(
            "scid="@ + o.scid@,
        ) && command.args.contains("com.genymobile.scrcpy.Server"@) && command.args[0] == "shell"@
            && command.args[5] == o.server_version@,
        StartAct::Connect(p) => p == port,
        StartAct::ConnectControl(p) => p == port,
        StartAct::Wait(n) => n == 100,
        StartAct::Read(n) => n == 80,
        StartAct::Send(m) => o.start_app matches Some(name) && m == start_message(name@),
        StartAct::Finished => true,
    }
}

/// The port is one of the hundred that are tried.
pub open spec fn is_near(o: ScrcpyOptions, port: int) -> bool {
    o.port <= port < o.port + 100
}

proof fn tally_grows(acts: Seq<StartAct>, a: StartAct, kind: spec_fn(StartAct) -> bool)
    ensures
        how_many(acts.push(a), kind) == how_many(acts, kind) + once(kind(a)),
{
    assert(acts.push(a).drop_last() =~= acts);
}

proof fn tallies_grow(acts: Seq<StartAct>, a: StartAct)
    ensures
        how_many(acts.push(a), |a: StartAct| a is Run) == how_many(acts, |a: StartAct| a is Run)
            + once(a is Run),
        how_many(acts.push(a), |a: StartAct| a is Spawn) == how_many(acts, |a: StartAct| a is Spawn)
            + once(a is Spawn),
        how_many(acts.push(a), |a: StartAct| a is ConnectControl) == how_many(
            acts,
            |a: StartAct| a is ConnectControl,
        ) + once(a is ConnectControl),
        how_many(acts.push(a), |a: StartAct| a is Read) == how_many(acts, |a: StartAct| a is Read)
            + once(a is Read),
        how_many(acts.push(a), |a: StartAct| a is Send) == how_many(acts, |a: StartAct| a is Send)
            + once(a is Send),
        how_many(acts.push(a), |a: StartAct| a is Probe) == how_many(acts, |a: StartAct| a is Probe)
            + once(a is Probe),
        how_many(acts.push(a), |a: StartAct| a is Connect) == how_many(
            acts,
            |a: StartAct| a is Connect,
        ) + once(a is Connect),
{
    tally_grows(acts, a, |a: StartAct| a is Run);
    tally_grows(acts, a, |a: StartAct| a is Spawn);
    tally_grows(acts, a, |a: StartAct| a is ConnectControl);
    tally_grows(acts, a, |a: StartAct| a is Read);
    tally_grows(acts, a, |a: StartAct| a is Send);
    tally_grows(acts, a, |a: StartAct| a is Probe);
    tally_grows(acts, a, |a: StartAct| a is Connect);
}

/// A start does each of its parts once, in order, whatever the replies are: one
/// tunnel, one server, at most fifty tries of a connection, the second
/// connection where input is sent, one greeting, and one message for the app
/// where there is one to start. So a stream that was started with an app has
/// sent the message for it, exactly once and on the second connection.
pub proof fn a_start_does_each_part_once(
    config: SdkConfig,
    o: ScrcpyOptions,
    replies: Seq<StartReply>,
)
    requires
        course(config, o, replies) is Some,
    ensures
        is_tally(o, done_for(config, o, replies), stage_behind(config, o, replies)),
    decreases replies.len(),
{
    if replies.len() == 0 {
        assert(done_for(config, o, replies) =~= seq![]);
    } else {
        let before = replies.drop_last();
        a_start_does_each_part_once(config, o, before);
        let (stage, port) = course(config, o, before)->0;
        let a = start_act(config, with_port(o, port), o.port as int, stage);
        tallies_grow(done_for(config, o, before), a);
    }
}

/// Every part of a start is for the same tunnel: the port that is connected to
/// is the one that the tunnel was made for, one of the hundred that are tried,
/// and the tunnel leads to the server that was started.
pub proof fn a_start_keeps_to_its_tunnel(
    config: SdkConfig,
    o: ScrcpyOptions,
    replies: Seq<StartReply>,
    i: int,
)
    requires
        course(config, o, replies) is Some,
        o.port + 100 <= 0xffff,
        0 <= i < done_for(config, o, replies).len(),
    ensures
        is_fitting(
            config,
            o,
            port_behind(config, o, replies),
            done_for(config, o, replies)[i],
        ),
        is_near(o, port_behind(config, o, replies)),
    decreases replies.len(),
{
    let before = replies.drop_last();
    let (stage, port) = course(config, o, before)->0;
    let acts = done_for(config, o, before);
    a_start_does_each_part_once(config, o, before);
    a_port_is_near(config, o, before);
    a_port_is_near(config, o, replies);
    if i < acts.len() {
        a_start_keeps_to_its_tunnel(config, o, before, i);
        if stage is Probing {
            only_ports_were_tried(config, o, before, i);
        }
    } else {
        let w = with_port(o, port);
        let words = server_words(w);
        assert(words[13] == "scid="@ + o.scid@);
        assert(words[4] == "com.genymobile.scrcpy.Server"@);
        assert(stage is StartingApp ==> o.start_app is Some) by {
            an_app_is_there(config, o, before);
        }
    }
}

proof fn an_app_is_there(config: SdkConfig, o: ScrcpyOptions, replies: Seq<StartReply>)
    requires
        course(config, o, replies) is Some,
    ensures
        stage_behind(config, o, replies) is StartingApp ==> o.start_app is Some,
    decreases replies.len(),
{
    if replies.len() > 0 {
        an_app_is_there(config, o, replies.drop_last());
    }
}

proof fn a_port_is_near(config: SdkConfig, o: ScrcpyOptions, replies: Seq<StartReply>)
    requires
        course(config, o, replies) is Some,
    ensures
        is_near(o, port_behind(config, o, replies)),
    decreases replies.len(),
{
    if replies.len() > 0 {
        a_port_is_near(config, o, replies.drop_last());
        a_start_does_each_part_once(config, o, replies.drop_last());
    }
}

proof fn only_ports_were_tried(
    config: SdkConfig,
    o: ScrcpyOptions,
    replies: Seq<StartReply>,
    i: int,
)
    requires
        course(config, o, replies) is Some,
        stage_behind(config, o, replies) is Probing,
        0 <= i < done_for(config, o, replies).len(),
    ensures
        done_for(config, o, replies)[i] is Probe,
    decreases replies.len(),
{
    let before = replies.drop_last();
    if i < done_for(config, o, before).len() {
        only_ports_were_tried(config, o, before, i);
    }
}

/// The port of a tunnel is the first one that is free, from the one that was
/// asked for on; where none of a hundred is, it is the one that was asked for.
pub proof fn the_first_free_port_is_used(
    config: SdkConfig,
    o: ScrcpyOptions,
    replies: Seq<StartReply>,
)
    requires
        course(config, o, replies) matches Some((stage, _)) && stage is Forwarding,
    ensures
        replies.len() >= 1,
        ({
            let k = replies.len() - 1;
            let port = port_behind(config, o, replies);
            &&& forall|i: int| 0 <= i < k ==> #[trigger] replies[i] != StartReply::Free(true)
            &&& replies[k] == StartReply::Free(true) ==> port == o.port + k
            &&& replies[k] != StartReply::Free(true) ==> port == o.port && k == 99
        }),
{
    ports_in_turn(config, o, replies.drop_last());
    let before = replies.drop_last();
    assert(forall|i: int| 0 <= i < before.len() ==> before[i] == replies[i]);
}

proof fn ports_in_turn(config: SdkConfig, o: ScrcpyOptions, replies: Seq<StartReply>)
    requires
        course(config, o, replies) matches Some((stage, _)) && stage is Probing,
    ensures
        course(config, o, replies)->0 == (Stage::Probing(replies.len() as int), o.port as int),
        replies.len() < 100,
        forall|i: int| 0 <= i < replies.len() ==> #[trigger] replies[i] != StartReply::Free(true),
    decreases replies.len(),
{
    if replies.len() > 0 {
        let before = replies.drop_last();
        ports_in_turn(config, o, before);
        assert forall|i: int| 0 <= i < replies.len() implies #[trigger] replies[i]
            != StartReply::Free(true) by {
            if i < before.len() {
                assert(before[i] == replies[i]);
            }
        }
    }
}

/// The bytes of a greeting are eighty, and hold the size of the picture behind
/// a mark.
pub open spec fn is_greeting(r: StartReply) -> bool {
    r matches StartReply::Bytes(Ok(b)) && b@.len() == 80 && b@[68] & 0x80 != 0
}

/// A connection was made, or a message sent.
pub open spec fn went_well(r: StartReply) -> bool {
    r matches StartReply::Did(Ok(_))
}

/// A stream is started in one of two ways: without an app, by its greeting, and
/// with one, by the message for the app, once that was sent. A greeting that is
/// good leads to that message, and without the second connection to an error.
pub proof fn an_app_is_started_before_the_stream(
    config: SdkConfig,
    o: ScrcpyOptions,
    first: int,
    stage: Stage,
    r: StartReply,
)
    requires
        !(stage is Started),
    ensures
        next_stage(config, o, stage, r) == Ok::<Stage, StreamProblem>(Stage::Started) <==> match o.start_app {
            None => (stage is Greeting && is_greeting(r)) || (stage is StartingApp && went_well(r)),
            Some(_) => stage is StartingApp && went_well(r),
        },
        o.start_app matches Some(name) ==> o.control && stage is Greeting && is_greeting(r) ==> (
        next_stage(config, o, stage, r) matches Ok(next) && start_act(config, o, first, next)
            == StartAct::Send(start_message(name@))),
        o.start_app is Some && !o.control && stage is Greeting ==> next_stage(
            config,
            o,
            stage,
            r,
        ) is Err,
        next_stage(config, o, stage, r) matches Ok(next) ==> (next is StartingApp ==> stage
            is Greeting && o.control && o.start_app is Some),
{
}

/// A part of a start that fails ends it, with what the system said of it. A
/// connection is given up once it was refused fifty times; a port that is taken
/// ends nothing.
pub proof fn a_start_ends_with_what_failed(
    config: SdkConfig,
    o: ScrcpyOptions,
    stage: Stage,
    r: StartReply,
)
    ensures
        stage is Forwarding ==> (next_stage(config, o, stage, r) is Ok <==> (r matches
            StartReply::Process(p) && crate::step::ran_well(p))),
        stage is Forwarding ==> (r matches StartReply::Process(Reply::Ran(Ok(out))) ==> out.code
            != Some(0i32) ==> next_stage(config, o, stage, r) == Err::<Stage, _>(
            StreamProblem::Engine(trim(lossy(out.stdout@) + lossy(out.stderr@))),
        )),
        stage is Launching ==> (next_stage(config, o, stage, r) is Ok <==> (r matches
            StartReply::Process(p) && crate::step::was_done(p))),
        stage is Connecting || stage is Probing || stage is Started ==> next_stage(config, o, stage, r)
            is Ok,
        stage is ConnectingControl || stage is StartingApp ==> (next_stage(config, o, stage, r)
            is Ok <==> went_well(r)),
        stage is Connecting && went_well(r) ==> !(next_stage(config, o, stage, r)->Ok_0 is Waiting),
        stage is Connecting || stage is ConnectingControl || stage is StartingApp ==> (r matches
            StartReply::Did(Err(e)) ==> (match next_stage(config, o, stage, r) {
            Ok(next) => stage matches Stage::Connecting(n) && next == Stage::Waiting(n, e@),
            Err(f) => !(stage is Connecting) && f == StreamProblem::Io(e@),
        })),
        stage matches Stage::Waiting(n, e) ==> (next_stage(config, o, stage, r) is Err <==> n
            >= 49),
        stage matches Stage::Waiting(n, e) ==> (next_stage(config, o, stage, r) matches Err(f) ==> f
            == StreamProblem::Io(e)),
        stage is Greeting ==> (next_stage(config, o, stage, r) is Ok <==> is_greeting(r) && (
        o.start_app is Some ==> o.control)),
        stage is Greeting ==> (r matches StartReply::Bytes(Err(e)) ==> next_stage(
            config,
            o,
            stage,
            r,
        ) == Err::<Stage, _>(StreamProblem::Io(e@))),
{
}

/// The server is asked for what the options hold. A new display takes the place
/// of the one that is there, and a limit of zero is not spoken of.
pub proof fn the_server_is_asked_for_the_options(o: ScrcpyOptions)
    ensures
        server_words(o).contains("scid="@ + o.scid@),
        server_words(o).contains("max_size="@ + dec(o.max_size as int)),
        server_words(o).contains(
            "control="@ + (if o.control {
                "true"@
            } else {
                "false"@
            }),
        ),
        server_words(o).contains("tunnel_forward=true"@),
        server_words(o).contains("video_codec=h264"@),
        server_words(o).contains("audio=false"@),
        server_words(o).contains("send_device_meta=true"@),
        server_words(o).contains("send_frame_meta=true"@),
        server_words(o).contains("cleanup=true"@),
        server_words(o)[1] == "CLASSPATH="@ + server_on_device(),
        o.new_display matches Some((w, h)) ==> (match o.new_display_dpi {
            Some(dpi) => server_words(o).contains(
                "new_display="@ + dec(w as int) + "x"@ + dec(h as int) + "/"@ + dec(dpi as int),
            ),
            None => server_words(o).contains(
                "new_display="@ + dec(w as int) + "x"@ + dec(h as int),
            ),
        }),
        o.new_display is None ==> server_words(o).contains(
            "display_id="@ + dec(o.display_id as int),
        ),
        o.max_fps > 0 ==> server_words(o).contains("max_fps="@ + dec(o.max_fps as int)),
        o.video_bit_rate > 0 ==> server_words(o).contains(
            "video_bit_rate="@ + dec(o.video_bit_rate as int),
        ),
        !o.vd_system_decorations ==> server_words(o).contains("vd_system_decorations=false"@),
        server_words(o).len() == 16 + once(!o.vd_system_decorations) + once(o.max_fps > 0) + once(
            o.video_bit_rate > 0,
        ),
{
    let w = server_words(o);
    reveal_strlit("CLASSPATH=/data/local/tmp/scrcpy-server.jar");
    reveal_strlit("CLASSPATH=");
    reveal_strlit("/data/local/tmp/scrcpy-server.jar");
    assert("CLASSPATH=/data/local/tmp/scrcpy-server.jar"@ =~= "CLASSPATH="@ + server_on_device());
    assert(w[1] == "CLASSPATH=/data/local/tmp/scrcpy-server.jar"@);
    assert(w[6] == "tunnel_forward=true"@);
    assert(w[7] == "audio=false"@);
    assert(w[8] == "control="@ + word_of(o.control));
    assert(w[9] == "cleanup=true"@);
    assert(w[10] == "video_codec=h264"@);
    assert(w[11] == "send_device_meta=true"@);
    assert(w[12] == "send_frame_meta=true"@);
    assert(w[13] == "scid="@ + o.scid@);
    assert(w[14] == "max_size="@ + dec(o.max_size as int));
    assert(w[15] == display_word(o));
    let d: int = if o.vd_system_decorations {
        0
    } else {
        1
    };
    let f: int = if o.max_fps > 0 {
        d + 1
    } else {
        d
    };
    if !o.vd_system_decorations {
        assert(w[16] == "vd_system_decorations=false"@);
    }
    if o.max_fps > 0 {
        assert(w[16 + d] == "max_fps="@ + dec(o.max_fps as int));
    }
    if o.video_bit_rate > 0 {
        assert(w[16 + f] == "video_bit_rate="@ + dec(o.video_bit_rate as int));
    }
}

/// The server's file is on the device exactly where it was there on the host and
/// the command that copies it ended well; it is copied from where the options say
/// that it lies.
pub proof fn a_server_is_deployed_by_its_copy(
    config: SdkConfig,
    o: ScrcpyOptions,
    replies: Seq<Reply>,
)
    ensures
        deploy_plan(config, o, replies) == Plan::Done(Ok::<(), StreamProblem>(())) <==> replies.len()
            >= 2 && replies[0] == Reply::Answer(true) && crate::step::ran_well(replies[1]),
        replies.len() == 1 && replies[0] == Reply::Answer(true) ==> (deploy_plan(config, o, replies)
            matches Plan::Do(Act::Run(c)) && c.exe == config.adb_path() && c.args == seq![
            "push"@,
            o.server_jar@,
            server_on_device(),
        ]),
        replies.len() == 0 ==> deploy_plan(config, o, replies) == Plan::<
            Result<(), StreamProblem>,
        >::Do(Act::Exists(o.server_jar@)),
        replies.len() >= 1 && replies[0] == Reply::Answer(false) ==> deploy_plan(config, o, replies)
            == Plan::Done(Err::<(), StreamProblem>(StreamProblem::ServerNotFound(o.server_jar@))),
{
}

/// The size that a server writes in a header of its own is read as that size.
pub proof fn session_header_reads_back(mark: u8, pad: Seq<u8>, width: u32, height: u32)
    requires
        mark & 0x80 != 0,
        pad.len() == 3,
    ensures
        header_of(
            seq![mark] + pad + crate::wire::be(width as nat, 4) + crate::wire::be(
                height as nat,
                4,
            ),
        ) == (Header::Session { width, height }),
{
    let h = seq![mark] + pad + crate::wire::be(width as nat, 4) + crate::wire::be(height as nat, 4);
    crate::wire::spans();
    crate::wire::be_len(width as nat, 4);
    crate::wire::be_len(height as nat, 4);
    crate::wire::be_reads_back(width as nat, 4);
    crate::wire::be_reads_back(height as nat, 4);
    assert(h.subrange(4, 8) =~= crate::wire::be(width as nat, 4));
    assert(h.subrange(8, 12) =~= crate::wire::be(height as nat, 4));
}

/// A greeting is read as what the server wrote into it: the name of the device,
/// which ends before the first zero, the codec, and the size of the picture.
pub proof fn greeting_reads_back(
    name: Seq<u8>,
    zeros: Seq<u8>,
    codec: u32,
    mark: Seq<u8>,
    width: u32,
    height: u32,
    m: StreamMeta,
)
    requires
        name.len() + zeros.len() == 64,
        forall|i: int| 0 <= i < name.len() ==> name[i] != 0,
        forall|i: int| 0 <= i < zeros.len() ==> zeros[i] == 0,
        mark.len() == 4,
        is_meta(
            name + zeros + crate::wire::be(codec as nat, 4) + mark + crate::wire::be(
                width as nat,
                4,
            ) + crate::wire::be(height as nat, 4),
            m,
        ),
    ensures
        m.device_name@ == lossy(name),
        m.codec == Codec::of(codec),
        m.width == width,
        m.height == height,
{
    let b = name + zeros + crate::wire::be(codec as nat, 4) + mark + crate::wire::be(
        width as nat,
        4,
    ) + crate::wire::be(height as nat, 4);
    crate::wire::spans();
    crate::wire::be_len(codec as nat, 4);
    crate::wire::be_len(width as nat, 4);
    crate::wire::be_len(height as nat, 4);
    crate::wire::be_reads_back(codec as nat, 4);
    crate::wire::be_reads_back(width as nat, 4);
    crate::wire::be_reads_back(height as nat, 4);
    assert(b.take(64) =~= name + zeros);
    name_ends_at_zero(name, zeros);
    assert(b.subrange(64, 68) =~= crate::wire::be(codec as nat, 4));
    assert(b.subrange(72, 76) =~= crate::wire::be(width as nat, 4));
    assert(b.subrange(76, 80) =~= crate::wire::be(height as nat, 4));
}

proof fn name_ends_at_zero(name: Seq<u8>, zeros: Seq<u8>)
    requires
        forall|i: int| 0 <= i < name.len() ==> name[i] != 0,
        forall|i: int| 0 <= i < zeros.len() ==> zeros[i] == 0,
    ensures
        up_to_zero(name + zeros) == name,
    decreases name.len(),
{
    if name.len() == 0 {
        assert(up_to_zero(name + zeros) =~= name);
    } else {
        let rest = name.skip(1);
        assert(forall|i: int| 0 <= i < rest.len() ==> rest[i] == name[i + 1]);
        name_ends_at_zero(rest, zeros);
        assert((name + zeros).skip(1) =~= rest + zeros);
        assert(seq![name[0]] + rest =~= name);
    }
}

/// The port is all that a start changes of its options; the tunnel is taken down
/// at the same end at which it was made.
pub proof fn a_start_changes_the_port_alone(
    config: SdkConfig,
    a: ScrcpyOptions,
    b: ScrcpyOptions,
    port: int,
)
    ensures
        same_but_port(b, a) <==> b == (ScrcpyOptions { port: b.port, ..a }),
        same_but_port(b, a) ==> display_word(b) == display_word(a) && server_words(b)
            == server_words(a),
        forward_call(config, a, port).args[1] == tunnel_word(port),
        tunnel_word(port) == "tcp:"@ + dec(port),
{
}

} // verus!
