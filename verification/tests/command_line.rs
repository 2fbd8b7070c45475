use androlon::appify::AppifyOutcome;
use androlon::config::SdkConfig;
use androlon::ctl::{
    appify_arg, bundle_lines, cmd_appify, cmd_bundle_host, cmd_run, command, device_lines,
    handshake_lines, host_binary, host_plist, out_dir_arg, print_doctor, root_command, root_line,
    run_request, unknown_command, usage, Command, RootCommand, RunDone, RunJob, RunTurn, Tally,
};
use androlon::error::EngineError;
use androlon::host::Host;
use androlon::media::{Codec, DecodedFrame, EncodedPacket, StreamMeta};
use androlon::model::{BootProfile, DoctorReport, RootStatus, ToolCheck, WindowMode};
use androlon::step::{Action, Reply, Step};

fn args(list: &[&str]) -> Vec<String> {
    list.iter().map(|s| s.to_string()).collect()
}

fn config() -> SdkConfig {
    SdkConfig::from_env(Host::Mac, None, Some("/sdk"), None, None, None)
}

#[test]
fn commands_are_told_apart() {
    for (word, want) in [
        ("doctor", "Doctor"),
        ("-h", "Usage"),
        ("--help", "Usage"),
        ("help", "Usage"),
        ("setup", "Setup"),
        ("avd", "Avd"),
        ("run", "Run"),
        ("scrcpy-probe", "ScrcpyProbe"),
        ("appify", "Appify"),
        ("bundle-host", "BundleHost"),
        ("root", "Root"),
        ("stop", "Stop"),
        ("fly", "Unknown(\"fly\")"),
    ] {
        assert_eq!(format!("{:?}", command(&args(&[word]))), want);
    }
    assert!(matches!(command(&vec![]), Command::Usage));
    assert_eq!(unknown_command("fly"), "unknown command: fly  (try: androlon-ctl --help)");
}

#[test]
fn the_usage_ends_with_the_environment() {
    let text = usage(&config());
    assert!(text.starts_with("androlon-ctl — Androlon engine CLI (Android 17 / API 37, arm64)\n\n"));
    assert!(text.ends_with("Env: APKRUN_API=37  APKRUN_IMG_TYPE=google_apis_ps16k  APKRUN_SDK=/sdk"));
    assert!(text.contains("\n  androlon-ctl run <apk> [--desktop|--coherence|--phone] [--consumer]\n"));
}

#[test]
fn the_health_report_is_printed() {
    let mut r = DoctorReport {
        sdk_root: "/sdk".into(),
        api: 37,
        system_image: "image".into(),
        tools: vec![
            ToolCheck { name: "adb".into(), path: "/sdk/adb".into(), present: true },
            ToolCheck { name: "aapt2".into(), path: "/sdk/aapt2".into(), present: false },
        ],
        avds: vec!["a".into(), "b".into()],
        emulator_running: true,
        root_status: RootStatus::NoRoot,
        is_rootable: false,
    };
    assert_eq!(
        print_doctor(&r),
        vec![
            "SDK root : /sdk",
            "API level: 37   image: image",
            "  ✓ adb -> /sdk/adb",
            "  ✗ aapt2 (run: androlon-ctl setup)",
            "AVDs: a, b",
            "Emulator running: yes",
            "Rootable image  : no (locked user build)",
            "Root status     : none   (none | adbd | magisk)",
        ]
    );
    r.avds.clear();
    assert_eq!(print_doctor(&r)[4], "AVDs: (none — run: androlon-ctl avd)");
}

#[test]
fn root_has_commands_of_its_own() {
    assert_eq!(root_command(&args(&["root"])), RootCommand::Status);
    assert_eq!(root_command(&args(&["root", "status"])), RootCommand::Status);
    assert_eq!(root_command(&args(&["root", "adbd"])), RootCommand::Adbd);
    assert_eq!(root_command(&args(&["root", "x"])), RootCommand::Usage);
    assert_eq!(root_line(RootCommand::Status, RootStatus::Adbd), "root: adbd");
    assert_eq!(root_line(RootCommand::Adbd, RootStatus::Adbd), "✓ adbd root: adbd");
    assert_eq!(
        root_line(RootCommand::Usage, RootStatus::Adbd),
        "usage: androlon-ctl root [status|adbd]"
    );
}

#[test]
fn a_run_is_asked_for() {
    assert_eq!(
        run_request(&args(&["run"])).unwrap_err(),
        "usage: androlon-ctl run <apk> [--desktop|--coherence|--phone]"
    );
    let q = run_request(&args(&["run", "/x.apk", "--phone", "--consumer"])).unwrap();
    assert_eq!((q.apk.as_str(), q.mode, q.profile), ("/x.apk", WindowMode::Phone, BootProfile::Consumer));
    let avd = q.avd();
    assert_eq!(avd.name, "androlon_phone");
    assert_eq!(
        q.boot_line(&avd),
        "› Booting androlon_phone [Phone · consumer profile] with GPU backend 'gfxstream'…"
    );
    let q = run_request(&args(&["run", "/x.apk", "--phone", "--coherence"])).unwrap();
    assert_eq!((q.mode, q.profile), (WindowMode::Coherence, BootProfile::Developer));
    assert_eq!(q.avd().name, "androlon_desktop");
    assert_eq!(run_request(&args(&["run", "x"])).unwrap().mode, WindowMode::Desktop);
}

#[test]
fn a_run_goes_part_by_part() {
    let mut done = RunDone::Exists(true);
    let mut parts = Vec::new();
    let end = loop {
        match cmd_run("/x.apk", done) {
            RunTurn::Done(r) => break r,
            RunTurn::Next(job) => {
                parts.push(format!("{job:?}"));
                done = match job {
                    RunJob::Boot => RunDone::Boot(Ok(())),
                    RunJob::Install => RunDone::Install(Ok(())),
                    RunJob::Package => RunDone::Package("com.a".into()),
                    RunJob::Component(p) => RunDone::Component(p, Some("com.a/.M".into())),
                    RunJob::Launch(c) => RunDone::Launch(c, Ok(())),
                };
            }
        }
    };
    assert_eq!(end.unwrap(), "✓ Launched com.a/.M");
    assert_eq!(
        parts,
        vec!["Boot", "Install", "Package", "Component(\"com.a\")", "Launch(\"com.a/.M\")"]
    );
}

#[test]
fn a_run_that_fails_says_why() {
    let e = || Err(EngineError::SdkMissing("adb".into()));
    for (done, want) in [
        (RunDone::Exists(false), "APK not found: /x.apk"),
        (RunDone::Boot(e()), "adb not found — run `androlon-ctl setup` first."),
        (RunDone::Install(e()), "adb not found — run `androlon-ctl setup` first."),
        (RunDone::Package(String::new()), "could not determine package name for /x.apk"),
        (RunDone::Component("com.a".into(), None), "could not determine package name for com.a"),
        (RunDone::Launch("c".into(), e()), "adb not found — run `androlon-ctl setup` first."),
    ] {
        match cmd_run("/x.apk", done) {
            RunTurn::Done(Err(e)) => assert_eq!(e.message(), want),
            other => panic!("{other:?}"),
        }
    }
}

#[test]
fn the_probe_counts() {
    let mut t = Tally::new();
    let p = EncodedPacket { pts: 5, is_config: true, is_keyframe: false, data: vec![0; 7] };
    assert_eq!(t.on_packet(&p, &None), vec!["    pkt 1: 7 bytes  config=true key=false  pts=5"]);
    let frame = || Some(DecodedFrame { width: 2, height: 1, rgba: vec![0; 8] });
    let said = t.on_packet(&p, &frame());
    assert_eq!(said[1], "    ✓ FIRST FRAME DECODED: 2x1 RGBA (8 bytes)");
    assert_eq!(t.on_packet(&p, &frame()).len(), 1);
    for _ in 3..30 {
        t.on_packet(&p, &None);
    }
    assert_eq!((t.packets, t.config, t.key, t.decoded, t.bytes), (30, 30, 0, 2, 210));
    let s = t.summary();
    assert_eq!(s[0], "✓ summary: 30 packets, 30 config, 0 keyframe, 2 decoded, 210 total bytes");
    assert!(s[1].starts_with("🎉 LIVE PIPELINE WORKS"));
    assert!(Tally::new().summary()[1].starts_with("⚠ packets flowed but none decoded"));
    assert_eq!(t.ended("eof"), "    stream ended/err after 30 packets: eof");
}

#[test]
fn the_probe_tells_of_the_stream() {
    assert_eq!(device_lines("List\nemulator-5554\tdevice\n"), vec!["    List", "    emulator-5554\tdevice"]);
    let m = StreamMeta { device_name: "Px".into(), codec: Codec::H264, width: 9, height: 7 };
    assert_eq!(
        handshake_lines(&m),
        vec!["✓ handshake OK", "    device : Px", "    codec  : h264", "    size   : 9x7"]
    );
}

#[test]
fn a_bundle_is_told_of() {
    assert_eq!(out_dir_arg(&args(&["appify", "x", "--out", "/o"])), "/o");
    assert_eq!(out_dir_arg(&args(&["appify", "x", "--out"])), ".");
    assert_eq!(appify_arg(&args(&["appify", "x"])).unwrap(), "x");
    assert_eq!(
        appify_arg(&args(&["appify"])).unwrap_err().message(),
        "APK not found: usage: androlon-ctl appify <apk> [--out <dir>]"
    );
    let mut o = AppifyOutcome {
        label: "Game".into(),
        package: "com.a".into(),
        bundle: "/o/Game.app".into(),
        installed: true,
        icon: true,
    };
    assert_eq!(
        cmd_appify(&o),
        vec![
            "› Game (com.a)",
            "✓ installed into the Android runtime",
            "✓ created /o/Game.app",
            "  double-click it (or `open '/o/Game.app'`) to launch Game",
        ]
    );
    o.installed = false;
    o.icon = false;
    let lines = cmd_appify(&o);
    assert_eq!(lines[1], "⚠ not installed now (no booted device?) — install before launch");
    assert_eq!(lines[2], "⚠ no raster icon found in the APK — bundle has a generic icon");
}

#[test]
fn the_player_lies_beside_the_command_line() {
    let exe = Ok("/opt/androlon-ctl".to_string());
    assert!(matches!(host_binary(Host::Mac, &exe, &vec![]), Step::Do(Action::Exists(_))));
    assert!(matches!(
        host_binary(Host::Mac, &exe, &vec![Reply::Answer(true)]),
        Step::Done(Ok(p)) if p == "/opt/androlon-player"
    ));
    match host_binary(Host::Mac, &exe, &vec![Reply::Answer(false)]) {
        Step::Done(Err(e)) => assert!(e.message().starts_with(
            "androlon-player binary (expected next to androlon-ctl at /opt/androlon-player)"
        )),
        other => panic!("{other:?}"),
    }
    assert!(matches!(
        host_binary(Host::Mac, &Err("x".into()), &vec![]),
        Step::Done(Err(EngineError::Launch { .. }))
    ));
}

/// Makes the bundle of the shell; of the tools beside it only `there` is there.
fn bundle(there: &str) -> Vec<String> {
    let c = config();
    let mut replies = Vec::new();
    let mut seen = Vec::new();
    loop {
        let reply = match cmd_bundle_host(&c, "/opt/androlon-player", "/o", "/jar", &replies) {
            Step::Done(r) => {
                assert!(r.is_ok());
                return seen;
            }
            Step::Do(Action::Exists(p)) => Reply::Answer(p.ends_with(there)),
            Step::Do(Action::Resolve(p)) => Reply::Path(Some(format!("/real{p}"))),
            Step::Do(Action::Copy { from, to }) => {
                seen.push(format!("{from} -> {to}"));
                Reply::Did(Ok(()))
            }
            Step::Do(Action::Write { path, text }) => {
                assert_eq!(text, host_plist("/real/sdk", "/real/jar"));
                seen.push(path);
                Reply::Did(Ok(()))
            }
            Step::Do(Action::Run(c)) => {
                seen.push(c.args.join(" "));
                Reply::Ran(Err("ignored".into()))
            }
            Step::Do(_) => Reply::Did(Ok(())),
        };
        replies.push(reply);
    }
}

#[test]
fn the_suite_travels_in_one_bundle() {
    assert_eq!(
        bundle("androlon-runtimed"),
        vec![
            "/opt/androlon-app -> /o/Androlon.app/Contents/MacOS/Androlon",
            "/opt/androlon-runtimed -> /o/Androlon.app/Contents/MacOS/androlon-runtimed",
            "/o/Androlon.app/Contents/Info.plist",
            "--force --deep -s - /o/Androlon.app",
            "-f /o/Androlon.app",
        ]
    );
    assert_eq!(bundle("").len(), 6);
    assert_eq!(bundle_lines(Host::Mac, "/o")[0], "✓ created /o/Androlon.app");
}

#[test]
fn a_bundle_that_cannot_be_made_is_told_of() {
    let c = config();
    let bad = || Reply::Did(Err("full".to_string()));
    let ok = || Reply::Did(Ok(()));
    for (replies, tool) in [
        (vec![bad()], "create bundle"),
        (vec![ok(), bad()], "copy androlon-app"),
        (vec![ok(), ok(), Reply::Answer(true), bad()], "copy androlon-player"),
        (
            vec![ok(), ok(), Reply::Answer(false), Reply::Answer(true), bad()],
            "copy androlon-runtimed",
        ),
        (
            vec![
                ok(),
                ok(),
                Reply::Answer(false),
                Reply::Answer(false),
                Reply::Path(None),
                Reply::Path(None),
                bad(),
            ],
            "write plist",
        ),
    ] {
        match cmd_bundle_host(&c, "/opt/androlon-player", "/o", "/jar", &replies) {
            Step::Done(Err(e)) => assert_eq!(e.message(), format!("failed to launch {tool}: full")),
            other => panic!("{other:?}"),
        }
    }
}

#[test]
fn the_shell_handles_packages() {
    let text = host_plist("/s", "/j");
    assert!(text.contains("<array><string>apk</string></array>"));
    assert!(text.contains("<key>APKRUN_SDK</key>\n        <string>/s</string>"));
    assert!(text.contains("<key>ANDROLON_SCRCPY_SERVER</key>\n        <string>/j</string>"));
    assert!(text.ends_with("    </dict>\n</dict>\n</plist>\n"));
}
