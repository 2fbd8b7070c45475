use androlon::appify::AppifyOutcome;
use androlon::config::SdkConfig;
use androlon::error::EngineError;
use androlon::host::Host;
use androlon::library::{
    device_path, Came, Console, Errand, Library, LibraryRequest, Listing, Turn,
};
use androlon::model::{DoctorReport, RootStatus};
use androlon::shell::{
    app_names, app_package, arg_after, handed_to_installer, headless_lines, inspect_failure,
    install_apk, installed, installing_line, is_apk, mode_of, route, surface_line, LeasePoll, Mode,
    Route, RuntimeWait, ShellEvent, WaitStep,
};
use androlon::step::{Action, Reply, Step};
use androlon::subprocess::RawOutput;

fn args(list: &[&str]) -> Vec<String> {
    list.iter().map(|s| s.to_string()).collect()
}

fn ran(code: i32, out: &str) -> Reply {
    Reply::Ran(Ok(RawOutput {
        code: Some(code),
        stdout: out.as_bytes().to_vec(),
        stderr: Vec::new(),
    }))
}

#[test]
fn the_app_comes_from_the_arguments_or_the_environment() {
    let a = args(&["p", "--app", "com.a", "--app", "com.b"]);
    assert_eq!(app_package(&a, Some("com.c")), Some("com.a".into()));
    assert_eq!(app_package(&args(&["p", "--app"]), Some("com.c")), Some("com.c".into()));
    assert_eq!(app_package(&args(&["p"]), None), None);
    assert_eq!(arg_after(&args(&["--out", "/x"]), "--out"), Some("/x".into()));
}

#[test]
fn the_first_flag_that_counts_decides() {
    assert!(matches!(mode_of(&args(&["p", "--app", "x", "--headless"]), None), Mode::Headless));
    assert!(matches!(mode_of(&args(&["p", "--decode-demo", "--video-demo"]), None), Mode::VideoDemo));
    assert!(matches!(mode_of(&args(&["p", "--decode-demo"]), None), Mode::DecodeDemo));
    assert!(matches!(mode_of(&args(&["p"]), Some("com.a")), Mode::Single(p) if p == "com.a"));
    assert!(matches!(mode_of(&args(&["p"]), None), Mode::Shell));
}

#[test]
fn without_a_window_two_lines_are_said() {
    let r = DoctorReport {
        sdk_root: "/s".into(),
        api: 37,
        system_image: "image".into(),
        tools: vec![],
        avds: vec![],
        emulator_running: false,
        root_status: RootStatus::NoRoot,
        is_rootable: true,
    };
    assert_eq!(
        headless_lines(&r),
        vec!["✓ headless: engine reachable — API 37 · image", "  SDK provisioned: true"]
    );
}

#[test]
fn lists_of_apps_are_cut_at_commas() {
    for s in ["", ",", "a", "a,b", ",a,,b,", "com.a,com.b"] {
        let want: Vec<&str> = s.split(',').filter(|p| !p.is_empty()).collect();
        assert_eq!(app_names(s), args(&want), "{s:?}");
    }
}

#[test]
fn packages_are_told_by_their_name() {
    assert!(is_apk("/x/Game.APK"));
    assert!(is_apk("a.apk"));
    assert!(!is_apk("a.apk.zip"));
    assert!(!is_apk("apk"));
}

#[test]
fn events_go_where_they_belong() {
    let panes = vec![5, 7, 5];
    assert!(matches!(route(ShellEvent::Quit, 1, &panes), Route::Quit));
    assert!(matches!(route(ShellEvent::Close(1), 1, &panes), Route::Quit));
    assert!(matches!(route(ShellEvent::Close(7), 1, &panes), Route::Close(7)));
    assert!(matches!(route(ShellEvent::Input(5), 1, &panes), Route::Pane(0)));
    assert!(matches!(route(ShellEvent::Input(7), 1, &panes), Route::Pane(1)));
    assert!(matches!(route(ShellEvent::Input(9), 1, &panes), Route::Nowhere));
    assert!(matches!(route(ShellEvent::Input(5), 5, &panes), Route::Nowhere));
    assert!(matches!(route(ShellEvent::Drop("/a.Apk".into()), 1, &panes), Route::Inspect(_)));
    assert!(matches!(route(ShellEvent::Drop("/a.png".into()), 1, &panes), Route::Nowhere));
    assert!(matches!(route(ShellEvent::Other, 1, &panes), Route::Nowhere));
}

#[test]
fn a_long_start_is_announced_once() {
    let mut w = RuntimeWait::new();
    assert!(matches!(w.next(LeasePoll::Empty, 3_000_000_000), WaitStep::Wait(None)));
    assert!(matches!(w.next(LeasePoll::Empty, 3_000_000_001), WaitStep::Wait(Some(_))));
    assert!(matches!(w.next(LeasePoll::Empty, 9_000_000_000), WaitStep::Wait(None)));
    assert!(matches!(w.next(LeasePoll::Gone, 0), WaitStep::GiveUp(None)));
    match w.next(LeasePoll::Failed("gone".into()), 0) {
        WaitStep::GiveUp(Some(line)) => {
            assert_eq!(line, "⚠ runtime daemon unavailable (gone); assuming a booted device")
        }
        other => panic!("{other:?}"),
    }
    assert!(matches!(w.next(LeasePoll::Lease, 0), WaitStep::Take));
}

#[test]
fn an_install_is_prepared() {
    let exe = Ok("/opt/androlon-app".to_string());
    assert!(matches!(install_apk("/Apps", &exe, &vec![]), Step::Do(Action::MakeDir(_))));
    match install_apk("/Apps", &exe, &vec![Reply::Did(Err("full".into()))]) {
        Step::Done(Err(line)) => assert_eq!(line, "✗ create /Apps: full"),
        other => panic!("{other:?}"),
    }
    let made = || vec![Reply::Did(Ok(()))];
    match install_apk("/Apps", &Err("x".into()), &made()) {
        Step::Done(Err(line)) => assert_eq!(line, "✗ locate androlon-player: x"),
        other => panic!("{other:?}"),
    }
    for (there, want) in [(true, "/opt/androlon-player"), (false, "/opt/androlon-app")] {
        let mut replies = made();
        replies.push(Reply::Answer(there));
        match install_apk("/Apps", &exe, &replies) {
            Step::Done(Ok(p)) => assert_eq!(p, want),
            other => panic!("{other:?}"),
        }
    }
}

fn outcome(installed: bool) -> AppifyOutcome {
    AppifyOutcome {
        label: "Game".into(),
        package: "com.a".into(),
        bundle: "/Apps/Game.app".into(),
        installed,
        icon: true,
    }
}

#[test]
fn an_install_ends_with_the_app() {
    assert_eq!(installing_line("/x.apk"), "› installing /x.apk…");
    let (lines, open) = installed(&Ok(outcome(true)));
    assert_eq!(lines, vec!["✓ Game → /Apps/Game.app", "› launching Game…"]);
    assert_eq!(open.unwrap().args, vec!["/Apps/Game.app"]);
    let (lines, _) = installed(&Ok(outcome(false)));
    assert_eq!(lines[0], "⚠ APK not installed (is the runtime booted?)");
    let (lines, open) = installed(&Err(EngineError::ApkNotFound("/x.apk".into())));
    assert_eq!(lines, vec!["✗ appify failed: APK not found: /x.apk"]);
    assert!(open.is_none());
}

#[test]
fn small_things_are_said() {
    assert_eq!(
        inspect_failure("/x.apk", &EngineError::ApkNotFound("/x.apk".into())),
        "✗ /x.apk: APK not found: /x.apk"
    );
    assert_eq!(handed_to_installer("/x.apk", &Ok(())), "› installing /x.apk…");
    assert_eq!(handed_to_installer("/x.apk", &Err("e".into())), "✗ installer: e");
    assert_eq!(surface_line("live surface", &Ok(3)), "✓ live surface (id 3)");
    assert_eq!(surface_line("live surface", &Err("e".into())), "✗ live surface: e");
}

fn library(console: Console) -> Library {
    Library {
        config: SdkConfig::from_env(Host::Mac, None, Some("/sdk"), None, None, None),
        console,
        temp: "/tmp".into(),
        home: Some("/home/u".into()),
        exe: Ok("/opt/androlon-hub".into()),
    }
}

/// Follows a wish to its end; gives back its errands, its lines, and the list.
fn follow(l: &Library, req: LibraryRequest, found: bool) -> (Vec<String>, Vec<String>, Listing) {
    let mut errands = Vec::new();
    let mut lines = Vec::new();
    let mut turn: Turn = l.begin(req);
    loop {
        lines.extend(turn.line);
        let came = match turn.next {
            None => return (errands, lines, turn.listing),
            Some(e) => {
                errands.push(format!("{e:?}"));
                match e {
                    Errand::List => Came::Listed(Ok(vec!["com.a".into()])),
                    Errand::Open { package, .. } => Came::Opened(package, Ok(())),
                    Errand::FindBundle(p) => {
                        Came::Found(p, if found { Some("/Apps/Game.app".into()) } else { None })
                    }
                    Errand::HandOver { package, .. } => Came::HandedOver(package, Ok(())),
                    Errand::Uninstall(p, _) => Came::Uninstalled(p, ran(1, " Failure \n")),
                    Errand::Locate(p, _) => Came::Located(p, ran(0, "package:/data/app/base.apk\n")),
                    Errand::Pull { package, from, apk, command } => {
                        assert_eq!(command.args, vec!["pull", &from, &apk]);
                        Came::Pulled { package, from, apk, reply: ran(0, "") }
                    }
                    Errand::MakeDir { package, apk, .. } => Came::DirMade { package, apk },
                    Errand::Make { package, apk, .. } => {
                        Came::Made { package, apk, made: Ok(outcome(true)) }
                    }
                    Errand::Remove(package, _) => Came::Removed(package),
                }
            }
        };
        turn = l.advance(came);
        assert!(errands.len() < 10);
    }
}

#[test]
fn the_library_is_listed() {
    let l = library(Console::Hub);
    let (_, lines, listing) = follow(&l, LibraryRequest::Refresh, false);
    assert!(lines.is_empty());
    assert!(matches!(listing, Listing::New(list) if list == vec!["com.a"]));
    let t = l.advance(Came::Listed(Err("no daemon".into())));
    assert_eq!(t.line.as_deref(), Some("✗ library: no daemon"));
    assert!(matches!(t.listing, Listing::Kept) && t.next.is_none());
}

#[test]
fn an_app_is_opened_in_the_player() {
    let l = library(Console::Hub);
    let (errands, lines, _) = follow(&l, LibraryRequest::Launch("com.a".into()), false);
    assert_eq!(
        errands,
        vec!["Open { package: \"com.a\", program: \"/opt/androlon-player\", args: [\"--app\", \"com.a\"] }"]
    );
    assert_eq!(lines, vec!["✓ opening com.a"]);
    let mut lost = library(Console::Hub);
    lost.exe = Err("lost".into());
    let t = lost.begin(LibraryRequest::Launch("com.a".into()));
    assert_eq!(t.line.as_deref(), Some("✗ open com.a: lost"));
    lost.console = Console::Shell;
    assert!(matches!(
        lost.begin(LibraryRequest::Launch("com.a".into())).next,
        Some(Errand::Open { program, .. }) if program == "androlon-player"
    ));
}

#[test]
fn an_app_with_a_bundle_is_left_to_the_uninstaller() {
    let l = library(Console::Hub);
    let (_, lines, listing) = follow(&l, LibraryRequest::Uninstall("com.a".into()), true);
    assert_eq!(lines, vec!["› uninstalling com.a — confirm in the window"]);
    assert!(matches!(listing, Listing::Kept));
    let (errands, lines, listing) = follow(&l, LibraryRequest::Uninstall("com.a".into()), false);
    assert_eq!(errands.len(), 3);
    assert_eq!(lines, vec!["✗ uninstall com.a: Failure"]);
    assert!(matches!(listing, Listing::New(_)));
    let l = library(Console::Shell);
    let (errands, _, _) = follow(&l, LibraryRequest::Uninstall("com.a".into()), true);
    assert_eq!(errands.len(), 2);
    let t = l.advance(Came::Uninstalled("com.a".into(), ran(0, "Success")));
    assert_eq!(t.line.as_deref(), Some("✓ uninstalled com.a"));
}

#[test]
fn an_app_is_made_of_what_lies_on_the_device() {
    let l = library(Console::Hub);
    let (errands, lines, listing) = follow(&l, LibraryRequest::MakeApp("com.a".into()), false);
    assert_eq!(errands.len(), 5);
    assert!(matches!(listing, Listing::Kept));
    assert_eq!(
        errands[2],
        "MakeDir { package: \"com.a\", apk: \"/tmp/com.a.apk\", out_dir: \"/home/u/Applications\" }"
    );
    assert_eq!(errands[4], "Remove(\"com.a\", \"/tmp/com.a.apk\")");
    assert_eq!(
        errands[3],
        "Make { package: \"com.a\", apk: \"/tmp/com.a.apk\", out_dir: \"/home/u/Applications\", \
         player: \"/opt/androlon-player\" }"
    );
    assert_eq!(lines, vec!["✓ Game → /Apps/Game.app"]);
    let t = l.advance(Came::Located("com.a".into(), ran(0, "nothing")));
    assert_eq!(t.line.as_deref(), Some("✗ com.a: could not locate its APK on the device"));
    let t = l.advance(Came::Pulled {
        package: "com.a".into(),
        from: "/d".into(),
        apk: "/t".into(),
        reply: Reply::Ran(Err("no adb".into())),
    });
    assert_eq!(t.line.as_deref(), Some("✗ pull com.a: failed to launch adb: no adb"));
    let t = l.advance(Came::Made {
        package: "com.a".into(),
        apk: "/t".into(),
        made: Err(EngineError::ApkNotFound("/t".into())),
    });
    assert_eq!(t.line.as_deref(), Some("✗ make app com.a: APK not found: /t"));
    // What was fetched goes all the same.
    assert!(matches!(t.next, Some(Errand::Remove(_, apk)) if apk == "/t"));
}

#[test]
fn the_place_of_a_package_is_read() {
    assert_eq!(device_path("x\npackage: /data/a.apk \npackage:/b"), Some("/data/a.apk".into()));
    assert_eq!(device_path(""), None);
}
