use androlon::appify::{plist, AppifyOutcome};
use androlon::badging::ApkInfo;
use androlon::config::SdkConfig;
use androlon::error::EngineError;
use androlon::host::Host;
use androlon::step::{Action, Reply, Step as Progress};
use androlon::subprocess::RawOutput;
use androlon::uninstall::{
    closing, is_confirmed, not_ours, plist_value_after, question, read_identity, remove, survey,
    target_bundle, FIRST_BUTTON,
};
use androlon::wizard::{
    apk_from_args, default_destination, layout, player_binary, unreadable, Rect, Step, Turn, Wizard,
    STEPS, TAG_BACK, TAG_CANCEL, TAG_CHOOSE, TAG_CONTINUE,
};

fn args(list: &[&str]) -> Vec<String> {
    list.iter().map(|s| s.to_string()).collect()
}

fn ran(code: i32, out: &str) -> Reply {
    Reply::Ran(Ok(RawOutput {
        code: Some(code),
        stdout: out.as_bytes().to_vec(),
        stderr: Vec::new(),
    }))
}

fn config() -> SdkConfig {
    SdkConfig::from_env(Host::Mac, None, Some("/sdk"), None, None, None)
}

fn info() -> ApkInfo {
    ApkInfo {
        label: "Game".into(),
        package: "com.a".into(),
        version: "1.2".into(),
        min_sdk: "24".into(),
        size_bytes: 1 << 20,
    }
}

fn outcome(installed: bool) -> AppifyOutcome {
    AppifyOutcome {
        label: "Game".into(),
        package: "com.a".into(),
        bundle: "/Apps/Game.app".into(),
        installed,
        icon: false,
    }
}

#[test]
fn the_steps_come_in_their_order() {
    for i in 0..STEPS {
        assert_eq!(Step::at(i).unwrap().index(), i);
    }
    assert_eq!(Step::at(STEPS), None);
    assert_eq!(Step::InstallType.title(), "Installation Type");
}

#[test]
fn the_wizard_walks_on_and_back() {
    let mut w = Wizard::new("/Apps".into());
    assert_eq!(w.on_action(TAG_BACK), Turn::Show);
    assert_eq!(w.step, Step::Introduction);
    assert_eq!(w.on_action(TAG_CONTINUE), Turn::Show);
    assert_eq!(w.step, Step::Destination);
    assert_eq!(w.on_action(TAG_CHOOSE), Turn::ChooseFolder);
    w.on_folder(Some("/Else".into()));
    w.on_folder(None);
    assert_eq!(w.dest, "/Else");
    assert_eq!(w.on_action(TAG_CONTINUE), Turn::Show);
    assert_eq!(w.on_action(TAG_BACK), Turn::Show);
    assert_eq!(w.step, Step::Destination);
    w.on_action(TAG_CONTINUE);
    assert_eq!(w.on_action(TAG_CONTINUE), Turn::Install);
    assert_eq!(w.step, Step::Installing);
    let (turn, notice) = w.on_installed(Ok(outcome(true)));
    assert!(turn == Turn::Show && notice.is_none());
    assert_eq!((w.step, w.bundle.as_deref()), (Step::Summary, Some("/Apps/Game.app")));
    assert_eq!(w.on_action(TAG_BACK), Turn::Show);
    assert_eq!(w.step, Step::Summary);
    assert_eq!(w.on_action(TAG_CONTINUE), Turn::Finish);
    assert_eq!(w.on_action(Wizard::next_action(0)), Turn::Leave);
    assert_eq!(Wizard::next_action(0), TAG_CANCEL);
    assert_eq!(Wizard::next_action(TAG_BACK), TAG_BACK);
}

#[test]
fn an_install_that_went_wrong_is_told() {
    let mut w = Wizard::new("/Apps".into());
    w.step = Step::Installing;
    let (turn, notice) = w.on_installed(Err(EngineError::ApkNotFound("/x".into())));
    let n = notice.unwrap();
    assert_eq!(turn, Turn::Leave);
    assert_eq!((n.message.as_str(), n.detail.as_str()), ("Installation failed", "APK not found: /x"));
    let (turn, notice) = w.on_installed(Ok(outcome(false)));
    assert_eq!(turn, Turn::Show);
    assert_eq!(notice.unwrap().message, "The app was created, but not installed yet");
    let n = unreadable(&EngineError::ApkNotFound("/x".into()));
    assert_eq!(n.message, "Can't read this APK");
}

#[test]
fn each_step_has_its_page() {
    let mut w = Wizard::new("/Apps".into());
    assert_eq!(Wizard::title(&info()), "Install Game");
    let p = w.show_step(&info());
    assert_eq!(p.heading, "Welcome to the Game Installer");
    assert!(p.body.starts_with("You will be guided through the steps"));
    assert!(!p.back_enabled && p.choose_hidden && p.progress_hidden && !p.forward_hidden);
    w.step = Step::Destination;
    let p = w.show_step(&info());
    assert_eq!(
        p.body,
        "Game will be created as a Mac app in:\n\n/Apps\n\nChoose a different folder if you'd \
         prefer it elsewhere."
    );
    assert!(p.back_enabled && !p.choose_hidden);
    assert_eq!((p.current, p.forward), (1, "Continue"));
    w.step = Step::InstallType;
    let p = w.show_step(&info());
    assert_eq!(
        p.body,
        "This will install Game (com.a) into the Android runtime and create an app in /Apps.\n\n\
         Version 1.2  ·  Requires Android API 24  ·  1.0 MB\n\nClick Install to perform a standard \
         installation."
    );
    assert_eq!(p.forward, "Install");
    w.step = Step::Installing;
    let p = w.show_step(&info());
    assert!(p.forward_hidden && !p.progress_hidden && !p.back_enabled);
    assert_eq!(p.body, "Installing Game and creating its Mac app.");
    w.step = Step::Summary;
    let p = w.show_step(&info());
    assert_eq!((p.heading.as_str(), p.forward), ("The installation was successful.", "Close"));
    assert!(p.body.contains("It has been added to /Apps — open it from there"));
}

#[test]
fn everything_has_its_place() {
    let l = layout();
    assert_eq!(l.icon, Rect { x: 63, y: 360, w: 64, h: 64 });
    assert_eq!(l.labels[0], Rect { x: 42, y: 320, w: 136, h: 20 });
    assert_eq!(l.labels[4].y, 216);
    assert_eq!(l.dots[1], Rect { x: 22, y: 295, w: 14, h: 18 });
    assert_eq!(l.heading, Rect { x: 214, y: 390, w: 382, h: 22 });
    assert_eq!(l.frame, Rect { x: 214, y: 60, w: 382, h: 308 });
    assert_eq!(l.body, Rect { x: 232, y: 76, w: 346, h: 274 });
    assert_eq!(l.progress, Rect { x: 232, y: 84, w: 346, h: 20 });
    assert_eq!(l.forward, Rect { x: 490, y: 14, w: 112, h: 30 });
    assert_eq!(l.back, Rect { x: 372, y: 14, w: 112, h: 30 });
    assert_eq!(l.choose, Rect { x: 214, y: 14, w: 150, h: 30 });
    assert_eq!(l.sidebar, Rect { x: -2, y: -2, w: 192, h: 464 });
}

#[test]
fn what_is_to_be_installed_comes_from_the_arguments() {
    let a = args(&["/bin/x.apk", "-psn_0_1", "/y.APK", "/z.apk"]);
    match apk_from_args(&a, &vec![]) {
        Progress::Do(Action::Exists(p)) => assert_eq!(p, "/y.APK"),
        other => panic!("{other:?}"),
    }
    assert!(matches!(
        apk_from_args(&a, &vec![Reply::Answer(true)]),
        Progress::Done(Some(p)) if p == "/y.APK"
    ));
    assert!(matches!(apk_from_args(&a, &vec![Reply::Answer(false)]), Progress::Done(None)));
    assert!(matches!(apk_from_args(&args(&["/bin/x.apk"]), &vec![]), Progress::Done(None)));
    assert_eq!(default_destination(Some("/home/u")), "/home/u/Applications");
    assert_eq!(default_destination(None), ".");
    let exe = Ok("/opt/androlon-installer".to_string());
    assert_eq!(player_binary(Some("/p"), &exe), "/p");
    assert_eq!(player_binary(None, &exe), "/opt/androlon-player");
    assert_eq!(player_binary(None, &Err("x".into())), "androlon-player");
}

#[test]
fn a_bundle_that_was_made_is_recognised() {
    for icon in [false, true] {
        let text = plist("My Game", "My Game", "com.a.b", icon, "/s", "/j", "/r");
        assert_eq!(read_identity(&text), Some(("My Game".into(), "com.a.b".into())));
    }
    // A name that closes the tag is cut there.
    let text = plist("A</string>B", "AB", "com.a.b", false, "/s", "/j", "/r");
    assert_eq!(read_identity(&text), Some(("A".into(), "com.a.b".into())));
}

#[test]
fn a_bundle_of_another_maker_is_not_recognised() {
    assert_eq!(read_identity("<key>CFBundleName</key><string>X</string>"), None);
    let bare = "<key>ANDROLON_APP</key>\n <string> com.a </string>";
    assert_eq!(read_identity(bare), Some(("com.a".into(), "com.a".into())));
    let named = "<key>CFBundleName</key><string>N</string><key>ANDROLON_APP</key><string>p</string>";
    assert_eq!(read_identity(named), Some(("N".into(), "p".into())));
    assert_eq!(plist_value_after("<key>A</key><string>x", "A"), None);
    assert_eq!(plist_value_after("<key>A</key>", "A"), None);
}

#[test]
fn what_is_to_go_comes_from_the_arguments() {
    let a = args(&["x.app", "-v", "/Apps/Game.app"]);
    match target_bundle(&a, &vec![]) {
        Progress::Do(Action::Exists(p)) => assert_eq!(p, "/Apps/Game.app"),
        other => panic!("{other:?}"),
    }
    assert!(matches!(target_bundle(&a, &vec![Reply::Answer(false)]), Progress::Done(None)));
    assert!(matches!(target_bundle(&a, &vec![Reply::Answer(true)]), Progress::Done(Some(_))));
}

#[test]
fn the_runtime_is_asked_what_it_holds() {
    let c = config();
    assert!(matches!(survey(&c, "com.a", &vec![]), Progress::Do(Action::Run(_))));
    assert!(matches!(survey(&c, "com.a", &vec![ran(0, "")]), Progress::Done((false, None))));
    match survey(&c, "com.a", &vec![ran(0, "package:com.a\n")]) {
        Progress::Do(Action::Run(c)) => {
            assert_eq!(c.args, vec!["shell", "du", "-sh", "/data/data/com.a"])
        }
        other => panic!("{other:?}"),
    }
    let replies = vec![ran(0, "package:com.a\n"), ran(0, "12M\t/data/data/com.a\n")];
    assert!(matches!(
        survey(&c, "com.a", &replies),
        Progress::Done((true, Some(size))) if size == "12M"
    ));
    let replies = vec![ran(0, "package:com.a\n"), ran(0, " ")];
    assert!(matches!(survey(&c, "com.a", &replies), Progress::Done((true, None))));
}

#[test]
fn the_user_is_told_what_goes() {
    let q = question("Game", "/Apps/Game.app", "com.a", true, &Some("12M".into()));
    assert_eq!(q.message, "Completely uninstall “Game”?");
    assert_eq!(
        q.detail,
        "This will permanently remove:\n\n•  /Apps/Game.app\n•  the Android app “com.a” and its \
         data (12M)\n\nAnything the app saved — progress, logins, downloads — is removed with it. \
         This cannot be undone."
    );
    assert_eq!(q.buttons, vec!["Cancel", "Uninstall"]);
    assert!(!is_confirmed(FIRST_BUTTON) && is_confirmed(FIRST_BUTTON + 1));
    assert!(question("G", "b", "p", false, &None).detail.contains("(not currently installed"));
    assert!(not_ours("/x.app").detail.starts_with("/x.app wasn't created by Androlon"));
}

/// Removes an app; gives back what was done, and what could not be removed.
fn take_away(installed: bool, status: i32, bundle_goes: bool) -> (Vec<String>, Vec<String>) {
    let c = config();
    let mut replies = Vec::new();
    let mut seen = Vec::new();
    loop {
        let reply = match remove(&c, "/Apps/Game.app", "com.a", installed, &replies) {
            Progress::Done(problems) => return (seen, problems),
            Progress::Do(Action::Run(c)) => {
                seen.push(c.args.join(" "));
                ran(status, " DELETE_FAILED \n")
            }
            Progress::Do(Action::RemoveDir(p)) => {
                seen.push(format!("rm {p}"));
                Reply::Did(if bundle_goes { Ok(()) } else { Err("busy".into()) })
            }
            Progress::Do(other) => panic!("{other:?}"),
        };
        replies.push(reply);
    }
}

#[test]
fn both_halves_of_an_app_go() {
    let (seen, problems) = take_away(true, 0, true);
    assert_eq!(seen, vec!["uninstall com.a", "rm /Apps/Game.app", "-u /Apps/Game.app"]);
    assert!(problems.is_empty());
    let (seen, problems) = take_away(false, 0, true);
    assert_eq!(seen, vec!["rm /Apps/Game.app", "-u /Apps/Game.app"]);
    assert!(problems.is_empty());
    let (seen, problems) = take_away(true, 1, false);
    assert_eq!(seen.len(), 3);
    assert_eq!(problems, vec!["Android app: DELETE_FAILED", "Mac app: busy"]);
}

#[test]
fn the_end_is_told() {
    let a = closing("Game", &vec![]);
    assert!(!a.warning);
    assert_eq!(a.message, "“Game” was removed");
    let a = closing("Game", &args(&["one", "two"]));
    assert!(a.warning);
    assert_eq!(a.message, "“Game” was only partly removed");
    assert_eq!(a.detail, "These parts could not be removed:\n\none\ntwo");
}
