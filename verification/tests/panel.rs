use androlon::badging::ApkInfo;
use androlon::error::EngineError;
use androlon::host::Host;
use androlon::model::{BootProfile, DoctorReport, RootStatus, ToolCheck};
use androlon::ui::{
    emulator_log, first_job, run_task, AppState, Button, Drawing, Job, JobDone, Msg, Task, Tone,
    Widget, LOG_LINES, SHOWN_LINES,
};

fn report(present: bool) -> DoctorReport {
    DoctorReport {
        sdk_root: "/sdk".into(),
        api: 37,
        system_image: "image".into(),
        tools: vec![ToolCheck { name: "adb".into(), path: "/sdk/adb".into(), present }],
        avds: vec!["one".into(), "two".into()],
        emulator_running: true,
        root_status: RootStatus::Adbd,
        is_rootable: false,
    }
}

fn info() -> ApkInfo {
    ApkInfo {
        label: "Game".into(),
        package: "com.a".into(),
        version: "1.2".into(),
        min_sdk: "24".into(),
        size_bytes: 3 << 19,
    }
}

fn texts(widgets: &[Widget]) -> Vec<String> {
    widgets.iter().map(|w| format!("{w:?}")).collect()
}

fn control(d: &Drawing) -> Vec<String> {
    texts(&d.control)
}

#[test]
fn a_panel_greets() {
    let d = AppState::new(report(true)).draw();
    assert_eq!(
        d.log,
        vec![
            "Ready · Android 37 · image",
            "Tip: run `Setup` once (~1–2 GB) before booting."
        ]
    );
    assert!(d.dialog.is_none());
}

#[test]
fn the_panel_shows_the_engine() {
    let shown = control(&AppState::new(report(true)).draw());
    for want in [
        "Text(\"Parallels-class Android · Apple Silicon\")",
        "Toned(Good, \"  OK  adb\")",
        "Bullet(\"SDK: provisioned\")",
        "Bullet(\"AVDs: one, two\")",
        "Bullet(\"Emulator: running\")",
        "Bullet(\"Rootable image: no\")",
        "Bullet(\"Root: adbd\")",
        "Toned(Developer, \"  developer · cold boot, root-safe, deterministic\")",
        "Button(Toggle)",
        "Button(Refresh)",
    ] {
        assert!(shown.iter().any(|s| s == want), "{want}");
    }
    let mut r = report(false);
    r.avds.clear();
    let shown = control(&AppState::new(r).draw());
    assert!(shown.iter().any(|s| s == "Toned(Bad, \"  --  adb (needs setup)\")"));
    assert!(shown.iter().any(|s| s == "Bullet(\"SDK: incomplete\")"));
    assert!(shown.iter().any(|s| s == "Bullet(\"AVDs: none\")"));
}

#[test]
fn the_log_keeps_its_last_lines() {
    let mut p = AppState::new(report(true));
    for i in 0..500 {
        p.log_line(format!("line {i}"));
    }
    let log = p.draw().log;
    assert_eq!(log.len(), SHOWN_LINES);
    assert_eq!(log[0], "line 486");
    assert_eq!(log[13], "line 499");
    assert_eq!(LOG_LINES, 200);
}

#[test]
fn one_task_runs_at_a_time() {
    let mut p = AppState::new(report(true));
    assert_eq!(p.press(&vec![Button::Boot]), Some(Task::BootDesktop));
    assert_eq!(p.draw().log.last().unwrap(), "▶ boot desktop AVD…");
    assert_eq!(p.press(&vec![Button::Setup, Button::Toggle]), None);
    assert_eq!(p.profile(), BootProfile::Developer);
    let shown = control(&p.draw());
    assert!(shown.iter().any(|s| s == "Toned(Working, \"  working…\")"));
    assert!(!shown.iter().any(|s| s == "Button(Setup)"));
    assert!(!p.poll(vec![Msg::Log("half".into())]));
    assert!(p.poll(vec![Msg::Report(report(false)), Msg::Done, Msg::Log("end".into())]));
    assert_eq!(p.draw().log.last().unwrap(), "end");
    assert!(p.spawn(Task::Stop));
    assert!(!p.spawn(Task::Stop));
}

#[test]
fn of_several_buttons_the_first_one_counts() {
    let mut p = AppState::new(report(true));
    assert_eq!(p.press(&vec![Button::Refresh, Button::CreateAvds]), Some(Task::CreateAvds));
}

#[test]
fn the_profile_is_toggled() {
    let mut p = AppState::new(report(true));
    p.press(&vec![Button::Toggle]);
    assert_eq!(p.profile(), BootProfile::Consumer);
    assert_eq!(p.draw().log.last().unwrap(), "profile → consumer");
    p.press(&vec![Button::Toggle]);
    assert_eq!(p.profile(), BootProfile::Developer);
}

#[test]
fn wishes_for_surfaces_are_taken_once() {
    let mut p = AppState::new(report(true));
    p.press(&vec![Button::Demo, Button::Live]);
    assert!(p.take_open_video() && p.take_open_live());
    assert!(!p.take_open_video() && !p.take_open_live());
}

#[test]
fn a_package_is_installed_after_a_go_ahead() {
    let mut p = AppState::new(report(true));
    p.request_install("/x.apk".into(), info(), Some("/home/u"));
    assert_eq!(p.draw().log.last().unwrap(), "› install requested: Game (com.a)");
    let (title, parts) = p.draw().dialog.unwrap();
    assert_eq!(title, "Install “Game”?###installer");
    let parts = texts(&parts);
    assert_eq!(parts[0], format!("{:?}", Widget::Toned(Tone::Title, "Game".into())));
    assert!(parts.iter().any(|s| s == "Bullet(\"Size      1.5 MB\")"));
    assert!(parts.iter().any(|s| s == "Field(\"/home/u/Applications\")"));
    assert!(p.take_install().is_none());
    p.edit_destination("/elsewhere".into());
    p.press(&vec![Button::Install]);
    let taken = p.take_install().unwrap();
    assert_eq!((taken.apk.as_str(), taken.dest.as_str()), ("/x.apk", "/elsewhere"));
    assert!(p.draw().dialog.is_none() && p.take_install().is_none());
}

#[test]
fn a_package_can_be_refused() {
    let mut p = AppState::new(report(true));
    p.request_install("/x.apk".into(), info(), None);
    assert!(texts(&p.draw().dialog.unwrap().1).iter().any(|s| s == "Field(\".\")"));
    p.press(&vec![Button::Cancel]);
    assert_eq!(p.draw().log.last().unwrap(), "✗ install of Game cancelled");
    assert!(p.draw().dialog.is_none() && p.take_install().is_none());
}

#[test]
fn buttons_and_tasks_have_names() {
    assert_eq!(Button::Root.label(), "Root (adbd)");
    assert_eq!(Button::Live.label(), "Open surface (LIVE scrcpy)");
    assert_eq!(Task::RootAdbd.verb(), "enable adbd root");
}

/// Runs a task to its end; each job gives what `outcome` says.
fn run(task: Task, outcome: fn(Job) -> JobDone) -> Vec<String> {
    let mut job = Some(first_job(task));
    let mut said = Vec::new();
    while let Some(j) = job {
        let (msgs, next) = run_task(outcome(j), BootProfile::Consumer);
        for m in msgs {
            said.push(match m {
                Msg::Log(line) => line,
                Msg::Report(_) => "report".to_string(),
                Msg::Done => "done".to_string(),
            });
        }
        job = next;
        assert!(said.len() < 10);
    }
    said
}

fn well(job: Job) -> JobDone {
    match job {
        Job::InstallPackages => JobDone::InstallPackages(Ok(())),
        Job::CreatePhone => JobDone::CreatePhone(Ok(())),
        Job::CreateDesktop => JobDone::CreateDesktop(Ok(())),
        Job::BootDesktop => JobDone::BootDesktop(Ok(())),
        Job::EnableRoot => JobDone::EnableRoot(Ok(())),
        Job::RootStatus => JobDone::RootStatus(RootStatus::Magisk),
        Job::Stop => JobDone::Stop,
        Job::Doctor => JobDone::Doctor(report(true)),
    }
}

fn badly(job: Job) -> JobDone {
    let e = || Err(EngineError::SdkMissing("adb".into()));
    match job {
        Job::InstallPackages => JobDone::InstallPackages(e()),
        Job::CreatePhone => JobDone::CreatePhone(e()),
        Job::CreateDesktop => JobDone::CreateDesktop(e()),
        Job::BootDesktop => JobDone::BootDesktop(e()),
        Job::EnableRoot => JobDone::EnableRoot(e()),
        other => well(other),
    }
}

#[test]
fn tasks_say_what_they_did() {
    assert_eq!(run(Task::Refresh, well), vec!["report", "done"]);
    assert_eq!(run(Task::Setup, well), vec!["✓ SDK packages installed", "report", "done"]);
    assert_eq!(run(Task::CreateAvds, well), vec!["✓ phone + desktop AVDs ready", "report", "done"]);
    assert_eq!(
        run(Task::BootDesktop, well),
        vec!["✓ desktop AVD booted (consumer profile)", "report", "done"]
    );
    assert_eq!(run(Task::RootAdbd, well), vec!["✓ root: magisk", "report", "done"]);
    assert_eq!(run(Task::Stop, well), vec!["✓ stop signal sent", "report", "done"]);
    let e = "✗ adb not found — run `androlon-ctl setup` first.";
    for task in [Task::Setup, Task::CreateAvds, Task::BootDesktop, Task::RootAdbd] {
        assert_eq!(run(task, badly), vec![e, "report", "done"]);
    }
}

#[test]
fn the_log_of_the_emulator_lies_beside_the_sdk() {
    assert_eq!(emulator_log(Host::Linux, Some("/work")), "/work/.emulator.log");
    assert_eq!(emulator_log(Host::Linux, Some("")), ".emulator.log");
    assert_eq!(emulator_log(Host::Linux, None), "./.emulator.log");
}
