use androlon::adb::{find_component, AdbService};
use androlon::backend::{make_backend, AndroidBackend, Gfxstream, GpuBackend, Venus};
use androlon::config::{is_executable, SdkConfig};
use androlon::emulator::{avd_config, avd_names, EmulatorService};
use androlon::error::EngineError;
use androlon::host::Host;
use androlon::model::{avd_home, Avd, BootProfile, RootStatus, RuntimeKind};
use androlon::step::{Action, Reply, Step};
use androlon::subprocess::{run, run_checked, CommandLine, RawOutput};
use androlon::waydroid::WaydroidBackend;
use std::path::Path;

fn config() -> SdkConfig {
    SdkConfig::from_env(Host::Linux, Some("/work"), None, None, None, None)
}

fn ran(code: i32, out: &str) -> Reply {
    Reply::Ran(Ok(RawOutput {
        code: Some(code),
        stdout: out.as_bytes().to_vec(),
        stderr: Vec::new(),
    }))
}

fn not_launched(why: &str) -> Reply {
    Reply::Ran(Err(why.to_string()))
}

/// The words of the command that a step runs.
fn words<T>(s: Step<T>) -> Vec<String> {
    match s {
        Step::Do(Action::Run(c)) => {
            let mut v = vec![c.exe];
            v.extend(c.args);
            v
        }
        _ => panic!("no command"),
    }
}

fn done<T>(s: Step<T>) -> T {
    match s {
        Step::Done(x) => x,
        Step::Do(a) => panic!("not done: {a:?}"),
    }
}

const ADB: &str = "/work/.android-sdk/platform-tools/adb";

#[test]
fn a_configuration_has_its_defaults() {
    let c = config();
    assert_eq!(c.sdk_root, "/work/.android-sdk");
    assert_eq!(c.api, 37);
    assert_eq!(c.system_image(), "system-images;android-37.0;google_apis_ps16k;arm64-v8a");
    assert_eq!(c.platform(), "platforms;android-37.0");
    assert_eq!(c.adb(), ADB);
    assert!(c.is_rootable());
    assert_eq!(
        c.ramdisk_image(),
        "/work/.android-sdk/system-images/android-37.0/google_apis_ps16k/arm64-v8a/ramdisk.img"
    );
    assert_eq!(c.copy().sdk_root, c.sdk_root);
}

#[test]
fn the_environment_changes_a_configuration() {
    let c = SdkConfig::from_env(
        Host::Windows,
        None,
        Some("D:\\sdk"),
        Some("35"),
        Some("35"),
        Some("google_apis_playstore"),
    );
    assert_eq!(c.api, 35);
    assert_eq!(c.adb(), "D:\\sdk\\platform-tools\\adb.exe");
    assert!(c.sdkmanager().ends_with("sdkmanager.bat"));
    assert!(!c.is_rootable());
    let c = SdkConfig::from_env(Host::Mac, None, None, Some("many"), None, None);
    assert_eq!(c.api, 37);
    assert_eq!(c.sdk_root, "./.android-sdk");
}

#[test]
fn tools_lie_in_the_directories_that_are_searched() {
    for (host, root) in [
        (Host::Mac, "/sdk"),
        (Host::Linux, "rel/sdk/"),
        (Host::Linux, ""),
        (Host::Windows, "C:\\sdk"),
        (Host::Windows, "C:"),
        (Host::Windows, "\\\\srv\\share"),
        (Host::Windows, "\\\\?\\C:\\sdk"),
    ] {
        let c = SdkConfig::from_env(host, None, Some(root), None, None, None);
        let dirs = c.tool_dirs();
        let at = |tool: String| dirs.iter().position(|d| *d == host.parent_of(&tool));
        assert_eq!(at(c.adb()), Some(0), "{root}");
        assert_eq!(at(c.emulator()), Some(1), "{root}");
        assert_eq!(at(c.sdkmanager()), Some(2), "{root}");
        assert_eq!(at(c.avdmanager()), Some(2), "{root}");
        assert_eq!(at(c.aapt2()), Some(3), "{root}");
        assert!(dirs.iter().all(|d| d.starts_with(root)), "{dirs:?}");
    }
}

#[test]
fn programs_are_told_from_other_files() {
    assert!(is_executable(Host::Linux, true, 0o755));
    assert!(is_executable(Host::Linux, true, 0o001));
    assert!(!is_executable(Host::Linux, true, 0o644));
    assert!(!is_executable(Host::Linux, false, 0o755));
    assert!(is_executable(Host::Windows, true, 0));
}

#[test]
fn paths_are_those_of_std() {
    for base in ["", "/", "a", "/a/b", "/a/b/", "./x", "a//b"] {
        for rel in ["c", "c/d", "/abs", ""] {
            let std = Path::new(base).join(rel);
            assert_eq!(Host::Linux.join(base, rel), std.to_str().unwrap(), "{base:?} {rel:?}");
        }
    }
    for p in [
        "/a/b", "/a/b/", "a", "a/..", "..", ".", "/", "", "//", "/a/.", "/a/./", "./", "/.", "a/./b",
        "/usr/bin/androlon-ctl",
    ] {
        let std = Path::new(p);
        assert_eq!(
            Host::Linux.file_name(p),
            std.file_name().map(|n| n.to_str().unwrap().to_string()),
            "{p:?}"
        );
        if let Some(parent) = std.parent() {
            assert_eq!(Host::Linux.parent_of(p), parent.to_str().unwrap(), "{p:?}");
        }
        let moved = std.with_file_name("new");
        assert_eq!(Path::new(&Host::Linux.with_file_name(p, "new")), moved.as_path(), "{p:?}");
    }
}

#[test]
fn paths_of_a_host_with_drives() {
    let h = Host::Windows;
    assert_eq!(h.join("C:\\Apps", "x"), "C:\\Apps\\x");
    assert_eq!(h.join("C:", "x"), "C:x");
    assert_eq!(h.file_name("C:\\bin/androlon-ctl.exe"), Some("androlon-ctl.exe".to_string()));
    assert_eq!(h.file_name("C:x"), Some("x".to_string()));
    assert_eq!(h.file_name("C:\\"), None);
    assert_eq!(h.parent_of("C:\\bin\\x"), "C:\\bin");
    assert_eq!(h.parent_of("C:\\x"), "C:\\");
    assert_eq!(h.parent_of("C:x"), "C:");
    assert_eq!(h.with_file_name("C:\\bin\\x.exe", "y"), "C:\\bin\\y");
    assert_eq!(h.with_file_name("C:\\x.exe", "y"), "C:\\y");
    assert_eq!(h.with_file_name("C:x.exe", "y"), "C:y");
    // What begins with a separator stands under the root of the drive, and
    // what names a drive for itself.
    assert_eq!(h.join("C:\\a", "\\b"), "C:\\b");
    assert_eq!(h.join("C:\\a", "/b"), "C:/b");
    assert_eq!(h.join("C:\\a", "D:\\b"), "D:\\b");
    assert_eq!(h.join("C:\\a", "D:b"), "D:b");
    // What a server shares is like a drive.
    assert_eq!(h.join("\\\\srv\\share\\a", "\\b"), "\\\\srv\\share\\b");
    assert_eq!(h.join("\\\\srv\\share", "b"), "\\\\srv\\share\\b");
    assert_eq!(h.join("C:\\a", "\\\\srv\\share\\b"), "\\\\srv\\share\\b");
    assert_eq!(h.file_name("\\\\srv\\share"), None);
    assert_eq!(h.parent_of("\\\\srv\\share\\x"), "\\\\srv\\share\\");
    // A path that is taken as it stands holds no slash for a separator.
    let v = "\\\\?\\C:\\sdk";
    assert_eq!(h.join(v, "a/./b/../c"), "\\\\?\\C:\\sdk\\a\\c");
    assert_eq!(h.join(v, "/d"), "\\\\?\\C:\\d");
    assert_eq!(h.join(v, ""), "\\\\?\\C:\\sdk\\");
    assert_eq!(h.file_name("\\\\?\\C:\\a/b"), Some("a/b".to_string()));
    assert_eq!(h.with_file_name("\\\\?\\C:\\x.exe", "y"), "\\\\?\\C:\\y");
    // Elsewhere the other separator is a character like any.
    assert_eq!(Host::Mac.with_file_name("a\\b", "y"), "y");
}

#[test]
fn devices_lie_where_the_environment_says() {
    assert_eq!(avd_home(Host::Linux, Some("/x"), Some("/h")), "/x");
    assert_eq!(avd_home(Host::Linux, None, Some("/h")), "/h/.android/avd");
}

#[test]
fn labels_read_back() {
    for p in [BootProfile::Developer, BootProfile::Consumer] {
        assert_eq!(BootProfile::parse(p.label()), Some(p));
    }
    assert_eq!(BootProfile::parse("fast"), None);
    for k in [RuntimeKind::Emulator, RuntimeKind::Waydroid] {
        assert_eq!(RuntimeKind::parse(k.label()), Some(k));
    }
    assert!(RuntimeKind::Waydroid.supported_here(Host::Linux));
    assert!(!RuntimeKind::Waydroid.supported_here(Host::Mac));
    assert_eq!(RootStatus::NoRoot.label(), "none");
    assert_eq!(BootProfile::Developer.snapshot_args(), vec!["-no-snapshot"]);
    assert!(BootProfile::Consumer.snapshot_args().is_empty());
}

#[test]
fn graphics_paths_say_what_they_are() {
    assert_eq!(Gfxstream.name(), "gfxstream");
    assert!(Gfxstream.is_implemented());
    assert_eq!(Gfxstream.emulator_args(), vec!["-gpu", "auto"]);
    assert!(!Venus.is_implemented());
    let engine = EmulatorService::with_gpu(config(), Venus);
    assert_eq!(engine.gpu.name(), Venus.name());
    assert_eq!(engine.config.sdk_root, "/work/.android-sdk");
}

#[test]
fn errors_say_what_a_user_reads() {
    for (e, want) in [
        (EngineError::SdkMissing("adb".into()), "adb not found — run `androlon-ctl setup` first."),
        (
            EngineError::NotRootable("x".into()),
            "image 'x' is a locked user build — use google_apis or aosp for root.",
        ),
        (
            EngineError::RamdiskMissing("/r".into()),
            "system-image ramdisk not found at /r — run setup.",
        ),
        (EngineError::ApkNotFound("/x.apk".into()), "APK not found: /x.apk"),
        (
            EngineError::PackageUnresolved("/x.apk".into()),
            "could not determine package name for /x.apk",
        ),
        (
            EngineError::BackendUnimplemented("venus".into()),
            "GPU/host backend 'venus' is not implemented yet.",
        ),
        (
            EngineError::Launch { tool: "adb".into(), source: "gone".into() },
            "failed to launch adb: gone",
        ),
        (
            EngineError::NonZero { tool: "adb".into(), status: -1, output: " no \n".into() },
            "adb exited -1:\nno",
        ),
    ] {
        assert_eq!(e.message(), want);
        assert_eq!(e.copy().message(), want);
    }
}

#[test]
fn a_command_is_checked_by_its_status() {
    let c = CommandLine::plain("/bin/tool", vec!["x".into()]);
    let raw = |code: Option<i32>| {
        Ok(RawOutput { code, stdout: b" out ".to_vec(), stderr: b"\xffbad".to_vec() })
    };
    let out = run(Host::Linux, &c, &raw(Some(3))).unwrap();
    assert_eq!((out.status, out.ok()), (3, false));
    // What is no text is replaced, not lost.
    assert_eq!(out.output, " out \u{fffd}bad");
    assert_eq!(out.trimmed(), "out \u{fffd}bad");
    assert!(run_checked(Host::Linux, &c, &raw(Some(0))).is_ok());
    assert!(matches!(
        run_checked(Host::Linux, &c, &raw(Some(3))),
        Err(EngineError::NonZero { .. })
    ));
    assert!(matches!(
        run(Host::Linux, &c, &Err("no such file".into())),
        Err(EngineError::Launch { .. })
    ));
    assert_eq!(c.tool(Host::Linux), "tool");
}

#[test]
fn tools_run_in_an_environment_of_their_own() {
    let c = config();
    let adb = AdbService::new(&c).adb(vec!["devices".into()]);
    assert_eq!((adb.exe.as_str(), adb.args.len()), (ADB, 1));
    let env = adb.environment(Host::Linux, Some("/usr/bin"));
    let path = env.iter().find(|(k, _)| k == "PATH").unwrap();
    assert!(path.1.ends_with(":/usr/bin"));
    assert!(path.1.contains("/work/.android-sdk/platform-tools"));
    assert!(env.iter().any(|(k, v)| k == "ANDROID_HOME" && v == "/work/.android-sdk"));
}

#[test]
fn the_root_state_is_found_out_step_by_step() {
    let c = config();
    let adb = AdbService::new(&c);
    let mut replies = Vec::new();
    assert_eq!(words(adb.root_status(&replies)), vec![ADB, "get-state"]);
    assert_eq!(done(adb.root_status(&vec![ran(0, "offline")])), RootStatus::NoRoot);
    replies.push(ran(0, "device\n"));
    assert_eq!(words(adb.root_status(&replies)), vec![ADB, "shell", "su", "-c", "id"]);
    replies.push(ran(0, "su: not found"));
    assert_eq!(words(adb.root_status(&replies)), vec![ADB, "shell", "id", "-u"]);
    replies.push(ran(0, "0\n"));
    assert_eq!(done(adb.root_status(&replies)), RootStatus::Adbd);
    let magisk = vec![ran(0, "device"), ran(0, "uid=0(root) gid=0(root)")];
    assert_eq!(done(adb.root_status(&magisk)), RootStatus::Magisk);
    let shell = vec![ran(0, "device"), not_launched("x"), ran(0, "2000")];
    assert_eq!(done(adb.root_status(&shell)), RootStatus::NoRoot);
}

#[test]
fn an_image_with_the_store_is_not_rooted() {
    let c = SdkConfig::from_env(
        Host::Linux,
        None,
        Some("/s"),
        None,
        None,
        Some("google_apis_playstore"),
    );
    assert!(matches!(
        done(AdbService::new(&c).enable_adbd_root(&vec![])),
        Err(EngineError::NotRootable(_))
    ));
    let c = config();
    let adb = AdbService::new(&c);
    assert_eq!(words(adb.enable_adbd_root(&vec![])), vec![ADB, "root"]);
    assert_eq!(words(adb.enable_adbd_root(&vec![ran(1, "")])), vec![ADB, "wait-for-device"]);
    assert!(done(adb.enable_adbd_root(&vec![ran(0, ""), ran(0, "")])).is_ok());
    assert!(done(adb.enable_adbd_root(&vec![not_launched("x")])).is_err());
}

#[test]
fn packages_are_named_installed_and_launched() {
    let c = config();
    let adb = AdbService::new(&c);
    assert_eq!(words(adb.install("/x.apk", &vec![])), vec![ADB, "install", "-r", "-g", "/x.apk"]);
    assert!(done(adb.install("/x.apk", &vec![ran(0, "Success")])).is_ok());
    assert!(done(adb.install("/x.apk", &vec![ran(1, "Failure")])).is_err());
    assert_eq!(done(adb.package_name("/x.apk", &vec![Reply::Answer(false)])), "");
    assert_eq!(
        done(adb.package_name("/x.apk", &vec![Reply::Answer(true), ran(0, "com.a\n")])),
        "com.a"
    );
    assert_eq!(
        done(adb.launch_component("com.a", &vec![ran(0, "priority=0\ncom.a/.Main\n")])),
        Some("com.a/.Main".to_string())
    );
    assert_eq!(done(adb.launch_component("com.a", &vec![ran(0, "No activity found")])), None);
    assert_eq!(find_component(""), None);
    assert_eq!(
        words(adb.launch("com.a/.Main", Some(7), &vec![])),
        vec![ADB, "shell", "am", "start", "-n", "com.a/.Main", "--display", "7"]
    );
}

#[test]
fn devices_are_listed_without_the_words_around_them() {
    let text = "Available Android Virtual Devices:\n    Name: androlon_phone\n  Device: medium\n\
                ---------\n    Name: androlon_desktop\n";
    assert_eq!(avd_names(text), vec!["androlon_phone", "androlon_desktop"]);
    assert!(avd_names("nothing").is_empty());
}

#[test]
fn the_settings_of_a_device_are_written_in_full() {
    let text = avd_config(&config(), &Avd::phone());
    assert!(text.starts_with("AvdId=androlon_phone\navd.ini.displayname=androlon_phone\n"));
    for line in [
        "hw.lcd.width=1080",
        "hw.lcd.height=2400",
        "hw.lcd.density=420",
        "abi.type=arm64-v8a",
        "hw.device.name=medium_phone",
        "hw.device.hash2=MD5:3db3250dab5d0d93b29353040181c7e9",
        "PlayStore.enabled=false",
        "image.sysdir.1=system-images/android-37.0/google_apis_ps16k/arm64-v8a/",
        "tag.id=google_apis",
        "tag.ids=google_apis,page_size_16kb",
        "target=android-37.0",
    ] {
        assert!(text.lines().any(|l| l == line), "{line}");
    }
    assert!(text.ends_with("runtime.network.speed=full\n"));
}

#[test]
fn a_device_is_created_once() {
    let engine = EmulatorService::new(config());
    let avd = Avd::desktop();
    let mut replies = vec![];
    assert!(matches!(
        engine.create_device(&avd, "/avds", &replies),
        Step::Do(Action::IsExecutable(_))
    ));
    assert!(matches!(
        done(engine.create_device(&avd, "/avds", &vec![Reply::Answer(false)])),
        Err(EngineError::SdkMissing(_))
    ));
    replies.push(Reply::Answer(true));
    assert_eq!(words(engine.create_device(&avd, "/avds", &replies))[1..], ["list", "avd"]);
    let there = vec![Reply::Answer(true), ran(0, "    Name: androlon_desktop\n")];
    assert!(done(engine.create_device(&avd, "/avds", &there)).is_ok());
    replies.push(ran(0, "    Name: other\n"));
    let create = words(engine.create_device(&avd, "/avds", &replies));
    assert_eq!(
        &create[1..],
        &[
            "create",
            "avd",
            "-n",
            "androlon_desktop",
            "-k",
            "system-images;android-37.0;google_apis_ps16k;arm64-v8a",
            "-d",
            "medium_phone",
            "--force"
        ]
    );
    replies.push(ran(0, ""));
    match engine.create_device(&avd, "/avds", &replies) {
        Step::Do(Action::IsDir(d)) => assert_eq!(d, "/avds/androlon_desktop.avd"),
        other => panic!("{other:?}"),
    }
    replies.push(Reply::Answer(true));
    match engine.create_device(&avd, "/avds", &replies) {
        Step::Do(Action::Write { path, .. }) => {
            assert_eq!(path, "/avds/androlon_desktop.avd/config.ini")
        }
        other => panic!("{other:?}"),
    }
    replies.push(Reply::Did(Ok(())));
    match engine.create_device(&avd, "/avds", &replies) {
        Step::Do(Action::Write { path, text }) => {
            assert_eq!(path, "/avds/androlon_desktop.ini");
            assert_eq!(
                text,
                "avd.ini.encoding=UTF-8\npath=/avds/androlon_desktop.avd\n\
                 path.rel=avd/androlon_desktop.avd\ntarget=android-37.0\n"
            );
        }
        other => panic!("{other:?}"),
    }
    replies.push(Reply::Did(Err("full".into())));
    assert!(done(engine.create_device(&avd, "/avds", &replies)).is_err());
}

/// Answers the steps of a boot; the device is up after `polls` questions.
fn boot(polls: usize, timeout: u64) -> (Vec<String>, bool) {
    let engine = EmulatorService::new(config());
    let mut replies = Vec::new();
    let mut seen = Vec::new();
    let mut asked = 0;
    let mut clock = 0;
    for _ in 0..1000 {
        let step = engine.boot_and_wait(
            &Avd::desktop(),
            BootProfile::Developer,
            "/work/.emulator.log",
            timeout,
            &replies,
        );
        let reply = match step {
            Step::Done(r) => return (seen, r.is_ok()),
            Step::Do(Action::Run(c)) => {
                let text = c.args.join(" ");
                seen.push(text.clone());
                if text.contains("sys.boot_completed") {
                    asked += 1;
                    ran(0, if asked > polls { "1\n" } else { "\n" })
                } else if text.contains("get-state") {
                    ran(1, "no devices")
                } else {
                    ran(0, "")
                }
            }
            Step::Do(Action::Spawn { command, log }) => {
                assert_eq!(log, "/work/.emulator.log");
                seen.push(command.args.join(" "));
                Reply::Did(Ok(()))
            }
            Step::Do(Action::Now) => Reply::Time(clock),
            Step::Do(Action::Wait(ms)) => {
                clock += ms;
                Reply::Did(Ok(()))
            }
            Step::Do(Action::IsExecutable(_)) => Reply::Answer(true),
            Step::Do(other) => panic!("{other:?}"),
        };
        replies.push(reply);
    }
    panic!("does not end");
}

#[test]
fn a_boot_waits_until_the_device_is_up() {
    let (seen, ok) = boot(2, 180_000);
    assert!(ok);
    assert!(seen.iter().any(|s| s == "-avd androlon_desktop -no-snapshot -gpu auto"));
    assert_eq!(seen.iter().filter(|s| s.contains("sys.boot_completed")).count(), 3);
    assert_eq!(seen.last().unwrap(), "shell input keyevent 82");
}

#[test]
fn a_boot_that_takes_too_long_counts_as_done() {
    let (seen, ok) = boot(usize::MAX, 6_000);
    assert!(ok);
    assert_eq!(seen.iter().filter(|s| s.contains("sys.boot_completed")).count(), 3);
}

#[test]
fn the_health_report_tells_what_is_there() {
    let engine = EmulatorService::new(config());
    let mut replies = Vec::new();
    let report = loop {
        match engine.doctor(&replies) {
            Step::Done(r) => break r,
            Step::Do(Action::IsExecutable(p)) => replies.push(Reply::Answer(!p.ends_with("aapt2"))),
            Step::Do(Action::Run(c)) => {
                let text = c.args.join(" ");
                replies.push(ran(
                    0,
                    match text.as_str() {
                        "get-state" => "device",
                        "list avd" => "    Name: androlon_phone\n",
                        "shell id -u" => "0",
                        _ => "",
                    },
                ));
            }
            Step::Do(other) => panic!("{other:?}"),
        }
    };
    let names: Vec<&str> = report.tools.iter().map(|t| t.name.as_str()).collect();
    assert_eq!(names, vec!["sdkmanager", "avdmanager", "adb", "emulator", "aapt2"]);
    assert_eq!(report.tools.iter().filter(|t| t.present).count(), 4);
    assert_eq!(report.avds, vec!["androlon_phone"]);
    assert!(report.emulator_running && report.is_rootable);
    assert_eq!(report.root_status, RootStatus::Adbd);
    assert_eq!((report.api, report.sdk_root.as_str()), (37, "/work/.android-sdk"));
}

#[test]
fn backends_are_made_for_their_runtime() {
    let emulator = make_backend(config(), RuntimeKind::Emulator);
    assert_eq!(emulator.kind(), RuntimeKind::Emulator);
    assert!(!done(emulator.is_provisioned(&vec![Reply::Answer(false)])));
    assert!(done(emulator.is_provisioned(&vec![Reply::Answer(true), Reply::Answer(true)])));
    assert!(matches!(
        done(emulator.install_packages(&vec![Reply::Answer(false)])),
        Err(EngineError::SdkMissing(_))
    ));
    assert_eq!(words(emulator.stop(&vec![])), vec![ADB, "emu", "kill"]);
    let waydroid = make_backend(config(), RuntimeKind::Waydroid);
    assert_eq!(waydroid.kind(), RuntimeKind::Waydroid);
}

#[test]
fn the_container_is_for_one_host() {
    let at = |host| WaydroidBackend::new(SdkConfig::from_env(host, None, None, None, None, None));
    let avd = Avd::phone();
    let none = vec![];
    let w = at(Host::Linux);
    assert!(done(w.create_avd(&avd, "/h", &none)).is_ok());
    assert_eq!(words(w.install_packages(&none)), vec!["waydroid", "init"]);
    for host in [Host::Mac, Host::Windows] {
        let w = at(host);
        for r in [
            done(w.create_avd(&avd, "/h", &none)),
            done(w.install_packages(&none)),
            done(w.boot(&avd, BootProfile::Developer, "/l", &none)),
            done(w.install_apk("/x.apk", &none)),
        ] {
            assert!(matches!(r, Err(EngineError::BackendUnimplemented(_))), "{r:?}");
        }
        assert!(!done(w.is_provisioned(&none)));
    }
}
