use androlon::appify::{appify, extract_icon, inspect, plist, run_capture, AppifyOutcome};
use androlon::badging::{extract, icon_path, info_of, label_of, safe_name};
use androlon::config::SdkConfig;
use androlon::error::EngineError;
use androlon::host::Host;
use androlon::icons::{better_of, build_icns, icon_dir, icon_source};
use androlon::step::{Action, Entry, Reply, Step};
use androlon::subprocess::RawOutput;

const BADGING: &str = "package: name='com.a.game' versionCode='7' versionName='1.2'\n\
sdkVersion:'24'\napplication-label:'A Game: the Second'\n\
application-icon-120:'res/a.png'\napplication-icon-640:'res/b.webp'\n\
application-icon-65534:'res/c.xml'\n";

fn config() -> SdkConfig {
    SdkConfig::from_env(Host::Mac, None, Some("/sdk"), None, None, None)
}

fn ran(code: i32, out: &str) -> Reply {
    Reply::Ran(Ok(RawOutput {
        code: Some(code),
        stdout: out.as_bytes().to_vec(),
        stderr: Vec::new(),
    }))
}

fn done<T>(s: Step<T>) -> T {
    match s {
        Step::Done(x) => x,
        Step::Do(a) => panic!("not done: {a:?}"),
    }
}

#[test]
fn strips_colons_and_subtitles() {
    assert_eq!(
        safe_name("Fire Free Offline Shooting Game: Gun Games Offline"),
        "Fire Free Offline Shooting Game"
    );
    assert_eq!(safe_name("CalcYou"), "CalcYou");
    assert_eq!(safe_name("Some/App"), "Some");
}

#[test]
fn never_yields_an_empty_or_hidden_name() {
    assert!(!safe_name("...").is_empty());
    assert!(!safe_name(".hidden").starts_with('.'));
}

#[test]
fn names_of_bundles_are_harmless() {
    for label in ["", " ", ":", "../../etc", "a\u{0}b", "tab\there", "x\\y", ". .x", ".-x", &"long ".repeat(60)] {
        let name = safe_name(label);
        assert!(!name.is_empty(), "{label:?}");
        assert!(!name.starts_with('.'), "{label:?}");
        assert!(!name.contains(['/', ':', '\0', '\t']), "{label:?} {name:?}");
        assert!(name.chars().count() <= 40, "{label:?}");
    }
    assert_eq!(safe_name("..."), "---");
    assert_eq!(safe_name(""), "-");
    assert_eq!(safe_name(". .x"), "-x");
    assert_eq!(safe_name("-.-"), "-.-");
}

#[test]
fn a_package_says_what_it_is() {
    assert_eq!(extract(BADGING, "versionName='"), Some("1.2".to_string()));
    assert_eq!(extract(BADGING, "nothing='"), None);
    let info = info_of(BADGING, 42).unwrap();
    assert_eq!(info.package, "com.a.game");
    assert_eq!(info.label, "A Game: the Second");
    assert_eq!(info.version, "1.2");
    assert_eq!(info.min_sdk, "24");
    assert_eq!(info.size_bytes, 42);
    assert!(info_of("nothing", 0).is_none());
    assert_eq!(label_of("package: name='x'", "x"), "x");
}

#[test]
fn the_last_picture_made_of_pixels_is_the_icon() {
    assert_eq!(icon_path(BADGING), Some("res/b.webp".to_string()));
    assert_eq!(icon_path("application-icon-1:'a.xml'"), None);
}

#[test]
fn a_package_is_looked_into() {
    let c = config();
    assert!(matches!(inspect(&c, "/x.apk", &vec![]), Step::Do(Action::Exists(_))));
    assert!(matches!(
        done(inspect(&c, "/x.apk", &vec![Reply::Answer(false)])),
        Err(EngineError::ApkNotFound(_))
    ));
    let read = vec![Reply::Answer(true), ran(0, BADGING)];
    assert!(matches!(inspect(&c, "/x.apk", &read), Step::Do(Action::Size(_))));
    let sized = vec![Reply::Answer(true), ran(0, BADGING), Reply::Size(Some(9))];
    assert_eq!(done(inspect(&c, "/x.apk", &sized)).unwrap().size_bytes, 9);
    let odd = vec![Reply::Answer(true), ran(0, "odd")];
    assert!(matches!(
        done(inspect(&c, "/x.apk", &odd)),
        Err(EngineError::PackageUnresolved(_))
    ));
    assert!(run_capture("aapt2", &ran(1, "bad")).is_err());
    assert_eq!(run_capture("aapt2", &ran(0, "good")).unwrap(), "good");
}

/// Says of itself that it has no icon made of pixels.
const PLAIN: &str = "package: name='com.a.plain'\napplication-label:'Plain'\n";

/// What the world is like in which a bundle is made.
struct World {
    host: Host,
    badging: &'static str,
    player: bool,
    /// The pictures in the package.
    pictures: Vec<&'static str>,
    /// The program that fails.
    failing: &'static str,
}

fn world() -> World {
    World { host: Host::Mac, badging: BADGING, player: true, pictures: vec![], failing: "" }
}

impl World {
    fn config(&self) -> SdkConfig {
        SdkConfig::from_env(self.host, None, Some("/sdk"), None, None, None)
    }

    fn reply(&self, action: Action) -> Reply {
        match action {
            Action::Exists(p) => Reply::Answer(self.player || p == "/x.apk"),
            Action::Run(c) if !self.failing.is_empty() && c.exe.contains(self.failing) => {
                ran(1, "no")
            }
            Action::Run(c) if c.args.iter().any(|a| a == "badging") => ran(0, self.badging),
            Action::Run(c) if c.args.iter().any(|a| a == "install") => ran(1, "no device"),
            Action::Run(_) => ran(0, &measured(192, 192)),
            Action::Resolve(p) => Reply::Path(Some(format!("/real{p}"))),
            Action::List(d) => Reply::Entries(Some(
                self.pictures
                    .iter()
                    .map(|p| Entry { path: format!("{d}/{p}"), is_dir: false })
                    .collect(),
            )),
            _ => Reply::Did(Ok(())),
        }
    }

    /// Makes a bundle and gives back what was done for it.
    fn make(&self) -> (Vec<String>, Result<AppifyOutcome, EngineError>) {
        let c = self.config();
        let mut replies = Vec::new();
        let mut seen = Vec::new();
        loop {
            assert!(replies.len() < 100);
            let player = if self.host == Host::Windows { "C:\\bin\\p.exe" } else { "/bin/p" };
            let out = if self.host == Host::Windows { "C:\\Apps" } else { "/Apps" };
            match appify(&c, "/x.apk", out, player, "/t", None, &replies) {
                Step::Done(r) => return (seen, r),
                Step::Do(a) => {
                    seen.push(format!("{a:?}"));
                    replies.push(self.reply(a));
                }
            }
        }
    }

    /// Copies the icon and gives back what was done for it.
    fn copy_icon(&self) -> (Vec<String>, Result<bool, EngineError>) {
        let c = self.config();
        let mut replies = Vec::new();
        let mut seen = Vec::new();
        loop {
            assert!(replies.len() < 100);
            match extract_icon(&c, "/x.apk", "/t", "/d.png", &replies) {
                Step::Done(r) => return (seen, r),
                Step::Do(a) => {
                    seen.push(format!("{a:?}"));
                    replies.push(self.reply(a));
                }
            }
        }
    }
}

fn has(seen: &[String], what: &str) -> bool {
    seen.iter().any(|s| s.contains(what))
}

#[test]
fn a_bundle_is_made_of_a_package() {
    let (seen, r) = world().make();
    let o = r.unwrap();
    assert_eq!(o.package, "com.a.game");
    assert_eq!(o.label, "A Game: the Second");
    assert_eq!(o.bundle, "/Apps/A Game.app");
    assert!(!o.installed);
    assert!(o.icon);
    assert_eq!(
        seen[8],
        "Link { target: \"/real/bin/p\", at: \"/Apps/A Game.app/Contents/MacOS/A Game\" }"
    );
    assert!(has(&seen, "/Apps/A Game.app/Contents/Resources/app.icns"));
    let text = plist(
        "A Game: the Second",
        "A Game",
        "com.a.game",
        true,
        "/real/sdk",
        "/realvendor/scrcpy-server",
        "/bin/androlon-runtimed",
    );
    let write = Action::Write { path: "/Apps/A Game.app/Contents/Info.plist".into(), text };
    assert_eq!(seen[seen.len() - 4], format!("{write:?}"));
    assert!(seen.last().unwrap().contains("lsregister"));
    let (_, r) = World { player: false, ..world() }.make();
    assert!(matches!(r, Err(EngineError::SdkMissing(_))));
}

#[test]
fn a_bundle_does_without_an_icon() {
    for w in [
        World { badging: PLAIN, ..world() },
        World { failing: "unzip", ..world() },
        World { failing: "sips", ..world() },
        World { failing: "iconutil", ..world() },
    ] {
        let (seen, r) = w.make();
        let o = r.unwrap();
        assert_eq!(o.icon, w.failing == "unzip", "{}", w.failing);
        assert!(has(&seen, "Info.plist"));
        assert_eq!(has(&seen, "CFBundleIconFile"), o.icon);
    }
}

#[test]
fn a_bundle_on_a_host_with_drives() {
    let (seen, r) = World { host: Host::Windows, ..world() }.make();
    assert_eq!(r.unwrap().bundle, "C:\\Apps\\A Game.app");
    let copy = Action::Copy {
        from: "/realC:\\bin\\p.exe".into(),
        to: "C:\\Apps\\A Game.app\\Contents/MacOS\\A Game".into(),
    };
    assert_eq!(seen[8], format!("{copy:?}"));
    assert!(has(&seen, "C:\\\\bin\\\\androlon-runtimed"), "{seen:?}");
}

#[test]
fn what_a_bundle_says_of_itself_is_a_property_list() {
    assert_eq!(
        plist("L", "E", "p.q", false, "/s", "/j", "/r"),
        r#"<?xml version="1.0" encoding="UTF-8"?>
<!DOCTYPE plist PUBLIC "-//Apple//DTD PLIST 1.0//EN" "http://www.apple.com/DTDs/PropertyList-1.0.dtd">
<plist version="1.0">
<dict>
    <key>CFBundleName</key>
    <string>L</string>
    <key>CFBundleDisplayName</key>
    <string>L</string>
    <key>CFBundleExecutable</key>
    <string>E</string>
    <key>CFBundleIdentifier</key>
    <string>com.androlon.app.p.q</string>
    <key>CFBundlePackageType</key>
    <string>APPL</string>
    <key>CFBundleShortVersionString</key>
    <string>1.0</string>
    <key>NSHighResolutionCapable</key>
    <true/>
    <key>LSEnvironment</key>
    <dict>
        <key>ANDROLON_APP</key>
        <string>p.q</string>
        <key>APKRUN_SDK</key>
        <string>/s</string>
        <key>ANDROLON_SCRCPY_SERVER</key>
        <string>/j</string>
        <key>ANDROLON_RUNTIMED</key>
        <string>/r</string>
    </dict>
</dict>
</plist>
"#
    );
    assert!(plist("L", "E", "p.q", true, "/s", "/j", "/r").contains("<key>CFBundleIconFile</key>"));
}

#[test]
fn an_icon_is_copied_where_there_is_one() {
    let (seen, r) = world().copy_icon();
    assert!(r.unwrap());
    assert_eq!(seen.last().unwrap(), "Copy { from: \"/t/icon-src\", to: \"/d.png\" }");
    let found = World { badging: PLAIN, pictures: vec!["a.png", "ic_launcher.png"], ..world() };
    let (seen, r) = found.copy_icon();
    assert!(r.unwrap());
    assert_eq!(
        seen.last().unwrap(),
        "Copy { from: \"/t/rasters/res/ic_launcher.png\", to: \"/d.png\" }"
    );
    let (_, r) = World { failing: "aapt2", ..world() }.copy_icon();
    assert!(matches!(r, Err(EngineError::NonZero { .. })));
}

#[test]
fn a_package_without_pictures_has_no_icon() {
    let (seen, r) = World { badging: PLAIN, ..world() }.copy_icon();
    assert!(!r.unwrap());
    assert!(!has(&seen, "Copy"));
    // Nor has one whose directory of pictures is not there.
    let replies =
        vec![Reply::Did(Ok(())), ran(11, ""), Reply::Entries(None)];
    assert_eq!(done(icon_source(Host::Mac, PLAIN, "/x.apk", "/t", &replies)), Ok(None));
    assert_eq!(done(build_icns(Host::Mac, PLAIN, "/x.apk", "/t", "/r", &replies)), Ok(false));
}

#[test]
fn what_stops_the_search_for_an_icon_is_told() {
    let c = config();
    let last = |replies: Vec<Reply>| match done(extract_icon(&c, "/x", "/t", "/d", &replies)) {
        Err(EngineError::Launch { tool, source }) => (tool, source),
        other => panic!("{other:?}"),
    };
    let no = |e: &str| Reply::Did(Err(e.to_string()));
    let yes = || Reply::Did(Ok(()));
    let told = |tool: &str, source: &str| (tool.to_string(), source.to_string());
    assert_eq!(last(vec![ran(0, BADGING), no("full")]), told("extract icon", "full"));
    assert_eq!(
        last(vec![ran(0, BADGING), yes(), ran(0, "")]),
        told("extract icon", "could not extract res/b.webp")
    );
    assert_eq!(
        last(vec![ran(0, BADGING), yes(), ran(0, "bytes"), yes(), no("full")]),
        told("copy icon", "full")
    );
}

#[test]
fn icons_are_taken_out_to_a_directory_of_the_process() {
    assert_eq!(icon_dir(Host::Mac, "/tmp", 42), "/tmp/androlon-icon-42");
    assert_eq!(icon_dir(Host::Windows, "C:\\t", 7), "C:\\t\\androlon-icon-7");
}

fn measured(w: u32, h: u32) -> String {
    format!("/x.png\n  pixelWidth: {w}\n  pixelHeight: {h}\n")
}

#[test]
fn the_larger_picture_is_the_better_one() {
    let best = better_of(Host::Mac, None, "/a.png", &measured(48, 48));
    let best = better_of(Host::Mac, best, "/b.png", &measured(192, 192));
    let best = better_of(Host::Mac, best, "/c.png", &measured(96, 96));
    assert_eq!(best, Some((192, "/b.png".to_string())));
    // Not square, too small, too large, not measured.
    for text in [measured(512, 256), measured(47, 47), measured(1025, 1025), String::new()] {
        assert_eq!(better_of(Host::Mac, None, "/d.png", &text), None);
    }
    // A name counts before a size.
    let best = better_of(Host::Mac, best, "/res/ic_launcher.png", &measured(72, 72));
    assert_eq!(best, Some((4168, "/res/ic_launcher.png".to_string())));
}

#[test]
fn the_search_for_an_icon_ends() {
    let mut replies = Vec::new();
    for _ in 0..200 {
        let action = match icon_source(Host::Mac, PLAIN, "/x.apk", "/t", &replies) {
            Step::Done(r) => {
                assert!(r.is_ok(), "{r:?}");
                return;
            }
            Step::Do(a) => a,
        };
        replies.push(match action {
            Action::Run(_) => ran(0, "  pixelWidth: 192\n  pixelHeight: 192\n"),
            Action::Exists(_) | Action::IsDir(_) => Reply::Answer(true),
            Action::List(d) => Reply::Entries(Some(if d.len() < 40 {
                vec![Entry { path: format!("{d}/ic_launcher.png"), is_dir: false }]
            } else {
                vec![]
            })),
            Action::Size(_) => Reply::Size(Some(1)),
            Action::Resolve(p) => Reply::Path(Some(p)),
            _ => Reply::Did(Ok(())),
        });
    }
    panic!("does not end");
}

#[test]
fn an_icon_set_is_built_of_the_picture() {
    let mut replies = Vec::new();
    let mut tools = Vec::new();
    let r = loop {
        match build_icns(Host::Mac, BADGING, "/x.apk", "/t", "/res", &replies) {
            Step::Done(r) => break r,
            Step::Do(Action::Run(c)) => {
                tools.push(c.exe);
                replies.push(ran(0, "bytes"));
            }
            Step::Do(_) => replies.push(Reply::Did(Ok(()))),
        }
        assert!(replies.len() < 100);
    };
    assert_eq!(r, Ok(true));
    assert!(tools.iter().any(|t| t == "sips"));
    assert_eq!(tools.iter().filter(|t| *t == "iconutil").count(), 1);
}
