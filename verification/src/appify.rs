//! An app bundle of the host for an app's package: its identity, its icon, and
//! the player behind it.

use crate::adb::{adb_call, AdbService};
use crate::badging::{
    extract, info_of, is_info, label_in, label_of, name_of, quoted_after, safe_name, ApkInfo,
};
use crate::config::SdkConfig;
use crate::error::{EngineError, Problem};
use crate::host::Host;
use crate::icons::{build, build_plan, icon_plan, search};
use crate::step::{checked_of, failure_of, path_of, size_of, yes, Act, Action, Plan, Reply, Step};
use crate::subprocess::{from_utf8_lossy, lossy, plain, CommandLine, Invocation};
use crate::text::{cat2, list1, list2, list3, list4, list5};
use vstd::prelude::*;

verus! {

/// What the program `tool` wrote to its first output. An end with another status
/// than zero is an error, with what it wrote to its second output.
pub open spec fn captured(tool: Seq<char>, r: Reply) -> Result<Seq<char>, Problem> {
    match r {
        Reply::Ran(Ok(out)) => if out.code == Some(0i32) {
            Ok(lossy(out.stdout@))
        } else {
            Err(
                Problem::NonZero {
                    tool,
                    status: match out.code {
                        Some(n) => n as int,
                        None => -1int,
                    },
                    output: lossy(out.stderr@),
                },
            )
        },
        Reply::Ran(Err(e)) => Err(Problem::Launch { tool, source: e@ }),
        _ => Err(Problem::Launch { tool, source: seq![] }),
    }
}

/// What the program `tool` wrote to its first output.
pub fn run_capture(tool: &str, reply: &Reply) -> (r: Result<String, EngineError>)
    ensures
        match r {
            Ok(text) => captured(tool@, *reply) == Ok::<_, Problem>(text@),
            Err(e) => captured(tool@, *reply) == Err::<Seq<char>, _>(e@),
        },
{
    match reply {
        Reply::Ran(Ok(out)) => {
            let status: i32 = match out.code {
                Some(n) => n,
                None => -1,
            };
            if out.code.is_some() && status == 0 {
                Ok(from_utf8_lossy(&out.stdout))
            } else {
                Err(
                    EngineError::NonZero {
                        tool: tool.to_owned(),
                        status,
                        output: from_utf8_lossy(&out.stderr),
                    },
                )
            }
        },
        Reply::Ran(Err(e)) => Err(
            EngineError::Launch { tool: tool.to_owned(), source: e.clone() },
        ),
        _ => {
            let source = String::new();
            assert(source@ =~= seq![]);
            Err(EngineError::Launch { tool: tool.to_owned(), source })
        },
    }
}

/// The command that reads what a package says of itself.
pub open spec fn badging_call(config: SdkConfig, apk: Seq<char>) -> Invocation {
    plain(config.aapt2_path(), seq!["dump"@, "badging"@, apk])
}

/// The command that reads what a package says of itself.
pub fn badging_command(config: &SdkConfig, apk: &str) -> (c: CommandLine)
    ensures
        c@ == badging_call(*config, apk@),
{
    CommandLine::plain(config.aapt2().as_str(), list3("dump", "badging", apk))
}

/// How it is found out what a package says of itself: the text, and the size of
/// its file. A size that cannot be told counts as zero.
pub open spec fn inspect_plan(config: SdkConfig, apk: Seq<char>, replies: Seq<Reply>) -> Plan<
    Result<(Seq<char>, int), Problem>,
> {
    if replies.len() == 0 {
        Plan::Do(Act::Exists(apk))
    } else if !yes(replies[0]) {
        Plan::Done(Err(Problem::ApkNotFound(apk)))
    } else if replies.len() == 1 {
        Plan::Do(Act::Run(badging_call(config, apk)))
    } else {
        match captured(config.aapt2_path(), replies[1]) {
            Err(e) => Plan::Done(Err(e)),
            Ok(badging) => if quoted_after(badging, "package: name='"@) is None {
                Plan::Done(Err(Problem::PackageUnresolved(apk)))
            } else if replies.len() == 2 {
                Plan::Do(Act::Size(apk))
            } else {
                Plan::Done(
                    Ok(
                        (
                            badging,
                            match size_of(replies[2]) {
                                Some(n) => n,
                                None => 0,
                            },
                        ),
                    ),
                )
            },
        }
    }
}

/// The next step of finding out what a package says of itself.
pub fn inspect(config: &SdkConfig, apk: &str, replies: &Vec<Reply>) -> (s: Step<
    Result<ApkInfo, EngineError>,
>)
    ensures
        match (s, inspect_plan(*config, apk@, replies@)) {
            (Step::Do(a), Plan::Do(b)) => a@ == b,
            (Step::Done(Ok(info)), Plan::Done(Ok((badging, size)))) => is_info(
                info,
                badging,
                size,
            ),
            (Step::Done(Err(e)), Plan::Done(Err(f))) => e@ == f,
            _ => false,
        },
{
    if replies.len() == 0 {
        return Step::Do(Action::Exists(apk.to_owned()));
    }
    if !replies[0].is_yes() {
        return Step::Done(Err(EngineError::ApkNotFound(apk.to_owned())));
    }
    if replies.len() == 1 {
        return Step::Do(Action::Run(badging_command(config, apk)));
    }
    match run_capture(config.aapt2().as_str(), &replies[1]) {
        Err(e) => Step::Done(Err(e)),
        Ok(badging) => {
            let size: u64 = if replies.len() == 2 {
                0
            } else {
                match replies[2].size() {
                    Some(n) => n,
                    None => 0,
                }
            };
            match info_of(badging.as_str(), size) {
                None => Step::Done(Err(EngineError::PackageUnresolved(apk.to_owned()))),
                Some(info) => {
                    if replies.len() == 2 {
                        return Step::Do(Action::Size(apk.to_owned()));
                    }
                    Step::Done(Ok(info))
                },
            }
        },
    }
}

/// A bundle whose player is in place.
struct Prepared {
    label: String,
    package: String,
    /// What the bundle and its program are called.
    file_name: String,
    bundle: String,
    /// What the package says of itself.
    badging: String,
    /// The app was installed in the runtime.
    installed: bool,
}

/// Where the bundle of the app `name` lies.
pub open spec fn bundle_path(host: Host, out_dir: Seq<char>, name: Seq<char>) -> Seq<char> {
    host.path(out_dir, name + ".app"@)
}

/// The package that says `badging` of itself.
pub open spec fn package_in(badging: Seq<char>) -> Seq<char> {
    quoted_after(badging, "package: name='"@)->0
}

impl Prepared {
    /// The bundle is the one in `out_dir` for a package that says `badging`.
    spec fn is_for(
        &self,
        host: Host,
        out_dir: Seq<char>,
        badging: Seq<char>,
        installed: bool,
    ) -> bool {
        &&& self.badging@ == badging
        &&& self.package@ == package_in(badging)
        &&& self.label@ == label_in(badging, package_in(badging))
        &&& self.file_name@ == bundle_name(badging)
        &&& self.bundle@ == bundle_path(host, out_dir, bundle_name(badging))
        &&& self.installed == installed
    }
}

/// What the bundle of a package is called that says `badging`.
pub open spec fn bundle_name(badging: Seq<char>) -> Seq<char> {
    name_of(label_in(badging, package_in(badging)))
}

/// The command that installs a package in the runtime.
pub open spec fn install_call(config: SdkConfig, apk: Seq<char>) -> Invocation {
    adb_call(config, seq!["install"@, "-r"@, "-g"@, apk])
}

/// Where the bundle keeps its icon.
pub open spec fn resources_dir(host: Host, bundle: Seq<char>) -> Seq<char> {
    host.path(bundle, "Contents/Resources"@)
}

/// How a bundle is begun: the package is read and installed, the directories are
/// made, and a link to the player is put into them. That the app could not be
/// installed does not count: there may be no device now.
pub open spec fn begin_plan(
    config: SdkConfig,
    apk: Seq<char>,
    out_dir: Seq<char>,
    player: Seq<char>,
    replies: Seq<Reply>,
) -> Plan<Result<(Seq<char>, bool), Problem>> {
    let n = replies.len();
    if n == 0 {
        Plan::Do(Act::Exists(apk))
    } else if !yes(replies[0]) {
        Plan::Done(Err(Problem::ApkNotFound(apk)))
    } else if n == 1 {
        Plan::Do(Act::Exists(player))
    } else if !yes(replies[1]) {
        Plan::Done(Err(Problem::SdkMissing("androlon-app binary at "@ + player)))
    } else if n == 2 {
        Plan::Do(Act::Run(badging_call(config, apk)))
    } else {
        match captured(config.aapt2_path(), replies[2]) {
            Err(e) => Plan::Done(Err(e)),
            Ok(badging) => {
                let name = bundle_name(badging);
                let bundle = bundle_path(config.host, out_dir, name);
                let macos = config.host.path(bundle, "Contents/MacOS"@);
                let exe = config.host.path(macos, name);
                if quoted_after(badging, "package: name='"@) is None {
                    Plan::Done(Err(Problem::PackageUnresolved(apk)))
                } else if n == 3 {
                    Plan::Do(Act::Run(install_call(config, apk)))
                } else if n == 4 {
                    Plan::Do(Act::MakeDir(macos))
                } else if failure_of(replies[4]) is Some {
                    Plan::Done(
                        Err(
                            Problem::Launch {
                                tool: "create bundle"@,
                                source: failure_of(replies[4])->0,
                            },
                        ),
                    )
                } else if n == 5 {
                    Plan::Do(Act::MakeDir(resources_dir(config.host, bundle)))
                } else if failure_of(replies[5]) is Some {
                    Plan::Done(
                        Err(
                            Problem::Launch {
                                tool: "create bundle"@,
                                source: failure_of(replies[5])->0,
                            },
                        ),
                    )
                } else if n == 6 {
                    Plan::Do(Act::Resolve(player))
                } else if n == 7 {
                    Plan::Do(Act::Remove(exe))
                } else if n == 8 {
                    let target = match path_of(replies[6]) {
                        Some(p) => p,
                        None => player,
                    };
                    if config.host == Host::Windows {
                        Plan::Do(Act::Copy { from: target, to: exe })
                    } else {
                        Plan::Do(Act::Link { target, at: exe })
                    }
                } else if failure_of(replies[8]) is Some {
                    Plan::Done(
                        Err(
                            Problem::Launch {
                                tool: if config.host == Host::Windows {
                                    "copy player"@
                                } else {
                                    "link player"@
                                },
                                source: failure_of(replies[8])->0,
                            },
                        ),
                    )
                } else {
                    let installed = checked_of(
                        config.host,
                        install_call(config, apk),
                        replies[3],
                    ) is Ok;
                    Plan::Done(Ok((badging, installed)))
                }
            },
        }
    }
}

/// The next step of beginning a bundle.
fn begin(
    config: &SdkConfig,
    apk: &str,
    out_dir: &str,
    player: &str,
    replies: &Vec<Reply>,
) -> (s: Step<Result<Prepared, EngineError>>)
    ensures
        match (s, begin_plan(*config, apk@, out_dir@, player@, replies@)) {
            (Step::Do(a), Plan::Do(b)) => a@ == b,
            (Step::Done(Ok(p)), Plan::Done(Ok((badging, installed)))) => p.is_for(
                config.host,
                out_dir@,
                badging,
                installed,
            ),
            (Step::Done(Err(e)), Plan::Done(Err(f))) => e@ == f,
            _ => false,
        },
{
    let n: usize = replies.len();
    if n == 0 {
        return Step::Do(Action::Exists(apk.to_owned()));
    }
    if !replies[0].is_yes() {
        return Step::Done(Err(EngineError::ApkNotFound(apk.to_owned())));
    }
    if n == 1 {
        return Step::Do(Action::Exists(player.to_owned()));
    }
    if !replies[1].is_yes() {
        return Step::Done(Err(EngineError::SdkMissing(cat2("androlon-app binary at ", player))));
    }
    if n == 2 {
        return Step::Do(Action::Run(badging_command(config, apk)));
    }
    let badging = match run_capture(config.aapt2().as_str(), &replies[2]) {
        Err(e) => {
            return Step::Done(Err(e));
        },
        Ok(badging) => badging,
    };
    let package = match extract(badging.as_str(), "package: name='") {
        None => {
            return Step::Done(Err(EngineError::PackageUnresolved(apk.to_owned())));
        },
        Some(package) => package,
    };
    let label = label_of(badging.as_str(), package.as_str());
    let file_name = safe_name(label.as_str());
    let bundle = config.host.join(out_dir, cat2(file_name.as_str(), ".app").as_str());
    let macos = config.host.join(bundle.as_str(), "Contents/MacOS");
    let exe = config.host.join(macos.as_str(), file_name.as_str());
    let install = AdbService::new(config).adb(list4("install", "-r", "-g", apk));
    if n == 3 {
        return Step::Do(Action::Run(install));
    }
    if n == 4 {
        return Step::Do(Action::MakeDir(macos));
    }
    if let Some(source) = replies[4].failure() {
        return Step::Done(Err(EngineError::Launch { tool: "create bundle".to_owned(), source }));
    }
    if n == 5 {
        return Step::Do(Action::MakeDir(config.host.join(bundle.as_str(), "Contents/Resources")));
    }
    if let Some(source) = replies[5].failure() {
        return Step::Done(Err(EngineError::Launch { tool: "create bundle".to_owned(), source }));
    }
    if n == 6 {
        return Step::Do(Action::Resolve(player.to_owned()));
    }
    if n == 7 {
        return Step::Do(Action::Remove(exe));
    }
    if n == 8 {
        let target = match replies[6].path() {
            Some(p) => p,
            None => player.to_owned(),
        };
        if config.host == Host::Windows {
            return Step::Do(Action::Copy { from: target, to: exe });
        }
        return Step::Do(Action::Link { target, at: exe });
    }
    if let Some(source) = replies[8].failure() {
        let tool = if config.host == Host::Windows {
            "copy player"
        } else {
            "link player"
        };
        return Step::Done(Err(EngineError::Launch { tool: tool.to_owned(), source }));
    }
    let installed = replies[3].ran_checked(config.host, &install).is_ok();
    Step::Done(Ok(Prepared { label, package, file_name, bundle, badging, installed }))
}

/// What the bundle says of its icon, where it has one.
pub open spec fn icon_entry(icon: bool) -> Seq<char> {
    if icon {
        "    <key>CFBundleIconFile</key>\n    <string>app</string>\n"@
    } else {
        ""@
    }
}

/// What a bundle says of itself.
pub open spec fn plist_text(
    label: Seq<char>,
    exe_name: Seq<char>,
    package: Seq<char>,
    icon: bool,
    sdk: Seq<char>,
    server: Seq<char>,
    runtimed: Seq<char>,
) -> Seq<char> {
    "<?xml version=\"1.0\" encoding=\"UTF-8\"?>\n<!DOCTYPE plist PUBLIC \"-//Apple//DTD PLIST 1.0//EN\" \"http://www.apple.com/DTDs/PropertyList-1.0.dtd\">\n<plist version=\"1.0\">\n<dict>\n    <key>CFBundleName</key>\n    <string>"@
        + label
        + "</string>\n    <key>CFBundleDisplayName</key>\n    <string>"@
        + label
        + "</string>\n    <key>CFBundleExecutable</key>\n    <string>"@
        + exe_name
        + "</string>\n    <key>CFBundleIdentifier</key>\n    <string>com.androlon.app."@
        + package
        + "</string>\n    <key>CFBundlePackageType</key>\n    <string>APPL</string>\n    <key>CFBundleShortVersionString</key>\n    <string>1.0</string>\n    <key>NSHighResolutionCapable</key>\n    <true/>\n"@
        + icon_entry(icon)
        + "    <key>LSEnvironment</key>\n    <dict>\n        <key>ANDROLON_APP</key>\n        <string>"@
        + package
        + "</string>\n        <key>APKRUN_SDK</key>\n        <string>"@
        + sdk
        + "</string>\n        <key>ANDROLON_SCRCPY_SERVER</key>\n        <string>"@
        + server
        + "</string>\n        <key>ANDROLON_RUNTIMED</key>\n        <string>"@
        + runtimed
        + "</string>\n    </dict>\n</dict>\n</plist>\n"@
}

/// What a bundle says of itself.
pub fn plist(
    label: &str,
    exe_name: &str,
    package: &str,
    icon: bool,
    sdk: &str,
    server: &str,
    runtimed: &str,
) -> (t: String)
    ensures
        t@ == plist_text(label@, exe_name@, package@, icon, sdk@, server@, runtimed@),
{
    let entry = if icon {
        "    <key>CFBundleIconFile</key>\n    <string>app</string>\n"
    } else {
        ""
    };
    let mut t = "<?xml version=\"1.0\" encoding=\"UTF-8\"?>\n<!DOCTYPE plist PUBLIC \"-//Apple//DTD PLIST 1.0//EN\" \"http://www.apple.com/DTDs/PropertyList-1.0.dtd\">\n<plist version=\"1.0\">\n<dict>\n    <key>CFBundleName</key>\n    <string>".to_owned();
    t.append(label);
    t.append("</string>\n    <key>CFBundleDisplayName</key>\n    <string>");
    t.append(label);
    t.append("</string>\n    <key>CFBundleExecutable</key>\n    <string>");
    t.append(exe_name);
    t.append("</string>\n    <key>CFBundleIdentifier</key>\n    <string>com.androlon.app.");
    t.append(package);
    t.append("</string>\n    <key>CFBundlePackageType</key>\n    <string>APPL</string>\n    <key>CFBundleShortVersionString</key>\n    <string>1.0</string>\n    <key>NSHighResolutionCapable</key>\n    <true/>\n");
    t.append(entry);
    t.append("    <key>LSEnvironment</key>\n    <dict>\n        <key>ANDROLON_APP</key>\n        <string>");
    t.append(package);
    t.append("</string>\n        <key>APKRUN_SDK</key>\n        <string>");
    t.append(sdk);
    t.append("</string>\n        <key>ANDROLON_SCRCPY_SERVER</key>\n        <string>");
    t.append(server);
    t.append("</string>\n        <key>ANDROLON_RUNTIMED</key>\n        <string>");
    t.append(runtimed);
    t.append("</string>\n    </dict>\n</dict>\n</plist>\n");
    t
}

/// What a bundle was made of.
#[derive(Debug)]
pub struct AppifyOutcome {
    pub label: String,
    pub package: String,
    pub bundle: String,
    /// The app was installed in the runtime; otherwise there was no device.
    pub installed: bool,
    /// The bundle has an icon of its own.
    pub icon: bool,
}

/// The program that makes bundles known to the system.
pub open spec fn register_tool() -> Seq<char> {
    "/System/Library/Frameworks/CoreServices.framework/Frameworks/LaunchServices.framework/Support/lsregister"@
}

/// Where the streaming server lies, where the environment does not say it.
pub open spec fn server_path(named: Option<&str>) -> Seq<char> {
    match named {
        Some(p) => p@,
        None => "vendor/scrcpy-server"@,
    }
}

/// What the path was resolved to, or the path where it could not be.
pub open spec fn resolved(r: Reply, path: Seq<char>) -> Seq<char> {
    match path_of(r) {
        Some(p) => p,
        None => path,
    }
}

/// How the bundle of a package that says `badging` is finished: what it says of
/// itself is written, and the system is told of it. What comes of the last three
/// programs does not count.
pub open spec fn finish_plan(
    config: SdkConfig,
    badging: Seq<char>,
    out_dir: Seq<char>,
    player: Seq<char>,
    server: Seq<char>,
    icon: bool,
    replies: Seq<Reply>,
) -> Plan<Result<(), Problem>> {
    let name = bundle_name(badging);
    let bundle = bundle_path(config.host, out_dir, name);
    let n = replies.len();
    if n == 0 {
        Plan::Do(Act::Resolve(config.sdk_root@))
    } else if n == 1 {
        Plan::Do(Act::Resolve(server))
    } else if n == 2 {
        Plan::Do(
            Act::Write {
                path: config.host.path(bundle, "Contents/Info.plist"@),
                text: plist_text(
                    label_in(badging, package_in(badging)),
                    name,
                    package_in(badging),
                    icon,
                    resolved(replies[0], config.sdk_root@),
                    resolved(replies[1], server),
                    config.host.sibling(player, "androlon-runtimed"@),
                ),
            },
        )
    } else if failure_of(replies[2]) is Some {
        Plan::Done(
            Err(Problem::Launch { tool: "write plist"@, source: failure_of(replies[2])->0 }),
        )
    } else if n == 3 {
        Plan::Do(
            Act::Run(plain("codesign"@, seq!["--force"@, "--deep"@, "-s"@, "-"@, bundle])),
        )
    } else if n == 4 {
        Plan::Do(Act::Run(plain("touch"@, seq![bundle])))
    } else if n == 5 {
        Plan::Do(Act::Run(plain(register_tool(), seq!["-f"@, bundle])))
    } else {
        Plan::Done(Ok(()))
    }
}

fn resolve(r: &Reply, path: &str) -> (t: String)
    ensures
        t@ == resolved(*r, path@),
{
    match r.path() {
        Some(p) => p,
        None => path.to_owned(),
    }
}

/// `o` is what came of making the bundle in `out_dir` of a package that says
/// `badging`.
pub open spec fn is_outcome(
    o: AppifyOutcome,
    host: Host,
    out_dir: Seq<char>,
    badging: Seq<char>,
    installed: bool,
    icon: bool,
) -> bool {
    &&& o.package@ == package_in(badging)
    &&& o.label@ == label_in(badging, package_in(badging))
    &&& o.bundle@ == bundle_path(host, out_dir, bundle_name(badging))
    &&& o.installed == installed
    &&& o.icon == icon
}

/// The next step of finishing a bundle, where the replies for it begin at `from`.
/// `named` is the streaming server that the environment names, `icon` says
/// whether an icon was made for the bundle.
fn finish(
    config: &SdkConfig,
    p: &Prepared,
    player: &str,
    named: Option<&str>,
    icon: bool,
    replies: &Vec<Reply>,
    from: usize,
    Ghost(out_dir): Ghost<Seq<char>>,
) -> (s: Step<Result<AppifyOutcome, EngineError>>)
    requires
        from <= replies.len(),
        p.is_for(config.host, out_dir, p.badging@, p.installed),
    ensures
        match (
            s,
            finish_plan(
                *config,
                p.badging@,
                out_dir,
                player@,
                server_path(named),
                icon,
                replies@.skip(from as int),
            ),
        ) {
            (Step::Do(a), Plan::Do(b)) => a@ == b,
            (Step::Done(Ok(o)), Plan::Done(Ok(_))) => is_outcome(
                o,
                config.host,
                out_dir,
                p.badging@,
                p.installed,
                icon,
            ),
            (Step::Done(Err(e)), Plan::Done(Err(f))) => e@ == f,
            _ => false,
        },
{
    let n: usize = replies.len() - from;
    let server = match named {
        Some(path) => path,
        None => "vendor/scrcpy-server",
    };
    if n == 0 {
        return Step::Do(Action::Resolve(config.sdk_root.clone()));
    }
    if n == 1 {
        return Step::Do(Action::Resolve(server.to_owned()));
    }
    if n == 2 {
        let sdk = resolve(&replies[from], config.sdk_root.as_str());
        let jar = resolve(&replies[from + 1], server);
        let runtimed = config.host.with_file_name(player, "androlon-runtimed");
        return Step::Do(
            Action::Write {
                path: config.host.join(p.bundle.as_str(), "Contents/Info.plist"),
                text: plist(
                    p.label.as_str(),
                    p.file_name.as_str(),
                    p.package.as_str(),
                    icon,
                    sdk.as_str(),
                    jar.as_str(),
                    runtimed.as_str(),
                ),
            },
        );
    }
    if let Some(source) = replies[from + 2].failure() {
        return Step::Done(Err(EngineError::Launch { tool: "write plist".to_owned(), source }));
    }
    if n == 3 {
        return Step::Do(
            Action::Run(
                CommandLine::plain(
                    "codesign",
                    list5("--force", "--deep", "-s", "-", p.bundle.as_str()),
                ),
            ),
        );
    }
    if n == 4 {
        return Step::Do(Action::Run(CommandLine::plain("touch", list1(p.bundle.as_str()))));
    }
    if n == 5 {
        return Step::Do(
            Action::Run(
                CommandLine::plain(
                    "/System/Library/Frameworks/CoreServices.framework/Frameworks/LaunchServices.framework/Support/lsregister",
                    list2("-f", p.bundle.as_str()),
                ),
            ),
        );
    }
    Step::Done(
        Ok(
            AppifyOutcome {
                label: p.label.clone(),
                package: p.package.clone(),
                bundle: p.bundle.clone(),
                installed: p.installed,
                icon,
            },
        ),
    )
}

/// How a bundle is made of the package `apk`: it is begun, an icon is made for
/// it, in the directory `tmp`, and it is finished. An icon that could not be
/// made counts as none. It ends with what the package says of itself, whether
/// the app was installed, and whether there is an icon.
pub open spec fn appify_plan(
    config: SdkConfig,
    apk: Seq<char>,
    out_dir: Seq<char>,
    player: Seq<char>,
    tmp: Seq<char>,
    server: Seq<char>,
    replies: Seq<Reply>,
) -> Plan<Result<(Seq<char>, bool, bool), Problem>> {
    match begin_plan(config, apk, out_dir, player, replies) {
        Plan::Do(a) => Plan::Do(a),
        Plan::Done(Err(e)) => Plan::Done(Err(e)),
        Plan::Done(Ok((badging, installed))) => {
            let bundle = bundle_path(config.host, out_dir, bundle_name(badging));
            match build_plan(
                config.host,
                badging,
                apk,
                tmp,
                resources_dir(config.host, bundle),
                replies.skip(9),
            ) {
                Plan::Do(a) => Plan::Do(a),
                Plan::Done((built, rest)) => {
                    let icon = built matches Ok(there) && there;
                    match finish_plan(config, badging, out_dir, player, server, icon, rest) {
                        Plan::Do(a) => Plan::Do(a),
                        Plan::Done(Err(e)) => Plan::Done(Err(e)),
                        Plan::Done(Ok(_)) => Plan::Done(Ok((badging, installed, icon))),
                    }
                },
            }
        },
    }
}

/// The next step of making a bundle of the package `apk` in `out_dir`. `player`
/// is the program behind it, `tmp` a directory for what is taken out of the
/// package, and `named` the streaming server that the environment names.
pub fn appify(
    config: &SdkConfig,
    apk: &str,
    out_dir: &str,
    player: &str,
    tmp: &str,
    named: Option<&str>,
    replies: &Vec<Reply>,
) -> (s: Step<Result<AppifyOutcome, EngineError>>)
    ensures
        match (
            s,
            appify_plan(
                *config,
                apk@,
                out_dir@,
                player@,
                tmp@,
                server_path(named),
                replies@,
            ),
        ) {
            (Step::Do(a), Plan::Do(b)) => a@ == b,
            (Step::Done(Ok(o)), Plan::Done(Ok((badging, installed, icon)))) => is_outcome(
                o,
                config.host,
                out_dir@,
                badging,
                installed,
                icon,
            ),
            (Step::Done(Err(e)), Plan::Done(Err(f))) => e@ == f,
            _ => false,
        },
{
    let p = match begin(config, apk, out_dir, player, replies) {
        Step::Do(a) => {
            return Step::Do(a);
        },
        Step::Done(Err(e)) => {
            return Step::Done(Err(e));
        },
        Step::Done(Ok(p)) => p,
    };
    let res_dir = config.host.join(p.bundle.as_str(), "Contents/Resources");
    match build(config.host, p.badging.as_str(), apk, tmp, res_dir.as_str(), replies, 9) {
        Step::Do(a) => Step::Do(a),
        Step::Done((built, at)) => {
            let icon = match built {
                Ok(there) => there,
                Err(_) => false,
            };
            finish(config, &p, player, named, icon, replies, at, Ghost(out_dir@))
        },
    }
}

/// How the icon of the package `apk` is copied to `dest`, by way of the directory
/// `tmp`. No icon is no error, but that the search failed is one.
pub open spec fn extract_plan(
    config: SdkConfig,
    apk: Seq<char>,
    tmp: Seq<char>,
    dest: Seq<char>,
    replies: Seq<Reply>,
) -> Plan<Result<bool, Problem>> {
    if replies.len() == 0 {
        Plan::Do(Act::Run(badging_call(config, apk)))
    } else {
        match captured(config.aapt2_path(), replies[0]) {
            Err(e) => Plan::Done(Err(e)),
            Ok(badging) => match icon_plan(config.host, badging, apk, tmp, replies.skip(1)) {
                Plan::Do(a) => Plan::Do(a),
                Plan::Done((Err(e), _)) => Plan::Done(
                    Err(Problem::Launch { tool: "extract icon"@, source: e }),
                ),
                Plan::Done((Ok(None), _)) => Plan::Done(Ok(false)),
                Plan::Done((Ok(Some(src)), rest)) => if rest.len() == 0 {
                    Plan::Do(Act::Copy { from: src, to: dest })
                } else if failure_of(rest[0]) is Some {
                    Plan::Done(
                        Err(Problem::Launch { tool: "copy icon"@, source: failure_of(rest[0])->0 }),
                    )
                } else {
                    Plan::Done(Ok(true))
                },
            },
        }
    }
}

/// The next step of copying the icon of the package `apk` to `dest`. It ends
/// with whether the package has one.
pub fn extract_icon(
    config: &SdkConfig,
    apk: &str,
    tmp: &str,
    dest: &str,
    replies: &Vec<Reply>,
) -> (s: Step<Result<bool, EngineError>>)
    ensures
        match (s, extract_plan(*config, apk@, tmp@, dest@, replies@)) {
            (Step::Do(a), Plan::Do(b)) => a@ == b,
            (Step::Done(Ok(a)), Plan::Done(Ok(b))) => a == b,
            (Step::Done(Err(e)), Plan::Done(Err(f))) => e@ == f,
            _ => false,
        },
{
    if replies.len() == 0 {
        return Step::Do(Action::Run(badging_command(config, apk)));
    }
    let badging = match run_capture(config.aapt2().as_str(), &replies[0]) {
        Err(e) => {
            return Step::Done(Err(e));
        },
        Ok(badging) => badging,
    };
    match search(config.host, badging.as_str(), apk, tmp, replies, 1) {
        Step::Do(a) => Step::Do(a),
        Step::Done((Err(source), _)) => Step::Done(
            Err(EngineError::Launch { tool: "extract icon".to_owned(), source }),
        ),
        Step::Done((Ok(None), _)) => Step::Done(Ok(false)),
        Step::Done((Ok(Some(src)), at)) => {
            if at == replies.len() {
                return Step::Do(Action::Copy { from: src, to: dest.to_owned() });
            }
            match replies[at].failure() {
                Some(source) => Step::Done(
                    Err(EngineError::Launch { tool: "copy icon".to_owned(), source }),
                ),
                None => Step::Done(Ok(true)),
            }
        },
    }
}

/// The program of a bundle lies in it, and its name holds nothing that leads out
/// of it, on no host; the name is neither empty nor hidden.
pub proof fn bundle_stays_in_its_place(host: Host, badging: Seq<char>)
    ensures
        forall|i: int|
            0 <= i < bundle_name(badging).len() ==> !host.separates(
                #[trigger] bundle_name(badging)[i],
            ) && bundle_name(badging)[i] != ':',
        bundle_name(badging).len() > 0,
        bundle_name(badging)[0] != '.',
{
    let label = label_in(badging, package_in(badging));
    crate::badging::names_are_harmless(label);
    crate::badging::names_are_visible(label);
    let name = bundle_name(badging);
    assert forall|i: int| 0 <= i < name.len() implies !host.separates(#[trigger] name[i]) && name[i]
        != ':' by {
        assert(crate::badging::harmless(name[i]));
    }
}

/// A bundle that is made says whether its app was installed: it was exactly
/// where the command for that ended well. The command is the one for the package
/// that the bundle is of.
pub proof fn a_bundle_says_whether_it_was_installed(
    config: SdkConfig,
    apk: Seq<char>,
    out_dir: Seq<char>,
    player: Seq<char>,
    tmp: Seq<char>,
    server: Seq<char>,
    replies: Seq<Reply>,
)
    ensures
        appify_plan(config, apk, out_dir, player, tmp, server, replies) matches Plan::Done(
            Ok((badging, installed, icon)),
        ) ==> {
            &&& replies.len() > 9
            &&& installed <==> crate::step::ran_well(replies[3])
            &&& appify_plan(config, apk, out_dir, player, tmp, server, replies.take(3)) matches Plan::Do(
                Act::Run(c),
            )
            &&& c.exe == config.adb_path()
            &&& c.args == seq!["install"@, "-r"@, "-g"@, apk]
        },
        begin_plan(config, apk, out_dir, player, replies) matches Plan::Done(
            Ok((badging, installed)),
        ) ==> (installed <==> crate::step::ran_well(replies[3])),
{
    let first = replies.take(3);
    if replies.len() > 3 {
        assert(first[0] == replies[0] && first[1] == replies[1] && first[2] == replies[2]);
    }
}

/// What a bundle is made of: the package is there, and the player that it runs,
/// and the package's tool ended well and named a package. What was said of the
/// package is what the tool wrote to its first output. Where one of these fails,
/// nothing is made, and the error names what is missing.
pub proof fn a_bundle_needs_its_package_and_its_player(
    config: SdkConfig,
    apk: Seq<char>,
    out_dir: Seq<char>,
    player: Seq<char>,
    replies: Seq<Reply>,
)
    ensures
        begin_plan(config, apk, out_dir, player, replies) matches Plan::Done(Ok((badging, _))) ==> {
            &&& replies.len() >= 9
            &&& replies[0] == Reply::Answer(true)
            &&& replies[1] == Reply::Answer(true)
            &&& replies[2] matches Reply::Ran(Ok(out))
            &&& out.code == Some(0i32)
            &&& badging == lossy(out.stdout@)
            &&& quoted_after(badging, "package: name='"@) is Some
            &&& crate::step::was_done(replies[4])
            &&& crate::step::was_done(replies[5])
            &&& crate::step::was_done(replies[8])
        },
        replies.len() == 0 ==> begin_plan(config, apk, out_dir, player, replies) == Plan::<
            Result<(Seq<char>, bool), Problem>,
        >::Do(Act::Exists(apk)),
        replies.len() > 0 && replies[0] == Reply::Answer(false) ==> begin_plan(
            config,
            apk,
            out_dir,
            player,
            replies,
        ) == Plan::Done(Err::<(Seq<char>, bool), Problem>(Problem::ApkNotFound(apk))),
        replies.len() == 1 && replies[0] == Reply::Answer(true) ==> begin_plan(
            config,
            apk,
            out_dir,
            player,
            replies,
        ) == Plan::<Result<(Seq<char>, bool), Problem>>::Do(Act::Exists(player)),
        replies.len() > 1 && replies[0] == Reply::Answer(true) && replies[1] == Reply::Answer(false)
            ==> (begin_plan(config, apk, out_dir, player, replies) matches Plan::Done(
            Err(Problem::SdkMissing(what)),
        ) && what == "androlon-app binary at "@ + player),
        replies.len() == 2 && replies[0] == Reply::Answer(true) && replies[1] == Reply::Answer(true)
            ==> (begin_plan(config, apk, out_dir, player, replies) matches Plan::Do(Act::Run(c))
            && c.exe == config.aapt2_path() && c.args == seq!["dump"@, "badging"@, apk]),
{
}

/// The directories and the program of a bundle lie in the bundle: the program
/// under the name of the bundle, and what was there before it is removed first.
/// The program is a link to the player, and a copy where there are no links.
pub proof fn a_bundle_holds_its_program(
    config: SdkConfig,
    apk: Seq<char>,
    out_dir: Seq<char>,
    player: Seq<char>,
    replies: Seq<Reply>,
)
    requires
        begin_plan(config, apk, out_dir, player, replies) is Do,
        replies.len() >= 4,
    ensures
        ({
            let badging = lossy(replies[2]->Ran_0->Ok_0.stdout@);
            let name = bundle_name(badging);
            let bundle = config.host.path(out_dir, name + ".app"@);
            let program = config.host.path(config.host.path(bundle, "Contents/MacOS"@), name);
            let a = begin_plan(config, apk, out_dir, player, replies)->Do_0;
            &&& replies.len() <= 8
            &&& replies.len() == 4 ==> a == Act::MakeDir(
                config.host.path(bundle, "Contents/MacOS"@),
            )
            &&& replies.len() == 5 ==> a == Act::MakeDir(
                config.host.path(bundle, "Contents/Resources"@),
            )
            &&& replies.len() == 6 ==> a == Act::Resolve(player)
            &&& replies.len() == 7 ==> a == Act::Remove(program)
            &&& replies.len() == 8 ==> ({
                let behind = match replies[6] {
                    Reply::Path(Some(p)) => p@,
                    _ => player,
                };
                if config.host is Windows {
                    a == Act::Copy { from: behind, to: program }
                } else {
                    a == Act::Link { target: behind, at: program }
                }
            })
        }),
{
}

/// What a bundle says of itself is written into it, and names its own package,
/// program and icon; a bundle whose writing failed is not made. The system is
/// then told of that bundle by three programs, and what comes of those does not
/// count.
pub proof fn a_bundle_is_written_and_told_of(
    config: SdkConfig,
    badging: Seq<char>,
    out_dir: Seq<char>,
    player: Seq<char>,
    server: Seq<char>,
    icon: bool,
    replies: Seq<Reply>,
)
    ensures
        ({
            let p = finish_plan(config, badging, out_dir, player, server, icon, replies);
            let n = replies.len();
            let bundle = config.host.path(out_dir, bundle_name(badging) + ".app"@);
            let good = n > 2 ==> crate::step::was_done(replies[2]);
            &&& (p matches Plan::Done(Ok(_))) <==> n >= 6 && good
            &&& p matches Plan::Done(Err(e)) ==> !good
            &&& n == 0 ==> (p matches Plan::Do(a) && a == Act::Resolve(config.sdk_root@))
            &&& n == 1 ==> (p matches Plan::Do(a) && a == Act::Resolve(server))
            &&& n == 2 ==> (p matches Plan::Do(Act::Write { path, text }) && path
                == config.host.path(bundle, "Contents/Info.plist"@))
            &&& n == 3 && good ==> (p matches Plan::Do(Act::Run(c)) && c.exe == "codesign"@
                && c.args == seq!["--force"@, "--deep"@, "-s"@, "-"@, bundle])
            &&& n == 4 && good ==> (p matches Plan::Do(Act::Run(c)) && c.exe == "touch"@ && c.args
                == seq![bundle])
            &&& n == 5 && good ==> (p matches Plan::Do(Act::Run(c)) && c.args == seq!["-f"@, bundle])
            &&& n > 2 ==> (replies[2] matches Reply::Did(Err(e)) ==> (p matches Plan::Done(
                Err(Problem::Launch { tool, source }),
            ) && tool == "write plist"@ && source == e@))
        }),
{
}

/// A package that was looked into is there and was read: what was said of it is
/// what its tool wrote, where that ended well and named a package; its size is
/// what the system says, and zero where it says none.
pub proof fn looking_into_a_package_reads_it(config: SdkConfig, apk: Seq<char>, replies: Seq<Reply>)
    ensures
        inspect_plan(config, apk, replies) matches Plan::Done(Ok((badging, size))) ==> {
            &&& replies.len() >= 3
            &&& replies[0] == Reply::Answer(true)
            &&& replies[1] matches Reply::Ran(Ok(out))
            &&& out.code == Some(0i32)
            &&& badging == lossy(out.stdout@)
            &&& quoted_after(badging, "package: name='"@) is Some
            &&& size == match replies[2] {
                Reply::Size(Some(n)) => n as int,
                _ => 0,
            }
        },
        replies.len() >= 3 && replies[0] == Reply::Answer(true) ==> (replies[1] matches Reply::Ran(
            Ok(out),
        ) ==> out.code == Some(0i32) && quoted_after(lossy(out.stdout@), "package: name='"@) is Some
            ==> (inspect_plan(config, apk, replies) matches Plan::Done(Ok(_)))),
        replies.len() == 1 && replies[0] == Reply::Answer(true) ==> (inspect_plan(
            config,
            apk,
            replies,
        ) matches Plan::Do(Act::Run(c)) && c.exe == config.aapt2_path() && c.args == seq![
            "dump"@,
            "badging"@,
            apk,
        ]),
        replies.len() > 0 && replies[0] == Reply::Answer(false) ==> inspect_plan(config, apk, replies)
            == Plan::Done(Err::<(Seq<char>, int), Problem>(Problem::ApkNotFound(apk))),
{
}

/// A program whose output is read has to end well; what is said of one that did
/// not is its status, or one below zero where it had none, and what it wrote to
/// its second output.
pub proof fn only_good_output_is_read(tool: Seq<char>, r: Reply)
    ensures
        captured(tool, r) is Ok <==> crate::step::ran_well(r),
        captured(tool, r) matches Ok(text) ==> text == lossy(r->Ran_0->Ok_0.stdout@),
        r matches Reply::Ran(Ok(out)) ==> (out.code matches Some(n) ==> n != 0 ==> captured(tool, r)
            == Err::<Seq<char>, Problem>(
            Problem::NonZero { tool, status: n as int, output: lossy(out.stderr@) },
        )),
        r matches Reply::Ran(Ok(out)) ==> out.code is None ==> captured(tool, r) == Err::<
            Seq<char>,
            Problem,
        >(Problem::NonZero { tool, status: -1, output: lossy(out.stderr@) }),
        r matches Reply::Ran(Err(e)) ==> captured(tool, r) == Err::<Seq<char>, Problem>(
            Problem::Launch { tool, source: e@ },
        ),
{
}

/// The icon of a package is copied to where it is asked for exactly where one was
/// found and the copy could be made; a package without an icon is no error, and one
/// that cannot be read is.
pub proof fn a_found_icon_is_copied(
    config: SdkConfig,
    apk: Seq<char>,
    tmp: Seq<char>,
    dest: Seq<char>,
    replies: Seq<Reply>,
)
    ensures
        ({
            let p = extract_plan(config, apk, tmp, dest, replies);
            &&& replies.len() == 0 ==> (p matches Plan::Do(Act::Run(c)) && c.exe
                == config.aapt2_path() && c.args == seq!["dump"@, "badging"@, apk])
            &&& replies.len() > 0 && !crate::step::ran_well(replies[0]) ==> (p matches Plan::Done(
                Err(_),
            ))
            &&& replies.len() > 0 && crate::step::ran_well(replies[0]) ==> (icon_plan(
                config.host,
                lossy(replies[0]->Ran_0->Ok_0.stdout@),
                apk,
                tmp,
                replies.skip(1),
            ) matches Plan::Done((found, rest)) ==> match found {
                Err(e) => p == Plan::Done(
                    Err::<bool, Problem>(Problem::Launch { tool: "extract icon"@, source: e }),
                ),
                Ok(None) => p == Plan::Done(Ok::<bool, Problem>(false)),
                Ok(Some(icon)) => {
                    &&& rest.len() == 0 ==> (p matches Plan::Do(a) && a == Act::Copy {
                        from: icon,
                        to: dest,
                    })
                    &&& rest.len() > 0 && crate::step::was_done(rest[0]) ==> p == Plan::Done(
                        Ok::<bool, Problem>(true),
                    )
                    &&& rest.len() > 0 ==> (rest[0] matches Reply::Did(Err(e)) ==> p == Plan::Done(
                        Err::<bool, Problem>(Problem::Launch { tool: "copy icon"@, source: e@ }),
                    ))
                },
            })
        }),
{
}

/// What a bundle says of itself is written from what the package says, and from
/// where things lie: the SDK, the streaming server and the daemon, each in its own
/// place, and resolved where it could be.
pub proof fn a_bundle_says_where_things_lie(
    config: SdkConfig,
    badging: Seq<char>,
    out_dir: Seq<char>,
    player: Seq<char>,
    server: Seq<char>,
    icon: bool,
    replies: Seq<Reply>,
)
    requires
        replies.len() == 2,
    ensures
        finish_plan(config, badging, out_dir, player, server, icon, replies) matches Plan::Do(
            Act::Write { path, text },
        ) && text == plist_text(
            label_in(badging, quoted_after(badging, "package: name='"@)->0),
            name_of(label_in(badging, quoted_after(badging, "package: name='"@)->0)),
            quoted_after(badging, "package: name='"@)->0,
            icon,
            match replies[0] {
                Reply::Path(Some(p)) => p@,
                _ => config.sdk_root@,
            },
            match replies[1] {
                Reply::Path(Some(p)) => p@,
                _ => server,
            },
            config.host.sibling(player, "androlon-runtimed"@),
        ),
{
}

/// A bundle has an icon exactly where one could be made of what was found, and one
/// that could not does not keep the bundle from being made.
pub proof fn a_bundle_says_whether_it_has_an_icon(
    config: SdkConfig,
    apk: Seq<char>,
    out_dir: Seq<char>,
    player: Seq<char>,
    tmp: Seq<char>,
    server: Seq<char>,
    replies: Seq<Reply>,
)
    ensures
        appify_plan(config, apk, out_dir, player, tmp, server, replies) matches Plan::Done(
            Ok((badging, _, icon)),
        ) ==> (build_plan(
            config.host,
            badging,
            apk,
            tmp,
            config.host.path(
                config.host.path(out_dir, bundle_name(badging) + ".app"@),
                "Contents/Resources"@,
            ),
            replies.skip(9),
        ) matches Plan::Done((built, rest)) && (icon <==> built == Ok::<bool, Seq<char>>(true))),
{
}

/// A bundle whose parts could not be made is not, and the error says which part and
/// what the system said.
pub proof fn a_failed_part_fails_the_bundle(
    config: SdkConfig,
    apk: Seq<char>,
    out_dir: Seq<char>,
    player: Seq<char>,
    replies: Seq<Reply>,
    at: int,
    e: String,
)
    requires
        begin_plan(config, apk, out_dir, player, replies.take(at)) is Do,
        4 <= at < replies.len(),
        at == 4 || at == 5 || at == 8,
        replies[at] == Reply::Did(Err(e)),
    ensures
        begin_plan(config, apk, out_dir, player, replies) == Plan::Done(
            Err::<(Seq<char>, bool), Problem>(
                Problem::Launch {
                    tool: if at < 8 {
                        "create bundle"@
                    } else if config.host is Windows {
                        "copy player"@
                    } else {
                        "link player"@
                    },
                    source: e@,
                },
            ),
        ),
{
    let first = replies.take(at);
    assert(forall|i: int| 0 <= i < at ==> first[i] == replies[i]);
    assert(first[0] == replies[0] && first[1] == replies[1] && first[2] == replies[2]);
    if at == 5 {
        assert(first[4] == replies[4]);
    }
    if at == 8 {
        assert(first[4] == replies[4] && first[5] == replies[5]);
    }
}

} // verus!
