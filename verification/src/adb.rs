//! The device as `adb` sees it: its state, its root, its apps.

use crate::config::SdkConfig;
use crate::error::{EngineError, Problem};
use crate::model::RootStatus;
use crate::number::{dec, decimal};
use crate::step::{
    is_plan, is_some_text, is_text, is_try, once, once_checked, outcome_of, output_of, run_once,
    run_once_checked, yes, Act, Action, Plan, Reply, Step,
};
use crate::subprocess::{lossy, CommandLine, Invocation};
use crate::text::{
    contains, includes, lines, list1, list2, list3, list4, list6, list7, same, text_lines, trim,
    trimmed, views,
};
use vstd::prelude::*;

verus! {

/// A tool of the SDK with `args`, in the environment that it expects.
pub open spec fn tool_call(config: SdkConfig, exe: Seq<char>, args: Seq<Seq<char>>) -> Invocation {
    Invocation { exe, args, extra_path: config.tool_paths(), env: config.tool_settings() }
}

/// `adb` with `args`.
pub open spec fn adb_call(config: SdkConfig, args: Seq<Seq<char>>) -> Invocation {
    tool_call(config, config.adb_path(), args)
}

/// A command of the device's shell.
pub open spec fn shell_call(config: SdkConfig, args: Seq<Seq<char>>) -> Invocation {
    adb_call(config, seq!["shell"@] + args)
}

/// A tool of the SDK with `args`, in the environment that it expects.
pub(crate) fn tool_command(config: &SdkConfig, exe: String, args: Vec<String>) -> (c: CommandLine)
    ensures
        c@ == tool_call(*config, exe@, views(args@)),
{
    CommandLine { exe, args, extra_path: config.tool_dirs(), env: config.tool_env() }
}

/// The reply says that a device is there: its state is `device`.
pub open spec fn online(r: Reply) -> bool {
    output_of(r) matches Some(text) && trim(text) == "device"@
}

/// How the root state is found out: nothing is asked of a device that is not
/// there; a `su` that apps can see counts before a shell with root.
pub open spec fn root_plan(config: SdkConfig, replies: Seq<Reply>) -> Plan<RootStatus> {
    if replies.len() == 0 {
        Plan::Do(Act::Run(adb_call(config, seq!["get-state"@])))
    } else if !online(replies[0]) {
        Plan::Done(RootStatus::NoRoot)
    } else if replies.len() == 1 {
        Plan::Do(Act::Run(shell_call(config, seq!["su"@, "-c"@, "id"@])))
    } else if output_of(replies[1]) matches Some(su) && contains(trim(su), "uid=0"@) {
        Plan::Done(RootStatus::Magisk)
    } else if replies.len() == 2 {
        Plan::Do(Act::Run(shell_call(config, seq!["id"@, "-u"@])))
    } else if output_of(replies[2]) matches Some(uid) && trim(uid) == "0"@ {
        Plan::Done(RootStatus::Adbd)
    } else {
        Plan::Done(RootStatus::NoRoot)
    }
}

/// How the daemon of the device gets root: an image that cannot be rooted is
/// left alone.
pub open spec fn enable_root_plan(config: SdkConfig, replies: Seq<Reply>) -> Plan<
    Result<(), Problem>,
> {
    let root = adb_call(config, seq!["root"@]);
    let wait = adb_call(config, seq!["wait-for-device"@]);
    if !config.rootable() {
        Plan::Done(Err(Problem::NotRootable(config.image_type@)))
    } else if replies.len() == 0 {
        Plan::Do(Act::Run(root))
    } else {
        match outcome_of(config.host, root, replies[0]) {
            Err(e) => Plan::Done(Err(e)),
            Ok(_) => run_once(config.host, wait, replies.skip(1)),
        }
    }
}

/// How the name of a package is found out: it is empty where the tool for it
/// is not there or cannot be launched.
pub open spec fn package_plan(config: SdkConfig, apk: Seq<char>, replies: Seq<Reply>) -> Plan<
    Seq<char>,
> {
    if replies.len() == 0 {
        Plan::Do(Act::IsExecutable(config.aapt2_path()))
    } else if !yes(replies[0]) {
        Plan::Done(seq![])
    } else if replies.len() == 1 {
        Plan::Do(
            Act::Run(
                tool_call(config, config.aapt2_path(), seq!["dump"@, "packagename"@, apk]),
            ),
        )
    } else {
        Plan::Done(
            match output_of(replies[1]) {
                Some(text) => trim(text),
                None => seq![],
            },
        )
    }
}

/// The component that the output names: its last line, where that has a slash.
pub open spec fn component_in(output: Seq<char>) -> Option<Seq<char>> {
    let all = lines(trim(output));
    if all.len() > 0 && contains(trim(all.last()), "/"@) {
        Some(trim(all.last()))
    } else {
        None
    }
}

/// How the entry point of the package `pkg` is found out.
pub open spec fn component_plan(config: SdkConfig, pkg: Seq<char>, replies: Seq<Reply>) -> Plan<
    Option<Seq<char>>,
> {
    if replies.len() == 0 {
        Plan::Do(
            Act::Run(
                shell_call(
                    config,
                    seq![
                        "cmd"@,
                        "package"@,
                        "resolve-activity"@,
                        "--brief"@,
                        "-c"@,
                        "android.intent.category.LAUNCHER"@,
                        pkg,
                    ],
                ),
            ),
        )
    } else {
        Plan::Done(
            match output_of(replies[0]) {
                Some(text) => component_in(text),
                None => None,
            },
        )
    }
}

/// What starts `component`, on the display `display` where there is one.
pub open spec fn start_args(component: Seq<char>, display: Option<u32>) -> Seq<Seq<char>> {
    match display {
        None => seq!["am"@, "start"@, "-n"@, component],
        Some(d) => seq!["am"@, "start"@, "-n"@, component, "--display"@, dec(d as int)],
    }
}

/// The component that the output names.
pub fn find_component(output: &str) -> (r: Option<String>)
    ensures
        crate::step::text_of(r) == component_in(output@),
{
    let all = text_lines(trimmed(output).as_str());
    if all.len() == 0 {
        return None;
    }
    assert(views(all@).last() == all@.last()@);
    let line = trimmed(all[all.len() - 1].as_str());
    if includes(line.as_str(), "/") {
        Some(line)
    } else {
        None
    }
}

/// The device as `adb` sees it.
pub struct AdbService<'a> {
    pub config: &'a SdkConfig,
}

impl<'a> AdbService<'a> {
    pub fn new(config: &'a SdkConfig) -> (r: AdbService<'a>)
        ensures
            r.config == config,
    {
        AdbService { config }
    }

    /// The command that runs `adb` with `args`.
    pub fn adb(&self, args: Vec<String>) -> (c: CommandLine)
        ensures
            c@ == adb_call(*self.config, views(args@)),
    {
        tool_command(self.config, self.config.adb(), args)
    }

    /// The command that runs `args` in the device's shell.
    pub fn shell(&self, args: Vec<String>) -> (c: CommandLine)
        ensures
            c@ == shell_call(*self.config, views(args@)),
    {
        let mut full = list1("shell");
        let mut rest = args;
        let ghost all = views(full@) + views(rest@);
        full.append(&mut rest);
        assert(views(full@) =~= all);
        tool_command(self.config, self.config.adb(), full)
    }

    /// Whether the reply to `get-state` says that a device is there.
    pub fn device_online(&self, reply: &Reply) -> (r: bool)
        ensures
            r == online(*reply),
    {
        match reply.output() {
            Some(text) => same(trimmed(text.as_str()).as_str(), "device"),
            None => false,
        }
    }

    /// The next step of finding out the root state, where the replies for it
    /// begin at `from`.
    pub fn root_status_from(&self, replies: &Vec<Reply>, from: usize) -> (s: Step<RootStatus>)
        requires
            from <= replies.len(),
        ensures
            is_plan(s, root_plan(*self.config, replies@.skip(from as int))),
    {
        let n: usize = replies.len() - from;
        if n == 0 {
            return Step::Do(Action::Run(self.adb(list1("get-state"))));
        }
        if !self.device_online(&replies[from]) {
            return Step::Done(RootStatus::NoRoot);
        }
        if n == 1 {
            return Step::Do(Action::Run(self.shell(list3("su", "-c", "id"))));
        }
        if let Some(su) = replies[from + 1].output() {
            if includes(trimmed(su.as_str()).as_str(), "uid=0") {
                return Step::Done(RootStatus::Magisk);
            }
        }
        if n == 2 {
            return Step::Do(Action::Run(self.shell(list2("id", "-u"))));
        }
        if let Some(uid) = replies[from + 2].output() {
            if same(trimmed(uid.as_str()).as_str(), "0") {
                return Step::Done(RootStatus::Adbd);
            }
        }
        Step::Done(RootStatus::NoRoot)
    }

    /// The next step of finding out the root state.
    pub fn root_status(&self, replies: &Vec<Reply>) -> (s: Step<RootStatus>)
        ensures
            is_plan(s, root_plan(*self.config, replies@)),
    {
        assert(replies@.skip(0) =~= replies@);
        self.root_status_from(replies, 0)
    }

    /// The next step of giving the device's daemon root.
    pub fn enable_adbd_root(&self, replies: &Vec<Reply>) -> (s: Step<Result<(), EngineError>>)
        ensures
            is_try(s, enable_root_plan(*self.config, replies@)),
    {
        if !self.config.is_rootable() {
            return Step::Done(Err(EngineError::NotRootable(self.config.image_type.clone())));
        }
        let root = self.adb(list1("root"));
        if replies.len() == 0 {
            return Step::Do(Action::Run(root));
        }
        match replies[0].ran(self.config.host, &root) {
            Err(e) => Step::Done(Err(e)),
            Ok(_) => {
                let wait = self.adb(list1("wait-for-device"));
                if replies.len() == 1 {
                    return Step::Do(Action::Run(wait));
                }
                match replies[1].ran(self.config.host, &wait) {
                    Err(e) => Step::Done(Err(e)),
                    Ok(_) => Step::Done(Ok(())),
                }
            },
        }
    }

    /// The next step of installing an app, or of installing it again, with the
    /// permissions that it asks for.
    pub fn install(&self, apk: &str, replies: &Vec<Reply>) -> (s: Step<Result<(), EngineError>>)
        ensures
            is_try(
                s,
                run_once_checked(
                    self.config.host,
                    adb_call(*self.config, seq!["install"@, "-r"@, "-g"@, apk@]),
                    replies@,
                ),
            ),
    {
        once_checked(self.config.host, self.adb(list4("install", "-r", "-g", apk)), replies)
    }

    /// The next step of finding out the name of a package.
    pub fn package_name(&self, apk: &str, replies: &Vec<Reply>) -> (s: Step<String>)
        ensures
            is_text(s, package_plan(*self.config, apk@, replies@)),
    {
        if replies.len() == 0 {
            return Step::Do(Action::IsExecutable(self.config.aapt2()));
        }
        let none = String::new();
        assert(none@ =~= seq![]);
        if !replies[0].is_yes() {
            return Step::Done(none);
        }
        if replies.len() == 1 {
            return Step::Do(
                Action::Run(
                    tool_command(
                        self.config,
                        self.config.aapt2(),
                        list3("dump", "packagename", apk),
                    ),
                ),
            );
        }
        match replies[1].output() {
            Some(text) => Step::Done(trimmed(text.as_str())),
            None => Step::Done(none),
        }
    }

    /// The next step of finding out the entry point of a package.
    pub fn launch_component(&self, pkg: &str, replies: &Vec<Reply>) -> (s: Step<Option<String>>)
        ensures
            is_some_text(s, component_plan(*self.config, pkg@, replies@)),
    {
        if replies.len() == 0 {
            return Step::Do(
                Action::Run(
                    self.shell(
                        list7(
                            "cmd",
                            "package",
                            "resolve-activity",
                            "--brief",
                            "-c",
                            "android.intent.category.LAUNCHER",
                            pkg,
                        ),
                    ),
                ),
            );
        }
        match replies[0].output() {
            Some(text) => Step::Done(find_component(text.as_str())),
            None => Step::Done(None),
        }
    }

    /// The next step of starting an app, on the display `display` where there
    /// is one.
    pub fn launch(&self, component: &str, display: Option<u32>, replies: &Vec<Reply>) -> (s: Step<
        Result<(), EngineError>,
    >)
        ensures
            is_try(
                s,
                run_once(
                    self.config.host,
                    shell_call(*self.config, start_args(component@, display)),
                    replies@,
                ),
            ),
    {
        let c = match display {
            None => self.shell(list4("am", "start", "-n", component)),
            Some(d) => {
                let number = decimal(d as u64);
                self.shell(list6("am", "start", "-n", component, "--display", number.as_str()))
            },
        };
        once(self.config.host, c, replies)
    }
}

/// An app is started by its component, on each display in the same way: the
/// words for no display are those for a display without the display itself.
pub proof fn an_app_is_started_by_its_component(component: Seq<char>, d: u32)
    ensures
        start_args(component, None) == seq!["am"@, "start"@, "-n"@, component],
        start_args(component, Some(d)).take(4) == start_args(component, None),
        start_args(component, Some(d)).skip(4) == seq!["--display"@, dec(d as int)],
{
}

/// Every command for the device is one of the same `adb`, in the environment of
/// the tools; one for its shell has the word for that before its own.
pub proof fn commands_go_through_adb(config: SdkConfig, args: Seq<Seq<char>>)
    ensures
        shell_call(config, args).args.skip(1) == args,
        shell_call(config, args).args[0] == "shell"@,
        shell_call(config, args).exe == adb_call(config, args).exe,
        shell_call(config, args).extra_path == adb_call(config, args).extra_path,
        shell_call(config, args).env == adb_call(config, args).env,
        adb_call(config, args).args == args,
        adb_call(config, args).exe == config.adb_path(),
        adb_call(config, args).extra_path == config.tool_paths(),
        adb_call(config, args).env == config.tool_settings(),
{
}

/// The program was launched, and wrote `word` and no more.
pub open spec fn says_only(r: Reply, word: Seq<char>) -> bool {
    r matches Reply::Ran(Ok(out)) && trim(lossy(out.stdout@) + lossy(out.stderr@)) == word
}

/// The root state is what the device says: nothing is said of a device that is
/// not there; `su` counts where it names the user zero, and a shell where its
/// user is zero.
pub proof fn root_is_what_the_device_says(config: SdkConfig, replies: Seq<Reply>)
    ensures
        root_plan(config, replies) matches Plan::Do(a) ==> replies.len() <= 2 && a == Act::Run(
            adb_call(
                config,
                seq![
                    seq!["get-state"@],
                    seq!["shell"@, "su"@, "-c"@, "id"@],
                    seq!["shell"@, "id"@, "-u"@],
                ][replies.len() as int],
            ),
        ),
        root_plan(config, replies) matches Plan::Done(s) ==> replies.len() > 0 && (s
            != RootStatus::NoRoot ==> says_only(replies[0], "device"@)),
        root_plan(config, replies) == Plan::Done(RootStatus::Magisk) ==> replies.len() > 1 && (
        replies[1] matches Reply::Ran(Ok(out)) && contains(
            trim(lossy(out.stdout@) + lossy(out.stderr@)),
            "uid=0"@,
        )),
        root_plan(config, replies) == Plan::Done(RootStatus::Adbd) ==> replies.len() > 2
            && says_only(replies[2], "0"@) && !(replies[1] matches Reply::Ran(Ok(out)) && contains(
            trim(lossy(out.stdout@) + lossy(out.stderr@)),
            "uid=0"@,
        )),
        replies.len() > 2 && says_only(replies[0], "device"@) && root_plan(config, replies)
            == Plan::Done(RootStatus::NoRoot) ==> !says_only(replies[2], "0"@),
        replies.len() > 0 && !says_only(replies[0], "device"@) ==> root_plan(config, replies)
            == Plan::Done(RootStatus::NoRoot),
{
    assert(seq!["shell"@] + seq!["su"@, "-c"@, "id"@] =~= seq!["shell"@, "su"@, "-c"@, "id"@]);
    assert(seq!["shell"@] + seq!["id"@, "-u"@] =~= seq!["shell"@, "id"@, "-u"@]);
}

/// Root is enabled exactly where the image lets it be, and both commands could
/// be launched: the one that asks for root, and behind it the one that waits for
/// the device. A locked image is asked for nothing.
pub proof fn root_needs_an_open_image(config: SdkConfig, replies: Seq<Reply>)
    ensures
        enable_root_plan(config, replies) matches Plan::Done(Ok(_)) ==> config.rootable()
            && replies.len() >= 2 && (replies[0] matches Reply::Ran(Ok(_))) && (replies[1] matches
            Reply::Ran(Ok(_))),
        !config.rootable() <==> enable_root_plan(config, replies) == Plan::Done(
            Err::<(), Problem>(Problem::NotRootable(config.image_type@)),
        ),
        config.rootable() && replies.len() == 0 ==> enable_root_plan(config, replies) == Plan::<
            Result<(), Problem>,
        >::Do(Act::Run(adb_call(config, seq!["root"@]))),
        config.rootable() && replies.len() == 1 && (replies[0] matches Reply::Ran(Ok(_)))
            ==> enable_root_plan(config, replies) == Plan::<Result<(), Problem>>::Do(
            Act::Run(adb_call(config, seq!["wait-for-device"@])),
        ),
        config.rootable() && replies.len() >= 2 && (replies[0] matches Reply::Ran(Ok(_))) && (
        replies[1] matches Reply::Ran(Ok(_))) ==> (enable_root_plan(config, replies) matches
            Plan::Done(Ok(_))),
{
}

/// The name of a package is what the tool says, where the tool is there and
/// could be launched, and empty otherwise.
pub proof fn a_package_is_what_the_tool_says(config: SdkConfig, apk: Seq<char>, replies: Seq<Reply>)
    ensures
        package_plan(config, apk, replies) matches Plan::Done(name) ==> replies.len() > 0 && (
        name.len() > 0 ==> replies[0] == Reply::Answer(true) && replies.len() > 1 && says_only(
            replies[1],
            name,
        )),
        replies.len() > 1 && replies[0] == Reply::Answer(true) ==> (replies[1] matches Reply::Ran(
            Ok(out),
        ) ==> package_plan(config, apk, replies) == Plan::Done(
            trim(lossy(out.stdout@) + lossy(out.stderr@)),
        )),
        replies.len() == 0 ==> package_plan(config, apk, replies) == Plan::<Seq<char>>::Do(
            Act::IsExecutable(config.aapt2_path()),
        ),
        replies.len() == 1 && replies[0] == Reply::Answer(true) ==> (package_plan(
            config,
            apk,
            replies,
        ) matches Plan::Do(Act::Run(c)) && c.exe == config.aapt2_path() && c.args == seq![
            "dump"@,
            "packagename"@,
            apk,
        ]),
{
}

/// A component that is found is a line of what the device said, its last one,
/// and has a slash; it is asked for by the name of the package.
pub proof fn a_component_is_the_last_line(config: SdkConfig, pkg: Seq<char>, replies: Seq<Reply>)
    ensures
        replies.len() == 0 ==> (component_plan(config, pkg, replies) matches Plan::Do(Act::Run(c))
            && c.exe == config.adb_path() && c.args.len() == 8 && c.args[0] == "shell"@
            && c.args[3] == "resolve-activity"@ && c.args[4] == "--brief"@ && c.args[6]
            == "android.intent.category.LAUNCHER"@ && c.args.last() == pkg),
        replies.len() > 0 ==> component_plan(config, pkg, replies) is Done,
        component_plan(config, pkg, replies) matches Plan::Done(Some(component)) ==> (replies[0]
            matches Reply::Ran(Ok(out)) && ({
            let all = lines(trim(lossy(out.stdout@) + lossy(out.stderr@)));
            all.len() > 0 && component == trim(all[all.len() - 1]) && contains(component, "/"@)
        })),
        replies.len() > 0 && component_plan(config, pkg, replies) == Plan::Done(
            None::<Seq<char>>,
        ) ==> (replies[0] matches Reply::Ran(Ok(out)) ==> ({
            let all = lines(trim(lossy(out.stdout@) + lossy(out.stderr@)));
            all.len() == 0 || !contains(trim(all[all.len() - 1]), "/"@)
        })),
{
}

} // verus!
