//! The emulator of the Android SDK: its devices, its boot, its health.

use crate::adb::{
    adb_call, online, root_plan, shell_call, tool_call, tool_command, AdbService,
};
use crate::backend::{AndroidBackend, Gfxstream, GpuBackend};
use crate::config::SdkConfig;
use crate::error::{EngineError, Problem};
use crate::model::{Avd, BootProfile, DoctorReport, RootStatus, RuntimeKind, ToolCheck};
use crate::number::{dec, decimal};
use crate::step::{
    checked_of, failure_of, is_plan, is_texts, is_try, outcome_of, output_of, run_once_checked,
    time_of, yes, Act, Action, Plan, Reply, Step,
};
use crate::subprocess::{lossy, tool_name, CommandLine, Invocation};
use crate::text::{
    after, before, cat2, cat7, contains, includes, lines, list1, list2, list3, list6, list9,
    list_has, push_text, same, text_after, text_before, text_lines, text_without, trim, trimmed,
    views, without,
};
use vstd::prelude::*;

verus! {

/// The names of devices that lines of the manager's output hold: what stands
/// between the first and the second colon of each line that gives a name.
pub open spec fn names_in(ls: Seq<Seq<char>>) -> Seq<Seq<char>>
    decreases ls.len(),
{
    if ls.len() == 0 {
        seq![]
    } else {
        let front = names_in(ls.drop_last());
        if contains(ls.last(), "Name:"@) {
            match after(ls.last(), ":"@) {
                Some(rest) => front.push(trim(before(rest, ":"@))),
                None => front,
            }
        } else {
            front
        }
    }
}

/// The command that lists the devices.
pub open spec fn list_call(config: SdkConfig) -> Invocation {
    tool_call(config, config.avdmanager_path(), seq!["list"@, "avd"@])
}

/// The devices that the manager listed: none where it could not be launched.
pub open spec fn listed(r: Reply) -> Seq<Seq<char>> {
    match output_of(r) {
        Some(text) => names_in(lines(text)),
        None => seq![],
    }
}

/// The names of devices that the manager's output holds.
pub fn avd_names(output: &str) -> (r: Vec<String>)
    ensures
        views(r@) == names_in(lines(output@)),
{
    let ls = text_lines(output);
    let ghost all = views(ls@);
    let mut r: Vec<String> = Vec::new();
    let mut i: usize = 0;
    assert(all.take(0) =~= seq![]);
    assert(views(r@) =~= seq![]);
    while i < ls.len()
        invariant
            i <= ls.len(),
            all == views(ls@),
            views(r@) == names_in(all.take(i as int)),
        decreases ls.len() - i,
    {
        assert(all.take(i + 1).drop_last() =~= all.take(i as int));
        assert(all.take(i + 1).last() == ls@[i as int]@);
        if includes(ls[i].as_str(), "Name:") {
            if let Some(rest) = text_after(ls[i].as_str(), ":") {
                push_text(&mut r, trimmed(text_before(rest.as_str(), ":").as_str()).as_str());
            }
        }
        i = i + 1;
    }
    assert(all.take(ls@.len() as int) =~= all);
    r
}

/// The image's tag: its kind without the page size.
pub open spec fn tag_of(config: SdkConfig) -> Seq<char> {
    without(config.image_type@, "_ps16k"@)
}

/// The image's tags: the page size of an image with large pages is a tag of
/// its own.
pub open spec fn tags_of(config: SdkConfig) -> Seq<char> {
    if contains(config.image_type@, "ps16k"@) {
        tag_of(config) + ",page_size_16kb"@
    } else {
        config.image_type@
    }
}

/// Whether the image has the store, as a word.
pub open spec fn store_word(config: SdkConfig) -> Seq<char> {
    if config.rootable() {
        "false"@
    } else {
        "true"@
    }
}

/// The settings of a device.
pub open spec fn avd_settings(config: SdkConfig, avd: Avd) -> Seq<char> {
    "AvdId="@
        + avd.name@
        + "\navd.ini.displayname="@
        + avd.name@
        + "\navd.ini.encoding=UTF-8\nabi.type="@
        + config.abi@
        + "\nhw.cpu.arch=arm64\nhw.cpu.ncore=6\nhw.ramSize=6144\nvm.heapSize=512\ndisk.dataPartition.size=10G\nsdcard.size=512M\nhw.sdCard=yes\nhw.gpu.enabled=yes\nhw.gpu.mode=auto\nhw.keyboard=yes\nhw.mainKeys=no\nhw.dPad=no\nhw.trackBall=no\nhw.gps=yes\nhw.lcd.width="@
        + dec(avd.screen.0 as int)
        + "\nhw.lcd.height="@
        + dec(avd.screen.1 as int)
        + "\nhw.lcd.density="@
        + dec(avd.screen.2 as int)
        + "\nhw.initialOrientation=portrait\nhw.audioInput=yes\nhw.battery=yes\nhw.accelerometer=yes\nhw.gyroscope=yes\nhw.sensors.orientation=yes\nhw.sensors.proximity=yes\nhw.sensors.light=yes\nhw.sensors.magnetic_field=yes\nhw.sensors.pressure=yes\nhw.camera.back=virtualscene\nhw.camera.front=emulated\nhw.arc=false\nhw.device.manufacturer=Generic\nhw.device.name="@
        + avd.device_profile@
        + "\nhw.device.hash2="@
        + avd.device_hash@
        + "\nskin.dynamic=yes\nshowDeviceFrame=yes\nfastboot.forceFastBoot=yes\nfastboot.forceColdBoot=no\nfastboot.forceChosenSnapshotBoot=no\nfastboot.chosenSnapshotFile=\nPlayStore.enabled="@
        + store_word(config)
        + "\nimage.sysdir.1=system-images/android-"@
        + config.platform_tag@
        + "/"@
        + config.image_type@
        + "/"@
        + config.abi@
        + "/\ntag.id="@
        + tag_of(config)
        + "\ntag.display="@
        + tag_of(config)
        + "\ntag.ids="@
        + tags_of(config)
        + "\ntarget=android-"@
        + config.platform_tag@
        + "\nruntime.network.latency=none\nruntime.network.speed=full\n"@
}

/// Where the devices' directory `home` holds the device `avd`.
pub open spec fn avd_dir(config: SdkConfig, avd: Avd, home: Seq<char>) -> Seq<char> {
    config.host.path(home, avd.name@ + ".avd"@)
}

/// What leads to the settings of a device in the directory `dir`.
pub open spec fn avd_pointer(config: SdkConfig, avd: Avd, dir: Seq<char>) -> Seq<char> {
    "avd.ini.encoding=UTF-8\npath="@ + dir + "\npath.rel=avd/"@ + avd.name@
        + ".avd\ntarget=android-"@ + config.platform_tag@ + "\n"@
}

/// The settings of a device.
pub fn avd_config(config: &SdkConfig, avd: &Avd) -> (t: String)
    ensures
        t@ == avd_settings(*config, *avd),
{
    let width = decimal(avd.screen.0 as u64);
    let height = decimal(avd.screen.1 as u64);
    let density = decimal(avd.screen.2 as u64);
    let store = if config.is_rootable() {
        "false"
    } else {
        "true"
    };
    proof {
        reveal_strlit("_ps16k");
    }
    let base = text_without(config.image_type.as_str(), "_ps16k");
    let ids = if includes(config.image_type.as_str(), "ps16k") {
        cat2(base.as_str(), ",page_size_16kb")
    } else {
        config.image_type.clone()
    };
    let mut t = "AvdId=".to_owned();
    t.append(avd.name.as_str());
    t.append("\navd.ini.displayname=");
    t.append(avd.name.as_str());
    t.append("\navd.ini.encoding=UTF-8\nabi.type=");
    t.append(config.abi.as_str());
    t.append("\nhw.cpu.arch=arm64\nhw.cpu.ncore=6\nhw.ramSize=6144\nvm.heapSize=512\ndisk.dataPartition.size=10G\nsdcard.size=512M\nhw.sdCard=yes\nhw.gpu.enabled=yes\nhw.gpu.mode=auto\nhw.keyboard=yes\nhw.mainKeys=no\nhw.dPad=no\nhw.trackBall=no\nhw.gps=yes\nhw.lcd.width=");
    t.append(width.as_str());
    t.append("\nhw.lcd.height=");
    t.append(height.as_str());
    t.append("\nhw.lcd.density=");
    t.append(density.as_str());
    t.append("\nhw.initialOrientation=portrait\nhw.audioInput=yes\nhw.battery=yes\nhw.accelerometer=yes\nhw.gyroscope=yes\nhw.sensors.orientation=yes\nhw.sensors.proximity=yes\nhw.sensors.light=yes\nhw.sensors.magnetic_field=yes\nhw.sensors.pressure=yes\nhw.camera.back=virtualscene\nhw.camera.front=emulated\nhw.arc=false\nhw.device.manufacturer=Generic\nhw.device.name=");
    t.append(avd.device_profile.as_str());
    t.append("\nhw.device.hash2=");
    t.append(avd.device_hash.as_str());
    t.append("\nskin.dynamic=yes\nshowDeviceFrame=yes\nfastboot.forceFastBoot=yes\nfastboot.forceColdBoot=no\nfastboot.forceChosenSnapshotBoot=no\nfastboot.chosenSnapshotFile=\nPlayStore.enabled=");
    t.append(store);
    t.append("\nimage.sysdir.1=system-images/android-");
    t.append(config.platform_tag.as_str());
    t.append("/");
    t.append(config.image_type.as_str());
    t.append("/");
    t.append(config.abi.as_str());
    t.append("/\ntag.id=");
    t.append(base.as_str());
    t.append("\ntag.display=");
    t.append(base.as_str());
    t.append("\ntag.ids=");
    t.append(ids.as_str());
    t.append("\ntarget=android-");
    t.append(config.platform_tag.as_str());
    t.append("\nruntime.network.latency=none\nruntime.network.speed=full\n");
    t
}

/// How the settings of a device are written, in the directory `home` of the
/// devices. Where the manager put the device elsewhere, it is left alone.
pub open spec fn write_plan(
    config: SdkConfig,
    avd: Avd,
    home: Seq<char>,
    replies: Seq<Reply>,
) -> Plan<Result<(), Problem>> {
    let dir = avd_dir(config, avd, home);
    if replies.len() == 0 {
        Plan::Do(Act::IsDir(dir))
    } else if !yes(replies[0]) {
        Plan::Done(Ok(()))
    } else if replies.len() == 1 {
        Plan::Do(
            Act::Write {
                path: config.host.path(dir, "config.ini"@),
                text: avd_settings(config, avd),
            },
        )
    } else if failure_of(replies[1]) is Some {
        Plan::Done(
            Err(Problem::Launch { tool: "write AVD config"@, source: failure_of(replies[1])->0 }),
        )
    } else if replies.len() == 2 {
        Plan::Do(
            Act::Write {
                path: config.host.path(home, avd.name@ + ".ini"@),
                text: avd_pointer(config, avd, dir),
            },
        )
    } else if failure_of(replies[2]) is Some {
        Plan::Done(
            Err(Problem::Launch { tool: "write AVD ini"@, source: failure_of(replies[2])->0 }),
        )
    } else {
        Plan::Done(Ok(()))
    }
}

/// The command that makes a device.
pub open spec fn create_call(config: SdkConfig, avd: Avd) -> Invocation {
    tool_call(
        config,
        config.avdmanager_path(),
        seq![
            "create"@,
            "avd"@,
            "-n"@,
            avd.name@,
            "-k"@,
            config.system_image_name(),
            "-d"@,
            avd.device_profile@,
            "--force"@,
        ],
    )
}

/// How a device is made that is not there yet, and its settings written.
pub open spec fn create_plan(
    config: SdkConfig,
    avd: Avd,
    home: Seq<char>,
    replies: Seq<Reply>,
) -> Plan<Result<(), Problem>> {
    if replies.len() == 0 {
        Plan::Do(Act::IsExecutable(config.avdmanager_path()))
    } else if !yes(replies[0]) {
        Plan::Done(Err(Problem::SdkMissing("avdmanager"@)))
    } else if replies.len() == 1 {
        Plan::Do(Act::Run(list_call(config)))
    } else if listed(replies[1]).contains(avd.name@) {
        Plan::Done(Ok(()))
    } else if replies.len() == 2 {
        Plan::Do(Act::Run(create_call(config, avd)))
    } else {
        match checked_of(config.host, create_call(config, avd), replies[2]) {
            Err(e) => Plan::Done(Err(e)),
            Ok(_) => write_plan(config, avd, home, replies.skip(3)),
        }
    }
}

/// What the emulator is started with. Without a window the graphics of the
/// host are asked for by name, since the emulator would not take them by
/// itself.
pub open spec fn boot_args(
    avd: Avd,
    profile: BootProfile,
    gpu: Seq<Seq<char>>,
    headless: bool,
) -> Seq<Seq<char>> {
    seq!["-avd"@, avd.name@] + profile.snapshot_flags() + if headless {
        seq!["-no-window"@, "-gpu"@, "host"@]
    } else {
        gpu
    }
}

/// How the end of a boot is waited for that began when the clock showed
/// `start`: the device is asked every two seconds. Once the time is up the
/// device counts as booted.
pub open spec fn poll_plan(
    config: SdkConfig,
    start: int,
    timeout_ms: int,
    replies: Seq<Reply>,
) -> Plan<Result<(), Problem>>
    decreases replies.len(),
{
    if replies.len() == 0 {
        Plan::Do(Act::Now)
    } else if time_of(replies[0]) >= start + timeout_ms {
        Plan::Done(Ok(()))
    } else if replies.len() == 1 {
        Plan::Do(Act::Run(shell_call(config, seq!["getprop"@, "sys.boot_completed"@])))
    } else if output_of(replies[1]) matches Some(text) && trim(text) == "1"@ {
        if replies.len() == 2 {
            Plan::Do(Act::Run(shell_call(config, seq!["input"@, "keyevent"@, "82"@])))
        } else {
            Plan::Done(Ok(()))
        }
    } else if replies.len() == 2 {
        Plan::Do(Act::Wait(2000))
    } else {
        poll_plan(config, start, timeout_ms, replies.skip(3))
    }
}

/// How a device is booted.
pub open spec fn boot_plan(
    config: SdkConfig,
    args: Seq<Seq<char>>,
    log: Seq<char>,
    timeout_ms: int,
    replies: Seq<Reply>,
) -> Plan<Result<(), Problem>> {
    let exe = config.emulator_path();
    let wait = adb_call(config, seq!["wait-for-device"@]);
    if replies.len() == 0 {
        Plan::Do(Act::IsExecutable(exe))
    } else if !yes(replies[0]) {
        Plan::Done(Err(Problem::SdkMissing("emulator"@)))
    } else if replies.len() == 1 {
        Plan::Do(Act::Spawn { command: tool_call(config, exe, args), log })
    } else if failure_of(replies[1]) is Some {
        Plan::Done(
            Err(
                Problem::Launch {
                    tool: tool_name(config.host, exe),
                    source: failure_of(replies[1])->0,
                },
            ),
        )
    } else if replies.len() == 2 {
        Plan::Do(Act::Run(wait))
    } else if outcome_of(config.host, wait, replies[2]) is Err {
        Plan::Done(Err(outcome_of(config.host, wait, replies[2])->Err_0))
    } else if replies.len() == 3 {
        Plan::Do(Act::Now)
    } else {
        poll_plan(config, time_of(replies[3]), timeout_ms, replies.skip(4))
    }
}

/// The packages that the engine needs.
pub open spec fn packages_call(config: SdkConfig) -> Invocation {
    tool_call(
        config,
        config.sdkmanager_path(),
        seq![
            "--sdk_root="@ + config.sdk_root@,
            "platform-tools"@,
            "emulator"@,
            "build-tools;"@ + config.build_tools@,
            config.platform_name(),
            config.system_image_name(),
        ],
    )
}

/// How the packages are installed.
pub open spec fn packages_plan(config: SdkConfig, replies: Seq<Reply>) -> Plan<
    Result<(), Problem>,
> {
    if replies.len() == 0 {
        Plan::Do(Act::IsExecutable(config.sdkmanager_path()))
    } else if !yes(replies[0]) {
        Plan::Done(Err(Problem::SdkMissing("sdkmanager"@)))
    } else {
        run_once_checked(config.host, packages_call(config), replies.skip(1))
    }
}

/// How it is found out whether the tools are there.
pub open spec fn provisioned_plan(config: SdkConfig, replies: Seq<Reply>) -> Plan<bool> {
    if replies.len() == 0 {
        Plan::Do(Act::IsExecutable(config.sdkmanager_path()))
    } else if !yes(replies[0]) {
        Plan::Done(false)
    } else if replies.len() == 1 {
        Plan::Do(Act::IsExecutable(config.emulator_path()))
    } else {
        Plan::Done(yes(replies[1]))
    }
}

/// The tools that are looked for, with their paths.
pub open spec fn tools_of(config: SdkConfig) -> Seq<(Seq<char>, Seq<char>)> {
    seq![
        ("sdkmanager"@, config.sdkmanager_path()),
        ("avdmanager"@, config.avdmanager_path()),
        ("adb"@, config.adb_path()),
        ("emulator"@, config.emulator_path()),
        ("aapt2"@, config.aapt2_path()),
    ]
}

/// What the health report asks next; none where it has all that it needs.
pub open spec fn doctor_question(config: SdkConfig, replies: Seq<Reply>) -> Option<Act> {
    let n = replies.len();
    if n < 5 {
        Some(Act::IsExecutable(tools_of(config)[n as int].1))
    } else if n == 5 {
        Some(Act::Run(list_call(config)))
    } else if n == 6 {
        Some(Act::Run(adb_call(config, seq!["get-state"@])))
    } else {
        match root_plan(config, replies.skip(7)) {
            Plan::Do(a) => Some(a),
            Plan::Done(_) => None,
        }
    }
}

/// `r` is the health report that the replies give.
pub open spec fn is_report(config: SdkConfig, replies: Seq<Reply>, r: DoctorReport) -> bool {
    let tools = tools_of(config);
    &&& r.sdk_root@ == config.sdk_root@
    &&& r.api == config.api
    &&& r.system_image@ == config.system_image_name()
    &&& r.tools@.len() == tools.len()
    &&& forall|i: int|
        0 <= i < tools.len() ==> {
            &&& (#[trigger] r.tools@[i]).name@ == tools[i].0
            &&& r.tools@[i].path@ == tools[i].1
            &&& r.tools@[i].present == yes(replies[i])
        }
    &&& views(r.avds@) == listed(replies[5])
    &&& r.emulator_running == online(replies[6])
    &&& root_plan(config, replies.skip(7)) == Plan::Done(r.root_status)
    &&& r.is_rootable == config.rootable()
}

/// The emulator of the Android SDK.
pub struct EmulatorService<G> {
    pub config: SdkConfig,
    pub gpu: G,
}

impl EmulatorService<Gfxstream> {
    /// The emulator with its own path to the graphics of the host.
    pub fn new(config: SdkConfig) -> (r: EmulatorService<Gfxstream>)
        ensures
            r.config == config,
            r.gpu == Gfxstream,
    {
        EmulatorService { config, gpu: Gfxstream }
    }
}

impl<G: GpuBackend> EmulatorService<G> {
    pub fn with_gpu(config: SdkConfig, gpu: G) -> (r: EmulatorService<G>)
        ensures
            r.config == config,
            r.gpu == gpu,
    {
        EmulatorService { config, gpu }
    }

    fn adb(&self) -> (r: AdbService<'_>)
        ensures
            *r.config == self.config,
    {
        AdbService::new(&self.config)
    }

    fn list_command(&self) -> (c: CommandLine)
        ensures
            c@ == list_call(self.config),
    {
        tool_command(&self.config, self.config.avdmanager(), list2("list", "avd"))
    }

    fn listed(&self, reply: &Reply) -> (r: Vec<String>)
        ensures
            views(r@) == listed(*reply),
    {
        match reply.output() {
            Some(text) => avd_names(text.as_str()),
            None => {
                let r: Vec<String> = Vec::new();
                assert(views(r@) =~= seq![]);
                r
            },
        }
    }

    /// The next step of listing the devices.
    pub fn list_avds(&self, replies: &Vec<Reply>) -> (s: Step<Vec<String>>)
        ensures
            is_texts(
                s,
                if replies@.len() == 0 {
                    Plan::Do(Act::Run(list_call(self.config)))
                } else {
                    Plan::Done(listed(replies@[0]))
                },
            ),
    {
        if replies.len() == 0 {
            Step::Do(Action::Run(self.list_command()))
        } else {
            Step::Done(self.listed(&replies[0]))
        }
    }

    /// The next step of finding out whether a device is there.
    pub fn emulator_running(&self, replies: &Vec<Reply>) -> (s: Step<bool>)
        ensures
            is_plan(
                s,
                if replies@.len() == 0 {
                    Plan::Do(Act::Run(adb_call(self.config, seq!["get-state"@])))
                } else {
                    Plan::Done(online(replies@[0]))
                },
            ),
    {
        if replies.len() == 0 {
            Step::Do(Action::Run(self.adb().adb(list1("get-state"))))
        } else {
            Step::Done(self.adb().device_online(&replies[0]))
        }
    }

    /// The next step of writing the settings of a device, where the replies for
    /// it begin at `from`.
    fn write_avd_config(&self, avd: &Avd, home: &str, replies: &Vec<Reply>, from: usize) -> (s:
        Step<Result<(), EngineError>>)
        requires
            from <= replies.len(),
        ensures
            is_try(s, write_plan(self.config, *avd, home@, replies@.skip(from as int))),
    {
        let host = self.config.host;
        let n: usize = replies.len() - from;
        let dir = host.join(home, cat2(avd.name.as_str(), ".avd").as_str());
        if n == 0 {
            return Step::Do(Action::IsDir(dir));
        }
        if !replies[from].is_yes() {
            return Step::Done(Ok(()));
        }
        if n == 1 {
            return Step::Do(
                Action::Write {
                    path: host.join(dir.as_str(), "config.ini"),
                    text: avd_config(&self.config, avd),
                },
            );
        }
        if let Some(source) = replies[from + 1].failure() {
            return Step::Done(
                Err(EngineError::Launch { tool: "write AVD config".to_owned(), source }),
            );
        }
        if n == 2 {
            let text = cat7(
                "avd.ini.encoding=UTF-8\npath=",
                dir.as_str(),
                "\npath.rel=avd/",
                avd.name.as_str(),
                ".avd\ntarget=android-",
                self.config.platform_tag.as_str(),
                "\n",
            );
            return Step::Do(
                Action::Write {
                    path: host.join(home, cat2(avd.name.as_str(), ".ini").as_str()),
                    text,
                },
            );
        }
        if let Some(source) = replies[from + 2].failure() {
            return Step::Done(
                Err(EngineError::Launch { tool: "write AVD ini".to_owned(), source }),
            );
        }
        Step::Done(Ok(()))
    }

    /// The next step of making a device that is not there yet. `home` is the
    /// directory of the devices.
    pub fn create_device(&self, avd: &Avd, home: &str, replies: &Vec<Reply>) -> (s: Step<
        Result<(), EngineError>,
    >)
        ensures
            is_try(s, create_plan(self.config, *avd, home@, replies@)),
    {
        if replies.len() == 0 {
            return Step::Do(Action::IsExecutable(self.config.avdmanager()));
        }
        if !replies[0].is_yes() {
            return Step::Done(Err(EngineError::SdkMissing("avdmanager".to_owned())));
        }
        if replies.len() == 1 {
            return Step::Do(Action::Run(self.list_command()));
        }
        if list_has(&self.listed(&replies[1]), avd.name.as_str()) {
            return Step::Done(Ok(()));
        }
        let image = self.config.system_image();
        let create = tool_command(
            &self.config,
            self.config.avdmanager(),
            list9(
                "create",
                "avd",
                "-n",
                avd.name.as_str(),
                "-k",
                image.as_str(),
                "-d",
                avd.device_profile.as_str(),
                "--force",
            ),
        );
        if replies.len() == 2 {
            return Step::Do(Action::Run(create));
        }
        match replies[2].ran_checked(self.config.host, &create) {
            Err(e) => Step::Done(Err(e)),
            Ok(_) => self.write_avd_config(avd, home, replies, 3),
        }
    }

    /// The next step of booting a device and waiting for the end of its boot.
    pub fn boot_and_wait(
        &self,
        avd: &Avd,
        profile: BootProfile,
        log_file: &str,
        timeout_ms: u64,
        replies: &Vec<Reply>,
    ) -> (s: Step<Result<(), EngineError>>)
        ensures
            is_try(
                s,
                boot_plan(
                    self.config,
                    boot_args(*avd, profile, self.gpu.flags(), false),
                    log_file@,
                    timeout_ms as int,
                    replies@,
                ),
            ),
    {
        self.boot_and_wait_opts(avd, profile, log_file, timeout_ms, false, replies)
    }

    /// What the emulator is started with.
    pub(crate) fn boot_list(&self, avd: &Avd, profile: BootProfile, headless: bool) -> (r: Vec<String>)
        ensures
            views(r@) == boot_args(*avd, profile, self.gpu.flags(), headless),
    {
        let mut r = list2("-avd", avd.name.as_str());
        let mut snapshot = profile.snapshot_args();
        let mut rest = if headless {
            list3("-no-window", "-gpu", "host")
        } else {
            self.gpu.emulator_args()
        };
        let ghost all = views(r@) + views(snapshot@) + views(rest@);
        r.append(&mut snapshot);
        r.append(&mut rest);
        assert(views(r@) =~= all);
        r
    }

    /// The next step of booting a device, without a window of its own where
    /// `headless` says so.
    pub fn boot_and_wait_opts(
        &self,
        avd: &Avd,
        profile: BootProfile,
        log_file: &str,
        timeout_ms: u64,
        headless: bool,
        replies: &Vec<Reply>,
    ) -> (s: Step<Result<(), EngineError>>)
        ensures
            is_try(
                s,
                boot_plan(
                    self.config,
                    boot_args(*avd, profile, self.gpu.flags(), headless),
                    log_file@,
                    timeout_ms as int,
                    replies@,
                ),
            ),
    {
        assert(replies@.skip(0) =~= replies@);
        let args = self.boot_list(avd, profile, headless);
        self.boot_from(args, log_file, timeout_ms, replies, 0)
    }

    /// The next step of booting a device with `args`, where the replies for it
    /// begin at `from`.
    #[verifier::spinoff_prover]
    #[verifier::rlimit(60)]
    pub(crate) fn boot_from(
        &self,
        args: Vec<String>,
        log_file: &str,
        timeout_ms: u64,
        replies: &Vec<Reply>,
        from: usize,
    ) -> (s: Step<Result<(), EngineError>>)
        requires
            from <= replies.len(),
        ensures
            is_try(
                s,
                boot_plan(
                    self.config,
                    views(args@),
                    log_file@,
                    timeout_ms as int,
                    replies@.skip(from as int),
                ),
            ),
    {
        let n: usize = replies.len() - from;
        let ghost rest = replies@.skip(from as int);
        assert(rest.len() == n);
        assert(n > 0 ==> rest[0] == replies@[from as int]);
        assert(n > 1 ==> rest[1] == replies@[from + 1]);
        assert(n > 2 ==> rest[2] == replies@[from + 2]);
        assert(n > 3 ==> rest[3] == replies@[from + 3]);
        if n == 0 {
            return Step::Do(Action::IsExecutable(self.config.emulator()));
        }
        if !replies[from].is_yes() {
            return Step::Done(Err(EngineError::SdkMissing("emulator".to_owned())));
        }
        let command = tool_command(&self.config, self.config.emulator(), args);
        if n == 1 {
            return Step::Do(Action::Spawn { command, log: log_file.to_owned() });
        }
        if let Some(source) = replies[from + 1].failure() {
            return Step::Done(
                Err(EngineError::Launch { tool: command.tool(self.config.host), source }),
            );
        }
        let wait = self.adb().adb(list1("wait-for-device"));
        if n == 2 {
            return Step::Do(Action::Run(wait));
        }
        if let Err(e) = replies[from + 2].ran(self.config.host, &wait) {
            return Step::Done(Err(e));
        }
        if n == 3 {
            return Step::Do(Action::Now);
        }
        assert(replies@.skip(from as int).skip(4) =~= replies@.skip(from + 4));
        self.poll(replies[from + 3].time(), timeout_ms, replies, from + 4)
    }

    fn poll(&self, start: u64, timeout_ms: u64, replies: &Vec<Reply>, from: usize) -> (s: Step<
        Result<(), EngineError>,
    >)
        requires
            from <= replies.len(),
        ensures
            is_try(
                s,
                poll_plan(
                    self.config,
                    start as int,
                    timeout_ms as int,
                    replies@.skip(from as int),
                ),
            ),
    {
        let mut at: usize = from;
        loop
            invariant
                from <= at <= replies.len(),
                poll_plan(
                    self.config,
                    start as int,
                    timeout_ms as int,
                    replies@.skip(at as int),
                ) == poll_plan(
                    self.config,
                    start as int,
                    timeout_ms as int,
                    replies@.skip(from as int),
                ),
            decreases replies.len() - at,
        {
            let n: usize = replies.len() - at;
            if n == 0 {
                return Step::Do(Action::Now);
            }
            let now: u64 = replies[at].time();
            if now >= start && now - start >= timeout_ms {
                return Step::Done(Ok(()));
            }
            if n == 1 {
                return Step::Do(
                    Action::Run(self.adb().shell(list2("getprop", "sys.boot_completed"))),
                );
            }
            let booted = match replies[at + 1].output() {
                Some(text) => same(trimmed(text.as_str()).as_str(), "1"),
                None => false,
            };
            if booted {
                if n == 2 {
                    return Step::Do(
                        Action::Run(self.adb().shell(list3("input", "keyevent", "82"))),
                    );
                }
                return Step::Done(Ok(()));
            }
            if n == 2 {
                return Step::Do(Action::Wait(2000));
            }
            assert(replies@.skip(at as int).skip(3) =~= replies@.skip(at + 3));
            at = at + 3;
        }
    }

    /// The next step of the health report.
    pub fn doctor(&self, replies: &Vec<Reply>) -> (s: Step<DoctorReport>)
        ensures
            match s {
                Step::Do(a) => doctor_question(self.config, replies@) == Some(a@),
                Step::Done(r) => doctor_question(self.config, replies@) is None && is_report(
                    self.config,
                    replies@,
                    r,
                ),
            },
    {
        let n: usize = replies.len();
        if n == 0 {
            return Step::Do(Action::IsExecutable(self.config.sdkmanager()));
        }
        if n == 1 {
            return Step::Do(Action::IsExecutable(self.config.avdmanager()));
        }
        if n == 2 {
            return Step::Do(Action::IsExecutable(self.config.adb()));
        }
        if n == 3 {
            return Step::Do(Action::IsExecutable(self.config.emulator()));
        }
        if n == 4 {
            return Step::Do(Action::IsExecutable(self.config.aapt2()));
        }
        if n == 5 {
            return Step::Do(Action::Run(self.list_command()));
        }
        if n == 6 {
            return Step::Do(Action::Run(self.adb().adb(list1("get-state"))));
        }
        match self.adb().root_status_from(replies, 7) {
            Step::Do(a) => Step::Do(a),
            Step::Done(root_status) => {
                let mut tools: Vec<ToolCheck> = Vec::new();
                tools.push(
                    ToolCheck {
                        name: "sdkmanager".to_owned(),
                        path: self.config.sdkmanager(),
                        present: replies[0].is_yes(),
                    },
                );
                tools.push(
                    ToolCheck {
                        name: "avdmanager".to_owned(),
                        path: self.config.avdmanager(),
                        present: replies[1].is_yes(),
                    },
                );
                tools.push(
                    ToolCheck {
                        name: "adb".to_owned(),
                        path: self.config.adb(),
                        present: replies[2].is_yes(),
                    },
                );
                tools.push(
                    ToolCheck {
                        name: "emulator".to_owned(),
                        path: self.config.emulator(),
                        present: replies[3].is_yes(),
                    },
                );
                tools.push(
                    ToolCheck {
                        name: "aapt2".to_owned(),
                        path: self.config.aapt2(),
                        present: replies[4].is_yes(),
                    },
                );
                Step::Done(
                    DoctorReport {
                        sdk_root: self.config.sdk_root.clone(),
                        api: self.config.api,
                        system_image: self.config.system_image(),
                        tools,
                        avds: self.listed(&replies[5]),
                        emulator_running: self.adb().device_online(&replies[6]),
                        root_status,
                        is_rootable: self.config.is_rootable(),
                    },
                )
            },
        }
    }
}

impl<G: GpuBackend> AndroidBackend for EmulatorService<G> {
    open spec fn runtime(&self) -> RuntimeKind {
        RuntimeKind::Emulator
    }

    open spec fn provisioned(&self, replies: Seq<Reply>) -> Plan<bool> {
        provisioned_plan(self.config, replies)
    }

    open spec fn installing_packages(&self, replies: Seq<Reply>) -> Plan<Result<(), Problem>> {
        packages_plan(self.config, replies)
    }

    open spec fn creating(&self, avd: Avd, home: Seq<char>, replies: Seq<Reply>) -> Plan<
        Result<(), Problem>,
    > {
        create_plan(self.config, avd, home, replies)
    }

    open spec fn booting(
        &self,
        avd: Avd,
        profile: BootProfile,
        log: Seq<char>,
        replies: Seq<Reply>,
    ) -> Plan<Result<(), Problem>> {
        boot_plan(
            self.config,
            boot_args(avd, profile, self.gpu.flags(), false),
            log,
            180_000,
            replies,
        )
    }

    open spec fn installing(&self, apk: Seq<char>, replies: Seq<Reply>) -> Plan<
        Result<(), Problem>,
    > {
        run_once_checked(
            self.config.host,
            adb_call(self.config, seq!["install"@, "-r"@, "-g"@, apk]),
            replies,
        )
    }

    open spec fn rooting(&self, replies: Seq<Reply>) -> Plan<RootStatus> {
        root_plan(self.config, replies)
    }

    open spec fn stopping(&self, replies: Seq<Reply>) -> Plan<()> {
        if replies.len() == 0 {
            Plan::Do(Act::Run(adb_call(self.config, seq!["emu"@, "kill"@])))
        } else {
            Plan::Done(())
        }
    }

    fn kind(&self) -> (r: RuntimeKind) {
        RuntimeKind::Emulator
    }

    fn is_provisioned(&self, replies: &Vec<Reply>) -> (s: Step<bool>) {
        if replies.len() == 0 {
            return Step::Do(Action::IsExecutable(self.config.sdkmanager()));
        }
        if !replies[0].is_yes() {
            return Step::Done(false);
        }
        if replies.len() == 1 {
            return Step::Do(Action::IsExecutable(self.config.emulator()));
        }
        Step::Done(replies[1].is_yes())
    }

    fn install_packages(&self, replies: &Vec<Reply>) -> (s: Step<Result<(), EngineError>>) {
        if replies.len() == 0 {
            return Step::Do(Action::IsExecutable(self.config.sdkmanager()));
        }
        if !replies[0].is_yes() {
            return Step::Done(Err(EngineError::SdkMissing("sdkmanager".to_owned())));
        }
        let root = cat2("--sdk_root=", self.config.sdk_root.as_str());
        let build_tools = cat2("build-tools;", self.config.build_tools.as_str());
        let platform = self.config.platform();
        let image = self.config.system_image();
        let c = tool_command(
            &self.config,
            self.config.sdkmanager(),
            list6(
                root.as_str(),
                "platform-tools",
                "emulator",
                build_tools.as_str(),
                platform.as_str(),
                image.as_str(),
            ),
        );
        if replies.len() == 1 {
            return Step::Do(Action::Run(c));
        }
        match replies[1].ran_checked(self.config.host, &c) {
            Ok(_) => Step::Done(Ok(())),
            Err(e) => Step::Done(Err(e)),
        }
    }

    fn create_avd(&self, avd: &Avd, home: &str, replies: &Vec<Reply>) -> (s: Step<
        Result<(), EngineError>,
    >) {
        self.create_device(avd, home, replies)
    }

    fn boot(&self, avd: &Avd, profile: BootProfile, log_file: &str, replies: &Vec<Reply>) -> (s:
        Step<Result<(), EngineError>>) {
        self.boot_and_wait(avd, profile, log_file, 180_000, replies)
    }

    fn install_apk(&self, apk: &str, replies: &Vec<Reply>) -> (s: Step<Result<(), EngineError>>) {
        self.adb().install(apk, replies)
    }

    fn root_status(&self, replies: &Vec<Reply>) -> (s: Step<RootStatus>) {
        self.adb().root_status(replies)
    }

    fn stop(&self, replies: &Vec<Reply>) -> (s: Step<()>) {
        if replies.len() == 0 {
            Step::Do(Action::Run(self.adb().adb(list2("emu", "kill"))))
        } else {
            Step::Done(())
        }
    }
}

/// What the clock shows.
pub open spec fn clock(r: Reply) -> int {
    match r {
        Reply::Time(t) => t as int,
        _ => 0,
    }
}

/// The clock of a round of waiting shows that the time is over.
pub open spec fn is_late(start: int, timeout_ms: int, r: Reply) -> bool {
    clock(r) >= start + timeout_ms
}

/// The device says that it is up.
pub open spec fn is_up(r: Reply) -> bool {
    r matches Reply::Ran(Ok(out)) && trim(lossy(out.stdout@) + lossy(out.stderr@)) == "1"@
}

/// The waiting is over behind `k` rounds: none of those before found the device
/// up or the time over, and this one did.
pub open spec fn is_over(start: int, timeout_ms: int, replies: Seq<Reply>, k: int) -> bool {
    &&& 0 <= 3 * k < replies.len()
    &&& forall|j: int|
        0 <= j < k ==> !(#[trigger] is_late(start, timeout_ms, replies[3 * j])) && !is_up(
            replies[3 * j + 1],
        )
    &&& is_late(start, timeout_ms, replies[3 * k]) || (3 * k + 2 < replies.len() && is_up(
        replies[3 * k + 1],
    ))
}

/// The waiting for a device ends once the device says that it is up, and the
/// screen was unlocked for it, or once the time is over; never with an error.
/// Until then the clock is read, the device asked and two seconds waited for, in
/// turn.
pub proof fn waiting_ends_when_the_device_is_up(
    config: SdkConfig,
    start: int,
    timeout_ms: int,
    replies: Seq<Reply>,
)
    ensures
        poll_plan(config, start, timeout_ms, replies) matches Plan::Done(r) ==> r is Ok && exists|
            k: int,
        | #[trigger]
            is_over(start, timeout_ms, replies, k),
        poll_plan(config, start, timeout_ms, replies) matches Plan::Do(a) ==> if replies.len() % 3
            == 0 {
            a == Act::Now
        } else if replies.len() % 3 == 1 {
            a == Act::Run(
                adb_call(config, seq!["shell"@, "getprop"@, "sys.boot_completed"@]),
            ) && !is_late(start, timeout_ms, replies.last())
        } else if is_up(replies.last()) {
            a == Act::Run(adb_call(config, seq!["shell"@, "input"@, "keyevent"@, "82"@]))
        } else {
            a == Act::Wait(2000)
        },
    decreases replies.len(),
{
    assert(seq!["shell"@] + seq!["getprop"@, "sys.boot_completed"@] =~= seq![
        "shell"@,
        "getprop"@,
        "sys.boot_completed"@,
    ]);
    assert(seq!["shell"@] + seq!["input"@, "keyevent"@, "82"@] =~= seq![
        "shell"@,
        "input"@,
        "keyevent"@,
        "82"@,
    ]);
    if replies.len() > 0 {
        if is_late(start, timeout_ms, replies[0]) || (replies.len() > 2 && is_up(replies[1])) {
            assert(is_over(start, timeout_ms, replies, 0));
        } else if replies.len() > 2 {
            let rest = replies.skip(3);
            waiting_ends_when_the_device_is_up(config, start, timeout_ms, rest);
            if poll_plan(config, start, timeout_ms, rest) is Done {
                let k = choose|k: int| is_over(start, timeout_ms, rest, k);
                assert(rest[3 * k] == replies[3 * (k + 1)]);
                assert(3 * k + 1 < rest.len() ==> rest[3 * k + 1] == replies[3 * (k + 1) + 1]);
                assert forall|j: int| 0 <= j < k + 1 implies !(#[trigger] is_late(
                    start,
                    timeout_ms,
                    replies[3 * j],
                )) && !is_up(replies[3 * j + 1]) by {
                    if j > 0 {
                        assert(!is_late(start, timeout_ms, rest[3 * (j - 1)]));
                    }
                }
                assert(is_over(start, timeout_ms, replies, k + 1));
            }
            if rest.len() > 0 {
                assert(rest.last() == replies.last());
            }
        }
    }
}

/// A device that was booted had an emulator that could be started, with the
/// arguments that were asked for, and was waited for; where the emulator is not
/// there, or could not be started, the boot has failed.
pub proof fn a_boot_starts_the_emulator(
    config: SdkConfig,
    args: Seq<Seq<char>>,
    log: Seq<char>,
    timeout_ms: int,
    replies: Seq<Reply>,
)
    ensures
        (boot_plan(config, args, log, timeout_ms, replies) matches Plan::Done(Ok(_))) <==> (
        replies.len() > 4 && replies[0] == Reply::Answer(true) && crate::step::was_done(replies[1])
            && (replies[2] matches Reply::Ran(Ok(_))) && exists|k: int| #[trigger]
            is_over(
                clock(replies[3]),
                timeout_ms,
                replies.skip(4),
                k,
            )),
        replies.len() == 0 ==> (boot_plan(config, args, log, timeout_ms, replies) matches Plan::Do(
            a,
        ) && a == Act::IsExecutable(config.emulator_path())),
        replies.len() == 1 && replies[0] == Reply::Answer(true) ==> (boot_plan(
            config,
            args,
            log,
            timeout_ms,
            replies,
        ) matches Plan::Do(Act::Spawn { command, log: l }) && command.exe == config.emulator_path()
            && command.args == args && command.env == config.tool_settings() && l == log),
        replies.len() == 2 && replies[0] == Reply::Answer(true) && crate::step::was_done(
            replies[1],
        ) ==> (boot_plan(config, args, log, timeout_ms, replies) matches Plan::Do(Act::Run(c))
            && c.exe == config.adb_path() && c.args == seq!["wait-for-device"@]),
        replies.len() > 0 && replies[0] == Reply::Answer(false) ==> boot_plan(
            config,
            args,
            log,
            timeout_ms,
            replies,
        ) == Plan::Done(Err::<(), Problem>(Problem::SdkMissing("emulator"@))),
        replies.len() > 1 && replies[0] == Reply::Answer(true) ==> (replies[1] matches Reply::Did(
            Err(e),
        ) ==> (boot_plan(config, args, log, timeout_ms, replies) matches Plan::Done(
            Err(Problem::Launch { source, .. }),
        ) && source == e@)),
{
    if replies.len() > 3 {
        let start = clock(replies[3]);
        let rest = replies.skip(4);
        waiting_ends_when_the_device_is_up(config, start, timeout_ms, rest);
        if exists|k: int| #[trigger] is_over(start, timeout_ms, rest, k) {
            let k = choose|k: int| #[trigger] is_over(start, timeout_ms, rest, k);
            waiting_is_over(config, start, timeout_ms, rest, k);
        }
    }
}

proof fn waiting_is_over(
    config: SdkConfig,
    start: int,
    timeout_ms: int,
    replies: Seq<Reply>,
    k: int,
)
    requires
        is_over(start, timeout_ms, replies, k),
    ensures
        poll_plan(config, start, timeout_ms, replies) is Done,
    decreases replies.len(),
{
    if k > 0 {
        let rest = replies.skip(3);
        assert(!is_late(start, timeout_ms, replies[3 * 0int]));
        assert(rest[3 * (k - 1)] == replies[3 * k]);
        assert(3 * k + 1 < replies.len() ==> rest[3 * (k - 1) + 1] == replies[3 * k + 1]);
        assert forall|j: int| 0 <= j < k - 1 implies !(#[trigger] is_late(
            start,
            timeout_ms,
            rest[3 * j],
        )) && !is_up(rest[3 * j + 1]) by {
            assert(!is_late(start, timeout_ms, replies[3 * (j + 1)]));
        }
        assert(0 <= 3 * (k - 1) < rest.len());
        assert(is_late(start, timeout_ms, rest[3 * (k - 1)]) || (3 * (k - 1) + 2 < rest.len()
            && is_up(rest[3 * (k - 1) + 1])));
        assert(is_over(start, timeout_ms, rest, k - 1));
        waiting_is_over(config, start, timeout_ms, rest, k - 1);
    }
}

/// A device is made once: where the manager lists it already, nothing is done,
/// and otherwise it is made under its own name, of the image and the profile
/// that belong to it. It is there behind a making that ended well, exactly where
/// the command for it ended well and its settings were written.
pub proof fn a_device_is_made_once(
    config: SdkConfig,
    avd: Avd,
    home: Seq<char>,
    replies: Seq<Reply>,
)
    ensures
        replies.len() > 1 && replies[0] == Reply::Answer(true) && listed(replies[1]).contains(
            avd.name@,
        ) ==> (create_plan(config, avd, home, replies) matches Plan::Done(Ok(_))),
        replies.len() == 2 && replies[0] == Reply::Answer(true) && !listed(replies[1]).contains(
            avd.name@,
        ) ==> (create_plan(config, avd, home, replies) matches Plan::Do(Act::Run(c)) && c.exe
            == config.avdmanager_path() && c.args.subrange(0, 3) == seq!["create"@, "avd"@, "-n"@]
            && c.args[3] == avd.name@ && c.args[4] == "-k"@ && c.args[5]
            == config.system_image_name() && c.args[6] == "-d"@ && c.args[7] == avd.device_profile@
            && c.args[8] == "--force"@ && c.args.len() == 9),
        replies.len() == 0 ==> (create_plan(config, avd, home, replies) matches Plan::Do(a) && a
            == Act::IsExecutable(config.avdmanager_path())),
        replies.len() == 1 && replies[0] == Reply::Answer(true) ==> (create_plan(
            config,
            avd,
            home,
            replies,
        ) matches Plan::Do(Act::Run(c)) && c.exe == config.avdmanager_path() && c.args == seq![
            "list"@,
            "avd"@,
        ]),
        create_plan(config, avd, home, replies) matches Plan::Done(Ok(_)) ==> replies.len() > 1
            && replies[0] == Reply::Answer(true) && (listed(replies[1]).contains(avd.name@) || (
        replies.len() > 3 && crate::step::ran_well(replies[2]) && (write_plan(
            config,
            avd,
            home,
            replies.skip(3),
        ) matches Plan::Done(Ok(_))))),
        replies.len() > 3 && replies[0] == Reply::Answer(true) && !listed(replies[1]).contains(
            avd.name@,
        ) && crate::step::ran_well(replies[2]) ==> create_plan(config, avd, home, replies)
            == write_plan(config, avd, home, replies.skip(3)),
        replies.len() > 0 && replies[0] == Reply::Answer(false) ==> create_plan(
            config,
            avd,
            home,
            replies,
        ) == Plan::Done(Err::<(), Problem>(Problem::SdkMissing("avdmanager"@))),
{
}

/// The settings of a device are written where the device lies, and what leads to
/// them beside it; a device that lies elsewhere is left alone. The settings are
/// there exactly where both could be written.
pub proof fn settings_lie_with_their_device(
    config: SdkConfig,
    avd: Avd,
    home: Seq<char>,
    replies: Seq<Reply>,
)
    ensures
        ({
            let p = write_plan(config, avd, home, replies);
            let dir = config.host.path(home, avd.name@ + ".avd"@);
            let n = replies.len();
            let there = n > 0 && replies[0] == Reply::Answer(true);
            &&& n == 0 ==> (p matches Plan::Do(a) && a == Act::IsDir(dir))
            &&& n > 0 && replies[0] == Reply::Answer(false) ==> (p matches Plan::Done(Ok(_)))
            &&& n == 1 && there ==> (p matches Plan::Do(Act::Write { path, text }) && path
                == config.host.path(dir, "config.ini"@) && text == avd_settings(config, avd))
            &&& n == 2 && there && crate::step::was_done(replies[1]) ==> (p matches Plan::Do(
                Act::Write { path, text },
            ) && path == config.host.path(home, avd.name@ + ".ini"@) && text
                == "avd.ini.encoding=UTF-8\npath="@ + dir + "\npath.rel=avd/"@ + avd.name@
                + ".avd\ntarget=android-"@ + config.platform_tag@ + "\n"@)
            &&& there ==> ((p matches Plan::Done(Ok(_))) <==> n > 2 && crate::step::was_done(
                replies[1],
            ) && crate::step::was_done(replies[2]))
            &&& there && n > 1 ==> (replies[1] matches Reply::Did(Err(e)) ==> p == Plan::Done(
                Err::<(), Problem>(Problem::Launch { tool: "write AVD config"@, source: e@ }),
            ))
            &&& there && n > 2 && crate::step::was_done(replies[1]) ==> (replies[2] matches Reply::Did(
                Err(e),
            ) ==> p == Plan::Done(
                Err::<(), Problem>(Problem::Launch { tool: "write AVD ini"@, source: e@ }),
            ))
        }),
{
}

/// A device is listed exactly where some line of the output names it: a line that
/// gives a name, with this name between its first and its second colon.
pub proof fn listed_devices_are_named(ls: Seq<Seq<char>>, name: Seq<char>)
    ensures
        names_in(ls).contains(name) <==> exists|i: int|
            0 <= i < ls.len() && contains(#[trigger] ls[i], "Name:"@) && (after(ls[i], ":"@) matches
                Some(rest) && trim(before(rest, ":"@)) == name),
        names_in(ls).len() <= ls.len(),
    decreases ls.len(),
{
    if ls.len() > 0 {
        let front = ls.drop_last();
        let last = ls.len() - 1;
        listed_devices_are_named(front, name);
        assert(forall|i: int| 0 <= i < front.len() ==> front[i] == ls[i]);
        let names = names_in(front);
        if contains(ls[last], "Name:"@) && after(ls[last], ":"@) is Some {
            let found = trim(before(after(ls[last], ":"@)->0, ":"@));
            assert(names_in(ls) == names.push(found));
            if found == name {
                assert(names_in(ls)[names.len() as int] == name);
            }
            if names.contains(name) {
                let j = names.index_of(name);
                assert(names_in(ls)[j] == name);
            }
            if names_in(ls).contains(name) && found != name {
                let j = names_in(ls).index_of(name);
                assert(names[j] == name);
            }
        }
    }
}

/// A device is booted by its name, behind the flag for it. A developer's boot
/// takes no snapshot, a consumer's does; without a window the graphics of the
/// host are asked for, and with one those of the backend.
pub proof fn a_device_is_booted_by_its_name(
    avd: Avd,
    profile: BootProfile,
    gpu: Seq<Seq<char>>,
    headless: bool,
)
    ensures
        ({
            let args = boot_args(avd, profile, gpu, headless);
            let n: int = if profile is Developer {
                3
            } else {
                2
            };
            &&& args[0] == "-avd"@
            &&& args[1] == avd.name@
            &&& profile is Developer ==> args[2] == "-no-snapshot"@
            &&& args.skip(n) == (if headless {
                seq!["-no-window"@, "-gpu"@, "host"@]
            } else {
                gpu
            })
        }),
{
    let args = boot_args(avd, profile, gpu, headless);
    let n: int = if profile is Developer {
        3
    } else {
        2
    };
    assert(args.skip(n) =~= if headless {
        seq!["-no-window"@, "-gpu"@, "host"@]
    } else {
        gpu
    });
}

/// The packages are installed exactly where the manager is there and ended well;
/// it is asked for the tools, the platform and the image that the engine is set
/// to, under the engine's own directory.
pub proof fn packages_are_installed_by_the_manager(config: SdkConfig, replies: Seq<Reply>)
    ensures
        (packages_plan(config, replies) matches Plan::Done(Ok(_))) <==> replies.len() > 1
            && replies[0] == Reply::Answer(true) && crate::step::ran_well(replies[1]),
        replies.len() == 0 ==> (packages_plan(config, replies) matches Plan::Do(a) && a
            == Act::IsExecutable(config.sdkmanager_path())),
        replies.len() == 1 && replies[0] == Reply::Answer(true) ==> (packages_plan(config, replies)
            matches Plan::Do(Act::Run(c)) && c.exe == config.sdkmanager_path() && c.args == seq![
            "--sdk_root="@ + config.sdk_root@,
            "platform-tools"@,
            "emulator"@,
            "build-tools;"@ + config.build_tools@,
            "platforms;android-"@ + config.platform_tag@,
            "system-images;android-"@ + config.platform_tag@ + ";"@ + config.image_type@ + ";"@
                + config.abi@,
        ]),
        replies.len() > 0 && replies[0] == Reply::Answer(false) ==> packages_plan(config, replies)
            == Plan::Done(Err::<(), Problem>(Problem::SdkMissing("sdkmanager"@))),
        replies.len() > 1 && replies[0] == Reply::Answer(true) ==> (replies[1] matches Reply::Ran(
            Ok(out),
        ) ==> (out.code matches Some(n) ==> n != 0 ==> (packages_plan(config, replies) matches
            Plan::Done(Err(Problem::NonZero { status, output, .. })) && status == n && output
            == lossy(out.stdout@) + lossy(out.stderr@)))),
{
}

/// The engine is there exactly where both the manager and the emulator are.
pub proof fn the_engine_is_there_with_its_tools(config: SdkConfig, replies: Seq<Reply>)
    ensures
        provisioned_plan(config, replies) == Plan::Done(true) <==> replies.len() > 1 && replies[0]
            == Reply::Answer(true) && replies[1] == Reply::Answer(true),
        provisioned_plan(config, replies) matches Plan::Do(a) ==> replies.len() <= 1 && a
            == Act::IsExecutable(
            if replies.len() == 0 {
                config.sdkmanager_path()
            } else {
                config.emulator_path()
            },
        ),
        replies.len() > 1 ==> provisioned_plan(config, replies) is Done,
{
}

/// Each question of a health report is for the part of the report that its reply
/// goes into: a tool that is said to be there is one whose own path was found to
/// be a program.
pub proof fn a_report_says_what_was_asked(
    config: SdkConfig,
    replies: Seq<Reply>,
    r: DoctorReport,
    i: int,
)
    requires
        is_report(config, replies, r),
        replies.len() > 6,
        0 <= i < 5,
    ensures
        r.tools@.len() == 5,
        doctor_question(config, replies.take(i)) == Some(Act::IsExecutable(r.tools@[i].path@)),
        r.tools@[i].present <==> replies[i] == Reply::Answer(true),
        r.emulator_running <==> crate::adb::says_only(replies[6], "device"@),
        doctor_question(config, replies.take(6)) == Some(
            Act::Run(adb_call(config, seq!["get-state"@])),
        ),
        doctor_question(config, replies.take(5)) == Some(
            Act::Run(tool_call(config, config.avdmanager_path(), seq!["list"@, "avd"@])),
        ),
        r.is_rootable <==> !contains(config.image_type@, "playstore"@),
        r.sdk_root@ == config.sdk_root@,
        r.api == config.api,
        r.tools@[0].name@ == "sdkmanager"@ && r.tools@[0].path@ == config.sdkmanager_path(),
        r.tools@[1].name@ == "avdmanager"@ && r.tools@[1].path@ == config.avdmanager_path(),
        r.tools@[2].name@ == "adb"@ && r.tools@[2].path@ == config.adb_path(),
        r.tools@[3].name@ == "emulator"@ && r.tools@[3].path@ == config.emulator_path(),
        r.tools@[4].name@ == "aapt2"@ && r.tools@[4].path@ == config.aapt2_path(),
{
}

/// The store is said to be there exactly where the image is one with a store, and
/// an image with large pages has their size as a tag behind its own.
pub proof fn images_are_tagged(config: SdkConfig)
    ensures
        store_word(config) == "true"@ <==> contains(config.image_type@, "playstore"@),
        store_word(config) == "true"@ || store_word(config) == "false"@,
        !contains(config.image_type@, "ps16k"@) ==> tags_of(config) == config.image_type@,
        contains(config.image_type@, "ps16k"@) ==> tags_of(config) == without(
            config.image_type@,
            "_ps16k"@,
        ) + ",page_size_16kb"@,
{
    reveal_strlit("true");
    reveal_strlit("false");
    assert("true"@[0] == 't' && "false"@[0] == 'f');
}

} // verus!
