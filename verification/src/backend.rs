//! What the engine asks of a graphics path and of a runtime, so that one can
//! stand in for another.

use crate::config::SdkConfig;
use crate::emulator::EmulatorService;
use crate::error::{EngineError, Problem};
use crate::model::{Avd, BootProfile, RootStatus, RuntimeKind};
use crate::step::{Act, is_plan, is_try, Plan, Reply, Step};
use crate::text::{list2, views};
use crate::waydroid::WaydroidBackend;
use vstd::prelude::*;

verus! {

/// The path of graphics from the guest to the host.
pub trait GpuBackend: Send + Sync {
    /// What the path is called.
    spec fn label(&self) -> Seq<char>;

    /// The path can be used.
    spec fn ready(&self) -> bool;

    /// What the emulator is told of the path.
    spec fn flags(&self) -> Seq<Seq<char>>;

    fn name(&self) -> (r: &'static str)
        ensures
            r@ == self.label(),
    ;

    fn is_implemented(&self) -> (r: bool)
        ensures
            r == self.ready(),
    ;

    fn emulator_args(&self) -> (r: Vec<String>)
        ensures
            views(r@) == self.flags(),
    ;
}

/// The emulator's own path to the graphics of the host.
pub struct Gfxstream;

impl GpuBackend for Gfxstream {
    open spec fn label(&self) -> Seq<char> {
        "gfxstream"@
    }

    open spec fn ready(&self) -> bool {
        true
    }

    open spec fn flags(&self) -> Seq<Seq<char>> {
        seq!["-gpu"@, "auto"@]
    }

    fn name(&self) -> (r: &'static str) {
        "gfxstream"
    }

    fn is_implemented(&self) -> (r: bool) {
        true
    }

    fn emulator_args(&self) -> (r: Vec<String>) {
        list2("-gpu", "auto")
    }
}

/// A path through Vulkan that cannot be used yet.
pub struct Venus;

impl GpuBackend for Venus {
    open spec fn label(&self) -> Seq<char> {
        "venus"@
    }

    open spec fn ready(&self) -> bool {
        false
    }

    open spec fn flags(&self) -> Seq<Seq<char>> {
        seq![]
    }

    fn name(&self) -> (r: &'static str) {
        "venus"
    }

    fn is_implemented(&self) -> (r: bool) {
        false
    }

    fn emulator_args(&self) -> (r: Vec<String>) {
        let r: Vec<String> = Vec::new();
        assert(views(r@) =~= seq![]);
        r
    }
}

/// The Android runtime of a host. Each operation is a function of the replies
/// that it has had so far.
pub trait AndroidBackend {
    /// Which runtime it is.
    spec fn runtime(&self) -> RuntimeKind;

    /// How it is found out whether the runtime can be used.
    spec fn provisioned(&self, replies: Seq<Reply>) -> Plan<bool>;

    /// How what the runtime needs is installed.
    spec fn installing_packages(&self, replies: Seq<Reply>) -> Plan<Result<(), Problem>>;

    /// How a device is made, in the directory `home` of the devices.
    spec fn creating(&self, avd: Avd, home: Seq<char>, replies: Seq<Reply>) -> Plan<
        Result<(), Problem>,
    >;

    /// How a device is booted.
    spec fn booting(
        &self,
        avd: Avd,
        profile: BootProfile,
        log: Seq<char>,
        replies: Seq<Reply>,
    ) -> Plan<Result<(), Problem>>;

    /// How an app is installed.
    spec fn installing(&self, apk: Seq<char>, replies: Seq<Reply>) -> Plan<Result<(), Problem>>;

    /// How the root state is found out.
    spec fn rooting(&self, replies: Seq<Reply>) -> Plan<RootStatus>;

    /// How the runtime is stopped.
    spec fn stopping(&self, replies: Seq<Reply>) -> Plan<()>;

    fn kind(&self) -> (r: RuntimeKind)
        ensures
            r == self.runtime(),
    ;

    fn is_provisioned(&self, replies: &Vec<Reply>) -> (s: Step<bool>)
        ensures
            is_plan(s, self.provisioned(replies@)),
    ;

    fn install_packages(&self, replies: &Vec<Reply>) -> (s: Step<Result<(), EngineError>>)
        ensures
            is_try(s, self.installing_packages(replies@)),
    ;

    fn create_avd(&self, avd: &Avd, home: &str, replies: &Vec<Reply>) -> (s: Step<
        Result<(), EngineError>,
    >)
        ensures
            is_try(s, self.creating(*avd, home@, replies@)),
    ;

    fn boot(&self, avd: &Avd, profile: BootProfile, log_file: &str, replies: &Vec<Reply>) -> (s:
        Step<Result<(), EngineError>>)
        ensures
            is_try(s, self.booting(*avd, profile, log_file@, replies@)),
    ;

    fn install_apk(&self, apk: &str, replies: &Vec<Reply>) -> (s: Step<Result<(), EngineError>>)
        ensures
            is_try(s, self.installing(apk@, replies@)),
    ;

    fn root_status(&self, replies: &Vec<Reply>) -> (s: Step<RootStatus>)
        ensures
            is_plan(s, self.rooting(replies@)),
    ;

    fn stop(&self, replies: &Vec<Reply>) -> (s: Step<()>)
        ensures
            is_plan(s, self.stopping(replies@)),
    ;
}

/// One of the runtimes.
pub enum Backend {
    Emulator(EmulatorService<Gfxstream>),
    Waydroid(WaydroidBackend),
}

impl AndroidBackend for Backend {
    open spec fn runtime(&self) -> RuntimeKind {
        match self {
            Backend::Emulator(b) => b.runtime(),
            Backend::Waydroid(b) => b.runtime(),
        }
    }

    open spec fn provisioned(&self, replies: Seq<Reply>) -> Plan<bool> {
        match self {
            Backend::Emulator(b) => b.provisioned(replies),
            Backend::Waydroid(b) => b.provisioned(replies),
        }
    }

    open spec fn installing_packages(&self, replies: Seq<Reply>) -> Plan<Result<(), Problem>> {
        match self {
            Backend::Emulator(b) => b.installing_packages(replies),
            Backend::Waydroid(b) => b.installing_packages(replies),
        }
    }

    open spec fn creating(&self, avd: Avd, home: Seq<char>, replies: Seq<Reply>) -> Plan<
        Result<(), Problem>,
    > {
        match self {
            Backend::Emulator(b) => b.creating(avd, home, replies),
            Backend::Waydroid(b) => b.creating(avd, home, replies),
        }
    }

    open spec fn booting(
        &self,
        avd: Avd,
        profile: BootProfile,
        log: Seq<char>,
        replies: Seq<Reply>,
    ) -> Plan<Result<(), Problem>> {
        match self {
            Backend::Emulator(b) => b.booting(avd, profile, log, replies),
            Backend::Waydroid(b) => b.booting(avd, profile, log, replies),
        }
    }

    open spec fn installing(&self, apk: Seq<char>, replies: Seq<Reply>) -> Plan<
        Result<(), Problem>,
    > {
        match self {
            Backend::Emulator(b) => b.installing(apk, replies),
            Backend::Waydroid(b) => b.installing(apk, replies),
        }
    }

    open spec fn rooting(&self, replies: Seq<Reply>) -> Plan<RootStatus> {
        match self {
            Backend::Emulator(b) => b.rooting(replies),
            Backend::Waydroid(b) => b.rooting(replies),
        }
    }

    open spec fn stopping(&self, replies: Seq<Reply>) -> Plan<()> {
        match self {
            Backend::Emulator(b) => b.stopping(replies),
            Backend::Waydroid(b) => b.stopping(replies),
        }
    }

    fn kind(&self) -> (r: RuntimeKind) {
        match self {
            Backend::Emulator(b) => b.kind(),
            Backend::Waydroid(b) => b.kind(),
        }
    }

    fn is_provisioned(&self, replies: &Vec<Reply>) -> (s: Step<bool>) {
        match self {
            Backend::Emulator(b) => b.is_provisioned(replies),
            Backend::Waydroid(b) => b.is_provisioned(replies),
        }
    }

    fn install_packages(&self, replies: &Vec<Reply>) -> (s: Step<Result<(), EngineError>>) {
        match self {
            Backend::Emulator(b) => b.install_packages(replies),
            Backend::Waydroid(b) => b.install_packages(replies),
        }
    }

    fn create_avd(&self, avd: &Avd, home: &str, replies: &Vec<Reply>) -> (s: Step<
        Result<(), EngineError>,
    >) {
        match self {
            Backend::Emulator(b) => b.create_avd(avd, home, replies),
            Backend::Waydroid(b) => b.create_avd(avd, home, replies),
        }
    }

    fn boot(&self, avd: &Avd, profile: BootProfile, log_file: &str, replies: &Vec<Reply>) -> (s:
        Step<Result<(), EngineError>>) {
        match self {
            Backend::Emulator(b) => b.boot(avd, profile, log_file, replies),
            Backend::Waydroid(b) => b.boot(avd, profile, log_file, replies),
        }
    }

    fn install_apk(&self, apk: &str, replies: &Vec<Reply>) -> (s: Step<Result<(), EngineError>>) {
        match self {
            Backend::Emulator(b) => b.install_apk(apk, replies),
            Backend::Waydroid(b) => b.install_apk(apk, replies),
        }
    }

    fn root_status(&self, replies: &Vec<Reply>) -> (s: Step<RootStatus>) {
        match self {
            Backend::Emulator(b) => b.root_status(replies),
            Backend::Waydroid(b) => b.root_status(replies),
        }
    }

    fn stop(&self, replies: &Vec<Reply>) -> (s: Step<()>) {
        match self {
            Backend::Emulator(b) => b.stop(replies),
            Backend::Waydroid(b) => b.stop(replies),
        }
    }
}

/// The runtime that the user selected.
pub fn make_backend(config: SdkConfig, runtime: RuntimeKind) -> (r: Backend)
    ensures
        r.runtime() == runtime,
        match r {
            Backend::Emulator(b) => b.config == config && b.gpu == Gfxstream,
            Backend::Waydroid(b) => b.config == config,
        },
{
    match runtime {
        RuntimeKind::Emulator => Backend::Emulator(EmulatorService::new(config)),
        RuntimeKind::Waydroid => Backend::Waydroid(WaydroidBackend::new(config)),
    }
}

/// Each runtime is installed into, booted and stopped by its own means: an app by
/// the command that a bundle's app is installed with too, and a device within three
/// minutes, by its name.
pub proof fn the_emulator_installs_and_stops<G: GpuBackend>(
    b: EmulatorService<G>,
    avd: Avd,
    profile: BootProfile,
    log: Seq<char>,
    apk: Seq<char>,
    replies: Seq<Reply>,
)
    ensures
        replies.len() == 0 ==> {
            &&& b.installing(apk, replies) matches Plan::Do(Act::Run(c))
            &&& c == crate::appify::install_call(b.config, apk)
            &&& c.exe == b.config.adb_path()
            &&& c.args == seq!["install"@, "-r"@, "-g"@, apk]
            &&& b.stopping(replies) matches Plan::Do(Act::Run(k))
            &&& k.exe == b.config.adb_path()
            &&& k.args == seq!["emu"@, "kill"@]
        },
        replies.len() > 0 ==> {
            &&& (b.installing(apk, replies) matches Plan::Done(Ok(_))) <==> crate::step::ran_well(
                replies[0],
            )
            &&& b.stopping(replies) is Done
        },
        b.runtime() is Emulator,
        b.booting(avd, profile, log, replies) == crate::emulator::boot_plan(
            b.config,
            crate::emulator::boot_args(avd, profile, b.gpu.flags(), false),
            log,
            180_000,
            replies,
        ),
{
}

/// A runtime that was chosen among several does what it does alone.
pub proof fn a_chosen_runtime_is_itself(
    e: EmulatorService<Gfxstream>,
    w: WaydroidBackend,
    avd: Avd,
    home: Seq<char>,
    profile: BootProfile,
    log: Seq<char>,
    apk: Seq<char>,
    replies: Seq<Reply>,
)
    ensures
        Backend::Emulator(e).runtime() is Emulator,
        Backend::Waydroid(w).runtime() is Waydroid,
        Backend::Emulator(e).provisioned(replies) == e.provisioned(replies),
        Backend::Waydroid(w).provisioned(replies) == w.provisioned(replies),
        Backend::Emulator(e).creating(avd, home, replies) == e.creating(avd, home, replies),
        Backend::Waydroid(w).creating(avd, home, replies) == w.creating(avd, home, replies),
        Backend::Emulator(e).booting(avd, profile, log, replies) == e.booting(
            avd,
            profile,
            log,
            replies,
        ),
        Backend::Waydroid(w).booting(avd, profile, log, replies) == w.booting(
            avd,
            profile,
            log,
            replies,
        ),
        Backend::Emulator(e).installing(apk, replies) == e.installing(apk, replies),
        Backend::Waydroid(w).installing(apk, replies) == w.installing(apk, replies),
        Backend::Emulator(e).installing_packages(replies) == e.installing_packages(replies),
        Backend::Waydroid(w).installing_packages(replies) == w.installing_packages(replies),
        Backend::Emulator(e).rooting(replies) == e.rooting(replies),
        Backend::Waydroid(w).rooting(replies) == w.rooting(replies),
        Backend::Emulator(e).stopping(replies) == e.stopping(replies),
        Backend::Waydroid(w).stopping(replies) == w.stopping(replies),
{
}

/// Of the paths of graphics the emulator's own can be used, and is asked for by
/// what it is told; the other cannot be used yet, and is told of nothing.
pub proof fn one_path_of_graphics_is_ready(g: Gfxstream, v: Venus)
    ensures
        g.ready(),
        !v.ready(),
        g.flags() == seq!["-gpu"@, "auto"@],
        v.flags().len() == 0,
        g.label() == "gfxstream"@,
        v.label() == "venus"@,
{
}

} // verus!
