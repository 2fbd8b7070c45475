//! The runtime in a container, on Linux hosts alone.

use crate::backend::AndroidBackend;
use crate::config::SdkConfig;
use crate::error::{EngineError, Problem};
use crate::host::Host;
use crate::model::{Avd, BootProfile, RootStatus, RuntimeKind};
use crate::step::{is_try, once, outcome_of, run_once, Act, Action, Plan, Reply, Step};
use crate::subprocess::{plain, CommandLine};
use crate::text::{list1, list2, list3, views};
use vstd::prelude::*;

verus! {

/// What is said where the host is not a Linux one.
pub open spec fn unsupported() -> Problem {
    Problem::BackendUnimplemented("waydroid (Linux-only runtime; not available on this OS)"@)
}

fn refusal() -> (e: EngineError)
    ensures
        e@ == unsupported(),
{
    EngineError::BackendUnimplemented(
        "waydroid (Linux-only runtime; not available on this OS)".to_owned(),
    )
}

/// How an operation goes that is one command of the container's tool: nothing
/// is run on other hosts.
pub open spec fn command_plan(host: Host, args: Seq<Seq<char>>, replies: Seq<Reply>) -> Plan<
    Result<(), Problem>,
> {
    if host == Host::Linux {
        run_once(host, plain("waydroid"@, args), replies)
    } else {
        Plan::Done(Err(unsupported()))
    }
}

/// The runtime in a container.
pub struct WaydroidBackend {
    pub config: SdkConfig,
}

impl WaydroidBackend {
    pub fn new(config: SdkConfig) -> (r: WaydroidBackend)
        ensures
            r.config == config,
    {
        WaydroidBackend { config }
    }

    fn waydroid(&self, args: Vec<String>, replies: &Vec<Reply>) -> (s: Step<
        Result<(), EngineError>,
    >)
        ensures
            is_try(s, command_plan(self.config.host, views(args@), replies@)),
    {
        if self.config.host == Host::Linux {
            once(self.config.host, CommandLine::plain("waydroid", args), replies)
        } else {
            Step::Done(Err(refusal()))
        }
    }
}

impl AndroidBackend for WaydroidBackend {
    open spec fn runtime(&self) -> RuntimeKind {
        RuntimeKind::Waydroid
    }

    open spec fn provisioned(&self, replies: Seq<Reply>) -> Plan<bool> {
        if self.config.host != Host::Linux {
            Plan::Done(false)
        } else if replies.len() == 0 {
            Plan::Do(Act::Run(plain("waydroid"@, seq!["status"@])))
        } else {
            Plan::Done(
                match outcome_of(
                    self.config.host,
                    plain("waydroid"@, seq!["status"@]),
                    replies[0],
                ) {
                    Ok((status, _)) => status == 0,
                    Err(_) => false,
                },
            )
        }
    }

    open spec fn installing_packages(&self, replies: Seq<Reply>) -> Plan<Result<(), Problem>> {
        command_plan(self.config.host, seq!["init"@], replies)
    }

    /// The container is the only device, so that there is nothing to make.
    open spec fn creating(&self, avd: Avd, home: Seq<char>, replies: Seq<Reply>) -> Plan<
        Result<(), Problem>,
    > {
        if self.config.host == Host::Linux {
            Plan::Done(Ok(()))
        } else {
            Plan::Done(Err(unsupported()))
        }
    }

    /// The container keeps its state, whatever the profile.
    open spec fn booting(
        &self,
        avd: Avd,
        profile: BootProfile,
        log: Seq<char>,
        replies: Seq<Reply>,
    ) -> Plan<Result<(), Problem>> {
        command_plan(self.config.host, seq!["session"@, "start"@], replies)
    }

    open spec fn installing(&self, apk: Seq<char>, replies: Seq<Reply>) -> Plan<
        Result<(), Problem>,
    > {
        command_plan(self.config.host, seq!["app"@, "install"@, apk], replies)
    }

    open spec fn rooting(&self, replies: Seq<Reply>) -> Plan<RootStatus> {
        Plan::Done(RootStatus::NoRoot)
    }

    open spec fn stopping(&self, replies: Seq<Reply>) -> Plan<()> {
        if self.config.host == Host::Linux && replies.len() == 0 {
            Plan::Do(Act::Run(plain("waydroid"@, seq!["session"@, "stop"@])))
        } else {
            Plan::Done(())
        }
    }

    fn kind(&self) -> (r: RuntimeKind) {
        RuntimeKind::Waydroid
    }

    fn is_provisioned(&self, replies: &Vec<Reply>) -> (s: Step<bool>) {
        if self.config.host != Host::Linux {
            return Step::Done(false);
        }
        let c = CommandLine::plain("waydroid", list1("status"));
        if replies.len() == 0 {
            return Step::Do(Action::Run(c));
        }
        match replies[0].ran(self.config.host, &c) {
            Ok(done) => Step::Done(done.ok()),
            Err(_) => Step::Done(false),
        }
    }

    fn install_packages(&self, replies: &Vec<Reply>) -> (s: Step<Result<(), EngineError>>) {
        self.waydroid(list1("init"), replies)
    }

    fn create_avd(&self, avd: &Avd, home: &str, replies: &Vec<Reply>) -> (s: Step<
        Result<(), EngineError>,
    >) {
        if self.config.host == Host::Linux {
            Step::Done(Ok(()))
        } else {
            Step::Done(Err(refusal()))
        }
    }

    fn boot(&self, avd: &Avd, profile: BootProfile, log_file: &str, replies: &Vec<Reply>) -> (s:
        Step<Result<(), EngineError>>) {
        self.waydroid(list2("session", "start"), replies)
    }

    fn install_apk(&self, apk: &str, replies: &Vec<Reply>) -> (s: Step<Result<(), EngineError>>) {
        self.waydroid(list3("app", "install", apk), replies)
    }

    fn root_status(&self, replies: &Vec<Reply>) -> (s: Step<RootStatus>) {
        Step::Done(RootStatus::NoRoot)
    }

    fn stop(&self, replies: &Vec<Reply>) -> (s: Step<()>) {
        if self.config.host == Host::Linux && replies.len() == 0 {
            Step::Do(Action::Run(CommandLine::plain("waydroid", list2("session", "stop"))))
        } else {
            Step::Done(())
        }
    }
}

/// The container runs on one kind of host alone: elsewhere no operation runs
/// anything, and each that can fail says so.
pub proof fn the_container_needs_its_host(
    b: WaydroidBackend,
    avd: Avd,
    home: Seq<char>,
    apk: Seq<char>,
    profile: BootProfile,
    log: Seq<char>,
    replies: Seq<Reply>,
)
    requires
        !(b.config.host is Linux),
    ensures
        b.provisioned(replies) == Plan::Done(false),
        b.installing_packages(replies) == Plan::Done(Err::<(), Problem>(unsupported())),
        b.creating(avd, home, replies) == Plan::Done(Err::<(), Problem>(unsupported())),
        b.booting(avd, profile, log, replies) == Plan::Done(Err::<(), Problem>(unsupported())),
        b.installing(apk, replies) == Plan::Done(Err::<(), Problem>(unsupported())),
        b.stopping(replies) is Done,
        b.rooting(replies) == Plan::Done(RootStatus::NoRoot),
{
}

/// On its host each operation of the container is one command of its tool, and has
/// been done where that could be launched; the container is there where its tool
/// says so by ending well.
pub proof fn the_container_goes_by_its_tool(
    b: WaydroidBackend,
    avd: Avd,
    home: Seq<char>,
    apk: Seq<char>,
    profile: BootProfile,
    log: Seq<char>,
    replies: Seq<Reply>,
)
    requires
        b.config.host is Linux,
    ensures
        replies.len() == 0 ==> {
            &&& b.provisioned(replies) matches Plan::Do(Act::Run(c))
            &&& c.exe == "waydroid"@ && c.args == seq!["status"@]
            &&& b.installing_packages(replies) matches Plan::Do(Act::Run(i))
            &&& i.exe == "waydroid"@ && i.args == seq!["init"@]
            &&& b.booting(avd, profile, log, replies) matches Plan::Do(Act::Run(s))
            &&& s.exe == "waydroid"@ && s.args == seq!["session"@, "start"@]
            &&& b.installing(apk, replies) matches Plan::Do(Act::Run(a))
            &&& a.exe == "waydroid"@ && a.args == seq!["app"@, "install"@, apk]
            &&& b.stopping(replies) matches Plan::Do(Act::Run(t))
            &&& t.exe == "waydroid"@ && t.args == seq!["session"@, "stop"@]
        },
        replies.len() > 0 ==> {
            &&& b.provisioned(replies) == Plan::Done(crate::step::ran_well(replies[0]))
            &&& (b.booting(avd, profile, log, replies) matches Plan::Done(Ok(_))) <==> (replies[0] matches Reply::Ran(
                Ok(_),
            ))
            &&& (b.installing(apk, replies) matches Plan::Done(Ok(_))) <==> (replies[0] matches Reply::Ran(
                Ok(_),
            ))
            &&& (b.installing_packages(replies) matches Plan::Done(Ok(_))) <==> (replies[0] matches Reply::Ran(
                Ok(_),
            ))
            &&& b.stopping(replies) is Done
        },
        b.creating(avd, home, replies) matches Plan::Done(Ok(_)),
{
}

} // verus!
