//! What the engine speaks of: root states, boot profiles, runtimes, virtual
//! devices and the health report.

use crate::host::Host;
use crate::text::{list1, same, views};
use vstd::prelude::*;

verus! {

/// The root state of the running Android instance that apps can see.
#[derive(Debug, Clone, Copy, PartialEq, Eq, Structural)]
pub enum RootStatus {
    NoRoot,
    Adbd,
    Magisk,
}

impl RootStatus {
    /// The word for the state.
    pub open spec fn name(self) -> Seq<char> {
        match self {
            RootStatus::NoRoot => "none"@,
            RootStatus::Adbd => "adbd"@,
            RootStatus::Magisk => "magisk"@,
        }
    }

    pub fn label(self) -> (r: &'static str)
        ensures
            r@ == self.name(),
    {
        match self {
            RootStatus::NoRoot => "none",
            RootStatus::Adbd => "adbd",
            RootStatus::Magisk => "magisk",
        }
    }
}

/// How Android surfaces are presented on the host.
#[derive(Debug, Clone, Copy, PartialEq, Eq, Structural)]
pub enum WindowMode {
    /// The whole Android desktop in one window.
    Desktop,
    /// One window for each app.
    Coherence,
    /// A single window in the shape of a phone.
    Phone,
}

/// How the runtime boots.
#[derive(Debug, Clone, Copy, PartialEq, Eq, Structural)]
pub enum BootProfile {
    /// A cold boot every time, so that root changes persist.
    Developer,
    /// A saved snapshot is loaded, and saved again on exit.
    Consumer,
}

impl BootProfile {
    /// The word for the profile.
    pub open spec fn name(self) -> Seq<char> {
        match self {
            BootProfile::Developer => "developer"@,
            BootProfile::Consumer => "consumer"@,
        }
    }

    /// The profile that the word `s` stands for.
    pub open spec fn named(s: Seq<char>) -> Option<BootProfile> {
        if s == "developer"@ || s == "dev"@ {
            Some(BootProfile::Developer)
        } else if s == "consumer"@ || s == "user"@ {
            Some(BootProfile::Consumer)
        } else {
            None
        }
    }

    /// What the emulator is told about snapshots.
    pub open spec fn snapshot_flags(self) -> Seq<Seq<char>> {
        match self {
            BootProfile::Developer => seq!["-no-snapshot"@],
            BootProfile::Consumer => seq![],
        }
    }

    pub fn snapshot_args(self) -> (r: Vec<String>)
        ensures
            views(r@) == self.snapshot_flags(),
    {
        match self {
            BootProfile::Developer => list1("-no-snapshot"),
            BootProfile::Consumer => Vec::new(),
        }
    }

    pub fn label(self) -> (r: &'static str)
        ensures
            r@ == self.name(),
    {
        match self {
            BootProfile::Developer => "developer",
            BootProfile::Consumer => "consumer",
        }
    }

    pub fn parse(s: &str) -> (r: Option<BootProfile>)
        ensures
            r == BootProfile::named(s@),
    {
        if same(s, "developer") || same(s, "dev") {
            Some(BootProfile::Developer)
        } else if same(s, "consumer") || same(s, "user") {
            Some(BootProfile::Consumer)
        } else {
            None
        }
    }
}

/// A boot profile is found again by its label.
pub proof fn boot_profile_reads_back(p: BootProfile)
    ensures
        BootProfile::named(p.name()) == Some(p),
{
    reveal_strlit("developer");
    reveal_strlit("dev");
    reveal_strlit("consumer");
    assert("developer"@[0] == 'd' && "dev"@[0] == 'd' && "consumer"@[0] == 'c');
}

/// The runtime that backs the host.
#[derive(Debug, Clone, Copy, PartialEq, Eq, Structural)]
pub enum RuntimeKind {
    /// The emulator of the Android SDK.
    Emulator,
    /// A container on the kernel of a Linux host.
    Waydroid,
}

impl RuntimeKind {
    /// The word for the runtime.
    pub open spec fn name(self) -> Seq<char> {
        match self {
            RuntimeKind::Emulator => "emulator"@,
            RuntimeKind::Waydroid => "waydroid"@,
        }
    }

    /// The runtime that the word `s` stands for.
    pub open spec fn named(s: Seq<char>) -> Option<RuntimeKind> {
        if s == "emulator"@ || s == "avd"@ {
            Some(RuntimeKind::Emulator)
        } else if s == "waydroid"@ {
            Some(RuntimeKind::Waydroid)
        } else {
            None
        }
    }

    pub fn label(self) -> (r: &'static str)
        ensures
            r@ == self.name(),
    {
        match self {
            RuntimeKind::Emulator => "emulator",
            RuntimeKind::Waydroid => "waydroid",
        }
    }

    pub fn parse(s: &str) -> (r: Option<RuntimeKind>)
        ensures
            r == RuntimeKind::named(s@),
    {
        if same(s, "emulator") || same(s, "avd") {
            Some(RuntimeKind::Emulator)
        } else if same(s, "waydroid") {
            Some(RuntimeKind::Waydroid)
        } else {
            None
        }
    }

    /// Whether the runtime can run on `host`: the emulator on each, the
    /// container on Linux alone.
    pub fn supported_here(self, host: Host) -> (r: bool)
        ensures
            r == (self == RuntimeKind::Emulator || host == Host::Linux),
    {
        match self {
            RuntimeKind::Emulator => true,
            RuntimeKind::Waydroid => host == Host::Linux,
        }
    }
}

/// A runtime is found again by its label.
pub proof fn runtime_reads_back(k: RuntimeKind)
    ensures
        RuntimeKind::named(k.name()) == Some(k),
{
    reveal_strlit("emulator");
    reveal_strlit("avd");
    reveal_strlit("waydroid");
    assert("emulator"@[0] == 'e' && "avd"@[0] == 'a' && "waydroid"@[0] == 'w');
}

/// A virtual device that the engine manages.
#[derive(Debug, PartialEq, Eq)]
pub struct Avd {
    pub name: String,
    pub device_profile: String,
    /// Width, height and density of the screen.
    pub screen: (u32, u32, u32),
    /// The hash of the device profile, as the emulator computes it.
    pub device_hash: String,
}

impl Avd {
    /// The device is called `name` and has the profile of a medium phone.
    pub open spec fn is_medium_phone(&self, name: Seq<char>) -> bool {
        &&& self.name@ == name
        &&& self.device_profile@ == "medium_phone"@
        &&& self.screen == (1080u32, 2400u32, 420u32)
        &&& self.device_hash@ == "MD5:3db3250dab5d0d93b29353040181c7e9"@
    }

    pub fn phone() -> (r: Avd)
        ensures
            r.is_medium_phone("androlon_phone"@),
    {
        medium_phone("androlon_phone")
    }

    /// The display behind the windows of the apps, which each have one of
    /// their own.
    pub fn desktop() -> (r: Avd)
        ensures
            r.is_medium_phone("androlon_desktop"@),
    {
        medium_phone("androlon_desktop")
    }

    /// A copy of the device.
    pub fn copy(&self) -> (r: Avd)
        ensures
            r.name@ == self.name@,
            r.device_profile@ == self.device_profile@,
            r.screen == self.screen,
            r.device_hash@ == self.device_hash@,
    {
        Avd {
            name: self.name.clone(),
            device_profile: self.device_profile.clone(),
            screen: self.screen,
            device_hash: self.device_hash.clone(),
        }
    }
}

fn medium_phone(name: &str) -> (r: Avd)
    ensures
        r.is_medium_phone(name@),
{
    Avd {
        name: name.to_owned(),
        device_profile: "medium_phone".to_owned(),
        screen: (1080, 2400, 420),
        device_hash: "MD5:3db3250dab5d0d93b29353040181c7e9".to_owned(),
    }
}

/// Where the virtual devices live: `dir` where the environment names one,
/// a directory under `home` otherwise.
pub open spec fn avd_home_path(host: Host, dir: Option<&str>, home: Option<&str>) -> Seq<
    char,
> {
    match (dir, home) {
        (Some(dir), _) => dir@,
        (None, Some(home)) => host.path(home@, ".android/avd"@),
        (None, None) => ".android/avd"@,
    }
}

/// Where the virtual devices live, from what the environment holds under
/// `ANDROID_AVD_HOME` and `HOME`.
pub fn avd_home(host: Host, dir: Option<&str>, home: Option<&str>) -> (r: String)
    ensures
        r@ == avd_home_path(host, dir, home),
{
    match (dir, home) {
        (Some(dir), _) => dir.to_owned(),
        (None, Some(home)) => host.join(home, ".android/avd"),
        (None, None) => ".android/avd".to_owned(),
    }
}

/// Whether one required tool is there.
#[derive(Debug)]
pub struct ToolCheck {
    pub name: String,
    pub path: String,
    pub present: bool,
}

/// The health of the engine's parts.
#[derive(Debug)]
pub struct DoctorReport {
    pub sdk_root: String,
    pub api: u32,
    pub system_image: String,
    pub tools: Vec<ToolCheck>,
    pub avds: Vec<String>,
    pub emulator_running: bool,
    pub root_status: RootStatus,
    pub is_rootable: bool,
}

/// The words for states and profiles differ, and a profile is also known by a
/// short word; no other word stands for one.
pub proof fn words_tell_states_apart(a: RootStatus, b: RootStatus, s: Seq<char>)
    ensures
        a != b ==> a.name() != b.name(),
        BootProfile::named(s) == Some(BootProfile::Developer) <==> s == "developer"@ || s == "dev"@,
        BootProfile::named(s) == Some(BootProfile::Consumer) <==> s == "consumer"@ || s == "user"@,
        RuntimeKind::named(s) == Some(RuntimeKind::Emulator) <==> s == "emulator"@ || s == "avd"@,
        RuntimeKind::named(s) == Some(RuntimeKind::Waydroid) <==> s == "waydroid"@,
        BootProfile::Developer.snapshot_flags() == seq!["-no-snapshot"@],
        BootProfile::Consumer.snapshot_flags().len() == 0,
{
    reveal_strlit("none");
    reveal_strlit("adbd");
    reveal_strlit("magisk");
    reveal_strlit("developer");
    reveal_strlit("dev");
    reveal_strlit("consumer");
    reveal_strlit("user");
    reveal_strlit("emulator");
    reveal_strlit("avd");
    reveal_strlit("waydroid");
    assert("none"@[0] == 'n' && "adbd"@[0] == 'a' && "magisk"@[0] == 'm');
    assert("developer"@[0] == 'd' && "dev"@[0] == 'd' && "consumer"@[0] == 'c' && "user"@[0]
        == 'u');
    assert("emulator"@[0] == 'e' && "avd"@[0] == 'a' && "waydroid"@[0] == 'w');
}

/// The devices live where the environment says, before any other place.
pub proof fn devices_live_where_they_are_told(host: Host, dir: &str, home: &str)
    ensures
        avd_home_path(host, Some(dir), Some(home)) == dir@,
        avd_home_path(host, Some(dir), None) == dir@,
        avd_home_path(host, None, Some(home)) == host.path(home@, ".android/avd"@),
        avd_home_path(host, None, None) == ".android/avd"@,
{
}

} // verus!
