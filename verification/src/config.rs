//! Where a self-contained Android SDK lives, and which versions it holds.

use crate::host::{is_name, Host};
use crate::number::{parse_u32, unsigned};
use crate::text::{cat2, cat6, includes, views};
use vstd::prelude::*;

verus! {

/// What the names and values of a list of settings hold, in order.
pub open spec fn pairs(v: Seq<(String, String)>) -> Seq<(Seq<char>, Seq<char>)> {
    v.map_values(|p: (String, String)| (p.0@, p.1@))
}

/// The SDK's place and versions. All of it lies under `sdk_root`.
#[derive(Debug)]
pub struct SdkConfig {
    pub host: Host,
    pub sdk_root: String,
    /// The API level as a number.
    pub api: u32,
    /// The API level as the SDK's package names write it.
    pub platform_tag: String,
    /// The kind of system image.
    pub image_type: String,
    pub abi: String,
    pub build_tools: String,
}

impl SdkConfig {
    /// `self` holds the versions that are used where nothing else is asked for.
    pub open spec fn has_default_versions(&self) -> bool {
        &&& self.api == 37
        &&& self.platform_tag@ == "37.0"@
        &&& self.image_type@ == "google_apis_ps16k"@
        &&& self.abi@ == "arm64-v8a"@
        &&& self.build_tools@ == "37.0.0"@
    }

    /// The place of `name` under the root.
    pub open spec fn under_root(&self, name: Seq<char>) -> Seq<char> {
        self.host.path(self.sdk_root@, name)
    }

    pub open spec fn system_image_name(&self) -> Seq<char> {
        "system-images;android-"@ + self.platform_tag@ + ";"@ + self.image_type@ + ";"@ + self.abi@
    }

    pub open spec fn platform_name(&self) -> Seq<char> {
        "platforms;android-"@ + self.platform_tag@
    }

    pub open spec fn cmdline_tools_dir(&self) -> Seq<char> {
        self.under_root("cmdline-tools/latest/bin"@)
    }

    pub open spec fn platform_tools_dir(&self) -> Seq<char> {
        self.under_root("platform-tools"@)
    }

    pub open spec fn emulator_dir(&self) -> Seq<char> {
        self.under_root("emulator"@)
    }

    pub open spec fn build_tools_dir(&self) -> Seq<char> {
        self.under_root("build-tools/"@ + self.build_tools@)
    }

    pub open spec fn adb_path(&self) -> Seq<char> {
        self.host.path(self.platform_tools_dir(), self.host.exe_name("adb"@))
    }

    pub open spec fn emulator_path(&self) -> Seq<char> {
        self.host.path(self.emulator_dir(), self.host.exe_name("emulator"@))
    }

    pub open spec fn sdkmanager_path(&self) -> Seq<char> {
        self.host.path(self.cmdline_tools_dir(), self.host.bat_name("sdkmanager"@))
    }

    pub open spec fn avdmanager_path(&self) -> Seq<char> {
        self.host.path(self.cmdline_tools_dir(), self.host.bat_name("avdmanager"@))
    }

    pub open spec fn aapt2_path(&self) -> Seq<char> {
        self.host.path(self.build_tools_dir(), self.host.exe_name("aapt2"@))
    }

    pub open spec fn ramdisk_path(&self) -> Seq<char> {
        self.under_root(
            "system-images/android-"@ + self.platform_tag@ + "/"@ + self.image_type@ + "/"@
                + self.abi@ + "/ramdisk.img"@,
        )
    }

    /// An image with the store is a locked build.
    pub open spec fn rootable(&self) -> bool {
        !crate::text::contains(self.image_type@, "playstore"@)
    }

    /// The directories that a child's search path begins with.
    pub open spec fn tool_paths(&self) -> Seq<Seq<char>> {
        seq![
            self.platform_tools_dir(),
            self.emulator_dir(),
            self.cmdline_tools_dir(),
            self.build_tools_dir(),
        ]
    }

    /// The settings that a child's environment holds.
    pub open spec fn tool_settings(&self) -> Seq<(Seq<char>, Seq<char>)> {
        seq![("ANDROID_SDK_ROOT"@, self.sdk_root@), ("ANDROID_HOME"@, self.sdk_root@)]
    }

    /// A copy of the configuration.
    pub fn copy(&self) -> (r: SdkConfig)
        ensures
            r.host == self.host,
            r.sdk_root@ == self.sdk_root@,
            r.api == self.api,
            r.platform_tag@ == self.platform_tag@,
            r.image_type@ == self.image_type@,
            r.abi@ == self.abi@,
            r.build_tools@ == self.build_tools@,
    {
        SdkConfig {
            host: self.host,
            sdk_root: self.sdk_root.clone(),
            api: self.api,
            platform_tag: self.platform_tag.clone(),
            image_type: self.image_type.clone(),
            abi: self.abi.clone(),
            build_tools: self.build_tools.clone(),
        }
    }

    /// The configuration that an environment asks for: what it holds under
    /// `APKRUN_SDK`, `APKRUN_API`, `APKRUN_API_TAG` and `APKRUN_IMG_TYPE`. The
    /// root is a directory under `cwd`, the working directory where there is
    /// one, unless the environment names it. An API level that is no number
    /// does not count.
    pub fn from_env(
        host: Host,
        cwd: Option<&str>,
        sdk: Option<&str>,
        api: Option<&str>,
        api_tag: Option<&str>,
        img_type: Option<&str>,
    ) -> (r: SdkConfig)
        ensures
            r.host == host,
            r.sdk_root@ == (match (sdk, cwd) {
                (Some(root), _) => root@,
                (None, Some(dir)) => host.path(dir@, ".android-sdk"@),
                (None, None) => host.path("."@, ".android-sdk"@),
            }),
            r.api == (match api {
                Some(text) => match unsigned(text@, u32::MAX as int) {
                    Some(n) => n,
                    None => 37int,
                },
                None => 37int,
            }),
            r.platform_tag@ == (match api_tag {
                Some(tag) => tag@,
                None => "37.0"@,
            }),
            r.image_type@ == (match img_type {
                Some(t) => t@,
                None => "google_apis_ps16k"@,
            }),
            r.abi@ == "arm64-v8a"@,
            r.build_tools@ == "37.0.0"@,
    {
        let mut cfg = SdkConfig::default();
        cfg.host = host;
        cfg.sdk_root = match (sdk, cwd) {
            (Some(root), _) => root.to_owned(),
            (None, Some(dir)) => host.join(dir, ".android-sdk"),
            (None, None) => host.join(".", ".android-sdk"),
        };
        if let Some(text) = api {
            if let Some(n) = parse_u32(text) {
                cfg.api = n;
            }
        }
        if let Some(tag) = api_tag {
            cfg.platform_tag = tag.to_owned();
        }
        if let Some(t) = img_type {
            cfg.image_type = t.to_owned();
        }
        cfg
    }

    /// The name of the system image's package.
    pub fn system_image(&self) -> (r: String)
        ensures
            r@ == self.system_image_name(),
    {
        cat6(
            "system-images;android-",
            self.platform_tag.as_str(),
            ";",
            self.image_type.as_str(),
            ";",
            self.abi.as_str(),
        )
    }

    /// The name of the platform's package.
    pub fn platform(&self) -> (r: String)
        ensures
            r@ == self.platform_name(),
    {
        cat2("platforms;android-", self.platform_tag.as_str())
    }

    pub fn cmdline_tools_bin(&self) -> (r: String)
        ensures
            r@ == self.cmdline_tools_dir(),
    {
        self.host.join(self.sdk_root.as_str(), "cmdline-tools/latest/bin")
    }

    pub fn platform_tools_bin(&self) -> (r: String)
        ensures
            r@ == self.platform_tools_dir(),
    {
        self.host.join(self.sdk_root.as_str(), "platform-tools")
    }

    pub fn emulator_bin(&self) -> (r: String)
        ensures
            r@ == self.emulator_dir(),
    {
        self.host.join(self.sdk_root.as_str(), "emulator")
    }

    pub fn build_tools_bin(&self) -> (r: String)
        ensures
            r@ == self.build_tools_dir(),
    {
        let rel = cat2("build-tools/", self.build_tools.as_str());
        self.host.join(self.sdk_root.as_str(), rel.as_str())
    }

    pub fn adb(&self) -> (r: String)
        ensures
            r@ == self.adb_path(),
    {
        self.host.join(self.platform_tools_bin().as_str(), self.host.exe("adb").as_str())
    }

    pub fn emulator(&self) -> (r: String)
        ensures
            r@ == self.emulator_path(),
    {
        self.host.join(self.emulator_bin().as_str(), self.host.exe("emulator").as_str())
    }

    pub fn sdkmanager(&self) -> (r: String)
        ensures
            r@ == self.sdkmanager_path(),
    {
        self.host.join(self.cmdline_tools_bin().as_str(), self.host.bat("sdkmanager").as_str())
    }

    pub fn avdmanager(&self) -> (r: String)
        ensures
            r@ == self.avdmanager_path(),
    {
        self.host.join(self.cmdline_tools_bin().as_str(), self.host.bat("avdmanager").as_str())
    }

    pub fn aapt2(&self) -> (r: String)
        ensures
            r@ == self.aapt2_path(),
    {
        self.host.join(self.build_tools_bin().as_str(), self.host.exe("aapt2").as_str())
    }

    /// The ramdisk of the system image.
    pub fn ramdisk_image(&self) -> (r: String)
        ensures
            r@ == self.ramdisk_path(),
    {
        let mut rel = cat6(
            "system-images/android-",
            self.platform_tag.as_str(),
            "/",
            self.image_type.as_str(),
            "/",
            self.abi.as_str(),
        );
        rel.append("/ramdisk.img");
        self.host.join(self.sdk_root.as_str(), rel.as_str())
    }

    /// Whether the image can be rooted.
    pub fn is_rootable(&self) -> (r: bool)
        ensures
            r == self.rootable(),
    {
        !includes(self.image_type.as_str(), "playstore")
    }

    /// The directories that a child's search path begins with.
    pub fn tool_dirs(&self) -> (r: Vec<String>)
        ensures
            views(r@) == self.tool_paths(),
    {
        let mut r: Vec<String> = Vec::new();
        r.push(self.platform_tools_bin());
        r.push(self.emulator_bin());
        r.push(self.cmdline_tools_bin());
        r.push(self.build_tools_bin());
        r
    }

    /// The settings that a child's environment holds.
    pub fn tool_env(&self) -> (r: Vec<(String, String)>)
        ensures
            pairs(r@) == self.tool_settings(),
    {
        let mut r: Vec<(String, String)> = Vec::new();
        r.push(("ANDROID_SDK_ROOT".to_owned(), self.sdk_root.clone()));
        r.push(("ANDROID_HOME".to_owned(), self.sdk_root.clone()));
        r
    }
}

impl Default for SdkConfig {
    fn default() -> (r: SdkConfig)
        ensures
            r.host == Host::Mac,
            r.sdk_root@ == ".android-sdk"@,
            r.has_default_versions(),
    {
        SdkConfig {
            host: Host::Mac,
            sdk_root: ".android-sdk".to_owned(),
            api: 37,
            platform_tag: "37.0".to_owned(),
            image_type: "google_apis_ps16k".to_owned(),
            abi: "arm64-v8a".to_owned(),
            build_tools: "37.0.0".to_owned(),
        }
    }
}

impl SdkConfig {
    /// What is put behind the root lies on the same drive, share or device as
    /// the root.
    pub open spec fn on_one_volume(&self) -> bool {
        let h = self.host;
        let p = h.prefix_len(self.sdk_root@);
        &&& h.prefix_len(self.platform_tools_dir()) == p
        &&& h.prefix_len(self.emulator_dir()) == p
        &&& h.prefix_len(self.cmdline_tools_dir()) == p
        &&& h.prefix_len(self.build_tools_dir()) == p
        &&& h.prefix_len(self.adb_path()) == p
        &&& h.prefix_len(self.emulator_path()) == p
        &&& h.prefix_len(self.sdkmanager_path()) == p
        &&& h.prefix_len(self.avdmanager_path()) == p
        &&& h.prefix_len(self.aapt2_path()) == p
    }
}

/// A letter or a digit, as the names of the tools are made of.
spec fn plain_char(c: char) -> bool {
    'a' <= c <= 'z' || '0' <= c <= '9'
}

/// A name of letters and digits, with an ending that some hosts want, is a name.
proof fn tool_name_is_name(host: Host, name: Seq<char>, ending: Seq<char>)
    requires
        name.len() >= 3,
        forall|i: int| 0 <= i < name.len() ==> plain_char(#[trigger] name[i]),
        ending == ".exe"@ || ending == ".bat"@,
    ensures
        is_name(host, name),
        is_name(host, name + ending),
{
    reveal_strlit(".exe");
    reveal_strlit(".bat");
    assert(plain_char(name[0]) && plain_char(name[1]));
    let q = name + ending;
    assert(q[0] == name[0] && q[1] == name[1]);
    assert forall|i: int| 0 <= i < q.len() implies !host.ends_part(false, #[trigger] q[i]) by {
        if i < name.len() {
            assert(plain_char(name[i]));
        } else {
            let k = i - name.len();
            assert(q[i] == ending[k]);
            assert(k == 0 || k == 1 || k == 2 || k == 3);
        }
    }
    assert forall|i: int| 0 <= i < name.len() implies !host.ends_part(
        false,
        #[trigger] name[i],
    ) by {
        assert(plain_char(name[i]));
    }
}

proof fn tool_names_are_plain()
    ensures
        "adb"@.len() >= 3,
        "emulator"@.len() >= 3,
        "aapt2"@.len() >= 3,
        "sdkmanager"@.len() >= 3,
        "avdmanager"@.len() >= 3,
        forall|i: int| 0 <= i < "adb"@.len() ==> plain_char(#[trigger] "adb"@[i]),
        forall|i: int| 0 <= i < "emulator"@.len() ==> plain_char(#[trigger] "emulator"@[i]),
        forall|i: int| 0 <= i < "aapt2"@.len() ==> plain_char(#[trigger] "aapt2"@[i]),
        forall|i: int| 0 <= i < "sdkmanager"@.len() ==> plain_char(#[trigger] "sdkmanager"@[i]),
        forall|i: int| 0 <= i < "avdmanager"@.len() ==> plain_char(#[trigger] "avdmanager"@[i]),
{
    reveal_strlit("adb");
    reveal_strlit("emulator");
    reveal_strlit("aapt2");
    reveal_strlit("sdkmanager");
    reveal_strlit("avdmanager");
}

/// A directory of the SDK lies under its root.
proof fn dir_lies_under_root(c: SdkConfig, rel: Seq<char>)
    requires
        rel.len() > 2,
        !c.host.separates(rel[0]),
        rel[1] != ':',
        c.host.prefix_len(c.under_root(rel)) == c.host.prefix_len(c.sdk_root@),
        c.host.is_verbatim(c.sdk_root@) ==> {
            let ps = c.host.parts(false, rel);
            ps.len() > 0 && ps[0] != "."@ && !ps.contains(".."@)
        },
    ensures
        c.host.lies_under(c.under_root(rel), c.sdk_root@),
        c.host.is_settled(c.under_root(rel)),
{
    c.host.joined_is_longer(c.sdk_root@, rel);
    c.host.joined_lies_under(c.sdk_root@, rel);
}

/// A tool lies in its directory, and so under the root.
proof fn tool_lies_in_dir(c: SdkConfig, dir: Seq<char>, name: Seq<char>)
    requires
        is_name(c.host, name),
        c.host.lies_under(dir, c.sdk_root@),
        c.host.is_settled(dir),
        c.host.prefix_len(c.host.path(dir, name)) == c.host.prefix_len(c.sdk_root@),
    ensures
        c.host.parent(c.host.path(dir, name)) == c.host.bare(dir),
        c.host.lies_under(c.host.path(dir, name), c.sdk_root@),
{
    let h = c.host;
    h.parent_undoes_join(dir, name);
    assert(!h.ends_part(false, name[0]));
    h.named_parts_hold_no_dots(name);
    h.joined_lies_under(dir, name);
    h.lying_under_is_transitive(h.path(dir, name), dir, c.sdk_root@);
}

/// Each tool is found in one of the directories that a child's search path begins
/// with, and these and the tools lie under the root of the SDK. The last of the
/// directories is the one with the version in its name, without the separators
/// at its end.
pub proof fn tools_lie_in_their_directories(c: SdkConfig)
    requires
        c.host == Host::Windows ==> c.on_one_volume(),
        c.host.is_verbatim(c.sdk_root@) ==> !c.host.parts(false, c.build_tools@).contains(".."@),
    ensures
        c.host.parent(c.adb_path()) == c.tool_paths()[0],
        c.host.parent(c.emulator_path()) == c.tool_paths()[1],
        c.host.parent(c.sdkmanager_path()) == c.tool_paths()[2],
        c.host.parent(c.avdmanager_path()) == c.tool_paths()[2],
        c.host.parent(c.aapt2_path()) == c.host.bare(c.tool_paths()[3]),
        c.has_default_versions() ==> c.host.parent(c.aapt2_path()) == c.tool_paths()[3],
        forall|i: int|
            0 <= i < c.tool_paths().len() ==> c.host.lies_under(
                #[trigger] c.tool_paths()[i],
                c.sdk_root@,
            ),
        c.host.lies_under(c.adb_path(), c.sdk_root@),
        c.host.lies_under(c.emulator_path(), c.sdk_root@),
        c.host.lies_under(c.sdkmanager_path(), c.sdk_root@),
        c.host.lies_under(c.avdmanager_path(), c.sdk_root@),
        c.host.lies_under(c.aapt2_path(), c.sdk_root@),
{
    let h = c.host;
    dirs_lie_under_root(c);
    tool_names_are_plain();
    tool_name_is_name(h, "adb"@, ".exe"@);
    tool_name_is_name(h, "emulator"@, ".exe"@);
    tool_name_is_name(h, "aapt2"@, ".exe"@);
    tool_name_is_name(h, "sdkmanager"@, ".bat"@);
    tool_name_is_name(h, "avdmanager"@, ".bat"@);
    tool_lies_in_dir(c, c.platform_tools_dir(), h.exe_name("adb"@));
    tool_lies_in_dir(c, c.emulator_dir(), h.exe_name("emulator"@));
    tool_lies_in_dir(c, c.cmdline_tools_dir(), h.bat_name("sdkmanager"@));
    tool_lies_in_dir(c, c.cmdline_tools_dir(), h.bat_name("avdmanager"@));
    tool_lies_in_dir(c, c.build_tools_dir(), h.exe_name("aapt2"@));
}

/// The directories of the tools lie under the root, and are as they stand.
proof fn dirs_lie_under_root(c: SdkConfig)
    requires
        c.host == Host::Windows ==> c.on_one_volume(),
        c.host.is_verbatim(c.sdk_root@) ==> !c.host.parts(false, c.build_tools@).contains(".."@),
    ensures
        c.host.lies_under(c.platform_tools_dir(), c.sdk_root@),
        c.host.is_settled(c.platform_tools_dir()),
        c.host.bare(c.platform_tools_dir()) == c.platform_tools_dir(),
        c.host.lies_under(c.emulator_dir(), c.sdk_root@),
        c.host.is_settled(c.emulator_dir()),
        c.host.bare(c.emulator_dir()) == c.emulator_dir(),
        c.host.lies_under(c.cmdline_tools_dir(), c.sdk_root@),
        c.host.is_settled(c.cmdline_tools_dir()),
        c.host.bare(c.cmdline_tools_dir()) == c.cmdline_tools_dir(),
        c.host.lies_under(c.build_tools_dir(), c.sdk_root@),
        c.host.is_settled(c.build_tools_dir()),
        c.has_default_versions() ==> c.host.bare(c.build_tools_dir()) == c.build_tools_dir(),
{
    let h = c.host;
    let build = "build-tools/"@ + c.build_tools@;
    dir_names_have_no_dots();
    first_part_is_there(h, "platform-tools"@);
    first_part_is_there(h, "emulator"@);
    first_part_is_there(h, "cmdline-tools/latest/bin"@);
    first_part_is_there(h, "build-tools/"@);
    h.parts_behind_separator(false, "build-tools/"@, c.build_tools@);
    let ps = h.parts(false, "build-tools/"@);
    let more = h.parts(false, c.build_tools@);
    assert(h.parts(false, build)[0] == ps[0]);
    assert(!more.contains(".."@) ==> !(ps + more).contains(".."@)) by {
        if !more.contains(".."@) && (ps + more).contains(".."@) {
            let i = choose|i: int| 0 <= i < (ps + more).len() && (ps + more)[i] == ".."@;
            if i < ps.len() {
                assert(ps[i] == ".."@);
            } else {
                assert(more[i - ps.len()] == ".."@);
            }
        }
    }
    dir_lies_under_root(c, "platform-tools"@);
    dir_lies_under_root(c, "emulator"@);
    dir_lies_under_root(c, "cmdline-tools/latest/bin"@);
    dir_lies_under_root(c, build);
    ends_as_written(c, "platform-tools"@);
    ends_as_written(c, "emulator"@);
    ends_as_written(c, "cmdline-tools/latest/bin"@);
    if c.has_default_versions() {
        reveal_strlit("37.0.0");
        assert(build.last() == '0');
        ends_as_written(c, build);
    }
}

proof fn dir_names_have_no_dots()
    ensures
        "platform-tools"@.len() > 2,
        "platform-tools"@[0] == 'p',
        "platform-tools"@[1] == 'l',
        "platform-tools"@.last() == 's',
        "emulator"@.len() > 2,
        "emulator"@[0] == 'e',
        "emulator"@[1] == 'm',
        "emulator"@.last() == 'r',
        "cmdline-tools/latest/bin"@.len() > 2,
        "cmdline-tools/latest/bin"@[0] == 'c',
        "cmdline-tools/latest/bin"@[1] == 'm',
        "cmdline-tools/latest/bin"@.last() == 'n',
        "build-tools/"@.len() > 2,
        "build-tools/"@[0] == 'b',
        "build-tools/"@[1] == 'u',
        "build-tools/"@.last() == '/',
        forall|i: int| 0 <= i < "platform-tools"@.len() ==> #[trigger] "platform-tools"@[i] != '.',
        forall|i: int| 0 <= i < "emulator"@.len() ==> #[trigger] "emulator"@[i] != '.',
        forall|i: int|
            0 <= i < "cmdline-tools/latest/bin"@.len() ==> #[trigger] "cmdline-tools/latest/bin"@[i]
                != '.',
        forall|i: int| 0 <= i < "build-tools/"@.len() ==> #[trigger] "build-tools/"@[i] != '.',
{
    reveal_strlit("platform-tools");
    reveal_strlit("emulator");
    reveal_strlit("cmdline-tools/latest/bin");
    reveal_strlit("build-tools/");
}

/// The first part of a text without a dot.
proof fn first_part_is_there(host: Host, rel: Seq<char>)
    requires
        rel.len() > 0,
        !host.separates(rel[0]),
        forall|i: int| 0 <= i < rel.len() ==> #[trigger] rel[i] != '.',
    ensures
        host.parts(false, rel).len() > 0,
        host.parts(false, rel)[0] != "."@,
        !host.parts(false, rel).contains(".."@),
{
    host.parts_without_dots(false, rel);
    host.first_part(rel);
}

/// The directory of what ends in neither a separator nor a dot is as it stands.
proof fn ends_as_written(c: SdkConfig, rel: Seq<char>)
    requires
        rel.len() > 0,
        !c.host.separates(rel[0]),
        c.host.prefix_len(rel) == 0,
        !c.host.separates(rel.last()),
        rel.last() != '.',
        c.host.is_settled(c.under_root(rel)),
    ensures
        c.host.bare(c.under_root(rel)) == c.under_root(rel),
{
    if c.host.is_verbatim(c.sdk_root@) {
        c.host.verbatim_ends_with(c.sdk_root@, rel);
    }
    assert(c.under_root(rel).last() == rel.last());
    c.host.bare_as_it_stands(c.under_root(rel));
}

/// Whether a file can be run: it is a file and, on a Unix host, some execute
/// bit of its `mode` is set.
pub fn is_executable(host: Host, is_file: bool, mode: u32) -> (r: bool)
    ensures
        r == (is_file && (host == Host::Windows || mode & 0o111 != 0)),
{
    is_file && (host == Host::Windows || mode & 0o111 != 0)
}

/// The tools of the SDK are programs and scripts at fixed places under its root,
/// called as the host calls such files.
pub proof fn tools_lie_at_fixed_places(c: SdkConfig)
    ensures
        ({
            let h = c.host;
            let root = c.sdk_root@;
            let exe = if h is Windows {
                ".exe"@
            } else {
                Seq::<char>::empty()
            };
            let bat = if h is Windows {
                ".bat"@
            } else {
                Seq::<char>::empty()
            };
            let scripts = h.path(root, "cmdline-tools/latest/bin"@);
            &&& c.adb_path() == h.path(h.path(root, "platform-tools"@), "adb"@ + exe)
            &&& c.emulator_path() == h.path(h.path(root, "emulator"@), "emulator"@ + exe)
            &&& c.sdkmanager_path() == h.path(scripts, "sdkmanager"@ + bat)
            &&& c.avdmanager_path() == h.path(scripts, "avdmanager"@ + bat)
            &&& c.aapt2_path() == h.path(
                h.path(root, "build-tools/"@ + c.build_tools@),
                "aapt2"@ + exe,
            )
            &&& c.tool_paths() == seq![
                h.path(root, "platform-tools"@),
                h.path(root, "emulator"@),
                scripts,
                h.path(root, "build-tools/"@ + c.build_tools@),
            ]
            &&& c.tool_settings() == seq![
                ("ANDROID_SDK_ROOT"@, root),
                ("ANDROID_HOME"@, root),
            ]
        }),
{
    assert("adb"@ + Seq::<char>::empty() =~= "adb"@);
    assert("emulator"@ + Seq::<char>::empty() =~= "emulator"@);
    assert("sdkmanager"@ + Seq::<char>::empty() =~= "sdkmanager"@);
    assert("avdmanager"@ + Seq::<char>::empty() =~= "avdmanager"@);
    assert("aapt2"@ + Seq::<char>::empty() =~= "aapt2"@);
}

/// An image is named by its platform, its kind and what it is built for, in that
/// order; its memory disk lies in a directory of the same parts.
pub proof fn images_are_named_by_their_parts(c: SdkConfig)
    ensures
        c.system_image_name() == "system-images;android-"@ + c.platform_tag@ + ";"@ + c.image_type@
            + ";"@ + c.abi@,
        c.platform_name() == "platforms;android-"@ + c.platform_tag@,
        c.ramdisk_path() == c.host.path(
            c.sdk_root@,
            "system-images/android-"@ + c.platform_tag@ + "/"@ + c.image_type@ + "/"@ + c.abi@
                + "/ramdisk.img"@,
        ),
        c.rootable() <==> !crate::text::contains(c.image_type@, "playstore"@),
{
}

} // verus!
