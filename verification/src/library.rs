//! The library of installed apps: what the console does when the user asks for
//! the list, opens an app, removes it, or makes a Mac app of it.
//!
//! Each wish is a chain of errands. The library says which errand comes next;
//! once it is run, what came of it is handed back.

use crate::adb::{adb_call, shell_call, AdbService};
use crate::appify::AppifyOutcome;
use crate::config::SdkConfig;
use crate::error::{problem_text, EngineError};
use crate::host::Host;
use crate::step::{outcome_of, Reply};
use crate::subprocess::{CommandLine, Invocation};
use crate::text::{
    begins, cat2, cat3, cat4, lines, list1, list2, list3, slice_text, starts_with, text_lines, to_chars,
    trim, trimmed, views,
};
use vstd::prelude::*;

verus! {

/// What the user asks of the library.
#[derive(Debug)]
pub enum LibraryRequest {
    Refresh,
    Launch(String),
    Uninstall(String),
    MakeApp(String),
}

/// Which console the library belongs to.
#[derive(Clone, Copy, Debug, PartialEq, Eq, Structural)]
pub enum Console {
    /// The one that shows apps itself, and removes them itself.
    Shell,
    /// The one that leaves the removal of an app with a bundle to the
    /// uninstaller.
    Hub,
}

/// The next thing to do for the library. All but the first name the package
/// that they are for.
#[derive(Debug)]
pub enum Errand {
    /// Ask the daemon which apps are installed.
    List,
    /// Start the player, a program that goes on by itself, with `args`.
    Open { package: String, program: String, args: Vec<String> },
    /// Find the bundle of the package.
    FindBundle(String),
    /// Start the uninstaller with the bundle.
    HandOver { package: String, program: String, args: Vec<String> },
    /// Run the command, which removes the package.
    Uninstall(String, CommandLine),
    /// Run the command, which says where the package lies on the device.
    Locate(String, CommandLine),
    /// Run the command, which fetches the package from the device's file `from`
    /// to the file `apk`.
    Pull { package: String, command: CommandLine, from: String, apk: String },
    /// Make the directory, and those above it. The bundle of `apk` is for it.
    MakeDir { package: String, apk: String, out_dir: String },
    /// Make a bundle of `apk` in the directory `out_dir`.
    Make { package: String, apk: String, out_dir: String, player: String },
    /// Remove the file that the package was fetched to.
    Remove(String, String),
}

/// What an `Errand` stands for.
#[verifier::ext_equal]
pub enum ErrandView {
    List,
    Open { package: Seq<char>, program: Seq<char>, args: Seq<Seq<char>> },
    FindBundle(Seq<char>),
    HandOver { package: Seq<char>, program: Seq<char>, args: Seq<Seq<char>> },
    Uninstall(Seq<char>, Invocation),
    Locate(Seq<char>, Invocation),
    Pull { package: Seq<char>, command: Invocation, from: Seq<char>, apk: Seq<char> },
    MakeDir { package: Seq<char>, apk: Seq<char>, out_dir: Seq<char> },
    Make { package: Seq<char>, apk: Seq<char>, out_dir: Seq<char>, player: Seq<char> },
    Remove(Seq<char>, Seq<char>),
}

impl View for Errand {
    type V = ErrandView;

    open spec fn view(&self) -> ErrandView {
        match self {
            Errand::List => ErrandView::List,
            Errand::Open { package, program, args } => ErrandView::Open {
                package: package@,
                program: program@,
                args: views(args@),
            },
            Errand::FindBundle(package) => ErrandView::FindBundle(package@),
            Errand::HandOver { package, program, args } => ErrandView::HandOver {
                package: package@,
                program: program@,
                args: views(args@),
            },
            Errand::Uninstall(package, c) => ErrandView::Uninstall(package@, c@),
            Errand::Locate(package, c) => ErrandView::Locate(package@, c@),
            Errand::Pull { package, command, from, apk } => ErrandView::Pull {
                package: package@,
                command: command@,
                from: from@,
                apk: apk@,
            },
            Errand::MakeDir { package, apk, out_dir } => ErrandView::MakeDir {
                package: package@,
                apk: apk@,
                out_dir: out_dir@,
            },
            Errand::Remove(package, apk) => ErrandView::Remove(package@, apk@),
            Errand::Make { package, apk, out_dir, player } => ErrandView::Make {
                package: package@,
                apk: apk@,
                out_dir: out_dir@,
                player: player@,
            },
        }
    }
}

/// What came of an errand, with the package that it was for.
#[derive(Debug)]
pub enum Came {
    /// The apps that are installed, or why they are not known.
    Listed(Result<Vec<String>, String>),
    Opened(String, Result<(), String>),
    /// The bundle of the package, where there is one.
    Found(String, Option<String>),
    HandedOver(String, Result<(), String>),
    Uninstalled(String, Reply),
    Located(String, Reply),
    Pulled { package: String, from: String, apk: String, reply: Reply },
    /// The directory for the bundle of `apk` was made, or could not be.
    DirMade { package: String, apk: String },
    Made { package: String, apk: String, made: Result<AppifyOutcome, EngineError> },
    /// The file that the package was fetched to is gone, or could not be removed.
    Removed(String),
}

/// What becomes of the list that is shown.
#[derive(Debug)]
pub enum Listing {
    /// The wish is not over yet.
    Pending,
    /// The wish is over and has not changed the list.
    Kept,
    /// The list is this one now.
    New(Vec<String>),
}

/// What a `Listing` stands for.
pub enum ListingView {
    Pending,
    Kept,
    New(Seq<Seq<char>>),
}

impl View for Listing {
    type V = ListingView;

    open spec fn view(&self) -> ListingView {
        match self {
            Listing::Pending => ListingView::Pending,
            Listing::Kept => ListingView::Kept,
            Listing::New(list) => ListingView::New(views(list@)),
        }
    }
}

/// How a wish goes on: a line for the log, what becomes of the list, and the
/// next errand.
#[derive(Debug)]
pub struct Turn {
    pub line: Option<String>,
    pub listing: Listing,
    pub next: Option<Errand>,
}

/// What a `Turn` stands for.
pub struct TurnView {
    pub line: Option<Seq<char>>,
    pub listing: ListingView,
    pub next: Option<ErrandView>,
}

impl View for Turn {
    type V = TurnView;

    open spec fn view(&self) -> TurnView {
        TurnView {
            line: crate::step::text_of(self.line),
            listing: self.listing@,
            next: match self.next {
                Some(e) => Some(e@),
                None => None,
            },
        }
    }
}

/// The wish goes on with `errand`, and nothing is said.
pub open spec fn goes_on(errand: ErrandView) -> TurnView {
    TurnView { line: None, listing: ListingView::Pending, next: Some(errand) }
}

/// The wish is over with `line`, and the list is as it was.
pub open spec fn over(line: Seq<char>) -> TurnView {
    TurnView { line: Some(line), listing: ListingView::Kept, next: None }
}

/// The wish goes on with `errand`, and nothing is said.
fn go_on(errand: Errand) -> (r: Turn)
    ensures
        r@ == goes_on(errand@),
{
    Turn { line: None, listing: Listing::Pending, next: Some(errand) }
}

/// The wish is over with `line`.
fn end(line: String) -> (r: Turn)
    ensures
        r@ == over(line@),
{
    Turn { line: Some(line), listing: Listing::Kept, next: None }
}

/// What stands behind `package:` in the first line that begins with it.
pub open spec fn path_in(ls: Seq<Seq<char>>) -> Option<Seq<char>>
    decreases ls.len(),
{
    if ls.len() == 0 {
        None
    } else if starts_with(ls[0], "package:"@) {
        Some(trim(ls[0].skip(8)))
    } else {
        path_in(ls.skip(1))
    }
}

/// Where a package lies on the device, as the reply of its manager says.
pub open spec fn located(config: SdkConfig, c: Invocation, r: Reply) -> Option<Seq<char>> {
    match outcome_of(config.host, c, r) {
        Ok((_, text)) => path_in(lines(trim(text))),
        Err(_) => None,
    }
}

/// Where a package lies on the device, as the output of its manager says.
pub fn device_path(output: &str) -> (r: Option<String>)
    ensures
        crate::step::text_of(r) == path_in(lines(trim(output@))),
{
    let all = text_lines(trimmed(output).as_str());
    let ghost whole = views(all@);
    let mut i: usize = 0;
    assert(whole.skip(0) =~= whole);
    while i < all.len()
        invariant
            i <= all.len(),
            whole == views(all@),
            whole == lines(trim(output@)),
            path_in(whole) == path_in(whole.skip(i as int)),
        decreases all.len() - i,
    {
        assert(whole.skip(i as int)[0] == all@[i as int]@);
        if begins(all[i].as_str(), "package:") {
            proof {
                reveal_strlit("package:");
            }
            let v = to_chars(all[i].as_str());
            assert(v@.subrange(8, v@.len() as int) =~= v@.skip(8));
            return Some(trimmed(slice_text(&v, 8, v.len()).as_str()));
        }
        assert(whole.skip(i as int).skip(1) =~= whole.skip(i + 1));
        i = i + 1;
    }
    None
}

/// The library of a console.
#[derive(Debug)]
pub struct Library {
    pub config: SdkConfig,
    pub console: Console,
    /// Where files lie that are of use for a while.
    pub temp: String,
    /// The user's home, where it is known.
    pub home: Option<String>,
    /// The console's own program, or why it is not known.
    pub exe: Result<String, String>,
}

impl Library {
    /// The command that removes a package.
    pub open spec fn uninstall_call(&self, package: Seq<char>) -> Invocation {
        adb_call(self.config, seq!["uninstall"@, package])
    }

    /// The command that says where a package lies.
    pub open spec fn locate_call(&self, package: Seq<char>) -> Invocation {
        shell_call(self.config, seq!["pm"@, "path"@, package])
    }

    /// The command that fetches what lies at `from`.
    pub open spec fn pull_call(&self, from: Seq<char>, to: Seq<char>) -> Invocation {
        adb_call(self.config, seq!["pull"@, from, to])
    }

    /// The file that a package is fetched to.
    pub open spec fn local(&self, package: Seq<char>) -> Seq<char> {
        self.config.host.path(self.temp@, package + ".apk"@)
    }

    /// Where Mac apps are made.
    pub open spec fn out_dir(&self) -> Seq<char> {
        match self.home {
            Some(h) => self.config.host.path(h@, "Applications"@),
            None => "."@,
        }
    }

    /// The player beside the console's own program, or by its bare name.
    pub open spec fn player(&self) -> Seq<char> {
        match self.exe {
            Ok(exe) => Host::Linux.sibling(exe@, "androlon-player"@),
            Err(_) => "androlon-player"@,
        }
    }

    /// How the opening of a package begins: the hub needs to know where its own
    /// program lies.
    pub open spec fn opening(&self, package: Seq<char>) -> TurnView {
        match (self.console, self.exe) {
            (Console::Hub, Err(e)) => over("✗ open "@ + package + ": "@ + e@),
            _ => goes_on(
                ErrandView::Open {
                    package,
                    program: self.player(),
                    args: seq!["--app"@, package],
                },
            ),
        }
    }

    /// How the removal of the bundle of a package begins.
    pub open spec fn handing_over(&self, package: Seq<char>, bundle: Seq<char>) -> TurnView {
        match self.exe {
            Err(e) => over("✗ uninstaller: "@ + e@),
            Ok(exe) => goes_on(
                ErrandView::HandOver {
                    package,
                    program: Host::Linux.sibling(exe@, "androlon-uninstaller"@),
                    args: seq![bundle],
                },
            ),
        }
    }

    /// How a wish begins.
    pub open spec fn begun(&self, req: LibraryRequest) -> TurnView {
        match req {
            LibraryRequest::Refresh => goes_on(ErrandView::List),
            LibraryRequest::Launch(p) => self.opening(p@),
            LibraryRequest::Uninstall(p) => match self.console {
                Console::Shell => goes_on(
                    ErrandView::Uninstall(p@, self.uninstall_call(p@)),
                ),
                Console::Hub => goes_on(ErrandView::FindBundle(p@)),
            },
            LibraryRequest::MakeApp(p) => goes_on(
                ErrandView::Locate(p@, self.locate_call(p@)),
            ),
        }
    }

    /// What is said of the removal of a package.
    pub open spec fn removal(&self, package: Seq<char>, reply: Reply) -> Seq<char> {
        match outcome_of(self.config.host, self.uninstall_call(package), reply) {
            Ok((status, text)) => if status == 0 {
                "✓ uninstalled "@ + package
            } else {
                "✗ uninstall "@ + package + ": "@ + trim(text)
            },
            Err(e) => "✗ uninstall "@ + package + ": "@ + problem_text(e),
        }
    }

    /// How a wish goes on once `came` came of its last errand.
    pub open spec fn after(&self, came: Came) -> TurnView {
        match came {
            Came::Listed(Ok(list)) => TurnView {
                line: None,
                listing: ListingView::New(views(list@)),
                next: None,
            },
            Came::Listed(Err(e)) => over("✗ library: "@ + e@),
            Came::Opened(p, Ok(_)) => over("✓ opening "@ + p@),
            Came::Opened(p, Err(e)) => over("✗ open "@ + p@ + ": "@ + e@),
            Came::Found(p, Some(bundle)) => self.handing_over(p@, bundle@),
            Came::Found(p, None) => goes_on(ErrandView::Uninstall(p@, self.uninstall_call(p@))),
            Came::HandedOver(p, Ok(_)) => over(
                "› uninstalling "@ + p@ + " — confirm in the window"@,
            ),
            Came::HandedOver(_, Err(e)) => over("✗ uninstaller: "@ + e@),
            Came::Uninstalled(p, reply) => TurnView {
                line: Some(self.removal(p@, reply)),
                listing: ListingView::Pending,
                next: Some(ErrandView::List),
            },
            Came::Located(p, reply) => match located(
                self.config,
                self.locate_call(p@),
                reply,
            ) {
                None => over("✗ "@ + p@ + ": could not locate its APK on the device"@),
                Some(from) => goes_on(
                    ErrandView::Pull {
                        package: p@,
                        command: self.pull_call(from, self.local(p@)),
                        from,
                        apk: self.local(p@),
                    },
                ),
            },
            Came::Pulled { package, from, apk, reply } => match outcome_of(
                self.config.host,
                self.pull_call(from@, apk@),
                reply,
            ) {
                Ok(_) => goes_on(
                    ErrandView::MakeDir {
                        package: package@,
                        apk: apk@,
                        out_dir: self.out_dir(),
                    },
                ),
                Err(e) => over("✗ pull "@ + package@ + ": "@ + problem_text(e)),
            },
            Came::DirMade { package, apk } => goes_on(
                ErrandView::Make {
                    package: package@,
                    apk: apk@,
                    out_dir: self.out_dir(),
                    player: self.player(),
                },
            ),
            Came::Made { package, apk, made } => TurnView {
                line: Some(
                    match made {
                        Ok(done) => "✓ "@ + done.label@ + " → "@ + done.bundle@,
                        Err(e) => "✗ make app "@ + package@ + ": "@ + problem_text(e@),
                    },
                ),
                listing: ListingView::Pending,
                next: Some(ErrandView::Remove(package@, apk@)),
            },
            Came::Removed(_) => TurnView { line: None, listing: ListingView::Kept, next: None },
        }
    }

    fn adb(&self) -> (r: AdbService<'_>)
        ensures
            r.config == &self.config,
    {
        AdbService::new(&self.config)
    }

    fn uninstall_command(&self, package: &str) -> (c: CommandLine)
        ensures
            c@ == self.uninstall_call(package@),
    {
        self.adb().adb(list2("uninstall", package))
    }

    fn locate_command(&self, package: &str) -> (c: CommandLine)
        ensures
            c@ == self.locate_call(package@),
    {
        self.adb().shell(list3("pm", "path", package))
    }

    fn player_path(&self) -> (r: String)
        ensures
            r@ == self.player(),
    {
        match &self.exe {
            Ok(exe) => Host::Linux.with_file_name(exe.as_str(), "androlon-player"),
            Err(_) => "androlon-player".to_owned(),
        }
    }

    fn out_path(&self) -> (r: String)
        ensures
            r@ == self.out_dir(),
    {
        match &self.home {
            Some(h) => self.config.host.join(h.as_str(), "Applications"),
            None => ".".to_owned(),
        }
    }

    /// Begins what the user asks for.
    pub fn begin(&self, req: LibraryRequest) -> (r: Turn)
        ensures
            r@ == self.begun(req),
    {
        match req {
            LibraryRequest::Refresh => go_on(Errand::List),
            LibraryRequest::Launch(package) => {
                if let Console::Hub = self.console {
                    if let Err(e) = &self.exe {
                        return end(cat4("✗ open ", package.as_str(), ": ", e.as_str()));
                    }
                }
                let args = list2("--app", package.as_str());
                go_on(Errand::Open { package, program: self.player_path(), args })
            },
            LibraryRequest::Uninstall(package) => match self.console {
                Console::Shell => {
                    let c = self.uninstall_command(package.as_str());
                    go_on(Errand::Uninstall(package, c))
                },
                Console::Hub => go_on(Errand::FindBundle(package)),
            },
            LibraryRequest::MakeApp(package) => {
                let c = self.locate_command(package.as_str());
                go_on(Errand::Locate(package, c))
            },
        }
    }

    /// Says what came of the removal of a package.
    fn removal_line(&self, package: &str, reply: &Reply) -> (r: String)
        ensures
            r@ == self.removal(package@, *reply),
    {
        let c = self.uninstall_command(package);
        match reply.ran(self.config.host, &c) {
            Ok(out) => if out.ok() {
                cat2("✓ uninstalled ", package)
            } else {
                cat4("✗ uninstall ", package, ": ", out.trimmed().as_str())
            },
            Err(e) => cat4("✗ uninstall ", package, ": ", e.message().as_str()),
        }
    }

    /// Goes on with a package that was looked for on the device.
    fn on_located(&self, package: String, reply: &Reply) -> (r: Turn)
        ensures
            r@ == self.after(Came::Located(package, *reply)),
    {
        let c = self.locate_command(package.as_str());
        let from = match reply.ran(self.config.host, &c) {
            Ok(out) => device_path(out.output.as_str()),
            Err(_) => None,
        };
        match from {
            None => end(
                cat3("✗ ", package.as_str(), ": could not locate its APK on the device"),
            ),
            Some(from) => {
                let name = cat2(package.as_str(), ".apk");
                let apk = self.config.host.join(self.temp.as_str(), name.as_str());
                let command = self.adb().adb(list3("pull", from.as_str(), apk.as_str()));
                go_on(Errand::Pull { package, command, from, apk })
            },
        }
    }

    /// Goes on with a package that was fetched from the device.
    fn on_pulled(&self, package: String, from: &String, apk: String, reply: &Reply) -> (r: Turn)
        ensures
            r@ == self.after(Came::Pulled { package, from: *from, apk, reply: *reply }),
    {
        let c = self.adb().adb(list3("pull", from.as_str(), apk.as_str()));
        match reply.ran(self.config.host, &c) {
            Ok(_) => {
                let out_dir = self.out_path();
                go_on(Errand::MakeDir { package, apk, out_dir })
            },
            Err(e) => end(cat4("✗ pull ", package.as_str(), ": ", e.message().as_str())),
        }
    }

    /// Goes on with a wish once `came` came of its last errand.
    pub fn advance(&self, came: Came) -> (r: Turn)
        ensures
            r@ == self.after(came),
    {
        match came {
            Came::Listed(Ok(list)) => Turn {
                line: None,
                listing: Listing::New(list),
                next: None,
            },
            Came::Listed(Err(e)) => end(cat2("✗ library: ", e.as_str())),
            Came::Opened(p, Ok(_)) => end(cat2("✓ opening ", p.as_str())),
            Came::Opened(p, Err(e)) => end(cat4("✗ open ", p.as_str(), ": ", e.as_str())),
            Came::Found(p, Some(bundle)) => match &self.exe {
                Err(e) => end(cat2("✗ uninstaller: ", e.as_str())),
                Ok(exe) => {
                    let program = Host::Linux.with_file_name(exe.as_str(), "androlon-uninstaller");
                    let args = list1(bundle.as_str());
                    go_on(Errand::HandOver { package: p, program, args })
                },
            },
            Came::Found(p, None) => {
                let c = self.uninstall_command(p.as_str());
                go_on(Errand::Uninstall(p, c))
            },
            Came::HandedOver(p, Ok(_)) => end(
                cat3("› uninstalling ", p.as_str(), " — confirm in the window"),
            ),
            Came::HandedOver(_, Err(e)) => end(cat2("✗ uninstaller: ", e.as_str())),
            Came::Uninstalled(p, reply) => Turn {
                line: Some(self.removal_line(p.as_str(), &reply)),
                listing: Listing::Pending,
                next: Some(Errand::List),
            },
            Came::Located(p, reply) => self.on_located(p, &reply),
            Came::Pulled { package, from, apk, reply } => self.on_pulled(
                package,
                &from,
                apk,
                &reply,
            ),
            Came::DirMade { package, apk } => {
                let out_dir = self.out_path();
                let player = self.player_path();
                go_on(Errand::Make { package, apk, out_dir, player })
            },
            Came::Made { package, apk, made } => {
                let line = match &made {
                    Ok(done) => cat4("✓ ", done.label.as_str(), " → ", done.bundle.as_str()),
                    Err(e) => cat4("✗ make app ", package.as_str(), ": ", e.message().as_str()),
                };
                Turn {
                    line: Some(line),
                    listing: Listing::Pending,
                    next: Some(Errand::Remove(package, apk)),
                }
            },
            Came::Removed(_) => Turn { line: None, listing: Listing::Kept, next: None },
        }
    }
}

/// The listing is settled exactly when a wish is over.
pub proof fn wishes_settle_the_listing(library: Library, req: LibraryRequest, came: Came)
    ensures
        library.begun(req).next is None <==> !(library.begun(req).listing is Pending),
        library.after(came).next is None <==> !(library.after(came).listing is Pending),
{
}

/// What was fetched to make a bundle of is removed, whether or not the bundle
/// could be made.
pub proof fn what_was_fetched_is_removed(
    library: Library,
    package: String,
    apk: String,
    made: Result<AppifyOutcome, EngineError>,
)
    ensures
        library.after(Came::Made { package, apk, made }).next == Some(
            ErrandView::Remove(package@, apk@),
        ),
{
}

/// A console that leaves bundles to the uninstaller removes a package by itself
/// only where it has no bundle.
pub proof fn bundles_are_left_to_the_uninstaller(library: Library, package: String, came: Came)
    requires
        library.console == Console::Hub,
    ensures
        !(library.begun(LibraryRequest::Uninstall(package)).next matches Some(
            ErrandView::Uninstall(_, _),
        )),
        library.after(came).next matches Some(ErrandView::Uninstall(p, _)) ==> (came matches
            Came::Found(q, None) && q@ == p),
{
}

/// A wish for a Mac app goes through its parts in order, each with what the one
/// before it gave: the package is looked for on the device, fetched from where it
/// lies there, a bundle made of the file that it was fetched to, and that file
/// removed. Everything is for the package that the wish is for.
pub proof fn an_app_is_made_of_what_was_fetched(
    library: Library,
    package: String,
    from: String,
    apk: String,
    reply: Reply,
)
    ensures
        library.begun(LibraryRequest::MakeApp(package)).next matches Some(ErrandView::Locate(p, c))
            && p == package@ && c.exe == library.config.adb_path() && c.args == seq![
            "shell"@,
            "pm"@,
            "path"@,
            package@,
        ],
        ({
            let t = library.after(Came::Located(package, reply));
            match reply {
                Reply::Ran(Ok(out)) => match path_in(
                    lines(
                        trim(
                            crate::subprocess::lossy(out.stdout@) + crate::subprocess::lossy(
                                out.stderr@,
                            ),
                        ),
                    ),
                ) {
                    Some(at) => t.next matches Some(ErrandView::Pull { package: p, command, from: f, apk: a })
                        && p == package@ && f == at && command.exe == library.config.adb_path()
                        && command.args == seq!["pull"@, at, a] && a == library.config.host.path(
                        library.temp@,
                        package@ + ".apk"@,
                    ),
                    None => t.next is None && t.line is Some,
                },
                _ => t.next is None && t.line is Some,
            }
        }),
        ({
            let t = library.after(Came::Pulled { package, from, apk, reply });
            match reply {
                Reply::Ran(Ok(_)) => t.next matches Some(ErrandView::MakeDir { package: p, apk: a, out_dir })
                    && p == package@ && a == apk@ && out_dir == library.out_dir(),
                _ => t.next is None && t.line is Some,
            }
        }),
        library.after(Came::DirMade { package, apk }).next matches Some(
            ErrandView::Make { package: p, apk: a, out_dir, player },
        ) && p == package@ && a == apk@ && out_dir == library.out_dir() && player
            == library.player(),
        library.after(Came::Removed(package)).next is None,
        library.after(Came::Removed(package)).listing is Kept,
{
    assert(seq!["shell"@] + seq!["pm"@, "path"@, package@] =~= seq![
        "shell"@,
        "pm"@,
        "path"@,
        package@,
    ]);
}

/// The list that is shown is the one that the daemon gave; it changes in no other
/// way, and it is asked for where the user asks and behind every removal of a
/// package, whatever came of that.
pub proof fn the_list_is_the_daemons(library: Library, came: Came, package: String, reply: Reply)
    ensures
        library.after(came).listing is New <==> (came matches Came::Listed(Ok(_))),
        came matches Came::Listed(Ok(list)) ==> library.after(came).listing == ListingView::New(
            views(list@),
        ),
        library.begun(LibraryRequest::Refresh).next == Some(ErrandView::List),
        library.after(Came::Uninstalled(package, reply)).next == Some(ErrandView::List),
        library.after(came).next == Some(ErrandView::List) ==> came is Uninstalled,
{
}

/// A package is opened by the player, with the package as the app to show; where
/// the hub does not know its own program, that is said instead.
pub proof fn a_package_is_opened_by_the_player(library: Library, package: String, e: String)
    ensures
        ({
            let t = library.begun(LibraryRequest::Launch(package));
            match t.next {
                Some(errand) => {
                    &&& library.console is Shell || library.exe is Ok
                    &&& errand matches ErrandView::Open { package: p, program, args }
                    &&& p == package@
                    &&& args == seq!["--app"@, package@]
                    &&& library.exe matches Ok(exe) ==> program == Host::Linux.sibling(
                        exe@,
                        "androlon-player"@,
                    )
                    &&& library.exe is Err ==> program == "androlon-player"@
                },
                None => {
                    &&& library.console is Hub
                    &&& library.exe matches Err(why)
                    &&& t.line == Some("✗ open "@ + package@ + ": "@ + why@)
                },
            }
        }),
        library.after(Came::Opened(package, Ok(()))).line == Some("✓ opening "@ + package@),
        library.after(Came::Opened(package, Err(e))).line == Some(
            "✗ open "@ + package@ + ": "@ + e@,
        ),
        library.after(Came::Opened(package, Err(e))).next is None,
{
}

/// A package is removed by its name, and is said to be gone exactly where the
/// command for that ended well; what the device said is told otherwise. The
/// bundle of a package is handed to the uninstaller beside the console's own
/// program, which is given that bundle.
pub proof fn a_removal_says_what_came_of_it(
    library: Library,
    package: String,
    reply: Reply,
    bundle: String,
)
    ensures
        library.uninstall_call(package@).exe == library.config.adb_path(),
        library.uninstall_call(package@).args == seq!["uninstall"@, package@],
        crate::step::ran_well(reply) ==> library.after(Came::Uninstalled(package, reply)).line
            == Some("✓ uninstalled "@ + package@),
        reply matches Reply::Ran(Ok(out)) ==> out.code != Some(0i32) ==> library.after(
            Came::Uninstalled(package, reply),
        ).line == Some(
            "✗ uninstall "@ + package@ + ": "@ + trim(
                crate::subprocess::lossy(out.stdout@) + crate::subprocess::lossy(out.stderr@),
            ),
        ),
        library.console is Shell ==> library.begun(LibraryRequest::Uninstall(package)).next == Some(
            ErrandView::Uninstall(package@, library.uninstall_call(package@)),
        ),
        library.console is Hub ==> library.begun(LibraryRequest::Uninstall(package)).next == Some(
            ErrandView::FindBundle(package@),
        ),
        library.after(Came::Found(package, None)).next == Some(
            ErrandView::Uninstall(package@, library.uninstall_call(package@)),
        ),
        library.exe matches Ok(exe) ==> (library.after(Came::Found(package, Some(bundle))).next
            matches Some(ErrandView::HandOver { package: p, program, args }) && p == package@
            && program == Host::Linux.sibling(exe@, "androlon-uninstaller"@) && args == seq![
            bundle@,
        ]),
        library.exe matches Err(e) ==> library.after(Came::Found(package, Some(bundle))).line
            == Some("✗ uninstaller: "@ + e@),
{
}

/// Where a package lies is what the first line that names a place says.
pub proof fn the_first_place_counts(ls: Seq<Seq<char>>, i: int)
    requires
        0 <= i < ls.len(),
        starts_with(ls[i], "package:"@),
        forall|j: int| 0 <= j < i ==> !starts_with(#[trigger] ls[j], "package:"@),
    ensures
        path_in(ls) == Some(trim(ls[i].skip(8))),
    decreases ls.len(),
{
    if i > 0 {
        let rest = ls.skip(1);
        assert(rest[i - 1] == ls[i]);
        assert(forall|j: int| 0 <= j < i - 1 ==> rest[j] == ls[j + 1]);
        the_first_place_counts(rest, i - 1);
    }
}

} // verus!
