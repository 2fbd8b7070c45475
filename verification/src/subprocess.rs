//! Child processes: what is run, and what is made of its end.

use crate::config::pairs;
use crate::error::{EngineError, Problem};
use crate::host::Host;
use crate::text::{cat3, join_texts, joined, trim, trimmed, views};
use vstd::prelude::*;

verus! {

/// What `String::from_utf8_lossy` makes of bytes.
pub uninterp spec fn lossy(bytes: Seq<u8>) -> Seq<char>;

/// `String::from_utf8_lossy` reads bytes as UTF-8. Bytes that are valid are
/// read as the text that they encode; of the others nothing is said here but
/// that the same bytes give the same text.
#[verifier::external_body]
pub(crate) fn from_utf8_lossy(bytes: &Vec<u8>) -> (r: String)
    ensures
        r@ == lossy(bytes@),
        vstd::utf8::valid_utf8(bytes@) ==> r@ == vstd::utf8::decode_utf8(bytes@),
{
    String::from_utf8_lossy(bytes).into_owned()
}

/// What a finished child process left: the status, where it ended by itself,
/// and the bytes of its two outputs.
#[derive(Debug)]
pub struct RawOutput {
    pub code: Option<i32>,
    pub stdout: Vec<u8>,
    pub stderr: Vec<u8>,
}

/// The end of a child process: the status, and its two outputs in one text.
#[derive(Debug)]
pub struct CommandOutput {
    pub status: i32,
    pub output: String,
}

impl CommandOutput {
    pub fn ok(&self) -> (r: bool)
        ensures
            r == (self.status == 0),
    {
        self.status == 0
    }

    /// The output without the white space around it.
    pub fn trimmed(&self) -> (r: String)
        ensures
            r@ == trim(self.output@),
    {
        trimmed(self.output.as_str())
    }
}

/// A program to run: its path, its arguments, the directories that its search
/// path begins with, and settings of its environment.
#[derive(Debug)]
pub struct CommandLine {
    pub exe: String,
    pub args: Vec<String>,
    pub extra_path: Vec<String>,
    pub env: Vec<(String, String)>,
}

/// What a `CommandLine` stands for.
#[verifier::ext_equal]
pub struct Invocation {
    pub exe: Seq<char>,
    pub args: Seq<Seq<char>>,
    pub extra_path: Seq<Seq<char>>,
    pub env: Seq<(Seq<char>, Seq<char>)>,
}

impl View for CommandLine {
    type V = Invocation;

    open spec fn view(&self) -> Invocation {
        Invocation {
            exe: self.exe@,
            args: views(self.args@),
            extra_path: views(self.extra_path@),
            env: pairs(self.env@),
        }
    }
}

/// `exe` with `args`, in the environment of this process.
pub open spec fn plain(exe: Seq<char>, args: Seq<Seq<char>>) -> Invocation {
    Invocation { exe, args, extra_path: seq![], env: seq![] }
}

/// The settings that the child's environment holds beside those of this
/// process, whose search path is `existing`.
pub open spec fn settings(
    host: Host,
    c: Invocation,
    existing: Option<Seq<char>>,
) -> Seq<(Seq<char>, Seq<char>)> {
    if c.extra_path.len() == 0 {
        c.env
    } else {
        let sep = host.list_separator();
        let rest = match existing {
            Some(p) => p,
            None => seq![],
        };
        seq![("PATH"@, joined(c.extra_path, sep) + sep + rest)] + c.env
    }
}

/// What messages call a program: the last part of its path, or the path.
pub open spec fn tool_name(host: Host, exe: Seq<char>) -> Seq<char> {
    match host.last_part(exe) {
        Some(name) => name,
        None => exe,
    }
}

impl CommandLine {
    /// `exe` with `args`, in the environment of this process.
    pub fn plain(exe: &str, args: Vec<String>) -> (r: CommandLine)
        ensures
            r@ == plain(exe@, views(args@)),
    {
        let r = CommandLine {
            exe: exe.to_owned(),
            args,
            extra_path: Vec::new(),
            env: Vec::new(),
        };
        assert(r@ =~= plain(exe@, views(args@)));
        r
    }

    /// The settings to put into the child's environment, where the search path
    /// of this process is `existing`.
    pub fn environment(&self, host: Host, existing: Option<&str>) -> (r: Vec<(String, String)>)
        ensures
            pairs(r@) == settings(
                host,
                self@,
                match existing {
                    Some(p) => Some(p@),
                    None => None,
                },
            ),
    {
        let mut r: Vec<(String, String)> = Vec::new();
        if self.extra_path.len() > 0 {
            let sep = if host == Host::Windows {
                ";"
            } else {
                ":"
            };
            let rest = match existing {
                Some(p) => p.to_owned(),
                None => String::new(),
            };
            let prefix = join_texts(&self.extra_path, sep);
            r.push(("PATH".to_owned(), cat3(prefix.as_str(), sep, rest.as_str())));
        }
        let ghost front = pairs(r@);
        let mut i: usize = 0;
        while i < self.env.len()
            invariant
                i <= self.env.len(),
                pairs(r@) == front + pairs(self.env@).take(i as int),
            decreases self.env.len() - i,
        {
            let ghost was = pairs(r@);
            let ghost e = self.env@[i as int];
            r.push((self.env[i].0.clone(), self.env[i].1.clone()));
            assert(pairs(r@) =~= was.push((e.0@, e.1@)));
            assert(pairs(self.env@).take(i + 1) =~= pairs(self.env@).take(i as int).push(
                (e.0@, e.1@),
            ));
            i = i + 1;
        }
        assert(pairs(self.env@).take(self.env@.len() as int) =~= pairs(self.env@));
        if self.extra_path.len() == 0 {
            assert(front + pairs(self.env@) =~= pairs(self.env@));
        }
        r
    }

    /// What messages call the program.
    pub fn tool(&self, host: Host) -> (r: String)
        ensures
            r@ == tool_name(host, self.exe@),
    {
        match host.file_name(self.exe.as_str()) {
            Some(name) => name,
            None => self.exe.clone(),
        }
    }
}

/// What a run says, in one value: the status and the output, or the error.
pub open spec fn said(r: Result<CommandOutput, EngineError>) -> Result<
    (int, Seq<char>),
    Problem,
> {
    match r {
        Ok(done) => Ok((done.status as int, done.output@)),
        Err(e) => Err(e@),
    }
}

/// What came of running `c`, where `raw` is what the child left, or what the
/// system said when it could not be launched. The status of a child that a
/// signal ended is -1.
pub open spec fn outcome(host: Host, c: Invocation, raw: Result<RawOutput, String>) -> Result<
    (int, Seq<char>),
    Problem,
> {
    match raw {
        Ok(out) => Ok(
            (
                match out.code {
                    Some(n) => n as int,
                    None => -1int,
                },
                lossy(out.stdout@) + lossy(out.stderr@),
            ),
        ),
        Err(e) => Err(Problem::Launch { tool: tool_name(host, c.exe), source: e@ }),
    }
}

/// What came of running `c`.
pub fn run(host: Host, c: &CommandLine, raw: &Result<RawOutput, String>) -> (r: Result<
    CommandOutput,
    EngineError,
>)
    ensures
        said(r) == outcome(host, c@, *raw),
{
    match raw {
        Ok(out) => {
            let mut merged = from_utf8_lossy(&out.stdout);
            merged.append(from_utf8_lossy(&out.stderr).as_str());
            let status: i32 = match out.code {
                Some(n) => n,
                None => -1,
            };
            Ok(CommandOutput { status, output: merged })
        },
        Err(e) => Err(EngineError::Launch { tool: c.tool(host), source: e.clone() }),
    }
}

/// `o`, but a status other than zero is an error.
pub open spec fn checked(host: Host, c: Invocation, o: Result<(int, Seq<char>), Problem>) -> Result<
    (int, Seq<char>),
    Problem,
> {
    match o {
        Ok((status, output)) => if status == 0 {
            o
        } else {
            Err(Problem::NonZero { tool: tool_name(host, c.exe), status, output })
        },
        Err(e) => o,
    }
}

/// Like `run`, but a status other than zero is an error.
pub fn run_checked(host: Host, c: &CommandLine, raw: &Result<RawOutput, String>) -> (r: Result<
    CommandOutput,
    EngineError,
>)
    ensures
        said(r) == checked(host, c@, outcome(host, c@, *raw)),
{
    match run(host, c, raw) {
        Ok(done) => if done.ok() {
            Ok(done)
        } else {
            Err(
                EngineError::NonZero {
                    tool: c.tool(host),
                    status: done.status,
                    output: done.output,
                },
            )
        },
        Err(e) => Err(e),
    }
}

/// A program that brings directories of its own is found in those first, in their
/// order, and then where it would have been found anyway; its other settings follow
/// as they stand. One that brings none changes no search path.
pub proof fn own_directories_come_first(
    host: Host,
    c: Invocation,
    dir: Seq<char>,
    existing: Option<Seq<char>>,
)
    ensures
        c.extra_path.len() == 0 ==> settings(host, c, existing) == c.env,
        c.extra_path.len() > 0 ==> {
            &&& settings(host, c, existing).len() == c.env.len() + 1
            &&& settings(host, c, existing)[0].0 == "PATH"@
            &&& settings(host, c, existing).skip(1) == c.env
        },
        c.extra_path == seq![dir] ==> settings(host, c, existing)[0].1 == dir + (
        if host is Windows {
            ";"@
        } else {
            ":"@
        }) + (match existing {
            Some(p) => p,
            None => Seq::<char>::empty(),
        }),
{
    reveal_with_fuel(joined, 3);
    if c.extra_path.len() > 0 {
        assert(settings(host, c, existing).skip(1) =~= c.env);
    }
    if c.extra_path == seq![dir] {
        assert(joined(c.extra_path, host.list_separator()) =~= dir);
    }
}

/// What came of a program is its status and what it wrote, first to its one output
/// and then to the other; it is an error where it could not be launched, with what
/// the system said, and where a good end was asked for, with any status but zero.
pub proof fn programs_say_how_they_ended(host: Host, c: Invocation, raw: Result<RawOutput, String>)
    ensures
        outcome(host, c, raw) is Ok <==> raw is Ok,
        raw matches Ok(out) ==> outcome(host, c, raw)->Ok_0.1 == lossy(out.stdout@) + lossy(
            out.stderr@,
        ),
        raw matches Ok(out) ==> (out.code matches Some(n) ==> outcome(host, c, raw)->Ok_0.0 == n),
        raw matches Ok(out) ==> (out.code is None ==> outcome(host, c, raw)->Ok_0.0 == -1),
        raw matches Err(e) ==> (outcome(host, c, raw) matches Err(Problem::Launch { source, .. })
            && source == e@),
        checked(host, c, outcome(host, c, raw)) is Ok <==> (raw matches Ok(out) && out.code == Some(
            0i32,
        )),
        raw matches Ok(out) ==> (out.code matches Some(n) ==> n != 0 ==> (checked(
            host,
            c,
            outcome(host, c, raw),
        ) matches Err(Problem::NonZero { status, output, .. }) && status == n && output == lossy(
            out.stdout@,
        ) + lossy(out.stderr@))),
{
}

} // verus!
