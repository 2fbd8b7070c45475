//! Operations that the outside world takes part in.
//!
//! An operation is a function of the replies that it has had so far. It says
//! what to do next, or how it ended. Whoever runs it does what it says, puts
//! the reply behind the others, and asks again.

use crate::error::{EngineError, Problem};
use crate::host::Host;
use crate::subprocess::{
    checked, from_utf8_lossy, lossy, outcome, run, run_checked, said, tool_name, CommandLine,
    CommandOutput, Invocation, RawOutput,
};
use crate::text::views;
use vstd::prelude::*;

verus! {

/// Something to do in the outside world.
#[derive(Debug)]
pub enum Action {
    /// Run a program to its end.
    Run(CommandLine),
    /// Start a program that goes on by itself, its output in the file `log`.
    Spawn { command: CommandLine, log: String },
    /// Start a program that goes on by itself, without an output.
    SpawnQuiet(String),
    /// Connect to the socket.
    Connect(String),
    /// Say whether the file can be run.
    IsExecutable(String),
    /// Say whether there is a file or a directory.
    Exists(String),
    /// Say whether there is a directory.
    IsDir(String),
    /// Say how many bytes the file has.
    Size(String),
    /// Say what the path is without links and relative parts.
    Resolve(String),
    /// List what the directory holds, directories first marked as such.
    List(String),
    /// Make the directory, and those above it.
    MakeDir(String),
    /// Write the text to the file.
    Write { path: String, text: String },
    /// Write the output of the last program that was run to the file.
    Keep(String),
    /// Copy a file.
    Copy { from: String, to: String },
    /// Make a link at `at` that leads to `target`.
    Link { target: String, at: String },
    /// Remove the file.
    Remove(String),
    /// Remove the directory and all that it holds.
    RemoveDir(String),
    /// Wait for so many milliseconds.
    Wait(u64),
    /// Say what a clock that never goes back shows, in milliseconds.
    Now,
}

/// What an `Action` stands for.
pub enum Act {
    Run(Invocation),
    Spawn { command: Invocation, log: Seq<char> },
    SpawnQuiet(Seq<char>),
    Connect(Seq<char>),
    IsExecutable(Seq<char>),
    Exists(Seq<char>),
    IsDir(Seq<char>),
    Size(Seq<char>),
    Resolve(Seq<char>),
    List(Seq<char>),
    MakeDir(Seq<char>),
    Write { path: Seq<char>, text: Seq<char> },
    Keep(Seq<char>),
    Copy { from: Seq<char>, to: Seq<char> },
    Link { target: Seq<char>, at: Seq<char> },
    Remove(Seq<char>),
    RemoveDir(Seq<char>),
    Wait(int),
    Now,
}

impl View for Action {
    type V = Act;

    open spec fn view(&self) -> Act {
        match self {
            Action::Run(c) => Act::Run(c@),
            Action::Spawn { command, log } => Act::Spawn { command: command@, log: log@ },
            Action::SpawnQuiet(p) => Act::SpawnQuiet(p@),
            Action::Connect(p) => Act::Connect(p@),
            Action::IsExecutable(p) => Act::IsExecutable(p@),
            Action::Exists(p) => Act::Exists(p@),
            Action::IsDir(p) => Act::IsDir(p@),
            Action::Size(p) => Act::Size(p@),
            Action::Resolve(p) => Act::Resolve(p@),
            Action::List(p) => Act::List(p@),
            Action::MakeDir(p) => Act::MakeDir(p@),
            Action::Write { path, text } => Act::Write { path: path@, text: text@ },
            Action::Keep(p) => Act::Keep(p@),
            Action::Copy { from, to } => Act::Copy { from: from@, to: to@ },
            Action::Link { target, at } => Act::Link { target: target@, at: at@ },
            Action::Remove(p) => Act::Remove(p@),
            Action::RemoveDir(p) => Act::RemoveDir(p@),
            Action::Wait(ms) => Act::Wait(*ms as int),
            Action::Now => Act::Now,
        }
    }
}

/// One entry of a directory.
#[derive(Debug)]
pub struct Entry {
    pub path: String,
    pub is_dir: bool,
}

/// What came of an action.
#[derive(Debug)]
pub enum Reply {
    /// A program was run, or could not be.
    Ran(Result<RawOutput, String>),
    /// A question was answered.
    Answer(bool),
    /// A file has so many bytes; none where it cannot be told.
    Size(Option<u64>),
    /// A path was resolved; none where it cannot be.
    Path(Option<String>),
    /// A directory was listed; none where it cannot be.
    Entries(Option<Vec<Entry>>),
    /// Something was done, or could not be.
    Did(Result<(), String>),
    /// The clock shows so many milliseconds.
    Time(u64),
}

/// The reply is a yes.
pub open spec fn yes(r: Reply) -> bool {
    r matches Reply::Answer(b) && b
}

/// A program was launched, and ended with the status zero.
pub open spec fn ran_well(r: Reply) -> bool {
    r matches Reply::Ran(Ok(out)) && out.code == Some(0i32)
}

/// Something was done.
pub open spec fn was_done(r: Reply) -> bool {
    r matches Reply::Did(Ok(_))
}

/// What came of running `c`. A reply of another kind counts as a program that
/// could not be launched.
pub open spec fn outcome_of(host: Host, c: Invocation, r: Reply) -> Result<
    (int, Seq<char>),
    Problem,
> {
    match r {
        Reply::Ran(raw) => outcome(host, c, raw),
        _ => Err(Problem::Launch { tool: tool_name(host, c.exe), source: seq![] }),
    }
}

/// What came of running `c`, where a status other than zero is an error.
pub open spec fn checked_of(host: Host, c: Invocation, r: Reply) -> Result<
    (int, Seq<char>),
    Problem,
> {
    checked(host, c, outcome_of(host, c, r))
}

/// What a program wrote to its two outputs, where it was launched.
pub open spec fn output_of(r: Reply) -> Option<Seq<char>> {
    match r {
        Reply::Ran(Ok(out)) => Some(lossy(out.stdout@) + lossy(out.stderr@)),
        _ => None,
    }
}

/// What the system said where something could not be done. A reply of another
/// kind counts as a failure of which nothing was said.
pub open spec fn failure_of(r: Reply) -> Option<Seq<char>> {
    match r {
        Reply::Did(Ok(_)) => None,
        Reply::Did(Err(e)) => Some(e@),
        _ => Some(seq![]),
    }
}

/// What a path was resolved to.
pub open spec fn path_of(r: Reply) -> Option<Seq<char>> {
    match r {
        Reply::Path(Some(p)) => Some(p@),
        _ => None,
    }
}

/// How many bytes a file has.
pub open spec fn size_of(r: Reply) -> Option<int> {
    match r {
        Reply::Size(Some(n)) => Some(n as int),
        _ => None,
    }
}

/// What the clock shows.
pub open spec fn time_of(r: Reply) -> int {
    match r {
        Reply::Time(ms) => ms as int,
        _ => 0,
    }
}

/// What an optional text holds.
pub open spec fn text_of(s: Option<String>) -> Option<Seq<char>> {
    match s {
        Some(t) => Some(t@),
        None => None,
    }
}

impl Reply {
    /// The reply is a yes.
    pub fn is_yes(&self) -> (b: bool)
        ensures
            b == yes(*self),
    {
        match self {
            Reply::Answer(b) => *b,
            _ => false,
        }
    }

    /// What came of running `c`.
    pub fn ran(&self, host: Host, c: &CommandLine) -> (r: Result<CommandOutput, EngineError>)
        ensures
            said(r) == outcome_of(host, c@, *self),
    {
        match self {
            Reply::Ran(raw) => run(host, c, raw),
            _ => {
                let source = String::new();
                assert(source@ =~= seq![]);
                Err(EngineError::Launch { tool: c.tool(host), source })
            },
        }
    }

    /// What came of running `c`, where a status other than zero is an error.
    pub fn ran_checked(&self, host: Host, c: &CommandLine) -> (r: Result<
        CommandOutput,
        EngineError,
    >)
        ensures
            said(r) == checked_of(host, c@, *self),
    {
        match self {
            Reply::Ran(raw) => run_checked(host, c, raw),
            _ => self.ran(host, c),
        }
    }

    /// What a program wrote to its two outputs, where it was launched.
    pub fn output(&self) -> (r: Option<String>)
        ensures
            text_of(r) == output_of(*self),
    {
        match self {
            Reply::Ran(Ok(out)) => {
                let mut text = from_utf8_lossy(&out.stdout);
                text.append(from_utf8_lossy(&out.stderr).as_str());
                Some(text)
            },
            _ => None,
        }
    }

    /// What the system said where something could not be done.
    pub fn failure(&self) -> (r: Option<String>)
        ensures
            text_of(r) == failure_of(*self),
    {
        match self {
            Reply::Did(Ok(_)) => None,
            Reply::Did(Err(e)) => Some(e.clone()),
            _ => {
                let e = String::new();
                assert(e@ =~= seq![]);
                Some(e)
            },
        }
    }

    /// What a path was resolved to.
    pub fn path(&self) -> (r: Option<String>)
        ensures
            text_of(r) == path_of(*self),
    {
        match self {
            Reply::Path(Some(p)) => Some(p.clone()),
            _ => None,
        }
    }

    /// What the clock shows.
    pub fn time(&self) -> (r: u64)
        ensures
            r == time_of(*self),
    {
        match self {
            Reply::Time(ms) => *ms,
            _ => 0,
        }
    }

    /// How many bytes a file has.
    pub fn size(&self) -> (r: Option<u64>)
        ensures
            match r {
                Some(n) => size_of(*self) == Some(n as int),
                None => size_of(*self) is None,
            },
    {
        match self {
            Reply::Size(Some(n)) => Some(*n),
            _ => None,
        }
    }
}

/// The next thing to do, or how an operation ended.
#[derive(Debug)]
pub enum Step<T> {
    Do(Action),
    Done(T),
}

/// What a `Step` stands for.
pub enum Plan<T> {
    Do(Act),
    Done(T),
}

/// `s` is what `p` says.
pub open spec fn is_plan<T>(s: Step<T>, p: Plan<T>) -> bool {
    match (s, p) {
        (Step::Do(a), Plan::Do(b)) => a@ == b,
        (Step::Done(x), Plan::Done(y)) => x == y,
        _ => false,
    }
}

/// `s` is what `p` says, of an operation that succeeds or fails.
pub open spec fn is_try(s: Step<Result<(), EngineError>>, p: Plan<Result<(), Problem>>) -> bool {
    match (s, p) {
        (Step::Do(a), Plan::Do(b)) => a@ == b,
        (Step::Done(Ok(_)), Plan::Done(Ok(_))) => true,
        (Step::Done(Err(e)), Plan::Done(Err(f))) => e@ == f,
        _ => false,
    }
}

/// `s` is what `p` says, of an operation that yields a text.
pub open spec fn is_text(s: Step<String>, p: Plan<Seq<char>>) -> bool {
    match (s, p) {
        (Step::Do(a), Plan::Do(b)) => a@ == b,
        (Step::Done(t), Plan::Done(u)) => t@ == u,
        _ => false,
    }
}

/// `s` is what `p` says, of an operation that may yield a text.
pub open spec fn is_some_text(s: Step<Option<String>>, p: Plan<Option<Seq<char>>>) -> bool {
    match (s, p) {
        (Step::Do(a), Plan::Do(b)) => a@ == b,
        (Step::Done(t), Plan::Done(u)) => text_of(t) == u,
        _ => false,
    }
}

/// `s` is what `p` says, of an operation that yields a list of texts.
pub open spec fn is_texts(s: Step<Vec<String>>, p: Plan<Seq<Seq<char>>>) -> bool {
    match (s, p) {
        (Step::Do(a), Plan::Do(b)) => a@ == b,
        (Step::Done(t), Plan::Done(u)) => views(t@) == u,
        _ => false,
    }
}

/// How an operation goes that is nothing but running `c`, where the end of the
/// program does not count.
pub open spec fn run_once(host: Host, c: Invocation, replies: Seq<Reply>) -> Plan<
    Result<(), Problem>,
> {
    if replies.len() == 0 {
        Plan::Do(Act::Run(c))
    } else {
        Plan::Done(
            match outcome_of(host, c, replies[0]) {
                Ok(_) => Ok(()),
                Err(e) => Err(e),
            },
        )
    }
}

/// How an operation goes that is nothing but running `c`, where a status other
/// than zero is an error.
pub open spec fn run_once_checked(host: Host, c: Invocation, replies: Seq<Reply>) -> Plan<
    Result<(), Problem>,
> {
    if replies.len() == 0 {
        Plan::Do(Act::Run(c))
    } else {
        Plan::Done(
            match checked_of(host, c, replies[0]) {
                Ok(_) => Ok(()),
                Err(e) => Err(e),
            },
        )
    }
}

/// Runs `c`; the end of the program does not count.
pub(crate) fn once(host: Host, c: CommandLine, replies: &Vec<Reply>) -> (s: Step<
    Result<(), EngineError>,
>)
    ensures
        is_try(s, run_once(host, c@, replies@)),
{
    if replies.len() == 0 {
        Step::Do(Action::Run(c))
    } else {
        match replies[0].ran(host, &c) {
            Ok(_) => Step::Done(Ok(())),
            Err(e) => Step::Done(Err(e)),
        }
    }
}

/// Runs `c`; a status other than zero is an error.
pub(crate) fn once_checked(host: Host, c: CommandLine, replies: &Vec<Reply>) -> (s: Step<
    Result<(), EngineError>,
>)
    ensures
        is_try(s, run_once_checked(host, c@, replies@)),
{
    if replies.len() == 0 {
        Step::Do(Action::Run(c))
    } else {
        match replies[0].ran_checked(host, &c) {
            Ok(_) => Step::Done(Ok(())),
            Err(e) => Step::Done(Err(e)),
        }
    }
}

} // verus!
