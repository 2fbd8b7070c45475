//! What can go wrong in the engine.

use crate::number::{dec, decimal_signed};
use crate::text::{cat2, cat3, cat4, cat5, trim, trimmed};
use vstd::prelude::*;

verus! {

/// An error of the engine.
#[derive(Debug)]
pub enum EngineError {
    SdkMissing(String),
    NotRootable(String),
    RamdiskMissing(String),
    ApkNotFound(String),
    PackageUnresolved(String),
    BackendUnimplemented(String),
    /// A tool could not be launched; `source` is what the system said.
    Launch { tool: String, source: String },
    /// A tool ended with a status other than zero.
    NonZero { tool: String, status: i32, output: String },
}

/// What an `EngineError` stands for.
pub enum Problem {
    SdkMissing(Seq<char>),
    NotRootable(Seq<char>),
    RamdiskMissing(Seq<char>),
    ApkNotFound(Seq<char>),
    PackageUnresolved(Seq<char>),
    BackendUnimplemented(Seq<char>),
    Launch { tool: Seq<char>, source: Seq<char> },
    NonZero { tool: Seq<char>, status: int, output: Seq<char> },
}

impl View for EngineError {
    type V = Problem;

    open spec fn view(&self) -> Problem {
        match self {
            EngineError::SdkMissing(s) => Problem::SdkMissing(s@),
            EngineError::NotRootable(s) => Problem::NotRootable(s@),
            EngineError::RamdiskMissing(s) => Problem::RamdiskMissing(s@),
            EngineError::ApkNotFound(s) => Problem::ApkNotFound(s@),
            EngineError::PackageUnresolved(s) => Problem::PackageUnresolved(s@),
            EngineError::BackendUnimplemented(s) => Problem::BackendUnimplemented(s@),
            EngineError::Launch { tool, source } => Problem::Launch {
                tool: tool@,
                source: source@,
            },
            EngineError::NonZero { tool, status, output } => Problem::NonZero {
                tool: tool@,
                status: *status as int,
                output: output@,
            },
        }
    }
}

/// What a user reads of an error.
pub open spec fn problem_text(p: Problem) -> Seq<char> {
    match p {
        Problem::SdkMissing(tool) => tool + " not found — run `androlon-ctl setup` first."@,
        Problem::NotRootable(kind) => "image '"@ + kind
            + "' is a locked user build — use google_apis or aosp for root."@,
        Problem::RamdiskMissing(path) => "system-image ramdisk not found at "@ + path
            + " — run setup."@,
        Problem::ApkNotFound(path) => "APK not found: "@ + path,
        Problem::PackageUnresolved(name) => "could not determine package name for "@ + name,
        Problem::BackendUnimplemented(name) => "GPU/host backend '"@ + name
            + "' is not implemented yet."@,
        Problem::Launch { tool, source } => "failed to launch "@ + tool + ": "@ + source,
        Problem::NonZero { tool, status, output } => tool + " exited "@ + dec(status) + ":\n"@
            + trim(output),
    }
}

impl EngineError {
    /// What a user reads of the error.
    pub fn message(&self) -> (r: String)
        ensures
            r@ == problem_text(self@),
    {
        match self {
            EngineError::SdkMissing(tool) => cat2(
                tool.as_str(),
                " not found — run `androlon-ctl setup` first.",
            ),
            EngineError::NotRootable(kind) => cat3(
                "image '",
                kind.as_str(),
                "' is a locked user build — use google_apis or aosp for root.",
            ),
            EngineError::RamdiskMissing(path) => cat3(
                "system-image ramdisk not found at ",
                path.as_str(),
                " — run setup.",
            ),
            EngineError::ApkNotFound(path) => cat2("APK not found: ", path.as_str()),
            EngineError::PackageUnresolved(name) => cat2(
                "could not determine package name for ",
                name.as_str(),
            ),
            EngineError::BackendUnimplemented(name) => cat3(
                "GPU/host backend '",
                name.as_str(),
                "' is not implemented yet.",
            ),
            EngineError::Launch { tool, source } => cat4(
                "failed to launch ",
                tool.as_str(),
                ": ",
                source.as_str(),
            ),
            EngineError::NonZero { tool, status, output } => cat5(
                tool.as_str(),
                " exited ",
                decimal_signed(*status as i64).as_str(),
                ":\n",
                trimmed(output.as_str()).as_str(),
            ),
        }
    }

    /// A copy of the error.
    pub fn copy(&self) -> (r: EngineError)
        ensures
            r@ == self@,
    {
        match self {
            EngineError::SdkMissing(s) => EngineError::SdkMissing(s.clone()),
            EngineError::NotRootable(s) => EngineError::NotRootable(s.clone()),
            EngineError::RamdiskMissing(s) => EngineError::RamdiskMissing(s.clone()),
            EngineError::ApkNotFound(s) => EngineError::ApkNotFound(s.clone()),
            EngineError::PackageUnresolved(s) => EngineError::PackageUnresolved(s.clone()),
            EngineError::BackendUnimplemented(s) => EngineError::BackendUnimplemented(s.clone()),
            EngineError::Launch { tool, source } => EngineError::Launch {
                tool: tool.clone(),
                source: source.clone(),
            },
            EngineError::NonZero { tool, status, output } => EngineError::NonZero {
                tool: tool.clone(),
                status: *status,
                output: output.clone(),
            },
        }
    }
}

/// What a user reads of an error holds what it is about, as it stands.
pub proof fn errors_name_what_they_are_about(a: Seq<char>, b: Seq<char>, n: int)
    ensures
        problem_text(Problem::ApkNotFound(a)) == "APK not found: "@ + a,
        problem_text(Problem::PackageUnresolved(a)) == "could not determine package name for "@ + a,
        problem_text(Problem::SdkMissing(a)).take(a.len() as int) == a,
        problem_text(Problem::NotRootable(a)).skip("image '"@.len() as int).take(a.len() as int)
            == a,
        problem_text(Problem::Launch { tool: a, source: b }) == "failed to launch "@ + a + ": "@ + b,
        problem_text(Problem::NonZero { tool: a, status: n, output: b }) == a + " exited "@ + dec(n)
            + ":\n"@ + trim(b),
{
    assert(problem_text(Problem::SdkMissing(a)).take(a.len() as int) =~= a);
    assert(problem_text(Problem::NotRootable(a)).skip("image '"@.len() as int).take(a.len() as int)
        =~= a);
}

} // verus!
