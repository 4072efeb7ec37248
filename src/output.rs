use vstd::prelude::*;
use vstd::string::*;
use vstd::utf8::*;

use crate::command::ScriptCommand;

verus! {

broadcast use encode_utf8_decode_utf8, encode_utf8_valid_utf8;

/// What decoding the given bytes as UTF-8, with every invalid sequence replaced by
/// U+FFFD, yields.
pub uninterp spec fn lossy_text(bytes: Seq<u8>) -> Seq<char>;

/// Relies on `String::from_utf8_lossy`: valid UTF-8 comes back as the text it encodes,
/// and each invalid sequence is replaced by U+FFFD.
#[verifier::external_body]
fn decode_lossy(bytes: &[u8]) -> (r: String)
    ensures
        r@ == lossy_text(bytes@),
        valid_utf8(bytes@) ==> r@ == decode_utf8(bytes@),
        !valid_utf8(bytes@) ==> r@.contains('\u{FFFD}'),
{
    String::from_utf8_lossy(bytes).into_owned()
}

/// What a finished run of the script left behind.
///
/// The exit status and the standard-error stream are kept for the caller to inspect,
/// but the text that a run returns is made from standard output alone.
#[derive(Debug, Clone)]
pub struct ProcessOutput {
    /// The exit code, or `None` where the process ended without one (killed by a signal).
    pub status: Option<i32>,
    pub stdout: Vec<u8>,
    pub stderr: Vec<u8>,
}

/// Why the interpreter could not be started.
#[derive(Debug, Clone, PartialEq, Eq)]
pub enum LaunchFailure {
    /// No executable of that name was found.
    NotFound,
    /// The executable exists but may not be run.
    PermissionDenied,
    /// Any other failure, with the system's description of it.
    Other(String),
}

/// The error that a run reports in place of its text.
#[derive(Debug, Clone, PartialEq, Eq)]
pub enum RunError {
    InterpreterNotFound { interpreter: String },
    PermissionDenied { interpreter: String },
    LaunchFailed { interpreter: String, detail: String },
}

/// The text that a finished run returns: its standard output, decoded leniently.
pub open spec fn output_text(out: ProcessOutput) -> Seq<char> {
    lossy_text(out.stdout@)
}

/// `e` is the error that reports failure `f` to start `cmd`'s interpreter.
pub open spec fn reports(e: RunError, cmd: ScriptCommand, f: LaunchFailure) -> bool {
    match f {
        LaunchFailure::NotFound => e matches RunError::InterpreterNotFound { interpreter }
            && interpreter@ == cmd.interpreter@,
        LaunchFailure::PermissionDenied => e matches RunError::PermissionDenied { interpreter }
            && interpreter@ == cmd.interpreter@,
        LaunchFailure::Other(d) => e matches RunError::LaunchFailed { interpreter, detail }
            && interpreter@ == cmd.interpreter@ && detail@ == d@,
    }
}

/// The text that tells a user what went wrong.
pub open spec fn message_of(e: RunError) -> Seq<char> {
    match e {
        RunError::InterpreterNotFound { interpreter } => "interpreter not found: "@ + interpreter@,
        RunError::PermissionDenied { interpreter } => "permission denied running "@
            + interpreter@,
        RunError::LaunchFailed { interpreter, detail } => "could not start "@ + interpreter@
            + ": "@ + detail@,
    }
}

impl RunError {
    pub fn message(&self) -> (r: String)
        ensures
            r@ == message_of(*self),
    {
        match self {
            RunError::InterpreterNotFound { interpreter } => {
                let mut m = String::from_str("interpreter not found: ");
                m.append(interpreter.as_str());
                m
            },
            RunError::PermissionDenied { interpreter } => {
                let mut m = String::from_str("permission denied running ");
                m.append(interpreter.as_str());
                m
            },
            RunError::LaunchFailed { interpreter, detail } => {
                let mut m = String::from_str("could not start ");
                m.append(interpreter.as_str());
                m.append(": ");
                m.append(detail.as_str());
                m
            },
        }
    }
}

/// What a run returns on each outcome of launching `cmd`.
pub open spec fn run_returns(
    r: Result<String, RunError>,
    cmd: ScriptCommand,
    outcome: Result<ProcessOutput, LaunchFailure>,
) -> bool {
    match outcome {
        Ok(out) => r matches Ok(s) && s@ == output_text(out),
        Err(f) => r matches Err(e) && reports(e, cmd, f),
    }
}

impl ProcessOutput {
    /// The text of standard output. Valid UTF-8 comes back as the text it encodes;
    /// otherwise every invalid sequence is replaced by U+FFFD, and no error is raised.
    pub fn text(&self) -> (r: String)
        ensures
            r@ == output_text(*self),
            valid_utf8(self.stdout@) ==> r@ == decode_utf8(self.stdout@),
            forall|s: Seq<char>| #[trigger] encode_utf8(s) == self.stdout@ ==> r@ == s,
            !valid_utf8(self.stdout@) ==> r@.contains('\u{FFFD}'),
    {
        decode_lossy(self.stdout.as_slice())
    }
}

/// Turns the outcome of launching `cmd` into the command's result: the text of
/// standard output when the script ran, whatever its exit status and standard error,
/// and an error naming the interpreter when it could not be started.
pub fn run_outcome(cmd: &ScriptCommand, outcome: Result<ProcessOutput, LaunchFailure>) -> (r:
    Result<String, RunError>)
    ensures
        run_returns(r, *cmd, outcome),
        outcome is Ok ==> r is Ok,
        outcome is Err ==> r is Err,
        match outcome {
            Ok(out) => r matches Ok(s) && (valid_utf8(out.stdout@) ==> s@ == decode_utf8(
                out.stdout@,
            )) && (forall|t: Seq<char>| #[trigger] encode_utf8(t) == out.stdout@ ==> s@ == t)
                && (!valid_utf8(out.stdout@) ==> s@.contains('\u{FFFD}')),
            Err(_) => true,
        },
{
    match outcome {
        Ok(out) => Ok(out.text()),
        Err(LaunchFailure::NotFound) => Err(
            RunError::InterpreterNotFound { interpreter: cmd.interpreter.clone() },
        ),
        Err(LaunchFailure::PermissionDenied) => Err(
            RunError::PermissionDenied { interpreter: cmd.interpreter.clone() },
        ),
        Err(LaunchFailure::Other(detail)) => Err(
            RunError::LaunchFailed { interpreter: cmd.interpreter.clone(), detail },
        ),
    }
}

/// The returned text depends on standard output alone: two runs whose standard output
/// is the same return the same text, whatever their exit statuses and standard errors.
pub proof fn lemma_status_and_stderr_ignored(
    cmd: ScriptCommand,
    a: ProcessOutput,
    b: ProcessOutput,
    ra: Result<String, RunError>,
    rb: Result<String, RunError>,
)
    requires
        a.stdout@ == b.stdout@,
        run_returns(ra, cmd, Ok(a)),
        run_returns(rb, cmd, Ok(b)),
    ensures
        ra matches Ok(sa) && rb matches Ok(sb) && sa@ == sb@,
{
}

} // verus!
