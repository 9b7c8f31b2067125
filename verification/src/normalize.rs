//! Normalising one fragment: the command that is run on it, and what the
//! outcome of that run means.

use crate::decode::decode;
use crate::error::{normalized_view, RustfmtError, RustfmtErrorView};
use vstd::prelude::*;
use vstd::utf8::{decode_utf8, encode_utf8, valid_utf8};

verus! {

/// A command to run as a child process with piped standard streams.
#[derive(Debug, PartialEq, Eq)]
pub struct Invocation {
    /// The name of the program.
    pub program: String,
    /// The arguments it is started with, in order.
    pub args: Vec<String>,
    /// The bytes written to its standard input, which is then closed.
    pub input: Vec<u8>,
}

/// The mathematical value of an [`Invocation`].
pub struct InvocationView {
    pub program: Seq<char>,
    pub args: Seq<Seq<char>>,
    pub input: Seq<u8>,
}

impl View for Invocation {
    type V = InvocationView;

    open spec fn view(&self) -> InvocationView {
        InvocationView {
            program: self.program@,
            args: self.args.deep_view(),
            input: self.input@,
        }
    }
}

/// The command that normalises `source`: `rustfmt --`, fed the UTF-8
/// encoding of `source`.
pub open spec fn rustfmt_command(source: Seq<char>) -> InvocationView {
    InvocationView { program: "rustfmt"@, args: seq!["--"@], input: encode_utf8(source) }
}

/// Builds the command that normalises `source`.
pub fn rustfmt_invocation(source: &str) -> (invocation: Invocation)
    ensures
        invocation@ == rustfmt_command(source@),
{
    let mut args: Vec<String> = Vec::new();
    args.push("--".to_string());
    let invocation = Invocation {
        program: "rustfmt".to_string(),
        args,
        input: source.as_bytes_vec(),
    };
    assert(invocation@.args =~= seq!["--"@]);  // the one argument, seen through its view
    invocation
}

/// What became of one run of an [`Invocation`].
#[derive(Debug, PartialEq, Eq)]
pub enum ChildOutcome {
    /// The child process could not be created.  Holds the operating
    /// system's account of the failure.
    SpawnFailed(String),
    /// The child's standard input could not be obtained or written to.
    StdinFailed,
    /// Waiting for the child, or collecting its output, failed.
    WaitFailed,
    /// The child ran to its end.
    Exited {
        /// Whether the exit status reports success.
        success: bool,
        /// Everything the child wrote to its standard output.
        stdout: Vec<u8>,
        /// Everything the child wrote to its standard error.
        stderr: Vec<u8>,
    },
}

/// The mathematical value of a [`ChildOutcome`].
pub enum ChildOutcomeView {
    SpawnFailed(Seq<char>),
    StdinFailed,
    WaitFailed,
    Exited { success: bool, stdout: Seq<u8>, stderr: Seq<u8> },
}

impl View for ChildOutcome {
    type V = ChildOutcomeView;

    open spec fn view(&self) -> ChildOutcomeView {
        match self {
            ChildOutcome::SpawnFailed(cause) => ChildOutcomeView::SpawnFailed(cause@),
            ChildOutcome::StdinFailed => ChildOutcomeView::StdinFailed,
            ChildOutcome::WaitFailed => ChildOutcomeView::WaitFailed,
            ChildOutcome::Exited { success, stdout, stderr } => ChildOutcomeView::Exited {
                success: *success,
                stdout: stdout@,
                stderr: stderr@,
            },
        }
    }
}

/// What one run of `rustfmt` yields.
///
/// A child that exits with success yields its standard output as the
/// normalised text.  One that exits with failure has rejected the input and
/// yields `InvalidRust` with its standard error as the diagnostic.  Either
/// stream must be valid UTF-8, else the run yields `Utf8`.  The stream that
/// the exit status does not select is never looked at.  A run that did not
/// get as far as an exit status yields the error of the step that failed.
pub open spec fn normalized(outcome: ChildOutcomeView) -> Result<Seq<char>, RustfmtErrorView> {
    match outcome {
        ChildOutcomeView::SpawnFailed(cause) => Err(RustfmtErrorView::Io(cause)),
        ChildOutcomeView::StdinFailed => Err(RustfmtErrorView::Stdin),
        ChildOutcomeView::WaitFailed => Err(RustfmtErrorView::Output),
        ChildOutcomeView::Exited { success, stdout, stderr } => if success {
            if valid_utf8(stdout) {
                Ok(decode_utf8(stdout))
            } else {
                Err(RustfmtErrorView::Utf8)
            }
        } else {
            if valid_utf8(stderr) {
                Err(RustfmtErrorView::InvalidRust(decode_utf8(stderr)))
            } else {
                Err(RustfmtErrorView::Utf8)
            }
        },
    }
}

/// Turns the outcome of one run of `rustfmt` into the normalised text or
/// the error that the run stands for.
pub fn apply_rustfmt(outcome: ChildOutcome) -> (result: Result<String, RustfmtError>)
    ensures
        normalized_view(result) == normalized(outcome@),
{
    match outcome {
        ChildOutcome::SpawnFailed(cause) => Err(RustfmtError::Io(cause)),
        ChildOutcome::StdinFailed => Err(RustfmtError::Stdin),
        ChildOutcome::WaitFailed => Err(RustfmtError::Output),
        ChildOutcome::Exited { success, stdout, stderr } => {
            if success {
                decode(stdout)
            } else {
                match decode(stderr) {
                    Ok(diagnostic) => Err(RustfmtError::InvalidRust(diagnostic)),
                    Err(error) => Err(error),
                }
            }
        },
    }
}

} // verus!
