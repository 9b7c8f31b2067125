//! The ways in which normalising a fragment can fail.

use vstd::prelude::*;

verus! {

/// Why a fragment could not be normalised.
#[derive(Debug, PartialEq, Eq)]
pub enum RustfmtError {
    /// The `rustfmt` child process could not be created.  Holds the
    /// operating system's account of the failure.
    Io(String),
    /// The bytes that `rustfmt` wrote are not valid UTF-8.
    Utf8,
    /// Waiting for the child process, or collecting its output, failed.
    Output,
    /// The child's standard input could not be obtained or written to.
    Stdin,
    /// `rustfmt` rejected the input.  Holds its diagnostic, unaltered.
    InvalidRust(String),
}

/// The mathematical value of a [`RustfmtError`].
pub enum RustfmtErrorView {
    Io(Seq<char>),
    Utf8,
    Output,
    Stdin,
    InvalidRust(Seq<char>),
}

impl View for RustfmtError {
    type V = RustfmtErrorView;

    open spec fn view(&self) -> RustfmtErrorView {
        match self {
            RustfmtError::Io(cause) => RustfmtErrorView::Io(cause@),
            RustfmtError::Utf8 => RustfmtErrorView::Utf8,
            RustfmtError::Output => RustfmtErrorView::Output,
            RustfmtError::Stdin => RustfmtErrorView::Stdin,
            RustfmtError::InvalidRust(diagnostic) => RustfmtErrorView::InvalidRust(diagnostic@),
        }
    }
}

impl RustfmtErrorView {
    /// The description of the error that is shown to the user.  The cause of
    /// an `Io` error is not part of it; the diagnostic of an `InvalidRust`
    /// error follows the first line, unaltered.
    pub open spec fn message(self) -> Seq<char> {
        match self {
            RustfmtErrorView::Io(_) => "Could not create child process for rustfmt."@,
            RustfmtErrorView::Utf8 => "Could not convert output bytes to UTF-8."@,
            RustfmtErrorView::Output => "Could not read from rustfmt child process."@,
            RustfmtErrorView::Stdin => "Could not access stdin of rustfmt child process."@,
            RustfmtErrorView::InvalidRust(diagnostic) => "Input is not valid Rust code.\n"@
                + diagnostic,
        }
    }
}

impl RustfmtError {
    /// Writes the description of the error that is shown to the user.
    pub fn message(&self) -> (text: String)
        ensures
            text@ == self@.message(),
    {
        match self {
            RustfmtError::Io(_) => "Could not create child process for rustfmt.".to_string(),
            RustfmtError::Utf8 => "Could not convert output bytes to UTF-8.".to_string(),
            RustfmtError::Output => "Could not read from rustfmt child process.".to_string(),
            RustfmtError::Stdin => "Could not access stdin of rustfmt child process.".to_string(),
            RustfmtError::InvalidRust(diagnostic) => {
                "Input is not valid Rust code.\n".to_string().concat(diagnostic.as_str())
            },
        }
    }
}

/// The mathematical value of the result of a normalisation.
pub open spec fn normalized_view(result: Result<String, RustfmtError>) -> Result<
    Seq<char>,
    RustfmtErrorView,
> {
    match result {
        Ok(text) => Ok(text@),
        Err(error) => Err(error@),
    }
}

} // verus!
