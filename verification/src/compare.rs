//! Comparing two fragments: the verdict on two normalisations, the message
//! for a failed one, and the procedure that asks for the runs one by one.

use crate::error::{normalized_view, RustfmtError, RustfmtErrorView};
use crate::normalize::{
    apply_rustfmt, normalized, rustfmt_command, rustfmt_invocation, ChildOutcome,
    ChildOutcomeView, Invocation, InvocationView,
};
use vstd::prelude::*;

verus! {

/// Which of the two fragments of a comparison is meant.
#[derive(Debug, Clone, Copy, PartialEq, Eq)]
pub enum Side {
    First,
    Second,
}

/// How a comparison ended.
#[derive(Debug, PartialEq, Eq)]
pub enum Verdict {
    /// Both fragments were normalised, to the same text.
    Pass,
    /// The fragment on `side` could not be normalised.
    Failed { side: Side, error: RustfmtError },
    /// Both fragments were normalised, to different texts: `left` is that
    /// of the first fragment, `right` that of the second.
    Mismatch { left: String, right: String },
}

/// The mathematical value of a [`Verdict`].
pub enum VerdictView {
    Pass,
    Failed { side: Side, error: RustfmtErrorView },
    Mismatch { left: Seq<char>, right: Seq<char> },
}

impl View for Verdict {
    type V = VerdictView;

    open spec fn view(&self) -> VerdictView {
        match self {
            Verdict::Pass => VerdictView::Pass,
            Verdict::Failed { side, error } => VerdictView::Failed { side: *side, error: error@ },
            Verdict::Mismatch { left, right } => VerdictView::Mismatch {
                left: left@,
                right: right@,
            },
        }
    }
}

/// The verdict on the normalisations of two fragments.
///
/// A failure of the first is reported whatever became of the second.  Two
/// texts pass only if they are equal character for character.
pub open spec fn verdict_of(
    first: Result<Seq<char>, RustfmtErrorView>,
    second: Result<Seq<char>, RustfmtErrorView>,
) -> VerdictView {
    match first {
        Err(error) => VerdictView::Failed { side: Side::First, error },
        Ok(left) => match second {
            Err(error) => VerdictView::Failed { side: Side::Second, error },
            Ok(right) => if left == right {
                VerdictView::Pass
            } else {
                VerdictView::Mismatch { left, right }
            },
        },
    }
}

/// Gives the verdict on the normalisations of two fragments.
pub fn compare_tokenstreams(
    first: Result<String, RustfmtError>,
    second: Result<String, RustfmtError>,
) -> (verdict: Verdict)
    ensures
        verdict@ == verdict_of(normalized_view(first), normalized_view(second)),
{
    match first {
        Err(error) => Verdict::Failed { side: Side::First, error },
        Ok(left) => match second {
            Err(error) => Verdict::Failed { side: Side::Second, error },
            Ok(right) => {
                if left == right {
                    Verdict::Pass
                } else {
                    Verdict::Mismatch { left, right }
                }
            },
        },
    }
}

/// The message for a fragment that could not be normalised: it names the
/// side, and the description of the error follows.
pub open spec fn failure_message_of(side: Side, error: RustfmtErrorView) -> Seq<char> {
    match side {
        Side::First => "Error formatting first token stream: "@ + error.message(),
        Side::Second => "Error formatting second token stream: "@ + error.message(),
    }
}

/// Writes the message for a fragment that could not be normalised.
pub fn failure_message(side: Side, error: &RustfmtError) -> (text: String)
    ensures
        text@ == failure_message_of(side, error@),
{
    let description = error.message();
    match side {
        Side::First => "Error formatting first token stream: ".to_string().concat(
            description.as_str(),
        ),
        Side::Second => "Error formatting second token stream: ".to_string().concat(
            description.as_str(),
        ),
    }
}

/// A comparison in progress.
///
/// The fragments are normalised one after the other, and the second only
/// if the first was normalised.
#[derive(Debug, PartialEq, Eq)]
pub enum Comparison {
    /// Nothing has run yet.  Holds the rendered text of both fragments.
    First { first: String, second: String },
    /// The first fragment was normalised to `left`.
    Second { left: String, second: String },
    /// The comparison has ended.
    Done(Verdict),
}

/// The mathematical value of a [`Comparison`].
pub enum ComparisonView {
    First { first: Seq<char>, second: Seq<char> },
    Second { left: Seq<char>, second: Seq<char> },
    Done(VerdictView),
}

impl View for Comparison {
    type V = ComparisonView;

    open spec fn view(&self) -> ComparisonView {
        match self {
            Comparison::First { first, second } => ComparisonView::First {
                first: first@,
                second: second@,
            },
            Comparison::Second { left, second } => ComparisonView::Second {
                left: left@,
                second: second@,
            },
            Comparison::Done(verdict) => ComparisonView::Done(verdict@),
        }
    }
}

impl ComparisonView {
    /// The comparison of two fragments before anything has run.
    pub open spec fn start(first: Seq<char>, second: Seq<char>) -> ComparisonView {
        ComparisonView::First { first, second }
    }

    /// The command whose outcome the comparison waits for, if it has not
    /// ended.
    pub open spec fn invocation(self) -> Option<InvocationView> {
        match self {
            ComparisonView::First { first, .. } => Some(rustfmt_command(first)),
            ComparisonView::Second { second, .. } => Some(rustfmt_command(second)),
            ComparisonView::Done(_) => None,
        }
    }

    /// The comparison after the awaited command has had `outcome`.  A
    /// comparison that has ended awaits nothing and stays as it is.
    pub open spec fn advance(self, outcome: ChildOutcomeView) -> ComparisonView {
        match self {
            ComparisonView::First { second, .. } => match normalized(outcome) {
                Ok(left) => ComparisonView::Second { left, second },
                Err(error) => ComparisonView::Done(
                    VerdictView::Failed { side: Side::First, error },
                ),
            },
            ComparisonView::Second { left, .. } => ComparisonView::Done(
                verdict_of(Ok(left), normalized(outcome)),
            ),
            ComparisonView::Done(verdict) => ComparisonView::Done(verdict),
        }
    }

    /// The verdict, once the comparison has ended.
    pub open spec fn verdict(self) -> Option<VerdictView> {
        match self {
            ComparisonView::Done(verdict) => Some(verdict),
            _ => None,
        }
    }
}

impl Comparison {
    /// Begins the comparison of two fragments, given as rendered text.
    pub fn new(first: String, second: String) -> (comparison: Comparison)
        ensures
            comparison@ == ComparisonView::start(first@, second@),
    {
        Comparison::First { first, second }
    }

    /// The command to run next, or `None` once the comparison has ended.
    pub fn invocation(&self) -> (invocation: Option<Invocation>)
        ensures
            invocation is Some <==> self@.invocation() is Some,
            invocation matches Some(command) ==> Some(command@) == self@.invocation(),
    {
        match self {
            Comparison::First { first, .. } => Some(rustfmt_invocation(first.as_str())),
            Comparison::Second { second, .. } => Some(rustfmt_invocation(second.as_str())),
            Comparison::Done(_) => None,
        }
    }

    /// Takes in the outcome of the command that [`Comparison::invocation`]
    /// asked for.
    pub fn advance(self, outcome: ChildOutcome) -> (comparison: Comparison)
        ensures
            comparison@ == self@.advance(outcome@),
    {
        match self {
            Comparison::First { first: _, second } => match apply_rustfmt(outcome) {
                Ok(left) => Comparison::Second { left, second },
                Err(error) => Comparison::Done(Verdict::Failed { side: Side::First, error }),
            },
            Comparison::Second { left, second: _ } => Comparison::Done(
                compare_tokenstreams(Ok(left), apply_rustfmt(outcome)),
            ),
            Comparison::Done(verdict) => Comparison::Done(verdict),
        }
    }

    /// The verdict, or `None` while the comparison has not ended.
    pub fn verdict(self) -> (verdict: Option<Verdict>)
        ensures
            verdict is Some <==> self@.verdict() is Some,
            verdict matches Some(reached) ==> Some(reached@) == self@.verdict(),
    {
        match self {
            Comparison::Done(verdict) => Some(verdict),
            _ => None,
        }
    }
}

} // verus!
