//! What holds of every comparison.

use crate::compare::{failure_message_of, verdict_of, ComparisonView, Side, VerdictView};
use crate::error::RustfmtErrorView;
use crate::normalize::{normalized, rustfmt_command, ChildOutcomeView};
use vstd::prelude::*;
use vstd::utf8::{decode_utf8, encode_utf8_decode_utf8, encode_utf8_valid_utf8, valid_utf8};

verus! {

/// A comparison asks for `rustfmt` on the first fragment, then, only if
/// that run yielded a text, for `rustfmt` on the second.  It has ended
/// after at most two runs, and its verdict is the verdict on what the runs
/// yielded; where the first run failed, the second is not asked for and has
/// no part in the verdict.
pub proof fn law_comparison_runs_in_order(
    first: Seq<char>,
    second: Seq<char>,
    first_run: ChildOutcomeView,
    second_run: ChildOutcomeView,
)
    ensures
        ComparisonView::start(first, second).invocation() == Some(rustfmt_command(first)),
        ComparisonView::start(first, second).verdict() is None,
        normalized(first_run) is Ok ==> {
            let waiting = ComparisonView::start(first, second).advance(first_run);
            &&& waiting.invocation() == Some(rustfmt_command(second))
            &&& waiting.verdict() is None
            &&& waiting.advance(second_run).invocation() is None
            &&& waiting.advance(second_run).verdict() == Some(
                verdict_of(normalized(first_run), normalized(second_run)),
            )
        },
        normalized(first_run) is Err ==> {
            let ended = ComparisonView::start(first, second).advance(first_run);
            &&& ended.invocation() is None
            &&& ended.verdict() == Some(verdict_of(normalized(first_run), normalized(second_run)))
            &&& ended.advance(second_run) == ended
        },
{
}

/// A comparison passes exactly when both fragments were normalised and
/// the two texts are the same.
pub proof fn law_pass_iff_same_text(
    first: Result<Seq<char>, RustfmtErrorView>,
    second: Result<Seq<char>, RustfmtErrorView>,
)
    ensures
        verdict_of(first, second) is Pass <==> first is Ok && second is Ok && first->Ok_0
            == second->Ok_0,
{
}

/// Two runs that exit with success and the same valid output make the
/// comparison pass, whatever the fragments were and whatever went to
/// standard error.
pub proof fn law_same_output_passes(
    first: Seq<char>,
    second: Seq<char>,
    stdout: Seq<u8>,
    first_stderr: Seq<u8>,
    second_stderr: Seq<u8>,
)
    requires
        valid_utf8(stdout),
    ensures
        ComparisonView::start(first, second).advance(
            ChildOutcomeView::Exited { success: true, stdout, stderr: first_stderr },
        ).advance(
            ChildOutcomeView::Exited { success: true, stdout, stderr: second_stderr },
        ).verdict() == Some(VerdictView::Pass),
{
}

/// Two fragments that were normalised to different texts end in a
/// mismatch that holds both texts, the first fragment's on the left.
pub proof fn law_different_texts_mismatch(left: Seq<char>, right: Seq<char>)
    requires
        left != right,
    ensures
        verdict_of(Ok(left), Ok(right)) == (VerdictView::Mismatch { left, right }),
{
}

/// A run that exits with failure and a valid diagnostic stands for a
/// rejected fragment.  The comparison then fails on the side of that
/// fragment, and the message names the side and ends with the diagnostic as
/// `rustfmt` wrote it.
pub proof fn law_rejected_input_is_reported(
    side: Side,
    stdout: Seq<u8>,
    stderr: Seq<u8>,
    other: Result<Seq<char>, RustfmtErrorView>,
)
    requires
        valid_utf8(stderr),
        side == Side::Second ==> other is Ok,
    ensures
        ({
            let rejected = normalized(ChildOutcomeView::Exited { success: false, stdout, stderr });
            let error = RustfmtErrorView::InvalidRust(decode_utf8(stderr));
            let message = failure_message_of(side, error);
            &&& rejected == Err::<Seq<char>, RustfmtErrorView>(error)
            &&& side == Side::First ==> verdict_of(rejected, other) == (VerdictView::Failed {
                side,
                error,
            })
            &&& side == Side::Second ==> verdict_of(other, rejected) == (VerdictView::Failed {
                side,
                error,
            })
            &&& side == Side::First ==> message == "Error formatting first token stream: "@
                + "Input is not valid Rust code.\n"@ + decode_utf8(stderr)
            &&& side == Side::Second ==> message == "Error formatting second token stream: "@
                + "Input is not valid Rust code.\n"@ + decode_utf8(stderr)
            &&& message.len() >= decode_utf8(stderr).len()
            &&& message.subrange(message.len() - decode_utf8(stderr).len(), message.len() as int)
                == decode_utf8(stderr)
        }),
{
    let diagnostic = decode_utf8(stderr);
    let message = failure_message_of(side, RustfmtErrorView::InvalidRust(diagnostic));
    assert(message.subrange(message.len() - diagnostic.len(), message.len() as int)
        =~= diagnostic);
}

/// Exchanging the two fragments never turns a pass into a failure or a
/// failure into a pass.  It exchanges the two sides of a mismatch, and
/// where one fragment alone could not be normalised, it moves the failure,
/// with its error, to the other side.
pub proof fn law_exchange_changes_labels_only(
    first: Result<Seq<char>, RustfmtErrorView>,
    second: Result<Seq<char>, RustfmtErrorView>,
)
    ensures
        verdict_of(first, second) is Pass <==> verdict_of(second, first) is Pass,
        verdict_of(first, second) matches VerdictView::Mismatch { left, right } ==> verdict_of(
            second,
            first,
        ) == (VerdictView::Mismatch { left: right, right: left }),
        first is Err && second is Ok ==> {
            &&& verdict_of(first, second) == (VerdictView::Failed {
                side: Side::First,
                error: first->Err_0,
            })
            &&& verdict_of(second, first) == (VerdictView::Failed {
                side: Side::Second,
                error: first->Err_0,
            })
        },
        first is Err && second is Err ==> {
            &&& verdict_of(first, second) == (VerdictView::Failed {
                side: Side::First,
                error: first->Err_0,
            })
            &&& verdict_of(second, first) == (VerdictView::Failed {
                side: Side::First,
                error: second->Err_0,
            })
        },
{
}

/// Where `rustfmt` hands back on its standard output exactly the bytes it
/// was fed, and exits with success, the normalised text is the source
/// itself: the way in through the encoding and the way back out change
/// nothing of their own.
pub proof fn law_unchanged_output_is_the_source(source: Seq<char>, stderr: Seq<u8>)
    ensures
        normalized(
            ChildOutcomeView::Exited {
                success: true,
                stdout: rustfmt_command(source).input,
                stderr,
            },
        ) == Ok::<Seq<char>, RustfmtErrorView>(source),
{
    encode_utf8_valid_utf8(source);
    encode_utf8_decode_utf8(source);
}

/// Where `rustfmt` cannot be started, the comparison ends at once with a
/// failure on the first side, and neither the verdict's message nor the
/// verdict's kind depends on what the fragments hold.
pub proof fn law_missing_tool_fails_every_comparison(
    first: Seq<char>,
    second: Seq<char>,
    cause: Seq<char>,
)
    ensures
        ComparisonView::start(first, second).advance(ChildOutcomeView::SpawnFailed(cause))
            == ComparisonView::Done(
            VerdictView::Failed { side: Side::First, error: RustfmtErrorView::Io(cause) },
        ),
        failure_message_of(Side::First, RustfmtErrorView::Io(cause))
            == "Error formatting first token stream: "@
            + "Could not create child process for rustfmt."@,
{
}

} // verus!
