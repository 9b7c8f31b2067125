use assert_tokenstreams_eq::compare::{
    compare_tokenstreams, failure_message, Comparison, Side, Verdict,
};
use assert_tokenstreams_eq::error::RustfmtError;
use assert_tokenstreams_eq::normalize::{rustfmt_invocation, ChildOutcome, Invocation};

fn formatted(text: &str) -> ChildOutcome {
    ChildOutcome::Exited { success: true, stdout: text.as_bytes().to_vec(), stderr: Vec::new() }
}

fn rejected(diagnostic: &str) -> ChildOutcome {
    ChildOutcome::Exited { success: false, stdout: Vec::new(), stderr: diagnostic.as_bytes().to_vec() }
}

/// Runs a comparison to its end, answering each command with the next of
/// `runs`, and returns the verdict with the commands that were asked for.
fn drive(first: &str, second: &str, runs: Vec<ChildOutcome>) -> (Verdict, Vec<Invocation>) {
    let mut comparison = Comparison::new(first.to_string(), second.to_string());
    let mut asked = Vec::new();
    let mut runs = runs.into_iter();
    while let Some(invocation) = comparison.invocation() {
        asked.push(invocation);
        let outcome = match runs.next() {
            Some(outcome) => outcome,
            None => panic!("the comparison asked for more runs than were prepared"),
        };
        comparison = comparison.advance(outcome);
    }
    match comparison.verdict() {
        Some(verdict) => (verdict, asked),
        None => panic!("a comparison that asks for nothing has no verdict"),
    }
}

/// Ends the way the assertion does: silently on a pass, with a panic else.
fn conclude(verdict: Verdict) {
    match verdict {
        Verdict::Pass => {}
        Verdict::Failed { side, error } => panic!("{}", failure_message(side, &error)),
        Verdict::Mismatch { left, right } => assert_eq!(left, right),
    }
}

#[test]
fn test_compare_tokenstreams_equal() {
    let first = "fn test (a : String , b : String) { return a ; }";
    let second = "fn test (a : String , b : String) { return a ; }";
    let canonical = "fn test(a: String, b: String) {\n    return a;\n}\n";
    let (verdict, asked) = drive(first, second, vec![formatted(canonical), formatted(canonical)]);
    assert_eq!(asked, vec![rustfmt_invocation(first), rustfmt_invocation(second)]);
    assert_eq!(verdict, Verdict::Pass);
    conclude(verdict);
}

#[test]
#[should_panic(expected = "Input is not valid Rust code.")]
fn test_compare_tokenstreams_invalid_rust_code() {
    let first =
        "async fn test (a : String , b : String) { let test = async { a + b } return test ; }";
    let second = "async fn test (a : String , b : String) { return a ; }";
    let diagnostic = "error: expected `;`, found keyword `return`\n --> <stdin>:1:69\n";
    let (verdict, _) = drive(first, second, vec![rejected(diagnostic)]);
    conclude(verdict);
}

#[test]
fn invalid_first_fragment_fails_on_the_first_side() {
    let first =
        "async fn test (a : String , b : String) { let test = async { a + b } return test ; }";
    let second = "async fn test (a : String , b : String) { return a ; }";
    let diagnostic = "error: expected `;`, found keyword `return`\n --> <stdin>:1:69\n";
    let (verdict, asked) = drive(first, second, vec![rejected(diagnostic)]);
    assert_eq!(asked, vec![rustfmt_invocation(first)]);
    assert_eq!(
        verdict,
        Verdict::Failed {
            side: Side::First,
            error: RustfmtError::InvalidRust(diagnostic.to_string()),
        }
    );
}

#[test]
fn invalid_second_fragment_fails_on_the_second_side() {
    let first = "async fn test (a : String , b : String) { return a ; }";
    let second =
        "async fn test (a : String , b : String) { let test = async { a + b } return test ; }";
    let canonical = "async fn test(a: String, b: String) {\n    return a;\n}\n";
    let diagnostic = "error: expected `;`, found keyword `return`\n --> <stdin>:1:69\n";
    let (verdict, asked) = drive(first, second, vec![formatted(canonical), rejected(diagnostic)]);
    assert_eq!(asked, vec![rustfmt_invocation(first), rustfmt_invocation(second)]);
    assert_eq!(
        verdict,
        Verdict::Failed {
            side: Side::Second,
            error: RustfmtError::InvalidRust(diagnostic.to_string()),
        }
    );
}

#[test]
fn unequal_fragments_end_in_a_mismatch() {
    let first = "fn test (a : String , b : String) { let test = 2 ; return a ; }";
    let second = "fn test2 (a : String , b : String) { let test = 2 ; return b ; }";
    let left = "fn test(a: String, b: String) {\n    let test = 2;\n    return a;\n}\n";
    let right = "fn test2(a: String, b: String) {\n    let test = 2;\n    return b;\n}\n";
    let (verdict, asked) = drive(first, second, vec![formatted(left), formatted(right)]);
    assert_eq!(asked, vec![rustfmt_invocation(first), rustfmt_invocation(second)]);
    assert_eq!(verdict, Verdict::Mismatch { left: left.to_string(), right: right.to_string() });
}

#[test]
fn unequal_async_fragments_end_in_a_mismatch() {
    let first =
        "async fn test (a : String , b : String) { let test = async { a + b } . await ; return test ; }";
    let second = "async fn test (a : String , b : String) { return a ; }";
    let left =
        "async fn test(a: String, b: String) {\n    let test = async { a + b }.await;\n    return test;\n}\n";
    let right = "async fn test(a: String, b: String) {\n    return a;\n}\n";
    let (verdict, _) = drive(first, second, vec![formatted(left), formatted(right)]);
    assert_eq!(verdict, Verdict::Mismatch { left: left.to_string(), right: right.to_string() });
}

#[test]
fn fragments_that_differ_only_in_layout_pass() {
    let first = "fn test (a : String , b : String) { return a ; }";
    let second = "fn test(a: String,\n        b: String)\n{\n\treturn a;\n}";
    let canonical = "fn test(a: String, b: String) {\n    return a;\n}\n";
    let (verdict, _) = drive(first, second, vec![formatted(canonical), formatted(canonical)]);
    assert_eq!(verdict, Verdict::Pass);
}

#[test]
fn exchanged_fragments_exchange_the_sides_of_a_mismatch() {
    let a = "fn a () { }";
    let b = "fn b () { }";
    let (one_way, _) = drive(a, b, vec![formatted("fn a() {}\n"), formatted("fn b() {}\n")]);
    let (other_way, _) = drive(b, a, vec![formatted("fn b() {}\n"), formatted("fn a() {}\n")]);
    assert_eq!(
        one_way,
        Verdict::Mismatch { left: "fn a() {}\n".to_string(), right: "fn b() {}\n".to_string() }
    );
    assert_eq!(
        other_way,
        Verdict::Mismatch { left: "fn b() {}\n".to_string(), right: "fn a() {}\n".to_string() }
    );
}

#[test]
fn exchanged_fragments_move_a_failure_to_the_other_side() {
    let good = "fn a () { }";
    let bad = "fn a ( { }";
    let diagnostic = "error: mismatched closing delimiter\n";
    let (one_way, asked_one_way) = drive(bad, good, vec![rejected(diagnostic)]);
    let (other_way, asked_other_way) =
        drive(good, bad, vec![formatted("fn a() {}\n"), rejected(diagnostic)]);
    assert_eq!(asked_one_way.len(), 1);
    assert_eq!(asked_other_way.len(), 2);
    assert_eq!(
        one_way,
        Verdict::Failed {
            side: Side::First,
            error: RustfmtError::InvalidRust(diagnostic.to_string()),
        }
    );
    assert_eq!(
        other_way,
        Verdict::Failed {
            side: Side::Second,
            error: RustfmtError::InvalidRust(diagnostic.to_string()),
        }
    );
}

#[test]
fn missing_tool_fails_whatever_the_fragments_hold() {
    let cause = "No such file or directory (os error 2)";
    let pairs = [
        ("fn a () { }", "fn a () { }"),
        ("fn a () { }", "fn b () { }"),
        ("", ""),
        ("not rust at all (", "struct S ;"),
    ];
    for (first, second) in pairs {
        let (verdict, asked) =
            drive(first, second, vec![ChildOutcome::SpawnFailed(cause.to_string())]);
        assert_eq!(asked, vec![rustfmt_invocation(first)]);
        assert_eq!(
            verdict,
            Verdict::Failed { side: Side::First, error: RustfmtError::Io(cause.to_string()) }
        );
        match verdict {
            Verdict::Failed { side, error } => assert_eq!(
                failure_message(side, &error),
                "Error formatting first token stream: Could not create child process for rustfmt."
            ),
            _ => unreachable!(),
        }
    }
}

#[test]
fn infrastructure_failure_on_the_second_run_is_labelled_second() {
    let canonical = "struct S;\n";
    let (verdict, _) =
        drive("struct S ;", "struct S ;", vec![formatted(canonical), ChildOutcome::WaitFailed]);
    assert_eq!(verdict, Verdict::Failed { side: Side::Second, error: RustfmtError::Output });
    let (verdict, _) =
        drive("struct S ;", "struct S ;", vec![formatted(canonical), ChildOutcome::StdinFailed]);
    assert_eq!(verdict, Verdict::Failed { side: Side::Second, error: RustfmtError::Stdin });
    let (verdict, _) = drive(
        "struct S ;",
        "struct S ;",
        vec![
            formatted(canonical),
            ChildOutcome::Exited { success: true, stdout: vec![0xff], stderr: Vec::new() },
        ],
    );
    assert_eq!(verdict, Verdict::Failed { side: Side::Second, error: RustfmtError::Utf8 });
}

#[test]
fn comparison_is_sensitive_to_whitespace_in_normalised_text() {
    let (verdict, _) = drive("x", "x", vec![formatted("struct S;\n"), formatted("struct S;")]);
    assert_eq!(
        verdict,
        Verdict::Mismatch { left: "struct S;\n".to_string(), right: "struct S;".to_string() }
    );
}

#[test]
fn empty_normalised_texts_pass() {
    let (verdict, asked) = drive("", "", vec![formatted(""), formatted("")]);
    assert_eq!(asked.len(), 2);
    assert_eq!(verdict, Verdict::Pass);
}

#[test]
fn new_comparison_asks_for_the_first_fragment_and_has_no_verdict() {
    let comparison = Comparison::new("fn a () { }".to_string(), "fn b () { }".to_string());
    assert_eq!(comparison.invocation(), Some(rustfmt_invocation("fn a () { }")));
    assert_eq!(comparison.verdict(), None);
}

#[test]
fn after_the_first_run_the_second_fragment_is_asked_for() {
    let comparison = Comparison::new("fn a () { }".to_string(), "fn b () { }".to_string())
        .advance(formatted("fn a() {}\n"));
    assert_eq!(
        comparison,
        Comparison::Second { left: "fn a() {}\n".to_string(), second: "fn b () { }".to_string() }
    );
    assert_eq!(comparison.invocation(), Some(rustfmt_invocation("fn b () { }")));
    assert_eq!(comparison.verdict(), None);
}

#[test]
fn ended_comparison_asks_for_nothing_and_stays_as_it_is() {
    let ended = Comparison::new("fn a () { }".to_string(), "fn b () { }".to_string())
        .advance(ChildOutcome::StdinFailed);
    assert_eq!(
        ended,
        Comparison::Done(Verdict::Failed { side: Side::First, error: RustfmtError::Stdin })
    );
    assert_eq!(ended.invocation(), None);
    let still = ended.advance(formatted("fn a() {}\n"));
    assert_eq!(
        still,
        Comparison::Done(Verdict::Failed { side: Side::First, error: RustfmtError::Stdin })
    );
    assert_eq!(
        still.verdict(),
        Some(Verdict::Failed { side: Side::First, error: RustfmtError::Stdin })
    );
}

#[test]
fn verdict_on_two_equal_texts_is_a_pass() {
    assert_eq!(
        compare_tokenstreams(Ok("struct S;\n".to_string()), Ok("struct S;\n".to_string())),
        Verdict::Pass
    );
}

#[test]
fn verdict_on_two_different_texts_holds_both() {
    assert_eq!(
        compare_tokenstreams(Ok("struct S;\n".to_string()), Ok("struct T;\n".to_string())),
        Verdict::Mismatch { left: "struct S;\n".to_string(), right: "struct T;\n".to_string() }
    );
}

#[test]
fn verdict_reports_the_first_failure_before_the_second() {
    assert_eq!(
        compare_tokenstreams(Err(RustfmtError::Stdin), Err(RustfmtError::Output)),
        Verdict::Failed { side: Side::First, error: RustfmtError::Stdin }
    );
    assert_eq!(
        compare_tokenstreams(Err(RustfmtError::Output), Err(RustfmtError::Stdin)),
        Verdict::Failed { side: Side::First, error: RustfmtError::Output }
    );
    assert_eq!(
        compare_tokenstreams(Err(RustfmtError::Utf8), Ok("struct S;\n".to_string())),
        Verdict::Failed { side: Side::First, error: RustfmtError::Utf8 }
    );
    assert_eq!(
        compare_tokenstreams(Ok("struct S;\n".to_string()), Err(RustfmtError::Utf8)),
        Verdict::Failed { side: Side::Second, error: RustfmtError::Utf8 }
    );
}
