use dramasim::error::{CompilationError, EvalFailure};
use dramasim::labels::LabelTable;
use dramasim::line::Line;
use dramasim::resolver::expand_and_omit_labels;
use mexprp::{Answer, Context, Term};

fn evaluate(expr: &str, labels: Option<&LabelTable>) -> Result<i64, EvalFailure> {
    let mut context: Context<f64> = Context::new();
    if let Some(table) = labels {
        for i in 0..table.len() {
            context.vars.insert(
                table.name_at(i).to_string(),
                Term::Num(Answer::Single(table.address_at(i) as f64)),
            );
        }
    }
    match mexprp::eval_ctx::<f64>(expr, &context) {
        Ok(Answer::Single(v)) => Ok(v as i64),
        Ok(Answer::Multiple(v)) => Ok(*v.first().unwrap() as i64),
        Err(e) => Err(EvalFailure { message: e.to_string() }),
    }
}

fn line(address: usize, line_number: usize, text: &str) -> Line<'_> {
    Line { address, line_number, line: text }
}

#[test]
fn lines_of_code_are_numbered_from_zero() {
    let input = vec!["HIA R1, 5", "OPT R1, 6", "STP"];
    let (lines, labels) = expand_and_omit_labels(&input, &evaluate).unwrap();
    assert_eq!(lines, vec![line(0, 1, "HIA R1, 5"), line(1, 2, "OPT R1, 6"), line(2, 3, "STP")]);
    assert_eq!(labels.len(), 0);
}

#[test]
fn nothing_gives_nothing() {
    let input: Vec<&str> = vec![];
    let (lines, labels) = expand_and_omit_labels(&input, &evaluate).unwrap();
    assert!(lines.is_empty());
    assert_eq!(labels.len(), 0);
}

#[test]
fn labels_are_bound_to_the_counter_at_their_line() {
    let input = vec!["a: HIA R1, 5", "b:", "c: d: STP", "e:"];
    let (lines, labels) = expand_and_omit_labels(&input, &evaluate).unwrap();
    assert_eq!(lines, vec![line(0, 1, "HIA R1, 5"), line(1, 3, "STP")]);
    assert_eq!(labels.get("a"), Some(0));
    assert_eq!(labels.get("b"), Some(1));
    assert_eq!(labels.get("c: d"), Some(1));
    assert_eq!(labels.get("e"), Some(2));
    assert_eq!(labels.get("c"), None);
    assert_eq!(labels.len(), 4);
}

#[test]
fn a_label_is_kept_as_written() {
    let input = vec!["loop : STP", "Loop: STP"];
    let (_, labels) = expand_and_omit_labels(&input, &evaluate).unwrap();
    assert_eq!(labels.get("loop "), Some(0));
    assert_eq!(labels.get("loop"), None);
    assert_eq!(labels.get("Loop"), Some(1));
}

#[test]
fn a_later_label_replaces_an_earlier_one() {
    let input = vec!["a: STP", "a: STP"];
    let (_, labels) = expand_and_omit_labels(&input, &evaluate).unwrap();
    assert_eq!(labels.get("a"), Some(1));
}

#[test]
fn a_reservation_moves_the_counter_and_leaves_no_line() {
    let input = vec!["RESGR 3", "STP"];
    let (lines, _) = expand_and_omit_labels(&input, &evaluate).unwrap();
    assert_eq!(lines, vec![line(3, 2, "STP")]);

    let input = vec!["HIA R1, 5", "buffer: RESGR 2 * 5", "after: STP", "RESGR 0", "STP"];
    let (lines, labels) = expand_and_omit_labels(&input, &evaluate).unwrap();
    assert_eq!(
        lines,
        vec![line(0, 1, "HIA R1, 5"), line(11, 3, "STP"), line(12, 5, "STP")]
    );
    assert_eq!(labels.get("buffer"), Some(1));
    assert_eq!(labels.get("after"), Some(11));
}

#[test]
fn a_reservation_is_written_exactly() {
    // lower case, or anything but a space behind the word, makes a line of code
    let input = vec!["resgr 3", "RESGR\t3", "RESGRX 3", "STP"];
    let (lines, _) = expand_and_omit_labels(&input, &evaluate).unwrap();
    assert_eq!(
        lines,
        vec![line(0, 1, "resgr 3"), line(1, 2, "RESGR\t3"), line(2, 3, "RESGRX 3"), line(3, 4, "STP")]
    );
}

#[test]
fn a_reservation_needs_its_size() {
    let input = vec!["STP", "x: RESGR", "STP"];
    assert_eq!(
        expand_and_omit_labels(&input, &evaluate),
        Err(CompilationError::NoOperand { line: line(1, 2, "RESGR"), opcode: "RESGR" })
    );
}

#[test]
fn a_negative_reservation_fails() {
    let input = vec!["STP", "RESGR 2 - 5"];
    assert_eq!(
        expand_and_omit_labels(&input, &evaluate),
        Err(CompilationError::NegativeRegisters {
            line: line(1, 2, "RESGR 2 - 5"),
            expr: "2 - 5",
            value: -3
        })
    );
}

#[test]
fn a_reservation_that_cannot_be_evaluated_fails() {
    let input = vec!["RESGR (", "STP"];
    match expand_and_omit_labels(&input, &evaluate) {
        Err(CompilationError::MathEval(l, failure)) => {
            assert_eq!(l, line(0, 1, "RESGR ("));
            assert!(!failure.message.is_empty());
        }
        other => panic!("{:?}", other),
    }
}

#[test]
fn a_reservation_sees_no_labels() {
    let input = vec!["size: STP", "RESGR size"];
    assert!(matches!(
        expand_and_omit_labels(&input, &evaluate),
        Err(CompilationError::MathEval(Line { address: 1, line_number: 2, line: "RESGR size" }, _))
    ));
    let asked = |expr: &str, labels: Option<&LabelTable>| -> Result<i64, EvalFailure> {
        assert!(labels.is_none());
        assert_eq!(expr, "size");
        Ok(4)
    };
    let (lines, _) = expand_and_omit_labels(&vec!["RESGR size", "STP"], &asked).unwrap();
    assert_eq!(lines, vec![line(4, 2, "STP")]);
}

#[test]
fn only_the_first_failing_reservation_is_reported() {
    let input = vec!["STP", "RESGR -1", "RESGR", "RESGR ("];
    assert_eq!(
        expand_and_omit_labels(&input, &evaluate),
        Err(CompilationError::NegativeRegisters {
            line: line(1, 2, "RESGR -1"),
            expr: "-1",
            value: -1
        })
    );
    let input = vec!["RESGR", "RESGR -1"];
    assert_eq!(
        expand_and_omit_labels(&input, &evaluate),
        Err(CompilationError::NoOperand { line: line(0, 1, "RESGR"), opcode: "RESGR" })
    );
}

#[test]
fn lines_behind_a_failure_are_not_evaluated() {
    let calls = std::cell::Cell::new(0);
    let counting = |_: &str, _: Option<&LabelTable>| -> Result<i64, EvalFailure> {
        calls.set(calls.get() + 1);
        Ok(-1)
    };
    let input = vec!["RESGR 1", "RESGR 2", "RESGR 3"];
    assert!(expand_and_omit_labels(&input, &counting).is_err());
    assert_eq!(calls.get(), 1);
}

#[test]
fn resolving_twice_gives_the_same_lines_and_labels() {
    let input = vec!["a: HIA R1, 5", "RESGR 7", "b: STP", "c:"];
    let (lines1, labels1) = expand_and_omit_labels(&input, &evaluate).unwrap();
    let (lines2, labels2) = expand_and_omit_labels(&input, &evaluate).unwrap();
    assert_eq!(lines1, lines2);
    assert_eq!(labels1, labels2);
    assert_eq!(lines1, vec![line(0, 1, "HIA R1, 5"), line(8, 3, "STP")]);
    assert_eq!(labels1.get("c"), Some(9));
}

#[test]
fn the_counter_wraps_at_its_limit() {
    let huge = |_: &str, _: Option<&LabelTable>| -> Result<i64, EvalFailure> {
        Ok((usize::MAX as u64).min(i64::MAX as u64) as i64)
    };
    let input = vec!["RESGR a", "RESGR b", "RESGR c", "STP"];
    let (lines, _) = expand_and_omit_labels(&input, &huge).unwrap();
    let step = (usize::MAX as u64).min(i64::MAX as u64) as usize;
    assert_eq!(lines, vec![line(step.wrapping_add(step).wrapping_add(step), 4, "STP")]);
}
