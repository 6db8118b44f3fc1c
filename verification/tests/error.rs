use dramasim::error::{underline, CompilationError, EvalFailure};
use dramasim::line::Line;

fn here() -> Line<'static> {
    Line { address: 4, line_number: 2, line: "HIA R1, 5" }
}

#[test]
fn every_failure_but_one_names_its_line() {
    let line = here();
    let all = vec![
        CompilationError::MathEval(line, EvalFailure { message: "m".to_string() }),
        CompilationError::NegativeRegisters { line, expr: "-1", value: -1 },
        CompilationError::NoOperand { line, opcode: "HIA" },
        CompilationError::Incomprehensible(line, EvalFailure { message: "m".to_string() }),
        CompilationError::NotARegister { line, malformed_operand: "r1" },
        CompilationError::UnexpectedInterpretation(line, "HST".to_string()),
        CompilationError::UnsupportedInterpretation(line, "SBR".to_string(), vec!['d', 'i']),
        CompilationError::TooLongInterpretation(line, "ww".to_string()),
        CompilationError::NoSecondOperand(line, "HIA".to_string()),
        CompilationError::RegRegUnsupported(line, "BIG".to_string()),
        CompilationError::RegRegInterpretation(line, "HIA".to_string()),
    ];
    for e in &all {
        assert_eq!(e.get_line(), Some(&line), "{:?}", e);
    }
    assert_eq!(CompilationError::NoCompilation.get_line(), None);
}

#[test]
fn messages_read_as_sentences() {
    let line = here();
    assert_eq!(
        CompilationError::MathEval(line, EvalFailure { message: "bad math".to_string() }).message(),
        "bad math"
    );
    assert_eq!(
        CompilationError::NegativeRegisters { line, expr: "-1", value: -1 }.message(),
        "RESGR expects a non-negative operand"
    );
    assert_eq!(CompilationError::NoCompilation.message(), "No compilation happened");
    assert_eq!(
        CompilationError::NoOperand { line, opcode: "hia" }.message(),
        "Instruction `hia` expects an operand, but you provided none"
    );
    assert_eq!(
        CompilationError::NotARegister { line, malformed_operand: "r1" }.message(),
        "`r1` is not in the form of Rx, where 0 <= x <= 9."
    );
    assert_eq!(
        CompilationError::UnexpectedInterpretation(line, "HST".to_string()).message(),
        "Instruction `HST` does not expect an interpretation"
    );
    assert_eq!(
        CompilationError::TooLongInterpretation(line, "WW".to_string()).message(),
        "Interpretations consist of exactly one character, thus `WW` is invalid."
    );
    assert_eq!(
        CompilationError::NoSecondOperand(line, "HIA".to_string()).message(),
        "Instruction `HIA` expects two operands, but you provided only one"
    );
    assert_eq!(
        CompilationError::RegRegUnsupported(line, "BIG".to_string()).message(),
        "Register-register operations are not supported for `BIG`"
    );
    assert_eq!(
        CompilationError::RegRegInterpretation(line, "HIA".to_string()).message(),
        "Register-register operations using `HIA` don't support interpretations"
    );
    assert_eq!(
        CompilationError::Incomprehensible(line, EvalFailure { message: "x".to_string() })
            .message(),
        "Not a valid instruction or integer expression"
    );
}

#[test]
fn accepted_interpretations_are_listed() {
    let line = here();
    assert_eq!(
        CompilationError::UnsupportedInterpretation(line, "SBR".to_string(), vec!['d', 'i'])
            .message(),
        format!("Instruction `SBR` supports only interpretations {:?}", vec!['d', 'i'])
    );
    assert_eq!(
        CompilationError::UnsupportedInterpretation(
            line,
            "HIA".to_string(),
            vec!['d', 'i', 'w', 'a']
        )
        .message(),
        "Instruction `HIA` supports only interpretations ['d', 'i', 'w', 'a']"
    );
    assert_eq!(
        CompilationError::UnsupportedInterpretation(line, "X".to_string(), vec!['d']).message(),
        "Instruction `X` supports only interpretations ['d']"
    );
    assert_eq!(
        CompilationError::UnsupportedInterpretation(line, "X".to_string(), vec![]).message(),
        "Instruction `X` supports only interpretations []"
    );
}

#[test]
fn marks_stand_under_the_text() {
    assert_eq!(underline("HIA R1, 5"), "^^^^^^^^^");
    assert_eq!(underline("HIA\tR1"), "^^^\t^^");
    assert_eq!(underline(""), "");
    assert_eq!(underline("é\t\t"), "^\t\t");
}
