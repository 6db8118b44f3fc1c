use dramasim::assembler::{compile, line_to_numerical, to_numerical_representation};
use dramasim::codec::unpack;
use dramasim::cpu::{ConditionCode, Outcome, Output, CPU};
use dramasim::error::{CompilationError, EvalFailure};
use dramasim::labels::LabelTable;
use dramasim::line::Line;
use dramasim::ram::RAM;
use mexprp::{Answer, Context, Term};

fn evaluate(expr: &str, labels: Option<&LabelTable>) -> Result<i64, EvalFailure> {
    let mut context: Context<f64> = Context::new();
    if let Some(table) = labels {
        for i in 0..table.len() {
            context.vars.insert(
                table.name_at(i).to_string(),
                Term::Num(Answer::Single(table.address_at(i) as f64)),
            );
        }
    }
    match mexprp::eval_ctx::<f64>(expr, &context) {
        Ok(Answer::Single(v)) => Ok(v as i64),
        Ok(Answer::Multiple(v)) => Ok(*v.first().unwrap() as i64),
        Err(e) => Err(EvalFailure { message: e.to_string() }),
    }
}

fn run(source: &str, budget: usize) -> (CPU, RAM, Vec<Output>, Outcome) {
    let program = compile(source, &evaluate).unwrap();
    let mut ram = RAM::new();
    ram.load_program(&program);
    let mut cpu = CPU::new();
    let report = cpu.run(&mut ram, budget);
    (cpu, ram, report.output, report.outcome)
}

#[test]
fn halt_alone_compiles_to_one_word() {
    let program = compile("STP", &evaluate).unwrap();
    assert_eq!(program, vec![(0usize, 9_999_990_009i64)]);
}

#[test]
fn halt_alone_halts_at_once() {
    let (cpu, _, output, outcome) = run("STP", 100);
    assert_eq!(outcome, Outcome::Halted);
    assert!(cpu.stopped);
    assert_eq!(cpu.accumulators, [0; 10]);
    assert!(output.is_empty());
}

#[test]
fn load_direct_compiles_to_its_fields() {
    let program = compile("HIA R1, 5", &evaluate).unwrap();
    assert_eq!(program, vec![(0usize, 1_131_190_005i64)]);
    let fields = unpack(program[0].1);
    assert_eq!(fields.opcode, 11);
    assert_eq!(fields.mode1, 3);
    assert_eq!(fields.mode2, 1);
    assert_eq!(fields.accumulator, 1);
    assert_eq!(fields.index, 9);
    assert_eq!(fields.operand, 5);
}

#[test]
fn load_direct_loads_what_memory_holds() {
    let program = compile("HIA R1, 5", &evaluate).unwrap();
    let mut ram = RAM::new();
    ram.load_program(&program);
    ram.write(5, 42);
    let mut cpu = CPU::new();
    assert_eq!(cpu.step(&mut ram), Ok(None));
    assert_eq!(cpu.accumulators[1], 42);
    assert_eq!(cpu.condition_code, ConditionCode::Pos);
}

#[test]
fn register_pair_is_sugar_for_indexed_value() {
    let sugar = compile("HIA R2, R3", &evaluate).unwrap();
    let plain = compile("HIA.w R2, 0(R3)", &evaluate).unwrap();
    assert_eq!(sugar, plain);
    assert_eq!(sugar, vec![(0usize, 1_112_230_000i64)]);
}

#[test]
fn a_backward_label_is_the_address_of_its_line() {
    let program = compile("RESGR 2\nloop: OPT.w R0, 1\nVSP R6, loop", &evaluate).unwrap();
    assert_eq!(program, vec![(2, 2_111_090_001), (3, 3_321_690_002)]);
}

#[test]
fn a_forward_label_is_the_address_of_its_line() {
    let program = compile("SBR sub\nSPR.i sub + 1\nSTP\nRESGR 10\nsub: KTG", &evaluate).unwrap();
    assert_eq!(
        program,
        vec![(0, 4_139_990_013), (1, 3_249_990_014), (2, 9_999_990_009), (13, 4_299_990_009)]
    );
}

#[test]
fn a_conditional_jump_loops_until_its_condition_fails() {
    // R0 counts 3, 2, 1; the jump is taken while what was loaded into R1 is positive
    let source = "
        HIA.w R0, 3          | the counter
        loop: DRU            | print it
        AFT.w R0, 1
        HIA.w R1, 0(R0)      | sets the condition code from the counter
        VSP R6, loop         | again while positive
        STP
    ";
    let (cpu, _, output, outcome) = run(source, 1_000);
    assert_eq!(outcome, Outcome::Halted);
    assert_eq!(output, vec![Output::Number(3), Output::Number(2), Output::Number(1)]);
    assert_eq!(cpu.accumulators[0], 0);
    assert_eq!(cpu.condition_code, ConditionCode::Eql);
}

#[test]
fn a_reservation_leaves_cells_free() {
    let program = compile("HIA R1, 5\nRESGR 3\nSTP", &evaluate).unwrap();
    assert_eq!(program, vec![(0, 1_131_190_005), (4, 9_999_990_009)]);
    let program = compile("RESGR 3\nSTP", &evaluate).unwrap();
    assert_eq!(program, vec![(3, 9_999_990_009)]);
}

#[test]
fn a_line_may_be_a_number() {
    let program = compile("HIA R0, data\nSTP\ndata: 42\n-7\n2 * (3 + 4)\n3.5", &evaluate).unwrap();
    assert_eq!(
        program,
        vec![(0, 1_131_090_002), (1, 9_999_990_009), (2, 42), (3, -7), (4, 14), (5, 3)]
    );
    let (cpu, _, _, outcome) = run("HIA R0, data\nSTP\ndata: 42", 10);
    assert_eq!(outcome, Outcome::Halted);
    assert_eq!(cpu.accumulators[0], 42);
}

#[test]
fn comments_and_the_terminator_are_honoured() {
    let program =
        compile("| a program\n\n  STP | halt\nEINDPR\nthis is never read", &evaluate).unwrap();
    assert_eq!(program, vec![(0, 9_999_990_009)]);
    assert_eq!(compile("", &evaluate).unwrap(), vec![]);
}

#[test]
fn stack_macros_use_register_eight() {
    let program = compile("BST R1\nHST R2", &evaluate).unwrap();
    assert_eq!(program, vec![(0, 1_214_180_000), (1, 1_115_280_000)]);
}

#[test]
fn unknown_text_is_incomprehensible() {
    match compile("HIA R1, 5\n???", &evaluate) {
        Err(CompilationError::Incomprehensible(line, _)) => {
            assert_eq!(line.line_number, 2);
            assert_eq!(line.address, 1);
            assert_eq!(line.line, "???");
        }
        other => panic!("unexpected outcome: {:?}", other),
    }
}

#[test]
fn an_address_that_cannot_be_evaluated_fails() {
    match compile("STP\nHIA R1, nowhere", &evaluate) {
        Err(CompilationError::MathEval(line, failure)) => {
            assert_eq!(line, Line { address: 1, line_number: 2, line: "HIA R1, nowhere" });
            assert!(!failure.message.is_empty());
        }
        other => panic!("unexpected outcome: {:?}", other),
    }
}

#[test]
fn a_failed_evaluation_is_reported_before_a_malformed_register() {
    assert!(matches!(
        compile("HIA r1, nowhere", &evaluate),
        Err(CompilationError::MathEval(_, _))
    ));
    assert_eq!(
        compile("HIA r1, 5", &evaluate),
        Err(CompilationError::NotARegister {
            line: Line { address: 0, line_number: 1, line: "HIA r1, 5" },
            malformed_operand: "r1"
        })
    );
}

#[test]
fn every_kind_of_failure_can_be_had() {
    let at = |text: &'static str| Line { address: 0, line_number: 1, line: text };
    assert_eq!(
        compile("HIA", &evaluate),
        Err(CompilationError::NoOperand { line: at("HIA"), opcode: "HIA" })
    );
    assert_eq!(
        compile("hia R1", &evaluate),
        Err(CompilationError::NoSecondOperand(at("hia R1"), "HIA".to_string()))
    );
    assert_eq!(
        compile("HIA R1, 5(R)", &evaluate),
        Err(CompilationError::NotARegister { line: at("HIA R1, 5(R)"), malformed_operand: "R" })
    );
    assert_eq!(
        compile("hst.d R1", &evaluate),
        Err(CompilationError::UnexpectedInterpretation(at("hst.d R1"), "HST".to_string()))
    );
    assert_eq!(
        compile("SBR.w 5", &evaluate),
        Err(CompilationError::UnsupportedInterpretation(
            at("SBR.w 5"),
            "SBR".to_string(),
            vec!['d', 'i']
        ))
    );
    assert_eq!(
        compile("HIA.x R1, 5", &evaluate),
        Err(CompilationError::UnsupportedInterpretation(
            at("HIA.x R1, 5"),
            "HIA".to_string(),
            vec!['d', 'i', 'w', 'a']
        ))
    );
    assert_eq!(
        compile("HIA.dd R1, 5", &evaluate),
        Err(CompilationError::TooLongInterpretation(at("HIA.dd R1, 5"), "DD".to_string()))
    );
    assert_eq!(
        compile("BIG R1, R2", &evaluate),
        Err(CompilationError::RegRegUnsupported(at("BIG R1, R2"), "BIG".to_string()))
    );
    assert_eq!(
        compile("OPT.w R1, R2", &evaluate),
        Err(CompilationError::RegRegInterpretation(at("OPT.w R1, R2"), "OPT".to_string()))
    );
    assert_eq!(
        compile("RESGR 0 - 1", &evaluate),
        Err(CompilationError::NegativeRegisters {
            line: at("RESGR 0 - 1"),
            expr: "0 - 1",
            value: -1
        })
    );
    assert_eq!(
        compile("RESGR", &evaluate),
        Err(CompilationError::NoOperand { line: at("RESGR"), opcode: "RESGR" })
    );
    assert!(matches!(compile("RESGR )", &evaluate), Err(CompilationError::MathEval(_, _))));
    assert!(matches!(compile("SBR )", &evaluate), Err(CompilationError::MathEval(_, _))));
    assert!(matches!(compile(")", &evaluate), Err(CompilationError::Incomprehensible(_, _))));
}

#[test]
fn only_the_first_failure_is_reported() {
    assert_eq!(
        compile("STP\nHIA\nBIG\n???", &evaluate),
        Err(CompilationError::NoOperand {
            line: Line { address: 1, line_number: 2, line: "HIA" },
            opcode: "HIA"
        })
    );
    assert_eq!(
        compile("BIG R1\nHIA", &evaluate),
        Err(CompilationError::NoSecondOperand(
            Line { address: 0, line_number: 1, line: "BIG R1" },
            "BIG".to_string()
        ))
    );
}

#[test]
fn the_first_pass_fails_before_the_second() {
    assert_eq!(
        compile("HIA\nRESGR", &evaluate),
        Err(CompilationError::NoOperand {
            line: Line { address: 1, line_number: 2, line: "RESGR" },
            opcode: "RESGR"
        })
    );
}

#[test]
fn compiling_twice_gives_the_same() {
    let source = "a: HIA R1, b\nRESGR 4\nb: OPT R1, a\nSBR a\nSTP";
    let first = compile(source, &evaluate).unwrap();
    let second = compile(source, &evaluate).unwrap();
    assert_eq!(first, second);
    assert_eq!(
        first,
        vec![(0, 1_131_190_005), (5, 2_131_190_000), (6, 4_139_990_000), (7, 9_999_990_009)]
    );
}

#[test]
fn the_evaluator_is_asked_once_for_each_expression() {
    let asked = std::cell::RefCell::new(Vec::new());
    let recording = |expr: &str, labels: Option<&LabelTable>| -> Result<i64, EvalFailure> {
        asked.borrow_mut().push((expr.to_string(), labels.map(|t| t.len())));
        Ok(1)
    };
    let program =
        compile("x: RESGR n\nSTP\ny: HIA R1, x + y (R2)\nOPT R1, R2\n17\nHST R1", &recording)
            .unwrap();
    assert_eq!(
        program,
        vec![(1, 9_999_990_009), (2, 1_132_120_001), (3, 2_112_120_001), (4, 1), (5, 1_115_180_000)]
    );
    assert_eq!(
        *asked.borrow(),
        vec![
            ("n".to_string(), None),
            ("x + y".to_string(), Some(2)),
            ("0".to_string(), Some(2)),
            ("17".to_string(), Some(2)),
        ]
    );
}

#[test]
fn lines_behind_a_failure_are_not_encoded() {
    let calls = std::cell::Cell::new(0);
    let counting = |_: &str, _: Option<&LabelTable>| -> Result<i64, EvalFailure> {
        calls.set(calls.get() + 1);
        Ok(0)
    };
    assert!(compile("HIA R1, 1\nHIA\nHIA R1, 2\nHIA R1, 3", &counting).is_err());
    assert_eq!(calls.get(), 1);
}

#[test]
fn lines_are_encoded_with_the_labels_given() {
    let mut labels = LabelTable::new();
    labels.insert("there", 300);
    let lines = vec![
        Line { address: 10, line_number: 1, line: "HIA R1, there" },
        Line { address: 20, line_number: 2, line: "old: STP" },
    ];
    assert_eq!(
        to_numerical_representation(lines, &labels, &evaluate),
        Ok(vec![(10, 1_131_190_300), (20, 9_999_990_009)])
    );
    let line = Line { address: 0, line_number: 1, line: "VSP R1, there - 301" };
    assert_eq!(line_to_numerical(&line, &labels, &evaluate), Ok(3_321_199_999));
}

#[test]
fn an_expression_with_two_answers_takes_the_first() {
    let program = compile("sqrt(16)", &evaluate).unwrap();
    assert_eq!(program, vec![(0, 4)]);
}
