//! The ways in which assembling a program can fail.

use crate::line::{Line, SourceLine};
use vstd::prelude::*;
use vstd::string::*;

verus! {

/// Why an expression could not be evaluated, in the evaluator's own words.
#[derive(Debug, Clone, PartialEq, Eq)]
pub struct EvalFailure {
    pub message: String,
}

impl View for EvalFailure {
    type V = Seq<char>;

    open spec fn view(&self) -> Seq<char> {
        self.message@
    }
}

/// What the evaluator answered, as mathematical values.
pub open spec fn answer_view(answer: Result<i64, EvalFailure>) -> Result<i64, Seq<char>> {
    match answer {
        Ok(v) => Ok(v),
        Err(e) => Err(e@),
    }
}

/// Why a program could not be assembled. Every kind but the last names the
/// line that it was found on.
#[derive(Debug, PartialEq, Eq)]
pub enum CompilationError<'a> {
    /// An address or a reservation size could not be evaluated.
    MathEval(Line<'a>, EvalFailure),
    /// A reservation of a negative number of cells.
    NegativeRegisters { line: Line<'a>, expr: &'a str, value: i64 },
    /// An instruction that needs an operand has none.
    NoOperand { line: Line<'a>, opcode: &'a str },
    /// The line is neither an instruction nor an expression.
    Incomprehensible(Line<'a>, EvalFailure),
    /// A register was expected: `R` and one digit.
    NotARegister { line: Line<'a>, malformed_operand: &'a str },
    /// An interpretation on an instruction that takes none.
    UnexpectedInterpretation(Line<'a>, String),
    /// An interpretation that the instruction does not support; the last
    /// field lists those that it does.
    UnsupportedInterpretation(Line<'a>, String, Vec<char>),
    /// An interpretation that is not exactly one character.
    TooLongInterpretation(Line<'a>, String),
    /// An instruction that needs two operands has one.
    NoSecondOperand(Line<'a>, String),
    /// Two registers as operands of an instruction that does not take them.
    RegRegUnsupported(Line<'a>, String),
    /// Two registers as operands together with an interpretation.
    RegRegInterpretation(Line<'a>, String),
    /// The text is no instruction. The encoder answers this where the line
    /// may still be a bare expression; it is not a failure of a program.
    NoCompilation,
}

/// A failure as mathematical values.
pub enum ErrorView {
    MathEval(SourceLine, Seq<char>),
    NegativeRegisters { line: SourceLine, expr: Seq<char>, value: i64 },
    NoOperand { line: SourceLine, opcode: Seq<char> },
    Incomprehensible(SourceLine, Seq<char>),
    NotARegister { line: SourceLine, malformed_operand: Seq<char> },
    UnexpectedInterpretation(SourceLine, Seq<char>),
    UnsupportedInterpretation(SourceLine, Seq<char>, Seq<char>),
    TooLongInterpretation(SourceLine, Seq<char>),
    NoSecondOperand(SourceLine, Seq<char>),
    RegRegUnsupported(SourceLine, Seq<char>),
    RegRegInterpretation(SourceLine, Seq<char>),
    NoCompilation,
}

impl ErrorView {
    /// The line that the failure was found on.
    pub open spec fn line(self) -> Option<SourceLine> {
        match self {
            ErrorView::MathEval(line, _) => Some(line),
            ErrorView::NegativeRegisters { line, .. } => Some(line),
            ErrorView::NoOperand { line, .. } => Some(line),
            ErrorView::Incomprehensible(line, _) => Some(line),
            ErrorView::NotARegister { line, .. } => Some(line),
            ErrorView::UnexpectedInterpretation(line, _) => Some(line),
            ErrorView::UnsupportedInterpretation(line, _, _) => Some(line),
            ErrorView::TooLongInterpretation(line, _) => Some(line),
            ErrorView::NoSecondOperand(line, _) => Some(line),
            ErrorView::RegRegUnsupported(line, _) => Some(line),
            ErrorView::RegRegInterpretation(line, _) => Some(line),
            ErrorView::NoCompilation => None,
        }
    }
}

impl<'a> View for CompilationError<'a> {
    type V = ErrorView;

    open spec fn view(&self) -> ErrorView {
        match *self {
            CompilationError::MathEval(line, e) => ErrorView::MathEval(line@, e@),
            CompilationError::NegativeRegisters { line, expr, value } => {
                ErrorView::NegativeRegisters { line: line@, expr: expr@, value: value }
            },
            CompilationError::NoOperand { line, opcode } => ErrorView::NoOperand {
                line: line@,
                opcode: opcode@,
            },
            CompilationError::Incomprehensible(line, e) => ErrorView::Incomprehensible(line@, e@),
            CompilationError::NotARegister { line, malformed_operand } => ErrorView::NotARegister {
                line: line@,
                malformed_operand: malformed_operand@,
            },
            CompilationError::UnexpectedInterpretation(line, opcode) => {
                ErrorView::UnexpectedInterpretation(line@, opcode@)
            },
            CompilationError::UnsupportedInterpretation(line, opcode, accepted) => {
                ErrorView::UnsupportedInterpretation(line@, opcode@, accepted@)
            },
            CompilationError::TooLongInterpretation(line, suffix) => {
                ErrorView::TooLongInterpretation(line@, suffix@)
            },
            CompilationError::NoSecondOperand(line, opcode) => ErrorView::NoSecondOperand(
                line@,
                opcode@,
            ),
            CompilationError::RegRegUnsupported(line, opcode) => ErrorView::RegRegUnsupported(
                line@,
                opcode@,
            ),
            CompilationError::RegRegInterpretation(line, opcode) => ErrorView::RegRegInterpretation(
                line@,
                opcode@,
            ),
            CompilationError::NoCompilation => ErrorView::NoCompilation,
        }
    }
}

/// The outcome of encoding as mathematical values.
pub open spec fn word_view(r: Result<i64, CompilationError<'_>>) -> Result<i64, ErrorView> {
    match r {
        Ok(w) => Ok(w),
        Err(e) => Err(e@),
    }
}

/// A list of characters as it is shown in a message: each between single
/// quotes, a comma and a space between two of them.
pub open spec fn listed(chars: Seq<char>) -> Seq<char>
    decreases chars.len(),
{
    if chars.len() == 0 {
        Seq::empty()
    } else if chars.len() == 1 {
        seq!['\'', chars[0], '\'']
    } else {
        listed(chars.drop_last()) + seq![',', ' ', '\'', chars.last(), '\'']
    }
}

impl ErrorView {
    /// The message of the failure.
    pub open spec fn message(self) -> Seq<char> {
        match self {
            ErrorView::MathEval(_, e) => e,
            ErrorView::NegativeRegisters { .. } => "RESGR expects a non-negative operand"@,
            ErrorView::NoCompilation => "No compilation happened"@,
            ErrorView::NoOperand { opcode, .. } => "Instruction `"@ + opcode
                + "` expects an operand, but you provided none"@,
            ErrorView::NotARegister { malformed_operand, .. } => "`"@ + malformed_operand
                + "` is not in the form of Rx, where 0 <= x <= 9."@,
            ErrorView::UnexpectedInterpretation(_, opcode) => "Instruction `"@ + opcode
                + "` does not expect an interpretation"@,
            ErrorView::UnsupportedInterpretation(_, opcode, accepted) => "Instruction `"@ + opcode
                + "` supports only interpretations ["@ + listed(accepted) + "]"@,
            ErrorView::TooLongInterpretation(_, suffix) =>
                "Interpretations consist of exactly one character, thus `"@ + suffix
                + "` is invalid."@,
            ErrorView::NoSecondOperand(_, opcode) => "Instruction `"@ + opcode
                + "` expects two operands, but you provided only one"@,
            ErrorView::RegRegUnsupported(_, opcode) =>
                "Register-register operations are not supported for `"@ + opcode + "`"@,
            ErrorView::RegRegInterpretation(_, opcode) => "Register-register operations using `"@
                + opcode + "` don't support interpretations"@,
            ErrorView::Incomprehensible(..) => "Not a valid instruction or integer expression"@,
        }
    }
}

/// Calls `String::push`, which appends one character to the string.
#[verifier::external_body]
fn push_char(s: &mut String, c: char)
    ensures
        final(s)@ == old(s)@.push(c),
{
    s.push(c)
}

/// The line of marks that is shown under a text: a `^` under each of its
/// characters, and a tab under each tab, so that the marks stand under the
/// text.
pub open spec fn marks(text: Seq<char>) -> Seq<char> {
    Seq::new(
        text.len(),
        |i: int|
            if text[i] == '\t' {
                '\t'
            } else {
                '^'
            },
    )
}

/// The line of marks to show under a text.
pub fn underline(text: &str) -> (line: String)
    ensures
        line@ == marks(text@),
{
    let n: usize = text.unicode_len();
    let mut line: String = String::new();
    let mut i: usize = 0;
    while i < n
        invariant
            i <= n,
            n == text@.len(),
            line@ == marks(text@.take(i as int)),
        decreases n - i,
    {
        let c: char = text.get_char(i);
        let ghost before = line@;
        if c == '\t' {
            push_char(&mut line, '\t');
        } else {
            push_char(&mut line, '^');
        }
        proof {
            assert(line@ =~= marks(text@.take(i + 1)));
        }
        i += 1;
    }
    proof {
        assert(text@.take(n as int) =~= text@);
    }
    line
}

/// `before`, `middle` and `after` in one string.
fn framed(before: &str, middle: &str, after: &str) -> (s: String)
    ensures
        s@ == before@ + middle@ + after@,
{
    let mut s: String = String::from_str(before);
    s.append(middle);
    s.append(after);
    s
}

/// Appends a list of characters as it is shown in a message.
fn append_listed(s: &mut String, chars: &Vec<char>)
    ensures
        final(s)@ == old(s)@ + listed(chars@),
{
    let mut i: usize = 0;
    proof {
        assert(chars@.take(0) =~= Seq::<char>::empty());
        assert(s@ + Seq::<char>::empty() =~= s@);
    }
    while i < chars.len()
        invariant
            i <= chars.len(),
            s@ == old(s)@ + listed(chars@.take(i as int)),
        decreases chars.len() - i,
    {
        let ghost shown = s@;
        if i > 0 {
            s.append(", ");
        }
        push_char(s, '\'');
        push_char(s, chars[i]);
        push_char(s, '\'');
        proof {
            reveal_strlit(", ");
            let next = chars@.take(i + 1);
            assert(next.drop_last() =~= chars@.take(i as int));
            assert(next.last() == chars@[i as int]);
            if i > 0 {
                assert(s@ =~= shown + seq![',', ' ', '\'', chars@[i as int], '\'']);
                assert(old(s)@ + (listed(chars@.take(i as int)) + seq![
                    ',',
                    ' ',
                    '\'',
                    chars@[i as int],
                    '\'',
                ]) =~= shown + seq![',', ' ', '\'', chars@[i as int], '\'']);
            } else {
                assert(chars@.take(0) =~= Seq::<char>::empty());
                assert(s@ =~= old(s)@ + seq!['\'', chars@[i as int], '\'']);
            }
        }
        i += 1;
    }
    proof {
        assert(chars@.take(i as int) =~= chars@);
    }
}

impl<'a> CompilationError<'a> {
    /// The message of the failure, for a reader of the program.
    pub fn message(&self) -> (text: String)
        ensures
            text@ == self@.message(),
    {
        match self {
            CompilationError::MathEval(_, e) => e.message.clone(),
            CompilationError::NegativeRegisters { .. } => String::from_str(
                "RESGR expects a non-negative operand",
            ),
            CompilationError::NoCompilation => String::from_str("No compilation happened"),
            CompilationError::NoOperand { opcode, .. } => framed(
                "Instruction `",
                opcode,
                "` expects an operand, but you provided none",
            ),
            CompilationError::NotARegister { malformed_operand, .. } => framed(
                "`",
                malformed_operand,
                "` is not in the form of Rx, where 0 <= x <= 9.",
            ),
            CompilationError::UnexpectedInterpretation(_, opcode) => framed(
                "Instruction `",
                opcode.as_str(),
                "` does not expect an interpretation",
            ),
            CompilationError::UnsupportedInterpretation(_, opcode, accepted) => {
                let mut text: String = framed(
                    "Instruction `",
                    opcode.as_str(),
                    "` supports only interpretations [",
                );
                append_listed(&mut text, accepted);
                text.append("]");
                text
            },
            CompilationError::TooLongInterpretation(_, suffix) => framed(
                "Interpretations consist of exactly one character, thus `",
                suffix.as_str(),
                "` is invalid.",
            ),
            CompilationError::NoSecondOperand(_, opcode) => framed(
                "Instruction `",
                opcode.as_str(),
                "` expects two operands, but you provided only one",
            ),
            CompilationError::RegRegUnsupported(_, opcode) => framed(
                "Register-register operations are not supported for `",
                opcode.as_str(),
                "`",
            ),
            CompilationError::RegRegInterpretation(_, opcode) => framed(
                "Register-register operations using `",
                opcode.as_str(),
                "` don't support interpretations",
            ),
            CompilationError::Incomprehensible(..) => String::from_str(
                "Not a valid instruction or integer expression",
            ),
        }
    }

    /// The line that the failure was found on. Only `NoCompilation` has none.
    pub fn get_line(&self) -> (line: Option<&Line<'a>>)
        ensures
            match line {
                Some(l) => self@.line() == Some(l@),
                None => self@.line() is None,
            },
            line is None <==> self@ is NoCompilation,
    {
        match self {
            CompilationError::MathEval(l, _) => Some(l),
            CompilationError::NegativeRegisters { line, .. } => Some(line),
            CompilationError::NoOperand { line, .. } => Some(line),
            CompilationError::Incomprehensible(line, _) => Some(line),
            CompilationError::NotARegister { line, .. } => Some(line),
            CompilationError::UnexpectedInterpretation(line, _) => Some(line),
            CompilationError::UnsupportedInterpretation(line, _, _) => Some(line),
            CompilationError::TooLongInterpretation(line, _) => Some(line),
            CompilationError::NoSecondOperand(line, _) => Some(line),
            CompilationError::RegRegUnsupported(line, _) => Some(line),
            CompilationError::RegRegInterpretation(line, _) => Some(line),
            CompilationError::NoCompilation => None,
        }
    }
}

} // verus!
