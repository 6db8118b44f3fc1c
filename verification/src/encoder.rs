//! The second pass, line by line: from the text of an instruction to its
//! machine word.
//!
//! The value of an address expression comes from outside this library. The
//! encoder therefore works in two steps: it parses a line into an `Encoding`,
//! which is either a finished word or the text of the expression that is still
//! to be evaluated together with what its value will be packed with; and it
//! resolves a pending encoding once the value is there.

use crate::codec::{
    insn, pack, valid_selectors, FC_AFT, FC_BIG, FC_DEL, FC_DRS, FC_DRU, FC_HIA, FC_KTG, FC_LEZ,
    FC_MOD, FC_NWL, FC_OPT, FC_SBR, FC_SPR, FC_STP, FC_VER, FC_VGL, FC_VSP, MOD1_ADDRESS,
    MOD1_INDIRECT_ADDRESS, MOD1_VALUE, MOD1_VALUE_MOD, MOD2_INDEXATION, MOD2_INDEXATION_POST_DEC,
    MOD2_INDEXATION_POST_INC, MOD2_INDEXATION_PRE_DEC, MOD2_INDEXATION_PRE_INC,
    MOD2_NO_INDEXATION, NA,
};
use crate::error::{answer_view, word_view, CompilationError, ErrorView, EvalFailure};
use crate::line::{Line, SourceLine};
use crate::text::{
    ascii_lowercase, equals, first_match, first_match_from, label_split, matches_at, omit_label,
    optional_text, split_at_space, split_trimmed, to_ascii_lowercase, to_uppercase, trim,
    trim_closing, trimmed, trimmed_end, trimmed_split, trimmed_split_whitespace, trimmed_start,
    uppercase_of, without_closing,
};
use vstd::prelude::*;
use vstd::string::*;

verus! {

/// The fields of a word that an instruction fixes before its operand is
/// known.
#[derive(Clone, Copy, Debug, PartialEq, Eq, Structural)]
pub struct Selectors {
    pub opcode: i64,
    pub mode1: i64,
    pub mode2: i64,
    pub accumulator: i64,
    pub index: i64,
}

impl Selectors {
    /// Every selector lies within its digits.
    pub open spec fn valid(self) -> bool {
        valid_selectors(
            self.opcode as int,
            self.mode1 as int,
            self.mode2 as int,
            self.accumulator as int,
            self.index as int,
        )
    }

    /// The word of these selectors and an operand.
    pub open spec fn word(self, operand: i64) -> i64 {
        pack(
            self.opcode as int,
            self.mode1 as int,
            self.mode2 as int,
            self.accumulator as int,
            self.index as int,
            operand as int,
        ) as i64
    }
}

/// What becomes of the value of a pending expression.
#[derive(Debug, PartialEq, Eq)]
pub enum Role<'a> {
    /// The value is the operand of an instruction. Behind the expression the
    /// instruction was either found well formed, and these are its selectors,
    /// or not, and this is the failure to report if the expression has a
    /// value.
    Operand(Result<Selectors, CompilationError<'a>>),
    /// The line is no instruction, and the value is the word itself.
    Literal,
}

/// An encoding that waits for the value of an expression.
#[derive(Debug, PartialEq, Eq)]
pub struct Pending<'a> {
    pub expression: &'a str,
    pub role: Role<'a>,
}

/// The outcome of parsing a line.
#[derive(Debug, PartialEq, Eq)]
pub enum Encoding<'a> {
    /// The word of an instruction without an expression.
    Word(i64),
    /// An instruction or a literal whose expression is yet to be evaluated.
    Pending(Pending<'a>),
}

/// A role as mathematical values.
pub enum RoleView {
    Operand(Result<Selectors, ErrorView>),
    Literal,
}

/// A pending encoding as mathematical values.
pub struct PendingView {
    pub expression: Seq<char>,
    pub role: RoleView,
}

/// The outcome of parsing a line as mathematical values.
pub enum EncodingView {
    Word(i64),
    Pending(PendingView),
}

impl<'a> View for Role<'a> {
    type V = RoleView;

    open spec fn view(&self) -> RoleView {
        match *self {
            Role::Operand(Ok(s)) => RoleView::Operand(Ok(s)),
            Role::Operand(Err(e)) => RoleView::Operand(Err(e@)),
            Role::Literal => RoleView::Literal,
        }
    }
}

impl<'a> View for Pending<'a> {
    type V = PendingView;

    open spec fn view(&self) -> PendingView {
        PendingView { expression: self.expression@, role: self.role@ }
    }
}

impl<'a> View for Encoding<'a> {
    type V = EncodingView;

    open spec fn view(&self) -> EncodingView {
        match *self {
            Encoding::Word(w) => EncodingView::Word(w),
            Encoding::Pending(p) => EncodingView::Pending(p@),
        }
    }
}

impl PendingView {
    /// The selectors, where there are any, are digits.
    pub open spec fn well_formed(self) -> bool {
        match self.role {
            RoleView::Operand(Ok(s)) => s.valid(),
            _ => true,
        }
    }
}

impl EncodingView {
    /// The selectors, where there are any, are digits.
    pub open spec fn well_formed(self) -> bool {
        match self {
            EncodingView::Pending(p) => p.well_formed(),
            _ => true,
        }
    }

    /// The expression that is to be evaluated, if there is one.
    pub open spec fn expression(self) -> Option<Seq<char>> {
        match self {
            EncodingView::Pending(p) => Some(p.expression),
            EncodingView::Word(_) => None,
        }
    }
}

/// The outcome of parsing as mathematical values.
pub open spec fn encoding_view(r: Result<Encoding<'_>, CompilationError<'_>>) -> Result<
    EncodingView,
    ErrorView,
> {
    match r {
        Ok(e) => Ok(e@),
        Err(e) => Err(e@),
    }
}

/// The word of an instruction that takes no operand: its function code and
/// the digit for "does not apply" in every other field. `NOP` is the word 0.
pub open spec fn zero_operand_word(opcode: Seq<char>) -> Option<i64> {
    if opcode == "KTG"@ {
        Some(pack(42, 9, 9, 9, 9, 9) as i64)
    } else if opcode == "LEZ"@ {
        Some(pack(71, 9, 9, 9, 9, 9) as i64)
    } else if opcode == "DRU"@ {
        Some(pack(72, 9, 9, 9, 9, 9) as i64)
    } else if opcode == "NWL"@ {
        Some(pack(73, 9, 9, 9, 9, 9) as i64)
    } else if opcode == "DRS"@ {
        Some(pack(74, 9, 9, 9, 9, 9) as i64)
    } else if opcode == "STP"@ {
        Some(pack(99, 9, 9, 9, 9, 9) as i64)
    } else if opcode == "NOP"@ {
        Some(0)
    } else {
        None
    }
}

/// The number of the register that a text names: `R` and one digit.
pub open spec fn register_of(operand: Seq<char>) -> Option<int> {
    if operand.len() == 2 && operand[0] == 'R' && '0' <= operand[1] <= '9' {
        Some(operand[1] as int - '0' as int)
    } else {
        None
    }
}

/// The interpretation that a suffix stands for: none without a suffix, the
/// lower-case form of its one ASCII character otherwise. A suffix of any other
/// shape is handed back as the failure.
pub open spec fn interpretation_of(suffix: Option<Seq<char>>) -> Result<Option<char>, Seq<char>> {
    match suffix {
        None => Ok(None),
        Some(s) => if s.len() == 1 && (s[0] as u32) < 128 {
            Ok(Some(ascii_lowercase(s[0])))
        } else {
            Err(s)
        },
    }
}

/// The mnemonics that take operands.
pub open spec fn takes_operand(opcode: Seq<char>) -> bool {
    ||| opcode == "HIA"@
    ||| opcode == "BIG"@
    ||| opcode == "OPT"@
    ||| opcode == "AFT"@
    ||| opcode == "VER"@
    ||| opcode == "DEL"@
    ||| opcode == "MOD"@
    ||| opcode == "VGL"@
    ||| opcode == "VSP"@
    ||| opcode == "SBR"@
    ||| opcode == "SPR"@
    ||| opcode == "BST"@
    ||| opcode == "HST"@
}

/// The function code of a mnemonic that takes a register and an address.
pub open spec fn function_code(opcode: Seq<char>) -> Option<i64> {
    if opcode == "HIA"@ {
        Some(11)
    } else if opcode == "BIG"@ {
        Some(12)
    } else if opcode == "OPT"@ {
        Some(21)
    } else if opcode == "AFT"@ {
        Some(22)
    } else if opcode == "VER"@ {
        Some(23)
    } else if opcode == "DEL"@ {
        Some(24)
    } else if opcode == "MOD"@ {
        Some(25)
    } else if opcode == "VGL"@ {
        Some(31)
    } else if opcode == "VSP"@ {
        Some(33)
    } else {
        None
    }
}

/// The mnemonics that accept two registers as operands.
pub open spec fn accepts_registers(opcode: Seq<char>) -> bool {
    ||| opcode == "HIA"@
    ||| opcode == "OPT"@
    ||| opcode == "AFT"@
    ||| opcode == "VER"@
    ||| opcode == "DEL"@
    ||| opcode == "MOD"@
    ||| opcode == "VGL"@
}

/// The mnemonics whose first mode digit is one lower than the
/// interpretation's.
pub open spec fn stores(opcode: Seq<char>) -> bool {
    opcode == "BIG"@ || opcode == "SPR"@ || opcode == "VSP"@
}

/// The first mode digit of an interpretation: 1 for `w`, 2 for `a`, 3 for `d`,
/// which is also the default, 4 for `i`.
pub open spec fn mode_digit(interpretation: Option<char>) -> Option<i64> {
    match interpretation {
        None => Some(3),
        Some(c) => if c == 'w' {
            Some(1)
        } else if c == 'a' {
            Some(2)
        } else if c == 'd' {
            Some(3)
        } else if c == 'i' {
            Some(4)
        } else {
            None
        },
    }
}

/// The interpretations of an instruction that takes a register and an
/// address.
pub open spec fn operand_interpretations() -> Seq<char> {
    seq!['d', 'i', 'w', 'a']
}

/// The interpretations of a jump.
pub open spec fn jump_interpretations() -> Seq<char> {
    seq!['d', 'i']
}

/// The second mode digit and the index register of the text between the
/// brackets of an address: a register, with `+` or `-` before it to increment
/// or decrement it first, or after it to do so afterwards.
pub open spec fn indexation_of(inner: Seq<char>, line: SourceLine) -> Result<
    (i64, i64),
    ErrorView,
> {
    let (mode2, register) = if inner.len() > 0 && inner[0] == '+' {
        (3i64, inner.subrange(1, inner.len() as int))
    } else if inner.len() > 0 && inner[0] == '-' {
        (4i64, inner.subrange(1, inner.len() as int))
    } else if inner.len() > 0 && inner.last() == '+' {
        (5i64, inner.drop_last())
    } else if inner.len() > 0 && inner.last() == '-' {
        (6i64, inner.drop_last())
    } else {
        (2i64, inner)
    };
    match register_of(register) {
        Some(r) => Ok((mode2, r as i64)),
        None => Err(ErrorView::NotARegister { line: line, malformed_operand: register }),
    }
}

/// An address operand `EXPR` or `EXPR(..)`: the expression, and the second
/// mode digit with the index register. Without brackets there is no
/// indexation: digit 1, and 9 for the register.
pub open spec fn address_indexed(operand: Seq<char>, line: SourceLine) -> (
    Seq<char>,
    Result<(i64, i64), ErrorView>,
) {
    let (expression, indexation) = split_trimmed(operand, "("@);
    match indexation {
        None => (expression, Ok((1, 9))),
        Some(ix) => (expression, indexation_of(without_closing(ix), line)),
    }
}

/// The encoding of a push, a pop, a call or a jump. Any other mnemonic is no
/// instruction of this shape.
pub open spec fn single_operand(
    opcode: Seq<char>,
    interpretation: Option<char>,
    rhs: Seq<char>,
    line: SourceLine,
) -> Result<EncodingView, ErrorView> {
    if opcode == "HST"@ || opcode == "BST"@ {
        if interpretation is Some {
            Err(ErrorView::UnexpectedInterpretation(line, opcode))
        } else {
            match register_of(rhs) {
                None => Err(ErrorView::NotARegister { line: line, malformed_operand: rhs }),
                Some(r) => Ok(
                    EncodingView::Word(
                        if opcode == "HST"@ {
                            pack(11, 1, 5, r, 8, 0) as i64
                        } else {
                            pack(12, 1, 4, r, 8, 0) as i64
                        },
                    ),
                ),
            }
        }
    } else if opcode == "SBR"@ || opcode == "SPR"@ {
        let fc: i64 = if opcode == "SBR"@ {
            41
        } else {
            32
        };
        if interpretation is None || interpretation == Some('d') || interpretation == Some('i') {
            Ok(
                EncodingView::Pending(
                    PendingView {
                        expression: rhs,
                        role: RoleView::Operand(
                            Ok(
                                Selectors {
                                    opcode: fc,
                                    mode1: if interpretation == Some('i') {
                                        4
                                    } else {
                                        3
                                    },
                                    mode2: 9,
                                    accumulator: 9,
                                    index: 9,
                                },
                            ),
                        ),
                    },
                ),
            )
        } else {
            Err(ErrorView::UnsupportedInterpretation(line, opcode, jump_interpretations()))
        }
    } else {
        Err(ErrorView::NoCompilation)
    }
}

/// What stands behind the address expression of an instruction with a
/// register and an address: the failure of the indexation, of the
/// interpretation or of the register, in this order, or the selectors.
pub open spec fn operand_selectors(
    opcode: Seq<char>,
    fc: i64,
    interpretation: Option<char>,
    left: Seq<char>,
    indexation: Result<(i64, i64), ErrorView>,
    line: SourceLine,
) -> Result<Selectors, ErrorView> {
    match indexation {
        Err(e) => Err(e),
        Ok((mode2, index)) => match mode_digit(interpretation) {
            None => Err(
                ErrorView::UnsupportedInterpretation(line, opcode, operand_interpretations()),
            ),
            Some(digit) => match register_of(left) {
                None => Err(ErrorView::NotARegister { line: line, malformed_operand: left }),
                Some(r) => Ok(
                    Selectors {
                        opcode: fc,
                        mode1: if stores(opcode) {
                            (digit - 1) as i64
                        } else {
                            digit
                        },
                        mode2: mode2,
                        accumulator: r as i64,
                        index: index,
                    },
                ),
            },
        },
    }
}

/// The encoding of an instruction with two operands. Two registers stand for
/// the first register and the address `0` indexed by the second, with the
/// value interpretation.
pub open spec fn double_operand(
    opcode: Seq<char>,
    interpretation: Option<char>,
    left: Seq<char>,
    right: Seq<char>,
    line: SourceLine,
) -> Result<EncodingView, ErrorView> {
    if register_of(left) is Some && register_of(right) is Some {
        if !accepts_registers(opcode) {
            Err(ErrorView::RegRegUnsupported(line, opcode))
        } else if interpretation is Some {
            Err(ErrorView::RegRegInterpretation(line, opcode))
        } else {
            Ok(
                EncodingView::Pending(
                    PendingView {
                        expression: "0"@,
                        role: RoleView::Operand(
                            Ok(
                                Selectors {
                                    opcode: function_code(opcode).unwrap(),
                                    mode1: 1,
                                    mode2: 2,
                                    accumulator: register_of(left).unwrap() as i64,
                                    index: register_of(right).unwrap() as i64,
                                },
                            ),
                        ),
                    },
                ),
            )
        }
    } else {
        match function_code(opcode) {
            None => Err(ErrorView::NoCompilation),
            Some(fc) => {
                let (expression, indexation) = address_indexed(right, line);
                Ok(
                    EncodingView::Pending(
                        PendingView {
                            expression: expression,
                            role: RoleView::Operand(
                                operand_selectors(
                                    opcode,
                                    fc,
                                    interpretation,
                                    left,
                                    indexation,
                                    line,
                                ),
                            ),
                        },
                    ),
                )
            },
        }
    }
}

/// The encoding of an instruction whose mnemonic has been brought to upper
/// case: `upper` is that form, `token` the mnemonic as written, and `rhs`
/// what follows it on the line.
pub open spec fn token_encoding(
    upper: Seq<char>,
    token: Seq<char>,
    rhs: Option<Seq<char>>,
    line: SourceLine,
) -> Result<EncodingView, ErrorView> {
    match zero_operand_word(upper) {
        Some(w) => Ok(EncodingView::Word(w)),
        None => {
            let (opcode, suffix) = split_trimmed(upper, "."@);
            match interpretation_of(suffix) {
                Err(s) => Err(ErrorView::TooLongInterpretation(line, s)),
                Ok(interpretation) => if !takes_operand(opcode) {
                    Err(ErrorView::NoCompilation)
                } else {
                    match rhs {
                        None => Err(ErrorView::NoOperand { line: line, opcode: token }),
                        Some(rhs) => match single_operand(opcode, interpretation, rhs, line) {
                            Err(ErrorView::NoCompilation) => {
                                let (left, right) = split_trimmed(rhs, ", "@);
                                match right {
                                    None => Err(ErrorView::NoSecondOperand(line, opcode)),
                                    Some(right) => double_operand(
                                        opcode,
                                        interpretation,
                                        left,
                                        right,
                                        line,
                                    ),
                                }
                            },
                            r => r,
                        },
                    }
                },
            }
        },
    }
}

/// The encoding of an instruction: its mnemonic is what stands before the
/// first white space, and is matched in upper case.
pub open spec fn instruction_encoding(insn: Seq<char>, line: SourceLine) -> Result<
    EncodingView,
    ErrorView,
> {
    let (token, rhs) = split_at_space(insn);
    token_encoding(uppercase_of(token), token, rhs, line)
}

/// The encoding of a line: that of its instruction, or, where its text is no
/// instruction, the text as a literal expression.
pub open spec fn line_encoding(line: SourceLine) -> Result<EncodingView, ErrorView> {
    let text = trimmed(label_split(line.text).1);
    match instruction_encoding(text, line) {
        Err(ErrorView::NoCompilation) => Ok(
            EncodingView::Pending(PendingView { expression: text, role: RoleView::Literal }),
        ),
        r => r,
    }
}

/// The word of a pending encoding once its expression has been evaluated. A
/// failed evaluation is reported before anything else.
pub open spec fn resolved(
    p: PendingView,
    line: SourceLine,
    value: Result<i64, Seq<char>>,
) -> Result<i64, ErrorView> {
    match p.role {
        RoleView::Literal => match value {
            Ok(v) => Ok(v),
            Err(e) => Err(ErrorView::Incomprehensible(line, e)),
        },
        RoleView::Operand(selectors) => match value {
            Err(e) => Err(ErrorView::MathEval(line, e)),
            Ok(v) => match selectors {
                Err(e) => Err(e),
                Ok(s) => Ok(s.word(v)),
            },
        },
    }
}

/// Two registers as operands are sugar: `Ra, Rb` has the encoding of
/// `Ra, 0(Rb)` with the value interpretation, for every mnemonic that accepts
/// two registers.
pub proof fn lemma_register_pair_is_sugar(opcode: Seq<char>, a: char, b: char, line: SourceLine)
    requires
        accepts_registers(opcode),
        '0' <= a <= '9',
        '0' <= b <= '9',
    ensures
        double_operand(opcode, None, seq!['R', a], seq!['R', b], line) == double_operand(
            opcode,
            Some('w'),
            seq!['R', a],
            seq!['0', '(', 'R', b, ')'],
            line,
        ),
{
    reveal_strlit("0");
    reveal_strlit("(");
    let left = seq!['R', a];
    let right = seq!['0', '(', 'R', b, ')'];
    let before = seq!['0'];
    let inside = seq!['R', b, ')'];
    let register = seq!['R', b];
    assert(register_of(right) is None);
    assert(register_of(left) == Some(a as int - '0' as int));
    assert(register_of(register) == Some(b as int - '0' as int));
    assert(trimmed(right) == right) by {
        assert(trimmed_start(right) == right);
        assert(trimmed_end(right) == right);
    }
    assert(first_match(right, "("@) == Some(1int)) by {
        assert(right.subrange(0, 1) =~= seq!['0']);
        assert("("@ =~= seq!['(']);
        assert(!matches_at(right, "("@, 0)) by {
            assert(right.subrange(0, 1)[0] == '0');
        }
        assert(right.subrange(1, 2) =~= seq!['(']);
        assert(matches_at(right, "("@, 1));
        reveal_with_fuel(first_match_from, 3);
    }
    assert(right.subrange(0, 1) =~= before);
    assert(right.subrange(2, 5) =~= inside);
    assert(trimmed(before) == before) by {
        assert(trimmed_start(before) == before);
        assert(trimmed_end(before) == before);
    }
    assert(trimmed(inside) == inside) by {
        assert(trimmed_start(inside) == inside);
        assert(trimmed_end(inside) == inside);
    }
    assert(without_closing(inside) == register) by {
        assert(inside.drop_last() =~= register);
        assert(without_closing(register) == register);
        reveal_with_fuel(without_closing, 3);
    }
    assert("0"@ =~= before);
    assert(!stores(opcode)) by {
        reveal_strlit("HIA");
        reveal_strlit("OPT");
        reveal_strlit("AFT");
        reveal_strlit("VER");
        reveal_strlit("DEL");
        reveal_strlit("MOD");
        reveal_strlit("VGL");
        reveal_strlit("BIG");
        reveal_strlit("SPR");
        reveal_strlit("VSP");
        assert("BIG"@[0] == 'B' && "SPR"@[0] == 'S' && "VSP"@[1] == 'S');
        assert(opcode[0] != 'B' && opcode[0] != 'S' && opcode[1] != 'S');
    }
    assert(function_code(opcode) is Some);
    assert(split_trimmed(right, "("@) == (before, Some(inside)));
    let index = (b as int - '0' as int) as i64;
    assert(address_indexed(right, line) == (before, Ok::<(i64, i64), ErrorView>((2i64, index))));
}

/// The word of an instruction that takes no operand.
pub fn parse_no_operand(opcode: &str) -> (word: Option<i64>)
    ensures
        word == zero_operand_word(opcode@),
{
    if equals(opcode, "KTG") {
        Some(insn(FC_KTG, NA, NA, NA, NA, NA))
    } else if equals(opcode, "LEZ") {
        Some(insn(FC_LEZ, NA, NA, NA, NA, NA))
    } else if equals(opcode, "DRU") {
        Some(insn(FC_DRU, NA, NA, NA, NA, NA))
    } else if equals(opcode, "NWL") {
        Some(insn(FC_NWL, NA, NA, NA, NA, NA))
    } else if equals(opcode, "DRS") {
        Some(insn(FC_DRS, NA, NA, NA, NA, NA))
    } else if equals(opcode, "STP") {
        Some(insn(FC_STP, NA, NA, NA, NA, NA))
    } else if equals(opcode, "NOP") {
        Some(0)
    } else {
        None
    }
}

/// The number of the register that a text names.
pub fn operand_to_reg(op: &str) -> (register: Option<usize>)
    ensures
        match register {
            Some(r) => register_of(op@) == Some(r as int) && r <= 9,
            None => register_of(op@) is None,
        },
{
    if op.unicode_len() != 2 || op.get_char(0) != 'R' {
        return None;
    }
    let digit: char = op.get_char(1);
    if '0' <= digit && digit <= '9' {
        Some((digit as u32 - '0' as u32) as usize)
    } else {
        None
    }
}

/// The interpretation that a suffix stands for.
fn parse_interpretation<'a>(suffix: Option<&str>, line: &Line<'a>) -> (r: Result<
    Option<char>,
    CompilationError<'a>,
>)
    ensures
        match interpretation_of(optional_text(suffix)) {
            Ok(i) => r == Ok::<Option<char>, CompilationError<'a>>(i),
            Err(s) => r is Err && r->Err_0@ == ErrorView::TooLongInterpretation(line@, s),
        },
{
    match suffix {
        None => Ok(None),
        Some(s) => {
            if s.unicode_len() == 1 {
                let c: char = s.get_char(0);
                if (c as u32) < 128 {
                    return Ok(Some(to_ascii_lowercase(c)));
                }
            }
            Err(CompilationError::TooLongInterpretation(*line, String::from_str(s)))
        },
    }
}

/// Whether a mnemonic takes operands.
fn has_operands(opcode: &str) -> (b: bool)
    ensures
        b == takes_operand(opcode@),
{
    equals(opcode, "HIA") || equals(opcode, "BIG") || equals(opcode, "OPT") || equals(opcode, "AFT")
        || equals(opcode, "VER") || equals(opcode, "DEL") || equals(opcode, "MOD") || equals(
        opcode,
        "VGL",
    ) || equals(opcode, "VSP") || equals(opcode, "SBR") || equals(opcode, "SPR") || equals(
        opcode,
        "BST",
    ) || equals(opcode, "HST")
}

/// The function code of a mnemonic that takes a register and an address.
fn operand_function(opcode: &str) -> (fc: Option<i64>)
    ensures
        fc == function_code(opcode@),
{
    if equals(opcode, "HIA") {
        Some(FC_HIA)
    } else if equals(opcode, "BIG") {
        Some(FC_BIG)
    } else if equals(opcode, "OPT") {
        Some(FC_OPT)
    } else if equals(opcode, "AFT") {
        Some(FC_AFT)
    } else if equals(opcode, "VER") {
        Some(FC_VER)
    } else if equals(opcode, "DEL") {
        Some(FC_DEL)
    } else if equals(opcode, "MOD") {
        Some(FC_MOD)
    } else if equals(opcode, "VGL") {
        Some(FC_VGL)
    } else if equals(opcode, "VSP") {
        Some(FC_VSP)
    } else {
        None
    }
}

/// Whether a mnemonic accepts two registers as operands.
fn takes_registers(opcode: &str) -> (b: bool)
    ensures
        b == accepts_registers(opcode@),
{
    equals(opcode, "HIA") || equals(opcode, "OPT") || equals(opcode, "AFT") || equals(opcode, "VER")
        || equals(opcode, "DEL") || equals(opcode, "MOD") || equals(opcode, "VGL")
}

/// The first mode digit of an interpretation.
fn interpretation_digit(interpretation: &Option<char>) -> (digit: Option<i64>)
    ensures
        digit == mode_digit(*interpretation),
{
    match interpretation {
        None => Some(MOD1_ADDRESS),
        Some(c) => {
            if *c == 'w' {
                Some(MOD1_VALUE)
            } else if *c == 'a' {
                Some(MOD1_VALUE_MOD)
            } else if *c == 'd' {
                Some(MOD1_ADDRESS)
            } else if *c == 'i' {
                Some(MOD1_INDIRECT_ADDRESS)
            } else {
                None
            }
        },
    }
}

/// The second mode digit and the index register of the text between the
/// brackets of an address.
fn parse_indexation<'a>(inner: &'a str, line: Line<'a>) -> (r: Result<
    (i64, i64),
    CompilationError<'a>,
>)
    ensures
        match indexation_of(inner@, line@) {
            Ok(p) => r == Ok::<(i64, i64), CompilationError<'a>>(p),
            Err(e) => r is Err && r->Err_0@ == e,
        },
        r matches Ok(p) ==> 2 <= p.0 <= 6 && 0 <= p.1 <= 9,
{
    let n: usize = inner.unicode_len();
    let (mode2, register): (i64, &'a str) = if n > 0 && inner.get_char(0) == '+' {
        (MOD2_INDEXATION_PRE_INC, inner.substring_char(1, n))
    } else if n > 0 && inner.get_char(0) == '-' {
        (MOD2_INDEXATION_PRE_DEC, inner.substring_char(1, n))
    } else if n > 0 && inner.get_char(n - 1) == '+' {
        (MOD2_INDEXATION_POST_INC, inner.substring_char(0, n - 1))
    } else if n > 0 && inner.get_char(n - 1) == '-' {
        (MOD2_INDEXATION_POST_DEC, inner.substring_char(0, n - 1))
    } else {
        (MOD2_INDEXATION, inner)
    };
    match operand_to_reg(register) {
        Some(r) => Ok((mode2, r as i64)),
        None => Err(CompilationError::NotARegister { line: line, malformed_operand: register }),
    }
}

/// Parses an address operand of the form `EXPR` or `EXPR(..)`, where the
/// brackets hold an index register with an optional `+` or `-` before or
/// after it. Returns the expression, and the second mode digit with the index
/// register or the failure found between the brackets.
pub fn parse_address_indexed<'a>(operand: &'a str, line: Line<'a>) -> (r: (
    &'a str,
    Result<(i64, i64), CompilationError<'a>>,
))
    ensures
        r.0@ == address_indexed(operand@, line@).0,
        match address_indexed(operand@, line@).1 {
            Ok(p) => r.1 == Ok::<(i64, i64), CompilationError<'a>>(p),
            Err(e) => r.1 is Err && r.1->Err_0@ == e,
        },
        r.1 matches Ok(p) ==> 1 <= p.0 <= 6 && 0 <= p.1 <= 9,
{
    let (expression, indexation) = trimmed_split(operand, "(");
    match indexation {
        None => (expression, Ok((MOD2_NO_INDEXATION, NA))),
        Some(ix) => (expression, parse_indexation(trim_closing(ix), line)),
    }
}

/// Encodes a push (`BST`), a pop (`HST`), a call (`SBR`) or a jump (`SPR`).
/// A push or a pop takes a register and no interpretation, and is complete. A
/// call or a jump takes an address expression, interpreted directly or
/// indirectly, and is pending. Any other mnemonic gives `NoCompilation`.
pub fn parse_single_operand<'a>(
    opcode: &str,
    interpretation: &Option<char>,
    rhs: &'a str,
    line: Line<'a>,
) -> (r: Result<Encoding<'a>, CompilationError<'a>>)
    ensures
        encoding_view(r) == single_operand(opcode@, *interpretation, rhs@, line@),
        r matches Ok(e) ==> e@.well_formed(),
{
    let pop: bool = equals(opcode, "HST");
    if pop || equals(opcode, "BST") {
        if interpretation.is_some() {
            return Err(CompilationError::UnexpectedInterpretation(line, String::from_str(opcode)));
        }
        match operand_to_reg(rhs) {
            None => Err(CompilationError::NotARegister { line: line, malformed_operand: rhs }),
            Some(r) => {
                if pop {
                    Ok(
                        Encoding::Word(
                            insn(FC_HIA, MOD1_VALUE, MOD2_INDEXATION_POST_INC, r as i64, 8, 0),
                        ),
                    )
                } else {
                    Ok(
                        Encoding::Word(
                            insn(FC_BIG, MOD1_VALUE, MOD2_INDEXATION_PRE_DEC, r as i64, 8, 0),
                        ),
                    )
                }
            },
        }
    } else {
        let call: bool = equals(opcode, "SBR");
        if call || equals(opcode, "SPR") {
            let fc: i64 = if call {
                FC_SBR
            } else {
                FC_SPR
            };
            let mode1: i64 = match interpretation {
                None => MOD1_ADDRESS,
                Some(c) => {
                    if *c == 'd' {
                        MOD1_ADDRESS
                    } else if *c == 'i' {
                        MOD1_INDIRECT_ADDRESS
                    } else {
                        let mut accepted: Vec<char> = Vec::new();
                        accepted.push('d');
                        accepted.push('i');
                        assert(accepted@ =~= jump_interpretations());
                        return Err(
                            CompilationError::UnsupportedInterpretation(
                                line,
                                String::from_str(opcode),
                                accepted,
                            ),
                        );
                    }
                },
            };
            Ok(
                Encoding::Pending(
                    Pending {
                        expression: rhs,
                        role: Role::Operand(
                            Ok(
                                Selectors {
                                    opcode: fc,
                                    mode1: mode1,
                                    mode2: NA,
                                    accumulator: NA,
                                    index: NA,
                                },
                            ),
                        ),
                    },
                ),
            )
        } else {
            Err(CompilationError::NoCompilation)
        }
    }
}

/// What stands behind the address expression of an instruction with a
/// register and an address.
fn parse_selectors<'a>(
    opcode: &str,
    fc: i64,
    interpretation: &Option<char>,
    left_op: &'a str,
    indexation: Result<(i64, i64), CompilationError<'a>>,
    line: Line<'a>,
) -> (r: Result<Selectors, CompilationError<'a>>)
    requires
        0 <= fc <= 99,
        indexation matches Ok(p) ==> 1 <= p.0 <= 6 && 0 <= p.1 <= 9,
    ensures
        match r {
            Ok(s) => s.valid() && operand_selectors(
                opcode@,
                fc,
                *interpretation,
                left_op@,
                match indexation {
                    Ok(p) => Ok(p),
                    Err(e) => Err(e@),
                },
                line@,
            ) == Ok::<Selectors, ErrorView>(s),
            Err(e) => operand_selectors(
                opcode@,
                fc,
                *interpretation,
                left_op@,
                match indexation {
                    Ok(p) => Ok(p),
                    Err(e) => Err(e@),
                },
                line@,
            ) == Err::<Selectors, ErrorView>(e@),
        },
{
    let (mode2, index): (i64, i64) = match indexation {
        Ok(p) => p,
        Err(e) => {
            return Err(e);
        },
    };
    let digit: i64 = match interpretation_digit(interpretation) {
        Some(d) => d,
        None => {
            let mut accepted: Vec<char> = Vec::new();
            accepted.push('d');
            accepted.push('i');
            accepted.push('w');
            accepted.push('a');
            assert(accepted@ =~= operand_interpretations());
            return Err(
                CompilationError::UnsupportedInterpretation(
                    line,
                    String::from_str(opcode),
                    accepted,
                ),
            );
        },
    };
    let register: usize = match operand_to_reg(left_op) {
        Some(r) => r,
        None => {
            return Err(CompilationError::NotARegister { line: line, malformed_operand: left_op });
        },
    };
    let store: bool = equals(opcode, "BIG") || equals(opcode, "SPR") || equals(opcode, "VSP");
    let mode1: i64 = if store {
        digit - 1
    } else {
        digit
    };
    Ok(
        Selectors {
            opcode: fc,
            mode1: mode1,
            mode2: mode2,
            accumulator: register as i64,
            index: index,
        },
    )
}

/// Encodes an instruction with a register and an address. Where both
/// operands are registers, `Ra, Rb` stands for `Ra, 0(Rb)` with the value
/// interpretation; that form takes no interpretation of its own and only some
/// mnemonics accept it. The encoding is pending on the address expression.
/// A mnemonic that takes no register and address gives `NoCompilation`.
pub fn parse_double_operand<'a>(
    opcode: &str,
    interpretation: &Option<char>,
    left_op: &'a str,
    right_op: &'a str,
    line: Line<'a>,
) -> (r: Result<Encoding<'a>, CompilationError<'a>>)
    ensures
        encoding_view(r) == double_operand(opcode@, *interpretation, left_op@, right_op@, line@),
        r matches Ok(e) ==> e@.well_formed(),
{
    let left: Option<usize> = operand_to_reg(left_op);
    let right: Option<usize> = operand_to_reg(right_op);
    if let (Some(l), Some(r)) = (left, right) {
        if !takes_registers(opcode) {
            return Err(CompilationError::RegRegUnsupported(line, String::from_str(opcode)));
        }
        if interpretation.is_some() {
            return Err(CompilationError::RegRegInterpretation(line, String::from_str(opcode)));
        }
        let fc: i64 = match operand_function(opcode) {
            Some(fc) => fc,
            None => {
                return Err(CompilationError::NoCompilation);
            },
        };
        return Ok(
            Encoding::Pending(
                Pending {
                    expression: "0",
                    role: Role::Operand(
                        Ok(
                            Selectors {
                                opcode: fc,
                                mode1: MOD1_VALUE,
                                mode2: MOD2_INDEXATION,
                                accumulator: l as i64,
                                index: r as i64,
                            },
                        ),
                    ),
                },
            ),
        );
    }
    let fc: i64 = match operand_function(opcode) {
        Some(fc) => fc,
        None => {
            return Err(CompilationError::NoCompilation);
        },
    };
    let (expression, indexation) = parse_address_indexed(right_op, line);
    let selectors = parse_selectors(opcode, fc, interpretation, left_op, indexation, line);
    Ok(Encoding::Pending(Pending { expression: expression, role: Role::Operand(selectors) }))
}

/// Encodes an instruction whose mnemonic has been brought to upper case:
/// `upper` is that form, `token` the mnemonic as written, and `rhs`
/// what follows it on the line.
pub fn encode_token<'a>(
    upper: &str,
    token: &'a str,
    rhs: Option<&'a str>,
    line: &Line<'a>,
) -> (r: Result<Encoding<'a>, CompilationError<'a>>)
    ensures
        encoding_view(r) == token_encoding(upper@, token@, optional_text(rhs), line@),
        r matches Ok(e) ==> e@.well_formed(),
{
    if let Some(word) = parse_no_operand(upper) {
        return Ok(Encoding::Word(word));
    }
    let (opcode, suffix) = trimmed_split(upper, ".");
    let interpretation: Option<char> = match parse_interpretation(suffix, line) {
        Ok(i) => i,
        Err(e) => {
            return Err(e);
        },
    };
    if !has_operands(opcode) {
        return Err(CompilationError::NoCompilation);
    }
    let rhs: &'a str = match rhs {
        Some(s) => s,
        None => {
            return Err(CompilationError::NoOperand { line: *line, opcode: token });
        },
    };
    match parse_single_operand(opcode, &interpretation, rhs, *line) {
        Err(CompilationError::NoCompilation) => {},
        r => {
            return r;
        },
    }
    let (left_operand, right_operand) = trimmed_split(rhs, ", ");
    let right_operand: &'a str = match right_operand {
        Some(o) => o,
        None => {
            return Err(CompilationError::NoSecondOperand(*line, String::from_str(opcode)));
        },
    };
    parse_double_operand(opcode, &interpretation, left_operand, right_operand, *line)
}

/// Encodes one instruction. The mnemonic is matched without regard to case.
/// A text that is no instruction gives `NoCompilation`.
pub fn insn_to_numerical<'a>(insn: &'a str, line: &Line<'a>) -> (r: Result<
    Encoding<'a>,
    CompilationError<'a>,
>)
    ensures
        encoding_view(r) == instruction_encoding(insn@, line@),
        r matches Ok(e) ==> e@.well_formed(),
{
    let (token, rhs) = trimmed_split_whitespace(insn);
    let upper: String = to_uppercase(token);
    encode_token(upper.as_str(), token, rhs, line)
}

/// Encodes one line: its label, if it still has one, is dropped, and a text
/// that is no instruction is taken as a literal expression.
pub fn encode_line<'a>(line: &Line<'a>) -> (r: Result<Encoding<'a>, CompilationError<'a>>)
    ensures
        encoding_view(r) == line_encoding(line@),
        r matches Ok(e) ==> e@.well_formed(),
{
    let (_, rest) = omit_label(line.line);
    let text: &'a str = trim(rest);
    match insn_to_numerical(text, line) {
        Err(CompilationError::NoCompilation) => Ok(
            Encoding::Pending(Pending { expression: text, role: Role::Literal }),
        ),
        r => r,
    }
}

impl<'a> Pending<'a> {
    /// The word, once the expression has been evaluated. A failed evaluation
    /// is reported first: as `Incomprehensible` for a literal, as `MathEval`
    /// for an operand. Then comes the failure that was found behind the
    /// expression, if any.
    pub fn resolve(self, line: &Line<'a>, value: Result<i64, EvalFailure>) -> (r: Result<
        i64,
        CompilationError<'a>,
    >)
        requires
            self@.well_formed(),
        ensures
            word_view(r) == resolved(self@, line@, answer_view(value)),
    {
        match self.role {
            Role::Literal => match value {
                Ok(v) => Ok(v),
                Err(e) => Err(CompilationError::Incomprehensible(*line, e)),
            },
            Role::Operand(selectors) => match value {
                Err(e) => Err(CompilationError::MathEval(*line, e)),
                Ok(v) => match selectors {
                    Err(e) => Err(e),
                    Ok(s) => Ok(insn(s.opcode, s.mode1, s.mode2, s.accumulator, s.index, v)),
                },
            },
        }
    }
}

} // verus!
