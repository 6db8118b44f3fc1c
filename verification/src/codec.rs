//! The machine word: ten decimal digits that hold an opcode, two mode digits,
//! two register selectors and a four-digit operand.
//!
//! ```text
//!   digits   0 1 | 2 | 3 | 4 | 5 | 6 7 8 9
//!   field    op  | m1| m2|acc|idx| operand
//! ```
//!
//! The operand is kept in excess-5000 form: the digits `5000..=9999` stand for
//! the negative numbers `-5000..=-1`. Ten decimal digits do not fit in 32
//! bits, so a word is an `i64` on every target.

use vstd::arithmetic::div_mod::{
    lemma_div_denominator, lemma_fundamental_div_mod, lemma_fundamental_div_mod_converse,
};
use vstd::prelude::*;

verus! {

// Function codes.
pub const FC_HIA: i64 = 11;

pub const FC_BIG: i64 = 12;

pub const FC_OPT: i64 = 21;

pub const FC_AFT: i64 = 22;

pub const FC_VER: i64 = 23;

pub const FC_DEL: i64 = 24;

pub const FC_MOD: i64 = 25;

pub const FC_VGL: i64 = 31;

pub const FC_SPR: i64 = 32;

pub const FC_VSP: i64 = 33;

pub const FC_SBR: i64 = 41;

pub const FC_KTG: i64 = 42;

pub const FC_LEZ: i64 = 71;

pub const FC_DRU: i64 = 72;

pub const FC_NWL: i64 = 73;

pub const FC_DRS: i64 = 74;

pub const FC_STP: i64 = 99;

// First mode digit: how the operand is interpreted.
pub const MOD1_VALUE: i64 = 1;

pub const MOD1_VALUE_MOD: i64 = 2;

pub const MOD1_ADDRESS: i64 = 3;

pub const MOD1_INDIRECT_ADDRESS: i64 = 4;

// Second mode digit: how the index register takes part.
pub const MOD2_NO_INDEXATION: i64 = 1;

pub const MOD2_INDEXATION: i64 = 2;

pub const MOD2_INDEXATION_PRE_INC: i64 = 3;

pub const MOD2_INDEXATION_PRE_DEC: i64 = 4;

pub const MOD2_INDEXATION_POST_INC: i64 = 5;

pub const MOD2_INDEXATION_POST_DEC: i64 = 6;

/// The digit of a field that does not apply.
pub const NA: i64 = 9;

/// The address that a signed number denotes: its residue modulo 10 000, so
/// that negative numbers wrap into the upper part of the range.
pub open spec fn address_of(number: int) -> int {
    number % 10_000
}

/// The signed number that an address denotes in excess-5000 form.
pub open spec fn expand_address(a: int) -> int {
    if a >= 5_000 {
        a - 10_000
    } else {
        a
    }
}

/// The six fields of a machine word. `operand` holds the four stored digits,
/// not yet expanded to a signed number.
#[derive(Clone, Copy, Debug, PartialEq, Eq, Structural)]
pub struct Fields {
    pub opcode: i64,
    pub mode1: i64,
    pub mode2: i64,
    pub accumulator: i64,
    pub index: i64,
    pub operand: i64,
}

impl Fields {
    /// Every field lies within its digits.
    pub open spec fn valid(self) -> bool {
        &&& 0 <= self.opcode <= 99
        &&& 0 <= self.mode1 <= 9
        &&& 0 <= self.mode2 <= 9
        &&& 0 <= self.accumulator <= 9
        &&& 0 <= self.index <= 9
        &&& 0 <= self.operand <= 9_999
    }
}

/// The selectors of a word are digits and its opcode has two of them.
pub open spec fn valid_selectors(op: int, m1: int, m2: int, acc: int, ind: int) -> bool {
    &&& 0 <= op <= 99
    &&& 0 <= m1 <= 9
    &&& 0 <= m2 <= 9
    &&& 0 <= acc <= 9
    &&& 0 <= ind <= 9
}

/// The word made of the given fields. The operand is reduced to its address
/// first, which moves a negative operand into `5000..=9999`.
pub open spec fn pack(op: int, m1: int, m2: int, acc: int, ind: int, operand: int) -> int {
    op * 100_000_000 + m1 * 10_000_000 + m2 * 1_000_000 + acc * 100_000 + ind * 10_000
        + address_of(operand)
}

/// The ten digits that a stored word stands for: a negative word is taken
/// modulo 10^10.
pub open spec fn digits_of(word: int) -> int {
    word % 10_000_000_000
}

/// The fields of a word, read off its digits.
pub open spec fn fields_of(word: int) -> Fields {
    let c = digits_of(word);
    Fields {
        opcode: (c / 100_000_000) as i64,
        mode1: (c / 10_000_000 % 10) as i64,
        mode2: (c / 1_000_000 % 10) as i64,
        accumulator: (c / 100_000 % 10) as i64,
        index: (c / 10_000 % 10) as i64,
        operand: (c % 10_000) as i64,
    }
}

/// Reduces a signed number to a memory address.
pub fn address(number: i64) -> (a: usize)
    ensures
        a == address_of(number as int),
        a < 10_000,
{
    let r: i64 = number % 10_000;
    if r < 0 {
        (r + 10_000) as usize
    } else {
        r as usize
    }
}

/// Expands an address to the signed number it denotes in excess-5000 form.
pub fn expand(a: usize) -> (n: i64)
    requires
        a <= i64::MAX,
    ensures
        n == expand_address(a as int),
{
    if a >= 5_000 {
        (a - 5_000) as i64 - 5_000
    } else {
        a as i64
    }
}

/// Packs six fields into one machine word.
pub fn insn(op: i64, m1: i64, m2: i64, acc: i64, ind: i64, operand: i64) -> (word: i64)
    requires
        valid_selectors(op as int, m1 as int, m2 as int, acc as int, ind as int),
    ensures
        word == pack(op as int, m1 as int, m2 as int, acc as int, ind as int, operand as int),
        0 <= word < 10_000_000_000,
{
    let mut o: i64 = operand % 10_000;
    if o < 0 {
        o += 10_000;
    }
    op * 100_000_000 + m1 * 10_000_000 + m2 * 1_000_000 + acc * 100_000 + ind * 10_000 + o
}

/// The ten digits of a stored word, as a number in `0..10^10`.
fn digits(word: i64) -> (c: i64)
    ensures
        c == digits_of(word as int),
        0 <= c < 10_000_000_000,
{
    let r: i64 = word % 10_000_000_000;
    if r < 0 {
        r + 10_000_000_000
    } else {
        r
    }
}

/// Splits a machine word into its six fields.
pub fn unpack(word: i64) -> (fields: Fields)
    ensures
        fields == fields_of(word as int),
        fields.valid(),
{
    let c: i64 = digits(word);
    Fields {
        opcode: c / 100_000_000,
        mode1: c / 10_000_000 % 10,
        mode2: c / 1_000_000 % 10,
        accumulator: c / 100_000 % 10,
        index: c / 10_000 % 10,
        operand: c % 10_000,
    }
}

/// Unpacking a packed word gives back the selectors, and the operand reduced
/// to its address.
pub proof fn lemma_unpack_pack(op: int, m1: int, m2: int, acc: int, ind: int, operand: int)
    requires
        valid_selectors(op, m1, m2, acc, ind),
    ensures
        fields_of(pack(op, m1, m2, acc, ind, operand)) == (Fields {
            opcode: op as i64,
            mode1: m1 as i64,
            mode2: m2 as i64,
            accumulator: acc as i64,
            index: ind as i64,
            operand: address_of(operand) as i64,
        }),
{
    let o = address_of(operand);
    let w = pack(op, m1, m2, acc, ind, operand);
    let low4 = ind * 10_000 + o;
    let low5 = acc * 100_000 + low4;
    let low6 = m2 * 1_000_000 + low5;
    let low7 = m1 * 10_000_000 + low6;
    lemma_fundamental_div_mod_converse(w, 10_000_000_000, 0, w);
    lemma_fundamental_div_mod_converse(w, 100_000_000, op, low7);
    lemma_fundamental_div_mod_converse(w, 10_000_000, op * 10 + m1, low6);
    lemma_fundamental_div_mod_converse(op * 10 + m1, 10, op, m1);
    lemma_fundamental_div_mod_converse(w, 1_000_000, op * 100 + m1 * 10 + m2, low5);
    lemma_fundamental_div_mod_converse(op * 100 + m1 * 10 + m2, 10, op * 10 + m1, m2);
    lemma_fundamental_div_mod_converse(w, 100_000, op * 1_000 + m1 * 100 + m2 * 10 + acc, low4);
    lemma_fundamental_div_mod_converse(
        op * 1_000 + m1 * 100 + m2 * 10 + acc,
        10,
        op * 100 + m1 * 10 + m2,
        acc,
    );
    lemma_fundamental_div_mod_converse(
        w,
        10_000,
        op * 10_000 + m1 * 1_000 + m2 * 100 + acc * 10 + ind,
        o,
    );
    lemma_fundamental_div_mod_converse(
        op * 10_000 + m1 * 1_000 + m2 * 100 + acc * 10 + ind,
        10,
        op * 1_000 + m1 * 100 + m2 * 10 + acc,
        ind,
    );
}

/// Unpacking the word packed from valid fields gives back those fields.
pub proof fn lemma_fields_round_trip(f: Fields)
    requires
        f.valid(),
    ensures
        fields_of(
            pack(
                f.opcode as int,
                f.mode1 as int,
                f.mode2 as int,
                f.accumulator as int,
                f.index as int,
                f.operand as int,
            ),
        ) == f,
{
    lemma_unpack_pack(
        f.opcode as int,
        f.mode1 as int,
        f.mode2 as int,
        f.accumulator as int,
        f.index as int,
        f.operand as int,
    );
}

/// Packing the fields of a ten-digit word gives back that word.
pub proof fn lemma_word_round_trip(word: int)
    requires
        0 <= word < 10_000_000_000,
    ensures
        ({
            let f = fields_of(word);
            pack(
                f.opcode as int,
                f.mode1 as int,
                f.mode2 as int,
                f.accumulator as int,
                f.index as int,
                f.operand as int,
            )
        }) == word,
{
    let c = word;
    lemma_fundamental_div_mod_converse(word, 10_000_000_000, 0, word);
    let q4 = c / 10_000;
    let q5 = c / 100_000;
    let q6 = c / 1_000_000;
    let q7 = c / 10_000_000;
    let q8 = c / 100_000_000;
    lemma_div_denominator(c, 10_000, 10);
    lemma_div_denominator(c, 100_000, 10);
    lemma_div_denominator(c, 1_000_000, 10);
    lemma_div_denominator(c, 10_000_000, 10);
    lemma_fundamental_div_mod(c, 10_000);
    lemma_fundamental_div_mod(q4, 10);
    lemma_fundamental_div_mod(q5, 10);
    lemma_fundamental_div_mod(q6, 10);
    lemma_fundamental_div_mod(q7, 10);
    assert(q4 == 10 * q5 + q4 % 10);
    assert(q5 == 10 * q6 + q5 % 10);
    assert(q6 == 10 * q7 + q6 % 10);
    assert(q7 == 10 * q8 + q7 % 10);
    assert(c == 10_000 * q4 + c % 10_000);
    assert(0 <= q8 <= 99);
    assert(address_of(c % 10_000) == c % 10_000) by {
        lemma_fundamental_div_mod_converse(c % 10_000, 10_000, 0, c % 10_000);
    }
}

/// A negative word has the fields of the word 10^10 above it.
pub proof fn lemma_negative_word(word: int)
    requires
        -10_000_000_000 <= word < 0,
    ensures
        fields_of(word) == fields_of(word + 10_000_000_000),
{
}

/// Every number has an address in `0..10_000`, and numbers 10 000 apart share
/// it.
pub proof fn lemma_address_normalization(n: int)
    ensures
        0 <= address_of(n) <= 9_999,
        address_of(n) == address_of(n + 10_000),
{
}

/// Expansion undoes reduction on the signed operand range, and reduction
/// undoes expansion on every address.
pub proof fn lemma_address_round_trip(n: int, a: int)
    ensures
        -5_000 <= n < 5_000 ==> expand_address(address_of(n)) == n,
        0 <= a <= 9_999 ==> address_of(expand_address(a)) == a,
        0 <= a <= 9_999 ==> -5_000 <= expand_address(a) < 5_000,
{
}

/// The operand of a packed word expands to the operand that was packed, as
/// long as that operand has four signed digits.
pub proof fn lemma_operand_round_trip(
    op: int,
    m1: int,
    m2: int,
    acc: int,
    ind: int,
    operand: int,
)
    requires
        valid_selectors(op, m1, m2, acc, ind),
        -5_000 <= operand < 5_000,
    ensures
        expand_address(fields_of(pack(op, m1, m2, acc, ind, operand)).operand as int) == operand,
{
    lemma_unpack_pack(op, m1, m2, acc, ind, operand);
}

} // verus!
