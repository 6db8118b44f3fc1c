//! The execution engine: a register file, a condition code and the cycle
//! that fetches, decodes and executes one machine word.

use crate::codec::{address, address_of, expand, expand_address, fields_of, unpack, Fields};
use crate::ram::{cell_of, RandomAccessMemory};
use vstd::array::*;
use vstd::prelude::*;

verus! {

/// The sign of the number that last set the condition code.
#[derive(Clone, Copy, Debug, PartialEq, Eq, Structural)]
pub enum ConditionCode {
    Pos,
    Eql,
    Neg,
}

impl ConditionCode {
    /// The condition code that a number sets.
    pub open spec fn of(number: int) -> ConditionCode {
        if number < 0 {
            ConditionCode::Neg
        } else if number == 0 {
            ConditionCode::Eql
        } else {
            ConditionCode::Pos
        }
    }

    /// The condition code that a number sets.
    pub fn from_number(number: i64) -> (cc: Self)
        ensures
            cc == Self::of(number as int),
    {
        if number < 0 {
            ConditionCode::Neg
        } else if number == 0 {
            ConditionCode::Eql
        } else {
            ConditionCode::Pos
        }
    }
}

/// The instructions of the machine.
#[derive(Clone, Copy, Debug, PartialEq, Eq, Structural)]
pub enum Insn {
    /// Load the operand into an accumulator.
    HIA,
    /// Store an accumulator at the operand's address.
    BIG,
    /// Add.
    OPT,
    /// Subtract.
    AFT,
    /// Multiply.
    VER,
    /// Divide.
    DEL,
    /// Remainder.
    MOD,
    /// Compare: set the condition code from the operand.
    VGL,
    /// Jump.
    SPR,
    /// Jump on a condition.
    VSP,
    /// Call a subroutine.
    SBR,
    /// Return from a subroutine.
    KTG,
    /// Read: does nothing.
    LEZ,
    /// Print accumulator 0.
    DRU,
    /// Print a line break.
    NWL,
    /// Structured print: does nothing.
    DRS,
    /// Halt.
    STP,
}

impl Insn {
    /// The instruction with the given function code, if there is one.
    pub open spec fn of_code(code: int) -> Option<Insn> {
        if code == 11 {
            Some(Insn::HIA)
        } else if code == 12 {
            Some(Insn::BIG)
        } else if code == 21 {
            Some(Insn::OPT)
        } else if code == 22 {
            Some(Insn::AFT)
        } else if code == 23 {
            Some(Insn::VER)
        } else if code == 24 {
            Some(Insn::DEL)
        } else if code == 25 {
            Some(Insn::MOD)
        } else if code == 31 {
            Some(Insn::VGL)
        } else if code == 32 {
            Some(Insn::SPR)
        } else if code == 33 {
            Some(Insn::VSP)
        } else if code == 41 {
            Some(Insn::SBR)
        } else if code == 42 {
            Some(Insn::KTG)
        } else if code == 71 {
            Some(Insn::LEZ)
        } else if code == 72 {
            Some(Insn::DRU)
        } else if code == 73 {
            Some(Insn::NWL)
        } else if code == 74 {
            Some(Insn::DRS)
        } else if code == 99 {
            Some(Insn::STP)
        } else {
            None
        }
    }

    /// The function code of the instruction.
    pub open spec fn code_of(self) -> int {
        match self {
            Insn::HIA => 11,
            Insn::BIG => 12,
            Insn::OPT => 21,
            Insn::AFT => 22,
            Insn::VER => 23,
            Insn::DEL => 24,
            Insn::MOD => 25,
            Insn::VGL => 31,
            Insn::SPR => 32,
            Insn::VSP => 33,
            Insn::SBR => 41,
            Insn::KTG => 42,
            Insn::LEZ => 71,
            Insn::DRU => 72,
            Insn::NWL => 73,
            Insn::DRS => 74,
            Insn::STP => 99,
        }
    }

    /// Whether the instruction reads the mode digits and the operand of its
    /// word. The others take them as not applicable.
    pub open spec fn takes_operand(self) -> bool {
        match self {
            Insn::KTG | Insn::LEZ | Insn::DRU | Insn::NWL | Insn::DRS | Insn::STP => false,
            _ => true,
        }
    }

    /// Decodes a function code.
    pub fn from_code(code: i64) -> (insn: Option<Insn>)
        ensures
            insn == Self::of_code(code as int),
    {
        match code {
            11 => Some(Insn::HIA),
            12 => Some(Insn::BIG),
            21 => Some(Insn::OPT),
            22 => Some(Insn::AFT),
            23 => Some(Insn::VER),
            24 => Some(Insn::DEL),
            25 => Some(Insn::MOD),
            31 => Some(Insn::VGL),
            32 => Some(Insn::SPR),
            33 => Some(Insn::VSP),
            41 => Some(Insn::SBR),
            42 => Some(Insn::KTG),
            71 => Some(Insn::LEZ),
            72 => Some(Insn::DRU),
            73 => Some(Insn::NWL),
            74 => Some(Insn::DRS),
            99 => Some(Insn::STP),
            _ => None,
        }
    }

    /// The function code of the instruction.
    pub fn code(self) -> (code: i64)
        ensures
            code == self.code_of(),
            Self::of_code(code as int) == Some(self),
    {
        match self {
            Insn::HIA => 11,
            Insn::BIG => 12,
            Insn::OPT => 21,
            Insn::AFT => 22,
            Insn::VER => 23,
            Insn::DEL => 24,
            Insn::MOD => 25,
            Insn::VGL => 31,
            Insn::SPR => 32,
            Insn::VSP => 33,
            Insn::SBR => 41,
            Insn::KTG => 42,
            Insn::LEZ => 71,
            Insn::DRU => 72,
            Insn::NWL => 73,
            Insn::DRS => 74,
            Insn::STP => 99,
        }
    }

    /// Whether the instruction reads the mode digits and the operand.
    pub fn has_operand(self) -> (b: bool)
        ensures
            b == self.takes_operand(),
    {
        match self {
            Insn::KTG | Insn::LEZ | Insn::DRU | Insn::NWL | Insn::DRS | Insn::STP => false,
            _ => true,
        }
    }
}

/// Why the engine could not execute a word.
#[derive(Clone, Copy, Debug, PartialEq, Eq, Structural)]
pub enum Fault {
    /// The opcode digits name no instruction.
    UnknownOpcode,
    /// The second mode digit is not one of 1 to 6.
    UnknownIndexation,
    /// The first mode digit is not one of 1 to 4.
    UnknownInterpretation,
    /// The accumulator digit of a conditional jump names no condition.
    UnknownCondition,
    /// A division by zero, or one whose quotient does not fit a word.
    Arithmetic,
}

/// What one instruction prints.
#[derive(Clone, Copy, Debug, PartialEq, Eq, Structural)]
pub enum Output {
    /// A number on a line of its own.
    Number(i64),
    /// An empty line.
    Newline,
}

/// The registers of the engine.
pub struct CPU {
    pub instruction_pointer: usize,
    pub instruction_register: i64,
    pub condition_code: ConditionCode,
    pub accumulators: [i64; 10],
    pub stopped: bool,
}

/// The registers as mathematical values.
pub struct CpuState {
    pub instruction_pointer: int,
    pub instruction_register: i64,
    pub condition_code: ConditionCode,
    pub accumulators: Seq<i64>,
    pub stopped: bool,
}

/// The registers together with the memory they work on.
pub struct Machine {
    pub cpu: CpuState,
    pub memory: Seq<i64>,
}

/// The machine after one cycle, and what the cycle printed or why it failed.
pub struct Cycle {
    pub machine: Machine,
    pub result: Result<Option<Output>, Fault>,
}

/// How a run came to its end.
#[derive(Clone, Copy, Debug, PartialEq, Eq, Structural)]
pub enum Outcome {
    /// The halt instruction was executed, or the engine was stopped before.
    Halted,
    /// A word could not be executed.
    Faulted(Fault),
    /// The cycle budget ran out while the engine was still running.
    Exhausted,
}

/// The machine after a run, everything it printed, and how the run ended.
pub struct Run {
    pub machine: Machine,
    pub output: Seq<Output>,
    pub outcome: Outcome,
}

/// What a run hands back: everything printed, in order, and how it ended.
pub struct Report {
    pub output: Vec<Output>,
    pub outcome: Outcome,
}

impl View for CPU {
    type V = CpuState;

    open spec fn view(&self) -> CpuState {
        CpuState {
            instruction_pointer: self.instruction_pointer as int,
            instruction_register: self.instruction_register,
            condition_code: self.condition_code,
            accumulators: self.accumulators@,
            stopped: self.stopped,
        }
    }
}

impl Machine {
    /// A memory of 10 000 cells and ten accumulators.
    pub open spec fn well_formed(self) -> bool {
        &&& self.memory.len() == 10_000
        &&& self.cpu.accumulators.len() == 10
    }
}

/// The second mode digit at work: the accumulators after the index register's
/// side effect, and the operand with the index register folded in. `None` for
/// a digit outside 1 to 6.
///
/// Digit 1 passes the operand through, 2 adds the index register, 3 increments
/// the register and then adds it, 4 adds it and then increments it, 5
/// decrements it and then adds it. Digit 6 behaves as digit 4 does: it adds
/// and then increments.
pub open spec fn indexed(accumulators: Seq<i64>, mode2: int, index: int, raw: i64) -> Option<
    (Seq<i64>, i64),
> {
    let current = accumulators[index];
    if mode2 == 1 {
        Some((accumulators, raw))
    } else if mode2 == 2 {
        Some((accumulators, raw.wrapping_add(current)))
    } else if mode2 == 3 {
        let next = current.wrapping_add(1);
        Some((accumulators.update(index, next), raw.wrapping_add(next)))
    } else if mode2 == 4 || mode2 == 6 {
        Some((accumulators.update(index, current.wrapping_add(1)), raw.wrapping_add(current)))
    } else if mode2 == 5 {
        let next = current.wrapping_sub(1);
        Some((accumulators.update(index, next), raw.wrapping_add(next)))
    } else {
        None
    }
}

/// The first mode digit at work: the value that the adjusted operand stands
/// for. Digit 1 takes it as it is, 2 reduces it to an address, 3 fetches the
/// word at that address, 4 fetches the word whose address is stored there.
/// `None` for a digit outside 1 to 4.
pub open spec fn interpreted(memory: Seq<i64>, mode1: int, adjusted: i64) -> Option<i64> {
    if mode1 == 1 {
        Some(adjusted)
    } else if mode1 == 2 {
        Some(address_of(adjusted as int) as i64)
    } else if mode1 == 3 {
        Some(memory[address_of(adjusted as int)])
    } else if mode1 == 4 {
        Some(memory[address_of(memory[address_of(adjusted as int)] as int)])
    } else {
        None
    }
}

/// Whether the conditional jump with the given selector digit is taken under
/// a condition code: 1 on zero, 2 on not negative, 3 on not positive, 6 on
/// positive, 7 on negative, 8 on not zero. `None` for any other digit.
pub open spec fn jump_taken(selector: int, condition: ConditionCode) -> Option<bool> {
    if selector == 1 {
        Some(condition == ConditionCode::Eql)
    } else if selector == 2 {
        Some(condition != ConditionCode::Neg)
    } else if selector == 3 {
        Some(condition != ConditionCode::Pos)
    } else if selector == 6 {
        Some(condition == ConditionCode::Pos)
    } else if selector == 7 {
        Some(condition == ConditionCode::Neg)
    } else if selector == 8 {
        Some(condition != ConditionCode::Eql)
    } else {
        None
    }
}

/// The machine with the engine stopped by a fault.
pub open spec fn faulted(m: Machine, fault: Fault) -> Cycle {
    Cycle {
        machine: Machine { cpu: CpuState { stopped: true, ..m.cpu }, memory: m.memory },
        result: Err(fault),
    }
}

/// The machine with new accumulators and a new condition code.
pub open spec fn computed(m: Machine, accumulators: Seq<i64>, condition: ConditionCode) -> Cycle {
    Cycle {
        machine: Machine {
            cpu: CpuState { accumulators: accumulators, condition_code: condition, ..m.cpu },
            memory: m.memory,
        },
        result: Ok(None),
    }
}

/// The machine with the instruction pointer moved.
pub open spec fn jumped(m: Machine, target: int) -> Cycle {
    Cycle {
        machine: Machine {
            cpu: CpuState { instruction_pointer: target, ..m.cpu },
            memory: m.memory,
        },
        result: Ok(None),
    }
}

/// The effect of an instruction that takes an operand, on a machine whose
/// instruction pointer already points past the instruction. The condition
/// code is set from the operand, or from the stored value by a store, and
/// never from the result of the arithmetic.
pub open spec fn executed(m: Machine, insn: Insn, selector: int, operand: i64) -> Cycle {
    let acc = m.cpu.accumulators;
    let old = acc[selector];
    let sign = ConditionCode::of(operand as int);
    match insn {
        Insn::HIA => computed(m, acc.update(selector, operand), sign),
        Insn::BIG => Cycle {
            machine: Machine {
                cpu: CpuState { condition_code: ConditionCode::of(old as int), ..m.cpu },
                memory: m.memory.update(address_of(operand as int), old),
            },
            result: Ok(None),
        },
        Insn::OPT => computed(m, acc.update(selector, old.wrapping_add(operand)), sign),
        Insn::AFT => computed(m, acc.update(selector, old.wrapping_sub(operand)), sign),
        Insn::VER => computed(m, acc.update(selector, old.wrapping_mul(operand)), sign),
        Insn::DEL => match old.checked_div(operand) {
            Some(q) => computed(m, acc.update(selector, q), sign),
            None => faulted(m, Fault::Arithmetic),
        },
        Insn::MOD => match old.checked_rem(operand) {
            Some(r) => computed(m, acc.update(selector, r), sign),
            None => faulted(m, Fault::Arithmetic),
        },
        Insn::VGL => computed(m, acc, sign),
        Insn::SPR => jumped(m, address_of(operand as int)),
        Insn::VSP => match jump_taken(selector, m.cpu.condition_code) {
            Some(true) => jumped(m, address_of(operand as int)),
            Some(false) => Cycle { machine: m, result: Ok(None) },
            None => faulted(m, Fault::UnknownCondition),
        },
        Insn::SBR => {
            let top = acc[9].wrapping_sub(1);
            Cycle {
                machine: Machine {
                    cpu: CpuState {
                        accumulators: acc.update(9, top),
                        instruction_pointer: address_of(operand as int),
                        ..m.cpu
                    },
                    memory: m.memory.update(
                        address_of(top as int),
                        expand_address(m.cpu.instruction_pointer) as i64,
                    ),
                },
                result: Ok(None),
            }
        },
        _ => Cycle { machine: m, result: Ok(None) },
    }
}

/// The effect of an instruction that takes no operand.
pub open spec fn performed(m: Machine, insn: Insn) -> Cycle {
    let acc = m.cpu.accumulators;
    match insn {
        Insn::KTG => Cycle {
            machine: Machine {
                cpu: CpuState {
                    accumulators: acc.update(9, acc[9].wrapping_add(1)),
                    instruction_pointer: address_of(m.memory[address_of(acc[9] as int)] as int),
                    ..m.cpu
                },
                memory: m.memory,
            },
            result: Ok(None),
        },
        Insn::DRU => Cycle {
            machine: Machine {
                cpu: CpuState { condition_code: ConditionCode::of(acc[0] as int), ..m.cpu },
                memory: m.memory,
            },
            result: Ok(Some(Output::Number(acc[0]))),
        },
        Insn::NWL => Cycle { machine: m, result: Ok(Some(Output::Newline)) },
        Insn::STP => Cycle {
            machine: Machine { cpu: CpuState { stopped: true, ..m.cpu }, memory: m.memory },
            result: Ok(None),
        },
        _ => Cycle { machine: m, result: Ok(None) },
    }
}

/// The machine after the fetch: the word in the cell of the instruction
/// pointer is in the instruction register, and the pointer is one past that
/// cell.
pub open spec fn fetched(m: Machine) -> Machine {
    let at = cell_of(m.cpu.instruction_pointer);
    Machine {
        cpu: CpuState { instruction_pointer: at + 1, instruction_register: m.memory[at], ..m.cpu },
        memory: m.memory,
    }
}

/// The word in the instruction register, decoded and executed.
#[verifier::opaque]
pub open spec fn decoded(m: Machine) -> Cycle {
    let fields = fields_of(m.cpu.instruction_register as int);
    match Insn::of_code(fields.opcode as int) {
        None => faulted(m, Fault::UnknownOpcode),
        Some(insn) => if !insn.takes_operand() {
            performed(m, insn)
        } else {
            let raw = expand_address(fields.operand as int) as i64;
            match indexed(m.cpu.accumulators, fields.mode2 as int, fields.index as int, raw) {
                None => faulted(m, Fault::UnknownIndexation),
                Some((accumulators, adjusted)) => {
                    let after = Machine {
                        cpu: CpuState { accumulators: accumulators, ..m.cpu },
                        memory: m.memory,
                    };
                    match interpreted(m.memory, fields.mode1 as int, adjusted) {
                        None => faulted(after, Fault::UnknownInterpretation),
                        Some(operand) => executed(
                            after,
                            insn,
                            fields.accumulator as int,
                            operand,
                        ),
                    }
                },
            }
        },
    }
}

/// One cycle of a running machine: fetch, decode, resolve the operand,
/// execute. A fault stops the engine and leaves what the cycle had done up to
/// it.
pub open spec fn cycle(m: Machine) -> Cycle {
    decoded(fetched(m))
}

/// A run of at most `budget` cycles. It ends when the engine is stopped, at
/// the first fault, or when the budget is used up.
pub open spec fn run_of(m: Machine, budget: nat) -> Run
    decreases budget,
{
    if m.cpu.stopped {
        Run { machine: m, output: Seq::empty(), outcome: Outcome::Halted }
    } else if budget == 0 {
        Run { machine: m, output: Seq::empty(), outcome: Outcome::Exhausted }
    } else {
        let c = cycle(m);
        match c.result {
            Err(fault) => Run {
                machine: c.machine,
                output: Seq::empty(),
                outcome: Outcome::Faulted(fault),
            },
            Ok(printed) => {
                let rest = run_of(c.machine, (budget - 1) as nat);
                Run {
                    machine: rest.machine,
                    output: line_of(printed) + rest.output,
                    outcome: rest.outcome,
                }
            },
        }
    }
}

/// What a cycle printed, as a sequence of at most one output.
pub open spec fn line_of(printed: Option<Output>) -> Seq<Output> {
    match printed {
        Some(o) => seq![o],
        None => Seq::empty(),
    }
}

/// The halted state is final: a run that starts on a stopped engine changes
/// nothing and prints nothing, whatever its budget.
pub proof fn lemma_halted_is_final(m: Machine, budget: nat)
    requires
        m.cpu.stopped,
    ensures
        run_of(m, budget) == (Run {
            machine: m,
            output: Seq::empty(),
            outcome: Outcome::Halted,
        }),
{
}

/// A run ends with the engine stopped, unless its budget ran out.
pub proof fn lemma_run_ends_stopped(m: Machine, budget: nat)
    ensures
        run_of(m, budget).outcome != Outcome::Exhausted ==> run_of(m, budget).machine.cpu.stopped,
        run_of(m, budget).outcome == Outcome::Exhausted ==> !run_of(m, budget).machine.cpu.stopped,
    decreases budget,
{
    reveal(decoded);
    if !m.cpu.stopped && budget > 0 {
        let c = cycle(m);
        if c.result is Ok {
            lemma_run_ends_stopped(c.machine, (budget - 1) as nat);
        }
    }
}

impl CPU {
    /// An engine at address 0 with all accumulators zero.
    pub fn new() -> (cpu: Self)
        ensures
            cpu@.instruction_pointer == 0,
            cpu@.instruction_register == 0,
            cpu@.condition_code == ConditionCode::Eql,
            cpu@.accumulators.len() == 10,
            forall|i: int| 0 <= i < 10 ==> cpu@.accumulators[i] == 0,
            !cpu@.stopped,
    {
        CPU {
            instruction_pointer: 0,
            instruction_register: 0,
            condition_code: ConditionCode::Eql,
            accumulators: [0; 10],
            stopped: false,
        }
    }

    /// Stops the engine.
    pub fn stop(&mut self)
        ensures
            final(self)@ == (CpuState { stopped: true, ..old(self)@ }),
    {
        self.stopped = true;
    }

    /// Folds the index register into the operand, with its side effect.
    fn index_operand(&mut self, mode2: i64, index: usize, raw: i64) -> (adjusted: Option<i64>)
        requires
            index < 10,
        ensures
            match indexed(old(self)@.accumulators, mode2 as int, index as int, raw) {
                Some((accumulators, value)) => adjusted == Some(value) && final(self)@ == (
                CpuState { accumulators: accumulators, ..old(self)@ }),
                None => adjusted is None && final(self)@ == old(self)@,
            },
    {
        let current: i64 = self.accumulators[index];
        if mode2 == 1 {
            assert(self@.accumulators =~= old(self)@.accumulators);
            Some(raw)
        } else if mode2 == 2 {
            assert(self@.accumulators =~= old(self)@.accumulators);
            Some(raw.wrapping_add(current))
        } else if mode2 == 3 {
            let next: i64 = current.wrapping_add(1);
            self.accumulators[index] = next;
            Some(raw.wrapping_add(next))
        } else if mode2 == 4 || mode2 == 6 {
            self.accumulators[index] = current.wrapping_add(1);
            Some(raw.wrapping_add(current))
        } else if mode2 == 5 {
            let next: i64 = current.wrapping_sub(1);
            self.accumulators[index] = next;
            Some(raw.wrapping_add(next))
        } else {
            assert(self@.accumulators =~= old(self)@.accumulators);
            None
        }
    }

    /// Whether a conditional jump with the given selector is taken now.
    fn takes_jump(&self, selector: usize) -> (taken: Option<bool>)
        ensures
            taken == jump_taken(selector as int, self@.condition_code),
    {
        let cc = self.condition_code;
        match selector {
            1 => Some(cc == ConditionCode::Eql),
            2 => Some(cc != ConditionCode::Neg),
            3 => Some(cc != ConditionCode::Pos),
            6 => Some(cc == ConditionCode::Pos),
            7 => Some(cc == ConditionCode::Neg),
            8 => Some(cc != ConditionCode::Eql),
            _ => None,
        }
    }

    /// Executes an instruction that takes an operand.
    fn execute(
        &mut self,
        ram: &mut RandomAccessMemory,
        insn: Insn,
        selector: usize,
        operand: i64,
    ) -> (result: Result<Option<Output>, Fault>)
        requires
            selector < 10,
            insn.takes_operand(),
            old(self).instruction_pointer <= 10_000,
        ensures
            ({
                let c = executed(
                    Machine { cpu: old(self)@, memory: old(ram)@ },
                    insn,
                    selector as int,
                    operand,
                );
                &&& result == c.result
                &&& final(self)@ == c.machine.cpu
                &&& final(ram)@ == c.machine.memory
            }),
    {
        proof {
            ram.lemma_size();
        }
        let old_value: i64 = self.accumulators[selector];
        let sign = ConditionCode::from_number(operand);
        match insn {
            Insn::HIA => {
                self.accumulators[selector] = operand;
                self.condition_code = sign;
            },
            Insn::BIG => {
                ram.write(operand, old_value);
                self.condition_code = ConditionCode::from_number(old_value);
            },
            Insn::OPT => {
                self.accumulators[selector] = old_value.wrapping_add(operand);
                self.condition_code = sign;
            },
            Insn::AFT => {
                self.accumulators[selector] = old_value.wrapping_sub(operand);
                self.condition_code = sign;
            },
            Insn::VER => {
                self.accumulators[selector] = old_value.wrapping_mul(operand);
                self.condition_code = sign;
            },
            Insn::DEL => {
                match old_value.checked_div(operand) {
                    Some(q) => {
                        self.accumulators[selector] = q;
                        self.condition_code = sign;
                    },
                    None => {
                        self.stopped = true;
                        return Err(Fault::Arithmetic);
                    },
                }
            },
            Insn::MOD => {
                match old_value.checked_rem(operand) {
                    Some(r) => {
                        self.accumulators[selector] = r;
                        self.condition_code = sign;
                    },
                    None => {
                        self.stopped = true;
                        return Err(Fault::Arithmetic);
                    },
                }
            },
            Insn::VGL => {
                self.condition_code = sign;
                assert(self@.accumulators =~= old(self)@.accumulators);
            },
            Insn::SPR => {
                self.instruction_pointer = address(operand);
            },
            Insn::VSP => {
                match self.takes_jump(selector) {
                    Some(true) => {
                        self.instruction_pointer = address(operand);
                    },
                    Some(false) => {},
                    None => {
                        self.stopped = true;
                        return Err(Fault::UnknownCondition);
                    },
                }
            },
            Insn::SBR => {
                let top: i64 = self.accumulators[9].wrapping_sub(1);
                self.accumulators[9] = top;
                ram.write(top, expand(self.instruction_pointer));
                self.instruction_pointer = address(operand);
            },
            _ => {},
        }
        Ok(None)
    }

    /// Executes an instruction that takes no operand.
    fn perform(&mut self, ram: &RandomAccessMemory, insn: Insn) -> (result: Result<
        Option<Output>,
        Fault,
    >)
        requires
            !insn.takes_operand(),
        ensures
            ({
                let c = performed(Machine { cpu: old(self)@, memory: ram@ }, insn);
                &&& result == c.result
                &&& final(self)@ == c.machine.cpu
            }),
    {
        match insn {
            Insn::KTG => {
                let top: i64 = self.accumulators[9];
                self.accumulators[9] = top.wrapping_add(1);
                self.instruction_pointer = address(ram.read(top));
                Ok(None)
            },
            Insn::DRU => {
                let value: i64 = self.accumulators[0];
                self.condition_code = ConditionCode::from_number(value);
                Ok(Some(Output::Number(value)))
            },
            Insn::NWL => Ok(Some(Output::Newline)),
            Insn::STP => {
                self.stop();
                Ok(None)
            },
            _ => Ok(None),
        }
    }

    /// Runs one cycle: fetches the word at the instruction pointer, advances
    /// the pointer, decodes the word and executes it. Returns what the
    /// instruction printed, or the fault that stopped the engine. A stopped
    /// engine does nothing.
    pub fn step(&mut self, ram: &mut RandomAccessMemory) -> (result: Result<Option<Output>, Fault>)
        ensures
            old(self)@.stopped ==> result == Ok::<Option<Output>, Fault>(None) && final(self)@
                == old(self)@ && final(ram)@ == old(ram)@,
            !old(self)@.stopped ==> ({
                let c = cycle(Machine { cpu: old(self)@, memory: old(ram)@ });
                &&& result == c.result
                &&& final(self)@ == c.machine.cpu
                &&& final(ram)@ == c.machine.memory
            }),
    {
        if self.stopped {
            return Ok(None);
        }
        reveal(decoded);
        let at: usize = self.instruction_pointer % 10_000;
        let word: i64 = ram.fetch(self.instruction_pointer);
        self.instruction_register = word;
        self.instruction_pointer = at + 1;
        let fields: Fields = unpack(word);
        let insn = match Insn::from_code(fields.opcode) {
            Some(insn) => insn,
            None => {
                self.stopped = true;
                return Err(Fault::UnknownOpcode);
            },
        };
        if !insn.has_operand() {
            return self.perform(ram, insn);
        }
        let raw: i64 = expand(fields.operand as usize);
        let adjusted: i64 = match self.index_operand(fields.mode2, fields.index as usize, raw) {
            Some(adjusted) => adjusted,
            None => {
                self.stopped = true;
                return Err(Fault::UnknownIndexation);
            },
        };
        let operand: i64 = if fields.mode1 == 1 {
            adjusted
        } else if fields.mode1 == 2 {
            address(adjusted) as i64
        } else if fields.mode1 == 3 {
            ram.read(adjusted)
        } else if fields.mode1 == 4 {
            ram.read(ram.read(adjusted))
        } else {
            self.stopped = true;
            return Err(Fault::UnknownInterpretation);
        };
        self.execute(ram, insn, fields.accumulator as usize, operand)
    }

    /// Runs cycles until the engine is stopped, a word cannot be executed, or
    /// `max_cycles` cycles have run. Returns what was printed, in order, and
    /// how the run ended.
    pub fn run(&mut self, ram: &mut RandomAccessMemory, max_cycles: usize) -> (report: Report)
        ensures
            ({
                let r = run_of(Machine { cpu: old(self)@, memory: old(ram)@ }, max_cycles as nat);
                &&& report.output@ == r.output
                &&& report.outcome == r.outcome
                &&& final(self)@ == r.machine.cpu
                &&& final(ram)@ == r.machine.memory
            }),
    {
        let mut output: Vec<Output> = Vec::new();
        let mut cycles: usize = 0;
        let ghost start = Machine { cpu: self@, memory: ram@ };
        while !self.stopped && cycles < max_cycles
            invariant
                cycles <= max_cycles,
                start == (Machine { cpu: old(self)@, memory: old(ram)@ }),
                ({
                    let whole = run_of(start, max_cycles as nat);
                    let rest = run_of(
                        Machine { cpu: self@, memory: ram@ },
                        (max_cycles - cycles) as nat,
                    );
                    &&& whole.output == output@ + rest.output
                    &&& whole.outcome == rest.outcome
                    &&& whole.machine == rest.machine
                }),
            decreases max_cycles - cycles,
        {
            let ghost before = Machine { cpu: self@, memory: ram@ };
            let ghost printed_before = output@;
            match self.step(ram) {
                Err(fault) => {
                    proof {
                        assert(output@ + Seq::<Output>::empty() =~= output@);
                    }
                    return Report { output, outcome: Outcome::Faulted(fault) };
                },
                Ok(printed) => {
                    if let Some(o) = printed {
                        output.push(o);
                    }
                    proof {
                        let rest = run_of(
                            Machine { cpu: self@, memory: ram@ },
                            (max_cycles - cycles - 1) as nat,
                        );
                        assert(output@ =~= printed_before + line_of(printed));
                        assert(printed_before + (line_of(printed) + rest.output) =~= output@
                            + rest.output);
                    }
                },
            }
            cycles += 1;
        }
        proof {
            assert(output@ + Seq::<Output>::empty() =~= output@);
        }
        let outcome = if self.stopped {
            Outcome::Halted
        } else {
            Outcome::Exhausted
        };
        Report { output, outcome }
    }
}

} // verus!
