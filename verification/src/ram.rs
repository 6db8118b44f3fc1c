//! The memory of the machine: 10 000 words, addressed modulo 10 000.

use crate::codec::{address, address_of};
use vstd::array::*;
use vstd::prelude::*;

verus! {

/// A fixed store of 10 000 machine words.
pub struct RandomAccessMemory {
    inner: [i64; 10_000],
}

pub type RAM = RandomAccessMemory;

impl View for RandomAccessMemory {
    type V = Seq<i64>;

    /// The words of the memory, by address.
    closed spec fn view(&self) -> Seq<i64> {
        self.inner@
    }
}

/// The cell that an unsigned index falls on.
pub open spec fn cell_of(index: int) -> int {
    index % 10_000
}

/// The memory that results from writing the pairs of `program` into `memory`,
/// first pair first, each at the cell of its address.
pub open spec fn loaded(memory: Seq<i64>, program: Seq<(usize, i64)>) -> Seq<i64>
    decreases program.len(),
{
    if program.len() == 0 {
        memory
    } else {
        let last = program.last();
        loaded(memory, program.drop_last()).update(cell_of(last.0 as int), last.1)
    }
}

impl RandomAccessMemory {
    /// A memory of zeros.
    pub fn new() -> (ram: Self)
        ensures
            ram@.len() == 10_000,
            forall|i: int| 0 <= i < 10_000 ==> ram@[i] == 0,
    {
        RandomAccessMemory { inner: [0; 10_000] }
    }

    /// A memory always has 10 000 cells.
    pub proof fn lemma_size(&self)
        ensures
            self@.len() == 10_000,
    {
    }

    /// The word at the address that `number` denotes.
    pub fn read(&self, number: i64) -> (word: i64)
        ensures
            word == self@[address_of(number as int)],
    {
        self.inner[address(number)]
    }

    /// Stores `word` at the address that `number` denotes.
    pub fn write(&mut self, number: i64, word: i64)
        ensures
            final(self)@ == old(self)@.update(address_of(number as int), word),
    {
        let at: usize = address(number);
        self.inner[at] = word;
    }

    /// The word in the cell of `index`.
    pub fn fetch(&self, index: usize) -> (word: i64)
        ensures
            word == self@[cell_of(index as int)],
    {
        self.inner[index % 10_000]
    }

    /// Stores `word` in the cell of `index`.
    pub fn place(&mut self, index: usize, word: i64)
        ensures
            final(self)@ == old(self)@.update(cell_of(index as int), word),
    {
        self.inner[index % 10_000] = word;
    }

    /// Writes an assembled program into memory, pair by pair.
    pub fn load_program(&mut self, program: &Vec<(usize, i64)>)
        ensures
            final(self)@ == loaded(old(self)@, program@),
    {
        let mut i: usize = 0;
        while i < program.len()
            invariant
                i <= program.len(),
                self@ == loaded(old(self)@, program@.take(i as int)),
            decreases program.len() - i,
        {
            let pair = program[i];
            proof {
                let next = program@.take(i + 1);
                assert(next.drop_last() =~= program@.take(i as int));
                assert(next.last() == program@[i as int]);
            }
            self.place(pair.0, pair.1);
            i += 1;
        }
        proof {
            assert(program@.take(i as int) =~= program@);
        }
    }
}

} // verus!
