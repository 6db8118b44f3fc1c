//! The label table: which address each label stands for.

use crate::text::equals;
use vstd::prelude::*;

verus! {

/// The map that a list of definitions amounts to: a later definition of a
/// name replaces an earlier one.
pub open spec fn bindings(log: Seq<(Seq<char>, usize)>) -> Map<Seq<char>, usize>
    decreases log.len(),
{
    if log.len() == 0 {
        Map::empty()
    } else {
        bindings(log.drop_last()).insert(log.last().0, log.last().1)
    }
}

/// Labels and their addresses. Names are case-sensitive.
#[derive(Debug, Clone, PartialEq, Eq)]
pub struct LabelTable<'a> {
    entries: Vec<(&'a str, usize)>,
}

impl<'a> View for LabelTable<'a> {
    type V = Map<Seq<char>, usize>;

    /// The address of each label.
    open spec fn view(&self) -> Map<Seq<char>, usize> {
        bindings(self.log())
    }
}

impl<'a> LabelTable<'a> {
    /// The definitions in the order in which they were made.
    pub closed spec fn log(&self) -> Seq<(Seq<char>, usize)> {
        Seq::new(self.entries@.len(), |i: int| (self.entries@[i].0@, self.entries@[i].1))
    }

    /// A table without labels.
    pub fn new() -> (table: Self)
        ensures
            table.log() == Seq::<(Seq<char>, usize)>::empty(),
            table@ == Map::<Seq<char>, usize>::empty(),
    {
        let table = LabelTable { entries: Vec::new() };
        assert(table.log() =~= Seq::<(Seq<char>, usize)>::empty());
        table
    }

    /// Binds `name` to `address`. An earlier binding of the name is replaced.
    pub fn insert(&mut self, name: &'a str, address: usize)
        ensures
            final(self).log() == old(self).log().push((name@, address)),
            final(self)@ == old(self)@.insert(name@, address),
    {
        self.entries.push((name, address));
        assert(self.log() =~= old(self).log().push((name@, address)));
        assert(self.log().drop_last() =~= old(self).log());
    }

    /// The number of definitions made, repeated names included.
    pub fn len(&self) -> (n: usize)
        ensures
            n == self.log().len(),
    {
        self.entries.len()
    }

    /// The name of the `i`-th definition.
    pub fn name_at(&self, i: usize) -> (name: &'a str)
        requires
            i < self.log().len(),
        ensures
            name@ == self.log()[i as int].0,
    {
        self.entries[i].0
    }

    /// The address of the `i`-th definition.
    pub fn address_at(&self, i: usize) -> (address: usize)
        requires
            i < self.log().len(),
        ensures
            address == self.log()[i as int].1,
    {
        self.entries[i].1
    }

    /// The address that `name` is bound to.
    pub fn get(&self, name: &str) -> (address: Option<usize>)
        ensures
            address == (if self@.contains_key(name@) {
                Some(self@[name@])
            } else {
                None
            }),
    {
        let mut i: usize = self.entries.len();
        proof {
            assert(self.log().subrange(0, i as int) =~= self.log());
        }
        while i > 0
            invariant
                i <= self.entries@.len(),
                self.log().len() == self.entries@.len(),
                self@.contains_key(name@) == bindings(self.log().subrange(0, i as int)).contains_key(
                    name@,
                ),
                self@.contains_key(name@) ==> self@[name@] == bindings(
                    self.log().subrange(0, i as int),
                )[name@],
            decreases i,
        {
            let entry = self.entries[i - 1];
            proof {
                let prefix = self.log().subrange(0, i as int);
                assert(prefix.drop_last() =~= self.log().subrange(0, i - 1));
                assert(prefix.last() == (entry.0@, entry.1));
            }
            if equals(entry.0, name) {
                return Some(entry.1);
            }
            i -= 1;
        }
        None
    }
}

} // verus!
