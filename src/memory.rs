use vstd::prelude::*;

use std::collections::HashMap;

use crate::types::Word;

verus! {

broadcast use vstd::std_specs::hash::group_hash_axioms;

/// Value of the cell at `address` in `cells`: zero where nothing was written.
pub open spec fn cell_value(cells: Map<Word, Word>, address: Word) -> Word {
    if cells.contains_key(address) {
        cells[address]
    } else {
        0
    }
}

/// A word-addressed store whose contents are modelled as a map from
/// addresses to the words written there.
pub trait LinearlyAddressable: View<V = Map<Word, Word>> {
    fn read(&self, address: Word) -> (r: Word)
        ensures
            r == cell_value(self@, address),
    ;

    fn write(&mut self, address: Word, data: Word)
        ensures
            final(self)@ == old(self)@.insert(address, data),
    ;
}

/// Sparse memory backed by a hash map; it only ever grows.
#[derive(Debug, PartialEq, Eq)]
pub struct HashMemory(pub HashMap<Word, Word>);

impl View for HashMemory {
    type V = Map<Word, Word>;

    open spec fn view(&self) -> Map<Word, Word> {
        self.0@
    }
}

impl Clone for HashMemory {
    fn clone(&self) -> (r: Self)
        ensures
            r@ == self@,
    {
        HashMemory(self.0.clone())
    }
}

impl Default for HashMemory {
    fn default() -> (r: Self)
        ensures
            r@ == Map::<Word, Word>::empty(),
    {
        HashMemory::new()
    }
}

impl HashMemory {
    pub fn new() -> (r: Self)
        ensures
            r@ == Map::<Word, Word>::empty(),
    {
        HashMemory(HashMap::new())
    }
}

impl LinearlyAddressable for HashMemory {
    fn read(&self, address: Word) -> (r: Word) {
        match self.0.get(&address) {
            Some(v) => *v,
            None => 0,
        }
    }

    fn write(&mut self, address: Word, data: Word) {
        self.0.insert(address, data);
    }
}

pub type Memory = HashMemory;

} // verus!
