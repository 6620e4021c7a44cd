//! Address slot table.
//!
//! One mutable storage cell per export, preallocated for the full export set
//! once the target's export list is known. A slot holds zero while its export
//! is unresolved and the real function's address afterwards; zero is the
//! sentinel, so a resolved address is never zero. Every trampoline and every
//! hook body reads the slot of its export through this table.
use vstd::prelude::*;

verus! {

/// What a slot read yields: the resolved address, or nothing while the slot
/// still holds the sentinel.
pub open spec fn spec_get(table: Seq<u64>, i: int) -> Option<u64> {
    if table[i] == 0 {
        None
    } else {
        Some(table[i])
    }
}

/// True when every slot of the table holds a resolved (non-sentinel) address.
pub open spec fn all_resolved(table: Seq<u64>) -> bool {
    forall|i: int| 0 <= i < table.len() ==> table[i] != 0
}

/// The address slot table; its view is the sequence of slot contents.
pub struct SlotTable {
    slots: Vec<u64>,
}

impl View for SlotTable {
    type V = Seq<u64>;

    closed spec fn view(&self) -> Seq<u64> {
        self.slots@
    }
}

impl SlotTable {
    /// Preallocates one slot per export, every slot unresolved.
    pub fn new(count: usize) -> (t: SlotTable)
        ensures
            t@.len() == count,
            forall|i: int| 0 <= i < count ==> t@[i] == 0,
    {
        let mut slots: Vec<u64> = Vec::new();
        let mut i: usize = 0;
        while i < count
            invariant
                i <= count,
                slots@.len() == i,
                forall|j: int| 0 <= j < i ==> slots@[j] == 0,
            decreases count - i,
        {
            slots.push(0);
            i = i + 1;
        }
        SlotTable { slots }
    }

    /// Number of slots; fixed at construction.
    pub fn len(&self) -> (n: usize)
        ensures
            n == self@.len(),
    {
        self.slots.len()
    }

    /// Writes a resolved address into the slot of export `i`. Only the
    /// orchestrated load step calls this, before any slot is readable.
    pub fn set(&mut self, i: usize, address: u64)
        requires
            i < old(self)@.len(),
            address != 0,
        ensures
            final(self)@ == old(self)@.update(i as int, address),
    {
        self.slots.set(i, address);
    }

    /// Reads the slot of export `i`: the address when resolved, nothing
    /// while the slot still holds the sentinel.
    pub fn get(&self, i: usize) -> (r: Option<u64>)
        requires
            i < self@.len(),
        ensures
            r == spec_get(self@, i as int),
    {
        let a = self.slots[i];
        if a == 0 {
            None
        } else {
            Some(a)
        }
    }
}

} // verus!
