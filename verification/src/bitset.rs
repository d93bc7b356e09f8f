//! A fixed-capacity bit-set indexed by interrupt source id.
//!
//! Each controller instance keeps three of these (assigned, pending,
//! active), one boolean flag per source. The capacity is the compile-time
//! constant `PLIC_NUM_SOURCES`.

use crate::consts::PLIC_NUM_SOURCES;
use vstd::prelude::*;

verus! {

/// Index, within `s` and starting at position `i`, of the first flag that is
/// set; `s.len()` when none is set at or after `i`.
pub open spec fn first_set_from(s: Seq<bool>, i: int) -> int
    decreases s.len() - i,
{
    if i < 0 || i >= s.len() {
        s.len() as int
    } else if s[i] {
        i
    } else {
        first_set_from(s, i + 1)
    }
}

/// Index of the lowest set flag of `s`; `s.len()` when the set is empty.
pub open spec fn spec_first_set(s: Seq<bool>) -> int {
    first_set_from(s, 0)
}

/// True when at least one flag of `s` is set.
pub open spec fn any_set(s: Seq<bool>) -> bool {
    exists|i: int| 0 <= i < s.len() && s[i]
}

proof fn lemma_first_set_from_skip(s: Seq<bool>, i: int)
    requires
        0 <= i <= s.len(),
        forall|j: int| 0 <= j < i ==> !s[j],
    ensures
        first_set_from(s, 0) == first_set_from(s, i),
    decreases i,
{
    if i > 0 {
        lemma_first_set_from_skip(s, i - 1);
        assert(first_set_from(s, i - 1) == first_set_from(s, i));
    }
}

/// A fixed-capacity ordered collection of boolean flags, one per interrupt
/// source id, of capacity `PLIC_NUM_SOURCES`.
pub struct IrqBitmap {
    bits: Vec<bool>,
}

impl View for IrqBitmap {
    type V = Seq<bool>;

    closed spec fn view(&self) -> Seq<bool> {
        self.bits@
    }
}

impl IrqBitmap {
    /// The capacity invariant: exactly one flag per source id.
    pub open spec fn wf(self) -> bool {
        self@.len() == PLIC_NUM_SOURCES
    }

    /// A bit-set with every flag clear.
    pub fn new() -> (r: IrqBitmap)
        ensures
            r.wf(),
            forall|i: int| 0 <= i < r@.len() ==> !r@[i],
    {
        let mut bits: Vec<bool> = Vec::new();
        let mut i: usize = 0;
        while i < PLIC_NUM_SOURCES
            invariant
                i <= PLIC_NUM_SOURCES,
                bits@.len() == i,
                forall|j: int| 0 <= j < i ==> !bits@[j],
            decreases PLIC_NUM_SOURCES - i,
        {
            bits.push(false);
            i = i + 1;
        }
        IrqBitmap { bits }
    }

    /// Whether the flag of source `index` is set.
    pub fn get(&self, index: usize) -> (r: bool)
        requires
            self.wf(),
            index < PLIC_NUM_SOURCES,
        ensures
            r == self@[index as int],
    {
        self.bits[index]
    }

    /// Sets or clears the flag of source `index`, leaving every other flag
    /// as it was.
    pub fn set(&mut self, index: usize, value: bool)
        requires
            old(self).wf(),
            index < PLIC_NUM_SOURCES,
        ensures
            final(self).wf(),
            final(self)@ == old(self)@.update(index as int, value),
    {
        self.bits[index] = value;
    }

    /// The lowest source id whose flag is set, or nothing when the set is
    /// empty (deterministic tie-break: ascending numeric id).
    pub fn first_set(&self) -> (r: Option<usize>)
        requires
            self.wf(),
        ensures
            match r {
                Some(id) => {
                    &&& id < PLIC_NUM_SOURCES
                    &&& self@[id as int]
                    &&& forall|j: int| 0 <= j < id ==> !self@[j]
                    &&& id == spec_first_set(self@)
                },
                None => forall|i: int| 0 <= i < self@.len() ==> !self@[i],
            },
    {
        let mut i: usize = 0;
        while i < PLIC_NUM_SOURCES
            invariant
                self.wf(),
                i <= PLIC_NUM_SOURCES,
                forall|j: int| 0 <= j < i ==> !self@[j],
            decreases PLIC_NUM_SOURCES - i,
        {
            if self.bits[i] {
                proof {
                    lemma_first_set_from_skip(self@, i as int);
                }
                return Some(i);
            }
            i = i + 1;
        }
        None
    }

    /// Whether no flag at all is set.
    pub fn is_empty(&self) -> (r: bool)
        requires
            self.wf(),
        ensures
            r == !any_set(self@),
    {
        self.first_set().is_none()
    }
}

} // verus!
