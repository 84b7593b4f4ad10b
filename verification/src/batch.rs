//! Fixed-capacity accumulation of invoices between flushes.

use vstd::prelude::*;
use crate::invoice::Invoice;

verus! {

/// An ordered, bounded buffer of invoices.  Capacity is fixed at
/// construction; the buffer never holds more than that many records,
/// and it preserves insertion order.
pub struct BatchAccumulator {
    items: Vec<Invoice>,
    capacity: usize,
}

impl BatchAccumulator {
    /// The records currently buffered, oldest first.
    pub closed spec fn contents(self) -> Seq<Invoice> {
        self.items@
    }

    /// The fixed capacity chosen at construction.
    pub closed spec fn cap(self) -> nat {
        self.capacity as nat
    }

    /// Well-formedness: positive capacity, never exceeded.
    pub open spec fn wf(self) -> bool {
        &&& self.cap() >= 1
        &&& self.contents().len() <= self.cap()
    }

    /// Creates an empty accumulator of the given capacity.
    pub fn new(capacity: usize) -> (r: BatchAccumulator)
        requires
            capacity >= 1,
        ensures
            r.wf(),
            r.cap() == capacity,
            r.contents() == Seq::<Invoice>::empty(),
    {
        BatchAccumulator { items: Vec::new(), capacity }
    }

    /// The fixed capacity.
    pub fn capacity(&self) -> (r: usize)
        ensures
            r == self.cap(),
    {
        self.capacity
    }

    /// Number of buffered records.
    pub fn len(&self) -> (r: usize)
        ensures
            r == self.contents().len(),
    {
        self.items.len()
    }

    /// Whether the buffer holds no records.
    pub fn is_empty(&self) -> (r: bool)
        ensures
            r == (self.contents().len() == 0),
    {
        self.items.len() == 0
    }

    /// Whether the buffer has reached capacity; callers must check this
    /// after every push and flush before it would be exceeded.
    pub fn is_full(&self) -> (r: bool)
        ensures
            r == (self.contents().len() == self.cap()),
    {
        self.items.len() == self.capacity
    }

    /// Appends one record.  The buffer must not already be full: records
    /// are never silently dropped.
    pub fn push(&mut self, inv: Invoice)
        requires
            old(self).wf(),
            old(self).contents().len() < old(self).cap(),
        ensures
            final(self).wf(),
            final(self).cap() == old(self).cap(),
            final(self).contents() == old(self).contents().push(inv),
    {
        self.items.push(inv);
    }

    /// Read access to the buffered records, for marshalling.
    pub fn records(&self) -> (r: &Vec<Invoice>)
        ensures
            r@ == self.contents(),
    {
        &self.items
    }

    /// Removes and returns the whole contents, in insertion order,
    /// leaving the buffer empty with its capacity unchanged.
    pub fn drain(&mut self) -> (r: Vec<Invoice>)
        ensures
            final(self).cap() == old(self).cap(),
            final(self).contents() == Seq::<Invoice>::empty(),
            old(self).wf() ==> final(self).wf(),
            r@ == old(self).contents(),
    {
        let mut out: Vec<Invoice> = Vec::new();
        core::mem::swap(&mut out, &mut self.items);
        out
    }

    /// Empties the buffer, keeping its capacity.
    pub fn clear(&mut self)
        ensures
            final(self).cap() == old(self).cap(),
            final(self).contents() == Seq::<Invoice>::empty(),
            old(self).wf() ==> final(self).wf(),
    {
        self.items.clear();
    }
}

} // verus!
