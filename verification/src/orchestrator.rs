//! The run orchestrator: drives the generate/accumulate/flush cycle.
//!
//! The orchestrator owns the batch buffer and the accounting of a run.
//! The one thing it cannot do itself is the bulk load, which is blocking
//! I/O against the store: it hands the caller the marshalled columns of
//! each full (or final partial) batch and is told afterwards whether the
//! store accepted them.  Every decision in between — how many records to
//! generate, when a batch is due, what counts as inserted, when the run
//! is done or failed — is made here and verified.

use vstd::prelude::*;
use vstd::arithmetic::div_mod::{lemma_basic_div, lemma_fundamental_div_mod_converse_div};
use crate::batch::BatchAccumulator;
use crate::columns::{aligned, columns_of, InvoiceColumns};
use crate::gen::{generate_invoice, GenError};
use crate::invoice::DateWindow;
use crate::plan::num_flushes;

verus! {

/// Where a run stands.
#[derive(Clone, Copy, PartialEq, Eq, Structural, Debug)]
pub enum Phase {
    /// More records remain to generate; the buffer is empty.
    Ready,
    /// A batch has been handed out for loading; awaiting the verdict.
    AwaitingFlush,
    /// Every requested record was accepted by the store.
    Done,
    /// A flush was rejected or generation failed; the run has halted.
    Failed,
}

/// What a finished run reports.
#[derive(Clone, Copy, PartialEq, Eq, Structural, Debug)]
pub struct Summary {
    /// Records accepted by the store.
    pub inserted: usize,
    /// Bulk-load operations performed.
    pub flushes: usize,
}

/// The state of one seeding run.
pub struct Orchestrator {
    total: usize,
    window: DateWindow,
    inserted: usize,
    flushes: usize,
    batch: BatchAccumulator,
    phase: Phase,
}

impl Orchestrator {
    /// The requested record count.
    pub closed spec fn total(self) -> nat {
        self.total as nat
    }

    /// The fixed batch capacity.
    pub closed spec fn capacity(self) -> nat {
        self.batch.cap()
    }

    /// The date window records are drawn from.
    pub closed spec fn window(self) -> DateWindow {
        self.window
    }

    /// Records accepted by successful flushes so far.
    pub closed spec fn inserted(self) -> nat {
        self.inserted as nat
    }

    /// Successful flushes so far.
    pub closed spec fn flushes(self) -> nat {
        self.flushes as nat
    }

    /// The records currently buffered.
    pub closed spec fn pending(self) -> Seq<crate::invoice::Invoice> {
        self.batch.contents()
    }

    /// The run's phase.
    pub closed spec fn phase(self) -> Phase {
        self.phase
    }

    /// The run invariant.  At every point, `inserted` counts exactly the
    /// records of prior successful flushes; between flushes every past
    /// flush was a full batch; a batch handed out is non-empty and either
    /// full or the final remainder; and a finished run has performed
    /// exactly `ceil(total / capacity)` flushes.
    pub open spec fn wf(self) -> bool {
        &&& self.capacity() >= 1
        &&& self.window().valid()
        &&& self.inserted() <= self.total()
        &&& forall|i: int|
            0 <= i < self.pending().len() ==> (#[trigger] self.pending()[i]).valid(self.window())
        &&& match self.phase() {
            Phase::Ready => {
                &&& self.pending().len() == 0
                &&& self.inserted() == self.flushes() * self.capacity()
                &&& self.inserted() < self.total()
            },
            Phase::AwaitingFlush => {
                &&& 1 <= self.pending().len() <= self.capacity()
                &&& self.inserted() == self.flushes() * self.capacity()
                &&& self.inserted() + self.pending().len() <= self.total()
                &&& (self.pending().len() == self.capacity() || self.inserted()
                    + self.pending().len() == self.total())
            },
            Phase::Done => {
                &&& self.pending().len() == 0
                &&& self.inserted() == self.total()
                &&& self.flushes() == num_flushes(self.total() as int, self.capacity() as int)
            },
            Phase::Failed => self.inserted() == self.flushes() * self.capacity(),
        }
    }

    /// Starts a run over `total` records with the given batch capacity
    /// and date window.  A run over zero records is immediately done,
    /// with zero flushes.
    pub fn new(total: usize, capacity: usize, window: DateWindow) -> (r: Orchestrator)
        requires
            capacity >= 1,
            window.valid(),
        ensures
            r.wf(),
            r.total() == total,
            r.capacity() == capacity,
            r.window() == window,
            r.inserted() == 0,
            r.flushes() == 0,
            r.phase() == (if total == 0 {
                Phase::Done
            } else {
                Phase::Ready
            }),
    {
        let phase = if total == 0 {
            proof {
                lemma_basic_div(capacity - 1, capacity as int);
            }
            Phase::Done
        } else {
            Phase::Ready
        };
        Orchestrator {
            total,
            window,
            inserted: 0,
            flushes: 0,
            batch: BatchAccumulator::new(capacity),
            phase,
        }
    }

    /// Whether more records remain to generate.
    pub fn is_ready(&self) -> (r: bool)
        ensures
            r == (self.phase() is Ready),
    {
        matches!(self.phase, Phase::Ready)
    }

    /// Whether a batch is out awaiting the store's verdict.
    pub fn is_awaiting_flush(&self) -> (r: bool)
        ensures
            r == (self.phase() is AwaitingFlush),
    {
        matches!(self.phase, Phase::AwaitingFlush)
    }

    /// Whether the run finished successfully.
    pub fn is_done(&self) -> (r: bool)
        ensures
            r == (self.phase() is Done),
    {
        matches!(self.phase, Phase::Done)
    }

    /// Whether the run halted on a failure.
    pub fn is_failed(&self) -> (r: bool)
        ensures
            r == (self.phase() is Failed),
    {
        matches!(self.phase, Phase::Failed)
    }

    /// Records accepted by the store so far.
    pub fn inserted_count(&self) -> (r: usize)
        ensures
            r == self.inserted(),
    {
        self.inserted
    }

    /// Successful flushes so far.
    pub fn flush_count(&self) -> (r: usize)
        ensures
            r == self.flushes(),
    {
        self.flushes
    }

    /// Generates the next batch: a full one, or the final remainder if
    /// fewer records are left, each record drawn from the entropy stream
    /// and satisfying the record invariant.  Hands back the batch's
    /// column arrays, aligned with the buffered records, for the caller
    /// to load.  Fails only if a synthesized name came back empty, which
    /// halts the run.
    pub fn fill_batch(&mut self, rng: &mut rand::rngs::ThreadRng) -> (r: Result<
        InvoiceColumns,
        GenError,
    >)
        requires
            old(self).wf(),
            old(self).phase() is Ready,
        ensures
            final(self).wf(),
            final(self).total() == old(self).total(),
            final(self).capacity() == old(self).capacity(),
            final(self).window() == old(self).window(),
            final(self).inserted() == old(self).inserted(),
            final(self).flushes() == old(self).flushes(),
            r is Ok ==> {
                &&& final(self).phase() is AwaitingFlush
                &&& aligned(r->Ok_0, final(self).pending())
                &&& final(self).pending().len() == (if old(self).total() - old(self).inserted()
                    < old(self).capacity() {
                    old(self).total() - old(self).inserted()
                } else {
                    old(self).capacity() as int
                })
            },
            r is Err ==> final(self).phase() is Failed && r->Err_0 == GenError::EmptyName,
    {
        let remaining = self.total - self.inserted;
        let capacity = self.batch.capacity();
        let take: usize = if remaining < capacity {
            remaining
        } else {
            capacity
        };
        let ghost orig = *self;
        let mut made: usize = 0;
        while made < take
            invariant
                orig == *old(self),
                self.batch.wf(),
                self.batch.cap() == orig.batch.cap(),
                self.total == orig.total,
                self.window == orig.window,
                self.inserted == orig.inserted,
                self.flushes == orig.flushes,
                self.phase == orig.phase,
                orig.wf(),
                orig.phase() is Ready,
                made <= take,
                take <= orig.capacity(),
                take == (if orig.total() - orig.inserted() < orig.capacity() {
                    orig.total() - orig.inserted()
                } else {
                    orig.capacity() as int
                }),
                take >= 1,
                self.batch.contents().len() == made,
                forall|i: int|
                    0 <= i < self.batch.contents().len() ==> (#[trigger] self.batch.contents()[i]).valid(
                        orig.window(),
                    ),
            decreases take - made,
        {
            match generate_invoice(rng, self.window) {
                Ok(inv) => {
                    self.batch.push(inv);
                    made = made + 1;
                },
                Err(e) => {
                    self.phase = Phase::Failed;
                    return Err(e);
                },
            }
        }
        self.phase = Phase::AwaitingFlush;
        let cols = columns_of(self.batch.records());
        Ok(cols)
    }

    /// Records that the store accepted the outstanding batch: its
    /// records count as inserted, the buffer is reset, and the run is
    /// done exactly when every requested record is in.
    pub fn flush_succeeded(&mut self)
        requires
            old(self).wf(),
            old(self).phase() is AwaitingFlush,
        ensures
            final(self).wf(),
            final(self).total() == old(self).total(),
            final(self).capacity() == old(self).capacity(),
            final(self).window() == old(self).window(),
            final(self).inserted() == old(self).inserted() + old(self).pending().len(),
            final(self).flushes() == old(self).flushes() + 1,
            final(self).pending().len() == 0,
            final(self).phase() == (if old(self).inserted() + old(self).pending().len() == old(
                self,
            ).total() {
                Phase::Done
            } else {
                Phase::Ready
            }),
    {
        let ghost f = self.flushes as int;
        let ghost c = self.batch.cap() as int;
        let ghost m = self.batch.contents().len() as int;
        let ghost t = self.total as int;
        let size = self.batch.len();
        proof {
            assert(f <= f * c) by (nonlinear_arith)
                requires
                    c >= 1,
                    f >= 0,
            ;
        }
        self.inserted = self.inserted + size;
        self.flushes = self.flushes + 1;
        self.batch.clear();
        proof {
            assert((f + 1) * c == f * c + c) by (nonlinear_arith);
        }
        if self.inserted == self.total {
            self.phase = Phase::Done;
            proof {
                assert(t + c - 1 == (f + 1) * c + (m - 1));
                lemma_fundamental_div_mod_converse_div(t + c - 1, c, f + 1, m - 1);
            }
        } else {
            self.phase = Phase::Ready;
        }
    }

    /// Records that the store rejected the outstanding batch.  The run
    /// halts: the batch's records do not count as inserted, and no
    /// further generation is possible.
    pub fn flush_failed(&mut self)
        requires
            old(self).wf(),
            old(self).phase() is AwaitingFlush,
        ensures
            final(self).wf(),
            final(self).total() == old(self).total(),
            final(self).capacity() == old(self).capacity(),
            final(self).window() == old(self).window(),
            final(self).inserted() == old(self).inserted(),
            final(self).flushes() == old(self).flushes(),
            final(self).phase() is Failed,
    {
        self.phase = Phase::Failed;
    }

    /// The report of a successfully finished run: every requested record
    /// was inserted, in exactly `ceil(total / capacity)` flushes.
    pub fn summary(&self) -> (s: Summary)
        requires
            self.wf(),
            self.phase() is Done,
        ensures
            s.inserted == self.total(),
            s.flushes == num_flushes(self.total() as int, self.capacity() as int),
    {
        Summary { inserted: self.inserted, flushes: self.flushes }
    }
}

} // verus!
