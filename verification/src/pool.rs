//! The bounded worker pool that pipeline stages fan out onto.
//!
//! The pool is a fixed set of execution slots. A turn's outermost pipeline
//! job occupies one slot while it waits on child jobs it submits to the same
//! pool, so a pool with a single slot would deadlock against itself. The pool
//! therefore always exposes one usable slot more than the configured worker
//! count, and never fewer than two.

use vstd::prelude::*;

verus! {

/// A bounded executor, modeled by its slot discipline: how many slots it
/// offers and how many are currently free. Submitting a job acquires a slot;
/// a completed job releases it.
pub struct WorkerPool {
    workers: usize,
    free: usize,
}

impl WorkerPool {
    /// How many jobs can run at once: one more than the configured worker
    /// count, so that a job that submits nested jobs always leaves room.
    pub closed spec fn slot_count(&self) -> int {
        self.workers + 1
    }

    /// How many slots no running job currently occupies.
    pub closed spec fn free_slots(&self) -> int {
        self.free as int
    }

    pub closed spec fn wf(&self) -> bool {
        &&& 1 <= self.workers < usize::MAX
        &&& self.free <= self.slot_count()
    }

    /// Build a pool for `workers` configured workers. A request for zero
    /// workers is raised to one: the pool must never be sized so that a job
    /// waiting on its own nested submissions can hold the only slot.
    pub fn new(workers: usize) -> (p: WorkerPool)
        requires
            workers < usize::MAX,
        ensures
            p.wf(),
            workers >= 1 ==> p.slot_count() == workers + 1,
            p.slot_count() >= 2,
            p.free_slots() == p.slot_count(),
    {
        let w = if workers == 0 { 1 } else { workers };
        WorkerPool { workers: w, free: w + 1 }
    }

    /// Number of usable execution slots.
    pub fn usable_slots(&self) -> (n: usize)
        requires
            self.wf(),
        ensures
            n == self.slot_count(),
    {
        self.workers + 1
    }

    /// Number of slots currently free.
    pub fn available_slots(&self) -> (n: usize)
        requires
            self.wf(),
        ensures
            n == self.free_slots(),
    {
        self.free
    }

    /// Whether no submitted job is running: every slot is free.
    pub fn is_idle(&self) -> (r: bool)
        requires
            self.wf(),
        ensures
            r == (self.free_slots() == self.slot_count()),
    {
        self.free == self.workers + 1
    }

    /// Submit one unit of work: the job takes a free slot and holds it until
    /// `release_slot`. The submitter blocks only while no slot is free, which
    /// the precondition rules out.
    pub fn acquire_slot(&mut self)
        requires
            old(self).wf(),
            old(self).free_slots() >= 1,
        ensures
            final(self).wf(),
            final(self).slot_count() == old(self).slot_count(),
            final(self).free_slots() == old(self).free_slots() - 1,
    {
        self.free = self.free - 1;
    }

    /// A submitted job finished: its slot becomes free again.
    pub fn release_slot(&mut self)
        requires
            old(self).wf(),
            old(self).free_slots() < old(self).slot_count(),
        ensures
            final(self).wf(),
            final(self).slot_count() == old(self).slot_count(),
            final(self).free_slots() == old(self).free_slots() + 1,
    {
        self.free = self.free + 1;
    }
}

/// A well-formed pool offers at least two usable slots.
pub proof fn lemma_pool_min_slots(p: WorkerPool)
    requires
        p.wf(),
    ensures
        p.slot_count() >= 2,
{
}

/// Law: the pool can always serve a nested submission. When the outermost
/// pipeline job holds one slot and every other slot is free, at least one
/// slot remains for the child jobs it submits, whatever worker count the
/// pool was configured with.
pub proof fn lemma_pool_avoids_self_deadlock(p: WorkerPool)
    requires
        p.wf(),
        p.free_slots() == p.slot_count() - 1,
    ensures
        p.free_slots() >= 1,
{
}

} // verus!
