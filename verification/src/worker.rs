//! The persistent-worker pool: a registry of long-lived local worker
//! processes, keyed by the worker key a command declares.

use vstd::prelude::*;

verus! {

/// Registry of live persistent workers. Launching the worker process itself
/// is outside work; the pool records which worker keys have one.
pub struct WorkerPool {
    workers: Vec<u64>,
}

impl WorkerPool {
    /// The keys that currently have a live worker.
    pub closed spec fn spec_workers(self) -> Seq<u64> {
        self.workers@
    }

    /// A worker with this key is registered.
    pub open spec fn spec_has_worker(self, key: u64) -> bool {
        self.spec_workers().contains(key)
    }

    /// The pool's invariant: each key is registered at most once.
    pub closed spec fn wf(self) -> bool {
        forall|i: int, j: int|
            0 <= i < j < self.workers@.len() ==> self.workers@[i] != self.workers@[j]
    }

    /// An empty pool.
    pub fn new() -> (r: WorkerPool)
        ensures
            r.wf(),
            r.spec_workers().len() == 0,
    {
        WorkerPool { workers: Vec::new() }
    }

    /// Whether a worker with this key is registered.
    pub fn has_worker(&self, key: u64) -> (r: bool)
        ensures
            r == self.spec_has_worker(key),
    {
        let mut i: usize = 0;
        while i < self.workers.len()
            invariant
                i <= self.workers@.len(),
                forall|j: int| 0 <= j < i ==> self.workers@[j] != key,
            decreases self.workers@.len() - i,
        {
            if self.workers[i] == key {
                return true;
            }
            i = i + 1;
        }
        false
    }

    /// Register a worker for this key if none is registered yet. Returns
    /// whether a new worker has to be launched: exactly when the key had no
    /// worker before. Either way the key has a worker afterwards, and no
    /// other key is affected.
    pub fn get_or_launch(&mut self, key: u64) -> (launched: bool)
        requires
            old(self).wf(),
        ensures
            final(self).wf(),
            launched == !old(self).spec_has_worker(key),
            final(self).spec_has_worker(key),
            final(self).spec_workers() == if old(self).spec_has_worker(key) {
                old(self).spec_workers()
            } else {
                old(self).spec_workers().push(key)
            },
    {
        if self.has_worker(key) {
            false
        } else {
            self.workers.push(key);
            proof {
                assert(self.spec_workers()[self.spec_workers().len() - 1] == key);
            }
            true
        }
    }
}

} // verus!
