//! The worker pool: how many units run, that they are started once, and what
//! one unit does each time it wakes.

use crate::codec::{conversion_outcome, convert};
use crate::job::OutcomeView;
use crate::store::{after_claim, after_complete, has_waiting, is_waiting, valid_store, JobStore};
use vstd::prelude::*;

verus! {

/// The number of worker units of a pool made by [`WorkerPool::with_default_size`].
pub const DEFAULT_POOL_SIZE: usize = 64;

/// The seconds a worker unit sleeps before it looks for work again.
pub const POLL_INTERVAL_SECS: u64 = 1;

/// A pool of worker units of a fixed size, started with the first submission.
pub struct WorkerPool {
    size: usize,
    started: bool,
}

/// The mathematical value of a [`WorkerPool`].
pub struct PoolView {
    pub size: nat,
    pub started: bool,
}

impl View for WorkerPool {
    type V = PoolView;

    closed spec fn view(&self) -> PoolView {
        PoolView { size: self.size as nat, started: self.started }
    }
}

/// The units that a call to start the pool asks for: all of them the first
/// time, none after.
pub open spec fn units_to_start(pool: PoolView) -> nat {
    if pool.started {
        0
    } else {
        pool.size
    }
}

/// The pool after a call to start it.
pub open spec fn after_start(pool: PoolView) -> PoolView {
    PoolView { started: true, ..pool }
}

impl WorkerPool {
    /// A pool of `size` units, none of them running yet.
    pub fn new(size: usize) -> (pool: WorkerPool)
        ensures
            pool@ == (PoolView { size: size as nat, started: false }),
    {
        WorkerPool { size, started: false }
    }

    /// A pool of [`DEFAULT_POOL_SIZE`] units, none of them running yet.
    pub fn with_default_size() -> (pool: WorkerPool)
        ensures
            pool@ == (PoolView { size: DEFAULT_POOL_SIZE as nat, started: false }),
    {
        WorkerPool::new(DEFAULT_POOL_SIZE)
    }

    /// The number of units of this pool.
    pub fn size(&self) -> (n: usize)
        ensures
            n == self@.size,
    {
        self.size
    }

    /// Whether the pool's units have been asked for.
    pub fn is_started(&self) -> (b: bool)
        ensures
            b == self@.started,
    {
        self.started
    }

    /// Marks the pool as started and says how many units the caller has to
    /// launch now: the pool's size on the first call, zero on every later one.
    pub fn start(&mut self) -> (units: usize)
        ensures
            units == units_to_start(old(self)@),
            final(self)@ == after_start(old(self)@),
    {
        if self.started {
            0
        } else {
            self.started = true;
            self.size
        }
    }
}

/// One round of a worker unit: claims a waiting job if there is one, converts
/// its image and writes the outcome back. Returns the identifier of the job it
/// worked on.
pub fn process_next(store: &mut JobStore) -> (done: Option<String>)
    ensures
        done is Some <==> has_waiting(old(store)@),
        done is None ==> final(store)@ == old(store)@,
        done matches Some(id) ==> {
            &&& is_waiting(old(store)@, id@)
            &&& final(store)@.contains_key(id@)
            &&& final(store)@[id@].status.is_terminal()
            &&& exists|outcome: OutcomeView|
                {
                    &&& conversion_outcome(old(store)@[id@].payload, outcome)
                    &&& final(store)@ == #[trigger] after_complete(
                        after_claim(old(store)@, id@),
                        id@,
                        outcome,
                    )
                }
        },
        valid_store(final(store)@),
{
    match store.claim_next_waiting() {
        None => None,
        Some(job) => {
            let id = job.id;
            let outcome = convert(job.payload);
            let ghost reached = outcome@;
            let _ = store.complete(id.as_str(), outcome);
            proof {
                assert(store@ == after_complete(after_claim(old(store)@, id@), id@, reached));
            }
            Some(id)
        },
    }
}

} // verus!
