use vstd::prelude::*;

use crate::locks::{acquire_blocking, new_semaphore, permits_made};

verus! {

/// The number of parallel admissions of a queue made by `default`.
pub const DEFAULT_LIMIT: usize = 5;

/// A bounded-concurrency queue: a submitted closure runs only while it holds
/// one of the semaphore's permits, so at most `limit` run at the same time
/// unless permits are added to the semaphore.
pub struct SemaphoreQueue {
    semaphore: async_lock::Semaphore,
    limit: usize,
}

impl SemaphoreQueue {
    /// The number of permits the queue's semaphore was made with.
    pub closed spec fn spec_limit(&self) -> usize {
        self.limit
    }

    #[verifier::type_invariant]
    spec fn inv(&self) -> bool {
        permits_made(self.semaphore) == self.limit
    }

    pub fn new(n: usize) -> (r: SemaphoreQueue)
        ensures
            r.spec_limit() == n,
    {
        SemaphoreQueue { semaphore: new_semaphore(n), limit: n }
    }

    pub fn limit(&self) -> (r: usize)
        ensures
            r == self.spec_limit(),
    {
        self.limit
    }

    /// The semaphore that hands out permits; an asynchronous caller awaits it.
    pub fn semaphore(&self) -> (r: &async_lock::Semaphore) {
        &self.semaphore
    }

    /// Runs `call(arg)` once a permit is free, holding it until the closure
    /// returns; returns what the closure returned. A queue made with no
    /// permit never admits anything, hence the bound.
    pub fn sync_run<A, R, F: FnOnce(A) -> R>(&self, call: F, arg: A) -> (r: R)
        requires
            self.spec_limit() > 0,
            call.requires((arg,)),
        ensures
            call.ensures((arg,), r),
    {
        proof {
            use_type_invariant(self);
        }
        let _guard = acquire_blocking(&self.semaphore);
        call(arg)
    }
}

impl Default for SemaphoreQueue {
    fn default() -> (r: SemaphoreQueue)
        ensures
            r.spec_limit() == DEFAULT_LIMIT,
    {
        SemaphoreQueue::new(DEFAULT_LIMIT)
    }
}

} // verus!
