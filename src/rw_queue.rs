use vstd::prelude::*;

use crate::locks::{new_rwlock, read_blocking, write_blocking};
use crate::refs::RefMutInner;

verus! {

/// A reader/writer execution queue: any number of read admissions may
/// overlap, while a write admission excludes every other admission.
pub struct RwQueue {
    lock: async_lock::RwLock<()>,
}

impl RwQueue {
    pub fn new() -> (r: RwQueue) {
        RwQueue { lock: new_rwlock(()) }
    }

    /// The lock that admits closures; an asynchronous caller awaits it.
    pub fn lock(&self) -> (r: &async_lock::RwLock<()>) {
        &self.lock
    }

    /// Runs `call(arg)` under a write admission, held until the closure
    /// returns; returns what the closure returned.
    pub fn sync_write_run<'a, A, R, F: FnOnce(RefMutInner<'a, A>) -> R>(
        &self,
        call: F,
        arg: RefMutInner<'a, A>,
    ) -> (r: R)
        requires
            call.requires((arg,)),
        ensures
            call.ensures((arg,), r),
    {
        let _guard = write_blocking(&self.lock);
        call(arg)
    }

    /// Runs `call(arg)` under a read admission, held until the closure
    /// returns; returns what the closure returned.
    pub fn sync_read_run<A, R, F: FnOnce(A) -> R>(&self, call: F, arg: A) -> (r: R)
        requires
            call.requires((arg,)),
        ensures
            call.ensures((arg,), r),
    {
        let _guard = read_blocking(&self.lock);
        call(arg)
    }
}

impl Default for RwQueue {
    fn default() -> (r: RwQueue) {
        RwQueue::new()
    }
}

} // verus!
