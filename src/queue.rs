use vstd::prelude::*;

use crate::locks::{lock_blocking, new_mutex};

verus! {

/// An exclusive execution queue: closures submitted through one queue run
/// one at a time, in the order in which they were admitted.
pub struct AQueue {
    lock: async_lock::Mutex<()>,
}

impl AQueue {
    pub fn new() -> (r: AQueue) {
        AQueue { lock: new_mutex(()) }
    }

    /// The mutex that admits closures; an asynchronous caller awaits it.
    pub fn lock(&self) -> (r: &async_lock::Mutex<()>) {
        &self.lock
    }

    /// Runs `call(arg)` once the queue admits it, holding the admission
    /// until the closure returns; returns what the closure returned.
    pub fn sync_run<A, R, F: FnOnce(A) -> R>(&self, call: F, arg: A) -> (r: R)
        requires
            call.requires((arg,)),
        ensures
            call.ensures((arg,), r),
    {
        let _guard = lock_blocking(&self.lock);
        call(arg)
    }
}

impl Default for AQueue {
    fn default() -> (r: AQueue) {
        AQueue::new()
    }
}

} // verus!
