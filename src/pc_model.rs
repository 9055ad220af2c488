use vstd::prelude::*;

use crate::inner_store::InnerStore;
use crate::semaphore::SemaphoreQueue;

verus! {

/// Owns a value and lets at most `limit` closures read it at the same time
/// (the number of permits its queue was made with).
pub struct PCModel<I> {
    inner: InnerStore<I>,
    queue: SemaphoreQueue,
}

impl<I> View for PCModel<I> {
    type V = I;

    /// The value the model owns.
    closed spec fn view(&self) -> I {
        self.inner@
    }
}

impl<I> PCModel<I> {
    /// The number of permits the model's queue was made with.
    pub closed spec fn spec_limit(&self) -> usize {
        self.queue.spec_limit()
    }

    pub fn new(inner: I, n: usize) -> (r: Self)
        ensures
            r@ == inner,
            r.spec_limit() == n,
    {
        PCModel { inner: InnerStore::new(inner), queue: SemaphoreQueue::new(n) }
    }

    pub fn inner(&self) -> (r: &I)
        ensures
            *r == self@,
    {
        self.inner.get()
    }

    pub fn limit(&self) -> (r: usize)
        ensures
            r == self.spec_limit(),
    {
        self.queue.limit()
    }

    /// The queue that admits closures; an asynchronous caller awaits its
    /// semaphore.
    pub fn queue(&self) -> (r: &SemaphoreQueue)
        ensures
            r.spec_limit() == self.spec_limit(),
    {
        &self.queue
    }

    /// Runs `call` on the value once the queue hands it a permit, and
    /// returns what `call` returned.
    pub fn sync_call<R, F: FnOnce(&I) -> R>(&self, call: F) -> (r: R)
        requires
            self.spec_limit() > 0,
            call.requires((&self@,)),
        ensures
            call.ensures((&self@,), r),
    {
        self.queue.sync_run(call, self.inner.get())
    }
}

} // verus!
