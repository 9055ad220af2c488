use vstd::prelude::*;

use crate::locks::{guard_mut, lock_blocking, mutex_get_mut, new_mutex};
use crate::refs::{RefInner, RefMutInner};

verus! {

/// Owns a value and lets closures work on it one at a time: each closure
/// gets the only reference to the value until it returns.
#[verifier::reject_recursive_types(I)]
pub struct Actor<I> {
    inner: async_lock::Mutex<I>,
    /// The value the actor was made with.
    initial: Ghost<I>,
}

impl<I> Actor<I> {
    /// The value the actor was made with. Closures change the value inside
    /// the lock through `&self`, so this records its start only.
    pub closed spec fn initial(&self) -> I {
        self.initial@
    }

    /// An actor around `x`, with no closure admitted yet.
    pub fn new(x: I) -> (r: Actor<I>)
        ensures
            r.initial() == x,
    {
        let initial = Ghost(x);
        Actor { inner: new_mutex(x), initial }
    }

    /// The mutex that holds the value; an asynchronous caller awaits it and
    /// keeps the guard for the whole of its closure.
    pub fn lock(&self) -> (r: &async_lock::Mutex<I>) {
        &self.inner
    }

    /// Runs `call` on the value once no other closure holds it, and returns
    /// what `call` returned.
    pub fn sync_call<R, F: FnOnce(RefMutInner<'_, I>) -> R>(&self, call: F) -> (r: R)
        requires
            forall|s: RefMutInner<'_, I>| call.requires((s,)),
        ensures
            exists|s: RefMutInner<'_, I>| call.ensures((s,), r),
    {
        let mut guard = lock_blocking(&self.inner);
        let s = RefMutInner::new(guard_mut(&mut guard));
        call(s)
    }

    /// A view of the value between calls: the exclusive borrow of the actor
    /// shows that no closure runs while the view lives.
    pub fn deref_inner(&mut self) -> (r: RefInner<'_, I>) {
        RefInner::new(mutex_get_mut(&mut self.inner))
    }
}

impl<I: Default> Default for Actor<I> {
    /// An actor around `I::default()`.
    fn default() -> (r: Actor<I>)
        ensures
            call_ensures(I::default, (), r.initial()),
    {
        Actor::new(I::default())
    }
}

} // verus!
