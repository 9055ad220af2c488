use vstd::prelude::*;

use crate::locks::{new_rwlock, read_blocking, read_guard_ref, rwlock_get_mut, write_blocking, write_guard_mut};
use crate::refs::{RefInner, RefMutInner};

verus! {

/// Owns a value and lets closures read it together or write it alone: any
/// number of readers may hold it at once, a writer holds it by itself.
#[verifier::reject_recursive_types(I)]
pub struct RwModel<I> {
    inner: async_lock::RwLock<I>,
    /// The value the model was made with.
    initial: Ghost<I>,
}

impl<I> RwModel<I> {
    /// The value the model was made with. Closures change the value inside
    /// the lock through `&self`, so this records its start only.
    pub closed spec fn initial(&self) -> I {
        self.initial@
    }

    /// A model around `x`, with no closure admitted yet.
    pub fn new(x: I) -> (r: RwModel<I>)
        ensures
            r.initial() == x,
    {
        let initial = Ghost(x);
        RwModel { inner: new_rwlock(x), initial }
    }

    /// The lock that holds the value; an asynchronous caller awaits it and
    /// keeps the guard for the whole of its closure.
    pub fn lock(&self) -> (r: &async_lock::RwLock<I>) {
        &self.inner
    }

    /// Runs `call` on a shared reference to the value once no writer holds
    /// it, and returns what `call` returned.
    pub fn sync_call<R, F: FnOnce(&I) -> R>(&self, call: F) -> (r: R)
        requires
            forall|s: &I| call.requires((s,)),
        ensures
            exists|s: &I| call.ensures((s,), r),
    {
        let guard = read_blocking(&self.inner);
        call(read_guard_ref(&guard))
    }

    /// Runs `call` on the only reference to the value once no reader or
    /// writer holds it, and returns what `call` returned.
    pub fn sync_mut_call<R, F: FnOnce(RefMutInner<'_, I>) -> R>(&self, call: F) -> (r: R)
        requires
            forall|s: RefMutInner<'_, I>| call.requires((s,)),
        ensures
            exists|s: RefMutInner<'_, I>| call.ensures((s,), r),
    {
        let mut guard = write_blocking(&self.inner);
        let s = RefMutInner::new(write_guard_mut(&mut guard));
        call(s)
    }

    /// A view of the value between calls: the exclusive borrow of the model
    /// shows that no closure runs while the view lives.
    pub fn deref_inner(&mut self) -> (r: RefInner<'_, I>) {
        RefInner::new(rwlock_get_mut(&mut self.inner))
    }
}

impl<I: Default> Default for RwModel<I> {
    /// A model around `I::default()`.
    fn default() -> (r: RwModel<I>)
        ensures
            call_ensures(I::default, (), r.initial()),
    {
        RwModel::new(I::default())
    }
}

} // verus!
