//! The lock primitives of `async_lock` as this library uses them.
//!
//! Each function here makes one call into `async_lock`; the contracts say
//! only what that crate's source shows.
use vstd::prelude::*;

verus! {

#[verifier::external_type_specification]
#[verifier::external_body]
#[verifier::reject_recursive_types(T)]
pub struct ExMutex<T: ?Sized>(async_lock::Mutex<T>);

#[verifier::external_type_specification]
#[verifier::external_body]
#[verifier::reject_recursive_types(T)]
pub struct ExMutexGuard<'a, T: ?Sized>(async_lock::MutexGuard<'a, T>);

/// Relies on `async_lock::Mutex::new`: an unlocked mutex around `data`.
#[verifier::external_body]
pub(crate) fn new_mutex<T>(data: T) -> (r: async_lock::Mutex<T>) {
    async_lock::Mutex::new(data)
}

/// Relies on `async_lock::Mutex::lock_blocking`: blocks the thread until the
/// mutex is acquired; the mutex is released when the guard is dropped.
#[verifier::external_body]
pub(crate) fn lock_blocking<T>(m: &async_lock::Mutex<T>) -> (r: async_lock::MutexGuard<'_, T>) {
    m.lock_blocking()
}

/// Relies on `DerefMut` for `async_lock::MutexGuard`: the value behind the
/// acquired mutex.
#[verifier::external_body]
pub(crate) fn guard_mut<'a, 'b, T>(g: &'a mut async_lock::MutexGuard<'b, T>) -> (r: &'a mut T) {
    &mut **g
}

/// Relies on `async_lock::Mutex::get_mut`: the value inside the mutex,
/// reached through an exclusive borrow without locking.
#[verifier::external_body]
pub(crate) fn mutex_get_mut<T>(m: &mut async_lock::Mutex<T>) -> (r: &mut T) {
    m.get_mut()
}

#[verifier::external_type_specification]
#[verifier::external_body]
#[verifier::reject_recursive_types(T)]
pub struct ExRwLock<T: ?Sized>(async_lock::RwLock<T>);

#[verifier::external_type_specification]
#[verifier::external_body]
#[verifier::reject_recursive_types(T)]
pub struct ExRwLockReadGuard<'a, T: ?Sized>(async_lock::RwLockReadGuard<'a, T>);

#[verifier::external_type_specification]
#[verifier::external_body]
#[verifier::reject_recursive_types(T)]
pub struct ExRwLockWriteGuard<'a, T: ?Sized>(async_lock::RwLockWriteGuard<'a, T>);

/// Relies on `async_lock::RwLock::new`: an unlocked reader/writer lock
/// around `data`.
#[verifier::external_body]
pub(crate) fn new_rwlock<T>(data: T) -> (r: async_lock::RwLock<T>) {
    async_lock::RwLock::new(data)
}

/// Relies on `async_lock::RwLock::read_blocking`: blocks the thread until a
/// read admission is granted; it is released when the guard is dropped.
#[verifier::external_body]
pub(crate) fn read_blocking<T>(l: &async_lock::RwLock<T>) -> (r: async_lock::RwLockReadGuard<'_, T>) {
    l.read_blocking()
}

/// Relies on `Deref` for `async_lock::RwLockReadGuard`: the value behind the
/// read admission.
#[verifier::external_body]
pub(crate) fn read_guard_ref<'a, 'b, T>(g: &'a async_lock::RwLockReadGuard<'b, T>) -> (r: &'a T) {
    &**g
}

/// Relies on `async_lock::RwLock::write_blocking`: blocks the thread until
/// the write admission is granted, with no reader or other writer admitted;
/// it is released when the guard is dropped.
#[verifier::external_body]
pub(crate) fn write_blocking<T>(l: &async_lock::RwLock<T>) -> (r: async_lock::RwLockWriteGuard<'_, T>) {
    l.write_blocking()
}

/// Relies on `DerefMut` for `async_lock::RwLockWriteGuard`: the value behind
/// the write admission.
#[verifier::external_body]
pub(crate) fn write_guard_mut<'a, 'b, T>(g: &'a mut async_lock::RwLockWriteGuard<'b, T>) -> (r: &'a mut T) {
    &mut **g
}

/// Relies on `async_lock::RwLock::get_mut`: the value inside the lock,
/// reached through an exclusive borrow without locking.
#[verifier::external_body]
pub(crate) fn rwlock_get_mut<T>(l: &mut async_lock::RwLock<T>) -> (r: &mut T) {
    l.get_mut()
}

#[verifier::external_type_specification]
#[verifier::external_body]
pub struct ExSemaphore(async_lock::Semaphore);

#[verifier::external_type_specification]
#[verifier::external_body]
pub struct ExSemaphoreGuard<'a>(async_lock::SemaphoreGuard<'a>);

/// The number of permits a semaphore was made with.
pub uninterp spec fn permits_made(s: async_lock::Semaphore) -> usize;

/// Relies on `async_lock::Semaphore::new`: a semaphore made with `n` permits.
#[verifier::external_body]
pub(crate) fn new_semaphore(n: usize) -> (r: async_lock::Semaphore)
    ensures
        permits_made(r) == n,
{
    async_lock::Semaphore::new(n)
}

/// Relies on `async_lock::Semaphore::acquire_blocking`: blocks the thread
/// until a permit is free; the permit returns when the guard is dropped. A
/// semaphore made with no permit never frees one, so the call never returns.
#[verifier::external_body]
pub(crate) fn acquire_blocking(s: &async_lock::Semaphore) -> (r: async_lock::SemaphoreGuard<'_>)
    requires
        permits_made(*s) > 0,
{
    s.acquire_blocking()
}

} // verus!
