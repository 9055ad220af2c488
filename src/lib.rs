//! Serialised access to shared state: exclusive, reader/writer and
//! bounded-parallel disciplines built on the primitives of `async_lock`.
//!
//! The blocking entry points (`sync_run`, `sync_call`, ...) take their
//! admission from an `async_lock` primitive, keep its guard while the closure
//! runs, and are verified to hand back what the closure returned and to
//! leave in the borrowed state what the closure wrote there. That the lock
//! excludes other closures is `async_lock`'s part, not proved here.
//! Asynchronous callers reach the same locks through the `lock` and
//! `semaphore` accessors.

pub mod actor;
pub mod inner_store;
mod locks;
pub mod model;
pub mod pc_model;
pub mod queue;
pub mod refs;
pub mod rw_queue;
pub mod semaphore;

pub use actor::Actor;
pub use inner_store::InnerStore;
pub use model::RwModel;
pub use pc_model::PCModel;
pub use queue::AQueue;
pub use refs::{RefInner, RefMutInner};
pub use rw_queue::RwQueue;
pub use semaphore::SemaphoreQueue;
