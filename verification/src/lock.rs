//! The import lock, and the guard that is known by the lock it was taken from.
//!
//! Nothing but [`try_lock`] makes an [`ImportGuard`], and no other module can take
//! one apart: the guard and its lock stay together.

use std::sync::Arc;

use vstd::prelude::*;

verus! {

/// tokio's asynchronous mutex. Nothing inside it is known.
#[verifier::external_type_specification]
#[verifier::external_body]
#[verifier::reject_recursive_types(T)]
pub struct ExMutex<T: ?Sized>(tokio::sync::Mutex<T>);

/// The guard that keeps a tokio mutex locked until it is dropped.
#[verifier::external_type_specification]
#[verifier::external_body]
#[verifier::reject_recursive_types(T)]
pub struct ExOwnedMutexGuard<T: ?Sized>(tokio::sync::OwnedMutexGuard<T>);

/// A fresh import lock, by `tokio::sync::Mutex::new`. Nothing is relied on.
#[verifier::external_body]
pub(crate) fn new_lock() -> (lock: Arc<tokio::sync::Mutex<()>>) {
    Arc::new(tokio::sync::Mutex::new(()))
}

/// A taken import lock: the guard that keeps it taken until it is dropped,
/// together with the lock that it is the guard of.
pub struct ImportGuard {
    lock: Arc<tokio::sync::Mutex<()>>,
    _guard: tokio::sync::OwnedMutexGuard<()>,
}

impl ImportGuard {
    /// The lock that is taken.
    pub closed spec fn lock(&self) -> Arc<tokio::sync::Mutex<()>> {
        self.lock
    }
}

/// Attempts `tokio::sync::Mutex::try_lock_owned`, which does not wait.
///
/// Relied on: a guard that comes back is one of this lock. Whether one comes back
/// depends on who else holds the lock.
#[verifier::external_body]
pub(crate) fn try_lock(lock: &Arc<tokio::sync::Mutex<()>>) -> (r: Option<ImportGuard>)
    ensures
        r matches Some(g) ==> g.lock() == *lock,
{
    match Arc::clone(lock).try_lock_owned() {
        Ok(guard) => Some(ImportGuard { lock: Arc::clone(lock), _guard: guard }),
        Err(_) => None,
    }
}

/// Whether `outcome` is what an attempt on `lock` came to. Nothing but an attempt
/// that was made tells so: neither a guard nor the lack of one does by itself.
pub closed spec fn attempted(
    lock: Arc<tokio::sync::Mutex<()>>,
    outcome: Option<ImportGuard>,
) -> bool {
    call_ensures(try_lock, (&lock,), outcome)
}

/// Attempts to take a lock, without waiting.
pub(crate) fn attempt(lock: &Arc<tokio::sync::Mutex<()>>) -> (r: Option<ImportGuard>)
    ensures
        attempted(*lock, r),
        r matches Some(g) ==> g.lock() == *lock,
{
    let tried = try_lock;
    tried(lock)
}

/// An outcome is told only by a call of tokio's `try_lock_owned` on the lock
/// itself, and a guard that it gave is one of that lock.
pub(crate) proof fn law_outcome_is_that_of_a_call(
    lock: Arc<tokio::sync::Mutex<()>>,
    outcome: Option<ImportGuard>,
)
    requires
        attempted(lock, outcome),
    ensures
        call_ensures(try_lock, (&lock,), outcome),
        outcome matches Some(g) ==> g.lock() == lock,
{
}

} // verus!
