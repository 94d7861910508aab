//! The synchronization primitives the application container stands on: one
//! mutual-exclusion lock around the whole application state, and a
//! write-once cell for the window handle.
//!
//! What sits behind the lock at any moment is invisible to the verifier:
//! other lock holders may have changed it between two acquisitions. The
//! wrappers therefore promise nothing about the values they move in and out;
//! every property of the data itself is stated on the functions that operate
//! on it while it is held exclusively.

use vstd::prelude::*;

verus! {

#[verifier::external_type_specification]
#[verifier::external_body]
pub struct ExRawMutex(parking_lot::RawMutex);

#[verifier::external_type_specification]
#[verifier::external_body]
#[verifier::reject_recursive_types(R)]
#[verifier::reject_recursive_types(T)]
pub struct ExMutex<R, T: ?Sized>(lock_api::Mutex<R, T>);

/// A held lock on the shared application slot. Wraps the lock guard, whose
/// own type Verus refuses to declare; dropping it releases the lock.
#[verifier::external_body]
#[verifier::reject_recursive_types(T)]
pub struct SlotGuard<'a, T> {
    inner: parking_lot::MutexGuard<'a, Option<T>>,
}

#[verifier::external_type_specification]
#[verifier::external_body]
#[verifier::reject_recursive_types(T)]
pub struct ExOnceCell<T>(once_cell::sync::OnceCell<T>);

/// Relies on parking_lot's Mutex::new: a new unlocked mutex holding `value`.
#[verifier::external_body]
pub fn mutex_new<T>(value: T) -> parking_lot::Mutex<T> {
    parking_lot::Mutex::new(value)
}

/// Relies on lock_api's Mutex::lock: blocks until no other thread holds the
/// lock, then grants exclusive access to the data until the guard drops.
#[verifier::external_body]
pub fn mutex_lock<'a, T>(m: &'a parking_lot::Mutex<Option<T>>) -> SlotGuard<'a, T> {
    SlotGuard { inner: m.lock() }
}

/// Relies on lock_api's DerefMut for MutexGuard, and on Option::take: moves
/// the value out from behind the held lock, leaving `None` there.
#[verifier::external_body]
pub fn guard_take<'a, T>(g: &mut SlotGuard<'a, T>) -> Option<T> {
    g.inner.take()
}

/// Relies on lock_api's DerefMut for MutexGuard: stores a value behind the
/// held lock.
#[verifier::external_body]
pub fn guard_store<'a, T>(g: &mut SlotGuard<'a, T>, value: Option<T>) {
    *g.inner = value;
}

/// Relies on once_cell's OnceCell::new: a new empty cell.
#[verifier::external_body]
pub fn cell_new<T>() -> once_cell::sync::OnceCell<T> {
    once_cell::sync::OnceCell::new()
}

/// Relies on once_cell's OnceCell::set: stores the value and reports true if
/// the cell was empty; reports false and keeps the old value if some call
/// already set it.
#[verifier::external_body]
pub fn cell_set<T>(cell: &once_cell::sync::OnceCell<T>, value: T) -> bool {
    match cell.set(value) {
        Ok(()) => true,
        Err(_) => false,
    }
}

/// Relies on once_cell's OnceCell::get: whether the cell holds a value yet.
#[verifier::external_body]
pub fn cell_is_set<T>(cell: &once_cell::sync::OnceCell<T>) -> bool {
    cell.get().is_some()
}

} // verus!
