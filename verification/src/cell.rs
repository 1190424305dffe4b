//! The storage cell behind every child lock.
//!
//! The cell is a `std::sync::RwLock` that is only ever tried, never waited
//! on. Every access goes through a key: shared access through a shared
//! borrow of the key, exclusive access through an exclusive borrow of an
//! exclusive key. A try is refused when the cell is held in a way that
//! conflicts, for instance by a guard that was leaked, or by a second key
//! of the family that a `Key` implementation should not have handed out;
//! the access then gives `None`. Whatever the keys do, the lock keeps the
//! data from being aliased.
use std::sync::{PoisonError, RwLock, RwLockReadGuard, RwLockWriteGuard};
use vstd::prelude::*;

verus! {

#[verifier::external_type_specification]
#[verifier::external_body]
#[verifier::reject_recursive_types(T)]
pub struct ExRwLock<T: ?Sized>(RwLock<T>);

#[verifier::external_type_specification]
#[verifier::external_body]
#[verifier::reject_recursive_types(T)]
pub struct ExRwLockReadGuard<'a, T: ?Sized>(RwLockReadGuard<'a, T>);

#[verifier::external_type_specification]
#[verifier::external_body]
#[verifier::reject_recursive_types(T)]
pub struct ExRwLockWriteGuard<'a, T: ?Sized + 'a>(RwLockWriteGuard<'a, T>);

#[verifier::external_type_specification]
#[verifier::external_body]
#[verifier::reject_recursive_types(T)]
pub struct ExPoisonError<T>(PoisonError<T>);

/// Calls `RwLock::new`. The cell holds `value`; what a cell holds is not
/// modelled, so nothing is promised of the result.
#[verifier::external_body]
pub(crate) fn cell_new<T>(value: T) -> RwLock<T> {
    RwLock::new(value)
}

/// Calls `RwLock::try_read`, which never waits. `None` stands for
/// `TryLockError::WouldBlock`, `Some(Err(..))` for `TryLockError::Poisoned`.
/// Which one comes back depends on the other holders of the cell, so it is
/// left open.
#[verifier::external_body]
fn cell_try_read_raw<T>(cell: &RwLock<T>) -> Option<
    Result<RwLockReadGuard<'_, T>, PoisonError<RwLockReadGuard<'_, T>>>,
> {
    match cell.try_read() {
        Ok(guard) => Some(Ok(guard)),
        Err(std::sync::TryLockError::Poisoned(poisoned)) => Some(Err(poisoned)),
        Err(std::sync::TryLockError::WouldBlock) => None,
    }
}

/// Calls `RwLock::try_write`, which never waits. `None` stands for
/// `TryLockError::WouldBlock`, `Some(Err(..))` for `TryLockError::Poisoned`.
/// Which one comes back depends on the other holders of the cell, so it is
/// left open.
#[verifier::external_body]
fn cell_try_write_raw<T>(cell: &RwLock<T>) -> Option<
    Result<RwLockWriteGuard<'_, T>, PoisonError<RwLockWriteGuard<'_, T>>>,
> {
    match cell.try_write() {
        Ok(guard) => Some(Ok(guard)),
        Err(std::sync::TryLockError::Poisoned(poisoned)) => Some(Err(poisoned)),
        Err(std::sync::TryLockError::WouldBlock) => None,
    }
}

/// Calls `RwLock::into_inner`, which gives back the value the cell holds.
/// Whether the cell was poisoned is left open.
#[verifier::external_body]
fn cell_into_inner_raw<T>(cell: RwLock<T>) -> Result<T, PoisonError<T>> {
    cell.into_inner()
}

/// Calls `RwLock::get_mut`, which lends the value the cell holds.
/// Whether the cell was poisoned is left open.
#[verifier::external_body]
fn cell_get_mut_raw<T>(cell: &mut RwLock<T>) -> Result<&mut T, PoisonError<&mut T>> {
    cell.get_mut()
}

/// Calls `PoisonError::into_inner`, which hands back the value the error
/// wraps (a guard or the data). The wrapped value is not modelled.
#[verifier::external_body]
pub(crate) fn poison_into_inner<G>(error: PoisonError<G>) -> G {
    error.into_inner()
}

/// The guard of a granted try, poisoned or not; `None` when the try was
/// refused because the cell was taken.
pub(crate) fn granted<G>(attempt: Option<Result<G, PoisonError<G>>>) -> (r: Option<G>)
    ensures
        r is Some <==> attempt is Some,
        attempt matches Some(Ok(guard)) ==> r == Some(guard),
{
    match attempt {
        Some(Ok(guard)) => Some(guard),
        Some(Err(poisoned)) => Some(poison_into_inner(poisoned)),
        None => None,
    }
}

/// Shared access to the cell, poisoned or not; `None` when the cell is held
/// for writing. Which one comes back depends on the other holders of the cell.
pub(crate) fn cell_read<T>(cell: &RwLock<T>) -> Option<RwLockReadGuard<'_, T>> {
    granted(cell_try_read_raw(cell))
}

/// Exclusive access to the cell, poisoned or not; `None` when the cell is
/// held by anyone else. Which one comes back depends on the other holders.
pub(crate) fn cell_write<T>(cell: &RwLock<T>) -> Option<RwLockWriteGuard<'_, T>> {
    granted(cell_try_write_raw(cell))
}

/// The value the cell holds, poisoned or not.
pub(crate) fn cell_into_inner<T>(cell: RwLock<T>) -> T {
    match cell_into_inner_raw(cell) {
        Ok(value) => value,
        Err(poisoned) => poison_into_inner(poisoned),
    }
}

/// A mutable borrow of the value the cell holds, poisoned or not.
pub(crate) fn cell_get_mut<T>(cell: &mut RwLock<T>) -> &mut T {
    match cell_get_mut_raw(cell) {
        Ok(value) => value,
        Err(poisoned) => poison_into_inner(poisoned),
    }
}

} // verus!
