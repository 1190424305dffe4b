//! A parent lock built on `std::sync::Mutex`, and the children attached to it.
//!
//! Holding a [`MutexKey`] means holding the parent's mutex, so one key at a
//! time exists for each family. That key opens every child of the family,
//! for reading and for writing.
use std::sync::{Arc, Mutex, MutexGuard, PoisonError, RwLock, RwLockReadGuard, RwLockWriteGuard};
use vstd::prelude::*;

use crate::cell::{cell_get_mut, cell_into_inner, cell_new, cell_read, cell_write, poison_into_inner};
use crate::{ExclusiveKey, Key, ParentLock, ParentMarker, ShareParent};

verus! {

#[verifier::external_type_specification]
#[verifier::external_body]
#[verifier::reject_recursive_types(T)]
pub struct ExMutex<T: ?Sized>(Mutex<T>);

#[verifier::external_type_specification]
#[verifier::external_body]
#[verifier::reject_recursive_types(T)]
pub struct ExMutexGuard<'a, T: ?Sized + 'a>(MutexGuard<'a, T>);

/// Calls `Mutex::new(())`: an unlocked mutex that guards nothing.
#[verifier::external_body]
fn mutex_new() -> Mutex<()> {
    Mutex::new(())
}

/// Calls `std::hint::spin_loop`, which only tells the processor that the
/// thread is waiting for another one; it changes nothing the contracts see.
#[verifier::external_body]
fn spin_hint() {
    std::hint::spin_loop()
}

/// Calls `Mutex::try_lock`, which does not wait. `None` stands for
/// `TryLockError::WouldBlock`, `Some(Err(..))` for `TryLockError::Poisoned`.
/// Which one comes back depends on other threads, so it is left open.
#[verifier::external_body]
fn mutex_try_lock(lock: &Mutex<()>) -> Option<
    Result<MutexGuard<'_, ()>, PoisonError<MutexGuard<'_, ()>>>,
> {
    match lock.try_lock() {
        Ok(guard) => Some(Ok(guard)),
        Err(std::sync::TryLockError::Poisoned(poisoned)) => Some(Err(poisoned)),
        Err(std::sync::TryLockError::WouldBlock) => None,
    }
}

/// Calls `Mutex::is_poisoned`. The flag depends on what other threads did,
/// so nothing is promised of it.
#[verifier::external_body]
fn mutex_is_poisoned(lock: &Mutex<()>) -> bool {
    lock.is_poisoned()
}

/// Calls `Mutex::clear_poison`.
#[verifier::external_body]
fn mutex_clear_poison(lock: &Mutex<()>) {
    lock.clear_poison()
}

/// A parent lock that guards no data of its own: holding its mutex is what
/// a key is.
pub struct ParentMutex {
    lock: Mutex<()>,
    marker: ParentMarker,
}

/// A key that opens every child of one [`ParentMutex`] family, for reading
/// and for writing. It holds the parent's mutex until it is dropped.
#[derive(Debug)]
pub struct MutexKey<'a> {
    guard: MutexGuard<'a, ()>,
    marker: &'a ParentMarker,
}

/// The parent mutex was poisoned: a thread panicked while it held the key.
/// The key was taken all the same and is inside.
#[derive(Debug)]
pub struct KeyPoisonError<K> {
    key: K,
}

/// Why [`ParentMutex::try_key`] gave no key.
#[derive(Debug)]
pub enum TryKeyError<K> {
    /// The key was taken, but the parent mutex was poisoned.
    Poisoned(KeyPoisonError<K>),
    /// Another thread holds the key.
    WouldBlock,
}

impl<K> KeyPoisonError<K> {
    /// The key inside the error.
    pub closed spec fn inner(&self) -> K {
        self.key
    }

    /// Wraps a key taken from a poisoned parent.
    pub fn new(key: K) -> (e: Self)
        ensures
            e.inner() == key,
    {
        KeyPoisonError { key }
    }

    /// The key inside the error.
    pub fn into_inner(self) -> (k: K)
        ensures
            k == self.inner(),
    {
        self.key
    }

    /// A reference to the key inside the error.
    pub fn get_ref(&self) -> (k: &K)
        ensures
            *k == self.inner(),
    {
        &self.key
    }
}

impl<'a> MutexKey<'a> {
    /// The family this key opens.
    pub closed spec fn family(&self) -> usize {
        self.marker.id()
    }
}

impl<'a> Key for MutexKey<'a> {
    open spec fn key_family(&self) -> usize {
        self.family()
    }

    fn parent_marker(&self) -> (m: &ParentMarker) {
        self.marker
    }
}

impl<'a> ExclusiveKey for MutexKey<'a> {

}

impl ParentMutex {
    /// The family of this parent.
    pub closed spec fn id(&self) -> usize {
        self.marker.id()
    }

    /// A new, unlocked parent mutex, heading a family of its own.
    pub fn new() -> (p: Self)
        ensures
            p.id() != 0,
    {
        ParentMutex { lock: mutex_new(), marker: ParentMarker::new() }
    }

    /// Turns the outcome of locking the parent mutex into a key: the guard
    /// goes into a key of this family, and a poisoned outcome stays poisoned.
    ///
    /// The guard must be one of this parent's mutex: a key made from the
    /// guard of another mutex is a second key of the family, and children
    /// then refuse accesses that it would make overlap.
    pub fn key_from_lock<'a>(
        &'a self,
        locked: Result<MutexGuard<'a, ()>, PoisonError<MutexGuard<'a, ()>>>,
    ) -> (r: Result<MutexKey<'a>, KeyPoisonError<MutexKey<'a>>>)
        ensures
            r is Ok <==> locked is Ok,
            r matches Ok(k) ==> k.family() == self.id(),
            r matches Err(e) ==> e.inner().family() == self.id(),
    {
        let marker = &self.marker;
        match locked {
            Ok(guard) => Ok(MutexKey { guard, marker }),
            Err(poisoned) => Err(KeyPoisonError::new(MutexKey { guard: poison_into_inner(poisoned), marker })),
        }
    }

    /// Turns the outcome of trying the parent mutex into a key: a busy mutex
    /// (`None`) gives `WouldBlock`, a poisoned one a key inside `Poisoned`.
    /// As with [`key_from_lock`](Self::key_from_lock), a guard must be one
    /// of this parent's mutex.
    pub fn key_from_attempt<'a>(
        &'a self,
        attempt: Option<Result<MutexGuard<'a, ()>, PoisonError<MutexGuard<'a, ()>>>>,
    ) -> (r: Result<MutexKey<'a>, TryKeyError<MutexKey<'a>>>)
        ensures
            r is Ok <==> attempt matches Some(Ok(_)),
            r matches Err(TryKeyError::WouldBlock) <==> attempt is None,
            r matches Ok(k) ==> k.family() == self.id(),
            r matches Err(TryKeyError::Poisoned(e)) ==> e.inner().family() == self.id(),
    {
        match attempt {
            None => Err(TryKeyError::WouldBlock),
            Some(locked) => match self.key_from_lock(locked) {
                Ok(key) => Ok(key),
                Err(poisoned) => Err(TryKeyError::Poisoned(poisoned)),
            },
        }
    }

    /// Takes the parent mutex, waiting as long as another holder has the
    /// key, and gives the key of this family. It waits by trying the mutex
    /// again and again, so it never blocks inside the mutex; after
    /// `u64::MAX` refused tries it gives up with `WouldBlock`. A thread that
    /// already holds the key waits that long.
    ///
    /// The result is `Poisoned` when the mutex is poisoned; the error still
    /// holds the key.
    pub fn key(&self) -> (r: Result<MutexKey<'_>, TryKeyError<MutexKey<'_>>>)
        ensures
            r matches Ok(k) ==> k.family() == self.id(),
            r matches Err(TryKeyError::Poisoned(e)) ==> e.inner().family() == self.id(),
    {
        let mut tries: u64 = 0;
        loop
            decreases u64::MAX - tries,
        {
            match self.wait_step(mutex_try_lock(&self.lock), tries) {
                Some(outcome) => return outcome,
                None => {
                    spin_hint();
                    tries = tries + 1;
                },
            }
        }
    }

    /// One round of waiting for the key: what [`key`](Self::key) does with
    /// the outcome of its try number `tries` (counted from 0). A refused try
    /// (`None`) below the last one means try again (`None`); the last
    /// refused try, number `u64::MAX`, gives `WouldBlock`; a granted or
    /// poisoned try ends the wait with the key, as
    /// [`key_from_attempt`](Self::key_from_attempt) maps it.
    pub fn wait_step<'a>(
        &'a self,
        attempt: Option<Result<MutexGuard<'a, ()>, PoisonError<MutexGuard<'a, ()>>>>,
        tries: u64,
    ) -> (r: Option<Result<MutexKey<'a>, TryKeyError<MutexKey<'a>>>>)
        ensures
            r is None <==> attempt is None && tries < u64::MAX,
            r matches Some(Err(TryKeyError::WouldBlock)) <==> attempt is None && tries
                == u64::MAX,
            r matches Some(Ok(k)) <==> attempt matches Some(Ok(_)),
            r matches Some(Err(TryKeyError::Poisoned(_))) <==> attempt matches Some(Err(_)),
            r matches Some(Ok(k)) ==> k.family() == self.id(),
            r matches Some(Err(TryKeyError::Poisoned(e))) ==> e.inner().family() == self.id(),
    {
        if attempt.is_none() && tries < u64::MAX {
            None
        } else {
            Some(self.key_from_attempt(attempt))
        }
    }

    /// Tries to lock the parent mutex without waiting.
    ///
    /// The result is `WouldBlock` when another holder has the key, and
    /// `Poisoned` (with the key inside) when the mutex is poisoned.
    pub fn try_key(&self) -> (r: Result<MutexKey<'_>, TryKeyError<MutexKey<'_>>>)
        ensures
            r matches Ok(k) ==> k.family() == self.id(),
            r matches Err(TryKeyError::Poisoned(e)) ==> e.inner().family() == self.id(),
    {
        self.key_from_attempt(mutex_try_lock(&self.lock))
    }

    /// Whether a thread panicked while it held the key.
    pub fn is_poisoned(&self) -> bool {
        mutex_is_poisoned(&self.lock)
    }

    /// Clears the poison flag of the parent mutex.
    pub fn clear_poison(&self) {
        mutex_clear_poison(&self.lock)
    }
}

impl Default for ParentMutex {
    fn default() -> (p: Self)
        ensures
            p.id() != 0,
    {
        ParentMutex::new()
    }
}

impl ParentLock for ParentMutex {
    open spec fn family(&self) -> usize {
        self.id()
    }

    fn marker(&self) -> (m: &ParentMarker) {
        &self.marker
    }
}

/// A handle through which a child reaches its [`ParentMutex`]: the parent
/// itself, a reference to it, a `Box` or an `Arc`.
pub trait MutexHandle: ParentLock {
    /// The parent mutex behind the handle.
    fn parent_mutex(&self) -> (p: &ParentMutex)
        ensures
            p.id() == self.family(),
    ;
}

impl MutexHandle for ParentMutex {
    fn parent_mutex(&self) -> (p: &ParentMutex) {
        self
    }
}

impl<'p> MutexHandle for &'p ParentMutex {
    fn parent_mutex(&self) -> (p: &ParentMutex) {
        *self
    }
}

impl MutexHandle for Box<ParentMutex> {
    fn parent_mutex(&self) -> (p: &ParentMutex) {
        &**self
    }
}

impl MutexHandle for Arc<ParentMutex> {
    fn parent_mutex(&self) -> (p: &ParentMutex) {
        &**self
    }
}

/// A child mutex: data that is reached through the key of its parent's
/// family, or through exclusive ownership of the child itself.
#[verifier::reject_recursive_types(T)]
pub struct ChildMutex<T, M: MutexHandle> {
    parent: M,
    data: RwLock<T>,
}

/// A child mutex that borrows its parent.
pub type RefChildMutex<'p, T> = ChildMutex<T, &'p ParentMutex>;

/// A child mutex that shares its parent through an `Arc`.
pub type ArcChildMutex<T> = ChildMutex<T, Arc<ParentMutex>>;

/// A key was handed to a child of another family.
#[derive(Debug)]
pub struct MismatchingMutexKeyError {
    key_parent: usize,
    child_parent: usize,
}

impl MismatchingMutexKeyError {
    /// The family of the key.
    pub closed spec fn key_family(&self) -> usize {
        self.key_parent
    }

    /// The family of the child.
    pub closed spec fn child_family(&self) -> usize {
        self.child_parent
    }

    /// The family of the key.
    pub fn key_parent(&self) -> (r: usize)
        ensures
            r == self.key_family(),
    {
        self.key_parent
    }

    /// The family of the child.
    pub fn child_parent(&self) -> (r: usize)
        ensures
            r == self.child_family(),
    {
        self.child_parent
    }
}

impl<T, M: MutexHandle> ChildMutex<T, M> {
    /// The family this child belongs to.
    pub open spec fn family(&self) -> usize {
        self.parent_handle().family()
    }

    /// The handle through which this child reaches its parent.
    pub closed spec fn parent_handle(&self) -> M {
        self.parent
    }

    /// A new child of the parent behind `lock`, holding `data`.
    pub fn new(data: T, lock: M) -> (r: Self)
        ensures
            r.parent_handle() == lock,
            r.family() == lock.family(),
    {
        ChildMutex { parent: lock, data: cell_new(data) }
    }

    /// The data, taken out of the child. No key is needed: owning the
    /// child means nobody else can reach it.
    pub fn into_inner(self) -> T {
        cell_into_inner(self.data)
    }

    /// The handle through which this child reaches its parent.
    pub fn parent(&self) -> (r: &M)
        ensures
            *r == self.parent_handle(),
    {
        &self.parent
    }

    /// Takes the parent mutex, waiting as long as another holder has the
    /// key; the same as [`ParentMutex::key`] on the parent.
    pub fn key(&self) -> (r: Result<MutexKey<'_>, TryKeyError<MutexKey<'_>>>)
        ensures
            r matches Ok(k) ==> k.family() == self.family(),
            r matches Err(TryKeyError::Poisoned(e)) ==> e.inner().family() == self.family(),
    {
        self.parent.parent_mutex().key()
    }

    /// Tries to lock the parent mutex without waiting; the same as
    /// [`ParentMutex::try_key`] on the parent.
    pub fn try_key(&self) -> (r: Result<MutexKey<'_>, TryKeyError<MutexKey<'_>>>)
        ensures
            r matches Ok(k) ==> k.family() == self.family(),
            r matches Err(TryKeyError::Poisoned(e)) ==> e.inner().family() == self.family(),
    {
        self.parent.parent_mutex().try_key()
    }

    /// Shared access to the data with the key of this child's family.
    /// The child and the key stay borrowed while the access lives.
    ///
    /// Gives `None` instead of waiting when the data is held for writing,
    /// and also for a key of another family (callers that are verified
    /// cannot pass one).
    pub fn read<'a>(&'a self, key: &'a MutexKey<'_>) -> Option<RwLockReadGuard<'a, T>>
        requires
            key.family() == self.family(),
    {
        if key.marker.family() != self.parent.marker().family() {
            return None;
        }
        cell_read(&self.data)
    }

    /// Shared access to the data as [`read`](Self::read) gives it, or the
    /// error that says the key belongs to another family.
    pub fn try_read<'a>(&'a self, key: &'a MutexKey<'_>) -> (r: Result<
        Option<RwLockReadGuard<'a, T>>,
        MismatchingMutexKeyError,
    >)
        ensures
            r is Ok <==> key.family() == self.family(),
            r matches Err(e) ==> e.key_family() == key.family() && e.child_family()
                == self.family(),
    {
        let child_parent = self.parent.marker().family();
        let key_parent = key.marker.family();
        if key_parent != child_parent {
            return Err(MismatchingMutexKeyError { key_parent, child_parent });
        }
        Ok(self.read(key))
    }

    /// Exclusive access to the data with the key of this child's family.
    /// The child and the key stay borrowed while the access lives.
    ///
    /// Gives `None` instead of waiting when the data is held elsewhere,
    /// and also for a key of another family (callers that are verified
    /// cannot pass one).
    pub fn write<'a>(&'a self, key: &'a mut MutexKey<'_>) -> (r: Option<RwLockWriteGuard<'a, T>>)
        requires
            old(key).family() == self.family(),
        ensures
            final(key).family() == old(key).family(),
    {
        if key.marker.family() != self.parent.marker().family() {
            return None;
        }
        cell_write(&self.data)
    }

    /// Exclusive access to the data as [`write`](Self::write) gives it, or
    /// the error that says the key belongs to another family.
    pub fn try_write<'a>(&'a self, key: &'a mut MutexKey<'_>) -> (r: Result<
        Option<RwLockWriteGuard<'a, T>>,
        MismatchingMutexKeyError,
    >)
        ensures
            r is Ok <==> old(key).family() == self.family(),
            r matches Err(e) ==> e.key_family() == old(key).family() && e.child_family()
                == self.family(),
            final(key).family() == old(key).family(),
    {
        let child_parent = self.parent.marker().family();
        let key_parent = key.marker.family();
        if key_parent != child_parent {
            return Err(MismatchingMutexKeyError { key_parent, child_parent });
        }
        Ok(self.write(key))
    }

    /// Exclusive access to the data without a key: the exclusive borrow of
    /// the child already rules out every other access.
    pub fn get_mut(&mut self) -> (r: &mut T)
        ensures
            final(self).parent_handle() == old(self).parent_handle(),
            final(self).family() == old(self).family(),
    {
        cell_get_mut(&mut self.data)
    }

    /// A new child with the same parent as this one, holding `data`.
    pub fn new_sibling<U>(&self, data: U) -> (r: ChildMutex<U, M>) where M: ShareParent
        ensures
            r.parent_handle() == self.parent_handle(),
            r.family() == self.family(),
    {
        ChildMutex::new(data, self.parent.share())
    }
}

/// A key taken from a parent opens every child that borrows that parent.
pub proof fn parent_key_opens_child<'p, T>(
    parent: &'p ParentMutex,
    child: RefChildMutex<'p, T>,
    key: MutexKey,
)
    requires
        child.parent_handle() == parent,
        key.family() == parent.id(),
    ensures
        key.family() == child.family(),
{
}

/// A key taken from a parent opens every child that shares that parent
/// through an `Arc`.
pub proof fn arc_parent_key_opens_child<T>(
    parent: Arc<ParentMutex>,
    child: ArcChildMutex<T>,
    key: MutexKey,
)
    requires
        child.parent_handle() == parent,
        key.family() == parent.id(),
    ensures
        key.family() == child.family(),
{
}

/// Keys are interchangeable within a family: the key that opens one child
/// opens every child of the same family, and no child of another family.
pub proof fn key_opens_whole_family<T, U, M: MutexHandle, N: MutexHandle>(
    first: ChildMutex<T, M>,
    second: ChildMutex<U, N>,
    key: MutexKey,
)
    requires
        key.family() == first.family(),
    ensures
        key.family() == second.family() <==> second.family() == first.family(),
{
}

} // verus!
