//! Child locks that are unlocked with a key from a shared parent lock.
//!
//! A family is one parent lock and any number of child locks. A key taken
//! from the parent opens every child of the family, shared keys for
//! reading, exclusive keys for writing. Each child checks that the key it
//! is handed comes from its own parent. A child keeps its data in a lock
//! of its own that is only ever tried, never waited on.
use std::sync::{Arc, RwLock, RwLockReadGuard, RwLockWriteGuard};
use vstd::prelude::*;

mod cell;
pub mod mutex;

use crate::cell::{cell_get_mut, cell_into_inner, cell_new, cell_read, cell_write};

verus! {

/// The identity of a family. Every parent lock owns one marker, and keys
/// carry a reference to the marker of the parent they came from.
///
/// The identity is the address of a small allocation that the marker owns,
/// so it stays the same when the marker moves. That two live markers have
/// different addresses is the allocator's doing; the contracts do not state it.
#[derive(Debug)]
pub struct ParentMarker {
    anchor: Box<u8>,
    id: usize,
}

/// Calls `std::ptr::from_ref` on the anchor and reads the address as an
/// integer. A reference is never null, so the address is not zero; which
/// address it is depends on the allocator and is not promised.
#[verifier::external_body]
fn anchor_address(anchor: &Box<u8>) -> (r: usize)
    ensures
        r != 0,
{
    std::ptr::from_ref::<u8>(anchor) as usize
}

impl ParentMarker {
    /// The family this marker stands for.
    pub closed spec fn id(&self) -> usize {
        self.id
    }

    /// A marker for a new family.
    pub fn new() -> (m: ParentMarker)
        ensures
            m.id() != 0,
    {
        let anchor = Box::new(0u8);
        let id = anchor_address(&anchor);
        ParentMarker { anchor, id }
    }

    /// The family this marker stands for.
    pub fn family(&self) -> (r: usize)
        ensures
            r == self.id(),
    {
        self.id
    }
}

impl Default for ParentMarker {
    fn default() -> (m: ParentMarker)
        ensures
            m.id() != 0,
    {
        ParentMarker::new()
    }
}

/// A parent lock that child locks can be attached to.
pub trait ParentLock {
    /// The family of this parent.
    spec fn family(&self) -> usize;

    /// The marker of this parent.
    fn marker(&self) -> (m: &ParentMarker)
        ensures
            m.id() == self.family(),
    ;
}

impl<'p, P: ParentLock> ParentLock for &'p P {
    open spec fn family(&self) -> usize {
        (**self).family()
    }

    fn marker(&self) -> (m: &ParentMarker) {
        (**self).marker()
    }
}

impl<P: ParentLock> ParentLock for Box<P> {
    open spec fn family(&self) -> usize {
        (**self).family()
    }

    fn marker(&self) -> (m: &ParentMarker) {
        (**self).marker()
    }
}

impl<P: ParentLock> ParentLock for Arc<P> {
    open spec fn family(&self) -> usize {
        (**self).family()
    }

    fn marker(&self) -> (m: &ParentMarker) {
        (**self).marker()
    }
}

/// A parent handle that can be shared between siblings.
pub trait ShareParent: ParentLock + Sized {
    /// Another handle to the same parent.
    fn share(&self) -> (r: Self)
        ensures
            r == *self,
            r.family() == self.family(),
    ;
}

/// Calls `Arc::clone`, which gives another pointer to the same allocation,
/// so the clone reaches the same value.
#[verifier::external_body]
fn arc_clone<P>(handle: &Arc<P>) -> (r: Arc<P>)
    ensures
        r == *handle,
{
    Arc::clone(handle)
}

impl<'p, P: ParentLock> ShareParent for &'p P {
    fn share(&self) -> (r: Self) {
        *self
    }
}

impl<P: ParentLock> ShareParent for Arc<P> {
    fn share(&self) -> (r: Self) {
        arc_clone(self)
    }
}

/// A key that opens the children of one family for reading.
pub trait Key {
    /// The family the key came from.
    spec fn key_family(&self) -> usize;

    /// The marker of the parent the key came from.
    fn parent_marker(&self) -> (m: &ParentMarker)
        ensures
            m.id() == self.key_family(),
    ;
}

/// A key that opens the children of one family for writing. While one
/// exists for a family, no other key of that family does.
pub trait ExclusiveKey: Key {

}

/// A child lock: data that is reached only through a key of its parent's
/// family, or through exclusive ownership of the child itself.
#[verifier::reject_recursive_types(T)]
pub struct ChildLock<T, M: ParentLock> {
    pub parent: M,
    data: RwLock<T>,
}

/// A key was handed to a child of another family.
#[derive(Debug)]
pub struct MismatchingKeyError<'a, 'b> {
    key_parent: &'a ParentMarker,
    child_parent: &'b ParentMarker,
}

impl<'a, 'b> MismatchingKeyError<'a, 'b> {
    /// The family of the key.
    pub closed spec fn key_family(&self) -> usize {
        self.key_parent.id()
    }

    /// The family of the child.
    pub closed spec fn child_family(&self) -> usize {
        self.child_parent.id()
    }

    /// The marker of the parent the key came from.
    pub fn key_parent(&self) -> (m: &'a ParentMarker)
        ensures
            m.id() == self.key_family(),
    {
        self.key_parent
    }

    /// The marker of the child's parent.
    pub fn child_parent(&self) -> (m: &'b ParentMarker)
        ensures
            m.id() == self.child_family(),
    {
        self.child_parent
    }
}

/// Whether `key` opens a child whose parent belongs to `family`.
pub open spec fn opens<K: Key>(key: &K, family: usize) -> bool {
    key.key_family() == family
}

impl<T, M: ParentLock> ChildLock<T, M> {
    /// The family this child belongs to.
    pub open spec fn family(&self) -> usize {
        self.parent_handle().family()
    }

    /// The handle through which this child reaches its parent.
    pub closed spec fn parent_handle(&self) -> M {
        self.parent
    }

    /// A new child of `parent` holding `data`.
    pub fn new(data: T, parent: M) -> (r: Self)
        ensures
            r.parent_handle() == parent,
            r.family() == parent.family(),
    {
        ChildLock { parent, data: cell_new(data) }
    }

    /// The data, taken out of the child. No key is needed: owning the
    /// child means nobody else can reach it.
    pub fn into_inner(self) -> T {
        cell_into_inner(self.data)
    }

    /// Shared access to the data with a key of this child's family.
    /// The child and the key stay borrowed while the access lives.
    ///
    /// Gives `None` instead of waiting when the data is held for writing,
    /// and also for a key of another family (callers that are verified
    /// cannot pass one).
    pub fn read<'a, K: Key>(&'a self, key: &'a K) -> Option<RwLockReadGuard<'a, T>>
        requires
            opens(key, self.family()),
    {
        if key.parent_marker().family() != self.parent.marker().family() {
            return None;
        }
        cell_read(&self.data)
    }

    /// Shared access to the data as [`read`](Self::read) gives it, or the
    /// error that says the key belongs to another family.
    pub fn try_read<'a, K: Key>(&'a self, key: &'a K) -> (r: Result<
        Option<RwLockReadGuard<'a, T>>,
        MismatchingKeyError<'a, 'a>,
    >)
        ensures
            r is Ok <==> opens(key, self.family()),
            r matches Err(e) ==> e.key_family() == key.key_family() && e.child_family()
                == self.family(),
    {
        let child_parent = self.parent.marker();
        let key_parent = key.parent_marker();
        if key_parent.family() != child_parent.family() {
            return Err(MismatchingKeyError { key_parent, child_parent });
        }
        Ok(self.read(key))
    }

    /// Exclusive access to the data with an exclusive key of this child's
    /// family. The child and the key stay borrowed while the access lives.
    ///
    /// Gives `None` instead of waiting when the data is held elsewhere,
    /// and also for a key of another family (callers that are verified
    /// cannot pass one).
    pub fn write<'a, K: ExclusiveKey>(&'a self, key: &'a mut K) -> (r: Option<RwLockWriteGuard<'a, T>>)
        requires
            opens(old(key), self.family()),
        ensures
            final(key).key_family() == old(key).key_family(),
    {
        if key.parent_marker().family() != self.parent.marker().family() {
            return None;
        }
        cell_write(&self.data)
    }

    /// Exclusive access to the data as [`write`](Self::write) gives it, or
    /// the error that says the key belongs to another family.
    pub fn try_write<'a, K: ExclusiveKey>(&'a self, key: &'a mut K) -> (r: Result<
        Option<RwLockWriteGuard<'a, T>>,
        MismatchingKeyError<'a, 'a>,
    >)
        ensures
            r is Ok <==> opens(old(key), self.family()),
            r matches Err(e) ==> e.key_family() == old(key).key_family() && e.child_family()
                == self.family(),
            final(key).key_family() == old(key).key_family(),
    {
        let child_parent = self.parent.marker();
        let key_parent = key.parent_marker();
        if key_parent.family() != child_parent.family() {
            return Err(MismatchingKeyError { key_parent, child_parent });
        }
        Ok(cell_write(&self.data))
    }

    /// Exclusive access to the data without a key: the exclusive borrow of
    /// the child already rules out every other access.
    pub fn get_mut(&mut self) -> (r: &mut T)
        ensures
            final(self).parent_handle() == old(self).parent_handle(),
            final(self).family() == old(self).family(),
    {
        cell_get_mut(&mut self.data)
    }

    /// A new child with the same parent as this one, holding `data`.
    pub fn new_sibling<U>(&self, data: U) -> (r: ChildLock<U, M>) where M: ShareParent
        ensures
            r.parent_handle() == self.parent_handle(),
            r.family() == self.family(),
    {
        ChildLock::new(data, self.parent.share())
    }
}

/// A key taken from a parent opens every child that borrows that parent.
pub proof fn parent_key_opens_child<'p, T, P: ParentLock, K: Key>(
    parent: &'p P,
    child: ChildLock<T, &'p P>,
    key: K,
)
    requires
        child.parent_handle() == parent,
        key.key_family() == parent.family(),
    ensures
        opens(&key, child.family()),
{
}

/// A key taken from a parent opens every child that shares that parent
/// through an `Arc`.
pub proof fn arc_parent_key_opens_child<T, P: ParentLock, K: Key>(
    parent: Arc<P>,
    child: ChildLock<T, Arc<P>>,
    key: K,
)
    requires
        child.parent_handle() == parent,
        key.key_family() == parent.family(),
    ensures
        opens(&key, child.family()),
{
}

/// Keys are interchangeable within a family: a key that opens one child
/// opens every child of the same family, and no child of another family.
pub proof fn key_opens_whole_family<T, U, M: ParentLock, N: ParentLock, K: Key>(
    first: ChildLock<T, M>,
    second: ChildLock<U, N>,
    key: K,
)
    requires
        opens(&key, first.family()),
    ensures
        opens(&key, second.family()) <==> second.family() == first.family(),
{
}

} // verus!
