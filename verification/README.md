# child_lock

Child locks that are opened with a key from a shared parent lock, verified
with Verus.

A family is one parent lock and any number of children. A key taken from the
parent opens every child of the family; each child checks that a key comes
from its own parent before it gives access.

## Layout

- `src/lib.rs`: `ParentMarker` (the identity of a family), the traits
  `ParentLock`, `ShareParent`, `Key` and `ExclusiveKey`, the generic
  `ChildLock`, `MismatchingKeyError`, and the proof functions that state how
  keys and families relate.
- `src/mutex.rs`: `ParentMutex`, a parent built on `std::sync::Mutex`, its
  `MutexKey`, the `KeyPoisonError`/`TryKeyError` results, `ChildMutex`,
  `MismatchingMutexKeyError`, and the same laws for this family.
- `src/cell.rs`: the cell that stores a child's data.

## Design

- A family's identity is an integer stored in its `ParentMarker`: the address
  of a small allocation the marker owns. It does not change when the marker
  moves, so every check is a comparison of two integers that the contracts
  speak of. That two live parents differ rests on the allocator and is not
  stated.
- A child's data sits in a `std::sync::RwLock` of its own that is only ever
  tried, never waited on, so no `unsafe` code is needed. A try is refused
  when the cell is already held in a conflicting way (a leaked guard, a key
  that breaks its family's rules); `read` and `write` then give `None`, as
  they do for a key of another family.
- `ParentMutex::key` waits for the key by trying the parent's mutex again
  and again rather than blocking in it.
- The contracts state the family rules: which key opens which child, what
  each error carries, how a poisoned or busy mutex turns into a result.
  What value a child holds is not stated: the data is generic and sits in a
  std lock that the contracts cannot look into.
