use child_lock::mutex::{
    ArcChildMutex, ChildMutex, KeyPoisonError, ParentMutex, RefChildMutex, TryKeyError,
};
use child_lock::{ChildLock, Key, ParentLock, ParentMarker};
use std::sync::Arc;

#[test]
fn child_lock_reads_with_parent_key() {
    let parent = ParentMutex::new();
    let child_a = ChildLock::new(5, &parent);
    let child_b = ChildLock::new("foo", &parent);
    let key = parent.key().unwrap();
    assert_eq!(*child_a.read(&key).unwrap(), 5);
    assert_eq!(*child_b.read(&key).unwrap(), "foo");
}

#[test]
fn child_lock_write_then_read() {
    let parent = Arc::new(ParentMutex::new());
    let child = ChildLock::new(5, parent.clone());
    drop(parent);
    let mut key = child.parent.key().unwrap();
    *child.write(&mut key).unwrap() = 10;
    assert_eq!(*child.read(&key).unwrap(), 10);
}

#[test]
fn child_lock_try_read_wrong_family() {
    let parent = ParentMutex::new();
    let impostor = ParentMutex::new();
    let child = ChildLock::new(5, &parent);
    let key = impostor.key().unwrap();
    let err = child.try_read(&key).unwrap_err();
    assert_eq!(err.key_parent().family(), impostor.marker().family());
    assert_eq!(err.child_parent().family(), parent.marker().family());
    assert_ne!(err.key_parent().family(), err.child_parent().family());
}

#[test]
fn child_lock_try_write_wrong_family() {
    let parent = ParentMutex::new();
    let impostor = ParentMutex::new();
    let child = ChildLock::new(5, &parent);
    let mut key = impostor.key().unwrap();
    assert!(child.try_write(&mut key).is_err());
    drop(key);
    let mut key = parent.key().unwrap();
    *child.try_write(&mut key).unwrap().unwrap() = 7;
    assert_eq!(*child.try_read(&key).unwrap().unwrap(), 7);
}

#[test]
fn child_lock_sibling_shares_key() {
    let parent = Arc::new(ParentMutex::new());
    let child = ChildLock::new(1, parent.clone());
    let sibling = child.new_sibling("two");
    let key = parent.key().unwrap();
    assert_eq!(*child.read(&key).unwrap(), 1);
    assert_eq!(*sibling.read(&key).unwrap(), "two");
    assert!(sibling.try_read(&key).is_ok());
}

#[test]
fn child_lock_owned_parent_get_mut_and_into_inner() {
    let mut child = ChildLock::new(String::from("a"), Box::new(ParentMutex::new()));
    child.get_mut().push('b');
    {
        let key = child.parent.key().unwrap();
        assert_eq!(child.read(&key).unwrap().as_str(), "ab");
    }
    assert_eq!(child.into_inner(), "ab");
}

#[test]
fn key_opens_no_other_family() {
    let first = ParentMutex::new();
    let second = ParentMutex::new();
    assert_ne!(first.marker().family(), second.marker().family());
    let key = first.key().unwrap();
    assert_eq!(key.parent_marker().family(), first.marker().family());
    let child = ChildMutex::new(3, &second);
    let err = child.try_read(&key).unwrap_err();
    assert_eq!(err.key_parent(), first.marker().family());
    assert_eq!(err.child_parent(), second.marker().family());
}

#[test]
fn try_write_right_and_wrong_key() {
    let parent = ParentMutex::new();
    let impostor = ParentMutex::new();
    let child: RefChildMutex<'_, i32> = ChildMutex::new(1, &parent);
    {
        let mut wrong = impostor.key().unwrap();
        let err = child.try_write(&mut wrong).unwrap_err();
        assert_eq!(err.key_parent(), impostor.marker().family());
        assert_eq!(err.child_parent(), parent.marker().family());
    }
    let mut key = child.key().unwrap();
    *child.try_write(&mut key).unwrap().unwrap() += 41;
    assert_eq!(*child.try_read(&key).unwrap().unwrap(), 42);
}

#[test]
fn try_key_would_block_while_key_is_held() {
    let parent = ParentMutex::new();
    let child = ChildMutex::new(0u8, &parent);
    let key = parent.try_key().unwrap();
    assert!(matches!(parent.try_key(), Err(TryKeyError::WouldBlock)));
    assert!(matches!(child.try_key(), Err(TryKeyError::WouldBlock)));
    drop(key);
    let key = child.try_key().unwrap();
    assert_eq!(*child.read(&key).unwrap(), 0);
}

#[test]
fn fresh_parent_is_not_poisoned() {
    let parent = ParentMutex::default();
    assert!(!parent.is_poisoned());
    parent.clear_poison();
    assert!(!parent.is_poisoned());
}

#[test]
fn key_poison_error_wraps_the_key() {
    let parent = ParentMutex::new();
    let key = parent.key().unwrap();
    let wrapped = KeyPoisonError::new(key);
    assert_eq!(wrapped.get_ref().parent_marker().family(), parent.marker().family());
    let key = wrapped.into_inner();
    assert_eq!(key.parent_marker().family(), parent.marker().family());
}

#[test]
fn child_mutex_get_mut_into_inner_and_parent() {
    let parent = Arc::new(ParentMutex::new());
    let mut child: ArcChildMutex<Vec<u8>> = ChildMutex::new(vec![1, 2], parent.clone());
    child.get_mut().push(3);
    assert_eq!(child.parent().marker().family(), parent.marker().family());
    {
        let key = child.key().unwrap();
        assert_eq!(*child.read(&key).unwrap(), vec![1, 2, 3]);
    }
    assert_eq!(child.into_inner(), vec![1, 2, 3]);
}

#[test]
fn markers_are_distinct() {
    let a = ParentMarker::new();
    let b = ParentMarker::default();
    assert_ne!(a.family(), b.family());
    let moved = a;
    let before = moved.family();
    let boxed = Box::new(moved);
    assert_eq!(boxed.family(), before);
}

#[test]
fn family_survives_moves_of_an_owned_parent() {
    let child = ChildMutex::new(4, ParentMutex::new());
    let before = child.parent().marker().family();
    let moved = child;
    assert_eq!(moved.parent().marker().family(), before);
    let key = moved.key().unwrap();
    assert_eq!(*moved.read(&key).unwrap(), 4);
}

#[test]
fn two_reads_of_one_child_at_once() {
    let parent = ParentMutex::new();
    let child = ChildMutex::new(8, &parent);
    let key = parent.key().unwrap();
    let first = child.read(&key).unwrap();
    let second = child.read(&key).unwrap();
    assert_eq!(*first + *second, 16);
}

#[test]
fn read_after_write_guard_is_gone() {
    let parent = ParentMutex::new();
    let child = ChildLock::new(vec![1u8], &parent);
    let mut key = parent.key().unwrap();
    {
        let mut guard = child.write(&mut key).unwrap();
        guard.push(2);
    }
    assert_eq!(*child.read(&key).unwrap(), vec![1, 2]);
    assert!(child.try_write(&mut key).unwrap().is_some());
}

#[test]
fn sibling_keeps_the_parent_handle() {
    let parent = ParentMutex::new();
    let child = ChildMutex::new(1, &parent);
    let sibling = child.new_sibling(2);
    assert!(std::ptr::eq(*child.parent(), *sibling.parent()));
}

#[test]
fn busy_attempt_maps_to_would_block() {
    let parent = ParentMutex::new();
    assert!(matches!(parent.key_from_attempt(None), Err(TryKeyError::WouldBlock)));
}

#[test]
fn wrong_family_read_and_write_give_none() {
    let parent = ParentMutex::new();
    let impostor = ParentMutex::new();
    let child = ChildMutex::new(5, &parent);
    let lock_child = ChildLock::new(6, &parent);
    let mut key = impostor.key().unwrap();
    assert!(child.read(&key).is_none());
    assert!(lock_child.read(&key).is_none());
    assert!(child.write(&mut key).is_none());
    assert!(lock_child.write(&mut key).is_none());
}

#[test]
fn key_waits_only_when_busy() {
    let parent = ParentMutex::new();
    let key = parent.key().unwrap();
    assert_eq!(key.parent_marker().family(), parent.marker().family());
    drop(key);
    assert!(parent.key().is_ok());
}

#[test]
fn lock_outcomes_map_to_keys_of_the_family() {
    let parent = ParentMutex::new();
    let stand_in = std::sync::Mutex::new(());
    let key = parent.key_from_lock(Ok(stand_in.lock().unwrap())).unwrap();
    assert_eq!(key.parent_marker().family(), parent.marker().family());
    drop(key);
    let poisoned = std::sync::PoisonError::new(stand_in.lock().unwrap());
    let err = parent.key_from_lock(Err(poisoned)).unwrap_err();
    assert_eq!(err.get_ref().parent_marker().family(), parent.marker().family());
    drop(err);
    let poisoned = std::sync::PoisonError::new(stand_in.lock().unwrap());
    match parent.key_from_attempt(Some(Err(poisoned))) {
        Err(TryKeyError::Poisoned(e)) => {
            assert_eq!(e.into_inner().parent_marker().family(), parent.marker().family())
        }
        _ => panic!("a poisoned attempt should stay poisoned"),
    };
}
