use gallery_core::store::{EntityStore, Handle};
use gallery_core::CoreError;

#[test]
fn created_entities_read_back_their_values() {
    let mut store: EntityStore<u32> = EntityStore::new();
    let a = store.create(10);
    let b = store.create(20);
    assert_eq!(*store.read(a).unwrap(), 10);
    assert_eq!(*store.read(b).unwrap(), 20);
}

#[test]
fn unknown_handle_reads_not_found() {
    let store: EntityStore<u32> = EntityStore::new();
    assert_eq!(store.read(Handle { id: 7 }), Err(CoreError::NotFound));
}

#[test]
fn update_replaces_value_and_flags_dirty() {
    let mut store: EntityStore<u32> = EntityStore::new();
    let a = store.create(1);
    assert!(!store.is_flagged_dirty(a));
    store.update(a, 2).unwrap();
    assert_eq!(*store.read(a).unwrap(), 2);
    assert!(store.is_flagged_dirty(a));
}

#[test]
fn mutator_updates_apply_under_exclusive_access() {
    let mut store: EntityStore<u32> = EntityStore::new();
    let a = store.create(20);
    store.update_with(a, |v| v + 1).unwrap();
    assert_eq!(*store.read(a).unwrap(), 21);
    assert!(store.is_flagged_dirty(a));
    store.destroy(a);
    assert_eq!(store.update_with(a, |v| v + 1), Err(CoreError::NotFound));
}

#[test]
fn update_of_stale_handle_changes_nothing() {
    let mut store: EntityStore<u32> = EntityStore::new();
    let a = store.create(1);
    store.destroy(a);
    assert_eq!(store.update(a, 9), Err(CoreError::NotFound));
    assert_eq!(store.read(a), Err(CoreError::NotFound));
}

#[test]
fn two_updates_coalesce_into_one_dirty_notification() {
    let mut store: EntityStore<u32> = EntityStore::new();
    let a = store.create(0);
    let b = store.create(100);
    store.update(a, 1).unwrap();
    store.update(a, 2).unwrap();
    let dirty = store.dirty_handles();
    // One notification, carrying the second call's final value.
    assert_eq!(dirty, vec![a]);
    assert_eq!(*store.read(a).unwrap(), 2);
    assert!(!store.is_flagged_dirty(b));
}

#[test]
fn clear_dirty_resets_notifications_but_keeps_values() {
    let mut store: EntityStore<u32> = EntityStore::new();
    let a = store.create(0);
    store.update(a, 5).unwrap();
    store.clear_dirty();
    assert!(store.dirty_handles().is_empty());
    assert_eq!(*store.read(a).unwrap(), 5);
    store.update(a, 6).unwrap();
    assert_eq!(store.dirty_handles(), vec![a]);
}

#[test]
fn dirty_handles_come_in_creation_order_without_duplicates() {
    let mut store: EntityStore<u32> = EntityStore::new();
    let a = store.create(0);
    let b = store.create(1);
    let c = store.create(2);
    store.update(c, 20).unwrap();
    store.update(a, 10).unwrap();
    store.update(c, 21).unwrap();
    assert_eq!(store.dirty_handles(), vec![a, c]);
    let _ = b;
}

#[test]
fn destroy_is_idempotent_and_keeps_other_entities() {
    let mut store: EntityStore<u32> = EntityStore::new();
    let a = store.create(1);
    let b = store.create(2);
    assert!(store.destroy(a));
    assert!(!store.destroy(a));
    assert_eq!(store.read(a), Err(CoreError::NotFound));
    assert_eq!(*store.read(b).unwrap(), 2);
}

#[test]
fn identifiers_are_never_reused_after_destroy() {
    let mut store: EntityStore<u32> = EntityStore::new();
    let a = store.create(1);
    store.destroy(a);
    let b = store.create(2);
    assert_ne!(a, b);
    assert_eq!(store.read(a), Err(CoreError::NotFound));
    assert_eq!(*store.read(b).unwrap(), 2);
}

#[test]
fn liveness_is_observable() {
    let mut store: EntityStore<&'static str> = EntityStore::new();
    let a = store.create("x");
    assert!(store.is_live(a));
    store.destroy(a);
    assert!(!store.is_live(a));
}
