use oxydoro::service::{DeliveryOutcome, OxydoroStore};

#[test]
fn create_then_list_single_task() {
    let store = OxydoroStore::new();
    let created = store.create_task(String::from("Write spec")).unwrap();
    assert_eq!(created.title, "Write spec");
    assert!(!created.done);

    let tasks = store.get_all_tasks();
    assert_eq!(tasks.len(), 1);
    assert_eq!(tasks[0].title, "Write spec");
    assert!(!tasks[0].done);
    assert_eq!(tasks[0].id.uuid, created.id.uuid);
}

#[test]
fn create_two_tasks_kept_in_order_with_distinct_ids() {
    let store = OxydoroStore::new();
    let a = store.create_task(String::from("A")).unwrap();
    let b = store.create_task(String::from("B")).unwrap();

    let tasks = store.get_all_tasks();
    assert_eq!(tasks.len(), 2);
    assert_eq!(tasks[0].title, "A");
    assert_eq!(tasks[1].title, "B");
    assert_ne!(tasks[0].id.uuid, tasks[1].id.uuid);
    assert_eq!(tasks[0].id.uuid, a.id.uuid);
    assert_eq!(tasks[1].id.uuid, b.id.uuid);
}

#[test]
fn subscribe_before_any_create_sees_empty_then_first_append() {
    let store = OxydoroStore::new();
    let (mut sub, initial) = store.subscribe();
    assert!(initial.is_empty());
    assert!(sub.is_live());

    store.create_task(String::from("C")).unwrap();
    let update = store.poll_update(&mut sub).unwrap();
    assert_eq!(update.len(), 1);
    assert_eq!(update[0].title, "C");
}

#[test]
fn initial_snapshot_reflects_existing_tasks() {
    let store = OxydoroStore::new();
    store.create_task(String::from("old news")).unwrap();
    store.create_task(String::from("older news")).unwrap();

    let (mut sub, initial) = store.subscribe();
    assert_eq!(initial.len(), 2);
    assert_eq!(initial[0].title, "old news");
    assert_eq!(initial[1].title, "older news");

    // Nothing changed since the initial snapshot: no update is pending.
    assert!(store.poll_update(&mut sub).is_none());
}

#[test]
fn changes_coalesce_into_one_snapshot() {
    let store = OxydoroStore::new();
    let (mut sub, initial) = store.subscribe();
    assert!(initial.is_empty());

    store.create_task(String::from("one")).unwrap();
    store.create_task(String::from("two")).unwrap();
    store.create_task(String::from("three")).unwrap();

    // A subscriber that was busy through three appends gets one snapshot
    // holding all three, in creation order.
    let update = store.poll_update(&mut sub).unwrap();
    assert_eq!(update.len(), 3);
    assert_eq!(update[0].title, "one");
    assert_eq!(update[1].title, "two");
    assert_eq!(update[2].title, "three");

    // And it is owed nothing further until the store changes again.
    assert!(store.poll_update(&mut sub).is_none());
}

#[test]
fn successful_delivery_keeps_subscription_alive() {
    let store = OxydoroStore::new();
    let (mut sub, _initial) = store.subscribe();
    sub.record_delivery(DeliveryOutcome::Delivered);
    assert!(sub.is_live());
}

#[test]
fn closed_channel_terminates_subscription_and_nothing_else() {
    let store = OxydoroStore::new();
    let (mut dead, _) = store.subscribe();
    let (mut alive, _) = store.subscribe();

    dead.record_delivery(DeliveryOutcome::ChannelClosed);
    assert!(!dead.is_live());

    // The writer is unaffected by the dead subscriber ...
    store.create_task(String::from("after the disconnect")).unwrap();

    // ... and so is every other subscriber.
    let update = store.poll_update(&mut alive).unwrap();
    assert_eq!(update.len(), 1);
    assert_eq!(update[0].title, "after the disconnect");
    assert!(alive.is_live());
}

#[test]
fn snapshots_are_independent_copies() {
    let store = OxydoroStore::new();
    store.create_task(String::from("keep me")).unwrap();

    let mut snapshot = store.get_all_tasks();
    snapshot.clear();

    let again = store.get_all_tasks();
    assert_eq!(again.len(), 1);
    assert_eq!(again[0].title, "keep me");
}

#[test]
fn list_on_fresh_store_is_empty() {
    let store = OxydoroStore::new();
    assert!(store.get_all_tasks().is_empty());
}

#[test]
fn default_store_is_the_empty_one() {
    let store = OxydoroStore::default();
    assert!(store.get_all_tasks().is_empty());
    let created = store.create_task(String::from("works like new")).unwrap();
    assert_eq!(created.title, "works like new");
}
