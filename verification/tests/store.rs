use oxydoro::store::StoreState;
use oxydoro::task::{Task, TaskId};

fn task(title: &str) -> Task {
    Task { id: TaskId::new(), title: String::from(title), done: false }
}

#[test]
fn append_grows_collection_and_counter_in_step() {
    let mut state = StoreState::new();
    assert_eq!(state.version, 0);
    assert!(state.tasks.is_empty());

    assert!(state.append(task("first")));
    assert_eq!(state.version, 1);
    assert_eq!(state.tasks.len(), 1);
    assert_eq!(state.tasks[0].title, "first");

    assert!(state.append(task("second")));
    assert_eq!(state.version, 2);
    assert_eq!(state.tasks.len(), 2);
    assert_eq!(state.tasks[0].title, "first");
    assert_eq!(state.tasks[1].title, "second");
}

#[test]
fn snapshot_copies_the_collection_in_order() {
    let mut state = StoreState::new();
    state.append(task("a"));
    state.append(task("b"));

    let snap = state.snapshot();
    assert_eq!(snap.len(), 2);
    assert_eq!(snap[0].title, "a");
    assert_eq!(snap[1].title, "b");
    assert_eq!(snap[0].id.uuid, state.tasks[0].id.uuid);
    assert_eq!(snap[1].id.uuid, state.tasks[1].id.uuid);
}

#[test]
fn changed_since_fires_exactly_when_the_counter_moved() {
    let mut state = StoreState::new();
    assert!(!state.changed_since(0));

    state.append(task("x"));
    assert!(state.changed_since(0));
    assert!(!state.changed_since(1));

    state.append(task("y"));
    state.append(task("z"));
    assert!(state.changed_since(1));
    assert!(!state.changed_since(3));
}

#[test]
fn earlier_snapshot_is_prefix_of_later_one() {
    let mut state = StoreState::new();
    state.append(task("one"));
    let early = state.snapshot();

    state.append(task("two"));
    state.append(task("three"));
    let late = state.snapshot();

    assert!(early.len() <= late.len());
    for i in 0..early.len() {
        assert_eq!(early[i].id.uuid, late[i].id.uuid);
        assert_eq!(early[i].title, late[i].title);
    }
}
