use vstd::prelude::*;
use vstd::rwlock::{RwLock, RwLockPredicate};
use crate::store::StoreState;
use crate::task::{Task, TaskId};

verus! {

/// The lock invariant of the shared store: every state at rest is well
/// formed, so every reader and every writer picks the store up well formed.
pub struct StorePred {}

impl RwLockPredicate<StoreState> for StorePred {
    open spec fn inv(self, v: StoreState) -> bool {
        v.wf()
    }
}

/// The one fatal condition: the store can accept no further appends. It is
/// surfaced to the caller as an explicit failure, never swallowed.
#[derive(PartialEq, Eq, Structural, Debug)]
pub enum StoreError {
    Unavailable,
}

/// What one delivery attempt to a subscriber reported. A closed channel is
/// an expected event, not an application error: it is the sole way a
/// disconnected client is detected.
#[derive(PartialEq, Eq, Structural, Debug)]
pub enum DeliveryOutcome {
    Delivered,
    ChannelClosed,
}

/// One streaming consumer: the change-counter value it has last observed,
/// and whether its delivery path is still open. Once the path closes the
/// subscription is terminated; there is no other terminal state.
pub struct Subscription {
    pub last_seen: u64,
    pub live: bool,
}

impl Subscription {
    /// Record the outcome of a delivery attempt: a closed channel ends the
    /// subscription, and nothing else does.
    pub fn record_delivery(&mut self, outcome: DeliveryOutcome)
        ensures
            final(self).live == (old(self).live && outcome == DeliveryOutcome::Delivered),
            final(self).last_seen == old(self).last_seen,
    {
        match outcome {
            DeliveryOutcome::Delivered => {
            }
            DeliveryOutcome::ChannelClosed => {
                self.live = false;
            }
        }
    }

    /// Whether the subscription still wants signals.
    pub fn is_live(&self) -> (r: bool)
        ensures
            r == self.live,
    {
        self.live
    }
}

/// The shared task store with its notification counter: one writer at a
/// time, any number of concurrent readers, and a writer that never waits
/// on any subscriber.
pub struct OxydoroStore {
    lock: RwLock<StoreState, StorePred>,
}

impl OxydoroStore {
    /// The lock was built with the store's invariant as its predicate.
    pub closed spec fn wf(&self) -> bool {
        self.lock.pred() == (StorePred {  })
    }

    /// A fresh store with an empty collection.
    pub fn new() -> (s: Self)
        ensures
            s.wf(),
    {
        let state = StoreState::new();
        let lock = RwLock::new(state, Ghost(StorePred {  }));
        OxydoroStore { lock }
    }
}

impl Default for OxydoroStore {
    /// The default store is the fresh, empty one.
    fn default() -> (s: Self)
        ensures
            s.wf(),
    {
        OxydoroStore::new()
    }
}

impl OxydoroStore {
    /// Create a task: build it with a fresh identifier and `done = false`,
    /// append it to the collection and advance the change counter in one
    /// critical section, and hand the caller its own copy. The title is
    /// accepted as given. Fails only when the store can accept no more
    /// appends, and then leaves the collection untouched.
    pub fn create_task(&self, title: String) -> (r: Result<Task, StoreError>)
        requires
            self.wf(),
        ensures
            match r {
                Ok(t) => t.wf() && t.title@ == title@ && t.done == false,
                Err(e) => e == StoreError::Unavailable,
            },
    {
        let id = TaskId::new();
        let task = Task { id, title, done: false };
        let created = task.duplicate();
        let (mut state, write_handle) = self.lock.acquire_write();
        let appended = state.append(task);
        write_handle.release_write(state);
        if appended {
            Ok(created)
        } else {
            Err(StoreError::Unavailable)
        }
    }

    /// List all tasks: an independent snapshot of the collection as
    /// currently observed, in creation order. Readers share the lock, so
    /// many list calls proceed concurrently and none observes a torn
    /// append.
    pub fn get_all_tasks(&self) -> (r: Vec<Task>)
        requires
            self.wf(),
        ensures
            forall|i: int| 0 <= i < r@.len() ==> (#[trigger] r@[i]).wf(),
    {
        let read_handle = self.lock.acquire_read();
        let snap = read_handle.borrow().snapshot();
        read_handle.release_read();
        snap
    }

    /// Register a subscriber: one atomic observation yields both its
    /// initial snapshot — so it need not wait for the first change to see
    /// existing data — and the counter value that snapshot belongs to.
    /// Because the counter counts the appends, the value observed equals
    /// the snapshot's length.
    pub fn subscribe(&self) -> (r: (Subscription, Vec<Task>))
        requires
            self.wf(),
        ensures
            r.0.live,
            r.0.last_seen as nat == r.1@.len(),
            forall|i: int| 0 <= i < r.1@.len() ==> (#[trigger] r.1@[i]).wf(),
    {
        let read_handle = self.lock.acquire_read();
        let state = read_handle.borrow();
        let snap = state.snapshot();
        let seen = state.version;
        read_handle.release_read();
        (Subscription { last_seen: seen, live: true }, snap)
    }

    /// One wake-up of a live subscriber: if the store has changed since the
    /// subscription last looked — however many appends that was — it gets
    /// one fresh snapshot and remembers the counter value that snapshot
    /// belongs to; a wake-up with nothing new delivers nothing and changes
    /// nothing. Intermediate states between two polls are never owed.
    pub fn poll_update(&self, sub: &mut Subscription) -> (r: Option<Vec<Task>>)
        requires
            self.wf(),
            old(sub).live,
        ensures
            final(sub).live,
            match r {
                Some(snap) => {
                    &&& final(sub).last_seen as nat == snap@.len()
                    &&& final(sub).last_seen != old(sub).last_seen
                    &&& forall|i: int| 0 <= i < snap@.len() ==> (#[trigger] snap@[i]).wf()
                },
                None => *final(sub) == *old(sub),
            },
    {
        let read_handle = self.lock.acquire_read();
        let state = read_handle.borrow();
        if state.changed_since(sub.last_seen) {
            let snap = state.snapshot();
            let seen = state.version;
            read_handle.release_read();
            sub.last_seen = seen;
            Some(snap)
        } else {
            read_handle.release_read();
            None
        }
    }
}

} // verus!
