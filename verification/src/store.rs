use vstd::prelude::*;
use crate::task::Task;

verus! {

/// No two tasks of the sequence carry the same identifier text.
pub open spec fn unique_ids(s: Seq<Task>) -> bool {
    forall|i: int, j: int|
        0 <= i < j < s.len() ==> (#[trigger] s[i]).id.uuid@ != (#[trigger] s[j]).id.uuid@
}

/// The store's state at rest: the canonical collection, in creation order,
/// and the change counter that subscribers compare against. Appends are the
/// only mutation, and each one advances the counter, so at rest the counter
/// equals the number of tasks ever appended — which is the length.
pub struct StoreState {
    pub tasks: Vec<Task>,
    pub version: u64,
}

impl StoreState {
    /// Well-formed: the change counter counts the appends, and every task
    /// carries a well-shaped identifier.
    pub open spec fn wf(&self) -> bool {
        &&& self.tasks@.len() == self.version as nat
        &&& forall|i: int| 0 <= i < self.tasks@.len() ==> (#[trigger] self.tasks@[i]).wf()
    }

    /// The empty store: no tasks, no change yet signalled.
    pub fn new() -> (s: Self)
        ensures
            s.wf(),
            s.tasks@ == Seq::<Task>::empty(),
            s.version == 0,
    {
        StoreState { tasks: Vec::new(), version: 0 }
    }

    /// Append one task and advance the change counter in the same step: the
    /// counter movement is the coalesced "store has changed" signal. Succeeds
    /// exactly as long as the counter has room; on the machine-limit branch
    /// the state is left untouched.
    pub fn append(&mut self, task: Task) -> (r: bool)
        requires
            old(self).wf(),
            task.wf(),
        ensures
            final(self).wf(),
            old(self).version < u64::MAX ==> r
                && final(self).tasks@ == old(self).tasks@.push(task)
                && final(self).version == old(self).version + 1,
            old(self).version == u64::MAX ==> !r && *final(self) == *old(self),
    {
        if self.version < u64::MAX {
            self.tasks.push(task);
            self.version = self.version + 1;
            true
        } else {
            false
        }
    }

    /// An independent copy of the whole collection, in creation order.
    /// Mutating the copy can never touch the store.
    pub fn snapshot(&self) -> (r: Vec<Task>)
        ensures
            r@ == self.tasks@,
    {
        let mut out: Vec<Task> = Vec::new();
        let mut i: usize = 0;
        while i < self.tasks.len()
            invariant
                0 <= i <= self.tasks@.len(),
                out@ == self.tasks@.subrange(0, i as int),
            decreases self.tasks@.len() - i,
        {
            out.push(self.tasks[i].duplicate());
            assert(out@ =~= self.tasks@.subrange(0, i + 1 as int));
            i = i + 1;
        }
        assert(out@ =~= self.tasks@);
        out
    }

    /// Has the store changed since an observer last looked? Observers keep
    /// the counter value they saw; any number of appends in between moves
    /// the counter away from it, and all of them coalesce into this one bit.
    pub fn changed_since(&self, last_seen: u64) -> (r: bool)
        ensures
            r == (self.version != last_seen),
    {
        self.version != last_seen
    }
}

} // verus!
