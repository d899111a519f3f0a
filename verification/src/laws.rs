use vstd::prelude::*;
use crate::store::unique_ids;
use crate::task::Task;

verus! {

/// The collection that a run of appends leaves behind: each call pushes one
/// task, in the order in which the store's exclusive-write discipline
/// granted the calls.
pub open spec fn push_all(initial: Seq<Task>, appended: Seq<Task>) -> Seq<Task>
    decreases appended.len(),
{
    if appended.len() == 0 {
        initial
    } else {
        push_all(initial.push(appended[0]), appended.drop_first())
    }
}

/// Pushing one task at a time amounts to concatenating the whole run.
pub proof fn lemma_push_all_is_concat(initial: Seq<Task>, appended: Seq<Task>)
    ensures
        push_all(initial, appended) == initial + appended,
    decreases appended.len(),
{
    if appended.len() == 0 {
        assert(push_all(initial, appended) =~= initial + appended);
    } else {
        lemma_push_all_is_concat(initial.push(appended[0]), appended.drop_first());
        assert(initial.push(appended[0]) + appended.drop_first() =~= initial + appended);
    }
}

/// Every identifier of `appended` is new: it differs from the identifier of
/// every task already in `initial` and of every task appended before it.
pub open spec fn fresh_ids(initial: Seq<Task>, appended: Seq<Task>) -> bool {
    forall|k: int, j: int|
        0 <= k < appended.len() && 0 <= j < initial.len() + k
            ==> (#[trigger] (initial + appended)[j]).id.uuid@ != (#[trigger] appended[k]).id.uuid@
}

/// No lost updates, no duplicates: a run of N appends, serialized by the
/// store, grows the collection by exactly N tasks, leaves every earlier
/// task in place, puts the new tasks at the end in call order, and — as
/// long as the generator handed every call a fresh identifier — keeps
/// identifiers unique across the collection.
pub proof fn lemma_serialized_appends(initial: Seq<Task>, appended: Seq<Task>)
    requires
        unique_ids(initial),
        fresh_ids(initial, appended),
    ensures
        push_all(initial, appended).len() == initial.len() + appended.len(),
        forall|j: int|
            0 <= j < initial.len() ==> push_all(initial, appended)[j] == initial[j],
        forall|k: int|
            0 <= k < appended.len()
                ==> push_all(initial, appended)[initial.len() + k] == appended[k],
        unique_ids(push_all(initial, appended)),
{
    lemma_push_all_is_concat(initial, appended);
    let all = initial + appended;
    assert forall|i: int, j: int| 0 <= i < j < all.len() implies (#[trigger] all[i]).id.uuid@
        != (#[trigger] all[j]).id.uuid@ by {
        if j < initial.len() {
            assert(all[i] == initial[i]);
            assert(all[j] == initial[j]);
        } else {
            let k = j - initial.len();
            assert(all[j] == appended[k]);
            assert(all[i].id.uuid@ != appended[k].id.uuid@);
        }
    }
}

/// Prefix consistency: appends never reorder or remove, so the collection
/// as it stood at any earlier moment is a prefix of the collection at any
/// later one — a snapshot never holds a task without also holding every
/// task created strictly before it.
pub proof fn lemma_snapshot_prefix_consistent(initial: Seq<Task>, appended: Seq<Task>)
    ensures
        initial.is_prefix_of(push_all(initial, appended)),
{
    lemma_push_all_is_concat(initial, appended);
    assert(initial =~= (initial + appended).subrange(0, initial.len() as int));
}

/// The coalescing law: however many appends happen while a subscriber is
/// busy, they collapse into a single pending signal — at least one append
/// moves the change counter (the collection's length) away from what the
/// subscriber last saw — and the one snapshot the next wake-up delivers
/// already contains every one of the new tasks. The subscriber is owed the
/// complete latest state, not one snapshot per append.
pub proof fn lemma_coalesced_observation(initial: Seq<Task>, appended: Seq<Task>)
    ensures
        appended.len() > 0 ==> push_all(initial, appended).len() != initial.len(),
        forall|k: int|
            0 <= k < appended.len() ==> push_all(initial, appended).contains(
                #[trigger] appended[k],
            ),
{
    lemma_push_all_is_concat(initial, appended);
    assert forall|k: int| 0 <= k < appended.len() implies push_all(initial, appended).contains(
        #[trigger] appended[k],
    ) by {
        assert(push_all(initial, appended)[initial.len() + k] == appended[k]);
    }
}

/// A subscriber registered before any further append holds the counter
/// value of its initial snapshot — the collection's length at that moment.
/// The first subsequent append moves the counter away from that value, so
/// the subscriber's next look finds a pending change, and the snapshot it
/// is handed ends with, and therefore contains, the newly created task,
/// after everything it saw initially.
pub proof fn lemma_first_update_observed(initial: Seq<Task>, t: Task, last_seen: u64)
    requires
        last_seen as nat == initial.len(),
    ensures
        initial.push(t).len() != last_seen as nat,
        initial.push(t)[initial.len() as int] == t,
        initial.push(t).contains(t),
        initial.is_prefix_of(initial.push(t)),
{
    assert(initial.push(t)[initial.len() as int] == t);
    assert(initial =~= initial.push(t).subrange(0, initial.len() as int));
}

} // verus!
