//! The changed set: which windows had an event since the last tick.
//!
//! A window may emit several events per tick, but a camera needs at most one
//! refresh. Streams are scanned newest event first and an identifier that was
//! already collected is skipped.

use crate::window::same_window;
use bevy_window::WindowId;
use vstd::prelude::*;

verus! {

/// `seen`, followed by each element of `ids` that occurs neither in `seen` nor
/// earlier in `ids`, in the order of `ids`.
pub open spec fn merged(seen: Seq<WindowId>, ids: Seq<WindowId>) -> Seq<WindowId>
    decreases ids.len(),
{
    if ids.len() == 0 {
        seen
    } else {
        let before = merged(seen, ids.drop_last());
        if before.contains(ids.last()) {
            before
        } else {
            before.push(ids.last())
        }
    }
}

/// The changed set of a tick whose unread resize events carry `resized` and whose
/// unread creation events carry `created`, both in emission order: the distinct
/// identifiers of the two, resizes first, each stream newest first.
pub open spec fn changed_ids(resized: Seq<WindowId>, created: Seq<WindowId>) -> Seq<WindowId> {
    merged(merged(Seq::empty(), resized.reverse()), created.reverse())
}

/// An identifier is in `merged(seen, ids)` exactly when it is in `seen` or in `ids`.
proof fn lemma_merged_members(seen: Seq<WindowId>, ids: Seq<WindowId>)
    ensures
        forall|id: WindowId| #[trigger]
            merged(seen, ids).contains(id) <==> seen.contains(id) || ids.contains(id),
    decreases ids.len(),
{
    if ids.len() > 0 {
        let init = ids.drop_last();
        let last = ids.last();
        lemma_merged_members(seen, init);
        let before = merged(seen, init);
        assert forall|id: WindowId| #[trigger]
            merged(seen, ids).contains(id) <==> seen.contains(id) || ids.contains(id) by {
            assert(ids == init.push(last));
            if ids.contains(id) {
                let i = choose|i: int| 0 <= i < ids.len() && ids[i] == id;
                if i < init.len() {
                    assert(init[i] == id);
                }
            }
            if init.contains(id) {
                let i = choose|i: int| 0 <= i < init.len() && init[i] == id;
                assert(ids[i] == id);
            }
            assert(ids[ids.len() - 1] == last);
            if !before.contains(last) {
                let grown = before.push(last);
                assert(grown[before.len() as int] == last);
                if before.contains(id) {
                    let i = choose|i: int| 0 <= i < before.len() && before[i] == id;
                    assert(grown[i] == id);
                }
            }
        }
    }
}

/// `merged` adds no repeat: if `seen` has none, neither has the result.
proof fn lemma_merged_distinct(seen: Seq<WindowId>, ids: Seq<WindowId>)
    requires
        seen.no_duplicates(),
    ensures
        merged(seen, ids).no_duplicates(),
    decreases ids.len(),
{
    if ids.len() > 0 {
        lemma_merged_distinct(seen, ids.drop_last());
    }
}

/// Reversing a sequence keeps its elements.
proof fn lemma_reverse_members(ids: Seq<WindowId>)
    ensures
        forall|id: WindowId| #[trigger] ids.reverse().contains(id) <==> ids.contains(id),
{
    let back = ids.reverse();
    assert forall|id: WindowId| #[trigger] back.contains(id) <==> ids.contains(id) by {
        if back.contains(id) {
            let i = choose|i: int| 0 <= i < back.len() && back[i] == id;
            assert(ids[ids.len() - 1 - i] == id);
        }
        if ids.contains(id) {
            let i = choose|i: int| 0 <= i < ids.len() && ids[i] == id;
            assert(back[ids.len() - 1 - i] == id);
        }
    }
}

/// The changed set holds exactly the identifiers that occur in either stream,
/// each of them once.
pub proof fn changed_ids_are_the_distinct_ids(resized: Seq<WindowId>, created: Seq<WindowId>)
    ensures
        changed_ids(resized, created).no_duplicates(),
        forall|id: WindowId| #[trigger]
            changed_ids(resized, created).contains(id) <==> resized.contains(id)
                || created.contains(id),
{
    let first = merged(Seq::empty(), resized.reverse());
    lemma_merged_distinct(Seq::empty(), resized.reverse());
    lemma_merged_distinct(first, created.reverse());
    lemma_merged_members(Seq::empty(), resized.reverse());
    lemma_merged_members(first, created.reverse());
    lemma_reverse_members(resized);
    lemma_reverse_members(created);
}

/// Whether `id` is among `ids`.
pub fn contains_window(ids: &Vec<WindowId>, id: WindowId) -> (found: bool)
    ensures
        found == ids@.contains(id),
{
    let mut i: usize = 0;
    while i < ids.len()
        invariant
            i <= ids.len(),
            forall|j: int| 0 <= j < i ==> ids@[j] != id,
        decreases ids.len() - i,
    {
        if same_window(ids[i], id) {
            return true;
        }
        i += 1;
    }
    false
}

/// Scans `events` from its newest element to its oldest and appends to `changed`
/// each identifier that `changed` does not hold yet.
pub fn mark_latest_first(changed: &mut Vec<WindowId>, events: &Vec<WindowId>)
    ensures
        final(changed)@ == merged(old(changed)@, events@.reverse()),
{
    let ghost back = events@.reverse();
    let mut i: usize = events.len();
    while i > 0
        invariant
            i <= events.len(),
            back == events@.reverse(),
            changed@ == merged(old(changed)@, back.take(events.len() - i)),
        decreases i,
    {
        i -= 1;
        let id = events[i];
        proof {
            let done = back.take(events.len() - i);
            assert(done.drop_last() == back.take(events.len() - i - 1));
            assert(done.last() == id);
        }
        if !contains_window(changed, id) {
            changed.push(id);
        }
    }
    proof {
        assert(back.take(events.len() as int) == back);
    }
}

/// The changed set of one tick, from the identifiers that the unread resize and
/// creation events carry, each stream in emission order.
pub fn collect_changed(resized: &Vec<WindowId>, created: &Vec<WindowId>) -> (changed: Vec<
    WindowId,
>)
    ensures
        changed@ == changed_ids(resized@, created@),
        changed@.no_duplicates(),
        forall|id: WindowId| #[trigger]
            changed@.contains(id) <==> resized@.contains(id) || created@.contains(id),
{
    let mut changed: Vec<WindowId> = Vec::new();
    mark_latest_first(&mut changed, resized);
    mark_latest_first(&mut changed, created);
    proof {
        changed_ids_are_the_distinct_ids(resized@, created@);
    }
    changed
}

} // verus!
