//! Consumer-side reconciliation of a relist against the last known view.
//!
//! A relist replays the whole collection as synthetic additions; it cannot
//! replay deletions that happened while disconnected. A consumer that keeps
//! a local view restores them by diffing its known keys against the fresh
//! snapshot: every key absent from the snapshot was deleted.

use vstd::prelude::*;
use crate::object::{ObjectKey, ResourceObject};

verus! {

/// The identity views of a snapshot's objects.
pub open spec fn spec_snapshot_keys(s: Seq<ResourceObject>) -> Seq<(Seq<char>, Seq<char>)> {
    s.map_values(|o: ResourceObject| o.key@)
}

/// Whether some element of `s` has the identity view `k`.
pub open spec fn spec_contains_key(s: Seq<(Seq<char>, Seq<char>)>, k: (Seq<char>, Seq<char>)) -> bool {
    exists|i: int| 0 <= i < s.len() && s[i] == k
}

/// The deletion diff: the keys of `previous`, in order, whose identity does
/// not occur in `snapshot`.
pub open spec fn spec_relist_deletions(
    previous: Seq<ObjectKey>,
    snapshot: Seq<ResourceObject>,
) -> Seq<ObjectKey> {
    previous.filter(|k: ObjectKey| !spec_contains_key(spec_snapshot_keys(snapshot), k@))
}

/// Whether the snapshot holds an object with the given identity.
fn snapshot_contains(snapshot: &Vec<ResourceObject>, key: &ObjectKey) -> (r: bool)
    ensures
        r == spec_contains_key(spec_snapshot_keys(snapshot@), key@),
{
    let mut i: usize = 0;
    while i < snapshot.len()
        invariant
            0 <= i <= snapshot@.len(),
            forall|j: int| 0 <= j < i ==> snapshot@[j].key@ != key@,
        decreases snapshot@.len() - i,
    {
        if snapshot[i].key.key_eq(key) {
            proof {
                assert(spec_snapshot_keys(snapshot@)[i as int] == key@);
            }
            return true;
        }
        i = i + 1;
    }
    proof {
        assert(forall|j: int| 0 <= j < snapshot@.len()
            ==> spec_snapshot_keys(snapshot@)[j] == snapshot@[j].key@);
    }
    false
}

/// Diff a relist against the consumer's last known keys: the result holds
/// exactly the previously known keys that the fresh snapshot no longer
/// contains, in their previous order. These are the objects deleted while
/// the view was stale.
pub fn relist_deletions(previous: &Vec<ObjectKey>, snapshot: &Vec<ResourceObject>) -> (dels: Vec<
    ObjectKey,
>)
    ensures
        dels@ == spec_relist_deletions(previous@, snapshot@),
{
    let ghost pred = |k: ObjectKey| !spec_contains_key(spec_snapshot_keys(snapshot@), k@);
    let mut dels: Vec<ObjectKey> = Vec::new();
    let mut i: usize = 0;
    proof {
        assert(previous@.take(0int) =~= Seq::<ObjectKey>::empty());
        reveal(Seq::filter);
    }
    while i < previous.len()
        invariant
            0 <= i <= previous@.len(),
            dels@ == previous@.take(i as int).filter(pred),
            pred == (|k: ObjectKey| !spec_contains_key(spec_snapshot_keys(snapshot@), k@)),
        decreases previous@.len() - i,
    {
        let absent = !snapshot_contains(snapshot, &previous[i]);
        if absent {
            dels.push(previous[i].duplicate());
        }
        proof {
            reveal(Seq::filter);
            assert(previous@.take(i + 1int).drop_last() =~= previous@.take(i as int));
            assert(previous@.take(i + 1int).last() == previous@[i as int]);
        }
        i = i + 1;
    }
    proof {
        assert(previous@.take(previous@.len() as int) =~= previous@);
    }
    dels
}

/// No missed deletions across a relist: every key known before the relist
/// whose identity is absent from the fresh snapshot appears in the diff.
pub proof fn lemma_no_missed_deletions(
    previous: Seq<ObjectKey>,
    snapshot: Seq<ResourceObject>,
    i: int,
)
    requires
        0 <= i < previous.len(),
        !spec_contains_key(spec_snapshot_keys(snapshot), previous[i]@),
    ensures
        spec_relist_deletions(previous, snapshot).contains(previous[i]),
{
    let pred = |k: ObjectKey| !spec_contains_key(spec_snapshot_keys(snapshot), k@);
    previous.lemma_filter_contains(pred, i);
}

/// The diff never invents a deletion: everything in it was previously
/// known, and nothing in it occurs in the fresh snapshot.
pub proof fn lemma_no_invented_deletions(
    previous: Seq<ObjectKey>,
    snapshot: Seq<ResourceObject>,
    j: int,
)
    requires
        0 <= j < spec_relist_deletions(previous, snapshot).len(),
    ensures
        previous.contains(spec_relist_deletions(previous, snapshot)[j]),
        !spec_contains_key(
            spec_snapshot_keys(snapshot),
            spec_relist_deletions(previous, snapshot)[j]@,
        ),
{
    let pred = |k: ObjectKey| !spec_contains_key(spec_snapshot_keys(snapshot), k@);
    previous.lemma_filter_pred(pred, j);
    lemma_filter_elements_from_source(previous, pred, j);
}

/// Every element of a filtered sequence comes from the source sequence.
proof fn lemma_filter_elements_from_source<A>(s: Seq<A>, pred: spec_fn(A) -> bool, j: int)
    requires
        0 <= j < s.filter(pred).len(),
    ensures
        s.contains(s.filter(pred)[j]),
    decreases s.len(),
{
    reveal(Seq::filter);
    if s.len() > 0 {
        let sub = s.drop_last().filter(pred);
        if pred(s.last()) && j == s.filter(pred).len() - 1 {
            assert(s.filter(pred)[j] == s.last());
            assert(s.contains(s.last()));
        } else {
            lemma_filter_elements_from_source(s.drop_last(), pred, j);
            let k = choose|k: int| 0 <= k < s.drop_last().len() && s.drop_last()[k] == sub[j];
            assert(s[k] == sub[j]);
        }
    }
}

} // verus!
