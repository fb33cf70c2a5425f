//! The guarantees of the double-buffered store, stated and proved over the
//! replay model that the updater's contracts use.

use vstd::prelude::*;

use crate::objects::{ObjKey, ObjectView};
use crate::updater::{apply_event, replay, swap_rel, EventType, UpdaterPhase, UpdaterView, UpdateView};

verus! {

/// The latest queued update touching key `k`, if any.
pub open spec fn last_write(pending: Seq<UpdateView>, k: ObjKey) -> Option<UpdateView>
    decreases pending.len(),
{
    if pending.len() == 0 {
        None
    } else if pending.last().obj.key() == k {
        Some(pending.last())
    } else {
        last_write(pending.drop_last(), k)
    }
}

/// Appending one update to a queue and replaying it is the same as
/// replaying the queue and then applying that update: this is how the
/// per-update contract of `apply_to_store` accumulates to a whole replay.
pub proof fn lemma_replay_snoc(
    objects: Map<ObjKey, ObjectView>,
    pending: Seq<UpdateView>,
    u: UpdateView,
)
    ensures
        replay(objects, pending.push(u)) == apply_event(replay(objects, pending), u),
{
    assert(pending.push(u).drop_last() =~= pending);
}

/// Replay resolves every key to the latest queued update for it: the object
/// of the latest insert or update, absence after a latest delete, and the
/// prior contents where no queued update touched the key.
pub proof fn lemma_replay_last_write(
    objects: Map<ObjKey, ObjectView>,
    pending: Seq<UpdateView>,
    k: ObjKey,
)
    ensures
        match last_write(pending, k) {
            Some(u) => match u.kind {
                EventType::Delete => !replay(objects, pending).dom().contains(k),
                _ => replay(objects, pending).dom().contains(k) && replay(objects, pending)[k]
                    == u.obj,
            },
            None => (replay(objects, pending).dom().contains(k) <==> objects.dom().contains(k))
                && (objects.dom().contains(k) ==> replay(objects, pending)[k] == objects[k]),
        },
    decreases pending.len(),
{
    if pending.len() > 0 {
        lemma_replay_last_write(objects, pending.drop_last(), k);
    }
}

/// There is a latest update for `k` exactly when some queued update touches
/// `k`.
pub proof fn lemma_last_write_exists(pending: Seq<UpdateView>, k: ObjKey)
    ensures
        last_write(pending, k) is Some <==> exists|i: int|
            0 <= i < pending.len() && pending[i].obj.key() == k,
    decreases pending.len(),
{
    if pending.len() > 0 {
        lemma_last_write_exists(pending.drop_last(), k);
        if pending.last().obj.key() == k {
            assert(pending[pending.len() - 1].obj.key() == k);
        } else {
            if exists|i: int| 0 <= i < pending.len() && pending[i].obj.key() == k {
                let i = choose|i: int| 0 <= i < pending.len() && pending[i].obj.key() == k;
                assert(pending.drop_last()[i].obj.key() == k);
            }
        }
    }
}

/// The latest update for a key, when there is one, is a member of the
/// queue.
pub proof fn lemma_last_write_member(pending: Seq<UpdateView>, k: ObjKey)
    ensures
        match last_write(pending, k) {
            Some(u) => exists|i: int| 0 <= i < pending.len() && pending[i] == u,
            None => true,
        },
    decreases pending.len(),
{
    if pending.len() > 0 {
        if pending.last().obj.key() == k {
            assert(pending[pending.len() - 1] == pending.last());
        } else {
            lemma_last_write_member(pending.drop_last(), k);
            match last_write(pending.drop_last(), k) {
                Some(u) => {
                    let i = choose|i: int|
                        0 <= i < pending.drop_last().len() && pending.drop_last()[i] == u;
                    assert(pending[i] == u);
                },
                None => {},
            }
        }
    }
}

/// A queued update that no later queued update overrides is the latest one
/// for its key.
pub proof fn lemma_last_write_at(pending: Seq<UpdateView>, i: int)
    requires
        0 <= i < pending.len(),
        forall|j: int|
            i < j < pending.len() ==> pending[j].obj.key() != pending[i].obj.key(),
    ensures
        last_write(pending, pending[i].obj.key()) == Some(pending[i]),
    decreases pending.len(),
{
    if i < pending.len() - 1 {
        assert(pending.drop_last()[i] == pending[i]);
        lemma_last_write_at(pending.drop_last(), i);
    }
}

/// After a sequence of inserts lands in an empty write store and a swap
/// publishes it: the store labeled "read" holds exactly one object per
/// distinct inserted key — present if and only if some insert used that key
/// — and a key inserted more than once holds the latest applied value.
pub proof fn lemma_inserts_then_swap(
    pre: UpdaterView,
    post: UpdaterView,
    inserts: Seq<UpdateView>,
    k: ObjKey,
)
    requires
        forall|i: int| 0 <= i < inserts.len() ==> inserts[i].kind == EventType::Insert,
        pre.write_store().objects == replay(Map::<ObjKey, ObjectView>::empty(), inserts),
        swap_rel(pre, post),
    ensures
        post.read_store().objects.dom().contains(k) <==> exists|i: int|
            0 <= i < inserts.len() && inserts[i].obj.key() == k,
        match last_write(inserts, k) {
            Some(u) => post.read_store().objects.dom().contains(k)
                && post.read_store().objects[k] == u.obj,
            None => !post.read_store().objects.dom().contains(k),
        },
{
    lemma_replay_last_write(Map::<ObjKey, ObjectView>::empty(), inserts, k);
    lemma_last_write_exists(inserts, k);
    lemma_last_write_member(inserts, k);
    match last_write(inserts, k) {
        Some(u) => {
            let i = choose|i: int| 0 <= i < inserts.len() && inserts[i] == u;
            assert(u.kind == EventType::Insert);
        },
        None => {},
    }
}

/// No loss across the swap boundary: a mutation queued at swap time whose
/// key no later queued mutation touches is reflected in the store that
/// becomes the next write store — its object present after an insert or
/// update, absent after a delete.
pub proof fn lemma_no_loss_across_swap(pre: UpdaterView, post: UpdaterView, i: int)
    requires
        swap_rel(pre, post),
        0 <= i < pre.pending.len(),
        forall|j: int|
            i < j < pre.pending.len() ==> pre.pending[j].obj.key() != pre.pending[i].obj.key(),
    ensures
        match pre.pending[i].kind {
            EventType::Delete => !post.write_store().objects.dom().contains(
                pre.pending[i].obj.key(),
            ),
            _ => post.write_store().objects.dom().contains(pre.pending[i].obj.key())
                && post.write_store().objects[pre.pending[i].obj.key()] == pre.pending[i].obj,
        },
{
    lemma_last_write_at(pre.pending, i);
    lemma_replay_last_write(pre.read_store().objects, pre.pending, pre.pending[i].obj.key());
}

/// Duplicate delivery is idempotent: replaying the same insert twice leaves
/// exactly the one stored object for its key, the same contents as
/// replaying it once.
pub proof fn lemma_duplicate_insert_idempotent(objects: Map<ObjKey, ObjectView>, u: UpdateView)
    requires
        u.kind == EventType::Insert,
    ensures
        apply_event(apply_event(objects, u), u) == apply_event(objects, u),
{
    assert(apply_event(apply_event(objects, u), u) =~= apply_event(objects, u));
}

/// Two swaps with nothing ingested in between leave both stores' contents
/// unchanged and return the read/write labeling to where it started; only
/// the iteration counter and the rebuild statistics advance.
pub proof fn lemma_double_swap_contents(u0: UpdaterView, u1: UpdaterView, u2: UpdaterView)
    requires
        u0.pending == Seq::<UpdateView>::empty(),
        swap_rel(u0, u1),
        swap_rel(u1, u2),
    ensures
        u2.read_slot == u0.read_slot,
        u2.read_store().objects == u0.read_store().objects,
        u2.write_store().objects == u0.write_store().objects,
        u2.iteration == u0.iteration + 2,
{
}

/// The shutdown protocol is orderly: an updater that reached `Stopped` is
/// one whose ingestion loop observed the stop flag and exited, followed by
/// the swap loop — `stop` cannot return before both.
pub proof fn lemma_stop_orderly(u: UpdaterView)
    requires
        u.inv(),
        u.phase == UpdaterPhase::Stopped,
    ensures
        u.slave_finished,
        u.cron_finished,
{
}

} // verus!
