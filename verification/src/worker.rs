//! Worker-side state of the hand-off protocol. A worker serves every
//! request against the store reference it has cached; the cache is replaced
//! only by consuming a control task, so a snapshot is always one whole
//! published generation, never a mixture.

use vstd::prelude::*;

use crate::config;
use crate::engine::{push_bounded, ControlTask, CTL_QUEUE_CAP};
use crate::store::StoreRef;

verus! {

/// A worker's own view of the world: its number, the store generation it
/// currently serves from, and its behavioral flags.
#[derive(Debug, Clone, Copy, PartialEq, Eq, Structural)]
pub struct WorkerData {
    pub num: i32,
    pub store: StoreRef,
    pub config: config::Worker,
}

/// Effect of one control task on a worker: it replaces the cached store
/// reference or the cached configuration, wholesale.
pub open spec fn spec_apply_control(w: WorkerData, t: ControlTask) -> WorkerData {
    match t {
        ControlTask::SetStore(r) => WorkerData { num: w.num, store: r, config: w.config },
        ControlTask::SetConfig(c) => WorkerData { num: w.num, store: w.store, config: c },
    }
}

/// Effect of consuming a queue of control tasks in order, oldest first.
pub open spec fn spec_drain(w: WorkerData, tasks: Seq<ControlTask>) -> WorkerData
    decreases tasks.len(),
{
    if tasks.len() == 0 {
        w
    } else {
        spec_apply_control(spec_drain(w, tasks.drop_last()), tasks.last())
    }
}

/// Consume one control task.
pub fn apply_control_task(w: &mut WorkerData, task: ControlTask)
    ensures
        *final(w) == spec_apply_control(*old(w), task),
{
    match task {
        ControlTask::SetStore(r) => w.store = r,
        ControlTask::SetConfig(c) => w.config = c,
    }
}

/// Swap atomicity, worker side: whatever control task is consumed, the
/// worker's snapshot afterwards is either exactly the reference it already
/// held (entirely pre-swap) or exactly the reference the task published
/// (entirely post-swap) — never a store with only part of a swap applied.
pub proof fn lemma_snapshot_atomic(w: WorkerData, t: ControlTask)
    ensures
        match t {
            ControlTask::SetStore(r) => spec_apply_control(w, t).store == r,
            ControlTask::SetConfig(_) => spec_apply_control(w, t).store == w.store,
        },
{
}

/// Swap atomicity over a whole drain: after consuming any queue of control
/// tasks, the worker's cached reference is one it held before or one that
/// was published to it — never a mixture of two generations.
pub proof fn lemma_snapshot_whole(w: WorkerData, tasks: Seq<ControlTask>)
    ensures
        spec_drain(w, tasks).store == w.store || exists|i: int|
            0 <= i < tasks.len() && tasks[i] == ControlTask::SetStore(spec_drain(w, tasks).store),
    decreases tasks.len(),
{
    if tasks.len() > 0 {
        lemma_snapshot_whole(w, tasks.drop_last());
        let d = spec_drain(w, tasks);
        match tasks.last() {
            ControlTask::SetStore(r) => {
                assert(tasks[tasks.len() - 1] == ControlTask::SetStore(d.store));
            },
            ControlTask::SetConfig(_) => {
                if d.store != w.store {
                    let i = choose|i: int|
                        0 <= i < tasks.drop_last().len() && tasks.drop_last()[i]
                            == ControlTask::SetStore(d.store);
                    assert(tasks[i] == ControlTask::SetStore(d.store));
                }
            },
        }
    }
}

/// A worker that consumes every task queued for it ends on the reference of
/// the last publish in its queue: broadcast then drain converges the worker
/// to the published generation.
pub proof fn lemma_drain_converges(w: WorkerData, tasks: Seq<ControlTask>, r: StoreRef)
    requires
        tasks.len() > 0,
        tasks.last() == ControlTask::SetStore(r),
    ensures
        spec_drain(w, tasks).store == r,
{
}

/// Publish then drain, end to end: when a worker's queue had room for the
/// broadcast, a worker that consumes the whole queue ends exactly on the
/// published reference — this is how each swap's publication reaches every
/// worker that keeps draining.
pub proof fn lemma_broadcast_then_drain(w: WorkerData, q: Seq<ControlTask>, r: StoreRef)
    requires
        q.len() < CTL_QUEUE_CAP,
    ensures
        spec_drain(w, push_bounded(q, ControlTask::SetStore(r))).store == r,
{
    assert(push_bounded(q, ControlTask::SetStore(r)).drop_last() =~= q);
}

} // verus!
