//! The ingestion and swap orchestrator: sole writer of store contents.
//!
//! The updater owns both store instances. One is labeled "read" and served
//! to workers, the other is the "write" store that ingestion mutates. Every
//! ingested mutation is applied to the write store immediately and also
//! queued as a pending update. A swap exchanges the two labels without
//! copying contents, publishes the new read store to the engine, and
//! replays the queued updates into the store that has just become the write
//! store — the stale former read store — so nothing ingested before or
//! during the swap is lost.
//!
//! The surrounding threads, locks and the replication transport live
//! outside the library; the functions here are the decisions those loops
//! make, with the updater state as a value.

use vstd::prelude::*;

use crate::config;
use crate::engine::{spec_broadcast, ControlTask, Engine};
use crate::objects::{ObjKey, Object, ObjectView};
use crate::store::{apply_object, IndexStat, Store, StoreRef, StoreSlot, StoreView};

verus! {

/// Kind of one ingested change.
#[derive(Debug, Clone, Copy, PartialEq, Eq, Structural)]
pub enum EventType {
    Insert,
    Update,
    Delete,
}

/// A replay-capable record of one ingested change, queued between the
/// moment it is applied to the live write store and the next swap.
#[derive(Debug)]
pub struct PendingUpdate {
    pub obj: Object,
    pub old: Option<Object>,
    pub kind: EventType,
}

pub ghost struct UpdateView {
    pub obj: ObjectView,
    pub old: Option<ObjectView>,
    pub kind: EventType,
}

impl View for PendingUpdate {
    type V = UpdateView;

    open spec fn view(&self) -> UpdateView {
        UpdateView {
            obj: self.obj@,
            old: match &self.old {
                Some(o) => Some(o@),
                None => None,
            },
            kind: self.kind,
        }
    }
}

impl Clone for PendingUpdate {
    fn clone(&self) -> (r: Self)
        ensures
            r@ == self@,
    {
        PendingUpdate {
            obj: self.obj.clone(),
            old: match &self.old {
                Some(o) => Some(o.clone()),
                None => None,
            },
            kind: self.kind,
        }
    }
}

/// The queued updates, as mathematical values.
pub open spec fn pending_view(s: Seq<PendingUpdate>) -> Seq<UpdateView> {
    Seq::new(s.len(), |i: int| s[i]@)
}

/// Effect of one update on a store's contents: insert and update replace by
/// key, delete removes by key.
pub open spec fn apply_event(objects: Map<ObjKey, ObjectView>, u: UpdateView) -> Map<
    ObjKey,
    ObjectView,
> {
    match u.kind {
        EventType::Insert => objects.insert(u.obj.key(), u.obj),
        EventType::Update => objects.insert(u.obj.key(), u.obj),
        EventType::Delete => objects.remove(u.obj.key()),
    }
}

/// Effect of replaying a queue of updates, oldest first.
pub open spec fn replay(objects: Map<ObjKey, ObjectView>, pending: Seq<UpdateView>) -> Map<
    ObjKey,
    ObjectView,
>
    decreases pending.len(),
{
    if pending.len() == 0 {
        objects
    } else {
        apply_event(replay(objects, pending.drop_last()), pending.last())
    }
}

/// Lifecycle of the updater. `Stopping` is entered exactly once, by the
/// stop signal, and always leads to `Stopped`.
#[derive(Debug, Clone, Copy, PartialEq, Eq, Structural)]
pub enum UpdaterPhase {
    Initializing,
    Running,
    Stopping,
    Stopped,
}

pub struct Updater {
    pub conf: config::Updater,
    first: Store,
    second: Store,
    read_slot: StoreSlot,
    slave_updates: Vec<PendingUpdate>,
    index_iteration: u64,
    phase: UpdaterPhase,
    slave_finished: bool,
    cron_finished: bool,
}

/// Mathematical content of the updater: both stores, the current labeling,
/// the pending-update queue, the swap counter and the lifecycle state.
pub ghost struct UpdaterView {
    pub swap_interval: u64,
    pub first: StoreView,
    pub second: StoreView,
    pub read_slot: StoreSlot,
    pub pending: Seq<UpdateView>,
    pub iteration: u64,
    pub phase: UpdaterPhase,
    pub slave_finished: bool,
    pub cron_finished: bool,
}

impl View for Updater {
    type V = UpdaterView;

    closed spec fn view(&self) -> UpdaterView {
        UpdaterView {
            swap_interval: self.conf.swap_interval,
            first: self.first@,
            second: self.second@,
            read_slot: self.read_slot,
            pending: pending_view(self.slave_updates@),
            iteration: self.index_iteration,
            phase: self.phase,
            slave_finished: self.slave_finished,
            cron_finished: self.cron_finished,
        }
    }
}

impl UpdaterView {
    /// The store occupying the given slot.
    pub open spec fn store_at(self, slot: StoreSlot) -> StoreView {
        match slot {
            StoreSlot::First => self.first,
            StoreSlot::Second => self.second,
        }
    }

    /// The store currently labeled "read": what workers are served from.
    pub open spec fn read_store(self) -> StoreView {
        self.store_at(self.read_slot)
    }

    /// The store currently labeled "write": what ingestion mutates.
    pub open spec fn write_store(self) -> StoreView {
        self.store_at(self.read_slot.other())
    }

    /// Protocol invariant of the lifecycle: the loops can only have
    /// observed a stop that was requested, the swap loop is joined after
    /// the ingestion loop, and a stopped updater has been observed by both.
    pub open spec fn inv(self) -> bool {
        &&& (self.phase == UpdaterPhase::Initializing ==> self.iteration == 0 && self.pending
            =~= Seq::<UpdateView>::empty())
        &&& (self.slave_finished ==> self.phase == UpdaterPhase::Stopping || self.phase
            == UpdaterPhase::Stopped)
        &&& (self.cron_finished ==> self.slave_finished)
        &&& (self.phase == UpdaterPhase::Stopped ==> self.slave_finished && self.cron_finished)
    }
}

/// Exact relation between the updater before and after one swap. The two
/// rebuild timestamps come from the wall clock, so only their order and
/// difference are pinned.
pub open spec fn swap_rel(pre: UpdaterView, post: UpdaterView) -> bool {
    &&& post.swap_interval == pre.swap_interval
    &&& post.read_slot == pre.read_slot.other()
    &&& post.iteration == pre.iteration + 1
    &&& post.phase == pre.phase
    &&& post.slave_finished == pre.slave_finished
    &&& post.cron_finished == pre.cron_finished
    // the former write store becomes the read store: contents untouched,
    // statistics stamped for this iteration
    &&& post.read_store().objects == pre.write_store().objects
    &&& post.read_store().id == pre.write_store().id
    &&& post.read_store().stat.iteration == pre.iteration + 1
    &&& post.read_store().stat.rebuild_start_ts <= post.read_store().stat.rebuild_end_ts
    &&& post.read_store().stat.rebuild_duration_sec == post.read_store().stat.rebuild_end_ts
        - post.read_store().stat.rebuild_start_ts
    // the stale former read store becomes the write store, caught up by
    // replaying every queued update
    &&& post.write_store().objects == replay(pre.read_store().objects, pre.pending)
    &&& post.write_store().id == pre.read_store().id
    &&& post.write_store().stat == pre.read_store().stat
    // the queue is drained as part of the swap
    &&& post.pending =~= Seq::<UpdateView>::empty()
}

impl Updater {
    pub closed spec fn wf(self) -> bool {
        &&& self.first.wf()
        &&& self.second.wf()
        &&& self@.inv()
    }

    /// A fresh updater: both stores empty and identical, no pending
    /// updates, iteration zero, still initializing.
    pub fn new(conf: &config::Updater) -> (u: Updater)
        ensures
            u.wf(),
            u@.swap_interval == conf.swap_interval,
            u@.phase == UpdaterPhase::Initializing,
            u@.iteration == 0,
            u@.pending == Seq::<UpdateView>::empty(),
            u@.read_slot == StoreSlot::First,
            u@.first.objects == Map::<ObjKey, ObjectView>::empty(),
            u@.second.objects == Map::<ObjKey, ObjectView>::empty(),
            u@.first.stat == IndexStat::zero(),
            u@.second.stat == IndexStat::zero(),
            !u@.slave_finished,
            !u@.cron_finished,
    {
        let u = Updater {
            conf: conf.clone(),
            first: Store::new("first".to_owned()),
            second: Store::new("second".to_owned()),
            read_slot: StoreSlot::First,
            slave_updates: Vec::new(),
            index_iteration: 0,
            phase: UpdaterPhase::Initializing,
            slave_finished: false,
            cron_finished: false,
        };
        proof {
            assert(u@.pending =~= Seq::<UpdateView>::empty());
        }
        u
    }

    /// Apply one row of the initial full-table scan as an insert into both
    /// stores, so both generations start from the same content. The seed
    /// happens before ingestion starts, so nothing is queued for replay.
    pub fn seed(&mut self, obj: Object)
        requires
            old(self).wf(),
            old(self)@.phase == UpdaterPhase::Initializing,
        ensures
            final(self).wf(),
            final(self)@.first.objects == old(self)@.first.objects.insert(obj@.key(), obj@),
            final(self)@.second.objects == old(self)@.second.objects.insert(obj@.key(), obj@),
            final(self)@.first.id == old(self)@.first.id,
            final(self)@.second.id == old(self)@.second.id,
            final(self)@.first.stat == old(self)@.first.stat,
            final(self)@.second.stat == old(self)@.second.stat,
            final(self)@.read_slot == old(self)@.read_slot,
            final(self)@.pending == old(self)@.pending,
            final(self)@.iteration == old(self)@.iteration,
            final(self)@.phase == old(self)@.phase,
            final(self)@.slave_finished == old(self)@.slave_finished,
            final(self)@.cron_finished == old(self)@.cron_finished,
            final(self)@.swap_interval == old(self)@.swap_interval,
    {
        apply_object(&mut self.first, obj.clone(), false);
        apply_object(&mut self.second, obj, false);
    }

    /// The ingestion and swap loops are up: the updater is serving.
    pub fn start_running(&mut self)
        requires
            old(self).wf(),
            old(self)@.phase == UpdaterPhase::Initializing,
        ensures
            final(self).wf(),
            final(self)@ == (UpdaterView { phase: UpdaterPhase::Running, ..old(self)@ }),
    {
        self.phase = UpdaterPhase::Running;
    }

    /// The stop signal was raised: `Stopping` is entered, exactly once.
    pub fn request_stop(&mut self)
        requires
            old(self).wf(),
            old(self)@.phase == UpdaterPhase::Running,
        ensures
            final(self).wf(),
            final(self)@ == (UpdaterView { phase: UpdaterPhase::Stopping, ..old(self)@ }),
    {
        self.phase = UpdaterPhase::Stopping;
    }

    /// The ingestion loop observed the stop flag and exited; no further
    /// mutation can be accepted.
    pub fn note_slave_stopped(&mut self)
        requires
            old(self).wf(),
            old(self)@.phase == UpdaterPhase::Stopping,
        ensures
            final(self).wf(),
            final(self)@ == (UpdaterView { slave_finished: true, ..old(self)@ }),
    {
        self.slave_finished = true;
    }

    /// The swap loop observed the stop flag and exited, after the ingestion
    /// loop was already joined.
    pub fn note_cron_stopped(&mut self)
        requires
            old(self).wf(),
            old(self)@.phase == UpdaterPhase::Stopping,
            old(self)@.slave_finished,
        ensures
            final(self).wf(),
            final(self)@ == (UpdaterView { cron_finished: true, ..old(self)@ }),
    {
        self.cron_finished = true;
    }

    /// Shutdown is complete. This demands that both loops have already
    /// observed the stop flag and exited: `stop` can return only after the
    /// ingestion loop exits, followed by the swap loop.
    pub fn finish_stop(&mut self)
        requires
            old(self).wf(),
            old(self)@.phase == UpdaterPhase::Stopping,
            old(self)@.slave_finished,
            old(self)@.cron_finished,
        ensures
            final(self).wf(),
            final(self)@ == (UpdaterView { phase: UpdaterPhase::Stopped, ..old(self)@ }),
    {
        self.phase = UpdaterPhase::Stopped;
    }

    /// The store occupying the given slot, for reading.
    pub fn store_at(&self, slot: StoreSlot) -> (s: &Store)
        requires
            self.wf(),
        ensures
            s.wf(),
            s@ == self@.store_at(slot),
    {
        match slot {
            StoreSlot::First => &self.first,
            StoreSlot::Second => &self.second,
        }
    }

    /// The store currently labeled "read".
    pub fn read_store(&self) -> (s: &Store)
        requires
            self.wf(),
        ensures
            s.wf(),
            s@ == self@.read_store(),
    {
        self.store_at(self.read_slot)
    }

    /// Which slot is currently labeled "read".
    pub fn read_slot(&self) -> (r: StoreSlot)
        ensures
            r == self@.read_slot,
    {
        self.read_slot
    }

    /// The monotonic swap counter.
    pub fn iteration(&self) -> (r: u64)
        ensures
            r == self@.iteration,
    {
        self.index_iteration
    }

    pub fn phase(&self) -> (r: UpdaterPhase)
        ensures
            r == self@.phase,
    {
        self.phase
    }
}

/// Decide whether a swap is due: the cron loop fires once the swap
/// interval has elapsed since the last swap.
pub fn swap_due(now_ts: u64, last_swap_ts: u64, swap_interval: u64) -> (due: bool)
    ensures
        due == (now_ts > last_swap_ts + swap_interval),
{
    last_swap_ts <= u64::MAX - swap_interval && now_ts > last_swap_ts + swap_interval
}

/// Apply one ingested mutation: write it to the live write store so it is
/// readable no later than the next swap, and queue it for replay into the
/// other store after that swap.
pub fn apply_to_store(updater: &mut Updater, obj: Object, old_obj: Option<Object>, ev_type: EventType)
    requires
        old(updater).wf(),
        old(updater)@.phase == UpdaterPhase::Running || old(updater)@.phase
            == UpdaterPhase::Stopping,
    ensures
        final(updater).wf(),
        final(updater)@.write_store().objects == apply_event(
            old(updater)@.write_store().objects,
            ingested(obj, old_obj, ev_type),
        ),
        final(updater)@.write_store().id == old(updater)@.write_store().id,
        final(updater)@.write_store().stat == old(updater)@.write_store().stat,
        final(updater)@.read_store() == old(updater)@.read_store(),
        final(updater)@.pending == old(updater)@.pending.push(ingested(obj, old_obj, ev_type)),
        final(updater)@.read_slot == old(updater)@.read_slot,
        final(updater)@.iteration == old(updater)@.iteration,
        final(updater)@.phase == old(updater)@.phase,
        final(updater)@.slave_finished == old(updater)@.slave_finished,
        final(updater)@.cron_finished == old(updater)@.cron_finished,
        final(updater)@.swap_interval == old(updater)@.swap_interval,
{
    let pending = PendingUpdate { obj: obj.clone(), old: old_obj, kind: ev_type };
    let is_delete = match ev_type {
        EventType::Delete => true,
        EventType::Insert => false,
        EventType::Update => false,
    };
    match updater.read_slot {
        StoreSlot::First => apply_object(&mut updater.second, obj, is_delete),
        StoreSlot::Second => apply_object(&mut updater.first, obj, is_delete),
    }
    updater.slave_updates.push(pending);
    proof {
        assert(final(updater)@.pending =~= old(updater)@.pending.push(
            ingested(obj, old_obj, ev_type),
        ));
    }
}

/// The update record that `apply_to_store` writes and queues.
pub open spec fn ingested(obj: Object, old_obj: Option<Object>, ev_type: EventType) -> UpdateView {
    UpdateView {
        obj: obj@,
        old: match old_obj {
            Some(o) => Some(o@),
            None => None,
        },
        kind: ev_type,
    }
}

/// Replay a drained queue into a store, oldest update first.
fn replay_into(store: &mut Store, pending: &Vec<PendingUpdate>)
    requires
        old(store).wf(),
    ensures
        final(store).wf(),
        final(store)@.objects == replay(old(store)@.objects, pending_view(pending@)),
        final(store)@.id == old(store)@.id,
        final(store)@.stat == old(store)@.stat,
{
    let n = pending.len();
    let mut i: usize = 0;
    while i < n
        invariant
            store.wf(),
            n == pending@.len(),
            i <= n,
            store@.objects == replay(old(store)@.objects, pending_view(pending@).take(i as int)),
            store@.id == old(store)@.id,
            store@.stat == old(store)@.stat,
        decreases n - i,
    {
        let u = &pending[i];
        let is_delete = match u.kind {
            EventType::Delete => true,
            EventType::Insert => false,
            EventType::Update => false,
        };
        apply_object(store, u.obj.clone(), is_delete);
        proof {
            let pv = pending_view(pending@);
            assert(pv.take(i + 1 as int).drop_last() =~= pv.take(i as int));
            assert(pv.take(i + 1 as int).last() == pv[i as int]);
        }
        i += 1;
    }
    proof {
        assert(pending_view(pending@).take(n as int) =~= pending_view(pending@));
    }
}

/// One swap, the single short critical section of the system: stamp the
/// write store's index statistics with the next iteration, exchange the
/// read/write labels without copying contents, publish the new read store
/// to the engine, and replay the drained pending queue into the store that
/// has just become the write store.
pub fn swap_stores(updater: &mut Updater, engine: &mut Engine)
    requires
        old(updater).wf(),
        old(updater)@.phase == UpdaterPhase::Running || old(updater)@.phase
            == UpdaterPhase::Stopping,
        old(updater)@.iteration < u64::MAX,
    ensures
        final(updater).wf(),
        swap_rel(old(updater)@, final(updater)@),
        final(engine)@.current == (StoreRef {
            slot: old(updater)@.read_slot.other(),
            iteration: (old(updater)@.iteration + 1) as u64,
        }),
        final(engine)@.queues == spec_broadcast(
            old(engine)@.queues,
            ControlTask::SetStore(final(engine)@.current),
        ),
        final(engine)@.worker_conf == old(engine)@.worker_conf,
        final(engine)@.shutdown == old(engine)@.shutdown,
{
    let it = updater.index_iteration + 1;
    updater.index_iteration = it;
    match updater.read_slot {
        StoreSlot::First => updater.second.rebuild_index(it),
        StoreSlot::Second => updater.first.rebuild_index(it),
    }
    updater.read_slot = updater.read_slot.flip();
    engine.set_new_store(StoreRef { slot: updater.read_slot, iteration: it });
    let mut drained: Vec<PendingUpdate> = Vec::new();
    core::mem::swap(&mut updater.slave_updates, &mut drained);
    // the stale former read store catches up on everything ingested since
    // it was last current
    match updater.read_slot {
        StoreSlot::First => replay_into(&mut updater.second, &drained),
        StoreSlot::Second => replay_into(&mut updater.first, &drained),
    }
    proof {
        assert(final(updater)@.pending =~= Seq::<UpdateView>::empty());
        assert(pending_view(drained@) =~= old(updater)@.pending);
    }
}

} // verus!
