//! One generation's worth of objects: a raw object table plus the
//! statistics stamped by the most recent index rebuild.
//!
//! Two `Store` instances exist at all times; which one is the "read" and
//! which the "write" generation is decided by the updater, never by copying
//! contents.

use vstd::prelude::*;

use crate::aci::ActiveCampaignIndex;
use crate::helpers;
use crate::objects::{Campaign, ObjKey, Object, ObjectView, Package, Pad, PadRelation, TargetingPad};
use crate::storage::Storage;

verus! {

/// Statistics of the most recent index rebuild. `iteration == 0` means no
/// swap has happened yet, which readiness probes report as "not ready".
#[derive(Debug, Clone, Copy, PartialEq, Eq, Structural)]
pub struct IndexStat {
    pub iteration: u64,
    pub rebuild_start_ts: u64,
    pub rebuild_end_ts: u64,
    pub rebuild_duration_sec: u64,
}

impl IndexStat {
    /// The statistics of a store that has never been through a swap.
    pub open spec fn zero() -> IndexStat {
        IndexStat { iteration: 0, rebuild_start_ts: 0, rebuild_end_ts: 0, rebuild_duration_sec: 0 }
    }
}

impl Default for IndexStat {
    fn default() -> (s: Self)
        ensures
            s == IndexStat::zero(),
    {
        IndexStat { iteration: 0, rebuild_start_ts: 0, rebuild_end_ts: 0, rebuild_duration_sec: 0 }
    }
}

impl IndexStat {
    /// Readiness probe: the store has been through at least one swap.
    pub fn is_ready(&self) -> (r: bool)
        ensures
            r == (self.iteration != 0),
    {
        self.iteration != 0
    }
}

/// Which of the updater's two physical store instances is meant. The two
/// instances are perpetually recycled between the "read" and "write" roles;
/// a slot names an instance, never a role.
#[derive(Debug, Clone, Copy, PartialEq, Eq, Structural)]
pub enum StoreSlot {
    First,
    Second,
}

impl StoreSlot {
    /// The slot of the other store instance.
    pub open spec fn other(self) -> StoreSlot {
        match self {
            StoreSlot::First => StoreSlot::Second,
            StoreSlot::Second => StoreSlot::First,
        }
    }

    pub fn flip(self) -> (r: StoreSlot)
        ensures
            r == self.other(),
    {
        match self {
            StoreSlot::First => StoreSlot::Second,
            StoreSlot::Second => StoreSlot::First,
        }
    }
}

/// Reference to one store generation, as published to workers: the slot the
/// generation lives in and the swap iteration that published it.
#[derive(Debug, Clone, Copy, PartialEq, Eq, Structural)]
pub struct StoreRef {
    pub slot: StoreSlot,
    pub iteration: u64,
}

pub struct Store {
    /// Label to identify the physical instance in logs; never used to decide
    /// anything.
    pub id: String,
    raw_data: Storage,
    _aci: ActiveCampaignIndex,
    index_stat: IndexStat,
}

/// Mathematical content of a store: its label, its objects and its rebuild
/// statistics.
pub ghost struct StoreView {
    pub id: Seq<char>,
    pub objects: Map<ObjKey, ObjectView>,
    pub stat: IndexStat,
}

impl View for Store {
    type V = StoreView;

    closed spec fn view(&self) -> StoreView {
        StoreView { id: self.id@, objects: self.raw_data@, stat: self.index_stat }
    }
}

impl Store {
    pub closed spec fn wf(self) -> bool {
        self.raw_data.wf()
    }

    /// An empty store carrying the given label, with zeroed statistics.
    pub fn new(id: String) -> (s: Self)
        ensures
            s.wf(),
            s@.id == id@,
            s@.objects == Map::<ObjKey, ObjectView>::empty(),
            s@.stat == IndexStat::zero(),
    {
        Store {
            id,
            raw_data: Storage::new(),
            _aci: ActiveCampaignIndex::new(),
            index_stat: IndexStat::default(),
        }
    }

    /// Stamp the rebuild statistics for the given swap iteration. This is
    /// the extension point for derived indexes; none is built yet. The two
    /// clock readings come from the wall clock, so only their order is
    /// promised: the end stamp never precedes the start stamp.
    pub fn rebuild_index(&mut self, iteration: u64)
        requires
            old(self).wf(),
        ensures
            final(self).wf(),
            final(self)@.objects == old(self)@.objects,
            final(self)@.id == old(self)@.id,
            final(self)@.stat.iteration == iteration,
            final(self)@.stat.rebuild_start_ts <= final(self)@.stat.rebuild_end_ts,
            final(self)@.stat.rebuild_duration_sec == final(self)@.stat.rebuild_end_ts
                - final(self)@.stat.rebuild_start_ts,
    {
        self.index_stat.iteration = iteration;
        self.index_stat.rebuild_start_ts = helpers::cur_ts();
        let end = helpers::cur_ts();
        self.index_stat.rebuild_end_ts = if end >= self.index_stat.rebuild_start_ts {
            end
        } else {
            // The wall clock moved backwards between the two readings.
            self.index_stat.rebuild_start_ts
        };
        self.index_stat.rebuild_duration_sec = self.index_stat.rebuild_end_ts
            - self.index_stat.rebuild_start_ts;
    }

    pub fn get_store_stat(&self) -> (r: &IndexStat)
        ensures
            *r == self@.stat,
    {
        &self.index_stat
    }

    pub fn get_raw_data(&self) -> (r: &Storage)
        ensures
            r.wf() == self.wf(),
            r@ == self@.objects,
    {
        &self.raw_data
    }
}

/// A domain object that knows how to apply itself to a store. Insert and
/// update both resolve to replace-by-key; delete removes by key.
pub trait Storable: Sized {
    /// The object this value denotes, as stored.
    spec fn obj_view(self) -> ObjectView;

    fn insert(self, store: &mut Store)
        requires
            old(store).wf(),
        ensures
            final(store).wf(),
            final(store)@.objects == old(store)@.objects.insert(self.obj_view().key(), self.obj_view()),
            final(store)@.id == old(store)@.id,
            final(store)@.stat == old(store)@.stat,
    ;

    fn update(self, store: &mut Store, old_obj: Option<Self>)
        requires
            old(store).wf(),
        ensures
            final(store).wf(),
            final(store)@.objects == old(store)@.objects.insert(self.obj_view().key(), self.obj_view()),
            final(store)@.id == old(store)@.id,
            final(store)@.stat == old(store)@.stat,
    ;

    fn delete(self, store: &mut Store)
        requires
            old(store).wf(),
        ensures
            final(store).wf(),
            final(store)@.objects == old(store)@.objects.remove(self.obj_view().key()),
            final(store)@.id == old(store)@.id,
            final(store)@.stat == old(store)@.stat,
    ;
}

impl Storable for Campaign {
    open spec fn obj_view(self) -> ObjectView {
        ObjectView::Campaign(self@)
    }

    fn insert(self, store: &mut Store) {
        store.raw_data.update(Object::Campaign(self));
    }

    fn update(self, store: &mut Store, _old: Option<Self>) {
        store.raw_data.update(Object::Campaign(self));
    }

    fn delete(self, store: &mut Store) {
        store.raw_data.delete(Object::Campaign(self));
    }
}

impl Storable for Package {
    open spec fn obj_view(self) -> ObjectView {
        ObjectView::Package(self@)
    }

    fn insert(self, store: &mut Store) {
        store.raw_data.update(Object::Package(self));
    }

    fn update(self, store: &mut Store, _old: Option<Self>) {
        store.raw_data.update(Object::Package(self));
    }

    fn delete(self, store: &mut Store) {
        store.raw_data.delete(Object::Package(self));
    }
}

impl Storable for Pad {
    open spec fn obj_view(self) -> ObjectView {
        ObjectView::Pad(self@)
    }

    fn insert(self, store: &mut Store) {
        store.raw_data.update(Object::Pad(self));
    }

    fn update(self, store: &mut Store, _old: Option<Self>) {
        store.raw_data.update(Object::Pad(self));
    }

    fn delete(self, store: &mut Store) {
        store.raw_data.delete(Object::Pad(self));
    }
}

impl Storable for PadRelation {
    open spec fn obj_view(self) -> ObjectView {
        ObjectView::PadRelation(self@)
    }

    fn insert(self, store: &mut Store) {
        store.raw_data.update(Object::PadRelation(self));
    }

    fn update(self, store: &mut Store, _old: Option<Self>) {
        store.raw_data.update(Object::PadRelation(self));
    }

    fn delete(self, store: &mut Store) {
        store.raw_data.delete(Object::PadRelation(self));
    }
}

impl Storable for TargetingPad {
    open spec fn obj_view(self) -> ObjectView {
        ObjectView::TargetingPad(self@)
    }

    fn insert(self, store: &mut Store) {
        store.raw_data.update(Object::TargetingPad(self));
    }

    fn update(self, store: &mut Store, _old: Option<Self>) {
        store.raw_data.update(Object::TargetingPad(self));
    }

    fn delete(self, store: &mut Store) {
        store.raw_data.delete(Object::TargetingPad(self));
    }
}

/// Apply one object mutation to a store. Inserts and updates replace by
/// key; deletes remove by key.
pub fn apply_object(store: &mut Store, obj: Object, is_delete: bool)
    requires
        old(store).wf(),
    ensures
        final(store).wf(),
        final(store)@.objects == (if is_delete {
            old(store)@.objects.remove(obj@.key())
        } else {
            old(store)@.objects.insert(obj@.key(), obj@)
        }),
        final(store)@.id == old(store)@.id,
        final(store)@.stat == old(store)@.stat,
{
    if is_delete {
        store.raw_data.delete(obj);
    } else {
        store.raw_data.update(obj);
    }
}

} // verus!
