//! Raw object table: a type-partitioned map from primary key to object.
//!
//! Each supported domain type has its own partition, so heterogeneous
//! objects share one container without type erasure. The view of the whole
//! table is a single map from [`ObjKey`] (type tag plus key) to object.

use vstd::prelude::*;

use crate::keymap::IdMap;
use crate::objects::{okey, Campaign, IdType, ObjKey, Object, ObjectType, ObjectView};
use crate::objects::{Package, Pad, PadRelation, TargetingPad};

verus! {

pub struct Storage {
    campaigns: IdMap<Campaign>,
    packages: IdMap<Package>,
    pads: IdMap<Pad>,
    pad_relations: IdMap<PadRelation>,
    targeting_pads: IdMap<TargetingPad>,
}

impl View for Storage {
    type V = Map<ObjKey, ObjectView>;

    closed spec fn view(&self) -> Map<ObjKey, ObjectView> {
        Map::new(
            |k: ObjKey|
                match k.tag {
                    ObjectType::Campaign => self.campaigns@.dom().contains(k.id),
                    ObjectType::Package => self.packages@.dom().contains(k.id),
                    ObjectType::Pad => self.pads@.dom().contains(k.id),
                    ObjectType::PadRelation => self.pad_relations@.dom().contains(k.id),
                    ObjectType::TargetingPad => self.targeting_pads@.dom().contains(k.id),
                    ObjectType::Unknown => false,
                },
            |k: ObjKey|
                match k.tag {
                    ObjectType::Campaign => ObjectView::Campaign(self.campaigns@[k.id]),
                    ObjectType::Package => ObjectView::Package(self.packages@[k.id]),
                    ObjectType::Pad => ObjectView::Pad(self.pads@[k.id]),
                    ObjectType::PadRelation => ObjectView::PadRelation(self.pad_relations@[k.id]),
                    ObjectType::TargetingPad => ObjectView::TargetingPad(
                        self.targeting_pads@[k.id],
                    ),
                    ObjectType::Unknown => arbitrary(),
                },
        )
    }
}

impl Storage {
    /// Every partition keeps its keys pairwise distinct.
    pub closed spec fn wf(self) -> bool {
        &&& self.campaigns.wf()
        &&& self.packages.wf()
        &&& self.pads.wf()
        &&& self.pad_relations.wf()
        &&& self.targeting_pads.wf()
    }

    pub fn new() -> (s: Self)
        ensures
            s.wf(),
            s@ == Map::<ObjKey, ObjectView>::empty(),
    {
        let s = Storage {
            campaigns: IdMap::new(),
            packages: IdMap::new(),
            pads: IdMap::new(),
            pad_relations: IdMap::new(),
            targeting_pads: IdMap::new(),
        };
        proof {
            assert(s@ =~= Map::<ObjKey, ObjectView>::empty());
        }
        s
    }

    /// Insert-or-replace by (type, key).
    pub fn update(&mut self, obj: Object)
        requires
            old(self).wf(),
        ensures
            final(self).wf(),
            final(self)@ == old(self)@.insert(obj@.key(), obj@),
    {
        let ghost o = obj@;
        match obj {
            Object::Campaign(c) => self.campaigns.insert(c.id, c),
            Object::Package(p) => self.packages.insert(p.id, p),
            Object::Pad(p) => self.pads.insert(p.id, p),
            Object::PadRelation(p) => self.pad_relations.insert(p.id, p),
            Object::TargetingPad(t) => self.targeting_pads.insert(t.id, t),
        }
        proof {
            assert(final(self)@ =~= old(self)@.insert(o.key(), o));
        }
    }

    /// Remove by (type, key); a no-op if the object is absent.
    pub fn delete(&mut self, obj: Object)
        requires
            old(self).wf(),
        ensures
            final(self).wf(),
            final(self)@ == old(self)@.remove(obj@.key()),
    {
        let ghost o = obj@;
        match obj {
            Object::Campaign(c) => self.campaigns.remove(c.id),
            Object::Package(p) => self.packages.remove(p.id),
            Object::Pad(p) => self.pads.remove(p.id),
            Object::PadRelation(p) => self.pad_relations.remove(p.id),
            Object::TargetingPad(t) => self.targeting_pads.remove(t.id),
        }
        proof {
            assert(final(self)@ =~= old(self)@.remove(o.key()));
        }
    }

    /// Typed lookup by key; absence is reported explicitly.
    pub fn try_get(&self, object_type: ObjectType, id: IdType) -> (r: Option<Object>)
        requires
            self.wf(),
        ensures
            match r {
                Some(o) => self@.dom().contains(okey(object_type, id as int)) && o@ == self@[okey(
                    object_type,
                    id as int,
                )],
                None => !self@.dom().contains(okey(object_type, id as int)),
            },
    {
        match object_type {
            ObjectType::Campaign => match self.campaigns.get(id) {
                Some(c) => Some(Object::Campaign(c.clone())),
                None => None,
            },
            ObjectType::Package => match self.packages.get(id) {
                Some(p) => Some(Object::Package(p.clone())),
                None => None,
            },
            ObjectType::Pad => match self.pads.get(id) {
                Some(p) => Some(Object::Pad(p.clone())),
                None => None,
            },
            ObjectType::PadRelation => match self.pad_relations.get(id) {
                Some(p) => Some(Object::PadRelation(p.clone())),
                None => None,
            },
            ObjectType::TargetingPad => match self.targeting_pads.get(id) {
                Some(t) => Some(Object::TargetingPad(t.clone())),
                None => None,
            },
            ObjectType::Unknown => None,
        }
    }

    /// Typed lookup by key; the caller promises the object is present.
    pub fn get(&self, object_type: ObjectType, id: IdType) -> (r: Object)
        requires
            self.wf(),
            self@.dom().contains(okey(object_type, id as int)),
        ensures
            r@ == self@[okey(object_type, id as int)],
    {
        match self.try_get(object_type, id) {
            Some(o) => o,
            None => vstd::pervasive::unreached(),
        }
    }

    /// All keys stored for a type, each exactly once, unordered; callers
    /// needing determinism must sort.
    pub fn list(&self, object_type: ObjectType) -> (r: Vec<IdType>)
        requires
            self.wf(),
        ensures
            forall|i: int, j: int| 0 <= i < j < r@.len() ==> r@[i] != r@[j],
            forall|i: int|
                0 <= i < r@.len() ==> self@.dom().contains(okey(object_type, #[trigger] r@[i] as int)),
            forall|k: int| #[trigger] self@.dom().contains(okey(object_type, k)) ==> exists|i: int|
                0 <= i < r@.len() && r@[i] as int == k,
    {
        match object_type {
            ObjectType::Campaign => self.campaigns.keys(),
            ObjectType::Package => self.packages.keys(),
            ObjectType::Pad => self.pads.keys(),
            ObjectType::PadRelation => self.pad_relations.keys(),
            ObjectType::TargetingPad => self.targeting_pads.keys(),
            ObjectType::Unknown => Vec::new(),
        }
    }
}

} // verus!
