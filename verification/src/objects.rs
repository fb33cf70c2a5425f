//! Domain objects replicated from the primary database.
//!
//! Every object is identified by an integer primary key; relations between
//! objects are plain foreign-key values, never references. Heterogeneous
//! storage is handled by the closed [`Object`] enumeration, so a stored value
//! always carries its type tag with it.

use vstd::prelude::*;

use crate::helpers::{dec_str, i32_to_string};

verus! {

/// Primary-key type shared by every domain object.
pub type IdType = i32;

/// Closed set of domain types that the replication stream can carry.
/// `Unknown` marks a table that this system does not replicate.
#[derive(Debug, Clone, Copy, PartialEq, Eq, Structural, Hash)]
pub enum ObjectType {
    Campaign,
    Package,
    Pad,
    PadRelation,
    TargetingPad,
    Unknown,
}

#[derive(Debug, PartialEq, Eq)]
pub struct Campaign {
    pub id: IdType,
    pub name: String,
    pub package_id: IdType,
}

pub ghost struct CampaignView {
    pub id: int,
    pub name: Seq<char>,
    pub package_id: int,
}

impl View for Campaign {
    type V = CampaignView;

    open spec fn view(&self) -> CampaignView {
        CampaignView { id: self.id as int, name: self.name@, package_id: self.package_id as int }
    }
}

#[derive(Debug, PartialEq, Eq)]
pub struct Package {
    pub id: IdType,
    pub name: String,
}

pub ghost struct PackageView {
    pub id: int,
    pub name: Seq<char>,
}

impl View for Package {
    type V = PackageView;

    open spec fn view(&self) -> PackageView {
        PackageView { id: self.id as int, name: self.name@ }
    }
}

#[derive(Debug, PartialEq, Eq)]
pub struct Pad {
    pub id: IdType,
    pub name: String,
}

pub ghost struct PadView {
    pub id: int,
    pub name: Seq<char>,
}

impl View for Pad {
    type V = PadView;

    open spec fn view(&self) -> PadView {
        PadView { id: self.id as int, name: self.name@ }
    }
}

#[derive(Debug, PartialEq, Eq)]
pub struct PadRelation {
    pub id: IdType,
    pub pad_id: IdType,
    pub parent_pad_id: IdType,
}

pub ghost struct PadRelationView {
    pub id: int,
    pub pad_id: int,
    pub parent_pad_id: int,
}

impl View for PadRelation {
    type V = PadRelationView;

    open spec fn view(&self) -> PadRelationView {
        PadRelationView {
            id: self.id as int,
            pad_id: self.pad_id as int,
            parent_pad_id: self.parent_pad_id as int,
        }
    }
}

#[derive(Debug, PartialEq, Eq)]
pub struct TargetingPad {
    pub id: IdType,
    pub object_id: IdType,
    pub object_type: String,
    pub positive: bool,
}

pub ghost struct TargetingPadView {
    pub id: int,
    pub object_id: int,
    pub object_type: Seq<char>,
    pub positive: bool,
}

impl View for TargetingPad {
    type V = TargetingPadView;

    open spec fn view(&self) -> TargetingPadView {
        TargetingPadView {
            id: self.id as int,
            object_id: self.object_id as int,
            object_type: self.object_type@,
            positive: self.positive,
        }
    }
}

/// One domain object of any supported type.
#[derive(Debug, PartialEq, Eq)]
pub enum Object {
    Campaign(Campaign),
    Package(Package),
    Pad(Pad),
    PadRelation(PadRelation),
    TargetingPad(TargetingPad),
}

pub ghost enum ObjectView {
    Campaign(CampaignView),
    Package(PackageView),
    Pad(PadView),
    PadRelation(PadRelationView),
    TargetingPad(TargetingPadView),
}

impl View for Object {
    type V = ObjectView;

    open spec fn view(&self) -> ObjectView {
        match self {
            Object::Campaign(c) => ObjectView::Campaign(c@),
            Object::Package(p) => ObjectView::Package(p@),
            Object::Pad(p) => ObjectView::Pad(p@),
            Object::PadRelation(p) => ObjectView::PadRelation(p@),
            Object::TargetingPad(t) => ObjectView::TargetingPad(t@),
        }
    }
}

/// Address of an object inside a store: its type partition and primary key.
pub ghost struct ObjKey {
    pub tag: ObjectType,
    pub id: int,
}

/// Storage address built from a type tag and a primary key.
pub open spec fn okey(tag: ObjectType, id: int) -> ObjKey {
    ObjKey { tag: tag, id: id }
}

impl ObjectView {
    /// Type partition this object lives in.
    pub open spec fn tag(self) -> ObjectType {
        match self {
            ObjectView::Campaign(_) => ObjectType::Campaign,
            ObjectView::Package(_) => ObjectType::Package,
            ObjectView::Pad(_) => ObjectType::Pad,
            ObjectView::PadRelation(_) => ObjectType::PadRelation,
            ObjectView::TargetingPad(_) => ObjectType::TargetingPad,
        }
    }

    /// Primary key of this object.
    pub open spec fn id(self) -> int {
        match self {
            ObjectView::Campaign(c) => c.id,
            ObjectView::Package(p) => p.id,
            ObjectView::Pad(p) => p.id,
            ObjectView::PadRelation(p) => p.id,
            ObjectView::TargetingPad(t) => t.id,
        }
    }

    /// Storage address of this object.
    pub open spec fn key(self) -> ObjKey {
        ObjKey { tag: self.tag(), id: self.id() }
    }
}

impl Object {
    /// Type partition this object belongs to.
    pub fn object_type(&self) -> (t: ObjectType)
        ensures
            t == self@.tag(),
    {
        match self {
            Object::Campaign(_) => ObjectType::Campaign,
            Object::Package(_) => ObjectType::Package,
            Object::Pad(_) => ObjectType::Pad,
            Object::PadRelation(_) => ObjectType::PadRelation,
            Object::TargetingPad(_) => ObjectType::TargetingPad,
        }
    }

    /// Primary key of this object.
    pub fn get_id(&self) -> (id: IdType)
        ensures
            id as int == self@.id(),
    {
        match self {
            Object::Campaign(c) => c.id,
            Object::Package(p) => p.id,
            Object::Pad(p) => p.id,
            Object::PadRelation(p) => p.id,
            Object::TargetingPad(t) => t.id,
        }
    }
}

impl Clone for Campaign {
    fn clone(&self) -> (r: Self)
        ensures
            r == *self,
    {
        Campaign { id: self.id, name: self.name.clone(), package_id: self.package_id }
    }
}

impl Clone for Package {
    fn clone(&self) -> (r: Self)
        ensures
            r == *self,
    {
        Package { id: self.id, name: self.name.clone() }
    }
}

impl Clone for Pad {
    fn clone(&self) -> (r: Self)
        ensures
            r == *self,
    {
        Pad { id: self.id, name: self.name.clone() }
    }
}

impl Clone for PadRelation {
    fn clone(&self) -> (r: Self)
        ensures
            r == *self,
    {
        PadRelation { id: self.id, pad_id: self.pad_id, parent_pad_id: self.parent_pad_id }
    }
}

impl Clone for TargetingPad {
    fn clone(&self) -> (r: Self)
        ensures
            r == *self,
    {
        TargetingPad {
            id: self.id,
            object_id: self.object_id,
            object_type: self.object_type.clone(),
            positive: self.positive,
        }
    }
}

impl Clone for Object {
    fn clone(&self) -> (r: Self)
        ensures
            r == *self,
    {
        match self {
            Object::Campaign(c) => Object::Campaign(c.clone()),
            Object::Package(p) => Object::Package(p.clone()),
            Object::Pad(p) => Object::Pad(p.clone()),
            Object::PadRelation(p) => Object::PadRelation(p.clone()),
            Object::TargetingPad(t) => Object::TargetingPad(t.clone()),
        }
    }
}

/// What the campaign debug line shows: every field, with the package id
/// rendered as a link to that package's detail page.
pub open spec fn spec_html_debug(c: CampaignView) -> Seq<char> {
    "id="@ + dec_str(c.id) + "</br>name="@ + c.name + "</br>package_id=<a href=\"/admin/store/package/"@
        + dec_str(c.package_id) + "\">"@ + dec_str(c.package_id) + "</a>"@
}

impl Campaign {
    /// Debug rendering of one campaign for the admin pages.
    pub fn html_debug(&self) -> (r: String)
        ensures
            r@ == spec_html_debug(self@),
    {
        let mut s = "id=".to_owned();
        let id_str = i32_to_string(self.id);
        s.append(id_str.as_str());
        s.append("</br>name=");
        s.append(self.name.as_str());
        s.append("</br>package_id=<a href=\"/admin/store/package/");
        let pid_str = i32_to_string(self.package_id);
        s.append(pid_str.as_str());
        s.append("\">");
        s.append(pid_str.as_str());
        s.append("</a>");
        s
    }
}

/// A stored value that exposes its primary key.
pub trait StorableRaw: Sized {
    /// The primary key, as a mathematical value.
    spec fn key_spec(&self) -> int;

    fn get_id(&self) -> (r: IdType)
        ensures
            r as int == self.key_spec(),
    ;
}

impl StorableRaw for Campaign {
    open spec fn key_spec(&self) -> int {
        self.id as int
    }

    fn get_id(&self) -> IdType {
        self.id
    }
}

impl StorableRaw for Package {
    open spec fn key_spec(&self) -> int {
        self.id as int
    }

    fn get_id(&self) -> IdType {
        self.id
    }
}

impl StorableRaw for Pad {
    open spec fn key_spec(&self) -> int {
        self.id as int
    }

    fn get_id(&self) -> IdType {
        self.id
    }
}

impl StorableRaw for PadRelation {
    open spec fn key_spec(&self) -> int {
        self.id as int
    }

    fn get_id(&self) -> IdType {
        self.id
    }
}

impl StorableRaw for TargetingPad {
    open spec fn key_spec(&self) -> int {
        self.id as int
    }

    fn get_id(&self) -> IdType {
        self.id
    }
}

} // verus!
