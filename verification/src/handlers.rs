//! The decisions behind the admin and search endpoints. Rendering the
//! responses as HTML or JSON happens outside the library.

use vstd::prelude::*;

use crate::objects::{okey, Object, ObjectType};
use crate::request::SearchParams;
use crate::storage::Storage;
use crate::store::IndexStat;

verus! {

/// What the status endpoint reports: readiness and the index statistics.
#[derive(Debug, Clone, Copy, PartialEq, Eq, Structural)]
pub struct Status {
    pub is_ready: bool,
    pub index_stat: IndexStat,
}

/// The readiness decision of the status endpoint: the store is ready once
/// it has been through at least one swap, that is `iteration != 0`.
pub fn status_of(stat: &IndexStat) -> (s: Status)
    ensures
        s.is_ready == (stat.iteration != 0),
        s.index_stat == *stat,
{
    Status { is_ready: stat.iteration != 0, index_stat: *stat }
}

/// Resolve a search request against the store: campaigns are looked up by
/// the request's primary key; absence is reported, never an error.
pub fn search_campaign(storage: &Storage, params: &SearchParams) -> (r: Option<Object>)
    requires
        storage.wf(),
    ensures
        match r {
            Some(o) => storage@.dom().contains(okey(ObjectType::Campaign, params.id as int))
                && o@ == storage@[okey(ObjectType::Campaign, params.id as int)],
            None => !storage@.dom().contains(okey(ObjectType::Campaign, params.id as int)),
        },
{
    storage.try_get(ObjectType::Campaign, params.id)
}

} // verus!
