//! Placeholder for a derived activation index over campaigns.
//!
//! `Store::rebuild_index` is the extension point where such a secondary
//! structure would be rebuilt; no secondary structure is built yet, so this
//! is a stub, not a behavioral promise.

use vstd::prelude::*;

verus! {

#[derive(Debug)]
pub struct ActiveCampaignIndex {
    pub id: i32,
    pub name: String,
}

pub struct IndexParams {
    pub pad_id: i32,
    pub age: i32,
}

pub struct IndexResult {}

impl ActiveCampaignIndex {
    pub fn new() -> (r: Self)
        ensures
            r.id == 0,
            r.name@ == Seq::<char>::empty(),
    {
        ActiveCampaignIndex { id: 0, name: String::new() }
    }

    /// Lookup stub; always returns the empty result.
    pub fn _get(_params: &IndexParams) -> IndexResult {
        IndexResult {  }
    }
}

} // verus!
