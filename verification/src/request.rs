//! Search requests, as plain values. Decoding them off the wire — URL
//! query parsing, base64, JSON or protocol-buffer payloads — is I/O-side
//! work and happens outside the library; the library resolves the decoded
//! request against the store.

use vstd::prelude::*;

verus! {

/// Wire format a search request arrived in; kept for diagnostics only.
#[derive(Debug, Clone, Copy, PartialEq, Eq, Structural)]
pub enum RequestFormat {
    Json,
    Proto,
}

/// The decoded parameters of one search request.
#[derive(Debug, PartialEq, Eq)]
pub struct SearchParams {
    pub name: String,
    pub id: i32,
    pub email: String,
}

pub ghost struct SearchParamsView {
    pub name: Seq<char>,
    pub id: int,
    pub email: Seq<char>,
}

impl View for SearchParams {
    type V = SearchParamsView;

    open spec fn view(&self) -> SearchParamsView {
        SearchParamsView { name: self.name@, id: self.id as int, email: self.email@ }
    }
}

/// One decoded search request.
#[derive(Debug, PartialEq, Eq)]
pub struct SearchRequest {
    pub req_fmt: RequestFormat,
    pub search_params: SearchParams,
}

pub ghost struct SearchRequestView {
    pub req_fmt: RequestFormat,
    pub search_params: SearchParamsView,
}

impl View for SearchRequest {
    type V = SearchRequestView;

    open spec fn view(&self) -> SearchRequestView {
        SearchRequestView { req_fmt: self.req_fmt, search_params: self.search_params@ }
    }
}

} // verus!
