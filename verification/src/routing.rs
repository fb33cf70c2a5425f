//! Request routing: the dispatch decisions the worker and the admin
//! handler make on a request path. The paths are handled as raw bytes, as
//! they arrive; a malformed path routes to a diagnostic response, never to
//! a panic.

use vstd::prelude::*;

use crate::objects::{IdType, ObjectType};

verus! {

/// Where a worker dispatches a request, by path prefix.
#[derive(Debug, Clone, Copy, PartialEq, Eq, Structural)]
pub enum Route {
    Admin,
    Search,
    Unknown,
}

/// What the admin handler does with a request path.
#[derive(Debug, Clone, Copy, PartialEq, Eq, Structural)]
pub enum AdminRoute {
    Root,
    Status,
    StoreIndex,
    Objects(ObjectType),
    ObjectDetail(ObjectType, IdType),
    UnknownUrl,
}

/// The bytes of `/admin`.
pub open spec fn admin_path() -> Seq<u8> {
    seq![47u8, 97, 100, 109, 105, 110]
}

/// The bytes of `/search`.
pub open spec fn search_path() -> Seq<u8> {
    seq![47u8, 115, 101, 97, 114, 99, 104]
}

/// The bytes of `/admin/status`.
pub open spec fn admin_status_path() -> Seq<u8> {
    admin_path() + seq![47u8, 115, 116, 97, 116, 117, 115]
}

/// The bytes of `/admin/store`.
pub open spec fn admin_store_path() -> Seq<u8> {
    admin_path() + seq![47u8, 115, 116, 111, 114, 101]
}

/// The bytes of `campaign`, `package` and `pad`: the types the admin store
/// pages browse.
pub open spec fn campaign_name() -> Seq<u8> {
    seq![99u8, 97, 109, 112, 97, 105, 103, 110]
}

pub open spec fn package_name() -> Seq<u8> {
    seq![112u8, 97, 99, 107, 97, 103, 101]
}

pub open spec fn pad_name() -> Seq<u8> {
    seq![112u8, 97, 100]
}

pub open spec fn has_prefix(b: Seq<u8>, p: Seq<u8>) -> bool {
    b.len() >= p.len() && b.subrange(0, p.len() as int) == p
}

/// Worker dispatch: admin and search by path prefix, anything else is
/// answered with a diagnostic.
pub open spec fn spec_route(b: Seq<u8>) -> Route {
    if has_prefix(b, admin_path()) {
        Route::Admin
    } else if has_prefix(b, search_path()) {
        Route::Search
    } else {
        Route::Unknown
    }
}

fn bytes_eq(b: &[u8], p: &[u8]) -> (r: bool)
    ensures
        r == (b@ == p@),
{
    if b.len() != p.len() {
        proof {
            assert(b@ != p@);
        }
        return false;
    }
    let n = b.len();
    let mut i: usize = 0;
    while i < n
        invariant
            n == b@.len(),
            n == p@.len(),
            i <= n,
            forall|j: int| 0 <= j < i ==> b@[j] == p@[j],
        decreases n - i,
    {
        if b[i] != p[i] {
            proof {
                assert(b@[i as int] != p@[i as int]);
            }
            return false;
        }
        i += 1;
    }
    proof {
        assert(b@ =~= p@);
    }
    true
}

fn bytes_has_prefix(b: &[u8], p: &[u8]) -> (r: bool)
    ensures
        r == has_prefix(b@, p@),
{
    if b.len() < p.len() {
        return false;
    }
    let n = p.len();
    let mut i: usize = 0;
    while i < n
        invariant
            n == p@.len(),
            b@.len() >= n,
            i <= n,
            forall|j: int| 0 <= j < i ==> b@[j] == p@[j],
        decreases n - i,
    {
        if b[i] != p[i] {
            proof {
                if has_prefix(b@, p@) {
                    assert(b@.subrange(0, p@.len() as int)[i as int] == p@[i as int]);
                }
            }
            return false;
        }
        i += 1;
    }
    proof {
        assert(b@.subrange(0, p@.len() as int) =~= p@);
    }
    true
}

/// Decide where a request path dispatches: `/admin...` to the admin
/// handler, `/search...` to the search handler, anything else to the
/// unknown-method response.
pub fn route_of(url: &[u8]) -> (r: Route)
    ensures
        r == spec_route(url@),
{
    let admin: [u8; 6] = [47, 97, 100, 109, 105, 110];
    let search: [u8; 7] = [47, 115, 101, 97, 114, 99, 104];
    proof {
        assert(admin@ =~= admin_path());
        assert(search@ =~= search_path());
    }
    if bytes_has_prefix(url, admin.as_slice()) {
        Route::Admin
    } else if bytes_has_prefix(url, search.as_slice()) {
        Route::Search
    } else {
        Route::Unknown
    }
}

pub open spec fn is_digit(c: u8) -> bool {
    48 <= c <= 57
}

pub open spec fn all_digits(b: Seq<u8>) -> bool {
    forall|i: int| 0 <= i < b.len() ==> is_digit(#[trigger] b[i])
}

/// The number a digit string denotes.
pub open spec fn digits_val(b: Seq<u8>) -> int
    decreases b.len(),
{
    if b.len() == 0 {
        0
    } else {
        digits_val(b.drop_last()) * 10 + (b.last() - 48)
    }
}

/// What a primary key in a request path parses to: the denoted value for an
/// optional minus sign followed by decimal digits, when it fits the key
/// type; nothing for anything else.
pub open spec fn spec_parse_id(b: Seq<u8>) -> Option<IdType> {
    if b.len() >= 2 && b[0] == 45 && all_digits(b.drop_first()) {
        if digits_val(b.drop_first()) <= 0x8000_0000 {
            Some((-digits_val(b.drop_first())) as IdType)
        } else {
            None
        }
    } else if b.len() >= 1 && all_digits(b) {
        if digits_val(b) <= 0x7fff_ffff {
            Some(digits_val(b) as IdType)
        } else {
            None
        }
    } else {
        None
    }
}

/// Parse the digits of `b` from `start` on, saturating just above the key
/// range so overflow is detected without being computed.
fn parse_digits(b: &[u8], start: usize) -> (r: Option<i64>)
    requires
        start <= b@.len(),
    ensures
        match r {
            Some(v) => 0 <= v <= 0x8000_0001 && all_digits(b@.skip(start as int)) && b@.len()
                > start && (if digits_val(
                b@.skip(start as int),
            ) <= 0x8000_0000 {
                v == digits_val(b@.skip(start as int))
            } else {
                v == 0x8000_0001
            }),
            None => !all_digits(b@.skip(start as int)) || b@.len() == start,
        },
{
    if b.len() == start {
        return None;
    }
    let ghost d = b@.skip(start as int);
    let n = b.len();
    let mut i: usize = start;
    let mut val: i64 = 0;
    proof {
        assert(d.take(0) =~= Seq::<u8>::empty());
    }
    while i < n
        invariant
            start <= i <= n,
            n == b@.len(),
            n > start,
            d == b@.skip(start as int),
            d.len() == n - start,
            forall|j: int| 0 <= j < i - start ==> is_digit(#[trigger] d[j]),
            0 <= val <= 0x8000_0001,
            (if digits_val(d.take(i - start)) <= 0x8000_0000 {
                val == digits_val(d.take(i - start))
            } else {
                val == 0x8000_0001
            }),
        decreases n - i,
    {
        let c = b[i];
        if c < 48 || c > 57 {
            proof {
                assert(d[i - start] == b@[i as int]);
                assert(!is_digit(d[i - start]));
            }
            return None;
        }
        let ghost k = i - start;
        proof {
            assert(d.take(k + 1).drop_last() =~= d.take(k as int));
            assert(d.take(k + 1).last() == d[k as int]);
            assert(d[k as int] == b@[i as int]);
        }
        let x: i64 = val * 10 + ((c - 48) as i64);
        if x <= 0x8000_0000 {
            val = x;
        } else {
            val = 0x8000_0001;
        }
        i += 1;
    }
    proof {
        assert(d.take(n - start) =~= d);
    }
    Some(val)
}

/// Parse a primary key out of a path segment. A malformed segment yields
/// nothing; it never panics.
pub fn parse_id(b: &[u8]) -> (r: Option<IdType>)
    ensures
        r == spec_parse_id(b@),
{
    let neg = b.len() >= 1 && b[0] == 45;
    let start: usize = if neg {
        1
    } else {
        0
    };
    match parse_digits(b, start) {
        Some(v) => {
            if neg {
                proof {
                    assert(b@.skip(1) =~= b@.drop_first());
                }
                if v <= 0x8000_0000 {
                    Some((-v) as IdType)
                } else {
                    None
                }
            } else {
                proof {
                    assert(b@.skip(0) =~= b@);
                }
                if v <= 0x7fff_ffff {
                    Some(v as IdType)
                } else {
                    None
                }
            }
        },
        None => {
            proof {
                if neg {
                    assert(b@.skip(1) =~= b@.drop_first());
                } else {
                    assert(b@.skip(0) =~= b@);
                }
            }
            None
        },
    }
}

/// The type tag an admin store page name denotes; only campaigns, packages
/// and pads are browsable.
pub open spec fn spec_admin_type(b: Seq<u8>) -> ObjectType {
    if b == campaign_name() {
        ObjectType::Campaign
    } else if b == package_name() {
        ObjectType::Package
    } else if b == pad_name() {
        ObjectType::Pad
    } else {
        ObjectType::Unknown
    }
}

fn admin_type_of(b: &[u8]) -> (t: ObjectType)
    ensures
        t == spec_admin_type(b@),
{
    let campaign: [u8; 8] = [99, 97, 109, 112, 97, 105, 103, 110];
    let package: [u8; 7] = [112, 97, 99, 107, 97, 103, 101];
    let pad: [u8; 3] = [112, 97, 100];
    proof {
        assert(campaign@ =~= campaign_name());
        assert(package@ =~= package_name());
        assert(pad@ =~= pad_name());
    }
    if bytes_eq(b, campaign.as_slice()) {
        ObjectType::Campaign
    } else if bytes_eq(b, package.as_slice()) {
        ObjectType::Package
    } else if bytes_eq(b, pad.as_slice()) {
        ObjectType::Pad
    } else {
        ObjectType::Unknown
    }
}

/// The admin page a path under `/admin/store/` denotes. `tail` is the part
/// after that prefix: a browsable type name lists that type's objects; the
/// name, a slash and a well-formed key shows one object; anything else is
/// answered with a diagnostic.
pub open spec fn spec_store_route(tail: Seq<u8>) -> AdminRoute {
    if !(exists|i: int| 0 <= i < tail.len() && tail[i] == 47) {
        if spec_admin_type(tail) != ObjectType::Unknown {
            AdminRoute::Objects(spec_admin_type(tail))
        } else {
            AdminRoute::UnknownUrl
        }
    } else {
        let cut = choose|i: int|
            0 <= i < tail.len() && tail[i] == 47 && (forall|j: int|
                0 <= j < i ==> tail[j] != 47);
        match spec_parse_id(tail.skip(cut + 1)) {
            Some(id) => if spec_admin_type(tail.take(cut)) != ObjectType::Unknown {
                AdminRoute::ObjectDetail(spec_admin_type(tail.take(cut)), id)
            } else {
                AdminRoute::UnknownUrl
            },
            None => AdminRoute::UnknownUrl,
        }
    }
}

/// Index of the first slash in `tail`, if any.
fn find_slash(tail: &[u8]) -> (r: Option<usize>)
    ensures
        match r {
            Some(i) => i < tail@.len() && tail@[i as int] == 47 && (forall|j: int|
                0 <= j < i ==> tail@[j] != 47),
            None => forall|j: int| 0 <= j < tail@.len() ==> tail@[j] != 47,
        },
{
    let n = tail.len();
    let mut i: usize = 0;
    while i < n
        invariant
            n == tail@.len(),
            i <= n,
            forall|j: int| 0 <= j < i ==> tail@[j] != 47,
        decreases n - i,
    {
        if tail[i] == 47 {
            return Some(i);
        }
        i += 1;
    }
    None
}

/// The admin dispatch: `/admin` is the landing page, `/admin/status` the
/// readiness probe, `/admin/store` the type index, and `/admin/store/...`
/// browses objects; every other path is answered with a diagnostic.
pub open spec fn spec_admin_route(b: Seq<u8>) -> AdminRoute {
    if b == admin_path() {
        AdminRoute::Root
    } else if b == admin_status_path() {
        AdminRoute::Status
    } else if b == admin_store_path() {
        AdminRoute::StoreIndex
    } else if has_prefix(b, admin_store_path() + seq![47u8]) {
        spec_store_route(b.skip(admin_store_path().len() as int + 1))
    } else {
        AdminRoute::UnknownUrl
    }
}

/// Route one admin request path.
pub fn admin_route(url: &[u8]) -> (r: AdminRoute)
    ensures
        r == spec_admin_route(url@),
{
    let admin: [u8; 6] = [47, 97, 100, 109, 105, 110];
    let status: [u8; 13] = [47, 97, 100, 109, 105, 110, 47, 115, 116, 97, 116, 117, 115];
    let store: [u8; 12] = [47, 97, 100, 109, 105, 110, 47, 115, 116, 111, 114, 101];
    let store_slash: [u8; 13] = [47, 97, 100, 109, 105, 110, 47, 115, 116, 111, 114, 101, 47];
    proof {
        assert(admin@ =~= admin_path());
        assert(status@ =~= admin_status_path());
        assert(store@ =~= admin_store_path());
        assert(store_slash@ =~= admin_store_path() + seq![47u8]);
    }
    if bytes_eq(url, admin.as_slice()) {
        AdminRoute::Root
    } else if bytes_eq(url, status.as_slice()) {
        AdminRoute::Status
    } else if bytes_eq(url, store.as_slice()) {
        AdminRoute::StoreIndex
    } else if bytes_has_prefix(url, store_slash.as_slice()) {
        let tail: &[u8] = &url[13..url.len()];
        proof {
            assert(tail@ =~= url@.skip(admin_store_path().len() as int + 1));
        }
        match find_slash(tail) {
            None => {
                proof {
                    assert(!(exists|i: int| 0 <= i < tail@.len() && tail@[i] == 47));
                }
                let t = admin_type_of(tail);
                match t {
                    ObjectType::Unknown => AdminRoute::UnknownUrl,
                    _ => AdminRoute::Objects(t),
                }
            },
            Some(cut) => {
                proof {
                    let w = choose|i: int|
                        0 <= i < tail@.len() && tail@[i] == 47 && (forall|j: int|
                            0 <= j < i ==> tail@[j] != 47);
                    assert(tail@[cut as int] == 47);
                    if w != cut as int {
                        if w < cut as int {
                            assert(tail@[w] != 47);
                        } else {
                            assert(tail@[cut as int] != 47);
                        }
                    }
                    assert(w == cut as int);
                }
                let name: &[u8] = &tail[0..cut];
                let id_part: &[u8] = &tail[cut + 1..tail.len()];
                proof {
                    assert(name@ =~= tail@.take(cut as int));
                    assert(id_part@ =~= tail@.skip(cut as int + 1));
                }
                let t = admin_type_of(name);
                match t {
                    ObjectType::Unknown => AdminRoute::UnknownUrl,
                    _ => match parse_id(id_part) {
                        Some(id) => AdminRoute::ObjectDetail(t, id),
                        None => AdminRoute::UnknownUrl,
                    },
                }
            },
        }
    } else {
        AdminRoute::UnknownUrl
    }
}

} // verus!
