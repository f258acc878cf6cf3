//! Request construction shared by all endpoints: pagination query
//! parameters, the per-request authentication context, and error
//! categories.

use vstd::prelude::*;
use vstd::string::StringExecFns;
use crate::auth::AccessToken;

verus! {

/// Why a request failed: either the transport layer (connection
/// failure or a non-2xx HTTP status) or a response body that does not
/// match the expected JSON shape.
#[derive(Clone, Copy, Debug, PartialEq, Eq, Structural)]
pub enum ApiError {
    Transport,
    Deserialization,
}

/// Cursor- and offset-based pagination settings.
///
/// Zero acts as the sentinel for "absent": a field equal to zero is
/// omitted from the query string.
#[derive(Debug)]
pub struct Pagination {
    /// An epoch timestamp to use for filtering results
    /// that have taken place before a certain time.
    /// (when using time-based cursors)
    pub before: u64,

    /// An epoch timestamp to use for filtering results
    /// that have taken place after a certain time.
    /// (when using time-based cursors)
    pub after: u64,

    /// Page number (when using page-based cursors)
    pub page: u32,

    /// Number of items per page. Defaults to 30
    pub per_page: u32,
}

/// The exact query pairs a `Pagination` yields: only non-zero fields,
/// in the fixed order before, after, page, per_page.
pub open spec fn query_of(p: Pagination) -> Seq<(&'static str, u64)> {
    let q = Seq::<(&'static str, u64)>::empty();
    let q = if p.before > 0 { q.push(("before", p.before)) } else { q };
    let q = if p.after > 0 { q.push(("after", p.after)) } else { q };
    let q = if p.page > 0 { q.push(("page", p.page as u64)) } else { q };
    let q = if p.per_page > 0 { q.push(("per_page", p.per_page as u64)) } else { q };
    q
}

impl Pagination {
    /// Emits the query pairs for this pagination: each field is
    /// omitted exactly when it equals the zero sentinel, and the
    /// emitted pairs come in the fixed order before, after, page,
    /// per_page.
    pub fn as_query(&self) -> (query: Vec<(&'static str, u64)>)
        ensures
            query@ == query_of(*self),
    {
        let mut query: Vec<(&'static str, u64)> = Vec::new();
        if self.before > 0 {
            query.push(("before", self.before));
        }
        if self.after > 0 {
            query.push(("after", self.after));
        }
        if self.page > 0 {
            query.push(("page", self.page as u64));
        }
        if self.per_page > 0 {
            query.push(("per_page", self.per_page as u64));
        }
        query
    }
}

impl Default for Pagination {
    /// The default pagination: no cursors, no page, 30 items per page.
    fn default() -> (p: Pagination)
        ensures
            p.before == 0,
            p.after == 0,
            p.page == 0,
            p.per_page == 30,
    {
        Pagination { before: 0, after: 0, page: 0, per_page: 30 }
    }
}

/// Per-request authentication identity; constructed per call.
#[derive(Debug)]
pub struct Context {
    pub access_token: AccessToken,
}

/// The URL of a request: exactly the base URL with the path appended.
pub fn request_url(base_url: &str, path: &str) -> (url: String)
    ensures
        url@ == base_url@ + path@,
{
    base_url.to_owned().concat(path)
}

} // verus!
