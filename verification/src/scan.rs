//! Routing decision for the scan endpoint.
//!
//! The surrounding HTTP server hands the request's method and path to
//! [`route`] and acts on the decision; the library takes no part in
//! transport or request parsing.

use crate::text::str_eq;
use vstd::prelude::*;

verus! {

/// Where a request is routed.
#[derive(Debug, PartialEq, Eq, Structural)]
pub enum ScanRoute {
    /// A scan submission: a POST to `/scan`.
    Scan,
    /// Any other request.
    NotFound,
}

/// Routes a request by method and path: a POST to `/scan` is a scan
/// submission; every other request is not found.
pub fn route(method: &str, path: &str) -> (r: ScanRoute)
    ensures
        r == ScanRoute::Scan <==> (method@ == "POST"@ && path@ == "/scan"@),
{
    if str_eq(method, "POST") && str_eq(path, "/scan") {
        ScanRoute::Scan
    } else {
        ScanRoute::NotFound
    }
}

} // verus!
