//! The route dispatcher: exact string match from a request path to one of
//! the five behaviors, or to not-found.

use vstd::prelude::*;
use crate::text::str_eq;

verus! {

/// The behavior the route dispatcher selects for a path.
#[derive(Clone, Copy, PartialEq, Eq, Structural, Debug)]
pub enum Route {
    /// `/`: the welcome page, with the structured event record.
    Welcome,
    /// `/panic`: the crash probe.
    Panic,
    /// `/test_memory_limit`: the memory probe.
    MemoryLimit,
    /// `/test_time_limit`: the wall-time probe.
    TimeLimit,
    /// `/test_vcpu_limit`: the compute-time probe.
    VcpuLimit,
    /// Any other path.
    NotFound,
}

/// Which behavior a path selects: exact match only, with no prefix or
/// wildcard semantics and no trailing-slash normalization.
pub open spec fn route_of(path: Seq<char>) -> Route {
    if path == "/"@ {
        Route::Welcome
    } else if path == "/panic"@ {
        Route::Panic
    } else if path == "/test_memory_limit"@ {
        Route::MemoryLimit
    } else if path == "/test_time_limit"@ {
        Route::TimeLimit
    } else if path == "/test_vcpu_limit"@ {
        Route::VcpuLimit
    } else {
        Route::NotFound
    }
}

/// Route dispatcher: maps the request path to exactly one behavior.
pub fn route(path: &str) -> (r: Route)
    ensures
        r == route_of(path@),
{
    if str_eq(path, "/") {
        Route::Welcome
    } else if str_eq(path, "/panic") {
        Route::Panic
    } else if str_eq(path, "/test_memory_limit") {
        Route::MemoryLimit
    } else if str_eq(path, "/test_time_limit") {
        Route::TimeLimit
    } else if str_eq(path, "/test_vcpu_limit") {
        Route::VcpuLimit
    } else {
        Route::NotFound
    }
}

} // verus!
