//! The responses the service can produce: the fixed texts, the exact
//! response owed to every method and path, builders that meet that
//! specification, and the laws the response mapping obeys.

use vstd::prelude::*;
use crate::http::{ContentType, Method, Response, ResponseModel, method_allowed};
use crate::routes::{Route, route_of};

verus! {

/// The value of the `Allow` header on a rejected method.
pub open spec fn allow_text() -> Seq<char> {
    "GET, HEAD"@
}

/// The body of the terminal 405 response.
pub open spec fn method_not_allowed_text() -> Seq<char> {
    "This method is not allowed\n"@
}

/// The body of the 404 response.
pub open spec fn not_found_text() -> Seq<char> {
    "The page you requested could not be found\n"@
}

/// The welcome page served for `/`.
pub open spec fn welcome_text() -> Seq<char> {
    "<!DOCTYPE html><html><head><title>Welcome to the resource limit probes</title></head><body><h1>Welcome</h1><p>This service deliberately exceeds platform resource limits, one probe path per limit.</p></body></html>\n"@
}

/// The body completing the crash probe; unreachable when the fault is
/// fatal to the host process.
pub open spec fn panic_text() -> Seq<char> {
    "panic test\n"@
}

/// The body completing the memory probe.
pub open spec fn memory_text() -> Seq<char> {
    "memory consumption limit test\n"@
}

/// The body completing the wall-time probe.
pub open spec fn time_text() -> Seq<char> {
    "execution time limit test\n"@
}

/// The body completing the compute-time probe.
pub open spec fn vcpu_text() -> Seq<char> {
    "vCPU consumption limit test\n"@
}

/// The response owed to a request the method filter rejects: status 405,
/// an `Allow: GET, HEAD` header, and the fixed plain-text body.
pub open spec fn method_not_allowed_model() -> ResponseModel {
    ResponseModel {
        status: 405,
        content_type: ContentType::PlainText,
        allow: Some(allow_text()),
        body: method_not_allowed_text(),
    }
}

/// The response owed on completion of each routed behavior.
pub open spec fn route_response_model(r: Route) -> ResponseModel {
    match r {
        Route::Welcome => ResponseModel {
            status: 200,
            content_type: ContentType::Html,
            allow: None,
            body: welcome_text(),
        },
        Route::Panic => ResponseModel {
            status: 200,
            content_type: ContentType::PlainText,
            allow: None,
            body: panic_text(),
        },
        Route::MemoryLimit => ResponseModel {
            status: 200,
            content_type: ContentType::PlainText,
            allow: None,
            body: memory_text(),
        },
        Route::TimeLimit => ResponseModel {
            status: 200,
            content_type: ContentType::PlainText,
            allow: None,
            body: time_text(),
        },
        Route::VcpuLimit => ResponseModel {
            status: 200,
            content_type: ContentType::PlainText,
            allow: None,
            body: vcpu_text(),
        },
        Route::NotFound => ResponseModel {
            status: 404,
            content_type: ContentType::PlainText,
            allow: None,
            body: not_found_text(),
        },
    }
}

/// What the service returns for a request: the method filter decides
/// first; an admitted request gets the response of its routed behavior.
pub open spec fn response_model_of(m: Method, path: Seq<char>) -> ResponseModel {
    if !method_allowed(m) {
        method_not_allowed_model()
    } else {
        route_response_model(route_of(path))
    }
}

/// The terminal response for a rejected method.
pub fn method_not_allowed_response() -> (r: Response)
    ensures
        r@ == method_not_allowed_model(),
{
    Response {
        status: 405,
        content_type: ContentType::PlainText,
        allow: Some("GET, HEAD".to_owned()),
        body: "This method is not allowed\n".to_owned(),
    }
}

/// The completed response for a routed behavior.
pub fn route_response(r: Route) -> (resp: Response)
    ensures
        resp@ == route_response_model(r),
{
    match r {
        Route::Welcome => Response {
            status: 200,
            content_type: ContentType::Html,
            allow: None,
            body: "<!DOCTYPE html><html><head><title>Welcome to the resource limit probes</title></head><body><h1>Welcome</h1><p>This service deliberately exceeds platform resource limits, one probe path per limit.</p></body></html>\n".to_owned(),
        },
        Route::Panic => Response {
            status: 200,
            content_type: ContentType::PlainText,
            allow: None,
            body: "panic test\n".to_owned(),
        },
        Route::MemoryLimit => Response {
            status: 200,
            content_type: ContentType::PlainText,
            allow: None,
            body: "memory consumption limit test\n".to_owned(),
        },
        Route::TimeLimit => Response {
            status: 200,
            content_type: ContentType::PlainText,
            allow: None,
            body: "execution time limit test\n".to_owned(),
        },
        Route::VcpuLimit => Response {
            status: 200,
            content_type: ContentType::PlainText,
            allow: None,
            body: "vCPU consumption limit test\n".to_owned(),
        },
        Route::NotFound => Response {
            status: 404,
            content_type: ContentType::PlainText,
            allow: None,
            body: "The page you requested could not be found\n".to_owned(),
        },
    }
}

/// Law: every request whose method is neither GET nor HEAD is answered
/// with status 405, an `Allow` header of `GET, HEAD`, and the fixed
/// plain-text body, whatever its path.
pub proof fn lemma_disallowed_method_rejected(m: Method, path: Seq<char>)
    requires
        m != Method::Get,
        m != Method::Head,
    ensures
        response_model_of(m, path).status == 405,
        response_model_of(m, path).allow == Some(allow_text()),
        response_model_of(m, path).body == method_not_allowed_text(),
        response_model_of(m, path).content_type == ContentType::PlainText,
{
}

/// Law: an allowed method on a path no behavior is mapped to is answered
/// with status 404 and the fixed not-found body.
pub proof fn lemma_unmapped_path_not_found(m: Method, path: Seq<char>)
    requires
        method_allowed(m),
        path != "/"@,
        path != "/panic"@,
        path != "/test_memory_limit"@,
        path != "/test_time_limit"@,
        path != "/test_vcpu_limit"@,
    ensures
        response_model_of(m, path).status == 404,
        response_model_of(m, path).body == not_found_text(),
{
}

/// Law: an allowed method on a mapped path is answered with status 200
/// and the routed behavior's fixed response, whichever of GET and HEAD
/// was used.
pub proof fn lemma_mapped_path_completes(m: Method, path: Seq<char>)
    requires
        method_allowed(m),
        route_of(path) != Route::NotFound,
    ensures
        response_model_of(m, path).status == 200,
        response_model_of(m, path) == route_response_model(route_of(path)),
{
}

/// Law: the response is a function of method and path alone, so issuing
/// the same request twice produces identical responses: same status,
/// same headers, same body.
pub proof fn lemma_response_repeatable(m: Method, path: Seq<char>, r1: ResponseModel, r2: ResponseModel)
    requires
        r1 == response_model_of(m, path),
        r2 == response_model_of(m, path),
    ensures
        r1 == r2,
{
}

} // verus!
