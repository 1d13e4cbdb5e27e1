use resource_limit_test::handler::{handle_request, HandlerOutcome, RequestInput};
use resource_limit_test::http::{ContentType, Method};
use resource_limit_test::responses::{method_not_allowed_response, route_response};
use resource_limit_test::routes::{route, Route};

fn input(method: Method, method_text: &str, path: &str) -> RequestInput {
    RequestInput {
        method,
        method_text: method_text.to_string(),
        path: path.to_string(),
        url: format!("http://example.com{}", path),
        host: Some("example.com".to_string()),
        client_ip: Some("203.0.113.7".to_string()),
        trace_id: "trace-1234".to_string(),
    }
}

#[test]
fn rejected_method_gets_405_on_any_path() {
    for path in ["/", "/panic", "/test_memory_limit", "/unknown", ""] {
        let out = handle_request(input(Method::Other, "POST", path));
        assert_eq!(out.response.status, 405);
        assert_eq!(out.response.allow.as_deref(), Some("GET, HEAD"));
        assert_eq!(out.response.body, "This method is not allowed\n");
        assert_eq!(out.response.content_type, ContentType::PlainText);
        assert!(out.record.is_none());
    }
}

#[test]
fn method_not_allowed_response_is_fixed() {
    let r = method_not_allowed_response();
    assert_eq!(r.status, 405);
    assert_eq!(r.allow.as_deref(), Some("GET, HEAD"));
    assert_eq!(r.body, "This method is not allowed\n");
    assert_eq!(r.content_type, ContentType::PlainText);
}

#[test]
fn welcome_get_returns_html_and_one_record() {
    let out = handle_request(input(Method::Get, "GET", "/"));
    assert_eq!(out.response.status, 200);
    assert_eq!(out.response.content_type, ContentType::Html);
    assert!(out.response.allow.is_none());
    assert!(out.response.body.starts_with("<!DOCTYPE html>"));
    assert_eq!(out.response.body, route_response(Route::Welcome).body);
    let record = out.record.expect("the welcome path must produce the event record");
    assert_eq!(record.request_method, "GET");
    assert_eq!(record.url, "http://example.com/");
    assert_eq!(record.host.as_deref(), Some("example.com"));
    assert_eq!(record.client_ip, "203.0.113.7");
    assert_eq!(record.trace_id, "trace-1234");
    let ts = record.timestamp.as_bytes();
    assert_eq!(ts.len(), 30);
    assert_eq!(ts[4], b'-');
    assert_eq!(ts[7], b'-');
    assert_eq!(ts[10], b' ');
    assert_eq!(ts[13], b':');
    assert_eq!(ts[16], b':');
    assert_eq!(ts[19], b'.');
    assert!(record.timestamp.ends_with(" UTC"));
}

#[test]
fn welcome_without_client_address_logs_an_empty_one() {
    let mut req = input(Method::Get, "GET", "/");
    req.client_ip = None;
    let out = handle_request(req);
    assert_eq!(out.response.status, 200);
    let record = out.record.expect("the welcome path must produce the event record");
    assert_eq!(record.client_ip, "");
}

#[test]
fn welcome_head_is_allowed_too() {
    let out = handle_request(input(Method::Head, "HEAD", "/"));
    assert_eq!(out.response.status, 200);
    assert_eq!(out.response.content_type, ContentType::Html);
    let record = out.record.expect("the welcome path must produce the event record");
    assert_eq!(record.request_method, "HEAD");
}

#[test]
fn unknown_path_gets_404_and_no_record() {
    let out = handle_request(input(Method::Get, "GET", "/unknown"));
    assert_eq!(out.response.status, 404);
    assert_eq!(out.response.body, "The page you requested could not be found\n");
    assert_eq!(out.response.content_type, ContentType::PlainText);
    assert!(out.response.allow.is_none());
    assert!(out.record.is_none());
}

#[test]
fn route_maps_each_path_exactly() {
    assert_eq!(route("/"), Route::Welcome);
    assert_eq!(route("/panic"), Route::Panic);
    assert_eq!(route("/test_memory_limit"), Route::MemoryLimit);
    assert_eq!(route("/test_time_limit"), Route::TimeLimit);
    assert_eq!(route("/test_vcpu_limit"), Route::VcpuLimit);
    assert_eq!(route("/unknown"), Route::NotFound);
}

#[test]
fn routing_is_exact_match_only() {
    assert_eq!(route(""), Route::NotFound);
    assert_eq!(route("/panic/"), Route::NotFound);
    assert_eq!(route("/PANIC"), Route::NotFound);
    assert_eq!(route("/test_memory_limit/extra"), Route::NotFound);
    assert_eq!(route("//"), Route::NotFound);
    assert_eq!(route("/test_time_limit?x=1"), Route::NotFound);
}

#[test]
fn probe_routes_complete_with_200_and_fixed_bodies() {
    let panic_resp = route_response(Route::Panic);
    assert_eq!(panic_resp.status, 200);
    assert_eq!(panic_resp.body, "panic test\n");
    assert_eq!(panic_resp.content_type, ContentType::PlainText);

    let mem = route_response(Route::MemoryLimit);
    assert_eq!(mem.status, 200);
    assert_eq!(mem.body, "memory consumption limit test\n");
    assert_eq!(mem.content_type, ContentType::PlainText);

    let time = route_response(Route::TimeLimit);
    assert_eq!(time.status, 200);
    assert_eq!(time.body, "execution time limit test\n");
    assert_eq!(time.content_type, ContentType::PlainText);

    let vcpu = route_response(Route::VcpuLimit);
    assert_eq!(vcpu.status, 200);
    assert_eq!(vcpu.body, "vCPU consumption limit test\n");
    assert_eq!(vcpu.content_type, ContentType::PlainText);
}

fn assert_same_response(a: &HandlerOutcome, b: &HandlerOutcome) {
    assert_eq!(a.response.status, b.response.status);
    assert_eq!(a.response.content_type, b.response.content_type);
    assert_eq!(a.response.allow, b.response.allow);
    assert_eq!(a.response.body, b.response.body);
}

#[test]
fn repeating_a_request_repeats_the_response() {
    let first = handle_request(input(Method::Get, "GET", "/unknown"));
    let second = handle_request(input(Method::Get, "GET", "/unknown"));
    assert_same_response(&first, &second);

    let first = handle_request(input(Method::Other, "DELETE", "/panic"));
    let second = handle_request(input(Method::Other, "DELETE", "/panic"));
    assert_same_response(&first, &second);
}

#[test]
fn repeating_welcome_varies_at_most_in_timestamp() {
    let first = handle_request(input(Method::Get, "GET", "/"));
    let second = handle_request(input(Method::Get, "GET", "/"));
    assert_same_response(&first, &second);
    let a = first.record.expect("welcome record");
    let b = second.record.expect("welcome record");
    assert_eq!(a.trace_id, b.trace_id);
    assert_eq!(a.client_ip, b.client_ip);
    assert_eq!(a.host, b.host);
    assert_eq!(a.request_method, b.request_method);
    assert_eq!(a.url, b.url);
    assert_eq!(a.timestamp.len(), b.timestamp.len());
}
