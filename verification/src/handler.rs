//! The per-request handler: method filter, route dispatch, the probe
//! runs with their informational lines, and the response with the event
//! record for the welcome path.

use vstd::prelude::*;
use vstd::string::*;
use crate::clock::utc_now_parts;
use crate::http::{Method, Response, method_allowed, is_allowed_method, opt_text};
use crate::record::{RequestRecord, TimeParts, build_record, record_model_of};
use crate::responses::{method_not_allowed_response, response_model_of, route_response};
use crate::routes::{Route, route, route_of};
use crate::simulators::{consume_500mb_of_ram, run_for_5_minutes, simulate_panic, simulate_vcpu_usage};
use crate::sink::emit_line;
use crate::text::{dec_digits, push_dec};

verus! {

/// Everything the dispatcher reads of an inbound request, as plain
/// values: the enumerated method beside its string form, the path, the
/// full URL, the `Host` header, the client address when one is known,
/// and the trace identifier the environment supplied (empty when
/// absent).
pub struct RequestInput {
    pub method: Method,
    pub method_text: String,
    pub path: String,
    pub url: String,
    pub host: Option<String>,
    pub client_ip: Option<String>,
    pub trace_id: String,
}

/// What one request produces: the response, and, for the welcome path
/// alone, the structured event record for the logging sink.
pub struct HandlerOutcome {
    pub response: Response,
    pub record: Option<RequestRecord>,
}

/// The line reporting how many bytes the memory probe wrote.
pub open spec fn data_size_line_text(n: nat) -> Seq<char> {
    "Data size: "@ + dec_digits(n) + " bytes"@
}

fn data_size_line(n: usize) -> (r: String)
    ensures
        r@ == data_size_line_text(n as nat),
{
    let mut out: String = "Data size: ".to_owned();
    push_dec(&mut out, n as u64);
    out.append(" bytes");
    proof {
        assert(out@ =~= data_size_line_text(n as nat));
    }
    out
}

/// The line reporting the compute probe's counter.
pub open spec fn result_line_text(n: nat) -> Seq<char> {
    "Result: "@ + dec_digits(n)
}

fn result_line(n: u64) -> (r: String)
    ensures
        r@ == result_line_text(n as nat),
{
    let mut out: String = "Result: ".to_owned();
    push_dec(&mut out, n);
    out
}

/// The string form the record logs for the client address: the
/// address's text, or empty when none is known.
pub open spec fn client_ip_text(o: Option<String>) -> Seq<char> {
    match o {
        Some(s) => s@,
        None => Seq::<char>::empty(),
    }
}

/// Serves one request. The method filter runs first and rejects anything
/// but GET and HEAD with the terminal 405 response, before any other
/// work; an admitted request is dispatched on its exact path. The
/// welcome path builds the event record at the current instant, logging
/// the client address's text, empty when none is known; each probe path
/// emits its starting line, runs its simulator, and emits its finished
/// line. On the panic path the simulator raises a fatal fault and does
/// not return, so the stated response is unreachable from a real call;
/// the record is produced for the welcome path and for it alone.
pub fn handle_request(input: RequestInput) -> (out: HandlerOutcome)
    ensures
        out.response@ == response_model_of(input.method, input.path@),
        out.record is Some <==> (method_allowed(input.method) && route_of(input.path@)
            == Route::Welcome),
        out.record is Some ==> exists|t: TimeParts|
            t.wf() && out.record->Some_0@ == record_model_of(
                t,
                input.trace_id@,
                client_ip_text(input.client_ip),
                opt_text(input.host),
                input.method_text@,
                input.url@,
            ),
{
    if !is_allowed_method(input.method) {
        return HandlerOutcome { response: method_not_allowed_response(), record: None };
    }
    let r = route(input.path.as_str());
    match r {
        Route::Welcome => {
            let t = utc_now_parts();
            let ip: String = match input.client_ip {
                Some(s) => s,
                None => String::new(),
            };
            let record = build_record(
                &t,
                input.trace_id,
                ip,
                input.host,
                input.method_text,
                input.url,
            );
            HandlerOutcome { response: route_response(Route::Welcome), record: Some(record) }
        },
        Route::Panic => {
            emit_line("Testing panic");
            simulate_panic();
            emit_line("Finished panic test.");
            HandlerOutcome { response: route_response(Route::Panic), record: None }
        },
        Route::MemoryLimit => {
            emit_line("Starting memory consumption limit test...");
            let data = consume_500mb_of_ram();
            let line = data_size_line(data.len());
            emit_line(line.as_str());
            emit_line("Finished memory consumption limit test.");
            HandlerOutcome { response: route_response(Route::MemoryLimit), record: None }
        },
        Route::TimeLimit => {
            emit_line("Starting execution time limit test...");
            run_for_5_minutes();
            emit_line("Finished execution time limit test.");
            HandlerOutcome { response: route_response(Route::TimeLimit), record: None }
        },
        Route::VcpuLimit => {
            emit_line("Starting vCPU consumption limit test...");
            let work = simulate_vcpu_usage();
            let line = result_line(work.1);
            emit_line(line.as_str());
            emit_line("Finished vCPU consumption limit test.");
            HandlerOutcome { response: route_response(Route::VcpuLimit), record: None }
        },
        Route::NotFound => {
            HandlerOutcome { response: route_response(Route::NotFound), record: None }
        },
    }
}

} // verus!
