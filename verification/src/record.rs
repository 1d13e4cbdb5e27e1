//! The structured request event record emitted for the welcome path, and
//! the fixed-format UTC timestamp it carries.

use vstd::prelude::*;
use vstd::string::*;
use crate::http::opt_text;
use crate::text::{dec_digits, push_dec, push_padded, zero_padded};

verus! {

/// A UTC instant broken into calendar and clock fields, with the
/// microseconds since the last second boundary.
#[derive(Clone, Copy, PartialEq, Eq, Structural, Debug)]
pub struct TimeParts {
    pub year: i32,
    pub month: u32,
    pub day: u32,
    pub hour: u32,
    pub minute: u32,
    pub second: u32,
    pub micro: u32,
}

impl TimeParts {
    /// The field ranges a calendar UTC instant satisfies; the microsecond
    /// count may exceed 999,999 during a leap second.
    pub open spec fn wf(self) -> bool {
        &&& 1 <= self.month <= 12
        &&& 1 <= self.day <= 31
        &&& self.hour <= 23
        &&& self.minute <= 59
        &&& self.second <= 59
        &&& self.micro <= 1_999_999
    }
}

/// The year's digits, zero padded to at least four.
pub open spec fn unsigned_year_text(y: nat) -> Seq<char> {
    if y < 10000 {
        zero_padded(y, 4)
    } else {
        dec_digits(y)
    }
}

/// The year's text, a sign first when it is negative.
pub open spec fn year_text(y: int) -> Seq<char> {
    if y < 0 {
        "-"@ + unsigned_year_text((-y) as nat)
    } else {
        unsigned_year_text(y as nat)
    }
}

/// The timestamp text for an instant: `YYYY-MM-DD HH:MM:SS.ffffff UTC`,
/// the microseconds truncated to their low six digits.
pub open spec fn timestamp_text(t: TimeParts) -> Seq<char> {
    year_text(t.year as int) + "-"@ + zero_padded(t.month as nat, 2) + "-"@ + zero_padded(
        t.day as nat,
        2,
    ) + " "@ + zero_padded(t.hour as nat, 2) + ":"@ + zero_padded(t.minute as nat, 2) + ":"@
        + zero_padded(t.second as nat, 2) + "."@ + zero_padded(t.micro as nat, 6) + " UTC"@
}

/// Appends the year's text to `out`.
fn push_year(out: &mut String, year: i32)
    ensures
        final(out)@ == old(out)@ + year_text(year as int),
{
    if year < 0 {
        out.append("-");
        let mag: u64 = (-(year as i64)) as u64;
        if mag < 10000 {
            push_padded(out, mag, 4);
        } else {
            push_dec(out, mag);
        }
        proof {
            assert(mag as nat == (-(year as int)) as nat);
            assert(out@ =~= old(out)@ + year_text(year as int));
        }
    } else {
        let mag: u64 = year as u64;
        if mag < 10000 {
            push_padded(out, mag, 4);
        } else {
            push_dec(out, mag);
        }
        proof {
            assert(out@ =~= old(out)@ + year_text(year as int));
        }
    }
}

/// Renders the fixed-format UTC timestamp the record carries.
pub fn format_timestamp(t: &TimeParts) -> (r: String)
    ensures
        r@ == timestamp_text(*t),
{
    let mut out = String::new();
    push_year(&mut out, t.year);
    out.append("-");
    push_padded(&mut out, t.month as u64, 2);
    out.append("-");
    push_padded(&mut out, t.day as u64, 2);
    out.append(" ");
    push_padded(&mut out, t.hour as u64, 2);
    out.append(":");
    push_padded(&mut out, t.minute as u64, 2);
    out.append(":");
    push_padded(&mut out, t.second as u64, 2);
    out.append(".");
    push_padded(&mut out, t.micro as u64, 6);
    out.append(" UTC");
    proof {
        assert(out@ =~= timestamp_text(*t));
    }
    out
}

/// The structured event record emitted for the welcome path: produced
/// once per such request, handed to the logging sink, and discarded.
pub struct RequestRecord {
    pub timestamp: String,
    pub trace_id: String,
    pub client_ip: String,
    pub host: Option<String>,
    pub request_method: String,
    pub url: String,
}

/// The mathematical view of a `RequestRecord`.
pub struct RecordModel {
    pub timestamp: Seq<char>,
    pub trace_id: Seq<char>,
    pub client_ip: Seq<char>,
    pub host: Option<Seq<char>>,
    pub request_method: Seq<char>,
    pub url: Seq<char>,
}

impl View for RequestRecord {
    type V = RecordModel;

    open spec fn view(&self) -> RecordModel {
        RecordModel {
            timestamp: self.timestamp@,
            trace_id: self.trace_id@,
            client_ip: self.client_ip@,
            host: opt_text(self.host),
            request_method: self.request_method@,
            url: self.url@,
        }
    }
}

/// The record owed for a welcome request: every field comes straight
/// from the request's data but the timestamp, which renders the instant
/// the record was built at.
pub open spec fn record_model_of(
    t: TimeParts,
    trace_id: Seq<char>,
    client_ip: Seq<char>,
    host: Option<Seq<char>>,
    request_method: Seq<char>,
    url: Seq<char>,
) -> RecordModel {
    RecordModel { timestamp: timestamp_text(t), trace_id, client_ip, host, request_method, url }
}

/// Builds the request event record for the given instant.
pub fn build_record(
    t: &TimeParts,
    trace_id: String,
    client_ip: String,
    host: Option<String>,
    request_method: String,
    url: String,
) -> (r: RequestRecord)
    ensures
        r@ == record_model_of(*t, trace_id@, client_ip@, opt_text(host), request_method@, url@),
{
    RequestRecord {
        timestamp: format_timestamp(t),
        trace_id,
        client_ip,
        host,
        request_method,
        url,
    }
}

/// Law: two records for the same request differ at most in their
/// timestamp; every other field is a function of the request alone.
pub proof fn lemma_record_repeat_varies_only_in_time(
    t1: TimeParts,
    t2: TimeParts,
    trace_id: Seq<char>,
    client_ip: Seq<char>,
    host: Option<Seq<char>>,
    request_method: Seq<char>,
    url: Seq<char>,
)
    ensures
        ({
            let r1 = record_model_of(t1, trace_id, client_ip, host, request_method, url);
            let r2 = record_model_of(t2, trace_id, client_ip, host, request_method, url);
            &&& r1.trace_id == r2.trace_id
            &&& r1.client_ip == r2.client_ip
            &&& r1.host == r2.host
            &&& r1.request_method == r2.request_method
            &&& r1.url == r2.url
        }),
{
}

} // verus!
