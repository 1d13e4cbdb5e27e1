//! The four resource-consumption simulators: crash, memory, wall time
//! and compute time. Each deliberately stresses one resource dimension
//! of the current request; none takes a parameter.

use vstd::prelude::*;
use std::time::Instant;
use crate::clock::{elapsed_millis, monotonic_now};

verus! {

/// Bytes the memory probe materializes: 500 MiB.
pub const MEMORY_PROBE_BYTES: usize = 500 * 1024 * 1024;

/// Milliseconds the wall-time probe occupies: five minutes.
pub const WALL_TIME_LIMIT_MILLIS: u64 = 5 * 60 * 1000;

/// Milliseconds the compute-time probe occupies.
pub const VCPU_LIMIT_MILLIS: u64 = 100;

/// Crash simulator: raises a fatal fault, so the call terminates the
/// request abnormally and never returns control; the host, not this
/// library, turns the fault into an observable outcome. Relies on std's
/// Option::unwrap, which panics on `None`.
#[verifier::external_body]
pub fn simulate_panic() {
    let fault: Option<u8> = None;
    fault.unwrap();
}

/// Memory simulator: allocates a fixed 500 MiB buffer and writes a value
/// into every byte, so the memory is truly resident rather than merely
/// reserved. Returns the filled buffer — exactly 500 MiB, every byte
/// written — which the caller reads the length of and drops, so nothing
/// outlives the request.
pub fn consume_500mb_of_ram() -> (data: Vec<u8>)
    ensures
        data@.len() == MEMORY_PROBE_BYTES,
        forall|j: int| 0 <= j < data@.len() ==> data@[j] == 0u8,
{
    let num_bytes: usize = MEMORY_PROBE_BYTES;
    let mut data: Vec<u8> = Vec::with_capacity(num_bytes);
    let mut i: usize = 0;
    while i < num_bytes
        invariant
            data@.len() == i,
            i <= num_bytes,
            num_bytes == MEMORY_PROBE_BYTES,
            forall|j: int| 0 <= j < data@.len() ==> data@[j] == 0u8,
        decreases num_bytes - i,
    {
        data.push(0u8);
        i = i + 1;
    }
    data
}

/// Wall-time simulator: busy waits, repeatedly checking the elapsed
/// time with no suspension, until five minutes have passed since it
/// started, then returns its last clock reading beside the spin count.
/// The contract says the probe did not return before the clock reported
/// five minutes, unless the spin counter — which only bounds the loop
/// for the termination check and cannot reach its bound within the
/// probe's lifetime — ran out.
pub fn run_for_5_minutes() -> (r: (u64, u64))
    ensures
        r.0 >= WALL_TIME_LIMIT_MILLIS || r.1 == u64::MAX,
{
    let start = monotonic_now();
    let mut elapsed: u64 = elapsed_millis(&start);
    let mut spins: u64 = 0;
    while elapsed < WALL_TIME_LIMIT_MILLIS && spins < u64::MAX
        decreases u64::MAX - spins,
    {
        spins = spins + 1;
        elapsed = elapsed_millis(&start);
    }
    (elapsed, spins)
}

/// Compute-time simulator: busy waits performing trivial arithmetic, an
/// incrementing counter, until 100 milliseconds have passed, then
/// returns its last clock reading beside the counter. The contract says
/// the probe did not return before the clock reported 100 milliseconds,
/// unless the counter ran out. The counter only keeps the loop from
/// being optimized away; its value depends on the machine and carries no
/// meaning.
pub fn simulate_vcpu_usage() -> (r: (u64, u64))
    ensures
        r.0 >= VCPU_LIMIT_MILLIS || r.1 == u64::MAX,
{
    let start = monotonic_now();
    let mut result: u64 = 0;
    let mut elapsed: u64 = elapsed_millis(&start);
    while elapsed < VCPU_LIMIT_MILLIS && result < u64::MAX
        decreases u64::MAX - result,
    {
        result = result + 1;
        elapsed = elapsed_millis(&start);
    }
    (elapsed, result)
}

} // verus!
