//! A diagnostic request dispatcher for observing platform resource limits.
//!
//! One request at a time comes in as plain values; a method filter admits
//! only GET and HEAD, an exact-match route dispatcher picks one of five
//! behaviors (a welcome page with a structured event record, or one of
//! four resource probes: crash, memory, wall time, compute time), and the
//! outcome is a fixed response plus, for the welcome path alone, the
//! event record for the logging sink.

pub mod clock;
pub mod handler;
pub mod http;
pub mod record;
pub mod responses;
pub mod routes;
pub mod simulators;
pub mod sink;
pub mod text;
