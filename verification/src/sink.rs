//! The informational log lines' outlet. The logging sink itself is an
//! external collaborator that echoes to standard output; the library's
//! obligation ends at handing it each line.

use vstd::prelude::*;
use std::io::Write;

verus! {

/// Relies on std::io::stdout: writes one informational line to standard
/// output, where the logging sink echoes. A side effect only; nothing is
/// promised of it.
#[verifier::external_body]
pub(crate) fn emit_line(line: &str) {
    let mut out = std::io::stdout();
    let _ = writeln!(out, "{}", line);
}

} // verus!
