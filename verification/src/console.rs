//! Trusted access to the interactive console: one line out, one line in.

use std::io::Write;
use vstd::prelude::*;

verus! {

/// Relies on std::io::Stdout and the writeln macro: writes `text` and a
/// trailing newline to standard output. A write failure is ignored, as the
/// caller runs inside a panic handler and must not fault again.
#[verifier::external_body]
pub(crate) fn print_line(text: &str) {
    let _ = writeln!(std::io::stdout(), "{}", text);
}

/// Relies on std::io::Stdin::read_line: returns the line read from standard
/// input, line terminator included (or empty at end of input), or `None`
/// when the read fails. What comes back depends on the user, so nothing more
/// is promised of the result.
#[verifier::external_body]
pub(crate) fn read_input_line() -> (r: Option<String>) {
    let mut buf = String::new();
    match std::io::stdin().read_line(&mut buf) {
        Ok(_) => Some(buf),
        Err(_) => None,
    }
}

} // verus!
