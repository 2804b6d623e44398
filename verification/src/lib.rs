//! Crash-reporting hook: when the host process panics, this library asks the
//! user for permission and a description, gathers postmortem context
//! (source-tree identity, panic location, panic message), and hands an
//! immutable report to a pluggable submission strategy.
//!
//! Installing the process-wide panic interceptor itself requires the host's
//! panic machinery and lives with the embedding application; everything the
//! interceptor runs at crash time is here.

pub mod console;
pub mod debug;
pub mod git;
pub mod prompt;

use vstd::prelude::*;

verus! {

/// Builds the report and dispatches it once the environment has answered:
/// `confirmed` is the user's decision, `status` the version probe's finding.
/// When the user declined, nothing is built and nothing is submitted, and
/// the result is `None`; otherwise exactly one submission attempt is made
/// and its outcome is returned.
pub fn handle_report<M: debug::SubmitMethod>(
    method: &M,
    confirmed: bool,
    description: String,
    status: &git::VersionStatus,
    message: &str,
    location: Option<debug::PanicLocation>,
) -> (r: Option<bool>)
    ensures
        !confirmed ==> r is None,
        confirmed ==> r is Some,
{
    if !confirmed {
        return None;
    }
    let info = debug::build(status, description, message, location);
    Some(dispatch(method, &info))
}

/// Makes the single delivery attempt and fires exactly one of the two
/// callbacks: `submission_succeeded` when `submit` returned true,
/// `submission_failed` when it returned false. Returns what `submit`
/// returned.
pub fn dispatch<M: debug::SubmitMethod>(method: &M, info: &debug::DebugInfo) -> (submitted: bool) {
    if method.submit(info) {
        method.submission_succeeded(info);
        true
    } else {
        method.submission_failed(info);
        false
    }
}

/// The whole crash-time sequence, run synchronously on the panicking thread:
/// ask the user, and if they did not decline, probe the working directory's
/// repository, assemble the report and dispatch it. Control then returns to
/// the host runtime's normal panic propagation.
pub fn report_crash<M: debug::SubmitMethod>(
    method: &M,
    message: &str,
    location: Option<debug::PanicLocation>,
) {
    let (confirmed, description) = prompt::collect();
    if confirmed {
        let status = git::identify();
        handle_report(method, true, description, &status, message, location);
    }
}

} // verus!
