//! The interactive prompter: a yes/no confirmation and a free-text
//! description, each one line of blocking console input.

use crate::console::{print_line, read_input_line};
use vstd::prelude::*;
use vstd::string::StringExecFns;

verus! {

/// The user declined only when the confirmation line was read successfully
/// and is exactly the single-character negative response plus its line
/// terminator. Every other outcome — an affirmative answer, a blank line, a
/// failed read — counts as consent, so that a crash report is never dropped
/// on ambiguous input.
pub open spec fn declined(first: Option<String>) -> bool {
    match first {
        Some(l) => l@ == "n\n"@,
        None => false,
    }
}

/// The description that goes into the report: the line that was read, or a
/// fixed sentinel when reading it failed.
pub open spec fn description_text(second: Option<String>) -> Seq<char> {
    match second {
        Some(l) => l@,
        None => "Error while describing bug."@,
    }
}

/// Interprets the confirmation line: true unless the user declined.
pub fn confirmed_from(first: &Option<String>) -> (r: bool)
    ensures
        r == !declined(*first),
{
    match first {
        Some(line) => {
            let negative = String::from_str("n\n");
            !(*line == negative)
        },
        None => true,
    }
}

/// Interprets the description line, substituting the sentinel on a failed
/// read rather than failing the whole flow.
pub fn description_from(second: Option<String>) -> (r: String)
    ensures
        r@ == description_text(second),
{
    match second {
        Some(line) => line,
        None => String::from_str("Error while describing bug."),
    }
}

/// Asks for permission to submit a report and, unless the user declined,
/// for a one-line description of what happened. When the first answer
/// declines, the flow short-circuits: no second prompt, and the returned
/// description is empty.
pub fn collect() -> (r: (bool, String))
    ensures
        !r.0 ==> r.1@ == Seq::<char>::empty(),
{
    print_line("Program crashed unexpectedly! Would you like to submit a report [Y/n]?");
    let first = read_input_line();
    if !confirmed_from(&first) {
        return (false, String::new());
    }
    print_line("Please describe briefly what happened.");
    let second = read_input_line();
    (true, description_from(second))
}

} // verus!
