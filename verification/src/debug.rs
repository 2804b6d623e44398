//! The postmortem report record, its fixed textual rendering, and the
//! capability interface through which the embedding application delivers it.

use crate::console::print_line;
use crate::git;
use vstd::prelude::*;
use vstd::string::StringExecFns;

verus! {

/// The source location where a panic originated: file, line and column.
pub struct PanicLocation {
    pub file: String,
    pub line: u32,
    pub column: u32,
}

impl PanicLocation {
    pub fn new(file: String, line: u32, column: u32) -> (r: PanicLocation)
        ensures
            r.file == file,
            r.line == line,
            r.column == column,
    {
        PanicLocation { file, line, column }
    }
}

/// A record of postmortem debug information, assembled once per crash and
/// never mutated afterwards: it is passed by read-only reference to whatever
/// implements `SubmitMethod`.
pub struct DebugInfo {
    /// Identifier of the committed tree state, or the literal `"None"` when
    /// no repository was found.
    pub sha: String,
    /// Free-text, user-supplied summary of what happened.
    pub description: String,
    /// The panic's human-readable payload.
    pub info: String,
    /// Where the panic originated, when the runtime could tell.
    pub location: Option<PanicLocation>,
}

/// The decimal digit characters, least significant last, of `n`.
pub open spec fn dec_rep(n: nat) -> Seq<char>
    decreases n,
{
    if n < 10 {
        seq![digit_char(n)]
    } else {
        dec_rep(n / 10).push(digit_char(n % 10))
    }
}

/// The character for one decimal digit.
pub open spec fn digit_char(d: nat) -> char {
    if d == 0 {
        '0'
    } else if d == 1 {
        '1'
    } else if d == 2 {
        '2'
    } else if d == 3 {
        '3'
    } else if d == 4 {
        '4'
    } else if d == 5 {
        '5'
    } else if d == 6 {
        '6'
    } else if d == 7 {
        '7'
    } else if d == 8 {
        '8'
    } else {
        '9'
    }
}

/// The text standing for the panic location on the report's `at:` line:
/// `file:line:column`, or a fixed marker when the location is unknown.
pub open spec fn location_text(loc: Option<PanicLocation>) -> Seq<char> {
    match loc {
        Some(l) => l.file@ + ":"@ + dec_rep(l.line as nat) + ":"@ + dec_rep(l.column as nat),
        None => "<UNKNOWN>"@,
    }
}

/// The fixed displayable layout of a report, one field per line.
pub open spec fn rendered(info: DebugInfo) -> Seq<char> {
    "tree: "@ + info.sha@ + "\n"@ + "at: "@ + location_text(info.location) + "\n"@
        + "Panic details: \n"@ + info.info@ + "\n"@ + "Summary: \n"@ + info.description@
}

/// The rendering reads nothing but the four fields: two reports whose fields
/// display alike render alike, byte for byte.
pub proof fn lemma_render_pure(a: DebugInfo, b: DebugInfo)
    requires
        a.sha@ == b.sha@,
        a.description@ == b.description@,
        a.info@ == b.info@,
        location_text(a.location) == location_text(b.location),
    ensures
        rendered(a) == rendered(b),
{
}

fn digit_str(d: u32) -> (r: &'static str)
    requires
        d < 10,
    ensures
        r@ == seq![digit_char(d as nat)],
{
    let r: &'static str = if d == 0 {
        "0"
    } else if d == 1 {
        "1"
    } else if d == 2 {
        "2"
    } else if d == 3 {
        "3"
    } else if d == 4 {
        "4"
    } else if d == 5 {
        "5"
    } else if d == 6 {
        "6"
    } else if d == 7 {
        "7"
    } else if d == 8 {
        "8"
    } else {
        "9"
    };
    proof {
        reveal_strlit("0");
        reveal_strlit("1");
        reveal_strlit("2");
        reveal_strlit("3");
        reveal_strlit("4");
        reveal_strlit("5");
        reveal_strlit("6");
        reveal_strlit("7");
        reveal_strlit("8");
        reveal_strlit("9");
        assert(r@ =~= seq![digit_char(d as nat)]);
    }
    r
}

/// Renders `n` in decimal, most significant digit first.
pub fn decimal_string(n: u32) -> (r: String)
    ensures
        r@ == dec_rep(n as nat),
    decreases n,
{
    if n < 10 {
        String::from_str(digit_str(n))
    } else {
        let mut s = decimal_string(n / 10);
        s.append(digit_str(n % 10));
        assert(s@ =~= dec_rep(n as nat));
        s
    }
}

impl DebugInfo {
    /// Assembles the immutable report record from the version identifier,
    /// the user's description, the panic message and the panic location.
    pub fn new(sha: &str, desc: String, message: &str, panic_location: Option<PanicLocation>) -> (r:
        DebugInfo)
        ensures
            r.sha@ == sha@,
            r.description == desc,
            r.info@ == message@,
            r.location == panic_location,
    {
        DebugInfo {
            sha: String::from_str(sha),
            description: desc,
            info: String::from_str(message),
            location: panic_location,
        }
    }

    /// Renders the report in its fixed textual layout. Identical field
    /// contents always give byte-identical output.
    pub fn render(&self) -> (r: String)
        ensures
            r@ == rendered(*self),
    {
        let mut s = String::new();
        s.append("tree: ");
        s.append(self.sha.as_str());
        s.append("\n");
        s.append("at: ");
        match &self.location {
            Some(loc) => {
                s.append(loc.file.as_str());
                s.append(":");
                let line_text = decimal_string(loc.line);
                s.append(line_text.as_str());
                s.append(":");
                let column_text = decimal_string(loc.column);
                s.append(column_text.as_str());
            },
            None => {
                s.append("<UNKNOWN>");
            },
        }
        s.append("\n");
        s.append("Panic details: \n");
        s.append(self.info.as_str());
        s.append("\n");
        s.append("Summary: \n");
        s.append(self.description.as_str());
        proof {
            assert(s@ =~= rendered(*self));
        }
        s
    }
}

/// Pure assembly of the report: reduces the version status to its display
/// string, copies the description verbatim, and carries the panic message
/// and location through unchanged. No side effects.
pub fn build(
    status: &git::VersionStatus,
    description: String,
    message: &str,
    location: Option<PanicLocation>,
) -> (r: DebugInfo)
    ensures
        r.sha@ == git::display_text(*status),
        r.description == description,
        r.info@ == message@,
        r.location == location,
{
    let sha = git::display_string(status);
    DebugInfo::new(sha.as_str(), description, message, location)
}

/// The capability interface through which a crash report is delivered.
/// The embedding application implements `submit`; the two callbacks have
/// default bodies that acknowledge or fall back to printing the report.
pub trait SubmitMethod: Send + Sync {
    /// Attempts to deliver the report once; returns whether delivery
    /// succeeded. No retry is ever performed.
    fn submit(&self, info: &DebugInfo) -> bool;

    /// Called exactly once, only when `submit` returned true.
    fn submission_succeeded(&self, info: &DebugInfo) {
        print_line("Thank you for your submission. We will investigate what happened A.S.A.P.");
    }

    /// Called exactly once, only when `submit` returned false. The default
    /// body prints the full rendered report so the information is not lost.
    fn submission_failed(&self, info: &DebugInfo) {
        let mut text = String::from_str(
            "Something went wrong. Our apologies for the inconvenience. This information could not be sent:\n",
        );
        let report = info.render();
        text.append(report.as_str());
        print_line(text.as_str());
    }
}

} // verus!
