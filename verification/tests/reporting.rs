use ambassade_debug::debug::{build, DebugInfo, PanicLocation, SubmitMethod};
use ambassade_debug::git::{display_string, identify, sha, sha_of, status_from_probe, VersionStatus};
use ambassade_debug::prompt::{confirmed_from, description_from};
use ambassade_debug::{dispatch, handle_report};
use std::sync::atomic::{AtomicUsize, Ordering};
use std::sync::Mutex;

#[test]
fn it_works() {
    assert_eq!(2 + 2, 4);
}

#[test]
fn confirmed_from_negative_line_declines() {
    assert!(!confirmed_from(&Some(String::from("n\n"))));
}

#[test]
fn confirmed_from_other_lines_confirms() {
    assert!(confirmed_from(&Some(String::from("y\n"))));
    assert!(confirmed_from(&Some(String::from("Y\n"))));
    assert!(confirmed_from(&Some(String::from("N\n"))));
    assert!(confirmed_from(&Some(String::from("no\n"))));
    assert!(confirmed_from(&Some(String::from("n"))));
    assert!(confirmed_from(&Some(String::from(""))));
}

#[test]
fn confirmed_from_read_failure_confirms() {
    assert!(confirmed_from(&None));
}

#[test]
fn description_from_line_is_verbatim() {
    assert_eq!(
        description_from(Some(String::from("clicked button twice\n"))),
        "clicked button twice\n"
    );
}

#[test]
fn description_from_read_failure_is_sentinel() {
    assert_eq!(description_from(None), "Error while describing bug.");
}

#[test]
fn decimal_string_exact() {
    assert_eq!(ambassade_debug::debug::decimal_string(0), "0");
    assert_eq!(ambassade_debug::debug::decimal_string(7), "7");
    assert_eq!(ambassade_debug::debug::decimal_string(42), "42");
    assert_eq!(ambassade_debug::debug::decimal_string(100), "100");
    assert_eq!(ambassade_debug::debug::decimal_string(4294967295), "4294967295");
}

#[test]
fn status_from_probe_no_repository() {
    let status = status_from_probe(None);
    assert!(matches!(status, VersionStatus::Unavailable));
}

#[test]
fn status_from_probe_clean_tree_is_not_dirty() {
    match status_from_probe(Some((String::from("abc123"), 0))) {
        VersionStatus::Known { tree_id, dirty } => {
            assert_eq!(tree_id, "abc123");
            assert!(!dirty);
        }
        VersionStatus::Unavailable => panic!("expected a known status"),
    }
}

#[test]
fn status_from_probe_changed_files_flip_dirty() {
    match status_from_probe(Some((String::from("abc123"), 1))) {
        VersionStatus::Known { tree_id, dirty } => {
            assert_eq!(tree_id, "abc123");
            assert!(dirty);
        }
        VersionStatus::Unavailable => panic!("expected a known status"),
    }
    match status_from_probe(Some((String::from("abc123"), 17))) {
        VersionStatus::Known { dirty, .. } => assert!(dirty),
        VersionStatus::Unavailable => panic!("expected a known status"),
    }
}

#[test]
fn display_string_exact() {
    assert_eq!(display_string(&VersionStatus::Unavailable), "None");
    assert_eq!(
        display_string(&VersionStatus::Known { tree_id: String::from("abc123"), dirty: false }),
        "abc123"
    );
    assert_eq!(
        display_string(&VersionStatus::Known { tree_id: String::from("abc123"), dirty: true }),
        "abc123 (dirty)"
    );
}

#[test]
fn sha_of_matches_status() {
    assert_eq!(sha_of(&VersionStatus::Unavailable), None);
    assert_eq!(
        sha_of(&VersionStatus::Known { tree_id: String::from("abc123"), dirty: true }),
        Some(String::from("abc123 (dirty)"))
    );
}

#[test]
fn no_repository_probe_is_unavailable() {
    // The test binary runs outside any checked-out tree: the probe must
    // degrade to Unavailable, never abort.
    assert!(matches!(identify(), VersionStatus::Unavailable));
    assert_eq!(sha(), None);
}

#[test]
fn debug_info_new_copies_fields() {
    let info = DebugInfo::new(
        "abc123",
        String::from("a summary"),
        "a message",
        Some(PanicLocation::new(String::from("main.rs"), 42, 5)),
    );
    assert_eq!(info.sha, "abc123");
    assert_eq!(info.description, "a summary");
    assert_eq!(info.info, "a message");
    let location = info.location.unwrap();
    assert_eq!(location.file, "main.rs");
    assert_eq!(location.line, 42);
    assert_eq!(location.column, 5);
}

#[test]
fn render_exact_format() {
    let info = build(
        &VersionStatus::Unavailable,
        String::from("clicked button twice"),
        "index out of range",
        Some(PanicLocation::new(String::from("main.rs"), 42, 5)),
    );
    assert_eq!(
        info.render(),
        "tree: None\nat: main.rs:42:5\nPanic details: \nindex out of range\nSummary: \nclicked button twice"
    );
}

#[test]
fn render_unknown_location() {
    let info = build(
        &VersionStatus::Known { tree_id: String::from("abc123"), dirty: true },
        String::from("it broke"),
        "boom",
        None,
    );
    assert_eq!(
        info.render(),
        "tree: abc123 (dirty)\nat: <UNKNOWN>\nPanic details: \nboom\nSummary: \nit broke"
    );
}

#[test]
fn render_is_pure() {
    let first = build(
        &VersionStatus::Known { tree_id: String::from("abc123"), dirty: false },
        String::from("same input"),
        "same message",
        Some(PanicLocation::new(String::from("lib.rs"), 7, 1)),
    );
    let second = build(
        &VersionStatus::Known { tree_id: String::from("abc123"), dirty: false },
        String::from("same input"),
        "same message",
        Some(PanicLocation::new(String::from("lib.rs"), 7, 1)),
    );
    assert_eq!(first.render().as_bytes(), second.render().as_bytes());
    assert_eq!(first.render(), first.render());
}

struct Recorder {
    outcome: bool,
    submits: AtomicUsize,
    successes: AtomicUsize,
    failures: AtomicUsize,
    failed_render: Mutex<String>,
}

impl Recorder {
    fn new(outcome: bool) -> Recorder {
        Recorder {
            outcome,
            submits: AtomicUsize::new(0),
            successes: AtomicUsize::new(0),
            failures: AtomicUsize::new(0),
            failed_render: Mutex::new(String::new()),
        }
    }
}

impl SubmitMethod for Recorder {
    fn submit(&self, _info: &DebugInfo) -> bool {
        self.submits.fetch_add(1, Ordering::SeqCst);
        self.outcome
    }

    fn submission_succeeded(&self, _info: &DebugInfo) {
        self.successes.fetch_add(1, Ordering::SeqCst);
    }

    fn submission_failed(&self, info: &DebugInfo) {
        self.failures.fetch_add(1, Ordering::SeqCst);
        *self.failed_render.lock().unwrap() = info.render();
    }
}

/// Keeps the trait's default callback bodies, which print acknowledgements.
struct CountingOnly {
    outcome: bool,
    submits: AtomicUsize,
}

impl SubmitMethod for CountingOnly {
    fn submit(&self, _info: &DebugInfo) -> bool {
        self.submits.fetch_add(1, Ordering::SeqCst);
        self.outcome
    }
}

#[test]
fn scenario_declined_submits_nothing() {
    let recorder = Recorder::new(true);
    let result = handle_report(
        &recorder,
        false,
        String::new(),
        &VersionStatus::Unavailable,
        "index out of range",
        None,
    );
    assert_eq!(result, None);
    assert_eq!(recorder.submits.load(Ordering::SeqCst), 0);
    assert_eq!(recorder.successes.load(Ordering::SeqCst), 0);
    assert_eq!(recorder.failures.load(Ordering::SeqCst), 0);
}

#[test]
fn scenario_confirmed_submission_succeeds() {
    let recorder = Recorder::new(true);
    let result = handle_report(
        &recorder,
        true,
        String::from("clicked button twice"),
        &VersionStatus::Unavailable,
        "index out of range",
        Some(PanicLocation::new(String::from("main.rs"), 42, 5)),
    );
    assert_eq!(result, Some(true));
    assert_eq!(recorder.submits.load(Ordering::SeqCst), 1);
    assert_eq!(recorder.successes.load(Ordering::SeqCst), 1);
    assert_eq!(recorder.failures.load(Ordering::SeqCst), 0);
}

#[test]
fn scenario_confirmed_submission_fails() {
    let recorder = Recorder::new(false);
    let result = handle_report(
        &recorder,
        true,
        String::from("clicked button twice"),
        &VersionStatus::Unavailable,
        "index out of range",
        Some(PanicLocation::new(String::from("main.rs"), 42, 5)),
    );
    assert_eq!(result, Some(false));
    assert_eq!(recorder.submits.load(Ordering::SeqCst), 1);
    assert_eq!(recorder.successes.load(Ordering::SeqCst), 0);
    assert_eq!(recorder.failures.load(Ordering::SeqCst), 1);
    assert_eq!(
        *recorder.failed_render.lock().unwrap(),
        "tree: None\nat: main.rs:42:5\nPanic details: \nindex out of range\nSummary: \nclicked button twice"
    );
}

#[test]
fn dispatch_runs_default_callbacks() {
    let info = build(&VersionStatus::Unavailable, String::from("summary"), "message", None);
    let succeeding = CountingOnly { outcome: true, submits: AtomicUsize::new(0) };
    assert!(dispatch(&succeeding, &info));
    assert_eq!(succeeding.submits.load(Ordering::SeqCst), 1);
    let failing = CountingOnly { outcome: false, submits: AtomicUsize::new(0) };
    assert!(!dispatch(&failing, &info));
    assert_eq!(failing.submits.load(Ordering::SeqCst), 1);
}
