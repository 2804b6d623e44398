//! The version probe: identifies the committed state of the working
//! directory's repository and whether the working tree has drifted from it.
//!
//! Missing repository is an expected, recoverable outcome. A repository
//! whose head cannot be resolved to a tree, or whose working-tree diff
//! cannot be computed, is an unexpected environment: the trusted calls
//! below abort the process in that case rather than mask the anomaly.

use vstd::prelude::*;
use vstd::string::StringExecFns;

verus! {

/// What the probe found: either no repository at all, or the identifier of
/// the committed tree state together with whether the working tree differs
/// from it.
pub enum VersionStatus {
    Unavailable,
    Known { tree_id: String, dirty: bool },
}

#[verifier::external_type_specification]
#[verifier::external_body]
pub struct ExRepository(git2::Repository);

#[verifier::external_type_specification]
#[verifier::external_body]
pub struct ExTree<'a>(git2::Tree<'a>);

#[verifier::external_type_specification]
#[verifier::external_body]
pub struct ExDiff<'a>(git2::Diff<'a>);

/// Relies on git2::Repository::discover: searches upward from the current
/// working directory and returns the repository it finds, or `None` when
/// there is none — an expected outcome, never a fault. The result depends
/// on what is on disk, so nothing more is promised of it.
#[verifier::external_body]
fn discover_repo() -> (r: Option<git2::Repository>) {
    match git2::Repository::discover("./") {
        Ok(repo) => Some(repo),
        Err(_) => None,
    }
}

/// Relies on git2::Repository::head and git2::Reference::peel_to_tree:
/// resolves the checked-out reference to its tree snapshot. A discoverable
/// repository whose head cannot be read or peeled is a fatal condition, so
/// either failure aborts the process instead of returning.
#[verifier::external_body]
fn head_tree<'r>(repo: &'r git2::Repository) -> (r: git2::Tree<'r>) {
    repo.head().expect("Could not find head.").peel_to_tree().expect(
        "Could not peel head to tree!",
    )
}

/// Relies on git2::Tree::id and on git2::Oid's hexadecimal rendering:
/// returns the tree's stable textual identifier. The text depends only on
/// the tree's content hash, but its value is not modelled here.
#[verifier::external_body]
fn tree_id_text(tree: &git2::Tree) -> (r: String) {
    tree.id().to_string()
}

/// Relies on git2::Repository::diff_tree_to_workdir, with
/// git2::DiffOptions set to include untracked files: compares the committed
/// tree against the current working-tree contents. Failure to compute the
/// diff is a fatal condition and aborts the process.
#[verifier::external_body]
fn workdir_diff<'r>(repo: &'r git2::Repository, tree: &git2::Tree<'r>) -> (r: git2::Diff<'r>) {
    let mut options = git2::DiffOptions::new();
    options.include_untracked(true);
    repo.diff_tree_to_workdir(Some(tree), Some(&mut options)).expect("Could not create diff.")
}

/// Relies on git2::Diff::stats and git2::DiffStats::files_changed: returns
/// the diff's changed-file count. Failure to read the statistics is a fatal
/// condition and aborts the process.
#[verifier::external_body]
fn diff_changed_files(diff: &git2::Diff) -> (r: usize) {
    diff.stats().expect("Could not read stats from git tree.").files_changed()
}

/// The status that a probe outcome stands for: nothing found, or the tree
/// identifier with the working tree dirty exactly when the diff reported
/// one or more changed files.
pub open spec fn status_of(probe: Option<(String, usize)>) -> VersionStatus {
    match probe {
        None => VersionStatus::Unavailable,
        Some(p) => VersionStatus::Known { tree_id: p.0, dirty: p.1 >= 1 },
    }
}

/// Reduces a probe outcome — the tree identifier and the changed-file
/// count, when a repository was found — to a `VersionStatus`. Zero changed
/// files means not dirty; one or more means dirty.
pub fn status_from_probe(probe: Option<(String, usize)>) -> (r: VersionStatus)
    ensures
        r == status_of(probe),
{
    match probe {
        None => VersionStatus::Unavailable,
        Some(p) => VersionStatus::Known { tree_id: p.0, dirty: p.1 >= 1 },
    }
}

/// Runs the trusted probe calls in order: discovery, head resolution,
/// working-tree diff, changed-file count.
fn probe_workdir() -> (r: Option<(String, usize)>) {
    match discover_repo() {
        None => None,
        Some(repo) => {
            let tree = head_tree(&repo);
            let id = tree_id_text(&tree);
            let diff = workdir_diff(&repo, &tree);
            let changed = diff_changed_files(&diff);
            Some((id, changed))
        },
    }
}

/// Queries the working directory for a repository. Returns `Unavailable`
/// when none is discoverable; otherwise `Known(tree_id, dirty)`, with
/// `dirty` true exactly when the working tree differs from the committed
/// tree (untracked files included). What comes back depends on the state of
/// the disk, so the relation between outcome and status is stated by
/// `status_from_probe`, which this function applies to the probe's finding.
pub fn identify() -> (r: VersionStatus) {
    let probe = probe_workdir();
    status_from_probe(probe)
}

/// The single display string a status is reduced to before it is embedded
/// in a report: the tree identifier, with a dirty marker appended when the
/// working tree had drifted, or the literal `"None"` marker.
pub open spec fn display_text(status: VersionStatus) -> Seq<char> {
    match status {
        VersionStatus::Unavailable => "None"@,
        VersionStatus::Known { tree_id, dirty } => if dirty {
            tree_id@ + " (dirty)"@
        } else {
            tree_id@
        },
    }
}

/// Renders a status as its display string.
pub fn display_string(status: &VersionStatus) -> (r: String)
    ensures
        r@ == display_text(*status),
{
    match status {
        VersionStatus::Unavailable => String::from_str("None"),
        VersionStatus::Known { tree_id, dirty } => {
            if *dirty {
                let mut s = tree_id.clone();
                s.append(" (dirty)");
                s
            } else {
                tree_id.clone()
            }
        },
    }
}

/// Reduces a status to the probe's public result: the display string of a
/// known status, or nothing when no repository was found.
pub fn sha_of(status: &VersionStatus) -> (r: Option<String>)
    ensures
        r is Some <==> status is Known,
        r matches Some(s) ==> s@ == display_text(*status),
{
    match status {
        VersionStatus::Unavailable => None,
        VersionStatus::Known { .. } => Some(display_string(status)),
    }
}

/// Probes the working directory and returns the display string of what was
/// found, or `None` when no repository is discoverable. Any text returned
/// is the display string of some known status.
pub fn sha() -> (r: Option<String>)
    ensures
        r matches Some(s) ==> exists|status: VersionStatus|
            status is Known && s@ == display_text(status),
{
    let status = identify();
    let r = sha_of(&status);
    proof {
        if r is Some {
            assert(status is Known && r->Some_0@ == display_text(status));
        }
    }
    r
}

} // verus!
