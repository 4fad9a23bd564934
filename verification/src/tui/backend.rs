//! The messages that background clone, sync and discovery work sends to the
//! TUI, and how the results of the two phases of a sync are combined.

use vstd::prelude::*;
use crate::text::{concat_str, owned};
use crate::tui::app::Operation;
use crate::tui::event::BackendMessage;
use crate::types::{OpSummary, OwnedRepo};

verus! {

/// The error sent when an operation starts without an active workspace.
pub open spec fn spec_no_workspace_message(op: Operation) -> Seq<char> {
    match op {
        Operation::Sync => "No workspace selected. Run 'gisa setup' to configure one."@,
        Operation::Status => "No workspace selected."@,
    }
}

/// The error an operation reports when no workspace is active.
pub fn no_workspace_message(op: Operation) -> (r: BackendMessage)
    ensures
        r matches BackendMessage::OperationError(m) && m@ == spec_no_workspace_message(op),
{
    match op {
        Operation::Sync => BackendMessage::OperationError(
            owned("No workspace selected. Run 'gisa setup' to configure one."),
        ),
        Operation::Status => BackendMessage::OperationError(owned("No workspace selected.")),
    }
}

/// What repository discovery reports while it walks a provider's
/// organisations.
pub enum DiscoveryEvent {
    OrgsDiscovered(usize),
    OrgStarted(String),
    OrgComplete(String, usize),
    PersonalReposStarted,
    PersonalReposComplete(usize),
    Error(String),
}

/// The message that a discovery event is passed on as: the organisation
/// count, an organisation starting or finishing, or the error; the personal
/// repositories' progress is not shown and sends nothing.
pub fn discovery_message(event: DiscoveryEvent) -> (r: Option<BackendMessage>)
    ensures
        match event {
            DiscoveryEvent::OrgsDiscovered(n) => r == Some(BackendMessage::OrgsDiscovered(n)),
            DiscoveryEvent::OrgStarted(name) => r matches Some(BackendMessage::OrgStarted(o)) && o@ == name@,
            DiscoveryEvent::OrgComplete(name, n) =>
                r matches Some(BackendMessage::OrgComplete(o, c)) && o@ == name@ && c == n,
            DiscoveryEvent::PersonalReposStarted => r is None,
            DiscoveryEvent::PersonalReposComplete(_) => r is None,
            DiscoveryEvent::Error(m) => r matches Some(BackendMessage::DiscoveryError(e)) && e@ == m@,
        },
{
    match event {
        DiscoveryEvent::OrgsDiscovered(n) => Some(BackendMessage::OrgsDiscovered(n)),
        DiscoveryEvent::OrgStarted(name) => Some(BackendMessage::OrgStarted(name)),
        DiscoveryEvent::OrgComplete(name, n) => Some(BackendMessage::OrgComplete(name, n)),
        DiscoveryEvent::PersonalReposStarted => None,
        DiscoveryEvent::PersonalReposComplete(_) => None,
        DiscoveryEvent::Error(m) => Some(BackendMessage::DiscoveryError(m)),
    }
}

/// A repository started processing.
pub fn repo_started(repo: &OwnedRepo) -> (r: BackendMessage)
    ensures
        r matches BackendMessage::RepoStarted { repo_name } && repo_name@ == repo.repo.full_name@,
{
    BackendMessage::RepoStarted { repo_name: owned(repo.full_name()) }
}

/// `m` reports progress on `repo` with the given outcome flags and message.
pub open spec fn is_progress(
    m: BackendMessage,
    repo: OwnedRepo,
    success: bool,
    skipped: bool,
    message: Seq<char>,
    had_updates: bool,
    is_clone: bool,
    new_commits: Option<u32>,
    skip_reason: Option<Seq<char>>,
) -> bool {
    match m {
        BackendMessage::RepoProgress {
            repo_name: n,
            success: s,
            skipped: k,
            message: msg,
            had_updates: u,
            is_clone: c,
            new_commits: nc,
            skip_reason: sr,
        } => {
            &&& n@ == repo.repo.full_name@
            &&& s == success
            &&& k == skipped
            &&& msg@ == message
            &&& u == had_updates
            &&& c == is_clone
            &&& nc == new_commits
            &&& match (sr, skip_reason) {
                (Some(a), Some(b)) => a@ == b,
                (None, None) => true,
                _ => false,
            }
        },
        _ => false,
    }
}

/// A clone of `repo` finished.
pub fn clone_complete(repo: &OwnedRepo) -> (r: BackendMessage)
    ensures
        is_progress(r, *repo, true, false, "cloned"@, true, true, None, None),
{
    BackendMessage::RepoProgress {
        repo_name: owned(repo.full_name()),
        success: true,
        skipped: false,
        message: owned("cloned"),
        had_updates: true,
        is_clone: true,
        new_commits: None,
        skip_reason: None,
    }
}

/// Processing `repo` failed with `error` (a clone when `is_clone`).
pub fn repo_failed(repo: &OwnedRepo, error: &str, is_clone: bool) -> (r: BackendMessage)
    ensures
        is_progress(r, *repo, false, false, error@, false, is_clone, None, None),
{
    BackendMessage::RepoProgress {
        repo_name: owned(repo.full_name()),
        success: false,
        skipped: false,
        message: owned(error),
        had_updates: false,
        is_clone,
        new_commits: None,
        skip_reason: None,
    }
}

/// `repo` was skipped for `reason` (a clone when `is_clone`).
pub fn repo_skipped(repo: &OwnedRepo, reason: &str, is_clone: bool) -> (r: BackendMessage)
    ensures
        is_progress(r, *repo, true, true, "skipped: "@ + reason@, false, is_clone, None, Some(reason@)),
{
    BackendMessage::RepoProgress {
        repo_name: owned(repo.full_name()),
        success: true,
        skipped: true,
        message: concat_str("skipped: ", reason),
        had_updates: false,
        is_clone,
        new_commits: None,
        skip_reason: Some(owned(reason)),
    }
}

/// A fetch of `repo` finished; `updated` tells whether it brought commits.
pub fn fetch_complete(repo: &OwnedRepo, updated: bool, new_commits: Option<u32>) -> (r: BackendMessage)
    ensures
        is_progress(
            r,
            *repo,
            true,
            false,
            if updated { "updated"@ } else { "up to date"@ },
            updated,
            false,
            new_commits,
            None,
        ),
{
    let status = if updated { "updated" } else { "up to date" };
    BackendMessage::RepoProgress {
        repo_name: owned(repo.full_name()),
        success: true,
        skipped: false,
        message: owned(status),
        had_updates: updated,
        is_clone: false,
        new_commits,
        skip_reason: None,
    }
}

/// A pull of `repo` finished.
pub fn pull_complete(repo: &OwnedRepo, success: bool, fast_forward: bool) -> (r: BackendMessage)
    ensures
        is_progress(
            r,
            *repo,
            success,
            false,
            if fast_forward { "fast-forward"@ } else { "pulled"@ },
            success,
            false,
            None,
            None,
        ),
{
    let status = if fast_forward { "fast-forward" } else { "pulled" };
    BackendMessage::RepoProgress {
        repo_name: owned(repo.full_name()),
        success,
        skipped: false,
        message: owned(status),
        had_updates: success,
        is_clone: false,
        new_commits: None,
        skip_reason: None,
    }
}

/// The message that starts the running phase of a sync.
pub fn sync_started(to_clone: usize, to_sync: usize) -> (r: BackendMessage)
    requires
        to_clone + to_sync <= usize::MAX,
    ensures
        r matches BackendMessage::OperationStarted { operation, total, to_clone: c, to_sync: s } && {
            &&& operation == Operation::Sync
            &&& total == to_clone + to_sync
            &&& c == to_clone
            &&& s == to_sync
        },
{
    BackendMessage::OperationStarted {
        operation: Operation::Sync,
        total: to_clone + to_sync,
        to_clone,
        to_sync,
    }
}

/// The counters of a summary that may be missing, zero when it is.
pub open spec fn opt_counts(s: Option<OpSummary>) -> (nat, nat, nat) {
    match s {
        Some(x) => x.counts(),
        None => (0nat, 0nat, 0nat),
    }
}

/// The summary of a whole sync: the clone phase's counts plus the sync
/// phase's counts, each phase counting only when it ran.
pub fn combine_summaries(clone: Option<OpSummary>, sync: Option<OpSummary>) -> (r: OpSummary)
    requires
        opt_counts(clone).0 + opt_counts(sync).0 <= usize::MAX,
        opt_counts(clone).1 + opt_counts(sync).1 <= usize::MAX,
        opt_counts(clone).2 + opt_counts(sync).2 <= usize::MAX,
    ensures
        r.counts() == (
            opt_counts(clone).0 + opt_counts(sync).0,
            opt_counts(clone).1 + opt_counts(sync).1,
            opt_counts(clone).2 + opt_counts(sync).2,
        ),
{
    let mut combined = OpSummary::new();
    match clone {
        Some(s) => {
            combined.success = combined.success + s.success;
            combined.failed = combined.failed + s.failed;
            combined.skipped = combined.skipped + s.skipped;
        },
        None => {},
    }
    match sync {
        Some(s) => {
            combined.success = combined.success + s.success;
            combined.failed = combined.failed + s.failed;
            combined.skipped = combined.skipped + s.skipped;
        },
        None => {},
    }
    combined
}

} // verus!
