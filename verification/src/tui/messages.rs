//! How the messages of background work change the app state (the "Update"
//! for backend events). Outside work that a message asks for is returned as
//! [`AppAction`]s; the time comes in as a [`Clock`] reading.

use vstd::prelude::*;
use crate::config::{same_workspace, WorkspaceConfig};
use crate::checks::CheckResult;
use crate::setup::handler::{apply_org_discovery, only_orgs_changed, org_view, SetupEffect};
use crate::setup::state::{OrgEntry, SetupState};
use crate::order::text_lt;
use crate::text::{concat_str, decimal_string, opt_view, owned, spec_decimal, spec_to_lowercase, str_eq, to_lowercase};
use crate::template::{spec_template_path, template_path};
use crate::types::provider::spec_display_name;
use crate::tui::app::{
    App, CheckEntry, FinishState, LogFilter, Operation, OperationState, RunState, SyncLogEntry,
    SyncLogStatus,
};
use crate::tui::event::BackendMessage;
use crate::tui::grouping::{group_by_owner, is_grouping, is_owner_index};
use crate::types::{OpSummary, OwnedRepo, RepoEntry, SyncHistoryEntry};

verus! {

/// At most this many lines stay in the operation log.
pub const MAX_LOG_LINES: usize = 5000;

/// At most this many sync summaries stay in the history.
pub const MAX_SYNC_HISTORY: usize = 50;

/// A reading of the clock, taken when an event is handled.
#[derive(Debug, Clone)]
pub struct Clock {
    /// Milliseconds since the Unix epoch.
    pub now_ms: u64,
    /// The same instant as an RFC 3339 timestamp in UTC.
    pub now_rfc3339: String,
}

/// Outside work that an event asks for.
#[derive(Debug)]
pub enum AppAction {
    /// Run a backend operation (its messages come back as events).
    SpawnOperation(Operation),
    /// Persist this workspace's configuration.
    SaveWorkspace(WorkspaceConfig),
    /// Persist the app's sync history for the named workspace.
    SaveSyncHistory(String),
    /// Load the sync history of the named workspace into the app.
    LoadSyncHistory(String),
    /// Fetch the recent commits of one repository.
    FetchCommits { repo_name: String, path: String },
    /// Fetch the recent commits of each (name, path) repository.
    FetchChangelog(Vec<(String, String)>),
    /// Persist the default workspace (`None` clears it).
    SaveDefaultWorkspace(Option<String>),
    /// Open a folder in the system file manager.
    OpenFolder(String),
    /// Open the configuration folder in the system file manager.
    OpenConfigDirectory,
    /// Run the requirement checks in the background.
    RunChecks,
    /// Reload the workspace list after the wizard saved one, then call
    /// `App::apply_reloaded_workspaces`.
    ReloadWorkspaces,
    /// Create the configuration file (its outcome comes back as a message).
    CreateConfig,
    /// Outside work that the setup wizard asked for.
    Setup(SetupEffect),
}

/// `b` is `a` with the text `line` appended.
pub open spec fn appended_line(a: Seq<String>, b: Seq<String>, line: Seq<char>) -> bool {
    &&& b.len() == a.len() + 1
    &&& forall|i: int| 0 <= i < a.len() ==> b[i] == a[i]
    &&& b[a.len() as int]@ == line
}

/// `a` with only its operation state replaced by `s`.
pub open spec fn with_state(a: App, s: OperationState) -> App {
    App { operation_state: s, ..a }
}

/// The discovery message shown after `n` organizations were found.
pub open spec fn orgs_found_text(n: nat) -> Seq<char> {
    "Found "@ + spec_decimal(n) + " organizations"@
}

/// Discovery found `count` organizations.
pub open spec fn orgs_discovered_step(a: App, count: usize, b: App) -> bool {
    &&& b.operation_state matches OperationState::Discovering { operation, message }
        && operation == Operation::Sync && message@ == orgs_found_text(count as nat)
    &&& b == with_state(a, b.operation_state)
}

/// Discovery found `count` organizations.
pub fn on_orgs_discovered(app: &mut App, count: usize)
    ensures
        orgs_discovered_step(*old(app), count, *final(app)),
{
    let m = concat_str("Found ", decimal_string(count as u64).as_str());
    let message = concat_str(m.as_str(), " organizations");
    app.operation_state = OperationState::Discovering { operation: Operation::Sync, message };
}

/// Discovery started on organization `name`.
pub open spec fn org_started_step(a: App, name: String, b: App) -> bool {
    &&& b.operation_state matches OperationState::Discovering { operation, message }
        && operation == Operation::Sync && message@ == "Discovering: "@ + name@
    &&& b == with_state(a, b.operation_state)
}

/// Discovery started on organization `name`.
pub fn on_org_started(app: &mut App, name: String)
    ensures
        org_started_step(*old(app), name, *final(app)),
{
    let message = concat_str("Discovering: ", name.as_str());
    app.operation_state = OperationState::Discovering { operation: Operation::Sync, message };
}

/// The log line for an organization whose discovery found `n` repositories.
pub open spec fn org_done_line(name: Seq<char>, n: nat) -> Seq<char> {
    "[ok] "@ + name + " ("@ + spec_decimal(n) + " repos)"@
}

/// Discovery finished organization `name` with `count` repositories.
pub open spec fn org_complete_step(a: App, name: String, count: usize, b: App) -> bool {
    &&& appended_line(a.log_lines@, b.log_lines@, org_done_line(name@, count as nat))
    &&& b == (App { log_lines: b.log_lines, ..a })
}

/// Discovery finished organization `name` with `count` repositories.
pub fn on_org_complete(app: &mut App, name: String, count: usize)
    ensures
        org_complete_step(*old(app), name, count, *final(app)),
{
    let a = concat_str("[ok] ", name.as_str());
    let b = concat_str(a.as_str(), " (");
    let c = concat_str(b.as_str(), decimal_string(count as u64).as_str());
    let line = concat_str(c.as_str(), " repos)");
    app.log_lines.push(line);
}

/// An operation or discovery failed with `message`: back to idle, showing it.
pub open spec fn operation_error_step(a: App, message: String, b: App) -> bool {
    &&& b == (App {
        operation_state: OperationState::Idle,
        error_message: Some(message),
        ..a
    })
}

/// An operation or discovery failed with `message`: back to idle, showing it.
pub fn on_operation_error(app: &mut App, message: String)
    ensures
        operation_error_step(*old(app), message, *final(app)),
{
    app.operation_state = OperationState::Idle;
    app.error_message = Some(message);
}

/// The requirement checks of a check entry, as the wizard keeps them.
pub open spec fn as_check_result(e: CheckEntry, r: CheckResult) -> bool {
    &&& r.name == e.name
    &&& r.passed == e.passed
    &&& r.message == e.message
    &&& opt_view(r.suggestion) == opt_view(e.suggestion)
    &&& r.critical == e.critical
}

/// `b` holds the same check entries as `a`.
pub open spec fn same_checks(a: Seq<CheckEntry>, b: Seq<CheckEntry>) -> bool {
    &&& a.len() == b.len()
    &&& forall|i: int| 0 <= i < a.len() ==> {
        &&& (#[trigger] b[i]).name == a[i].name
        &&& b[i].passed == a[i].passed
        &&& b[i].message == a[i].message
        &&& opt_view(b[i].suggestion) == opt_view(a[i].suggestion)
        &&& b[i].critical == a[i].critical
    }
}

/// A copy of an optional string that is equal to it.
fn copy_opt(o: &Option<String>) -> (r: Option<String>)
    ensures
        r == *o,
{
    match o {
        Some(s) => Some(s.clone()),
        None => None,
    }
}

/// The wizard's view of the check entries, and a copy of them.
fn split_checks(entries: &Vec<CheckEntry>) -> (r: (Vec<CheckEntry>, Vec<CheckResult>))
    ensures
        same_checks(entries@, r.0@),
        r.1@.len() == entries@.len(),
        forall|i: int| 0 <= i < entries@.len() ==> as_check_result(entries@[i], #[trigger] r.1@[i]),
{
    let mut copies: Vec<CheckEntry> = Vec::new();
    let mut results: Vec<CheckResult> = Vec::new();
    let mut i: usize = 0;
    while i < entries.len()
        invariant
            0 <= i <= entries@.len(),
            copies@.len() == i,
            results@.len() == i,
            same_checks(entries@.take(i as int), copies@),
            forall|j: int| 0 <= j < i ==> as_check_result(entries@[j], #[trigger] results@[j]),
        decreases entries@.len() - i,
    {
        let e = &entries[i];
        copies.push(CheckEntry {
            name: e.name.clone(),
            passed: e.passed,
            message: e.message.clone(),
            suggestion: copy_opt(&e.suggestion),
            critical: e.critical,
        });
        results.push(CheckResult {
            name: e.name.clone(),
            passed: e.passed,
            message: e.message.clone(),
            suggestion: copy_opt(&e.suggestion),
            critical: e.critical,
        });
        i = i + 1;
    }
    assert(entries@.take(i as int) =~= entries@);
    (copies, results)
}

/// The wizard's requirement checks arrived: the app and the wizard (when it
/// is open) both keep them, and the wizard stops waiting for them.
pub open spec fn setup_check_results_step(a: App, entries: Vec<CheckEntry>, b: App) -> bool {
    &&& same_checks(entries@, b.check_results@)
    &&& match a.setup_state {
        Some(s) => b.setup_state matches Some(t) && {
            &&& t.check_results@.len() == entries@.len()
            &&& forall|i: int| 0 <= i < entries@.len()
                ==> as_check_result(entries@[i], #[trigger] t.check_results@[i])
            &&& t == (SetupState { check_results: t.check_results, checks_loading: false, ..s })
        },
        None => b.setup_state is None
    }
    &&& b == (App {
        check_results: b.check_results,
        setup_state: b.setup_state,
        ..a
    })
}

/// The wizard's requirement checks arrived: the app and the wizard (when it
/// is open) both keep them, and the wizard stops waiting for them.
pub fn on_setup_check_results(app: &mut App, entries: Vec<CheckEntry>)
    ensures
        setup_check_results_step(*old(app), entries, *final(app)),
{
    let (copies, results) = split_checks(&entries);
    app.check_results = copies;
    let mut taken: Option<SetupState> = None;
    std::mem::swap(&mut taken, &mut app.setup_state);
    match taken {
        Some(mut s) => {
            s.check_results = results;
            s.checks_loading = false;
            app.setup_state = Some(s);
        },
        None => {},
    }
}

/// The background requirement checks finished.
pub open spec fn check_results_step(a: App, entries: Vec<CheckEntry>, b: App) -> bool {
    &&& b == (App { check_results: entries, checks_loading: false, ..a })
}

/// The background requirement checks finished.
pub fn on_check_results(app: &mut App, entries: Vec<CheckEntry>)
    ensures
        check_results_step(*old(app), entries, *final(app)),
{
    app.check_results = entries;
    app.checks_loading = false;
}

/// The wizard's organization discovery finished with `result` (applied when
/// the wizard is open).
pub open spec fn setup_orgs_step(a: App, result: Result<Vec<OrgEntry>, String>, b: App) -> bool {
    &&& match a.setup_state {
        Some(s) => b.setup_state matches Some(t) && {
            &&& only_orgs_changed(s, t)
            &&& !t.org_loading
            &&& !t.org_discovery_in_progress
            &&& match result {
                Ok(orgs) => {
                    &&& t.orgs@.map_values(|o: OrgEntry| org_view(o)).to_multiset()
                        == orgs@.map_values(|o: OrgEntry| org_view(o)).to_multiset()
                    &&& forall|i: int, j: int| 0 <= i < j < t.orgs@.len()
                        ==> !text_lt((#[trigger] t.orgs@[j]).name@, (#[trigger] t.orgs@[i]).name@)
                    &&& t.org_index == 0
                    &&& t.org_error == s.org_error
                },
                Err(m) => {
                    &&& t.org_error == Some(m)
                    &&& t.orgs == s.orgs
                    &&& t.org_index == s.org_index
                },
            }
        },
        None => b.setup_state is None
    }
    &&& b == (App { setup_state: b.setup_state, ..a })
}

/// The wizard's organization discovery finished with `result` (applied when
/// the wizard is open).
pub fn on_setup_orgs(app: &mut App, result: Result<Vec<OrgEntry>, String>)
    ensures
        setup_orgs_step(*old(app), result, *final(app)),
{
    let mut taken: Option<SetupState> = None;
    std::mem::swap(&mut taken, &mut app.setup_state);
    match taken {
        Some(mut s) => {
            apply_org_discovery(&mut s, result);
            app.setup_state = Some(s);
        },
        None => {},
    }
}

/// A fresh running state for `operation`, started at `now_ms`.
pub open spec fn is_fresh_running(
    r: RunState,
    operation: Operation,
    total: usize,
    to_clone: usize,
    to_sync: usize,
    now_ms: u64,
) -> bool {
    &&& r.operation == operation
    &&& r.total == total
    &&& r.completed == 0
    &&& r.failed == 0
    &&& r.skipped == 0
    &&& r.current_repo@.len() == 0
    &&& r.with_updates == 0
    &&& r.cloned == 0
    &&& r.synced == 0
    &&& r.to_clone == to_clone
    &&& r.to_sync == to_sync
    &&& r.total_new_commits == 0
    &&& r.started_at_ms == now_ms
    &&& r.active_repos@.len() == 0
    &&& r.throughput_samples@.len() == 0
    &&& r.last_sample_completed == 0
}

/// An operation started its running phase: the logs and the post-sync view
/// are reset and the counters start at zero.
pub open spec fn operation_started_step(a: App, operation: Operation, total: usize, to_clone: usize, to_sync: usize, now_ms: u64, b: App) -> bool {
    &&& b.operation_state matches OperationState::Running(r)
        && is_fresh_running(r, operation, total, to_clone, to_sync, now_ms)
    &&& b.log_lines@.len() == 0
    &&& b.sync_log_entries@.len() == 0
    &&& b.repo_commits@.len() == 0
    &&& b == (App {
        operation_state: b.operation_state,
        log_lines: b.log_lines,
        sync_log_entries: b.sync_log_entries,
        log_filter: LogFilter::All,
        sync_log_index: 0,
        expanded_repo: None,
        repo_commits: b.repo_commits,
        show_sync_history: false,
        ..a
    })
}

/// An operation started its running phase: the logs and the post-sync view
/// are reset and the counters start at zero.
pub fn on_operation_started(
    app: &mut App,
    operation: Operation,
    total: usize,
    to_clone: usize,
    to_sync: usize,
    now_ms: u64,
)
    ensures
        operation_started_step(*old(app), operation, total, to_clone, to_sync, now_ms, *final(app)),
{
    app.log_lines = Vec::new();
    app.sync_log_entries = Vec::new();
    app.log_filter = LogFilter::All;
    app.sync_log_index = 0;
    app.expanded_repo = None;
    app.repo_commits = Vec::new();
    app.show_sync_history = false;
    app.operation_state = OperationState::Running(RunState {
        operation,
        total,
        completed: 0,
        failed: 0,
        skipped: 0,
        current_repo: String::new(),
        with_updates: 0,
        cloned: 0,
        synced: 0,
        to_clone,
        to_sync,
        total_new_commits: 0,
        started_at_ms: now_ms,
        active_repos: Vec::new(),
        throughput_samples: Vec::new(),
        last_sample_completed: 0,
    });
}

/// A repository started processing: while running it joins the active ones.
pub open spec fn repo_started_step(a: App, repo_name: String, b: App) -> bool {
    &&& match a.operation_state {
        OperationState::Running(r) => b.operation_state matches OperationState::Running(t) && {
            &&& t.active_repos@ == r.active_repos@.push(repo_name)
            &&& t == (RunState { active_repos: t.active_repos, ..r })
        },
        _ => b.operation_state == a.operation_state
    }
    &&& b == with_state(a, b.operation_state)
}

/// A repository started processing: while running it joins the active ones.
pub fn on_repo_started(app: &mut App, repo_name: String)
    ensures
        repo_started_step(*old(app), repo_name, *final(app)),
{
    let mut st = OperationState::Idle;
    std::mem::swap(&mut st, &mut app.operation_state);
    match st {
        OperationState::Running(mut r) => {
            r.active_repos.push(repo_name);
            app.operation_state = OperationState::Running(r);
        },
        other => {
            app.operation_state = other;
        },
    }
}

/// How a progress report is classified in the sync log.
pub open spec fn spec_log_status(success: bool, skipped: bool, is_clone: bool, had_updates: bool) -> SyncLogStatus {
    if !success {
        SyncLogStatus::Failed
    } else if skipped {
        SyncLogStatus::Skipped
    } else if is_clone {
        SyncLogStatus::Cloned
    } else if had_updates {
        SyncLogStatus::Updated
    } else {
        SyncLogStatus::Success
    }
}

/// The marker in front of a log line.
pub open spec fn spec_status_prefix(s: SyncLogStatus) -> Seq<char> {
    match s {
        SyncLogStatus::Failed => "[!!]"@,
        SyncLogStatus::Skipped => "[--]"@,
        SyncLogStatus::Cloned => "[++]"@,
        SyncLogStatus::Updated => "[**]"@,
        SyncLogStatus::Success => "[ok]"@,
    }
}

/// The note on new commits at the end of a log line.
pub open spec fn spec_commit_info(had_updates: bool, new_commits: Option<u32>) -> Seq<char> {
    if had_updates && new_commits is Some && new_commits->0 > 0 {
        " ("@ + spec_decimal(new_commits->0 as nat) + " new commits)"@
    } else {
        Seq::empty()
    }
}

/// The log line of one progress report.
pub open spec fn progress_line(
    status: SyncLogStatus,
    name: Seq<char>,
    message: Seq<char>,
    had_updates: bool,
    new_commits: Option<u32>,
) -> Seq<char> {
    spec_status_prefix(status) + " "@ + name + " - "@ + message + spec_commit_info(had_updates, new_commits)
}

/// The folder layout used for workspace `ws`: its own, else the global one.
pub open spec fn spec_layout(config: crate::config::Config, ws: WorkspaceConfig) -> Seq<char> {
    match ws.structure {
        Some(s) => s@,
        None => config.structure@,
    }
}

/// The provider's name as used in folder layouts: its display name in
/// lower case.
pub open spec fn spec_layout_provider(ws: WorkspaceConfig) -> Seq<char> {
    spec_to_lowercase(spec_display_name(ws.provider.kind))
}

/// Where repository `name` lives: under the active workspace's base path,
/// at the workspace's folder layout filled in from the name; `None` without
/// an active workspace or when the name has no `/`.
pub open spec fn spec_repo_path(a: App, name: Seq<char>) -> Option<Seq<char>> {
    match (a.base_path, a.active_workspace) {
        (Some(b), Some(ws)) => spec_template_path(b@, spec_layout(a.config, ws), spec_layout_provider(ws), name),
        _ => None,
    }
}

/// The log kept after adding one line: the oldest lines go so that at most
/// `MAX_LOG_LINES` remain.
pub open spec fn capped_log(a: Seq<String>) -> Seq<String> {
    if a.len() >= MAX_LOG_LINES {
        a.skip(a.len() + 1 - MAX_LOG_LINES)
    } else {
        a
    }
}

/// The counters of a running operation after one progress report.
pub open spec fn counted(
    r: RunState,
    t: RunState,
    name: Seq<char>,
    success: bool,
    skipped: bool,
    had_updates: bool,
    is_clone: bool,
    new_commits: Option<u32>,
) -> bool {
    let ok = !skipped && success;
    &&& t.completed == r.completed + 1
    &&& t.current_repo@ == name
    &&& t.active_repos@ == r.active_repos@.filter(|x: String| x@ != name)
    &&& t.skipped == r.skipped + (if skipped { 1int } else { 0int })
    &&& t.failed == r.failed + (if !skipped && !success { 1int } else { 0int })
    &&& t.cloned == r.cloned + (if ok && is_clone { 1int } else { 0int })
    &&& t.synced == r.synced + (if ok && !is_clone { 1int } else { 0int })
    &&& t.with_updates == r.with_updates + (if ok && had_updates { 1int } else { 0int })
    &&& t.total_new_commits == r.total_new_commits + (if ok && had_updates && new_commits is Some {
        new_commits->0 as int
    } else {
        0int
    })
    &&& t == (RunState {
        completed: t.completed,
        current_repo: t.current_repo,
        active_repos: t.active_repos,
        skipped: t.skipped,
        failed: t.failed,
        cloned: t.cloned,
        synced: t.synced,
        with_updates: t.with_updates,
        total_new_commits: t.total_new_commits,
        ..r
    })
}

/// The counters of a running operation can take one more report.
pub open spec fn progress_fits(s: OperationState, new_commits: Option<u32>) -> bool {
    s matches OperationState::Running(r) ==> {
        &&& r.completed < usize::MAX
        &&& r.skipped < usize::MAX
        &&& r.failed < usize::MAX
        &&& r.cloned < usize::MAX
        &&& r.synced < usize::MAX
        &&& r.with_updates < usize::MAX
        &&& (new_commits matches Some(n) ==> r.total_new_commits + n <= u32::MAX)
    }
}

/// The strings of `v` other than `name`, in order.
fn without_name(v: Vec<String>, name: &str) -> (r: Vec<String>)
    ensures
        r@ == v@.filter(|x: String| x@ != name@),
{
    let ghost pred = |x: String| x@ != name@;
    let mut r: Vec<String> = Vec::new();
    let mut i: usize = 0;
    while i < v.len()
        invariant
            0 <= i <= v@.len(),
            pred == (|x: String| x@ != name@),
            r@ == v@.take(i as int).filter(pred),
        decreases v@.len() - i,
    {
        proof {
            reveal(Seq::filter);
            assert(v@.take(i + 1).drop_last() =~= v@.take(i as int));
            assert(v@.take(i + 1).last() == v@[i as int]);
        }
        if !str_eq(v[i].as_str(), name) {
            r.push(v[i].clone());
        }
        i = i + 1;
    }
    assert(v@.take(v@.len() as int) =~= v@);
    r
}

/// The text of a log line.
fn progress_line_text(
    status: SyncLogStatus,
    name: &str,
    message: &str,
    had_updates: bool,
    new_commits: Option<u32>,
) -> (r: String)
    ensures
        r@ == progress_line(status, name@, message@, had_updates, new_commits),
{
    let prefix = match status {
        SyncLogStatus::Failed => "[!!]",
        SyncLogStatus::Skipped => "[--]",
        SyncLogStatus::Cloned => "[++]",
        SyncLogStatus::Updated => "[**]",
        SyncLogStatus::Success => "[ok]",
    };
    let a = concat_str(prefix, " ");
    let b = concat_str(a.as_str(), name);
    let c = concat_str(b.as_str(), " - ");
    let d = concat_str(c.as_str(), message);
    let info = match new_commits {
        Some(n) => {
            if had_updates && n > 0 {
                let x = concat_str(" (", decimal_string(n as u64).as_str());
                concat_str(x.as_str(), " new commits)")
            } else {
                String::new()
            }
        },
        None => String::new(),
    };
    assert(prefix@ == spec_status_prefix(status));
    assert(info@ == spec_commit_info(had_updates, new_commits));
    let line = concat_str(d.as_str(), info.as_str());
    line
}

/// The log without its oldest lines, so that one more line keeps it within
/// `MAX_LOG_LINES`.
fn cap_log(lines: Vec<String>) -> (r: Vec<String>)
    ensures
        r@ == capped_log(lines@),
{
    if lines.len() >= MAX_LOG_LINES {
        let drop_count = lines.len() - (MAX_LOG_LINES - 1);
        let mut r: Vec<String> = Vec::new();
        let mut i: usize = drop_count;
        while i < lines.len()
            invariant
                drop_count <= i <= lines@.len(),
                r@ == lines@.subrange(drop_count as int, i as int),
            decreases lines@.len() - i,
        {
            r.push(lines[i].clone());
            assert(lines@.subrange(drop_count as int, i + 1) =~= lines@.subrange(drop_count as int, i as int).push(lines@[i as int]));
            i = i + 1;
        }
        assert(lines@.subrange(drop_count as int, lines@.len() as int) =~= lines@.skip(drop_count as int));
        r
    } else {
        lines
    }
}

/// The folder of repository `name` in the active workspace.
fn repo_path(app: &App, name: &str) -> (r: Option<String>)
    ensures
        opt_view(r) == spec_repo_path(*app, name@),
{
    match (&app.base_path, &app.active_workspace) {
        (Some(b), Some(ws)) => {
            let layout = match &ws.structure {
                Some(t) => t.as_str(),
                None => app.config.structure.as_str(),
            };
            let provider = to_lowercase(ws.provider.kind.display_name());
            template_path(b.as_str(), layout, provider.as_str(), name)
        },
        _ => None,
    }
}

/// One repository was processed: while running the counters move on, and
/// the report is added to the structured log and to the text log (which
/// keeps at most `MAX_LOG_LINES` lines and scrolls to its end).
pub open spec fn repo_progress_step(a: App, repo_name: String, success: bool, skipped: bool, message: String, had_updates: bool, is_clone: bool, new_commits: Option<u32>, b: App) -> bool {
    &&& match a.operation_state {
        OperationState::Running(r) => b.operation_state matches OperationState::Running(t)
            && counted(r, t, repo_name@, success, skipped, had_updates, is_clone, new_commits),
        _ => b.operation_state == a.operation_state
    }
    &&& b.sync_log_entries@.len() == a.sync_log_entries@.len() + 1
    &&& forall|i: int| 0 <= i < a.sync_log_entries@.len()
        ==> b.sync_log_entries@[i] == a.sync_log_entries@[i]
    &&& ({
        let e = b.sync_log_entries@.last();
        &&& e.repo_name@ == repo_name@
        &&& e.status == spec_log_status(success, skipped, is_clone, had_updates)
        &&& e.message@ == message@
        &&& e.had_updates == had_updates
        &&& e.is_clone == is_clone
        &&& e.new_commits == new_commits
        &&& opt_view(e.path) == spec_repo_path(a, repo_name@)
    })
    &&& appended_line(
        capped_log(a.log_lines@),
        b.log_lines@,
        progress_line(
            spec_log_status(success, skipped, is_clone, had_updates),
            repo_name@,
            message@,
            had_updates,
            new_commits,
        )
    )
    &&& b.scroll_offset == b.log_lines@.len() - 1
    &&& b == (App {
        operation_state: b.operation_state,
        sync_log_entries: b.sync_log_entries,
        log_lines: b.log_lines,
        scroll_offset: b.scroll_offset,
        ..a
    })
}

/// One repository was processed: while running the counters move on, and
/// the report is added to the structured log and to the text log (which
/// keeps at most `MAX_LOG_LINES` lines and scrolls to its end).
pub fn on_repo_progress(
    app: &mut App,
    repo_name: String,
    success: bool,
    skipped: bool,
    message: String,
    had_updates: bool,
    is_clone: bool,
    new_commits: Option<u32>,
)
    requires
        progress_fits(old(app).operation_state, new_commits),
    ensures
        repo_progress_step(*old(app), repo_name, success, skipped, message, had_updates, is_clone, new_commits, *final(app)),
{
    let mut st = OperationState::Idle;
    std::mem::swap(&mut st, &mut app.operation_state);
    app.operation_state = progressed(st, &repo_name, success, skipped, had_updates, is_clone, new_commits);
    let status = log_status(success, skipped, is_clone, had_updates);
    let line = progress_line_text(status, repo_name.as_str(), message.as_str(), had_updates, new_commits);
    let path = repo_path(app, repo_name.as_str());
    app.sync_log_entries.push(SyncLogEntry {
        repo_name,
        status,
        message,
        had_updates,
        is_clone,
        new_commits,
        path,
    });
    let mut lines: Vec<String> = Vec::new();
    std::mem::swap(&mut lines, &mut app.log_lines);
    let mut kept = cap_log(lines);
    kept.push(line);
    app.scroll_offset = kept.len() - 1;
    app.log_lines = kept;
}

/// How a progress report is classified in the sync log.
fn log_status(success: bool, skipped: bool, is_clone: bool, had_updates: bool) -> (r: SyncLogStatus)
    ensures
        r == spec_log_status(success, skipped, is_clone, had_updates),
{
    if !success {
        SyncLogStatus::Failed
    } else if skipped {
        SyncLogStatus::Skipped
    } else if is_clone {
        SyncLogStatus::Cloned
    } else if had_updates {
        SyncLogStatus::Updated
    } else {
        SyncLogStatus::Success
    }
}

/// The operation state after one progress report on `name`.
fn progressed(
    st: OperationState,
    name: &String,
    success: bool,
    skipped: bool,
    had_updates: bool,
    is_clone: bool,
    new_commits: Option<u32>,
) -> (t: OperationState)
    requires
        progress_fits(st, new_commits),
    ensures
        match st {
            OperationState::Running(r) => t matches OperationState::Running(u)
                && counted(r, u, name@, success, skipped, had_updates, is_clone, new_commits),
            _ => t == st,
        },
{
    match st {
        OperationState::Running(mut r) => {
            r.completed = r.completed + 1;
            r.current_repo = name.clone();
            let active = r.active_repos;
            r.active_repos = without_name(active, name.as_str());
            if skipped {
                r.skipped = r.skipped + 1;
            } else if !success {
                r.failed = r.failed + 1;
            } else {
                if is_clone {
                    r.cloned = r.cloned + 1;
                } else {
                    r.synced = r.synced + 1;
                }
                if had_updates {
                    r.with_updates = r.with_updates + 1;
                    match new_commits {
                        Some(n) => {
                            r.total_new_commits = r.total_new_commits + n;
                        },
                        None => {},
                    }
                }
            }
            OperationState::Running(r)
        },
        other => other,
    }
}

/// What an operation achieved when it completes in state `s` at `now_ms`:
/// the counters of its running phase, or nothing when it never ran.
pub open spec fn finish_of(s: OperationState, summary: OpSummary, now_ms: u64) -> FinishState {
    match s {
        OperationState::Running(r) => FinishState {
            operation: r.operation,
            summary,
            with_updates: r.with_updates,
            cloned: r.cloned,
            synced: r.synced,
            total_new_commits: r.total_new_commits,
            duration_ms: if now_ms >= r.started_at_ms { (now_ms - r.started_at_ms) as u64 } else { 0 },
        },
        _ => FinishState {
            operation: Operation::Sync,
            summary,
            with_updates: 0,
            cloned: 0,
            synced: 0,
            total_new_commits: 0,
            duration_ms: 0,
        },
    }
}

/// `e` records the sync `f` that finished at `now`.
pub open spec fn is_history_entry(e: SyncHistoryEntry, f: FinishState, now: Seq<char>) -> bool {
    &&& e.timestamp@ == now
    &&& e.duration_ms == f.duration_ms
    &&& e.success == f.summary.success
    &&& e.failed == f.summary.failed
    &&& e.skipped == f.summary.skipped
    &&& e.with_updates == f.with_updates
    &&& e.cloned == f.cloned
    &&& e.total_new_commits == f.total_new_commits
}

/// `n` is history `h` with one entry added at the end and, when it then
/// holds more than `MAX_SYNC_HISTORY` entries, the oldest one dropped.
pub open spec fn history_pushed(h: Seq<SyncHistoryEntry>, n: Seq<SyncHistoryEntry>) -> bool {
    let k: int = if h.len() + 1 > MAX_SYNC_HISTORY { 1 } else { 0 };
    &&& n.len() == h.len() + 1 - k
    &&& forall|i: int| 0 <= i < n.len() - 1 ==> n[i] == h[i + k]
}

/// `b` is workspace `a` marked as synced at `now`.
pub open spec fn synced_at(a: WorkspaceConfig, b: WorkspaceConfig, now: Seq<char>) -> bool {
    &&& opt_view(b.last_synced) == Some(now)
    &&& b == (WorkspaceConfig { last_synced: b.last_synced, ..a })
}

/// `b` holds the settings of workspace `a` marked as synced at `now`.
pub open spec fn synced_copy_of(a: WorkspaceConfig, b: WorkspaceConfig, now: Seq<char>) -> bool {
    &&& opt_view(b.last_synced) == Some(now)
    &&& same_workspace(b, WorkspaceConfig { last_synced: b.last_synced, ..a })
}

/// The workspace list after the workspace named `name` was synced at `now`:
/// the first one with that name is marked, the others stay.
pub open spec fn list_synced(a: Seq<WorkspaceConfig>, b: Seq<WorkspaceConfig>, name: Seq<char>, now: Seq<char>) -> bool {
    ||| exists|k: int| #![trigger a[k]] #![trigger b[k]] {
        &&& crate::tui::app::is_first_named(a, name, k)
        &&& b.len() == a.len()
        &&& synced_at(a[k], b[k], now)
        &&& forall|j: int| 0 <= j < a.len() && j != k ==> b[j] == a[j]
    }
    ||| (crate::tui::app::none_named(a, name) && b == a)
}

/// The index of the first workspace named `name`, if any.
fn find_workspace(ws: &Vec<WorkspaceConfig>, name: &str) -> (r: Option<usize>)
    ensures
        match r {
            Some(k) => crate::tui::app::is_first_named(ws@, name@, k as int),
            None => crate::tui::app::none_named(ws@, name@),
        },
{
    let mut i: usize = 0;
    while i < ws.len()
        invariant
            0 <= i <= ws@.len(),
            forall|j: int| 0 <= j < i ==> ws@[j].name@ != name@,
        decreases ws@.len() - i,
    {
        if str_eq(ws[i].name.as_str(), name) {
            return Some(i);
        }
        i = i + 1;
    }
    None
}

/// Marks the first workspace named `name` as synced at `now`.
fn mark_listed_synced(list: &mut Vec<WorkspaceConfig>, name: &str, now: &String)
    ensures
        list_synced(old(list)@, final(list)@, name@, now@),
{
    match find_workspace(list, name) {
        Some(k) => {
            let ghost before = list@;
            let mut entry = list.remove(k);
            entry.last_synced = Some(now.clone());
            list.insert(k, entry);
            proof {
                assert forall|j: int| 0 <= j < before.len() && j != k implies list@[j] == before[j] by {
                    if j < k {
                        assert(list@[j] == before.remove(k as int)[j]);
                    } else {
                        assert(list@[j] == before.remove(k as int)[j - 1]);
                    }
                }
                assert(synced_at(before[k as int], list@[k as int], now@));
            }
        },
        None => {},
    }
}

/// Adds `e` to the history, dropping the oldest entry beyond the limit.
fn push_history(h: &mut Vec<SyncHistoryEntry>, e: SyncHistoryEntry)
    ensures
        history_pushed(old(h)@, final(h)@),
        final(h)@.last() == e,
{
    h.push(e);
    if h.len() > MAX_SYNC_HISTORY {
        h.remove(0);
    }
}

/// The counters of the operation in state `s`, finished with `summary`.
fn finish_state(s: &OperationState, summary: OpSummary, now_ms: u64) -> (f: FinishState)
    ensures
        f == finish_of(*s, summary, now_ms),
        f.summary == summary,
        match *s {
            OperationState::Running(r) => {
                &&& f.operation == r.operation
                &&& f.cloned == r.cloned
                &&& f.synced == r.synced
                &&& f.with_updates == r.with_updates
                &&& f.total_new_commits == r.total_new_commits
            },
            _ => f.cloned == 0 && f.synced == 0 && f.with_updates == 0 && f.total_new_commits == 0,
        },
{
    match s {
        OperationState::Running(r) => {
            let d = if now_ms >= r.started_at_ms { now_ms - r.started_at_ms } else { 0 };
            FinishState {
                operation: r.operation,
                summary,
                with_updates: r.with_updates,
                cloned: r.cloned,
                synced: r.synced,
                total_new_commits: r.total_new_commits,
                duration_ms: d,
            }
        },
        _ => FinishState {
            operation: Operation::Sync,
            summary,
            with_updates: 0,
            cloned: 0,
            synced: 0,
            total_new_commits: 0,
            duration_ms: 0,
        },
    }
}

/// A copy of `ws` marked as synced at `now`.
fn synced_copy(ws: &WorkspaceConfig, now: &String) -> (r: WorkspaceConfig)
    ensures
        synced_copy_of(*ws, r, now@),
{
    let orgs = ws.orgs.clone();
    proof {
        assert(orgs@ =~= ws.orgs@);
    }
    let r = WorkspaceConfig {
        name: ws.name.clone(),
        base_path: ws.base_path.clone(),
        provider: crate::config::WorkspaceProvider {
            kind: ws.provider.kind,
            api_url: copy_opt(&ws.provider.api_url),
        },
        username: ws.username.clone(),
        orgs,
        last_synced: Some(now.clone()),
        refresh_interval: ws.refresh_interval,
        structure: copy_opt(&ws.structure),
        sync_mode: ws.sync_mode,
        concurrency: ws.concurrency,
    };
    r
}

/// A finished sync: the active workspace and its list entry are marked as
/// synced at the clock's time, and a summary joins the history.
fn record_sync(app: &mut App, f: &FinishState, clock: &Clock) -> (actions: Vec<AppAction>)
    ensures
        history_pushed(old(app).sync_history@, final(app).sync_history@),
        is_history_entry(final(app).sync_history@.last(), *f, clock.now_rfc3339@),
        match old(app).active_workspace {
            Some(w) => {
                &&& final(app).active_workspace matches Some(v) && synced_at(w, v, clock.now_rfc3339@)
                &&& list_synced(old(app).workspaces@, final(app).workspaces@, w.name@, clock.now_rfc3339@)
                &&& actions@.len() == 3
                &&& actions@[0] matches AppAction::SaveWorkspace(s) && synced_copy_of(w, s, clock.now_rfc3339@)
                &&& actions@[1] matches AppAction::SaveSyncHistory(n) && n@ == w.name@
                &&& actions@[2] == AppAction::SpawnOperation(Operation::Status)
            },
            None => {
                &&& final(app).active_workspace is None
                &&& final(app).workspaces == old(app).workspaces
                &&& actions@ == seq![AppAction::SpawnOperation(Operation::Status)]
            },
        },
        *final(app) == (App {
            sync_history: final(app).sync_history,
            active_workspace: final(app).active_workspace,
            workspaces: final(app).workspaces,
            ..*old(app)
        }),
{
    let mut actions: Vec<AppAction> = Vec::new();
    let mut active: Option<WorkspaceConfig> = None;
    std::mem::swap(&mut active, &mut app.active_workspace);
    match active {
        Some(mut ws) => {
            let saved = synced_copy(&ws, &clock.now_rfc3339);
            ws.last_synced = Some(clock.now_rfc3339.clone());
            mark_listed_synced(&mut app.workspaces, ws.name.as_str(), &clock.now_rfc3339);
            actions.push(AppAction::SaveWorkspace(saved));
            actions.push(AppAction::SaveSyncHistory(ws.name.clone()));
            app.active_workspace = Some(ws);
        },
        None => {},
    }
    push_history(
        &mut app.sync_history,
        SyncHistoryEntry {
            timestamp: clock.now_rfc3339.clone(),
            duration_ms: f.duration_ms,
            success: f.summary.success,
            failed: f.summary.failed,
            skipped: f.summary.skipped,
            with_updates: f.with_updates,
            cloned: f.cloned,
            total_new_commits: f.total_new_commits,
        },
    );
    actions.push(AppAction::SpawnOperation(Operation::Status));
    actions
}

/// An operation completed with `summary`. It becomes finished with the
/// counters of its running phase and the post-sync log shows the updated
/// repositories when there are any. A finished sync also marks the active
/// workspace (and its entry in the list) as synced now, adds a summary to
/// the sync history, and asks to save both and to rescan the status.
pub open spec fn operation_complete_step(a: App, summary: OpSummary, clock: Clock, acts: Seq<AppAction>, b: App) -> bool {
    &&& ({
        let f = finish_of(a.operation_state, summary, clock.now_ms);
        &&& b.operation_state == OperationState::Finished(f)
        &&& b.log_filter == (if f.with_updates > 0 || f.cloned > 0 {
            LogFilter::Updated
        } else {
            LogFilter::All
        })
        &&& if f.operation == Operation::Sync {
            &&& history_pushed(a.sync_history@, b.sync_history@)
            &&& is_history_entry(b.sync_history@.last(), f, clock.now_rfc3339@)
            &&& match a.active_workspace {
                Some(w) => {
                    &&& b.active_workspace matches Some(v) && synced_at(w, v, clock.now_rfc3339@)
                    &&& list_synced(a.workspaces@, b.workspaces@, w.name@, clock.now_rfc3339@)
                    &&& acts.len() == 3
                    &&& acts[0] matches AppAction::SaveWorkspace(s) && synced_copy_of(w, s, clock.now_rfc3339@)
                    &&& acts[1] matches AppAction::SaveSyncHistory(n) && n@ == w.name@
                    &&& acts[2] == AppAction::SpawnOperation(Operation::Status)
                },
                None => {
                    &&& b.active_workspace is None
                    &&& b.workspaces == a.workspaces
                    &&& acts == seq![AppAction::SpawnOperation(Operation::Status)]
                },
            }
        } else {
            &&& b.sync_history == a.sync_history
            &&& b.active_workspace == a.active_workspace
            &&& b.workspaces == a.workspaces
            &&& acts.len() == 0
        }
    })
    &&& b == (App {
        operation_state: b.operation_state,
        log_filter: b.log_filter,
        sync_log_index: 0,
        sync_history: b.sync_history,
        active_workspace: b.active_workspace,
        workspaces: b.workspaces,
        ..a
    })
}

/// An operation completed with `summary`. It becomes finished with the
/// counters of its running phase and the post-sync log shows the updated
/// repositories when there are any. A finished sync also marks the active
/// workspace (and its entry in the list) as synced now, adds a summary to
/// the sync history, and asks to save both and to rescan the status.
pub fn on_operation_complete(app: &mut App, summary: OpSummary, clock: &Clock) -> (actions: Vec<AppAction>)
    ensures
        operation_complete_step(*old(app), summary, *clock, actions@, *final(app)),
{
    let f = finish_state(&app.operation_state, summary, clock.now_ms);
    let actions = if f.operation == Operation::Sync {
        record_sync(app, &f, clock)
    } else {
        Vec::new()
    };
    app.log_filter = if f.with_updates > 0 || f.cloned > 0 {
        LogFilter::Updated
    } else {
        LogFilter::All
    };
    app.sync_log_index = 0;
    app.operation_state = OperationState::Finished(f);
    actions
}

/// A status scan finished at `now_ms` with `entries`: they replace the local
/// repositories and a running status scan becomes idle.
pub open spec fn status_results_step(a: App, entries: Vec<RepoEntry>, now_ms: u64, b: App) -> bool {
    &&& b.operation_state == (if a.operation_state matches OperationState::Running(r)
        && r.operation == Operation::Status {
        OperationState::Idle
    } else {
        a.operation_state
    })
    &&& b == (App {
        local_repos: entries,
        operation_state: b.operation_state,
        status_loading: false,
        last_status_scan: Some(now_ms),
        ..a
    })
}

/// A status scan finished at `now_ms` with `entries`: they replace the local
/// repositories and a running status scan becomes idle.
pub fn on_status_results(app: &mut App, entries: Vec<RepoEntry>, now_ms: u64)
    ensures
        status_results_step(*old(app), entries, now_ms, *final(app)),
{
    app.local_repos = entries;
    let running_status = match &app.operation_state {
        OperationState::Running(r) => r.operation == Operation::Status,
        _ => false,
    };
    if running_status {
        app.operation_state = OperationState::Idle;
    }
    app.status_loading = false;
    app.last_status_scan = Some(now_ms);
}

/// A copy of a list of strings.
fn copy_strings(v: &Vec<String>) -> (r: Vec<String>)
    ensures
        r@ == v@,
{
    let r = v.clone();
    assert(r@ =~= v@);
    r
}

/// `b` is the changelog `a` with the commits of `name` stored: they replace
/// those of the first entry for `name`, or are added at the end.
pub open spec fn changelog_stored(
    a: Seq<(String, Vec<String>)>,
    b: Seq<(String, Vec<String>)>,
    name: Seq<char>,
    commits: Seq<String>,
) -> bool {
    ||| exists|k: int| #![trigger a[k]] {
        &&& 0 <= k < a.len()
        &&& a[k].0@ == name
        &&& forall|j: int| 0 <= j < k ==> a[j].0@ != name
        &&& b.len() == a.len()
        &&& b[k].0 == a[k].0
        &&& b[k].1@ == commits
        &&& forall|j: int| 0 <= j < a.len() && j != k ==> b[j] == a[j]
    }
    ||| {
        &&& forall|j: int| 0 <= j < a.len() ==> a[j].0@ != name
        &&& b.len() == a.len() + 1
        &&& forall|j: int| 0 <= j < a.len() ==> b[j] == a[j]
        &&& b[a.len() as int].0@ == name
        &&& b[a.len() as int].1@ == commits
    }
}

/// Stores the commits of `name` in the changelog.
fn store_changelog(list: &mut Vec<(String, Vec<String>)>, name: String, commits: Vec<String>)
    ensures
        changelog_stored(old(list)@, final(list)@, name@, commits@),
{
    let mut i: usize = 0;
    let mut found = false;
    while i < list.len() && !found
        invariant
            0 <= i <= list@.len(),
            !found ==> forall|j: int| 0 <= j < i ==> list@[j].0@ != name@,
            found ==> i < list@.len() && list@[i as int].0@ == name@
                && forall|j: int| 0 <= j < i ==> list@[j].0@ != name@,
        decreases list@.len() - i + (if found { 0int } else { 1int }),
    {
        if str_eq(list[i].0.as_str(), name.as_str()) {
            found = true;
        } else {
            i = i + 1;
        }
    }
    let ghost before = list@;
    if found {
        let (key, _) = list.remove(i);
        list.insert(i, (key, commits));
        proof {
            assert forall|j: int| 0 <= j < before.len() && j != i implies list@[j] == before[j] by {
                if j < i {
                    assert(list@[j] == before.remove(i as int)[j]);
                } else {
                    assert(list@[j] == before.remove(i as int)[j - 1]);
                }
            }
        }
    } else {
        list.push((name, commits));
    }
}

/// The commit log of `repo_name` arrived: it is shown when that repository
/// is expanded, and collected when the changelog is open.
pub open spec fn repo_commit_log_step(a: App, repo_name: String, commits: Vec<String>, b: App) -> bool {
    &&& (a.expanded_repo matches Some(e) && e@ == repo_name@) ==> b.repo_commits@ == commits@
    &&& !(a.expanded_repo matches Some(e) && e@ == repo_name@) ==> b.repo_commits == a.repo_commits
    &&& a.log_filter == LogFilter::Changelog ==> {
        &&& changelog_stored(a.changelog_commits@, b.changelog_commits@, repo_name@, commits@)
        &&& b.changelog_loaded == a.changelog_loaded + 1
    }
    &&& a.log_filter != LogFilter::Changelog ==> {
        &&& b.changelog_commits == a.changelog_commits
        &&& b.changelog_loaded == a.changelog_loaded
    }
    &&& b == (App {
        repo_commits: b.repo_commits,
        changelog_commits: b.changelog_commits,
        changelog_loaded: b.changelog_loaded,
        ..a
    })
}

/// The commit log of `repo_name` arrived: it is shown when that repository
/// is expanded, and collected when the changelog is open.
pub fn on_repo_commit_log(app: &mut App, repo_name: String, commits: Vec<String>)
    requires
        old(app).log_filter == LogFilter::Changelog ==> old(app).changelog_loaded < usize::MAX,
    ensures
        repo_commit_log_step(*old(app), repo_name, commits, *final(app)),
{
    let expanded = match &app.expanded_repo {
        Some(e) => str_eq(e.as_str(), repo_name.as_str()),
        None => false,
    };
    if expanded {
        app.repo_commits = copy_strings(&commits);
    }
    if app.log_filter == LogFilter::Changelog {
        store_changelog(&mut app.changelog_commits, repo_name, commits);
        app.changelog_loaded = app.changelog_loaded + 1;
    }
}

/// The config file was created at `path`.
pub open spec fn init_config_created_step(a: App, path: String, b: App) -> bool {
    &&& b == (App { config_created: true, config_path_display: Some(path), ..a })
}

/// The config file was created at `path`.
pub fn on_init_config_created(app: &mut App, path: String)
    ensures
        init_config_created_step(*old(app), path, *final(app)),
{
    app.config_created = true;
    app.config_path_display = Some(path);
}

/// A failure to show: creating the config or saving the default workspace.
pub open spec fn error_message_step(a: App, message: String, b: App) -> bool {
    &&& b == (App { error_message: Some(message), ..a })
}

/// A failure to show: creating the config or saving the default workspace.
pub fn on_error_message(app: &mut App, message: String)
    ensures
        error_message_step(*old(app), message, *final(app)),
{
    app.error_message = Some(message);
}

/// The default workspace was saved as `name`.
pub open spec fn default_workspace_updated_step(a: App, name: Option<String>, b: App) -> bool {
    &&& b.config == (crate::config::Config { default_workspace: name, ..a.config })
    &&& b == (App { config: b.config, ..a })
}

/// The default workspace was saved as `name`.
pub fn on_default_workspace_updated(app: &mut App, name: Option<String>)
    ensures
        default_workspace_updated_step(*old(app), name, *final(app)),
{
    app.config.default_workspace = name;
}

/// Discovery finished with `repos`: they become the discovered repositories,
/// listed by owner (owners sorted, each once) and grouped by owner.
pub open spec fn discovery_complete_step(a: App, repos: Vec<OwnedRepo>, b: App) -> bool {
    &&& b.all_repos@ == repos@
    &&& is_owner_index(b.orgs@, repos@)
    &&& is_grouping(b.repos_by_org@, b.orgs@, repos@)
    &&& b == (App {
        all_repos: b.all_repos,
        orgs: b.orgs,
        repos_by_org: b.repos_by_org,
        ..a
    })
}

/// Discovery finished with `repos`: they become the discovered repositories,
/// listed by owner (owners sorted, each once) and grouped by owner.
pub fn on_discovery_complete(app: &mut App, repos: Vec<OwnedRepo>)
    ensures
        discovery_complete_step(*old(app), repos, *final(app)),
{
    let (orgs, groups) = group_by_owner(&repos);
    app.orgs = orgs;
    app.repos_by_org = groups;
    app.all_repos = repos;
}

/// The counters that a message increments have room for it.
pub open spec fn message_fits(a: App, m: BackendMessage) -> bool {
    match m {
        BackendMessage::RepoProgress { new_commits, .. } => progress_fits(a.operation_state, new_commits),
        BackendMessage::RepoCommitLog { .. } => a.log_filter == LogFilter::Changelog
            ==> a.changelog_loaded < usize::MAX,
        _ => true,
    }
}

/// How message `m`, handled at clock reading `c`, takes the app from `a` to
/// `b` and which outside work it asks for.
pub open spec fn backend_step(a: App, m: BackendMessage, c: Clock, acts: Seq<AppAction>, b: App) -> bool {
    match m {
        BackendMessage::OrgsDiscovered(n) => orgs_discovered_step(a, n, b) && acts.len() == 0,
        BackendMessage::OrgStarted(name) => org_started_step(a, name, b) && acts.len() == 0,
        BackendMessage::OrgComplete(name, n) => org_complete_step(a, name, n, b) && acts.len() == 0,
        BackendMessage::DiscoveryComplete(repos) => discovery_complete_step(a, repos, b) && acts.len() == 0,
        BackendMessage::DiscoveryError(e) => operation_error_step(a, e, b) && acts.len() == 0,
        BackendMessage::SetupOrgsDiscovered(orgs) => setup_orgs_step(a, Ok(orgs), b) && acts.len() == 0,
        BackendMessage::SetupOrgsError(e) => setup_orgs_step(a, Err(e), b) && acts.len() == 0,
        BackendMessage::OperationStarted { operation, total, to_clone, to_sync } =>
            operation_started_step(a, operation, total, to_clone, to_sync, c.now_ms, b) && acts.len() == 0,
        BackendMessage::RepoStarted { repo_name } => repo_started_step(a, repo_name, b) && acts.len() == 0,
        BackendMessage::RepoProgress {
            repo_name,
            success,
            skipped,
            message,
            had_updates,
            is_clone,
            new_commits,
            ..
        } => repo_progress_step(a, repo_name, success, skipped, message, had_updates, is_clone, new_commits, b)
            && acts.len() == 0,
        BackendMessage::RepoCommitLog { repo_name, commits } =>
            repo_commit_log_step(a, repo_name, commits, b) && acts.len() == 0,
        BackendMessage::OperationComplete(summary) => operation_complete_step(a, summary, c, acts, b),
        BackendMessage::OperationError(e) => operation_error_step(a, e, b) && acts.len() == 0,
        BackendMessage::StatusResults(entries) => status_results_step(a, entries, c.now_ms, b) && acts.len() == 0,
        BackendMessage::SetupCheckResults(entries) => setup_check_results_step(a, entries, b) && acts.len() == 0,
        BackendMessage::InitConfigCreated(path) => init_config_created_step(a, path, b) && acts.len() == 0,
        BackendMessage::InitConfigError(e) => error_message_step(a, e, b) && acts.len() == 0,
        BackendMessage::DefaultWorkspaceUpdated(name) =>
            default_workspace_updated_step(a, name, b) && acts.len() == 0,
        BackendMessage::DefaultWorkspaceError(e) => error_message_step(a, e, b) && acts.len() == 0,
        BackendMessage::CheckResults(entries) => check_results_step(a, entries, b) && acts.len() == 0,
    }
}

/// What a progress report does to the text log (kept at most
/// `MAX_LOG_LINES` long): one line is added and the oldest dropped so that
/// at most `MAX_LOG_LINES` remain, the earlier lines kept are the newest of
/// the old log, the new line starts with the report's status mark and the
/// repository's name, and the view scrolls to it.
pub open spec fn progress_log_kept(a: App, m: BackendMessage, b: App) -> bool {
    match m {
        BackendMessage::RepoProgress { repo_name, success, skipped, had_updates, is_clone, .. } =>
            a.log_lines@.len() <= MAX_LOG_LINES ==> {
                &&& b.log_lines@.len() == (if a.log_lines@.len() < MAX_LOG_LINES {
                    a.log_lines@.len() + 1
                } else {
                    MAX_LOG_LINES as nat
                })
                &&& b.log_lines@.drop_last() == a.log_lines@.skip(a.log_lines@.len() + 1 - b.log_lines@.len())
                &&& (spec_status_prefix(spec_log_status(success, skipped, is_clone, had_updates)) + " "@ + repo_name@)
                    .is_prefix_of(b.log_lines@.last()@)
                &&& b.scroll_offset == b.log_lines@.len() - 1
            },
        _ => true,
    }
}

/// Applies a message from background work, handled at clock reading `clock`.
pub fn handle_backend_message(app: &mut App, msg: BackendMessage, clock: &Clock) -> (actions: Vec<AppAction>)
    requires
        message_fits(*old(app), msg),
    ensures
        backend_step(*old(app), msg, *clock, actions@, *final(app)),
        crate::tui::handler::app_wf(*old(app)) ==> crate::tui::handler::app_wf(*final(app)),
        progress_log_kept(*old(app), msg, *final(app)),
{
    let mut actions: Vec<AppAction> = Vec::new();
    match msg {
        BackendMessage::OrgsDiscovered(n) => on_orgs_discovered(app, n),
        BackendMessage::OrgStarted(name) => on_org_started(app, name),
        BackendMessage::OrgComplete(name, n) => on_org_complete(app, name, n),
        BackendMessage::DiscoveryComplete(repos) => on_discovery_complete(app, repos),
        BackendMessage::DiscoveryError(e) => on_operation_error(app, e),
        BackendMessage::SetupOrgsDiscovered(orgs) => on_setup_orgs(app, Ok(orgs)),
        BackendMessage::SetupOrgsError(e) => on_setup_orgs(app, Err(e)),
        BackendMessage::OperationStarted { operation, total, to_clone, to_sync } =>
            on_operation_started(app, operation, total, to_clone, to_sync, clock.now_ms),
        BackendMessage::RepoStarted { repo_name } => on_repo_started(app, repo_name),
        BackendMessage::RepoProgress {
            repo_name,
            success,
            skipped,
            message,
            had_updates,
            is_clone,
            new_commits,
            skip_reason: _,
        } => {
            let ghost a0 = *app;
            let ghost rn = repo_name;
            let ghost msg0 = message;
            on_repo_progress(app, repo_name, success, skipped, message, had_updates, is_clone, new_commits);
            proof {
                if a0.log_lines@.len() <= MAX_LOG_LINES {
                    crate::tui::laws::lemma_progress_log(
                        a0, rn, success, skipped, msg0, had_updates, is_clone, new_commits, *app,
                    );
                }
            }
        },
        BackendMessage::RepoCommitLog { repo_name, commits } => on_repo_commit_log(app, repo_name, commits),
        BackendMessage::OperationComplete(summary) => {
            actions = on_operation_complete(app, summary, clock);
        },
        BackendMessage::OperationError(e) => on_operation_error(app, e),
        BackendMessage::StatusResults(entries) => on_status_results(app, entries, clock.now_ms),
        BackendMessage::SetupCheckResults(entries) => on_setup_check_results(app, entries),
        BackendMessage::InitConfigCreated(path) => on_init_config_created(app, path),
        BackendMessage::InitConfigError(e) => on_error_message(app, e),
        BackendMessage::DefaultWorkspaceUpdated(name) => on_default_workspace_updated(app, name),
        BackendMessage::DefaultWorkspaceError(e) => on_error_message(app, e),
        BackendMessage::CheckResults(entries) => on_check_results(app, entries),
    }
    actions
}

} // verus!
