use git_same::config::{Config, WorkspaceConfig};
use git_same::tui::app::{App, LogFilter, Operation, OperationState, SyncLogStatus};
use git_same::tui::event::BackendMessage;
use git_same::tui::messages::{handle_backend_message, AppAction, Clock, MAX_LOG_LINES, MAX_SYNC_HISTORY};
use git_same::types::{OpSummary, OwnedRepo, Repo, RepoEntry};

fn app_with_workspace() -> App {
    let ws = WorkspaceConfig::new("test-ws", "/tmp/test-ws");
    App::new(Config::default(), vec![ws], "~/Git-Same/GitHub")
}

fn clock(ms: u64) -> Clock {
    Clock { now_ms: ms, now_rfc3339: "2024-05-01T12:00:00+00:00".to_string() }
}

fn progress(name: &str, success: bool, skipped: bool, had_updates: bool, is_clone: bool, n: Option<u32>) -> BackendMessage {
    BackendMessage::RepoProgress {
        repo_name: name.to_string(),
        success,
        skipped,
        message: "done".to_string(),
        had_updates,
        is_clone,
        new_commits: n,
        skip_reason: None,
    }
}

fn start_sync(app: &mut App, at: u64) {
    handle_backend_message(
        app,
        BackendMessage::OperationStarted { operation: Operation::Sync, total: 4, to_clone: 1, to_sync: 3 },
        &clock(at),
    );
}

#[test]
fn discovery_messages_update_state_and_log() {
    let mut app = app_with_workspace();
    handle_backend_message(&mut app, BackendMessage::OrgsDiscovered(3), &clock(0));
    match &app.operation_state {
        OperationState::Discovering { operation, message } => {
            assert_eq!(*operation, Operation::Sync);
            assert_eq!(message, "Found 3 organizations");
        }
        _ => panic!("expected discovering"),
    }
    handle_backend_message(&mut app, BackendMessage::OrgStarted("acme".to_string()), &clock(0));
    match &app.operation_state {
        OperationState::Discovering { message, .. } => assert_eq!(message, "Discovering: acme"),
        _ => panic!("expected discovering"),
    }
    handle_backend_message(&mut app, BackendMessage::OrgComplete("acme".to_string(), 12), &clock(0));
    assert_eq!(app.log_lines, vec!["[ok] acme (12 repos)".to_string()]);
}

#[test]
fn discovery_complete_groups_repos_by_sorted_owner() {
    let mut app = app_with_workspace();
    let repos = vec![
        OwnedRepo::new("zeta", Repo::test("one", "zeta")),
        OwnedRepo::new("acme", Repo::test("two", "acme")),
        OwnedRepo::new("zeta", Repo::test("three", "zeta")),
    ];
    handle_backend_message(&mut app, BackendMessage::DiscoveryComplete(repos), &clock(0));
    assert_eq!(app.orgs, vec!["acme".to_string(), "zeta".to_string()]);
    assert_eq!(app.all_repos.len(), 3);
    assert_eq!(app.repos_by_org.len(), 2);
    assert_eq!(app.repos_by_org[0].0, "acme");
    assert_eq!(app.repos_by_org[0].1.len(), 1);
    assert_eq!(app.repos_by_org[1].0, "zeta");
    let names: Vec<&str> = app.repos_by_org[1].1.iter().map(|r| r.name()).collect();
    assert_eq!(names, vec!["one", "three"]);
}

#[test]
fn errors_return_to_idle_and_show_message() {
    let mut app = app_with_workspace();
    start_sync(&mut app, 0);
    handle_backend_message(&mut app, BackendMessage::OperationError("boom".to_string()), &clock(0));
    assert!(matches!(app.operation_state, OperationState::Idle));
    assert_eq!(app.error_message.as_deref(), Some("boom"));
    handle_backend_message(&mut app, BackendMessage::DiscoveryError("lost".to_string()), &clock(0));
    assert_eq!(app.error_message.as_deref(), Some("lost"));
}

#[test]
fn progress_counts_and_logs_each_kind() {
    let mut app = app_with_workspace();
    start_sync(&mut app, 0);
    handle_backend_message(&mut app, BackendMessage::RepoStarted { repo_name: "acme/a".to_string() }, &clock(0));
    handle_backend_message(&mut app, BackendMessage::RepoStarted { repo_name: "acme/b".to_string() }, &clock(0));
    handle_backend_message(&mut app, progress("acme/a", true, false, true, false, Some(4)), &clock(0));
    handle_backend_message(&mut app, progress("acme/b", true, false, true, true, None), &clock(0));
    handle_backend_message(&mut app, progress("acme/c", false, false, false, false, None), &clock(0));
    handle_backend_message(&mut app, progress("acme/d", true, true, false, false, None), &clock(0));
    match &app.operation_state {
        OperationState::Running(r) => {
            assert_eq!(r.completed, 4);
            assert_eq!(r.synced, 1);
            assert_eq!(r.cloned, 1);
            assert_eq!(r.failed, 1);
            assert_eq!(r.skipped, 1);
            assert_eq!(r.with_updates, 2);
            assert_eq!(r.total_new_commits, 4);
            assert!(r.active_repos.is_empty());
            assert_eq!(r.current_repo, "acme/d");
        }
        _ => panic!("expected running"),
    }
    assert_eq!(
        app.log_lines,
        vec![
            "[**] acme/a - done (4 new commits)".to_string(),
            "[++] acme/b - done".to_string(),
            "[!!] acme/c - done".to_string(),
            "[--] acme/d - done".to_string(),
        ]
    );
    assert_eq!(app.scroll_offset, 3);
    let statuses: Vec<SyncLogStatus> = app.sync_log_entries.iter().map(|e| e.status).collect();
    assert_eq!(
        statuses,
        vec![SyncLogStatus::Updated, SyncLogStatus::Cloned, SyncLogStatus::Failed, SyncLogStatus::Skipped]
    );
    assert_eq!(app.sync_log_entries[0].path.as_deref(), Some("/tmp/test-ws/acme/a"));
}

#[test]
fn log_keeps_at_most_the_limit() {
    let mut app = app_with_workspace();
    app.log_lines = (0..MAX_LOG_LINES).map(|i| format!("line {}", i)).collect();
    handle_backend_message(&mut app, progress("acme/a", true, false, false, false, None), &clock(0));
    assert_eq!(app.log_lines.len(), MAX_LOG_LINES);
    assert_eq!(app.log_lines[0], "line 1");
    assert_eq!(app.log_lines[MAX_LOG_LINES - 1], "[ok] acme/a - done");
    assert_eq!(app.scroll_offset, MAX_LOG_LINES - 1);
}

#[test]
fn sync_complete_records_history_and_marks_workspace() {
    let mut app = app_with_workspace();
    start_sync(&mut app, 1_000);
    handle_backend_message(&mut app, progress("acme/a", true, false, true, false, Some(2)), &clock(1_500));
    let acts = handle_backend_message(
        &mut app,
        BackendMessage::OperationComplete(OpSummary { success: 1, failed: 0, skipped: 0 }),
        &clock(4_000),
    );
    match &app.operation_state {
        OperationState::Finished(f) => {
            assert_eq!(f.operation, Operation::Sync);
            assert_eq!(f.with_updates, 1);
            assert_eq!(f.synced, 1);
            assert_eq!(f.total_new_commits, 2);
            assert_eq!(f.duration_ms, 3_000);
        }
        _ => panic!("expected finished"),
    }
    assert_eq!(app.log_filter, LogFilter::Updated);
    assert_eq!(app.sync_history.len(), 1);
    assert_eq!(app.sync_history[0].timestamp, "2024-05-01T12:00:00+00:00");
    assert_eq!(app.sync_history[0].duration_ms, 3_000);
    let synced = Some("2024-05-01T12:00:00+00:00");
    assert_eq!(app.active_workspace.as_ref().unwrap().last_synced.as_deref(), synced);
    assert_eq!(app.workspaces[0].last_synced.as_deref(), synced);
    assert_eq!(acts.len(), 3);
    assert!(matches!(&acts[0], AppAction::SaveWorkspace(w) if w.last_synced.as_deref() == synced));
    assert!(matches!(&acts[1], AppAction::SaveSyncHistory(n) if n == "test-ws"));
    assert!(matches!(acts[2], AppAction::SpawnOperation(Operation::Status)));
}

#[test]
fn history_keeps_the_latest_entries() {
    let mut app = app_with_workspace();
    for i in 0..(MAX_SYNC_HISTORY + 5) {
        start_sync(&mut app, 0);
        handle_backend_message(
            &mut app,
            BackendMessage::OperationComplete(OpSummary { success: i, failed: 0, skipped: 0 }),
            &clock(0),
        );
    }
    assert_eq!(app.sync_history.len(), MAX_SYNC_HISTORY);
    assert_eq!(app.sync_history[0].success, 5);
    assert_eq!(app.sync_history[MAX_SYNC_HISTORY - 1].success, MAX_SYNC_HISTORY + 4);
}

#[test]
fn status_results_finish_status_scan() {
    let mut app = app_with_workspace();
    app.status_loading = true;
    handle_backend_message(
        &mut app,
        BackendMessage::OperationStarted { operation: Operation::Status, total: 0, to_clone: 0, to_sync: 0 },
        &clock(0),
    );
    let entry = RepoEntry {
        owner: "acme".to_string(),
        name: "rocket".to_string(),
        full_name: "acme/rocket".to_string(),
        path: "/tmp/acme/rocket".to_string(),
        branch: Some("main".to_string()),
        is_uncommitted: false,
        ahead: 0,
        behind: 0,
        staged_count: 0,
        unstaged_count: 0,
        untracked_count: 0,
    };
    handle_backend_message(&mut app, BackendMessage::StatusResults(vec![entry]), &clock(777));
    assert!(matches!(app.operation_state, OperationState::Idle));
    assert!(!app.status_loading);
    assert_eq!(app.last_status_scan, Some(777));
    assert_eq!(app.local_repos.len(), 1);
}

#[test]
fn commit_logs_fill_expanded_repo_and_changelog() {
    let mut app = app_with_workspace();
    app.expanded_repo = Some("acme/a".to_string());
    app.log_filter = LogFilter::Changelog;
    handle_backend_message(
        &mut app,
        BackendMessage::RepoCommitLog { repo_name: "acme/a".to_string(), commits: vec!["c1".to_string()] },
        &clock(0),
    );
    assert_eq!(app.repo_commits, vec!["c1".to_string()]);
    assert_eq!(app.changelog_loaded, 1);
    handle_backend_message(
        &mut app,
        BackendMessage::RepoCommitLog { repo_name: "acme/a".to_string(), commits: vec!["c2".to_string()] },
        &clock(0),
    );
    assert_eq!(app.changelog_commits.len(), 1);
    assert_eq!(app.changelog_commits[0].1, vec!["c2".to_string()]);
    assert_eq!(app.changelog_loaded, 2);
}

#[test]
fn config_and_default_workspace_messages() {
    let mut app = app_with_workspace();
    handle_backend_message(&mut app, BackendMessage::InitConfigCreated("/cfg".to_string()), &clock(0));
    assert!(app.config_created);
    assert_eq!(app.config_path_display.as_deref(), Some("/cfg"));
    handle_backend_message(&mut app, BackendMessage::DefaultWorkspaceUpdated(Some("ws".to_string())), &clock(0));
    assert_eq!(app.config.default_workspace.as_deref(), Some("ws"));
    handle_backend_message(&mut app, BackendMessage::DefaultWorkspaceError("nope".to_string()), &clock(0));
    assert_eq!(app.error_message.as_deref(), Some("nope"));
}

#[test]
fn repo_folder_follows_the_workspace_layout() {
    let mut ws = WorkspaceConfig::new("test-ws", "/tmp/test-ws");
    ws.structure = Some("{provider}/{org}/{repo}".to_string());
    let mut app = App::new(Config::default(), vec![ws], "~/Git-Same/GitHub");
    handle_backend_message(&mut app, progress("acme/a", true, false, true, false, None), &clock(0));
    handle_backend_message(&mut app, progress("plain", true, false, true, false, None), &clock(0));
    assert_eq!(app.sync_log_entries[0].path.as_deref(), Some("/tmp/test-ws/github/acme/a"));
    assert_eq!(app.sync_log_entries[1].path, None);
}

#[test]
fn repo_folder_uses_the_global_layout_without_a_workspace_one() {
    let mut config = Config::default();
    config.structure = "{repo}".to_string();
    let ws = WorkspaceConfig::new("test-ws", "/tmp/test-ws");
    let mut app = App::new(config, vec![ws], "~/Git-Same/GitHub");
    handle_backend_message(&mut app, progress("acme/a", true, false, true, false, None), &clock(0));
    assert_eq!(app.sync_log_entries[0].path.as_deref(), Some("/tmp/test-ws/a"));
}
