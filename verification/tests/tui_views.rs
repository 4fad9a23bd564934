use git_same::config::{Config, WorkspaceConfig};
use git_same::tui::app::{App, FinishState, Operation, OperationState, RunState};
use git_same::tui::dashboard::dashboard_stats;
use git_same::tui::progress_view::{counters, short_repo_name, visible_window};
use git_same::types::{OpSummary, OwnedRepo, Repo, RepoEntry};

fn run_state() -> RunState {
    RunState {
        operation: Operation::Sync,
        total: 10,
        completed: 7,
        failed: 1,
        skipped: 0,
        current_repo: "acme/x".to_string(),
        with_updates: 2,
        cloned: 1,
        synced: 5,
        to_clone: 1,
        to_sync: 9,
        total_new_commits: 3,
        started_at_ms: 0,
        active_repos: vec![],
        throughput_samples: vec![],
        last_sample_completed: 0,
    }
}

#[test]
fn running_counters_skip_zero_failures_and_skips() {
    let c = counters(&OperationState::Running(run_state()));
    assert_eq!(c, vec![("Updated", 2), ("Current", 3), ("Cloned", 1), ("Failed", 1)]);
}

#[test]
fn finished_counters_show_all_five() {
    let f = FinishState {
        operation: Operation::Sync,
        summary: OpSummary { success: 8, failed: 1, skipped: 2 },
        with_updates: 3,
        cloned: 1,
        synced: 7,
        total_new_commits: 9,
        duration_ms: 0,
    };
    let c = counters(&OperationState::Finished(f));
    assert_eq!(c, vec![("Updated", 3), ("Current", 4), ("Cloned", 1), ("Failed", 1), ("Skipped", 2)]);
    assert!(counters(&OperationState::Idle).is_empty());
}

#[test]
fn visible_window_follows_scroll_within_bounds() {
    assert_eq!(visible_window(100, 0, 10), (0, 10));
    assert_eq!(visible_window(100, 95, 10), (90, 100));
    assert_eq!(visible_window(5, 3, 10), (0, 5));
    assert_eq!(visible_window(0, 0, 10), (0, 0));
}

#[test]
fn short_names_drop_the_owner() {
    assert_eq!(short_repo_name("acme/rocket"), "rocket");
    assert_eq!(short_repo_name("a/b/c"), "c");
    assert_eq!(short_repo_name("plain"), "plain");
}

fn entry(owner: &str, uncommitted: bool, ahead: usize, behind: usize) -> RepoEntry {
    RepoEntry {
        owner: owner.to_string(),
        name: "r".to_string(),
        full_name: format!("{}/r", owner),
        path: format!("/tmp/{}/r", owner),
        branch: None,
        is_uncommitted: uncommitted,
        ahead,
        behind,
        staged_count: 0,
        unstaged_count: 0,
        untracked_count: 0,
    }
}

#[test]
fn dashboard_figures() {
    let ws = WorkspaceConfig::new("w", "/tmp/w");
    let mut app = App::new(Config::default(), vec![ws], "~/x");
    app.local_repos = vec![entry("a", false, 0, 0), entry("a", true, 0, 1), entry("b", false, 2, 0)];
    app.all_repos = vec![
        OwnedRepo::new("a", Repo::test("r1", "a")),
        OwnedRepo::new("b", Repo::test("r2", "b")),
        OwnedRepo::new("c", Repo::test("r3", "c")),
        OwnedRepo::new("c", Repo::test("r4", "c")),
    ];
    let s = dashboard_stats(&app);
    assert_eq!(s.completed_owners, 2);
    assert_eq!(s.total_owners, 3);
    assert_eq!(s.total_repos, 4);
    assert_eq!(s.clean, 1);
    assert_eq!(s.behind, 1);
    assert_eq!(s.ahead, 1);
    assert_eq!(s.uncommitted, 1);
}
