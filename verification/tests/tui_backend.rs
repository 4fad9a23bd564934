use git_same::tui::app::Operation;
use git_same::tui::backend::{
    clone_complete, combine_summaries, discovery_message, fetch_complete, no_workspace_message, pull_complete,
    repo_failed, repo_skipped, repo_started, sync_started, DiscoveryEvent,
};
use git_same::tui::event::BackendMessage;
use git_same::types::{OpSummary, OwnedRepo, Repo};

fn sample_repo() -> OwnedRepo {
    OwnedRepo::new("acme", Repo::test("rocket", "acme"))
}

#[test]
fn clone_progress_emits_started_complete_error_and_skip() {
    let repo = sample_repo();

    match repo_started(&repo) {
        BackendMessage::RepoStarted { repo_name } => assert_eq!(repo_name, repo.full_name()),
        _ => panic!("expected RepoStarted"),
    }

    match clone_complete(&repo) {
        BackendMessage::RepoProgress { repo_name, success, skipped, is_clone, had_updates, skip_reason, .. } => {
            assert_eq!(repo_name, repo.full_name());
            assert!(success);
            assert!(!skipped);
            assert!(is_clone);
            assert!(had_updates);
            assert!(skip_reason.is_none());
        }
        _ => panic!("expected RepoProgress (complete)"),
    }

    match repo_failed(&repo, "clone failed", true) {
        BackendMessage::RepoProgress { success, skipped, message, is_clone, .. } => {
            assert!(!success);
            assert!(!skipped);
            assert_eq!(message, "clone failed");
            assert!(is_clone);
        }
        _ => panic!("expected RepoProgress (error)"),
    }

    match repo_skipped(&repo, "already exists", true) {
        BackendMessage::RepoProgress { success, skipped, message, is_clone, skip_reason, .. } => {
            assert!(success);
            assert!(skipped);
            assert_eq!(message, "skipped: already exists");
            assert!(is_clone);
            assert_eq!(skip_reason.as_deref(), Some("already exists"));
        }
        _ => panic!("expected RepoProgress (skip)"),
    }
}

#[test]
fn sync_progress_emits_fetch_pull_error_and_skip() {
    let repo = sample_repo();
    match fetch_complete(&repo, true, Some(3)) {
        BackendMessage::RepoProgress { message, had_updates, new_commits, is_clone, .. } => {
            assert_eq!(message, "updated");
            assert!(had_updates);
            assert_eq!(new_commits, Some(3));
            assert!(!is_clone);
        }
        _ => panic!("expected fetch progress"),
    }
    match fetch_complete(&repo, false, None) {
        BackendMessage::RepoProgress { message, had_updates, .. } => {
            assert_eq!(message, "up to date");
            assert!(!had_updates);
        }
        _ => panic!("expected fetch progress"),
    }
    match pull_complete(&repo, true, true) {
        BackendMessage::RepoProgress { message, success, had_updates, .. } => {
            assert_eq!(message, "fast-forward");
            assert!(success);
            assert!(had_updates);
        }
        _ => panic!("expected pull progress"),
    }
    match pull_complete(&repo, false, false) {
        BackendMessage::RepoProgress { message, success, had_updates, .. } => {
            assert_eq!(message, "pulled");
            assert!(!success);
            assert!(!had_updates);
        }
        _ => panic!("expected pull progress"),
    }
    match repo_failed(&repo, "fetch failed", false) {
        BackendMessage::RepoProgress { message, is_clone, .. } => {
            assert_eq!(message, "fetch failed");
            assert!(!is_clone);
        }
        _ => panic!("expected error progress"),
    }
    match repo_skipped(&repo, "uncommitted changes", false) {
        BackendMessage::RepoProgress { message, is_clone, .. } => {
            assert_eq!(message, "skipped: uncommitted changes");
            assert!(!is_clone);
        }
        _ => panic!("expected skip progress"),
    }
}

#[test]
fn spawn_operation_sync_without_workspace_emits_operation_error() {
    match no_workspace_message(Operation::Sync) {
        BackendMessage::OperationError(m) => {
            assert_eq!(m, "No workspace selected. Run 'gisa setup' to configure one.")
        }
        _ => panic!("expected OperationError"),
    }
}

#[test]
fn spawn_operation_status_without_workspace_emits_operation_error() {
    match no_workspace_message(Operation::Status) {
        BackendMessage::OperationError(m) => assert_eq!(m, "No workspace selected."),
        _ => panic!("expected OperationError"),
    }
}

#[test]
fn sync_start_totals_both_phases() {
    match sync_started(2, 5) {
        BackendMessage::OperationStarted { operation, total, to_clone, to_sync } => {
            assert_eq!(operation, Operation::Sync);
            assert_eq!(total, 7);
            assert_eq!(to_clone, 2);
            assert_eq!(to_sync, 5);
        }
        _ => panic!("expected OperationStarted"),
    }
}

#[test]
fn summaries_of_both_phases_add_up() {
    let clone = OpSummary { success: 2, failed: 1, skipped: 0 };
    let sync = OpSummary { success: 5, failed: 0, skipped: 3 };
    let total = combine_summaries(Some(clone), Some(sync));
    assert_eq!((total.success, total.failed, total.skipped), (7, 1, 3));
    let only_sync = combine_summaries(None, Some(OpSummary { success: 1, failed: 0, skipped: 0 }));
    assert_eq!((only_sync.success, only_sync.failed, only_sync.skipped), (1, 0, 0));
}

#[test]
fn discovery_progress_emits_expected_messages() {
    match discovery_message(DiscoveryEvent::OrgsDiscovered(2)).expect("org count event") {
        BackendMessage::OrgsDiscovered(count) => assert_eq!(count, 2),
        _ => panic!("expected OrgsDiscovered"),
    }

    match discovery_message(DiscoveryEvent::OrgStarted("acme".to_string())).expect("org started event") {
        BackendMessage::OrgStarted(org) => assert_eq!(org, "acme"),
        _ => panic!("expected OrgStarted"),
    }

    match discovery_message(DiscoveryEvent::OrgComplete("acme".to_string(), 3)).expect("org complete event") {
        BackendMessage::OrgComplete(org, count) => {
            assert_eq!(org, "acme");
            assert_eq!(count, 3);
        }
        _ => panic!("expected OrgComplete"),
    }

    match discovery_message(DiscoveryEvent::Error("boom".to_string())).expect("error event") {
        BackendMessage::DiscoveryError(msg) => assert_eq!(msg, "boom"),
        _ => panic!("expected DiscoveryError"),
    }

    assert!(discovery_message(DiscoveryEvent::PersonalReposStarted).is_none());
    assert!(discovery_message(DiscoveryEvent::PersonalReposComplete(1)).is_none());
}
