use git_same::types::{ActionPlan, OpResult, OpSummary, Org, OwnedRepo, Repo};

#[test]
fn test_org_creation() {
    let org = Org::new("rust-lang", 1234);
    assert_eq!(org.login, "rust-lang");
    assert_eq!(org.id, 1234);
    assert!(org.description.is_none());
}

#[test]
fn test_repo_owner_extraction() {
    let repo = Repo::test("gisa", "user");
    assert_eq!(repo.owner(), "user");
}

#[test]
fn test_owned_repo() {
    let repo = Repo::test("gisa", "my-org");
    let owned = OwnedRepo::new("my-org", repo);
    assert_eq!(owned.owner, "my-org");
    assert_eq!(owned.name(), "gisa");
    assert_eq!(owned.full_name(), "my-org/gisa");
}

#[test]
fn test_action_plan_empty() {
    let plan = ActionPlan::new();
    assert!(plan.is_empty());
    assert_eq!(plan.total(), 0);
}

#[test]
fn test_action_plan_add_repos() {
    let mut plan = ActionPlan::new();

    let repo1 = OwnedRepo::new("org", Repo::test("repo1", "org"));
    let repo2 = OwnedRepo::new("org", Repo::test("repo2", "org"));
    let repo3 = OwnedRepo::new("org", Repo::test("repo3", "org"));

    plan.add_clone(repo1);
    plan.add_sync(repo2);
    plan.add_skipped(repo3, "already up to date");

    assert!(!plan.is_empty());
    assert_eq!(plan.to_clone.len(), 1);
    assert_eq!(plan.to_sync.len(), 1);
    assert_eq!(plan.skipped.len(), 1);
    assert_eq!(plan.total(), 3);
}

#[test]
fn test_op_result_methods() {
    let success = OpResult::Success;
    assert!(success.is_success());
    assert!(!success.is_failed());
    assert!(!success.is_skipped());
    assert!(success.error_message().is_none());

    let failed = OpResult::Failed("network error".to_string());
    assert!(!failed.is_success());
    assert!(failed.is_failed());
    assert_eq!(failed.error_message(), Some("network error"));

    let skipped = OpResult::Skipped("already exists".to_string());
    assert!(!skipped.is_success());
    assert!(skipped.is_skipped());
    assert_eq!(skipped.skip_reason(), Some("already exists"));
}

#[test]
fn test_op_summary() {
    let mut summary = OpSummary::new();
    assert_eq!(summary.total(), 0);
    assert!(!summary.has_failures());

    summary.record(&OpResult::Success);
    summary.record(&OpResult::Success);
    summary.record(&OpResult::Failed("error".to_string()));
    summary.record(&OpResult::Skipped("reason".to_string()));

    assert_eq!(summary.success, 2);
    assert_eq!(summary.failed, 1);
    assert_eq!(summary.skipped, 1);
    assert_eq!(summary.total(), 4);
    assert!(summary.has_failures());
}

#[test]
fn repo_without_slash_is_its_own_owner() {
    let mut repo = Repo::test("x", "y");
    repo.full_name = "standalone".to_string();
    assert_eq!(repo.owner(), "standalone");
}

#[test]
fn test_repo_urls() {
    let repo = Repo::test("gisa", "user");
    assert_eq!(repo.full_name, "user/gisa");
    assert_eq!(repo.ssh_url, "git@github.com:user/gisa.git");
    assert_eq!(repo.clone_url, "https://github.com/user/gisa.git");
    assert_eq!(repo.default_branch, "main");
}

#[test]
fn summary_counts_every_result_once() {
    let results = vec![
        OpResult::Skipped("a".to_string()),
        OpResult::Success,
        OpResult::Failed("b".to_string()),
        OpResult::Skipped("c".to_string()),
        OpResult::Success,
    ];
    let mut summary = OpSummary::new();
    for r in &results {
        summary.record(r);
    }
    assert_eq!(summary.total(), results.len());
    assert_eq!(summary.success, 2);
    assert_eq!(summary.failed, 1);
    assert_eq!(summary.skipped, 2);
}

#[test]
fn op_summary_default_is_empty() {
    let summary = OpSummary::default();
    assert_eq!(summary.total(), 0);
    assert!(!summary.has_failures());
}

#[test]
fn has_failures_stays_true_after_more_results() {
    let mut summary = OpSummary::new();
    summary.record(&OpResult::Failed("boom".to_string()));
    assert!(summary.has_failures());
    summary.record(&OpResult::Success);
    summary.record(&OpResult::Skipped("later".to_string()));
    assert!(summary.has_failures());
}
