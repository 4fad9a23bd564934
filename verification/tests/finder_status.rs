use git_same::types::finder_status::{
    compute_badge, matches_important_pattern, simple_glob_match, Badge, FinderStatus,
    DEFAULT_IMPORTANT_IGNORED_PATTERNS, FINDER_STATUS_VERSION,
};

#[test]
fn test_compute_badge_green() {
    let badge = compute_badge(0, 0, 0, 0, true, true, false);
    assert_eq!(badge, Badge::Green);
}

#[test]
fn test_compute_badge_red_staged() {
    let badge = compute_badge(1, 0, 0, 0, true, true, false);
    assert_eq!(badge, Badge::Red);
}

#[test]
fn test_compute_badge_red_unstaged() {
    let badge = compute_badge(0, 2, 0, 0, true, true, false);
    assert_eq!(badge, Badge::Red);
}

#[test]
fn test_compute_badge_red_untracked() {
    let badge = compute_badge(0, 0, 3, 0, true, true, false);
    assert_eq!(badge, Badge::Red);
}

#[test]
fn test_compute_badge_red_ahead() {
    let badge = compute_badge(0, 0, 0, 1, true, true, false);
    assert_eq!(badge, Badge::Red);
}

#[test]
fn test_compute_badge_orange_branches_not_synced() {
    let badge = compute_badge(0, 0, 0, 0, false, true, false);
    assert_eq!(badge, Badge::Orange);
}

#[test]
fn test_compute_badge_orange_worktrees_not_synced() {
    let badge = compute_badge(0, 0, 0, 0, true, false, false);
    assert_eq!(badge, Badge::Orange);
}

#[test]
fn test_compute_badge_blue_important_ignored() {
    let badge = compute_badge(0, 0, 0, 0, true, true, true);
    assert_eq!(badge, Badge::Blue);
}

#[test]
fn test_compute_badge_priority_red_over_orange() {
    // Even if branches not synced, staged files = Red
    let badge = compute_badge(1, 0, 0, 0, false, false, false);
    assert_eq!(badge, Badge::Red);
}

#[test]
fn test_compute_badge_priority_orange_over_blue() {
    // Branches not synced + important ignored = Orange (not Blue)
    let badge = compute_badge(0, 0, 0, 0, false, true, true);
    assert_eq!(badge, Badge::Orange);
}

#[test]
fn test_matches_important_pattern_env() {
    let patterns = &DEFAULT_IMPORTANT_IGNORED_PATTERNS;
    assert!(matches_important_pattern(".env", patterns));
    assert!(matches_important_pattern(".env.local", patterns));
    assert!(matches_important_pattern(".env.production", patterns));
    assert!(matches_important_pattern("subdir/.env", patterns));
}

#[test]
fn test_matches_important_pattern_keys() {
    let patterns = &DEFAULT_IMPORTANT_IGNORED_PATTERNS;
    assert!(matches_important_pattern("server.key", patterns));
    assert!(matches_important_pattern("cert.pem", patterns));
    assert!(matches_important_pattern("signing.p12", patterns));
}

#[test]
fn test_matches_important_pattern_credentials() {
    let patterns = &DEFAULT_IMPORTANT_IGNORED_PATTERNS;
    assert!(matches_important_pattern("credentials.json", patterns));
    assert!(matches_important_pattern("secrets.yaml", patterns));
    assert!(matches_important_pattern("service-account-prod.json", patterns));
}

#[test]
fn test_matches_important_pattern_no_match() {
    let patterns = &DEFAULT_IMPORTANT_IGNORED_PATTERNS;
    assert!(!matches_important_pattern("main.rs", patterns));
    assert!(!matches_important_pattern("node_modules/lodash/index.js", patterns));
    assert!(!matches_important_pattern("target/debug/git-same", patterns));
    assert!(!matches_important_pattern("README.md", patterns));
}

#[test]
fn test_glob_match_exact() {
    assert!(simple_glob_match(".env", ".env"));
    assert!(!simple_glob_match(".env", ".envx"));
}

#[test]
fn test_glob_match_star() {
    assert!(simple_glob_match("*.key", "server.key"));
    assert!(simple_glob_match("*.key", ".key"));
    assert!(!simple_glob_match("*.key", "server.pem"));
}

#[test]
fn test_glob_match_dot_star() {
    assert!(simple_glob_match(".env.*", ".env.local"));
    assert!(simple_glob_match(".env.*", ".env.production"));
    assert!(!simple_glob_match(".env.*", ".env"));
}

#[test]
fn test_glob_match_question_mark() {
    assert!(simple_glob_match("?.key", "a.key"));
    assert!(!simple_glob_match("?.key", "ab.key"));
}

#[test]
fn glob_star_matches_empty_and_everything() {
    assert!(simple_glob_match("*", ""));
    assert!(simple_glob_match("*", "anything/at/all"));
    assert!(simple_glob_match("a*b*c", "aXXbYYc"));
    assert!(!simple_glob_match("a*b*c", "aXXbYY"));
}

#[test]
fn finder_status_starts_empty_with_current_version() {
    let status = FinderStatus::new(42, "2024-01-01T00:00:00Z");
    assert_eq!(status.version, FINDER_STATUS_VERSION);
    assert_eq!(status.daemon_pid, 42);
    assert_eq!(status.timestamp, "2024-01-01T00:00:00Z");
    assert!(status.repos.is_empty());
    assert!(status.workspaces.is_empty());
}
