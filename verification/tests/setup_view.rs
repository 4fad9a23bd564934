use git_same::setup::state::{AuthStatus, OrgEntry, SetupState, SetupStep};
use git_same::setup::view::{
    bar_fill, center_cell, connector_cell, org_summary, provider_description, status_left, status_right, status_top,
};
use git_same::types::ProviderKind;

#[test]
fn center_cell_matches_width() {
    let out = center_cell("Auth", 10);
    assert_eq!(out.chars().count(), 10);
    assert!(out.contains("Auth"));
}

#[test]
fn connector_cell_matches_width() {
    assert_eq!(connector_cell(7, true).chars().count(), 7);
    assert_eq!(connector_cell(7, false).chars().count(), 7);
}

#[test]
fn provider_description_matches_expected_labels() {
    assert!(provider_description(ProviderKind::GitHub).contains("github.com"));
    assert!(provider_description(ProviderKind::GitHubEnterprise).contains("Self-hosted"));
    assert!(provider_description(ProviderKind::GitLab).contains("gitlab.com"));
    assert!(provider_description(ProviderKind::Bitbucket).contains("bitbucket.org"));
}

#[test]
fn center_cell_centres_text_exactly() {
    assert_eq!(center_cell("ab", 6), "  ab  ");
    assert_eq!(center_cell("abc", 6), " abc  ");
}

#[test]
fn center_cell_narrower_than_text_keeps_width() {
    assert_eq!(center_cell("Authenticate", 4).chars().count(), 4);
}

#[test]
fn status_bar_follows_the_step() {
    let mut state = SetupState::new("~/Git-Same/GitHub");
    state.step = SetupStep::Authenticate;
    state.auth_status = AuthStatus::Checking;
    assert_eq!(status_top(&state), vec![("", "Authenticating...")]);
    state.auth_status = AuthStatus::Success;
    assert_eq!(status_top(&state), vec![("[Enter]", " Continue")]);

    state.step = SetupStep::SelectOrgs;
    state.org_loading = true;
    assert_eq!(status_top(&state), vec![("", "Discovering organizations...")]);
    state.org_loading = false;
    assert_eq!(status_top(&state).len(), 3);

    state.step = SetupStep::SelectPath;
    state.path_browse_mode = true;
    assert_eq!(status_top(&state), vec![("", "Folder popup active")]);
    assert_eq!(status_left(&state), vec![("[Esc]", " Close Popup")]);
    assert_eq!(status_right(&state), vec![("", "Use popup arrows and Enter")]);
    state.path_browse_mode = false;
    assert_eq!(status_left(&state), vec![("[q]", " Quit  "), ("[Esc]", " Back")]);
    assert_eq!(status_right(&state)[2], ("[b]", " Browse folders"));
}

#[test]
fn org_figures_and_bars() {
    let orgs = vec![
        OrgEntry { name: "a".to_string(), repo_count: 10, selected: true },
        OrgEntry { name: "b".to_string(), repo_count: 0, selected: false },
        OrgEntry { name: "c".to_string(), repo_count: 3, selected: true },
    ];
    let s = org_summary(&orgs);
    assert_eq!((s.selected, s.selected_repos, s.total_repos, s.max_repos), (2, 13, 13, 10));
    assert_eq!(bar_fill(10, 10), 16);
    assert_eq!(bar_fill(3, 10), 4);
    assert_eq!(bar_fill(0, 10), 0);
    assert_eq!(bar_fill(1, 100), 1);
    assert_eq!(bar_fill(0, 0), 0);
}
