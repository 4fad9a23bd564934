use git_same::checks::CheckResult;
use git_same::input::{KeyCode, KeyInput};
use git_same::setup::handler::{apply_browse_outcome, handle_key, open_browse_listing, select_browse_path, BrowseListing, BrowseOutcome, SetupEffect};
use git_same::setup::state::{OrgEntry, PathBrowseEntry, PathSuggestion, SetupOutcome, SetupState, SetupStep};

fn key(code: KeyCode) -> KeyInput {
    KeyInput::plain(code)
}

fn passing_check() -> CheckResult {
    CheckResult {
        name: "git".to_string(),
        passed: true,
        message: "git 2.40".to_string(),
        suggestion: None,
        critical: true,
    }
}

fn two_orgs() -> Vec<OrgEntry> {
    vec![
        OrgEntry { name: "alpha".to_string(), repo_count: 5, selected: true },
        OrgEntry { name: "beta".to_string(), repo_count: 3, selected: false },
    ]
}

#[test]
fn handler_tests_q_quits_setup_wizard() {
    let mut state = SetupState::new("~/Git-Same/GitHub");
    state.step = SetupStep::SelectProvider;
    handle_key(&mut state, key(KeyCode::Char('q')));
    assert!(state.should_quit);
    assert!(matches!(state.outcome, Some(SetupOutcome::Cancelled)));
}

#[test]
fn esc_cancels_setup_from_any_step() {
    let mut state = SetupState::new("~/Git-Same/GitHub");
    state.step = SetupStep::SelectOrgs;
    state.org_loading = false;
    handle_key(&mut state, key(KeyCode::Esc));
    assert!(state.should_quit);
    assert!(matches!(state.outcome, Some(SetupOutcome::Cancelled)));
}

#[test]
fn left_moves_to_previous_step() {
    let mut state = SetupState::new("~/Git-Same/GitHub");
    state.step = SetupStep::SelectOrgs;
    state.org_loading = false;
    handle_key(&mut state, key(KeyCode::Left));
    assert_eq!(state.step, SetupStep::Authenticate);
}

#[test]
fn org_loading_ignores_non_null_keys() {
    let mut state = SetupState::new("~/Git-Same/GitHub");
    state.step = SetupStep::SelectOrgs;
    state.org_loading = true;
    state.org_error = None;
    state.auth_token = None;
    handle_key(&mut state, key(KeyCode::Down));
    assert!(state.org_loading);
    assert!(state.org_error.is_none());
}

#[test]
fn right_advances_from_provider_step() {
    let mut state = SetupState::new("~/Git-Same/GitHub");
    state.step = SetupStep::SelectProvider;
    handle_key(&mut state, key(KeyCode::Right));
    assert_eq!(state.step, SetupStep::Authenticate);
}

#[test]
fn left_in_select_path_returns_to_orgs_step() {
    let mut state = SetupState::new("~/Git-Same/GitHub");
    state.step = SetupStep::SelectPath;
    state.path_browse_mode = false;
    state.path_suggestions_mode = false;
    handle_key(&mut state, key(KeyCode::Left));
    assert_eq!(state.step, SetupStep::SelectOrgs);
    assert!(!state.path_browse_mode);
}

#[test]
fn enter_in_suggestions_mode_does_not_change_base_path() {
    let mut state = SetupState::new("~/Git-Same/GitHub");
    state.step = SetupStep::SelectPath;
    state.path_suggestions_mode = true;
    state.path_suggestions = vec![
        PathSuggestion { path: "~/Git-Same/GitHub".to_string(), label: "terminal folder".to_string() },
        PathSuggestion { path: "~/Developer".to_string(), label: "other".to_string() },
    ];
    state.path_suggestion_index = 1;
    let original = state.base_path.clone();
    handle_key(&mut state, key(KeyCode::Enter));
    assert_eq!(state.base_path, original);
    assert_eq!(state.step, SetupStep::Confirm);
}

#[test]
fn enter_while_checks_loading_does_not_advance_requirements_step() {
    let mut state = SetupState::new("~/Git-Same/GitHub");
    state.step = SetupStep::Requirements;
    state.checks_loading = true;
    state.check_results = vec![passing_check()];
    handle_key(&mut state, key(KeyCode::Enter));
    assert_eq!(state.step, SetupStep::Requirements);
}

#[test]
fn enter_when_requirements_not_passed_does_not_advance() {
    let mut state = SetupState::new("~/Git-Same/GitHub");
    state.step = SetupStep::Requirements;
    state.checks_loading = false;
    handle_key(&mut state, key(KeyCode::Enter));
    assert_eq!(state.step, SetupStep::Requirements);
}

#[test]
fn enter_when_critical_check_failed_does_not_advance() {
    let mut state = SetupState::new("~/Git-Same/GitHub");
    state.step = SetupStep::Requirements;
    state.checks_loading = false;
    state.check_results = vec![CheckResult {
        name: "git".to_string(),
        passed: false,
        message: "not found".to_string(),
        suggestion: Some("install git".to_string()),
        critical: true,
    }];
    handle_key(&mut state, key(KeyCode::Enter));
    assert_eq!(state.step, SetupStep::Requirements);
}

#[test]
fn enter_when_requirements_passed_and_not_loading_advances_step() {
    let mut state = SetupState::new("~/Git-Same/GitHub");
    state.step = SetupStep::Requirements;
    state.checks_loading = false;
    state.check_results = vec![passing_check()];
    handle_key(&mut state, key(KeyCode::Enter));
    assert_eq!(state.step, SetupStep::SelectProvider);
}

#[test]
fn up_at_first_provider_does_not_move() {
    let mut state = SetupState::new("~/Git-Same/GitHub");
    state.step = SetupStep::SelectProvider;
    state.provider_index = 0;
    handle_key(&mut state, key(KeyCode::Up));
    assert_eq!(state.provider_index, 0);
}

#[test]
fn down_at_last_provider_does_not_move() {
    let mut state = SetupState::new("~/Git-Same/GitHub");
    state.step = SetupStep::SelectProvider;
    let last = state.provider_choices.len() - 1;
    state.provider_index = last;
    handle_key(&mut state, key(KeyCode::Down));
    assert_eq!(state.provider_index, last);
}

#[test]
fn enter_on_unavailable_provider_does_not_advance() {
    let mut state = SetupState::new("~/Git-Same/GitHub");
    state.step = SetupStep::SelectProvider;
    state.provider_index = 1;
    handle_key(&mut state, key(KeyCode::Enter));
    assert_eq!(state.step, SetupStep::SelectProvider);
}

#[test]
fn enter_on_available_provider_advances_to_authenticate() {
    let mut state = SetupState::new("~/Git-Same/GitHub");
    state.step = SetupStep::SelectProvider;
    state.provider_index = 0;
    handle_key(&mut state, key(KeyCode::Enter));
    assert_eq!(state.step, SetupStep::Authenticate);
}

#[test]
fn up_at_first_org_does_not_move() {
    let mut state = SetupState::new("~/Git-Same/GitHub");
    state.step = SetupStep::SelectOrgs;
    state.org_loading = false;
    state.orgs = two_orgs();
    state.org_index = 0;
    handle_key(&mut state, key(KeyCode::Up));
    assert_eq!(state.org_index, 0);
}

#[test]
fn down_at_last_org_does_not_move() {
    let mut state = SetupState::new("~/Git-Same/GitHub");
    state.step = SetupStep::SelectOrgs;
    state.org_loading = false;
    state.orgs = two_orgs();
    state.org_index = 1;
    handle_key(&mut state, key(KeyCode::Down));
    assert_eq!(state.org_index, 1);
}

#[test]
fn space_with_empty_orgs_does_not_panic() {
    let mut state = SetupState::new("~/Git-Same/GitHub");
    state.step = SetupStep::SelectOrgs;
    state.org_loading = false;
    handle_key(&mut state, key(KeyCode::Char(' ')));
    assert!(state.orgs.is_empty());
}

#[test]
fn space_toggles_org_selection() {
    let mut state = SetupState::new("~/Git-Same/GitHub");
    state.step = SetupStep::SelectOrgs;
    state.org_loading = false;
    state.orgs = vec![OrgEntry { name: "acme".to_string(), repo_count: 10, selected: false }];
    state.org_index = 0;
    handle_key(&mut state, key(KeyCode::Char(' ')));
    assert!(state.orgs[0].selected);
    handle_key(&mut state, key(KeyCode::Char(' ')));
    assert!(!state.orgs[0].selected);
}

fn browse_state(n: usize) -> SetupState {
    let mut state = SetupState::new("/tmp/base");
    state.step = SetupStep::SelectPath;
    state.path_browse_mode = true;
    state.path_browse_current_dir = "/tmp/base".to_string();
    state.path_browse_entries = (0..n)
        .map(|i| PathBrowseEntry {
            label: format!("dir{}", i),
            path: format!("/tmp/base/dir{}", i),
            depth: 1,
            expanded: false,
            has_children: false,
        })
        .collect();
    state
}

#[test]
fn up_at_first_browse_entry_does_not_move() {
    let mut state = browse_state(2);
    state.path_browse_index = 0;
    handle_key(&mut state, key(KeyCode::Up));
    assert_eq!(state.path_browse_index, 0);
}

#[test]
fn down_at_last_browse_entry_does_not_move() {
    let mut state = browse_state(2);
    state.path_browse_index = 1;
    handle_key(&mut state, key(KeyCode::Down));
    assert_eq!(state.path_browse_index, 1);
}

#[test]
fn esc_in_popup_only_closes_popup() {
    let mut state = browse_state(2);
    handle_key(&mut state, key(KeyCode::Esc));
    assert!(!state.path_browse_mode);
    assert!(!state.should_quit);
    assert_eq!(state.step, SetupStep::SelectPath);
}

#[test]
fn confirm_enter_asks_to_save() {
    let mut state = SetupState::new("~/Git-Same/GitHub");
    state.step = SetupStep::Confirm;
    let effect = handle_key(&mut state, key(KeyCode::Enter));
    assert!(matches!(effect, SetupEffect::SaveWorkspace));
    assert_eq!(state.step, SetupStep::Confirm);
}

fn entry(parent: &str, name: &str) -> PathBrowseEntry {
    PathBrowseEntry {
        label: format!("{}/", name),
        path: format!("{}/{}", parent, name),
        depth: 1,
        expanded: false,
        has_children: false,
    }
}

fn listing(dir: &str, names: &[&str]) -> BrowseListing {
    BrowseListing {
        dir: dir.to_string(),
        entries: names.iter().map(|n| entry(dir, n)).collect(),
        error: None,
    }
}

fn path_state(base: &str) -> SetupState {
    let mut state = SetupState::new(base);
    state.step = SetupStep::SelectPath;
    state.path_suggestions_mode = false;
    state.base_path = base.to_string();
    state.path_cursor = state.base_path.len();
    state
}

#[test]
fn handler_q_quits_setup_wizard() {
    let mut state = SetupState::new("~/Git-Same/GitHub");
    handle_key(&mut state, key(KeyCode::Char('q')));
    assert!(state.should_quit);
    assert!(matches!(state.outcome, Some(SetupOutcome::Cancelled)));
}

#[test]
fn using_current_folder_returns_to_input_and_requires_second_confirm() {
    let mut state = path_state("/tmp/work");

    let effect = handle_key(&mut state, KeyInput::with_ctrl(KeyCode::Char('b')));
    match effect {
        SetupEffect::OpenBrowser { seed } => assert_eq!(seed, "/tmp/work"),
        _ => panic!("expected OpenBrowser"),
    }
    open_browse_listing(&mut state, listing("/tmp/work", &["alpha"]));
    assert!(state.path_browse_mode);

    handle_key(&mut state, key(KeyCode::Char('u')));
    assert_eq!(state.base_path, "/tmp/work");
    assert_eq!(state.step, SetupStep::SelectPath);
    assert!(!state.path_browse_mode);

    handle_key(&mut state, key(KeyCode::Enter));
    assert_eq!(state.step, SetupStep::Confirm);
}

#[test]
fn enter_in_browse_mode_sets_path_and_closes_popup() {
    let mut state = path_state("/tmp/work");

    handle_key(&mut state, KeyInput::with_ctrl(KeyCode::Char('b')));
    open_browse_listing(&mut state, listing("/tmp", &["other", "work"]));
    select_browse_path(&mut state, "/tmp/work");
    assert_eq!(state.path_browse_index, 1);

    match handle_key(&mut state, key(KeyCode::Right)) {
        SetupEffect::OpenDirectory { path } => {
            assert_eq!(path, "/tmp/work");
            apply_browse_outcome(&mut state, BrowseOutcome::Listed(listing(&path, &["alpha"])), None);
        }
        _ => panic!("expected OpenDirectory"),
    }
    match handle_key(&mut state, key(KeyCode::Right)) {
        SetupEffect::OpenDirectory { path } => {
            assert_eq!(path, "/tmp/work/alpha");
            apply_browse_outcome(&mut state, BrowseOutcome::Listed(listing(&path, &[])), None);
        }
        _ => panic!("expected OpenDirectory"),
    }

    handle_key(&mut state, key(KeyCode::Enter));
    assert!(!state.path_browse_mode);
    assert_eq!(state.step, SetupStep::SelectPath);
    assert_eq!(state.base_path, "/tmp/work/alpha");

    handle_key(&mut state, key(KeyCode::Enter));
    assert_eq!(state.step, SetupStep::Confirm);
}

#[test]
fn quick_jumps_and_hidden_toggle_work() {
    let mut state = path_state("/tmp/work");
    handle_key(&mut state, KeyInput::with_ctrl(KeyCode::Char('b')));
    open_browse_listing(&mut state, listing("/tmp/work", &["visible-folder"]));
    assert!(!state.path_browse_show_hidden);

    assert!(matches!(handle_key(&mut state, key(KeyCode::Char('.'))), SetupEffect::RefreshBrowse));
    assert!(state.path_browse_show_hidden);
    assert!(matches!(handle_key(&mut state, key(KeyCode::Char('.'))), SetupEffect::RefreshBrowse));
    assert!(!state.path_browse_show_hidden);

    assert!(matches!(handle_key(&mut state, key(KeyCode::Char('c'))), SetupEffect::BrowseCurrentDirectory));
    assert!(matches!(handle_key(&mut state, key(KeyCode::Char('h'))), SetupEffect::BrowseHome));
    assert!(matches!(handle_key(&mut state, key(KeyCode::Char('r'))), SetupEffect::BrowseRoot));
    assert!(state.path_browse_mode);
    assert_eq!(state.path_browse_current_dir, "/tmp/work");

    apply_browse_outcome(&mut state, BrowseOutcome::Listed(listing("/", &["tmp"])), None);
    assert_eq!(state.path_browse_current_dir, "/");
    assert_eq!(state.path_browse_index, 0);
}

#[test]
fn unreadable_folder_keeps_listing_and_shows_error() {
    let mut state = path_state("/tmp/work");
    handle_key(&mut state, KeyInput::with_ctrl(KeyCode::Char('b')));
    open_browse_listing(&mut state, listing("/tmp/work", &["locked"]));
    apply_browse_outcome(&mut state, BrowseOutcome::Failed("permission denied".to_string()), None);
    assert_eq!(state.path_browse_current_dir, "/tmp/work");
    assert_eq!(state.path_browse_entries.len(), 1);
    assert_eq!(state.path_browse_error.as_deref(), Some("permission denied"));
}

#[test]
fn typing_does_not_edit_base_path_in_select_path_step() {
    let mut state = SetupState::new("~/Git-Same/GitHub");
    state.step = SetupStep::SelectPath;
    let original = state.base_path.clone();

    for code in [
        KeyCode::Char('x'),
        KeyCode::Backspace,
        KeyCode::Delete,
        KeyCode::Tab,
        KeyCode::Left,
        KeyCode::Right,
    ] {
        handle_key(&mut state, key(code));
    }

    assert_eq!(state.base_path, original);
    assert_eq!(state.step, SetupStep::SelectPath);
}

fn suggestions_state(base: &str) -> SetupState {
    let mut state = SetupState::new(base);
    state.step = SetupStep::SelectPath;
    state.path_suggestions_mode = true;
    state.path_suggestions = vec![PathSuggestion { path: base.to_string(), label: "current folder".to_string() }];
    state.base_path = base.to_string();
    state.path_cursor = state.base_path.len();
    state
}

#[test]
fn handler_b_opens_path_browser_from_suggestions_mode() {
    let mut state = suggestions_state("/tmp/work");
    let effect = handle_key(&mut state, key(KeyCode::Char('b')));
    assert!(matches!(effect, SetupEffect::OpenBrowser { .. }));
    open_browse_listing(&mut state, listing("/tmp/work", &["child"]));
    assert!(state.path_browse_mode);
    assert_eq!(state.path_browse_current_dir, "/tmp/work");
    assert!(state.path_browse_entries.iter().any(|e| e.path == "/tmp/work/child"));
}

#[test]
fn handler_tests_b_opens_path_browser_from_suggestions_mode() {
    let mut state = suggestions_state("/tmp/work");
    let effect = handle_key(&mut state, key(KeyCode::Char('b')));
    assert!(matches!(effect, SetupEffect::OpenBrowser { .. }));
    open_browse_listing(&mut state, listing("/tmp", &["work"]));
    assert!(state.path_browse_mode);
    assert_eq!(state.step, SetupStep::SelectPath);
    assert_eq!(state.path_browse_index, 0);
    assert!(state.path_browse_entries.iter().any(|e| e.path == "/tmp/work" && e.depth == 1));
}

#[test]
fn left_on_root_moves_popup_to_parent_directory() {
    let mut state = path_state("/tmp/work");
    handle_key(&mut state, KeyInput::with_ctrl(KeyCode::Char('b')));
    open_browse_listing(&mut state, listing("/tmp/work", &["alpha", "beta"]));
    state.path_browse_index = 1;

    assert!(matches!(handle_key(&mut state, key(KeyCode::Left)), SetupEffect::BrowseParent));
    apply_browse_outcome(&mut state, BrowseOutcome::Listed(listing("/tmp", &["work"])), None);

    assert_eq!(state.path_browse_index, 0);
    assert_eq!(state.path_browse_current_dir, "/tmp");
}

#[test]
fn navigator_index_out_of_range_is_harmless() {
    let mut state = browse_state(2);
    state.path_browse_index = 7;
    assert!(matches!(handle_key(&mut state, key(KeyCode::Right)), SetupEffect::Nothing));
    handle_key(&mut state, key(KeyCode::Down));
    assert_eq!(state.path_browse_index, 7);
    handle_key(&mut state, key(KeyCode::Up));
    assert_eq!(state.path_browse_index, 6);
}

#[test]
fn suggestion_index_out_of_range_is_harmless() {
    let mut state = SetupState::new("~/Git-Same/GitHub");
    state.step = SetupStep::SelectPath;
    state.path_suggestions_mode = true;
    state.path_suggestions = vec![];
    state.path_suggestion_index = 3;
    let original = state.base_path.clone();
    handle_key(&mut state, key(KeyCode::Enter));
    assert_eq!(state.base_path, original);
    assert_eq!(state.step, SetupStep::Confirm);
}
