use git_same::config::{Config, SyncMode, WorkspaceConfig};
use git_same::input::{KeyCode, KeyInput};
use git_same::tui::app::{App, Screen, WorkspacePane};
use git_same::tui::format::{next_default_workspace_name, wrap_comma_separated_values};
use git_same::tui::messages::AppAction;
use git_same::tui::workspaces::{handle_key, workspace_facts};

fn sample_values() -> Vec<String> {
    vec![
        "CommitBook".to_string(),
        "GenAI-Wednesday".to_string(),
        "M-com".to_string(),
        "Manuel-Forks".to_string(),
    ]
}

#[test]
fn workspace_wrap_comma_separated_values_wraps_and_preserves_order() {
    let values = sample_values();
    let lines = wrap_comma_separated_values(&values, 20);
    assert!(lines.len() > 1);
    assert_eq!(lines.join(", "), values.join(", "));
}

#[test]
fn workspace_wrap_comma_separated_values_empty_means_all() {
    let lines = wrap_comma_separated_values(&[], 20);
    assert_eq!(lines, vec!["all".to_string()]);
}

#[test]
fn workspaces_wrap_comma_separated_values_wraps_and_preserves_order() {
    let values = sample_values();
    let lines = wrap_comma_separated_values(&values, 20);
    assert!(lines.len() > 1);
    assert_eq!(lines.join(", "), values.join(", "));
}

#[test]
fn workspaces_wrap_comma_separated_values_empty_means_all() {
    let lines = wrap_comma_separated_values(&[], 20);
    assert_eq!(lines, vec!["all".to_string()]);
}

#[test]
fn workspaces_tests_wrap_comma_separated_values_wraps_and_preserves_order() {
    let values = sample_values();
    let lines = wrap_comma_separated_values(&values, 20);
    assert!(lines.len() > 1);
    assert_eq!(lines.join(", "), values.join(", "));
}

#[test]
fn workspaces_tests_wrap_comma_separated_values_empty_means_all() {
    let lines = wrap_comma_separated_values(&[], 20);
    assert_eq!(lines, vec!["all".to_string()]);
}

#[test]
fn next_default_workspace_name_is_set_only() {
    assert_eq!(
        next_default_workspace_name(Some("current"), "next"),
        Some("next".to_string())
    );
    assert_eq!(next_default_workspace_name(Some("same"), "same"), None);
    assert_eq!(
        next_default_workspace_name(None, "selected"),
        Some("selected".to_string())
    );
}

#[test]
fn wrap_fills_lines_greedily() {
    let values = sample_values();
    let lines = wrap_comma_separated_values(&values, 20);
    assert_eq!(
        lines,
        vec![
            "CommitBook".to_string(),
            "GenAI-Wednesday".to_string(),
            "M-com, Manuel-Forks".to_string(),
        ]
    );
}

#[test]
fn wrap_keeps_a_long_value_on_its_own_line() {
    let values = vec!["a".to_string(), "abcdefghijklmnopqrstuvwxyz".to_string(), "b".to_string()];
    let lines = wrap_comma_separated_values(&values, 5);
    assert_eq!(lines, vec!["a".to_string(), "abcdefghijklmnopqrstuvwxyz".to_string(), "b".to_string()]);
}

fn build_workspace_app(default_workspace: Option<&str>) -> App {
    let mut config = Config::default();
    config.default_workspace = default_workspace.map(ToString::to_string);
    let ws = WorkspaceConfig::new("test-ws", "/tmp/test-ws");
    let mut app = App::new(config, vec![ws.copy()], "~/Git-Same/GitHub");
    app.screen = Screen::Workspaces;
    app.workspace_index = 0;
    app.active_workspace = Some(ws);
    app
}

fn key(code: KeyCode) -> KeyInput {
    KeyInput::plain(code)
}

#[test]
fn workspaces_workspace_key_f_opens_folder_for_selected_workspace() {
    let mut app = build_workspace_app(None);
    let act = handle_key(&mut app, key(KeyCode::Char('f')), "~/x");
    match act {
        Some(AppAction::OpenFolder(path)) => assert_eq!(path, "/tmp/test-ws"),
        _ => panic!("expected OpenFolder"),
    }
}

#[test]
fn workspaces_workspace_key_c_toggles_config_expansion() {
    let mut app = build_workspace_app(None);
    app.workspace_pane = WorkspacePane::Left;
    assert!(!app.settings_config_expanded);
    handle_key(&mut app, key(KeyCode::Char('c')), "~/x");
    assert!(app.settings_config_expanded);
    assert_eq!(app.workspace_pane, WorkspacePane::Right);
    handle_key(&mut app, key(KeyCode::Char('c')), "~/x");
    assert!(!app.settings_config_expanded);
}

#[test]
fn workspaces_workspace_left_right_controls_panel_focus_and_list_movement() {
    let mut app = build_workspace_app(None);
    app.workspaces.push(WorkspaceConfig::new("second", "/tmp/second"));
    app.workspace_pane = WorkspacePane::Left;
    app.workspace_index = 0;

    handle_key(&mut app, key(KeyCode::Right), "~/x");
    assert_eq!(app.workspace_pane, WorkspacePane::Right);
    handle_key(&mut app, key(KeyCode::Down), "~/x");
    assert_eq!(app.workspace_index, 0);

    handle_key(&mut app, key(KeyCode::Left), "~/x");
    assert_eq!(app.workspace_pane, WorkspacePane::Left);
    handle_key(&mut app, key(KeyCode::Down), "~/x");
    assert_eq!(app.workspace_index, 1);
    handle_key(&mut app, key(KeyCode::Down), "~/x");
    assert_eq!(app.workspace_index, 2);
    handle_key(&mut app, key(KeyCode::Down), "~/x");
    assert_eq!(app.workspace_index, 0);
    handle_key(&mut app, key(KeyCode::Up), "~/x");
    assert_eq!(app.workspace_index, 2);
}

#[test]
fn workspaces_workspace_key_o_is_noop() {
    let mut app = build_workspace_app(None);
    let act = handle_key(&mut app, key(KeyCode::Char('o')), "~/x");
    assert!(act.is_none());
    assert_eq!(app.screen, Screen::Workspaces);
    assert_eq!(app.workspace_index, 0);
}

#[test]
fn workspaces_workspace_enter_selects_workspace_even_if_active() {
    let mut app = build_workspace_app(None);
    let act = handle_key(&mut app, key(KeyCode::Enter), "~/x");
    assert_eq!(app.screen, Screen::Dashboard);
    assert!(app.screen_stack.is_empty());
    assert_eq!(app.active_workspace.as_ref().map(|w| w.name.as_str()), Some("test-ws"));
    match act {
        Some(AppAction::LoadSyncHistory(name)) => assert_eq!(name, "test-ws"),
        _ => panic!("expected LoadSyncHistory"),
    }
}

#[test]
fn workspaces_workspace_key_d_does_not_clear_when_already_default() {
    let mut app = build_workspace_app(Some("test-ws"));
    let act = handle_key(&mut app, key(KeyCode::Char('d')), "~/x");
    assert!(act.is_none());
    assert_eq!(app.config.default_workspace.as_deref(), Some("test-ws"));
}

#[test]
fn key_d_sets_default_when_not_default() {
    let mut app = build_workspace_app(None);
    match handle_key(&mut app, key(KeyCode::Char('d')), "~/x") {
        Some(AppAction::SaveDefaultWorkspace(Some(name))) => assert_eq!(name, "test-ws"),
        _ => panic!("expected SaveDefaultWorkspace"),
    }
}

#[test]
fn enter_on_create_entry_opens_wizard() {
    let mut app = build_workspace_app(None);
    app.workspace_index = 1;
    handle_key(&mut app, key(KeyCode::Enter), "~/new-place");
    assert_eq!(app.screen, Screen::WorkspaceSetup);
    assert_eq!(app.screen_stack, vec![Screen::Workspaces]);
    assert_eq!(app.setup_state.as_ref().map(|s| s.base_path.as_str()), Some("~/new-place"));
}

#[test]
fn workspaces_tests_workspace_key_f_opens_folder_for_selected_workspace() {
    let mut app = build_workspace_app(None);
    let act = handle_key(&mut app, key(KeyCode::Char('f')), "~/x");
    assert!(matches!(act, Some(AppAction::OpenFolder(ref p)) if p == "/tmp/test-ws"));
}

#[test]
fn workspaces_tests_workspace_key_c_toggles_config_expansion() {
    let mut app = build_workspace_app(None);

    let first = handle_key(&mut app, key(KeyCode::Char('c')), "~/x");
    assert_eq!(app.workspace_pane, WorkspacePane::Right);
    assert!(app.settings_config_expanded);

    let second = handle_key(&mut app, key(KeyCode::Char('c')), "~/x");
    assert!(!app.settings_config_expanded);
    assert!(first.is_none() && second.is_none());
}

#[test]
fn workspaces_tests_workspace_left_right_controls_panel_focus_and_list_movement() {
    let config = Config::default();
    let ws1 = WorkspaceConfig::new("ws1", "/tmp/ws1");
    let ws2 = WorkspaceConfig::new("ws2", "/tmp/ws2");
    let mut app = App::new(config, vec![ws1.copy(), ws2], "~/Git-Same/GitHub");
    app.screen = Screen::Workspaces;
    app.workspace_index = 0;
    app.active_workspace = Some(ws1);
    let mut acts = Vec::new();

    acts.push(handle_key(&mut app, key(KeyCode::Right), "~/x"));
    assert_eq!(app.workspace_pane, WorkspacePane::Right);

    acts.push(handle_key(&mut app, key(KeyCode::Down), "~/x"));
    assert_eq!(app.workspace_index, 0);

    acts.push(handle_key(&mut app, key(KeyCode::Left), "~/x"));
    assert_eq!(app.workspace_pane, WorkspacePane::Left);

    acts.push(handle_key(&mut app, key(KeyCode::Down), "~/x"));
    assert_eq!(app.workspace_index, 1);
    assert!(acts.iter().all(|a| a.is_none()));
}

#[test]
fn workspaces_tests_workspace_key_o_is_noop() {
    let mut app = build_workspace_app(None);
    let before_index = app.workspace_index;
    let before_scroll = app.workspace_detail_scroll;

    let act = handle_key(&mut app, key(KeyCode::Char('o')), "~/x");

    assert_eq!(app.workspace_index, before_index);
    assert_eq!(app.workspace_detail_scroll, before_scroll);
    assert!(!matches!(act, Some(AppAction::OpenFolder(_))));
    assert!(act.is_none());
}

#[test]
fn workspaces_tests_workspace_enter_selects_workspace_even_if_active() {
    let mut app = build_workspace_app(None);
    app.settings_config_expanded = true;

    let act = handle_key(&mut app, key(KeyCode::Enter), "~/x");

    assert_eq!(app.screen, Screen::Dashboard);
    assert!(matches!(act, Some(AppAction::LoadSyncHistory(_))));
}

#[test]
fn workspaces_tests_workspace_key_d_does_not_clear_when_already_default() {
    let mut app = build_workspace_app(Some("test-ws"));

    let act = handle_key(&mut app, key(KeyCode::Char('d')), "~/x");

    assert_eq!(app.config.default_workspace.as_deref(), Some("test-ws"));
    assert!(act.is_none());
}

#[test]
fn wrap_lines_are_greedy_and_within_width() {
    let values: Vec<String> = ["aa", "bbb", "c", "dddd", "ee", "f"].iter().map(|s| s.to_string()).collect();
    let lines = wrap_comma_separated_values(&values, 8);
    assert_eq!(lines, vec!["aa, bbb".to_string(), "c, dddd".to_string(), "ee, f".to_string()]);
    for w in lines.windows(2) {
        let first = w[1].split(", ").next().unwrap();
        assert!(w[0].len() + 2 + first.len() > 8);
    }
    assert!(lines.iter().all(|l| !l.is_empty() && l.len() <= 8));
}

#[test]
fn workspace_facts_mark_global_defaults() {
    let mut app = build_workspace_app(Some("test-ws"));
    let ws = app.workspaces[0].copy();
    let f = workspace_facts(&app, &ws);
    assert!(f.active);
    assert!(f.default);
    assert_eq!(f.sync_mode, "fetch (global default)");
    assert_eq!(f.concurrency, "4 (global default)");
    assert_eq!(f.username, "\u{2014}");

    let mut other = WorkspaceConfig::new("other", "/tmp/other");
    other.sync_mode = Some(SyncMode::Pull);
    other.concurrency = Some(8);
    other.username = "octo".to_string();
    app.config.default_workspace = None;
    let f = workspace_facts(&app, &other);
    assert!(!f.active);
    assert!(!f.default);
    assert_eq!(f.sync_mode, "pull");
    assert_eq!(f.concurrency, "8");
    assert_eq!(f.username, "octo");
}
