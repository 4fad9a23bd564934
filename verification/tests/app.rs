use git_same::config::{Config, WorkspaceConfig};
use git_same::tui::app::{App, Screen};

const SETUP_PATH: &str = "~/Git-Same/GitHub";

#[test]
fn app_test_new_no_workspaces_shows_setup_wizard() {
    let app = App::new(Config::default(), vec![], SETUP_PATH);
    assert_eq!(app.screen, Screen::WorkspaceSetup);
    assert!(app.setup_state.is_some());
    assert!(app.active_workspace.is_none());
    assert!(app.base_path.is_none());
}

#[test]
fn app_test_new_single_workspace_auto_selects() {
    let ws = WorkspaceConfig::new("test", "/tmp/test");
    let app = App::new(Config::default(), vec![ws], SETUP_PATH);
    assert_eq!(app.screen, Screen::Dashboard);
    assert!(app.active_workspace.is_some());
    assert_eq!(app.active_workspace.unwrap().name, "test");
    assert!(app.base_path.is_some());
}

#[test]
fn app_test_new_multiple_no_default_shows_selector() {
    let ws1 = WorkspaceConfig::new("ws1", "/tmp/ws1");
    let ws2 = WorkspaceConfig::new("ws2", "/tmp/ws2");
    let app = App::new(Config::default(), vec![ws1, ws2], SETUP_PATH);
    assert_eq!(app.screen, Screen::Workspaces);
    assert!(app.active_workspace.is_none());
}

#[test]
fn app_test_new_multiple_with_valid_default_auto_selects() {
    let ws1 = WorkspaceConfig::new("ws1", "/tmp/ws1");
    let ws2 = WorkspaceConfig::new("ws2", "/tmp/ws2");
    let mut config = Config::default();
    config.default_workspace = Some("ws2".to_string());
    let app = App::new(config, vec![ws1, ws2], SETUP_PATH);
    assert_eq!(app.screen, Screen::Dashboard);
    assert_eq!(app.active_workspace.unwrap().name, "ws2");
}

#[test]
fn app_test_new_multiple_with_invalid_default_shows_selector() {
    let ws1 = WorkspaceConfig::new("ws1", "/tmp/ws1");
    let ws2 = WorkspaceConfig::new("ws2", "/tmp/ws2");
    let mut config = Config::default();
    config.default_workspace = Some("nonexistent".to_string());
    let app = App::new(config, vec![ws1, ws2], SETUP_PATH);
    assert_eq!(app.screen, Screen::Workspaces);
    assert!(app.active_workspace.is_none());
}

#[test]
fn app_tests_test_new_no_workspaces_shows_setup_wizard() {
    let app = App::new(Config::default(), vec![], SETUP_PATH);
    assert_eq!(app.screen, Screen::WorkspaceSetup);
    assert!(app.setup_state.is_some());
    assert!(app.active_workspace.is_none());
    assert!(app.base_path.is_none());
}

#[test]
fn app_tests_test_new_single_workspace_auto_selects() {
    let ws = WorkspaceConfig::new("test", "/tmp/test");
    let app = App::new(Config::default(), vec![ws], SETUP_PATH);
    assert_eq!(app.screen, Screen::Dashboard);
    assert!(app.active_workspace.is_some());
    assert_eq!(app.active_workspace.unwrap().name, "test");
    assert!(app.base_path.is_some());
}

#[test]
fn app_tests_test_new_multiple_no_default_shows_selector() {
    let ws1 = WorkspaceConfig::new("ws1", "/tmp/ws1");
    let ws2 = WorkspaceConfig::new("ws2", "/tmp/ws2");
    let app = App::new(Config::default(), vec![ws1, ws2], SETUP_PATH);
    assert_eq!(app.screen, Screen::Workspaces);
    assert!(app.active_workspace.is_none());
}

#[test]
fn app_tests_test_new_multiple_with_valid_default_auto_selects() {
    let ws1 = WorkspaceConfig::new("ws1", "/tmp/ws1");
    let ws2 = WorkspaceConfig::new("ws2", "/tmp/ws2");
    let mut config = Config::default();
    config.default_workspace = Some("ws2".to_string());
    let app = App::new(config, vec![ws1, ws2], SETUP_PATH);
    assert_eq!(app.screen, Screen::Dashboard);
    assert_eq!(app.active_workspace.unwrap().name, "ws2");
}

#[test]
fn app_tests_test_new_multiple_with_invalid_default_shows_selector() {
    let ws1 = WorkspaceConfig::new("ws1", "/tmp/ws1");
    let ws2 = WorkspaceConfig::new("ws2", "/tmp/ws2");
    let mut config = Config::default();
    config.default_workspace = Some("nonexistent".to_string());
    let app = App::new(config, vec![ws1, ws2], SETUP_PATH);
    assert_eq!(app.screen, Screen::Workspaces);
    assert!(app.active_workspace.is_none());
}

#[test]
fn wizard_opened_by_new_app_starts_at_given_path() {
    let app = App::new(Config::default(), vec![], "~/somewhere");
    assert_eq!(app.setup_state.unwrap().base_path, "~/somewhere");
}

#[test]
fn default_workspace_picks_first_of_equal_names() {
    let ws1 = WorkspaceConfig::new("dup", "/tmp/first");
    let ws2 = WorkspaceConfig::new("dup", "/tmp/second");
    let mut config = Config::default();
    config.default_workspace = Some("dup".to_string());
    let app = App::new(config, vec![ws1, ws2], SETUP_PATH);
    assert_eq!(app.base_path.as_deref(), Some("/tmp/first"));
}

#[test]
fn navigate_then_go_back_restores_screen() {
    let ws = WorkspaceConfig::new("test", "/tmp/test");
    let mut app = App::new(Config::default(), vec![ws], SETUP_PATH);
    app.navigate_to(Screen::Settings);
    assert_eq!(app.screen, Screen::Settings);
    assert_eq!(app.screen_stack, vec![Screen::Dashboard]);
    app.go_back();
    assert_eq!(app.screen, Screen::Dashboard);
    assert!(app.screen_stack.is_empty());
    app.go_back();
    assert_eq!(app.screen, Screen::Dashboard);
}

#[test]
fn select_workspace_switches_and_resets_discovery() {
    let ws1 = WorkspaceConfig::new("ws1", "/tmp/ws1");
    let ws2 = WorkspaceConfig::new("ws2", "/tmp/ws2");
    let mut app = App::new(Config::default(), vec![ws1, ws2], SETUP_PATH);
    app.orgs.push("acme".to_string());
    app.select_workspace(1, Vec::new());
    assert_eq!(app.active_workspace.as_ref().unwrap().name, "ws2");
    assert_eq!(app.base_path.as_deref(), Some("/tmp/ws2"));
    assert!(app.orgs.is_empty());
    app.select_workspace(9, Vec::new());
    assert_eq!(app.active_workspace.as_ref().unwrap().name, "ws2");
}
