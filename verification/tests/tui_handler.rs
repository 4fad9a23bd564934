use git_same::config::{Config, WorkspaceConfig};
use git_same::input::{KeyCode, KeyInput};
use git_same::setup::state::{OrgEntry, SetupState, SetupStep};
use git_same::tui::app::{App, CheckEntry, Operation, OperationState, Screen};
use git_same::tui::event::{AppEvent, BackendMessage};
use git_same::tui::handler::{can_handle, handle_event, handle_key, handle_setup_wizard_key, handle_tick};
use git_same::tui::messages::{AppAction, Clock};

fn app_with_workspace() -> App {
    let ws = WorkspaceConfig::new("test-ws", "/tmp/test-ws");
    App::new(Config::default(), vec![ws], "~/Git-Same/GitHub")
}

fn clock(ms: u64) -> Clock {
    Clock { now_ms: ms, now_rfc3339: "2024-05-01T12:00:00+00:00".to_string() }
}

fn key(code: KeyCode) -> KeyInput {
    KeyInput::plain(code)
}

#[test]
fn q_quits_immediately() {
    let mut app = app_with_workspace();
    handle_key(&mut app, key(KeyCode::Char('q')), "~/x");
    assert!(app.should_quit);
}

#[test]
fn ctrl_c_quits() {
    let mut app = app_with_workspace();
    handle_key(&mut app, KeyInput::with_ctrl(KeyCode::Char('c')), "~/x");
    assert!(app.should_quit);
}

#[test]
fn setup_cancel_returns_to_previous_screen_when_present() {
    let mut app = app_with_workspace();
    app.screen = Screen::WorkspaceSetup;
    app.screen_stack = vec![Screen::Settings, Screen::Workspaces];
    let mut setup = SetupState::new("~/Git-Same/GitHub");
    setup.step = SetupStep::SelectProvider;
    app.setup_state = Some(setup);

    handle_setup_wizard_key(&mut app, key(KeyCode::Esc));

    assert!(app.setup_state.is_none());
    assert_eq!(app.screen, Screen::Workspaces);
    assert_eq!(app.screen_stack, vec![Screen::Settings]);
}

#[test]
fn setup_cancel_without_history_quits() {
    let mut app = app_with_workspace();
    app.screen = Screen::WorkspaceSetup;
    app.screen_stack.clear();
    let mut setup = SetupState::new("~/Git-Same/GitHub");
    setup.step = SetupStep::SelectProvider;
    app.setup_state = Some(setup);

    handle_setup_wizard_key(&mut app, key(KeyCode::Esc));

    assert!(app.setup_state.is_none());
    assert!(app.should_quit);
}

#[test]
fn setup_right_moves_to_next_step() {
    let mut app = app_with_workspace();
    app.screen = Screen::WorkspaceSetup;
    let mut setup = SetupState::new("~/Git-Same/GitHub");
    setup.step = SetupStep::SelectProvider;
    app.setup_state = Some(setup);

    handle_setup_wizard_key(&mut app, key(KeyCode::Right));

    assert_eq!(app.setup_state.as_ref().map(|s| s.step), Some(SetupStep::Authenticate));
}

#[test]
fn setup_org_discovery_backend_message_populates_state() {
    let mut app = app_with_workspace();
    app.screen = Screen::WorkspaceSetup;
    app.setup_state = Some(SetupState::new("~/Git-Same/GitHub"));
    let setup = app.setup_state.as_mut().expect("setup state");
    setup.step = SetupStep::SelectOrgs;
    setup.org_loading = true;
    setup.org_discovery_in_progress = true;

    handle_event(
        &mut app,
        AppEvent::Backend(BackendMessage::SetupOrgsDiscovered(vec![OrgEntry {
            name: "acme".to_string(),
            repo_count: 3,
            selected: true,
        }])),
        &clock(0),
        "~/x",
    );

    let setup = app.setup_state.as_ref().expect("setup state");
    assert!(!setup.org_loading);
    assert!(!setup.org_discovery_in_progress);
    assert!(setup.org_error.is_none());
    assert_eq!(setup.orgs.len(), 1);
    assert_eq!(setup.orgs[0].name, "acme");
}

#[test]
fn setup_check_results_preserve_suggestions() {
    let mut app = app_with_workspace();
    app.screen = Screen::WorkspaceSetup;
    app.setup_state = Some(SetupState::new("~/Git-Same/GitHub"));

    handle_event(
        &mut app,
        AppEvent::Backend(BackendMessage::SetupCheckResults(vec![CheckEntry {
            name: "gh".to_string(),
            passed: false,
            message: "Not authenticated".to_string(),
            suggestion: Some("Run: gh auth login".to_string()),
            critical: true,
        }])),
        &clock(0),
        "~/x",
    );

    assert_eq!(app.check_results.len(), 1);
    assert_eq!(app.check_results[0].suggestion.as_deref(), Some("Run: gh auth login"));

    let setup = app.setup_state.as_ref().expect("setup state");
    assert_eq!(setup.check_results.len(), 1);
    assert_eq!(setup.check_results[0].suggestion.as_deref(), Some("Run: gh auth login"));
}

#[test]
fn any_key_clears_error_message() {
    let mut app = app_with_workspace();
    app.error_message = Some("boom".to_string());
    handle_key(&mut app, key(KeyCode::Char('z')), "~/x");
    assert!(app.error_message.is_none());
}

#[test]
fn filter_input_edits_text() {
    let mut app = app_with_workspace();
    app.filter_active = true;
    handle_key(&mut app, key(KeyCode::Char('a')), "~/x");
    handle_key(&mut app, key(KeyCode::Char('b')), "~/x");
    assert_eq!(app.filter_text, "ab");
    handle_key(&mut app, key(KeyCode::Backspace), "~/x");
    assert_eq!(app.filter_text, "a");
    handle_key(&mut app, key(KeyCode::Char('q')), "~/x");
    assert!(!app.should_quit);
    assert_eq!(app.filter_text, "aq");
    handle_key(&mut app, key(KeyCode::Enter), "~/x");
    assert!(!app.filter_active);
    assert_eq!(app.filter_text, "aq");
    app.filter_active = true;
    handle_key(&mut app, key(KeyCode::Esc), "~/x");
    assert!(!app.filter_active);
    assert!(app.filter_text.is_empty());
}

#[test]
fn esc_on_sync_without_history_returns_to_dashboard() {
    let mut app = app_with_workspace();
    app.screen = Screen::Sync;
    handle_key(&mut app, key(KeyCode::Esc), "~/x");
    assert_eq!(app.screen, Screen::Dashboard);
}

#[test]
fn esc_on_sync_collapses_expanded_entry_first() {
    let mut app = app_with_workspace();
    app.screen = Screen::Sync;
    app.expanded_repo = Some("acme/rocket".to_string());
    app.repo_commits = vec!["abc".to_string()];
    handle_key(&mut app, key(KeyCode::Esc), "~/x");
    assert_eq!(app.screen, Screen::Sync);
    assert!(app.expanded_repo.is_none());
    assert!(app.repo_commits.is_empty());
}

#[test]
fn esc_on_system_check_stays() {
    let mut app = app_with_workspace();
    app.screen = Screen::SystemCheck;
    app.screen_stack = vec![Screen::Dashboard];
    handle_key(&mut app, key(KeyCode::Esc), "~/x");
    assert_eq!(app.screen, Screen::SystemCheck);
}

#[test]
fn handle_key_s_opens_setup_wizard() {
    let mut app = app_with_workspace();
    app.screen = Screen::SystemCheck;
    handle_key(&mut app, key(KeyCode::Char('s')), "~/Git-Same/GitHub");
    assert_eq!(app.screen, Screen::WorkspaceSetup);
    assert!(app.setup_state.is_some());
}

#[test]
fn system_check_c_asks_to_create_config() {
    let mut app = app_with_workspace();
    app.screen = Screen::SystemCheck;
    let acts = handle_key(&mut app, key(KeyCode::Char('c')), "~/x");
    assert!(matches!(acts.as_slice(), [AppAction::CreateConfig]));
}

#[test]
fn settings_keys_toggle_options() {
    let mut app = app_with_workspace();
    app.screen = Screen::Settings;
    handle_key(&mut app, key(KeyCode::Down), "~/x");
    assert_eq!(app.settings_index, 1);
    handle_key(&mut app, key(KeyCode::Down), "~/x");
    assert_eq!(app.settings_index, 0);
    handle_key(&mut app, key(KeyCode::Up), "~/x");
    assert_eq!(app.settings_index, 1);
    handle_key(&mut app, key(KeyCode::Char('d')), "~/x");
    assert!(app.dry_run);
    handle_key(&mut app, key(KeyCode::Char('m')), "~/x");
    assert!(app.sync_pull);
    let acts = handle_key(&mut app, key(KeyCode::Char('c')), "~/x");
    assert!(matches!(acts.as_slice(), [AppAction::OpenConfigDirectory]));
}

#[test]
fn tick_on_dashboard_schedules_checks_and_status_scan() {
    let mut app = app_with_workspace();
    assert_eq!(app.screen, Screen::Dashboard);
    let acts = handle_tick(&mut app, 1_000);
    assert!(app.checks_loading);
    assert!(app.status_loading);
    assert!(matches!(
        acts.as_slice(),
        [AppAction::RunChecks, AppAction::SpawnOperation(Operation::Status)]
    ));
    let again = handle_tick(&mut app, 2_000);
    assert!(again.is_empty());
}

#[test]
fn tick_rescans_status_only_after_refresh_interval() {
    let mut app = app_with_workspace();
    app.checks_loading = true;
    app.last_status_scan = Some(10_000);
    let acts = handle_tick(&mut app, 10_000 + 299_999);
    assert!(acts.is_empty());
    let acts = handle_tick(&mut app, 10_000 + 300_000);
    assert!(matches!(acts.as_slice(), [AppAction::SpawnOperation(Operation::Status)]));
}

#[test]
fn tick_samples_throughput_every_tenth_tick() {
    let mut app = app_with_workspace();
    app.checks_loading = true;
    app.status_loading = true;
    handle_event(
        &mut app,
        AppEvent::Backend(BackendMessage::OperationStarted {
            operation: Operation::Sync,
            total: 5,
            to_clone: 1,
            to_sync: 4,
        }),
        &clock(0),
        "~/x",
    );
    for i in 0..3 {
        handle_event(
            &mut app,
            AppEvent::Backend(BackendMessage::RepoProgress {
                repo_name: format!("acme/r{}", i),
                success: true,
                skipped: false,
                message: "ok".to_string(),
                had_updates: false,
                is_clone: false,
                new_commits: None,
                skip_reason: None,
            }),
            &clock(0),
            "~/x",
        );
    }
    for _ in 0..10 {
        handle_tick(&mut app, 0);
    }
    assert_eq!(app.tick_count, 10);
    match &app.operation_state {
        OperationState::Running(r) => {
            assert_eq!(r.throughput_samples, vec![3]);
            assert_eq!(r.last_sample_completed, 3);
        }
        _ => panic!("expected running"),
    }
}

#[test]
fn resize_changes_nothing() {
    let mut app = app_with_workspace();
    let acts = handle_event(&mut app, AppEvent::Resize(80, 24), &clock(0), "~/x");
    assert!(acts.is_empty());
    assert_eq!(app.screen, Screen::Dashboard);
}

#[test]
fn can_handle_checks_indices_and_room() {
    let mut app = app_with_workspace();
    assert!(can_handle(&app, &AppEvent::Tick));
    assert!(can_handle(&app, &AppEvent::Key(KeyInput::plain(KeyCode::Down))));
    app.changelog_scroll = usize::MAX;
    assert!(!can_handle(&app, &AppEvent::Key(KeyInput::plain(KeyCode::Down))));
    app.changelog_scroll = 0;
    let mut setup = SetupState::new("~/x");
    setup.provider_index = setup.provider_choices.len();
    app.setup_state = Some(setup);
    assert!(!can_handle(&app, &AppEvent::Tick));
}
