//! Workspaces screen keys: the workspace list on the left, the selected
//! workspace's details on the right.

use vstd::prelude::*;
use crate::config::{is_tilde_expansion, spec_sync_mode_name, sync_mode_name, WorkspaceConfig};
use crate::text::{concat_str, decimal_string, owned, spec_decimal, str_eq};
use crate::input::{KeyCode, KeyInput};
use crate::setup::state::{is_initial_state, SetupState};
use crate::tui::app::{App, Screen, WorkspacePane};
use crate::tui::dashboard::navigated;
use crate::tui::format::next_default_workspace_name;
use crate::tui::messages::AppAction;

verus! {

/// `b` is `a` with a fresh setup wizard (seeded with `path`) opened.
pub open spec fn opens_wizard(a: App, path: Seq<char>, b: App) -> bool {
    &&& b.setup_state matches Some(s) && is_initial_state(s, path, false)
    &&& navigated(App { setup_state: b.setup_state, ..a }, Screen::WorkspaceSetup, b)
}

/// Opens a fresh setup wizard seeded with `default_setup_path`.
pub fn open_wizard(app: &mut App, default_setup_path: &str)
    ensures
        opens_wizard(*old(app), default_setup_path@, *final(app)),
{
    app.setup_state = Some(SetupState::new(default_setup_path));
    app.navigate_to(Screen::WorkspaceSetup);
}

/// `a` with the workspace list moved to entry `i` (details collapsed).
pub open spec fn at_entry(a: App, i: int) -> App {
    App { workspace_index: i as usize, settings_config_expanded: false, workspace_detail_scroll: 0, ..a }
}

/// Down: scrolls the open details, or moves down the list (wrapping).
pub open spec fn ws_down(a: App, b: App) -> bool {
    let total: int = a.workspaces@.len() as int + 1;
    if a.workspace_pane == WorkspacePane::Right && a.settings_config_expanded {
        b == (App {
            workspace_detail_scroll: if a.workspace_detail_scroll < usize::MAX {
                (a.workspace_detail_scroll + 1) as usize
            } else {
                a.workspace_detail_scroll
            },
            ..a
        })
    } else if a.workspace_pane == WorkspacePane::Left {
        b == at_entry(a, (a.workspace_index + 1) % total)
    } else {
        b == a
    }
}

/// Up: scrolls the open details back, or moves up the list (wrapping).
pub open spec fn ws_up(a: App, b: App) -> bool {
    let total: int = a.workspaces@.len() as int + 1;
    if a.workspace_pane == WorkspacePane::Right && a.settings_config_expanded {
        b == (App {
            workspace_detail_scroll: if a.workspace_detail_scroll > 0 {
                (a.workspace_detail_scroll - 1) as usize
            } else {
                0
            },
            ..a
        })
    } else if a.workspace_pane == WorkspacePane::Left {
        b == at_entry(a, (a.workspace_index + total - 1) % total)
    } else {
        b == a
    }
}

/// Enter: opens the selected workspace on the dashboard (asking to load its
/// sync history), or the setup wizard on the "Create New Workspace" entry.
pub open spec fn ws_enter(a: App, path: Seq<char>, b: App, act: Option<AppAction>) -> bool {
    if a.workspace_index < a.workspaces@.len() {
        let w = a.workspaces@[a.workspace_index as int];
        &&& b.active_workspace matches Some(v) && crate::config::same_workspace(v, w)
        &&& b.base_path matches Some(p) && is_tilde_expansion(w.base_path@, p@)
        &&& b.screen == Screen::Dashboard
        &&& b.screen_stack@.len() == 0
        &&& b.sync_history@.len() == 0
        &&& b.repos_by_org@.len() == 0
        &&& b.all_repos@.len() == 0
        &&& b.orgs@.len() == 0
        &&& b.local_repos@.len() == 0
        &&& b == (App {
            active_workspace: b.active_workspace,
            base_path: b.base_path,
            screen: Screen::Dashboard,
            screen_stack: b.screen_stack,
            sync_history: b.sync_history,
            repos_by_org: b.repos_by_org,
            all_repos: b.all_repos,
            orgs: b.orgs,
            local_repos: b.local_repos,
            last_status_scan: None,
            ..a
        })
        &&& act matches Some(AppAction::LoadSyncHistory(name)) && name@ == w.name@
    } else {
        opens_wizard(a, path, b) && act is None
    }
}

/// Character keys: c(onfig details), n(ew workspace), d(efault), f(older).
pub open spec fn ws_char(a: App, c: char, path: Seq<char>, b: App, act: Option<AppAction>) -> bool {
    let on_ws = a.workspace_index < a.workspaces@.len();
    if c == 'c' && on_ws {
        act is None && b == (App {
            workspace_pane: WorkspacePane::Right,
            settings_config_expanded: !a.settings_config_expanded,
            workspace_detail_scroll: 0,
            ..a
        })
    } else if c == 'n' {
        opens_wizard(a, path, b) && act is None
    } else if c == 'd' && on_ws {
        let w = a.workspaces@[a.workspace_index as int];
        &&& b == a
        &&& if a.config.default_workspace matches Some(d) && d@ == w.name@ {
            act is None
        } else {
            act matches Some(AppAction::SaveDefaultWorkspace(Some(name))) && name@ == w.name@
        }
    } else if c == 'f' && on_ws {
        let w = a.workspaces@[a.workspace_index as int];
        b == a && (act matches Some(AppAction::OpenFolder(p)) && is_tilde_expansion(w.base_path@, p@))
    } else {
        b == a && act is None
    }
}

/// The workspaces screen's response to key `k` (the list has an entry per
/// workspace plus "Create New Workspace" at the end, and moving wraps
/// around).
pub open spec fn workspaces_key(a: App, k: KeyInput, path: Seq<char>, b: App, act: Option<AppAction>) -> bool {
    match k.code {
        KeyCode::Left => b == (App { workspace_pane: WorkspacePane::Left, ..a }) && act is None,
        KeyCode::Right => b == (App { workspace_pane: WorkspacePane::Right, ..a }) && act is None,
        KeyCode::Tab => act is None && b == (App {
            workspace_pane: if a.workspace_pane == WorkspacePane::Left {
                WorkspacePane::Right
            } else {
                WorkspacePane::Left
            },
            ..a
        }),
        KeyCode::Down => ws_down(a, b) && act is None,
        KeyCode::Up => ws_up(a, b) && act is None,
        KeyCode::Enter => ws_enter(a, path, b, act),
        KeyCode::Char(c) => ws_char(a, c, path, b, act),
        _ => b == a && act is None,
    }
}

fn move_down(app: &mut App)
    ensures
        ws_down(*old(app), *final(app)),
{
    if app.workspace_pane == WorkspacePane::Right && app.settings_config_expanded {
        if app.workspace_detail_scroll < usize::MAX {
            app.workspace_detail_scroll = app.workspace_detail_scroll + 1;
        }
    } else if app.workspace_pane == WorkspacePane::Left {
        let total: u128 = app.workspaces.len() as u128 + 1;
        let next = ((app.workspace_index as u128 + 1) % total) as usize;
        app.workspace_index = next;
        app.settings_config_expanded = false;
        app.workspace_detail_scroll = 0;
    }
}

fn move_up(app: &mut App)
    ensures
        ws_up(*old(app), *final(app)),
{
    if app.workspace_pane == WorkspacePane::Right && app.settings_config_expanded {
        app.workspace_detail_scroll = if app.workspace_detail_scroll > 0 {
            app.workspace_detail_scroll - 1
        } else {
            0
        };
    } else if app.workspace_pane == WorkspacePane::Left {
        let total: u128 = app.workspaces.len() as u128 + 1;
        let next = ((app.workspace_index as u128 + total - 1) % total) as usize;
        app.workspace_index = next;
        app.settings_config_expanded = false;
        app.workspace_detail_scroll = 0;
    }
}

fn select_entry(app: &mut App) -> (act: Option<AppAction>)
    requires
        old(app).workspace_index < old(app).workspaces@.len(),
    ensures
        ws_enter(*old(app), Seq::empty(), *final(app), act),
{
    let i = app.workspace_index;
    let name = app.workspaces[i].name.clone();
    app.select_workspace(i, Vec::new());
    app.screen = Screen::Dashboard;
    app.screen_stack = Vec::new();
    Some(AppAction::LoadSyncHistory(name))
}

fn char_key(app: &mut App, c: char, default_setup_path: &str) -> (act: Option<AppAction>)
    ensures
        ws_char(*old(app), c, default_setup_path@, *final(app), act),
{
    let on_ws = app.workspace_index < app.workspaces.len();
    if c == 'c' && on_ws {
        app.workspace_pane = WorkspacePane::Right;
        app.settings_config_expanded = !app.settings_config_expanded;
        app.workspace_detail_scroll = 0;
        None
    } else if c == 'n' {
        open_wizard(app, default_setup_path);
        None
    } else if c == 'd' && on_ws {
        let current = match &app.config.default_workspace {
            Some(d) => Some(d.as_str()),
            None => None,
        };
        match next_default_workspace_name(current, app.workspaces[app.workspace_index].name.as_str()) {
            Some(name) => Some(AppAction::SaveDefaultWorkspace(Some(name))),
            None => None,
        }
    } else if c == 'f' && on_ws {
        Some(AppAction::OpenFolder(app.workspaces[app.workspace_index].expanded_base_path()))
    } else {
        None
    }
}

/// Applies a key press on the workspaces screen; `default_setup_path`
/// seeds a new setup wizard.
pub fn handle_key(app: &mut App, key: KeyInput, default_setup_path: &str) -> (act: Option<AppAction>)
    ensures
        workspaces_key(*old(app), key, default_setup_path@, *final(app), act),
{
    match key.code {
        KeyCode::Left => {
            app.workspace_pane = WorkspacePane::Left;
            None
        },
        KeyCode::Right => {
            app.workspace_pane = WorkspacePane::Right;
            None
        },
        KeyCode::Tab => {
            app.workspace_pane = if app.workspace_pane == WorkspacePane::Left {
                WorkspacePane::Right
            } else {
                WorkspacePane::Left
            };
            None
        },
        KeyCode::Down => {
            move_down(app);
            None
        },
        KeyCode::Up => {
            move_up(app);
            None
        },
        KeyCode::Enter => {
            if app.workspace_index < app.workspaces.len() {
                select_entry(app)
            } else {
                open_wizard(app, default_setup_path);
                None
            }
        },
        KeyCode::Char(c) => char_key(app, c, default_setup_path),
        _ => None,
    }
}

/// The facts shown in a workspace's detail pane.
#[derive(Debug, Clone)]
pub struct WorkspaceFacts {
    /// The workspace is the active one.
    pub active: bool,
    /// The workspace is the default one.
    pub default: bool,
    /// Its sync mode, marked when it is the global default.
    pub sync_mode: String,
    /// Its concurrency, marked when it is the global default.
    pub concurrency: String,
    /// Its user name, or a dash when there is none.
    pub username: String,
}

/// The detail facts of workspace `ws` in app `a`.
pub open spec fn is_workspace_facts(a: App, ws: WorkspaceConfig, f: WorkspaceFacts) -> bool {
    &&& f.active == (a.active_workspace matches Some(w) && w.name@ == ws.name@)
    &&& f.default == (a.config.default_workspace matches Some(d) && d@ == ws.name@)
    &&& f.sync_mode@ == match ws.sync_mode {
        Some(m) => spec_sync_mode_name(m),
        None => spec_sync_mode_name(a.config.sync_mode) + " (global default)"@,
    }
    &&& f.concurrency@ == match ws.concurrency {
        Some(c) => spec_decimal(c as nat),
        None => spec_decimal(a.config.concurrency as nat) + " (global default)"@,
    }
    &&& f.username@ == if ws.username@.len() == 0 { "\u{2014}"@ } else { ws.username@ }
}

/// The facts shown in the detail pane of workspace `ws`.
pub fn workspace_facts(app: &App, ws: &WorkspaceConfig) -> (f: WorkspaceFacts)
    ensures
        is_workspace_facts(*app, *ws, f),
{
    let active = match &app.active_workspace {
        Some(w) => str_eq(w.name.as_str(), ws.name.as_str()),
        None => false,
    };
    let default = match &app.config.default_workspace {
        Some(d) => str_eq(d.as_str(), ws.name.as_str()),
        None => false,
    };
    let sync_mode = match ws.sync_mode {
        Some(m) => owned(sync_mode_name(m)),
        None => concat_str(sync_mode_name(app.config.sync_mode), " (global default)"),
    };
    let concurrency = match ws.concurrency {
        Some(c) => decimal_string(c as u64),
        None => concat_str(decimal_string(app.config.concurrency as u64).as_str(), " (global default)"),
    };
    let username = if ws.username.as_str().is_empty() {
        owned("\u{2014}")
    } else {
        ws.username.clone()
    };
    WorkspaceFacts { active, default, sync_mode, concurrency, username }
}

} // verus!
