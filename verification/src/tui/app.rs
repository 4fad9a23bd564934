//! TUI application state (the "Model" in Elm architecture).

use vstd::prelude::*;
use crate::config::{same_workspace, Config, WorkspaceConfig, is_tilde_expansion};
use crate::setup::state::{is_initial_state, SetupState};
use crate::text::{opt_view, str_eq};
use crate::types::{OpSummary, OwnedRepo, RepoEntry, SyncHistoryEntry};

verus! {

/// Which screen is active.
#[derive(Debug, Clone, Copy, PartialEq, Eq, Structural)]
pub enum Screen {
    SystemCheck,
    WorkspaceSetup,
    Workspaces,
    Dashboard,
    Sync,
    Settings,
}

/// Which operation is running or was last selected.
#[derive(Debug, Clone, Copy, PartialEq, Eq, Structural)]
pub enum Operation {
    Sync,
    Status,
}

/// The name of an operation as shown to the user.
pub open spec fn spec_operation_label(op: Operation) -> Seq<char> {
    match op {
        Operation::Sync => "Sync"@,
        Operation::Status => "Status"@,
    }
}

impl Operation {
    /// The name of the operation as shown to the user.
    pub fn label(&self) -> (r: &'static str)
        ensures
            r@ == spec_operation_label(*self),
    {
        match self {
            Operation::Sync => "Sync",
            Operation::Status => "Status",
        }
    }
}

/// Counters of an operation in its running phase.
#[derive(Debug, Clone)]
pub struct RunState {
    pub operation: Operation,
    pub total: usize,
    pub completed: usize,
    pub failed: usize,
    pub skipped: usize,
    pub current_repo: String,
    /// Repos that had new commits (updated or cloned).
    pub with_updates: usize,
    /// New repos cloned so far.
    pub cloned: usize,
    /// Existing repos synced so far.
    pub synced: usize,
    /// Planned clone count (for phase indicator).
    pub to_clone: usize,
    /// Planned sync count (for phase indicator).
    pub to_sync: usize,
    /// Aggregate new commits fetched.
    pub total_new_commits: u32,
    /// When the operation started, in milliseconds since the Unix epoch.
    pub started_at_ms: u64,
    /// Repos currently being processed (for worker slots).
    pub active_repos: Vec<String>,
    /// Throughput samples (repos completed per sampling window).
    pub throughput_samples: Vec<u64>,
    /// Completed count at last throughput sample.
    pub last_sample_completed: usize,
}

/// What a finished operation achieved.
#[derive(Debug, Clone)]
pub struct FinishState {
    pub operation: Operation,
    pub summary: OpSummary,
    /// Repos that had new commits.
    pub with_updates: usize,
    /// New repos cloned.
    pub cloned: usize,
    /// Existing repos synced.
    pub synced: usize,
    /// Aggregate new commits fetched.
    pub total_new_commits: u32,
    /// Wall-clock duration in milliseconds.
    pub duration_ms: u64,
}

/// State of an ongoing async operation.
#[derive(Debug, Clone)]
pub enum OperationState {
    Idle,
    Discovering { operation: Operation, message: String },
    Running(RunState),
    Finished(FinishState),
}

/// Status classification for a sync log entry.
#[derive(Debug, Clone, Copy, PartialEq, Eq, Structural)]
pub enum SyncLogStatus {
    Success,
    Updated,
    Cloned,
    Failed,
    Skipped,
}

/// A structured log entry from a sync operation.
#[derive(Debug, Clone)]
pub struct SyncLogEntry {
    pub repo_name: String,
    pub status: SyncLogStatus,
    pub message: String,
    pub had_updates: bool,
    pub is_clone: bool,
    pub new_commits: Option<u32>,
    /// Where the repository lives on disk, when a workspace is active.
    pub path: Option<String>,
}

/// Filter for post-sync log view.
#[derive(Debug, Clone, Copy, PartialEq, Eq, Structural)]
pub enum LogFilter {
    All,
    Updated,
    Failed,
    Skipped,
    Changelog,
}

/// A requirement check result for the system check screen.
#[derive(Debug, Clone)]
pub struct CheckEntry {
    pub name: String,
    pub passed: bool,
    pub message: String,
    pub suggestion: Option<String>,
    pub critical: bool,
}

/// Which pane of the workspaces screen has the focus.
#[derive(Debug, Clone, Copy, PartialEq, Eq, Structural)]
pub enum WorkspacePane {
    Left,
    Right,
}

/// The application model (all TUI state).
pub struct App {
    /// Whether the user has requested quit.
    pub should_quit: bool,
    /// Active screen.
    pub screen: Screen,
    /// Screen history for back navigation.
    pub screen_stack: Vec<Screen>,
    /// Loaded configuration.
    pub config: Config,
    /// Available workspaces.
    pub workspaces: Vec<WorkspaceConfig>,
    /// Active workspace (selected or auto-selected).
    pub active_workspace: Option<WorkspaceConfig>,
    /// Selected index in the workspaces screen.
    pub workspace_index: usize,
    /// Which pane of the workspaces screen has the focus.
    pub workspace_pane: WorkspacePane,
    /// Scroll offset of the workspace detail pane.
    pub workspace_detail_scroll: usize,
    /// Base path for repos (derived from active workspace, `~` expanded).
    pub base_path: Option<String>,
    /// Discovered repos grouped by org, ordered by org name.
    pub repos_by_org: Vec<(String, Vec<OwnedRepo>)>,
    /// All discovered repos (flat list).
    pub all_repos: Vec<OwnedRepo>,
    /// Org names (sorted).
    pub orgs: Vec<String>,
    /// Selected org index in the org browser.
    pub org_index: usize,
    /// Local repo entries with status.
    pub local_repos: Vec<RepoEntry>,
    /// Current async operation state.
    pub operation_state: OperationState,
    /// Operation log lines (last events).
    pub log_lines: Vec<String>,
    /// Selected repo index in current view.
    pub repo_index: usize,
    /// Scroll offset for tables and the running log.
    pub scroll_offset: usize,
    /// Filter/search text.
    pub filter_text: String,
    /// Whether filter input is active.
    pub filter_active: bool,
    /// Whether dry-run is toggled.
    pub dry_run: bool,
    /// Error message to display (clears on next keypress).
    pub error_message: Option<String>,
    /// Requirement check results.
    pub check_results: Vec<CheckEntry>,
    /// Whether checks are still running.
    pub checks_loading: bool,
    /// Whether to use pull mode for sync (vs fetch).
    pub sync_pull: bool,
    /// Setup wizard state (active on the WorkspaceSetup screen).
    pub setup_state: Option<SetupState>,
    /// Whether the config file was created by init.
    pub config_created: bool,
    /// Path where config was written (for display).
    pub config_path_display: Option<String>,
    /// Whether a status scan is in progress.
    pub status_loading: bool,
    /// When the last status scan completed, in milliseconds of a monotonic clock.
    pub last_status_scan: Option<u64>,
    /// Selected stat box (tab) on the dashboard, 0 to 5.
    pub stat_index: usize,
    /// Selected row of the dashboard tab content.
    pub dashboard_selected: Option<usize>,
    /// Selected item in the settings screen.
    pub settings_index: usize,
    /// Whether the config section is expanded in the workspace detail.
    pub settings_config_expanded: bool,
    /// Tick counter for driving animations.
    pub tick_count: u64,
    /// Structured sync log entries.
    pub sync_log_entries: Vec<SyncLogEntry>,
    /// Active log filter for the post-sync view.
    pub log_filter: LogFilter,
    /// Sync history (last summaries, oldest first).
    pub sync_history: Vec<SyncHistoryEntry>,
    /// Whether the sync history overlay is visible.
    pub show_sync_history: bool,
    /// Expanded repo in the post-sync view (commit deep dive).
    pub expanded_repo: Option<String>,
    /// Commit log for the expanded repo.
    pub repo_commits: Vec<String>,
    /// Selected index in the post-sync filterable log.
    pub sync_log_index: usize,
    /// Commit logs gathered for the changelog view, by repo name.
    pub changelog_commits: Vec<(String, Vec<String>)>,
    /// Number of repos whose commit logs the changelog waits for.
    pub changelog_total: usize,
    /// Number of commit logs received for the changelog.
    pub changelog_loaded: usize,
    /// Scroll offset of the changelog view.
    pub changelog_scroll: usize,
}

/// `i` is the first workspace named `name`.
pub open spec fn is_first_named(ws: Seq<WorkspaceConfig>, name: Seq<char>, i: int) -> bool {
    &&& 0 <= i < ws.len()
    &&& ws[i].name@ == name
    &&& forall|j: int| 0 <= j < i ==> ws[j].name@ != name
}

/// No workspace is named `name`.
pub open spec fn none_named(ws: Seq<WorkspaceConfig>, name: Seq<char>) -> bool {
    forall|j: int| 0 <= j < ws.len() ==> ws[j].name@ != name
}

/// The workspace that a fresh app opens: the only one, or else the first one
/// named as the configured default; `None` when the user has to choose.
pub open spec fn opens_workspace(config: Config, ws: Seq<WorkspaceConfig>, i: Option<int>) -> bool {
    if ws.len() == 0 {
        i is None
    } else if ws.len() == 1 {
        i == Some(0int)
    } else {
        match config.default_workspace {
            Some(name) => match i {
                Some(k) => is_first_named(ws, name@, k),
                None => none_named(ws, name@),
            },
            None => i is None,
        }
    }
}

/// Everything a fresh app holds besides its screen, workspace and wizard.
pub open spec fn is_fresh(a: App) -> bool {
    &&& !a.should_quit
    &&& a.screen_stack@.len() == 0
    &&& a.workspace_index == 0
    &&& a.workspace_pane == WorkspacePane::Left
    &&& a.workspace_detail_scroll == 0
    &&& a.repos_by_org@.len() == 0
    &&& a.all_repos@.len() == 0
    &&& a.orgs@.len() == 0
    &&& a.org_index == 0
    &&& a.local_repos@.len() == 0
    &&& a.operation_state is Idle
    &&& a.log_lines@.len() == 0
    &&& a.repo_index == 0
    &&& a.scroll_offset == 0
    &&& a.filter_text@.len() == 0
    &&& !a.filter_active
    &&& !a.dry_run
    &&& a.error_message is None
    &&& a.check_results@.len() == 0
    &&& !a.checks_loading
    &&& !a.sync_pull
    &&& !a.config_created
    &&& a.config_path_display is None
    &&& !a.status_loading
    &&& a.last_status_scan is None
    &&& a.stat_index == 0
    &&& a.dashboard_selected == Some(0usize)
    &&& a.settings_index == 0
    &&& !a.settings_config_expanded
    &&& a.tick_count == 0
    &&& a.sync_log_entries@.len() == 0
    &&& a.log_filter == LogFilter::All
    &&& a.sync_history@.len() == 0
    &&& !a.show_sync_history
    &&& a.expanded_repo is None
    &&& a.repo_commits@.len() == 0
    &&& a.sync_log_index == 0
    &&& a.changelog_commits@.len() == 0
    &&& a.changelog_total == 0
    &&& a.changelog_loaded == 0
    &&& a.changelog_scroll == 0
}

/// `a` shows workspace `ws` on the dashboard.
pub open spec fn shows_workspace(a: App, ws: WorkspaceConfig) -> bool {
    &&& a.screen == Screen::Dashboard
    &&& a.active_workspace matches Some(w) && same_workspace(w, ws)
    &&& a.base_path matches Some(b) && is_tilde_expansion(ws.base_path@, b@)
    &&& a.setup_state is None
}

impl App {
    /// Create a new app. With no workspace it opens the setup wizard (seeded
    /// with `default_setup_path`); with one it opens that workspace's
    /// dashboard; with several it opens the configured default workspace,
    /// or the workspace list when there is no valid default. The sync
    /// history starts empty: the caller loads it for the opened workspace.
    pub fn new(config: Config, workspaces: Vec<WorkspaceConfig>, default_setup_path: &str) -> (r: App)
        ensures
            is_fresh(r),
            r.config == config,
            r.workspaces@ == workspaces@,
            exists|i: Option<int>| {
                &&& opens_workspace(config, workspaces@, i)
                &&& match i {
                    Some(k) => shows_workspace(r, workspaces@[k]),
                    None => {
                        &&& r.active_workspace is None
                        &&& r.base_path is None
                        &&& if workspaces@.len() == 0 {
                            &&& r.screen == Screen::WorkspaceSetup
                            &&& r.setup_state matches Some(s) && is_initial_state(s, default_setup_path@, false)
                        } else {
                            &&& r.screen == Screen::Workspaces
                            &&& r.setup_state is None
                        }
                    },
                }
            },
    {
        let mut chosen: Option<usize> = None;
        if workspaces.len() == 1 {
            chosen = Some(0);
        } else if workspaces.len() > 1 {
            match &config.default_workspace {
                Some(name) => {
                    let mut i: usize = 0;
                    let mut found = false;
                    while i < workspaces.len() && !found
                        invariant
                            0 <= i <= workspaces@.len(),
                            !found ==> forall|j: int| 0 <= j < i ==> workspaces@[j].name@ != name@,
                            found ==> is_first_named(workspaces@, name@, i as int),
                        decreases workspaces@.len() - i + (if found { 0int } else { 1int }),
                    {
                        if str_eq(workspaces[i].name.as_str(), name.as_str()) {
                            found = true;
                        } else {
                            i = i + 1;
                        }
                    }
                    if found {
                        chosen = Some(i);
                    }
                },
                None => {},
            }
        }
        let ghost gi: Option<int> = match chosen {
            Some(k) => Some(k as int),
            None => None,
        };
        let (screen, active_workspace, base_path, setup_state) = match chosen {
            Some(k) => {
                let ws = workspaces[k].copy();
                let bp = ws.expanded_base_path();
                (Screen::Dashboard, Some(ws), Some(bp), None)
            },
            None => {
                if workspaces.len() == 0 {
                    (Screen::WorkspaceSetup, None, None, Some(SetupState::new(default_setup_path)))
                } else {
                    (Screen::Workspaces, None, None, None)
                }
            },
        };
        let r = App {
            should_quit: false,
            screen,
            screen_stack: Vec::new(),
            config,
            workspaces,
            active_workspace,
            workspace_index: 0,
            workspace_pane: WorkspacePane::Left,
            workspace_detail_scroll: 0,
            base_path,
            repos_by_org: Vec::new(),
            all_repos: Vec::new(),
            orgs: Vec::new(),
            org_index: 0,
            local_repos: Vec::new(),
            operation_state: OperationState::Idle,
            log_lines: Vec::new(),
            repo_index: 0,
            scroll_offset: 0,
            filter_text: String::new(),
            filter_active: false,
            dry_run: false,
            error_message: None,
            check_results: Vec::new(),
            checks_loading: false,
            sync_pull: false,
            setup_state,
            config_created: false,
            config_path_display: None,
            status_loading: false,
            last_status_scan: None,
            stat_index: 0,
            dashboard_selected: Some(0),
            settings_index: 0,
            settings_config_expanded: false,
            tick_count: 0,
            sync_log_entries: Vec::new(),
            log_filter: LogFilter::All,
            sync_history: Vec::new(),
            show_sync_history: false,
            expanded_repo: None,
            repo_commits: Vec::new(),
            sync_log_index: 0,
            changelog_commits: Vec::new(),
            changelog_total: 0,
            changelog_loaded: 0,
            changelog_scroll: 0,
        };
        assert(opens_workspace(r.config, r.workspaces@, gi));
        r
    }

    /// Select workspace `index` (when it exists): make it active, install
    /// its sync `history` and forget the data discovered for the previous
    /// workspace. The screen is not changed.
    pub fn select_workspace(&mut self, index: usize, history: Vec<SyncHistoryEntry>)
        ensures
            index < old(self).workspaces@.len() ==> {
                &&& final(self).active_workspace matches Some(w)
                    && same_workspace(w, old(self).workspaces@[index as int])
                &&& final(self).base_path matches Some(b)
                    && is_tilde_expansion(old(self).workspaces@[index as int].base_path@, b@)
                &&& final(self).sync_history@ == history@
                &&& final(self).repos_by_org@.len() == 0
                &&& final(self).all_repos@.len() == 0
                &&& final(self).orgs@.len() == 0
                &&& final(self).local_repos@.len() == 0
                &&& final(self).last_status_scan is None
                &&& *final(self) == (App {
                    active_workspace: final(self).active_workspace,
                    base_path: final(self).base_path,
                    sync_history: final(self).sync_history,
                    repos_by_org: final(self).repos_by_org,
                    all_repos: final(self).all_repos,
                    orgs: final(self).orgs,
                    local_repos: final(self).local_repos,
                    last_status_scan: None,
                    ..*old(self)
                })
            },
            index >= old(self).workspaces@.len() ==> *final(self) == *old(self),
    {
        if index < self.workspaces.len() {
            let ws = self.workspaces[index].copy();
            self.base_path = Some(ws.expanded_base_path());
            self.sync_history = history;
            self.active_workspace = Some(ws);
            self.repos_by_org = Vec::new();
            self.all_repos = Vec::new();
            self.orgs = Vec::new();
            self.local_repos = Vec::new();
            self.last_status_scan = None;
        }
    }

    /// After the wizard saved a workspace: the reloaded `workspaces` replace
    /// the list, and the first of them (when there is one) becomes active
    /// with its sync `history`.
    pub fn apply_reloaded_workspaces(&mut self, workspaces: Vec<WorkspaceConfig>, history: Vec<SyncHistoryEntry>)
        ensures
            final(self).workspaces@ == workspaces@,
            workspaces@.len() > 0 ==> {
                &&& final(self).active_workspace matches Some(w) && same_workspace(w, workspaces@[0])
                &&& final(self).base_path matches Some(b) && is_tilde_expansion(workspaces@[0].base_path@, b@)
                &&& final(self).sync_history@ == history@
                &&& *final(self) == (App {
                    workspaces: final(self).workspaces,
                    active_workspace: final(self).active_workspace,
                    base_path: final(self).base_path,
                    sync_history: final(self).sync_history,
                    ..*old(self)
                })
            },
            workspaces@.len() == 0 ==> *final(self) == (App { workspaces: final(self).workspaces, ..*old(self) }),
    {
        if workspaces.len() > 0 {
            let ws = workspaces[0].copy();
            self.base_path = Some(ws.expanded_base_path());
            self.sync_history = history;
            self.active_workspace = Some(ws);
        }
        self.workspaces = workspaces;
    }

    /// Navigate to a new screen, pushing the current one onto the stack.
    pub fn navigate_to(&mut self, screen: Screen)
        ensures
            final(self).screen == screen,
            final(self).screen_stack@ == old(self).screen_stack@.push(old(self).screen),
            final(self).repo_index == 0,
            final(self).scroll_offset == 0,
            *final(self) == (App {
                screen,
                screen_stack: final(self).screen_stack,
                repo_index: 0,
                scroll_offset: 0,
                ..*old(self)
            }),
    {
        let current = self.screen;
        self.screen_stack.push(current);
        self.screen = screen;
        self.repo_index = 0;
        self.scroll_offset = 0;
    }

    /// Go back to the previous screen, if there is one.
    pub fn go_back(&mut self)
        ensures
            old(self).screen_stack@.len() == 0 ==> *final(self) == *old(self),
            old(self).screen_stack@.len() > 0 ==> {
                &&& final(self).screen == old(self).screen_stack@.last()
                &&& final(self).screen_stack@ == old(self).screen_stack@.drop_last()
                &&& *final(self) == (App {
                    screen: final(self).screen,
                    screen_stack: final(self).screen_stack,
                    ..*old(self)
                })
            },
    {
        if self.screen_stack.len() > 0 {
            let prev = self.screen_stack.pop().unwrap();
            self.screen = prev;
        }
    }
}

} // verus!
