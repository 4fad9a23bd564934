//! Setup wizard state (the "Model" in Elm architecture).

use vstd::prelude::*;
use crate::checks::CheckResult;
use crate::config::WorkspaceProvider;
use crate::text::{byte_len, owned, str_byte_len};
use crate::types::provider::{spec_all_providers, ProviderKind};

verus! {

/// Which step of the wizard is active.
#[derive(Debug, Clone, Copy, PartialEq, Eq, Structural)]
pub enum SetupStep {
    /// Step 1: System requirements check.
    Requirements,
    /// Step 2: Select a provider.
    SelectProvider,
    /// Step 3: Authenticate and detect username.
    Authenticate,
    /// Step 4: Discover and select organizations.
    SelectOrgs,
    /// Step 5: Enter the base path.
    SelectPath,
    /// Step 6: Review and save.
    Confirm,
    /// Success / completion screen.
    Complete,
}

/// An organization entry in the org selector.
#[derive(Debug, Clone)]
pub struct OrgEntry {
    pub name: String,
    pub repo_count: usize,
    pub selected: bool,
}

/// The outcome of the setup wizard.
#[derive(Debug, Clone, Copy, PartialEq, Eq, Structural)]
pub enum SetupOutcome {
    /// User completed the wizard.
    Completed,
    /// User cancelled.
    Cancelled,
}

/// One of the provider choices shown in step 2.
#[derive(Debug, Clone)]
pub struct ProviderChoice {
    pub kind: ProviderKind,
    pub label: String,
    pub available: bool,
}

/// A suggested directory path for the path selector.
#[derive(Debug, Clone)]
pub struct PathSuggestion {
    pub path: String,
    pub label: String,
}

/// A selectable directory entry in the path navigator.
#[derive(Debug, Clone)]
pub struct PathBrowseEntry {
    pub label: String,
    pub path: String,
    pub depth: u16,
    pub expanded: bool,
    pub has_children: bool,
}

/// Authentication status during step 3.
#[derive(Debug, Clone, PartialEq, Eq)]
pub enum AuthStatus {
    /// Haven't checked yet.
    Pending,
    /// Currently checking.
    Checking,
    /// Authenticated successfully.
    Success,
    /// Authentication failed.
    Failed(String),
}

/// The wizard state (model).
pub struct SetupState {
    /// Current wizard step.
    pub step: SetupStep,
    /// Whether to quit the wizard.
    pub should_quit: bool,
    /// Outcome when done.
    pub outcome: Option<SetupOutcome>,
    // Step 1: Requirements check
    pub check_results: Vec<CheckResult>,
    pub checks_loading: bool,
    pub checks_triggered: bool,
    pub config_path_display: Option<String>,
    pub config_was_created: bool,
    // Step 2: Provider selection
    pub provider_choices: Vec<ProviderChoice>,
    pub provider_index: usize,
    // Step 3: Authentication
    pub auth_status: AuthStatus,
    pub username: Option<String>,
    pub auth_token: Option<String>,
    // Step 4: Org selection
    pub orgs: Vec<OrgEntry>,
    pub org_index: usize,
    pub org_loading: bool,
    pub org_discovery_in_progress: bool,
    pub org_error: Option<String>,
    // Step 5: Path
    pub base_path: String,
    pub path_cursor: usize,
    pub path_suggestions_mode: bool,
    pub path_suggestions: Vec<PathSuggestion>,
    pub path_suggestion_index: usize,
    pub path_completions: Vec<String>,
    pub path_completion_index: usize,
    pub path_browse_mode: bool,
    pub path_browse_current_dir: String,
    pub path_browse_entries: Vec<PathBrowseEntry>,
    pub path_browse_index: usize,
    pub path_browse_show_hidden: bool,
    pub path_browse_error: Option<String>,
    pub path_browse_info: Option<String>,
    // General
    pub error_message: Option<String>,
    /// Tick counter for spinner and animation effects.
    pub tick_count: u64,
    /// Whether this is the first workspace setup (controls UI text).
    pub is_first_setup: bool,
}


/// The label shown for a provider in step 2.
pub open spec fn spec_choice_label(k: ProviderKind) -> Seq<char> {
    match k {
        ProviderKind::GitHub => "GitHub"@,
        ProviderKind::GitHubEnterprise => "GitHub Enterprise (coming soon)"@,
        ProviderKind::GitLab => "GitLab (coming soon)"@,
        ProviderKind::GitLabSelfManaged => "GitLab Self-Managed (coming soon)"@,
        ProviderKind::Codeberg => "Codeberg.org (coming soon)"@,
        ProviderKind::Bitbucket => "Bitbucket.org (coming soon)"@,
    }
}

/// The provider choices offered in step 2: every provider in order; only
/// GitHub is available so far.
pub open spec fn is_default_provider_choices(c: Seq<ProviderChoice>) -> bool {
    &&& c.len() == spec_all_providers().len()
    &&& forall|i: int| 0 <= i < c.len() ==> {
        &&& (#[trigger] c[i]).kind == spec_all_providers()[i]
        &&& c[i].label@ == spec_choice_label(c[i].kind)
        &&& c[i].available == (c[i].kind == ProviderKind::GitHub)
    }
}

/// The state a fresh wizard starts in.
pub open spec fn is_initial_state(s: SetupState, base_path: Seq<char>, is_first_setup: bool) -> bool {
    &&& s.step == SetupStep::Requirements
    &&& !s.should_quit
    &&& s.outcome is None
    &&& s.check_results@.len() == 0
    &&& !s.checks_loading
    &&& !s.checks_triggered
    &&& s.config_path_display is None
    &&& !s.config_was_created
    &&& is_default_provider_choices(s.provider_choices@)
    &&& s.provider_index == 0
    &&& s.auth_status == AuthStatus::Pending
    &&& s.username is None
    &&& s.auth_token is None
    &&& s.orgs@.len() == 0
    &&& s.org_index == 0
    &&& !s.org_loading
    &&& !s.org_discovery_in_progress
    &&& s.org_error is None
    &&& s.base_path@ == base_path
    &&& s.path_cursor == byte_len(base_path)
    &&& !s.path_suggestions_mode
    &&& s.path_suggestions@.len() == 0
    &&& s.path_suggestion_index == 0
    &&& s.path_completions@.len() == 0
    &&& s.path_completion_index == 0
    &&& !s.path_browse_mode
    &&& s.path_browse_current_dir@.len() == 0
    &&& s.path_browse_entries@.len() == 0
    &&& s.path_browse_index == 0
    &&& !s.path_browse_show_hidden
    &&& s.path_browse_error is None
    &&& s.path_browse_info is None
    &&& s.error_message is None
    &&& s.tick_count == 0
    &&& s.is_first_setup == is_first_setup
}

/// The step that follows `s`; Complete stays Complete.
pub open spec fn spec_next_step(s: SetupStep) -> SetupStep {
    match s {
        SetupStep::Requirements => SetupStep::SelectProvider,
        SetupStep::SelectProvider => SetupStep::Authenticate,
        SetupStep::Authenticate => SetupStep::SelectOrgs,
        SetupStep::SelectOrgs => SetupStep::SelectPath,
        SetupStep::SelectPath => SetupStep::Confirm,
        SetupStep::Confirm => SetupStep::Complete,
        SetupStep::Complete => SetupStep::Complete,
    }
}

/// The step before `s`; Requirements stays Requirements.
pub open spec fn spec_prev_step(s: SetupStep) -> SetupStep {
    match s {
        SetupStep::Requirements => SetupStep::Requirements,
        SetupStep::SelectProvider => SetupStep::Requirements,
        SetupStep::Authenticate => SetupStep::SelectProvider,
        SetupStep::SelectOrgs => SetupStep::Authenticate,
        SetupStep::SelectPath => SetupStep::SelectOrgs,
        SetupStep::Confirm => SetupStep::SelectPath,
        SetupStep::Complete => SetupStep::Confirm,
    }
}

/// The 1-based step number shown to the user.
pub open spec fn spec_step_number(s: SetupStep) -> nat {
    match s {
        SetupStep::Requirements => 1,
        SetupStep::SelectProvider => 2,
        SetupStep::Authenticate => 3,
        SetupStep::SelectOrgs => 4,
        SetupStep::SelectPath => 5,
        SetupStep::Confirm => 6,
        SetupStep::Complete => 6,
    }
}

/// The requirement-check fields of `a` and `b` agree.
pub open spec fn same_requirements(a: SetupState, b: SetupState) -> bool {
    &&& a.check_results == b.check_results
    &&& a.checks_loading == b.checks_loading
    &&& a.checks_triggered == b.checks_triggered
    &&& a.config_path_display == b.config_path_display
    &&& a.config_was_created == b.config_was_created
}

/// The provider and authentication fields of `a` and `b` agree.
pub open spec fn same_provider_auth(a: SetupState, b: SetupState) -> bool {
    &&& a.provider_choices == b.provider_choices
    &&& a.provider_index == b.provider_index
    &&& a.auth_status == b.auth_status
    &&& a.username == b.username
    &&& a.auth_token == b.auth_token
}

/// The organization fields of `a` and `b` agree.
pub open spec fn same_orgs(a: SetupState, b: SetupState) -> bool {
    &&& a.orgs == b.orgs
    &&& a.org_index == b.org_index
    &&& a.org_loading == b.org_loading
    &&& a.org_discovery_in_progress == b.org_discovery_in_progress
    &&& a.org_error == b.org_error
}

/// The path-step fields of `a` and `b` agree.
pub open spec fn same_path(a: SetupState, b: SetupState) -> bool {
    &&& a.base_path == b.base_path
    &&& a.path_cursor == b.path_cursor
    &&& a.path_suggestions_mode == b.path_suggestions_mode
    &&& a.path_suggestions == b.path_suggestions
    &&& a.path_suggestion_index == b.path_suggestion_index
    &&& a.path_completions == b.path_completions
    &&& a.path_completion_index == b.path_completion_index
    &&& a.path_browse_mode == b.path_browse_mode
    &&& a.path_browse_current_dir == b.path_browse_current_dir
    &&& a.path_browse_entries == b.path_browse_entries
    &&& a.path_browse_index == b.path_browse_index
    &&& a.path_browse_show_hidden == b.path_browse_show_hidden
    &&& a.path_browse_error == b.path_browse_error
    &&& a.path_browse_info == b.path_browse_info
}

/// The step, quit flag, outcome and error of `a` and `b` agree.
pub open spec fn same_flow(a: SetupState, b: SetupState) -> bool {
    &&& a.step == b.step
    &&& a.should_quit == b.should_quit
    &&& a.outcome == b.outcome
    &&& a.error_message == b.error_message
}

/// The animation counter and first-setup flag of `a` and `b` agree.
pub open spec fn same_misc(a: SetupState, b: SetupState) -> bool {
    &&& a.tick_count == b.tick_count
    &&& a.is_first_setup == b.is_first_setup
}

/// `b` is `a` with the path step reset to show the single suggestion of
/// the current base path, every popup closed and the cursor at the end.
pub open spec fn is_path_reset(a: SetupState, b: SetupState) -> bool {
    &&& b.base_path == a.base_path
    &&& b.path_suggestions@.len() == 1
    &&& b.path_suggestions@[0].path@ == a.base_path@
    &&& b.path_suggestions@[0].label@ == "terminal folder"@
    &&& b.path_suggestion_index == 0
    &&& !b.path_suggestions_mode
    &&& !b.path_browse_mode
    &&& b.path_browse_current_dir@.len() == 0
    &&& b.path_browse_entries@.len() == 0
    &&& b.path_browse_index == 0
    &&& !b.path_browse_show_hidden
    &&& b.path_browse_error is None
    &&& b.path_browse_info is None
    &&& b.path_completions@.len() == 0
    &&& b.path_completion_index == 0
    &&& b.path_cursor == byte_len(a.base_path@)
}

/// The effect of `next_step` on the wizard state.
pub open spec fn is_next_step(a: SetupState, b: SetupState) -> bool {
    &&& b.step == spec_next_step(a.step)
    &&& b.error_message is None
    &&& same_requirements(a, b)
    &&& same_provider_auth(a, b)
    &&& same_misc(a, b)
    &&& if a.step == SetupStep::Complete {
        b.should_quit && b.outcome == Some(SetupOutcome::Completed)
    } else {
        b.should_quit == a.should_quit && b.outcome == a.outcome
    }
    &&& if a.step == SetupStep::Authenticate {
        &&& b.org_loading
        &&& !b.org_discovery_in_progress
        &&& b.orgs@.len() == 0
        &&& b.org_index == 0
        &&& b.org_error is None
    } else {
        same_orgs(a, b)
    }
    &&& if a.step == SetupStep::SelectOrgs {
        is_path_reset(a, b)
    } else {
        same_path(a, b)
    }
}

/// The effect of `prev_step` on the wizard state.
pub open spec fn is_prev_step(a: SetupState, b: SetupState) -> bool {
    &&& b.step == spec_prev_step(a.step)
    &&& b.error_message is None
    &&& same_requirements(a, b)
    &&& same_provider_auth(a, b)
    &&& same_orgs(a, b)
    &&& same_path(a, b)
    &&& same_misc(a, b)
    &&& if a.step == SetupStep::Requirements {
        b.should_quit && b.outcome == Some(SetupOutcome::Cancelled)
    } else {
        b.should_quit == a.should_quit && b.outcome == a.outcome
    }
}

/// Every critical check passed, and at least one check ran.
pub open spec fn spec_requirements_passed(checks: Seq<CheckResult>) -> bool {
    checks.len() > 0 && forall|i: int| 0 <= i < checks.len() && checks[i].critical ==> checks[i].passed
}

/// The names of the selected organizations, in list order.
pub open spec fn spec_selected_orgs(orgs: Seq<OrgEntry>) -> Seq<Seq<char>>
    decreases orgs.len(),
{
    if orgs.len() == 0 {
        Seq::empty()
    } else if orgs.last().selected {
        spec_selected_orgs(orgs.drop_last()).push(orgs.last().name@)
    } else {
        spec_selected_orgs(orgs.drop_last())
    }
}

fn choice(kind: ProviderKind, label: &str, available: bool) -> (r: ProviderChoice)
    ensures
        r.kind == kind,
        r.label@ == label@,
        r.available == available,
{
    ProviderChoice { kind, label: owned(label), available }
}

impl SetupState {
    /// Total number of numbered steps (excluding Complete).
    pub const TOTAL_STEPS: usize = 6;

    /// Create initial wizard state.
    pub fn new(default_base_path: &str) -> (r: SetupState)
        ensures
            is_initial_state(r, default_base_path@, false),
    {
        Self::with_first_setup(default_base_path, false)
    }

    /// Create wizard state, optionally marking it as first-time setup.
    pub fn with_first_setup(default_base_path: &str, is_first_setup: bool) -> (r: SetupState)
        ensures
            is_initial_state(r, default_base_path@, is_first_setup),
    {
        let mut provider_choices: Vec<ProviderChoice> = Vec::new();
        provider_choices.push(choice(ProviderKind::GitHub, "GitHub", true));
        provider_choices.push(choice(ProviderKind::GitHubEnterprise, "GitHub Enterprise (coming soon)", false));
        provider_choices.push(choice(ProviderKind::GitLab, "GitLab (coming soon)", false));
        provider_choices.push(choice(ProviderKind::GitLabSelfManaged, "GitLab Self-Managed (coming soon)", false));
        provider_choices.push(choice(ProviderKind::Codeberg, "Codeberg.org (coming soon)", false));
        provider_choices.push(choice(ProviderKind::Bitbucket, "Bitbucket.org (coming soon)", false));
        assert(is_default_provider_choices(provider_choices@));
        let base_path = owned(default_base_path);
        let path_cursor = str_byte_len(default_base_path);
        SetupState {
            step: SetupStep::Requirements,
            should_quit: false,
            outcome: None,
            check_results: Vec::new(),
            checks_loading: false,
            checks_triggered: false,
            config_path_display: None,
            config_was_created: false,
            provider_choices,
            provider_index: 0,
            auth_status: AuthStatus::Pending,
            username: None,
            auth_token: None,
            orgs: Vec::new(),
            org_index: 0,
            org_loading: false,
            org_discovery_in_progress: false,
            org_error: None,
            base_path,
            path_cursor,
            path_suggestions_mode: false,
            path_suggestions: Vec::new(),
            path_suggestion_index: 0,
            path_completions: Vec::new(),
            path_completion_index: 0,
            path_browse_mode: false,
            path_browse_current_dir: String::new(),
            path_browse_entries: Vec::new(),
            path_browse_index: 0,
            path_browse_show_hidden: false,
            path_browse_error: None,
            path_browse_info: None,
            error_message: None,
            tick_count: 0,
            is_first_setup,
        }
    }

    /// Get the selected provider kind.
    pub fn selected_provider(&self) -> (r: ProviderKind)
        requires
            self.provider_index < self.provider_choices@.len(),
        ensures
            r == self.provider_choices@[self.provider_index as int].kind,
    {
        self.provider_choices[self.provider_index].kind
    }

    /// Build the workspace provider for the selected provider (default URL).
    pub fn build_workspace_provider(&self) -> (r: WorkspaceProvider)
        requires
            self.provider_index < self.provider_choices@.len(),
        ensures
            r.kind == self.provider_choices@[self.provider_index as int].kind,
            r.api_url is None,
    {
        WorkspaceProvider { kind: self.selected_provider(), api_url: None }
    }

    /// Get selected org names, in list order.
    pub fn selected_orgs(&self) -> (r: Vec<String>)
        ensures
            r@.map_values(|s: String| s@) == spec_selected_orgs(self.orgs@),
    {
        let mut r: Vec<String> = Vec::new();
        let mut i: usize = 0;
        while i < self.orgs.len()
            invariant
                0 <= i <= self.orgs@.len(),
                r@.map_values(|s: String| s@) == spec_selected_orgs(self.orgs@.take(i as int)),
            decreases self.orgs@.len() - i,
        {
            assert(self.orgs@.take(i + 1).drop_last() =~= self.orgs@.take(i as int));
            if self.orgs[i].selected {
                r.push(self.orgs[i].name.clone());
                assert(r@.map_values(|s: String| s@) =~= spec_selected_orgs(self.orgs@.take(i as int)).push(self.orgs@[i as int].name@));
            }
            i = i + 1;
        }
        assert(self.orgs@.take(self.orgs@.len() as int) =~= self.orgs@);
        r
    }

    /// Reset the path step: one suggestion (the current base path), every
    /// popup closed, completions cleared, cursor at the end of the path.
    pub fn populate_path_suggestions(&mut self)
        ensures
            is_path_reset(*old(self), *final(self)),
            same_flow(*old(self), *final(self)),
            same_requirements(*old(self), *final(self)),
            same_provider_auth(*old(self), *final(self)),
            same_orgs(*old(self), *final(self)),
            same_misc(*old(self), *final(self)),
    {
        let mut suggestions: Vec<PathSuggestion> = Vec::new();
        suggestions.push(PathSuggestion { path: self.base_path.clone(), label: owned("terminal folder") });
        self.path_suggestions = suggestions;
        self.path_suggestion_index = 0;
        self.path_suggestions_mode = false;
        self.path_browse_mode = false;
        self.path_browse_current_dir = String::new();
        self.path_browse_entries = Vec::new();
        self.path_browse_index = 0;
        self.path_browse_show_hidden = false;
        self.path_browse_error = None;
        self.path_browse_info = None;
        self.path_completions = Vec::new();
        self.path_completion_index = 0;
        self.path_cursor = str_byte_len(self.base_path.as_str());
    }

    /// Whether all critical requirement checks have passed (and some ran).
    pub fn requirements_passed(&self) -> (r: bool)
        ensures
            r == spec_requirements_passed(self.check_results@),
            r ==> forall|i: int| 0 <= i < self.check_results@.len() && (#[trigger] self.check_results@[i]).critical
                ==> self.check_results@[i].passed,
            (exists|i: int| 0 <= i < self.check_results@.len() && (#[trigger] self.check_results@[i]).critical
                && !self.check_results@[i].passed) ==> !r,
            self.check_results@.len() == 0 ==> !r,
    {
        if self.check_results.len() == 0 {
            return false;
        }
        let mut i: usize = 0;
        while i < self.check_results.len()
            invariant
                0 <= i <= self.check_results@.len(),
                forall|j: int| 0 <= j < i && self.check_results@[j].critical ==> self.check_results@[j].passed,
            decreases self.check_results@.len() - i,
        {
            if self.check_results[i].critical && !self.check_results[i].passed {
                return false;
            }
            i = i + 1;
        }
        true
    }

    /// The 1-based step number for display.
    pub fn step_number(&self) -> (r: usize)
        ensures
            r == spec_step_number(self.step),
    {
        match self.step {
            SetupStep::Requirements => 1,
            SetupStep::SelectProvider => 2,
            SetupStep::Authenticate => 3,
            SetupStep::SelectOrgs => 4,
            SetupStep::SelectPath => 5,
            SetupStep::Confirm => 6,
            SetupStep::Complete => 6,
        }
    }

    /// Move to the next step (finishing the wizard from Complete).
    pub fn next_step(&mut self)
        ensures
            is_next_step(*old(self), *final(self)),
    {
        self.error_message = None;
        match self.step {
            SetupStep::Requirements => {
                self.step = SetupStep::SelectProvider;
            },
            SetupStep::SelectProvider => {
                self.step = SetupStep::Authenticate;
            },
            SetupStep::Authenticate => {
                self.org_loading = true;
                self.org_discovery_in_progress = false;
                self.orgs = Vec::new();
                self.org_index = 0;
                self.org_error = None;
                self.step = SetupStep::SelectOrgs;
            },
            SetupStep::SelectOrgs => {
                self.populate_path_suggestions();
                self.step = SetupStep::SelectPath;
            },
            SetupStep::SelectPath => {
                self.step = SetupStep::Confirm;
            },
            SetupStep::Confirm => {
                self.step = SetupStep::Complete;
            },
            SetupStep::Complete => {
                self.outcome = Some(SetupOutcome::Completed);
                self.should_quit = true;
            },
        }
    }

    /// Move to the previous step (cancelling the wizard from Requirements).
    pub fn prev_step(&mut self)
        ensures
            is_prev_step(*old(self), *final(self)),
    {
        self.error_message = None;
        match self.step {
            SetupStep::Requirements => {
                self.outcome = Some(SetupOutcome::Cancelled);
                self.should_quit = true;
            },
            SetupStep::SelectProvider => {
                self.step = SetupStep::Requirements;
            },
            SetupStep::Authenticate => {
                self.step = SetupStep::SelectProvider;
            },
            SetupStep::SelectOrgs => {
                self.step = SetupStep::Authenticate;
            },
            SetupStep::SelectPath => {
                self.step = SetupStep::SelectOrgs;
            },
            SetupStep::Confirm => {
                self.step = SetupStep::SelectPath;
            },
            SetupStep::Complete => {
                self.step = SetupStep::Confirm;
            },
        }
    }
}

/// Going forward one step and then back one step returns to the same step,
/// from every step before Complete.
pub proof fn lemma_next_then_prev_returns(s: SetupStep)
    requires
        s != SetupStep::Complete,
    ensures
        spec_prev_step(spec_next_step(s)) == s,
{
}

/// Going back one step and then forward one step returns to the same step,
/// from every step after Requirements.
pub proof fn lemma_prev_then_next_returns(s: SetupStep)
    requires
        s != SetupStep::Requirements,
    ensures
        spec_next_step(spec_prev_step(s)) == s,
{
}

/// Step numbers run from 1 to the total number of steps, and moving to the
/// next step raises the number by one, except from Confirm onwards.
pub proof fn lemma_step_number_progress(s: SetupStep)
    ensures
        1 <= spec_step_number(s) <= SetupState::TOTAL_STEPS,
        s != SetupStep::Confirm && s != SetupStep::Complete
            ==> spec_step_number(spec_next_step(s)) == spec_step_number(s) + 1,
        s == SetupStep::Confirm || s == SetupStep::Complete
            ==> spec_step_number(spec_next_step(s)) == SetupState::TOTAL_STEPS,
{
}

/// A failed critical check keeps the requirements step closed, whatever
/// the other checks say and wherever it stands in the list.
pub proof fn lemma_failed_critical_blocks(checks: Seq<CheckResult>, i: int)
    requires
        0 <= i < checks.len(),
        checks[i].critical,
        !checks[i].passed,
    ensures
        !spec_requirements_passed(checks),
{
}

/// With at least one check, the requirements step opens exactly when no
/// critical check failed; failed warnings (non-critical checks) never hold
/// it back.
pub proof fn lemma_requirements_ignore_warnings(checks: Seq<CheckResult>)
    requires
        checks.len() > 0,
    ensures
        spec_requirements_passed(checks)
            <==> !(exists|i: int| 0 <= i < checks.len() && (#[trigger] checks[i]).critical && !checks[i].passed),
{
}

/// The outcome does not depend on the order or grouping of the checks: two
/// non-empty lists together pass exactly when each passes on its own, in
/// either order.
pub proof fn lemma_requirements_split(a: Seq<CheckResult>, b: Seq<CheckResult>)
    requires
        a.len() > 0,
        b.len() > 0,
    ensures
        spec_requirements_passed(a + b) == (spec_requirements_passed(a) && spec_requirements_passed(b)),
        spec_requirements_passed(a + b) == spec_requirements_passed(b + a),
{
    if spec_requirements_passed(a + b) {
        assert forall|i: int| 0 <= i < a.len() && a[i].critical implies a[i].passed by {
            assert((a + b)[i] == a[i]);
        }
        assert forall|i: int| 0 <= i < b.len() && b[i].critical implies b[i].passed by {
            assert((a + b)[a.len() + i] == b[i]);
        }
    }
    if spec_requirements_passed(b + a) {
        assert forall|i: int| 0 <= i < a.len() && a[i].critical implies a[i].passed by {
            assert((b + a)[b.len() + i] == a[i]);
        }
        assert forall|i: int| 0 <= i < b.len() && b[i].critical implies b[i].passed by {
            assert((b + a)[i] == b[i]);
        }
    }
    if spec_requirements_passed(a) && spec_requirements_passed(b) {
        assert forall|i: int| 0 <= i < (a + b).len() && (a + b)[i].critical implies (a + b)[i].passed by {
            if i < a.len() {
                assert((a + b)[i] == a[i]);
            } else {
                assert((a + b)[i] == b[i - a.len()]);
            }
        }
        assert forall|i: int| 0 <= i < (b + a).len() && (b + a)[i].critical implies (b + a)[i].passed by {
            if i < b.len() {
                assert((b + a)[i] == b[i]);
            } else {
                assert((b + a)[i] == a[i - b.len()]);
            }
        }
    }
}

} // verus!
