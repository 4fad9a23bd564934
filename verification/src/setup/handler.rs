//! Setup wizard key handling (the "Update" in Elm architecture).
//!
//! Each key press changes the wizard state and may ask for outside work
//! (authentication, org discovery, saving, listing folders), returned as a
//! [`SetupEffect`]. The caller performs it and hands the outcome back
//! through the `apply_*` functions.

use vstd::prelude::*;
use crate::config::WorkspaceProvider;
use crate::input::{is_quit_key, quit_key, KeyCode, KeyInput};
use crate::order::{keys_sorted, lemma_map_values_multiset, sort_by_text_key, text_lt};
use crate::setup::paths::{is_longest_common_prefix, longest_common_prefix};
use crate::text::str_eq;
use crate::setup::state::{
    is_next_step, is_prev_step, is_initial_state, same_flow, same_misc, same_orgs, same_path, same_provider_auth,
    same_requirements, spec_next_step, spec_prev_step, spec_requirements_passed, AuthStatus, OrgEntry, PathBrowseEntry, SetupOutcome, SetupState,
    SetupStep,
};
use crate::text::{byte_len, concat_str, decimal_string, opt_view, owned, spec_decimal, str_byte_len};

verus! {

/// Outside work that a key press asks for.
#[derive(Debug, Clone)]
pub enum SetupEffect {
    /// Nothing to do.
    Nothing,
    /// Authenticate with the selected provider, then call `apply_auth_result`.
    Authenticate,
    /// Discover the user's organizations, then call `apply_org_discovery`.
    DiscoverOrgs { provider: WorkspaceProvider, token: String },
    /// Save the workspace, then call `apply_save_result`.
    SaveWorkspace,
    /// Recompute the completions of the base path, then call `set_completions`.
    RefreshCompletions,
    /// Open the folder navigator near `seed`, then call `open_browse_listing`.
    OpenBrowser { seed: String },
    /// List the folder `path` (the selected entry), then `apply_browse_outcome`.
    OpenDirectory { path: String },
    /// List the parent of the current folder, then `apply_browse_outcome`.
    BrowseParent,
    /// List the home folder, then `apply_browse_outcome`.
    BrowseHome,
    /// List the working directory, then `apply_browse_outcome`.
    BrowseCurrentDirectory,
    /// List the filesystem root, then `apply_browse_outcome`.
    BrowseRoot,
    /// List the current folder again (hidden folders toggled).
    RefreshBrowse,
    /// Create a new folder in the current folder, then `apply_created_folder`.
    CreateFolder,
}

/// Nothing in the wizard state changed.
pub open spec fn unchanged(a: SetupState, b: SetupState) -> bool {
    &&& same_flow(a, b)
    &&& same_requirements(a, b)
    &&& same_provider_auth(a, b)
    &&& same_orgs(a, b)
    &&& same_path(a, b)
    &&& same_misc(a, b)
}

/// The wizard was cancelled and nothing else changed.
pub open spec fn cancels(a: SetupState, b: SetupState) -> bool {
    &&& b.should_quit
    &&& b.outcome == Some(SetupOutcome::Cancelled)
    &&& b.step == a.step
    &&& b.error_message == a.error_message
    &&& same_requirements(a, b)
    &&& same_provider_auth(a, b)
    &&& same_orgs(a, b)
    &&& same_path(a, b)
    &&& same_misc(a, b)
}

/// Only fields of the path step changed.
pub open spec fn only_path_changed(a: SetupState, b: SetupState) -> bool {
    &&& same_flow(a, b)
    &&& same_requirements(a, b)
    &&& same_provider_auth(a, b)
    &&& same_orgs(a, b)
    &&& same_misc(a, b)
}

/// Only the organization fields changed.
pub open spec fn only_orgs_changed(a: SetupState, b: SetupState) -> bool {
    &&& same_flow(a, b)
    &&& same_requirements(a, b)
    &&& same_provider_auth(a, b)
    &&& same_path(a, b)
    &&& same_misc(a, b)
}

/// The selection indices that keys read through point into their lists
/// (or are 0 for an empty list): the provider, the organization and the
/// completion. The suggestion and navigator indices may point anywhere:
/// keys only read the entry at them when there is one.
pub open spec fn setup_wf(s: SetupState) -> bool {
    &&& s.provider_index < s.provider_choices@.len()
    &&& (s.org_index < s.orgs@.len() || (s.orgs@.len() == 0 && s.org_index == 0))
    &&& (s.path_completion_index < s.path_completions@.len()
        || (s.path_completions@.len() == 0 && s.path_completion_index == 0))
}

/// A fresh wizard is well formed.
pub proof fn lemma_initial_state_wf(s: SetupState, base_path: Seq<char>, first: bool)
    requires
        is_initial_state(s, base_path, first),
    ensures
        setup_wf(s),
{
}

/// Moving a step forward or back keeps the wizard well formed.
pub proof fn lemma_step_moves_keep_wf(a: SetupState, b: SetupState)
    requires
        setup_wf(a),
        is_next_step(a, b) || is_prev_step(a, b),
    ensures
        setup_wf(b),
{
}

/// `b` is `a` with the selection index `i` moved up by one (stopping at 0).
pub open spec fn index_up(i: usize, j: usize) -> bool {
    if i > 0 { j == i - 1 } else { j == i }
}

/// `j` is `i` moved down by one within a list of `len` items.
pub open spec fn index_down(i: usize, len: nat, j: usize) -> bool {
    if i + 1 < len { j == i + 1 } else { j == i }
}

/// `b` closed the folder navigator back to the path input: popups closed,
/// messages cleared, cursor at the end of the path, completions cleared
/// until the caller refreshes them.
pub open spec fn closes_browse(a: SetupState, b: SetupState) -> bool {
    &&& only_path_changed(a, b)
    &&& !b.path_browse_mode
    &&& !b.path_suggestions_mode
    &&& b.path_browse_error is None
    &&& b.path_browse_info is None
    &&& b.path_cursor == byte_len(b.base_path@)
    &&& b.path_completions@.len() == 0
    &&& b.path_completion_index == 0
    &&& b.path_suggestions == a.path_suggestions
    &&& b.path_suggestion_index == a.path_suggestion_index
    &&& b.path_browse_current_dir == a.path_browse_current_dir
    &&& b.path_browse_entries == a.path_browse_entries
    &&& b.path_browse_index == a.path_browse_index
    &&& b.path_browse_show_hidden == a.path_browse_show_hidden
}

/// The path is confirmed: an empty path is refused with an error,
/// otherwise the wizard moves on.
pub open spec fn confirms_path(a: SetupState, b: SetupState) -> bool {
    if a.base_path@.len() == 0 {
        &&& opt_view(b.error_message) == Some("Base path cannot be empty"@)
        &&& b.step == a.step
        &&& b.should_quit == a.should_quit
        &&& b.outcome == a.outcome
        &&& same_requirements(a, b)
        &&& same_provider_auth(a, b)
        &&& same_orgs(a, b)
        &&& same_path(a, b)
        &&& same_misc(a, b)
    } else {
        is_next_step(a, b)
    }
}


fn cancel(state: &mut SetupState)
    ensures
        cancels(*old(state), *final(state)),
{
    state.outcome = Some(SetupOutcome::Cancelled);
    state.should_quit = true;
}

fn confirm_path(state: &mut SetupState)
    ensures
        confirms_path(*old(state), *final(state)),
{
    if state.base_path.as_str().is_empty() {
        state.error_message = Some(owned("Base path cannot be empty"));
    } else {
        state.error_message = None;
        state.next_step();
    }
}

fn close_path_browse_to_input(state: &mut SetupState)
    ensures
        closes_browse(*old(state), *final(state)),
        final(state).base_path == old(state).base_path,
{
    state.path_browse_mode = false;
    state.path_suggestions_mode = false;
    state.path_browse_error = None;
    state.path_browse_info = None;
    state.path_cursor = str_byte_len(state.base_path.as_str());
    state.path_completions = Vec::new();
    state.path_completion_index = 0;
}

/// Take the folder shown in the navigator as the base path and close the
/// navigator; nothing happens while no folder is shown.
pub open spec fn uses_current_folder(a: SetupState, b: SetupState, e: SetupEffect) -> bool {
    if a.path_browse_current_dir@.len() > 0 {
        &&& closes_browse(a, b)
        &&& b.base_path == a.path_browse_current_dir
        &&& e is RefreshCompletions
    } else {
        unchanged(a, b) && e is Nothing
    }
}

fn use_current_browse_folder(state: &mut SetupState) -> (e: SetupEffect)
    ensures
        uses_current_folder(*old(state), *final(state), e),
{
    if state.path_browse_current_dir.as_str().is_empty() {
        SetupEffect::Nothing
    } else {
        state.base_path = state.path_browse_current_dir.clone();
        close_path_browse_to_input(state);
        SetupEffect::RefreshCompletions
    }
}

/// The effect of a key in the folder navigator.
pub open spec fn browse_key(a: SetupState, k: KeyInput, b: SetupState, e: SetupEffect) -> bool {
    match k.code {
        KeyCode::Up => only_path_changed(a, b) && index_up(a.path_browse_index, b.path_browse_index)
            && b == (SetupState { path_browse_index: b.path_browse_index, ..a }) && e is Nothing,
        KeyCode::Down => only_path_changed(a, b)
            && index_down(a.path_browse_index, a.path_browse_entries@.len(), b.path_browse_index)
            && b == (SetupState { path_browse_index: b.path_browse_index, ..a }) && e is Nothing,
        KeyCode::Right => unchanged(a, b) && if a.path_browse_index < a.path_browse_entries@.len() {
            e matches SetupEffect::OpenDirectory { path } && path@ == a.path_browse_entries@[a.path_browse_index as int].path@
        } else {
            e is Nothing
        },
        KeyCode::Enter | KeyCode::Char('u') => uses_current_folder(a, b, e),
        KeyCode::Left => unchanged(a, b) && e is BrowseParent,
        KeyCode::Char('h') => unchanged(a, b) && e is BrowseHome,
        KeyCode::Char('c') => unchanged(a, b) && e is BrowseCurrentDirectory,
        KeyCode::Char('r') => unchanged(a, b) && e is BrowseRoot,
        KeyCode::Char('.') => b == (SetupState { path_browse_show_hidden: !a.path_browse_show_hidden, ..a })
            && e is RefreshBrowse,
        KeyCode::Char('n') => unchanged(a, b) && e is CreateFolder,
        KeyCode::Esc => closes_browse(a, b) && b.base_path == a.base_path && e is RefreshCompletions,
        _ => unchanged(a, b) && e is Nothing,
    }
}

fn handle_path_browse(state: &mut SetupState, key: KeyInput) -> (e: SetupEffect)
    ensures
        browse_key(*old(state), key, *final(state), e),
{
    match key.code {
        KeyCode::Up => {
            if state.path_browse_index > 0 {
                state.path_browse_index = state.path_browse_index - 1;
            }
            SetupEffect::Nothing
        },
        KeyCode::Down => {
            if state.path_browse_index < state.path_browse_entries.len()
                && state.path_browse_index + 1 < state.path_browse_entries.len() {
                state.path_browse_index = state.path_browse_index + 1;
            }
            SetupEffect::Nothing
        },
        KeyCode::Right => {
            if state.path_browse_index < state.path_browse_entries.len() {
                SetupEffect::OpenDirectory { path: state.path_browse_entries[state.path_browse_index].path.clone() }
            } else {
                SetupEffect::Nothing
            }
        },
        KeyCode::Enter | KeyCode::Char('u') => use_current_browse_folder(state),
        KeyCode::Left => SetupEffect::BrowseParent,
        KeyCode::Char('h') => SetupEffect::BrowseHome,
        KeyCode::Char('c') => SetupEffect::BrowseCurrentDirectory,
        KeyCode::Char('r') => SetupEffect::BrowseRoot,
        KeyCode::Char('.') => {
            state.path_browse_show_hidden = !state.path_browse_show_hidden;
            SetupEffect::RefreshBrowse
        },
        KeyCode::Char('n') => SetupEffect::CreateFolder,
        KeyCode::Esc => {
            close_path_browse_to_input(state);
            SetupEffect::RefreshCompletions
        },
        _ => SetupEffect::Nothing,
    }
}


/// The path fields other than the base path, cursor and completions agree.
pub open spec fn same_path_popups(a: SetupState, b: SetupState) -> bool {
    &&& b.path_suggestions_mode == a.path_suggestions_mode
    &&& b.path_suggestions == a.path_suggestions
    &&& b.path_suggestion_index == a.path_suggestion_index
    &&& b.path_browse_mode == a.path_browse_mode
    &&& b.path_browse_current_dir == a.path_browse_current_dir
    &&& b.path_browse_entries == a.path_browse_entries
    &&& b.path_browse_index == a.path_browse_index
    &&& b.path_browse_show_hidden == a.path_browse_show_hidden
    &&& b.path_browse_error == a.path_browse_error
    &&& b.path_browse_info == a.path_browse_info
}

/// The base path became `p`, with the cursor at its end and the
/// completions cleared until the caller refreshes them.
pub open spec fn path_set_to(a: SetupState, b: SetupState, p: Seq<char>) -> bool {
    &&& only_path_changed(a, b)
    &&& same_path_popups(a, b)
    &&& b.base_path@ == p
    &&& b.path_cursor == byte_len(p)
    &&& b.path_completions@.len() == 0
    &&& b.path_completion_index == 0
}

/// Tab completion: a single completion is taken; several are narrowed to
/// their longest common prefix when that extends the path (in bytes), and
/// otherwise cycled through one by one.
pub open spec fn tab_completes(a: SetupState, b: SetupState, e: SetupEffect) -> bool {
    let cs = a.path_completions@.map_values(|s: String| s@);
    if cs.len() == 0 {
        unchanged(a, b) && e is Nothing
    } else if cs.len() == 1 {
        path_set_to(a, b, cs[0]) && e is RefreshCompletions
    } else {
        exists|p: Seq<char>| #[trigger] is_longest_common_prefix(p, cs) && if byte_len(p) > byte_len(a.base_path@) {
            path_set_to(a, b, p) && e is RefreshCompletions
        } else {
            &&& only_path_changed(a, b)
            &&& same_path_popups(a, b)
            &&& b.base_path@ == cs[a.path_completion_index as int]
            &&& b.path_cursor == byte_len(b.base_path@)
            &&& b.path_completions == a.path_completions
            &&& b.path_completion_index == (a.path_completion_index + 1) % (cs.len() as int)
            &&& e is Nothing
        }
    }
}

/// Apply tab completion to the base path.
#[verifier::rlimit(40)]
pub fn apply_tab_completion(state: &mut SetupState) -> (e: SetupEffect)
    requires
        setup_wf(*old(state)),
    ensures
        tab_completes(*old(state), *final(state), e),
        setup_wf(*final(state)),
{
    let n = state.path_completions.len();
    if n == 0 {
        return SetupEffect::Nothing;
    }
    if n == 1 {
        state.base_path = state.path_completions[0].clone();
        state.path_cursor = str_byte_len(state.base_path.as_str());
        state.path_completions = Vec::new();
        state.path_completion_index = 0;
        return SetupEffect::RefreshCompletions;
    }
    let common = longest_common_prefix(&state.path_completions);
    let ghost p = common@;
    let ghost cs = state.path_completions@.map_values(|s: String| s@);
    assert(is_longest_common_prefix(p, cs));
    if str_byte_len(common.as_str()) > str_byte_len(state.base_path.as_str()) {
        state.base_path = common;
        state.path_cursor = str_byte_len(state.base_path.as_str());
        state.path_completions = Vec::new();
        state.path_completion_index = 0;
        SetupEffect::RefreshCompletions
    } else {
        let i = state.path_completion_index;
        let chosen = state.path_completions[i].clone();
        assert(chosen@ == cs[i as int]);
        state.base_path = chosen;
        state.path_cursor = str_byte_len(state.base_path.as_str());
        state.path_completion_index = (i + 1) % n;
        SetupEffect::Nothing
    }
}


/// The effect of a key on the Requirements step: Enter or Right moves on
/// once the checks have finished and every critical check passed.
pub open spec fn requirements_key(a: SetupState, k: KeyInput, b: SetupState, e: SetupEffect) -> bool {
    &&& e is Nothing
    &&& if (k.code == KeyCode::Enter || k.code == KeyCode::Right) && !a.checks_loading
        && spec_requirements_passed(a.check_results@) {
        is_next_step(a, b)
    } else {
        unchanged(a, b)
    }
}

fn handle_requirements(state: &mut SetupState, key: KeyInput) -> (e: SetupEffect)
    ensures
        requirements_key(*old(state), key, *final(state), e),
{
    if (key.code == KeyCode::Enter || key.code == KeyCode::Right) && !state.checks_loading
        && state.requirements_passed() {
        state.next_step();
    }
    SetupEffect::Nothing
}

/// The effect of a key on the provider step.
pub open spec fn provider_key(a: SetupState, k: KeyInput, b: SetupState, e: SetupEffect) -> bool {
    &&& e is Nothing
    &&& match k.code {
        KeyCode::Up => index_up(a.provider_index, b.provider_index)
            && b == (SetupState { provider_index: b.provider_index, ..a }),
        KeyCode::Down => index_down(a.provider_index, a.provider_choices@.len(), b.provider_index)
            && b == (SetupState { provider_index: b.provider_index, ..a }),
        KeyCode::Enter | KeyCode::Right => if a.provider_choices@[a.provider_index as int].available {
            is_next_step(SetupState { auth_status: AuthStatus::Pending, ..a }, b)
        } else {
            unchanged(a, b)
        },
        KeyCode::Left => is_prev_step(a, b),
        _ => unchanged(a, b),
    }
}

fn handle_provider(state: &mut SetupState, key: KeyInput) -> (e: SetupEffect)
    requires
        setup_wf(*old(state)),
    ensures
        provider_key(*old(state), key, *final(state), e),
{
    match key.code {
        KeyCode::Up => {
            if state.provider_index > 0 {
                state.provider_index = state.provider_index - 1;
            }
        },
        KeyCode::Down => {
            if state.provider_index < state.provider_choices.len() - 1 {
                state.provider_index = state.provider_index + 1;
            }
        },
        KeyCode::Enter | KeyCode::Right => {
            if state.provider_choices[state.provider_index].available {
                state.auth_status = AuthStatus::Pending;
                state.next_step();
            }
        },
        KeyCode::Left => {
            state.prev_step();
        },
        _ => {},
    }
    SetupEffect::Nothing
}

/// The effect of a key on the authentication step: Enter starts (or
/// retries) authentication, and moves on once it succeeded.
pub open spec fn auth_key(a: SetupState, k: KeyInput, b: SetupState, e: SetupEffect) -> bool {
    match k.code {
        KeyCode::Enter => match a.auth_status {
            AuthStatus::Pending | AuthStatus::Failed(_) =>
                b == (SetupState { auth_status: AuthStatus::Checking, ..a }) && e is Authenticate,
            AuthStatus::Success => is_next_step(a, b) && e is Nothing,
            AuthStatus::Checking => unchanged(a, b) && e is Nothing,
        },
        KeyCode::Right => e is Nothing && if a.auth_status is Success {
            is_next_step(a, b)
        } else {
            unchanged(a, b)
        },
        KeyCode::Left => is_prev_step(a, b) && e is Nothing,
        _ => unchanged(a, b) && e is Nothing,
    }
}

fn handle_auth(state: &mut SetupState, key: KeyInput) -> (e: SetupEffect)
    ensures
        auth_key(*old(state), key, *final(state), e),
{
    match key.code {
        KeyCode::Enter => {
            match state.auth_status {
                AuthStatus::Pending | AuthStatus::Failed(_) => {
                    state.auth_status = AuthStatus::Checking;
                    SetupEffect::Authenticate
                },
                AuthStatus::Success => {
                    state.next_step();
                    SetupEffect::Nothing
                },
                AuthStatus::Checking => SetupEffect::Nothing,
            }
        },
        KeyCode::Right => {
            if let AuthStatus::Success = state.auth_status {
                state.next_step();
            }
            SetupEffect::Nothing
        },
        KeyCode::Left => {
            state.prev_step();
            SetupEffect::Nothing
        },
        _ => SetupEffect::Nothing,
    }
}

/// Every org keeps its name and repo count and gets selection `sel`.
pub open spec fn all_orgs_set(a: Seq<OrgEntry>, b: Seq<OrgEntry>, sel: bool) -> bool {
    &&& b.len() == a.len()
    &&& forall|i: int| 0 <= i < a.len() ==> #[trigger] b[i] == (OrgEntry { selected: sel, ..a[i] })
}

/// The effect of a key on the organization step. While discovery is
/// pending only the timer's Null key acts: it starts discovery once (or
/// fails when not authenticated).
pub open spec fn orgs_key(a: SetupState, k: KeyInput, b: SetupState, e: SetupEffect) -> bool {
    if a.org_loading {
        if k.code == KeyCode::Null {
            match a.auth_token {
                None => {
                    &&& only_orgs_changed(a, b)
                    &&& opt_view(b.org_error) == Some("Not authenticated"@)
                    &&& !b.org_loading
                    &&& b.orgs == a.orgs
                    &&& b.org_index == a.org_index
                    &&& b.org_discovery_in_progress == a.org_discovery_in_progress
                    &&& e is Nothing
                },
                Some(t) => if !a.org_discovery_in_progress {
                    &&& b == (SetupState { org_discovery_in_progress: true, ..a })
                    &&& e matches SetupEffect::DiscoverOrgs { provider, token }
                    &&& provider.kind == a.provider_choices@[a.provider_index as int].kind
                    &&& provider.api_url is None
                    &&& token@ == t@
                } else {
                    unchanged(a, b) && e is Nothing
                },
            }
        } else {
            unchanged(a, b) && e is Nothing
        }
    } else {
        &&& e is Nothing
        &&& match k.code {
            KeyCode::Up => index_up(a.org_index, b.org_index)
                && b == (SetupState { org_index: b.org_index, ..a }),
            KeyCode::Down => index_down(a.org_index, a.orgs@.len(), b.org_index)
                && b == (SetupState { org_index: b.org_index, ..a }),
            KeyCode::Char(' ') => only_orgs_changed(a, b) && b.org_index == a.org_index
                && b.org_loading == a.org_loading && b.org_error == a.org_error
                && b.org_discovery_in_progress == a.org_discovery_in_progress
                && if a.orgs@.len() > 0 {
                    b.orgs@ == a.orgs@.update(a.org_index as int,
                        OrgEntry { selected: !a.orgs@[a.org_index as int].selected, ..a.orgs@[a.org_index as int] })
                } else {
                    b.orgs == a.orgs
                },
            KeyCode::Char('a') | KeyCode::Char('n') => only_orgs_changed(a, b)
                && b.org_index == a.org_index && b.org_loading == a.org_loading
                && b.org_error == a.org_error && b.org_discovery_in_progress == a.org_discovery_in_progress
                && all_orgs_set(a.orgs@, b.orgs@, k.code == KeyCode::Char('a')),
            KeyCode::Enter => if a.org_error is Some {
                &&& only_orgs_changed(a, b)
                &&& b.org_loading
                &&& b.org_error is None
                &&& b.orgs == a.orgs
                &&& b.org_index == a.org_index
                &&& b.org_discovery_in_progress == a.org_discovery_in_progress
            } else {
                is_next_step(a, b)
            },
            KeyCode::Right => if a.org_error is None { is_next_step(a, b) } else { unchanged(a, b) },
            KeyCode::Left => is_prev_step(a, b),
            _ => unchanged(a, b),
        }
    }
}

fn set_all_orgs(state: &mut SetupState, sel: bool)
    ensures
        only_orgs_changed(*old(state), *final(state)),
        final(state).org_index == old(state).org_index,
        final(state).org_loading == old(state).org_loading,
        final(state).org_error == old(state).org_error,
        final(state).org_discovery_in_progress == old(state).org_discovery_in_progress,
        all_orgs_set(old(state).orgs@, final(state).orgs@, sel),
{
    let ghost before = state.orgs@;
    let mut orgs: Vec<OrgEntry> = Vec::new();
    let mut i: usize = 0;
    while i < state.orgs.len()
        invariant
            before == state.orgs@,
            0 <= i <= before.len(),
            orgs@.len() == i,
            forall|j: int| 0 <= j < i ==> #[trigger] orgs@[j] == (OrgEntry { selected: sel, ..before[j] }),
        decreases before.len() - i,
    {
        let o = OrgEntry { name: state.orgs[i].name.clone(), repo_count: state.orgs[i].repo_count, selected: sel };
        orgs.push(o);
        i = i + 1;
    }
    state.orgs = orgs;
}


fn handle_orgs(state: &mut SetupState, key: KeyInput) -> (e: SetupEffect)
    requires
        setup_wf(*old(state)),
    ensures
        orgs_key(*old(state), key, *final(state), e),
{
    if state.org_loading {
        if key.code == KeyCode::Null {
            match &state.auth_token {
                None => {
                    state.org_error = Some(owned("Not authenticated"));
                    state.org_loading = false;
                    SetupEffect::Nothing
                },
                Some(t) => {
                    if !state.org_discovery_in_progress {
                        let token = t.clone();
                        let provider = state.build_workspace_provider();
                        state.org_discovery_in_progress = true;
                        SetupEffect::DiscoverOrgs { provider, token }
                    } else {
                        SetupEffect::Nothing
                    }
                },
            }
        } else {
            SetupEffect::Nothing
        }
    } else {
        match key.code {
            KeyCode::Up => {
                if state.org_index > 0 {
                    state.org_index = state.org_index - 1;
                }
            },
            KeyCode::Down => {
                if state.orgs.len() > 0 && state.org_index < state.orgs.len() - 1 {
                    state.org_index = state.org_index + 1;
                }
            },
            KeyCode::Char(' ') => {
                if state.orgs.len() > 0 {
                    let i = state.org_index;
                    let o = OrgEntry {
                        name: state.orgs[i].name.clone(),
                        repo_count: state.orgs[i].repo_count,
                        selected: !state.orgs[i].selected,
                    };
                    state.orgs.set(i, o);
                }
            },
            KeyCode::Char('a') => {
                set_all_orgs(state, true);
            },
            KeyCode::Char('n') => {
                set_all_orgs(state, false);
            },
            KeyCode::Enter => {
                if state.org_error.is_some() {
                    state.org_loading = true;
                    state.org_error = None;
                } else {
                    state.next_step();
                }
            },
            KeyCode::Right => {
                if state.org_error.is_none() {
                    state.next_step();
                }
            },
            KeyCode::Left => {
                state.prev_step();
            },
            _ => {},
        }
        SetupEffect::Nothing
    }
}

/// The effect of a key on the path step outside the folder navigator.
/// Typed characters do not edit the path: it changes only through tab
/// completion or the navigator.
pub open spec fn path_key(a: SetupState, k: KeyInput, b: SetupState, e: SetupEffect) -> bool {
    if a.path_suggestions_mode {
        suggestions_key(a, k, b, e)
    } else {
        path_input_key(a, k, b, e)
    }
}

/// The effect of a key while the path suggestions list is focused.
pub open spec fn suggestions_key(a: SetupState, k: KeyInput, b: SetupState, e: SetupEffect) -> bool {
        match k.code {
            KeyCode::Up => index_up(a.path_suggestion_index, b.path_suggestion_index)
                && b == (SetupState { path_suggestion_index: b.path_suggestion_index, ..a }) && e is Nothing,
            KeyCode::Down => index_down(a.path_suggestion_index, a.path_suggestions@.len(), b.path_suggestion_index)
                && b == (SetupState { path_suggestion_index: b.path_suggestion_index, ..a }) && e is Nothing,
            KeyCode::Enter => confirms_path(a, b) && e is Nothing,
            KeyCode::Tab => {
                &&& only_path_changed(a, b)
                &&& !b.path_suggestions_mode
                &&& b.base_path == a.base_path
                &&& b.path_cursor == a.path_cursor
                &&& b.path_completions@.len() == 0
                &&& b.path_completion_index == 0
                &&& b.path_suggestions == a.path_suggestions
                &&& b.path_suggestion_index == a.path_suggestion_index
                &&& b.path_browse_mode == a.path_browse_mode
                &&& b.path_browse_current_dir == a.path_browse_current_dir
                &&& b.path_browse_entries == a.path_browse_entries
                &&& b.path_browse_index == a.path_browse_index
                &&& b.path_browse_show_hidden == a.path_browse_show_hidden
                &&& b.path_browse_error == a.path_browse_error
                &&& b.path_browse_info == a.path_browse_info
                &&& e is RefreshCompletions
            },
            KeyCode::Char('b') => unchanged(a, b)
                && (e matches SetupEffect::OpenBrowser { seed } && seed@ == a.base_path@),
            KeyCode::Left => is_prev_step(a, b) && e is Nothing,
            _ => unchanged(a, b) && e is Nothing,
        }
}

/// The effect of a key on the path input: Ctrl+B opens the navigator, Tab
/// completes, Enter confirms, Left goes back.
pub open spec fn path_input_key(a: SetupState, k: KeyInput, b: SetupState, e: SetupEffect) -> bool {
    if k.ctrl && k.code == KeyCode::Char('b') {
        unchanged(a, b) && (e matches SetupEffect::OpenBrowser { seed } && seed@ == a.base_path@)
    } else {
        match k.code {
            KeyCode::Tab => tab_completes(a, b, e),
            KeyCode::Enter => confirms_path(a, b) && e is Nothing,
            KeyCode::Left => is_prev_step(a, b) && e is Nothing,
            _ => unchanged(a, b) && e is Nothing,
        }
    }
}

fn handle_path(state: &mut SetupState, key: KeyInput) -> (e: SetupEffect)
    requires
        setup_wf(*old(state)),
    ensures
        path_key(*old(state), key, *final(state), e),
        setup_wf(*final(state)),
{
    if state.path_suggestions_mode {
        handle_path_suggestions(state, key)
    } else {
        handle_path_input(state, key)
    }
}

#[verifier::rlimit(80)]
fn handle_path_suggestions(state: &mut SetupState, key: KeyInput) -> (e: SetupEffect)
    requires
        setup_wf(*old(state)),
    ensures
        suggestions_key(*old(state), key, *final(state), e),
        setup_wf(*final(state)),
{
        match key.code {
            KeyCode::Up => {
                if state.path_suggestion_index > 0 {
                    state.path_suggestion_index = state.path_suggestion_index - 1;
                }
                SetupEffect::Nothing
            },
            KeyCode::Down => {
                if state.path_suggestions.len() > 0
                    && state.path_suggestion_index < state.path_suggestions.len() - 1 {
                    state.path_suggestion_index = state.path_suggestion_index + 1;
                }
                SetupEffect::Nothing
            },
            KeyCode::Enter => {
                confirm_path(state);
                SetupEffect::Nothing
            },
            KeyCode::Tab => {
                state.path_suggestions_mode = false;
                state.path_completions = Vec::new();
                state.path_completion_index = 0;
                SetupEffect::RefreshCompletions
            },
            KeyCode::Char('b') => SetupEffect::OpenBrowser { seed: state.base_path.clone() },
            KeyCode::Left => {
                state.prev_step();
                SetupEffect::Nothing
            },
            _ => SetupEffect::Nothing,
        }
}

fn handle_path_input(state: &mut SetupState, key: KeyInput) -> (e: SetupEffect)
    requires
        setup_wf(*old(state)),
    ensures
        path_input_key(*old(state), key, *final(state), e),
        setup_wf(*final(state)),
{
    if key.ctrl && key.code == KeyCode::Char('b') {
        SetupEffect::OpenBrowser { seed: state.base_path.clone() }
    } else {
        match key.code {
            KeyCode::Tab => apply_tab_completion(state),
            KeyCode::Enter => {
                confirm_path(state);
                SetupEffect::Nothing
            },
            KeyCode::Left => {
                state.prev_step();
                SetupEffect::Nothing
            },
            _ => SetupEffect::Nothing,
        }
    }
}

/// The effect of a key on the review step: Enter asks to save.
pub open spec fn confirm_key(a: SetupState, k: KeyInput, b: SetupState, e: SetupEffect) -> bool {
    match k.code {
        KeyCode::Enter => unchanged(a, b) && e is SaveWorkspace,
        KeyCode::Left => is_prev_step(a, b) && e is Nothing,
        _ => unchanged(a, b) && e is Nothing,
    }
}

/// The effect of a key on the completion screen: Enter or `s` finishes.
pub open spec fn complete_key(a: SetupState, k: KeyInput, b: SetupState, e: SetupEffect) -> bool {
    &&& e is Nothing
    &&& match k.code {
        KeyCode::Enter | KeyCode::Char('s') => is_next_step(a, b),
        KeyCode::Left => is_prev_step(a, b),
        _ => unchanged(a, b),
    }
}

/// The effect of a key on the wizard. Ctrl+C and `q` cancel the wizard;
/// in the folder navigator every other key belongs to the navigator; Esc
/// cancels the wizard from any step; other keys go to the active step.
pub open spec fn setup_key(a: SetupState, k: KeyInput, b: SetupState, e: SetupEffect) -> bool {
    if is_quit_key(k) {
        cancels(a, b) && e is Nothing
    } else if a.step == SetupStep::SelectPath && a.path_browse_mode {
        browse_key(a, k, b, e)
    } else if k.code == KeyCode::Esc {
        cancels(a, b) && e is Nothing
    } else {
        match a.step {
            SetupStep::Requirements => requirements_key(a, k, b, e),
            SetupStep::SelectProvider => provider_key(a, k, b, e),
            SetupStep::Authenticate => auth_key(a, k, b, e),
            SetupStep::SelectOrgs => orgs_key(a, k, b, e),
            SetupStep::SelectPath => path_key(a, k, b, e),
            SetupStep::Confirm => confirm_key(a, k, b, e),
            SetupStep::Complete => complete_key(a, k, b, e),
        }
    }
}

/// Handle a key event in the setup wizard.
pub fn handle_key(state: &mut SetupState, key: KeyInput) -> (e: SetupEffect)
    requires
        setup_wf(*old(state)),
    ensures
        setup_key(*old(state), key, *final(state), e),
        setup_wf(*final(state)),
        final(state).step == old(state).step
            || final(state).step == spec_next_step(old(state).step)
            || final(state).step == spec_prev_step(old(state).step),
{
    if quit_key(key) {
        cancel(state);
        return SetupEffect::Nothing;
    }
    if state.step == SetupStep::SelectPath && state.path_browse_mode {
        return handle_path_browse(state, key);
    }
    if key.code == KeyCode::Esc {
        cancel(state);
        return SetupEffect::Nothing;
    }
    match state.step {
        SetupStep::Requirements => handle_requirements(state, key),
        SetupStep::SelectProvider => handle_provider(state, key),
        SetupStep::Authenticate => handle_auth(state, key),
        SetupStep::SelectOrgs => handle_orgs(state, key),
        SetupStep::SelectPath => handle_path(state, key),
        SetupStep::Confirm => {
            if key.code == KeyCode::Enter {
                SetupEffect::SaveWorkspace
            } else if key.code == KeyCode::Left {
                state.prev_step();
                SetupEffect::Nothing
            } else {
                SetupEffect::Nothing
            }
        },
        SetupStep::Complete => {
            if key.code == KeyCode::Enter || key.code == KeyCode::Char('s') {
                state.next_step();
            } else if key.code == KeyCode::Left {
                state.prev_step();
            }
            SetupEffect::Nothing
        },
    }
}


/// Esc cancels the wizard from every step, unless the folder navigator is
/// open; the step and everything entered stay as they were.
pub proof fn lemma_esc_cancels_from_any_step(a: SetupState, k: KeyInput, b: SetupState, e: SetupEffect)
    requires
        setup_key(a, k, b, e),
        k.code == KeyCode::Esc,
        !(a.step == SetupStep::SelectPath && a.path_browse_mode),
    ensures
        b.should_quit,
        b.outcome == Some(SetupOutcome::Cancelled),
        b.step == a.step,
        b.base_path == a.base_path,
        b.orgs == a.orgs,
        e is Nothing,
{
}

/// In the folder navigator Esc only closes it: the wizard is not cancelled,
/// the step and the base path stay.
pub proof fn lemma_esc_in_navigator_closes_it(a: SetupState, k: KeyInput, b: SetupState, e: SetupEffect)
    requires
        setup_key(a, k, b, e),
        k.code == KeyCode::Esc,
        a.step == SetupStep::SelectPath,
        a.path_browse_mode,
    ensures
        !b.path_browse_mode,
        b.should_quit == a.should_quit,
        b.outcome == a.outcome,
        b.step == a.step,
        b.base_path == a.base_path,
{
}

/// What authentication produced: the detected user name and the token.
#[derive(Debug, Clone)]
pub struct AuthInfo {
    pub username: Option<String>,
    pub token: String,
}

/// Record the outcome of authentication.
pub fn apply_auth_result(state: &mut SetupState, result: Result<AuthInfo, String>)
    ensures
        match result {
            Ok(info) => *final(state) == (SetupState {
                username: info.username,
                auth_token: Some(info.token),
                auth_status: AuthStatus::Success,
                ..*old(state)
            }),
            Err(m) => *final(state) == (SetupState { auth_status: AuthStatus::Failed(m), ..*old(state) }),
        },
{
    match result {
        Ok(info) => {
            state.username = info.username;
            state.auth_token = Some(info.token);
            state.auth_status = AuthStatus::Success;
        },
        Err(m) => {
            state.auth_status = AuthStatus::Failed(m);
        },
    }
}

/// The (name, repo count, selected) view of an org entry.
pub open spec fn org_view(o: OrgEntry) -> (Seq<char>, usize, bool) {
    (o.name@, o.repo_count, o.selected)
}

/// The view of a name-keyed org entry, ignoring the key.
pub open spec fn keyed_org_view() -> spec_fn((String, OrgEntry)) -> (Seq<char>, usize, bool) {
    |p: (String, OrgEntry)| org_view(p.1)
}

/// The entries of `orgs` sorted by name.
pub fn sort_orgs_by_name(orgs: Vec<OrgEntry>) -> (r: Vec<OrgEntry>)
    ensures
        r@.map_values(|o: OrgEntry| org_view(o)).to_multiset() == orgs@.map_values(|o: OrgEntry| org_view(o)).to_multiset(),
        forall|i: int, j: int| 0 <= i < j < r@.len() ==> !text_lt((#[trigger] r@[j]).name@, (#[trigger] r@[i]).name@),
{
    broadcast use vstd::seq_lib::group_to_multiset_ensures, vstd::multiset::group_multiset_axioms;
    let mut keyed: Vec<(String, OrgEntry)> = Vec::new();
    let mut k: usize = 0;
    while k < orgs.len()
        invariant
            0 <= k <= orgs@.len(),
            keyed@.len() == k,
            keyed@.map_values(keyed_org_view()) == orgs@.take(k as int).map_values(|o: OrgEntry| org_view(o)),
            forall|i: int| 0 <= i < keyed@.len() ==> (#[trigger] keyed@[i]).0@ == keyed@[i].1.name@,
        decreases orgs@.len() - k,
    {
        let o = OrgEntry { name: orgs[k].name.clone(), repo_count: orgs[k].repo_count, selected: orgs[k].selected };
        let ghost old_keyed = keyed@;
        keyed.push((orgs[k].name.clone(), o));
        proof {
            assert(keyed_org_view()(keyed@[k as int]) == org_view(orgs@[k as int]));
            assert(keyed@.map_values(keyed_org_view()) =~= old_keyed.map_values(keyed_org_view()).push(org_view(orgs@[k as int])));
            assert(orgs@.take(k + 1).map_values(|o: OrgEntry| org_view(o))
                =~= orgs@.take(k as int).map_values(|o: OrgEntry| org_view(o)).push(org_view(orgs@[k as int])));
            assert(keyed@.map_values(keyed_org_view()) =~= orgs@.take(k + 1).map_values(|o: OrgEntry| org_view(o)));
        }
        k = k + 1;
    }
    assert(orgs@.take(orgs@.len() as int) =~= orgs@);
    let ghost before = keyed@;
    let sorted = sort_by_text_key(keyed);
    proof {
        lemma_map_values_multiset(sorted@, before, keyed_org_view());
    }
    let mut r: Vec<OrgEntry> = Vec::new();
    let mut rest = sorted;
    let ghost sorted_v = rest@;
    while rest.len() > 0
        invariant
            r@.len() + rest@.len() == sorted_v.len(),
            rest@ == sorted_v.skip(r@.len() as int),
            r@ == sorted_v.take(r@.len() as int).map_values(|p: (String, OrgEntry)| p.1),
        decreases rest@.len(),
    {
        let ghost old_r = r@;
        let ghost old_rest = rest@;
        let (_, o) = rest.remove(0);
        r.push(o);
        proof {
            assert(old_rest[0] == sorted_v[old_r.len() as int]);
            assert(rest@ =~= sorted_v.skip(r@.len() as int));
            assert(r@ =~= sorted_v.take(r@.len() as int).map_values(|p: (String, OrgEntry)| p.1));
        }
    }
    proof {
        assert(sorted_v.take(r@.len() as int) =~= sorted_v);
        assert(r@.map_values(|o: OrgEntry| org_view(o)) =~= sorted_v.map_values(keyed_org_view()));
        assert forall|i: int| 0 <= i < sorted_v.len() implies (#[trigger] sorted_v[i]).0@ == sorted_v[i].1.name@ by {
            assert(sorted_v.to_multiset().count(sorted_v[i]) > 0);
            assert(before.contains(sorted_v[i]));
        }
        assert forall|i: int| 0 <= i < r@.len() implies r@[i] == sorted_v[i].1 by {
        }
    }
    r
}

/// Record the outcome of organization discovery: the orgs sorted by name
/// with the first one focused, or the error.
pub fn apply_org_discovery(state: &mut SetupState, result: Result<Vec<OrgEntry>, String>)
    ensures
        only_orgs_changed(*old(state), *final(state)),
        !final(state).org_loading,
        !final(state).org_discovery_in_progress,
        match result {
            Ok(orgs) => {
                &&& final(state).orgs@.map_values(|o: OrgEntry| org_view(o)).to_multiset()
                    == orgs@.map_values(|o: OrgEntry| org_view(o)).to_multiset()
                &&& forall|i: int, j: int| 0 <= i < j < final(state).orgs@.len()
                    ==> !text_lt((#[trigger] final(state).orgs@[j]).name@, (#[trigger] final(state).orgs@[i]).name@)
                &&& final(state).org_index == 0
                &&& final(state).org_error == old(state).org_error
            },
            Err(m) => {
                &&& final(state).org_error == Some(m)
                &&& final(state).orgs == old(state).orgs
                &&& final(state).org_index == old(state).org_index
            },
        },
{
    match result {
        Ok(orgs) => {
            state.orgs = sort_orgs_by_name(orgs);
            state.org_index = 0;
        },
        Err(m) => {
            state.org_error = Some(m);
        },
    }
    state.org_loading = false;
    state.org_discovery_in_progress = false;
}

/// Record the outcome of saving the workspace: move on to the completion
/// screen, or show the error.
pub fn apply_save_result(state: &mut SetupState, result: Result<(), String>)
    ensures
        match result {
            Ok(()) => is_next_step(*old(state), *final(state)),
            Err(m) => *final(state) == (SetupState { error_message: Some(m), ..*old(state) }),
        },
{
    match result {
        Ok(()) => state.next_step(),
        Err(m) => {
            state.error_message = Some(m);
        },
    }
}

/// Replace the completions of the base path (first one focused).
pub fn set_completions(state: &mut SetupState, completions: Vec<String>)
    ensures
        *final(state) == (SetupState { path_completions: completions, path_completion_index: 0, ..*old(state) }),
{
    state.path_completions = completions;
    state.path_completion_index = 0;
}

/// A listing of one folder for the navigator.
#[derive(Debug, Clone)]
pub struct BrowseListing {
    /// The folder, as shown to the user.
    pub dir: String,
    /// Its entries (see `build_browse_entries`).
    pub entries: Vec<PathBrowseEntry>,
    /// A problem met while reading it, shown inline.
    pub error: Option<String>,
}

/// The result of trying to list a folder.
#[derive(Debug, Clone)]
pub enum BrowseOutcome {
    /// The folder was listed.
    Listed(BrowseListing),
    /// The folder could not be opened; the message is shown inline.
    Failed(String),
}

/// Open the navigator on a listing, first entry focused.
pub fn open_browse_listing(state: &mut SetupState, listing: BrowseListing)
    ensures
        *final(state) == (SetupState {
            path_browse_mode: true,
            path_browse_info: None,
            path_browse_current_dir: listing.dir,
            path_browse_entries: listing.entries,
            path_browse_error: listing.error,
            path_browse_index: 0,
            ..*old(state)
        }),
{
    state.path_browse_info = None;
    state.path_browse_current_dir = listing.dir;
    state.path_browse_entries = listing.entries;
    state.path_browse_error = listing.error;
    state.path_browse_index = 0;
    state.path_browse_mode = true;
}

/// Show a new listing in the navigator (with an optional info line), or
/// show why it could not be listed.
pub fn apply_browse_outcome(state: &mut SetupState, outcome: BrowseOutcome, info: Option<String>)
    ensures
        match outcome {
            BrowseOutcome::Listed(l) => *final(state) == (SetupState {
                path_browse_info: info,
                path_browse_current_dir: l.dir,
                path_browse_entries: l.entries,
                path_browse_error: l.error,
                path_browse_index: 0,
                ..*old(state)
            }),
            BrowseOutcome::Failed(m) => *final(state) == (SetupState { path_browse_error: Some(m), ..*old(state) }),
        },
{
    match outcome {
        BrowseOutcome::Listed(l) => {
            state.path_browse_info = info;
            state.path_browse_current_dir = l.dir;
            state.path_browse_entries = l.entries;
            state.path_browse_error = l.error;
            state.path_browse_index = 0;
        },
        BrowseOutcome::Failed(m) => {
            state.path_browse_error = Some(m);
        },
    }
}

/// Focus the first navigator entry whose path is `path`, if there is one.
pub fn select_browse_path(state: &mut SetupState, path: &str)
    ensures
        if exists|i: int| 0 <= i < old(state).path_browse_entries@.len()
            && (#[trigger] old(state).path_browse_entries@[i]).path@ == path@ {
            &&& final(state).path_browse_index < old(state).path_browse_entries@.len()
            &&& old(state).path_browse_entries@[final(state).path_browse_index as int].path@ == path@
            &&& forall|i: int| 0 <= i < final(state).path_browse_index
                ==> (#[trigger] old(state).path_browse_entries@[i]).path@ != path@
            &&& *final(state) == (SetupState { path_browse_index: final(state).path_browse_index, ..*old(state) })
        } else {
            *final(state) == *old(state)
        },
{
    let mut i: usize = 0;
    while i < state.path_browse_entries.len()
        invariant
            *state == *old(state),
            0 <= i <= state.path_browse_entries@.len(),
            forall|j: int| 0 <= j < i ==> (#[trigger] state.path_browse_entries@[j]).path@ != path@,
        decreases state.path_browse_entries@.len() - i,
    {
        if str_eq(state.path_browse_entries[i].path.as_str(), path) {
            state.path_browse_index = i;
            return;
        }
        i = i + 1;
    }
}

/// The name of the `idx`-th candidate for a new folder.
pub open spec fn spec_new_folder_name(idx: nat) -> Seq<char> {
    if idx == 1 { "new-folder"@ } else { "new-folder-"@ + crate::text::spec_decimal(idx) }
}

/// The name tried for a new folder on attempt `idx` (1, 2, ...):
/// "new-folder", then "new-folder-2", "new-folder-3", ...
pub fn new_folder_name(idx: u64) -> (r: String)
    ensures
        r@ == spec_new_folder_name(idx as nat),
{
    if idx == 1 {
        owned("new-folder")
    } else {
        let n = decimal_string(idx);
        concat_str("new-folder-", n.as_str())
    }
}

} // verus!
