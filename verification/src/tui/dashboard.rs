//! Dashboard keys: starting operations, switching tabs, moving through the
//! rows of a tab and opening a repository's folder.

use vstd::prelude::*;
use crate::input::{KeyCode, KeyInput};
use crate::text::{
    concat_str, contains_text, decimal_string, decimal_string_wide, has_substring, opt_view, spec_decimal, spec_to_lowercase,
    str_eq, to_lowercase,
};
use crate::tui::app::{spec_operation_label, App, Operation, OperationState, Screen};
use crate::tui::grouping::{holds_text, insert_sorted_unique, strictly_sorted};
use crate::tui::messages::AppAction;
use crate::tui::format::{format_timestamp, spec_format_timestamp};
use crate::types::finder_status::{file_name_or_path, spec_file_name_or_path};
use crate::types::RepoEntry;

verus! {

/// The message shown while an operation starts.
pub open spec fn starting_text(op: Operation) -> Seq<char> {
    "Starting "@ + spec_operation_label(op) + "..."@
}

/// An operation is under way.
pub open spec fn is_busy(s: OperationState) -> bool {
    s is Discovering || s is Running
}

/// Starting `op` from `a` gives `b` and asks for `act`: refused with an
/// error while another operation is under way, else it begins discovering
/// with a fresh log.
pub open spec fn starts_operation(a: App, op: Operation, b: App, act: Option<AppAction>) -> bool {
    if is_busy(a.operation_state) {
        &&& b.error_message matches Some(m) && m@ == "An operation is already running"@
        &&& b == (App { error_message: b.error_message, ..a })
        &&& act is None
    } else {
        &&& b.operation_state matches OperationState::Discovering { operation, message }
            && operation == op && message@ == starting_text(op)
        &&& b.log_lines@.len() == 0
        &&& b == (App {
            tick_count: 0,
            operation_state: b.operation_state,
            log_lines: b.log_lines,
            scroll_offset: 0,
            ..a
        })
        &&& act == Some(AppAction::SpawnOperation(op))
    }
}

/// Starts `op` unless another operation is under way.
pub fn start_operation(app: &mut App, op: Operation) -> (act: Option<AppAction>)
    ensures
        starts_operation(*old(app), op, *final(app), act),
{
    let busy = match &app.operation_state {
        OperationState::Discovering { .. } => true,
        OperationState::Running(_) => true,
        _ => false,
    };
    if busy {
        app.error_message = Some(crate::text::owned("An operation is already running"));
        return None;
    }
    app.tick_count = 0;
    let a = concat_str("Starting ", op.label());
    let message = concat_str(a.as_str(), "...");
    app.operation_state = OperationState::Discovering { operation: op, message };
    app.log_lines = Vec::new();
    app.scroll_offset = 0;
    Some(AppAction::SpawnOperation(op))
}

/// Showing the sync screen: pushed on top of the current screen unless it
/// is already shown.
pub open spec fn shows_sync(a: App, b: App) -> bool {
    if a.screen == Screen::Sync {
        b == a
    } else {
        &&& b.screen == Screen::Sync
        &&& b.screen_stack@ == a.screen_stack@.push(a.screen)
        &&& b == (App { screen: Screen::Sync, screen_stack: b.screen_stack, ..a })
    }
}

/// Shows the sync progress screen.
pub fn show_sync_progress(app: &mut App)
    ensures
        shows_sync(*old(app), *final(app)),
{
    if app.screen != Screen::Sync {
        let current = app.screen;
        app.screen_stack.push(current);
        app.screen = Screen::Sync;
    }
}

/// Hiding the sync screen: back to the previous screen, or to the
/// dashboard when there is none; nothing happens on other screens.
pub open spec fn hides_sync(a: App, b: App) -> bool {
    if a.screen != Screen::Sync {
        b == a
    } else if a.screen_stack@.len() == 0 {
        b == (App { screen: Screen::Dashboard, ..a })
    } else {
        &&& b.screen == a.screen_stack@.last()
        &&& b.screen_stack@ == a.screen_stack@.drop_last()
        &&& b == (App { screen: b.screen, screen_stack: b.screen_stack, ..a })
    }
}

/// Hides the sync progress screen.
pub fn hide_sync_progress(app: &mut App)
    ensures
        hides_sync(*old(app), *final(app)),
{
    if app.screen != Screen::Sync {
        return;
    }
    if app.screen_stack.len() == 0 {
        app.screen = Screen::Dashboard;
    } else {
        app.go_back();
    }
}

/// A sync is being discovered or run.
pub open spec fn sync_in_progress(s: OperationState) -> bool {
    match s {
        OperationState::Discovering { operation, .. } => operation == Operation::Sync,
        OperationState::Running(r) => r.operation == Operation::Sync,
        _ => false,
    }
}

/// The step of the banner animation: while a sync is in progress, the tick
/// count modulo 50 (the banner's phase is this step over 50); otherwise the
/// banner stands still and there is none.
pub fn sync_banner_step(app: &App) -> (r: Option<u64>)
    ensures
        r == (if sync_in_progress(app.operation_state) {
            Some((app.tick_count % 50) as u64)
        } else {
            None::<u64>
        }),
{
    let syncing = match &app.operation_state {
        OperationState::Discovering { operation, .. } => *operation == Operation::Sync,
        OperationState::Running(r) => r.operation == Operation::Sync,
        _ => false,
    };
    if syncing {
        Some(app.tick_count % 50)
    } else {
        None
    }
}

/// The dashboard's sync line when no sync is under way: when the active
/// workspace was synced, "Synced <folder> with GitHub <when>", seen at the
/// instant `now`.
pub open spec fn spec_last_sync_line(a: App, now: (i64, u32)) -> Option<Seq<char>> {
    match a.active_workspace {
        Some(ws) => match ws.last_synced {
            Some(ts) => Some(
                "Synced "@ + spec_file_name_or_path(ws.base_path@) + " with GitHub "@ + spec_format_timestamp(ts@, now),
            ),
            None => None,
        },
        None => None,
    }
}

/// The dashboard's sync line, seen at the instant `now`: while a sync is
/// discovering, what it is doing; after a sync, its totals; with no sync
/// under way, when the active workspace was last synced. A running sync's
/// line is made of rates and percentages, and is not given here (`None`).
pub open spec fn spec_sync_line(a: App, now: (i64, u32)) -> Option<Seq<char>> {
    match a.operation_state {
        OperationState::Discovering { operation: Operation::Sync, message } =>
            Some("Sync discovering in background: "@ + message@),
        OperationState::Running(r) => if r.operation == Operation::Sync { None } else { spec_last_sync_line(a, now) },
        OperationState::Finished(f) => if f.operation == Operation::Sync {
            Some(
                "Last Sync "@ + spec_decimal((f.summary.success + f.summary.failed + f.summary.skipped) as nat)
                    + " repos  |  "@ + spec_decimal(f.with_updates as nat) + " updated  |  "@
                    + spec_decimal(f.summary.failed as nat) + " failed"@,
            )
        } else {
            spec_last_sync_line(a, now)
        },
        _ => spec_last_sync_line(a, now),
    }
}

fn last_sync_line(app: &App, now_secs: i64, now_nanos: u32) -> (r: Option<String>)
    ensures
        opt_view(r) == spec_last_sync_line(*app, (now_secs, now_nanos)),
{
    match &app.active_workspace {
        Some(ws) => match &ws.last_synced {
            Some(ts) => {
                let a = concat_str("Synced ", file_name_or_path(ws.base_path.as_str()).as_str());
                let b = concat_str(a.as_str(), " with GitHub ");
                Some(concat_str(b.as_str(), format_timestamp(ts.as_str(), now_secs, now_nanos).as_str()))
            },
            None => None,
        },
        None => None,
    }
}

/// The dashboard's sync line at the instant `now_secs` seconds and
/// `now_nanos` nanoseconds after the epoch.
pub fn sync_line(app: &App, now_secs: i64, now_nanos: u32) -> (r: Option<String>)
    ensures
        opt_view(r) == spec_sync_line(*app, (now_secs, now_nanos)),
{
    match &app.operation_state {
        OperationState::Discovering { operation, message } => {
            if *operation == Operation::Sync {
                Some(concat_str("Sync discovering in background: ", message.as_str()))
            } else {
                last_sync_line(app, now_secs, now_nanos)
            }
        },
        OperationState::Running(r) => {
            if r.operation == Operation::Sync {
                None
            } else {
                last_sync_line(app, now_secs, now_nanos)
            }
        },
        OperationState::Finished(f) => {
            if f.operation == Operation::Sync {
                let total: u128 = f.summary.success as u128 + f.summary.failed as u128 + f.summary.skipped as u128;
                let a = concat_str("Last Sync ", decimal_string_wide(total).as_str());
                let b = concat_str(a.as_str(), " repos  |  ");
                let c = concat_str(b.as_str(), decimal_string(f.with_updates as u64).as_str());
                let d = concat_str(c.as_str(), " updated  |  ");
                let e = concat_str(d.as_str(), decimal_string(f.summary.failed as u64).as_str());
                Some(concat_str(e.as_str(), " failed"))
            } else {
                last_sync_line(app, now_secs, now_nanos)
            }
        },
        OperationState::Idle => last_sync_line(app, now_secs, now_nanos),
    }
}

/// Whether repository `r` is listed on dashboard tab `stat` (1: all, or
/// those whose full name contains the filter ignoring case; 2: clean; 3:
/// behind; 4: ahead; 5: uncommitted changes).
pub open spec fn in_tab(stat: usize, filter: Seq<char>, r: RepoEntry) -> bool {
    if stat == 1 {
        filter.len() == 0 || has_substring(spec_to_lowercase(r.full_name@), spec_to_lowercase(filter))
    } else if stat == 2 {
        !r.is_uncommitted && r.behind == 0 && r.ahead == 0
    } else if stat == 3 {
        r.behind > 0
    } else if stat == 4 {
        r.ahead > 0
    } else if stat == 5 {
        r.is_uncommitted
    } else {
        false
    }
}

/// The repositories listed on a tab.
pub open spec fn tab_pred(stat: usize, filter: Seq<char>) -> spec_fn(RepoEntry) -> bool {
    |r: RepoEntry| in_tab(stat, filter, r)
}

/// One of the first `n` entries of `repos` is owned by `t`.
pub open spec fn entry_owner_among(repos: Seq<RepoEntry>, n: int, t: Seq<char>) -> bool {
    exists|k: int| 0 <= k < n && #[trigger] repos[k].owner@ == t
}

/// `os` lists each owner of `repos` once, sorted.
pub open spec fn is_owner_list(os: Seq<String>, repos: Seq<RepoEntry>) -> bool {
    &&& strictly_sorted(os)
    &&& forall|k: int| 0 <= k < repos.len() ==> holds_text(os, #[trigger] repos[k].owner@)
    &&& forall|i: int| 0 <= i < os.len() ==> entry_owner_among(repos, repos.len() as int, #[trigger] os[i]@)
}

/// `n` is the number of distinct owners of `repos`.
pub open spec fn owner_count(repos: Seq<RepoEntry>, n: nat) -> bool {
    exists|os: Seq<String>| #[trigger] is_owner_list(os, repos) && os.len() == n
}

/// `n` is the number of rows on the dashboard's current tab: owners on
/// tab 0, listed repositories on tabs 1 to 5, none elsewhere.
pub open spec fn is_tab_item_count(a: App, n: nat) -> bool {
    if a.stat_index == 0 {
        owner_count(a.local_repos@, n)
    } else {
        n == a.local_repos@.filter(tab_pred(a.stat_index, a.filter_text@)).len()
    }
}

/// Whether `r` is listed on tab `stat` with filter `filter`.
fn listed(stat: usize, filter: &String, filter_lc: &String, r: &RepoEntry) -> (b: bool)
    requires
        filter_lc@ == spec_to_lowercase(filter@),
    ensures
        b == in_tab(stat, filter@, *r),
{
    if stat == 1 {
        if filter.as_str().is_empty() {
            true
        } else {
            let name_lc = to_lowercase(r.full_name.as_str());
            contains_text(name_lc.as_str(), filter_lc.as_str())
        }
    } else if stat == 2 {
        !r.is_uncommitted && r.behind == 0 && r.ahead == 0
    } else if stat == 3 {
        r.behind > 0
    } else if stat == 4 {
        r.ahead > 0
    } else if stat == 5 {
        r.is_uncommitted
    } else {
        false
    }
}

/// The number of distinct owners of `repos`.
pub fn count_owners(repos: &Vec<RepoEntry>) -> (n: usize)
    ensures
        owner_count(repos@, n as nat),
{
    let mut os: Vec<String> = Vec::new();
    let mut k: usize = 0;
    while k < repos.len()
        invariant
            0 <= k <= repos@.len(),
            strictly_sorted(os@),
            forall|m: int| 0 <= m < k ==> holds_text(os@, #[trigger] repos@[m].owner@),
            forall|i: int| 0 <= i < os@.len() ==> entry_owner_among(repos@, k as int, #[trigger] os@[i]@),
        decreases repos@.len() - k,
    {
        let ghost before = os@;
        insert_sorted_unique(&mut os, &repos[k].owner);
        proof {
            assert forall|m: int| 0 <= m < k + 1 implies holds_text(os@, #[trigger] repos@[m].owner@) by {
                if m < k {
                    assert(holds_text(before, repos@[m].owner@));
                }
            }
            assert forall|i: int| 0 <= i < os@.len() implies entry_owner_among(repos@, k + 1, #[trigger] os@[i]@) by {
                assert(holds_text(os@, os@[i]@));
                if os@[i]@ == repos@[k as int].owner@ {
                    assert(repos@[k as int].owner@ == os@[i]@);
                } else {
                    assert(holds_text(before, os@[i]@));
                    let j = choose|j: int| 0 <= j < before.len() && #[trigger] before[j]@ == os@[i]@;
                    assert(entry_owner_among(repos@, k as int, before[j]@));
                    let m = choose|m: int| 0 <= m < k && #[trigger] repos@[m].owner@ == before[j]@;
                    assert(repos@[m].owner@ == os@[i]@);
                }
            }
        }
        k = k + 1;
    }
    let n = os.len();
    assert(is_owner_list(os@, repos@));
    n
}

/// The number of repositories listed on tab `stat` (1 to 5) with filter
/// `filter`.
pub fn count_in_tab(repos: &Vec<RepoEntry>, stat: usize, filter: &String) -> (n: usize)
    requires
        1 <= stat <= 5,
    ensures
        n == repos@.filter(tab_pred(stat, filter@)).len(),
{
    let filter_lc = to_lowercase(filter.as_str());
    let ghost pred = tab_pred(stat, filter@);
    let mut n: usize = 0;
    let mut k: usize = 0;
    while k < repos.len()
        invariant
            0 <= k <= repos@.len(),
            filter_lc@ == spec_to_lowercase(filter@),
            pred == tab_pred(stat, filter@),
            n == repos@.take(k as int).filter(pred).len(),
            n <= k,
        decreases repos@.len() - k,
    {
        proof {
            reveal(Seq::filter);
            assert(repos@.take(k + 1).drop_last() =~= repos@.take(k as int));
            assert(repos@.take(k + 1).last() == repos@[k as int]);
        }
        if listed(stat, filter, &filter_lc, &repos[k]) {
            n = n + 1;
        }
        k = k + 1;
    }
    assert(repos@.take(repos@.len() as int) =~= repos@);
    n
}

/// The figures of the dashboard's stat boxes.
#[derive(Debug, Clone, Copy, PartialEq, Eq, Structural)]
pub struct DashboardStats {
    /// Owners with scanned local repositories.
    pub completed_owners: usize,
    /// Owners known at all (discovered or scanned, whichever are more).
    pub total_owners: usize,
    /// Repositories known at all (discovered or scanned, whichever are more).
    pub total_repos: usize,
    pub clean: usize,
    pub behind: usize,
    pub ahead: usize,
    pub uncommitted: usize,
}

/// `s` holds the dashboard's figures for `a`.
pub open spec fn is_dashboard_stats(a: App, s: DashboardStats) -> bool {
    exists|discovered_owners: nat| {
        &&& #[trigger] crate::tui::grouping::is_owner_count_of(a.all_repos@, discovered_owners)
        &&& owner_count(a.local_repos@, s.completed_owners as nat)
        &&& s.total_owners == (if discovered_owners > s.completed_owners { discovered_owners } else { s.completed_owners as nat })
        &&& s.total_repos == (if a.all_repos@.len() > a.local_repos@.len() {
            a.all_repos@.len()
        } else {
            a.local_repos@.len()
        })
        &&& s.clean == a.local_repos@.filter(tab_pred(2, Seq::empty())).len()
        &&& s.behind == a.local_repos@.filter(tab_pred(3, Seq::empty())).len()
        &&& s.ahead == a.local_repos@.filter(tab_pred(4, Seq::empty())).len()
        &&& s.uncommitted == a.local_repos@.filter(tab_pred(5, Seq::empty())).len()
    }
}

/// The figures of the dashboard's stat boxes.
pub fn dashboard_stats(app: &App) -> (s: DashboardStats)
    ensures
        is_dashboard_stats(*app, s),
{
    let completed_owners = count_owners(&app.local_repos);
    let discovered = crate::tui::grouping::sorted_owners(&app.all_repos);
    let discovered_owners = discovered.len();
    proof {
        assert(crate::tui::grouping::is_owner_count_of(app.all_repos@, discovered_owners as nat));
    }
    let empty = String::new();
    let s = DashboardStats {
        completed_owners,
        total_owners: if discovered_owners > completed_owners { discovered_owners } else { completed_owners },
        total_repos: if app.all_repos.len() > app.local_repos.len() {
            app.all_repos.len()
        } else {
            app.local_repos.len()
        },
        clean: count_in_tab(&app.local_repos, 2, &empty),
        behind: count_in_tab(&app.local_repos, 3, &empty),
        ahead: count_in_tab(&app.local_repos, 4, &empty),
        uncommitted: count_in_tab(&app.local_repos, 5, &empty),
    };
    s
}

/// The number of rows on the dashboard's current tab.
pub fn tab_item_count(app: &App) -> (n: usize)
    ensures
        is_tab_item_count(*app, n as nat),
{
    if app.stat_index == 0 {
        return count_owners(&app.local_repos);
    }
    let filter_lc = to_lowercase(app.filter_text.as_str());
    let ghost pred = tab_pred(app.stat_index, app.filter_text@);
    let mut n: usize = 0;
    let mut k: usize = 0;
    while k < app.local_repos.len()
        invariant
            0 <= k <= app.local_repos@.len(),
            filter_lc@ == spec_to_lowercase(app.filter_text@),
            pred == tab_pred(app.stat_index, app.filter_text@),
            n == app.local_repos@.take(k as int).filter(pred).len(),
            n <= k,
        decreases app.local_repos@.len() - k,
    {
        proof {
            reveal(Seq::filter);
            assert(app.local_repos@.take(k + 1).drop_last() =~= app.local_repos@.take(k as int));
            assert(app.local_repos@.take(k + 1).last() == app.local_repos@[k as int]);
        }
        if listed(app.stat_index, &app.filter_text, &filter_lc, &app.local_repos[k]) {
            n = n + 1;
        }
        k = k + 1;
    }
    assert(app.local_repos@.take(app.local_repos@.len() as int) =~= app.local_repos@);
    n
}

/// `i` is the position in `repos` of the `sel`-th repository (from 0) that
/// satisfies `p`.
pub open spec fn is_nth_match(repos: Seq<RepoEntry>, p: spec_fn(RepoEntry) -> bool, sel: nat, i: int) -> bool {
    &&& 0 <= i < repos.len()
    &&& p(repos[i])
    &&& repos.take(i).filter(p).len() == sel
}

/// The folder of the selected row: the selected repository on tabs 1 to 5,
/// nothing on the owners tab or without a selection.
pub open spec fn is_selected_path(a: App, r: Option<String>) -> bool {
    match (a.dashboard_selected, a.stat_index) {
        (Some(sel), stat) if 1 <= stat <= 5 => {
            let p = tab_pred(stat, a.filter_text@);
            match r {
                Some(path) => exists|i: int| is_nth_match(a.local_repos@, p, sel as nat, i)
                    && #[trigger] a.local_repos@[i].path@ == path@,
                None => forall|i: int| !is_nth_match(a.local_repos@, p, sel as nat, i),
            }
        },
        _ => r is None,
    }
}

/// The folder of the repository on the selected row, if any.
pub fn selected_repo_path(app: &App) -> (r: Option<String>)
    ensures
        is_selected_path(*app, r),
{
    let sel = match app.dashboard_selected {
        Some(s) => s,
        None => return None,
    };
    if app.stat_index == 0 || app.stat_index > 5 {
        return None;
    }
    let filter_lc = to_lowercase(app.filter_text.as_str());
    let ghost pred = tab_pred(app.stat_index, app.filter_text@);
    let mut n: usize = 0;
    let mut k: usize = 0;
    while k < app.local_repos.len()
        invariant
            0 <= k <= app.local_repos@.len(),
            1 <= app.stat_index <= 5,
            app.dashboard_selected == Some(sel),
            filter_lc@ == spec_to_lowercase(app.filter_text@),
            pred == tab_pred(app.stat_index, app.filter_text@),
            n == app.local_repos@.take(k as int).filter(pred).len(),
            n <= sel,
            forall|i: int| 0 <= i < k ==> !is_nth_match(app.local_repos@, pred, sel as nat, i),
        decreases app.local_repos@.len() - k,
    {
        proof {
            reveal(Seq::filter);
            assert(app.local_repos@.take(k + 1).drop_last() =~= app.local_repos@.take(k as int));
            assert(app.local_repos@.take(k + 1).last() == app.local_repos@[k as int]);
        }
        if listed(app.stat_index, &app.filter_text, &filter_lc, &app.local_repos[k]) {
            if n == sel {
                assert(is_nth_match(app.local_repos@, pred, sel as nat, k as int));
                let path = app.local_repos[k].path.clone();
                assert(app.local_repos@[k as int].path@ == path@);
                return Some(path);
            }
            n = n + 1;
        }
        k = k + 1;
    }
    proof {
        assert forall|i: int| !is_nth_match(app.local_repos@, pred, sel as nat, i) by {
            if 0 <= i < app.local_repos@.len() {
            }
        }
    }
    None
}

/// The positions of the repositories listed on the current tab (1 to 5),
/// in order: the `j`-th of them is the `j`-th listed repository. The owners
/// tab (0) lists no repositories.
pub fn tab_positions(app: &App) -> (r: Vec<usize>)
    ensures
        1 <= app.stat_index <= 5 ==> r@.len() == app.local_repos@.filter(tab_pred(app.stat_index, app.filter_text@)).len(),
        !(1 <= app.stat_index <= 5) ==> r@.len() == 0,
        forall|j: int| 0 <= j < r@.len() ==>
            is_nth_match(app.local_repos@, tab_pred(app.stat_index, app.filter_text@), j as nat, #[trigger] r@[j] as int),
{
    let mut r: Vec<usize> = Vec::new();
    if app.stat_index == 0 || app.stat_index > 5 {
        return r;
    }
    let filter_lc = to_lowercase(app.filter_text.as_str());
    let ghost pred = tab_pred(app.stat_index, app.filter_text@);
    let mut k: usize = 0;
    while k < app.local_repos.len()
        invariant
            0 <= k <= app.local_repos@.len(),
            1 <= app.stat_index <= 5,
            filter_lc@ == spec_to_lowercase(app.filter_text@),
            pred == tab_pred(app.stat_index, app.filter_text@),
            r@.len() == app.local_repos@.take(k as int).filter(pred).len(),
            forall|j: int| 0 <= j < r@.len() ==>
                is_nth_match(app.local_repos@, pred, j as nat, #[trigger] r@[j] as int),
        decreases app.local_repos@.len() - k,
    {
        proof {
            reveal(Seq::filter);
            assert(app.local_repos@.take(k + 1).drop_last() =~= app.local_repos@.take(k as int));
            assert(app.local_repos@.take(k + 1).last() == app.local_repos@[k as int]);
        }
        if listed(app.stat_index, &app.filter_text, &filter_lc, &app.local_repos[k]) {
            r.push(k);
        }
        k = k + 1;
    }
    assert(app.local_repos@.take(app.local_repos@.len() as int) =~= app.local_repos@);
    r
}

/// `b` is `a` after navigating to `screen`.
pub open spec fn navigated(a: App, screen: Screen, b: App) -> bool {
    &&& b.screen_stack@ == a.screen_stack@.push(a.screen)
    &&& b == (App { screen, screen_stack: b.screen_stack, repo_index: 0, scroll_offset: 0, ..a })
}

/// `a` with tab `stat` shown from its first row.
pub open spec fn on_tab(a: App, stat: usize) -> App {
    App { stat_index: stat, dashboard_selected: Some(0usize), ..a }
}

/// The tab that a letter key shows: o(wners), r(epos), c(lean), b(ehind),
/// a(head), u(ncommitted).
pub open spec fn tab_of_key(c: char) -> Option<usize> {
    if c == 'o' {
        Some(0usize)
    } else if c == 'r' {
        Some(1usize)
    } else if c == 'c' {
        Some(2usize)
    } else if c == 'b' {
        Some(3usize)
    } else if c == 'a' {
        Some(4usize)
    } else if c == 'u' {
        Some(5usize)
    } else {
        None
    }
}

/// The dashboard's response to the character key `c`.
pub open spec fn dashboard_char_key(a: App, c: char, b: App, act: Option<AppAction>) -> bool {
    if c == 's' {
        starts_operation(a, Operation::Sync, b, act)
    } else if c == 'p' {
        shows_sync(a, b) && act is None
    } else if c == 't' {
        starts_operation(App { last_status_scan: None, status_loading: true, ..a }, Operation::Status, b, act)
    } else if tab_of_key(c) is Some {
        b == on_tab(a, tab_of_key(c)->0) && act is None
    } else if c == 'e' || c == 'i' {
        navigated(a, Screen::Settings, b) && act is None
    } else if c == 'w' {
        navigated(a, Screen::Workspaces, b) && act is None
    } else if c == '/' {
        &&& b.filter_text@.len() == 0
        &&& b == (App { filter_active: true, filter_text: b.filter_text, ..on_tab(a, 1) })
        &&& act is None
    } else {
        b == a && act is None
    }
}

/// The selected row of the dashboard (the first when none is).
pub open spec fn current_row(a: App) -> usize {
    match a.dashboard_selected {
        Some(x) => x,
        None => 0usize,
    }
}

/// Moving the selection down (`down`) or up within the current tab.
pub open spec fn dashboard_row_key(a: App, down: bool, b: App) -> bool {
    let cur = current_row(a);
    exists|n: nat| #[trigger] is_tab_item_count(a, n) && if down {
        if n > 0 && cur + 1 < n {
            b == (App { dashboard_selected: Some((cur + 1) as usize), ..a })
        } else {
            b == a
        }
    } else {
        if n > 0 {
            b == (App { dashboard_selected: Some(if cur > 0 { (cur - 1) as usize } else { 0usize }), ..a })
        } else {
            b == a
        }
    }
}

/// Enter opens the folder of the repository on the selected row.
pub open spec fn opens_selected(a: App, act: Option<AppAction>) -> bool {
    exists|p: Option<String>| #[trigger] is_selected_path(a, p) && match p {
        Some(path) => act matches Some(AppAction::OpenFolder(f)) && f@ == path@,
        None => act is None,
    }
}

/// The dashboard's response to key `k`.
pub open spec fn dashboard_key(a: App, k: KeyInput, b: App, act: Option<AppAction>) -> bool {
    match k.code {
        KeyCode::Char(c) => dashboard_char_key(a, c, b, act),
        KeyCode::Left => b == on_tab(a, if a.stat_index > 0 { (a.stat_index - 1) as usize } else { 0 }) && act is None,
        KeyCode::Right => (if a.stat_index < 5 { b == on_tab(a, (a.stat_index + 1) as usize) } else { b == a }) && act is None,
        KeyCode::Down => dashboard_row_key(a, true, b) && act is None,
        KeyCode::Up => dashboard_row_key(a, false, b) && act is None,
        KeyCode::Enter => b == a && opens_selected(a, act),
        _ => b == a && act is None,
    }
}

fn select_tab(app: &mut App, stat: usize)
    ensures
        *final(app) == on_tab(*old(app), stat),
{
    app.stat_index = stat;
    app.dashboard_selected = Some(0);
}

fn open_filter(app: &mut App)
    ensures
        final(app).filter_text@.len() == 0,
        *final(app) == (App { filter_active: true, filter_text: final(app).filter_text, ..on_tab(*old(app), 1) }),
{
    app.filter_active = true;
    app.filter_text = String::new();
    app.stat_index = 1;
    app.dashboard_selected = Some(0);
}

fn rescan_status(app: &mut App) -> (act: Option<AppAction>)
    ensures
        starts_operation(App { last_status_scan: None, status_loading: true, ..*old(app) }, Operation::Status, *final(app), act),
{
    app.last_status_scan = None;
    app.status_loading = true;
    start_operation(app, Operation::Status)
}

fn tab_key(c: char) -> (r: Option<usize>)
    ensures
        r == tab_of_key(c),
{
    if c == 'o' {
        Some(0)
    } else if c == 'r' {
        Some(1)
    } else if c == 'c' {
        Some(2)
    } else if c == 'b' {
        Some(3)
    } else if c == 'a' {
        Some(4)
    } else if c == 'u' {
        Some(5)
    } else {
        None
    }
}

#[verifier::rlimit(40)]
fn char_key(app: &mut App, c: char) -> (act: Option<AppAction>)
    ensures
        dashboard_char_key(*old(app), c, *final(app), act),
{
    if c == 's' {
        return start_operation(app, Operation::Sync);
    }
    if c == 'p' {
        show_sync_progress(app);
        return None;
    }
    if c == 't' {
        return rescan_status(app);
    }
    match tab_key(c) {
        Some(stat) => {
            select_tab(app, stat);
            return None;
        },
        None => {},
    }
    if c == 'e' || c == 'i' {
        app.navigate_to(Screen::Settings);
    } else if c == 'w' {
        app.navigate_to(Screen::Workspaces);
    } else if c == '/' {
        open_filter(app);
    }
    None
}

fn row_key(app: &mut App, down: bool)
    ensures
        dashboard_row_key(*old(app), down, *final(app)),
{
    let n = tab_item_count(app);
    let cur: usize = match app.dashboard_selected { Some(x) => x, None => 0 };
    if down {
        if n > 0 && cur < n - 1 {
            app.dashboard_selected = Some(cur + 1);
        }
    } else {
        if n > 0 {
            app.dashboard_selected = Some(if cur > 0 { cur - 1 } else { 0 });
        }
    }
}

/// Applies a key press on the dashboard.
#[verifier::rlimit(30)]
pub fn handle_key(app: &mut App, key: KeyInput) -> (act: Option<AppAction>)
    ensures
        dashboard_key(*old(app), key, *final(app), act),
{
    match key.code {
        KeyCode::Char(c) => char_key(app, c),
        KeyCode::Left => {
            app.stat_index = if app.stat_index > 0 { app.stat_index - 1 } else { 0 };
            app.dashboard_selected = Some(0);
            None
        },
        KeyCode::Right => {
            if app.stat_index < 5 {
                app.stat_index = app.stat_index + 1;
                app.dashboard_selected = Some(0);
            }
            None
        },
        KeyCode::Down => {
            row_key(app, true);
            None
        },
        KeyCode::Up => {
            row_key(app, false);
            None
        },
        KeyCode::Enter => open_selected(app),
        _ => None,
    }
}

/// Asks to open the folder of the selected repository, if there is one.
fn open_selected(app: &App) -> (act: Option<AppAction>)
    ensures
        opens_selected(*app, act),
{
    let p = selected_repo_path(app);
    let ghost pv = p;
    let act = match p {
        Some(path) => Some(AppAction::OpenFolder(path)),
        None => None,
    };
    assert(is_selected_path(*app, pv));
    act
}

} // verus!
