//! Sync screen keys: scrolling the running log, and after the sync the
//! filterable log, the commit deep dive, the changelog and the history.

use vstd::prelude::*;
use crate::input::{KeyCode, KeyInput};
use crate::text::{opt_view, str_eq};
use crate::tui::app::{App, LogFilter, Operation, OperationState, SyncLogEntry, SyncLogStatus};
use crate::tui::dashboard::{hide_sync_progress, hides_sync, start_operation, starts_operation};
use crate::tui::messages::AppAction;

verus! {

/// Whether log entry `e` is shown under filter `f`.
pub open spec fn in_log_filter(f: LogFilter, e: SyncLogEntry) -> bool {
    match f {
        LogFilter::All => true,
        LogFilter::Updated => e.had_updates || e.is_clone,
        LogFilter::Failed => e.status == SyncLogStatus::Failed,
        LogFilter::Skipped => e.status == SyncLogStatus::Skipped,
        LogFilter::Changelog => e.had_updates,
    }
}

/// The entries shown under filter `f`.
pub open spec fn log_pred(f: LogFilter) -> spec_fn(SyncLogEntry) -> bool {
    |e: SyncLogEntry| in_log_filter(f, e)
}

fn shown(f: LogFilter, e: &SyncLogEntry) -> (b: bool)
    ensures
        b == in_log_filter(f, *e),
{
    match f {
        LogFilter::All => true,
        LogFilter::Updated => e.had_updates || e.is_clone,
        LogFilter::Failed => e.status == SyncLogStatus::Failed,
        LogFilter::Skipped => e.status == SyncLogStatus::Skipped,
        LogFilter::Changelog => e.had_updates,
    }
}

/// The number of log entries shown under the current filter.
pub fn filtered_log_count(app: &App) -> (n: usize)
    ensures
        n == app.sync_log_entries@.filter(log_pred(app.log_filter)).len(),
{
    let ghost pred = log_pred(app.log_filter);
    let mut n: usize = 0;
    let mut k: usize = 0;
    while k < app.sync_log_entries.len()
        invariant
            0 <= k <= app.sync_log_entries@.len(),
            pred == log_pred(app.log_filter),
            n == app.sync_log_entries@.take(k as int).filter(pred).len(),
            n <= k,
        decreases app.sync_log_entries@.len() - k,
    {
        proof {
            reveal(Seq::filter);
            assert(app.sync_log_entries@.take(k + 1).drop_last() =~= app.sync_log_entries@.take(k as int));
            assert(app.sync_log_entries@.take(k + 1).last() == app.sync_log_entries@[k as int]);
        }
        if shown(app.log_filter, &app.sync_log_entries[k]) {
            n = n + 1;
        }
        k = k + 1;
    }
    assert(app.sync_log_entries@.take(app.sync_log_entries@.len() as int) =~= app.sync_log_entries@);
    n
}

/// `i` is the position of the `sel`-th entry (from 0) shown under `p`.
pub open spec fn is_nth_entry(s: Seq<SyncLogEntry>, p: spec_fn(SyncLogEntry) -> bool, sel: nat, i: int) -> bool {
    &&& 0 <= i < s.len()
    &&& p(s[i])
    &&& s.take(i).filter(p).len() == sel
}

/// The position of the selected entry of the filtered log, if it exists.
pub fn selected_entry(app: &App) -> (r: Option<usize>)
    ensures
        match r {
            Some(i) => is_nth_entry(app.sync_log_entries@, log_pred(app.log_filter), app.sync_log_index as nat, i as int),
            None => forall|i: int| !is_nth_entry(app.sync_log_entries@, log_pred(app.log_filter), app.sync_log_index as nat, i),
        },
{
    let ghost pred = log_pred(app.log_filter);
    let sel = app.sync_log_index;
    let mut n: usize = 0;
    let mut k: usize = 0;
    while k < app.sync_log_entries.len()
        invariant
            0 <= k <= app.sync_log_entries@.len(),
            pred == log_pred(app.log_filter),
            sel == app.sync_log_index,
            n == app.sync_log_entries@.take(k as int).filter(pred).len(),
            n <= sel,
            forall|i: int| 0 <= i < k ==> !is_nth_entry(app.sync_log_entries@, pred, sel as nat, i),
        decreases app.sync_log_entries@.len() - k,
    {
        proof {
            reveal(Seq::filter);
            assert(app.sync_log_entries@.take(k + 1).drop_last() =~= app.sync_log_entries@.take(k as int));
            assert(app.sync_log_entries@.take(k + 1).last() == app.sync_log_entries@[k as int]);
        }
        if shown(app.log_filter, &app.sync_log_entries[k]) {
            if n == sel {
                return Some(k);
            }
            n = n + 1;
        }
        k = k + 1;
    }
    proof {
        assert forall|i: int| !is_nth_entry(app.sync_log_entries@, pred, sel as nat, i) by {
            if 0 <= i < app.sync_log_entries@.len() {
            }
        }
    }
    None
}

/// The positions of the log entries shown under the current filter, in
/// order: the `j`-th of them is the `j`-th entry that the filter shows.
pub fn filtered_log_positions(app: &App) -> (r: Vec<usize>)
    ensures
        r@.len() == app.sync_log_entries@.filter(log_pred(app.log_filter)).len(),
        forall|j: int| 0 <= j < r@.len() ==>
            is_nth_entry(app.sync_log_entries@, log_pred(app.log_filter), j as nat, #[trigger] r@[j] as int),
{
    let ghost pred = log_pred(app.log_filter);
    let mut r: Vec<usize> = Vec::new();
    let mut k: usize = 0;
    while k < app.sync_log_entries.len()
        invariant
            0 <= k <= app.sync_log_entries@.len(),
            pred == log_pred(app.log_filter),
            r@.len() == app.sync_log_entries@.take(k as int).filter(pred).len(),
            forall|j: int| 0 <= j < r@.len() ==>
                is_nth_entry(app.sync_log_entries@, pred, j as nat, #[trigger] r@[j] as int),
        decreases app.sync_log_entries@.len() - k,
    {
        proof {
            reveal(Seq::filter);
            assert(app.sync_log_entries@.take(k + 1).drop_last() =~= app.sync_log_entries@.take(k as int));
            assert(app.sync_log_entries@.take(k + 1).last() == app.sync_log_entries@[k as int]);
        }
        if shown(app.log_filter, &app.sync_log_entries[k]) {
            r.push(k);
        }
        k = k + 1;
    }
    assert(app.sync_log_entries@.take(app.sync_log_entries@.len() as int) =~= app.sync_log_entries@);
    r
}

/// Entries of the changelog: those with updates whose folder is known.
pub open spec fn changelog_pred() -> spec_fn(SyncLogEntry) -> bool {
    |e: SyncLogEntry| e.had_updates && e.path is Some
}

/// The (name, folder) pair of a changelog entry.
pub open spec fn changelog_item(e: SyncLogEntry) -> (Seq<char>, Seq<char>) {
    (e.repo_name@, e.path->0@)
}

/// The (name, folder) pairs of the repositories that the changelog shows.
fn changelog_repos(entries: &Vec<SyncLogEntry>) -> (r: Vec<(String, String)>)
    ensures
        r@.map_values(|x: (String, String)| (x.0@, x.1@))
            == entries@.filter(changelog_pred()).map_values(|e: SyncLogEntry| changelog_item(e)),
{
    let ghost pred = changelog_pred();
    let mut r: Vec<(String, String)> = Vec::new();
    let mut k: usize = 0;
    while k < entries.len()
        invariant
            0 <= k <= entries@.len(),
            pred == changelog_pred(),
            r@.map_values(|x: (String, String)| (x.0@, x.1@))
                == entries@.take(k as int).filter(pred).map_values(|e: SyncLogEntry| changelog_item(e)),
        decreases entries@.len() - k,
    {
        proof {
            reveal(Seq::filter);
            assert(entries@.take(k + 1).drop_last() =~= entries@.take(k as int));
            assert(entries@.take(k + 1).last() == entries@[k as int]);
        }
        let e = &entries[k];
        if e.had_updates {
            match &e.path {
                Some(p) => {
                    let ghost before = r@;
                    r.push((e.repo_name.clone(), p.clone()));
                    proof {
                        let f = |x: (String, String)| (x.0@, x.1@);
                        let g = |e: SyncLogEntry| changelog_item(e);
                        assert(r@.map_values(f) =~= before.map_values(f).push(f(r@.last())));
                        assert(entries@.take(k + 1).filter(pred) == entries@.take(k as int).filter(pred).push(entries@[k as int]));
                        assert(entries@.take(k + 1).filter(pred).map_values(g)
                            =~= entries@.take(k as int).filter(pred).map_values(g).push(g(entries@[k as int])));
                    }
                },
                None => {},
            }
        }
        k = k + 1;
    }
    assert(entries@.take(entries@.len() as int) =~= entries@);
    r
}

/// Choosing filter `f`: the log restarts at its first entry with nothing
/// expanded; the changelog also starts collecting the commits of the updated
/// repositories whose folder is known (and asks to fetch them when there
/// are any).
pub open spec fn filter_applied(a: App, f: LogFilter, b: App, act: Option<AppAction>) -> bool {
    &&& b.repo_commits@.len() == 0
    &&& if f == LogFilter::Changelog {
        let items = a.sync_log_entries@.filter(changelog_pred()).map_values(|e: SyncLogEntry| changelog_item(e));
        &&& b.changelog_total == items.len()
        &&& b.changelog_commits@.len() == 0
        &&& b == (App {
            log_filter: f,
            sync_log_index: 0,
            expanded_repo: None,
            repo_commits: b.repo_commits,
            changelog_scroll: 0,
            changelog_total: b.changelog_total,
            changelog_loaded: 0,
            changelog_commits: b.changelog_commits,
            ..a
        })
        &&& if items.len() > 0 {
            act matches Some(AppAction::FetchChangelog(list))
                && list@.map_values(|x: (String, String)| (x.0@, x.1@)) == items
        } else {
            act is None
        }
    } else {
        &&& b == (App {
            log_filter: f,
            sync_log_index: 0,
            expanded_repo: None,
            repo_commits: b.repo_commits,
            changelog_scroll: 0,
            ..a
        })
        &&& act is None
    }
}

/// Switches the post-sync log to filter `f`.
pub fn apply_log_filter(app: &mut App, f: LogFilter) -> (act: Option<AppAction>)
    ensures
        filter_applied(*old(app), f, *final(app), act),
{
    app.log_filter = f;
    app.sync_log_index = 0;
    app.expanded_repo = None;
    app.repo_commits = Vec::new();
    app.changelog_scroll = 0;
    if f != LogFilter::Changelog {
        return None;
    }
    let repos = changelog_repos(&app.sync_log_entries);
    app.changelog_total = repos.len();
    app.changelog_loaded = 0;
    app.changelog_commits = Vec::new();
    if repos.len() > 0 {
        Some(AppAction::FetchChangelog(repos))
    } else {
        None
    }
}

/// The position of a filter in the cycle All, Updated, Failed, Skipped,
/// Changelog.
pub open spec fn filter_pos(f: LogFilter) -> int {
    match f {
        LogFilter::All => 0,
        LogFilter::Updated => 1,
        LogFilter::Failed => 2,
        LogFilter::Skipped => 3,
        LogFilter::Changelog => 4,
    }
}

/// The filter at a position of the cycle.
pub open spec fn filter_at(i: int) -> LogFilter {
    if i == 0 {
        LogFilter::All
    } else if i == 1 {
        LogFilter::Updated
    } else if i == 2 {
        LogFilter::Failed
    } else if i == 3 {
        LogFilter::Skipped
    } else {
        LogFilter::Changelog
    }
}

/// The filter one step forward (or back) in the cycle from `f`.
pub open spec fn cycled(f: LogFilter, forward: bool) -> LogFilter {
    filter_at(if forward { (filter_pos(f) + 1) % 5 } else { (filter_pos(f) + 4) % 5 })
}

/// Moves to the next (or previous) filter of the cycle.
pub fn cycle_filter(app: &mut App, forward: bool) -> (act: Option<AppAction>)
    ensures
        filter_applied(*old(app), cycled(old(app).log_filter, forward), *final(app), act),
{
    let next = match (app.log_filter, forward) {
        (LogFilter::All, true) => LogFilter::Updated,
        (LogFilter::Updated, true) => LogFilter::Failed,
        (LogFilter::Failed, true) => LogFilter::Skipped,
        (LogFilter::Skipped, true) => LogFilter::Changelog,
        (LogFilter::Changelog, true) => LogFilter::All,
        (LogFilter::All, false) => LogFilter::Changelog,
        (LogFilter::Updated, false) => LogFilter::All,
        (LogFilter::Failed, false) => LogFilter::Updated,
        (LogFilter::Skipped, false) => LogFilter::Failed,
        (LogFilter::Changelog, false) => LogFilter::Skipped,
    };
    apply_log_filter(app, next)
}

/// The filter that a letter key chooses after a sync: a(ll), u(pdated),
/// f(ailed), x (skipped), c(hangelog).
pub open spec fn filter_of_key(c: char) -> Option<LogFilter> {
    if c == 'a' {
        Some(LogFilter::All)
    } else if c == 'u' {
        Some(LogFilter::Updated)
    } else if c == 'f' {
        Some(LogFilter::Failed)
    } else if c == 'x' {
        Some(LogFilter::Skipped)
    } else if c == 'c' {
        Some(LogFilter::Changelog)
    } else {
        None
    }
}

/// The running log scrolled one line down, stopping at its last line.
pub open spec fn scrolled_down(a: App) -> App {
    if a.scroll_offset + 1 < a.log_lines@.len() {
        App { scroll_offset: (a.scroll_offset + 1) as usize, ..a }
    } else {
        a
    }
}

/// The running log scrolled one line up, stopping at its first line.
pub open spec fn scrolled_up(a: App) -> App {
    App { scroll_offset: if a.scroll_offset > 0 { (a.scroll_offset - 1) as usize } else { 0 }, ..a }
}

/// Down after a sync: the changelog scrolls, the log selection moves down
/// (stopping at the last shown entry).
pub open spec fn finished_down(a: App, b: App) -> bool {
    if a.log_filter == LogFilter::Changelog {
        b == (App { changelog_scroll: (a.changelog_scroll + 1) as usize, ..a })
    } else {
        let n = a.sync_log_entries@.filter(log_pred(a.log_filter)).len();
        if n > 0 && a.sync_log_index + 1 < n {
            b == (App { sync_log_index: (a.sync_log_index + 1) as usize, ..a })
        } else {
            b == a
        }
    }
}

/// Up after a sync: the changelog scrolls back, the log selection moves up.
pub open spec fn finished_up(a: App) -> App {
    if a.log_filter == LogFilter::Changelog {
        App { changelog_scroll: if a.changelog_scroll > 0 { (a.changelog_scroll - 1) as usize } else { 0 }, ..a }
    } else {
        App { sync_log_index: if a.sync_log_index > 0 { (a.sync_log_index - 1) as usize } else { 0 }, ..a }
    }
}

/// Enter after a sync: the selected entry collapses when it is expanded,
/// else it expands and its commits are fetched when its folder is known.
pub open spec fn toggles_entry(a: App, b: App, act: Option<AppAction>) -> bool {
    let p = log_pred(a.log_filter);
    let sel = a.sync_log_index as nat;
    ||| ((forall|i: int| !is_nth_entry(a.sync_log_entries@, p, sel, i)) && b == a && act is None)
    ||| exists|i: int| #[trigger] is_nth_entry(a.sync_log_entries@, p, sel, i) && {
        let e = a.sync_log_entries@[i];
        if a.expanded_repo matches Some(x) && x@ == e.repo_name@ {
            &&& b.repo_commits@.len() == 0
            &&& b == (App { expanded_repo: None, repo_commits: b.repo_commits, ..a })
            &&& act is None
        } else if e.path is Some {
            &&& b.repo_commits@.len() == 0
            &&& b.expanded_repo matches Some(x) && x@ == e.repo_name@
            &&& b == (App { expanded_repo: b.expanded_repo, repo_commits: b.repo_commits, ..a })
            &&& act matches Some(AppAction::FetchCommits { repo_name, path })
                && repo_name@ == e.repo_name@ && path@ == e.path->0@
        } else {
            b == a && act is None
        }
    }
}

/// The sync screen's response to key `k`.
pub open spec fn sync_key(a: App, k: KeyInput, b: App, act: Option<AppAction>) -> bool {
    let fin = a.operation_state is Finished;
    match k.code {
        KeyCode::Char(c) => {
            if c == 's' {
                starts_operation(a, Operation::Sync, b, act)
            } else if c == 'p' {
                hides_sync(a, b) && act is None
            } else if fin && filter_of_key(c) is Some {
                filter_applied(a, filter_of_key(c)->0, b, act)
            } else if fin && c == 'h' {
                b == (App { show_sync_history: !a.show_sync_history, ..a }) && act is None
            } else {
                b == a && act is None
            }
        },
        KeyCode::Down => act is None && if fin { finished_down(a, b) } else { b == scrolled_down(a) },
        KeyCode::Up => act is None && b == (if fin { finished_up(a) } else { scrolled_up(a) }),
        KeyCode::Left => if fin {
            filter_applied(a, cycled(a.log_filter, false), b, act)
        } else {
            b == scrolled_up(a) && act is None
        },
        KeyCode::Right => if fin {
            filter_applied(a, cycled(a.log_filter, true), b, act)
        } else {
            b == scrolled_down(a) && act is None
        },
        KeyCode::Enter => if fin { toggles_entry(a, b, act) } else { b == a && act is None },
        _ => b == a && act is None,
    }
}

/// The changelog can scroll one more line.
pub open spec fn sync_key_fits(a: App) -> bool {
    a.changelog_scroll < usize::MAX
}

fn scroll_down(app: &mut App)
    ensures
        *final(app) == scrolled_down(*old(app)),
{
    if app.log_lines.len() > 0 && app.scroll_offset < app.log_lines.len() - 1 {
        app.scroll_offset = app.scroll_offset + 1;
    }
}

fn scroll_up(app: &mut App)
    ensures
        *final(app) == scrolled_up(*old(app)),
{
    app.scroll_offset = if app.scroll_offset > 0 { app.scroll_offset - 1 } else { 0 };
}

fn down_finished(app: &mut App)
    requires
        sync_key_fits(*old(app)),
    ensures
        finished_down(*old(app), *final(app)),
{
    if app.log_filter == LogFilter::Changelog {
        app.changelog_scroll = app.changelog_scroll + 1;
    } else {
        let n = filtered_log_count(app);
        if n > 0 && app.sync_log_index < n - 1 {
            app.sync_log_index = app.sync_log_index + 1;
        }
    }
}

fn up_finished(app: &mut App)
    ensures
        *final(app) == finished_up(*old(app)),
{
    if app.log_filter == LogFilter::Changelog {
        app.changelog_scroll = if app.changelog_scroll > 0 { app.changelog_scroll - 1 } else { 0 };
    } else {
        app.sync_log_index = if app.sync_log_index > 0 { app.sync_log_index - 1 } else { 0 };
    }
}

fn toggle_entry(app: &mut App) -> (act: Option<AppAction>)
    ensures
        toggles_entry(*old(app), *final(app), act),
{
    match selected_entry(app) {
        None => None,
        Some(i) => {
            let expanded = match &app.expanded_repo {
                Some(x) => str_eq(x.as_str(), app.sync_log_entries[i].repo_name.as_str()),
                None => false,
            };
            if expanded {
                app.expanded_repo = None;
                app.repo_commits = Vec::new();
                None
            } else {
                match &app.sync_log_entries[i].path {
                    Some(p) => {
                        let path = p.clone();
                        let name = app.sync_log_entries[i].repo_name.clone();
                        let shown_name = app.sync_log_entries[i].repo_name.clone();
                        app.expanded_repo = Some(shown_name);
                        app.repo_commits = Vec::new();
                        Some(AppAction::FetchCommits { repo_name: name, path })
                    },
                    None => None,
                }
            }
        },
    }
}

fn filter_key(c: char) -> (r: Option<LogFilter>)
    ensures
        r == filter_of_key(c),
{
    if c == 'a' {
        Some(LogFilter::All)
    } else if c == 'u' {
        Some(LogFilter::Updated)
    } else if c == 'f' {
        Some(LogFilter::Failed)
    } else if c == 'x' {
        Some(LogFilter::Skipped)
    } else if c == 'c' {
        Some(LogFilter::Changelog)
    } else {
        None
    }
}

fn sync_char_key(app: &mut App, c: char, fin: bool) -> (act: Option<AppAction>)
    requires
        fin == (old(app).operation_state is Finished),
    ensures
        sync_key(*old(app), KeyInput { code: KeyCode::Char(c), ctrl: false }, *final(app), act),
{
    if c == 's' {
        return start_operation(app, Operation::Sync);
    }
    if c == 'p' {
        hide_sync_progress(app);
        return None;
    }
    if fin {
        match filter_key(c) {
            Some(f) => {
                return apply_log_filter(app, f);
            },
            None => {},
        }
        if c == 'h' {
            app.show_sync_history = !app.show_sync_history;
        }
    }
    None
}

/// Applies a key press on the sync screen.
pub fn handle_key(app: &mut App, key: KeyInput) -> (act: Option<AppAction>)
    requires
        sync_key_fits(*old(app)),
    ensures
        sync_key(*old(app), key, *final(app), act),
{
    let fin = match &app.operation_state {
        OperationState::Finished(_) => true,
        _ => false,
    };
    match key.code {
        KeyCode::Char(c) => {
            let ghost a = *app;
            let act = sync_char_key(app, c, fin);
            proof {
                assert(sync_key(a, KeyInput { code: KeyCode::Char(c), ctrl: false }, *app, act));
            }
            act
        },
        KeyCode::Down => {
            if fin {
                down_finished(app);
            } else {
                scroll_down(app);
            }
            None
        },
        KeyCode::Up => {
            if fin {
                up_finished(app);
            } else {
                scroll_up(app);
            }
            None
        },
        KeyCode::Left => {
            if fin {
                cycle_filter(app, false)
            } else {
                scroll_up(app);
                None
            }
        },
        KeyCode::Right => {
            if fin {
                cycle_filter(app, true)
            } else {
                scroll_down(app);
                None
            }
        },
        KeyCode::Enter => {
            if fin {
                toggle_entry(app)
            } else {
                None
            }
        },
        _ => None,
    }
}

} // verus!
