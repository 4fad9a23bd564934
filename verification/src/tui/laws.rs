//! Properties that hold across the TUI's transitions.

use vstd::prelude::*;
use crate::tui::app::{App, LogFilter, OperationState, RunState, Screen};
use crate::types::OpSummary;
use crate::tui::dashboard::{hides_sync, navigated, shows_sync};
use crate::tui::handler::{sampled, MAX_THROUGHPUT_SAMPLES};
use crate::tui::messages::{
    appended_line, capped_log, changelog_stored, counted, finish_of, repo_progress_step, spec_log_status, spec_status_prefix, history_pushed, is_fresh_running, MAX_LOG_LINES,
    MAX_SYNC_HISTORY,
};
use crate::tui::sync_screen::cycled;
use crate::input::{is_quit_key, KeyCode, KeyInput};
use crate::tui::handler::app_key;
use crate::tui::messages::AppAction;

verus! {

/// Every finished report of a running operation was counted exactly once:
/// as skipped, failed, cloned or synced.
pub open spec fn balanced(r: RunState) -> bool {
    &&& r.completed == r.skipped + r.failed + r.cloned + r.synced
    &&& r.with_updates <= r.cloned + r.synced
}

/// A running operation starts balanced, and each progress report keeps it
/// balanced: the completed count is always the sum of the skipped, failed,
/// cloned and synced counts, and no more repositories had updates than
/// were cloned or synced.
pub proof fn lemma_progress_stays_balanced(
    r: RunState,
    t: RunState,
    name: Seq<char>,
    success: bool,
    skipped: bool,
    had_updates: bool,
    is_clone: bool,
    new_commits: Option<u32>,
)
    requires
        balanced(r),
        counted(r, t, name, success, skipped, had_updates, is_clone, new_commits),
    ensures
        balanced(t),
{
}

/// A fresh running state is balanced.
pub proof fn lemma_fresh_running_balanced(
    r: RunState,
    op: crate::tui::app::Operation,
    total: usize,
    to_clone: usize,
    to_sync: usize,
    now_ms: u64,
)
    requires
        is_fresh_running(r, op, total, to_clone, to_sync, now_ms),
    ensures
        balanced(r),
{
}

/// The operation log never grows beyond `MAX_LOG_LINES` lines through
/// progress reports.
pub proof fn lemma_log_stays_bounded(a: Seq<String>, b: Seq<String>, line: Seq<char>)
    requires
        a.len() <= MAX_LOG_LINES,
        appended_line(capped_log(a), b, line),
    ensures
        b.len() <= MAX_LOG_LINES,
        b.len() == if a.len() < MAX_LOG_LINES { a.len() + 1 } else { MAX_LOG_LINES as nat },
{
}

/// The sync history never holds more than `MAX_SYNC_HISTORY` entries.
pub proof fn lemma_history_stays_bounded(h: Seq<crate::types::SyncHistoryEntry>, n: Seq<crate::types::SyncHistoryEntry>)
    requires
        h.len() <= MAX_SYNC_HISTORY,
        history_pushed(h, n),
    ensures
        n.len() <= MAX_SYNC_HISTORY,
        n.len() > 0,
{
}

/// At most `MAX_THROUGHPUT_SAMPLES` throughput samples are ever kept.
pub proof fn lemma_samples_stay_bounded(r: RunState, t: RunState)
    requires
        r.throughput_samples@.len() <= MAX_THROUGHPUT_SAMPLES,
        sampled(r, t),
    ensures
        t.throughput_samples@.len() <= MAX_THROUGHPUT_SAMPLES,
        t.throughput_samples@.len() > 0,
{
}

/// Navigating to a screen and going back returns to the screen and the
/// history that were there before.
pub proof fn lemma_navigate_then_back(a: App, s: Screen, b: App, c: App)
    requires
        navigated(a, s, b),
        b.screen_stack@.len() > 0,
        c.screen == b.screen_stack@.last(),
        c.screen_stack@ == b.screen_stack@.drop_last(),
    ensures
        c.screen == a.screen,
        c.screen_stack@ == a.screen_stack@,
{
    assert(b.screen_stack@.drop_last() =~= a.screen_stack@);
}

/// Showing the sync screen and hiding it again returns to the screen that
/// was shown, leaving everything else as it was.
pub proof fn lemma_show_then_hide_sync(a: App, b: App, c: App)
    requires
        a.screen != Screen::Sync,
        shows_sync(a, b),
        hides_sync(b, c),
    ensures
        c.screen == a.screen,
        c.screen_stack@ == a.screen_stack@,
        c == (App { screen_stack: c.screen_stack, ..a }),
{
    assert(b.screen_stack@.drop_last() =~= a.screen_stack@);
}

/// Cycling the post-sync log filter forward and then back returns to the
/// same filter, and five steps forward go all the way round.
pub proof fn lemma_filter_cycle(f: LogFilter)
    ensures
        cycled(cycled(f, true), false) == f,
        cycled(cycled(f, false), true) == f,
        cycled(cycled(cycled(cycled(cycled(f, true), true), true), true), true) == f,
{
}

/// `q` and Ctrl+C quit at once from every screen, the setup wizard
/// included, unless the filter is being typed into.
pub proof fn lemma_quit_key_quits(a: App, k: KeyInput, path: Seq<char>, b: App, acts: Seq<AppAction>)
    requires
        app_key(a, k, path, b, acts),
        is_quit_key(k),
        !a.filter_active,
    ensures
        b.should_quit,
        b.screen == a.screen,
        b.screen_stack == a.screen_stack,
        acts.len() == 0,
{
}

/// Esc in the setup wizard (outside its folder navigator) leaves it: the
/// app returns to the screen it came from, or quits when there is none.
pub proof fn lemma_wizard_esc_leaves(a: App, k: KeyInput, path: Seq<char>, b: App, acts: Seq<AppAction>)
    requires
        app_key(a, k, path, b, acts),
        k.code == KeyCode::Esc,
        !a.filter_active,
        a.screen == Screen::WorkspaceSetup,
        a.setup_state matches Some(s) && !(s.step == crate::setup::state::SetupStep::SelectPath && s.path_browse_mode),
    ensures
        b.setup_state is None,
        if a.screen_stack@.len() == 0 {
            b.should_quit
        } else {
            b.screen == a.screen_stack@.last() && b.screen_stack@ == a.screen_stack@.drop_last()
        },
{
}

/// No two changelog entries are for the same repository.
pub open spec fn names_distinct(s: Seq<(String, Vec<String>)>) -> bool {
    forall|i: int, j: int| 0 <= i < j < s.len() ==> (#[trigger] s[i]).0@ != (#[trigger] s[j]).0@
}

/// The changelog behaves as a map from repository names to commits:
/// storing a repository's commits keeps one entry per repository, and the
/// repository's entry then holds exactly the stored commits.
pub proof fn lemma_changelog_store_is_a_map(
    a: Seq<(String, Vec<String>)>,
    b: Seq<(String, Vec<String>)>,
    name: Seq<char>,
    commits: Seq<String>,
)
    requires
        names_distinct(a),
        changelog_stored(a, b, name, commits),
    ensures
        names_distinct(b),
        exists|k: int| 0 <= k < b.len() && (#[trigger] b[k]).0@ == name && b[k].1@ == commits,
{
    if exists|k: int| #![trigger a[k]] {
        &&& 0 <= k < a.len()
        &&& a[k].0@ == name
        &&& forall|j: int| 0 <= j < k ==> a[j].0@ != name
        &&& b.len() == a.len()
        &&& b[k].0 == a[k].0
        &&& b[k].1@ == commits
        &&& forall|j: int| 0 <= j < a.len() && j != k ==> b[j] == a[j]
    } {
        let k = choose|k: int| #![trigger a[k]] {
            &&& 0 <= k < a.len()
            &&& a[k].0@ == name
            &&& forall|j: int| 0 <= j < k ==> a[j].0@ != name
            &&& b.len() == a.len()
            &&& b[k].0 == a[k].0
            &&& b[k].1@ == commits
            &&& forall|j: int| 0 <= j < a.len() && j != k ==> b[j] == a[j]
        };
        assert forall|i: int, j: int| 0 <= i < j < b.len() implies (#[trigger] b[i]).0@ != (#[trigger] b[j]).0@ by {
            assert(a[i].0@ != a[j].0@);
            if i == k {
                assert(b[j] == a[j]);
            } else if j == k {
                assert(b[i] == a[i]);
            } else {
                assert(b[i] == a[i] && b[j] == a[j]);
            }
        }
        assert(b[k].0@ == name);
    } else {
        assert forall|i: int, j: int| 0 <= i < j < b.len() implies (#[trigger] b[i]).0@ != (#[trigger] b[j]).0@ by {
            if j == a.len() {
                assert(b[i] == a[i]);
            } else {
                assert(b[i] == a[i] && b[j] == a[j]);
                assert(a[i].0@ != a[j].0@);
            }
        }
        assert(b[a.len() as int].0@ == name);
    }
}

/// A progress report adds one line to the operation log and drops the
/// oldest lines so that at most `MAX_LOG_LINES` remain: the earlier lines
/// kept are the newest of the old log, the new line starts with the report's
/// status mark and the repository's name, and the log view scrolls to it.
pub proof fn lemma_progress_log(
    a: App,
    repo_name: String,
    success: bool,
    skipped: bool,
    message: String,
    had_updates: bool,
    is_clone: bool,
    new_commits: Option<u32>,
    b: App,
)
    requires
        a.log_lines@.len() <= MAX_LOG_LINES,
        repo_progress_step(a, repo_name, success, skipped, message, had_updates, is_clone, new_commits, b),
    ensures
        b.log_lines@.len() == (if a.log_lines@.len() < MAX_LOG_LINES {
            a.log_lines@.len() + 1
        } else {
            MAX_LOG_LINES as nat
        }),
        b.log_lines@.drop_last() == a.log_lines@.skip(a.log_lines@.len() + 1 - b.log_lines@.len()),
        (spec_status_prefix(spec_log_status(success, skipped, is_clone, had_updates)) + " "@ + repo_name@)
            .is_prefix_of(b.log_lines@.last()@),
        b.scroll_offset == b.log_lines@.len() - 1,
{
    let kept = capped_log(a.log_lines@);
    assert(b.log_lines@.drop_last() =~= kept);
    if a.log_lines@.len() < MAX_LOG_LINES {
        assert(a.log_lines@.skip(0) =~= a.log_lines@);
    }
    let p = spec_status_prefix(spec_log_status(success, skipped, is_clone, had_updates)) + " "@ + repo_name@;
    let line = b.log_lines@.last()@;
    assert(line.take(p.len() as int) =~= p);
}

/// A progress report as (success, skipped, clone).
pub type Report = (bool, bool, bool);

/// The report is of a clone that succeeded (and was not skipped).
pub open spec fn clone_succeeded(rep: Report) -> bool {
    rep.0 && !rep.1 && rep.2
}

/// The number of clones that succeeded among `reps`.
pub open spec fn count_clones(reps: Seq<Report>) -> nat
    decreases reps.len(),
{
    if reps.len() == 0 {
        0
    } else {
        count_clones(reps.drop_last()) + if clone_succeeded(reps.last()) { 1nat } else { 0nat }
    }
}

/// `states` are the running states of an operation that took the progress
/// reports `reps` in turn, one report from each state to the next.
pub open spec fn run_of(states: Seq<RunState>, reps: Seq<Report>) -> bool {
    &&& states.len() == reps.len() + 1
    &&& forall|i: int| 0 <= i < reps.len() ==> #[trigger] step_taken(states, reps, i)
}

/// From state `i` the operation took report `i` and reached state `i + 1`.
pub open spec fn step_taken(states: Seq<RunState>, reps: Seq<Report>, i: int) -> bool {
    exists|name: Seq<char>, had_updates: bool, nc: Option<u32>|
        #[trigger] counted(states[i], states[i + 1], name, reps[i].0, reps[i].1, had_updates, reps[i].2, nc)
}

proof fn lemma_run_counts_clones(states: Seq<RunState>, reps: Seq<Report>)
    requires
        run_of(states, reps),
        states[0].cloned == 0,
    ensures
        states.last().cloned == count_clones(reps),
    decreases reps.len(),
{
    if reps.len() > 0 {
        let n = reps.len() - 1;
        let s2 = states.drop_last();
        let r2 = reps.drop_last();
        assert forall|i: int| 0 <= i < r2.len() implies #[trigger] step_taken(s2, r2, i) by {
            assert(step_taken(states, reps, i));
            assert(s2[i] == states[i] && s2[i + 1] == states[i + 1] && r2[i] == reps[i]);
        }
        lemma_run_counts_clones(s2, r2);
        assert(states[n] == s2.last());
        assert(step_taken(states, reps, n));
        let (name, had_updates, nc) = choose|name: Seq<char>, had_updates: bool, nc: Option<u32>|
            #[trigger] counted(states[n], states[n + 1], name, reps[n].0, reps[n].1, had_updates, reps[n].2, nc);
        assert(reps.last() == reps[n]);
    }
}

/// When an operation finishes, its clone count is the number of clones
/// that succeeded during its run: every successful, non-skipped clone
/// report counts once, failed or skipped clones and syncs do not, and the
/// clones that were only planned do not matter.
pub proof fn lemma_finished_clones_count_successes(
    states: Seq<RunState>,
    reps: Seq<Report>,
    summary: OpSummary,
    now_ms: u64,
)
    requires
        run_of(states, reps),
        states[0].cloned == 0,
    ensures
        finish_of(OperationState::Running(states.last()), summary, now_ms).cloned == count_clones(reps),
{
    lemma_run_counts_clones(states, reps);
}

} // verus!
