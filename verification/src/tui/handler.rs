//! The TUI's event handling (the "Update"): key presses, timer ticks and
//! backend messages change the app and may ask for outside work.

use vstd::prelude::*;
use crate::input::{is_quit_key, quit_key, KeyCode, KeyInput};
use crate::setup::handler::{lemma_initial_state_wf, setup_key, setup_wf, SetupEffect};
use crate::setup::state::{is_initial_state, SetupOutcome, SetupState, SetupStep};
use crate::text::{chars_of, prefix_string};
use crate::tui::app::{App, LogFilter, Operation, OperationState, RunState, Screen};
use crate::tui::clock::read_clock;
use crate::tui::event::{AppEvent, BackendMessage};
use crate::tui::messages::{backend_step, handle_backend_message, message_fits, AppAction, Clock};

verus! {

/// The wizard's selection indices point into their lists.
pub open spec fn app_wf(a: App) -> bool {
    a.setup_state matches Some(s) ==> setup_wf(s)
}

/// The actions of an optional action.
pub open spec fn opt_seq(act: Option<AppAction>) -> Seq<AppAction> {
    match act {
        Some(x) => seq![x],
        None => Seq::empty(),
    }
}

fn opt_vec(act: Option<AppAction>) -> (v: Vec<AppAction>)
    ensures
        v@ == opt_seq(act),
{
    let mut v: Vec<AppAction> = Vec::new();
    match act {
        Some(x) => v.push(x),
        None => {},
    }
    proof {
        assert(v@ =~= opt_seq(act));
    }
    v
}

/// Typing into the filter: Esc clears and closes it, Enter closes it,
/// Backspace removes the last character, a character is appended.
pub open spec fn filter_key(a: App, k: KeyInput, b: App) -> bool {
    match k.code {
        KeyCode::Esc => b.filter_text@.len() == 0 && b == (App { filter_active: false, filter_text: b.filter_text, ..a }),
        KeyCode::Enter => b == (App { filter_active: false, ..a }),
        KeyCode::Backspace => b.filter_text@ == (if a.filter_text@.len() > 0 {
            a.filter_text@.drop_last()
        } else {
            a.filter_text@
        }) && b == (App { filter_text: b.filter_text, ..a }),
        KeyCode::Char(c) => b.filter_text@ == a.filter_text@.push(c) && b == (App { filter_text: b.filter_text, ..a }),
        _ => b == a,
    }
}

fn filter_input(app: &mut App, key: KeyInput)
    ensures
        filter_key(*old(app), key, *final(app)),
{
    match key.code {
        KeyCode::Esc => {
            app.filter_active = false;
            app.filter_text = String::new();
        },
        KeyCode::Enter => {
            app.filter_active = false;
        },
        KeyCode::Backspace => {
            let cs = chars_of(app.filter_text.as_str());
            if cs.len() > 0 {
                let kept = prefix_string(&cs, cs.len() - 1);
                assert(kept@ =~= app.filter_text@.drop_last());
                app.filter_text = kept;
            }
        },
        KeyCode::Char(c) => {
            app.filter_text.push(c);
        },
        _ => {},
    }
}

/// Esc outside the wizard: on the sync screen it first collapses an
/// expanded entry, then returns to the dashboard when there is no history;
/// the system check screen and a top-level workspaces screen stay; other
/// screens go back.
pub open spec fn esc_key(a: App, b: App) -> bool {
    if a.screen == Screen::Sync && a.expanded_repo is Some {
        b.repo_commits@.len() == 0 && b == (App { expanded_repo: None, repo_commits: b.repo_commits, ..a })
    } else if a.screen == Screen::Sync && a.screen_stack@.len() == 0 {
        b == (App { screen: Screen::Dashboard, ..a })
    } else if a.screen == Screen::SystemCheck {
        b == a
    } else if a.screen == Screen::Workspaces && a.screen_stack@.len() == 0 {
        b == a
    } else if a.screen_stack@.len() == 0 {
        b == a
    } else {
        &&& b.screen == a.screen_stack@.last()
        &&& b.screen_stack@ == a.screen_stack@.drop_last()
        &&& b == (App { screen: b.screen, screen_stack: b.screen_stack, ..a })
    }
}

fn esc(app: &mut App)
    ensures
        esc_key(*old(app), *final(app)),
{
    if app.screen == Screen::Sync && app.expanded_repo.is_some() {
        app.expanded_repo = None;
        app.repo_commits = Vec::new();
        return;
    }
    if app.screen == Screen::Sync && app.screen_stack.len() == 0 {
        app.screen = Screen::Dashboard;
        return;
    }
    if app.screen == Screen::SystemCheck {
        return;
    }
    if app.screen == Screen::Workspaces && app.screen_stack.len() == 0 {
        return;
    }
    app.go_back();
}

/// A key in the setup wizard: the wizard handles it; when it finished
/// (saved) the app returns to the dashboard and asks to reload the
/// workspaces, and when it was cancelled the app goes back to the previous
/// screen, or quits when there is none.
pub open spec fn wizard_key(a: App, k: KeyInput, b: App, acts: Seq<AppAction>) -> bool {
    match a.setup_state {
        None => b == a && acts.len() == 0,
        Some(s) => exists|t: SetupState, e: SetupEffect| #[trigger] setup_key(s, k, t, e) && {
            &&& setup_wf(t)
            &&& if t.should_quit {
                if t.outcome == Some(SetupOutcome::Completed) {
                    &&& b.screen_stack@.len() == 0
                    &&& b == (App { setup_state: None, screen: Screen::Dashboard, screen_stack: b.screen_stack, ..a })
                    &&& acts == seq![AppAction::Setup(e), AppAction::ReloadWorkspaces]
                } else {
                    &&& acts == seq![AppAction::Setup(e)]
                    &&& if a.screen_stack@.len() == 0 {
                        b == (App { setup_state: None, should_quit: true, ..a })
                    } else {
                        &&& b.screen == a.screen_stack@.last()
                        &&& b.screen_stack@ == a.screen_stack@.drop_last()
                        &&& b == (App { setup_state: None, screen: b.screen, screen_stack: b.screen_stack, ..a })
                    }
                }
            } else {
                &&& b == (App { setup_state: Some(t), ..a })
                &&& acts == seq![AppAction::Setup(e)]
            }
        },
    }
}

/// Passes a key to the setup wizard.
pub fn handle_setup_wizard_key(app: &mut App, key: KeyInput) -> (acts: Vec<AppAction>)
    requires
        app_wf(*old(app)),
    ensures
        wizard_key(*old(app), key, *final(app), acts@),
        app_wf(*final(app)),
{
    let mut taken: Option<SetupState> = None;
    std::mem::swap(&mut taken, &mut app.setup_state);
    let mut acts: Vec<AppAction> = Vec::new();
    match taken {
        None => {},
        Some(mut s) => {
            let ghost s0 = s;
            let e = handle_key_in_wizard(&mut s, key);
            let ghost e0 = e;
            let done = s.should_quit;
            let completed = match s.outcome {
                Some(SetupOutcome::Completed) => true,
                _ => false,
            };
            let ghost t0 = s;
            acts.push(AppAction::Setup(e));
            if done {
                if completed {
                    app.screen = Screen::Dashboard;
                    app.screen_stack = Vec::new();
                    acts.push(AppAction::ReloadWorkspaces);
                } else if app.screen_stack.len() == 0 {
                    app.should_quit = true;
                } else {
                    app.go_back();
                }
            } else {
                app.setup_state = Some(s);
            }
            proof {
                assert(setup_key(s0, key, t0, e0));
                if done && completed {
                    assert(acts@ =~= seq![AppAction::Setup(e0), AppAction::ReloadWorkspaces]);
                } else {
                    assert(acts@ =~= seq![AppAction::Setup(e0)]);
                }
            }
        },
    }
    acts
}

fn handle_key_in_wizard(s: &mut SetupState, key: KeyInput) -> (e: SetupEffect)
    requires
        setup_wf(*old(s)),
    ensures
        setup_key(*old(s), key, *final(s), e),
        setup_wf(*final(s)),
{
    crate::setup::handler::handle_key(s, key)
}

/// The response of the current (non-wizard) screen to key `k`.
pub open spec fn screen_key(a: App, k: KeyInput, path: Seq<char>, b: App, act: Option<AppAction>) -> bool {
    match a.screen {
        Screen::SystemCheck => crate::tui::system_check::system_check_key(a, k, path, b, act),
        Screen::Workspaces => crate::tui::workspaces::workspaces_key(a, k, path, b, act),
        Screen::Dashboard => crate::tui::dashboard::dashboard_key(a, k, b, act),
        Screen::Sync => crate::tui::sync_screen::sync_key(a, k, b, act),
        Screen::Settings => crate::tui::settings::settings_key(a, k, b, act),
        Screen::WorkspaceSetup => b == a && act is None,
    }
}

/// The app's response to key `k` (`path` seeds a new setup wizard): any key
/// clears the error; while the filter is open keys edit it; Ctrl+C and `q`
/// quit; the wizard gets its keys; Esc goes back; the screen handles the
/// rest.
pub open spec fn app_key(a: App, k: KeyInput, path: Seq<char>, b: App, acts: Seq<AppAction>) -> bool {
    let a1 = App { error_message: None, ..a };
    if a.filter_active {
        filter_key(a1, k, b) && acts.len() == 0
    } else if is_quit_key(k) {
        b == (App { should_quit: true, ..a1 }) && acts.len() == 0
    } else if a.screen == Screen::WorkspaceSetup {
        wizard_key(a1, k, b, acts)
    } else if k.code == KeyCode::Esc {
        esc_key(a1, b) && acts.len() == 0
    } else {
        exists|act: Option<AppAction>| #[trigger] opt_seq(act) == acts && screen_key(a1, k, path, b, act)
    }
}

/// The state can take any key: the changelog can scroll further.
pub open spec fn key_fits(a: App) -> bool {
    crate::tui::sync_screen::sync_key_fits(a)
}

fn screen_key_exec(app: &mut App, key: KeyInput, default_setup_path: &str) -> (act: Option<AppAction>)
    requires
        key_fits(*old(app)),
        app_wf(*old(app)),
    ensures
        screen_key(*old(app), key, default_setup_path@, *final(app), act),
        app_wf(*final(app)),
{
    let act = match app.screen {
        Screen::SystemCheck => crate::tui::system_check::handle_key(app, key, default_setup_path),
        Screen::Workspaces => crate::tui::workspaces::handle_key(app, key, default_setup_path),
        Screen::Dashboard => crate::tui::dashboard::handle_key(app, key),
        Screen::Sync => crate::tui::sync_screen::handle_key(app, key),
        Screen::Settings => crate::tui::settings::handle_key(app, key),
        Screen::WorkspaceSetup => None,
    };
    proof {
        if app.setup_state is Some && app.setup_state != old(app).setup_state {
            lemma_initial_state_wf(app.setup_state->0, default_setup_path@, false);
        }
    }
    act
}

/// Applies a key press; `default_setup_path` seeds a new setup wizard.
pub fn handle_key(app: &mut App, key: KeyInput, default_setup_path: &str) -> (acts: Vec<AppAction>)
    requires
        key_fits(*old(app)),
        app_wf(*old(app)),
    ensures
        app_key(*old(app), key, default_setup_path@, *final(app), acts@),
        app_wf(*final(app)),
{
    app.error_message = None;
    if app.filter_active {
        filter_input(app, key);
        return Vec::new();
    }
    if quit_key(key) {
        app.should_quit = true;
        return Vec::new();
    }
    if app.screen == Screen::WorkspaceSetup {
        return handle_setup_wizard_key(app, key);
    }
    if key.code == KeyCode::Esc {
        esc(app);
        return Vec::new();
    }
    let act = screen_key_exec(app, key, default_setup_path);
    opt_vec(act)
}

/// At most this many throughput samples are kept.
pub const MAX_THROUGHPUT_SAMPLES: usize = 240;

/// A sync is discovering or running.
pub open spec fn is_sync_busy(s: OperationState) -> bool {
    ||| (s matches OperationState::Discovering { operation, .. } && operation == Operation::Sync)
    ||| (s matches OperationState::Running(r) && r.operation == Operation::Sync)
}

/// `x + 1`, wrapping to 0 after the largest value.
pub open spec fn wrap_inc(x: u64) -> u64 {
    if x == u64::MAX { 0 } else { (x + 1) as u64 }
}

/// A throughput sample: the repositories completed since the last sample
/// join the samples, of which the last `MAX_THROUGHPUT_SAMPLES` stay.
pub open spec fn sampled(r: RunState, t: RunState) -> bool {
    let delta: u64 = if r.completed >= r.last_sample_completed {
        (r.completed - r.last_sample_completed) as u64
    } else {
        0
    };
    let s = r.throughput_samples@.push(delta);
    &&& t.throughput_samples@ == (if s.len() > MAX_THROUGHPUT_SAMPLES {
        s.skip(s.len() - MAX_THROUGHPUT_SAMPLES)
    } else {
        s
    })
    &&& t == (RunState { throughput_samples: t.throughput_samples, last_sample_completed: r.completed, ..r })
}

/// While a sync is busy each tick advances the animation, and every tenth
/// tick of a running sync takes a throughput sample.
pub open spec fn animated(a: App, b: App) -> bool {
    if is_sync_busy(a.operation_state) {
        let tc = wrap_inc(a.tick_count);
        &&& if tc % 10 == 0 && a.operation_state is Running {
            b.operation_state matches OperationState::Running(t) && sampled(a.operation_state->Running_0, t)
        } else {
            b.operation_state == a.operation_state
        }
        &&& b == (App { tick_count: tc, operation_state: b.operation_state, ..a })
    } else {
        b == a
    }
}

fn sample(r: RunState) -> (t: RunState)
    ensures
        sampled(r, t),
{
    let mut t = r;
    let delta: u64 = if t.completed >= t.last_sample_completed {
        (t.completed - t.last_sample_completed) as u64
    } else {
        0
    };
    t.throughput_samples.push(delta);
    if t.throughput_samples.len() > MAX_THROUGHPUT_SAMPLES {
        let drop_count = t.throughput_samples.len() - MAX_THROUGHPUT_SAMPLES;
        let mut kept: Vec<u64> = Vec::new();
        let mut i: usize = drop_count;
        while i < t.throughput_samples.len()
            invariant
                drop_count <= i <= t.throughput_samples@.len(),
                kept@ == t.throughput_samples@.subrange(drop_count as int, i as int),
            decreases t.throughput_samples@.len() - i,
        {
            kept.push(t.throughput_samples[i]);
            assert(t.throughput_samples@.subrange(drop_count as int, i + 1)
                =~= t.throughput_samples@.subrange(drop_count as int, i as int).push(t.throughput_samples@[i as int]));
            i = i + 1;
        }
        assert(t.throughput_samples@.subrange(drop_count as int, t.throughput_samples@.len() as int)
            =~= t.throughput_samples@.skip(drop_count as int));
        t.throughput_samples = kept;
    }
    t.last_sample_completed = t.completed;
    t
}

fn sync_busy(s: &OperationState) -> (b: bool)
    ensures
        b == is_sync_busy(*s),
{
    match s {
        OperationState::Discovering { operation, .. } => *operation == Operation::Sync,
        OperationState::Running(r) => r.operation == Operation::Sync,
        _ => false,
    }
}

fn animate(app: &mut App)
    ensures
        animated(*old(app), *final(app)),
{
    if !sync_busy(&app.operation_state) {
        return;
    }
    app.tick_count = if app.tick_count == u64::MAX { 0 } else { app.tick_count + 1 };
    if app.tick_count % 10 == 0 {
        let mut st = OperationState::Idle;
        std::mem::swap(&mut st, &mut app.operation_state);
        match st {
            OperationState::Running(r) => {
                app.operation_state = OperationState::Running(sample(r));
            },
            other => {
                app.operation_state = other;
            },
        }
    }
}

/// On the wizard each tick advances its animation, and while it waits for
/// its organizations it gets an empty key, which starts their discovery.
pub open spec fn setup_ticked(a: App, b: App, e: Option<SetupEffect>) -> bool {
    if a.screen == Screen::WorkspaceSetup && a.setup_state is Some {
        exists|t: SetupState| #[trigger] wizard_ticked(a.setup_state->0, t, e) && setup_wf(t)
            && b == (App { setup_state: Some(t), ..a })
    } else {
        b == a && e is None
    }
}

/// The wizard after one tick, and the work it asks for.
pub open spec fn wizard_ticked(s: SetupState, t: SetupState, e: Option<SetupEffect>) -> bool {
    let s1 = SetupState { tick_count: wrap_inc(s.tick_count), ..s };
    if s.step == SetupStep::SelectOrgs && s.org_loading {
        exists|u: SetupState, f: SetupEffect| #[trigger] setup_key(s1, KeyInput { code: KeyCode::Null, ctrl: false }, u, f)
            && setup_wf(u) && t == u && e == Some(f)
    } else {
        t == s1 && e is None
    }
}

fn tick_wizard(s: &mut SetupState) -> (e: Option<SetupEffect>)
    requires
        setup_wf(*old(s)),
    ensures
        wizard_ticked(*old(s), *final(s), e),
        setup_wf(*final(s)),
{
    s.tick_count = if s.tick_count == u64::MAX { 0 } else { s.tick_count + 1 };
    if s.step == SetupStep::SelectOrgs && s.org_loading {
        let ghost s1 = *s;
        let f = handle_key_in_wizard(s, KeyInput { code: KeyCode::Null, ctrl: false });
        proof {
            assert(setup_key(s1, KeyInput { code: KeyCode::Null, ctrl: false }, *s, f));
        }
        Some(f)
    } else {
        None
    }
}

fn tick_setup(app: &mut App) -> (e: Option<SetupEffect>)
    requires
        app_wf(*old(app)),
    ensures
        setup_ticked(*old(app), *final(app), e),
        app_wf(*final(app)),
{
    if app.screen != Screen::WorkspaceSetup {
        return None;
    }
    let ghost a = *app;
    let mut taken: Option<SetupState> = None;
    std::mem::swap(&mut taken, &mut app.setup_state);
    match taken {
        None => None,
        Some(mut s) => {
            let ghost s0 = s;
            let e = tick_wizard(&mut s);
            app.setup_state = Some(s);
            proof {
                assert(wizard_ticked(s0, s, e));
            }
            e
        },
    }
}

/// On the dashboard, requirement checks run once when there are no results.
pub open spec fn checks_scheduled(a: App, b: App, run: bool) -> bool {
    if a.screen == Screen::Dashboard && a.check_results@.len() == 0 && !a.checks_loading {
        b == (App { checks_loading: true, ..a }) && run
    } else {
        b == a && !run
    }
}

fn schedule_checks(app: &mut App) -> (run: bool)
    ensures
        checks_scheduled(*old(app), *final(app), run),
{
    if app.screen == Screen::Dashboard && app.check_results.len() == 0 && !app.checks_loading {
        app.checks_loading = true;
        true
    } else {
        false
    }
}

/// Seconds between status scans: the active workspace's setting, else the
/// global one.
pub open spec fn refresh_secs(a: App) -> u64 {
    match a.active_workspace {
        Some(w) => match w.refresh_interval {
            Some(x) => x,
            None => a.config.refresh_interval,
        },
        None => a.config.refresh_interval,
    }
}

/// A status scan is due at `now_ms`: none ran yet, or the last one is at
/// least the refresh interval old (in whole seconds).
pub open spec fn scan_due(a: App, now_ms: u64) -> bool {
    match a.last_status_scan {
        None => true,
        Some(t) => (if now_ms >= t { (now_ms - t) / 1000 } else { 0 }) >= refresh_secs(a),
    }
}

/// On the dashboard of a workspace a status scan starts when one is due,
/// none is running and no sync is busy.
pub open spec fn status_scheduled(a: App, now_ms: u64, busy: bool, b: App, spawn: bool) -> bool {
    if a.screen == Screen::Dashboard && a.active_workspace is Some && !a.status_loading && !busy
        && scan_due(a, now_ms) {
        b == (App { status_loading: true, ..a }) && spawn
    } else {
        b == a && !spawn
    }
}

fn schedule_status(app: &mut App, now_ms: u64, busy: bool) -> (spawn: bool)
    ensures
        status_scheduled(*old(app), now_ms, busy, *final(app), spawn),
{
    if app.screen != Screen::Dashboard || app.active_workspace.is_none() || app.status_loading || busy {
        return false;
    }
    let refresh = match &app.active_workspace {
        Some(w) => match w.refresh_interval {
            Some(x) => x,
            None => app.config.refresh_interval,
        },
        None => app.config.refresh_interval,
    };
    let due = match app.last_status_scan {
        None => true,
        Some(t) => (if now_ms >= t { (now_ms - t) / 1000 } else { 0 }) >= refresh,
    };
    if due {
        app.status_loading = true;
    }
    due
}

/// A timer tick at `now_ms`: the sync animation and throughput samples,
/// the wizard's animation and organization discovery, the background
/// requirement checks and the periodic status scan, in that order.
pub open spec fn tick_step(a: App, now_ms: u64, b: App, acts: Seq<AppAction>) -> bool {
    exists|a1: App, a2: App, a3: App, e: Option<SetupEffect>, run: bool, spawn: bool| {
        &&& #[trigger] animated(a, a1)
        &&& #[trigger] setup_ticked(a1, a2, e)
        &&& #[trigger] checks_scheduled(a2, a3, run)
        &&& #[trigger] status_scheduled(a3, now_ms, is_sync_busy(a.operation_state), b, spawn)
        &&& acts == (match e {
            Some(f) => seq![AppAction::Setup(f)],
            None => Seq::empty(),
        }) + (if run { seq![AppAction::RunChecks] } else { Seq::empty() }) + (if spawn {
            seq![AppAction::SpawnOperation(Operation::Status)]
        } else {
            Seq::empty()
        })
    }
}

/// Handles a timer tick at `now_ms`.
pub fn handle_tick(app: &mut App, now_ms: u64) -> (acts: Vec<AppAction>)
    requires
        app_wf(*old(app)),
    ensures
        tick_step(*old(app), now_ms, *final(app), acts@),
        app_wf(*final(app)),
{
    let ghost a = *app;
    let busy = sync_busy(&app.operation_state);
    animate(app);
    let ghost a1 = *app;
    let e = tick_setup(app);
    let ghost a2 = *app;
    let run = schedule_checks(app);
    let ghost a3 = *app;
    let spawn = schedule_status(app, now_ms, busy);
    let mut acts: Vec<AppAction> = Vec::new();
    let ghost e0 = e;
    match e {
        Some(f) => acts.push(AppAction::Setup(f)),
        None => {},
    }
    if run {
        acts.push(AppAction::RunChecks);
    }
    if spawn {
        acts.push(AppAction::SpawnOperation(Operation::Status));
    }
    proof {
        assert(acts@ =~= (match e0 {
            Some(f) => seq![AppAction::Setup(f)],
            None => Seq::empty(),
        }) + (if run { seq![AppAction::RunChecks] } else { Seq::empty() }) + (if spawn {
            seq![AppAction::SpawnOperation(Operation::Status)]
        } else {
            Seq::empty()
        }));
        assert(animated(a, a1));
        assert(setup_ticked(a1, a2, e0));
        assert(checks_scheduled(a2, a3, run));
        assert(status_scheduled(a3, now_ms, is_sync_busy(a.operation_state), *app, spawn));
    }
    acts
}

/// The event can be handled: a key finds room for its effect, a message
/// for its counters.
pub open spec fn event_fits(a: App, ev: AppEvent) -> bool {
    match ev {
        AppEvent::Key(_) => key_fits(a),
        AppEvent::Backend(m) => message_fits(a, m),
        _ => true,
    }
}

/// How event `ev`, handled at clock reading `c` (`path` seeds a new setup
/// wizard), takes the app from `a` to `b` and which outside work it asks for.
pub open spec fn event_step(a: App, ev: AppEvent, c: Clock, path: Seq<char>, b: App, acts: Seq<AppAction>) -> bool {
    match ev {
        AppEvent::Key(k) => app_key(a, k, path, b, acts),
        AppEvent::Resize(_, _) => b == a && acts.len() == 0,
        AppEvent::Backend(m) => backend_step(a, m, c, acts, b),
        AppEvent::Tick => tick_step(a, c.now_ms, b, acts),
    }
}

/// Whether the app is well formed and has room for event `ev`: what
/// `handle_event` asks of its caller.
pub fn can_handle(app: &App, ev: &AppEvent) -> (r: bool)
    ensures
        r == (app_wf(*app) && event_fits(*app, *ev)),
{
    let wf = match &app.setup_state {
        Some(s) => {
            s.provider_index < s.provider_choices.len()
                && (s.org_index < s.orgs.len() || (s.orgs.len() == 0 && s.org_index == 0))
                && (s.path_completion_index < s.path_completions.len()
                    || (s.path_completions.len() == 0 && s.path_completion_index == 0))
        },
        None => true,
    };
    let fits = match ev {
        AppEvent::Key(_) => app.changelog_scroll < usize::MAX,
        AppEvent::Backend(BackendMessage::RepoProgress { new_commits, .. }) => match &app.operation_state {
            OperationState::Running(r) => {
                r.completed < usize::MAX && r.skipped < usize::MAX && r.failed < usize::MAX
                    && r.cloned < usize::MAX && r.synced < usize::MAX && r.with_updates < usize::MAX
                    && match new_commits {
                        Some(n) => *n <= u32::MAX - r.total_new_commits,
                        None => true,
                    }
            },
            _ => true,
        },
        AppEvent::Backend(BackendMessage::RepoCommitLog { .. }) =>
            app.log_filter != LogFilter::Changelog || app.changelog_loaded < usize::MAX,
        _ => true,
    };
    wf && fits
}

/// Handles one event at clock reading `clock`.
pub fn handle_event(app: &mut App, ev: AppEvent, clock: &Clock, default_setup_path: &str) -> (acts: Vec<AppAction>)
    requires
        app_wf(*old(app)),
        event_fits(*old(app), ev),
    ensures
        event_step(*old(app), ev, *clock, default_setup_path@, *final(app), acts@),
        app_wf(*final(app)),
{
    match ev {
        AppEvent::Key(k) => handle_key(app, k, default_setup_path),
        AppEvent::Resize(_, _) => Vec::new(),
        AppEvent::Backend(m) => handle_backend_message(app, m, clock),
        AppEvent::Tick => handle_tick(app, clock.now_ms),
    }
}

/// Handles one event, reading the clock first.
pub fn handle_event_now(app: &mut App, ev: AppEvent, default_setup_path: &str) -> (acts: Vec<AppAction>)
    requires
        app_wf(*old(app)),
        event_fits(*old(app), ev),
    ensures
        exists|c: Clock| event_step(*old(app), ev, c, default_setup_path@, *final(app), acts@),
        app_wf(*final(app)),
{
    let clock = read_clock();
    handle_event(app, ev, &clock, default_setup_path)
}

} // verus!
