//! Settings screen keys: two items (requirements, options) and the global
//! toggles.

use vstd::prelude::*;
use crate::input::{KeyCode, KeyInput};
use crate::tui::app::App;
use crate::tui::messages::AppAction;

verus! {

/// The number of items in the settings list.
pub const SETTINGS_ITEMS: usize = 2;

/// The settings screen's response to key `k`: Tab/Down and Up move through
/// the two items (wrapping), `c` opens the configuration folder, `d` toggles
/// dry-run and `m` toggles pull mode.
pub open spec fn settings_key(a: App, k: KeyInput, b: App, act: Option<AppAction>) -> bool {
    match k.code {
        KeyCode::Tab | KeyCode::Down | KeyCode::Up => act is None
            && b == (App { settings_index: ((a.settings_index + 1) % 2) as usize, ..a }),
        KeyCode::Char(c) => if c == 'c' {
            b == a && act == Some(AppAction::OpenConfigDirectory)
        } else if c == 'd' {
            b == (App { dry_run: !a.dry_run, ..a }) && act is None
        } else if c == 'm' {
            b == (App { sync_pull: !a.sync_pull, ..a }) && act is None
        } else {
            b == a && act is None
        },
        _ => b == a && act is None,
    }
}

/// Applies a key press on the settings screen.
pub fn handle_key(app: &mut App, key: KeyInput) -> (act: Option<AppAction>)
    ensures
        settings_key(*old(app), key, *final(app), act),
{
    match key.code {
        KeyCode::Tab | KeyCode::Down | KeyCode::Up => {
            app.settings_index = (app.settings_index % SETTINGS_ITEMS + 1) % SETTINGS_ITEMS;
            None
        },
        KeyCode::Char(c) => {
            if c == 'c' {
                Some(AppAction::OpenConfigDirectory)
            } else if c == 'd' {
                app.dry_run = !app.dry_run;
                None
            } else if c == 'm' {
                app.sync_pull = !app.sync_pull;
                None
            } else {
                None
            }
        },
        _ => None,
    }
}

} // verus!
