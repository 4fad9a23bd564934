//! System check screen keys: start the setup wizard, or create the config.

use vstd::prelude::*;
use crate::input::{KeyCode, KeyInput};
use crate::tui::app::App;
use crate::tui::messages::AppAction;
use crate::tui::workspaces::{open_wizard, opens_wizard};

verus! {

/// The system check screen's response to key `k`: `s` opens the setup
/// wizard (seeded with `path`), `c` asks to create the config file when it
/// was not created yet.
pub open spec fn system_check_key(a: App, k: KeyInput, path: Seq<char>, b: App, act: Option<AppAction>) -> bool {
    match k.code {
        KeyCode::Char(c) => if c == 's' {
            opens_wizard(a, path, b) && act is None
        } else if c == 'c' && !a.config_created {
            b == a && act == Some(AppAction::CreateConfig)
        } else {
            b == a && act is None
        },
        _ => b == a && act is None,
    }
}

/// Applies a key press on the system check screen.
pub fn handle_key(app: &mut App, key: KeyInput, default_setup_path: &str) -> (act: Option<AppAction>)
    ensures
        system_check_key(*old(app), key, default_setup_path@, *final(app), act),
{
    match key.code {
        KeyCode::Char(c) => {
            if c == 's' {
                open_wizard(app, default_setup_path);
                None
            } else if c == 'c' && !app.config_created {
                Some(AppAction::CreateConfig)
            } else {
                None
            }
        },
        _ => None,
    }
}

} // verus!
