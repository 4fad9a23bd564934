//! Keyboard input as the wizard and the TUI see it.

use vstd::prelude::*;

verus! {

/// Which key was pressed.
#[derive(Debug, Clone, Copy, PartialEq, Eq, Structural)]
pub enum KeyCode {
    /// A printable character.
    Char(char),
    Enter,
    Esc,
    Up,
    Down,
    Left,
    Right,
    Tab,
    Backspace,
    Delete,
    Home,
    End,
    /// No key: used to drive work on a timer tick.
    Null,
    /// Any other key (function keys, ...), which no screen binds.
    Other,
}

/// A key press with the state of the Control modifier.
#[derive(Debug, Clone, Copy, PartialEq, Eq, Structural)]
pub struct KeyInput {
    pub code: KeyCode,
    pub ctrl: bool,
}

impl KeyInput {
    /// A key press without modifiers.
    pub fn plain(code: KeyCode) -> (r: KeyInput)
        ensures
            r.code == code,
            !r.ctrl,
    {
        KeyInput { code, ctrl: false }
    }

    /// A key press with Control held.
    pub fn with_ctrl(code: KeyCode) -> (r: KeyInput)
        ensures
            r.code == code,
            r.ctrl,
    {
        KeyInput { code, ctrl: true }
    }
}

/// Ctrl+C or `q`: the keys that quit.
pub open spec fn is_quit_key(k: KeyInput) -> bool {
    (k.ctrl && k.code == KeyCode::Char('c')) || k.code == KeyCode::Char('q')
}

/// Whether `k` is Ctrl+C or `q`.
pub fn quit_key(k: KeyInput) -> (r: bool)
    ensures
        r == is_quit_key(k),
{
    (k.ctrl && k.code == KeyCode::Char('c')) || k.code == KeyCode::Char('q')
}

} // verus!
