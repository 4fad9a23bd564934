//! Verified core of git-same: provider and repository types, the setup
//! wizard's state machine, and the TUI's state transitions.

pub mod checks;
pub mod config;
pub mod input;
pub mod order;
pub mod setup;
pub mod template;
pub mod text;
pub mod tui;
pub mod types;
