//! The full-screen TUI's model and its transitions: the app state, the
//! messages that background work sends, and how keys and messages change the
//! state. Drawing and running background work happen outside the library.

pub mod app;
pub mod backend;
pub mod event;
pub mod messages;
pub mod grouping;
pub mod format;
pub mod clock;
pub mod dashboard;
pub mod sync_screen;
pub mod workspaces;
pub mod settings;
pub mod system_check;
pub mod handler;
pub mod laws;
pub mod progress_view;
