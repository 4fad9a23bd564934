//! The workspace setup wizard: its state and its key handling.

pub mod handler;
pub mod paths;
pub mod state;
pub mod view;
