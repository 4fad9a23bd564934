//! Events that the TUI loop processes: key presses, ticks and the messages
//! that background work sends back.

use vstd::prelude::*;
use crate::input::KeyInput;
use crate::setup::state::OrgEntry;
use crate::tui::app::{CheckEntry, Operation};
use crate::types::{OpSummary, OwnedRepo, RepoEntry};

verus! {

/// Messages from backend async operations.
#[derive(Debug, Clone)]
pub enum BackendMessage {
    /// Discovery: orgs found.
    OrgsDiscovered(usize),
    /// Discovery: processing an org.
    OrgStarted(String),
    /// Discovery: org complete with N repos.
    OrgComplete(String, usize),
    /// Discovery complete with full repo list.
    DiscoveryComplete(Vec<OwnedRepo>),
    /// Discovery failed.
    DiscoveryError(String),
    /// Setup wizard org discovery complete.
    SetupOrgsDiscovered(Vec<OrgEntry>),
    /// Setup wizard org discovery failed.
    SetupOrgsError(String),
    /// Operation phase started with total and per-phase breakdown.
    OperationStarted { operation: Operation, total: usize, to_clone: usize, to_sync: usize },
    /// A repo started processing (for live worker slots).
    RepoStarted { repo_name: String },
    /// Operation progress: one repo processed.
    RepoProgress {
        repo_name: String,
        success: bool,
        skipped: bool,
        message: String,
        /// Whether this repo had new commits.
        had_updates: bool,
        /// Whether this was a clone (not a sync).
        is_clone: bool,
        /// Number of new commits fetched (if known).
        new_commits: Option<u32>,
        /// Structured skip reason (if skipped).
        skip_reason: Option<String>,
    },
    /// Commit log for a specific repo (post-sync deep dive).
    RepoCommitLog { repo_name: String, commits: Vec<String> },
    /// Operation complete.
    OperationComplete(OpSummary),
    /// Operation error.
    OperationError(String),
    /// Status scan results.
    StatusResults(Vec<RepoEntry>),
    /// Setup wizard requirement check results.
    SetupCheckResults(Vec<CheckEntry>),
    /// The config file was created at the given path.
    InitConfigCreated(String),
    /// Creating the config file failed.
    InitConfigError(String),
    /// Default workspace was set/cleared successfully.
    DefaultWorkspaceUpdated(Option<String>),
    /// Default workspace operation failed.
    DefaultWorkspaceError(String),
    /// Requirement check results (background).
    CheckResults(Vec<CheckEntry>),
}

/// Events that the TUI loop processes.
#[derive(Debug)]
pub enum AppEvent {
    /// A key press.
    Key(KeyInput),
    /// Terminal resize (the renderer adapts on its own).
    Resize(u16, u16),
    /// Backend sent a progress update.
    Backend(BackendMessage),
    /// Periodic tick for animations and background scheduling.
    Tick,
}

} // verus!
