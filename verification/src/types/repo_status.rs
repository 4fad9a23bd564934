//! A local repository's git state and the summary of one sync run.

use vstd::prelude::*;

verus! {

/// A summary entry for sync history.
#[derive(Debug, Clone)]
pub struct SyncHistoryEntry {
    /// When the sync finished, as an RFC 3339 timestamp.
    pub timestamp: String,
    /// Wall-clock duration of the sync, in milliseconds.
    pub duration_ms: u64,
    pub success: usize,
    pub failed: usize,
    pub skipped: usize,
    pub with_updates: usize,
    pub cloned: usize,
    pub total_new_commits: u32,
}

/// A local repo with its computed status.
#[derive(Debug, Clone)]
pub struct RepoEntry {
    pub owner: String,
    pub name: String,
    pub full_name: String,
    /// Where the repository lives on disk.
    pub path: String,
    /// The checked-out branch (`None` when detached).
    pub branch: Option<String>,
    pub is_uncommitted: bool,
    pub ahead: usize,
    pub behind: usize,
    pub staged_count: usize,
    pub unstaged_count: usize,
    pub untracked_count: usize,
}

} // verus!
