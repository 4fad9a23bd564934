//! The status schema shared with the Finder extension: badge colors and the
//! rules that choose them, and detection of important ignored files.

use vstd::prelude::*;
use crate::text::{chars_of, owned};

verus! {

/// Badge color indicating repository health.
///
/// Priority order: Red > Orange > Blue > Green. `Gray` is reserved for
/// repositories outside any configured workspace.
#[derive(Debug, Clone, Copy, PartialEq, Eq, Structural)]
pub enum Badge {
    /// Everything synced, no local-only data, no important ignored files.
    Green,
    /// Fully synced, but has important gitignored files (.env, keys, ...).
    Blue,
    /// Main branch clean and synced, but other branches or worktrees diverge.
    Orange,
    /// Staged, unstaged, untracked, or unpushed commits.
    Red,
    /// Repository outside any configured workspace, not yet classified.
    Gray,
}

/// Branch sync status in the context menu.
#[derive(Debug, Clone, PartialEq, Eq)]
pub struct FinderBranchInfo {
    pub name: String,
    pub upstream: Option<String>,
    pub ahead: u32,
    pub behind: u32,
    pub synced: bool,
}

/// Remote info for the context menu.
#[derive(Debug, Clone, PartialEq, Eq)]
pub struct FinderRemoteInfo {
    pub name: String,
    pub url: String,
}

/// Worktree info for the context menu.
#[derive(Debug, Clone, PartialEq, Eq)]
pub struct FinderWorktreeInfo {
    pub path: String,
    pub branch: Option<String>,
    pub synced: bool,
}

/// Complete status for a single repository.
#[derive(Debug, Clone, PartialEq, Eq)]
pub struct FinderRepoStatus {
    pub path: String,
    pub workspace: Option<String>,
    pub org: Option<String>,
    pub badge: Badge,
    pub current_branch: String,
    pub default_branch: Option<String>,
    pub commit_count: u64,
    pub staged_count: usize,
    pub unstaged_count: usize,
    pub untracked_count: usize,
    pub ahead: u32,
    pub behind: u32,
    pub stash_count: usize,
    pub has_important_ignored_files: bool,
    pub important_ignored_files: Vec<String>,
    pub branches: Vec<FinderBranchInfo>,
    pub all_branches_synced: bool,
    pub remotes: Vec<FinderRemoteInfo>,
    pub worktrees: Vec<FinderWorktreeInfo>,
    pub all_worktrees_synced: bool,
}

/// Classification of an account that owns repositories.
#[derive(Debug, Clone, Copy, PartialEq, Eq, Structural)]
pub enum OwnerType {
    /// Personal account.
    User,
    /// Organization account.
    Organization,
    /// Not yet classified, or classification failed.
    Unknown,
}

impl Default for OwnerType {
    fn default() -> (r: OwnerType)
        ensures
            r == OwnerType::Unknown,
    {
        OwnerType::Unknown
    }
}

/// An organization or user folder inside a workspace.
#[derive(Debug, Clone, PartialEq, Eq)]
pub struct OrgFolderInfo {
    pub path: String,
    pub org: String,
    pub workspace: String,
    pub owner_type: OwnerType,
}

/// Workspace summary for the status file.
#[derive(Debug, Clone, PartialEq, Eq)]
pub struct FinderWorkspaceInfo {
    pub name: String,
    pub root: String,
    pub orgs: Vec<String>,
}

/// Top-level status file written by the daemon.
#[derive(Debug, Clone, PartialEq, Eq)]
pub struct FinderStatus {
    pub version: u32,
    pub timestamp: String,
    pub daemon_pid: u32,
    pub workspaces: Vec<FinderWorkspaceInfo>,
    pub custom_folders: Vec<String>,
    pub repos: Vec<FinderRepoStatus>,
    pub org_folders: Vec<OrgFolderInfo>,
    /// Union of workspace roots and ambient scan roots.
    pub monitored_roots: Vec<String>,
}

/// Current schema version of the status file.
pub const FINDER_STATUS_VERSION: u32 = 1;

impl FinderStatus {
    /// Creates a new empty status for daemon `pid` at `timestamp`.
    pub fn new(pid: u32, timestamp: &str) -> (r: FinderStatus)
        ensures
            r.version == FINDER_STATUS_VERSION,
            r.timestamp@ == timestamp@,
            r.daemon_pid == pid,
            r.workspaces@.len() == 0,
            r.custom_folders@.len() == 0,
            r.repos@.len() == 0,
            r.org_folders@.len() == 0,
            r.monitored_roots@.len() == 0,
    {
        FinderStatus {
            version: FINDER_STATUS_VERSION,
            timestamp: owned(timestamp),
            daemon_pid: pid,
            workspaces: Vec::new(),
            custom_folders: Vec::new(),
            repos: Vec::new(),
            org_folders: Vec::new(),
            monitored_roots: Vec::new(),
        }
    }
}

/// Default patterns for important gitignored files: files holding secrets,
/// credentials or local configuration that deleting the repository loses.
pub const DEFAULT_IMPORTANT_IGNORED_PATTERNS: [&'static str; 11] = [
    ".env",
    ".env.*",
    "*.key",
    "*.pem",
    "*.p12",
    "*.pfx",
    "credentials*",
    "secrets*",
    ".secret*",
    "service-account*.json",
    "*.keystore",
];

/// The badge for a repository's status, by priority Red > Orange > Blue > Green.
pub open spec fn spec_badge(
    staged: nat,
    unstaged: nat,
    untracked: nat,
    ahead: nat,
    all_branches_synced: bool,
    all_worktrees_synced: bool,
    has_important_ignored_files: bool,
) -> Badge {
    if staged > 0 || unstaged > 0 || untracked > 0 || ahead > 0 {
        Badge::Red
    } else if !all_branches_synced || !all_worktrees_synced {
        Badge::Orange
    } else if has_important_ignored_files {
        Badge::Blue
    } else {
        Badge::Green
    }
}

/// Compute the badge color for a repository based on its status.
pub fn compute_badge(
    staged: usize,
    unstaged: usize,
    untracked: usize,
    ahead: u32,
    all_branches_synced: bool,
    all_worktrees_synced: bool,
    has_important_ignored_files: bool,
) -> (r: Badge)
    ensures
        r == spec_badge(
            staged as nat,
            unstaged as nat,
            untracked as nat,
            ahead as nat,
            all_branches_synced,
            all_worktrees_synced,
            has_important_ignored_files,
        ),
{
    if staged > 0 || unstaged > 0 || untracked > 0 || ahead > 0 {
        return Badge::Red;
    }
    if !all_branches_synced || !all_worktrees_synced {
        return Badge::Orange;
    }
    if has_important_ignored_files {
        return Badge::Blue;
    }
    Badge::Green
}

/// Whether `text[ti..]` matches `pattern[pi..]`, where `*` matches any run
/// of characters (possibly empty) and `?` matches exactly one character.
pub open spec fn glob_matches_from(pattern: Seq<char>, pi: int, text: Seq<char>, ti: int) -> bool
    decreases pattern.len() - pi, text.len() - ti,
    when 0 <= pi <= pattern.len() && 0 <= ti <= text.len()
{
    if pi == pattern.len() {
        ti == text.len()
    } else if pattern[pi] == '*' {
        glob_matches_from(pattern, pi + 1, text, ti)
            || (ti < text.len() && glob_matches_from(pattern, pi, text, ti + 1))
    } else if pattern[pi] == '?' {
        ti < text.len() && glob_matches_from(pattern, pi + 1, text, ti + 1)
    } else {
        ti < text.len() && text[ti] == pattern[pi] && glob_matches_from(pattern, pi + 1, text, ti + 1)
    }
}

/// Whether all of `text` matches all of `pattern`.
pub open spec fn glob_matches(pattern: Seq<char>, text: Seq<char>) -> bool {
    glob_matches_from(pattern, 0, text, 0)
}

fn glob_match_recursive(pattern: &Vec<char>, pi: usize, text: &Vec<char>, ti: usize) -> (r: bool)
    requires
        pi <= pattern@.len(),
        ti <= text@.len(),
    ensures
        r == glob_matches_from(pattern@, pi as int, text@, ti as int),
    decreases pattern@.len() - pi, text@.len() - ti,
{
    if pi == pattern.len() {
        return ti == text.len();
    }
    if pattern[pi] == '*' {
        if glob_match_recursive(pattern, pi + 1, text, ti) {
            true
        } else if ti < text.len() {
            glob_match_recursive(pattern, pi, text, ti + 1)
        } else {
            false
        }
    } else if pattern[pi] == '?' {
        if ti < text.len() {
            glob_match_recursive(pattern, pi + 1, text, ti + 1)
        } else {
            false
        }
    } else {
        if ti < text.len() && text[ti] == pattern[pi] {
            glob_match_recursive(pattern, pi + 1, text, ti + 1)
        } else {
            false
        }
    }
}

/// Simple glob matching supporting `*` (any chars) and `?` (single char).
pub fn simple_glob_match(pattern: &str, text: &str) -> (r: bool)
    ensures
        r == glob_matches(pattern@, text@),
{
    let p = chars_of(pattern);
    let t = chars_of(text);
    glob_match_recursive(&p, 0, &t, 0)
}

/// Whether `name` matches at least one of `patterns`.
pub open spec fn matches_any_pattern(name: Seq<char>, patterns: Seq<&str>) -> bool {
    exists|i: int| 0 <= i < patterns.len() && glob_matches(patterns[i]@, name)
}

/// Whether the file name `filename` matches any of the important patterns.
pub fn matches_important_filename(filename: &str, patterns: &[&str]) -> (r: bool)
    ensures
        r == matches_any_pattern(filename@, patterns@),
{
    let mut i: usize = 0;
    while i < patterns.len()
        invariant
            0 <= i <= patterns@.len(),
            forall|j: int| 0 <= j < i ==> !glob_matches(#[trigger] patterns@[j]@, filename@),
        decreases patterns@.len() - i,
    {
        if simple_glob_match(patterns[i], filename) {
            return true;
        }
        i = i + 1;
    }
    false
}

/// What `Path::file_name` yields (as text) for the path `path`: its last
/// normal component, or nothing when the path ends in `..` or is a root.
pub uninterp spec fn spec_path_file_name(path: Seq<char>) -> Option<Seq<char>>;

/// Calls `std::path::Path::file_name` on `path`; the result is named by
/// `spec_path_file_name`. A name taken from a `&str` is always valid UTF-8.
#[verifier::external_body]
fn path_file_name(path: &str) -> (r: Option<String>)
    ensures
        r matches Some(n) ==> spec_path_file_name(path@) == Some(n@),
        r is None ==> spec_path_file_name(path@) is None,
{
    match std::path::Path::new(path).file_name() {
        Some(name) => match name.to_str() {
            Some(s) => Some(s.to_string()),
            None => None,
        },
        None => None,
    }
}

/// The file name of `path`, or the whole path when it has none.
pub open spec fn spec_file_name_or_path(path: Seq<char>) -> Seq<char> {
    match spec_path_file_name(path) {
        Some(n) => n,
        None => path,
    }
}

/// The file name of `path`, or the whole path when it has none.
pub(crate) fn file_name_or_path(path: &str) -> (r: String)
    ensures
        r@ == spec_file_name_or_path(path@),
{
    match path_file_name(path) {
        Some(name) => name,
        None => owned(path),
    }
}

/// Check whether a file path matches any of the important ignored patterns.
///
/// Only the file name is matched: `*` matches any characters, `?` one.
pub fn matches_important_pattern(file_path: &str, patterns: &[&str]) -> (r: bool)
    ensures
        r == matches_any_pattern(spec_file_name_or_path(file_path@), patterns@),
{
    match path_file_name(file_path) {
        Some(name) => matches_important_filename(name.as_str(), patterns),
        None => matches_important_filename(file_path, patterns),
    }
}

/// The badge's priorities: any local change or unpushed commit makes it
/// red whatever else holds; otherwise branches or worktrees out of sync make
/// it orange; otherwise important ignored files make it blue; a repository
/// with none of these is green, and only such a repository is.
pub proof fn lemma_badge_priority(
    staged: nat,
    unstaged: nat,
    untracked: nat,
    ahead: nat,
    branches: bool,
    worktrees: bool,
    important: bool,
)
    ensures
        (staged > 0 || unstaged > 0 || untracked > 0 || ahead > 0)
            ==> spec_badge(staged, unstaged, untracked, ahead, branches, worktrees, important) == Badge::Red,
        (staged == 0 && unstaged == 0 && untracked == 0 && ahead == 0 && (!branches || !worktrees))
            ==> spec_badge(staged, unstaged, untracked, ahead, branches, worktrees, important) == Badge::Orange,
        (spec_badge(staged, unstaged, untracked, ahead, branches, worktrees, important) == Badge::Green)
            <==> (staged == 0 && unstaged == 0 && untracked == 0 && ahead == 0 && branches && worktrees && !important),
{
}

proof fn lemma_star_matches_suffix(t: Seq<char>, ti: int)
    requires
        0 <= ti <= t.len(),
    ensures
        glob_matches_from(seq!['*'], 0, t, ti),
    decreases t.len() - ti,
{
    assert(glob_matches_from(seq!['*'], 1, t, t.len() as int));
    if ti < t.len() {
        lemma_star_matches_suffix(t, ti + 1);
    }
}

/// The pattern `*` matches every name, the empty one included.
pub proof fn lemma_star_matches_everything(t: Seq<char>)
    ensures
        glob_matches(seq!['*'], t),
{
    lemma_star_matches_suffix(t, 0);
}

/// A pattern without wildcards matches exactly the name equal to it.
pub proof fn lemma_plain_pattern_matches_itself(p: Seq<char>, pi: int)
    requires
        0 <= pi <= p.len(),
        forall|i: int| 0 <= i < p.len() ==> p[i] != '*' && p[i] != '?',
    ensures
        glob_matches_from(p, pi, p, pi),
    decreases p.len() - pi,
{
    if pi < p.len() {
        lemma_plain_pattern_matches_itself(p, pi + 1);
    }
}

} // verus!
