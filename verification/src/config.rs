//! Workspace configuration values that the wizard and the TUI work with.

use vstd::prelude::*;
use crate::text::{clone_opt, opt_view, owned};
use crate::types::ProviderKind;

verus! {

/// The provider a workspace syncs from.
#[derive(Debug, Clone)]
pub struct WorkspaceProvider {
    /// Which provider.
    pub kind: ProviderKind,
    /// Custom API URL (self-hosted providers); `None` means the default.
    pub api_url: Option<String>,
}

/// How existing repositories are synced.
#[derive(Debug, Clone, Copy, PartialEq, Eq, Structural)]
pub enum SyncMode {
    /// `git fetch` only.
    Fetch,
    /// `git pull`.
    Pull,
}

/// The name of a sync mode as shown to the user.
pub open spec fn spec_sync_mode_name(m: SyncMode) -> Seq<char> {
    match m {
        SyncMode::Fetch => "fetch"@,
        SyncMode::Pull => "pull"@,
    }
}

/// Returns the name of a sync mode as shown to the user.
pub fn sync_mode_name(mode: SyncMode) -> (r: &'static str)
    ensures
        r@ == spec_sync_mode_name(mode),
{
    match mode {
        SyncMode::Fetch => "fetch",
        SyncMode::Pull => "pull",
    }
}

/// A configured workspace: a named base folder synced from one provider.
#[derive(Debug, Clone)]
pub struct WorkspaceConfig {
    /// Workspace name (unique).
    pub name: String,
    /// Base path as configured (may start with `~`).
    pub base_path: String,
    /// The provider this workspace syncs from.
    pub provider: WorkspaceProvider,
    /// User name at the provider.
    pub username: String,
    /// Organizations to sync; empty means all.
    pub orgs: Vec<String>,
    /// When the workspace was last synced, as an RFC 3339 timestamp.
    pub last_synced: Option<String>,
    /// Seconds between automatic status scans; `None` means the global value.
    pub refresh_interval: Option<u64>,
    /// Folder layout of repositories; `None` means the global layout.
    pub structure: Option<String>,
    /// How existing repositories are synced; `None` means the global mode.
    pub sync_mode: Option<SyncMode>,
    /// Repositories processed in parallel; `None` means the global value.
    pub concurrency: Option<usize>,
}

/// `a` and `b` hold the same workspace settings.
pub open spec fn same_workspace(a: WorkspaceConfig, b: WorkspaceConfig) -> bool {
    &&& a.name@ == b.name@
    &&& a.base_path@ == b.base_path@
    &&& a.provider.kind == b.provider.kind
    &&& opt_view(a.provider.api_url) == opt_view(b.provider.api_url)
    &&& a.username@ == b.username@
    &&& a.orgs@ == b.orgs@
    &&& opt_view(a.last_synced) == opt_view(b.last_synced)
    &&& a.refresh_interval == b.refresh_interval
    &&& opt_view(a.structure) == opt_view(b.structure)
    &&& a.sync_mode == b.sync_mode
    &&& a.concurrency == b.concurrency
}

/// What `shellexpand::tilde` may return for `p`: `p` itself, or, when `p` is
/// `~` or starts with `~/` (or, on Windows, `~\`), some home directory
/// followed by the rest of `p`.
pub open spec fn is_tilde_expansion(p: Seq<char>, r: Seq<char>) -> bool {
    ||| r == p
    ||| (p.len() > 0 && p[0] == '~' && (p.len() == 1 || p[1] == '/' || p[1] == '\\') && exists|home: Seq<char>|
        r == home + p.skip(1))
}

/// Calls `shellexpand::tilde`, which replaces a leading `~` (alone, or
/// followed by `/`, or on Windows by `\`) by the home directory when one is
/// known and leaves every other path unchanged. The home
/// directory comes from the environment, so only the shape of the result is
/// stated.
#[verifier::external_body]
pub(crate) fn expand_tilde(path: &str) -> (r: String)
    ensures
        is_tilde_expansion(path@, r@),
{
    shellexpand::tilde(path).into_owned()
}

impl WorkspaceConfig {
    /// A workspace named `name` rooted at `base_path`, syncing from GitHub
    /// with no organization filter.
    pub fn new(name: &str, base_path: &str) -> (r: WorkspaceConfig)
        ensures
            r.name@ == name@,
            r.base_path@ == base_path@,
            r.provider.kind == ProviderKind::GitHub,
            r.provider.api_url is None,
            r.username@.len() == 0,
            r.orgs@.len() == 0,
            r.last_synced is None,
            r.refresh_interval is None,
            r.structure is None,
            r.sync_mode is None,
            r.concurrency is None,
    {
        WorkspaceConfig {
            name: owned(name),
            base_path: owned(base_path),
            provider: WorkspaceProvider { kind: ProviderKind::GitHub, api_url: None },
            username: String::new(),
            orgs: Vec::new(),
            last_synced: None,
            refresh_interval: None,
            structure: None,
            sync_mode: None,
            concurrency: None,
        }
    }

    /// The base path with a leading `~` expanded to the home directory.
    pub fn expanded_base_path(&self) -> (r: String)
        ensures
            is_tilde_expansion(self.base_path@, r@),
    {
        expand_tilde(self.base_path.as_str())
    }

    /// A copy of this workspace.
    pub fn copy(&self) -> (r: WorkspaceConfig)
        ensures
            same_workspace(r, *self),
    {
        let orgs = self.orgs.clone();
        proof {
            assert(orgs@ =~= self.orgs@);
        }
        WorkspaceConfig {
            name: self.name.clone(),
            base_path: self.base_path.clone(),
            provider: WorkspaceProvider {
                kind: self.provider.kind,
                api_url: clone_opt(&self.provider.api_url),
            },
            username: self.username.clone(),
            orgs,
            last_synced: clone_opt(&self.last_synced),
            refresh_interval: self.refresh_interval,
            structure: clone_opt(&self.structure),
            sync_mode: self.sync_mode,
            concurrency: self.concurrency,
        }
    }
}

/// Global configuration.
#[derive(Debug, Clone)]
pub struct Config {
    /// Name of the workspace to open when several exist.
    pub default_workspace: Option<String>,
    /// Seconds between automatic status scans.
    pub refresh_interval: u64,
    /// Number of repositories processed in parallel.
    pub concurrency: usize,
    /// How existing repositories are synced.
    pub sync_mode: SyncMode,
    /// Folder layout of repositories under a workspace's base path.
    pub structure: String,
}

impl Default for Config {
    fn default() -> (r: Config)
        ensures
            r.default_workspace is None,
            r.refresh_interval == 300,
            r.concurrency == 4,
            r.sync_mode == SyncMode::Fetch,
            r.structure@ == "{org}/{repo}"@,
    {
        Config {
            default_workspace: None,
            refresh_interval: 300,
            concurrency: 4,
            sync_mode: SyncMode::Fetch,
            structure: owned("{org}/{repo}"),
        }
    }
}

} // verus!
