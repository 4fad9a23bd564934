//! Core data types: providers, organizations, repositories, operation
//! results, local repository status and the Finder status schema.

pub mod provider;
pub mod repo;
pub mod repo_status;
pub mod finder_status;

pub use provider::ProviderKind;
pub use repo::{ActionPlan, OpResult, OpSummary, Org, OwnedRepo, Repo, SkippedRepo};
pub use repo_status::{RepoEntry, SyncHistoryEntry};
