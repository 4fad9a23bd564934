//! Results of the system requirement checks.

use vstd::prelude::*;

verus! {

/// The outcome of one requirement check (git installed, auth, ...).
#[derive(Debug, Clone)]
pub struct CheckResult {
    /// Short name of the check (e.g. "Git").
    pub name: String,
    /// Whether the check passed.
    pub passed: bool,
    /// Human-readable detail.
    pub message: String,
    /// Optional hint on how to fix a failure.
    pub suggestion: Option<String>,
    /// Whether a failure blocks setup (warnings are non-critical).
    pub critical: bool,
}

} // verus!
