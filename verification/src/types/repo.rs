//! Repository and organization types and the results of batch operations.

use vstd::prelude::*;
use crate::text::{chars_of, concat_str, opt_view, owned};

verus! {

/// A GitHub/GitLab/Bitbucket organization.
#[derive(Debug, Clone, PartialEq, Eq)]
pub struct Org {
    /// Organization login/username (e.g., "rust-lang")
    pub login: String,
    /// Unique ID from the provider
    pub id: u64,
    /// Optional description
    pub description: Option<String>,
}

impl Org {
    /// Creates a new organization with just login and id.
    pub fn new(login: &str, id: u64) -> (r: Org)
        ensures
            r.login@ == login@,
            r.id == id,
            r.description is None,
    {
        Org { login: owned(login), id, description: None }
    }
}

/// A repository from a Git hosting provider.
#[derive(Debug, Clone, PartialEq, Eq)]
pub struct Repo {
    /// Unique ID from the provider
    pub id: u64,
    /// Repository name (e.g., "gisa")
    pub name: String,
    /// Full name including owner (e.g., "user/gisa")
    pub full_name: String,
    /// SSH clone URL
    pub ssh_url: String,
    /// HTTPS clone URL
    pub clone_url: String,
    /// Default branch name (e.g., "main")
    pub default_branch: String,
    /// Whether this is a private repository
    pub private: bool,
    /// Whether this repository is archived (read-only)
    pub archived: bool,
    /// Whether this is a fork of another repository
    pub fork: bool,
    /// When the repository was last pushed to, as an RFC 3339 timestamp
    pub pushed_at: Option<String>,
    /// Optional description
    pub description: Option<String>,
}

/// `r` is the part of `s` before its first `/` (all of `s` when it has none).
pub open spec fn is_owner_part(s: Seq<char>, r: Seq<char>) -> bool {
    &&& r.len() <= s.len()
    &&& r == s.take(r.len() as int)
    &&& forall|i: int| 0 <= i < r.len() ==> r[i] != '/'
    &&& (r.len() == s.len() || s[r.len() as int] == '/')
}

/// An exact copy of an optional string.
fn copy_opt_string(o: &Option<String>) -> (r: Option<String>)
    ensures
        r == *o,
{
    match o {
        Some(s) => Some(s.clone()),
        None => None,
    }
}

impl Repo {
    /// A minimal public GitHub repository `owner/name` (id 0), for tests and
    /// examples.
    pub fn test(name: &str, owner: &str) -> (r: Repo)
        ensures
            r.id == 0,
            r.name@ == name@,
            r.full_name@ == owner@ + "/"@ + name@,
            r.ssh_url@ == "git@github.com:"@ + owner@ + "/"@ + name@ + ".git"@,
            r.clone_url@ == "https://github.com/"@ + owner@ + "/"@ + name@ + ".git"@,
            r.default_branch@ == "main"@,
            !r.private && !r.archived && !r.fork,
            r.pushed_at is None,
            r.description is None,
    {
        let full = concat_str(concat_str(owner, "/").as_str(), name);
        let ssh = concat_str(concat_str("git@github.com:", full.as_str()).as_str(), ".git");
        let https = concat_str(concat_str("https://github.com/", full.as_str()).as_str(), ".git");
        proof {
            assert(ssh@ =~= "git@github.com:"@ + owner@ + "/"@ + name@ + ".git"@);
            assert(https@ =~= "https://github.com/"@ + owner@ + "/"@ + name@ + ".git"@);
        }
        Repo {
            id: 0,
            name: owned(name),
            full_name: full,
            ssh_url: ssh,
            clone_url: https,
            default_branch: owned("main"),
            private: false,
            archived: false,
            fork: false,
            pushed_at: None,
            description: None,
        }
    }

    /// An exact copy of this repository.
    pub fn copy(&self) -> (r: Repo)
        ensures
            r == *self,
    {
        Repo {
            id: self.id,
            name: self.name.clone(),
            full_name: self.full_name.clone(),
            ssh_url: self.ssh_url.clone(),
            clone_url: self.clone_url.clone(),
            default_branch: self.default_branch.clone(),
            private: self.private,
            archived: self.archived,
            fork: self.fork,
            pushed_at: copy_opt_string(&self.pushed_at),
            description: copy_opt_string(&self.description),
        }
    }

    /// Returns the owner from the full_name: the text before the first `/`.
    pub fn owner(&self) -> (r: &str)
        ensures
            is_owner_part(self.full_name@, r@),
    {
        let cs = chars_of(self.full_name.as_str());
        let mut i: usize = 0;
        while i < cs.len() && cs[i] != '/'
            invariant
                cs@ == self.full_name@,
                0 <= i <= cs@.len(),
                forall|j: int| 0 <= j < i ==> cs@[j] != '/',
            decreases cs@.len() - i,
        {
            i = i + 1;
        }
        let r = self.full_name.as_str().substring_char(0, i);
        assert(r@ =~= self.full_name@.take(i as int));
        assert(r@.len() == i);
        r
    }
}

/// A repository with the owner it was discovered under.
#[derive(Debug, Clone)]
pub struct OwnedRepo {
    /// Organization name or username
    pub owner: String,
    /// The repository
    pub repo: Repo,
}

impl OwnedRepo {
    /// Creates a new owned repo.
    pub fn new(owner: &str, repo: Repo) -> (r: OwnedRepo)
        ensures
            r.owner@ == owner@,
            r.repo == repo,
    {
        OwnedRepo { owner: owned(owner), repo }
    }

    /// An exact copy of this owned repository.
    pub fn copy(&self) -> (r: OwnedRepo)
        ensures
            r == *self,
    {
        OwnedRepo { owner: self.owner.clone(), repo: self.repo.copy() }
    }

    /// Returns the full path for this repo (e.g., "org/repo").
    pub fn full_name(&self) -> (r: &str)
        ensures
            r@ == self.repo.full_name@,
    {
        self.repo.full_name.as_str()
    }

    /// Returns the repository name.
    pub fn name(&self) -> (r: &str)
        ensures
            r@ == self.repo.name@,
    {
        self.repo.name.as_str()
    }
}

/// A repository that was skipped during planning.
#[derive(Debug)]
pub struct SkippedRepo {
    /// The repository that was skipped
    pub repo: OwnedRepo,
    /// Reason for skipping
    pub reason: String,
}

/// The plan for a clone/sync operation.
#[derive(Debug)]
pub struct ActionPlan {
    /// New repositories that need to be cloned
    pub to_clone: Vec<OwnedRepo>,
    /// Existing repositories that should be synced
    pub to_sync: Vec<OwnedRepo>,
    /// Repositories that were skipped
    pub skipped: Vec<SkippedRepo>,
}

impl ActionPlan {
    /// Creates an empty action plan.
    pub fn new() -> (r: ActionPlan)
        ensures
            r.to_clone@.len() == 0,
            r.to_sync@.len() == 0,
            r.skipped@.len() == 0,
    {
        ActionPlan { to_clone: Vec::new(), to_sync: Vec::new(), skipped: Vec::new() }
    }

    /// Returns the total number of repositories in the plan.
    pub fn total(&self) -> (r: usize)
        requires
            self.to_clone@.len() + self.to_sync@.len() + self.skipped@.len() <= usize::MAX,
        ensures
            r == self.to_clone@.len() + self.to_sync@.len() + self.skipped@.len(),
    {
        self.to_clone.len() + self.to_sync.len() + self.skipped.len()
    }

    /// Returns true if there's nothing to clone or sync.
    pub fn is_empty(&self) -> (r: bool)
        ensures
            r == (self.to_clone@.len() == 0 && self.to_sync@.len() == 0),
    {
        self.to_clone.len() == 0 && self.to_sync.len() == 0
    }

    /// Adds a repo to clone.
    pub fn add_clone(&mut self, repo: OwnedRepo)
        ensures
            final(self).to_clone@ == old(self).to_clone@.push(repo),
            final(self).to_sync@ == old(self).to_sync@,
            final(self).skipped@ == old(self).skipped@,
    {
        self.to_clone.push(repo);
    }

    /// Adds a repo to sync.
    pub fn add_sync(&mut self, repo: OwnedRepo)
        ensures
            final(self).to_sync@ == old(self).to_sync@.push(repo),
            final(self).to_clone@ == old(self).to_clone@,
            final(self).skipped@ == old(self).skipped@,
    {
        self.to_sync.push(repo);
    }

    /// Adds a skipped repo with its reason.
    pub fn add_skipped(&mut self, repo: OwnedRepo, reason: &str)
        ensures
            final(self).skipped@.len() == old(self).skipped@.len() + 1,
            final(self).skipped@.take(old(self).skipped@.len() as int) == old(self).skipped@,
            final(self).skipped@.last().repo == repo,
            final(self).skipped@.last().reason@ == reason@,
            final(self).to_clone@ == old(self).to_clone@,
            final(self).to_sync@ == old(self).to_sync@,
    {
        let ghost before = self.skipped@;
        self.skipped.push(SkippedRepo { repo, reason: owned(reason) });
        assert(self.skipped@.take(before.len() as int) =~= before);
    }
}

/// Outcome of a single clone or sync operation.
#[derive(Debug, Clone, PartialEq, Eq)]
pub enum OpResult {
    /// Operation completed successfully
    Success,
    /// Operation failed with an error
    Failed(String),
    /// Operation was skipped for a reason
    Skipped(String),
}

impl OpResult {
    /// Returns true if the operation was successful.
    pub fn is_success(&self) -> (r: bool)
        ensures
            r == (*self is Success),
    {
        match self {
            OpResult::Success => true,
            _ => false,
        }
    }

    /// Returns true if the operation failed.
    pub fn is_failed(&self) -> (r: bool)
        ensures
            r == (*self is Failed),
    {
        match self {
            OpResult::Failed(_) => true,
            _ => false,
        }
    }

    /// Returns true if the operation was skipped.
    pub fn is_skipped(&self) -> (r: bool)
        ensures
            r == (*self is Skipped),
    {
        match self {
            OpResult::Skipped(_) => true,
            _ => false,
        }
    }

    /// Returns the error message if failed.
    pub fn error_message(&self) -> (r: Option<&str>)
        ensures
            match *self {
                OpResult::Failed(m) => r is Some && r->0@ == m@,
                _ => r is None,
            },
    {
        match self {
            OpResult::Failed(msg) => Some(msg.as_str()),
            _ => None,
        }
    }

    /// Returns the skip reason if skipped.
    pub fn skip_reason(&self) -> (r: Option<&str>)
        ensures
            match *self {
                OpResult::Skipped(m) => r is Some && r->0@ == m@,
                _ => r is None,
            },
    {
        match self {
            OpResult::Skipped(reason) => Some(reason.as_str()),
            _ => None,
        }
    }
}

/// Summary statistics for a batch operation.
#[derive(Debug, Clone)]
pub struct OpSummary {
    /// Number of successful operations
    pub success: usize,
    /// Number of failed operations
    pub failed: usize,
    /// Number of skipped operations
    pub skipped: usize,
}

/// The summary after recording `r` into `s`.
pub open spec fn spec_record(s: (nat, nat, nat), r: OpResult) -> (nat, nat, nat) {
    match r {
        OpResult::Success => (s.0 + 1, s.1, s.2),
        OpResult::Failed(_) => (s.0, s.1 + 1, s.2),
        OpResult::Skipped(_) => (s.0, s.1, s.2 + 1),
    }
}

/// The summary (success, failed, skipped) of a sequence of results.
pub open spec fn spec_summary_of(rs: Seq<OpResult>) -> (nat, nat, nat)
    decreases rs.len(),
{
    if rs.len() == 0 {
        (0, 0, 0)
    } else {
        spec_record(spec_summary_of(rs.drop_last()), rs.last())
    }
}

impl OpSummary {
    /// The counters as a triple (success, failed, skipped).
    pub open spec fn counts(&self) -> (nat, nat, nat) {
        (self.success as nat, self.failed as nat, self.skipped as nat)
    }

    /// Creates an empty summary.
    pub fn new() -> (r: OpSummary)
        ensures
            r.counts() == (0nat, 0nat, 0nat),
    {
        OpSummary { success: 0, failed: 0, skipped: 0 }
    }

    /// Records a result: the counter of its kind grows by one.
    pub fn record(&mut self, result: &OpResult)
        requires
            old(self).success < usize::MAX,
            old(self).failed < usize::MAX,
            old(self).skipped < usize::MAX,
        ensures
            final(self).counts() == spec_record(old(self).counts(), *result),
    {
        match result {
            OpResult::Success => self.success = self.success + 1,
            OpResult::Failed(_) => self.failed = self.failed + 1,
            OpResult::Skipped(_) => self.skipped = self.skipped + 1,
        }
    }

    /// Returns the total number of operations.
    pub fn total(&self) -> (r: usize)
        requires
            self.success + self.failed + self.skipped <= usize::MAX,
        ensures
            r == self.success + self.failed + self.skipped,
    {
        self.success + self.failed + self.skipped
    }

    /// Returns true if there were any failures.
    pub fn has_failures(&self) -> (r: bool)
        ensures
            r == (self.failed > 0),
    {
        self.failed > 0
    }
}

impl Default for OpSummary {
    fn default() -> (r: OpSummary)
        ensures
            r.counts() == (0nat, 0nat, 0nat),
    {
        OpSummary::new()
    }
}

/// Once a summary has a failure it keeps having one: recording a result
/// never lowers a counter, so `has_failures` stays true.
pub proof fn lemma_failures_stay(c: (nat, nat, nat), r: OpResult)
    ensures
        spec_record(c, r).0 >= c.0,
        spec_record(c, r).1 >= c.1,
        spec_record(c, r).2 >= c.2,
        c.1 > 0 ==> spec_record(c, r).1 > 0,
{
}

/// Recording each result of a batch into an empty summary counts every
/// result exactly once: the total equals the number of results, and each
/// counter equals the number of results of its kind.
pub proof fn lemma_summary_counts_every_result(rs: Seq<OpResult>)
    ensures
        spec_summary_of(rs).0 + spec_summary_of(rs).1 + spec_summary_of(rs).2 == rs.len(),
        spec_summary_of(rs).0 == rs.filter(|r: OpResult| r is Success).len(),
        spec_summary_of(rs).1 == rs.filter(|r: OpResult| r is Failed).len(),
        spec_summary_of(rs).2 == rs.filter(|r: OpResult| r is Skipped).len(),
    decreases rs.len(),
{
    reveal(Seq::filter);
    if rs.len() > 0 {
        lemma_summary_counts_every_result(rs.drop_last());
    }
}

} // verus!
