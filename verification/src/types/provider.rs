//! The supported Git hosting providers and their identifiers.

use vstd::prelude::*;
use crate::text::{concat_str, is_ascii_text, spec_ascii_lowercase, spec_to_lowercase, str_eq, to_lowercase};

verus! {

/// Identifies which Git hosting provider a repository belongs to.
#[derive(Debug, Clone, Copy, PartialEq, Eq, Hash, Structural)]
pub enum ProviderKind {
    /// GitHub.com (public)
    GitHub,
    /// GitHub Enterprise Server (self-hosted)
    GitHubEnterprise,
    /// GitLab.com
    GitLab,
    /// Self-managed GitLab instance
    GitLabSelfManaged,
    /// Codeberg.org
    Codeberg,
    /// Atlassian Bitbucket
    Bitbucket,
}

/// The stable slug used for path templating and cache keys.
pub open spec fn spec_slug(k: ProviderKind) -> Seq<char> {
    match k {
        ProviderKind::GitHub => "github"@,
        ProviderKind::GitHubEnterprise => "github-enterprise"@,
        ProviderKind::GitLab => "gitlab"@,
        ProviderKind::GitLabSelfManaged => "gitlab-self-managed"@,
        ProviderKind::Codeberg => "codeberg"@,
        ProviderKind::Bitbucket => "bitbucket"@,
    }
}

/// The default API base URL; empty for self-hosted providers.
pub open spec fn spec_default_api_url(k: ProviderKind) -> Seq<char> {
    match k {
        ProviderKind::GitHub => "https://api.github.com"@,
        ProviderKind::GitHubEnterprise => ""@,
        ProviderKind::GitLab => "https://gitlab.com/api/v4"@,
        ProviderKind::GitLabSelfManaged => ""@,
        ProviderKind::Codeberg => "https://codeberg.org/api/v1"@,
        ProviderKind::Bitbucket => "https://api.bitbucket.org/2.0"@,
    }
}

/// The default git host for SSH URLs; empty for self-hosted providers.
pub open spec fn spec_default_ssh_host(k: ProviderKind) -> Seq<char> {
    match k {
        ProviderKind::GitHub => "github.com"@,
        ProviderKind::GitHubEnterprise => ""@,
        ProviderKind::GitLab => "gitlab.com"@,
        ProviderKind::GitLabSelfManaged => ""@,
        ProviderKind::Codeberg => "codeberg.org"@,
        ProviderKind::Bitbucket => "bitbucket.org"@,
    }
}

/// The human-readable name of a provider.
pub open spec fn spec_display_name(k: ProviderKind) -> Seq<char> {
    match k {
        ProviderKind::GitHub => "GitHub"@,
        ProviderKind::GitHubEnterprise => "GitHub Enterprise"@,
        ProviderKind::GitLab => "GitLab"@,
        ProviderKind::GitLabSelfManaged => "GitLab Self-Managed"@,
        ProviderKind::Codeberg => "Codeberg"@,
        ProviderKind::Bitbucket => "Bitbucket"@,
    }
}

/// Self-hosted providers need a configured URL.
pub open spec fn spec_requires_custom_url(k: ProviderKind) -> bool {
    k == ProviderKind::GitHubEnterprise || k == ProviderKind::GitLabSelfManaged
}

/// Every provider, in the order in which the setup wizard lists them.
pub open spec fn spec_all_providers() -> Seq<ProviderKind> {
    seq![
        ProviderKind::GitHub,
        ProviderKind::GitHubEnterprise,
        ProviderKind::GitLab,
        ProviderKind::GitLabSelfManaged,
        ProviderKind::Codeberg,
        ProviderKind::Bitbucket,
    ]
}

/// The provider named by an already lower-cased name or alias.
pub open spec fn spec_kind_from_lowercase(t: Seq<char>) -> Option<ProviderKind> {
    if t == "github"@ || t == "gh"@ {
        Some(ProviderKind::GitHub)
    } else if t == "github-enterprise"@ || t == "ghe"@ || t == "github_enterprise"@ {
        Some(ProviderKind::GitHubEnterprise)
    } else if t == "gitlab"@ || t == "gl"@ {
        Some(ProviderKind::GitLab)
    } else if t == "gitlab-self-managed"@ || t == "glsm"@ || t == "gitlab_self_managed"@ {
        Some(ProviderKind::GitLabSelfManaged)
    } else if t == "codeberg"@ || t == "cb"@ {
        Some(ProviderKind::Codeberg)
    } else if t == "bitbucket"@ || t == "bb"@ {
        Some(ProviderKind::Bitbucket)
    } else {
        None
    }
}

/// The message of the error returned for an unknown provider name `s`.
pub open spec fn spec_unknown_provider_message(s: Seq<char>) -> Seq<char> {
    "Unknown provider: '"@ + s
        + "'. Supported: github, github-enterprise, gitlab, gitlab-self-managed, codeberg, bitbucket"@
}

/// The result of parsing a provider name: the kind named by the
/// lower-cased text, else the error message for the original text.
pub open spec fn spec_parse_lowered(s: Seq<char>, lowered: Seq<char>) -> Result<ProviderKind, Seq<char>> {
    match spec_kind_from_lowercase(lowered) {
        Some(k) => Ok(k),
        None => Err(spec_unknown_provider_message(s)),
    }
}

/// What parsing the name `s` gives: the provider that its lower-case form
/// names, else the error naming `s`; for ASCII text the lower-case form is
/// the one with `A` to `Z` lowered.
pub open spec fn parse_result(s: Seq<char>, r: Result<ProviderKind, String>) -> bool {
    &&& match r {
        Ok(k) => spec_parse_lowered(s, spec_to_lowercase(s)) == Ok::<ProviderKind, Seq<char>>(k),
        Err(e) => spec_parse_lowered(s, spec_to_lowercase(s)) == Err::<ProviderKind, Seq<char>>(e@),
    }
    &&& is_ascii_text(s) ==> spec_to_lowercase(s) == spec_ascii_lowercase(s)
}

impl ProviderKind {
    /// Returns a stable slug for path templating and cache keys.
    pub fn slug(&self) -> (r: &'static str)
        ensures
            r@ == spec_slug(*self),
    {
        match self {
            ProviderKind::GitHub => "github",
            ProviderKind::GitHubEnterprise => "github-enterprise",
            ProviderKind::GitLab => "gitlab",
            ProviderKind::GitLabSelfManaged => "gitlab-self-managed",
            ProviderKind::Codeberg => "codeberg",
            ProviderKind::Bitbucket => "bitbucket",
        }
    }

    /// Returns the default API base URL for this provider.
    pub fn default_api_url(&self) -> (r: &'static str)
        ensures
            r@ == spec_default_api_url(*self),
    {
        match self {
            ProviderKind::GitHub => "https://api.github.com",
            ProviderKind::GitHubEnterprise => "",
            ProviderKind::GitLab => "https://gitlab.com/api/v4",
            ProviderKind::GitLabSelfManaged => "",
            ProviderKind::Codeberg => "https://codeberg.org/api/v1",
            ProviderKind::Bitbucket => "https://api.bitbucket.org/2.0",
        }
    }

    /// Returns the default git host for SSH URLs.
    pub fn default_ssh_host(&self) -> (r: &'static str)
        ensures
            r@ == spec_default_ssh_host(*self),
    {
        match self {
            ProviderKind::GitHub => "github.com",
            ProviderKind::GitHubEnterprise => "",
            ProviderKind::GitLab => "gitlab.com",
            ProviderKind::GitLabSelfManaged => "",
            ProviderKind::Codeberg => "codeberg.org",
            ProviderKind::Bitbucket => "bitbucket.org",
        }
    }

    /// Returns true if this provider requires custom URL configuration.
    pub fn requires_custom_url(&self) -> (r: bool)
        ensures
            r == spec_requires_custom_url(*self),
    {
        match self {
            ProviderKind::GitHubEnterprise => true,
            ProviderKind::GitLabSelfManaged => true,
            _ => false,
        }
    }

    /// Returns the human-readable name for this provider.
    pub fn display_name(&self) -> (r: &'static str)
        ensures
            r@ == spec_display_name(*self),
    {
        match self {
            ProviderKind::GitHub => "GitHub",
            ProviderKind::GitHubEnterprise => "GitHub Enterprise",
            ProviderKind::GitLab => "GitLab",
            ProviderKind::GitLabSelfManaged => "GitLab Self-Managed",
            ProviderKind::Codeberg => "Codeberg",
            ProviderKind::Bitbucket => "Bitbucket",
        }
    }

    /// Returns all supported provider kinds.
    pub fn all() -> (r: &'static [ProviderKind])
        ensures
            r@ == spec_all_providers(),
    {
        let r: &'static [ProviderKind] = &[
            ProviderKind::GitHub,
            ProviderKind::GitHubEnterprise,
            ProviderKind::GitLab,
            ProviderKind::GitLabSelfManaged,
            ProviderKind::Codeberg,
            ProviderKind::Bitbucket,
        ];
        assert(r@ =~= spec_all_providers());
        r
    }

    /// The provider named by an already lower-cased name or alias.
    pub fn from_lowercase_name(t: &str) -> (r: Option<ProviderKind>)
        ensures
            r == spec_kind_from_lowercase(t@),
            forall|k: ProviderKind| #[trigger] is_documented_alias(t@, k) ==> r == Some(k),
    {
        proof {
            assert forall|k: ProviderKind| #[trigger] is_documented_alias(t@, k)
                implies spec_kind_from_lowercase(t@) == Some(k) by {
                lemma_aliases_name_their_provider(t@, k);
            }
        }
        if str_eq(t, "github") || str_eq(t, "gh") {
            Some(ProviderKind::GitHub)
        } else if str_eq(t, "github-enterprise") || str_eq(t, "ghe") || str_eq(t, "github_enterprise") {
            Some(ProviderKind::GitHubEnterprise)
        } else if str_eq(t, "gitlab") || str_eq(t, "gl") {
            Some(ProviderKind::GitLab)
        } else if str_eq(t, "gitlab-self-managed") || str_eq(t, "glsm") || str_eq(t, "gitlab_self_managed") {
            Some(ProviderKind::GitLabSelfManaged)
        } else if str_eq(t, "codeberg") || str_eq(t, "cb") {
            Some(ProviderKind::Codeberg)
        } else if str_eq(t, "bitbucket") || str_eq(t, "bb") {
            Some(ProviderKind::Bitbucket)
        } else {
            None
        }
    }

    /// Parses a provider from the name `s` given that `lowered` is its
    /// lower-cased form; the error names `s` as given.
    pub fn parse_lowered(s: &str, lowered: &str) -> (r: Result<ProviderKind, String>)
        ensures
            match r {
                Ok(k) => spec_parse_lowered(s@, lowered@) == Ok::<ProviderKind, Seq<char>>(k),
                Err(e) => spec_parse_lowered(s@, lowered@) == Err::<ProviderKind, Seq<char>>(e@),
            },
    {
        match Self::from_lowercase_name(lowered) {
            Some(k) => Ok(k),
            None => {
                let head = concat_str("Unknown provider: '", s);
                let msg = concat_str(
                    head.as_str(),
                    "'. Supported: github, github-enterprise, gitlab, gitlab-self-managed, codeberg, bitbucket",
                );
                Err(msg)
            },
        }
    }

    /// Parses a provider name case-insensitively (e.g. "GitHub", "ghe").
    pub fn parse(s: &str) -> (r: Result<ProviderKind, String>)
        ensures
            parse_result(s@, r),
    {
        let lowered = to_lowercase(s);
        Self::parse_lowered(s, lowered.as_str())
    }
}

impl Default for ProviderKind {
    fn default() -> (r: ProviderKind)
        ensures
            r == ProviderKind::GitHub,
    {
        ProviderKind::GitHub
    }
}

impl std::str::FromStr for ProviderKind {
    type Err = String;

    fn from_str(s: &str) -> (r: Result<ProviderKind, String>)
        ensures
            parse_result(s@, r),
    {
        ProviderKind::parse(s)
    }
}

/// Every provider's slug names it again: parsing a slug gives back the
/// provider it came from.
pub proof fn lemma_slug_names_its_provider(k: ProviderKind)
    ensures
        spec_kind_from_lowercase(spec_slug(k)) == Some(k),
{
    reveal_strlit("github");
    reveal_strlit("gh");
    reveal_strlit("github-enterprise");
    reveal_strlit("ghe");
    reveal_strlit("github_enterprise");
    reveal_strlit("gitlab");
    reveal_strlit("gl");
    reveal_strlit("gitlab-self-managed");
    reveal_strlit("glsm");
    reveal_strlit("gitlab_self_managed");
    reveal_strlit("codeberg");
    reveal_strlit("cb");
    reveal_strlit("bitbucket");
    reveal_strlit("bb");
    match k {
        ProviderKind::GitHub => {
            assert(spec_kind_from_lowercase(spec_slug(k)) == Some(k));
        },
        ProviderKind::GitHubEnterprise => {
            assert("github-enterprise"@.len() != "github"@.len());
            assert("github-enterprise"@.len() != "gh"@.len());
            assert(spec_kind_from_lowercase(spec_slug(k)) == Some(k));
        },
        ProviderKind::GitLab => {
            assert("gitlab"@[3] != "github"@[3]);
            assert("gitlab"@ != "github"@);
            assert("gitlab"@.len() != "gh"@.len());
            assert("gitlab"@.len() != "github-enterprise"@.len());
            assert("gitlab"@.len() != "ghe"@.len());
            assert("gitlab"@.len() != "github_enterprise"@.len());
            assert(spec_kind_from_lowercase(spec_slug(k)) == Some(k));
        },
        ProviderKind::GitLabSelfManaged => {
            assert("gitlab-self-managed"@.len() != "github"@.len());
            assert("gitlab-self-managed"@.len() != "gh"@.len());
            assert("gitlab-self-managed"@.len() != "github-enterprise"@.len());
            assert("gitlab-self-managed"@.len() != "ghe"@.len());
            assert("gitlab-self-managed"@.len() != "github_enterprise"@.len());
            assert("gitlab-self-managed"@.len() != "gitlab"@.len());
            assert("gitlab-self-managed"@.len() != "gl"@.len());
            assert(spec_kind_from_lowercase(spec_slug(k)) == Some(k));
        },
        ProviderKind::Codeberg => {
            assert("codeberg"@.len() != "github"@.len());
            assert("codeberg"@.len() != "gh"@.len());
            assert("codeberg"@.len() != "github-enterprise"@.len());
            assert("codeberg"@.len() != "ghe"@.len());
            assert("codeberg"@.len() != "github_enterprise"@.len());
            assert("codeberg"@.len() != "gitlab"@.len());
            assert("codeberg"@.len() != "gl"@.len());
            assert("codeberg"@.len() != "gitlab-self-managed"@.len());
            assert("codeberg"@.len() != "glsm"@.len());
            assert("codeberg"@.len() != "gitlab_self_managed"@.len());
            assert(spec_kind_from_lowercase(spec_slug(k)) == Some(k));
        },
        ProviderKind::Bitbucket => {
            assert("bitbucket"@.len() != "github"@.len());
            assert("bitbucket"@.len() != "gh"@.len());
            assert("bitbucket"@.len() != "github-enterprise"@.len());
            assert("bitbucket"@.len() != "ghe"@.len());
            assert("bitbucket"@.len() != "github_enterprise"@.len());
            assert("bitbucket"@.len() != "gitlab"@.len());
            assert("bitbucket"@.len() != "gl"@.len());
            assert("bitbucket"@.len() != "gitlab-self-managed"@.len());
            assert("bitbucket"@.len() != "glsm"@.len());
            assert("bitbucket"@.len() != "gitlab_self_managed"@.len());
            assert("bitbucket"@.len() != "codeberg"@.len());
            assert("bitbucket"@.len() != "cb"@.len());
            assert(spec_kind_from_lowercase(spec_slug(k)) == Some(k));
        },
    }
}

/// Different providers have different slugs.
pub proof fn lemma_slugs_differ(a: ProviderKind, b: ProviderKind)
    requires
        a != b,
    ensures
        spec_slug(a) != spec_slug(b),
{
    lemma_slug_names_its_provider(a);
    lemma_slug_names_its_provider(b);
}

/// Parsing ignores case: an ASCII name whose lower-case form is a
/// provider's slug (such as `GITHUB` or `GitLab`) parses to that provider.
pub proof fn lemma_parse_ignores_case(k: ProviderKind, s: Seq<char>, r: Result<ProviderKind, String>)
    requires
        parse_result(s, r),
        is_ascii_text(s),
        spec_ascii_lowercase(s) == spec_slug(k),
    ensures
        r matches Ok(p) && p == k,
{
    lemma_slug_names_its_provider(k);
}

/// The documented names of each provider: its slug and its short aliases
/// (`gh`, `ghe`, `github_enterprise`, `gl`, `glsm`, `gitlab_self_managed`,
/// `cb`, `bb`).
pub open spec fn is_documented_alias(t: Seq<char>, k: ProviderKind) -> bool {
    ||| (t == "github"@ && k == ProviderKind::GitHub)
    ||| (t == "gh"@ && k == ProviderKind::GitHub)
    ||| (t == "github-enterprise"@ && k == ProviderKind::GitHubEnterprise)
    ||| (t == "ghe"@ && k == ProviderKind::GitHubEnterprise)
    ||| (t == "github_enterprise"@ && k == ProviderKind::GitHubEnterprise)
    ||| (t == "gitlab"@ && k == ProviderKind::GitLab)
    ||| (t == "gl"@ && k == ProviderKind::GitLab)
    ||| (t == "gitlab-self-managed"@ && k == ProviderKind::GitLabSelfManaged)
    ||| (t == "glsm"@ && k == ProviderKind::GitLabSelfManaged)
    ||| (t == "gitlab_self_managed"@ && k == ProviderKind::GitLabSelfManaged)
    ||| (t == "codeberg"@ && k == ProviderKind::Codeberg)
    ||| (t == "cb"@ && k == ProviderKind::Codeberg)
    ||| (t == "bitbucket"@ && k == ProviderKind::Bitbucket)
    ||| (t == "bb"@ && k == ProviderKind::Bitbucket)
}

/// Every documented name of a provider, slug or alias, names that provider.
pub proof fn lemma_aliases_name_their_provider(t: Seq<char>, k: ProviderKind)
    requires
        is_documented_alias(t, k),
    ensures
        spec_kind_from_lowercase(t) == Some(k),
{
    reveal_strlit("github");
    reveal_strlit("gh");
    reveal_strlit("github-enterprise");
    reveal_strlit("ghe");
    reveal_strlit("github_enterprise");
    reveal_strlit("gitlab");
    reveal_strlit("gl");
    reveal_strlit("gitlab-self-managed");
    reveal_strlit("glsm");
    reveal_strlit("gitlab_self_managed");
    reveal_strlit("codeberg");
    reveal_strlit("cb");
    reveal_strlit("bitbucket");
    reveal_strlit("bb");
    if t == "github"@ {

    }
    if t == "gh"@ {

    }
    if t == "github-enterprise"@ {
        assert("github-enterprise"@.len() != "github"@.len());
        assert("github-enterprise"@.len() != "gh"@.len());
    }
    if t == "ghe"@ {
        assert("ghe"@.len() != "github"@.len());
        assert("ghe"@.len() != "gh"@.len());
    }
    if t == "github_enterprise"@ {
        assert("github_enterprise"@.len() != "github"@.len());
        assert("github_enterprise"@.len() != "gh"@.len());
    }
    if t == "gitlab"@ {
        assert("gitlab"@[3] != "github"@[3]);
        assert("gitlab"@ != "github"@);
        assert("gitlab"@.len() != "gh"@.len());
        assert("gitlab"@.len() != "github-enterprise"@.len());
        assert("gitlab"@.len() != "ghe"@.len());
        assert("gitlab"@.len() != "github_enterprise"@.len());
    }
    if t == "gl"@ {
        assert("gl"@.len() != "github"@.len());
        assert("gl"@[1] != "gh"@[1]);
        assert("gl"@ != "gh"@);
        assert("gl"@.len() != "github-enterprise"@.len());
        assert("gl"@.len() != "ghe"@.len());
        assert("gl"@.len() != "github_enterprise"@.len());
    }
    if t == "gitlab-self-managed"@ {
        assert("gitlab-self-managed"@.len() != "github"@.len());
        assert("gitlab-self-managed"@.len() != "gh"@.len());
        assert("gitlab-self-managed"@.len() != "github-enterprise"@.len());
        assert("gitlab-self-managed"@.len() != "ghe"@.len());
        assert("gitlab-self-managed"@.len() != "github_enterprise"@.len());
        assert("gitlab-self-managed"@.len() != "gitlab"@.len());
        assert("gitlab-self-managed"@.len() != "gl"@.len());
    }
    if t == "glsm"@ {
        assert("glsm"@.len() != "github"@.len());
        assert("glsm"@.len() != "gh"@.len());
        assert("glsm"@.len() != "github-enterprise"@.len());
        assert("glsm"@.len() != "ghe"@.len());
        assert("glsm"@.len() != "github_enterprise"@.len());
        assert("glsm"@.len() != "gitlab"@.len());
        assert("glsm"@.len() != "gl"@.len());
    }
    if t == "gitlab_self_managed"@ {
        assert("gitlab_self_managed"@.len() != "github"@.len());
        assert("gitlab_self_managed"@.len() != "gh"@.len());
        assert("gitlab_self_managed"@.len() != "github-enterprise"@.len());
        assert("gitlab_self_managed"@.len() != "ghe"@.len());
        assert("gitlab_self_managed"@.len() != "github_enterprise"@.len());
        assert("gitlab_self_managed"@.len() != "gitlab"@.len());
        assert("gitlab_self_managed"@.len() != "gl"@.len());
    }
    if t == "codeberg"@ {
        assert("codeberg"@.len() != "github"@.len());
        assert("codeberg"@.len() != "gh"@.len());
        assert("codeberg"@.len() != "github-enterprise"@.len());
        assert("codeberg"@.len() != "ghe"@.len());
        assert("codeberg"@.len() != "github_enterprise"@.len());
        assert("codeberg"@.len() != "gitlab"@.len());
        assert("codeberg"@.len() != "gl"@.len());
        assert("codeberg"@.len() != "gitlab-self-managed"@.len());
        assert("codeberg"@.len() != "glsm"@.len());
        assert("codeberg"@.len() != "gitlab_self_managed"@.len());
    }
    if t == "cb"@ {
        assert("cb"@.len() != "github"@.len());
        assert("cb"@[0] != "gh"@[0]);
        assert("cb"@ != "gh"@);
        assert("cb"@.len() != "github-enterprise"@.len());
        assert("cb"@.len() != "ghe"@.len());
        assert("cb"@.len() != "github_enterprise"@.len());
        assert("cb"@.len() != "gitlab"@.len());
        assert("cb"@[0] != "gl"@[0]);
        assert("cb"@ != "gl"@);
        assert("cb"@.len() != "gitlab-self-managed"@.len());
        assert("cb"@.len() != "glsm"@.len());
        assert("cb"@.len() != "gitlab_self_managed"@.len());
    }
    if t == "bitbucket"@ {
        assert("bitbucket"@.len() != "github"@.len());
        assert("bitbucket"@.len() != "gh"@.len());
        assert("bitbucket"@.len() != "github-enterprise"@.len());
        assert("bitbucket"@.len() != "ghe"@.len());
        assert("bitbucket"@.len() != "github_enterprise"@.len());
        assert("bitbucket"@.len() != "gitlab"@.len());
        assert("bitbucket"@.len() != "gl"@.len());
        assert("bitbucket"@.len() != "gitlab-self-managed"@.len());
        assert("bitbucket"@.len() != "glsm"@.len());
        assert("bitbucket"@.len() != "gitlab_self_managed"@.len());
        assert("bitbucket"@.len() != "codeberg"@.len());
        assert("bitbucket"@.len() != "cb"@.len());
    }
    if t == "bb"@ {
        assert("bb"@.len() != "github"@.len());
        assert("bb"@[0] != "gh"@[0]);
        assert("bb"@ != "gh"@);
        assert("bb"@.len() != "github-enterprise"@.len());
        assert("bb"@.len() != "ghe"@.len());
        assert("bb"@.len() != "github_enterprise"@.len());
        assert("bb"@.len() != "gitlab"@.len());
        assert("bb"@[0] != "gl"@[0]);
        assert("bb"@ != "gl"@);
        assert("bb"@.len() != "gitlab-self-managed"@.len());
        assert("bb"@.len() != "glsm"@.len());
        assert("bb"@.len() != "gitlab_self_managed"@.len());
        assert("bb"@.len() != "codeberg"@.len());
        assert("bb"@[0] != "cb"@[0]);
        assert("bb"@ != "cb"@);
    }
}

/// Parsing accepts every documented name in any ASCII case: a name whose
/// lower-case form is a documented name of a provider (such as `GHE` or
/// `GitHub_Enterprise`) parses to that provider.
pub proof fn lemma_parse_accepts_aliases(k: ProviderKind, s: Seq<char>, r: Result<ProviderKind, String>)
    requires
        parse_result(s, r),
        is_ascii_text(s),
        is_documented_alias(spec_ascii_lowercase(s), k),
    ensures
        r matches Ok(p) && p == k,
{
    lemma_aliases_name_their_provider(spec_ascii_lowercase(s), k);
}

} // verus!
