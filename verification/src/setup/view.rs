//! Text pieces of the wizard's screens: provider descriptions and the
//! cells of the step progress indicator.

use vstd::prelude::*;
use crate::text::chars_of;
use crate::setup::state::{AuthStatus, OrgEntry, SetupState, SetupStep};
use crate::types::ProviderKind;

verus! {

/// A short description of each provider.
pub open spec fn spec_provider_description(k: ProviderKind) -> Seq<char> {
    match k {
        ProviderKind::GitHub => "github.com \u{2014} Public and private repositories"@,
        ProviderKind::GitHubEnterprise => "Self-hosted GitHub instance"@,
        ProviderKind::GitLab => "gitlab.com or self-hosted"@,
        ProviderKind::GitLabSelfManaged => "Self-managed GitLab instance"@,
        ProviderKind::Codeberg => "codeberg.org"@,
        ProviderKind::Bitbucket => "bitbucket.org"@,
    }
}

/// Get a short description for each provider.
pub fn provider_description(kind: ProviderKind) -> (r: &'static str)
    ensures
        r@ == spec_provider_description(kind),
{
    match kind {
        ProviderKind::GitHub => "github.com \u{2014} Public and private repositories",
        ProviderKind::GitHubEnterprise => "Self-hosted GitHub instance",
        ProviderKind::GitLab => "gitlab.com or self-hosted",
        ProviderKind::GitLabSelfManaged => "Self-managed GitLab instance",
        ProviderKind::Codeberg => "codeberg.org",
        ProviderKind::Bitbucket => "bitbucket.org",
    }
}

/// `n` copies of `c`.
pub open spec fn repeat_char(c: char, n: nat) -> Seq<char> {
    Seq::new(n, |_i: int| c)
}

/// `text` cut to `width` characters and centred in `width` columns, the
/// extra space (if odd) going to the right.
pub open spec fn spec_center_cell(text: Seq<char>, width: nat) -> Seq<char> {
    let t = if text.len() > width { text.take(width as int) } else { text };
    let left = ((width - t.len()) / 2) as nat;
    let right = (width - t.len() - left) as nat;
    repeat_char(' ', left) + t + repeat_char(' ', right)
}

fn push_repeat(s: &mut String, c: char, n: usize)
    ensures
        final(s)@ == old(s)@ + repeat_char(c, n as nat),
{
    let mut i: usize = 0;
    while i < n
        invariant
            0 <= i <= n,
            s@ == old(s)@ + repeat_char(c, i as nat),
        decreases n - i,
    {
        s.push(c);
        assert(old(s)@ + repeat_char(c, (i + 1) as nat) =~= (old(s)@ + repeat_char(c, i as nat)).push(c));
        i = i + 1;
    }
}

/// Centre `text` in a cell of `width` columns (cutting it if too long).
pub fn center_cell(text: &str, width: usize) -> (r: String)
    ensures
        r@ == spec_center_cell(text@, width as nat),
        r@.len() == width,
{
    let cs = chars_of(text);
    let tlen: usize = if cs.len() > width { width } else { cs.len() };
    let left = (width - tlen) / 2;
    let right = width - tlen - left;
    let mut r = String::new();
    push_repeat(&mut r, ' ', left);
    let mut i: usize = 0;
    while i < tlen
        invariant
            cs@ == text@,
            0 <= i <= tlen <= cs@.len(),
            r@ == repeat_char(' ', left as nat) + cs@.take(i as int),
        decreases tlen - i,
    {
        r.push(cs[i]);
        assert(repeat_char(' ', left as nat) + cs@.take(i + 1) =~= (repeat_char(' ', left as nat) + cs@.take(i as int)).push(cs@[i as int]));
        i = i + 1;
    }
    push_repeat(&mut r, ' ', right);
    proof {
        let t = if text@.len() > width { text@.take(width as int) } else { text@ };
        assert(cs@.take(tlen as int) =~= t);
    }
    r
}

/// The connector between two step nodes: a solid line once the step is
/// done, a dashed one ("─ ─ ...") before.
pub open spec fn spec_connector_cell(width: nat, completed: bool) -> Seq<char> {
    if completed {
        repeat_char('\u{2501}', width)
    } else {
        Seq::new(width, |i: int| if i % 2 == 0 { '\u{2500}' } else { ' ' })
    }
}

/// Draw the connector between two step nodes.
pub fn connector_cell(width: usize, completed: bool) -> (r: String)
    ensures
        r@ == spec_connector_cell(width as nat, completed),
        r@.len() == width,
{
    let mut out = String::new();
    if completed {
        push_repeat(&mut out, '\u{2501}', width);
        return out;
    }
    let mut i: usize = 0;
    while i < width
        invariant
            0 <= i <= width,
            out@ == Seq::new(i as nat, |j: int| if j % 2 == 0 { '\u{2500}' } else { ' ' }),
        decreases width - i,
    {
        if i % 2 == 0 {
            out.push('\u{2500}');
        } else {
            out.push(' ');
        }
        assert(out@ =~= Seq::new((i + 1) as nat, |j: int| if j % 2 == 0 { '\u{2500}' } else { ' ' }));
        i = i + 1;
    }
    out
}

/// A key hint of the status bar: the key (empty for a plain note) and what
/// it does.
pub type Hint = (&'static str, &'static str);

/// The text of a hint.
pub open spec fn hint_view(h: Hint) -> (Seq<char>, Seq<char>) {
    (h.0@, h.1@)
}

/// The texts of a list of hints.
pub open spec fn hints_view(v: Seq<Hint>) -> Seq<(Seq<char>, Seq<char>)> {
    v.map_values(|h: Hint| hint_view(h))
}

/// The folder navigator is open over the path step.
pub open spec fn path_popup_open(s: SetupState) -> bool {
    s.step == SetupStep::SelectPath && s.path_browse_mode
}

/// The hints in the middle of the status bar: what the current step's main
/// keys do, or what the wizard is busy with.
pub open spec fn spec_status_top(s: SetupState) -> Seq<(Seq<char>, Seq<char>)> {
    match s.step {
        SetupStep::Requirements => seq![(""@, "Press "@), ("[Enter]"@, " to get started"@)],
        SetupStep::SelectProvider => seq![("[\u{2191}] [\u{2193}]"@, " Select provider"@)],
        SetupStep::Authenticate => match s.auth_status {
            AuthStatus::Checking => seq![(""@, "Authenticating..."@)],
            AuthStatus::Success => seq![("[Enter]"@, " Continue"@)],
            _ => seq![("[Enter]"@, " Authenticate"@)],
        },
        SetupStep::SelectPath => if s.path_browse_mode {
            seq![(""@, "Folder popup active"@)]
        } else {
            seq![("[b]"@, " Open Folder Navigator"@)]
        },
        SetupStep::SelectOrgs => if s.org_loading {
            seq![(""@, "Discovering organizations..."@)]
        } else {
            seq![("[Space]"@, " Toggle  "@), ("[a]"@, " All  "@), ("[n]"@, " None"@)]
        },
        SetupStep::Confirm => seq![("[Enter]"@, " Save workspace"@)],
        SetupStep::Complete => seq![("[Enter]"@, " Dashboard  "@), ("[s]"@, " Sync Now"@)],
    }
}

/// The hints at the bottom left: closing the navigator, or quitting and
/// going back.
pub open spec fn spec_status_left(s: SetupState) -> Seq<(Seq<char>, Seq<char>)> {
    if path_popup_open(s) {
        seq![("[Esc]"@, " Close Popup"@)]
    } else {
        seq![("[q]"@, " Quit  "@), ("[Esc]"@, " Back"@)]
    }
}

/// The hints at the bottom right: how to move within and between steps.
pub open spec fn spec_status_right(s: SetupState) -> Seq<(Seq<char>, Seq<char>)> {
    match s.step {
        SetupStep::SelectProvider | SetupStep::SelectOrgs => seq![
            ("[\u{2191}] [\u{2193}]"@, " Move  "@),
            ("[\u{2190}] [\u{2192}]"@, " Step  "@),
            ("[Enter]"@, " Next Step"@),
        ],
        SetupStep::SelectPath => if s.path_browse_mode {
            seq![(""@, "Use popup arrows and Enter"@)]
        } else {
            seq![("[\u{2190}]"@, " Back Step  "@), ("[Enter]"@, " Next Step  "@), ("[b]"@, " Browse folders"@)]
        },
        _ => seq![("[\u{2190}] [\u{2192}]"@, " Step  "@), ("[Enter]"@, " Next Step"@)],
    }
}

fn one(a: Hint) -> (r: Vec<Hint>)
    ensures
        hints_view(r@) == seq![hint_view(a)],
{
    let r = vec![a];
    assert(hints_view(r@) =~= seq![hint_view(a)]);
    r
}

fn two(a: Hint, b: Hint) -> (r: Vec<Hint>)
    ensures
        hints_view(r@) == seq![hint_view(a), hint_view(b)],
{
    let r = vec![a, b];
    assert(hints_view(r@) =~= seq![hint_view(a), hint_view(b)]);
    r
}

fn three(a: Hint, b: Hint, c: Hint) -> (r: Vec<Hint>)
    ensures
        hints_view(r@) == seq![hint_view(a), hint_view(b), hint_view(c)],
{
    let r = vec![a, b, c];
    assert(hints_view(r@) =~= seq![hint_view(a), hint_view(b), hint_view(c)]);
    r
}

/// The hints in the middle of the wizard's status bar.
pub fn status_top(state: &SetupState) -> (r: Vec<Hint>)
    ensures
        hints_view(r@) == spec_status_top(*state),
{
    match state.step {
        SetupStep::Requirements => two(("", "Press "), ("[Enter]", " to get started")),
        SetupStep::SelectProvider => one(("[\u{2191}] [\u{2193}]", " Select provider")),
        SetupStep::Authenticate => match state.auth_status {
            AuthStatus::Checking => one(("", "Authenticating...")),
            AuthStatus::Success => one(("[Enter]", " Continue")),
            _ => one(("[Enter]", " Authenticate")),
        },
        SetupStep::SelectPath => if state.path_browse_mode {
            one(("", "Folder popup active"))
        } else {
            one(("[b]", " Open Folder Navigator"))
        },
        SetupStep::SelectOrgs => if state.org_loading {
            one(("", "Discovering organizations..."))
        } else {
            three(("[Space]", " Toggle  "), ("[a]", " All  "), ("[n]", " None"))
        },
        SetupStep::Confirm => one(("[Enter]", " Save workspace")),
        SetupStep::Complete => two(("[Enter]", " Dashboard  "), ("[s]", " Sync Now")),
    }
}

/// The hints at the bottom left of the wizard's status bar.
pub fn status_left(state: &SetupState) -> (r: Vec<Hint>)
    ensures
        hints_view(r@) == spec_status_left(*state),
{
    if state.step == SetupStep::SelectPath && state.path_browse_mode {
        one(("[Esc]", " Close Popup"))
    } else {
        two(("[q]", " Quit  "), ("[Esc]", " Back"))
    }
}

/// The hints at the bottom right of the wizard's status bar.
pub fn status_right(state: &SetupState) -> (r: Vec<Hint>)
    ensures
        hints_view(r@) == spec_status_right(*state),
{
    match state.step {
        SetupStep::SelectProvider | SetupStep::SelectOrgs => three(
            ("[\u{2191}] [\u{2193}]", " Move  "),
            ("[\u{2190}] [\u{2192}]", " Step  "),
            ("[Enter]", " Next Step"),
        ),
        SetupStep::SelectPath => if state.path_browse_mode {
            one(("", "Use popup arrows and Enter"))
        } else {
            three(("[\u{2190}]", " Back Step  "), ("[Enter]", " Next Step  "), ("[b]", " Browse folders"))
        },
        _ => two(("[\u{2190}] [\u{2192}]", " Step  "), ("[Enter]", " Next Step")),
    }
}

/// How many of the organizations are selected.
pub open spec fn spec_selected_count(s: Seq<OrgEntry>) -> nat
    decreases s.len(),
{
    if s.len() == 0 {
        0
    } else {
        spec_selected_count(s.drop_last()) + if s.last().selected { 1nat } else { 0nat }
    }
}

/// How many repositories the selected organizations hold together.
pub open spec fn spec_selected_repos(s: Seq<OrgEntry>) -> nat
    decreases s.len(),
{
    if s.len() == 0 {
        0
    } else {
        spec_selected_repos(s.drop_last()) + if s.last().selected { s.last().repo_count as nat } else { 0nat }
    }
}

/// How many repositories all the organizations hold together.
pub open spec fn spec_total_repos(s: Seq<OrgEntry>) -> nat
    decreases s.len(),
{
    if s.len() == 0 {
        0
    } else {
        spec_total_repos(s.drop_last()) + s.last().repo_count as nat
    }
}

/// The largest repository count of the organizations (0 for none).
pub open spec fn spec_max_repos(s: Seq<OrgEntry>) -> nat
    decreases s.len(),
{
    if s.len() == 0 {
        0
    } else {
        let m = spec_max_repos(s.drop_last());
        if s.last().repo_count as nat > m { s.last().repo_count as nat } else { m }
    }
}

/// The figures of the organization list: selected organizations, their
/// repositories, all repositories, and the largest repository count.
pub struct OrgSummary {
    pub selected: u128,
    pub selected_repos: u128,
    pub total_repos: u128,
    pub max_repos: usize,
}

/// Counts the figures of the organization list.
pub fn org_summary(orgs: &Vec<OrgEntry>) -> (r: OrgSummary)
    ensures
        r.selected == spec_selected_count(orgs@),
        r.selected_repos == spec_selected_repos(orgs@),
        r.total_repos == spec_total_repos(orgs@),
        r.max_repos == spec_max_repos(orgs@),
        r.selected_repos <= r.total_repos,
        forall|i: int| 0 <= i < orgs@.len() ==> (#[trigger] orgs@[i]).repo_count <= r.total_repos,
{
    proof {
        lemma_total_covers_each(orgs@);
        lemma_selected_within_total(orgs@);
    }
    let mut r = OrgSummary { selected: 0, selected_repos: 0, total_repos: 0, max_repos: 0 };
    let mut i: usize = 0;
    while i < orgs.len()
        invariant
            0 <= i <= orgs@.len(),
            r.selected == spec_selected_count(orgs@.take(i as int)),
            r.selected_repos == spec_selected_repos(orgs@.take(i as int)),
            r.total_repos == spec_total_repos(orgs@.take(i as int)),
            r.max_repos == spec_max_repos(orgs@.take(i as int)),
            r.selected <= i,
            r.selected_repos <= r.total_repos,
            r.total_repos <= i * usize::MAX,
        decreases orgs@.len() - i,
    {
        proof {
            assert(orgs@.take(i + 1).drop_last() =~= orgs@.take(i as int));
            assert(orgs@.take(i + 1).last() == orgs@[i as int]);
        }
        let o = &orgs[i];
        assert((i + 1) * usize::MAX == i * usize::MAX + usize::MAX) by (nonlinear_arith);
        assert(i * usize::MAX <= usize::MAX * usize::MAX) by (nonlinear_arith)
            requires
                i <= usize::MAX;
        if o.selected {
            r.selected = r.selected + 1;
            r.selected_repos = r.selected_repos + o.repo_count as u128;
        }
        r.total_repos = r.total_repos + o.repo_count as u128;
        if o.repo_count > r.max_repos {
            r.max_repos = o.repo_count;
        }
        i = i + 1;
    }
    assert(orgs@.take(orgs@.len() as int) =~= orgs@);
    r
}

/// The number of cells of a 16-cell bar filled for an organization with
/// `count` repositories when the largest has `max`: in proportion, rounded
/// down, but at least one cell for an organization with repositories.
pub open spec fn spec_bar_fill(count: nat, max: nat) -> nat {
    let prop: nat = if max > 0 { (count * 16 / max) as nat } else { 0 };
    if count > 0 && prop < 1 { 1 } else { prop }
}

/// The filled cells of an organization's bar.
pub fn bar_fill(count: usize, max: usize) -> (r: u128)
    ensures
        r == spec_bar_fill(count as nat, max as nat),
{
    let prop: u128 = if max > 0 { (count as u128 * 16) / max as u128 } else { 0 };
    if count > 0 && prop < 1 { 1 } else { prop }
}

/// The repository total counts every organization, selected or not: it
/// depends only on the repository counts, so toggling selections never
/// changes it.
pub proof fn lemma_total_ignores_selection(a: Seq<OrgEntry>, b: Seq<OrgEntry>)
    requires
        a.len() == b.len(),
        forall|i: int| 0 <= i < a.len() ==> (#[trigger] a[i]).repo_count == b[i].repo_count,
    ensures
        spec_total_repos(a) == spec_total_repos(b),
    decreases a.len(),
{
    if a.len() > 0 {
        let a2 = a.drop_last();
        let b2 = b.drop_last();
        assert forall|i: int| 0 <= i < a2.len() implies (#[trigger] a2[i]).repo_count == b2[i].repo_count by {
            assert(a2[i] == a[i] && b2[i] == b[i]);
        }
        lemma_total_ignores_selection(a2, b2);
        assert(a.last() == a[a.len() - 1] && b.last() == b[b.len() - 1]);
    }
}

/// Every organization's repositories are part of the total.
pub proof fn lemma_total_covers_each(s: Seq<OrgEntry>)
    ensures
        forall|i: int| 0 <= i < s.len() ==> (#[trigger] s[i]).repo_count <= spec_total_repos(s),
    decreases s.len(),
{
    if s.len() > 0 {
        let s2 = s.drop_last();
        lemma_total_covers_each(s2);
        assert forall|i: int| 0 <= i < s.len() implies (#[trigger] s[i]).repo_count <= spec_total_repos(s) by {
            if i < s.len() - 1 {
                assert(s[i] == s2[i]);
            }
        }
    }
}

/// The selected organizations' repositories are part of the total, and
/// make all of it when every organization is selected.
pub proof fn lemma_selected_within_total(s: Seq<OrgEntry>)
    ensures
        spec_selected_repos(s) <= spec_total_repos(s),
        (forall|i: int| 0 <= i < s.len() ==> (#[trigger] s[i]).selected)
            ==> spec_selected_repos(s) == spec_total_repos(s),
        (forall|i: int| 0 <= i < s.len() ==> !(#[trigger] s[i]).selected)
            ==> spec_selected_repos(s) == 0 && spec_selected_count(s) == 0,
    decreases s.len(),
{
    if s.len() > 0 {
        let s2 = s.drop_last();
        lemma_selected_within_total(s2);
        if forall|i: int| 0 <= i < s.len() ==> (#[trigger] s[i]).selected {
            assert forall|i: int| 0 <= i < s2.len() implies (#[trigger] s2[i]).selected by {
                assert(s2[i] == s[i]);
            }
            assert(s.last() == s[s.len() - 1]);
        }
        if forall|i: int| 0 <= i < s.len() ==> !(#[trigger] s[i]).selected {
            assert forall|i: int| 0 <= i < s2.len() implies !(#[trigger] s2[i]).selected by {
                assert(s2[i] == s[i]);
            }
            assert(s.last() == s[s.len() - 1]);
        }
    }
}

} // verus!
