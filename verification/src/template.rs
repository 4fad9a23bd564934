//! The folder layout of repositories under a workspace: a template such as
//! `{org}/{repo}` whose placeholders `{provider}`, `{org}` and `{repo}` are
//! filled in from a repository's full name.

use vstd::prelude::*;
use crate::text::{chars_of, concat_str, string_from_chars};

verus! {

/// The placeholder for the provider's name.
pub open spec fn provider_mark() -> Seq<char> {
    seq!['{', 'p', 'r', 'o', 'v', 'i', 'd', 'e', 'r', '}']
}

/// The placeholder for the organization (owner).
pub open spec fn org_mark() -> Seq<char> {
    seq!['{', 'o', 'r', 'g', '}']
}

/// The placeholder for the repository's name.
pub open spec fn repo_mark() -> Seq<char> {
    seq!['{', 'r', 'e', 'p', 'o', '}']
}

/// The template `t` with each placeholder, read from left to right,
/// replaced by its value; every other character is kept.
pub open spec fn spec_render(t: Seq<char>, provider: Seq<char>, org: Seq<char>, repo: Seq<char>) -> Seq<char>
    decreases t.len(),
{
    if t.len() == 0 {
        Seq::empty()
    } else if provider_mark().is_prefix_of(t) {
        provider + spec_render(t.skip(10), provider, org, repo)
    } else if org_mark().is_prefix_of(t) {
        org + spec_render(t.skip(5), provider, org, repo)
    } else if repo_mark().is_prefix_of(t) {
        repo + spec_render(t.skip(6), provider, org, repo)
    } else {
        seq![t[0]] + spec_render(t.skip(1), provider, org, repo)
    }
}

/// Whether `pat` occurs in `cs` at position `i`.
fn occurs_at(cs: &Vec<char>, i: usize, pat: &Vec<char>) -> (r: bool)
    requires
        i <= cs@.len(),
    ensures
        r == pat@.is_prefix_of(cs@.skip(i as int)),
{
    let n = cs.len();
    if pat.len() > n - i {
        return false;
    }
    let mut k: usize = 0;
    while k < pat.len()
        invariant
            n == cs@.len(),
            i + pat@.len() <= cs@.len(),
            0 <= k <= pat@.len(),
            forall|j: int| 0 <= j < k ==> pat@[j] == cs@[i + j],
        decreases pat@.len() - k,
    {
        if pat[k] != cs[i + k] {
            assert(pat@[k as int] != cs@.skip(i as int)[k as int]);
            return false;
        }
        k = k + 1;
    }
    assert(pat@ =~= cs@.skip(i as int).take(pat@.len() as int));
    true
}

/// Fills in the template `template` for a repository of organization `org`
/// named `repo`, at provider `provider`.
pub fn render_template(template: &str, provider: &str, org: &str, repo: &str) -> (r: String)
    ensures
        r@ == spec_render(template@, provider@, org@, repo@),
{
    let cs = chars_of(template);
    let pv = chars_of(provider);
    let ov = chars_of(org);
    let rv = chars_of(repo);
    let pm: Vec<char> = vec!['{', 'p', 'r', 'o', 'v', 'i', 'd', 'e', 'r', '}'];
    let om: Vec<char> = vec!['{', 'o', 'r', 'g', '}'];
    let rm: Vec<char> = vec!['{', 'r', 'e', 'p', 'o', '}'];
    proof {
        assert(pm@ =~= provider_mark());
        assert(om@ =~= org_mark());
        assert(rm@ =~= repo_mark());
    }
    let ghost t = template@;
    let mut out: Vec<char> = Vec::new();
    let mut i: usize = 0;
    assert(t.skip(0) =~= t);
    while i < cs.len()
        invariant
            cs@ == t,
            pv@ == provider@,
            ov@ == org@,
            rv@ == repo@,
            pm@ == provider_mark(),
            om@ == org_mark(),
            rm@ == repo_mark(),
            0 <= i <= t.len(),
            out@ + spec_render(t.skip(i as int), provider@, org@, repo@) == spec_render(t, provider@, org@, repo@),
        decreases t.len() - i,
    {
        let ghost rest = t.skip(i as int);
        if occurs_at(&cs, i, &pm) {
            proof {
                assert(rest.skip(10) =~= t.skip(i + 10));
            }
            out.extend_from_slice(pv.as_slice());
            i = i + 10;
        } else if occurs_at(&cs, i, &om) {
            proof {
                assert(rest.skip(5) =~= t.skip(i + 5));
            }
            out.extend_from_slice(ov.as_slice());
            i = i + 5;
        } else if occurs_at(&cs, i, &rm) {
            proof {
                assert(rest.skip(6) =~= t.skip(i + 6));
            }
            out.extend_from_slice(rv.as_slice());
            i = i + 6;
        } else {
            proof {
                assert(rest.skip(1) =~= t.skip(i + 1));
                assert(rest[0] == t[i as int]);
            }
            out.push(cs[i]);
            i = i + 1;
        }
        proof {
            assert(out@ + spec_render(t.skip(i as int), provider@, org@, repo@)
                =~= spec_render(t, provider@, org@, repo@));
        }
    }
    proof {
        assert(t.skip(i as int) =~= Seq::<char>::empty());
        assert(out@ =~= spec_render(t, provider@, org@, repo@));
    }
    string_from_chars(out.as_slice())
}

/// `i` is the position of the first `/` in `n`.
pub open spec fn is_first_slash(n: Seq<char>, i: int) -> bool {
    &&& 0 <= i < n.len()
    &&& n[i] == '/'
    &&& forall|j: int| 0 <= j < i ==> n[j] != '/'
}

/// A full name `org/repo` split at its first `/`; `None` without one.
pub open spec fn spec_split_full_name(n: Seq<char>) -> Option<(Seq<char>, Seq<char>)> {
    if exists|i: int| is_first_slash(n, i) {
        let i = choose|i: int| is_first_slash(n, i);
        Some((n.take(i), n.skip(i + 1)))
    } else {
        None
    }
}

/// Splits a full name `org/repo` at its first `/`.
pub fn split_full_name(name: &str) -> (r: Option<(String, String)>)
    ensures
        match r {
            Some((o, p)) => spec_split_full_name(name@) == Some((o@, p@)),
            None => spec_split_full_name(name@) is None,
        },
{
    let cs = chars_of(name);
    let mut i: usize = 0;
    while i < cs.len()
        invariant
            cs@ == name@,
            0 <= i <= cs@.len(),
            forall|j: int| 0 <= j < i ==> cs@[j] != '/',
        decreases cs@.len() - i,
    {
        if cs[i] == '/' {
            proof {
                assert(is_first_slash(name@, i as int));
                let k = choose|k: int| is_first_slash(name@, k);
                assert(k == i as int) by {
                    if k < i {
                        assert(cs@[k] != '/');
                    } else if k > i {
                        assert(name@[i as int] != '/');
                    }
                }
            }
            let org = string_from_chars(&cs.as_slice()[0..i]);
            let repo = string_from_chars(&cs.as_slice()[i + 1..cs.len()]);
            proof {
                assert(org@ =~= name@.take(i as int));
                assert(repo@ =~= name@.skip(i + 1));
            }
            return Some((org, repo));
        }
        i = i + 1;
    }
    proof {
        assert forall|k: int| !is_first_slash(name@, k) by {
            if 0 <= k < name@.len() {
                assert(cs@[k] != '/');
            }
        }
    }
    None
}

/// Where a repository with full name `name` lives: under `base`, at the
/// template filled in from the name's owner and repository; `None` when the
/// name has no `/`.
pub open spec fn spec_template_path(base: Seq<char>, template: Seq<char>, provider: Seq<char>, name: Seq<char>) -> Option<Seq<char>> {
    match spec_split_full_name(name) {
        Some((org, repo)) => Some(base + seq!['/'] + spec_render(template, provider, org, repo)),
        None => None,
    }
}

/// The folder of the repository with full name `name` under `base`.
pub fn template_path(base: &str, template: &str, provider: &str, name: &str) -> (r: Option<String>)
    ensures
        match r {
            Some(p) => spec_template_path(base@, template@, provider@, name@) == Some(p@),
            None => spec_template_path(base@, template@, provider@, name@) is None,
        },
{
    match split_full_name(name) {
        Some((org, repo)) => {
            let rel = render_template(template, provider, org.as_str(), repo.as_str());
            let head = concat_str(base, "/");
            let p = concat_str(head.as_str(), rel.as_str());
            proof {
                reveal_strlit("/");
                assert(p@ =~= base@ + seq!['/'] + rel@);
            }
            Some(p)
        },
        None => None,
    }
}

} // verus!
