//! Grouping discovered repositories by owner, with the owners sorted.

use vstd::prelude::*;
use crate::order::{lemma_text_lt_strict, lemma_text_lt_total, str_lt, text_lt};
use crate::text::str_eq;
use crate::types::OwnedRepo;

verus! {

/// The texts of `v` are in strictly increasing order (so none repeats).
pub open spec fn strictly_sorted(v: Seq<String>) -> bool {
    forall|i: int, j: int| 0 <= i < j < v.len() ==> text_lt(#[trigger] v[i]@, #[trigger] v[j]@)
}

/// `v` holds the text `t`.
pub open spec fn holds_text(v: Seq<String>, t: Seq<char>) -> bool {
    exists|i: int| 0 <= i < v.len() && #[trigger] v[i]@ == t
}

/// One of the first `n` repositories of `repos` is owned by `t`.
pub open spec fn owner_among(repos: Seq<OwnedRepo>, n: int, t: Seq<char>) -> bool {
    exists|k: int| 0 <= k < n && #[trigger] repos[k].owner@ == t
}

/// `orgs` lists each owner of `repos` once, in sorted order.
pub open spec fn is_owner_index(orgs: Seq<String>, repos: Seq<OwnedRepo>) -> bool {
    &&& strictly_sorted(orgs)
    &&& forall|k: int| 0 <= k < repos.len() ==> holds_text(orgs, #[trigger] repos[k].owner@)
    &&& forall|i: int| 0 <= i < orgs.len() ==> owner_among(repos, repos.len() as int, #[trigger] orgs[i]@)
}

/// `n` is the number of distinct owners of `repos`.
pub open spec fn is_owner_count_of(repos: Seq<OwnedRepo>, n: nat) -> bool {
    exists|orgs: Seq<String>| #[trigger] is_owner_index(orgs, repos) && orgs.len() == n
}

/// Repositories owned by `name`.
pub open spec fn owned_by(name: Seq<char>) -> spec_fn(OwnedRepo) -> bool {
    |r: OwnedRepo| r.owner@ == name
}

/// `groups` pairs each owner of `orgs` with its repositories, in the order
/// of `repos`.
pub open spec fn is_grouping(groups: Seq<(String, Vec<OwnedRepo>)>, orgs: Seq<String>, repos: Seq<OwnedRepo>) -> bool {
    &&& groups.len() == orgs.len()
    &&& forall|i: int| 0 <= i < orgs.len() ==> {
        &&& (#[trigger] groups[i]).0@ == orgs[i]@
        &&& groups[i].1@ == repos.filter(owned_by(orgs[i]@))
    }
}

/// Adds `s` to the strictly sorted list `v` unless it is there already.
pub fn insert_sorted_unique(v: &mut Vec<String>, s: &String)
    requires
        strictly_sorted(old(v)@),
    ensures
        strictly_sorted(final(v)@),
        holds_text(final(v)@, s@),
        forall|t: Seq<char>| holds_text(old(v)@, t) ==> holds_text(final(v)@, t),
        forall|t: Seq<char>| holds_text(final(v)@, t) ==> t == s@ || holds_text(old(v)@, t),
{
    let ghost before = v@;
    let mut p: usize = 0;
    while p < v.len() && str_lt(v[p].as_str(), s.as_str())
        invariant
            v@ == before,
            0 <= p <= v@.len(),
            forall|j: int| 0 <= j < p ==> text_lt(#[trigger] v@[j]@, s@),
        decreases v@.len() - p,
    {
        p = p + 1;
    }
    if p < v.len() && str_eq(v[p].as_str(), s.as_str()) {
        assert(v@[p as int]@ == s@);
        return;
    }
    proof {
        if p < before.len() {
            lemma_text_lt_total(before[p as int]@, s@);
        }
    }
    v.insert(p, s.clone());
    proof {
        assert(v@ == before.insert(p as int, *s));
        assert(v@[p as int]@ == s@);
        assert forall|i: int, j: int| 0 <= i < j < v@.len() implies text_lt(#[trigger] v@[i]@, #[trigger] v@[j]@) by {
            if j < p {
            } else if j == p {
                assert(text_lt(before[i]@, s@));
            } else if i < p {
                assert(v@[j] == before[j - 1]);
                assert(text_lt(before[i]@, s@));
                if j - 1 > p {
                    assert(text_lt(before[p as int]@, before[j - 1]@));
                    lemma_text_lt_strict(s@, before[p as int]@, before[j - 1]@);
                }
                lemma_text_lt_strict(before[i]@, s@, before[j - 1]@);
            } else if i == p {
                assert(v@[j] == before[j - 1]);
                if j - 1 > p {
                    assert(text_lt(before[p as int]@, before[j - 1]@));
                    lemma_text_lt_strict(s@, before[p as int]@, before[j - 1]@);
                }
            } else {
                assert(v@[j] == before[j - 1]);
                assert(v@[i] == before[i - 1]);
            }
        }
        assert forall|t: Seq<char>| holds_text(before, t) implies holds_text(v@, t) by {
            let i = choose|i: int| 0 <= i < before.len() && #[trigger] before[i]@ == t;
            if i < p {
                assert(v@[i]@ == t);
            } else {
                assert(v@[i + 1]@ == t);
            }
        }
        assert forall|t: Seq<char>| holds_text(v@, t) implies t == s@ || holds_text(before, t) by {
            let i = choose|i: int| 0 <= i < v@.len() && #[trigger] v@[i]@ == t;
            if i < p {
                assert(before[i]@ == t);
            } else if i > p {
                assert(before[i - 1]@ == t);
            }
        }
    }
}

/// The owners of `repos`, each once, sorted.
pub fn sorted_owners(repos: &Vec<OwnedRepo>) -> (orgs: Vec<String>)
    ensures
        is_owner_index(orgs@, repos@),
{
    let mut orgs: Vec<String> = Vec::new();
    let mut k: usize = 0;
    while k < repos.len()
        invariant
            0 <= k <= repos@.len(),
            strictly_sorted(orgs@),
            forall|m: int| 0 <= m < k ==> holds_text(orgs@, #[trigger] repos@[m].owner@),
            forall|i: int| 0 <= i < orgs@.len() ==> owner_among(repos@, k as int, #[trigger] orgs@[i]@),
        decreases repos@.len() - k,
    {
        let ghost before = orgs@;
        insert_sorted_unique(&mut orgs, &repos[k].owner);
        proof {
            assert forall|m: int| 0 <= m < k + 1 implies holds_text(orgs@, #[trigger] repos@[m].owner@) by {
                if m < k {
                    assert(holds_text(before, repos@[m].owner@));
                }
            }
            assert forall|i: int| 0 <= i < orgs@.len() implies owner_among(repos@, k + 1, #[trigger] orgs@[i]@) by {
                assert(holds_text(orgs@, orgs@[i]@));
                if orgs@[i]@ == repos@[k as int].owner@ {
                    assert(repos@[k as int].owner@ == orgs@[i]@);
                } else {
                    assert(holds_text(before, orgs@[i]@));
                    let j = choose|j: int| 0 <= j < before.len() && #[trigger] before[j]@ == orgs@[i]@;
                    assert(owner_among(repos@, k as int, before[j]@));
                    let m = choose|m: int| 0 <= m < k && #[trigger] repos@[m].owner@ == before[j]@;
                    assert(repos@[m].owner@ == orgs@[i]@);
                }
            }
        }
        k = k + 1;
    }
    orgs
}

/// Copies of the repositories of `repos` owned by `name`, in order.
pub fn repos_owned_by(repos: &Vec<OwnedRepo>, name: &String) -> (r: Vec<OwnedRepo>)
    ensures
        r@ == repos@.filter(owned_by(name@)),
{
    let mut r: Vec<OwnedRepo> = Vec::new();
    let mut k: usize = 0;
    while k < repos.len()
        invariant
            0 <= k <= repos@.len(),
            r@ == repos@.take(k as int).filter(owned_by(name@)),
        decreases repos@.len() - k,
    {
        proof {
            reveal(Seq::filter);
            assert(repos@.take(k + 1).drop_last() =~= repos@.take(k as int));
            assert(repos@.take(k + 1).last() == repos@[k as int]);
        }
        if str_eq(repos[k].owner.as_str(), name.as_str()) {
            r.push(repos[k].copy());
        }
        k = k + 1;
    }
    assert(repos@.take(repos@.len() as int) =~= repos@);
    r
}

/// The owners of `repos` (sorted, each once) and each owner's repositories.
pub fn group_by_owner(repos: &Vec<OwnedRepo>) -> (r: (Vec<String>, Vec<(String, Vec<OwnedRepo>)>))
    ensures
        is_owner_index(r.0@, repos@),
        is_grouping(r.1@, r.0@, repos@),
{
    let orgs = sorted_owners(repos);
    let mut groups: Vec<(String, Vec<OwnedRepo>)> = Vec::new();
    let mut i: usize = 0;
    while i < orgs.len()
        invariant
            0 <= i <= orgs@.len(),
            groups@.len() == i,
            forall|j: int| 0 <= j < i ==> {
                &&& (#[trigger] groups@[j]).0@ == orgs@[j]@
                &&& groups@[j].1@ == repos@.filter(owned_by(orgs@[j]@))
            },
        decreases orgs@.len() - i,
    {
        let members = repos_owned_by(repos, &orgs[i]);
        groups.push((orgs[i].clone(), members));
        i = i + 1;
    }
    (orgs, groups)
}

} // verus!
