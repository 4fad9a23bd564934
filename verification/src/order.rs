//! Lexicographic order on text and a stable sort by text keys.

use vstd::prelude::*;
use vstd::multiset::Multiset;
use crate::text::chars_of;

verus! {

/// `a` sorts strictly before `b` by code points, as `String`'s `Ord` does.
pub open spec fn text_lt(a: Seq<char>, b: Seq<char>) -> bool
    decreases a.len(),
{
    if a.len() == 0 {
        b.len() > 0
    } else if b.len() == 0 {
        false
    } else if a[0] < b[0] {
        true
    } else if a[0] == b[0] {
        text_lt(a.drop_first(), b.drop_first())
    } else {
        false
    }
}

/// The order on text is a strict order: irreflexive and transitive.
pub proof fn lemma_text_lt_strict(a: Seq<char>, b: Seq<char>, c: Seq<char>)
    ensures
        !text_lt(a, a),
        text_lt(a, b) ==> !text_lt(b, a),
        text_lt(a, b) && text_lt(b, c) ==> text_lt(a, c),
    decreases a.len(),
{
    if a.len() > 0 && b.len() > 0 && c.len() > 0 {
        lemma_text_lt_strict(a.drop_first(), b.drop_first(), c.drop_first());
    }
    if a.len() > 0 && b.len() > 0 {
        lemma_text_lt_strict(a.drop_first(), b.drop_first(), b.drop_first());
    }
    if a.len() > 0 {
        lemma_text_lt_strict(a.drop_first(), a.drop_first(), a.drop_first());
    }
}

/// The order on text is total: of two different texts one comes first.
pub proof fn lemma_text_lt_total(a: Seq<char>, b: Seq<char>)
    ensures
        a != b ==> text_lt(a, b) || text_lt(b, a),
    decreases a.len(),
{
    if a.len() > 0 && b.len() > 0 && a[0] == b[0] {
        lemma_text_lt_total(a.drop_first(), b.drop_first());
        if a.drop_first() == b.drop_first() {
            assert(a =~= seq![a[0]] + a.drop_first());
            assert(b =~= seq![b[0]] + b.drop_first());
        }
    } else if a.len() == 0 && b.len() == 0 {
        assert(a =~= b);
    }
}

/// Whether `a` sorts strictly before `b`.
pub fn str_lt(a: &str, b: &str) -> (r: bool)
    ensures
        r == text_lt(a@, b@),
{
    let av = chars_of(a);
    let bv = chars_of(b);
    let mut i: usize = 0;
    assert(a@.skip(0) =~= a@);
    assert(b@.skip(0) =~= b@);
    while i < av.len() && i < bv.len() && av[i] == bv[i]
        invariant
            av@ == a@,
            bv@ == b@,
            0 <= i <= av@.len(),
            i <= bv@.len(),
            text_lt(a@, b@) == text_lt(a@.skip(i as int), b@.skip(i as int)),
        decreases av@.len() - i,
    {
        assert(a@.skip(i as int).drop_first() =~= a@.skip(i + 1));
        assert(b@.skip(i as int).drop_first() =~= b@.skip(i + 1));
        i = i + 1;
    }
    if i == av.len() {
        assert(a@.skip(i as int).len() == 0);
        i < bv.len()
    } else if i == bv.len() {
        assert(b@.skip(i as int).len() == 0);
        false
    } else {
        assert(a@.skip(i as int)[0] == av@[i as int]);
        assert(b@.skip(i as int)[0] == bv@[i as int]);
        av[i] < bv[i]
    }
}

/// The keys of `v` never decrease.
pub open spec fn keys_sorted<T>(v: Seq<(String, T)>) -> bool {
    forall|i: int, j: int| 0 <= i < j < v.len() ==> !text_lt(#[trigger] v[j].0@, #[trigger] v[i].0@)
}

/// Sorts `v` by its text keys, keeping the order of equal keys.
pub fn sort_by_text_key<T>(v: Vec<(String, T)>) -> (r: Vec<(String, T)>)
    ensures
        r@.to_multiset() == v@.to_multiset(),
        keys_sorted(r@),
{
    broadcast use vstd::seq_lib::group_to_multiset_ensures, vstd::multiset::group_multiset_axioms;
    let ghost orig = v@;
    let mut r: Vec<(String, T)> = Vec::new();
    let mut remaining = v;
    while remaining.len() > 0
        invariant
            r@.to_multiset().add(remaining@.to_multiset()) == orig.to_multiset(),
            keys_sorted(r@),
        decreases remaining@.len(),
    {
        let ghost before_rem = remaining@;
        let x = remaining.remove(0);
        let mut p: usize = r.len();
        while p > 0 && str_lt(x.0.as_str(), r[p - 1].0.as_str())
            invariant
                0 <= p <= r@.len(),
                forall|j: int| p <= j < r@.len() ==> text_lt(x.0@, #[trigger] r@[j].0@),
            decreases p,
        {
            p = p - 1;
        }
        let ghost old_r = r@;
        proof {
            if p > 0 {
                assert(!text_lt(x.0@, old_r[p - 1].0@));
                assert forall|i: int| 0 <= i < p implies !text_lt(x.0@, #[trigger] old_r[i].0@) by {
                    if text_lt(x.0@, old_r[i].0@) && i < p - 1 {
                        assert(!text_lt(old_r[p - 1].0@, old_r[i].0@));
                        lemma_text_lt_total(old_r[i].0@, old_r[p - 1].0@);
                        if old_r[i].0@ != old_r[p - 1].0@ {
                            lemma_text_lt_strict(x.0@, old_r[i].0@, old_r[p - 1].0@);
                        }
                    }
                }
            }
        }
        r.insert(p, x);
        proof {
            assert(before_rem.remove(0) =~= remaining@);
            assert(r@ == old_r.insert(p as int, x));
            assert(before_rem[0] == x);
            vstd::seq_lib::to_multiset_remove(before_rem, 0);
            vstd::seq_lib::to_multiset_insert(old_r, p as int, x);
            assert(remaining@.to_multiset() == before_rem.to_multiset().remove(x));
            assert(r@.to_multiset() == old_r.to_multiset().insert(x));
            assert(before_rem.contains(x));
            vstd::seq_lib::to_multiset_contains(before_rem, x);
            assert(before_rem.to_multiset().count(x) > 0);
            assert(r@.to_multiset().add(remaining@.to_multiset()) =~= orig.to_multiset());
            assert forall|i: int, j: int| 0 <= i < j < r@.len() implies !text_lt(#[trigger] r@[j].0@, #[trigger] r@[i].0@) by {
                if i < p && j == p {
                } else if i < p && j > p {
                    assert(r@[j] == old_r[j - 1]);
                } else if i == p {
                    assert(r@[j] == old_r[j - 1]);
                    lemma_text_lt_strict(x.0@, old_r[j - 1].0@, x.0@);
                } else if i > p {
                    assert(r@[j] == old_r[j - 1]);
                    assert(r@[i] == old_r[i - 1]);
                }
            }
        }
    }
    proof {
        assert(remaining@.to_multiset() =~= Multiset::empty());
        assert(r@.to_multiset() =~= orig.to_multiset());
    }
    r
}


/// Mapping both sides of a permutation by the same function keeps them a
/// permutation.
pub proof fn lemma_map_values_multiset<A, B>(a: Seq<A>, b: Seq<A>, f: spec_fn(A) -> B)
    requires
        a.to_multiset() == b.to_multiset(),
    ensures
        a.map_values(f).to_multiset() == b.map_values(f).to_multiset(),
    decreases a.len(),
{
    broadcast use vstd::seq_lib::group_to_multiset_ensures, vstd::multiset::group_multiset_axioms;
    if a.len() == 0 {
        assert(b.to_multiset().len() == 0);
        assert(b.len() == 0);
        assert(a.map_values(f) =~= b.map_values(f));
    } else {
        let x = a.last();
        let a0 = a.drop_last();
        assert(a =~= a0.push(x));
        assert(a.to_multiset() == a0.to_multiset().insert(x));
        assert(a.contains(x));
        assert(b.to_multiset().count(x) > 0);
        assert(b.contains(x));
        let i = choose|i: int| 0 <= i < b.len() && b[i] == x;
        let b0 = b.remove(i);
        assert(b0.to_multiset() == b.to_multiset().remove(x));
        assert(a0.to_multiset() =~= b0.to_multiset());
        lemma_map_values_multiset(a0, b0, f);
        assert(a.map_values(f) =~= a0.map_values(f).push(f(x)));
        assert(b.map_values(f).remove(i) =~= b0.map_values(f));
        assert(b.map_values(f)[i] == f(x));
        assert(b.map_values(f).remove(i).to_multiset() == b.map_values(f).to_multiset().remove(f(x)));
        assert(b.map_values(f).contains(f(x)));
        assert(b.map_values(f).to_multiset().count(f(x)) > 0);
        assert(a.map_values(f).to_multiset() =~= b.map_values(f).to_multiset());
    }
}

} // verus!
