//! The path step's text logic: tab completion over directory names and
//! the entries of the folder navigator.

use vstd::prelude::*;
use crate::order::{keys_sorted, lemma_map_values_multiset, sort_by_text_key, text_lt};
use crate::setup::state::PathBrowseEntry;
use crate::text::{chars_of, concat_str, owned, prefix_string, spec_to_lowercase, to_lowercase};

verus! {

/// `p` is a prefix of every string in `ss`.
pub open spec fn is_common_prefix(p: Seq<char>, ss: Seq<Seq<char>>) -> bool {
    forall|i: int| 0 <= i < ss.len() ==> p.len() <= (#[trigger] ss[i]).len() && ss[i].take(p.len() as int) == p
}

/// `p` is the longest common prefix of `ss` (empty when `ss` is empty).
pub open spec fn is_longest_common_prefix(p: Seq<char>, ss: Seq<Seq<char>>) -> bool {
    &&& is_common_prefix(p, ss)
    &&& ss.len() == 0 ==> p.len() == 0
    &&& ss.len() > 0 ==> exists|i: int| 0 <= i < ss.len() && (p.len() == (#[trigger] ss[i]).len() || ss[i][p.len() as int] != ss[0][p.len() as int])
}

/// The longest common prefix of `strings`, character by character.
pub fn longest_common_prefix(strings: &Vec<String>) -> (r: String)
    ensures
        is_longest_common_prefix(r@, strings@.map_values(|s: String| s@)),
{
    let ghost ss = strings@.map_values(|s: String| s@);
    if strings.len() == 0 {
        return String::new();
    }
    let first = chars_of(strings[0].as_str());
    let mut len: usize = first.len();
    let mut k: usize = 1;
    while k < strings.len()
        invariant
            ss == strings@.map_values(|s: String| s@),
            first@ == ss[0],
            1 <= k <= strings@.len(),
            len <= first@.len(),
            forall|i: int| 0 <= i < k ==> len <= (#[trigger] ss[i]).len() && ss[i].take(len as int) == first@.take(len as int),
            len == first@.len() || exists|i: int| 0 <= i < k && (len == (#[trigger] ss[i]).len() || ss[i][len as int] != first@[len as int]),
        decreases strings@.len() - k,
    {
        let cur = chars_of(strings[k].as_str());
        assert(cur@ == ss[k as int]);
        let ghost old_len = len;
        if cur.len() < len {
            len = cur.len();
        }
        let mut j: usize = 0;
        while j < len && first[j] == cur[j]
            invariant
                0 <= j <= len,
                len <= first@.len(),
                len <= cur@.len(),
                forall|t: int| 0 <= t < j ==> first@[t] == cur@[t],
            decreases len - j,
        {
            j = j + 1;
        }
        let ghost mid_len = len;
        len = j;
        proof {
            assert(cur@.take(len as int) =~= first@.take(len as int));
            assert forall|i: int| 0 <= i < k + 1 implies len <= (#[trigger] ss[i]).len() && ss[i].take(len as int) == first@.take(len as int) by {
                if i < k {
                    assert(ss[i].take(len as int) =~= ss[i].take(old_len as int).take(len as int));
                    assert(first@.take(len as int) =~= first@.take(old_len as int).take(len as int));
                }
            }
            if len < mid_len {
                assert(cur@[len as int] != first@[len as int]);
                assert(ss[k as int][len as int] != first@[len as int]);
            } else if mid_len < old_len {
                assert(len == ss[k as int].len());
            } else if old_len < first@.len() {
                let w = choose|i: int| 0 <= i < k && (old_len == (#[trigger] ss[i]).len() || ss[i][old_len as int] != first@[old_len as int]);
                assert(0 <= w < k + 1 && (len == ss[w].len() || ss[w][len as int] != first@[len as int]));
            }
        }
        k = k + 1;
    }
    prefix_string(&first, len)
}


/// A sub-directory found while listing a folder: its name and its path as
/// shown to the user.
#[derive(Debug, Clone)]
pub struct DirChild {
    pub name: String,
    pub path: String,
}

/// Whether a directory name is hidden (starts with a dot).
pub open spec fn is_hidden_name(name: Seq<char>) -> bool {
    name.len() > 0 && name[0] == '.'
}

/// The label shown for the parent entry of a listing.
pub open spec fn parent_label() -> Seq<char> {
    ".. (parent)"@
}

/// The (label, path) pairs of the listed children: each shown child as
/// "name/" with its path, hidden ones left out unless `show_hidden`.
pub open spec fn child_views(children: Seq<DirChild>, show_hidden: bool) -> Seq<(Seq<char>, Seq<char>)>
    decreases children.len(),
{
    if children.len() == 0 {
        Seq::empty()
    } else {
        let c = children.last();
        let rest = child_views(children.drop_last(), show_hidden);
        if !show_hidden && is_hidden_name(c.name@) {
            rest
        } else {
            rest.push((c.name@ + "/"@, c.path@))
        }
    }
}

/// The (label, path) view of a navigator entry.
pub open spec fn entry_view(e: PathBrowseEntry) -> (Seq<char>, Seq<char>) {
    (e.label@, e.path@)
}

/// The entries of a folder listing: the parent entry (when there is a
/// parent) at depth 0, then the shown children at depth 1, as a
/// permutation of `child_views` sorted by lower-cased label.
pub open spec fn is_browse_listing(
    r: Seq<PathBrowseEntry>,
    parent: Option<Seq<char>>,
    children: Seq<DirChild>,
    show_hidden: bool,
) -> bool {
    let off: int = if parent is Some { 1 } else { 0 };
    &&& r.len() >= off
    &&& parent matches Some(p) ==> r[0].label@ == parent_label() && r[0].path@ == p && r[0].depth == 0
    &&& r.skip(off).map_values(|e: PathBrowseEntry| entry_view(e)).to_multiset()
        == child_views(children, show_hidden).to_multiset()
    &&& forall|i: int, j: int| off <= i < j < r.len()
        ==> !text_lt(spec_to_lowercase((#[trigger] r[j]).label@), spec_to_lowercase((#[trigger] r[i]).label@))
    &&& forall|i: int| off <= i < r.len() ==> (#[trigger] r[i]).depth == 1
}

/// The (label, path) view of a keyed entry, ignoring its sort key.
pub open spec fn keyed_entry_view() -> spec_fn((String, PathBrowseEntry)) -> (Seq<char>, Seq<char>) {
    |p: (String, PathBrowseEntry)| entry_view(p.1)
}

fn entry(label: String, path: String, depth: u16) -> (e: PathBrowseEntry)
    ensures
        e.label == label,
        e.path == path,
        e.depth == depth,
{
    PathBrowseEntry { label, path, depth, expanded: false, has_children: false }
}

/// Builds the entries of a folder listing from its parent and children.
pub fn build_browse_entries(parent: Option<String>, children: Vec<DirChild>, show_hidden: bool) -> (r: Vec<PathBrowseEntry>)
    ensures
        is_browse_listing(r@, crate::text::opt_view(parent), children@, show_hidden),
{
    broadcast use vstd::seq_lib::group_to_multiset_ensures, vstd::multiset::group_multiset_axioms;
    let mut keyed: Vec<(String, PathBrowseEntry)> = Vec::new();
    let mut k: usize = 0;
    while k < children.len()
        invariant
            0 <= k <= children@.len(),
            keyed@.map_values(keyed_entry_view()) == child_views(children@.take(k as int), show_hidden),
            forall|i: int| 0 <= i < keyed@.len() ==> (#[trigger] keyed@[i]).0@ == spec_to_lowercase(keyed@[i].1.label@)
                && keyed@[i].1.depth == 1,
        decreases children@.len() - k,
    {
        assert(children@.take(k + 1).drop_last() =~= children@.take(k as int));
        let c = &children[k];
        let name = chars_of(c.name.as_str());
        let hidden = name.len() > 0 && name[0] == '.';
        if show_hidden || !hidden {
            let label = concat_str(c.name.as_str(), "/");
            let key = to_lowercase(label.as_str());
            let e = entry(label, c.path.clone(), 1);
            let ghost old_keyed = keyed@;
            let ghost pair = (key, e);
            keyed.push((key, e));
            proof {
                assert(keyed@ == old_keyed.push(pair));
                assert(e.label@ == c.name@ + "/"@);
                assert(e.path@ == c.path@);
                assert(pair.1 == e);
                assert(entry_view(e) == (c.name@ + "/"@, c.path@));
                assert(keyed_entry_view()(pair) == entry_view(pair.1));
                assert(keyed@.map_values(keyed_entry_view()) =~= old_keyed.map_values(keyed_entry_view()).push(keyed_entry_view()(pair)));
                assert(!(!show_hidden && is_hidden_name(c.name@)));
            }
        }
        k = k + 1;
    }
    assert(children@.take(children@.len() as int) =~= children@);
    let ghost before = keyed@;
    let sorted = sort_by_text_key(keyed);
    proof {
        lemma_map_values_multiset(sorted@, before, keyed_entry_view());
    }
    let mut r: Vec<PathBrowseEntry> = Vec::new();
    let ghost pv = crate::text::opt_view(parent);
    let off: usize = match parent {
        Some(p) => {
            r.push(entry(owned(".. (parent)"), p, 0));
            1
        },
        None => 0,
    };
    let mut rest = sorted;
    let ghost sorted_v = rest@;
    let mut t: usize = 0;
    while rest.len() > 0
        invariant
            r@.len() == off + t,
            t + rest@.len() == sorted_v.len(),
            rest@ == sorted_v.skip(t as int),
            r@.skip(off as int) == sorted_v.take(t as int).map_values(|p: (String, PathBrowseEntry)| p.1),
            off == (if pv is Some { 1usize } else { 0usize }),
            pv matches Some(pp) ==> r@[0].label@ == parent_label() && r@[0].depth == 0 && r@[0].path@ == pp,
        decreases rest@.len(),
    {
        let ghost old_r = r@;
        let ghost old_rest = rest@;
        let (_, e) = rest.remove(0);
        r.push(e);
        proof {
            assert(old_rest[0] == sorted_v[t as int]);
            assert(e == sorted_v[t as int].1);
            assert(rest@ =~= sorted_v.skip(t + 1));
            assert(r@.skip(off as int) =~= old_r.skip(off as int).push(e));
            assert(sorted_v.take(t + 1) =~= sorted_v.take(t as int).push(sorted_v[t as int]));
            assert(r@.skip(off as int) =~= sorted_v.take(t + 1).map_values(|p: (String, PathBrowseEntry)| p.1));
        }
        t = r.len() - off;
    }
    proof {
        assert(sorted_v.take(t as int) =~= sorted_v);
        let out = r@.skip(off as int);
        assert(out.map_values(|e: PathBrowseEntry| entry_view(e)) =~= sorted_v.map_values(keyed_entry_view()));
        assert forall|i: int| 0 <= i < sorted_v.len() implies (#[trigger] sorted_v[i]).0@ == spec_to_lowercase(sorted_v[i].1.label@)
            && sorted_v[i].1.depth == 1 by {
            assert(sorted_v.to_multiset().count(sorted_v[i]) > 0);
            assert(before.contains(sorted_v[i]));
        }
        assert(out =~= sorted_v.map_values(|p: (String, PathBrowseEntry)| p.1));
        assert forall|i: int| off <= i < r@.len() implies r@[i] == sorted_v[i - off].1 by {
            assert(out[i - off] == r@[i]);
        }
        assert forall|i: int, j: int| off <= i < j < r@.len()
            implies !text_lt(spec_to_lowercase((#[trigger] r@[j]).label@), spec_to_lowercase((#[trigger] r@[i]).label@)) by {
            assert(r@[i] == sorted_v[i - off].1);
            assert(r@[j] == sorted_v[j - off].1);
        }
        assert forall|i: int| off <= i < r@.len() implies (#[trigger] r@[i]).depth == 1 by {
            assert(r@[i] == sorted_v[i - off].1);
        }
    }
    r
}

/// `h` without its trailing `/`s (a root of only `/`s stays `/`).
pub open spec fn trim_trailing_slashes(h: Seq<char>) -> Seq<char>
    decreases h.len(),
{
    if h.len() > 1 && h.last() == '/' {
        trim_trailing_slashes(h.drop_last())
    } else {
        h
    }
}

/// `path` with the home folder `home` at its start written as `~`.
pub open spec fn spec_collapse_home(path: Seq<char>, home: Option<Seq<char>>) -> Seq<char> {
    match home {
        Some(h0) => {
            let h = trim_trailing_slashes(h0);
            if h.len() == 0 {
                path
            } else if path == h {
                "~"@
            } else if h == seq!['/'] && path.len() > 1 && path[0] == '/' {
                "~/"@ + path.skip(1)
            } else if path.len() > h.len() && path.take(h.len() as int) == h && path[h.len() as int] == '/' {
                "~/"@ + path.skip(h.len() as int + 1)
            } else {
                path
            }
        },
        None => path,
    }
}

/// Writes a leading home folder of `path` as `~` (`home` is the home folder,
/// when known).
pub fn collapse_home(path: &str, home: Option<&str>) -> (r: String)
    ensures
        r@ == spec_collapse_home(path@, match home { Some(h) => Some(h@), None => None }),
{
    let h0 = match home {
        Some(h) => h,
        None => return owned(path),
    };
    let hv = chars_of(h0);
    let mut n: usize = hv.len();
    assert(hv@.take(n as int) =~= h0@);
    while n > 1 && hv[n - 1] == '/'
        invariant
            hv@ == h0@,
            0 <= n <= hv@.len(),
            trim_trailing_slashes(hv@.take(n as int)) == trim_trailing_slashes(h0@),
        decreases n,
    {
        assert(hv@.take(n as int).drop_last() =~= hv@.take(n - 1));
        n = n - 1;
    }
    let ghost h = hv@.take(n as int);
    assert(hv@.take(hv@.len() as int) =~= h0@);
    assert(trim_trailing_slashes(h) == h);
    let pv = chars_of(path);
    if n == 0 {
        return owned(path);
    }
    if pv.len() == n {
        let mut same = true;
        let mut i: usize = 0;
        while i < n
            invariant
                pv@ == path@,
                hv@ == h0@,
                pv@.len() == n,
                n <= hv@.len(),
                0 <= i <= n,
                same == (forall|j: int| 0 <= j < i ==> pv@[j] == hv@[j]),
            decreases n - i,
        {
            if pv[i] != hv[i] {
                same = false;
            }
            i = i + 1;
        }
        if same {
            assert(path@ =~= h);
            return owned("~");
        }
        assert(path@ != h) by {
            let j = choose|j: int| 0 <= j < n && pv@[j] != hv@[j];
            assert(path@[j] != h[j]);
        }
        return owned(path);
    }
    if n == 1 && hv[0] == '/' && pv.len() > 1 && pv[0] == '/' {
        assert(h =~= seq!['/']);
        let rest = crate::text::string_from_chars(pv.as_slice().split_at(1).1);
        assert(rest@ =~= path@.skip(1));
        return concat_str("~/", rest.as_str());
    }
    if pv.len() > n && pv[n] == '/' {
        let mut same = true;
        let mut i: usize = 0;
        while i < n
            invariant
                pv@ == path@,
                hv@ == h0@,
                pv@.len() > n,
                n <= hv@.len(),
                0 <= i <= n,
                same == (forall|j: int| 0 <= j < i ==> pv@[j] == hv@[j]),
            decreases n - i,
        {
            if pv[i] != hv[i] {
                same = false;
            }
            i = i + 1;
        }
        if same {
            assert(path@.take(n as int) =~= h);
            let rest = crate::text::string_from_chars(pv.as_slice().split_at(n + 1).1);
            assert(rest@ =~= path@.skip(n + 1));
            return concat_str("~/", rest.as_str());
        }
        assert(path@.take(n as int) != h) by {
            let j = choose|j: int| 0 <= j < n && pv@[j] != hv@[j];
            assert(path@.take(n as int)[j] != h[j]);
        }
    }
    proof {
        if h == seq!['/'] && path@.len() > 1 && path@[0] == '/' {
            assert(hv@[0] == '/');
        }
    }
    owned(path)
}

} // verus!
