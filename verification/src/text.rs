//! Small verified string utilities shared by the rest of the crate.

use vstd::prelude::*;
use vstd::utf8::encode_utf8;

verus! {

/// `String::push` appends one character.
pub assume_specification[ String::push ](s: &mut String, ch: char)
    ensures
        final(s)@ == old(s)@.push(ch),
;

/// The characters of `s`, in order.
pub fn chars_of(s: &str) -> (v: Vec<char>)
    ensures
        v@ == s@,
{
    let mut v: Vec<char> = Vec::new();
    for c in it: s.chars()
        invariant
            v@ == it.seq().take(it.index() as int),
    {
        v.push(c);
    }
    v
}


/// A `String` holding exactly the characters of `v`.
pub fn string_from_chars(v: &[char]) -> (s: String)
    ensures
        s@ == v@,
{
    let mut s = String::new();
    let mut i: usize = 0;
    while i < v.len()
        invariant
            0 <= i <= v@.len(),
            s@ == v@.take(i as int),
        decreases v@.len() - i,
    {
        s.push(v[i]);
        assert(v@.take(i as int).push(v@[i as int]) =~= v@.take(i + 1));
        i = i + 1;
    }
    assert(v@.take(v@.len() as int) =~= v@);
    s
}

/// Character-wise equality of two string slices.
pub fn str_eq(a: &str, b: &str) -> (r: bool)
    ensures
        r == (a@ == b@),
{
    let av = chars_of(a);
    let bv = chars_of(b);
    if av.len() != bv.len() {
        return false;
    }
    let mut i: usize = 0;
    while i < av.len()
        invariant
            av@ == a@,
            bv@ == b@,
            av@.len() == bv@.len(),
            0 <= i <= av@.len(),
            forall|j: int| 0 <= j < i ==> av@[j] == bv@[j],
        decreases av@.len() - i,
    {
        if av[i] != bv[i] {
            return false;
        }
        i = i + 1;
    }
    assert(av@ =~= bv@);
    true
}

/// `s` followed by `t`.
pub fn concat_str(s: &str, t: &str) -> (r: String)
    ensures
        r@ == s@ + t@,
{
    let mut r = String::new();
    let sv = chars_of(s);
    let tv = chars_of(t);
    let mut i: usize = 0;
    while i < sv.len()
        invariant
            sv@ == s@,
            0 <= i <= sv@.len(),
            r@ == sv@.take(i as int),
        decreases sv@.len() - i,
    {
        r.push(sv[i]);
        assert(sv@.take(i as int).push(sv@[i as int]) =~= sv@.take(i + 1));
        i = i + 1;
    }
    assert(sv@.take(sv@.len() as int) =~= sv@);
    let mut j: usize = 0;
    while j < tv.len()
        invariant
            sv@ == s@,
            tv@ == t@,
            0 <= j <= tv@.len(),
            r@ == s@ + tv@.take(j as int),
        decreases tv@.len() - j,
    {
        r.push(tv[j]);
        assert(s@ + tv@.take(j as int).push(tv@[j as int]) =~= s@ + tv@.take(j + 1));
        j = j + 1;
    }
    assert(tv@.take(tv@.len() as int) =~= tv@);
    r
}

/// The decimal digit character for `d < 10`.
pub open spec fn spec_digit(d: nat) -> char {
    if d == 0 { '0' }
    else if d == 1 { '1' }
    else if d == 2 { '2' }
    else if d == 3 { '3' }
    else if d == 4 { '4' }
    else if d == 5 { '5' }
    else if d == 6 { '6' }
    else if d == 7 { '7' }
    else if d == 8 { '8' }
    else { '9' }
}

/// The decimal representation of `n`, without leading zeros.
pub open spec fn spec_decimal(n: nat) -> Seq<char>
    decreases n,
{
    if n < 10 {
        seq![spec_digit(n)]
    } else {
        spec_decimal(n / 10).push(spec_digit(n % 10))
    }
}

fn digit_char(d: u64) -> (c: char)
    requires
        d < 10,
    ensures
        c == spec_digit(d as nat),
{
    if d == 0 { '0' }
    else if d == 1 { '1' }
    else if d == 2 { '2' }
    else if d == 3 { '3' }
    else if d == 4 { '4' }
    else if d == 5 { '5' }
    else if d == 6 { '6' }
    else if d == 7 { '7' }
    else if d == 8 { '8' }
    else { '9' }
}

/// The decimal representation of `n`, as `to_string` prints it.
pub fn decimal_string(n: u64) -> (s: String)
    ensures
        s@ == spec_decimal(n as nat),
    decreases n,
{
    if n < 10 {
        let mut s = String::new();
        s.push(digit_char(n));
        s
    } else {
        let mut s = decimal_string(n / 10);
        s.push(digit_char(n % 10));
        s
    }
}

/// The decimal representation of a 128-bit `n`, as `to_string` prints it.
pub fn decimal_string_wide(n: u128) -> (s: String)
    ensures
        s@ == spec_decimal(n as nat),
    decreases n,
{
    if n < 10 {
        let mut s = String::new();
        s.push(digit_char(n as u64));
        s
    } else {
        let mut s = decimal_string_wide(n / 10);
        s.push(digit_char((n % 10) as u64));
        s
    }
}

/// The view of an optional string.
pub open spec fn opt_view(o: Option<String>) -> Option<Seq<char>> {
    match o {
        Some(s) => Some(s@),
        None => None,
    }
}

/// An owned copy of `s`.
pub fn owned(s: &str) -> (r: String)
    ensures
        r@ == s@,
{
    s.to_owned()
}

/// A clone of an optional string.
pub fn clone_opt(o: &Option<String>) -> (r: Option<String>)
    ensures
        opt_view(r) == opt_view(*o),
{
    match o {
        Some(s) => Some(s.clone()),
        None => None,
    }
}


/// The number of bytes in the UTF-8 encoding of `s` (what `str::len` returns).
pub open spec fn byte_len(s: Seq<char>) -> usize {
    encode_utf8(s).len() as usize
}

/// The UTF-8 length of `s` in bytes.
pub fn str_byte_len(s: &str) -> (r: usize)
    ensures
        r == byte_len(s@),
        r == encode_utf8(s@).len(),
{
    s.as_bytes().len()
}


/// What `str::to_lowercase` returns for a string (Unicode lower-casing,
/// independent of locale).
pub uninterp spec fn spec_to_lowercase(s: Seq<char>) -> Seq<char>;

/// Every character of `s` is ASCII.
pub open spec fn is_ascii_text(s: Seq<char>) -> bool {
    forall|i: int| 0 <= i < s.len() ==> (s[i] as u32) < 128
}

/// `c` with an ASCII capital letter turned into its small letter.
pub open spec fn ascii_lower_char(c: char) -> char {
    if 65 <= (c as u32) && (c as u32) <= 90 {
        ((c as u32) + 32) as char
    } else {
        c
    }
}

/// `s` with its ASCII capital letters turned into small letters.
pub open spec fn spec_ascii_lowercase(s: Seq<char>) -> Seq<char> {
    s.map_values(|c: char| ascii_lower_char(c))
}

/// Calls `str::to_lowercase`; the result is named by `spec_to_lowercase`.
/// On ASCII text it lowers exactly the letters `A` to `Z`, as the
/// documentation of `char::to_lowercase` and `str::to_lowercase` gives (the
/// only context-dependent rule, for `Σ`, is not ASCII).
#[verifier::external_body]
pub(crate) fn to_lowercase(s: &str) -> (r: String)
    ensures
        r@ == spec_to_lowercase(s@),
        is_ascii_text(s@) ==> r@ == spec_ascii_lowercase(s@),
{
    s.to_lowercase()
}


/// A `String` holding the first `n` characters of `v`.
pub fn prefix_string(v: &Vec<char>, n: usize) -> (s: String)
    requires
        n <= v@.len(),
    ensures
        s@ == v@.take(n as int),
{
    let mut s = String::new();
    let mut i: usize = 0;
    while i < n
        invariant
            0 <= i <= n <= v@.len(),
            s@ == v@.take(i as int),
        decreases n - i,
    {
        s.push(v[i]);
        assert(v@.take(i as int).push(v@[i as int]) =~= v@.take(i + 1));
        i = i + 1;
    }
    s
}

/// `n` occurs in `h` as a contiguous run.
pub open spec fn has_substring(h: Seq<char>, n: Seq<char>) -> bool {
    exists|i: int| 0 <= i <= h.len() - n.len() && #[trigger] h.subrange(i, i + n.len()) == n
}

/// Whether `n` occurs in `h` (what `str::contains` answers for a `&str`).
pub fn contains_text(h: &str, n: &str) -> (r: bool)
    ensures
        r == has_substring(h@, n@),
{
    let hv = chars_of(h);
    let nv = chars_of(n);
    if nv.len() > hv.len() {
        return false;
    }
    if nv.len() == 0 {
        assert(h@.subrange(0, 0 + n@.len() as int) =~= n@);
        return true;
    }
    let last = hv.len() - nv.len();
    let mut i: usize = 0;
    while i <= last
        invariant
            hv@ == h@,
            nv@ == n@,
            nv@.len() > 0,
            nv@.len() <= hv@.len(),
            hv@.len() <= usize::MAX,
            last == hv@.len() - nv@.len(),
            0 <= i <= last + 1,
            forall|k: int| 0 <= k < i ==> #[trigger] h@.subrange(k, k + n@.len()) != n@,
        decreases last + 1 - i,
    {
        let mut j: usize = 0;
        while j < nv.len() && hv[i + j] == nv[j]
            invariant
                hv@ == h@,
                nv@ == n@,
                i <= last,
                last == hv@.len() - nv@.len(),
                i + nv@.len() <= hv@.len(),
                hv@.len() <= usize::MAX,
                0 <= j <= nv@.len(),
                forall|m: int| 0 <= m < j ==> hv@[i + m] == nv@[m],
            decreases nv@.len() - j,
        {
            j = j + 1;
        }
        if j == nv.len() {
            assert(h@.subrange(i as int, i + n@.len()) =~= n@);
            return true;
        }
        assert(h@.subrange(i as int, i + n@.len())[j as int] != n@[j as int]);
        i = i + 1;
    }
    false
}

} // verus!
