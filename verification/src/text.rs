//! Verified text utilities: whitespace trimming, case-insensitive keyword
//! comparison, and a trusted lenient byte-to-text decoder.

use vstd::prelude::*;

verus! {

/// Whitespace for the purposes of statement trimming.
pub open spec fn is_ws(c: char) -> bool {
    c == ' ' || c == '\t' || c == '\n' || c == '\r'
}

/// The first index at or after `i` holding a non-whitespace character, or
/// the length of `s` when everything from `i` on is whitespace.
pub open spec fn skip_ws(s: Seq<char>, i: nat) -> nat
    recommends
        i <= s.len(),
    decreases s.len() - i,
{
    if i >= s.len() {
        i
    } else if is_ws(s[i as int]) {
        skip_ws(s, i + 1)
    } else {
        i
    }
}

/// The exclusive end, at or before `j`, of the last non-whitespace
/// character before `j`; zero when everything before `j` is whitespace.
pub open spec fn rskip_ws(s: Seq<char>, j: nat) -> nat
    recommends
        j <= s.len(),
    decreases j,
{
    if j == 0 {
        0
    } else if is_ws(s[j - 1]) {
        rskip_ws(s, (j - 1) as nat)
    } else {
        j
    }
}

/// The sequence with surrounding whitespace removed.
pub open spec fn trim_spec(s: Seq<char>) -> Seq<char> {
    if skip_ws(s, 0) == s.len() {
        Seq::<char>::empty()
    } else {
        s.subrange(skip_ws(s, 0) as int, rskip_ws(s, s.len()) as int)
    }
}

pub proof fn lemma_skip_ws_bounds(s: Seq<char>, i: nat)
    requires
        i <= s.len(),
    ensures
        i <= skip_ws(s, i) <= s.len(),
        forall|k: int| i <= k < skip_ws(s, i) ==> is_ws(s[k]),
        skip_ws(s, i) < s.len() ==> !is_ws(s[skip_ws(s, i) as int]),
    decreases s.len() - i,
{
    if i < s.len() && is_ws(s[i as int]) {
        lemma_skip_ws_bounds(s, i + 1);
    }
}

/// A non-whitespace character before `j` keeps the trailing skip from
/// passing it.
pub proof fn lemma_rskip_ws_floor(s: Seq<char>, j: nat, k: nat)
    requires
        k < j <= s.len(),
        !is_ws(s[k as int]),
    ensures
        rskip_ws(s, j) >= k + 1,
    decreases j,
{
    if j - 1 > k && is_ws(s[j - 1]) {
        lemma_rskip_ws_floor(s, (j - 1) as nat, k);
    }
}

/// The string with surrounding whitespace removed.
pub fn str_trim(s: &str) -> (r: &str)
    ensures
        r@ == trim_spec(s@),
{
    let n: usize = s.unicode_len();
    let mut i: usize = 0;
    loop
        invariant
            i <= n,
            n == s@.len(),
            skip_ws(s@, 0) == skip_ws(s@, i as nat),
        ensures
            i <= n,
            skip_ws(s@, 0) == i,
        decreases n - i,
    {
        if i >= n {
            break ;
        }
        let c = s.get_char(i);
        if !(c == ' ' || c == '\t' || c == '\n' || c == '\r') {
            break ;
        }
        i = i + 1;
    }
    proof {
        lemma_skip_ws_bounds(s@, 0);
    }
    if i == n {
        let r = s.substring_char(n, n);
        proof {
            assert(r@ =~= trim_spec(s@));
        }
        r
    } else {
        let mut j: usize = n;
        loop
            invariant
                j <= n,
                n == s@.len(),
                rskip_ws(s@, n as nat) == rskip_ws(s@, j as nat),
            ensures
                j <= n,
                rskip_ws(s@, n as nat) == j,
            decreases j,
        {
            if j == 0 {
                break ;
            }
            let c = s.get_char(j - 1);
            if !(c == ' ' || c == '\t' || c == '\n' || c == '\r') {
                break ;
            }
            j = j - 1;
        }
        proof {
            lemma_rskip_ws_floor(s@, n as nat, i as nat);
        }
        let r = s.substring_char(i, j);
        proof {
            assert(r@ =~= trim_spec(s@));
        }
        r
    }
}

/// One character of input matches one lower-case keyword character,
/// ignoring ASCII case.
pub open spec fn fold_eq_char(a: char, l: char) -> bool {
    a == l || ('A' <= a && a <= 'Z' && a as u32 + 32 == l as u32)
}

/// The input matches the lower-case keyword exactly, ignoring ASCII case.
pub open spec fn fold_matches(s: Seq<char>, kw: Seq<char>) -> bool {
    s.len() == kw.len() && (forall|k: int| 0 <= k < s.len() ==> fold_eq_char(s[k], kw[k]))
}

/// The input begins with the lower-case keyword, ignoring ASCII case.
pub open spec fn fold_starts_with(s: Seq<char>, kw: Seq<char>) -> bool {
    s.len() >= kw.len() && (forall|k: int| 0 <= k < kw.len() ==> fold_eq_char(s[k], kw[k]))
}

fn char_fold_eq(a: char, l: char) -> (r: bool)
    ensures
        r == fold_eq_char(a, l),
{
    a == l || ('A' <= a && a <= 'Z' && a as u32 + 32 == l as u32)
}

/// Whether `s` equals the lower-case keyword `kw`, ignoring ASCII case in
/// `s`.
pub fn str_fold_matches(s: &str, kw: &str) -> (r: bool)
    ensures
        r == fold_matches(s@, kw@),
{
    let n: usize = s.unicode_len();
    let m: usize = kw.unicode_len();
    if n != m {
        return false;
    }
    let mut k: usize = 0;
    while k < n
        invariant
            k <= n,
            n == s@.len() == kw@.len(),
            forall|q: int| 0 <= q < k ==> fold_eq_char(s@[q], kw@[q]),
        decreases n - k,
    {
        if !char_fold_eq(s.get_char(k), kw.get_char(k)) {
            return false;
        }
        k = k + 1;
    }
    true
}

/// Whether `s` begins with the lower-case keyword `kw`, ignoring ASCII case
/// in `s`.
pub fn str_fold_starts_with(s: &str, kw: &str) -> (r: bool)
    ensures
        r == fold_starts_with(s@, kw@),
{
    let n: usize = s.unicode_len();
    let m: usize = kw.unicode_len();
    if n < m {
        return false;
    }
    let mut k: usize = 0;
    while k < m
        invariant
            k <= m <= n,
            n == s@.len(),
            m == kw@.len(),
            forall|q: int| 0 <= q < k ==> fold_eq_char(s@[q], kw@[q]),
        decreases m - k,
    {
        if !char_fold_eq(s.get_char(k), kw.get_char(k)) {
            return false;
        }
        k = k + 1;
    }
    true
}

/// The text that the lenient decoder produces from a byte sequence; a
/// function of the bytes alone.
pub uninterp spec fn lossy_decoded(bytes: Seq<u8>) -> Seq<char>;

/// Relies on `String::from_utf8_lossy`: decodes bytes as UTF-8, replacing
/// invalid sequences with the replacement character rather than failing;
/// the result is a function of the bytes alone.
#[verifier::external_body]
pub(crate) fn decode_lossy(bytes: &Vec<u8>) -> (r: String)
    ensures
        r@ == lossy_decoded(bytes@),
{
    String::from_utf8_lossy(bytes).into_owned()
}

} // verus!
