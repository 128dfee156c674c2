//! Character and string helpers shared by the detection, heuristic and
//! snapshot-parsing modules.

use vstd::prelude::*;
use vstd::string::StrSliceExecFns;

verus! {

/// Characters treated as whitespace when trimming process-listing lines.
pub open spec fn is_space(c: char) -> bool {
    c == ' ' || c == '\t' || c == '\r' || c == '\n'
}

/// Executable test for [`is_space`].
pub fn is_space_char(c: char) -> (r: bool)
    ensures
        r == is_space(c),
{
    c == ' ' || c == '\t' || c == '\r' || c == '\n'
}

/// Equality of two string slices, decided character by character.
pub fn str_eq(a: &str, b: &str) -> (r: bool)
    ensures
        r == (a@ == b@),
{
    let alen = a.unicode_len();
    let blen = b.unicode_len();
    if alen != blen {
        return false;
    }
    let mut i: usize = 0;
    while i < alen
        invariant
            i <= alen,
            alen == a@.len(),
            alen == b@.len(),
            forall|j: int| 0 <= j < i ==> a@[j] == b@[j],
        decreases alen - i,
    {
        if a.get_char(i) != b.get_char(i) {
            return false;
        }
        i = i + 1;
    }
    proof {
        assert(a@ =~= b@);
    }
    true
}

/// Does `n` occur in `h` starting at position `i`?
pub open spec fn seq_contains_at(h: Seq<char>, n: Seq<char>, i: int) -> bool {
    0 <= i && i + n.len() <= h.len() && h.subrange(i, i + n.len()) == n
}

/// Does `n` occur anywhere in `h`?
pub open spec fn seq_contains(h: Seq<char>, n: Seq<char>) -> bool {
    exists|i: int| seq_contains_at(h, n, i)
}

/// Does `h` end with `n`?
pub open spec fn seq_ends_with(h: Seq<char>, n: Seq<char>) -> bool {
    n.len() <= h.len() && h.subrange(h.len() - n.len(), h.len() as int) == n
}

/// Does `n` occur in `h` starting at position `i`? Decided character by
/// character.
pub fn str_matches_at(h: &str, n: &str, i: usize) -> (r: bool)
    requires
        i + n@.len() <= h@.len(),
    ensures
        r == seq_contains_at(h@, n@, i as int),
{
    let hl = h.unicode_len();
    let nl = n.unicode_len();
    let mut j: usize = 0;
    while j < nl
        invariant
            j <= nl,
            hl == h@.len(),
            nl == n@.len(),
            i + n@.len() <= h@.len(),
            forall|t: int| 0 <= t < j ==> h@[i + t] == n@[t],
        decreases nl - j,
    {
        if h.get_char(i + j) != n.get_char(j) {
            assert(!seq_contains_at(h@, n@, i as int)) by {
                if seq_contains_at(h@, n@, i as int) {
                    assert(h@.subrange(i as int, i + n@.len())[j as int] == n@[j as int]);
                }
            }
            return false;
        }
        j = j + 1;
    }
    proof {
        assert(h@.subrange(i as int, i + n@.len()) =~= n@);
    }
    true
}

/// Does `n` occur anywhere in `h`? A linear scan over the start positions.
pub fn str_contains(h: &str, n: &str) -> (r: bool)
    ensures
        r == seq_contains(h@, n@),
{
    let hl = h.unicode_len();
    let nl = n.unicode_len();
    if nl > hl {
        return false;
    }
    let mut i: usize = 0;
    loop
        invariant
            i <= hl - nl,
            nl <= hl,
            hl == h@.len(),
            nl == n@.len(),
            forall|t: int| 0 <= t < i ==> !seq_contains_at(h@, n@, t),
        decreases hl - nl - i,
    {
        if str_matches_at(h, n, i) {
            return true;
        }
        if i == hl - nl {
            assert(forall|t: int| t > hl - nl ==> !seq_contains_at(h@, n@, t));
            return false;
        }
        i = i + 1;
    }
}

/// Does `h` end with `n`?
pub fn str_ends_with(h: &str, n: &str) -> (r: bool)
    ensures
        r == seq_ends_with(h@, n@),
{
    let hl = h.unicode_len();
    let nl = n.unicode_len();
    if nl > hl {
        return false;
    }
    str_matches_at(h, n, hl - nl)
}

/// `s` with leading whitespace removed.
pub open spec fn trim_front(s: Seq<char>) -> Seq<char>
    decreases s.len(),
{
    if s.len() > 0 && is_space(s[0]) {
        trim_front(s.drop_first())
    } else {
        s
    }
}

/// `s` with trailing whitespace removed.
pub open spec fn trim_back(s: Seq<char>) -> Seq<char>
    decreases s.len(),
{
    if s.len() > 0 && is_space(s.last()) {
        trim_back(s.drop_last())
    } else {
        s
    }
}

/// `s` with leading and trailing whitespace removed.
pub open spec fn spec_trim(s: Seq<char>) -> Seq<char> {
    trim_back(trim_front(s))
}

fn trim_start_str(s: &str) -> (r: &str)
    ensures
        r@ == trim_front(s@),
    decreases s@.len(),
{
    let l = s.unicode_len();
    if l > 0 && is_space_char(s.get_char(0)) {
        let rest = s.substring_char(1, l);
        proof {
            assert(rest@ =~= s@.drop_first());
        }
        trim_start_str(rest)
    } else {
        s
    }
}

fn trim_end_str(s: &str) -> (r: &str)
    ensures
        r@ == trim_back(s@),
    decreases s@.len(),
{
    let l = s.unicode_len();
    if l > 0 && is_space_char(s.get_char(l - 1)) {
        let rest = s.substring_char(0, l - 1);
        proof {
            assert(rest@ =~= s@.drop_last());
        }
        trim_end_str(rest)
    } else {
        s
    }
}

/// `s` with surrounding whitespace removed.
pub fn trim_str(s: &str) -> (r: &str)
    ensures
        r@ == spec_trim(s@),
{
    trim_end_str(trim_start_str(s))
}

/// Equality of a character vector and a string slice.
pub fn chars_eq_str(v: &Vec<char>, s: &str) -> (r: bool)
    ensures
        r == (v@ == s@),
{
    let vl = v.len();
    let sl = s.unicode_len();
    if vl != sl {
        return false;
    }
    let mut i: usize = 0;
    while i < vl
        invariant
            i <= vl,
            vl == v@.len(),
            vl == s@.len(),
            forall|j: int| 0 <= j < i ==> v@[j] == s@[j],
        decreases vl - i,
    {
        if v[i] != s.get_char(i) {
            return false;
        }
        i = i + 1;
    }
    proof {
        assert(v@ =~= s@);
    }
    true
}

/// The lower-cased form of a character sequence, as produced by the standard
/// library's case conversion.
pub uninterp spec fn lower_of(s: Seq<char>) -> Seq<char>;

/// Relies on str::to_lowercase: the result depends on the input characters
/// alone.
#[verifier::external_body]
pub(crate) fn lowercase(s: &str) -> (r: String)
    ensures
        r@ == lower_of(s@),
{
    s.to_lowercase()
}

/// Relies on String's FromIterator over chars: collecting yields exactly the
/// given characters, in order.
#[verifier::external_body]
pub(crate) fn string_from_chars(cs: Vec<char>) -> (r: String)
    ensures
        r@ == cs@,
{
    cs.into_iter().collect()
}

} // verus!
