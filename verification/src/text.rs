//! ASCII-case-insensitive character and substring comparison, and a small
//! verified helper for accumulating text as a vector of characters.

use vstd::prelude::*;
use vstd::string::*;

verus! {

/// The code point of `c`, with an ASCII upper-case letter folded to lower case.
pub open spec fn lower_code(c: char) -> int {
    if 'A' as int <= c as int && c as int <= 'Z' as int {
        c as int + 32
    } else {
        c as int
    }
}

/// ASCII-case-insensitive equality of two characters.
pub open spec fn ci_char_eq(a: char, b: char) -> bool {
    lower_code(a) == lower_code(b)
}

/// ASCII-case-insensitive equality of two character sequences.
pub open spec fn ci_seq_eq(a: Seq<char>, b: Seq<char>) -> bool {
    a.len() == b.len() && (forall|i: int| 0 <= i < a.len() ==> ci_char_eq(a[i], b[i]))
}

/// `needle` occurs in `hay` starting at position `i`, compared
/// ASCII-case-insensitively.
pub open spec fn ci_matches_at(hay: Seq<char>, needle: Seq<char>, i: int) -> bool {
    0 <= i && i + needle.len() <= hay.len() && (forall|j: int|
        0 <= j < needle.len() ==> ci_char_eq(hay[i + j], needle[j]))
}

/// `needle` occurs somewhere in `hay`, compared ASCII-case-insensitively.
pub open spec fn ci_contains(hay: Seq<char>, needle: Seq<char>) -> bool {
    exists|i: int| ci_matches_at(hay, needle, i)
}

fn ci_char_eq_exec(a: char, b: char) -> (r: bool)
    ensures
        r == ci_char_eq(a, b),
{
    let ac = a as u32;
    let bc = b as u32;
    let al = if 65 <= ac && ac <= 90 { ac + 32 } else { ac };
    let bl = if 65 <= bc && bc <= 90 { bc + 32 } else { bc };
    al == bl
}

/// Compares two strings for equality, ignoring ASCII case.
pub fn ascii_ci_eq(a: &str, b: &str) -> (r: bool)
    ensures
        r == ci_seq_eq(a@, b@),
{
    let alen = a.unicode_len();
    let blen = b.unicode_len();
    if alen != blen {
        return false;
    }
    let mut i: usize = 0;
    while i < alen
        invariant
            alen == a@.len(),
            blen == b@.len(),
            alen == blen,
            i <= alen,
            forall|j: int| 0 <= j < i ==> ci_char_eq(a@[j], b@[j]),
        decreases alen - i,
    {
        if !ci_char_eq_exec(a.get_char(i), b.get_char(i)) {
            return false;
        }
        i += 1;
    }
    true
}

fn ci_matches_at_exec(hay: &str, needle: &str, s: usize) -> (r: bool)
    requires
        s + needle@.len() <= hay@.len(),
        hay@.len() <= usize::MAX,
    ensures
        r == ci_matches_at(hay@, needle@, s as int),
{
    let nlen = needle.unicode_len();
    let mut j: usize = 0;
    while j < nlen
        invariant
            nlen == needle@.len(),
            s + nlen <= hay@.len(),
            hay@.len() <= usize::MAX,
            j <= nlen,
            forall|k: int| 0 <= k < j ==> ci_char_eq(hay@[s + k], needle@[k]),
        decreases nlen - j,
    {
        if !ci_char_eq_exec(hay.get_char(s + j), needle.get_char(j)) {
            assert(!ci_char_eq(hay@[s + j], needle@[j as int]));
            return false;
        }
        j += 1;
    }
    true
}

/// Tests whether `hay` contains `needle` as a substring, ignoring ASCII case.
pub fn ascii_ci_contains(hay: &str, needle: &str) -> (r: bool)
    ensures
        r == ci_contains(hay@, needle@),
{
    let hlen = hay.unicode_len();
    let nlen = needle.unicode_len();
    if nlen > hlen {
        assert forall|i: int| !ci_matches_at(hay@, needle@, i) by {}
        return false;
    }
    let mut s: usize = 0;
    while s <= hlen - nlen
        invariant
            hlen == hay@.len(),
            nlen == needle@.len(),
            nlen <= hlen,
            s <= hlen - nlen + 1,
            forall|i: int| 0 <= i < s ==> !ci_matches_at(hay@, needle@, i),
        decreases hlen + 1 - nlen - s,
    {
        if ci_matches_at_exec(hay, needle, s) {
            assert(ci_matches_at(hay@, needle@, s as int));
            return true;
        }
        s += 1;
    }
    assert forall|i: int| !ci_matches_at(hay@, needle@, i) by {
        if 0 <= i < s {
        }
    }
    false
}

/// Compares two strings for (case-sensitive) equality.
pub fn str_eq(a: &str, b: &str) -> (r: bool)
    ensures
        r == (a@ == b@),
{
    let alen = a.unicode_len();
    let blen = b.unicode_len();
    if alen != blen {
        assert(a@ != b@);
        return false;
    }
    let mut i: usize = 0;
    while i < alen
        invariant
            alen == a@.len(),
            blen == b@.len(),
            alen == blen,
            i <= alen,
            forall|j: int| 0 <= j < i ==> a@[j] == b@[j],
        decreases alen - i,
    {
        if a.get_char(i) != b.get_char(i) {
            assert(a@ != b@);
            return false;
        }
        i += 1;
    }
    assert(a@ =~= b@);
    true
}

/// Appends each character of `s`, in order, to `out`.
pub fn append_str_chars(out: &mut Vec<char>, s: &str)
    ensures
        final(out)@ == old(out)@ + s@,
{
    let len = s.unicode_len();
    let mut i: usize = 0;
    while i < len
        invariant
            len == s@.len(),
            i <= len,
            out@ == old(out)@ + s@.subrange(0, i as int),
        decreases len - i,
    {
        let c = s.get_char(i);
        out.push(c);
        assert(s@.subrange(0, i + 1) =~= s@.subrange(0, i as int).push(s@[i as int]));
        i += 1;
    }
    assert(s@.subrange(0, len as int) =~= s@);
}

} // verus!
