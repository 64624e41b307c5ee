//! The charset detector: decides from a document's meta declarations whether
//! the page declares the Shift_JIS encoding. No other encoding is
//! recognized; absence of a match is the expected outcome, not an error.

use vstd::prelude::*;
use vstd::string::*;
use crate::html::{meta_attrs, meta_attrs_of, MetaAttrs, MetaAttrsView};
use crate::text::{ascii_ci_contains, ascii_ci_eq, ci_contains, ci_seq_eq};

verus! {

/// The declared value names Shift_JIS: it contains `"shift_jis"` or
/// `"sjis"`, compared ASCII-case-insensitively.
pub open spec fn has_sjis_marker(v: Seq<char>) -> bool {
    ci_contains(v, "shift_jis"@) || ci_contains(v, "sjis"@)
}

/// The attribute is present and its value names Shift_JIS.
pub open spec fn opt_has_sjis_marker(a: Option<Seq<char>>) -> bool {
    a is Some && has_sjis_marker(a.unwrap())
}

/// The element is a charset declaration candidate: an http-equiv
/// content-type meta tag or a charset meta tag.
pub open spec fn is_charset_candidate(m: MetaAttrsView) -> bool {
    (m.0 is Some && ci_seq_eq(m.0.unwrap(), "content-type"@)) || m.1 is Some
}

/// The element is a charset declaration whose `content` or `charset`
/// attribute names Shift_JIS.
pub open spec fn declares_sjis(m: MetaAttrsView) -> bool {
    is_charset_candidate(m) && (opt_has_sjis_marker(m.3) || opt_has_sjis_marker(m.1))
}

/// What the detector answers over a document's meta declarations: the
/// canonical identifier when some declaration names Shift_JIS, else nothing.
pub open spec fn spec_detect_charset(metas: Seq<MetaAttrsView>) -> Option<Seq<char>> {
    if exists|i: int| 0 <= i < metas.len() && declares_sjis(metas[i]) {
        Some("shift-jis"@)
    } else {
        None
    }
}

/// For every list of meta declarations, the detector answers exactly the
/// canonical identifier `"shift-jis"` when some charset declaration's value
/// contains a Shift_JIS marker ASCII-case-insensitively, and nothing when no
/// declaration does — including documents that declare another encoding.
pub proof fn lemma_detector_exact(metas: Seq<MetaAttrsView>)
    ensures
        (exists|i: int| 0 <= i < metas.len() && declares_sjis(metas[i]))
            ==> spec_detect_charset(metas) == Some("shift-jis"@),
        !(exists|i: int| 0 <= i < metas.len() && declares_sjis(metas[i]))
            ==> spec_detect_charset(metas) is None,
{
}

fn opt_has_sjis_marker_exec(a: &Option<String>) -> (r: bool)
    ensures
        r == opt_has_sjis_marker(a.deep_view()),
{
    match a {
        Some(v) => {
            ascii_ci_contains(v.as_str(), "shift_jis") || ascii_ci_contains(v.as_str(), "sjis")
        },
        None => false,
    }
}

fn is_charset_candidate_exec(m: &MetaAttrs) -> (r: bool)
    ensures
        r == is_charset_candidate(m.deep_view()),
{
    let equiv_matches = match &m.0 {
        Some(v) => ascii_ci_eq(v.as_str(), "content-type"),
        None => false,
    };
    equiv_matches || m.1.is_some()
}

/// Decides over a document's meta declarations whether one of them names
/// Shift_JIS, answering the canonical identifier `"shift-jis"` on a match.
pub fn detect_charset_in_metas(metas: &Vec<MetaAttrs>) -> (r: Option<String>)
    ensures
        r.deep_view() == spec_detect_charset(metas.deep_view()),
{
    let n = metas.len();
    let mut i: usize = 0;
    while i < n
        invariant
            n == metas@.len(),
            i <= n,
            forall|j: int| 0 <= j < i ==> !declares_sjis(metas.deep_view()[j]),
        decreases n - i,
    {
        let m = &metas[i];
        proof {
            assert(metas.deep_view()[i as int] == metas@[i as int].deep_view());
        }
        if is_charset_candidate_exec(m) && (opt_has_sjis_marker_exec(&m.3)
            || opt_has_sjis_marker_exec(&m.1)) {
            assert(declares_sjis(metas.deep_view()[i as int]));
            return Some(String::from_str("shift-jis"));
        }
        i += 1;
    }
    None
}

/// Inspects the document's charset declarations and answers the canonical
/// identifier `"shift-jis"` exactly when one of them names Shift_JIS.
pub fn detect_charset(html: &str) -> (r: Option<String>)
    ensures
        r.deep_view() == spec_detect_charset(meta_attrs_of(html@)),
{
    let metas = meta_attrs(html);
    detect_charset_in_metas(&metas)
}

} // verus!
