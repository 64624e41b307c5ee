//! The metadata extractor: the document title and the Open Graph properties
//! of a page, read off the parsed document's elements.

use vstd::prelude::*;
use vstd::string::*;
use crate::html::{
    meta_attrs, meta_attrs_of, title_inner, title_inner_of, MetaAttrs, MetaAttrsView,
};
use crate::ogp::OgpData;

verus! {

/// The title the extractor reports: the first `title` element's inner text,
/// or the empty string when the document has none.
pub open spec fn spec_title(t: Option<Seq<char>>) -> Seq<char> {
    match t {
        Some(v) => v,
        None => Seq::empty(),
    }
}

/// The property name starts with the Open Graph prefix `og:`.
pub open spec fn has_og_prefix(p: Seq<char>) -> bool {
    p.len() >= 3 && p[0] == 'o' && p[1] == 'g' && p[2] == ':'
}

/// The meta element contributes an Open Graph entry: its `property` starts
/// with `og:` and it carries a `content` attribute. An element without a
/// `content` attribute contributes nothing.
pub open spec fn is_og_entry(m: MetaAttrsView) -> bool {
    m.2 is Some && has_og_prefix(m.2.unwrap()) && m.3 is Some
}

/// The Open Graph mapping over a document's meta elements: every element
/// with an `og:`-prefixed `property` and a `content` attribute contributes
/// its (property, content) pair, a later element winning over an earlier one
/// with the same property.
pub open spec fn spec_ogp(metas: Seq<MetaAttrsView>) -> Map<Seq<char>, Seq<char>>
    decreases metas.len(),
{
    if metas.len() == 0 {
        Map::empty()
    } else {
        let m = metas.last();
        if is_og_entry(m) {
            spec_ogp(metas.drop_last()).insert(m.2.unwrap(), m.3.unwrap())
        } else {
            spec_ogp(metas.drop_last())
        }
    }
}

/// A property is in the extracted mapping exactly when some meta element of
/// the document contributes it.
pub proof fn lemma_ogp_contains(metas: Seq<MetaAttrsView>, k: Seq<char>)
    ensures
        spec_ogp(metas).contains_key(k) <==> (exists|i: int|
            0 <= i < metas.len() && #[trigger] is_og_entry(metas[i]) && metas[i].2.unwrap() == k),
    decreases metas.len(),
{
    if metas.len() > 0 {
        let t = metas.drop_last();
        lemma_ogp_contains(t, k);
        assert(forall|j: int| 0 <= j < t.len() ==> t[j] == metas[j]);
        if spec_ogp(metas).contains_key(k) {
            if is_og_entry(metas.last()) && metas.last().2.unwrap() == k {
                assert(is_og_entry(metas[metas.len() - 1]));
            }
        }
        if exists|i: int|
            0 <= i < metas.len() && #[trigger] is_og_entry(metas[i]) && metas[i].2.unwrap() == k {
            let i = choose|i: int|
                0 <= i < metas.len() && #[trigger] is_og_entry(metas[i])
                    && metas[i].2.unwrap() == k;
            if i < metas.len() - 1 {
                assert(is_og_entry(t[i]) && t[i].2.unwrap() == k);
            }
        }
    }
}

/// The value recorded for a property is the content of the last meta element
/// that contributes that property.
pub proof fn lemma_ogp_value(metas: Seq<MetaAttrsView>, k: Seq<char>, i: int)
    requires
        0 <= i < metas.len(),
        is_og_entry(metas[i]),
        metas[i].2.unwrap() == k,
        forall|j: int|
            i < j < metas.len() && #[trigger] is_og_entry(metas[j]) ==> metas[j].2.unwrap() != k,
    ensures
        spec_ogp(metas).contains_key(k),
        spec_ogp(metas)[k] == metas[i].3.unwrap(),
    decreases metas.len(),
{
    if i == metas.len() - 1 {
    } else {
        let t = metas.drop_last();
        assert(forall|j: int| 0 <= j < t.len() ==> t[j] == metas[j]);
        lemma_ogp_value(t, k, i);
        if is_og_entry(metas.last()) {
            assert(metas.last() == metas[metas.len() - 1]);
        }
    }
}

fn has_og_prefix_exec(p: &str) -> (r: bool)
    ensures
        r == has_og_prefix(p@),
{
    let n = p.unicode_len();
    if n < 3 {
        return false;
    }
    p.get_char(0) == 'o' && p.get_char(1) == 'g' && p.get_char(2) == ':'
}

/// Answers the reported title for what the document's first `title` element
/// held: its inner text verbatim, or the empty string for no element at all.
pub fn title_or_empty(t: Option<String>) -> (r: String)
    ensures
        r@ == spec_title(t.deep_view()),
{
    match t {
        Some(v) => v,
        None => String::new(),
    }
}

/// Extracts the inner text of the document's first `title` element, or the
/// empty string when the document has no (or an empty) `title`.
pub fn extract_title(html: &str) -> (r: String)
    ensures
        r@ == spec_title(title_inner_of(html@)),
{
    title_or_empty(title_inner(html))
}

/// Folds a document's meta elements into the Open Graph mapping: exactly the
/// elements with an `og:`-prefixed `property` and a `content` attribute
/// contribute, a later duplicate property winning.
pub fn ogp_from_metas(metas: &Vec<MetaAttrs>) -> (r: OgpData)
    ensures
        r@ == spec_ogp(metas.deep_view()),
{
    let n = metas.len();
    let mut r = OgpData::new();
    let mut i: usize = 0;
    assert(metas.deep_view().subrange(0, 0) =~= Seq::<MetaAttrsView>::empty());
    while i < n
        invariant
            n == metas@.len(),
            i <= n,
            r@ == spec_ogp(metas.deep_view().subrange(0, i as int)),
        decreases n - i,
    {
        let m = &metas[i];
        proof {
            assert(metas.deep_view()[i as int] == metas@[i as int].deep_view());
            let sub = metas.deep_view().subrange(0, i + 1);
            assert(sub.drop_last() =~= metas.deep_view().subrange(0, i as int));
            assert(sub.last() == metas.deep_view()[i as int]);
        }
        match (&m.2, &m.3) {
            (Some(p), Some(c)) => {
                if has_og_prefix_exec(p.as_str()) {
                    r.insert(p.clone(), c.clone());
                }
            },
            _ => {},
        }
        i += 1;
    }
    assert(metas.deep_view().subrange(0, n as int) =~= metas.deep_view());
    r
}

/// Extracts the Open Graph mapping of the document: one entry per meta
/// element with an `og:`-prefixed `property` and a `content` attribute.
pub fn extract_ogp_data(html: &str) -> (r: OgpData)
    ensures
        r@ == spec_ogp(meta_attrs_of(html@)),
{
    let metas = meta_attrs(html);
    ogp_from_metas(&metas)
}

/// What one fetch yields: the document title (possibly empty) and the Open
/// Graph mapping.
pub struct ExtractedPage {
    pub title: String,
    pub ogp: OgpData,
}

/// Parses the final decoded HTML once and extracts both the title and the
/// Open Graph mapping.
pub fn extract_page(html: &str) -> (r: ExtractedPage)
    ensures
        r.title@ == spec_title(title_inner_of(html@)),
        r.ogp@ == spec_ogp(meta_attrs_of(html@)),
{
    ExtractedPage { title: extract_title(html), ogp: extract_ogp_data(html) }
}

} // verus!
