//! Trusted access to the HTML parser. The `scraper` crate parses the
//! document (browser-style, lenient) and hands back plain attribute and text
//! values; every decision over those values is made by verified code.

use vstd::prelude::*;

verus! {

/// The attribute values read off one `meta` element: its `http-equiv`,
/// `charset`, `property` and `content` attributes, each absent or a string.
pub type MetaAttrs = (Option<String>, Option<String>, Option<String>, Option<String>);

/// The view of [`MetaAttrs`]: each attribute as a character sequence.
pub type MetaAttrsView = (
    Option<Seq<char>>,
    Option<Seq<char>>,
    Option<Seq<char>>,
    Option<Seq<char>>,
);

/// The `http-equiv`, `charset`, `property` and `content` attribute values of
/// each `meta` element of the parsed document, in document order.
pub uninterp spec fn meta_attrs_of(doc: Seq<char>) -> Seq<MetaAttrsView>;

/// The inner HTML of the first `title` element of the parsed document, if
/// the document has one.
pub uninterp spec fn title_inner_of(doc: Seq<char>) -> Option<Seq<char>>;

/// Relies on `scraper::Html::parse_document`, `Html::select` with the
/// element selector `meta`, and `ElementRef::attr`: the matching elements
/// come in document order, and `attr` returns the named attribute's value.
/// The result is a function of the document text alone.
#[verifier::external_body]
pub(crate) fn meta_attrs(html: &str) -> (r: Vec<MetaAttrs>)
    ensures
        r.deep_view() == meta_attrs_of(html@),
{
    let selector = scraper::Selector::parse("meta").unwrap();
    let document = scraper::Html::parse_document(html);
    document
        .select(&selector)
        .map(|m| (
            m.attr("http-equiv").map(str::to_string),
            m.attr("charset").map(str::to_string),
            m.attr("property").map(str::to_string),
            m.attr("content").map(str::to_string),
        ))
        .collect()
}

/// Relies on `scraper::Html::parse_document`, `Html::select` with the
/// element selector `title`, and `ElementRef::inner_html`: the inner HTML of
/// the first matching element in document order, a function of the document
/// text alone.
#[verifier::external_body]
pub(crate) fn title_inner(html: &str) -> (r: Option<String>)
    ensures
        r.deep_view() == title_inner_of(html@),
{
    let selector = scraper::Selector::parse("title").unwrap();
    let document = scraper::Html::parse_document(html);
    document.select(&selector).next().map(|el| el.inner_html())
}

} // verus!
