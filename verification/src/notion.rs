//! The property mapper and page publisher support: assembles the extracted
//! fields into the Notion page-creation payload and the request headers.

use vstd::prelude::*;
use vstd::string::*;
use crate::json::{append_json_string, chars_to_string, json_string};
use crate::ogp::OgpData;
use crate::text::append_str_chars;

verus! {

/// The nested page-creation payload, one field per Notion property: Name
/// (title), URL, Tags (multi-select), Description (rich text), and an
/// optional external cover image, plus the parent database reference.
pub struct PageProperties {
    pub database_id: String,
    pub title: String,
    pub url: String,
    pub tags: Vec<String>,
    pub description: String,
    pub cover: Option<String>,
}

/// The mathematical content of [`PageProperties`]: each field as character
/// sequences.
pub struct PagePropertiesView {
    pub database_id: Seq<char>,
    pub title: Seq<char>,
    pub url: Seq<char>,
    pub tags: Seq<Seq<char>>,
    pub description: Seq<char>,
    pub cover: Option<Seq<char>>,
}

impl View for PageProperties {
    type V = PagePropertiesView;

    open spec fn view(&self) -> PagePropertiesView {
        PagePropertiesView {
            database_id: self.database_id@,
            title: self.title@,
            url: self.url@,
            tags: self.tags.deep_view(),
            description: self.description@,
            cover: self.cover.deep_view(),
        }
    }
}

/// What the property mapper yields for a given input tuple:
/// the title verbatim; the `og:url` value, or the source URL when absent;
/// the tags in order, duplicates kept; the `og:description` value, or the
/// empty string when absent; a cover exactly when `og:image` is present.
pub open spec fn spec_build_properties(
    title: Seq<char>,
    url: Seq<char>,
    tags: Seq<Seq<char>>,
    database_id: Seq<char>,
    ogp: Map<Seq<char>, Seq<char>>,
) -> PagePropertiesView {
    PagePropertiesView {
        database_id: database_id,
        title: title,
        url: if ogp.contains_key("og:url"@) {
            ogp["og:url"@]
        } else {
            url
        },
        tags: tags,
        description: if ogp.contains_key("og:description"@) {
            ogp["og:description"@]
        } else {
            Seq::empty()
        },
        cover: if ogp.contains_key("og:image"@) {
            Some(ogp["og:image"@])
        } else {
            None
        },
    }
}

/// Mapping the same (title, url, tags, database id, ogp) tuple twice yields
/// structurally identical page properties: the mapper is a pure function of
/// its inputs, with no hidden state.
pub proof fn lemma_mapping_idempotent(
    title: Seq<char>,
    url: Seq<char>,
    tags: Seq<Seq<char>>,
    database_id: Seq<char>,
    ogp: Map<Seq<char>, Seq<char>>,
    first: PagePropertiesView,
    second: PagePropertiesView,
)
    requires
        first == spec_build_properties(title, url, tags, database_id, ogp),
        second == spec_build_properties(title, url, tags, database_id, ogp),
    ensures
        first == second,
{
}

/// Transforms the extracted title, the source URL, the user-supplied tags,
/// the database identifier and the Open Graph mapping into the
/// page-creation properties.
pub fn build_notion_properties(
    title: &str,
    url: &str,
    tags: &Vec<String>,
    database_id: &str,
    ogp_data: &OgpData,
) -> (r: PageProperties)
    ensures
        r@ == spec_build_properties(title@, url@, tags.deep_view(), database_id@, ogp_data@),
{
    let url_field = match ogp_data.get("og:url") {
        Some(u) => u,
        None => String::from_str(url),
    };
    let description = match ogp_data.get("og:description") {
        Some(d) => d,
        None => String::new(),
    };
    let cover = ogp_data.get("og:image");
    let mut tags_out: Vec<String> = Vec::new();
    let n = tags.len();
    let mut i: usize = 0;
    assert(tags_out.deep_view() =~= tags.deep_view().subrange(0, 0));
    while i < n
        invariant
            n == tags@.len(),
            i <= n,
            tags_out.deep_view() == tags.deep_view().subrange(0, i as int),
        decreases n - i,
    {
        let ghost prevv = tags_out@;
        let ghost prevdv = tags_out.deep_view();
        let t = tags[i].clone();
        let ghost tsnap = t;
        tags_out.push(t);
        proof {
            assert(prevdv.len() == i);
            assert(prevv.len() == i);
            assert(tags_out@ == prevv.push(tsnap));
            assert forall|j: int| 0 <= j < i + 1 implies #[trigger] tags_out.deep_view()[j]
                == tags.deep_view()[j] by {
                if j < i {
                    assert(tags_out@[j] == prevv[j]);
                    assert(prevdv[j] == tags.deep_view().subrange(0, i as int)[j]);
                } else {
                    assert(tags_out@[j] == tsnap);
                    assert(tsnap@ == tags@[i as int]@);
                }
            }
            assert(tags_out.deep_view() =~= tags.deep_view().subrange(0, i + 1));
        }
        i += 1;
    }
    assert(tags_out.deep_view() =~= tags.deep_view());
    PageProperties {
        database_id: String::from_str(database_id),
        title: String::from_str(title),
        url: url_field,
        tags: tags_out,
        description,
        cover,
    }
}

/// The JSON array of multi-select entries: one `{"name": tag}` object per
/// tag, in input order.
pub open spec fn json_tags_body(tags: Seq<Seq<char>>) -> Seq<char>
    decreases tags.len(),
{
    if tags.len() == 0 {
        Seq::empty()
    } else if tags.len() == 1 {
        json_tag_entry(tags[0])
    } else {
        json_tags_body(tags.drop_last()) + seq![','] + json_tag_entry(tags.last())
    }
}

/// One multi-select entry: `{"name": tag}`.
pub open spec fn json_tag_entry(tag: Seq<char>) -> Seq<char> {
    "{\"name\":"@ + json_string(tag) + seq!['}']
}

/// The JSON text of the page-creation payload: the parent database
/// reference, the four properties, and the cover exactly when one is set.
pub open spec fn json_of(p: PagePropertiesView) -> Seq<char> {
    "{\"parent\":{\"database_id\":"@ + json_string(p.database_id)
        + "},\"properties\":{\"Name\":{\"title\":[{\"text\":{\"content\":"@
        + json_string(p.title) + "}}]},\"URL\":{\"url\":"@ + json_string(p.url)
        + "},\"Tags\":{\"multi_select\":["@ + json_tags_body(p.tags)
        + "]},\"Description\":{\"rich_text\":[{\"type\":\"text\",\"text\":{\"content\":"@
        + json_string(p.description) + ",\"link\":null}}]}}"@ + (match p.cover {
        Some(u) => ",\"cover\":{\"external\":{\"url\":"@ + json_string(u) + "}}"@,
        None => Seq::<char>::empty(),
    }) + seq!['}']
}

fn append_tags_body(out: &mut Vec<char>, tags: &Vec<String>)
    ensures
        final(out)@ == old(out)@ + json_tags_body(tags.deep_view()),
{
    let n = tags.len();
    let mut i: usize = 0;
    assert(json_tags_body(tags.deep_view().subrange(0, 0)) =~= Seq::<char>::empty());
    while i < n
        invariant
            n == tags@.len(),
            i <= n,
            out@ == old(out)@ + json_tags_body(tags.deep_view().subrange(0, i as int)),
        decreases n - i,
    {
        if i > 0 {
            out.push(',');
        }
        append_str_chars(out, "{\"name\":");
        append_json_string(out, tags[i].as_str());
        out.push('}');
        proof {
            let sub1 = tags.deep_view().subrange(0, i + 1);
            assert(sub1.drop_last() =~= tags.deep_view().subrange(0, i as int));
            assert(sub1.last() == tags.deep_view()[i as int]);
            assert(tags.deep_view()[i as int] == tags@[i as int]@);
            assert(out@ =~= old(out)@ + json_tags_body(sub1));
        }
        i += 1;
    }
    assert(tags.deep_view().subrange(0, n as int) =~= tags.deep_view());
}

impl PageProperties {
    /// Renders the payload as the JSON text sent to the page-creation
    /// endpoint.
    pub fn to_json(&self) -> (r: String)
        ensures
            r@ == json_of(self@),
    {
        let mut out: Vec<char> = Vec::new();
        append_str_chars(&mut out, "{\"parent\":{\"database_id\":");
        append_json_string(&mut out, self.database_id.as_str());
        append_str_chars(&mut out, "},\"properties\":{\"Name\":{\"title\":[{\"text\":{\"content\":");
        append_json_string(&mut out, self.title.as_str());
        append_str_chars(&mut out, "}}]},\"URL\":{\"url\":");
        append_json_string(&mut out, self.url.as_str());
        append_str_chars(&mut out, "},\"Tags\":{\"multi_select\":[");
        append_tags_body(&mut out, &self.tags);
        append_str_chars(&mut out, "]},\"Description\":{\"rich_text\":[{\"type\":\"text\",\"text\":{\"content\":");
        append_json_string(&mut out, self.description.as_str());
        append_str_chars(&mut out, ",\"link\":null}}]}}");
        match &self.cover {
            Some(u) => {
                append_str_chars(&mut out, ",\"cover\":{\"external\":{\"url\":");
                append_json_string(&mut out, u.as_str());
                append_str_chars(&mut out, "}}");
            },
            None => {},
        }
        out.push('}');
        assert(out@ =~= json_of(self@));
        chars_to_string(&out)
    }
}

/// A character the HTTP layer accepts in a header value: horizontal tab, or
/// any character that is neither a C0 control character nor delete.
pub open spec fn valid_header_value_char(c: char) -> bool {
    c as int == 9 || ((c as int) >= 32 && c as int != 127)
}

/// Every character of the value is acceptable in an HTTP header value.
pub open spec fn valid_header_value(s: Seq<char>) -> bool {
    forall|i: int| 0 <= i < s.len() ==> valid_header_value_char(s[i])
}

/// The header rows sent with the page-creation request: the fixed API
/// version marker, the JSON content type, and the bearer-token
/// authorization built from the API key.
pub open spec fn spec_headers(key: Seq<char>) -> Seq<(Seq<char>, Seq<char>)> {
    seq![
        ("Notion-Version"@, "2022-06-28"@),
        ("Content-Type"@, "application/json"@),
        ("Authorization"@, "Bearer "@ + key),
    ]
}

/// The request headers could not be built: the API key holds a character
/// that is illegal in an HTTP header value.
#[derive(Debug, Clone, Copy, PartialEq, Eq, Structural)]
pub enum HeaderError {
    InvalidHeaderValue,
}

/// Builds the page-creation request headers from the API key, failing
/// exactly when the key holds a character illegal in an HTTP header value.
pub fn build_headers(notion_api_key: &str) -> (r: Result<Vec<(String, String)>, HeaderError>)
    ensures
        r is Ok <==> valid_header_value(notion_api_key@),
        r is Ok ==> r.unwrap().deep_view() == spec_headers(notion_api_key@),
{
    let len = notion_api_key.unicode_len();
    let mut i: usize = 0;
    while i < len
        invariant
            len == notion_api_key@.len(),
            i <= len,
            forall|j: int| 0 <= j < i ==> valid_header_value_char(notion_api_key@[j]),
        decreases len - i,
    {
        let c = notion_api_key.get_char(i);
        let cc = c as u32;
        if !(cc == 9 || (cc >= 32 && cc != 127)) {
            assert(!valid_header_value_char(notion_api_key@[i as int]));
            return Err(HeaderError::InvalidHeaderValue);
        }
        i += 1;
    }
    let mut auth = String::from_str("Bearer ");
    auth.append(notion_api_key);
    let mut rows: Vec<(String, String)> = Vec::new();
    rows.push((String::from_str("Notion-Version"), String::from_str("2022-06-28")));
    rows.push((String::from_str("Content-Type"), String::from_str("application/json")));
    rows.push((String::from_str("Authorization"), auth));
    assert(rows.deep_view() =~= spec_headers(notion_api_key@));
    Ok(rows)
}

} // verus!
