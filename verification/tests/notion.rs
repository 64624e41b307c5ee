use clip_to_notion::notion::{build_headers, build_notion_properties, HeaderError};
use clip_to_notion::ogp::OgpData;

fn parse(json: &str) -> serde_json::Value {
    serde_json::from_str(json).unwrap()
}

#[test]
fn test_build_headers() {
    let notion_api_key = "test_api_key";
    let headers = build_headers(notion_api_key).unwrap();

    assert_eq!(headers[0].0, "Notion-Version");
    assert_eq!(headers[0].1, "2022-06-28");
    assert_eq!(headers[1].0, "Content-Type");
    assert_eq!(headers[1].1, "application/json");
    assert_eq!(headers[2].0, "Authorization");
    assert_eq!(headers[2].1, "Bearer test_api_key");
}

#[test]
fn build_headers_rejects_control_characters() {
    let result = build_headers("key\nwith\nnewlines");
    assert_eq!(result, Err(HeaderError::InvalidHeaderValue));
}

#[test]
fn build_headers_accepts_spaces_and_unicode() {
    assert!(build_headers("plain key with spaces").is_ok());
    assert!(build_headers("\u{00e9}\u{3042}").is_ok());
}

#[test]
fn test_build_notion_properties() {
    let title = "Test Title";
    let url = "https://example.com";
    let tags = vec!["tag1".to_string(), "tag2".to_string()];
    let database_id = "test_db_id";
    let mut ogp_data = OgpData::new();
    ogp_data.insert("og:description".to_string(), "Test Description".to_string());
    ogp_data.insert(
        "og:image".to_string(),
        "https://example.com/image.png".to_string(),
    );

    let properties = build_notion_properties(title, url, &tags, database_id, &ogp_data);
    let json = parse(&properties.to_json());

    assert_eq!(json["properties"]["Name"]["title"][0]["text"]["content"], title);

    assert_eq!(json["properties"]["URL"]["url"], url);

    assert_eq!(
        json["properties"]["Tags"]["multi_select"],
        parse("[{\"name\":\"tag1\"},{\"name\":\"tag2\"}]")
    );

    let description = "Test Description";
    assert_eq!(
        json["properties"]["Description"]["rich_text"][0]["text"]["content"].as_str(),
        Some(description)
    );

    assert_eq!(json["cover"]["external"]["url"], ogp_data.get("og:image").unwrap());

    assert_eq!(json["parent"]["database_id"], database_id);
}

#[test]
fn description_falls_back_to_empty_and_cover_absent() {
    let title = "Example Title";
    let mut ogp = OgpData::new();
    ogp.insert("og:description".to_string(), "This is a description.".to_string());
    let properties = build_notion_properties(title, "https://example.com", &vec![], "db", &ogp);
    let json = parse(&properties.to_json());
    assert_eq!(
        json["properties"]["Description"]["rich_text"][0]["text"]["content"],
        "This is a description."
    );
    assert!(json.get("cover").is_none());

    let no_ogp = OgpData::new();
    let bare = build_notion_properties(title, "https://example.com", &vec![], "db", &no_ogp);
    let bare_json = parse(&bare.to_json());
    assert_eq!(bare_json["properties"]["Description"]["rich_text"][0]["text"]["content"], "");
    assert!(bare_json.get("cover").is_none());
}

#[test]
fn cover_present_exactly_when_og_image_present() {
    let mut ogp = OgpData::new();
    ogp.insert("og:image".to_string(), "https://example.com/image.png".to_string());
    let properties = build_notion_properties("t", "https://example.com", &vec![], "db", &ogp);
    let json = parse(&properties.to_json());
    assert_eq!(json["cover"]["external"]["url"], "https://example.com/image.png");
}

#[test]
fn tags_keep_input_order_and_duplicates() {
    let tags = vec!["test".to_string(), "example".to_string()];
    let ogp = OgpData::new();
    let properties = build_notion_properties("t", "https://example.com", &tags, "db", &ogp);
    let json = parse(&properties.to_json());
    assert_eq!(
        json["properties"]["Tags"]["multi_select"],
        parse("[{\"name\":\"test\"},{\"name\":\"example\"}]")
    );

    let dup = vec!["a".to_string(), "a".to_string()];
    let with_dup = build_notion_properties("t", "https://example.com", &dup, "db", &ogp);
    let dup_json = parse(&with_dup.to_json());
    assert_eq!(
        dup_json["properties"]["Tags"]["multi_select"],
        parse("[{\"name\":\"a\"},{\"name\":\"a\"}]")
    );
}

#[test]
fn url_falls_back_to_source_url_without_og_url() {
    let ogp = OgpData::new();
    let properties =
        build_notion_properties("t", "https://example.com/article", &vec![], "db", &ogp);
    let json = parse(&properties.to_json());
    assert_eq!(json["properties"]["URL"]["url"], "https://example.com/article");

    let mut with_url = OgpData::new();
    with_url.insert("og:url".to_string(), "https://example.com/canonical".to_string());
    let canonical =
        build_notion_properties("t", "https://example.com/article", &vec![], "db", &with_url);
    let canonical_json = parse(&canonical.to_json());
    assert_eq!(canonical_json["properties"]["URL"]["url"], "https://example.com/canonical");
}

#[test]
fn mapping_same_tuple_twice_gives_identical_output() {
    let tags = vec!["test".to_string(), "example".to_string()];
    let mut ogp = OgpData::new();
    ogp.insert("og:description".to_string(), "d".to_string());
    let first = build_notion_properties("t", "https://example.com", &tags, "db", &ogp);
    let second = build_notion_properties("t", "https://example.com", &tags, "db", &ogp);
    assert_eq!(first.to_json(), second.to_json());
}

#[test]
fn json_escapes_special_characters() {
    let ogp = OgpData::new();
    let title = "A \"quoted\" title \\ with\nnewline\tand\u{1}control";
    let properties = build_notion_properties(title, "https://example.com", &vec![], "db", &ogp);
    let json = parse(&properties.to_json());
    assert_eq!(json["properties"]["Name"]["title"][0]["text"]["content"], title);
}
