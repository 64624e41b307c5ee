use clip_to_notion::ogp::OgpData;
use clip_to_notion::scrape::{extract_ogp_data, extract_page, extract_title};

#[test]
fn test_extract_title() {
    let html = "<html><head><title>Test Title</title></head></html>";
    let title = extract_title(html);
    assert_eq!(title, "Test Title");
}

#[test]
fn test_extract_title_empty() {
    let html = "<html><head><title></title></head></html>";
    let title = extract_title(html);
    assert_eq!(title, "");
}

#[test]
fn test_extract_title_missing() {
    let html = "<html><head></head></html>";
    let title = extract_title(html);
    assert_eq!(title, "");
}

#[test]
fn test_extract_ogp_data() {
    let html = "\n            <meta property=\"og:title\" content=\"OGP Title\">\n            <meta property=\"og:description\" content=\"OGP Description\">\n        ";
    let ogp_data = extract_ogp_data(html);
    assert_eq!(ogp_data.get("og:title").unwrap(), "OGP Title");
    assert_eq!(ogp_data.get("og:description").unwrap(), "OGP Description");
}

#[test]
fn test_extract_ogp_data_missing() {
    let html = "<html><head></head></html>";
    let ogp_data = extract_ogp_data(html);
    assert!(ogp_data.is_empty());
}

#[test]
fn extract_ogp_data_skips_meta_without_content() {
    let html = "<html><head><meta property=\"og:title\"></head></html>";
    let ogp_data = extract_ogp_data(html);
    assert!(ogp_data.is_empty());
    assert_eq!(ogp_data.get("og:title"), None);
}

#[test]
fn extract_ogp_data_keeps_empty_content() {
    let html = "<html><head><meta property=\"og:description\" content=\"\"></head></html>";
    let ogp_data = extract_ogp_data(html);
    assert_eq!(ogp_data.get("og:description").unwrap(), "");
}

#[test]
fn extract_ogp_data_last_value_wins() {
    let html = "<html><head>\
        <meta property=\"og:title\" content=\"First\">\
        <meta property=\"og:title\" content=\"Second\">\
        </head></html>";
    let ogp_data = extract_ogp_data(html);
    assert_eq!(ogp_data.get("og:title").unwrap(), "Second");
}

#[test]
fn extract_page_combines_title_and_ogp() {
    let html = "<html><head>\
        <title>Example Title</title>\
        <meta property=\"og:description\" content=\"This is a description.\">\
        <meta property=\"og:image\" content=\"https://example.com/image.png\">\
        </head></html>";
    let page = extract_page(html);
    assert_eq!(page.title, "Example Title");
    assert_eq!(page.ogp.get("og:description").unwrap(), "This is a description.");
    assert_eq!(page.ogp.get("og:image").unwrap(), "https://example.com/image.png");
}

#[test]
fn ogp_data_insert_replaces_earlier_value() {
    let mut ogp = OgpData::new();
    assert!(ogp.is_empty());
    ogp.insert("og:url".to_string(), "https://old.example.com".to_string());
    ogp.insert("og:url".to_string(), "https://new.example.com".to_string());
    assert_eq!(ogp.get("og:url").unwrap(), "https://new.example.com");
    assert!(!ogp.is_empty());
    assert_eq!(ogp.get("og:image"), None);
}
