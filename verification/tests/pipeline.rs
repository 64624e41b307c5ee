use clip_to_notion::cli::{Cli, Command, DbArgs, DbCommand};
use clip_to_notion::config::Config;
use clip_to_notion::notion::build_notion_properties;
use clip_to_notion::scrape::extract_page;

#[test]
fn config_default_is_empty() {
    let cfg = Config::default();
    assert_eq!(cfg.database_id, "");
    assert_eq!(cfg.notion_api_key, "");
}

#[test]
fn cli_types_hold_the_parsed_invocation() {
    let cli = Cli {
        command: Command::Run {
            url: "https://example.com".to_string(),
            tags: vec!["test".to_string(), "example".to_string()],
        },
    };
    if let Command::Run { url, tags } = cli.command {
        assert_eq!(url, "https://example.com");
        assert_eq!(tags, vec!["test", "example"]);
    } else {
        panic!("Expected Command::Run");
    }

    let db = Cli { command: Command::Db(DbArgs { command: DbCommand::Create }) };
    if let Command::Db(DbArgs { command }) = db.command {
        assert!(matches!(command, DbCommand::Create));
    } else {
        panic!("Expected Command::Db");
    }

    let init = Cli { command: Command::Init };
    assert!(matches!(init.command, Command::Init));
}

#[test]
fn extracted_page_maps_to_properties() {
    let html = "<html><head>\
        <title>Example Title</title>\
        <meta property=\"og:description\" content=\"This is a description.\">\
        </head></html>";
    let page = extract_page(html);
    let properties = build_notion_properties(
        &page.title,
        "https://example.com/source",
        &vec!["test".to_string()],
        "db",
        &page.ogp,
    );
    let json: serde_json::Value = serde_json::from_str(&properties.to_json()).unwrap();
    assert_eq!(json["properties"]["Name"]["title"][0]["text"]["content"], "Example Title");
    assert_eq!(
        json["properties"]["Description"]["rich_text"][0]["text"]["content"],
        "This is a description."
    );
    assert_eq!(json["properties"]["URL"]["url"], "https://example.com/source");
    assert!(json.get("cover").is_none());
}
