//! Clips a web page into a Notion database: detects a Shift_JIS charset
//! declaration, extracts the document title and Open Graph metadata, and
//! assembles the Notion page-creation payload.

pub mod cli;
pub mod config;
pub mod encoding;
pub mod html;
pub mod json;
pub mod notion;
pub mod ogp;
pub mod scrape;
pub mod text;
