//! Incremental forum-thread watcher: pagination, watermark-based detection of
//! new posts, extraction of posts from page markup, and formatting of
//! notifications.
pub mod crawl;
pub mod cursor;
pub mod embed;
pub mod post;
pub mod scrape;
pub mod text;
