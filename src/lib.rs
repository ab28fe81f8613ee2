//! Ingestion core of a news crawler: deduplication keys and cache, feed
//! item conversion, per-host content extraction and fetch planning.

pub mod cache;
pub mod error;
pub mod feed;
pub mod handler;
pub mod media;
pub mod models;
pub mod pipeline;
pub mod scheduler;
pub mod scraper;
pub mod text;

pub use feed::RssNews;
pub use pipeline::Crawler;
