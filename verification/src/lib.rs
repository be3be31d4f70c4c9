//! Indexing and searching of a browsable ROM file archive: platform
//! recognition in path names, directory-listing interpretation for the
//! crawler, and the query and display rules of the search front end.

pub mod platform;
pub mod text;
pub mod lexer;
pub mod decode;
pub mod listing;
pub mod scrape;
pub mod retry;
pub mod crawl;
pub mod search;
