//! Book metadata extraction from bookstore pages: validated field types,
//! record building from page texts, the retry decisions of the page fetcher,
//! URL dispatch and supply, a bounded-concurrency crawl scheduler and the
//! export rows.
pub mod cli;
pub mod dom;
pub mod export;
pub mod fields;
pub mod page;
pub mod record;
pub mod retry;
pub mod scheduler;
pub mod source;
pub mod text;
pub mod urls;
