//! Daily content crawlers.
//!
//! Each day a number of sources are crawled: trending repositories, the top
//! stories of a link aggregator, two rankings, one configured site and a news
//! digest. What a source delivers is turned into one Markdown document and
//! stored under `{date}/{source}.md`. This crate holds the rules of that
//! work, each with its contract: what a page lists, which records are kept,
//! how a record reads in the document, where the document goes, and what a
//! run over all crawlers comes to. Requests to the network and the storage
//! are made by the program around this crate, which hands in what it
//! fetched and sends what it is handed back.
//!
//! Two things are taken on trust. HTML is parsed and queried by `scraper`;
//! the module `html` names what it answers, and the contracts of the
//! crawlers speak of those names. The present day is asked of `time`; the
//! functions that do so say what holds on any day, and beside each stands a
//! function that takes the day as an argument.

pub mod arxiv;
pub mod config;
pub mod crawler;
pub mod custom_site;
pub mod date;
pub mod error;
pub mod fields;
pub mod github;
pub mod hacker_news;
pub mod hello;
pub mod html;
pub mod mcp_rankings;
pub mod number;
pub mod openrouter;
pub mod scheduler;
pub mod source;
pub mod storage;
pub mod text;
pub mod xai_search;
