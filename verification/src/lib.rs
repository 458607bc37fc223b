//! feedpress: presses articles from curated RSS feeds into a newspaper edition.
//!
//! The library holds the decisions of the pressing pipeline: the feed
//! configuration and its maintenance, which articles of a feed go to press,
//! the content and bibliography records made from them, the listing and
//! removal of printed editions, and the pressing schedule. Reading and
//! writing files, fetching feeds and articles, and running the typesetter
//! are left to the program around it.

pub mod biblio;
pub mod clock;
pub mod config;
pub mod editions;
pub mod feed;
pub mod press;
pub mod scheduler;
pub mod seqs;
pub mod text;
