//! The core of a feed reader: identifiers derived from URLs, a catalog of
//! feeds and articles that is listed page by page and filtered by what the
//! reader has done, the refresh that fills it, and the sweep that refreshes
//! every feed in turn.

pub mod catalog;
pub mod cursor;
pub mod dates;
pub mod error;
pub mod filter;
pub mod guarantees;
pub mod ident;
pub mod model;
pub mod refresh;
pub mod schedule;
pub mod service;
pub mod source;
pub mod store;
pub mod sweep;
pub mod text;
pub mod token;
pub mod walk;
