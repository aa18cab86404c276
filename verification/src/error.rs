//! What can go wrong in the catalog and on the way into it.

use vstd::prelude::*;

verus! {

/// Why an operation did not do what was asked.
#[derive(Clone, Copy, Debug, PartialEq, Eq, Structural)]
pub enum Error {
    /// No record has the identifier that was looked up.
    NotFound,
    /// The catalog already follows a feed with this URL.
    DuplicateFeed,
    /// The text names none of the filters.
    UnknownFilter,
    /// The feed's document could not be fetched.
    FetchFailed,
    /// The feed's document could not be read as a syndication feed.
    ParseFailed,
    /// The store could not be reached.
    StoreUnavailable,
}

impl Error {
    /// A sentence that says what went wrong.
    pub fn message(&self) -> (text: String)
        ensures
            text@ == match *self {
                Error::NotFound => "not found"@,
                Error::DuplicateFeed => "feed already exists"@,
                Error::UnknownFilter => "unknown filter"@,
                Error::FetchFailed => "could not fetch the feed"@,
                Error::ParseFailed => "could not parse the feed"@,
                Error::StoreUnavailable => "store unavailable"@,
            },
    {
        match self {
            Error::NotFound => String::from_str("not found"),
            Error::DuplicateFeed => String::from_str("feed already exists"),
            Error::UnknownFilter => String::from_str("unknown filter"),
            Error::FetchFailed => String::from_str("could not fetch the feed"),
            Error::ParseFailed => String::from_str("could not parse the feed"),
            Error::StoreUnavailable => String::from_str("store unavailable"),
        }
    }
}

} // verus!
