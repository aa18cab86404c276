//! The closed set of read-states by which articles are listed.

use vstd::prelude::*;
use crate::error::Error;
use crate::text::text_equal;

verus! {

/// A named read-state of an article. `Read` and `Favorite` do not exclude
/// each other; `Unread` is the opposite of `Read`.
#[derive(Clone, Copy, Debug, PartialEq, Eq, Structural)]
pub enum Filter {
    Unread,
    Read,
    Favorite,
}

/// The filter that a text names, if it names one.
pub open spec fn named_filter(text: Seq<char>) -> Option<Filter> {
    if text == "unread"@ {
        Some(Filter::Unread)
    } else if text == "read"@ {
        Some(Filter::Read)
    } else if text == "favorited"@ {
        Some(Filter::Favorite)
    } else {
        None
    }
}

impl Filter {
    /// The text by which the filter is named.
    pub open spec fn name(self) -> Seq<char> {
        match self {
            Filter::Unread => "unread"@,
            Filter::Read => "read"@,
            Filter::Favorite => "favorited"@,
        }
    }

    /// Whether an article with the given flags is listed under this filter.
    pub open spec fn admits(self, read: bool, favorited: bool) -> bool {
        match self {
            Filter::Unread => !read,
            Filter::Read => read,
            Filter::Favorite => favorited,
        }
    }

    /// Decides whether an article with the given flags is listed under this
    /// filter.
    pub fn accepts(self, read: bool, favorited: bool) -> (r: bool)
        ensures
            r == self.admits(read, favorited),
    {
        match self {
            Filter::Unread => !read,
            Filter::Read => read,
            Filter::Favorite => favorited,
        }
    }

    /// The text by which the filter is named.
    pub fn to_string(&self) -> (text: String)
        ensures
            text@ == self.name(),
    {
        match self {
            Filter::Unread => String::from_str("unread"),
            Filter::Read => String::from_str("read"),
            Filter::Favorite => String::from_str("favorited"),
        }
    }

    /// Reads a filter's name. A text that is no filter's name is an error,
    /// never a default.
    pub fn from_str(text: &str) -> (r: Result<Filter, Error>)
        ensures
            r == match named_filter(text@) {
                Some(filter) => Ok::<Filter, Error>(filter),
                None => Err::<Filter, Error>(Error::UnknownFilter),
            },
    {
        if text_equal(text, "unread") {
            Ok(Filter::Unread)
        } else if text_equal(text, "read") {
            Ok(Filter::Read)
        } else if text_equal(text, "favorited") {
            Ok(Filter::Favorite)
        } else {
            Err(Error::UnknownFilter)
        }
    }
}

/// Every filter is read back from its own name.
pub proof fn name_round_trip(filter: Filter)
    ensures
        named_filter(filter.name()) == Some(filter),
{
    reveal_strlit("unread");
    reveal_strlit("read");
    reveal_strlit("favorited");
    assert("unread"@.len() == 6);
    assert("read"@.len() == 4);
    assert("favorited"@.len() == 9);
}

/// A text names at most one filter, and it is that filter's name.
pub proof fn named_filter_is_its_name(text: Seq<char>, filter: Filter)
    ensures
        named_filter(text) == Some(filter) <==> text == filter.name(),
{
    name_round_trip(filter);
}

} // verus!
