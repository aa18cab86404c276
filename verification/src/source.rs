//! The entries of a syndication document, as far as articles are made of them.

use vstd::prelude::*;
use crate::dates::is_utc_millis_timestamp;
use crate::dates::Timestamp;

verus! {

/// One entry of a syndication document, reduced to what an article is made
/// of: the text of its title, the addresses of its links, the names of its
/// authors, and the times at which it was published and updated.
#[derive(Debug)]
pub struct SourceEntry {
    pub title: Option<String>,
    pub links: Vec<String>,
    pub authors: Vec<String>,
    pub published: Option<Timestamp>,
    pub updated: Option<Timestamp>,
}

/// The contents of a `SourceEntry`.
pub ghost struct SourceEntryView {
    pub title: Option<Seq<char>>,
    pub links: Seq<Seq<char>>,
    pub authors: Seq<Seq<char>>,
    pub published: Option<Seq<char>>,
    pub updated: Option<Seq<char>>,
}

/// The contents of an optional text.
pub open spec fn optional_text(text: Option<String>) -> Option<Seq<char>> {
    match text {
        Some(t) => Some(t@),
        None => None,
    }
}

/// The text of an optional time.
pub open spec fn optional_time(time: Option<Timestamp>) -> Option<Seq<char>> {
    match time {
        Some(t) => Some(t@),
        None => None,
    }
}

/// The contents of a list of texts.
pub open spec fn texts(list: Seq<String>) -> Seq<Seq<char>> {
    list.map_values(|t: String| t@)
}

impl View for SourceEntry {
    type V = SourceEntryView;

    open spec fn view(&self) -> SourceEntryView {
        SourceEntryView {
            title: optional_text(self.title),
            links: texts(self.links@),
            authors: texts(self.authors@),
            published: optional_time(self.published),
            updated: optional_time(self.updated),
        }
    }
}

/// The text of an optional text, or the empty text.
pub open spec fn text_or_empty(text: Option<Seq<char>>) -> Seq<char> {
    match text {
        Some(t) => t,
        None => Seq::empty(),
    }
}

/// The first text of a list, or the empty text.
pub open spec fn first_or_empty(list: Seq<Seq<char>>) -> Seq<char> {
    if list.len() > 0 {
        list[0]
    } else {
        Seq::empty()
    }
}

impl SourceEntryView {
    /// The entry's title, empty where it has none.
    pub open spec fn title_text(self) -> Seq<char> {
        text_or_empty(self.title)
    }

    /// The first link of the entry, empty where it has none.
    pub open spec fn first_link(self) -> Seq<char> {
        first_or_empty(self.links)
    }

    /// The name of the entry's first author, empty where it has none.
    pub open spec fn first_author(self) -> Seq<char> {
        first_or_empty(self.authors)
    }

    /// The entry's time: when it was published; where that is not known,
    /// when it was updated; where neither is known, the empty text.
    pub open spec fn timestamp(self) -> Seq<char> {
        if self.published is Some {
            self.published->0
        } else {
            text_or_empty(self.updated)
        }
    }
}

impl SourceEntry {
    /// The entry's title, empty where it has none.
    pub fn title_text(&self) -> (text: String)
        ensures
            text@ == self@.title_text(),
    {
        match &self.title {
            Some(title) => title.clone(),
            None => String::new(),
        }
    }

    /// The first link of the entry, empty where it has none.
    pub fn first_link(&self) -> (text: String)
        ensures
            text@ == self@.first_link(),
    {
        if self.links.len() > 0 {
            self.links[0].clone()
        } else {
            String::new()
        }
    }

    /// The name of the entry's first author, empty where it has none.
    pub fn first_author(&self) -> (text: String)
        ensures
            text@ == self@.first_author(),
    {
        if self.authors.len() > 0 {
            self.authors[0].clone()
        } else {
            String::new()
        }
    }

    /// The entry's time: when it was published; where that is not known,
    /// when it was updated; where neither is known, the empty text. The text
    /// is empty only where neither is known, and a timestamp otherwise.
    pub fn timestamp(&self) -> (text: String)
        ensures
            text@ == self@.timestamp(),
            text@.len() == 0 <==> self@.published is None && self@.updated is None,
            text@.len() > 0 ==> is_utc_millis_timestamp(text@),
    {
        match &self.published {
            Some(published) => String::from_str(published.as_str()),
            None => match &self.updated {
                Some(updated) => String::from_str(updated.as_str()),
                None => String::new(),
            },
        }
    }
}

} // verus!
