//! The two records of the catalog: feeds and the articles read from them.

use vstd::prelude::*;
use crate::cursor::Key;
use crate::cursor::Keyed;
use crate::dates::normalize_published;
use crate::dates::rfc3339_timestamp_to_human;
use crate::dates::utc_now_rfc3339_millis;
use crate::dates::human_date;
use crate::dates::is_utc_millis_timestamp;
use crate::dates::stored_date;
use crate::dates::NEVER;
use crate::ident::article_address;
use crate::ident::article_id;
use crate::ident::feed_address;
use crate::ident::feed_id;
use crate::source::SourceEntry;
use crate::source::SourceEntryView;

verus! {

/// A source of articles that the catalog follows.
#[derive(Debug)]
pub struct Feed {
    pub id: String,
    pub name: String,
    pub site_url: String,
    pub feed_url: String,
    pub date_added: String,
    pub last_updated: String,
}

/// The contents of a `Feed`.
pub ghost struct FeedView {
    pub id: Seq<char>,
    pub name: Seq<char>,
    pub site_url: Seq<char>,
    pub feed_url: Seq<char>,
    pub date_added: Seq<char>,
    pub last_updated: Seq<char>,
}

impl View for Feed {
    type V = FeedView;

    open spec fn view(&self) -> FeedView {
        FeedView {
            id: self.id@,
            name: self.name@,
            site_url: self.site_url@,
            feed_url: self.feed_url@,
            date_added: self.date_added@,
            last_updated: self.last_updated@,
        }
    }
}

impl FeedView {
    /// A feed is listed by the time it was added.
    pub open spec fn key(self) -> Key {
        Key { stamp: self.date_added, id: self.id }
    }
}

impl Keyed for Feed {
    open spec fn key(&self) -> Key {
        self@.key()
    }

    fn stamp(&self) -> (stamp: &String) {
        &self.date_added
    }

    fn ident(&self) -> (id: &String) {
        &self.id
    }
}

/// The contents of a list of feeds.
pub open spec fn feed_views(feeds: Seq<Feed>) -> Seq<FeedView> {
    feeds.map_values(|f: Feed| f@)
}

/// The keys of a list of feeds.
pub open spec fn feed_keys(feeds: Seq<FeedView>) -> Seq<Key> {
    feeds.map_values(|f: FeedView| f.key())
}

impl Clone for Feed {
    fn clone(&self) -> (copy: Self)
        ensures
            copy == *self,
    {
        Feed {
            id: self.id.clone(),
            name: self.name.clone(),
            site_url: self.site_url.clone(),
            feed_url: self.feed_url.clone(),
            date_added: self.date_added.clone(),
            last_updated: self.last_updated.clone(),
        }
    }
}

/// The feed that is created at `date_added` for `feed_url`: addressed by its
/// URL and never refreshed.
pub open spec fn new_feed(
    name: Seq<char>,
    site_url: Seq<char>,
    feed_url: Seq<char>,
    date_added: Seq<char>,
) -> FeedView {
    FeedView {
        id: feed_address(feed_url),
        name,
        site_url,
        feed_url,
        date_added,
        last_updated: NEVER@,
    }
}

impl Feed {
    /// Creates a feed now: it is addressed by its URL, added at the time the
    /// clock gives, a UTC timestamp with milliseconds, and never refreshed.
    pub fn new(name: String, site_url: String, feed_url: String) -> (feed: Self)
        ensures
            feed@ == new_feed(name@, site_url@, feed_url@, feed@.date_added),
            is_utc_millis_timestamp(feed@.date_added),
    {
        let now = utc_now_rfc3339_millis();
        Feed::added_at(name, site_url, feed_url, now)
    }

    /// Creates the feed that is added at `date_added`.
    pub fn added_at(
        name: String,
        site_url: String,
        feed_url: String,
        date_added: String,
    ) -> (feed: Self)
        ensures
            feed@ == new_feed(name@, site_url@, feed_url@, date_added@),
    {
        Feed {
            id: feed_id(feed_url.as_str()),
            name,
            site_url,
            feed_url,
            date_added,
            last_updated: String::from_str(NEVER),
        }
    }

    /// Puts a stored feed together from its columns, each taken as it is.
    pub fn from_columns(
        id: String,
        name: String,
        site_url: String,
        feed_url: String,
        date_added: String,
        last_updated: String,
    ) -> (feed: Self)
        ensures
            feed@ == (FeedView {
                id: id@,
                name: name@,
                site_url: site_url@,
                feed_url: feed_url@,
                date_added: date_added@,
                last_updated: last_updated@,
            }),
    {
        Feed { id, name, site_url, feed_url, date_added, last_updated }
    }
}

/// An item of a feed, with what the reader has done with it.
#[derive(Debug)]
pub struct Article {
    pub id: String,
    pub feed: String,
    pub title: String,
    pub link: String,
    pub author: String,
    pub published: String,
    pub read: bool,
    pub favorited: bool,
    pub read_date: String,
}

/// The contents of an `Article`.
pub ghost struct ArticleView {
    pub id: Seq<char>,
    pub feed: Seq<char>,
    pub title: Seq<char>,
    pub link: Seq<char>,
    pub author: Seq<char>,
    pub published: Seq<char>,
    pub read: bool,
    pub favorited: bool,
    pub read_date: Seq<char>,
}

impl View for Article {
    type V = ArticleView;

    open spec fn view(&self) -> ArticleView {
        ArticleView {
            id: self.id@,
            feed: self.feed@,
            title: self.title@,
            link: self.link@,
            author: self.author@,
            published: self.published@,
            read: self.read,
            favorited: self.favorited,
            read_date: self.read_date@,
        }
    }
}

impl ArticleView {
    /// An article is listed by the time it was published.
    pub open spec fn key(self) -> Key {
        Key { stamp: self.published, id: self.id }
    }
}

impl Keyed for Article {
    open spec fn key(&self) -> Key {
        self@.key()
    }

    fn stamp(&self) -> (stamp: &String) {
        &self.published
    }

    fn ident(&self) -> (id: &String) {
        &self.id
    }
}

/// The contents of a list of articles.
pub open spec fn article_views(articles: Seq<Article>) -> Seq<ArticleView> {
    articles.map_values(|a: Article| a@)
}

/// The keys of a list of articles.
pub open spec fn article_keys(articles: Seq<ArticleView>) -> Seq<Key> {
    articles.map_values(|a: ArticleView| a.key())
}

impl Clone for Article {
    fn clone(&self) -> (copy: Self)
        ensures
            copy == *self,
    {
        Article {
            id: self.id.clone(),
            feed: self.feed.clone(),
            title: self.title.clone(),
            link: self.link.clone(),
            author: self.author.clone(),
            published: self.published.clone(),
            read: self.read,
            favorited: self.favorited,
            read_date: self.read_date.clone(),
        }
    }
}

/// The article that is made of the given parts: addressed by its link, of no
/// feed yet, never read, and with its publication date in RFC 3339 form where
/// the date given is an RFC 2822 date, else as given.
pub open spec fn new_article(
    title: Seq<char>,
    link: Seq<char>,
    author: Seq<char>,
    published: Seq<char>,
    read: bool,
    favorited: bool,
) -> ArticleView {
    ArticleView {
        id: article_address(link),
        feed: Seq::empty(),
        title,
        link,
        author,
        published: stored_date(published),
        read,
        favorited,
        read_date: NEVER@,
    }
}

/// The article that an entry of a document becomes: unread, not a
/// favourite, with an empty text for each part that the entry lacks.
pub open spec fn article_of_entry(entry: SourceEntryView) -> ArticleView {
    new_article(
        entry.title_text(),
        entry.first_link(),
        entry.first_author(),
        entry.timestamp(),
        false,
        false,
    )
}

/// A stored article as it is shown: with its publication date and the date
/// it was read as month, day and year, where they are RFC 3339 timestamps.
pub open spec fn shown_article(stored: ArticleView) -> ArticleView {
    ArticleView {
        published: human_date(stored.published),
        read_date: human_date(stored.read_date),
        ..stored
    }
}

impl Article {
    /// Makes an article of the given parts.
    pub fn new(
        title: String,
        link: String,
        author: String,
        published: String,
        read: bool,
        favorited: bool,
    ) -> (article: Self)
        ensures
            article@ == new_article(title@, link@, author@, published@, read, favorited),
            article@.published.len() == 0 <==> published@.len() == 0,
    {
        Article {
            id: article_id(link.as_str()),
            feed: String::new(),
            title,
            link,
            author,
            published: normalize_published(published),
            read,
            favorited,
            read_date: String::from_str(NEVER),
        }
    }

    /// The current time in UTC as an RFC 3339 timestamp with milliseconds.
    /// Which time it is, the clock decides; the text has the form
    /// `2018-01-26T18:30:09.453Z`.
    pub fn rfc3339_timestamp() -> (now: String)
        ensures
            is_utc_millis_timestamp(now@),
    {
        utc_now_rfc3339_millis()
    }

    /// Turns an RFC 3339 timestamp into month, day and year; any other text
    /// is returned unchanged.
    pub fn rfc3339_timestamp_to_human(timestamp: String) -> (shown: String)
        ensures
            shown@ == human_date(timestamp@),
    {
        rfc3339_timestamp_to_human(timestamp)
    }

    /// Makes the article that an entry of a document becomes. Its
    /// publication date is empty exactly where the entry has neither a time
    /// of publication nor one of update.
    pub fn from_entry(entry: &SourceEntry) -> (article: Self)
        ensures
            article@ == article_of_entry(entry@),
            article@.published.len() == 0 <==> entry@.published is None && entry@.updated is None,
    {
        let title = entry.title_text();
        let link = entry.first_link();
        let author = entry.first_author();
        let published = entry.timestamp();
        Article::new(title, link, author, published, false, false)
    }

    /// The article as it is shown: with its two dates made readable.
    pub fn shown(self) -> (article: Self)
        ensures
            article@ == shown_article(self@),
    {
        Article {
            id: self.id,
            feed: self.feed,
            title: self.title,
            link: self.link,
            author: self.author,
            published: rfc3339_timestamp_to_human(self.published),
            read: self.read,
            favorited: self.favorited,
            read_date: rfc3339_timestamp_to_human(self.read_date),
        }
    }

    /// Puts a stored article together from its columns, as it is shown: the
    /// two dates are made readable, every other column is taken as it is.
    pub fn from_columns(
        id: String,
        feed: String,
        title: String,
        link: String,
        author: String,
        published: String,
        read: bool,
        favorited: bool,
        read_date: String,
    ) -> (article: Self)
        ensures
            article@ == shown_article(
                ArticleView {
                    id: id@,
                    feed: feed@,
                    title: title@,
                    link: link@,
                    author: author@,
                    published: published@,
                    read,
                    favorited,
                    read_date: read_date@,
                },
            ),
    {
        let stored = Article { id, feed, title, link, author, published, read, favorited, read_date };
        stored.shown()
    }
}

} // verus!
