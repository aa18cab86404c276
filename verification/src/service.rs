//! What the catalog answers to its callers: each request as one step from
//! the catalog and the request's values to the catalog and a page to show.

use vstd::prelude::*;
use crate::catalog::holds;
use crate::catalog::lemma_position_of;
use crate::catalog::position_of;
use crate::cursor::listing;
use crate::cursor::Cursor;
use crate::cursor::Listing;
use crate::cursor::Mark;
use crate::cursor::Token;
use crate::error::Error;
use crate::filter::named_filter;
use crate::filter::Filter;
use crate::ident::feed_address;
use crate::model::article_keys;
use crate::model::article_views;
use crate::model::feed_keys;
use crate::model::feed_views;
use crate::model::new_feed;
use crate::model::shown_article;
use crate::model::Article;
use crate::model::ArticleView;
use crate::model::Feed;
use crate::model::FeedView;
use crate::refresh::fetched_entries;
use crate::refresh::refresh_at;
use crate::refresh::refresh_outcome;
use crate::refresh::refreshed;
use crate::source::SourceEntry;
use crate::store::matching;
use crate::store::with_favorite_toggled;
use crate::store::with_feed;
use crate::store::with_read;
use crate::store::without_feed;
use crate::store::Storage;
use crate::store::StorageView;
use crate::token::token_of;

verus! {

/// A page of feeds to show.
#[derive(Debug)]
pub struct FeedList {
    pub cursor: Cursor,
    pub feeds: Vec<Feed>,
}

/// A page of articles to show.
#[derive(Debug)]
pub struct ArticleList {
    pub cursor: Cursor,
    pub articles: Vec<Article>,
}

/// A page of articles to show under a heading, with the name of the filter
/// that further pages are asked with.
#[derive(Debug)]
pub struct ArticleBoard {
    pub article_filter: String,
    pub title: String,
    pub cursor: Cursor,
    pub articles: Vec<Article>,
}

impl View for FeedList {
    type V = Listing<FeedView>;

    open spec fn view(&self) -> Listing<FeedView> {
        Listing { items: feed_views(self.feeds@), has_next: self.cursor.has_next, next: self.cursor.next@ }
    }
}

impl View for ArticleList {
    type V = Listing<ArticleView>;

    open spec fn view(&self) -> Listing<ArticleView> {
        Listing {
            items: article_views(self.articles@),
            has_next: self.cursor.has_next,
            next: self.cursor.next@,
        }
    }
}

impl ArticleBoard {
    /// The page that the board shows.
    pub open spec fn list(&self) -> Listing<ArticleView> {
        Listing {
            items: article_views(self.articles@),
            has_next: self.cursor.has_next,
            next: self.cursor.next@,
        }
    }
}

/// The page of feeds that follows `from` in a catalog.
pub open spec fn feed_page(catalog: StorageView, from: Mark) -> Listing<FeedView> {
    listing(catalog.feeds, feed_keys(catalog.feeds), from, catalog.page_size as int)
}

/// The page that follows `from` of a catalog's articles under `filter`, as
/// it is shown: each article with its dates made readable.
pub open spec fn article_page(catalog: StorageView, filter: Filter, from: Mark) -> Listing<
    ArticleView,
> {
    let stored = listing(
        matching(catalog.articles, filter),
        article_keys(matching(catalog.articles, filter)),
        from,
        catalog.page_size as int,
    );
    Listing { items: stored.items.map_values(|a: ArticleView| shown_article(a)), ..stored }
}

/// The page of feeds that follows the token `pagination`.
pub fn feed_list(store: &Storage, pagination: &str) -> (list: FeedList)
    ensures
        list@ == feed_page(store@, token_of(pagination@)),
{
    let from = Token::from_str(pagination);
    let page = store.get_feeds(&from);
    FeedList { cursor: page.cursor, feeds: page.items }
}

/// The page that follows `from` of the articles under `filter`, as it is
/// shown.
pub fn shown_page(store: &Storage, filter: Filter, from: &Token) -> (list: ArticleList)
    ensures
        list@ == article_page(store@, filter, from@),
{
    let page = store.filter(filter, from);
    let ghost stored = article_views(page.items@);
    let mut articles: Vec<Article> = Vec::new();
    let mut at: usize = 0;
    while at < page.items.len()
        invariant
            0 <= at <= page.items.len(),
            stored == article_views(page.items@),
            articles@.len() == at,
            forall|i: int| 0 <= i < at ==> (#[trigger] articles@[i])@ == shown_article(stored[i]),
        decreases page.items.len() - at,
    {
        articles.push(page.items[at].clone().shown());
        at = at + 1;
    }
    assert(article_views(articles@) =~= stored.map_values(|a: ArticleView| shown_article(a)));
    ArticleList { cursor: page.cursor, articles }
}

/// The page that follows the token `pagination` of the articles under
/// `filter`, as it is shown.
pub fn article_list(store: &Storage, filter: Filter, pagination: &str) -> (list: ArticleList)
    ensures
        list@ == article_page(store@, filter, token_of(pagination@)),
{
    let from = Token::from_str(pagination);
    shown_page(store, filter, &from)
}

/// The board of one filter under a heading: the first page of its articles.
pub fn board(store: &Storage, filter: Filter, title: &str) -> (shown: ArticleBoard)
    ensures
        shown.list() == article_page(store@, filter, Mark::Start),
        shown.title@ == title@,
        shown.article_filter@ == filter.name(),
{
    let list = shown_page(store, filter, &Token::Start);
    ArticleBoard {
        article_filter: filter.to_string(),
        title: String::from_str(title),
        cursor: list.cursor,
        articles: list.articles,
    }
}

/// The front page: the latest articles not yet read, under the filter's own
/// name.
pub fn index(store: &Storage) -> (shown: ArticleBoard)
    ensures
        shown.list() == article_page(store@, Filter::Unread, Mark::Start),
        shown.title@ == Filter::Unread.name(),
        shown.article_filter@ == Filter::Unread.name(),
{
    let title = Filter::Unread.to_string();
    board(store, Filter::Unread, title.as_str())
}

/// The latest favourite articles, under the heading "favorites".
pub fn favorites(store: &Storage) -> (shown: ArticleBoard)
    ensures
        shown.list() == article_page(store@, Filter::Favorite, Mark::Start),
        shown.title@ == "favorites"@,
        shown.article_filter@ == Filter::Favorite.name(),
{
    board(store, Filter::Favorite, "favorites")
}

/// The latest articles that were read, under the heading "history".
pub fn history(store: &Storage) -> (shown: ArticleBoard)
    ensures
        shown.list() == article_page(store@, Filter::Read, Mark::Start),
        shown.title@ == "history"@,
        shown.article_filter@ == Filter::Read.name(),
{
    board(store, Filter::Read, "history")
}

/// The latest feeds.
pub fn feeds(store: &Storage) -> (list: FeedList)
    ensures
        list@ == feed_page(store@, Mark::Start),
{
    let page = store.get_feeds(&Token::Start);
    FeedList { cursor: page.cursor, feeds: page.items }
}

/// Follows a new feed as of `now` and shows the latest feeds. A URL that is
/// followed already is refused with `DuplicateFeed`, and nothing changes.
pub fn create_feed(
    store: &mut Storage,
    feed_name: String,
    site_url: String,
    feed_url: String,
    now: String,
) -> (r: Result<FeedList, Error>)
    requires
        old(store).wf(),
    ensures
        final(store).wf(),
        match r {
            Ok(list) => {
                &&& !holds(feed_keys(old(store)@.feeds), feed_address(feed_url@))
                &&& final(store)@ == (StorageView {
                    feeds: with_feed(
                        old(store)@.feeds,
                        new_feed(feed_name@, site_url@, feed_url@, now@),
                    ),
                    ..old(store)@
                })
                &&& list@ == feed_page(final(store)@, Mark::Start)
            },
            Err(e) => {
                &&& holds(feed_keys(old(store)@.feeds), feed_address(feed_url@))
                &&& e == Error::DuplicateFeed
                &&& final(store)@ == old(store)@
            },
        },
{
    match store.add_feed_at(feed_name, site_url, feed_url, now) {
        Ok(_) => Ok(feeds(store)),
        Err(e) => Err(e),
    }
}

/// Stops following the feed with identifier `id`, if there is one, and
/// shows the page of feeds that follows the token `pagination`.
pub fn delete_feed(store: &mut Storage, id: &str, pagination: &str) -> (list: FeedList)
    requires
        old(store).wf(),
    ensures
        final(store).wf(),
        final(store)@ == (StorageView {
            feeds: without_feed(old(store)@.feeds, id@),
            ..old(store)@
        }),
        list@ == feed_page(final(store)@, token_of(pagination@)),
{
    store.delete_feed(id);
    feed_list(store, pagination)
}

/// Refreshes the feed with identifier `id` at `now` from the entries that
/// were fetched for it, and shows the page of feeds that follows the token
/// `pagination`. No such feed gives `NotFound`; a document that could not be
/// fetched or read gives the reason; either way nothing changes.
pub fn refresh_feed(
    store: &mut Storage,
    id: &str,
    fetched: Result<Vec<SourceEntry>, Error>,
    now: String,
    pagination: &str,
) -> (r: Result<FeedList, Error>)
    requires
        old(store).wf(),
    ensures
        final(store).wf(),
        match r {
            Ok(list) => {
                &&& holds(feed_keys(old(store)@.feeds), id@)
                &&& refresh_outcome(fetched_entries(fetched)) is Ok
                &&& final(store)@ == refreshed(
                    old(store)@,
                    old(store)@.feeds[position_of(feed_keys(old(store)@.feeds), id@)],
                    fetched_entries(fetched),
                    now@,
                )
                &&& list@ == feed_page(final(store)@, token_of(pagination@))
            },
            Err(e) => {
                &&& final(store)@ == old(store)@
                &&& if holds(feed_keys(old(store)@.feeds), id@) {
                    refresh_outcome(fetched_entries(fetched)) == Err::<(), Error>(e)
                } else {
                    e == Error::NotFound
                }
            },
        },
{
    let feed = match store.get_feed_by_id(id) {
        Ok(feed) => feed,
        Err(e) => {
            return Err(e);
        },
    };
    match refresh_at(store, &feed, fetched, now) {
        Ok(_) => Ok(feed_list(store, pagination)),
        Err(e) => Err(e),
    }
}

/// Marks the article with identifier `article_id` as read at `now`, and
/// shows the page behind the token `pagination` of the articles under the
/// filter named `article_filter`. No such article gives `NotFound`, and
/// nothing changes. A text that names no filter gives `UnknownFilter`; the
/// article has been marked by then.
pub fn mark_article_read(
    store: &mut Storage,
    article_id: &str,
    now: String,
    pagination: &str,
    article_filter: &str,
) -> (r: Result<ArticleList, Error>)
    requires
        old(store).wf(),
    ensures
        final(store).wf(),
        final(store)@ == (StorageView {
            articles: with_read(old(store)@.articles, article_id@, now@),
            ..old(store)@
        }),
        match r {
            Ok(list) => {
                &&& holds(article_keys(old(store)@.articles), article_id@)
                &&& named_filter(article_filter@) matches Some(filter)
                &&& list@ == article_page(final(store)@, filter, token_of(pagination@))
            },
            Err(e) => if holds(article_keys(old(store)@.articles), article_id@) {
                named_filter(article_filter@) is None && e == Error::UnknownFilter
            } else {
                e == Error::NotFound
            },
        },
{
    let article = match store.get_article_by_id(article_id) {
        Ok(article) => article,
        Err(e) => {
            return Err(e);
        },
    };
    proof {
        lemma_position_of(article_keys(store@.articles), article_id@);
    }
    store.mark_article_read_at(article.id.as_str(), now);
    let filter = match Filter::from_str(article_filter) {
        Ok(filter) => filter,
        Err(e) => {
            return Err(e);
        },
    };
    Ok(article_list(store, filter, pagination))
}

/// Makes the article with identifier `article_id` a favourite, or no
/// favourite if it was one, and shows the page behind the token `pagination`
/// of the articles under the filter named `article_filter`. Where there is
/// no such article nothing changes, and the page is shown all the same. A
/// text that names no filter gives `UnknownFilter`; the article has been
/// changed by then.
pub fn mark_article_favorite(
    store: &mut Storage,
    article_id: &str,
    pagination: &str,
    article_filter: &str,
) -> (r: Result<ArticleList, Error>)
    requires
        old(store).wf(),
    ensures
        final(store).wf(),
        final(store)@ == (StorageView {
            articles: with_favorite_toggled(old(store)@.articles, article_id@),
            ..old(store)@
        }),
        match r {
            Ok(list) => {
                &&& named_filter(article_filter@) matches Some(filter)
                &&& list@ == article_page(final(store)@, filter, token_of(pagination@))
            },
            Err(e) => named_filter(article_filter@) is None && e == Error::UnknownFilter,
        },
{
    store.mark_article_favorite(article_id);
    let filter = match Filter::from_str(article_filter) {
        Ok(filter) => filter,
        Err(e) => {
            return Err(e);
        },
    };
    Ok(article_list(store, filter, pagination))
}

/// The page behind the token `pagination` of the articles under the filter
/// named `article_filter`. A text that names no filter gives `UnknownFilter`.
pub fn get_articles(
    store: &Storage,
    pagination: &str,
    article_filter: &str,
) -> (r: Result<ArticleList, Error>)
    ensures
        match r {
            Ok(list) => {
                &&& named_filter(article_filter@) matches Some(filter)
                &&& list@ == article_page(store@, filter, token_of(pagination@))
            },
            Err(e) => named_filter(article_filter@) is None && e == Error::UnknownFilter,
        },
{
    let filter = match Filter::from_str(article_filter) {
        Ok(filter) => filter,
        Err(e) => {
            return Err(e);
        },
    };
    Ok(article_list(store, filter, pagination))
}

} // verus!
