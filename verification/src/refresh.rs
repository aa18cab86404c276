//! Refreshing a feed: from the entries of the document that was fetched to
//! the articles in the catalog and the feed's new stamp.

use vstd::prelude::*;
use crate::dates::is_utc_millis_timestamp;
use crate::dates::utc_now_rfc3339_millis;
use crate::error::Error;
use crate::model::article_of_entry;
use crate::model::article_views;
use crate::model::Article;
use crate::model::ArticleView;
use crate::model::Feed;
use crate::model::FeedView;
use crate::source::SourceEntry;
use crate::source::SourceEntryView;
use crate::store::with_articles;
use crate::store::with_last_updated;
use crate::store::Storage;
use crate::store::StorageView;

verus! {

/// The contents of a list of entries.
pub open spec fn entry_views(entries: Seq<SourceEntry>) -> Seq<SourceEntryView> {
    entries.map_values(|e: SourceEntry| e@)
}

/// The article that an entry becomes in the feed named `feed_name`.
pub open spec fn harvested(feed_name: Seq<char>, entry: SourceEntryView) -> ArticleView {
    ArticleView { feed: feed_name, ..article_of_entry(entry) }
}

/// The articles that a document's entries become in the feed named
/// `feed_name`, in document order.
pub open spec fn harvest(feed_name: Seq<char>, entries: Seq<SourceEntryView>) -> Seq<ArticleView> {
    entries.map_values(|e: SourceEntryView| harvested(feed_name, e))
}

/// What was fetched for a refresh: the entries of the feed's document, or
/// the reason why there are none.
pub open spec fn fetched_entries(fetched: Result<Vec<SourceEntry>, Error>) -> Result<
    Seq<SourceEntryView>,
    Error,
> {
    match fetched {
        Ok(entries) => Ok(entry_views(entries@)),
        Err(e) => Err(e),
    }
}

/// How a refresh ends: with the reason for which the document could not be
/// fetched or read, and well otherwise.
pub open spec fn refresh_outcome(fetched: Result<Seq<SourceEntryView>, Error>) -> Result<
    (),
    Error,
> {
    match fetched {
        Err(e) => Err(e),
        Ok(_) => Ok(()),
    }
}

/// The catalog after a refresh of `feed` at `now`. A refresh that fails
/// changes nothing. One that succeeds adds the document's articles and
/// stamps the feed, whether or not any article was new.
pub open spec fn refreshed(
    catalog: StorageView,
    feed: FeedView,
    fetched: Result<Seq<SourceEntryView>, Error>,
    now: Seq<char>,
) -> StorageView {
    match fetched {
        Err(_) => catalog,
        Ok(entries) => StorageView {
            feeds: with_last_updated(catalog.feeds, feed.id, now),
            articles: with_articles(catalog.articles, harvest(feed.name, entries)),
            ..catalog
        },
    }
}

/// Makes the article that an entry becomes in the feed named `feed_name`.
pub fn article_from_entry(feed_name: &str, entry: &SourceEntry) -> (article: Article)
    ensures
        article@ == harvested(feed_name@, entry@),
{
    let mut article = Article::from_entry(entry);
    article.feed = String::from_str(feed_name);
    article
}

/// Makes the articles that the given entries become in the feed named
/// `feed_name`, in the order of the entries.
pub fn articles_from_entries(
    feed_name: &str,
    entries: &Vec<SourceEntry>,
) -> (articles: Vec<Article>)
    ensures
        article_views(articles@) == harvest(feed_name@, entry_views(entries@)),
{
    let mut articles: Vec<Article> = Vec::new();
    let mut at: usize = 0;
    while at < entries.len()
        invariant
            0 <= at <= entries.len(),
            articles@.len() == at,
            forall|i: int|
                0 <= i < at ==> (#[trigger] articles@[i])@ == harvested(feed_name@, entries@[i]@),
        decreases entries.len() - at,
    {
        articles.push(article_from_entry(feed_name, &entries[at]));
        at = at + 1;
    }
    assert(article_views(articles@) =~= harvest(feed_name@, entry_views(entries@)));
    articles
}

/// Refreshes `feed` at `now` from what was fetched for it. Where the
/// document could not be fetched or read the refresh ends with the reason
/// and changes nothing. Otherwise the articles of its entries are added and
/// the feed is stamped with `now`, also where no article was new.
pub fn refresh_at(
    store: &mut Storage,
    feed: &Feed,
    fetched: Result<Vec<SourceEntry>, Error>,
    now: String,
) -> (r: Result<(), Error>)
    requires
        old(store).wf(),
    ensures
        final(store).wf(),
        r == refresh_outcome(fetched_entries(fetched)),
        final(store)@ == refreshed(old(store)@, feed@, fetched_entries(fetched), now@),
{
    let entries = match fetched {
        Ok(entries) => entries,
        Err(e) => {
            return Err(e);
        },
    };
    let articles = articles_from_entries(feed.name.as_str(), &entries);
    store.add_articles(&articles);
    store.update_feed_last_updated(now, feed.id.as_str());
    Ok(())
}

/// Refreshes `feed` now from what was fetched for it. Where the document
/// could not be fetched or read the refresh ends with the reason and changes
/// nothing. Otherwise the articles of its entries are added and the feed is
/// stamped with the time the clock gives, a UTC timestamp with milliseconds,
/// also where no article was new.
pub fn refresh(
    store: &mut Storage,
    feed: &Feed,
    fetched: Result<Vec<SourceEntry>, Error>,
) -> (r: Result<(), Error>)
    requires
        old(store).wf(),
    ensures
        final(store).wf(),
        r == refresh_outcome(fetched_entries(fetched)),
        r is Err ==> final(store)@ == old(store)@,
        r is Ok ==> exists|now: Seq<char>|
            is_utc_millis_timestamp(now) && final(store)@ == refreshed(
                old(store)@,
                feed@,
                fetched_entries(fetched),
                now,
            ),
{
    let now = utc_now_rfc3339_millis();
    refresh_at(store, feed, fetched, now)
}

} // verus!
