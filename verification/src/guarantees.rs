//! What holds of the catalog across its operations: listings are complete,
//! adding articles again changes nothing, and a refresh that fails leaves no
//! trace.

use vstd::prelude::*;
use crate::catalog::holds;
use crate::catalog::lemma_insert_keeps_order;
use crate::catalog::ordered;
use crate::catalog::lemma_position_of;
use crate::catalog::position_of;
use crate::catalog::rank_of;
use crate::cursor::descending;
use crate::cursor::key_below;
use crate::cursor::lemma_first_behind;
use crate::cursor::Key;
use crate::cursor::Mark;
use crate::error::Error;
use crate::filter::Filter;
use crate::model::article_keys;
use crate::model::feed_keys;
use crate::model::ArticleView;
use crate::model::FeedView;
use crate::refresh::harvest;
use crate::refresh::refresh_outcome;
use crate::refresh::refreshed;
use crate::source::SourceEntryView;
use crate::store::matching;
use crate::store::with_article;
use crate::store::with_articles;
use crate::store::with_favorite_toggled;
use crate::store::with_read;
use crate::store::StorageView;
use crate::walk::walk;
use crate::walk::walk_is_complete;

verus! {

/// Walking the feeds from the top, page by page, until a page says that
/// nothing is left meets every feed of the catalog exactly once, the one
/// added last first.
pub proof fn every_feed_is_listed_once(catalog: StorageView)
    requires
        catalog.wf(),
    ensures
        walk(catalog.feeds, feed_keys(catalog.feeds), Mark::Start, catalog.page_size as int)
            == catalog.feeds,
{
    walk_is_complete(catalog.feeds, feed_keys(catalog.feeds), catalog.page_size as int);
}

/// The articles under a filter are in listing order, as the whole catalog is.
pub proof fn lemma_matching_keeps_order(articles: Seq<ArticleView>, filter: Filter)
    requires
        descending(article_keys(articles)),
    ensures
        descending(article_keys(matching(articles, filter))),
        forall|i: int|
            0 <= i < matching(articles, filter).len() ==> articles.contains(
                #[trigger] matching(articles, filter)[i],
            ),
    decreases articles.len(),
{
    let listed = |a: ArticleView| filter.admits(a.read, a.favorited);
    let chosen = matching(articles, filter);
    if articles.len() > 0 {
        let front = articles.drop_last();
        let last = articles.last();
        assert forall|i: int, j: int| 0 <= i < j < front.len() implies key_below(
            #[trigger] article_keys(front)[j],
            #[trigger] article_keys(front)[i],
        ) by {
            assert(article_keys(front)[j] == article_keys(articles)[j]);
            assert(article_keys(front)[i] == article_keys(articles)[i]);
        }
        lemma_matching_keeps_order(front, filter);
        let before = matching(front, filter);
        assert(chosen == articles.filter(listed));
        assert(before == front.filter(listed));
        assert(articles =~= front.push(last));
        front.lemma_filter_push(last, listed);
        assert forall|i: int| 0 <= i < chosen.len() implies articles.contains(
            #[trigger] chosen[i],
        ) by {
            if i < before.len() {
                assert(front.contains(before[i]));
                let k = choose|k: int| 0 <= k < front.len() && front[k] == before[i];
                assert(articles[k] == chosen[i]);
            } else {
                assert(articles[articles.len() - 1] == chosen[i]);
            }
        }
        assert forall|i: int, j: int| 0 <= i < j < chosen.len() implies key_below(
            #[trigger] article_keys(chosen)[j],
            #[trigger] article_keys(chosen)[i],
        ) by {
            if j < before.len() {
                assert(article_keys(before)[j] == article_keys(chosen)[j]);
                assert(article_keys(before)[i] == article_keys(chosen)[i]);
            } else {
                assert(chosen[j] == last);
                assert(front.contains(before[i]));
                let k = choose|k: int| 0 <= k < front.len() && front[k] == before[i];
                assert(article_keys(articles)[k] == chosen[i].key());
                assert(article_keys(articles)[articles.len() - 1] == last.key());
            }
        }
    }
}

/// Walking the articles under a filter from the top, page by page, until a
/// page says that nothing is left meets every article that the filter lists
/// exactly once, the latest first.
pub proof fn every_matching_article_is_listed_once(catalog: StorageView, filter: Filter)
    requires
        catalog.wf(),
    ensures
        walk(
            matching(catalog.articles, filter),
            article_keys(matching(catalog.articles, filter)),
            Mark::Start,
            catalog.page_size as int,
        ) == matching(catalog.articles, filter),
{
    lemma_matching_keeps_order(catalog.articles, filter);
    walk_is_complete(
        matching(catalog.articles, filter),
        article_keys(matching(catalog.articles, filter)),
        catalog.page_size as int,
    );
}

/// An article is listed as unread exactly if it is not listed as read;
/// whether it is a favourite has no part in either.
pub proof fn unread_is_the_opposite_of_read(read: bool, favorited: bool)
    ensures
        Filter::Unread.admits(read, favorited) == !Filter::Read.admits(read, favorited),
        Filter::Read.admits(read, favorited) == read,
        Filter::Favorite.admits(read, favorited) == favorited,
{
}

/// After an article has been added the catalog holds its identifier, and
/// every identifier that it held before.
pub proof fn lemma_with_article_holds(articles: Seq<ArticleView>, article: ArticleView)
    ensures
        holds(article_keys(with_article(articles, article)), article.id),
        forall|id: Seq<char>|
            holds(article_keys(articles), id) ==> holds(
                #[trigger] article_keys(with_article(articles, article)),
                id,
            ),
{
    let keys = article_keys(articles);
    if !holds(keys, article.id) {
        let at = rank_of(keys, article.key());
        lemma_first_behind(keys, Mark::After(article.key()), 0);
        let after = article_keys(with_article(articles, article));
        assert(after =~= keys.insert(at, article.key()));
        lemma_position_of(after, article.id);
        assert(after[at].id == article.id);
        assert forall|id: Seq<char>| holds(keys, id) implies holds(after, id) by {
            lemma_position_of(keys, id);
            lemma_position_of(after, id);
            let i = position_of(keys, id);
            if i < at {
                assert(after[i].id == id);
            } else {
                assert(after[i + 1].id == id);
            }
        }
    }
}

/// After a batch has been added the catalog holds the identifier of each of
/// its articles, and every identifier that it held before.
pub proof fn lemma_with_articles_holds(articles: Seq<ArticleView>, batch: Seq<ArticleView>)
    ensures
        forall|i: int|
            0 <= i < batch.len() ==> holds(
                article_keys(with_articles(articles, batch)),
                (#[trigger] batch[i]).id,
            ),
        forall|id: Seq<char>|
            holds(article_keys(articles), id) ==> holds(
                #[trigger] article_keys(with_articles(articles, batch)),
                id,
            ),
    decreases batch.len(),
{
    if batch.len() > 0 {
        let next = with_article(articles, batch[0]);
        lemma_with_article_holds(articles, batch[0]);
        lemma_with_articles_holds(next, batch.drop_first());
        let after = article_keys(with_articles(articles, batch));
        assert forall|i: int| 0 <= i < batch.len() implies holds(after, (#[trigger] batch[i]).id) by {
            if i > 0 {
                assert(batch.drop_first()[i - 1] == batch[i]);
            }
        }
    }
}

/// Adding articles whose identifiers the catalog holds already changes
/// nothing: each stored article stays as it is, with what the reader did to
/// it.
pub proof fn known_articles_change_nothing(articles: Seq<ArticleView>, batch: Seq<ArticleView>)
    requires
        forall|i: int| 0 <= i < batch.len() ==> holds(article_keys(articles), (#[trigger] batch[i]).id),
    ensures
        with_articles(articles, batch) == articles,
    decreases batch.len(),
{
    if batch.len() > 0 {
        assert forall|i: int| 0 <= i < batch.drop_first().len() implies holds(
            article_keys(articles),
            (#[trigger] batch.drop_first()[i]).id,
        ) by {
            assert(batch.drop_first()[i] == batch[i + 1]);
        }
        known_articles_change_nothing(articles, batch.drop_first());
    }
}

/// Adding the same articles a second time leaves the catalog as the first
/// time left it.
pub proof fn adding_twice_is_adding_once(articles: Seq<ArticleView>, batch: Seq<ArticleView>)
    ensures
        with_articles(with_articles(articles, batch), batch) == with_articles(articles, batch),
{
    lemma_with_articles_holds(articles, batch);
    known_articles_change_nothing(with_articles(articles, batch), batch);
}

/// What the reader did between two arrivals of the same articles stays: an
/// article that was marked as read, or whose favourite state was changed,
/// after the first arrival is untouched by the second.
pub proof fn adding_again_keeps_what_the_reader_did(
    articles: Seq<ArticleView>,
    batch: Seq<ArticleView>,
    id: Seq<char>,
    at: Seq<char>,
)
    ensures
        with_articles(with_read(with_articles(articles, batch), id, at), batch) == with_read(
            with_articles(articles, batch),
            id,
            at,
        ),
        with_articles(with_favorite_toggled(with_articles(articles, batch), id), batch)
            == with_favorite_toggled(with_articles(articles, batch), id),
{
    let first = with_articles(articles, batch);
    lemma_with_articles_holds(articles, batch);
    lemma_position_of(article_keys(first), id);
    let read = with_read(first, id, at);
    let toggled = with_favorite_toggled(first, id);
    assert(article_keys(read).map_values(|k: Key| k.id) =~= article_keys(first).map_values(
        |k: Key| k.id,
    ));
    assert(article_keys(toggled).map_values(|k: Key| k.id) =~= article_keys(first).map_values(
        |k: Key| k.id,
    ));
    assert forall|i: int| 0 <= i < batch.len() implies holds(
        article_keys(read),
        (#[trigger] batch[i]).id,
    ) && holds(article_keys(toggled), batch[i].id) by {
        lemma_same_ids_hold_the_same(article_keys(first), article_keys(read), batch[i].id);
        lemma_same_ids_hold_the_same(article_keys(first), article_keys(toggled), batch[i].id);
    }
    known_articles_change_nothing(read, batch);
    known_articles_change_nothing(toggled, batch);
}

/// Two catalogs with the same identifiers at the same places hold the same
/// identifiers.
pub proof fn lemma_same_ids_hold_the_same(a: Seq<Key>, b: Seq<Key>, id: Seq<char>)
    requires
        a.map_values(|k: Key| k.id) == b.map_values(|k: Key| k.id),
    ensures
        holds(a, id) == holds(b, id),
        position_of(a, id) == position_of(b, id),
{
    lemma_position_of(a, id);
    lemma_position_of(b, id);
    let ids_a = a.map_values(|k: Key| k.id);
    let ids_b = b.map_values(|k: Key| k.id);
    assert(a.len() == ids_a.len() && b.len() == ids_b.len());
    assert forall|i: int| 0 <= i < a.len() implies (#[trigger] a[i]).id == b[i].id by {
        assert(ids_a[i] == a[i].id);
        assert(ids_b[i] == b[i].id);
    }
    let p = position_of(a, id);
    let q = position_of(b, id);
    if p < q {
        assert(a[p].id == b[p].id);
    }
    if q < p {
        assert(a[q].id == b[q].id);
    }
}

/// A refresh that fails, because the document could not be fetched or
/// because it could not be read, leaves the catalog as it was: no article is
/// added and no feed is stamped.
pub proof fn failed_refresh_changes_nothing(
    catalog: StorageView,
    feed: FeedView,
    fetched: Result<Seq<SourceEntryView>, Error>,
    now: Seq<char>,
)
    requires
        refresh_outcome(fetched) is Err,
    ensures
        refreshed(catalog, feed, fetched, now) == catalog,
{
}

/// A refresh stamps its own feed and no other: every feed of the catalog
/// stays at its place, the refreshed one has the new stamp where the refresh
/// went well, and each other feed is as it was.
pub proof fn refresh_stamps_its_feed_only(
    catalog: StorageView,
    feed: FeedView,
    fetched: Result<Seq<SourceEntryView>, Error>,
    now: Seq<char>,
    at: int,
)
    requires
        catalog.wf(),
        0 <= at < catalog.feeds.len(),
    ensures
        refreshed(catalog, feed, fetched, now).feeds.len() == catalog.feeds.len(),
        catalog.feeds[at].id != feed.id ==> refreshed(catalog, feed, fetched, now).feeds[at]
            == catalog.feeds[at],
        catalog.feeds[at].id == feed.id ==> refreshed(catalog, feed, fetched, now).feeds[at] == (
        if refresh_outcome(fetched) is Ok {
            FeedView { last_updated: now, ..catalog.feeds[at] }
        } else {
            catalog.feeds[at]
        }),
{
    let keys = feed_keys(catalog.feeds);
    lemma_position_of(keys, feed.id);
    assert(keys[at].id == catalog.feeds[at].id);
    if refresh_outcome(fetched) is Ok && holds(keys, feed.id) {
        let position = position_of(keys, feed.id);
        assert(keys[position].id == catalog.feeds[position].id);
    }
}

/// Adding an article leaves the articles in listing order, each identifier
/// once.
pub proof fn lemma_with_article_keeps_order(articles: Seq<ArticleView>, article: ArticleView)
    requires
        ordered(article_keys(articles)),
    ensures
        ordered(article_keys(with_article(articles, article))),
{
    let keys = article_keys(articles);
    if !holds(keys, article.id) {
        lemma_insert_keeps_order(keys, article.key());
        assert(article_keys(with_article(articles, article)) =~= keys.insert(
            rank_of(keys, article.key()),
            article.key(),
        ));
    }
}

/// Adding a batch leaves the articles in listing order, each identifier
/// once.
pub proof fn lemma_with_articles_keeps_order(articles: Seq<ArticleView>, batch: Seq<ArticleView>)
    requires
        ordered(article_keys(articles)),
    ensures
        ordered(article_keys(with_articles(articles, batch))),
    decreases batch.len(),
{
    if batch.len() > 0 {
        lemma_with_article_keeps_order(articles, batch[0]);
        lemma_with_articles_keeps_order(with_article(articles, batch[0]), batch.drop_first());
    }
}

/// A refresh leaves the catalog in order, with every feed at its place and
/// under its key.
pub proof fn lemma_refresh_keeps_the_catalog(
    catalog: StorageView,
    feed: FeedView,
    fetched: Result<Seq<SourceEntryView>, Error>,
    now: Seq<char>,
)
    requires
        catalog.wf(),
    ensures
        refreshed(catalog, feed, fetched, now).wf(),
        feed_keys(refreshed(catalog, feed, fetched, now).feeds) == feed_keys(catalog.feeds),
        refreshed(catalog, feed, fetched, now).page_size == catalog.page_size,
{
    let after = refreshed(catalog, feed, fetched, now);
    if refresh_outcome(fetched) is Ok {
        let entries = fetched->Ok_0;
        lemma_with_articles_keeps_order(catalog.articles, harvest(feed.name, entries));
        lemma_position_of(feed_keys(catalog.feeds), feed.id);
        assert(feed_keys(after.feeds) =~= feed_keys(catalog.feeds));
    }
}

/// The catalog after the feeds of `feeds` from position `from` on have been
/// refreshed in turn: feed `i` from `documents[i]`, at the time `stamps[i]`.
pub open spec fn refreshed_in_turn(
    catalog: StorageView,
    feeds: Seq<FeedView>,
    documents: Seq<Result<Seq<SourceEntryView>, Error>>,
    stamps: Seq<Seq<char>>,
    from: int,
) -> StorageView
    decreases feeds.len() - from,
{
    if from < 0 || from >= feeds.len() {
        catalog
    } else {
        refreshed_in_turn(
            refreshed(catalog, feeds[from], documents[from], stamps[from]),
            feeds,
            documents,
            stamps,
            from + 1,
        )
    }
}

/// Refreshing the feeds from position `from` on leaves the feeds before it
/// as they are, and stamps of the others those whose refresh went well.
pub proof fn lemma_refreshed_in_turn(
    catalog: StorageView,
    feeds: Seq<FeedView>,
    documents: Seq<Result<Seq<SourceEntryView>, Error>>,
    stamps: Seq<Seq<char>>,
    from: int,
)
    requires
        catalog.wf(),
        0 <= from <= feeds.len(),
        feeds.len() == catalog.feeds.len(),
        documents.len() == feeds.len(),
        stamps.len() == feeds.len(),
        feed_keys(feeds) == feed_keys(catalog.feeds),
    ensures
        refreshed_in_turn(catalog, feeds, documents, stamps, from).wf(),
        refreshed_in_turn(catalog, feeds, documents, stamps, from).feeds.len() == feeds.len(),
        forall|i: int|
            0 <= i < feeds.len() ==> #[trigger] refreshed_in_turn(
                catalog,
                feeds,
                documents,
                stamps,
                from,
            ).feeds[i] == (if i >= from && refresh_outcome(documents[i]) is Ok {
                FeedView { last_updated: stamps[i], ..catalog.feeds[i] }
            } else {
                catalog.feeds[i]
            }),
    decreases feeds.len() - from,
{
    if from < feeds.len() {
        let next = refreshed(catalog, feeds[from], documents[from], stamps[from]);
        lemma_refresh_keeps_the_catalog(catalog, feeds[from], documents[from], stamps[from]);
        assert(feed_keys(feeds)[from] == feeds[from].key());
        assert(feed_keys(catalog.feeds)[from] == catalog.feeds[from].key());
        assert(feeds[from].id == catalog.feeds[from].id);
        assert forall|i: int| 0 <= i < feeds.len() implies #[trigger] next.feeds[i] == (if i
            == from && refresh_outcome(documents[from]) is Ok {
            FeedView { last_updated: stamps[from], ..catalog.feeds[i] }
        } else {
            catalog.feeds[i]
        }) by {
            refresh_stamps_its_feed_only(catalog, feeds[from], documents[from], stamps[from], i);
            if i != from {
                assert(feed_keys(catalog.feeds)[i].id != feed_keys(catalog.feeds)[from].id);
            }
        }
        lemma_refreshed_in_turn(next, feeds, documents, stamps, from + 1);
    }
}

/// A sweep that refreshes every feed of the catalog once stamps exactly the
/// feeds whose refresh went well, each with the time of its own refresh.
/// A feed whose document could not be fetched or read keeps the stamp it
/// had, and holds up no other feed.
pub proof fn a_sweep_stamps_the_feeds_that_went_well(
    catalog: StorageView,
    documents: Seq<Result<Seq<SourceEntryView>, Error>>,
    stamps: Seq<Seq<char>>,
)
    requires
        catalog.wf(),
        documents.len() == catalog.feeds.len(),
        stamps.len() == catalog.feeds.len(),
    ensures
        refreshed_in_turn(catalog, catalog.feeds, documents, stamps, 0).wf(),
        refreshed_in_turn(catalog, catalog.feeds, documents, stamps, 0).feeds.len()
            == catalog.feeds.len(),
        forall|i: int|
            0 <= i < catalog.feeds.len() ==> #[trigger] refreshed_in_turn(
                catalog,
                catalog.feeds,
                documents,
                stamps,
                0,
            ).feeds[i] == (if refresh_outcome(documents[i]) is Ok {
                FeedView { last_updated: stamps[i], ..catalog.feeds[i] }
            } else {
                catalog.feeds[i]
            }),
{
    lemma_refreshed_in_turn(catalog, catalog.feeds, documents, stamps, 0);
}

} // verus!
