//! The catalog of feeds and articles, and what each operation on it does.

use vstd::prelude::*;
use crate::catalog::find;
use crate::catalog::holds;
use crate::catalog::lemma_insert_keeps_order;
use crate::catalog::lemma_remove_keeps_order;
use crate::catalog::ordered;
use crate::catalog::position_of;
use crate::catalog::rank;
use crate::catalog::rank_of;
use crate::cursor::keys_of;
use crate::cursor::listing;
use crate::cursor::page_of;
use crate::cursor::page_start;
use crate::cursor::Listing;
use crate::cursor::Page;
use crate::cursor::Token;
use crate::dates::is_utc_millis_timestamp;
use crate::dates::utc_now_rfc3339_millis;
use crate::error::Error;
use crate::filter::Filter;
use crate::ident::feed_address;
use crate::model::article_keys;
use crate::model::article_views;
use crate::model::feed_keys;
use crate::model::feed_views;
use crate::model::new_feed;
use crate::model::Article;
use crate::model::ArticleView;
use crate::model::Feed;
use crate::model::FeedView;

verus! {

/// The number of records on a page unless another is asked for.
pub const DEFAULT_PAGE_SIZE: usize = 10;

/// The contents of a `Storage`: its feeds and its articles, each in listing
/// order, and the number of records it puts on a page.
pub ghost struct StorageView {
    pub feeds: Seq<FeedView>,
    pub articles: Seq<ArticleView>,
    pub page_size: nat,
}

impl StorageView {
    /// Whether this is a catalog: feeds and articles each in listing order
    /// with every identifier once, and pages that hold at least one record.
    pub open spec fn wf(self) -> bool {
        &&& self.page_size > 0
        &&& ordered(feed_keys(self.feeds))
        &&& ordered(article_keys(self.articles))
    }
}

/// The feeds after `feed` has been added: unchanged where a feed with its
/// identifier is there already, else with `feed` at its place in the listing.
pub open spec fn with_feed(feeds: Seq<FeedView>, feed: FeedView) -> Seq<FeedView> {
    if holds(feed_keys(feeds), feed.id) {
        feeds
    } else {
        feeds.insert(rank_of(feed_keys(feeds), feed.key()), feed)
    }
}

/// The feeds after the one with identifier `id` has been deleted.
pub open spec fn without_feed(feeds: Seq<FeedView>, id: Seq<char>) -> Seq<FeedView> {
    if holds(feed_keys(feeds), id) {
        feeds.remove(position_of(feed_keys(feeds), id))
    } else {
        feeds
    }
}

/// The feeds after the one with identifier `id` has been stamped as
/// refreshed at `at`.
pub open spec fn with_last_updated(feeds: Seq<FeedView>, id: Seq<char>, at: Seq<char>) -> Seq<
    FeedView,
> {
    if holds(feed_keys(feeds), id) {
        let position = position_of(feed_keys(feeds), id);
        feeds.update(position, FeedView { last_updated: at, ..feeds[position] })
    } else {
        feeds
    }
}

/// The articles after `article` has been added: unchanged where an article
/// with its identifier is there already, else with `article` at its place in
/// the listing.
pub open spec fn with_article(articles: Seq<ArticleView>, article: ArticleView) -> Seq<
    ArticleView,
> {
    if holds(article_keys(articles), article.id) {
        articles
    } else {
        articles.insert(rank_of(article_keys(articles), article.key()), article)
    }
}

/// The articles after each article of `batch` has been added in turn.
pub open spec fn with_articles(articles: Seq<ArticleView>, batch: Seq<ArticleView>) -> Seq<
    ArticleView,
>
    decreases batch.len(),
{
    if batch.len() == 0 {
        articles
    } else {
        with_articles(with_article(articles, batch[0]), batch.drop_first())
    }
}

/// The articles after the one with identifier `id` has been marked as read
/// at `at`.
pub open spec fn with_read(articles: Seq<ArticleView>, id: Seq<char>, at: Seq<char>) -> Seq<
    ArticleView,
> {
    if holds(article_keys(articles), id) {
        let position = position_of(article_keys(articles), id);
        articles.update(position, ArticleView { read: true, read_date: at, ..articles[position] })
    } else {
        articles
    }
}

/// The articles after the one with identifier `id` has changed from
/// favourite to not, or from not to favourite.
pub open spec fn with_favorite_toggled(articles: Seq<ArticleView>, id: Seq<char>) -> Seq<
    ArticleView,
> {
    if holds(article_keys(articles), id) {
        let position = position_of(article_keys(articles), id);
        articles.update(
            position,
            ArticleView { favorited: !articles[position].favorited, ..articles[position] },
        )
    } else {
        articles
    }
}

/// The articles that are listed under `filter`, in listing order.
pub open spec fn matching(articles: Seq<ArticleView>, filter: Filter) -> Seq<ArticleView> {
    articles.filter(|a: ArticleView| filter.admits(a.read, a.favorited))
}

/// What a page of feeds holds.
pub open spec fn feed_listing(page: Page<Feed>) -> Listing<FeedView> {
    Listing {
        items: feed_views(page.items@),
        has_next: page.cursor.has_next,
        next: page.cursor.next@,
    }
}

/// What a page of articles holds.
pub open spec fn article_listing(page: Page<Article>) -> Listing<ArticleView> {
    Listing {
        items: article_views(page.items@),
        has_next: page.cursor.has_next,
        next: page.cursor.next@,
    }
}

/// The keys of a list of feeds are the keys of their contents.
pub proof fn lemma_feed_keys(feeds: Seq<Feed>)
    ensures
        keys_of(feeds) == feed_keys(feed_views(feeds)),
{
    assert(keys_of(feeds) =~= feed_keys(feed_views(feeds)));
}

/// The keys of a list of articles are the keys of their contents.
pub proof fn lemma_article_keys(articles: Seq<Article>)
    ensures
        keys_of(articles) == article_keys(article_views(articles)),
{
    assert(keys_of(articles) =~= article_keys(article_views(articles)));
}

/// The catalog: the feeds that are followed and the articles read from them.
pub struct Storage {
    feeds: Vec<Feed>,
    articles: Vec<Article>,
    page_size: usize,
}

impl View for Storage {
    type V = StorageView;

    closed spec fn view(&self) -> StorageView {
        StorageView {
            feeds: feed_views(self.feeds@),
            articles: article_views(self.articles@),
            page_size: self.page_size as nat,
        }
    }
}

impl Storage {
    /// Whether the catalog is in order.
    pub open spec fn wf(&self) -> bool {
        self@.wf()
    }

    /// An empty catalog with pages of the default size.
    pub fn new() -> (storage: Self)
        ensures
            storage.wf(),
            storage@ == (StorageView {
                feeds: Seq::empty(),
                articles: Seq::empty(),
                page_size: DEFAULT_PAGE_SIZE as nat,
            }),
    {
        let storage = Storage { feeds: Vec::new(), articles: Vec::new(), page_size: DEFAULT_PAGE_SIZE };
        assert(storage@.feeds =~= Seq::empty());
        assert(storage@.articles =~= Seq::empty());
        storage
    }

    /// An empty catalog with pages of `page_size` records; a size of zero is
    /// taken as one.
    pub fn with_page_size(page_size: usize) -> (storage: Self)
        ensures
            storage.wf(),
            storage@ == (StorageView {
                feeds: Seq::empty(),
                articles: Seq::empty(),
                page_size: if page_size == 0 {
                    1nat
                } else {
                    page_size as nat
                },
            }),
    {
        let size: usize = if page_size == 0 {
            1
        } else {
            page_size
        };
        let storage = Storage { feeds: Vec::new(), articles: Vec::new(), page_size: size };
        assert(storage@.feeds =~= Seq::empty());
        assert(storage@.articles =~= Seq::empty());
        storage
    }

    /// The number of feeds in the catalog.
    pub fn feed_count(&self) -> (count: usize)
        ensures
            count == self@.feeds.len(),
    {
        self.feeds.len()
    }

    /// The number of articles in the catalog.
    pub fn article_count(&self) -> (count: usize)
        ensures
            count == self@.articles.len(),
    {
        self.articles.len()
    }

    /// The number of records that the catalog puts on a page.
    pub fn page_size(&self) -> (size: usize)
        ensures
            size == self@.page_size,
    {
        self.page_size
    }

    /// The page of feeds that follows `from`, latest first.
    pub fn get_feeds(&self, from: &Token) -> (page: Page<Feed>)
        ensures
            feed_listing(page) == listing(
                self@.feeds,
                feed_keys(self@.feeds),
                from@,
                self@.page_size as int,
            ),
    {
        proof {
            lemma_feed_keys(self.feeds@);
        }
        let page = page_of(&self.feeds, from, self.page_size);
        let ghost start = page_start(feed_keys(self@.feeds), from@);
        assert forall|i: int| 0 <= i < page.items@.len() implies page.items@[i]
            == self.feeds@[start + i] by {
            assert(cloned(self.feeds@[start + i], page.items@[i]));
        }
        assert(feed_listing(page).items =~= listing(
            self@.feeds,
            feed_keys(self@.feeds),
            from@,
            self@.page_size as int,
        ).items);
        page
    }

    /// The feed with identifier `id`.
    pub fn get_feed_by_id(&self, id: &str) -> (r: Result<Feed, Error>)
        ensures
            match r {
                Ok(feed) => holds(feed_keys(self@.feeds), id@) && feed@ == self@.feeds[position_of(
                    feed_keys(self@.feeds),
                    id@,
                )],
                Err(e) => !holds(feed_keys(self@.feeds), id@) && e == Error::NotFound,
            },
    {
        proof {
            lemma_feed_keys(self.feeds@);
        }
        let position = find(&self.feeds, id);
        if position < self.feeds.len() {
            Ok(self.feeds[position].clone())
        } else {
            Err(Error::NotFound)
        }
    }

    /// Copies of all feeds, in listing order.
    pub fn all_feeds(&self) -> (feeds: Vec<Feed>)
        ensures
            feed_views(feeds@) == self@.feeds,
    {
        let feeds = self.feeds.clone();
        assert(feed_views(feeds@) =~= self@.feeds);
        feeds
    }

    /// Copies of all articles, in listing order.
    pub fn all_articles(&self) -> (articles: Vec<Article>)
        ensures
            article_views(articles@) == self@.articles,
    {
        let articles = self.articles.clone();
        assert(article_views(articles@) =~= self@.articles);
        articles
    }

    /// Puts a feed into the catalog as it is, with the identifier and the
    /// stamps it has, unless the catalog holds a feed with its identifier:
    /// then nothing changes.
    pub fn restore_feed(&mut self, feed: Feed)
        requires
            old(self).wf(),
        ensures
            final(self).wf(),
            final(self)@ == (StorageView { feeds: with_feed(old(self)@.feeds, feed@), ..old(self)@ }),
    {
        proof {
            lemma_feed_keys(self.feeds@);
        }
        let position = find(&self.feeds, feed.id.as_str());
        if position == self.feeds.len() {
            let at = rank(&self.feeds, &feed.date_added, &feed.id);
            proof {
                lemma_insert_keeps_order(feed_keys(self@.feeds), feed@.key());
            }
            self.feeds.insert(at, feed);
            proof {
                assert(self@.feeds =~= old(self)@.feeds.insert(at as int, feed@));
                assert(feed_keys(self@.feeds) =~= feed_keys(old(self)@.feeds).insert(
                    at as int,
                    feed@.key(),
                ));
                assert(self@.articles == old(self)@.articles);
            }
        }
    }

    /// Adds the feed that is read from `feed_url`, as added at `date_added`.
    /// A URL that the catalog follows already is refused, and nothing changes.
    pub fn add_feed_at(
        &mut self,
        name: String,
        site_url: String,
        feed_url: String,
        date_added: String,
    ) -> (r: Result<Feed, Error>)
        requires
            old(self).wf(),
        ensures
            final(self).wf(),
            match r {
                Ok(feed) => {
                    &&& !holds(feed_keys(old(self)@.feeds), feed_address(feed_url@))
                    &&& feed@ == new_feed(name@, site_url@, feed_url@, date_added@)
                    &&& final(self)@ == (StorageView {
                        feeds: with_feed(old(self)@.feeds, feed@),
                        ..old(self)@
                    })
                },
                Err(e) => {
                    &&& holds(feed_keys(old(self)@.feeds), feed_address(feed_url@))
                    &&& e == Error::DuplicateFeed
                    &&& final(self)@ == old(self)@
                },
            },
    {
        let feed = Feed::added_at(name, site_url, feed_url, date_added);
        proof {
            lemma_feed_keys(self.feeds@);
        }
        let position = find(&self.feeds, feed.id.as_str());
        if position < self.feeds.len() {
            return Err(Error::DuplicateFeed);
        }
        let added = feed.clone();
        self.restore_feed(feed);
        Ok(added)
    }

    /// Adds the feed that is read from `feed_url`, as added now: at the time
    /// the clock gives, a UTC timestamp with milliseconds. A URL that the
    /// catalog follows already is refused, and nothing changes.
    pub fn add_feed(
        &mut self,
        name: String,
        site_url: String,
        feed_url: String,
    ) -> (r: Result<Feed, Error>)
        requires
            old(self).wf(),
        ensures
            final(self).wf(),
            match r {
                Ok(feed) => {
                    &&& !holds(feed_keys(old(self)@.feeds), feed_address(feed_url@))
                    &&& feed@ == new_feed(name@, site_url@, feed_url@, feed@.date_added)
                    &&& is_utc_millis_timestamp(feed@.date_added)
                    &&& final(self)@ == (StorageView {
                        feeds: with_feed(old(self)@.feeds, feed@),
                        ..old(self)@
                    })
                },
                Err(e) => {
                    &&& holds(feed_keys(old(self)@.feeds), feed_address(feed_url@))
                    &&& e == Error::DuplicateFeed
                    &&& final(self)@ == old(self)@
                },
            },
    {
        let now = utc_now_rfc3339_millis();
        self.add_feed_at(name, site_url, feed_url, now)
    }

    /// Deletes the feed with identifier `id`; where there is none, nothing
    /// changes. Its articles stay in the catalog.
    pub fn delete_feed(&mut self, id: &str)
        requires
            old(self).wf(),
        ensures
            final(self).wf(),
            final(self)@ == (StorageView {
                feeds: without_feed(old(self)@.feeds, id@),
                ..old(self)@
            }),
    {
        proof {
            lemma_feed_keys(self.feeds@);
        }
        let position = find(&self.feeds, id);
        if position < self.feeds.len() {
            proof {
                lemma_remove_keeps_order(feed_keys(self@.feeds), position as int);
            }
            self.feeds.remove(position);
            proof {
                assert(self@.feeds =~= old(self)@.feeds.remove(position as int));
                assert(feed_keys(self@.feeds) =~= feed_keys(old(self)@.feeds).remove(
                    position as int,
                ));
                assert(self@.articles == old(self)@.articles);
            }
        }
    }

    /// Stamps the feed with identifier `id` as refreshed at `timestamp`,
    /// whatever it was stamped with before; where there is no such feed,
    /// nothing changes.
    pub fn update_feed_last_updated(&mut self, timestamp: String, id: &str)
        requires
            old(self).wf(),
        ensures
            final(self).wf(),
            final(self)@ == (StorageView {
                feeds: with_last_updated(old(self)@.feeds, id@, timestamp@),
                ..old(self)@
            }),
    {
        proof {
            lemma_feed_keys(self.feeds@);
        }
        let position = find(&self.feeds, id);
        if position < self.feeds.len() {
            let ghost before = self.feeds@[position as int]@;
            let mut feed = self.feeds[position].clone();
            feed.last_updated = timestamp;
            self.feeds.set(position, feed);
            proof {
                assert(self@.feeds =~= old(self)@.feeds.update(
                    position as int,
                    FeedView { last_updated: timestamp@, ..before },
                ));
                assert(feed_keys(self@.feeds) =~= feed_keys(old(self)@.feeds));
                assert(self@.articles == old(self)@.articles);
            }
        }
    }

    /// The article with identifier `id`.
    pub fn get_article_by_id(&self, id: &str) -> (r: Result<Article, Error>)
        ensures
            match r {
                Ok(article) => holds(article_keys(self@.articles), id@) && article@
                    == self@.articles[position_of(article_keys(self@.articles), id@)],
                Err(e) => !holds(article_keys(self@.articles), id@) && e == Error::NotFound,
            },
    {
        proof {
            lemma_article_keys(self.articles@);
        }
        let position = find(&self.articles, id);
        if position < self.articles.len() {
            Ok(self.articles[position].clone())
        } else {
            Err(Error::NotFound)
        }
    }

    /// Adds one article, unless the catalog holds one with its identifier:
    /// then the stored article stays as it is.
    pub fn add_article(&mut self, article: Article)
        requires
            old(self).wf(),
        ensures
            final(self).wf(),
            final(self)@ == (StorageView {
                articles: with_article(old(self)@.articles, article@),
                ..old(self)@
            }),
    {
        proof {
            lemma_article_keys(self.articles@);
        }
        let position = find(&self.articles, article.id.as_str());
        if position == self.articles.len() {
            let at = rank(&self.articles, &article.published, &article.id);
            proof {
                lemma_insert_keeps_order(article_keys(self@.articles), article@.key());
            }
            self.articles.insert(at, article);
            proof {
                assert(self@.articles =~= old(self)@.articles.insert(at as int, article@));
                assert(article_keys(self@.articles) =~= article_keys(old(self)@.articles).insert(
                    at as int,
                    article@.key(),
                ));
                assert(self@.feeds == old(self)@.feeds);
            }
        }
    }

    /// Adds the articles of `batch` in turn. An article whose identifier the
    /// catalog holds already changes nothing: what the reader did with the
    /// stored article stays.
    pub fn add_articles(&mut self, batch: &Vec<Article>)
        requires
            old(self).wf(),
        ensures
            final(self).wf(),
            final(self)@ == (StorageView {
                articles: with_articles(old(self)@.articles, article_views(batch@)),
                ..old(self)@
            }),
    {
        let ghost all = article_views(batch@);
        let mut done: usize = 0;
        assert(all.skip(0) =~= all);
        while done < batch.len()
            invariant
                self.wf(),
                all == article_views(batch@),
                0 <= done <= batch.len(),
                self@.feeds == old(self)@.feeds,
                self@.page_size == old(self)@.page_size,
                with_articles(self@.articles, all.skip(done as int)) == with_articles(
                    old(self)@.articles,
                    all,
                ),
            decreases batch.len() - done,
        {
            proof {
                assert(all.skip(done as int).drop_first() =~= all.skip(done as int + 1));
                assert(all.skip(done as int)[0] == batch@[done as int]@);
            }
            self.add_article(batch[done].clone());
            done = done + 1;
        }
    }

    /// Marks the article with identifier `id` as read at `now`; where there
    /// is no such article, nothing changes.
    pub fn mark_article_read_at(&mut self, id: &str, now: String)
        requires
            old(self).wf(),
        ensures
            final(self).wf(),
            final(self)@ == (StorageView {
                articles: with_read(old(self)@.articles, id@, now@),
                ..old(self)@
            }),
    {
        proof {
            lemma_article_keys(self.articles@);
        }
        let position = find(&self.articles, id);
        if position < self.articles.len() {
            let ghost before = self.articles@[position as int]@;
            let mut article = self.articles[position].clone();
            article.read = true;
            article.read_date = now;
            self.articles.set(position, article);
            proof {
                assert(self@.articles =~= old(self)@.articles.update(
                    position as int,
                    ArticleView { read: true, read_date: now@, ..before },
                ));
                assert(article_keys(self@.articles) =~= article_keys(old(self)@.articles));
                assert(self@.feeds == old(self)@.feeds);
            }
        }
    }

    /// Marks `article` as read now: the stored article with its identifier
    /// is read from then on, at the time the clock gives, a UTC timestamp
    /// with milliseconds. Where the catalog holds no such article, nothing
    /// changes.
    pub fn mark_article_read(&mut self, article: &Article)
        requires
            old(self).wf(),
        ensures
            final(self).wf(),
            exists|now: Seq<char>|
                is_utc_millis_timestamp(now) && final(self)@ == (StorageView {
                    articles: with_read(old(self)@.articles, article@.id, now),
                    ..old(self)@
                }),
    {
        let now = utc_now_rfc3339_millis();
        self.mark_article_read_at(article.id.as_str(), now);
    }

    /// Makes the article with identifier `id` a favourite if it is none, and
    /// none if it is one; where there is no such article, nothing changes.
    pub fn mark_article_favorite(&mut self, id: &str)
        requires
            old(self).wf(),
        ensures
            final(self).wf(),
            final(self)@ == (StorageView {
                articles: with_favorite_toggled(old(self)@.articles, id@),
                ..old(self)@
            }),
    {
        proof {
            lemma_article_keys(self.articles@);
        }
        let position = find(&self.articles, id);
        if position < self.articles.len() {
            let ghost before = self.articles@[position as int]@;
            let mut article = self.articles[position].clone();
            article.favorited = !article.favorited;
            self.articles.set(position, article);
            proof {
                assert(self@.articles =~= old(self)@.articles.update(
                    position as int,
                    ArticleView { favorited: !before.favorited, ..before },
                ));
                assert(article_keys(self@.articles) =~= article_keys(old(self)@.articles));
                assert(self@.feeds == old(self)@.feeds);
            }
        }
    }

    /// Copies of the articles that are listed under `filter`, in listing
    /// order.
    pub fn select(&self, filter: Filter) -> (chosen: Vec<Article>)
        ensures
            article_views(chosen@) == matching(self@.articles, filter),
    {
        let ghost listed = |a: ArticleView| filter.admits(a.read, a.favorited);
        let mut chosen: Vec<Article> = Vec::new();
        let mut at: usize = 0;
        assert(article_views(self.articles@.take(0)) =~= Seq::empty());
        assert(article_views(chosen@) =~= Seq::empty());
        while at < self.articles.len()
            invariant
                0 <= at <= self.articles.len(),
                listed == |a: ArticleView| filter.admits(a.read, a.favorited),
                article_views(chosen@) == article_views(self.articles@.take(at as int)).filter(
                    listed,
                ),
            decreases self.articles.len() - at,
        {
            let article = &self.articles[at];
            proof {
                let seen = article_views(self.articles@.take(at as int));
                assert(article_views(self.articles@.take(at as int + 1)) =~= seen.push(article@));
                seen.lemma_filter_push(article@, listed);
            }
            if filter.accepts(article.read, article.favorited) {
                let ghost before = article_views(chosen@);
                chosen.push(article.clone());
                assert(article_views(chosen@) =~= before.push(article@));
            }
            at = at + 1;
        }
        assert(self.articles@.take(at as int) =~= self.articles@);
        chosen
    }

    /// The page that follows `from` of the articles listed under `filter`,
    /// latest first.
    pub fn filter(&self, filter: Filter, from: &Token) -> (page: Page<Article>)
        ensures
            article_listing(page) == listing(
                matching(self@.articles, filter),
                article_keys(matching(self@.articles, filter)),
                from@,
                self@.page_size as int,
            ),
    {
        let chosen = self.select(filter);
        proof {
            lemma_article_keys(chosen@);
        }
        let page = page_of(&chosen, from, self.page_size);
        let ghost start = page_start(article_keys(matching(self@.articles, filter)), from@);
        assert forall|i: int| 0 <= i < page.items@.len() implies page.items@[i] == chosen@[start
            + i] by {
            assert(cloned(chosen@[start + i], page.items@[i]));
        }
        assert(article_listing(page).items =~= listing(
            matching(self@.articles, filter),
            article_keys(matching(self@.articles, filter)),
            from@,
            self@.page_size as int,
        ).items);
        page
    }

    /// The page that follows `from` of the articles not yet read.
    pub fn get_unread_articles(&self, from: &Token) -> (page: Page<Article>)
        ensures
            article_listing(page) == listing(
                matching(self@.articles, Filter::Unread),
                article_keys(matching(self@.articles, Filter::Unread)),
                from@,
                self@.page_size as int,
            ),
    {
        self.filter(Filter::Unread, from)
    }

    /// The page that follows `from` of the articles that were read.
    pub fn get_read_articles(&self, from: &Token) -> (page: Page<Article>)
        ensures
            article_listing(page) == listing(
                matching(self@.articles, Filter::Read),
                article_keys(matching(self@.articles, Filter::Read)),
                from@,
                self@.page_size as int,
            ),
    {
        self.filter(Filter::Read, from)
    }

    /// The page that follows `from` of the favourite articles.
    pub fn get_favorited_articles(&self, from: &Token) -> (page: Page<Article>)
        ensures
            article_listing(page) == listing(
                matching(self@.articles, Filter::Favorite),
                article_keys(matching(self@.articles, Filter::Favorite)),
                from@,
                self@.page_size as int,
            ),
    {
        self.filter(Filter::Favorite, from)
    }
}

} // verus!
