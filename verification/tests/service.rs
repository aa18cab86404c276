use chrono::DateTime;
use chrono::SecondsFormat;
use chrono::Utc;
use feed_reader::dates::Timestamp;
use feed_reader::source::SourceEntry;
use feed_reader::error::Error;
use feed_reader::model::Article;
use feed_reader::service::article_list;
use feed_reader::service::create_feed;
use feed_reader::service::delete_feed;
use feed_reader::service::favorites;
use feed_reader::service::feed_list;
use feed_reader::service::feeds;
use feed_reader::service::get_articles;
use feed_reader::service::history;
use feed_reader::service::index;
use feed_reader::service::mark_article_favorite;
use feed_reader::service::mark_article_read;
use feed_reader::service::refresh_feed;
use feed_reader::filter::Filter;
use feed_reader::store::Storage;
use feed_reader::token::MAX_DATE;

const RSS: &str = r#"<?xml version="1.0" encoding="UTF-8"?>
<rss version="2.0"><channel><title>T</title><link>https://example.com</link><description>d</description>
<item><title>Hello</title><link>https://example.com/a</link><pubDate>Wed, 18 Feb 2015 23:16:09 GMT</pubDate></item>
</channel></rss>"#;

fn text(s: &str) -> String {
    s.to_string()
}

fn time(instant: Option<DateTime<Utc>>) -> Option<Timestamp> {
    instant.and_then(|t| Timestamp::from_text(t.to_rfc3339_opts(SecondsFormat::Millis, true)))
}

/// Reads a document as the program around the library does.
fn entries(document: &str) -> Result<Vec<SourceEntry>, Error> {
    let parsed = feed_rs::parser::parse(document.as_bytes()).map_err(|_| Error::ParseFailed)?;
    Ok(parsed
        .entries
        .iter()
        .map(|e| SourceEntry {
            title: e.title.as_ref().map(|t| t.content.clone()),
            links: e.links.iter().map(|l| l.href.clone()).collect(),
            authors: e.authors.iter().map(|p| p.name.clone()).collect(),
            published: time(e.published),
            updated: time(e.updated),
        })
        .collect())
}

fn store_with_articles(page_size: usize) -> (Storage, Vec<Article>) {
    let mut store = Storage::with_page_size(page_size);
    let batch: Vec<Article> = (1..=5)
        .map(|day| {
            Article::new(
                format!("t{}", day),
                format!("https://a/{}", day),
                text("author"),
                format!("2024-01-0{}T00:00:00.000Z", day),
                false,
                false,
            )
        })
        .collect();
    store.add_articles(&batch);
    (store, batch)
}

#[test]
fn index_shows_unread_articles_with_readable_dates() {
    let (mut store, batch) = store_with_articles(3);
    store.mark_article_read_at(batch[4].id.as_str(), text("2024-02-01T00:00:00.000Z"));
    let board = index(&store);
    assert_eq!(board.title, "unread");
    assert_eq!(board.article_filter, "unread");
    let titles: Vec<String> = board.articles.iter().map(|a| a.title.clone()).collect();
    assert_eq!(titles, vec!["t4", "t3", "t2"]);
    assert_eq!(board.articles[0].published, "01/04/2024");
    assert_eq!(board.articles[0].read_date, "-1");
    assert!(board.cursor.has_next);
    assert_eq!(board.cursor.next.to_string(), format!("2024-01-02T00:00:00.000Z|{}", batch[1].id));
}

#[test]
fn favorites_and_history_have_their_own_headings() {
    let (mut store, batch) = store_with_articles(10);
    store.mark_article_favorite(batch[0].id.as_str());
    store.mark_article_read_at(batch[1].id.as_str(), text("2024-02-01T00:00:00.000Z"));
    let favorite = favorites(&store);
    assert_eq!(favorite.title, "favorites");
    assert_eq!(favorite.article_filter, "favorited");
    assert_eq!(favorite.articles.len(), 1);
    assert_eq!(favorite.articles[0].title, "t1");
    assert!(!favorite.cursor.has_next);
    let read = history(&store);
    assert_eq!(read.title, "history");
    assert_eq!(read.article_filter, "read");
    assert_eq!(read.articles.len(), 1);
    assert_eq!(read.articles[0].title, "t2");
    assert_eq!(read.articles[0].read_date, "02/01/2024");
}

#[test]
fn get_articles_follows_the_token() {
    let (store, _) = store_with_articles(2);
    let first = get_articles(&store, MAX_DATE, "unread").unwrap();
    let titles: Vec<String> = first.articles.iter().map(|a| a.title.clone()).collect();
    assert_eq!(titles, vec!["t5", "t4"]);
    let second = get_articles(&store, first.cursor.next.to_string().as_str(), "unread").unwrap();
    let titles: Vec<String> = second.articles.iter().map(|a| a.title.clone()).collect();
    assert_eq!(titles, vec!["t3", "t2"]);
    let third = get_articles(&store, second.cursor.next.to_string().as_str(), "unread").unwrap();
    assert_eq!(third.articles.len(), 1);
    assert!(!third.cursor.has_next);
    let same = article_list(&store, Filter::Unread, MAX_DATE);
    assert_eq!(same.articles.len(), 2);
}

#[test]
fn get_articles_refuses_an_unknown_filter() {
    let (store, _) = store_with_articles(2);
    assert_eq!(get_articles(&store, MAX_DATE, "bogus").err(), Some(Error::UnknownFilter));
    assert_eq!(get_articles(&store, MAX_DATE, "").err(), Some(Error::UnknownFilter));
}

#[test]
fn mark_article_read_moves_it_out_of_unread() {
    let (mut store, batch) = store_with_articles(10);
    let list =
        mark_article_read(&mut store, batch[2].id.as_str(), text("2024-03-01T00:00:00.000Z"), MAX_DATE, "unread").unwrap();
    let titles: Vec<String> = list.articles.iter().map(|a| a.title.clone()).collect();
    assert_eq!(titles, vec!["t5", "t4", "t2", "t1"]);
    let stored = store.get_article_by_id(batch[2].id.as_str()).unwrap();
    assert!(stored.read);
    assert_eq!(stored.read_date, "2024-03-01T00:00:00.000Z");
    let read = mark_article_read(&mut store, batch[2].id.as_str(), text("2024-03-02T00:00:00.000Z"), MAX_DATE, "read").unwrap();
    assert_eq!(read.articles.len(), 1);
    assert_eq!(read.articles[0].read_date, "03/02/2024");
}

#[test]
fn mark_article_read_of_an_unknown_article_is_not_found() {
    let (mut store, _) = store_with_articles(10);
    let r = mark_article_read(&mut store, "unknown", text("now"), MAX_DATE, "unread");
    assert_eq!(r.err(), Some(Error::NotFound));
    assert_eq!(index(&store).articles.len(), 5);
}

#[test]
fn mark_article_read_marks_before_it_reads_the_filter() {
    let (mut store, batch) = store_with_articles(10);
    let r = mark_article_read(&mut store, batch[0].id.as_str(), text("now"), MAX_DATE, "bogus");
    assert_eq!(r.err(), Some(Error::UnknownFilter));
    assert!(store.get_article_by_id(batch[0].id.as_str()).unwrap().read);
}

#[test]
fn mark_article_favorite_toggles_and_lists() {
    let (mut store, batch) = store_with_articles(10);
    let list = mark_article_favorite(&mut store, batch[0].id.as_str(), MAX_DATE, "favorited").unwrap();
    assert_eq!(list.articles.len(), 1);
    assert_eq!(list.articles[0].title, "t1");
    assert!(list.articles[0].favorited);
    let list = mark_article_favorite(&mut store, batch[0].id.as_str(), MAX_DATE, "favorited").unwrap();
    assert!(list.articles.is_empty());
    let list = mark_article_favorite(&mut store, "unknown", MAX_DATE, "unread").unwrap();
    assert_eq!(list.articles.len(), 5);
    let r = mark_article_favorite(&mut store, batch[1].id.as_str(), MAX_DATE, "bogus");
    assert_eq!(r.err(), Some(Error::UnknownFilter));
    assert!(store.get_article_by_id(batch[1].id.as_str()).unwrap().favorited);
}

#[test]
fn create_feed_lists_the_feeds_latest_first() {
    let mut store = Storage::with_page_size(2);
    let list = create_feed(&mut store, text("A"), text("https://a"), text("https://a/rss"), text("2024-01-01T00:00:00.000Z"))
        .unwrap();
    assert_eq!(list.feeds.len(), 1);
    let list = create_feed(&mut store, text("B"), text("https://b"), text("https://b/rss"), text("2024-01-03T00:00:00.000Z"))
        .unwrap();
    let names: Vec<String> = list.feeds.iter().map(|f| f.name.clone()).collect();
    assert_eq!(names, vec!["B", "A"]);
    let list = create_feed(&mut store, text("C"), text("https://c"), text("https://c/rss"), text("2024-01-02T00:00:00.000Z"))
        .unwrap();
    let names: Vec<String> = list.feeds.iter().map(|f| f.name.clone()).collect();
    assert_eq!(names, vec!["B", "C"]);
    assert!(list.cursor.has_next);
    let rest = feed_list(&store, list.cursor.next.to_string().as_str());
    let names: Vec<String> = rest.feeds.iter().map(|f| f.name.clone()).collect();
    assert_eq!(names, vec!["A"]);
    assert_eq!(feeds(&store).feeds.len(), 2);
}

#[test]
fn create_feed_refuses_a_duplicate() {
    let mut store = Storage::new();
    create_feed(&mut store, text("A"), text("https://a"), text("https://a/rss"), text("1")).unwrap();
    let again = create_feed(&mut store, text("A2"), text("https://a2"), text("https://a/rss"), text("2"));
    assert_eq!(again.err(), Some(Error::DuplicateFeed));
    assert_eq!(store.feed_count(), 1);
}

#[test]
fn delete_feed_lists_what_is_left() {
    let mut store = Storage::new();
    let a = store.add_feed_at(text("A"), text("s"), text("https://a/rss"), text("1")).unwrap();
    store.add_feed_at(text("B"), text("s"), text("https://b/rss"), text("2")).unwrap();
    let list = delete_feed(&mut store, a.id.as_str(), MAX_DATE);
    let names: Vec<String> = list.feeds.iter().map(|f| f.name.clone()).collect();
    assert_eq!(names, vec!["B"]);
    let list = delete_feed(&mut store, a.id.as_str(), MAX_DATE);
    assert_eq!(list.feeds.len(), 1);
}

#[test]
fn refresh_feed_refreshes_and_lists() {
    let mut store = Storage::new();
    let a = store.add_feed_at(text("A"), text("s"), text("https://a/rss"), text("2024-01-01T00:00:00.000Z")).unwrap();
    let list = refresh_feed(&mut store, a.id.as_str(), entries(RSS), text("2024-06-01T00:00:00.000Z"), MAX_DATE)
        .unwrap();
    assert_eq!(list.feeds.len(), 1);
    assert_eq!(list.feeds[0].last_updated, "2024-06-01T00:00:00.000Z");
    assert_eq!(store.article_count(), 1);
    let shown = index(&store);
    assert_eq!(shown.articles[0].feed, "A");
    assert_eq!(shown.articles[0].published, "02/18/2015");
}

#[test]
fn refresh_feed_reports_what_went_wrong() {
    let mut store = Storage::new();
    let a = store.add_feed_at(text("A"), text("s"), text("https://a/rss"), text("1")).unwrap();
    let missing = refresh_feed(&mut store, "unknown", entries(RSS), text("now"), MAX_DATE);
    assert_eq!(missing.err(), Some(Error::NotFound));
    let unfetched = refresh_feed(&mut store, a.id.as_str(), Err(Error::FetchFailed), text("now"), MAX_DATE);
    assert_eq!(unfetched.err(), Some(Error::FetchFailed));
    let unread = refresh_feed(&mut store, a.id.as_str(), entries("nothing"), text("now"), MAX_DATE);
    assert_eq!(unread.err(), Some(Error::ParseFailed));
    assert_eq!(store.article_count(), 0);
    assert_eq!(store.get_feed_by_id(a.id.as_str()).unwrap().last_updated, "-1");
}
