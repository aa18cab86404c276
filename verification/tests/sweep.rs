use chrono::DateTime;
use chrono::SecondsFormat;
use chrono::Utc;
use feed_reader::dates::Timestamp;
use feed_reader::source::SourceEntry;
use feed_reader::cursor::Cursor;
use feed_reader::cursor::Page;
use feed_reader::cursor::Token;
use feed_reader::error::Error;
use feed_reader::model::Feed;
use feed_reader::refresh::refresh_at;
use feed_reader::store::Storage;
use feed_reader::sweep::Action;
use feed_reader::sweep::Event;
use feed_reader::sweep::Sweep;

const RSS: &str = r#"<?xml version="1.0" encoding="UTF-8"?>
<rss version="2.0"><channel><title>T</title><link>https://example.com</link><description>d</description>
<item><title>Hello</title><link>https://example.com/a</link></item>
</channel></rss>"#;

fn text(s: &str) -> String {
    s.to_string()
}

fn time(instant: Option<DateTime<Utc>>) -> Option<Timestamp> {
    instant.and_then(|t| Timestamp::from_text(t.to_rfc3339_opts(SecondsFormat::Millis, true)))
}

/// Reads a document as the program around the library does.
fn entries(document: &str) -> Result<Vec<SourceEntry>, Error> {
    let parsed = feed_rs::parser::parse(document.as_bytes()).map_err(|_| Error::ParseFailed)?;
    Ok(parsed
        .entries
        .iter()
        .map(|e| SourceEntry {
            title: e.title.as_ref().map(|t| t.content.clone()),
            links: e.links.iter().map(|l| l.href.clone()).collect(),
            authors: e.authors.iter().map(|p| p.name.clone()).collect(),
            published: time(e.published),
            updated: time(e.updated),
        })
        .collect())
}

fn store_with_feeds(page_size: usize, count: usize) -> Storage {
    let mut store = Storage::with_page_size(page_size);
    for i in 1..=count {
        store
            .add_feed_at(
                format!("feed {}", i),
                text("https://site"),
                format!("https://example.com/{}", i),
                format!("2024-01-{:02}T00:00:00.000Z", i),
            )
            .unwrap();
    }
    store
}

/// Runs one sweep over the store; `fails` says which feed URLs cannot be fetched.
fn run_sweep(store: &mut Storage, fails: &[&str], now: &str) -> (Vec<String>, Vec<(String, Error)>) {
    let mut sweep = Sweep::new();
    let mut visited = Vec::new();
    let mut failures = Vec::new();
    let mut action = sweep.advance(Event::Tick);
    let mut steps = 0;
    loop {
        steps += 1;
        assert!(steps < 10_000);
        action = match action {
            Action::Rest => return (visited, failures),
            Action::ListFeeds(token) => sweep.advance(Event::Listed(Ok(store.get_feeds(&token)))),
            Action::RefreshFeed(feed) => {
                visited.push(feed.feed_url.clone());
                let fetched = if fails.contains(&feed.feed_url.as_str()) {
                    Err(Error::FetchFailed)
                } else {
                    entries(RSS)
                };
                let outcome = refresh_at(store, &feed, fetched, text(now));
                if let Err(e) = outcome {
                    failures.push((feed.feed_url.clone(), e));
                }
                sweep.advance(Event::Refreshed(outcome))
            }
        };
    }
}

fn last_updated(store: &Storage, url: &str) -> String {
    let mut from = Token::Start;
    loop {
        let page = store.get_feeds(&from);
        for feed in page.items {
            if feed.feed_url == url {
                return feed.last_updated;
            }
        }
        assert!(page.cursor.has_next);
        from = page.cursor.next;
    }
}

#[test]
fn a_new_sweep_rests() {
    let sweep = Sweep::new();
    assert!(matches!(sweep.pending(), Action::Rest));
}

#[test]
fn a_tick_asks_for_the_top_of_the_listing() {
    let mut sweep = Sweep::new();
    match sweep.advance(Event::Tick) {
        Action::ListFeeds(token) => assert!(matches!(token, Token::Start)),
        other => panic!("{:?}", other),
    }
}

#[test]
fn sweep_with_a_failing_feed_updates_the_others() {
    let mut store = store_with_feeds(10, 3);
    let (visited, failures) = run_sweep(&mut store, &["https://example.com/2"], "2024-06-01T00:00:00.000Z");
    assert_eq!(visited, vec!["https://example.com/3", "https://example.com/2", "https://example.com/1"]);
    assert_eq!(failures, vec![(text("https://example.com/2"), Error::FetchFailed)]);
    assert_eq!(last_updated(&store, "https://example.com/1"), "2024-06-01T00:00:00.000Z");
    assert_eq!(last_updated(&store, "https://example.com/2"), "-1");
    assert_eq!(last_updated(&store, "https://example.com/3"), "2024-06-01T00:00:00.000Z");
}

#[test]
fn a_failing_feed_keeps_its_earlier_stamp() {
    let mut store = store_with_feeds(2, 3);
    run_sweep(&mut store, &[], "first");
    run_sweep(&mut store, &["https://example.com/2"], "second");
    assert_eq!(last_updated(&store, "https://example.com/1"), "second");
    assert_eq!(last_updated(&store, "https://example.com/2"), "first");
    assert_eq!(last_updated(&store, "https://example.com/3"), "second");
}

#[test]
fn sweep_visits_every_feed_once_across_pages() {
    for page_size in [1usize, 2, 3, 5, 10] {
        for count in [0usize, 1, 4, 5, 6, 11] {
            let mut store = store_with_feeds(page_size, count);
            let (visited, failures) = run_sweep(&mut store, &[], "now");
            let expected: Vec<String> = (1..=count).rev().map(|i| format!("https://example.com/{}", i)).collect();
            assert_eq!(visited, expected);
            assert!(failures.is_empty());
        }
    }
}

#[test]
fn sweep_goes_on_when_every_feed_fails() {
    let mut store = store_with_feeds(2, 5);
    let all: Vec<String> = (1..=5).map(|i| format!("https://example.com/{}", i)).collect();
    let fails: Vec<&str> = all.iter().map(|s| s.as_str()).collect();
    let (visited, failures) = run_sweep(&mut store, &fails, "now");
    assert_eq!(visited.len(), 5);
    assert_eq!(failures.len(), 5);
    assert_eq!(store.article_count(), 0);
}

#[test]
fn a_failed_listing_ends_the_sweep() {
    let mut sweep = Sweep::new();
    sweep.advance(Event::Tick);
    assert!(matches!(sweep.advance(Event::Listed(Err(Error::StoreUnavailable))), Action::Rest));
    assert!(matches!(sweep.pending(), Action::Rest));
    assert!(matches!(sweep.advance(Event::Tick), Action::ListFeeds(Token::Start)));
}

#[test]
fn events_that_were_not_asked_for_change_nothing() {
    let mut sweep = Sweep::new();
    assert!(matches!(sweep.advance(Event::Refreshed(Ok(()))), Action::Rest));
    let page = Page {
        cursor: Cursor { has_next: true, next: Token::Start },
        items: vec![Feed::added_at(text("n"), text("s"), text("u"), text("d"))],
    };
    assert!(matches!(sweep.advance(Event::Listed(Ok(page))), Action::Rest));
    sweep.advance(Event::Tick);
    assert!(matches!(sweep.advance(Event::Refreshed(Err(Error::FetchFailed))), Action::ListFeeds(Token::Start)));
}

#[test]
fn a_tick_in_the_middle_starts_over() {
    let mut store = store_with_feeds(2, 3);
    let mut sweep = Sweep::new();
    sweep.advance(Event::Tick);
    let action = sweep.advance(Event::Listed(Ok(store.get_feeds(&Token::Start))));
    assert!(matches!(action, Action::RefreshFeed(_)));
    assert!(matches!(sweep.advance(Event::Tick), Action::ListFeeds(Token::Start)));
    store.delete_feed("none");
}
