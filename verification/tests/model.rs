use feed_reader::dates::converted_or_given;
use feed_reader::dates::has_timestamp_form;
use feed_reader::dates::Timestamp;
use feed_reader::dates::normalize_published;
use feed_reader::dates::rfc3339_timestamp_to_human;
use feed_reader::model::Article;
use feed_reader::model::Feed;
use feed_reader::source::SourceEntry;

fn text(s: &str) -> String {
    s.to_string()
}

#[test]
fn new_feed_is_addressed_by_its_url_and_never_refreshed() {
    let feed = Feed::new(text("Example"), text("https://example.com"), text("https://example.com/rss"));
    assert_eq!(feed.id, "aHR0cHM6Ly9leGFtcGxlLmNvbS9yc3M=");
    assert_eq!(feed.name, "Example");
    assert_eq!(feed.site_url, "https://example.com");
    assert_eq!(feed.feed_url, "https://example.com/rss");
    assert_eq!(feed.last_updated, "-1");
    assert_eq!(feed.date_added.len(), 24);
    assert!(feed.date_added.ends_with('Z'));
}

#[test]
fn feed_added_at_keeps_the_given_time() {
    let feed = Feed::added_at(text("n"), text("s"), text("u"), text("2024-05-06T07:08:09.123Z"));
    assert_eq!(feed.date_added, "2024-05-06T07:08:09.123Z");
    assert_eq!(feed.id, "dQ==");
    assert_eq!(feed.last_updated, "-1");
}

#[test]
fn same_url_gives_same_id() {
    let a = Feed::added_at(text("a"), text("x"), text("https://example.com/rss"), text("1"));
    let b = Feed::added_at(text("b"), text("y"), text("https://example.com/rss"), text("2"));
    assert_eq!(a.id, b.id);
    let c = Article::new(text("t"), text("https://example.com/a"), text(""), text(""), false, false);
    let d = Article::new(text("u"), text("https://example.com/a"), text("v"), text("w"), true, true);
    assert_eq!(c.id, d.id);
}

#[test]
fn different_spellings_give_different_ids() {
    let a = Feed::added_at(text("a"), text("x"), text("https://example.com/rss"), text("1"));
    let b = Feed::added_at(text("a"), text("x"), text("https://example.com/rss/"), text("1"));
    assert_ne!(a.id, b.id);
    let c = Article::new(text("t"), text("https://example.com/a?x=1&y=2"), text(""), text(""), false, false);
    let d = Article::new(text("t"), text("https://example.com/a?y=2&x=1"), text(""), text(""), false, false);
    assert_ne!(c.id, d.id);
}

#[test]
fn feed_from_columns_takes_every_column_as_it_is() {
    let feed = Feed::from_columns(text("i"), text("n"), text("s"), text("f"), text("d"), text("l"));
    assert_eq!(feed.id, "i");
    assert_eq!(feed.name, "n");
    assert_eq!(feed.site_url, "s");
    assert_eq!(feed.feed_url, "f");
    assert_eq!(feed.date_added, "d");
    assert_eq!(feed.last_updated, "l");
}

#[test]
fn new_article_has_unpadded_id_and_defaults() {
    let article = Article::new(
        text("Hello"),
        text("https://example.com/a"),
        text("Ann"),
        text("Wed, 18 Feb 2015 23:16:09 GMT"),
        false,
        true,
    );
    assert_eq!(article.id, "aHR0cHM6Ly9leGFtcGxlLmNvbS9h");
    assert_eq!(article.feed, "");
    assert_eq!(article.title, "Hello");
    assert_eq!(article.link, "https://example.com/a");
    assert_eq!(article.author, "Ann");
    assert_eq!(article.published, "2015-02-18T23:16:09Z");
    assert!(!article.read);
    assert!(article.favorited);
    assert_eq!(article.read_date, "-1");
}

#[test]
fn rfc2822_date_with_offset_keeps_its_offset() {
    assert_eq!(
        normalize_published(text("Tue, 1 Jul 2003 10:52:37 +0200")),
        "2003-07-01T10:52:37+02:00"
    );
}

#[test]
fn unparseable_published_is_kept_as_given() {
    let article = Article::new(text("t"), text("l"), text("a"), text("next tuesday"), false, false);
    assert_eq!(article.published, "next tuesday");
    let rfc3339 = Article::new(text("t"), text("l"), text("a"), text("2024-01-02T03:04:05.000Z"), false, false);
    assert_eq!(rfc3339.published, "2024-01-02T03:04:05.000Z");
    let empty = Article::new(text("t"), text("l"), text("a"), text(""), false, false);
    assert_eq!(empty.published, "");
}

#[test]
fn converted_text_wins_over_the_given_text() {
    assert_eq!(converted_or_given(Some(text("new")), text("old")), "new");
    assert_eq!(converted_or_given(None, text("old")), "old");
}

#[test]
fn timestamp_has_millisecond_form() {
    let now = Article::rfc3339_timestamp();
    assert_eq!(now.len(), 24);
    assert_eq!(&now[4..5], "-");
    assert_eq!(&now[10..11], "T");
    assert_eq!(&now[19..20], ".");
    assert!(now.ends_with('Z'));
}

#[test]
fn timestamp_to_human_is_month_day_year() {
    assert_eq!(Article::rfc3339_timestamp_to_human(text("2024-01-02T03:04:05.000Z")), "01/02/2024");
    assert_eq!(rfc3339_timestamp_to_human(text("1996-12-19T16:39:57-08:00")), "12/19/1996");
}

#[test]
fn timestamp_to_human_keeps_what_is_no_timestamp() {
    assert_eq!(Article::rfc3339_timestamp_to_human(text("-1")), "-1");
    assert_eq!(Article::rfc3339_timestamp_to_human(text("")), "");
    assert_eq!(
        Article::rfc3339_timestamp_to_human(text("Wed, 18 Feb 2015 23:16:09 GMT")),
        "Wed, 18 Feb 2015 23:16:09 GMT"
    );
}

#[test]
fn article_from_columns_shows_readable_dates() {
    let article = Article::from_columns(
        text("i"),
        text("f"),
        text("t"),
        text("l"),
        text("a"),
        text("2015-02-18T23:16:09Z"),
        true,
        false,
        text("-1"),
    );
    assert_eq!(article.id, "i");
    assert_eq!(article.feed, "f");
    assert_eq!(article.title, "t");
    assert_eq!(article.link, "l");
    assert_eq!(article.author, "a");
    assert_eq!(article.published, "02/18/2015");
    assert!(article.read);
    assert!(!article.favorited);
    assert_eq!(article.read_date, "-1");
}

#[test]
fn entry_with_everything_becomes_an_article() {
    let entry = SourceEntry {
        title: Some(text("Hello")),
        links: vec![text("https://example.com/a"), text("https://example.com/b")],
        authors: vec![text("Ann"), text("Bob")],
        published: Timestamp::from_text(text("2024-01-02T03:04:05.000Z")),
        updated: Timestamp::from_text(text("2024-02-03T04:05:06.000Z")),
    };
    let article = Article::from_entry(&entry);
    assert_eq!(article.title, "Hello");
    assert_eq!(article.link, "https://example.com/a");
    assert_eq!(article.id, "aHR0cHM6Ly9leGFtcGxlLmNvbS9h");
    assert_eq!(article.author, "Ann");
    assert_eq!(article.published, "2024-01-02T03:04:05.000Z");
    assert_eq!(article.feed, "");
    assert!(!article.read);
    assert!(!article.favorited);
    assert_eq!(article.read_date, "-1");
}

#[test]
fn entry_without_published_falls_back_to_updated() {
    let entry = SourceEntry {
        title: None,
        links: vec![],
        authors: vec![],
        published: None,
        updated: Timestamp::from_text(text("2024-02-03T04:05:06.000Z")),
    };
    let article = Article::from_entry(&entry);
    assert_eq!(article.published, "2024-02-03T04:05:06.000Z");
}

#[test]
fn empty_entry_becomes_an_article_of_empty_texts() {
    let entry = SourceEntry { title: None, links: vec![], authors: vec![], published: None, updated: None };
    let article = Article::from_entry(&entry);
    assert_eq!(article.title, "");
    assert_eq!(article.link, "");
    assert_eq!(article.id, "");
    assert_eq!(article.author, "");
    assert_eq!(article.published, "");
    assert_eq!(article.read_date, "-1");
}

#[test]
fn timestamp_is_digits_between_fixed_marks() {
    let now = Article::rfc3339_timestamp();
    for (at, symbol) in now.chars().enumerate() {
        match at {
            4 | 7 => assert_eq!(symbol, '-'),
            10 => assert_eq!(symbol, 'T'),
            13 | 16 => assert_eq!(symbol, ':'),
            19 => assert_eq!(symbol, '.'),
            23 => assert_eq!(symbol, 'Z'),
            _ => assert!(symbol.is_ascii_digit(), "{:?}", now),
        }
    }
    assert!(now.as_str() > "2024-01-01T00:00:00.000Z");
}

#[test]
fn timestamp_form_is_told_from_other_texts() {
    for good in [
        "2024-01-02T03:04:05.000Z",
        "0000-00-00T00:00:00.000Z",
        "9999-12-31T23:59:60.999Z",
        "+10000-01-01T00:00:00.000Z",
        "x2024-01-02T03:04:05.678Z",
    ] {
        assert!(has_timestamp_form(good), "{:?}", good);
        assert_eq!(Timestamp::from_text(text(good)).unwrap().as_str(), good);
    }
    for bad in [
        "",
        "-1",
        "2024-01-02T03:04:05Z",
        "2024-01-02T03:04:05.00Z",
        "2024-01-02T03:04:05.000",
        "2024-01-02T03:04:05.000z",
        "2024-01-02 03:04:05.000Z",
        "2024-01-02T03:04:05.000+00:00",
        "2024-01-02T03-04-05.000Z",
        "2024/01/02T03:04:05.000Z",
        "202a-01-02T03:04:05.000Z",
        "2024-01-02T03:04:05,000Z",
        "024-01-02T03:04:05.000Z",
        "2024-01-02T03:04:05.0\u{0661}0Z",
        "Wed, 18 Feb 2015 23:16:09 GMT",
    ] {
        assert!(!has_timestamp_form(bad), "{:?}", bad);
        assert!(Timestamp::from_text(text(bad)).is_none(), "{:?}", bad);
    }
}

#[test]
fn timestamp_copy_keeps_the_text() {
    let stamp = Timestamp::from_text(text("2024-01-02T03:04:05.000Z")).unwrap();
    assert_eq!(stamp.clone().as_str(), "2024-01-02T03:04:05.000Z");
}

#[test]
fn clock_reading_is_a_timestamp() {
    assert!(has_timestamp_form(Article::rfc3339_timestamp().as_str()));
    let feed = Feed::new(text("n"), text("s"), text("u"));
    assert!(has_timestamp_form(feed.date_added.as_str()));
}

#[test]
fn article_has_a_date_exactly_where_its_entry_has_a_time() {
    let stamp = || Timestamp::from_text(text("2024-01-02T03:04:05.000Z"));
    for (published, updated) in [(None, None), (stamp(), None), (None, stamp()), (stamp(), stamp())] {
        let dated = published.is_some() || updated.is_some();
        let entry = SourceEntry { title: None, links: vec![], authors: vec![], published, updated };
        assert_eq!(!Article::from_entry(&entry).published.is_empty(), dated);
    }
}

#[test]
fn only_an_empty_date_is_stored_empty() {
    for given in ["", " ", "x", "Wed, 18 Feb 2015 23:16:09 GMT", "2024-01-02T03:04:05.000Z"] {
        let article = Article::new(text("t"), text("l"), text("a"), text(given), false, false);
        assert_eq!(article.published.is_empty(), given.is_empty());
    }
}
