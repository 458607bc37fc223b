use feedpress::biblio::{render_bibliography, write_bibliography, BibliographyError};
use feedpress::clock::{BibDate, Moment};
use feedpress::config::{FeedConfig, FeedEntry};
use feedpress::feed::{parse_feed, FeedChannel, FeedItem};
use feedpress::press::{
    bib_key, edition_can_be_pressed, plan_edition, plan_edition_articles, plan_feed_articles, press_article, press_articles, BiblioEntry, EntryKind,
};

/// 2024-09-21 00:00:00 UTC.
const NOW: Moment = Moment { secs: 1_726_876_800, nanos: 0 };

fn item(title: Option<&str>, link: Option<&str>, description: Option<&str>, date: Option<&str>) -> FeedItem {
    FeedItem {
        title: title.map(|s| s.to_string()),
        link: link.map(|s| s.to_string()),
        description: description.map(|s| s.to_string()),
        pub_date: date.map(|s| s.to_string()),
    }
}

fn fresh(n: u32) -> FeedItem {
    let link = format!("https://news.example/{}", n);
    let title = format!("Story {}", n);
    item(Some(&title), Some(&link), Some("Synopsis"), Some("Fri, 20 Sep 2024 14:35:19 GMT"))
}

fn channel(items: Vec<FeedItem>) -> FeedChannel {
    FeedChannel { title: "Example".to_string(), description: "Example News".to_string(), items }
}

fn rss(items: &[(&str, &str, &str)]) -> Vec<u8> {
    let mut doc = String::from(
        "<?xml version=\"1.0\"?><rss version=\"2.0\"><channel><title>Example</title>\
         <link>https://news.example/</link><description>Example News</description>",
    );
    for (title, link, date) in items {
        doc.push_str(&format!(
            "<item><title>{}</title><link>{}</link><description>About {}</description><pubDate>{}</pubDate></item>",
            title, link, title, date
        ));
    }
    doc.push_str("</channel></rss>");
    doc.into_bytes()
}

fn feed_entry(url: &str, limit: usize, section: &str, age: usize) -> FeedEntry {
    FeedEntry { url: url.to_string(), feed_limit: limit, section: section.to_string(), max_age: age }
}

#[test]
fn parses_feed_documents() {
    let doc = rss(&[("One", "https://news.example/1", "Fri, 20 Sep 2024 14:35:19 GMT")]);
    let c = parse_feed(&doc).expect("a feed");
    assert_eq!(c.title, "Example");
    assert_eq!(c.description, "Example News");
    assert_eq!(c.items.len(), 1);
    assert_eq!(c.items[0].title.as_deref(), Some("One"));
    assert_eq!(c.items[0].link.as_deref(), Some("https://news.example/1"));
    assert_eq!(c.items[0].description.as_deref(), Some("About One"));
    assert_eq!(c.items[0].pub_date.as_deref(), Some("Fri, 20 Sep 2024 14:35:19 GMT"));
    assert!(parse_feed(b"<html><body>not a feed</body></html>").is_none());
}

#[test]
fn feed_limit_stops_after_the_limit_and_uses_one_more_key() {
    let c = channel(vec![fresh(1), fresh(2), fresh(3), fresh(4)]);
    let (articles, next) =
        plan_feed_articles(&c, &"News".to_string(), 2, 3, NOW, 10).expect("a plan");
    assert_eq!(articles.len(), 2);
    assert_eq!(articles[0].key, 11);
    assert_eq!(articles[1].key, 12);
    assert_eq!(next, 13);
    assert_eq!(articles[0].link, "https://news.example/1");
    assert_eq!(articles[1].title, "Story 2");
    assert_eq!(articles[0].section, "News");
    assert_eq!(articles[0].source, "Example News");
    assert_eq!(articles[0].published.date, BibDate { year: 2024, month: 9, day: 20 });
}

#[test]
fn no_limit_takes_every_item() {
    let c = channel(vec![fresh(1), fresh(2), fresh(3)]);
    let (articles, next) = plan_feed_articles(&c, &"News".to_string(), 0, 3, NOW, 0).unwrap();
    assert_eq!(articles.len(), 3);
    assert_eq!(next, 3);
    let c = channel(vec![fresh(1), fresh(2)]);
    let (articles, next) = plan_feed_articles(&c, &"News".to_string(), 2, 3, NOW, 0).unwrap();
    assert_eq!(articles.len(), 2);
    assert_eq!(next, 2);
}

#[test]
fn stale_items_are_passed_over_but_numbered() {
    let stale = item(Some("Old"), Some("https://news.example/old"), None, Some("Mon, 16 Sep 2024 10:00:00 GMT"));
    let c = channel(vec![stale, fresh(2)]);
    let (articles, next) = plan_feed_articles(&c, &"News".to_string(), 0, 3, NOW, 0).unwrap();
    assert_eq!(articles.len(), 1);
    assert_eq!(articles[0].key, 2);
    assert_eq!(next, 2);
}

#[test]
fn missing_titles_and_synopses_get_placeholders() {
    let bare = item(None, Some("https://news.example/bare"), None, Some("Fri, 20 Sep 2024 14:35:19 GMT"));
    let (articles, _) = plan_feed_articles(&channel(vec![bare]), &"News".to_string(), 0, 3, NOW, 0).unwrap();
    assert_eq!(articles[0].title, "No Title");
    assert_eq!(articles[0].summary, "No Content");
}

#[test]
fn an_item_without_a_readable_date_fails_the_plan() {
    let undated = item(Some("x"), Some("https://news.example/x"), None, None);
    assert!(plan_feed_articles(&channel(vec![fresh(1), undated]), &"N".to_string(), 0, 3, NOW, 0).is_none());
    let garbled = item(Some("x"), Some("https://news.example/x"), None, Some("someday"));
    assert!(plan_feed_articles(&channel(vec![garbled]), &"N".to_string(), 0, 3, NOW, 0).is_none());
    // Past the limit nothing is read.
    let undated = item(Some("x"), Some("https://news.example/x"), None, None);
    assert!(plan_feed_articles(&channel(vec![fresh(1), undated]), &"N".to_string(), 1, 3, NOW, 0).is_some());
}

#[test]
fn a_fresh_item_without_a_link_fails_the_plan() {
    let unlinked = item(Some("x"), None, None, Some("Fri, 20 Sep 2024 14:35:19 GMT"));
    assert!(plan_feed_articles(&channel(vec![unlinked]), &"N".to_string(), 0, 3, NOW, 0).is_none());
    let old_unlinked = item(Some("x"), None, None, Some("Mon, 16 Sep 2024 10:00:00 GMT"));
    let (articles, next) =
        plan_feed_articles(&channel(vec![old_unlinked]), &"N".to_string(), 0, 3, NOW, 0).unwrap();
    assert!(articles.is_empty());
    assert_eq!(next, 1);
}

#[test]
fn an_age_limit_beyond_any_span_fails_the_plan() {
    assert!(plan_feed_articles(&channel(vec![fresh(1)]), &"N".to_string(), 0, usize::MAX / 2, NOW, 0).is_none());
    let (articles, _) = plan_feed_articles(&channel(vec![]), &"N".to_string(), 0, usize::MAX / 2, NOW, 0).unwrap();
    assert!(articles.is_empty());
}

#[test]
fn edition_numbers_articles_across_feeds_and_skips_unfetched_ones() {
    let config = FeedConfig {
        show_errors: false,
        max_age: 3,
        feed_limit: 1,
        schedule: String::new(),
        schedule_enabled: false,
        feed: vec![
            feed_entry("https://a.example/rss", 0, "World", 0),
            feed_entry("https://b.example/rss", 0, "Sports", 0),
            feed_entry("https://c.example/rss", 2, "Tech", 0),
        ],
    };
    let date = "Fri, 20 Sep 2024 14:35:19 GMT";
    let documents = vec![
        Some(rss(&[("A1", "https://a.example/1", date), ("A2", "https://a.example/2", date)])),
        None,
        Some(rss(&[("C1", "https://c.example/1", date), ("C2", "https://c.example/2", date)])),
    ];
    let articles = plan_edition(&config, &documents, NOW).expect("a plan");
    let keys: Vec<usize> = articles.iter().map(|a| a.key).collect();
    let titles: Vec<&str> = articles.iter().map(|a| a.title.as_str()).collect();
    assert_eq!(titles, vec!["A1", "C1", "C2"]);
    assert_eq!(keys, vec![1, 3, 4]);
    assert_eq!(articles[0].section, "World");
    assert_eq!(articles[2].section, "Tech");
}

#[test]
fn unreadable_documents_are_passed_over() {
    let config = FeedConfig {
        show_errors: true,
        max_age: 3,
        feed_limit: 0,
        schedule: String::new(),
        schedule_enabled: false,
        feed: vec![feed_entry("https://a.example/rss", 0, "World", 0)],
    };
    let articles = plan_edition(&config, &vec![Some(b"garbage".to_vec())], NOW).unwrap();
    assert!(articles.is_empty());
}

#[test]
fn bibliography_keys_are_numbered() {
    assert_eq!(bib_key(1), "key-1");
    assert_eq!(bib_key(0), "key-0");
    assert_eq!(bib_key(1207), "key-1207");
}

#[test]
fn pressing_pairs_content_with_bibliography() {
    let c = channel(vec![fresh(1), fresh(2)]);
    let (articles, _) = plan_feed_articles(&c, &"News".to_string(), 0, 3, NOW, 4).unwrap();
    let (press, biblio) = press_articles(&articles, vec![Some("Full text".to_string()), None]);
    assert_eq!(press.content.len(), 2);
    assert_eq!(biblio.len(), 2);
    assert_eq!(press.content[0].bib_key, "key-5");
    assert_eq!(biblio[0].key, "key-5");
    assert_eq!(press.content[1].bib_key, "key-6");
    assert_eq!(press.content[0].content, "Full text");
    assert_eq!(press.content[1].content, "Synopsis");
    assert_eq!(press.content[1].pub_date, "Fri, 20 Sep 2024 14:35:19 GMT");
    assert_eq!(biblio[1].url, "https://news.example/2");
    assert_eq!(biblio[1].title, "Story 2");
    assert_eq!(biblio[1].entry_type, EntryKind::Web);
    assert_eq!(biblio[1].date, BibDate { year: 2024, month: 9, day: 20 });
    let (one, bib) = press_article(&articles[0], None);
    assert_eq!(one.content, "Synopsis");
    assert_eq!(bib.key, one.bib_key);
}

fn biblio(key: &str, title: &str, url: &str) -> BiblioEntry {
    BiblioEntry {
        entry_type: EntryKind::Web,
        key: key.to_string(),
        title: title.to_string(),
        date: BibDate { year: 2024, month: 9, day: 20 },
        url: url.to_string(),
    }
}

#[test]
fn bibliography_is_written_as_hayagriva_yaml() {
    let yaml = render_bibliography(&vec![
        biblio("key-1", "First story", "https://news.example/1"),
        biblio("key-2", "Second story", "https://news.example/2"),
    ])
    .expect("a bibliography");
    assert!(yaml.contains("key-1:"));
    assert!(yaml.contains("key-2:"));
    assert!(yaml.contains("First story"));
    assert!(yaml.contains("https://news.example/2"));
    assert!(yaml.contains("web"));
    assert!(yaml.find("key-1:").unwrap() < yaml.find("key-2:").unwrap());
}

#[test]
fn bibliography_refuses_unreadable_titles_and_urls() {
    assert_eq!(
        render_bibliography(&vec![biblio("key-1", "ok", "https://a.example"), biblio("key-2", "bad }", "also bad")]),
        Err(BibliographyError::UnreadableTitle(1))
    );
    assert_eq!(
        render_bibliography(&vec![biblio("key-1", "fine", "not a url")]),
        Err(BibliographyError::UnreadableUrl(0))
    );
    assert_eq!(render_bibliography(&vec![]).map(|y| y.is_empty() || y.trim() == "{}"), Ok(true));
}

#[test]
fn documented_feed_entry_takes_ten_recent_articles_into_news() {
    let config = FeedConfig {
        show_errors: false,
        max_age: 1,
        feed_limit: 2,
        schedule: String::new(),
        schedule_enabled: false,
        feed: vec![feed_entry("https://yourfeedurl.com/rss.xml", 10, "News", 3)],
    };
    let recent = "Fri, 20 Sep 2024 14:35:19 GMT";
    let four_days = "Tue, 17 Sep 2024 00:00:00 GMT";
    let mut items: Vec<(String, String, &str)> = Vec::new();
    items.push(("Old".to_string(), "https://n.example/old".to_string(), four_days));
    for n in 0..12 {
        items.push((format!("S{}", n), format!("https://n.example/{}", n), recent));
    }
    let refs: Vec<(&str, &str, &str)> = items.iter().map(|(t, l, d)| (t.as_str(), l.as_str(), *d)).collect();
    let articles = plan_edition(&config, &vec![Some(rss(&refs))], NOW).unwrap();
    // Ten items are looked at; the four-day-old one among them is left out.
    assert_eq!(articles.len(), 9);
    assert!(articles.iter().all(|a| a.section == "News"));
    assert!(articles.iter().all(|a| a.title != "Old"));
    assert_eq!(articles[0].key, 2);
    assert_eq!(articles[8].key, 10);
}

#[test]
fn pressable_editions_plan_the_same_articles() {
    let config = FeedConfig {
        show_errors: false,
        max_age: 3,
        feed_limit: 0,
        schedule: String::new(),
        schedule_enabled: false,
        feed: vec![feed_entry("https://a.example/rss", 0, "World", 0)],
    };
    let date = "Fri, 20 Sep 2024 14:35:19 GMT";
    let good = vec![Some(rss(&[("A1", "https://a.example/1", date)]))];
    assert!(edition_can_be_pressed(&config, &good, NOW));
    let articles = plan_edition_articles(&config, &good, NOW);
    assert_eq!(articles.len(), 1);
    assert_eq!(articles[0].title, "A1");
    let bad = vec![Some(rss(&[("A1", "https://a.example/1", "not a date")]))];
    assert!(!edition_can_be_pressed(&config, &bad, NOW));
    assert!(plan_edition(&config, &bad, NOW).is_none());
}

#[test]
fn readable_entries_always_get_a_bibliography() {
    let entries = vec![biblio("key-1", "First story", "https://news.example/1")];
    let written = write_bibliography(&entries).expect("serialized");
    assert_eq!(Ok(written), render_bibliography(&entries));
}
