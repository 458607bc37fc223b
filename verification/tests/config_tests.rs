use feedpress::config::{
    add_feed_url, default_section, is_acceptable_url, remove_feed_url, AddOutcome, FeedConfig,
    FeedEntry, RemoveOutcome,
};

fn entry(url: &str, limit: usize, section: &str, age: usize) -> FeedEntry {
    FeedEntry { url: url.to_string(), feed_limit: limit, section: section.to_string(), max_age: age }
}

fn config(feeds: Vec<FeedEntry>) -> FeedConfig {
    FeedConfig {
        show_errors: false,
        max_age: 3,
        feed_limit: 2,
        schedule: "0 0 6 * * *".to_string(),
        schedule_enabled: false,
        feed: feeds,
    }
}

fn urls(c: &FeedConfig) -> Vec<String> {
    c.feed.iter().map(|e| e.url.clone()).collect()
}

#[test]
fn default_section_is_personal() {
    assert_eq!(default_section(), "Personal");
}

#[test]
fn acceptable_urls() {
    assert!(is_acceptable_url("https://example.com/rss.xml"));
    assert!(!is_acceptable_url(""));
    assert!(!is_acceptable_url("https://exämple.com/rss.xml"));
}

#[test]
fn add_appends_entry_with_command_line_defaults() {
    let mut c = config(vec![entry("https://a.example/rss", 10, "News", 0)]);
    assert_eq!(add_feed_url(&mut c, "https://b.example/rss"), AddOutcome::Added);
    assert_eq!(urls(&c), vec!["https://a.example/rss", "https://b.example/rss"]);
    let added = &c.feed[1];
    assert_eq!(added.feed_limit, 3);
    assert_eq!(added.max_age, 3);
    assert_eq!(added.section, "Personal");
    assert_eq!(c.max_age, 3);
    assert_eq!(c.feed_limit, 2);
}

#[test]
fn add_twice_changes_nothing_the_second_time() {
    let mut c = config(vec![]);
    assert_eq!(add_feed_url(&mut c, "https://b.example/rss"), AddOutcome::Added);
    assert_eq!(add_feed_url(&mut c, "https://b.example/rss"), AddOutcome::AlreadyListed);
    assert_eq!(c.feed.len(), 1);
}

#[test]
fn add_keeps_a_differently_configured_entry_for_the_same_url() {
    // The listed entry differs from the command line's defaults, so a new one is added.
    let mut c = config(vec![entry("https://b.example/rss", 10, "News", 0)]);
    assert_eq!(add_feed_url(&mut c, "https://b.example/rss"), AddOutcome::Added);
    assert_eq!(c.feed.len(), 2);
}

#[test]
fn add_refuses_unacceptable_urls() {
    let mut c = config(vec![entry("https://a.example/rss", 1, "News", 1)]);
    assert_eq!(add_feed_url(&mut c, ""), AddOutcome::InvalidUrl);
    assert_eq!(add_feed_url(&mut c, "https://ü.example"), AddOutcome::InvalidUrl);
    assert_eq!(urls(&c), vec!["https://a.example/rss"]);
}

#[test]
fn remove_drops_every_entry_with_the_url() {
    let mut c = config(vec![
        entry("https://a.example/rss", 1, "News", 1),
        entry("https://b.example/rss", 1, "News", 1),
        entry("https://a.example/rss", 5, "Tech", 2),
        entry("https://c.example/rss", 1, "News", 1),
    ]);
    assert_eq!(remove_feed_url(&mut c, "https://a.example/rss"), RemoveOutcome::Removed(2));
    assert_eq!(urls(&c), vec!["https://b.example/rss", "https://c.example/rss"]);
    assert_eq!(remove_feed_url(&mut c, "https://a.example/rss"), RemoveOutcome::Removed(0));
    assert_eq!(c.feed.len(), 2);
}

#[test]
fn remove_refuses_unacceptable_urls() {
    let mut c = config(vec![entry("https://a.example/rss", 1, "News", 1)]);
    assert_eq!(remove_feed_url(&mut c, ""), RemoveOutcome::InvalidUrl);
    assert_eq!(c.feed.len(), 1);
}

#[test]
fn remove_undoes_add() {
    let mut c = config(vec![entry("https://a.example/rss", 1, "News", 1)]);
    add_feed_url(&mut c, "https://z.example/rss");
    remove_feed_url(&mut c, "https://z.example/rss");
    assert_eq!(urls(&c), vec!["https://a.example/rss"]);
}

#[test]
fn feed_settings_override_global_ones() {
    let c = config(vec![]);
    let own = entry("https://a.example/rss", 10, "News", 7);
    let unset = entry("https://b.example/rss", 0, "News", 0);
    assert_eq!(own.limit_under(&c), 10);
    assert_eq!(own.max_age_under(&c), 7);
    assert_eq!(unset.limit_under(&c), 2);
    assert_eq!(unset.max_age_under(&c), 3);
}

#[test]
fn entries_compare_field_by_field() {
    let a = entry("https://a.example/rss", 1, "News", 1);
    assert!(a.same_as(&a.duplicate()));
    assert!(!a.same_as(&entry("https://a.example/rss", 1, "News", 2)));
    assert!(!a.same_as(&entry("https://a.example/rss", 1, "Tech", 1)));
    let c = config(vec![a.duplicate()]);
    assert!(c.lists(&a));
    assert!(!c.lists(&FeedEntry::for_url("https://a.example/rss")));
}

#[test]
fn entries_have_equality() {
    let a = entry("https://a.example/rss", 1, "News", 1);
    assert_eq!(a, a.duplicate());
    assert_ne!(a, entry("https://b.example/rss", 1, "News", 1));
    assert_eq!(FeedEntry::for_url("https://z.example"), entry("https://z.example", 3, "Personal", 3));
}
