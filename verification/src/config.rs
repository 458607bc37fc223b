//! The feed configuration: global settings and the list of feeds to press.

use vstd::prelude::*;
use crate::seqs::{lemma_filter_len_le, lemma_filter_membership, lemma_filter_push, lemma_filter_twice};

verus! {

/// The section an article is printed in when its feed names none.
pub open spec fn default_section_text() -> Seq<char> {
    seq!['P', 'e', 'r', 's', 'o', 'n', 'a', 'l']
}

/// Returns the section used when a feed's configuration provides none.
pub fn default_section() -> (section: String)
    ensures
        section@ == default_section_text(),
{
    let s = "Personal";
    proof {
        reveal_strlit("Personal");
    }
    s.to_owned()
}

/// The global configuration of the press. Its `max_age` and `feed_limit`
/// apply to every feed that does not set its own (a value of 0 means "not set"
/// for a feed, and "no limit" once nothing overrides it).
#[derive(Debug)]
pub struct FeedConfig {
    /// Whether feed collection errors are reported.
    pub show_errors: bool,
    /// Max age, in days, of an article that may still be printed.
    pub max_age: usize,
    /// Maximum number of articles taken from each feed (0: no limit).
    pub feed_limit: usize,
    /// Schedule (a cron expression) for automated pressing.
    pub schedule: String,
    /// Whether the schedule is active.
    pub schedule_enabled: bool,
    /// The feeds to process, in order.
    pub feed: Vec<FeedEntry>,
}

/// One source feed: where it is, how many articles to take, how old they may
/// be and which section of the paper they go to.
#[derive(Debug)]
pub struct FeedEntry {
    /// Feed URL.
    pub url: String,
    /// Article count limit for this feed (0: use the global setting).
    pub feed_limit: usize,
    /// Section of the paper the feed's articles go to.
    pub section: String,
    /// Max age, in days, for this feed (0: use the global setting).
    pub max_age: usize,
}

/// The mathematical value of a [`FeedEntry`].
pub struct FeedEntryView {
    pub url: Seq<char>,
    pub feed_limit: usize,
    pub section: Seq<char>,
    pub max_age: usize,
}

/// The mathematical value of a [`FeedConfig`].
pub struct FeedConfigView {
    pub show_errors: bool,
    pub max_age: usize,
    pub feed_limit: usize,
    pub schedule: Seq<char>,
    pub schedule_enabled: bool,
    pub feed: Seq<FeedEntryView>,
}

impl View for FeedEntry {
    type V = FeedEntryView;

    open spec fn view(&self) -> FeedEntryView {
        FeedEntryView {
            url: self.url@,
            feed_limit: self.feed_limit,
            section: self.section@,
            max_age: self.max_age,
        }
    }
}

impl View for FeedConfig {
    type V = FeedConfigView;

    open spec fn view(&self) -> FeedConfigView {
        FeedConfigView {
            show_errors: self.show_errors,
            max_age: self.max_age,
            feed_limit: self.feed_limit,
            schedule: self.schedule@,
            schedule_enabled: self.schedule_enabled,
            feed: self.feed@.map_values(|e: FeedEntry| e@),
        }
    }
}

/// A URL that may be added to or removed from the feed list: not empty, and
/// made of ASCII characters only.
pub open spec fn acceptable_url(url: Seq<char>) -> bool {
    url.len() > 0 && vstd::utf8::is_ascii_chars(url)
}

/// The entry made for a URL added from the command line: three articles at
/// most, none older than three days, in the default section.
pub open spec fn added_entry(url: Seq<char>) -> FeedEntryView {
    FeedEntryView { url, feed_limit: 3, section: default_section_text(), max_age: 3 }
}

/// The feed list after adding `url`: an acceptable URL whose entry is not
/// listed yet is appended; anything else leaves the list as it was.
pub open spec fn feeds_after_add(feed: Seq<FeedEntryView>, url: Seq<char>) -> Seq<FeedEntryView> {
    if acceptable_url(url) && !feed.contains(added_entry(url)) {
        feed.push(added_entry(url))
    } else {
        feed
    }
}

/// Keeps the entries whose URL differs from `url`.
pub open spec fn url_differs(url: Seq<char>) -> spec_fn(FeedEntryView) -> bool {
    |e: FeedEntryView| e.url != url
}

/// The feed list after removing `url`: for an acceptable URL, every entry
/// with that URL is dropped and the others keep their order.
pub open spec fn feeds_after_remove(feed: Seq<FeedEntryView>, url: Seq<char>) -> Seq<FeedEntryView> {
    if acceptable_url(url) {
        feed.filter(url_differs(url))
    } else {
        feed
    }
}

/// The article limit that applies to a feed: its own when set, else the global one.
pub open spec fn effective_limit(entry: FeedEntryView, config: FeedConfigView) -> usize {
    if entry.feed_limit > 0 { entry.feed_limit } else { config.feed_limit }
}

/// The age limit (in days) that applies to a feed: its own when set, else the global one.
pub open spec fn effective_max_age(entry: FeedEntryView, config: FeedConfigView) -> usize {
    if entry.max_age > 0 { entry.max_age } else { config.max_age }
}

/// What a request to add a feed came to.
#[derive(PartialEq, Eq, Structural, Clone, Copy, Debug)]
pub enum AddOutcome {
    /// The URL is empty or not ASCII; nothing changed.
    InvalidUrl,
    /// The same entry was already listed; nothing changed.
    AlreadyListed,
    /// The entry was appended to the feed list.
    Added,
}

/// What a request to remove a feed came to.
#[derive(PartialEq, Eq, Structural, Clone, Copy, Debug)]
pub enum RemoveOutcome {
    /// The URL is empty or not ASCII; nothing changed.
    InvalidUrl,
    /// This many entries with that URL were removed (possibly none).
    Removed(usize),
}

/// Whether `url` may be added to or removed from the feed list.
pub fn is_acceptable_url(url: &str) -> (ok: bool)
    ensures
        ok == acceptable_url(url@),
{
    !url.is_empty() && url.is_ascii()
}

impl FeedEntry {
    /// The entry made for a URL added from the command line.
    pub fn for_url(url: &str) -> (entry: FeedEntry)
        ensures
            entry@ == added_entry(url@),
    {
        FeedEntry { url: url.to_owned(), feed_limit: 3, section: default_section(), max_age: 3 }
    }

    /// A copy of this entry.
    pub fn duplicate(&self) -> (copy: FeedEntry)
        ensures
            copy@ == self@,
    {
        FeedEntry {
            url: self.url.clone(),
            feed_limit: self.feed_limit,
            section: self.section.clone(),
            max_age: self.max_age,
        }
    }

    /// Field-by-field equality of two entries.
    pub fn same_as(&self, other: &FeedEntry) -> (same: bool)
        ensures
            same == (self@ == other@),
    {
        self.url == other.url && self.feed_limit == other.feed_limit && self.section
            == other.section && self.max_age == other.max_age
    }

    /// The article limit for this feed under `config`.
    pub fn limit_under(&self, config: &FeedConfig) -> (limit: usize)
        ensures
            limit == effective_limit(self@, config@),
            self.feed_limit > 0 ==> limit == self.feed_limit,
            self.feed_limit == 0 ==> limit == config.feed_limit,
    {
        if self.feed_limit > 0 {
            self.feed_limit
        } else {
            config.feed_limit
        }
    }

    /// The age limit (in days) for this feed under `config`.
    pub fn max_age_under(&self, config: &FeedConfig) -> (days: usize)
        ensures
            days == effective_max_age(self@, config@),
            self.max_age > 0 ==> days == self.max_age,
            self.max_age == 0 ==> days == config.max_age,
    {
        if self.max_age > 0 {
            self.max_age
        } else {
            config.max_age
        }
    }
}

impl PartialEq for FeedEntry {
    fn eq(&self, other: &FeedEntry) -> (same: bool) {
        self.same_as(other)
    }
}

impl vstd::std_specs::cmp::PartialEqSpecImpl for FeedEntry {
    open spec fn obeys_eq_spec() -> bool {
        true
    }

    open spec fn eq_spec(&self, other: &FeedEntry) -> bool {
        self@ == other@
    }
}

impl FeedConfig {
    /// Whether an entry equal to `entry` is listed.
    pub fn lists(&self, entry: &FeedEntry) -> (found: bool)
        ensures
            found == self@.feed.contains(entry@),
    {
        let ghost feed = self@.feed;
        let mut i: usize = 0;
        while i < self.feed.len()
            invariant
                i <= self.feed.len(),
                feed == self@.feed,
                forall|j: int| 0 <= j < i ==> feed[j] != entry@,
            decreases self.feed.len() - i,
        {
            if self.feed[i].same_as(entry) {
                assert(feed[i as int] == entry@);
                return true;
            }
            i = i + 1;
        }
        proof {
            if feed.contains(entry@) {
                let k = choose|k: int| 0 <= k < feed.len() && feed[k] == entry@;
                assert(feed[k] != entry@);
            }
        }
        false
    }
}

/// Adds a feed for `url` with the command line's defaults (three articles,
/// three days, the default section), unless the URL is unacceptable or the
/// very same entry is already listed.
pub fn add_feed_url(config: &mut FeedConfig, url: &str) -> (outcome: AddOutcome)
    ensures
        final(config)@.feed == feeds_after_add(old(config)@.feed, url@),
        final(config)@.show_errors == old(config)@.show_errors,
        final(config)@.max_age == old(config)@.max_age,
        final(config)@.feed_limit == old(config)@.feed_limit,
        final(config)@.schedule == old(config)@.schedule,
        final(config)@.schedule_enabled == old(config)@.schedule_enabled,
        outcome == (if !acceptable_url(url@) {
            AddOutcome::InvalidUrl
        } else if old(config)@.feed.contains(added_entry(url@)) {
            AddOutcome::AlreadyListed
        } else {
            AddOutcome::Added
        }),
{
    if !is_acceptable_url(url) {
        return AddOutcome::InvalidUrl;
    }
    let entry = FeedEntry::for_url(url);
    if config.lists(&entry) {
        return AddOutcome::AlreadyListed;
    }
    let ghost before = config.feed@;
    let ghost entry_view = entry@;
    config.feed.push(entry);
    proof {
        assert(config.feed@ == before.push(entry));
        assert(config@.feed =~= old(config)@.feed.push(entry_view));
    }
    AddOutcome::Added
}


/// Removes every feed whose URL is `url`, keeping the others in order; an
/// unacceptable URL leaves the list untouched.
pub fn remove_feed_url(config: &mut FeedConfig, url: &str) -> (outcome: RemoveOutcome)
    ensures
        final(config)@.feed == feeds_after_remove(old(config)@.feed, url@),
        final(config)@.show_errors == old(config)@.show_errors,
        final(config)@.max_age == old(config)@.max_age,
        final(config)@.feed_limit == old(config)@.feed_limit,
        final(config)@.schedule == old(config)@.schedule,
        final(config)@.schedule_enabled == old(config)@.schedule_enabled,
        outcome == (if !acceptable_url(url@) {
            RemoveOutcome::InvalidUrl
        } else {
            RemoveOutcome::Removed(
                (old(config)@.feed.len() - feeds_after_remove(old(config)@.feed, url@).len()) as usize,
            )
        }),
{
    if !is_acceptable_url(url) {
        return RemoveOutcome::InvalidUrl;
    }
    let ghost feed = config@.feed;
    let ghost pred = url_differs(url@);
    let target = url.to_owned();
    let mut kept: Vec<FeedEntry> = Vec::new();
    let mut removed: usize = 0;
    let n = config.feed.len();
    let mut i: usize = 0;
    while i < n
        invariant
            n == feed.len(),
            n == config.feed@.len(),
            feed == config@.feed,
            i <= n,
            target@ == url@,
            kept@.map_values(|e: FeedEntry| e@) == feed.take(i as int).filter(pred),
            removed == i - kept@.len(),
            pred == url_differs(url@),
        decreases n - i,
    {
        let e = config.feed[i].duplicate();
        assert(e@ == feed[i as int]);
        proof {
            lemma_filter_push(feed.take(i as int), pred, e@);
            assert(feed.take(i as int).push(e@) =~= feed.take(i + 1));
            lemma_filter_len_le(feed.take(i as int), pred);
        }
        if e.url != target {
            let ghost before = kept@;
            kept.push(e);
            assert(kept@.map_values(|e: FeedEntry| e@) =~= before.map_values(|e: FeedEntry| e@).push(e@));
        } else {
            removed = removed + 1;
        }
        i = i + 1;
    }
    assert(feed.take(n as int) =~= feed);
    config.feed = kept;
    proof {
        assert(config@.feed =~= kept@.map_values(|e: FeedEntry| e@));
    }
    RemoveOutcome::Removed(removed)
}


/// Adding an acceptable URL leaves its entry in the feed list.
pub proof fn law_added_feed_is_listed(feed: Seq<FeedEntryView>, url: Seq<char>)
    requires
        acceptable_url(url),
    ensures
        feeds_after_add(feed, url).contains(added_entry(url)),
{
    if !feed.contains(added_entry(url)) {
        let after = feed.push(added_entry(url));
        assert(after[feed.len() as int] == added_entry(url));
    }
}

/// Adding keeps every entry that was listed, in place, and adds at most one.
pub proof fn law_add_keeps_existing_feeds(feed: Seq<FeedEntryView>, url: Seq<char>)
    ensures
        feed.len() <= feeds_after_add(feed, url).len() <= feed.len() + 1,
        forall|i: int| 0 <= i < feed.len() ==> #[trigger] feeds_after_add(feed, url)[i] == feed[i],
{
}

/// Adding the same URL a second time changes nothing.
pub proof fn law_add_is_idempotent(feed: Seq<FeedEntryView>, url: Seq<char>)
    ensures
        feeds_after_add(feeds_after_add(feed, url), url) == feeds_after_add(feed, url),
{
    if acceptable_url(url) {
        law_added_feed_is_listed(feed, url);
    }
}

/// After removing an acceptable URL no listed feed has that URL, and exactly
/// the entries with other URLs remain.
pub proof fn law_removed_feed_is_gone(feed: Seq<FeedEntryView>, url: Seq<char>, e: FeedEntryView)
    requires
        acceptable_url(url),
    ensures
        feeds_after_remove(feed, url).contains(e) <==> (feed.contains(e) && e.url != url),
{
    lemma_filter_membership(feed, url_differs(url), e);
}

/// Removing the same URL a second time changes nothing.
pub proof fn law_remove_is_idempotent(feed: Seq<FeedEntryView>, url: Seq<char>)
    ensures
        feeds_after_remove(feeds_after_remove(feed, url), url) == feeds_after_remove(feed, url),
{
    if acceptable_url(url) {
        lemma_filter_twice(feed, url_differs(url));
    }
}

/// Removing a URL undoes adding it: the list is the one that removing it
/// from the list as it was gives.
pub proof fn law_remove_undoes_add(feed: Seq<FeedEntryView>, url: Seq<char>)
    ensures
        feeds_after_remove(feeds_after_add(feed, url), url) == feeds_after_remove(feed, url),
{
    if acceptable_url(url) && !feed.contains(added_entry(url)) {
        lemma_filter_push(feed, url_differs(url), added_entry(url));
    }
}

/// An unacceptable URL leaves the feed list untouched on add and on remove.
pub proof fn law_unacceptable_url_changes_nothing(feed: Seq<FeedEntryView>, url: Seq<char>)
    requires
        !acceptable_url(url),
    ensures
        feeds_after_add(feed, url) == feed,
        feeds_after_remove(feed, url) == feed,
{
}


/// A feed's own article limit, when set, is the one applied to it, whatever
/// the global limit; when unset the global limit applies.
pub proof fn law_feed_limit_overrides_global(entry: FeedEntryView, config: FeedConfigView)
    ensures
        entry.feed_limit > 0 ==> effective_limit(entry, config) == entry.feed_limit,
        entry.feed_limit == 0 ==> effective_limit(entry, config) == config.feed_limit,
{
}

/// A feed's own age limit, when set, is the one applied to it, whatever the
/// global limit; when unset the global limit applies.
pub proof fn law_max_age_overrides_global(entry: FeedEntryView, config: FeedConfigView)
    ensures
        entry.max_age > 0 ==> effective_max_age(entry, config) == entry.max_age,
        entry.max_age == 0 ==> effective_max_age(entry, config) == config.max_age,
{
}

} // verus!
