//! Feeds as the press reads them: a channel and its items.

use vstd::prelude::*;

verus! {

/// One item of a feed, with the parts the press reads.
pub struct FeedItem {
    pub title: Option<String>,
    pub link: Option<String>,
    pub description: Option<String>,
    /// The publication date as the feed writes it (RFC 2822).
    pub pub_date: Option<String>,
}

/// A feed channel, with the parts the press reads.
pub struct FeedChannel {
    pub title: String,
    pub description: String,
    pub items: Vec<FeedItem>,
}

/// The mathematical value of a [`FeedItem`].
pub struct FeedItemView {
    pub title: Option<Seq<char>>,
    pub link: Option<Seq<char>>,
    pub description: Option<Seq<char>>,
    pub pub_date: Option<Seq<char>>,
}

/// The mathematical value of a [`FeedChannel`].
pub struct FeedChannelView {
    pub title: Seq<char>,
    pub description: Seq<char>,
    pub items: Seq<FeedItemView>,
}

/// The view of an optional text.
pub open spec fn opt_text(t: Option<String>) -> Option<Seq<char>> {
    match t {
        Some(s) => Some(s@),
        None => None,
    }
}

impl View for FeedItem {
    type V = FeedItemView;

    open spec fn view(&self) -> FeedItemView {
        FeedItemView {
            title: opt_text(self.title),
            link: opt_text(self.link),
            description: opt_text(self.description),
            pub_date: opt_text(self.pub_date),
        }
    }
}

impl View for FeedChannel {
    type V = FeedChannelView;

    open spec fn view(&self) -> FeedChannelView {
        FeedChannelView {
            title: self.title@,
            description: self.description@,
            items: self.items@.map_values(|i: FeedItem| i@),
        }
    }
}

/// What the `rss` crate reads from a document, `None` where it refuses it.
pub uninterp spec fn rss_channel(document: Seq<u8>) -> Option<FeedChannelView>;

/// Reads an RSS document with `rss::Channel::read_from`.
/// Trusted: the result is the channel that function reads from the bytes
/// (`None` where it returns an error), with each item's title, link,
/// description and publication date carried over unchanged.
#[verifier::external_body]
fn read_rss_channel(document: &[u8]) -> (channel: Option<FeedChannel>)
    ensures
        match channel {
            Some(c) => rss_channel(document@) == Some(c@),
            None => rss_channel(document@) is None,
        },
{
    let c = rss::Channel::read_from(document).ok()?;
    let items = c.items.into_iter().map(|i: rss::Item| FeedItem {
        title: i.title, link: i.link, description: i.description, pub_date: i.pub_date,
    }).collect();
    Some(FeedChannel { title: c.title, description: c.description, items })
}

/// Reads a fetched feed document; `None` when it is not a feed.
pub fn parse_feed(document: &[u8]) -> (channel: Option<FeedChannel>)
    ensures
        match channel {
            Some(c) => rss_channel(document@) == Some(c@),
            None => rss_channel(document@) is None,
        },
{
    read_rss_channel(document)
}

} // verus!
