//! Pressing: which articles of which feeds go into an edition, and the
//! content and bibliography records made from them.

use vstd::prelude::*;
use crate::clock::{
    BibDate, Moment, PublishedAt, age_limit_ok, age_limit_representable, article_too_old,
    parse_publication_date, rfc2822_date, too_old,
};
use crate::config::{
    FeedConfig, FeedConfigView, FeedEntryView, effective_limit, effective_max_age,
    law_feed_limit_overrides_global, law_max_age_overrides_global,
};
use crate::feed::{FeedChannel, FeedChannelView, FeedItemView, opt_text, rss_channel};
use crate::text::{decimal, lemma_decimal_injective, push_decimal};

verus! {

/// An article chosen for the edition, before its full text is fetched.
pub struct Article {
    /// Section of the paper, from the feed's configuration.
    pub section: String,
    /// The source, as the feed describes itself.
    pub source: String,
    /// The link to the article.
    pub link: String,
    /// The publication date as the feed writes it.
    pub pub_date: String,
    /// The parsed publication date.
    pub published: PublishedAt,
    /// The title, or "No Title".
    pub title: String,
    /// The feed's synopsis, or "No Content"; printed when no full text is found.
    pub summary: String,
    /// The article's number, which its bibliography key is made of.
    pub key: usize,
}

/// The mathematical value of an [`Article`].
pub struct ArticleView {
    pub section: Seq<char>,
    pub source: Seq<char>,
    pub link: Seq<char>,
    pub pub_date: Seq<char>,
    pub published: PublishedAt,
    pub title: Seq<char>,
    pub summary: Seq<char>,
    pub key: nat,
}

impl View for Article {
    type V = ArticleView;

    open spec fn view(&self) -> ArticleView {
        ArticleView {
            section: self.section@,
            source: self.source@,
            link: self.link@,
            pub_date: self.pub_date@,
            published: self.published,
            title: self.title@,
            summary: self.summary@,
            key: self.key as nat,
        }
    }
}

/// The title printed for an item.
pub open spec fn item_title(item: FeedItemView) -> Seq<char> {
    match item.title {
        Some(t) => t,
        None => "No Title"@,
    }
}

/// The synopsis kept for an item.
pub open spec fn item_summary(item: FeedItemView) -> Seq<char> {
    match item.description {
        Some(d) => d,
        None => "No Content"@,
    }
}

/// How many article numbers a feed of `n` items uses up: every item looked
/// at takes one, including the one past the limit that ends the feed.
pub open spec fn keys_used(n: nat, limit: usize) -> nat {
    if limit > 0 && n > limit {
        (limit + 1) as nat
    } else {
        n
    }
}

/// Prepends an article to a planned list, keeping a failed plan failed.
pub open spec fn prepend(a: ArticleView, rest: Option<Seq<ArticleView>>) -> Option<Seq<ArticleView>> {
    match rest {
        Some(r) => Some(seq![a] + r),
        None => None,
    }
}

/// Puts planned articles before a planned list, keeping a failed plan failed.
pub open spec fn join(done: Seq<ArticleView>, rest: Option<Seq<ArticleView>>) -> Option<Seq<ArticleView>> {
    match rest {
        Some(r) => Some(done + r),
        None => None,
    }
}

/// The articles taken from the items of one feed, from item `k` on. Items
/// are looked at in order until the limit (when positive) is passed; an item
/// whose publication date is missing or unreadable, an age limit that no
/// span can hold, or a fresh item without a link makes the plan fail
/// (`None`); items older than `max_age` days are passed over. Item `k` gets
/// the number `first_key + k`.
pub open spec fn plan_items(
    items: Seq<FeedItemView>,
    k: nat,
    limit: usize,
    max_age: usize,
    now: Moment,
    first_key: nat,
    section: Seq<char>,
    source: Seq<char>,
) -> Option<Seq<ArticleView>>
    decreases items.len() - k,
{
    if k >= items.len() || (limit > 0 && k + 1 > limit) {
        Some(seq![])
    } else {
        let item = items[k as int];
        match item.pub_date {
            None => None,
            Some(text) => match rfc2822_date(text) {
                None => None,
                Some(p) => if !age_limit_representable(max_age) {
                    None
                } else if too_old(now, p.instant, max_age) {
                    plan_items(items, k + 1, limit, max_age, now, first_key, section, source)
                } else {
                    match item.link {
                        None => None,
                        Some(link) => prepend(
                            ArticleView {
                                section,
                                source,
                                link,
                                pub_date: text,
                                published: p,
                                title: item_title(item),
                                summary: item_summary(item),
                                key: first_key + k,
                            },
                            plan_items(items, k + 1, limit, max_age, now, first_key, section, source),
                        ),
                    }
                },
            },
        }
    }
}

/// The articles taken from one feed whose last used number is `last_key`,
/// and the last number used after it; `None` where the plan fails or the
/// numbers would pass `usize::MAX`.
pub open spec fn plan_feed(
    channel: FeedChannelView,
    section: Seq<char>,
    limit: usize,
    max_age: usize,
    now: Moment,
    last_key: nat,
) -> Option<(Seq<ArticleView>, nat)> {
    let used = keys_used(channel.items.len(), limit);
    if last_key + used > usize::MAX {
        None
    } else {
        match plan_items(
            channel.items,
            0,
            limit,
            max_age,
            now,
            last_key + 1,
            section,
            channel.description,
        ) {
            Some(articles) => Some((articles, last_key + used)),
            None => None,
        }
    }
}

/// The channel read from a fetched document; none where nothing was
/// fetched or the document is not a feed.
pub open spec fn channel_of(document: Option<Vec<u8>>) -> Option<FeedChannelView> {
    match document {
        Some(bytes) => rss_channel(bytes@),
        None => None,
    }
}

/// The articles of an edition, from feed `j` on: each feed of the
/// configuration, with its own limits where set, contributes its articles in
/// order; feeds that could not be fetched or read are passed over and use no
/// numbers.
pub open spec fn plan_feeds(
    config: FeedConfigView,
    documents: Seq<Option<Vec<u8>>>,
    j: nat,
    last_key: nat,
    now: Moment,
) -> Option<Seq<ArticleView>>
    decreases config.feed.len() - j,
{
    if j >= config.feed.len() {
        Some(seq![])
    } else {
        let entry = config.feed[j as int];
        match channel_of(documents[j as int]) {
            None => plan_feeds(config, documents, j + 1, last_key, now),
            Some(channel) => match plan_feed(
                channel,
                entry.section,
                effective_limit(entry, config),
                effective_max_age(entry, config),
                now,
                last_key,
            ) {
                None => None,
                Some((articles, next_key)) => join(
                    articles,
                    plan_feeds(config, documents, j + 1, next_key, now),
                ),
            },
        }
    }
}

/// The articles of the edition pressed at `now` from the configured feeds
/// and the documents fetched for them (one per feed, in the same order).
pub open spec fn edition_articles(
    config: FeedConfigView,
    documents: Seq<Option<Vec<u8>>>,
    now: Moment,
) -> Option<Seq<ArticleView>> {
    plan_feeds(config, documents, 0, 0, now)
}

/// The views of a list of articles.
pub open spec fn article_views(articles: Seq<Article>) -> Seq<ArticleView> {
    articles.map_values(|a: Article| a@)
}

fn text_or(t: &Option<String>, fallback: &str) -> (s: String)
    ensures
        s@ == (match opt_text(*t) {
            Some(v) => v,
            None => fallback@,
        }),
{
    match t {
        Some(v) => v.clone(),
        None => fallback.to_owned(),
    }
}

/// Plans the articles taken from one feed whose last used number is
/// `last_key`; `None` where [`plan_feed`] fails.
pub fn plan_feed_articles(
    channel: &FeedChannel,
    section: &String,
    limit: usize,
    max_age: usize,
    now: Moment,
    last_key: usize,
) -> (planned: Option<(Vec<Article>, usize)>)
    requires
        now.wf(),
    ensures
        match plan_feed(channel@, section@, limit, max_age, now, last_key as nat) {
            Some((articles, next)) => planned matches Some((v, k)) && article_views(v@) == articles
                && k == next,
            None => planned is None,
        },
{
    let n = channel.items.len();
    let used: usize = if limit > 0 && n > limit {
        limit + 1
    } else {
        n
    };
    if used > usize::MAX - last_key {
        return None;
    }
    if n == 0 {
        return Some((Vec::new(), last_key));
    }
    let first_key: usize = last_key + 1;
    let ghost items = channel@.items;
    let ghost source = channel@.description;
    let ghost whole = plan_items(items, 0, limit, max_age, now, first_key as nat, section@, source);
    let mut acc: Vec<Article> = Vec::new();
    let mut k: usize = 0;
    assert(article_views(acc@) =~= seq![]);
    while k < n && !(limit > 0 && k + 1 > limit)
        invariant
            n == channel.items@.len(),
            items == channel@.items,
            source == channel@.description,
            k <= n,
            first_key == last_key + 1,
            last_key + used <= usize::MAX,
            used == keys_used(n as nat, limit),
            now.wf(),
            whole == plan_items(items, 0, limit, max_age, now, first_key as nat, section@, source),
            whole == join(
                article_views(acc@),
                plan_items(items, k as nat, limit, max_age, now, first_key as nat, section@, source),
            ),
        decreases n - k,
    {
        let item = &channel.items[k];
        assert(item@ == items[k as int]);
        let text = match &item.pub_date {
            Some(t) => t,
            None => {
                return None;
            },
        };
        let published = match parse_publication_date(text.as_str()) {
            Some(p) => p,
            None => {
                return None;
            },
        };
        if !age_limit_ok(max_age) {
            return None;
        }
        if !article_too_old(now, published.instant, max_age) {
            let link = match &item.link {
                Some(l) => l,
                None => {
                    return None;
                },
            };
            assert(k < used);
            let article = Article {
                section: section.clone(),
                source: channel.description.clone(),
                link: link.clone(),
                pub_date: text.clone(),
                published,
                title: text_or(&item.title, "No Title"),
                summary: text_or(&item.description, "No Content"),
                key: first_key + k,
            };
            let ghost before = article_views(acc@);
            acc.push(article);
            proof {
                assert(article_views(acc@) =~= before.push(article@));
                let rest = plan_items(items, (k + 1) as nat, limit, max_age, now, first_key as nat, section@, source);
                match rest {
                    Some(r) => {
                        assert(before + (seq![article@] + r) =~= before.push(article@) + r);
                    },
                    None => {},
                }
            }
        }
        k = k + 1;
    }
    proof {
        assert(article_views(acc@) + seq![] =~= article_views(acc@));
    }
    Some((acc, last_key + used))
}


/// Reads a fetched document, if one was fetched.
fn read_document(document: &Option<Vec<u8>>) -> (channel: Option<FeedChannel>)
    ensures
        match channel_of(*document) {
            Some(c) => channel matches Some(ch) && ch@ == c,
            None => channel is None,
        },
{
    match document {
        Some(bytes) => crate::feed::parse_feed(bytes.as_slice()),
        None => None,
    }
}

/// Plans the articles of an edition, `None` where the plan fails.
fn plan_all_feeds(config: &FeedConfig, documents: &Vec<Option<Vec<u8>>>, now: Moment) -> (planned:
    Option<Vec<Article>>)
    requires
        documents@.len() == config@.feed.len(),
        now.wf(),
    ensures
        match edition_articles(config@, documents@, now) {
            Some(articles) => planned matches Some(v) && article_views(v@) == articles,
            None => planned is None,
        },
{
    let n = config.feed.len();
    let ghost whole = plan_feeds(config@, documents@, 0, 0, now);
    let mut acc: Vec<Article> = Vec::new();
    let mut last_key: usize = 0;
    let mut j: usize = 0;
    assert(article_views(acc@) =~= seq![]);
    while j < n
        invariant
            n == config@.feed.len(),
            n == config.feed@.len(),
            documents@.len() == n,
            j <= n,
            now.wf(),
            whole == plan_feeds(config@, documents@, 0, 0, now),
            whole == join(article_views(acc@), plan_feeds(config@, documents@, j as nat, last_key as nat, now)),
        decreases n - j,
    {
        let entry = &config.feed[j];
        assert(entry@ == config@.feed[j as int]);
        match read_document(&documents[j]) {
            None => {},
            Some(channel) => {
                let limit = entry.limit_under(config);
                let max_age = entry.max_age_under(config);
                match plan_feed_articles(&channel, &entry.section, limit, max_age, now, last_key) {
                    None => {
                        return None;
                    },
                    Some((articles, next_key)) => {
                        let ghost before = article_views(acc@);
                        let ghost added = article_views(articles@);
                        let mut articles = articles;
                        acc.append(&mut articles);
                        proof {
                            assert(article_views(acc@) =~= before + added);
                            let rest = plan_feeds(config@, documents@, (j + 1) as nat, next_key as nat, now);
                            match rest {
                                Some(r) => {
                                    assert(before + (added + r) =~= (before + added) + r);
                                },
                                None => {},
                            }
                        }
                        last_key = next_key;
                    },
                }
            },
        }
        j = j + 1;
    }
    proof {
        assert(article_views(acc@) + seq![] =~= article_views(acc@));
    }
    Some(acc)
}


/// A piece of content printed in the edition: one article, with the key of
/// its bibliography entry.
pub struct ContentEntry {
    /// The section where this article appears.
    pub section: String,
    /// The source of the article, in its text form.
    pub source: String,
    /// The link to the article.
    pub link: String,
    /// The publication date, as the feed gives it.
    pub pub_date: String,
    /// The title of the article.
    pub title: String,
    /// The key of the article's bibliography entry.
    pub bib_key: String,
    /// The text of the article, as much as could be found.
    pub content: String,
}

/// Whether an edition can be pressed at `now` from the configured feeds and
/// the documents fetched for them: every item looked at has a readable
/// publication date, every fresh one a link, every feed's age limit forms a
/// time span and the article numbers stay within `usize`.
pub fn edition_can_be_pressed(config: &FeedConfig, documents: &Vec<Option<Vec<u8>>>, now: Moment) -> (ok:
    bool)
    requires
        documents@.len() == config@.feed.len(),
        now.wf(),
    ensures
        ok == edition_articles(config@, documents@, now) is Some,
{
    plan_all_feeds(config, documents, now).is_some()
}

/// The articles of the edition pressed at `now`: `documents[j]` is what was
/// fetched for the `j`-th configured feed (`None` where fetching failed). The
/// edition must be one that can be pressed (see [`edition_can_be_pressed`]).
pub fn plan_edition_articles(config: &FeedConfig, documents: &Vec<Option<Vec<u8>>>, now: Moment) -> (articles:
    Vec<Article>)
    requires
        documents@.len() == config@.feed.len(),
        now.wf(),
        edition_articles(config@, documents@, now) is Some,
    ensures
        Some(article_views(articles@)) == edition_articles(config@, documents@, now),
{
    match plan_all_feeds(config, documents, now) {
        Some(v) => v,
        None => Vec::new(),
    }
}

/// Plans the articles of the edition pressed at `now`; `None` where the
/// edition cannot be pressed.
pub fn plan_edition(config: &FeedConfig, documents: &Vec<Option<Vec<u8>>>, now: Moment) -> (planned:
    Option<Vec<Article>>)
    requires
        documents@.len() == config@.feed.len(),
        now.wf(),
    ensures
        match edition_articles(config@, documents@, now) {
            Some(articles) => planned matches Some(v) && article_views(v@) == articles,
            None => planned is None,
        },
{
    if edition_can_be_pressed(config, documents, now) {
        Some(plan_edition_articles(config, documents, now))
    } else {
        None
    }
}

/// The content of an edition, in print order.
pub struct Press {
    pub content: Vec<ContentEntry>,
}

/// The kind of a bibliography entry.
#[derive(Clone, Copy, Debug, PartialEq, Eq, Structural)]
pub enum EntryKind {
    /// A page on the web.
    Web,
}

/// The bibliography entry of an article, linked to its [`ContentEntry`] by
/// its key.
pub struct BiblioEntry {
    /// The kind of item (always a web page here).
    pub entry_type: EntryKind,
    /// The key shared with the content entry.
    pub key: String,
    /// The title of the article.
    pub title: String,
    /// The date the article was published.
    pub date: BibDate,
    /// The location of the article.
    pub url: String,
}

/// The mathematical value of a [`ContentEntry`].
pub struct ContentEntryView {
    pub section: Seq<char>,
    pub source: Seq<char>,
    pub link: Seq<char>,
    pub pub_date: Seq<char>,
    pub title: Seq<char>,
    pub bib_key: Seq<char>,
    pub content: Seq<char>,
}

/// The mathematical value of a [`BiblioEntry`].
pub struct BiblioEntryView {
    pub entry_type: EntryKind,
    pub key: Seq<char>,
    pub title: Seq<char>,
    pub date: BibDate,
    pub url: Seq<char>,
}

impl View for ContentEntry {
    type V = ContentEntryView;

    open spec fn view(&self) -> ContentEntryView {
        ContentEntryView {
            section: self.section@,
            source: self.source@,
            link: self.link@,
            pub_date: self.pub_date@,
            title: self.title@,
            bib_key: self.bib_key@,
            content: self.content@,
        }
    }
}

impl View for BiblioEntry {
    type V = BiblioEntryView;

    open spec fn view(&self) -> BiblioEntryView {
        BiblioEntryView {
            entry_type: self.entry_type,
            key: self.key@,
            title: self.title@,
            date: self.date,
            url: self.url@,
        }
    }
}

/// The bibliography key of article number `n`: "key-" and the number.
pub open spec fn bib_key_text(n: nat) -> Seq<char> {
    seq!['k', 'e', 'y', '-'] + decimal(n)
}

/// The content entry of an article, with the full text found for it (the
/// feed's synopsis where none was found).
pub open spec fn content_of(a: ArticleView, full_text: Option<Seq<char>>) -> ContentEntryView {
    ContentEntryView {
        section: a.section,
        source: a.source,
        link: a.link,
        pub_date: a.pub_date,
        title: a.title,
        bib_key: bib_key_text(a.key),
        content: match full_text {
            Some(t) => t,
            None => a.summary,
        },
    }
}

/// The bibliography entry of an article.
pub open spec fn biblio_of(a: ArticleView) -> BiblioEntryView {
    BiblioEntryView {
        entry_type: EntryKind::Web,
        key: bib_key_text(a.key),
        title: a.title,
        date: a.published.date,
        url: a.link,
    }
}

/// The bibliography key of article number `n`.
pub fn bib_key(n: usize) -> (key: String)
    ensures
        key@ == bib_key_text(n as nat),
{
    let mut key = String::new();
    let prefix = "key-";
    proof {
        reveal_strlit("key-");
    }
    key.append(prefix);
    push_decimal(&mut key, n as u64);
    assert(key@ =~= bib_key_text(n as nat));
    key
}

/// The content entry and the bibliography entry of one article, given the
/// full text found for it, if any.
pub fn press_article(article: &Article, full_text: Option<String>) -> (entries: (ContentEntry, BiblioEntry))
    ensures
        entries.0@ == content_of(article@, opt_text(full_text)),
        entries.1@ == biblio_of(article@),
        entries.0.section@ == article.section@,
        entries.0.source@ == article.source@,
        entries.0.link@ == article.link@,
        entries.0.title@ == article.title@,
        entries.0.pub_date@ == article.pub_date@,
        entries.0.bib_key@ == entries.1.key@,
        entries.1.url@ == article.link@,
        entries.1.title@ == article.title@,
        entries.0.content@ == (match full_text {
            Some(t) => t@,
            None => article.summary@,
        }),
{
    let content = match full_text {
        Some(t) => t,
        None => article.summary.clone(),
    };
    let entry = ContentEntry {
        section: article.section.clone(),
        source: article.source.clone(),
        link: article.link.clone(),
        pub_date: article.pub_date.clone(),
        title: article.title.clone(),
        bib_key: bib_key(article.key),
        content,
    };
    let biblio = BiblioEntry {
        entry_type: EntryKind::Web,
        key: bib_key(article.key),
        title: article.title.clone(),
        date: article.published.date,
        url: article.link.clone(),
    };
    (entry, biblio)
}

/// The views of a list of content entries.
pub open spec fn content_views(entries: Seq<ContentEntry>) -> Seq<ContentEntryView> {
    entries.map_values(|e: ContentEntry| e@)
}

/// The views of a list of bibliography entries.
pub open spec fn biblio_views(entries: Seq<BiblioEntry>) -> Seq<BiblioEntryView> {
    entries.map_values(|e: BiblioEntry| e@)
}

/// The content of the edition and its bibliography: one content entry and
/// one bibliography entry per article, in order, `full_texts[i]` being the
/// text found for article `i`.
pub fn press_articles(articles: &Vec<Article>, full_texts: Vec<Option<String>>) -> (pressed: (Press, Vec<BiblioEntry>))
    requires
        full_texts@.len() == articles@.len(),
    ensures
        content_views(pressed.0.content@) == Seq::new(
            articles@.len(),
            |i: int| content_of(articles@[i]@, opt_text(full_texts@[i])),
        ),
        biblio_views(pressed.1@) == Seq::new(articles@.len(), |i: int| biblio_of(articles@[i]@)),
{
    let n = articles.len();
    let mut content: Vec<ContentEntry> = Vec::new();
    let mut biblio: Vec<BiblioEntry> = Vec::new();
    let mut texts = full_texts;
    let ghost given = texts@;
    let mut i: usize = 0;
    while i < n
        invariant
            n == articles@.len(),
            i <= n,
            texts@.len() == n,
            given.len() == n,
            forall|j: int| i <= j < n ==> texts@[j] == given[j],
            content_views(content@) == Seq::new(
                i as nat,
                |j: int| content_of(articles@[j]@, opt_text(given[j])),
            ),
            biblio_views(biblio@) == Seq::new(i as nat, |j: int| biblio_of(articles@[j]@)),
        decreases n - i,
    {
        let mut text: Option<String> = None;
        let ghost before_texts = texts@;
        texts.set_and_swap(i, &mut text);
        proof {
            assert(text == given[i as int]);
        }
        let (c, b) = press_article(&articles[i], text);
        let ghost cv = content_views(content@);
        let ghost bv = biblio_views(biblio@);
        content.push(c);
        biblio.push(b);
        proof {
            assert(content_views(content@) =~= cv.push(c@));
            assert(biblio_views(biblio@) =~= bv.push(b@));
            assert(content_views(content@) =~= Seq::new(
                (i + 1) as nat,
                |j: int| content_of(articles@[j]@, opt_text(given[j])),
            ));
            assert(biblio_views(biblio@) =~= Seq::new((i + 1) as nat, |j: int| biblio_of(articles@[j]@)));
        }
        i = i + 1;
    }
    (Press { content }, biblio)
}


/// What holds of the articles planned for one feed from item `k` on.
pub open spec fn planned_items_facts(
    r: Seq<ArticleView>,
    k: nat,
    n: nat,
    limit: usize,
    max_age: usize,
    now: Moment,
    first_key: nat,
) -> bool {
    &&& forall|i: int|
        0 <= i < r.len() ==> first_key + k <= #[trigger] r[i].key && r[i].key < first_key
            + keys_used(n, limit)
    &&& forall|i: int, j: int| 0 <= i < j < r.len() ==> r[i].key < r[j].key
    &&& forall|i: int| 0 <= i < r.len() ==> !too_old(now, #[trigger] r[i].published.instant, max_age)
    &&& forall|i: int|
        0 <= i < r.len() ==> rfc2822_date(#[trigger] r[i].pub_date) == Some(r[i].published)
    &&& (limit > 0 && k <= limit ==> k + r.len() <= limit)
}

/// The keys, dates and freshness of the articles planned for one feed from
/// item `k` on.
proof fn lemma_plan_items_facts(
    items: Seq<FeedItemView>,
    k: nat,
    limit: usize,
    max_age: usize,
    now: Moment,
    first_key: nat,
    section: Seq<char>,
    source: Seq<char>,
)
    ensures
        plan_items(items, k, limit, max_age, now, first_key, section, source) matches Some(r)
            ==> planned_items_facts(r, k, items.len(), limit, max_age, now, first_key),
    decreases items.len() - k,
{
    let whole = plan_items(items, k, limit, max_age, now, first_key, section, source);
    if k >= items.len() || (limit > 0 && k + 1 > limit) {
        assert(whole == Some(Seq::<ArticleView>::empty()));
    } else {
        lemma_plan_items_facts(items, k + 1, limit, max_age, now, first_key, section, source);
        let item = items[k as int];
        let rest = plan_items(items, k + 1, limit, max_age, now, first_key, section, source);
        if let Some(text) = item.pub_date {
            if let Some(p) = rfc2822_date(text) {
                if age_limit_representable(max_age) && too_old(now, p.instant, max_age) {
                    assert(whole == rest);
                    if let Some(tail) = rest {
                        assert(planned_items_facts(tail, k + 1, items.len(), limit, max_age, now, first_key));
                        assert(planned_items_facts(tail, k, items.len(), limit, max_age, now, first_key));
                    }
                }
                if age_limit_representable(max_age) && !too_old(now, p.instant, max_age) {
                    if let Some(link) = item.link {
                        if let Some(tail) = rest {
                            let a = ArticleView {
                                section,
                                source,
                                link,
                                pub_date: text,
                                published: p,
                                title: item_title(item),
                                summary: item_summary(item),
                                key: first_key + k,
                            };
                            let r = seq![a] + tail;
                            assert(whole == Some(r));
                            assert(planned_items_facts(tail, k + 1, items.len(), limit, max_age, now, first_key));
                            assert(k < keys_used(items.len(), limit));
                            assert(r.len() == tail.len() + 1);
                            assert forall|i: int| 0 < i < r.len() implies #[trigger] r[i] == tail[i - 1] by {}
                            assert(r[0] == a);
                            assert forall|i: int| 0 <= i < r.len() implies !too_old(
                                now,
                                #[trigger] r[i].published.instant,
                                max_age,
                            ) by {
                                if i > 0 {
                                    assert(r[i] == tail[i - 1]);
                                    assert(!too_old(now, tail[i - 1].published.instant, max_age));
                                }
                            }
                            assert forall|i: int| 0 <= i < r.len() implies rfc2822_date(
                                #[trigger] r[i].pub_date,
                            ) == Some(r[i].published) by {
                                if i > 0 {
                                    assert(r[i] == tail[i - 1]);
                                }
                            }
                            assert forall|i: int|
                                0 <= i < r.len() implies first_key + k <= #[trigger] r[i].key
                                && r[i].key < first_key + keys_used(items.len(), limit) by {
                                if i > 0 {
                                    assert(r[i] == tail[i - 1]);
                                }
                            }
                            assert forall|i: int, j: int| 0 <= i < j < r.len() implies r[i].key < r[j].key by {
                                if i > 0 {
                                    assert(r[i] == tail[i - 1]);
                                }
                                assert(r[j] == tail[j - 1]);
                            }
                            assert(planned_items_facts(r, k, items.len(), limit, max_age, now, first_key));
                        }
                    }
                }
            }
        }
    }
}

/// The keys of the articles planned from feed `j` on are above `last_key`
/// and increase.
proof fn lemma_plan_feeds_keys(
    config: FeedConfigView,
    documents: Seq<Option<Vec<u8>>>,
    j: nat,
    last_key: nat,
    now: Moment,
)
    ensures
        plan_feeds(config, documents, j, last_key, now) matches Some(r) ==> {
            &&& forall|i: int| 0 <= i < r.len() ==> last_key < #[trigger] r[i].key
            &&& forall|i: int, m: int| 0 <= i < m < r.len() ==> r[i].key < r[m].key
        },
    decreases config.feed.len() - j,
{
    if j >= config.feed.len() {
    } else {
        let entry = config.feed[j as int];
        match channel_of(documents[j as int]) {
            None => {
                lemma_plan_feeds_keys(config, documents, j + 1, last_key, now);
            },
            Some(channel) => {
                let limit = effective_limit(entry, config);
                let max_age = effective_max_age(entry, config);
                match plan_feed(channel, entry.section, limit, max_age, now, last_key) {
                    None => {},
                    Some((articles, next_key)) => {
                        lemma_plan_items_facts(
                            channel.items,
                            0,
                            limit,
                            max_age,
                            now,
                            last_key + 1,
                            entry.section,
                            channel.description,
                        );
                        lemma_plan_feeds_keys(config, documents, j + 1, next_key, now);
                        match plan_feeds(config, documents, j + 1, next_key, now) {
                            None => {},
                            Some(rest) => {
                                let all = articles + rest;
                                assert forall|i: int, m: int| 0 <= i < m < all.len() implies all[i].key
                                    < all[m].key by {
                                    if m < articles.len() {
                                    } else if i < articles.len() {
                                        assert(all[i] == articles[i]);
                                        assert(all[m] == rest[m - articles.len()]);
                                    } else {
                                        assert(all[i] == rest[i - articles.len()]);
                                        assert(all[m] == rest[m - articles.len()]);
                                    }
                                }
                                assert forall|i: int| 0 <= i < all.len() implies last_key
                                    < #[trigger] all[i].key by {
                                    if i < articles.len() {
                                        assert(all[i] == articles[i]);
                                    } else {
                                        assert(all[i] == rest[i - articles.len()]);
                                    }
                                }
                            },
                        }
                    },
                }
            },
        }
    }
}

/// The articles of an edition carry increasing numbers, so that no two of
/// them share a number.
pub proof fn law_edition_keys_increase(
    config: FeedConfigView,
    documents: Seq<Option<Vec<u8>>>,
    now: Moment,
)
    ensures
        edition_articles(config, documents, now) matches Some(r) ==> forall|i: int, j: int|
            0 <= i < j < r.len() ==> r[i].key < r[j].key,
{
    lemma_plan_feeds_keys(config, documents, 0, 0, now);
}

/// A feed contributes articles published within its age limit, no more than
/// its positive article limit, each with the date read from its feed, and
/// numbered after the feed's last used number up to the number it hands on.
pub proof fn law_feed_plan_respects_limits(
    channel: FeedChannelView,
    section: Seq<char>,
    limit: usize,
    max_age: usize,
    now: Moment,
    last_key: nat,
)
    ensures
        plan_feed(channel, section, limit, max_age, now, last_key) matches Some((r, next)) ==> {
            &&& limit > 0 ==> r.len() <= limit
            &&& forall|i: int|
                0 <= i < r.len() ==> !too_old(now, #[trigger] r[i].published.instant, max_age)
            &&& forall|i: int|
                0 <= i < r.len() ==> rfc2822_date(#[trigger] r[i].pub_date) == Some(r[i].published)
            &&& forall|i: int| 0 <= i < r.len() ==> last_key < #[trigger] r[i].key <= next
        },
{
    lemma_plan_items_facts(channel.items, 0, limit, max_age, now, last_key + 1, section, channel.description);
}

/// A content entry and the bibliography entry made from the same article
/// share their key, and the bibliography entry points at the article.
pub proof fn law_content_and_bibliography_agree(a: ArticleView, full_text: Option<Seq<char>>)
    ensures
        content_of(a, full_text).bib_key == biblio_of(a).key,
        content_of(a, full_text).link == biblio_of(a).url,
        content_of(a, full_text).title == biblio_of(a).title,
{
}


/// No two articles of an edition share a bibliography key.
pub proof fn law_edition_bib_keys_distinct(
    config: FeedConfigView,
    documents: Seq<Option<Vec<u8>>>,
    now: Moment,
)
    ensures
        edition_articles(config, documents, now) matches Some(r) ==> forall|i: int, j: int|
            0 <= i < j < r.len() ==> bib_key_text(r[i].key) != bib_key_text(r[j].key),
{
    law_edition_keys_increase(config, documents, now);
    if let Some(r) = edition_articles(config, documents, now) {
        assert forall|i: int, j: int| 0 <= i < j < r.len() implies bib_key_text(r[i].key)
            != bib_key_text(r[j].key) by {
            if bib_key_text(r[i].key) == bib_key_text(r[j].key) {
                assert(decimal(r[i].key) =~= bib_key_text(r[i].key).subrange(4, bib_key_text(r[i].key).len() as int));
                assert(decimal(r[j].key) =~= bib_key_text(r[j].key).subrange(4, bib_key_text(r[j].key).len() as int));
                lemma_decimal_injective(r[i].key, r[j].key);
            }
        }
    }
}


/// A content entry carries its article's section, source, link, title and
/// date unchanged, and the full text where one was found (the synopsis
/// otherwise).
pub proof fn law_content_keeps_article_fields(a: ArticleView, full_text: Option<Seq<char>>)
    ensures
        content_of(a, full_text).section == a.section,
        content_of(a, full_text).source == a.source,
        content_of(a, full_text).link == a.link,
        content_of(a, full_text).title == a.title,
        content_of(a, full_text).pub_date == a.pub_date,
        full_text matches Some(t) ==> content_of(a, full_text).content == t,
        full_text is None ==> content_of(a, full_text).content == a.summary,
{
}

/// The articles a configured feed contributes respect the feed's own limits
/// where it sets them: no more than its own article limit, and none older
/// than its own age limit.
pub proof fn law_feed_own_limits_bound_its_articles(
    channel: FeedChannelView,
    entry: FeedEntryView,
    config: FeedConfigView,
    now: Moment,
    last_key: nat,
)
    ensures
        plan_feed(
            channel,
            entry.section,
            effective_limit(entry, config),
            effective_max_age(entry, config),
            now,
            last_key,
        ) matches Some((r, next)) ==> {
            &&& entry.feed_limit > 0 ==> r.len() <= entry.feed_limit
            &&& entry.max_age > 0 ==> forall|i: int|
                0 <= i < r.len() ==> !too_old(now, #[trigger] r[i].published.instant, entry.max_age)
            &&& forall|i: int| 0 <= i < r.len() ==> #[trigger] r[i].section == entry.section
        },
{
    law_feed_limit_overrides_global(entry, config);
    law_max_age_overrides_global(entry, config);
    law_feed_plan_respects_limits(
        channel,
        entry.section,
        effective_limit(entry, config),
        effective_max_age(entry, config),
        now,
        last_key,
    );
    lemma_plan_items_sections(
        channel.items,
        0,
        effective_limit(entry, config),
        effective_max_age(entry, config),
        now,
        last_key + 1,
        entry.section,
        channel.description,
    );
}

/// Every article planned for a feed carries the feed's section and source.
proof fn lemma_plan_items_sections(
    items: Seq<FeedItemView>,
    k: nat,
    limit: usize,
    max_age: usize,
    now: Moment,
    first_key: nat,
    section: Seq<char>,
    source: Seq<char>,
)
    ensures
        plan_items(items, k, limit, max_age, now, first_key, section, source) matches Some(r)
            ==> forall|i: int|
            0 <= i < r.len() ==> #[trigger] r[i].section == section && r[i].source == source,
    decreases items.len() - k,
{
    if k < items.len() && !(limit > 0 && k + 1 > limit) {
        lemma_plan_items_sections(items, k + 1, limit, max_age, now, first_key, section, source);
        let rest = plan_items(items, k + 1, limit, max_age, now, first_key, section, source);
        if let Some(r) = plan_items(items, k, limit, max_age, now, first_key, section, source) {
            if let Some(tail) = rest {
                assert forall|i: int| 0 <= i < r.len() implies #[trigger] r[i].section == section
                    && r[i].source == source by {
                    if r.len() == tail.len() + 1 && i > 0 {
                        assert(r[i] == tail[i - 1]);
                    }
                }
            }
        }
    }
}

} // verus!
