//! Feed documents: their items, and the article records made from them.

use vstd::prelude::*;
use crate::text::{copy_opt, opt_view, split, split_on, trim, trimmed, views};

verus! {

/// One item of a feed document, as the document gives it.
#[derive(Debug)]
pub struct FeedEntry {
    /// The item's title.
    pub title: Option<String>,
    /// The item's description.
    pub description: Option<String>,
    /// The article URL.
    pub link: Option<String>,
    /// The authors, separated by commas.
    pub author: Option<String>,
    /// The publication date, as written.
    pub pub_date: Option<String>,
    /// The URL of the enclosure, taken as the article's image.
    pub enclosure_url: Option<String>,
}

/// The plain values of a [`FeedEntry`].
pub struct FeedEntryView {
    pub title: Option<Seq<char>>,
    pub description: Option<Seq<char>>,
    pub link: Option<Seq<char>>,
    pub author: Option<Seq<char>>,
    pub pub_date: Option<Seq<char>>,
    pub enclosure_url: Option<Seq<char>>,
}

impl View for FeedEntry {
    type V = FeedEntryView;

    open spec fn view(&self) -> FeedEntryView {
        FeedEntryView {
            title: opt_view(self.title),
            description: opt_view(self.description),
            link: opt_view(self.link),
            author: opt_view(self.author),
            pub_date: opt_view(self.pub_date),
            enclosure_url: opt_view(self.enclosure_url),
        }
    }
}

/// The views of a sequence of feed entries.
pub open spec fn entry_views(v: Seq<FeedEntry>) -> Seq<FeedEntryView> {
    v.map_values(|e: FeedEntry| e@)
}

/// What rss's reader makes of a document: `None` where it refuses it, else
/// its items in document order.
pub uninterp spec fn feed_entries(document: Seq<u8>) -> Option<Seq<FeedEntryView>>;

/// Relies on `rss::Channel::read_from` and `Channel::items`: the items of
/// an RSS channel, or `None` where the document is not one.
#[verifier::external_body]
pub(crate) fn read_channel(document: &Vec<u8>) -> (r: Option<Vec<FeedEntry>>)
    ensures
        r is None <==> feed_entries(document@) is None,
        r matches Some(v) ==> feed_entries(document@) == Some(entry_views(v@)),
{
    let channel = rss::Channel::read_from(document.as_slice()).ok()?;
    Some(channel.items().iter().map(|i| FeedEntry {
        title: i.title.clone(),
        description: i.description.clone(),
        link: i.link.clone(),
        author: i.author.clone(),
        pub_date: i.pub_date.clone(),
        enclosure_url: i.enclosure.as_ref().map(|e| e.url.clone()),
    }).collect())
}

/// A point in time with the offset it was written with.
#[derive(Debug, Clone, Copy, PartialEq, Eq, Structural)]
pub struct Timestamp {
    /// Seconds since the Unix epoch.
    pub seconds: i64,
    /// The offset from UTC, in seconds.
    pub offset_seconds: i32,
}

/// What chrono reads as an RFC 2822 date, if it reads one.
pub uninterp spec fn rfc2822_time(s: Seq<char>) -> Option<Timestamp>;

/// What chrono reads as an RFC 3339 date, if it reads one.
pub uninterp spec fn rfc3339_time(s: Seq<char>) -> Option<Timestamp>;

/// Relies on `chrono::DateTime::parse_from_rfc2822`.
#[verifier::external_body]
fn parse_rfc2822(s: &str) -> (r: Option<Timestamp>)
    ensures
        r == rfc2822_time(s@),
{
    chrono::DateTime::parse_from_rfc2822(s).ok().map(
        |d| Timestamp { seconds: d.timestamp(), offset_seconds: d.offset().local_minus_utc() },
    )
}

/// Relies on `chrono::DateTime::parse_from_rfc3339`.
#[verifier::external_body]
fn parse_rfc3339(s: &str) -> (r: Option<Timestamp>)
    ensures
        r == rfc3339_time(s@),
{
    chrono::DateTime::parse_from_rfc3339(s).ok().map(
        |d| Timestamp { seconds: d.timestamp(), offset_seconds: d.offset().local_minus_utc() },
    )
}

/// The date that `s` gives: as RFC 2822, else as RFC 3339.
pub open spec fn date_of(s: Seq<char>) -> Option<Timestamp> {
    match rfc2822_time(s) {
        Some(t) => Some(t),
        None => rfc3339_time(s),
    }
}

/// Reads a publication date; `None` where it is neither RFC 2822 nor
/// RFC 3339.
pub fn parse_date(s: &str) -> (r: Option<Timestamp>)
    ensures
        r == date_of(s@),
{
    match parse_rfc2822(s) {
        Some(t) => Some(t),
        None => parse_rfc3339(s),
    }
}

/// The authors that a comma-separated field names, each trimmed.
pub open spec fn authors_of(field: Seq<char>) -> Seq<Seq<char>> {
    split_on(field, ',').map_values(|p: Seq<char>| trimmed(p))
}

/// Splits a comma-separated author field, trimming each name.
pub fn parse_authors(field: &str) -> (r: Vec<String>)
    ensures
        views(r@) == authors_of(field@),
{
    let parts = split(field, ',');
    let mut r: Vec<String> = Vec::new();
    let mut i: usize = 0;
    while i < parts.len()
        invariant
            i <= parts.len(),
            views(parts@) == split_on(field@, ','),
            views(r@) == authors_of(field@).subrange(0, i as int),
        decreases parts.len() - i,
    {
        let a = trim(parts[i].as_str());
        let ghost before = r@;
        r.push(a);
        assert(views(r@) == views(before).push(a@));
        assert(views(parts@)[i as int] == parts@[i as int]@);
        assert(authors_of(field@).subrange(0, i + 1) == authors_of(field@).subrange(
            0,
            i as int,
        ).push(trimmed(parts@[i as int]@)));
        i = i + 1;
    }
    assert(authors_of(field@).subrange(0, i as int) == authors_of(field@));
    r
}

/// An article read from a feed, with the content of its page once fetched.
#[derive(Debug)]
pub struct RssNews {
    /// The written content, as extracted from the article's page.
    pub content: String,
    /// The title of the article.
    pub title: String,
    /// A brief description of the article.
    pub description: Option<String>,
    /// The URL of the full article.
    pub url: String,
    /// The authors of the article.
    pub authors: Option<Vec<String>>,
    /// The publication date of the article.
    pub date: Option<Timestamp>,
    /// The URL of the article's image.
    pub image: Option<String>,
}

/// The plain values of an [`RssNews`].
pub struct RssNewsView {
    pub content: Seq<char>,
    pub title: Seq<char>,
    pub description: Option<Seq<char>>,
    pub url: Seq<char>,
    pub authors: Option<Seq<Seq<char>>>,
    pub date: Option<Timestamp>,
    pub image: Option<Seq<char>>,
}

impl View for RssNews {
    type V = RssNewsView;

    open spec fn view(&self) -> RssNewsView {
        RssNewsView {
            content: self.content@,
            title: self.title@,
            description: opt_view(self.description),
            url: self.url@,
            authors: match self.authors {
                Some(v) => Some(views(v@)),
                None => None,
            },
            date: self.date,
            image: opt_view(self.image),
        }
    }
}

/// `o`'s string, or the empty one.
pub open spec fn or_empty(o: Option<Seq<char>>) -> Seq<char> {
    match o {
        Some(s) => s,
        None => Seq::<char>::empty(),
    }
}

/// The article record made from a feed item, before its page is fetched.
pub open spec fn news_of(e: FeedEntryView) -> RssNewsView {
    RssNewsView {
        content: Seq::<char>::empty(),
        title: or_empty(e.title),
        description: e.description,
        url: or_empty(e.link),
        authors: match e.author {
            Some(a) => Some(authors_of(a)),
            None => None,
        },
        date: match e.pub_date {
            Some(d) => date_of(d),
            None => None,
        },
        image: e.enclosure_url,
    }
}

fn string_or_empty(o: &Option<String>) -> (r: String)
    ensures
        r@ == or_empty(opt_view(*o)),
{
    match o {
        Some(s) => s.clone(),
        None => String::new(),
    }
}

/// Makes the article record of a feed item, with empty content.
pub fn news_from_entry(e: &FeedEntry) -> (r: RssNews)
    ensures
        r@ == news_of(e@),
{
    let authors = match &e.author {
        Some(a) => Some(parse_authors(a.as_str())),
        None => None,
    };
    let date = match &e.pub_date {
        Some(d) => parse_date(d.as_str()),
        None => None,
    };
    RssNews {
        content: String::new(),
        title: string_or_empty(&e.title),
        description: copy_opt(&e.description),
        url: string_or_empty(&e.link),
        authors,
        date,
        image: copy_opt(&e.enclosure_url),
    }
}

} // verus!
