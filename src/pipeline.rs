//! One crawl cycle: which feed items are new, when each article is
//! fetched, and the record made from each fetched page.

use vstd::prelude::*;
use crate::cache::{cache_key, key_of, marked, parse_url, touched, url_parts, Cache};
use crate::feed::{
    entry_views, feed_entries, news_from_entry, news_of, or_empty, read_channel, FeedEntry,
    FeedEntryView, RssNews, RssNewsView,
};
use crate::scraper::{content_of, image_of, Extract, ExtractView, Extraction, Extractor};
use crate::text::views;

verus! {

/// Seconds between the fetch starts of consecutive new items of one feed.
pub const STAGGER_SECONDS: u64 = 10;

/// How many keys the local cache of a new crawler holds.
pub const DEFAULT_CAPACITY: usize = 100;

/// The delay before the fetch of the `n`-th new item of a feed (from 1),
/// counted from the start of the feed's batch; it saturates at `u64::MAX`.
pub open spec fn delay_for(n: nat) -> nat {
    if n * STAGGER_SECONDS <= u64::MAX {
        n * (STAGGER_SECONDS as nat)
    } else {
        u64::MAX as nat
    }
}

/// The delay before the fetch of the `n`-th new item of a feed, in seconds.
pub fn stagger_delay(n: u64) -> (r: u64)
    ensures
        r == delay_for(n as nat),
{
    if n <= u64::MAX / STAGGER_SECONDS {
        n * STAGGER_SECONDS
    } else {
        u64::MAX
    }
}

/// An article to fetch: its record so far, its host, and how long after
/// the start of its feed's batch the fetch starts.
#[derive(Debug)]
pub struct PlannedFetch {
    /// The record made from the feed item.
    pub news: RssNews,
    /// The host of the article URL.
    pub host: String,
    /// The cache key of the article URL.
    pub key: String,
    /// Seconds from the start of the feed's batch to the fetch.
    pub delay_seconds: u64,
}

/// The plain values of a [`PlannedFetch`].
pub struct PlannedView {
    pub news: RssNewsView,
    pub host: Seq<char>,
    pub key: Seq<char>,
    pub delay: nat,
}

/// When a new article is recorded in the cache.
#[derive(Debug, Clone, Copy, PartialEq, Eq, Structural)]
pub enum MarkPolicy {
    /// When its fetch is planned, before the fetch: a failed fetch is not
    /// tried again in a later cycle.
    BeforeFetch,
    /// Once its page has been fetched: a failed fetch is tried again in a
    /// later cycle.
    AfterFetch,
}

/// Whether a fetch of `key` is among those planned.
pub open spec fn planned_key(ps: Seq<PlannedView>, key: Seq<char>) -> bool {
    exists|i: int| 0 <= i < ps.len() && #[trigger] ps[i].key == key
}

fn has_planned_key(ps: &Vec<PlannedFetch>, key: &String) -> (r: bool)
    ensures
        r == planned_key(planned_views(ps@), key@),
{
    let mut i: usize = 0;
    while i < ps.len()
        invariant
            i <= ps.len(),
            forall|j: int| 0 <= j < i ==> planned_views(ps@)[j].key != key@,
        decreases ps.len() - i,
    {
        if ps[i].key == *key {
            assert(planned_views(ps@)[i as int].key == key@);
            return true;
        }
        i = i + 1;
    }
    false
}

impl View for PlannedFetch {
    type V = PlannedView;

    open spec fn view(&self) -> PlannedView {
        PlannedView {
            news: self.news@,
            host: self.host@,
            key: self.key@,
            delay: self.delay_seconds as nat,
        }
    }
}

/// The views of a sequence of planned fetches.
pub open spec fn planned_views(v: Seq<PlannedFetch>) -> Seq<PlannedView> {
    v.map_values(|p: PlannedFetch| p@)
}

/// The host and cache key of a feed item's article, where its link is a
/// URL with a host.
pub open spec fn target_of(e: FeedEntryView) -> Option<(Seq<char>, Seq<char>)> {
    match url_parts(or_empty(e.link)) {
        Some(u) => match u.host {
            Some(h) => Some((h, key_of(u))),
            None => None,
        },
        None => None,
    }
}

/// The fetches planned so far and the cache after one more item: an item
/// without a usable URL, or whose key the cache holds, is skipped (the
/// lookup counts as an access); so is, when marking after the fetch, one
/// whose key is already planned. A new one is planned after those already
/// planned, and recorded at once when marking before the fetch.
pub open spec fn batch_step(
    acc: (Seq<PlannedView>, Seq<Seq<char>>),
    e: FeedEntryView,
    cap: nat,
    policy: MarkPolicy,
) -> (Seq<PlannedView>, Seq<Seq<char>>) {
    match target_of(e) {
        None => acc,
        Some((h, k)) => if acc.1.contains(k) {
            (acc.0, touched(acc.1, k))
        } else if policy == MarkPolicy::AfterFetch && planned_key(acc.0, k) {
            acc
        } else {
            (
                acc.0.push(
                    PlannedView { news: news_of(e), host: h, key: k, delay: delay_for(acc.0.len() + 1) },
                ),
                if policy == MarkPolicy::BeforeFetch {
                    marked(acc.1, k, cap)
                } else {
                    acc.1
                },
            )
        },
    }
}

/// The fetches planned for the items `es` of one feed, in order, and the
/// cache afterwards, from cache `c` of capacity `cap`.
pub open spec fn batch(
    c: Seq<Seq<char>>,
    es: Seq<FeedEntryView>,
    cap: nat,
    policy: MarkPolicy,
) -> (Seq<PlannedView>, Seq<Seq<char>>)
    decreases es.len(),
{
    if es.len() == 0 {
        (Seq::<PlannedView>::empty(), c)
    } else {
        batch_step(batch(c, es.drop_last(), cap, policy), es.last(), cap, policy)
    }
}

/// Plans the fetches of the new items of one feed, recording each in the
/// cache before its fetch where `policy` says so; the `i`-th new item
/// (from 1) waits `10 * i` seconds.
pub fn plan_batch(cache: &mut Cache, entries: &Vec<FeedEntry>, policy: MarkPolicy) -> (r: Vec<
    PlannedFetch,
>)
    requires
        old(cache).wf(),
    ensures
        final(cache).wf(),
        final(cache).cap() == old(cache).cap(),
        (planned_views(r@), final(cache)@) == batch(
            old(cache)@,
            entry_views(entries@),
            old(cache).cap(),
            policy,
        ),
{
    let ghost c0 = cache@;
    let ghost es = entry_views(entries@);
    let mut out: Vec<PlannedFetch> = Vec::new();
    let mut i: usize = 0;
    while i < entries.len()
        invariant
            i <= entries.len(),
            cache.wf(),
            cache.cap() == old(cache).cap(),
            c0 == old(cache)@,
            es == entry_views(entries@),
            out@.len() <= i,
            (planned_views(out@), cache@) == batch(c0, es.subrange(0, i as int), cache.cap(), policy),
        decreases entries.len() - i,
    {
        let ghost pre = es.subrange(0, i as int);
        assert(es.subrange(0, i + 1).drop_last() == pre);
        assert(es.subrange(0, i + 1).last() == entries@[i as int]@);
        let e = &entries[i];
        let news = news_from_entry(e);
        match parse_url(news.url.as_str()) {
            None => {},
            Some(parts) => {
                match &parts.host {
                    None => {},
                    Some(h) => {
                        let host = h.clone();
                        let key = cache_key(&parts);
                        let seen = cache.has(key.as_str());
                        let repeated = match policy {
                            MarkPolicy::AfterFetch => has_planned_key(&out, &key),
                            MarkPolicy::BeforeFetch => false,
                        };
                        if !seen && !repeated {
                            match policy {
                                MarkPolicy::BeforeFetch => cache.mark(key.clone()),
                                MarkPolicy::AfterFetch => {},
                            }
                            let delay = stagger_delay(out.len() as u64 + 1);
                            let ghost before = out@;
                            out.push(PlannedFetch { news, host, key, delay_seconds: delay });
                            assert(planned_views(out@) == planned_views(before).push(out@.last()@));
                        }
                    },
                }
            },
        }
        i = i + 1;
    }
    assert(es.subrange(0, i as int) == es);
    out
}

/// Within one feed's batch, the `i`-th new item (from 1) starts its fetch
/// `10 * i` seconds after the batch starts, for every `i` whose delay fits
/// in a `u64` (beyond, the delay saturates).
pub proof fn lemma_staggered_delays(
    c: Seq<Seq<char>>,
    es: Seq<FeedEntryView>,
    cap: nat,
    policy: MarkPolicy,
)
    ensures
        forall|i: int|
            0 <= i < batch(c, es, cap, policy).0.len() ==> #[trigger] batch(
                c,
                es,
                cap,
                policy,
            ).0[i].delay == delay_for((i + 1) as nat),
        forall|i: int|
            0 <= i < batch(c, es, cap, policy).0.len() && (i + 1) * 10 <= u64::MAX ==> #[trigger] batch(
                c,
                es,
                cap,
                policy,
            ).0[i].delay == (i + 1) * 10,
    decreases es.len(),
{
    if es.len() > 0 {
        lemma_staggered_delays(c, es.drop_last(), cap, policy);
    }
}

/// What one fetched feed document contributes to a cycle: `None` where
/// the fetch failed or the document does not parse, else its batch.
pub open spec fn feed_batch(
    c: Seq<Seq<char>>,
    fetched: Option<Seq<u8>>,
    cap: nat,
    policy: MarkPolicy,
) -> (Option<Seq<PlannedView>>, Seq<Seq<char>>) {
    match fetched {
        None => (None, c),
        Some(d) => match feed_entries(d) {
            None => (None, c),
            Some(es) => {
                let b = batch(c, es, cap, policy);
                (Some(b.0), b.1)
            },
        },
    }
}

/// The batches of a cycle over the fetched documents `fs`, one per feed in
/// order, and the cache afterwards.
pub open spec fn cycle(
    c: Seq<Seq<char>>,
    fs: Seq<Option<Seq<u8>>>,
    cap: nat,
    policy: MarkPolicy,
) -> (Seq<Option<Seq<PlannedView>>>, Seq<Seq<char>>)
    decreases fs.len(),
{
    if fs.len() == 0 {
        (Seq::<Option<Seq<PlannedView>>>::empty(), c)
    } else {
        let p = cycle(c, fs.drop_last(), cap, policy);
        let b = feed_batch(p.1, fs.last(), cap, policy);
        (p.0.push(b.0), b.1)
    }
}

proof fn lemma_cycle_len(c: Seq<Seq<char>>, fs: Seq<Option<Seq<u8>>>, cap: nat, policy: MarkPolicy)
    ensures
        cycle(c, fs, cap, policy).0.len() == fs.len(),
    decreases fs.len(),
{
    if fs.len() > 0 {
        lemma_cycle_len(c, fs.drop_last(), cap, policy);
    }
}

/// A feed whose fetch failed takes nothing from the others: the cycle
/// plans for every other feed what it plans when that feed is left out,
/// and leaves the cache as it would then.
pub proof fn lemma_failed_feed_is_isolated(
    c: Seq<Seq<char>>,
    fs: Seq<Option<Seq<u8>>>,
    a: int,
    cap: nat,
    policy: MarkPolicy,
)
    requires
        0 <= a < fs.len(),
        fs[a] is None,
    ensures
        cycle(c, fs, cap, policy).0 == cycle(c, fs.remove(a), cap, policy).0.insert(a, None),
        cycle(c, fs, cap, policy).1 == cycle(c, fs.remove(a), cap, policy).1,
    decreases fs.len(),
{
    let pre = fs.drop_last();
    lemma_cycle_len(c, pre, cap, policy);
    if a == fs.len() - 1 {
        assert(fs.remove(a) == pre);
    } else {
        assert(pre[a] is None);
        lemma_failed_feed_is_isolated(c, pre, a, cap, policy);
        assert(fs.remove(a).drop_last() == pre.remove(a));
        assert(fs.remove(a).last() == fs.last());
        lemma_cycle_len(c, pre.remove(a), cap, policy);
        let q = cycle(c, pre.remove(a), cap, policy);
        let b = feed_batch(q.1, fs.last(), cap, policy);
        assert(q.0.insert(a, None).push(b.0) == q.0.push(b.0).insert(a, None));
    }
}

/// The views of fetched documents.
pub open spec fn fetched_views(v: Seq<Option<Vec<u8>>>) -> Seq<Option<Seq<u8>>> {
    v.map_values(
        |o: Option<Vec<u8>>|
            match o {
                Some(d) => Some(d@),
                None => None,
            },
    )
}

/// The views of the batches of a cycle.
pub open spec fn batch_views(v: Seq<Option<Vec<PlannedFetch>>>) -> Seq<Option<Seq<PlannedView>>> {
    v.map_values(
        |b: Option<Vec<PlannedFetch>>|
            match b {
                Some(b) => Some(planned_views(b@)),
                None => None,
            },
    )
}

/// The view of a fetched document.
pub open spec fn fetched_view(o: Option<Vec<u8>>) -> Option<Seq<u8>> {
    match o {
        Some(d) => Some(d@),
        None => None,
    }
}

/// The view of a feed's batch.
pub open spec fn batch_view(b: Option<Vec<PlannedFetch>>) -> Option<Seq<PlannedView>> {
    match b {
        Some(b) => Some(planned_views(b@)),
        None => None,
    }
}

/// Plans the batch of one feed from its fetched document (`None` where the
/// fetch failed); `None` where there is no document or it does not parse.
pub fn plan_feed(cache: &mut Cache, fetched: &Option<Vec<u8>>, policy: MarkPolicy) -> (r: Option<
    Vec<PlannedFetch>,
>)
    requires
        old(cache).wf(),
    ensures
        final(cache).wf(),
        final(cache).cap() == old(cache).cap(),
        (batch_view(r), final(cache)@) == feed_batch(
            old(cache)@,
            fetched_view(*fetched),
            old(cache).cap(),
            policy,
        ),
{
    match fetched {
        None => None,
        Some(document) => match read_channel(document) {
            None => None,
            Some(entries) => Some(plan_batch(cache, &entries, policy)),
        },
    }
}

/// Plans one cycle over the documents fetched for each feed (`None` where
/// the fetch failed): one batch per feed, in order, `None` for a feed whose
/// fetch failed or whose document does not parse.
pub fn plan_cycle(cache: &mut Cache, fetched: &Vec<Option<Vec<u8>>>, policy: MarkPolicy) -> (r: Vec<
    Option<Vec<PlannedFetch>>,
>)
    requires
        old(cache).wf(),
    ensures
        final(cache).wf(),
        final(cache).cap() == old(cache).cap(),
        (batch_views(r@), final(cache)@) == cycle(
            old(cache)@,
            fetched_views(fetched@),
            old(cache).cap(),
            policy,
        ),
{
    let ghost c0 = cache@;
    let ghost fs = fetched_views(fetched@);
    let mut out: Vec<Option<Vec<PlannedFetch>>> = Vec::new();
    let mut i: usize = 0;
    while i < fetched.len()
        invariant
            i <= fetched.len(),
            cache.wf(),
            cache.cap() == old(cache).cap(),
            c0 == old(cache)@,
            fs == fetched_views(fetched@),
            (batch_views(out@), cache@) == cycle(c0, fs.subrange(0, i as int), cache.cap(), policy),
        decreases fetched.len() - i,
    {
        assert(fs.subrange(0, i + 1).drop_last() == fs.subrange(0, i as int));
        assert(fs[i as int] == fetched_view(fetched@[i as int]));
        let b = plan_feed(cache, &fetched[i], policy);
        let ghost before = out@;
        out.push(b);
        assert(batch_views(out@) == batch_views(before).push(batch_view(b)));
        i = i + 1;
    }
    assert(fs.subrange(0, i as int) == fs);
    out
}

/// An article whose URL has a host, with its cache key.
#[derive(Debug)]
pub struct Target {
    /// The record made from the feed item.
    pub news: RssNews,
    /// The host of the article URL.
    pub host: String,
    /// The cache key of the article URL.
    pub key: String,
}

/// Finds the host and cache key of a feed item's article; `None` where its
/// link is no URL with a host.
pub fn entry_target(e: &FeedEntry) -> (r: Option<Target>)
    ensures
        r is None <==> target_of(e@) is None,
        r matches Some(t) ==> target_of(e@) == Some((t.host@, t.key@)) && t.news@ == news_of(e@),
{
    let news = news_from_entry(e);
    match parse_url(news.url.as_str()) {
        None => None,
        Some(parts) => match &parts.host {
            None => None,
            Some(h) => {
                let host = h.clone();
                let key = cache_key(&parts);
                Some(Target { news, host, key })
            },
        },
    }
}

/// The targets of a feed document's items, in order, skipping items
/// without a usable URL.
pub open spec fn targets_of(es: Seq<FeedEntryView>) -> Seq<(Seq<char>, Seq<char>, RssNewsView)>
    decreases es.len(),
{
    if es.len() == 0 {
        Seq::empty()
    } else {
        let p = targets_of(es.drop_last());
        match target_of(es.last()) {
            Some((h, k)) => p.push((h, k, news_of(es.last()))),
            None => p,
        }
    }
}

/// The host, key and record of each target.
pub open spec fn target_triples(v: Seq<Target>) -> Seq<(Seq<char>, Seq<char>, RssNewsView)> {
    v.map_values(|t: Target| (t.host@, t.key@, t.news@))
}

/// Reads a fetched feed document into the targets of its items; `None`
/// where the document does not parse.
pub fn feed_targets(document: &Vec<u8>) -> (r: Option<Vec<Target>>)
    ensures
        r is None <==> feed_entries(document@) is None,
        r matches Some(v) ==> target_triples(v@) == targets_of(feed_entries(document@)->0),
{
    let entries = match read_channel(document) {
        None => {
            return None;
        },
        Some(e) => e,
    };
    let ghost es = entry_views(entries@);
    let mut out: Vec<Target> = Vec::new();
    let mut i: usize = 0;
    while i < entries.len()
        invariant
            i <= entries.len(),
            es == entry_views(entries@),
            es == feed_entries(document@)->0,
            target_triples(out@) == targets_of(es.subrange(0, i as int)),
        decreases entries.len() - i,
    {
        assert(es.subrange(0, i + 1).drop_last() == es.subrange(0, i as int));
        assert(es.subrange(0, i + 1).last() == entries@[i as int]@);
        match entry_target(&entries[i]) {
            Some(t) => {
                let ghost before = out@;
                out.push(t);
                assert(target_triples(out@) == target_triples(before).push(
                    (t.host@, t.key@, t.news@),
                ));
            },
            None => {},
        }
        i = i + 1;
    }
    assert(es.subrange(0, i as int) == es);
    Some(out)
}

/// The fetches planned for targets `ts` (record, host, key), given whether
/// each was already seen: the unseen ones whose key is not already
/// planned, in order, the `i`-th (from 1) after `10 * i` seconds.
pub open spec fn staggered(ts: Seq<(RssNewsView, Seq<char>, Seq<char>)>, seen: Seq<bool>) -> Seq<
    PlannedView,
>
    decreases ts.len(),
{
    if ts.len() == 0 || seen.len() != ts.len() {
        Seq::<PlannedView>::empty()
    } else {
        let p = staggered(ts.drop_last(), seen.drop_last());
        if seen.last() || planned_key(p, ts.last().2) {
            p
        } else {
            p.push(
                PlannedView {
                    news: ts.last().0,
                    host: ts.last().1,
                    key: ts.last().2,
                    delay: delay_for(p.len() + 1),
                },
            )
        }
    }
}

/// The record, host and key of each target.
pub open spec fn target_views(v: Seq<Target>) -> Seq<(RssNewsView, Seq<char>, Seq<char>)> {
    v.map_values(|t: Target| (t.news@, t.host@, t.key@))
}

/// Plans the fetches of one feed's targets, given for each whether the
/// cache in use had already seen it; a repeated key is planned once.
pub fn stagger(targets: Vec<Target>, seen: &Vec<bool>) -> (r: Vec<PlannedFetch>)
    requires
        targets.len() == seen.len(),
    ensures
        planned_views(r@) == staggered(target_views(targets@), seen@),
{
    let ghost ts = target_views(targets@);
    let n = seen.len();
    let mut rest = targets;
    let mut out: Vec<PlannedFetch> = Vec::new();
    let mut i: usize = 0;
    while i < n
        invariant
            i <= n,
            n == seen.len(),
            ts.len() == n,
            target_views(rest@) == ts.subrange(i as int, n as int),
            out@.len() <= i,
            planned_views(out@) == staggered(ts.subrange(0, i as int), seen@.subrange(0, i as int)),
        decreases n - i,
    {
        assert(ts.subrange(0, i + 1).drop_last() == ts.subrange(0, i as int));
        assert(seen@.subrange(0, i + 1).drop_last() == seen@.subrange(0, i as int));
        assert(rest@.len() == target_views(rest@).len());
        assert(target_views(rest@)[0] == (rest@[0].news@, rest@[0].host@, rest@[0].key@));
        let ghost old_rest = rest@;
        let t = rest.remove(0);
        assert(rest@ == old_rest.subrange(1, old_rest.len() as int));
        assert(target_views(rest@) =~= target_views(old_rest).subrange(1, old_rest.len() as int));
        assert(target_views(rest@) =~= ts.subrange(i + 1, n as int));
        if !seen[i] && !has_planned_key(&out, &t.key) {
            let delay = stagger_delay(out.len() as u64 + 1);
            let ghost before = out@;
            out.push(PlannedFetch { news: t.news, host: t.host, key: t.key, delay_seconds: delay });
            assert(planned_views(out@) == planned_views(before).push(out@.last()@));
        }
        i = i + 1;
    }
    assert(ts.subrange(0, n as int) == ts);
    assert(seen@.subrange(0, n as int) == seen@);
    out
}

/// The record of a fetched article: the content that the host's rule
/// extracts from the page, and the image of the feed, or else the one the
/// rule finds.
pub open spec fn hydrated(p: PlannedView, rule: Option<ExtractView>, html: Seq<char>) -> RssNewsView {
    RssNewsView {
        content: content_of(rule, html),
        title: p.news.title,
        description: p.news.description,
        url: p.news.url,
        authors: p.news.authors,
        date: p.news.date,
        image: match p.news.image {
            Some(i) => Some(i),
            None => image_of(rule, p.host, html),
        },
    }
}

/// An image that the feed gave is never replaced by one from the page.
pub proof fn lemma_feed_image_kept(p: PlannedView, rule: Option<ExtractView>, html: Seq<char>)
    requires
        p.news.image is Some,
    ensures
        hydrated(p, rule, html).image == p.news.image,
{
}

/// Completes a planned article with what its page yields; `None` where the
/// page could not be fetched, so that the article is dropped.
pub fn hydrate(extraction: &Extraction, planned: PlannedFetch, page: Option<String>) -> (r: Option<
    RssNews,
>)
    ensures
        page is None ==> r is None,
        page matches Some(html) ==> r matches Some(n) && n@ == hydrated(
            planned@,
            extraction.rule_for(planned.host@),
            html@,
        ),
{
    match page {
        None => None,
        Some(html) => {
            let extractor = Extractor::new(extraction, planned.host.as_str(), html.as_str());
            let mut news = planned.news;
            news.content = extractor.extract_content();
            if news.image.is_none() {
                news.image = extractor.extract_image();
            }
            Some(news)
        },
    }
}

/// The crawl manager: the feeds to read, the local cache of seen articles
/// and the extraction rules.
pub struct Crawler {
    cache: Cache,
    policy: MarkPolicy,
    delay: std::time::Duration,
    feeds: Vec<String>,
    /// Helps the extractor find the written content of the articles.
    pub extraction: Extraction,
}

impl Crawler {
    /// The keys of the local cache.
    pub closed spec fn seen(&self) -> Seq<Seq<char>> {
        self.cache@
    }

    /// The capacity of the local cache.
    pub closed spec fn capacity(&self) -> nat {
        self.cache.cap()
    }

    /// The URLs of the feeds.
    pub closed spec fn feed_list(&self) -> Seq<Seq<char>> {
        views(self.feeds@)
    }

    /// The period between cycles.
    pub closed spec fn period(&self) -> std::time::Duration {
        self.delay
    }

    /// When new articles are recorded in the cache.
    pub closed spec fn marking(&self) -> MarkPolicy {
        self.policy
    }

    /// The extraction rules.
    pub closed spec fn rules(&self) -> Seq<(Seq<char>, ExtractView)> {
        self.extraction@
    }

    /// The extraction rule for `host`, if any.
    pub open spec fn rule_for(&self, host: Seq<char>) -> Option<ExtractView> {
        crate::scraper::lookup(self.rules(), host)
    }

    /// The local cache is well formed.
    pub closed spec fn wf(&self) -> bool {
        self.cache.wf()
    }

    /// Creates a crawler with `delay` between cycles, no feeds, no rules,
    /// and an empty local cache.
    pub fn new(delay: std::time::Duration) -> (r: Self)
        ensures
            r.wf(),
            r.seen() == Seq::<Seq<char>>::empty(),
            r.capacity() == DEFAULT_CAPACITY,
            r.feed_list() == Seq::<Seq<char>>::empty(),
            r.period() == delay,
            r.marking() == MarkPolicy::BeforeFetch,
            forall|h: Seq<char>| #[trigger] r.rule_for(h) is None,
    {
        let r = Crawler {
            cache: Cache::new(DEFAULT_CAPACITY),
            policy: MarkPolicy::BeforeFetch,
            delay,
            feeds: Vec::new(),
            extraction: Extraction::new(),
        };
        assert(r.feed_list() =~= Seq::<Seq<char>>::empty());
        assert forall|h: Seq<char>| #[trigger] r.rule_for(h) is None by {
            assert(r.extraction.rule_for(h) is None);
        }
        r
    }

    /// Uses `cache` as the local cache.
    pub fn cache(self, cache: Cache) -> (r: Self)
        requires
            cache.wf(),
        ensures
            r.wf(),
            r.seen() == cache@,
            r.capacity() == cache.cap(),
            r.feed_list() == self.feed_list(),
            r.period() == self.period(),
            r.marking() == self.marking(),
            r.rules() == self.rules(),
    {
        Crawler { cache, ..self }
    }

    /// Records new articles in the cache as `policy` says.
    pub fn mark_policy(self, policy: MarkPolicy) -> (r: Self)
        ensures
            r.marking() == policy,
            r.wf() == self.wf(),
            r.seen() == self.seen(),
            r.capacity() == self.capacity(),
            r.feed_list() == self.feed_list(),
            r.period() == self.period(),
            r.rules() == self.rules(),
    {
        Crawler { policy, ..self }
    }

    /// When new articles are recorded in the cache.
    pub fn policy(&self) -> (r: MarkPolicy)
        ensures
            r == self.marking(),
    {
        self.policy
    }

    /// Sets the feeds to read.
    pub fn feeds(&mut self, feeds: Vec<String>)
        ensures
            final(self).feed_list() == views(feeds@),
            final(self).seen() == old(self).seen(),
            final(self).capacity() == old(self).capacity(),
            final(self).wf() == old(self).wf(),
            final(self).period() == old(self).period(),
            final(self).marking() == old(self).marking(),
            final(self).rules() == old(self).rules(),
    {
        self.feeds = feeds;
    }

    /// Adds an outlet: its feed, if any, to the feeds read, and its rule
    /// for the host of its home page, where that is a URL with a host.
    pub fn register(&mut self, home: &str, feed: Option<&str>, rule: Extract)
        ensures
            final(self).feed_list() == match feed {
                Some(f) => old(self).feed_list().push(f@),
                None => old(self).feed_list(),
            },
            forall|h: Seq<char>|
                #[trigger] final(self).rule_for(h) == match url_parts(home@) {
                    Some(u) if u.host == Some(h) => Some(rule@),
                    _ => old(self).rule_for(h),
                },
            final(self).seen() == old(self).seen(),
            final(self).capacity() == old(self).capacity(),
            final(self).wf() == old(self).wf(),
            final(self).period() == old(self).period(),
            final(self).marking() == old(self).marking(),
    {
        match feed {
            Some(f) => {
                let ghost before = self.feeds@;
                self.feeds.push(f.to_owned());
                assert(views(self.feeds@) == views(before).push(f@));
            },
            None => {},
        }
        let ghost t0 = self.extraction@;
        match parse_url(home) {
            Some(parts) => match parts.host {
                Some(h) => {
                    self.extraction.insert(h, rule);
                },
                None => {},
            },
            None => {},
        }
        assert forall|h: Seq<char>|
            #[trigger] self.rule_for(h) == match url_parts(home@) {
                Some(u) if u.host == Some(h) => Some(rule@),
                _ => crate::scraper::lookup(t0, h),
            } by {
            assert(self.rule_for(h) == self.extraction.rule_for(h));
        }
    }

    /// The URLs of the feeds.
    pub fn feed_urls(&self) -> (r: &Vec<String>)
        ensures
            views(r@) == self.feed_list(),
    {
        &self.feeds
    }

    /// The period between cycles.
    pub fn delay(&self) -> (r: std::time::Duration)
        ensures
            r == self.period(),
    {
        self.delay
    }

    /// Plans one cycle over the documents fetched for the feeds, with the
    /// local cache.
    pub fn plan_cycle(&mut self, fetched: &Vec<Option<Vec<u8>>>) -> (r: Vec<
        Option<Vec<PlannedFetch>>,
    >)
        requires
            old(self).wf(),
        ensures
            final(self).wf(),
            final(self).capacity() == old(self).capacity(),
            (batch_views(r@), final(self).seen()) == cycle(
                old(self).seen(),
                fetched_views(fetched@),
                old(self).capacity(),
                old(self).marking(),
            ),
            final(self).marking() == old(self).marking(),
            final(self).feed_list() == old(self).feed_list(),
            final(self).rules() == old(self).rules(),
    {
        plan_cycle(&mut self.cache, fetched, self.policy)
    }

    /// Plans the batch of one feed from its fetched document, with the local
    /// cache.
    pub fn plan_feed(&mut self, fetched: &Option<Vec<u8>>) -> (r: Option<Vec<PlannedFetch>>)
        requires
            old(self).wf(),
        ensures
            final(self).wf(),
            final(self).capacity() == old(self).capacity(),
            (batch_view(r), final(self).seen()) == feed_batch(
                old(self).seen(),
                fetched_view(*fetched),
                old(self).capacity(),
                old(self).marking(),
            ),
            final(self).marking() == old(self).marking(),
            final(self).feed_list() == old(self).feed_list(),
            final(self).rules() == old(self).rules(),
    {
        plan_feed(&mut self.cache, fetched, self.policy)
    }

    /// Records in the local cache an article whose page has been fetched,
    /// where new articles are recorded after their fetch.
    pub fn confirm_fetched(&mut self, planned: &PlannedFetch)
        requires
            old(self).wf(),
        ensures
            final(self).wf(),
            final(self).seen() == if old(self).marking() == MarkPolicy::AfterFetch {
                marked(old(self).seen(), planned.key@, old(self).capacity())
            } else {
                old(self).seen()
            },
            final(self).capacity() == old(self).capacity(),
            final(self).marking() == old(self).marking(),
            final(self).feed_list() == old(self).feed_list(),
            final(self).rules() == old(self).rules(),
    {
        match self.policy {
            MarkPolicy::AfterFetch => self.cache.mark(planned.key.clone()),
            MarkPolicy::BeforeFetch => {},
        }
    }

    /// Completes a planned article with its fetched page, by the rules of
    /// this crawler.
    pub fn hydrate(&self, planned: PlannedFetch, page: Option<String>) -> (r: Option<RssNews>)
        ensures
            page is None ==> r is None,
            page matches Some(html) ==> r matches Some(n) && n@ == hydrated(
                planned@,
                self.rule_for(planned.host@),
                html@,
            ),
    {
        hydrate(&self.extraction, planned, page)
    }
}

} // verus!
