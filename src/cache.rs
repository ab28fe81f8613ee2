//! Deduplication of article URLs: the key of a URL, and a local cache of
//! keys with least-recently-used eviction.

use vstd::prelude::*;
use crate::error::Error;
use crate::text::{push_char, push_str, views};

verus! {

/// The host and path of a parsed URL.
pub struct UrlParts {
    /// The host, where the URL has one.
    pub host: Option<String>,
    /// The path, percent-encoded.
    pub path: String,
    /// The whole URL, serialized.
    pub href: String,
}

/// The plain values of [`UrlParts`].
pub struct UrlPartsView {
    pub host: Option<Seq<char>>,
    pub path: Seq<char>,
    pub href: Seq<char>,
}

impl View for UrlParts {
    type V = UrlPartsView;

    open spec fn view(&self) -> UrlPartsView {
        UrlPartsView {
            host: match self.host {
                Some(h) => Some(h@),
                None => None,
            },
            path: self.path@,
            href: self.href@,
        }
    }
}

/// What url's parser makes of a string: `None` where it refuses it, else
/// the host, path and serialization of the URL.
pub uninterp spec fn url_parts(s: Seq<char>) -> Option<UrlPartsView>;

/// Relies on `url::Url::parse`, `Url::host_str`, `Url::path` and
/// `Url::as_str`: the URL's parts, or `None` where the string is no URL.
#[verifier::external_body]
pub(crate) fn parse_url(s: &str) -> (r: Option<UrlParts>)
    ensures
        r is None <==> url_parts(s@) is None,
        r matches Some(p) ==> url_parts(s@) == Some(p@),
{
    url::Url::parse(s).ok().map(
        |u|
            UrlParts {
                host: u.host_str().map(String::from),
                path: u.path().to_string(),
                href: u.as_str().to_string(),
            },
    )
}

/// `p` without its leading slashes.
pub open spec fn trim_slashes(p: Seq<char>) -> Seq<char>
    decreases p.len(),
{
    if p.len() > 0 && p[0] == '/' {
        trim_slashes(p.drop_first())
    } else {
        p
    }
}

/// The key of a URL: its host (empty where it has none), a slash, and its
/// path without leading slashes. Scheme, query and fragment take no part.
pub open spec fn key_of(u: UrlPartsView) -> Seq<char> {
    let host = match u.host {
        Some(h) => h,
        None => Seq::<char>::empty(),
    };
    host + seq!['/'] + trim_slashes(u.path)
}

/// The key of the URL that `url` spells, where it is one.
pub open spec fn normalized(url: Seq<char>) -> Option<Seq<char>> {
    match url_parts(url) {
        Some(u) => Some(key_of(u)),
        None => None,
    }
}

/// The cache key of a parsed URL.
pub fn cache_key(url: &UrlParts) -> (r: String)
    ensures
        r@ == key_of(url@),
{
    let mut r = String::new();
    match &url.host {
        Some(h) => push_str(&mut r, h.as_str()),
        None => {},
    }
    push_char(&mut r, '/');
    let path = crate::text::chars_of(url.path.as_str());
    let mut i: usize = 0;
    assert(path@.subrange(0, path@.len() as int) == path@);
    while i < path.len() && path[i] == '/'
        invariant
            i <= path.len(),
            trim_slashes(path@) == trim_slashes(path@.subrange(i as int, path@.len() as int)),
        decreases path.len() - i,
    {
        assert(path@.subrange(i as int, path@.len() as int).drop_first() == path@.subrange(
            i + 1,
            path@.len() as int,
        ));
        i = i + 1;
    }
    let ghost before = r@;
    let mut k: usize = i;
    while k < path.len()
        invariant
            i <= k <= path.len(),
            r@ == before + path@.subrange(i as int, k as int),
        decreases path.len() - k,
    {
        push_char(&mut r, path[k]);
        k = k + 1;
    }
    r
}

/// The cache key of an article URL; `None` where it is no URL.
pub fn normalize(url: &str) -> (r: Option<String>)
    ensures
        r is None <==> normalized(url@) is None,
        r matches Some(k) ==> normalized(url@) == Some(k@),
{
    match parse_url(url) {
        Some(parts) => Some(cache_key(&parts)),
        None => None,
    }
}

/// Two URLs that the parser reads with the same host and path have the
/// same key, whatever their scheme, query string or fragment.
pub proof fn lemma_key_ignores_query(a: Seq<char>, b: Seq<char>)
    requires
        url_parts(a) is Some,
        url_parts(b) is Some,
        url_parts(a)->0.host == url_parts(b)->0.host,
        url_parts(a)->0.path == url_parts(b)->0.path,
    ensures
        normalized(a) == normalized(b),
{
}

/// Whether a lookup in a remote store counts as "seen". A failed lookup
/// counts as not seen, so that no article is dropped for it.
pub fn seen_from_lookup(lookup: &Result<Option<bool>, Error>) -> (r: bool)
    ensures
        r <==> (lookup matches Ok(v) && v is Some),
{
    match lookup {
        Ok(Some(_)) => true,
        _ => false,
    }
}

/// `c` after an access to `k`: `k`, if present, moves to the end.
pub open spec fn touched(c: Seq<Seq<char>>, k: Seq<char>) -> Seq<Seq<char>> {
    if c.contains(k) {
        let i = choose|i: int| 0 <= i < c.len() && c[i] == k;
        c.remove(i).push(k)
    } else {
        c
    }
}

/// `c` after `k` is recorded in a cache of capacity `cap`: an absent key
/// is added at the end, and where the cache is full the first key, the
/// one least recently accessed, leaves.
pub open spec fn marked(c: Seq<Seq<char>>, k: Seq<char>, cap: nat) -> Seq<Seq<char>> {
    if c.contains(k) {
        touched(c, k)
    } else if c.len() < cap {
        c.push(k)
    } else if cap == 0 {
        c
    } else {
        c.drop_first().push(k)
    }
}

/// A key that has just been recorded is found by the next lookup, in a
/// cache that can hold any key at all.
pub proof fn lemma_mark_then_has(c: Seq<Seq<char>>, k: Seq<char>, cap: nat)
    requires
        cap > 0,
    ensures
        marked(c, k, cap).contains(k),
{
    let m = marked(c, k, cap);
    assert(m.last() == k);
}

/// `c` after each of `ks` is recorded in turn.
pub open spec fn marked_all(c: Seq<Seq<char>>, ks: Seq<Seq<char>>, cap: nat) -> Seq<Seq<char>>
    decreases ks.len(),
{
    if ks.len() == 0 {
        c
    } else {
        marked(marked_all(c, ks.drop_last(), cap), ks.last(), cap)
    }
}

proof fn lemma_marked_all_fits(ks: Seq<Seq<char>>, cap: nat)
    requires
        ks.len() <= cap,
        ks.no_duplicates(),
    ensures
        marked_all(Seq::<Seq<char>>::empty(), ks, cap) == ks,
    decreases ks.len(),
{
    if ks.len() > 0 {
        let pre = ks.drop_last();
        assert(pre.no_duplicates());
        lemma_marked_all_fits(pre, cap);
        assert(!pre.contains(ks.last())) by {
            if pre.contains(ks.last()) {
                let j = choose|j: int| 0 <= j < pre.len() && pre[j] == ks.last();
                assert(ks[j] == ks[ks.len() - 1]);
            }
        }
        assert(pre.push(ks.last()) == ks);
    }
}

/// Recording `cap + 1` distinct keys in turn in an empty cache of capacity
/// `cap` evicts the first of them, the least recently accessed, and keeps
/// all the others.
pub proof fn lemma_eviction_of_least_recent(ks: Seq<Seq<char>>, cap: nat)
    requires
        cap > 0,
        ks.len() == cap + 1,
        ks.no_duplicates(),
    ensures
        !marked_all(Seq::<Seq<char>>::empty(), ks, cap).contains(ks[0]),
        forall|i: int|
            1 <= i < ks.len() ==> #[trigger] marked_all(Seq::<Seq<char>>::empty(), ks, cap).contains(
                ks[i],
            ),
{
    let pre = ks.drop_last();
    assert(pre.no_duplicates());
    lemma_marked_all_fits(pre, cap);
    assert(!pre.contains(ks.last())) by {
        if pre.contains(ks.last()) {
            let j = choose|j: int| 0 <= j < pre.len() && pre[j] == ks.last();
            assert(ks[j] == ks[ks.len() - 1]);
        }
    }
    let m = marked_all(Seq::<Seq<char>>::empty(), ks, cap);
    assert(m == pre.drop_first().push(ks.last()));
    assert(m =~= ks.subrange(1, ks.len() as int));
    if m.contains(ks[0]) {
        let j = choose|j: int| 0 <= j < m.len() && m[j] == ks[0];
        assert(ks[j + 1] == ks[0]);
    }
    assert forall|i: int| 1 <= i < ks.len() implies #[trigger] m.contains(ks[i]) by {
        assert(m[i - 1] == ks[i]);
    }
}

/// An access moves the key to the end: after it, every other key was
/// accessed less recently.
pub proof fn lemma_access_makes_most_recent(c: Seq<Seq<char>>, k: Seq<char>)
    requires
        c.contains(k),
    ensures
        touched(c, k).len() == c.len(),
        touched(c, k).last() == k,
{
}

/// In a full cache, recording an absent key evicts exactly the key that
/// was accessed least recently, the first one, and keeps all others.
pub proof fn lemma_full_cache_evicts_least_recent(c: Seq<Seq<char>>, k: Seq<char>, cap: nat)
    requires
        cap > 0,
        c.len() == cap,
        c.no_duplicates(),
        !c.contains(k),
    ensures
        !marked(c, k, cap).contains(c[0]),
        marked(c, k, cap).contains(k),
        forall|i: int| 1 <= i < c.len() ==> #[trigger] marked(c, k, cap).contains(c[i]),
{
    let m = marked(c, k, cap);
    assert(m == c.drop_first().push(k));
    assert(m.last() == k);
    if m.contains(c[0]) {
        let j = choose|j: int| 0 <= j < m.len() && m[j] == c[0];
        if j < m.len() - 1 {
            assert(c[j + 1] == c[0]);
        }
    }
    assert forall|i: int| 1 <= i < c.len() implies #[trigger] m.contains(c[i]) by {
        assert(m[i - 1] == c[i]);
    }
}

/// A local cache of keys with a fixed capacity and least-recently-used
/// eviction.
#[derive(Debug)]
pub struct Cache {
    entries: Vec<String>,
    capacity: usize,
}

impl View for Cache {
    /// The keys, from the least recently accessed to the most recently
    /// accessed.
    type V = Seq<Seq<char>>;

    closed spec fn view(&self) -> Seq<Seq<char>> {
        views(self.entries@)
    }
}

impl Cache {
    /// The number of keys the cache holds at most.
    pub closed spec fn cap(&self) -> nat {
        self.capacity as nat
    }

    /// The keys are distinct and within the capacity.
    pub open spec fn wf(&self) -> bool {
        &&& self@.len() <= self.cap()
        &&& self@.no_duplicates()
    }

    /// Creates an empty cache that holds at most `capacity` keys.
    pub fn new(capacity: usize) -> (r: Self)
        ensures
            r.wf(),
            r@ == Seq::<Seq<char>>::empty(),
            r.cap() == capacity,
    {
        let r = Cache { entries: Vec::new(), capacity };
        assert(r@ =~= Seq::<Seq<char>>::empty());
        r
    }

    /// The number of keys the cache holds at most.
    pub fn capacity(&self) -> (r: usize)
        ensures
            r == self.cap(),
    {
        self.capacity
    }

    fn position(&self, key: &String) -> (r: Option<usize>)
        ensures
            r is None ==> !self@.contains(key@),
            r matches Some(i) ==> i < self@.len() && self@[i as int] == key@,
    {
        let mut i: usize = 0;
        while i < self.entries.len()
            invariant
                i <= self.entries.len(),
                forall|j: int| 0 <= j < i ==> self@[j] != key@,
            decreases self.entries.len() - i,
        {
            if self.entries[i] == *key {
                return Some(i);
            }
            i = i + 1;
        }
        None
    }

    /// Moves the key at `i` to the end.
    fn move_to_end(&mut self, i: usize)
        requires
            old(self).wf(),
            i < old(self)@.len(),
        ensures
            final(self).wf(),
            final(self).cap() == old(self).cap(),
            final(self)@ == touched(old(self)@, old(self)@[i as int]),
    {
        let ghost c = self@;
        let ghost k = c[i as int];
        let e = self.entries.remove(i);
        self.entries.push(e);
        assert(self@ =~= c.remove(i as int).push(k));
        assert(c.contains(k));
        assert(c.remove(i as int).push(k) == touched(c, k)) by {
            let j = choose|j: int| 0 <= j < c.len() && c[j] == k;
            assert(j == i);
        }
        assert(self@.no_duplicates()) by {
            assert forall|a: int, b: int|
                0 <= a < self@.len() && 0 <= b < self@.len() && a != b implies self@[a]
                != self@[b] by {
                let ia = if a == c.len() - 1 { i as int } else if a < i { a } else { a + 1 };
                let ib = if b == c.len() - 1 { i as int } else if b < i { b } else { b + 1 };
                assert(self@[a] == c[ia]);
                assert(self@[b] == c[ib]);
            }
        }
    }

    /// Whether `key` has been recorded; the access makes it the most
    /// recently used.
    pub fn has(&mut self, key: &str) -> (r: bool)
        requires
            old(self).wf(),
        ensures
            final(self).wf(),
            final(self).cap() == old(self).cap(),
            r == old(self)@.contains(key@),
            final(self)@ == touched(old(self)@, key@),
    {
        let k = key.to_owned();
        match self.position(&k) {
            Some(i) => {
                self.move_to_end(i);
                true
            },
            None => false,
        }
    }

    /// Records `key`, evicting the least recently used key where the cache
    /// is full.
    pub fn mark(&mut self, key: String)
        requires
            old(self).wf(),
        ensures
            final(self).wf(),
            final(self).cap() == old(self).cap(),
            final(self)@ == marked(old(self)@, key@, old(self).cap()),
            old(self).cap() > 0 ==> final(self)@.contains(key@),
    {
        proof {
            if self.cap() > 0 {
                lemma_mark_then_has(self@, key@, self.cap());
            }
        }
        match self.position(&key) {
            Some(i) => {
                self.move_to_end(i);
            },
            None => {
                let ghost c = self@;
                if self.entries.len() < self.capacity {
                    self.entries.push(key);
                    assert(self@ =~= c.push(key@));
                } else if self.capacity == 0 {
                } else {
                    self.entries.remove(0);
                    self.entries.push(key);
                    assert(self@ =~= c.drop_first().push(key@));
                }
                assert(self@.no_duplicates()) by {
                    assert forall|a: int, b: int|
                        0 <= a < self@.len() && 0 <= b < self@.len() && a != b implies self@[a]
                        != self@[b] by {
                        if self@.len() > c.len() {
                            if a < c.len() && b < c.len() {
                                assert(self@[a] == c[a] && self@[b] == c[b]);
                            } else if a < c.len() {
                                assert(self@[a] == c[a]);
                            } else if b < c.len() {
                                assert(self@[b] == c[b]);
                            }
                        } else if self@.len() == c.len() && c.len() > 0 && self@ != c {
                            if a < c.len() - 1 && b < c.len() - 1 {
                                assert(self@[a] == c[a + 1] && self@[b] == c[b + 1]);
                            } else if a < c.len() - 1 {
                                assert(self@[a] == c[a + 1]);
                            } else if b < c.len() - 1 {
                                assert(self@[b] == c[b + 1]);
                            }
                        }
                    }
                }
            },
        }
    }

    /// Whether the URL has been recorded, by its key.
    pub fn get(&mut self, url: &UrlParts) -> (r: bool)
        requires
            old(self).wf(),
        ensures
            final(self).wf(),
            final(self).cap() == old(self).cap(),
            r == old(self)@.contains(key_of(url@)),
            final(self)@ == touched(old(self)@, key_of(url@)),
    {
        let k = cache_key(url);
        self.has(k.as_str())
    }

    /// Records the URL, by its key.
    pub fn set(&mut self, url: &UrlParts)
        requires
            old(self).wf(),
        ensures
            final(self).wf(),
            final(self).cap() == old(self).cap(),
            final(self)@ == marked(old(self)@, key_of(url@), old(self).cap()),
            old(self).cap() > 0 ==> final(self)@.contains(key_of(url@)),
    {
        let k = cache_key(url);
        self.mark(k)
    }
}

} // verus!
