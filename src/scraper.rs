//! Per-host extraction rules, and the extraction of an article's body text
//! and lead image from its HTML.

use vstd::prelude::*;
use crate::text::{chars_of, copy_opt, opt_view, push_str};

verus! {

/// Selects elements by one attribute: class or id.
#[derive(Debug)]
pub struct Attribute {
    /// Extraction by class attribute.
    pub class: Option<String>,
    /// Extraction by id attribute.
    pub id: Option<String>,
}

/// The plain values of an [`Attribute`].
pub struct AttributeView {
    pub class: Option<Seq<char>>,
    pub id: Option<Seq<char>>,
}

impl View for Attribute {
    type V = AttributeView;

    open spec fn view(&self) -> AttributeView {
        AttributeView { class: opt_view(self.class), id: opt_view(self.id) }
    }
}

impl Default for Attribute {
    fn default() -> (r: Self)
        ensures
            r.class is None,
            r.id is None,
    {
        Attribute { class: None, id: None }
    }
}

impl Attribute {
    /// A copy of this attribute.
    pub fn duplicate(&self) -> (r: Self)
        ensures
            r@ == self@,
    {
        Attribute { class: copy_opt(&self.class), id: copy_opt(&self.id) }
    }
}

/// How to extract the body text and the lead image of a host's articles.
#[derive(Debug)]
pub struct Extract {
    /// Selects the article content.
    pub content: Attribute,
    /// Selects the article image; an image of the feed takes precedence.
    pub image: Attribute,
}

/// The plain values of an [`Extract`].
pub struct ExtractView {
    pub content: AttributeView,
    pub image: AttributeView,
}

impl View for Extract {
    type V = ExtractView;

    open spec fn view(&self) -> ExtractView {
        ExtractView { content: self.content@, image: self.image@ }
    }
}

impl Default for Extract {
    fn default() -> (r: Self)
        ensures
            r.content@ == (AttributeView { class: None, id: None }),
            r.image@ == (AttributeView { class: None, id: None }),
    {
        Extract { content: Attribute::default(), image: Attribute::default() }
    }
}

impl Extract {
    /// A copy of this rule.
    pub fn duplicate(&self) -> (r: Self)
        ensures
            r@ == self@,
    {
        Extract { content: self.content.duplicate(), image: self.image.duplicate() }
    }
}

/// The rule that the first entry for `host` gives, if any.
pub open spec fn lookup(t: Seq<(Seq<char>, ExtractView)>, host: Seq<char>) -> Option<ExtractView>
    decreases t.len(),
{
    if t.len() == 0 {
        None
    } else if t[0].0 == host {
        Some(t[0].1)
    } else {
        lookup(t.drop_first(), host)
    }
}

/// The table of extraction rules, by host.
pub struct Extraction {
    rules: Vec<(String, Extract)>,
}

impl View for Extraction {
    type V = Seq<(Seq<char>, ExtractView)>;

    closed spec fn view(&self) -> Seq<(Seq<char>, ExtractView)> {
        self.rules@.map_values(|e: (String, Extract)| (e.0@, e.1@))
    }
}

impl Extraction {
    /// The rule registered for `host`, if any.
    pub open spec fn rule_for(&self, host: Seq<char>) -> Option<ExtractView> {
        lookup(self@, host)
    }

    /// An empty table: no host has a rule.
    pub fn new() -> (r: Self)
        ensures
            forall|h: Seq<char>| #[trigger] r.rule_for(h) is None,
    {
        let r = Extraction { rules: Vec::new() };
        assert(r@.len() == 0);
        r
    }

    /// Registers `rule` for `host`, in place of any rule it had.
    pub fn insert(&mut self, host: String, rule: Extract)
        ensures
            forall|h: Seq<char>|
                #[trigger] final(self).rule_for(h) == if h == host@ {
                    Some(rule@)
                } else {
                    old(self).rule_for(h)
                },
    {
        let ghost t = self@;
        let ghost e = (host@, rule@);
        self.rules.insert(0, (host, rule));
        assert(self@ =~= seq![e] + t);
        assert forall|h: Seq<char>|
            #[trigger] self.rule_for(h) == if h == e.0 {
                Some(e.1)
            } else {
                lookup(t, h)
            } by {
            assert((seq![e] + t).drop_first() =~= t);
        }
    }

    /// The rule registered for `host`, if any.
    pub fn get(&self, host: &str) -> (r: Option<&Extract>)
        ensures
            r is None <==> self.rule_for(host@) is None,
            r matches Some(e) ==> self.rule_for(host@) == Some(e@),
    {
        let h = host.to_owned();
        let n = self.rules.len();
        let mut i: usize = 0;
        assert(self@.subrange(0, n as int) =~= self@);
        while i < n
            invariant
                i <= n,
                n == self@.len(),
                h@ == host@,
                lookup(self@, h@) == lookup(self@.subrange(i as int, n as int), h@),
            decreases n - i,
        {
            assert(self@.subrange(i as int, n as int).drop_first() =~= self@.subrange(
                i + 1,
                n as int,
            ));
            assert(self@.subrange(i as int, n as int)[0] == (
                self.rules@[i as int].0@,
                self.rules@[i as int].1@,
            ));
            if self.rules[i].0 == h {
                return Some(&self.rules[i].1);
            }
            i = i + 1;
        }
        None
    }
}

/// An element as selected: its text and its attributes (name, value).
pub type ElementView = (Seq<char>, Seq<(Seq<char>, Seq<char>)>);

/// What scraper finds for a CSS selector in an HTML document: `None` where
/// the selector does not parse, else each matching element in document
/// order, with its text and its attributes.
pub uninterp spec fn selection(html: Seq<char>, selector: Seq<char>) -> Option<Seq<ElementView>>;

/// The views of the attributes of an element.
pub open spec fn attribute_views(v: Seq<(String, String)>) -> Seq<(Seq<char>, Seq<char>)> {
    v.map_values(|a: (String, String)| (a.0@, a.1@))
}

/// The views of selected elements.
pub open spec fn element_views(v: Seq<(String, Vec<(String, String)>)>) -> Seq<ElementView> {
    v.map_values(|e: (String, Vec<(String, String)>)| (e.0@, attribute_views(e.1@)))
}

/// Relies on scraper's `Selector::parse`, `Html::parse_document`,
/// `Html::select`, `ElementRef::text` and `Element::attrs`: the matching
/// elements with their text and attributes.
#[verifier::external_body]
fn select(html: &str, selector: &str) -> (r: Option<Vec<(String, Vec<(String, String)>)>>)
    ensures
        r is None <==> selection(html@, selector@) is None,
        r matches Some(v) ==> selection(html@, selector@) == Some(element_views(v@)),
{
    let selector = ::scraper::Selector::parse(selector).ok()?;
    let document = ::scraper::Html::parse_document(html);
    Some(document.select(&selector).map(|e| (
        e.text().collect::<String>(),
        e.value().attrs().map(|(k, v)| (k.to_string(), v.to_string())).collect(),
    )).collect())
}

/// The texts of selected elements, concatenated in order.
pub open spec fn all_text(es: Seq<ElementView>) -> Seq<char>
    decreases es.len(),
{
    if es.len() == 0 {
        Seq::<char>::empty()
    } else {
        all_text(es.drop_last()) + es.last().0
    }
}

/// The text of the first selected element; empty where there is none.
pub open spec fn first_text(es: Seq<ElementView>) -> Seq<char> {
    if es.len() == 0 {
        Seq::<char>::empty()
    } else {
        es[0].0
    }
}

/// The value of the first attribute named `name`, if any.
pub open spec fn attribute_value(attrs: Seq<(Seq<char>, Seq<char>)>, name: Seq<char>) -> Option<
    Seq<char>,
>
    decreases attrs.len(),
{
    if attrs.len() == 0 {
        None
    } else if attrs[0].0 == name {
        Some(attrs[0].1)
    } else {
        attribute_value(attrs.drop_first(), name)
    }
}

/// The value of attribute `name` on the first selected element, where
/// there is one and it has the attribute.
pub open spec fn first_attribute(es: Seq<ElementView>, name: Seq<char>) -> Option<Seq<char>> {
    if es.len() == 0 {
        None
    } else {
        attribute_value(es[0].1, name)
    }
}

fn find_attribute(attrs: &Vec<(String, String)>, name: &str) -> (r: Option<String>)
    ensures
        opt_view(r) == attribute_value(attribute_views(attrs@), name@),
{
    let k = name.to_owned();
    let ghost v = attribute_views(attrs@);
    let n = attrs.len();
    let mut i: usize = 0;
    assert(v.subrange(0, n as int) == v);
    while i < n
        invariant
            i <= n,
            n == v.len(),
            v == attribute_views(attrs@),
            k@ == name@,
            attribute_value(v, k@) == attribute_value(v.subrange(i as int, n as int), k@),
        decreases n - i,
    {
        assert(v.subrange(i as int, n as int).drop_first() == v.subrange(i + 1, n as int));
        assert(v.subrange(i as int, n as int)[0] == (attrs@[i as int].0@, attrs@[i as int].1@));
        if attrs[i].0 == k {
            return Some(attrs[i].1.clone());
        }
        i = i + 1;
    }
    None
}

/// The text of every element that `selector` matches in `html`,
/// concatenated in document order; empty where the selector does not parse.
pub fn select_all_text(html: &str, selector: &str) -> (r: String)
    ensures
        r@ == match selection(html@, selector@) {
            Some(es) => all_text(es),
            None => Seq::<char>::empty(),
        },
{
    match select(html, selector) {
        None => String::new(),
        Some(es) => {
            let mut r = String::new();
            let mut i: usize = 0;
            while i < es.len()
                invariant
                    i <= es.len(),
                    r@ == all_text(element_views(es@).subrange(0, i as int)),
                decreases es.len() - i,
            {
                assert(element_views(es@).subrange(0, i + 1).drop_last() == element_views(
                    es@,
                ).subrange(0, i as int));
                push_str(&mut r, es[i].0.as_str());
                i = i + 1;
            }
            assert(element_views(es@).subrange(0, i as int) == element_views(es@));
            r
        },
    }
}

/// The text of the first element that `selector` matches in `html`; empty
/// where there is none or the selector does not parse.
pub fn select_first_text(html: &str, selector: &str) -> (r: String)
    ensures
        r@ == match selection(html@, selector@) {
            Some(es) => first_text(es),
            None => Seq::<char>::empty(),
        },
{
    match select(html, selector) {
        None => String::new(),
        Some(es) => {
            if es.len() == 0 {
                String::new()
            } else {
                es[0].0.clone()
            }
        },
    }
}

/// The value of `attribute` on the first element that `selector` matches
/// in `html`; `None` where there is no such element, it lacks the
/// attribute, or the selector does not parse.
pub fn select_first_attribute(html: &str, selector: &str, attribute: &str) -> (r: Option<String>)
    ensures
        opt_view(r) == match selection(html@, selector@) {
            Some(es) => first_attribute(es, attribute@),
            None => None,
        },
{
    match select(html, selector) {
        None => None,
        Some(es) => {
            if es.len() == 0 {
                None
            } else {
                find_attribute(&es[0].1, attribute)
            }
        },
    }
}

/// The selector of the elements of class `c`.
pub open spec fn class_selector(c: Seq<char>) -> Seq<char> {
    seq!['.'] + c
}

/// The selector of the element of id `i`.
pub open spec fn id_selector(i: Seq<char>) -> Seq<char> {
    seq!['#'] + i
}

/// The selector of the `img` elements whose class attribute contains `c`.
pub open spec fn image_selector(c: Seq<char>) -> Seq<char> {
    "img[class*=\""@ + c + "\"]"@
}

/// The body text that `rule` extracts from `html`: all elements of the
/// content class, or else the first element of the content id; empty where
/// there is no rule, no selector, or no match.
pub open spec fn content_of(rule: Option<ExtractView>, html: Seq<char>) -> Seq<char> {
    match rule {
        None => Seq::<char>::empty(),
        Some(r) => match r.content.class {
            Some(c) => match selection(html, class_selector(c)) {
                Some(es) => all_text(es),
                None => Seq::<char>::empty(),
            },
            None => match r.content.id {
                Some(i) => match selection(html, id_selector(i)) {
                    Some(es) => first_text(es),
                    None => Seq::<char>::empty(),
                },
                None => Seq::<char>::empty(),
            },
        },
    }
}

/// An image source made absolute: a source that starts with `/` is taken
/// on `https://{host}`; any other is kept as it is.
pub open spec fn resolved(host: Seq<char>, src: Seq<char>) -> Seq<char> {
    if src.len() > 0 && src[0] == '/' {
        "https://"@ + host + src
    } else {
        src
    }
}

/// The lead image that `rule` finds in `html` of `host`: the source of the
/// first `img` whose class contains the image class, made absolute.
pub open spec fn image_of(rule: Option<ExtractView>, host: Seq<char>, html: Seq<char>) -> Option<
    Seq<char>,
> {
    match rule {
        None => None,
        Some(r) => match r.image.class {
            None => None,
            Some(c) => match selection(html, image_selector(c)) {
                None => None,
                Some(es) => match first_attribute(es, "src"@) {
                    None => None,
                    Some(src) => Some(resolved(host, src)),
                },
            },
        },
    }
}

/// Makes an image source absolute for `host`.
pub fn resolve_image(host: &str, src: &str) -> (r: String)
    ensures
        r@ == resolved(host@, src@),
{
    let cs = chars_of(src);
    if cs.len() > 0 && cs[0] == '/' {
        let mut r = String::new();
        push_str(&mut r, "https://");
        push_str(&mut r, host);
        push_str(&mut r, src);
        r
    } else {
        src.to_owned()
    }
}

/// A host without a rule yields no content and no image, whatever its HTML.
pub proof fn lemma_unknown_host_extracts_nothing(t: Extraction, host: Seq<char>, html: Seq<char>)
    requires
        t.rule_for(host) is None,
    ensures
        content_of(t.rule_for(host), html) == Seq::<char>::empty(),
        image_of(t.rule_for(host), host, html) is None,
{
}

/// Extracts the content and image of one article.
pub struct Extractor {
    rule: Option<Extract>,
    url: String,
    html: String,
}

impl Extractor {
    /// The rule for the article's host, if there is one.
    pub closed spec fn rule(&self) -> Option<ExtractView> {
        match self.rule {
            Some(r) => Some(r@),
            None => None,
        }
    }

    /// The article's host.
    pub closed spec fn host(&self) -> Seq<char> {
        self.url@
    }

    /// The article's HTML.
    pub closed spec fn html(&self) -> Seq<char> {
        self.html@
    }

    /// Creates an extractor for HTML of `url`, a host, with its rule in
    /// `extraction`.
    pub fn new(extraction: &Extraction, url: &str, html_content: &str) -> (r: Self)
        ensures
            r.rule() == extraction.rule_for(url@),
            r.host() == url@,
            r.html() == html_content@,
    {
        let rule = match extraction.get(url) {
            Some(e) => Some(e.duplicate()),
            None => None,
        };
        Extractor { rule, url: url.to_owned(), html: html_content.to_owned() }
    }

    /// Extracts the written content of the article; empty where nothing
    /// is found.
    pub fn extract_content(&self) -> (r: String)
        ensures
            r@ == content_of(self.rule(), self.html()),
    {
        match &self.rule {
            None => String::new(),
            Some(rule) => match &rule.content.class {
                Some(class) => {
                    let mut selector = String::new();
                    crate::text::push_char(&mut selector, '.');
                    push_str(&mut selector, class.as_str());
                    select_all_text(self.html.as_str(), selector.as_str())
                },
                None => match &rule.content.id {
                    Some(id) => {
                        let mut selector = String::new();
                        crate::text::push_char(&mut selector, '#');
                        push_str(&mut selector, id.as_str());
                        select_first_text(self.html.as_str(), selector.as_str())
                    },
                    None => String::new(),
                },
            },
        }
    }

    /// Extracts the URL of the article's lead image, if found.
    pub fn extract_image(&self) -> (r: Option<String>)
        ensures
            opt_view(r) == image_of(self.rule(), self.host(), self.html()),
    {
        match &self.rule {
            None => None,
            Some(rule) => match &rule.image.class {
                None => None,
                Some(class) => {
                    let mut selector = String::new();
                    push_str(&mut selector, "img[class*=\"");
                    push_str(&mut selector, class.as_str());
                    push_str(&mut selector, "\"]");
                    match select_first_attribute(self.html.as_str(), selector.as_str(), "src") {
                        None => None,
                        Some(src) => Some(resolve_image(self.url.as_str(), src.as_str())),
                    }
                },
            },
        }
    }
}

} // verus!
