//! Turning a crawled article into the record of the search index.

use vstd::prelude::*;
use crate::cache::{parse_url, url_parts, UrlPartsView};
use crate::feed::{or_empty, RssNews};
use crate::media::{French, UnitedStates};
use crate::models::{Image, Media, News, Scheme};
use crate::text::{opt_view, push_str};

verus! {

/// The outlet an article URL belongs to: name, home page and country code.
#[derive(Debug)]
pub struct MediaInfo {
    /// The outlet's name; empty where no outlet matches.
    pub name: String,
    /// The outlet's home page.
    pub url: String,
    /// The outlet's country code.
    pub country: String,
}

/// The name, home page and country of the outlet whose home page starts
/// `url`, French outlets first; all empty where none does.
pub open spec fn media_of(url: Seq<char>) -> (Seq<char>, Seq<char>, Seq<char>) {
    match French::first_of(French::spec_all(), url) {
        Some(m) => (m.spec_name(), m.spec_url(), "fr"@),
        None => match UnitedStates::first_of(UnitedStates::spec_all(), url) {
            Some(m) => (m.spec_name(), m.spec_url(), "us"@),
            None => (Seq::<char>::empty(), Seq::<char>::empty(), Seq::<char>::empty()),
        },
    }
}

/// Finds the outlet of an article by its URL.
pub fn find_media(from_url: &str) -> (r: MediaInfo)
    ensures
        (r.name@, r.url@, r.country@) == media_of(from_url@),
{
    match French::from_url(from_url) {
        Some(m) => MediaInfo {
            name: m.name().to_owned(),
            url: m.url().to_owned(),
            country: "fr".to_owned(),
        },
        None => match UnitedStates::from_url(from_url) {
            Some(m) => MediaInfo {
                name: m.name().to_owned(),
                url: m.url().to_owned(),
                country: "us".to_owned(),
            },
            None => MediaInfo { name: String::new(), url: String::new(), country: String::new() },
        },
    }
}

/// The image record of a parsed URL.
pub open spec fn image_matches(i: Image, u: UrlPartsView) -> bool {
    &&& i.host@ == or_empty(u.host)
    &&& i.path@ == u.path
    &&& i.full_url@ == u.href
    &&& i.scheme == Scheme::Https
}

/// The image record of a URL; `None` where it is no URL.
pub fn image_from_url(url: &str) -> (r: Option<Image>)
    ensures
        r is None <==> url_parts(url@) is None,
        r matches Some(i) ==> image_matches(i, url_parts(url@)->0),
{
    match parse_url(url) {
        None => None,
        Some(parts) => {
            let host = match &parts.host {
                Some(h) => h.clone(),
                None => String::new(),
            };
            Some(Image { host, path: parts.path, full_url: parts.href, scheme: Scheme::Https })
        },
    }
}

/// Why an article yields no record.
#[derive(Debug, Clone, Copy, PartialEq, Eq, Structural)]
pub enum ArticleError {
    /// The image URL of the article is no URL.
    InvalidImage,
    /// No outlet has a home page that starts the article URL.
    UnknownMedia,
}

/// The path of an outlet's icon.
pub open spec fn icon_path(name: Seq<char>) -> Seq<char> {
    "/media/"@ + name + ".png"@
}

/// The host that serves the outlets' icons.
pub open spec fn icon_host() -> Seq<char> {
    "news.gravitalia.com"@
}

/// The record of a crawled article: its image (none where the feed and the
/// page gave none), its outlet, and `now` where it has no date.
pub fn build_news(article: RssNews, summary: String, id: String, now: i64) -> (r: Result<
    News,
    ArticleError,
>)
    ensures
        (article.image matches Some(i) && url_parts(i@) is None) ==> r == Err::<
            News,
            ArticleError,
        >(ArticleError::InvalidImage),
        !(article.image matches Some(i) && url_parts(i@) is None) && media_of(article.url@).0.len()
            == 0 ==> r == Err::<News, ArticleError>(ArticleError::UnknownMedia),
        r matches Ok(n) ==> {
            &&& n.id == id
            &&& n.title@ == article.title@
            &&& n.description@ == or_empty(opt_view(article.description))
            &&& n.content@ == article.content@
            &&& n.published_at == match article.date {
                Some(t) => t.seconds,
                None => now,
            }
            &&& match article.image {
                Some(i) => image_matches(n.image, url_parts(i@)->0),
                None => n.image.host@.len() == 0 && n.image.path@.len() == 0
                    && n.image.full_url@.len() == 0 && n.image.scheme == Scheme::Http,
            }
            &&& n.similar@.len() == 0
            &&& (n.source.name@, n.source.media_url@, n.source.country@) == media_of(
                article.url@,
            )
            &&& n.source.url@ == article.url@
            &&& n.source.media_image.host@ == icon_host()
            &&& n.source.media_image.path@ == icon_path(n.source.name@)
            &&& n.source.media_image.full_url@ == "https://"@ + icon_host() + icon_path(
                n.source.name@,
            )
            &&& n.source.media_image.scheme == Scheme::Https
            &&& n.summary == summary
        },
        r is Ok <==> !(article.image matches Some(i) && url_parts(i@) is None) && media_of(
            article.url@,
        ).0.len() != 0,
{
    let image = match &article.image {
        Some(img) => match image_from_url(img.as_str()) {
            Some(i) => i,
            None => {
                return Err(ArticleError::InvalidImage);
            },
        },
        None => Image::default(),
    };
    let media = find_media(article.url.as_str());
    let name_chars = crate::text::chars_of(media.name.as_str());
    if name_chars.len() == 0 {
        return Err(ArticleError::UnknownMedia);
    }
    let mut path = String::new();
    push_str(&mut path, "/media/");
    push_str(&mut path, media.name.as_str());
    push_str(&mut path, ".png");
    let mut full_url = String::new();
    push_str(&mut full_url, "https://");
    push_str(&mut full_url, "news.gravitalia.com");
    push_str(&mut full_url, path.as_str());
    let source = Media {
        country: media.country,
        media_url: media.url,
        media_image: Image {
            host: "news.gravitalia.com".to_owned(),
            path,
            full_url,
            scheme: Scheme::Https,
        },
        name: media.name,
        url: article.url,
    };
    let published_at = match article.date {
        Some(t) => t.seconds,
        None => now,
    };
    let description = match article.description {
        Some(d) => d,
        None => String::new(),
    };
    Ok(
        News {
            id,
            title: article.title,
            description,
            content: article.content,
            published_at,
            image,
            similar: Vec::new(),
            source,
            summary,
        },
    )
}

} // verus!
