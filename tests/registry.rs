use crawler::feed::{RssNews, Timestamp};
use crawler::handler::{build_news, find_media, image_from_url, ArticleError};
use crawler::media::{French, UnitedStates};
use crawler::models::{Attributes, Scheme};

#[test]
fn outlet_from_article_url() {
    assert_eq!(UnitedStates::from_url("https://www.cnn.com/2024/x"), Some(UnitedStates::CableNewsNetwork));
    assert_eq!(UnitedStates::from_url("https://www.npr.org/x"), Some(UnitedStates::NationalPublicRadio));
    assert_eq!(UnitedStates::from_url("https://www.lemonde.fr/x"), None);
    assert_eq!(French::from_url("https://www.lemonde.fr/x"), Some(French::LeMonde));
}

#[test]
fn outlet_details() {
    assert_eq!(French::LeMonde.url(), "https://www.lemonde.fr");
    assert_eq!(French::LHumanite.rss(), None);
    assert_eq!(French::LeMonde.rss(), Some("https://www.lemonde.fr/rss/une.xml"));
    assert_eq!(French::LHumanite.name(), "L'Humanité");
    assert_eq!(UnitedStates::Forbes.name(), "Forbes");
    let e = French::OuestFrance.extractor();
    assert_eq!(e.content.class, None);
    assert_eq!(e.content.id.as_deref(), Some("article-detail"));
    assert_eq!(e.image.class.as_deref(), Some("su-media"));
    assert_eq!(UnitedStates::FoxNews.extractor().image.class.as_deref(), Some(""));
    assert_eq!(French::all().len(), 10);
    assert_eq!(UnitedStates::all().len(), 6);
}

#[test]
fn media_of_article() {
    let m = find_media("https://www.nytimes.com/2024/a.html");
    assert_eq!((m.name.as_str(), m.url.as_str(), m.country.as_str()), ("The New York Times", "https://www.nytimes.com", "us"));
    let m = find_media("https://www.marianne.net/a");
    assert_eq!(m.country, "fr");
    let m = find_media("https://unknown.org/a");
    assert_eq!((m.name.as_str(), m.url.as_str(), m.country.as_str()), ("", "", ""));
}

#[test]
fn image_record_of_url() {
    let i = image_from_url("https://cdn.com/a/b.png?x=1").unwrap();
    assert_eq!(i.host, "cdn.com");
    assert_eq!(i.path, "/a/b.png");
    assert_eq!(i.full_url, "https://cdn.com/a/b.png?x=1");
    assert_eq!(i.scheme, Scheme::Https);
    assert!(image_from_url("::").is_none());
}

fn article(url: &str, image: Option<&str>) -> RssNews {
    RssNews {
        content: "body".to_string(),
        title: "Title".to_string(),
        description: None,
        url: url.to_string(),
        authors: None,
        date: None,
        image: image.map(String::from),
    }
}

#[test]
fn news_record_of_article() {
    let mut a = article("https://www.lemonde.fr/x", Some("https://img.com/p.jpg"));
    a.date = Some(Timestamp { seconds: 100, offset_seconds: 3600 });
    let n = build_news(a, "sum".to_string(), "id1".to_string(), 999).unwrap();
    assert_eq!(n.published_at, 100);
    assert_eq!(n.source.name, "Le Monde");
    assert_eq!(n.source.country, "fr");
    assert_eq!(n.source.media_image.path, "/media/Le Monde.png");
    assert_eq!(n.source.media_image.full_url, "https://news.gravitalia.com/media/Le Monde.png");
    assert_eq!(n.image.host, "img.com");
    assert_eq!(n.description, "");
    assert_eq!(n.summary, "sum");
    let n = build_news(article("https://www.foxnews.com/y", None), String::new(), "id2".to_string(), 999).unwrap();
    assert_eq!(n.published_at, 999);
    assert_eq!(n.image.full_url, "");
}

#[test]
fn news_record_errors() {
    let r = build_news(article("https://unknown.org/x", None), String::new(), String::new(), 0);
    assert_eq!(r.err(), Some(ArticleError::UnknownMedia));
    let r = build_news(article("https://www.lemonde.fr/x", Some("no url")), String::new(), String::new(), 0);
    assert_eq!(r.err(), Some(ArticleError::InvalidImage));
}

#[test]
fn news_is_keyed_by_id() {
    let n = build_news(article("https://www.cnn.com/x", None), String::new(), "id".to_string(), 0).unwrap();
    assert_eq!(n.primary_key(), Some("id"));
    assert!(n.similar.is_empty());
}
