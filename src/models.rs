//! The records handed to the search index.

use vstd::prelude::*;

verus! {

/// The scheme of a URL.
#[derive(Debug, Clone, Copy, PartialEq, Eq, Structural, Default)]
pub enum Scheme {
    #[default]
    Http,
    Https,
}

/// An image, by its URL.
#[derive(Debug)]
pub struct Image {
    /// The host of the image URL.
    pub host: String,
    /// The path of the image URL.
    pub path: String,
    /// The whole image URL.
    pub full_url: String,
    /// The scheme of the image URL.
    pub scheme: Scheme,
}

impl Default for Image {
    fn default() -> (r: Self)
        ensures
            r.host@ == Seq::<char>::empty(),
            r.path@ == Seq::<char>::empty(),
            r.full_url@ == Seq::<char>::empty(),
            r.scheme == Scheme::Http,
    {
        Image { host: String::new(), path: String::new(), full_url: String::new(), scheme: Scheme::Http }
    }
}

/// Where an article was taken from.
#[derive(Debug)]
pub struct Media {
    /// The country where the outlet is based.
    pub country: String,
    /// The outlet's home page.
    pub media_url: String,
    /// The outlet's icon.
    pub media_image: Image,
    /// The outlet's name.
    pub name: String,
    /// The URL of the article.
    pub url: String,
}

/// A news article as the search index stores it.
#[derive(Debug)]
pub struct News {
    /// Identifies the article.
    pub id: String,
    /// The title of the article.
    pub title: String,
    /// A brief description of the article.
    pub description: String,
    /// The written content of the article.
    pub content: String,
    /// The publication time, in seconds since the Unix epoch (UTC).
    pub published_at: i64,
    /// The image of the article.
    pub image: Image,
    /// The identifiers of similar articles.
    pub similar: Vec<String>,
    /// The outlet that published the article.
    pub source: Media,
    /// A summary of the article.
    pub summary: String,
}

/// What the search index needs to know of a stored record.
pub trait Attributes {
    /// The name of the field that identifies a record, if any.
    fn primary_key(&self) -> Option<&'static str> {
        None
    }
}

impl Attributes for News {
    fn primary_key(&self) -> Option<&'static str> {
        Some("id")
    }
}

} // verus!
