//! The registry of news outlets: names, home pages, feeds and extraction
//! rules.

use vstd::prelude::*;
use crate::scraper::{Attribute, AttributeView, Extract, ExtractView};
use crate::text::starts_with;

verus! {

/// French news outlets.
#[derive(Debug, Clone, Copy, PartialEq, Eq, Structural)]
pub enum French {
    LHumanite,
    Liberation,
    LeMonde,
    LeParisien,
    LesEchos,
    OuestFrance,
    LePoint,
    LExpress,
    Marianne,
    ValeursActuelles,
}

impl French {
    /// Every outlet, in declaration order.
    pub open spec fn spec_all() -> Seq<French> {
        seq![French::LHumanite, French::Liberation, French::LeMonde, French::LeParisien, French::LesEchos, French::OuestFrance, French::LePoint, French::LExpress, French::Marianne, French::ValeursActuelles]
    }

    /// Every outlet, in declaration order.
    pub fn all() -> (r: Vec<French>)
        ensures
            r@ == Self::spec_all(),
    {
        let r = vec![French::LHumanite, French::Liberation, French::LeMonde, French::LeParisien, French::LesEchos, French::OuestFrance, French::LePoint, French::LExpress, French::Marianne, French::ValeursActuelles];
        assert(r@ == Self::spec_all());
        r
    }

    /// The outlet's name.
    pub open spec fn spec_name(&self) -> Seq<char> {
        match self {
            French::LHumanite => "L'Humanité"@,
            French::Liberation => "Libération"@,
            French::LeMonde => "Le Monde"@,
            French::LeParisien => "Le Parisien"@,
            French::LesEchos => "Les Echos"@,
            French::OuestFrance => "Ouest-France"@,
            French::LePoint => "Le Point"@,
            French::LExpress => "L'Express"@,
            French::Marianne => "Marianne"@,
            French::ValeursActuelles => "Valeurs Actuelles"@,
        }
    }

    /// The outlet's name.
    pub fn name(&self) -> (r: &'static str)
        ensures
            r@ == self.spec_name(),
    {
        match self {
            French::LHumanite => "L'Humanité",
            French::Liberation => "Libération",
            French::LeMonde => "Le Monde",
            French::LeParisien => "Le Parisien",
            French::LesEchos => "Les Echos",
            French::OuestFrance => "Ouest-France",
            French::LePoint => "Le Point",
            French::LExpress => "L'Express",
            French::Marianne => "Marianne",
            French::ValeursActuelles => "Valeurs Actuelles",
        }
    }

    /// The outlet's home page.
    pub open spec fn spec_url(&self) -> Seq<char> {
        match self {
            French::LHumanite => "https://www.humanite.fr"@,
            French::Liberation => "https://www.liberation.fr"@,
            French::LeMonde => "https://www.lemonde.fr"@,
            French::LeParisien => "https://www.leparisien.fr"@,
            French::LesEchos => "https://www.lesechos.fr"@,
            French::OuestFrance => "https://www.ouest-france.fr"@,
            French::LePoint => "https://www.lepoint.fr"@,
            French::LExpress => "https://www.lexpress.fr"@,
            French::Marianne => "https://www.marianne.net"@,
            French::ValeursActuelles => "https://www.valeursactuelles.com"@,
        }
    }

    /// The outlet's home page.
    pub fn url(&self) -> (r: &'static str)
        ensures
            r@ == self.spec_url(),
    {
        match self {
            French::LHumanite => "https://www.humanite.fr",
            French::Liberation => "https://www.liberation.fr",
            French::LeMonde => "https://www.lemonde.fr",
            French::LeParisien => "https://www.leparisien.fr",
            French::LesEchos => "https://www.lesechos.fr",
            French::OuestFrance => "https://www.ouest-france.fr",
            French::LePoint => "https://www.lepoint.fr",
            French::LExpress => "https://www.lexpress.fr",
            French::Marianne => "https://www.marianne.net",
            French::ValeursActuelles => "https://www.valeursactuelles.com",
        }
    }

    /// The outlet's feed, if it has one.
    pub open spec fn spec_rss(&self) -> Option<Seq<char>> {
        match self {
            French::LHumanite => None,
            French::Liberation => Some("https://www.liberation.fr/arc/outboundfeeds/rss-all/collection/accueil-une/"@),
            French::LeMonde => Some("https://www.lemonde.fr/rss/une.xml"@),
            French::LeParisien => Some("https://feeds.leparisien.fr/leparisien/rss"@),
            French::LesEchos => Some("https://services.lesechos.fr/rss/les-echos-monde.xml"@),
            French::OuestFrance => Some("https://www.ouest-france.fr/rss/une"@),
            French::LePoint => None,
            French::LExpress => None,
            French::Marianne => Some("https://www.marianne.net/rss.xml"@),
            French::ValeursActuelles => Some("https://www.valeursactuelles.com/feed"@),
        }
    }

    /// The outlet's feed, if it has one.
    pub fn rss(&self) -> (r: Option<&'static str>)
        ensures
            r matches Some(s) ==> self.spec_rss() == Some(s@),
            r is None <==> self.spec_rss() is None,
    {
        match self {
            French::LHumanite => None,
            French::Liberation => Some("https://www.liberation.fr/arc/outboundfeeds/rss-all/collection/accueil-une/"),
            French::LeMonde => Some("https://www.lemonde.fr/rss/une.xml"),
            French::LeParisien => Some("https://feeds.leparisien.fr/leparisien/rss"),
            French::LesEchos => Some("https://services.lesechos.fr/rss/les-echos-monde.xml"),
            French::OuestFrance => Some("https://www.ouest-france.fr/rss/une"),
            French::LePoint => None,
            French::LExpress => None,
            French::Marianne => Some("https://www.marianne.net/rss.xml"),
            French::ValeursActuelles => Some("https://www.valeursactuelles.com/feed"),
        }
    }

    /// How to extract this outlet's articles.
    pub open spec fn spec_extractor(&self) -> ExtractView {
        match self {
            French::LHumanite => ExtractView {
                content: AttributeView { class: Some("rich-text"@), id: None },
                image: AttributeView { class: Some("wp-image-"@), id: None },
            },
            French::Liberation => ExtractView {
                content: AttributeView { class: Some("article-body-wrapper"@), id: None },
                image: AttributeView { class: Some("sc-"@), id: None },
            },
            French::LeMonde => ExtractView {
                content: AttributeView { class: Some("article__content"@), id: None },
                image: AttributeView { class: Some("lzld--loading"@), id: None },
            },
            French::LeParisien => ExtractView {
                content: AttributeView { class: Some("article-section"@), id: None },
                image: AttributeView { class: Some("image"@), id: None },
            },
            French::LesEchos => ExtractView {
                content: AttributeView { class: Some("post-paywall"@), id: None },
                image: AttributeView { class: Some("sc-"@), id: None },
            },
            French::OuestFrance => ExtractView {
                content: AttributeView { class: None, id: Some("article-detail"@) },
                image: AttributeView { class: Some("su-media"@), id: None },
            },
            French::LePoint => ExtractView {
                content: AttributeView { class: None, id: Some("contenu"@) },
                image: AttributeView { class: None, id: None },
            },
            French::LExpress => ExtractView {
                content: AttributeView { class: Some("qiota_reserve"@), id: None },
                image: AttributeView { class: Some("illustration__image"@), id: None },
            },
            French::Marianne => ExtractView {
                content: AttributeView { class: Some("article__content"@), id: None },
                image: AttributeView { class: Some("responsive-image"@), id: None },
            },
            French::ValeursActuelles => ExtractView {
                content: AttributeView { class: Some("post__content"@), id: None },
                image: AttributeView { class: Some("attachment-post-thumbnail"@), id: None },
            },
        }
    }

    /// How to extract this outlet's articles.
    pub fn extractor(&self) -> (r: Extract)
        ensures
            r@ == self.spec_extractor(),
    {
        match self {
            French::LHumanite => Extract {
                content: Attribute { class: Some("rich-text".to_owned()), id: None },
                image: Attribute { class: Some("wp-image-".to_owned()), id: None },
            },
            French::Liberation => Extract {
                content: Attribute { class: Some("article-body-wrapper".to_owned()), id: None },
                image: Attribute { class: Some("sc-".to_owned()), id: None },
            },
            French::LeMonde => Extract {
                content: Attribute { class: Some("article__content".to_owned()), id: None },
                image: Attribute { class: Some("lzld--loading".to_owned()), id: None },
            },
            French::LeParisien => Extract {
                content: Attribute { class: Some("article-section".to_owned()), id: None },
                image: Attribute { class: Some("image".to_owned()), id: None },
            },
            French::LesEchos => Extract {
                content: Attribute { class: Some("post-paywall".to_owned()), id: None },
                image: Attribute { class: Some("sc-".to_owned()), id: None },
            },
            French::OuestFrance => Extract {
                content: Attribute { class: None, id: Some("article-detail".to_owned()) },
                image: Attribute { class: Some("su-media".to_owned()), id: None },
            },
            French::LePoint => Extract {
                content: Attribute { class: None, id: Some("contenu".to_owned()) },
                image: Attribute { class: None, id: None },
            },
            French::LExpress => Extract {
                content: Attribute { class: Some("qiota_reserve".to_owned()), id: None },
                image: Attribute { class: Some("illustration__image".to_owned()), id: None },
            },
            French::Marianne => Extract {
                content: Attribute { class: Some("article__content".to_owned()), id: None },
                image: Attribute { class: Some("responsive-image".to_owned()), id: None },
            },
            French::ValeursActuelles => Extract {
                content: Attribute { class: Some("post__content".to_owned()), id: None },
                image: Attribute { class: Some("attachment-post-thumbnail".to_owned()), id: None },
            },
        }
    }

    /// The first of `ms` whose home page starts `url`.
    pub open spec fn first_of(ms: Seq<French>, url: Seq<char>) -> Option<French>
        decreases ms.len(),
    {
        if ms.len() == 0 {
            None
        } else if ms[0].spec_url().is_prefix_of(url) {
            Some(ms[0])
        } else {
            Self::first_of(ms.drop_first(), url)
        }
    }

    /// The outlet whose home page starts `url`, the first in declaration
    /// order where several do.
    pub fn from_url(url: &str) -> (r: Option<French>)
        ensures
            r == Self::first_of(Self::spec_all(), url@),
    {
        let all = Self::all();
        let n = all.len();
        let mut i: usize = 0;
        assert(all@.subrange(0, n as int) == all@);
        while i < n
            invariant
                i <= n,
                n == all@.len(),
                all@ == Self::spec_all(),
                Self::first_of(all@, url@) == Self::first_of(all@.subrange(i as int, n as int), url@),
            decreases n - i,
        {
            assert(all@.subrange(i as int, n as int).drop_first() == all@.subrange(i + 1, n as int));
            let m = all[i];
            if starts_with(url, m.url()) {
                return Some(m);
            }
            i = i + 1;
        }
        None
    }
}

/// News outlets of the United States of America.
#[derive(Debug, Clone, Copy, PartialEq, Eq, Structural)]
pub enum UnitedStates {
    NationalPublicRadio,
    CableNewsNetwork,
    NewYorkTimes,
    Forbes,
    WashingtonPost,
    FoxNews,
}

impl UnitedStates {
    /// Every outlet, in declaration order.
    pub open spec fn spec_all() -> Seq<UnitedStates> {
        seq![UnitedStates::NationalPublicRadio, UnitedStates::CableNewsNetwork, UnitedStates::NewYorkTimes, UnitedStates::Forbes, UnitedStates::WashingtonPost, UnitedStates::FoxNews]
    }

    /// Every outlet, in declaration order.
    pub fn all() -> (r: Vec<UnitedStates>)
        ensures
            r@ == Self::spec_all(),
    {
        let r = vec![UnitedStates::NationalPublicRadio, UnitedStates::CableNewsNetwork, UnitedStates::NewYorkTimes, UnitedStates::Forbes, UnitedStates::WashingtonPost, UnitedStates::FoxNews];
        assert(r@ == Self::spec_all());
        r
    }

    /// The outlet's name.
    pub open spec fn spec_name(&self) -> Seq<char> {
        match self {
            UnitedStates::NationalPublicRadio => "National Public Radio (NPR)"@,
            UnitedStates::CableNewsNetwork => "Cable News Network (CNN)"@,
            UnitedStates::NewYorkTimes => "The New York Times"@,
            UnitedStates::Forbes => "Forbes"@,
            UnitedStates::WashingtonPost => "The Washington Post"@,
            UnitedStates::FoxNews => "Fox News"@,
        }
    }

    /// The outlet's name.
    pub fn name(&self) -> (r: &'static str)
        ensures
            r@ == self.spec_name(),
    {
        match self {
            UnitedStates::NationalPublicRadio => "National Public Radio (NPR)",
            UnitedStates::CableNewsNetwork => "Cable News Network (CNN)",
            UnitedStates::NewYorkTimes => "The New York Times",
            UnitedStates::Forbes => "Forbes",
            UnitedStates::WashingtonPost => "The Washington Post",
            UnitedStates::FoxNews => "Fox News",
        }
    }

    /// The outlet's home page.
    pub open spec fn spec_url(&self) -> Seq<char> {
        match self {
            UnitedStates::NationalPublicRadio => "https://www.npr.org/"@,
            UnitedStates::CableNewsNetwork => "https://www.cnn.com"@,
            UnitedStates::NewYorkTimes => "https://www.nytimes.com"@,
            UnitedStates::Forbes => "https://www.forbes.com"@,
            UnitedStates::WashingtonPost => "https://www.washingtonpost.com"@,
            UnitedStates::FoxNews => "https://www.foxnews.com"@,
        }
    }

    /// The outlet's home page.
    pub fn url(&self) -> (r: &'static str)
        ensures
            r@ == self.spec_url(),
    {
        match self {
            UnitedStates::NationalPublicRadio => "https://www.npr.org/",
            UnitedStates::CableNewsNetwork => "https://www.cnn.com",
            UnitedStates::NewYorkTimes => "https://www.nytimes.com",
            UnitedStates::Forbes => "https://www.forbes.com",
            UnitedStates::WashingtonPost => "https://www.washingtonpost.com",
            UnitedStates::FoxNews => "https://www.foxnews.com",
        }
    }

    /// The outlet's feed, if it has one.
    pub open spec fn spec_rss(&self) -> Option<Seq<char>> {
        match self {
            UnitedStates::NationalPublicRadio => None,
            UnitedStates::CableNewsNetwork => Some("http://rss.cnn.com/rss/cnn_topstories.rss"@),
            UnitedStates::NewYorkTimes => Some("https://rss.nytimes.com/services/xml/rss/nyt/HomePage.xml"@),
            UnitedStates::Forbes => None,
            UnitedStates::WashingtonPost => Some("https://feeds.washingtonpost.com/rss/world"@),
            UnitedStates::FoxNews => Some("https://moxie.foxnews.com/google-publisher/latest.xml"@),
        }
    }

    /// The outlet's feed, if it has one.
    pub fn rss(&self) -> (r: Option<&'static str>)
        ensures
            r matches Some(s) ==> self.spec_rss() == Some(s@),
            r is None <==> self.spec_rss() is None,
    {
        match self {
            UnitedStates::NationalPublicRadio => None,
            UnitedStates::CableNewsNetwork => Some("http://rss.cnn.com/rss/cnn_topstories.rss"),
            UnitedStates::NewYorkTimes => Some("https://rss.nytimes.com/services/xml/rss/nyt/HomePage.xml"),
            UnitedStates::Forbes => None,
            UnitedStates::WashingtonPost => Some("https://feeds.washingtonpost.com/rss/world"),
            UnitedStates::FoxNews => Some("https://moxie.foxnews.com/google-publisher/latest.xml"),
        }
    }

    /// How to extract this outlet's articles.
    pub open spec fn spec_extractor(&self) -> ExtractView {
        match self {
            UnitedStates::NationalPublicRadio => ExtractView {
                content: AttributeView { class: Some("storytext"@), id: None },
                image: AttributeView { class: Some("img"@), id: None },
            },
            UnitedStates::CableNewsNetwork => ExtractView {
                content: AttributeView { class: Some("article__content"@), id: None },
                image: AttributeView { class: Some("sc-"@), id: None },
            },
            UnitedStates::NewYorkTimes => ExtractView {
                content: AttributeView { class: Some("meteredContent"@), id: None },
                image: AttributeView { class: Some("css-"@), id: None },
            },
            UnitedStates::Forbes => ExtractView {
                content: AttributeView { class: Some("article-body"@), id: None },
                image: AttributeView { class: Some("image-embed"@), id: None },
            },
            UnitedStates::WashingtonPost => ExtractView {
                content: AttributeView { class: Some("meteredContent"@), id: None },
                image: AttributeView { class: Some("w-100"@), id: None },
            },
            UnitedStates::FoxNews => ExtractView {
                content: AttributeView { class: Some("article-body"@), id: None },
                image: AttributeView { class: Some(""@), id: None },
            },
        }
    }

    /// How to extract this outlet's articles.
    pub fn extractor(&self) -> (r: Extract)
        ensures
            r@ == self.spec_extractor(),
    {
        match self {
            UnitedStates::NationalPublicRadio => Extract {
                content: Attribute { class: Some("storytext".to_owned()), id: None },
                image: Attribute { class: Some("img".to_owned()), id: None },
            },
            UnitedStates::CableNewsNetwork => Extract {
                content: Attribute { class: Some("article__content".to_owned()), id: None },
                image: Attribute { class: Some("sc-".to_owned()), id: None },
            },
            UnitedStates::NewYorkTimes => Extract {
                content: Attribute { class: Some("meteredContent".to_owned()), id: None },
                image: Attribute { class: Some("css-".to_owned()), id: None },
            },
            UnitedStates::Forbes => Extract {
                content: Attribute { class: Some("article-body".to_owned()), id: None },
                image: Attribute { class: Some("image-embed".to_owned()), id: None },
            },
            UnitedStates::WashingtonPost => Extract {
                content: Attribute { class: Some("meteredContent".to_owned()), id: None },
                image: Attribute { class: Some("w-100".to_owned()), id: None },
            },
            UnitedStates::FoxNews => Extract {
                content: Attribute { class: Some("article-body".to_owned()), id: None },
                image: Attribute { class: Some("".to_owned()), id: None },
            },
        }
    }

    /// The first of `ms` whose home page starts `url`.
    pub open spec fn first_of(ms: Seq<UnitedStates>, url: Seq<char>) -> Option<UnitedStates>
        decreases ms.len(),
    {
        if ms.len() == 0 {
            None
        } else if ms[0].spec_url().is_prefix_of(url) {
            Some(ms[0])
        } else {
            Self::first_of(ms.drop_first(), url)
        }
    }

    /// The outlet whose home page starts `url`, the first in declaration
    /// order where several do.
    pub fn from_url(url: &str) -> (r: Option<UnitedStates>)
        ensures
            r == Self::first_of(Self::spec_all(), url@),
    {
        let all = Self::all();
        let n = all.len();
        let mut i: usize = 0;
        assert(all@.subrange(0, n as int) == all@);
        while i < n
            invariant
                i <= n,
                n == all@.len(),
                all@ == Self::spec_all(),
                Self::first_of(all@, url@) == Self::first_of(all@.subrange(i as int, n as int), url@),
            decreases n - i,
        {
            assert(all@.subrange(i as int, n as int).drop_first() == all@.subrange(i + 1, n as int));
            let m = all[i];
            if starts_with(url, m.url()) {
                return Some(m);
            }
            i = i + 1;
        }
        None
    }
}

} // verus!
