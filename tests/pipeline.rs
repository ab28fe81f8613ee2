use crawler::cache::Cache;
use crawler::feed::FeedEntry;
use crawler::pipeline::{
    entry_target, feed_targets, hydrate, plan_batch, plan_cycle, plan_feed, stagger, stagger_delay,
    Crawler, MarkPolicy,
};
use crawler::scraper::{Attribute, Extract, Extraction};
use std::time::Duration;

fn entry(title: &str, link: &str) -> FeedEntry {
    FeedEntry {
        title: Some(title.to_string()),
        description: None,
        link: Some(link.to_string()),
        author: None,
        pub_date: None,
        enclosure_url: None,
    }
}

fn feed(items: &[(&str, &str)]) -> Vec<u8> {
    let mut s = String::from(
        "<?xml version=\"1.0\"?><rss version=\"2.0\"><channel><title>F</title>\
         <link>https://a.com</link><description>D</description>",
    );
    for (title, link) in items {
        s.push_str(&format!("<item><title>{}</title><link>{}</link></item>", title, link));
    }
    s.push_str("</channel></rss>");
    s.into_bytes()
}

#[test]
fn three_new_items_are_staggered() {
    let mut cache = Cache::new(10);
    let entries = vec![
        entry("one", "https://a.com/1"),
        entry("two", "https://a.com/2"),
        entry("three", "https://a.com/3"),
    ];
    let plan = plan_batch(&mut cache, &entries, MarkPolicy::BeforeFetch);
    let delays: Vec<u64> = plan.iter().map(|p| p.delay_seconds).collect();
    assert_eq!(delays, vec![10, 20, 30]);
    assert_eq!(plan[0].host, "a.com");
    assert_eq!(plan[2].news.title, "three");
}

#[test]
fn seen_and_invalid_items_are_skipped() {
    let mut cache = Cache::new(10);
    cache.mark("a.com/1".to_string());
    let entries = vec![
        entry("seen", "https://a.com/1?utm=x"),
        entry("bad", "not a url"),
        entry("new", "https://a.com/2"),
        entry("again", "https://a.com/2#frag"),
        entry("newer", "https://a.com/3"),
    ];
    let plan = plan_batch(&mut cache, &entries, MarkPolicy::BeforeFetch);
    let titles: Vec<&str> = plan.iter().map(|p| p.news.title.as_str()).collect();
    assert_eq!(titles, vec!["new", "newer"]);
    assert_eq!(plan[0].delay_seconds, 10);
    assert_eq!(plan[1].delay_seconds, 20);
    assert!(cache.has("a.com/2"));
    assert!(cache.has("a.com/3"));
}

#[test]
fn failed_feed_does_not_stop_others() {
    let mut cache = Cache::new(10);
    let fetched = vec![None, Some(feed(&[("b1", "https://b.com/1"), ("b2", "https://b.com/2")]))];
    let batches = plan_cycle(&mut cache, &fetched, MarkPolicy::BeforeFetch);
    assert_eq!(batches.len(), 2);
    assert!(batches[0].is_none());
    let b = batches[1].as_ref().unwrap();
    let titles: Vec<&str> = b.iter().map(|p| p.news.title.as_str()).collect();
    assert_eq!(titles, vec!["b1", "b2"]);
    assert_eq!(b[0].delay_seconds, 10);
}

#[test]
fn malformed_feed_does_not_stop_others() {
    let mut cache = Cache::new(10);
    let fetched = vec![
        Some(b"this is not xml".to_vec()),
        Some(feed(&[("c1", "https://c.com/1")])),
    ];
    let batches = plan_cycle(&mut cache, &fetched, MarkPolicy::BeforeFetch);
    assert!(batches[0].is_none());
    let b = batches[1].as_ref().unwrap();
    assert_eq!(b.len(), 1);
    assert_eq!(b[0].host, "c.com");
}

#[test]
fn stagger_counts_per_feed() {
    let mut cache = Cache::new(10);
    let fetched = vec![
        Some(feed(&[("a1", "https://a.com/1"), ("a2", "https://a.com/2")])),
        Some(feed(&[("b1", "https://b.com/1")])),
    ];
    let batches = plan_cycle(&mut cache, &fetched, MarkPolicy::BeforeFetch);
    assert_eq!(batches[0].as_ref().unwrap()[1].delay_seconds, 20);
    assert_eq!(batches[1].as_ref().unwrap()[0].delay_seconds, 10);
}

#[test]
fn stagger_with_external_answers() {
    let entries = vec![entry("x", "https://a.com/1"), entry("y", "https://a.com/2"), entry("z", "https://a.com/3")];
    let targets: Vec<_> = entries.iter().map(|e| entry_target(e).unwrap()).collect();
    assert_eq!(targets[0].key, "a.com/1");
    let plan = stagger(targets, &vec![false, true, false]);
    let got: Vec<(&str, u64)> = plan.iter().map(|p| (p.news.title.as_str(), p.delay_seconds)).collect();
    assert_eq!(got, vec![("x", 10), ("z", 20)]);
    let repeated = vec![entry("x", "https://a.com/1"), entry("x2", "https://a.com/1#f")];
    let targets: Vec<_> = repeated.iter().map(|e| entry_target(e).unwrap()).collect();
    assert_eq!(stagger(targets, &vec![false, false]).len(), 1);
    assert!(entry_target(&entry("bad", "nope")).is_none());
}

#[test]
fn outlets_register_feeds_and_rules() {
    let mut crawler = Crawler::new(Duration::from_secs(1));
    crawler.register("https://www.lemonde.fr", Some("https://www.lemonde.fr/rss/une.xml"), Extract {
        content: Attribute { class: Some("c".to_string()), id: None },
        image: Attribute { class: None, id: None },
    });
    crawler.register("https://www.lepoint.fr", None, Extract {
        content: Attribute { class: None, id: Some("contenu".to_string()) },
        image: Attribute { class: None, id: None },
    });
    assert_eq!(crawler.feed_urls(), &vec!["https://www.lemonde.fr/rss/une.xml".to_string()]);
    assert!(crawler.extraction.get("www.lemonde.fr").is_some());
    assert!(crawler.extraction.get("www.lepoint.fr").is_some());
    assert!(crawler.extraction.get("lemonde.fr").is_none());
}

#[test]
fn targets_of_feed_document() {
    let doc = feed(&[("a", "https://a.com/1"), ("bad", "nope"), ("b", "https://b.com/2?x=1")]);
    let targets = feed_targets(&doc).unwrap();
    let keys: Vec<&str> = targets.iter().map(|t| t.key.as_str()).collect();
    assert_eq!(keys, vec!["a.com/1", "b.com/2"]);
    assert!(feed_targets(&b"<html>".to_vec()).is_none());
}

#[test]
fn stagger_delay_formula() {
    assert_eq!(stagger_delay(1), 10);
    assert_eq!(stagger_delay(3), 30);
    assert_eq!(stagger_delay(u64::MAX), u64::MAX);
}

#[test]
fn failed_page_drops_article() {
    let table = Extraction::new();
    let mut cache = Cache::new(10);
    let mut plan = plan_batch(&mut cache, &vec![entry("t", "https://a.com/1")], MarkPolicy::BeforeFetch);
    let p = plan.remove(0);
    assert!(hydrate(&table, p, None).is_none());
}

#[test]
fn hydrate_fills_content_and_keeps_feed_image() {
    let mut table = Extraction::new();
    table.insert(
        "a.com".to_string(),
        Extract {
            content: Attribute { class: Some("body".to_string()), id: None },
            image: Attribute { class: Some("photo".to_string()), id: None },
        },
    );
    let html = r#"<div class="body">text</div><img class="photo" src="/p.png">"#;
    let mut with_image = entry("t", "https://a.com/1");
    with_image.enclosure_url = Some("https://feed/img.png".to_string());
    let mut cache = Cache::new(10);
    let mut plan = plan_batch(&mut cache, &vec![with_image, entry("u", "https://a.com/2")], MarkPolicy::BeforeFetch);
    let second = plan.remove(1);
    let first = plan.remove(0);
    let n1 = hydrate(&table, first, Some(html.to_string())).unwrap();
    assert_eq!(n1.content, "text");
    assert_eq!(n1.image.as_deref(), Some("https://feed/img.png"));
    let n2 = hydrate(&table, second, Some(html.to_string())).unwrap();
    assert_eq!(n2.image.as_deref(), Some("https://a.com/p.png"));
}

#[test]
fn crawler_holds_feeds_and_plans() {
    let mut crawler = Crawler::new(Duration::from_secs(300));
    crawler.feeds(vec!["https://a.com/rss".to_string()]);
    assert_eq!(crawler.feed_urls(), &vec!["https://a.com/rss".to_string()]);
    assert_eq!(crawler.delay(), Duration::from_secs(300));
    let mut crawler = crawler.cache(Cache::new(5));
    let fetched = vec![Some(feed(&[("a1", "https://a.com/1")]))];
    let first = crawler.plan_cycle(&fetched);
    assert_eq!(first[0].as_ref().unwrap().len(), 1);
    let second = crawler.plan_cycle(&fetched);
    assert!(second[0].as_ref().unwrap().is_empty());
    let p = crawler.plan_cycle(&vec![Some(feed(&[("a2", "https://a.com/2")]))])
        .remove(0)
        .unwrap()
        .remove(0);
    let n = crawler.hydrate(p, Some("<p>x</p>".to_string())).unwrap();
    assert_eq!(n.content, "");
}

#[test]
fn feed_planned_on_its_own() {
    let mut cache = Cache::new(10);
    assert!(plan_feed(&mut cache, &None, MarkPolicy::BeforeFetch).is_none());
    assert!(plan_feed(&mut cache, &Some(b"garbage".to_vec()), MarkPolicy::BeforeFetch).is_none());
    let doc = Some(feed(&[("a", "https://a.com/1"), ("b", "https://a.com/2")]));
    let batch = plan_feed(&mut cache, &doc, MarkPolicy::BeforeFetch).unwrap();
    assert_eq!(batch.len(), 2);
    assert_eq!(batch[1].delay_seconds, 20);
    assert!(plan_feed(&mut cache, &doc, MarkPolicy::BeforeFetch).unwrap().is_empty());
}

#[test]
fn marking_after_fetch_retries_failed_articles() {
    let mut crawler = Crawler::new(Duration::from_secs(1)).mark_policy(MarkPolicy::AfterFetch);
    assert_eq!(crawler.policy(), MarkPolicy::AfterFetch);
    let doc = Some(feed(&[("a", "https://a.com/1"), ("again", "https://a.com/1?x"), ("b", "https://a.com/2")]));
    let mut batch = crawler.plan_feed(&doc).unwrap();
    let titles: Vec<&str> = batch.iter().map(|p| p.news.title.as_str()).collect();
    assert_eq!(titles, vec!["a", "b"]);
    assert_eq!(batch[1].delay_seconds, 20);
    let fetched = batch.remove(1);
    crawler.confirm_fetched(&fetched);
    let again = crawler.plan_feed(&doc).unwrap();
    let titles: Vec<&str> = again.iter().map(|p| p.news.title.as_str()).collect();
    assert_eq!(titles, vec!["a"]);
}

#[test]
fn marking_before_fetch_never_retries() {
    let mut crawler = Crawler::new(Duration::from_secs(1));
    assert_eq!(crawler.policy(), MarkPolicy::BeforeFetch);
    let doc = Some(feed(&[("a", "https://a.com/1")]));
    let batch = crawler.plan_feed(&doc).unwrap();
    assert_eq!(batch[0].key, "a.com/1");
    assert!(crawler.plan_feed(&doc).unwrap().is_empty());
    crawler.confirm_fetched(&batch[0]);
    assert!(crawler.plan_feed(&doc).unwrap().is_empty());
}
