use crawler::feed::{news_from_entry, parse_authors, parse_date, FeedEntry, Timestamp};
use crawler::text::{split, trim};

fn entry(link: Option<&str>) -> FeedEntry {
    FeedEntry {
        title: None,
        description: None,
        link: link.map(String::from),
        author: None,
        pub_date: None,
        enclosure_url: None,
    }
}

#[test]
fn authors_are_split_and_trimmed() {
    assert_eq!(parse_authors("Alice, Bob ,Carol"), vec!["Alice", "Bob", "Carol"]);
    assert_eq!(parse_authors("Solo"), vec!["Solo"]);
    assert_eq!(parse_authors(""), vec![""]);
    assert_eq!(parse_authors("a,,b"), vec!["a", "", "b"]);
}

#[test]
fn split_and_trim_follow_std() {
    assert_eq!(split("a,b,", ','), vec!["a", "b", ""]);
    assert_eq!(trim("  x y \t\n"), "x y");
    assert_eq!(trim("   "), "");
}

#[test]
fn rfc2822_date_is_read() {
    let t = parse_date("Tue, 01 Jan 2030 10:00:00 +0200").unwrap();
    assert_eq!(t, Timestamp { seconds: 1893484800, offset_seconds: 7200 });
}

#[test]
fn rfc3339_date_is_read() {
    let t = parse_date("2024-01-01T00:00:00Z").unwrap();
    assert_eq!(t, Timestamp { seconds: 1704067200, offset_seconds: 0 });
}

#[test]
fn unreadable_date_gives_none() {
    assert_eq!(parse_date("yesterday"), None);
}

#[test]
fn record_of_feed_item() {
    let e = FeedEntry {
        title: Some("Title".to_string()),
        description: Some("Desc".to_string()),
        link: Some("https://a.com/x".to_string()),
        author: Some("A, B".to_string()),
        pub_date: Some("2024-01-01T00:00:00Z".to_string()),
        enclosure_url: Some("https://a.com/i.png".to_string()),
    };
    let n = news_from_entry(&e);
    assert_eq!(n.title, "Title");
    assert_eq!(n.description.as_deref(), Some("Desc"));
    assert_eq!(n.url, "https://a.com/x");
    assert_eq!(n.authors, Some(vec!["A".to_string(), "B".to_string()]));
    assert_eq!(n.date.map(|d| d.seconds), Some(1704067200));
    assert_eq!(n.image.as_deref(), Some("https://a.com/i.png"));
    assert_eq!(n.content, "");
}

#[test]
fn record_of_empty_feed_item() {
    let n = news_from_entry(&entry(None));
    assert_eq!(n.title, "");
    assert_eq!(n.url, "");
    assert_eq!(n.authors, None);
    assert_eq!(n.date, None);
    assert_eq!(n.image, None);
}
