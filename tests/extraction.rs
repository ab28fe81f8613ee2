use crawler::scraper::{
    resolve_image, select_all_text, select_first_attribute, select_first_text, Attribute, Extract,
    Extraction, Extractor,
};

fn rule(content_class: Option<&str>, content_id: Option<&str>, image_class: Option<&str>) -> Extract {
    Extract {
        content: Attribute {
            class: content_class.map(String::from),
            id: content_id.map(String::from),
        },
        image: Attribute { class: image_class.map(String::from), id: None },
    }
}

#[test]
fn extraction_by_class() {
    let mut table = Extraction::new();
    table.insert("example.com".to_string(), rule(Some("body"), None, None));
    let html = r#"<html><body><div class="body">hello</div></body></html>"#;
    let ex = Extractor::new(&table, "example.com", html);
    assert_eq!(ex.extract_content(), "hello");
}

#[test]
fn extraction_by_class_concatenates_all_matches() {
    let mut table = Extraction::new();
    table.insert("example.com".to_string(), rule(Some("p"), None, None));
    let html = r#"<div class="p">one </div><span>x</span><div class="p">two</div>"#;
    let ex = Extractor::new(&table, "example.com", html);
    assert_eq!(ex.extract_content(), "one two");
}

#[test]
fn extraction_by_id_takes_first_match() {
    let mut table = Extraction::new();
    table.insert("example.com".to_string(), rule(None, Some("main"), None));
    let html = r#"<div id="main">first</div><div id="main">second</div>"#;
    let ex = Extractor::new(&table, "example.com", html);
    assert_eq!(ex.extract_content(), "first");
}

#[test]
fn unknown_host_extracts_nothing() {
    let mut table = Extraction::new();
    table.insert("example.com".to_string(), rule(Some("body"), None, Some("photo")));
    let html = r#"<div class="body">hello</div><img class="photo" src="/i.png">"#;
    let ex = Extractor::new(&table, "other.org", html);
    assert_eq!(ex.extract_content(), "");
    assert_eq!(ex.extract_image(), None);
}

#[test]
fn no_selector_and_no_match_give_empty() {
    let mut table = Extraction::new();
    table.insert("a.com".to_string(), rule(None, None, None));
    table.insert("b.com".to_string(), rule(Some("missing"), None, Some("none")));
    let html = r#"<div class="body">hello</div>"#;
    assert_eq!(Extractor::new(&table, "a.com", html).extract_content(), "");
    assert_eq!(Extractor::new(&table, "a.com", html).extract_image(), None);
    assert_eq!(Extractor::new(&table, "b.com", html).extract_content(), "");
    assert_eq!(Extractor::new(&table, "b.com", html).extract_image(), None);
}

#[test]
fn selector_that_does_not_parse_gives_empty() {
    let mut table = Extraction::new();
    table.insert("a.com".to_string(), rule(Some("1bad"), None, None));
    let html = r#"<div class="1bad">hello</div>"#;
    assert_eq!(Extractor::new(&table, "a.com", html).extract_content(), "");
}

#[test]
fn relative_image_is_resolved_on_host() {
    let mut table = Extraction::new();
    table.insert("example.com".to_string(), rule(None, None, Some("photo")));
    let html = r#"<p><img class="photo-big" src="/i.png"></p>"#;
    let ex = Extractor::new(&table, "example.com", html);
    assert_eq!(ex.extract_image().as_deref(), Some("https://example.com/i.png"));
}

#[test]
fn absolute_image_is_kept() {
    let mut table = Extraction::new();
    table.insert("example.com".to_string(), rule(None, None, Some("photo")));
    let html = r#"<img class="photo-big" src="https://cdn.net/a.jpg"><img class="photo" src="/b.png">"#;
    let ex = Extractor::new(&table, "example.com", html);
    assert_eq!(ex.extract_image().as_deref(), Some("https://cdn.net/a.jpg"));
}

#[test]
fn resolve_image_formula() {
    assert_eq!(resolve_image("example.com", "/i.png"), "https://example.com/i.png");
    assert_eq!(resolve_image("example.com", "i.png"), "i.png");
    assert_eq!(resolve_image("example.com", ""), "");
}

#[test]
fn later_rule_replaces_earlier() {
    let mut table = Extraction::new();
    table.insert("a.com".to_string(), rule(Some("x"), None, None));
    table.insert("a.com".to_string(), rule(Some("y"), None, None));
    let got = table.get("a.com").unwrap();
    assert_eq!(got.content.class.as_deref(), Some("y"));
    assert!(table.get("b.com").is_none());
}

#[test]
fn selection_helpers() {
    let html = r#"<p class="a" id="x">one</p><p class="a">two</p><img class="i" alt="no source">"#;
    assert_eq!(select_all_text(html, ".a"), "onetwo");
    assert_eq!(select_first_text(html, ".a"), "one");
    assert_eq!(select_first_text(html, ".none"), "");
    assert_eq!(select_first_attribute(html, ".a", "id").as_deref(), Some("x"));
    assert_eq!(select_first_attribute(html, "img", "src"), None);
    assert_eq!(select_first_attribute(html, "img", "alt").as_deref(), Some("no source"));
    assert_eq!(select_all_text(html, "[[["), "");
}
