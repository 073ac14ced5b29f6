use esp_feed::feed::{assemble_feed, parse_rss_feed, FeedController, ScrollState, XmlEvent};

fn doc(body: &str) -> Vec<u8> {
    body.as_bytes().to_vec()
}

#[test]
fn first_title_names_the_feed_and_items_become_headlines() {
    let xml = "<rss><channel><title>Daily News</title>\
               <item><title>First headline</title></item>\
               <item><title>Second headline</title></item>\
               </channel></rss>";
    let feed = parse_rss_feed(&doc(xml)).unwrap();
    assert_eq!(feed.title, "Daily News");
    assert_eq!(feed.headlines, vec!["First headline".to_string(), "Second headline".to_string()]);
}

#[test]
fn predefined_entities_are_resolved() {
    let xml = "<rss><title>Fish &amp; Chips</title>\
               <item><title>1 &lt; 2 &gt; 0</title></item>\
               <item><title>&quot;So&quot; it&apos;s said</title></item></rss>";
    let feed = parse_rss_feed(&doc(xml)).unwrap();
    assert_eq!(feed.title, "Fish & Chips");
    assert_eq!(feed.headlines, vec![
        "1 < 2 > 0".to_string(),
        "\"So\" it's said".to_string(),
    ]);
}

#[test]
fn an_unknown_entity_fails_the_feed() {
    let xml = "<rss><title>News &copy; someone</title></rss>";
    assert!(parse_rss_feed(&doc(xml)).is_none());
}

#[test]
fn headlines_stop_at_ten() {
    let mut xml = String::from("<rss><title>Feed</title>");
    for i in 0..15 {
        xml += &format!("<item><title>h{}</title></item>", i);
    }
    xml += "</rss>";
    let feed = parse_rss_feed(&doc(&xml)).unwrap();
    assert_eq!(feed.headlines.len(), 10);
    assert_eq!(feed.headlines[0], "h0");
    assert_eq!(feed.headlines[9], "h9");
}

#[test]
fn ill_formed_input_yields_nothing() {
    // A dangling ampersand is not well-formed XML.
    assert!(parse_rss_feed(&doc("<rss><title>News & more</title></rss>")).is_none());
    // A mismatched closing tag is refused too.
    assert!(parse_rss_feed(&doc("<rss><title>News</item></rss>")).is_none());
}

#[test]
fn assembler_reads_the_token_stream_exactly() {
    let events = vec![
        XmlEvent::Start("title".to_string()),
        XmlEvent::Text("The ".to_string()),
        XmlEvent::Ref("amp".to_string()),
        XmlEvent::Text(" Times".to_string()),
        XmlEvent::End("title".to_string()),
        XmlEvent::Start("title".to_string()),
        XmlEvent::Text("A headline".to_string()),
        XmlEvent::End("title".to_string()),
        XmlEvent::Eof,
    ];
    let feed = assemble_feed(&events).unwrap();
    assert_eq!(feed.title, "The & Times");
    assert_eq!(feed.headlines, vec!["A headline".to_string()]);
}

#[test]
fn text_outside_titles_is_ignored() {
    let events = vec![
        XmlEvent::Text("noise".to_string()),
        XmlEvent::Start("title".to_string()),
        XmlEvent::Text("Real".to_string()),
        XmlEvent::End("title".to_string()),
        XmlEvent::Eof,
    ];
    let feed = assemble_feed(&events).unwrap();
    assert_eq!(feed.title, "Real");
    assert_eq!(feed.headlines.len(), 0);
}

#[test]
fn controller_keeps_parses_and_skips_failures() {
    let mut fc = FeedController::new();
    let good = doc("<rss><title>Good</title><item><title>x</title></item></rss>");
    let bad = doc("<rss><title>Broken &nope;</title></rss>");
    fc.refresh(&vec![good, bad]);
    assert_eq!(fc.feeds().len(), 1);
    assert_eq!(fc.feeds()[0].title, "Good");
}

#[test]
fn controller_keeps_its_urls() {
    let mut fc = FeedController::new();
    fc.add_url(url::Url::parse("https://example.org/feed.rdf").unwrap());
    assert_eq!(fc.urls().len(), 1);
    fc.refresh(&Vec::new());
    assert_eq!(fc.urls().len(), 1);
    assert_eq!(fc.urls()[0].as_str(), "https://example.org/feed.rdf");
}

#[test]
fn scroll_state_starts_at_the_left_edge() {
    let s = ScrollState::default();
    assert_eq!(s.position, 0);
    assert!(s.forward);
}
