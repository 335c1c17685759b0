use rust_feed_ingestor::item::{Entry, FeedDocument};
use rust_feed_ingestor::normalize::{
    assemble_feed_item, entry_to_feed_item, raw_link, select_content,
};
use rust_feed_ingestor::time::Timestamp;

fn text(s: &str) -> Option<String> {
    Some(String::from(s))
}

fn sample_entry() -> Entry {
    Entry {
        id: String::from("g1"),
        title: text("A title"),
        links: vec![String::from("/posts/1"), String::from("https://other.example/x")],
        content: text("<p>body</p>"),
        summary: text("teaser"),
        authors: vec![String::from("Ann"), String::from("Bob")],
        categories: vec![String::from("news"), String::from("rust")],
        published: Some(Timestamp { secs: 1_700_000_000, nanos: 5 }),
        updated: Some(Timestamp { secs: 1_700_000_100, nanos: 0 }),
    }
}

fn sample_feed() -> FeedDocument {
    FeedDocument {
        title: text("Feed"),
        description: text("About"),
        language: text("en"),
        icon: text("https://example.com/icon.png"),
        updated: Some(Timestamp { secs: 1_700_000_200, nanos: 0 }),
        entries: Vec::new(),
    }
}

#[test]
fn every_field_is_mapped() {
    let now = Timestamp { secs: 1_700_000_300, nanos: 7 };
    let item = assemble_feed_item(
        &sample_entry(),
        &sample_feed(),
        "https://example.com/feed.xml",
        String::from("https://example.com/posts/1"),
        42,
        now,
    );
    assert_eq!(item.id, 42);
    assert_eq!(item.guid, "g1");
    assert_eq!(item.title, "A title");
    assert_eq!(item.link, "https://example.com/posts/1");
    assert_eq!(item.published, Some(Timestamp { secs: 1_700_000_000, nanos: 5 }));
    assert_eq!(item.content, text("<p>body</p>"));
    assert_eq!(item.summary, text("teaser"));
    assert_eq!(item.author, text("Ann"));
    assert_eq!(item.categories, Some(vec![String::from("news"), String::from("rust")]));
    assert_eq!(item.entry_updated, Some(Timestamp { secs: 1_700_000_100, nanos: 0 }));
    assert_eq!(item.feed_url, "https://example.com/feed.xml");
    assert_eq!(item.feed_title, text("Feed"));
    assert_eq!(item.feed_description, text("About"));
    assert_eq!(item.feed_language, text("en"));
    assert_eq!(item.feed_icon, text("https://example.com/icon.png"));
    assert_eq!(item.feed_updated, Some(Timestamp { secs: 1_700_000_200, nanos: 0 }));
    assert_eq!(item.inserted_at, now);
}

#[test]
fn missing_fields_stay_missing() {
    let entry = Entry {
        id: String::new(),
        title: None,
        links: Vec::new(),
        content: None,
        summary: None,
        authors: Vec::new(),
        categories: Vec::new(),
        published: None,
        updated: None,
    };
    let feed = FeedDocument {
        title: None,
        description: None,
        language: None,
        icon: None,
        updated: None,
        entries: Vec::new(),
    };
    let now = Timestamp { secs: 1, nanos: 0 };
    let item = assemble_feed_item(&entry, &feed, "u", String::new(), 0, now);
    assert_eq!(item.guid, "");
    assert_eq!(item.title, "");
    assert_eq!(item.link, "");
    assert_eq!(item.published, None);
    assert_eq!(item.content, None);
    assert_eq!(item.summary, None);
    assert_eq!(item.author, None);
    assert_eq!(item.categories, None);
    assert_eq!(item.entry_updated, None);
    assert_eq!(item.feed_title, None);
    assert_eq!(item.feed_updated, None);
}

#[test]
fn the_first_link_is_the_raw_link() {
    assert_eq!(raw_link(&sample_entry()), "/posts/1");
    let mut entry = sample_entry();
    entry.links = Vec::new();
    assert_eq!(raw_link(&entry), "");
}

#[test]
fn full_body_comes_before_summary() {
    assert_eq!(select_content(&text("body"), &text("teaser")), text("body"));
    assert_eq!(select_content(&text("body"), &None), text("body"));
}

#[test]
fn empty_or_missing_body_falls_back_to_summary() {
    assert_eq!(select_content(&text(""), &text("teaser")), text("teaser"));
    assert_eq!(select_content(&None, &text("teaser")), text("teaser"));
    assert_eq!(select_content(&None, &None), None);
    assert_eq!(select_content(&text(""), &None), None);
}

#[test]
fn a_blank_body_that_is_not_empty_is_kept() {
    assert_eq!(select_content(&text(" "), &text("teaser")), text(" "));
}

#[test]
fn entry_to_feed_item_resolves_the_link_against_the_feed() {
    let item = entry_to_feed_item(&sample_entry(), &sample_feed(), "https://example.com/feed.xml");
    assert_eq!(item.link, "https://example.com/posts/1");
    assert_eq!(item.guid, "g1");
    assert_eq!(item.content, text("<p>body</p>"));
    assert_eq!(item.feed_url, "https://example.com/feed.xml");
}

#[test]
fn entry_to_feed_item_keeps_an_absolute_link() {
    let mut entry = sample_entry();
    entry.links = vec![String::from("https://other.example/x?y=1")];
    let item = entry_to_feed_item(&entry, &sample_feed(), "https://example.com/feed.xml");
    assert_eq!(item.link, "https://other.example/x?y=1");
}

#[test]
fn entry_to_feed_item_keeps_a_link_that_cannot_be_resolved() {
    let mut entry = sample_entry();
    entry.links = vec![String::from("not a url")];
    let item = entry_to_feed_item(&entry, &sample_feed(), "no base");
    assert_eq!(item.link, "not a url");
}

#[test]
fn entry_to_feed_item_gives_new_identifiers() {
    let a = entry_to_feed_item(&sample_entry(), &sample_feed(), "https://example.com/feed.xml");
    let b = entry_to_feed_item(&sample_entry(), &sample_feed(), "https://example.com/feed.xml");
    assert_ne!(a.id, b.id);
    // version 4, variant 1 of a UUID
    assert_eq!((a.id >> 76) & 0xf, 4);
    assert_eq!((a.id >> 62) & 0x3, 2);
    assert!(a.inserted_at.secs > 1_600_000_000);
}

#[test]
fn a_clone_of_a_record_is_equal_to_it() {
    let item = entry_to_feed_item(&sample_entry(), &sample_feed(), "https://example.com/feed.xml");
    assert_eq!(item.clone(), item);
}
