use rust_feed_ingestor::item::FeedItem;
use rust_feed_ingestor::time::Timestamp;
use rust_feed_ingestor::validate::{
    check_fields, sanitize, sanitize_and_validate, validate, with_text, ValidationError,
    MAX_CONTENT_CHARS, MAX_SUMMARY_CHARS, MAX_TITLE_CHARS,
};

fn valid_item() -> FeedItem {
    FeedItem {
        id: 7,
        guid: String::from("g1"),
        title: String::from("A title"),
        link: String::from("https://example.com/a"),
        published: None,
        content: Some(String::from("content")),
        summary: Some(String::from("summary")),
        author: Some(String::from("Ann")),
        categories: Some(vec![String::from("news")]),
        entry_updated: None,
        feed_url: String::from("https://example.com/feed"),
        feed_title: Some(String::from("Feed")),
        feed_description: None,
        feed_language: None,
        feed_icon: None,
        feed_updated: None,
        inserted_at: Timestamp { secs: 10, nanos: 0 },
    }
}

#[test]
fn a_valid_record_passes() {
    assert_eq!(validate(&valid_item()), Ok(()));
    assert!(sanitize_and_validate(&valid_item()).is_some());
}

#[test]
fn empty_title_is_rejected() {
    let mut item = valid_item();
    item.title = String::new();
    assert_eq!(validate(&item), Err(ValidationError::Title));
    assert_eq!(sanitize_and_validate(&item), None);
}

#[test]
fn blank_title_is_rejected() {
    let mut item = valid_item();
    item.title = String::from(" \t\n");
    assert_eq!(validate(&item), Err(ValidationError::Title));
    assert_eq!(sanitize_and_validate(&item), None);
}

#[test]
fn title_of_1025_characters_is_rejected() {
    let mut item = valid_item();
    item.title = "t".repeat(1025);
    assert_eq!(validate(&item), Err(ValidationError::Title));
    assert_eq!(sanitize_and_validate(&item), None);
}

#[test]
fn title_of_1024_characters_is_accepted() {
    let mut item = valid_item();
    item.title = "t".repeat(1024);
    assert_eq!(validate(&item), Ok(()));
}

#[test]
fn title_length_is_taken_after_trimming() {
    let mut item = valid_item();
    item.title = format!("  {}  ", "t".repeat(1024));
    assert_eq!(validate(&item), Ok(()));
}

#[test]
fn title_length_counts_characters() {
    let mut item = valid_item();
    item.title = "ü".repeat(1024);
    assert_eq!(validate(&item), Ok(()));
    item.title = "ü".repeat(1025);
    assert_eq!(validate(&item), Err(ValidationError::Title));
}

#[test]
fn link_that_is_no_url_is_rejected() {
    let mut item = valid_item();
    item.link = String::from("not a url");
    assert_eq!(validate(&item), Err(ValidationError::Link));
    assert_eq!(sanitize_and_validate(&item), None);
}

#[test]
fn relative_link_is_rejected() {
    let mut item = valid_item();
    item.link = String::from("/posts/1");
    assert_eq!(validate(&item), Err(ValidationError::Link));
    item.link = String::new();
    assert_eq!(validate(&item), Err(ValidationError::Link));
}

#[test]
fn summary_of_200001_characters_is_rejected() {
    let mut item = valid_item();
    item.summary = Some("s".repeat(200_001));
    assert_eq!(validate(&item), Err(ValidationError::SummaryTooLong));
    assert_eq!(sanitize_and_validate(&item), None);
}

#[test]
fn summary_of_200000_characters_is_accepted() {
    let mut item = valid_item();
    item.summary = Some("s".repeat(200_000));
    assert_eq!(validate(&item), Ok(()));
}

#[test]
fn content_of_500001_characters_is_rejected() {
    let mut item = valid_item();
    item.content = Some("c".repeat(500_001));
    assert_eq!(validate(&item), Err(ValidationError::ContentTooLong));
    assert_eq!(sanitize_and_validate(&item), None);
}

#[test]
fn content_of_500000_characters_is_accepted() {
    let mut item = valid_item();
    item.content = Some("c".repeat(500_000));
    assert_eq!(validate(&item), Ok(()));
}

#[test]
fn absent_summary_and_content_are_accepted() {
    let mut item = valid_item();
    item.summary = None;
    item.content = None;
    assert_eq!(validate(&item), Ok(()));
    let safe = sanitize_and_validate(&item).unwrap();
    assert_eq!(safe.summary, None);
    assert_eq!(safe.content, None);
}

#[test]
fn the_first_broken_rule_is_named() {
    let mut item = valid_item();
    item.title = String::new();
    item.summary = Some("s".repeat(200_001));
    item.content = Some("c".repeat(500_001));
    item.link = String::from("not a url");
    assert_eq!(validate(&item), Err(ValidationError::Title));
    item.title = String::from("t");
    assert_eq!(validate(&item), Err(ValidationError::SummaryTooLong));
    item.summary = None;
    assert_eq!(validate(&item), Err(ValidationError::ContentTooLong));
    item.content = None;
    assert_eq!(validate(&item), Err(ValidationError::Link));
}

#[test]
fn limits_have_their_values() {
    assert_eq!(MAX_TITLE_CHARS, 1024);
    assert_eq!(MAX_SUMMARY_CHARS, 200_000);
    assert_eq!(MAX_CONTENT_CHARS, 500_000);
}

#[test]
fn check_fields_names_each_rule() {
    assert_eq!(check_fields(1, None, None, true), Ok(()));
    assert_eq!(check_fields(1024, Some(200_000), Some(500_000), true), Ok(()));
    assert_eq!(check_fields(0, None, None, true), Err(ValidationError::Title));
    assert_eq!(check_fields(1025, None, None, true), Err(ValidationError::Title));
    assert_eq!(check_fields(1, Some(200_001), None, true), Err(ValidationError::SummaryTooLong));
    assert_eq!(check_fields(1, None, Some(500_001), true), Err(ValidationError::ContentTooLong));
    assert_eq!(check_fields(1, Some(0), Some(0), false), Err(ValidationError::Link));
    assert_eq!(
        check_fields(1, Some(200_001), Some(500_001), false),
        Err(ValidationError::SummaryTooLong)
    );
}

#[test]
fn text_fields_are_trimmed_and_sanitised() {
    let mut item = valid_item();
    item.title = String::from("  Hello<script>alert(1)</script>  ");
    item.summary = Some(String::from(" <b>teaser</b><style>p{}</style> "));
    item.content = Some(String::from("\n<p onclick=\"x()\">body</p>\n"));
    let safe = sanitize_and_validate(&item).unwrap();
    assert_eq!(safe.title, "Hello");
    assert_eq!(safe.summary, Some(String::from("<b>teaser</b>")));
    assert_eq!(safe.content, Some(String::from("<p>body</p>")));
}

#[test]
fn the_other_fields_are_kept() {
    let item = valid_item();
    let safe = sanitize_and_validate(&item).unwrap();
    assert_eq!(safe, item);
    let safe = sanitize(&item);
    assert_eq!(safe.id, 7);
    assert_eq!(safe.guid, "g1");
    assert_eq!(safe.link, "https://example.com/a");
    assert_eq!(safe.author, Some(String::from("Ann")));
    assert_eq!(safe.categories, Some(vec![String::from("news")]));
    assert_eq!(safe.feed_url, "https://example.com/feed");
    assert_eq!(safe.inserted_at, Timestamp { secs: 10, nanos: 0 });
}

#[test]
fn limits_are_checked_before_sanitising() {
    // the markup is stripped to one character, but the raw title is too long
    let mut item = valid_item();
    item.title = format!("x<script>{}</script>", "a".repeat(1100));
    assert_eq!(validate(&item), Err(ValidationError::Title));
    assert_eq!(sanitize_and_validate(&item), None);
}

#[test]
fn with_text_replaces_the_three_texts_only() {
    let item = valid_item();
    let r = with_text(&item, String::from("T"), None, Some(String::from("C")));
    assert_eq!(r.title, "T");
    assert_eq!(r.summary, None);
    assert_eq!(r.content, Some(String::from("C")));
    assert_eq!(r.guid, item.guid);
    assert_eq!(r.link, item.link);
    assert_eq!(r.id, item.id);
}
