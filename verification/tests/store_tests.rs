use rust_feed_ingestor::gate::FetchState;
use rust_feed_ingestor::item::FeedItem;
use rust_feed_ingestor::store::{
    disable_feed, get_failed_fetch_count, get_last_fetch_attempt, process_entry,
    update_failed_fetch_count, update_last_fetch_attempt, Record, Store,
};
use rust_feed_ingestor::time::Timestamp;

fn item(guid: &str, title: &str) -> FeedItem {
    FeedItem {
        id: 1,
        guid: String::from(guid),
        title: String::from(title),
        link: String::from("https://example.com/a"),
        published: None,
        content: None,
        summary: None,
        author: None,
        categories: None,
        entry_updated: None,
        feed_url: String::from("https://example.com/feed"),
        feed_title: None,
        feed_description: None,
        feed_language: None,
        feed_icon: None,
        feed_updated: None,
        inserted_at: Timestamp { secs: 10, nanos: 0 },
    }
}

#[test]
fn a_new_store_is_empty() {
    let store = Store::new();
    assert_eq!(store.archive_len(), 0);
    assert_eq!(store.current_len(), 0);
    assert!(!store.is_archived("g1"));
    assert_eq!(store.archive_row("g1"), None);
    assert_eq!(store.current_row("g1"), None);
    assert_eq!(store.archive_count("g1"), 0);
    assert_eq!(store.fetch_state("g1"), FetchState::new());
}

#[test]
fn unknown_guid_has_no_failures_and_no_attempt() {
    let store = Store::new();
    assert_eq!(get_failed_fetch_count(&store, "g1"), 0);
    assert_eq!(get_last_fetch_attempt(&store, "g1"), None);
}

#[test]
fn failed_count_is_stored_per_guid() {
    let mut store = Store::new();
    update_failed_fetch_count(&mut store, "g1", 3);
    update_failed_fetch_count(&mut store, "g2", 5);
    assert_eq!(get_failed_fetch_count(&store, "g1"), 3);
    assert_eq!(get_failed_fetch_count(&store, "g2"), 5);
    assert_eq!(get_failed_fetch_count(&store, "g3"), 0);
    update_failed_fetch_count(&mut store, "g1", 0);
    assert_eq!(get_failed_fetch_count(&store, "g1"), 0);
    assert_eq!(get_failed_fetch_count(&store, "g2"), 5);
}

#[test]
fn last_attempt_is_stored_per_guid() {
    let mut store = Store::new();
    let t1 = Timestamp { secs: 100, nanos: 1 };
    let t2 = Timestamp { secs: 200, nanos: 2 };
    update_last_fetch_attempt(&mut store, "g1", t1);
    assert_eq!(get_last_fetch_attempt(&store, "g1"), Some(t1));
    assert_eq!(get_last_fetch_attempt(&store, "g2"), None);
    update_last_fetch_attempt(&mut store, "g1", t2);
    assert_eq!(get_last_fetch_attempt(&store, "g1"), Some(t2));
}

#[test]
fn each_update_keeps_the_other_columns() {
    let mut store = Store::new();
    let t = Timestamp { secs: 100, nanos: 0 };
    update_failed_fetch_count(&mut store, "g1", 2);
    update_last_fetch_attempt(&mut store, "g1", t);
    disable_feed(&mut store, "g1");
    assert_eq!(
        store.fetch_state("g1"),
        FetchState { failed_fetch_count: 2, last_fetch_attempt: Some(t), disabled: true }
    );
    update_failed_fetch_count(&mut store, "g1", 7);
    assert_eq!(
        store.fetch_state("g1"),
        FetchState { failed_fetch_count: 7, last_fetch_attempt: Some(t), disabled: true }
    );
}

#[test]
fn disabling_an_unknown_guid_creates_its_state() {
    let mut store = Store::new();
    disable_feed(&mut store, "g9");
    assert_eq!(
        store.fetch_state("g9"),
        FetchState { failed_fetch_count: 0, last_fetch_attempt: None, disabled: true }
    );
    assert!(!store.fetch_state("g1").disabled);
}

#[test]
fn set_fetch_state_replaces_the_whole_state() {
    let mut store = Store::new();
    let s = FetchState {
        failed_fetch_count: 9,
        last_fetch_attempt: Some(Timestamp { secs: 5, nanos: 5 }),
        disabled: false,
    };
    store.set_fetch_state("g1", s);
    assert_eq!(store.fetch_state("g1"), s);
    store.set_fetch_state("g1", FetchState::new());
    assert_eq!(store.fetch_state("g1"), FetchState::new());
}

#[test]
fn a_new_entry_is_archived_and_current() {
    let mut store = Store::new();
    let it = item("g1", "first");
    process_entry(&mut store, &it, Some(String::from("full")));
    let expected = Record { item: it.clone(), full_content: Some(String::from("full")) };
    assert!(store.is_archived("g1"));
    assert_eq!(store.archive_count("g1"), 1);
    assert_eq!(store.current_count("g1"), 1);
    assert_eq!(store.archive_row("g1"), Some(expected.clone()));
    assert_eq!(store.current_row("g1"), Some(expected));
}

#[test]
fn archive_row_count_stays_one_over_many_cycles() {
    let mut store = Store::new();
    let mut n = 0;
    while n < 5 {
        process_entry(&mut store, &item("g1", &format!("title {}", n)), None);
        assert_eq!(store.archive_count("g1"), 1);
        assert_eq!(store.current_count("g1"), 1);
        n += 1;
    }
    assert_eq!(store.archive_len(), 1);
    assert_eq!(store.current_len(), 1);
}

#[test]
fn archive_keeps_the_first_record_and_current_the_last() {
    let mut store = Store::new();
    process_entry(&mut store, &item("g1", "first"), Some(String::from("one")));
    process_entry(&mut store, &item("g1", "second"), Some(String::from("two")));
    process_entry(&mut store, &item("g1", "third"), None);
    let archived = store.archive_row("g1").unwrap();
    assert_eq!(archived.item.title, "first");
    assert_eq!(archived.full_content, Some(String::from("one")));
    let current = store.current_row("g1").unwrap();
    assert_eq!(current.item.title, "third");
    assert_eq!(current.full_content, None);
}

#[test]
fn upsert_is_idempotent() {
    let mut store = Store::new();
    let it = item("g1", "same");
    process_entry(&mut store, &it, Some(String::from("x")));
    let once = store.current_row("g1");
    process_entry(&mut store, &it, Some(String::from("x")));
    assert_eq!(store.current_row("g1"), once);
    assert_eq!(store.current_len(), 1);
    assert_eq!(store.archive_len(), 1);
}

#[test]
fn entries_with_different_guids_do_not_touch_each_other() {
    let mut store = Store::new();
    process_entry(&mut store, &item("g1", "one"), None);
    process_entry(&mut store, &item("g2", "two"), None);
    process_entry(&mut store, &item("g1", "one again"), None);
    assert_eq!(store.archive_len(), 2);
    assert_eq!(store.current_len(), 2);
    assert_eq!(store.archive_row("g2").unwrap().item.title, "two");
    assert_eq!(store.current_row("g2").unwrap().item.title, "two");
    assert_eq!(store.current_row("g1").unwrap().item.title, "one again");
    assert_eq!(store.archive_row("g1").unwrap().item.title, "one");
}

#[test]
fn insert_archive_drops_a_second_row_for_a_guid() {
    let mut store = Store::new();
    store.insert_archive(Record { item: item("g1", "one"), full_content: None });
    store.insert_archive(Record { item: item("g1", "two"), full_content: None });
    assert_eq!(store.archive_count("g1"), 1);
    assert_eq!(store.archive_row("g1").unwrap().item.title, "one");
    assert_eq!(store.current_len(), 0);
}

#[test]
fn upsert_current_leaves_the_archive_alone() {
    let mut store = Store::new();
    store.upsert_current(Record { item: item("g1", "one"), full_content: None });
    assert_eq!(store.archive_len(), 0);
    assert_eq!(store.current_count("g1"), 1);
}
