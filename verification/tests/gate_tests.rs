use rust_feed_ingestor::gate::{
    count_column, resolve_content, should_fetch, usable_text, FetchState, Health, Phase,
};
use rust_feed_ingestor::time::{is_cooldown_over, Timestamp, COOLDOWN_SECS};

const DAY: i64 = 86_400;

fn at(secs: i64) -> Timestamp {
    Timestamp { secs, nanos: 0 }
}

fn attempted_at(secs: i64, failures: u32) -> FetchState {
    FetchState { failed_fetch_count: failures, last_fetch_attempt: Some(at(secs)), disabled: false }
}

#[test]
fn cooldown_is_24_hours() {
    assert_eq!(COOLDOWN_SECS, 86_400);
}

#[test]
fn cooldown_is_over_only_after_more_than_24_hours() {
    let t = Timestamp { secs: 1_000, nanos: 500 };
    assert!(!is_cooldown_over(t, t));
    assert!(!is_cooldown_over(t, Timestamp { secs: 1_000 + DAY, nanos: 499 }));
    assert!(!is_cooldown_over(t, Timestamp { secs: 1_000 + DAY, nanos: 500 }));
    assert!(is_cooldown_over(t, Timestamp { secs: 1_000 + DAY, nanos: 501 }));
    assert!(is_cooldown_over(t, Timestamp { secs: 1_001 + DAY, nanos: 0 }));
}

#[test]
fn cooldown_is_not_over_when_the_clock_went_back() {
    assert!(!is_cooldown_over(at(10 * DAY), at(DAY)));
}

#[test]
fn cooldown_does_not_overflow_at_the_ends_of_time() {
    let first = Timestamp { secs: i64::MIN, nanos: 0 };
    let last = Timestamp { secs: i64::MAX, nanos: 1_999_999_999 };
    assert!(is_cooldown_over(first, last));
    assert!(!is_cooldown_over(last, first));
}

#[test]
fn a_new_state_was_never_attempted() {
    let s = FetchState::new();
    assert_eq!(s.failed_fetch_count, 0);
    assert_eq!(s.last_fetch_attempt, None);
    assert!(!s.disabled);
    assert_eq!(s.phase(at(0)), Phase::Fresh);
}

#[test]
fn phases_follow_the_last_attempt() {
    let s = attempted_at(100, 0);
    assert_eq!(s.phase(at(100)), Phase::CoolingDown);
    assert_eq!(s.phase(at(100 + DAY)), Phase::CoolingDown);
    assert_eq!(s.phase(at(101 + DAY)), Phase::Eligible);
}

#[test]
fn content_that_is_not_blank_is_never_fetched() {
    let content = Some(String::from("text"));
    assert!(!should_fetch(&content, &FetchState::new(), at(0)));
    assert!(!should_fetch(&content, &attempted_at(0, 0), at(0)));
    assert!(!should_fetch(&content, &attempted_at(0, 9), at(10 * DAY)));
}

#[test]
fn blank_content_is_fetched_when_never_attempted() {
    assert!(should_fetch(&None, &FetchState::new(), at(0)));
    assert!(should_fetch(&Some(String::new()), &FetchState::new(), at(0)));
    assert!(should_fetch(&Some(String::from(" \n\t")), &FetchState::new(), at(0)));
}

#[test]
fn blank_content_is_not_fetched_within_the_cooldown() {
    assert!(!should_fetch(&None, &attempted_at(1_000, 0), at(1_000)));
    assert!(!should_fetch(&None, &attempted_at(1_000, 3), at(1_000 + DAY)));
}

#[test]
fn blank_content_is_fetched_after_the_cooldown_whatever_the_failures() {
    assert!(should_fetch(&None, &attempted_at(1_000, 0), at(1_001 + DAY)));
    assert!(should_fetch(&None, &attempted_at(1_000, 1), at(1_001 + DAY)));
    assert!(should_fetch(&None, &attempted_at(1_000, u32::MAX), at(1_001 + DAY)));
}

#[test]
fn a_disabled_entry_is_gated_like_any_other() {
    let s = FetchState { failed_fetch_count: 5, last_fetch_attempt: None, disabled: true };
    assert!(should_fetch(&None, &s, at(0)));
}

#[test]
fn stamp_sets_the_time_and_keeps_the_rest() {
    let s = FetchState { failed_fetch_count: 4, last_fetch_attempt: None, disabled: true };
    let stamped = s.stamp(at(77));
    assert_eq!(
        stamped,
        FetchState { failed_fetch_count: 4, last_fetch_attempt: Some(at(77)), disabled: true }
    );
}

#[test]
fn success_resets_the_count() {
    assert_eq!(attempted_at(5, 3).settle(true), attempted_at(5, 0));
    assert_eq!(attempted_at(5, 0).settle(true), attempted_at(5, 0));
}

#[test]
fn failure_raises_the_count_by_one() {
    assert_eq!(attempted_at(5, 0).settle(false), attempted_at(5, 1));
    assert_eq!(attempted_at(5, 3).settle(false), attempted_at(5, 4));
}

#[test]
fn the_count_stops_at_its_largest_value() {
    assert_eq!(attempted_at(5, u32::MAX - 1).settle(false), attempted_at(5, u32::MAX));
    assert_eq!(attempted_at(5, u32::MAX).settle(false), attempted_at(5, u32::MAX));
}

#[test]
fn a_blank_answer_is_no_text() {
    assert_eq!(usable_text(None), None);
    assert_eq!(usable_text(Some(String::new())), None);
    assert_eq!(usable_text(Some(String::from("  \n"))), None);
    assert_eq!(usable_text(Some(String::from(" hello "))), Some(String::from(" hello ")));
}

#[test]
fn live_text_comes_before_feed_content() {
    let feed = Some(String::from(" "));
    assert_eq!(resolve_content(&feed, Some(String::from("live"))), Some(String::from("live")));
    assert_eq!(resolve_content(&feed, None), Some(String::from(" ")));
    assert_eq!(resolve_content(&None, None), None);
}

#[test]
fn health_follows_the_count_of_failures() {
    assert_eq!(FetchState::new().health(), Health::Untried);
    assert_eq!(attempted_at(5, 0).health(), Health::Enriched);
    assert_eq!(attempted_at(5, 1).health(), Health::Failing);
    assert_eq!(FetchState::new().stamp(at(1)).settle(true).health(), Health::Enriched);
    assert_eq!(FetchState::new().stamp(at(1)).settle(false).health(), Health::Failing);
    assert_eq!(attempted_at(5, 7).stamp(at(9)).settle(true).health(), Health::Enriched);
}

#[test]
fn a_missing_row_is_a_state_never_attempted() {
    assert_eq!(FetchState::from_columns(None, None, None), FetchState::new());
}

#[test]
fn columns_are_read_as_they_are() {
    assert_eq!(
        FetchState::from_columns(Some(3), Some(at(9)), Some(true)),
        FetchState { failed_fetch_count: 3, last_fetch_attempt: Some(at(9)), disabled: true }
    );
    assert_eq!(FetchState::from_columns(Some(i32::MAX), None, Some(false)).failed_fetch_count, 2_147_483_647);
}

#[test]
fn a_negative_count_is_no_failure() {
    assert_eq!(FetchState::from_columns(Some(-1), None, None).failed_fetch_count, 0);
    assert_eq!(FetchState::from_columns(Some(i32::MIN), None, None).failed_fetch_count, 0);
}

#[test]
fn the_count_is_capped_for_its_column() {
    assert_eq!(count_column(0), 0);
    assert_eq!(count_column(17), 17);
    assert_eq!(count_column(2_147_483_647), i32::MAX);
    assert_eq!(count_column(2_147_483_648), i32::MAX);
    assert_eq!(count_column(u32::MAX), i32::MAX);
}
