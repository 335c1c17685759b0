//! Running an entry's machine against the store, and what the store holds
//! afterwards.

use crate::gate::{full_content, gate_opens, live_text, settled, stamped, FetchState};
use crate::item::{FeedItem, FeedItemView};
use crate::pipeline::{Action, EntryRun, Event, RunView, Stage};
use crate::store::{
    lemma_state_of_with_state, lemma_with_state_twice, update_failed_fetch_count,
    update_last_fetch_attempt, Record, RecordView, Store, StoreView,
};
use crate::text::{clone_opt_text, is_blank_opt, opt_text};
use crate::time::Timestamp;
use vstd::prelude::*;

verus! {

/// Whether a live fetch is made for `item` at the time `now`, given what the
/// store holds of it.
pub open spec fn attempts(store: StoreView, item: FeedItemView, now: Timestamp) -> bool {
    gate_opens(item.content, store.fetch_state(item.guid), now)
}

/// The fetch state of `item` after its run, where a live fetch was made that
/// the fetcher answered with `answer`.
pub open spec fn state_after(
    store: StoreView,
    item: FeedItemView,
    now: Timestamp,
    answer: Option<Seq<char>>,
) -> FetchState {
    settled(stamped(store.fetch_state(item.guid), now), live_text(answer) is Some)
}

/// The full content that is stored with `item`: where a live fetch is made,
/// its text or else the feed's content; where none is made, the feed's
/// content.
pub open spec fn content_after(
    store: StoreView,
    item: FeedItemView,
    now: Timestamp,
    answer: Option<Seq<char>>,
) -> Option<Seq<char>> {
    if attempts(store, item, now) {
        full_content(item.content, live_text(answer))
    } else {
        item.content
    }
}

/// The row that is written for `item`.
pub open spec fn record_after(
    store: StoreView,
    item: FeedItemView,
    now: Timestamp,
    answer: Option<Seq<char>>,
) -> RecordView {
    RecordView { item, full_content: content_after(store, item, now, answer) }
}

/// The store with the fetch state that the run of `item` leaves: changed
/// only where a live fetch is made.
pub open spec fn gated(
    store: StoreView,
    item: FeedItemView,
    now: Timestamp,
    answer: Option<Seq<char>>,
) -> StoreView {
    if attempts(store, item, now) {
        store.with_fetch_state(item.guid, state_after(store, item, now, answer))
    } else {
        store
    }
}

/// The store after the run of `item` at the time `now`, in which the
/// fetcher, if it is asked, answers with `answer`.
pub open spec fn ingested(
    store: StoreView,
    item: FeedItemView,
    now: Timestamp,
    answer: Option<Seq<char>>,
) -> StoreView {
    gated(store, item, now, answer).persisted(record_after(store, item, now, answer))
}

/// One appearance of an entry in a cycle: its record, the time of the
/// cycle, and the answer that the live fetcher has for it.
pub struct Visit {
    pub item: FeedItemView,
    pub now: Timestamp,
    pub answer: Option<Seq<char>>,
}

/// The store after the visits, run one after the other.
pub open spec fn after_visits(store: StoreView, visits: Seq<Visit>) -> StoreView
    decreases visits.len(),
{
    if visits.len() == 0 {
        store
    } else {
        let last = visits.last();
        ingested(after_visits(store, visits.drop_last()), last.item, last.now, last.answer)
    }
}

/// What a run did for an entry.
#[derive(Debug, PartialEq, Eq)]
pub struct EntryReport {
    /// Whether a live fetch was made.
    pub attempted: bool,
    /// The full content that was stored with the entry.
    pub full_content: Option<String>,
}

/// The steps that a run has left at most.
pub open spec fn steps_left(stage: Stage) -> nat {
    match stage {
        Stage::ReadingState => 7,
        Stage::Stamping => 6,
        Stage::Fetching => 5,
        Stage::WritingCount => 4,
        Stage::CheckingArchive => 3,
        Stage::InsertingArchive => 2,
        Stage::UpsertingCurrent => 1,
        Stage::Done => 0,
        Stage::Failed => 0,
    }
}

/// Where a run against the store stands when it asks for `action`: the run
/// and the store `now` against the store `before`.
pub open spec fn on_track(
    run: RunView,
    action: Action,
    store: StoreView,
    before: StoreView,
    item: FeedItemView,
    now: Timestamp,
    answer: Option<Seq<char>>,
) -> bool {
    let opens = attempts(before, item, now);
    let begun = stamped(before.fetch_state(item.guid), now);
    let rec = record_after(before, item, now, answer);
    let past_gate = gated(before, item, now, answer);
    &&& run.content == item.content
    &&& run.now == now
    &&& match action {
        Action::ReadFetchState => {
            &&& run.stage == Stage::ReadingState
            &&& !run.attempted
            &&& is_blank_opt(item.content)
            &&& store == before
        },
        Action::StampAttempt(at) => {
            &&& run.stage == Stage::Stamping
            &&& at == now
            &&& opens
            &&& run.attempted
            &&& run.state == begun
            &&& store == before
        },
        Action::FetchLive => {
            &&& run.stage == Stage::Fetching
            &&& opens
            &&& run.attempted
            &&& run.state == begun
            &&& store == before.with_fetch_state(item.guid, begun)
        },
        Action::WriteFailedCount(count) => {
            &&& run.stage == Stage::WritingCount
            &&& opens
            &&& run.attempted
            &&& run.state == state_after(before, item, now, answer)
            &&& count == run.state.failed_fetch_count
            &&& run.full_content == rec.full_content
            &&& store == before.with_fetch_state(item.guid, begun)
        },
        Action::CheckArchive => {
            &&& run.stage == Stage::CheckingArchive
            &&& run.attempted == opens
            &&& run.full_content == rec.full_content
            &&& store == past_gate
        },
        Action::InsertArchive => {
            &&& run.stage == Stage::InsertingArchive
            &&& run.attempted == opens
            &&& run.full_content == rec.full_content
            &&& store == past_gate
        },
        Action::UpsertCurrent => {
            &&& run.stage == Stage::UpsertingCurrent
            &&& run.attempted == opens
            &&& run.full_content == rec.full_content
            &&& store == past_gate.with_archived(rec)
        },
        Action::Finish(ok) => {
            &&& ok
            &&& run.stage == Stage::Done
            &&& run.attempted == opens
            &&& run.full_content == rec.full_content
            &&& store == ingested(before, item, now, answer)
        },
    }
}

/// Runs one entry through enrichment and persistence against the store.
/// `answer` is what the live fetcher gives for the entry's link, should the
/// enrichment ask for it: the sanitised text of the page, or `None` for a failure.
///
/// A live fetch is made exactly when the entry's content is blank and it was
/// never attempted, or last attempted more than the cooldown before `now`.
/// Then its fetch state holds `now` as the last attempt, and a count of
/// failures that is 0 if the answer is a text that is not blank and one
/// higher than before if it is not. The entry is archived unless its
/// identifier was archived before, and it becomes the current row of its
/// identifier; the full content of the row is the text of the live fetch or,
/// without one, the content that the feed gave.
pub fn ingest_entry(store: &mut Store, item: &FeedItem, now: Timestamp, answer: Option<String>) -> (report:
    EntryReport)
    requires
        old(store).wf(),
    ensures
        final(store).wf(),
        final(store)@ == ingested(old(store)@, item@, now, opt_text(answer)),
        report.attempted == attempts(old(store)@, item@, now),
        opt_text(report.full_content) == content_after(old(store)@, item@, now, opt_text(answer)),
{
    let ghost before = store@;
    let guid = item.guid.as_str();
    let (mut run, mut action) = EntryRun::begin(&item.content, now);
    loop
        invariant
            store.wf(),
            before.wf(),
            before == old(store)@,
            guid@ == item@.guid,
            on_track(run@, action, store@, before, item@, now, opt_text(answer)),
        ensures
            store.wf(),
            run@.stage == Stage::Done,
            run@.attempted == attempts(before, item@, now),
            run@.full_content == content_after(before, item@, now, opt_text(answer)),
            store@ == ingested(before, item@, now, opt_text(answer)),
        decreases steps_left(run@.stage),
    {
        let event = match action {
            Action::ReadFetchState => Event::FetchStateRead(Some(store.fetch_state(guid))),
            Action::StampAttempt(at) => {
                update_last_fetch_attempt(store, guid, at);
                Event::Written(true)
            },
            Action::FetchLive => Event::Fetched(clone_opt_text(&answer)),
            Action::WriteFailedCount(count) => {
                proof {
                    let begun = stamped(before.fetch_state(guid@), now);
                    lemma_state_of_with_state(before.fetch_states, guid@, begun, guid@);
                    lemma_with_state_twice(
                        before.fetch_states,
                        guid@,
                        begun,
                        state_after(before, item@, now, opt_text(answer)),
                    );
                }
                update_failed_fetch_count(store, guid, count);
                Event::Written(true)
            },
            Action::CheckArchive => Event::ArchiveChecked(Some(store.is_archived(guid))),
            Action::InsertArchive => {
                store.insert_archive(
                    Record { item: item.clone(), full_content: clone_opt_text(&run.full_content) },
                );
                Event::Written(true)
            },
            Action::UpsertCurrent => {
                store.upsert_current(
                    Record { item: item.clone(), full_content: clone_opt_text(&run.full_content) },
                );
                Event::Written(true)
            },
            Action::Finish(_) => {
                break ;
            },
        };
        action = run.step(event);
    }
    EntryReport { attempted: run.attempted, full_content: run.full_content }
}

} // verus!
