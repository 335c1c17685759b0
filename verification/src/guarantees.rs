//! What holds of every run of enrichment and persistence, whatever the
//! store, the entry, the time and the fetcher's answer.

use crate::gate::{
    gate_opens, health_of, one_more, phase_at, settled, stamped, untouched, FetchState, Health,
    Phase,
};
use crate::ingest::{
    after_visits, attempts, content_after, gated, ingested, record_after, state_after, Visit,
};
use crate::item::FeedItemView;
use crate::pipeline::{begun, step_of, Action, EventView, RunView, Stage};
use crate::store::{
    guids, lemma_inserted_if_absent, lemma_state_of_with_state, lemma_upserted, StoreView,
};
use crate::text::is_blank_opt;
use crate::time::{cooldown_over, Timestamp};
use vstd::prelude::*;

verus! {

/// A run leaves no table with two rows for one identifier.
pub proof fn ingest_keeps_rows_unique(
    store: StoreView,
    item: FeedItemView,
    now: Timestamp,
    answer: Option<Seq<char>>,
)
    requires
        store.wf(),
    ensures
        ingested(store, item, now, answer).wf(),
{
    let rec = record_after(store, item, now, answer);
    let past_gate = gated(store, item, now, answer);
    lemma_state_of_with_state(
        store.fetch_states,
        item.guid,
        state_after(store, item, now, answer),
        item.guid,
    );
    lemma_inserted_if_absent(past_gate.archive, rec, item.guid);
    lemma_upserted(past_gate.current, rec, item.guid);
}

/// For an entry whose feed gave content that is not blank, no live fetch is
/// made, whatever its fetch state and the time: its fetch state is left as
/// it is, and the feed's content is stored as its full content.
pub proof fn content_keeps_gate_shut(
    store: StoreView,
    item: FeedItemView,
    now: Timestamp,
    answer: Option<Seq<char>>,
)
    requires
        !is_blank_opt(item.content),
    ensures
        forall|state: FetchState| !gate_opens(item.content, state, now),
        !attempts(store, item, now),
        ingested(store, item, now, answer).fetch_states == store.fetch_states,
        content_after(store, item, now, answer) == item.content,
{
}

/// For an entry with blank content that was never attempted, a live fetch is
/// made. The time of the run is stored as its last attempt whether the fetch
/// then succeeds or fails, and at that time no second fetch is made for its
/// identifier.
pub proof fn fresh_entry_is_fetched_once(
    store: StoreView,
    item: FeedItemView,
    now: Timestamp,
    answer: Option<Seq<char>>,
    again: FeedItemView,
)
    requires
        store.wf(),
        is_blank_opt(item.content),
        store.fetch_state(item.guid).last_fetch_attempt is None,
        again.guid == item.guid,
    ensures
        attempts(store, item, now),
        ingested(store, item, now, answer).fetch_state(item.guid).last_fetch_attempt == Some(now),
        !attempts(ingested(store, item, now, answer), again, now),
{
    lemma_state_of_with_state(
        store.fetch_states,
        item.guid,
        state_after(store, item, now, answer),
        item.guid,
    );
}

/// While no more than the cooldown has passed since the attempt that is
/// stored for an identifier, no live fetch is made for it, whatever the
/// entry holds.
pub proof fn cooldown_keeps_gate_shut(
    store: StoreView,
    item: FeedItemView,
    last: Timestamp,
    now: Timestamp,
)
    requires
        store.fetch_state(item.guid).last_fetch_attempt == Some(last),
        !cooldown_over(last, now),
    ensures
        !attempts(store, item, now),
{
}

/// After a run that made a live fetch, a run for the same identifier makes
/// none while no more than the cooldown has passed since the first.
pub proof fn no_second_fetch_within_cooldown(
    store: StoreView,
    item: FeedItemView,
    first: Timestamp,
    answer: Option<Seq<char>>,
    again: FeedItemView,
    later: Timestamp,
    second: Option<Seq<char>>,
)
    requires
        store.wf(),
        attempts(store, item, first),
        again.guid == item.guid,
        !cooldown_over(first, later),
    ensures
        !attempts(ingested(store, item, first, answer), again, later),
        ingested(ingested(store, item, first, answer), again, later, second).fetch_states
            == ingested(store, item, first, answer).fetch_states,
{
    lemma_state_of_with_state(
        store.fetch_states,
        item.guid,
        state_after(store, item, first, answer),
        item.guid,
    );
}

/// Once more than the cooldown has passed since the last attempt, an entry
/// with blank content is fetched again, whatever its count of failures; and
/// after that run no further fetch is made at the same time.
pub proof fn one_more_fetch_after_cooldown(
    store: StoreView,
    item: FeedItemView,
    last: Timestamp,
    now: Timestamp,
    answer: Option<Seq<char>>,
)
    requires
        store.wf(),
        is_blank_opt(item.content),
        store.fetch_state(item.guid).last_fetch_attempt == Some(last),
        cooldown_over(last, now),
    ensures
        attempts(store, item, now),
        !attempts(ingested(store, item, now, answer), item, now),
{
    lemma_state_of_with_state(
        store.fetch_states,
        item.guid,
        state_after(store, item, now, answer),
        item.guid,
    );
}

/// A live fetch that brings a text which is not blank sets the count of
/// failures to 0 and gives the text as the full content. One that fails or
/// brings a blank text raises the count by one, as far as it can be raised,
/// and leaves the feed's content as the full content.
pub proof fn fetch_outcome_is_counted(
    store: StoreView,
    item: FeedItemView,
    now: Timestamp,
    answer: Option<Seq<char>>,
)
    requires
        store.wf(),
        attempts(store, item, now),
    ensures
        !is_blank_opt(answer) ==> {
            &&& ingested(store, item, now, answer).fetch_state(item.guid).failed_fetch_count == 0
            &&& content_after(store, item, now, answer) == answer
        },
        is_blank_opt(answer) ==> {
            &&& ingested(store, item, now, answer).fetch_state(item.guid).failed_fetch_count
                == one_more(store.fetch_state(item.guid).failed_fetch_count)
            &&& content_after(store, item, now, answer) == item.content
        },
{
    lemma_state_of_with_state(
        store.fetch_states,
        item.guid,
        state_after(store, item, now, answer),
        item.guid,
    );
}

/// An attempt ends in one of two standings: enriched after a text that is
/// not blank, failing after anything else. Either way the time of the
/// attempt stays stored.
pub proof fn attempt_ends_enriched_or_failing(state: FetchState, now: Timestamp, success: bool)
    ensures
        health_of(settled(stamped(state, now), success)) == if success {
            Health::Enriched
        } else {
            Health::Failing
        },
        settled(stamped(state, now), success).last_fetch_attempt == Some(now),
        settled(stamped(state, now), success).disabled == state.disabled,
        phase_at(settled(stamped(state, now), success), now) == Phase::CoolingDown,
{
}

/// After a run, the archive holds one row for the entry's identifier: the
/// row that was there before, or else the entry's record. The current view
/// holds one row for it too, which is the entry's record.
pub proof fn archived_once_and_current(
    store: StoreView,
    item: FeedItemView,
    now: Timestamp,
    answer: Option<Seq<char>>,
)
    requires
        store.wf(),
    ensures
        ingested(store, item, now, answer).archive_count(item.guid) == 1,
        ingested(store, item, now, answer).archive_row(item.guid) == if store.archived(item.guid) {
            store.archive_row(item.guid)
        } else {
            Some(record_after(store, item, now, answer))
        },
        store.archived(item.guid) ==> ingested(store, item, now, answer).archive == store.archive,
        ingested(store, item, now, answer).current_count(item.guid) == 1,
        ingested(store, item, now, answer).current_row(item.guid) == Some(
            record_after(store, item, now, answer),
        ),
{
    let rec = record_after(store, item, now, answer);
    let past_gate = gated(store, item, now, answer);
    lemma_inserted_if_absent(past_gate.archive, rec, item.guid);
    lemma_upserted(past_gate.current, rec, item.guid);
}

/// A run touches nothing that belongs to another identifier: its rows in the
/// archive and in the current view and its fetch state are as before.
pub proof fn other_entries_untouched(
    store: StoreView,
    item: FeedItemView,
    now: Timestamp,
    answer: Option<Seq<char>>,
    other: Seq<char>,
)
    requires
        store.wf(),
        other != item.guid,
    ensures
        ingested(store, item, now, answer).archive_row(other) == store.archive_row(other),
        ingested(store, item, now, answer).archive_count(other) == store.archive_count(other),
        ingested(store, item, now, answer).current_row(other) == store.current_row(other),
        ingested(store, item, now, answer).current_count(other) == store.current_count(other),
        ingested(store, item, now, answer).fetch_state(other) == store.fetch_state(other),
{
    let rec = record_after(store, item, now, answer);
    let past_gate = gated(store, item, now, answer);
    lemma_state_of_with_state(
        store.fetch_states,
        item.guid,
        state_after(store, item, now, answer),
        other,
    );
    lemma_inserted_if_absent(past_gate.archive, rec, other);
    lemma_upserted(past_gate.current, rec, other);
}

/// The last visit of `guid` among the visits, if there is one, and the
/// store as it was just before it.
pub open spec fn last_visit(store: StoreView, visits: Seq<Visit>, guid: Seq<char>) -> Option<
    (StoreView, Visit),
>
    decreases visits.len(),
{
    if visits.len() == 0 {
        None
    } else if visits.last().item.guid == guid {
        Some((after_visits(store, visits.drop_last()), visits.last()))
    } else {
        last_visit(store, visits.drop_last(), guid)
    }
}

/// After any number of visits, of any entries, the archive holds exactly one
/// row for each identifier that was visited, and the current row of such an
/// identifier is the record of its last visit.
pub proof fn archive_once_after_cycles(store: StoreView, visits: Seq<Visit>, guid: Seq<char>)
    requires
        store.wf(),
    ensures
        after_visits(store, visits).wf(),
        last_visit(store, visits, guid) matches Some((before, visit)) ==> {
            &&& after_visits(store, visits).archive_count(guid) == 1
            &&& after_visits(store, visits).current_count(guid) == 1
            &&& after_visits(store, visits).current_row(guid) == Some(
                record_after(before, visit.item, visit.now, visit.answer),
            )
        },
        last_visit(store, visits, guid) is None ==> {
            &&& after_visits(store, visits).archive_row(guid) == store.archive_row(guid)
            &&& after_visits(store, visits).current_row(guid) == store.current_row(guid)
            &&& after_visits(store, visits).fetch_state(guid) == store.fetch_state(guid)
        },
    decreases visits.len(),
{
    if visits.len() > 0 {
        let last = visits.last();
        let before = after_visits(store, visits.drop_last());
        archive_once_after_cycles(store, visits.drop_last(), guid);
        ingest_keeps_rows_unique(before, last.item, last.now, last.answer);
        if last.item.guid == guid {
            archived_once_and_current(before, last.item, last.now, last.answer);
        } else {
            other_entries_untouched(before, last.item, last.now, last.answer, guid);
        }
    }
}

/// The row that the archive holds for an identifier is the record of its
/// first visit, however often it is visited afterwards.
pub proof fn archive_row_is_never_rewritten(
    store: StoreView,
    visits: Seq<Visit>,
    guid: Seq<char>,
)
    requires
        store.wf(),
        store.archived(guid),
    ensures
        after_visits(store, visits).archived(guid),
        after_visits(store, visits).archive_row(guid) == store.archive_row(guid),
    decreases visits.len(),
{
    if visits.len() > 0 {
        let last = visits.last();
        let before = after_visits(store, visits.drop_last());
        archive_row_is_never_rewritten(store, visits.drop_last(), guid);
        archive_once_after_cycles(store, visits.drop_last(), guid);
        if last.item.guid == guid {
            archived_once_and_current(before, last.item, last.now, last.answer);
        } else {
            other_entries_untouched(before, last.item, last.now, last.answer, guid);
            lemma_archived_kept(before, last.item, last.now, last.answer, guid);
        }
    }
}

/// What is archived stays archived.
pub proof fn lemma_archived_kept(
    store: StoreView,
    item: FeedItemView,
    now: Timestamp,
    answer: Option<Seq<char>>,
    guid: Seq<char>,
)
    requires
        store.archived(guid),
    ensures
        ingested(store, item, now, answer).archived(guid),
{
    let keys = guids(store.archive);
    let i = keys.index_of(guid);
    let after = ingested(store, item, now, answer).archive;
    assert(guids(after)[i] == guid);
}

/// The run after the events, for an entry with this content in a cycle at
/// this time.
pub open spec fn run_after(content: Option<Seq<char>>, now: Timestamp, events: Seq<EventView>) -> RunView
    decreases events.len(),
{
    if events.len() == 0 {
        begun(content, now).0
    } else {
        step_of(run_after(content, now, events.drop_last()), events.last()).0
    }
}

/// The action that the machine asks for at `i`: at 0 the first action of
/// the run, and after that the answer to the event at `i - 1`.
pub open spec fn action_at(
    content: Option<Seq<char>>,
    now: Timestamp,
    events: Seq<EventView>,
    i: int,
) -> Action {
    if i <= 0 {
        begun(content, now).1
    } else {
        step_of(run_after(content, now, events.take(i - 1)), events[i - 1]).1
    }
}

/// How far a stage is into a run.
pub open spec fn progress(stage: Stage) -> nat {
    match stage {
        Stage::ReadingState => 1,
        Stage::Stamping => 2,
        Stage::Fetching => 3,
        Stage::WritingCount => 4,
        Stage::CheckingArchive => 5,
        Stage::InsertingArchive => 6,
        Stage::UpsertingCurrent => 7,
        Stage::Done => 8,
        Stage::Failed => 8,
    }
}

/// A step never takes a run back, and takes every run forward that has not
/// ended; it asks for nothing more exactly when the run has ended. The
/// content and the time of a run never change.
pub proof fn step_makes_progress(run: RunView, event: EventView)
    ensures
        progress(step_of(run, event).0.stage) >= progress(run.stage),
        run.stage != Stage::Done && run.stage != Stage::Failed ==> progress(
            step_of(run, event).0.stage,
        ) > progress(run.stage),
        step_of(run, event).1 is Finish <==> (step_of(run, event).0.stage == Stage::Done
            || step_of(run, event).0.stage == Stage::Failed),
        step_of(run, event).0.content == run.content,
        step_of(run, event).0.now == run.now,
{
}

/// A run keeps the content and the time that it began with.
pub proof fn lemma_run_keeps_inputs(
    content: Option<Seq<char>>,
    now: Timestamp,
    events: Seq<EventView>,
)
    ensures
        run_after(content, now, events).content == content,
        run_after(content, now, events).now == now,
    decreases events.len(),
{
    if events.len() > 0 {
        lemma_run_keeps_inputs(content, now, events.drop_last());
    }
}

/// A run is no further after fewer events than after more.
pub proof fn lemma_progress_monotone(
    content: Option<Seq<char>>,
    now: Timestamp,
    events: Seq<EventView>,
    i: int,
)
    requires
        0 <= i <= events.len(),
    ensures
        progress(run_after(content, now, events.take(i)).stage) <= progress(
            run_after(content, now, events).stage,
        ),
    decreases events.len(),
{
    if i == events.len() {
        assert(events.take(i) == events);
    } else {
        let shorter = events.drop_last();
        assert(shorter.take(i) == events.take(i));
        lemma_progress_monotone(content, now, shorter, i);
        step_makes_progress(run_after(content, now, shorter), events.last());
    }
}

/// With content that is not blank, a run never reads the fetch state and
/// never reaches the live fetch.
pub proof fn lemma_content_skips_enrichment(
    content: Option<Seq<char>>,
    now: Timestamp,
    events: Seq<EventView>,
)
    requires
        !is_blank_opt(content),
    ensures
        progress(run_after(content, now, events).stage) >= 5,
        !run_after(content, now, events).attempted,
    decreases events.len(),
{
    if events.len() > 0 {
        lemma_content_skips_enrichment(content, now, events.drop_last());
    }
}

/// For an entry whose feed gave content that is not blank, the machine
/// never asks for a live fetch, nor for the fetch state or a write to it,
/// whatever events it is given.
pub proof fn machine_never_fetches_for_content(
    content: Option<Seq<char>>,
    now: Timestamp,
    events: Seq<EventView>,
    i: int,
)
    requires
        !is_blank_opt(content),
        0 <= i <= events.len(),
    ensures
        action_at(content, now, events, i) != Action::FetchLive,
        action_at(content, now, events, i) != Action::ReadFetchState,
        !(action_at(content, now, events, i) is StampAttempt),
        !(action_at(content, now, events, i) is WriteFailedCount),
{
    if i > 0 {
        lemma_content_skips_enrichment(content, now, events.take(i - 1));
    }
}

/// The machine asks for a live fetch only in answer to the write that
/// stamps the attempt with the time of the cycle: the stamp is asked for
/// before the fetch is, and the fetch is asked for whether that write went
/// through or not. It asks for it only where the content is blank.
pub proof fn machine_stamps_before_fetch(
    content: Option<Seq<char>>,
    now: Timestamp,
    events: Seq<EventView>,
    i: int,
)
    requires
        0 <= i <= events.len(),
        action_at(content, now, events, i) == Action::FetchLive,
    ensures
        i >= 2,
        action_at(content, now, events, i - 1) == Action::StampAttempt(now),
        events[i - 1] is Written,
        is_blank_opt(content),
{
    let upto = events.take(i - 1);
    assert(i > 0);
    assert(run_after(content, now, upto).stage == Stage::Stamping);
    assert(upto.len() > 0);
    assert(upto.drop_last() == events.take(i - 2));
    assert(upto.last() == events[i - 2]);
    lemma_run_keeps_inputs(content, now, events.take(i - 2));
    if !is_blank_opt(content) {
        lemma_content_skips_enrichment(content, now, upto);
    }
}

/// In one run the machine asks for a live fetch at most once.
pub proof fn machine_fetches_at_most_once(
    content: Option<Seq<char>>,
    now: Timestamp,
    events: Seq<EventView>,
    i: int,
    j: int,
)
    requires
        0 <= i < j <= events.len(),
        action_at(content, now, events, i) == Action::FetchLive,
    ensures
        action_at(content, now, events, j) != Action::FetchLive,
{
    let upto_j = events.take(j - 1);
    assert(i > 0);
    assert(upto_j.take(i) == events.take(i));
    assert(events.take(i).drop_last() == events.take(i - 1));
    assert(events.take(i).last() == events[i - 1]);
    assert(run_after(content, now, events.take(i)).stage == Stage::Fetching);
    lemma_progress_monotone(content, now, upto_j, i);
}

/// For an entry with blank content, the machine first asks for the fetch
/// state. It then asks for the stamp, and after it for the live fetch,
/// exactly when the state that was read shows no attempt, or one that began
/// more than the cooldown before the time of the cycle; a read that failed
/// counts as no attempt. Otherwise it goes on to the archive.
pub proof fn machine_decides_by_fetch_state(
    content: Option<Seq<char>>,
    now: Timestamp,
    read: Option<FetchState>,
    written: bool,
)
    requires
        is_blank_opt(content),
    ensures
        ({
            let state = match read {
                Some(s) => s,
                None => untouched(),
            };
            let events = seq![EventView::FetchStateRead(read), EventView::Written(written)];
            &&& action_at(content, now, events, 0) == Action::ReadFetchState
            &&& gate_opens(content, state, now) ==> {
                &&& action_at(content, now, events, 1) == Action::StampAttempt(now)
                &&& action_at(content, now, events, 2) == Action::FetchLive
            }
            &&& !gate_opens(content, state, now) ==> action_at(content, now, events, 1)
                == Action::CheckArchive
        }),
{
    let events = seq![EventView::FetchStateRead(read), EventView::Written(written)];
    let e0 = events.take(0);
    let e1 = events.take(1);
    assert(e1.drop_last() == e0);
    assert(e1.last() == events[0]);
    assert(run_after(content, now, e0) == begun(content, now).0);
    assert(run_after(content, now, e1) == step_of(begun(content, now).0, events[0]).0);
}

} // verus!
