//! The store as the pipeline sees it: the archive, the current view and the
//! fetch states, each a table with at most one row for an identifier.

use crate::gate::{untouched, FetchState};
use crate::item::{FeedItem, FeedItemView};
use crate::text::{clone_opt_text, opt_text};
use crate::time::Timestamp;
use vstd::prelude::*;

verus! {

/// A row of the archive or of the current view: an entry's record and the
/// full content that was resolved for it.
#[derive(Debug, PartialEq, Eq)]
pub struct Record {
    pub item: FeedItem,
    pub full_content: Option<String>,
}

/// A `Record` as a mathematical value.
pub struct RecordView {
    pub item: FeedItemView,
    pub full_content: Option<Seq<char>>,
}

impl View for Record {
    type V = RecordView;

    open spec fn view(&self) -> RecordView {
        RecordView { item: self.item@, full_content: opt_text(self.full_content) }
    }
}

impl Clone for Record {
    fn clone(&self) -> (r: Record)
        ensures
            r@ == self@,
    {
        Record { item: self.item.clone(), full_content: clone_opt_text(&self.full_content) }
    }
}

/// A row of the fetch states: an identifier and what is remembered of its
/// live fetches.
#[derive(Debug, PartialEq, Eq)]
pub struct StateRow {
    pub guid: String,
    pub state: FetchState,
}

/// A `StateRow` as a mathematical value.
pub struct StateRowView {
    pub guid: Seq<char>,
    pub state: FetchState,
}

impl View for StateRow {
    type V = StateRowView;

    open spec fn view(&self) -> StateRowView {
        StateRowView { guid: self.guid@, state: self.state }
    }
}

/// The rows of a table of records as mathematical values.
pub open spec fn record_views(rows: Seq<Record>) -> Seq<RecordView> {
    rows.map_values(|r: Record| r@)
}

/// The rows of the fetch states as mathematical values.
pub open spec fn state_views(rows: Seq<StateRow>) -> Seq<StateRowView> {
    rows.map_values(|r: StateRow| r@)
}

/// The identifiers of the rows, in the rows' order.
pub open spec fn guids(rows: Seq<RecordView>) -> Seq<Seq<char>> {
    rows.map_values(|r: RecordView| r.item.guid)
}

/// The identifiers of the fetch states, in the rows' order.
pub open spec fn state_guids(rows: Seq<StateRowView>) -> Seq<Seq<char>> {
    rows.map_values(|r: StateRowView| r.guid)
}

/// How often `guid` occurs among the identifiers.
pub open spec fn occurrences(keys: Seq<Seq<char>>, guid: Seq<char>) -> nat
    decreases keys.len(),
{
    if keys.len() == 0 {
        0
    } else {
        occurrences(keys.drop_last(), guid) + if keys.last() == guid {
            1nat
        } else {
            0nat
        }
    }
}

/// The rows with `rec` added, unless a row with its identifier is there.
pub open spec fn inserted_if_absent(rows: Seq<RecordView>, rec: RecordView) -> Seq<RecordView> {
    if guids(rows).contains(rec.item.guid) {
        rows
    } else {
        rows.push(rec)
    }
}

/// The rows with `rec` in the place of the row with its identifier, or added
/// where there is no such row.
pub open spec fn upserted(rows: Seq<RecordView>, rec: RecordView) -> Seq<RecordView> {
    if guids(rows).contains(rec.item.guid) {
        rows.update(guids(rows).index_of(rec.item.guid), rec)
    } else {
        rows.push(rec)
    }
}

/// The row with the identifier `guid`, if there is one.
pub open spec fn row_of(rows: Seq<RecordView>, guid: Seq<char>) -> Option<RecordView> {
    if guids(rows).contains(guid) {
        Some(rows[guids(rows).index_of(guid)])
    } else {
        None
    }
}

/// The fetch state that the rows hold for `guid`: that of an entry never
/// attempted where they hold none.
pub open spec fn state_of(rows: Seq<StateRowView>, guid: Seq<char>) -> FetchState {
    if state_guids(rows).contains(guid) {
        rows[state_guids(rows).index_of(guid)].state
    } else {
        untouched()
    }
}

/// The rows with `state` as the fetch state of `guid`.
pub open spec fn with_state(rows: Seq<StateRowView>, guid: Seq<char>, state: FetchState) -> Seq<
    StateRowView,
> {
    let row = StateRowView { guid, state };
    if state_guids(rows).contains(guid) {
        rows.update(state_guids(rows).index_of(guid), row)
    } else {
        rows.push(row)
    }
}

/// The store as a mathematical value: the rows of its three tables.
pub struct StoreView {
    pub archive: Seq<RecordView>,
    pub current: Seq<RecordView>,
    pub fetch_states: Seq<StateRowView>,
}

impl StoreView {
    /// No table holds two rows for one identifier.
    pub open spec fn wf(self) -> bool {
        &&& guids(self.archive).no_duplicates()
        &&& guids(self.current).no_duplicates()
        &&& state_guids(self.fetch_states).no_duplicates()
    }

    /// The number of archive rows for `guid`.
    pub open spec fn archive_count(self, guid: Seq<char>) -> nat {
        occurrences(guids(self.archive), guid)
    }

    /// The number of rows of the current view for `guid`.
    pub open spec fn current_count(self, guid: Seq<char>) -> nat {
        occurrences(guids(self.current), guid)
    }

    /// Whether the archive holds a row for `guid`.
    pub open spec fn archived(self, guid: Seq<char>) -> bool {
        guids(self.archive).contains(guid)
    }

    /// The archive's row for `guid`.
    pub open spec fn archive_row(self, guid: Seq<char>) -> Option<RecordView> {
        row_of(self.archive, guid)
    }

    /// The current view's row for `guid`.
    pub open spec fn current_row(self, guid: Seq<char>) -> Option<RecordView> {
        row_of(self.current, guid)
    }

    /// The fetch state of `guid`.
    pub open spec fn fetch_state(self, guid: Seq<char>) -> FetchState {
        state_of(self.fetch_states, guid)
    }

    /// The store with `state` as the fetch state of `guid`.
    pub open spec fn with_fetch_state(self, guid: Seq<char>, state: FetchState) -> StoreView {
        StoreView { fetch_states: with_state(self.fetch_states, guid, state), ..self }
    }

    /// The store with `rec` archived, unless its identifier is archived
    /// already.
    pub open spec fn with_archived(self, rec: RecordView) -> StoreView {
        StoreView { archive: inserted_if_absent(self.archive, rec), ..self }
    }

    /// The store with `rec` as the current row of its identifier.
    pub open spec fn with_current(self, rec: RecordView) -> StoreView {
        StoreView { current: upserted(self.current, rec), ..self }
    }

    /// The store after `rec` was written: archived if its identifier was
    /// new to the archive, and in any case made the current row.
    pub open spec fn persisted(self, rec: RecordView) -> StoreView {
        self.with_archived(rec).with_current(rec)
    }
}

/// Identifiers that do not hold `guid` hold it zero times.
pub proof fn lemma_occurrences_absent(keys: Seq<Seq<char>>, guid: Seq<char>)
    requires
        !keys.contains(guid),
    ensures
        occurrences(keys, guid) == 0,
    decreases keys.len(),
{
    if keys.len() > 0 {
        let rest = keys.drop_last();
        assert(keys.last() == keys[keys.len() - 1]);
        assert forall|i: int| 0 <= i < rest.len() implies rest[i] != guid by {
            assert(rest[i] == keys[i]);
        }
        lemma_occurrences_absent(rest, guid);
    }
}

/// Identifiers without duplicates hold each of their members once.
pub proof fn lemma_occurrences_distinct(keys: Seq<Seq<char>>, guid: Seq<char>)
    requires
        keys.no_duplicates(),
        keys.contains(guid),
    ensures
        occurrences(keys, guid) == 1,
    decreases keys.len(),
{
    let rest = keys.drop_last();
    let last = keys.len() - 1;
    assert forall|i: int, j: int| 0 <= i < rest.len() && 0 <= j < rest.len() && i != j implies rest[i]
        != rest[j] by {
        assert(rest[i] == keys[i] && rest[j] == keys[j]);
    }
    if keys.last() == guid {
        assert forall|i: int| 0 <= i < rest.len() implies rest[i] != guid by {
            assert(rest[i] == keys[i]);
            assert(keys[i] != keys[last]);
        }
        lemma_occurrences_absent(rest, guid);
    } else {
        let i = choose|i: int| 0 <= i < keys.len() && keys[i] == guid;
        assert(rest[i] == guid);
        lemma_occurrences_distinct(rest, guid);
    }
}

/// Adding an identifier adds one occurrence of it and none of any other.
pub proof fn lemma_occurrences_push(keys: Seq<Seq<char>>, key: Seq<char>, guid: Seq<char>)
    ensures
        occurrences(keys.push(key), guid) == occurrences(keys, guid) + if key == guid {
            1nat
        } else {
            0nat
        },
{
    assert(keys.push(key).drop_last() == keys);
}

/// In identifiers without duplicates, the place of an identifier is the one
/// place where it stands.
pub proof fn lemma_index_of_distinct(keys: Seq<Seq<char>>, i: int)
    requires
        keys.no_duplicates(),
        0 <= i < keys.len(),
    ensures
        keys.contains(keys[i]),
        keys.index_of(keys[i]) == i,
{
    let j = keys.index_of(keys[i]);
    assert(0 <= j < keys.len() && keys[j] == keys[i]);
}

/// Rows without duplicates stay so when a record is upserted. The record is
/// then the one row of its identifier, and the rows of every other
/// identifier are as before.
pub proof fn lemma_upserted(rows: Seq<RecordView>, rec: RecordView, other: Seq<char>)
    requires
        guids(rows).no_duplicates(),
    ensures
        guids(upserted(rows, rec)).no_duplicates(),
        row_of(upserted(rows, rec), rec.item.guid) == Some(rec),
        occurrences(guids(upserted(rows, rec)), rec.item.guid) == 1,
        other != rec.item.guid ==> row_of(upserted(rows, rec), other) == row_of(rows, other),
        other != rec.item.guid ==> occurrences(guids(upserted(rows, rec)), other) == occurrences(
            guids(rows),
            other,
        ),
{
    let guid = rec.item.guid;
    let keys = guids(rows);
    let after = upserted(rows, rec);
    let keys_after = guids(after);
    if keys.contains(guid) {
        let i = keys.index_of(guid);
        assert(keys_after =~= keys);
        lemma_index_of_distinct(keys, i);
        if other != guid && keys.contains(other) {
            let j = keys.index_of(other);
            assert(after[j] == rows[j]);
        }
    } else {
        assert(keys_after =~= keys.push(guid));
        lemma_after_push(keys, guid, other);
        assert(after[keys.len() as int] == rec);
        if other != guid && keys.contains(other) {
            let j = keys.index_of(other);
            assert(after[j] == rows[j]);
        }
    }
    lemma_occurrences_distinct(keys_after, guid);
}

/// Rows without duplicates stay so when a record is inserted that may be
/// there already. Its identifier then has one row, which is the one from
/// before where there was one, and the rows of every other identifier are as
/// before.
pub proof fn lemma_inserted_if_absent(rows: Seq<RecordView>, rec: RecordView, other: Seq<char>)
    requires
        guids(rows).no_duplicates(),
    ensures
        guids(inserted_if_absent(rows, rec)).no_duplicates(),
        occurrences(guids(inserted_if_absent(rows, rec)), rec.item.guid) == 1,
        row_of(inserted_if_absent(rows, rec), rec.item.guid) == if guids(rows).contains(
            rec.item.guid,
        ) {
            row_of(rows, rec.item.guid)
        } else {
            Some(rec)
        },
        other != rec.item.guid ==> row_of(inserted_if_absent(rows, rec), other) == row_of(
            rows,
            other,
        ),
        other != rec.item.guid ==> occurrences(guids(inserted_if_absent(rows, rec)), other)
            == occurrences(guids(rows), other),
{
    let guid = rec.item.guid;
    let keys = guids(rows);
    let after = inserted_if_absent(rows, rec);
    let keys_after = guids(after);
    if !keys.contains(guid) {
        assert(keys_after =~= keys.push(guid));
        lemma_after_push(keys, guid, other);
        assert(after[keys.len() as int] == rec);
        if other != guid && keys.contains(other) {
            let j = keys.index_of(other);
            assert(after[j] == rows[j]);
        }
    }
    lemma_occurrences_distinct(keys_after, guid);
}

/// Identifiers without duplicates, with a new one added at the end: there
/// are still no duplicates, the new one stands at the end, and every other
/// stands where it stood.
pub proof fn lemma_after_push(keys: Seq<Seq<char>>, guid: Seq<char>, other: Seq<char>)
    requires
        keys.no_duplicates(),
        !keys.contains(guid),
    ensures
        keys.push(guid).no_duplicates(),
        keys.push(guid).contains(guid),
        keys.push(guid).index_of(guid) == keys.len(),
        other != guid ==> keys.push(guid).contains(other) == keys.contains(other),
        other != guid && keys.contains(other) ==> keys.push(guid).index_of(other) == keys.index_of(
            other,
        ),
        other != guid ==> occurrences(keys.push(guid), other) == occurrences(keys, other),
{
    let after = keys.push(guid);
    assert(after[keys.len() as int] == guid);
    assert forall|i: int, j: int| 0 <= i < after.len() && 0 <= j < after.len() && i != j implies after[i]
        != after[j] by {
        if i < keys.len() {
            assert(after[i] == keys[i]);
        }
        if j < keys.len() {
            assert(after[j] == keys[j]);
        }
    }
    lemma_index_of_distinct(after, keys.len() as int);
    if other != guid {
        if keys.contains(other) {
            let j = keys.index_of(other);
            assert(after[j] == other);
            lemma_index_of_distinct(after, j);
        } else if after.contains(other) {
            let j = after.index_of(other);
            assert(keys[j] == other);
        }
        lemma_occurrences_push(keys, guid, other);
    }
}

/// A fetch state that was stored for an identifier is the one read back for
/// it, and the states of the other identifiers are as before.
pub proof fn lemma_state_of_with_state(
    rows: Seq<StateRowView>,
    guid: Seq<char>,
    state: FetchState,
    other: Seq<char>,
)
    requires
        state_guids(rows).no_duplicates(),
    ensures
        state_guids(with_state(rows, guid, state)).no_duplicates(),
        state_guids(with_state(rows, guid, state)).contains(guid),
        state_of(with_state(rows, guid, state), guid) == state,
        other != guid ==> state_of(with_state(rows, guid, state), other) == state_of(rows, other),
{
    let keys = state_guids(rows);
    let after = with_state(rows, guid, state);
    let keys_after = state_guids(after);
    if keys.contains(guid) {
        let i = keys.index_of(guid);
        assert(keys_after =~= keys);
        lemma_index_of_distinct(keys, i);
        if other != guid && keys.contains(other) {
            let j = keys.index_of(other);
            assert(after[j] == rows[j]);
        }
    } else {
        assert(keys_after =~= keys.push(guid));
        assert(keys_after[keys.len() as int] == guid);
        lemma_index_of_distinct(keys_after, keys.len() as int);
        if other != guid {
            if keys.contains(other) {
                let j = keys.index_of(other);
                assert(keys_after[j] == other);
                lemma_index_of_distinct(keys_after, j);
                assert(after[j] == rows[j]);
            } else {
                if keys_after.contains(other) {
                    let j = keys_after.index_of(other);
                    assert(keys[j] == other);
                }
            }
        }
    }
}

/// Of two fetch states stored for one identifier, one after the other, the
/// second is what is left.
pub proof fn lemma_with_state_twice(
    rows: Seq<StateRowView>,
    guid: Seq<char>,
    first: FetchState,
    second: FetchState,
)
    requires
        state_guids(rows).no_duplicates(),
    ensures
        with_state(with_state(rows, guid, first), guid, second) == with_state(rows, guid, second),
{
    let keys = state_guids(rows);
    let mid = with_state(rows, guid, first);
    lemma_state_of_with_state(rows, guid, first, guid);
    if keys.contains(guid) {
        assert(state_guids(mid) =~= keys);
        assert(with_state(mid, guid, second) =~= with_state(rows, guid, second));
    } else {
        assert(state_guids(mid) =~= keys.push(guid));
        assert(state_guids(mid)[keys.len() as int] == guid);
        lemma_index_of_distinct(state_guids(mid), keys.len() as int);
        assert(with_state(mid, guid, second) =~= with_state(rows, guid, second));
    }
}

/// The archive, the current view and the fetch states.
pub struct Store {
    archive: Vec<Record>,
    current: Vec<Record>,
    fetch_states: Vec<StateRow>,
}

impl View for Store {
    type V = StoreView;

    closed spec fn view(&self) -> StoreView {
        StoreView {
            archive: record_views(self.archive@),
            current: record_views(self.current@),
            fetch_states: state_views(self.fetch_states@),
        }
    }
}

/// The place of the row for `guid` among the records, if there is one.
fn find_record(rows: &Vec<Record>, guid: &String) -> (r: Option<usize>)
    ensures
        match r {
            Some(i) => i < rows.len() && guids(record_views(rows@))[i as int] == guid@,
            None => !guids(record_views(rows@)).contains(guid@),
        },
{
    let mut i: usize = 0;
    while i < rows.len()
        invariant
            i <= rows.len(),
            forall|j: int| 0 <= j < i ==> guids(record_views(rows@))[j] != guid@,
        decreases rows.len() - i,
    {
        if rows[i].item.guid == *guid {
            return Some(i);
        }
        i = i + 1;
    }
    None
}

/// The place of the row for `guid` among the fetch states, if there is one.
fn find_state(rows: &Vec<StateRow>, guid: &String) -> (r: Option<usize>)
    ensures
        match r {
            Some(i) => i < rows.len() && state_guids(state_views(rows@))[i as int] == guid@,
            None => !state_guids(state_views(rows@)).contains(guid@),
        },
{
    let mut i: usize = 0;
    while i < rows.len()
        invariant
            i <= rows.len(),
            forall|j: int| 0 <= j < i ==> state_guids(state_views(rows@))[j] != guid@,
        decreases rows.len() - i,
    {
        if rows[i].guid == *guid {
            return Some(i);
        }
        i = i + 1;
    }
    None
}

/// Puts `rec` in the place of the row with its identifier, or adds it.
fn upsert_record(rows: &mut Vec<Record>, rec: Record)
    requires
        guids(record_views(old(rows)@)).no_duplicates(),
    ensures
        record_views(final(rows)@) == upserted(record_views(old(rows)@), rec@),
        guids(record_views(final(rows)@)).no_duplicates(),
{
    let ghost before = record_views(rows@);
    match find_record(rows, &rec.item.guid) {
        Some(i) => {
            proof {
                lemma_index_of_distinct(guids(before), i as int);
            }
            rows.set(i, rec);
            assert(record_views(rows@) =~= before.update(i as int, rec@));
            assert(guids(record_views(rows@)) =~= guids(before));
        },
        None => {
            rows.push(rec);
            assert(record_views(rows@) =~= before.push(rec@));
            assert(guids(record_views(rows@)) =~= guids(before).push(rec@.item.guid));
        },
    }
}

impl Store {
    /// No table holds two rows for one identifier.
    pub open spec fn wf(&self) -> bool {
        self@.wf()
    }

    /// A store without rows.
    pub fn new() -> (store: Store)
        ensures
            store.wf(),
            store@.archive.len() == 0,
            store@.current.len() == 0,
            store@.fetch_states.len() == 0,
    {
        Store { archive: Vec::new(), current: Vec::new(), fetch_states: Vec::new() }
    }

    /// The fetch state of `guid`: that of an entry never attempted where
    /// none is stored.
    pub fn fetch_state(&self, guid: &str) -> (state: FetchState)
        requires
            self.wf(),
        ensures
            state == self@.fetch_state(guid@),
    {
        let key = guid.to_owned();
        match find_state(&self.fetch_states, &key) {
            Some(i) => {
                proof {
                    lemma_index_of_distinct(state_guids(self@.fetch_states), i as int);
                }
                self.fetch_states[i].state
            },
            None => FetchState::new(),
        }
    }

    /// Stores `state` as the fetch state of `guid`, in a new row where it
    /// had none.
    pub fn set_fetch_state(&mut self, guid: &str, state: FetchState)
        requires
            old(self).wf(),
        ensures
            final(self).wf(),
            final(self)@ == old(self)@.with_fetch_state(guid@, state),
    {
        let key = guid.to_owned();
        let ghost before = self@.fetch_states;
        let row = StateRow { guid: key, state };
        match find_state(&self.fetch_states, &row.guid) {
            Some(i) => {
                proof {
                    lemma_index_of_distinct(state_guids(before), i as int);
                }
                self.fetch_states.set(i, row);
                assert(state_views(self.fetch_states@) =~= before.update(i as int, row@));
                assert(state_guids(state_views(self.fetch_states@)) =~= state_guids(before));
            },
            None => {
                self.fetch_states.push(row);
                assert(state_views(self.fetch_states@) =~= before.push(row@));
                assert(state_guids(state_views(self.fetch_states@)) =~= state_guids(before).push(
                    guid@,
                ));
            },
        }
    }

    /// Whether the archive holds a row for `guid`.
    pub fn is_archived(&self, guid: &str) -> (found: bool)
        ensures
            found == self@.archived(guid@),
    {
        let key = guid.to_owned();
        find_record(&self.archive, &key).is_some()
    }

    /// Adds `rec` to the archive. The archive is written once for an
    /// identifier: `rec` is dropped where a row for it is there.
    pub fn insert_archive(&mut self, rec: Record)
        requires
            old(self).wf(),
        ensures
            final(self).wf(),
            final(self)@ == old(self)@.with_archived(rec@),
    {
        let ghost before = self@.archive;
        if find_record(&self.archive, &rec.item.guid).is_none() {
            self.archive.push(rec);
            assert(record_views(self.archive@) =~= before.push(rec@));
            assert(guids(record_views(self.archive@)) =~= guids(before).push(rec@.item.guid));
        }
    }

    /// Makes `rec` the current row of its identifier, in place of the one
    /// that is there or as a new row.
    pub fn upsert_current(&mut self, rec: Record)
        requires
            old(self).wf(),
        ensures
            final(self).wf(),
            final(self)@ == old(self)@.with_current(rec@),
    {
        upsert_record(&mut self.current, rec);
    }

    /// The archive's row for `guid`, if there is one.
    pub fn archive_row(&self, guid: &str) -> (row: Option<Record>)
        requires
            self.wf(),
        ensures
            crate::store::opt_record(row) == self@.archive_row(guid@),
    {
        let key = guid.to_owned();
        match find_record(&self.archive, &key) {
            Some(i) => {
                proof {
                    lemma_index_of_distinct(guids(self@.archive), i as int);
                }
                Some(self.archive[i].clone())
            },
            None => None,
        }
    }

    /// The current view's row for `guid`, if there is one.
    pub fn current_row(&self, guid: &str) -> (row: Option<Record>)
        requires
            self.wf(),
        ensures
            crate::store::opt_record(row) == self@.current_row(guid@),
    {
        let key = guid.to_owned();
        match find_record(&self.current, &key) {
            Some(i) => {
                proof {
                    lemma_index_of_distinct(guids(self@.current), i as int);
                }
                Some(self.current[i].clone())
            },
            None => None,
        }
    }

    /// The number of archive rows for `guid`.
    pub fn archive_count(&self, guid: &str) -> (n: usize)
        ensures
            n == self@.archive_count(guid@),
    {
        let key = guid.to_owned();
        count_records(&self.archive, &key)
    }

    /// The number of rows of the current view for `guid`.
    pub fn current_count(&self, guid: &str) -> (n: usize)
        ensures
            n == self@.current_count(guid@),
    {
        let key = guid.to_owned();
        count_records(&self.current, &key)
    }

    /// The number of rows in the archive.
    pub fn archive_len(&self) -> (n: usize)
        ensures
            n == self@.archive.len(),
    {
        self.archive.len()
    }

    /// The number of rows in the current view.
    pub fn current_len(&self) -> (n: usize)
        ensures
            n == self@.current.len(),
    {
        self.current.len()
    }
}

/// An optional record as a mathematical value.
pub open spec fn opt_record(row: Option<Record>) -> Option<RecordView> {
    match row {
        Some(r) => Some(r@),
        None => None,
    }
}

/// Counts the rows for `guid` among the records.
fn count_records(rows: &Vec<Record>, guid: &String) -> (n: usize)
    ensures
        n == occurrences(guids(record_views(rows@)), guid@),
{
    let ghost keys = guids(record_views(rows@));
    let mut n: usize = 0;
    let mut i: usize = 0;
    while i < rows.len()
        invariant
            i <= rows.len(),
            n <= i,
            keys == guids(record_views(rows@)),
            n == occurrences(keys.take(i as int), guid@),
        decreases rows.len() - i,
    {
        proof {
            assert(keys.take(i + 1).drop_last() == keys.take(i as int));
        }
        if rows[i].item.guid == *guid {
            n = n + 1;
        }
        i = i + 1;
    }
    proof {
        assert(keys.take(i as int) == keys);
    }
    n
}


/// The count of failed live fetches that is stored for `guid`; 0 where
/// nothing is stored.
pub fn get_failed_fetch_count(store: &Store, guid: &str) -> (count: u32)
    requires
        store.wf(),
    ensures
        count == store@.fetch_state(guid@).failed_fetch_count,
{
    store.fetch_state(guid).failed_fetch_count
}

/// Stores `count` as the count of failed live fetches of `guid`. The rest
/// of its fetch state is kept.
pub fn update_failed_fetch_count(store: &mut Store, guid: &str, count: u32)
    requires
        old(store).wf(),
    ensures
        final(store).wf(),
        final(store)@ == old(store)@.with_fetch_state(
            guid@,
            FetchState { failed_fetch_count: count, ..old(store)@.fetch_state(guid@) },
        ),
{
    let state = store.fetch_state(guid);
    store.set_fetch_state(
        guid,
        FetchState {
            failed_fetch_count: count,
            last_fetch_attempt: state.last_fetch_attempt,
            disabled: state.disabled,
        },
    );
}

/// Marks `guid` as given up. The rest of its fetch state is kept.
pub fn disable_feed(store: &mut Store, guid: &str)
    requires
        old(store).wf(),
    ensures
        final(store).wf(),
        final(store)@ == old(store)@.with_fetch_state(
            guid@,
            FetchState { disabled: true, ..old(store)@.fetch_state(guid@) },
        ),
{
    let state = store.fetch_state(guid);
    store.set_fetch_state(
        guid,
        FetchState {
            failed_fetch_count: state.failed_fetch_count,
            last_fetch_attempt: state.last_fetch_attempt,
            disabled: true,
        },
    );
}

/// When the last live fetch of `guid` began; `None` where none was made.
pub fn get_last_fetch_attempt(store: &Store, guid: &str) -> (last: Option<Timestamp>)
    requires
        store.wf(),
    ensures
        last == store@.fetch_state(guid@).last_fetch_attempt,
{
    store.fetch_state(guid).last_fetch_attempt
}

/// Stores `timestamp` as the time at which the last live fetch of `guid`
/// began. The rest of its fetch state is kept.
pub fn update_last_fetch_attempt(store: &mut Store, guid: &str, timestamp: Timestamp)
    requires
        old(store).wf(),
    ensures
        final(store).wf(),
        final(store)@ == old(store)@.with_fetch_state(
            guid@,
            FetchState { last_fetch_attempt: Some(timestamp), ..old(store)@.fetch_state(guid@) },
        ),
{
    let state = store.fetch_state(guid);
    store.set_fetch_state(
        guid,
        FetchState {
            failed_fetch_count: state.failed_fetch_count,
            last_fetch_attempt: Some(timestamp),
            disabled: state.disabled,
        },
    );
}

/// Writes an entry's record with the full content resolved for it: into the
/// archive if its identifier is new there, and in any case as the current
/// row of its identifier, in place of every field of the row before.
pub fn process_entry(store: &mut Store, item: &FeedItem, full_content: Option<String>)
    requires
        old(store).wf(),
    ensures
        final(store).wf(),
        final(store)@ == old(store)@.persisted(
            RecordView { item: item@, full_content: opt_text(full_content) },
        ),
{
    let rec = Record { item: item.clone(), full_content };
    if !store.is_archived(item.guid.as_str()) {
        store.insert_archive(rec.clone());
    }
    store.upsert_current(rec);
}


} // verus!
