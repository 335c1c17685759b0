//! A polling cycle: taking the entries of a feed through validation,
//! enrichment and persistence one after the other, and counting what became
//! of them.

use crate::ingest::{after_visits, ingest_entry, Visit};
use crate::item::FeedItem;
use crate::store::Store;
use crate::text::{clone_opt_text, opt_text};
use crate::time::Timestamp;
use crate::validate::{rejection, sanitize, sanitized, validate, ValidationError};
use vstd::prelude::*;

verus! {

/// What became of one entry in a cycle.
#[derive(Clone, Copy, Debug, PartialEq, Eq, Structural)]
pub enum EntryOutcome {
    /// It was written to the store.
    Stored,
    /// It broke a rule and was left out.
    Rejected(ValidationError),
    /// The store refused it.
    Failed,
}

/// The count after one more, which stops at the largest number.
pub open spec fn bumped(n: u64) -> u64 {
    if n < u64::MAX {
        (n + 1) as u64
    } else {
        n
    }
}

/// The sum of two counts, which stops at the largest number.
pub open spec fn summed(a: u64, b: u64) -> u64 {
    if a + b <= u64::MAX {
        (a + b) as u64
    } else {
        u64::MAX
    }
}

/// The entries of one feed in one cycle, by what became of them.
#[derive(Clone, Copy, Debug, PartialEq, Eq, Structural)]
pub struct FeedTally {
    /// Entries that the feed held.
    pub seen: u64,
    /// Entries that were written to the store.
    pub stored: u64,
    /// Entries that broke a rule.
    pub rejected: u64,
    /// Entries that the store refused.
    pub failed: u64,
}

/// The tally with one more entry, of this outcome.
pub open spec fn recorded(tally: FeedTally, outcome: EntryOutcome) -> FeedTally {
    match outcome {
        EntryOutcome::Stored => FeedTally {
            seen: bumped(tally.seen),
            stored: bumped(tally.stored),
            ..tally
        },
        EntryOutcome::Rejected(_) => FeedTally {
            seen: bumped(tally.seen),
            rejected: bumped(tally.rejected),
            ..tally
        },
        EntryOutcome::Failed => FeedTally {
            seen: bumped(tally.seen),
            failed: bumped(tally.failed),
            ..tally
        },
    }
}

/// A tally of no entries.
pub open spec fn no_entries() -> FeedTally {
    FeedTally { seen: 0, stored: 0, rejected: 0, failed: 0 }
}

/// Adds one to a count, unless it is at the largest number.
fn bump(n: u64) -> (m: u64)
    ensures
        m == bumped(n),
{
    if n < u64::MAX {
        n + 1
    } else {
        n
    }
}

impl FeedTally {
    /// Every entry seen is counted under exactly one outcome.
    pub open spec fn balanced(self) -> bool {
        self.seen == self.stored + self.rejected + self.failed
    }

    /// A tally of no entries.
    pub fn new() -> (tally: FeedTally)
        ensures
            tally == no_entries(),
    {
        FeedTally { seen: 0, stored: 0, rejected: 0, failed: 0 }
    }

    /// Counts one more entry, of this outcome.
    pub fn record(&mut self, outcome: EntryOutcome)
        ensures
            *final(self) == recorded(*old(self), outcome),
    {
        self.seen = bump(self.seen);
        match outcome {
            EntryOutcome::Stored => {
                self.stored = bump(self.stored);
            },
            EntryOutcome::Rejected(_) => {
                self.rejected = bump(self.rejected);
            },
            EntryOutcome::Failed => {
                self.failed = bump(self.failed);
            },
        }
    }
}

/// A tally in which every entry is counted under one outcome stays so when
/// an entry is counted, as long as the count of entries seen has room.
pub proof fn record_keeps_balance(tally: FeedTally, outcome: EntryOutcome)
    requires
        tally.balanced(),
        tally.seen < u64::MAX,
    ensures
        recorded(tally, outcome).balanced(),
        recorded(tally, outcome).seen == tally.seen + 1,
{
}

/// A cycle over all feeds, by what became of the feeds and of their entries.
#[derive(Clone, Copy, Debug, PartialEq, Eq, Structural)]
pub struct CycleTally {
    /// Feeds that were polled.
    pub feeds: u64,
    /// Feeds that could not be fetched or parsed.
    pub feeds_failed: u64,
    /// Entries that the feeds held.
    pub entries: u64,
    /// Entries that were written to the store.
    pub stored: u64,
    /// Entries that broke a rule.
    pub rejected: u64,
    /// Entries that the store refused.
    pub errors: u64,
}

/// The cycle's tally with one more feed: its entries where it was fetched,
/// a failed feed where its tally is `None`.
pub open spec fn with_feed(cycle: CycleTally, feed: Option<FeedTally>) -> CycleTally {
    match feed {
        Some(t) => CycleTally {
            feeds: bumped(cycle.feeds),
            entries: summed(cycle.entries, t.seen),
            stored: summed(cycle.stored, t.stored),
            rejected: summed(cycle.rejected, t.rejected),
            errors: summed(cycle.errors, t.failed),
            ..cycle
        },
        None => CycleTally {
            feeds: bumped(cycle.feeds),
            feeds_failed: bumped(cycle.feeds_failed),
            ..cycle
        },
    }
}

impl CycleTally {
    /// The tally of a cycle before its first feed.
    pub fn new() -> (cycle: CycleTally)
        ensures
            cycle == (CycleTally {
                feeds: 0,
                feeds_failed: 0,
                entries: 0,
                stored: 0,
                rejected: 0,
                errors: 0,
            }),
    {
        CycleTally { feeds: 0, feeds_failed: 0, entries: 0, stored: 0, rejected: 0, errors: 0 }
    }

    /// Counts one more feed. A feed that failed adds no entries, and the
    /// feeds after it are counted as ever.
    pub fn add_feed(&mut self, feed: Option<FeedTally>)
        ensures
            *final(self) == with_feed(*old(self), feed),
    {
        self.feeds = bump(self.feeds);
        match feed {
            Some(t) => {
                self.entries = self.entries.saturating_add(t.seen);
                self.stored = self.stored.saturating_add(t.stored);
                self.rejected = self.rejected.saturating_add(t.rejected);
                self.errors = self.errors.saturating_add(t.failed);
            },
            None => {
                self.feeds_failed = bump(self.feeds_failed);
            },
        }
    }
}

/// The answer that the live fetcher has for the entry at `i`: a failure
/// where the answers end before it.
pub open spec fn answer_at(answers: Seq<Option<String>>, i: int) -> Option<Seq<char>> {
    if 0 <= i < answers.len() {
        opt_text(answers[i])
    } else {
        None
    }
}

/// What becomes of a record in the in-memory store: it is stored unless it
/// breaks a rule.
pub open spec fn outcome_of(item: FeedItem) -> EntryOutcome {
    match rejection(item@) {
        Some(e) => EntryOutcome::Rejected(e),
        None => EntryOutcome::Stored,
    }
}

/// The visits that a feed's records make to the store: one for each record
/// that breaks no rule, sanitised, in the feed's order.
pub open spec fn visits_of(items: Seq<FeedItem>, now: Timestamp, answers: Seq<Option<String>>) -> Seq<
    Visit,
>
    decreases items.len(),
{
    if items.len() == 0 {
        Seq::empty()
    } else {
        let before = visits_of(items.drop_last(), now, answers);
        let item = items.last()@;
        if rejection(item) is None {
            before.push(
                Visit { item: sanitized(item), now, answer: answer_at(answers, items.len() - 1) },
            )
        } else {
            before
        }
    }
}

/// The tally of a feed's records.
pub open spec fn tally_of(items: Seq<FeedItem>) -> FeedTally
    decreases items.len(),
{
    if items.len() == 0 {
        no_entries()
    } else {
        recorded(tally_of(items.drop_last()), outcome_of(items.last()))
    }
}

/// Takes the records of one feed through the pipeline, in order, at the
/// time `now`: each is validated, and those that pass are sanitised,
/// enriched and written to the store. `answers` holds, for the record at the
/// same place, what the live fetcher gives if it is asked. A record
/// that is rejected changes nothing in the store and does not stop the ones
/// after it.
pub fn ingest_items(
    store: &mut Store,
    items: &Vec<FeedItem>,
    now: Timestamp,
    answers: &Vec<Option<String>>,
) -> (tally: FeedTally)
    requires
        old(store).wf(),
    ensures
        final(store).wf(),
        final(store)@ == after_visits(old(store)@, visits_of(items@, now, answers@)),
        tally == tally_of(items@),
{
    let ghost before = store@;
    let mut tally = FeedTally::new();
    let mut i: usize = 0;
    while i < items.len()
        invariant
            i <= items.len(),
            store.wf(),
            store@ == after_visits(before, visits_of(items@.take(i as int), now, answers@)),
            tally == tally_of(items@.take(i as int)),
        decreases items.len() - i,
    {
        let item = &items[i];
        proof {
            assert(items@.take(i + 1).drop_last() == items@.take(i as int));
            assert(items@.take(i + 1).last() == items@[i as int]);
        }
        let ghost visits = visits_of(items@.take(i as int), now, answers@);
        match validate(item) {
            Ok(()) => {
                let safe = sanitize(item);
                let answer = if i < answers.len() {
                    clone_opt_text(&answers[i])
                } else {
                    None
                };
                let ghost visit = Visit { item: safe@, now, answer: opt_text(answer) };
                proof {
                    assert(visits.push(visit).drop_last() == visits);
                }
                ingest_entry(store, &safe, now, answer);
                tally.record(EntryOutcome::Stored);
            },
            Err(e) => {
                tally.record(EntryOutcome::Rejected(e));
            },
        }
        i = i + 1;
    }
    proof {
        assert(items@.take(i as int) == items@);
    }
    tally
}

} // verus!
