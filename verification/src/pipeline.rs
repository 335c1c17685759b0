//! One entry's way through enrichment and persistence, as a machine that
//! asks for one piece of outside work at a time and decides on what comes
//! back.

use crate::gate::{
    full_content, live_text, phase_at, resolve_content, settled, stamped, untouched, usable_text,
    FetchState, Phase,
};
use crate::text::{blank_opt, clone_opt_text, is_blank_opt, opt_text};
use crate::time::{utc_now, Timestamp};
use vstd::prelude::*;

verus! {

/// The outside work that the machine asks for.
#[derive(Clone, Copy, Debug, PartialEq, Eq)]
pub enum Action {
    /// Read the fetch state of the entry.
    ReadFetchState,
    /// Store this time as the beginning of the entry's last attempt.
    StampAttempt(Timestamp),
    /// Fetch and sanitise the page at the entry's link.
    FetchLive,
    /// Store this count as the entry's count of failed attempts.
    WriteFailedCount(u32),
    /// Look the entry's identifier up in the archive.
    CheckArchive,
    /// Insert the entry's record, with the run's full content, into the
    /// archive.
    InsertArchive,
    /// Make the entry's record, with the run's full content, the current row
    /// of its identifier.
    UpsertCurrent,
    /// Nothing more: the entry was persisted (`true`) or the run failed.
    Finish(bool),
}

/// What came of the work that was asked for.
#[derive(Debug, PartialEq, Eq)]
pub enum Event {
    /// The fetch state that was read; `None` where the read failed.
    FetchStateRead(Option<FetchState>),
    /// Whether a write went through.
    Written(bool),
    /// The sanitised text of the page; `None` where the fetch failed.
    Fetched(Option<String>),
    /// Whether the archive holds the identifier; `None` where the lookup
    /// failed.
    ArchiveChecked(Option<bool>),
}

/// An `Event` as a mathematical value.
pub enum EventView {
    FetchStateRead(Option<FetchState>),
    Written(bool),
    Fetched(Option<Seq<char>>),
    ArchiveChecked(Option<bool>),
}

impl View for Event {
    type V = EventView;

    open spec fn view(&self) -> EventView {
        match *self {
            Event::FetchStateRead(s) => EventView::FetchStateRead(s),
            Event::Written(ok) => EventView::Written(ok),
            Event::Fetched(text) => EventView::Fetched(opt_text(text)),
            Event::ArchiveChecked(found) => EventView::ArchiveChecked(found),
        }
    }
}

/// What the machine waits for.
#[derive(Clone, Copy, Debug, PartialEq, Eq, Structural)]
pub enum Stage {
    ReadingState,
    Stamping,
    Fetching,
    WritingCount,
    CheckingArchive,
    InsertingArchive,
    UpsertingCurrent,
    Done,
    Failed,
}

/// The run of one entry through the pipeline.
#[derive(Debug, PartialEq, Eq)]
pub struct EntryRun {
    /// What the run waits for.
    pub stage: Stage,
    /// The content that the feed gave for the entry.
    pub content: Option<String>,
    /// The time of the cycle.
    pub now: Timestamp,
    /// The entry's fetch state as the run knows it.
    pub state: FetchState,
    /// Whether the run has begun a live fetch.
    pub attempted: bool,
    /// The full content that was resolved, once it is.
    pub full_content: Option<String>,
}

/// An `EntryRun` as a mathematical value.
pub struct RunView {
    pub stage: Stage,
    pub content: Option<Seq<char>>,
    pub now: Timestamp,
    pub state: FetchState,
    pub attempted: bool,
    pub full_content: Option<Seq<char>>,
}

impl View for EntryRun {
    type V = RunView;

    open spec fn view(&self) -> RunView {
        RunView {
            stage: self.stage,
            content: opt_text(self.content),
            now: self.now,
            state: self.state,
            attempted: self.attempted,
            full_content: opt_text(self.full_content),
        }
    }
}

/// The run given up, and the action that says so.
pub open spec fn give_up(run: RunView) -> (RunView, Action) {
    (RunView { stage: Stage::Failed, ..run }, Action::Finish(false))
}

/// The run past enrichment with `full` as its full content, and the lookup in
/// the archive that comes next.
pub open spec fn to_archive(run: RunView, full: Option<Seq<char>>) -> (RunView, Action) {
    (RunView { stage: Stage::CheckingArchive, full_content: full, ..run }, Action::CheckArchive)
}

/// The beginning of a run, for an entry with this content in a cycle at
/// this time, and the first action. An entry whose content is not blank goes
/// straight to the archive, with that content as its full content; for a
/// blank one the fetch state is read.
pub open spec fn begun(content: Option<Seq<char>>, now: Timestamp) -> (RunView, Action) {
    let run = RunView {
        stage: Stage::ReadingState,
        content,
        now,
        state: untouched(),
        attempted: false,
        full_content: None,
    };
    if is_blank_opt(content) {
        (run, Action::ReadFetchState)
    } else {
        to_archive(run, content)
    }
}

/// The machine's step: from the run and the event to the run that follows
/// and the action to take.
///
/// A failed read of the fetch state counts as no state. In the cooldown the
/// entry goes to the archive with the feed's content. Otherwise the attempt
/// is stamped, then the page is fetched, then the count is written; neither
/// write holds the run up when it fails. The archive is looked up, the
/// record is inserted where it is new, and the current row is written. A
/// failed lookup, insert or upsert ends the run in failure, and so does an
/// event that is not the answer to the action before.
pub open spec fn step_of(run: RunView, event: EventView) -> (RunView, Action) {
    match run.stage {
        Stage::ReadingState => match event {
            EventView::FetchStateRead(read) => {
                let state = match read {
                    Some(s) => s,
                    None => untouched(),
                };
                if phase_at(state, run.now) != Phase::CoolingDown {
                    (
                        RunView {
                            stage: Stage::Stamping,
                            state: stamped(state, run.now),
                            attempted: true,
                            ..run
                        },
                        Action::StampAttempt(run.now),
                    )
                } else {
                    to_archive(RunView { state, ..run }, run.content)
                }
            },
            _ => give_up(run),
        },
        Stage::Stamping => match event {
            EventView::Written(_) => (RunView { stage: Stage::Fetching, ..run }, Action::FetchLive),
            _ => give_up(run),
        },
        Stage::Fetching => match event {
            EventView::Fetched(answer) => {
                let live = live_text(answer);
                let state = settled(run.state, live is Some);
                (
                    RunView {
                        stage: Stage::WritingCount,
                        state,
                        full_content: full_content(run.content, live),
                        ..run
                    },
                    Action::WriteFailedCount(state.failed_fetch_count),
                )
            },
            _ => give_up(run),
        },
        Stage::WritingCount => match event {
            EventView::Written(_) => to_archive(run, run.full_content),
            _ => give_up(run),
        },
        Stage::CheckingArchive => match event {
            EventView::ArchiveChecked(Some(found)) => if found {
                (RunView { stage: Stage::UpsertingCurrent, ..run }, Action::UpsertCurrent)
            } else {
                (RunView { stage: Stage::InsertingArchive, ..run }, Action::InsertArchive)
            },
            _ => give_up(run),
        },
        Stage::InsertingArchive => match event {
            EventView::Written(ok) => if ok {
                (RunView { stage: Stage::UpsertingCurrent, ..run }, Action::UpsertCurrent)
            } else {
                give_up(run)
            },
            _ => give_up(run),
        },
        Stage::UpsertingCurrent => match event {
            EventView::Written(ok) => if ok {
                (RunView { stage: Stage::Done, ..run }, Action::Finish(true))
            } else {
                give_up(run)
            },
            _ => give_up(run),
        },
        Stage::Done => (run, Action::Finish(true)),
        Stage::Failed => (run, Action::Finish(false)),
    }
}

impl EntryRun {
    /// Begins the run of an entry with this content in the cycle at the time
    /// `now`, and says what to do first.
    pub fn begin(content: &Option<String>, now: Timestamp) -> (r: (EntryRun, Action))
        ensures
            (r.0@, r.1) == begun(opt_text(*content), now),
    {
        let mut run = EntryRun {
            stage: Stage::ReadingState,
            content: clone_opt_text(content),
            now,
            state: FetchState::new(),
            attempted: false,
            full_content: None,
        };
        if blank_opt(content) {
            (run, Action::ReadFetchState)
        } else {
            let action = run.pass(clone_opt_text(content));
            (run, action)
        }
    }

    /// Begins the run of an entry with this content in a cycle at the time
    /// that the clock shows.
    pub fn begin_now(content: &Option<String>) -> (r: (EntryRun, Action))
        ensures
            (r.0@, r.1) == begun(opt_text(*content), r.0.now),
    {
        EntryRun::begin(content, utc_now())
    }

    /// Gives the run up.
    fn fail(&mut self) -> (action: Action)
        ensures
            (final(self)@, action) == give_up(old(self)@),
    {
        self.stage = Stage::Failed;
        Action::Finish(false)
    }

    /// Takes the run past enrichment with `full` as its full content.
    fn pass(&mut self, full: Option<String>) -> (action: Action)
        ensures
            (final(self)@, action) == to_archive(old(self)@, opt_text(full)),
    {
        self.stage = Stage::CheckingArchive;
        self.full_content = full;
        Action::CheckArchive
    }

    /// Takes one step: decides on `event`, the outcome of the action that the
    /// step before asked for, and says what to do next.
    pub fn step(&mut self, event: Event) -> (action: Action)
        ensures
            (final(self)@, action) == step_of(old(self)@, event@),
    {
        match self.stage {
            Stage::ReadingState => match event {
                Event::FetchStateRead(read) => {
                    let state = match read {
                        Some(s) => s,
                        None => FetchState::new(),
                    };
                    match state.phase(self.now) {
                        Phase::CoolingDown => {
                            self.state = state;
                            let full = clone_opt_text(&self.content);
                            self.pass(full)
                        },
                        _ => {
                            self.stage = Stage::Stamping;
                            self.state = state.stamp(self.now);
                            self.attempted = true;
                            Action::StampAttempt(self.now)
                        },
                    }
                },
                _ => self.fail(),
            },
            Stage::Stamping => match event {
                Event::Written(_) => {
                    self.stage = Stage::Fetching;
                    Action::FetchLive
                },
                _ => self.fail(),
            },
            Stage::Fetching => match event {
                Event::Fetched(answer) => {
                    let live = usable_text(answer);
                    let state = self.state.settle(live.is_some());
                    self.stage = Stage::WritingCount;
                    self.state = state;
                    self.full_content = resolve_content(&self.content, live);
                    Action::WriteFailedCount(state.failed_fetch_count)
                },
                _ => self.fail(),
            },
            Stage::WritingCount => match event {
                Event::Written(_) => {
                    self.stage = Stage::CheckingArchive;
                    Action::CheckArchive
                },
                _ => self.fail(),
            },
            Stage::CheckingArchive => match event {
                Event::ArchiveChecked(Some(found)) => {
                    if found {
                        self.stage = Stage::UpsertingCurrent;
                        Action::UpsertCurrent
                    } else {
                        self.stage = Stage::InsertingArchive;
                        Action::InsertArchive
                    }
                },
                _ => self.fail(),
            },
            Stage::InsertingArchive => match event {
                Event::Written(true) => {
                    self.stage = Stage::UpsertingCurrent;
                    Action::UpsertCurrent
                },
                _ => self.fail(),
            },
            Stage::UpsertingCurrent => match event {
                Event::Written(true) => {
                    self.stage = Stage::Done;
                    Action::Finish(true)
                },
                _ => self.fail(),
            },
            Stage::Done => Action::Finish(true),
            Stage::Failed => Action::Finish(false),
        }
    }
}

} // verus!
