//! The enrichment gate: when an entry's live page is fetched, and what each
//! attempt leaves behind in the entry's fetch state.

use crate::text::{blank_opt, clone_opt_text, is_blank_opt, non_blank, opt_text};
use crate::time::{cooldown_over, is_cooldown_over, Timestamp};
use vstd::prelude::*;

verus! {

/// What is remembered of the live fetches of one entry.
#[derive(Clone, Copy, Debug, PartialEq, Eq)]
pub struct FetchState {
    /// Attempts that failed since the last one that succeeded.
    pub failed_fetch_count: u32,
    /// When the last attempt began, if there was one.
    pub last_fetch_attempt: Option<Timestamp>,
    /// Set by policy to give an entry up. It does not decide on a fetch.
    pub disabled: bool,
}

/// Where an entry stands between two attempts.
#[derive(Clone, Copy, Debug, PartialEq, Eq, Structural)]
pub enum Phase {
    /// No attempt was ever made.
    Fresh,
    /// The last attempt began no more than the cooldown ago.
    CoolingDown,
    /// The last attempt began more than the cooldown ago.
    Eligible,
}

/// What the attempts so far came to.
#[derive(Clone, Copy, Debug, PartialEq, Eq, Structural)]
pub enum Health {
    /// No attempt was ever made.
    Untried,
    /// An attempt was made, and none has failed since the last that
    /// succeeded.
    Enriched,
    /// The last attempt failed, and as many before it as the count says.
    Failing,
}

/// The state of an entry of which nothing is stored: never attempted.
pub open spec fn untouched() -> FetchState {
    FetchState { failed_fetch_count: 0, last_fetch_attempt: None, disabled: false }
}

/// The phase of an entry at the time `now`.
pub open spec fn phase_at(state: FetchState, now: Timestamp) -> Phase {
    match state.last_fetch_attempt {
        None => Phase::Fresh,
        Some(last) => if cooldown_over(last, now) {
            Phase::Eligible
        } else {
            Phase::CoolingDown
        },
    }
}

/// What the attempts on an entry came to, by its count of failures.
pub open spec fn health_of(state: FetchState) -> Health {
    if state.failed_fetch_count > 0 {
        Health::Failing
    } else if state.last_fetch_attempt is Some {
        Health::Enriched
    } else {
        Health::Untried
    }
}

/// The live page of an entry is fetched exactly when the feed gave no
/// content or a blank one, and no attempt was made yet or the last one began
/// more than the cooldown ago.
pub open spec fn gate_opens(content: Option<Seq<char>>, state: FetchState, now: Timestamp) -> bool {
    is_blank_opt(content) && phase_at(state, now) != Phase::CoolingDown
}

/// The state once an attempt has begun at `now`.
pub open spec fn stamped(state: FetchState, now: Timestamp) -> FetchState {
    FetchState { last_fetch_attempt: Some(now), ..state }
}

/// The count of failures after one more, which stops at the largest number.
pub open spec fn one_more(count: u32) -> u32 {
    if count < u32::MAX {
        (count + 1) as u32
    } else {
        count
    }
}

/// The state once an attempt has ended: the count is back at 0 after a
/// success and one higher after a failure.
pub open spec fn settled(state: FetchState, success: bool) -> FetchState {
    FetchState {
        failed_fetch_count: if success {
            0
        } else {
            one_more(state.failed_fetch_count)
        },
        ..state
    }
}

/// The text that a live fetch brought: the fetcher's answer where it is one
/// and is not blank.
pub open spec fn live_text(answer: Option<Seq<char>>) -> Option<Seq<char>> {
    if is_blank_opt(answer) {
        None
    } else {
        answer
    }
}

/// The full content that is stored with an entry: the text of the live
/// fetch where there is one, else the content that the feed gave, blank or
/// absent as it may be.
pub open spec fn full_content(content: Option<Seq<char>>, live: Option<Seq<char>>) -> Option<
    Seq<char>,
> {
    match live {
        Some(t) => Some(t),
        None => content,
    }
}

/// The fetch state that a row of the store holds in its columns, each
/// `None` where there is no row. No row is no attempt, and a count below 0
/// is none.
pub open spec fn state_in_columns(
    count: Option<i32>,
    last: Option<Timestamp>,
    disabled: Option<bool>,
) -> FetchState {
    FetchState {
        failed_fetch_count: match count {
            Some(c) => if c > 0 {
                c as u32
            } else {
                0
            },
            None => 0,
        },
        last_fetch_attempt: last,
        disabled: match disabled {
            Some(d) => d,
            None => false,
        },
    }
}

/// The count of failures as the store's column of 32-bit integers holds it:
/// the count, or the column's largest number where the count is larger.
pub open spec fn count_in_column(count: u32) -> i32 {
    if count <= i32::MAX {
        count as i32
    } else {
        i32::MAX
    }
}

impl FetchState {
    /// The state of an entry that was never attempted.
    pub fn new() -> (s: FetchState)
        ensures
            s == untouched(),
    {
        FetchState { failed_fetch_count: 0, last_fetch_attempt: None, disabled: false }
    }

    /// The state that a row of the store holds in its columns, each `None`
    /// where there is no row.
    pub fn from_columns(count: Option<i32>, last: Option<Timestamp>, disabled: Option<bool>) -> (s:
        FetchState)
        ensures
            s == state_in_columns(count, last, disabled),
    {
        let failed_fetch_count: u32 = match count {
            Some(c) => if c > 0 {
                c as u32
            } else {
                0
            },
            None => 0,
        };
        let disabled = match disabled {
            Some(d) => d,
            None => false,
        };
        FetchState { failed_fetch_count, last_fetch_attempt: last, disabled }
    }

    /// Where the entry stands at the time `now`.
    pub fn phase(&self, now: Timestamp) -> (p: Phase)
        ensures
            p == phase_at(*self, now),
    {
        match self.last_fetch_attempt {
            None => Phase::Fresh,
            Some(last) => if is_cooldown_over(last, now) {
                Phase::Eligible
            } else {
                Phase::CoolingDown
            },
        }
    }

    /// What the attempts so far came to.
    pub fn health(&self) -> (h: Health)
        ensures
            h == health_of(*self),
    {
        if self.failed_fetch_count > 0 {
            Health::Failing
        } else if self.last_fetch_attempt.is_some() {
            Health::Enriched
        } else {
            Health::Untried
        }
    }

    /// The state with an attempt begun at `now`.
    pub fn stamp(&self, now: Timestamp) -> (s: FetchState)
        ensures
            s == stamped(*self, now),
    {
        FetchState {
            failed_fetch_count: self.failed_fetch_count,
            last_fetch_attempt: Some(now),
            disabled: self.disabled,
        }
    }

    /// The state with the attempt ended, in success or in failure.
    pub fn settle(&self, success: bool) -> (s: FetchState)
        ensures
            s == settled(*self, success),
    {
        let count = if success {
            0
        } else if self.failed_fetch_count < u32::MAX {
            self.failed_fetch_count + 1
        } else {
            self.failed_fetch_count
        };
        FetchState {
            failed_fetch_count: count,
            last_fetch_attempt: self.last_fetch_attempt,
            disabled: self.disabled,
        }
    }
}

/// The count of failures for the store's column of 32-bit integers.
pub fn count_column(count: u32) -> (c: i32)
    ensures
        c == count_in_column(count),
{
    if count <= 0x7fff_ffff {
        count as i32
    } else {
        i32::MAX
    }
}

/// Whether the live page of an entry with this content and this state is to
/// be fetched at the time `now`.
pub fn should_fetch(content: &Option<String>, state: &FetchState, now: Timestamp) -> (open: bool)
    ensures
        open == gate_opens(opt_text(*content), *state, now),
{
    if !blank_opt(content) {
        return false;
    }
    match state.phase(now) {
        Phase::CoolingDown => false,
        _ => true,
    }
}

/// The text that the live fetch brought, if it brought one that is not
/// blank.
pub fn usable_text(answer: Option<String>) -> (live: Option<String>)
    ensures
        opt_text(live) == live_text(opt_text(answer)),
{
    match answer {
        Some(text) => non_blank(text),
        None => None,
    }
}

/// The content to store beside the feed's own: what the live fetch brought,
/// or else the feed's content.
pub fn resolve_content(content: &Option<String>, live: Option<String>) -> (full: Option<String>)
    ensures
        opt_text(full) == full_content(opt_text(*content), opt_text(live)),
{
    match live {
        Some(t) => Some(t),
        None => clone_opt_text(content),
    }
}

} // verus!
