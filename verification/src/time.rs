//! Points in time and the cooldown between two live fetches of one entry.

use vstd::prelude::*;

verus! {

/// A point in time in UTC: whole seconds since the Unix epoch, and the
/// nanoseconds into that second.
#[derive(Clone, Copy, Debug, PartialEq, Eq, Structural)]
pub struct Timestamp {
    pub secs: i64,
    pub nanos: u32,
}

/// Seconds that must have passed since the last live fetch of an entry
/// before the next one: 24 hours.
pub const COOLDOWN_SECS: i64 = 86_400;

pub const NANOS_PER_SEC: i64 = 1_000_000_000;

impl Timestamp {
    /// Nanoseconds since the Unix epoch.
    pub open spec fn as_nanos(self) -> int {
        self.secs * NANOS_PER_SEC + self.nanos
    }
}

/// Nanoseconds from `earlier` to `later`; negative where `later` is the
/// earlier one.
pub open spec fn elapsed_nanos(earlier: Timestamp, later: Timestamp) -> int {
    later.as_nanos() - earlier.as_nanos()
}

/// More than the cooldown has passed between `last` and `now`.
pub open spec fn cooldown_over(last: Timestamp, now: Timestamp) -> bool {
    elapsed_nanos(last, now) > COOLDOWN_SECS * NANOS_PER_SEC
}

/// Whether more than the cooldown has passed between `last` and `now`.
pub fn is_cooldown_over(last: Timestamp, now: Timestamp) -> (b: bool)
    ensures
        b == cooldown_over(last, now),
{
    let later: i128 = (now.secs as i128) * 1_000_000_000 + (now.nanos as i128);
    let earlier: i128 = (last.secs as i128) * 1_000_000_000 + (last.nanos as i128);
    later - earlier > 86_400_000_000_000
}

/// `chrono::Utc::now`: the system clock's reading, as the seconds and
/// nanoseconds that `DateTime::timestamp` and
/// `DateTime::timestamp_subsec_nanos` give. Nothing is claimed of the value.
/// The call fails only on a machine whose clock stands before the Unix epoch.
#[verifier::external_body]
pub(crate) fn utc_now() -> Timestamp {
    let t = chrono::Utc::now();
    Timestamp { secs: t.timestamp(), nanos: t.timestamp_subsec_nanos() }
}

} // verus!
