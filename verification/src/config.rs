//! The settings of the service, and the overrides that the environment may
//! hold for them.

use crate::errors::IngestError;
use crate::text::opt_text;
use std::time::Duration;
use vstd::prelude::*;
use vstd::utf8::encode_utf8;

verus! {

/// One feed to poll.
#[derive(Debug, PartialEq, Eq)]
pub struct Feed {
    /// A name for people.
    pub name: String,
    /// Where the feed is fetched from.
    pub url: String,
    /// The kind of source.
    pub feed_type: Option<String>,
    /// Labels to group feeds by.
    pub tags: Vec<String>,
}

/// The settings of the service.
#[derive(Debug, PartialEq, Eq)]
pub struct Settings {
    /// Where the store is reached.
    pub database_url: String,
    /// The pause between two polling cycles.
    pub ingest_interval: Duration,
    /// The address on which metrics and health are served.
    pub server_bind: String,
    /// The feeds to poll.
    pub feeds: Vec<Feed>,
}

/// `humantime::DurationError`, the error of `humantime::parse_duration`,
/// of which nothing is read but its text.
#[verifier::external_type_specification]
#[verifier::external_body]
pub struct ExDurationError(humantime::DurationError);

/// What `humantime::parse_duration` makes of the text: the duration it
/// spells as spans such as `30m` or `1h 15min`, or `None` where it spells
/// none.
pub uninterp spec fn parsed_duration(s: Seq<char>) -> Option<Duration>;

/// The most decimal digits that a text may hold to be parsed as a duration.
pub const MAX_DURATION_DIGITS: usize = 11;

/// Whether the byte is an ASCII decimal digit.
pub open spec fn is_digit(b: u8) -> bool {
    0x30 <= b <= 0x39
}

/// The number of ASCII decimal digits among the bytes.
pub open spec fn digit_count(bytes: Seq<u8>) -> nat
    decreases bytes.len(),
{
    if bytes.len() == 0 {
        0
    } else {
        digit_count(bytes.drop_last()) + if is_digit(bytes.last()) {
            1nat
        } else {
            0nat
        }
    }
}

/// Whether the text holds few enough digits to be parsed as a duration.
pub open spec fn parseable_length(s: Seq<char>) -> bool {
    digit_count(encode_utf8(s)) <= MAX_DURATION_DIGITS
}

/// `humantime::parse_duration`. It adds the spans up with checked
/// arithmetic and answers an overflow with an error, but it builds each sum
/// with `Duration::new`, which panics where the seconds are at `u64::MAX` and
/// a second is carried. A text of at most eleven digits spells less than
/// 10^11 of the longest unit, the year of 31 557 600 seconds, and so stays
/// far below that.
#[verifier::external_body]
fn parse_duration(s: &str) -> (r: Result<Duration, humantime::DurationError>)
    requires
        parseable_length(s@),
    ensures
        match r {
            Ok(d) => parsed_duration(s@) == Some(d),
            Err(_) => parsed_duration(s@) is None,
        },
{
    humantime::parse_duration(s)
}

/// The `Display` text of a `humantime::DurationError`. Nothing is claimed of
/// it.
#[verifier::external_body]
fn duration_error_text(e: &humantime::DurationError) -> String {
    e.to_string()
}

/// Counts the ASCII decimal digits among the bytes.
fn count_digits(bytes: &[u8]) -> (n: usize)
    ensures
        n == digit_count(bytes@),
{
    let mut n: usize = 0;
    let mut i: usize = 0;
    while i < bytes.len()
        invariant
            i <= bytes.len(),
            n <= i,
            n == digit_count(bytes@.take(i as int)),
        decreases bytes.len() - i,
    {
        let b = bytes[i];
        proof {
            assert(bytes@.take(i + 1).drop_last() == bytes@.take(i as int));
        }
        if 0x30 <= b && b <= 0x39 {
            n = n + 1;
        }
        i = i + 1;
    }
    proof {
        assert(bytes@.take(i as int) == bytes@);
    }
    n
}

/// The duration that a text spells, where it holds at most
/// `MAX_DURATION_DIGITS` digits and spells one.
pub open spec fn interval_of(s: Seq<char>) -> Option<Duration> {
    if parseable_length(s) {
        parsed_duration(s)
    } else {
        None
    }
}

/// Reads a duration such as `30m` or `1h 15min`. A text with more than
/// `MAX_DURATION_DIGITS` digits is refused unread.
pub fn parse_interval(s: &str) -> (r: Result<Duration, IngestError>)
    ensures
        match r {
            Ok(d) => interval_of(s@) == Some(d),
            Err(e) => interval_of(s@) is None && e is Config,
        },
{
    if count_digits(s.as_bytes()) > MAX_DURATION_DIGITS {
        return Err(IngestError::Config("duration holds too many digits".to_owned()));
    }
    match parse_duration(s) {
        Ok(d) => Ok(d),
        Err(e) => Err(IngestError::Config(duration_error_text(&e))),
    }
}

/// A text, or its replacement where there is one.
pub open spec fn replaced(current: Seq<char>, replacement: Option<Seq<char>>) -> Seq<char> {
    match replacement {
        Some(r) => r,
        None => current,
    }
}

/// Whether the override for the interval, if there is one, can be applied.
pub open spec fn interval_override_ok(ingest_interval: Option<Seq<char>>) -> bool {
    ingest_interval is Some ==> interval_of(ingest_interval->0) is Some
}

/// Puts overrides over the settings: each that is there replaces its
/// setting, and the feeds are kept.
pub fn with_overrides(
    settings: Settings,
    database_url: Option<String>,
    ingest_interval: Option<Duration>,
    server_bind: Option<String>,
) -> (s: Settings)
    ensures
        s.database_url@ == replaced(settings.database_url@, opt_text(database_url)),
        s.server_bind@ == replaced(settings.server_bind@, opt_text(server_bind)),
        s.feeds == settings.feeds,
        s.ingest_interval == match ingest_interval {
            Some(d) => d,
            None => settings.ingest_interval,
        },
{
    let mut settings = settings;
    if let Some(url) = database_url {
        settings.database_url = url;
    }
    if let Some(d) = ingest_interval {
        settings.ingest_interval = d;
    }
    if let Some(bind) = server_bind {
        settings.server_bind = bind;
    }
    settings
}

/// Puts the overrides that the environment holds over the settings read
/// from the file. Each of the three is optional; the feeds are never
/// overridden. The interval's override must spell a duration: where it does
/// not, nothing is applied and the error says why.
pub fn apply_overrides(
    settings: Settings,
    database_url: Option<String>,
    ingest_interval: Option<String>,
    server_bind: Option<String>,
) -> (r: Result<Settings, IngestError>)
    ensures
        r is Ok <==> interval_override_ok(opt_text(ingest_interval)),
        r matches Ok(s) ==> {
            &&& s.database_url@ == replaced(settings.database_url@, opt_text(database_url))
            &&& s.server_bind@ == replaced(settings.server_bind@, opt_text(server_bind))
            &&& s.feeds == settings.feeds
            &&& s.ingest_interval == match ingest_interval {
                Some(text) => interval_of(text@)->0,
                None => settings.ingest_interval,
            }
        },
        r matches Err(e) ==> e is Config,
{
    let interval = match ingest_interval {
        Some(text) => match parse_interval(text.as_str()) {
            Ok(d) => Some(d),
            Err(e) => {
                return Err(e);
            },
        },
        None => None,
    };
    Ok(with_overrides(settings, database_url, interval, server_bind))
}

} // verus!
