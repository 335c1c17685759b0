//! The rules an entry's record must meet, and the sanitising of one that
//! meets them.

use crate::html::{clean, cleaned};
use crate::item::{FeedItem, FeedItemView};
use crate::links::{parse_url, url_parses};
use crate::text::{char_count, opt_text, trim, trimmed};
use vstd::prelude::*;

verus! {

/// The most characters a trimmed title may have.
pub const MAX_TITLE_CHARS: usize = 1024;

/// The most characters a trimmed summary may have.
pub const MAX_SUMMARY_CHARS: usize = 200_000;

/// The most characters a trimmed content may have.
pub const MAX_CONTENT_CHARS: usize = 500_000;

/// The rule that a rejected record broke.
#[derive(Clone, Copy, Debug, PartialEq, Eq, Structural)]
pub enum ValidationError {
    /// The trimmed title is empty or too long.
    Title,
    /// The trimmed summary is too long.
    SummaryTooLong,
    /// The trimmed content is too long.
    ContentTooLong,
    /// The link is no absolute URL.
    Link,
}

/// The first rule that is broken by a record whose trimmed fields have these
/// lengths and whose link is or is not an absolute URL. The rules are taken
/// in the order title, summary, content, link.
pub open spec fn broken_rule(
    title_len: int,
    summary_len: Option<int>,
    content_len: Option<int>,
    link_ok: bool,
) -> Option<ValidationError> {
    if title_len == 0 || title_len > MAX_TITLE_CHARS {
        Some(ValidationError::Title)
    } else if summary_len is Some && summary_len->0 > MAX_SUMMARY_CHARS {
        Some(ValidationError::SummaryTooLong)
    } else if content_len is Some && content_len->0 > MAX_CONTENT_CHARS {
        Some(ValidationError::ContentTooLong)
    } else if !link_ok {
        Some(ValidationError::Link)
    } else {
        None
    }
}

/// The number of characters of an optional text once it is trimmed.
pub open spec fn trimmed_len(s: Option<Seq<char>>) -> Option<int> {
    match s {
        Some(t) => Some(trimmed(t).len() as int),
        None => None,
    }
}

/// The rule for which a record is rejected, or `None` where it is valid.
/// Lengths are those of the raw fields, trimmed but not yet sanitised.
pub open spec fn rejection(item: FeedItemView) -> Option<ValidationError> {
    broken_rule(
        trimmed(item.title).len() as int,
        trimmed_len(item.summary),
        trimmed_len(item.content),
        url_parses(item.link),
    )
}

/// An optional text, trimmed and sanitised.
pub open spec fn cleaned_opt(s: Option<Seq<char>>) -> Option<Seq<char>> {
    match s {
        Some(t) => Some(cleaned(trimmed(t))),
        None => None,
    }
}

/// The record with its title, summary and content trimmed and sanitised,
/// and nothing else changed.
pub open spec fn sanitized(item: FeedItemView) -> FeedItemView {
    FeedItemView {
        title: cleaned(trimmed(item.title)),
        summary: cleaned_opt(item.summary),
        content: cleaned_opt(item.content),
        ..item
    }
}

/// The integer in an optional length.
pub open spec fn opt_int(n: Option<usize>) -> Option<int> {
    match n {
        Some(k) => Some(k as int),
        None => None,
    }
}

/// Checks the lengths of the trimmed fields and the link's verdict against
/// the rules, and names the first rule that is broken.
pub fn check_fields(
    title_len: usize,
    summary_len: Option<usize>,
    content_len: Option<usize>,
    link_ok: bool,
) -> (r: Result<(), ValidationError>)
    ensures
        r == match broken_rule(title_len as int, opt_int(summary_len), opt_int(content_len), link_ok) {
            Some(e) => Err::<(), ValidationError>(e),
            None => Ok(()),
        },
{
    if title_len == 0 || title_len > MAX_TITLE_CHARS {
        return Err(ValidationError::Title);
    }
    if let Some(n) = summary_len {
        if n > MAX_SUMMARY_CHARS {
            return Err(ValidationError::SummaryTooLong);
        }
    }
    if let Some(n) = content_len {
        if n > MAX_CONTENT_CHARS {
            return Err(ValidationError::ContentTooLong);
        }
    }
    if !link_ok {
        return Err(ValidationError::Link);
    }
    Ok(())
}

/// The number of characters of an optional text once it is trimmed.
fn trimmed_count(s: &Option<String>) -> (n: Option<usize>)
    ensures
        opt_int(n) == trimmed_len(opt_text(*s)),
{
    match s {
        Some(t) => Some(char_count(trim(t.as_str()))),
        None => None,
    }
}

/// Holds a record against the rules: `Ok` where it meets them all, else the
/// first rule that it breaks.
pub fn validate(item: &FeedItem) -> (r: Result<(), ValidationError>)
    ensures
        r == match rejection(item@) {
            Some(e) => Err::<(), ValidationError>(e),
            None => Ok(()),
        },
{
    let title_len = char_count(trim(item.title.as_str()));
    let summary_len = trimmed_count(&item.summary);
    let content_len = trimmed_count(&item.content);
    let link_ok = parse_url(item.link.as_str());
    check_fields(title_len, summary_len, content_len, link_ok)
}

/// An optional text, trimmed and sanitised.
fn clean_opt(s: &Option<String>) -> (r: Option<String>)
    ensures
        opt_text(r) == cleaned_opt(opt_text(*s)),
{
    match s {
        Some(t) => Some(clean(trim(t.as_str()))),
        None => None,
    }
}

/// The record with the given title, summary and content in place of its own.
pub fn with_text(
    item: &FeedItem,
    title: String,
    summary: Option<String>,
    content: Option<String>,
) -> (r: FeedItem)
    ensures
        r@ == (FeedItemView {
            title: title@,
            summary: opt_text(summary),
            content: opt_text(content),
            ..item@
        }),
{
    let mut r = item.clone();
    r.title = title;
    r.summary = summary;
    r.content = content;
    r
}

/// Trims and sanitises the title, summary and content of a record. The
/// other fields are kept.
pub fn sanitize(item: &FeedItem) -> (r: FeedItem)
    ensures
        r@ == sanitized(item@),
{
    let title = clean(trim(item.title.as_str()));
    let summary = clean_opt(&item.summary);
    let content = clean_opt(&item.content);
    with_text(item, title, summary, content)
}

/// Validates a record and, where it is valid, sanitises it. A record is
/// rejected exactly when it breaks a rule; the lengths are checked before
/// anything is sanitised.
pub fn sanitize_and_validate(item: &FeedItem) -> (r: Option<FeedItem>)
    ensures
        rejection(item@) is Some ==> r is None,
        rejection(item@) is None ==> r is Some && r->0@ == sanitized(item@),
{
    match validate(item) {
        Ok(()) => Some(sanitize(item)),
        Err(_) => None,
    }
}

} // verus!
