//! Absolute URLs, and resolving an entry's link against its feed's URL.

use crate::text::opt_text;
use vstd::prelude::*;

verus! {

/// Whether `url::Url::parse` accepts the text, which it does for absolute
/// URLs only.
pub uninterp spec fn url_parses(s: Seq<char>) -> bool;

/// The text of the URL that `url::Url::join` gives for `reference` on the
/// URL parsed from `base`; `None` where `base` does not parse or the join
/// fails.
pub uninterp spec fn url_joined(base: Seq<char>, reference: Seq<char>) -> Option<Seq<char>>;

/// `url::Url::parse`: whether the text parses as an absolute URL. The parsed
/// value is dropped.
#[verifier::external_body]
pub(crate) fn parse_url(s: &str) -> (ok: bool)
    ensures
        ok == url_parses(s@),
{
    url::Url::parse(s).is_ok()
}

/// `url::Url::join`, on the URL that `url::Url::parse` makes of `base`: the
/// joined URL as text, or `None` where either step fails.
#[verifier::external_body]
fn join_url(base: &str, reference: &str) -> (joined: Option<String>)
    ensures
        opt_text(joined) == url_joined(base@, reference@),
{
    match url::Url::parse(base) {
        Ok(b) => match b.join(reference) {
            Ok(u) => Some(u.to_string()),
            Err(_) => None,
        },
        Err(_) => None,
    }
}

/// The link that is kept for an entry: the raw link where it is an absolute
/// URL; else the raw link joined to the feed's URL; the raw link again where
/// that fails too.
pub open spec fn chosen_link(raw: Seq<char>, raw_parses: bool, joined: Option<Seq<char>>) -> Seq<
    char,
> {
    if raw_parses {
        raw
    } else {
        match joined {
            Some(u) => u,
            None => raw,
        }
    }
}

/// The link of an entry after resolution against the feed's URL.
pub open spec fn resolved_link(raw: Seq<char>, base: Seq<char>) -> Seq<char> {
    chosen_link(raw, url_parses(raw), url_joined(base, raw))
}

/// Picks the link to keep, given whether the raw link is an absolute URL and
/// what joining it to the feed's URL gave.
pub fn choose_link(raw: &str, raw_parses: bool, joined: Option<String>) -> (link: String)
    ensures
        link@ == chosen_link(raw@, raw_parses, opt_text(joined)),
{
    if raw_parses {
        raw.to_owned()
    } else {
        match joined {
            Some(u) => u,
            None => raw.to_owned(),
        }
    }
}

/// Resolves an entry's raw link against the URL of its feed. Never fails: a
/// link that cannot be resolved is kept as it is.
pub fn resolve_link(raw: &str, base: &str) -> (link: String)
    ensures
        link@ == resolved_link(raw@, base@),
        url_parses(raw@) ==> link@ == raw@,
{
    if parse_url(raw) {
        choose_link(raw, true, None)
    } else {
        let joined = join_url(base, raw);
        choose_link(raw, false, joined)
    }
}

} // verus!
