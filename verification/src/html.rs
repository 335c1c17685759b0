//! Stripping unsafe markup from text.

use crate::text::{is_blank, non_blank, opt_text};
use vstd::prelude::*;

verus! {

/// What `ammonia::clean` makes of the text: the HTML it holds, without
/// scripts, styles, comments and the tags and attributes that ammonia's
/// default settings do not allow.
pub uninterp spec fn cleaned(src: Seq<char>) -> Seq<char>;

/// `ammonia::clean`: the text sanitised with ammonia's default settings.
#[verifier::external_body]
pub(crate) fn clean(src: &str) -> (out: String)
    ensures
        out@ == cleaned(src@),
{
    ammonia::clean(src)
}

/// What is left of a page for an entry: the sanitised page, unless that is
/// blank.
pub open spec fn usable_page(page: Seq<char>) -> Option<Seq<char>> {
    if is_blank(cleaned(page)) {
        None
    } else {
        Some(cleaned(page))
    }
}

/// Sanitises a fetched page. A page of which nothing but whitespace is left
/// counts as no page.
pub fn clean_page(page: &str) -> (text: Option<String>)
    ensures
        opt_text(text) == usable_page(page@),
{
    non_blank(clean(page))
}

} // verus!
