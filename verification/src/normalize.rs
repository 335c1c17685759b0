//! From a feed's entry to the record that is stored of it.

use crate::item::{Entry, FeedDocument, FeedItem, FeedItemView};
use crate::links::{resolve_link, resolved_link};
use crate::text::{clone_opt_text, clone_texts, opt_text, texts};
use crate::time::{utc_now, Timestamp};
use vstd::prelude::*;

verus! {

/// The target of the first link, or the empty text where there is no link.
pub open spec fn first_link(links: Seq<String>) -> Seq<char> {
    if links.len() > 0 {
        links[0]@
    } else {
        Seq::empty()
    }
}

/// The content of an entry: its full body where it has one that is not
/// empty, else its summary, else nothing.
pub open spec fn selected_content(body: Option<String>, summary: Option<String>) -> Option<
    Seq<char>,
> {
    if body is Some && body->0@.len() > 0 {
        Some(body->0@)
    } else {
        opt_text(summary)
    }
}

/// The name of the first author, if there is one.
pub open spec fn first_author(authors: Seq<String>) -> Option<Seq<char>> {
    if authors.len() > 0 {
        Some(authors[0]@)
    } else {
        None
    }
}

/// The categories of an entry, absent where it has none.
pub open spec fn listed_categories(categories: Seq<String>) -> Option<Seq<Seq<char>>> {
    if categories.len() > 0 {
        Some(texts(categories))
    } else {
        None
    }
}

/// The record of `entry`, given the link that was resolved for it, its new
/// identifier and the time of the reading.
pub open spec fn normalized(
    entry: Entry,
    feed: FeedDocument,
    feed_url: Seq<char>,
    link: Seq<char>,
    id: u128,
    now: Timestamp,
) -> FeedItemView {
    FeedItemView {
        id,
        guid: entry.id@,
        title: match entry.title {
            Some(t) => t@,
            None => Seq::empty(),
        },
        link,
        published: entry.published,
        content: selected_content(entry.content, entry.summary),
        summary: opt_text(entry.summary),
        author: first_author(entry.authors@),
        categories: listed_categories(entry.categories@),
        entry_updated: entry.updated,
        feed_url,
        feed_title: opt_text(feed.title),
        feed_description: opt_text(feed.description),
        feed_language: opt_text(feed.language),
        feed_icon: opt_text(feed.icon),
        feed_updated: feed.updated,
        inserted_at: now,
    }
}

/// `uuid::Uuid::new_v4`: a random identifier, as the number that
/// `Uuid::as_u128` gives. Nothing is claimed of the value. The call fails
/// only where the operating system hands out no random bytes.
#[verifier::external_body]
fn random_id() -> u128 {
    uuid::Uuid::new_v4().as_u128()
}

/// The target of the entry's first link, or the empty text.
pub fn raw_link(entry: &Entry) -> (raw: String)
    ensures
        raw@ == first_link(entry.links@),
{
    if entry.links.len() > 0 {
        entry.links[0].clone()
    } else {
        String::new()
    }
}

/// Picks the content of an entry: the full body before the summary.
pub fn select_content(body: &Option<String>, summary: &Option<String>) -> (content: Option<
    String,
>)
    ensures
        opt_text(content) == selected_content(*body, *summary),
{
    match body {
        Some(b) => {
            if b.as_str().is_empty() {
                clone_opt_text(summary)
            } else {
                Some(b.clone())
            }
        },
        None => clone_opt_text(summary),
    }
}

/// Builds the record of `entry` from the feed it came from, the link
/// resolved for it, an identifier and the time of the reading. Never fails:
/// what is missing or malformed in the entry is missing or malformed in the
/// record.
pub fn assemble_feed_item(
    entry: &Entry,
    feed: &FeedDocument,
    feed_url: &str,
    link: String,
    id: u128,
    now: Timestamp,
) -> (item: FeedItem)
    ensures
        item@ == normalized(*entry, *feed, feed_url@, link@, id, now),
{
    let title = match &entry.title {
        Some(t) => t.clone(),
        None => String::new(),
    };
    let author = if entry.authors.len() > 0 {
        Some(entry.authors[0].clone())
    } else {
        None
    };
    let categories = if entry.categories.len() > 0 {
        Some(clone_texts(&entry.categories))
    } else {
        None
    };
    FeedItem {
        id,
        guid: entry.id.clone(),
        title,
        link,
        published: entry.published,
        content: select_content(&entry.content, &entry.summary),
        summary: clone_opt_text(&entry.summary),
        author,
        categories,
        entry_updated: entry.updated,
        feed_url: feed_url.to_owned(),
        feed_title: clone_opt_text(&feed.title),
        feed_description: clone_opt_text(&feed.description),
        feed_language: clone_opt_text(&feed.language),
        feed_icon: clone_opt_text(&feed.icon),
        feed_updated: feed.updated,
        inserted_at: now,
    }
}

/// Maps an entry and the feed it came from to the record that is stored of
/// it. The link is the entry's first link, resolved against the feed's URL;
/// the identifier is new and the time of insertion is the clock's reading.
pub fn entry_to_feed_item(entry: &Entry, feed: &FeedDocument, feed_url: &str) -> (item: FeedItem)
    ensures
        item@ == normalized(
            *entry,
            *feed,
            feed_url@,
            resolved_link(first_link(entry.links@), feed_url@),
            item.id,
            item.inserted_at,
        ),
{
    let raw = raw_link(entry);
    let link = resolve_link(raw.as_str(), feed_url);
    let id = random_id();
    let now = utc_now();
    assemble_feed_item(entry, feed, feed_url, link, id, now)
}

} // verus!
