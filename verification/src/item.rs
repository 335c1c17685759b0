//! The canonical record of one feed entry, and the parsed feed it is made
//! from.

use crate::text::{clone_opt_text, clone_texts, opt_text, texts};
use crate::time::Timestamp;
use vstd::prelude::*;

verus! {

/// One entry of a parsed feed, as the feed gave it.
#[derive(Debug, PartialEq, Eq)]
pub struct Entry {
    /// The entry's stable identifier.
    pub id: String,
    pub title: Option<String>,
    /// The targets of the entry's links, in the feed's order.
    pub links: Vec<String>,
    /// The full article body.
    pub content: Option<String>,
    /// The teaser.
    pub summary: Option<String>,
    /// The authors' names, in the feed's order.
    pub authors: Vec<String>,
    /// The terms of the entry's categories.
    pub categories: Vec<String>,
    pub published: Option<Timestamp>,
    pub updated: Option<Timestamp>,
}

/// A parsed feed: its own metadata and its entries in order.
#[derive(Debug, PartialEq, Eq)]
pub struct FeedDocument {
    pub title: Option<String>,
    pub description: Option<String>,
    pub language: Option<String>,
    pub icon: Option<String>,
    pub updated: Option<Timestamp>,
    pub entries: Vec<Entry>,
}

/// All that is stored of one entry: its own fields and those of the feed it
/// came from.
#[derive(Debug, PartialEq, Eq)]
pub struct FeedItem {
    pub id: u128,
    pub guid: String,
    pub title: String,
    pub link: String,
    pub published: Option<Timestamp>,
    pub content: Option<String>,
    pub summary: Option<String>,
    pub author: Option<String>,
    pub categories: Option<Vec<String>>,
    pub entry_updated: Option<Timestamp>,
    pub feed_url: String,
    pub feed_title: Option<String>,
    pub feed_description: Option<String>,
    pub feed_language: Option<String>,
    pub feed_icon: Option<String>,
    pub feed_updated: Option<Timestamp>,
    pub inserted_at: Timestamp,
}

/// A `FeedItem` as a mathematical value.
pub struct FeedItemView {
    pub id: u128,
    pub guid: Seq<char>,
    pub title: Seq<char>,
    pub link: Seq<char>,
    pub published: Option<Timestamp>,
    pub content: Option<Seq<char>>,
    pub summary: Option<Seq<char>>,
    pub author: Option<Seq<char>>,
    pub categories: Option<Seq<Seq<char>>>,
    pub entry_updated: Option<Timestamp>,
    pub feed_url: Seq<char>,
    pub feed_title: Option<Seq<char>>,
    pub feed_description: Option<Seq<char>>,
    pub feed_language: Option<Seq<char>>,
    pub feed_icon: Option<Seq<char>>,
    pub feed_updated: Option<Timestamp>,
    pub inserted_at: Timestamp,
}

/// The character sequences of an optional list of texts.
pub open spec fn opt_texts(v: Option<Vec<String>>) -> Option<Seq<Seq<char>>> {
    match v {
        Some(list) => Some(texts(list@)),
        None => None,
    }
}

impl View for FeedItem {
    type V = FeedItemView;

    open spec fn view(&self) -> FeedItemView {
        FeedItemView {
            id: self.id,
            guid: self.guid@,
            title: self.title@,
            link: self.link@,
            published: self.published,
            content: opt_text(self.content),
            summary: opt_text(self.summary),
            author: opt_text(self.author),
            categories: opt_texts(self.categories),
            entry_updated: self.entry_updated,
            feed_url: self.feed_url@,
            feed_title: opt_text(self.feed_title),
            feed_description: opt_text(self.feed_description),
            feed_language: opt_text(self.feed_language),
            feed_icon: opt_text(self.feed_icon),
            feed_updated: self.feed_updated,
            inserted_at: self.inserted_at,
        }
    }
}

impl Clone for FeedItem {
    fn clone(&self) -> (r: FeedItem)
        ensures
            r@ == self@,
    {
        FeedItem {
            id: self.id,
            guid: self.guid.clone(),
            title: self.title.clone(),
            link: self.link.clone(),
            published: self.published,
            content: clone_opt_text(&self.content),
            summary: clone_opt_text(&self.summary),
            author: clone_opt_text(&self.author),
            categories: match &self.categories {
                Some(list) => Some(clone_texts(list)),
                None => None,
            },
            entry_updated: self.entry_updated,
            feed_url: self.feed_url.clone(),
            feed_title: clone_opt_text(&self.feed_title),
            feed_description: clone_opt_text(&self.feed_description),
            feed_language: clone_opt_text(&self.feed_language),
            feed_icon: clone_opt_text(&self.feed_icon),
            feed_updated: self.feed_updated,
            inserted_at: self.inserted_at,
        }
    }
}

} // verus!
