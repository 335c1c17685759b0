//! Feed ingestion core: normalising feed entries, validating and sanitising
//! them, deciding when an entry's live page is fetched, and writing the
//! result to the archive and the current view.

pub mod browser;
pub mod config;
pub mod cycle;
pub mod errors;
pub mod gate;
pub mod guarantees;
pub mod html;
pub mod ingest;
pub mod item;
pub mod links;
pub mod normalize;
pub mod pipeline;
pub mod store;
pub mod text;
pub mod time;
pub mod validate;
