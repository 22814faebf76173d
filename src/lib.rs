//! Normalization of torrent listings from structurally different providers
//! into one record shape, with explicit policies for missing peer counts.
use vstd::prelude::*;

pub mod record;
pub mod fields;
pub mod matching;
pub mod free_text;
pub mod service;

pub use record::{TorrentRecord, ProviderError};
pub use fields::{resolve_leecher_count, UNKNOWN_LEECHERS};
pub use matching::{TorrentVariant, MovieListing, search_yts, listing_query, find_listing};
pub use free_text::{FreeTextEntry, search_leetx, entry_to_record};
pub use service::{ProviderKind, RawResponse, search, upstream_query};
