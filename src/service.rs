//! Dispatch of one search to the adapter of its provider.
use vstd::prelude::*;
use crate::record::{TorrentRecord, RecordView, ProviderError, outcome_view, is_identifiable};
use crate::matching::{
    MovieListing, search_yts, listing_query, spaces_to_plus, matched_records, first_match,
    first_match_from, lemma_listing_records_identifiable,
};
use crate::free_text::{FreeTextEntry, search_leetx, entry_records};

verus! {

/// The shape of a provider, which selects its adapter.
#[derive(Clone, Copy, Debug, PartialEq, Eq, Structural)]
pub enum ProviderKind {
    /// Lists movies, to be matched exactly against a content code.
    IdentifierMatching,
    /// Lists torrents directly, ranked by the provider.
    FreeText,
}

/// A provider's answer, in the shape of its kind.
#[derive(Clone, Debug)]
pub enum RawResponse {
    Listings(Vec<MovieListing>),
    Entries(Vec<FreeTextEntry>),
}

/// The query string that a provider of kind `kind` is sent for `term`.
pub open spec fn query_of(kind: ProviderKind, term: Seq<char>) -> Seq<char> {
    match kind {
        ProviderKind::IdentifierMatching => spaces_to_plus(term),
        ProviderKind::FreeText => term,
    }
}

/// The outcome of a search for `term` given the provider's answer, or the
/// detail of its transport failure.
pub open spec fn search_outcome(term: Seq<char>, raw: Result<RawResponse, String>) -> Result<
    Seq<RecordView>,
    Seq<char>,
> {
    match raw {
        Err(d) => Err(d@),
        Ok(RawResponse::Listings(listings)) => Ok(matched_records(listings@, term)),
        Ok(RawResponse::Entries(entries)) => Ok(entry_records(entries@)),
    }
}

/// The query string to send to a provider of kind `kind` for `term`.
pub fn upstream_query(kind: ProviderKind, term: &String) -> (r: String)
    ensures
        r@ == query_of(kind, term@),
{
    match kind {
        ProviderKind::IdentifierMatching => listing_query(term),
        ProviderKind::FreeText => term.clone(),
    }
}

/// Turns one provider's answer to a search for `term` into records. Each
/// call depends on its own answer alone; a transport failure is passed on
/// unchanged and is never retried here.
pub fn search(term: &String, raw: Result<RawResponse, String>) -> (r: Result<
    Vec<TorrentRecord>,
    ProviderError,
>)
    ensures
        outcome_view(r) == search_outcome(term@, raw),
        r matches Ok(rs) ==> forall|k: int| 0 <= k < rs@.len() ==> is_identifiable(#[trigger] rs@[k]@),
{
    match raw {
        Err(d) => Err(ProviderError::Upstream(d)),
        Ok(RawResponse::Listings(listings)) => search_yts(term, Ok(listings)),
        Ok(RawResponse::Entries(entries)) => search_leetx(Ok(entries)),
    }
}

/// Every record that a search hands to its caller is identified by a
/// non-empty identifier or a non-empty display name, whatever the answer.
pub proof fn lemma_search_records_identifiable(term: Seq<char>, raw: Result<RawResponse, String>)
    ensures
        search_outcome(term, raw) matches Ok(rs) ==> forall|k: int|
            0 <= k < rs.len() ==> is_identifiable(#[trigger] rs[k]),
{
    broadcast use vstd::seq_lib::group_seq_properties;

    match raw {
        Ok(RawResponse::Listings(listings)) => {
            if let Some(i) = first_match(listings@, term) {
                lemma_first_match_in_range(listings@, term, 0);
                lemma_listing_records_identifiable(listings@[i]);
            }
        },
        _ => {},
    }
}

/// A match lies within the listings.
proof fn lemma_first_match_in_range(listings: Seq<MovieListing>, term: Seq<char>, from: int)
    ensures
        first_match_from(listings, term, from) matches Some(i) ==> from <= i < listings.len(),
    decreases listings.len() - from,
{
    if 0 <= from < listings.len() && listings[from].imdb_code@ != term {
        lemma_first_match_in_range(listings, term, from + 1);
    }
}

/// Searches of two providers for one term do not affect each other: a
/// transport failure of the first is reported for the first alone, with its
/// detail unchanged, and the second's outcome is a success exactly when its
/// own provider answered, whatever happened to the first.
pub proof fn lemma_outcomes_independent(
    term: Seq<char>,
    first: Result<RawResponse, String>,
    second: Result<RawResponse, String>,
)
    ensures
        first matches Err(d) ==> search_outcome(term, first) == Err::<Seq<RecordView>, Seq<char>>(
            d@,
        ),
        search_outcome(term, second) is Ok <==> second is Ok,
        second matches Ok(RawResponse::Listings(l)) ==> search_outcome(term, second) == Ok::<
            Seq<RecordView>,
            Seq<char>,
        >(matched_records(l@, term)),
        second matches Ok(RawResponse::Entries(es)) ==> search_outcome(term, second) == Ok::<
            Seq<RecordView>,
            Seq<char>,
        >(entry_records(es@)),
{
}

} // verus!
