//! The adapter for providers whose listings are movies, each with several
//! torrent variants, and whose results must match a content code exactly.
use vstd::prelude::*;
use crate::record::{TorrentRecord, RecordView, ProviderError, records_view, outcome_view, is_identifiable};
use crate::fields::{resolve_leecher_count, leecher_count_of};

verus! {

/// One torrent of a movie listing.
#[derive(Clone, Debug)]
pub struct TorrentVariant {
    pub hash: String,
    /// Quality label such as `1080p`.
    pub quality: String,
    pub seeds: u32,
    /// Total peers, seeders included.
    pub peers: u32,
}

/// A movie as an identifier-matching provider lists it.
#[derive(Clone, Debug)]
pub struct MovieListing {
    /// Canonical content code, such as `tt1375666`.
    pub imdb_code: String,
    pub title: String,
    pub year: u32,
    pub torrents: Vec<TorrentVariant>,
}

/// Replaces each space of a search term by `+`.
pub open spec fn spaces_to_plus(s: Seq<char>) -> Seq<char> {
    s.map_values(|c: char| if c == ' ' { '+' } else { c })
}

/// Relies on `str::replace`, which replaces every match of the pattern:
/// with a one-character pattern and replacement, character by character.
#[verifier::external_body]
fn replace_spaces(s: &str) -> (r: String)
    ensures
        r@ == spaces_to_plus(s@),
{
    s.replace(" ", "+")
}

/// The query string sent upstream for `term`.
pub fn listing_query(term: &String) -> (r: String)
    ensures
        r@ == spaces_to_plus(term@),
{
    replace_spaces(term.as_str())
}

/// The index of the first listing at or after `i` whose code is `term`.
pub open spec fn first_match_from(listings: Seq<MovieListing>, term: Seq<char>, i: int) -> Option<
    int,
>
    decreases listings.len() - i,
{
    if i < 0 || i >= listings.len() {
        None
    } else if listings[i].imdb_code@ == term {
        Some(i)
    } else {
        first_match_from(listings, term, i + 1)
    }
}

/// The index of the first listing whose code is exactly `term`.
pub open spec fn first_match(listings: Seq<MovieListing>, term: Seq<char>) -> Option<int> {
    first_match_from(listings, term, 0)
}

/// The record for one variant of the movie titled `title`.
pub open spec fn variant_record(title: Seq<char>, v: TorrentVariant) -> RecordView {
    RecordView {
        identifier: v.hash@,
        display_name: title + seq![' '] + v.quality@,
        seeder_count: v.seeds as nat,
        leecher_count: leecher_count_of(v.seeds, Some(v.peers)),
    }
}

/// The records of every variant of a listing, in order.
pub open spec fn listing_records(m: MovieListing) -> Seq<RecordView> {
    m.torrents@.map_values(|v: TorrentVariant| variant_record(m.title@, v))
}

/// The records for `term`: those of the first listing whose code is `term`,
/// or none.
pub open spec fn matched_records(listings: Seq<MovieListing>, term: Seq<char>) -> Seq<RecordView> {
    match first_match(listings, term) {
        Some(i) => listing_records(listings[i]),
        None => Seq::empty(),
    }
}

/// The outcome of a search for `term` given an identifier-matching
/// provider's answer.
pub open spec fn yts_outcome(term: Seq<char>, response: Result<Vec<MovieListing>, String>) -> Result<
    Seq<RecordView>,
    Seq<char>,
> {
    match response {
        Ok(listings) => Ok(matched_records(listings@, term)),
        Err(d) => Err(d@),
    }
}

/// Finds the first listing whose code equals `term`, case-sensitively.
pub fn find_listing(listings: &Vec<MovieListing>, term: &String) -> (r: Option<usize>)
    ensures
        r matches Some(i) ==> i < listings@.len() && first_match(listings@, term@) == Some(i as int),
        r is None ==> first_match(listings@, term@) is None,
{
    let mut i: usize = 0;
    while i < listings.len()
        invariant
            i <= listings@.len(),
            first_match(listings@, term@) == first_match_from(listings@, term@, i as int),
        decreases listings.len() - i,
    {
        if listings[i].imdb_code == *term {
            return Some(i);
        }
        i = i + 1;
    }
    None
}

/// The record for one variant of the movie titled `title`.
pub fn variant_to_record(title: &String, v: &TorrentVariant) -> (r: TorrentRecord)
    ensures
        r@ == variant_record(title@, *v),
{
    let mut display_name = title.clone();
    display_name.append(" ");
    display_name.append(v.quality.as_str());
    proof {
        reveal_strlit(" ");
        assert(display_name@ =~= title@ + seq![' '] + v.quality@);
    }
    TorrentRecord {
        identifier: v.hash.clone(),
        display_name,
        seeder_count: v.seeds,
        leecher_count: resolve_leecher_count(v.seeds, Some(v.peers)),
    }
}

/// One record per torrent variant of a listing, in order.
pub fn listing_to_records(m: &MovieListing) -> (r: Vec<TorrentRecord>)
    ensures
        records_view(r@) == listing_records(*m),
{
    let mut out: Vec<TorrentRecord> = Vec::new();
    let mut i: usize = 0;
    while i < m.torrents.len()
        invariant
            i <= m.torrents@.len(),
            out@.len() == i,
            records_view(out@) =~= listing_records(*m).take(i as int),
        decreases m.torrents.len() - i,
    {
        let rec = variant_to_record(&m.title, &m.torrents[i]);
        let ghost before = out@;
        out.push(rec);
        proof {
            assert forall|k: int| 0 <= k < out@.len() implies #[trigger] records_view(out@)[k]
                == listing_records(*m).take(i + 1)[k] by {
                if k < i {
                    assert(out@[k] == before[k]);
                    assert(records_view(before)[k] == listing_records(*m).take(i as int)[k]);
                }
            }
        }
        i = i + 1;
    }
    assert(listing_records(*m).take(i as int) =~= listing_records(*m));
    out
}

/// Every record of a listing has a non-empty display name.
pub proof fn lemma_listing_records_identifiable(m: MovieListing)
    ensures
        forall|k: int|
            0 <= k < listing_records(m).len() ==> #[trigger] listing_records(m)[k].display_name.len()
                > 0,
{
}

/// Searches an identifier-matching provider's answer for `term`. A transport
/// failure is passed on; no listing with code `term` is an empty success.
pub fn search_yts(term: &String, response: Result<Vec<MovieListing>, String>) -> (r: Result<
    Vec<TorrentRecord>,
    ProviderError,
>)
    ensures
        outcome_view(r) == yts_outcome(term@, response),
        r matches Ok(rs) ==> forall|k: int| 0 <= k < rs@.len() ==> is_identifiable(#[trigger] rs@[k]@),
{
    match response {
        Err(d) => Err(ProviderError::Upstream(d)),
        Ok(listings) => {
            match find_listing(&listings, term) {
                Some(i) => {
                    let rs = listing_to_records(&listings[i]);
                    proof {
                        lemma_listing_records_identifiable(listings@[i as int]);
                        assert forall|k: int| 0 <= k < rs@.len() implies is_identifiable(
                            #[trigger] rs@[k]@,
                        ) by {
                            assert(rs@[k]@ == records_view(rs@)[k]);
                        }
                    }
                    Ok(rs)
                },
                None => {
                    let rs: Vec<TorrentRecord> = Vec::new();
                    assert(records_view(rs@) =~= Seq::empty());
                    Ok(rs)
                },
            }
        },
    }
}

} // verus!
