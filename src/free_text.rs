//! The adapter for providers that rank their own results and list each
//! torrent as an independent entry.
use vstd::prelude::*;
use crate::record::{TorrentRecord, RecordView, ProviderError, records_view, outcome_view, is_identifiable};
use crate::fields::UNKNOWN_LEECHERS;

verus! {

broadcast use vstd::seq_lib::group_seq_properties;

/// One result of a free-text provider; each count or link may be missing.
#[derive(Clone, Debug)]
pub struct FreeTextEntry {
    pub name: String,
    pub seeders: Option<u32>,
    pub leechers: Option<u32>,
    pub magnet: Option<String>,
}

/// The record for one entry, before the check that something identifies it:
/// a missing magnet gives an empty identifier, missing seeders `0`, missing
/// leechers the unknown sentinel.
pub open spec fn entry_record(e: FreeTextEntry) -> RecordView {
    RecordView {
        identifier: match e.magnet {
            Some(m) => m@,
            None => Seq::empty(),
        },
        display_name: e.name@,
        seeder_count: match e.seeders {
            Some(s) => s as nat,
            None => 0,
        },
        leecher_count: match e.leechers {
            Some(l) => l as int,
            None => -1,
        },
    }
}

/// The records of the entries in order, without those that nothing identifies.
pub open spec fn entry_records(entries: Seq<FreeTextEntry>) -> Seq<RecordView> {
    entries.map_values(|e: FreeTextEntry| entry_record(e)).filter(|r: RecordView| is_identifiable(r))
}

/// The outcome of a search given a free-text provider's answer.
pub open spec fn free_text_outcome(response: Result<Vec<FreeTextEntry>, String>) -> Result<
    Seq<RecordView>,
    Seq<char>,
> {
    match response {
        Ok(entries) => Ok(entry_records(entries@)),
        Err(d) => Err(d@),
    }
}

/// The record for one entry.
pub fn entry_to_record(e: &FreeTextEntry) -> (r: TorrentRecord)
    ensures
        r@ == entry_record(*e),
{
    let identifier = match &e.magnet {
        Some(m) => m.clone(),
        None => String::new(),
    };
    let seeder_count: u32 = match e.seeders {
        Some(s) => s,
        None => 0,
    };
    let leecher_count: i64 = match e.leechers {
        Some(l) => l as i64,
        None => UNKNOWN_LEECHERS,
    };
    TorrentRecord { identifier, display_name: e.name.clone(), seeder_count, leecher_count }
}

/// Maps every entry to a record, in order, dropping those with neither an
/// identifier nor a name.
pub fn entries_to_records(entries: &Vec<FreeTextEntry>) -> (r: Vec<TorrentRecord>)
    ensures
        records_view(r@) == entry_records(entries@),
        forall|k: int| 0 <= k < r@.len() ==> is_identifiable(#[trigger] r@[k]@),
{
    let mut out: Vec<TorrentRecord> = Vec::new();
    let mut i: usize = 0;
    proof {
        reveal(Seq::filter);
        assert(entries@.take(0).map_values(|e: FreeTextEntry| entry_record(e)) =~= Seq::empty());
    }
    while i < entries.len()
        invariant
            i <= entries@.len(),
            records_view(out@) == entry_records(entries@.take(i as int)),
            forall|k: int| 0 <= k < out@.len() ==> is_identifiable(#[trigger] out@[k]@),
        decreases entries.len() - i,
    {
        let rec = entry_to_record(&entries[i]);
        let ghost before = out@;
        proof {
            let mapped = entries@.take(i as int).map_values(|e: FreeTextEntry| entry_record(e));
            assert(entries@.take(i + 1).map_values(|e: FreeTextEntry| entry_record(e)) =~= mapped.push(
                rec@,
            ));
            mapped.lemma_filter_push(rec@, |r: RecordView| is_identifiable(r));
        }
        if !rec.identifier.as_str().is_empty() || !rec.display_name.as_str().is_empty() {
            out.push(rec);
            proof {
                assert(records_view(out@) =~= records_view(before).push(rec@));
            }
        }
        i = i + 1;
    }
    assert(entries@.take(i as int) =~= entries@);
    out
}

/// Turns a free-text provider's answer into records. A transport failure is
/// passed on; no entries is an empty success.
pub fn search_leetx(response: Result<Vec<FreeTextEntry>, String>) -> (r: Result<
    Vec<TorrentRecord>,
    ProviderError,
>)
    ensures
        outcome_view(r) == free_text_outcome(response),
        r matches Ok(rs) ==> forall|k: int| 0 <= k < rs@.len() ==> is_identifiable(#[trigger] rs@[k]@),
{
    match response {
        Err(d) => Err(ProviderError::Upstream(d)),
        Ok(entries) => Ok(entries_to_records(&entries)),
    }
}

} // verus!
