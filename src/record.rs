//! The unified torrent record and the error a provider search can end in.
use vstd::prelude::*;

verus! {

/// One downloadable torrent, in the shape shared by every provider.
#[derive(Clone, Debug, PartialEq, Eq)]
pub struct TorrentRecord {
    /// Content hash or magnet URI; empty when the provider gave none.
    pub identifier: String,
    /// Human-readable label.
    pub display_name: String,
    /// Peers holding the complete content.
    pub seeder_count: u32,
    /// Peers downloading; `-1` when the source cannot tell.
    pub leecher_count: i64,
}

/// The mathematical value of a [`TorrentRecord`].
pub ghost struct RecordView {
    pub identifier: Seq<char>,
    pub display_name: Seq<char>,
    pub seeder_count: nat,
    pub leecher_count: int,
}

impl View for TorrentRecord {
    type V = RecordView;

    open spec fn view(&self) -> RecordView {
        RecordView {
            identifier: self.identifier@,
            display_name: self.display_name@,
            seeder_count: self.seeder_count as nat,
            leecher_count: self.leecher_count as int,
        }
    }
}

/// A record reaches a caller only if something identifies it.
pub open spec fn is_identifiable(r: RecordView) -> bool {
    r.identifier.len() > 0 || r.display_name.len() > 0
}

/// The views of a sequence of records.
pub open spec fn records_view(rs: Seq<TorrentRecord>) -> Seq<RecordView> {
    rs.map_values(|r: TorrentRecord| r@)
}

/// Why a provider search produced no records.
#[derive(Clone, Debug, PartialEq, Eq)]
pub enum ProviderError {
    /// The provider could not be reached or its answer could not be read;
    /// the detail is passed on unchanged.
    Upstream(String),
}

/// The outcome of a search, as records or as the upstream failure detail.
pub open spec fn outcome_view(r: Result<Vec<TorrentRecord>, ProviderError>) -> Result<
    Seq<RecordView>,
    Seq<char>,
> {
    match r {
        Ok(rs) => Ok(records_view(rs@)),
        Err(ProviderError::Upstream(d)) => Err(d@),
    }
}

} // verus!
