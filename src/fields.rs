//! Derivation of peer counts that providers report inconsistently.
use vstd::prelude::*;

verus! {

/// The leecher count that stands for "not knowable from this source".
pub const UNKNOWN_LEECHERS: i64 = -1;

/// The leecher count given seeders and, when the source has it, the total
/// peer count: `peers - seeders`, negative when the source undercounts peers.
pub open spec fn leecher_count_of(seeders: u32, peers: Option<u32>) -> int {
    match peers {
        Some(p) => p - seeders,
        None => -1,
    }
}

/// Resolves the leecher count of a torrent from its seeders and total peers.
/// The difference is not clamped.
pub fn resolve_leecher_count(seeders: u32, peers: Option<u32>) -> (r: i64)
    ensures
        r == leecher_count_of(seeders, peers),
        forall|p: u32| peers == Some(p) ==> r == p - seeders,
        peers is None ==> r == -1,
{
    match peers {
        Some(p) => p as i64 - seeders as i64,
        None => UNKNOWN_LEECHERS,
    }
}

} // verus!
