use attractive::{
    entry_to_record, find_listing, listing_query, resolve_leecher_count, search, search_leetx,
    search_yts, upstream_query, FreeTextEntry, MovieListing, ProviderError, ProviderKind,
    RawResponse, TorrentRecord, TorrentVariant, UNKNOWN_LEECHERS,
};

fn variant(hash: &str, quality: &str, seeds: u32, peers: u32) -> TorrentVariant {
    TorrentVariant {
        hash: hash.to_string(),
        quality: quality.to_string(),
        seeds,
        peers,
    }
}

fn listing(code: &str, title: &str, torrents: Vec<TorrentVariant>) -> MovieListing {
    MovieListing {
        imdb_code: code.to_string(),
        title: title.to_string(),
        year: 2010,
        torrents,
    }
}

fn entry(name: &str, seeders: Option<u32>, leechers: Option<u32>, magnet: Option<&str>) -> FreeTextEntry {
    FreeTextEntry {
        name: name.to_string(),
        seeders,
        leechers,
        magnet: magnet.map(|m| m.to_string()),
    }
}

fn two_listings() -> Vec<MovieListing> {
    vec![
        listing("tt1", "Alpha", vec![variant("AAA", "720p", 3, 10)]),
        listing(
            "tt2",
            "Beta",
            vec![variant("B1", "1080p", 7, 9), variant("B2", "2160p", 4, 1)],
        ),
    ]
}

#[test]
fn leecher_count_is_peers_minus_seeders() {
    assert_eq!(resolve_leecher_count(5, Some(12)), 7);
    assert_eq!(resolve_leecher_count(0, Some(0)), 0);
    assert_eq!(resolve_leecher_count(u32::MAX, Some(u32::MAX)), 0);
}

#[test]
fn leecher_count_negative_when_peers_undercount() {
    assert_eq!(resolve_leecher_count(9, Some(4)), -5);
    assert_eq!(resolve_leecher_count(u32::MAX, Some(0)), -(u32::MAX as i64));
    assert_eq!(resolve_leecher_count(0, Some(u32::MAX)), u32::MAX as i64);
}

#[test]
fn leecher_count_unknown_without_peers() {
    assert_eq!(resolve_leecher_count(0, None), -1);
    assert_eq!(resolve_leecher_count(42, None), -1);
    assert_eq!(resolve_leecher_count(u32::MAX, None), UNKNOWN_LEECHERS);
}

#[test]
fn identifier_match_returns_only_matching_listing() {
    let term = "tt2".to_string();
    let records = search_yts(&term, Ok(two_listings())).unwrap();
    assert_eq!(
        records,
        vec![
            TorrentRecord {
                identifier: "B1".to_string(),
                display_name: "Beta 1080p".to_string(),
                seeder_count: 7,
                leecher_count: 2,
            },
            TorrentRecord {
                identifier: "B2".to_string(),
                display_name: "Beta 2160p".to_string(),
                seeder_count: 4,
                leecher_count: -3,
            },
        ]
    );
}

#[test]
fn identifier_without_match_is_empty_success() {
    let term = "tt9".to_string();
    assert_eq!(search_yts(&term, Ok(two_listings())), Ok(vec![]));
}

#[test]
fn identifier_match_is_exact_and_case_sensitive() {
    let listings = two_listings();
    assert_eq!(find_listing(&listings, &"TT2".to_string()), None);
    assert_eq!(find_listing(&listings, &"tt".to_string()), None);
    assert_eq!(find_listing(&listings, &"tt2 ".to_string()), None);
    assert_eq!(find_listing(&listings, &"tt1".to_string()), Some(0));
}

#[test]
fn identifier_match_takes_first_of_duplicates() {
    let listings = vec![
        listing("tt5", "Early", vec![variant("E", "480p", 1, 1)]),
        listing("tt5", "Late", vec![variant("L", "480p", 1, 1)]),
    ];
    assert_eq!(find_listing(&listings, &"tt5".to_string()), Some(0));
    let records = search_yts(&"tt5".to_string(), Ok(listings)).unwrap();
    assert_eq!(records.len(), 1);
    assert_eq!(records[0].identifier, "E");
    assert_eq!(records[0].display_name, "Early 480p");
}

#[test]
fn identifier_match_without_variants_is_empty() {
    let listings = vec![listing("tt3", "Gamma", vec![])];
    assert_eq!(search_yts(&"tt3".to_string(), Ok(listings)), Ok(vec![]));
}

#[test]
fn identifier_upstream_failure_is_passed_on() {
    let r = search_yts(&"tt2".to_string(), Err("timed out".to_string()));
    assert_eq!(r, Err(ProviderError::Upstream("timed out".to_string())));
}

#[test]
fn listing_query_replaces_spaces() {
    assert_eq!(listing_query(&"the big lebowski".to_string()), "the+big+lebowski");
    assert_eq!(listing_query(&"tt0118715".to_string()), "tt0118715");
    assert_eq!(listing_query(&"".to_string()), "");
    assert_eq!(listing_query(&"  a".to_string()), "++a");
}

#[test]
fn upstream_query_by_kind() {
    let term = "debian iso".to_string();
    assert_eq!(upstream_query(ProviderKind::IdentifierMatching, &term), "debian+iso");
    assert_eq!(upstream_query(ProviderKind::FreeText, &term), "debian iso");
}

#[test]
fn free_text_entry_with_nothing_identifying_is_dropped() {
    let r = search_leetx(Ok(vec![entry("", None, None, None)]));
    assert_eq!(r, Ok(vec![]));
}

#[test]
fn free_text_entry_with_name_only_is_kept() {
    let r = search_leetx(Ok(vec![entry("X", None, None, None)])).unwrap();
    assert_eq!(
        r,
        vec![TorrentRecord {
            identifier: "".to_string(),
            display_name: "X".to_string(),
            seeder_count: 0,
            leecher_count: -1,
        }]
    );
}

#[test]
fn free_text_entry_missing_leechers() {
    let r = search_leetx(Ok(vec![entry("X", Some(5), None, Some("m1"))])).unwrap();
    assert_eq!(
        r,
        vec![TorrentRecord {
            identifier: "m1".to_string(),
            display_name: "X".to_string(),
            seeder_count: 5,
            leecher_count: -1,
        }]
    );
}

#[test]
fn free_text_reported_leechers_are_kept() {
    let rec = entry_to_record(&entry("Y", Some(2), Some(11), Some("magnet:?xt=urn:btih:ab")));
    assert_eq!(rec.identifier, "magnet:?xt=urn:btih:ab");
    assert_eq!(rec.display_name, "Y");
    assert_eq!(rec.seeder_count, 2);
    assert_eq!(rec.leecher_count, 11);
}

#[test]
fn free_text_magnet_only_is_kept_and_order_preserved() {
    let r = search_leetx(Ok(vec![
        entry("", None, None, Some("m0")),
        entry("", Some(1), Some(1), None),
        entry("second", Some(3), Some(0), None),
    ]))
    .unwrap();
    assert_eq!(r.len(), 2);
    assert_eq!(r[0].identifier, "m0");
    assert_eq!(r[0].display_name, "");
    assert_eq!(r[1].display_name, "second");
    assert_eq!(r[1].leecher_count, 0);
}

#[test]
fn free_text_no_entries_is_empty_success() {
    assert_eq!(search_leetx(Ok(vec![])), Ok(vec![]));
}

#[test]
fn free_text_upstream_failure_is_passed_on() {
    let r = search_leetx(Err("Search too short".to_string()));
    assert_eq!(r, Err(ProviderError::Upstream("Search too short".to_string())));
}

#[test]
fn search_dispatches_by_response_shape() {
    let term = "tt1".to_string();
    let r = search(&term, Ok(RawResponse::Listings(two_listings()))).unwrap();
    assert_eq!(r.len(), 1);
    assert_eq!(r[0].display_name, "Alpha 720p");
    assert_eq!(r[0].leecher_count, 7);
    let r = search(&term, Ok(RawResponse::Entries(vec![entry("tt1 rip", Some(1), None, None)]))).unwrap();
    assert_eq!(r.len(), 1);
    assert_eq!(r[0].display_name, "tt1 rip");
}

#[test]
fn failure_of_one_provider_leaves_the_other() {
    let term = "tt2".to_string();
    let failed = search(&term, Err("connection reset".to_string()));
    let other = search(&term, Ok(RawResponse::Listings(two_listings())));
    assert_eq!(failed, Err(ProviderError::Upstream("connection reset".to_string())));
    assert_eq!(other.unwrap().len(), 2);
}

#[test]
fn every_emitted_record_is_identifiable() {
    let term = "tt2".to_string();
    let mut all = search(&term, Ok(RawResponse::Listings(two_listings()))).unwrap();
    all.extend(
        search(
            &term,
            Ok(RawResponse::Entries(vec![
                entry("", None, None, None),
                entry("a", None, None, None),
                entry("", None, None, Some("m")),
            ])),
        )
        .unwrap(),
    );
    assert_eq!(all.len(), 4);
    for r in &all {
        assert!(!r.identifier.is_empty() || !r.display_name.is_empty());
    }
}
