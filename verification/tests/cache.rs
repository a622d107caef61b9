use aws_ip_ranges::{
    fetch_aws_ranges, freshness_tag, ip_match, populate, AWSIpRanges, AWSResponse, Address, CacheSlot,
    Ipv4Prefix, Ipv6Prefix, ParseError, PopulateError,
};
use std::cell::Cell;
use std::sync::Arc;

fn published(v4_cidrs: &[&str], v6_cidrs: &[&str]) -> AWSIpRanges {
    AWSIpRanges {
        prefixes: v4_cidrs
            .iter()
            .map(|c| Ipv4Prefix::new(c.to_string(), "us-east-1".to_owned(), "EC2".to_owned(), "us-east-1".to_owned()))
            .collect(),
        ipv6_prefixes: v6_cidrs
            .iter()
            .map(|c| Ipv6Prefix::new(c.to_string(), "ap-east-1".to_owned(), "AMAZON".to_owned(), "ap-east-1".to_owned()))
            .collect(),
    }
}

fn good() -> Result<(AWSIpRanges, Option<String>), String> {
    Ok((published(&["52.0.0.0/15"], &["2406:da60:c000::/40"]), Some("HIT".to_owned())))
}

fn matches_52_1_1_1(response: &AWSResponse) -> usize {
    ip_match(&response.ranges, &Address::V4(0x3401_0101)).len()
}

#[test]
fn first_fetch_populates_and_later_fetches_are_served_locally() {
    let mut cache = CacheSlot::new();
    let calls = Cell::new(0);
    let (first, first_local) = fetch_aws_ranges(&mut cache, || {
        calls.set(calls.get() + 1);
        good()
    })
    .unwrap();
    assert!(!first_local);
    assert_eq!(calls.get(), 1);
    assert_eq!(first.cf_cache_status, "HIT");
    assert_eq!(matches_52_1_1_1(&first), 1);

    for _ in 0..3 {
        let (later, later_local) = fetch_aws_ranges(&mut cache, || {
            calls.set(calls.get() + 1);
            Ok::<_, String>((published(&["10.0.0.0/8"], &[]), Some("MISS".to_owned())))
        })
        .unwrap();
        assert!(later_local);
        assert!(Arc::ptr_eq(&first, &later));
        assert_eq!(later.cf_cache_status, "HIT");
    }
    assert_eq!(calls.get(), 1);
}

#[test]
fn a_populated_slot_never_asks_its_loader() {
    let mut cache = CacheSlot::new();
    fetch_aws_ranges(&mut cache, good).unwrap();
    let asked = Cell::new(false);
    let result = fetch_aws_ranges(&mut cache, || {
        asked.set(true);
        Err::<(AWSIpRanges, Option<String>), String>("down".to_owned())
    });
    assert!(!asked.get());
    let (response, is_local) = result.unwrap();
    assert!(is_local);
    assert_eq!(response.ranges.prefixes[0].ip_prefix, "52.0.0.0/15");
}

#[test]
fn a_failed_loader_leaves_the_slot_empty() {
    let mut cache = CacheSlot::new();
    let result = fetch_aws_ranges(&mut cache, || Err::<(AWSIpRanges, Option<String>), String>("down".to_owned()));
    match result {
        Err(PopulateError::Fetch(e)) => assert_eq!(e, "down"),
        other => panic!("unexpected: {:?}", other),
    }
    assert!(cache.lookup().is_none());

    let calls = Cell::new(0);
    let (response, is_local) = fetch_aws_ranges(&mut cache, || {
        calls.set(calls.get() + 1);
        good()
    })
    .unwrap();
    assert_eq!(calls.get(), 1);
    assert!(!is_local);
    assert!(Arc::ptr_eq(&response, &cache.lookup().unwrap()));
}

#[test]
fn a_malformed_prefix_leaves_the_slot_empty() {
    let mut cache = CacheSlot::new();
    let result = fetch_aws_ranges(&mut cache, || {
        Ok::<_, String>((published(&["52.0.0.0/15", "52.0.0.0/150"], &["::/0"]), Some("HIT".to_owned())))
    });
    match result {
        Err(PopulateError::Parse(e)) => assert_eq!(e, ParseError::Ipv4Prefix(1)),
        other => panic!("unexpected: {:?}", other),
    }
    assert!(cache.lookup().is_none());

    let result = fetch_aws_ranges(&mut cache, || {
        Ok::<_, String>((published(&["52.0.0.0/15"], &["::/0", "::/129"]), None))
    });
    match result {
        Err(PopulateError::Parse(e)) => assert_eq!(e, ParseError::Ipv6Prefix(1)),
        other => panic!("unexpected: {:?}", other),
    }
    assert!(cache.lookup().is_none());

    let (_, is_local) = fetch_aws_ranges(&mut cache, good).unwrap();
    assert!(!is_local);
}

#[test]
fn a_missing_freshness_tag_is_unknown() {
    let mut cache = CacheSlot::new();
    let (response, is_local) =
        fetch_aws_ranges(&mut cache, || Ok::<_, String>((published(&["52.0.0.0/15"], &[]), None))).unwrap();
    assert!(!is_local);
    assert_eq!(response.cf_cache_status, "UNKNOWN");
    assert_eq!(freshness_tag(None), "UNKNOWN");
    assert_eq!(freshness_tag(Some("HIT".to_owned())), "HIT");
    assert_eq!(freshness_tag(Some("".to_owned())), "");
    assert_eq!(freshness_tag(Some("EXPIRED".to_owned())), "EXPIRED");
}

#[test]
fn new_slot_is_empty_and_store_replaces() {
    let mut cache = CacheSlot::new();
    assert!(cache.lookup().is_none());
    let one = Arc::new(populate(good()).unwrap());
    cache.store(Arc::clone(&one));
    assert!(Arc::ptr_eq(&cache.lookup().unwrap(), &one));
    assert!(Arc::ptr_eq(&cache.lookup().unwrap(), &one));
    let two = Arc::new(populate(good()).unwrap());
    cache.store(Arc::clone(&two));
    assert!(Arc::ptr_eq(&cache.lookup().unwrap(), &two));
    assert!(!Arc::ptr_eq(&cache.lookup().unwrap(), &one));
    let (served, is_local) = fetch_aws_ranges(&mut cache, good).unwrap();
    assert!(is_local);
    assert!(Arc::ptr_eq(&served, &two));
}

#[test]
fn slots_are_independent() {
    let mut one = CacheSlot::new();
    let mut other = CacheSlot::new();
    let (_, local) = fetch_aws_ranges(&mut one, good).unwrap();
    assert!(!local);
    assert!(other.lookup().is_none());
    let (_, local) = fetch_aws_ranges(&mut other, good).unwrap();
    assert!(!local);
    let (_, local) = fetch_aws_ranges(&mut one, good).unwrap();
    assert!(local);
}

#[test]
fn populate_computes_or_passes_the_error_on() {
    let response = populate(good()).unwrap();
    assert_eq!(response.cf_cache_status, "HIT");
    assert_eq!(matches_52_1_1_1(&response), 1);
    assert_eq!(ip_match(&response.ranges, &Address::V4(0x0808_0808)).len(), 0);

    let response = populate(Ok::<_, String>((published(&[], &[]), None))).unwrap();
    assert_eq!(response.cf_cache_status, "UNKNOWN");

    match populate(Err::<(AWSIpRanges, Option<String>), u16>(503)) {
        Err(PopulateError::Fetch(e)) => assert_eq!(e, 503),
        other => panic!("unexpected: {:?}", other),
    }
    match populate(Ok::<_, u16>((published(&["nonsense"], &[]), None))) {
        Err(PopulateError::Parse(e)) => assert_eq!(e, ParseError::Ipv4Prefix(0)),
        other => panic!("unexpected: {:?}", other),
    }
}
