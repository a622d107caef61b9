//! Matching an address against the published prefixes.

use vstd::prelude::*;
use crate::dataset::calculated;
use crate::model::{
    APIMatch, AWSIpRanges, AWSResponse, Address, Ipv4Prefix, Ipv6Prefix, MatchView, match_views,
};
use crate::net::{
    ipv4_block_contains, ipv4_net_of_text, ipv4_range_contains, ipv6_block_contains,
    ipv6_net_of_text, ipv6_range_contains,
};

verus! {

/// The test that a lookup of the IPv4 address `ip` puts to each entry.
pub open spec fn ipv4_covering(ip: u32) -> spec_fn(Ipv4Prefix) -> bool {
    |e: Ipv4Prefix| e.covers(ip)
}

/// The test that a lookup of the IPv6 address `ip` puts to each entry.
pub open spec fn ipv6_covering(ip: u128) -> spec_fn(Ipv6Prefix) -> bool {
    |e: Ipv6Prefix| e.covers(ip)
}

/// What a lookup of the IPv4 address `ip` reports: the entries whose range
/// index covers it, in the order of `entries`, none merged and none left out.
pub open spec fn ipv4_matches(entries: Seq<Ipv4Prefix>, ip: u32) -> Seq<MatchView> {
    entries.filter(ipv4_covering(ip)).map_values(|e: Ipv4Prefix| e.projection())
}

/// What a lookup of the IPv6 address `ip` reports: the entries whose range
/// index covers it, in the order of `entries`, none merged and none left out.
pub open spec fn ipv6_matches(entries: Seq<Ipv6Prefix>, ip: u128) -> Seq<MatchView> {
    entries.filter(ipv6_covering(ip)).map_values(|e: Ipv6Prefix| e.projection())
}

/// What a lookup of `address` reports. Only the entries of the address's own
/// family are asked.
pub open spec fn ip_matches(ranges: AWSIpRanges, address: Address) -> Seq<MatchView> {
    match address {
        Address::V4(ip) => ipv4_matches(ranges.prefixes@, ip),
        Address::V6(ip) => ipv6_matches(ranges.ipv6_prefixes@, ip),
    }
}

/// The published prefixes that cover `ip_address`, in the order in which
/// they were published.
pub fn ip_match<'a>(aws_ranges: &'a AWSIpRanges, ip_address: &Address) -> (matches: Vec<APIMatch<'a>>)
    ensures
        match_views(matches@) == ip_matches(*aws_ranges, *ip_address),
{
    match ip_address {
        Address::V4(ipv4) => ipv4_match(aws_ranges.prefixes.as_slice(), *ipv4),
        Address::V6(ipv6) => ipv6_match(aws_ranges.ipv6_prefixes.as_slice(), *ipv6),
    }
}

/// The IPv4 prefixes that cover `ip_address`, in the order of `aws_ranges`.
pub fn ipv4_match<'a>(aws_ranges: &'a [Ipv4Prefix], ip_address: u32) -> (matches: Vec<APIMatch<'a>>)
    ensures
        match_views(matches@) == ipv4_matches(aws_ranges@, ip_address),
{
    let mut matches: Vec<APIMatch<'a>> = Vec::new();
    let mut i: usize = 0;
    while i < aws_ranges.len()
        invariant
            i <= aws_ranges@.len(),
            match_views(matches@) == ipv4_matches(aws_ranges@.take(i as int), ip_address),
        decreases aws_ranges@.len() - i,
    {
        let entry = &aws_ranges[i];
        proof {
            let seen = aws_ranges@.take(i as int);
            seen.lemma_filter_push(*entry, ipv4_covering(ip_address));
            assert(seen.push(*entry) == aws_ranges@.take(i + 1));
            let kept = seen.filter(ipv4_covering(ip_address));
            assert(kept.push(*entry).map_values(|e: Ipv4Prefix| e.projection()) == kept.map_values(
                |e: Ipv4Prefix| e.projection(),
            ).push(entry.projection()));
        }
        let ghost before = matches@;
        if ipv4_range_contains(&entry.ipv4_prefix_compute, ip_address) {
            matches.push(
                APIMatch {
                    ip_prefix: entry.ip_prefix.as_str(),
                    region: entry.region.as_str(),
                    service: entry.service.as_str(),
                    network_border_group: entry.network_border_group.as_str(),
                },
            );
            assert(match_views(matches@) == match_views(before).push(matches@.last()@));
        }
        i += 1;
    }
    assert(aws_ranges@.take(i as int) == aws_ranges@);
    matches
}

/// The IPv6 prefixes that cover `ip_address`, in the order of `aws_ranges`.
pub fn ipv6_match<'a>(aws_ranges: &'a [Ipv6Prefix], ip_address: u128) -> (matches: Vec<APIMatch<'a>>)
    ensures
        match_views(matches@) == ipv6_matches(aws_ranges@, ip_address),
{
    let mut matches: Vec<APIMatch<'a>> = Vec::new();
    let mut i: usize = 0;
    while i < aws_ranges.len()
        invariant
            i <= aws_ranges@.len(),
            match_views(matches@) == ipv6_matches(aws_ranges@.take(i as int), ip_address),
        decreases aws_ranges@.len() - i,
    {
        let entry = &aws_ranges[i];
        proof {
            let seen = aws_ranges@.take(i as int);
            seen.lemma_filter_push(*entry, ipv6_covering(ip_address));
            assert(seen.push(*entry) == aws_ranges@.take(i + 1));
            let kept = seen.filter(ipv6_covering(ip_address));
            assert(kept.push(*entry).map_values(|e: Ipv6Prefix| e.projection()) == kept.map_values(
                |e: Ipv6Prefix| e.projection(),
            ).push(entry.projection()));
        }
        let ghost before = matches@;
        if ipv6_range_contains(&entry.ipv6_prefix_compute, ip_address) {
            matches.push(
                APIMatch {
                    ip_prefix: entry.ipv6_prefix.as_str(),
                    region: entry.region.as_str(),
                    service: entry.service.as_str(),
                    network_border_group: entry.network_border_group.as_str(),
                },
            );
            assert(match_views(matches@) == match_views(before).push(matches@.last()@));
        }
        i += 1;
    }
    assert(aws_ranges@.take(i as int) == aws_ranges@);
    matches
}

/// Whether the network that the entry's CIDR text names contains `ip`.
pub open spec fn ipv4_text_covers(entry: Ipv4Prefix, ip: u32) -> bool {
    match ipv4_net_of_text(entry.ip_prefix@) {
        Some(net) => ipv4_block_contains(net.0, net.1, ip),
        None => false,
    }
}

/// Whether the network that the entry's CIDR text names contains `ip`.
pub open spec fn ipv6_text_covers(entry: Ipv6Prefix, ip: u128) -> bool {
    match ipv6_net_of_text(entry.ipv6_prefix@) {
        Some(net) => ipv6_block_contains(net.0, net.1, ip),
        None => false,
    }
}

/// The entries whose CIDR text names a network that contains `address`, of
/// the address's own family and in published order.
pub open spec fn matches_by_text(ranges: AWSIpRanges, address: Address) -> Seq<MatchView> {
    match address {
        Address::V4(ip) => ranges.prefixes@.filter(|e: Ipv4Prefix| ipv4_text_covers(e, ip)).map_values(
            |e: Ipv4Prefix| e.projection(),
        ),
        Address::V6(ip) => ranges.ipv6_prefixes@.filter(
            |e: Ipv6Prefix| ipv6_text_covers(e, ip),
        ).map_values(|e: Ipv6Prefix| e.projection()),
    }
}

/// No entry of the address's own family covers `address`.
pub open spec fn uncovered(ranges: AWSIpRanges, address: Address) -> bool {
    match address {
        Address::V4(ip) => forall|i: int|
            0 <= i < ranges.prefixes@.len() ==> !(#[trigger] ranges.prefixes@[i]).covers(ip),
        Address::V6(ip) => forall|i: int|
            0 <= i < ranges.ipv6_prefixes@.len() ==> !(#[trigger] ranges.ipv6_prefixes@[i]).covers(ip),
    }
}

/// Two tests that agree on every element keep the same elements.
proof fn lemma_filter_agree<A>(s: Seq<A>, p: spec_fn(A) -> bool, q: spec_fn(A) -> bool)
    requires
        forall|i: int| 0 <= i < s.len() ==> p(#[trigger] s[i]) == q(s[i]),
    ensures
        s.filter(p) == s.filter(q),
    decreases s.len(),
{
    reveal(Seq::filter);
    if s.len() > 0 {
        assert forall|i: int| 0 <= i < s.drop_last().len() implies p(#[trigger] s.drop_last()[i]) == q(
            s.drop_last()[i],
        ) by {
            assert(s.drop_last()[i] == s[i]);
        }
        lemma_filter_agree(s.drop_last(), p, q);
        assert(s.last() == s[s.len() - 1]);
    }
}

/// A test that no element passes keeps nothing, and a test that keeps
/// nothing is passed by no element.
proof fn lemma_filter_empty<A>(s: Seq<A>, p: spec_fn(A) -> bool)
    ensures
        s.filter(p).len() == 0 <==> forall|i: int| 0 <= i < s.len() ==> !p(#[trigger] s[i]),
    decreases s.len(),
{
    reveal(Seq::filter);
    if s.len() > 0 {
        lemma_filter_empty(s.drop_last(), p);
        assert(s.last() == s[s.len() - 1]);
        if s.filter(p).len() == 0 {
            assert forall|i: int| 0 <= i < s.len() implies !p(#[trigger] s[i]) by {
                if i < s.len() - 1 {
                    assert(s.drop_last()[i] == s[i]);
                }
            }
        }
        if forall|i: int| 0 <= i < s.len() ==> !p(#[trigger] s[i]) {
            assert forall|i: int| 0 <= i < s.drop_last().len() implies !p(
                #[trigger] s.drop_last()[i],
            ) by {
                assert(s.drop_last()[i] == s[i]);
            }
        }
    }
}

/// Match completeness: on a dataset whose range indexes were computed, a
/// lookup reports exactly the entries whose CIDR text names a network that
/// contains the address, each once and in published order.
pub proof fn lemma_matches_are_the_containing_networks(ranges: AWSIpRanges, address: Address)
    requires
        ranges.is_computed(),
    ensures
        ip_matches(ranges, address) == matches_by_text(ranges, address),
{
    match address {
        Address::V4(ip) => {
            let entries = ranges.prefixes@;
            assert forall|i: int| 0 <= i < entries.len() implies ipv4_covering(ip)(
                #[trigger] entries[i],
            ) == ipv4_text_covers(entries[i], ip) by {
                assert(entries[i].is_computed());
            }
            lemma_filter_agree(entries, ipv4_covering(ip), |e: Ipv4Prefix| ipv4_text_covers(e, ip));
        },
        Address::V6(ip) => {
            let entries = ranges.ipv6_prefixes@;
            assert forall|i: int| 0 <= i < entries.len() implies ipv6_covering(ip)(
                #[trigger] entries[i],
            ) == ipv6_text_covers(entries[i], ip) by {
                assert(entries[i].is_computed());
            }
            lemma_filter_agree(entries, ipv6_covering(ip), |e: Ipv6Prefix| ipv6_text_covers(e, ip));
        },
    }
}

/// Sequences that agree, place by place, on what passes the test and on
/// what is reported of it, report the same.
proof fn lemma_filter_map_agree<A, B>(
    s: Seq<A>,
    t: Seq<A>,
    p: spec_fn(A) -> bool,
    q: spec_fn(A) -> bool,
    f: spec_fn(A) -> B,
)
    requires
        s.len() == t.len(),
        forall|i: int| 0 <= i < s.len() ==> p(#[trigger] s[i]) == q(t[i]) && f(s[i]) == f(t[i]),
    ensures
        s.filter(p).map_values(f) == t.filter(q).map_values(f),
    decreases s.len(),
{
    reveal(Seq::filter);
    if s.len() > 0 {
        let (s0, t0) = (s.drop_last(), t.drop_last());
        assert forall|i: int| 0 <= i < s0.len() implies p(#[trigger] s0[i]) == q(t0[i]) && f(s0[i])
            == f(t0[i]) by {
            assert(s0[i] == s[i] && t0[i] == t[i]);
        }
        lemma_filter_map_agree(s0, t0, p, q, f);
        assert(s.last() == s[s.len() - 1] && t.last() == t[t.len() - 1]);
        assert(p(s[s.len() - 1]) == q(t[t.len() - 1]));
        assert(s0.filter(p).push(s.last()).map_values(f) == s0.filter(p).map_values(f).push(
            f(s.last()),
        ));
        assert(t0.filter(q).push(t.last()).map_values(f) == t0.filter(q).map_values(f).push(
            f(t.last()),
        ));
    }
}

/// From the feed to the answer: on the dataset computed from the published
/// prefixes, a lookup reports exactly the published entries whose CIDR text
/// names a network that contains the address, each once and in published
/// order.
pub proof fn lemma_lookup_reports_the_published_networks(
    published: AWSIpRanges,
    cf_cache_status: Seq<char>,
    response: AWSResponse,
    address: Address,
)
    requires
        calculated(published, cf_cache_status, Ok(response)),
    ensures
        ip_matches(response.ranges, address) == matches_by_text(published, address),
{
    lemma_matches_are_the_containing_networks(response.ranges, address);
    match address {
        Address::V4(ip) => {
            let (s, t) = (response.ranges.prefixes@, published.prefixes@);
            let p = |e: Ipv4Prefix| ipv4_text_covers(e, ip);
            assert forall|i: int| 0 <= i < s.len() implies p(#[trigger] s[i]) == p(t[i]) && s[i].projection()
                == t[i].projection() by {
                assert(s[i].projection() == t[i].projection());
                assert(s[i].ip_prefix@ == s[i].projection().ip_prefix);
                assert(t[i].ip_prefix@ == t[i].projection().ip_prefix);
            }
            lemma_filter_map_agree(s, t, p, p, |e: Ipv4Prefix| e.projection());
        },
        Address::V6(ip) => {
            let (s, t) = (response.ranges.ipv6_prefixes@, published.ipv6_prefixes@);
            let p = |e: Ipv6Prefix| ipv6_text_covers(e, ip);
            assert forall|i: int| 0 <= i < s.len() implies p(#[trigger] s[i]) == p(t[i]) && s[i].projection()
                == t[i].projection() by {
                assert(s[i].projection() == t[i].projection());
                assert(s[i].ipv6_prefix@ == s[i].projection().ip_prefix);
                assert(t[i].ipv6_prefix@ == t[i].projection().ip_prefix);
            }
            lemma_filter_map_agree(s, t, p, p, |e: Ipv6Prefix| e.projection());
        },
    }
}

/// An address that no published range covers is answered with no match, and
/// only such an address is.
pub proof fn lemma_no_match_iff_uncovered(ranges: AWSIpRanges, address: Address)
    ensures
        ip_matches(ranges, address).len() == 0 <==> uncovered(ranges, address),
{
    match address {
        Address::V4(ip) => {
            lemma_filter_empty(ranges.prefixes@, ipv4_covering(ip));
        },
        Address::V6(ip) => {
            lemma_filter_empty(ranges.ipv6_prefixes@, ipv6_covering(ip));
        },
    }
}

/// Lookups are repeatable: two answers to the same address on the same
/// dataset report the same matches in the same order.
pub proof fn lemma_lookup_is_repeatable(
    ranges: AWSIpRanges,
    address: Address,
    first: Seq<APIMatch<'_>>,
    second: Seq<APIMatch<'_>>,
)
    requires
        match_views(first) == ip_matches(ranges, address),
        match_views(second) == ip_matches(ranges, address),
    ensures
        match_views(first) == match_views(second),
        first.len() == second.len(),
        forall|i: int| 0 <= i < first.len() ==> (#[trigger] first[i])@ == second[i]@,
{
    assert(match_views(first).len() == first.len());
    assert(match_views(second).len() == second.len());
    assert forall|i: int| 0 <= i < first.len() implies (#[trigger] first[i])@ == second[i]@ by {
        assert(match_views(first)[i] == first[i]@);
        assert(match_views(second)[i] == second[i]@);
    }
}

} // verus!
