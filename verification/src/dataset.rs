//! Building the parsed dataset from the published prefixes.

use vstd::prelude::*;
use crate::model::{AWSIpRanges, AWSResponse, Ipv4Prefix, Ipv6Prefix};
use crate::net::{
    ipv4_net_of_text, ipv4_range_of, ipv6_net_of_text, ipv6_range_of, parse_ipv4_net,
    parse_ipv6_net,
};

verus! {

/// The first published prefix that is no valid network of its address
/// family, by its position in its list.
#[derive(Debug, Clone, Copy, PartialEq, Eq)]
pub enum ParseError {
    /// The IPv4 prefix at this position is no IPv4 network in CIDR notation.
    Ipv4Prefix(usize),
    /// The IPv6 prefix at this position is no IPv6 network in CIDR notation.
    Ipv6Prefix(usize),
}

/// The entry at `at` is the first of `entries` whose CIDR text is no IPv4
/// network.
pub open spec fn first_malformed_ipv4(entries: Seq<Ipv4Prefix>, at: int) -> bool {
    &&& 0 <= at < entries.len()
    &&& ipv4_net_of_text(entries[at].ip_prefix@) is None
    &&& forall|i: int| 0 <= i < at ==> ipv4_net_of_text(#[trigger] entries[i].ip_prefix@) is Some
}

/// The entry at `at` is the first of `entries` whose CIDR text is no IPv6
/// network.
pub open spec fn first_malformed_ipv6(entries: Seq<Ipv6Prefix>, at: int) -> bool {
    &&& 0 <= at < entries.len()
    &&& ipv6_net_of_text(entries[at].ipv6_prefix@) is None
    &&& forall|i: int| 0 <= i < at ==> ipv6_net_of_text(#[trigger] entries[i].ipv6_prefix@) is Some
}

/// Every CIDR text of `entries` is an IPv4 network.
pub open spec fn all_ipv4_parse(entries: Seq<Ipv4Prefix>) -> bool {
    forall|i: int| 0 <= i < entries.len() ==> ipv4_net_of_text(#[trigger] entries[i].ip_prefix@) is Some
}

/// Every CIDR text of `entries` is an IPv6 network.
pub open spec fn all_ipv6_parse(entries: Seq<Ipv6Prefix>) -> bool {
    forall|i: int|
        0 <= i < entries.len() ==> ipv6_net_of_text(#[trigger] entries[i].ipv6_prefix@) is Some
}

/// `after` holds the entries of `before`, one for one and in the same
/// order, with their texts unchanged.
pub open spec fn same_entries(after: AWSIpRanges, before: AWSIpRanges) -> bool {
    &&& after.prefixes@.len() == before.prefixes@.len()
    &&& after.ipv6_prefixes@.len() == before.ipv6_prefixes@.len()
    &&& forall|i: int|
        0 <= i < before.prefixes@.len() ==> (#[trigger] after.prefixes@[i]).projection()
            == before.prefixes@[i].projection()
    &&& forall|i: int|
        0 <= i < before.ipv6_prefixes@.len() ==> (#[trigger] after.ipv6_prefixes@[i]).projection()
            == before.ipv6_prefixes@[i].projection()
}

/// What computing the range indexes of `ranges` comes to: a dataset with
/// the same entries, each with the range index of its CIDR text, under the
/// freshness tag `cf_cache_status`; or, where a CIDR text is malformed, the
/// position of the first such text, IPv4 prefixes before IPv6 prefixes.
pub open spec fn calculated(
    ranges: AWSIpRanges,
    cf_cache_status: Seq<char>,
    result: Result<AWSResponse, ParseError>,
) -> bool {
    match result {
        Ok(response) => {
            &&& all_ipv4_parse(ranges.prefixes@)
            &&& all_ipv6_parse(ranges.ipv6_prefixes@)
            &&& same_entries(response.ranges, ranges)
            &&& response.ranges.is_computed()
            &&& response.cf_cache_status@ == cf_cache_status
        },
        Err(ParseError::Ipv4Prefix(at)) => first_malformed_ipv4(ranges.prefixes@, at as int),
        Err(ParseError::Ipv6Prefix(at)) => {
            &&& all_ipv4_parse(ranges.prefixes@)
            &&& first_malformed_ipv6(ranges.ipv6_prefixes@, at as int)
        },
    }
}

/// Computes the range index of every published prefix from its CIDR text.
///
/// One malformed prefix fails the whole dataset: the error names the first
/// one, IPv4 prefixes before IPv6 prefixes, and no partial dataset comes out.
pub fn calculate_aws_response(ranges: AWSIpRanges, cf_cache_status: String) -> (result: Result<
    AWSResponse,
    ParseError,
>)
    ensures
        calculated(ranges, cf_cache_status@, result),
{
    let mut computed = ranges;
    let mut i: usize = 0;
    while i < computed.prefixes.len()
        invariant
            i <= computed.prefixes@.len(),
            computed.prefixes@.len() == ranges.prefixes@.len(),
            computed.ipv6_prefixes == ranges.ipv6_prefixes,
            forall|j: int|
                0 <= j < ranges.prefixes@.len() ==> (#[trigger] computed.prefixes@[j]).projection()
                    == ranges.prefixes@[j].projection(),
            forall|j: int| 0 <= j < i ==> (#[trigger] computed.prefixes@[j]).is_computed(),
        decreases computed.prefixes@.len() - i,
    {
        match parse_ipv4_net(computed.prefixes[i].ip_prefix.as_str()) {
            Ok((addr, prefix_len)) => {
                computed.prefixes[i].ipv4_prefix_compute = ipv4_range_of(addr, prefix_len);
            },
            Err(_) => {
                proof {
                    lemma_computed_ipv4_parse(computed.prefixes@, ranges.prefixes@, i as int);
                }
                return Err(ParseError::Ipv4Prefix(i));
            },
        }
        i += 1;
    }
    let mut k: usize = 0;
    while k < computed.ipv6_prefixes.len()
        invariant
            k <= computed.ipv6_prefixes@.len(),
            computed.prefixes@.len() == ranges.prefixes@.len(),
            computed.ipv6_prefixes@.len() == ranges.ipv6_prefixes@.len(),
            forall|j: int|
                0 <= j < ranges.prefixes@.len() ==> (#[trigger] computed.prefixes@[j]).projection()
                    == ranges.prefixes@[j].projection(),
            forall|j: int|
                0 <= j < ranges.prefixes@.len() ==> (#[trigger] computed.prefixes@[j]).is_computed(),
            forall|j: int|
                0 <= j < ranges.ipv6_prefixes@.len() ==> (#[trigger] computed.ipv6_prefixes@[j]).projection()
                    == ranges.ipv6_prefixes@[j].projection(),
            forall|j: int| 0 <= j < k ==> (#[trigger] computed.ipv6_prefixes@[j]).is_computed(),
        decreases computed.ipv6_prefixes@.len() - k,
    {
        match parse_ipv6_net(computed.ipv6_prefixes[k].ipv6_prefix.as_str()) {
            Ok((addr, prefix_len)) => {
                computed.ipv6_prefixes[k].ipv6_prefix_compute = ipv6_range_of(addr, prefix_len);
            },
            Err(_) => {
                proof {
                    lemma_computed_ipv4_parse(
                        computed.prefixes@,
                        ranges.prefixes@,
                        ranges.prefixes@.len() as int,
                    );
                    lemma_computed_ipv6_parse(computed.ipv6_prefixes@, ranges.ipv6_prefixes@, k as int);
                }
                return Err(ParseError::Ipv6Prefix(k));
            },
        }
        k += 1;
    }
    proof {
        lemma_computed_ipv4_parse(computed.prefixes@, ranges.prefixes@, ranges.prefixes@.len() as int);
        lemma_computed_ipv6_parse(
            computed.ipv6_prefixes@,
            ranges.ipv6_prefixes@,
            ranges.ipv6_prefixes@.len() as int,
        );
    }
    Ok(AWSResponse { ranges: computed, cf_cache_status })
}

/// Entries that are computed have a CIDR text that parses, and so do the
/// entries with the same texts.
proof fn lemma_computed_ipv4_parse(computed: Seq<Ipv4Prefix>, published: Seq<Ipv4Prefix>, n: int)
    requires
        0 <= n <= published.len(),
        computed.len() == published.len(),
        forall|j: int|
            0 <= j < published.len() ==> (#[trigger] computed[j]).projection()
                == published[j].projection(),
        forall|j: int| 0 <= j < n ==> (#[trigger] computed[j]).is_computed(),
    ensures
        forall|j: int| 0 <= j < n ==> ipv4_net_of_text(#[trigger] published[j].ip_prefix@) is Some,
{
    assert forall|j: int| 0 <= j < n implies ipv4_net_of_text(
        #[trigger] published[j].ip_prefix@,
    ) is Some by {
        assert(computed[j].is_computed());
        assert(computed[j].projection() == published[j].projection());
    }
}

/// Entries that are computed have a CIDR text that parses, and so do the
/// entries with the same texts.
proof fn lemma_computed_ipv6_parse(computed: Seq<Ipv6Prefix>, published: Seq<Ipv6Prefix>, n: int)
    requires
        0 <= n <= published.len(),
        computed.len() == published.len(),
        forall|j: int|
            0 <= j < published.len() ==> (#[trigger] computed[j]).projection()
                == published[j].projection(),
        forall|j: int| 0 <= j < n ==> (#[trigger] computed[j]).is_computed(),
    ensures
        forall|j: int| 0 <= j < n ==> ipv6_net_of_text(#[trigger] published[j].ipv6_prefix@) is Some,
{
    assert forall|j: int| 0 <= j < n implies ipv6_net_of_text(
        #[trigger] published[j].ipv6_prefix@,
    ) is Some by {
        assert(computed[j].is_computed());
        assert(computed[j].projection() == published[j].projection());
    }
}

} // verus!
