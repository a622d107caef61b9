//! The published prefixes, the parsed dataset and what a lookup answers.

use vstd::prelude::*;
use crate::net::{
    Ipv4Range, Ipv6Range, ipv4_block, ipv4_net_of_text, ipv4_range_addrs, ipv4_range_empty,
    ipv6_block, ipv6_net_of_text, ipv6_range_addrs, ipv6_range_empty,
};

verus! {

/// An IP address as the integer of its big-endian bytes.
#[derive(Debug, Clone, Copy, PartialEq, Eq)]
pub enum Address {
    V4(u32),
    V6(u128),
}

/// The metadata of one published prefix, as a lookup reports it.
pub struct MatchView {
    pub ip_prefix: Seq<char>,
    pub region: Seq<char>,
    pub service: Seq<char>,
    pub network_border_group: Seq<char>,
}

/// One published IPv4 prefix with the range index made from it.
#[derive(Debug)]
pub struct Ipv4Prefix {
    pub ip_prefix: String,
    pub ipv4_prefix_compute: Ipv4Range,
    pub region: String,
    pub service: String,
    pub network_border_group: String,
}

/// One published IPv6 prefix with the range index made from it.
#[derive(Debug)]
pub struct Ipv6Prefix {
    pub ipv6_prefix: String,
    pub ipv6_prefix_compute: Ipv6Range,
    pub region: String,
    pub service: String,
    pub network_border_group: String,
}

impl Ipv4Prefix {
    /// A prefix as it is published: its range index is still empty.
    pub fn new(
        ip_prefix: String,
        region: String,
        service: String,
        network_border_group: String,
    ) -> (entry: Self)
        ensures
            entry.ip_prefix@ == ip_prefix@,
            entry.region@ == region@,
            entry.service@ == service@,
            entry.network_border_group@ == network_border_group@,
            ipv4_range_addrs(entry.ipv4_prefix_compute) == Set::<u32>::empty(),
    {
        Ipv4Prefix {
            ip_prefix,
            ipv4_prefix_compute: ipv4_range_empty(),
            region,
            service,
            network_border_group,
        }
    }

    /// Whether the entry's range index covers `ip`.
    pub open spec fn covers(&self, ip: u32) -> bool {
        ipv4_range_addrs(self.ipv4_prefix_compute).contains(ip)
    }

    /// The entry's range index holds exactly the block that its CIDR text
    /// names.
    pub open spec fn is_computed(&self) -> bool {
        match ipv4_net_of_text(self.ip_prefix@) {
            Some(net) => ipv4_range_addrs(self.ipv4_prefix_compute) == ipv4_block(net.0, net.1),
            None => false,
        }
    }

    /// What a lookup reports of the entry.
    pub open spec fn projection(&self) -> MatchView {
        MatchView {
            ip_prefix: self.ip_prefix@,
            region: self.region@,
            service: self.service@,
            network_border_group: self.network_border_group@,
        }
    }
}

impl Ipv6Prefix {
    /// A prefix as it is published: its range index is still empty.
    pub fn new(
        ipv6_prefix: String,
        region: String,
        service: String,
        network_border_group: String,
    ) -> (entry: Self)
        ensures
            entry.ipv6_prefix@ == ipv6_prefix@,
            entry.region@ == region@,
            entry.service@ == service@,
            entry.network_border_group@ == network_border_group@,
            ipv6_range_addrs(entry.ipv6_prefix_compute) == Set::<u128>::empty(),
    {
        Ipv6Prefix {
            ipv6_prefix,
            ipv6_prefix_compute: ipv6_range_empty(),
            region,
            service,
            network_border_group,
        }
    }

    /// Whether the entry's range index covers `ip`.
    pub open spec fn covers(&self, ip: u128) -> bool {
        ipv6_range_addrs(self.ipv6_prefix_compute).contains(ip)
    }

    /// The entry's range index holds exactly the block that its CIDR text
    /// names.
    pub open spec fn is_computed(&self) -> bool {
        match ipv6_net_of_text(self.ipv6_prefix@) {
            Some(net) => ipv6_range_addrs(self.ipv6_prefix_compute) == ipv6_block(net.0, net.1),
            None => false,
        }
    }

    /// What a lookup reports of the entry.
    pub open spec fn projection(&self) -> MatchView {
        MatchView {
            ip_prefix: self.ipv6_prefix@,
            region: self.region@,
            service: self.service@,
            network_border_group: self.network_border_group@,
        }
    }
}

/// The published prefixes of both address families, in the order in which
/// they were published.
#[derive(Debug)]
pub struct AWSIpRanges {
    pub prefixes: Vec<Ipv4Prefix>,
    pub ipv6_prefixes: Vec<Ipv6Prefix>,
}

impl AWSIpRanges {
    /// Every entry's range index holds exactly the block of its CIDR text.
    pub open spec fn is_computed(&self) -> bool {
        &&& forall|i: int| 0 <= i < self.prefixes@.len() ==> (#[trigger] self.prefixes@[i]).is_computed()
        &&& forall|i: int|
            0 <= i < self.ipv6_prefixes@.len() ==> (#[trigger] self.ipv6_prefixes@[i]).is_computed()
    }
}

/// A parsed dataset with the freshness tag that came with it.
#[derive(Debug)]
pub struct AWSResponse {
    pub ranges: AWSIpRanges,
    pub cf_cache_status: String,
}

/// One matched prefix in a lookup's answer.
#[derive(Debug)]
pub struct APIMatch<'a> {
    pub ip_prefix: &'a str,
    pub region: &'a str,
    pub service: &'a str,
    pub network_border_group: &'a str,
}

impl<'a> View for APIMatch<'a> {
    type V = MatchView;

    open spec fn view(&self) -> MatchView {
        MatchView {
            ip_prefix: self.ip_prefix@,
            region: self.region@,
            service: self.service@,
            network_border_group: self.network_border_group@,
        }
    }
}

/// The answer to a lookup.
#[derive(Debug)]
pub struct APIResponse<'a> {
    pub requested_ip: &'a str,
    pub cache_status: &'a str,
    pub matches: Vec<APIMatch<'a>>,
}

/// The views of a list of matches, in order.
pub open spec fn match_views(matches: Seq<APIMatch<'_>>) -> Seq<MatchView> {
    matches.map_values(|m: APIMatch| m@)
}

} // verus!
