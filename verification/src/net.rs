//! The boundary to the `ipnet` and `iprange` crates.
//!
//! Networks are parsed by `ipnet` and held in `iprange`'s radix trie. Verus
//! does not look into either crate: the contracts of the functions marked
//! `external_body` in this file are believed, not proved. Everything they
//! state is phrased over plain integers, with an IPv4 address as the `u32`
//! and an IPv6 address as the `u128` of its big-endian bytes.

use vstd::prelude::*;
use vstd::arithmetic::power2::pow2;

verus! {

/// `ipnet::AddrParseError`, which tells no more than that a text was
/// rejected.
#[verifier::external_type_specification]
#[verifier::external_body]
pub struct ExAddrParseError(ipnet::AddrParseError);

/// A set of IPv4 networks, held in an `iprange::IpRange`. Verus sees nothing
/// inside: what a range covers is known only through `ipv4_range_addrs`.
#[verifier::external_body]
#[derive(Debug)]
pub struct Ipv4Range {
    inner: iprange::IpRange<ipnet::Ipv4Net>,
}

/// A set of IPv6 networks, held in an `iprange::IpRange`. Verus sees nothing
/// inside: what a range covers is known only through `ipv6_range_addrs`.
#[verifier::external_body]
#[derive(Debug)]
pub struct Ipv6Range {
    inner: iprange::IpRange<ipnet::Ipv6Net>,
}

/// Whether `ip` lies in the IPv4 block `addr/prefix_len`: the two agree on
/// their leading `prefix_len` bits. Bits of `addr` behind the prefix do not
/// count.
pub open spec fn ipv4_block_contains(addr: u32, prefix_len: u8, ip: u32) -> bool {
    &&& prefix_len <= 32
    &&& ip as int / pow2((32 - prefix_len) as nat) as int
        == addr as int / pow2((32 - prefix_len) as nat) as int
}

/// Whether `ip` lies in the IPv6 block `addr/prefix_len`: the two agree on
/// their leading `prefix_len` bits.
pub open spec fn ipv6_block_contains(addr: u128, prefix_len: u8, ip: u128) -> bool {
    &&& prefix_len <= 128
    &&& ip as int / pow2((128 - prefix_len) as nat) as int
        == addr as int / pow2((128 - prefix_len) as nat) as int
}

/// The addresses of the IPv4 block `addr/prefix_len`.
pub open spec fn ipv4_block(addr: u32, prefix_len: u8) -> Set<u32> {
    Set::new(|ip: u32| ipv4_block_contains(addr, prefix_len, ip))
}

/// The addresses of the IPv6 block `addr/prefix_len`.
pub open spec fn ipv6_block(addr: u128, prefix_len: u8) -> Set<u128> {
    Set::new(|ip: u128| ipv6_block_contains(addr, prefix_len, ip))
}

/// What `ipnet` makes of `text` as an IPv4 network in CIDR notation: the
/// address and the prefix length, or `None` where it rejects the text.
pub uninterp spec fn ipv4_net_of_text(text: Seq<char>) -> Option<(u32, u8)>;

/// What `ipnet` makes of `text` as an IPv6 network in CIDR notation: the
/// address and the prefix length, or `None` where it rejects the text.
pub uninterp spec fn ipv6_net_of_text(text: Seq<char>) -> Option<(u128, u8)>;

/// The addresses that an IPv4 range covers.
pub uninterp spec fn ipv4_range_addrs(range: Ipv4Range) -> Set<u32>;

/// The addresses that an IPv6 range covers.
pub uninterp spec fn ipv6_range_addrs(range: Ipv6Range) -> Set<u128>;

/// `<ipnet::Ipv4Net as FromStr>::from_str`, with the parsed network handed
/// out as its address and prefix length. Believed of it: the outcome depends
/// on the text alone, and no network comes out with a prefix length above 32.
#[verifier::external_body]
pub(crate) fn parse_ipv4_net(text: &str) -> (r: Result<(u32, u8), ipnet::AddrParseError>)
    ensures
        match r {
            Ok(net) => ipv4_net_of_text(text@) == Some(net) && net.1 <= 32,
            Err(_) => ipv4_net_of_text(text@) is None,
        },
{
    match text.parse::<ipnet::Ipv4Net>() {
        Ok(net) => Ok((net.addr().into(), net.prefix_len())),
        Err(e) => Err(e),
    }
}

/// `<ipnet::Ipv6Net as FromStr>::from_str`, with the parsed network handed
/// out as its address and prefix length. Believed of it: the outcome depends
/// on the text alone, and no network comes out with a prefix length above 128.
#[verifier::external_body]
pub(crate) fn parse_ipv6_net(text: &str) -> (r: Result<(u128, u8), ipnet::AddrParseError>)
    ensures
        match r {
            Ok(net) => ipv6_net_of_text(text@) == Some(net) && net.1 <= 128,
            Err(_) => ipv6_net_of_text(text@) is None,
        },
{
    match text.parse::<ipnet::Ipv6Net>() {
        Ok(net) => Ok((net.addr().into(), net.prefix_len())),
        Err(e) => Err(e),
    }
}

/// `iprange::IpRange::from_iter` on the one network `addr/prefix_len`, built
/// with `ipnet::Ipv4Net::new_assert`. Believed of it: the range covers the
/// addresses of that block and no others.
#[verifier::external_body]
pub(crate) fn ipv4_range_of(addr: u32, prefix_len: u8) -> (range: Ipv4Range)
    requires
        prefix_len <= 32,
    ensures
        ipv4_range_addrs(range) == ipv4_block(addr, prefix_len),
{
    Ipv4Range { inner: [ipnet::Ipv4Net::new_assert(addr.into(), prefix_len)].into_iter().collect() }
}

/// `iprange::IpRange::from_iter` on the one network `addr/prefix_len`, built
/// with `ipnet::Ipv6Net::new_assert`. Believed of it: the range covers the
/// addresses of that block and no others.
#[verifier::external_body]
pub(crate) fn ipv6_range_of(addr: u128, prefix_len: u8) -> (range: Ipv6Range)
    requires
        prefix_len <= 128,
    ensures
        ipv6_range_addrs(range) == ipv6_block(addr, prefix_len),
{
    Ipv6Range { inner: [ipnet::Ipv6Net::new_assert(addr.into(), prefix_len)].into_iter().collect() }
}

/// `iprange::IpRange::contains`, asked for one address. Believed of it: the
/// answer is whether the range covers the address.
#[verifier::external_body]
pub(crate) fn ipv4_range_contains(range: &Ipv4Range, ip: u32) -> (found: bool)
    ensures
        found == ipv4_range_addrs(*range).contains(ip),
{
    range.inner.contains(&ip)
}

/// `iprange::IpRange::contains`, asked for one address. Believed of it: the
/// answer is whether the range covers the address.
#[verifier::external_body]
pub(crate) fn ipv6_range_contains(range: &Ipv6Range, ip: u128) -> (found: bool)
    ensures
        found == ipv6_range_addrs(*range).contains(ip),
{
    range.inner.contains(&ip)
}

/// `iprange::IpRange::new`. Believed of it: the new range covers no address.
#[verifier::external_body]
pub(crate) fn ipv4_range_empty() -> (range: Ipv4Range)
    ensures
        ipv4_range_addrs(range) == Set::<u32>::empty(),
{
    Ipv4Range { inner: iprange::IpRange::new() }
}

/// `iprange::IpRange::new`. Believed of it: the new range covers no address.
#[verifier::external_body]
pub(crate) fn ipv6_range_empty() -> (range: Ipv6Range)
    ensures
        ipv6_range_addrs(range) == Set::<u128>::empty(),
{
    Ipv6Range { inner: iprange::IpRange::new() }
}

} // verus!
