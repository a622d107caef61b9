//! Lookup of IP addresses in the address ranges that AWS publishes.
//!
//! The published prefixes are turned into range indexes once, kept in a
//! cache slot, and every address is then matched against them in the order
//! in which they were published.

pub mod cache;
pub mod dataset;
pub mod matcher;
pub mod model;
pub mod net;
pub mod request;

pub use crate::cache::{CacheSlot, PopulateError, fetch_aws_ranges, freshness_tag, populate};
pub use crate::dataset::{ParseError, calculate_aws_response};
pub use crate::matcher::{ip_match, ipv4_match, ipv6_match};
pub use crate::model::{
    APIMatch, APIResponse, AWSIpRanges, AWSResponse, Address, Ipv4Prefix, Ipv6Prefix,
};
pub use crate::request::{
    ParameterError, api_response, find_ip_param, unavailable_message, unavailable_status,
    validate_ip_param,
};
