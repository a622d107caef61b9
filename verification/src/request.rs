//! What a lookup request is answered with.

use vstd::prelude::*;
use crate::matcher::{ip_match, ip_matches};
use crate::model::{APIResponse, AWSResponse, Address, match_views};

verus! {

/// Why the `ip` parameter of a request was turned down.
#[derive(Debug, Clone, Copy, PartialEq, Eq)]
pub enum ParameterError {
    /// The request has no `ip` parameter.
    Missing,
    /// The `ip` parameter is the empty text.
    Empty,
    /// The `ip` parameter is no IP address.
    Invalid,
}

impl ParameterError {
    /// The status under which the error is reported: the request is at fault.
    pub open spec fn status(self) -> u16 {
        400
    }

    /// The status under which the error is reported.
    pub fn status_code(&self) -> (status: u16)
        ensures
            status == self.status(),
    {
        400
    }

    /// The text that tells the client what is wrong with the parameter.
    pub fn message(&self) -> (text: &'static str)
        ensures
            text@ == match *self {
                ParameterError::Missing => "\"ip\" parameter is missing!"@,
                ParameterError::Empty => "\"ip\" parameter is empty!"@,
                ParameterError::Invalid => "\"ip\" parameter is not a valid IP address!"@,
            },
    {
        match self {
            ParameterError::Missing => "\"ip\" parameter is missing!",
            ParameterError::Empty => "\"ip\" parameter is empty!",
            ParameterError::Invalid => "\"ip\" parameter is not a valid IP address!",
        }
    }
}

/// The pair at `at` is the first of `query_pairs` whose key is `ip`.
pub open spec fn first_ip_pair(query_pairs: Seq<(String, String)>, at: int) -> bool {
    &&& 0 <= at < query_pairs.len()
    &&& query_pairs[at].0@ == "ip"@
    &&& forall|i: int| 0 <= i < at ==> (#[trigger] query_pairs[i]).0@ != "ip"@
}

/// The `ip` parameter among the pairs of a request's query: the value of
/// the first pair whose key is `ip`, if there is one.
pub fn find_ip_param<'a>(query_pairs: &'a [(String, String)]) -> (ip_param: Option<&'a str>)
    ensures
        match ip_param {
            Some(value) => exists|at: int|
                #[trigger] first_ip_pair(query_pairs@, at) && value@ == query_pairs@[at].1@,
            None => forall|i: int|
                0 <= i < query_pairs@.len() ==> (#[trigger] query_pairs@[i]).0@ != "ip"@,
        },
{
    let key = "ip".to_owned();
    let mut i: usize = 0;
    while i < query_pairs.len()
        invariant
            i <= query_pairs@.len(),
            key@ == "ip"@,
            forall|j: int| 0 <= j < i ==> (#[trigger] query_pairs@[j]).0@ != "ip"@,
        decreases query_pairs@.len() - i,
    {
        if query_pairs[i].0 == key {
            assert(first_ip_pair(query_pairs@, i as int));
            return Some(query_pairs[i].1.as_str());
        }
        i += 1;
    }
    None
}

/// The verdict on the `ip` parameter of a request, where `parsed` tells what
/// the address parser may make of a text.
///
/// Every parameter that is missing, empty or no address is turned down with
/// a status of the 400 class, and no other parameter is.
pub open spec fn parameter_verdict(
    ip_param: Option<&str>,
    parsed: spec_fn(&str, Option<Address>) -> bool,
    verdict: Result<Address, ParameterError>,
) -> bool {
    match ip_param {
        None => verdict == Err::<Address, _>(ParameterError::Missing),
        Some(text) => if text@.len() == 0 {
            verdict == Err::<Address, _>(ParameterError::Empty)
        } else {
            match verdict {
                Ok(address) => parsed(text, Some(address)),
                Err(e) => e == ParameterError::Invalid && parsed(text, None),
            }
        },
    }
}

/// Checks the `ip` parameter of a request and reads the address in it.
///
/// `parse` is asked only for a parameter that is there and not empty.
pub fn validate_ip_param<F>(ip_param: Option<&str>, parse: F) -> (verdict: Result<
    Address,
    ParameterError,
>) where F: FnOnce(&str) -> Option<Address>
    requires
        ip_param matches Some(text) ==> text@.len() > 0 ==> parse.requires((text,)),
    ensures
        parameter_verdict(
            ip_param,
            |text: &str, address: Option<Address>| parse.ensures((text,), address),
            verdict,
        ),
        verdict matches Err(e) ==> e.status() == 400,
{
    match ip_param {
        None => Err(ParameterError::Missing),
        Some(text) => {
            if text.is_empty() {
                Err(ParameterError::Empty)
            } else {
                match parse(text) {
                    Some(address) => Ok(address),
                    None => Err(ParameterError::Invalid),
                }
            }
        },
    }
}

/// The status of the reply to a request whose dataset could not be had:
/// the service is at fault.
pub fn unavailable_status() -> (status: u16)
    ensures
        status == 500,
{
    500
}

/// The text of the reply to a request whose dataset could not be had. It
/// tells nothing of the cause.
pub fn unavailable_message() -> (text: &'static str)
    ensures
        text@ == "Unable to fetch AWS ranges"@,
{
    "Unable to fetch AWS ranges"
}

/// The cache status that an answer reports: `LOCAL` where the dataset was
/// served from the slot, else the dataset's freshness tag.
pub open spec fn cache_status_of(aws_response: AWSResponse, is_local: bool) -> Seq<char> {
    if is_local {
        "LOCAL"@
    } else {
        aws_response.cf_cache_status@
    }
}

/// The answer to a lookup of `ip_address`, which the request named as
/// `requested_ip`, on the dataset `aws_response`.
pub fn api_response<'a>(
    requested_ip: &'a str,
    aws_response: &'a AWSResponse,
    is_local: bool,
    ip_address: &Address,
) -> (response: APIResponse<'a>)
    ensures
        response.requested_ip@ == requested_ip@,
        response.cache_status@ == cache_status_of(*aws_response, is_local),
        match_views(response.matches@) == ip_matches(aws_response.ranges, *ip_address),
{
    let cache_status = if is_local {
        "LOCAL"
    } else {
        aws_response.cf_cache_status.as_str()
    };
    let matches = ip_match(&aws_response.ranges, ip_address);
    APIResponse { requested_ip, cache_status, matches }
}

} // verus!
