//! The slot that keeps one parsed dataset for the life of the process.

use std::sync::Arc;
use vstd::prelude::*;
use crate::dataset::{ParseError, calculate_aws_response, calculated};
use crate::model::{AWSIpRanges, AWSResponse};

verus! {

/// Why a slot could not be populated.
#[derive(Debug)]
pub enum PopulateError<E> {
    /// The loader failed; its error is passed on.
    Fetch(E),
    /// The loader delivered a prefix that is no valid network.
    Parse(ParseError),
}

/// A slot that holds at most one dataset, shared with everyone who asked
/// for it.
#[derive(Debug)]
pub struct CacheSlot {
    slot: Option<Arc<AWSResponse>>,
}

/// `Arc::clone`. Believed of it: the new handle points to the value that
/// `handle` points to.
#[verifier::external_body]
fn share(handle: &Arc<AWSResponse>) -> (shared: Arc<AWSResponse>)
    ensures
        shared == *handle,
{
    Arc::clone(handle)
}

/// The freshness tag of a dataset: the one that came with it, or `UNKNOWN`
/// where none came.
pub open spec fn freshness_tag_of(header: Option<String>) -> Seq<char> {
    match header {
        Some(tag) => tag@,
        None => "UNKNOWN"@,
    }
}

/// The freshness tag under which a dataset is kept.
pub fn freshness_tag(header: Option<String>) -> (tag: String)
    ensures
        tag@ == freshness_tag_of(header),
{
    match header {
        Some(tag) => tag,
        None => "UNKNOWN".to_owned(),
    }
}

/// What populating from `delivered` comes to: the loader's error passed
/// on, or what computing the range indexes of the delivered prefixes comes
/// to, under the freshness tag that was delivered with them.
pub open spec fn populated<E>(
    delivered: Result<(AWSIpRanges, Option<String>), E>,
    result: Result<AWSResponse, PopulateError<E>>,
) -> bool {
    match delivered {
        Err(e) => result == Err::<AWSResponse, _>(PopulateError::Fetch(e)),
        Ok((ranges, header)) => match result {
            Ok(response) => calculated(ranges, freshness_tag_of(header), Ok(response)),
            Err(PopulateError::Parse(e)) => calculated(ranges, freshness_tag_of(header), Err(e)),
            Err(PopulateError::Fetch(_)) => false,
        },
    }
}

/// How populating an empty slot from what the loader `delivered` ends: with
/// `result` for the caller and `after` in the slot.
pub open spec fn populate_outcome<E>(
    delivered: Result<(AWSIpRanges, Option<String>), E>,
    result: Result<(Arc<AWSResponse>, bool), PopulateError<E>>,
    after: Option<Arc<AWSResponse>>,
) -> bool {
    match result {
        Ok((response, is_local)) => {
            &&& !is_local
            &&& after == Some(response)
            &&& populated(delivered, Ok(*response))
        },
        Err(e) => after is None && populated(delivered, Err::<AWSResponse, _>(e)),
    }
}

/// How a fetch on a slot that held `before` may end, where `loaded` tells
/// what the loader may deliver: with `result` for the caller and `after` in
/// the slot.
///
/// A dataset in the slot is handed out as it is, marked as served locally,
/// and nothing the loader could deliver has a say. An empty slot is
/// populated from what the loader delivered, all or nothing: only a whole
/// dataset enters the slot, and after any failure the slot is still empty.
pub open spec fn fetch_outcome<E>(
    before: Option<Arc<AWSResponse>>,
    loaded: spec_fn(Result<(AWSIpRanges, Option<String>), E>) -> bool,
    result: Result<(Arc<AWSResponse>, bool), PopulateError<E>>,
    after: Option<Arc<AWSResponse>>,
) -> bool {
    match before {
        Some(held) => result == Ok::<_, PopulateError<E>>((held, true)) && after == before,
        None => exists|delivered: Result<(AWSIpRanges, Option<String>), E>|
            loaded(delivered) && #[trigger] populate_outcome(delivered, result, after),
    }
}

/// Makes the dataset from what a loader delivered: the published prefixes
/// and the freshness tag, or the loader's error.
pub fn populate<E>(delivered: Result<(AWSIpRanges, Option<String>), E>) -> (result: Result<
    AWSResponse,
    PopulateError<E>,
>)
    ensures
        populated(delivered, result),
{
    match delivered {
        Ok((ranges, header)) => match calculate_aws_response(ranges, freshness_tag(header)) {
            Ok(response) => Ok(response),
            Err(e) => Err(PopulateError::Parse(e)),
        },
        Err(e) => Err(PopulateError::Fetch(e)),
    }
}

impl CacheSlot {
    /// The dataset that the slot holds, if any.
    pub closed spec fn dataset(&self) -> Option<Arc<AWSResponse>> {
        self.slot
    }

    /// An empty slot.
    pub fn new() -> (cache: Self)
        ensures
            cache.dataset() is None,
    {
        CacheSlot { slot: None }
    }

    /// A handle to the dataset in the slot, if there is one.
    pub fn lookup(&self) -> (held: Option<Arc<AWSResponse>>)
        ensures
            held == self.dataset(),
    {
        match &self.slot {
            Some(response) => Some(share(response)),
            None => None,
        }
    }

    /// Puts a whole dataset into the slot, in place of what it held.
    pub fn store(&mut self, response: Arc<AWSResponse>)
        ensures
            final(self).dataset() == Some(response),
    {
        self.slot = Some(response);
    }
}

/// Hands out the dataset in the slot or, where the slot is empty, populates
/// it from what `loader` delivers. The flag tells whether the dataset was
/// served from the slot.
///
/// The loader is asked only where the slot is empty.
pub fn fetch_aws_ranges<E, F>(cache: &mut CacheSlot, loader: F) -> (result: Result<
    (Arc<AWSResponse>, bool),
    PopulateError<E>,
>) where F: FnOnce() -> Result<(AWSIpRanges, Option<String>), E>
    requires
        old(cache).dataset() is None ==> loader.requires(()),
    ensures
        fetch_outcome(
            old(cache).dataset(),
            |delivered: Result<(AWSIpRanges, Option<String>), E>| loader.ensures((), delivered),
            result,
            final(cache).dataset(),
        ),
{
    match cache.lookup() {
        Some(held) => Ok((held, true)),
        None => {
            let delivered = loader();
            let made = populate(delivered);
            match made {
                Ok(response) => {
                    let shared = Arc::new(response);
                    cache.store(share(&shared));
                    let result = Ok((shared, false));
                    proof {
                        assert(populate_outcome(delivered, result, cache.dataset()));
                    }
                    result
                },
                Err(e) => {
                    let result = Err(e);
                    proof {
                        assert(populate_outcome(delivered, result, cache.dataset()));
                    }
                    result
                },
            }
        },
    }
}

/// The first fetch on an empty slot that succeeds is not served locally,
/// and the fetch after it is: it hands out the very dataset that the first
/// one put into the slot, whatever its loader would deliver, and leaves the
/// slot as it is, so that the same holds of every fetch that follows.
pub proof fn lemma_populated_slot_serves_locally<E>(
    first_loaded: spec_fn(Result<(AWSIpRanges, Option<String>), E>) -> bool,
    first: Result<(Arc<AWSResponse>, bool), PopulateError<E>>,
    between: Option<Arc<AWSResponse>>,
    later_loaded: spec_fn(Result<(AWSIpRanges, Option<String>), E>) -> bool,
    later: Result<(Arc<AWSResponse>, bool), PopulateError<E>>,
    after: Option<Arc<AWSResponse>>,
)
    requires
        fetch_outcome(None, first_loaded, first, between),
        first is Ok,
        fetch_outcome(between, later_loaded, later, after),
    ensures
        first matches Ok((response, is_local)) && !is_local && between == Some(response)
            && later == Ok::<_, PopulateError<E>>((response, true)) && after == Some(response),
{
    let delivered = choose|delivered: Result<(AWSIpRanges, Option<String>), E>|
        first_loaded(delivered) && #[trigger] populate_outcome(delivered, first, between);
    assert(populate_outcome(delivered, first, between));
}

/// A fetch that fails leaves an empty slot empty, so that the next fetch
/// asks its loader again.
pub proof fn lemma_failed_fetch_leaves_slot_empty<E>(
    loaded: spec_fn(Result<(AWSIpRanges, Option<String>), E>) -> bool,
    result: Result<(Arc<AWSResponse>, bool), PopulateError<E>>,
    after: Option<Arc<AWSResponse>>,
)
    requires
        fetch_outcome(None, loaded, result, after),
        result is Err,
    ensures
        after is None,
{
    let delivered = choose|delivered: Result<(AWSIpRanges, Option<String>), E>|
        loaded(delivered) && #[trigger] populate_outcome(delivered, result, after);
    assert(populate_outcome(delivered, result, after));
}

} // verus!
