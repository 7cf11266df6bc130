//! The endpoint pool: a fixed, never empty list of interchangeable endpoints.

use crate::error::StartupError;
use crate::random::choose_one;
use vstd::prelude::*;

verus! {

/// How often an endpoint's transport retries a rate-limited request.
pub const ENDPOINT_MAX_RETRIES: u32 = 10;

/// The first backoff of an endpoint's transport, in milliseconds.
pub const ENDPOINT_INITIAL_BACKOFF_MS: u64 = 2;

/// The compute units per second that an endpoint's transport may spend.
pub const ENDPOINT_COMPUTE_UNITS_PER_SECOND: u64 = 500;

/// Whether `Url::parse` accepts a text.
pub uninterp spec fn url_parses(text: Seq<char>) -> bool;

/// Calls `reqwest::Url::parse` through `str::parse` and keeps whether it
/// succeeded. Believed, not proved: the answer is the same for the same text.
#[verifier::external_body]
fn is_url(text: &str) -> (ok: bool)
    ensures
        ok == url_parses(text@),
{
    text.parse::<reqwest::Url>().is_ok()
}

/// Whether the connection string at a position is no URL.
pub open spec fn malformed_at(urls: Seq<String>, i: int) -> bool {
    0 <= i < urls.len() && !url_parses(urls[i]@)
}

/// Why no pool can be built from the connection strings, if that is so.
pub open spec fn pool_fault(urls: Seq<String>) -> Option<StartupError> {
    if urls.len() == 0 {
        Some(StartupError::EmptyEndpointPool)
    } else if exists|i: int| malformed_at(urls, i) {
        Some(StartupError::MalformedEndpoint)
    } else {
        None
    }
}

/// One upstream connection target.
#[derive(Clone, Debug)]
pub struct Endpoint {
    /// Its position in the pool.
    pub index: usize,
    /// Its connection string.
    pub url: String,
}

/// The endpoints of a run, in the order of the configuration.
#[derive(Clone, Debug)]
pub struct EndpointPool {
    endpoints: Vec<Endpoint>,
}

impl EndpointPool {
    /// The endpoints, in order.
    pub closed spec fn endpoints(&self) -> Seq<Endpoint> {
        self.endpoints@
    }

    /// The number of endpoints.
    pub open spec fn spec_len(&self) -> nat {
        self.endpoints().len()
    }

    /// A pool is never empty, each endpoint knows its own position, and
    /// each connection string is a URL.
    pub open spec fn wf(&self) -> bool {
        &&& self.endpoints().len() > 0
        &&& forall|i: int|
            0 <= i < self.endpoints().len() ==> (#[trigger] self.endpoints()[i]).index == i
        &&& forall|i: int|
            0 <= i < self.endpoints().len() ==> url_parses((#[trigger] self.endpoints()[i]).url@)
    }

    /// Builds the pool from the configured connection strings, in their order.
    /// An empty list is refused, and so is a list with a string that is no URL.
    pub fn new(urls: &Vec<String>) -> (made: Result<EndpointPool, StartupError>)
        ensures
            made is Err <==> pool_fault(urls@) is Some,
            made is Err ==> Some(made->Err_0) == pool_fault(urls@),
            made is Ok ==> {
                let pool = made->Ok_0;
                &&& pool.wf()
                &&& pool.endpoints().len() == urls@.len()
                &&& forall|i: int|
                    0 <= i < urls@.len() ==> (#[trigger] pool.endpoints()[i]).url == urls@[i]
            },
    {
        if urls.len() == 0 {
            return Err(StartupError::EmptyEndpointPool);
        }
        let mut endpoints: Vec<Endpoint> = Vec::new();
        let mut i: usize = 0;
        while i < urls.len()
            invariant
                i <= urls@.len(),
                endpoints@.len() == i,
                forall|j: int| 0 <= j < i ==> (#[trigger] endpoints@[j]).index == j,
                forall|j: int| 0 <= j < i ==> (#[trigger] endpoints@[j]).url == urls@[j],
                forall|j: int| 0 <= j < i ==> !malformed_at(urls@, j),
                forall|j: int| 0 <= j < i ==> url_parses((#[trigger] endpoints@[j]).url@),
            decreases urls@.len() - i,
        {
            if !is_url(urls[i].as_str()) {
                assert(malformed_at(urls@, i as int));
                return Err(StartupError::MalformedEndpoint);
            }
            endpoints.push(Endpoint { index: i, url: urls[i].clone() });
            i = i + 1;
        }
        Ok(EndpointPool { endpoints })
    }

    /// The number of endpoints.
    pub fn len(&self) -> (n: usize)
        ensures
            n == self.spec_len(),
    {
        self.endpoints.len()
    }

    /// The endpoint at a position, if the pool has one there.
    pub fn get(&self, index: usize) -> (found: Option<&Endpoint>)
        ensures
            index >= self.spec_len() ==> found is None,
            index < self.spec_len() ==> found == Some(&self.endpoints()[index as int]),
    {
        if index < self.endpoints.len() {
            Some(&self.endpoints[index])
        } else {
            None
        }
    }

    /// Picks one endpoint at random. Every call picks anew, so one endpoint may
    /// serve many tasks at once. What is promised holds of every pick: the
    /// endpoint is in the pool, at the position it names.
    pub fn select(&self) -> (picked: &Endpoint)
        requires
            self.wf(),
        ensures
            picked.index < self.spec_len(),
            self.endpoints()[picked.index as int] == *picked,
    {
        let chosen = choose_one(&self.endpoints);
        match chosen {
            Some(endpoint) => {
                proof {
                    let k = choose|k: int|
                        0 <= k < self.endpoints@.len() && self.endpoints@[k] == *endpoint;
                    assert(self.endpoints()[k].index == k);
                }
                endpoint
            },
            None => &self.endpoints[0],
        }
    }
}

} // verus!
