//! The settings of one batch, checked once when they are made.
use vstd::prelude::*;

verus! {

/// Why a batch could not start.
#[derive(Debug, Clone, Copy, PartialEq, Eq, Structural)]
pub enum ConfigError {
    /// The batch asked for no requests at all.
    ZeroRequests,
    /// The batch asked for no workers.
    ZeroWorkers,
    /// The proxy URL could not be parsed.
    InvalidProxy,
    /// The HTTP client could not be built for another reason.
    TransportBuild,
}

/// The settings of one batch: how many requests, over how many workers,
/// against which URL, and through which proxy, if any.
#[derive(Debug)]
pub struct BatchConfig {
    total_requests: usize,
    worker_count: usize,
    url: String,
    proxy: Option<String>,
}

impl BatchConfig {
    pub closed spec fn spec_total_requests(&self) -> usize {
        self.total_requests
    }

    pub closed spec fn spec_worker_count(&self) -> usize {
        self.worker_count
    }

    pub closed spec fn spec_url(&self) -> Seq<char> {
        self.url@
    }

    pub closed spec fn spec_proxy(&self) -> Option<Seq<char>> {
        match self.proxy {
            Some(p) => Some(p@),
            None => None,
        }
    }

    /// Both counts are positive.
    pub open spec fn wf(&self) -> bool {
        &&& self.spec_total_requests() >= 1
        &&& self.spec_worker_count() >= 1
    }

    /// Checks the counts of a batch: there must be at least one request and
    /// at least one worker. The URL and proxy are kept as given.
    pub fn new(total_requests: usize, worker_count: usize, url: String, proxy: Option<String>) -> (r:
        Result<BatchConfig, ConfigError>)
        ensures
            total_requests == 0 ==> r == Err::<BatchConfig, ConfigError>(ConfigError::ZeroRequests),
            total_requests > 0 && worker_count == 0 ==> r == Err::<BatchConfig, ConfigError>(
                ConfigError::ZeroWorkers,
            ),
            total_requests > 0 && worker_count > 0 ==> r is Ok,
            r matches Ok(c) ==> {
                &&& c.wf()
                &&& c.spec_total_requests() == total_requests
                &&& c.spec_worker_count() == worker_count
                &&& c.spec_url() == url@
                &&& c.spec_proxy() == match proxy {
                    Some(p) => Some(p@),
                    None => None::<Seq<char>>,
                }
            },
    {
        if total_requests == 0 {
            Err(ConfigError::ZeroRequests)
        } else if worker_count == 0 {
            Err(ConfigError::ZeroWorkers)
        } else {
            Ok(BatchConfig { total_requests, worker_count, url, proxy })
        }
    }

    pub fn total_requests(&self) -> (r: usize)
        ensures
            r == self.spec_total_requests(),
    {
        self.total_requests
    }

    pub fn worker_count(&self) -> (r: usize)
        ensures
            r == self.spec_worker_count(),
    {
        self.worker_count
    }

    pub fn url(&self) -> (r: &String)
        ensures
            r@ == self.spec_url(),
    {
        &self.url
    }

    pub fn proxy(&self) -> (r: &Option<String>)
        ensures
            r.is_some() == self.spec_proxy().is_some(),
            r matches Some(p) ==> self.spec_proxy() == Some(p@),
    {
        &self.proxy
    }
}

} // verus!
