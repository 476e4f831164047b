//! Configuration consumed by the engine: read-only, clonable, exposing the
//! request timeout, the desired pool size, the per-session concurrency, the
//! target endpoints, and the optional extra trust-root file.
use vstd::prelude::*;

verus! {

/// Engine configuration.  A TLS CA file named here is merged into the system
/// trust roots, never replacing them.
#[derive(Clone)]
pub struct Config {
    pub request_timeout_ms: u64,
    pub poolsize: usize,
    pub concurrency: usize,
    pub endpoints: Vec<Vec<u8>>,
    pub ca_file: Option<Vec<u8>>,
}

impl Config {
    /// The deadline applied to each operation, in milliseconds.
    pub fn request_timeout(&self) -> (t: u64)
        ensures
            t == self.request_timeout_ms,
    {
        self.request_timeout_ms
    }

    /// Number of logical connection slots per endpoint.
    pub fn pool_size(&self) -> (n: usize)
        ensures
            n == self.poolsize,
    {
        self.poolsize
    }

    /// Number of worker tasks sharing one slot's handoff queue on a
    /// multiplexed transport.
    pub fn session_concurrency(&self) -> (n: usize)
        ensures
            n == self.concurrency,
    {
        self.concurrency
    }

    /// The target endpoints, in authority form.
    pub fn target_endpoints(&self) -> (e: &Vec<Vec<u8>>)
        ensures
            e == &self.endpoints,
    {
        &self.endpoints
    }

    /// The optional extra trust-root file.
    pub fn tls_ca_file(&self) -> (f: &Option<Vec<u8>>)
        ensures
            f == &self.ca_file,
    {
        &self.ca_file
    }
}

} // verus!
