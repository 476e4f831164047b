//! Metrics recorder: process-wide counters and a latency histogram.
//!
//! Counters only ever grow, with one exception: the live-connection gauge
//! `connect_curr` is the only counter with a paired decrement (on connection
//! loss).  The recorder is a plain value here; the engine mutates it and every
//! step function states exactly which counters it touches.
use vstd::prelude::*;

verus! {

/// Mathematical model of the recorder: unbounded counters and the sequence of
/// latency observations (nanoseconds), in the order they were recorded.
#[verifier::ext_equal]
pub struct MetricsModel {
    /// Connect attempts counted on successful establishment.
    pub connect: nat,
    /// Successful connection establishments.
    pub connect_ok: nat,
    /// Failed connection attempts (any step: resolution, handshake, setup).
    pub connect_ex: nat,
    /// Live-connection gauge.
    pub connect_curr: nat,
    /// Work items consumed from the work source.
    pub request: nat,
    /// Work items the adapter did not recognize (including reconnect signals).
    pub request_unsupported: nat,
    /// Requests fully sent (stream finished) on the session.
    pub request_ok: nat,
    /// Responses received successfully.
    pub response_ok: nat,
    /// Operations that failed at some transport or protocol step.
    pub response_ex: nat,
    /// Operations whose response did not arrive before the deadline.
    pub response_timeout: nat,
    /// Successful ping round trips.
    pub ping_ok: nat,
    /// Cache SET operations attempted.
    pub set_calls: nat,
    /// Cache SET operations acknowledged by the server.
    pub set_stored: nat,
    /// Cache SET operations that failed at the protocol level.
    pub set_ex: nat,
    /// Cache SET operations that timed out.
    pub set_timeout: nat,
    /// Latency samples, in nanoseconds, oldest first.
    pub latency: Seq<u64>,
}

/// The executable recorder.  Fields are public so that contracts can speak of
/// them directly; the view packages them as `MetricsModel`.
pub struct Metrics {
    pub connect: u64,
    pub connect_ok: u64,
    pub connect_ex: u64,
    pub connect_curr: u64,
    pub request: u64,
    pub request_unsupported: u64,
    pub request_ok: u64,
    pub response_ok: u64,
    pub response_ex: u64,
    pub response_timeout: u64,
    pub ping_ok: u64,
    pub set_calls: u64,
    pub set_stored: u64,
    pub set_ex: u64,
    pub set_timeout: u64,
    pub latency: Vec<u64>,
}

impl View for Metrics {
    type V = MetricsModel;

    open spec fn view(&self) -> MetricsModel {
        MetricsModel {
            connect: self.connect as nat,
            connect_ok: self.connect_ok as nat,
            connect_ex: self.connect_ex as nat,
            connect_curr: self.connect_curr as nat,
            request: self.request as nat,
            request_unsupported: self.request_unsupported as nat,
            request_ok: self.request_ok as nat,
            response_ok: self.response_ok as nat,
            response_ex: self.response_ex as nat,
            response_timeout: self.response_timeout as nat,
            ping_ok: self.ping_ok as nat,
            set_calls: self.set_calls as nat,
            set_stored: self.set_stored as nat,
            set_ex: self.set_ex as nat,
            set_timeout: self.set_timeout as nat,
            latency: self.latency@,
        }
    }
}

impl MetricsModel {
    /// Room for `n` more increments on every counter; the machine limit the
    /// step functions ask of their callers.
    pub open spec fn has_room(&self, n: nat) -> bool {
        &&& self.connect + n <= u64::MAX
        &&& self.connect_ok + n <= u64::MAX
        &&& self.connect_ex + n <= u64::MAX
        &&& self.connect_curr + n <= u64::MAX
        &&& self.request + n <= u64::MAX
        &&& self.request_unsupported + n <= u64::MAX
        &&& self.request_ok + n <= u64::MAX
        &&& self.response_ok + n <= u64::MAX
        &&& self.response_ex + n <= u64::MAX
        &&& self.response_timeout + n <= u64::MAX
        &&& self.ping_ok + n <= u64::MAX
        &&& self.set_calls + n <= u64::MAX
        &&& self.set_stored + n <= u64::MAX
        &&& self.set_ex + n <= u64::MAX
        &&& self.set_timeout + n <= u64::MAX
    }
}

impl Metrics {
    /// A fresh recorder with every counter at zero and no samples.
    pub fn new() -> (m: Metrics)
        ensures
            m@ == (MetricsModel {
                connect: 0,
                connect_ok: 0,
                connect_ex: 0,
                connect_curr: 0,
                request: 0,
                request_unsupported: 0,
                request_ok: 0,
                response_ok: 0,
                response_ex: 0,
                response_timeout: 0,
                ping_ok: 0,
                set_calls: 0,
                set_stored: 0,
                set_ex: 0,
                set_timeout: 0,
                latency: Seq::<u64>::empty(),
            }),
    {
        let m = Metrics {
            connect: 0,
            connect_ok: 0,
            connect_ex: 0,
            connect_curr: 0,
            request: 0,
            request_unsupported: 0,
            request_ok: 0,
            response_ok: 0,
            response_ex: 0,
            response_timeout: 0,
            ping_ok: 0,
            set_calls: 0,
            set_stored: 0,
            set_ex: 0,
            set_timeout: 0,
            latency: Vec::new(),
        };
        proof {
            assert(m@.latency =~= Seq::<u64>::empty());
        }
        m
    }
}

} // verus!
