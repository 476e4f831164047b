//! Work items and request payloads handed to the engine by the external work
//! source, and the duration type used for cache expirations.
use vstd::prelude::*;

verus! {

/// A duration with nanosecond precision, used for cache TTLs.
/// Well-formed values keep the sub-second part below one second.
#[derive(Clone, Copy, PartialEq, Eq, Structural, Debug)]
pub struct Ttl {
    pub secs: u64,
    pub nanos: u32,
}

impl Ttl {
    /// The sub-second part never reaches a whole second.
    pub open spec fn wf(&self) -> bool {
        self.nanos < 1_000_000_000
    }

    /// Whole milliseconds of the duration, truncated, as the unbounded value.
    pub open spec fn spec_millis(&self) -> int {
        self.secs * 1000 + self.nanos / 1_000_000
    }

    /// Whole milliseconds reduced modulo 2^64: the value a 64-bit narrowing
    /// of the milliseconds yields.
    pub open spec fn spec_millis_u64(&self) -> int {
        self.spec_millis() % 0x1_0000_0000_0000_0000
    }

    /// A whole number of seconds.
    pub fn from_secs(secs: u64) -> (t: Ttl)
        ensures
            t.wf(),
            t.secs == secs,
            t.nanos == 0,
    {
        Ttl { secs, nanos: 0 }
    }

    /// A duration given in milliseconds.
    pub fn from_millis(ms: u64) -> (t: Ttl)
        ensures
            t.wf(),
            t.secs == ms / 1000,
            t.nanos == (ms % 1000) * 1_000_000,
    {
        let secs: u64 = ms / 1000;
        let nanos: u32 = (ms % 1000) as u32 * 1_000_000;
        Ttl { secs, nanos }
    }

    /// Seconds and nanoseconds given separately.
    pub fn new(secs: u64, nanos: u32) -> (t: Ttl)
        requires
            nanos < 1_000_000_000,
        ensures
            t.wf(),
            t.secs == secs,
            t.nanos == nanos,
    {
        Ttl { secs, nanos }
    }

    /// Whole milliseconds, truncated to 64 bits as a narrowing cast would.
    pub fn as_millis_u64(&self) -> (ms: u64)
        requires
            self.wf(),
        ensures
            ms == self.spec_millis_u64(),
    {
        let wide: u128 = self.secs as u128 * 1000 + (self.nanos / 1_000_000) as u128;
        (wide % 0x1_0000_0000_0000_0000u128) as u64
    }
}

/// A cache SET request: store `value` under `key`, optionally expiring after
/// `ttl`.
pub struct SetRequest {
    pub key: Vec<u8>,
    pub value: Vec<u8>,
    pub ttl: Option<Ttl>,
}

impl SetRequest {
    /// A present TTL is well formed.
    pub open spec fn wf(&self) -> bool {
        match self.ttl {
            Some(t) => t.wf(),
            None => true,
        }
    }
}

/// A cache GET request; the exemplar adapters here do not handle it.
pub struct GetRequest {
    pub key: Vec<u8>,
}

/// A protocol-specific request payload.
pub enum ClientRequest {
    /// An RPC ping with an empty payload.
    Ping,
    /// A cache SET.
    CacheSet(SetRequest),
    /// A cache GET.
    CacheGet(GetRequest),
}

/// One item from the work source: a request to execute, or a control signal
/// asking the consumer to drop its session state and re-establish.
pub enum ClientWorkItemKind {
    Request(ClientRequest),
    Reconnect,
}

/// Whether the ping adapter recognizes a work item: only a ping request does;
/// a reconnect signal or any other request kind is unsupported.
pub open spec fn is_ping_item(item: ClientWorkItemKind) -> bool {
    match item {
        ClientWorkItemKind::Request(ClientRequest::Ping) => true,
        _ => false,
    }
}

/// The ping adapter's classification predicate: recognize exactly the ping
/// request.
pub fn ping_supports(item: &ClientWorkItemKind) -> (b: bool)
    ensures
        b == is_ping_item(*item),
{
    match item {
        ClientWorkItemKind::Request(ClientRequest::Ping) => true,
        _ => false,
    }
}

} // verus!
