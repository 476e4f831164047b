//! Pool manager state machine: one logical slot against one endpoint,
//! repeatedly establishing a connection/session and republishing the ready
//! handle until shutdown.
//!
//! The surrounding loop performs the suspending work (resolution, handshake,
//! publishing into the handoff queue); this module makes the decisions and
//! does the accounting, one loop iteration at a time.
use vstd::prelude::*;

use crate::metrics::Metrics;
use crate::metrics::MetricsModel;

verus! {

/// Whether the slot currently owns a usable connection/session.
#[derive(Clone, Copy, PartialEq, Eq, Structural, Debug)]
pub enum PoolState {
    Disconnected,
    Connected,
}

/// What the manager should do this iteration.
#[derive(Clone, Copy, PartialEq, Eq, Structural, Debug)]
pub enum PoolAction {
    /// The run flag cleared: leave the loop.
    Stop,
    /// No usable connection: attempt to establish one.
    AttemptConnect,
    /// A connection is live: publish (another clone of) its handle.
    PublishHandle,
}

/// How far one establishment attempt got.  Every step short of full
/// establishment is one aggregate failure.
#[derive(Clone, Copy, PartialEq, Eq, Structural, Debug)]
pub enum ConnectOutcome {
    /// Address resolution failed.
    ResolveFailed,
    /// The local transport endpoint could not be set up.
    SetupFailed,
    /// The transport-level handshake failed.
    ConnectFailed,
    /// The protocol-level handshake on top failed.
    HandshakeFailed,
    /// A ready handle was obtained.
    Established,
}

/// What happened during one iteration of the manager loop.
#[derive(Clone, Copy, PartialEq, Eq, Structural, Debug)]
pub enum PoolEvent {
    /// An establishment attempt ran, with this outcome.
    Attempt(ConnectOutcome),
    /// The live handle was offered to the handoff queue (taken or not; a
    /// refused offer is retried next iteration and counts nothing).
    Published,
    /// The underlying connection was observed dead; its handle is dropped.
    ConnectionLost,
}

/// The decision at the top of each loop iteration.
pub open spec fn spec_pool_decide(running: bool, st: PoolState) -> PoolAction {
    if !running {
        PoolAction::Stop
    } else if st is Disconnected {
        PoolAction::AttemptConnect
    } else {
        PoolAction::PublishHandle
    }
}

/// Decide what the manager does this iteration: stop once the run flag
/// clears, otherwise connect when disconnected and republish when connected.
pub fn pool_decide(running: bool, st: PoolState) -> (a: PoolAction)
    ensures
        a == spec_pool_decide(running, st),
{
    if !running {
        PoolAction::Stop
    } else {
        match st {
            PoolState::Disconnected => PoolAction::AttemptConnect,
            PoolState::Connected => PoolAction::PublishHandle,
        }
    }
}

/// The counter effect and next state of one iteration's event.
///
/// A fully established connection counts an attempt, a success, and one more
/// live connection.  A failed attempt counts only the aggregate
/// connection-exception and leaves the slot disconnected for an immediate
/// retry.  Publishing counts nothing.  A lost connection is the one paired
/// decrement of the live gauge.
pub open spec fn spec_pool_step(m: MetricsModel, st: PoolState, ev: PoolEvent) -> (
    MetricsModel,
    PoolState,
) {
    match ev {
        PoolEvent::Attempt(ConnectOutcome::Established) => (
            MetricsModel {
                connect: m.connect + 1,
                connect_ok: m.connect_ok + 1,
                connect_curr: m.connect_curr + 1,
                ..m
            },
            PoolState::Connected,
        ),
        PoolEvent::Attempt(_) => (
            MetricsModel { connect_ex: m.connect_ex + 1, ..m },
            PoolState::Disconnected,
        ),
        PoolEvent::Published => (m, PoolState::Connected),
        PoolEvent::ConnectionLost => (
            MetricsModel { connect_curr: (m.connect_curr - 1) as nat, ..m },
            PoolState::Disconnected,
        ),
    }
}

/// Apply one iteration's event to the metrics and the slot state.
pub fn pool_step(m: &mut Metrics, st: PoolState, ev: PoolEvent) -> (next: PoolState)
    requires
        old(m)@.has_room(1),
        ev matches PoolEvent::Attempt(_) ==> st is Disconnected,
        ev is Published ==> st is Connected,
        ev is ConnectionLost ==> st is Connected && old(m)@.connect_curr >= 1,
    ensures
        final(m)@ == spec_pool_step(old(m)@, st, ev).0,
        next == spec_pool_step(old(m)@, st, ev).1,
{
    match ev {
        PoolEvent::Attempt(outcome) => {
            match outcome {
                ConnectOutcome::Established => {
                    m.connect = m.connect + 1;
                    m.connect_ok = m.connect_ok + 1;
                    m.connect_curr = m.connect_curr + 1;
                    PoolState::Connected
                },
                _ => {
                    m.connect_ex = m.connect_ex + 1;
                    PoolState::Disconnected
                },
            }
        },
        PoolEvent::Published => PoolState::Connected,
        PoolEvent::ConnectionLost => {
            m.connect_curr = m.connect_curr - 1;
            PoolState::Disconnected
        },
    }
}

/// Law: a failed establishment attempt (address resolution included)
/// increments only the connection-exception counter — neither the success
/// counter nor the live gauge — and leaves the slot disconnected, so the next
/// iteration retries.
pub proof fn lemma_failed_attempt_counts(m: MetricsModel, st: PoolState, outcome: ConnectOutcome)
    requires
        !(outcome is Established),
    ensures
        spec_pool_step(m, st, PoolEvent::Attempt(outcome)).0 == (MetricsModel {
            connect_ex: m.connect_ex + 1,
            ..m
        }),
        spec_pool_step(m, st, PoolEvent::Attempt(outcome)).0.connect_ok == m.connect_ok,
        spec_pool_step(m, st, PoolEvent::Attempt(outcome)).0.connect_curr == m.connect_curr,
        spec_pool_step(m, st, PoolEvent::Attempt(outcome)).1 is Disconnected,
        spec_pool_decide(true, spec_pool_step(m, st, PoolEvent::Attempt(outcome)).1)
            is AttemptConnect,
{
}

/// Law: no pool manager iteration ever decreases a counter, with one
/// exception: the live-connection gauge, and only when the connection is
/// lost — the gauge's sole paired decrement.
pub proof fn lemma_pool_counters_monotone(m: MetricsModel, st: PoolState, ev: PoolEvent)
    ensures
        spec_pool_step(m, st, ev).0.connect >= m.connect,
        spec_pool_step(m, st, ev).0.connect_ok >= m.connect_ok,
        spec_pool_step(m, st, ev).0.connect_ex >= m.connect_ex,
        spec_pool_step(m, st, ev).0.request >= m.request,
        spec_pool_step(m, st, ev).0.request_unsupported >= m.request_unsupported,
        spec_pool_step(m, st, ev).0.request_ok >= m.request_ok,
        spec_pool_step(m, st, ev).0.response_ok >= m.response_ok,
        spec_pool_step(m, st, ev).0.response_ex >= m.response_ex,
        spec_pool_step(m, st, ev).0.response_timeout >= m.response_timeout,
        spec_pool_step(m, st, ev).0.ping_ok >= m.ping_ok,
        spec_pool_step(m, st, ev).0.latency == m.latency,
        !(ev is ConnectionLost) ==> spec_pool_step(m, st, ev).0.connect_curr >= m.connect_curr,
{
}

/// Law: while a slot is connected it accounts for one live connection: every
/// step preserves `connected implies gauge >= 1` for a slot that respects the
/// event preconditions of [`pool_step`].
pub proof fn lemma_live_gauge_invariant(m: MetricsModel, st: PoolState, ev: PoolEvent)
    requires
        st is Connected ==> m.connect_curr >= 1,
        ev matches PoolEvent::Attempt(_) ==> st is Disconnected,
        ev is Published ==> st is Connected,
        ev is ConnectionLost ==> st is Connected,
    ensures
        spec_pool_step(m, st, ev).1 is Connected ==> spec_pool_step(m, st, ev).0.connect_curr >= 1,
{
}

} // verus!
