//! Worker task step machine (shared-session transports): consume a ready
//! session handle and a work item, execute a supported request over a fresh
//! logical stream, and account for exactly one outcome per consumed item.
//!
//! The surrounding loop performs the suspending work (queue receives, stream
//! operations, the deadline race); this module makes the per-iteration
//! decisions and the accounting.
use vstd::prelude::*;

use crate::metrics::Metrics;
use crate::metrics::MetricsModel;
use crate::workload::ClientWorkItemKind;
use crate::workload::is_ping_item;

verus! {

/// How far one supported request got on the shared session.  Steps run in
/// order: open a stream, send the framed message, finish the request body,
/// await the response; the first failure short-circuits the rest.
#[derive(Clone, Copy, PartialEq, Eq, Structural, Debug)]
pub enum StreamOutcome {
    /// Opening a new logical stream failed.
    OpenFailed,
    /// Sending the framed message failed.
    SendFailed,
    /// Finishing the request body failed.
    FinishFailed,
    /// The response arrived; end-to-end latency in nanoseconds.
    Responded(u64),
    /// The response await failed at the protocol or transport level.
    ResponseFailed,
    /// The response did not arrive before the deadline.
    ResponseTimedOut,
}

/// What one iteration of the worker loop observed.
pub enum WorkerEvent {
    /// The run flag cleared at the loop boundary.
    Stopped,
    /// The handoff queue receive failed; transient, try again.
    HandoffUnavailable,
    /// The work source is closed: no further work will ever arrive.
    SourceClosed,
    /// A handle and a work item were received; for a supported item the
    /// stream outcome says how far execution got (it is ignored otherwise,
    /// since an unsupported item performs no transport work).
    Work(ClientWorkItemKind, StreamOutcome),
}

/// What the task does after one iteration.
#[derive(Clone, Copy, PartialEq, Eq, Structural, Debug)]
pub enum WorkerStep {
    /// Loop again.
    Continue,
    /// Shut down cleanly: the run flag cleared.
    ExitOk,
    /// Exit with the channel-closed (I/O-category) condition.
    ExitClosed,
}

/// The counter effect of one supported request's stream outcome.
/// `request_ok` records a fully sent request (the stream finished), so it
/// accompanies every outcome in which the response was awaited at all.
pub open spec fn spec_record_stream(m: MetricsModel, exec: StreamOutcome) -> MetricsModel {
    match exec {
        StreamOutcome::OpenFailed => MetricsModel { response_ex: m.response_ex + 1, ..m },
        StreamOutcome::SendFailed => MetricsModel { response_ex: m.response_ex + 1, ..m },
        StreamOutcome::FinishFailed => MetricsModel { response_ex: m.response_ex + 1, ..m },
        StreamOutcome::Responded(lat) => MetricsModel {
            request_ok: m.request_ok + 1,
            response_ok: m.response_ok + 1,
            ping_ok: m.ping_ok + 1,
            latency: m.latency.push(lat),
            ..m
        },
        StreamOutcome::ResponseFailed => MetricsModel {
            request_ok: m.request_ok + 1,
            response_ex: m.response_ex + 1,
            ..m
        },
        StreamOutcome::ResponseTimedOut => MetricsModel {
            request_ok: m.request_ok + 1,
            response_timeout: m.response_timeout + 1,
            ..m
        },
    }
}

/// The counter effect of consuming one work item: the item is counted, then
/// either executed (supported) or dropped as unsupported.
pub open spec fn spec_worker_item(
    m: MetricsModel,
    item: ClientWorkItemKind,
    exec: StreamOutcome,
) -> MetricsModel {
    let counted = MetricsModel { request: m.request + 1, ..m };
    if is_ping_item(item) {
        spec_record_stream(counted, exec)
    } else {
        MetricsModel { request_unsupported: counted.request_unsupported + 1, ..counted }
    }
}

/// The counter effect and loop decision of one worker iteration.
pub open spec fn spec_worker_step(m: MetricsModel, ev: WorkerEvent) -> (MetricsModel, WorkerStep) {
    match ev {
        WorkerEvent::Stopped => (m, WorkerStep::ExitOk),
        WorkerEvent::HandoffUnavailable => (m, WorkerStep::Continue),
        WorkerEvent::SourceClosed => (m, WorkerStep::ExitClosed),
        WorkerEvent::Work(item, exec) => (spec_worker_item(m, item, exec), WorkerStep::Continue),
    }
}

/// Count one consumed work item and classify it.  Returns whether the adapter
/// recognizes it; an unrecognized item (a reconnect signal included) is
/// counted as unsupported and must not reach the transport.
pub fn worker_admit(m: &mut Metrics, item: &ClientWorkItemKind) -> (supported: bool)
    requires
        old(m)@.request < u64::MAX,
        old(m)@.request_unsupported < u64::MAX,
    ensures
        supported == is_ping_item(*item),
        supported ==> final(m)@ == (MetricsModel { request: old(m)@.request + 1, ..old(m)@ }),
        !supported ==> final(m)@ == (MetricsModel {
            request: old(m)@.request + 1,
            request_unsupported: old(m)@.request_unsupported + 1,
            ..old(m)@
        }),
{
    m.request = m.request + 1;
    let supported = crate::workload::ping_supports(item);
    if !supported {
        m.request_unsupported = m.request_unsupported + 1;
    }
    supported
}

/// Record the stream outcome of one supported request.
pub fn worker_record(m: &mut Metrics, exec: &StreamOutcome)
    requires
        old(m)@.request_ok < u64::MAX,
        old(m)@.response_ok < u64::MAX,
        old(m)@.response_ex < u64::MAX,
        old(m)@.response_timeout < u64::MAX,
        old(m)@.ping_ok < u64::MAX,
    ensures
        final(m)@ == spec_record_stream(old(m)@, *exec),
{
    match exec {
        StreamOutcome::OpenFailed => {
            m.response_ex = m.response_ex + 1;
        },
        StreamOutcome::SendFailed => {
            m.response_ex = m.response_ex + 1;
        },
        StreamOutcome::FinishFailed => {
            m.response_ex = m.response_ex + 1;
        },
        StreamOutcome::Responded(lat) => {
            m.request_ok = m.request_ok + 1;
            m.response_ok = m.response_ok + 1;
            m.ping_ok = m.ping_ok + 1;
            m.latency.push(*lat);
        },
        StreamOutcome::ResponseFailed => {
            m.request_ok = m.request_ok + 1;
            m.response_ex = m.response_ex + 1;
        },
        StreamOutcome::ResponseTimedOut => {
            m.request_ok = m.request_ok + 1;
            m.response_timeout = m.response_timeout + 1;
        },
    }
}

/// Apply one worker iteration: account for what was observed and decide
/// whether the loop continues, stops cleanly, or exits on a closed source.
pub fn worker_step(m: &mut Metrics, ev: &WorkerEvent) -> (step: WorkerStep)
    requires
        old(m)@.has_room(1),
    ensures
        final(m)@ == spec_worker_step(old(m)@, *ev).0,
        step == spec_worker_step(old(m)@, *ev).1,
{
    match ev {
        WorkerEvent::Stopped => WorkerStep::ExitOk,
        WorkerEvent::HandoffUnavailable => WorkerStep::Continue,
        WorkerEvent::SourceClosed => WorkerStep::ExitClosed,
        WorkerEvent::Work(item, exec) => {
            let supported = worker_admit(m, item);
            if supported {
                worker_record(m, exec);
            }
            proof {
                assert(m@ =~= spec_worker_step(old(m)@, *ev).0);
            }
            WorkerStep::Continue
        },
    }
}

/// The state and final decision after running iterations in order until one
/// of them ends the loop; `Continue` means the events ran out with the task
/// still looping.
pub open spec fn spec_run_worker(m: MetricsModel, evs: Seq<WorkerEvent>) -> (
    MetricsModel,
    WorkerStep,
) decreases evs.len()
{
    if evs.len() == 0 {
        (m, WorkerStep::Continue)
    } else {
        let stepped = spec_worker_step(m, evs[0]);
        if stepped.1 is Continue {
            spec_run_worker(stepped.0, evs.subrange(1, evs.len() as int))
        } else {
            stepped
        }
    }
}

/// One worker step keeps every counter within one increment.
proof fn lemma_step_room(m: MetricsModel, ev: WorkerEvent, n: nat)
    requires
        m.has_room(n + 1),
    ensures
        spec_worker_step(m, ev).0.has_room(n),
{
}

/// Run a worker over a recorded sequence of iteration observations, stopping
/// where the step machine decides to exit.
pub fn run_worker(m: &mut Metrics, events: &Vec<WorkerEvent>) -> (exit: WorkerStep)
    requires
        old(m)@.has_room(events@.len()),
    ensures
        final(m)@ == spec_run_worker(old(m)@, events@).0,
        exit == spec_run_worker(old(m)@, events@).1,
{
    let mut i: usize = 0;
    proof {
        assert(events@.subrange(0, events@.len() as int) =~= events@);
    }
    loop
        invariant
            i <= events@.len(),
            m@.has_room((events@.len() - i) as nat),
            spec_run_worker(old(m)@, events@) == spec_run_worker(
                m@,
                events@.subrange(i as int, events@.len() as int),
            ),
        decreases events@.len() - i,
    {
        if i == events.len() {
            proof {
                assert(events@.subrange(i as int, events@.len() as int) =~= Seq::<
                    WorkerEvent,
                >::empty());
            }
            return WorkerStep::Continue;
        }
        let ghost pre = m@;
        let ghost rest = events@.subrange(i as int, events@.len() as int);
        let step = worker_step(m, &events[i]);
        proof {
            lemma_step_room(pre, events@[i as int], (events@.len() - i - 1) as nat);
            assert(rest[0] == events@[i as int]);
            assert(rest.subrange(1, rest.len() as int) =~= events@.subrange(
                i as int + 1,
                events@.len() as int,
            ));
        }
        match step {
            WorkerStep::Continue => {
                i = i + 1;
            },
            WorkerStep::ExitOk => {
                return WorkerStep::ExitOk;
            },
            WorkerStep::ExitClosed => {
                return WorkerStep::ExitClosed;
            },
        }
    }
}

/// The total of the four per-request outcome counters: success, exception,
/// timeout, unsupported.
pub open spec fn spec_outcomes(m: MetricsModel) -> int {
    m.response_ok + m.response_ex + m.response_timeout + m.request_unsupported as int
}

/// Law: consuming one work item increments the consumed-request counter by
/// one and exactly one of the four outcome counters by one.
pub proof fn lemma_item_outcome_exclusive(
    m: MetricsModel,
    item: ClientWorkItemKind,
    exec: StreamOutcome,
)
    ensures
        spec_worker_item(m, item, exec).request == m.request + 1,
        spec_outcomes(spec_worker_item(m, item, exec)) == spec_outcomes(m) + 1,
        m.response_ok <= spec_worker_item(m, item, exec).response_ok <= m.response_ok + 1,
        m.response_ex <= spec_worker_item(m, item, exec).response_ex <= m.response_ex + 1,
        m.response_timeout <= spec_worker_item(m, item, exec).response_timeout
            <= m.response_timeout + 1,
        m.request_unsupported <= spec_worker_item(m, item, exec).request_unsupported
            <= m.request_unsupported + 1,
{
}

/// Law: over any run, the number of requests consumed equals the total growth
/// of the four outcome counters — every consumed item lands in exactly one
/// bucket.
pub proof fn lemma_worker_accounting(m: MetricsModel, evs: Seq<WorkerEvent>)
    ensures
        spec_run_worker(m, evs).0.request - m.request == spec_outcomes(spec_run_worker(m, evs).0)
            - spec_outcomes(m),
    decreases evs.len(),
{
    if evs.len() == 0 {
    } else {
        let stepped = spec_worker_step(m, evs[0]);
        if stepped.1 is Continue {
            lemma_worker_accounting(stepped.0, evs.subrange(1, evs.len() as int));
        }
    }
}

/// Law: a worker whose books are balanced — as a fresh recorder's are —
/// keeps them balanced: after any run, the total of the four outcome
/// counters equals the number of requests consumed from the work source.
pub proof fn lemma_worker_accounting_balanced(m: MetricsModel, evs: Seq<WorkerEvent>)
    requires
        spec_outcomes(m) == m.request,
    ensures
        spec_outcomes(spec_run_worker(m, evs).0) == spec_run_worker(m, evs).0.request,
{
    lemma_worker_accounting(m, evs);
}

/// Law: an unsupported work item (a reconnect signal or an unrecognized
/// request kind) increments only the consumed and unsupported counters, and
/// its effect does not depend on any stream outcome: no transport work is
/// observable for it.
pub proof fn lemma_unsupported_no_transport(
    m: MetricsModel,
    item: ClientWorkItemKind,
    exec_a: StreamOutcome,
    exec_b: StreamOutcome,
)
    requires
        !is_ping_item(item),
    ensures
        spec_worker_item(m, item, exec_a) == (MetricsModel {
            request: m.request + 1,
            request_unsupported: m.request_unsupported + 1,
            ..m
        }),
        spec_worker_item(m, item, exec_a) == spec_worker_item(m, item, exec_b),
{
    assert(spec_worker_item(m, item, exec_a) =~= MetricsModel {
        request: m.request + 1,
        request_unsupported: m.request_unsupported + 1,
        ..m
    });
}

/// Law: no worker iteration ever decreases a counter, and recorded latency
/// samples are never dropped or reordered: earlier observations stay a
/// prefix of later ones.
pub proof fn lemma_worker_counters_monotone(m: MetricsModel, ev: WorkerEvent)
    ensures
        spec_worker_step(m, ev).0.connect >= m.connect,
        spec_worker_step(m, ev).0.connect_ok >= m.connect_ok,
        spec_worker_step(m, ev).0.connect_ex >= m.connect_ex,
        spec_worker_step(m, ev).0.connect_curr >= m.connect_curr,
        spec_worker_step(m, ev).0.request >= m.request,
        spec_worker_step(m, ev).0.request_unsupported >= m.request_unsupported,
        spec_worker_step(m, ev).0.request_ok >= m.request_ok,
        spec_worker_step(m, ev).0.response_ok >= m.response_ok,
        spec_worker_step(m, ev).0.response_ex >= m.response_ex,
        spec_worker_step(m, ev).0.response_timeout >= m.response_timeout,
        spec_worker_step(m, ev).0.ping_ok >= m.ping_ok,
        m.latency.is_prefix_of(spec_worker_step(m, ev).0.latency),
{
}

/// Law: once the run flag is observed clear at a loop boundary, a worker
/// exits cleanly without touching a counter, and a pool manager's decision is
/// to stop — no further operations are issued.
pub proof fn lemma_stop_on_flag_clear(m: MetricsModel, st: crate::pool::PoolState)
    ensures
        spec_worker_step(m, WorkerEvent::Stopped) == (m, WorkerStep::ExitOk),
        crate::pool::spec_pool_decide(false, st) is Stop,
{
}

/// Whether an iteration observation carries a work item the ping adapter
/// recognizes.
pub open spec fn is_supported_work(ev: WorkerEvent) -> bool {
    ev matches WorkerEvent::Work(item, _) && is_ping_item(item)
}

/// Law: a work source that yields `n` supported requests and then closes
/// drives the worker through exactly those `n` items — each lands in exactly
/// one of the success/exception/timeout buckets, none as unsupported — after
/// which the task exits with the channel-closed condition.
pub proof fn lemma_source_closed_termination(m: MetricsModel, evs: Seq<WorkerEvent>, n: int)
    requires
        0 <= n,
        evs.len() == n + 1,
        forall|i: int| 0 <= i < n ==> is_supported_work(#[trigger] evs[i]),
        evs[n] is SourceClosed,
    ensures
        spec_run_worker(m, evs).1 is ExitClosed,
        spec_run_worker(m, evs).0.request == m.request + n,
        spec_run_worker(m, evs).0.response_ok + spec_run_worker(m, evs).0.response_ex
            + spec_run_worker(m, evs).0.response_timeout == m.response_ok + m.response_ex
            + m.response_timeout + n,
        spec_run_worker(m, evs).0.request_unsupported == m.request_unsupported,
    decreases n,
{
    if n == 0 {
    } else {
        let stepped = spec_worker_step(m, evs[0]);
        let rest = evs.subrange(1, evs.len() as int);
        assert(rest[n - 1] is SourceClosed);
        assert(forall|i: int| 0 <= i < n - 1 ==> is_supported_work(#[trigger] rest[i])) by {
            assert(forall|i: int| 0 <= i < n - 1 ==> rest[i] == evs[i + 1]);
        }
        lemma_source_closed_termination(stepped.0, rest, n - 1);
    }
}

} // verus!
