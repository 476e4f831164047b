//! Cache protocol adapter (exclusive-connection shape): encoding of the SET
//! command and the outcome accounting of one timed operation.
//!
//! The wire contract: `SET <key> <value> [EX <seconds> | PX <milliseconds>]`,
//! where `EX` with whole seconds is used when the TTL has no sub-second
//! component, and `PX` with whole milliseconds otherwise.
use vstd::prelude::*;

use crate::ResponseError;
use crate::metrics::Metrics;
use crate::metrics::MetricsModel;
use crate::wire::spec_ascii;
use crate::wire::spec_decimal;
use crate::wire::u64_to_decimal;
use crate::wire::views_of;
use crate::wire::ascii_bytes;
use crate::workload::SetRequest;

verus! {

/// What the transport reported for one command raced against its deadline.
#[derive(Clone, Copy, PartialEq, Eq, Structural, Debug)]
pub enum CommandOutcome {
    /// The command completed and the server acknowledged it.
    Completed,
    /// The command failed at the protocol or transport level.
    ProtocolError,
    /// The deadline elapsed before the command completed.
    TimedOut,
}

/// The argument list of the SET command for one request.
pub open spec fn spec_set_args(r: SetRequest) -> Seq<Seq<u8>> {
    let base = seq![spec_ascii("SET"@), r.key@, r.value@];
    match r.ttl {
        None => base,
        Some(t) => if t.nanos == 0 {
            base + seq![spec_ascii("EX"@), spec_decimal(t.secs as int)]
        } else {
            base + seq![spec_ascii("PX"@), spec_decimal(t.spec_millis_u64())]
        },
    }
}

/// Begin one SET operation: count the attempt and encode the wire command.
/// The caller issues the returned arguments against its exclusively owned
/// connection, racing the configured timeout, and then reports the outcome to
/// [`set_complete`].
pub fn set(m: &mut Metrics, request: &SetRequest) -> (args: Vec<Vec<u8>>)
    requires
        old(m)@.set_calls < u64::MAX,
        request.wf(),
    ensures
        final(m)@ == (MetricsModel { set_calls: old(m)@.set_calls + 1, ..old(m)@ }),
        views_of(args@) == spec_set_args(*request),
{
    m.set_calls = m.set_calls + 1;
    let mut args: Vec<Vec<u8>> = Vec::new();
    proof {
        reveal_strlit("SET");
        reveal_strlit("EX");
        reveal_strlit("PX");
    }
    args.push(ascii_bytes("SET"));
    args.push(request.key.clone());
    args.push(request.value.clone());
    match &request.ttl {
        None => {},
        Some(t) => {
            if t.nanos == 0 {
                args.push(ascii_bytes("EX"));
                args.push(u64_to_decimal(t.secs));
            } else {
                args.push(ascii_bytes("PX"));
                args.push(u64_to_decimal(t.as_millis_u64()));
            }
        },
    }
    proof {
        assert(views_of(args@) =~= spec_set_args(*request));
    }
    args
}

/// Finish one SET operation: count exactly one of the three outcomes and
/// report it as a typed result.  A protocol failure or a timeout is terminal
/// for this one operation only; the connection is kept.
pub fn set_complete(m: &mut Metrics, outcome: CommandOutcome) -> (r: Result<(), ResponseError>)
    requires
        old(m)@.has_room(1),
    ensures
        final(m)@ == spec_set_complete(old(m)@, outcome),
        r == spec_set_result(outcome),
{
    match outcome {
        CommandOutcome::Completed => {
            m.set_stored = m.set_stored + 1;
            Ok(())
        },
        CommandOutcome::ProtocolError => {
            m.set_ex = m.set_ex + 1;
            Err(ResponseError::Exception)
        },
        CommandOutcome::TimedOut => {
            m.set_timeout = m.set_timeout + 1;
            Err(ResponseError::Timeout)
        },
    }
}

/// The counter effect of finishing one SET operation.
pub open spec fn spec_set_complete(m: MetricsModel, outcome: CommandOutcome) -> MetricsModel {
    match outcome {
        CommandOutcome::Completed => MetricsModel { set_stored: m.set_stored + 1, ..m },
        CommandOutcome::ProtocolError => MetricsModel { set_ex: m.set_ex + 1, ..m },
        CommandOutcome::TimedOut => MetricsModel { set_timeout: m.set_timeout + 1, ..m },
    }
}

/// The typed result of finishing one SET operation.
pub open spec fn spec_set_result(outcome: CommandOutcome) -> Result<(), ResponseError> {
    match outcome {
        CommandOutcome::Completed => Ok(()),
        CommandOutcome::ProtocolError => Err(ResponseError::Exception),
        CommandOutcome::TimedOut => Err(ResponseError::Timeout),
    }
}

/// Law: a present TTL with no sub-second component is encoded as `EX` with
/// whole seconds; one with a sub-second component as `PX` with whole
/// milliseconds; an absent TTL appends nothing after the key and value.
pub proof fn lemma_ttl_encoding(r: SetRequest)
    ensures
        r.ttl is None ==> spec_set_args(r) == seq![
            spec_ascii("SET"@),
            r.key@,
            r.value@,
        ],
        r.ttl matches Some(t) ==> (if t.nanos == 0 {
            spec_set_args(r) == seq![
                spec_ascii("SET"@),
                r.key@,
                r.value@,
                spec_ascii("EX"@),
                spec_decimal(t.secs as int),
            ]
        } else {
            spec_set_args(r) == seq![
                spec_ascii("SET"@),
                r.key@,
                r.value@,
                spec_ascii("PX"@),
                spec_decimal(t.spec_millis_u64()),
            ]
        }),
{
    match r.ttl {
        None => {},
        Some(t) => {
            if t.nanos == 0 {
                assert(spec_set_args(r) =~= seq![
                    spec_ascii("SET"@),
                    r.key@,
                    r.value@,
                    spec_ascii("EX"@),
                    spec_decimal(t.secs as int),
                ]);
            } else {
                assert(spec_set_args(r) =~= seq![
                    spec_ascii("SET"@),
                    r.key@,
                    r.value@,
                    spec_ascii("PX"@),
                    spec_decimal(t.spec_millis_u64()),
                ]);
            }
        },
    }
}

/// Law: each outcome of one SET operation increments exactly one of the three
/// outcome counters and leaves every other counter unchanged.
pub proof fn lemma_set_outcome_exclusive(m: MetricsModel, outcome: CommandOutcome)
    ensures
        spec_set_complete(m, outcome).set_stored + spec_set_complete(m, outcome).set_ex
            + spec_set_complete(m, outcome).set_timeout == m.set_stored + m.set_ex + m.set_timeout
            + 1,
        spec_set_complete(m, outcome).set_calls == m.set_calls,
        spec_set_complete(m, outcome).latency == m.latency,
{
}

} // verus!
