//! Engine behavior: metrics accounting of the pool manager and worker step
//! machines, and the capacity-one handoff queue.
use loadcore::handoff::HandoffQueue;
use loadcore::metrics::Metrics;
use loadcore::pool::ConnectOutcome;
use loadcore::pool::PoolAction;
use loadcore::pool::PoolEvent;
use loadcore::pool::PoolState;
use loadcore::pool::pool_decide;
use loadcore::pool::pool_step;
use loadcore::worker::StreamOutcome;
use loadcore::worker::WorkerEvent;
use loadcore::worker::WorkerStep;
use loadcore::worker::run_worker;
use loadcore::worker::worker_admit;
use loadcore::worker::worker_record;
use loadcore::worker::worker_step;
use loadcore::workload::ClientRequest;
use loadcore::workload::ClientWorkItemKind;
use loadcore::workload::GetRequest;

#[test]
fn fresh_metrics_are_zero() {
    let m = Metrics::new();
    assert_eq!(m.connect, 0);
    assert_eq!(m.connect_ok, 0);
    assert_eq!(m.connect_ex, 0);
    assert_eq!(m.connect_curr, 0);
    assert_eq!(m.request, 0);
    assert_eq!(m.latency.len(), 0);
}

#[test]
fn handoff_holds_at_most_one_handle() {
    let mut q: HandoffQueue<u64> = HandoffQueue::new();
    assert!(q.publish(7).is_ok());
    // A second publish is refused until the first handle is consumed.
    let refused = q.publish(8);
    assert_eq!(refused, Err(8));
    assert_eq!(q.take(), Some(7));
    assert!(q.publish(8).is_ok());
    assert_eq!(q.take(), Some(8));
    assert_eq!(q.take(), None);
}

#[test]
fn resolve_failure_counts_only_connection_exception() {
    let mut m = Metrics::new();
    let next = pool_step(
        &mut m,
        PoolState::Disconnected,
        PoolEvent::Attempt(ConnectOutcome::ResolveFailed),
    );
    assert_eq!(m.connect_ex, 1);
    assert_eq!(m.connect, 0);
    assert_eq!(m.connect_ok, 0);
    assert_eq!(m.connect_curr, 0);
    // The slot stays disconnected: the next iteration retries.
    assert_eq!(next, PoolState::Disconnected);
    assert_eq!(pool_decide(true, next), PoolAction::AttemptConnect);
}

#[test]
fn established_connection_counts_attempt_success_and_gauge() {
    let mut m = Metrics::new();
    let next = pool_step(
        &mut m,
        PoolState::Disconnected,
        PoolEvent::Attempt(ConnectOutcome::Established),
    );
    assert_eq!(m.connect, 1);
    assert_eq!(m.connect_ok, 1);
    assert_eq!(m.connect_curr, 1);
    assert_eq!(m.connect_ex, 0);
    assert_eq!(next, PoolState::Connected);
    assert_eq!(pool_decide(true, next), PoolAction::PublishHandle);
}

#[test]
fn lost_connection_decrements_gauge() {
    let mut m = Metrics::new();
    let st = pool_step(
        &mut m,
        PoolState::Disconnected,
        PoolEvent::Attempt(ConnectOutcome::Established),
    );
    let next = pool_step(&mut m, st, PoolEvent::ConnectionLost);
    assert_eq!(m.connect_curr, 0);
    assert_eq!(m.connect_ok, 1);
    assert_eq!(next, PoolState::Disconnected);
}

#[test]
fn pool_decide_stops_when_flag_clear() {
    assert_eq!(pool_decide(false, PoolState::Disconnected), PoolAction::Stop);
    assert_eq!(pool_decide(false, PoolState::Connected), PoolAction::Stop);
}

#[test]
fn reconnect_item_counts_only_unsupported() {
    let mut m = Metrics::new();
    let supported = worker_admit(&mut m, &ClientWorkItemKind::Reconnect);
    assert!(!supported);
    assert_eq!(m.request, 1);
    assert_eq!(m.request_unsupported, 1);
    assert_eq!(m.request_ok, 0);
    assert_eq!(m.response_ok, 0);
    assert_eq!(m.response_ex, 0);
    assert_eq!(m.response_timeout, 0);
}

#[test]
fn unrecognized_request_kind_counts_only_unsupported() {
    let mut m = Metrics::new();
    let item = ClientWorkItemKind::Request(ClientRequest::CacheGet(GetRequest {
        key: b"k".to_vec(),
    }));
    let supported = worker_admit(&mut m, &item);
    assert!(!supported);
    assert_eq!(m.request, 1);
    assert_eq!(m.request_unsupported, 1);
}

#[test]
fn ping_item_is_supported() {
    let mut m = Metrics::new();
    let supported = worker_admit(&mut m, &ClientWorkItemKind::Request(ClientRequest::Ping));
    assert!(supported);
    assert_eq!(m.request, 1);
    assert_eq!(m.request_unsupported, 0);
}

#[test]
fn successful_ping_records_one_latency_sample() {
    let mut m = Metrics::new();
    worker_record(&mut m, &StreamOutcome::Responded(12345));
    assert_eq!(m.request_ok, 1);
    assert_eq!(m.response_ok, 1);
    assert_eq!(m.ping_ok, 1);
    assert_eq!(m.latency, vec![12345]);
}

#[test]
fn timed_out_ping_records_no_latency_sample() {
    let mut m = Metrics::new();
    worker_record(&mut m, &StreamOutcome::ResponseTimedOut);
    assert_eq!(m.request_ok, 1);
    assert_eq!(m.response_timeout, 1);
    assert_eq!(m.response_ok, 0);
    assert_eq!(m.latency.len(), 0);
}

#[test]
fn failed_stream_open_counts_exception() {
    let mut m = Metrics::new();
    worker_record(&mut m, &StreamOutcome::OpenFailed);
    assert_eq!(m.response_ex, 1);
    assert_eq!(m.request_ok, 0);
}

#[test]
fn worker_exits_cleanly_when_flag_clears() {
    let mut m = Metrics::new();
    let step = worker_step(&mut m, &WorkerEvent::Stopped);
    assert_eq!(step, WorkerStep::ExitOk);
    assert_eq!(m.request, 0);
}

#[test]
fn worker_continues_on_empty_handoff() {
    let mut m = Metrics::new();
    let step = worker_step(&mut m, &WorkerEvent::HandoffUnavailable);
    assert_eq!(step, WorkerStep::Continue);
    assert_eq!(m.request, 0);
}

#[test]
fn n_requests_then_closed_source_processes_exactly_n() {
    let mut m = Metrics::new();
    let mut events = Vec::new();
    for i in 0..5u64 {
        events.push(WorkerEvent::Work(
            ClientWorkItemKind::Request(ClientRequest::Ping),
            StreamOutcome::Responded(100 + i),
        ));
    }
    events.push(WorkerEvent::SourceClosed);
    let exit = run_worker(&mut m, &events);
    assert_eq!(exit, WorkerStep::ExitClosed);
    assert_eq!(m.request, 5);
    assert_eq!(m.response_ok, 5);
    assert_eq!(m.request_unsupported, 0);
    assert_eq!(m.latency, vec![100, 101, 102, 103, 104]);
}

#[test]
fn every_request_lands_in_exactly_one_bucket() {
    let mut m = Metrics::new();
    let events = vec![
        WorkerEvent::Work(
            ClientWorkItemKind::Request(ClientRequest::Ping),
            StreamOutcome::Responded(10),
        ),
        WorkerEvent::Work(
            ClientWorkItemKind::Request(ClientRequest::Ping),
            StreamOutcome::ResponseFailed,
        ),
        WorkerEvent::Work(
            ClientWorkItemKind::Request(ClientRequest::Ping),
            StreamOutcome::ResponseTimedOut,
        ),
        WorkerEvent::Work(ClientWorkItemKind::Reconnect, StreamOutcome::OpenFailed),
        WorkerEvent::SourceClosed,
    ];
    let exit = run_worker(&mut m, &events);
    assert_eq!(exit, WorkerStep::ExitClosed);
    assert_eq!(m.request, 4);
    let buckets = m.response_ok + m.response_ex + m.response_timeout + m.request_unsupported;
    assert_eq!(buckets, m.request);
}
