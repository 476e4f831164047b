//! Wire contracts: the cache SET command encoding, the composed ping
//! request, endpoint authority parsing, and the launch plan.
use loadcore::ResponseError;
use loadcore::authority::parse_authority;
use loadcore::cache::CommandOutcome;
use loadcore::cache::set_complete;
use loadcore::config::Config;
use loadcore::launch::launch_plan;
use loadcore::metrics::Metrics;
use loadcore::ping::compose_ping_request;
use loadcore::ping::ping_request_now;
use loadcore::wire::u64_to_decimal;
use loadcore::workload::SetRequest;
use loadcore::workload::Ttl;

fn set_request(ttl: Option<Ttl>) -> SetRequest {
    SetRequest { key: b"kv".to_vec(), value: b"hello".to_vec(), ttl }
}

#[test]
fn decimal_rendering_is_exact() {
    assert_eq!(u64_to_decimal(0), b"0".to_vec());
    assert_eq!(u64_to_decimal(7), b"7".to_vec());
    assert_eq!(u64_to_decimal(30), b"30".to_vec());
    assert_eq!(u64_to_decimal(1500), b"1500".to_vec());
    assert_eq!(u64_to_decimal(u64::MAX), b"18446744073709551615".to_vec());
}

#[test]
fn whole_second_ttl_encodes_ex_seconds() {
    let mut m = Metrics::new();
    let args = loadcore::cache::set(&mut m, &set_request(Some(Ttl::from_secs(30))));
    assert_eq!(m.set_calls, 1);
    assert_eq!(
        args,
        vec![b"SET".to_vec(), b"kv".to_vec(), b"hello".to_vec(), b"EX".to_vec(), b"30".to_vec()]
    );
}

#[test]
fn subsecond_ttl_encodes_px_milliseconds() {
    let mut m = Metrics::new();
    let args = loadcore::cache::set(&mut m, &set_request(Some(Ttl::from_millis(1500))));
    assert_eq!(
        args,
        vec![b"SET".to_vec(), b"kv".to_vec(), b"hello".to_vec(), b"PX".to_vec(), b"1500".to_vec()]
    );
}

#[test]
fn absent_ttl_appends_no_expiry_argument() {
    let mut m = Metrics::new();
    let args = loadcore::cache::set(&mut m, &set_request(None));
    assert_eq!(args, vec![b"SET".to_vec(), b"kv".to_vec(), b"hello".to_vec()]);
}

#[test]
fn ttl_millis_truncates_nanoseconds() {
    // 2.5 ms expressed as 2 ms + 500 us: sub-millisecond part is dropped.
    let t = Ttl::new(0, 2_500_000);
    assert_eq!(t.as_millis_u64(), 2);
    let t = Ttl::from_millis(1500);
    assert_eq!(t.as_millis_u64(), 1500);
}

#[test]
fn completed_set_counts_stored() {
    let mut m = Metrics::new();
    let r = set_complete(&mut m, CommandOutcome::Completed);
    assert_eq!(r, Ok(()));
    assert_eq!(m.set_stored, 1);
    assert_eq!(m.set_ex, 0);
    assert_eq!(m.set_timeout, 0);
}

#[test]
fn failed_set_counts_exception() {
    let mut m = Metrics::new();
    let r = set_complete(&mut m, CommandOutcome::ProtocolError);
    assert_eq!(r, Err(ResponseError::Exception));
    assert_eq!(m.set_ex, 1);
    assert_eq!(m.set_stored, 0);
}

#[test]
fn timed_out_set_counts_timeout() {
    let mut m = Metrics::new();
    let r = set_complete(&mut m, CommandOutcome::TimedOut);
    assert_eq!(r, Err(ResponseError::Timeout));
    assert_eq!(m.set_timeout, 1);
    assert_eq!(m.set_stored, 0);
}

#[test]
fn composed_ping_request_is_exact() {
    let p = compose_ping_request(&b"cache.test:4433".to_vec(), &b"Thu, 01 Jan 1970 00:00:00 +0000".to_vec());
    assert_eq!(p.method, b"POST".to_vec());
    assert_eq!(p.uri, b"https://cache.test:4433/pingpong.Ping/Ping".to_vec());
    assert_eq!(p.headers.len(), 4);
    assert_eq!(p.headers[0], (b"content-type".to_vec(), b"application/grpc".to_vec()));
    assert_eq!(p.headers[1], (b"date".to_vec(), b"Thu, 01 Jan 1970 00:00:00 +0000".to_vec()));
    assert_eq!(p.headers[2], (b"user-agent".to_vec(), b"unknown/0.0.0".to_vec()));
    assert_eq!(p.headers[3], (b"te".to_vec(), b"trailers".to_vec()));
    assert_eq!(p.body, vec![0u8, 0, 0, 0, 0]);
}

#[test]
fn dated_ping_request_carries_a_date() {
    let p = ping_request_now(&b"cache.test".to_vec());
    assert_eq!(p.method, b"POST".to_vec());
    assert_eq!(p.uri, b"https://cache.test/pingpong.Ping/Ping".to_vec());
    assert_eq!(p.headers[1].0, b"date".to_vec());
    // The clock's rendering is not pinned, but it is never empty.
    assert!(!p.headers[1].1.is_empty());
}

#[test]
fn authority_with_port_parses() {
    let a = parse_authority(&b"cache.test:6443".to_vec()).unwrap();
    assert_eq!(a.host, b"cache.test".to_vec());
    assert_eq!(a.port, 6443);
}

#[test]
fn authority_without_port_defaults_to_443() {
    let a = parse_authority(&b"cache.test".to_vec()).unwrap();
    assert_eq!(a.host, b"cache.test".to_vec());
    assert_eq!(a.port, 443);
}

#[test]
fn authority_splits_at_last_colon() {
    let a = parse_authority(&b"a:b:80".to_vec()).unwrap();
    assert_eq!(a.host, b"a:b".to_vec());
    assert_eq!(a.port, 80);
}

#[test]
fn bad_authorities_are_rejected() {
    assert!(parse_authority(&b"".to_vec()).is_none());
    assert!(parse_authority(&b":80".to_vec()).is_none());
    assert!(parse_authority(&b"host:".to_vec()).is_none());
    assert!(parse_authority(&b"host:99999".to_vec()).is_none());
    assert!(parse_authority(&b"host:12x".to_vec()).is_none());
    assert!(parse_authority(&b"host:123456".to_vec()).is_none());
}

#[test]
fn launch_plan_covers_pools_and_endpoints() {
    let config = Config {
        request_timeout_ms: 250,
        poolsize: 2,
        concurrency: 3,
        endpoints: vec![b"a:1".to_vec(), b"b:2".to_vec()],
        ca_file: None,
    };
    let plan = launch_plan(&config);
    assert_eq!(plan.len(), 4);
    let endpoints: Vec<Vec<u8>> = plan.iter().map(|s| s.endpoint.clone()).collect();
    assert_eq!(endpoints, vec![b"a:1".to_vec(), b"b:2".to_vec(), b"a:1".to_vec(), b"b:2".to_vec()]);
    assert!(plan.iter().all(|s| s.workers == 3));
}

#[test]
fn config_accessors_read_back() {
    let config = Config {
        request_timeout_ms: 250,
        poolsize: 4,
        concurrency: 8,
        endpoints: vec![b"e:9".to_vec()],
        ca_file: Some(b"/tmp/ca.pem".to_vec()),
    };
    assert_eq!(config.request_timeout(), 250);
    assert_eq!(config.pool_size(), 4);
    assert_eq!(config.session_concurrency(), 8);
    assert_eq!(config.target_endpoints(), &vec![b"e:9".to_vec()]);
    assert_eq!(config.tls_ca_file(), &Some(b"/tmp/ca.pem".to_vec()));
}
