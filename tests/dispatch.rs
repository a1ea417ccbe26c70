use solana_rpc_client::config::{EndpointConfig, RetryConfig, RpcConfig};
use solana_rpc_client::dispatch::{backoff_delay_ms, Dispatcher, Step};
use solana_rpc_client::error::{RpcError, TransportError};
use solana_rpc_client::rate_limit::{Admission, RateLimitConfig};

fn endpoint(url: &str) -> EndpointConfig {
    EndpointConfig { url: url.to_string(), weight: 1, enabled: true, requests_per_second: None }
}

fn config(endpoints: Vec<EndpointConfig>, max_rps: u32, burst_size: u32, max_retries: u32) -> RpcConfig {
    RpcConfig {
        endpoints,
        max_concurrent_requests: 10,
        request_timeout_ms: 5000,
        retry: RetryConfig { max_retries, base_delay_ms: 100, max_delay_ms: 10_000 },
        rate_limit: RateLimitConfig { max_rps, burst_size },
        freshness_window_ms: 30_000,
    }
}

struct Run {
    result: Result<String, RpcError>,
    used: Vec<usize>,
    elapsed_ms: u64,
}

/// Drives one call through the dispatcher on a simulated clock. `respond`
/// gives, for an endpoint, the transport latency and outcome.
fn drive<F>(d: &mut Dispatcher, clock: &mut u64, respond: &mut F) -> Run
where
    F: FnMut(usize) -> (u64, Result<String, TransportError>),
{
    let start = *clock;
    let mut call = d.begin_call();
    let mut used = Vec::new();
    loop {
        let e = match d.select_endpoint(&mut call, *clock) {
            Ok(e) => e,
            Err(err) => return Run { result: Err(err), used, elapsed_ms: *clock - start },
        };
        loop {
            match d.acquire_permit(e, *clock).unwrap() {
                Admission::Granted => break,
                Admission::Wait(ms) => *clock += ms,
            }
        }
        used.push(e);
        let (latency, outcome) = respond(e);
        *clock += latency;
        match outcome {
            Ok(v) => {
                d.record_success(e, *clock - start, v.len() as u64, *clock).unwrap();
                return Run { result: Ok(v), used, elapsed_ms: *clock - start };
            }
            Err(err) => match d.record_failure(&mut call, e, err, *clock, 0) {
                Step::Fail(x) => return Run { result: Err(x), used, elapsed_ms: *clock - start },
                Step::Retry(ms) => *clock += ms,
            },
        }
    }
}

#[test]
fn test_default_config() {
    let config = RpcConfig::default();
    assert!(Dispatcher::new(config.clone(), 0).is_ok());
    assert_eq!(config.max_concurrent_requests, 10);
    assert_eq!(config.request_timeout_ms, 5000);
    assert_eq!(config.retry.max_retries, 3);
    assert_eq!(config.retry.base_delay_ms, 100);
    assert_eq!(config.rate_limit.max_rps, 100);
    assert_eq!(config.rate_limit.burst_size, 10);
    assert_eq!(config.endpoints[0].url, "http://localhost:8899");
    assert_eq!(config.endpoints[0].weight, 1);
}

#[test]
fn config_test_invalid_config() {
    let mut config = RpcConfig::default();
    config.max_concurrent_requests = 0;
    assert!(Dispatcher::new(config, 0).is_err());
}

#[test]
fn test_client_creation() {
    let config = RpcConfig::default();
    assert!(Dispatcher::new(config, 0).is_ok());
}

#[test]
fn test_invalid_rate_limit() {
    let mut config = RpcConfig::default();
    config.max_concurrent_requests = 0;
    assert!(Dispatcher::new(config, 0).is_err());
}

#[test]
fn test_invalid_url() {
    let mut config = RpcConfig::default();
    config.endpoints[0].url = "invalid-url".to_string();
    assert!(matches!(Dispatcher::new(config, 0), Err(RpcError::InvalidConfig(_))));
}

#[test]
fn test_client_config() {
    let config = RpcConfig::default();
    let d = Dispatcher::new(config.clone(), 0).unwrap();
    assert_eq!(d.get_config().max_concurrent_requests, config.max_concurrent_requests);
}

#[test]
fn test_no_enabled_endpoints() {
    let mut e = endpoint("http://endpoint1");
    e.enabled = false;
    let config = config(vec![e], 100, 10, 3);
    assert!(matches!(Dispatcher::new(config, 0), Err(RpcError::NoEnabledEndpoints)));
}

#[test]
fn construction_errors() {
    assert!(matches!(Dispatcher::new(config(vec![], 100, 10, 3), 0), Err(RpcError::InvalidConfig(_))));
    assert!(matches!(
        Dispatcher::new(config(vec![endpoint("http://a")], 0, 10, 3), 0),
        Err(RpcError::InvalidConfig(_))
    ));
    assert!(matches!(
        Dispatcher::new(config(vec![endpoint("http://a")], 10, 0, 3), 0),
        Err(RpcError::InvalidConfig(_))
    ));
    assert!(matches!(
        Dispatcher::new(config(vec![endpoint("http://a")], 10, 1, 0), 0),
        Err(RpcError::InvalidConfig(_))
    ));
    assert!(matches!(
        Dispatcher::new(config(vec![endpoint("ftp://example.com")], 10, 1, 3), 0),
        Err(RpcError::InvalidConfig(_))
    ));
    let mut heavy = endpoint("http://a");
    heavy.weight = 0;
    assert!(matches!(Dispatcher::new(config(vec![heavy], 10, 1, 3), 0), Err(RpcError::InvalidConfig(_))));
    let mut zero = endpoint("http://a");
    zero.requests_per_second = Some(0);
    assert!(matches!(Dispatcher::new(config(vec![zero], 10, 1, 3), 0), Err(RpcError::InvalidConfig(_))));
    assert!(Dispatcher::new(config(vec![endpoint("https://api.example.com/rpc")], 10, 1, 3), 0).is_ok());
}

#[test]
fn endpoint_rate_replaces_default() {
    let mut own = EndpointConfig::new("http://a".to_string(), 1);
    own.weight = 2;
    let mut d = Dispatcher::new(config(vec![own], 100, 1, 3), 0).unwrap();
    assert_eq!(d.rate_limiter(0).max_rps(), 1);
    assert_eq!(d.acquire_permit(0, 0).unwrap(), Admission::Granted);
    assert_eq!(d.acquire_permit(0, 0).unwrap(), Admission::Wait(1000));
    assert!(matches!(d.acquire_permit(3, 0), Err(RpcError::InvalidEndpoint(3))));
}

#[test]
fn fresh_snapshot_is_zero_and_healthy() {
    let d = Dispatcher::new(config(vec![endpoint("http://a"), endpoint("http://b")], 10, 1, 3), 0).unwrap();
    let snap = d.health_snapshot(5);
    assert_eq!(snap.len(), 2);
    for (i, r) in snap.iter().enumerate() {
        assert_eq!(r.url, if i == 0 { "http://a" } else { "http://b" });
        assert_eq!(r.success_count, 0);
        assert_eq!(r.failure_count, 0);
        assert_eq!(r.avg_ms, 0);
        assert_eq!(r.last_success_age_ms, None);
        assert_eq!(r.last_failure_age_ms, None);
        assert!(r.healthy);
    }
}

#[test]
fn happy_path() {
    let mut d = Dispatcher::new(config(vec![endpoint("http://a")], 100, 10, 3), 0).unwrap();
    let mut clock = 0u64;
    for _ in 0..10 {
        let run = drive(&mut d, &mut clock, &mut |_| (10, Ok("\"ok\"".to_string())));
        assert_eq!(run.result.unwrap(), "\"ok\"");
    }
    let snap = d.health_snapshot(clock);
    assert_eq!(snap[0].success_count, 10);
    assert!(snap[0].avg_ms >= 5 && snap[0].avg_ms <= 50);
    assert_eq!(snap[0].last_success_age_ms, Some(0));
}

#[test]
fn transient_failure_is_retried() {
    let mut d = Dispatcher::new(config(vec![endpoint("http://a")], 100, 10, 3), 0).unwrap();
    let mut clock = 0u64;
    let mut n = 0;
    let run = drive(&mut d, &mut clock, &mut |_| {
        n += 1;
        if n == 1 {
            (1, Err(TransportError::HttpStatus(500, "oops".to_string())))
        } else {
            (1, Ok("1".to_string()))
        }
    });
    assert!(run.result.is_ok());
    assert_eq!(run.used, vec![0, 0]);
    let snap = d.health_snapshot(clock);
    assert_eq!(snap[0].success_count, 1);
    assert_eq!(snap[0].failure_count, 1);
    assert!(run.elapsed_ms >= 100);
}

#[test]
fn non_retryable_error_fails_at_once() {
    let mut d = Dispatcher::new(config(vec![endpoint("http://a")], 100, 10, 3), 0).unwrap();
    let mut clock = 0u64;
    let run = drive(&mut d, &mut clock, &mut |_| (3, Err(TransportError::HttpStatus(400, "bad".to_string()))));
    assert!(matches!(run.result, Err(RpcError::HttpStatus(400, _))));
    assert_eq!(run.used, vec![0]);
    assert_eq!(run.elapsed_ms, 3);
    assert_eq!(d.health_snapshot(clock)[0].failure_count, 1);
}

#[test]
fn failover_to_healthy_endpoint() {
    let mut d = Dispatcher::new(config(vec![endpoint("http://a"), endpoint("http://b")], 100, 10, 3), 0).unwrap();
    let mut clock = 0u64;
    let mut respond = |e: usize| {
        if e == 0 {
            (1, Err(TransportError::HttpStatus(500, "down".to_string())))
        } else {
            (1, Ok("true".to_string()))
        }
    };
    let run = drive(&mut d, &mut clock, &mut respond);
    assert!(run.result.is_ok());
    assert_eq!(run.used, vec![0, 1]);
    assert_eq!(d.health_monitor().is_healthy(0, clock).unwrap(), false);
    assert_eq!(d.health_monitor().is_healthy(1, clock).unwrap(), true);
    let run = drive(&mut d, &mut clock, &mut respond);
    assert_eq!(run.used, vec![1]);
}

#[test]
fn rate_limited_calls_are_spaced() {
    let mut d = Dispatcher::new(config(vec![endpoint("http://a")], 2, 1, 3), 0).unwrap();
    let mut clock = 0u64;
    for _ in 0..5 {
        let run = drive(&mut d, &mut clock, &mut |_| (1, Ok("0".to_string())));
        assert!(run.result.is_ok());
    }
    assert!(clock >= 2000);
}

#[test]
fn all_endpoints_fail() {
    let mut d = Dispatcher::new(config(vec![endpoint("http://a"), endpoint("http://b")], 100, 10, 3), 0).unwrap();
    let mut clock = 0u64;
    for _ in 0..2 {
        let run = drive(&mut d, &mut clock, &mut |_| (1, Err(TransportError::Connection("refused".to_string()))));
        match run.result {
            Err(RpcError::AllEndpointsFailed(errors)) => {
                assert_eq!(errors.len(), 2);
                assert_ne!(errors[0].endpoint, errors[1].endpoint);
            }
            other => panic!("unexpected {:?}", other),
        }
        assert_eq!(run.used.len(), 2);
    }
}

#[test]
fn budget_of_one_never_retries() {
    let mut d = Dispatcher::new(config(vec![endpoint("http://a"), endpoint("http://b")], 100, 10, 1), 0).unwrap();
    let mut clock = 0u64;
    let run = drive(&mut d, &mut clock, &mut |_| (1, Err(TransportError::Timeout)));
    assert!(matches!(run.result, Err(RpcError::RetryExhausted(TransportError::Timeout))));
    assert_eq!(run.used, vec![0]);
}

#[test]
fn single_failing_endpoint_exhausts_budget() {
    let mut d = Dispatcher::new(config(vec![endpoint("http://a")], 100, 10, 3), 0).unwrap();
    let mut clock = 0u64;
    for _ in 0..3 {
        let run = drive(&mut d, &mut clock, &mut |_| (1, Err(TransportError::Timeout)));
        assert!(matches!(run.result, Err(RpcError::RetryExhausted(TransportError::Timeout))));
        assert_eq!(run.used, vec![0, 0, 0]);
    }
    assert_eq!(d.health_snapshot(clock)[0].failure_count, 9);
}

#[test]
fn too_many_requests_pauses_bucket_and_ends_rate_limited() {
    let mut d = Dispatcher::new(config(vec![endpoint("http://a")], 100, 10, 2), 0).unwrap();
    let mut call = d.begin_call();
    let e = d.select_endpoint(&mut call, 0).unwrap();
    assert_eq!(d.acquire_permit(e, 0).unwrap(), Admission::Granted);
    let step = d.record_failure(&mut call, e, TransportError::HttpStatus(429, String::new()), 0, 0);
    assert!(matches!(step, Step::Retry(200)));
    assert_eq!(d.rate_limiter(0).milli_tokens(), 0);
    assert_eq!(d.acquire_permit(e, 200).unwrap(), Admission::Wait(810));
    let step = d.record_failure(&mut call, e, TransportError::HttpStatus(429, String::new()), 300, 0);
    assert!(matches!(step, Step::Fail(RpcError::RateLimitExceeded)));
}

#[test]
fn failed_endpoint_is_refused_for_the_same_call() {
    let mut d = Dispatcher::new(config(vec![endpoint("http://a"), endpoint("http://b")], 100, 10, 3), 0).unwrap();
    let mut call = d.begin_call();
    let step = d.record_failure(&mut call, 0, TransportError::Timeout, 0, 7);
    assert!(matches!(step, Step::Retry(207)));
    assert_eq!(call.attempts(), 1);
    let step = d.record_failure(&mut call, 0, TransportError::Timeout, 0, 0);
    assert!(matches!(step, Step::Fail(RpcError::InvalidEndpoint(0))));
    assert_eq!(d.select_endpoint(&mut call, 0).unwrap(), 1);
}

#[test]
fn backoff_doubles_up_to_the_cap() {
    assert_eq!(backoff_delay_ms(100, 10_000, 0), 100);
    assert_eq!(backoff_delay_ms(100, 10_000, 1), 200);
    assert_eq!(backoff_delay_ms(100, 10_000, 3), 800);
    assert_eq!(backoff_delay_ms(100, 10_000, 7), 10_000);
    assert_eq!(backoff_delay_ms(100, 10_000, 1000), 10_000);
    assert_eq!(backoff_delay_ms(0, 10_000, 1000), 0);
}

#[test]
fn request_ids_increase() {
    let mut d = Dispatcher::new(RpcConfig::default(), 0).unwrap();
    let a = d.next_request_id();
    let b = d.next_request_id();
    assert_eq!(b, a + 1);
}
