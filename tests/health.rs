use solana_rpc_client::error::RpcError;
use solana_rpc_client::health::{EndpointStats, HealthMonitor};

#[test]
fn test_stats_recording() {
    let mut monitor = HealthMonitor::new(2, 30_000);
    monitor.record_success(0, 100, 1000, 10).unwrap();
    monitor.record_success(0, 200, 2000, 20).unwrap();
    monitor.record_failure(0, "boom".to_string(), 30).unwrap();

    let stats = monitor.get_stats();
    assert_eq!(stats[0].successful_requests, 2);
    assert_eq!(stats[0].failed_requests, 1);
    assert_eq!(stats[0].total_bytes_transferred, 3000);
    assert!(stats[0].avg_response_time_ms > 0);
    assert_eq!(stats[0].avg_response_time_ms, 150);
    assert_eq!(stats[0].last_success, Some(20));
    assert_eq!(stats[0].last_failure, Some(30));
    assert_eq!(stats[0].last_error.as_deref(), Some("boom"));
}

#[test]
fn test_invalid_endpoint() {
    let mut monitor = HealthMonitor::new(2, 30_000);
    assert!(monitor.record_success(2, 100, 1000, 0).is_err());
    assert!(matches!(
        monitor.record_failure(2, "x".to_string(), 0),
        Err(RpcError::InvalidEndpoint(2))
    ));
    assert!(matches!(monitor.is_healthy(5, 0), Err(RpcError::InvalidEndpoint(5))));
}

#[test]
fn healthy_iff_untried_or_recent_success() {
    let mut monitor = HealthMonitor::new(1, 30_000);
    assert_eq!(monitor.is_healthy(0, 0).unwrap(), true);
    monitor.record_failure(0, "down".to_string(), 10).unwrap();
    assert_eq!(monitor.is_healthy(0, 10).unwrap(), false);
    monitor.record_success(0, 5, 0, 100).unwrap();
    assert_eq!(monitor.is_healthy(0, 30_100).unwrap(), true);
    assert_eq!(monitor.is_healthy(0, 30_101).unwrap(), false);
}

#[test]
fn score_values() {
    let mut monitor = HealthMonitor::new(2, 30_000);
    // No attempts: 1.0.
    assert_eq!(monitor.score(0, 0).unwrap(), 1_000_000);
    // One success in 9 ms: 1.0 * 1000 / 10 * 1.0 = 100.0.
    monitor.record_success(0, 9, 0, 0).unwrap();
    assert_eq!(monitor.score(0, 0).unwrap(), 100_000_000);
    // Stale: halved.
    assert_eq!(monitor.score(0, 40_000).unwrap(), 50_000_000);
    // Only failures: 0.
    monitor.record_failure(1, "x".to_string(), 0).unwrap();
    assert_eq!(monitor.score(1, 0).unwrap(), 0);
    // Half the attempts succeed: 0.5 * 1000 / 10 = 50.0.
    monitor.record_failure(0, "x".to_string(), 1).unwrap();
    assert_eq!(monitor.score(0, 1).unwrap(), 50_000_000);
}

#[test]
fn next_endpoint_prefers_score_then_weight_then_index() {
    let mut monitor = HealthMonitor::new(3, 30_000);
    let all = vec![true, true, true];
    // All untried: equal scores, the heavier weight wins, then the lower index.
    assert_eq!(monitor.next_endpoint(&vec![1, 3, 3], &all, 0), Some(1));
    assert_eq!(monitor.next_endpoint(&vec![1, 1, 1], &all, 0), Some(0));
    // A fast endpoint beats untried ones.
    monitor.record_success(2, 1, 0, 0).unwrap();
    assert_eq!(monitor.next_endpoint(&vec![1, 1, 1], &all, 0), Some(2));
    // Excluded endpoints are skipped; none eligible gives none.
    assert_eq!(monitor.next_endpoint(&vec![1, 1, 1], &vec![true, false, false], 0), Some(0));
    assert_eq!(monitor.next_endpoint(&vec![1, 1, 1], &vec![false, false, false], 0), None);
}

#[test]
fn unhealthy_fallback_picks_least_recently_tried() {
    let mut monitor = HealthMonitor::new(2, 30_000);
    monitor.record_failure(0, "a".to_string(), 50).unwrap();
    monitor.record_failure(1, "b".to_string(), 20).unwrap();
    assert_eq!(monitor.next_endpoint(&vec![1, 1], &vec![true, true], 60), Some(1));
}

#[test]
fn fresh_stats_are_zero() {
    let s = EndpointStats::new();
    assert_eq!(s.successful_requests, 0);
    assert_eq!(s.failed_requests, 0);
    assert!(s.is_healthy(1_000_000, 30_000));
    assert_eq!(s.last_attempt_ms(), None);
}
