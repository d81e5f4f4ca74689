use std::time::{SystemTime, UNIX_EPOCH};
use time_api::health::HealthStatus;
use time_api::models::CheckStatus;
use time_api::models::HealthChecks;
use time_api::publish::{broker_endpoint, BrokerError};
use time_api::publish::{health_message, heartbeat_message, nanos_until_next_second, topic_for, HealthPublisher};

#[test]
fn test_pps_timing() {
    let now = SystemTime::now();
    let duration = now.duration_since(UNIX_EPOCH).unwrap();
    let current_nanos = duration.subsec_nanos();
    let nanos_until_next_second = nanos_until_next_second(current_nanos);
    assert!(nanos_until_next_second > 0);
    assert!(nanos_until_next_second <= 1_000_000_000);
}

#[test]
fn heartbeat_delay_values() {
    assert_eq!(nanos_until_next_second(0), 1_000_000_000);
    assert_eq!(nanos_until_next_second(999_999_999), 1);
    assert_eq!(nanos_until_next_second(250_000_000), 750_000_000);
    assert_eq!(heartbeat_message(1_000_000_000).unix, 1_000_000_000);
}

#[test]
fn heartbeat_seconds_are_consecutive() {
    let mut t: u64 = 1_700_000_000 * 1_000_000_000 + 123_456_789;
    let mut last: Option<u64> = None;
    for lag in [10u64, 2_000_000, 500, 999_000_000, 0] {
        let wait = nanos_until_next_second((t % 1_000_000_000) as u32) as u64;
        t += wait + lag;
        let second = t / 1_000_000_000;
        if let Some(prev) = last {
            assert_eq!(second, prev + 1);
        }
        last = Some(second);
    }
}

#[test]
fn debounce_waits_for_interval() {
    let mut p = HealthPublisher::new(0);
    assert!(!p.should_publish(HealthStatus::Healthy, 4999));
    assert!(p.should_publish(HealthStatus::Healthy, 5000));
    p.mark_published(HealthStatus::Healthy, 5000);
    assert!(!p.should_publish(HealthStatus::Healthy, 20000));
    assert!(!p.should_publish(HealthStatus::Degraded, 6000));
    assert!(!p.should_publish(HealthStatus::Unhealthy, 9000));
    assert!(p.should_publish(HealthStatus::Unhealthy, 10000));
}

#[test]
fn flap_inside_window_is_never_published() {
    let mut p = HealthPublisher::new(0);
    p.mark_published(HealthStatus::Healthy, 5000);
    assert!(!p.should_publish(HealthStatus::Degraded, 6000));
    assert!(!p.should_publish(HealthStatus::Healthy, 7000));
    assert!(!p.should_publish(HealthStatus::Healthy, 11000));
    assert_eq!(p.last_status, Some(HealthStatus::Healthy));
}

#[test]
fn health_message_fields() {
    let checks = HealthChecks { system_clock: CheckStatus::ok(), chrony: CheckStatus::warning("x") };
    let m = health_message(HealthStatus::Degraded, 42, checks, None);
    assert_eq!(m.status, "degraded");
    assert_eq!(m.timestamp, 42);
    assert!(m.time_quality.is_none());
    assert_eq!(topic_for("time-api", "health"), "time-api/health");
}

#[test]
fn broker_endpoint_host_and_port() {
    assert_eq!(broker_endpoint("mqtt://broker.local:1884").unwrap(), ("broker.local".to_string(), 1884));
    assert_eq!(broker_endpoint("mqtt://broker.local").unwrap(), ("broker.local".to_string(), 1883));
    assert_eq!(broker_endpoint("not a url").unwrap_err(), BrokerError::InvalidUrl);
    assert_eq!(broker_endpoint("mqtt:nohost").unwrap_err(), BrokerError::MissingHost);
}
