use time_api::health::{check_chrony, check_health, check_system_clock, determine_status, evaluate, HealthStatus};
use time_api::models::{CheckLevel, CheckStatus, Offset, TimeQuality};

fn quality(stratum: u8, offset: &str, reference: &str) -> Option<TimeQuality> {
    Some(TimeQuality {
        stratum,
        offset_seconds: Offset { negative: false, magnitude: offset.to_string() },
        reference_id: reference.to_string(),
        leap_status: "Normal".to_string(),
    })
}

#[test]
fn test_determine_status_healthy() {
    let system_clock = CheckStatus::ok();
    let chrony = CheckStatus::ok();
    let quality = quality(1, "0.000001", "PPS");
    let status = determine_status(&system_clock, &chrony, &quality);
    assert_eq!(status, "healthy");
}

#[test]
fn test_determine_status_degraded_stratum() {
    let system_clock = CheckStatus::ok();
    let chrony = CheckStatus::ok();
    let quality = quality(5, "0.000001", "NTP");
    let status = determine_status(&system_clock, &chrony, &quality);
    assert_eq!(status, "degraded");
}

#[test]
fn test_determine_status_unhealthy_stratum() {
    let system_clock = CheckStatus::ok();
    let chrony = CheckStatus::ok();
    let quality = quality(16, "0.0", "NONE");
    let status = determine_status(&system_clock, &chrony, &quality);
    assert_eq!(status, "unhealthy");
}

#[test]
fn test_determine_status_degraded_no_chrony() {
    let system_clock = CheckStatus::ok();
    let chrony = CheckStatus::warning("chrony unavailable");
    let quality = None;
    let status = determine_status(&system_clock, &chrony, &quality);
    assert_eq!(status, "degraded");
}

#[test]
fn test_determine_status_unhealthy_clock() {
    let system_clock = CheckStatus::error("Clock error");
    let chrony = CheckStatus::ok();
    let quality = None;
    let status = determine_status(&system_clock, &chrony, &quality);
    assert_eq!(status, "unhealthy");
}

#[test]
fn clock_error_dominates_good_quality() {
    let clock = CheckStatus::error("Clock error");
    let chrony = CheckStatus::warning("chrony unavailable");
    assert_eq!(evaluate(&clock, &chrony, &quality(1, "0.1", "PPS")), HealthStatus::Unhealthy);
    assert_eq!(evaluate(&clock, &CheckStatus::ok(), &quality(16, "0.1", "X")), HealthStatus::Unhealthy);
}

#[test]
fn missing_daemon_is_degraded_even_with_stratum() {
    let clock = CheckStatus::ok();
    let chrony = CheckStatus::warning("down");
    assert_eq!(evaluate(&clock, &chrony, &quality(1, "0.1", "PPS")), HealthStatus::Degraded);
    assert_eq!(evaluate(&clock, &chrony, &quality(16, "0.1", "PPS")), HealthStatus::Degraded);
}

#[test]
fn stratum_boundaries() {
    let ok = CheckStatus::ok();
    assert_eq!(evaluate(&ok, &ok, &quality(3, "0", "A")), HealthStatus::Healthy);
    assert_eq!(evaluate(&ok, &ok, &quality(4, "0", "A")), HealthStatus::Degraded);
    assert_eq!(evaluate(&ok, &ok, &quality(15, "0", "A")), HealthStatus::Degraded);
    assert_eq!(evaluate(&ok, &ok, &quality(16, "0", "A")), HealthStatus::Unhealthy);
    assert_eq!(evaluate(&ok, &ok, &None), HealthStatus::Healthy);
}

#[test]
fn evaluate_twice_gives_same_status() {
    let ok = CheckStatus::ok();
    let q = quality(7, "0.5", "NTP");
    assert_eq!(evaluate(&ok, &ok, &q), evaluate(&ok, &ok, &q));
}

#[test]
fn clock_window_edges() {
    assert_eq!(check_system_clock(Ok(1577836800)).status, CheckLevel::Normal);
    assert_eq!(check_system_clock(Ok(4102444800)).status, CheckLevel::Normal);
    let low = check_system_clock(Ok(1577836799));
    assert_eq!(low.status, CheckLevel::Failure);
    assert_eq!(low.message.unwrap(), "System clock out of range: 1577836799");
    assert_eq!(check_system_clock(Ok(4102444801)).status, CheckLevel::Failure);
    assert_eq!(check_system_clock(Ok(-12)).message.unwrap(), "System clock out of range: -12");
    assert_eq!(check_system_clock(Ok(0)).message.unwrap(), "System clock out of range: 0");
    assert_eq!(
        check_system_clock(Ok(i64::MIN)).message.unwrap(),
        "System clock out of range: -9223372036854775808"
    );
    let err = check_system_clock(Err("before epoch".to_string()));
    assert_eq!(err.status, CheckLevel::Failure);
    assert_eq!(err.message.unwrap(), "System clock error: before epoch");
}

#[test]
fn chrony_check_from_quality() {
    let (c, q) = check_chrony(None);
    assert_eq!(c.status, CheckLevel::Warning);
    assert_eq!(c.status.label(), "warning");
    assert_eq!(c.message.unwrap(), "chrony unavailable or not synchronized");
    assert!(q.is_none());
    let (c, q) = check_chrony(quality(2, "0.1", "GPS"));
    assert_eq!(c.status, CheckLevel::Normal);
    assert!(c.message.is_none());
    assert_eq!(q.unwrap().reference_id, "GPS");
}

#[test]
fn full_health_check() {
    let (status, checks, q) = check_health(Ok(1700000000), quality(2, "0.1", "GPS"));
    assert_eq!(status, HealthStatus::Healthy);
    assert_eq!(checks.system_clock.status.label(), "ok");
    assert_eq!(checks.chrony.status.label(), "ok");
    assert!(q.is_some());
    let (status, _, _) = check_health(Ok(1700000000), None);
    assert_eq!(status.label(), "degraded");
    assert_eq!(status.http_code(), 200);
    let (status, _, _) = check_health(Ok(5), None);
    assert_eq!(status.label(), "unhealthy");
    assert_eq!(status.http_code(), 503);
}
