use time_api::quality::{signed_offset, ChronyTracker};

const FULL_REPORT: &str = r#"
Reference ID    : 50505300 (PPS)
Stratum         : 1
Ref time (UTC)  : Thu Feb 06 00:00:00 2025
System time     : 0.000000012 seconds slow of NTP time
Last offset     : -0.000000023 seconds
RMS offset      : 0.000000045 seconds
Frequency       : 1.234 ppm fast
Residual freq   : +0.001 ppm
Skew            : 0.012 ppm
Root delay      : 0.000000001 seconds
Root dispersion : 0.000000002 seconds
Update interval : 16.0 seconds
Leap status     : Normal
"#;

#[test]
fn test_parse_chrony_output() {
    let quality = ChronyTracker::parse_chrony_output(FULL_REPORT).unwrap();
    assert_eq!(quality.stratum, 1);
    assert_eq!(quality.reference_id, "PPS");
    assert_eq!(quality.leap_status, "Normal");
    assert!(quality.offset_seconds.is_negative());
    assert_eq!(quality.offset_seconds.magnitude, "0.000000012");
}

#[test]
fn test_parse_chrony_output_fast() {
    let output = r#"
Stratum         : 2
Reference ID    : C0A80001 (192.168.0.1)
System time     : 0.000123456 seconds fast of NTP time
Leap status     : Normal
"#;
    let quality = ChronyTracker::parse_chrony_output(output).unwrap();
    assert_eq!(quality.stratum, 2);
    assert!(quality.offset_seconds.is_positive());
    assert_eq!(quality.reference_id, "192.168.0.1");
}

#[test]
fn slow_and_fast_same_magnitude() {
    let slow = "Stratum : 3\nReference ID : AB\nSystem time : 1.5 seconds slow of NTP time\nLeap status : Normal\n";
    let fast = "Stratum : 3\nReference ID : AB\nSystem time : 1.5 seconds fast of NTP time\nLeap status : Normal\n";
    let s = ChronyTracker::parse_chrony_output(slow).unwrap();
    let f = ChronyTracker::parse_chrony_output(fast).unwrap();
    assert!(s.offset_seconds.is_negative());
    assert!(!s.offset_seconds.is_positive());
    assert!(f.offset_seconds.is_positive());
    assert_eq!(s.offset_seconds.magnitude, f.offset_seconds.magnitude);
    assert_eq!(s.offset_seconds.magnitude, "1.5");
}

#[test]
fn reference_without_parentheses_takes_first_token() {
    let r = "Reference ID    : 7F7F0101 local\nStratum : 10\nSystem time : 0.0 seconds fast\nLeap status : Not synchronised\n";
    let q = ChronyTracker::parse_chrony_output(r).unwrap();
    assert_eq!(q.reference_id, "7F7F0101");
    assert_eq!(q.stratum, 10);
    assert_eq!(q.leap_status, "Not synchronised");
    assert!(!q.offset_seconds.is_negative());
    assert!(!q.offset_seconds.is_positive());
}

#[test]
fn missing_field_gives_absent() {
    let no_leap = "Stratum : 1\nReference ID : 1 (PPS)\nSystem time : 0.1 seconds slow\n";
    assert!(ChronyTracker::parse_chrony_output(no_leap).is_none());
    let bad_stratum = "Stratum : x\nReference ID : 1 (PPS)\nSystem time : 0.1 seconds slow\nLeap status : Normal\n";
    assert!(ChronyTracker::parse_chrony_output(bad_stratum).is_none());
    let big_stratum = "Stratum : 256\nReference ID : 1 (PPS)\nSystem time : 0.1 seconds slow\nLeap status : Normal\n";
    assert!(ChronyTracker::parse_chrony_output(big_stratum).is_none());
    assert!(ChronyTracker::parse_chrony_output("").is_none());
}

#[test]
fn cache_serves_within_ttl_and_expires() {
    let mut t = ChronyTracker::new();
    assert!(t.cached_quality(0).is_none());
    let stored = t.complete_query(true, FULL_REPORT, 1000);
    assert_eq!(stored.as_ref().unwrap().stratum, 1);
    let again = t.cached_quality(1249).unwrap().unwrap();
    assert_eq!(again.stratum, 1);
    assert_eq!(again.reference_id, "PPS");
    assert!(t.cached_quality(1250).is_none());
}

#[test]
fn failed_query_caches_absent() {
    let mut t = ChronyTracker::new();
    let r = t.complete_query(false, FULL_REPORT, 10);
    assert!(r.is_none());
    assert!(t.cached_quality(20).unwrap().is_none());
}

#[test]
fn capture_time_never_moves_back() {
    let mut t = ChronyTracker::new();
    t.record(None, 500);
    t.record(None, 100);
    assert_eq!(t.entry.as_ref().unwrap().captured_at_ms, 501);
    t.record(None, 501);
    assert_eq!(t.entry.as_ref().unwrap().captured_at_ms, 502);
    t.record(None, 900);
    assert_eq!(t.entry.as_ref().unwrap().captured_at_ms, 900);
}

#[test]
fn signed_offset_from_number() {
    let o = signed_offset("-0.25", "0.25 seconds fast");
    assert!(o.negative);
    assert_eq!(o.magnitude, "0.25");
    let o = signed_offset("-0.25", "0.25 seconds slow");
    assert!(!o.negative);
    let o = signed_offset("+3", "3 seconds slow of NTP time");
    assert!(o.is_negative());
    assert_eq!(o.magnitude, "3");
    let o = signed_offset("0.000", "slow");
    assert!(!o.is_negative());
}

#[test]
fn ipv6_reference_keeps_colons() {
    let r = "Reference ID    : FE800001 (fe80::1)\nStratum : 2\nSystem time : 0.5 seconds fast of NTP time\nLeap status : Insert second\n";
    let q = ChronyTracker::parse_chrony_output(r).unwrap();
    assert_eq!(q.reference_id, "fe80::1");
    assert_eq!(q.leap_status, "Insert second");
}

#[test]
fn non_ascii_offset_number_is_absent() {
    let r = "Stratum : 2\nReference ID : AB\nSystem time : \u{0661}.5 seconds fast\nLeap status : Normal\n";
    assert!(ChronyTracker::parse_chrony_output(r).is_none());
}

#[test]
fn unicode_whitespace_is_trimmed() {
    let r = "\u{a0}Stratum : 2\u{3000}\nReference ID : AB\nSystem time : 0.5 seconds fast\nLeap status : Normal\u{a0}\n";
    let q = ChronyTracker::parse_chrony_output(r).unwrap();
    assert_eq!(q.stratum, 2);
    assert_eq!(q.leap_status, "Normal");
}
