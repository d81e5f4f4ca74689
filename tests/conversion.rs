use time_api::conversion::{convert_to_timezones, get_unix_timestamp, parse_timezone_list};
use time_api::error::ApiError;
use time_api::models::{default_timezones, TimesQuery};

#[test]
fn test_convert_utc() {
    let now = get_unix_timestamp().unwrap();
    let result = convert_to_timezones(&["UTC".to_string()], now);
    assert!(result.is_ok());
    let (unix, zones) = result.unwrap();
    assert!(unix > 0);
    assert_eq!(zones.len(), 1);
    assert!(zones.contains_key("UTC"));
    let utc = zones.get("UTC").unwrap();
    assert_eq!(utc.offset, 0);
}

#[test]
fn test_convert_multiple_timezones() {
    let tzs = vec!["UTC".to_string(), "America/Denver".to_string(), "Europe/London".to_string()];
    let result = convert_to_timezones(&tzs, get_unix_timestamp().unwrap());
    assert!(result.is_ok());
    let (_, zones) = result.unwrap();
    assert_eq!(zones.len(), 3);
}

#[test]
fn test_invalid_timezone() {
    let result = convert_to_timezones(&["Invalid/Zone".to_string()], get_unix_timestamp().unwrap());
    assert!(result.is_err());
    match result {
        Err(ApiError::InvalidTimezone(name)) => assert_eq!(name, "Invalid/Zone"),
        _ => panic!("expected an invalid zone"),
    }
}

#[test]
fn test_empty_timezone() {
    let result = convert_to_timezones(&["".to_string()], get_unix_timestamp().unwrap());
    assert!(result.is_ok());
    let (_, zones) = result.unwrap();
    assert_eq!(zones.len(), 0);
}

#[test]
fn empty_list_gives_empty_map() {
    let (unix, zones) = convert_to_timezones(&[], 1700000000).unwrap();
    assert_eq!(unix, 1700000000);
    assert_eq!(zones.len(), 0);
}

#[test]
fn utc_rendering_of_known_instant() {
    let (_, zones) = convert_to_timezones(&[" UTC ".to_string()], 1700000000).unwrap();
    let z = zones.get("UTC").unwrap();
    assert_eq!(z.local, "2023-11-14T22:13:20");
    assert_eq!(z.offset, 0);
}

#[test]
fn denver_offset_in_winter() {
    let (_, zones) = convert_to_timezones(&["America/Denver".to_string()], 1700000000).unwrap();
    let z = zones.get("America/Denver").unwrap();
    assert_eq!(z.offset, -7 * 3600);
    assert_eq!(z.local, "2023-11-14T15:13:20");
}

#[test]
fn invalid_zone_aborts_whole_conversion() {
    let names = vec!["UTC".to_string(), "Nowhere/City".to_string(), "Also/Bad".to_string()];
    match convert_to_timezones(&names, 1700000000) {
        Err(ApiError::InvalidTimezone(name)) => assert_eq!(name, "Nowhere/City"),
        _ => panic!("expected an invalid zone"),
    }
}

#[test]
fn repeated_zone_kept_once() {
    let names = vec!["UTC".to_string(), "UTC".to_string()];
    let (_, zones) = convert_to_timezones(&names, 1700000000).unwrap();
    assert_eq!(zones.len(), 1);
}

#[test]
fn too_many_zones_rejected() {
    let names: Vec<String> = (0..51).map(|_| "UTC".to_string()).collect();
    match convert_to_timezones(&names, 1700000000) {
        Err(ApiError::TooManyTimezones) => {}
        _ => panic!("expected a rejection"),
    }
    let fifty: Vec<String> = (0..50).map(|_| "UTC".to_string()).collect();
    assert!(convert_to_timezones(&fifty, 1700000000).is_ok());
}

#[test]
fn unrepresentable_instant_is_time_error() {
    match convert_to_timezones(&["UTC".to_string()], i64::MAX) {
        Err(ApiError::SystemTimeError) => {}
        _ => panic!("expected a time error"),
    }
}

#[test]
fn test_parse_timezone_list() {
    let params = TimesQuery { tz: "UTC,America/Denver,Europe/London".to_string(), include_quality: false };
    let timezone_names = parse_timezone_list(&params.tz);
    assert_eq!(timezone_names.len(), 3);
    assert_eq!(timezone_names[0], "UTC");
    assert_eq!(timezone_names[1], "America/Denver");
    assert_eq!(timezone_names[2], "Europe/London");
}

#[test]
fn test_parse_timezone_with_spaces() {
    let params = TimesQuery { tz: " UTC , America/Denver , Europe/London ".to_string(), include_quality: false };
    let timezone_names = parse_timezone_list(&params.tz);
    assert_eq!(timezone_names.len(), 3);
    assert_eq!(timezone_names[0], "UTC");
}

#[test]
fn list_drops_empty_fields() {
    assert_eq!(parse_timezone_list(",, UTC,,"), vec!["UTC".to_string()]);
    assert!(parse_timezone_list("").is_empty());
    assert_eq!(default_timezones(), "UTC");
}

#[test]
fn error_texts_and_codes() {
    let e = ApiError::InvalidTimezone("X/Y".to_string());
    assert_eq!(e.detail(), "Unrecognized time zone 'X/Y'");
    assert_eq!(e.status_code(), 400);
    let e = ApiError::Internal("boom".to_string());
    assert_eq!(e.detail(), "Internal server error");
    assert_eq!(e.message(), "Internal error: boom");
    assert_eq!(e.status_code(), 500);
    assert_eq!(ApiError::SystemTimeError.status_code(), 503);
    assert_eq!(ApiError::TooManyTimezones.status_code(), 400);
    assert_eq!(ApiError::TooManyTimezones.detail(), "Too many timezones requested (max: 50)");
    assert_eq!(ApiError::Timeout.status_code(), 408);
    assert_eq!(ApiError::ChronyError("x".to_string()).message(), "Chrony error: x");
}

#[test]
fn no_break_space_padding_is_trimmed() {
    let (_, zones) = convert_to_timezones(&["\u{a0}UTC\u{a0}".to_string()], 1700000000).unwrap();
    assert!(zones.contains_key("UTC"));
}

#[test]
fn representable_range_edges() {
    let utc = vec!["UTC".to_string()];
    assert!(convert_to_timezones(&utc, 8210266876799).is_ok());
    assert!(convert_to_timezones(&utc, -8334601228800).is_ok());
    assert!(matches!(convert_to_timezones(&utc, 8210266876800), Err(ApiError::SystemTimeError)));
    assert!(matches!(convert_to_timezones(&utc, -8334601228801), Err(ApiError::SystemTimeError)));
}
