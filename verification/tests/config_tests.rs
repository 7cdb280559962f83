use nmea_filter::config::{Config, ConfigError, DEFAULT_END_DAY, DEFAULT_END_SECS,
    DEFAULT_START_DAY};
use nmea_filter::time::{parse_rfc3339, Timestamp};

fn strings(items: &[&str]) -> Option<Vec<String>> {
    Some(items.iter().map(|s| s.to_string()).collect())
}

#[test]
fn start_after_end_is_a_fatal_config_error() {
    let r = Config::new(
        &None,
        &None,
        &None,
        &None,
        &Some("2000-01-01T00:00:00Z".to_string()),
        &Some("1999-01-01T00:00:00Z".to_string()),
    );
    assert_eq!(r.err(), Some(ConfigError::StartAfterEnd));
}

#[test]
fn equal_start_and_end_are_accepted() {
    let r = Config::new(
        &None,
        &None,
        &None,
        &None,
        &Some("2000-01-01T00:00:00Z".to_string()),
        &Some("2000-01-01T00:00:00Z".to_string()),
    );
    assert!(r.is_ok());
}

#[test]
fn bad_start_and_end_strings_are_rejected() {
    let bad = Some("not-a-date".to_string());
    let good = Some("2000-01-01T00:00:00Z".to_string());
    let r = Config::new(&None, &None, &None, &None, &bad, &good);
    assert_eq!(r.err(), Some(ConfigError::BadStartDate));
    let r = Config::new(&None, &None, &None, &None, &good, &bad);
    assert_eq!(r.err(), Some(ConfigError::BadEndDate));
}

#[test]
fn invalid_pattern_is_rejected_per_axis() {
    let bad = strings(&["("]);
    let r = Config::new(&bad, &None, &None, &None, &None, &None);
    assert_eq!(r.err(), Some(ConfigError::BadIncludeDevices));
    let r = Config::new(&None, &bad, &None, &None, &None, &None);
    assert_eq!(r.err(), Some(ConfigError::BadExcludeDevices));
    let r = Config::new(&None, &None, &bad, &None, &None, &None);
    assert_eq!(r.err(), Some(ConfigError::BadIncludeMessages));
    let r = Config::new(&None, &None, &None, &bad, &None, &None);
    assert_eq!(r.err(), Some(ConfigError::BadExcludeMessages));
}

#[test]
fn first_bad_pattern_in_check_order_wins() {
    // include messages are checked before exclude devices
    let bad = strings(&["("]);
    let r = Config::new(&None, &bad, &bad, &None, &None, &None);
    assert_eq!(r.err(), Some(ConfigError::BadIncludeMessages));
}

#[test]
fn rfc3339_parsing_matches_the_day_number_model() {
    assert_eq!(
        parse_rfc3339("1970-01-01T00:00:00Z"),
        Some(Timestamp { day: 719_163, secs: 0 })
    );
    assert_eq!(
        parse_rfc3339("1994-03-23T12:35:19Z"),
        Some(Timestamp { day: 728_010, secs: 45_319 })
    );
    assert_eq!(parse_rfc3339("junk"), None);
}

#[test]
fn rfc3339_offsets_normalize_to_utc() {
    assert_eq!(
        parse_rfc3339("1994-03-23T13:35:19+01:00"),
        parse_rfc3339("1994-03-23T12:35:19Z")
    );
}

#[test]
fn default_window_bounds_are_far_outside_parsable_dates() {
    // the widest bounds RFC 3339 text can configure stay inside the defaults
    let earliest = parse_rfc3339("0000-01-01T00:00:00Z").unwrap();
    let latest = parse_rfc3339("9999-12-31T23:59:59Z").unwrap();
    assert!(DEFAULT_START_DAY < earliest.day);
    assert!(latest.day < DEFAULT_END_DAY);
    assert_eq!(DEFAULT_END_SECS, 86_399);
}
