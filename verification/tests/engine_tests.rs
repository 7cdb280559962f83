use nmea_filter::config::Config;
use nmea_filter::engine::{Engine, EngineFault};
use nmea_filter::sentence::Payload;
use nmea_filter::time::{parse_rfc3339, today_at_midnight, Timestamp};

const RMC_LINE: &str = "$GPRMC,123519,A,4807.038,N,01131.000,E,022.4,084.4,230394,003.1,W*6A";

fn strings(items: &[&str]) -> Option<Vec<String>> {
    Some(items.iter().map(|s| s.to_string()).collect())
}

/// Frames a sentence body with `$` and its checksum.
fn framed(body: &str) -> String {
    let mut cs: u8 = 0;
    for b in body.as_bytes() {
        cs ^= *b;
    }
    format!("${}*{:02X}", body, cs)
}

fn default_engine() -> Engine {
    let cfg = Config::new(&None, &None, &None, &None, &None, &None).unwrap();
    Engine::new(cfg, Timestamp { day: 730_120, secs: 0 })
}

fn engine_with(
    devices: Option<Vec<String>>,
    xdevices: Option<Vec<String>>,
    messages: Option<Vec<String>>,
    xmessages: Option<Vec<String>>,
    start: Option<&str>,
    end: Option<&str>,
) -> Engine {
    let cfg = Config::new(
        &devices,
        &xdevices,
        &messages,
        &xmessages,
        &start.map(|s| s.to_string()),
        &end.map(|s| s.to_string()),
    )
    .unwrap();
    Engine::new(cfg, Timestamp { day: 730_120, secs: 0 })
}

#[test]
fn rmc_line_is_emitted_unchanged_and_sets_the_clock() {
    let mut e = default_engine();
    let mut line = RMC_LINE.to_string();
    line.push('\n');
    let out = e.process_line(&line).unwrap();
    assert_eq!(out.as_deref(), Some(RMC_LINE));
    assert_eq!(e.clock_now(), Timestamp { day: 728_010, secs: 45_319 });
    assert_eq!(e.clock_now(), parse_rfc3339("1994-03-23T12:35:19Z").unwrap());
}

#[test]
fn time_of_day_after_rmc_rolls_exactly_one_day() {
    let mut e = default_engine();
    e.process_line(RMC_LINE).unwrap();
    // a time of day earlier than the clock's 12:35:19: the date rolls forward
    let gga = framed("GPGGA,000100.000,5321.6802,N,00630.3372,W,1,8,1.03,61.7,M,55.2,M,,");
    let out = e.process_line(&gga).unwrap();
    assert_eq!(out.as_deref(), Some(gga.as_str()));
    assert_eq!(e.clock_now(), parse_rfc3339("1994-03-24T00:01:00Z").unwrap());
    assert_eq!(e.clock_now(), Timestamp { day: 728_011, secs: 60 });
}

#[test]
fn increasing_times_of_day_do_not_roll() {
    let mut e = default_engine();
    e.process_line(RMC_LINE).unwrap();
    let gga = framed("GPGGA,124000.000,5321.6802,N,00630.3372,W,1,8,1.03,61.7,M,55.2,M,,");
    e.process_line(&gga).unwrap();
    assert_eq!(e.clock_now(), parse_rfc3339("1994-03-23T12:40:00Z").unwrap());
}

#[test]
fn excluded_device_takes_precedence_over_message_rules() {
    let mut e = engine_with(strings(&["GP"]), strings(&["GL"]), None, None, None, None);
    let from_gl = framed("GLGGA,092750.000,5321.6802,N,00630.3372,W,1,8,1.03,61.7,M,55.2,M,,");
    assert_eq!(e.process_line(&from_gl).unwrap(), None);
    // the clock is untouched by a sentence the device rules reject
    assert_eq!(e.clock_now(), Timestamp { day: 730_120, secs: 0 });
    let from_gp = framed("GPGGA,092750.000,5321.6802,N,00630.3372,W,1,8,1.03,61.7,M,55.2,M,,");
    assert!(e.process_line(&from_gp).unwrap().is_some());
}

#[test]
fn excluded_message_is_dropped_without_clock_update() {
    let mut e = engine_with(None, None, None, strings(&["GGA"]), None, None);
    let gga = framed("GPGGA,092750.000,5321.6802,N,00630.3372,W,1,8,1.03,61.7,M,55.2,M,,");
    assert_eq!(e.process_line(&gga).unwrap(), None);
    assert_eq!(e.clock_now(), Timestamp { day: 730_120, secs: 0 });
    assert!(e.process_line(RMC_LINE).unwrap().is_some());
}

#[test]
fn unparseable_lines_are_inert() {
    let mut e = default_engine();
    let seed = e.clock_now();
    for line in [
        "",
        "\n",
        "hello world\n",
        "$GPRMC,123519,A,4807.038,N,01131.000,E,022.4,084.4,230394,003.1,W*00\n",
        "$GP\n",
        "no dollar GPGGA,1,2,3\n",
    ] {
        assert_eq!(e.process_line(line).unwrap(), None);
        assert_eq!(e.clock_now(), seed);
    }
}

#[test]
fn window_bounds_are_inclusive() {
    // the RMC line's derived timestamp equals both bounds: emitted
    let mut e = engine_with(
        None,
        None,
        None,
        None,
        Some("1994-03-23T12:35:19Z"),
        Some("1994-03-23T12:35:19Z"),
    );
    assert!(e.process_line(RMC_LINE).unwrap().is_some());
    // one second outside either bound: dropped
    let mut e = engine_with(
        None,
        None,
        None,
        None,
        Some("1994-03-23T12:35:20Z"),
        Some("1994-03-23T12:40:00Z"),
    );
    assert_eq!(e.process_line(RMC_LINE).unwrap(), None);
    let mut e = engine_with(
        None,
        None,
        None,
        None,
        Some("1994-03-23T12:30:00Z"),
        Some("1994-03-23T12:35:18Z"),
    );
    assert_eq!(e.process_line(RMC_LINE).unwrap(), None);
}

#[test]
fn out_of_window_sentences_still_advance_the_clock() {
    let mut e = engine_with(
        None,
        None,
        None,
        None,
        Some("2020-01-01T00:00:00Z"),
        Some("2020-12-31T23:59:59Z"),
    );
    assert_eq!(e.process_line(RMC_LINE).unwrap(), None);
    assert_eq!(e.clock_now(), parse_rfc3339("1994-03-23T12:35:19Z").unwrap());
}

#[test]
fn full_timestamp_from_zda_overwrites_backward() {
    let mut e = default_engine();
    let zda = framed("GPZDA,160012.00,11,03,2004,00,00");
    assert!(e.process_line(&zda).unwrap().is_some());
    assert_eq!(e.clock_now(), parse_rfc3339("2004-03-11T16:00:12Z").unwrap());
    // an older full timestamp still overwrites the clock outright
    assert!(e.process_line(RMC_LINE).unwrap().is_some());
    assert_eq!(e.clock_now(), parse_rfc3339("1994-03-23T12:35:19Z").unwrap());
}

#[test]
fn untimed_sentence_is_window_tested_on_the_current_clock() {
    let mut e = engine_with(
        None,
        None,
        None,
        None,
        Some("1994-03-23T00:00:00Z"),
        Some("1994-03-24T23:59:59Z"),
    );
    let vtg = framed("GPVTG,054.7,T,034.4,M,005.5,N,010.2,K");
    // seed (2000-01-01) lies outside the window: dropped, clock unchanged
    assert_eq!(e.process_line(&vtg).unwrap(), None);
    assert_eq!(e.clock_now(), Timestamp { day: 730_120, secs: 0 });
    // after the RMC line the clock lies inside: the untimed sentence passes
    e.process_line(RMC_LINE).unwrap();
    assert!(e.process_line(&vtg).unwrap().is_some());
    assert_eq!(e.clock_now(), parse_rfc3339("1994-03-23T12:35:19Z").unwrap());
}

#[test]
fn geographic_position_sentence_carries_a_time_of_day() {
    let mut e = default_engine();
    e.process_line(RMC_LINE).unwrap();
    let gll = framed("GPGLL,5321.6802,N,00630.3372,W,140000.00,A,A");
    assert!(e.process_line(&gll).unwrap().is_some());
    assert_eq!(e.clock_now(), parse_rfc3339("1994-03-23T14:00:00Z").unwrap());
}

#[test]
fn trailing_carriage_return_is_kept() {
    let mut e = default_engine();
    let mut line = RMC_LINE.to_string();
    line.push('\r');
    line.push('\n');
    let out = e.process_line(&line).unwrap().unwrap();
    assert_eq!(out, format!("{}\r", RMC_LINE));
}

#[test]
fn empty_pattern_lists_fall_back_to_the_defaults() {
    // an empty exclude list excludes nothing, like an absent one
    let mut e = engine_with(None, strings(&[]), None, strings(&[]), None, None);
    assert!(e.process_line(RMC_LINE).unwrap().is_some());
    // an empty include list includes everything, like an absent one
    let mut e = engine_with(strings(&[]), None, strings(&[]), None, None, None);
    assert!(e.process_line(RMC_LINE).unwrap().is_some());
}

#[test]
fn device_patterns_are_regular_expressions() {
    // an anchored pattern that matches only the exact sender code
    let mut e = engine_with(strings(&["^GP$"]), None, None, None, None, None);
    assert!(e.process_line(RMC_LINE).unwrap().is_some());
    let from_gl = framed("GLGGA,092750.000,5321.6802,N,00630.3372,W,1,8,1.03,61.7,M,55.2,M,,");
    assert_eq!(e.process_line(&from_gl).unwrap(), None);
    // alternation over the list: either pattern admits
    let mut e = engine_with(strings(&["^GL$", "^GP$"]), None, None, None, None, None);
    assert!(e.process_line(RMC_LINE).unwrap().is_some());
}

#[test]
fn step_applies_filters_before_the_payload() {
    let cfg = Config::new(&None, &strings(&["GP"]), &None, &None, &None, &None).unwrap();
    let mut e = Engine::new(cfg, Timestamp { day: 730_120, secs: 0 });
    // excluded: even a defective payload is never consulted
    assert_eq!(e.step("GP", "GGA", Payload::Defective), Ok(false));
    assert_eq!(e.clock_now(), Timestamp { day: 730_120, secs: 0 });
}

#[test]
fn timed_message_without_its_timestamp_is_a_fatal_fault() {
    // a position/velocity fix sentence with empty date and time fields
    let broken = "$GPRMC,,V,,,,,,,,,,N*53";
    let mut e = default_engine();
    assert_eq!(e.process_line(broken), Err(EngineFault::MissingTimestamp));
    // filters are applied first: the same sentence is silently dropped when
    // its message type is excluded
    let mut e = engine_with(None, None, None, strings(&["RMC"]), None, None);
    assert_eq!(e.process_line(broken), Ok(None));
}

#[test]
fn seed_clock_starts_at_midnight() {
    let seed = today_at_midnight();
    assert_eq!(seed.secs, 0);
    let today = seed.day;
    // the current date lies between the year 2000 and the parsable maximum
    assert!(parse_rfc3339("2000-01-01T00:00:00Z").unwrap().day < today);
    assert!(today < parse_rfc3339("9999-01-01T00:00:00Z").unwrap().day);
}
