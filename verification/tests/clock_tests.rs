use nmea_filter::time::{Clock, Timestamp};

#[test]
fn monotone_times_of_day_keep_the_date() {
    let mut clock = Clock::new(Timestamp { day: 1000, secs: 100 });
    assert!(clock.apply_time_of_day(200));
    assert!(clock.apply_time_of_day(300));
    assert!(clock.apply_time_of_day(400));
    assert_eq!(clock.now(), Timestamp { day: 1000, secs: 400 });
}

#[test]
fn first_decreasing_time_of_day_increments_date_once() {
    let mut clock = Clock::new(Timestamp { day: 1000, secs: 100 });
    assert!(clock.apply_time_of_day(200));
    assert!(clock.apply_time_of_day(300));
    // earlier in the day than the reading the clock holds: one rollover
    assert!(clock.apply_time_of_day(50));
    assert_eq!(clock.now(), Timestamp { day: 1001, secs: 50 });
    // later readings on the new day do not roll again
    assert!(clock.apply_time_of_day(60));
    assert_eq!(clock.now(), Timestamp { day: 1001, secs: 60 });
}

#[test]
fn equal_time_of_day_does_not_roll() {
    let mut clock = Clock::new(Timestamp { day: 77, secs: 500 });
    assert!(clock.apply_time_of_day(500));
    assert_eq!(clock.now(), Timestamp { day: 77, secs: 500 });
}

#[test]
fn full_timestamp_overwrites_even_backward() {
    let mut clock = Clock::new(Timestamp { day: 731651, secs: 57612 });
    clock.apply_full(Timestamp { day: 728010, secs: 45319 });
    assert_eq!(clock.now(), Timestamp { day: 728010, secs: 45319 });
}

#[test]
fn midnight_crossing_rolls_exactly_once() {
    let mut clock = Clock::new(Timestamp { day: 10, secs: 86000 });
    assert!(clock.apply_time_of_day(86399));
    assert_eq!(clock.now().day, 10);
    assert!(clock.apply_time_of_day(0));
    assert_eq!(clock.now(), Timestamp { day: 11, secs: 0 });
    assert!(clock.apply_time_of_day(1));
    assert_eq!(clock.now(), Timestamp { day: 11, secs: 1 });
}

#[test]
fn timestamp_order_is_by_day_then_seconds() {
    let a = Timestamp { day: 5, secs: 86399 };
    let b = Timestamp { day: 6, secs: 0 };
    assert!(a.le(b));
    assert!(!b.le(a));
    assert!(a.le(a));
    let c = Timestamp { day: 6, secs: 1 };
    assert!(b.le(c));
    assert!(!c.le(b));
}
