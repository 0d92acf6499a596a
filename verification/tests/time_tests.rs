use rs_imessage::time::{apple_timestamp_to_utc, UtcDateTime, APPLE_EPOCH_UNIX_SECS};

#[test]
fn converts_nanosecond_apple_timestamp() {
    let dt = apple_timestamp_to_utc(738_000_000_000_000_000).expect("valid");
    assert!(dt.timestamp() > 1_600_000_000);
}

#[test]
fn seconds_since_2001() {
    let dt = apple_timestamp_to_utc(700_000_000).unwrap();
    assert_eq!(dt.timestamp(), 978_307_200 + 700_000_000);
    assert_eq!(dt.timestamp_subsec_nanos(), 0);
    assert_eq!(APPLE_EPOCH_UNIX_SECS, 978_307_200);
}

#[test]
fn nanoseconds_keep_their_fraction() {
    let dt = apple_timestamp_to_utc(1_700_000_000_123_456_789).unwrap();
    assert_eq!(dt.timestamp(), 978_307_200 + 1_700_000_000);
    assert_eq!(dt.timestamp_subsec_nanos(), 123_456_789);
}

#[test]
fn microseconds_and_milliseconds() {
    let micros = apple_timestamp_to_utc(1_700_000_000_250_000).unwrap();
    assert_eq!(micros.timestamp(), 978_307_200 + 1_700_000_000);
    assert_eq!(micros.timestamp_subsec_nanos(), 250_000_000);
    let millis = apple_timestamp_to_utc(1_700_000_000_250).unwrap();
    assert_eq!(millis.timestamp(), 978_307_200 + 1_700_000_000);
    assert_eq!(millis.timestamp_subsec_nanos(), 250_000_000);
}

#[test]
fn the_apple_epoch_itself() {
    let dt = apple_timestamp_to_utc(0).unwrap();
    assert_eq!(dt.timestamp(), 978_307_200);
}

#[test]
fn far_negative_values_do_not_convert() {
    assert!(apple_timestamp_to_utc(-7_000_000_000_000).is_some());
    assert!(apple_timestamp_to_utc(i64::MIN).is_none());
}

#[test]
fn from_timestamp_checks_range() {
    let t = UtcDateTime::from_timestamp(1_000, 5).unwrap();
    assert_eq!(t.timestamp(), 1_000);
    assert_eq!(t.timestamp_subsec_nanos(), 5);
    assert!(UtcDateTime::from_timestamp(1_000, 2_000_000_000).is_none());
}

#[test]
fn nanosecond_dates_of_today() {
    let dt = apple_timestamp_to_utc(738_000_000_000_000_000).unwrap();
    assert_eq!(dt.timestamp(), 1_716_307_200);
    assert_eq!(dt.timestamp_subsec_nanos(), 0);
}

#[test]
fn unit_thresholds() {
    assert_eq!(apple_timestamp_to_utc(738_000_000_000_000_000).unwrap().timestamp(), 1_716_307_200);
    assert_eq!(apple_timestamp_to_utc(100_000_000_000_000_001).unwrap().timestamp(), 978_307_200 + 100_000_000);
    assert_eq!(apple_timestamp_to_utc(1_000_000_000_000_001).unwrap().timestamp(), 978_307_200 + 1_000_000_000);
    assert_eq!(apple_timestamp_to_utc(500_000_000_000_000).unwrap().timestamp(), 978_307_200 + 500_000_000_000);
    assert_eq!(apple_timestamp_to_utc(1_000_000_000_001).unwrap().timestamp(), 978_307_200 + 1_000_000_000);
    assert_eq!(apple_timestamp_to_utc(1_000_000_000_000).unwrap().timestamp(), 978_307_200 + 1_000_000_000_000);
}
