use manufacturing_cell::json::decimal;
use manufacturing_cell::utils::{iso8601_at, read_clock, reading_of, ClockReading, Iso8601Utc};
use std::time::{Duration, SystemTime, UNIX_EPOCH};

#[test]
fn epoch_in_iso8601() {
    let text = iso8601_at(ClockReading { secs: 0, nanos: 0 });
    assert_eq!(text.unwrap(), "1970-01-01T00:00:00+00:00");
}

#[test]
fn whole_second_in_iso8601() {
    let text = iso8601_at(ClockReading {
        secs: 1431648000,
        nanos: 0,
    });
    assert_eq!(text.unwrap(), "2015-05-15T00:00:00+00:00");
}

#[test]
fn fraction_of_a_second_in_iso8601() {
    let millis = iso8601_at(ClockReading {
        secs: 1516991409,
        nanos: 453_000_000,
    });
    assert_eq!(millis.unwrap(), "2018-01-26T18:30:09.453+00:00");
    let micros = iso8601_at(ClockReading {
        secs: 1516991409,
        nanos: 453_829_000,
    });
    assert_eq!(micros.unwrap(), "2018-01-26T18:30:09.453829+00:00");
    let nanos = iso8601_at(ClockReading {
        secs: 1516991409,
        nanos: 453_829_001,
    });
    assert_eq!(nanos.unwrap(), "2018-01-26T18:30:09.453829001+00:00");
}

#[test]
fn reading_beyond_the_calendar_has_no_text() {
    assert_eq!(
        iso8601_at(ClockReading {
            secs: u64::MAX,
            nanos: 0
        }),
        None
    );
    assert_eq!(
        iso8601_at(ClockReading {
            secs: i64::MAX as u64,
            nanos: 0
        }),
        None
    );
    assert_eq!(
        iso8601_at(ClockReading {
            secs: 0,
            nanos: 2_000_000_000
        }),
        None
    );
}

#[test]
fn clock_reads_a_time_after_the_epoch() {
    let first = read_clock().unwrap();
    let second = read_clock().unwrap();
    assert!(first.secs > 1_500_000_000);
    assert!(first.nanos < 1_000_000_000);
    assert!((second.secs, second.nanos) >= (first.secs, first.nanos));
}

#[test]
fn now_in_iso8601_parses_as_utc() {
    let text = SystemTime::iso8601_now().unwrap();
    let parsed = chrono::DateTime::parse_from_rfc3339(&text).unwrap();
    assert_eq!(parsed.offset().local_minus_utc(), 0);
    let reading = read_clock().unwrap();
    let distance = (reading.secs as i64 - parsed.timestamp()).abs();
    assert!(distance <= 5);
}

#[test]
fn numbers_in_decimal() {
    assert_eq!(decimal(0), "0");
    assert_eq!(decimal(7), "7");
    assert_eq!(decimal(10), "10");
    assert_eq!(decimal(109), "109");
    assert_eq!(decimal(4294967295), "4294967295");
}

#[test]
fn instant_after_the_epoch_has_its_reading() {
    let instant = UNIX_EPOCH + Duration::new(1431648000, 453_829_001);
    assert_eq!(
        reading_of(&instant),
        Some(ClockReading {
            secs: 1431648000,
            nanos: 453_829_001
        })
    );
    assert_eq!(
        reading_of(&UNIX_EPOCH),
        Some(ClockReading { secs: 0, nanos: 0 })
    );
}

#[test]
fn instant_before_the_epoch_has_no_reading() {
    let instant = UNIX_EPOCH - Duration::new(1, 0);
    assert_eq!(reading_of(&instant), None);
}

#[test]
fn clock_reading_lies_between_two_instants() {
    let before = reading_of(&SystemTime::now()).unwrap();
    let read = read_clock().unwrap();
    let after = reading_of(&SystemTime::now()).unwrap();
    assert!((before.secs, before.nanos) <= (read.secs, read.nanos));
    assert!((read.secs, read.nanos) <= (after.secs, after.nanos));
}
