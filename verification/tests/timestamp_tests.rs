use cphere_backend::timestamp::Timestamp;

#[test]
fn rfc3339_text_is_read_as_an_instant() {
    assert_eq!(
        Timestamp::parse_from_rfc3339("2024-01-01T00:00:00Z"),
        Some(Timestamp { seconds: 1_704_067_200, nanos: 0 })
    );
    assert_eq!(
        Timestamp::parse_from_rfc3339("1996-12-19T16:39:57-08:00"),
        Some(Timestamp { seconds: 851_042_397, nanos: 0 })
    );
    assert_eq!(
        Timestamp::parse_from_rfc3339("2015-05-15T00:00:00.250+00:00"),
        Some(Timestamp { seconds: 1_431_648_000, nanos: 250_000_000 })
    );
}

#[test]
fn other_text_is_no_instant() {
    assert_eq!(Timestamp::parse_from_rfc3339(""), None);
    assert_eq!(Timestamp::parse_from_rfc3339("2024-01-01"), None);
    assert_eq!(Timestamp::parse_from_rfc3339("2024-13-01T00:00:00Z"), None);
    assert_eq!(Timestamp::parse_from_rfc3339("2024-01-01 00:00:00 UTC"), None);
}

#[test]
fn instant_is_written_in_utc() {
    assert_eq!(Timestamp { seconds: 1_431_648_000, nanos: 0 }.to_text(), "2015-05-15 00:00:00 UTC");
    assert_eq!(
        Timestamp { seconds: 1_431_648_000, nanos: 250_000_000 }.to_text(),
        "2015-05-15 00:00:00.250 UTC"
    );
    assert_eq!(Timestamp { seconds: 0, nanos: 0 }.to_text(), "1970-01-01 00:00:00 UTC");
}

#[test]
fn instant_out_of_range_has_no_text() {
    assert_eq!(Timestamp { seconds: i64::MAX, nanos: 0 }.to_text(), "");
    assert_eq!(Timestamp { seconds: 0, nanos: 2_000_000_000 }.to_text(), "");
}

#[test]
fn before_orders_by_seconds_then_nanoseconds() {
    let a = Timestamp { seconds: 5, nanos: 900 };
    let b = Timestamp { seconds: 6, nanos: 0 };
    let c = Timestamp { seconds: 6, nanos: 1 };
    assert!(a.before(&b));
    assert!(b.before(&c));
    assert!(!c.before(&b));
    assert!(!b.before(&b));
    assert!(a < b && b < c);
}

#[test]
fn now_does_not_run_backwards() {
    let first = Timestamp::now();
    let second = Timestamp::now();
    assert!(!second.before(&first));
    assert!(first.seconds > 1_600_000_000);
}

#[test]
fn now_lies_within_its_second_and_has_a_text() {
    let now = Timestamp::now();
    assert!(now.nanos < 1_000_000_000);
    let text = now.to_text();
    assert!(text.ends_with(" UTC"));
    assert!(text.starts_with("20"));
}
