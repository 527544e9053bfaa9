use appbiotic_time::{Timestamp, ValidationError, WireTimestamp};

fn parsed(s: &str) -> Timestamp {
    Timestamp::parse(s).unwrap()
}

#[test]
fn json_string_carries_canonical_text() {
    let time_str = "2024-12-30T23:01:02.000000000Z";
    let time: Timestamp = time_str.parse().unwrap();
    let value = serde_json::to_value(time.to_string()).unwrap();
    assert_eq!(value, serde_json::Value::String(time_str.to_owned()));
}

#[test]
fn json_string_parses_back() {
    let time_str = "2024-12-30T23:01:02.000000000Z";
    let json = serde_json::Value::String(time_str.to_owned());
    let text: String = serde_json::from_value(json).unwrap();
    let time: Timestamp = text.parse().unwrap();
    assert_eq!(time.to_string(), time_str);
}

#[test]
fn formats_with_nine_digits_and_z() {
    assert_eq!(parsed("2024-12-30T23:01:02Z").to_string(), "2024-12-30T23:01:02.000000000Z");
    assert_eq!(parsed("2024-12-30T23:01:02.5Z").to_string(), "2024-12-30T23:01:02.500000000Z");
    assert_eq!(
        parsed("2024-12-30T23:01:02.123456789Z").to_string(),
        "2024-12-30T23:01:02.123456789Z"
    );
}

#[test]
fn parse_normalises_offsets_to_utc() {
    assert_eq!(
        parsed("2024-12-31T01:02:03.25+02:00").to_string(),
        "2024-12-30T23:02:03.250000000Z"
    );
    assert_eq!(
        parsed("1999-12-31T19:00:00-05:00").to_string(),
        "2000-01-01T00:00:00.000000000Z"
    );
}

#[test]
fn format_parse_format_is_stable() {
    for s in [
        "1970-01-01T00:00:00.000000000Z",
        "1999-12-31T23:59:59.999999999Z",
        "0001-01-01T00:00:00.000000001Z",
        "1969-07-20T20:17:40.000000000Z",
    ] {
        let once = parsed(s).to_string();
        let twice = parsed(&once).to_string();
        assert_eq!(once, s);
        assert_eq!(twice, once);
    }
}

#[test]
fn parse_gives_unix_parts() {
    let t = parsed("1969-12-31T23:59:59.25Z");
    assert_eq!(t.unix_seconds(), -1);
    assert_eq!(t.subsec_nanos(), 250_000_000);
    let t = parsed("2024-12-30T23:01:02Z");
    assert_eq!(t.unix_seconds(), 1_735_599_662);
    assert_eq!(t.subsec_nanos(), 0);
}

#[test]
fn parse_rejects_malformed_text() {
    for s in [
        "not-a-date",
        "",
        "2024-13-01T00:00:00Z",
        "2024-12-30T23:01:02",
        "2024-12-30T23:01:02 UTC",
        "2024-12-30T23:01:02+0200",
    ] {
        match Timestamp::parse(s) {
            Err(ValidationError::InvalidFormat { message }) => assert!(!message.is_empty()),
            Ok(t) => panic!("{s} parsed as {}", t.to_string()),
        }
    }
    let e: Result<Timestamp, _> = "not-a-date".parse();
    assert!(matches!(e, Err(ValidationError::InvalidFormat { .. })));
}

#[test]
fn parse_from_owned_string() {
    let t = Timestamp::try_from("2024-12-30T23:01:02Z".to_owned()).unwrap();
    assert_eq!(t, parsed("2024-12-30T23:01:02Z"));
    assert_eq!(
        Timestamp::try_from("yesterday".to_owned()),
        "yesterday".parse::<Timestamp>()
    );
    assert!(Timestamp::try_from("yesterday".to_owned()).is_err());
}

#[test]
fn outcome_maps_to_timestamp_or_invalid_format() {
    let t = Timestamp::from_rfc3339_outcome(Ok((5, 7))).unwrap();
    assert_eq!((t.unix_seconds(), t.subsec_nanos()), (5, 7));
    assert_eq!(
        Timestamp::from_rfc3339_outcome(Err("premature end of input".to_owned())),
        Err(ValidationError::InvalidFormat {
            message: "premature end of input".to_owned()
        })
    );
}

#[test]
fn leap_second_is_kept() {
    let t = parsed("1998-12-31T23:59:60.5Z");
    assert_eq!(t.subsec_nanos(), 1_500_000_000);
    assert_eq!(t.to_string(), "1998-12-31T23:59:60.500000000Z");
}

#[test]
fn from_unix_follows_calendar_range() {
    assert_eq!(Timestamp::from_unix(0, 0), Some(Timestamp::unix_epoch()));
    let min = Timestamp::from_unix(-8_334_601_228_800, 0).unwrap();
    assert_eq!(min.to_string(), "-262143-01-01T00:00:00.000000000Z");
    let max = Timestamp::from_unix(8_210_266_876_799, 999_999_999).unwrap();
    assert_eq!(max.to_string(), "+262142-12-31T23:59:59.999999999Z");
    assert_eq!(Timestamp::from_unix(-8_334_601_228_801, 0), None);
    assert_eq!(Timestamp::from_unix(8_210_266_876_800, 0), None);
    assert!(Timestamp::from_unix(59, 1_999_999_999).is_some());
    assert_eq!(Timestamp::from_unix(58, 1_000_000_000), None);
    assert_eq!(Timestamp::from_unix(59, 2_000_000_000), None);
}

#[test]
fn wire_round_trip_keeps_instant() {
    for s in ["2024-12-30T23:01:02.123456789Z", "1969-12-31T23:59:59.25Z", "1970-01-01T00:00:00Z"] {
        let t = parsed(s);
        let w = t.to_wire().unwrap();
        assert_eq!(w.seconds, t.unix_seconds());
        assert_eq!(w.nanos as u32, t.subsec_nanos());
        assert_eq!(Timestamp::from_wire(w).unwrap(), t);
    }
    let w = parsed("1969-12-31T23:59:59.25Z").to_wire().unwrap();
    assert_eq!(w, WireTimestamp { seconds: -1, nanos: 250_000_000 });
}

#[test]
fn from_wire_rejects_bad_nanos_and_range() {
    for w in [
        WireTimestamp { seconds: 0, nanos: -1 },
        WireTimestamp { seconds: 0, nanos: 1_000_000_000 },
        WireTimestamp { seconds: 59, nanos: 1_500_000_000 },
        WireTimestamp { seconds: 0, nanos: i32::MAX },
        WireTimestamp { seconds: i64::MAX, nanos: 0 },
        WireTimestamp { seconds: i64::MIN, nanos: 0 },
    ] {
        match Timestamp::from_wire(w) {
            Err(ValidationError::InvalidFormat { message }) => assert!(!message.is_empty()),
            Ok(t) => panic!("accepted {}", t.to_string()),
        }
    }
    let t = Timestamp::from_wire(WireTimestamp { seconds: 1_735_599_662, nanos: 5 }).unwrap();
    assert_eq!(t.to_string(), "2024-12-30T23:01:02.000000005Z");
}

#[test]
fn leap_second_goes_to_wire_but_not_back() {
    let w = parsed("1998-12-31T23:59:60.5Z").to_wire().unwrap();
    assert_eq!(w.nanos, 1_500_000_000);
    assert!(Timestamp::from_wire(w).is_err());
}

#[test]
fn wire_conversions_through_try_from() {
    let t = parsed("2024-12-30T23:01:02.000000005Z");
    let w = WireTimestamp::try_from(t).unwrap();
    assert_eq!(w, WireTimestamp { seconds: 1_735_599_662, nanos: 5 });
    assert_eq!(Timestamp::try_from(w).unwrap(), t);
    assert!(Timestamp::try_from(WireTimestamp { seconds: 0, nanos: -5 }).is_err());
}
