use made_adapters::wire::budget::{
    measurement_from_wire, measurement_to_wire, BudgetMeasurement, BudgetMeasurementError, WireBudgetMeasurement,
};
use made_adapters::wire::timestamp::{
    emitted_at_or, offset_to_timestamp, timestamp_from_unix_nanos, timestamp_to_offset, timestamp_unix_nanos,
    TimestampOutOfRange,
    WireTimestamp, MAX_UNIX_SECONDS, MIN_UNIX_SECONDS,
};
use time::OffsetDateTime;

#[test]
fn splits_seconds_and_nanos_correctly() {
    let dt = OffsetDateTime::from_unix_timestamp_nanos(1_776_254_400_500_000_000).unwrap();
    let ts = offset_to_timestamp(&dt);
    assert_eq!(ts.seconds, dt.unix_timestamp());
    assert_eq!(ts.nanos, 500_000_000);
}

#[test]
fn epoch_roundtrips_to_zero() {
    let dt = OffsetDateTime::UNIX_EPOCH;
    let ts = offset_to_timestamp(&dt);
    assert_eq!(ts.seconds, 0);
    assert_eq!(ts.nanos, 0);
}

#[test]
fn instants_before_the_epoch_round_down() {
    assert_eq!(timestamp_from_unix_nanos(-1), WireTimestamp { seconds: -1, nanos: 999_999_999 });
    assert_eq!(timestamp_from_unix_nanos(-1_000_000_000), WireTimestamp { seconds: -1, nanos: 0 });
    assert_eq!(timestamp_from_unix_nanos(i128::MAX).seconds, i64::MAX);
    assert_eq!(timestamp_from_unix_nanos(i128::MIN).seconds, i64::MAX);
}

#[test]
fn timestamps_read_back_as_the_moment_written() {
    for nanos in [0_i128, 1, -1, 1_776_254_400_500_000_000, -86_400_000_000_001] {
        let ts = timestamp_from_unix_nanos(nanos);
        assert_eq!(timestamp_unix_nanos(ts), nanos);
        let dt = timestamp_to_offset(ts).unwrap();
        assert_eq!(dt.unix_timestamp_nanos(), nanos);
    }
}

#[test]
fn the_representable_range_is_the_time_crates() {
    assert!(OffsetDateTime::from_unix_timestamp(MAX_UNIX_SECONDS).is_ok());
    assert!(OffsetDateTime::from_unix_timestamp(MAX_UNIX_SECONDS + 1).is_err());
    assert!(OffsetDateTime::from_unix_timestamp(MIN_UNIX_SECONDS).is_ok());
    assert!(OffsetDateTime::from_unix_timestamp(MIN_UNIX_SECONDS - 1).is_err());
    assert!(timestamp_to_offset(WireTimestamp { seconds: MAX_UNIX_SECONDS, nanos: 999_999_999 }).is_ok());
    assert_eq!(
        timestamp_to_offset(WireTimestamp { seconds: MAX_UNIX_SECONDS + 1, nanos: 0 }).err(),
        Some(TimestampOutOfRange { seconds: MAX_UNIX_SECONDS + 1 })
    );
    assert!(timestamp_to_offset(WireTimestamp { seconds: i64::MIN, nanos: 0 }).is_err());
}

fn wire(quality: &str, amount: Option<u64>) -> Option<WireBudgetMeasurement> {
    Some(WireBudgetMeasurement { quality: quality.to_owned(), amount })
}

#[test]
fn budget_measurements_read_by_quality() {
    assert_eq!(measurement_from_wire(None), Ok(BudgetMeasurement::Unknown));
    assert_eq!(measurement_from_wire(wire("observed", Some(7))), Ok(BudgetMeasurement::Observed(7)));
    assert_eq!(measurement_from_wire(wire("estimated", Some(9))), Ok(BudgetMeasurement::Estimated(9)));
    assert_eq!(measurement_from_wire(wire("unknown", None)), Ok(BudgetMeasurement::Unknown));
    assert_eq!(measurement_from_wire(wire("unknown", Some(0))), Ok(BudgetMeasurement::Unknown));
    assert_eq!(measurement_from_wire(wire("unknown", Some(3))), Err(BudgetMeasurementError::InvalidQuality));
    assert_eq!(measurement_from_wire(wire("observed", None)), Err(BudgetMeasurementError::MissingAmount));
    assert_eq!(measurement_from_wire(wire("Observed", Some(1))), Err(BudgetMeasurementError::InvalidQuality));
}

#[test]
fn budget_measurements_round_trip() {
    for m in [BudgetMeasurement::Observed(5), BudgetMeasurement::Estimated(0), BudgetMeasurement::Unknown] {
        let w = measurement_to_wire(m);
        assert_eq!(measurement_from_wire(Some(w)), Ok(m));
    }
    assert_eq!(measurement_to_wire(BudgetMeasurement::Unknown), WireBudgetMeasurement { quality: "unknown".to_owned(), amount: None });
}

#[test]
fn an_emission_time_is_the_stated_one_or_now() {
    let now = OffsetDateTime::from_unix_timestamp(1_776_254_400).unwrap();
    assert_eq!(emitted_at_or(None, now), now);
    let stated = emitted_at_or(Some(WireTimestamp { seconds: 1_800_000_000, nanos: 0 }), now);
    assert_ne!(stated, now);
    assert_eq!(stated.unix_timestamp(), 1_800_000_000);
    let past_range = emitted_at_or(Some(WireTimestamp { seconds: i64::MAX, nanos: 0 }), now);
    assert_eq!(past_range, OffsetDateTime::UNIX_EPOCH);
}

#[test]
fn a_moment_with_an_offset_splits_its_own_instant() {
    let moment = OffsetDateTime::new_in_offset(
        time::Date::MIN,
        time::Time::MIDNIGHT,
        time::UtcOffset::from_hms(1, 0, 0).unwrap(),
    );
    let t = offset_to_timestamp(&moment);
    assert_eq!(t.seconds, moment.unix_timestamp());
    assert_eq!(t.seconds, MIN_UNIX_SECONDS - 3600);
    assert_eq!(t.nanos, 0);
    assert_eq!(timestamp_to_offset(t), Err(TimestampOutOfRange { seconds: MIN_UNIX_SECONDS - 3600 }));
    let back = timestamp_to_offset(offset_to_timestamp(&OffsetDateTime::UNIX_EPOCH)).unwrap();
    assert_eq!(back, OffsetDateTime::UNIX_EPOCH);
}
