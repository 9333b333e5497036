use uptime_id::id::new_identifier;
use uptime_id::id::Id;
use uptime_id::id::IdError;

#[test]
fn test_default_constructor() {
    let id = new_identifier().unwrap();

    assert!(id.value() > 0);
}

#[test]
fn test_sequence_of_unique_id() {
    let id1 = new_identifier().unwrap();
    let id2 = new_identifier().unwrap();

    assert!(id1 != id2);
}

#[test]
fn from_parts_combines_shift_and_addition() {
    let id = Id::from_parts(2, 5);

    assert_eq!(id.value(), 0x2_0000_0000_0000_0005_u128);
}

#[test]
fn from_parts_zero_readings_give_zero() {
    assert_eq!(Id::from_parts(0, 0).value(), 0);
}

#[test]
fn from_parts_uptime_fills_high_bits() {
    assert_eq!(Id::from_parts(1, 0).value(), 1u128 << 64);
}

#[test]
fn from_parts_extreme_readings_wrap_like_the_addition() {
    let id = Id::from_parts(u64::MAX, u128::MAX);

    assert_eq!(id.value(), u128::MAX - (1u128 << 64));
}

#[test]
fn from_readings_reports_clock_before_epoch() {
    assert_eq!(Id::from_readings(None, Some(3)), Err(IdError::ClockBeforeEpoch));
    assert_eq!(Id::from_readings(None, None), Err(IdError::ClockBeforeEpoch));
}

#[test]
fn from_readings_reports_uptime_unavailable() {
    assert_eq!(Id::from_readings(Some(7), None), Err(IdError::UptimeUnavailable));
}

#[test]
fn from_readings_builds_the_exact_value() {
    let id = Id::from_readings(Some(5), Some(2)).unwrap();

    assert_eq!(id.value(), 0x2_0000_0000_0000_0005_u128);
}

#[test]
fn value_is_stable_across_reads() {
    let id = new_identifier().unwrap();
    let first = id.value();
    let second = id.value();

    assert_eq!(first, second);
}

#[test]
fn value_fits_the_full_128_bit_range() {
    let v: u128 = new_identifier().unwrap().value();

    assert!(v > 0);
    assert!(v <= u128::MAX);
}

#[test]
fn distinct_timestamps_give_distinct_identifiers() {
    assert!(Id::from_parts(7, 100) != Id::from_parts(7, 101));
    assert!(Id::from_parts(0, 1) != Id::from_parts(u64::MAX, 2));
}

#[test]
fn equal_readings_give_equal_identifiers() {
    let a = Id::from_parts(2, 5);
    let b = Id::from_parts(2, 5);

    assert_eq!(a, b);
    assert_eq!(a.clone(), b);
}
