use imessage_bridge::epoch::{
    from_internal, optional_from_internal, to_internal, unix_nanos_from_secs, NANOS_PER_SEC,
    REFERENCE_OFFSET_NANOS, REFERENCE_OFFSET_SECS,
};

#[test]
fn reference_date_is_internal_zero() {
    assert_eq!(REFERENCE_OFFSET_NANOS, REFERENCE_OFFSET_SECS as i128 * NANOS_PER_SEC as i128);
    assert_eq!(to_internal(REFERENCE_OFFSET_NANOS), Some(0));
    assert_eq!(from_internal(0), 978_307_200_000_000_000);
}

#[test]
fn one_year_after_reference() {
    let internal: i64 = 31_536_000 * 1_000_000_000;
    assert_eq!(from_internal(internal), (978_307_200i128 + 31_536_000) * 1_000_000_000);
    let secs = from_internal(internal) as f64 / 1e9;
    assert!((secs - (978_307_200.0 + 31_536_000.0)).abs() < 1e-6);
}

#[test]
fn round_trip_at_second_inputs() {
    for secs in [0i64, 1, 978_307_200, 978_307_201, 1_700_000_000, -5] {
        let t = unix_nanos_from_secs(secs);
        let back = from_internal(to_internal(t).unwrap());
        assert_eq!(back, t);
    }
}

#[test]
fn round_trip_from_internal() {
    for v in [i64::MIN, -1, 0, 1, 123_456_789, i64::MAX] {
        assert_eq!(to_internal(from_internal(v)), Some(v));
    }
}

#[test]
fn unix_epoch_is_before_reference() {
    assert_eq!(to_internal(0), Some(-978_307_200_000_000_000));
}

#[test]
fn out_of_range_times_have_no_internal_value() {
    assert_eq!(to_internal(i64::MAX as i128 + REFERENCE_OFFSET_NANOS + 1), None);
    assert_eq!(to_internal(i64::MIN as i128 + REFERENCE_OFFSET_NANOS - 1), None);
    assert_eq!(to_internal(i64::MAX as i128 + REFERENCE_OFFSET_NANOS), Some(i64::MAX));
    assert_eq!(to_internal(i64::MIN as i128 + REFERENCE_OFFSET_NANOS), Some(i64::MIN));
}

#[test]
fn zero_sentinel_is_absent() {
    assert_eq!(optional_from_internal(0), None);
    assert_eq!(optional_from_internal(1), Some(REFERENCE_OFFSET_NANOS + 1));
    assert_ne!(optional_from_internal(0), Some(REFERENCE_OFFSET_NANOS));
}

#[test]
fn whole_seconds_to_nanos() {
    assert_eq!(unix_nanos_from_secs(2), 2_000_000_000);
    assert_eq!(unix_nanos_from_secs(-3), -3_000_000_000);
}
