use plinth_params::{
    IntFormatter, IntParameter, IntRange, Normalized, RecordingSink, SilentSink, UNIT_SCALE,
};

fn gain_range() -> IntRange {
    IntRange::new(0, 100)
}

fn make_param(range: IntRange) -> IntParameter<SilentSink> {
    IntParameter::<SilentSink>::new(7, "gain".to_string(), range)
}

#[test]
fn new_parameter_starts_at_range_minimum() {
    let p = make_param(IntRange::new(-12, 12));
    assert_eq!(p.serialize_value(), -12);
    assert_eq!(p.info().id(), 7);
    assert_eq!(p.info().name().as_str(), "gain");
    assert_eq!(p.info().steps(), 24);
}

#[test]
fn clamp_invariant_on_out_of_range_writes() {
    let mut p = make_param(gain_range());
    // far above 1.0, and far below 0.0: both land in range, reads stay unit
    for units in [i64::MIN, -1, 0, UNIT_SCALE / 3, UNIT_SCALE, UNIT_SCALE + 1, i64::MAX] {
        p.set_normalized_value(Normalized::from_units(units)).unwrap();
        let plain = p.serialize_value();
        assert!((0..=100).contains(&plain));
        let n = p.normalized_value();
        assert!(n.units() >= 0 && n.units() <= UNIT_SCALE);
    }
}

#[test]
fn continuous_round_trip_over_zero_to_hundred() {
    let p = make_param(gain_range());
    for x in 0..=100i64 {
        let n = p.plain_to_normalized(x);
        assert_eq!(p.normalized_to_plain(n), x);
    }
}

#[test]
fn stepped_quarters_map_to_buckets() {
    let range = IntRange::new(0, 4);
    let p = make_param(range);
    let cases = [(0u64, 0i64), (1, 1), (2, 2), (3, 3), (4, 4)];
    for (num, expected) in cases {
        let n = Normalized::from_ratio(num, 4);
        assert_eq!(p.normalized_to_plain(n), expected);
    }
    // plain value 2 maps back to exactly one half
    let half = p.plain_to_normalized(2);
    assert_eq!(half.units(), UNIT_SCALE / 2);
}

#[test]
fn degenerate_range_never_divides_and_maps_to_min() {
    let range = IntRange::new(5, 5);
    assert_eq!(range.steps(), 0);
    let p = make_param(range);
    for units in [i64::MIN, -1, 0, 1, UNIT_SCALE / 2, UNIT_SCALE, i64::MAX] {
        assert_eq!(p.normalized_to_plain(Normalized::from_units(units)), 5);
    }
    assert_eq!(range.plain_to_normalized(5).unwrap().units(), 0);
    assert_eq!(range.plain_to_normalized(6), None);
}

#[test]
fn modulation_and_value_are_independent() {
    let mut p = make_param(gain_range());
    p.set_value(42);
    let before = p.normalized_value();
    // modulation may be out of the unit interval, and is stored unclamped
    p.set_normalized_modulation(Normalized::from_units(-3 * UNIT_SCALE));
    assert_eq!(p.normalized_value().units(), before.units());
    assert_eq!(p.serialize_value(), 42);
    assert_eq!(p.normalized_modulation().units(), -3 * UNIT_SCALE);
    // and a value write leaves modulation alone
    p.set_value(77);
    assert_eq!(p.normalized_modulation().units(), -3 * UNIT_SCALE);
}

#[test]
fn snapshot_is_isolated_from_later_writes() {
    let mut original = make_param(gain_range());
    original.set_value(30);
    let mut copy = original.snapshot();
    original.set_value(90);
    assert_eq!(copy.serialize_value(), 30);
    copy.set_value(10);
    assert_eq!(original.serialize_value(), 90);
    assert_eq!(copy.info().id(), original.info().id());
}

#[test]
fn clone_is_isolated_from_later_writes() {
    let mut original = make_param(gain_range());
    original.set_value(25);
    let copy = original.clone();
    original.set_value(60);
    assert_eq!(copy.serialize_value(), 25);
}

#[test]
fn serialization_round_trip_is_a_no_op() {
    let mut p = make_param(gain_range()).with_default_value(0);
    p.set_value(64);
    let persisted = p.serialize_value();
    p.deserialize_value(persisted).unwrap();
    assert_eq!(p.serialize_value(), 64);
}

#[test]
fn deserializing_out_of_range_clamps_instead_of_failing() {
    let mut p = make_param(gain_range());
    assert!(p.deserialize_value(i64::MAX).is_ok());
    assert_eq!(p.serialize_value(), 100);
    assert!(p.deserialize_value(i64::MIN).is_ok());
    assert_eq!(p.serialize_value(), 0);
}

#[test]
fn default_value_follows_the_descriptor() {
    let p = make_param(gain_range()).with_default_value(50);
    assert_eq!(p.default_value(), 50);
    assert_eq!(p.serialize_value(), 50);
}

#[test]
fn with_path_keeps_identity() {
    let p = make_param(gain_range()).with_path("synth/osc".to_string());
    assert_eq!(p.info().path().as_str(), "synth/osc");
    assert_eq!(p.info().id(), 7);
}

#[test]
fn sink_hears_every_write_with_the_clamped_value() {
    let range = gain_range();
    let mut p = IntParameter::<RecordingSink>::new(1, "level".to_string(), range)
        .on_value_changed(RecordingSink::new());
    p.set_value(1000);
    assert_eq!(p.sink.as_ref().unwrap().last_plain, Some(100));
    p.set_normalized_value(Normalized::from_ratio(1, 2)).unwrap();
    let mid = p.serialize_value();
    assert_eq!(p.sink.as_ref().unwrap().last_plain, Some(mid));
    p.set_normalized_modulation(Normalized::from_units(5));
    assert_eq!(p.sink.as_ref().unwrap().last_plain, Some(mid));
}

#[test]
fn normalized_text_round_trip_through_cell() {
    let p = make_param(gain_range()).with_formatter(IntFormatter::new(" %"));
    let n = p.plain_to_normalized(42);
    let text = p.normalized_to_string(n);
    assert_eq!(text, "42 %");
    let back = p.string_to_normalized(&text).unwrap();
    assert_eq!(p.normalized_to_plain(back), 42);
}

#[test]
fn string_to_normalized_rejects_out_of_range_and_garbage() {
    let p = make_param(gain_range());
    assert!(p.string_to_normalized("101").is_none());
    assert!(p.string_to_normalized("-1").is_none());
    assert!(p.string_to_normalized("forte").is_none());
    assert!(p.string_to_normalized("").is_none());
    assert!(p.string_to_normalized("100").is_some());
    assert!(p.string_to_normalized("0").is_some());
}

#[test]
fn widest_possible_range_maps_endpoints_exactly() {
    let range = IntRange::new(i64::MIN, i64::MAX);
    assert_eq!(range.steps(), u64::MAX);
    let p = IntParameter::<SilentSink>::new(2, "wide".to_string(), range);
    assert_eq!(p.normalized_to_plain(Normalized::one()), i64::MAX);
    assert_eq!(p.normalized_to_plain(Normalized::zero()), i64::MIN);
    assert_eq!(p.normalized_to_plain(Normalized::from_units(-5)), i64::MIN);
    assert_eq!(p.plain_to_normalized(i64::MAX).units(), UNIT_SCALE);
    assert_eq!(p.plain_to_normalized(i64::MIN).units(), 0);
}

#[test]
fn range_crossing_zero_round_trips_symmetrically() {
    let p = make_param(IntRange::new(-100, 100));
    assert_eq!(p.plain_to_normalized(0).units(), UNIT_SCALE / 2);
    for x in [-100, -99, -1, 0, 1, 99, 100] {
        let n = p.plain_to_normalized(x);
        assert_eq!(p.normalized_to_plain(n), x);
    }
}
