use plinth_params::IntFormatter;

#[test]
fn value_to_string_appends_the_unit() {
    let f = IntFormatter::new(" ms");
    assert_eq!(f.value_to_string(42), "42 ms");
    assert_eq!(f.value_to_string(0), "0 ms");
    assert_eq!(f.value_to_string(-7), "-7 ms");
}

#[test]
fn value_to_string_without_unit() {
    let f = IntFormatter::new("");
    assert_eq!(f.value_to_string(123), "123");
    assert_eq!(f.value_to_string(i64::MIN), "-9223372036854775808");
    assert_eq!(f.value_to_string(i64::MAX), "9223372036854775807");
}

#[test]
fn formatter_round_trip_for_representable_values() {
    let f = IntFormatter::new(" Hz");
    for x in [i64::MIN, i64::MIN + 1, -1000, -1, 0, 1, 9, 10, 99, 1234567, i64::MAX] {
        assert_eq!(f.string_to_value(&f.value_to_string(x)), Some(x));
    }
    let bare = IntFormatter::new("");
    for x in [i64::MIN, -42, 0, 42, i64::MAX] {
        assert_eq!(bare.string_to_value(&bare.value_to_string(x)), Some(x));
    }
}

#[test]
fn string_to_value_accepts_suffix_and_bare_numbers() {
    let f = IntFormatter::new(" ms");
    assert_eq!(f.string_to_value("5 ms"), Some(5));
    assert_eq!(f.string_to_value("5"), Some(5));
    assert_eq!(f.string_to_value("+5 ms"), Some(5));
    assert_eq!(f.string_to_value("-5 ms"), Some(-5));
    assert_eq!(f.string_to_value("0005"), Some(5));
}

#[test]
fn string_to_value_rejects_malformed_text() {
    let f = IntFormatter::new(" ms");
    assert_eq!(f.string_to_value(""), None);
    assert_eq!(f.string_to_value(" ms"), None);
    assert_eq!(f.string_to_value("+"), None);
    assert_eq!(f.string_to_value("-"), None);
    assert_eq!(f.string_to_value("- 5"), None);
    assert_eq!(f.string_to_value("5 ms extra"), None);
    assert_eq!(f.string_to_value("5m s"), None);
    assert_eq!(f.string_to_value("five"), None);
    assert_eq!(f.string_to_value("5.0"), None);
    assert_eq!(f.string_to_value("½"), None);
}

#[test]
fn string_to_value_rejects_values_that_do_not_fit() {
    let f = IntFormatter::new("");
    assert_eq!(f.string_to_value("9223372036854775807"), Some(i64::MAX));
    assert_eq!(f.string_to_value("9223372036854775808"), None);
    assert_eq!(f.string_to_value("-9223372036854775808"), Some(i64::MIN));
    assert_eq!(f.string_to_value("-9223372036854775809"), None);
    assert_eq!(f.string_to_value("99999999999999999999999999"), None);
}

#[test]
fn unit_that_looks_like_digits_still_round_trips() {
    // the unit is stripped before parsing, so a numeric unit is harmless
    let f = IntFormatter::new("2");
    assert_eq!(f.value_to_string(1), "12");
    assert_eq!(f.string_to_value("12"), Some(1));
}

#[test]
fn non_ascii_unit_round_trips() {
    let f = IntFormatter::new(" °");
    assert_eq!(f.value_to_string(90), "90 °");
    assert_eq!(f.string_to_value("90 °"), Some(90));
    assert_eq!(f.string_to_value("90"), Some(90));
}
