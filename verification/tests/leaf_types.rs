use plinth_params::{Normalized, ParameterInfo, UNIT_SCALE};

#[test]
fn normalized_constructors_and_clamping() {
    assert_eq!(Normalized::zero().units(), 0);
    assert_eq!(Normalized::one().units(), UNIT_SCALE);
    assert_eq!(Normalized::from_units(-7).units(), -7);
    assert_eq!(Normalized::from_ratio(1, 4).units(), UNIT_SCALE / 4);
    assert_eq!(Normalized::from_ratio(3, 3).units(), UNIT_SCALE);
    assert_eq!(Normalized::from_units(-1).clamp_to_unit().units(), 0);
    assert_eq!(Normalized::from_units(UNIT_SCALE + 1).clamp_to_unit().units(), UNIT_SCALE);
    let half = Normalized::from_ratio(1, 2);
    assert_eq!(half.clamp_to_unit(), half);
}

#[test]
fn parameter_info_builders_compose() {
    let info = ParameterInfo::new(11, "cutoff".to_string())
        .with_steps(127)
        .with_path("filter".to_string())
        .with_default_normalized_value(Normalized::from_ratio(1, 2));
    assert_eq!(info.id(), 11);
    assert_eq!(info.name().as_str(), "cutoff");
    assert_eq!(info.path().as_str(), "filter");
    assert_eq!(info.steps(), 127);
    assert_eq!(info.default_normalized_value().units(), UNIT_SCALE / 2);
    let copy = info.clone();
    assert_eq!(copy.id(), info.id());
    assert_eq!(copy.name().as_str(), info.name().as_str());
    assert_eq!(copy.steps(), info.steps());
}
