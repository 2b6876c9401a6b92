use gain_plugin::params::DawParameters;

#[test]
fn default_is_half_scale() {
    let p = DawParameters::default();
    assert_eq!(p.amplitude, 5000);
    assert_eq!(p.get_parameter(0), 5000);
}

#[test]
fn set_then_get_returns_value() {
    let mut p = DawParameters::default();
    p.set_parameter(0, 7500);
    assert_eq!(p.get_parameter(0), 7500);
    p.set_parameter(0, 0);
    assert_eq!(p.get_parameter(0), 0);
    p.set_parameter(0, 10000);
    assert_eq!(p.get_parameter(0), 10000);
}

#[test]
fn set_clamps_at_range_boundary() {
    let mut p = DawParameters::default();
    p.set_parameter(0, 12000);
    assert_eq!(p.get_parameter(0), 10000);
}

#[test]
fn unknown_index_is_neutral() {
    let mut p = DawParameters::default();
    p.set_parameter(5, 9999);
    assert_eq!(p.get_parameter(0), 5000);
    assert_eq!(p.get_parameter(5), 0);
    assert_eq!(p.get_parameter_name(5), "");
    assert_eq!(p.get_parameter_text(5), "");
}

#[test]
fn gain_is_named_amplitude() {
    let p = DawParameters::default();
    assert_eq!(p.get_parameter_name(0), "Amplitude");
}

#[test]
fn text_at_three_quarters() {
    let mut p = DawParameters::default();
    p.set_parameter(0, 7500);
    // (0.75 - 0.5) * 2 = 0.50
    assert_eq!(p.get_parameter_text(0), "0.50");
}

#[test]
fn text_across_the_range() {
    let mut p = DawParameters::default();
    assert_eq!(p.get_parameter_text(0), "0.00");
    p.set_parameter(0, 10000);
    assert_eq!(p.get_parameter_text(0), "1.00");
    p.set_parameter(0, 0);
    assert_eq!(p.get_parameter_text(0), "-1.00");
    p.set_parameter(0, 2500);
    assert_eq!(p.get_parameter_text(0), "-0.50");
}

#[test]
fn text_rounds_to_nearest_hundredth() {
    let mut p = DawParameters::default();
    p.set_parameter(0, 5024);
    assert_eq!(p.get_parameter_text(0), "0.00");
    p.set_parameter(0, 5025);
    assert_eq!(p.get_parameter_text(0), "0.01");
    p.set_parameter(0, 4976);
    assert_eq!(p.get_parameter_text(0), "0.00");
    p.set_parameter(0, 4975);
    assert_eq!(p.get_parameter_text(0), "-0.01");
}
