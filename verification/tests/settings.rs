use libinput_scroll_shim::Settings;
use libinput_scroll_shim::AXIS_SCROLL_HORIZONTAL;
use libinput_scroll_shim::AXIS_SCROLL_VERTICAL;
use libinput_scroll_shim::DEFAULT_SCALE_BITS;
use libinput_scroll_shim::SOURCE_CONTINUOUS;
use libinput_scroll_shim::SOURCE_FINGER;
use libinput_scroll_shim::SOURCE_WHEEL;
use libinput_scroll_shim::SOURCE_WHEEL_TILT;

#[test]
fn default_scale_bits_are_the_bits_of_one() {
    assert_eq!(DEFAULT_SCALE_BITS, 1.0f64.to_bits());
}

#[test]
fn missing_base_scale_defaults_to_one() {
    let s = Settings::new(None, None, None, None, None, None);
    assert_eq!(s.scale, 1.0f64.to_bits());
    assert_eq!(s.scale_x, None);
    assert_eq!(s.scale_y, None);
}

#[test]
fn axis_base_prefers_per_axis_override() {
    let base = 2.0f64.to_bits();
    let x = 0.5f64.to_bits();
    let y = 3.0f64.to_bits();
    let s = Settings::new(Some(base), Some(x), Some(y), None, None, None);
    assert_eq!(s.axis_base(AXIS_SCROLL_HORIZONTAL), x);
    assert_eq!(s.axis_base(AXIS_SCROLL_VERTICAL), y);
}

#[test]
fn axis_base_falls_back_to_base_scale() {
    let base = 2.0f64.to_bits();
    let s = Settings::new(Some(base), None, None, None, None, None);
    assert_eq!(s.axis_base(AXIS_SCROLL_HORIZONTAL), base);
    assert_eq!(s.axis_base(AXIS_SCROLL_VERTICAL), base);
    assert_eq!(s.axis_base(5), base);
}

#[test]
fn source_mul_selects_configured_multiplier() {
    let wheel = 3.0f64.to_bits();
    let finger = 0.5f64.to_bits();
    let continuous = 4.0f64.to_bits();
    let s = Settings::new(None, None, None, Some(wheel), Some(finger), Some(continuous));
    assert_eq!(s.source_mul(SOURCE_WHEEL), wheel);
    assert_eq!(s.source_mul(SOURCE_FINGER), finger);
    assert_eq!(s.source_mul(SOURCE_CONTINUOUS), continuous);
    assert_eq!(s.source_mul(SOURCE_WHEEL_TILT), continuous);
}

#[test]
fn source_mul_is_neutral_when_unset_or_unknown() {
    let s = Settings::new(Some(2.0f64.to_bits()), None, None, None, None, None);
    assert_eq!(s.source_mul(SOURCE_WHEEL), DEFAULT_SCALE_BITS);
    assert_eq!(s.source_mul(SOURCE_FINGER), DEFAULT_SCALE_BITS);
    assert_eq!(s.source_mul(SOURCE_CONTINUOUS), DEFAULT_SCALE_BITS);
    assert_eq!(s.source_mul(SOURCE_WHEEL_TILT), DEFAULT_SCALE_BITS);
    assert_eq!(s.source_mul(99), DEFAULT_SCALE_BITS);
    assert_eq!(s.source_mul(-1), DEFAULT_SCALE_BITS);
}

#[test]
fn resolving_settings_twice_gives_bit_identical_records() {
    let inputs = (
        Some(2.5f64.to_bits()),
        Some(0.5f64.to_bits()),
        None,
        Some(3.0f64.to_bits()),
        None,
        Some(1.25f64.to_bits()),
    );
    let first = Settings::new(inputs.0, inputs.1, inputs.2, inputs.3, inputs.4, inputs.5);
    let second = Settings::new(inputs.0, inputs.1, inputs.2, inputs.3, inputs.4, inputs.5);
    assert_eq!(first, second);
}
