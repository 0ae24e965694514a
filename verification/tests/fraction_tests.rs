use niri_tag_sidebar::fraction::{
    clamp_fraction, easing_step, magnitude_fraction, readout_percent, reveal_margin, FULL,
};

#[test]
fn clamping() {
    assert_eq!(clamp_fraction(-1), 0);
    assert_eq!(clamp_fraction(0), 0);
    assert_eq!(clamp_fraction(123_456), 123_456);
    assert_eq!(clamp_fraction(FULL + 1), FULL);
    assert_eq!(magnitude_fraction(-300_000), 300_000);
    assert_eq!(magnitude_fraction(-3_000_000), FULL);
    assert_eq!(magnitude_fraction(i64::MIN), FULL);
    assert_eq!(magnitude_fraction(2_000_000), FULL);
    assert_eq!(magnitude_fraction(42), 42);
}

#[test]
fn readout_rounds_half_to_even() {
    assert_eq!(readout_percent(0), 0);
    assert_eq!(readout_percent(FULL), 100);
    assert_eq!(readout_percent(125_000), 12);
    assert_eq!(readout_percent(135_000), 14);
    assert_eq!(readout_percent(333_333), 33);
    assert_eq!(readout_percent(5_000), 0);
    assert_eq!(readout_percent(15_000), 2);
    assert_eq!(readout_percent(995_000), 100);
    assert_eq!(readout_percent(994_999), 99);
}

#[test]
fn margin_slides_the_panel_off_its_edge() {
    assert_eq!(reveal_margin(FULL, 300), 0);
    assert_eq!(reveal_margin(0, 300), -300);
    assert_eq!(reveal_margin(500_000, 300), -150);
    assert_eq!(reveal_margin(1, 3), -2);
    assert_eq!(reveal_margin(133_333, 400), -346);
    assert_eq!(reveal_margin(0, -10), 10);
    assert_eq!(reveal_margin(0, i32::MIN), i32::MAX);
    assert_eq!(reveal_margin(FULL, i32::MIN), 0);
}

#[test]
fn easing_moves_two_fifteenths_toward_target() {
    assert_eq!(easing_step(FULL), 133_333);
    assert_eq!(easing_step(-FULL), -133_333);
    assert_eq!(easing_step(100), 13);
    assert_eq!(easing_step(-100), -13);
    assert_eq!(easing_step(7), 0);
    assert_eq!(easing_step(0), 0);
}
