use esp32c3_demos::scale::{
    adc_millivolts, fade_cycle, potentiometer_duty, pwm_period_ms, pwm_split, sweep_duty,
};
use esp32c3_demos::scale;
use esp32c3_demos::sensors::{
    dial_pattern, joystick_button_pressed, joystick_position, light_condition, JoystickPosition,
    LightCondition,
};

#[test]
fn map_scales_adc_reading_to_percent() {
    assert_eq!(scale::map(0, 0, 4095, 0, 100), 0);
    assert_eq!(scale::map(4095, 0, 4095, 0, 100), 100);
    assert_eq!(scale::map(2048, 0, 4095, 0, 100), 50);
    assert_eq!(scale::map(1000, 0, 4095, 0, 100), 24);
}

#[test]
fn map_with_offset_ranges() {
    assert_eq!(scale::map(15, 10, 20, 100, 200), 150);
    assert_eq!(scale::map(10, 10, 20, 100, 200), 100);
    assert_eq!(scale::map(20, 10, 20, 100, 200), 200);
    assert_eq!(scale::map(19, 10, 20, 100, 200), 190);
}

#[test]
fn map_stays_in_output_range_and_keeps_order() {
    let mut last = 0;
    for x in 0..=4095u32 {
        let m = scale::map(x, 0, 4095, 0, 100);
        assert!(m <= 100);
        assert!(m >= last);
        last = m;
    }
}

#[test]
fn potentiometer_duty_follows_reading() {
    assert_eq!(potentiometer_duty(0), Some(0));
    assert_eq!(potentiometer_duty(4095), Some(100));
    assert_eq!(potentiometer_duty(2047), Some(49));
    assert_eq!(potentiometer_duty(10_000), Some(244));
    assert_eq!(potentiometer_duty(10_500), None);
    assert_eq!(potentiometer_duty(u16::MAX), None);
}

#[test]
fn sweep_duty_is_thousandths() {
    assert_eq!(sweep_duty(0), 0);
    assert_eq!(sweep_duty(999), 0);
    assert_eq!(sweep_duty(1000), 1);
    assert_eq!(sweep_duty(99_999), 99);
    assert_eq!(sweep_duty(255_999), 255);
}

#[test]
fn adc_millivolts_exact_values() {
    assert_eq!(adc_millivolts(0), 0);
    assert_eq!(adc_millivolts(4095), 3300);
    assert_eq!(adc_millivolts(2048), 1650);
    assert_eq!(adc_millivolts(1), 0);
    assert_eq!(adc_millivolts(u16::MAX), 52812);
}

#[test]
fn fade_cycle_rises_then_falls() {
    let duties = fade_cycle(0, 100);
    assert_eq!(duties.len(), 200);
    assert_eq!(duties[0], 0);
    assert_eq!(duties[99], 99);
    assert_eq!(duties[100], 99);
    assert_eq!(duties[199], 0);
    for i in 0..200 {
        assert_eq!(duties[i], duties[199 - i]);
    }
    assert_eq!(fade_cycle(3, 6), vec![3, 4, 5, 5, 4, 3]);
    assert!(fade_cycle(7, 7).is_empty());
    assert!(fade_cycle(9, 3).is_empty());
}

#[test]
fn software_pwm_split() {
    let period = pwm_period_ms(1000);
    assert_eq!(period, 10);
    assert_eq!(pwm_split(period, 0), (0, 10));
    assert_eq!(pwm_split(period, 55), (5, 5));
    assert_eq!(pwm_split(period, 99), (9, 1));
    assert_eq!(pwm_split(period, 100), (10, 0));
    assert_eq!(pwm_split(0, 500), (0, 0));
    assert_eq!(pwm_split(10, 109), (10, 0));
    for intensity in 0..=100 {
        let (on, off) = pwm_split(37, intensity);
        assert_eq!(on + off, 37);
    }
}

#[test]
fn joystick_positions() {
    assert_eq!(joystick_position(4095, 4095), JoystickPosition::TopLeft);
    assert_eq!(joystick_position(4095, 2048), JoystickPosition::Top);
    assert_eq!(joystick_position(4095, 0), JoystickPosition::TopRight);
    assert_eq!(joystick_position(2048, 4095), JoystickPosition::Left);
    assert_eq!(joystick_position(2048, 2048), JoystickPosition::Center);
    assert_eq!(joystick_position(2048, 0), JoystickPosition::Right);
    assert_eq!(joystick_position(0, 4095), JoystickPosition::BottomLeft);
    assert_eq!(joystick_position(0, 2048), JoystickPosition::Bottom);
    assert_eq!(joystick_position(0, 0), JoystickPosition::BottomRight);
    assert_eq!(joystick_position(2047, 2048), JoystickPosition::Unknown);
    assert_eq!(joystick_position(4095, 1), JoystickPosition::Unknown);
}

#[test]
fn joystick_names() {
    assert_eq!(joystick_position(4095, 4095).name(), "Top-Left");
    assert_eq!(joystick_position(2048, 2048).name(), "Center");
    assert_eq!(joystick_position(0, 0).name(), "Bottom-Right");
    assert_eq!(joystick_position(1, 1).name(), "Unknown");
    assert!(joystick_button_pressed(0));
    assert!(!joystick_button_pressed(1));
}

#[test]
fn light_conditions_at_band_edges() {
    assert_eq!(light_condition(4095), LightCondition::FullMoon);
    assert_eq!(light_condition(4000), LightCondition::FullMoon);
    assert_eq!(light_condition(3999), LightCondition::DeepTwilight);
    assert_eq!(light_condition(3940), LightCondition::DeepTwilight);
    assert_eq!(light_condition(3412), LightCondition::Twilight);
    assert_eq!(light_condition(2532), LightCondition::ComputerMonitor);
    assert_eq!(light_condition(2044), LightCondition::StairwayLighting);
    assert_eq!(light_condition(1124), LightCondition::OfficeLighting);
    assert_eq!(light_condition(680), LightCondition::OvercastDay);
    assert_eq!(light_condition(156), LightCondition::FullDaylight);
    assert_eq!(light_condition(32), LightCondition::DirectSunlight);
    assert_eq!(light_condition(31), LightCondition::Unknown);
    assert_eq!(light_condition(0), LightCondition::Unknown);
    assert_eq!(light_condition(3000).name(), "Computer monitor");
    assert_eq!(light_condition(100).name(), "Direct sunlight");
}

#[test]
fn dial_patterns() {
    assert_eq!(dial_pattern(0), [1, 1, 0, 0, 0, 0, 0, 0]);
    assert_eq!(dial_pattern(999), [1, 1, 0, 0, 0, 0, 0, 0]);
    assert_eq!(dial_pattern(1000), [1, 1, 1, 1, 0, 0, 0, 0]);
    assert_eq!(dial_pattern(2500), [1, 1, 1, 1, 1, 1, 0, 0]);
    assert_eq!(dial_pattern(3000), [1, 1, 1, 1, 1, 1, 1, 1]);
    assert_eq!(dial_pattern(4095), [1, 1, 1, 1, 1, 1, 1, 1]);
}
