use bluepill::blink::{led_toggle_value, systick_reload};

#[test]
fn led_toggle_turns_high_led_low() {
    assert_eq!(led_toggle_value(0x2000), 0);
    assert_eq!(led_toggle_value(0xffff), 0);
}

#[test]
fn led_toggle_turns_low_led_high() {
    assert_eq!(led_toggle_value(0), 0x2000);
    assert_eq!(led_toggle_value(0x1fff), 0x2000);
}

#[test]
fn led_toggle_twice_restores_level() {
    for odr in [0u32, 0x2000, 0x1234, 0xdead_beef] {
        let twice = led_toggle_value(led_toggle_value(odr));
        assert_eq!(twice & 0x2000, odr & 0x2000);
    }
}

#[test]
fn systick_reload_for_50hz_at_72mhz() {
    assert_eq!(systick_reload(72_000_000, 50), Some(1_440_000 - 1));
}

#[test]
fn systick_reload_rejects_what_the_counter_cannot_hold() {
    // one interrupt per second at 72 MHz needs 72_000_000 ticks: over 24 bits
    assert_eq!(systick_reload(72_000_000, 1), None);
    assert_eq!(systick_reload(8_000_000, 1), Some(7_999_999));
    assert_eq!(systick_reload(16_777_216, 1), Some(0x00ff_ffff));
    assert_eq!(systick_reload(16_777_217, 1), None);
    assert_eq!(systick_reload(1000, 0), None);
    assert_eq!(systick_reload(10, 20), None);
    // a reload value of 0 would stop the counter
    assert_eq!(systick_reload(1000, 1000), None);
    assert_eq!(systick_reload(2000, 1000), Some(1));
}
