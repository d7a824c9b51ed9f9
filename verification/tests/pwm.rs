use bluepill::pwm::{pwm_timing, PwmTiming};

#[test]
fn pwm_timing_for_tim1_example() {
    assert_eq!(pwm_timing(4000, 100), Some(PwmTiming { psc: 4000 - 1, arr: 100 - 1 }));
}

#[test]
fn pwm_timing_limits() {
    assert_eq!(pwm_timing(0, 100), None);
    assert_eq!(pwm_timing(4000, 0), None);
    assert_eq!(pwm_timing(65_536, 65_536), Some(PwmTiming { psc: 0xffff, arr: 0xffff }));
    assert_eq!(pwm_timing(65_537, 100), None);
    assert_eq!(pwm_timing(1, 65_537), None);
    assert_eq!(pwm_timing(1, 1), Some(PwmTiming { psc: 0, arr: 0 }));
}
