//! Timer settings for PWM output.
use vstd::prelude::*;

verus! {

/// Largest value of a 16-bit timer register (prescaler, auto-reload, compare).
pub const TIMER_REGISTER_MAX: u32 = 0xffff;

/// Prescaler and auto-reload register values of an up-counting timer.
#[derive(Clone, Copy, Debug, PartialEq, Eq, Structural)]
pub struct PwmTiming {
    /// TIMx_PSC: the timer clock is divided by `psc + 1`.
    pub psc: u16,
    /// TIMx_ARR: the counter runs from 0 to `arr`, a period of `arr + 1` counts.
    pub arr: u16,
}

/// Frequency of the PWM signal from a timer clock of `timer_hz`.
pub open spec fn pwm_frequency_hz(timing: PwmTiming, timer_hz: nat) -> nat {
    timer_hz / ((timing.psc as nat + 1) * (timing.arr as nat + 1))
}

/// The register values that divide the timer clock by `divider` and count a
/// period of `period` steps: `divider - 1` and `period - 1`. `None` when
/// either is zero or does not fit the 16-bit registers.
pub fn pwm_timing(divider: u32, period: u32) -> (r: Option<PwmTiming>)
    ensures
        r is Some <==> (1 <= divider <= TIMER_REGISTER_MAX + 1 && 1 <= period <= TIMER_REGISTER_MAX + 1),
        r matches Some(t) ==> t.psc as int == divider - 1 && t.arr as int == period - 1,
        r matches Some(t) ==> forall|timer_hz: nat| #[trigger] pwm_frequency_hz(t, timer_hz) == timer_hz / (divider as nat * period as nat),
{
    if divider == 0 || divider > TIMER_REGISTER_MAX + 1 || period == 0 || period > TIMER_REGISTER_MAX + 1 {
        None
    } else {
        Some(PwmTiming { psc: (divider - 1) as u16, arr: (period - 1) as u16 })
    }
}

} // verus!
