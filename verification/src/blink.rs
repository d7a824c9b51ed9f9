//! The blinking on-board LED (PC13) driven by the SysTick timer.
use vstd::prelude::*;

use crate::bits::{self, get_field, set_field};

verus! {

/// Pin of port C that drives the on-board LED.
pub const LED_PIN: u32 = 13;
/// Value of GPIOx_ODR after reset: every output low.
pub const ODR_RESET: u32 = 0;
/// Largest value the 24-bit SysTick reload register holds.
pub const SYSTICK_RELOAD_MAX: u32 = 0x00ff_ffff;

/// Level of the LED pin in an output data register value.
pub open spec fn led_level(odr: u32) -> u32 {
    bits::field_of(odr, LED_PIN, 1)
}

/// The output data register value that inverts the LED: a write of the
/// reset value with the LED pin at the level opposite to the one read.
pub open spec fn toggled_odr(odr: u32) -> u32 {
    bits::with_field(ODR_RESET, LED_PIN, 1, if led_level(odr) == 1 { 0 } else { 1 })
}

/// Decision of the SysTick handler: given GPIOC_ODR as read, the value to
/// write so that the LED changes state (low when it was high, high otherwise).
pub fn led_toggle_value(odr: u32) -> (r: u32)
    ensures
        r == toggled_odr(odr),
        led_level(r) != led_level(odr),
        r == (if led_level(odr) == 1 { 0u32 } else { 1u32 << LED_PIN }),
{
    proof {
        let l = led_level(odr);
        assert(bits::field_of(bits::with_field(0, 13, 1, 0), 13, 1) == 0) by (bit_vector);
        assert(bits::field_of(bits::with_field(0, 13, 1, 1), 13, 1) == 1) by (bit_vector);
        assert(bits::with_field(0, 13, 1, 0) == 0u32) by (bit_vector);
        assert(bits::with_field(0, 13, 1, 1) == 1u32 << 13) by (bit_vector);
        assert(l == 0 || l == 1) by (bit_vector)
            requires
                l == bits::field_of(odr, 13, 1),
        ;
    }
    if get_field(odr, LED_PIN, 1) == 1 {
        set_field(ODR_RESET, LED_PIN, 1, 0)
    } else {
        set_field(ODR_RESET, LED_PIN, 1, 1)
    }
}

/// Two toggles bring the LED back to the level it had.
pub proof fn lemma_toggle_twice(odr: u32)
    ensures
        led_level(toggled_odr(toggled_odr(odr))) == led_level(odr),
{
    let l = led_level(odr);
    assert(l == 0 || l == 1) by (bit_vector)
        requires
            l == bits::field_of(odr, 13, 1),
    ;
    assert(bits::field_of(bits::with_field(0, 13, 1, 0), 13, 1) == 0) by (bit_vector);
    assert(bits::field_of(bits::with_field(0, 13, 1, 1), 13, 1) == 1) by (bit_vector);
}

/// The SysTick reload value for `tick_hz` interrupts per second from a core
/// clock of `core_hz`: the counter wraps every `N` core ticks when the reload
/// value is `N - 1`, and reload values from 1 to 0x00ff_ffff are valid.
/// `None` when no valid reload value gives that rate.
pub fn systick_reload(core_hz: u32, tick_hz: u32) -> (r: Option<u32>)
    ensures
        tick_hz == 0 ==> r is None,
        tick_hz > 0 ==> (r is Some <==> 2 <= core_hz / tick_hz <= SYSTICK_RELOAD_MAX as int + 1),
        r matches Some(v) ==> v == core_hz / tick_hz - 1 && 1 <= v <= SYSTICK_RELOAD_MAX,
{
    if tick_hz == 0 {
        return None;
    }
    let ticks = core_hz / tick_hz;
    if ticks < 2 || ticks > SYSTICK_RELOAD_MAX + 1 {
        None
    } else {
        Some(ticks - 1)
    }
}

} // verus!
