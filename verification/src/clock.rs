//! Start-up of the system clock: 8 MHz crystal (HSE) through the PLL to 72 MHz.
//!
//! The sequence writes the flash wait states, turns the crystal oscillator on,
//! configures and starts the PLL, sets the bus prescalers and finally switches
//! the system clock to the PLL, waiting on the hardware's ready flags between
//! the steps. The library decides every step and every register value; the
//! caller performs the register accesses (see [`system_clock_init_step`]).
use vstd::prelude::*;

use crate::bits::{self, get_field, set_field};

verus! {

// ---------------------------------------------------------------------------
// Register layout (RM0008: FLASH_ACR, RCC_CR, RCC_CFGR)
// ---------------------------------------------------------------------------

/// Value of FLASH_ACR after reset (prefetch buffer enabled).
pub const FLASH_ACR_RESET: u32 = 0x30;
/// FLASH_ACR.LATENCY: number of flash wait states.
pub const ACR_LATENCY_OFFSET: u32 = 0;
pub const ACR_LATENCY_MASK: u32 = 0x7;

/// RCC_CR bit positions.
pub const CR_HSEON: u32 = 16;
pub const CR_HSERDY: u32 = 17;
pub const CR_HSEBYP: u32 = 18;
pub const CR_CSSON: u32 = 19;
pub const CR_PLLON: u32 = 24;
pub const CR_PLLRDY: u32 = 25;

/// RCC_CFGR fields: offsets and masks.
pub const CFGR_SW_OFFSET: u32 = 0;
pub const CFGR_SW_MASK: u32 = 0x3;
pub const CFGR_SWS_OFFSET: u32 = 2;
pub const CFGR_SWS_MASK: u32 = 0x3;
pub const CFGR_HPRE_OFFSET: u32 = 4;
pub const CFGR_HPRE_MASK: u32 = 0xf;
pub const CFGR_PPRE1_OFFSET: u32 = 8;
pub const CFGR_PPRE1_MASK: u32 = 0x7;
pub const CFGR_PPRE2_OFFSET: u32 = 11;
pub const CFGR_PPRE2_MASK: u32 = 0x7;
pub const CFGR_PLLSRC_OFFSET: u32 = 16;
pub const CFGR_PLLXTPRE_OFFSET: u32 = 17;
pub const CFGR_PLLMUL_OFFSET: u32 = 18;
pub const CFGR_PLLMUL_MASK: u32 = 0xf;

/// SW / SWS encodings of the system clock source.
pub const SYSCLK_SOURCE_HSI: u32 = 0;
pub const SYSCLK_SOURCE_HSE: u32 = 1;
pub const SYSCLK_SOURCE_PLL: u32 = 2;

/// PLLMUL encoding of "input times 9".
pub const PLLMUL_MUL9: u32 = 7;
/// PPRE encoding of "HCLK divided by 2".
pub const PPRE_DIV2: u32 = 4;

/// Frequency of the internal RC oscillator.
pub const HSI_HZ: u32 = 8_000_000;
/// Frequency of the board's crystal.
pub const HSE_HZ: u32 = 8_000_000;
/// Highest frequency the low-speed peripheral bus (APB1) may run at.
pub const APB1_MAX_HZ: u32 = 36_000_000;
/// Highest system clock frequency of the device.
pub const SYSCLK_MAX_HZ: u32 = 72_000_000;

// ---------------------------------------------------------------------------
// The clock tree as a function of RCC_CFGR
// ---------------------------------------------------------------------------

/// Multiplication factor of the PLL selected by CFGR.PLLMUL (2..16).
pub open spec fn pll_factor(cfgr: u32) -> nat {
    let m = bits::field_of(cfgr, CFGR_PLLMUL_OFFSET, CFGR_PLLMUL_MASK);
    if m < 14 {
        (m + 2) as nat
    } else {
        16
    }
}

/// Frequency entering the PLL: HSI/2, or HSE divided by 1 or 2 (CFGR.PLLXTPRE).
pub open spec fn pll_input_hz(cfgr: u32, hse_hz: nat) -> nat {
    if bits::field_of(cfgr, CFGR_PLLSRC_OFFSET, 1) == 0 {
        (HSI_HZ / 2) as nat
    } else if bits::field_of(cfgr, CFGR_PLLXTPRE_OFFSET, 1) == 0 {
        hse_hz
    } else {
        hse_hz / 2
    }
}

/// System clock frequency selected by CFGR.SW (`None` for the reserved encoding).
pub open spec fn sysclk_hz(cfgr: u32, hse_hz: nat) -> Option<nat> {
    let sw = bits::field_of(cfgr, CFGR_SW_OFFSET, CFGR_SW_MASK);
    if sw == SYSCLK_SOURCE_HSI {
        Some(HSI_HZ as nat)
    } else if sw == SYSCLK_SOURCE_HSE {
        Some(hse_hz)
    } else if sw == SYSCLK_SOURCE_PLL {
        Some(pll_input_hz(cfgr, hse_hz) * pll_factor(cfgr))
    } else {
        None
    }
}

/// Divisor of the AHB prescaler CFGR.HPRE (0xxx: 1, then 2, 4, 8, 16, 64, 128, 256, 512).
pub open spec fn ahb_divisor(cfgr: u32) -> nat {
    let h = bits::field_of(cfgr, CFGR_HPRE_OFFSET, CFGR_HPRE_MASK);
    if h < 8 {
        1
    } else if h == 8 {
        2
    } else if h == 9 {
        4
    } else if h == 10 {
        8
    } else if h == 11 {
        16
    } else if h == 12 {
        64
    } else if h == 13 {
        128
    } else if h == 14 {
        256
    } else {
        512
    }
}

/// Divisor of an APB prescaler field (0xx: 1, then 2, 4, 8, 16).
pub open spec fn apb_divisor(field: u32) -> nat {
    if field < 4 {
        1
    } else if field == 4 {
        2
    } else if field == 5 {
        4
    } else if field == 6 {
        8
    } else {
        16
    }
}

/// Clock of the AHB bus and the core (HCLK).
pub open spec fn hclk_hz(cfgr: u32, hse_hz: nat) -> Option<nat> {
    match sysclk_hz(cfgr, hse_hz) {
        Some(f) => Some(f / ahb_divisor(cfgr)),
        None => None,
    }
}

/// Clock of the low-speed peripheral bus APB1 (PCLK1).
pub open spec fn pclk1_hz(cfgr: u32, hse_hz: nat) -> Option<nat> {
    match hclk_hz(cfgr, hse_hz) {
        Some(f) => Some(f / apb_divisor(bits::field_of(cfgr, CFGR_PPRE1_OFFSET, CFGR_PPRE1_MASK))),
        None => None,
    }
}

/// Clock of the high-speed peripheral bus APB2 (PCLK2).
pub open spec fn pclk2_hz(cfgr: u32, hse_hz: nat) -> Option<nat> {
    match hclk_hz(cfgr, hse_hz) {
        Some(f) => Some(f / apb_divisor(bits::field_of(cfgr, CFGR_PPRE2_OFFSET, CFGR_PPRE2_MASK))),
        None => None,
    }
}

/// Flash wait states needed to read flash at a system clock frequency:
/// zero up to 24 MHz, one up to 48 MHz, two above (up to 72 MHz).
pub open spec fn flash_wait_states_for(sysclk: nat) -> nat {
    if sysclk <= 24_000_000 {
        0
    } else if sysclk <= 48_000_000 {
        1
    } else {
        2
    }
}

/// The crystal oscillator reports that it is stable (RCC_CR.HSERDY).
pub open spec fn hse_ready(cr: u32) -> bool {
    bits::field_of(cr, CR_HSERDY, 1) == 1
}

/// The PLL reports that it is locked (RCC_CR.PLLRDY).
pub open spec fn pll_ready(cr: u32) -> bool {
    bits::field_of(cr, CR_PLLRDY, 1) == 1
}

/// The hardware reports the PLL as the system clock source (RCC_CFGR.SWS).
pub open spec fn pll_is_sysclk(cfgr: u32) -> bool {
    bits::field_of(cfgr, CFGR_SWS_OFFSET, CFGR_SWS_MASK) == SYSCLK_SOURCE_PLL
}

// ---------------------------------------------------------------------------
// The register values written by the start-up sequence
// ---------------------------------------------------------------------------

/// FLASH_ACR as written: reset value with two wait states.
pub open spec fn acr_two_wait_states() -> u32 {
    bits::with_field(FLASH_ACR_RESET, ACR_LATENCY_OFFSET, ACR_LATENCY_MASK, 2)
}

/// RCC_CR with clock security on, the crystal oscillator on and not bypassed.
pub open spec fn cr_with_hse_on(cr: u32) -> u32 {
    bits::with_field(bits::with_field(bits::with_field(cr, CR_CSSON, 1, 1), CR_HSEON, 1, 1), CR_HSEBYP, 1, 0)
}

/// RCC_CFGR with the PLL fed by the undivided crystal and multiplying by 9.
pub open spec fn cfgr_with_pll_from_hse_x9(cfgr: u32) -> u32 {
    bits::with_field(
        bits::with_field(bits::with_field(cfgr, CFGR_PLLXTPRE_OFFSET, 1, 0), CFGR_PLLSRC_OFFSET, 1, 1),
        CFGR_PLLMUL_OFFSET,
        CFGR_PLLMUL_MASK,
        PLLMUL_MUL9,
    )
}

/// RCC_CR with the PLL on.
pub open spec fn cr_with_pll_on(cr: u32) -> u32 {
    bits::with_field(cr, CR_PLLON, 1, 1)
}

/// RCC_CFGR with AHB undivided, APB1 divided by 2, APB2 undivided.
pub open spec fn cfgr_with_bus_prescalers(cfgr: u32) -> u32 {
    bits::with_field(
        bits::with_field(bits::with_field(cfgr, CFGR_HPRE_OFFSET, CFGR_HPRE_MASK, 0), CFGR_PPRE1_OFFSET, CFGR_PPRE1_MASK, PPRE_DIV2),
        CFGR_PPRE2_OFFSET,
        CFGR_PPRE2_MASK,
        0,
    )
}

/// RCC_CFGR with the PLL selected as system clock.
pub open spec fn cfgr_with_pll_selected(cfgr: u32) -> u32 {
    bits::with_field(cfgr, CFGR_SW_OFFSET, CFGR_SW_MASK, SYSCLK_SOURCE_PLL)
}

fn acr_value_two_wait_states() -> (r: u32)
    ensures
        r == acr_two_wait_states(),
{
    set_field(FLASH_ACR_RESET, ACR_LATENCY_OFFSET, ACR_LATENCY_MASK, 2)
}

fn enable_hse(cr: u32) -> (r: u32)
    ensures
        r == cr_with_hse_on(cr),
{
    let v = set_field(cr, CR_CSSON, 1, 1);
    let v = set_field(v, CR_HSEON, 1, 1);
    set_field(v, CR_HSEBYP, 1, 0)
}

fn configure_pll(cfgr: u32) -> (r: u32)
    ensures
        r == cfgr_with_pll_from_hse_x9(cfgr),
{
    let v = set_field(cfgr, CFGR_PLLXTPRE_OFFSET, 1, 0);
    let v = set_field(v, CFGR_PLLSRC_OFFSET, 1, 1);
    set_field(v, CFGR_PLLMUL_OFFSET, CFGR_PLLMUL_MASK, PLLMUL_MUL9)
}

fn enable_pll(cr: u32) -> (r: u32)
    ensures
        r == cr_with_pll_on(cr),
{
    set_field(cr, CR_PLLON, 1, 1)
}

fn set_bus_prescalers(cfgr: u32) -> (r: u32)
    ensures
        r == cfgr_with_bus_prescalers(cfgr),
{
    let v = set_field(cfgr, CFGR_HPRE_OFFSET, CFGR_HPRE_MASK, 0);
    let v = set_field(v, CFGR_PPRE1_OFFSET, CFGR_PPRE1_MASK, PPRE_DIV2);
    set_field(v, CFGR_PPRE2_OFFSET, CFGR_PPRE2_MASK, 0)
}

fn select_pll(cfgr: u32) -> (r: u32)
    ensures
        r == cfgr_with_pll_selected(cfgr),
{
    set_field(cfgr, CFGR_SW_OFFSET, CFGR_SW_MASK, SYSCLK_SOURCE_PLL)
}

// ---------------------------------------------------------------------------
// The start-up sequence as a state machine
// ---------------------------------------------------------------------------

/// The registers that the start-up sequence reads and writes.
#[derive(Clone, Copy, Debug, PartialEq, Eq, Structural)]
pub enum ClockRegister {
    FlashAcr,
    RccCr,
    RccCfgr,
}

/// Where the start-up sequence stands.
#[derive(Clone, Copy, Debug, PartialEq, Eq, Structural)]
pub enum ClockInitStep {
    SetFlashLatency,
    EnableHse,
    WaitHseReady,
    ConfigurePll,
    EnablePll,
    WaitPllReady,
    SetBusPrescalers,
    SelectPll,
    WaitPllSelected,
    Done,
}

/// What the caller does after a step.
#[derive(Clone, Copy, Debug, PartialEq, Eq, Structural)]
pub enum ClockAction {
    /// Write this value to the step's register.
    Write(u32),
    /// The awaited flag is not set yet: idle one cycle, then run the same step again.
    Spin,
    /// The awaited flag is set: go on with the next step.
    Proceed,
    /// The system clock runs from the PLL; nothing is left to do.
    Finished,
}

/// The register that a step reads (when it reads) and writes (when it writes).
pub open spec fn step_register(step: ClockInitStep) -> ClockRegister {
    match step {
        ClockInitStep::SetFlashLatency => ClockRegister::FlashAcr,
        ClockInitStep::EnableHse => ClockRegister::RccCr,
        ClockInitStep::WaitHseReady => ClockRegister::RccCr,
        ClockInitStep::ConfigurePll => ClockRegister::RccCfgr,
        ClockInitStep::EnablePll => ClockRegister::RccCr,
        ClockInitStep::WaitPllReady => ClockRegister::RccCr,
        ClockInitStep::SetBusPrescalers => ClockRegister::RccCfgr,
        ClockInitStep::SelectPll => ClockRegister::RccCfgr,
        ClockInitStep::WaitPllSelected => ClockRegister::RccCfgr,
        ClockInitStep::Done => ClockRegister::RccCfgr,
    }
}

/// Whether a step needs the current content of its register: every step but
/// the flash latency write (a plain write) and the final one.
pub open spec fn step_reads(step: ClockInitStep) -> bool {
    !(step is SetFlashLatency) && !(step is Done)
}

/// Position of a step in the sequence.
pub open spec fn step_index(step: ClockInitStep) -> nat {
    match step {
        ClockInitStep::SetFlashLatency => 0,
        ClockInitStep::EnableHse => 1,
        ClockInitStep::WaitHseReady => 2,
        ClockInitStep::ConfigurePll => 3,
        ClockInitStep::EnablePll => 4,
        ClockInitStep::WaitPllReady => 5,
        ClockInitStep::SetBusPrescalers => 6,
        ClockInitStep::SelectPll => 7,
        ClockInitStep::WaitPllSelected => 8,
        ClockInitStep::Done => 9,
    }
}

/// One transition of the sequence: the next step and the action, given the
/// current content `observed` of the step's register (ignored where the step
/// does not read).
pub open spec fn clock_init_transition(step: ClockInitStep, observed: u32) -> (ClockInitStep, ClockAction) {
    match step {
        ClockInitStep::SetFlashLatency => (ClockInitStep::EnableHse, ClockAction::Write(acr_two_wait_states())),
        ClockInitStep::EnableHse => (ClockInitStep::WaitHseReady, ClockAction::Write(cr_with_hse_on(observed))),
        ClockInitStep::WaitHseReady => if hse_ready(observed) {
            (ClockInitStep::ConfigurePll, ClockAction::Proceed)
        } else {
            (ClockInitStep::WaitHseReady, ClockAction::Spin)
        },
        ClockInitStep::ConfigurePll => (ClockInitStep::EnablePll, ClockAction::Write(cfgr_with_pll_from_hse_x9(observed))),
        ClockInitStep::EnablePll => (ClockInitStep::WaitPllReady, ClockAction::Write(cr_with_pll_on(observed))),
        ClockInitStep::WaitPllReady => if pll_ready(observed) {
            (ClockInitStep::SetBusPrescalers, ClockAction::Proceed)
        } else {
            (ClockInitStep::WaitPllReady, ClockAction::Spin)
        },
        ClockInitStep::SetBusPrescalers => (ClockInitStep::SelectPll, ClockAction::Write(cfgr_with_bus_prescalers(observed))),
        ClockInitStep::SelectPll => (ClockInitStep::WaitPllSelected, ClockAction::Write(cfgr_with_pll_selected(observed))),
        ClockInitStep::WaitPllSelected => if pll_is_sysclk(observed) {
            (ClockInitStep::Done, ClockAction::Proceed)
        } else {
            (ClockInitStep::WaitPllSelected, ClockAction::Spin)
        },
        ClockInitStep::Done => (ClockInitStep::Done, ClockAction::Finished),
    }
}

impl ClockInitStep {
    /// The first step of the sequence.
    pub fn start() -> (r: ClockInitStep)
        ensures
            r == ClockInitStep::SetFlashLatency,
    {
        ClockInitStep::SetFlashLatency
    }

    /// The register this step reads and writes.
    pub fn register(&self) -> (r: ClockRegister)
        ensures
            r == step_register(*self),
    {
        match self {
            ClockInitStep::SetFlashLatency => ClockRegister::FlashAcr,
            ClockInitStep::EnableHse => ClockRegister::RccCr,
            ClockInitStep::WaitHseReady => ClockRegister::RccCr,
            ClockInitStep::ConfigurePll => ClockRegister::RccCfgr,
            ClockInitStep::EnablePll => ClockRegister::RccCr,
            ClockInitStep::WaitPllReady => ClockRegister::RccCr,
            ClockInitStep::SetBusPrescalers => ClockRegister::RccCfgr,
            ClockInitStep::SelectPll => ClockRegister::RccCfgr,
            ClockInitStep::WaitPllSelected => ClockRegister::RccCfgr,
            ClockInitStep::Done => ClockRegister::RccCfgr,
        }
    }

    /// Whether this step needs the current content of its register.
    pub fn reads_register(&self) -> (r: bool)
        ensures
            r == step_reads(*self),
            r <==> !(*self is SetFlashLatency) && !(*self is Done),
    {
        match self {
            ClockInitStep::SetFlashLatency => false,
            ClockInitStep::Done => false,
            _ => true,
        }
    }
}

/// One step of the system clock start-up: given the step and the current
/// content of its register, the next step and what to do.
///
/// A caller starts at [`ClockInitStep::start`], reads the step's register when
/// [`ClockInitStep::reads_register`] says so (passing any value otherwise),
/// performs the action, and repeats until [`ClockAction::Finished`].
pub fn system_clock_init_step(step: ClockInitStep, observed: u32) -> (r: (ClockInitStep, ClockAction))
    ensures
        r == clock_init_transition(step, observed),
        r.1 is Spin ==> r.0 == step,
        !(r.1 is Spin) && !(step is Done) ==> step_index(r.0) == step_index(step) + 1,
{
    match step {
        ClockInitStep::SetFlashLatency => (ClockInitStep::EnableHse, ClockAction::Write(acr_value_two_wait_states())),
        ClockInitStep::EnableHse => (ClockInitStep::WaitHseReady, ClockAction::Write(enable_hse(observed))),
        ClockInitStep::WaitHseReady => {
            if get_field(observed, CR_HSERDY, 1) == 1 {
                (ClockInitStep::ConfigurePll, ClockAction::Proceed)
            } else {
                (ClockInitStep::WaitHseReady, ClockAction::Spin)
            }
        },
        ClockInitStep::ConfigurePll => (ClockInitStep::EnablePll, ClockAction::Write(configure_pll(observed))),
        ClockInitStep::EnablePll => (ClockInitStep::WaitPllReady, ClockAction::Write(enable_pll(observed))),
        ClockInitStep::WaitPllReady => {
            if get_field(observed, CR_PLLRDY, 1) == 1 {
                (ClockInitStep::SetBusPrescalers, ClockAction::Proceed)
            } else {
                (ClockInitStep::WaitPllReady, ClockAction::Spin)
            }
        },
        ClockInitStep::SetBusPrescalers => (ClockInitStep::SelectPll, ClockAction::Write(set_bus_prescalers(observed))),
        ClockInitStep::SelectPll => (ClockInitStep::WaitPllSelected, ClockAction::Write(select_pll(observed))),
        ClockInitStep::WaitPllSelected => {
            if get_field(observed, CFGR_SWS_OFFSET, CFGR_SWS_MASK) == SYSCLK_SOURCE_PLL {
                (ClockInitStep::Done, ClockAction::Proceed)
            } else {
                (ClockInitStep::WaitPllSelected, ClockAction::Spin)
            }
        },
        ClockInitStep::Done => (ClockInitStep::Done, ClockAction::Finished),
    }
}

// ---------------------------------------------------------------------------
// Laws
// ---------------------------------------------------------------------------

/// Whatever RCC_CFGR held before, the three modifications of the sequence
/// (PLL from the crystal times 9, bus prescalers, PLL as system clock) give a
/// system clock and AHB of 72 MHz, APB1 of 36 MHz and APB2 of 72 MHz with the
/// 8 MHz crystal: the system clock at the device's maximum and APB1 at its own.
#[verifier::spinoff_prover]
pub proof fn lemma_clock_tree_after_init(cfgr: u32)
    ensures
        ({
            let c = cfgr_with_pll_selected(cfgr_with_bus_prescalers(cfgr_with_pll_from_hse_x9(cfgr)));
            &&& sysclk_hz(c, HSE_HZ as nat) == Some(72_000_000nat)
            &&& hclk_hz(c, HSE_HZ as nat) == Some(72_000_000nat)
            &&& pclk1_hz(c, HSE_HZ as nat) == Some(36_000_000nat)
            &&& pclk2_hz(c, HSE_HZ as nat) == Some(72_000_000nat)
            &&& 72_000_000 <= SYSCLK_MAX_HZ
            &&& 36_000_000 <= APB1_MAX_HZ
        }),
{
    let c = cfgr_with_pll_selected(cfgr_with_bus_prescalers(cfgr_with_pll_from_hse_x9(cfgr)));
    assert(bits::field_of(c, CFGR_SW_OFFSET, CFGR_SW_MASK) == 2) by (bit_vector)
        requires
            c == bits::with_field(bits::with_field(bits::with_field(bits::with_field(bits::with_field(bits::with_field(bits::with_field(
                cfgr, 17, 1, 0), 16, 1, 1), 18, 0xf, 7), 4, 0xf, 0), 8, 0x7, 4), 11, 0x7, 0), 0, 0x3, 2),
    ;
    assert(bits::field_of(c, CFGR_PLLSRC_OFFSET, 1) == 1) by (bit_vector)
        requires
            c == bits::with_field(bits::with_field(bits::with_field(bits::with_field(bits::with_field(bits::with_field(bits::with_field(
                cfgr, 17, 1, 0), 16, 1, 1), 18, 0xf, 7), 4, 0xf, 0), 8, 0x7, 4), 11, 0x7, 0), 0, 0x3, 2),
    ;
    assert(bits::field_of(c, CFGR_PLLXTPRE_OFFSET, 1) == 0) by (bit_vector)
        requires
            c == bits::with_field(bits::with_field(bits::with_field(bits::with_field(bits::with_field(bits::with_field(bits::with_field(
                cfgr, 17, 1, 0), 16, 1, 1), 18, 0xf, 7), 4, 0xf, 0), 8, 0x7, 4), 11, 0x7, 0), 0, 0x3, 2),
    ;
    assert(bits::field_of(c, CFGR_PLLMUL_OFFSET, CFGR_PLLMUL_MASK) == 7) by (bit_vector)
        requires
            c == bits::with_field(bits::with_field(bits::with_field(bits::with_field(bits::with_field(bits::with_field(bits::with_field(
                cfgr, 17, 1, 0), 16, 1, 1), 18, 0xf, 7), 4, 0xf, 0), 8, 0x7, 4), 11, 0x7, 0), 0, 0x3, 2),
    ;
    assert(bits::field_of(c, CFGR_HPRE_OFFSET, CFGR_HPRE_MASK) == 0) by (bit_vector)
        requires
            c == bits::with_field(bits::with_field(bits::with_field(bits::with_field(bits::with_field(bits::with_field(bits::with_field(
                cfgr, 17, 1, 0), 16, 1, 1), 18, 0xf, 7), 4, 0xf, 0), 8, 0x7, 4), 11, 0x7, 0), 0, 0x3, 2),
    ;
    assert(bits::field_of(c, CFGR_PPRE1_OFFSET, CFGR_PPRE1_MASK) == 4) by (bit_vector)
        requires
            c == bits::with_field(bits::with_field(bits::with_field(bits::with_field(bits::with_field(bits::with_field(bits::with_field(
                cfgr, 17, 1, 0), 16, 1, 1), 18, 0xf, 7), 4, 0xf, 0), 8, 0x7, 4), 11, 0x7, 0), 0, 0x3, 2),
    ;
    assert(bits::field_of(c, CFGR_PPRE2_OFFSET, CFGR_PPRE2_MASK) == 0) by (bit_vector)
        requires
            c == bits::with_field(bits::with_field(bits::with_field(bits::with_field(bits::with_field(bits::with_field(bits::with_field(
                cfgr, 17, 1, 0), 16, 1, 1), 18, 0xf, 7), 4, 0xf, 0), 8, 0x7, 4), 11, 0x7, 0), 0, 0x3, 2),
    ;
    assert(pll_factor(c) == 9);
    assert(pll_input_hz(c, HSE_HZ as nat) == 8_000_000);
    assert(8_000_000nat * 9nat == 72_000_000nat);
    assert(sysclk_hz(c, HSE_HZ as nat) == Some(72_000_000nat));
    assert(ahb_divisor(c) == 1);
    assert(hclk_hz(c, HSE_HZ as nat) == Some(72_000_000nat));
    assert(apb_divisor(bits::field_of(c, CFGR_PPRE1_OFFSET, CFGR_PPRE1_MASK)) == 2);
    assert(apb_divisor(bits::field_of(c, CFGR_PPRE2_OFFSET, CFGR_PPRE2_MASK)) == 1);
}

/// The flash wait states that the sequence writes are those that a 72 MHz
/// system clock needs.
pub proof fn lemma_flash_latency_for_72mhz()
    ensures
        bits::field_of(acr_two_wait_states(), ACR_LATENCY_OFFSET, ACR_LATENCY_MASK) == flash_wait_states_for(72_000_000),
        flash_wait_states_for(72_000_000) == 2,
{
    assert(bits::field_of(bits::with_field(0x30, 0, 0x7, 2), 0, 0x7) == 2) by (bit_vector);
}

/// The step reached from `step` after the register contents `observed`, one
/// per transition.
pub open spec fn clock_init_run(step: ClockInitStep, observed: Seq<u32>) -> ClockInitStep
    decreases observed.len(),
{
    if observed.len() == 0 {
        step
    } else {
        clock_init_run(clock_init_transition(step, observed[0]).0, observed.drop_first())
    }
}

/// The steps that wait on a hardware flag.
pub open spec fn is_wait_step(step: ClockInitStep) -> bool {
    step is WaitHseReady || step is WaitPllReady || step is WaitPllSelected
}

/// The flag a waiting step waits on is set in the register content `v`.
pub open spec fn wait_satisfied(step: ClockInitStep, v: u32) -> bool {
    match step {
        ClockInitStep::WaitHseReady => hse_ready(v),
        ClockInitStep::WaitPllReady => pll_ready(v),
        ClockInitStep::WaitPllSelected => pll_is_sysclk(v),
        _ => true,
    }
}

proof fn lemma_run_snoc(step: ClockInitStep, observed: Seq<u32>)
    requires
        observed.len() > 0,
    ensures
        clock_init_run(step, observed) == clock_init_transition(
            clock_init_run(step, observed.drop_last()),
            observed.last(),
        ).0,
    decreases observed.len(),
{
    if observed.len() > 1 {
        let next = clock_init_transition(step, observed[0]).0;
        lemma_run_snoc(next, observed.drop_first());
        assert(observed.drop_first().drop_last() =~= observed.drop_last().drop_first());
        assert(observed.drop_first().last() == observed.last());
        assert(observed.drop_last()[0] == observed[0]);
        assert(observed.drop_last().len() > 0);
        assert(clock_init_run(step, observed.drop_last()) == clock_init_run(next, observed.drop_last().drop_first()));
        assert(clock_init_run(step, observed) == clock_init_run(next, observed.drop_first()));
    } else {
        assert(observed.drop_last() =~= Seq::<u32>::empty());
        assert(observed.drop_first() =~= Seq::<u32>::empty());
        assert(clock_init_run(step, observed.drop_last()) == step);
        assert(observed.last() == observed[0]);
        let next = clock_init_transition(step, observed[0]).0;
        assert(clock_init_run(next, observed.drop_first()) == next);
    }
}

/// However the hardware answers, the sequence gets past a waiting step only
/// after it has seen that step's flag set: the crystal is stable before the
/// PLL is configured, the PLL is locked before the bus prescalers are set and
/// the PLL selected, and the hardware reports the PLL as system clock before
/// the sequence ends.
pub proof fn lemma_waits_before_proceeding(observed: Seq<u32>, wait: ClockInitStep)
    requires
        is_wait_step(wait),
        step_index(clock_init_run(ClockInitStep::SetFlashLatency, observed)) > step_index(wait),
    ensures
        exists|i: int|
            0 <= i < observed.len() && clock_init_run(ClockInitStep::SetFlashLatency, #[trigger] observed.take(i))
                == wait && wait_satisfied(wait, observed[i]),
    decreases observed.len(),
{
    let start = ClockInitStep::SetFlashLatency;
    if observed.len() == 0 {
        assert(false);
    } else {
        let n = observed.len() - 1;
        lemma_run_snoc(start, observed);
        let before = clock_init_run(start, observed.drop_last());
        assert(observed.drop_last() =~= observed.take(n));
        if step_index(before) > step_index(wait) {
            lemma_waits_before_proceeding(observed.drop_last(), wait);
            let i = choose|i: int|
                0 <= i < observed.drop_last().len() && clock_init_run(start, #[trigger] observed.drop_last().take(i))
                    == wait && wait_satisfied(wait, observed.drop_last()[i]);
            assert(observed.drop_last().take(i) =~= observed.take(i));
            assert(observed.take(i) == observed.drop_last().take(i));
        } else {
            assert(before == wait);
            assert(observed.take(n) == observed.drop_last());
            assert(wait_satisfied(wait, observed[n]));
        }
    }
}

/// A step that does not read its register decides the same whatever value is
/// passed for it; every step that does read it (all but the flash latency
/// write and the final step) is a read-modify-write or a wait, so the caller
/// must pass the register's current content. In particular the PLL
/// configuration, the bus prescalers and the clock switch keep every other
/// bit of RCC_CFGR as read.
pub proof fn lemma_unread_steps_ignore_observed(step: ClockInitStep, a: u32, b: u32)
    ensures
        !step_reads(step) ==> clock_init_transition(step, a) == clock_init_transition(step, b),
        step_reads(step) <==> !(step is SetFlashLatency) && !(step is Done),
        step is ConfigurePll ==> clock_init_transition(step, a).1 == ClockAction::Write(
            (a & !0x003f_0000u32) | 0x001d_0000u32,
        ),
        step is SetBusPrescalers ==> clock_init_transition(step, a).1 == ClockAction::Write(
            (a & !0x0000_3ff0u32) | 0x0000_0400u32,
        ),
        step is SelectPll ==> clock_init_transition(step, a).1 == ClockAction::Write((a & !0x3u32) | 0x2u32),
        step is EnableHse ==> clock_init_transition(step, a).1 == ClockAction::Write(
            (a & !0x000d_0000u32) | 0x0009_0000u32,
        ),
        step is EnablePll ==> clock_init_transition(step, a).1 == ClockAction::Write(a | 0x0100_0000u32),
{
    assert(bits::with_field(bits::with_field(bits::with_field(a, 17, 1, 0), 16, 1, 1), 18, 0xf, 7)
        == (a & !0x003f_0000u32) | 0x001d_0000u32) by (bit_vector);
    assert(bits::with_field(bits::with_field(bits::with_field(a, 4, 0xf, 0), 8, 0x7, 4), 11, 0x7, 0)
        == (a & !0x0000_3ff0u32) | 0x0000_0400u32) by (bit_vector);
    assert(bits::with_field(a, 0, 0x3, 2) == (a & !0x3u32) | 0x2u32) by (bit_vector);
    assert(bits::with_field(bits::with_field(bits::with_field(a, 19, 1, 1), 16, 1, 1), 18, 1, 0)
        == (a & !0x000d_0000u32) | 0x0009_0000u32) by (bit_vector);
    assert(bits::with_field(a, 24, 1, 1) == a | 0x0100_0000u32) by (bit_vector);
}

} // verus!
