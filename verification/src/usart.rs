//! USART: baud rate register and the byte echo loop.
use vstd::prelude::*;

use crate::bits::{self, get_field, set_field};

verus! {

/// USART_SR bit positions.
pub const SR_RXNE: u32 = 5;
pub const SR_TC: u32 = 6;
pub const SR_TXE: u32 = 7;
/// Value of USART_SR after reset (transmit register empty, transmission complete).
pub const SR_RESET: u32 = 0xc0;
/// USART_BRR: the fraction is the low 4 bits, the mantissa the next 12.
pub const BRR_FRACTION_MASK: u32 = 0xf;
pub const BRR_MANTISSA_OFFSET: u32 = 4;
pub const BRR_MANTISSA_MASK: u32 = 0xfff;

/// The value of USART_BRR for a baud rate from a peripheral clock: the
/// divider `USARTDIV = pclk / (16 * baud)` in 12.4 fixed point, that is
/// `pclk / baud` rounded down. `None` when the rate cannot be reached: a zero
/// baud rate, a divider below 1 or above the 16-bit register.
pub fn usart_brr(pclk_hz: u32, baud: u32) -> (r: Option<u32>)
    ensures
        baud == 0 ==> r is None,
        baud > 0 ==> (r is Some <==> 16 <= pclk_hz / baud <= 0xffff),
        r matches Some(v) ==> v == pclk_hz / baud,
{
    if baud == 0 {
        return None;
    }
    let div = pclk_hz / baud;
    if div < 16 || div > 0xffff {
        None
    } else {
        Some(div)
    }
}

/// DIV_Mantissa of a USART_BRR value.
pub fn brr_mantissa(brr: u32) -> (r: u32)
    ensures
        r == bits::field_of(brr, BRR_MANTISSA_OFFSET, BRR_MANTISSA_MASK),
        brr <= 0xffff ==> r == brr / 16,
{
    proof {
        assert(brr <= 0xffff ==> bits::field_of(brr, 4, 0xfff) == brr / 16) by (bit_vector);
    }
    get_field(brr, BRR_MANTISSA_OFFSET, BRR_MANTISSA_MASK)
}

/// DIV_Fraction of a USART_BRR value.
pub fn brr_fraction(brr: u32) -> (r: u32)
    ensures
        r == bits::field_of(brr, 0, BRR_FRACTION_MASK),
        r == brr % 16,
{
    proof {
        assert(bits::field_of(brr, 0, 0xf) == brr % 16) by (bit_vector);
    }
    get_field(brr, 0, BRR_FRACTION_MASK)
}

/// Mantissa and fraction put together give back the register value.
pub proof fn lemma_brr_fields(brr: u32)
    requires
        brr <= 0xffff,
    ensures
        bits::field_of(brr, BRR_MANTISSA_OFFSET, BRR_MANTISSA_MASK) * 16 + bits::field_of(brr, 0, BRR_FRACTION_MASK) == brr,
{
    assert(brr <= 0xffff ==> ((brr >> 4) & 0xfff) * 16 + ((brr >> 0) & 0xf) == brr) by (bit_vector);
}

/// Where the echo loop stands.
#[derive(Clone, Copy, Debug, PartialEq, Eq, Structural)]
pub enum EchoState {
    /// Waiting for a received byte (SR.RXNE).
    WaitReceive,
    /// A byte has arrived; the data register is to be read.
    ReadData,
    /// Waiting for room in the transmit register (SR.TXE) to send this byte back.
    WaitTransmitEmpty(u16),
    /// Waiting for the transmission to complete (SR.TC).
    WaitTransmitComplete,
}

/// What the hardware reported.
#[derive(Clone, Copy, Debug, PartialEq, Eq, Structural)]
pub enum EchoEvent {
    /// USART_SR as read.
    Status(u32),
    /// USART_DR as read.
    Data(u16),
}

/// What the caller does next.
#[derive(Clone, Copy, Debug, PartialEq, Eq, Structural)]
pub enum EchoAction {
    /// Idle one cycle, then read USART_SR.
    Spin,
    /// Read USART_SR.
    ReadStatus,
    /// Read USART_DR.
    ReadData,
    /// Write this value to USART_DR, then read USART_SR.
    WriteData(u16),
    /// Write this value to USART_SR, then read USART_SR.
    WriteStatus(u32),
}

/// USART_SR as written to acknowledge a completed transmission: the reset
/// value with TC cleared.
pub open spec fn sr_tc_cleared() -> u32 {
    bits::with_field(SR_RESET, SR_TC, 1, 0)
}

/// One transition of the echo loop.
pub open spec fn echo_transition(state: EchoState, event: EchoEvent) -> (EchoState, EchoAction) {
    match (state, event) {
        (EchoState::WaitReceive, EchoEvent::Status(sr)) => if bits::field_of(sr, SR_RXNE, 1) == 1 {
            (EchoState::ReadData, EchoAction::ReadData)
        } else {
            (EchoState::WaitReceive, EchoAction::Spin)
        },
        (EchoState::ReadData, EchoEvent::Data(d)) => (EchoState::WaitTransmitEmpty(d), EchoAction::ReadStatus),
        (EchoState::ReadData, EchoEvent::Status(_)) => (EchoState::ReadData, EchoAction::ReadData),
        (EchoState::WaitTransmitEmpty(d), EchoEvent::Status(sr)) => if bits::field_of(sr, SR_TXE, 1) == 1 {
            (EchoState::WaitTransmitComplete, EchoAction::WriteData(d))
        } else {
            (EchoState::WaitTransmitEmpty(d), EchoAction::Spin)
        },
        (EchoState::WaitTransmitComplete, EchoEvent::Status(sr)) => if bits::field_of(sr, SR_TC, 1) == 1 {
            (EchoState::WaitReceive, EchoAction::WriteStatus(sr_tc_cleared()))
        } else {
            (EchoState::WaitTransmitComplete, EchoAction::Spin)
        },
        (s, EchoEvent::Data(_)) => (s, EchoAction::ReadStatus),
    }
}

/// One step of the echo loop: every byte received is sent back, and the
/// transmission completes (its flag cleared) before the next byte is awaited.
/// The loop starts in [`EchoState::WaitReceive`] with a read of USART_SR.
pub fn echo_step(state: EchoState, event: EchoEvent) -> (r: (EchoState, EchoAction))
    ensures
        r == echo_transition(state, event),
        (state, event) matches (EchoState::WaitReceive, EchoEvent::Status(sr)) ==> r == (if sr & 0x20 != 0 {
            (EchoState::ReadData, EchoAction::ReadData)
        } else {
            (EchoState::WaitReceive, EchoAction::Spin)
        }),
        (state, event) matches (EchoState::WaitTransmitEmpty(d), EchoEvent::Status(sr)) ==> r == (if sr & 0x80 != 0 {
            (EchoState::WaitTransmitComplete, EchoAction::WriteData(d))
        } else {
            (EchoState::WaitTransmitEmpty(d), EchoAction::Spin)
        }),
        (state, event) matches (EchoState::WaitTransmitComplete, EchoEvent::Status(sr)) ==> r == (if sr & 0x40 != 0 {
            (EchoState::WaitReceive, EchoAction::WriteStatus(0x80))
        } else {
            (EchoState::WaitTransmitComplete, EchoAction::Spin)
        }),
{
    proof {
        lemma_echo_waits_on_one_flag(state, event);
    }
    match (state, event) {
        (EchoState::WaitReceive, EchoEvent::Status(sr)) => {
            if get_field(sr, SR_RXNE, 1) == 1 {
                (EchoState::ReadData, EchoAction::ReadData)
            } else {
                (EchoState::WaitReceive, EchoAction::Spin)
            }
        },
        (EchoState::ReadData, EchoEvent::Data(d)) => (EchoState::WaitTransmitEmpty(d), EchoAction::ReadStatus),
        (EchoState::ReadData, EchoEvent::Status(_)) => (EchoState::ReadData, EchoAction::ReadData),
        (EchoState::WaitTransmitEmpty(d), EchoEvent::Status(sr)) => {
            if get_field(sr, SR_TXE, 1) == 1 {
                (EchoState::WaitTransmitComplete, EchoAction::WriteData(d))
            } else {
                (EchoState::WaitTransmitEmpty(d), EchoAction::Spin)
            }
        },
        (EchoState::WaitTransmitComplete, EchoEvent::Status(sr)) => {
            if get_field(sr, SR_TC, 1) == 1 {
                (EchoState::WaitReceive, EchoAction::WriteStatus(set_field(SR_RESET, SR_TC, 1, 0)))
            } else {
                (EchoState::WaitTransmitComplete, EchoAction::Spin)
            }
        },
        (s, EchoEvent::Data(_)) => (s, EchoAction::ReadStatus),
    }
}

/// The byte read from the data register is the byte written back: after a
/// data read `d`, however many status reads without TXE follow, the first one
/// with TXE set writes exactly `d`.
pub proof fn lemma_echo_sends_back_received(d: u16, waits: Seq<u32>, sr: u32)
    requires
        forall|i: int| 0 <= i < waits.len() ==> bits::field_of(#[trigger] waits[i], SR_TXE, 1) != 1,
        bits::field_of(sr, SR_TXE, 1) == 1,
    ensures
        echo_after_waits(echo_transition(EchoState::ReadData, EchoEvent::Data(d)).0, waits) == EchoState::WaitTransmitEmpty(d),
        echo_transition(EchoState::WaitTransmitEmpty(d), EchoEvent::Status(sr)) == (
            EchoState::WaitTransmitComplete,
            EchoAction::WriteData(d),
        ),
    decreases waits.len(),
{
    lemma_wait_transmit_empty_stays(d, waits);
}

/// The state after a run of status reads.
pub open spec fn echo_after_waits(state: EchoState, statuses: Seq<u32>) -> EchoState
    decreases statuses.len(),
{
    if statuses.len() == 0 {
        state
    } else {
        echo_after_waits(echo_transition(state, EchoEvent::Status(statuses[0])).0, statuses.drop_first())
    }
}

proof fn lemma_wait_transmit_empty_stays(d: u16, waits: Seq<u32>)
    requires
        forall|i: int| 0 <= i < waits.len() ==> bits::field_of(#[trigger] waits[i], SR_TXE, 1) != 1,
    ensures
        echo_after_waits(EchoState::WaitTransmitEmpty(d), waits) == EchoState::WaitTransmitEmpty(d),
    decreases waits.len(),
{
    if waits.len() > 0 {
        assert(bits::field_of(waits[0], SR_TXE, 1) != 1);
        let rest = waits.drop_first();
        assert forall|i: int| 0 <= i < rest.len() implies bits::field_of(#[trigger] rest[i], SR_TXE, 1) != 1 by {
            assert(rest[i] == waits[i + 1]);
        }
        lemma_wait_transmit_empty_stays(d, rest);
    }
}

/// Each wait of the echo loop depends on its own status flag and on no other
/// bit: a new byte is read as soon as RXNE (bit 5) is set, whatever TXE and TC
/// say; the byte goes out as soon as TXE (bit 7) is set; and the loop
/// acknowledges the transmission, writing SR = 0x80, as soon as TC (bit 6) is
/// set, even when the next byte has already arrived.
pub proof fn lemma_echo_waits_on_one_flag(state: EchoState, event: EchoEvent)
    ensures
        (state, event) matches (EchoState::WaitReceive, EchoEvent::Status(sr)) ==> echo_transition(state, event) == (
            if sr & 0x20 != 0 {
                (EchoState::ReadData, EchoAction::ReadData)
            } else {
                (EchoState::WaitReceive, EchoAction::Spin)
            }),
        (state, event) matches (EchoState::WaitTransmitEmpty(d), EchoEvent::Status(sr)) ==> echo_transition(state, event) == (
            if sr & 0x80 != 0 {
                (EchoState::WaitTransmitComplete, EchoAction::WriteData(d))
            } else {
                (EchoState::WaitTransmitEmpty(d), EchoAction::Spin)
            }),
        (state, event) matches (EchoState::WaitTransmitComplete, EchoEvent::Status(sr)) ==> echo_transition(state, event) == (
            if sr & 0x40 != 0 {
                (EchoState::WaitReceive, EchoAction::WriteStatus(0x80))
            } else {
                (EchoState::WaitTransmitComplete, EchoAction::Spin)
            }),
{
    assert(bits::with_field(0xc0, 6, 1, 0) == 0x80u32) by (bit_vector);
    if let EchoEvent::Status(sr) = event {
        assert((bits::field_of(sr, 5, 1) == 1) == (sr & 0x20 != 0)) by (bit_vector);
        assert((bits::field_of(sr, 6, 1) == 1) == (sr & 0x40 != 0)) by (bit_vector);
        assert((bits::field_of(sr, 7, 1) == 1) == (sr & 0x80 != 0)) by (bit_vector);
    }
}

/// After a completed echo the loop is back to waiting for a byte, and the
/// next status with RXNE set leads to a data read, whatever else the status
/// register holds (TC cleared by the loop itself, TXE set or not).
pub proof fn lemma_next_byte_read_after_echo(sr_tc: u32, sr_next: u32)
    requires
        sr_tc & 0x40 != 0,
        sr_next & 0x20 != 0,
    ensures
        echo_transition(EchoState::WaitTransmitComplete, EchoEvent::Status(sr_tc)).0 == EchoState::WaitReceive,
        echo_transition(EchoState::WaitReceive, EchoEvent::Status(sr_next)) == (EchoState::ReadData, EchoAction::ReadData),
{
    lemma_echo_waits_on_one_flag(EchoState::WaitTransmitComplete, EchoEvent::Status(sr_tc));
    lemma_echo_waits_on_one_flag(EchoState::WaitReceive, EchoEvent::Status(sr_next));
}

} // verus!
