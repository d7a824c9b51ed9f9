//! Serial terminals: the command bytes of the display terminal and the
//! echo of bytes arriving by DMA.
use vstd::prelude::*;

verus! {

/// Byte that clears the display.
pub const CLEAR_BYTE: u8 = 0x7e;
/// Byte that toggles the on-board LED.
pub const TOGGLE_BYTE: u8 = 0x5e;

/// What the display terminal does with a received byte.
#[derive(Clone, Copy, Debug, PartialEq, Eq, Structural)]
pub enum TerminalCommand {
    /// Clear the display (`~`).
    ClearDisplay,
    /// Toggle the on-board LED (`^`).
    ToggleLed,
    /// Print the byte, read as a Latin-1 character.
    Print(u8),
}

/// The command of a byte received by the display terminal: `~` clears the
/// display, `^` toggles the LED, any other byte is printed.
pub fn terminal_command(byte: u8) -> (r: TerminalCommand)
    ensures
        byte == CLEAR_BYTE ==> r == TerminalCommand::ClearDisplay,
        byte == TOGGLE_BYTE ==> r == TerminalCommand::ToggleLed,
        byte != CLEAR_BYTE && byte != TOGGLE_BYTE ==> r == TerminalCommand::Print(byte),
{
    if byte == CLEAR_BYTE {
        TerminalCommand::ClearDisplay
    } else if byte == TOGGLE_BYTE {
        TerminalCommand::ToggleLed
    } else {
        TerminalCommand::Print(byte)
    }
}

/// One poll of a DMA reception in progress: `seen` is how many bytes were
/// already handled, `received` what the transfer holds so far. When the
/// count changed, the new count is remembered and the last byte received, if
/// any, is echoed; otherwise nothing happens.
pub fn dma_echo_step(seen: usize, received: &[u8]) -> (r: (usize, Option<u8>))
    ensures
        r.0 == received.len(),
        r.1 == (if received.len() != seen && received.len() > 0 {
            Some(received@[received.len() - 1])
        } else {
            None::<u8>
        }),
{
    let n = received.len();
    if n != seen {
        if n > 0 {
            (n, Some(received[n - 1]))
        } else {
            (n, None)
        }
    } else {
        (seen, None)
    }
}

} // verus!
