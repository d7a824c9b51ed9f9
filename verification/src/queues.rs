//! Byte queues between interrupt handlers and the idle loop.
//!
//! The USART3 handler and the two USB handlers each put a byte into a queue
//! of their own (80 and 40 bytes); the idle loop takes bytes out, the USART3
//! queue first, and sleeps when both are empty. The queues are
//! `heapless::spsc::Queue`s, which hold `N - 1` items.
use vstd::prelude::*;

use heapless::spsc::Queue;

verus! {

/// Number of bytes the USART3 queue holds.
pub const UART3_QUEUE_CAPACITY: usize = 80;
/// Number of bytes the USB queue holds.
pub const USB_QUEUE_CAPACITY: usize = 40;
/// The byte that the interrupt handlers put into their queues.
pub const EVENT_BYTE: u8 = 0x68;

#[verifier::external_type_specification]
#[verifier::external_body]
#[verifier::reject_recursive_types(T)]
pub struct ExQueue<T, const N: usize>(Queue<T, N>);

/// The bytes in the USART3 queue, oldest first.
pub uninterp spec fn uart3_queue_items(q: Queue<u8, 81>) -> Seq<u8>;

/// The bytes in the USB queue, oldest first.
pub uninterp spec fn usb_queue_items(q: Queue<u8, 41>) -> Seq<u8>;

/// `heapless::spsc::Queue::<u8, 81>::enqueue`: when fewer than 80 bytes are
/// queued the byte goes to the back (`Ok`, here `None`); otherwise the queue
/// is unchanged and the byte comes back (`Err`, here `Some`).
#[verifier::external_body]
fn uart3_queue_enqueue(q: &mut Queue<u8, 81>, byte: u8) -> (rejected: Option<u8>)
    ensures
        uart3_queue_items(*old(q)).len() < UART3_QUEUE_CAPACITY ==> rejected is None && uart3_queue_items(*final(q)) == uart3_queue_items(*old(q)).push(byte),
        uart3_queue_items(*old(q)).len() >= UART3_QUEUE_CAPACITY ==> rejected == Some(byte) && uart3_queue_items(*final(q)) == uart3_queue_items(*old(q)),
{
    match q.enqueue(byte) {
        Ok(()) => None,
        Err(b) => Some(b),
    }
}

/// `heapless::spsc::Queue::<u8, 81>::dequeue`: the oldest byte, removed from
/// the queue, or `None` when the queue is empty.
#[verifier::external_body]
fn uart3_queue_dequeue(q: &mut Queue<u8, 81>) -> (r: Option<u8>)
    ensures
        uart3_queue_items(*old(q)).len() == 0 ==> r is None && uart3_queue_items(*final(q)) == uart3_queue_items(*old(q)),
        uart3_queue_items(*old(q)).len() > 0 ==> r == Some(uart3_queue_items(*old(q))[0]) && uart3_queue_items(*final(q)) == uart3_queue_items(*old(q)).drop_first(),
{
    q.dequeue()
}

/// `heapless::spsc::Queue::<u8, 41>::enqueue`: when fewer than 40 bytes are
/// queued the byte goes to the back (`Ok`, here `None`); otherwise the queue
/// is unchanged and the byte comes back (`Err`, here `Some`).
#[verifier::external_body]
fn usb_queue_enqueue(q: &mut Queue<u8, 41>, byte: u8) -> (rejected: Option<u8>)
    ensures
        usb_queue_items(*old(q)).len() < USB_QUEUE_CAPACITY ==> rejected is None && usb_queue_items(*final(q)) == usb_queue_items(*old(q)).push(byte),
        usb_queue_items(*old(q)).len() >= USB_QUEUE_CAPACITY ==> rejected == Some(byte) && usb_queue_items(*final(q)) == usb_queue_items(*old(q)),
{
    match q.enqueue(byte) {
        Ok(()) => None,
        Err(b) => Some(b),
    }
}

/// `heapless::spsc::Queue::<u8, 41>::dequeue`: the oldest byte, removed from
/// the queue, or `None` when the queue is empty.
#[verifier::external_body]
fn usb_queue_dequeue(q: &mut Queue<u8, 41>) -> (r: Option<u8>)
    ensures
        usb_queue_items(*old(q)).len() == 0 ==> r is None && usb_queue_items(*final(q)) == usb_queue_items(*old(q)),
        usb_queue_items(*old(q)).len() > 0 ==> r == Some(usb_queue_items(*old(q))[0]) && usb_queue_items(*final(q)) == usb_queue_items(*old(q)).drop_first(),
{
    q.dequeue()
}

/// The USART3 interrupt: queue the event byte. `true` when it was queued,
/// `false` when the queue was full and the byte was dropped.
pub fn on_uart3_interrupt(q: &mut Queue<u8, 81>) -> (queued: bool)
    ensures
        queued == (uart3_queue_items(*old(q)).len() < UART3_QUEUE_CAPACITY),
        queued ==> uart3_queue_items(*final(q)) == uart3_queue_items(*old(q)).push(EVENT_BYTE),
        !queued ==> uart3_queue_items(*final(q)) == uart3_queue_items(*old(q)),
{
    match uart3_queue_enqueue(q, EVENT_BYTE) {
        None => true,
        Some(_) => false,
    }
}

/// A USB interrupt (high or low priority): queue the event byte. `true` when
/// it was queued, `false` when the queue was full and the byte was dropped.
pub fn on_usb_interrupt(q: &mut Queue<u8, 41>) -> (queued: bool)
    ensures
        queued == (usb_queue_items(*old(q)).len() < USB_QUEUE_CAPACITY),
        queued ==> usb_queue_items(*final(q)) == usb_queue_items(*old(q)).push(EVENT_BYTE),
        !queued ==> usb_queue_items(*final(q)) == usb_queue_items(*old(q)),
{
    match usb_queue_enqueue(q, EVENT_BYTE) {
        None => true,
        Some(_) => false,
    }
}

/// What one pass of the idle loop found.
#[derive(Clone, Copy, Debug, PartialEq, Eq, Structural)]
pub enum IdleWork {
    /// A byte from the USART3 queue.
    Uart3(u8),
    /// A byte from the USB queue.
    Usb(u8),
    /// Both queues are empty: wait for an interrupt.
    Sleep,
}

/// One pass of the idle loop: the oldest USART3 byte if there is one, else
/// the oldest USB byte if there is one, else sleep. Only the queue the byte
/// came from changes.
pub fn idle_poll(uart3: &mut Queue<u8, 81>, usb: &mut Queue<u8, 41>) -> (r: IdleWork)
    ensures
        ({
            let u0 = uart3_queue_items(*old(uart3));
            let s0 = usb_queue_items(*old(usb));
            let u1 = uart3_queue_items(*final(uart3));
            let s1 = usb_queue_items(*final(usb));
            &&& u0.len() > 0 ==> r == IdleWork::Uart3(u0[0]) && u1 == u0.drop_first() && s1 == s0
            &&& u0.len() == 0 && s0.len() > 0 ==> r == IdleWork::Usb(s0[0]) && u1 == u0 && s1 == s0.drop_first()
            &&& u0.len() == 0 && s0.len() == 0 ==> r == IdleWork::Sleep && u1 == u0 && s1 == s0
        }),
{
    match uart3_queue_dequeue(uart3) {
        Some(b) => IdleWork::Uart3(b),
        None => match usb_queue_dequeue(usb) {
            Some(b) => IdleWork::Usb(b),
            None => IdleWork::Sleep,
        },
    }
}

} // verus!
