use bluepill::queues::{idle_poll, on_uart3_interrupt, on_usb_interrupt, IdleWork, EVENT_BYTE};
use heapless::spsc::Queue;

#[test]
fn idle_sleeps_when_nothing_queued() {
    let mut uart3: Queue<u8, 81> = Queue::new();
    let mut usb: Queue<u8, 41> = Queue::new();
    assert_eq!(idle_poll(&mut uart3, &mut usb), IdleWork::Sleep);
}

#[test]
fn uart3_bytes_come_before_usb_bytes() {
    let mut uart3: Queue<u8, 81> = Queue::new();
    let mut usb: Queue<u8, 41> = Queue::new();
    assert!(on_usb_interrupt(&mut usb));
    assert!(on_uart3_interrupt(&mut uart3));
    assert!(on_uart3_interrupt(&mut uart3));
    assert_eq!(idle_poll(&mut uart3, &mut usb), IdleWork::Uart3(EVENT_BYTE));
    assert_eq!(idle_poll(&mut uart3, &mut usb), IdleWork::Uart3(EVENT_BYTE));
    assert_eq!(idle_poll(&mut uart3, &mut usb), IdleWork::Usb(EVENT_BYTE));
    assert_eq!(idle_poll(&mut uart3, &mut usb), IdleWork::Sleep);
    assert_eq!(EVENT_BYTE, b'h');
}

#[test]
fn uart3_queue_holds_80_bytes() {
    let mut uart3: Queue<u8, 81> = Queue::new();
    for _ in 0..80 {
        assert!(on_uart3_interrupt(&mut uart3));
    }
    assert!(!on_uart3_interrupt(&mut uart3));
    assert_eq!(uart3.len(), 80);
}

#[test]
fn usb_queue_holds_40_bytes() {
    let mut usb: Queue<u8, 41> = Queue::new();
    for _ in 0..40 {
        assert!(on_usb_interrupt(&mut usb));
    }
    assert!(!on_usb_interrupt(&mut usb));
    let mut uart3: Queue<u8, 81> = Queue::new();
    assert_eq!(idle_poll(&mut uart3, &mut usb), IdleWork::Usb(EVENT_BYTE));
    assert!(on_usb_interrupt(&mut usb));
    assert_eq!(usb.len(), 40);
}

#[test]
fn queued_bytes_leave_in_order() {
    let mut uart3: Queue<u8, 81> = Queue::new();
    let mut usb: Queue<u8, 41> = Queue::new();
    uart3.enqueue(1).unwrap();
    uart3.enqueue(2).unwrap();
    assert!(on_uart3_interrupt(&mut uart3));
    assert_eq!(idle_poll(&mut uart3, &mut usb), IdleWork::Uart3(1));
    assert_eq!(idle_poll(&mut uart3, &mut usb), IdleWork::Uart3(2));
    assert_eq!(idle_poll(&mut uart3, &mut usb), IdleWork::Uart3(EVENT_BYTE));
    usb.enqueue(9).unwrap();
    assert_eq!(idle_poll(&mut uart3, &mut usb), IdleWork::Usb(9));
}
