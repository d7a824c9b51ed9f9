//! Verified logic of firmware programs for the STM32F103 ("blue pill") board:
//! the register values they write and the decisions they take on what the
//! hardware reports. The programs perform the register accesses themselves.

pub mod bits;
pub mod blink;
pub mod clock;
pub mod pwm;
pub mod queues;
pub mod terminal;
pub mod usart;
pub mod usb;
