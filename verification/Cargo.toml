[package]
name = "bluepill"
version = "0.1.0"
edition = "2021"
publish = false

[dependencies]
heapless = "=0.8.0"
cortex-m = "=0.6.7"
cortex-m-rt = "=0.6.15"
cortex-m-semihosting = "=0.3.7"
panic-halt = "=0.2.0"
stm32f1 = { version = "=0.9.0", features = ["stm32f103", "rt"] }
stm32f1xx-hal = { version = "=0.5.3", features = ["stm32f103", "rt", "stm32-usbd"] }
embedded-hal = "=0.2.7"
nb = "=0.1.3"
ssd1306 = "=0.3.1"
hd44780-driver = "=0.3.0"
nrf24l01 = "=0.1.0"
embedded-nrf24l01 = "=0.2.0"
usb-device = "=0.2.9"
usbd-serial = "=0.1.1"
stm32-usbd = { version = "=0.5.1", features = ["ram_access_1x16"] }
cortex-m-rtfm = "=0.5.3"
