# bluepill

Firmware programs for the STM32F103 "blue pill" board, split in two:

- `src/` — the verified library (Verus). It holds what the programs decide
  and the register values they write:
  - `bits`: fields of 32-bit registers (write and read back, other fields kept);
  - `clock`: the start-up of the 72 MHz system clock from the 8 MHz crystal
    through the PLL, as a state machine over RCC/FLASH register values, with
    the clock tree it yields;
  - `blink`: the SysTick LED toggle and the SysTick reload value;
  - `usart`: the baud rate register and the byte echo loop;
  - `pwm`: timer prescaler and period registers;
  - `terminal`: the display terminal's command bytes and the DMA echo;
  - `usb`: text commands over the USB serial port;
  - `queues`: byte queues (`heapless::spsc::Queue`) between interrupt
    handlers and the idle loop.
- `app/` — the programs themselves: register and driver I/O around the
  library, one module per program.
- `tests/` — tests of the library on concrete values.
