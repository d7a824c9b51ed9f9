use bluepill::clock::{system_clock_init_step, ClockAction, ClockInitStep, ClockRegister};

/// Registers of a simulated RCC and FLASH that raise the ready flags a few
/// reads after they were asked for.
struct Board {
    acr: u32,
    cr: u32,
    cfgr: u32,
    hse_delay: u32,
    pll_delay: u32,
    switch_delay: u32,
}

impl Board {
    fn after_reset() -> Board {
        Board { acr: 0x30, cr: 0x83, cfgr: 0, hse_delay: 3, pll_delay: 2, switch_delay: 4 }
    }

    fn read(&mut self, reg: ClockRegister) -> u32 {
        match reg {
            ClockRegister::FlashAcr => self.acr,
            ClockRegister::RccCr => {
                if self.cr & (1 << 16) != 0 {
                    if self.hse_delay == 0 {
                        self.cr |= 1 << 17;
                    } else {
                        self.hse_delay -= 1;
                    }
                }
                if self.cr & (1 << 24) != 0 {
                    if self.pll_delay == 0 {
                        self.cr |= 1 << 25;
                    } else {
                        self.pll_delay -= 1;
                    }
                }
                self.cr
            }
            ClockRegister::RccCfgr => {
                if self.switch_delay == 0 {
                    let sw = self.cfgr & 0x3;
                    self.cfgr = (self.cfgr & !0xc) | (sw << 2);
                } else {
                    self.switch_delay -= 1;
                }
                self.cfgr
            }
        }
    }

    fn write(&mut self, reg: ClockRegister, value: u32) {
        match reg {
            ClockRegister::FlashAcr => self.acr = value & 0x1f | (self.acr & 0x20),
            ClockRegister::RccCr => self.cr = (value & !((1 << 17) | (1 << 25))) | (self.cr & ((1 << 17) | (1 << 25))),
            ClockRegister::RccCfgr => self.cfgr = (value & !0xc) | (self.cfgr & 0xc),
        }
    }
}

fn run(board: &mut Board) -> (Vec<(ClockRegister, u32)>, u32) {
    let mut step = ClockInitStep::start();
    let mut writes = Vec::new();
    let mut spins = 0;
    loop {
        let reg = step.register();
        let observed = if step.reads_register() { board.read(reg) } else { 0 };
        let (next, action) = system_clock_init_step(step, observed);
        match action {
            ClockAction::Write(v) => {
                board.write(reg, v);
                writes.push((reg, v));
            }
            ClockAction::Spin => spins += 1,
            ClockAction::Proceed => {}
            ClockAction::Finished => break,
        }
        step = next;
    }
    (writes, spins)
}

#[test]
fn clock_init_reaches_72mhz_configuration() {
    let mut board = Board::after_reset();
    let (writes, spins) = run(&mut board);
    assert_eq!(
        writes,
        vec![
            (ClockRegister::FlashAcr, 0x32),
            (ClockRegister::RccCr, 0x0009_0083),
            (ClockRegister::RccCfgr, 0x001d_0000),
            (ClockRegister::RccCr, 0x010b_0083),
            (ClockRegister::RccCfgr, 0x001d_0400),
            (ClockRegister::RccCfgr, 0x001d_0402),
        ]
    );
    assert_eq!(board.acr, 0x32);
    assert_eq!(board.cr, 0x030b_0083);
    assert_eq!(board.cfgr, 0x001d_040a);
    assert!(spins > 0);
}

#[test]
fn clock_init_flash_latency_is_two_wait_states() {
    let (step, action) = system_clock_init_step(ClockInitStep::SetFlashLatency, 0xffff_ffff);
    assert_eq!(step, ClockInitStep::EnableHse);
    assert_eq!(action, ClockAction::Write(0x32));
    assert_eq!(0x32 & 0x7, 2);
}

#[test]
fn clock_init_keeps_unrelated_bits() {
    // MCO, USBPRE and ADCPRE bits stay as they were while the PLL is set up.
    let before = 0x0740_c000u32;
    let (_, action) = system_clock_init_step(ClockInitStep::ConfigurePll, before);
    assert_eq!(action, ClockAction::Write(0x075d_c000));
    // a crystal in bypass mode is switched back to an oscillator
    let (_, action) = system_clock_init_step(ClockInitStep::EnableHse, 0x0004_0083);
    assert_eq!(action, ClockAction::Write(0x0009_0083));
    // a PLL configured to divide the crystal by two is set to undivided
    let (_, action) = system_clock_init_step(ClockInitStep::ConfigurePll, 0x0002_0000);
    assert_eq!(action, ClockAction::Write(0x001d_0000));
}

#[test]
fn clock_init_waits_for_ready_flags() {
    assert_eq!(
        system_clock_init_step(ClockInitStep::WaitHseReady, 0x0001_0083),
        (ClockInitStep::WaitHseReady, ClockAction::Spin)
    );
    assert_eq!(
        system_clock_init_step(ClockInitStep::WaitHseReady, 0x0003_0083),
        (ClockInitStep::ConfigurePll, ClockAction::Proceed)
    );
    assert_eq!(
        system_clock_init_step(ClockInitStep::WaitPllReady, 0x0103_0083),
        (ClockInitStep::WaitPllReady, ClockAction::Spin)
    );
    assert_eq!(
        system_clock_init_step(ClockInitStep::WaitPllReady, 0x0303_0083),
        (ClockInitStep::SetBusPrescalers, ClockAction::Proceed)
    );
    // SWS still reports the HSE
    assert_eq!(
        system_clock_init_step(ClockInitStep::WaitPllSelected, 0x001d_0406),
        (ClockInitStep::WaitPllSelected, ClockAction::Spin)
    );
    assert_eq!(
        system_clock_init_step(ClockInitStep::WaitPllSelected, 0x001d_040a),
        (ClockInitStep::Done, ClockAction::Proceed)
    );
    assert_eq!(
        system_clock_init_step(ClockInitStep::Done, 0),
        (ClockInitStep::Done, ClockAction::Finished)
    );
}

#[test]
fn clock_init_steps_name_their_registers() {
    assert_eq!(ClockInitStep::SetFlashLatency.register(), ClockRegister::FlashAcr);
    assert!(!ClockInitStep::SetFlashLatency.reads_register());
    assert_eq!(ClockInitStep::EnablePll.register(), ClockRegister::RccCr);
    assert!(ClockInitStep::EnablePll.reads_register());
    assert_eq!(ClockInitStep::SelectPll.register(), ClockRegister::RccCfgr);
    assert!(!ClockInitStep::Done.reads_register());
}
