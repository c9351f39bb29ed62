use efm32pg12_hal::cmu::{
    Cmu, CmuRegisters, Csen, Gpcrc, Leuart0, Rtcc, Timer0, HFBUSCLKEN0_GPCRC, HFBUSCLKEN0_LE,
    HFPERCLKEN0_CSEN, HFPERCLKEN0_TIMER0, LFBCLKEN0_CSEN, LFBCLKEN0_LEUART0, LFECLKEN0_RTCC,
};

#[test]
fn new_cmu_runs_at_19_mhz() {
    let cmu = Cmu::new(CmuRegisters::new());
    assert_eq!(cmu.hfbusclk(), 19_000_000);
    assert_eq!(cmu.hfperclk(), 19_000_000);
    assert_eq!(cmu.hfcoreclk(), 19_000_000);
}

#[test]
fn prescalers_divide_the_clocks() {
    let mut regs = CmuRegisters::new();
    regs.hfperpresc = 1;
    regs.hfcorepresc = 3;
    let cmu = Cmu::new(regs);
    assert_eq!(cmu.hfperclk(), 9_500_000);
    assert_eq!(cmu.hfcoreclk(), 4_750_000);
    assert_eq!(cmu.hfbusclk(), 19_000_000);
}

#[test]
fn high_frequency_peripheral_gates_one_bit() {
    let mut cmu = Cmu::new(CmuRegisters::new());
    cmu.enable_clock(&Timer0);
    assert_eq!(cmu.regs.hfperclken0, HFPERCLKEN0_TIMER0);
    assert_eq!(cmu.regs.hfbusclken0, 0);
    assert_eq!(cmu.regs.lfaclken0, 0);
    assert_eq!(cmu.regs.lfbclken0, 0);
    assert_eq!(cmu.regs.lfeclken0, 0);
}

#[test]
fn bus_peripheral_gates_one_bit() {
    let mut cmu = Cmu::new(CmuRegisters::new());
    cmu.enable_clock(&Gpcrc);
    assert_eq!(cmu.regs.hfbusclken0, HFBUSCLKEN0_GPCRC);
    assert_eq!(cmu.regs.hfperclken0, 0);
}

#[test]
fn low_energy_peripheral_gates_le_interface_too() {
    let mut cmu = Cmu::new(CmuRegisters::new());
    cmu.enable_clock(&Leuart0);
    assert_eq!(cmu.regs.hfbusclken0, HFBUSCLKEN0_LE);
    assert_eq!(cmu.regs.lfbclken0, LFBCLKEN0_LEUART0);
    assert_eq!(cmu.regs.lfaclken0, 0);
    assert_eq!(cmu.regs.lfeclken0, 0);

    let mut cmu = Cmu::new(CmuRegisters::new());
    cmu.enable_clock(&Rtcc);
    assert_eq!(cmu.regs.hfbusclken0, HFBUSCLKEN0_LE);
    assert_eq!(cmu.regs.lfeclken0, LFECLKEN0_RTCC);
}

#[test]
fn csen_gates_high_and_low_frequency_bits() {
    let mut cmu = Cmu::new(CmuRegisters::new());
    cmu.enable_clock(&Csen);
    assert_eq!(cmu.regs.hfperclken0, HFPERCLKEN0_CSEN);
    assert_eq!(cmu.regs.lfbclken0, LFBCLKEN0_CSEN);
    assert_eq!(cmu.regs.hfbusclken0, 0);
}

#[test]
fn enabling_twice_keeps_other_bits() {
    let mut cmu = Cmu::new(CmuRegisters::new());
    cmu.enable_clock(&Timer0);
    cmu.enable_clock(&Csen);
    assert_eq!(cmu.regs.hfperclken0, HFPERCLKEN0_TIMER0 | HFPERCLKEN0_CSEN);
}

#[test]
fn release_returns_the_register_block() {
    let mut regs = CmuRegisters::new();
    regs.hfperpresc = 7;
    let cmu = Cmu::new(regs);
    let released = cmu.release();
    assert_eq!(released, regs);
}
