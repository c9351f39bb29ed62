use efm32pg12_hal::cmu::{Cmu, CmuRegisters};
use efm32pg12_hal::gpio::{ConfigError, Gpio, GpioExt, Parts, Pull};
use efm32pg12_hal::pins::{PinId, Port};
use efm32pg12_hal::regs::GpioRegisters;

fn setup() -> (Parts, GpioRegisters) {
    let mut cmu = Cmu::new(CmuRegisters::new());
    let parts = Gpio.split(&mut cmu);
    (parts, GpioRegisters::new())
}

// Mode encodings written by each input configuration, observed on the
// register mock. PA5 sits in the low mode register (nibble 5), PD10 in
// the high one (nibble 2).

#[test]
fn input_floating_writes_input_mode() {
    let (parts, mut regs) = setup();
    let _pin = parts.pa5.input(&mut regs);
    assert_eq!(regs.pa.mode_low, 0x1 << 20);
    assert_eq!(regs.pa.dout, 0);
}

#[test]
fn input_floating_filter_sets_mode_then_dout() {
    let (parts, mut regs) = setup();
    let _pin = parts.pa5.filter().input(&mut regs);
    assert_eq!(regs.pa.mode_low, 0x1 << 20);
    assert_eq!(regs.pa.dout, 1 << 5);
}

#[test]
fn input_pull_down_writes_inputpull_mode() {
    let (parts, mut regs) = setup();
    let _pin = parts.pa5.pull_pown().input(&mut regs);
    assert_eq!(regs.pa.mode_low, 0x2 << 20);
    assert_eq!(regs.pa.dout, 0);
}

#[test]
fn input_pull_up_writes_inputpull_mode_and_dout() {
    let (parts, mut regs) = setup();
    let _pin = parts.pa5.pull_up().input(&mut regs);
    assert_eq!(regs.pa.mode_low, 0x2 << 20);
    assert_eq!(regs.pa.dout, 1 << 5);
}

#[test]
fn input_pull_down_filter_writes_inputpullfilter_mode() {
    let (parts, mut regs) = setup();
    let _pin = parts.pd10.pull_pown().filter().input(&mut regs);
    assert_eq!(regs.pd.mode_high, 0x3 << 8);
    assert_eq!(regs.pd.dout, 0);
}

#[test]
fn input_pull_up_filter_writes_inputpullfilter_mode_and_dout() {
    let (parts, mut regs) = setup();
    let _pin = parts.pd10.pull_up().filter().input(&mut regs);
    assert_eq!(regs.pd.mode_high, 0x3 << 8);
    assert_eq!(regs.pd.dout, 1 << 10);
}

// Mode encodings written by each output configuration.

#[test]
fn push_pull_output_writes_pushpull_mode() {
    let (parts, mut regs) = setup();
    let _pin = parts.pa0.push_pull_output(false, &mut regs);
    assert_eq!(regs.pa.mode_low, 0x4);
    assert_eq!(regs.pa.dout, 0);
}

#[test]
fn push_pull_output_high_sets_dout_before_mode() {
    let (parts, mut regs) = setup();
    let _pin = parts.pa0.push_pull_output(true, &mut regs);
    assert_eq!(regs.pa.mode_low, 0x4);
    assert_eq!(regs.pa.dout, 1);
}

#[test]
fn open_source_output_writes_wiredor_mode() {
    let (parts, mut regs) = setup();
    let _pin = parts.pb6.open_source_output(true, &mut regs);
    assert_eq!(regs.pb.mode_low, 0x6 << 24);
    assert_eq!(regs.pb.dout, 1 << 6);
}

#[test]
fn open_source_output_pull_down_writes_wiredorpulldown_mode() {
    let (parts, mut regs) = setup();
    let _pin = parts.pb6.pull_pown().open_source_output(false, &mut regs);
    assert_eq!(regs.pb.mode_low, 0x7 << 24);
    assert_eq!(regs.pb.dout, 0);
}

#[test]
fn open_drain_output_writes_wiredand_mode() {
    let (parts, mut regs) = setup();
    let _pin = parts.pc11.open_drain_output(false, &mut regs);
    assert_eq!(regs.pc.mode_high, 0x8 << 12);
    assert_eq!(regs.pc.dout, 0);
}

#[test]
fn open_drain_output_filter_writes_wiredandfilter_mode() {
    let (parts, mut regs) = setup();
    let _pin = parts.pc11.filter().open_drain_output(false, &mut regs);
    assert_eq!(regs.pc.mode_high, 0x9 << 12);
}

#[test]
fn open_drain_output_pull_up_writes_wiredandpullup_mode() {
    let (parts, mut regs) = setup();
    let _pin = parts.pc11.pull_up().open_drain_output(true, &mut regs);
    assert_eq!(regs.pc.mode_high, 0xA << 12);
    assert_eq!(regs.pc.dout, 1 << 11);
}

#[test]
fn open_drain_output_pull_up_filter_writes_wiredandpullupfilter_mode() {
    let (parts, mut regs) = setup();
    let _pin = parts.pc11.pull_up().filter().open_drain_output(false, &mut regs);
    assert_eq!(regs.pc.mode_high, 0xB << 12);
}

// The value-level operations land on the same encodings.

#[test]
fn into_input_matches_typed_encodings() {
    for (pull, filter, mode, dout) in [
        (Pull::Floating, false, 0x1u32, 0u32),
        (Pull::Floating, true, 0x1, 1 << 5),
        (Pull::PullDown, false, 0x2, 0),
        (Pull::PullUp, false, 0x2, 1 << 5),
        (Pull::PullDown, true, 0x3, 0),
        (Pull::PullUp, true, 0x3, 1 << 5),
    ] {
        let (parts, mut regs) = setup();
        let _pin = parts.pa5.into_input(pull, filter, &mut regs);
        assert_eq!(regs.pa.mode_low, mode << 20);
        assert_eq!(regs.pa.dout, dout);
    }
}

#[test]
fn into_push_pull_matches_typed_encoding() {
    let (parts, mut regs) = setup();
    let _pin = parts.pa5.into_push_pull(true, &mut regs);
    assert_eq!(regs.pa.mode_low, 0x4 << 20);
    assert_eq!(regs.pa.dout, 1 << 5);
}

#[test]
fn into_open_source_supported_pulls() {
    let (parts, mut regs) = setup();
    let pin = parts.pa5.into_open_source(false, Pull::Floating, &mut regs);
    assert!(pin.is_ok());
    assert_eq!(regs.pa.mode_low, 0x6 << 20);

    let (parts, mut regs) = setup();
    let pin = parts.pa5.into_open_source(false, Pull::PullDown, &mut regs);
    assert!(pin.is_ok());
    assert_eq!(regs.pa.mode_low, 0x7 << 20);
}

#[test]
fn into_open_drain_supported_pulls() {
    for (pull, filter, mode) in [
        (Pull::Floating, false, 0x8u32),
        (Pull::Floating, true, 0x9),
        (Pull::PullUp, false, 0xA),
        (Pull::PullUp, true, 0xB),
    ] {
        let (parts, mut regs) = setup();
        let pin = parts.pa5.into_open_drain(false, pull, filter, &mut regs);
        assert!(pin.is_ok());
        assert_eq!(regs.pa.mode_low, mode << 20);
    }
}

// Rejection of the electrically unsupported combinations, before any
// register write.

#[test]
fn open_source_with_pull_up_rejected_without_any_write() {
    let (parts, mut regs) = setup();
    let before = regs;
    let r = parts.pa5.into_open_source(true, Pull::PullUp, &mut regs);
    assert_eq!(r.err(), Some(ConfigError::UnsupportedPull));
    assert_eq!(regs, before);
}

#[test]
fn open_drain_with_pull_down_rejected_without_any_write() {
    let (parts, mut regs) = setup();
    let before = regs;
    let r = parts.pf4.into_open_drain(true, Pull::PullDown, true, &mut regs);
    assert_eq!(r.err(), Some(ConfigError::UnsupportedPull));
    assert_eq!(regs, before);
}

// Reset clears mode and data-out whatever the prior state, and is
// idempotent.

#[test]
fn reset_clears_mode_and_dout() {
    let (parts, mut regs) = setup();
    let pin = parts.pa5.pull_up().filter().input(&mut regs);
    assert_eq!(regs.pa.mode_low, 0x3 << 20);
    assert_eq!(regs.pa.dout, 1 << 5);
    let _builder = pin.reset(&mut regs);
    assert_eq!(regs.pa.mode_low, 0);
    assert_eq!(regs.pa.dout, 0);
}

#[test]
fn reset_twice_equals_reset_once() {
    let (parts, mut regs) = setup();
    let pin = parts.pd10.pull_up().open_drain_output(true, &mut regs);
    let builder = pin.reset(&mut regs);
    let after_one = regs;
    let pin = builder.pull_up().input(&mut regs);
    let builder = pin.reset(&mut regs);
    let _builder = builder.disabled().reset(&mut regs);
    assert_eq!(regs, after_one);
}

#[test]
fn reset_clears_stale_dout_from_any_state() {
    // A high push-pull output leaves DOUT set; in DISABLED mode that
    // would mean "pull-up enabled", so reset must clear it.
    let (parts, mut regs) = setup();
    let pin = parts.pf4.push_pull_output(true, &mut regs);
    assert_eq!(regs.pf.dout, 1 << 4);
    let _builder = pin.reset(&mut regs);
    assert_eq!(regs.pf.dout, 0);
    assert_eq!(regs.pf.mode_low, 0);
}

// Pin identities: the debug pins PF0-PF3 are not constructible.

#[test]
fn debug_pins_not_constructible() {
    for bit in 0..4u8 {
        assert!(PinId::new(Port::F, bit).is_none());
    }
    assert!(PinId::new(Port::F, 4).is_some());
}

#[test]
fn absent_pins_not_constructible() {
    assert!(PinId::new(Port::A, 10).is_none());
    assert!(PinId::new(Port::B, 5).is_none());
    assert!(PinId::new(Port::D, 7).is_none());
    assert!(PinId::new(Port::J, 13).is_none());
    assert!(PinId::new(Port::K, 3).is_none());
    assert!(PinId::new(Port::I, 16).is_none());
}

#[test]
fn present_pins_constructible_with_identity() {
    let p = PinId::new(Port::C, 11).unwrap();
    assert_eq!(p.port(), Port::C);
    assert_eq!(p.bit(), 11);
}

// Atomic set/clear: one pin's writes never disturb another bit's
// last-written value, and equal a read-modify-write of just that bit.

#[test]
fn set_alias_touches_only_its_bit() {
    let (parts, mut regs) = setup();
    let pin = parts.pa5.push_pull_output(false, &mut regs);
    // Give the rest of the port's data-out register a busy pattern.
    let pattern: u32 = 0b1100_1010_0101_0010;
    regs.pa.dout = pattern;
    pin.set_high(&mut regs);
    // Equal to a read-modify-write of bit 5 alone.
    assert_eq!(regs.pa.dout, pattern | (1 << 5));
    for k in 0..32 {
        if k != 5 {
            assert_eq!(regs.pa.dout & (1 << k), pattern & (1 << k));
        }
    }
}

#[test]
fn clear_alias_touches_only_its_bit() {
    let (parts, mut regs) = setup();
    let pin = parts.pa5.push_pull_output(true, &mut regs);
    let pattern: u32 = 0b1111_0000_1111_0011 | (1 << 5);
    regs.pa.dout = pattern;
    pin.set_low(&mut regs);
    assert_eq!(regs.pa.dout, pattern & !(1 << 5));
    for k in 0..32 {
        if k != 5 {
            assert_eq!(regs.pa.dout & (1 << k), pattern & (1 << k));
        }
    }
}

#[test]
fn toggle_inverts_only_its_bit() {
    let (parts, mut regs) = setup();
    let pin = parts.pb7.push_pull_output(false, &mut regs);
    let pattern: u32 = 0b0011_1100_0000_0001;
    regs.pb.dout = pattern;
    pin.toggle(&mut regs);
    assert_eq!(regs.pb.dout, pattern ^ (1 << 7));
    pin.toggle(&mut regs);
    assert_eq!(regs.pb.dout, pattern);
}

#[test]
fn output_readback_follows_dout() {
    let (parts, mut regs) = setup();
    let pin = parts.pk0.push_pull_output(false, &mut regs);
    assert!(pin.is_set_low(&regs));
    assert!(!pin.is_set_high(&regs));
    pin.set_high(&mut regs);
    assert!(pin.is_set_high(&regs));
    assert!(!pin.is_set_low(&regs));
}

// End-to-end scenario: split, configure PF6 as filtered pull-up input,
// and read the line back with the hardware polarity convention
// (is_low is the inverse of the data-in bit).

#[test]
fn split_configure_pf6_and_read_line() {
    let mut cmu = Cmu::new(CmuRegisters::new());
    let parts = Gpio.split(&mut cmu);
    // The split gates the GPIO bus clock, once.
    assert_eq!(cmu.regs.hfbusclken0, 0x8);

    let mut regs = GpioRegisters::new();
    let pin = parts.pf6.pull_up().filter().input(&mut regs);
    assert_eq!(regs.pf.mode_low, 0x3 << 24);
    assert_eq!(regs.pf.dout, 1 << 6);

    // din bit 6 is 0: the line reads low.
    assert!(pin.is_low(&regs));
    assert!(!pin.is_high(&regs));

    // din bit 6 is 1: the line reads high.
    regs.pf.din = 1 << 6;
    assert!(!pin.is_low(&regs));
    assert!(pin.is_high(&regs));
}

#[test]
fn disabled_with_pull_up_sets_dout() {
    let (parts, mut regs) = setup();
    let _pin = parts.pa1.pull_up().disabled(&mut regs);
    assert_eq!(regs.pa.mode_low, 0);
    assert_eq!(regs.pa.dout, 1 << 1);
}

#[test]
fn disabled_floating_writes_nothing() {
    let (parts, regs) = setup();
    let before = regs;
    let _pin = parts.pa1.disabled();
    assert_eq!(regs, before);
}
