use efm32pg12_hal::cmu::{Cmu, CmuRegisters};
use efm32pg12_hal::gpio::{Gpio, GpioExt, Input, Output, Pin};
use efm32pg12_hal::i2c::{self, ack_poll_decision, read_length_check, AckPoll, I2c, I2c0, I2c1,
    I2cRegisters};
use efm32pg12_hal::location::{I2cId, RxPin, SclPin, SdaPin, TxPin, UsartId};
use efm32pg12_hal::pins::{PinId, Port};
use efm32pg12_hal::regs::GpioRegisters;
use efm32pg12_hal::serial::{self, Serial, UsartExt};
use efm32pg12_hal::usart::{Config, Error, NbError, Parity, Rx, StopBits, Tx, Usart, Usart0,
    Usart3, UsartRegisters};

fn pin_id(port: Port, bit: u8) -> PinId {
    PinId::new(port, bit).unwrap()
}

// Location tables: datasheet spot checks.

#[test]
fn i2c0_scl_location_spot_checks() {
    assert_eq!(SclPin::location(I2cId::I2c0, pin_id(Port::A, 1)), Some(0));
    assert_eq!(SclPin::location(I2cId::I2c0, pin_id(Port::A, 0)), Some(31));
}

#[test]
fn usart3_tx_location_spot_check() {
    assert_eq!(TxPin::location(UsartId::Usart3, pin_id(Port::D, 8)), Some(0));
}

#[test]
fn more_location_rows() {
    assert_eq!(RxPin::location(UsartId::Usart0, pin_id(Port::A, 0)), Some(31));
    assert_eq!(TxPin::location(UsartId::Usart0, pin_id(Port::C, 6)), Some(11));
    assert_eq!(RxPin::location(UsartId::Usart2, pin_id(Port::I, 0)), Some(4));
    assert_eq!(SdaPin::location(I2cId::I2c1, pin_id(Port::C, 1)), Some(14));
}

#[test]
fn pins_outside_a_table_have_no_location() {
    // PD8 can carry USART3 TX but not USART0 TX.
    assert_eq!(TxPin::location(UsartId::Usart0, pin_id(Port::D, 8)), None);
    // PK0 carries no I2C0 signal at all.
    assert_eq!(SclPin::location(I2cId::I2c0, pin_id(Port::K, 0)), None);
    assert_eq!(SdaPin::location(I2cId::I2c0, pin_id(Port::K, 0)), None);
}

// Serial bring-up through the extension trait.

fn parts() -> (efm32pg12_hal::gpio::Parts, GpioRegisters) {
    let mut cmu = Cmu::new(CmuRegisters::new());
    (Gpio.split(&mut cmu), GpioRegisters::new())
}

fn pins_pc6_pc7() -> (Pin<Output>, Pin<Input>) {
    let (parts, mut gregs) = parts();
    (parts.pc6.push_pull_output(true, &mut gregs), parts.pc7.filter().input(&mut gregs))
}

fn pins_pd8_tx_and_rx(rx_bit: u8) -> (Pin<Output>, Pin<Input>) {
    let (parts, mut gregs) = parts();
    let tx = parts.pd8.push_pull_output(true, &mut gregs);
    let rx = if rx_bit == 9 {
        parts.pd9.filter().input(&mut gregs)
    } else {
        parts.pd10.filter().input(&mut gregs)
    };
    (tx, rx)
}

#[test]
fn serial_split_configures_frame_clkdiv_and_routing() {
    let (tx, rx) = pins_pc6_pc7();
    let mut cmu = Cmu::new(CmuRegisters::new());
    let mut regs = UsartRegisters::new();
    let _serial: Serial<Usart0> = Usart0.split(tx, rx, &serial::Config::default(), &mut cmu, &mut regs);

    // USART0's clock-enable bit.
    assert_eq!(cmu.regs.hfperclken0, 0x10);
    // 8 data bits, no parity, one stop bit.
    assert_eq!(regs.frame, 0x1 << 12);
    // 32 * 19 MHz / (16 * 115200) - 32 = 297, in the DIV field.
    assert_eq!(regs.clkdiv, 297 << 3);
    // PC6 is TX location 11, PC7 is RX location 11.
    assert_eq!(regs.routeloc0, 11 | (11 << 8));
    // Both pin routes enabled, transmitter and receiver on.
    assert_eq!(regs.routepen, 0x3);
    assert_eq!(regs.cmd, 0x5);
}

#[test]
fn serial_split_encodes_parity_and_stop_bits() {
    let (tx, rx) = pins_pc6_pc7();
    let mut cmu = Cmu::new(CmuRegisters::new());
    let mut regs = UsartRegisters::new();
    let config = serial::Config { baudrate: 9600, parity: Parity::Even, stop_bits: StopBits::Two };
    let _serial: Serial<Usart0> = Usart0.split(tx, rx, &config, &mut cmu, &mut regs);
    assert_eq!(regs.frame, (2 << 8) | (3 << 12));
    // 32 * 19 MHz / (16 * 9600) - 32 = 3926, in the DIV field.
    assert_eq!(regs.clkdiv, 3926 << 3);
}

#[test]
fn serial_read_write_flush_follow_status_bits() {
    let (tx, rx) = pins_pc6_pc7();
    let mut cmu = Cmu::new(CmuRegisters::new());
    let mut regs = UsartRegisters::new();
    let mut s: Serial<Usart0> = Usart0.split(tx, rx, &serial::Config::default(), &mut cmu, &mut regs);

    // Nothing received, transmitter full and not idle.
    regs.status = 0;
    assert_eq!(s.read(&regs), Err(NbError::WouldBlock));
    assert_eq!(s.write(0x55, &mut regs), Err(NbError::WouldBlock));
    assert_eq!(s.flush(&regs), Err(NbError::WouldBlock));

    // TXBL: a byte can be handed over and lands in TXDATA.
    regs.status = 1 << 6;
    assert_eq!(s.write(0x55, &mut regs), Ok(()));
    assert_eq!(regs.txdata, 0x55);

    // TXIDLE: flush succeeds.
    regs.status = 1 << 13;
    assert_eq!(s.flush(&regs), Ok(()));

    // RXDATAV with clean status bits: the byte comes through.
    regs.status = 1 << 7;
    regs.rxdatax = 0x41;
    assert_eq!(s.read(&regs), Ok(0x41));

    // Framing error wins over parity error.
    regs.rxdatax = 0x41 | (1 << 15) | (1 << 14);
    assert_eq!(s.read(&regs), Err(NbError::Other(serial::Error::Framing)));
    regs.rxdatax = 0x41 | (1 << 14);
    assert_eq!(s.read(&regs), Err(NbError::Other(serial::Error::Parity)));
}

// USART bring-up through the owned API.

#[test]
fn usart_new_and_split_configure_and_enable() {
    let (tx, rx) = pins_pd8_tx_and_rx(10);
    let mut cmu = Cmu::new(CmuRegisters::new());
    let mut regs = UsartRegisters::new();
    let usart = Usart::new(Usart3, tx, rx, &Config::default(), &mut cmu, &mut regs);

    assert_eq!(cmu.regs.hfperclken0, 0x80);
    // PD8 is USART3 TX location 0, PD10 is RX location 1.
    assert_eq!(regs.routeloc0, 1 | (0 << 8));
    assert_eq!(regs.routepen, 0x3);
    // new() does not enable transmitter or receiver yet.
    assert_eq!(regs.cmd, 0);

    let (_tx, _rx): (Tx<Usart3>, Rx<Usart3>) = usart.split(&mut regs);
    assert_eq!(regs.cmd, 0x5);
}

#[test]
fn usart_release_returns_the_instance_token() {
    let (tx, rx) = pins_pd8_tx_and_rx(9);
    let mut cmu = Cmu::new(CmuRegisters::new());
    let mut regs = UsartRegisters::new();
    let usart = Usart::new(Usart3, tx, rx, &Config::default(), &mut cmu, &mut regs);
    let _token: Usart3 = usart.release();
}

#[test]
fn tx_rx_operations_follow_status_bits() {
    let (tx, rx) = pins_pd8_tx_and_rx(10);
    let mut cmu = Cmu::new(CmuRegisters::new());
    let mut regs = UsartRegisters::new();
    let usart = Usart::new(Usart3, tx, rx, &Config::default(), &mut cmu, &mut regs);
    let (mut tx_half, mut rx_half) = usart.split(&mut regs);

    regs.status = 0;
    assert_eq!(tx_half.write(0x7E, &mut regs), Err(NbError::WouldBlock));
    assert_eq!(tx_half.flush(&regs), Err(NbError::WouldBlock));
    assert_eq!(rx_half.read(&regs), Err(NbError::WouldBlock));

    regs.status = 1 << 6;
    assert_eq!(tx_half.write(0x7E, &mut regs), Ok(()));
    assert_eq!(regs.txdata, 0x7E);

    regs.status = 1 << 13;
    assert_eq!(tx_half.flush(&regs), Ok(()));

    regs.status = 1 << 7;
    regs.rxdatax = 0xA5;
    assert_eq!(rx_half.read(&regs), Ok(0xA5));
    regs.rxdatax = 0xA5 | (1 << 15);
    assert_eq!(rx_half.read(&regs), Err(NbError::Other(Error::FrameFormat)));
    regs.rxdatax = 0xA5 | (1 << 14);
    assert_eq!(rx_half.read(&regs), Err(NbError::Other(Error::Parity)));
}

#[test]
fn interrupt_enables_touch_only_their_bit() {
    let (tx, rx) = pins_pd8_tx_and_rx(10);
    let mut cmu = Cmu::new(CmuRegisters::new());
    let mut regs = UsartRegisters::new();
    let usart = Usart::new(Usart3, tx, rx, &Config::default(), &mut cmu, &mut regs);
    let (mut tx_half, mut rx_half) = usart.split(&mut regs);

    tx_half.enable_interrupt(&mut regs);
    assert_eq!(regs.ien, 0x2);
    rx_half.enable_interrupt(&mut regs);
    assert_eq!(regs.ien, 0x6);
    tx_half.disable_interrupt(&mut regs);
    assert_eq!(regs.ien, 0x4);
    rx_half.disable_interrupt(&mut regs);
    assert_eq!(regs.ien, 0);
}

// I2C bring-up and the acknowledge decision.

fn i2c_pins_pc0_pc1() -> (Pin<Output>, Pin<Output>) {
    let (parts, mut gregs) = parts();
    let scl = parts.pc0.pull_up().open_drain_output(true, &mut gregs);
    let sda = parts.pc1.pull_up().open_drain_output(true, &mut gregs);
    (scl, sda)
}

fn i2c_pins_pa1_pa0() -> (Pin<Output>, Pin<Output>) {
    let (parts, mut gregs) = parts();
    let scl = parts.pa1.pull_up().open_drain_output(true, &mut gregs);
    let sda = parts.pa0.pull_up().open_drain_output(true, &mut gregs);
    (scl, sda)
}

#[test]
fn i2c_new_configures_divider_and_routing() {
    let (scl, sda) = i2c_pins_pc0_pc1();
    let mut cmu = Cmu::new(CmuRegisters::new());
    let mut regs = I2cRegisters::new();
    let _i2c: I2c<I2c1> = I2c::new(I2c1, scl, sda, &mut cmu, &mut regs);

    assert_eq!(cmu.regs.hfperclken0, 0x200);
    // (19 MHz - 800 kHz) / 800 kHz - 1 = 21.
    assert_eq!(regs.clkdiv, 21);
    assert_eq!(regs.ctrl, 0x1);
    // Pending commands and TX buffer cleared last.
    assert_eq!(regs.cmd, 0x80 | 0x40);
    // PC0 is I2C1 SCL location 12, PC1 is SDA location 14.
    assert_eq!(regs.routeloc0, 14 | (12 << 8));
    assert_eq!(regs.routepen, 0x3);
}

#[test]
fn i2c_new_aborts_a_busy_bus() {
    // The busy flag is cleared with an ABORT, then commands are
    // cleared; the final command register value is the same, and the
    // rest of the bring-up is untouched.
    let (scl, sda) = i2c_pins_pa1_pa0();
    let mut cmu = Cmu::new(CmuRegisters::new());
    let mut regs = I2cRegisters::new();
    regs.state = 0x1;
    let _i2c: I2c<I2c0> = I2c::new(I2c0, scl, sda, &mut cmu, &mut regs);
    assert_eq!(regs.cmd, 0xC0);
    // I2C0: SCL on PA1 is location 0, SDA on PA0 is location 0.
    assert_eq!(regs.routeloc0, 0);
}

#[test]
fn wait_for_ack_acknowledged() {
    let (scl, sda) = i2c_pins_pa1_pa0();
    let mut cmu = Cmu::new(CmuRegisters::new());
    let mut regs = I2cRegisters::new();
    let mut bus: I2c<I2c0> = I2c::new(I2c0, scl, sda, &mut cmu, &mut regs);

    let cmd_before = regs.cmd;
    regs.if_ = 1 << 6;
    assert_eq!(bus.wait_for_ack(&mut regs), Ok(()));
    // The ACK flag is cleared, no STOP is issued.
    assert_eq!(regs.if_, 0);
    assert_eq!(regs.cmd, cmd_before);
}

#[test]
fn wait_for_ack_not_acknowledged_stops_the_transfer() {
    let (scl, sda) = i2c_pins_pa1_pa0();
    let mut cmu = Cmu::new(CmuRegisters::new());
    let mut regs = I2cRegisters::new();
    let mut bus: I2c<I2c0> = I2c::new(I2c0, scl, sda, &mut cmu, &mut regs);

    regs.if_ = 1 << 7;
    assert_eq!(bus.wait_for_ack(&mut regs), Err(i2c::Error::Nack));
    assert_eq!(regs.if_, 0);
    // A STOP condition ends the transfer.
    assert_eq!(regs.cmd, 0x2);

    // A NACK wins when both flags are up; the ACK flag stays.
    regs.if_ = (1 << 6) | (1 << 7);
    assert_eq!(bus.wait_for_ack(&mut regs), Err(i2c::Error::Nack));
    assert_eq!(regs.if_, 1 << 6);
}

#[test]
fn ack_poll_decision_orders_the_flags() {
    assert_eq!(ack_poll_decision(false, false), AckPoll::Pending);
    assert_eq!(ack_poll_decision(true, false), AckPoll::Acked);
    assert_eq!(ack_poll_decision(false, true), AckPoll::Nacked);
    assert_eq!(ack_poll_decision(true, true), AckPoll::Nacked);
}

#[test]
fn zero_length_reads_are_rejected() {
    assert_eq!(read_length_check(0), Err(i2c::Error::InvalidConfiguration));
    assert_eq!(read_length_check(1), Ok(()));
    assert_eq!(read_length_check(64), Ok(()));
}

#[test]
fn config_defaults() {
    let c = Config::default();
    assert_eq!(c.baudrate, 115200);
    assert_eq!(c.parity, Parity::NoParity);
    assert_eq!(c.stop_bits, StopBits::One);
    let c = serial::Config::default();
    assert_eq!(c.baudrate, 115200);
}
