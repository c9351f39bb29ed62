//! Serial API for the USART peripherals.
//!
//! [`Usart::new`] configures frame format, baud rate divider and pin
//! routing against the register model, consuming one TX-capable and one
//! RX-capable pin; the location capability tables of
//! [`crate::location`] prove at the call site that the pins may serve
//! those roles and supply the routing codes. [`Usart::split`] enables
//! transmitter and receiver and hands out the transmit and receive
//! halves, whose operations decide from the status register whether a
//! byte can move; the hardware busy-waiting itself is the caller's loop.

use vstd::prelude::*;

use crate::bits::{bit_of, test_bit};
use crate::cmu::{ClockControlExt, Cmu, HFPERCLKEN0_USART0, HFPERCLKEN0_USART1, HFPERCLKEN0_USART2,
    HFPERCLKEN0_USART3};
use crate::gpio::{Input, Output, Pin};
use crate::location::{spec_usart_rx_location, spec_usart_tx_location, RxPin, TxPin, UsartId};
use core::marker::PhantomData;
use vstd::arithmetic::div_mod::{lemma_div_is_ordered, lemma_div_multiples_vanish,
    lemma_div_nonincreasing};

verus! {

// Field positions of the modelled USART registers.
/// TXBL bit of STATUS: the transmit buffer can take a byte.
pub const STATUS_TXBL: u32 = 6;

/// TXIDLE bit of STATUS: the transmitter is idle.
pub const STATUS_TXIDLE: u32 = 13;

/// RXDATAV bit of STATUS: received data is valid.
pub const STATUS_RXDATAV: u32 = 7;

/// PERR bit of RXDATAX: parity error in the received character.
pub const RXDATAX_PERR: u32 = 14;

/// FERR bit of RXDATAX: framing error (stop bit sampled 0).
pub const RXDATAX_FERR: u32 = 15;

/// RXEN bit mask of CMD.
pub const CMD_RXEN: u32 = 0x1;

/// TXEN bit mask of CMD.
pub const CMD_TXEN: u32 = 0x4;

/// RX pin enable bit mask of ROUTEPEN.
pub const ROUTEPEN_RXPEN: u32 = 0x1;

/// TX pin enable bit mask of ROUTEPEN.
pub const ROUTEPEN_TXPEN: u32 = 0x2;

/// TXBL interrupt enable bit mask of IEN.
pub const IEN_TXBL: u32 = 0x2;

/// RXDATAV interrupt enable bit mask of IEN.
pub const IEN_RXDATAV: u32 = 0x4;

/// Model of one USART instance's register block.
#[derive(Clone, Copy, PartialEq, Eq, Structural, Debug)]
pub struct UsartRegisters {
    /// Frame format: data bits (0:3), parity (8:9), stop bits (12:13).
    pub frame: u32,
    /// Fractional clock divider; the DIV field sits in bits 3:22.
    pub clkdiv: u32,
    /// Pin routing: RXLOC in bits 0:5, TXLOC in bits 8:13.
    pub routeloc0: u32,
    /// Pin routing enables: RXPEN bit 0, TXPEN bit 1.
    pub routepen: u32,
    /// Command register, modelled by its last written value.
    pub cmd: u32,
    /// Status register, read-only.
    pub status: u32,
    /// Received data with status: data in bits 0:8, PERR bit 14, FERR
    /// bit 15. Read-only.
    pub rxdatax: u32,
    /// Transmit data register.
    pub txdata: u32,
    /// Interrupt enables: TXBL bit 1, RXDATAV bit 2.
    pub ien: u32,
}

impl UsartRegisters {
    /// All registers at their reset value.
    pub fn new() -> (r: UsartRegisters)
        ensures
            r == (UsartRegisters {
                frame: 0,
                clkdiv: 0,
                routeloc0: 0,
                routepen: 0,
                cmd: 0,
                status: 0,
                rxdatax: 0,
                txdata: 0,
                ien: 0,
            }),
    {
        UsartRegisters {
            frame: 0,
            clkdiv: 0,
            routeloc0: 0,
            routepen: 0,
            cmd: 0,
            status: 0,
            rxdatax: 0,
            txdata: 0,
            ien: 0,
        }
    }

    /// The transmit buffer can take a byte.
    pub open spec fn txbl(self) -> bool {
        bit_of(self.status, STATUS_TXBL)
    }

    /// The transmitter is idle.
    pub open spec fn txidle(self) -> bool {
        bit_of(self.status, STATUS_TXIDLE)
    }

    /// Received data is valid.
    pub open spec fn rxdatav(self) -> bool {
        bit_of(self.status, STATUS_RXDATAV)
    }

    /// Parity error flag of the received character.
    pub open spec fn perr(self) -> bool {
        bit_of(self.rxdatax, RXDATAX_PERR)
    }

    /// Framing error flag of the received character.
    pub open spec fn ferr(self) -> bool {
        bit_of(self.rxdatax, RXDATAX_FERR)
    }

    /// The received character, truncated to a byte as the API hands it
    /// out.
    pub open spec fn rx_byte(self) -> u8 {
        (self.rxdatax & 0x1FF) as u8
    }
}

/// Parity-bit mode of the frame, with the silicon's encoding of the
/// FRAME register parity field.
#[derive(Clone, Copy, PartialEq, Eq, Structural, Debug)]
pub enum Parity {
    NoParity,
    Even,
    Odd,
}

/// The FRAME register encoding of `p` (bits 8:9).
pub open spec fn spec_parity_bits(p: Parity) -> u32 {
    match p {
        Parity::NoParity => 0,
        Parity::Even => 2,
        Parity::Odd => 3,
    }
}

/// Stop-bit mode of the frame, with the silicon's encoding of the FRAME
/// register stop-bits field.
#[derive(Clone, Copy, PartialEq, Eq, Structural, Debug)]
pub enum StopBits {
    Half,
    One,
    OneAndAHalf,
    Two,
}

/// The FRAME register encoding of `s` (bits 12:13).
pub open spec fn spec_stopbits_bits(s: StopBits) -> u32 {
    match s {
        StopBits::Half => 0,
        StopBits::One => 1,
        StopBits::OneAndAHalf => 2,
        StopBits::Two => 3,
    }
}

pub(crate) fn parity_bits(p: Parity) -> (r: u32)
    ensures
        r == spec_parity_bits(p),
{
    match p {
        Parity::NoParity => 0,
        Parity::Even => 2,
        Parity::Odd => 3,
    }
}

pub(crate) fn stopbits_bits(s: StopBits) -> (r: u32)
    ensures
        r == spec_stopbits_bits(s),
{
    match s {
        StopBits::Half => 0,
        StopBits::One => 1,
        StopBits::OneAndAHalf => 2,
        StopBits::Two => 3,
    }
}

/// Serial configuration.
///
/// Defaults to 115200 bps, 8 data bits, no parity and 1 stop bit.
pub struct Config {
    /// Baud rate in bps.
    pub baudrate: u32,
    /// Parity-bit mode.
    pub parity: Parity,
    /// Stop-bit mode.
    pub stop_bits: StopBits,
}

impl Default for Config {
    fn default() -> (r: Self)
        ensures
            r.baudrate == 115200,
            r.parity == Parity::NoParity,
            r.stop_bits == StopBits::One,
    {
        Self { baudrate: 115200, parity: Parity::NoParity, stop_bits: StopBits::One }
    }
}

/// Receive error of the USART, read from the RXDATAX status bits.
#[derive(Clone, Copy, PartialEq, Eq, Structural, Debug)]
pub enum Error {
    /// The stop bit was sampled to a value of 0. This can be the result
    /// of noise and baud rate errors, but can also be the result of a
    /// break generated by the transmitter on purpose.
    FrameFormat,
    /// Parity error detected in the received character.
    Parity,
}

/// Outcome of a non-blocking operation that did not complete: either
/// the hardware is not ready and the call should be retried later, or
/// the operation failed with `E`.
#[derive(Clone, Copy, PartialEq, Eq, Structural, Debug)]
pub enum NbError<E> {
    /// The status register says the peripheral cannot move a byte right
    /// now; retry once it can.
    WouldBlock,
    /// The operation itself failed.
    Other(E),
}

/// Internal trait used to implement the serial API for the USART
/// instances. The spec method ties each instance type to its row of the
/// location capability tables.
pub trait Instance: ClockControlExt {
    /// Which USART instance this type stands for.
    spec fn spec_id(&self) -> UsartId;

    /// Which USART instance this value stands for.
    fn id(&self) -> (r: UsartId)
        ensures
            r == self.spec_id(),
    ;
}

/// USART instance 0.
pub struct Usart0;

/// USART instance 1.
pub struct Usart1;

/// USART instance 2.
pub struct Usart2;

/// USART instance 3.
pub struct Usart3;

/// The baud rate divider the hardware is programmed with: oversampling
/// is fixed at 16, and the DIV field stores the remaining rate in
/// 1/32 steps.
pub open spec fn spec_usart_clkdiv(per: u32, baudrate: u32) -> int {
    32 * per / (16 * baudrate) - 32
}

/// The requirements under which a USART can be configured: the
/// prescaler must not make the +1 overflow, the chip's high-frequency
/// clock is at most the 19 MHz the hardware boots with, and the baud
/// rate is positive and at most a sixteenth of the peripheral clock (the
/// fixed 16x oversampling must fit).
pub open spec fn usart_config_allowed(cmu: Cmu, baudrate: u32) -> bool {
    &&& cmu.regs.hfperpresc < 0xFFFF_FFFF
    &&& cmu.hfclk <= 19_000_000
    &&& 1 <= baudrate
    &&& 16 * baudrate <= cmu.spec_hfperclk()
}

/// The register effects shared by every way of bringing a USART up:
/// parity and stop bits are set in FRAME with the data-bits field
/// untouched, the DIV field of CLKDIV is programmed for the baud rate,
/// the routing register gets exactly the two location codes of the
/// pins, and both pin routes are enabled.
pub open spec fn usart_setup_effect(
    prior: UsartRegisters,
    post: UsartRegisters,
    id: UsartId,
    tx_pin: crate::pins::PinId,
    rx_pin: crate::pins::PinId,
    parity: Parity,
    stop_bits: StopBits,
    clkdiv: int,
) -> bool {
    &&& post.frame == (prior.frame & !(0x3u32 << 8) & !(0x3u32 << 12)) | (spec_parity_bits(parity)
        << 8) | (spec_stopbits_bits(stop_bits) << 12)
    &&& post.clkdiv == (prior.clkdiv & !(0xFFFFFu32 << 3)) | ((clkdiv as u32 & 0xFFFFF) << 3)
    &&& post.routeloc0 == (match spec_usart_rx_location(id, rx_pin) {
        Some(l) => l as u32,
        None => 0,
    }) | ((match spec_usart_tx_location(id, tx_pin) {
        Some(l) => l as u32,
        None => 0,
    }) << 8)
    &&& post.routepen == ROUTEPEN_RXPEN | ROUTEPEN_TXPEN
    &&& post.status == prior.status
    &&& post.rxdatax == prior.rxdatax
    &&& post.txdata == prior.txdata
    &&& post.ien == prior.ien
}

/// USART API.
pub struct Usart<I> {
    raw: I,
}

impl<I> Usart<I> where I: Instance {
    /// The instance token this handle owns.
    pub closed spec fn spec_raw(&self) -> I {
        self.raw
    }

    /// Configures the USART `usart` against the register model `regs`:
    /// enables its clock, sets frame format and baud rate, and routes
    /// the peripheral to the two pins. The pins must have entries in the
    /// instance's TX and RX location tables; their codes end up in
    /// ROUTELOC0.
    pub fn new(
        usart: I,
        tx: Pin<Output>,
        rx: Pin<Input>,
        config: &Config,
        cmu: &mut Cmu,
        regs: &mut UsartRegisters,
    ) -> (r: Usart<I>)
        requires
            spec_usart_tx_location(usart.spec_id(), tx.pin_id()) is Some,
            spec_usart_rx_location(usart.spec_id(), rx.pin_id()) is Some,
            usart_config_allowed(*old(cmu), config.baudrate),
        ensures
            r.spec_raw() == usart,
            usart_setup_effect(
                *old(regs),
                *final(regs),
                usart.spec_id(),
                tx.pin_id(),
                rx.pin_id(),
                config.parity,
                config.stop_bits,
                spec_usart_clkdiv(old(cmu).spec_hfperclk(), config.baudrate),
            ),
            final(regs).cmd == old(regs).cmd,
            final(cmu).regs.hfbusclken0 == old(cmu).regs.hfbusclken0 | usart.hfbus_mask(),
            final(cmu).regs.hfperclken0 == old(cmu).regs.hfperclken0 | usart.hfper_mask(),
            final(cmu).regs.lfaclken0 == old(cmu).regs.lfaclken0 | usart.lfa_mask(),
            final(cmu).regs.lfbclken0 == old(cmu).regs.lfbclken0 | usart.lfb_mask(),
            final(cmu).regs.lfeclken0 == old(cmu).regs.lfeclken0 | usart.lfe_mask(),
            final(cmu).regs.hfcorepresc == old(cmu).regs.hfcorepresc,
            final(cmu).regs.hfperpresc == old(cmu).regs.hfperpresc,
            final(cmu).hfclk == old(cmu).hfclk,
    {
        cmu.enable_clock(&usart);

        regs.frame = (regs.frame & !(0x3u32 << 8) & !(0x3u32 << 12)) | (parity_bits(config.parity)
            << 8) | (stopbits_bits(config.stop_bits) << 12);

        let ovs: u32 = 16;
        let per = cmu.hfperclk();
        proof {
            lemma_div_nonincreasing(old(cmu).hfclk as int, old(cmu).regs.hfperpresc + 1);
            let b16 = 16 * config.baudrate as int;
            lemma_div_is_ordered(32 * b16, 32 * per as int, b16);
            lemma_div_multiples_vanish(32, b16);
        }
        let clkdiv = 32 * per / (ovs * config.baudrate) - 32;
        regs.clkdiv = (regs.clkdiv & !(0xFFFFFu32 << 3)) | ((clkdiv & 0xFFFFF) << 3);

        // Route the peripheral to the pins.
        let txloc = match TxPin::location(usart.id(), tx.id()) {
            Some(l) => l,
            None => 0,
        };
        let rxloc = match RxPin::location(usart.id(), rx.id()) {
            Some(l) => l,
            None => 0,
        };
        regs.routeloc0 = (rxloc as u32) | ((txloc as u32) << 8);
        regs.routepen = ROUTEPEN_RXPEN | ROUTEPEN_TXPEN;

        Usart { raw: usart }
    }

    /// Enables transmitter and receiver and splits the interface into
    /// its transmit and receive halves.
    pub fn split(self, regs: &mut UsartRegisters) -> (r: (Tx<I>, Rx<I>))
        ensures
            final(regs).cmd == CMD_RXEN | CMD_TXEN,
            final(regs).frame == old(regs).frame,
            final(regs).clkdiv == old(regs).clkdiv,
            final(regs).routeloc0 == old(regs).routeloc0,
            final(regs).routepen == old(regs).routepen,
            final(regs).status == old(regs).status,
            final(regs).rxdatax == old(regs).rxdatax,
            final(regs).txdata == old(regs).txdata,
            final(regs).ien == old(regs).ien,
    {
        regs.cmd = CMD_RXEN | CMD_TXEN;
        (Tx { _priv: PhantomData }, Rx { _priv: PhantomData })
    }

    /// Returns the raw interface to the underlying peripheral.
    pub fn release(self) -> (r: I)
        ensures
            r == self.spec_raw(),
    {
        self.raw
    }
}

/// Transmit part of the serial interface for a USART instance.
pub struct Tx<I> {
    _priv: PhantomData<I>,
}

/// Receive part of the serial interface for a USART instance.
pub struct Rx<I> {
    _priv: PhantomData<I>,
}

impl<I: Instance> Tx<I> {
    /// Enables the TXBL interrupt, which indicates that data can be
    /// sent with [`Tx::write`]. A single set-alias write.
    pub fn enable_interrupt(&mut self, regs: &mut UsartRegisters)
        ensures
            final(regs).ien == old(regs).ien | IEN_TXBL,
            final(regs).frame == old(regs).frame,
            final(regs).clkdiv == old(regs).clkdiv,
            final(regs).routeloc0 == old(regs).routeloc0,
            final(regs).routepen == old(regs).routepen,
            final(regs).cmd == old(regs).cmd,
            final(regs).status == old(regs).status,
            final(regs).rxdatax == old(regs).rxdatax,
            final(regs).txdata == old(regs).txdata,
    {
        regs.ien = regs.ien | IEN_TXBL;
    }

    /// Disables the TXBL interrupt. A single clear-alias write.
    pub fn disable_interrupt(&mut self, regs: &mut UsartRegisters)
        ensures
            final(regs).ien == old(regs).ien & !IEN_TXBL,
            final(regs).frame == old(regs).frame,
            final(regs).clkdiv == old(regs).clkdiv,
            final(regs).routeloc0 == old(regs).routeloc0,
            final(regs).routepen == old(regs).routepen,
            final(regs).cmd == old(regs).cmd,
            final(regs).status == old(regs).status,
            final(regs).rxdatax == old(regs).rxdatax,
            final(regs).txdata == old(regs).txdata,
    {
        regs.ien = regs.ien & !IEN_TXBL;
    }

    /// Hands `word` to the transmitter if the transmit buffer has room,
    /// else asks the caller to retry. The decision is the TXBL status
    /// bit; on success exactly the transmit data register changes.
    pub fn write(&mut self, word: u8, regs: &mut UsartRegisters) -> (r: Result<
        (),
        NbError<Error>,
    >)
        ensures
            r is Ok <==> old(regs).txbl(),
            old(regs).txbl() ==> *final(regs) == (UsartRegisters {
                txdata: word as u32,
                ..*old(regs)
            }),
            !old(regs).txbl() ==> *final(regs) == *old(regs) && r == Err::<(), NbError<Error>>(
                NbError::WouldBlock,
            ),
    {
        if test_bit(regs.status, STATUS_TXBL) {
            regs.txdata = word as u32;
            Ok(())
        } else {
            Err(NbError::WouldBlock)
        }
    }

    /// Reports whether the transmitter has drained: `Ok` once the
    /// TXIDLE status bit is set, else a request to retry. No register
    /// is written.
    pub fn flush(&mut self, regs: &UsartRegisters) -> (r: Result<(), NbError<Error>>)
        ensures
            r is Ok <==> regs.txidle(),
            r is Err ==> r == Err::<(), NbError<Error>>(NbError::WouldBlock),
    {
        if test_bit(regs.status, STATUS_TXIDLE) {
            Ok(())
        } else {
            Err(NbError::WouldBlock)
        }
    }
}

impl<I: Instance> Rx<I> {
    /// Enables the RXDATAV interrupt, which indicates that data was
    /// received and can be read with [`Rx::read`]. A single set-alias
    /// write.
    pub fn enable_interrupt(&mut self, regs: &mut UsartRegisters)
        ensures
            final(regs).ien == old(regs).ien | IEN_RXDATAV,
            final(regs).frame == old(regs).frame,
            final(regs).clkdiv == old(regs).clkdiv,
            final(regs).routeloc0 == old(regs).routeloc0,
            final(regs).routepen == old(regs).routepen,
            final(regs).cmd == old(regs).cmd,
            final(regs).status == old(regs).status,
            final(regs).rxdatax == old(regs).rxdatax,
            final(regs).txdata == old(regs).txdata,
    {
        regs.ien = regs.ien | IEN_RXDATAV;
    }

    /// Disables the RXDATAV interrupt. A single clear-alias write.
    pub fn disable_interrupt(&mut self, regs: &mut UsartRegisters)
        ensures
            final(regs).ien == old(regs).ien & !IEN_RXDATAV,
            final(regs).frame == old(regs).frame,
            final(regs).clkdiv == old(regs).clkdiv,
            final(regs).routeloc0 == old(regs).routeloc0,
            final(regs).routepen == old(regs).routepen,
            final(regs).cmd == old(regs).cmd,
            final(regs).status == old(regs).status,
            final(regs).rxdatax == old(regs).rxdatax,
            final(regs).txdata == old(regs).txdata,
    {
        regs.ien = regs.ien & !IEN_RXDATAV;
    }

    /// Reads a received character, exposing the RXDATAX status bits
    /// faithfully: no valid data asks the caller to retry, a framing
    /// error and a parity error are reported in that order, else the
    /// received byte is returned. The model registers are not changed.
    pub fn read(&mut self, regs: &UsartRegisters) -> (r: Result<u8, NbError<Error>>)
        ensures
            r == (if !regs.rxdatav() {
                Err::<u8, NbError<Error>>(NbError::WouldBlock)
            } else if regs.ferr() {
                Err::<u8, NbError<Error>>(NbError::Other(Error::FrameFormat))
            } else if regs.perr() {
                Err::<u8, NbError<Error>>(NbError::Other(Error::Parity))
            } else {
                Ok::<u8, NbError<Error>>(regs.rx_byte())
            }),
    {
        if !test_bit(regs.status, STATUS_RXDATAV) {
            return Err(NbError::WouldBlock);
        }

        let rxdatax = regs.rxdatax;
        if test_bit(rxdatax, RXDATAX_FERR) {
            return Err(NbError::Other(Error::FrameFormat));
        }
        if test_bit(rxdatax, RXDATAX_PERR) {
            return Err(NbError::Other(Error::Parity));
        }

        Ok((rxdatax & 0x1FF) as u8)
    }
}

impl ClockControlExt for Usart0 {
    open spec fn hfbus_mask(&self) -> u32 {
        0
    }

    open spec fn hfper_mask(&self) -> u32 {
        HFPERCLKEN0_USART0
    }

    open spec fn lfa_mask(&self) -> u32 {
        0
    }

    open spec fn lfb_mask(&self) -> u32 {
        0
    }

    open spec fn lfe_mask(&self) -> u32 {
        0
    }

    fn enable_clock(&self, clocks: &mut Cmu) {
        clocks.regs.hfperclken0 = clocks.regs.hfperclken0 | HFPERCLKEN0_USART0;
        proof {
            crate::cmu::lemma_or_zero(clocks.regs.hfbusclken0);
            crate::cmu::lemma_or_zero(clocks.regs.lfaclken0);
            crate::cmu::lemma_or_zero(clocks.regs.lfbclken0);
            crate::cmu::lemma_or_zero(clocks.regs.lfeclken0);
        }
    }
}

impl Instance for Usart0 {
    open spec fn spec_id(&self) -> UsartId {
        UsartId::Usart0
    }

    fn id(&self) -> UsartId {
        UsartId::Usart0
    }
}

impl ClockControlExt for Usart1 {
    open spec fn hfbus_mask(&self) -> u32 {
        0
    }

    open spec fn hfper_mask(&self) -> u32 {
        HFPERCLKEN0_USART1
    }

    open spec fn lfa_mask(&self) -> u32 {
        0
    }

    open spec fn lfb_mask(&self) -> u32 {
        0
    }

    open spec fn lfe_mask(&self) -> u32 {
        0
    }

    fn enable_clock(&self, clocks: &mut Cmu) {
        clocks.regs.hfperclken0 = clocks.regs.hfperclken0 | HFPERCLKEN0_USART1;
        proof {
            crate::cmu::lemma_or_zero(clocks.regs.hfbusclken0);
            crate::cmu::lemma_or_zero(clocks.regs.lfaclken0);
            crate::cmu::lemma_or_zero(clocks.regs.lfbclken0);
            crate::cmu::lemma_or_zero(clocks.regs.lfeclken0);
        }
    }
}

impl Instance for Usart1 {
    open spec fn spec_id(&self) -> UsartId {
        UsartId::Usart1
    }

    fn id(&self) -> UsartId {
        UsartId::Usart1
    }
}

impl ClockControlExt for Usart2 {
    open spec fn hfbus_mask(&self) -> u32 {
        0
    }

    open spec fn hfper_mask(&self) -> u32 {
        HFPERCLKEN0_USART2
    }

    open spec fn lfa_mask(&self) -> u32 {
        0
    }

    open spec fn lfb_mask(&self) -> u32 {
        0
    }

    open spec fn lfe_mask(&self) -> u32 {
        0
    }

    fn enable_clock(&self, clocks: &mut Cmu) {
        clocks.regs.hfperclken0 = clocks.regs.hfperclken0 | HFPERCLKEN0_USART2;
        proof {
            crate::cmu::lemma_or_zero(clocks.regs.hfbusclken0);
            crate::cmu::lemma_or_zero(clocks.regs.lfaclken0);
            crate::cmu::lemma_or_zero(clocks.regs.lfbclken0);
            crate::cmu::lemma_or_zero(clocks.regs.lfeclken0);
        }
    }
}

impl Instance for Usart2 {
    open spec fn spec_id(&self) -> UsartId {
        UsartId::Usart2
    }

    fn id(&self) -> UsartId {
        UsartId::Usart2
    }
}

impl ClockControlExt for Usart3 {
    open spec fn hfbus_mask(&self) -> u32 {
        0
    }

    open spec fn hfper_mask(&self) -> u32 {
        HFPERCLKEN0_USART3
    }

    open spec fn lfa_mask(&self) -> u32 {
        0
    }

    open spec fn lfb_mask(&self) -> u32 {
        0
    }

    open spec fn lfe_mask(&self) -> u32 {
        0
    }

    fn enable_clock(&self, clocks: &mut Cmu) {
        clocks.regs.hfperclken0 = clocks.regs.hfperclken0 | HFPERCLKEN0_USART3;
        proof {
            crate::cmu::lemma_or_zero(clocks.regs.hfbusclken0);
            crate::cmu::lemma_or_zero(clocks.regs.lfaclken0);
            crate::cmu::lemma_or_zero(clocks.regs.lfbclken0);
            crate::cmu::lemma_or_zero(clocks.regs.lfeclken0);
        }
    }
}

impl Instance for Usart3 {
    open spec fn spec_id(&self) -> UsartId {
        UsartId::Usart3
    }

    fn id(&self) -> UsartId {
        UsartId::Usart3
    }
}

} // verus!
