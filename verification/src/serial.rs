//! Serial API, as an extension trait on the USART instance types.
//!
//! [`UsartExt::split`] brings a USART up in one step: clock, frame
//! format, baud rate, pin routing, and transmitter/receiver enable, and
//! returns a combined [`Serial`] interface whose `read`, `write` and
//! `flush` decide from the status register whether a byte can move. The
//! pin-location capability tables prove at the call site that the two
//! pins may serve the TX and RX roles.

use vstd::prelude::*;

use crate::bits::test_bit;
use crate::cmu::Cmu;
use crate::gpio::{Input, Output, Pin};
use crate::location::{spec_usart_rx_location, spec_usart_tx_location, RxPin, TxPin};
use crate::usart::{parity_bits, stopbits_bits, spec_usart_clkdiv, usart_config_allowed, usart_setup_effect, Instance, NbError, Parity,
    StopBits, UsartRegisters, CMD_RXEN, CMD_TXEN, ROUTEPEN_RXPEN, ROUTEPEN_TXPEN, RXDATAX_FERR,
    RXDATAX_PERR, STATUS_RXDATAV, STATUS_TXBL, STATUS_TXIDLE};
use vstd::arithmetic::div_mod::{lemma_div_is_ordered, lemma_div_multiples_vanish,
    lemma_div_nonincreasing};

verus! {

/// Serial configuration.
///
/// Defaults to 115200 bps, 8 data bits, no parity and 1 stop bit.
pub struct Config {
    /// Baud rate in bps.
    pub baudrate: u32,
    /// Parity-bit mode.
    pub parity: Parity,
    /// Stop-bit mode.
    pub stop_bits: StopBits,
}

impl Default for Config {
    fn default() -> (r: Self)
        ensures
            r.baudrate == 115200,
            r.parity == Parity::NoParity,
            r.stop_bits == StopBits::One,
    {
        Self { baudrate: 115200, parity: Parity::NoParity, stop_bits: StopBits::One }
    }
}

/// Serial receive error, read from the RXDATAX status bits.
#[derive(Clone, Copy, PartialEq, Eq, Structural, Debug)]
pub enum Error {
    /// The stop bit was sampled to a value of 0. This can be the result
    /// of noise and baud rate errors, but can also be the result of a
    /// break generated by the transmitter on purpose.
    Framing,
    /// Parity error detected in the received character.
    Parity,
}

/// Extension trait that turns a USART instance into a running serial
/// interface.
pub trait UsartExt<I: Instance>: Sized + crate::cmu::ClockControlExt {
    /// Which USART instance this value stands for.
    spec fn spec_inst(&self) -> crate::location::UsartId;

    /// Configures the USART against the register model `regs` (clock,
    /// frame, baud rate, pin routing), enables transmitter and
    /// receiver, and returns the serial interface. The pins must have
    /// entries in this instance's TX and RX location tables; their
    /// codes end up in ROUTELOC0.
    fn split(
        self,
        tx: Pin<Output>,
        rx: Pin<Input>,
        config: &Config,
        cmu: &mut Cmu,
        regs: &mut UsartRegisters,
    ) -> (r: Serial<I>)
        requires
            spec_usart_tx_location(self.spec_inst(), tx.pin_id()) is Some,
            spec_usart_rx_location(self.spec_inst(), rx.pin_id()) is Some,
            usart_config_allowed(*old(cmu), config.baudrate),
        ensures
            usart_setup_effect(
                *old(regs),
                *final(regs),
                self.spec_inst(),
                tx.pin_id(),
                rx.pin_id(),
                config.parity,
                config.stop_bits,
                spec_usart_clkdiv(old(cmu).spec_hfperclk(), config.baudrate),
            ),
            final(regs).cmd == CMD_RXEN | CMD_TXEN,
            final(cmu).regs.hfperclken0 == old(cmu).regs.hfperclken0 | self.hfper_mask(),
            final(cmu).regs.hfbusclken0 == old(cmu).regs.hfbusclken0 | self.hfbus_mask(),
            final(cmu).regs.lfaclken0 == old(cmu).regs.lfaclken0 | self.lfa_mask(),
            final(cmu).regs.lfbclken0 == old(cmu).regs.lfbclken0 | self.lfb_mask(),
            final(cmu).regs.lfeclken0 == old(cmu).regs.lfeclken0 | self.lfe_mask(),
            final(cmu).regs.hfcorepresc == old(cmu).regs.hfcorepresc,
            final(cmu).regs.hfperpresc == old(cmu).regs.hfperpresc,
            final(cmu).hfclk == old(cmu).hfclk,
    ;
}

/// Serial interface for a USART instance.
pub struct Serial<I: Instance>(I);

impl<I: Instance> UsartExt<I> for I {
    open spec fn spec_inst(&self) -> crate::location::UsartId {
        self.spec_id()
    }

    fn split(
        self,
        tx: Pin<Output>,
        rx: Pin<Input>,
        config: &Config,
        cmu: &mut Cmu,
        regs: &mut UsartRegisters,
    ) -> (r: Serial<I>) {
        cmu.enable_clock(&self);

        regs.frame = (regs.frame & !(0x3u32 << 8) & !(0x3u32 << 12)) | (parity_bits(config.parity) << 8) | (stopbits_bits(config.stop_bits) << 12);

        let ovs: u32 = 16;
        let per = cmu.hfperclk();
        proof {
            lemma_div_nonincreasing(old(cmu).hfclk as int, old(cmu).regs.hfperpresc + 1);
            let b16 = 16 * config.baudrate as int;
            lemma_div_is_ordered(32 * b16, 32 * per as int, b16);
            lemma_div_multiples_vanish(32, b16);
        }
        let clkdiv = 32 * per / (ovs * config.baudrate) - 32;
        regs.clkdiv = (regs.clkdiv & !(0xFFFFFu32 << 3)) | ((clkdiv & 0xFFFFF) << 3);

        // Route the peripheral to the pins.
        let txloc = match TxPin::location(self.id(), tx.id()) {
            Some(l) => l,
            None => 0,
        };
        let rxloc = match RxPin::location(self.id(), rx.id()) {
            Some(l) => l,
            None => 0,
        };
        regs.routeloc0 = (rxloc as u32) | ((txloc as u32) << 8);
        regs.routepen = ROUTEPEN_RXPEN | ROUTEPEN_TXPEN;

        regs.cmd = CMD_RXEN | CMD_TXEN;

        Serial(self)
    }
}

impl<I: Instance> Serial<I> {
    /// Reads a received character, exposing the RXDATAX status bits
    /// faithfully: no valid data asks the caller to retry, a framing
    /// error and a parity error are reported in that order, else the
    /// received byte is returned. The model registers are not changed.
    pub fn read(&mut self, regs: &UsartRegisters) -> (r: Result<u8, NbError<Error>>)
        ensures
            r == (if !regs.rxdatav() {
                Err::<u8, NbError<Error>>(NbError::WouldBlock)
            } else if regs.ferr() {
                Err::<u8, NbError<Error>>(NbError::Other(Error::Framing))
            } else if regs.perr() {
                Err::<u8, NbError<Error>>(NbError::Other(Error::Parity))
            } else {
                Ok::<u8, NbError<Error>>(regs.rx_byte())
            }),
    {
        if !test_bit(regs.status, STATUS_RXDATAV) {
            return Err(NbError::WouldBlock);
        }

        let rxdatax = regs.rxdatax;
        if test_bit(rxdatax, RXDATAX_FERR) {
            return Err(NbError::Other(Error::Framing));
        }
        if test_bit(rxdatax, RXDATAX_PERR) {
            return Err(NbError::Other(Error::Parity));
        }

        Ok((rxdatax & 0x1FF) as u8)
    }

    /// Hands `word` to the transmitter if the transmit buffer has room,
    /// else asks the caller to retry. The decision is the TXBL status
    /// bit; on success exactly the transmit data register changes.
    pub fn write(&mut self, word: u8, regs: &mut UsartRegisters) -> (r: Result<
        (),
        NbError<Error>,
    >)
        ensures
            r is Ok <==> old(regs).txbl(),
            old(regs).txbl() ==> *final(regs) == (UsartRegisters {
                txdata: word as u32,
                ..*old(regs)
            }),
            !old(regs).txbl() ==> *final(regs) == *old(regs) && r == Err::<(), NbError<Error>>(
                NbError::WouldBlock,
            ),
    {
        if test_bit(regs.status, STATUS_TXBL) {
            regs.txdata = word as u32;
            Ok(())
        } else {
            Err(NbError::WouldBlock)
        }
    }

    /// Reports whether the transmitter has drained: `Ok` once the
    /// TXIDLE status bit is set, else a request to retry. No register
    /// is written.
    pub fn flush(&mut self, regs: &UsartRegisters) -> (r: Result<(), NbError<Error>>)
        ensures
            r is Ok <==> regs.txidle(),
            r is Err ==> r == Err::<(), NbError<Error>>(NbError::WouldBlock),
    {
        if test_bit(regs.status, STATUS_TXIDLE) {
            Ok(())
        } else {
            Err(NbError::WouldBlock)
        }
    }
}

} // verus!
