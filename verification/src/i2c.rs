//! I2C API.
//!
//! [`I2c::new`] configures an I2C instance for 100 kHz standard mode
//! against the register model: clock gating, clock divider, controller
//! enable, a recovery abort when the bus reports busy after reset, and
//! pin routing through the location capability tables. The byte-transfer
//! protocol itself polls hardware interrupt flags that only a real bus
//! raises; its per-event decisions ([`I2c::wait_for_ack`],
//! [`ack_poll_decision`]) are verified here, while the busy-wait loops
//! around them belong to the embedding.

use vstd::prelude::*;

use crate::bits::test_bit;
use crate::cmu::{ClockControlExt, Cmu, HFPERCLKEN0_I2C0, HFPERCLKEN0_I2C1};
use crate::gpio::{Output, Pin};
use crate::location::{spec_i2c_scl_location, spec_i2c_sda_location, I2cId, SclPin, SdaPin};
use vstd::arithmetic::div_mod::{lemma_div_is_ordered, lemma_div_multiples_vanish,
    lemma_div_nonincreasing};

verus! {

/// START command bit mask of CMD.
pub const CMD_START: u32 = 0x1;

/// STOP command bit mask of CMD.
pub const CMD_STOP: u32 = 0x2;

/// ACK command bit mask of CMD.
pub const CMD_ACK: u32 = 0x4;

/// NACK command bit mask of CMD.
pub const CMD_NACK: u32 = 0x8;

/// ABORT command bit mask of CMD.
pub const CMD_ABORT: u32 = 0x20;

/// CLEARTX command bit mask of CMD.
pub const CMD_CLEARTX: u32 = 0x40;

/// CLEARPC command bit mask of CMD.
pub const CMD_CLEARPC: u32 = 0x80;

/// EN bit mask of CTRL.
pub const CTRL_EN: u32 = 0x1;

/// BUSY bit of STATE.
pub const STATE_BUSY: u32 = 0;

/// RXDATAV bit of IF: a received byte is waiting.
pub const IF_RXDATAV: u32 = 5;

/// ACK bit of IF: the addressed device acknowledged.
pub const IF_ACK: u32 = 6;

/// NACK bit of IF: the addressed device did not acknowledge.
pub const IF_NACK: u32 = 7;

/// SDA pin enable bit mask of ROUTEPEN.
pub const ROUTEPEN_SDAPEN: u32 = 0x1;

/// SCL pin enable bit mask of ROUTEPEN.
pub const ROUTEPEN_SCLPEN: u32 = 0x2;

/// Model of one I2C instance's register block.
#[derive(Clone, Copy, PartialEq, Eq, Structural, Debug)]
pub struct I2cRegisters {
    /// Control register; EN in bit 0.
    pub ctrl: u32,
    /// Command register, modelled by its last written value.
    pub cmd: u32,
    /// Bus state register, read-only; BUSY in bit 0.
    pub state: u32,
    /// Clock divider; the DIV field sits in bits 0:8.
    pub clkdiv: u32,
    /// Pin routing enables: SDAPEN bit 0, SCLPEN bit 1.
    pub routepen: u32,
    /// Pin routing: SDALOC in bits 0:5, SCLLOC in bits 8:13.
    pub routeloc0: u32,
    /// Interrupt flags; writes of the interrupt-flag-clear register are
    /// modelled by their effect here.
    pub if_: u32,
    /// Transmit data register.
    pub txdata: u32,
    /// Receive data register, read-only.
    pub rxdata: u32,
}

impl I2cRegisters {
    /// All registers at their reset value, except the BUSY flag, which
    /// the hardware may raise after a system reset.
    pub fn new() -> (r: I2cRegisters)
        ensures
            r == (I2cRegisters {
                ctrl: 0,
                cmd: 0,
                state: 0,
                clkdiv: 0,
                routepen: 0,
                routeloc0: 0,
                if_: 0,
                txdata: 0,
                rxdata: 0,
            }),
    {
        I2cRegisters {
            ctrl: 0,
            cmd: 0,
            state: 0,
            clkdiv: 0,
            routepen: 0,
            routeloc0: 0,
            if_: 0,
            txdata: 0,
            rxdata: 0,
        }
    }

    /// The bus reports busy.
    pub open spec fn busy(self) -> bool {
        crate::bits::bit_of(self.state, STATE_BUSY)
    }

    /// The addressed device acknowledged.
    pub open spec fn if_ack(self) -> bool {
        crate::bits::bit_of(self.if_, IF_ACK)
    }

    /// The addressed device did not acknowledge.
    pub open spec fn if_nack(self) -> bool {
        crate::bits::bit_of(self.if_, IF_NACK)
    }
}

/// I2C transfer error.
#[derive(Clone, Copy, PartialEq, Eq, Structural, Debug)]
pub enum Error {
    /// The addressed device did not acknowledge an address or data
    /// byte.
    Nack,
    /// The requested transfer is not expressible on the bus (a zero
    /// length read: a read can only be ended by not acknowledging a
    /// received byte, so at least one byte must be read).
    InvalidConfiguration,
}

/// What the acknowledge interrupt flags say at one poll of an awaited
/// acknowledge bit.
#[derive(Clone, Copy, PartialEq, Eq, Structural, Debug)]
pub enum AckPoll {
    /// Neither flag is up yet; poll again.
    Pending,
    /// The device acknowledged.
    Acked,
    /// The device did not acknowledge.
    Nacked,
}

/// The acknowledge decision of the transfer protocol: a raised NACK
/// flag wins over a raised ACK flag, and with neither the poll
/// continues.
pub open spec fn spec_ack_poll(ack: bool, nack: bool) -> AckPoll {
    if nack {
        AckPoll::Nacked
    } else if ack {
        AckPoll::Acked
    } else {
        AckPoll::Pending
    }
}

/// Decides, from one read of the ACK and NACK interrupt flags, how an
/// awaited acknowledge came out. The polling loop around it performs
/// hardware waits and belongs to the embedding.
pub fn ack_poll_decision(ack: bool, nack: bool) -> (r: AckPoll)
    ensures
        r == spec_ack_poll(ack, nack),
{
    if nack {
        AckPoll::Nacked
    } else if ack {
        AckPoll::Acked
    } else {
        AckPoll::Pending
    }
}

/// The clock divider for 100 kHz standard mode: 8 clock units of
/// overhead per bit and 4+4 low/high phase units.
pub open spec fn spec_i2c_clkdiv(per: u32) -> int {
    (per as int - 8 * 100_000) / ((4 + 4) * 100_000int) - 1
}

/// The zero-length guard of the read transfer: the I2C bus cannot
/// express a read of no bytes, since a read can only be ended by not
/// acknowledging a received byte. The transfer loops poll hardware and
/// belong to the embedding; they reject such a request with this check
/// before any register write.
pub fn read_length_check(len: usize) -> (r: Result<(), Error>)
    ensures
        r is Ok <==> len > 0,
        r is Err ==> r == Err::<(), Error>(Error::InvalidConfiguration),
{
    if len == 0 {
        Err(Error::InvalidConfiguration)
    } else {
        Ok(())
    }
}

/// Internal trait used to implement the I2C API for the I2C instances.
/// The spec method ties each instance type to its row of the location
/// capability tables.
pub trait I2CX: ClockControlExt {
    /// Which I2C instance this type stands for.
    spec fn spec_id(&self) -> I2cId;

    /// Which I2C instance this value stands for.
    fn id(&self) -> (r: I2cId)
        ensures
            r == self.spec_id(),
    ;
}

/// I2C instance 0.
pub struct I2c0;

/// I2C instance 1.
pub struct I2c1;

/// I2C API.
pub struct I2c<I> {
    raw: I,
}

impl<I: I2CX> I2c<I> {
    /// The instance token this handle owns.
    pub closed spec fn spec_raw(&self) -> I {
        self.raw
    }

    /// Configures the I2C controller `i2c` against the register model
    /// `regs` for 100 kHz standard mode: enables its clock, programs
    /// the divider, enables the controller, clears a stale busy
    /// condition with an abort, clears pending commands and the
    /// transmit buffer, and routes the peripheral to the two pins. The
    /// pins must have entries in the instance's SCL and SDA location
    /// tables; their codes end up in ROUTELOC0.
    pub fn new(
        i2c: I,
        scl: Pin<Output>,
        sda: Pin<Output>,
        cmu: &mut Cmu,
        regs: &mut I2cRegisters,
    ) -> (r: I2c<I>)
        requires
            spec_i2c_scl_location(i2c.spec_id(), scl.pin_id()) is Some,
            spec_i2c_sda_location(i2c.spec_id(), sda.pin_id()) is Some,
            old(cmu).regs.hfperpresc < 0xFFFF_FFFF,
            old(cmu).hfclk <= 19_000_000,
            old(cmu).spec_hfperclk() >= 2_000_000,
        ensures
            r.spec_raw() == i2c,
            final(regs).clkdiv == (old(regs).clkdiv & !0x1FFu32) | ((spec_i2c_clkdiv(
                old(cmu).spec_hfperclk(),
            ) as u32) & 0x1FF),
            final(regs).ctrl == CTRL_EN,
            final(regs).cmd == CMD_CLEARPC | CMD_CLEARTX,
            final(regs).routeloc0 == (match spec_i2c_sda_location(i2c.spec_id(), sda.pin_id()) {
                Some(l) => l as u32,
                None => 0,
            }) | ((match spec_i2c_scl_location(i2c.spec_id(), scl.pin_id()) {
                Some(l) => l as u32,
                None => 0,
            }) << 8),
            final(regs).routepen == ROUTEPEN_SDAPEN | ROUTEPEN_SCLPEN,
            final(regs).state == old(regs).state,
            final(regs).if_ == old(regs).if_,
            final(regs).txdata == old(regs).txdata,
            final(regs).rxdata == old(regs).rxdata,
            spec_i2c_clkdiv(old(cmu).spec_hfperclk()) < 512,
            final(cmu).regs.hfbusclken0 == old(cmu).regs.hfbusclken0 | i2c.hfbus_mask(),
            final(cmu).regs.hfperclken0 == old(cmu).regs.hfperclken0 | i2c.hfper_mask(),
            final(cmu).regs.lfaclken0 == old(cmu).regs.lfaclken0 | i2c.lfa_mask(),
            final(cmu).regs.lfbclken0 == old(cmu).regs.lfbclken0 | i2c.lfb_mask(),
            final(cmu).regs.lfeclken0 == old(cmu).regs.lfeclken0 | i2c.lfe_mask(),
            final(cmu).regs.hfcorepresc == old(cmu).regs.hfcorepresc,
            final(cmu).regs.hfperpresc == old(cmu).regs.hfperpresc,
            final(cmu).hfclk == old(cmu).hfclk,
    {
        cmu.enable_clock(&i2c);

        let hfperclk = cmu.hfperclk();

        // Configure I2C standard mode.
        let freq_scl: u32 = 100_000;
        let n_high: u32 = 4;
        let n_low: u32 = 4;
        proof {
            lemma_div_nonincreasing(old(cmu).hfclk as int, old(cmu).regs.hfperpresc + 1);
            lemma_div_is_ordered(800_000, hfperclk - 800_000, 800_000);
            lemma_div_multiples_vanish(1, 800_000);
            lemma_div_is_ordered(hfperclk - 800_000, 18_200_000, 800_000);
        }
        let div = (hfperclk - 8 * freq_scl) / ((n_high + n_low) * freq_scl) - 1;
        assert(div < 512);

        regs.clkdiv = (regs.clkdiv & !0x1FFu32) | (div & 0x1FF);

        regs.ctrl = CTRL_EN;

        // The busy flag is set after reset; use the ABORT command to
        // clear it.
        if test_bit(regs.state, STATE_BUSY) {
            regs.cmd = CMD_ABORT;
        }

        // Clear pending commands and the TX buffer.
        regs.cmd = CMD_CLEARPC | CMD_CLEARTX;

        // Route the peripheral to the pins.
        let sclloc = match SclPin::location(i2c.id(), scl.id()) {
            Some(l) => l,
            None => 0,
        };
        let sdaloc = match SdaPin::location(i2c.id(), sda.id()) {
            Some(l) => l,
            None => 0,
        };
        regs.routeloc0 = (sdaloc as u32) | ((sclloc as u32) << 8);
        regs.routepen = ROUTEPEN_SDAPEN | ROUTEPEN_SCLPEN;

        I2c { raw: i2c }
    }

    /// Settles an awaited acknowledge once one of the two flags is up:
    /// a NACK clears its flag, issues a STOP and reports the error; an
    /// ACK clears its flag and succeeds. The NACK flag wins when both
    /// are up. On hardware the flags rise asynchronously; the busy-wait
    /// until one is up is the embedding's loop, so a flag is required
    /// here.
    pub fn wait_for_ack(&mut self, regs: &mut I2cRegisters) -> (r: Result<(), Error>)
        requires
            old(regs).if_ack() || old(regs).if_nack(),
        ensures
            r is Err <==> old(regs).if_nack(),
            old(regs).if_nack() ==> {
                &&& r == Err::<(), Error>(Error::Nack)
                &&& final(regs).if_ == old(regs).if_ & !(1u32 << IF_NACK)
                &&& final(regs).cmd == CMD_STOP
            },
            !old(regs).if_nack() ==> {
                &&& r == Ok::<(), Error>(())
                &&& final(regs).if_ == old(regs).if_ & !(1u32 << IF_ACK)
                &&& final(regs).cmd == old(regs).cmd
            },
            final(regs).ctrl == old(regs).ctrl,
            final(regs).state == old(regs).state,
            final(regs).clkdiv == old(regs).clkdiv,
            final(regs).routepen == old(regs).routepen,
            final(regs).routeloc0 == old(regs).routeloc0,
            final(regs).txdata == old(regs).txdata,
            final(regs).rxdata == old(regs).rxdata,
    {
        if test_bit(regs.if_, IF_NACK) {
            regs.if_ = regs.if_ & !(1u32 << IF_NACK);
            regs.cmd = CMD_STOP;
            Err(Error::Nack)
        } else {
            regs.if_ = regs.if_ & !(1u32 << IF_ACK);
            Ok(())
        }
    }

    /// Returns the raw interface to the underlying peripheral.
    pub fn release(self) -> (r: I)
        ensures
            r == self.spec_raw(),
    {
        self.raw
    }
}

impl ClockControlExt for I2c0 {
    open spec fn hfbus_mask(&self) -> u32 {
        0
    }

    open spec fn hfper_mask(&self) -> u32 {
        HFPERCLKEN0_I2C0
    }

    open spec fn lfa_mask(&self) -> u32 {
        0
    }

    open spec fn lfb_mask(&self) -> u32 {
        0
    }

    open spec fn lfe_mask(&self) -> u32 {
        0
    }

    fn enable_clock(&self, clocks: &mut Cmu) {
        clocks.regs.hfperclken0 = clocks.regs.hfperclken0 | HFPERCLKEN0_I2C0;
        proof {
            crate::cmu::lemma_or_zero(clocks.regs.hfbusclken0);
            crate::cmu::lemma_or_zero(clocks.regs.lfaclken0);
            crate::cmu::lemma_or_zero(clocks.regs.lfbclken0);
            crate::cmu::lemma_or_zero(clocks.regs.lfeclken0);
        }
    }
}

impl I2CX for I2c0 {
    open spec fn spec_id(&self) -> I2cId {
        I2cId::I2c0
    }

    fn id(&self) -> I2cId {
        I2cId::I2c0
    }
}

impl ClockControlExt for I2c1 {
    open spec fn hfbus_mask(&self) -> u32 {
        0
    }

    open spec fn hfper_mask(&self) -> u32 {
        HFPERCLKEN0_I2C1
    }

    open spec fn lfa_mask(&self) -> u32 {
        0
    }

    open spec fn lfb_mask(&self) -> u32 {
        0
    }

    open spec fn lfe_mask(&self) -> u32 {
        0
    }

    fn enable_clock(&self, clocks: &mut Cmu) {
        clocks.regs.hfperclken0 = clocks.regs.hfperclken0 | HFPERCLKEN0_I2C1;
        proof {
            crate::cmu::lemma_or_zero(clocks.regs.hfbusclken0);
            crate::cmu::lemma_or_zero(clocks.regs.lfaclken0);
            crate::cmu::lemma_or_zero(clocks.regs.lfbclken0);
            crate::cmu::lemma_or_zero(clocks.regs.lfeclken0);
        }
    }
}

impl I2CX for I2c1 {
    open spec fn spec_id(&self) -> I2cId {
        I2cId::I2c1
    }

    fn id(&self) -> I2cId {
        I2cId::I2c1
    }
}

} // verus!
