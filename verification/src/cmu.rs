//! Clock management unit (CMU).
//!
//! The CMU gates the bus clock of every peripheral: a peripheral's
//! registers are functional only once its clock-enable bit is set. Most
//! peripherals need a single bit in a high-frequency enable register; the
//! low-energy peripherals additionally need the LE interface clock in
//! HFBUSCLKEN0; the capacitive-sense peripheral needs one high-frequency
//! and one low-frequency bit, both unconditionally. The
//! [`ClockControlExt`] trait captures, per peripheral type, exactly which
//! bits its `enable_clock` sets.

use vstd::prelude::*;

verus! {

/// Model of the CMU registers this layer touches.
#[derive(Clone, Copy, PartialEq, Eq, Structural, Debug)]
pub struct CmuRegisters {
    /// High-frequency bus clock enables (CRYPTO0/1, LE, GPIO, PRS, LDMA, GPCRC).
    pub hfbusclken0: u32,
    /// High-frequency peripheral clock enables (timers, USARTs, I2Cs, ...).
    pub hfperclken0: u32,
    /// Low-frequency A clock enables (LETIMER0, LESENSE).
    pub lfaclken0: u32,
    /// Low-frequency B clock enables (SYSTICK, LEUART0, CSEN).
    pub lfbclken0: u32,
    /// Low-frequency E clock enables (RTCC).
    pub lfeclken0: u32,
    /// HFCORECLK prescaler register.
    pub hfcorepresc: u32,
    /// HFPERCLK prescaler register.
    pub hfperpresc: u32,
}

impl CmuRegisters {
    /// All registers at their reset value.
    pub fn new() -> (r: CmuRegisters)
        ensures
            r == (CmuRegisters {
                hfbusclken0: 0,
                hfperclken0: 0,
                lfaclken0: 0,
                lfbclken0: 0,
                lfeclken0: 0,
                hfcorepresc: 0,
                hfperpresc: 0,
            }),
    {
        CmuRegisters {
            hfbusclken0: 0,
            hfperclken0: 0,
            lfaclken0: 0,
            lfbclken0: 0,
            lfeclken0: 0,
            hfcorepresc: 0,
            hfperpresc: 0,
        }
    }
}

// Bit masks of HFBUSCLKEN0.
pub const HFBUSCLKEN0_CRYPTO0: u32 = 0x1;
pub const HFBUSCLKEN0_CRYPTO1: u32 = 0x2;
pub const HFBUSCLKEN0_LE: u32 = 0x4;
pub const HFBUSCLKEN0_GPIO: u32 = 0x8;
pub const HFBUSCLKEN0_PRS: u32 = 0x10;
pub const HFBUSCLKEN0_LDMA: u32 = 0x20;
pub const HFBUSCLKEN0_GPCRC: u32 = 0x40;

// Bit masks of HFPERCLKEN0.
pub const HFPERCLKEN0_TIMER0: u32 = 0x1;
pub const HFPERCLKEN0_TIMER1: u32 = 0x2;
pub const HFPERCLKEN0_WTIMER0: u32 = 0x4;
pub const HFPERCLKEN0_WTIMER1: u32 = 0x8;
pub const HFPERCLKEN0_USART0: u32 = 0x10;
pub const HFPERCLKEN0_USART1: u32 = 0x20;
pub const HFPERCLKEN0_USART2: u32 = 0x40;
pub const HFPERCLKEN0_USART3: u32 = 0x80;
pub const HFPERCLKEN0_I2C0: u32 = 0x100;
pub const HFPERCLKEN0_I2C1: u32 = 0x200;
pub const HFPERCLKEN0_ACMP0: u32 = 0x400;
pub const HFPERCLKEN0_ACMP1: u32 = 0x800;
pub const HFPERCLKEN0_CRYOTIMER: u32 = 0x1000;
pub const HFPERCLKEN0_ADC0: u32 = 0x2000;
pub const HFPERCLKEN0_IDAC0: u32 = 0x4000;
pub const HFPERCLKEN0_VDAC0: u32 = 0x8000;
pub const HFPERCLKEN0_CSEN: u32 = 0x10000;
pub const HFPERCLKEN0_TRNG0: u32 = 0x20000;

// Bit masks of LFACLKEN0.
pub const LFACLKEN0_LETIMER0: u32 = 0x1;
pub const LFACLKEN0_LESENSE: u32 = 0x2;

// Bit masks of LFBCLKEN0.
pub const LFBCLKEN0_SYSTICK: u32 = 0x1;
pub const LFBCLKEN0_LEUART0: u32 = 0x2;
pub const LFBCLKEN0_CSEN: u32 = 0x4;

// Bit masks of LFECLKEN0.
pub const LFECLKEN0_RTCC: u32 = 0x1;

/// Handle for the clock management unit. Exclusively owned; every
/// clock-gating operation takes it by mutable reference, so only one
/// logical agent configures clocks at a time.
pub struct Cmu {
    /// The modelled CMU register block.
    pub regs: CmuRegisters,
    /// The high-frequency clock the chip currently runs on, in Hz.
    pub hfclk: u32,
}

/// Exactly the clock-enable bits of `p` were ored into the enable
/// registers between `prior` and `post`; everything else, the prescalers
/// and the clock frequency included, is unchanged.
pub open spec fn clock_enable_effect<P: ClockControlExt + ?Sized>(
    p: &P,
    prior: Cmu,
    post: Cmu,
) -> bool {
    &&& post.regs.hfbusclken0 == prior.regs.hfbusclken0 | p.hfbus_mask()
    &&& post.regs.hfperclken0 == prior.regs.hfperclken0 | p.hfper_mask()
    &&& post.regs.lfaclken0 == prior.regs.lfaclken0 | p.lfa_mask()
    &&& post.regs.lfbclken0 == prior.regs.lfbclken0 | p.lfb_mask()
    &&& post.regs.lfeclken0 == prior.regs.lfeclken0 | p.lfe_mask()
    &&& post.regs.hfcorepresc == prior.regs.hfcorepresc
    &&& post.regs.hfperpresc == prior.regs.hfperpresc
    &&& post.hfclk == prior.hfclk
}

/// Implemented by every peripheral type that can have its clock gated.
/// The five mask functions say which enable bits the peripheral needs in
/// each enable register; `enable_clock` sets exactly those.
pub trait ClockControlExt {
    /// Bits needed in HFBUSCLKEN0, the LE interface bit included for
    /// low-energy peripherals.
    spec fn hfbus_mask(&self) -> u32;

    /// Bits needed in HFPERCLKEN0.
    spec fn hfper_mask(&self) -> u32;

    /// Bits needed in LFACLKEN0.
    spec fn lfa_mask(&self) -> u32;

    /// Bits needed in LFBCLKEN0.
    spec fn lfb_mask(&self) -> u32;

    /// Bits needed in LFECLKEN0.
    spec fn lfe_mask(&self) -> u32;

    /// Sets every clock-enable bit this peripheral needs and touches
    /// nothing else.
    fn enable_clock(&self, clocks: &mut Cmu)
        ensures
            final(clocks).regs.hfbusclken0 == old(clocks).regs.hfbusclken0 | self.hfbus_mask(),
            final(clocks).regs.hfperclken0 == old(clocks).regs.hfperclken0 | self.hfper_mask(),
            final(clocks).regs.lfaclken0 == old(clocks).regs.lfaclken0 | self.lfa_mask(),
            final(clocks).regs.lfbclken0 == old(clocks).regs.lfbclken0 | self.lfb_mask(),
            final(clocks).regs.lfeclken0 == old(clocks).regs.lfeclken0 | self.lfe_mask(),
            final(clocks).regs.hfcorepresc == old(clocks).regs.hfcorepresc,
            final(clocks).regs.hfperpresc == old(clocks).regs.hfperpresc,
            final(clocks).hfclk == old(clocks).hfclk,
    ;
}

impl Cmu {
    /// The high-frequency peripheral clock in Hz: HFCLK divided by the
    /// peripheral prescaler register value plus one.
    pub open spec fn spec_hfperclk(&self) -> u32 {
        self.hfclk / ((self.regs.hfperpresc + 1) as u32)
    }

    /// Creates the handle for the clock management unit. The chip boots
    /// on the 19 MHz internal RC oscillator.
    pub fn new(cmu: CmuRegisters) -> (r: Cmu)
        ensures
            r.regs == cmu,
            r.hfclk == 19_000_000,
    {
        Cmu { regs: cmu, hfclk: 19_000_000 }
    }

    /// The clock that drives the core modules (CPU, cache): HFCLK divided
    /// by the core prescaler register value plus one.
    pub fn hfcoreclk(&self) -> (r: u32)
        requires
            self.regs.hfcorepresc < 0xFFFF_FFFF,
        ensures
            r == self.hfclk / ((self.regs.hfcorepresc + 1) as u32),
    {
        self.hfclk / (self.regs.hfcorepresc + 1)
    }

    /// The clock that drives the bus and memory system.
    pub fn hfbusclk(&self) -> (r: u32)
        ensures
            r == self.hfclk,
    {
        self.hfclk
    }

    /// The clock that drives the high-frequency peripherals: HFCLK
    /// divided by the peripheral prescaler register value plus one.
    pub fn hfperclk(&self) -> (r: u32)
        requires
            self.regs.hfperpresc < 0xFFFF_FFFF,
        ensures
            r == self.hfclk / ((self.regs.hfperpresc + 1) as u32),
    {
        self.hfclk / (self.regs.hfperpresc + 1)
    }

    /// Enables all clocks required to use `peripheral`.
    pub fn enable_clock<P: ClockControlExt>(&mut self, peripheral: &P)
        ensures
            clock_enable_effect(peripheral, *old(self), *final(self)),
    {
        peripheral.enable_clock(self);
    }

    /// Returns the raw interface to the underlying register block.
    pub fn release(self) -> (r: CmuRegisters)
        ensures
            r == self.regs,
    {
        self.regs
    }
}

/// Oring zero into a register leaves it unchanged; used by peripherals
/// that need no bit in a given enable register.
pub(crate) proof fn lemma_or_zero(v: u32)
    ensures
        v | 0 == v,
{
    assert(v | 0 == v) by (bit_vector);
}

/// The advanced encryption accelerator 0.
pub struct Crypto0;

/// The advanced encryption accelerator 1.
pub struct Crypto1;

/// The peripheral reflex system.
pub struct Prs;

/// The linked DMA controller.
pub struct Ldma;

/// The general purpose CRC unit.
pub struct Gpcrc;

/// Timer 0.
pub struct Timer0;

/// Timer 1.
pub struct Timer1;

/// Wide timer 0.
pub struct Wtimer0;

/// Wide timer 1.
pub struct Wtimer1;

/// Analog comparator 0.
pub struct Acmp0;

/// Analog comparator 1.
pub struct Acmp1;

/// The cryotimer.
pub struct Cryotimer;

/// Analog-to-digital converter 0.
pub struct Adc0;

/// Current DAC 0.
pub struct Idac0;

/// Voltage DAC 0.
pub struct Vdac0;

/// True random number generator 0.
pub struct Trng0;

/// Low-energy timer 0.
pub struct Letimer0;

/// The low-energy sensor interface.
pub struct Lesense;

/// The SysTick timer of the core.
pub struct Syst;

/// Low-energy UART 0.
pub struct Leuart0;

/// The real-time counter and calendar.
pub struct Rtcc;

/// The capacitive-sense peripheral. Special: it sits in both the
/// high-frequency and the low-frequency clock domain and needs one enable
/// bit in each, both unconditionally, every time.
pub struct Csen;

impl ClockControlExt for Crypto0 {
    open spec fn hfbus_mask(&self) -> u32 {
        HFBUSCLKEN0_CRYPTO0
    }

    open spec fn hfper_mask(&self) -> u32 {
        0
    }

    open spec fn lfa_mask(&self) -> u32 {
        0
    }

    open spec fn lfb_mask(&self) -> u32 {
        0
    }

    open spec fn lfe_mask(&self) -> u32 {
        0
    }

    fn enable_clock(&self, clocks: &mut Cmu) {
        clocks.regs.hfbusclken0 = clocks.regs.hfbusclken0 | HFBUSCLKEN0_CRYPTO0;
        proof {
            lemma_or_zero(clocks.regs.hfperclken0);
            lemma_or_zero(clocks.regs.lfaclken0);
            lemma_or_zero(clocks.regs.lfbclken0);
            lemma_or_zero(clocks.regs.lfeclken0);
        }
    }
}

impl ClockControlExt for Crypto1 {
    open spec fn hfbus_mask(&self) -> u32 {
        HFBUSCLKEN0_CRYPTO1
    }

    open spec fn hfper_mask(&self) -> u32 {
        0
    }

    open spec fn lfa_mask(&self) -> u32 {
        0
    }

    open spec fn lfb_mask(&self) -> u32 {
        0
    }

    open spec fn lfe_mask(&self) -> u32 {
        0
    }

    fn enable_clock(&self, clocks: &mut Cmu) {
        clocks.regs.hfbusclken0 = clocks.regs.hfbusclken0 | HFBUSCLKEN0_CRYPTO1;
        proof {
            lemma_or_zero(clocks.regs.hfperclken0);
            lemma_or_zero(clocks.regs.lfaclken0);
            lemma_or_zero(clocks.regs.lfbclken0);
            lemma_or_zero(clocks.regs.lfeclken0);
        }
    }
}

impl ClockControlExt for Prs {
    open spec fn hfbus_mask(&self) -> u32 {
        HFBUSCLKEN0_PRS
    }

    open spec fn hfper_mask(&self) -> u32 {
        0
    }

    open spec fn lfa_mask(&self) -> u32 {
        0
    }

    open spec fn lfb_mask(&self) -> u32 {
        0
    }

    open spec fn lfe_mask(&self) -> u32 {
        0
    }

    fn enable_clock(&self, clocks: &mut Cmu) {
        clocks.regs.hfbusclken0 = clocks.regs.hfbusclken0 | HFBUSCLKEN0_PRS;
        proof {
            lemma_or_zero(clocks.regs.hfperclken0);
            lemma_or_zero(clocks.regs.lfaclken0);
            lemma_or_zero(clocks.regs.lfbclken0);
            lemma_or_zero(clocks.regs.lfeclken0);
        }
    }
}

impl ClockControlExt for Ldma {
    open spec fn hfbus_mask(&self) -> u32 {
        HFBUSCLKEN0_LDMA
    }

    open spec fn hfper_mask(&self) -> u32 {
        0
    }

    open spec fn lfa_mask(&self) -> u32 {
        0
    }

    open spec fn lfb_mask(&self) -> u32 {
        0
    }

    open spec fn lfe_mask(&self) -> u32 {
        0
    }

    fn enable_clock(&self, clocks: &mut Cmu) {
        clocks.regs.hfbusclken0 = clocks.regs.hfbusclken0 | HFBUSCLKEN0_LDMA;
        proof {
            lemma_or_zero(clocks.regs.hfperclken0);
            lemma_or_zero(clocks.regs.lfaclken0);
            lemma_or_zero(clocks.regs.lfbclken0);
            lemma_or_zero(clocks.regs.lfeclken0);
        }
    }
}

impl ClockControlExt for Gpcrc {
    open spec fn hfbus_mask(&self) -> u32 {
        HFBUSCLKEN0_GPCRC
    }

    open spec fn hfper_mask(&self) -> u32 {
        0
    }

    open spec fn lfa_mask(&self) -> u32 {
        0
    }

    open spec fn lfb_mask(&self) -> u32 {
        0
    }

    open spec fn lfe_mask(&self) -> u32 {
        0
    }

    fn enable_clock(&self, clocks: &mut Cmu) {
        clocks.regs.hfbusclken0 = clocks.regs.hfbusclken0 | HFBUSCLKEN0_GPCRC;
        proof {
            lemma_or_zero(clocks.regs.hfperclken0);
            lemma_or_zero(clocks.regs.lfaclken0);
            lemma_or_zero(clocks.regs.lfbclken0);
            lemma_or_zero(clocks.regs.lfeclken0);
        }
    }
}

impl ClockControlExt for Timer0 {
    open spec fn hfbus_mask(&self) -> u32 {
        0
    }

    open spec fn hfper_mask(&self) -> u32 {
        HFPERCLKEN0_TIMER0
    }

    open spec fn lfa_mask(&self) -> u32 {
        0
    }

    open spec fn lfb_mask(&self) -> u32 {
        0
    }

    open spec fn lfe_mask(&self) -> u32 {
        0
    }

    fn enable_clock(&self, clocks: &mut Cmu) {
        clocks.regs.hfperclken0 = clocks.regs.hfperclken0 | HFPERCLKEN0_TIMER0;
        proof {
            lemma_or_zero(clocks.regs.hfbusclken0);
            lemma_or_zero(clocks.regs.lfaclken0);
            lemma_or_zero(clocks.regs.lfbclken0);
            lemma_or_zero(clocks.regs.lfeclken0);
        }
    }
}

impl ClockControlExt for Timer1 {
    open spec fn hfbus_mask(&self) -> u32 {
        0
    }

    open spec fn hfper_mask(&self) -> u32 {
        HFPERCLKEN0_TIMER1
    }

    open spec fn lfa_mask(&self) -> u32 {
        0
    }

    open spec fn lfb_mask(&self) -> u32 {
        0
    }

    open spec fn lfe_mask(&self) -> u32 {
        0
    }

    fn enable_clock(&self, clocks: &mut Cmu) {
        clocks.regs.hfperclken0 = clocks.regs.hfperclken0 | HFPERCLKEN0_TIMER1;
        proof {
            lemma_or_zero(clocks.regs.hfbusclken0);
            lemma_or_zero(clocks.regs.lfaclken0);
            lemma_or_zero(clocks.regs.lfbclken0);
            lemma_or_zero(clocks.regs.lfeclken0);
        }
    }
}

impl ClockControlExt for Wtimer0 {
    open spec fn hfbus_mask(&self) -> u32 {
        0
    }

    open spec fn hfper_mask(&self) -> u32 {
        HFPERCLKEN0_WTIMER0
    }

    open spec fn lfa_mask(&self) -> u32 {
        0
    }

    open spec fn lfb_mask(&self) -> u32 {
        0
    }

    open spec fn lfe_mask(&self) -> u32 {
        0
    }

    fn enable_clock(&self, clocks: &mut Cmu) {
        clocks.regs.hfperclken0 = clocks.regs.hfperclken0 | HFPERCLKEN0_WTIMER0;
        proof {
            lemma_or_zero(clocks.regs.hfbusclken0);
            lemma_or_zero(clocks.regs.lfaclken0);
            lemma_or_zero(clocks.regs.lfbclken0);
            lemma_or_zero(clocks.regs.lfeclken0);
        }
    }
}

impl ClockControlExt for Wtimer1 {
    open spec fn hfbus_mask(&self) -> u32 {
        0
    }

    open spec fn hfper_mask(&self) -> u32 {
        HFPERCLKEN0_WTIMER1
    }

    open spec fn lfa_mask(&self) -> u32 {
        0
    }

    open spec fn lfb_mask(&self) -> u32 {
        0
    }

    open spec fn lfe_mask(&self) -> u32 {
        0
    }

    fn enable_clock(&self, clocks: &mut Cmu) {
        clocks.regs.hfperclken0 = clocks.regs.hfperclken0 | HFPERCLKEN0_WTIMER1;
        proof {
            lemma_or_zero(clocks.regs.hfbusclken0);
            lemma_or_zero(clocks.regs.lfaclken0);
            lemma_or_zero(clocks.regs.lfbclken0);
            lemma_or_zero(clocks.regs.lfeclken0);
        }
    }
}

impl ClockControlExt for Acmp0 {
    open spec fn hfbus_mask(&self) -> u32 {
        0
    }

    open spec fn hfper_mask(&self) -> u32 {
        HFPERCLKEN0_ACMP0
    }

    open spec fn lfa_mask(&self) -> u32 {
        0
    }

    open spec fn lfb_mask(&self) -> u32 {
        0
    }

    open spec fn lfe_mask(&self) -> u32 {
        0
    }

    fn enable_clock(&self, clocks: &mut Cmu) {
        clocks.regs.hfperclken0 = clocks.regs.hfperclken0 | HFPERCLKEN0_ACMP0;
        proof {
            lemma_or_zero(clocks.regs.hfbusclken0);
            lemma_or_zero(clocks.regs.lfaclken0);
            lemma_or_zero(clocks.regs.lfbclken0);
            lemma_or_zero(clocks.regs.lfeclken0);
        }
    }
}

impl ClockControlExt for Acmp1 {
    open spec fn hfbus_mask(&self) -> u32 {
        0
    }

    open spec fn hfper_mask(&self) -> u32 {
        HFPERCLKEN0_ACMP1
    }

    open spec fn lfa_mask(&self) -> u32 {
        0
    }

    open spec fn lfb_mask(&self) -> u32 {
        0
    }

    open spec fn lfe_mask(&self) -> u32 {
        0
    }

    fn enable_clock(&self, clocks: &mut Cmu) {
        clocks.regs.hfperclken0 = clocks.regs.hfperclken0 | HFPERCLKEN0_ACMP1;
        proof {
            lemma_or_zero(clocks.regs.hfbusclken0);
            lemma_or_zero(clocks.regs.lfaclken0);
            lemma_or_zero(clocks.regs.lfbclken0);
            lemma_or_zero(clocks.regs.lfeclken0);
        }
    }
}

impl ClockControlExt for Cryotimer {
    open spec fn hfbus_mask(&self) -> u32 {
        0
    }

    open spec fn hfper_mask(&self) -> u32 {
        HFPERCLKEN0_CRYOTIMER
    }

    open spec fn lfa_mask(&self) -> u32 {
        0
    }

    open spec fn lfb_mask(&self) -> u32 {
        0
    }

    open spec fn lfe_mask(&self) -> u32 {
        0
    }

    fn enable_clock(&self, clocks: &mut Cmu) {
        clocks.regs.hfperclken0 = clocks.regs.hfperclken0 | HFPERCLKEN0_CRYOTIMER;
        proof {
            lemma_or_zero(clocks.regs.hfbusclken0);
            lemma_or_zero(clocks.regs.lfaclken0);
            lemma_or_zero(clocks.regs.lfbclken0);
            lemma_or_zero(clocks.regs.lfeclken0);
        }
    }
}

impl ClockControlExt for Adc0 {
    open spec fn hfbus_mask(&self) -> u32 {
        0
    }

    open spec fn hfper_mask(&self) -> u32 {
        HFPERCLKEN0_ADC0
    }

    open spec fn lfa_mask(&self) -> u32 {
        0
    }

    open spec fn lfb_mask(&self) -> u32 {
        0
    }

    open spec fn lfe_mask(&self) -> u32 {
        0
    }

    fn enable_clock(&self, clocks: &mut Cmu) {
        clocks.regs.hfperclken0 = clocks.regs.hfperclken0 | HFPERCLKEN0_ADC0;
        proof {
            lemma_or_zero(clocks.regs.hfbusclken0);
            lemma_or_zero(clocks.regs.lfaclken0);
            lemma_or_zero(clocks.regs.lfbclken0);
            lemma_or_zero(clocks.regs.lfeclken0);
        }
    }
}

impl ClockControlExt for Idac0 {
    open spec fn hfbus_mask(&self) -> u32 {
        0
    }

    open spec fn hfper_mask(&self) -> u32 {
        HFPERCLKEN0_IDAC0
    }

    open spec fn lfa_mask(&self) -> u32 {
        0
    }

    open spec fn lfb_mask(&self) -> u32 {
        0
    }

    open spec fn lfe_mask(&self) -> u32 {
        0
    }

    fn enable_clock(&self, clocks: &mut Cmu) {
        clocks.regs.hfperclken0 = clocks.regs.hfperclken0 | HFPERCLKEN0_IDAC0;
        proof {
            lemma_or_zero(clocks.regs.hfbusclken0);
            lemma_or_zero(clocks.regs.lfaclken0);
            lemma_or_zero(clocks.regs.lfbclken0);
            lemma_or_zero(clocks.regs.lfeclken0);
        }
    }
}

impl ClockControlExt for Vdac0 {
    open spec fn hfbus_mask(&self) -> u32 {
        0
    }

    open spec fn hfper_mask(&self) -> u32 {
        HFPERCLKEN0_VDAC0
    }

    open spec fn lfa_mask(&self) -> u32 {
        0
    }

    open spec fn lfb_mask(&self) -> u32 {
        0
    }

    open spec fn lfe_mask(&self) -> u32 {
        0
    }

    fn enable_clock(&self, clocks: &mut Cmu) {
        clocks.regs.hfperclken0 = clocks.regs.hfperclken0 | HFPERCLKEN0_VDAC0;
        proof {
            lemma_or_zero(clocks.regs.hfbusclken0);
            lemma_or_zero(clocks.regs.lfaclken0);
            lemma_or_zero(clocks.regs.lfbclken0);
            lemma_or_zero(clocks.regs.lfeclken0);
        }
    }
}

impl ClockControlExt for Trng0 {
    open spec fn hfbus_mask(&self) -> u32 {
        0
    }

    open spec fn hfper_mask(&self) -> u32 {
        HFPERCLKEN0_TRNG0
    }

    open spec fn lfa_mask(&self) -> u32 {
        0
    }

    open spec fn lfb_mask(&self) -> u32 {
        0
    }

    open spec fn lfe_mask(&self) -> u32 {
        0
    }

    fn enable_clock(&self, clocks: &mut Cmu) {
        clocks.regs.hfperclken0 = clocks.regs.hfperclken0 | HFPERCLKEN0_TRNG0;
        proof {
            lemma_or_zero(clocks.regs.hfbusclken0);
            lemma_or_zero(clocks.regs.lfaclken0);
            lemma_or_zero(clocks.regs.lfbclken0);
            lemma_or_zero(clocks.regs.lfeclken0);
        }
    }
}

impl ClockControlExt for Letimer0 {
    open spec fn hfbus_mask(&self) -> u32 {
        HFBUSCLKEN0_LE
    }

    open spec fn hfper_mask(&self) -> u32 {
        0
    }

    open spec fn lfa_mask(&self) -> u32 {
        LFACLKEN0_LETIMER0
    }

    open spec fn lfb_mask(&self) -> u32 {
        0
    }

    open spec fn lfe_mask(&self) -> u32 {
        0
    }

    fn enable_clock(&self, clocks: &mut Cmu) {
        // To access low-energy peripheral registers the LE interface
        // clock must be enabled first.
        clocks.regs.hfbusclken0 = clocks.regs.hfbusclken0 | HFBUSCLKEN0_LE;
        clocks.regs.lfaclken0 = clocks.regs.lfaclken0 | LFACLKEN0_LETIMER0;
        proof {
            lemma_or_zero(clocks.regs.hfperclken0);
            lemma_or_zero(clocks.regs.lfbclken0);
            lemma_or_zero(clocks.regs.lfeclken0);
        }
    }
}

impl ClockControlExt for Lesense {
    open spec fn hfbus_mask(&self) -> u32 {
        HFBUSCLKEN0_LE
    }

    open spec fn hfper_mask(&self) -> u32 {
        0
    }

    open spec fn lfa_mask(&self) -> u32 {
        LFACLKEN0_LESENSE
    }

    open spec fn lfb_mask(&self) -> u32 {
        0
    }

    open spec fn lfe_mask(&self) -> u32 {
        0
    }

    fn enable_clock(&self, clocks: &mut Cmu) {
        // To access low-energy peripheral registers the LE interface
        // clock must be enabled first.
        clocks.regs.hfbusclken0 = clocks.regs.hfbusclken0 | HFBUSCLKEN0_LE;
        clocks.regs.lfaclken0 = clocks.regs.lfaclken0 | LFACLKEN0_LESENSE;
        proof {
            lemma_or_zero(clocks.regs.hfperclken0);
            lemma_or_zero(clocks.regs.lfbclken0);
            lemma_or_zero(clocks.regs.lfeclken0);
        }
    }
}

impl ClockControlExt for Syst {
    open spec fn hfbus_mask(&self) -> u32 {
        HFBUSCLKEN0_LE
    }

    open spec fn hfper_mask(&self) -> u32 {
        0
    }

    open spec fn lfa_mask(&self) -> u32 {
        0
    }

    open spec fn lfb_mask(&self) -> u32 {
        LFBCLKEN0_SYSTICK
    }

    open spec fn lfe_mask(&self) -> u32 {
        0
    }

    fn enable_clock(&self, clocks: &mut Cmu) {
        // To access low-energy peripheral registers the LE interface
        // clock must be enabled first.
        clocks.regs.hfbusclken0 = clocks.regs.hfbusclken0 | HFBUSCLKEN0_LE;
        clocks.regs.lfbclken0 = clocks.regs.lfbclken0 | LFBCLKEN0_SYSTICK;
        proof {
            lemma_or_zero(clocks.regs.hfperclken0);
            lemma_or_zero(clocks.regs.lfaclken0);
            lemma_or_zero(clocks.regs.lfeclken0);
        }
    }
}

impl ClockControlExt for Leuart0 {
    open spec fn hfbus_mask(&self) -> u32 {
        HFBUSCLKEN0_LE
    }

    open spec fn hfper_mask(&self) -> u32 {
        0
    }

    open spec fn lfa_mask(&self) -> u32 {
        0
    }

    open spec fn lfb_mask(&self) -> u32 {
        LFBCLKEN0_LEUART0
    }

    open spec fn lfe_mask(&self) -> u32 {
        0
    }

    fn enable_clock(&self, clocks: &mut Cmu) {
        // To access low-energy peripheral registers the LE interface
        // clock must be enabled first.
        clocks.regs.hfbusclken0 = clocks.regs.hfbusclken0 | HFBUSCLKEN0_LE;
        clocks.regs.lfbclken0 = clocks.regs.lfbclken0 | LFBCLKEN0_LEUART0;
        proof {
            lemma_or_zero(clocks.regs.hfperclken0);
            lemma_or_zero(clocks.regs.lfaclken0);
            lemma_or_zero(clocks.regs.lfeclken0);
        }
    }
}

impl ClockControlExt for Rtcc {
    open spec fn hfbus_mask(&self) -> u32 {
        HFBUSCLKEN0_LE
    }

    open spec fn hfper_mask(&self) -> u32 {
        0
    }

    open spec fn lfa_mask(&self) -> u32 {
        0
    }

    open spec fn lfb_mask(&self) -> u32 {
        0
    }

    open spec fn lfe_mask(&self) -> u32 {
        LFECLKEN0_RTCC
    }

    fn enable_clock(&self, clocks: &mut Cmu) {
        // To access low-energy peripheral registers the LE interface
        // clock must be enabled first.
        clocks.regs.hfbusclken0 = clocks.regs.hfbusclken0 | HFBUSCLKEN0_LE;
        clocks.regs.lfeclken0 = clocks.regs.lfeclken0 | LFECLKEN0_RTCC;
        proof {
            lemma_or_zero(clocks.regs.hfperclken0);
            lemma_or_zero(clocks.regs.lfaclken0);
            lemma_or_zero(clocks.regs.lfbclken0);
        }
    }
}

impl ClockControlExt for Csen {
    open spec fn hfbus_mask(&self) -> u32 {
        0
    }

    open spec fn hfper_mask(&self) -> u32 {
        HFPERCLKEN0_CSEN
    }

    open spec fn lfa_mask(&self) -> u32 {
        0
    }

    open spec fn lfb_mask(&self) -> u32 {
        LFBCLKEN0_CSEN
    }

    open spec fn lfe_mask(&self) -> u32 {
        0
    }

    fn enable_clock(&self, clocks: &mut Cmu) {
        clocks.regs.hfperclken0 = clocks.regs.hfperclken0 | HFPERCLKEN0_CSEN;
        clocks.regs.lfbclken0 = clocks.regs.lfbclken0 | LFBCLKEN0_CSEN;
        proof {
            lemma_or_zero(clocks.regs.hfbusclken0);
            lemma_or_zero(clocks.regs.lfaclken0);
            lemma_or_zero(clocks.regs.lfeclken0);
        }
    }
}

} // verus!
