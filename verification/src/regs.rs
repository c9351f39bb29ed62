//! Model of the GPIO register block.
//!
//! Each port group owns a low and a high mode register (four mode bits per
//! pin, pins 0-7 in the low register, pins 8-15 in the high one), a
//! data-out register, and a read-only data-in register. The data-out
//! toggle register is write-only and is modelled by its effect on the
//! data-out register. Writes that the hardware performs through the
//! set-alias and clear-alias address regions are modelled by
//! [`crate::bits::set_alias_write`] and [`crate::bits::clear_alias_write`].

use vstd::prelude::*;

use crate::bits::{
    bit_of, clear_alias_write, lemma_clear_alias_bits, lemma_clear_nibble, lemma_or_nibble,
    lemma_set_alias_bits, lemma_single_bit_mask, lemma_toggle_bits, nibble_of,
};
use crate::pins::{PinId, Port};

verus! {

/// Registers of one GPIO port group.
#[derive(Clone, Copy, PartialEq, Eq, Structural, Debug)]
pub struct PortRegs {
    /// Mode register for pins 0-7 (MODEL), four bits per pin.
    pub mode_low: u32,
    /// Mode register for pins 8-15 (MODEH), four bits per pin.
    pub mode_high: u32,
    /// Data-out register (DOUT), one bit per pin.
    pub dout: u32,
    /// Data-in register (DIN), one bit per pin, read-only.
    pub din: u32,
}

impl PortRegs {
    /// All registers at their reset value.
    pub fn new() -> (r: PortRegs)
        ensures
            r == (PortRegs { mode_low: 0, mode_high: 0, dout: 0, din: 0 }),
    {
        PortRegs { mode_low: 0, mode_high: 0, dout: 0, din: 0 }
    }
}

/// Model of the whole GPIO register block, one set of registers per port
/// group of the package.
#[derive(Clone, Copy, PartialEq, Eq, Structural, Debug)]
pub struct GpioRegisters {
    pub pa: PortRegs,
    pub pb: PortRegs,
    pub pc: PortRegs,
    pub pd: PortRegs,
    pub pf: PortRegs,
    pub pi: PortRegs,
    pub pj: PortRegs,
    pub pk: PortRegs,
}

impl GpioRegisters {
    /// The registers of port `p`.
    pub open spec fn spec_port(self, p: Port) -> PortRegs {
        match p {
            Port::A => self.pa,
            Port::B => self.pb,
            Port::C => self.pc,
            Port::D => self.pd,
            Port::F => self.pf,
            Port::I => self.pi,
            Port::J => self.pj,
            Port::K => self.pk,
        }
    }

    /// The current value of the 4-bit mode field of `pin`.
    pub open spec fn mode_of(self, pin: PinId) -> u32 {
        let pr = self.spec_port(pin.port_spec());
        if pin.bit_spec() < 8 {
            nibble_of(pr.mode_low, pin.bit_spec() as u32)
        } else {
            nibble_of(pr.mode_high, (pin.bit_spec() - 8) as u32)
        }
    }

    /// The current value of the data-out bit of `pin`.
    pub open spec fn dout_of(self, pin: PinId) -> bool {
        bit_of(self.spec_port(pin.port_spec()).dout, pin.bit_spec() as u32)
    }

    /// The current value of the data-in bit of `pin`: the sampled state of
    /// the external line.
    pub open spec fn din_of(self, pin: PinId) -> bool {
        bit_of(self.spec_port(pin.port_spec()).din, pin.bit_spec() as u32)
    }

    /// `self` differs from `prior` in at most the mode field and the
    /// data-out bit of `pin`: every other port is untouched, every data-in
    /// bit is untouched, and on the pin's own port every other data-out
    /// bit and every other mode field keeps its last-written value.
    pub open spec fn unchanged_except(self, prior: GpioRegisters, pin: PinId) -> bool {
        let port = pin.port_spec();
        let b = pin.bit_spec();
        &&& forall|p: Port| p != port ==> self.spec_port(p) == prior.spec_port(p)
        &&& self.spec_port(port).din == prior.spec_port(port).din
        &&& forall|k: u32|
            k < 32 && k != b ==> #[trigger] bit_of(self.spec_port(port).dout, k) == bit_of(
                prior.spec_port(port).dout,
                k,
            )
        &&& forall|k: u32|
            k < 8 && !(b < 8 && k == b) ==> #[trigger] nibble_of(self.spec_port(port).mode_low, k)
                == nibble_of(prior.spec_port(port).mode_low, k)
        &&& forall|k: u32|
            k < 8 && !(b >= 8 && k + 8 == b) ==> #[trigger] nibble_of(
                self.spec_port(port).mode_high,
                k,
            ) == nibble_of(prior.spec_port(port).mode_high, k)
    }

    /// `self` with the registers of port `p` replaced by `v`.
    pub open spec fn with_port(self, p: Port, v: PortRegs) -> GpioRegisters {
        match p {
            Port::A => GpioRegisters { pa: v, ..self },
            Port::B => GpioRegisters { pb: v, ..self },
            Port::C => GpioRegisters { pc: v, ..self },
            Port::D => GpioRegisters { pd: v, ..self },
            Port::F => GpioRegisters { pf: v, ..self },
            Port::I => GpioRegisters { pi: v, ..self },
            Port::J => GpioRegisters { pj: v, ..self },
            Port::K => GpioRegisters { pk: v, ..self },
        }
    }

    /// The register state after the mode field of `pin` is cleared
    /// through the clear-alias region.
    pub open spec fn spec_clear_mode(self, pin: PinId) -> GpioRegisters {
        let port = pin.port_spec();
        let b = pin.bit_spec();
        let pr = self.spec_port(port);
        let pr2 = if b < 8 {
            PortRegs {
                mode_low: clear_alias_write(pr.mode_low, 0xFu32 << ((4 * (b as u32)) as u32)),
                mode_high: pr.mode_high,
                dout: pr.dout,
                din: pr.din,
            }
        } else {
            PortRegs {
                mode_low: pr.mode_low,
                mode_high: clear_alias_write(
                    pr.mode_high,
                    0xFu32 << ((4 * ((b - 8) as u32)) as u32),
                ),
                dout: pr.dout,
                din: pr.din,
            }
        };
        self.with_port(port, pr2)
    }

    /// The register state after the data-out bit of `pin` is cleared
    /// through the clear-alias region.
    pub open spec fn spec_clear_dout(self, pin: PinId) -> GpioRegisters {
        let port = pin.port_spec();
        let pr = self.spec_port(port);
        let pr2 = PortRegs {
            mode_low: pr.mode_low,
            mode_high: pr.mode_high,
            dout: clear_alias_write(pr.dout, 1u32 << (pin.bit_spec() as u32)),
            din: pr.din,
        };
        self.with_port(port, pr2)
    }

    /// The register state after a full reset of `pin`: mode field
    /// cleared, then the data-out bit cleared.
    pub open spec fn spec_reset(self, pin: PinId) -> GpioRegisters {
        self.spec_clear_mode(pin).spec_clear_dout(pin)
    }

    /// All registers at their reset value, as after a system reset with
    /// no debugger attached: every pin sits in DISABLED mode with its
    /// data-out bit clear, and every line samples low.
    pub fn new() -> (r: GpioRegisters)
        ensures
            forall|p: Port| (#[trigger] r.spec_port(p)) == (PortRegs {
                mode_low: 0,
                mode_high: 0,
                dout: 0,
                din: 0,
            }),
            forall|pin: PinId| (#[trigger] r.mode_of(pin)) == 0,
            forall|pin: PinId| !(#[trigger] r.dout_of(pin)),
            forall|pin: PinId| !(#[trigger] r.din_of(pin)),
    {
        let r = GpioRegisters {
            pa: PortRegs::new(),
            pb: PortRegs::new(),
            pc: PortRegs::new(),
            pd: PortRegs::new(),
            pf: PortRegs::new(),
            pi: PortRegs::new(),
            pj: PortRegs::new(),
            pk: PortRegs::new(),
        };
        proof {
            assert forall|pin: PinId| (#[trigger] r.mode_of(pin)) == 0 by {
                let b = pin.bit_spec();
                crate::bits::lemma_zero_reg(b as u32, b as u32);
                if b >= 8 {
                    crate::bits::lemma_zero_reg(b as u32, (b - 8) as u32);
                }
            }
            assert forall|pin: PinId| !(#[trigger] r.dout_of(pin)) by {
                crate::bits::lemma_zero_reg(pin.bit_spec() as u32, 0);
            }
            assert forall|pin: PinId| !(#[trigger] r.din_of(pin)) by {
                crate::bits::lemma_zero_reg(pin.bit_spec() as u32, 0);
            }
        }
        r
    }

    /// Read of the registers of port `p`.
    fn read_port(&self, p: Port) -> (r: PortRegs)
        ensures
            r == self.spec_port(p),
    {
        match p {
            Port::A => self.pa,
            Port::B => self.pb,
            Port::C => self.pc,
            Port::D => self.pd,
            Port::F => self.pf,
            Port::I => self.pi,
            Port::J => self.pj,
            Port::K => self.pk,
        }
    }

    /// Write-back of the registers of port `p`.
    fn write_port(&mut self, p: Port, v: PortRegs)
        ensures
            *final(self) == old(self).with_port(p, v),
            final(self).spec_port(p) == v,
            forall|q: Port| q != p ==> final(self).spec_port(q) == old(self).spec_port(q),
    {
        match p {
            Port::A => self.pa = v,
            Port::B => self.pb = v,
            Port::C => self.pc = v,
            Port::D => self.pd = v,
            Port::F => self.pf = v,
            Port::I => self.pi = v,
            Port::J => self.pj = v,
            Port::K => self.pk = v,
        }
    }
}

/// Replacing a port's registers twice keeps only the second write, and
/// `spec_port` reads back exactly what `with_port` put there.
pub proof fn lemma_with_port(g: GpioRegisters, p: Port, v: PortRegs)
    ensures
        g.with_port(p, v).spec_port(p) == v,
        forall|q: Port| q != p ==> g.with_port(p, v).spec_port(q) == g.spec_port(q),
        forall|u: PortRegs| #[trigger] g.with_port(p, u).with_port(p, v) == g.with_port(p, v),
{
}

/// `unchanged_except` composes: two steps that each touch only `pin`
/// together touch only `pin`.
pub proof fn lemma_unchanged_trans(a: GpioRegisters, b: GpioRegisters, c: GpioRegisters, pin: PinId)
    requires
        b.unchanged_except(a, pin),
        c.unchanged_except(b, pin),
    ensures
        c.unchanged_except(a, pin),
{
}

/// The seven primitive register operations of one pin. Implemented by
/// [`PinId`]; each is a single access to the pin's port registers, through
/// the set-alias or clear-alias region where a read-modify-write would
/// race with interrupt-context writers.
pub trait PinTrait {
    spec fn pin_id(&self) -> PinId;

    /// Clears the 4-bit mode field of the pin (mode becomes DISABLED)
    /// through the clear-alias region.
    fn clear_mode(&self, regs: &mut GpioRegisters)
        ensures
            final(regs).mode_of(self.pin_id()) == 0,
            final(regs).dout_of(self.pin_id()) == old(regs).dout_of(self.pin_id()),
            final(regs).unchanged_except(*old(regs), self.pin_id()),
            *final(regs) == old(regs).spec_clear_mode(self.pin_id());

    /// Ors `mode` into the 4-bit mode field of the pin through the
    /// set-alias region. On a field previously cleared the field becomes
    /// exactly `mode`.
    fn set_mode(&self, mode: u32, regs: &mut GpioRegisters)
        requires
            mode <= 0xF,
        ensures
            final(regs).mode_of(self.pin_id()) == (old(regs).mode_of(self.pin_id()) | mode),
            old(regs).mode_of(self.pin_id()) == 0 ==> final(regs).mode_of(self.pin_id()) == mode,
            final(regs).dout_of(self.pin_id()) == old(regs).dout_of(self.pin_id()),
            final(regs).unchanged_except(*old(regs), self.pin_id());

    /// Clears the data-out bit of the pin through the clear-alias region.
    fn clear_dout_bit(&self, regs: &mut GpioRegisters)
        ensures
            !final(regs).dout_of(self.pin_id()),
            final(regs).mode_of(self.pin_id()) == old(regs).mode_of(self.pin_id()),
            final(regs).unchanged_except(*old(regs), self.pin_id()),
            *final(regs) == old(regs).spec_clear_dout(self.pin_id());

    /// Sets the data-out bit of the pin through the set-alias region.
    fn set_dout_bit(&self, regs: &mut GpioRegisters)
        ensures
            final(regs).dout_of(self.pin_id()),
            final(regs).mode_of(self.pin_id()) == old(regs).mode_of(self.pin_id()),
            final(regs).unchanged_except(*old(regs), self.pin_id());

    /// Reads the data-out bit of the pin.
    fn read_dout_bit(&self, regs: &GpioRegisters) -> (r: bool)
        ensures
            r == regs.dout_of(self.pin_id());

    /// Writes the pin's bit of the data-out toggle register, inverting
    /// the data-out bit.
    fn write_douttgl_bit(&self, regs: &mut GpioRegisters)
        ensures
            final(regs).dout_of(self.pin_id()) == !old(regs).dout_of(self.pin_id()),
            final(regs).mode_of(self.pin_id()) == old(regs).mode_of(self.pin_id()),
            final(regs).unchanged_except(*old(regs), self.pin_id());

    /// Reads the data-in bit of the pin: the sampled state of the
    /// external line.
    fn read_din_bit(&self, regs: &GpioRegisters) -> (r: bool)
        ensures
            r == regs.din_of(self.pin_id());
}

impl PinTrait for PinId {
    open spec fn pin_id(&self) -> PinId {
        *self
    }

    fn clear_mode(&self, regs: &mut GpioRegisters) {
        proof {
            use_type_invariant(*self);
        }
        let p = self.port();
        let b = self.bit();
        let mut pr = regs.read_port(p);
        if b < 8 {
            let i: u32 = b as u32;
            let prior_low = pr.mode_low;
            pr.mode_low = pr.mode_low & !(0xFu32 << (4 * i));
            proof {
                assert(pr.mode_low == clear_alias_write(prior_low, 0xFu32 << ((4 * i) as u32)));
                assert forall|k: u32| k < 8 implies #[trigger] nibble_of(pr.mode_low, k) == if k
                    == i {
                    0u32
                } else {
                    nibble_of(prior_low, k)
                } by {
                    lemma_clear_nibble(prior_low, i, k);
                }
            }
        } else {
            let i: u32 = (b - 8) as u32;
            let prior_high = pr.mode_high;
            pr.mode_high = pr.mode_high & !(0xFu32 << (4 * i));
            proof {
                assert forall|k: u32| k < 8 implies #[trigger] nibble_of(pr.mode_high, k) == if k
                    == i {
                    0u32
                } else {
                    nibble_of(prior_high, k)
                } by {
                    lemma_clear_nibble(prior_high, i, k);
                }
            }
        }
        regs.write_port(p, pr);
    }

    fn set_mode(&self, mode: u32, regs: &mut GpioRegisters) {
        proof {
            use_type_invariant(*self);
        }
        let p = self.port();
        let b = self.bit();
        let mut pr = regs.read_port(p);
        if b < 8 {
            let i: u32 = b as u32;
            let prior_low = pr.mode_low;
            pr.mode_low = pr.mode_low | (mode << (4 * i));
            proof {
                assert forall|k: u32| k < 8 implies #[trigger] nibble_of(pr.mode_low, k) == if k
                    == i {
                    nibble_of(prior_low, i) | mode
                } else {
                    nibble_of(prior_low, k)
                } by {
                    lemma_or_nibble(prior_low, mode, i, k);
                }
                crate::bits::lemma_or_into_zero(mode);
            }
        } else {
            let i: u32 = (b - 8) as u32;
            let prior_high = pr.mode_high;
            pr.mode_high = pr.mode_high | (mode << (4 * i));
            proof {
                assert forall|k: u32| k < 8 implies #[trigger] nibble_of(pr.mode_high, k) == if k
                    == i {
                    nibble_of(prior_high, i) | mode
                } else {
                    nibble_of(prior_high, k)
                } by {
                    lemma_or_nibble(prior_high, mode, i, k);
                }
                crate::bits::lemma_or_into_zero(mode);
            }
        }
        regs.write_port(p, pr);
    }

    fn clear_dout_bit(&self, regs: &mut GpioRegisters) {
        proof {
            use_type_invariant(*self);
        }
        let p = self.port();
        let b = self.bit();
        let mut pr = regs.read_port(p);
        let prior_dout = pr.dout;
        pr.dout = pr.dout & !(1u32 << (b as u32));
        proof {
            assert forall|k: u32| k < 32 implies #[trigger] bit_of(pr.dout, k) == if k == b as u32 {
                false
            } else {
                bit_of(prior_dout, k)
            } by {
                lemma_clear_alias_bits(prior_dout, 1u32 << (b as u32), k);
                lemma_single_bit_mask(b as u32, k);
            }
        }
        regs.write_port(p, pr);
    }

    fn set_dout_bit(&self, regs: &mut GpioRegisters) {
        proof {
            use_type_invariant(*self);
        }
        let p = self.port();
        let b = self.bit();
        let mut pr = regs.read_port(p);
        let prior_dout = pr.dout;
        pr.dout = pr.dout | (1u32 << (b as u32));
        proof {
            assert forall|k: u32| k < 32 implies #[trigger] bit_of(pr.dout, k) == if k == b as u32 {
                true
            } else {
                bit_of(prior_dout, k)
            } by {
                lemma_set_alias_bits(prior_dout, 1u32 << (b as u32), k);
                lemma_single_bit_mask(b as u32, k);
            }
        }
        regs.write_port(p, pr);
    }

    fn read_dout_bit(&self, regs: &GpioRegisters) -> (r: bool) {
        proof {
            use_type_invariant(*self);
        }
        let p = self.port();
        let b = self.bit();
        let pr = regs.read_port(p);
        let mask: u32 = 1u32 << (b as u32);
        let r = pr.dout & mask == mask;
        proof {
            let k: u32 = b as u32;
            let d: u32 = pr.dout;
            assert((d & (1u32 << k) == (1u32 << k)) == ((d >> k) & 1 == 1)) by (bit_vector)
                requires
                    k < 32,
            ;
        }
        r
    }

    fn write_douttgl_bit(&self, regs: &mut GpioRegisters) {
        proof {
            use_type_invariant(*self);
        }
        let p = self.port();
        let b = self.bit();
        let mut pr = regs.read_port(p);
        let prior_dout = pr.dout;
        pr.dout = pr.dout ^ (1u32 << (b as u32));
        proof {
            assert forall|k: u32| k < 32 implies #[trigger] bit_of(pr.dout, k) == if k == b as u32 {
                !bit_of(prior_dout, k)
            } else {
                bit_of(prior_dout, k)
            } by {
                lemma_toggle_bits(prior_dout, 1u32 << (b as u32), k);
                lemma_single_bit_mask(b as u32, k);
            }
        }
        regs.write_port(p, pr);
    }

    fn read_din_bit(&self, regs: &GpioRegisters) -> (r: bool) {
        proof {
            use_type_invariant(*self);
        }
        let p = self.port();
        let b = self.bit();
        let pr = regs.read_port(p);
        let mask: u32 = 1u32 << (b as u32);
        let r = pr.din & mask == mask;
        proof {
            let k: u32 = b as u32;
            let d: u32 = pr.din;
            assert((d & (1u32 << k) == (1u32 << k)) == ((d >> k) & 1 == 1)) by (bit_vector)
                requires
                    k < 32,
            ;
        }
        r
    }
}

} // verus!
