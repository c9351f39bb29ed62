//! Pin identities.
//!
//! Each physical GPIO pin of the package is one `PinId`: a port group and
//! a bit index inside that port. The set of identities is fixed by the
//! package; the debug pins PF0-PF3 carry the SWD/JTAG connection, cannot
//! safely be reconfigured while a debugger is attached, and are therefore
//! not constructible at all.

use vstd::prelude::*;

verus! {

/// GPIO port group of the package.
#[derive(Clone, Copy, PartialEq, Eq, Structural, Debug)]
pub enum Port {
    A,
    B,
    C,
    D,
    F,
    I,
    J,
    K,
}

/// The pins that the package exposes, debug pins excluded.
pub open spec fn pin_exists(port: Port, bit: u8) -> bool {
    match port {
        Port::A => bit <= 9,
        Port::B => 6 <= bit && bit <= 15,
        Port::C => bit <= 11,
        Port::D => 8 <= bit && bit <= 15,
        Port::F => 4 <= bit && bit <= 15,
        Port::I => bit <= 3,
        Port::J => bit == 14 || bit == 15,
        Port::K => bit <= 2,
    }
}

/// Identity of exactly one physical GPIO pin.
///
/// Values exist only for pins of the package; the debug pins PF0-PF3 are
/// excluded, so no `PinId` for them can be made.
#[derive(Clone, Copy, PartialEq, Eq, Structural, Debug)]
pub struct PinId {
    port: Port,
    bit: u8,
}

impl PinId {
    /// Every `PinId` names a pin that the package exposes.
    #[verifier::type_invariant]
    pub open spec fn wf(self) -> bool {
        pin_exists(self.port_spec(), self.bit_spec())
    }

    pub closed spec fn port_spec(self) -> Port {
        self.port
    }

    pub closed spec fn bit_spec(self) -> u8 {
        self.bit
    }

    /// Port group of this pin.
    pub fn port(self) -> (r: Port)
        ensures
            r == self.port_spec(),
    {
        self.port
    }

    /// Bit index of this pin inside its port.
    pub fn bit(self) -> (r: u8)
        ensures
            r == self.bit_spec(),
    {
        self.bit
    }

    /// The identity of the pin at `(port, bit)`, or `None` where the
    /// package exposes no such pin. Debug pins PF0-PF3 are never returned.
    pub fn new(port: Port, bit: u8) -> (r: Option<PinId>)
        ensures
            r is Some <==> pin_exists(port, bit),
            r matches Some(p) ==> p.port_spec() == port && p.bit_spec() == bit,
    {
        let ok = match port {
            Port::A => bit <= 9,
            Port::B => 6 <= bit && bit <= 15,
            Port::C => bit <= 11,
            Port::D => 8 <= bit && bit <= 15,
            Port::F => 4 <= bit && bit <= 15,
            Port::I => bit <= 3,
            Port::J => bit == 14 || bit == 15,
            Port::K => bit <= 2,
        };
        if ok {
            Some(PinId { port, bit })
        } else {
            None
        }
    }

    /// Crate-internal constructor for pins already known to exist.
    pub(crate) fn mk(port: Port, bit: u8) -> (r: PinId)
        requires
            pin_exists(port, bit),
        ensures
            r.port_spec() == port,
            r.bit_spec() == bit,
    {
        PinId { port, bit }
    }

}

/// The debug pins, port F bits 0-3, are not pins of this layer at all:
/// no identity for them exists.
pub proof fn lemma_debug_pins_not_constructible(bit: u8)
    requires
        bit < 4,
    ensures
        !pin_exists(Port::F, bit),
        forall|p: PinId| p.wf() ==> !(p.port_spec() == Port::F && p.bit_spec() == bit),
{
}

} // verus!
