//! General purpose I/O (GPIO) pin API.
//!
//! A pin is driven through configuration states by consuming the current
//! wrapper and producing a newly typed one: [`Pin::reset`] disables the
//! pin and returns a [`PinBuilder`]; the builder's combinators select
//! pull resistor and glitch filter as pure type relabelings; its
//! finalization methods perform the register writes and are implemented
//! only for the (pull, filter, output-mode) combinations that the
//! hardware mode encoding supports. Every finalization method states
//! exactly which mode encoding it writes and which data-out value it
//! leaves, and that no other pin's registers are touched.

use core::marker::PhantomData;

use vstd::prelude::*;

use crate::pins::{PinId, Port};
use crate::regs::{lemma_unchanged_trans, GpioRegisters, PinTrait};

verus! {

// The shared mode-field encoding of every GPIO pin, bit-exact to the
// silicon. In DISABLED mode the data-out bit enables a pull-up; in INPUT
// mode it enables the glitch filter; in the INPUTPULL modes it selects
// the pull direction.
pub const MODE_DISABLED: u32 = 0;
pub const MODE_INPUT: u32 = 1;
pub const MODE_INPUTPULL: u32 = 2;
pub const MODE_INPUTPULLFILTER: u32 = 3;
pub const MODE_PUSHPULL: u32 = 4;
pub const MODE_WIREDOR: u32 = 6;
pub const MODE_WIREDORPULLDOWN: u32 = 7;
pub const MODE_WIREDAND: u32 = 8;
pub const MODE_WIREDANDFILTER: u32 = 9;
pub const MODE_WIREDANDPULLUP: u32 = 10;
pub const MODE_WIREDANDPULLUPFILTER: u32 = 11;

/// The pin sits in the state that [`Pin::reset`] leaves behind: mode
/// field DISABLED and data-out bit clear, so no pull resistor is
/// energized. Every finalization method starts from this state.
pub open spec fn pin_is_reset(g: GpioRegisters, pin: PinId) -> bool {
    g.mode_of(pin) == MODE_DISABLED && !g.dout_of(pin)
}

/// Implemented by types that indicate a GPIO mode.
///
/// Used as trait bound by the [`Pin`] type.
pub trait Mode {

}

/// Marks a GPIO pin as being disabled.
pub struct Disabled;

impl Mode for Disabled {

}

/// Marks a GPIO pin as being configured as input.
pub struct Input;

impl Mode for Input {

}

/// Marks a GPIO pin as being configured as output.
pub struct Output;

impl Mode for Output {

}

/// Implemented by types that indicate a pull-up or pull-down resistor
/// configuration of the builder.
pub trait PullTrait {

}

/// Implemented by types that indicate a glitch filter configuration of
/// the builder.
pub trait FilterTrait {

}

/// No pull resistor.
pub struct Floating;

impl PullTrait for Floating {

}

/// A pull-down resistor.
pub struct PullDown;

impl PullTrait for PullDown {

}

/// A pull-up resistor.
pub struct PullUp;

impl PullTrait for PullUp {

}

/// Glitch filter off.
pub struct NoFilter;

impl FilterTrait for NoFilter {

}

/// Glitch filter on.
pub struct Filter;

impl FilterTrait for Filter {

}

/// A GPIO pin in a configured mode.
///
/// Use a [`PinBuilder`] to create a pin. To change a pin's configuration
/// use [`Pin::reset`] to get back a builder. The cycle through disabled
/// mode prevents the pin from entering unwanted intermediate modes: the
/// mode field is ored, never read-modify-written, so it must be cleared
/// before a new encoding goes in.
pub struct Pin<M: Mode> {
    id: PinId,
    _mode: PhantomData<M>,
}

/// Builder for pins.
///
/// Finalization methods like `input()` or `push_pull_output()` are only
/// implemented for configurations that the hardware supports. A builder
/// is obtained from a field of [`Parts`] or from [`Pin::reset`].
pub struct PinBuilder<P: PullTrait, F: FilterTrait> {
    id: PinId,
    _pull: PhantomData<P>,
    _filter: PhantomData<F>,
}

impl<M: Mode> Pin<M> {
    /// The identity of the physical pin this wrapper owns.
    pub closed spec fn pin_id(&self) -> PinId {
        self.id
    }

    /// The identity of the physical pin, as a value.
    pub fn id(&self) -> (r: PinId)
        ensures
            r == self.pin_id(),
    {
        self.id
    }

    /// Disables the pin and returns a builder.
    ///
    /// Whatever the prior state, the mode field is cleared first and the
    /// data-out bit right after: in DISABLED mode the data-out bit means
    /// "pull-up enabled", so a stale bit left from an output or filtered
    /// input configuration would energize a pull-up. The second write
    /// makes sure it never stays set.
    pub fn reset(self, regs: &mut GpioRegisters) -> (r: PinBuilder<Floating, NoFilter>)
        ensures
            r.pin_id() == self.pin_id(),
            pin_is_reset(*final(regs), self.pin_id()),
            final(regs).unchanged_except(*old(regs), self.pin_id()),
            *final(regs) == old(regs).spec_reset(self.pin_id()),
    {
        let ghost g0 = *regs;
        self.id.clear_mode(regs);
        let ghost g1 = *regs;
        self.id.clear_dout_bit(regs);
        proof {
            lemma_unchanged_trans(g0, g1, *regs, self.id);
        }
        PinBuilder { id: self.id, _pull: PhantomData, _filter: PhantomData }
    }
}

impl<P: PullTrait, F: FilterTrait> PinBuilder<P, F> {
    /// The identity of the physical pin this builder owns.
    pub closed spec fn pin_id(&self) -> PinId {
        self.id
    }

    /// Disables any pull-up or pull-down resistor. No register effect.
    pub fn floating(self) -> (r: PinBuilder<Floating, F>)
        ensures
            r.pin_id() == self.pin_id(),
    {
        PinBuilder { id: self.id, _pull: PhantomData, _filter: PhantomData }
    }

    /// Selects a pull-up resistor. No register effect.
    pub fn pull_up(self) -> (r: PinBuilder<PullUp, F>)
        ensures
            r.pin_id() == self.pin_id(),
    {
        PinBuilder { id: self.id, _pull: PhantomData, _filter: PhantomData }
    }

    /// Selects a pull-down resistor. No register effect.
    pub fn pull_pown(self) -> (r: PinBuilder<PullDown, F>)
        ensures
            r.pin_id() == self.pin_id(),
    {
        PinBuilder { id: self.id, _pull: PhantomData, _filter: PhantomData }
    }

    /// Selects the glitch filter on the input circuitry. No register
    /// effect.
    pub fn filter(self) -> (r: PinBuilder<P, Filter>)
        ensures
            r.pin_id() == self.pin_id(),
    {
        PinBuilder { id: self.id, _pull: PhantomData, _filter: PhantomData }
    }

    /// Deselects the glitch filter on the input circuitry. No register
    /// effect.
    pub fn no_filter(self) -> (r: PinBuilder<P, NoFilter>)
        ensures
            r.pin_id() == self.pin_id(),
    {
        PinBuilder { id: self.id, _pull: PhantomData, _filter: PhantomData }
    }
}

impl PinBuilder<Floating, NoFilter> {
    /// Leaves the digital input and output circuitry of this pin
    /// disabled. No register effect: the pin already sits in DISABLED
    /// mode with the data-out bit clear.
    pub fn disabled(self) -> (r: Pin<Disabled>)
        ensures
            r.pin_id() == self.pin_id(),
    {
        Pin { id: self.id, _mode: PhantomData }
    }
}

impl PinBuilder<PullUp, NoFilter> {
    /// Disables the digital input and output circuitry of this pin but
    /// keeps a pull-up energized: in DISABLED mode the data-out bit
    /// enables the pull-up.
    pub fn disabled(self, regs: &mut GpioRegisters) -> (r: Pin<Disabled>)
        ensures
            r.pin_id() == self.pin_id(),
            final(regs).dout_of(self.pin_id()),
            final(regs).mode_of(self.pin_id()) == old(regs).mode_of(self.pin_id()),
            final(regs).unchanged_except(*old(regs), self.pin_id()),
    {
        self.id.set_dout_bit(regs);
        Pin { id: self.id, _mode: PhantomData }
    }
}

impl PinBuilder<Floating, NoFilter> {
    /// Configures this pin as floating digital input.
    pub fn input(self, regs: &mut GpioRegisters) -> (r: Pin<Input>)
        requires
            pin_is_reset(*old(regs), self.pin_id()),
        ensures
            r.pin_id() == self.pin_id(),
            final(regs).mode_of(self.pin_id()) == MODE_INPUT,
            !final(regs).dout_of(self.pin_id()),
            final(regs).unchanged_except(*old(regs), self.pin_id()),
    {
        self.id.set_mode(MODE_INPUT, regs);
        Pin { id: self.id, _mode: PhantomData }
    }
}

impl PinBuilder<Floating, Filter> {
    /// Configures this pin as floating digital input with the glitch
    /// filter enabled.
    pub fn input(self, regs: &mut GpioRegisters) -> (r: Pin<Input>)
        requires
            pin_is_reset(*old(regs), self.pin_id()),
        ensures
            r.pin_id() == self.pin_id(),
            final(regs).mode_of(self.pin_id()) == MODE_INPUT,
            final(regs).dout_of(self.pin_id()),
            final(regs).unchanged_except(*old(regs), self.pin_id()),
    {
        let ghost g0 = *regs;
        // Change to INPUT mode first: in INPUT mode the data-out bit
        // means "filter enabled", but in the DISABLED mode the pin still
        // sits in, setting it would transiently energize a pull-up.
        self.id.set_mode(MODE_INPUT, regs);
        let ghost g1 = *regs;
        self.id.set_dout_bit(regs);
        proof {
            lemma_unchanged_trans(g0, g1, *regs, self.id);
        }
        Pin { id: self.id, _mode: PhantomData }
    }
}

impl PinBuilder<PullDown, NoFilter> {
    /// Configures this pin as digital input with a pull-down resistor.
    /// The data-out bit is already clear, which selects the pull-down
    /// direction.
    pub fn input(self, regs: &mut GpioRegisters) -> (r: Pin<Input>)
        requires
            pin_is_reset(*old(regs), self.pin_id()),
        ensures
            r.pin_id() == self.pin_id(),
            final(regs).mode_of(self.pin_id()) == MODE_INPUTPULL,
            !final(regs).dout_of(self.pin_id()),
            final(regs).unchanged_except(*old(regs), self.pin_id()),
    {
        self.id.set_mode(MODE_INPUTPULL, regs);
        Pin { id: self.id, _mode: PhantomData }
    }
}

impl PinBuilder<PullUp, NoFilter> {
    /// Configures this pin as digital input with a pull-up resistor. The
    /// data-out bit is set before the mode switch, so the pull direction
    /// is correct the instant input mode takes effect.
    pub fn input(self, regs: &mut GpioRegisters) -> (r: Pin<Input>)
        requires
            pin_is_reset(*old(regs), self.pin_id()),
        ensures
            r.pin_id() == self.pin_id(),
            final(regs).mode_of(self.pin_id()) == MODE_INPUTPULL,
            final(regs).dout_of(self.pin_id()),
            final(regs).unchanged_except(*old(regs), self.pin_id()),
    {
        let ghost g0 = *regs;
        self.id.set_dout_bit(regs);
        let ghost g1 = *regs;
        self.id.set_mode(MODE_INPUTPULL, regs);
        proof {
            lemma_unchanged_trans(g0, g1, *regs, self.id);
        }
        Pin { id: self.id, _mode: PhantomData }
    }
}

impl PinBuilder<PullDown, Filter> {
    /// Configures this pin as filtered digital input with a pull-down
    /// resistor.
    pub fn input(self, regs: &mut GpioRegisters) -> (r: Pin<Input>)
        requires
            pin_is_reset(*old(regs), self.pin_id()),
        ensures
            r.pin_id() == self.pin_id(),
            final(regs).mode_of(self.pin_id()) == MODE_INPUTPULLFILTER,
            !final(regs).dout_of(self.pin_id()),
            final(regs).unchanged_except(*old(regs), self.pin_id()),
    {
        self.id.set_mode(MODE_INPUTPULLFILTER, regs);
        Pin { id: self.id, _mode: PhantomData }
    }
}

impl PinBuilder<PullUp, Filter> {
    /// Configures this pin as filtered digital input with a pull-up
    /// resistor.
    pub fn input(self, regs: &mut GpioRegisters) -> (r: Pin<Input>)
        requires
            pin_is_reset(*old(regs), self.pin_id()),
        ensures
            r.pin_id() == self.pin_id(),
            final(regs).mode_of(self.pin_id()) == MODE_INPUTPULLFILTER,
            final(regs).dout_of(self.pin_id()),
            final(regs).unchanged_except(*old(regs), self.pin_id()),
    {
        let ghost g0 = *regs;
        self.id.set_dout_bit(regs);
        let ghost g1 = *regs;
        self.id.set_mode(MODE_INPUTPULLFILTER, regs);
        proof {
            lemma_unchanged_trans(g0, g1, *regs, self.id);
        }
        Pin { id: self.id, _mode: PhantomData }
    }
}

impl PinBuilder<Floating, NoFilter> {
    /// Configures this pin as push-pull output driving `state`.
    pub fn push_pull_output(self, state: bool, regs: &mut GpioRegisters) -> (r: Pin<Output>)
        requires
            pin_is_reset(*old(regs), self.pin_id()),
        ensures
            r.pin_id() == self.pin_id(),
            final(regs).mode_of(self.pin_id()) == MODE_PUSHPULL,
            final(regs).dout_of(self.pin_id()) == state,
            final(regs).unchanged_except(*old(regs), self.pin_id()),
    {
        let ghost g0 = *regs;
        if state {
            self.id.set_dout_bit(regs);
        }
        let ghost g1 = *regs;
        self.id.set_mode(MODE_PUSHPULL, regs);
        proof {
            lemma_unchanged_trans(g0, g1, *regs, self.id);
        }
        Pin { id: self.id, _mode: PhantomData }
    }
}

impl PinBuilder<Floating, NoFilter> {
    /// Configures this pin as open-source (wired-or) output driving
    /// `state`.
    pub fn open_source_output(self, state: bool, regs: &mut GpioRegisters) -> (r: Pin<Output>)
        requires
            pin_is_reset(*old(regs), self.pin_id()),
        ensures
            r.pin_id() == self.pin_id(),
            final(regs).mode_of(self.pin_id()) == MODE_WIREDOR,
            final(regs).dout_of(self.pin_id()) == state,
            final(regs).unchanged_except(*old(regs), self.pin_id()),
    {
        let ghost g0 = *regs;
        self.id.set_mode(MODE_WIREDOR, regs);
        let ghost g1 = *regs;
        if state {
            self.id.set_dout_bit(regs);
        }
        proof {
            lemma_unchanged_trans(g0, g1, *regs, self.id);
        }
        Pin { id: self.id, _mode: PhantomData }
    }
}

impl PinBuilder<PullDown, NoFilter> {
    /// Configures this pin as open-source (wired-or) output with a
    /// pull-down resistor, driving `state`.
    pub fn open_source_output(self, state: bool, regs: &mut GpioRegisters) -> (r: Pin<Output>)
        requires
            pin_is_reset(*old(regs), self.pin_id()),
        ensures
            r.pin_id() == self.pin_id(),
            final(regs).mode_of(self.pin_id()) == MODE_WIREDORPULLDOWN,
            final(regs).dout_of(self.pin_id()) == state,
            final(regs).unchanged_except(*old(regs), self.pin_id()),
    {
        let ghost g0 = *regs;
        self.id.set_mode(MODE_WIREDORPULLDOWN, regs);
        let ghost g1 = *regs;
        if state {
            self.id.set_dout_bit(regs);
        }
        proof {
            lemma_unchanged_trans(g0, g1, *regs, self.id);
        }
        Pin { id: self.id, _mode: PhantomData }
    }
}

impl PinBuilder<Floating, NoFilter> {
    /// Configures this pin as open-drain (wired-and) output driving
    /// `state`.
    pub fn open_drain_output(self, state: bool, regs: &mut GpioRegisters) -> (r: Pin<Output>)
        requires
            pin_is_reset(*old(regs), self.pin_id()),
        ensures
            r.pin_id() == self.pin_id(),
            final(regs).mode_of(self.pin_id()) == MODE_WIREDAND,
            final(regs).dout_of(self.pin_id()) == state,
            final(regs).unchanged_except(*old(regs), self.pin_id()),
    {
        let ghost g0 = *regs;
        if state {
            self.id.set_dout_bit(regs);
        }
        let ghost g1 = *regs;
        self.id.set_mode(MODE_WIREDAND, regs);
        proof {
            lemma_unchanged_trans(g0, g1, *regs, self.id);
        }
        Pin { id: self.id, _mode: PhantomData }
    }
}

impl PinBuilder<Floating, Filter> {
    /// Configures this pin as open-drain (wired-and) output with the
    /// glitch filter on the input path, driving `state`.
    pub fn open_drain_output(self, state: bool, regs: &mut GpioRegisters) -> (r: Pin<Output>)
        requires
            pin_is_reset(*old(regs), self.pin_id()),
        ensures
            r.pin_id() == self.pin_id(),
            final(regs).mode_of(self.pin_id()) == MODE_WIREDANDFILTER,
            final(regs).dout_of(self.pin_id()) == state,
            final(regs).unchanged_except(*old(regs), self.pin_id()),
    {
        let ghost g0 = *regs;
        if state {
            self.id.set_dout_bit(regs);
        }
        let ghost g1 = *regs;
        self.id.set_mode(MODE_WIREDANDFILTER, regs);
        proof {
            lemma_unchanged_trans(g0, g1, *regs, self.id);
        }
        Pin { id: self.id, _mode: PhantomData }
    }
}

impl PinBuilder<PullUp, NoFilter> {
    /// Configures this pin as open-drain (wired-and) output with a
    /// pull-up resistor, driving `state`.
    pub fn open_drain_output(self, state: bool, regs: &mut GpioRegisters) -> (r: Pin<Output>)
        requires
            pin_is_reset(*old(regs), self.pin_id()),
        ensures
            r.pin_id() == self.pin_id(),
            final(regs).mode_of(self.pin_id()) == MODE_WIREDANDPULLUP,
            final(regs).dout_of(self.pin_id()) == state,
            final(regs).unchanged_except(*old(regs), self.pin_id()),
    {
        let ghost g0 = *regs;
        if state {
            self.id.set_dout_bit(regs);
        }
        let ghost g1 = *regs;
        self.id.set_mode(MODE_WIREDANDPULLUP, regs);
        proof {
            lemma_unchanged_trans(g0, g1, *regs, self.id);
        }
        Pin { id: self.id, _mode: PhantomData }
    }
}

impl PinBuilder<PullUp, Filter> {
    /// Configures this pin as open-drain (wired-and) output with a
    /// pull-up resistor and the glitch filter on the input path, driving
    /// `state`.
    pub fn open_drain_output(self, state: bool, regs: &mut GpioRegisters) -> (r: Pin<Output>)
        requires
            pin_is_reset(*old(regs), self.pin_id()),
        ensures
            r.pin_id() == self.pin_id(),
            final(regs).mode_of(self.pin_id()) == MODE_WIREDANDPULLUPFILTER,
            final(regs).dout_of(self.pin_id()) == state,
            final(regs).unchanged_except(*old(regs), self.pin_id()),
    {
        let ghost g0 = *regs;
        if state {
            self.id.set_dout_bit(regs);
        }
        let ghost g1 = *regs;
        self.id.set_mode(MODE_WIREDANDPULLUPFILTER, regs);
        proof {
            lemma_unchanged_trans(g0, g1, *regs, self.id);
        }
        Pin { id: self.id, _mode: PhantomData }
    }
}

/// Pull resistor selection for the value-level configuration
/// operations.
#[derive(Clone, Copy, PartialEq, Eq, Structural, Debug)]
pub enum Pull {
    Floating,
    PullUp,
    PullDown,
}

/// Rejection of an electrically unsupported (pull, output-mode)
/// combination: open-source has no pull-up variant and open-drain has no
/// pull-down variant in the hardware mode encoding.
#[derive(Clone, Copy, PartialEq, Eq, Structural, Debug)]
pub enum ConfigError {
    UnsupportedPull,
}

/// The mode encoding an input configuration resolves to: INPUT when
/// floating, else INPUTPULL or INPUTPULLFILTER by the filter flag. The
/// pull direction is not part of the encoding; it is carried by the
/// data-out bit.
pub open spec fn input_mode_code(pull: Pull, filter: bool) -> u32 {
    match pull {
        Pull::Floating => MODE_INPUT,
        _ => if filter {
            MODE_INPUTPULLFILTER
        } else {
            MODE_INPUTPULL
        },
    }
}

/// The data-out value an input configuration leaves: the filter flag for
/// a floating input (in INPUT mode the bit enables the filter), else the
/// pull direction (set for pull-up, clear for pull-down).
pub open spec fn input_dout_value(pull: Pull, filter: bool) -> bool {
    match pull {
        Pull::Floating => filter,
        Pull::PullUp => true,
        Pull::PullDown => false,
    }
}

/// The mode encoding an open-source output resolves to, for the
/// supported pulls (floating or pull-down).
pub open spec fn open_source_mode_code(pull: Pull) -> u32 {
    if pull == Pull::PullDown {
        MODE_WIREDORPULLDOWN
    } else {
        MODE_WIREDOR
    }
}

/// The mode encoding an open-drain output resolves to, for the
/// supported pulls (floating or pull-up).
pub open spec fn open_drain_mode_code(pull: Pull, filter: bool) -> u32 {
    if pull == Pull::PullUp {
        if filter {
            MODE_WIREDANDPULLUPFILTER
        } else {
            MODE_WIREDANDPULLUP
        }
    } else {
        if filter {
            MODE_WIREDANDFILTER
        } else {
            MODE_WIREDAND
        }
    }
}

impl PinBuilder<Floating, NoFilter> {
    /// Configures this pin as digital input, with pull resistor and
    /// glitch filter chosen by value. Every combination is supported;
    /// the mode encoding and data-out bit land exactly on
    /// [`input_mode_code`] and [`input_dout_value`].
    pub fn into_input(self, pull: Pull, filter: bool, regs: &mut GpioRegisters) -> (r: Pin<Input>)
        requires
            pin_is_reset(*old(regs), self.pin_id()),
        ensures
            r.pin_id() == self.pin_id(),
            final(regs).mode_of(self.pin_id()) == input_mode_code(pull, filter),
            final(regs).dout_of(self.pin_id()) == input_dout_value(pull, filter),
            final(regs).unchanged_except(*old(regs), self.pin_id()),
    {
        match pull {
            Pull::Floating => {
                if filter {
                    self.filter().input(regs)
                } else {
                    self.input(regs)
                }
            },
            Pull::PullUp => {
                if filter {
                    self.pull_up().filter().input(regs)
                } else {
                    self.pull_up().input(regs)
                }
            },
            Pull::PullDown => {
                if filter {
                    self.pull_pown().filter().input(regs)
                } else {
                    self.pull_pown().input(regs)
                }
            },
        }
    }

    /// Configures this pin as push-pull output driving `state`.
    pub fn into_push_pull(self, state: bool, regs: &mut GpioRegisters) -> (r: Pin<Output>)
        requires
            pin_is_reset(*old(regs), self.pin_id()),
        ensures
            r.pin_id() == self.pin_id(),
            final(regs).mode_of(self.pin_id()) == MODE_PUSHPULL,
            final(regs).dout_of(self.pin_id()) == state,
            final(regs).unchanged_except(*old(regs), self.pin_id()),
    {
        self.push_pull_output(state, regs)
    }

    /// Configures this pin as open-source output driving `state`, with
    /// the pull chosen by value. A pull-up is electrically unsupported
    /// with an open-source stage: the request is rejected before any
    /// register write, and the registers are returned untouched.
    pub fn into_open_source(self, state: bool, pull: Pull, regs: &mut GpioRegisters) -> (r:
        Result<Pin<Output>, ConfigError>)
        requires
            pin_is_reset(*old(regs), self.pin_id()),
        ensures
            r is Err <==> pull == Pull::PullUp,
            r is Err ==> *final(regs) == *old(regs),
            r matches Err(e) ==> e == ConfigError::UnsupportedPull,
            r matches Ok(p) ==> {
                &&& p.pin_id() == self.pin_id()
                &&& final(regs).mode_of(self.pin_id()) == open_source_mode_code(pull)
                &&& final(regs).dout_of(self.pin_id()) == state
                &&& final(regs).unchanged_except(*old(regs), self.pin_id())
            },
    {
        match pull {
            Pull::PullUp => Err(ConfigError::UnsupportedPull),
            Pull::Floating => Ok(self.open_source_output(state, regs)),
            Pull::PullDown => Ok(self.pull_pown().open_source_output(state, regs)),
        }
    }

    /// Configures this pin as open-drain output driving `state`, with
    /// pull and filter chosen by value. A pull-down is electrically
    /// unsupported with an open-drain stage: the request is rejected
    /// before any register write, and the registers are returned
    /// untouched.
    pub fn into_open_drain(
        self,
        state: bool,
        pull: Pull,
        filter: bool,
        regs: &mut GpioRegisters,
    ) -> (r: Result<Pin<Output>, ConfigError>)
        requires
            pin_is_reset(*old(regs), self.pin_id()),
        ensures
            r is Err <==> pull == Pull::PullDown,
            r is Err ==> *final(regs) == *old(regs),
            r matches Err(e) ==> e == ConfigError::UnsupportedPull,
            r matches Ok(p) ==> {
                &&& p.pin_id() == self.pin_id()
                &&& final(regs).mode_of(self.pin_id()) == open_drain_mode_code(pull, filter)
                &&& final(regs).dout_of(self.pin_id()) == state
                &&& final(regs).unchanged_except(*old(regs), self.pin_id())
            },
    {
        match pull {
            Pull::PullDown => Err(ConfigError::UnsupportedPull),
            Pull::Floating => {
                if filter {
                    Ok(self.filter().open_drain_output(state, regs))
                } else {
                    Ok(self.open_drain_output(state, regs))
                }
            },
            Pull::PullUp => {
                if filter {
                    Ok(self.pull_up().filter().open_drain_output(state, regs))
                } else {
                    Ok(self.pull_up().open_drain_output(state, regs))
                }
            },
        }
    }
}

/// Resetting a pin is idempotent: a second reset changes nothing, in any
/// prior register state. With the first reset's guarantee that mode
/// field and data-out bit are left clear, reset composed with itself is
/// reset.
pub proof fn lemma_reset_idempotent(g: GpioRegisters, pin: PinId)
    requires
        pin.wf(),
    ensures
        g.spec_reset(pin).spec_reset(pin) == g.spec_reset(pin),
{
    let port = pin.port_spec();
    let b = pin.bit_spec();
    let g1 = g.spec_reset(pin);
    crate::regs::lemma_with_port(g, port, g1.spec_port(port));
    let a = g.spec_port(port).mode_low;
    let h = g.spec_port(port).mode_high;
    let d = g.spec_port(port).dout;
    let ml: u32 = 0xFu32 << ((4 * (b as u32)) as u32);
    let mh: u32 = 0xFu32 << ((4 * ((b - 8) as u32)) as u32);
    let mb: u32 = 1u32 << (b as u32);
    assert((a & !ml) & !ml == a & !ml) by (bit_vector);
    assert((h & !mh) & !mh == h & !mh) by (bit_vector);
    assert((d & !mb) & !mb == d & !mb) by (bit_vector);
}

/// Implemented by the modes whose pins can read the external line back.
/// Output pins keep their input circuitry enabled on this hardware, so
/// both configured modes qualify; a disabled pin does not.
pub trait InputAvailable {

}

impl InputAvailable for Input {

}

impl InputAvailable for Output {

}

impl<M: Mode + InputAvailable> Pin<M> {
    /// The external line reads low. Hardware polarity convention: low is
    /// the inverse of the data-in bit.
    pub fn is_low(&self, regs: &GpioRegisters) -> (r: bool)
        ensures
            r == !regs.din_of(self.pin_id()),
    {
        !self.id.read_din_bit(regs)
    }

    /// The external line reads high: the data-in bit as sampled.
    pub fn is_high(&self, regs: &GpioRegisters) -> (r: bool)
        ensures
            r == regs.din_of(self.pin_id()),
    {
        self.id.read_din_bit(regs)
    }
}

impl Pin<Output> {
    /// Drives the output low by clearing the data-out bit through the
    /// clear-alias region.
    pub fn set_low(&self, regs: &mut GpioRegisters)
        ensures
            !final(regs).dout_of(self.pin_id()),
            final(regs).mode_of(self.pin_id()) == old(regs).mode_of(self.pin_id()),
            final(regs).unchanged_except(*old(regs), self.pin_id()),
    {
        self.id.clear_dout_bit(regs);
    }

    /// Drives the output high by setting the data-out bit through the
    /// set-alias region.
    pub fn set_high(&self, regs: &mut GpioRegisters)
        ensures
            final(regs).dout_of(self.pin_id()),
            final(regs).mode_of(self.pin_id()) == old(regs).mode_of(self.pin_id()),
            final(regs).unchanged_except(*old(regs), self.pin_id()),
    {
        self.id.set_dout_bit(regs);
    }

    /// The drive intent is low: the data-out bit read back, inverted.
    pub fn is_set_low(&self, regs: &GpioRegisters) -> (r: bool)
        ensures
            r == !regs.dout_of(self.pin_id()),
    {
        !self.id.read_dout_bit(regs)
    }

    /// The drive intent is high: the data-out bit read back.
    pub fn is_set_high(&self, regs: &GpioRegisters) -> (r: bool)
        ensures
            r == regs.dout_of(self.pin_id()),
    {
        self.id.read_dout_bit(regs)
    }

    /// Inverts the output through the data-out toggle register: a single
    /// write, safe against concurrent writers of other bits.
    pub fn toggle(&self, regs: &mut GpioRegisters)
        ensures
            final(regs).dout_of(self.pin_id()) == !old(regs).dout_of(self.pin_id()),
            final(regs).mode_of(self.pin_id()) == old(regs).mode_of(self.pin_id()),
            final(regs).unchanged_except(*old(regs), self.pin_id()),
    {
        self.id.write_douttgl_bit(regs);
    }
}

/// The GPIO peripheral itself, before it is split into pins. Stands for
/// exclusive ownership of the GPIO register block; its clock-enable bit
/// sits in HFBUSCLKEN0.
pub struct Gpio;

impl crate::cmu::ClockControlExt for Gpio {
    open spec fn hfbus_mask(&self) -> u32 {
        crate::cmu::HFBUSCLKEN0_GPIO
    }

    open spec fn hfper_mask(&self) -> u32 {
        0
    }

    open spec fn lfa_mask(&self) -> u32 {
        0
    }

    open spec fn lfb_mask(&self) -> u32 {
        0
    }

    open spec fn lfe_mask(&self) -> u32 {
        0
    }

    fn enable_clock(&self, clocks: &mut crate::cmu::Cmu) {
        clocks.regs.hfbusclken0 = clocks.regs.hfbusclken0 | crate::cmu::HFBUSCLKEN0_GPIO;
        proof {
            crate::cmu::lemma_or_zero(clocks.regs.hfperclken0);
            crate::cmu::lemma_or_zero(clocks.regs.lfaclken0);
            crate::cmu::lemma_or_zero(clocks.regs.lfbclken0);
            crate::cmu::lemma_or_zero(clocks.regs.lfeclken0);
        }
    }
}

/// Contains a field for each individual GPIO pin of the package.
pub struct Parts {
    pub pa0: PinBuilder<Floating, NoFilter>,
    pub pa1: PinBuilder<Floating, NoFilter>,
    pub pa2: PinBuilder<Floating, NoFilter>,
    pub pa3: PinBuilder<Floating, NoFilter>,
    pub pa4: PinBuilder<Floating, NoFilter>,
    pub pa5: PinBuilder<Floating, NoFilter>,
    pub pa6: PinBuilder<Floating, NoFilter>,
    pub pa7: PinBuilder<Floating, NoFilter>,
    pub pa8: PinBuilder<Floating, NoFilter>,
    pub pa9: PinBuilder<Floating, NoFilter>,
    pub pb6: PinBuilder<Floating, NoFilter>,
    pub pb7: PinBuilder<Floating, NoFilter>,
    pub pb8: PinBuilder<Floating, NoFilter>,
    pub pb9: PinBuilder<Floating, NoFilter>,
    pub pb10: PinBuilder<Floating, NoFilter>,
    pub pb11: PinBuilder<Floating, NoFilter>,
    pub pb12: PinBuilder<Floating, NoFilter>,
    pub pb13: PinBuilder<Floating, NoFilter>,
    pub pb14: PinBuilder<Floating, NoFilter>,
    pub pb15: PinBuilder<Floating, NoFilter>,
    pub pc0: PinBuilder<Floating, NoFilter>,
    pub pc1: PinBuilder<Floating, NoFilter>,
    pub pc2: PinBuilder<Floating, NoFilter>,
    pub pc3: PinBuilder<Floating, NoFilter>,
    pub pc4: PinBuilder<Floating, NoFilter>,
    pub pc5: PinBuilder<Floating, NoFilter>,
    pub pc6: PinBuilder<Floating, NoFilter>,
    pub pc7: PinBuilder<Floating, NoFilter>,
    pub pc8: PinBuilder<Floating, NoFilter>,
    pub pc9: PinBuilder<Floating, NoFilter>,
    pub pc10: PinBuilder<Floating, NoFilter>,
    pub pc11: PinBuilder<Floating, NoFilter>,
    pub pd8: PinBuilder<Floating, NoFilter>,
    pub pd9: PinBuilder<Floating, NoFilter>,
    pub pd10: PinBuilder<Floating, NoFilter>,
    pub pd11: PinBuilder<Floating, NoFilter>,
    pub pd12: PinBuilder<Floating, NoFilter>,
    pub pd13: PinBuilder<Floating, NoFilter>,
    pub pd14: PinBuilder<Floating, NoFilter>,
    pub pd15: PinBuilder<Floating, NoFilter>,
    pub pf4: PinBuilder<Floating, NoFilter>,
    pub pf5: PinBuilder<Floating, NoFilter>,
    pub pf6: PinBuilder<Floating, NoFilter>,
    pub pf7: PinBuilder<Floating, NoFilter>,
    pub pf8: PinBuilder<Floating, NoFilter>,
    pub pf9: PinBuilder<Floating, NoFilter>,
    pub pf10: PinBuilder<Floating, NoFilter>,
    pub pf11: PinBuilder<Floating, NoFilter>,
    pub pf12: PinBuilder<Floating, NoFilter>,
    pub pf13: PinBuilder<Floating, NoFilter>,
    pub pf14: PinBuilder<Floating, NoFilter>,
    pub pf15: PinBuilder<Floating, NoFilter>,
    pub pi0: PinBuilder<Floating, NoFilter>,
    pub pi1: PinBuilder<Floating, NoFilter>,
    pub pi2: PinBuilder<Floating, NoFilter>,
    pub pi3: PinBuilder<Floating, NoFilter>,
    pub pj14: PinBuilder<Floating, NoFilter>,
    pub pj15: PinBuilder<Floating, NoFilter>,
    pub pk0: PinBuilder<Floating, NoFilter>,
    pub pk1: PinBuilder<Floating, NoFilter>,
    pub pk2: PinBuilder<Floating, NoFilter>,
}

/// The builder owns the pin at `(port, bit)`.
pub open spec fn builder_is(b: PinBuilder<Floating, NoFilter>, port: Port, bit: u8) -> bool {
    b.pin_id().port_spec() == port && b.pin_id().bit_spec() == bit
}

/// Every field of `Parts` owns exactly the physical pin it is named
/// after.
pub open spec fn parts_wf(r: Parts) -> bool {
    &&& builder_is(r.pa0, Port::A, 0)
    &&& builder_is(r.pa1, Port::A, 1)
    &&& builder_is(r.pa2, Port::A, 2)
    &&& builder_is(r.pa3, Port::A, 3)
    &&& builder_is(r.pa4, Port::A, 4)
    &&& builder_is(r.pa5, Port::A, 5)
    &&& builder_is(r.pa6, Port::A, 6)
    &&& builder_is(r.pa7, Port::A, 7)
    &&& builder_is(r.pa8, Port::A, 8)
    &&& builder_is(r.pa9, Port::A, 9)
    &&& builder_is(r.pb6, Port::B, 6)
    &&& builder_is(r.pb7, Port::B, 7)
    &&& builder_is(r.pb8, Port::B, 8)
    &&& builder_is(r.pb9, Port::B, 9)
    &&& builder_is(r.pb10, Port::B, 10)
    &&& builder_is(r.pb11, Port::B, 11)
    &&& builder_is(r.pb12, Port::B, 12)
    &&& builder_is(r.pb13, Port::B, 13)
    &&& builder_is(r.pb14, Port::B, 14)
    &&& builder_is(r.pb15, Port::B, 15)
    &&& builder_is(r.pc0, Port::C, 0)
    &&& builder_is(r.pc1, Port::C, 1)
    &&& builder_is(r.pc2, Port::C, 2)
    &&& builder_is(r.pc3, Port::C, 3)
    &&& builder_is(r.pc4, Port::C, 4)
    &&& builder_is(r.pc5, Port::C, 5)
    &&& builder_is(r.pc6, Port::C, 6)
    &&& builder_is(r.pc7, Port::C, 7)
    &&& builder_is(r.pc8, Port::C, 8)
    &&& builder_is(r.pc9, Port::C, 9)
    &&& builder_is(r.pc10, Port::C, 10)
    &&& builder_is(r.pc11, Port::C, 11)
    &&& builder_is(r.pd8, Port::D, 8)
    &&& builder_is(r.pd9, Port::D, 9)
    &&& builder_is(r.pd10, Port::D, 10)
    &&& builder_is(r.pd11, Port::D, 11)
    &&& builder_is(r.pd12, Port::D, 12)
    &&& builder_is(r.pd13, Port::D, 13)
    &&& builder_is(r.pd14, Port::D, 14)
    &&& builder_is(r.pd15, Port::D, 15)
    &&& builder_is(r.pf4, Port::F, 4)
    &&& builder_is(r.pf5, Port::F, 5)
    &&& builder_is(r.pf6, Port::F, 6)
    &&& builder_is(r.pf7, Port::F, 7)
    &&& builder_is(r.pf8, Port::F, 8)
    &&& builder_is(r.pf9, Port::F, 9)
    &&& builder_is(r.pf10, Port::F, 10)
    &&& builder_is(r.pf11, Port::F, 11)
    &&& builder_is(r.pf12, Port::F, 12)
    &&& builder_is(r.pf13, Port::F, 13)
    &&& builder_is(r.pf14, Port::F, 14)
    &&& builder_is(r.pf15, Port::F, 15)
    &&& builder_is(r.pi0, Port::I, 0)
    &&& builder_is(r.pi1, Port::I, 1)
    &&& builder_is(r.pi2, Port::I, 2)
    &&& builder_is(r.pi3, Port::I, 3)
    &&& builder_is(r.pj14, Port::J, 14)
    &&& builder_is(r.pj15, Port::J, 15)
    &&& builder_is(r.pk0, Port::K, 0)
    &&& builder_is(r.pk1, Port::K, 1)
    &&& builder_is(r.pk2, Port::K, 2)
}

/// Extension trait to split the GPIO register block into individual
/// GPIO pins.
pub trait GpioExt {
    /// Splits the GPIO register block into individual GPIO pins, after
    /// enabling the GPIO bus clock. The GPIO clock is gated once, here,
    /// not per pin.
    fn split(self, cmu: &mut crate::cmu::Cmu) -> (r: Parts)
        ensures
            parts_wf(r),
            final(cmu).regs.hfbusclken0 == old(cmu).regs.hfbusclken0
                | crate::cmu::HFBUSCLKEN0_GPIO,
            final(cmu).regs.hfperclken0 == old(cmu).regs.hfperclken0,
            final(cmu).regs.lfaclken0 == old(cmu).regs.lfaclken0,
            final(cmu).regs.lfbclken0 == old(cmu).regs.lfbclken0,
            final(cmu).regs.lfeclken0 == old(cmu).regs.lfeclken0,
            final(cmu).regs.hfcorepresc == old(cmu).regs.hfcorepresc,
            final(cmu).regs.hfperpresc == old(cmu).regs.hfperpresc,
            final(cmu).hfclk == old(cmu).hfclk,
    ;
}

impl GpioExt for Gpio {
    fn split(self, cmu: &mut crate::cmu::Cmu) -> (r: Parts) {
        cmu.enable_clock(&self);
        proof {
            crate::cmu::lemma_or_zero(old(cmu).regs.hfperclken0);
            crate::cmu::lemma_or_zero(old(cmu).regs.lfaclken0);
            crate::cmu::lemma_or_zero(old(cmu).regs.lfbclken0);
            crate::cmu::lemma_or_zero(old(cmu).regs.lfeclken0);
        }

        Parts {
            pa0: PinBuilder { id: PinId::mk(Port::A, 0), _pull: PhantomData, _filter: PhantomData },
            pa1: PinBuilder { id: PinId::mk(Port::A, 1), _pull: PhantomData, _filter: PhantomData },
            pa2: PinBuilder { id: PinId::mk(Port::A, 2), _pull: PhantomData, _filter: PhantomData },
            pa3: PinBuilder { id: PinId::mk(Port::A, 3), _pull: PhantomData, _filter: PhantomData },
            pa4: PinBuilder { id: PinId::mk(Port::A, 4), _pull: PhantomData, _filter: PhantomData },
            pa5: PinBuilder { id: PinId::mk(Port::A, 5), _pull: PhantomData, _filter: PhantomData },
            pa6: PinBuilder { id: PinId::mk(Port::A, 6), _pull: PhantomData, _filter: PhantomData },
            pa7: PinBuilder { id: PinId::mk(Port::A, 7), _pull: PhantomData, _filter: PhantomData },
            pa8: PinBuilder { id: PinId::mk(Port::A, 8), _pull: PhantomData, _filter: PhantomData },
            pa9: PinBuilder { id: PinId::mk(Port::A, 9), _pull: PhantomData, _filter: PhantomData },
            pb6: PinBuilder { id: PinId::mk(Port::B, 6), _pull: PhantomData, _filter: PhantomData },
            pb7: PinBuilder { id: PinId::mk(Port::B, 7), _pull: PhantomData, _filter: PhantomData },
            pb8: PinBuilder { id: PinId::mk(Port::B, 8), _pull: PhantomData, _filter: PhantomData },
            pb9: PinBuilder { id: PinId::mk(Port::B, 9), _pull: PhantomData, _filter: PhantomData },
            pb10: PinBuilder { id: PinId::mk(Port::B, 10), _pull: PhantomData, _filter: PhantomData },
            pb11: PinBuilder { id: PinId::mk(Port::B, 11), _pull: PhantomData, _filter: PhantomData },
            pb12: PinBuilder { id: PinId::mk(Port::B, 12), _pull: PhantomData, _filter: PhantomData },
            pb13: PinBuilder { id: PinId::mk(Port::B, 13), _pull: PhantomData, _filter: PhantomData },
            pb14: PinBuilder { id: PinId::mk(Port::B, 14), _pull: PhantomData, _filter: PhantomData },
            pb15: PinBuilder { id: PinId::mk(Port::B, 15), _pull: PhantomData, _filter: PhantomData },
            pc0: PinBuilder { id: PinId::mk(Port::C, 0), _pull: PhantomData, _filter: PhantomData },
            pc1: PinBuilder { id: PinId::mk(Port::C, 1), _pull: PhantomData, _filter: PhantomData },
            pc2: PinBuilder { id: PinId::mk(Port::C, 2), _pull: PhantomData, _filter: PhantomData },
            pc3: PinBuilder { id: PinId::mk(Port::C, 3), _pull: PhantomData, _filter: PhantomData },
            pc4: PinBuilder { id: PinId::mk(Port::C, 4), _pull: PhantomData, _filter: PhantomData },
            pc5: PinBuilder { id: PinId::mk(Port::C, 5), _pull: PhantomData, _filter: PhantomData },
            pc6: PinBuilder { id: PinId::mk(Port::C, 6), _pull: PhantomData, _filter: PhantomData },
            pc7: PinBuilder { id: PinId::mk(Port::C, 7), _pull: PhantomData, _filter: PhantomData },
            pc8: PinBuilder { id: PinId::mk(Port::C, 8), _pull: PhantomData, _filter: PhantomData },
            pc9: PinBuilder { id: PinId::mk(Port::C, 9), _pull: PhantomData, _filter: PhantomData },
            pc10: PinBuilder { id: PinId::mk(Port::C, 10), _pull: PhantomData, _filter: PhantomData },
            pc11: PinBuilder { id: PinId::mk(Port::C, 11), _pull: PhantomData, _filter: PhantomData },
            pd8: PinBuilder { id: PinId::mk(Port::D, 8), _pull: PhantomData, _filter: PhantomData },
            pd9: PinBuilder { id: PinId::mk(Port::D, 9), _pull: PhantomData, _filter: PhantomData },
            pd10: PinBuilder { id: PinId::mk(Port::D, 10), _pull: PhantomData, _filter: PhantomData },
            pd11: PinBuilder { id: PinId::mk(Port::D, 11), _pull: PhantomData, _filter: PhantomData },
            pd12: PinBuilder { id: PinId::mk(Port::D, 12), _pull: PhantomData, _filter: PhantomData },
            pd13: PinBuilder { id: PinId::mk(Port::D, 13), _pull: PhantomData, _filter: PhantomData },
            pd14: PinBuilder { id: PinId::mk(Port::D, 14), _pull: PhantomData, _filter: PhantomData },
            pd15: PinBuilder { id: PinId::mk(Port::D, 15), _pull: PhantomData, _filter: PhantomData },
            pf4: PinBuilder { id: PinId::mk(Port::F, 4), _pull: PhantomData, _filter: PhantomData },
            pf5: PinBuilder { id: PinId::mk(Port::F, 5), _pull: PhantomData, _filter: PhantomData },
            pf6: PinBuilder { id: PinId::mk(Port::F, 6), _pull: PhantomData, _filter: PhantomData },
            pf7: PinBuilder { id: PinId::mk(Port::F, 7), _pull: PhantomData, _filter: PhantomData },
            pf8: PinBuilder { id: PinId::mk(Port::F, 8), _pull: PhantomData, _filter: PhantomData },
            pf9: PinBuilder { id: PinId::mk(Port::F, 9), _pull: PhantomData, _filter: PhantomData },
            pf10: PinBuilder { id: PinId::mk(Port::F, 10), _pull: PhantomData, _filter: PhantomData },
            pf11: PinBuilder { id: PinId::mk(Port::F, 11), _pull: PhantomData, _filter: PhantomData },
            pf12: PinBuilder { id: PinId::mk(Port::F, 12), _pull: PhantomData, _filter: PhantomData },
            pf13: PinBuilder { id: PinId::mk(Port::F, 13), _pull: PhantomData, _filter: PhantomData },
            pf14: PinBuilder { id: PinId::mk(Port::F, 14), _pull: PhantomData, _filter: PhantomData },
            pf15: PinBuilder { id: PinId::mk(Port::F, 15), _pull: PhantomData, _filter: PhantomData },
            pi0: PinBuilder { id: PinId::mk(Port::I, 0), _pull: PhantomData, _filter: PhantomData },
            pi1: PinBuilder { id: PinId::mk(Port::I, 1), _pull: PhantomData, _filter: PhantomData },
            pi2: PinBuilder { id: PinId::mk(Port::I, 2), _pull: PhantomData, _filter: PhantomData },
            pi3: PinBuilder { id: PinId::mk(Port::I, 3), _pull: PhantomData, _filter: PhantomData },
            pj14: PinBuilder { id: PinId::mk(Port::J, 14), _pull: PhantomData, _filter: PhantomData },
            pj15: PinBuilder { id: PinId::mk(Port::J, 15), _pull: PhantomData, _filter: PhantomData },
            pk0: PinBuilder { id: PinId::mk(Port::K, 0), _pull: PhantomData, _filter: PhantomData },
            pk1: PinBuilder { id: PinId::mk(Port::K, 1), _pull: PhantomData, _filter: PhantomData },
            pk2: PinBuilder { id: PinId::mk(Port::K, 2), _pull: PhantomData, _filter: PhantomData },
        }
    }
}

} // verus!
