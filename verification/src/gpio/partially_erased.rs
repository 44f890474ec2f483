//! Pins whose number is held at run time; the port stays in the type.
use vstd::prelude::*;
use core::marker::PhantomData;
use vstd::std_specs::convert::FromSpecImpl;
use crate::gpio::{
    ErasedPin, GpioEffect, Output, PinExt, PinId, PinState, PortId, Readable, Pin,
    pin_input_is_high, pin_output_is_high, pin_set_state, pin_toggle_state, spec_pcl_ps_bits,
    spec_pin_bit, spec_state_bits,
};

verus! {

/// A pin of port `P` whose number is held at run time.
pub struct PartiallyErasedPin<const P: u8, MODE> {
    pub pin: PinId,
    pub _mode: PhantomData<MODE>,
}

/// Short name of [`PartiallyErasedPin`].
pub type PEPin<const P: u8, MODE> = PartiallyErasedPin<P, MODE>;

/// Whether `e` may be restored as pin `pin` of its port: it is that pin.
pub open spec fn number_restore_allowed<const P: u8, MODE>(e: PartiallyErasedPin<P, MODE>, pin: u8) -> bool {
    e.pin.0 == pin
}

/// A pin erased from pin `pin` (as [`Pin::erase_number`] gives it) can be
/// restored as that pin, and as no other.
pub proof fn lemma_erase_number_then_restore<const P: u8, MODE>(
    e: PartiallyErasedPin<P, MODE>,
    pin: u8,
    pin2: u8,
)
    requires
        e.pin.0 == pin,
    ensures
        number_restore_allowed(e, pin),
        pin2 != pin ==> !number_restore_allowed(e, pin2),
{
}

impl<const P: u8, MODE> PartiallyErasedPin<P, MODE> {
    /// Pin `i` of port `P`.
    pub fn new(i: PinId) -> (r: Self)
        ensures
            r.pin.0 == i.0,
    {
        PartiallyErasedPin { pin: i, _mode: PhantomData }
    }

    /// The pin with its number in the type again; the number must be `N`.
    pub fn restore<const N: u8>(self) -> Pin<P, N, MODE>
        requires
            number_restore_allowed(self, N),
    {
        Pin::new()
    }
}

impl<const P: u8, MODE> PinExt for PartiallyErasedPin<P, MODE> {
    type Mode = MODE;

    fn pin_id(&self) -> (r: PinId)
        ensures
            r.0 == self.pin.0,
    {
        self.pin
    }

    fn port_id(&self) -> (r: PortId)
        ensures
            r.0 == P,
    {
        PortId(P)
    }
}

impl<const P: u8, MODE> PartiallyErasedPin<P, Output<MODE>> {
    /// Drives the pin high.
    pub fn set_high(&mut self) -> (r: GpioEffect)
        requires
            old(self).pin.0 < 32,
        ensures
            r == (GpioEffect::Omr { port: P, raw: spec_state_bits(old(self).pin.0, PinState::High) }),
    {
        self.set_state(PinState::High)
    }

    /// Drives the pin low.
    pub fn set_low(&mut self) -> (r: GpioEffect)
        requires
            old(self).pin.0 < 32,
        ensures
            r == (GpioEffect::Omr { port: P, raw: spec_state_bits(old(self).pin.0, PinState::Low) }),
    {
        self.set_state(PinState::Low)
    }

    /// The level the pin is driven to, given the port's OUT value.
    pub fn _get_state(&self, output: u32) -> (r: PinState)
        ensures
            r == (if spec_pin_bit(output, self.pin.0) { PinState::High } else { PinState::Low }),
    {
        if self._is_set_low(output) {
            PinState::Low
        } else {
            PinState::High
        }
    }

    /// Drives the pin to `state`.
    pub fn set_state(&mut self, state: PinState) -> (r: GpioEffect)
        requires
            old(self).pin.0 < 32,
        ensures
            r == (GpioEffect::Omr { port: P, raw: spec_state_bits(old(self).pin.0, state) }),
            final(self).pin.0 == old(self).pin.0,
    {
        pin_set_state(P, self.pin, state)
    }

    /// Whether the pin is driven high, given the port's OUT value.
    pub fn _is_set_high(&self, output: u32) -> (r: bool)
        ensures
            r == spec_pin_bit(output, self.pin.0),
    {
        pin_output_is_high(output, self.pin)
    }

    /// Whether the pin is driven low, given the port's OUT value.
    pub fn _is_set_low(&self, output: u32) -> (r: bool)
        ensures
            r == !spec_pin_bit(output, self.pin.0),
    {
        !self._is_set_high(output)
    }

    /// Toggles the pin.
    pub fn toggle(&mut self) -> (r: GpioEffect)
        requires
            old(self).pin.0 < 32,
        ensures
            r == (GpioEffect::Omr { port: P, raw: spec_pcl_ps_bits(1, 1, old(self).pin.0 as u32) }),
    {
        pin_toggle_state(P, self.pin)
    }
}

impl<const P: u8, MODE: Readable> PartiallyErasedPin<P, MODE> {
    /// Whether the pin reads high, given the port's IN value.
    pub fn is_high(&self, input: u32) -> (r: bool)
        ensures
            r == spec_pin_bit(input, self.pin.0),
    {
        pin_input_is_high(input, self.pin)
    }

    /// Whether the pin reads low, given the port's IN value.
    pub fn is_low(&self, input: u32) -> (r: bool)
        ensures
            r == !spec_pin_bit(input, self.pin.0),
    {
        !self.is_high(input)
    }
}

impl<const P: u8, MODE> From<PartiallyErasedPin<P, MODE>> for ErasedPin<MODE> {
    fn from(p: PartiallyErasedPin<P, MODE>) -> (r: Self) {
        ErasedPin::new(PortId(P), p.pin)
    }
}

impl<const P: u8, MODE> FromSpecImpl<PartiallyErasedPin<P, MODE>> for ErasedPin<MODE> {
    open spec fn obeys_from_spec() -> bool {
        true
    }

    open spec fn from_spec(p: PartiallyErasedPin<P, MODE>) -> ErasedPin<MODE> {
        ErasedPin { pin: p.pin, port: PortId(P), _mode: PhantomData }
    }
}

} // verus!
