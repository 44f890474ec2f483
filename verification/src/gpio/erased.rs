//! Pins whose port and number are held at run time.
use vstd::prelude::*;
use core::marker::PhantomData;
use crate::gpio::{
    GpioEffect, Output, PinExt, PinId, PinState, PortId, Readable, Pin, pin_input_is_high,
    pin_output_is_high, pin_set_state, pin_toggle_state, spec_pcl_ps_bits, spec_pin_bit,
    spec_state_bits,
};

verus! {

/// A pin whose port and number are held at run time.
pub struct ErasedPin<MODE> {
    pub pin: PinId,
    pub port: PortId,
    pub _mode: PhantomData<MODE>,
}

/// Short name of [`ErasedPin`].
pub type EPin<MODE> = ErasedPin<MODE>;

/// Offset between the register blocks of consecutive ports.
pub const PORT_REGISTER_OFFSET: u32 = 0x100;

/// Whether `e` may be restored as pin `pin` of port `port`: it is that pin.
pub open spec fn restore_allowed<MODE>(e: ErasedPin<MODE>, port: u8, pin: u8) -> bool {
    e.port.0 == port && e.pin.0 == pin
}

/// A pin erased from pin `pin` of port `port` (as [`Pin::erase`] gives it)
/// can be restored as that pin, and as no other.
pub proof fn lemma_erase_then_restore<MODE>(e: ErasedPin<MODE>, port: u8, pin: u8, port2: u8, pin2: u8)
    requires
        e.port.0 == port,
        e.pin.0 == pin,
    ensures
        restore_allowed(e, port, pin),
        (port2 != port || pin2 != pin) ==> !restore_allowed(e, port2, pin2),
{
}

impl<MODE> ErasedPin<MODE> {
    /// Pin `pin` of port `port`.
    pub fn new(port: PortId, pin: PinId) -> (r: Self)
        ensures
            r.port.0 == port.0,
            r.pin.0 == pin.0,
    {
        ErasedPin { port, pin, _mode: PhantomData }
    }

    /// The pin with its port and number in the type again; they must be `P`
    /// and `N`.
    pub fn restore<const P: u8, const N: u8>(self) -> Pin<P, N, MODE>
        requires
            restore_allowed(self, P, N),
    {
        Pin::new()
    }

    /// Offset of the pin's port register block from that of port 00.
    pub fn block_offset(&self) -> (r: u32)
        ensures
            r == PORT_REGISTER_OFFSET * self.port.0,
    {
        PORT_REGISTER_OFFSET * (self.port.0 as u32)
    }
}

impl<MODE> PinExt for ErasedPin<MODE> {
    type Mode = MODE;

    fn pin_id(&self) -> (r: PinId)
        ensures
            r.0 == self.pin.0,
    {
        self.pin
    }

    fn port_id(&self) -> (r: PortId)
        ensures
            r.0 == self.port.0,
    {
        self.port
    }
}

impl<MODE> ErasedPin<Output<MODE>> {
    /// Drives the pin high.
    pub fn set_high(&mut self) -> (r: GpioEffect)
        requires
            old(self).pin.0 < 32,
        ensures
            r == (GpioEffect::Omr {
                port: old(self).port.0,
                raw: spec_state_bits(old(self).pin.0, PinState::High),
            }),
    {
        self.set_state(PinState::High)
    }

    /// Drives the pin low.
    pub fn set_low(&mut self) -> (r: GpioEffect)
        requires
            old(self).pin.0 < 32,
        ensures
            r == (GpioEffect::Omr {
                port: old(self).port.0,
                raw: spec_state_bits(old(self).pin.0, PinState::Low),
            }),
    {
        self.set_state(PinState::Low)
    }

    /// The level the pin is driven to, given the port's OUT value.
    pub fn get_state(&self, output: u32) -> (r: PinState)
        ensures
            r == (if spec_pin_bit(output, self.pin.0) { PinState::High } else { PinState::Low }),
    {
        if self._is_set_low(output) {
            PinState::Low
        } else {
            PinState::High
        }
    }

    /// Drives the pin to `state`.
    pub fn set_state(&mut self, state: PinState) -> (r: GpioEffect)
        requires
            old(self).pin.0 < 32,
        ensures
            r == (GpioEffect::Omr { port: old(self).port.0, raw: spec_state_bits(old(self).pin.0, state) }),
            final(self).pin.0 == old(self).pin.0,
            final(self).port.0 == old(self).port.0,
    {
        pin_set_state(self.port.0, self.pin, state)
    }

    /// Whether the pin is driven high, given the port's OUT value.
    pub fn _is_set_high(&self, output: u32) -> (r: bool)
        ensures
            r == spec_pin_bit(output, self.pin.0),
    {
        pin_output_is_high(output, self.pin)
    }

    /// Whether the pin is driven low, given the port's OUT value.
    pub fn _is_set_low(&self, output: u32) -> (r: bool)
        ensures
            r == !spec_pin_bit(output, self.pin.0),
    {
        !self._is_set_high(output)
    }

    /// Toggles the pin.
    pub fn toggle(&mut self) -> (r: GpioEffect)
        requires
            old(self).pin.0 < 32,
        ensures
            r == (GpioEffect::Omr {
                port: old(self).port.0,
                raw: spec_pcl_ps_bits(1, 1, old(self).pin.0 as u32),
            }),
    {
        pin_toggle_state(self.port.0, self.pin)
    }
}

impl<MODE: Readable> ErasedPin<MODE> {
    /// Whether the pin reads high, given the port's IN value.
    pub fn is_high(&self, input: u32) -> (r: bool)
        ensures
            r == spec_pin_bit(input, self.pin.0),
    {
        pin_input_is_high(input, self.pin)
    }

    /// Whether the pin reads low, given the port's IN value.
    pub fn is_low(&self, input: u32) -> (r: bool)
        ensures
            r == !spec_pin_bit(input, self.pin.0),
    {
        !self.is_high(input)
    }
}

} // verus!
