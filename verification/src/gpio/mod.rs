//! General purpose input/output.
//!
//! Pins are grouped in ports of 16. A pin's port and number are in its type
//! ([`Pin`]), or held at run time once erased ([`PartiallyErasedPin`],
//! [`ErasedPin`]); its mode is a type state. An operation on a pin returns the
//! register access ([`GpioEffect`]) that performs it; reading a pin takes the
//! value of the port's input (IN) or output (OUT) register.
pub mod convert;
pub mod erased;
pub mod group;
pub mod partially_erased;

use vstd::prelude::*;
use core::marker::PhantomData;
use vstd::std_specs::convert::FromSpecImpl;

pub use convert::PinMode;
pub use erased::ErasedPin;
pub use partially_erased::PartiallyErasedPin;

verus! {

/// Level of an output pin.
#[derive(Clone, Copy, PartialEq, Eq, Structural, Debug)]
pub enum PinState {
    Low,
    High,
}

/// A register access on a GPIO port.
#[derive(Clone, Copy, PartialEq, Eq, Structural, Debug)]
pub enum GpioEffect {
    /// The output modification register (OMR) of port `port` written with
    /// `raw`: bit `n` drives pin `n` high, bit `n + 16` drives it low, both
    /// toggle it.
    Omr { port: u8, raw: u32 },
    /// Input/output control register `index` (IOCR0, IOCR4, IOCR8, IOCR12)
    /// of port `port`: the bits of `mask` replaced by those of `value`.
    Iocr { port: u8, index: u8, value: u32, mask: u32 },
    /// Pad driver mode register `index` (PDR0, PDR1) of port `port`: the bits
    /// of `mask` replaced by those of `value`. The register is protected by
    /// the CPU end-of-init bit.
    Pdr { port: u8, index: u8, value: u32, mask: u32 },
}

/// A filler pin type.
#[derive(Debug)]
pub struct NoPin<Otype = PushPull>(pub PhantomData<Otype>);

impl<Otype> NoPin<Otype> {
    /// The filler pin.
    pub fn new() -> Self {
        NoPin(PhantomData)
    }
}

/// Splits a GPIO port into its pins.
pub trait GpioExt {
    /// The pins of the port.
    type Parts;

    /// The pins of the port, each in its reset mode.
    fn split(self) -> Self::Parts;
}

/// Number of a pin in its port.
#[derive(Clone, Copy, Debug)]
pub struct PinId(pub u8);

/// Number of a port.
#[derive(Clone, Copy, Debug)]
pub struct PortId(pub u8);

/// Port, number and mode of a pin.
pub trait PinExt {
    /// Current pin mode.
    type Mode;

    /// Pin number.
    fn pin_id(&self) -> PinId;

    /// Port number.
    fn port_id(&self) -> PortId;
}

/// Alternate function `A` (type state).
#[derive(Debug)]
pub struct Alternate<const A: u8, Otype = PushPull>(pub PhantomData<Otype>);

/// Input mode (type state).
#[derive(Debug)]
pub struct Input;

/// Pull device of an input.
#[derive(Clone, Copy, Debug, PartialEq, Eq, Structural)]
pub enum Pull {
    /// No pull device (floating).
    NoPull,
    /// Pulled up.
    Up,
    /// Pulled down.
    Down,
}

/// Open drain input or output (type state).
#[derive(Debug)]
pub struct OpenDrain;

/// Output mode (type state).
#[derive(Debug)]
pub struct Output<MODE = PushPull> {
    pub _mode: PhantomData<MODE>,
}

/// Push-pull output (type state).
#[derive(Debug)]
pub struct PushPull;

/// Analog mode (type state).
#[derive(Debug)]
pub struct Analog;

/// Debug port mode (type state).
pub type Debugger = Alternate<0, PushPull>;

/// Modes of a pin that can raise an interrupt.
pub trait Interruptible {
}

/// Modes of a pin whose level can be read.
pub trait Readable {
}

/// Modes of a pin whose slew rate can be configured.
pub trait OutputSpeed {
}

/// Active modes of a pin.
pub trait Active {
}

/// Every mode but the alternate functions.
pub trait NotAlt {
}

/// Pins that alternate function `A` can drive.
pub trait IntoAf<const A: u8> {
}

impl<MODE> Interruptible for Output<MODE> {
}

impl Interruptible for Input {
}

impl Readable for Input {
}

impl Readable for Output<OpenDrain> {
}

impl<const A: u8, Otype> Interruptible for Alternate<A, Otype> {
}

impl<const A: u8, Otype> Readable for Alternate<A, Otype> {
}

impl Active for Input {
}

impl<Otype> OutputSpeed for Output<Otype> {
}

impl<const A: u8, Otype> OutputSpeed for Alternate<A, Otype> {
}

impl<Otype> Active for Output<Otype> {
}

impl<const A: u8, Otype> Active for Alternate<A, Otype> {
}

impl NotAlt for Input {
}

impl<Otype> NotAlt for Output<Otype> {
}

impl NotAlt for Analog {
}

/// Slew rate of an output.
#[derive(Debug, PartialEq, Eq, Structural, Clone, Copy)]
pub enum Speed {
    Low,
    Medium,
    High,
    VeryHigh,
}

/// Speed grade of a pad driver for `speed` (bits 1..0 of the pin's PDR
/// field): speed grade 1, the fastest, is 0; speed grade 4 is 3.
pub open spec fn speed_grade(speed: Speed) -> u32 {
    match speed {
        Speed::VeryHigh => 0,
        Speed::High => 1,
        Speed::Medium => 2,
        Speed::Low => 3,
    }
}

/// The PDR access that sets the speed grade of pin `pin` of port `port`: the
/// two low bits of the pin's field (4 bits at `4 * (pin % 8)` of PDR
/// `pin / 8`) take the speed grade; the level selection bits stay.
pub open spec fn spec_speed_effect(port: u8, pin: u8, speed: Speed) -> GpioEffect {
    let shift = ((pin % 8) * 4) as u32;
    GpioEffect::Pdr { port, index: pin / 8, value: speed_grade(speed) << shift, mask: 3u32 << shift }
}

/// Edge that triggers a pin interrupt.
#[derive(Debug, PartialEq, Eq, Structural, Clone, Copy)]
pub enum Edge {
    Rising,
    Falling,
    RisingFalling,
}

/// Alternate function 0 (type state).
pub type AF0<Otype = PushPull> = Alternate<0, Otype>;
/// Alternate function 1 (type state).
pub type AF1<Otype = PushPull> = Alternate<1, Otype>;
/// Alternate function 2 (type state).
pub type AF2<Otype = PushPull> = Alternate<2, Otype>;
/// Alternate function 3 (type state).
pub type AF3<Otype = PushPull> = Alternate<3, Otype>;
/// Alternate function 4 (type state).
pub type AF4<Otype = PushPull> = Alternate<4, Otype>;
/// Alternate function 5 (type state).
pub type AF5<Otype = PushPull> = Alternate<5, Otype>;
/// Alternate function 6 (type state).
pub type AF6<Otype = PushPull> = Alternate<6, Otype>;
/// Alternate function 7 (type state).
pub type AF7<Otype = PushPull> = Alternate<7, Otype>;

/// Mode of a pin out of reset.
pub type DefaultMode = Input;

/// Pin `N` of port `P` in mode `MODE`.
pub struct Pin<const P: u8, const N: u8, MODE = Input> {
    pub _mode: PhantomData<MODE>,
}

/// OMR value that sets the clear bit (`pclx`) and the set bit (`psx`) of pin
/// `pin`.
pub open spec fn spec_pcl_ps_bits(pclx: u32, psx: u32, pin: u32) -> u32 {
    ((pclx << 16u32) | psx) << pin
}

/// OMR value that sets the clear bit (`pclx`) and the set bit (`psx`) of pin
/// `pin`.
pub fn pcl_ps_bits(pclx: u32, psx: u32, pin: u32) -> (r: u32)
    requires
        pin < 32,
    ensures
        r == spec_pcl_ps_bits(pclx, psx, pin),
{
    ((pclx << 16) | psx) << pin
}

/// `(clear, set)` bits for a level: low clears, high sets.
pub open spec fn spec_pcl_ps_from_state(state: PinState) -> (u32, u32) {
    match state {
        PinState::Low => (1, 0),
        PinState::High => (0, 1),
    }
}

/// `(clear, set)` bits for a level.
pub fn pcl_ps_from_state(state: PinState) -> (r: (u32, u32))
    ensures
        r == spec_pcl_ps_from_state(state),
{
    match state {
        PinState::Low => (1, 0),
        PinState::High => (0, 1),
    }
}

/// OMR value that drives pin `pin` to `state`.
pub open spec fn spec_state_bits(pin: u8, state: PinState) -> u32 {
    spec_pcl_ps_bits(spec_pcl_ps_from_state(state).0, spec_pcl_ps_from_state(state).1, pin as u32)
}

/// The OMR write of port `port` that drives pin `pin` to `state`.
pub fn pin_set_state(port: u8, pin: PinId, state: PinState) -> (r: GpioEffect)
    requires
        pin.0 < 32,
    ensures
        r == (GpioEffect::Omr { port, raw: spec_state_bits(pin.0, state) }),
{
    let (pclx, psx) = pcl_ps_from_state(state);
    let raw = pcl_ps_bits(pclx, psx, pin.0 as u32);
    GpioEffect::Omr { port, raw }
}

/// The OMR write of port `port` that toggles pin `pin`.
pub fn pin_toggle_state(port: u8, pin: PinId) -> (r: GpioEffect)
    requires
        pin.0 < 32,
    ensures
        r == (GpioEffect::Omr { port, raw: spec_pcl_ps_bits(1, 1, pin.0 as u32) }),
{
    let raw = pcl_ps_bits(1, 1, pin.0 as u32);
    GpioEffect::Omr { port, raw }
}

/// Bit `pin` of a port register; pins above 15 read as low.
pub open spec fn spec_pin_bit(value: u32, pin: u8) -> bool {
    pin < 16 && (value >> pin) & 1 == 1
}

/// Whether pin `pin` reads high, given the port's IN value.
pub fn pin_input_is_high(input: u32, pin: PinId) -> (r: bool)
    ensures
        r == spec_pin_bit(input, pin.0),
{
    pin.0 < 16 && (input >> pin.0) & 1 == 1
}

/// Whether pin `pin` is driven high, given the port's OUT value.
pub fn pin_output_is_high(output: u32, pin: PinId) -> (r: bool)
    ensures
        r == spec_pin_bit(output, pin.0),
{
    pin.0 < 16 && (output >> pin.0) & 1 == 1
}

/// Value of the port control field (PCx, 5 bits at bit 3 of the pin's byte
/// of IOCR) for a pull device: no pull 0, pull-down 1, pull-up 2.
pub open spec fn pull_code(resistor: Pull) -> u32 {
    match resistor {
        Pull::NoPull => 0,
        Pull::Up => 2,
        Pull::Down => 1,
    }
}

/// IOCR access that sets the pull device of pin `pin` of port `port`.
pub open spec fn spec_resistor_effect(port: u8, pin: u8, resistor: Pull) -> GpioEffect {
    let shift = (3 + 8 * (pin % 4)) as u32;
    GpioEffect::Iocr {
        port,
        index: pin / 4,
        value: pull_code(resistor) << shift,
        mask: 0x1Fu32 << shift,
    }
}

/// IOCR access that sets the pull device of pin `pin` of port `port`.
pub fn resistor_effect(port: u8, pin: u8, resistor: Pull) -> (r: GpioEffect)
    requires
        pin < 16,
    ensures
        r == spec_resistor_effect(port, pin, resistor),
{
    let mode: u32 = match resistor {
        Pull::NoPull => 0,
        Pull::Up => 2,
        Pull::Down => 1,
    };
    let shift: u32 = 3 + 8 * ((pin % 4) as u32);
    GpioEffect::Iocr { port, index: pin / 4, value: mode << shift, mask: 0x1Fu32 << shift }
}

impl<const P: u8, const N: u8, MODE> Pin<P, N, MODE> {
    /// Pin `N` of port `P`.
    pub fn new() -> Self {
        Pin { _mode: PhantomData }
    }

    /// The pin with its number erased from the type.
    pub fn erase_number(self) -> (r: PartiallyErasedPin<P, MODE>)
        ensures
            r.pin.0 == N,
    {
        PartiallyErasedPin::new(PinId(N))
    }

    /// The pin with its port and number erased from the type.
    pub fn erase(self) -> (r: ErasedPin<MODE>)
        ensures
            r.port.0 == P,
            r.pin.0 == N,
    {
        ErasedPin::new(PortId(P), PinId(N))
    }

    /// Drives the pin to `state` whatever its mode (used before the pin
    /// becomes an output, to avoid a spike).
    pub fn _set_state(&mut self, state: PinState) -> (r: GpioEffect)
        requires
            N < 32,
        ensures
            r == (GpioEffect::Omr { port: P, raw: spec_state_bits(N, state) }),
    {
        pin_set_state(P, PinId(N), state)
    }

    /// Drives the pin high whatever its mode.
    pub fn _set_high(&mut self) -> (r: GpioEffect)
        requires
            N < 32,
        ensures
            r == (GpioEffect::Omr { port: P, raw: spec_state_bits(N, PinState::High) }),
    {
        self._set_state(PinState::High)
    }

    /// Drives the pin low whatever its mode.
    pub fn _set_low(&mut self) -> (r: GpioEffect)
        requires
            N < 32,
        ensures
            r == (GpioEffect::Omr { port: P, raw: spec_state_bits(N, PinState::Low) }),
    {
        self._set_state(PinState::Low)
    }

    /// Whether the pin reads high, given the port's IN value.
    pub fn _is_high(&self, input: u32) -> (r: bool)
        ensures
            r == spec_pin_bit(input, N),
    {
        pin_input_is_high(input, PinId(N))
    }

    /// Whether the pin is driven high, given the port's OUT value.
    pub fn _is_set_high(&self, output: u32) -> (r: bool)
        ensures
            r == spec_pin_bit(output, N),
    {
        pin_output_is_high(output, PinId(N))
    }

    /// Toggles the pin whatever its mode.
    pub fn _toggle(&mut self) -> (r: GpioEffect)
        requires
            N < 32,
        ensures
            r == (GpioEffect::Omr { port: P, raw: spec_pcl_ps_bits(1, 1, N as u32) }),
    {
        pin_toggle_state(P, PinId(N))
    }
}

impl<const P: u8, const N: u8, MODE> From<Pin<P, N, MODE>> for PartiallyErasedPin<P, MODE> {
    fn from(p: Pin<P, N, MODE>) -> (r: Self) {
        p.erase_number()
    }
}

impl<const P: u8, const N: u8, MODE> FromSpecImpl<Pin<P, N, MODE>> for PartiallyErasedPin<P, MODE> {
    open spec fn obeys_from_spec() -> bool {
        true
    }

    open spec fn from_spec(p: Pin<P, N, MODE>) -> PartiallyErasedPin<P, MODE> {
        PartiallyErasedPin { pin: PinId(N), _mode: PhantomData }
    }
}

impl<const P: u8, const N: u8, MODE> From<Pin<P, N, MODE>> for ErasedPin<MODE> {
    fn from(p: Pin<P, N, MODE>) -> (r: Self) {
        p.erase()
    }
}

impl<const P: u8, const N: u8, MODE> FromSpecImpl<Pin<P, N, MODE>> for ErasedPin<MODE> {
    open spec fn obeys_from_spec() -> bool {
        true
    }

    open spec fn from_spec(p: Pin<P, N, MODE>) -> ErasedPin<MODE> {
        ErasedPin { pin: PinId(N), port: PortId(P), _mode: PhantomData }
    }
}

impl<const P: u8, const N: u8, MODE> PinExt for Pin<P, N, MODE> {
    type Mode = MODE;

    fn pin_id(&self) -> (r: PinId)
        ensures
            r.0 == N,
    {
        PinId(N)
    }

    fn port_id(&self) -> (r: PortId)
        ensures
            r.0 == P,
    {
        PortId(P)
    }
}

impl<const P: u8, const N: u8, MODE: OutputSpeed> Pin<P, N, MODE> {
    /// Sets the pin speed: the speed grade of the pin's pad driver.
    pub fn set_speed(&mut self, speed: Speed) -> (r: GpioEffect)
        ensures
            r == spec_speed_effect(P, N, speed),
    {
        let grade: u32 = match speed {
            Speed::VeryHigh => 0,
            Speed::High => 1,
            Speed::Medium => 2,
            Speed::Low => 3,
        };
        let shift: u32 = ((N % 8) as u32) * 4;
        GpioEffect::Pdr { port: P, index: N / 8, value: grade << shift, mask: 3u32 << shift }
    }

    /// The pin with its speed set, and the access that sets it.
    pub fn speed(self, speed: Speed) -> (r: (Self, GpioEffect))
        ensures
            r.1 == spec_speed_effect(P, N, speed),
    {
        let mut pin = self;
        let e = pin.set_speed(speed);
        (pin, e)
    }
}

impl<const P: u8, const N: u8, MODE: Active> Pin<P, N, MODE> {
    /// Sets the internal pull-up or pull-down resistor.
    pub fn set_internal_resistor(&mut self, resistor: Pull) -> (r: GpioEffect)
        requires
            N < 16,
        ensures
            r == spec_resistor_effect(P, N, resistor),
    {
        resistor_effect(P, N, resistor)
    }

    /// The pin with its internal resistor set.
    pub fn internal_resistor(self, resistor: Pull) -> (r: (Self, GpioEffect))
        requires
            N < 16,
        ensures
            r.1 == spec_resistor_effect(P, N, resistor),
    {
        let mut pin = self;
        let e = pin.set_internal_resistor(resistor);
        (pin, e)
    }

    /// The pin with its pull-up enabled (`on`) or no pull device.
    pub fn internal_pull_up(self, on: bool) -> (r: (Self, GpioEffect))
        requires
            N < 16,
        ensures
            r.1 == spec_resistor_effect(P, N, if on { Pull::Up } else { Pull::NoPull }),
    {
        if on {
            self.internal_resistor(Pull::Up)
        } else {
            self.internal_resistor(Pull::NoPull)
        }
    }

    /// The pin with its pull-down enabled (`on`) or no pull device.
    pub fn internal_pull_down(self, on: bool) -> (r: (Self, GpioEffect))
        requires
            N < 16,
        ensures
            r.1 == spec_resistor_effect(P, N, if on { Pull::Down } else { Pull::NoPull }),
    {
        if on {
            self.internal_resistor(Pull::Down)
        } else {
            self.internal_resistor(Pull::NoPull)
        }
    }
}

impl<const P: u8, const N: u8, MODE> Pin<P, N, Output<MODE>> {
    /// Drives the pin high.
    pub fn set_high(&mut self) -> (r: GpioEffect)
        requires
            N < 32,
        ensures
            r == (GpioEffect::Omr { port: P, raw: spec_state_bits(N, PinState::High) }),
    {
        self._set_high()
    }

    /// Drives the pin low.
    pub fn set_low(&mut self) -> (r: GpioEffect)
        requires
            N < 32,
        ensures
            r == (GpioEffect::Omr { port: P, raw: spec_state_bits(N, PinState::Low) }),
    {
        self._set_low()
    }

    /// The level the pin is driven to, given the port's OUT value.
    pub fn get_state(&self, output: u32) -> (r: PinState)
        ensures
            r == (if spec_pin_bit(output, N) { PinState::High } else { PinState::Low }),
    {
        if self._is_set_high(output) {
            PinState::High
        } else {
            PinState::Low
        }
    }

    /// Drives the pin to `state`.
    pub fn set_state(&mut self, state: PinState) -> (r: GpioEffect)
        requires
            N < 32,
        ensures
            r == (GpioEffect::Omr { port: P, raw: spec_state_bits(N, state) }),
    {
        self._set_state(state)
    }

    /// Toggles the pin.
    pub fn toggle(&mut self) -> (r: GpioEffect)
        requires
            N < 32,
        ensures
            r == (GpioEffect::Omr { port: P, raw: spec_pcl_ps_bits(1, 1, N as u32) }),
    {
        self._toggle()
    }

    /// Whether the pin is driven high, given the port's OUT value.
    pub fn is_set_high(&self, output: u32) -> (r: bool)
        ensures
            r == spec_pin_bit(output, N),
    {
        self._is_set_high(output)
    }

    /// Whether the pin is driven low, given the port's OUT value.
    pub fn is_set_low(&self, output: u32) -> (r: bool)
        ensures
            r == !spec_pin_bit(output, N),
    {
        !self._is_set_high(output)
    }
}

/// A pin whose level can be read, given the port's IN value.
pub trait ReadPin {
    /// Whether the pin reads high.
    fn is_high(&self, input: u32) -> bool;

    /// Whether the pin reads low.
    fn is_low(&self, input: u32) -> bool;
}

impl<const P: u8, const N: u8, MODE: Readable> ReadPin for Pin<P, N, MODE> {
    fn is_high(&self, input: u32) -> (r: bool)
        ensures
            r == spec_pin_bit(input, N),
    {
        self._is_high(input)
    }

    fn is_low(&self, input: u32) -> (r: bool)
        ensures
            r == !spec_pin_bit(input, N),
    {
        !self._is_high(input)
    }
}

/// Pin 5 of port 00.
pub type P00_5<MODE = Input> = Pin<0, 5, MODE>;
/// Pin 6 of port 00.
pub type P00_6<MODE = Input> = Pin<0, 6, MODE>;
/// Pin 9 of port 01.
pub type P01_9<MODE = Input> = Pin<1, 9, MODE>;
/// Pin 10 of port 01.
pub type P01_10<MODE = Input> = Pin<1, 10, MODE>;

impl<MODE> IntoAf<1> for Pin<0, 5, MODE> {
}

impl<MODE> IntoAf<1> for Pin<0, 6, MODE> {
}

impl<MODE> IntoAf<1> for Pin<1, 9, MODE> {
}

impl<MODE> IntoAf<1> for Pin<1, 10, MODE> {
}

} // verus!
