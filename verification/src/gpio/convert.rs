//! Mode changes of pins.
use vstd::prelude::*;
use core::marker::PhantomData;
use crate::Sealed;
use crate::gpio::{
    Alternate, Analog, ErasedPin, GpioEffect, Input, IntoAf, OpenDrain, Output, PartiallyErasedPin,
    Pin, PinId, PinState, PortId, Pull, PushPull, resistor_effect, spec_resistor_effect,
    spec_state_bits,
};

verus! {

/// Pin modes (type states). Only this crate implements it. Each mode has the
/// pad configuration byte that its IOCR field takes (`PCx` in bits 7..3).
pub trait PinMode: Sealed {
    /// The IOCR byte of the mode.
    spec fn spec_configuration() -> u8;

    /// Whether a pin in this mode is known to have exactly that byte (an
    /// input may also have a pull device, so it is not).
    spec fn spec_exact() -> bool;

    /// Whether a pin in this mode is known to have exactly its byte.
    fn exact() -> (r: bool)
        ensures
            r == Self::spec_exact(),
    ;

    /// The IOCR byte of the mode.
    fn configuration() -> (r: u8)
        ensures
            r == Self::spec_configuration(),
    ;

    /// A number that tells the modes apart: two modes have the same number
    /// only when they are the same type state.
    spec fn spec_mode_id() -> u16;

    /// The number that tells the mode apart.
    fn mode_id() -> (r: u16)
        ensures
            r == Self::spec_mode_id(),
    ;
}

/// Whether a pin in mode `A` is known to already be in mode `B`: they are
/// the same type state, and it fixes the IOCR byte (an input's does not:
/// it may have a pull device).
pub open spec fn same_mode<A: PinMode, B: PinMode>() -> bool {
    A::spec_exact() && A::spec_mode_id() == B::spec_mode_id()
}

/// Whether a pin in mode `A` is known to already be in mode `B`.
pub fn is_same_mode<A: PinMode, B: PinMode>() -> (r: bool)
    ensures
        r == same_mode::<A, B>(),
{
    A::exact() && A::mode_id() == B::mode_id()
}

/// IOCR byte of an input without pull device.
pub const INPUT_NO_PULL_DEVICE: u8 = 0x00;

/// IOCR byte of a general purpose push-pull output.
pub const OUTPUT_PUSH_PULL_GENERAL: u8 = 0x80;

/// IOCR byte of a general purpose open drain output.
pub const OUTPUT_OPEN_DRAIN_GENERAL: u8 = 0xC0;

/// IOCR byte of an output driven by alternate function `a` (1 to 7), push-pull
/// or open drain.
pub open spec fn alternate_configuration(a: u8, open_drain: bool) -> u8 {
    (if open_drain { OUTPUT_OPEN_DRAIN_GENERAL } else { OUTPUT_PUSH_PULL_GENERAL }) | ((a & 7) << 3u8)
}

fn alternate_byte(a: u8, open_drain: bool) -> (r: u8)
    ensures
        r == alternate_configuration(a, open_drain),
{
    let base: u8 = if open_drain { OUTPUT_OPEN_DRAIN_GENERAL } else { OUTPUT_PUSH_PULL_GENERAL };
    base | ((a & 7) << 3u8)
}

impl Sealed for Input {
}

impl PinMode for Input {
    open spec fn spec_configuration() -> u8 {
        INPUT_NO_PULL_DEVICE
    }

    open spec fn spec_exact() -> bool {
        false
    }

    fn exact() -> (r: bool) {
        false
    }

    open spec fn spec_mode_id() -> u16 {
        0
    }

    fn mode_id() -> (r: u16) {
        0
    }

    fn configuration() -> (r: u8) {
        INPUT_NO_PULL_DEVICE
    }
}

impl Sealed for Analog {
}

impl PinMode for Analog {
    open spec fn spec_configuration() -> u8 {
        INPUT_NO_PULL_DEVICE
    }

    open spec fn spec_exact() -> bool {
        true
    }

    fn exact() -> (r: bool) {
        true
    }

    open spec fn spec_mode_id() -> u16 {
        1
    }

    fn mode_id() -> (r: u16) {
        1
    }

    fn configuration() -> (r: u8) {
        INPUT_NO_PULL_DEVICE
    }
}

impl<Otype> Sealed for Output<Otype> {
}

impl PinMode for Output<OpenDrain> {
    open spec fn spec_configuration() -> u8 {
        OUTPUT_OPEN_DRAIN_GENERAL
    }

    open spec fn spec_exact() -> bool {
        true
    }

    fn exact() -> (r: bool) {
        true
    }

    open spec fn spec_mode_id() -> u16 {
        2
    }

    fn mode_id() -> (r: u16) {
        2
    }

    fn configuration() -> (r: u8) {
        OUTPUT_OPEN_DRAIN_GENERAL
    }
}

impl PinMode for Output<PushPull> {
    open spec fn spec_configuration() -> u8 {
        OUTPUT_PUSH_PULL_GENERAL
    }

    open spec fn spec_exact() -> bool {
        true
    }

    fn exact() -> (r: bool) {
        true
    }

    open spec fn spec_mode_id() -> u16 {
        3
    }

    fn mode_id() -> (r: u16) {
        3
    }

    fn configuration() -> (r: u8) {
        OUTPUT_PUSH_PULL_GENERAL
    }
}

impl<const A: u8, Otype> Sealed for Alternate<A, Otype> {
}

impl<const A: u8> PinMode for Alternate<A, OpenDrain> {
    open spec fn spec_configuration() -> u8 {
        alternate_configuration(A, true)
    }

    open spec fn spec_exact() -> bool {
        true
    }

    fn exact() -> (r: bool) {
        true
    }

    open spec fn spec_mode_id() -> u16 {
        (0x200 + A) as u16
    }

    fn mode_id() -> (r: u16) {
        0x200 + (A as u16)
    }

    fn configuration() -> (r: u8) {
        alternate_byte(A, true)
    }
}

impl<const A: u8> PinMode for Alternate<A, PushPull> {
    open spec fn spec_configuration() -> u8 {
        alternate_configuration(A, false)
    }

    open spec fn spec_exact() -> bool {
        true
    }

    fn exact() -> (r: bool) {
        true
    }

    open spec fn spec_mode_id() -> u16 {
        (0x100 + A) as u16
    }

    fn mode_id() -> (r: u16) {
        0x100 + (A as u16)
    }

    fn configuration() -> (r: u8) {
        alternate_byte(A, false)
    }
}

/// The IOCR access that sets pin `pin` of port `port` to the configuration
/// byte `conf`: the pin's byte of IOCR `pin / 4` is replaced by `conf`.
pub open spec fn spec_change_mode(port: u8, pin: u8, conf: u8) -> GpioEffect {
    let shift = ((pin & 3) * 8) as u32;
    GpioEffect::Iocr { port, index: pin / 4, value: (conf as u32) << shift, mask: 0xFFu32 << shift }
}

/// The access that takes a pin from configuration `from` to `to`: none when
/// the pin is known to already be in the target mode (`same`, which implies
/// that `from` is `to`), else the IOCR access.
pub open spec fn spec_mode_changes(port: u8, pin: u8, same: bool, from: u8, to: u8) -> Option<
    GpioEffect,
> {
    if same && from == to {
        None
    } else {
        Some(spec_change_mode(port, pin, to))
    }
}

/// The IOCR access that sets pin `pin` of port `port` to configuration `conf`.
pub fn change_mode(port: u8, pin: u8, conf: u8) -> (r: GpioEffect)
    ensures
        r == spec_change_mode(port, pin, conf),
{
    let lo: u8 = pin & 0x3;
    assert(lo <= 3) by (bit_vector)
        requires
            lo == pin & 0x3,
    ;
    let shift: u32 = (lo as u32) * 8;
    let iocr_offset: u8 = pin / 4;
    let mode_bits: u32 = (conf as u32) << shift;
    let mode_mask: u32 = 0xFFu32 << shift;
    GpioEffect::Iocr { port, index: iocr_offset, value: mode_bits, mask: mode_mask }
}

/// The access, if any, that takes a pin from configuration `from` to `to`.
pub fn mode_changes(port: u8, pin: u8, same: bool, from: u8, to: u8) -> (r: Option<GpioEffect>)
    ensures
        r == spec_mode_changes(port, pin, same, from, to),
{
    if same && from == to {
        None
    } else {
        Some(change_mode(port, pin, to))
    }
}

/// The accesses of an optional one, as a sequence.
pub open spec fn opt_seq(o: Option<GpioEffect>) -> Seq<GpioEffect> {
    match o {
        Some(e) => seq![e],
        None => seq![],
    }
}

/// The accesses that make a pin in configuration `from` an output in
/// configuration `to` driven to `state`: none when it is known to be in `to`
/// already (`same`), else the level written, then the mode.
pub open spec fn spec_output_changes(
    port: u8,
    pin: u8,
    same: bool,
    from: u8,
    to: u8,
    state: PinState,
) -> Seq<GpioEffect> {
    if same && from == to {
        seq![]
    } else {
        seq![
            GpioEffect::Omr { port, raw: spec_state_bits(pin, state) },
            spec_change_mode(port, pin, to),
        ]
    }
}

fn opt_vec(o: Option<GpioEffect>) -> (r: Vec<GpioEffect>)
    ensures
        r@ == opt_seq(o),
{
    let mut v: Vec<GpioEffect> = Vec::new();
    if let Some(e) = o {
        v.push(e);
    }
    proof {
        assert(v@ =~= opt_seq(o));
    }
    v
}

impl<const P: u8, const N: u8, const A: u8> Pin<P, N, Alternate<A, PushPull>> {
    /// The alternate function pin as open drain.
    pub fn set_open_drain(self) -> (r: (Pin<P, N, Alternate<A, OpenDrain>>, Option<GpioEffect>))
        ensures
            r.1 == spec_mode_changes(
                P,
                N,
                same_mode::<Alternate<A, PushPull>, Alternate<A, OpenDrain>>(),
                alternate_configuration(A, false),
                alternate_configuration(A, true),
            ),
    {
        self.into_mode()
    }
}

impl<const P: u8, const N: u8, MODE: PinMode> Pin<P, N, MODE> {
    /// The pin driven by alternate function `A`.
    pub fn into_alternate<const A: u8>(self) -> (r: (
        Pin<P, N, Alternate<A, PushPull>>,
        Option<GpioEffect>,
    )) where Self: IntoAf<A>
        ensures
            r.1 == spec_mode_changes(P, N, same_mode::<MODE, Alternate<A, PushPull>>(),
                MODE::spec_configuration(), alternate_configuration(A, false)),
    {
        self.into_mode()
    }

    /// The pin driven by alternate function `A`, open drain.
    pub fn into_alternate_open_drain<const A: u8>(self) -> (r: (
        Pin<P, N, Alternate<A, OpenDrain>>,
        Option<GpioEffect>,
    )) where Self: IntoAf<A>
        ensures
            r.1 == spec_mode_changes(P, N, same_mode::<MODE, Alternate<A, OpenDrain>>(),
                MODE::spec_configuration(), alternate_configuration(A, true)),
    {
        self.into_mode()
    }

    /// The pin as an input (no pull device).
    pub fn into_input(self) -> (r: (Pin<P, N, Input>, Option<GpioEffect>))
        ensures
            r.1 == spec_mode_changes(P, N, same_mode::<MODE, Input>(),
                MODE::spec_configuration(), INPUT_NO_PULL_DEVICE),
    {
        self.into_mode()
    }

    /// The pin as a floating input: mode change, then no pull device.
    pub fn into_floating_input(self) -> (r: (Pin<P, N, Input>, Vec<GpioEffect>))
        requires
            N < 16,
        ensures
            r.1@ == opt_seq(spec_mode_changes(P, N, same_mode::<MODE, Input>(),
                MODE::spec_configuration(), INPUT_NO_PULL_DEVICE))
                + seq![spec_resistor_effect(P, N, Pull::NoPull)],
    {
        self.into_input_with(Pull::NoPull)
    }

    /// The pin as a pulled down input: mode change, then pull-down.
    pub fn into_pull_down_input(self) -> (r: (Pin<P, N, Input>, Vec<GpioEffect>))
        requires
            N < 16,
        ensures
            r.1@ == opt_seq(spec_mode_changes(P, N, same_mode::<MODE, Input>(),
                MODE::spec_configuration(), INPUT_NO_PULL_DEVICE))
                + seq![spec_resistor_effect(P, N, Pull::Down)],
    {
        self.into_input_with(Pull::Down)
    }

    /// The pin as a pulled up input: mode change, then pull-up.
    pub fn into_pull_up_input(self) -> (r: (Pin<P, N, Input>, Vec<GpioEffect>))
        requires
            N < 16,
        ensures
            r.1@ == opt_seq(spec_mode_changes(P, N, same_mode::<MODE, Input>(),
                MODE::spec_configuration(), INPUT_NO_PULL_DEVICE))
                + seq![spec_resistor_effect(P, N, Pull::Up)],
    {
        self.into_input_with(Pull::Up)
    }

    fn into_input_with(self, resistor: Pull) -> (r: (Pin<P, N, Input>, Vec<GpioEffect>))
        requires
            N < 16,
        ensures
            r.1@ == opt_seq(spec_mode_changes(P, N, same_mode::<MODE, Input>(),
                MODE::spec_configuration(), INPUT_NO_PULL_DEVICE))
                + seq![spec_resistor_effect(P, N, resistor)],
    {
        let (pin, e1) = self.into_mode::<Input>();
        let (pin, e2) = pin.internal_resistor(resistor);
        let mut effects = opt_vec(e1);
        effects.push(e2);
        (pin, effects)
    }

    /// The pin as an open drain output, initially low: the low level is
    /// written, then the mode; nothing when the pin already is an open drain
    /// output.
    pub fn into_open_drain_output(self) -> (r: (Pin<P, N, Output<OpenDrain>>, Vec<GpioEffect>))
        requires
            N < 32,
        ensures
            r.1@ == spec_output_changes(
                P,
                N,
                same_mode::<MODE, Output<OpenDrain>>(),
                MODE::spec_configuration(),
                OUTPUT_OPEN_DRAIN_GENERAL,
                PinState::Low,
            ),
    {
        self.into_output_low()
    }

    /// The pin as an open drain output driven to `initial_state`: the level
    /// is written first, then the mode (if it changes).
    pub fn into_open_drain_output_in_state(self, initial_state: PinState) -> (r: (
        Pin<P, N, Output<OpenDrain>>,
        Vec<GpioEffect>,
    ))
        requires
            N < 32,
        ensures
            r.1@ == seq![GpioEffect::Omr { port: P, raw: spec_state_bits(N, initial_state) }]
                + opt_seq(spec_mode_changes(P, N, same_mode::<MODE, Output<OpenDrain>>(),
                MODE::spec_configuration(), OUTPUT_OPEN_DRAIN_GENERAL)),
    {
        self.into_output_in_state(initial_state)
    }

    /// The pin as a push-pull output, initially low: the low level is
    /// written, then the mode; nothing when the pin already is a push-pull
    /// output.
    pub fn into_push_pull_output(self) -> (r: (Pin<P, N, Output<PushPull>>, Vec<GpioEffect>))
        requires
            N < 32,
        ensures
            r.1@ == spec_output_changes(
                P,
                N,
                same_mode::<MODE, Output<PushPull>>(),
                MODE::spec_configuration(),
                OUTPUT_PUSH_PULL_GENERAL,
                PinState::Low,
            ),
    {
        self.into_output_low()
    }

    /// The pin as a push-pull output driven to `initial_state`: the level is
    /// written first, then the mode (if it changes).
    pub fn into_push_pull_output_in_state(self, initial_state: PinState) -> (r: (
        Pin<P, N, Output<PushPull>>,
        Vec<GpioEffect>,
    ))
        requires
            N < 32,
        ensures
            r.1@ == seq![GpioEffect::Omr { port: P, raw: spec_state_bits(N, initial_state) }]
                + opt_seq(spec_mode_changes(P, N, same_mode::<MODE, Output<PushPull>>(),
                MODE::spec_configuration(), OUTPUT_PUSH_PULL_GENERAL)),
    {
        self.into_output_in_state(initial_state)
    }

    fn into_output_low<M: PinMode>(self) -> (r: (Pin<P, N, M>, Vec<GpioEffect>))
        requires
            N < 32,
        ensures
            r.1@ == spec_output_changes(
                P,
                N,
                same_mode::<MODE, M>(),
                MODE::spec_configuration(),
                M::spec_configuration(),
                PinState::Low,
            ),
    {
        let same = is_same_mode::<MODE, M>();
        let from = MODE::configuration();
        let to = M::configuration();
        if same && from == to {
            (Pin::new(), Vec::new())
        } else {
            let mut pin = self;
            let e1 = pin._set_low();
            let e2 = change_mode(P, N, to);
            let v = two(e1, e2);
            proof {
                assert(v@ =~= spec_output_changes(P, N, same, from, to, PinState::Low));
            }
            (Pin::new(), v)
        }
    }

    fn into_output_in_state<M: PinMode>(self, state: PinState) -> (r: (Pin<P, N, M>, Vec<GpioEffect>))
        requires
            N < 32,
        ensures
            r.1@ == seq![GpioEffect::Omr { port: P, raw: spec_state_bits(N, state) }]
                + opt_seq(spec_mode_changes(P, N, same_mode::<MODE, M>(),
                MODE::spec_configuration(), M::spec_configuration())),
    {
        let mut pin = self;
        let e1 = pin._set_state(state);
        let (pin, e2) = pin.into_mode::<M>();
        let mut v: Vec<GpioEffect> = Vec::new();
        v.push(e1);
        if let Some(e) = e2 {
            v.push(e);
        }
        proof {
            assert(v@ =~= seq![GpioEffect::Omr { port: P, raw: spec_state_bits(N, state) }]
                + opt_seq(e2));
        }
        (pin, v)
    }

    /// The pin as an analog input.
    pub fn into_analog(self) -> (r: (Pin<P, N, Analog>, Option<GpioEffect>))
        ensures
            r.1 == spec_mode_changes(P, N, same_mode::<MODE, Analog>(),
                MODE::spec_configuration(), INPUT_NO_PULL_DEVICE),
    {
        self.into_mode()
    }

    /// The access that puts the pin in mode `M`, without changing its type.
    pub fn mode<M: PinMode>(&mut self) -> (r: GpioEffect)
        ensures
            r == spec_change_mode(P, N, M::spec_configuration()),
    {
        change_mode(P, N, M::configuration())
    }

    /// The pin in mode `M`; no access when the pin already has that
    /// configuration.
    pub fn into_mode<M: PinMode>(self) -> (r: (Pin<P, N, M>, Option<GpioEffect>))
        ensures
            r.1 == spec_mode_changes(P, N, same_mode::<MODE, M>(),
                MODE::spec_configuration(), M::spec_configuration()),
    {
        (Pin::new(), mode_changes(P, N, is_same_mode::<MODE, M>(), MODE::configuration(), M::configuration()))
    }

    /// Runs `f` on the pin in mode `M`, then puts the pin back in its mode.
    /// Returns the mode change before `f`, what `f` returned, and the mode
    /// change after it.
    fn with_mode<M: PinMode, R, F: FnOnce(&mut Pin<P, N, M>) -> R>(&mut self, f: F) -> (r: (
        GpioEffect,
        R,
        GpioEffect,
    ))
        requires
            forall|p: &mut Pin<P, N, M>| call_requires(f, (p,)),
        ensures
            r.0 == spec_change_mode(P, N, M::spec_configuration()),
            r.2 == spec_change_mode(P, N, MODE::spec_configuration()),
    {
        let before = self.mode::<M>();
        let mut pin: Pin<P, N, M> = Pin::new();
        let result = f(&mut pin);
        let after = pin.mode::<MODE>();
        (before, result, after)
    }

    /// Runs `f` on the pin as an input, then puts the pin back in its mode.
    pub fn with_input<R, F: FnOnce(&mut Pin<P, N, Input>) -> R>(&mut self, f: F) -> (r: (
        GpioEffect,
        R,
        GpioEffect,
    ))
        requires
            forall|p: &mut Pin<P, N, Input>| call_requires(f, (p,)),
        ensures
            r.0 == spec_change_mode(P, N, INPUT_NO_PULL_DEVICE),
            r.2 == spec_change_mode(P, N, MODE::spec_configuration()),
    {
        self.with_mode(f)
    }

    /// Runs `f` on the pin as an analog input, then puts the pin back in its mode.
    pub fn with_analog<R, F: FnOnce(&mut Pin<P, N, Analog>) -> R>(&mut self, f: F) -> (r: (
        GpioEffect,
        R,
        GpioEffect,
    ))
        requires
            forall|p: &mut Pin<P, N, Analog>| call_requires(f, (p,)),
        ensures
            r.0 == spec_change_mode(P, N, INPUT_NO_PULL_DEVICE),
            r.2 == spec_change_mode(P, N, MODE::spec_configuration()),
    {
        self.with_mode(f)
    }

    /// Runs `f` on the pin as an open drain output, then puts the pin back in
    /// its mode. The level of the pin is not set.
    pub fn with_open_drain_output<R, F: FnOnce(&mut Pin<P, N, Output<OpenDrain>>) -> R>(
        &mut self,
        f: F,
    ) -> (r: (GpioEffect, R, GpioEffect))
        requires
            forall|p: &mut Pin<P, N, Output<OpenDrain>>| call_requires(f, (p,)),
        ensures
            r.0 == spec_change_mode(P, N, OUTPUT_OPEN_DRAIN_GENERAL),
            r.2 == spec_change_mode(P, N, MODE::spec_configuration()),
    {
        self.with_mode(f)
    }

    /// Drives the pin to `state`, then runs `f` on it as an open drain output,
    /// then puts it back in its mode. Returns the level write, the mode change
    /// before `f`, what `f` returned, and the mode change after it.
    pub fn with_open_drain_output_in_state<R, F: FnOnce(&mut Pin<P, N, Output<OpenDrain>>) -> R>(
        &mut self,
        state: PinState,
        f: F,
    ) -> (r: (GpioEffect, GpioEffect, R, GpioEffect))
        requires
            N < 32,
            forall|p: &mut Pin<P, N, Output<OpenDrain>>| call_requires(f, (p,)),
        ensures
            r.0 == (GpioEffect::Omr { port: P, raw: spec_state_bits(N, state) }),
            r.1 == spec_change_mode(P, N, OUTPUT_OPEN_DRAIN_GENERAL),
            r.3 == spec_change_mode(P, N, MODE::spec_configuration()),
    {
        let level = self._set_state(state);
        let (before, result, after) = self.with_mode(f);
        (level, before, result, after)
    }

    /// Runs `f` on the pin as a push-pull output, then puts the pin back in
    /// its mode. The level of the pin is not set.
    pub fn with_push_pull_output<R, F: FnOnce(&mut Pin<P, N, Output<PushPull>>) -> R>(
        &mut self,
        f: F,
    ) -> (r: (GpioEffect, R, GpioEffect))
        requires
            forall|p: &mut Pin<P, N, Output<PushPull>>| call_requires(f, (p,)),
        ensures
            r.0 == spec_change_mode(P, N, OUTPUT_PUSH_PULL_GENERAL),
            r.2 == spec_change_mode(P, N, MODE::spec_configuration()),
    {
        self.with_mode(f)
    }

    /// Drives the pin to `state`, then runs `f` on it as a push-pull output,
    /// then puts it back in its mode. Returns the level write, the mode change
    /// before `f`, what `f` returned, and the mode change after it.
    pub fn with_push_pull_output_in_state<R, F: FnOnce(&mut Pin<P, N, Output<PushPull>>) -> R>(
        &mut self,
        state: PinState,
        f: F,
    ) -> (r: (GpioEffect, GpioEffect, R, GpioEffect))
        requires
            N < 32,
            forall|p: &mut Pin<P, N, Output<PushPull>>| call_requires(f, (p,)),
        ensures
            r.0 == (GpioEffect::Omr { port: P, raw: spec_state_bits(N, state) }),
            r.1 == spec_change_mode(P, N, OUTPUT_PUSH_PULL_GENERAL),
            r.3 == spec_change_mode(P, N, MODE::spec_configuration()),
    {
        let level = self._set_state(state);
        let (before, result, after) = self.with_mode(f);
        (level, before, result, after)
    }
}

/// The two accesses, in order.
fn two(a: GpioEffect, b: GpioEffect) -> (r: Vec<GpioEffect>)
    ensures
        r@ == seq![a, b],
{
    let mut v: Vec<GpioEffect> = Vec::new();
    v.push(a);
    v.push(b);
    proof {
        assert(v@ =~= seq![a, b]);
    }
    v
}

impl<MODE: PinMode> ErasedPin<MODE> {
    /// The access that puts the pin in mode `M`, without changing its type.
    pub fn mode<M: PinMode>(&mut self) -> (r: GpioEffect)
        ensures
            r == spec_change_mode(old(self).port.0, old(self).pin.0, M::spec_configuration()),
            final(self).pin.0 == old(self).pin.0,
            final(self).port.0 == old(self).port.0,
    {
        change_mode(self.port.0, self.pin.0, M::configuration())
    }

    /// The pin in mode `M`; no access when the pin already has that
    /// configuration.
    pub fn into_mode<M: PinMode>(self) -> (r: (ErasedPin<M>, Option<GpioEffect>))
        ensures
            r.0.pin.0 == self.pin.0,
            r.0.port.0 == self.port.0,
            r.1 == spec_mode_changes(
                self.port.0,
                self.pin.0,
                same_mode::<MODE, M>(),
                MODE::spec_configuration(),
                M::spec_configuration(),
            ),
    {
        let e = mode_changes(self.port.0, self.pin.0, is_same_mode::<MODE, M>(), MODE::configuration(), M::configuration());
        (ErasedPin::new(self.port, self.pin), e)
    }
}

impl<const P: u8, MODE: PinMode> PartiallyErasedPin<P, MODE> {
    /// The access that puts the pin in mode `M`, without changing its type.
    pub fn mode<M: PinMode>(&mut self) -> (r: GpioEffect)
        ensures
            r == spec_change_mode(P, old(self).pin.0, M::spec_configuration()),
            final(self).pin.0 == old(self).pin.0,
    {
        change_mode(P, self.pin.0, M::configuration())
    }

    /// The pin in mode `M`; no access when the pin already has that
    /// configuration.
    pub fn into_mode<M: PinMode>(self) -> (r: (PartiallyErasedPin<P, M>, Option<GpioEffect>))
        ensures
            r.0.pin.0 == self.pin.0,
            r.1 == spec_mode_changes(P, self.pin.0, same_mode::<MODE, M>(),
                MODE::spec_configuration(), M::spec_configuration()),
    {
        let e = mode_changes(P, self.pin.0, is_same_mode::<MODE, M>(), MODE::configuration(), M::configuration());
        (PartiallyErasedPin::new(self.pin), e)
    }
}

} // verus!
