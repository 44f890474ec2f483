//! Pins of one port driven together with a single OMR write.
use vstd::prelude::*;
use crate::gpio::{
    GpioEffect, Output, PartiallyErasedPin, Pin, PinState, PushPull, spec_state_bits,
    pcl_ps_bits, pcl_ps_from_state,
};

verus! {

/// OMR value that drives every pin of `pins` high.
pub open spec fn spec_mask(pins: Seq<u8>) -> u32
    decreases pins.len(),
{
    if pins.len() == 0 {
        0
    } else {
        spec_mask(pins.drop_last()) | (1u32 << pins.last())
    }
}

/// OMR bit for pin `n` at position `idx` of a group written with `val`:
/// bit `idx` of `val` set drives the pin high, clear drives it low.
pub open spec fn write_term(val: u32, idx: int, n: u8) -> u32 {
    if val & (1u32 << idx as u32) != 0 {
        1u32 << n
    } else {
        1u32 << (n + 16) as u8
    }
}

/// OMR value that drives each pin of `pins` as the bit of `val` at its
/// position says.
pub open spec fn spec_write_value(pins: Seq<u8>, val: u32) -> u32
    decreases pins.len(),
{
    if pins.len() == 0 {
        0
    } else {
        spec_write_value(pins.drop_last(), val) | write_term(val, pins.len() - 1, pins.last())
    }
}

/// OMR value that drives each pin of `pins` to the state at its position.
pub open spec fn spec_state_value(pins: Seq<u8>, states: Seq<PinState>) -> u32
    decreases pins.len(),
{
    if pins.len() == 0 {
        0
    } else {
        spec_state_value(pins.drop_last(), states) | spec_state_bits(
            pins.last(),
            states[pins.len() - 1],
        )
    }
}

/// Whether every pin number of `pins` is below `bound`.
pub open spec fn pins_below(pins: Seq<u8>, bound: int) -> bool {
    forall|i: int| 0 <= i < pins.len() ==> pins[i] < bound
}

/// Whether every shift of a write of `val` to `pins` stays in the register.
pub open spec fn write_fits(pins: Seq<u8>, val: u32) -> bool {
    &&& pins.len() <= 32
    &&& forall|i: int|
        0 <= i < pins.len() ==> if val & (1u32 << i as u32) != 0 {
            pins[i] < 32
        } else {
            pins[i] < 16
        }
}

/// `n` states, all `s`.
pub open spec fn all_states(n: nat, s: PinState) -> Seq<PinState> {
    Seq::new(n, |i: int| s)
}

/// OMR value that drives every pin of `pins` high.
pub fn mask_of(pins: &[u8]) -> (r: u32)
    requires
        pins_below(pins@, 32),
    ensures
        r == spec_mask(pins@),
{
    let mut msk: u32 = 0;
    let mut i: usize = 0;
    while i < pins.len()
        invariant
            i <= pins@.len(),
            pins_below(pins@, 32),
            msk == spec_mask(pins@.take(i as int)),
        decreases pins.len() - i,
    {
        proof {
            assert(pins@.take(i + 1).drop_last() =~= pins@.take(i as int));
        }
        msk = msk | (1u32 << pins[i]);
        i = i + 1;
    }
    proof {
        assert(pins@.take(i as int) =~= pins@);
    }
    msk
}

/// OMR value that drives each pin of `pins` as the bit of `val` at its
/// position says.
pub fn write_value_of(pins: &[u8], val: u32) -> (r: u32)
    requires
        write_fits(pins@, val),
    ensures
        r == spec_write_value(pins@, val),
{
    let mut msk: u32 = 0;
    let mut idx: usize = 0;
    while idx < pins.len()
        invariant
            idx <= pins@.len(),
            write_fits(pins@, val),
            msk == spec_write_value(pins@.take(idx as int), val),
        decreases pins.len() - idx,
    {
        proof {
            assert(pins@.take(idx + 1).drop_last() =~= pins@.take(idx as int));
        }
        let n = pins[idx];
        let shift: u8 = if val & (1u32 << idx as u32) != 0 {
            n
        } else {
            n + 16
        };
        msk = msk | (1u32 << shift);
        idx = idx + 1;
    }
    proof {
        assert(pins@.take(idx as int) =~= pins@);
    }
    msk
}

/// OMR value that drives each pin of `pins` to the state at its position.
pub fn state_value_of(pins: &[u8], states: &[PinState]) -> (r: u32)
    requires
        pins_below(pins@, 32),
        states@.len() == pins@.len(),
    ensures
        r == spec_state_value(pins@, states@),
{
    let mut raw: u32 = 0;
    let mut i: usize = 0;
    while i < pins.len()
        invariant
            i <= pins@.len(),
            pins_below(pins@, 32),
            states@.len() == pins@.len(),
            raw == spec_state_value(pins@.take(i as int), states@),
        decreases pins.len() - i,
    {
        proof {
            assert(pins@.take(i + 1).drop_last() =~= pins@.take(i as int));
        }
        let (pclx, psx) = pcl_ps_from_state(states[i]);
        raw = raw | pcl_ps_bits(pclx, psx, pins[i] as u32);
        i = i + 1;
    }
    proof {
        assert(pins@.take(i as int) =~= pins@);
    }
    raw
}

/// Driving all pins high writes the same OMR value whether done with
/// `set_high`, with `set_state` and every state high, or with `write` and
/// every bit set.
pub proof fn lemma_set_high_equivalences(pins: Seq<u8>)
    requires
        pins_below(pins, 16),
        pins.len() <= 32,
    ensures
        spec_mask(pins) == spec_state_value(pins, all_states(pins.len(), PinState::High)),
        spec_mask(pins) == spec_write_value(pins, 0xFFFF_FFFF),
    decreases pins.len(),
{
    if pins.len() > 0 {
        let init = pins.drop_last();
        lemma_set_high_equivalences(init);
        lemma_state_value_prefix(pins, all_states(pins.len(), PinState::High), all_states(init.len(), PinState::High));
        let n = pins.last();
        let idx = (pins.len() - 1) as u32;
        assert(((0u32 << 16u32) | 1u32) << (n as u32) == 1u32 << n) by (bit_vector);
        assert(0xFFFF_FFFFu32 & (1u32 << idx) != 0) by (bit_vector)
            requires
                idx < 32,
        ;
    }
}

/// Driving all pins low writes the same OMR value whether done with
/// `set_low`, with `set_state` and every state low, or with `write` and no
/// bit set.
pub proof fn lemma_set_low_equivalences(pins: Seq<u8>)
    requires
        pins_below(pins, 16),
        pins.len() <= 32,
    ensures
        spec_mask(pins) << 16u32 == spec_state_value(pins, all_states(pins.len(), PinState::Low)),
        spec_mask(pins) << 16u32 == spec_write_value(pins, 0),
    decreases pins.len(),
{
    if pins.len() > 0 {
        let init = pins.drop_last();
        lemma_set_low_equivalences(init);
        lemma_state_value_prefix(pins, all_states(pins.len(), PinState::Low), all_states(init.len(), PinState::Low));
        let n = pins.last();
        let a = spec_mask(init);
        let idx = (pins.len() - 1) as u32;
        assert((a | (1u32 << n)) << 16u32 == (a << 16u32) | (((1u32 << 16u32) | 0u32) << (n as u32)))
            by (bit_vector)
            requires
                n < 16,
        ;
        assert((a | (1u32 << n)) << 16u32 == (a << 16u32) | (1u32 << ((n + 16) as u8)))
            by (bit_vector)
            requires
                n < 16,
        ;
        assert(0u32 & (1u32 << idx) == 0) by (bit_vector);
    } else {
        assert(0u32 << 16u32 == 0) by (bit_vector);
    }
}

/// The state value of `pins` only reads the states at the positions of its
/// pins.
proof fn lemma_state_value_prefix(pins: Seq<u8>, states: Seq<PinState>, init_states: Seq<PinState>)
    requires
        pins.len() > 0,
        states.len() == pins.len(),
        init_states =~= states.drop_last(),
    ensures
        spec_state_value(pins.drop_last(), states) == spec_state_value(pins.drop_last(), init_states),
{
    lemma_state_value_agree(pins.drop_last(), states, init_states);
}

/// Two state sequences that agree on the positions of `pins` give the same
/// state value.
proof fn lemma_state_value_agree(pins: Seq<u8>, s1: Seq<PinState>, s2: Seq<PinState>)
    requires
        forall|i: int| 0 <= i < pins.len() ==> s1[i] == s2[i],
    ensures
        spec_state_value(pins, s1) == spec_state_value(pins, s2),
    decreases pins.len(),
{
    if pins.len() > 0 {
        lemma_state_value_agree(pins.drop_last(), s1, s2);
    }
}

/// A tuple or array of output pins that can be driven together.
pub trait PinGroup {
    /// The group.
    type Target;

    /// The group of the pins.
    fn into_pin_group(self) -> Self::Target;
}

/// Output pins of port `P` driven together.
pub struct PinArray<const P: u8, const SIZE: usize>(
    pub [PartiallyErasedPin<P, Output<PushPull>>; SIZE],
);

impl<const P: u8, const SIZE: usize> PinGroup for [PartiallyErasedPin<P, Output<PushPull>>; SIZE] {
    type Target = PinArray<P, SIZE>;

    fn into_pin_group(self) -> (r: PinArray<P, SIZE>)
        ensures
            r.0@ == self@,
    {
        PinArray(self)
    }
}

impl<const P: u8, const SIZE: usize> PinArray<P, SIZE> {
    /// Pin numbers of the group, in order.
    pub open spec fn pins(&self) -> Seq<u8> {
        self.0@.map_values(|p: PartiallyErasedPin<P, Output<PushPull>>| p.pin.0)
    }

    fn pin_numbers(&self) -> (r: Vec<u8>)
        ensures
            r@ == self.pins(),
    {
        let mut v: Vec<u8> = Vec::new();
        let mut i: usize = 0;
        while i < SIZE
            invariant
                i <= SIZE,
                SIZE == self.0@.len(),
                v@ == self.pins().take(i as int),
            decreases SIZE - i,
        {
            v.push(self.0[i].pin.0);
            proof {
                assert(v@ =~= self.pins().take(i + 1));
            }
            i = i + 1;
        }
        proof {
            assert(self.pins().take(i as int) =~= self.pins());
        }
        v
    }

    /// OMR value that drives every pin high.
    pub fn mask(&self) -> (r: u32)
        requires
            pins_below(self.pins(), 32),
        ensures
            r == spec_mask(self.pins()),
    {
        let pins = self.pin_numbers();
        mask_of(pins.as_slice())
    }

    /// OMR value that drives each pin as the bit of `val` at its position says.
    pub fn value_for_write_bsrr(&self, val: u32) -> (r: u32)
        requires
            write_fits(self.pins(), val),
        ensures
            r == spec_write_value(self.pins(), val),
    {
        let pins = self.pin_numbers();
        write_value_of(pins.as_slice(), val)
    }

    /// Drives each pin as the bit of `word` at its position says (set high,
    /// clear low).
    pub fn write(&mut self, word: u32) -> (r: GpioEffect)
        requires
            write_fits(old(self).pins(), word),
        ensures
            r == (GpioEffect::Omr { port: P, raw: spec_write_value(old(self).pins(), word) }),
    {
        let raw = self.value_for_write_bsrr(word);
        GpioEffect::Omr { port: P, raw }
    }

    /// Drives every pin high.
    pub fn set_high(&mut self) -> (r: GpioEffect)
        requires
            pins_below(old(self).pins(), 32),
        ensures
            r == (GpioEffect::Omr { port: P, raw: spec_mask(old(self).pins()) }),
    {
        let raw = self.mask();
        GpioEffect::Omr { port: P, raw }
    }

    /// Drives every pin low.
    pub fn set_low(&mut self) -> (r: GpioEffect)
        requires
            pins_below(old(self).pins(), 32),
        ensures
            r == (GpioEffect::Omr { port: P, raw: spec_mask(old(self).pins()) << 16u32 }),
    {
        let raw = self.mask() << 16;
        GpioEffect::Omr { port: P, raw }
    }

    /// Drives each pin to the state at its position.
    pub fn set_state(&mut self, states: [PinState; SIZE]) -> (r: GpioEffect)
        requires
            pins_below(old(self).pins(), 32),
        ensures
            r == (GpioEffect::Omr { port: P, raw: spec_state_value(old(self).pins(), states@) }),
    {
        let pins = self.pin_numbers();
        let raw = state_value_of(pins.as_slice(), states.as_slice());
        GpioEffect::Omr { port: P, raw }
    }
}

/// Driving all pins of an array group high, or low, writes the same OMR
/// value whichever of `set_high`/`set_low`, `set_state` or `write` does it.
pub proof fn lemma_pin_array_equivalences<const P: u8, const SIZE: usize>(group: PinArray<P, SIZE>)
    requires
        pins_below(group.pins(), 16),
        SIZE <= 32,
    ensures
        spec_mask(group.pins()) == spec_state_value(group.pins(), all_states(SIZE as nat, PinState::High)),
        spec_mask(group.pins()) == spec_write_value(group.pins(), 0xFFFF_FFFF),
        spec_mask(group.pins()) << 16u32 == spec_state_value(group.pins(), all_states(SIZE as nat, PinState::Low)),
        spec_mask(group.pins()) << 16u32 == spec_write_value(group.pins(), 0),
{
    assert(group.0@.len() == SIZE);
    lemma_set_high_equivalences(group.pins());
    lemma_set_low_equivalences(group.pins());
}

/// 2 output pins of port `P`, numbers `N0, N1`, driven together.
pub struct PinGroup2<const P: u8, const N0: u8, const N1: u8>(pub Pin<P, N0, Output<PushPull>>, pub Pin<P, N1, Output<PushPull>>);

impl<const P: u8, const N0: u8, const N1: u8> PinGroup for (Pin<P, N0, Output<PushPull>>, Pin<P, N1, Output<PushPull>>) {
    type Target = PinGroup2<P, N0, N1>;

    fn into_pin_group(self) -> PinGroup2<P, N0, N1> {
        PinGroup2(self.0, self.1)
    }
}

impl<const P: u8, const N0: u8, const N1: u8> PinGroup2<P, N0, N1> {
    /// Pin numbers of the group, in order.
    pub open spec fn pins() -> Seq<u8> {
        seq![N0, N1]
    }

    /// OMR value that drives every pin high.
    pub fn mask() -> (r: u32)
        requires
            pins_below(Self::pins(), 32),
        ensures
            r == spec_mask(Self::pins()),
    {
        let pins = [N0, N1];
        proof {
            assert(pins@ =~= Self::pins());
        }
        mask_of(&pins)
    }

    /// OMR value that drives each pin as the bit of `val` at its position says.
    pub fn value_for_write_bsrr(val: u32) -> (r: u32)
        requires
            write_fits(Self::pins(), val),
        ensures
            r == spec_write_value(Self::pins(), val),
    {
        let pins = [N0, N1];
        proof {
            assert(pins@ =~= Self::pins());
        }
        write_value_of(&pins, val)
    }

    /// Drives each pin as the bit of `word` at its position says.
    pub fn write(&mut self, word: u32) -> (r: GpioEffect)
        requires
            write_fits(Self::pins(), word),
        ensures
            r == (GpioEffect::Omr { port: P, raw: spec_write_value(Self::pins(), word) }),
    {
        GpioEffect::Omr { port: P, raw: Self::value_for_write_bsrr(word) }
    }

    /// Drives every pin high.
    pub fn set_high(&mut self) -> (r: GpioEffect)
        requires
            pins_below(Self::pins(), 32),
        ensures
            r == (GpioEffect::Omr { port: P, raw: spec_mask(Self::pins()) }),
    {
        GpioEffect::Omr { port: P, raw: Self::mask() }
    }

    /// Drives every pin low.
    pub fn set_low(&mut self) -> (r: GpioEffect)
        requires
            pins_below(Self::pins(), 32),
        ensures
            r == (GpioEffect::Omr { port: P, raw: spec_mask(Self::pins()) << 16u32 }),
    {
        GpioEffect::Omr { port: P, raw: Self::mask() << 16 }
    }

    /// Drives each pin to the state at its position.
    pub fn set_state(&mut self, states: [PinState; 2]) -> (r: GpioEffect)
        requires
            pins_below(Self::pins(), 32),
        ensures
            r == (GpioEffect::Omr { port: P, raw: spec_state_value(Self::pins(), states@) }),
    {
        let pins = [N0, N1];
        proof {
            assert(pins@ =~= Self::pins());
        }
        GpioEffect::Omr { port: P, raw: state_value_of(&pins, &states) }
    }
}

/// 3 output pins of port `P`, numbers `N0, N1, N2`, driven together.
pub struct PinGroup3<const P: u8, const N0: u8, const N1: u8, const N2: u8>(pub Pin<P, N0, Output<PushPull>>, pub Pin<P, N1, Output<PushPull>>, pub Pin<P, N2, Output<PushPull>>);

impl<const P: u8, const N0: u8, const N1: u8, const N2: u8> PinGroup for (Pin<P, N0, Output<PushPull>>, Pin<P, N1, Output<PushPull>>, Pin<P, N2, Output<PushPull>>) {
    type Target = PinGroup3<P, N0, N1, N2>;

    fn into_pin_group(self) -> PinGroup3<P, N0, N1, N2> {
        PinGroup3(self.0, self.1, self.2)
    }
}

impl<const P: u8, const N0: u8, const N1: u8, const N2: u8> PinGroup3<P, N0, N1, N2> {
    /// Pin numbers of the group, in order.
    pub open spec fn pins() -> Seq<u8> {
        seq![N0, N1, N2]
    }

    /// OMR value that drives every pin high.
    pub fn mask() -> (r: u32)
        requires
            pins_below(Self::pins(), 32),
        ensures
            r == spec_mask(Self::pins()),
    {
        let pins = [N0, N1, N2];
        proof {
            assert(pins@ =~= Self::pins());
        }
        mask_of(&pins)
    }

    /// OMR value that drives each pin as the bit of `val` at its position says.
    pub fn value_for_write_bsrr(val: u32) -> (r: u32)
        requires
            write_fits(Self::pins(), val),
        ensures
            r == spec_write_value(Self::pins(), val),
    {
        let pins = [N0, N1, N2];
        proof {
            assert(pins@ =~= Self::pins());
        }
        write_value_of(&pins, val)
    }

    /// Drives each pin as the bit of `word` at its position says.
    pub fn write(&mut self, word: u32) -> (r: GpioEffect)
        requires
            write_fits(Self::pins(), word),
        ensures
            r == (GpioEffect::Omr { port: P, raw: spec_write_value(Self::pins(), word) }),
    {
        GpioEffect::Omr { port: P, raw: Self::value_for_write_bsrr(word) }
    }

    /// Drives every pin high.
    pub fn set_high(&mut self) -> (r: GpioEffect)
        requires
            pins_below(Self::pins(), 32),
        ensures
            r == (GpioEffect::Omr { port: P, raw: spec_mask(Self::pins()) }),
    {
        GpioEffect::Omr { port: P, raw: Self::mask() }
    }

    /// Drives every pin low.
    pub fn set_low(&mut self) -> (r: GpioEffect)
        requires
            pins_below(Self::pins(), 32),
        ensures
            r == (GpioEffect::Omr { port: P, raw: spec_mask(Self::pins()) << 16u32 }),
    {
        GpioEffect::Omr { port: P, raw: Self::mask() << 16 }
    }

    /// Drives each pin to the state at its position.
    pub fn set_state(&mut self, states: [PinState; 3]) -> (r: GpioEffect)
        requires
            pins_below(Self::pins(), 32),
        ensures
            r == (GpioEffect::Omr { port: P, raw: spec_state_value(Self::pins(), states@) }),
    {
        let pins = [N0, N1, N2];
        proof {
            assert(pins@ =~= Self::pins());
        }
        GpioEffect::Omr { port: P, raw: state_value_of(&pins, &states) }
    }
}

/// 4 output pins of port `P`, numbers `N0, N1, N2, N3`, driven together.
pub struct PinGroup4<const P: u8, const N0: u8, const N1: u8, const N2: u8, const N3: u8>(pub Pin<P, N0, Output<PushPull>>, pub Pin<P, N1, Output<PushPull>>, pub Pin<P, N2, Output<PushPull>>, pub Pin<P, N3, Output<PushPull>>);

impl<const P: u8, const N0: u8, const N1: u8, const N2: u8, const N3: u8> PinGroup for (Pin<P, N0, Output<PushPull>>, Pin<P, N1, Output<PushPull>>, Pin<P, N2, Output<PushPull>>, Pin<P, N3, Output<PushPull>>) {
    type Target = PinGroup4<P, N0, N1, N2, N3>;

    fn into_pin_group(self) -> PinGroup4<P, N0, N1, N2, N3> {
        PinGroup4(self.0, self.1, self.2, self.3)
    }
}

impl<const P: u8, const N0: u8, const N1: u8, const N2: u8, const N3: u8> PinGroup4<P, N0, N1, N2, N3> {
    /// Pin numbers of the group, in order.
    pub open spec fn pins() -> Seq<u8> {
        seq![N0, N1, N2, N3]
    }

    /// OMR value that drives every pin high.
    pub fn mask() -> (r: u32)
        requires
            pins_below(Self::pins(), 32),
        ensures
            r == spec_mask(Self::pins()),
    {
        let pins = [N0, N1, N2, N3];
        proof {
            assert(pins@ =~= Self::pins());
        }
        mask_of(&pins)
    }

    /// OMR value that drives each pin as the bit of `val` at its position says.
    pub fn value_for_write_bsrr(val: u32) -> (r: u32)
        requires
            write_fits(Self::pins(), val),
        ensures
            r == spec_write_value(Self::pins(), val),
    {
        let pins = [N0, N1, N2, N3];
        proof {
            assert(pins@ =~= Self::pins());
        }
        write_value_of(&pins, val)
    }

    /// Drives each pin as the bit of `word` at its position says.
    pub fn write(&mut self, word: u32) -> (r: GpioEffect)
        requires
            write_fits(Self::pins(), word),
        ensures
            r == (GpioEffect::Omr { port: P, raw: spec_write_value(Self::pins(), word) }),
    {
        GpioEffect::Omr { port: P, raw: Self::value_for_write_bsrr(word) }
    }

    /// Drives every pin high.
    pub fn set_high(&mut self) -> (r: GpioEffect)
        requires
            pins_below(Self::pins(), 32),
        ensures
            r == (GpioEffect::Omr { port: P, raw: spec_mask(Self::pins()) }),
    {
        GpioEffect::Omr { port: P, raw: Self::mask() }
    }

    /// Drives every pin low.
    pub fn set_low(&mut self) -> (r: GpioEffect)
        requires
            pins_below(Self::pins(), 32),
        ensures
            r == (GpioEffect::Omr { port: P, raw: spec_mask(Self::pins()) << 16u32 }),
    {
        GpioEffect::Omr { port: P, raw: Self::mask() << 16 }
    }

    /// Drives each pin to the state at its position.
    pub fn set_state(&mut self, states: [PinState; 4]) -> (r: GpioEffect)
        requires
            pins_below(Self::pins(), 32),
        ensures
            r == (GpioEffect::Omr { port: P, raw: spec_state_value(Self::pins(), states@) }),
    {
        let pins = [N0, N1, N2, N3];
        proof {
            assert(pins@ =~= Self::pins());
        }
        GpioEffect::Omr { port: P, raw: state_value_of(&pins, &states) }
    }
}

/// 5 output pins of port `P`, numbers `N0, N1, N2, N3, N4`, driven together.
pub struct PinGroup5<const P: u8, const N0: u8, const N1: u8, const N2: u8, const N3: u8, const N4: u8>(pub Pin<P, N0, Output<PushPull>>, pub Pin<P, N1, Output<PushPull>>, pub Pin<P, N2, Output<PushPull>>, pub Pin<P, N3, Output<PushPull>>, pub Pin<P, N4, Output<PushPull>>);

impl<const P: u8, const N0: u8, const N1: u8, const N2: u8, const N3: u8, const N4: u8> PinGroup for (Pin<P, N0, Output<PushPull>>, Pin<P, N1, Output<PushPull>>, Pin<P, N2, Output<PushPull>>, Pin<P, N3, Output<PushPull>>, Pin<P, N4, Output<PushPull>>) {
    type Target = PinGroup5<P, N0, N1, N2, N3, N4>;

    fn into_pin_group(self) -> PinGroup5<P, N0, N1, N2, N3, N4> {
        PinGroup5(self.0, self.1, self.2, self.3, self.4)
    }
}

impl<const P: u8, const N0: u8, const N1: u8, const N2: u8, const N3: u8, const N4: u8> PinGroup5<P, N0, N1, N2, N3, N4> {
    /// Pin numbers of the group, in order.
    pub open spec fn pins() -> Seq<u8> {
        seq![N0, N1, N2, N3, N4]
    }

    /// OMR value that drives every pin high.
    pub fn mask() -> (r: u32)
        requires
            pins_below(Self::pins(), 32),
        ensures
            r == spec_mask(Self::pins()),
    {
        let pins = [N0, N1, N2, N3, N4];
        proof {
            assert(pins@ =~= Self::pins());
        }
        mask_of(&pins)
    }

    /// OMR value that drives each pin as the bit of `val` at its position says.
    pub fn value_for_write_bsrr(val: u32) -> (r: u32)
        requires
            write_fits(Self::pins(), val),
        ensures
            r == spec_write_value(Self::pins(), val),
    {
        let pins = [N0, N1, N2, N3, N4];
        proof {
            assert(pins@ =~= Self::pins());
        }
        write_value_of(&pins, val)
    }

    /// Drives each pin as the bit of `word` at its position says.
    pub fn write(&mut self, word: u32) -> (r: GpioEffect)
        requires
            write_fits(Self::pins(), word),
        ensures
            r == (GpioEffect::Omr { port: P, raw: spec_write_value(Self::pins(), word) }),
    {
        GpioEffect::Omr { port: P, raw: Self::value_for_write_bsrr(word) }
    }

    /// Drives every pin high.
    pub fn set_high(&mut self) -> (r: GpioEffect)
        requires
            pins_below(Self::pins(), 32),
        ensures
            r == (GpioEffect::Omr { port: P, raw: spec_mask(Self::pins()) }),
    {
        GpioEffect::Omr { port: P, raw: Self::mask() }
    }

    /// Drives every pin low.
    pub fn set_low(&mut self) -> (r: GpioEffect)
        requires
            pins_below(Self::pins(), 32),
        ensures
            r == (GpioEffect::Omr { port: P, raw: spec_mask(Self::pins()) << 16u32 }),
    {
        GpioEffect::Omr { port: P, raw: Self::mask() << 16 }
    }

    /// Drives each pin to the state at its position.
    pub fn set_state(&mut self, states: [PinState; 5]) -> (r: GpioEffect)
        requires
            pins_below(Self::pins(), 32),
        ensures
            r == (GpioEffect::Omr { port: P, raw: spec_state_value(Self::pins(), states@) }),
    {
        let pins = [N0, N1, N2, N3, N4];
        proof {
            assert(pins@ =~= Self::pins());
        }
        GpioEffect::Omr { port: P, raw: state_value_of(&pins, &states) }
    }
}

/// 6 output pins of port `P`, numbers `N0, N1, N2, N3, N4, N5`, driven together.
pub struct PinGroup6<const P: u8, const N0: u8, const N1: u8, const N2: u8, const N3: u8, const N4: u8, const N5: u8>(pub Pin<P, N0, Output<PushPull>>, pub Pin<P, N1, Output<PushPull>>, pub Pin<P, N2, Output<PushPull>>, pub Pin<P, N3, Output<PushPull>>, pub Pin<P, N4, Output<PushPull>>, pub Pin<P, N5, Output<PushPull>>);

impl<const P: u8, const N0: u8, const N1: u8, const N2: u8, const N3: u8, const N4: u8, const N5: u8> PinGroup for (Pin<P, N0, Output<PushPull>>, Pin<P, N1, Output<PushPull>>, Pin<P, N2, Output<PushPull>>, Pin<P, N3, Output<PushPull>>, Pin<P, N4, Output<PushPull>>, Pin<P, N5, Output<PushPull>>) {
    type Target = PinGroup6<P, N0, N1, N2, N3, N4, N5>;

    fn into_pin_group(self) -> PinGroup6<P, N0, N1, N2, N3, N4, N5> {
        PinGroup6(self.0, self.1, self.2, self.3, self.4, self.5)
    }
}

impl<const P: u8, const N0: u8, const N1: u8, const N2: u8, const N3: u8, const N4: u8, const N5: u8> PinGroup6<P, N0, N1, N2, N3, N4, N5> {
    /// Pin numbers of the group, in order.
    pub open spec fn pins() -> Seq<u8> {
        seq![N0, N1, N2, N3, N4, N5]
    }

    /// OMR value that drives every pin high.
    pub fn mask() -> (r: u32)
        requires
            pins_below(Self::pins(), 32),
        ensures
            r == spec_mask(Self::pins()),
    {
        let pins = [N0, N1, N2, N3, N4, N5];
        proof {
            assert(pins@ =~= Self::pins());
        }
        mask_of(&pins)
    }

    /// OMR value that drives each pin as the bit of `val` at its position says.
    pub fn value_for_write_bsrr(val: u32) -> (r: u32)
        requires
            write_fits(Self::pins(), val),
        ensures
            r == spec_write_value(Self::pins(), val),
    {
        let pins = [N0, N1, N2, N3, N4, N5];
        proof {
            assert(pins@ =~= Self::pins());
        }
        write_value_of(&pins, val)
    }

    /// Drives each pin as the bit of `word` at its position says.
    pub fn write(&mut self, word: u32) -> (r: GpioEffect)
        requires
            write_fits(Self::pins(), word),
        ensures
            r == (GpioEffect::Omr { port: P, raw: spec_write_value(Self::pins(), word) }),
    {
        GpioEffect::Omr { port: P, raw: Self::value_for_write_bsrr(word) }
    }

    /// Drives every pin high.
    pub fn set_high(&mut self) -> (r: GpioEffect)
        requires
            pins_below(Self::pins(), 32),
        ensures
            r == (GpioEffect::Omr { port: P, raw: spec_mask(Self::pins()) }),
    {
        GpioEffect::Omr { port: P, raw: Self::mask() }
    }

    /// Drives every pin low.
    pub fn set_low(&mut self) -> (r: GpioEffect)
        requires
            pins_below(Self::pins(), 32),
        ensures
            r == (GpioEffect::Omr { port: P, raw: spec_mask(Self::pins()) << 16u32 }),
    {
        GpioEffect::Omr { port: P, raw: Self::mask() << 16 }
    }

    /// Drives each pin to the state at its position.
    pub fn set_state(&mut self, states: [PinState; 6]) -> (r: GpioEffect)
        requires
            pins_below(Self::pins(), 32),
        ensures
            r == (GpioEffect::Omr { port: P, raw: spec_state_value(Self::pins(), states@) }),
    {
        let pins = [N0, N1, N2, N3, N4, N5];
        proof {
            assert(pins@ =~= Self::pins());
        }
        GpioEffect::Omr { port: P, raw: state_value_of(&pins, &states) }
    }
}

/// 7 output pins of port `P`, numbers `N0, N1, N2, N3, N4, N5, N6`, driven together.
pub struct PinGroup7<const P: u8, const N0: u8, const N1: u8, const N2: u8, const N3: u8, const N4: u8, const N5: u8, const N6: u8>(pub Pin<P, N0, Output<PushPull>>, pub Pin<P, N1, Output<PushPull>>, pub Pin<P, N2, Output<PushPull>>, pub Pin<P, N3, Output<PushPull>>, pub Pin<P, N4, Output<PushPull>>, pub Pin<P, N5, Output<PushPull>>, pub Pin<P, N6, Output<PushPull>>);

impl<const P: u8, const N0: u8, const N1: u8, const N2: u8, const N3: u8, const N4: u8, const N5: u8, const N6: u8> PinGroup for (Pin<P, N0, Output<PushPull>>, Pin<P, N1, Output<PushPull>>, Pin<P, N2, Output<PushPull>>, Pin<P, N3, Output<PushPull>>, Pin<P, N4, Output<PushPull>>, Pin<P, N5, Output<PushPull>>, Pin<P, N6, Output<PushPull>>) {
    type Target = PinGroup7<P, N0, N1, N2, N3, N4, N5, N6>;

    fn into_pin_group(self) -> PinGroup7<P, N0, N1, N2, N3, N4, N5, N6> {
        PinGroup7(self.0, self.1, self.2, self.3, self.4, self.5, self.6)
    }
}

impl<const P: u8, const N0: u8, const N1: u8, const N2: u8, const N3: u8, const N4: u8, const N5: u8, const N6: u8> PinGroup7<P, N0, N1, N2, N3, N4, N5, N6> {
    /// Pin numbers of the group, in order.
    pub open spec fn pins() -> Seq<u8> {
        seq![N0, N1, N2, N3, N4, N5, N6]
    }

    /// OMR value that drives every pin high.
    pub fn mask() -> (r: u32)
        requires
            pins_below(Self::pins(), 32),
        ensures
            r == spec_mask(Self::pins()),
    {
        let pins = [N0, N1, N2, N3, N4, N5, N6];
        proof {
            assert(pins@ =~= Self::pins());
        }
        mask_of(&pins)
    }

    /// OMR value that drives each pin as the bit of `val` at its position says.
    pub fn value_for_write_bsrr(val: u32) -> (r: u32)
        requires
            write_fits(Self::pins(), val),
        ensures
            r == spec_write_value(Self::pins(), val),
    {
        let pins = [N0, N1, N2, N3, N4, N5, N6];
        proof {
            assert(pins@ =~= Self::pins());
        }
        write_value_of(&pins, val)
    }

    /// Drives each pin as the bit of `word` at its position says.
    pub fn write(&mut self, word: u32) -> (r: GpioEffect)
        requires
            write_fits(Self::pins(), word),
        ensures
            r == (GpioEffect::Omr { port: P, raw: spec_write_value(Self::pins(), word) }),
    {
        GpioEffect::Omr { port: P, raw: Self::value_for_write_bsrr(word) }
    }

    /// Drives every pin high.
    pub fn set_high(&mut self) -> (r: GpioEffect)
        requires
            pins_below(Self::pins(), 32),
        ensures
            r == (GpioEffect::Omr { port: P, raw: spec_mask(Self::pins()) }),
    {
        GpioEffect::Omr { port: P, raw: Self::mask() }
    }

    /// Drives every pin low.
    pub fn set_low(&mut self) -> (r: GpioEffect)
        requires
            pins_below(Self::pins(), 32),
        ensures
            r == (GpioEffect::Omr { port: P, raw: spec_mask(Self::pins()) << 16u32 }),
    {
        GpioEffect::Omr { port: P, raw: Self::mask() << 16 }
    }

    /// Drives each pin to the state at its position.
    pub fn set_state(&mut self, states: [PinState; 7]) -> (r: GpioEffect)
        requires
            pins_below(Self::pins(), 32),
        ensures
            r == (GpioEffect::Omr { port: P, raw: spec_state_value(Self::pins(), states@) }),
    {
        let pins = [N0, N1, N2, N3, N4, N5, N6];
        proof {
            assert(pins@ =~= Self::pins());
        }
        GpioEffect::Omr { port: P, raw: state_value_of(&pins, &states) }
    }
}

/// 8 output pins of port `P`, numbers `N0, N1, N2, N3, N4, N5, N6, N7`, driven together.
pub struct PinGroup8<const P: u8, const N0: u8, const N1: u8, const N2: u8, const N3: u8, const N4: u8, const N5: u8, const N6: u8, const N7: u8>(pub Pin<P, N0, Output<PushPull>>, pub Pin<P, N1, Output<PushPull>>, pub Pin<P, N2, Output<PushPull>>, pub Pin<P, N3, Output<PushPull>>, pub Pin<P, N4, Output<PushPull>>, pub Pin<P, N5, Output<PushPull>>, pub Pin<P, N6, Output<PushPull>>, pub Pin<P, N7, Output<PushPull>>);

impl<const P: u8, const N0: u8, const N1: u8, const N2: u8, const N3: u8, const N4: u8, const N5: u8, const N6: u8, const N7: u8> PinGroup for (Pin<P, N0, Output<PushPull>>, Pin<P, N1, Output<PushPull>>, Pin<P, N2, Output<PushPull>>, Pin<P, N3, Output<PushPull>>, Pin<P, N4, Output<PushPull>>, Pin<P, N5, Output<PushPull>>, Pin<P, N6, Output<PushPull>>, Pin<P, N7, Output<PushPull>>) {
    type Target = PinGroup8<P, N0, N1, N2, N3, N4, N5, N6, N7>;

    fn into_pin_group(self) -> PinGroup8<P, N0, N1, N2, N3, N4, N5, N6, N7> {
        PinGroup8(self.0, self.1, self.2, self.3, self.4, self.5, self.6, self.7)
    }
}

impl<const P: u8, const N0: u8, const N1: u8, const N2: u8, const N3: u8, const N4: u8, const N5: u8, const N6: u8, const N7: u8> PinGroup8<P, N0, N1, N2, N3, N4, N5, N6, N7> {
    /// Pin numbers of the group, in order.
    pub open spec fn pins() -> Seq<u8> {
        seq![N0, N1, N2, N3, N4, N5, N6, N7]
    }

    /// OMR value that drives every pin high.
    pub fn mask() -> (r: u32)
        requires
            pins_below(Self::pins(), 32),
        ensures
            r == spec_mask(Self::pins()),
    {
        let pins = [N0, N1, N2, N3, N4, N5, N6, N7];
        proof {
            assert(pins@ =~= Self::pins());
        }
        mask_of(&pins)
    }

    /// OMR value that drives each pin as the bit of `val` at its position says.
    pub fn value_for_write_bsrr(val: u32) -> (r: u32)
        requires
            write_fits(Self::pins(), val),
        ensures
            r == spec_write_value(Self::pins(), val),
    {
        let pins = [N0, N1, N2, N3, N4, N5, N6, N7];
        proof {
            assert(pins@ =~= Self::pins());
        }
        write_value_of(&pins, val)
    }

    /// Drives each pin as the bit of `word` at its position says.
    pub fn write(&mut self, word: u32) -> (r: GpioEffect)
        requires
            write_fits(Self::pins(), word),
        ensures
            r == (GpioEffect::Omr { port: P, raw: spec_write_value(Self::pins(), word) }),
    {
        GpioEffect::Omr { port: P, raw: Self::value_for_write_bsrr(word) }
    }

    /// Drives every pin high.
    pub fn set_high(&mut self) -> (r: GpioEffect)
        requires
            pins_below(Self::pins(), 32),
        ensures
            r == (GpioEffect::Omr { port: P, raw: spec_mask(Self::pins()) }),
    {
        GpioEffect::Omr { port: P, raw: Self::mask() }
    }

    /// Drives every pin low.
    pub fn set_low(&mut self) -> (r: GpioEffect)
        requires
            pins_below(Self::pins(), 32),
        ensures
            r == (GpioEffect::Omr { port: P, raw: spec_mask(Self::pins()) << 16u32 }),
    {
        GpioEffect::Omr { port: P, raw: Self::mask() << 16 }
    }

    /// Drives each pin to the state at its position.
    pub fn set_state(&mut self, states: [PinState; 8]) -> (r: GpioEffect)
        requires
            pins_below(Self::pins(), 32),
        ensures
            r == (GpioEffect::Omr { port: P, raw: spec_state_value(Self::pins(), states@) }),
    {
        let pins = [N0, N1, N2, N3, N4, N5, N6, N7];
        proof {
            assert(pins@ =~= Self::pins());
        }
        GpioEffect::Omr { port: P, raw: state_value_of(&pins, &states) }
    }
}

} // verus!
