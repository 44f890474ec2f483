//! Watchdog control: lifting and restoring the end-of-init protection of the
//! CPU and safety watchdogs, and disabling them.
//!
//! WDTxCON0 holds ENDINIT (bit 0), LCK (bit 1), the password PW (bits 2 to
//! 15) and the reload value REL (bits 16 to 31). WDTxCON1 holds the disable
//! request DR (bit 3).
use vstd::prelude::*;
use crate::can::reg::{field_get, field_set, get_field, set_field};

verus! {

/// Start bit of the password field of WDTxCON0.
pub const PW_START: u32 = 2;
/// Mask of the password field of WDTxCON0.
pub const PW_MASK: u32 = 0x3FFF;
/// Start bit of the reload field of WDTxCON0.
pub const REL_START: u32 = 16;
/// Mask of the reload field of WDTxCON0.
pub const REL_MASK: u32 = 0xFFFF;
/// Bit of the disable request in WDTxCON1.
pub const DR_BIT: u32 = 3;

/// The password to write back: bits 7 to 2 of the register (the low six
/// bits of the field) inverted.
pub open spec fn spec_correct_password(password: u16) -> u16 {
    password ^ 0x003F
}

/// The password to write back for the password field `password` read.
pub fn correct_password(password: u16) -> (r: u16)
    ensures
        r == spec_correct_password(password),
{
    password ^ 0x003F
}

/// WDTxCON0 with ENDINIT, LCK, PW and REL set.
pub open spec fn con0_with(con0: u32, endinit: bool, lck: bool, pw: u16, rel: u16) -> u32 {
    field_set(
        field_set(
            field_set(field_set(con0, 0, 1, if endinit { 1 } else { 0 }), 1, 1, if lck { 1 } else { 0 }),
            PW_START,
            PW_MASK,
            pw as u32,
        ),
        REL_START,
        REL_MASK,
        rel as u32,
    )
}

/// WDTxCON0 values written to give ENDINIT the value `endinit`, from the
/// value `con0` read: a locked register is first unlocked (ENDINIT set, LCK
/// clear), then ENDINIT is written and the register locked again. Each write
/// carries the corrected password and the reload value read.
pub open spec fn spec_endinit_writes(con0: u32, endinit: bool) -> Seq<u32> {
    let pw = spec_correct_password(field_get(con0, PW_START, PW_MASK) as u16);
    let rel = field_get(con0, REL_START, REL_MASK) as u16;
    if field_get(con0, 1, 1) == 1 {
        let unlocked = con0_with(con0, true, false, pw, rel);
        seq![unlocked, con0_with(unlocked, endinit, true, pw, rel)]
    } else {
        seq![con0_with(con0, endinit, true, pw, rel)]
    }
}

fn write_con0(con0: u32, endinit: bool, lck: bool, pw: u16, rel: u16) -> (r: u32)
    ensures
        r == con0_with(con0, endinit, lck, pw, rel),
{
    let v = set_field(con0, 0, 1, if endinit { 1 } else { 0 });
    let v = set_field(v, 1, 1, if lck { 1 } else { 0 });
    let v = set_field(v, PW_START, PW_MASK, pw as u32);
    set_field(v, REL_START, REL_MASK, rel as u32)
}

/// The WDTxCON0 values to write so that ENDINIT reads `endinit`, given the
/// value `con0` read. After them the caller waits until ENDINIT reads back.
pub fn endinit_writes(con0: u32, endinit: bool) -> (r: Vec<u32>)
    ensures
        r@ == spec_endinit_writes(con0, endinit),
{
    let pw_field = get_field(con0, PW_START, PW_MASK);
    proof {
        crate::can::reg::lemma_field_get_bound(con0, PW_START, PW_MASK);
        crate::can::reg::lemma_field_get_bound(con0, REL_START, REL_MASK);
    }
    let password = correct_password(pw_field as u16);
    let rel = get_field(con0, REL_START, REL_MASK) as u16;
    let mut writes: Vec<u32> = Vec::new();
    if get_field(con0, 1, 1) == 1 {
        let unlocked = write_con0(con0, true, false, password, rel);
        writes.push(unlocked);
        writes.push(write_con0(unlocked, endinit, true, password, rel));
    } else {
        writes.push(write_con0(con0, endinit, true, password, rel));
    }
    proof {
        assert(writes@ =~= spec_endinit_writes(con0, endinit));
    }
    writes
}

/// Whether the WDTxCON0 value `con0` read back shows ENDINIT at `endinit`:
/// after the writes of [`endinit_writes`], the register is read until it
/// does.
pub fn endinit_reached(con0: u32, endinit: bool) -> (r: bool)
    ensures
        r == ((field_get(con0, 0, 1) == 1) == endinit),
{
    (get_field(con0, 0, 1) == 1) == endinit
}

/// The writes of the current CPU's WDTCPUyCON0 that lift its end-of-init
/// protection, given the value read.
pub fn clear_cpu_endinit_inline(con0: u32) -> (r: Vec<u32>)
    ensures
        r@ == spec_endinit_writes(con0, false),
{
    endinit_writes(con0, false)
}

/// The writes of the current CPU's WDTCPUyCON0 that restore its end-of-init
/// protection, given the value read.
pub fn set_cpu_endinit_inline(con0: u32) -> (r: Vec<u32>)
    ensures
        r@ == spec_endinit_writes(con0, true),
{
    endinit_writes(con0, true)
}

/// The writes of WDTSCON0 that lift the safety end-of-init protection,
/// given the value read.
pub fn clear_safety_endinit_inline(con0: u32) -> (r: Vec<u32>)
    ensures
        r@ == spec_endinit_writes(con0, false),
{
    endinit_writes(con0, false)
}

/// The writes of WDTSCON0 that restore the safety end-of-init protection,
/// given the value read.
pub fn set_safety_endinit_inline(con0: u32) -> (r: Vec<u32>)
    ensures
        r@ == spec_endinit_writes(con0, true),
{
    endinit_writes(con0, true)
}

/// A write of a watchdog's control registers.
#[derive(Clone, Copy, PartialEq, Eq, Structural, Debug)]
pub enum WdtWrite {
    Con0(u32),
    Con1(u32),
}

/// The writes `values` of WDTxCON0.
pub open spec fn con0_writes(values: Seq<u32>) -> Seq<WdtWrite> {
    values.map_values(|v: u32| WdtWrite::Con0(v))
}

/// Writes that disable a watchdog: its end-of-init protection lifted (from
/// the WDTxCON0 value `con0_before` read), the disable request set in
/// WDTxCON1 (value `con1` read), the protection restored (from the WDTxCON0
/// value `con0_after` read then).
pub open spec fn spec_disable_watchdog(con0_before: u32, con1: u32, con0_after: u32) -> Seq<
    WdtWrite,
> {
    con0_writes(spec_endinit_writes(con0_before, false)) + seq![
        WdtWrite::Con1(field_set(con1, DR_BIT, 1, 1)),
    ] + con0_writes(spec_endinit_writes(con0_after, true))
}

/// WDTxCON1 with the disable request set, from the value `con1` read.
pub fn con1_with_disable_request(con1: u32) -> (r: u32)
    ensures
        r == field_set(con1, DR_BIT, 1, 1),
{
    set_field(con1, DR_BIT, 1, 1)
}

fn push_con0_writes(out: &mut Vec<WdtWrite>, values: Vec<u32>)
    ensures
        final(out)@ == old(out)@ + con0_writes(values@),
{
    let ghost start = out@;
    let mut i: usize = 0;
    while i < values.len()
        invariant
            i <= values@.len(),
            out@ == start + con0_writes(values@.take(i as int)),
        decreases values.len() - i,
    {
        out.push(WdtWrite::Con0(values[i]));
        proof {
            assert(values@.take(i + 1) =~= values@.take(i as int).push(values@[i as int]));
            assert(out@ =~= start + con0_writes(values@.take(i + 1)));
        }
        i = i + 1;
    }
    proof {
        assert(values@.take(i as int) =~= values@);
    }
}

/// Writes that disable a watchdog, given the register values read.
pub fn disable_watchdog(con0_before: u32, con1: u32, con0_after: u32) -> (r: Vec<WdtWrite>)
    ensures
        r@ == spec_disable_watchdog(con0_before, con1, con0_after),
{
    let mut out: Vec<WdtWrite> = Vec::new();
    push_con0_writes(&mut out, endinit_writes(con0_before, false));
    out.push(WdtWrite::Con1(con1_with_disable_request(con1)));
    push_con0_writes(&mut out, endinit_writes(con0_after, true));
    proof {
        assert(out@ =~= spec_disable_watchdog(con0_before, con1, con0_after));
    }
    out
}

/// Writes that disable the safety watchdog, given WDTSCON0 before, WDTSCON1,
/// and WDTSCON0 after the protection was lifted.
pub fn disable_safety_watchdog(con0_before: u32, con1: u32, con0_after: u32) -> (r: Vec<WdtWrite>)
    ensures
        r@ == spec_disable_watchdog(con0_before, con1, con0_after),
{
    disable_watchdog(con0_before, con1, con0_after)
}

/// Writes that disable the current CPU's watchdog, given WDTCPUyCON0 before,
/// WDTCPUyCON1, and WDTCPUyCON0 after the protection was lifted.
pub fn disable_cpu_watchdog(con0_before: u32, con1: u32, con0_after: u32) -> (r: Vec<WdtWrite>)
    ensures
        r@ == spec_disable_watchdog(con0_before, con1, con0_after),
{
    disable_watchdog(con0_before, con1, con0_after)
}

/// The fields of a value built by [`con0_with`] read back as written.
proof fn lemma_con0_with_fields(con0: u32, endinit: bool, lck: bool, pw: u16, rel: u16)
    requires
        pw <= 0x3FFF,
    ensures
        field_get(con0_with(con0, endinit, lck, pw, rel), 0, 1) == (if endinit { 1u32 } else { 0u32 }),
        field_get(con0_with(con0, endinit, lck, pw, rel), 1, 1) == (if lck { 1u32 } else { 0u32 }),
        field_get(con0_with(con0, endinit, lck, pw, rel), PW_START, PW_MASK) == pw as u32,
        field_get(con0_with(con0, endinit, lck, pw, rel), REL_START, REL_MASK) == rel as u32,
{
    let e: u32 = if endinit { 1 } else { 0 };
    let l: u32 = if lck { 1 } else { 0 };
    let p = pw as u32;
    let q = rel as u32;
    assert({
        let v = (((((((con0 & !(1u32 << 0u32)) | ((e & 1u32) << 0u32)) & !(1u32 << 1u32)) | ((l & 1u32)
            << 1u32)) & !(0x3FFFu32 << 2u32)) | ((p & 0x3FFFu32) << 2u32)) & !(0xFFFFu32 << 16u32))
            | ((q & 0xFFFFu32) << 16u32);
        &&& (v >> 0u32) & 1u32 == e
        &&& (v >> 1u32) & 1u32 == l
        &&& (v >> 2u32) & 0x3FFFu32 == p
        &&& (v >> 16u32) & 0xFFFFu32 == q
    }) by (bit_vector)
        requires
            e <= 1,
            l <= 1,
            p <= 0x3FFF,
            q <= 0xFFFF,
    ;
}

/// Lifting the end-of-init protection and then restoring it, each from the
/// value the last write left, ends with the register locked, ENDINIT set,
/// and the password and reload value it started with.
pub proof fn lemma_clear_then_set_endinit(con0: u32)
    ensures
        ({
            let cleared = spec_endinit_writes(con0, false).last();
            let set = spec_endinit_writes(cleared, true).last();
            &&& field_get(cleared, 0, 1) == 0
            &&& field_get(cleared, 1, 1) == 1
            &&& field_get(set, 0, 1) == 1
            &&& field_get(set, 1, 1) == 1
            &&& field_get(set, REL_START, REL_MASK) == field_get(con0, REL_START, REL_MASK)
            &&& field_get(set, PW_START, PW_MASK) == field_get(con0, PW_START, PW_MASK)
        }),
{
    let pw0 = field_get(con0, PW_START, PW_MASK);
    let rel0 = field_get(con0, REL_START, REL_MASK);
    crate::can::reg::lemma_field_get_bound(con0, PW_START, PW_MASK);
    crate::can::reg::lemma_field_get_bound(con0, REL_START, REL_MASK);
    let pw = spec_correct_password(pw0 as u16);
    let rel = rel0 as u16;
    assert(pw <= 0x3FFF && (pw ^ 0x3Fu16) as u32 == pw0) by (bit_vector)
        requires
            pw == (pw0 as u16) ^ 0x3Fu16,
            pw0 <= 0x3FFF,
    ;
    if field_get(con0, 1, 1) == 1 {
        let unlocked = con0_with(con0, true, false, pw, rel);
        lemma_con0_with_fields(con0, true, false, pw, rel);
        lemma_con0_with_fields(unlocked, false, true, pw, rel);
    } else {
        lemma_con0_with_fields(con0, false, true, pw, rel);
    }
    let cleared = spec_endinit_writes(con0, false).last();
    let pw1 = spec_correct_password(field_get(cleared, PW_START, PW_MASK) as u16);
    assert(pw1 as u32 == pw0);
    let unlocked2 = con0_with(cleared, true, false, pw1, rel);
    lemma_con0_with_fields(cleared, true, false, pw1, rel);
    lemma_con0_with_fields(unlocked2, true, true, pw1, rel);
}

} // verus!
