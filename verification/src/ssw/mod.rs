//! Start-up software: what the reset status says, and whether the clocks
//! need to be configured.
use vstd::prelude::*;
use crate::scu::ccu::{Config, default_clock_config, is_default_config};

verus! {

/// RSTSTAT bits of the reset triggers whose reset type RSTCON gives: ESR0
/// (0), ESR1 (1), SMU (3), SW (4), STM0 (5), STM1 (6), STM2 (7).
pub const APP_RESET_MSK: u32 = 0x0000_00FB;

/// RSTSTAT bits of power-on, supply and standby resets: PORST (16), CB0
/// (18), CB1 (19), EVRC (23), EVR33 (24), SWD (25), STBYR (28).
pub const POWER_RESET_MSK: u32 = 0x138D_0000;

/// RSTSTAT bit of a CB3 reset.
pub const CB3_BIT: u32 = 20;

/// Index of the highest bit set in `v` (which is not zero).
pub open spec fn highest_bit(v: u32) -> u32 {
    (31 - v.leading_zeros()) as u32
}

/// Whether the last reset was an application reset, given RSTSTAT, RSTCON
/// and the RSTSTAT field of the CPU0 KRST0 register: not after a power-on,
/// supply or standby reset; after a reset of a trigger in
/// [`APP_RESET_MSK`], when RSTCON configures the highest such trigger as an
/// application reset (value 2 in its two bits); else after a CB3 reset or a
/// CPU0 kernel reset.
pub open spec fn spec_is_application_reset(rststat: u32, rstcon: u32, krst0_rststat: u8) -> bool {
    if rststat & POWER_RESET_MSK != 0 {
        false
    } else if rststat & APP_RESET_MSK > 0 {
        let v = rststat & APP_RESET_MSK;
        (rstcon >> (highest_bit(v) << 1u32)) & 3 == 2
    } else {
        (rststat >> CB3_BIT) & 1 == 1 || krst0_rststat != 0
    }
}

/// Whether the last reset was an application reset.
pub fn is_application_reset(rststat: u32, rstcon: u32, krst0_rststat: u8) -> (r: bool)
    ensures
        r == spec_is_application_reset(rststat, rstcon, krst0_rststat),
{
    if rststat & POWER_RESET_MSK != 0 {
        false
    } else if rststat & APP_RESET_MSK > 0 {
        let v = rststat & APP_RESET_MSK;
        let lz = v.leading_zeros();
        proof {
            vstd::std_specs::bits::axiom_u32_leading_zeros(v);
            assert(v <= 0xFF) by (bit_vector)
                requires
                    v == rststat & 0xFBu32,
            ;
            if lz < 24 {
                let k: u32 = (31 - lz) as u32;
                assert((v >> k) & 1u32 == 0u32) by (bit_vector)
                    requires
                        v <= 0xFF,
                        8 <= k < 32,
                ;
            }
            assert(24 <= lz <= 31);
            let h: u32 = (31 - lz) as u32;
            assert(h << 1u32 < 32 && h << 1u32 == 2 * h) by (bit_vector)
                requires
                    h <= 7,
            ;
        }
        let shift: u32 = (31 - lz) << 1;
        let v = (rstcon >> shift) & 3;
        v == 2
    } else if (rststat >> CB3_BIT) & 1 == 1 {
        true
    } else if krst0_rststat != 0 {
        true
    } else {
        false
    }
}

/// The clock configuration to apply at start-up: none after an application
/// reset (the clocks kept their configuration), the default one otherwise.
pub fn init_clock(application_reset: bool) -> (r: Option<Config>)
    ensures
        r is None <==> application_reset,
        r matches Some(c) ==> is_default_config(c),
{
    if application_reset {
        None
    } else {
        Some(default_clock_config())
    }
}

} // verus!
