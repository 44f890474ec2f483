//! Clock control unit: the clock configuration, the register operations that
//! apply it, and the frequencies that the clock registers give.
//!
//! Configuring the clocks alternates register writes with waits on status
//! bits. The functions here return the operations ([`CcuOp`]) in the order
//! they are performed; whoever performs them stops at the first wait that
//! times out.
use vstd::prelude::*;

verus! {

/// Timeout, in polls, of the wait for the PLL power state.
pub const SYSPLLSTAT_PWDSTAT_TIMEOUT_COUNT: usize = 0x3000;
/// Timeout, in polls, of the wait for the oscillator frequency check.
pub const OSCCON_PLLLV_OR_HV_TIMEOUT_COUNT: usize = 0x493E0;
/// Timeout, in polls, of the wait for the PLL lock.
pub const PLL_LOCK_TIMEOUT_COUNT: usize = 0x3000;
/// Timeout, in polls, of the wait for a CCUCON register to unlock.
pub const CCUCON_LCK_BIT_TIMEOUT_COUNT: usize = 0x1000;
/// Timeout, in polls, of the wait for the K dividers to be ready.
pub const PLL_KRDY_TIMEOUT_COUNT: usize = 0x6000;

/// Frequency of the back-up clock, in Hz.
pub const EVR_OSC_FREQUENCY: u32 = 100_000_000;
/// Frequency of the crystal, in Hz.
pub const XTAL_FREQUENCY: u32 = 20_000_000;
/// Frequency of the system clock input, in Hz.
pub const SYSCLK_FREQUENCY: u32 = 20_000_000;

/// Why the clock initialisation stopped.
#[derive(Clone, Copy, PartialEq, Eq, Structural, Debug)]
pub enum InitError {
    ConfigureCCUInitialStep,
    DistributeClockInline,
    ThrottleSysPllClockInline,
}

/// Dividers of the system PLL (each one less than the divisor).
#[derive(Clone, Copy, PartialEq, Eq, Structural, Debug)]
pub struct SysPllConfig {
    pub p_divider: u8,
    pub n_divider: u8,
    pub k2_divider: u8,
}

/// Dividers of the peripheral PLL (each one less than the divisor).
#[derive(Clone, Copy, PartialEq, Eq, Structural, Debug)]
pub struct PerPllConfig {
    pub p_divider: u8,
    pub n_divider: u8,
    pub k2_divider: u8,
    pub k3_divider: u8,
    pub k3_divider_bypass: bool,
}

/// Input clock of the PLLs.
#[derive(Clone, Copy, PartialEq, Eq, Structural, Debug)]
pub enum PllInputClockSelection {
    F0sc1,
    F0sc0,
    FSynclk,
}

/// Value of SYSPLLCON0.INSEL for an input clock.
pub open spec fn insel_code(s: PllInputClockSelection) -> u8 {
    match s {
        PllInputClockSelection::F0sc1 => 0,
        PllInputClockSelection::F0sc0 => 1,
        PllInputClockSelection::FSynclk => 2,
    }
}

impl PllInputClockSelection {
    /// Value of SYSPLLCON0.INSEL.
    pub fn code(self) -> (r: u8)
        ensures
            r == insel_code(self),
    {
        match self {
            PllInputClockSelection::F0sc1 => 0,
            PllInputClockSelection::F0sc0 => 1,
            PllInputClockSelection::FSynclk => 2,
        }
    }
}

/// Parameters of both PLLs.
#[derive(Clone, Copy, PartialEq, Eq, Structural, Debug)]
pub struct PllsParameterConfig {
    pub xtal_frequency: u32,
    pub pll_input_clock_selection: PllInputClockSelection,
    pub sys_pll: SysPllConfig,
    pub per_pll: PerPllConfig,
}

/// First step of the PLL configuration, and the time to wait after it in
/// microseconds.
#[derive(Clone, Copy, PartialEq, Eq, Structural, Debug)]
pub struct InitialConfigStep {
    pub plls_parameters: PllsParameterConfig,
    pub wait_time_us: u32,
}

/// A step of the system PLL ramp-up: the K2 divider, and the time to wait
/// after it in microseconds.
#[derive(Clone, Copy, PartialEq, Eq, Structural, Debug)]
pub struct PllStepConfig {
    pub k2_step: u8,
    pub wait_time_us: u32,
}

/// Dividers of CCUCON0.
#[derive(Clone, Copy, PartialEq, Eq, Structural, Debug)]
pub struct Con0RegConfig {
    pub stm_div: u8,
    pub gtm_div: u8,
    pub sri_div: u8,
    pub lp_div: u8,
    pub spb_div: u8,
    pub bbb_div: u8,
    pub fsi_div: u8,
    pub fsi2_div: u8,
}

/// Dividers and clock selections of CCUCON1.
#[derive(Clone, Copy, PartialEq, Eq, Structural, Debug)]
pub struct Con1RegConfig {
    pub mcan_div: u8,
    pub clksel_mcan: u8,
    pub pll1_div_dis: bool,
    pub i2c_div: u8,
    pub msc_div: u8,
    pub clksel_msc: u8,
    pub qspi_div: u8,
    pub clksel_qspi: u8,
}

/// Dividers and clock selection of CCUCON2.
#[derive(Clone, Copy, PartialEq, Eq, Structural, Debug)]
pub struct Con2RegConfig {
    pub asclinf_div: u8,
    pub asclins_div: u8,
    pub clksel_asclins: u8,
}

/// Dividers of CCUCON5 (the ADAS divider is not written).
#[derive(Clone, Copy, PartialEq, Eq, Structural, Debug)]
pub struct Con5RegConfig {
    pub geth_div: u8,
    pub mcanh_div: u8,
    pub adas_div: u8,
}

/// CPU0 divider (CCUCON6).
#[derive(Clone, Copy, PartialEq, Eq, Structural, Debug)]
pub struct Con6RegConfig {
    pub cpu0_div: u8,
}

/// CPU1 divider (CCUCON7).
#[derive(Clone, Copy, PartialEq, Eq, Structural, Debug)]
pub struct Con7RegConfig {
    pub cpu1_div: u8,
}

/// CPU2 divider (CCUCON8).
#[derive(Clone, Copy, PartialEq, Eq, Structural, Debug)]
pub struct Con8RegConfig {
    pub cpu2_div: u8,
}

/// Clock distribution: the values of the CCUCON registers.
#[derive(Clone, Copy, PartialEq, Eq, Structural, Debug)]
pub struct ClockDistributionConfig {
    pub ccucon0: Con0RegConfig,
    pub ccucon1: Con1RegConfig,
    pub ccucon2: Con2RegConfig,
    pub ccucon5: Con5RegConfig,
    pub ccucon6: Con6RegConfig,
    pub ccucon7: Con7RegConfig,
    pub ccucon8: Con8RegConfig,
}

/// Flash wait states: value and mask.
#[derive(Clone, Copy, PartialEq, Eq, Structural, Debug)]
pub struct FlashWaitStateConfig {
    pub value: u32,
    pub mask: u32,
}

/// Whether the system PLL frequency is modulated.
#[derive(Clone, Copy, PartialEq, Eq, Structural, Debug)]
pub enum ModulationEn {
    Disabled,
    Enabled,
}

/// Modulation amplitude: 0.5 %, 1 %, 1.25 %, 1.5 %, 2 % or 2.5 %.
#[derive(Clone, Copy, PartialEq, Eq, Structural, Debug)]
pub enum ModulationAmplitude {
    _0p5,
    _1p0,
    _1p25,
    _1p5,
    _2p0,
    _2p5,
}

/// Frequency modulation of the system PLL.
#[derive(Clone, Copy, PartialEq, Eq, Structural, Debug)]
pub struct ModulationConfig {
    pub enable: ModulationEn,
    pub amp: ModulationAmplitude,
}

/// The whole clock configuration.
pub struct Config {
    pub pll_initial_step: InitialConfigStep,
    pub sys_pll_throttle: Vec<PllStepConfig>,
    pub clock_distribution: ClockDistributionConfig,
    pub flash_wait_state: FlashWaitStateConfig,
    pub modulation: ModulationConfig,
}

/// A clock control register.
#[derive(Clone, Copy, PartialEq, Eq, Structural, Debug)]
pub enum CcuReg {
    Ccucon0,
    Ccucon1,
    Ccucon2,
    Ccucon5,
}

/// An operation of the clock configuration. Field names are those of the
/// registers; a modification reads the register, changes the named fields
/// and writes it back.
#[derive(Clone, Copy, PartialEq, Eq, Structural, Debug)]
pub enum CcuOp {
    /// Lift the safety end-of-init protection.
    ClearSafetyEndinit,
    /// Restore the safety end-of-init protection.
    SetSafetyEndinit,
    /// Wait, at most [`CCUCON_LCK_BIT_TIMEOUT_COUNT`] polls, while the LCK
    /// bit of the register is set.
    WaitUnlocked(CcuReg),
    /// CCUCON0: CLKSEL and UP.
    Ccucon0ClockSelect { clksel: u8, up: bool },
    /// CCUCON0: the eight dividers.
    Ccucon0Dividers(Con0RegConfig),
    /// CCUCON1: dividers and clock selections, with the selections replaced
    /// by the given ones.
    Ccucon1 { con1: Con1RegConfig, clksel_mcan: u8, clksel_msc: u8, clksel_qspi: u8 },
    /// CCUCON2: dividers and clock selection, with the selection replaced by
    /// the given one.
    Ccucon2 { con2: Con2RegConfig, clksel_asclins: u8 },
    /// CCUCON5: GETHDIV and MCANHDIV, with UP set.
    Ccucon5 { geth_div: u8, mcanh_div: u8 },
    /// CCUCON6.CPU0DIV.
    Ccucon6(u8),
    /// CCUCON7.CPU1DIV.
    Ccucon7(u8),
    /// CCUCON8.CPU2DIV.
    Ccucon8(u8),
    /// SMU KEYS written with this CFGLCK value, the other bits zero.
    SmuKeys(u8),
    /// Bits 0x1D cleared in SMU alarm group 8 configuration register `j`.
    SmuClearAlarmConfig(u8),
    /// SMU CMD written with this value.
    SmuCmd(u32),
    /// SMU alarm group 8 status written with this value.
    SmuAlarmStatus(u32),
    /// PLLPWD of SYSPLLCON0 and of PERPLLCON0, then wait, at most
    /// [`SYSPLLSTAT_PWDSTAT_TIMEOUT_COUNT`] polls, while either PWDSTAT
    /// equals the value written.
    PllPower { sys: bool, per: bool },
    /// OSCCON: MODE and OSCVAL.
    Oscillator { mode: u8, oscval: u8 },
    /// SYSPLLCON0: PDIV, NDIV and INSEL.
    SysPllDividers { pdiv: u8, ndiv: u8, insel: u8 },
    /// PERPLLCON0: DIVBY, PDIV and NDIV.
    PerPllDividers { divby: bool, pdiv: u8, ndiv: u8 },
    /// Wait, at most [`PLL_KRDY_TIMEOUT_COUNT`] polls, while a K divider of
    /// either PLL is not ready.
    WaitDividers,
    /// SYSPLLCON1.K2DIV.
    SysPllK2(u8),
    /// PERPLLCON1: K2DIV and K3DIV.
    PerPllK2K3 { k2: u8, k3: u8 },
    /// Wait, at most [`OSCCON_PLLLV_OR_HV_TIMEOUT_COUNT`] polls, while
    /// OSCCON.PLLLV and OSCCON.PLLHV are both clear.
    WaitOscillatorCheck,
    /// RESLD of both PLLs, then wait, at most [`PLL_LOCK_TIMEOUT_COUNT`]
    /// polls, while either PLL is unlocked.
    RestartPllLock,
    /// Wait, at most [`PLL_KRDY_TIMEOUT_COUNT`] polls, while SYSPLLSTAT.K2RDY
    /// is clear.
    WaitSysPllK2Ready,
    /// SYSPLLCON2.MODCFG.
    Modulation(u16),
    /// SYSPLLCON0.MODEN set.
    EnableModulation,
}

/// Value of OSCCON.OSCVAL for a crystal of `xtal` Hz, if it fits the field
/// type.
pub open spec fn spec_oscval(xtal: u32) -> Option<u8> {
    let v = xtal / 1_000_000 - 15;
    if v <= 255 {
        Some(v as u8)
    } else {
        None
    }
}

/// Whether the PLL input is an oscillator whose mode and value are set.
pub open spec fn uses_oscillator(s: PllInputClockSelection) -> bool {
    s == PllInputClockSelection::F0sc0 || s == PllInputClockSelection::FSynclk
}

/// Operations of the first configuration step, up to and including the
/// oscillator setting: protection lifted, back-up clock selected, SMU alarms
/// of the clock monitors disabled, both PLLs powered down.
pub open spec fn spec_initial_prefix() -> Seq<CcuOp> {
    seq![
        CcuOp::ClearSafetyEndinit,
        CcuOp::WaitUnlocked(CcuReg::Ccucon0),
        CcuOp::Ccucon0ClockSelect { clksel: 0, up: true },
        CcuOp::WaitUnlocked(CcuReg::Ccucon0),
        CcuOp::SmuKeys(0xBC),
        CcuOp::SmuClearAlarmConfig(0),
        CcuOp::SmuClearAlarmConfig(1),
        CcuOp::SmuClearAlarmConfig(2),
        CcuOp::SmuKeys(0),
        CcuOp::PllPower { sys: false, per: false },
    ]
}

/// Operations of the first configuration step after the oscillator setting:
/// PLL dividers, power up, K dividers, oscillator check, PLL lock, SMU alarms
/// enabled, PLL clock selected, protection restored.
pub open spec fn spec_initial_suffix(p: PllsParameterConfig) -> Seq<CcuOp> {
    seq![
        CcuOp::SysPllDividers {
            pdiv: p.sys_pll.p_divider,
            ndiv: p.sys_pll.n_divider,
            insel: insel_code(p.pll_input_clock_selection),
        },
        CcuOp::PerPllDividers {
            divby: p.per_pll.k3_divider_bypass,
            pdiv: p.per_pll.p_divider,
            ndiv: p.per_pll.n_divider,
        },
        CcuOp::PllPower { sys: true, per: true },
        CcuOp::WaitDividers,
        CcuOp::SysPllK2(p.sys_pll.k2_divider),
        CcuOp::PerPllK2K3 { k2: p.per_pll.k2_divider, k3: p.per_pll.k3_divider },
        CcuOp::WaitDividers,
        CcuOp::WaitOscillatorCheck,
        CcuOp::RestartPllLock,
        CcuOp::SmuKeys(0xBC),
        CcuOp::SmuCmd(5),
        CcuOp::SmuAlarmStatus(0x1D),
        CcuOp::SmuKeys(0),
        CcuOp::WaitUnlocked(CcuReg::Ccucon0),
        CcuOp::Ccucon0ClockSelect { clksel: 1, up: true },
        CcuOp::WaitUnlocked(CcuReg::Ccucon0),
        CcuOp::SetSafetyEndinit,
    ]
}

/// Whether the oscillator value of `p` can be computed without underflow.
pub open spec fn crystal_fits(p: PllsParameterConfig) -> bool {
    uses_oscillator(p.pll_input_clock_selection) ==> p.xtal_frequency / 1_000_000 >= 15
}

fn push_all(out: &mut Vec<CcuOp>, ops: &[CcuOp])
    ensures
        final(out)@ == old(out)@ + ops@,
{
    let ghost start = out@;
    let mut i: usize = 0;
    while i < ops.len()
        invariant
            i <= ops@.len(),
            out@ == start + ops@.take(i as int),
        decreases ops.len() - i,
    {
        out.push(ops[i]);
        proof {
            assert(ops@.take(i + 1) =~= ops@.take(i as int).push(ops@[i as int]));
        }
        i = i + 1;
    }
    proof {
        assert(ops@.take(i as int) =~= ops@);
    }
}

/// The operations of the first configuration step, and how it ends: `Err`
/// when the crystal frequency gives an oscillator value that does not fit
/// its field, after the operations up to the PLL power down. The oscillator
/// is set when the PLL input is `F0sc0` or `FSynclk`.
pub fn configure_ccu_initial_step(config: &Config) -> (r: (Vec<CcuOp>, Result<(), ()>))
    requires
        crystal_fits(config.pll_initial_step.plls_parameters),
    ensures
        ({
            let p = config.pll_initial_step.plls_parameters;
            if !uses_oscillator(p.pll_input_clock_selection) {
                &&& r.1 is Ok
                &&& r.0@ == spec_initial_prefix() + spec_initial_suffix(p)
            } else if let Some(oscval) = spec_oscval(p.xtal_frequency) {
                &&& r.1 is Ok
                &&& r.0@ == spec_initial_prefix() + seq![CcuOp::Oscillator { mode: 0, oscval }]
                    + spec_initial_suffix(p)
            } else {
                &&& r.1 is Err
                &&& r.0@ == spec_initial_prefix()
            }
        }),
{
    let mut ops: Vec<CcuOp> = Vec::new();
    let prefix = [
        CcuOp::ClearSafetyEndinit,
        CcuOp::WaitUnlocked(CcuReg::Ccucon0),
        CcuOp::Ccucon0ClockSelect { clksel: 0, up: true },
        CcuOp::WaitUnlocked(CcuReg::Ccucon0),
        CcuOp::SmuKeys(0xBC),
        CcuOp::SmuClearAlarmConfig(0),
        CcuOp::SmuClearAlarmConfig(1),
        CcuOp::SmuClearAlarmConfig(2),
        CcuOp::SmuKeys(0),
        CcuOp::PllPower { sys: false, per: false },
    ];
    push_all(&mut ops, &prefix);
    proof {
        assert(prefix@ =~= spec_initial_prefix());
    }
    let p = config.pll_initial_step.plls_parameters;
    let selection = p.pll_input_clock_selection;
    if selection == PllInputClockSelection::F0sc0 || selection == PllInputClockSelection::FSynclk {
        let mhz = p.xtal_frequency / 1_000_000 - 15;
        if mhz > 255 {
            return (ops, Err(()));
        }
        ops.push(CcuOp::Oscillator { mode: 0, oscval: mhz as u8 });
    }
    let suffix = [
        CcuOp::SysPllDividers {
            pdiv: p.sys_pll.p_divider,
            ndiv: p.sys_pll.n_divider,
            insel: selection.code(),
        },
        CcuOp::PerPllDividers {
            divby: p.per_pll.k3_divider_bypass,
            pdiv: p.per_pll.p_divider,
            ndiv: p.per_pll.n_divider,
        },
        CcuOp::PllPower { sys: true, per: true },
        CcuOp::WaitDividers,
        CcuOp::SysPllK2(p.sys_pll.k2_divider),
        CcuOp::PerPllK2K3 { k2: p.per_pll.k2_divider, k3: p.per_pll.k3_divider },
        CcuOp::WaitDividers,
        CcuOp::WaitOscillatorCheck,
        CcuOp::RestartPllLock,
        CcuOp::SmuKeys(0xBC),
        CcuOp::SmuCmd(5),
        CcuOp::SmuAlarmStatus(0x1D),
        CcuOp::SmuKeys(0),
        CcuOp::WaitUnlocked(CcuReg::Ccucon0),
        CcuOp::Ccucon0ClockSelect { clksel: 1, up: true },
        CcuOp::WaitUnlocked(CcuReg::Ccucon0),
        CcuOp::SetSafetyEndinit,
    ];
    proof {
        assert(suffix@ =~= spec_initial_suffix(p));
    }
    push_all(&mut ops, &suffix);
    (ops, Ok(()))
}

/// Operations that distribute the clocks to CCUCON0: protection lifted,
/// then the dividers written between two waits for the register.
pub open spec fn spec_distribute_ccucon0(cfg: ClockDistributionConfig) -> Seq<CcuOp> {
    seq![
        CcuOp::ClearSafetyEndinit,
        CcuOp::WaitUnlocked(CcuReg::Ccucon0),
        CcuOp::Ccucon0Dividers(cfg.ccucon0),
        CcuOp::WaitUnlocked(CcuReg::Ccucon0),
    ]
}

/// A write of a CCUCON register between two waits for it.
pub open spec fn locked_write(reg: CcuReg, op: CcuOp) -> Seq<CcuOp> {
    seq![CcuOp::WaitUnlocked(reg), op, CcuOp::WaitUnlocked(reg)]
}

/// Operations on CCUCON1, given its clock selections read: when they are not
/// (0, 1, 2), the dividers are first written with those selections; then the
/// configured dividers and selections are written.
pub open spec fn spec_distribute_ccucon1(
    cfg: ClockDistributionConfig,
    clkselmcan: u8,
    clkselmsc: u8,
    clkselqspi: u8,
) -> Seq<CcuOp> {
    let c = cfg.ccucon1;
    let pre = if clkselmcan != 0 || clkselmsc != 1 || clkselqspi != 2 {
        locked_write(
            CcuReg::Ccucon1,
            CcuOp::Ccucon1 { con1: c, clksel_mcan: 0, clksel_msc: 1, clksel_qspi: 2 },
        )
    } else {
        seq![]
    };
    pre + locked_write(
        CcuReg::Ccucon1,
        CcuOp::Ccucon1 {
            con1: c,
            clksel_mcan: c.clksel_mcan,
            clksel_msc: c.clksel_msc,
            clksel_qspi: c.clksel_qspi,
        },
    )
}

/// Operations on CCUCON2, given its ASCLIN clock selection read: when it is
/// not 0, the dividers are first written with selection 0; then the
/// configured dividers and selection are written.
pub open spec fn spec_distribute_ccucon2(cfg: ClockDistributionConfig, clkselasclins: u8) -> Seq<
    CcuOp,
> {
    let c = cfg.ccucon2;
    let pre = if clkselasclins != 0 {
        locked_write(CcuReg::Ccucon2, CcuOp::Ccucon2 { con2: c, clksel_asclins: 0 })
    } else {
        seq![]
    };
    pre + locked_write(
        CcuReg::Ccucon2,
        CcuOp::Ccucon2 { con2: c, clksel_asclins: c.clksel_asclins },
    )
}

/// Operations on CCUCON5 to CCUCON8, then the protection restored.
pub open spec fn spec_distribute_remaining(cfg: ClockDistributionConfig) -> Seq<CcuOp> {
    locked_write(
        CcuReg::Ccucon5,
        CcuOp::Ccucon5 { geth_div: cfg.ccucon5.geth_div, mcanh_div: cfg.ccucon5.mcanh_div },
    ) + seq![
        CcuOp::Ccucon6(cfg.ccucon6.cpu0_div),
        CcuOp::Ccucon7(cfg.ccucon7.cpu1_div),
        CcuOp::Ccucon8(cfg.ccucon8.cpu2_div),
        CcuOp::SetSafetyEndinit,
    ]
}

fn push_locked_write(out: &mut Vec<CcuOp>, reg: CcuReg, op: CcuOp)
    ensures
        final(out)@ == old(out)@ + locked_write(reg, op),
{
    out.push(CcuOp::WaitUnlocked(reg));
    out.push(op);
    out.push(CcuOp::WaitUnlocked(reg));
    proof {
        assert(final(out)@ =~= old(out)@ + locked_write(reg, op));
    }
}

/// Operations that distribute the clocks to CCUCON0.
pub fn distribute_ccucon0(config: &Config) -> (r: Vec<CcuOp>)
    ensures
        r@ == spec_distribute_ccucon0(config.clock_distribution),
{
    let mut ops: Vec<CcuOp> = Vec::new();
    ops.push(CcuOp::ClearSafetyEndinit);
    push_locked_write(&mut ops, CcuReg::Ccucon0, CcuOp::Ccucon0Dividers(config.clock_distribution.ccucon0));
    proof {
        assert(ops@ =~= spec_distribute_ccucon0(config.clock_distribution));
    }
    ops
}

/// Operations on CCUCON1, given its clock selections read.
pub fn distribute_ccucon1(config: &Config, clkselmcan: u8, clkselmsc: u8, clkselqspi: u8) -> (r: Vec<
    CcuOp,
>)
    ensures
        r@ == spec_distribute_ccucon1(config.clock_distribution, clkselmcan, clkselmsc, clkselqspi),
{
    let c = config.clock_distribution.ccucon1;
    let mut ops: Vec<CcuOp> = Vec::new();
    if clkselmcan != 0 || clkselmsc != 1 || clkselqspi != 2 {
        push_locked_write(
            &mut ops,
            CcuReg::Ccucon1,
            CcuOp::Ccucon1 { con1: c, clksel_mcan: 0, clksel_msc: 1, clksel_qspi: 2 },
        );
    }
    push_locked_write(
        &mut ops,
        CcuReg::Ccucon1,
        CcuOp::Ccucon1 {
            con1: c,
            clksel_mcan: c.clksel_mcan,
            clksel_msc: c.clksel_msc,
            clksel_qspi: c.clksel_qspi,
        },
    );
    proof {
        assert(ops@ =~= spec_distribute_ccucon1(
            config.clock_distribution,
            clkselmcan,
            clkselmsc,
            clkselqspi,
        ));
    }
    ops
}

/// Operations on CCUCON2, given its ASCLIN clock selection read.
pub fn distribute_ccucon2(config: &Config, clkselasclins: u8) -> (r: Vec<CcuOp>)
    ensures
        r@ == spec_distribute_ccucon2(config.clock_distribution, clkselasclins),
{
    let c = config.clock_distribution.ccucon2;
    let mut ops: Vec<CcuOp> = Vec::new();
    if clkselasclins != 0 {
        push_locked_write(&mut ops, CcuReg::Ccucon2, CcuOp::Ccucon2 { con2: c, clksel_asclins: 0 });
    }
    push_locked_write(
        &mut ops,
        CcuReg::Ccucon2,
        CcuOp::Ccucon2 { con2: c, clksel_asclins: c.clksel_asclins },
    );
    proof {
        assert(ops@ =~= spec_distribute_ccucon2(config.clock_distribution, clkselasclins));
    }
    ops
}

/// Operations on CCUCON5 to CCUCON8, then the protection restored.
pub fn distribute_remaining(config: &Config) -> (r: Vec<CcuOp>)
    ensures
        r@ == spec_distribute_remaining(config.clock_distribution),
{
    let d = config.clock_distribution;
    let mut ops: Vec<CcuOp> = Vec::new();
    push_locked_write(
        &mut ops,
        CcuReg::Ccucon5,
        CcuOp::Ccucon5 { geth_div: d.ccucon5.geth_div, mcanh_div: d.ccucon5.mcanh_div },
    );
    ops.push(CcuOp::Ccucon6(d.ccucon6.cpu0_div));
    ops.push(CcuOp::Ccucon7(d.ccucon7.cpu1_div));
    ops.push(CcuOp::Ccucon8(d.ccucon8.cpu2_div));
    ops.push(CcuOp::SetSafetyEndinit);
    proof {
        assert(ops@ =~= spec_distribute_remaining(config.clock_distribution));
    }
    ops
}

/// The operations that distribute the clocks, given the CCUCON1 clock
/// selections and the CCUCON2 ASCLIN selection as they read before the
/// distribution starts.
pub fn distribute_clock_inline(
    config: &Config,
    clkselmcan: u8,
    clkselmsc: u8,
    clkselqspi: u8,
    clkselasclins: u8,
) -> (r: Vec<CcuOp>)
    ensures
        r@ == spec_distribute_ccucon0(config.clock_distribution) + spec_distribute_ccucon1(
            config.clock_distribution,
            clkselmcan,
            clkselmsc,
            clkselqspi,
        ) + spec_distribute_ccucon2(config.clock_distribution, clkselasclins)
            + spec_distribute_remaining(config.clock_distribution),
{
    let mut ops = distribute_ccucon0(config);
    let mut ops1 = distribute_ccucon1(config, clkselmcan, clkselmsc, clkselqspi);
    let mut ops2 = distribute_ccucon2(config, clkselasclins);
    let mut ops3 = distribute_remaining(config);
    ops.append(&mut ops1);
    ops.append(&mut ops2);
    ops.append(&mut ops3);
    ops
}

/// The four operations of one step of the system PLL ramp-up.
pub open spec fn throttle_step(step: PllStepConfig) -> Seq<CcuOp> {
    seq![
        CcuOp::ClearSafetyEndinit,
        CcuOp::WaitSysPllK2Ready,
        CcuOp::SysPllK2(step.k2_step),
        CcuOp::SetSafetyEndinit,
    ]
}

/// The operations of the system PLL ramp-up, step after step.
pub open spec fn spec_throttle(steps: Seq<PllStepConfig>) -> Seq<CcuOp>
    decreases steps.len(),
{
    if steps.len() == 0 {
        seq![]
    } else {
        spec_throttle(steps.drop_last()) + throttle_step(steps.last())
    }
}

/// The operations of the system PLL ramp-up.
pub fn throttle_sys_pll_clock_inline(config: &Config) -> (r: Vec<CcuOp>)
    ensures
        r@ == spec_throttle(config.sys_pll_throttle@),
{
    let steps = &config.sys_pll_throttle;
    let mut ops: Vec<CcuOp> = Vec::new();
    let mut pll_step_count: usize = 0;
    while pll_step_count < steps.len()
        invariant
            pll_step_count <= steps@.len(),
            ops@ == spec_throttle(steps@.take(pll_step_count as int)),
        decreases steps.len() - pll_step_count,
    {
        proof {
            assert(steps@.take(pll_step_count + 1).drop_last() =~= steps@.take(
                pll_step_count as int,
            ));
        }
        let k2div = steps[pll_step_count].k2_step;
        ops.push(CcuOp::ClearSafetyEndinit);
        ops.push(CcuOp::WaitSysPllK2Ready);
        ops.push(CcuOp::SysPllK2(k2div));
        ops.push(CcuOp::SetSafetyEndinit);
        proof {
            assert(ops@ =~= spec_throttle(steps@.take(pll_step_count + 1)));
        }
        pll_step_count = pll_step_count + 1;
    }
    proof {
        assert(steps@.take(pll_step_count as int) =~= steps@);
    }
    ops
}

/// MODCFG value for a gain: bits 15 to 10 hold 0x3D, the gain the bits below.
pub open spec fn spec_modcfg(rgain_hex: u16) -> u16 {
    (0x3Du16 << 10u16) | rgain_hex
}

/// The operations that enable the frequency modulation, given the gain
/// value; none when modulation is disabled.
pub fn modulation_init(config: &Config, rgain_hex: u16) -> (r: Vec<CcuOp>)
    ensures
        config.modulation.enable == ModulationEn::Disabled ==> r@ == Seq::<CcuOp>::empty(),
        config.modulation.enable == ModulationEn::Enabled ==> r@ == seq![
            CcuOp::ClearSafetyEndinit,
            CcuOp::Modulation(spec_modcfg(rgain_hex)),
            CcuOp::EnableModulation,
            CcuOp::SetSafetyEndinit,
        ],
{
    let mut ops: Vec<CcuOp> = Vec::new();
    if config.modulation.enable == ModulationEn::Enabled {
        ops.push(CcuOp::ClearSafetyEndinit);
        ops.push(CcuOp::Modulation((0x3Du16 << 10u16) | rgain_hex));
        ops.push(CcuOp::EnableModulation);
        ops.push(CcuOp::SetSafetyEndinit);
        proof {
            assert(ops@ =~= seq![
                CcuOp::ClearSafetyEndinit,
                CcuOp::Modulation(spec_modcfg(rgain_hex)),
                CcuOp::EnableModulation,
                CcuOp::SetSafetyEndinit,
            ]);
        }
    }
    ops
}

/// Modulation amplitude in hundredths of a percent.
pub open spec fn amplitude_hundredths(a: ModulationAmplitude) -> u64 {
    match a {
        ModulationAmplitude::_0p5 => 50,
        ModulationAmplitude::_1p0 => 100,
        ModulationAmplitude::_1p25 => 125,
        ModulationAmplitude::_1p5 => 150,
        ModulationAmplitude::_2p0 => 200,
        ModulationAmplitude::_2p5 => 250,
    }
}

/// Modulation gain in 1/32 units, rounded half up and capped at the largest
/// `u16`: 2 * amplitude * fDCO / 3.6 MHz, where fDCO is the oscillator
/// frequency `fosc` times `ndiv + 1` over `pdiv + 1` (the dividers read from
/// SYSPLLCON0).
pub open spec fn spec_rgain_hex(amp: ModulationAmplitude, fosc: u32, ndiv: u8, pdiv: u8) -> u16 {
    rgain_for(amplitude_hundredths(amp) as int, fosc, ndiv, pdiv)
}

/// Modulation gain in 1/32 units for an amplitude of `a` hundredths of a
/// percent, rounded half up and capped at the largest `u16`.
pub open spec fn rgain_for(a: int, fosc: u32, ndiv: u8, pdiv: u8) -> u16 {
    let num = 64 * a * fosc * (ndiv + 1);
    let den = 36_000_000_000 * (pdiv + 1);
    let v = (2 * num + den) / (2 * den);
    if v > 0xFFFF { 0xFFFF } else { v as u16 }
}

proof fn lemma_rgain_monotonic(a: int, b: int, fosc: u32, ndiv: u8, pdiv: u8)
    requires
        0 <= a <= b,
    ensures
        rgain_for(a, fosc, ndiv, pdiv) <= rgain_for(b, fosc, ndiv, pdiv),
{
    let den = 36_000_000_000 * (pdiv + 1);
    let na = 64 * a * fosc * (ndiv + 1);
    let nb = 64 * b * fosc * (ndiv + 1);
    assert(na <= nb) by (nonlinear_arith)
        requires
            0 <= a <= b,
            na == 64 * a * fosc * (ndiv + 1),
            nb == 64 * b * fosc * (ndiv + 1),
            fosc >= 0,
            ndiv >= 0,
    ;
    assert(0 <= na) by (nonlinear_arith)
        requires
            0 <= a,
            na == 64 * a * fosc * (ndiv + 1),
            fosc >= 0,
            ndiv >= 0,
    ;
    vstd::arithmetic::div_mod::lemma_div_is_ordered(2 * na + den, 2 * nb + den, 2 * den);
}

/// The modulation gain follows the amplitude each variant names (0.5%, 1%,
/// 1.25%, 1.5%, 2%, 2.5%): it grows with the amplitude, in the order of the
/// variants, and unless capped it is 32 * 2 * A * fDCO / 3.6 MHz rounded to
/// the nearest integer (half up), with fDCO = `fosc` * (`ndiv` + 1) /
/// (`pdiv` + 1).
pub proof fn lemma_rgain_follows_amplitude(amp: ModulationAmplitude, fosc: u32, ndiv: u8, pdiv: u8)
    ensures
        spec_rgain_hex(ModulationAmplitude::_0p5, fosc, ndiv, pdiv) == rgain_for(50, fosc, ndiv, pdiv),
        spec_rgain_hex(ModulationAmplitude::_1p0, fosc, ndiv, pdiv) == rgain_for(100, fosc, ndiv, pdiv),
        spec_rgain_hex(ModulationAmplitude::_1p25, fosc, ndiv, pdiv) == rgain_for(125, fosc, ndiv, pdiv),
        spec_rgain_hex(ModulationAmplitude::_1p5, fosc, ndiv, pdiv) == rgain_for(150, fosc, ndiv, pdiv),
        spec_rgain_hex(ModulationAmplitude::_2p0, fosc, ndiv, pdiv) == rgain_for(200, fosc, ndiv, pdiv),
        spec_rgain_hex(ModulationAmplitude::_2p5, fosc, ndiv, pdiv) == rgain_for(250, fosc, ndiv, pdiv),
        spec_rgain_hex(ModulationAmplitude::_0p5, fosc, ndiv, pdiv) <= spec_rgain_hex(
            ModulationAmplitude::_1p0,
            fosc,
            ndiv,
            pdiv,
        ),
        spec_rgain_hex(ModulationAmplitude::_1p0, fosc, ndiv, pdiv) <= spec_rgain_hex(
            ModulationAmplitude::_1p25,
            fosc,
            ndiv,
            pdiv,
        ),
        spec_rgain_hex(ModulationAmplitude::_1p25, fosc, ndiv, pdiv) <= spec_rgain_hex(
            ModulationAmplitude::_1p5,
            fosc,
            ndiv,
            pdiv,
        ),
        spec_rgain_hex(ModulationAmplitude::_1p5, fosc, ndiv, pdiv) <= spec_rgain_hex(
            ModulationAmplitude::_2p0,
            fosc,
            ndiv,
            pdiv,
        ),
        spec_rgain_hex(ModulationAmplitude::_2p0, fosc, ndiv, pdiv) <= spec_rgain_hex(
            ModulationAmplitude::_2p5,
            fosc,
            ndiv,
            pdiv,
        ),
        ({
            let r = spec_rgain_hex(amp, fosc, ndiv, pdiv) as int;
            let n = 64 * amplitude_hundredths(amp) * fosc * (ndiv + 1);
            let d = 36_000_000_000 * (pdiv + 1);
            r < 0xFFFF ==> 2 * r * d <= 2 * n + d < 2 * (r + 1) * d
        }),
{
    lemma_rgain_monotonic(50, 100, fosc, ndiv, pdiv);
    lemma_rgain_monotonic(100, 125, fosc, ndiv, pdiv);
    lemma_rgain_monotonic(125, 150, fosc, ndiv, pdiv);
    lemma_rgain_monotonic(150, 200, fosc, ndiv, pdiv);
    lemma_rgain_monotonic(200, 250, fosc, ndiv, pdiv);
    let a = amplitude_hundredths(amp) as int;
    let num = 64 * a * fosc * (ndiv + 1);
    let den = 36_000_000_000 * (pdiv + 1);
    let v = (2 * num + den) / (2 * den);
    assert(0 <= num) by (nonlinear_arith)
        requires
            0 <= a,
            num == 64 * a * fosc * (ndiv + 1),
            fosc >= 0,
            ndiv >= 0,
    ;
    vstd::arithmetic::div_mod::lemma_fundamental_div_mod(2 * num + den, 2 * den);
    vstd::arithmetic::div_mod::lemma_mod_bound(2 * num + den, 2 * den);
    if v < 0xFFFF {
        assert(spec_rgain_hex(amp, fosc, ndiv, pdiv) as int == v);
        assert(2 * v * den <= 2 * num + den < 2 * (v + 1) * den) by (nonlinear_arith)
            requires
                2 * num + den == (2 * den) * v + (2 * num + den) % (2 * den),
                0 <= (2 * num + den) % (2 * den) < 2 * den,
        ;
    }
}

/// Modulation gain in 1/32 units for amplitude `mod_amp`.
pub fn calc_rgain_hex(mod_amp: ModulationAmplitude, fosc: u32, ndiv: u8, pdiv: u8) -> (r: u16)
    ensures
        r == spec_rgain_hex(mod_amp, fosc, ndiv, pdiv),
{
    let amp: u64 = match mod_amp {
        ModulationAmplitude::_0p5 => 50,
        ModulationAmplitude::_1p0 => 100,
        ModulationAmplitude::_1p25 => 125,
        ModulationAmplitude::_1p5 => 150,
        ModulationAmplitude::_2p0 => 200,
        ModulationAmplitude::_2p5 => 250,
    };
    let f = fosc as u64;
    let n = ndiv as u64 + 1;
    let p = pdiv as u64 + 1;
    assert(64 * amp * f <= 64 * 250 * 0xFFFF_FFFF && 64 * amp * f * n <= 64 * 250 * 0xFFFF_FFFF
        * 256) by (nonlinear_arith)
        requires
            amp <= 250,
            f <= 0xFFFF_FFFF,
            n <= 256,
    ;
    let num = 64 * amp * f * n;
    assert(36_000_000_000 * p <= 36_000_000_000 * 256) by (nonlinear_arith)
        requires
            p <= 256,
    ;
    let den = 36_000_000_000u64 * p;
    let v = (2 * num + den) / (2 * den);
    if v > 0xFFFF {
        0xFFFF
    } else {
        v as u16
    }
}

/// What a wait does after a poll.
#[derive(Debug, PartialEq, Eq, Structural, Clone, Copy)]
pub enum WaitStep {
    /// The condition held: the wait succeeds.
    Done,
    /// The condition did not hold: poll again, with this many polls left.
    Poll(usize),
    /// The condition did not hold on the last poll allowed: the wait fails.
    TimedOut,
}

/// The decision after a poll that found the condition `ready`, with
/// `remaining` polls allowed, this one included.
pub open spec fn spec_wait_step(remaining: usize, ready: bool) -> WaitStep {
    if ready {
        WaitStep::Done
    } else if remaining <= 1 {
        WaitStep::TimedOut
    } else {
        WaitStep::Poll((remaining - 1) as usize)
    }
}

/// The decision after a poll that found the condition `ready`, with
/// `remaining` polls allowed, this one included.
pub fn wait_step(remaining: usize, ready: bool) -> (r: WaitStep)
    requires
        remaining > 0,
    ensures
        r == spec_wait_step(remaining, ready),
{
    if ready {
        WaitStep::Done
    } else if remaining == 1 {
        WaitStep::TimedOut
    } else {
        WaitStep::Poll(remaining - 1)
    }
}

/// Whether `polls` is a run of a wait with `timeout` polls allowed that
/// ends in `r`: every poll but the last found the condition false, the
/// last one decided, and `Err` comes only after `timeout` polls.
pub open spec fn wait_run(timeout: usize, polls: Seq<bool>, r: Result<(), ()>) -> bool {
    &&& 0 < polls.len() <= timeout
    &&& forall|i: int| 0 <= i < polls.len() - 1 ==> !polls[i]
    &&& (r is Ok <==> polls.last())
    &&& (r is Err ==> polls.len() == timeout)
}

/// Waits until `cond` returns `true`, polling it at most
/// `timeout_cycle_count` times: `Ok` when it did, `Err` when every poll
/// returned `false`. Each poll is decided by [`wait_step`]. The outcomes of
/// the polls, in order, form a run of the wait (see [`wait_run`]), each of
/// them an outcome `cond` can give.
pub fn wait_cond<F: Fn() -> bool>(timeout_cycle_count: usize, cond: F) -> (r: Result<(), ()>)
    requires
        timeout_cycle_count > 0,
        cond.requires(()),
    ensures
        r is Ok ==> cond.ensures((), true),
        r is Err ==> cond.ensures((), false),
        exists|polls: Seq<bool>|
            #[trigger] wait_run(timeout_cycle_count, polls, r) && forall|i: int|
                0 <= i < polls.len() ==> cond.ensures((), #[trigger] polls[i]),
{
    let mut remaining = timeout_cycle_count;
    let ghost mut polls: Seq<bool> = Seq::empty();
    loop
        invariant
            0 < remaining <= timeout_cycle_count,
            cond.requires(()),
            polls.len() == timeout_cycle_count - remaining,
            forall|i: int| 0 <= i < polls.len() ==> !polls[i],
            forall|i: int| 0 <= i < polls.len() ==> cond.ensures((), #[trigger] polls[i]),
        decreases remaining,
    {
        let ready = cond();
        proof {
            polls = polls.push(ready);
        }
        match wait_step(remaining, ready) {
            WaitStep::Done => {
                assert(wait_run(timeout_cycle_count, polls, Ok(())));
                return Ok(());
            },
            WaitStep::TimedOut => {
                assert(wait_run(timeout_cycle_count, polls, Err(())));
                return Err(());
            },
            WaitStep::Poll(n) => {
                remaining = n;
            },
        }
    }
}

/// The run of a wait driven by [`wait_step`]: starting with `timeout` polls
/// allowed and feeding it the outcomes `polls` in turn, it decides exactly
/// on the last of them, with `r`, when `polls` is a run that ends in `r`.
pub proof fn lemma_wait_step_run(timeout: usize, polls: Seq<bool>, r: Result<(), ()>)
    requires
        wait_run(timeout, polls, r),
    ensures
        forall|i: int|
            0 <= i < polls.len() - 1 ==> #[trigger] spec_wait_step((timeout - i) as usize, polls[i])
                == WaitStep::Poll((timeout - i - 1) as usize),
        spec_wait_step((timeout - polls.len() + 1) as usize, polls.last()) == (if r is Ok {
            WaitStep::Done
        } else {
            WaitStep::TimedOut
        }),
{
}

/// Frequency of the PLL input for the SYSPLLCON0.INSEL value `insel`.
pub open spec fn spec_osc_frequency(insel: u8) -> u32 {
    if insel == 0 {
        EVR_OSC_FREQUENCY
    } else if insel == 1 {
        XTAL_FREQUENCY
    } else if insel == 2 {
        SYSCLK_FREQUENCY
    } else {
        0
    }
}

/// Frequency of the PLL input for the SYSPLLCON0.INSEL value `insel`.
pub fn get_osc_frequency(insel: u8) -> (r: u32)
    ensures
        r == spec_osc_frequency(insel),
{
    match insel {
        0 => EVR_OSC_FREQUENCY,
        1 => XTAL_FREQUENCY,
        2 => SYSCLK_FREQUENCY,
        _ => 0,
    }
}

/// The clock register fields that the frequencies depend on, as read.
#[derive(Clone, Copy, PartialEq, Eq, Structural, Debug)]
pub struct ClockRegisters {
    pub ccucon0_clksel: u8,
    pub ccucon1_clkselmcan: u8,
    pub ccucon1_mcandiv: u8,
    pub ccucon1_pll1divdis: bool,
    pub syspll_insel: u8,
    pub syspll_ndiv: u8,
    pub syspll_pdiv: u8,
    pub syspll_k2div: u8,
    pub perpll_ndiv: u8,
    pub perpll_pdiv: u8,
    pub perpll_k2div: u8,
    pub perpll_divby: bool,
}

/// `x` cut to the largest `u32`.
pub open spec fn saturate(x: int) -> u32 {
    if x > u32::MAX {
        u32::MAX
    } else {
        x as u32
    }
}

fn saturate_u64(x: u64) -> (r: u32)
    ensures
        r == saturate(x as int),
{
    if x > 0xFFFF_FFFF {
        0xFFFF_FFFF
    } else {
        x as u32
    }
}

/// Whether the system PLL dividers fit the 8-bit arithmetic of the
/// frequency formula.
pub open spec fn sys_pll_fits(r: ClockRegisters) -> bool {
    &&& r.syspll_ndiv < 255
    &&& (r.syspll_k2div + 1) * (r.syspll_pdiv + 1) <= 255
}

/// What the peripheral PLL frequency 2 needs of the fields: each field plus
/// one fits a byte.
pub open spec fn per_pll2_fits(r: ClockRegisters) -> bool {
    &&& r.perpll_ndiv < 255
    &&& r.perpll_pdiv < 255
    &&& r.perpll_k2div < 255
}

/// What the peripheral PLL frequency 1 needs of the fields: each field plus
/// one, and the product of the two dividers, fit a byte.
pub open spec fn per_pll_fits(r: ClockRegisters) -> bool {
    &&& r.perpll_ndiv < 255
    &&& r.perpll_pdiv < 255
    &&& r.perpll_k2div < 255
    &&& (r.perpll_pdiv + 1) * (r.perpll_k2div + 1) <= 255
}

/// System PLL frequency: input times NDIV+1, over (K2DIV+1)(PDIV+1).
pub open spec fn spec_pll_frequency(r: ClockRegisters) -> u32 {
    saturate(
        (spec_osc_frequency(r.syspll_insel) * (r.syspll_ndiv + 1)) / ((r.syspll_k2div + 1) * (
        r.syspll_pdiv + 1)),
    )
}

/// Peripheral PLL frequency 1: input times NDIV+1, over (PDIV+1)(K2DIV+1).
pub open spec fn spec_per_pll_frequency1(r: ClockRegisters) -> u32 {
    saturate(
        (spec_osc_frequency(r.syspll_insel) * (r.perpll_ndiv + 1)) / ((r.perpll_pdiv + 1) * (
        r.perpll_k2div + 1)),
    )
}

/// Peripheral PLL frequency 2: input times NDIV+1, over (PDIV+1)(K2DIV+1)
/// times 2 when DIVBY is set, 1.6 otherwise.
pub open spec fn spec_per_pll_frequency2(r: ClockRegisters) -> u32 {
    let num = spec_osc_frequency(r.syspll_insel) * (r.perpll_ndiv + 1);
    let den = (r.perpll_pdiv + 1) * (r.perpll_k2div + 1);
    if r.perpll_divby {
        saturate(num / (den * 2))
    } else {
        saturate((num * 5) / (den * 8))
    }
}

proof fn lemma_frequency_product(osc: u32, n: u8)
    ensures
        osc * (n + 1) <= 0xFFFF_FFFF * 256,
{
    assert(osc * (n + 1) <= 0xFFFF_FFFF * 256) by (nonlinear_arith)
        requires
            osc <= 0xFFFF_FFFF,
            n + 1 <= 256,
    ;
}

/// System PLL frequency, from the register fields read.
pub fn get_pll_frequency(regs: &ClockRegisters) -> (r: u32)
    requires
        sys_pll_fits(*regs),
    ensures
        r == spec_pll_frequency(*regs),
{
    let osc = get_osc_frequency(regs.syspll_insel) as u64;
    proof {
        lemma_frequency_product(spec_osc_frequency(regs.syspll_insel), regs.syspll_ndiv);
    }
    let num = osc * (regs.syspll_ndiv as u64 + 1);
    let den = ((regs.syspll_k2div + 1) * (regs.syspll_pdiv + 1)) as u64;
    assert(den >= 1) by (nonlinear_arith)
        requires
            den == (regs.syspll_k2div + 1) * (regs.syspll_pdiv + 1),
    ;
    saturate_u64(num / den)
}

/// Peripheral PLL frequency 1, from the register fields read.
pub fn get_per_pll_frequency1(regs: &ClockRegisters) -> (r: u32)
    requires
        per_pll_fits(*regs),
    ensures
        r == spec_per_pll_frequency1(*regs),
{
    let osc = get_osc_frequency(regs.syspll_insel) as u64;
    proof {
        lemma_frequency_product(spec_osc_frequency(regs.syspll_insel), regs.perpll_ndiv);
    }
    let num = osc * (regs.perpll_ndiv as u64 + 1);
    let den = ((regs.perpll_pdiv + 1) * (regs.perpll_k2div + 1)) as u64;
    assert(den >= 1) by (nonlinear_arith)
        requires
            den == (regs.perpll_pdiv + 1) * (regs.perpll_k2div + 1),
    ;
    saturate_u64(num / den)
}

/// Peripheral PLL frequency 2, from the register fields read.
pub fn get_per_pll_frequency2(regs: &ClockRegisters) -> (r: u32)
    requires
        per_pll2_fits(*regs),
    ensures
        r == spec_per_pll_frequency2(*regs),
{
    let osc = get_osc_frequency(regs.syspll_insel) as u64;
    proof {
        lemma_frequency_product(spec_osc_frequency(regs.syspll_insel), regs.perpll_ndiv);
    }
    let num = osc * (regs.perpll_ndiv as u64 + 1);
    let pd: u64 = regs.perpll_pdiv as u64 + 1;
    let kd: u64 = regs.perpll_k2div as u64 + 1;
    assert(1 <= pd * kd <= 256 * 256) by (nonlinear_arith)
        requires
            1 <= pd <= 256,
            1 <= kd <= 256,
    ;
    let den = pd * kd;
    assert(1 <= den <= 256 * 256) by (nonlinear_arith)
        requires
            den == (regs.perpll_pdiv + 1) * (regs.perpll_k2div + 1),
            regs.perpll_pdiv < 255,
            regs.perpll_k2div < 255,
    ;
    if regs.perpll_divby {
        saturate_u64(num / (den * 2))
    } else {
        saturate_u64((num * 5) / (den * 8))
    }
}

/// Frequency of the back-up clock.
pub fn get_evr_frequency() -> (r: u32)
    ensures
        r == EVR_OSC_FREQUENCY,
{
    EVR_OSC_FREQUENCY
}

/// Frequency of oscillator 0.
pub fn get_osc0_frequency() -> (r: u32)
    ensures
        r == XTAL_FREQUENCY,
{
    XTAL_FREQUENCY
}

/// Frequency of clock source `source` (0: system PLL, 1: peripheral PLL 1,
/// halved unless PLL1DIVDIS is set, 2: peripheral PLL 2), given CCUCON0.CLKSEL:
/// the back-up clock for 0, the source for 1, nothing otherwise.
pub open spec fn spec_source_frequency(source: u32, r: ClockRegisters) -> u32 {
    if r.ccucon0_clksel == 0 {
        EVR_OSC_FREQUENCY
    } else if r.ccucon0_clksel == 1 {
        if source == 0 {
            spec_pll_frequency(r)
        } else if source == 1 {
            if r.ccucon1_pll1divdis {
                spec_per_pll_frequency1(r)
            } else {
                spec_per_pll_frequency1(r) / 2
            }
        } else {
            spec_per_pll_frequency2(r)
        }
    } else {
        0
    }
}

/// What the frequency of source `source` needs of the registers.
pub open spec fn source_fits(source: u32, r: ClockRegisters) -> bool {
    r.ccucon0_clksel == 1 ==> {
        &&& source <= 2
        &&& source == 0 ==> sys_pll_fits(r)
        &&& source == 1 ==> per_pll_fits(r)
        &&& source == 2 ==> per_pll2_fits(r)
    }
}

/// Frequency of clock source `source`, from the register fields read.
pub fn get_source_frequency(source: u32, regs: &ClockRegisters) -> (r: u32)
    requires
        source_fits(source, *regs),
    ensures
        r == spec_source_frequency(source, *regs),
{
    match regs.ccucon0_clksel {
        0 => get_evr_frequency(),
        1 => {
            if source == 0 {
                get_pll_frequency(regs)
            } else if source == 1 {
                let source_freq = get_per_pll_frequency1(regs);
                if regs.ccucon1_pll1divdis {
                    source_freq
                } else {
                    source_freq / 2
                }
            } else {
                get_per_pll_frequency2(regs)
            }
        },
        _ => 0,
    }
}

/// Frequency of the CAN modules: source 1 divided by MCANDIV (undivided when
/// it is 0) when CLKSELMCAN is 1, oscillator 0 when it is 2, nothing
/// otherwise.
pub open spec fn spec_mcan_frequency(r: ClockRegisters) -> u32 {
    if r.ccucon1_clkselmcan == 1 {
        let source = spec_source_frequency(1, r);
        if r.ccucon1_mcandiv == 0 {
            source
        } else {
            source / (r.ccucon1_mcandiv as u32)
        }
    } else if r.ccucon1_clkselmcan == 2 {
        XTAL_FREQUENCY
    } else {
        0
    }
}

/// Frequency of the CAN modules, from the register fields read.
pub fn get_mcan_frequency(regs: &ClockRegisters) -> (r: u32)
    requires
        regs.ccucon1_clkselmcan == 1 ==> source_fits(1, *regs),
    ensures
        r == spec_mcan_frequency(*regs),
{
    match regs.ccucon1_clkselmcan {
        1 => {
            let source = get_source_frequency(1, regs);
            if regs.ccucon1_mcandiv == 0 {
                source
            } else {
                source / (regs.ccucon1_mcandiv as u32)
            }
        },
        2 => get_osc0_frequency(),
        _ => 0,
    }
}

/// The three steps of the default system PLL ramp-up: K2 dividers 3, 2, 1,
/// each followed by 100 microseconds.
pub fn default_pll_config_steps() -> (r: Vec<PllStepConfig>)
    ensures
        r@ == default_throttle(),
{
    let mut v: Vec<PllStepConfig> = Vec::new();
    v.push(PllStepConfig { k2_step: 4 - 1, wait_time_us: 100 });
    v.push(PllStepConfig { k2_step: 3 - 1, wait_time_us: 100 });
    v.push(PllStepConfig { k2_step: 2 - 1, wait_time_us: 100 });
    proof {
        assert(v@ =~= seq![
            PllStepConfig { k2_step: 3, wait_time_us: 100 },
            PllStepConfig { k2_step: 2, wait_time_us: 100 },
            PllStepConfig { k2_step: 1, wait_time_us: 100 },
        ]);
    }
    v
}

/// First step of the default configuration.
pub open spec fn default_initial_step() -> InitialConfigStep {
    InitialConfigStep {
        plls_parameters: PllsParameterConfig {
            xtal_frequency: 20_000_000,
            pll_input_clock_selection: PllInputClockSelection::F0sc0,
            sys_pll: SysPllConfig { p_divider: 0, n_divider: 29, k2_divider: 5 },
            per_pll: PerPllConfig {
                p_divider: 0,
                n_divider: 31,
                k2_divider: 1,
                k3_divider: 1,
                k3_divider_bypass: false,
            },
        },
        wait_time_us: 200,
    }
}

/// Ramp-up of the default configuration.
pub open spec fn default_throttle() -> Seq<PllStepConfig> {
    seq![
        PllStepConfig { k2_step: 3, wait_time_us: 100 },
        PllStepConfig { k2_step: 2, wait_time_us: 100 },
        PllStepConfig { k2_step: 1, wait_time_us: 100 },
    ]
}

/// Clock distribution of the default configuration.
pub open spec fn default_distribution() -> ClockDistributionConfig {
    ClockDistributionConfig {
        ccucon0: Con0RegConfig {
            stm_div: 3,
            gtm_div: 1,
            sri_div: 1,
            lp_div: 0,
            spb_div: 3,
            bbb_div: 2,
            fsi_div: 3,
            fsi2_div: 1,
        },
        ccucon1: Con1RegConfig {
            mcan_div: 2,
            clksel_mcan: 1,
            pll1_div_dis: false,
            i2c_div: 2,
            msc_div: 1,
            clksel_msc: 1,
            qspi_div: 1,
            clksel_qspi: 2,
        },
        ccucon2: Con2RegConfig { asclinf_div: 1, asclins_div: 2, clksel_asclins: 1 },
        ccucon5: Con5RegConfig { geth_div: 2, mcanh_div: 3, adas_div: 0 },
        ccucon6: Con6RegConfig { cpu0_div: 0 },
        ccucon7: Con7RegConfig { cpu1_div: 0 },
        ccucon8: Con8RegConfig { cpu2_div: 0 },
    }
}

/// Whether `c` is the default configuration: a 20 MHz crystal, system PLL
/// 300 MHz, peripheral PLL 320 MHz, modulation disabled.
pub open spec fn is_default_config(c: Config) -> bool {
    &&& c.pll_initial_step == default_initial_step()
    &&& c.sys_pll_throttle@ == default_throttle()
    &&& c.clock_distribution == default_distribution()
    &&& c.flash_wait_state == (FlashWaitStateConfig { value: 0x0000_0105, mask: 0x0000_073F })
    &&& c.modulation == (ModulationConfig {
        enable: ModulationEn::Disabled,
        amp: ModulationAmplitude::_0p5,
    })
}

/// The default clock configuration.
pub fn default_clock_config() -> (r: Config)
    ensures
        is_default_config(r),
{
    Config {
        pll_initial_step: InitialConfigStep {
            plls_parameters: PllsParameterConfig {
                xtal_frequency: 20_000_000,
                pll_input_clock_selection: PllInputClockSelection::F0sc0,
                sys_pll: SysPllConfig { p_divider: 1 - 1, n_divider: 30 - 1, k2_divider: 6 - 1 },
                per_pll: PerPllConfig {
                    p_divider: 1 - 1,
                    n_divider: 32 - 1,
                    k2_divider: 2 - 1,
                    k3_divider: 2 - 1,
                    k3_divider_bypass: false,
                },
            },
            wait_time_us: 200,
        },
        sys_pll_throttle: default_pll_config_steps(),
        clock_distribution: ClockDistributionConfig {
            ccucon0: Con0RegConfig {
                stm_div: 3,
                gtm_div: 1,
                sri_div: 1,
                lp_div: 0,
                spb_div: 3,
                bbb_div: 2,
                fsi_div: 3,
                fsi2_div: 1,
            },
            ccucon1: Con1RegConfig {
                mcan_div: 2,
                clksel_mcan: 1,
                pll1_div_dis: false,
                i2c_div: 2,
                msc_div: 1,
                clksel_msc: 1,
                qspi_div: 1,
                clksel_qspi: 2,
            },
            ccucon2: Con2RegConfig { asclinf_div: 1, asclins_div: 2, clksel_asclins: 1 },
            ccucon5: Con5RegConfig { geth_div: 2, mcanh_div: 3, adas_div: 0 },
            ccucon6: Con6RegConfig { cpu0_div: 0 },
            ccucon7: Con7RegConfig { cpu1_div: 0 },
            ccucon8: Con8RegConfig { cpu2_div: 0 },
        },
        flash_wait_state: FlashWaitStateConfig { value: 0x0000_0105, mask: 0x0000_073F },
        modulation: ModulationConfig { enable: ModulationEn::Disabled, amp: ModulationAmplitude::_0p5 },
    }
}

} // verus!
