use bw_r_drivers_tc37x::scu::ccu::{
    calc_rgain_hex, configure_ccu_initial_step, default_clock_config, distribute_clock_inline,
    get_mcan_frequency, get_osc_frequency, get_per_pll_frequency2, get_pll_frequency,
    modulation_init, throttle_sys_pll_clock_inline, wait_cond, wait_step, WaitStep, CcuOp, ClockRegisters,
    ModulationAmplitude, ModulationEn,
};
use bw_r_drivers_tc37x::scu::wdt::{
    endinit_reached,
    clear_cpu_endinit_inline, clear_safety_endinit_inline, correct_password,
    disable_cpu_watchdog, disable_safety_watchdog, set_cpu_endinit_inline,
    set_safety_endinit_inline, WdtWrite,
};
use bw_r_drivers_tc37x::ssw::{init_clock, is_application_reset};

#[test]
fn clear_endinit_of_a_locked_register() {
    // ENDINIT and LCK set, password 0: unlock with the inverted password, then
    // clear ENDINIT and lock
    assert_eq!(clear_cpu_endinit_inline(0b11), vec![0xFD, 0xFE]);
    assert_eq!(clear_safety_endinit_inline(0b11), vec![0xFD, 0xFE]);
}

#[test]
fn set_endinit_of_a_locked_register() {
    assert_eq!(set_cpu_endinit_inline(0b11), vec![0xFD, 0xFF]);
    assert_eq!(set_safety_endinit_inline(0b10), vec![0xFD, 0xFF]);
}

#[test]
fn endinit_of_an_unlocked_register_keeps_reload_value() {
    assert_eq!(set_cpu_endinit_inline(0xABCD_0000), vec![0xABCD_00FF]);
    assert_eq!(correct_password(0x3FFF), 0x3FC0);
}

#[test]
fn clear_then_set_restores_the_password() {
    let cleared = *clear_cpu_endinit_inline(0x1234_5673).last().unwrap();
    let set = *set_cpu_endinit_inline(cleared).last().unwrap();
    assert_eq!(set & 0b11, 0b11);
    assert_eq!(set & !0b11, 0x1234_5673 & !0b11);
}

#[test]
fn disable_watchdogs() {
    let expected = vec![
        WdtWrite::Con0(0xFD),
        WdtWrite::Con0(0xFE),
        WdtWrite::Con1(0b1000),
        WdtWrite::Con0(0xFD),
        WdtWrite::Con0(0xFF),
    ];
    assert_eq!(disable_cpu_watchdog(0b11, 0b00, 0b10), expected);
    assert_eq!(disable_safety_watchdog(0b11, 0b00, 0b10), expected);
}

#[test]
fn initial_step_of_the_default_configuration() {
    let config = default_clock_config();
    let (ops, r) = configure_ccu_initial_step(&config);
    assert!(r.is_ok());
    assert_eq!(ops.len(), 28);
    assert_eq!(ops[0], CcuOp::ClearSafetyEndinit);
    assert_eq!(ops[10], CcuOp::Oscillator { mode: 0, oscval: 5 });
    assert_eq!(ops[11], CcuOp::SysPllDividers { pdiv: 0, ndiv: 29, insel: 1 });
    assert_eq!(*ops.last().unwrap(), CcuOp::SetSafetyEndinit);
}

#[test]
fn initial_step_fails_on_a_crystal_out_of_range() {
    let mut config = default_clock_config();
    config.pll_initial_step.plls_parameters.xtal_frequency = 300_000_000;
    let (ops, r) = configure_ccu_initial_step(&config);
    assert!(r.is_err());
    assert_eq!(ops.len(), 10);
    assert_eq!(ops[9], CcuOp::PllPower { sys: false, per: false });
}

#[test]
fn distribution_switches_selections_first_when_needed() {
    let config = default_clock_config();
    assert_eq!(distribute_clock_inline(&config, 0, 1, 2, 0).len(), 17);
    let ops = distribute_clock_inline(&config, 1, 1, 2, 1);
    assert_eq!(ops.len(), 23);
    assert_eq!(
        ops[5],
        CcuOp::Ccucon1 {
            con1: config.clock_distribution.ccucon1,
            clksel_mcan: 0,
            clksel_msc: 1,
            clksel_qspi: 2
        }
    );
}

#[test]
fn throttle_and_modulation() {
    let mut config = default_clock_config();
    let ops = throttle_sys_pll_clock_inline(&config);
    assert_eq!(ops.len(), 12);
    assert_eq!(ops[2], CcuOp::SysPllK2(3));
    assert_eq!(ops[10], CcuOp::SysPllK2(1));
    assert!(modulation_init(&config, 53).is_empty());
    config.modulation.enable = ModulationEn::Enabled;
    assert_eq!(modulation_init(&config, 53)[1], CcuOp::Modulation(0xF400 | 53));
}

#[test]
fn modulation_gain() {
    // 0.5 % of 600 MHz: 2 * 0.005 * 600 / 3.6 = 1.667, in 1/32 units 53.3
    assert_eq!(calc_rgain_hex(ModulationAmplitude::_0p5, 20_000_000, 29, 0), 53);
    assert_eq!(calc_rgain_hex(ModulationAmplitude::_2p5, 20_000_000, 29, 0), 267);
}

fn default_registers() -> ClockRegisters {
    ClockRegisters {
        ccucon0_clksel: 1,
        ccucon1_clkselmcan: 1,
        ccucon1_mcandiv: 2,
        ccucon1_pll1divdis: false,
        syspll_insel: 1,
        syspll_ndiv: 29,
        syspll_pdiv: 0,
        syspll_k2div: 1,
        perpll_ndiv: 31,
        perpll_pdiv: 0,
        perpll_k2div: 1,
        perpll_divby: false,
    }
}

#[test]
fn frequencies() {
    let regs = default_registers();
    assert_eq!(get_osc_frequency(0), 100_000_000);
    assert_eq!(get_osc_frequency(3), 0);
    assert_eq!(get_pll_frequency(&regs), 300_000_000);
    // 640 MHz / 2 / 1.6
    assert_eq!(get_per_pll_frequency2(&regs), 200_000_000);
    // peripheral PLL 320 MHz, halved, divided by 2
    assert_eq!(get_mcan_frequency(&regs), 80_000_000);
    let osc = ClockRegisters { ccucon1_clkselmcan: 2, ..regs };
    assert_eq!(get_mcan_frequency(&osc), 20_000_000);
    let backup = ClockRegisters { ccucon0_clksel: 0, ccucon1_mcandiv: 0, ..regs };
    assert_eq!(get_mcan_frequency(&backup), 100_000_000);
}

#[test]
fn wait_cond_times_out_or_succeeds() {
    assert!(wait_cond(3, || false).is_err());
    assert!(wait_cond(1, || true).is_ok());
    let count = std::cell::Cell::new(0);
    let r = wait_cond(3, || {
        count.set(count.get() + 1);
        count.get() == 3
    });
    assert!(r.is_ok());
    assert_eq!(count.get(), 3);
    let count = std::cell::Cell::new(0);
    let r = wait_cond(4, || {
        count.set(count.get() + 1);
        false
    });
    assert!(r.is_err());
    assert_eq!(count.get(), 4);
}

#[test]
fn wait_step_decides_each_poll() {
    assert_eq!(wait_step(5, true), WaitStep::Done);
    assert_eq!(wait_step(1, true), WaitStep::Done);
    assert_eq!(wait_step(5, false), WaitStep::Poll(4));
    assert_eq!(wait_step(2, false), WaitStep::Poll(1));
    assert_eq!(wait_step(1, false), WaitStep::TimedOut);
}

#[test]
fn application_reset() {
    assert!(!is_application_reset(0, 0, 0));
    // power-on reset wins
    assert!(!is_application_reset((1 << 16) | (1 << 4), 2 << 8, 1));
    // software reset (bit 4), configured as application reset in RSTCON bits 8..9
    assert!(is_application_reset(1 << 4, 2 << 8, 0));
    assert!(!is_application_reset(1 << 4, 1 << 8, 0));
    // the highest trigger decides: STM2 (bit 7) at RSTCON bits 14..15
    assert!(is_application_reset((1 << 7) | (1 << 0), 2 << 14, 0));
    // CB3 reset, or a kernel reset of CPU0
    assert!(is_application_reset(1 << 20, 0, 0));
    assert!(is_application_reset(0, 0, 1));
}

#[test]
fn clocks_are_configured_after_power_on_only() {
    assert!(init_clock(true).is_none());
    let c = init_clock(false).unwrap();
    assert_eq!(c.pll_initial_step.plls_parameters.xtal_frequency, 20_000_000);
}

#[test]
fn endinit_poll_reads_bit_zero() {
    assert!(endinit_reached(0xFFFF_FFFE, false));
    assert!(!endinit_reached(0xFFFF_FFFE, true));
    assert!(endinit_reached(0x0000_0001, true));
    assert!(!endinit_reached(0x0000_0003, false));
}

#[test]
fn test_clear_cpu_endinit_inline() {
    // ENDINIT and LCK read set: unlock, then clear ENDINIT and lock
    assert_eq!(clear_cpu_endinit_inline(0b11), vec![0xFD, 0xFE]);
}

#[test]
fn test_set_cpu_endinit_inline() {
    assert_eq!(set_cpu_endinit_inline(0b11), vec![0xFD, 0xFF]);
}

#[test]
fn test_clear_then_set_cpu_endinit_inline() {
    assert_eq!(clear_cpu_endinit_inline(0b11), vec![0xFD, 0xFE]);
    assert_eq!(set_cpu_endinit_inline(0b10), vec![0xFD, 0xFF]);
}

#[test]
fn test_set_then_clear_cpu_endinit_inline() {
    assert_eq!(set_cpu_endinit_inline(0b11), vec![0xFD, 0xFF]);
    assert_eq!(clear_cpu_endinit_inline(0b11), vec![0xFD, 0xFE]);
}

#[test]
fn test_clear_safety_endinit_inline() {
    assert_eq!(clear_safety_endinit_inline(0b11), vec![0xFD, 0xFE]);
}

#[test]
fn test_set_safety_endinit_inline() {
    assert_eq!(set_safety_endinit_inline(0b11), vec![0xFD, 0xFF]);
}

#[test]
fn test_clear_then_set_safety_endinit_inline() {
    assert_eq!(clear_safety_endinit_inline(0b11), vec![0xFD, 0xFE]);
    assert_eq!(set_safety_endinit_inline(0b10), vec![0xFD, 0xFF]);
}

#[test]
fn test_set_then_clear_safety_endinit_inline() {
    assert_eq!(set_safety_endinit_inline(0b11), vec![0xFD, 0xFF]);
    assert_eq!(clear_safety_endinit_inline(0b11), vec![0xFD, 0xFE]);
}

#[test]
fn test_disable_cpu_watchdog() {
    // CON0 reads 0b11, CON1 0, CON0 0b10, in that order
    assert_eq!(
        disable_cpu_watchdog(0b11, 0b00, 0b10),
        vec![
            WdtWrite::Con0(0xFD),
            WdtWrite::Con0(0xFE),
            WdtWrite::Con1(0b1000),
            WdtWrite::Con0(0xFD),
            WdtWrite::Con0(0xFF),
        ]
    );
}

#[test]
fn test_disable_safety_watchdog() {
    assert_eq!(
        disable_safety_watchdog(0b11, 0b00, 0b10),
        vec![
            WdtWrite::Con0(0xFD),
            WdtWrite::Con0(0xFE),
            WdtWrite::Con1(0b1000),
            WdtWrite::Con0(0xFD),
            WdtWrite::Con0(0xFF),
        ]
    );
}
