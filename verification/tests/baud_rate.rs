use bw_r_drivers_tc37x::can::baud_rate::{
    calculate_bit_timing, calculate_fast_bit_timing, get_best_baud_rate, get_best_sample_point,
    get_best_sjw, NBTP_NBRP_MSK, NBTP_NTSEG1_MSK, NBTP_NTSEG2_MSK,
};

#[test]
fn test_get_best_baudrate() {
    let module_freq = 80000000;
    let baudrate = 500000;
    let best = get_best_baud_rate(
        NBTP_NBRP_MSK,
        NBTP_NTSEG1_MSK,
        NBTP_NTSEG2_MSK,
        module_freq,
        baudrate,
    );

    assert_eq!(best.tbaud, 20);
    assert_eq!(best.brp, 8);
}

#[test]
fn test_get_best_sample_point() {
    let sample_point = 8000;
    let best_tbaud = 20;

    let (best_tseg1, best_tseg2) =
        get_best_sample_point(NBTP_NTSEG1_MSK, NBTP_NTSEG2_MSK, best_tbaud, sample_point);

    assert_eq!(best_tseg1, 15);
    assert_eq!(best_tseg2, 4);
}

#[test]
fn test_get_best_sjw() {
    let best_tboud = 20;
    let best_tseg2 = 4;
    let sync_jump_width = 3;
    let best_sjw = get_best_sjw(best_tboud, best_tseg2, sync_jump_width);

    assert_eq!(best_sjw, 1);
}

#[test]
fn nominal_timing_for_500_kbaud_at_80_mhz() {
    let t = calculate_bit_timing(80_000_000, 500_000, 8000, 3);
    assert_eq!(t.brp, 7);
    assert_eq!(t.tseg1, 14);
    assert_eq!(t.tseg2, 3);
    assert_eq!(t.sjw, 0);
}

#[test]
fn data_timing_for_2_mbaud_at_80_mhz() {
    let t = calculate_fast_bit_timing(80_000_000, 2_000_000, 8000, 2500);
    // 80 MHz / 2 Mbaud = 40 time quanta, in a prescaler of at most 32
    let tq = (t.brp as u32 + 1) * (t.tseg1 as u32 + t.tseg2 as u32 + 3);
    assert_eq!(80_000_000 / tq, 2_000_000);
}
