//! Bit timing calculation for the CAN nodes.
use vstd::prelude::*;

verus! {

/// Largest value of the nominal baud rate prescaler field.
pub const NBTP_NBRP_MSK: i32 = 0x1ff;
/// Largest value of the nominal time segment 1 field.
pub const NBTP_NTSEG1_MSK: i32 = 0xff;
/// Largest value of the nominal time segment 2 field.
pub const NBTP_NTSEG2_MSK: i32 = 0x7f;

/// Largest value of the data baud rate prescaler field.
pub const DBTP_DBRP_MSK: i32 = 0x1f;
/// Largest value of the data time segment 1 field.
pub const DBTP_DTSEG1_MSK: i32 = 0x1f;
/// Largest value of the data time segment 2 field.
pub const DBTP_DTSEG2_MSK: i32 = 0xf;

/// Result of the baud rate search: time quanta per bit and prescaler.
pub struct BestBaudRate {
    pub tbaud: i32,
    pub brp: i32,
}

/// The smaller of `a` and `b`.
pub open spec fn min_int(a: int, b: int) -> int {
    if a < b { a } else { b }
}

pub open spec fn abs(x: int) -> int {
    if x < 0 { -x } else { x }
}

/// Search over the prescalers `brp..=max_brp`, starting from the best candidate so far.
/// The error of a candidate is the fraction `num / den` with
/// `num = |freq - baud * brp * tbaud|` and `den = brp * tbaud`.
/// Returns `(tbaud, brp)`.
pub open spec fn baud_search(
    brp: int,
    max_brp: int,
    max_tbaud: int,
    freq: int,
    baud: int,
    best_brp: int,
    best_tbaud: int,
    best_num: int,
    best_den: int,
) -> (int, int)
    decreases max_brp + 1 - brp,
{
    if brp > max_brp || brp < 1 || baud < 1 {
        (best_tbaud, best_brp)
    } else {
        let tb = freq / (brp * baud);
        if tb < 8 {
            (best_tbaud, best_brp)
        } else {
            let num = abs(freq - baud * brp * tb);
            let den = brp * tb;
            if tb <= max_tbaud && best_num * den >= num * best_den {
                if tb <= 20 && 10 * num < den {
                    (tb, brp)
                } else {
                    baud_search(brp + 1, max_brp, max_tbaud, freq, baud, brp, tb, num, den)
                }
            } else {
                baud_search(
                    brp + 1,
                    max_brp,
                    max_tbaud,
                    freq,
                    baud,
                    best_brp,
                    best_tbaud,
                    best_num,
                    best_den,
                )
            }
        }
    }
}

/// `(tbaud, brp)` that the baud rate search selects: the prescaler whose bit
/// rate is closest to `baud` (later prescalers win ties), stopping at the
/// first candidate with at most 20 time quanta and an error under 0.1 bps.
pub open spec fn spec_best_baud_rate(
    brp_msk: int,
    tseg1_msk: int,
    tseg2_msk: int,
    freq: int,
    baud: int,
) -> (int, int) {
    baud_search(
        1,
        brp_msk + 1,
        (tseg1_msk + 1) + (tseg2_msk + 1) + 1,
        freq,
        baud,
        1,
        8,
        baud,
        1,
    )
}

proof fn lemma_tbaud_product(freq: int, brp: int, baud: int)
    requires
        0 <= freq,
        1 <= brp,
        1 <= baud,
    ensures
        (freq / (brp * baud)) * (brp * baud) <= freq,
        baud * brp * (freq / (brp * baud)) <= freq,
        brp * (freq / (brp * baud)) <= freq,
        0 <= freq / (brp * baud),
{
    let q = freq / (brp * baud);
    assert(brp * baud >= 1) by (nonlinear_arith)
        requires
            1 <= brp,
            1 <= baud,
    ;
    vstd::arithmetic::div_mod::lemma_fundamental_div_mod(freq, brp * baud);
    assert(q * (brp * baud) <= freq);
    assert(0 <= q) by {
        vstd::arithmetic::div_mod::lemma_div_pos_is_pos(freq, brp * baud);
    }
    assert(baud * brp * q == q * (brp * baud)) by (nonlinear_arith);
    assert(brp * q <= q * (brp * baud)) by (nonlinear_arith)
        requires
            0 <= q,
            1 <= baud,
            1 <= brp,
    ;
}

/// Searches the prescaler and the number of time quanta per bit that give the
/// bit rate closest to `baudrate` for a module clock of `module_freq` Hz.
pub fn get_best_baud_rate(
    brp_msk: i32,
    tseg1_msk: i32,
    tseg2_msk: i32,
    module_freq: u32,
    baudrate: u32,
) -> (r: BestBaudRate)
    requires
        brp_msk < i32::MAX - 1,
        tseg1_msk < i32::MAX,
        tseg2_msk < i32::MAX,
        i32::MIN <= (tseg1_msk + 1) + (tseg2_msk + 1),
        (tseg1_msk + 1) + (tseg2_msk + 1) + 1 <= i32::MAX,
    ensures
        (r.tbaud as int, r.brp as int) == spec_best_baud_rate(
            brp_msk as int,
            tseg1_msk as int,
            tseg2_msk as int,
            module_freq as int,
            baudrate as int,
        ),
{
    let max_brp: i32 = brp_msk + 1;
    let min_brp: i32 = 1;
    let max_tbaud: i32 = (tseg1_msk + 1) + (tseg2_msk + 1) + 1;
    let min_tbaud: i32 = 8;

    let ghost target = spec_best_baud_rate(
        brp_msk as int,
        tseg1_msk as int,
        tseg2_msk as int,
        module_freq as int,
        baudrate as int,
    );
    let freq: u64 = module_freq as u64;
    let baud: u64 = baudrate as u64;
    let mut best_num: u64 = baud;
    let mut best_den: u64 = 1;
    let mut best_brp: i32 = 1;
    let mut best_tbaud: i32 = 8;
    let mut tmp_brp: i32 = 1;
    let mut tmp_tbaud: u64 = 0;
    let mut done: bool = baudrate == 0;

    while !done && tmp_brp <= max_brp
        invariant
            1 <= tmp_brp,
            tmp_brp <= max_brp + 1 || tmp_brp == 1,
            max_brp == brp_msk + 1,
            max_brp < i32::MAX,
            max_tbaud == (tseg1_msk + 1) + (tseg2_msk + 1) + 1,
            freq == module_freq,
            baud == baudrate,
            baud >= 1 || done,
            best_brp >= 1,
            best_den >= 1,
            best_num <= u32::MAX,
            best_den <= u32::MAX,
            done ==> target == (best_tbaud as int, best_brp as int),
            !done ==> target == baud_search(
                tmp_brp as int,
                max_brp as int,
                max_tbaud as int,
                freq as int,
                baud as int,
                best_brp as int,
                best_tbaud as int,
                best_num as int,
                best_den as int,
            ),
        decreases max_brp + 1 - tmp_brp, (if done { 0int } else { 1int }),
    {
        proof {
            lemma_tbaud_product(freq as int, tmp_brp as int, baud as int);
        }
        assert((tmp_brp as u64) * baud <= 0x7fff_ffff_u64 * 0xffff_ffff_u64) by (nonlinear_arith)
            requires
                tmp_brp <= 0x7fff_ffff,
                baud <= 0xffff_ffff,
                tmp_brp >= 1,
        ;
        assert((tmp_brp as u64) * baud >= 1) by (nonlinear_arith)
            requires
                tmp_brp >= 1,
                baud >= 1,
        ;
        let q: u64 = (tmp_brp as u64) * baud;
        tmp_tbaud = freq / q;
        assert(tmp_tbaud == (freq as int) / ((tmp_brp as int) * (baud as int)));
        assert((tmp_brp as int) * (tmp_tbaud as int) <= freq);
        let den: u64 = (tmp_brp as u64) * tmp_tbaud;
        assert(baud * den == baud * tmp_brp * tmp_tbaud) by (nonlinear_arith)
            requires
                den == tmp_brp * tmp_tbaud,
        ;
        let prod: u64 = baud * den;
        assert(prod == baud * tmp_brp * tmp_tbaud) by (nonlinear_arith)
            requires
                prod == baud * den,
                den == tmp_brp * tmp_tbaud,
        ;
        let num: u64 = if freq >= prod {
            freq - prod
        } else {
            prod - freq
        };
        assert((best_num as u128) * (den as u128) <= 0xffff_ffff_u128 * 0xffff_ffff_u128) by (nonlinear_arith)
            requires
                best_num <= 0xffff_ffff,
                den <= 0xffff_ffff,
        ;
        assert((num as u128) * (best_den as u128) <= 0xffff_ffff_u128 * 0xffff_ffff_u128) by (nonlinear_arith)
            requires
                num <= 0xffff_ffff,
                best_den <= 0xffff_ffff,
        ;
        if tmp_tbaud < 8 {
            done = true;
        } else {
            assert(den >= 1) by (nonlinear_arith)
                requires
                    tmp_brp >= 1,
                    tmp_tbaud >= 8,
                    den == tmp_brp * tmp_tbaud,
            ;
            if (max_tbaud as i64) >= (tmp_tbaud as i64) && (best_num as u128) * (den as u128) >= (
            num as u128) * (best_den as u128) {
                best_brp = tmp_brp;
                best_tbaud = tmp_tbaud as i32;
                best_num = num;
                best_den = den;
                if tmp_tbaud <= 20 && 10 * num < den {
                    done = true;
                }
            }
            if !done {
                tmp_brp += 1;
            }
        }
    }

    if (best_brp == 0) && (tmp_brp == (max_brp + 1)) {
        best_brp = max_brp;
        best_tbaud = max_tbaud;
    }
    if (best_brp == 0) && ((tmp_tbaud as i64) < (min_tbaud as i64)) {
        best_brp = min_brp;
        best_tbaud = min_tbaud;
    }

    BestBaudRate { tbaud: best_tbaud, brp: best_brp }
}


/// Search over the time segment 1 candidates `t, t - 1, ..., 3`. `best4` is four
/// times the error of the best candidate so far (the initial bound is a quarter
/// of the requested sample point, i.e. 25% tolerance).
pub open spec fn sample_point_search(t: int, tbaud: int, sp: int, best_t: int, best4: int) -> int
    decreases t,
{
    if t < 3 {
        best_t
    } else {
        let tsp = ((t + 1) * 10000) / tbaud;
        let err = abs(tsp - sp);
        let nb = if best4 > 4 * err { t } else { best_t };
        let n4 = if best4 > 4 * err { 4 * err } else { best4 };
        if tsp < sp {
            nb
        } else {
            sample_point_search(t - 1, tbaud, sp, nb, n4)
        }
    }
}

/// Largest time segment 1 allowed for `tbaud` time quanta.
pub open spec fn max_tseg1_for(tseg1_msk: int, tbaud: int) -> int {
    if tbaud < tseg1_msk + 1 { tbaud } else { tseg1_msk + 1 }
}

/// Time segment 2 that completes the bit after `tseg1`, clamped to `[2, tseg2_msk + 1]`.
pub open spec fn tseg2_for(tseg2_msk: int, tbaud: int, tseg1: int) -> int {
    let t2 = if tbaud - tseg1 - 1 > tseg2_msk + 1 { tseg2_msk + 1 } else { tbaud - tseg1 - 1 };
    if t2 < 2 { 2 } else { t2 }
}

/// `(tseg1, tseg2)` whose sample point `(tseg1 + 1) / tbaud` is closest to
/// `sp` (in hundredths of a percent), searching from the largest tseg1 down.
pub open spec fn spec_best_sample_point(tseg1_msk: int, tseg2_msk: int, tbaud: int, sp: int) -> (
    int,
    int,
) {
    let m = max_tseg1_for(tseg1_msk, tbaud);
    let t1 = sample_point_search(m, tbaud, sp, m, sp);
    (t1, tseg2_for(tseg2_msk, tbaud, t1))
}

/// Searches the time segments that place the sample point closest to `sample_point`.
pub fn get_best_sample_point(
    tseg1_msk: i32,
    tseg2_msk: i32,
    best_tbaud: i32,
    sample_point: u16,
) -> (r: (i32, i32))
    requires
        0 <= tseg1_msk < i32::MAX,
        0 <= tseg2_msk < i32::MAX,
        (min_int(best_tbaud as int, tseg1_msk + 1) + 1) * 10000 <= i32::MAX,
    ensures
        (r.0 as int, r.1 as int) == spec_best_sample_point(
            tseg1_msk as int,
            tseg2_msk as int,
            best_tbaud as int,
            sample_point as int,
        ),
{
    let sp: i64 = sample_point as i64;
    let mut best4: i64 = sp;
    let max_tseg1: i32 = tseg1_msk + 1;
    let min_tseg1: i32 = 3;
    let max_tseg2: i32 = tseg2_msk + 1;
    let min_tseg2: i32 = 2;

    let max_tseg1: i32 = if best_tbaud < max_tseg1 {
        best_tbaud
    } else {
        max_tseg1
    };
    let mut best_tseg1: i32 = max_tseg1;
    let ghost m = max_tseg1 as int;
    let ghost target = sample_point_search(m, best_tbaud as int, sp as int, m, sp as int);

    let mut temp_tseg1: i32 = max_tseg1;
    let mut done: bool = false;
    while !done && temp_tseg1 >= min_tseg1
        invariant
            min_tseg1 == 3,
            temp_tseg1 <= max_tseg1 <= tseg1_msk + 1,
            max_tseg1 <= best_tbaud,
            (max_tseg1 + 1) * 10000 <= i32::MAX,
            0 <= best4 <= sp,
            sp == sample_point,
            best_tseg1 == max_tseg1 || (3 <= best_tseg1 <= max_tseg1),
            done ==> target == best_tseg1 as int,
            !done ==> target == sample_point_search(
                temp_tseg1 as int,
                best_tbaud as int,
                sp as int,
                best_tseg1 as int,
                best4 as int,
            ),
        decreases temp_tseg1 + 1, (if done { 0int } else { 1int }),
    {
        let temp_sample_point: i32 = ((temp_tseg1 + 1) * 10000) / best_tbaud;
        let e: i64 = temp_sample_point as i64 - sp;
        let error: i64 = if e < 0 {
            -e
        } else {
            e
        };
        if best4 > 4 * error {
            best_tseg1 = temp_tseg1;
            best4 = 4 * error;
        }
        if (temp_sample_point as i64) < sp {
            done = true;
        } else {
            temp_tseg1 = temp_tseg1 - 1;
        }
    }

    let best_tseg2: i32 = if (best_tbaud - best_tseg1 - 1) > max_tseg2 {
        max_tseg2
    } else {
        best_tbaud - best_tseg1 - 1
    };
    let best_tseg2: i32 = if best_tseg2 < min_tseg2 {
        min_tseg2
    } else {
        best_tseg2
    };

    (best_tseg1, best_tseg2)
}

/// Search over the jump widths `s..=tseg2`. The error of a candidate, scaled by
/// `tbaud`, is `|s * 10000 - sjw * tbaud|`; the first strictly better one wins.
pub open spec fn sjw_search(s: int, tseg2: int, tbaud: int, sjw: int, best_sjw: int, best_num: int) -> int
    decreases tseg2 + 1 - s,
{
    if s > tseg2 || s < 1 {
        best_sjw
    } else {
        let num = abs(s * 10000 - sjw * tbaud);
        if best_num > num {
            sjw_search(s + 1, tseg2, tbaud, sjw, s, num)
        } else {
            sjw_search(s + 1, tseg2, tbaud, sjw, best_sjw, best_num)
        }
    }
}

/// Jump width (in time quanta, at most `tseg2`) closest to `sjw`, given in
/// hundredths of a percent of the bit time; 0 when no candidate is within 100%.
pub open spec fn spec_best_sjw(tbaud: int, tseg2: int, sjw: int) -> int {
    if tbaud == 0 {
        0
    } else {
        sjw_search(1, tseg2, tbaud, sjw, 0, 10000 * tbaud)
    }
}

/// Searches the synchronization jump width closest to `sync_jump_width`.
pub fn get_best_sjw(best_tbaud: u32, best_tseg2: u32, sync_jump_width: u16) -> (r: u32)
    ensures
        r as int == spec_best_sjw(best_tbaud as int, best_tseg2 as int, sync_jump_width as int),
{
    if best_tbaud == 0 {
        return 0;
    }
    let tbaud: u64 = best_tbaud as u64;
    assert((sync_jump_width as u64) * tbaud <= 0xffff * 0xffff_ffff) by (nonlinear_arith)
        requires
            sync_jump_width <= 0xffff,
            tbaud <= 0xffff_ffff,
    ;
    let target_num: u64 = (sync_jump_width as u64) * tbaud;
    let mut best_sjw: u32 = 0;
    let mut best_num: u64 = 10000 * tbaud;
    let mut temp_sjw: u64 = 1;
    while temp_sjw <= best_tseg2 as u64
        invariant
            1 <= temp_sjw <= best_tseg2 as u64 + 1,
            tbaud == best_tbaud,
            tbaud >= 1,
            target_num == sync_jump_width * tbaud,
            target_num <= 0xffff * 0xffff_ffff,
            best_sjw <= best_tseg2,
            spec_best_sjw(best_tbaud as int, best_tseg2 as int, sync_jump_width as int)
                == sjw_search(
                temp_sjw as int,
                best_tseg2 as int,
                tbaud as int,
                sync_jump_width as int,
                best_sjw as int,
                best_num as int,
            ),
        decreases best_tseg2 as u64 + 1 - temp_sjw,
    {
        let scaled: u64 = temp_sjw * 10000;
        let num: u64 = if scaled >= target_num {
            scaled - target_num
        } else {
            target_num - scaled
        };
        if best_num > num {
            best_sjw = temp_sjw as u32;
            best_num = num;
        }
        temp_sjw = temp_sjw + 1;
    }
    best_sjw
}


proof fn lemma_baud_search_range(
    brp: int,
    max_brp: int,
    max_tbaud: int,
    freq: int,
    baud: int,
    best_brp: int,
    best_tbaud: int,
    best_num: int,
    best_den: int,
)
    requires
        1 <= best_brp,
        best_brp <= max_brp || best_brp == 1,
        8 <= best_tbaud,
        best_tbaud <= max_tbaud || best_tbaud == 8,
    ensures
        ({
            let r = baud_search(
                brp,
                max_brp,
                max_tbaud,
                freq,
                baud,
                best_brp,
                best_tbaud,
                best_num,
                best_den,
            );
            &&& 1 <= r.1
            &&& r.1 <= max_brp || r.1 == 1
            &&& 8 <= r.0
            &&& r.0 <= max_tbaud || r.0 == 8
        }),
    decreases max_brp + 1 - brp,
{
    if brp > max_brp || brp < 1 || baud < 1 {
    } else {
        let tb = freq / (brp * baud);
        if tb >= 8 {
            let num = abs(freq - baud * brp * tb);
            let den = brp * tb;
            if tb <= max_tbaud && best_num * den >= num * best_den {
                if !(tb <= 20 && 10 * num < den) {
                    lemma_baud_search_range(brp + 1, max_brp, max_tbaud, freq, baud, brp, tb, num, den);
                }
            } else {
                lemma_baud_search_range(
                    brp + 1,
                    max_brp,
                    max_tbaud,
                    freq,
                    baud,
                    best_brp,
                    best_tbaud,
                    best_num,
                    best_den,
                );
            }
        }
    }
}

/// The selected prescaler and bit length always fit their register fields: the
/// prescaler is in `1..=brp_msk + 1` and the bit length in
/// `8..=(tseg1_msk + 1) + (tseg2_msk + 1) + 1`, unless nothing was found and
/// the defaults (prescaler 1, 8 time quanta) are kept.
pub proof fn lemma_best_baud_rate_in_range(
    brp_msk: int,
    tseg1_msk: int,
    tseg2_msk: int,
    freq: int,
    baud: int,
)
    ensures
        ({
            let (tbaud, brp) = spec_best_baud_rate(brp_msk, tseg1_msk, tseg2_msk, freq, baud);
            &&& 1 <= brp
            &&& brp <= brp_msk + 1 || brp == 1
            &&& 8 <= tbaud
            &&& tbaud <= (tseg1_msk + 1) + (tseg2_msk + 1) + 1 || tbaud == 8
        }),
{
    lemma_baud_search_range(
        1,
        brp_msk + 1,
        (tseg1_msk + 1) + (tseg2_msk + 1) + 1,
        freq,
        baud,
        1,
        8,
        baud,
        1,
    );
}

/// Time quanta per bit with prescaler `brp`: the module clock `freq` divided
/// by `brp * baud`, rounded down.
pub open spec fn cand_tb(freq: int, baud: int, brp: int) -> int {
    freq / (brp * baud)
}

/// Numerator of the bit rate error of prescaler `brp`: `|freq - baud * brp * tb|`.
pub open spec fn cand_num(freq: int, baud: int, brp: int) -> int {
    abs(freq - baud * brp * cand_tb(freq, baud, brp))
}

/// Denominator of the bit rate error of prescaler `brp`: `brp * tb`, so that
/// the error in bps is `cand_num / cand_den`.
pub open spec fn cand_den(freq: int, baud: int, brp: int) -> int {
    brp * cand_tb(freq, baud, brp)
}

/// Whether prescaler `brp` gives a bit length the fields can hold: at least
/// 8 and at most `max_tbaud` time quanta.
pub open spec fn cand_valid(freq: int, baud: int, max_tbaud: int, brp: int) -> bool {
    8 <= cand_tb(freq, baud, brp) <= max_tbaud
}

/// Whether prescaler `brp` ends the search early: at most 20 time quanta
/// and an error under 0.1 bps.
pub open spec fn cand_stops(freq: int, baud: int, brp: int) -> bool {
    cand_tb(freq, baud, brp) <= 20 && 10 * cand_num(freq, baud, brp) < cand_den(freq, baud, brp)
}

proof fn lemma_fraction_trans(a: int, b: int, c: int, d: int, e: int, f: int)
    requires
        b > 0,
        d > 0,
        f > 0,
        a >= 0,
        c >= 0,
        e >= 0,
        a * d <= c * b,
        c * f <= e * d,
    ensures
        a * f <= e * b,
{
    assert(a * d * f <= c * b * f) by (nonlinear_arith)
        requires
            a * d <= c * b,
            f > 0,
    ;
    assert(c * f * b <= e * d * b) by (nonlinear_arith)
        requires
            c * f <= e * d,
            b > 0,
    ;
    assert(a * f * d <= e * b * d) by (nonlinear_arith)
        requires
            a * d * f <= c * b * f,
            c * f * b <= e * d * b,
    ;
    assert(a * f <= e * b) by (nonlinear_arith)
        requires
            a * f * d <= e * b * d,
            d > 0,
    ;
}

proof fn lemma_cand_facts(freq: int, baud: int, brp: int)
    requires
        freq >= 0,
        baud >= 1,
        brp >= 1,
        cand_tb(freq, baud, brp) >= 1,
    ensures
        cand_den(freq, baud, brp) >= 1,
        0 <= cand_num(freq, baud, brp),
        cand_num(freq, baud, brp) * 1 <= baud * cand_den(freq, baud, brp),
{
    let tb = cand_tb(freq, baud, brp);
    lemma_tbaud_product(freq, brp, baud);
    assert(brp * baud >= 1) by (nonlinear_arith)
        requires
            brp >= 1,
            baud >= 1,
    ;
    vstd::arithmetic::div_mod::lemma_fundamental_div_mod(freq, brp * baud);
    assert(freq % (brp * baud) < brp * baud) by {
        vstd::arithmetic::div_mod::lemma_mod_bound(freq, brp * baud);
    }
    assert(freq - baud * brp * tb == freq % (brp * baud)) by (nonlinear_arith)
        requires
            freq == (brp * baud) * tb + freq % (brp * baud),
            tb == freq / (brp * baud),
    ;
    assert(cand_den(freq, baud, brp) >= 1) by (nonlinear_arith)
        requires
            brp >= 1,
            tb >= 1,
            cand_den(freq, baud, brp) == brp * tb,
    ;
    assert(brp * baud <= baud * (brp * tb)) by (nonlinear_arith)
        requires
            brp >= 1,
            baud >= 1,
            tb >= 1,
    ;
}

proof fn lemma_cand_tb_decreases(freq: int, baud: int, b1: int, b2: int)
    requires
        freq >= 0,
        baud >= 1,
        1 <= b1 <= b2,
    ensures
        cand_tb(freq, baud, b2) <= cand_tb(freq, baud, b1),
{
    assert(1 <= b1 * baud <= b2 * baud) by (nonlinear_arith)
        requires
            1 <= b1 <= b2,
            baud >= 1,
    ;
    vstd::arithmetic::div_mod::lemma_div_is_ordered_by_denominator(freq, b1 * baud, b2 * baud);
}

proof fn lemma_baud_search_closest(
    brp: int,
    max_brp: int,
    max_tbaud: int,
    freq: int,
    baud: int,
    best_brp: int,
    best_tbaud: int,
    best_num: int,
    best_den: int,
)
    requires
        1 <= brp,
        freq >= 0,
        baud >= 1,
        forall|b: int|
            1 <= b < brp && b <= max_brp && cand_valid(freq, baud, max_tbaud, b) ==> best_num
                * cand_den(freq, baud, b) <= cand_num(freq, baud, b) * best_den,
        ({
            ||| (best_num == baud && best_den == 1 && forall|b: int|
                1 <= b < brp && b <= max_brp ==> !cand_valid(freq, baud, max_tbaud, b))
            ||| (1 <= best_brp < brp && best_brp <= max_brp && cand_valid(
                freq,
                baud,
                max_tbaud,
                best_brp,
            ) && best_tbaud == cand_tb(freq, baud, best_brp) && best_num == cand_num(
                freq,
                baud,
                best_brp,
            ) && best_den == cand_den(freq, baud, best_brp))
        }),
    ensures
        ({
            let (t, r) = baud_search(
                brp,
                max_brp,
                max_tbaud,
                freq,
                baud,
                best_brp,
                best_tbaud,
                best_num,
                best_den,
            );
            ||| (r == best_brp && t == best_tbaud && forall|b: int|
                1 <= b <= max_brp ==> !cand_valid(freq, baud, max_tbaud, b))
            ||| (1 <= r <= max_brp && cand_valid(freq, baud, max_tbaud, r) && t == cand_tb(
                freq,
                baud,
                r,
            ) && forall|b: int|
                1 <= b <= max_brp && cand_valid(freq, baud, max_tbaud, b) && (b <= r
                    || !cand_stops(freq, baud, r)) ==> cand_num(freq, baud, r) * cand_den(
                    freq,
                    baud,
                    b,
                ) <= cand_num(freq, baud, b) * cand_den(freq, baud, r))
        }),
    decreases max_brp + 1 - brp,
{
    if brp > max_brp {
        return;
    }
    let tb = cand_tb(freq, baud, brp);
    let num = cand_num(freq, baud, brp);
    let den = cand_den(freq, baud, brp);
    assert(tb == freq / (brp * baud));
    if tb < 8 {
        assert forall|b: int| brp <= b && b <= max_brp implies !cand_valid(freq, baud, max_tbaud, b) by {
            lemma_cand_tb_decreases(freq, baud, brp, b);
        }
        return;
    }
    lemma_cand_facts(freq, baud, brp);
    if tb <= max_tbaud && best_num * den >= num * best_den {
        // `brp` becomes the best candidate.
        assert forall|b: int|
            1 <= b < brp + 1 && b <= max_brp && cand_valid(freq, baud, max_tbaud, b) implies num
                * cand_den(freq, baud, b) <= cand_num(freq, baud, b) * den by {
            if b < brp {
                lemma_cand_facts(freq, baud, b);
                if !(best_num == baud && best_den == 1) {
                    lemma_cand_facts(freq, baud, best_brp);
                }
                assert(best_den >= 1 && best_num >= 0);
                {
                    lemma_fraction_trans(
                        num,
                        den,
                        best_num,
                        best_den,
                        cand_num(freq, baud, b),
                        cand_den(freq, baud, b),
                    );
                }
            }
        }
        if tb <= 20 && 10 * num < den {
        } else {
            lemma_baud_search_closest(brp + 1, max_brp, max_tbaud, freq, baud, brp, tb, num, den);
        }
    } else {
        if tb <= max_tbaud {
            // A valid candidate always beats the default, so the best so far
            // is a candidate.
            assert(!(best_num == baud && best_den == 1));
        }
        lemma_baud_search_closest(
            brp + 1,
            max_brp,
            max_tbaud,
            freq,
            baud,
            best_brp,
            best_tbaud,
            best_num,
            best_den,
        );
    }
}

/// The baud rate search selects the closest bit rate: for every prescaler
/// `b` whose bit length the fields can hold, the selected prescaler's bit
/// rate error is at most that of `b` (errors compared as fractions), among
/// the prescalers up to the selected one, and among all of them unless the
/// search ended early on a prescaler with at most 20 time quanta and an
/// error under 0.1 bps. When no prescaler is valid the defaults are kept.
pub proof fn lemma_best_baud_rate_closest(
    brp_msk: int,
    tseg1_msk: int,
    tseg2_msk: int,
    freq: int,
    baud: int,
    b: int,
)
    requires
        freq >= 0,
        baud >= 1,
        1 <= b <= brp_msk + 1,
        cand_valid(freq, baud, (tseg1_msk + 1) + (tseg2_msk + 1) + 1, b),
    ensures
        ({
            let (t, r) = spec_best_baud_rate(brp_msk, tseg1_msk, tseg2_msk, freq, baud);
            let max_tbaud = (tseg1_msk + 1) + (tseg2_msk + 1) + 1;
            &&& cand_valid(freq, baud, max_tbaud, r)
            &&& t == cand_tb(freq, baud, r)
            &&& (b <= r || !cand_stops(freq, baud, r)) ==> cand_num(freq, baud, r) * cand_den(
                freq,
                baud,
                b,
            ) <= cand_num(freq, baud, b) * cand_den(freq, baud, r)
        }),
{
    lemma_baud_search_closest(
        1,
        brp_msk + 1,
        (tseg1_msk + 1) + (tseg2_msk + 1) + 1,
        freq,
        baud,
        1,
        8,
        baud,
        1,
    );
}

proof fn lemma_sample_point_search_range(t: int, tbaud: int, sp: int, best_t: int, best4: int)
    ensures
        ({
            let r = sample_point_search(t, tbaud, sp, best_t, best4);
            r == best_t || 3 <= r <= t
        }),
    decreases t,
{
    if t >= 3 {
        let tsp = ((t + 1) * 10000) / tbaud;
        let err = abs(tsp - sp);
        let nb = if best4 > 4 * err { t } else { best_t };
        let n4 = if best4 > 4 * err { 4 * err } else { best4 };
        if tsp >= sp {
            lemma_sample_point_search_range(t - 1, tbaud, sp, nb, n4);
        }
    }
}

/// For a bit of at least 3 time quanta the selected time segment 1 is in
/// `3..=min(tbaud, tseg1_msk + 1)`, and time segment 2 is always in
/// `2..=max(2, tseg2_msk + 1)`.
pub proof fn lemma_best_sample_point_in_range(tseg1_msk: int, tseg2_msk: int, tbaud: int, sp: int)
    ensures
        ({
            let (t1, t2) = spec_best_sample_point(tseg1_msk, tseg2_msk, tbaud, sp);
            &&& (tbaud >= 3 && tseg1_msk >= 2) ==> 3 <= t1 <= max_tseg1_for(tseg1_msk, tbaud)
            &&& 2 <= t2
            &&& t2 <= tseg2_msk + 1 || t2 == 2
        }),
{
    let m = max_tseg1_for(tseg1_msk, tbaud);
    lemma_sample_point_search_range(m, tbaud, sp, m, sp);
}

proof fn lemma_sjw_search_range(s: int, tseg2: int, tbaud: int, sjw: int, best_sjw: int, best_num: int)
    requires
        0 <= best_sjw <= tseg2 || best_sjw == 0,
        1 <= s,
    ensures
        ({
            let r = sjw_search(s, tseg2, tbaud, sjw, best_sjw, best_num);
            r == 0 || 1 <= r <= tseg2
        }),
    decreases tseg2 + 1 - s,
{
    if s <= tseg2 {
        let num = abs(s * 10000 - sjw * tbaud);
        if best_num > num {
            lemma_sjw_search_range(s + 1, tseg2, tbaud, sjw, s, num);
        } else {
            lemma_sjw_search_range(s + 1, tseg2, tbaud, sjw, best_sjw, best_num);
        }
    }
}

/// The selected jump width is 0 (nothing within 100%) or in `1..=tseg2`.
pub proof fn lemma_best_sjw_in_range(tbaud: int, tseg2: int, sjw: int)
    ensures
        spec_best_sjw(tbaud, tseg2, sjw) == 0 || 1 <= spec_best_sjw(tbaud, tseg2, sjw) <= tseg2,
{
    if tbaud != 0 {
        lemma_sjw_search_range(1, tseg2, tbaud, sjw, 0, 10000 * tbaud);
    }
}

/// Sample point, in hundredths of a percent, of time segment 1 `t` in a bit
/// of `tbaud` time quanta.
pub open spec fn sample_point_of(t: int, tbaud: int) -> int {
    ((t + 1) * 10000) / tbaud
}

/// Distance of the sample point of time segment 1 `t` from `sp`.
pub open spec fn sample_point_error(t: int, tbaud: int, sp: int) -> int {
    abs(sample_point_of(t, tbaud) - sp)
}

proof fn lemma_sample_point_search_closest(
    t: int,
    m: int,
    tbaud: int,
    sp: int,
    best_t: int,
    best4: int,
)
    requires
        tbaud > 0,
        t <= m,
        forall|k: int|
            t < k <= m && 3 <= k ==> best4 <= 4 * #[trigger] sample_point_error(k, tbaud, sp),
        forall|k: int| t < k <= m && 3 <= k ==> #[trigger] sample_point_of(k, tbaud) >= sp,
        ({
            ||| (best_t == m && best4 == sp)
            ||| (t < best_t <= m && 3 <= best_t && best4 == 4 * sample_point_error(best_t, tbaud, sp)
                && best4 < sp)
        }),
    ensures
        ({
            let r = sample_point_search(t, tbaud, sp, best_t, best4);
            ||| (r == m && forall|k: int|
                3 <= k <= m ==> 4 * #[trigger] sample_point_error(k, tbaud, sp) >= sp)
            ||| (3 <= r <= m && 4 * sample_point_error(r, tbaud, sp) < sp && forall|k: int|
                3 <= k <= m ==> sample_point_error(r, tbaud, sp) <= #[trigger] sample_point_error(
                    k,
                    tbaud,
                    sp,
                ))
        }),
    decreases t,
{
    if t < 3 {
    } else {
        let tsp = sample_point_of(t, tbaud);
        let err = sample_point_error(t, tbaud, sp);
        assert(tsp == ((t + 1) * 10000) / tbaud);
        let nb = if best4 > 4 * err { t } else { best_t };
        let n4 = if best4 > 4 * err { 4 * err } else { best4 };
        if tsp < sp {
            assert forall|k: int| 3 <= k < t implies n4 <= 4 * #[trigger] sample_point_error(
                k,
                tbaud,
                sp,
            ) by {
                vstd::arithmetic::div_mod::lemma_div_is_ordered((k + 1) * 10000, (t + 1) * 10000, tbaud);
            }
        } else {
            lemma_sample_point_search_closest(t - 1, m, tbaud, sp, nb, n4);
        }
    }
}

/// The selected time segment 1 places the sample point closest to `sp`:
/// when some time segment 1 in `3..=min(tbaud, tseg1_msk + 1)` is within
/// 25% of `sp`, the selected one is in that range and no other is closer;
/// otherwise the largest is kept.
pub proof fn lemma_best_sample_point_closest(tseg1_msk: int, tseg2_msk: int, tbaud: int, sp: int)
    requires
        tbaud > 0,
    ensures
        ({
            let (t1, t2) = spec_best_sample_point(tseg1_msk, tseg2_msk, tbaud, sp);
            let m = max_tseg1_for(tseg1_msk, tbaud);
            ||| (t1 == m && forall|k: int|
                3 <= k <= m ==> 4 * #[trigger] sample_point_error(k, tbaud, sp) >= sp)
            ||| (3 <= t1 <= m && 4 * sample_point_error(t1, tbaud, sp) < sp && forall|k: int|
                3 <= k <= m ==> sample_point_error(t1, tbaud, sp) <= #[trigger] sample_point_error(
                    k,
                    tbaud,
                    sp,
                ))
        }),
{
    let m = max_tseg1_for(tseg1_msk, tbaud);
    lemma_sample_point_search_closest(m, m, tbaud, sp, m, sp);
}

/// Error, scaled by `tbaud`, of jump width `s` against `sjw` hundredths of
/// a percent of the bit time.
pub open spec fn sjw_error(s: int, tbaud: int, sjw: int) -> int {
    abs(s * 10000 - sjw * tbaud)
}

proof fn lemma_sjw_search_closest(
    s: int,
    tseg2: int,
    tbaud: int,
    sjw: int,
    best_sjw: int,
    best_num: int,
    limit: int,
)
    requires
        1 <= s,
        forall|k: int| 1 <= k < s && k <= tseg2 ==> best_num <= #[trigger] sjw_error(k, tbaud, sjw),
        ({
            ||| (best_sjw == 0 && best_num == limit)
            ||| (1 <= best_sjw < s && best_sjw <= tseg2 && best_num == sjw_error(best_sjw, tbaud, sjw)
                && best_num < limit && forall|k: int|
                1 <= k < best_sjw ==> sjw_error(k, tbaud, sjw) > best_num)
        }),
    ensures
        ({
            let r = sjw_search(s, tseg2, tbaud, sjw, best_sjw, best_num);
            ||| (r == 0 && best_sjw == 0 && forall|k: int|
                1 <= k <= tseg2 ==> #[trigger] sjw_error(k, tbaud, sjw) >= limit)
            ||| (1 <= r <= tseg2 && sjw_error(r, tbaud, sjw) < limit && (forall|k: int|
                1 <= k <= tseg2 ==> sjw_error(r, tbaud, sjw) <= #[trigger] sjw_error(k, tbaud, sjw))
                && forall|k: int| 1 <= k < r ==> #[trigger] sjw_error(k, tbaud, sjw) > sjw_error(r, tbaud, sjw))
        }),
    decreases tseg2 + 1 - s,
{
    if s > tseg2 {
    } else {
        let num = sjw_error(s, tbaud, sjw);
        assert(num == abs(s * 10000 - sjw * tbaud));
        if best_num > num {
            lemma_sjw_search_closest(s + 1, tseg2, tbaud, sjw, s, num, limit);
        } else {
            lemma_sjw_search_closest(s + 1, tseg2, tbaud, sjw, best_sjw, best_num, limit);
        }
    }
}

/// The selected jump width is the closest to `sjw`: when it is not 0, no
/// jump width in `1..=tseg2` is closer, and every smaller one is farther
/// (the first closest wins); when it is 0, every jump width is at least
/// 100% of the bit time away.
pub proof fn lemma_best_sjw_closest(tbaud: int, tseg2: int, sjw: int)
    requires
        tbaud != 0,
    ensures
        ({
            let r = spec_best_sjw(tbaud, tseg2, sjw);
            ||| (r == 0 && forall|k: int|
                1 <= k <= tseg2 ==> #[trigger] sjw_error(k, tbaud, sjw) >= 10000 * tbaud)
            ||| (1 <= r <= tseg2 && (forall|k: int|
                1 <= k <= tseg2 ==> sjw_error(r, tbaud, sjw) <= #[trigger] sjw_error(k, tbaud, sjw))
                && forall|k: int| 1 <= k < r ==> #[trigger] sjw_error(k, tbaud, sjw) > sjw_error(r, tbaud, sjw))
        }),
{
    lemma_sjw_search_closest(1, tseg2, tbaud, sjw, 0, 10000 * tbaud, 10000 * tbaud);
}

/// `(brp, sjw, tseg1, tseg2)` that the automatic bit timing selects, before
/// the register encoding subtracts one from each.
pub open spec fn spec_bit_timing(
    brp_msk: int,
    tseg1_msk: int,
    tseg2_msk: int,
    freq: int,
    baud: int,
    sp: int,
    sjw: int,
) -> (int, int, int, int) {
    let (tbaud, brp) = spec_best_baud_rate(brp_msk, tseg1_msk, tseg2_msk, freq, baud);
    let (t1, t2) = spec_best_sample_point(tseg1_msk, tseg2_msk, tbaud, sp);
    (brp, spec_best_sjw(tbaud, t2, sjw), t1, t2)
}

/// Nominal CAN bit timing, in register encoding (each value is one less than
/// the number of time quanta or the prescaler it stands for).
#[derive(Debug, Clone, Copy)]
pub struct NominalBitTiming {
    pub brp: u16,
    pub sjw: u8,
    pub tseg1: u8,
    pub tseg2: u8,
}

/// Data CAN bit timing, in register encoding.
#[derive(Debug, Clone, Copy)]
pub struct DataBitTiming {
    pub brp: u8,
    pub sjw: u8,
    pub tseg1: u8,
    pub tseg2: u8,
}

/// Automatic bit timing configuration
pub struct AutoBitTiming {
    /// Baud rate in bps
    pub baud_rate: u32,
    /// Sample point in 1/100th of a percent (e.g. 8000 = 80%)
    pub sample_point: u16,
    /// Synchronization jump width in 1/100th of a percent of the bit time
    pub sync_jump_width: u16,
}

impl Default for AutoBitTiming {
    fn default() -> (r: Self)
        ensures
            r.baud_rate == 0,
            r.sample_point == 0,
            r.sync_jump_width == 0,
    {
        AutoBitTiming { baud_rate: 0, sample_point: 0, sync_jump_width: 0 }
    }
}

/// CAN bit timing configuration
pub enum BitTimingConfig {
    Auto(AutoBitTiming),
    Manual(NominalBitTiming),
}

impl Default for BitTimingConfig {
    fn default() -> (r: Self)
        ensures
            r matches BitTimingConfig::Auto(a) && a.baud_rate == 0 && a.sample_point == 0
                && a.sync_jump_width == 0,
    {
        BitTimingConfig::Auto(AutoBitTiming::default())
    }
}

/// Fast CAN bit timing configuration
pub enum FastBitTimingConfig {
    Auto(AutoBitTiming),
    Manual(DataBitTiming),
}

impl Default for FastBitTimingConfig {
    fn default() -> (r: Self)
        ensures
            r matches FastBitTimingConfig::Auto(a) && a.baud_rate == 0 && a.sample_point == 0
                && a.sync_jump_width == 0,
    {
        FastBitTimingConfig::Auto(AutoBitTiming::default())
    }
}

/// Whether the nominal timing for these inputs has a jump width and a time
/// segment 1 that the register fields can hold.
pub open spec fn nominal_timing_encodable(freq: int, baud: int, sp: int, sjw: int) -> bool {
    let t = spec_bit_timing(
        NBTP_NBRP_MSK as int,
        NBTP_NTSEG1_MSK as int,
        NBTP_NTSEG2_MSK as int,
        freq,
        baud,
        sp,
        sjw,
    );
    t.1 >= 1 && t.2 <= 255
}

/// Whether the automatic timing with these register field limits has a jump
/// width of at least one quantum and a time segment 1 that fits
/// `tseg1_limit`.
pub open spec fn timing_encodable(
    brp_msk: int,
    tseg1_msk: int,
    tseg2_msk: int,
    tseg1_limit: int,
    freq: int,
    baud: int,
    sp: int,
    sjw: int,
) -> bool {
    let t = spec_bit_timing(brp_msk, tseg1_msk, tseg2_msk, freq, baud, sp, sjw);
    t.1 >= 1 && t.2 <= tseg1_limit
}

fn timing_is_encodable(
    brp_msk: i32,
    tseg1_msk: i32,
    tseg2_msk: i32,
    tseg1_limit: i32,
    module_freq: u32,
    baud_rate: u32,
    sample_point: u16,
    sjw: u16,
) -> (r: bool)
    requires
        0 < brp_msk <= 0x1ff,
        0 < tseg1_msk <= 0xff,
        0 < tseg2_msk <= 0x7f,
    ensures
        r == timing_encodable(
            brp_msk as int,
            tseg1_msk as int,
            tseg2_msk as int,
            tseg1_limit as int,
            module_freq as int,
            baud_rate as int,
            sample_point as int,
            sjw as int,
        ),
{
    let best = get_best_baud_rate(brp_msk, tseg1_msk, tseg2_msk, module_freq, baud_rate);
    proof {
        lemma_best_baud_rate_in_range(
            brp_msk as int,
            tseg1_msk as int,
            tseg2_msk as int,
            module_freq as int,
            baud_rate as int,
        );
        lemma_best_sample_point_in_range(
            tseg1_msk as int,
            tseg2_msk as int,
            best.tbaud as int,
            sample_point as int,
        );
    }
    let (tseg1, tseg2) = get_best_sample_point(tseg1_msk, tseg2_msk, best.tbaud, sample_point);
    let best_sjw = get_best_sjw(best.tbaud as u32, tseg2 as u32, sjw);
    best_sjw >= 1 && tseg1 <= tseg1_limit
}

/// Whether [`calculate_bit_timing`] accepts these inputs.
pub fn nominal_timing_is_encodable(module_freq: u32, baud_rate: u32, sample_point: u16, sjw: u16) -> (r: bool)
    ensures
        r == nominal_timing_encodable(module_freq as int, baud_rate as int, sample_point as int, sjw as int),
{
    timing_is_encodable(
        NBTP_NBRP_MSK,
        NBTP_NTSEG1_MSK,
        NBTP_NTSEG2_MSK,
        255,
        module_freq,
        baud_rate,
        sample_point,
        sjw,
    )
}

/// Whether [`calculate_fast_bit_timing`] accepts these inputs.
pub fn data_timing_is_encodable(module_freq: u32, baud_rate: u32, sample_point: u16, sjw: u16) -> (r: bool)
    ensures
        r == data_timing_encodable(module_freq as int, baud_rate as int, sample_point as int, sjw as int),
{
    let best = get_best_baud_rate(DBTP_DBRP_MSK, DBTP_DTSEG1_MSK, DBTP_DTSEG2_MSK, module_freq, baud_rate);
    proof {
        lemma_best_baud_rate_in_range(
            DBTP_DBRP_MSK as int,
            DBTP_DTSEG1_MSK as int,
            DBTP_DTSEG2_MSK as int,
            module_freq as int,
            baud_rate as int,
        );
        lemma_best_sample_point_in_range(
            DBTP_DTSEG1_MSK as int,
            DBTP_DTSEG2_MSK as int,
            best.tbaud as int,
            sample_point as int,
        );
    }
    let (_, tseg2) = get_best_sample_point(DBTP_DTSEG1_MSK, DBTP_DTSEG2_MSK, best.tbaud, sample_point);
    let best_sjw = get_best_sjw(best.tbaud as u32, tseg2 as u32, sjw);
    best_sjw >= 1
}

/// Computes the nominal bit timing for a module clock of `module_freq` Hz.
pub fn calculate_bit_timing(module_freq: u32, baud_rate: u32, sample_point: u16, sjw: u16) -> (r:
    NominalBitTiming)
    requires
        nominal_timing_encodable(module_freq as int, baud_rate as int, sample_point as int, sjw as int),
    ensures
        ({
            let t = spec_bit_timing(
                NBTP_NBRP_MSK as int,
                NBTP_NTSEG1_MSK as int,
                NBTP_NTSEG2_MSK as int,
                module_freq as int,
                baud_rate as int,
                sample_point as int,
                sjw as int,
            );
            &&& r.brp == t.0 - 1
            &&& r.sjw == t.1 - 1
            &&& r.tseg1 == t.2 - 1
            &&& r.tseg2 == t.3 - 1
        }),
{
    let best = get_best_baud_rate(
        NBTP_NBRP_MSK,
        NBTP_NTSEG1_MSK,
        NBTP_NTSEG2_MSK,
        module_freq,
        baud_rate,
    );
    proof {
        lemma_best_baud_rate_in_range(
            NBTP_NBRP_MSK as int,
            NBTP_NTSEG1_MSK as int,
            NBTP_NTSEG2_MSK as int,
            module_freq as int,
            baud_rate as int,
        );
        lemma_best_sample_point_in_range(
            NBTP_NTSEG1_MSK as int,
            NBTP_NTSEG2_MSK as int,
            best.tbaud as int,
            sample_point as int,
        );
    }
    let (best_tseg1, best_tseg2) = get_best_sample_point(
        NBTP_NTSEG1_MSK,
        NBTP_NTSEG2_MSK,
        best.tbaud,
        sample_point,
    );
    let best_sjw = get_best_sjw(best.tbaud as u32, best_tseg2 as u32, sjw);
    proof {
        lemma_best_sjw_in_range(best.tbaud as int, best_tseg2 as int, sjw as int);
    }
    NominalBitTiming {
        brp: best.brp as u16 - 1,
        sjw: best_sjw as u8 - 1,
        tseg1: best_tseg1 as u8 - 1,
        tseg2: best_tseg2 as u8 - 1,
    }
}

/// Whether the data timing for these inputs has a jump width the register field can hold.
pub open spec fn data_timing_encodable(freq: int, baud: int, sp: int, sjw: int) -> bool {
    spec_bit_timing(
        DBTP_DBRP_MSK as int,
        DBTP_DTSEG1_MSK as int,
        DBTP_DTSEG2_MSK as int,
        freq,
        baud,
        sp,
        sjw,
    ).1 >= 1
}

/// Computes the data (fast) bit timing for a module clock of `module_freq` Hz.
pub fn calculate_fast_bit_timing(module_freq: u32, baud_rate: u32, sample_point: u16, sjw: u16) -> (r:
    DataBitTiming)
    requires
        data_timing_encodable(module_freq as int, baud_rate as int, sample_point as int, sjw as int),
    ensures
        ({
            let t = spec_bit_timing(
                DBTP_DBRP_MSK as int,
                DBTP_DTSEG1_MSK as int,
                DBTP_DTSEG2_MSK as int,
                module_freq as int,
                baud_rate as int,
                sample_point as int,
                sjw as int,
            );
            &&& r.brp == t.0 - 1
            &&& r.sjw == t.1 - 1
            &&& r.tseg1 == t.2 - 1
            &&& r.tseg2 == t.3 - 1
        }),
{
    let best = get_best_baud_rate(
        DBTP_DBRP_MSK,
        DBTP_DTSEG1_MSK,
        DBTP_DTSEG2_MSK,
        module_freq,
        baud_rate,
    );
    proof {
        lemma_best_baud_rate_in_range(
            DBTP_DBRP_MSK as int,
            DBTP_DTSEG1_MSK as int,
            DBTP_DTSEG2_MSK as int,
            module_freq as int,
            baud_rate as int,
        );
        lemma_best_sample_point_in_range(
            DBTP_DTSEG1_MSK as int,
            DBTP_DTSEG2_MSK as int,
            best.tbaud as int,
            sample_point as int,
        );
    }
    let (best_tseg1, best_tseg2) = get_best_sample_point(
        DBTP_DTSEG1_MSK,
        DBTP_DTSEG2_MSK,
        best.tbaud,
        sample_point,
    );
    let best_sjw = get_best_sjw(best.tbaud as u32, best_tseg2 as u32, sjw);
    proof {
        lemma_best_sjw_in_range(best.tbaud as int, best_tseg2 as int, sjw as int);
    }
    DataBitTiming {
        brp: best.brp as u8 - 1,
        sjw: best_sjw as u8 - 1,
        tseg1: best_tseg1 as u8 - 1,
        tseg2: best_tseg2 as u8 - 1,
    }
}

} // verus!
