//! Plausibility of CPU-temperature readings and their exact average.
//!
//! Every reading that passes the plausibility band is a whole multiple of
//! 2^-19 degrees, so readings are summed exactly in that unit.
use vstd::prelude::*;
use vstd::arithmetic::power2::{pow2, lemma_pow2_adds, lemma_pow2_pos, lemma_pow2_strictly_increases, lemma2_to64};
use vstd::arithmetic::div_mod::lemma_div_by_multiple;
use crate::codec::Reading;

verus! {

/// Units in one degree Celsius.
pub const UNITS_PER_DEGREE: u64 = 0x8_0000;

/// The sign bit of a float's bit pattern is set.
pub open spec fn f32_negative(bits: u32) -> bool {
    bits >= 0x8000_0000
}

/// The biased exponent field of a float's bit pattern.
pub open spec fn f32_exponent(bits: u32) -> nat {
    ((bits as nat / 0x80_0000) % 0x100) as nat
}

/// The fraction field of a float's bit pattern.
pub open spec fn f32_fraction(bits: u32) -> nat {
    (bits as nat % 0x80_0000) as nat
}

/// The magnitude of a finite float times 2^150, which is always a whole number.
pub open spec fn f32_magnitude_scaled(bits: u32) -> nat {
    if f32_exponent(bits) == 0 {
        f32_fraction(bits) * 2
    } else {
        (f32_fraction(bits) + 0x80_0000) * pow2(f32_exponent(bits))
    }
}

/// A float lies in [20, 110) degrees: it is finite, not negative, and its
/// magnitude is in that band.
pub open spec fn plausible_float(bits: u32) -> bool {
    &&& !f32_negative(bits)
    &&& f32_exponent(bits) < 0xff
    &&& 20 * pow2(150) <= f32_magnitude_scaled(bits) < 110 * pow2(150)
}

/// A reading lies in the accepted CPU-temperature band [20, 110) degrees.
pub open spec fn plausible(r: Reading) -> bool {
    match r {
        Reading::FixedPoint(v) => 20 * 256 <= v < 110 * 256,
        Reading::Float(bits) => plausible_float(bits),
        Reading::Byte(b) => 20 <= b < 110,
    }
}

/// A reading in units of 2^-19 degrees; exact for plausible readings.
pub open spec fn units(r: Reading) -> int {
    match r {
        Reading::FixedPoint(v) => (v as int) * 0x800,
        Reading::Float(bits) => (f32_magnitude_scaled(bits) as int) / (pow2(131) as int),
        Reading::Byte(b) => (b as int) * 0x8_0000,
    }
}

proof fn lemma_scale_le(a: int, b: int, p: int)
    requires
        p > 0,
    ensures
        a * p <= b * p <==> a <= b,
        a * p < b * p <==> a < b,
{
    if a <= b {
        assert(a * p <= b * p) by (nonlinear_arith)
            requires
                a <= b,
                p > 0,
        ;
    } else {
        assert(a * p > b * p) by (nonlinear_arith)
            requires
                a > b,
                p > 0,
        ;
    }
    if a < b {
        assert(a * p < b * p) by (nonlinear_arith)
            requires
                a < b,
                p > 0,
        ;
    } else {
        assert(a * p >= b * p) by (nonlinear_arith)
            requires
                a >= b,
                p > 0,
        ;
    }
}

/// Positive floats order as their bit patterns: the band [20, 110) is exactly
/// the bit patterns from that of 20.0 up to that of 110.0, and every float in it
/// has an exponent between 131 and 133.
proof fn lemma_float_band(bits: u32)
    ensures
        plausible_float(bits) <==> (0x41A0_0000 <= bits < 0x42DC_0000),
        plausible_float(bits) ==> 131 <= f32_exponent(bits) <= 133 && f32_magnitude_scaled(bits)
            == (f32_fraction(bits) + 0x80_0000) * pow2((f32_exponent(bits) - 131) as nat) * pow2(131),
{
    let e = f32_exponent(bits);
    let f = f32_fraction(bits);
    let m: int = f as int + 0x80_0000;
    let s = f32_magnitude_scaled(bits);
    assert(bits as int == (if f32_negative(bits) { 0x8000_0000int } else { 0int }) + e * 0x80_0000 + f);
    lemma2_to64();
    lemma_pow2_pos(131);
    lemma_pow2_adds(131, 19);
    let p = pow2(131) as int;
    let big = pow2(150) as int;
    assert(big == p * 0x8_0000);
    if f32_negative(bits) || e == 0xff {
    } else if e == 0 {
        lemma_pow2_strictly_increases(5, 131);
        assert(big >= 0x100_0000) by (nonlinear_arith)
            requires
                big == p * 0x8_0000,
                p > 32,
        ;
    } else if e <= 130 {
        lemma_pow2_adds(e, (130 - e) as nat);
        lemma_pow2_pos((130 - e) as nat);
        lemma_pow2_pos(e);
        lemma_pow2_adds(130, 20);
        let q = pow2(130) as int;
        let pe = pow2(e) as int;
        assert(pe <= q) by (nonlinear_arith)
            requires
                q == pe * pow2((130 - e) as nat),
                pow2((130 - e) as nat) > 0,
                pe > 0,
        ;
        assert(s < 20 * big) by (nonlinear_arith)
            requires
                s == m * pe,
                m < 0x100_0000,
                pe <= q,
                pe > 0,
                big == q * 0x10_0000,
        ;
    } else if e >= 134 {
        lemma_pow2_adds(134, (e - 134) as nat);
        lemma_pow2_pos((e - 134) as nat);
        lemma_pow2_adds(134, 16);
        let q = pow2(134) as int;
        let pe = pow2(e) as int;
        assert(s >= 110 * big) by (nonlinear_arith)
            requires
                s == m * pe,
                m >= 0x80_0000,
                pe == q * pow2((e - 134) as nat),
                pow2((e - 134) as nat) > 0,
                q > 0,
                big == q * 0x1_0000,
        ;
    } else {
        let k = pow2((e - 131) as nat) as int;
        lemma_pow2_adds(131, (e - 131) as nat);
        assert(s == (m * k) * p) by (nonlinear_arith)
            requires
                s == m * (p * k),
        ;
        lemma_scale_le(20int * 0x8_0000, m * k, p);
        lemma_scale_le(m * k, 110int * 0x8_0000, p);
        assert(20 * big == (20 * 0x8_0000) * p);
        assert(110 * big == (110 * 0x8_0000) * p);
        if e == 131 {
            assert(m * k == m) by (nonlinear_arith)
                requires
                    k == 1,
            ;
        } else if e == 132 {
            assert(m * k == m * 2) by (nonlinear_arith)
                requires
                    k == 2,
            ;
        } else {
            assert(m * k == m * 4) by (nonlinear_arith)
                requires
                    k == 4,
            ;
        }
    }
}

/// Tells whether a reading lies in the accepted CPU-temperature band
/// [20, 110) degrees; readings outside it are noise or an inapplicable sensor.
pub fn is_plausible_cpu_temperature(r: Reading) -> (b: bool)
    ensures
        b == plausible(r),
{
    match r {
        Reading::FixedPoint(v) => 20 * 256 <= v && v < 110 * 256,
        Reading::Float(bits) => {
            proof {
                lemma_float_band(bits);
            }
            0x41A0_0000 <= bits && bits < 0x42DC_0000
        },
        Reading::Byte(b) => 20 <= b && b < 110,
    }
}

/// A plausible reading in units of 2^-19 degrees, exactly.
pub fn to_units(r: Reading) -> (out: u64)
    requires
        plausible(r),
    ensures
        out == units(r),
        out < 110 * UNITS_PER_DEGREE,
{
    match r {
        Reading::FixedPoint(v) => (v as u64) * 0x800,
        Reading::Float(bits) => {
            let e = (bits >> 23) & 0xff;
            let f = bits & 0x7f_ffff;
            assert(e == (bits / 0x80_0000) % 0x100 && f == bits % 0x80_0000) by (bit_vector)
                requires
                    e == (bits >> 23) & 0xff,
                    f == bits & 0x7f_ffff,
            ;
            let m = (f as u64) + 0x80_0000;
            let u = if e == 131 {
                m
            } else if e == 132 {
                m * 2
            } else {
                m * 4
            };
            proof {
                lemma_float_band(bits);
                lemma2_to64();
                lemma_pow2_pos(131);
                lemma_pow2_adds(131, 19);
                let p = pow2(131) as int;
                let k = pow2((e - 131) as nat) as int;
                assert(u == m * k) by (nonlinear_arith)
                    requires
                        e == 131 ==> k == 1 && u == m,
                        e == 132 ==> k == 2 && u == m * 2,
                        e == 133 ==> k == 4 && u == m * 4,
                        131 <= e <= 133,
                ;
                lemma_div_by_multiple(u as int, p);
                lemma_scale_le(u as int, 110int * 0x8_0000, p);
                assert(110 * pow2(150) == (110int * 0x8_0000) * p);
            }
            u
        },
        Reading::Byte(b) => (b as u64) * 0x8_0000,
    }
}


/// The average of accepted readings, kept exact: `total / count` units, that is
/// `total / (count * 2^19)` degrees.
#[derive(Clone, Copy, PartialEq, Eq, Debug, Structural)]
pub struct TemperatureMean {
    pub total: u128,
    pub count: u64,
}

/// Sum, in units, of the plausible readings of a sequence.
pub open spec fn accepted_total(s: Seq<Reading>) -> int
    decreases s.len(),
{
    if s.len() == 0 {
        0
    } else {
        accepted_total(s.drop_last()) + if plausible(s.last()) {
            units(s.last())
        } else {
            0
        }
    }
}

/// Number of plausible readings in a sequence.
pub open spec fn accepted_count(s: Seq<Reading>) -> nat
    decreases s.len(),
{
    if s.len() == 0 {
        0
    } else {
        accepted_count(s.drop_last()) + if plausible(s.last()) {
            1nat
        } else {
            0nat
        }
    }
}

/// The mean of the plausible readings; none when no reading is plausible.
pub open spec fn mean_spec(s: Seq<Reading>) -> Option<TemperatureMean> {
    if accepted_count(s) == 0 {
        None
    } else {
        Some(TemperatureMean { total: accepted_total(s) as u128, count: accepted_count(s) as u64 })
    }
}

/// Averages the readings that lie in the plausible band, discarding the rest;
/// with no plausible reading the temperature is unavailable, not zero.
pub fn mean_of_plausible(readings: &Vec<Reading>) -> (r: Option<TemperatureMean>)
    ensures
        r == mean_spec(readings@),
{
    let mut total: u128 = 0;
    let mut count: u64 = 0;
    let mut i: usize = 0;
    while i < readings.len()
        invariant
            i <= readings.len(),
            total == accepted_total(readings@.take(i as int)),
            count == accepted_count(readings@.take(i as int)),
            count <= i,
            total <= count * 0x370_0000,
        decreases readings.len() - i,
    {
        let rd = readings[i];
        assert(readings@.take(i + 1).drop_last() =~= readings@.take(i as int));
        if is_plausible_cpu_temperature(rd) {
            let u = to_units(rd);
            total = total + u as u128;
            count = count + 1;
        }
        i = i + 1;
    }
    assert(readings@.take(i as int) =~= readings@);
    if count == 0 {
        None
    } else {
        Some(TemperatureMean { total, count })
    }
}

} // verus!
