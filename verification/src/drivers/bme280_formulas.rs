//! The BME280 compensation formulas of the datasheet, written over the
//! mathematical integers: an arithmetic right shift by `n` is a division by
//! `2^n` rounded down, a left shift a multiplication by `2^n`. The proofs
//! here show that the driver's fixed-width computation gives exactly these
//! values, and gives `None` exactly where one of them leaves the machine
//! type.

use vstd::prelude::*;
use crate::checked::{fits_i32, fits_i64, trunc_div};
use crate::drivers::bme280::{
    clamp_humidity, spec_compensate_humidity, spec_compensate_pressure, spec_compensate_temp, CalibrationData,
};

verus! {

proof fn lemma_shr_i32_a(x: i32)
    by (bit_vector)
    ensures
        x >> 3u32 == x / 8,
        x >> 4u32 == x / 16,
        x >> 7u32 == x / 128,
{
}

proof fn lemma_shr_i32_b(x: i32)
    by (bit_vector)
    ensures
        x >> 8u32 == x / 256,
        x >> 10u32 == x / 1024,
        x >> 11u32 == x / 2048,
{
}

proof fn lemma_shr_i32_c(x: i32)
    by (bit_vector)
    ensures
        x >> 12u32 == x / 4096,
        x >> 14u32 == x / 16384,
        x >> 15u32 == x / 32768,
{
}

/// An arithmetic right shift of an `i32` is a division rounded down.
proof fn lemma_shr_i32(x: i32)
    ensures
        x >> 3u32 == x / 8,
        x >> 4u32 == x / 16,
        x >> 7u32 == x / 128,
        x >> 8u32 == x / 256,
        x >> 10u32 == x / 1024,
        x >> 11u32 == x / 2048,
        x >> 12u32 == x / 4096,
        x >> 14u32 == x / 16384,
        x >> 15u32 == x / 32768,
{
    lemma_shr_i32_a(x);
    lemma_shr_i32_b(x);
    lemma_shr_i32_c(x);
}

// ---------------------------------------------------------------------------
// Temperature
// ---------------------------------------------------------------------------

/// `(adc_T / 8) - 2 * dig_T1`, the offset of the linear term.
pub open spec fn temp_lin(c: CalibrationData, adc_t: int) -> int {
    adc_t / 8 - 2 * c.dig_t1
}

/// `(adc_T / 16) - dig_T1`, the offset of the quadratic term.
pub open spec fn temp_quad(c: CalibrationData, adc_t: int) -> int {
    adc_t / 16 - c.dig_t1
}

/// `t_fine = floor(lin * T2 / 2^11) + floor(floor(quad^2 / 2^12) * T3 / 2^14)`.
pub open spec fn t_fine_of(c: CalibrationData, adc_t: int) -> int {
    (temp_lin(c, adc_t) * c.dig_t2) / 2048 + ((temp_quad(c, adc_t) * temp_quad(c, adc_t)) / 4096
        * c.dig_t3) / 16384
}

/// Temperature in hundredths of a degree: `floor((5 * t_fine + 128) / 2^8)`.
pub open spec fn temperature_of(t_fine: int) -> int {
    (5 * t_fine + 128) / 256
}

/// Every sum and product of the temperature formula fits in `i32`.
pub open spec fn temp_fits(c: CalibrationData, adc_t: int) -> bool {
    let lin = temp_lin(c, adc_t);
    let quad = temp_quad(c, adc_t);
    let f = t_fine_of(c, adc_t);
    &&& fits_i32(lin)
    &&& fits_i32(lin * c.dig_t2)
    &&& fits_i32(quad)
    &&& fits_i32(quad * quad)
    &&& fits_i32((quad * quad) / 4096 * c.dig_t3)
    &&& fits_i32(f)
    &&& fits_i32(5 * f)
    &&& fits_i32(5 * f + 128)
}

/// Temperature compensation computes the datasheet formula with signed
/// offsets, for every raw reading and calibration: it gives the temperature
/// and `t_fine` of the formula where its arithmetic stays within `i32`, and
/// nothing otherwise.
pub proof fn lemma_temperature_is_datasheet_formula(c: CalibrationData, adc_t: i32)
    ensures
        spec_compensate_temp(c, adc_t) == if temp_fits(c, adc_t as int) {
            Some((temperature_of(t_fine_of(c, adc_t as int)) as i32, t_fine_of(c, adc_t as int) as i32))
        } else {
            None
        },
{
    lemma_shr_i32(adc_t);
    let t1 = c.dig_t1 as i32;
    assert(0 <= t1 < 65536 ==> t1 << 1u32 == 2 * t1) by (bit_vector);
    let lin = temp_lin(c, adc_t as int);
    let quad = temp_quad(c, adc_t as int);
    if fits_i32(lin * c.dig_t2) {
        lemma_shr_i32((lin * c.dig_t2) as i32);
    }
    if fits_i32(quad * quad) {
        lemma_shr_i32((quad * quad) as i32);
        let q = (quad * quad) / 4096;
        if fits_i32(q * c.dig_t3) {
            lemma_shr_i32((q * c.dig_t3) as i32);
        }
    }
    let f = t_fine_of(c, adc_t as int);
    if fits_i32(5 * f + 128) {
        lemma_shr_i32((5 * f + 128) as i32);
    }
}

// ---------------------------------------------------------------------------
// Humidity
// ---------------------------------------------------------------------------

/// `t_fine - 76800`, the temperature offset of the humidity formula.
pub open spec fn hum_v(t_fine: int) -> int {
    t_fine - 76800
}

/// `adc_H * 2^14 - H4 * 2^20 - H5 * v`.
pub open spec fn hum_offset(c: CalibrationData, adc_h: int, t_fine: int) -> int {
    adc_h * 16384 - c.dig_h4 * 1048576 - c.dig_h5 * hum_v(t_fine)
}

/// `floor((offset + 2^14) / 2^15)`.
pub open spec fn hum_left(c: CalibrationData, adc_h: int, t_fine: int) -> int {
    (hum_offset(c, adc_h, t_fine) + 16384) / 32768
}

/// `floor(floor(v * H6 / 2^10) * (floor(v * H3 / 2^11) + 2^15) / 2^10)`.
pub open spec fn hum_inner(c: CalibrationData, t_fine: int) -> int {
    ((hum_v(t_fine) * c.dig_h6) / 1024 * ((hum_v(t_fine) * c.dig_h3) / 2048 + 32768)) / 1024
}

/// `floor(((inner + 2^21) * H2 + 2^13) / 2^14)`.
pub open spec fn hum_right(c: CalibrationData, t_fine: int) -> int {
    ((hum_inner(c, t_fine) + 2097152) * c.dig_h2 + 8192) / 16384
}

/// The product of the two factors.
pub open spec fn hum_w(c: CalibrationData, adc_h: int, t_fine: int) -> int {
    hum_left(c, adc_h, t_fine) * hum_right(c, t_fine)
}

/// `w - floor(floor(floor(w / 2^15)^2 / 2^7) * H1 / 2^4)`.
pub open spec fn hum_acc(c: CalibrationData, adc_h: int, t_fine: int) -> int {
    let w = hum_w(c, adc_h, t_fine);
    w - ((w / 32768) * (w / 32768) / 128 * c.dig_h1) / 16
}

/// The acculumator limited to `0 ..= 419430400` and divided by `2^12`:
/// relative humidity in Q22.10.
pub open spec fn humidity_of(acc: int) -> int {
    (if acc < 0 {
        0
    } else if acc > 419430400 {
        419430400
    } else {
        acc
    }) / 4096
}

/// Every sum and product of the humidity formula fits in `i32`.
pub open spec fn hum_fits(c: CalibrationData, adc_h: int, t_fine: int) -> bool {
    let v = hum_v(t_fine);
    let a0 = adc_h * 16384 - c.dig_h4 * 1048576;
    let off = hum_offset(c, adc_h, t_fine);
    let y0 = v * c.dig_h3;
    let x = (v * c.dig_h6) / 1024;
    let y = y0 / 2048 + 32768;
    let r0 = hum_inner(c, t_fine) + 2097152;
    let w = hum_w(c, adc_h, t_fine);
    let ss = (w / 32768) * (w / 32768);
    &&& fits_i32(v)
    &&& fits_i32(a0)
    &&& fits_i32(c.dig_h5 * v)
    &&& fits_i32(off)
    &&& fits_i32(off + 16384)
    &&& fits_i32(v * c.dig_h6)
    &&& fits_i32(y0)
    &&& fits_i32(y)
    &&& fits_i32(x * y)
    &&& fits_i32(r0)
    &&& fits_i32(r0 * c.dig_h2)
    &&& fits_i32(r0 * c.dig_h2 + 8192)
    &&& fits_i32(w)
    &&& fits_i32(ss)
    &&& fits_i32(ss / 128 * c.dig_h1)
    &&& fits_i32(hum_acc(c, adc_h, t_fine))
}

/// Humidity compensation computes the datasheet formula with a signed
/// temperature offset, for every `t_fine`, every 16-bit raw reading and
/// every `dig_H4` that its shift by 20 keeps within `i32`: the humidity of
/// the formula where its arithmetic stays within `i32`, and nothing
/// otherwise.
pub proof fn lemma_humidity_is_datasheet_formula(c: CalibrationData, adc_h: i32, t_fine: i32)
    requires
        0 <= adc_h < 65536,
        -2048 <= c.dig_h4 < 2048,
    ensures
        spec_compensate_humidity(c, adc_h, t_fine) == if hum_fits(c, adc_h as int, t_fine as int) {
            Some(humidity_of(hum_acc(c, adc_h as int, t_fine as int)) as i32)
        } else {
            None
        },
{
    assert(0 <= adc_h < 65536 ==> adc_h << 14u32 == adc_h * 16384) by (bit_vector);
    let h4 = c.dig_h4 as i32;
    assert(-2048 <= h4 < 2048 ==> h4 << 20u32 == h4 * 1048576) by (bit_vector);
    let v = hum_v(t_fine as int);
    let off = hum_offset(c, adc_h as int, t_fine as int);
    if fits_i32(off + 16384) {
        lemma_shr_i32((off + 16384) as i32);
    }
    if fits_i32(v * c.dig_h6) {
        lemma_shr_i32((v * c.dig_h6) as i32);
    }
    if fits_i32(v * c.dig_h3) {
        lemma_shr_i32((v * c.dig_h3) as i32);
    }
    let x = (v * c.dig_h6) / 1024;
    let y = (v * c.dig_h3) / 2048 + 32768;
    if fits_i32(x * y) {
        lemma_shr_i32((x * y) as i32);
    }
    let r0 = hum_inner(c, t_fine as int) + 2097152;
    if fits_i32(r0 * c.dig_h2 + 8192) {
        lemma_shr_i32((r0 * c.dig_h2 + 8192) as i32);
    }
    let w = hum_w(c, adc_h as int, t_fine as int);
    if fits_i32(w) {
        lemma_shr_i32(w as i32);
        let ss = (w / 32768) * (w / 32768);
        if fits_i32(ss) {
            lemma_shr_i32(ss as i32);
            if fits_i32(ss / 128 * c.dig_h1) {
                lemma_shr_i32((ss / 128 * c.dig_h1) as i32);
            }
        }
    }
    let acc = hum_acc(c, adc_h as int, t_fine as int);
    if fits_i32(acc) {
        let k = clamp_humidity(acc as i32);
        lemma_shr_i32(k);
    }
}

// ---------------------------------------------------------------------------
// Pressure
// ---------------------------------------------------------------------------

proof fn lemma_shr_i64(x: i64)
    by (bit_vector)
    ensures
        x >> 8u32 == x / 256,
        x >> 13u32 == x / 8192,
        x >> 19u32 == x / 524288,
{
}

proof fn lemma_shr_i64_wide(x: i64)
    by (bit_vector)
    ensures
        x >> 25u32 == x / 33554432,
        x >> 33u32 == x / 8589934592,
{
}

proof fn lemma_shl_i64(x: i64)
    by (bit_vector)
    requires
        -0x2000_0000_0000 <= x < 0x2000_0000_0000,
    ensures
        x << 17u32 == x * 131072,
        x << 12u32 == x * 4096,
{
}

proof fn lemma_shl_i64_const(x: i64, y: i64)
    by (bit_vector)
    requires
        -32768 <= x < 32768,
        0 <= y <= 0x10_0000,
    ensures
        x << 35u64 == x * 34359738368,
        x << 4u64 == x * 16,
        y << 31u32 == y * 2147483648,
        1i64 << 47u64 == 140737488355328i64,
{
}

/// `t_fine - 128000`, the temperature offset of the pressure formula.
pub open spec fn press_v1(t_fine: int) -> int {
    t_fine - 128000
}

/// `v1^2 * P6 + v1 * P5 * 2^17 + P4 * 2^35`.
pub open spec fn press_v2(c: CalibrationData, t_fine: int) -> int {
    let v1 = press_v1(t_fine);
    v1 * v1 * c.dig_p6 + v1 * c.dig_p5 * 131072 + c.dig_p4 * 34359738368
}

/// The divisor `floor((2^47 + floor(v1^2 * P3 / 2^8) + v1 * P2 * 2^12) * P1 / 2^33)`.
pub open spec fn press_divisor(c: CalibrationData, t_fine: int) -> int {
    let v1 = press_v1(t_fine);
    ((140737488355328 + (v1 * v1 * c.dig_p3) / 256 + v1 * c.dig_p2 * 4096) * c.dig_p1) / 8589934592
}

/// `((2^20 - adc_P) * 2^31 - v2) * 3125 / divisor`, rounded toward zero.
pub open spec fn press_base(c: CalibrationData, adc_p: int, t_fine: int) -> int {
    trunc_div(((1048576 - adc_p) * 2147483648 - press_v2(c, t_fine)) * 3125, press_divisor(c, t_fine))
}

/// Pressure in Q24.8 Pa: `floor((p + floor(P9 * q^2 / 2^25) + floor(P8 * p / 2^19)) / 2^8) + P7 * 2^4`
/// with `q = floor(p / 2^13)`, or 0 where the divisor is 0.
pub open spec fn pressure_of(c: CalibrationData, adc_p: int, t_fine: int) -> int {
    if press_divisor(c, t_fine) == 0 {
        0
    } else {
        let p = press_base(c, adc_p, t_fine);
        let q = p / 8192;
        (p + (c.dig_p9 * q * q) / 33554432 + (c.dig_p8 * p) / 524288) / 256 + c.dig_p7 * 16
    }
}

/// Every sum, product and quotient of the pressure formula fits in `i64`.
pub open spec fn press_fits(c: CalibrationData, adc_p: int, t_fine: int) -> bool {
    let v1 = press_v1(t_fine);
    let sq = v1 * v1;
    let v2a = sq * c.dig_p6;
    let v2b = v2a + v1 * c.dig_p5 * 131072;
    let v1b = (sq * c.dig_p3) / 256 + v1 * c.dig_p2 * 4096;
    let s = 140737488355328 + v1b;
    &&& fits_i64(sq)
    &&& fits_i64(v2a)
    &&& fits_i64(v1 * c.dig_p5)
    &&& fits_i64(v2b)
    &&& fits_i64(press_v2(c, t_fine))
    &&& fits_i64(sq * c.dig_p3)
    &&& fits_i64(v1 * c.dig_p2)
    &&& fits_i64(v1b)
    &&& fits_i64(s)
    &&& fits_i64(s * c.dig_p1)
    &&& (press_divisor(c, t_fine) != 0 ==> {
        let u = (1048576 - adc_p) * 2147483648 - press_v2(c, t_fine);
        let p = press_base(c, adc_p, t_fine);
        let q = p / 8192;
        let y = p + (c.dig_p9 * q * q) / 33554432;
        let y1 = y + (c.dig_p8 * p) / 524288;
        &&& fits_i64(u)
        &&& fits_i64(u * 3125)
        &&& fits_i64(p)
        &&& fits_i64(c.dig_p9 * q)
        &&& fits_i64(c.dig_p9 * q * q)
        &&& fits_i64(c.dig_p8 * p)
        &&& fits_i64(y)
        &&& fits_i64(y1)
        &&& fits_i64(y1 / 256 + c.dig_p7 * 16)
    })
}

/// Pressure compensation computes the datasheet formula with a signed
/// temperature offset, for every 20-bit raw reading and every `t_fine`
/// within 2^22 of zero (far beyond the sensor's range): the pressure of the
/// formula where its arithmetic stays within `i64`, 0 where its divisor is
/// 0, and nothing otherwise.
pub proof fn lemma_pressure_is_datasheet_formula(c: CalibrationData, adc_p: i32, t_fine: i32)
    requires
        0 <= adc_p < 0x100000,
        -0x400000 <= t_fine <= 0x400000,
    ensures
        spec_compensate_pressure(c, adc_p, t_fine) == if press_fits(c, adc_p as int, t_fine as int) {
            Some(pressure_of(c, adc_p as int, t_fine as int) as i64)
        } else {
            None
        },
{
    let v1 = press_v1(t_fine as int);
    let p0 = 1048576 - adc_p;
    lemma_shl_i64_const(c.dig_p4 as i64, p0 as i64);
    lemma_shl_i64_const(c.dig_p7 as i64, p0 as i64);
    assert(-0x1000000 < v1 < 0x1000000);
    assert(-0x1000000 * 0x8000 <= v1 * c.dig_p5 <= 0x1000000 * 0x8000) by (nonlinear_arith)
        requires
            -0x1000000 < v1 < 0x1000000,
            -0x8000 <= c.dig_p5 < 0x8000,
    ;
    assert(-0x1000000 * 0x8000 <= v1 * c.dig_p2 <= 0x1000000 * 0x8000) by (nonlinear_arith)
        requires
            -0x1000000 < v1 < 0x1000000,
            -0x8000 <= c.dig_p2 < 0x8000,
    ;
    lemma_shl_i64((v1 * c.dig_p5) as i64);
    lemma_shl_i64((v1 * c.dig_p2) as i64);
    let sq = v1 * v1;
    if fits_i64(sq * c.dig_p3) {
        lemma_shr_i64((sq * c.dig_p3) as i64);
    }
    let v1b = (sq * c.dig_p3) / 256 + v1 * c.dig_p2 * 4096;
    let s = 140737488355328 + v1b;
    if fits_i64(s * c.dig_p1) {
        lemma_shr_i64_wide((s * c.dig_p1) as i64);
    }
    if press_divisor(c, t_fine as int) != 0 {
        let p = press_base(c, adc_p as int, t_fine as int);
        if fits_i64(p) {
            lemma_shr_i64(p as i64);
            let q = p / 8192;
            if fits_i64(c.dig_p9 * q * q) {
                lemma_shr_i64_wide((c.dig_p9 * q * q) as i64);
            }
            if fits_i64(c.dig_p8 * p) {
                lemma_shr_i64((c.dig_p8 * p) as i64);
            }
            let y1 = p + (c.dig_p9 * q * q) / 33554432 + (c.dig_p8 * p) / 524288;
            if fits_i64(y1) {
                lemma_shr_i64(y1 as i64);
            }
        }
    }
}

} // verus!
