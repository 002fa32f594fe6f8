//! Bosch BME280 temperature, pressure and humidity sensor.
//!
//! The bus traffic (register writes and burst reads) is performed by the
//! caller through [`Bme280::bus`]; this module holds the register map, decodes
//! the calibration and measurement registers, and runs the fixed-point
//! compensation formulas of the datasheet, with every arithmetic overflow
//! reported as `None`.

use vstd::prelude::*;
use crate::checked::{add32, add64, div64, mul32, mul64, shl32, shl64, shr32, shr64, sub32, sub64};

verus! {

/// Register that resets the chip when [`RESET_COMMAND`] is written to it.
pub const REG_RESET: u8 = 0xE0;
/// Value written to [`REG_RESET`].
pub const RESET_COMMAND: u8 = 0xB6;
/// Humidity oversampling control.
pub const REG_CTRL_HUM: u8 = 0xF2;
/// Temperature/pressure oversampling and mode control.
pub const REG_CTRL_MEAS: u8 = 0xF4;
/// Standby time and filter configuration.
pub const REG_CONFIG: u8 = 0xF5;
/// First calibration block (`dig_T1` .. `dig_H1`).
pub const REG_CALIB_A: u8 = 0x88;
/// Length of the first calibration block.
pub const CALIB_A_LEN: usize = 26;
/// Second calibration block (`dig_H2` .. `dig_H6`).
pub const REG_CALIB_B: u8 = 0xE1;
/// Length of the second calibration block.
pub const CALIB_B_LEN: usize = 7;
/// First data register (`press_msb`); pressure, temperature, humidity follow.
pub const REG_DATA: u8 = 0xF7;
/// Length of the data burst read.
pub const DATA_LEN: usize = 8;

/// Upper bound of the humidity accumulator before its final shift
/// (100 %RH in Q22.10, shifted left by 12).
pub const HUMIDITY_MAX_RAW: i32 = 419430400;

/// Factory trimming parameters of one chip.
#[derive(Clone, Copy, Debug)]
pub struct CalibrationData {
    pub dig_t1: u16,
    pub dig_t2: i16,
    pub dig_t3: i16,
    pub dig_p1: u16,
    pub dig_p2: i16,
    pub dig_p3: i16,
    pub dig_p4: i16,
    pub dig_p5: i16,
    pub dig_p6: i16,
    pub dig_p7: i16,
    pub dig_p8: i16,
    pub dig_p9: i16,
    pub dig_h1: u8,
    pub dig_h2: i16,
    pub dig_h3: u8,
    pub dig_h4: i16,
    pub dig_h5: i16,
    pub dig_h6: i8,
}

/// A compensated reading in the chip's fixed-point units.
#[derive(Clone, Copy, Debug)]
pub struct MeasurementsBME280 {
    /// Hundredths of a degree Celsius.
    pub temperature: i32,
    /// Pascal in Q24.8 (divide by 256).
    pub pressure: i64,
    /// Relative humidity in Q22.10 (divide by 1024).
    pub humidity: i32,
}

/// A BME280 on an I2C bus at `address`.
pub struct Bme280<I2C> {
    i2c: I2C,
    address: u8,
    calib: CalibrationData,
}

pub open spec fn zero_calibration() -> CalibrationData {
    CalibrationData {
        dig_t1: 0,
        dig_t2: 0,
        dig_t3: 0,
        dig_p1: 0,
        dig_p2: 0,
        dig_p3: 0,
        dig_p4: 0,
        dig_p5: 0,
        dig_p6: 0,
        dig_p7: 0,
        dig_p8: 0,
        dig_p9: 0,
        dig_h1: 0,
        dig_h2: 0,
        dig_h3: 0,
        dig_h4: 0,
        dig_h5: 0,
        dig_h6: 0,
    }
}

impl Default for CalibrationData {
    fn default() -> (r: Self)
        ensures
            r == zero_calibration(),
    {
        CalibrationData {
            dig_t1: 0,
            dig_t2: 0,
            dig_t3: 0,
            dig_p1: 0,
            dig_p2: 0,
            dig_p3: 0,
            dig_p4: 0,
            dig_p5: 0,
            dig_p6: 0,
            dig_p7: 0,
            dig_p8: 0,
            dig_p9: 0,
            dig_h1: 0,
            dig_h2: 0,
            dig_h3: 0,
            dig_h4: 0,
            dig_h5: 0,
            dig_h6: 0,
        }
    }
}

// ---------------------------------------------------------------------------
// Register decoding
// ---------------------------------------------------------------------------

/// The unsigned 16-bit value whose little-endian bytes are `lo`, `hi`.
pub open spec fn le_u16(lo: u8, hi: u8) -> u16 {
    (lo + 256 * hi) as u16
}

/// The two's-complement 16-bit value whose little-endian bytes are `lo`, `hi`.
pub open spec fn le_i16(lo: u8, hi: u8) -> i16 {
    if hi < 128 {
        (lo + 256 * hi) as i16
    } else {
        (lo + 256 * hi - 65536) as i16
    }
}

/// The two's-complement reading of one byte.
pub open spec fn byte_as_i8(b: u8) -> i8 {
    if b < 128 {
        b as i8
    } else {
        (b - 256) as i8
    }
}

/// Calibration decoded from the block at 0x88 (`a`, 26 bytes) and the block
/// at 0xE1 (`b`, 7 bytes). `dig_H4` and `dig_H5` share the nibbles of `b[4]`.
pub open spec fn calibration_from(a: Seq<u8>, b: Seq<u8>) -> CalibrationData {
    CalibrationData {
        dig_t1: le_u16(a[0], a[1]),
        dig_t2: le_i16(a[2], a[3]),
        dig_t3: le_i16(a[4], a[5]),
        dig_p1: le_u16(a[6], a[7]),
        dig_p2: le_i16(a[8], a[9]),
        dig_p3: le_i16(a[10], a[11]),
        dig_p4: le_i16(a[12], a[13]),
        dig_p5: le_i16(a[14], a[15]),
        dig_p6: le_i16(a[16], a[17]),
        dig_p7: le_i16(a[18], a[19]),
        dig_p8: le_i16(a[20], a[21]),
        dig_p9: le_i16(a[22], a[23]),
        dig_h1: a[25],
        dig_h2: le_i16(b[0], b[1]),
        dig_h3: b[2],
        dig_h4: (16 * b[3] + b[4] % 16) as i16,
        dig_h5: (16 * b[5] + b[4] / 16) as i16,
        dig_h6: byte_as_i8(b[6]),
    }
}

/// Raw 20-bit pressure reading from the data registers.
pub open spec fn adc_pressure(d: Seq<u8>) -> i32 {
    (4096 * d[0] + 16 * d[1] + d[2] / 16) as i32
}

/// Raw 20-bit temperature reading from the data registers.
pub open spec fn adc_temperature(d: Seq<u8>) -> i32 {
    (4096 * d[3] + 16 * d[4] + d[5] / 16) as i32
}

/// Raw 16-bit humidity reading from the data registers.
pub open spec fn adc_humidity(d: Seq<u8>) -> i32 {
    (256 * d[6] + d[7]) as i32
}

fn read_le_u16(lo: u8, hi: u8) -> (r: u16)
    ensures
        r == le_u16(lo, hi),
{
    lo as u16 + (hi as u16) * 256
}

fn read_le_i16(lo: u8, hi: u8) -> (r: i16)
    ensures
        r == le_i16(lo, hi),
{
    if hi < 128 {
        (hi as i16) * 256 + lo as i16
    } else {
        ((hi as i16) - 256) * 256 + lo as i16
    }
}

fn read_i8(b: u8) -> (r: i8)
    ensures
        r == byte_as_i8(b),
{
    if b < 128 {
        b as i8
    } else {
        ((b as i16) - 256) as i8
    }
}

/// Decodes both calibration blocks.
pub fn parse_calibration(a: &[u8; 26], b: &[u8; 7]) -> (c: CalibrationData)
    ensures
        c == calibration_from(a@, b@),
{
    CalibrationData {
        dig_t1: read_le_u16(a[0], a[1]),
        dig_t2: read_le_i16(a[2], a[3]),
        dig_t3: read_le_i16(a[4], a[5]),
        dig_p1: read_le_u16(a[6], a[7]),
        dig_p2: read_le_i16(a[8], a[9]),
        dig_p3: read_le_i16(a[10], a[11]),
        dig_p4: read_le_i16(a[12], a[13]),
        dig_p5: read_le_i16(a[14], a[15]),
        dig_p6: read_le_i16(a[16], a[17]),
        dig_p7: read_le_i16(a[18], a[19]),
        dig_p8: read_le_i16(a[20], a[21]),
        dig_p9: read_le_i16(a[22], a[23]),
        dig_h1: a[25],
        dig_h2: read_le_i16(b[0], b[1]),
        dig_h3: b[2],
        dig_h4: (b[3] as i16) * 16 + (b[4] % 16) as i16,
        dig_h5: (b[5] as i16) * 16 + (b[4] / 16) as i16,
        dig_h6: read_i8(b[6]),
    }
}

/// Splits the data registers into the raw pressure, temperature and
/// humidity readings.
pub fn raw_readings(d: &[u8; 8]) -> (r: (i32, i32, i32))
    ensures
        r == (adc_pressure(d@), adc_temperature(d@), adc_humidity(d@)),
{
    let adc_p = (d[0] as i32) * 4096 + (d[1] as i32) * 16 + (d[2] / 16) as i32;
    let adc_t = (d[3] as i32) * 4096 + (d[4] as i32) * 16 + (d[5] / 16) as i32;
    let adc_h = (d[6] as i32) * 256 + d[7] as i32;
    (adc_p, adc_t, adc_h)
}

// ---------------------------------------------------------------------------
// Compensation (datasheet, section 4.2.3), in debug-build Rust arithmetic
// ---------------------------------------------------------------------------

/// Temperature in hundredths of a degree and the fine temperature `t_fine`
/// shared with the other two formulas; `None` where a step overflows `i32`.
pub open spec fn spec_compensate_temp(c: CalibrationData, adc_t: i32) -> Option<(i32, i32)> {
    let t1 = Some(c.dig_t1 as i32);
    let var1 = shr32(mul32(sub32(Some(adc_t >> 3u32), shl32(t1, 1)), Some(c.dig_t2 as i32)), 11);
    let d = sub32(Some(adc_t >> 4u32), t1);
    let var2 = shr32(mul32(shr32(mul32(d, d), 12), Some(c.dig_t3 as i32)), 14);
    let t_fine = add32(var1, var2);
    let t = shr32(add32(mul32(t_fine, Some(5i32)), Some(128i32)), 8);
    match (t, t_fine) {
        (Some(t), Some(f)) => Some((t, f)),
        _ => None,
    }
}

/// Pressure in Pascal, Q24.8; `Some(0)` where the divisor of the formula is
/// zero, `None` where a step overflows `i64`.
pub open spec fn spec_compensate_pressure(c: CalibrationData, adc_p: i32, t_fine: i32) -> Option<i64> {
    let var1 = sub64(Some(t_fine as i64), Some(128000i64));
    let var2 = mul64(mul64(var1, var1), Some(c.dig_p6 as i64));
    let var2 = add64(var2, shl64(mul64(var1, Some(c.dig_p5 as i64)), 17));
    let var2 = add64(var2, Some((c.dig_p4 as i64) << 35u64));
    let var1 = add64(
        shr64(mul64(mul64(var1, var1), Some(c.dig_p3 as i64)), 8),
        shl64(mul64(var1, Some(c.dig_p2 as i64)), 12),
    );
    let var1 = shr64(mul64(add64(Some(1i64 << 47u64), var1), Some(c.dig_p1 as i64)), 33);
    match (var1, var2) {
        (Some(v1), Some(v2)) => {
            if v1 == 0 {
                Some(0i64)
            } else {
                let p = sub64(Some(1048576i64), Some(adc_p as i64));
                let p = div64(mul64(sub64(shl64(p, 31), Some(v2)), Some(3125i64)), Some(v1));
                let var1 = shr64(mul64(mul64(Some(c.dig_p9 as i64), shr64(p, 13)), shr64(p, 13)), 25);
                let var2 = shr64(mul64(Some(c.dig_p8 as i64), p), 19);
                add64(shr64(add64(add64(p, var1), var2), 8), Some((c.dig_p7 as i64) << 4u64))
            }
        },
        _ => None,
    }
}

/// `x` limited to `0 ..= HUMIDITY_MAX_RAW`.
pub open spec fn clamp_humidity(x: i32) -> i32 {
    if x < 0 {
        0
    } else if x > HUMIDITY_MAX_RAW {
        HUMIDITY_MAX_RAW
    } else {
        x
    }
}

/// The humidity accumulator before it is limited and scaled: Q22.10
/// shifted left by 12; `None` where a step overflows `i32`.
pub open spec fn humidity_accumulator(c: CalibrationData, adc_h: i32, t_fine: i32) -> Option<i32> {
    let v = sub32(Some(t_fine), Some(76800i32));
    let a = sub32(
        sub32(shl32(Some(adc_h), 14), Some((c.dig_h4 as i32) << 20u32)),
        mul32(Some(c.dig_h5 as i32), v),
    );
    let left = shr32(add32(a, Some(16384i32)), 15);
    let inner = shr32(
        mul32(
            shr32(mul32(v, Some(c.dig_h6 as i32)), 10),
            add32(shr32(mul32(v, Some(c.dig_h3 as i32)), 11), Some(32768i32)),
        ),
        10,
    );
    let right = shr32(add32(mul32(add32(inner, Some(2097152i32)), Some(c.dig_h2 as i32)), Some(8192i32)), 14);
    let v = mul32(left, right);
    let correction = shr32(mul32(shr32(mul32(shr32(v, 15), shr32(v, 15)), 7), Some(c.dig_h1 as i32)), 4);
    sub32(v, correction)
}

/// Relative humidity in Q22.10; `None` where a step overflows `i32`.
pub open spec fn spec_compensate_humidity(c: CalibrationData, adc_h: i32, t_fine: i32) -> Option<i32> {
    match humidity_accumulator(c, adc_h, t_fine) {
        Some(x) => Some(clamp_humidity(x) >> 12u32),
        None => None,
    }
}

/// The full reading for the data registers `d`; `None` where any of the
/// three formulas overflows.
pub open spec fn spec_measure(c: CalibrationData, d: Seq<u8>) -> Option<MeasurementsBME280> {
    match spec_compensate_temp(c, adc_temperature(d)) {
        Some((t, t_fine)) => match (
            spec_compensate_pressure(c, adc_pressure(d), t_fine),
            spec_compensate_humidity(c, adc_humidity(d), t_fine),
        ) {
            (Some(p), Some(h)) => Some(MeasurementsBME280 { temperature: t, pressure: p, humidity: h }),
            _ => None,
        },
        None => None,
    }
}

impl<I2C> Bme280<I2C> {
    pub closed spec fn spec_address(&self) -> u8 {
        self.address
    }

    pub closed spec fn calibration(&self) -> CalibrationData {
        self.calib
    }

    pub closed spec fn spec_bus(&self) -> I2C {
        self.i2c
    }

    /// A driver for the chip at `address`, before its calibration is read.
    pub fn new(i2c: I2C, address: u8) -> (dev: Self)
        ensures
            dev.spec_address() == address,
            dev.spec_bus() == i2c,
            dev.calibration() == zero_calibration(),
    {
        Bme280 { i2c, address, calib: CalibrationData::default() }
    }

    /// The chip's bus address.
    pub fn address(&self) -> (a: u8)
        ensures
            a == self.spec_address(),
    {
        self.address
    }

    /// The bus, for the caller to perform the register transfers on.
    pub fn bus(&mut self) -> (bus: &mut I2C)
        ensures
            *bus == old(self).spec_bus(),
            final(self).spec_bus() == *final(bus),
            final(self).spec_address() == old(self).spec_address(),
            final(self).calibration() == old(self).calibration(),
    {
        &mut self.i2c
    }

    /// The register writes that configure the chip, in order: reset,
    /// humidity oversampling x1, temperature and pressure oversampling x1 in
    /// normal mode, standby 1000 ms.
    pub fn init_sequence() -> (seq: [(u8, u8); 4])
        ensures
            seq@ == seq![(REG_RESET, RESET_COMMAND), (REG_CTRL_HUM, 0x01u8), (REG_CTRL_MEAS, 0x27u8), (REG_CONFIG, 0xA0u8)],
    {
        let seq = [(REG_RESET, RESET_COMMAND), (REG_CTRL_HUM, 0x01u8), (REG_CTRL_MEAS, 0x27u8), (REG_CONFIG, 0xA0u8)];
        assert(seq@ =~= seq![(REG_RESET, RESET_COMMAND), (REG_CTRL_HUM, 0x01u8), (REG_CTRL_MEAS, 0x27u8), (REG_CONFIG, 0xA0u8)]);
        seq
    }

    /// Stores the calibration read from the blocks at [`REG_CALIB_A`] and
    /// [`REG_CALIB_B`].
    pub fn read_calibration(&mut self, a: &[u8; 26], b: &[u8; 7])
        ensures
            final(self).calibration() == calibration_from(a@, b@),
            final(self).spec_address() == old(self).spec_address(),
            final(self).spec_bus() == old(self).spec_bus(),
    {
        self.calib = parse_calibration(a, b);
    }

    /// Temperature (hundredths of a degree) and `t_fine` for a raw reading.
    pub fn compensate_temp(&self, adc_t: i32) -> (r: Option<(i32, i32)>)
        ensures
            r == spec_compensate_temp(self.calibration(), adc_t),
    {
        let c = self.calib;
        let t1 = c.dig_t1 as i32;
        let a = (adc_t >> 3u32).checked_sub(t1 << 1u32)?;
        let var1 = a.checked_mul(c.dig_t2 as i32)? >> 11u32;
        let d = (adc_t >> 4u32).checked_sub(t1)?;
        let dd = d.checked_mul(d)? >> 12u32;
        let var2 = dd.checked_mul(c.dig_t3 as i32)? >> 14u32;
        let t_fine = var1.checked_add(var2)?;
        let t = t_fine.checked_mul(5)?.checked_add(128)? >> 8u32;
        Some((t, t_fine))
    }

    /// Pressure (Pascal, Q24.8) for a raw reading at fine temperature `t_fine`.
    pub fn compensate_pressure(&self, adc_p: i32, t_fine: i32) -> (r: Option<i64>)
        ensures
            r == spec_compensate_pressure(self.calibration(), adc_p, t_fine),
    {
        let c = self.calib;
        let var1 = (t_fine as i64).checked_sub(128000)?;
        let sq = var1.checked_mul(var1)?;
        let var2 = sq.checked_mul(c.dig_p6 as i64)?;
        let var2 = var2.checked_add(var1.checked_mul(c.dig_p5 as i64)? << 17u32)?;
        let var2 = var2.checked_add((c.dig_p4 as i64) << 35u32)?;
        let hi = sq.checked_mul(c.dig_p3 as i64)? >> 8u32;
        let lo = var1.checked_mul(c.dig_p2 as i64)? << 12u32;
        let var1 = hi.checked_add(lo)?;
        let var1 = (1i64 << 47u32).checked_add(var1)?.checked_mul(c.dig_p1 as i64)? >> 33u32;
        if var1 == 0 {
            return Some(0);
        }
        let p = 1048576i64.checked_sub(adc_p as i64)?;
        let p = (p << 31u32).checked_sub(var2)?.checked_mul(3125)?.checked_div(var1)?;
        let q = p >> 13u32;
        let var1 = (c.dig_p9 as i64).checked_mul(q)?.checked_mul(q)? >> 25u32;
        let var2 = (c.dig_p8 as i64).checked_mul(p)? >> 19u32;
        let p = p.checked_add(var1)?.checked_add(var2)? >> 8u32;
        p.checked_add((c.dig_p7 as i64) << 4u32)
    }

    /// Relative humidity (Q22.10) for a raw reading at fine temperature `t_fine`.
    pub fn compensate_humidity(&self, adc_h: i32, t_fine: i32) -> (r: Option<i32>)
        ensures
            r == spec_compensate_humidity(self.calibration(), adc_h, t_fine),
    {
        let c = self.calib;
        let v = t_fine.checked_sub(76800)?;
        let a = (adc_h << 14u32).checked_sub((c.dig_h4 as i32) << 20u32)?;
        let a = a.checked_sub((c.dig_h5 as i32).checked_mul(v)?)?;
        let left = a.checked_add(16384)? >> 15u32;
        let x = v.checked_mul(c.dig_h6 as i32)? >> 10u32;
        let y = (v.checked_mul(c.dig_h3 as i32)? >> 11u32).checked_add(32768)?;
        let inner = x.checked_mul(y)? >> 10u32;
        let right = inner.checked_add(2097152)?.checked_mul(c.dig_h2 as i32)?.checked_add(8192)? >> 14u32;
        let v = left.checked_mul(right)?;
        let s = v >> 15u32;
        let correction = (s.checked_mul(s)? >> 7u32).checked_mul(c.dig_h1 as i32)? >> 4u32;
        let v = v.checked_sub(correction)?;
        let v = if v < 0 {
            0
        } else if v > HUMIDITY_MAX_RAW {
            HUMIDITY_MAX_RAW
        } else {
            v
        };
        Some(v >> 12u32)
    }

    /// Compensated reading for the bytes read from [`REG_DATA`]; `None`
    /// where the arithmetic overflows.
    pub fn measure(&self, data: &[u8; 8]) -> (r: Option<MeasurementsBME280>)
        ensures
            r == spec_measure(self.calibration(), data@),
    {
        let (adc_p, adc_t, adc_h) = raw_readings(data);
        let (temperature, t_fine) = self.compensate_temp(adc_t)?;
        let pressure = self.compensate_pressure(adc_p, t_fine)?;
        let humidity = self.compensate_humidity(adc_h, t_fine)?;
        Some(MeasurementsBME280 { temperature, pressure, humidity })
    }
}

// ---------------------------------------------------------------------------
// Properties
// ---------------------------------------------------------------------------

/// The raw readings are 20-bit (pressure, temperature) and 16-bit
/// (humidity) unsigned numbers, whatever the registers hold.
pub proof fn lemma_raw_ranges(d: Seq<u8>)
    requires
        d.len() == 8,
    ensures
        0 <= adc_pressure(d) < 0x100000,
        0 <= adc_temperature(d) < 0x100000,
        0 <= adc_humidity(d) < 0x10000,
{
}

/// `dig_H4` and `dig_H5` are 12-bit unsigned values assembled from a byte
/// and a nibble, and every 16-bit field is the little-endian reading of its
/// two bytes.
pub proof fn lemma_calibration_fields(a: Seq<u8>, b: Seq<u8>)
    requires
        a.len() == 26,
        b.len() == 7,
    ensures
        0 <= calibration_from(a, b).dig_h4 < 4096,
        0 <= calibration_from(a, b).dig_h5 < 4096,
        calibration_from(a, b).dig_h4 % 16 == b[4] % 16,
        calibration_from(a, b).dig_h5 % 16 == b[4] / 16,
        calibration_from(a, b).dig_t1 == a[0] + 256 * a[1],
        calibration_from(a, b).dig_t2 == a[2] + 256 * a[3] - (if a[3] >= 128 { 65536int } else { 0 }),
        calibration_from(a, b).dig_h6 == b[6] - (if b[6] >= 128 { 256int } else { 0 }),
{
}

/// The reported temperature is `t_fine * 5 / 256` rounded to nearest
/// (hundredths of a degree): `(5 * t_fine + 128) / 256`, rounded down.
pub proof fn lemma_temperature_from_t_fine(c: CalibrationData, adc_t: i32)
    ensures
        spec_compensate_temp(c, adc_t) matches Some((t, t_fine)) ==> t == (5 * t_fine + 128) / 256,
{
    if let Some((t, f)) = spec_compensate_temp(c, adc_t) {
        let x = (5 * f + 128) as i32;
        assert(x >> 8u32 == x / 256) by (bit_vector);
    }
}

/// The reported humidity lies between 0 and 100 %RH: 0 ..= 102400 in
/// Q22.10.
pub proof fn lemma_humidity_in_range(c: CalibrationData, adc_h: i32, t_fine: i32)
    ensures
        spec_compensate_humidity(c, adc_h, t_fine) matches Some(h) ==> 0 <= h <= 102400,
{
    if let Some(x) = humidity_accumulator(c, adc_h, t_fine) {
        let y = clamp_humidity(x);
        assert(0 <= y <= 419430400 ==> 0 <= (y >> 12u32) <= 102400) by (bit_vector);
    }
}

/// A reading is produced exactly when all three formulas go through, and it
/// carries their results.
pub proof fn lemma_measure_parts(c: CalibrationData, d: Seq<u8>)
    ensures
        spec_measure(c, d) is Some <==> (spec_compensate_temp(c, adc_temperature(d)) matches Some((t, t_fine))
            && spec_compensate_pressure(c, adc_pressure(d), t_fine) is Some
            && spec_compensate_humidity(c, adc_humidity(d), t_fine) is Some),
        spec_measure(c, d) matches Some(m) ==> {
            &&& spec_compensate_temp(c, adc_temperature(d)) matches Some((t, t_fine))
            &&& m.temperature == t
            &&& spec_compensate_pressure(c, adc_pressure(d), t_fine) == Some(m.pressure)
            &&& spec_compensate_humidity(c, adc_humidity(d), t_fine) == Some(m.humidity)
            &&& 0 <= m.humidity <= 102400
        },
{
    if let Some((t, f)) = spec_compensate_temp(c, adc_temperature(d)) {
        lemma_humidity_in_range(c, adc_humidity(d), f);
    }
}

} // verus!
