//! Register codec: decoding of raw register payloads into physical values.
//! Pure functions; each states its formula over mathematical integers.
use vstd::prelude::*;

verus! {

/// The 16-bit two's-complement value whose low byte is `lo` and high byte `hi`.
pub open spec fn i16_of(lo: u8, hi: u8) -> int {
    let u = hi as int * 256 + lo as int;
    if u >= 32768 {
        u - 65536
    } else {
        u
    }
}

/// The 8-bit two's-complement value of `b`.
pub open spec fn i8_of(b: u8) -> int {
    if b >= 128 {
        b as int - 256
    } else {
        b as int
    }
}

/// Integer division that truncates toward zero, for a positive divisor.
pub open spec fn div_toward_zero(a: int, d: int) -> int {
    if a >= 0 {
        a / d
    } else {
        -((-a) / d)
    }
}

/// The little-endian sample held by `b[at]` (low byte) and `b[at + 1]`.
pub open spec fn le_sample(b: Seq<u8>, at: int) -> i16 {
    i16_of(b[at], b[at + 1]) as i16
}

/// The big-endian sample held by `b[at]` (high byte) and `b[at + 1]`.
pub open spec fn be_sample(b: Seq<u8>, at: int) -> i16 {
    i16_of(b[at + 1], b[at]) as i16
}

/// Reads a two's-complement 16-bit value from its low and high byte.
pub fn decode_i16(lo: u8, hi: u8) -> (r: i16)
    ensures
        r as int == i16_of(lo, hi),
        r == i16_of(lo, hi) as i16,
{
    let u: u32 = (hi as u32) * 256 + lo as u32;
    if u >= 32768 {
        (u as i32 - 65536) as i16
    } else {
        u as i16
    }
}

/// Reads a two's-complement 8-bit value.
pub fn decode_i8(b: u8) -> (r: i8)
    ensures
        r as int == i8_of(b),
{
    if b >= 128 {
        (b as i16 - 256) as i8
    } else {
        b as i8
    }
}

fn div_toward_zero_exec(a: i64, d: i64) -> (r: i64)
    requires
        d > 0,
        a > i64::MIN,
    ensures
        r == div_toward_zero(a as int, d as int),
        a >= 0 ==> 0 <= r <= a,
        a < 0 ==> a <= r <= 0,
{
    if a >= 0 {
        a / d
    } else {
        let q = (-a) / d;
        -q
    }
}

// ---------------------------------------------------------------------------
// Gyroscope

/// Sensitivity of the gyroscope in thousandths of a millidegree per second
/// per digit, for full-scale code 0 (245 dps), 1 (500 dps) and any other
/// code (2000 dps).
pub open spec fn gyro_sensitivity(scale: u8) -> int {
    if scale == 0 {
        875
    } else if scale == 1 {
        1750
    } else {
        7000
    }
}

/// An angular rate in hundredths of a degree per second.
pub open spec fn gyro_rate_of(raw: int, scale: u8) -> int {
    div_toward_zero(raw * gyro_sensitivity(scale), 100000)
}

/// A gyroscope temperature in hundredths of a degree Celsius.
pub open spec fn gyro_temperature_of(raw: u8) -> int {
    i8_of(raw) * 100
}

/// Converts a raw gyroscope axis sample to hundredths of a degree per second.
pub fn gyro_rate(raw: i16, scale: u8) -> (r: i32)
    ensures
        r as int == gyro_rate_of(raw as int, scale),
{
    let sensitivity: i64 = if scale == 0 {
        875
    } else if scale == 1 {
        1750
    } else {
        7000
    };
    assert(-32768 * 7000 <= raw * sensitivity <= 32767 * 7000) by (nonlinear_arith)
        requires
            -32768 <= raw <= 32767,
            0 <= sensitivity <= 7000,
    ;
    let q = div_toward_zero_exec(raw as i64 * sensitivity, 100000);
    assert(-3000 <= q <= 3000) by (nonlinear_arith)
        requires
            q == div_toward_zero(raw * sensitivity, 100000),
            -32768 * 7000 <= raw * sensitivity <= 32767 * 7000,
    ;
    q as i32
}

/// Converts a raw gyroscope temperature byte to hundredths of a degree Celsius.
pub fn gyro_temperature(raw: u8) -> (r: i32)
    ensures
        r as int == gyro_temperature_of(raw),
{
    decode_i8(raw) as i32 * 100
}

// ---------------------------------------------------------------------------
// Accelerometer

/// Right shift that aligns an accelerometer sample: resolution mode 0 is the
/// 12-bit high-resolution mode, 1 the 10-bit normal mode, 2 the 8-bit
/// low-power mode.
pub open spec fn accel_shift(mode: u8) -> u8 {
    if mode == 0 {
        4
    } else if mode == 1 {
        6
    } else {
        8
    }
}

/// Sensitivity in hundredths of a milli-g per digit, indexed by
/// `mode * 4 + scale` (scale codes 0..3 for 2, 4, 8 and 16 g).
pub open spec fn accel_factor(index: int) -> int {
    if index == 0 {
        98
    } else if index == 1 {
        195
    } else if index == 2 {
        390
    } else if index == 3 {
        1172
    } else if index == 4 {
        390
    } else if index == 5 {
        782
    } else if index == 6 {
        1563
    } else if index == 7 {
        4690
    } else if index == 8 {
        1563
    } else if index == 9 {
        3126
    } else if index == 10 {
        6252
    } else {
        18758
    }
}

/// A raw accelerometer sample after the resolution shift.
pub open spec fn accel_aligned_of(raw: i16, mode: u8) -> int {
    (raw >> accel_shift(mode)) as int
}

/// An acceleration in milli-g.
pub open spec fn accel_mg_of(raw: i16, mode: u8, scale: u8) -> int {
    div_toward_zero(accel_aligned_of(raw, mode) * accel_factor(mode * 4 + scale), 100)
}

fn accel_factor_exec(index: u8) -> (r: i64)
    requires
        index < 12,
    ensures
        r == accel_factor(index as int),
        0 < r <= 18758,
{
    match index {
        0 => 98,
        1 => 195,
        2 => 390,
        3 => 1172,
        4 => 390,
        5 => 782,
        6 => 1563,
        7 => 4690,
        8 => 1563,
        9 => 3126,
        10 => 6252,
        _ => 18758,
    }
}

/// Aligns a raw accelerometer sample to its resolution.
pub fn accel_aligned(raw: i16, mode: u8) -> (r: i16)
    requires
        mode < 3,
    ensures
        r as int == accel_aligned_of(raw, mode),
{
    if mode == 0 {
        raw >> 4u8
    } else if mode == 1 {
        raw >> 6u8
    } else {
        raw >> 8u8
    }
}

/// Converts a raw accelerometer sample to milli-g.
pub fn accel_mg(raw: i16, mode: u8, scale: u8) -> (r: i32)
    requires
        mode < 3,
        scale < 4,
    ensures
        r as int == accel_mg_of(raw, mode, scale),
{
    let aligned = accel_aligned(raw, mode);
    let factor = accel_factor_exec(mode * 4 + scale);
    assert(-32768 * 18758 <= aligned * factor <= 32767 * 18758) by (nonlinear_arith)
        requires
            -32768 <= aligned <= 32767,
            0 < factor <= 18758,
    ;
    let q = div_toward_zero_exec(aligned as i64 * factor, 100);
    q as i32
}

// ---------------------------------------------------------------------------
// Magnetometer and device temperature

/// A magnetic field in milli-gauss, at 1.5 milli-gauss per digit.
pub open spec fn mag_mgauss_of(raw: int) -> int {
    div_toward_zero(raw * 3, 2)
}

/// A device temperature sample: the raw value without its six unused low bits.
pub open spec fn temperature_aligned_of(raw: i16) -> int {
    (raw >> 6u8) as int
}

/// A device temperature in degrees Celsius: a quarter degree per digit of the
/// aligned sample, plus 25.
pub open spec fn temperature_celsius_of(aligned: int) -> int {
    div_toward_zero(aligned + 100, 4)
}

/// Converts a raw magnetometer sample to milli-gauss.
pub fn mag_mgauss(raw: i16) -> (r: i32)
    ensures
        r as int == mag_mgauss_of(raw as int),
{
    let q = div_toward_zero_exec(raw as i64 * 3, 2);
    q as i32
}

/// Drops the six unused low bits of a device temperature sample.
pub fn temperature_aligned(raw: i16) -> (r: i16)
    ensures
        r as int == temperature_aligned_of(raw),
{
    raw >> 6u8
}

/// Converts an aligned device temperature sample to degrees Celsius.
pub fn temperature_celsius(aligned: i16) -> (r: i32)
    ensures
        r as int == temperature_celsius_of(aligned as int),
{
    let q = div_toward_zero_exec(aligned as i64 + 100, 4);
    q as i32
}

} // verus!
