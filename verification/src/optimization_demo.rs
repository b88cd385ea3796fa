//! Frequencies computed with the unit helpers, which fold to constants.

use vstd::prelude::*;

use crate::units::{khz, mhz};

verus! {

/// 400 kHz, the fast I2C clock.
pub const COMPILE_TIME_FREQ: u32 = 400_000;

/// 100 kHz.
pub const FREQ_1: u32 = 100_000;

/// 400 kHz.
pub const FREQ_2: u32 = 400_000;

/// 1 MHz.
pub const FREQ_3: u32 = 1_000_000;

/// The fast I2C clock plus a thousandth of the 8 MHz SPI clock: 408 kHz.
pub fn optimized_frequency_setup() -> (r: u32)
    ensures
        r == 408_000,
{
    let _i2c_standard = khz(100);
    let i2c_fast = khz(400);
    let spi_freq = mhz(8);
    i2c_fast + (spi_freq / 1000)
}

/// 400 kHz written as a number.
pub fn raw_constants() -> (r: u32)
    ensures
        r == 400_000,
{
    let freq = 400000u32;
    freq
}

/// 400 kHz written with the unit helper.
pub fn units_version() -> (r: u32)
    ensures
        r == 400_000,
{
    let freq = khz(400);
    freq
}

/// 100 kHz times four.
pub fn complex_units() -> (r: u32)
    ensures
        r == 400_000,
{
    let base = khz(100);
    let multiplier: u32 = 4;
    let result = base * multiplier;
    result
}

/// `N` kilohertz in hertz.
pub fn generic_frequency<const N: u32>() -> (r: u32)
    requires
        N * 1000 <= u32::MAX,
    ensures
        r == N * 1000,
{
    khz(N)
}

/// The unit helpers give the expected values.
pub fn verify_optimizations() {
    let a = khz(1);
    let b = khz(400);
    let c = mhz(8);
    let d = khz(2) + khz(3);
    let e = mhz(1) / 1000;
    assert(a == 1_000 && b == 400_000 && c == 8_000_000 && d == 5_000 && e == 1_000);
}

} // verus!
