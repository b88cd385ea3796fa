//! Frequency and time units.
//!
//! Frequencies are counted in hertz as `u32`; durations are counted in
//! microseconds as `u64`, the resolution of the board's timer.

use vstd::prelude::*;

verus! {

/// A frequency given in hertz.
pub fn hz(value: u32) -> (r: u32)
    ensures
        r == value,
{
    value
}

/// A frequency given in kilohertz, converted to hertz.
pub fn khz(value: u32) -> (r: u32)
    requires
        value * 1000 <= u32::MAX,
    ensures
        r == value * 1000,
{
    value * 1000
}

/// A frequency given in megahertz, converted to hertz.
pub fn mhz(value: u32) -> (r: u32)
    requires
        value * 1_000_000 <= u32::MAX,
    ensures
        r == value * 1_000_000,
{
    value * 1_000_000
}

/// A duration given in microseconds.
pub fn us(value: u64) -> (r: u64)
    ensures
        r == value,
{
    value
}

/// A duration given in milliseconds, converted to microseconds.
pub fn ms(value: u64) -> (r: u64)
    requires
        value * 1000 <= u64::MAX,
    ensures
        r == value * 1000,
{
    value * 1000
}

/// A duration given in seconds, converted to microseconds.
pub fn s(value: u64) -> (r: u64)
    requires
        value * 1_000_000 <= u64::MAX,
    ensures
        r == value * 1_000_000,
{
    value * 1_000_000
}

} // verus!
