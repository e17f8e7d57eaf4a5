//! Fixed-point clock divisor for the peripheral state machine.
//!
//! The state machine spends a fixed number of its own clock cycles on each
//! wire bit, so it must be clocked at (bit frequency x cycles per bit). The
//! divisor hardware divides the system clock by an integer-plus-1/256ths
//! fixed-point value; this module computes that value and decides whether one
//! in the hardware's range exists at all.

use vstd::prelude::*;
use vstd::arithmetic::div_mod::lemma_fundamental_div_mod;
use vstd::arithmetic::div_mod::lemma_fundamental_div_mod_converse;

verus! {

/// State-machine cycles of the start-bit-high phase of every output bit.
pub const T1: u32 = 2;

/// State-machine cycles of the data-bit-high phase of every output bit.
pub const T2: u32 = 5;

/// State-machine cycles of the stop-bit-low phase of every output bit.
pub const T3: u32 = 3;

/// Total state-machine cycles per wire bit: the three phases together.
pub const CYCLES_PER_BIT: u32 = T1 + T2 + T3;

/// Nominal wire bit frequency of the LED protocol, in hertz.
pub const BIT_FREQ_HZ: u32 = 800_000;

/// The rate the state machine must tick at, in hertz: every wire bit takes
/// `CYCLES_PER_BIT` state-machine cycles.
pub const SM_CLOCK_HZ: u32 = BIT_FREQ_HZ * CYCLES_PER_BIT;

/// Fixed-point state-machine clock divisor, as the divisor hardware encodes
/// it: `int` whole steps plus `frac` steps of 1/256 each. An `int` of 0 is
/// the hardware's wrap encoding of 65536 (and then `frac` must be 0).
#[derive(Clone, Copy, PartialEq, Eq, Structural, Debug)]
pub struct Divisor {
    /// Integer part, with 0 standing for 65536.
    pub int: u16,
    /// Fractional part in 1/256 steps.
    pub frac: u8,
}

/// The one construction-time configuration failure: no divisor in the
/// hardware's range exists for the given system clock.
#[derive(Clone, Copy, PartialEq, Eq, Structural, Debug)]
pub enum ConfigError {
    /// The integer part of system clock / state-machine rate falls outside
    /// [1, 65536], or it is exactly 65536 with a nonzero fraction.
    DivisorOutOfRange,
}

/// Exact integer part of system clock / state-machine rate.
pub open spec fn div_int(clock_hz: u32) -> int {
    clock_hz as int / SM_CLOCK_HZ as int
}

/// Remainder of system clock / state-machine rate.
pub open spec fn div_rem(clock_hz: u32) -> int {
    clock_hz as int % SM_CLOCK_HZ as int
}

/// Exact 1/256-step fractional part: the remainder scaled by 256 and divided
/// by the state-machine rate again.
pub open spec fn div_frac(clock_hz: u32) -> int {
    div_rem(clock_hz) * 256 / SM_CLOCK_HZ as int
}

/// Whether the divisor hardware can represent a divisor for this clock: the
/// integer part must lie in [1, 65536], and exactly 65536 only with a zero
/// fraction.
pub open spec fn divisor_in_range(clock_hz: u32) -> bool {
    &&& 1 <= div_int(clock_hz)
    &&& div_int(clock_hz) <= 65536
    &&& (div_int(clock_hz) == 65536 ==> div_frac(clock_hz) == 0)
}

/// Compute the fixed-point divisor that clocks the state machine at
/// `SM_CLOCK_HZ` from a system clock of `clock_hz`, or report that no divisor
/// in the hardware's range exists. On success the parts are exactly the
/// integer quotient (wrapped to 0 when it is 65536) and the 1/256-step
/// fraction of the remainder.
pub fn clock_divisor(clock_hz: u32) -> (r: Result<Divisor, ConfigError>)
    ensures
        r is Ok <==> divisor_in_range(clock_hz),
        r is Ok ==> r->Ok_0.frac == div_frac(clock_hz),
        r is Ok ==> (if div_int(clock_hz) == 65536 {
            r->Ok_0.int == 0
        } else {
            r->Ok_0.int == div_int(clock_hz)
        }),
        r is Err ==> r->Err_0 == ConfigError::DivisorOutOfRange,
{
    let int_part: u32 = clock_hz / SM_CLOCK_HZ;
    let rem: u32 = clock_hz % SM_CLOCK_HZ;
    let frac: u32 = (rem * 256) / SM_CLOCK_HZ;
    assert(frac < 256) by (nonlinear_arith)
        requires
            rem < 8_000_000,
            frac == (rem * 256) / 8_000_000,
    ;
    if 1 <= int_part && int_part <= 65536 && (int_part != 65536 || frac == 0) {
        let stored: u16 = if int_part == 65536 { 0u16 } else { int_part as u16 };
        Ok(Divisor { int: stored, frac: frac as u8 })
    } else {
        Err(ConfigError::DivisorOutOfRange)
    }
}

/// With a 32-bit system clock the upper end of the hardware's range is out of
/// reach, so a divisor exists exactly when the system clock is at least the
/// state-machine rate.
pub proof fn lemma_divisor_in_range_iff(clock_hz: u32)
    ensures
        divisor_in_range(clock_hz) <==> clock_hz >= SM_CLOCK_HZ,
{
    let c = clock_hz as int;
    let d = SM_CLOCK_HZ as int;
    assert(c / d <= 536) by (nonlinear_arith)
        requires
            0 <= c <= 0xffff_ffff,
            d == 8_000_000,
    ;
    assert(c >= d ==> c / d >= 1) by (nonlinear_arith)
        requires
            d == 8_000_000,
    ;
    assert(c < d ==> c / d < 1) by (nonlinear_arith)
        requires
            0 <= c,
            d == 8_000_000,
    ;
}

/// The fixed-point divisor is the best 1/256-step approximation from below of
/// system clock / state-machine rate: 256 x integer part + fractional part is
/// exactly the floor of 256 x clock / rate, so the represented divisor
/// underestimates the true ratio by less than one fractional step.
pub proof fn lemma_divisor_approximation(clock_hz: u32)
    ensures
        256 * div_int(clock_hz) + div_frac(clock_hz) == 256 * (clock_hz as int) / (SM_CLOCK_HZ as int),
        (SM_CLOCK_HZ as int) * (256 * div_int(clock_hz) + div_frac(clock_hz)) <= 256 * (clock_hz as int),
        256 * (clock_hz as int) - (SM_CLOCK_HZ as int) * (256 * div_int(clock_hz) + div_frac(clock_hz))
            < SM_CLOCK_HZ as int,
{
    let c = clock_hz as int;
    let d = SM_CLOCK_HZ as int;
    let q = c / d;
    let r = c % d;
    lemma_fundamental_div_mod(c, d);
    let fq = (256 * r) / d;
    let fr = (256 * r) % d;
    lemma_fundamental_div_mod(256 * r, d);
    assert(256 * c == (256 * q + fq) * d + fr) by (nonlinear_arith)
        requires
            c == d * q + r,
            256 * r == d * fq + fr,
    ;
    lemma_fundamental_div_mod_converse(256 * c, d, 256 * q + fq, fr);
    assert(d * (256 * q + fq) == 256 * c - fr) by (nonlinear_arith)
        requires
            256 * c == (256 * q + fq) * d + fr,
    ;
}

} // verus!
