//! Physical quantities as exact integers, and the datasheet's scale factors.
//!
//! Potentials are counted in nanovolts, currents in picoamperes and
//! resistances in nanoohms, so that every scale factor of the chip is a whole
//! number and no conversion rounds before its last step.

use vstd::prelude::*;

verus! {

/// An electric potential.
#[derive(Debug, Clone, Copy, PartialEq, Eq)]
pub struct Potential {
    pub nanovolts: i64,
}

/// An electric current.
#[derive(Debug, Clone, Copy, PartialEq, Eq)]
pub struct Current {
    pub picoamperes: i64,
}

/// An electrical resistance.
#[derive(Debug, Clone, Copy, PartialEq, Eq)]
pub struct Resistance {
    pub nanoohms: u64,
}

/// One count of the bus voltage register: 1.25 mV.
pub const BUS_VOLTAGE_LSB: i64 = 1_250_000;

/// One count of the shunt voltage register: 2.5 µV.
pub const SHUNT_VOLTAGE_LSB: i64 = 2_500;

/// The chip's internal scaling constant, 0.00512 V, in units of one
/// picoampere times one nanoohm.
pub const CALIBRATION_SCALE: u128 = 5_120_000_000_000_000_000;

/// The number of counts that the maximum expected current is spread over.
pub const CURRENT_COUNTS: i64 = 0x8000;

/// The largest value the calibration register can hold.
pub const CALIBRATION_MAX: u16 = 0xffff;

/// `value` limited to the range of a signed 64-bit integer.
pub open spec fn clip_i64(value: int) -> int {
    if value < i64::MIN {
        i64::MIN as int
    } else if value > i64::MAX {
        i64::MAX as int
    } else {
        value
    }
}

/// The quotient `numerator / denominator` cut off towards zero.
pub open spec fn truncated_quotient(numerator: int, denominator: int) -> int
    recommends
        denominator > 0,
{
    if numerator >= 0 {
        numerator / denominator
    } else {
        -((-numerator) / denominator)
    }
}

/// The integer nearest to `numerator / denominator`; a tie goes up.
pub open spec fn nearest_quotient(numerator: int, denominator: int) -> int
    recommends
        numerator >= 0,
        denominator > 0,
{
    (2 * numerator + denominator) / (2 * denominator)
}

/// The current that one count stands for when `maximum` picoamperes are
/// spread over the positive half of the current register.
pub open spec fn current_lsb_for(maximum: int) -> int {
    truncated_quotient(maximum, CURRENT_COUNTS as int)
}

/// The calibration register value for a current LSB in picoamperes and a
/// shunt resistance in nanoohms: `0.00512 V / (current_lsb * shunt)`, rounded
/// to the nearest integer and clipped to the register's 16 bits.
///
/// A vanishing product clips at the top, a negative one at zero.
pub open spec fn calibration_for(current_lsb: int, shunt: int) -> int {
    let product = current_lsb * shunt;
    if product < 0 {
        0
    } else if product == 0 {
        CALIBRATION_MAX as int
    } else {
        let nearest = nearest_quotient(CALIBRATION_SCALE as int, product);
        if nearest > CALIBRATION_MAX {
            CALIBRATION_MAX as int
        } else {
            nearest
        }
    }
}

/// Whether `0.00512 V / (current_lsb * shunt)` rounds to a number that the
/// calibration register holds and that can be inverted: one from 1 to 65535.
pub open spec fn calibration_representable(current_lsb: int, shunt: int) -> bool {
    &&& current_lsb > 0
    &&& shunt > 0
    &&& 1 <= nearest_quotient(CALIBRATION_SCALE as int, current_lsb * shunt) <= CALIBRATION_MAX
}

/// The current LSB in picoamperes that a calibration value stands for with a
/// shunt resistance in nanoohms: `0.00512 V / (calibration * shunt)`, rounded
/// to the nearest integer. A vanishing product gives the largest current.
pub open spec fn current_lsb_from(calibration: int, shunt: int) -> int {
    let product = calibration * shunt;
    if product <= 0 {
        i64::MAX as int
    } else {
        nearest_quotient(CALIBRATION_SCALE as int, product)
    }
}

/// `nearest_quotient` is within half a unit of the exact quotient.
pub proof fn lemma_nearest_quotient(numerator: int, denominator: int)
    requires
        numerator >= 0,
        denominator > 0,
    ensures
        nearest_quotient(numerator, denominator) >= 0,
        2 * nearest_quotient(numerator, denominator) * denominator - denominator <= 2 * numerator,
        2 * numerator < 2 * nearest_quotient(numerator, denominator) * denominator + denominator,
{
    let n = 2 * numerator + denominator;
    let d = 2 * denominator;
    let q = n / d;
    assert(q >= 0 && q * d <= n < q * d + d) by (nonlinear_arith)
        requires
            n >= 0,
            d > 0,
            q == n / d,
    ;
    assert(2 * q * denominator == q * d) by (nonlinear_arith)
        requires
            d == 2 * denominator,
    ;
}

/// An exact quotient below one half rounds to zero.
pub proof fn lemma_nearest_quotient_zero(numerator: int, denominator: int)
    requires
        numerator >= 0,
        denominator > 2 * numerator,
    ensures
        nearest_quotient(numerator, denominator) == 0,
{
    let n = 2 * numerator + denominator;
    let d = 2 * denominator;
    assert(n / d == 0) by (nonlinear_arith)
        requires
            0 <= n < d,
    ;
}

/// The nearest integer to a quotient is no larger than the numerator.
pub proof fn lemma_nearest_quotient_upper(numerator: int, denominator: int)
    requires
        numerator >= 1,
        denominator > 0,
    ensures
        nearest_quotient(numerator, denominator) <= numerator,
{
    lemma_nearest_quotient(numerator, denominator);
    let q = nearest_quotient(numerator, denominator);
    assert(q <= numerator) by (nonlinear_arith)
        requires
            2 * q * denominator - denominator <= 2 * numerator,
            denominator >= 1,
            numerator >= 1,
            q >= 0,
    ;
}

/// Calibration round trip. Where `0.00512 V / (current_lsb * shunt_resistance)`
/// rounds to a value from 1 to 65535, the value stored is within half a count
/// of that quotient, so the current LSB asked for lies between those of the
/// two neighbouring counts; and the current LSB recovered from the stored
/// value differs from the one asked for by no more than half a count's share
/// of it, `current_lsb / (2 * stored)`, and the half picoampere of its own
/// rounding.
pub proof fn lemma_calibration_round_trip(current_lsb: Current, shunt_resistance: Resistance)
    requires
        calibration_representable(
            current_lsb.picoamperes as int,
            shunt_resistance.nanoohms as int,
        ),
    ensures
        ({
            let asked = current_lsb.picoamperes as int;
            let shunt = shunt_resistance.nanoohms as int;
            let stored = calibration_for(asked, shunt);
            let recovered = current_lsb_from(stored, shunt);
            &&& 1 <= stored <= CALIBRATION_MAX
            &&& (2 * stored - 1) * (asked * shunt) <= 2 * CALIBRATION_SCALE < (2 * stored + 1) * (
            asked * shunt)
            &&& (stored - 1) * (asked * shunt) < CALIBRATION_SCALE < (stored + 1) * (asked * shunt)
            &&& 2 * stored * (recovered - asked) <= asked + stored
            &&& 2 * stored * (asked - recovered) <= asked + stored
        }),
{
    let asked = current_lsb.picoamperes as int;
    let shunt = shunt_resistance.nanoohms as int;
    let scale = CALIBRATION_SCALE as int;
    let stored = calibration_for(asked, shunt);
    let recovered = current_lsb_from(stored, shunt);
    assert(asked * shunt > 0) by (nonlinear_arith)
        requires
            asked > 0,
            shunt > 0,
    ;
    assert(stored * shunt > 0) by (nonlinear_arith)
        requires
            stored > 0,
            shunt > 0,
    ;
    lemma_nearest_quotient(scale, asked * shunt);
    lemma_nearest_quotient(scale, stored * shunt);
    let first = 2 * scale - 2 * stored * (asked * shunt);
    let second = 2 * recovered * (stored * shunt) - 2 * scale;
    assert(-(asked * shunt) <= first < asked * shunt);
    assert(-(stored * shunt) <= second <= stored * shunt);
    assert((2 * stored - 1) * (asked * shunt) == 2 * stored * (asked * shunt) - asked * shunt
        && (2 * stored + 1) * (asked * shunt) == 2 * stored * (asked * shunt) + asked * shunt
        && (stored - 1) * (asked * shunt) == stored * (asked * shunt) - asked * shunt && (stored
        + 1) * (asked * shunt) == stored * (asked * shunt) + asked * shunt && 2 * stored * (asked
        * shunt) == 2 * (stored * (asked * shunt))) by (nonlinear_arith);
    assert(first + second == (2 * stored * (recovered - asked)) * shunt) by (nonlinear_arith)
        requires
            first == 2 * scale - 2 * stored * (asked * shunt),
            second == 2 * recovered * (stored * shunt) - 2 * scale,
    ;
    assert(2 * stored * (recovered - asked) <= asked + stored && 2 * stored * (asked - recovered)
        <= asked + stored) by (nonlinear_arith)
        requires
            shunt > 0,
            first + second == (2 * stored * (recovered - asked)) * shunt,
            -(asked * shunt) <= first < asked * shunt,
            -(stored * shunt) <= second <= stored * shunt,
    ;
}

/// A count of minus one reads as the current LSB with its sign turned. The
/// one exception is the most negative LSB that a `Current` holds, whose
/// opposite it does not hold.
pub proof fn lemma_minus_one_count(current_lsb: Current)
    requires
        current_lsb.picoamperes > i64::MIN,
    ensures
        clip_i64(-1 * current_lsb.picoamperes) == -current_lsb.picoamperes,
{
}

/// Convert a raw bus voltage reading: 1.25 mV for each count.
pub fn convert_to_voltage(raw: u16) -> (r: Potential)
    ensures
        r.nanovolts == raw * BUS_VOLTAGE_LSB,
{
    Potential { nanovolts: raw as i64 * BUS_VOLTAGE_LSB }
}

/// Convert a raw shunt voltage reading: 2.5 µV for each count.
pub fn convert_to_shunt_voltage(raw: i16) -> (r: Potential)
    ensures
        r.nanovolts == raw * SHUNT_VOLTAGE_LSB,
{
    Potential { nanovolts: raw as i64 * SHUNT_VOLTAGE_LSB }
}

/// Convert a raw current reading: `current_lsb` for each count.
///
/// The product is exact wherever it fits the 64 bits of a `Current`; beyond
/// them it stops at the nearest limit.
pub fn convert_to_current(raw: i16, current_lsb: Current) -> (r: Current)
    ensures
        r.picoamperes == clip_i64(raw * current_lsb.picoamperes),
{
    assert(-0x8000 * 0x8000_0000_0000_0000 <= raw * current_lsb.picoamperes <= 0x8000
        * 0x8000_0000_0000_0000) by (nonlinear_arith)
        requires
            -0x8000 <= raw < 0x8000,
            -0x8000_0000_0000_0000 <= current_lsb.picoamperes < 0x8000_0000_0000_0000,
    ;
    let wide: i128 = raw as i128 * current_lsb.picoamperes as i128;
    let picoamperes: i64 = if wide < i64::MIN as i128 {
        i64::MIN
    } else if wide > i64::MAX as i128 {
        i64::MAX
    } else {
        wide as i64
    };
    Current { picoamperes }
}

/// The current LSB for a maximum expected current: one 32768th of it, cut off
/// towards zero.
pub fn current_lsb_of(maximum_current: Current) -> (r: Current)
    ensures
        r.picoamperes == current_lsb_for(maximum_current.picoamperes as int),
{
    Current { picoamperes: maximum_current.picoamperes / CURRENT_COUNTS }
}

} // verus!
