//! Conversion of a raw analog-to-digital reading to millivolts.
//!
//! The converter samples the supply rail through a 1/6 gain against a
//! 600 mV internal reference at 12-bit resolution, so one raw count is
//! `600 * 6 / 2^12` millivolts. The conversion is a fixed linear
//! transform in integer arithmetic; the sampling itself is done by the
//! caller that owns the converter handle.

use vstd::arithmetic::div_mod::{lemma_fundamental_div_mod, lemma_fundamental_div_mod_converse};
use vstd::prelude::*;

verus! {

/// Internal reference voltage of the converter, in millivolts.
pub const ADC_REFERENCE_MILLIVOLTS: u32 = 600;

/// Reciprocal of the converter's input gain.
pub const ADC_GAIN: u32 = 6;

/// Number of raw counts at full scale: one more than the largest reading
/// the converter's 12-bit resolution can produce.
pub const ADC_FULL_SCALE: u32 = 4096;

/// The millivolt value of a raw reading under the fixed linear transform
/// `raw * reference * gain / full_scale`, rounded toward negative
/// infinity as the hardware's arithmetic shift does.
pub open spec fn millivolts_of_raw(raw: int) -> int {
    (raw * ADC_REFERENCE_MILLIVOLTS * ADC_GAIN) / (ADC_FULL_SCALE as int)
}

/// Dividing a negated positive integer rounds toward negative infinity,
/// which is the negated ceiling of the plain quotient.
proof fn lemma_div_neg_is_neg_ceil(num: int, d: int)
    requires
        num > 0,
        d > 0,
    ensures
        (-num) / d == -((num + d - 1) / d),
{
    let q = (num + d - 1) / d;
    let r = (num + d - 1) % d;
    lemma_fundamental_div_mod(num + d - 1, d);
    assert(num + d - 1 == d * q + r);
    assert(-num == (-q) * d + (d - 1 - r)) by (nonlinear_arith)
        requires
            num + d - 1 == d * q + r,
    ;
    lemma_fundamental_div_mod_converse(-num, d, -q, d - 1 - r);
}

/// Converts one raw converter reading to millivolts.
pub fn raw_to_millivolts(raw: i16) -> (millivolts: i16)
    ensures
        millivolts as int == millivolts_of_raw(raw as int),
        -28800 <= millivolts <= 28799,
{
    if raw >= 0 {
        let scaled: u32 = (raw as u32) * (ADC_REFERENCE_MILLIVOLTS * ADC_GAIN);
        (scaled / ADC_FULL_SCALE) as i16
    } else {
        let magnitude: u32 = (-(raw as i32)) as u32;
        let scaled: u32 = magnitude * (ADC_REFERENCE_MILLIVOLTS * ADC_GAIN);
        proof {
            lemma_div_neg_is_neg_ceil(scaled as int, ADC_FULL_SCALE as int);
            assert(raw * ADC_REFERENCE_MILLIVOLTS * ADC_GAIN == -(scaled as int)) by (nonlinear_arith)
                requires
                    scaled == magnitude * (ADC_REFERENCE_MILLIVOLTS * ADC_GAIN),
                    magnitude == -(raw as int),
                    raw < 0,
            ;
        }
        -(((scaled + (ADC_FULL_SCALE - 1)) / ADC_FULL_SCALE) as i16)
    }
}

} // verus!
