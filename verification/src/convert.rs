//! The arithmetic of result extraction: how a converted input is truncated
//! to the configured precision, placed according to the configured alignment
//! into the 16-bit data register, and corrected by the driver for the
//! six-bit left-aligned case.
//!
//! The converter always measures with twelve significant bits
//! ([`FULL_SCALE`] codes); a lower precision keeps only the top bits.

use vstd::prelude::*;

use crate::config::Align;
use crate::config::Precision;

verus! {

/// Number of codes of a full-scale, twelve-bit measurement.
pub const FULL_SCALE: u16 = 4096;

/// Divisor that truncates a twelve-bit measurement to the precision encoded
/// by `res` (the configuration field of [`Precision::spec_bits`]): the low
/// `12 - precision` bits are discarded.
pub open spec fn truncation_divisor(res: u8) -> int {
    if res == 0 {
        1
    } else if res == 1 {
        4
    } else if res == 2 {
        16
    } else {
        64
    }
}

/// Factor that places a left-aligned result inside the 16-bit data register.
///
/// At twelve, ten and eight bits the significant bits end at bit 15; at six
/// bits the hardware parks the result at bits 7..=2 instead, a quirk the
/// driver compensates for after reading the register.
pub open spec fn left_placement_factor(res: u8) -> int {
    if res == 0 {
        16
    } else if res == 1 {
        64
    } else if res == 2 {
        256
    } else {
        4
    }
}

/// Contents of the data register after converting the twelve-bit measurement
/// `input` with precision field `res` and alignment bit `left`.
pub open spec fn raw_data(input: u16, res: u8, left: bool) -> int {
    if left {
        (input as int / truncation_divisor(res)) * left_placement_factor(res)
    } else {
        input as int / truncation_divisor(res)
    }
}

/// The value the driver returns for the twelve-bit measurement `input` under
/// precision `p` and alignment `a`: the data-register contents, shifted up by
/// eight bits when a six-bit result was left-aligned (compensating for the
/// hardware placing it at bits 7..=2).
pub open spec fn sample_value(input: u16, p: Precision, a: Align) -> int {
    if a == Align::Left && p == Precision::B_6 {
        raw_data(input, p.spec_bits(), true) * 256
    } else {
        raw_data(input, p.spec_bits(), a.spec_is_left())
    }
}

/// The data register holds 16 bits: every conversion of an in-range
/// measurement fits it.
pub proof fn lemma_raw_data_fits(input: u16, res: u8, left: bool)
    requires
        input < FULL_SCALE,
        res < 4,
    ensures
        0 <= raw_data(input, res, left) < 0x10000,
        res == 3 ==> raw_data(input, res, left) <= 252,
{
}

} // verus!
