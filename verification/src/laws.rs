//! Laws of the driver, proved once and for all over the spec-level models
//! that the functions' contracts are stated in.

use vstd::arithmetic::power2::lemma2_to64;
use vstd::arithmetic::power2::pow2;
use vstd::prelude::*;

use crate::config::Align;
use crate::config::Precision;
use crate::convert::raw_data;
use crate::convert::sample_value;
use crate::convert::FULL_SCALE;
use crate::regs::ADC;
use crate::regs::CHANNELS;

verus! {

/// A right-aligned sample of an in-range measurement is representable in
/// the configured precision: at every precision it lies below two to the
/// power of that precision's number of significant bits.
pub proof fn lemma_right_aligned_fits_precision(input: u16, p: Precision)
    requires
        input < FULL_SCALE,
    ensures
        0 <= sample_value(input, p, Align::Right) < pow2(p.spec_resolution()),
{
    lemma2_to64();
}

/// At six-bit precision with left alignment the returned value is the raw
/// data register shifted up by eight bits; under every other combination of
/// alignment and precision the returned value is the data register
/// unmodified.
pub proof fn lemma_six_bit_left_correction(input: u16, p: Precision, a: Align)
    ensures
        (a == Align::Left && p == Precision::B_6) ==> sample_value(input, p, a) == raw_data(
            input,
            p.spec_bits(),
            true,
        ) * 256,
        !(a == Align::Left && p == Precision::B_6) ==> sample_value(input, p, a) == raw_data(
            input,
            p.spec_bits(),
            a.spec_is_left(),
        ),
{
}

/// Calibration round-trip: writing back the factor just read changes
/// nothing. Restoring [`crate::Adc::get_calibration`]'s result through
/// [`crate::Adc::set_calibration`] leaves the register block as it was.
pub proof fn lemma_calibration_round_trip(r: ADC)
    ensures
        (ADC { calfact: r.calfact, ..r }) == r,
{
    assert((ADC { calfact: r.calfact, ..r }) =~= r);
}

/// Enabling and then disabling an internal channel leaves its control bit
/// clear and the rest of the block as a plain disable would, whatever the
/// bit held before.
pub proof fn lemma_enable_disable_round_trip(r: ADC)
    ensures
        (ADC { tsen: false, ..(ADC { tsen: true, ..r }) }) == (ADC { tsen: false, ..r }),
        (ADC { vrefen: false, ..(ADC { vrefen: true, ..r }) }) == (ADC { vrefen: false, ..r }),
        (ADC { vbaten: false, ..(ADC { vbaten: true, ..r }) }) == (ADC { vbaten: false, ..r }),
{
    assert((ADC { tsen: false, ..(ADC { tsen: true, ..r }) }) =~= (ADC { tsen: false, ..r }));
    assert((ADC { vrefen: false, ..(ADC { vrefen: true, ..r }) }) =~= (ADC {
        vrefen: false,
        ..r
    }));
    assert((ADC { vbaten: false, ..(ADC { vbaten: true, ..r }) }) =~= (ADC {
        vbaten: false,
        ..r
    }));
}

/// Conversion ignores the internal channels' enable bits: two register
/// blocks that differ at most in those bits extract the same value for
/// every channel, precision and alignment.
pub proof fn lemma_conversion_ignores_internal_enables(
    r1: ADC,
    r2: ADC,
    sel: u8,
    p: Precision,
    a: Align,
)
    requires
        (ADC { tsen: r2.tsen, vrefen: r2.vrefen, vbaten: r2.vbaten, ..r1 }) == r2,
        sel < CHANNELS,
    ensures
        sample_value(r1.inputs[sel as int], p, a) == sample_value(r2.inputs[sel as int], p, a),
{
    assert(r1.inputs == r2.inputs);
}

} // verus!
