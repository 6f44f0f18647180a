//! The conversion engine: an exclusive owner of the converter's register
//! block that carries the sampling configuration and runs the power-up,
//! configure, trigger, wait, extract, power-down sequence of each one-shot
//! sample.

use vstd::arithmetic::power2::lemma2_to64;
use vstd::arithmetic::power2::pow2;
use vstd::bits::lemma_u16_shl_is_mul;
use vstd::prelude::*;

use crate::channel::Channel;
use crate::config::Align;
use crate::config::ClockSource;
use crate::config::Precision;
use crate::config::SampleTime;
use crate::convert::lemma_raw_data_fits;
use crate::convert::FULL_SCALE;
use crate::convert::raw_data;
use crate::convert::sample_value;
use crate::regs::inputs_wf;
use crate::regs::one_hot_mask;
use crate::regs::Rcc;
use crate::regs::ADC;
use crate::regs::CHANNELS;

verus! {

/// Analog to Digital converter interface.
///
/// Owns the peripheral's register block exclusively; the cached sample time,
/// alignment and precision persist across calls and are written afresh into
/// the hardware on every conversion.
pub struct Adc {
    pub(crate) rb: ADC,
    sample_time: SampleTime,
    align: Align,
    precision: Precision,
}

/// Contains the calibration factors for the ADC which can be reused with
/// [`Adc::set_calibration()`].
#[derive(Clone, Copy, PartialEq, Eq, Structural, Debug)]
pub struct CalibrationFactor(pub u8);

/// The engine's cached sampling configuration is the same in `a` and `b`.
pub open spec fn cfg_unchanged(a: Adc, b: Adc) -> bool {
    &&& a.sample_time() == b.sample_time()
    &&& a.align() == b.align()
    &&& a.precision() == b.precision()
}

impl Adc {
    /// The register block the engine owns.
    pub closed spec fn regs(self) -> ADC {
        self.rb
    }

    /// The cached sample time, applied on the next conversion.
    pub closed spec fn sample_time(self) -> SampleTime {
        self.sample_time
    }

    /// The cached alignment, applied on the next conversion.
    pub closed spec fn align(self) -> Align {
        self.align
    }

    /// The cached precision, applied on the next conversion.
    pub closed spec fn precision(self) -> Precision {
        self.precision
    }

    /// Takes ownership of the register block, switches its clock on, enables
    /// its voltage regulator, and starts with the default configuration:
    /// two-cycle sampling, right alignment, twelve-bit precision.
    pub fn new(adc: ADC, rcc: &mut Rcc) -> (a: Adc)
        ensures
            final(rcc).adcen == true,
            a.regs() == (ADC { advregen: true, ..adc }),
            a.sample_time() == SampleTime::T_2,
            a.align() == Align::Right,
            a.precision() == Precision::B_12,
    {
        rcc.enable_adc_clock();
        let mut adc = adc;
        adc.enable_regulator();

        Adc {
            rb: adc,
            sample_time: SampleTime::T_2,
            align: Align::Right,
            precision: Precision::B_12,
        }
    }

    /// Selects the conversion clock. Choosing the bus clock writes its
    /// divider into the clock-mode field; choosing the asynchronous clock
    /// always writes the clock-mode field to "asynchronous" (zero) before
    /// programming the prescaler, whatever the field held before, so that
    /// mode and prescaler are never left mismatched.
    pub fn set_clock_source(&mut self, clock_source: ClockSource)
        ensures
            cfg_unchanged(*old(self), *final(self)),
            (match clock_source {
                ClockSource::Pclk(div) => final(self).regs() == (ADC {
                    ckmode: div.spec_bits(),
                    ..old(self).regs()
                }),
                ClockSource::Async(div) => final(self).regs() == (ADC {
                    ckmode: 0,
                    presc: div.spec_bits(),
                    ..old(self).regs()
                }),
            }),
    {
        match clock_source {
            ClockSource::Pclk(div) => self.rb.write_clock_mode(div.bits()),
            ClockSource::Async(div) => {
                self.rb.write_clock_mode(0);
                self.rb.write_prescaler(div.bits());
            },
        }
    }

    /// Runs the calibration routine on the ADC and blocks until the
    /// converter reports completion, leaving a freshly captured factor in
    /// the calibration register.
    ///
    /// Wait for the voltage regulator to stabilize after [`Self::new()`]
    /// before calibrating. The converter must be disabled, and no reading
    /// may be ongoing.
    pub fn calibrate(&mut self)
        requires
            old(self).regs().aden == false,
        ensures
            cfg_unchanged(*old(self), *final(self)),
            final(self).regs() == (ADC {
                calfact: old(self).regs().cal_measure,
                adcal: false,
                ..old(self).regs()
            }),
    {
        self.rb.start_calibration();
        let ghost snap: Adc = *self;
        while self.rb.calibration_running()
            invariant
                *self == snap,
                self.rb.adcal == false,
            decreases 0int,
        {
        }
    }

    /// Returns the calibration factors used by the ADC.
    ///
    /// The converter has no factory-stored calibration: run
    /// [`Self::calibrate()`] first for the returned value to be useful. The
    /// factors are lost in the deepest low-power states; saving and
    /// restoring them recalibrates after a wake-up more quickly than
    /// re-running calibration, at a small accuracy risk from supply and
    /// temperature drift since the original calibration.
    pub fn get_calibration(&self) -> (f: CalibrationFactor)
        ensures
            f.0 == self.regs().calfact,
    {
        CalibrationFactor(self.rb.read_calibration_factor())
    }

    /// Writes previously saved calibration factors directly, skipping the
    /// slower hardware calibration routine.
    ///
    /// See [`Self::get_calibration()`]. Do not call if an ADC reading is
    /// ongoing.
    pub fn set_calibration(&mut self, calfact: CalibrationFactor)
        requires
            old(self).regs().adstart == false,
        ensures
            cfg_unchanged(*old(self), *final(self)),
            final(self).regs() == (ADC { calfact: calfact.0, ..old(self).regs() }),
    {
        self.rb.write_calibration_factor(calfact.0);
    }

    /// Sets the Adc sampling time, applied on the next sample.
    pub fn set_sample_time(&mut self, t_samp: SampleTime)
        ensures
            final(self).sample_time() == t_samp,
            final(self).align() == old(self).align(),
            final(self).precision() == old(self).precision(),
            final(self).regs() == old(self).regs(),
    {
        self.sample_time = t_samp;
    }

    /// Sets the Adc result alignment, applied on the next sample.
    pub fn set_align(&mut self, align: Align)
        ensures
            final(self).align() == align,
            final(self).sample_time() == old(self).sample_time(),
            final(self).precision() == old(self).precision(),
            final(self).regs() == old(self).regs(),
    {
        self.align = align;
    }

    /// Sets the Adc precision, applied on the next sample.
    pub fn set_precision(&mut self, precision: Precision)
        ensures
            final(self).precision() == precision,
            final(self).sample_time() == old(self).sample_time(),
            final(self).align() == old(self).align(),
            final(self).regs() == old(self).regs(),
    {
        self.precision = precision;
    }

    /// Powers the converter up: clears the stale ready flag, requests
    /// activation, and busy-waits until the converter reports ready. The
    /// flag must be cleared first — left stale from a previous cycle it
    /// would report a false ready before the analog front end has settled.
    fn power_up(&mut self)
        ensures
            cfg_unchanged(*old(self), *final(self)),
            final(self).regs() == (ADC { aden: true, adrdy: true, ..old(self).regs() }),
    {
        self.rb.clear_ready();
        self.rb.request_enable();
        let ghost snap: Adc = *self;
        while !self.rb.ready()
            invariant
                *self == snap,
                self.rb.adrdy == true,
            decreases 0int,
        {
        }
    }

    /// Powers the converter down: requests deactivation, clears the ready
    /// flag, and busy-waits until the active bit reads clear.
    fn power_down(&mut self)
        ensures
            cfg_unchanged(*old(self), *final(self)),
            final(self).regs() == (ADC { aden: false, adrdy: false, ..old(self).regs() }),
    {
        self.rb.request_disable();
        self.rb.clear_ready();
        let ghost snap: Adc = *self;
        while self.rb.enabled()
            invariant
                *self == snap,
                self.rb.aden == false,
            decreases 0int,
        {
        }
    }

    /// Takes one blocking sample of `channel` and returns the extracted
    /// value: the converter is powered up, configured with the cached
    /// precision, alignment and sample time, pointed at the one channel,
    /// triggered, awaited, read out, corrected for the six-bit left-aligned
    /// placement quirk, and powered back down.
    pub fn sample(&mut self, channel: Channel) -> (value: u16)
        requires
            inputs_wf(old(self).regs()),
        ensures
            value as int == sample_value(
                old(self).regs().inputs[channel.spec_selector() as int],
                old(self).precision(),
                old(self).align(),
            ),
            final(self).regs().dr as int == raw_data(
                old(self).regs().inputs[channel.spec_selector() as int],
                old(self).precision().spec_bits(),
                old(self).align().spec_is_left(),
            ),
            final(self).regs().aden == false,
            final(self).regs().adrdy == false,
            final(self).regs().adstart == false,
            final(self).regs().chsel as nat == pow2(channel.spec_selector() as nat),
            cfg_unchanged(*old(self), *final(self)),
            final(self).regs() == (ADC {
                aden: false,
                adrdy: false,
                adstart: false,
                eos: true,
                res: old(self).precision().spec_bits(),
                align_left: old(self).align().spec_is_left(),
                smp: old(self).sample_time().spec_bits(),
                chsel: final(self).regs().chsel,
                dr: final(self).regs().dr,
                ..old(self).regs()
            }),
    {
        self.power_up();

        self.rb.write_config(self.precision.bits(), self.align.is_left());
        self.rb.write_sample_time(self.sample_time.bits());

        let sel = channel.channel();
        let mask = one_hot_mask(sel);
        self.rb.write_channel_mask(mask);

        self.rb.clear_end_of_sequence();
        self.rb.start_conversion();
        let ghost snap: Adc = *self;
        while !self.rb.end_of_sequence()
            invariant
                *self == snap,
                self.rb.eos == true,
            decreases 0int,
        {
        }

        let res: u16 = self.rb.read_data();
        let value: u16 = if self.align == Align::Left && self.precision == Precision::B_6 {
            proof {
                lemma_raw_data_fits(
                    old(self).regs().inputs[channel.spec_selector() as int],
                    3,
                    true,
                );
                lemma2_to64();
                lemma_u16_shl_is_mul(res, 8);
            }
            res << 8u16
        } else {
            res
        };

        self.power_down();
        proof {
            assert(self.rb =~= (ADC {
                aden: false,
                adrdy: false,
                adstart: false,
                eos: true,
                res: old(self).precision().spec_bits(),
                align_left: old(self).align().spec_is_left(),
                smp: old(self).sample_time().spec_bits(),
                chsel: self.rb.chsel,
                dr: self.rb.dr,
                ..old(self).regs()
            }));
        }
        value
    }

    /// Whether every channel's measurement is an in-range (twelve-bit)
    /// code — the condition [`Self::sample`] asks of its caller, offered
    /// here as a run-time test for unverified callers.
    pub fn inputs_in_range(&self) -> (b: bool)
        ensures
            b == inputs_wf(self.regs()),
    {
        let mut i: usize = 0;
        while i < CHANNELS as usize
            invariant
                i <= CHANNELS as usize,
                forall|j: int| 0 <= j < i ==> self.rb.inputs[j] < FULL_SCALE,
            decreases CHANNELS as usize - i,
        {
            if self.rb.inputs[i] >= FULL_SCALE {
                return false;
            }
            i += 1;
        }
        true
    }

    /// Writes the temperature sensor's enable bit on behalf of the
    /// channel's capability handle.
    pub(crate) fn write_temp_sensor_enable(&mut self, on: bool)
        ensures
            cfg_unchanged(*old(self), *final(self)),
            final(self).regs() == (ADC { tsen: on, ..old(self).regs() }),
    {
        self.rb.write_temp_sensor_enable(on);
    }

    /// Writes the reference voltage's enable bit on behalf of the channel's
    /// capability handle.
    pub(crate) fn write_vref_enable(&mut self, on: bool)
        ensures
            cfg_unchanged(*old(self), *final(self)),
            final(self).regs() == (ADC { vrefen: on, ..old(self).regs() }),
    {
        self.rb.write_vref_enable(on);
    }

    /// Writes the battery-voltage sense's enable bit on behalf of the
    /// channel's capability handle.
    pub(crate) fn write_vbat_enable(&mut self, on: bool)
        ensures
            cfg_unchanged(*old(self), *final(self)),
            final(self).regs() == (ADC { vbaten: on, ..old(self).regs() }),
    {
        self.rb.write_vbat_enable(on);
    }

    /// Releases exclusive ownership of the register block for reuse.
    pub fn release(self) -> (r: ADC)
        ensures
            r == self.regs(),
    {
        self.rb
    }
}

/// Constrains a raw register block into a conversion engine.
pub trait AdcExt {
    /// Consumes the register block and yields the engine that owns it,
    /// with the clock switched on and the default configuration cached.
    fn constrain(self, rcc: &mut Rcc) -> (adc: Adc)
        ensures
            final(rcc).adcen == true,
            adc.sample_time() == SampleTime::T_2,
            adc.align() == Align::Right,
            adc.precision() == Precision::B_12,
    ;
}

impl AdcExt for ADC {
    fn constrain(self, rcc: &mut Rcc) -> (adc: Adc) {
        Adc::new(self, rcc)
    }
}

} // verus!
