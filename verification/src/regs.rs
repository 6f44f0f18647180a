//! Register-level model of the converter peripheral and of the clock tree
//! around it.
//!
//! The peripheral is an addressable resource exposing named bit-fields; this
//! module models it as a struct of plain fields together with the hardware's
//! reaction to each write. Status flags that the real converter raises after
//! a bounded settling time (ready after enable, end of sequence after a
//! started conversion, calibration completion) are raised by the write that
//! provokes them, so every busy-wait of the driver observes its condition at
//! the first poll. The analog environment — what a measurement of each
//! channel would read, and the factor a calibration run would capture — is
//! part of the model's state, fixed at construction.

use vstd::arithmetic::power2::lemma2_to64;
use vstd::arithmetic::power2::lemma_pow2_adds;
use vstd::arithmetic::power2::lemma_pow2_strictly_increases;
use vstd::arithmetic::power2::pow2;
use vstd::bits::lemma_u32_shl_is_mul;
use vstd::prelude::*;

use crate::convert::raw_data;
use crate::convert::FULL_SCALE;

verus! {

/// Model of the clock-tree peripheral, reduced to the one bit it supplies
/// here: the clock-enable switch that feeds the converter its bus clock.
pub struct Rcc {
    /// Clock-enable bit of the converter (APBENR2.ADCEN).
    pub adcen: bool,
}

impl Rcc {
    /// A clock tree with the converter's clock still switched off.
    pub fn new() -> (r: Rcc)
        ensures
            r.adcen == false,
    {
        Rcc { adcen: false }
    }

    /// Switches the converter's clock on (sets APBENR2.ADCEN).
    pub fn enable_adc_clock(&mut self)
        ensures
            final(self).adcen == true,
    {
        self.adcen = true;
    }
}

/// Model of the converter's register block, by named bit-field, together
/// with the analog environment the converter measures.
///
/// The number of channels the input multiplexer offers is [`CHANNELS`]
/// (external pins and internal sources together).
#[verifier::ext_equal]
pub struct ADC {
    /// CR.ADVREGEN: voltage-regulator enable.
    pub advregen: bool,
    /// CR.ADEN: converter enabled (the "active" state bit).
    pub aden: bool,
    /// CR.ADSTART: conversion requested and not yet finished. The model
    /// completes a conversion within the write that starts it, so the bit is
    /// never observed set.
    pub adstart: bool,
    /// CR.ADCAL: calibration running. The model completes a calibration
    /// within the write that starts it, so the bit is never observed set.
    pub adcal: bool,
    /// ISR.ADRDY: converter ready after power-up.
    pub adrdy: bool,
    /// ISR.EOS: end of conversion sequence.
    pub eos: bool,
    /// CFGR2.CKMODE: clock-mode field (0 selects the asynchronous clock).
    pub ckmode: u8,
    /// CCR.PRESC: prescaler field of the asynchronous clock.
    pub presc: u8,
    /// CFGR1.RES: precision field.
    pub res: u8,
    /// CFGR1.ALIGN: alignment bit, set for left-aligned results.
    pub align_left: bool,
    /// SMPR.SMP1: sample-time field.
    pub smp: u8,
    /// CHSELR.CHSEL: one bit per channel of the input multiplexer.
    pub chsel: u32,
    /// CALFACT.CALFACT: the calibration factor in use.
    pub calfact: u8,
    /// CCR.TSEN: enable bit of the internal temperature sensor.
    pub tsen: bool,
    /// CCR.VREFEN: enable bit of the internal reference voltage.
    pub vrefen: bool,
    /// CCR.VBATEN: enable bit of the internal battery-voltage sense.
    pub vbaten: bool,
    /// DR.DATA: result of the latest conversion.
    pub dr: u16,
    /// What a full-scale (twelve-bit) measurement of each channel would
    /// read; the analog environment, not a register.
    pub inputs: [u16; 19],
    /// The factor a calibration run would capture; the analog environment,
    /// not a register.
    pub cal_measure: u8,
}

/// Number of channels of the input multiplexer.
pub const CHANNELS: u8 = 19;

/// Every channel's measurement is a twelve-bit code.
pub open spec fn inputs_wf(r: ADC) -> bool {
    forall|i: int| 0 <= i < CHANNELS ==> r.inputs[i] < FULL_SCALE
}

impl ADC {
    /// A register block at its reset state, measuring the given analog
    /// environment: `inputs` is the full-scale measurement of each channel,
    /// `cal_measure` the factor a calibration run would capture.
    pub fn new(inputs: [u16; 19], cal_measure: u8) -> (r: ADC)
        requires
            forall|i: int| 0 <= i < CHANNELS ==> inputs[i] < FULL_SCALE,
        ensures
            r == (ADC {
                advregen: false,
                aden: false,
                adstart: false,
                adcal: false,
                adrdy: false,
                eos: false,
                ckmode: 0,
                presc: 0,
                res: 0,
                align_left: false,
                smp: 0,
                chsel: 0,
                calfact: 0,
                tsen: false,
                vrefen: false,
                vbaten: false,
                dr: 0,
                inputs: inputs,
                cal_measure: cal_measure,
            }),
    {
        ADC {
            advregen: false,
            aden: false,
            adstart: false,
            adcal: false,
            adrdy: false,
            eos: false,
            ckmode: 0,
            presc: 0,
            res: 0,
            align_left: false,
            smp: 0,
            chsel: 0,
            calfact: 0,
            tsen: false,
            vrefen: false,
            vbaten: false,
            dr: 0,
            inputs,
            cal_measure,
        }
    }

    /// Sets CR.ADVREGEN, enabling the converter's voltage regulator.
    pub fn enable_regulator(&mut self)
        ensures
            *final(self) == (ADC { advregen: true, ..*old(self) }),
    {
        self.advregen = true;
    }

    /// Sets CR.ADCAL, starting the hardware self-calibration routine. The
    /// routine runs only with the converter disabled; it captures a fresh
    /// factor into CALFACT and clears ADCAL when it completes.
    pub fn start_calibration(&mut self)
        requires
            old(self).aden == false,
        ensures
            *final(self) == (ADC { calfact: old(self).cal_measure, adcal: false, ..*old(self) }),
    {
        self.calfact = self.cal_measure;
        self.adcal = false;
    }

    /// Reads CR.ADCAL: whether the calibration routine is still running.
    pub fn calibration_running(&self) -> (b: bool)
        ensures
            b == self.adcal,
    {
        self.adcal
    }

    /// Writes 1 to ISR.ADRDY, clearing the (write-one-to-clear) ready flag.
    pub fn clear_ready(&mut self)
        ensures
            *final(self) == (ADC { adrdy: false, ..*old(self) }),
    {
        self.adrdy = false;
    }

    /// Sets CR.ADEN, requesting activation; the analog front end settles and
    /// the hardware raises ISR.ADRDY.
    pub fn request_enable(&mut self)
        ensures
            *final(self) == (ADC { aden: true, adrdy: true, ..*old(self) }),
    {
        self.aden = true;
        self.adrdy = true;
    }

    /// Reads ISR.ADRDY: whether the converter reports ready.
    pub fn ready(&self) -> (b: bool)
        ensures
            b == self.adrdy,
    {
        self.adrdy
    }

    /// Sets CR.ADDIS, requesting deactivation; the hardware clears CR.ADEN
    /// once the converter has shut down, and ADDIS clears itself.
    pub fn request_disable(&mut self)
        ensures
            *final(self) == (ADC { aden: false, ..*old(self) }),
    {
        self.aden = false;
    }

    /// Reads CR.ADEN: whether the converter is active.
    pub fn enabled(&self) -> (b: bool)
        ensures
            b == self.aden,
    {
        self.aden
    }

    /// Writes CFGR1.RES and CFGR1.ALIGN together: precision and alignment
    /// occupy adjacent ranges of one register and are written atomically.
    pub fn write_config(&mut self, res: u8, align_left: bool)
        requires
            res < 4,
        ensures
            *final(self) == (ADC { res: res, align_left: align_left, ..*old(self) }),
    {
        self.res = res;
        self.align_left = align_left;
    }

    /// Writes SMPR.SMP1, the sample-time field.
    pub fn write_sample_time(&mut self, smp: u8)
        requires
            smp < 8,
        ensures
            *final(self) == (ADC { smp: smp, ..*old(self) }),
    {
        self.smp = smp;
    }

    /// Writes CHSELR.CHSEL, the channel-selection bitmask.
    pub fn write_channel_mask(&mut self, mask: u32)
        ensures
            *final(self) == (ADC { chsel: mask, ..*old(self) }),
    {
        self.chsel = mask;
    }

    /// Writes 1 to ISR.EOS, clearing the (write-one-to-clear) end-of-sequence
    /// flag.
    pub fn clear_end_of_sequence(&mut self)
        ensures
            *final(self) == (ADC { eos: false, ..*old(self) }),
    {
        self.eos = false;
    }

    /// Reads ISR.EOS: whether the conversion sequence has ended.
    pub fn end_of_sequence(&self) -> (b: bool)
        ensures
            b == self.eos,
    {
        self.eos
    }

    /// Reads DR, the conversion data register.
    pub fn read_data(&self) -> (d: u16)
        ensures
            d == self.dr,
    {
        self.dr
    }

    /// Reads CALFACT.CALFACT, the calibration factor in use.
    pub fn read_calibration_factor(&self) -> (f: u8)
        ensures
            f == self.calfact,
    {
        self.calfact
    }

    /// Writes CALFACT.CALFACT directly, restoring a saved factor.
    pub fn write_calibration_factor(&mut self, f: u8)
        ensures
            *final(self) == (ADC { calfact: f, ..*old(self) }),
    {
        self.calfact = f;
    }

    /// Writes CFGR2.CKMODE, the clock-mode field.
    pub fn write_clock_mode(&mut self, ckmode: u8)
        requires
            ckmode < 4,
        ensures
            *final(self) == (ADC { ckmode: ckmode, ..*old(self) }),
    {
        self.ckmode = ckmode;
    }

    /// Writes CCR.PRESC, the prescaler field of the asynchronous clock.
    pub fn write_prescaler(&mut self, presc: u8)
        requires
            presc < 16,
        ensures
            *final(self) == (ADC { presc: presc, ..*old(self) }),
    {
        self.presc = presc;
    }

    /// Sets or clears CCR.TSEN, the temperature sensor's enable bit.
    pub fn write_temp_sensor_enable(&mut self, on: bool)
        ensures
            *final(self) == (ADC { tsen: on, ..*old(self) }),
    {
        self.tsen = on;
    }

    /// Sets or clears CCR.VREFEN, the reference voltage's enable bit.
    pub fn write_vref_enable(&mut self, on: bool)
        ensures
            *final(self) == (ADC { vrefen: on, ..*old(self) }),
    {
        self.vrefen = on;
    }

    /// Sets or clears CCR.VBATEN, the battery-voltage sense's enable bit.
    pub fn write_vbat_enable(&mut self, on: bool)
        ensures
            *final(self) == (ADC { vbaten: on, ..*old(self) }),
    {
        self.vbaten = on;
    }

    /// The index of the one selected channel, read back from the one-hot
    /// channel-selection mask.
    fn selected_channel(&self) -> (sel: u8)
        requires
            exists|s: u8| s < CHANNELS && self.chsel as nat == pow2(s as nat),
        ensures
            sel < CHANNELS,
            self.chsel as nat == pow2(sel as nat),
    {
        let mut sel: u8 = 0;
        let mut mask: u32 = 1;
        proof {
            lemma2_to64();
        }
        while sel < 18
            invariant
                sel <= 18,
                mask as nat == pow2(sel as nat),
                exists|s: u8| s < CHANNELS && self.chsel as nat == pow2(s as nat),
                forall|j: u8| j < sel ==> self.chsel as nat != pow2(j as nat),
            decreases 18 - sel,
        {
            if self.chsel == mask {
                return sel;
            }
            proof {
                if sel < 17 {
                    lemma_pow2_strictly_increases(sel as nat, 17);
                }
                lemma_pow2_adds(sel as nat, 1);
                lemma2_to64();
            }
            mask = mask * 2;
            sel = sel + 1;
        }
        proof {
            let s = choose|s: u8| s < CHANNELS && self.chsel as nat == pow2(s as nat);
            assert(s == 18);
        }
        sel
    }

    /// Sets CR.ADSTART with a single channel selected: the converter samples
    /// that channel for the configured time, converts, places the result in
    /// DR according to CFGR1.RES and CFGR1.ALIGN, raises ISR.EOS and clears
    /// ADSTART. Starting is only permitted with the converter enabled.
    pub fn start_conversion(&mut self)
        requires
            old(self).aden,
            old(self).res < 4,
            inputs_wf(*old(self)),
            exists|s: u8| s < CHANNELS && old(self).chsel as nat == pow2(s as nat),
        ensures
            *final(self) == (ADC { eos: true, adstart: false, dr: final(self).dr, ..*old(self) }),
            forall|s: u8| s < CHANNELS && old(self).chsel as nat == pow2(s as nat)
                ==> final(self).dr as int == raw_data(
                old(self).inputs[s as int],
                old(self).res,
                old(self).align_left,
            ),
    {
        let sel = self.selected_channel();
        let v: u16 = self.inputs[sel as usize];
        let t: u16 = if self.res == 0 {
            v
        } else if self.res == 1 {
            v / 4
        } else if self.res == 2 {
            v / 16
        } else {
            v / 64
        };
        let d: u16 = if self.align_left {
            if self.res == 0 {
                t * 16
            } else if self.res == 1 {
                t * 64
            } else if self.res == 2 {
                t * 256
            } else {
                t * 4
            }
        } else {
            t
        };
        self.dr = d;
        self.eos = true;
        self.adstart = false;
        proof {
            assert forall|s: u8| s < CHANNELS && old(self).chsel as nat == pow2(s as nat)
                implies s == sel by {
                if s < sel {
                    lemma_pow2_strictly_increases(s as nat, sel as nat);
                } else if s > sel {
                    lemma_pow2_strictly_increases(sel as nat, s as nat);
                }
            }
        }
    }
}

/// The channel-selection mask with exactly the bit of channel `sel` set.
pub fn one_hot_mask(sel: u8) -> (mask: u32)
    requires
        sel < CHANNELS,
    ensures
        mask as nat == pow2(sel as nat),
{
    proof {
        lemma2_to64();
        lemma_u32_shl_is_mul(1u32, sel as u32);
    }
    1u32 << (sel as u32)
}

} // verus!
