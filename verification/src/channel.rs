//! Channel identity: the closed set of analog sources the input multiplexer
//! offers, each with its fixed numeric selector, and the enable capability
//! of the internal sources.
//!
//! An external pin must already be in analog (high-impedance) mode before it
//! is used as a channel; putting it there is the pin-multiplexing
//! subsystem's duty and is not re-validated here. A pin not in analog mode
//! yields undefined analog readings, not a detectable error.

use vstd::prelude::*;

use crate::adc::cfg_unchanged;
use crate::adc::Adc;
use crate::regs::ADC;
use crate::regs::CHANNELS;

verus! {

/// An analog source selectable by the input multiplexer: an external pin in
/// analog mode, or one of the internal reference sources.
#[derive(Clone, Copy, PartialEq, Eq, Structural, Debug)]
pub enum Channel {
    /// Pin PA0.
    PA0,
    /// Pin PA1.
    PA1,
    /// Pin PA2.
    PA2,
    /// Pin PA3.
    PA3,
    /// Pin PA4.
    PA4,
    /// Pin PA5.
    PA5,
    /// Pin PA6.
    PA6,
    /// Pin PA7.
    PA7,
    /// Pin PB0.
    PB0,
    /// Pin PB1.
    PB1,
    /// Pin PB2.
    PB2,
    /// Pin PB10.
    PB10,
    /// Pin PB11.
    PB11,
    /// Pin PB12.
    PB12,
    /// Pin PC4.
    PC4,
    /// Pin PC5.
    PC5,
    /// The internal temperature sensor; enable it with [`VTemp`] first.
    VTemp,
    /// The internal reference voltage; enable it with [`VRef`] first.
    VRef,
    /// The internal battery-voltage sense; enable it with [`VBat`] first.
    VBat,
}

impl Channel {
    /// The source's fixed position in the input multiplexer.
    pub open spec fn spec_selector(self) -> u8 {
        match self {
            Channel::PA0 => 0,
            Channel::PA1 => 1,
            Channel::PA2 => 2,
            Channel::PA3 => 3,
            Channel::PA4 => 4,
            Channel::PA5 => 5,
            Channel::PA6 => 6,
            Channel::PA7 => 7,
            Channel::PB0 => 8,
            Channel::PB1 => 9,
            Channel::PB2 => 10,
            Channel::PB10 => 11,
            Channel::VTemp => 12,
            Channel::VRef => 13,
            Channel::VBat => 14,
            Channel::PB11 => 15,
            Channel::PB12 => 16,
            Channel::PC4 => 17,
            Channel::PC5 => 18,
        }
    }

    /// Executable form of [`Channel::spec_selector`].
    pub fn channel(&self) -> (sel: u8)
        ensures
            sel == self.spec_selector(),
            sel < CHANNELS,
    {
        match *self {
            Channel::PA0 => 0,
            Channel::PA1 => 1,
            Channel::PA2 => 2,
            Channel::PA3 => 3,
            Channel::PA4 => 4,
            Channel::PA5 => 5,
            Channel::PA6 => 6,
            Channel::PA7 => 7,
            Channel::PB0 => 8,
            Channel::PB1 => 9,
            Channel::PB2 => 10,
            Channel::PB10 => 11,
            Channel::VTemp => 12,
            Channel::VRef => 13,
            Channel::VBat => 14,
            Channel::PB11 => 15,
            Channel::PB12 => 16,
            Channel::PC4 => 17,
            Channel::PC5 => 18,
        }
    }

    /// The source at multiplexer position `sel`: every position below
    /// [`CHANNELS`] is occupied.
    pub fn from_selector(sel: u8) -> (r: Option<Channel>)
        ensures
            (match r {
                Option::Some(c) => sel < CHANNELS && c.spec_selector() == sel,
                Option::None => sel >= CHANNELS,
            }),
    {
        match sel {
            0 => Option::Some(Channel::PA0),
            1 => Option::Some(Channel::PA1),
            2 => Option::Some(Channel::PA2),
            3 => Option::Some(Channel::PA3),
            4 => Option::Some(Channel::PA4),
            5 => Option::Some(Channel::PA5),
            6 => Option::Some(Channel::PA6),
            7 => Option::Some(Channel::PA7),
            8 => Option::Some(Channel::PB0),
            9 => Option::Some(Channel::PB1),
            10 => Option::Some(Channel::PB2),
            11 => Option::Some(Channel::PB10),
            12 => Option::Some(Channel::VTemp),
            13 => Option::Some(Channel::VRef),
            14 => Option::Some(Channel::VBat),
            15 => Option::Some(Channel::PB11),
            16 => Option::Some(Channel::PB12),
            17 => Option::Some(Channel::PC4),
            18 => Option::Some(Channel::PC5),
            _ => Option::None,
        }
    }
}

/// The internal temperature sensor's enable capability.
pub struct VTemp;

/// The internal reference voltage's enable capability.
pub struct VRef;

/// The internal battery-voltage sense's enable capability.
pub struct VBat;

impl VTemp {
    /// A handle on the temperature sensor's enable bit.
    pub fn new() -> (s: VTemp)
        ensures
            s == (VTemp {}),
    {
        VTemp {}
    }

    /// Sets the sensor's enable bit so it produces a valid signal; starts no
    /// conversion.
    pub fn enable(&mut self, adc: &mut Adc)
        ensures
            cfg_unchanged(*old(adc), *final(adc)),
            final(adc).regs() == (ADC { tsen: true, ..old(adc).regs() }),
    {
        adc.write_temp_sensor_enable(true);
    }

    /// Clears the sensor's enable bit.
    pub fn disable(&mut self, adc: &mut Adc)
        ensures
            cfg_unchanged(*old(adc), *final(adc)),
            final(adc).regs() == (ADC { tsen: false, ..old(adc).regs() }),
    {
        adc.write_temp_sensor_enable(false);
    }
}

impl Default for VTemp {
    fn default() -> (s: VTemp)
        ensures
            s == (VTemp {}),
    {
        VTemp::new()
    }
}

impl VRef {
    /// A handle on the reference voltage's enable bit.
    pub fn new() -> (s: VRef)
        ensures
            s == (VRef {}),
    {
        VRef {}
    }

    /// Sets the reference's enable bit so it produces a valid signal; starts
    /// no conversion.
    pub fn enable(&mut self, adc: &mut Adc)
        ensures
            cfg_unchanged(*old(adc), *final(adc)),
            final(adc).regs() == (ADC { vrefen: true, ..old(adc).regs() }),
    {
        adc.write_vref_enable(true);
    }

    /// Clears the reference's enable bit.
    pub fn disable(&mut self, adc: &mut Adc)
        ensures
            cfg_unchanged(*old(adc), *final(adc)),
            final(adc).regs() == (ADC { vrefen: false, ..old(adc).regs() }),
    {
        adc.write_vref_enable(false);
    }
}

impl Default for VRef {
    fn default() -> (s: VRef)
        ensures
            s == (VRef {}),
    {
        VRef::new()
    }
}

impl VBat {
    /// A handle on the battery-voltage sense's enable bit.
    pub fn new() -> (s: VBat)
        ensures
            s == (VBat {}),
    {
        VBat {}
    }

    /// Sets the sense's enable bit so it produces a valid signal; starts no
    /// conversion.
    pub fn enable(&mut self, adc: &mut Adc)
        ensures
            cfg_unchanged(*old(adc), *final(adc)),
            final(adc).regs() == (ADC { vbaten: true, ..old(adc).regs() }),
    {
        adc.write_vbat_enable(true);
    }

    /// Clears the sense's enable bit.
    pub fn disable(&mut self, adc: &mut Adc)
        ensures
            cfg_unchanged(*old(adc), *final(adc)),
            final(adc).regs() == (ADC { vbaten: false, ..old(adc).regs() }),
    {
        adc.write_vbat_enable(false);
    }
}

impl Default for VBat {
    fn default() -> (s: VBat)
        ensures
            s == (VBat {}),
    {
        VBat::new()
    }
}

} // verus!
