//! Configuration values of the converter: result alignment, sampling
//! precision, sample time, and the conversion-clock source.
//!
//! Each enumeration carries a fixed field encoding (the value written into
//! the corresponding register bit-field), given by its `bits` method.

use vstd::prelude::*;

verus! {

/// ADC result alignment.
#[derive(Clone, Copy, PartialEq, Eq, Structural)]
pub enum Align {
    /// Right aligned results (least significant bits).
    ///
    /// Results in all precisions returning values from 0-(2^bits-1) in
    /// steps of 1.
    Right,
    /// Left aligned results (most significant bits).
    ///
    /// Results in all precisions returning a value in the range 0-65535.
    /// Depending on the precision the result will step by larger or smaller
    /// amounts.
    Left,
}

/// ADC sampling precision, in bits per conversion.
#[allow(non_camel_case_types)]
#[derive(Clone, Copy, PartialEq, Eq, Structural)]
pub enum Precision {
    /// 12 bit precision
    B_12,
    /// 10 bit precision
    B_10,
    /// 8 bit precision
    B_8,
    /// 6 bit precision
    B_6,
}

/// ADC sampling time: the number of clock cycles spent charging the sampling
/// capacitor before a conversion.
#[allow(non_camel_case_types)]
#[derive(Clone, Copy, PartialEq, Eq, Structural)]
pub enum SampleTime {
    T_2,
    T_4,
    T_8,
    T_12,
    T_20,
    T_40,
    T_80,
    T_160,
}

/// Source of the conversion clock: the bus clock with a small prescaler, or
/// the dedicated asynchronous clock with a wider one.
#[derive(Clone, Copy, PartialEq, Eq, Structural, Debug)]
pub enum ClockSource {
    Pclk(PclkDiv),
    Async(AsyncClockDiv),
}

/// Prescaler applied to the bus clock.
#[derive(Clone, Copy, PartialEq, Eq, Structural, Debug)]
pub enum PclkDiv {
    PclkD1,
    PclkD2,
    PclkD4,
}

/// Prescaler applied to the dedicated asynchronous clock.
#[derive(Clone, Copy, PartialEq, Eq, Structural, Debug)]
pub enum AsyncClockDiv {
    AsyncD1,
    AsyncD2,
    AsyncD4,
    AsyncD8,
    AsyncD16,
    AsyncD32,
    AsyncD64,
    AsyncD128,
    AsyncD256,
}

impl Align {
    /// The value of the alignment bit in the configuration register:
    /// set for left alignment.
    pub open spec fn spec_is_left(self) -> bool {
        self == Align::Left
    }

    /// Executable form of [`Align::spec_is_left`].
    pub fn is_left(&self) -> (b: bool)
        ensures
            b == self.spec_is_left(),
    {
        *self == Align::Left
    }
}

impl Precision {
    /// Field encoding of the precision in the configuration register.
    pub open spec fn spec_bits(self) -> u8 {
        match self {
            Precision::B_12 => 0,
            Precision::B_10 => 1,
            Precision::B_8 => 2,
            Precision::B_6 => 3,
        }
    }

    /// Executable form of [`Precision::spec_bits`].
    pub fn bits(&self) -> (r: u8)
        ensures
            r == self.spec_bits(),
            r < 4,
    {
        match *self {
            Precision::B_12 => 0,
            Precision::B_10 => 1,
            Precision::B_8 => 2,
            Precision::B_6 => 3,
        }
    }

    /// Number of significant bits a conversion at this precision produces.
    pub open spec fn spec_resolution(self) -> nat {
        match self {
            Precision::B_12 => 12,
            Precision::B_10 => 10,
            Precision::B_8 => 8,
            Precision::B_6 => 6,
        }
    }
}

impl SampleTime {
    /// Field encoding of the sample time in the sampling-time register.
    pub open spec fn spec_bits(self) -> u8 {
        match self {
            SampleTime::T_2 => 0,
            SampleTime::T_4 => 1,
            SampleTime::T_8 => 2,
            SampleTime::T_12 => 3,
            SampleTime::T_20 => 4,
            SampleTime::T_40 => 5,
            SampleTime::T_80 => 6,
            SampleTime::T_160 => 7,
        }
    }

    /// Executable form of [`SampleTime::spec_bits`].
    pub fn bits(&self) -> (r: u8)
        ensures
            r == self.spec_bits(),
            r < 8,
    {
        match *self {
            SampleTime::T_2 => 0,
            SampleTime::T_4 => 1,
            SampleTime::T_8 => 2,
            SampleTime::T_12 => 3,
            SampleTime::T_20 => 4,
            SampleTime::T_40 => 5,
            SampleTime::T_80 => 6,
            SampleTime::T_160 => 7,
        }
    }
}

impl PclkDiv {
    /// Field encoding of the bus-clock prescaler in the clock-mode field.
    pub open spec fn spec_bits(self) -> u8 {
        match self {
            PclkDiv::PclkD1 => 3,
            PclkDiv::PclkD2 => 1,
            PclkDiv::PclkD4 => 2,
        }
    }

    /// Executable form of [`PclkDiv::spec_bits`].
    pub fn bits(&self) -> (r: u8)
        ensures
            r == self.spec_bits(),
            1 <= r < 4,
    {
        match *self {
            PclkDiv::PclkD1 => 3,
            PclkDiv::PclkD2 => 1,
            PclkDiv::PclkD4 => 2,
        }
    }
}

impl AsyncClockDiv {
    /// Field encoding of the asynchronous-clock prescaler.
    pub open spec fn spec_bits(self) -> u8 {
        match self {
            AsyncClockDiv::AsyncD1 => 0,
            AsyncClockDiv::AsyncD2 => 1,
            AsyncClockDiv::AsyncD4 => 2,
            AsyncClockDiv::AsyncD8 => 3,
            AsyncClockDiv::AsyncD16 => 4,
            AsyncClockDiv::AsyncD32 => 5,
            AsyncClockDiv::AsyncD64 => 6,
            AsyncClockDiv::AsyncD128 => 7,
            AsyncClockDiv::AsyncD256 => 8,
        }
    }

    /// Executable form of [`AsyncClockDiv::spec_bits`].
    pub fn bits(&self) -> (r: u8)
        ensures
            r == self.spec_bits(),
            r < 16,
    {
        match *self {
            AsyncClockDiv::AsyncD1 => 0,
            AsyncClockDiv::AsyncD2 => 1,
            AsyncClockDiv::AsyncD4 => 2,
            AsyncClockDiv::AsyncD8 => 3,
            AsyncClockDiv::AsyncD16 => 4,
            AsyncClockDiv::AsyncD32 => 5,
            AsyncClockDiv::AsyncD64 => 6,
            AsyncClockDiv::AsyncD128 => 7,
            AsyncClockDiv::AsyncD256 => 8,
        }
    }
}

} // verus!
