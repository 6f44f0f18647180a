//! One-shot, single-channel driver for a successive-approximation ADC
//! peripheral, written against a register-level model of the converter.
//!
//! The peripheral's register block is modelled as a set of named bit-fields
//! with read/modify/write semantics ([`regs::ADC`]); the driver ([`adc::Adc`])
//! orchestrates clock selection, calibration, and the power-up, configure,
//! trigger, wait, extract, power-down sequence of each conversion.

pub mod adc;
pub mod channel;
pub mod config;
pub mod convert;
pub mod laws;
pub mod regs;

pub use adc::Adc;
pub use adc::AdcExt;
pub use adc::CalibrationFactor;
pub use channel::Channel;
pub use channel::VBat;
pub use channel::VRef;
pub use channel::VTemp;
pub use config::Align;
pub use config::AsyncClockDiv;
pub use config::ClockSource;
pub use config::PclkDiv;
pub use config::Precision;
pub use config::SampleTime;
pub use regs::Rcc;
pub use regs::ADC;
