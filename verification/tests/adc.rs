use adc_oneshot::Adc;
use adc_oneshot::AdcExt;
use adc_oneshot::Align;
use adc_oneshot::AsyncClockDiv;
use adc_oneshot::CalibrationFactor;
use adc_oneshot::Channel;
use adc_oneshot::ClockSource;
use adc_oneshot::PclkDiv;
use adc_oneshot::Precision;
use adc_oneshot::Rcc;
use adc_oneshot::SampleTime;
use adc_oneshot::VBat;
use adc_oneshot::VRef;
use adc_oneshot::VTemp;
use adc_oneshot::ADC;

/// An engine over a block whose every channel measures `v`, with `cal` as
/// the factor a calibration run would capture.
fn engine(v: u16, cal: u8) -> Adc {
    let mut rcc = Rcc::new();
    Adc::new(ADC::new([v; 19], cal), &mut rcc)
}

#[test]
fn right_alignment_fits_each_precision() {
    // Full-scale input: the largest value each precision can produce.
    for (p, bound) in [
        (Precision::B_12, 4096u32),
        (Precision::B_10, 1024u32),
        (Precision::B_8, 256u32),
        (Precision::B_6, 64u32),
    ] {
        let mut adc = engine(4095, 0);
        adc.set_precision(p);
        adc.set_align(Align::Right);
        let v: u16 = adc.sample(Channel::PA0);
        assert!((v as u32) < bound);
        assert_eq!(v as u32, bound - 1);
    }
}

#[test]
fn extraction_formula_each_combination() {
    let raw: u16 = 2740;
    let cases: [(Precision, Align, u16); 8] = [
        (Precision::B_12, Align::Right, 2740),
        (Precision::B_10, Align::Right, 685),
        (Precision::B_8, Align::Right, 171),
        (Precision::B_6, Align::Right, 42),
        (Precision::B_12, Align::Left, 43840),
        (Precision::B_10, Align::Left, 43840),
        (Precision::B_8, Align::Left, 43776),
        (Precision::B_6, Align::Left, 43008),
    ];
    for (p, a, expect) in cases {
        let mut adc = engine(raw, 0);
        adc.set_precision(p);
        adc.set_align(a);
        assert_eq!(adc.sample(Channel::PB1), expect);
    }
}

#[test]
fn left_six_bit_is_register_shifted_by_eight() {
    let mut adc = engine(4095, 0);
    adc.set_precision(Precision::B_6);
    adc.set_align(Align::Left);
    let v = adc.sample(Channel::PA5);
    let regs = adc.release();
    // The register parks a six-bit left-aligned result at bits 7..=2.
    assert_eq!(regs.dr, 63 * 4);
    assert_eq!(v, regs.dr << 8);
}

#[test]
fn other_combinations_return_register_unmodified() {
    for (p, a) in [
        (Precision::B_12, Align::Right),
        (Precision::B_6, Align::Right),
        (Precision::B_12, Align::Left),
        (Precision::B_8, Align::Left),
    ] {
        let mut adc = engine(3000, 0);
        adc.set_precision(p);
        adc.set_align(a);
        let v = adc.sample(Channel::PC5);
        let regs = adc.release();
        assert_eq!(v, regs.dr);
    }
}

#[test]
fn calibration_round_trip_is_a_no_op() {
    let mut adc = engine(0, 0x5a);
    adc.calibrate();
    let f = adc.get_calibration();
    assert_eq!(f, CalibrationFactor(0x5a));
    adc.set_calibration(f);
    assert_eq!(adc.get_calibration(), f);
}

#[test]
fn calibrate_captures_a_fresh_factor() {
    let mut adc = engine(0, 0x33);
    adc.set_calibration(CalibrationFactor(0x7f));
    assert_eq!(adc.get_calibration(), CalibrationFactor(0x7f));
    adc.calibrate();
    assert_eq!(adc.get_calibration(), CalibrationFactor(0x33));
}

#[test]
fn async_clock_programs_mode_and_prescaler() {
    let mut adc = engine(0, 0);
    // Leave the mode field on a bus-clock value first: selecting the
    // asynchronous clock must rewrite it to zero regardless.
    adc.set_clock_source(ClockSource::Pclk(PclkDiv::PclkD1));
    adc.set_clock_source(ClockSource::Async(AsyncClockDiv::AsyncD4));
    let regs = adc.release();
    assert_eq!(regs.presc, 2);
    assert_eq!(regs.ckmode, 0);
}

#[test]
fn pclk_clock_programs_its_divider() {
    for (div, code) in [
        (PclkDiv::PclkD1, 3u8),
        (PclkDiv::PclkD2, 1u8),
        (PclkDiv::PclkD4, 2u8),
    ] {
        let mut adc = engine(0, 0);
        adc.set_clock_source(ClockSource::Pclk(div));
        assert_eq!(adc.release().ckmode, code);
    }
}

#[test]
fn sample_returns_to_idle() {
    let mut adc = engine(1000, 0);
    adc.sample(Channel::PA1);
    let regs = adc.release();
    assert!(!regs.aden);
    assert!(!regs.adrdy);
    assert!(!regs.adstart);
}

#[test]
fn internal_enable_disable_round_trip() {
    let mut adc = engine(0, 0);
    let mut vtemp = VTemp::new();
    let mut vref = VRef::new();
    let mut vbat = VBat::new();
    vtemp.enable(&mut adc);
    vref.enable(&mut adc);
    vbat.enable(&mut adc);
    vtemp.disable(&mut adc);
    vref.disable(&mut adc);
    vbat.disable(&mut adc);
    let regs = adc.release();
    assert!(!regs.tsen);
    assert!(!regs.vrefen);
    assert!(!regs.vbaten);
}

#[test]
fn conversion_unaffected_by_other_internal_enables() {
    let mut plain = engine(2222, 0);
    let baseline = plain.sample(Channel::PA6);

    let mut with_enables = engine(2222, 0);
    let mut vtemp = VTemp::default();
    let mut vbat = VBat::default();
    vtemp.enable(&mut with_enables);
    vbat.enable(&mut with_enables);
    assert_eq!(with_enables.sample(Channel::PA6), baseline);
}

#[test]
fn scenario_pin3_eight_bit_right() {
    let mut rcc = Rcc::new();
    let mut inputs = [0u16; 19];
    inputs[3] = 1234;
    let mut adc = Adc::new(ADC::new(inputs, 0), &mut rcc);
    adc.set_precision(Precision::B_8);
    adc.set_align(Align::Right);
    adc.set_sample_time(SampleTime::T_8);
    let first = adc.sample(Channel::PA3);
    assert!(first <= 255);
    assert_eq!(first, 77);
    // An unchanged analog input reads back within one least-significant bit.
    let second = adc.sample(Channel::PA3);
    assert!(first.abs_diff(second) <= 1);
}

#[test]
fn defaults_sample_twelve_bit_right() {
    // A fresh engine samples at twelve bits, right-aligned.
    let mut adc = engine(4095, 0);
    assert_eq!(adc.sample(Channel::PB12), 4095);
}

#[test]
fn each_channel_reads_its_own_input() {
    let mut rcc = Rcc::new();
    let mut inputs = [0u16; 19];
    for (i, slot) in inputs.iter_mut().enumerate() {
        *slot = 100 * i as u16;
    }
    let mut adc = Adc::new(ADC::new(inputs, 0), &mut rcc);
    assert_eq!(adc.sample(Channel::PA0), 0);
    assert_eq!(adc.sample(Channel::PA7), 700);
    assert_eq!(adc.sample(Channel::PB0), 800);
    assert_eq!(adc.sample(Channel::PB10), 1100);
    assert_eq!(adc.sample(Channel::VTemp), 1200);
    assert_eq!(adc.sample(Channel::VRef), 1300);
    assert_eq!(adc.sample(Channel::VBat), 1400);
    assert_eq!(adc.sample(Channel::PB11), 1500);
    assert_eq!(adc.sample(Channel::PC5), 1800);
}

#[test]
fn selectors_round_trip() {
    for sel in 0u8..19 {
        let ch = Channel::from_selector(sel).unwrap();
        assert_eq!(ch.channel(), sel);
    }
    assert!(Channel::from_selector(19).is_none());
    assert!(Channel::from_selector(255).is_none());
}

#[test]
fn constrain_matches_new() {
    let mut rcc = Rcc::new();
    let mut adc = ADC::new([500; 19], 0).constrain(&mut rcc);
    assert!(rcc.adcen);
    assert_eq!(adc.sample(Channel::PA2), 500);
}

#[test]
fn release_returns_the_block() {
    let mut rcc = Rcc::new();
    let adc = Adc::new(ADC::new([0; 19], 9), &mut rcc);
    let regs = adc.release();
    assert!(regs.advregen);
    assert_eq!(regs.cal_measure, 9);
}
