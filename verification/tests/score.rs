use onnx_ml_test::Score;

fn score(value: f32) -> Score {
    Score::from_bits(value.to_bits())
}

fn samples() -> Vec<f32> {
    vec![
        f32::NEG_INFINITY,
        f32::MIN,
        -1.0e10,
        -2.5,
        -1.0,
        -f32::MIN_POSITIVE,
        -1.0e-45,
        -0.0,
        0.0,
        1.0e-45,
        f32::MIN_POSITIVE,
        0.05,
        0.1,
        0.5,
        0.9,
        1.0,
        255.0,
        1.0e10,
        f32::MAX,
        f32::INFINITY,
    ]
}

#[test]
fn score_keeps_its_bits() {
    assert_eq!(Score::from_bits(0x3f00_0000).to_bits(), 0x3f00_0000);
    assert_eq!(Score::from_bits(0).to_bits(), 0);
    assert_eq!(Score::from_bits(u32::MAX).to_bits(), u32::MAX);
    assert_eq!(score(0.5).bits, 0x3f00_0000);
    assert_eq!(score(0.5), Score { bits: 0x3f00_0000 });
}

#[test]
fn score_is_nan_above_the_infinities_only() {
    for value in samples() {
        assert!(!score(value).is_nan());
    }
    assert!(score(f32::NAN).is_nan());
    assert!(score(-f32::NAN).is_nan());
    assert!(!Score::from_bits(0x7f80_0000).is_nan());
    assert!(Score::from_bits(0x7f80_0001).is_nan());
    assert!(Score::from_bits(0x7fff_ffff).is_nan());
    assert!(!Score::from_bits(0xff80_0000).is_nan());
    assert!(Score::from_bits(0xff80_0001).is_nan());
    assert!(Score::from_bits(0xffff_ffff).is_nan());
}

#[test]
fn score_is_nan_as_the_number_is() {
    let patterns = [
        0x0000_0000u32, 0x0000_0001, 0x007f_ffff, 0x0080_0000, 0x3f80_0000, 0x7f7f_ffff, 0x7f80_0000,
        0x7f80_0001, 0x7fc0_0000, 0x7fff_ffff, 0x8000_0000, 0x8000_0001, 0xbf80_0000, 0xff7f_ffff,
        0xff80_0000, 0xff80_0001, 0xffc0_0000, 0xffff_ffff,
    ];
    for bits in patterns {
        assert_eq!(Score::from_bits(bits).is_nan(), f32::from_bits(bits).is_nan());
    }
}

#[test]
fn score_exceeds_as_the_numbers_do() {
    let values = samples();
    for left in &values {
        for right in &values {
            assert_eq!(score(*left).exceeds(&score(*right)), left > right);
        }
    }
}

#[test]
fn score_zeros_do_not_exceed_each_other() {
    assert!(!score(0.0).exceeds(&score(-0.0)));
    assert!(!score(-0.0).exceeds(&score(0.0)));
    assert!(score(1.0e-45).exceeds(&score(-0.0)));
    assert!(score(0.0).exceeds(&score(-1.0e-45)));
}
