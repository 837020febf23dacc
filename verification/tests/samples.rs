use wav_transcribe::audio::normalize;
use wav_transcribe::single::from_q15;

#[test]
fn every_sample_is_its_quotient_by_32768() {
    let mut s: i16 = i16::MIN;
    loop {
        let expected: f32 = s as f32 / 32768.0;
        assert_eq!(from_q15(s), expected.to_bits());
        assert_eq!(f32::from_bits(from_q15(s)), expected);
        if s == i16::MAX {
            break;
        }
        s += 1;
    }
}

#[test]
fn every_sample_lies_in_the_unit_interval() {
    let mut s: i16 = i16::MIN;
    loop {
        let v = f32::from_bits(from_q15(s));
        assert!(v.is_finite());
        assert!(-1.0 <= v && v <= 1.0);
        if s == i16::MAX {
            break;
        }
        s += 1;
    }
}

#[test]
fn zero_is_positive_zero() {
    assert_eq!(from_q15(0), 0);
    assert!(f32::from_bits(from_q15(0)).is_sign_positive());
}

#[test]
fn smallest_sample_is_minus_one() {
    assert_eq!(from_q15(i16::MIN), 0xBF80_0000);
    assert_eq!(f32::from_bits(from_q15(i16::MIN)), -1.0);
}

#[test]
fn largest_sample_is_just_below_one() {
    assert_eq!(from_q15(i16::MAX), 0x3F7F_FE00);
    let v = f32::from_bits(from_q15(i16::MAX));
    assert_eq!(v, 0.999969482421875);
    assert!(v < 1.0);
}

#[test]
fn known_patterns() {
    assert_eq!(from_q15(16384), 0x3F00_0000);
    assert_eq!(from_q15(-16384), 0xBF00_0000);
    assert_eq!(from_q15(1), 0x3800_0000);
    assert_eq!(from_q15(-1), 0xB800_0000);
    assert_eq!(from_q15(3), 0x38C0_0000);
    assert_eq!(from_q15(8192), 0x3E80_0000);
}

#[test]
fn normalize_keeps_length_and_order() {
    let pcm: Vec<i16> = vec![2, -3, 5, -7, 0, i16::MAX, i16::MIN];
    let buffer = normalize(&pcm);
    assert_eq!(buffer.len(), pcm.len());
    assert_eq!(buffer.as_bits().len(), pcm.len());
    for i in 0..pcm.len() {
        let expected: f32 = pcm[i] as f32 / 32768.0;
        assert_eq!(buffer.get(i), expected.to_bits());
        assert_eq!(buffer.as_bits()[i], expected.to_bits());
    }
}

#[test]
fn normalize_of_nothing_is_empty() {
    let pcm: Vec<i16> = Vec::new();
    let buffer = normalize(&pcm);
    assert_eq!(buffer.len(), 0);
    assert!(buffer.as_bits().is_empty());
}

#[test]
fn silence_normalizes_to_zeros() {
    let pcm: Vec<i16> = vec![0; 1600];
    let buffer = normalize(&pcm);
    assert_eq!(buffer.len(), 1600);
    assert!(buffer.as_bits().iter().all(|b| *b == 0));
}
