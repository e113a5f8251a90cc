use echo_core::vad::{classify, is_greater, VadEvent, DEFAULT_THRESHOLD_BITS, ONE_BITS, VAD_FRAME_SIZE, VAD_SAMPLE_RATE};

#[test]
fn constants_are_those_of_the_detector() {
    assert_eq!(VAD_SAMPLE_RATE, 16000);
    assert_eq!(VAD_FRAME_SIZE, 512);
    assert_eq!(DEFAULT_THRESHOLD_BITS, 0.5f32.to_bits());
    assert_eq!(ONE_BITS, 1.0f32.to_bits());
}

#[test]
fn bit_patterns_compare_as_the_numbers_do() {
    let values = [
        0.0f32, -0.0, 0.5, 0.500_000_06, 0.499_999_97, 1.0, 0.999, 1e-40, -1e-40, f32::MIN_POSITIVE,
        -0.5, -1.0, 2.0, f32::MAX, f32::MIN, f32::INFINITY, f32::NEG_INFINITY, f32::NAN, -f32::NAN,
        0.25, 0.75, 3.5e-5,
    ];
    for a in values {
        for b in values {
            assert_eq!(is_greater(a.to_bits(), b.to_bits()), a > b, "{} > {}", a, b);
        }
    }
}

#[test]
fn probability_above_threshold_is_speech() {
    let threshold = 0.5f32.to_bits();
    assert!(!classify(0.0f32.to_bits(), threshold).is_speech());
    assert!(!classify(0.5f32.to_bits(), threshold).is_speech());
    assert!(classify(0.500_000_06f32.to_bits(), threshold).is_speech());
    assert!(!classify(f32::NAN.to_bits(), threshold).is_speech());
    match classify(0.9f32.to_bits(), threshold) {
        VadEvent::Speech { probability_bits } => assert_eq!(f32::from_bits(probability_bits), 0.9),
        VadEvent::Silence => panic!("0.9 is above 0.5"),
    }
    assert!(matches!(classify(0.2f32.to_bits(), DEFAULT_THRESHOLD_BITS), VadEvent::Silence));
}
