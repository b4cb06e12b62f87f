use eguard_core::{Decision, Score};

fn score(value: f32) -> Score {
    Score::from_bits(value.to_bits())
}

#[test]
fn threshold_boundary_is_inclusive() {
    let min = score(0.5);
    assert_eq!(Decision::for_score(&score(0.5), &min, "0.5"), Decision::Allow);
    let below = 0.4999f32;
    assert_eq!(
        Decision::for_score(&score(below), &min, &below.to_string()),
        Decision::Deny { status: 403, message: "Low trust score: 0.4999".to_string() }
    );
}

#[test]
fn score_above_threshold_is_allowed() {
    assert_eq!(Decision::for_score(&score(0.9), &score(0.5), "0.9"), Decision::Allow);
    assert_eq!(Decision::for_score(&score(1.0), &score(0.0), "1"), Decision::Allow);
}

#[test]
fn zero_score_against_zero_threshold_is_allowed() {
    assert_eq!(Decision::for_score(&Score::zero(), &score(0.0), "0"), Decision::Allow);
    assert_eq!(Decision::for_score(&Score::zero(), &score(-0.0), "0"), Decision::Allow);
    assert_eq!(Decision::for_score(&score(-0.0), &score(0.0), "-0"), Decision::Allow);
}

#[test]
fn deny_message_holds_the_rendered_score() {
    let d = Decision::for_score(&score(0.25), &score(0.75), "0.25");
    assert_eq!(d, Decision::Deny { status: 403, message: "Low trust score: 0.25".to_string() });
    let d = Decision::for_score(&score(-3.5), &score(0.0), "");
    assert_eq!(d, Decision::Deny { status: 403, message: "Low trust score: ".to_string() });
}

#[test]
fn bits_round_trip() {
    for bits in [0u32, 1, 0x3f00_0000, 0x7f80_0000, 0x7fc0_0000, 0x8000_0000, u32::MAX] {
        assert_eq!(Score::from_bits(bits).to_bits(), bits);
        assert_eq!(Score::from_bits(bits).bits, bits);
    }
    assert_eq!(Score::zero().to_bits(), 0.0f32.to_bits());
}

#[test]
fn at_least_agrees_with_the_numbers() {
    let samples = [
        0.0f32,
        -0.0,
        0.5,
        0.4999,
        0.50000006,
        1.0,
        -1.0,
        1.0e-45,
        -1.0e-45,
        1.1754942e-38,
        1.17549435e-38,
        3.4028235e38,
        -3.4028235e38,
        f32::INFINITY,
        f32::NEG_INFINITY,
        f32::NAN,
        -f32::NAN,
        f32::from_bits(0x7f80_0001),
        f32::from_bits(0xffff_ffff),
        f32::EPSILON,
        100.0,
        -100.0,
        0.1,
        0.3,
    ];
    for a in samples {
        for b in samples {
            assert_eq!(score(a).at_least(&score(b)), a >= b, "{a:?} >= {b:?}");
        }
    }
}

#[test]
fn at_least_agrees_with_the_numbers_across_the_bit_patterns() {
    let mut a: u32 = 0;
    for _ in 0..2000 {
        let mut b: u32 = 0x9e37_79b9;
        for _ in 0..200 {
            let (x, y) = (f32::from_bits(a), f32::from_bits(b));
            assert_eq!(Score::from_bits(a).at_least(&Score::from_bits(b)), x >= y, "{a:#x} {b:#x}");
            b = b.wrapping_mul(1_664_525).wrapping_add(1_013_904_223);
        }
        a = a.wrapping_mul(22_695_477).wrapping_add(1);
    }
}

#[test]
fn nan_never_passes_and_is_never_passed() {
    let nan = score(f32::NAN);
    assert!(!nan.at_least(&score(0.0)));
    assert!(!score(1.0).at_least(&nan));
    assert!(!nan.at_least(&nan));
    assert!(matches!(
        Decision::for_score(&nan, &score(0.0), "NaN"),
        Decision::Deny { status: 403, .. }
    ));
}

#[test]
fn decision_fields_follow_the_variant() {
    let allow = Decision::Allow.into_fields();
    assert!(allow.allow);
    assert_eq!(allow.status, None);
    assert_eq!(allow.message, None);

    let deny = Decision::Deny { status: 403, message: "Low trust score: 0.1".to_string() }
        .into_fields();
    assert!(!deny.allow);
    assert_eq!(deny.status, Some(403));
    assert_eq!(deny.message.as_deref(), Some("Low trust score: 0.1"));
}
