use pickle_fuzzer::binary64;

fn samples() -> Vec<f64> {
    vec![
        0.0,
        -0.0,
        1.0,
        -1.0,
        0.5,
        -0.5,
        0.1,
        1.5,
        2.0,
        1e-320,
        -1e-320,
        f64::MIN_POSITIVE,
        f64::EPSILON,
        1.0 - f64::EPSILON / 2.0,
        1.0 + f64::EPSILON,
        f64::MAX,
        f64::MIN,
        f64::INFINITY,
        f64::NEG_INFINITY,
        f64::NAN,
        -f64::NAN,
        f64::from_bits(0x7FF0_0000_0000_0001),
        f64::from_bits(0xFFFF_FFFF_FFFF_FFFF),
    ]
}

#[test]
fn the_constants_are_the_patterns_of_their_values() {
    assert_eq!(binary64::ZERO, 0.0f64.to_bits());
    assert_eq!(binary64::SIGN_BIT, (-0.0f64).to_bits());
    assert_eq!(binary64::ONE, 1.0f64.to_bits());
    assert_eq!(binary64::NEG_ONE, (-1.0f64).to_bits());
    assert_eq!(binary64::MAX, f64::MAX.to_bits());
    assert_eq!(binary64::MIN, f64::MIN.to_bits());
    assert_eq!(binary64::INFINITY, f64::INFINITY.to_bits());
    assert_eq!(binary64::NEG_INFINITY, f64::NEG_INFINITY.to_bits());
    assert_eq!(binary64::NAN, f64::NAN.to_bits());
    assert_eq!(pickle_fuzzer::generator::DEFAULT_MUTATION_RATE, 0.1f64.to_bits());
}

#[test]
fn comparisons_agree_with_the_values() {
    for a in samples() {
        assert_eq!(binary64::bits_is_nan(a.to_bits()), a.is_nan());
        for b in samples() {
            assert_eq!(
                binary64::bits_less_than(a.to_bits(), b.to_bits()),
                a < b,
                "{} < {}",
                a,
                b
            );
            assert_eq!(
                binary64::bits_greater_than(a.to_bits(), b.to_bits()),
                a > b,
                "{} > {}",
                a,
                b
            );
        }
    }
}

#[test]
fn clamping_agrees_with_the_values() {
    for a in samples() {
        let expected = a.clamp(0.0, 1.0);
        let clamped = binary64::bits_clamp_unit(a.to_bits());
        assert_eq!(clamped, expected.to_bits(), "{}", a);
    }
    assert_eq!(binary64::bits_clamp_unit(5.0f64.to_bits()), 1.0f64.to_bits());
    assert_eq!(binary64::bits_clamp_unit((-5.0f64).to_bits()), 0.0f64.to_bits());
    assert_eq!(binary64::bits_clamp_unit(0.25f64.to_bits()), 0.25f64.to_bits());
}

#[test]
fn unit_fractions_are_the_patterns_of_their_quotients() {
    let denominator = 9007199254740992.0f64;
    let mut numerators: Vec<u64> = vec![
        0,
        1,
        2,
        3,
        255,
        256,
        (1 << 52) - 1,
        1 << 52,
        (1 << 52) + 1,
        (1 << 53) - 1,
        0x000f_ffff_ffff_ffff,
        0x0015_5555_5555_5555,
    ];
    for shift in 0..53 {
        numerators.push(1 << shift);
        numerators.push((1u64 << shift) | 1);
    }
    for k in numerators {
        let expected = (k as f64 / denominator).to_bits();
        assert_eq!(binary64::unit_fraction_bits(k), expected, "{}", k);
    }
    assert_eq!(binary64::unit_fraction_bits(1 << 52), 0.5f64.to_bits());
    assert_eq!(binary64::unit_fraction_bits(1 << 51), 0.25f64.to_bits());
}
