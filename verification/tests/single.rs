use hidmaestro::Single;

fn doubles() -> Vec<f64> {
    let mut values = vec![
        0.0,
        -0.0,
        1.0,
        0.5,
        -1.0,
        0.1,
        0.3,
        1.5,
        1e-45,
        7e-46,
        8e-46,
        1e-40,
        1.1754943508222875e-38,
        1.1754942807573643e-38,
        3.4028234663852886e38,
        3.4028235677973366e38,
        3.4028235677973362e38,
        1e300,
        -1e300,
        1e-300,
        5e-324,
        16777217.0,
        16777219.0,
        0.0005,
        0.0015,
        2.0005,
        123456.789,
        f64::INFINITY,
        f64::NEG_INFINITY,
    ];
    let mut bits: u64 = 0x9e37_79b9_7f4a_7c15;
    for _ in 0..2000 {
        bits = bits
            .wrapping_mul(6364136223846793005)
            .wrapping_add(1442695040888963407);
        values.push(f64::from_bits(bits));
        values.push((bits >> 40) as f64 / 16777.216);
        let exponent: u64 = 896 + (bits >> 58);
        values.push(f64::from_bits((exponent << 52) | (bits >> 12)));
    }
    values
}

#[test]
fn narrowing_agrees_with_the_machine() {
    for value in doubles() {
        let narrow = Single::from_double_bits(value.to_bits());
        let expected = value as f32;
        if expected.is_nan() {
            assert!(f32::from_bits(narrow.0).is_nan());
        } else {
            assert_eq!(narrow.0, expected.to_bits(), "{value:e}");
        }
    }
}

#[test]
fn clamping_agrees_with_the_machine() {
    for value in doubles() {
        let narrow = value as f32;
        let clamped = Single(narrow.to_bits()).clamp_unit();
        let expected = narrow.clamp(0.0, 1.0);
        if expected.is_nan() {
            assert!(f32::from_bits(clamped.0).is_nan());
        } else {
            assert_eq!(clamped.0, expected.to_bits(), "{value:e}");
        }
        assert_eq!(clamped.clamp_unit().0, clamped.0);
    }
}

#[test]
fn equality_agrees_with_the_machine() {
    let mut values: Vec<f32> = doubles().into_iter().map(|value| value as f32).collect();
    values.truncate(60);
    values.push(f32::NAN);
    for a in &values {
        for b in &values {
            assert_eq!(
                Single(a.to_bits()) == Single(b.to_bits()),
                a == b,
                "{a:e} {b:e}"
            );
        }
    }
    assert_eq!(Single(0), Single(0x8000_0000));
    assert_ne!(Single(0x7fc0_0000), Single(0x7fc0_0000));
}

#[test]
fn three_decimals_agree_with_the_machine() {
    for value in doubles() {
        let narrow = value as f32;
        assert_eq!(
            Single(narrow.to_bits()).to_fixed3(),
            format!("{narrow:.3}"),
            "{value:e}"
        );
    }
    assert_eq!(Single(0.5f32.to_bits()).to_fixed3(), "0.500");
    assert_eq!(Single(0.0005f32.to_bits()).to_fixed3(), "0.001");
}
