use pathtracer::scalar::Scalar;

fn s(x: f32) -> Scalar {
    Scalar::from_bits(x.to_bits())
}

fn samples() -> Vec<f32> {
    vec![
        0.0,
        -0.0,
        1.0,
        -1.0,
        0.001,
        0.5,
        0.8,
        0.95,
        2.0,
        -2.5,
        1.0e-45,
        -1.0e-45,
        1.1754944e-38,
        3.4028235e38,
        -3.4028235e38,
        f32::INFINITY,
        f32::NEG_INFINITY,
        f32::NAN,
        -f32::NAN,
        f32::from_bits(0x7f80_0001),
        f32::from_bits(0xffff_ffff),
        f32::from_bits(0x0000_0001),
        f32::from_bits(0x8000_0001),
        f32::from_bits(0x3f7f_ffff),
        f32::from_bits(0x3f80_0001),
    ]
}

#[test]
fn bits_round_trip() {
    assert_eq!(Scalar::from_bits(0x3f80_0000).to_bits(), 0x3f80_0000);
    assert_eq!(Scalar::from_bits(0).to_bits(), 0);
    assert_eq!(Scalar::from_bits(0xffff_ffff).to_bits(), 0xffff_ffff);
    assert_eq!(s(1.5).to_bits(), 1.5f32.to_bits());
}

#[test]
fn zero_and_one_are_the_numbers() {
    assert_eq!(Scalar::zero().to_bits(), 0.0f32.to_bits());
    assert_eq!(Scalar::one().to_bits(), 1.0f32.to_bits());
}

#[test]
fn is_nan_agrees_with_the_machine() {
    for x in samples() {
        assert_eq!(s(x).is_nan(), x.is_nan(), "{:#x}", x.to_bits());
    }
}

#[test]
fn lt_agrees_with_the_machine() {
    for a in samples() {
        for b in samples() {
            assert_eq!(s(a).lt(s(b)), a < b, "{:#x} < {:#x}", a.to_bits(), b.to_bits());
        }
    }
}

#[test]
fn gt_agrees_with_the_machine() {
    for a in samples() {
        for b in samples() {
            assert_eq!(s(a).gt(s(b)), a > b, "{:#x} > {:#x}", a.to_bits(), b.to_bits());
        }
    }
}

#[test]
fn le_agrees_with_the_machine() {
    for a in samples() {
        for b in samples() {
            assert_eq!(s(a).le(s(b)), a <= b, "{:#x} <= {:#x}", a.to_bits(), b.to_bits());
        }
    }
}

#[test]
fn ge_agrees_with_the_machine() {
    for a in samples() {
        for b in samples() {
            assert_eq!(s(a).ge(s(b)), a >= b, "{:#x} >= {:#x}", a.to_bits(), b.to_bits());
        }
    }
}

#[test]
fn order_agrees_with_the_machine_across_the_patterns() {
    let mut a: u32 = 0;
    loop {
        let mut b: u32 = 0x0123_4567;
        loop {
            let (x, y) = (f32::from_bits(a), f32::from_bits(b));
            assert_eq!(Scalar::from_bits(a).lt(Scalar::from_bits(b)), x < y);
            assert_eq!(Scalar::from_bits(a).ge(Scalar::from_bits(b)), x >= y);
            match b.checked_add(0x0713_0001) {
                Some(n) => b = n,
                None => break,
            }
        }
        match a.checked_add(0x00f1_0003) {
            Some(n) => a = n,
            None => break,
        }
    }
}

#[test]
fn both_zeros_are_equal_in_order() {
    assert!(!s(-0.0).lt(s(0.0)));
    assert!(!s(0.0).lt(s(-0.0)));
    assert!(s(-0.0).le(s(0.0)));
    assert!(s(0.0).ge(s(-0.0)));
}

#[test]
fn nan_is_in_no_order() {
    let nan = s(f32::NAN);
    assert!(!nan.lt(nan));
    assert!(!nan.le(nan));
    assert!(!nan.gt(s(0.0)));
    assert!(!s(0.0).ge(nan));
}

#[test]
fn neg_flips_the_sign_bit() {
    for x in samples() {
        assert_eq!(s(x).neg().to_bits(), (-x).to_bits(), "{:#x}", x.to_bits());
        assert_eq!(s(x).neg().to_bits(), x.to_bits() ^ 0x8000_0000);
    }
    assert_eq!(s(0.0).neg().to_bits(), 0x8000_0000);
    assert_eq!(s(2.0).neg().to_bits(), (-2.0f32).to_bits());
}
