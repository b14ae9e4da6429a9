use tao_ohos::float::{Float32, Float64};

fn narrow(x: f32) -> Float32 {
    Float32 { bits: x.to_bits() }
}

fn wide(x: f64) -> Float64 {
    Float64 { bits: x.to_bits() }
}

#[test]
fn widening_matches_the_processor() {
    let mut bits: u32 = 0;
    loop {
        let x = f32::from_bits(bits);
        let w = f64::from_bits(Float32 { bits }.widen().bits);
        if x.is_nan() {
            assert!(w.is_nan());
        } else {
            assert_eq!(w.to_bits(), (x as f64).to_bits());
        }
        match bits.checked_add(99_991) {
            Some(next) => bits = next,
            None => break,
        }
    }
}

#[test]
fn widening_of_the_edges() {
    for x in [
        0.0f32,
        -0.0,
        1.0,
        -1.5,
        f32::MIN_POSITIVE,
        f32::MAX,
        f32::MIN,
        f32::INFINITY,
        f32::NEG_INFINITY,
        f32::from_bits(1),
        f32::from_bits(0x007f_ffff),
        f32::from_bits(0x8000_0001),
    ] {
        assert_eq!(narrow(x).widen().bits, (x as f64).to_bits());
    }
    assert_eq!(narrow(1.5).widen().bits, 0x3ff8_0000_0000_0000);
    assert!(f64::from_bits(narrow(f32::NAN).widen().bits).is_nan());
    assert!(f64::from_bits(Float32 { bits: 0x7f80_0001 }.widen().bits).is_nan());
    assert!(f64::from_bits(Float32 { bits: 0xffff_ffff }.widen().bits).is_nan());
}

#[test]
fn different_numbers_widen_differently() {
    assert_ne!(narrow(1.0).widen(), narrow(f32::from_bits(1.0f32.to_bits() + 1)).widen());
    assert_ne!(narrow(0.0).widen(), narrow(-0.0).widen());
}

#[test]
fn comparisons_with_zero_and_one() {
    let mut bits: u32 = 0;
    loop {
        let x = f32::from_bits(bits);
        assert_eq!(Float32 { bits }.is_zero(), x == 0.0);
        assert_eq!(Float32 { bits }.is_one(), x == 1.0);
        assert_eq!(Float32 { bits }.is_above_one(), x > 1.0);
        match bits.checked_add(99_989) {
            Some(next) => bits = next,
            None => break,
        }
    }
    for x in [
        0.0f32,
        -0.0,
        1.0,
        -1.0,
        f32::from_bits(0x3f7f_ffff),
        f32::from_bits(0x3f80_0001),
        f32::INFINITY,
        f32::NEG_INFINITY,
        f32::NAN,
        f32::from_bits(1),
    ] {
        assert_eq!(narrow(x).is_zero(), x == 0.0);
        assert_eq!(narrow(x).is_one(), x == 1.0);
        assert_eq!(narrow(x).is_above_one(), x > 1.0);
    }
}

#[test]
fn range_matches_the_processor() {
    let points = [
        0.0f64,
        -0.0,
        -1.0,
        -f64::MIN_POSITIVE,
        f64::from_bits(1),
        0.5,
        0.999_999_999_999_999_9,
        1.0,
        1.5,
        1919.999,
        1920.0,
        1920.000_000_1,
        4_294_967_294.5,
        4_294_967_295.0,
        4_294_967_296.0,
        1e300,
        f64::MAX,
        f64::INFINITY,
        f64::NEG_INFINITY,
        f64::NAN,
    ];
    for x in points {
        for limit in [0u32, 1, 2, 1920, 1921, u32::MAX] {
            let expected = x >= 0.0 && x < limit as f64;
            assert_eq!(wide(x).is_in_range(limit), expected, "{} below {}", x, limit);
        }
    }
}
