//! The fixed-point kernel: arithmetic, rounding, conversions and the small
//! math library, checked on concrete values.

use sc2_sim::fixed::Fixed32;

/// A fixed-point value from its raw bits (value times 4096).
fn bits(b: i32) -> Fixed32 {
    Fixed32::from_bits(b)
}

#[test]
fn arith() {
    assert_eq!(
        Fixed32::from_i32(1).const_add(Fixed32::from_i32(1)),
        Fixed32::from_i32(2)
    );
    // -3.5 + 1 == -2.5
    assert_eq!(bits(-14336).const_add(Fixed32::from_i32(1)), bits(-10240));
    assert_eq!(
        Fixed32::from_i32(5).const_sub(Fixed32::from_i32(7)),
        Fixed32::from_i32(-2)
    );
    // 0.25 - 1 == -0.75
    assert_eq!(bits(1024).const_sub(Fixed32::from_i32(1)), bits(-3072));
    assert_eq!(
        Fixed32::from_i32(5).const_mul(Fixed32::from_i32(4)),
        Fixed32::from_i32(20)
    );
    // 10.5 * 2 == 21
    assert_eq!(
        bits(43008).const_mul(Fixed32::from_i32(2)),
        Fixed32::from_i32(21)
    );
    // 0.5 * -1.0 == -0.5
    assert_eq!(bits(2048).const_mul(bits(-4096)), bits(-2048));
    assert_eq!(
        Fixed32::from_i32(1000).const_div(Fixed32::from_i32(25)),
        Fixed32::from_i32(40)
    );
}

#[test]
fn int_arith() {
    assert_eq!(
        Fixed32::from_i32(1).const_add(Fixed32::from_i32(1)),
        Fixed32::from_i32(2)
    );
    assert_eq!(bits(-14336).const_add(Fixed32::from_i32(1)), bits(-10240));
    assert_eq!(
        Fixed32::from_i32(5).const_sub(Fixed32::from_i32(7)),
        Fixed32::from_i32(-2)
    );
    assert_eq!(bits(1024).const_sub(Fixed32::from_i32(1)), bits(-3072));
    assert_eq!(
        Fixed32::from_i32(5).const_mul(Fixed32::from_i32(4)),
        Fixed32::from_i32(20)
    );
    assert_eq!(
        bits(43008).const_mul(Fixed32::from_i32(2)),
        Fixed32::from_i32(21)
    );
    assert_eq!(
        Fixed32::from_i32(1000).const_div(Fixed32::from_i32(25)),
        Fixed32::from_i32(40)
    );
}

#[test]
fn signum() {
    assert_eq!(Fixed32::one().signum(), Fixed32::one());
    assert_eq!(Fixed32::from_i32(-1).signum(), Fixed32::from_i32(-1));
}

#[test]
fn abs() {
    assert_eq!(Fixed32::from_i32(1).abs(), Fixed32::from_i32(1));
    assert_eq!(Fixed32::from_i32(-1).abs(), Fixed32::from_i32(1));
    assert_eq!(bits(6144).abs(), bits(6144));
    assert_eq!(bits(-6144).abs(), bits(6144));
}

#[test]
fn floor() {
    assert_eq!(bits(6144).floor(), Fixed32::from_i32(1));
    assert_eq!(bits(-6144).floor(), Fixed32::from_i32(-2));
    assert_eq!(Fixed32::from_i32(1).floor(), Fixed32::from_i32(1));
}

#[test]
fn trunc() {
    assert_eq!(bits(6144).trunc(), Fixed32::from_i32(1));
    assert_eq!(bits(-6144).trunc(), Fixed32::from_i32(-1));
    assert_eq!(Fixed32::from_i32(1).trunc(), Fixed32::from_i32(1));
    assert_eq!(Fixed32::from_i32(-2).trunc(), Fixed32::from_i32(-2));
}

#[test]
fn ceil() {
    assert_eq!(bits(6144).ceil(), Fixed32::from_i32(2));
    assert_eq!(bits(-6144).ceil(), Fixed32::from_i32(-1));
    assert_eq!(Fixed32::from_i32(1).ceil(), Fixed32::from_i32(1));
}

#[test]
fn round() {
    assert_eq!(bits(6144).round(), Fixed32::from_i32(2));
    // 1.4 rounds down
    assert_eq!(bits(5734).round(), Fixed32::from_i32(1));
    assert_eq!(bits(-6144).round(), Fixed32::from_i32(-2));
    assert_eq!(bits(-5734).round(), Fixed32::from_i32(-1));
    assert_eq!(Fixed32::from_i32(1).round(), Fixed32::from_i32(1));
}

#[test]
fn sqrt() {
    assert_eq!(Fixed32::from_i32(4).sqrt(), Fixed32::from_i32(2));
    assert_eq!(Fixed32::from_i32(100).sqrt(), Fixed32::from_i32(10));
    // sqrt(150) == 12.2474... == 50165/4096, exact to the resolution
    assert_eq!(Fixed32::from_i32(150).sqrt(), bits(50165));
}

#[test]
fn rad_degree() {
    // pi in fixed point converts to 180 degrees exactly
    assert_eq!(Fixed32::pi().to_degrees(), Fixed32::from_i32(180));
    // 360 degrees converts to two pi within one raw step (1/4096)
    let r = Fixed32::from_i32(360).to_radians();
    assert!(r.const_sub(Fixed32::tau()).abs().as_bits() <= 1);
}

#[test]
fn int_round_trip() {
    assert_eq!(Fixed32::from_i32(-524288).as_i32(), -524288);
    assert_eq!(Fixed32::from_i32(524287).as_i32(), 524287);
    assert_eq!(Fixed32::from_i32(0).as_i32(), 0);
    assert_eq!(Fixed32::from_i32(-12345).as_i32(), -12345);
}

#[test]
fn add_sub_cancel() {
    let pairs = [(0i32, 4096i32), (-14336, 6144), (i32::MAX, 4096), (i32::MIN, -1)];
    for (a, b) in pairs {
        let x = bits(a);
        let y = bits(b);
        assert_eq!(x.const_add(y).const_sub(y), x);
    }
}

#[test]
fn float_round_trip() {
    // Conversion through the raw representation loses less than one step.
    for x in [0.5f64, -123.456, 400000.25, 0.0001, -0.75] {
        let raw = (x * 4096.0) as i32;
        let back = Fixed32::from_bits(raw).as_bits() as f64 / 4096.0;
        assert!((back - x).abs() < 1.0 / 4096.0);
    }
}

#[test]
fn sqrt_of_squares() {
    for n in 0..=724i32 {
        let f = Fixed32::from_i32(n);
        assert_eq!(f.const_mul(f).sqrt(), f);
    }
}

#[test]
fn atan2_vertical_axis() {
    for y in [Fixed32::from_i32(1), Fixed32::from_i32(-1), bits(7), bits(-90000)] {
        let r = Fixed32::atan2(y, Fixed32::zero());
        assert_eq!(r.abs(), Fixed32::frac_pi_2());
    }
}

#[test]
fn division_by_zero_yields_zero() {
    assert_eq!(
        Fixed32::from_i32(5).const_div(Fixed32::zero()),
        Fixed32::zero()
    );
}

#[test]
fn powi_repeats_multiplication() {
    let two = Fixed32::from_i32(2);
    // the exponent counts extra multiplications: zero leaves the value
    assert_eq!(two.powi(0), two);
    assert_eq!(two.powi(1), Fixed32::from_i32(4));
    assert_eq!(two.powi(3), Fixed32::from_i32(16));
}

#[test]
fn comparisons_follow_raw_order() {
    assert!(bits(-1).const_lt(bits(0)));
    assert!(bits(5).const_gt(bits(4)));
    assert!(bits(5).const_gte(bits(5)));
    assert!(bits(5).const_lte(bits(5)));
    assert!(bits(5).const_eq(bits(5)));
    assert!(bits(3).min(bits(4)).const_eq(bits(3)));
    assert!(bits(2).approx_eq(bits(5)));
    assert!(!bits(2).approx_eq(bits(7)));
}
