//! 20.12 signed fixed-point scalar: a 32-bit two's-complement integer read as
//! `bits * 2^-12`. Addition and subtraction wrap; multiplication widens to 64
//! bits, wraps, and shifts right arithmetically by 12; division widens,
//! pre-shifts left by 12, and yields zero when it would trap.

use vstd::prelude::*;

verus! {

/// Raw scale factor: one whole unit is 4096 raw steps.
pub const FRAC_UNIT: i32 = 4096;

/// Raw bits of pi (pi * 4096, rounded toward zero).
pub const PI_BITS: i32 = 12867;

/// Raw bits of two pi.
pub const TAU_BITS: i32 = 25735;

/// Raw bits of pi over two.
pub const FRAC_PI_2_BITS: i32 = 6433;

/// Raw bits of 180 whole units, the degree count of a half turn.
pub const DEG_180_BITS: i32 = 737280;

/// A 20.12 signed fixed-point number, stored as its raw scaled bits.
#[derive(Clone, Copy, PartialEq, Eq, Structural, Hash, Debug)]
pub struct Fixed32 {
    pub bits: i32,
}

/// Wraps an unbounded integer into the i32 range, as a truncating cast does.
pub open spec fn wrap32(x: int) -> int {
    (x as i32) as int
}

/// Raw bits of the wrapping sum of two raw values.
pub open spec fn add_raw(a: int, b: int) -> int {
    wrap32(a + b)
}

/// Raw bits of the wrapping difference of two raw values.
pub open spec fn sub_raw(a: int, b: int) -> int {
    wrap32(a - b)
}

/// Raw bits of the fixed-point product: the 64-bit product shifted right
/// arithmetically by 12 (floor division by 4096), truncated to 32 bits.
pub open spec fn mul_raw(a: int, b: int) -> int {
    wrap32((a * b) / 4096)
}

/// Raw bits of the fixed-point quotient: the dividend widened and scaled up
/// by 4096, divided with truncation toward zero, truncated to 32 bits.
/// A zero divisor yields zero.
pub open spec fn div_raw(a: int, b: int) -> int {
    if b == 0 {
        0
    } else {
        wrap32(trunc_div(a * 4096, b))
    }
}

/// Division truncated toward zero, as the machine divide instruction rounds.
pub open spec fn trunc_div(a: int, b: int) -> int
    recommends
        b != 0,
{
    if (a >= 0) == (b >= 0) {
        abs_int(a) / abs_int(b)
    } else {
        -(abs_int(a) / abs_int(b))
    }
}

/// Absolute value of an unbounded integer.
pub open spec fn abs_int(x: int) -> int {
    if x >= 0 {
        x
    } else {
        -x
    }
}

/// Raw bits of the saturating difference of two raw values: the exact
/// difference, clamped at the ends of the 32-bit range.
pub open spec fn sat_sub_raw(a: int, b: int) -> int {
    if a - b < -0x8000_0000 {
        -0x8000_0000
    } else if a - b > 0x7fff_ffff {
        0x7fff_ffff
    } else {
        a - b
    }
}

/// The smaller of two raw values, the left one when equal.
pub open spec fn min_raw(a: int, b: int) -> int {
    if a > b {
        b
    } else {
        a
    }
}

/// The fixed-point value with the given raw bits.
pub open spec fn fx(v: int) -> Fixed32 {
    Fixed32 { bits: v as i32 }
}

/// Raw bits of the wrapping negation of a raw value.
pub open spec fn neg_raw(a: int) -> int {
    wrap32(-a)
}

/// Raw bits of the integer-to-fixed conversion: the low 32 bits of the
/// integer, scaled up by 4096 with wrapping.
pub open spec fn from_i32_raw(n: int) -> int {
    wrap32(n * 4096)
}

/// The whole part of a raw value, as an integer (rounded toward negative
/// infinity, as an arithmetic right shift rounds).
pub open spec fn floor_int(a: int) -> int {
    a / 4096
}

/// The raw value floored to a whole number of units.
pub open spec fn floor_raw(a: int) -> int {
    (a / 4096) * 4096
}

/// The fractional bits of a raw value (always nonnegative).
pub open spec fn fract_raw(a: int) -> int {
    a % 4096
}

/// The raw value rounded toward zero to a whole number of units.
pub open spec fn trunc_raw(a: int) -> int {
    4096 * trunc_div(a, 4096)
}

/// The raw value rounded toward positive infinity to a whole number of
/// units, wrapping at the top of the range.
pub open spec fn ceil_raw(a: int) -> int {
    if a % 4096 == 0 {
        a
    } else {
        wrap32(floor_raw(a) + 4096)
    }
}

/// The raw value rounded to the nearest whole unit, halves away from zero
/// (zero counts as positive).
pub open spec fn round_raw(a: int) -> int {
    trunc_raw(add_raw(a, if a >= 0 { 2048int } else { -2048int }))
}

impl View for Fixed32 {
    type V = int;

    /// A fixed-point value is modelled by its raw bits; the numeric value it
    /// stands for is the view divided by 4096.
    open spec fn view(&self) -> int {
        self.bits as int
    }
}

impl Fixed32 {
    /// Reinterprets raw bits as a fixed-point value.
    pub fn from_bits(val: i32) -> (r: Self)
        ensures
            r@ == val as int,
    {
        Fixed32 { bits: val }
    }

    /// The raw bits of the value.
    pub fn as_bits(self) -> (r: i32)
        ensures
            r as int == self@,
    {
        self.bits
    }

    /// Wrapping fixed-point addition.
    pub fn const_add(self, rhs: Self) -> (r: Self)
        ensures
            r@ == add_raw(self@, rhs@),
    {
        let s: i64 = (self.bits as i64) + (rhs.bits as i64);
        Fixed32 { bits: #[verifier::truncate] (s as i32) }
    }

    /// Wrapping fixed-point subtraction.
    pub fn const_sub(self, rhs: Self) -> (r: Self)
        ensures
            r@ == sub_raw(self@, rhs@),
    {
        let s: i64 = (self.bits as i64) - (rhs.bits as i64);
        Fixed32 { bits: #[verifier::truncate] (s as i32) }
    }

    /// Saturating fixed-point subtraction: exact until the 32-bit range
    /// runs out, then clamped. Damage bookkeeping uses it so that a hull
    /// driven far below zero can never wrap back to life.
    pub fn saturating_sub(self, rhs: Self) -> (r: Self)
        ensures
            r@ == sat_sub_raw(self@, rhs@),
    {
        let s: i64 = (self.bits as i64) - (rhs.bits as i64);
        if s < -0x8000_0000i64 {
            Fixed32 { bits: -0x8000_0000 }
        } else if s > 0x7fff_ffffi64 {
            Fixed32 { bits: 0x7fff_ffff }
        } else {
            Fixed32 { bits: s as i32 }
        }
    }

    /// Wrapping fixed-point negation.
    pub fn const_neg(self) -> (r: Self)
        ensures
            r@ == neg_raw(self@),
    {
        let s: i64 = -(self.bits as i64);
        Fixed32 { bits: #[verifier::truncate] (s as i32) }
    }

    /// Fixed-point multiplication: 64-bit product, arithmetic shift right by
    /// 12, truncated to 32 bits.
    pub fn const_mul(self, rhs: Self) -> (r: Self)
        ensures
            r@ == mul_raw(self@, rhs@),
    {
        let a: i64 = self.bits as i64;
        let b: i64 = rhs.bits as i64;
        proof {
            assert((-0x8000_0000i64 <= a <= 0x7fff_ffffi64 && -0x8000_0000i64 <= b
                <= 0x7fff_ffffi64) ==> -0x4000_0000_0000_0000i64 <= a * b
                <= 0x4000_0000_0000_0000i64) by (nonlinear_arith);
        }
        let p: i64 = a * b;
        let q: i64 = match p.checked_div_euclid(4096) {
            Some(q) => q,
            None => 0,
        };
        Fixed32 { bits: #[verifier::truncate] (q as i32) }
    }

    /// Fixed-point division: the dividend is widened and scaled up by 4096,
    /// then divided with truncation toward zero. A zero divisor yields zero.
    pub fn const_div(self, rhs: Self) -> (r: Self)
        ensures
            r@ == div_raw(self@, rhs@),
    {
        let n: i64 = (self.bits as i64) * 4096;
        let d: i64 = rhs.bits as i64;
        match n.checked_div(d) {
            Some(q) => Fixed32 { bits: #[verifier::truncate] (q as i32) },
            None => Fixed32 { bits: 0 },
        }
    }

    /// The smaller of two values (the left one when equal).
    pub fn min(self, rhs: Self) -> (r: Self)
        ensures
            r@ == if self@ > rhs@ { rhs@ } else { self@ },
    {
        if self.bits > rhs.bits {
            rhs
        } else {
            self
        }
    }

    /// True when the two values differ by at most the default tolerance of
    /// 0.001 (4 raw steps).
    pub fn approx_eq(self, rhs: Self) -> (r: bool)
        ensures
            r == (abs_int(self@ - rhs@) <= 4),
    {
        let d: i64 = (self.bits as i64) - (rhs.bits as i64);
        let m: i64 = if d < 0 { -d } else { d };
        m <= 4
    }

    /// Equality on the raw bits.
    pub fn const_eq(self, rhs: Self) -> (r: bool)
        ensures
            r == (self@ == rhs@),
    {
        self.bits == rhs.bits
    }

    /// Strictly less, by the signed ordering of the raw bits.
    pub fn const_lt(self, rhs: Self) -> (r: bool)
        ensures
            r == (self@ < rhs@),
    {
        self.bits < rhs.bits
    }

    /// Strictly greater, by the signed ordering of the raw bits.
    pub fn const_gt(self, rhs: Self) -> (r: bool)
        ensures
            r == (self@ > rhs@),
    {
        self.bits > rhs.bits
    }

    /// Less or equal, by the signed ordering of the raw bits.
    pub fn const_lte(self, rhs: Self) -> (r: bool)
        ensures
            r == (self@ <= rhs@),
    {
        self.bits <= rhs.bits
    }

    /// Greater or equal, by the signed ordering of the raw bits.
    pub fn const_gte(self, rhs: Self) -> (r: bool)
        ensures
            r == (self@ >= rhs@),
    {
        self.bits >= rhs.bits
    }

    /// Floor division of a raw value by the scale, as an arithmetic right
    /// shift by 12 computes it.
    fn shift_down(x: i64) -> (q: i64)
        ensures
            q == x as int / 4096,
    {
        match x.checked_div_euclid(4096) {
            Some(q) => q,
            None => 0,
        }
    }

    /// The value 0.
    pub fn zero() -> (r: Self)
        ensures
            r@ == 0,
    {
        Fixed32 { bits: 0 }
    }

    /// The value 1.
    pub fn one() -> (r: Self)
        ensures
            r@ == 4096,
    {
        Fixed32 { bits: 4096 }
    }

    /// The value 2.
    pub fn two() -> (r: Self)
        ensures
            r@ == 8192,
    {
        Fixed32 { bits: 8192 }
    }

    /// The value 1/2.
    pub fn one_half() -> (r: Self)
        ensures
            r@ == 2048,
    {
        Fixed32 { bits: 2048 }
    }

    /// The value -1.
    pub fn neg_one() -> (r: Self)
        ensures
            r@ == -4096,
    {
        Fixed32 { bits: -4096 }
    }

    /// The smallest positive step, 1/4096.
    pub fn epsilon() -> (r: Self)
        ensures
            r@ == 1,
    {
        Fixed32 { bits: 1 }
    }

    /// The largest representable value.
    pub fn max_value() -> (r: Self)
        ensures
            r@ == 0x7fff_ffff,
    {
        Fixed32 { bits: 0x7fff_ffff }
    }

    /// The smallest representable value.
    pub fn min_value() -> (r: Self)
        ensures
            r@ == -0x8000_0000,
    {
        Fixed32 { bits: -0x8000_0000 }
    }

    /// Pi, rounded toward zero to 1/4096.
    pub fn pi() -> (r: Self)
        ensures
            r@ == PI_BITS,
    {
        Fixed32 { bits: PI_BITS }
    }

    /// Two pi, rounded toward zero to 1/4096.
    pub fn tau() -> (r: Self)
        ensures
            r@ == TAU_BITS,
    {
        Fixed32 { bits: TAU_BITS }
    }

    /// Pi over two, rounded toward zero to 1/4096.
    pub fn frac_pi_2() -> (r: Self)
        ensures
            r@ == FRAC_PI_2_BITS,
    {
        Fixed32 { bits: FRAC_PI_2_BITS }
    }

    /// One over pi, rounded toward zero to 1/4096.
    pub fn frac_1_pi() -> (r: Self)
        ensures
            r@ == 1303,
    {
        Fixed32 { bits: 1303 }
    }

    /// Converts an integer, scaling by 4096 with wrapping.
    pub fn from_i32(value: i32) -> (r: Self)
        ensures
            r@ == from_i32_raw(value as int),
    {
        let s: i64 = (value as i64) * 4096;
        Fixed32 { bits: #[verifier::truncate] (s as i32) }
    }

    /// Converts a small unsigned integer exactly.
    pub fn from_u8(value: u8) -> (r: Self)
        ensures
            r@ == value * 4096,
    {
        Fixed32 { bits: (value as i32) * 4096 }
    }

    /// Converts a small unsigned integer exactly.
    pub fn from_u16(value: u16) -> (r: Self)
        ensures
            r@ == value * 4096,
    {
        Fixed32 { bits: (value as i32) * 4096 }
    }

    /// Converts an unsigned integer, reading its low 32 bits as signed and
    /// scaling with wrapping.
    pub fn from_u32(value: u32) -> (r: Self)
        ensures
            r@ == from_i32_raw((value as i32) as int),
    {
        let v: i32 = #[verifier::truncate] (value as i32);
        Self::from_i32(v)
    }

    /// Converts an unsigned integer, reading its low 32 bits as signed and
    /// scaling with wrapping.
    pub fn from_u64(value: u64) -> (r: Self)
        ensures
            r@ == from_i32_raw((value as i32) as int),
    {
        let v: i32 = #[verifier::truncate] (value as i32);
        Self::from_i32(v)
    }

    /// Converts an unsigned integer, reading its low 32 bits as signed and
    /// scaling with wrapping.
    pub fn from_usize(value: usize) -> (r: Self)
        ensures
            r@ == from_i32_raw((value as i32) as int),
    {
        let v: i32 = #[verifier::truncate] (value as i32);
        Self::from_i32(v)
    }

    /// Converts a small signed integer exactly.
    pub fn from_i8(value: i8) -> (r: Self)
        ensures
            r@ == value * 4096,
    {
        Fixed32 { bits: (value as i32) * 4096 }
    }

    /// Converts a small signed integer exactly.
    pub fn from_i16(value: i16) -> (r: Self)
        ensures
            r@ == value * 4096,
    {
        Fixed32 { bits: (value as i32) * 4096 }
    }

    /// Converts a signed integer, keeping its low 32 bits and scaling with
    /// wrapping.
    pub fn from_i64(value: i64) -> (r: Self)
        ensures
            r@ == from_i32_raw((value as i32) as int),
    {
        let v: i32 = #[verifier::truncate] (value as i32);
        Self::from_i32(v)
    }

    /// Converts a signed integer, keeping its low 32 bits and scaling with
    /// wrapping.
    pub fn from_isize(value: isize) -> (r: Self)
        ensures
            r@ == from_i32_raw((value as i32) as int),
    {
        let v: i32 = #[verifier::truncate] (value as i32);
        Self::from_i32(v)
    }

    /// The whole part, floored, truncated to the target width.
    pub fn as_u8(self) -> (r: u8)
        ensures
            r == (floor_int(self@) as u8),
    {
        let q: i64 = Self::shift_down(self.bits as i64);
        #[verifier::truncate] (q as u8)
    }

    /// The whole part, floored, truncated to the target width.
    pub fn as_u16(self) -> (r: u16)
        ensures
            r == (floor_int(self@) as u16),
    {
        let q: i64 = Self::shift_down(self.bits as i64);
        #[verifier::truncate] (q as u16)
    }

    /// The whole part, floored, truncated to the target width.
    pub fn as_u32(self) -> (r: u32)
        ensures
            r == (floor_int(self@) as u32),
    {
        let q: i64 = Self::shift_down(self.bits as i64);
        #[verifier::truncate] (q as u32)
    }

    /// The whole part, floored, truncated to the target width.
    pub fn as_usize(self) -> (r: usize)
        ensures
            r == (floor_int(self@) as usize),
    {
        let q: i64 = Self::shift_down(self.bits as i64);
        #[verifier::truncate] (q as usize)
    }

    /// The whole part, floored, truncated to the target width.
    pub fn as_i8(self) -> (r: i8)
        ensures
            r == (floor_int(self@) as i8),
    {
        let q: i64 = Self::shift_down(self.bits as i64);
        #[verifier::truncate] (q as i8)
    }

    /// The whole part, floored, truncated to the target width.
    pub fn as_i16(self) -> (r: i16)
        ensures
            r == (floor_int(self@) as i16),
    {
        let q: i64 = Self::shift_down(self.bits as i64);
        #[verifier::truncate] (q as i16)
    }

    /// The whole part, floored (exact: every fixed-point value's floor fits).
    pub fn as_i32(self) -> (r: i32)
        ensures
            r == floor_int(self@),
    {
        let q: i64 = Self::shift_down(self.bits as i64);
        q as i32
    }

    /// The whole part, floored (exact).
    pub fn as_i64(self) -> (r: i64)
        ensures
            r == floor_int(self@),
    {
        Self::shift_down(self.bits as i64)
    }

    /// The whole part, floored, truncated to the target width.
    pub fn as_isize(self) -> (r: isize)
        ensures
            r == (floor_int(self@) as isize),
    {
        let q: i64 = Self::shift_down(self.bits as i64);
        #[verifier::truncate] (q as isize)
    }

    /// One when the sign bit is set, zero otherwise.
    pub fn sign_bit(self) -> (r: Self)
        ensures
            r@ == if self@ < 0 { 4096int } else { 0int },
    {
        if self.bits < 0 {
            Fixed32 { bits: 4096 }
        } else {
            Fixed32 { bits: 0 }
        }
    }

    /// Minus one for negative values, plus one otherwise: zero counts as
    /// positive, so the result is never zero.
    pub fn signum(self) -> (r: Self)
        ensures
            r@ == if self@ < 0 { -4096int } else { 4096int },
    {
        if self.bits < 0 {
            Fixed32 { bits: -4096 }
        } else {
            Fixed32 { bits: 4096 }
        }
    }

    /// The whole-unit part, rounded toward negative infinity (the fractional
    /// bits masked off).
    pub fn integer(self) -> (r: Self)
        ensures
            r@ == floor_raw(self@),
    {
        let q: i64 = Self::shift_down(self.bits as i64);
        proof {
            lemma_floor_raw_in_range(self@);
        }
        Fixed32 { bits: (q * 4096) as i32 }
    }

    /// The fractional bits alone (always nonnegative).
    pub fn fract(self) -> (r: Self)
        ensures
            r@ == fract_raw(self@),
    {
        let q: i64 = Self::shift_down(self.bits as i64);
        let f: i64 = (self.bits as i64) - q * 4096;
        Fixed32 { bits: f as i32 }
    }

    /// The value plus one whole unit, wrapping.
    pub fn incr(self) -> (r: Self)
        ensures
            r@ == add_raw(self@, 4096),
    {
        self.const_add(Self::one())
    }

    /// The value minus one whole unit, wrapping.
    pub fn decr(self) -> (r: Self)
        ensures
            r@ == sub_raw(self@, 4096),
    {
        self.const_sub(Self::one())
    }

    /// True for values strictly above zero.
    pub fn is_positive(self) -> (r: bool)
        ensures
            r == (self@ > 0),
    {
        self.bits > 0
    }

    /// True for values strictly below zero.
    pub fn is_negative(self) -> (r: bool)
        ensures
            r == (self@ < 0),
    {
        self.bits < 0
    }

    /// Rounds toward negative infinity.
    pub fn floor(self) -> (r: Self)
        ensures
            r@ == floor_raw(self@),
    {
        self.integer()
    }

    /// Rounds toward zero.
    pub fn trunc(self) -> (r: Self)
        ensures
            r@ == trunc_raw(self@),
    {
        let f = self.fract();
        proof {
            lemma_trunc_raw(self@);
        }
        if f.bits != 0 && self.bits < 0 {
            let q: i64 = Self::shift_down(self.bits as i64);
            Fixed32 { bits: (q * 4096 + 4096) as i32 }
        } else {
            self.integer()
        }
    }

    /// Rounds toward positive infinity, wrapping at the top of the range.
    pub fn ceil(self) -> (r: Self)
        ensures
            r@ == ceil_raw(self@),
    {
        let f = self.fract();
        if f.bits == 0 {
            self
        } else {
            let q: i64 = Self::shift_down(self.bits as i64);
            proof {
                lemma_floor_raw_in_range(self@);
            }
            let c: i64 = q * 4096 + 4096;
            Fixed32 { bits: #[verifier::truncate] (c as i32) }
        }
    }

    /// Rounds to the nearest whole unit, halves away from zero (zero counts
    /// as positive).
    pub fn round(self) -> (r: Self)
        ensures
            r@ == round_raw(self@),
    {
        let half = if self.bits < 0 {
            Fixed32 { bits: -2048 }
        } else {
            Fixed32 { bits: 2048 }
        };
        self.const_add(half).trunc()
    }

    /// The absolute value, wrapping on the one value with no positive
    /// counterpart.
    pub fn abs(self) -> (r: Self)
        ensures
            r@ == wrap32(abs_int(self@)),
    {
        if self.bits < 0 {
            self.const_neg()
        } else {
            self
        }
    }
}

/// Raw bits of the first polynomial coefficient of the arctangent
/// approximation (0.99997726 in fixed point).
pub const ATAN_A1: i32 = 4095;

/// Raw bits of the cubic coefficient (-0.33262347).
pub const ATAN_A3: i32 = -1362;

/// Raw bits of the fifth-power coefficient (0.19354346).
pub const ATAN_A5: i32 = 792;

/// Raw bits of the seventh-power coefficient (-0.11643287).
pub const ATAN_A7: i32 = -476;

/// Raw bits of the ninth-power coefficient (0.05265332).
pub const ATAN_A9: i32 = 215;

/// Raw bits of the eleventh-power coefficient (-0.01172120).
pub const ATAN_A11: i32 = -48;

/// Raw bits of the odd-only arctangent polynomial
/// `x * (a1 + x^2 * (a3 + x^2 * (a5 + x^2 * (a7 + x^2 * (a9 + x^2 * a11)))))`
/// evaluated in fixed-point arithmetic.
pub open spec fn atan_poly_raw(x: int) -> int {
    let x2 = mul_raw(x, x);
    mul_raw(
        x,
        add_raw(
            ATAN_A1 as int,
            mul_raw(
                x2,
                add_raw(
                    ATAN_A3 as int,
                    mul_raw(
                        x2,
                        add_raw(
                            ATAN_A5 as int,
                            mul_raw(
                                x2,
                                add_raw(
                                    ATAN_A7 as int,
                                    mul_raw(
                                        x2,
                                        add_raw(ATAN_A9 as int, mul_raw(x2, ATAN_A11 as int)),
                                    ),
                                ),
                            ),
                        ),
                    ),
                ),
            ),
        ),
    )
}

/// Raw bits of the two-argument arctangent: the polynomial on the smaller
/// ratio, a quarter-turn correction when the ratio was inverted, and a
/// half-turn correction in the left half-plane.
pub open spec fn atan2_raw(y: int, x: int) -> int {
    let result = if wrap32(abs_int(y)) > wrap32(abs_int(x)) {
        let v = div_raw(x, y);
        let adjust: int = if v >= 0 {
            FRAC_PI_2_BITS as int
        } else {
            -FRAC_PI_2_BITS as int
        };
        sub_raw(adjust, atan_poly_raw(v))
    } else {
        atan_poly_raw(div_raw(y, x))
    };
    if x >= 0 {
        result
    } else if y >= 0 {
        add_raw(PI_BITS as int, result)
    } else {
        add_raw(-PI_BITS as int, result)
    }
}

/// Raw result of a fixed-point power: the value multiplied into itself `p`
/// more times (zero or negative exponents leave the value unchanged).
pub open spec fn pow_raw(a: int, p: int) -> int
    decreases p,
{
    if p <= 0 {
        a
    } else {
        mul_raw(pow_raw(a, p - 1), a)
    }
}

impl Fixed32 {
    /// The value multiplied by itself once.
    pub fn squared(self) -> (r: Self)
        ensures
            r@ == mul_raw(self@, self@),
    {
        self.const_mul(self)
    }

    /// The value multiplied into itself `pow` more times; a zero or negative
    /// exponent returns the value unchanged.
    pub fn powi(self, pow: i32) -> (r: Self)
        ensures
            r@ == pow_raw(self@, pow as int),
    {
        let mut i: i32 = 0;
        let mut result = self;
        while i < pow
            invariant
                0 <= i,
                pow > 0 ==> i <= pow,
                pow <= 0 ==> i == 0,
                result@ == pow_raw(self@, i as int),
            decreases pow - i,
        {
            result = result.const_mul(self);
            i = i + 1;
        }
        result
    }

    /// Converts degrees to radians: multiplies by pi over 180 at full 64-bit
    /// precision, truncating toward zero.
    pub fn to_radians(self) -> (r: Self)
        ensures
            r@ == wrap32(trunc_div(self@ * PI_BITS, DEG_180_BITS as int)),
    {
        let n: i64 = (self.bits as i64) * (PI_BITS as i64);
        let q: i64 = match n.checked_div(DEG_180_BITS as i64) {
            Some(q) => q,
            None => 0,
        };
        Fixed32 { bits: #[verifier::truncate] (q as i32) }
    }

    /// Converts radians to degrees: multiplies by 180 over pi at full 64-bit
    /// precision, truncating toward zero.
    pub fn to_degrees(self) -> (r: Self)
        ensures
            r@ == wrap32(trunc_div(self@ * DEG_180_BITS, PI_BITS as int)),
    {
        let n: i64 = (self.bits as i64) * (DEG_180_BITS as i64);
        let q: i64 = match n.checked_div(PI_BITS as i64) {
            Some(q) => q,
            None => 0,
        };
        Fixed32 { bits: #[verifier::truncate] (q as i32) }
    }

    /// The odd-only polynomial approximation of the arctangent, for ratios
    /// of magnitude at most one.
    fn atan_scalar_approx(x: Fixed32) -> (r: Fixed32)
        ensures
            r@ == atan_poly_raw(x@),
    {
        let x_sq = x.squared();
        x.const_mul(
            Fixed32 { bits: ATAN_A1 }.const_add(
                x_sq.const_mul(
                    Fixed32 { bits: ATAN_A3 }.const_add(
                        x_sq.const_mul(
                            Fixed32 { bits: ATAN_A5 }.const_add(
                                x_sq.const_mul(
                                    Fixed32 { bits: ATAN_A7 }.const_add(
                                        x_sq.const_mul(
                                            Fixed32 { bits: ATAN_A9 }.const_add(
                                                x_sq.const_mul(Fixed32 { bits: ATAN_A11 }),
                                            ),
                                        ),
                                    ),
                                ),
                            ),
                        ),
                    ),
                ),
            ),
        )
    }

    /// The two-argument arctangent of `y / x`, by polynomial approximation
    /// with quadrant correction.
    pub fn atan2(y: Self, x: Self) -> (r: Self)
        ensures
            r@ == atan2_raw(y@, x@),
    {
        let swap = y.abs().const_gt(x.abs());
        let result = if swap {
            let val = x.const_div(y);
            let adjust = if val.bits >= 0 {
                Self::frac_pi_2()
            } else {
                Self::frac_pi_2().const_neg()
            };
            adjust.const_sub(Self::atan_scalar_approx(val))
        } else {
            Self::atan_scalar_approx(y.const_div(x))
        };
        if x.bits >= 0 {
            result
        } else if y.bits >= 0 {
            Self::pi().const_add(result)
        } else {
            Self::pi().const_neg().const_add(result)
        }
    }

    /// The square root, exact to 1/4096 and rounded toward zero: the unique
    /// nonnegative root whose square does not exceed the scaled value.
    pub fn sqrt(self) -> (r: Self)
        requires
            self@ >= 0,
        ensures
            r@ >= 0,
            r@ * r@ <= self@ * 4096,
            self@ * 4096 < (r@ + 1) * (r@ + 1),
    {
        let v: u64 = (self.bits as u64) * 4096;
        let mut lo: u64 = 0;
        let mut hi: u64 = 4194304;
        proof {
            assert(v < 4194304u64 * 4194304u64) by (nonlinear_arith)
                requires
                    v <= 0x7fff_ffffu64 * 4096,
            ;
        }
        while hi - lo > 1
            invariant
                lo < hi <= 4194304,
                lo * lo <= v,
                v < hi * hi,
            decreases hi - lo,
        {
            let mid: u64 = lo + (hi - lo) / 2;
            proof {
                assert(mid * mid <= 4194304u64 * 4194304u64) by (nonlinear_arith)
                    requires
                        mid <= 4194304u64,
                ;
            }
            if mid * mid <= v {
                lo = mid;
            } else {
                hi = mid;
            }
        }
        proof {
            assert((lo + 1) * (lo + 1) == hi * hi || v < (lo + 1) * (lo + 1)) by (nonlinear_arith)
                requires
                    hi == lo + 1 || v < hi * hi && hi == lo + 1,
            ;
        }
        Fixed32 { bits: lo as i32 }
    }
}

impl Default for Fixed32 {
    /// The default value is zero.
    fn default() -> (r: Self)
        ensures
            r@ == 0,
    {
        Fixed32 { bits: 0 }
    }
}

/// Converting an integer in the representable whole-number range to fixed
/// point and back returns it unchanged.
pub proof fn lemma_int_round_trip(n: int)
    requires
        -524288 <= n <= 524287,
    ensures
        floor_int(from_i32_raw(n)) == n,
{
    assert(-0x8000_0000 <= n * 4096 <= 0x7fff_ffff);
    assert(n * 4096 / 4096 == n) by (nonlinear_arith);
}

/// Adding and then subtracting the same value is exact: wrapping addition
/// and subtraction cancel with no rounding, for every pair of raw values.
pub proof fn lemma_add_sub_exact(a: i32, b: i32)
    ensures
        sub_raw(add_raw(a as int, b as int), b as int) == a as int,
{
    assert(((((a + b) as i32) - b) as i32) == a) by (bit_vector);
}

/// The fixed square root is the unique nonnegative root: any value meeting
/// the square root's contract on the square of a whole number up to 724 is
/// that whole number itself.
pub proof fn lemma_sqrt_of_square(n: int, r: int)
    requires
        0 <= n <= 724,
        r >= 0,
        r * r <= mul_raw(n * 4096, n * 4096) * 4096,
        mul_raw(n * 4096, n * 4096) * 4096 < (r + 1) * (r + 1),
    ensures
        r == n * 4096,
{
    assert(n * 4096 * (n * 4096) / 4096 == 4096 * n * n) by (nonlinear_arith);
    assert(0 <= 4096 * n * n <= 4096 * 724 * 724) by (nonlinear_arith)
        requires
            0 <= n <= 724,
    ;
    assert(wrap32(4096 * n * n) == 4096 * n * n);
    assert(mul_raw(n * 4096, n * 4096) == 4096 * n * n);
    let s = n * 4096;
    assert((n * 4096) * (n * 4096) == 4096 * n * n * 4096) by (nonlinear_arith);
    assert(r * r <= s * s);
    assert(s * s < (r + 1) * (r + 1));
    assert(r * r <= s * s && s * s < (r + 1) * (r + 1) && r >= 0 && s >= 0 ==> r == s)
        by (nonlinear_arith);
}

/// On the vertical axis the arctangent is a quarter turn exactly: for every
/// nonzero `y` other than the one value with no absolute value, the
/// magnitude of `atan2(y, 0)` equals pi over two.
pub proof fn lemma_atan2_vertical(y: int)
    requires
        -0x8000_0000 < y <= 0x7fff_ffff,
        y != 0,
    ensures
        abs_int(atan2_raw(y, 0)) == FRAC_PI_2_BITS as int,
{
    assert(trunc_div(0, y) == 0);
    assert(atan_poly_raw(0) == 0);
}

/// A product of two bounded nonnegative raw values neither wraps nor
/// leaves its arithmetic bound: the fixed product is the exact scaled
/// product.
pub proof fn lemma_mul_raw_small(a: int, b: int, ca: int, cb: int)
    requires
        0 <= a <= ca,
        0 <= b <= cb,
        ca * cb <= 0x7fff_ffff * 4096,
    ensures
        mul_raw(a, b) == a * b / 4096,
        0 <= mul_raw(a, b) <= ca * cb / 4096,
{
    assert(0 <= a * b <= ca * cb) by (nonlinear_arith)
        requires
            0 <= a <= ca,
            0 <= b <= cb,
    ;
    vstd::arithmetic::div_mod::lemma_div_is_ordered(a * b, ca * cb, 4096);
    vstd::arithmetic::div_mod::lemma_div_is_ordered(0, a * b, 4096);
    assert(wrap32(a * b / 4096) == a * b / 4096);
}

/// The floored whole part of an in-range raw value is itself in range.
proof fn lemma_floor_raw_in_range(a: int)
    requires
        -0x8000_0000 <= a <= 0x7fff_ffff,
    ensures
        -0x8000_0000 <= floor_raw(a) <= a,
        a < floor_raw(a) + 4096,
{
    vstd::arithmetic::div_mod::lemma_fundamental_div_mod(a, 4096);
    vstd::arithmetic::div_mod::lemma_mod_bound(a, 4096);
    vstd::arithmetic::div_mod::lemma_div_is_ordered(-0x8000_0000, a, 4096);
}

/// Rounding toward zero agrees with the mask for nonnegative values and with
/// the mask plus one unit for negative values with fractional bits.
proof fn lemma_trunc_raw(a: int)
    requires
        -0x8000_0000 <= a <= 0x7fff_ffff,
    ensures
        a % 4096 == 0 ==> trunc_raw(a) == a,
        a >= 0 ==> trunc_raw(a) == floor_raw(a),
        a < 0 && a % 4096 != 0 ==> trunc_raw(a) == floor_raw(a) + 4096,
        -0x8000_0000 <= trunc_raw(a) <= 0x7fff_ffff,
{
    vstd::arithmetic::div_mod::lemma_fundamental_div_mod(a, 4096);
    vstd::arithmetic::div_mod::lemma_mod_bound(a, 4096);
    if a < 0 {
        let q = a / 4096;
        let r = a % 4096;
        if r == 0 {
            assert(-a == 4096 * (-q) + 0);
            vstd::arithmetic::div_mod::lemma_fundamental_div_mod_converse(-a, 4096, -q, 0);
        } else {
            assert(-a == 4096 * (-q - 1) + (4096 - r));
            vstd::arithmetic::div_mod::lemma_fundamental_div_mod_converse(
                -a,
                4096,
                -q - 1,
                4096 - r,
            );
        }
    }
    lemma_floor_raw_in_range(a);
}

} // verus!
