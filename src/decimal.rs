use vstd::prelude::*;

use vstd::arithmetic::div_mod::{lemma_fundamental_div_mod, lemma_hoist_over_denominator};

verus! {

/// Number of fractional decimal digits every `Dec` carries: enough for the
/// product of two numbers of eight fractional digits each to be exact.
pub const FRAC_DIGITS: u32 = 16;

/// `10 ^ FRAC_DIGITS`: the raw value of one unit.
pub const SCALE: i128 = 10_000_000_000_000_000;

/// Half of `SCALE`'s digits: `10 ^ (FRAC_DIGITS / 2)`.
pub const HALF_SCALE: i128 = 100_000_000;

/// The largest raw magnitude: `10 ^ 30`, that is `10 ^ 14` units.
pub const BOUND: i128 = 1_000_000_000_000_000_000_000_000_000_000;

/// Clamps a mathematical integer into `[-BOUND, BOUND]`.
pub open spec fn clamp(x: int) -> int {
    if x > BOUND {
        BOUND as int
    } else if x < -BOUND {
        -BOUND as int
    } else {
        x
    }
}

pub open spec fn abs_int(x: int) -> int {
    if x < 0 {
        -x
    } else {
        x
    }
}

/// Quotient rounded toward zero.
pub open spec fn quot(a: int, b: int) -> int
    recommends
        b != 0,
{
    if (a < 0) != (b < 0) {
        -(abs_int(a) / abs_int(b))
    } else {
        abs_int(a) / abs_int(b)
    }
}

pub open spec fn add_spec(a: int, b: int) -> int {
    clamp(clamp(a) + clamp(b))
}

pub open spec fn sub_spec(a: int, b: int) -> int {
    clamp(clamp(a) - clamp(b))
}

/// Product, exact up to `FRAC_DIGITS` fractional digits and rounded toward
/// zero beyond them.
pub open spec fn mul_spec(a: int, b: int) -> int {
    clamp(quot(clamp(a) * clamp(b), SCALE as int))
}

/// Quotient, rounded toward zero; a division by zero saturates by the sign
/// of the dividend.
pub open spec fn div_spec(a: int, b: int) -> int {
    if clamp(b) == 0 {
        if clamp(a) > 0 {
            BOUND as int
        } else if clamp(a) < 0 {
            -BOUND as int
        } else {
            0
        }
    } else {
        clamp(quot(clamp(a) * SCALE, clamp(b)))
    }
}

/// The raw value of one unit of the last of `frac_digits` digits:
/// `10 ^ (FRAC_DIGITS - frac_digits)`.
pub open spec fn digits_factor(frac_digits: u32) -> int {
    if frac_digits == 0 {
        10_000_000_000_000_000
    } else if frac_digits == 1 {
        1_000_000_000_000_000
    } else if frac_digits == 2 {
        100_000_000_000_000
    } else if frac_digits == 3 {
        10_000_000_000_000
    } else if frac_digits == 4 {
        1_000_000_000_000
    } else if frac_digits == 5 {
        100_000_000_000
    } else if frac_digits == 6 {
        10_000_000_000
    } else if frac_digits == 7 {
        1_000_000_000
    } else if frac_digits == 8 {
        100_000_000
    } else if frac_digits == 9 {
        10_000_000
    } else if frac_digits == 10 {
        1_000_000
    } else if frac_digits == 11 {
        100_000
    } else if frac_digits == 12 {
        10_000
    } else if frac_digits == 13 {
        1_000
    } else if frac_digits == 14 {
        100
    } else if frac_digits == 15 {
        10
    } else {
        1
    }
}

/// A fixed-point decimal with `FRAC_DIGITS` fractional digits.
///
/// The number stands for `raw / SCALE`. Sums and products of numbers with
/// at most eight fractional digits are exact; every operation rounds toward
/// zero beyond `FRAC_DIGITS` and saturates at `BOUND`, so that it is total.
#[derive(Clone, Copy, Debug, PartialEq, Eq, Structural, Hash, Default)]
pub struct Dec {
    pub raw: i128,
}

fn clamp_i128(x: i128) -> (r: i128)
    ensures
        r == clamp(x as int),
{
    if x > BOUND {
        BOUND
    } else if x < -BOUND {
        -BOUND
    } else {
        x
    }
}

/// `(x * k) / d` splits at the quotient and remainder of `x / d`.
proof fn lemma_scaled_div(x: int, k: int, d: int)
    requires
        x >= 0,
        k >= 0,
        d > 0,
    ensures
        (x * k) / d == (x / d) * k + ((x % d) * k) / d,
        (x % d) * k >= 0,
{
    lemma_fundamental_div_mod(x, d);
    let q = x / d;
    let r = x % d;
    assert(x * k == r * k + (q * k) * d) by (nonlinear_arith)
        requires
            x == d * q + r,
    ;
    lemma_hoist_over_denominator(r * k, q * k, d as nat);
    assert(r * k >= 0) by (nonlinear_arith)
        requires
            r >= 0,
            k >= 0,
    ;
}

/// `(a * b) / s` from the digits of `a` and `b` above and below `s`.
proof fn lemma_mul_split(a: int, b: int, s: int)
    requires
        a >= 0,
        b >= 0,
        s > 0,
    ensures
        (a * b) / s == (a / s) * (b / s) * s + (a / s) * (b % s) + (a % s) * (b / s) + ((a % s)
            * (b % s)) / s,
{
    lemma_fundamental_div_mod(a, s);
    lemma_fundamental_div_mod(b, s);
    let a1 = a / s;
    let a0 = a % s;
    let b1 = b / s;
    let b0 = b % s;
    let k = a1 * b1 * s + a1 * b0 + a0 * b1;
    assert(a * b == a0 * b0 + k * s) by (nonlinear_arith)
        requires
            a == s * a1 + a0,
            b == s * b1 + b0,
            k == a1 * b1 * s + a1 * b0 + a0 * b1,
    ;
    lemma_hoist_over_denominator(a0 * b0, k, s as nat);
}

/// Magnitude of the product of two bounded magnitudes, divided by `SCALE`
/// and saturated at `BOUND`.
fn mul_magnitude(a: u128, b: u128) -> (r: u128)
    requires
        a <= BOUND,
        b <= BOUND,
    ensures
        r == clamp((a * b) / (SCALE as int)),
{
    let s: u128 = SCALE as u128;
    let a1 = a / s;
    let a0 = a % s;
    let b1 = b / s;
    let b0 = b % s;
    proof {
        lemma_mul_split(a as int, b as int, s as int);
        assert(a1 <= 100_000_000_000_000 && b1 <= 100_000_000_000_000);
        assert(a1 * b1 <= 10_000_000_000_000_000_000_000_000_000) by (nonlinear_arith)
            requires
                a1 <= 100_000_000_000_000,
                b1 <= 100_000_000_000_000,
        ;
        assert(a1 * b0 <= 1_000_000_000_000_000_000_000_000_000_000 && a0 * b1
            <= 1_000_000_000_000_000_000_000_000_000_000 && a0 * b0
            <= 100_000_000_000_000_000_000_000_000_000_000) by (nonlinear_arith)
            requires
                a1 <= 100_000_000_000_000,
                b1 <= 100_000_000_000_000,
                a0 < 10_000_000_000_000_000,
                b0 < 10_000_000_000_000_000,
        ;
        assert((a0 * b0) / (s as int) >= 0) by (nonlinear_arith)
            requires
                a0 >= 0,
                b0 >= 0,
                s > 0,
        ;
    }
    let hi = a1 * b1;
    if hi > 100_000_000_000_000 {
        proof {
            assert(hi * s > BOUND) by (nonlinear_arith)
                requires
                    hi > 100_000_000_000_000,
                    s == 10_000_000_000_000_000,
            ;
        }
        return BOUND as u128;
    }
    proof {
        assert(hi * s <= BOUND) by (nonlinear_arith)
            requires
                hi <= 100_000_000_000_000,
                s == 10_000_000_000_000_000,
        ;
    }
    let m = hi * s + a1 * b0 + a0 * b1 + (a0 * b0) / s;
    if m > BOUND as u128 {
        BOUND as u128
    } else {
        m
    }
}

/// Magnitude of `a * SCALE / b` for bounded magnitudes, saturated at
/// `BOUND`.
fn div_magnitude(a: u128, b: u128) -> (r: u128)
    requires
        a <= BOUND,
        0 < b <= BOUND,
    ensures
        r == clamp((a * SCALE) / (b as int)),
{
    let s: u128 = SCALE as u128;
    let h: u128 = HALF_SCALE as u128;
    let q = a / b;
    let rem = a % b;
    proof {
        lemma_scaled_div(a as int, s as int, b as int);
        assert(rem * h <= 100_000_000_000_000_000_000_000_000_000_000_000_000) by (nonlinear_arith)
            requires
                rem < b,
                b <= BOUND,
                h == 100_000_000,
        ;
    }
    if q > 100_000_000_000_000 {
        proof {
            assert(q * s > BOUND) by (nonlinear_arith)
                requires
                    q > 100_000_000_000_000,
                    s == 10_000_000_000_000_000,
            ;
            assert(((rem as int) * s) / (b as int) >= 0) by (nonlinear_arith)
                requires
                    rem >= 0,
                    s > 0,
                    b > 0,
            ;
        }
        return BOUND as u128;
    }
    let x = rem * h;
    let q2 = x / b;
    let r2 = x % b;
    proof {
        assert(q * s <= BOUND) by (nonlinear_arith)
            requires
                q <= 100_000_000_000_000,
                s == 10_000_000_000_000_000,
        ;
        assert((rem as int) * s == (x as int) * h) by (nonlinear_arith)
            requires
                x == rem * h,
                s == h * h,
        ;
        lemma_scaled_div(x as int, h as int, b as int);
        assert(r2 * h <= 100_000_000_000_000_000_000_000_000_000_000_000_000) by (nonlinear_arith)
            requires
                r2 < b,
                b <= BOUND,
                h == 100_000_000,
        ;
        assert(q2 <= h) by (nonlinear_arith)
            requires
                q2 == x / b,
                x == rem * h,
                rem < b,
                b > 0,
        ;
        assert(q2 * h <= s) by (nonlinear_arith)
            requires
                q2 <= h,
                s == h * h,
        ;
        assert((r2 * h) / (b as int) <= h) by (nonlinear_arith)
            requires
                r2 < b,
                b > 0,
                h > 0,
        ;
    }
    let m = q * s + q2 * h + (r2 * h) / b;
    if m > BOUND as u128 {
        BOUND as u128
    } else {
        m
    }
}

/// A raw value brought into `[-BOUND, BOUND]`, as a magnitude and a sign.
fn split_sign(x: i128) -> (r: (u128, bool))
    ensures
        r.0 == abs_int(clamp(x as int)),
        r.1 == (x < 0),
        r.0 <= BOUND,
{
    let c = clamp_i128(x);
    if c < 0 {
        ((-c) as u128, true)
    } else {
        (c as u128, false)
    }
}

/// A product of two numbers with at most eight fractional digits each loses
/// nothing: within the bounds, `mul_spec` is the exact product.
pub proof fn lemma_mul_exact(a: int, b: int)
    requires
        -BOUND <= a <= BOUND,
        -BOUND <= b <= BOUND,
        a % (HALF_SCALE as int) == 0,
        b % (HALF_SCALE as int) == 0,
        -BOUND * SCALE <= a * b <= BOUND * SCALE,
    ensures
        mul_spec(a, b) * SCALE == a * b,
{
    let h = HALF_SCALE as int;
    lemma_fundamental_div_mod(a, h);
    lemma_fundamental_div_mod(b, h);
    let k = (a / h) * (b / h);
    assert(a * b == k * SCALE) by (nonlinear_arith)
        requires
            a == h * (a / h),
            b == h * (b / h),
            k == (a / h) * (b / h),
            SCALE == h * h,
    ;
    assert(abs_int(a * b) == abs_int(k) * SCALE) by (nonlinear_arith)
        requires
            a * b == k * SCALE,
            SCALE > 0,
    ;
    lemma_hoist_over_denominator(0, abs_int(k), SCALE as nat);
    assert(abs_int(a * b) / (SCALE as int) == abs_int(k));
    assert(-BOUND <= k <= BOUND) by (nonlinear_arith)
        requires
            a * b == k * SCALE,
            -BOUND * SCALE <= a * b <= BOUND * SCALE,
            SCALE > 0,
    ;
    assert((a * b < 0) == (k < 0)) by (nonlinear_arith)
        requires
            a * b == k * SCALE,
            SCALE > 0,
    ;
}

impl Dec {
    /// The number `mantissa * 10^-frac_digits`, saturated.
    pub fn new(mantissa: i64, frac_digits: u32) -> (r: Dec)
        requires
            frac_digits <= FRAC_DIGITS,
        ensures
            r.raw == clamp(mantissa * digits_factor(frac_digits)),
    {
        let f: i128 = if frac_digits == 0 {
            10_000_000_000_000_000
        } else if frac_digits == 1 {
            1_000_000_000_000_000
        } else if frac_digits == 2 {
            100_000_000_000_000
        } else if frac_digits == 3 {
            10_000_000_000_000
        } else if frac_digits == 4 {
            1_000_000_000_000
        } else if frac_digits == 5 {
            100_000_000_000
        } else if frac_digits == 6 {
            10_000_000_000
        } else if frac_digits == 7 {
            1_000_000_000
        } else if frac_digits == 8 {
            100_000_000
        } else if frac_digits == 9 {
            10_000_000
        } else if frac_digits == 10 {
            1_000_000
        } else if frac_digits == 11 {
            100_000
        } else if frac_digits == 12 {
            10_000
        } else if frac_digits == 13 {
            1_000
        } else if frac_digits == 14 {
            100
        } else if frac_digits == 15 {
            10
        } else {
            1
        };
        proof {
            assert(-0x8000_0000_0000_0000 * SCALE <= mantissa * f <= 0x8000_0000_0000_0000 * SCALE)
                by (nonlinear_arith)
                requires
                    1 <= f <= SCALE,
                    -0x8000_0000_0000_0000 <= mantissa < 0x8000_0000_0000_0000,
            ;
        }
        Dec { raw: clamp_i128(mantissa as i128 * f) }
    }

    /// The whole number `n`, saturated.
    pub fn from_int(n: i64) -> (r: Dec)
        ensures
            r.raw == clamp(n * SCALE),
    {
        proof {
            assert(-0x8000_0000_0000_0000 * SCALE <= n * SCALE <= 0x8000_0000_0000_0000 * SCALE)
                by (nonlinear_arith)
                requires
                    -0x8000_0000_0000_0000 <= n < 0x8000_0000_0000_0000,
            ;
        }
        Dec { raw: clamp_i128(n as i128 * SCALE) }
    }

    pub fn zero() -> (r: Dec)
        ensures
            r.raw == 0,
    {
        Dec { raw: 0 }
    }

    pub fn one() -> (r: Dec)
        ensures
            r.raw == SCALE,
    {
        Dec { raw: SCALE }
    }

    pub fn is_zero(self) -> (r: bool)
        ensures
            r == (self.raw == 0),
    {
        self.raw == 0
    }

    pub fn add(self, o: Dec) -> (r: Dec)
        ensures
            r.raw == add_spec(self.raw as int, o.raw as int),
    {
        Dec { raw: clamp_i128(clamp_i128(self.raw) + clamp_i128(o.raw)) }
    }

    pub fn sub(self, o: Dec) -> (r: Dec)
        ensures
            r.raw == sub_spec(self.raw as int, o.raw as int),
    {
        Dec { raw: clamp_i128(clamp_i128(self.raw) - clamp_i128(o.raw)) }
    }

    pub fn neg(self) -> (r: Dec)
        ensures
            r.raw == clamp(-self.raw),
    {
        Dec { raw: -clamp_i128(self.raw) }
    }

    pub fn abs(self) -> (r: Dec)
        ensures
            r.raw == clamp(abs_int(self.raw as int)),
    {
        let c = clamp_i128(self.raw);
        if c < 0 {
            Dec { raw: -c }
        } else {
            Dec { raw: c }
        }
    }

    /// Product: exact up to `FRAC_DIGITS` fractional digits, rounded toward
    /// zero beyond them.
    pub fn mul(self, o: Dec) -> (r: Dec)
        ensures
            r.raw == mul_spec(self.raw as int, o.raw as int),
    {
        let (a, an) = split_sign(self.raw);
        let (b, bn) = split_sign(o.raw);
        let m = mul_magnitude(a, b);
        proof {
            let ca = clamp(self.raw as int);
            let cb = clamp(o.raw as int);
            assert(abs_int(ca * cb) == (a as int) * (b as int)) by (nonlinear_arith)
                requires
                    a == abs_int(ca),
                    b == abs_int(cb),
            ;
            assert((ca * cb < 0) == ((a as int) * (b as int) != 0 && an != bn)) by (nonlinear_arith)
                requires
                    a == abs_int(ca),
                    b == abs_int(cb),
                    an == (self.raw < 0),
                    bn == (o.raw < 0),
                    an == (ca < 0),
                    bn == (cb < 0),
            ;
        }
        if an != bn {
            Dec { raw: -(m as i128) }
        } else {
            Dec { raw: m as i128 }
        }
    }

    /// Quotient, rounded toward zero beyond `FRAC_DIGITS` fractional digits.
    /// A division by zero saturates.
    pub fn div(self, o: Dec) -> (r: Dec)
        ensures
            r.raw == div_spec(self.raw as int, o.raw as int),
    {
        let (a, an) = split_sign(self.raw);
        let (b, bn) = split_sign(o.raw);
        if b == 0 {
            return if a == 0 {
                Dec { raw: 0 }
            } else if an {
                Dec { raw: -BOUND }
            } else {
                Dec { raw: BOUND }
            };
        }
        let m = div_magnitude(a, b);
        proof {
            let ca = clamp(self.raw as int);
            let cb = clamp(o.raw as int);
            assert(abs_int(ca * SCALE) == (a as int) * SCALE) by (nonlinear_arith)
                requires
                    a == abs_int(ca),
            ;
            assert((ca * SCALE < 0) == (a != 0 && an)) by (nonlinear_arith)
                requires
                    a == abs_int(ca),
                    an == (ca < 0),
            ;
        }
        if an != bn && a != 0 {
            Dec { raw: -(m as i128) }
        } else {
            Dec { raw: m as i128 }
        }
    }

    pub fn max(self, o: Dec) -> (r: Dec)
        ensures
            r.raw == if self.raw >= o.raw {
                self.raw
            } else {
                o.raw
            },
    {
        if self.raw >= o.raw {
            self
        } else {
            o
        }
    }

    pub fn min(self, o: Dec) -> (r: Dec)
        ensures
            r.raw == if self.raw <= o.raw {
                self.raw
            } else {
                o.raw
            },
    {
        if self.raw <= o.raw {
            self
        } else {
            o
        }
    }
}

} // verus!
