//! Interpolation of per-vertex data over a primitive.

use vstd::prelude::*;

use super::Scalar;

verus! {

/// The largest sum of weights that an interpolation is asked to handle.
pub const WEIGHT_LIMIT: i128 = 0x4_0000_0000_0000_0000;

/// The weights of the three vertices of a triangle at a point inside it.
///
/// The weights are the numerators of the barycentric coordinates of the
/// point over their sum: the point is `(u * a + v * b + w * c) / (u + v + w)`.
#[derive(Debug, Clone, Copy, PartialEq, Eq, Structural, Hash)]
pub struct Barycentric {
    /// The weight of the first vertex.
    pub u: i128,
    /// The weight of the second vertex.
    pub v: i128,
    /// The weight of the third vertex.
    pub w: i128,
}

impl Barycentric {
    /// The weights are not negative and their sum is positive and within the limit.
    pub open spec fn wf(self) -> bool {
        &&& 0 <= self.u
        &&& 0 <= self.v
        &&& 0 <= self.w
        &&& 0 < self.u + self.v + self.w <= WEIGHT_LIMIT
    }

    /// The sum of the weights.
    pub open spec fn total(self) -> int {
        self.u + self.v + self.w
    }
}

/// A position along a line: `numerator / denominator` of the way from its
/// start to its end.
#[derive(Debug, Clone, Copy, PartialEq, Eq, Structural, Hash)]
pub struct Fraction {
    /// How many steps from the start the position lies.
    pub numerator: i64,
    /// How many steps the line has; not zero.
    pub denominator: i64,
}

impl Fraction {
    /// The fraction lies between zero and one.
    pub open spec fn wf(self) -> bool {
        0 <= self.numerator <= self.denominator && 0 < self.denominator
    }
}

/// The weighted mean of three numbers, rounded down.
pub open spec fn weighted_mean(weights: Barycentric, a: int, b: int, c: int) -> int {
    (weights.u * a + weights.v * b + weights.w * c) / weights.total()
}

/// The number at the position `t` between `a` and `b`, rounded down.
pub open spec fn between(t: Fraction, a: int, b: int) -> int {
    ((t.denominator - t.numerator) * a + t.numerator * b) / (t.denominator as int)
}

/// Data that can be interpolated over a triangle and along a line.
pub trait Interpolate: Sized {
    /// The data at the point of a triangle with the given weights.
    spec fn spec_barycentric(weights: Barycentric, a: Self, b: Self, c: Self) -> Self;

    /// The data at the position `t` of a line.
    spec fn spec_linear(t: Fraction, a: Self, b: Self) -> Self;

    /// Interpolates the data of the three vertices of a triangle.
    fn barycentric_interpolate(weights: &Barycentric, a: &Self, b: &Self, c: &Self) -> (r: Self)
        requires
            weights.wf(),
        ensures
            r == Self::spec_barycentric(*weights, *a, *b, *c),
    ;

    /// Interpolates the data of the two ends of a line.
    fn linear_interpolate(t: &Fraction, a: &Self, b: &Self) -> (r: Self)
        requires
            t.wf(),
        ensures
            r == Self::spec_linear(*t, *a, *b),
    ;
}

impl Interpolate for () {
    open spec fn spec_barycentric(weights: Barycentric, a: (), b: (), c: ()) -> () {
        ()
    }

    open spec fn spec_linear(t: Fraction, a: (), b: ()) -> () {
        ()
    }

    #[inline(always)]
    fn barycentric_interpolate(_weights: &Barycentric, _a: &(), _b: &(), _c: &()) -> () {
        ()
    }

    #[inline(always)]
    fn linear_interpolate(_t: &Fraction, _a: &(), _b: &()) -> () {
        ()
    }
}

/// Data in two parts is interpolated part by part.
impl<A: Interpolate, B: Interpolate> Interpolate for (A, B) {
    open spec fn spec_barycentric(weights: Barycentric, a: (A, B), b: (A, B), c: (A, B)) -> (A, B) {
        (A::spec_barycentric(weights, a.0, b.0, c.0), B::spec_barycentric(weights, a.1, b.1, c.1))
    }

    open spec fn spec_linear(t: Fraction, a: (A, B), b: (A, B)) -> (A, B) {
        (A::spec_linear(t, a.0, b.0), B::spec_linear(t, a.1, b.1))
    }

    fn barycentric_interpolate(weights: &Barycentric, a: &(A, B), b: &(A, B), c: &(A, B)) -> (A, B) {
        (
            A::barycentric_interpolate(weights, &a.0, &b.0, &c.0),
            B::barycentric_interpolate(weights, &a.1, &b.1, &c.1),
        )
    }

    fn linear_interpolate(t: &Fraction, a: &(A, B), b: &(A, B)) -> (A, B) {
        (A::linear_interpolate(t, &a.0, &b.0), B::linear_interpolate(t, &a.1, &b.1))
    }
}

/// A weighted sum of three numbers lies between the smallest and the
/// largest of them, each taken as often as the weights sum up to.
pub proof fn lemma_weighted_sum_bounds(u: int, v: int, w: int, a: int, b: int, c: int, low: int, high: int)
    requires
        0 <= u,
        0 <= v,
        0 <= w,
        low <= a <= high,
        low <= b <= high,
        low <= c <= high,
    ensures
        (u + v + w) * low <= u * a + v * b + w * c <= (u + v + w) * high,
{
    assert(u * low <= u * a <= u * high) by (nonlinear_arith)
        requires
            0 <= u,
            low <= a <= high,
    ;
    assert(v * low <= v * b <= v * high) by (nonlinear_arith)
        requires
            0 <= v,
            low <= b <= high,
    ;
    assert(w * low <= w * c <= w * high) by (nonlinear_arith)
        requires
            0 <= w,
            low <= c <= high,
    ;
    assert((u + v + w) * low == u * low + v * low + w * low) by (nonlinear_arith);
    assert((u + v + w) * high == u * high + v * high + w * high) by (nonlinear_arith);
}

/// A number between two multiples of a positive divisor has its quotient
/// between the two factors.
pub proof fn lemma_quotient_bounds(n: int, d: int, low: int, high: int)
    requires
        0 < d,
        d * low <= n <= d * high,
    ensures
        low <= n / d <= high,
{
    vstd::arithmetic::div_mod::lemma_fundamental_div_mod(n, d);
    vstd::arithmetic::div_mod::lemma_mod_bound(n, d);
    let q = n / d;
    assert(low <= q) by (nonlinear_arith)
        requires
            0 < d,
            d * low <= d * q + n % d,
            n % d < d,
    ;
    assert(q <= high) by (nonlinear_arith)
        requires
            0 < d,
            d * q + n % d <= d * high,
            0 <= n % d,
    ;
}

/// The weighted mean of three numbers lies between the smallest and the
/// largest of them.
pub proof fn lemma_weighted_mean_bounds(weights: Barycentric, a: int, b: int, c: int, low: int, high: int)
    requires
        weights.wf(),
        low <= a <= high,
        low <= b <= high,
        low <= c <= high,
    ensures
        low <= weighted_mean(weights, a, b, c) <= high,
{
    lemma_weighted_sum_bounds(weights.u as int, weights.v as int, weights.w as int, a, b, c, low, high);
    lemma_quotient_bounds(weights.u * a + weights.v * b + weights.w * c, weights.total(), low, high);
}

/// The number at a position between two numbers lies between the two.
pub proof fn lemma_between_bounds(t: Fraction, a: int, b: int, low: int, high: int)
    requires
        t.wf(),
        low <= a <= high,
        low <= b <= high,
    ensures
        low <= between(t, a, b) <= high,
{
    lemma_weighted_sum_bounds(t.denominator - t.numerator, t.numerator as int, 0, a, b, a, low, high);
    assert(0 * a == 0);
    assert(((t.denominator - t.numerator) + t.numerator + 0) == t.denominator);
    lemma_quotient_bounds(
        (t.denominator - t.numerator) * a + t.numerator * b,
        t.denominator as int,
        low,
        high,
    );
}

/// The quotient of `n` by the positive `d`, rounded down.
pub fn floor_div(n: i128, d: i128) -> (q: i128)
    requires
        0 < d,
        i128::MIN < n,
        d <= i128::MAX / 2,
        n >= -(i128::MAX / 2),
    ensures
        q == n as int / d as int,
{
    if n >= 0 {
        n / d
    } else {
        let m: i128 = -n;
        let up: i128 = (m + (d - 1)) / d;
        proof {
            lemma_floor_of_negative(n as int, d as int);
        }
        -up
    }
}

/// Rounding down the quotient of a negative number is rounding up the
/// quotient of its absolute value.
proof fn lemma_floor_of_negative(n: int, d: int)
    requires
        n < 0,
        0 < d,
    ensures
        n / d == -((-n + (d - 1)) / d),
{
    let m = -n;
    let up = (m + (d - 1)) / d;
    vstd::arithmetic::div_mod::lemma_fundamental_div_mod(m + (d - 1), d);
    vstd::arithmetic::div_mod::lemma_mod_bound(m + (d - 1), d);
    let r = (m + (d - 1)) % d;
    // m + d - 1 == d * up + r, so n == d * (-up) + (d - 1 - r) with 0 <= d - 1 - r < d.
    assert(n == (-up) * d + (d - 1 - r)) by (nonlinear_arith)
        requires
            m + (d - 1) == d * up + r,
            m == -n,
    ;
    vstd::arithmetic::div_mod::lemma_fundamental_div_mod_converse(n, d, -up, d - 1 - r);
}

impl Interpolate for Scalar {
    open spec fn spec_barycentric(weights: Barycentric, a: Scalar, b: Scalar, c: Scalar) -> Scalar {
        weighted_mean(weights, a as int, b as int, c as int) as Scalar
    }

    open spec fn spec_linear(t: Fraction, a: Scalar, b: Scalar) -> Scalar {
        between(t, a as int, b as int) as Scalar
    }

    fn barycentric_interpolate(weights: &Barycentric, a: &Scalar, b: &Scalar, c: &Scalar) -> Scalar {
        proof {
            lemma_weighted_sum_bounds(
                weights.u as int,
                weights.v as int,
                weights.w as int,
                *a as int,
                *b as int,
                *c as int,
                i32::MIN as int,
                i32::MAX as int,
            );
            lemma_weighted_mean_bounds(*weights, *a as int, *b as int, *c as int, i32::MIN as int, i32::MAX as int);
            lemma_term_bounds(weights.u as int, *a as int);
            lemma_term_bounds(weights.v as int, *b as int);
            lemma_term_bounds(weights.w as int, *c as int);
        }
        let total: i128 = weights.u + weights.v + weights.w;
        let sum: i128 = weights.u * (*a as i128) + weights.v * (*b as i128) + weights.w * (*c as i128);
        floor_div(sum, total) as Scalar
    }

    fn linear_interpolate(t: &Fraction, a: &Scalar, b: &Scalar) -> Scalar {
        proof {
            lemma_between_bounds(*t, *a as int, *b as int, i32::MIN as int, i32::MAX as int);
            lemma_term_bounds(t.denominator - t.numerator, *a as int);
            lemma_term_bounds(t.numerator as int, *b as int);
        }
        let rest: i128 = (t.denominator - t.numerator) as i128;
        let sum: i128 = rest * (*a as i128) + (t.numerator as i128) * (*b as i128);
        floor_div(sum, t.denominator as i128) as Scalar
    }
}

/// The product of a weight within the limit and a scalar is small.
proof fn lemma_term_bounds(weight: int, value: int)
    requires
        0 <= weight <= WEIGHT_LIMIT,
        i32::MIN <= value <= i32::MAX,
    ensures
        -0x2_0000_0000_0000_0000_0000_0000 <= weight * value <= 0x2_0000_0000_0000_0000_0000_0000,
{
    assert(-0x2_0000_0000_0000_0000_0000_0000 <= weight * value <= 0x2_0000_0000_0000_0000_0000_0000)
        by (nonlinear_arith)
        requires
            0 <= weight <= 0x4_0000_0000_0000_0000,
            -0x8000_0000 <= value <= 0x7fff_ffff,
    ;
}

} // verus!
