//! Scalar helpers: the lattice bound, minimum, maximum, clamping and the
//! rounded roots and quotients that the contact queries report.
use vstd::prelude::*;

verus! {

/// The world cube: every coordinate of a triangle, a capsule or a ray, and
/// of a box or a sphere that is tested against a plane, a triangle or a
/// capsule, lies in `-COORD_MAX ..= COORD_MAX`. Those queries multiply three
/// and more coordinates, and this bound keeps the products in 128 bits.
pub const COORD_MAX: i64 = 100_000;

/// The range of the lattice: every coordinate of a valid box, circle, sphere
/// or cylinder lies in `-RANGE_MAX ..= RANGE_MAX`. The queries among these
/// shapes only add coordinates and square distances, and this bound keeps the
/// sums in 64 bits and the squares in 128.
pub const RANGE_MAX: i64 = 1_073_741_824;

/// `v` is a coordinate inside the world cube.
pub open spec fn in_world(v: int) -> bool {
    -COORD_MAX <= v <= COORD_MAX
}

/// `v` is a coordinate inside the range of the lattice.
pub open spec fn in_range(v: int) -> bool {
    -RANGE_MAX <= v <= RANGE_MAX
}

pub open spec fn spec_abs(a: int) -> int {
    if a < 0 {
        -a
    } else {
        a
    }
}

pub open spec fn spec_min(a: int, b: int) -> int {
    if a < b {
        a
    } else {
        b
    }
}

pub open spec fn spec_max(a: int, b: int) -> int {
    if a > b {
        a
    } else {
        b
    }
}

pub open spec fn spec_clamp(input: int, low: int, high: int) -> int {
    if input < low {
        low
    } else if input > high {
        high
    } else {
        input
    }
}

/// `+1` for a non-negative value, `-1` for a negative one.
pub open spec fn spec_sign(a: int) -> int {
    if a < 0 {
        -1
    } else {
        1
    }
}

/// `r` is the integer part of the square root of `x`.
pub open spec fn is_floor_sqrt(x: int, r: int) -> bool {
    0 <= r && r * r <= x < (r + 1) * (r + 1)
}

/// The integer part of the square root of a non-negative `x`.
pub open spec fn floor_sqrt(x: int) -> int {
    choose|r: int| is_floor_sqrt(x, r)
}

/// The least non-negative integer whose square is at least `x`.
pub open spec fn ceil_sqrt(x: int) -> int {
    if floor_sqrt(x) * floor_sqrt(x) == x {
        floor_sqrt(x)
    } else {
        floor_sqrt(x) + 1
    }
}

/// The quotient `a / b` rounded up, for a positive divisor.
pub open spec fn ceil_div(a: int, b: int) -> int {
    if a % b == 0 {
        a / b
    } else {
        a / b + 1
    }
}

proof fn lemma_square_monotone(a: int, b: int)
    by (nonlinear_arith)
    requires
        0 <= a <= b,
    ensures
        a * a <= b * b,
{
}

/// At most one integer is the integer square root of `x`.
pub proof fn lemma_floor_sqrt_unique(x: int, a: int, b: int)
    requires
        is_floor_sqrt(x, a),
        is_floor_sqrt(x, b),
    ensures
        a == b,
{
    if a < b {
        lemma_square_monotone(a + 1, b);
    } else if b < a {
        lemma_square_monotone(b + 1, a);
    }
}

/// Whoever exhibits an integer square root of `x` knows `floor_sqrt(x)`.
pub proof fn lemma_floor_sqrt_is(x: int, r: int)
    requires
        is_floor_sqrt(x, r),
    ensures
        floor_sqrt(x) == r,
{
    lemma_floor_sqrt_unique(x, r, floor_sqrt(x));
}

/// The root of a perfect square is exact, rounded either way.
pub proof fn lemma_sqrt_of_square(r: int)
    requires
        0 <= r,
    ensures
        floor_sqrt(r * r) == r,
        ceil_sqrt(r * r) == r,
{
    assert(r * r < (r + 1) * (r + 1)) by (nonlinear_arith)
        requires
            0 <= r,
    ;
    lemma_floor_sqrt_is(r * r, r);
}

/// A product is bounded by the product of the bounds of its factors.
pub proof fn lemma_product_bound(a: int, b: int, ma: int, mb: int)
    by (nonlinear_arith)
    requires
        -ma <= a <= ma,
        -mb <= b <= mb,
    ensures
        -(ma * mb) <= a * b <= ma * mb,
{
}

/// A square is not negative and is bounded by the square of the bound.
pub proof fn lemma_square_bound(a: int, m: int)
    by (nonlinear_arith)
    requires
        -m <= a <= m,
    ensures
        0 <= a * a <= m * m,
{
}

/// A rounded-up root of a value below a square stays below the root of that
/// square.
pub proof fn lemma_root_below(x: int, root: int, bound: int)
    by (nonlinear_arith)
    requires
        0 <= bound,
        0 <= root,
        0 <= x <= bound * bound,
        root > 0 ==> (root - 1) * (root - 1) < x,
    ensures
        root <= bound,
{
}

/// A ratio whose numerator is at most `bound` times its denominator is at
/// most `bound`, rounded either way.
pub proof fn lemma_ratio_below(a: int, b: int, bound: int)
    requires
        0 <= a <= bound * b,
        b > 0,
    ensures
        0 <= a / b <= bound,
        0 <= ceil_div(a, b) <= bound,
{
    vstd::arithmetic::div_mod::lemma_fundamental_div_mod(a, b);
    let q = a / b;
    let r = a % b;
    assert(0 <= q && q <= bound && (r != 0 ==> q + 1 <= bound)) by (nonlinear_arith)
        requires
            a == b * q + r,
            0 <= r < b,
            0 <= a <= bound * b,
            b > 0,
    ;
}

/// The integer root of a value below a square stays below the root of that
/// square.
pub proof fn lemma_floor_root_below(x: int, root: int, bound: int)
    by (nonlinear_arith)
    requires
        0 <= bound,
        0 <= root,
        root * root <= x <= bound * bound,
    ensures
        root <= bound,
{
}

/// A quotient by a positive divisor is no larger in magnitude than the
/// dividend.
pub proof fn lemma_quotient_bound(a: int, b: int, m: int)
    requires
        b > 0,
        -m <= a <= m,
    ensures
        -m <= a / b <= m,
{
    vstd::arithmetic::div_mod::lemma_fundamental_div_mod(a, b);
    let q = a / b;
    let r = a % b;
    assert(-m <= q <= m) by (nonlinear_arith)
        requires
            a == b * q + r,
            0 <= r < b,
            b > 0,
            -m <= a <= m,
    ;
}

/// The product of two 64-bit scalars, which always fits in 128 bits.
pub fn wide_mul(a: i64, b: i64) -> (r: i128)
    ensures
        r == a * b,
        -0x4000_0000_0000_0000_0000_0000_0000_0000 <= r <= 0x4000_0000_0000_0000_0000_0000_0000_0000,
{
    proof {
        lemma_product_bound(
            a as int,
            b as int,
            0x8000_0000_0000_0000,
            0x8000_0000_0000_0000,
        );
    }
    (a as i128) * (b as i128)
}

/// The smaller of two scalars; the second one where they are equal.
pub fn n_min(a: i64, b: i64) -> (r: i64)
    ensures
        r == spec_min(a as int, b as int),
{
    if a < b {
        a
    } else {
        b
    }
}

/// The larger of two scalars; the second one where they are equal.
pub fn n_max(a: i64, b: i64) -> (r: i64)
    ensures
        r == spec_max(a as int, b as int),
{
    if a > b {
        a
    } else {
        b
    }
}

/// On the lattice the smallest positive length is one unit, so a scalar is
/// negligible exactly when it is zero.
pub fn is_zero(a: i64) -> (r: bool)
    ensures
        r == (a == 0),
{
    a == 0
}

/// Absolute value through `num_traits::abs`, which for `i64` negates a
/// negative value and returns any other unchanged. The most negative value
/// has no absolute value and is excluded.
#[verifier::external_body]
pub(crate) fn n_abs(a: i64) -> (r: i64)
    requires
        a > i64::MIN,
    ensures
        r == spec_abs(a as int),
{
    num_traits::abs(a)
}

/// Clamping through `num_traits::clamp`: the lower bound where `input` is
/// below it, the upper bound where `input` is above it, otherwise `input`.
/// The outside function rejects bounds in the wrong order.
#[verifier::external_body]
pub(crate) fn n_clamp(input: i64, low: i64, high: i64) -> (r: i64)
    requires
        low <= high,
    ensures
        r == spec_clamp(input as int, low as int, high as int),
{
    num_traits::clamp(input, low, high)
}

/// Half of `v`, rounded toward negative infinity.
pub fn half_floor(v: i64) -> (r: i64)
    ensures
        r == v as int / 2,
{
    if v >= 0 {
        v / 2
    } else if v % 2 == 0 {
        -((-(v + 2)) / 2) - 1
    } else {
        -((-(v + 1)) / 2) - 1
    }
}

/// The largest `i64`, through `num_traits::Bounded::max_value`.
#[verifier::external_body]
pub(crate) fn n_max_value() -> (r: i64)
    ensures
        r == i64::MAX,
{
    num_traits::Bounded::max_value()
}

/// The smallest `i64`, through `num_traits::Bounded::min_value`.
#[verifier::external_body]
pub(crate) fn n_min_value() -> (r: i64)
    ensures
        r == i64::MIN,
{
    num_traits::Bounded::min_value()
}

/// The integer part of the square root of `x`.
pub fn isqrt(x: i128) -> (r: i128)
    requires
        0 <= x,
    ensures
        r == floor_sqrt(x as int),
        is_floor_sqrt(x as int, r as int),
        r < 0x1_0000_0000_0000_0000,
{
    let target: u128 = x as u128;
    let mut low: u128 = 0;
    let mut high: u128 = 0x1_0000_0000_0000_0000;
    assert(high * high > target) by (nonlinear_arith)
        requires
            high == 0x1_0000_0000_0000_0000,
            target < 0x8000_0000_0000_0000_0000_0000_0000_0000,
    ;
    while high - low > 1
        invariant
            low < high <= 0x1_0000_0000_0000_0000,
            low * low <= target,
            target < high * high,
        decreases high - low,
    {
        let mid: u128 = low + (high - low) / 2;
        assert(mid * mid <= 0xffff_ffff_ffff_ffff_ffff_ffff_ffff_ffff) by (nonlinear_arith)
            requires
                mid < 0x1_0000_0000_0000_0000,
        ;
        if mid * mid <= target {
            low = mid;
        } else {
            high = mid;
        }
    }
    proof {
        lemma_floor_sqrt_is(x as int, low as int);
    }
    low as i128
}

/// The least non-negative integer whose square is at least `x`.
pub fn isqrt_ceil(x: i128) -> (r: i128)
    requires
        0 <= x,
    ensures
        r == ceil_sqrt(x as int),
        0 <= r <= 0x1_0000_0000_0000_0000,
        r * r >= x,
        r > 0 ==> (r - 1) * (r - 1) < x,
{
    let root: i128 = isqrt(x);
    assert(root * root <= 0xffff_ffff_ffff_ffff_ffff_ffff_ffff_ffff) by (nonlinear_arith)
        requires
            0 <= root < 0x1_0000_0000_0000_0000,
    ;
    if root * root == x {
        assert(root > 0 ==> (root - 1) * (root - 1) < root * root) by (nonlinear_arith);
        root
    } else {
        root + 1
    }
}

/// A non-negative length that is scaled by the root of `nn`, brought back
/// to lattice units and rounded down: `scaled / sqrt(nn)`.
pub fn scaled_down(scaled: i64, nn: i128) -> (r: i64)
    requires
        0 <= scaled,
        nn > 0,
    ensures
        r == floor_sqrt((scaled * scaled) / (nn as int)),
        0 <= r <= scaled,
        nn == 1 ==> r == scaled,
        r >= 1 <==> scaled * scaled >= nn,
{
    let square: i128 = wide_mul(scaled, scaled);
    proof {
        lemma_square_bound(scaled as int, i64::MAX as int);
        lemma_quotient_bound(square as int, nn as int, square as int);
        vstd::arithmetic::div_mod::lemma_div_pos_is_pos(square as int, nn as int);
    }
    let root: i128 = isqrt(div_floor(square, nn));
    proof {
        lemma_floor_root_below((square / nn) as int, root as int, scaled as int);
        if nn == 1 {
            lemma_sqrt_of_square(scaled as int);
            assert((square as int) / 1 == square);
        }
        lemma_whole_quotient(square as int, nn as int);
        assert(root >= 1 <==> square / nn >= 1) by (nonlinear_arith)
            requires
                0 <= root,
                root * root <= square / nn < (root + 1) * (root + 1),
        ;
    }
    root as i64
}

/// A quotient by a positive divisor is at least one exactly when the
/// dividend is at least the divisor.
pub proof fn lemma_whole_quotient(a: int, b: int)
    requires
        0 <= a,
        b > 0,
    ensures
        a / b >= 1 <==> a >= b,
{
    vstd::arithmetic::div_mod::lemma_fundamental_div_mod(a, b);
    let q = a / b;
    let r = a % b;
    assert(q >= 1 <==> a >= b) by (nonlinear_arith)
        requires
            a == b * q + r,
            0 <= r < b,
            0 <= a,
            b > 0,
    ;
}

/// The quotient of `a` by a positive `b`, rounded toward negative infinity.
pub fn div_floor(a: i128, b: i128) -> (r: i128)
    requires
        b > 0,
        a > i128::MIN,
    ensures
        r == a as int / b as int,
{
    if a >= 0 {
        a / b
    } else {
        let n: i128 = -a;
        let q: i128 = n / b;
        let m: i128 = n % b;
        proof {
            vstd::arithmetic::div_mod::lemma_fundamental_div_mod(n as int, b as int);
            assert(a == (-(q as int)) * b - m && a == (-(q as int) - 1) * b + (b - m))
                by (nonlinear_arith)
                requires
                    n == b * q + m,
                    a == -n,
            ;
            if m == 0 {
                vstd::arithmetic::div_mod::lemma_fundamental_div_mod_converse(
                    a as int,
                    b as int,
                    -(q as int),
                    0,
                );
            } else {
                vstd::arithmetic::div_mod::lemma_fundamental_div_mod_converse(
                    a as int,
                    b as int,
                    -(q as int) - 1,
                    b as int - m as int,
                );
            }
        }
        if m == 0 {
            -q
        } else {
            -q - 1
        }
    }
}

/// The quotient of a non-negative `a` by a positive `b`, rounded up.
pub fn div_ceil(a: i128, b: i128) -> (r: i128)
    requires
        a >= 0,
        b > 0,
    ensures
        r == ceil_div(a as int, b as int),
        0 <= r <= a,
{
    let q: i128 = a / b;
    proof {
        vstd::arithmetic::div_mod::lemma_fundamental_div_mod(a as int, b as int);
        assert(q <= a && (a % b != 0 ==> q < a)) by (nonlinear_arith)
            requires
                a == b * q + a % b,
                0 <= a % b < b,
                0 <= q,
                0 <= a,
                0 < b,
        ;
    }
    if a % b == 0 {
        q
    } else {
        q + 1
    }
}

} // verus!
