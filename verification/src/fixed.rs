//! Integer arithmetic behind the fixed-point coordinates.
//!
//! Every coordinate of the crate is a 64-bit integer. Sums, differences and
//! products are computed exactly in 128 bits and then brought back into the
//! 64-bit range by saturation; quotients round towards negative infinity.

use vstd::arithmetic::power2::{
    lemma2_to64, lemma2_to64_rest, lemma_pow2_strictly_increases, lemma_pow2_unfold, pow2,
};
use vstd::prelude::*;

verus! {

/// The number of sub-pixel units in one screen pixel.
pub const PIXEL_UNIT: i64 = 0x1_0000_0000;

/// `v` brought into the range of `i64`: values beyond either end stop at that end.
pub open spec fn saturated(v: int) -> i64 {
    if v < i64::MIN {
        i64::MIN
    } else if v > i64::MAX {
        i64::MAX
    } else {
        v as i64
    }
}

/// `v` brought into the range of `i64`.
pub fn saturate(v: i128) -> (r: i64)
    ensures
        r == saturated(v as int),
{
    if v < i64::MIN as i128 {
        i64::MIN
    } else if v > i64::MAX as i128 {
        i64::MAX
    } else {
        v as i64
    }
}

/// The sum of two values, stopping at either end of the range.
pub fn saturating_sum(a: i64, b: i64) -> (r: i64)
    ensures
        r == saturated(a + b),
{
    saturate(a as i128 + b as i128)
}

/// The difference of two values, stopping at either end of the range.
pub fn saturating_difference(a: i64, b: i64) -> (r: i64)
    ensures
        r == saturated(a - b),
{
    saturate(a as i128 - b as i128)
}

/// The opposite of a value; that of the least value is the greatest.
pub fn saturating_negation(a: i64) -> (r: i64)
    ensures
        r == saturated(-a),
{
    saturate(-(a as i128))
}

/// The product of two values, stopping at either end of the range.
pub fn saturating_product(a: i64, b: i64) -> (r: i64)
    ensures
        r == saturated(a * b),
{
    saturate(wide_product(a, b))
}

/// The exact product of two 64-bit values.
pub fn wide_product(a: i64, b: i64) -> (r: i128)
    ensures
        r == a * b,
        -0x4000_0000_0000_0000_0000_0000_0000_0000 <= r <= 0x4000_0000_0000_0000_0000_0000_0000_0000,
{
    proof {
        lemma_product_bounds(a as int, b as int, 0x8000_0000_0000_0000);
    }
    (a as i128) * (b as i128)
}

/// The quotient of `a` by a positive `b`, rounded towards negative infinity.
pub fn floor_div(a: i128, b: i128) -> (q: i128)
    requires
        b > 0,
        a > i128::MIN,
    ensures
        q == a / b,
{
    if a >= 0 {
        a / b
    } else {
        let n: i128 = -a;
        let t: i128 = (n - 1) / b;
        proof {
            lemma_floor_of_negative(n as int, b as int);
        }
        -t - 1
    }
}

/// Two to the power `e`.
pub fn power_of_two(e: u8) -> (r: u64)
    requires
        e <= 62,
    ensures
        r == pow2(e as nat),
{
    let mut r: u64 = 1;
    let mut i: u8 = 0;
    proof {
        lemma2_to64();
    }
    while i < e
        invariant
            i <= e <= 62,
            r == pow2(i as nat),
        decreases e - i,
    {
        proof {
            lemma_pow2_unfold((i + 1) as nat);
            lemma_pow2_strictly_increases((i + 1) as nat, 63);
            lemma2_to64_rest();
        }
        r = r * 2;
        i = i + 1;
    }
    r
}

/// A product is bounded by the product of the bounds of its factors.
pub proof fn lemma_product_bounds(a: int, b: int, m: int)
    by (nonlinear_arith)
    requires
        -m <= a <= m,
        -m <= b <= m,
    ensures
        -(m * m) <= a * b <= m * m,
{
}

/// Flooring a negative dividend, stated over the positive dividend `n - 1`.
pub proof fn lemma_floor_of_negative(n: int, d: int)
    requires
        n > 0,
        d > 0,
    ensures
        (-n) / d == -((n - 1) / d) - 1,
{
    let q = (n - 1) / d;
    let r = (n - 1) % d;
    vstd::arithmetic::div_mod::lemma_fundamental_div_mod(n - 1, d);
    vstd::arithmetic::div_mod::lemma_mod_pos_bound(n - 1, d);
    assert(-n == d * (-q - 1) + (d - 1 - r)) by (nonlinear_arith)
        requires
            n - 1 == d * q + r,
    ;
    vstd::arithmetic::div_mod::lemma_fundamental_div_mod_converse(-n, d, -q - 1, d - 1 - r);
}

/// Adding a multiple of the divisor to the dividend adds the multiplier to the quotient.
pub proof fn lemma_div_plus_multiple(a: int, b: int, d: int)
    requires
        d > 0,
    ensures
        (a * d + b) / d == a + b / d,
        (b + a * d) / d == a + b / d,
{
    let q = b / d;
    let r = b % d;
    vstd::arithmetic::div_mod::lemma_fundamental_div_mod(b, d);
    vstd::arithmetic::div_mod::lemma_mod_bound(b, d);
    assert(a * d + b == d * (a + q) + r) by (nonlinear_arith)
        requires
            b == d * q + r,
    ;
    vstd::arithmetic::div_mod::lemma_fundamental_div_mod_converse(a * d + b, d, a + q, r);
}

/// Dividing a multiple of the divisor gives back the multiplier.
pub proof fn lemma_div_of_multiple(a: int, d: int)
    requires
        d > 0,
    ensures
        (a * d) / d == a,
{
    lemma_div_plus_multiple(a, 0, d);
    assert(0int / d == 0) by (nonlinear_arith)
        requires
            d > 0,
    ;
}

/// A quotient by a positive divisor lies within one divisor of the dividend.
pub proof fn lemma_floor_bounds(b: int, d: int)
    requires
        d > 0,
    ensures
        (b / d) * d <= b < (b / d) * d + d,
{
    vstd::arithmetic::div_mod::lemma_fundamental_div_mod(b, d);
    vstd::arithmetic::div_mod::lemma_mod_bound(b, d);
    assert(d * (b / d) == (b / d) * d) by (nonlinear_arith);
}

/// A multiple of the divisor, negated, is a multiple still, and dividing and
/// multiplying a multiple gives it back.
pub proof fn lemma_multiples(v: int, d: int)
    requires
        d > 0,
        v % d == 0,
    ensures
        (v / d) * d == v,
        ((-v) / d) * d == -v,
{
    let k = v / d;
    vstd::arithmetic::div_mod::lemma_fundamental_div_mod(v, d);
    assert(d * k == k * d && (-k) * d == -(k * d)) by (nonlinear_arith);
    lemma_div_plus_multiple(-k, 0, d);
    assert(0int / d == 0) by (nonlinear_arith)
        requires
            d > 0,
    ;
}

/// A quotient by a divisor of at least one is no larger in size than the dividend.
pub proof fn lemma_quotient_fits(a: int, d: int)
    requires
        d >= 1,
        i64::MIN <= a <= i64::MAX,
    ensures
        i64::MIN <= a / d <= i64::MAX,
{
    lemma_floor_bounds(a, d);
    let q = a / d;
    assert(i64::MIN <= q <= i64::MAX) by (nonlinear_arith)
        requires
            q * d <= a < q * d + d,
            d >= 1,
            i64::MIN <= a <= i64::MAX,
    ;
}

/// The arithmetic of zooming about a point, along one axis. A centre `c` and
/// an offset `o` in sub-pixel units determine the place `(c * s + o) / s` at
/// that offset from the centre at scale `s`. Seen from the centre, that place
/// lies within one map unit below `o`; and once the centre is moved to where
/// the place minus `o` is at scale `s2`, it lies within one map unit above
/// `o`. Where `o` is a whole number of map units, it lies at `o` exactly.
pub proof fn lemma_zoom_about(c: int, o: int, s: int, s2: int)
    requires
        s > 0,
        s2 > 0,
    ensures
        ({
            let place = (c * s + o) / s;
            let recentred = (place * s2 - o) / s2;
            &&& place == c + o / s
            &&& recentred == place + (-o) / s2
            &&& o - s < place * s - c * s <= o
            &&& o <= place * s2 - recentred * s2 < o + s2
            &&& o % s == 0 ==> place * s - c * s == o
            &&& o % s2 == 0 ==> place * s2 - recentred * s2 == o
        }),
{
    let place = (c * s + o) / s;
    let recentred = (place * s2 - o) / s2;
    lemma_div_plus_multiple(c, o, s);
    lemma_div_plus_multiple(place, -o, s2);
    lemma_floor_bounds(o, s);
    lemma_floor_bounds(-o, s2);
    assert((c + o / s) * s == c * s + (o / s) * s) by (nonlinear_arith);
    assert((place + (-o) / s2) * s2 == place * s2 + ((-o) / s2) * s2) by (nonlinear_arith);
    if o % s == 0 {
        lemma_multiples(o, s);
    }
    if o % s2 == 0 {
        lemma_multiples(o, s2);
    }
}

/// The opposite of a multiple of the divisor is a multiple of it.
pub proof fn lemma_opposite_multiple(v: int, d: int)
    requires
        d > 0,
        v % d == 0,
    ensures
        (-v) % d == 0,
{
    lemma_multiples(v, d);
    vstd::arithmetic::div_mod::lemma_fundamental_div_mod(-v, d);
    assert(d * ((-v) / d) == ((-v) / d) * d) by (nonlinear_arith);
}

/// The arithmetic of shifting a centre, along one axis. Taking `d` sub-pixel
/// units more off a position projected to `a` moves the map unit it falls in
/// by less than one map unit from `d`, and by `d` exactly where `d` is a whole
/// number of map units.
pub proof fn lemma_shifted_quotient(a: int, d: int, s: int)
    requires
        s > 0,
    ensures
        -s < (a / s) * s - ((a - d) / s) * s - d < s,
        d % s == 0 ==> ((a - d) / s) * s == (a / s) * s - d,
{
    lemma_floor_bounds(a, s);
    lemma_floor_bounds(a - d, s);
    if d % s == 0 {
        lemma_multiples(d, s);
        lemma_div_plus_multiple(-(d / s), a, s);
        assert((-(d / s)) * s == -((d / s) * s)) by (nonlinear_arith);
        assert((a / s - d / s) * s == (a / s) * s - (d / s) * s) by (nonlinear_arith);
    }
}

} // verus!
