use vstd::prelude::*;

verus! {

/// Number of fixed-point steps in one unit: every reading, range bound and
/// canvas coordinate of this crate is an integer count of thousandths.
pub const SCALE: i64 = 1000;

/// Quotient of `a` by a positive `b`, rounded towards negative infinity.
pub open spec fn floor_div(a: int, b: int) -> int
    recommends
        b > 0,
{
    a / b
}

/// Quotient of `a` by a positive `b`, rounded towards positive infinity.
pub open spec fn ceil_div(a: int, b: int) -> int
    recommends
        b > 0,
{
    -floor_div(-a, b)
}

/// Distance between two integers.
pub open spec fn distance(a: int, b: int) -> int {
    if a >= b {
        a - b
    } else {
        b - a
    }
}

/// Floor division on machine integers.
pub fn div_floor(a: i128, b: i128) -> (q: i128)
    requires
        b > 0,
        a > i128::MIN,
    ensures
        q == floor_div(a as int, b as int),
{
    if a >= 0 {
        a / b
    } else {
        let n: i128 = -a;
        let up: i128 = (n - 1) / b;
        proof {
            let k = (n - 1) as int / b as int;
            let r = (n - 1) as int % b as int;
            vstd::arithmetic::div_mod::lemma_fundamental_div_mod((n - 1) as int, b as int);
            vstd::arithmetic::div_mod::lemma_mod_bound((n - 1) as int, b as int);
            vstd::arithmetic::div_mod::lemma_div_pos_is_pos((n - 1) as int, b as int);
            assert(a as int == b as int * (-k - 1) + (b as int - 1 - r)) by (nonlinear_arith)
                requires
                    (n - 1) as int == b as int * k + r,
                    a as int == -(n as int),
            ;
            vstd::arithmetic::div_mod::lemma_fundamental_div_mod_converse(
                a as int,
                b as int,
                -k - 1,
                b as int - 1 - r,
            );
            assert(k <= n - 1) by (nonlinear_arith)
                requires
                    (n - 1) as int == b as int * k + r,
                    r >= 0,
                    k >= 0,
                    b >= 1,
            ;
        }
        -up - 1
    }
}

/// Ceiling division on machine integers.
pub fn div_ceil(a: i128, b: i128) -> (q: i128)
    requires
        b > 0,
        a > i128::MIN,
    ensures
        q == ceil_div(a as int, b as int),
{
    let down: i128 = div_floor(-a, b);
    proof {
        vstd::arithmetic::div_mod::lemma_fundamental_div_mod(-(a as int), b as int);
        vstd::arithmetic::div_mod::lemma_mod_bound(-(a as int), b as int);
        assert(down > i128::MIN) by (nonlinear_arith)
            requires
                -(a as int) == b * down + (-(a as int)) % (b as int),
                0 <= (-(a as int)) % (b as int) < b,
                b >= 1,
                -(a as int) > -0x8000_0000_0000_0000_0000_0000_0000_0000,
                a > -0x8000_0000_0000_0000_0000_0000_0000_0000,
        ;
    }
    -down
}

/// A quotient rounded up is the least whole number of divisors that covers
/// the numerator.
pub proof fn lemma_ceil_div(a: int, b: int)
    requires
        b > 0,
    ensures
        b * (ceil_div(a, b) - 1) < a <= b * ceil_div(a, b),
        a > 0 ==> ceil_div(a, b) >= 1,
{
    let q = (-a) / b;
    let r = (-a) % b;
    vstd::arithmetic::div_mod::lemma_fundamental_div_mod(-a, b);
    vstd::arithmetic::div_mod::lemma_mod_bound(-a, b);
    assert(b * (-q - 1) < a <= b * (-q)) by (nonlinear_arith)
        requires
            -a == b * q + r,
            0 <= r < b,
    ;
    if a > 0 {
        assert(-q >= 1) by (nonlinear_arith)
            requires
                a <= b * (-q),
                a > 0,
                b > 0,
        ;
    }
}

/// A quotient is within a bound where the numerator is within the bound times
/// the denominator.
pub proof fn lemma_floor_div_bound(n: int, d: int, bound: int)
    requires
        d > 0,
        bound >= 0,
        -(bound * d) <= n <= bound * d,
    ensures
        -bound <= floor_div(n, d) <= bound,
{
    vstd::arithmetic::div_mod::lemma_fundamental_div_mod(n, d);
    vstd::arithmetic::div_mod::lemma_mod_bound(n, d);
    let q = n / d;
    assert(-bound <= q <= bound) by (nonlinear_arith)
        requires
            n == d * q + n % d,
            0 <= n % d < d,
            d > 0,
            -(bound * d) <= n <= bound * d,
    ;
}

/// Distance between two timestamps, computed without overflow.
pub fn abs_diff(a: i64, b: i64) -> (d: i128)
    ensures
        d == distance(a as int, b as int),
{
    let wide_a: i128 = a as i128;
    let wide_b: i128 = b as i128;
    if wide_a >= wide_b {
        wide_a - wide_b
    } else {
        wide_b - wide_a
    }
}

} // verus!
