//! Fixed-point scalars: the value `x` is stored as the integer `x * ONE`.

use vstd::prelude::*;

verus! {

/// The stored form of the number one.
pub const ONE: i64 = 1_048_576;

/// Largest magnitude a stored quantity may have (one million units and a bit).
pub const LIMIT: i64 = 1_099_511_627_776;

/// `x` is a storable quantity.
pub open spec fn bounded(x: int) -> bool {
    -LIMIT <= x <= LIMIT
}

/// `x` is a storable quantity that is not negative.
pub open spec fn magnitude(x: int) -> bool {
    0 <= x <= LIMIT
}

/// `x` lies between minus one and one.
pub open spec fn fraction(x: int) -> bool {
    -ONE <= x <= ONE
}

/// The smaller of two numbers.
pub open spec fn min(a: int, b: int) -> int {
    if a <= b {
        a
    } else {
        b
    }
}

/// The larger of two numbers.
pub open spec fn max(a: int, b: int) -> int {
    if a >= b {
        a
    } else {
        b
    }
}

/// `x` moved into `[lo, hi]`.
pub open spec fn clamp(x: int, lo: int, hi: int) -> int {
    if x < lo {
        lo
    } else if x > hi {
        hi
    } else {
        x
    }
}

/// `x` moved into the storable range.
pub open spec fn saturate(x: int) -> int {
    clamp(x, -LIMIT, LIMIT as int)
}

/// Quotient of `n` by a positive `d`, rounded toward zero.
pub open spec fn truncated(n: int, d: int) -> int {
    if n >= 0 {
        n / d
    } else {
        -((-n) / d)
    }
}

/// Fixed-point product, rounded toward zero.
pub open spec fn product(a: int, b: int) -> int {
    truncated(a * b, ONE as int)
}

/// Fixed-point quotient by a positive `b`, rounded toward zero.
pub open spec fn quotient(a: int, b: int) -> int {
    truncated(a * ONE, b)
}

/// Fixed-point product of three numbers, rounded toward zero once.
pub open spec fn product3(a: int, b: int, c: int) -> int {
    truncated(a * b * c, ONE * ONE)
}

/// `r` is the least natural number whose square reaches `q`.
pub open spec fn is_root_up(q: int, r: int) -> bool {
    &&& r >= 0
    &&& r * r >= q
    &&& r > 0 ==> (r - 1) * (r - 1) < q
}

/// The square root of `q`, rounded up (zero for `q <= 0`).
pub closed spec fn root_up(q: int) -> int {
    choose|r: int| is_root_up(q, r)
}

proof fn lemma_square_monotone(a: int, b: int)
    requires
        0 <= a <= b,
    ensures
        a * a <= b * b,
{
    assert(a * a <= b * b) by (nonlinear_arith)
        requires
            0 <= a <= b,
    ;
}

proof fn lemma_root_up_exists(q: int) -> (r: int)
    ensures
        is_root_up(q, r),
    decreases q,
{
    if q <= 0 {
        0
    } else {
        let below = lemma_root_up_exists(q - 1);
        if below * below >= q {
            below
        } else {
            assert((below + 1) * (below + 1) == below * below + 2 * below + 1)
                by (nonlinear_arith);
            below + 1
        }
    }
}

/// Two numbers that are both the rounded-up root of `q` are equal.
pub proof fn lemma_root_up_unique(q: int, r1: int, r2: int)
    requires
        is_root_up(q, r1),
        is_root_up(q, r2),
    ensures
        r1 == r2,
{
    if r1 < r2 {
        lemma_square_monotone(r1, r2 - 1);
    } else if r2 < r1 {
        lemma_square_monotone(r2, r1 - 1);
    }
}

/// `root_up(q)` is the least natural number whose square reaches `q`.
pub proof fn lemma_root_up(q: int)
    ensures
        is_root_up(q, root_up(q)),
{
    let r = lemma_root_up_exists(q);
}

/// The rounded-up root grows with its argument.
pub proof fn lemma_root_up_monotone(p: int, q: int)
    requires
        p <= q,
    ensures
        root_up(p) <= root_up(q),
{
    lemma_root_up(p);
    lemma_root_up(q);
    let rp = root_up(p);
    let rq = root_up(q);
    if rq < rp {
        lemma_square_monotone(rq, rp - 1);
    }
}

/// A number whose square reaches `q` is at least the rounded-up root of `q`.
pub proof fn lemma_root_up_least(q: int, r: int)
    requires
        r >= 0,
        r * r >= q,
    ensures
        root_up(q) <= r,
{
    lemma_root_up(q);
    let s = root_up(q);
    if r < s {
        lemma_square_monotone(r, s - 1);
    }
}

/// Bounds of an integer product from bounds of its factors.
pub proof fn lemma_mul_bound(a: int, b: int, ba: int, bb: int)
    requires
        -ba <= a <= ba,
        -bb <= b <= bb,
    ensures
        -(ba * bb) <= a * b <= ba * bb,
{
    assert(-(ba * bb) <= a * b <= ba * bb) by (nonlinear_arith)
        requires
            -ba <= a <= ba,
            -bb <= b <= bb,
    ;
}

/// Bounds of a fixed-point product from bounds of its factors.
pub proof fn lemma_product_bound(a: int, b: int, ba: int, bb: int)
    requires
        -ba <= a <= ba,
        -bb <= b <= bb,
    ensures
        -((ba * bb) / (ONE as int)) <= product(a, b) <= (ba * bb) / (ONE as int),
{
    lemma_mul_bound(a, b, ba, bb);
}

/// A fixed-point product keeps the sign of the integer product and never
/// exceeds it in magnitude.
pub proof fn lemma_product_sign(a: int, b: int)
    ensures
        a * b >= 0 ==> 0 <= product(a, b) * ONE <= a * b,
        a * b <= 0 ==> a * b <= product(a, b) * ONE <= 0,
{
}

/// Scaling by a factor between zero and one never grows a number and never
/// flips its sign.
pub proof fn lemma_product_shrinks(x: int, s: int)
    requires
        0 <= s <= ONE,
    ensures
        x >= 0 ==> 0 <= product(x, s) <= x,
        x <= 0 ==> x <= product(x, s) <= 0,
{
    assert(x >= 0 ==> 0 <= x * s <= x * ONE) by (nonlinear_arith)
        requires
            0 <= s <= ONE,
    ;
    assert(x <= 0 ==> x * ONE <= x * s <= 0) by (nonlinear_arith)
        requires
            0 <= s <= ONE,
    ;
}

/// A truncated quotient times its divisor stays between zero and the
/// dividend.
pub proof fn lemma_truncated(n: int, d: int)
    requires
        d > 0,
    ensures
        n >= 0 ==> 0 <= truncated(n, d) * d <= n < truncated(n, d) * d + d,
        n <= 0 ==> n <= truncated(n, d) * d <= 0 && truncated(n, d) * d - d < n,
{
    if n >= 0 {
        vstd::arithmetic::div_mod::lemma_fundamental_div_mod(n, d);
        vstd::arithmetic::div_mod::lemma_mod_bound(n, d);
        vstd::arithmetic::div_mod::lemma_div_pos_is_pos(n, d);
        let q = n / d;
        assert(q * d == d * q) by (nonlinear_arith);
        assert(0 <= q * d) by (nonlinear_arith)
            requires
                q >= 0,
                d > 0,
        ;
    } else {
        let m = -n;
        vstd::arithmetic::div_mod::lemma_fundamental_div_mod(m, d);
        vstd::arithmetic::div_mod::lemma_mod_bound(m, d);
        vstd::arithmetic::div_mod::lemma_div_pos_is_pos(m, d);
        let q = m / d;
        assert(q * d == d * q) by (nonlinear_arith);
        assert((-q) * d == -(q * d)) by (nonlinear_arith);
        assert(0 <= q * d) by (nonlinear_arith)
            requires
                q >= 0,
                d > 0,
        ;
    }
}

/// A truncated quotient has the sign of its dividend.
pub proof fn lemma_truncated_sign(n: int, d: int)
    requires
        d > 0,
    ensures
        n >= 0 ==> truncated(n, d) >= 0,
        n <= 0 ==> truncated(n, d) <= 0,
{
    if n >= 0 {
        vstd::arithmetic::div_mod::lemma_div_pos_is_pos(n, d);
    } else {
        vstd::arithmetic::div_mod::lemma_div_pos_is_pos(-n, d);
    }
}

/// A truncated quotient is bounded by any `k` with `|n| <= k * d`.
pub proof fn lemma_truncated_bound(n: int, d: int, k: int)
    requires
        d > 0,
        k >= 0,
        -(k * d) <= n <= k * d,
    ensures
        -k <= truncated(n, d) <= k,
{
    lemma_truncated(n, d);
    let t = truncated(n, d);
    if t > k {
        assert(t * d >= (k + 1) * d) by (nonlinear_arith)
            requires
                t >= k + 1,
                d > 0,
        ;
        assert((k + 1) * d == k * d + d) by (nonlinear_arith);
    }
    if t < -k {
        assert(t * d <= (-k - 1) * d) by (nonlinear_arith)
            requires
                t <= -k - 1,
                d > 0,
        ;
        assert((-k - 1) * d == -(k * d) - d) by (nonlinear_arith);
    }
}

/// The fixed-point quotient of `a` by a positive `b` that is at least `|a|`
/// lies between minus one and one.
pub proof fn lemma_quotient_fraction(a: int, b: int)
    requires
        b > 0,
        -b <= a <= b,
    ensures
        fraction(quotient(a, b)),
        a >= 0 ==> quotient(a, b) >= 0,
        a <= 0 ==> quotient(a, b) <= 0,
{
    assert((ONE as int) * b == b * ONE) by (nonlinear_arith);
    lemma_truncated_bound(a * ONE, b, ONE as int);
    lemma_truncated(a * ONE, b);
    let t = quotient(a, b);
    if a >= 0 && t < 0 {
        assert(t * b < 0) by (nonlinear_arith)
            requires
                t < 0,
                b > 0,
        ;
    }
    if a <= 0 && t > 0 {
        assert(t * b > 0) by (nonlinear_arith)
            requires
                t > 0,
                b > 0,
        ;
    }
}

/// Fixed-point product of two stored numbers.
pub fn multiply(a: i64, b: i64) -> (r: i64)
    requires
        i64::MIN <= product(a as int, b as int) <= i64::MAX,
    ensures
        r == product(a as int, b as int),
{
    proof {
        lemma_mul_bound(a as int, b as int, 0x8000_0000_0000_0000, 0x8000_0000_0000_0000);
    }
    let wide: i128 = (a as i128) * (b as i128);
    (wide / (ONE as i128)) as i64
}

/// Fixed-point quotient of two stored numbers.
pub fn divide(a: i64, b: i64) -> (r: i64)
    requires
        b > 0,
        i64::MIN <= quotient(a as int, b as int) <= i64::MAX,
    ensures
        r == quotient(a as int, b as int),
{
    let wide: i128 = (a as i128) * (ONE as i128);
    (wide / (b as i128)) as i64
}

/// Fixed-point product of three stored numbers of magnitude at most
/// `4 * LIMIT`, which may be too large to store.
pub fn multiply3(a: i64, b: i64, c: i64) -> (r: i128)
    requires
        -4 * LIMIT <= a <= 4 * LIMIT,
        -4 * LIMIT <= b <= 4 * LIMIT,
        -4 * LIMIT <= c <= 4 * LIMIT,
    ensures
        r == product3(a as int, b as int, c as int),
{
    proof {
        lemma_mul_bound(a as int, b as int, 0x400_0000_0000, 0x400_0000_0000);
        lemma_mul_bound(a * b, c as int, 0x10_0000_0000_0000_0000_0000, 0x400_0000_0000);
        assert(ONE * ONE == 0x100_0000_0000) by (nonlinear_arith);
    }
    let wide: i128 = (a as i128) * (b as i128) * (c as i128);
    wide / 0x100_0000_0000
}

/// `x` moved into `[lo, hi]`.
pub fn clamp_to(x: i64, lo: i64, hi: i64) -> (r: i64)
    ensures
        r == clamp(x as int, lo as int, hi as int),
{
    if x < lo {
        lo
    } else if x > hi {
        hi
    } else {
        x
    }
}

/// `x` moved into the storable range.
pub fn saturating(x: i64) -> (r: i64)
    ensures
        r == saturate(x as int),
        bounded(r as int),
{
    clamp_to(x, -LIMIT, LIMIT)
}

/// Largest argument that `sqrt_up` accepts: the square of `2^62`.
pub const ROOT_LIMIT: u128 = 0x1000_0000_0000_0000_0000_0000_0000_0000;

/// Square root rounded up, by bisection.
pub fn sqrt_up(q: u128) -> (r: u128)
    requires
        q <= ROOT_LIMIT,
    ensures
        r == root_up(q as int),
        is_root_up(q as int, r as int),
        r <= 0x4000_0000_0000_0000,
{
    let mut lo: u128 = 0;
    let mut hi: u128 = 0x4000_0000_0000_0000;
    assert(0x4000_0000_0000_0000int * 0x4000_0000_0000_0000int
        == 0x1000_0000_0000_0000_0000_0000_0000_0000int) by (nonlinear_arith);
    while lo < hi
        invariant
            lo <= hi <= 0x4000_0000_0000_0000,
            hi * hi >= q,
            lo > 0 ==> (lo - 1) * (lo - 1) < q,
        decreases hi - lo,
    {
        let mid: u128 = lo + (hi - lo) / 2;
        proof {
            lemma_mul_bound(mid as int, mid as int, 0x4000_0000_0000_0000, 0x4000_0000_0000_0000);
        }
        if mid * mid >= q {
            hi = mid;
        } else {
            lo = mid + 1;
        }
    }
    proof {
        lemma_root_up(q as int);
        lemma_root_up_unique(q as int, lo as int, root_up(q as int));
    }
    lo
}

} // verus!
