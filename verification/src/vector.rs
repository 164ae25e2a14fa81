//! Three-component vectors of fixed-point numbers, and their mathematical
//! model over unbounded integers.

use vstd::prelude::*;
use crate::fixed::{
    divide, lemma_mul_bound, lemma_quotient_fraction, lemma_root_up, lemma_root_up_least,
    lemma_truncated, multiply, product, quotient, root_up, saturate, saturating, sqrt_up,
    truncated, LIMIT, ONE,
};

verus! {

/// Largest magnitude that a vector component may have while a computation is
/// under way. Stored vectors stay within `LIMIT`.
pub const HEADROOM: i64 = 0x2000_0000_0000_0000;

/// `x` can be stored in an `i64`.
pub open spec fn fits(x: int) -> bool {
    i64::MIN <= x <= i64::MAX
}

/// Absolute value.
pub open spec fn abs(x: int) -> int {
    if x >= 0 {
        x
    } else {
        -x
    }
}

/// A vector of stored fixed-point numbers, without their machine bounds.
pub ghost struct Vector {
    pub x: int,
    pub y: int,
    pub z: int,
}

impl Vector {
    /// The vector without length.
    pub open spec fn zero() -> Vector {
        Vector { x: 0, y: 0, z: 0 }
    }

    /// Every component has magnitude at most `bound`.
    pub open spec fn within(self, bound: int) -> bool {
        &&& -bound <= self.x <= bound
        &&& -bound <= self.y <= bound
        &&& -bound <= self.z <= bound
    }

    /// Every component is a storable quantity.
    pub open spec fn bounded(self) -> bool {
        self.within(LIMIT as int)
    }

    /// Every component can be stored in an `i64`.
    pub open spec fn fits(self) -> bool {
        fits(self.x) && fits(self.y) && fits(self.z)
    }

    /// Sum, component by component.
    pub open spec fn plus(self, other: Vector) -> Vector {
        Vector { x: self.x + other.x, y: self.y + other.y, z: self.z + other.z }
    }

    /// Difference, component by component.
    pub open spec fn minus(self, other: Vector) -> Vector {
        Vector { x: self.x - other.x, y: self.y - other.y, z: self.z - other.z }
    }

    /// The opposite vector.
    pub open spec fn negated(self) -> Vector {
        Vector { x: -self.x, y: -self.y, z: -self.z }
    }

    /// The vector with its vertical component replaced.
    pub open spec fn with_y(self, y: int) -> Vector {
        Vector { x: self.x, y, z: self.z }
    }

    /// Each component multiplied by the fixed-point number `k`.
    pub open spec fn scaled(self, k: int) -> Vector {
        Vector { x: product(self.x, k), y: product(self.y, k), z: product(self.z, k) }
    }

    /// The two lateral components multiplied by `k`, the vertical one kept.
    pub open spec fn scaled_laterally(self, k: int) -> Vector {
        Vector { x: product(self.x, k), y: self.y, z: product(self.z, k) }
    }

    /// Sum of the products of the components, before the fixed-point scale
    /// is taken out.
    pub open spec fn inner(self, other: Vector) -> int {
        self.x * other.x + self.y * other.y + self.z * other.z
    }

    /// Fixed-point dot product, rounded toward zero.
    pub open spec fn dot(self, other: Vector) -> int {
        truncated(self.inner(other), ONE as int)
    }

    /// Euclidean length, rounded up.
    pub open spec fn length(self) -> int {
        root_up(self.inner(self))
    }

    /// Length of the horizontal part, rounded up.
    pub open spec fn lateral_speed(self) -> int {
        root_up(self.x * self.x + self.z * self.z)
    }

    /// The vector divided by its length; the zero vector is left alone.
    pub open spec fn normalized(self) -> Vector {
        let len = self.length();
        if len > 0 {
            Vector {
                x: quotient(self.x, len),
                y: quotient(self.y, len),
                z: quotient(self.z, len),
            }
        } else {
            self
        }
    }

    /// Each component moved into the storable range.
    pub open spec fn saturated(self) -> Vector {
        Vector { x: saturate(self.x), y: saturate(self.y), z: saturate(self.z) }
    }

    /// The vector is no longer than one.
    pub open spec fn at_most_unit(self) -> bool {
        self.inner(self) <= ONE * ONE
    }
}

/// A vector of fixed-point numbers.
#[derive(Clone, Copy, Debug, PartialEq, Eq, Structural)]
pub struct Vec3 {
    pub x: i64,
    pub y: i64,
    pub z: i64,
}

impl View for Vec3 {
    type V = Vector;

    open spec fn view(&self) -> Vector {
        Vector { x: self.x as int, y: self.y as int, z: self.z as int }
    }
}

proof fn lemma_square_bound(x: int, b: int)
    requires
        -b <= x <= b,
    ensures
        0 <= x * x <= b * b,
{
    assert(0 <= x * x <= b * b) by (nonlinear_arith)
        requires
            -b <= x <= b,
    ;
}

proof fn lemma_below_root(x: int, n: int, r: int)
    requires
        0 <= x * x <= n,
        r >= 0,
        r * r >= n,
    ensures
        -r <= x <= r,
{
    if x > r {
        assert(x * x > r * r) by (nonlinear_arith)
            requires
                x > r,
                r >= 0,
        ;
    }
    if x < -r {
        assert(x * x > r * r) by (nonlinear_arith)
            requires
                x < -r,
                r >= 0,
        ;
    }
}

/// If `|d| * len <= |w| * s`, the same holds of the squares.
pub proof fn lemma_shrunk_square(d: int, w: int, len: int, s: int)
    requires
        len >= 0,
        s >= 0,
        abs(d) * len <= abs(w) * s,
    ensures
        (d * d) * (len * len) <= (w * w) * (s * s),
{
    let e = abs(d) * len;
    let f = abs(w) * s;
    assert(0 <= e) by (nonlinear_arith)
        requires
            e == abs(d) * len,
            abs(d) >= 0,
            len >= 0,
    ;
    assert(e * e <= f * f) by (nonlinear_arith)
        requires
            0 <= e <= f,
    ;
    assert(e * e == (d * d) * (len * len)) by (nonlinear_arith)
        requires
            e == abs(d) * len,
            abs(d) == d || abs(d) == -d,
    ;
    assert(f * f == (w * w) * (s * s)) by (nonlinear_arith)
        requires
            f == abs(w) * s,
            abs(w) == w || abs(w) == -w,
    ;
}

/// A sum of squares that was shrunk by `s / len`, component by component,
/// from one that is at most `len * len`, is at most `s * s`.
pub proof fn lemma_shrunk_norm(dd: int, ww: int, len: int, s: int)
    requires
        len > 0,
        s >= 0,
        dd * (len * len) <= ww * (s * s),
        ww <= len * len,
    ensures
        dd <= s * s,
{
    assert(dd <= s * s) by (nonlinear_arith)
        requires
            len > 0,
            s >= 0,
            dd * (len * len) <= ww * (s * s),
            ww <= len * len,
    ;
}

/// The components of a quotient by a positive `len` are shrunk by
/// `ONE / len`.
pub proof fn lemma_quotient_shrinks(w: int, len: int)
    requires
        len > 0,
    ensures
        abs(quotient(w, len)) * len <= abs(w) * ONE,
{
    lemma_truncated(w * ONE, len);
    let q = quotient(w, len);
    assert((-q) * len == -(q * len)) by (nonlinear_arith);
    assert((-w) * ONE == -(w * ONE)) by (nonlinear_arith);
    if w >= 0 {
        if q < 0 {
            assert(q * len < 0) by (nonlinear_arith)
                requires
                    q < 0,
                    len > 0,
            ;
        }
    } else {
        if q > 0 {
            assert(q * len > 0) by (nonlinear_arith)
                requires
                    q > 0,
                    len > 0,
            ;
        }
    }
}

impl Vector {
    /// A normalized vector has components between minus one and one and is
    /// no longer than one.
    pub proof fn lemma_normalized(self)
        ensures
            self.normalized().within(ONE as int),
            self.normalized().at_most_unit(),
            self.length() == 0 ==> self == Vector::zero(),
    {
        let n = self.inner(self);
        let len = self.length();
        lemma_root_up(n);
        lemma_square_bound(self.x, abs(self.x));
        lemma_square_bound(self.y, abs(self.y));
        lemma_square_bound(self.z, abs(self.z));
        if len > 0 {
            let d = self.normalized();
            lemma_below_root(self.x, n, len);
            lemma_below_root(self.y, n, len);
            lemma_below_root(self.z, n, len);
            lemma_quotient_fraction(self.x, len);
            lemma_quotient_fraction(self.y, len);
            lemma_quotient_fraction(self.z, len);
            lemma_quotient_shrinks(self.x, len);
            lemma_quotient_shrinks(self.y, len);
            lemma_quotient_shrinks(self.z, len);
            lemma_shrunk_square(d.x, self.x, len, ONE as int);
            lemma_shrunk_square(d.y, self.y, len, ONE as int);
            lemma_shrunk_square(d.z, self.z, len, ONE as int);
            let dd = d.inner(d);
            assert(dd * (len * len) == (d.x * d.x) * (len * len) + (d.y * d.y) * (len * len) + (d.z
                * d.z) * (len * len)) by (nonlinear_arith)
                requires
                    dd == d.x * d.x + d.y * d.y + d.z * d.z,
            ;
            assert(n * (ONE * ONE) == (self.x * self.x) * (ONE * ONE) + (self.y * self.y) * (ONE
                * ONE) + (self.z * self.z) * (ONE * ONE)) by (nonlinear_arith)
                requires
                    n == self.x * self.x + self.y * self.y + self.z * self.z,
            ;
            lemma_shrunk_norm(dd, n, len, ONE as int);
        } else {
            assert(self.x == 0) by (nonlinear_arith)
                requires
                    self.x * self.x <= 0,
            ;
            assert(self.y == 0) by (nonlinear_arith)
                requires
                    self.y * self.y <= 0,
            ;
            assert(self.z == 0) by (nonlinear_arith)
                requires
                    self.z * self.z <= 0,
            ;
        }
    }

    /// Bounds of a fixed-point dot product with a vector whose components
    /// lie between minus one and one.
    pub proof fn lemma_dot_bound(self, other: Vector, bound: int)
        requires
            self.within(bound),
            other.within(ONE as int),
        ensures
            -(3 * bound * ONE) <= self.inner(other) <= 3 * bound * ONE,
            -(3 * bound) <= self.dot(other) <= 3 * bound,
    {
        lemma_mul_bound(self.x, other.x, bound, ONE as int);
        lemma_mul_bound(self.y, other.y, bound, ONE as int);
        lemma_mul_bound(self.z, other.z, bound, ONE as int);
    }

    /// Bounds of the squared length.
    pub proof fn lemma_inner_bound(self, bound: int)
        requires
            self.within(bound),
        ensures
            0 <= self.x * self.x + self.z * self.z <= 2 * (bound * bound),
            0 <= self.inner(self) <= 3 * (bound * bound),
    {
        lemma_square_bound(self.x, bound);
        lemma_square_bound(self.y, bound);
        lemma_square_bound(self.z, bound);
    }

    /// The rounded-up length of a vector within `bound` is at most twice
    /// `bound`, and no component exceeds it.
    pub proof fn lemma_length_bound(self, bound: int)
        requires
            self.within(bound),
        ensures
            0 <= self.length() <= 2 * bound,
            0 <= self.lateral_speed() <= 2 * bound,
            self.within(self.length()),
            -self.lateral_speed() <= self.x <= self.lateral_speed(),
            -self.lateral_speed() <= self.z <= self.lateral_speed(),
    {
        self.lemma_inner_bound(bound);
        lemma_square_bound(self.x, abs(self.x));
        lemma_square_bound(self.y, abs(self.y));
        lemma_square_bound(self.z, abs(self.z));
        let n = self.inner(self);
        let m = self.x * self.x + self.z * self.z;
        lemma_root_up(n);
        lemma_root_up(m);
        assert((2 * bound) * (2 * bound) == 4 * (bound * bound)) by (nonlinear_arith);
        lemma_root_up_least(n, 2 * bound);
        lemma_root_up_least(m, 2 * bound);
        lemma_below_root(self.x, n, self.length());
        lemma_below_root(self.y, n, self.length());
        lemma_below_root(self.z, n, self.length());
        lemma_below_root(self.x, m, self.lateral_speed());
        lemma_below_root(self.z, m, self.lateral_speed());
    }
}

impl Vec3 {
    /// The vector with these components.
    pub fn new(x: i64, y: i64, z: i64) -> (r: Vec3)
        ensures
            r.x == x,
            r.y == y,
            r.z == z,
    {
        Vec3 { x, y, z }
    }

    /// The vector without length.
    pub fn zero() -> (r: Vec3)
        ensures
            r@ == Vector::zero(),
    {
        Vec3 { x: 0, y: 0, z: 0 }
    }

    /// Sum, component by component.
    pub fn plus(self, other: Vec3) -> (r: Vec3)
        requires
            self@.plus(other@).fits(),
        ensures
            r@ == self@.plus(other@),
    {
        Vec3 { x: self.x + other.x, y: self.y + other.y, z: self.z + other.z }
    }

    /// Difference, component by component.
    pub fn minus(self, other: Vec3) -> (r: Vec3)
        requires
            self@.minus(other@).fits(),
        ensures
            r@ == self@.minus(other@),
    {
        Vec3 { x: self.x - other.x, y: self.y - other.y, z: self.z - other.z }
    }

    /// The opposite vector.
    pub fn negated(self) -> (r: Vec3)
        requires
            self@.within(HEADROOM as int),
        ensures
            r@ == self@.negated(),
    {
        Vec3 { x: -self.x, y: -self.y, z: -self.z }
    }

    /// Each component multiplied by the fixed-point number `k`.
    pub fn scaled(self, k: i64) -> (r: Vec3)
        requires
            self@.scaled(k as int).fits(),
        ensures
            r@ == self@.scaled(k as int),
    {
        Vec3 { x: multiply(self.x, k), y: multiply(self.y, k), z: multiply(self.z, k) }
    }

    /// The two lateral components multiplied by `k`, the vertical one kept.
    pub fn scaled_laterally(self, k: i64) -> (r: Vec3)
        requires
            self@.scaled_laterally(k as int).fits(),
        ensures
            r@ == self@.scaled_laterally(k as int),
    {
        Vec3 { x: multiply(self.x, k), y: self.y, z: multiply(self.z, k) }
    }

    /// Fixed-point dot product with a vector whose components lie between
    /// minus one and one.
    pub fn dot(self, other: Vec3) -> (r: i64)
        requires
            self@.within(HEADROOM as int),
            other@.within(ONE as int),
        ensures
            r == self@.dot(other@),
    {
        proof {
            lemma_mul_bound(self.x as int, other.x as int, HEADROOM as int, ONE as int);
            lemma_mul_bound(self.y as int, other.y as int, HEADROOM as int, ONE as int);
            lemma_mul_bound(self.z as int, other.z as int, HEADROOM as int, ONE as int);
        }
        let sum: i128 = (self.x as i128) * (other.x as i128) + (self.y as i128) * (other.y as i128)
            + (self.z as i128) * (other.z as i128);
        (sum / (ONE as i128)) as i64
    }

    /// Euclidean length, rounded up.
    pub fn length(self) -> (r: i64)
        requires
            self@.within(HEADROOM as int),
        ensures
            r == self@.length(),
            0 <= r <= 2 * HEADROOM,
    {
        proof {
            self@.lemma_inner_bound(HEADROOM as int);
            self@.lemma_length_bound(HEADROOM as int);
            lemma_mul_bound(self.x as int, self.x as int, HEADROOM as int, HEADROOM as int);
            lemma_mul_bound(self.y as int, self.y as int, HEADROOM as int, HEADROOM as int);
            lemma_mul_bound(self.z as int, self.z as int, HEADROOM as int, HEADROOM as int);
            assert(HEADROOM * HEADROOM == 0x400_0000_0000_0000_0000_0000_0000_0000int)
                by (nonlinear_arith);
        }
        let sum: i128 = (self.x as i128) * (self.x as i128) + (self.y as i128) * (self.y as i128)
            + (self.z as i128) * (self.z as i128);
        sqrt_up(sum as u128) as i64
    }

    /// Length of the horizontal part, rounded up.
    pub fn lateral_speed(self) -> (r: i64)
        requires
            self@.within(HEADROOM as int),
        ensures
            r == self@.lateral_speed(),
            0 <= r <= 2 * HEADROOM,
    {
        proof {
            self@.lemma_inner_bound(HEADROOM as int);
            self@.lemma_length_bound(HEADROOM as int);
            lemma_mul_bound(self.x as int, self.x as int, HEADROOM as int, HEADROOM as int);
            lemma_mul_bound(self.z as int, self.z as int, HEADROOM as int, HEADROOM as int);
            assert(HEADROOM * HEADROOM == 0x400_0000_0000_0000_0000_0000_0000_0000int)
                by (nonlinear_arith);
        }
        let sum: i128 = (self.x as i128) * (self.x as i128) + (self.z as i128) * (self.z as i128);
        sqrt_up(sum as u128) as i64
    }

    /// The vector divided by its length; the zero vector is left alone.
    pub fn normalized(self) -> (r: Vec3)
        requires
            self@.within(HEADROOM as int),
        ensures
            r@ == self@.normalized(),
            r@.within(ONE as int),
            r@.at_most_unit(),
    {
        let len = self.length();
        proof {
            self@.lemma_normalized();
            self@.lemma_length_bound(HEADROOM as int);
        }
        if len > 0 {
            proof {
                lemma_quotient_fraction(self.x as int, len as int);
                lemma_quotient_fraction(self.y as int, len as int);
                lemma_quotient_fraction(self.z as int, len as int);
            }
            Vec3 { x: divide(self.x, len), y: divide(self.y, len), z: divide(self.z, len) }
        } else {
            self
        }
    }

    /// Each component moved into the storable range.
    pub fn saturated(self) -> (r: Vec3)
        ensures
            r@ == self@.saturated(),
            r@.bounded(),
    {
        Vec3 { x: saturating(self.x), y: saturating(self.y), z: saturating(self.z) }
    }
}

} // verus!
