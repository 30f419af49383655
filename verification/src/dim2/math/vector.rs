//! Planar vectors over fixed-point scalars.

use vstd::prelude::*;
use crate::math::scalar::Scalar;
use crate::math::scalar::ONE_RAW;

verus! {

/// The greatest distance of a squared length from one, in raw units, at which
/// a vector still counts as a unit vector: two ten-thousandths.
pub const NORMALIZED_TOLERANCE_RAW: i64 = 858_993;

/// A vector in the plane.
#[derive(Clone, Copy, Debug, PartialEq, Eq, Structural)]
pub struct Vector {
    /// The horizontal component.
    pub x: Scalar,
    /// The vertical component.
    pub y: Scalar,
}

impl Vector {
    /// The component-wise sum.
    pub open spec fn add_spec(self, rhs: Vector) -> Vector {
        Vector { x: self.x.add_spec(rhs.x), y: self.y.add_spec(rhs.y) }
    }

    /// The component-wise difference.
    pub open spec fn sub_spec(self, rhs: Vector) -> Vector {
        Vector { x: self.x.sub_spec(rhs.x), y: self.y.sub_spec(rhs.y) }
    }

    /// The opposite vector.
    pub open spec fn neg_spec(self) -> Vector {
        Vector { x: self.x.neg_spec(), y: self.y.neg_spec() }
    }

    /// The vector with each component multiplied by `s`.
    pub open spec fn scale_spec(self, s: Scalar) -> Vector {
        Vector { x: self.x.mul_spec(s), y: self.y.mul_spec(s) }
    }

    /// The dot product.
    pub open spec fn dot_spec(self, rhs: Vector) -> Scalar {
        self.x.mul_spec(rhs.x).add_spec(self.y.mul_spec(rhs.y))
    }

    /// The planar cross product: `x1 * y2 - y1 * x2`.
    pub open spec fn cross_spec(self, rhs: Vector) -> Scalar {
        self.x.mul_spec(rhs.y).sub_spec(self.y.mul_spec(rhs.x))
    }

    /// The vector turned a quarter turn counterclockwise: `(-y, x)`.
    pub open spec fn perp_spec(self) -> Vector {
        Vector { x: self.y.neg_spec(), y: self.x }
    }

    /// The squared length.
    pub open spec fn length_squared_spec(self) -> Scalar {
        self.dot_spec(self)
    }

    /// The length: the square root of the exact sum of the squared raw
    /// components, rounded down and saturated.
    pub open spec fn length_spec(self) -> Scalar {
        self.x.hypot_spec(self.y)
    }

    /// The vector divided by its length.
    pub open spec fn normalize_spec(self) -> Vector {
        Vector { x: self.x.div_spec(self.length_spec()), y: self.y.div_spec(self.length_spec()) }
    }

    /// Whether the squared length is within the tolerance of one.
    pub open spec fn is_normalized_spec(self) -> bool {
        self.length_squared_spec().sub_spec(Scalar { raw: ONE_RAW }).abs_spec()@
            <= NORMALIZED_TOLERANCE_RAW
    }

    /// The vector shortened to the length `max` where it is longer, and as it
    /// is where it is not. Where `max` is not positive the result is zero.
    ///
    /// A vector that is too long is scaled by `max` over its length rounded
    /// up, so that what comes out is never longer than `max`.
    pub open spec fn clamp_length_max_spec(self, max: Scalar) -> Vector {
        if max@ <= 0 {
            Vector { x: Scalar { raw: 0 }, y: Scalar { raw: 0 } }
        } else if self.x@ * self.x@ + self.y@ * self.y@ <= max@ * max@ {
            self
        } else {
            Vector { x: self.x.shorten_spec(self.y, max), y: self.y.shorten_spec(self.x, max) }
        }
    }

    /// The vector with the given components.
    pub fn new(x: Scalar, y: Scalar) -> (r: Vector)
        ensures
            r == (Vector { x, y }),
    {
        Vector { x, y }
    }

    /// The zero vector.
    pub fn zero() -> (r: Vector)
        ensures
            r.x@ == 0,
            r.y@ == 0,
    {
        Vector { x: Scalar::zero(), y: Scalar::zero() }
    }

    /// The component-wise sum.
    pub fn add(self, rhs: Vector) -> (r: Vector)
        ensures
            r == self.add_spec(rhs),
    {
        Vector { x: self.x.add(rhs.x), y: self.y.add(rhs.y) }
    }

    /// The component-wise difference.
    pub fn sub(self, rhs: Vector) -> (r: Vector)
        ensures
            r == self.sub_spec(rhs),
    {
        Vector { x: self.x.sub(rhs.x), y: self.y.sub(rhs.y) }
    }

    /// The opposite vector.
    pub fn neg(self) -> (r: Vector)
        ensures
            r == self.neg_spec(),
    {
        Vector { x: self.x.neg(), y: self.y.neg() }
    }

    /// The vector with each component multiplied by `s`.
    pub fn scale(self, s: Scalar) -> (r: Vector)
        ensures
            r == self.scale_spec(s),
    {
        Vector { x: self.x.mul(s), y: self.y.mul(s) }
    }

    /// The dot product.
    pub fn dot(self, rhs: Vector) -> (r: Scalar)
        ensures
            r == self.dot_spec(rhs),
    {
        self.x.mul(rhs.x).add(self.y.mul(rhs.y))
    }

    /// The planar cross product.
    pub fn cross(self, rhs: Vector) -> (r: Scalar)
        ensures
            r == self.cross_spec(rhs),
    {
        self.x.mul(rhs.y).sub(self.y.mul(rhs.x))
    }

    /// The vector turned a quarter turn counterclockwise.
    pub fn perp(self) -> (r: Vector)
        ensures
            r == self.perp_spec(),
    {
        Vector { x: self.y.neg(), y: self.x }
    }

    /// The squared length.
    pub fn length_squared(self) -> (r: Scalar)
        ensures
            r == self.length_squared_spec(),
    {
        self.dot(self)
    }

    /// The length.
    pub fn length(self) -> (r: Scalar)
        ensures
            r == self.length_spec(),
    {
        self.x.hypot(self.y)
    }

    /// The vector shortened to the length `max` where it is longer.
    pub fn clamp_length_max(self, max: Scalar) -> (r: Vector)
        ensures
            r == self.clamp_length_max_spec(max),
            max@ >= 0 ==> r.x@ * r.x@ + r.y@ * r.y@ <= max@ * max@,
    {
        proof {
            lemma_clamp_length_max(self, max);
        }
        if max.raw <= 0 {
            Vector { x: Scalar::zero(), y: Scalar::zero() }
        } else if !self.x.exceeds(self.y, max) {
            self
        } else {
            Vector { x: self.x.shorten(self.y, max), y: self.y.shorten(self.x, max) }
        }
    }

    /// The vector divided by its length. The zero vector stays zero.
    ///
    /// What comes out is a unit vector where the length is at least the least
    /// normalized length and below the end of the range. A shorter vector has
    /// too few digits for its direction to be told.
    pub fn normalize(self) -> (r: Vector)
        ensures
            r == self.normalize_spec(),
            crate::math::scalar::LEAST_NORMALIZED_LENGTH_RAW <= self.length_spec()@ < i64::MAX
                ==> r.is_normalized_spec(),
    {
        proof {
            if crate::math::scalar::LEAST_NORMALIZED_LENGTH_RAW <= self.length_spec()@ < i64::MAX {
                lemma_normalize_is_unit(self);
            }
        }
        let len = self.length();
        Vector { x: self.x.div(len), y: self.y.div(len) }
    }

    /// Whether the squared length is within the tolerance of one.
    pub fn is_normalized(self) -> (r: bool)
        ensures
            r == self.is_normalized_spec(),
    {
        self.length_squared().sub(Scalar::one()).abs().raw <= NORMALIZED_TOLERANCE_RAW
    }
}

/// A vector that is neither too short nor too long, divided by its length,
/// is a unit vector: its length is at least the least normalized length and
/// below the end of the range.
pub proof fn lemma_normalize_is_unit(v: Vector)
    requires
        crate::math::scalar::LEAST_NORMALIZED_LENGTH_RAW <= v.length_spec()@ < i64::MAX,
    ensures
        v.normalize_spec().is_normalized_spec(),
{
    let one: int = ONE_RAW as int;
    let x = v.x@;
    let y = v.y@;
    let n = x * x + y * y;
    assert(x * x >= 0 && y * y >= 0) by (nonlinear_arith);
    crate::math::scalar::lemma_int_sqrt_exists(n);
    let len = crate::math::scalar::int_sqrt(n);
    assert(v.length_spec()@ == len);
    let a = if x < 0 { -x } else { x };
    let b = if y < 0 { -y } else { y };
    let c = 0int;
    assert(a * a == x * x && b * b == y * y && c * c == 0) by (nonlinear_arith)
        requires
            a == x || a == -x,
            b == y || b == -y,
            c == 0,
    ;
    crate::math::scalar::lemma_unit_quotients(a, b, c, len);
    let ma = (a * one) / len;
    let mb = (b * one) / len;
    let mc = (c * one) / len;
    let q = v.normalize_spec();
    assert(q.x@ == if x < 0 { -ma } else { ma });
    assert(q.y@ == if y < 0 { -mb } else { mb });
    assert(q.x@ * q.x@ == ma * ma && q.y@ * q.y@ == mb * mb && mc * mc == 0) by (nonlinear_arith)
        requires
            q.x@ == ma || q.x@ == -ma,
            q.y@ == mb || q.y@ == -mb,
            mc == 0,
    ;
    assert(ma * ma >= 0 && mb * mb >= 0 && mc * mc >= 0) by (nonlinear_arith);
    assert(q.x.mul_spec(q.x)@ == (ma * ma) / one);
    assert(q.y.mul_spec(q.y)@ == (mb * mb) / one);
}

/// A quotient rounded toward zero lies, times the divisor, between zero and
/// the dividend.
proof fn lemma_trunc_div_bound(n: int, d: int)
    requires
        d > 0,
    ensures
        n >= 0 ==> 0 <= crate::math::scalar::trunc_div(n, d) * d <= n,
        n <= 0 ==> n <= crate::math::scalar::trunc_div(n, d) * d <= 0,
{
    if n >= 0 {
        assert(0 <= (n / d) * d <= n) by (nonlinear_arith)
            requires
                n >= 0,
                d > 0,
        ;
    } else {
        assert(0 <= ((-n) / d) * d <= -n) by (nonlinear_arith)
            requires
                -n >= 0,
                d > 0,
        ;
        assert((-((-n) / d)) * d == -(((-n) / d) * d)) by (nonlinear_arith);
    }
}

/// The square of a quotient rounded toward zero, times the square of the
/// divisor, does not exceed the square of the dividend.
proof fn lemma_trunc_div_square(x: int, m: int, d: int)
    requires
        d > 0,
        m > 0,
    ensures
        ({
            let q = crate::math::scalar::trunc_div(x * m, d);
            q * q * (d * d) <= (x * x) * (m * m)
        }),
{
    let q = crate::math::scalar::trunc_div(x * m, d);
    lemma_trunc_div_bound(x * m, d);
    if x >= 0 {
        assert(x * m >= 0) by (nonlinear_arith)
            requires
                x >= 0,
                m > 0,
        ;
        assert(q * q * (d * d) <= (x * x) * (m * m)) by (nonlinear_arith)
            requires
                0 <= q * d <= x * m,
        {
            assert((q * d) * (q * d) <= (x * m) * (x * m));
        }
    } else {
        assert(x * m <= 0) by (nonlinear_arith)
            requires
                x <= 0,
                m > 0,
        ;
        assert(q * q * (d * d) <= (x * x) * (m * m)) by (nonlinear_arith)
            requires
                x * m <= q * d <= 0,
        {
            assert((q * d) * (q * d) <= (x * m) * (x * m));
        }
    }
}

/// A vector clamped to a length that is not negative is not longer than it.
pub proof fn lemma_clamp_length_max(v: Vector, max: Scalar)
    ensures
        max@ >= 0 ==> ({
            let r = v.clamp_length_max_spec(max);
            r.x@ * r.x@ + r.y@ * r.y@ <= max@ * max@
        }),
        max@ >= 0 ==> v.clamp_length_max_spec(max).length_spec()@ <= max@,
{
    if max@ >= 0 {
        let r = v.clamp_length_max_spec(max);
        let n = v.x@ * v.x@ + v.y@ * v.y@;
        let m = max@;
        assert(v.x@ * v.x@ >= 0 && v.y@ * v.y@ >= 0) by (nonlinear_arith);
        assert(m * m >= 0) by (nonlinear_arith);
        if m > 0 && n > m * m {
            crate::math::scalar::lemma_int_sqrt_exists(n);
            assert(v.y@ * v.y@ + v.x@ * v.x@ == n);
            let d = crate::math::scalar::int_sqrt(n) + 1;
            let qx = crate::math::scalar::trunc_div(v.x@ * m, d);
            let qy = crate::math::scalar::trunc_div(v.y@ * m, d);
            lemma_trunc_div_square(v.x@, m, d);
            lemma_trunc_div_square(v.y@, m, d);
            assert(qx * qx + qy * qy <= m * m) by (nonlinear_arith)
                requires
                    qx * qx * (d * d) <= (v.x@ * v.x@) * (m * m),
                    qy * qy * (d * d) <= (v.y@ * v.y@) * (m * m),
                    n == v.x@ * v.x@ + v.y@ * v.y@,
                    n < d * d,
                    d >= 1,
                    m > 0,
            {
                assert((qx * qx + qy * qy) * (d * d) <= n * (m * m));
                assert(n * (m * m) < (d * d) * (m * m));
            }
            // The quotients are no greater than `max`, so nothing saturates.
            assert(qx * qx >= 0 && qy * qy >= 0) by (nonlinear_arith);
            assert(-m <= qx <= m) by (nonlinear_arith)
                requires
                    qx * qx <= m * m,
                    m > 0,
            ;
            assert(-m <= qy <= m) by (nonlinear_arith)
                requires
                    qy * qy <= m * m,
                    m > 0,
            ;
            assert(r.x@ == qx && r.y@ == qy);
        } else if m <= 0 {
            assert(r.x@ == 0 && r.y@ == 0);
        }
        let rn = r.x@ * r.x@ + r.y@ * r.y@;
        assert(r.x@ * r.x@ >= 0 && r.y@ * r.y@ >= 0) by (nonlinear_arith);
        assert(rn <= m * m);
        crate::math::scalar::lemma_int_sqrt_exists(rn);
        let root = crate::math::scalar::int_sqrt(rn);
        assert(root <= m) by (nonlinear_arith)
            requires
                root * root <= rn,
                rn <= m * m,
                root >= 0,
                m >= 0,
        ;
    }
}

} // verus!
