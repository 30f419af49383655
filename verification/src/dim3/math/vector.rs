//! Vectors in space over fixed-point scalars.

use vstd::prelude::*;
use crate::math::scalar::Scalar;
use crate::math::scalar::ONE_RAW;

verus! {

/// The greatest distance of a squared length from one, in raw units, at which
/// a vector still counts as a unit vector: two ten-thousandths.
pub const NORMALIZED_TOLERANCE_RAW: i64 = 858_993;

/// A vector in space.
#[derive(Clone, Copy, Debug, PartialEq, Eq, Structural)]
pub struct Vector {
    /// The first component.
    pub x: Scalar,
    /// The second component.
    pub y: Scalar,
    /// The third component.
    pub z: Scalar,
}

impl Vector {
    /// The zero vector.
    pub open spec fn zero_spec() -> Vector {
        Vector { x: Scalar { raw: 0 }, y: Scalar { raw: 0 }, z: Scalar { raw: 0 } }
    }

    /// The component-wise sum.
    pub open spec fn add_spec(self, rhs: Vector) -> Vector {
        Vector { x: self.x.add_spec(rhs.x), y: self.y.add_spec(rhs.y), z: self.z.add_spec(rhs.z) }
    }

    /// The component-wise difference.
    pub open spec fn sub_spec(self, rhs: Vector) -> Vector {
        Vector { x: self.x.sub_spec(rhs.x), y: self.y.sub_spec(rhs.y), z: self.z.sub_spec(rhs.z) }
    }

    /// The opposite vector.
    pub open spec fn neg_spec(self) -> Vector {
        Vector { x: self.x.neg_spec(), y: self.y.neg_spec(), z: self.z.neg_spec() }
    }

    /// The vector with each component multiplied by `s`.
    pub open spec fn scale_spec(self, s: Scalar) -> Vector {
        Vector { x: self.x.mul_spec(s), y: self.y.mul_spec(s), z: self.z.mul_spec(s) }
    }

    /// The dot product.
    pub open spec fn dot_spec(self, rhs: Vector) -> Scalar {
        self.x.mul_spec(rhs.x).add_spec(self.y.mul_spec(rhs.y)).add_spec(self.z.mul_spec(rhs.z))
    }

    /// The cross product.
    pub open spec fn cross_spec(self, rhs: Vector) -> Vector {
        Vector {
            x: self.y.mul_spec(rhs.z).sub_spec(self.z.mul_spec(rhs.y)),
            y: self.z.mul_spec(rhs.x).sub_spec(self.x.mul_spec(rhs.z)),
            z: self.x.mul_spec(rhs.y).sub_spec(self.y.mul_spec(rhs.x)),
        }
    }

    /// The squared length.
    pub open spec fn length_squared_spec(self) -> Scalar {
        self.dot_spec(self)
    }

    /// The length: the square root of the exact sum of the squared raw
    /// components, rounded down and saturated.
    pub open spec fn length_spec(self) -> Scalar {
        self.x.hypot3_spec(self.y, self.z)
    }

    /// The vector divided by its length.
    pub open spec fn normalize_spec(self) -> Vector {
        Vector {
            x: self.x.div_spec(self.length_spec()),
            y: self.y.div_spec(self.length_spec()),
            z: self.z.div_spec(self.length_spec()),
        }
    }

    /// The unit vector along this one: the vector divided by its length, or
    /// `None` where its length is zero or what comes out is no unit vector.
    pub open spec fn try_normalize_spec(self) -> Option<Vector> {
        if self.length_spec()@ == 0 || !self.normalize_spec().is_normalized_spec() {
            None
        } else {
            Some(self.normalize_spec())
        }
    }

    /// Whether the squared length is within the tolerance of one.
    pub open spec fn is_normalized_spec(self) -> bool {
        self.length_squared_spec().sub_spec(Scalar { raw: ONE_RAW }).abs_spec()@
            <= NORMALIZED_TOLERANCE_RAW
    }

    /// A vector at a right angle to this one, and of unit length where this
    /// one is: with `s` the sign of `z` (one for zero) and `a = -1 / (s + z)`,
    /// the vector `(x y a, s + y y a, -y)`.
    pub open spec fn any_orthonormal_vector_spec(self) -> Vector {
        let sign = if self.z@ >= 0 {
            Scalar { raw: ONE_RAW }
        } else {
            Scalar::of(-ONE_RAW)
        };
        let a = Scalar::of(-ONE_RAW).div_spec(sign.add_spec(self.z));
        Vector {
            x: self.x.mul_spec(self.y).mul_spec(a),
            y: sign.add_spec(self.y.mul_spec(self.y).mul_spec(a)),
            z: self.y.neg_spec(),
        }
    }

    /// The vector with the given components.
    pub fn new(x: Scalar, y: Scalar, z: Scalar) -> (r: Vector)
        ensures
            r == (Vector { x, y, z }),
    {
        Vector { x, y, z }
    }

    /// The zero vector.
    pub fn zero() -> (r: Vector)
        ensures
            r == Vector::zero_spec(),
    {
        Vector { x: Scalar::zero(), y: Scalar::zero(), z: Scalar::zero() }
    }

    /// The component-wise sum.
    pub fn add(self, rhs: Vector) -> (r: Vector)
        ensures
            r == self.add_spec(rhs),
    {
        Vector { x: self.x.add(rhs.x), y: self.y.add(rhs.y), z: self.z.add(rhs.z) }
    }

    /// The component-wise difference.
    pub fn sub(self, rhs: Vector) -> (r: Vector)
        ensures
            r == self.sub_spec(rhs),
    {
        Vector { x: self.x.sub(rhs.x), y: self.y.sub(rhs.y), z: self.z.sub(rhs.z) }
    }

    /// The opposite vector.
    pub fn neg(self) -> (r: Vector)
        ensures
            r == self.neg_spec(),
    {
        Vector { x: self.x.neg(), y: self.y.neg(), z: self.z.neg() }
    }

    /// The vector with each component multiplied by `s`.
    pub fn scale(self, s: Scalar) -> (r: Vector)
        ensures
            r == self.scale_spec(s),
    {
        Vector { x: self.x.mul(s), y: self.y.mul(s), z: self.z.mul(s) }
    }

    /// The dot product.
    pub fn dot(self, rhs: Vector) -> (r: Scalar)
        ensures
            r == self.dot_spec(rhs),
    {
        self.x.mul(rhs.x).add(self.y.mul(rhs.y)).add(self.z.mul(rhs.z))
    }

    /// The cross product.
    pub fn cross(self, rhs: Vector) -> (r: Vector)
        ensures
            r == self.cross_spec(rhs),
    {
        Vector {
            x: self.y.mul(rhs.z).sub(self.z.mul(rhs.y)),
            y: self.z.mul(rhs.x).sub(self.x.mul(rhs.z)),
            z: self.x.mul(rhs.y).sub(self.y.mul(rhs.x)),
        }
    }

    /// The squared length.
    pub fn length_squared(self) -> (r: Scalar)
        ensures
            r == self.length_squared_spec(),
    {
        self.dot(self)
    }

    /// The length.
    pub fn length(self) -> (r: Scalar)
        ensures
            r == self.length_spec(),
    {
        self.x.hypot3(self.y, self.z)
    }

    /// The vector divided by its length. The zero vector stays zero.
    ///
    /// What comes out is a unit vector where the length is at least the least
    /// normalized length and below the end of the range. A shorter vector has
    /// too few digits for its direction to be told.
    pub fn normalize(self) -> (r: Vector)
        ensures
            r == self.normalize_spec(),
            crate::math::scalar::LEAST_NORMALIZED_LENGTH_RAW <= self.length_spec()@ < i64::MAX
                ==> r.is_normalized_spec(),
    {
        proof {
            if crate::math::scalar::LEAST_NORMALIZED_LENGTH_RAW <= self.length_spec()@ < i64::MAX {
                lemma_normalize_is_unit(self);
            }
        }
        let len = self.length();
        Vector { x: self.x.div(len), y: self.y.div(len), z: self.z.div(len) }
    }

    /// The unit vector along this one, or `None` where the vector is too
    /// short to have a direction.
    pub fn try_normalize(self) -> (r: Option<Vector>)
        ensures
            r == self.try_normalize_spec(),
            r matches Some(unit) ==> unit.is_normalized_spec(),
    {
        let len = self.length();
        if len.raw == 0 {
            None
        } else {
            let unit = Vector { x: self.x.div(len), y: self.y.div(len), z: self.z.div(len) };
            if unit.is_normalized() {
                Some(unit)
            } else {
                None
            }
        }
    }

    /// Whether the squared length is within the tolerance of one.
    pub fn is_normalized(self) -> (r: bool)
        ensures
            r == self.is_normalized_spec(),
    {
        self.length_squared().sub(Scalar::one()).abs().raw <= NORMALIZED_TOLERANCE_RAW
    }

    /// A vector at a right angle to this one, and of unit length where this
    /// one is.
    pub fn any_orthonormal_vector(self) -> (r: Vector)
        ensures
            r == self.any_orthonormal_vector_spec(),
    {
        let sign = if self.z.raw >= 0 {
            Scalar::one()
        } else {
            Scalar::from_raw(-ONE_RAW)
        };
        let a = Scalar::from_raw(-ONE_RAW).div(sign.add(self.z));
        Vector {
            x: self.x.mul(self.y).mul(a),
            y: sign.add(self.y.mul(self.y).mul(a)),
            z: self.y.neg(),
        }
    }
}

/// A vector that is neither too short nor too long, divided by its length,
/// is a unit vector: its length is at least the least normalized length and
/// below the end of the range.
pub proof fn lemma_normalize_is_unit(v: Vector)
    requires
        crate::math::scalar::LEAST_NORMALIZED_LENGTH_RAW <= v.length_spec()@ < i64::MAX,
    ensures
        v.normalize_spec().is_normalized_spec(),
{
    let one: int = ONE_RAW as int;
    let x = v.x@;
    let y = v.y@;
    let z = v.z@;
    let n = x * x + y * y + z * z;
    assert(x * x >= 0 && y * y >= 0 && z * z >= 0) by (nonlinear_arith);
    crate::math::scalar::lemma_int_sqrt_exists(n);
    let len = crate::math::scalar::int_sqrt(n);
    assert(v.length_spec()@ == len);
    let a = if x < 0 { -x } else { x };
    let b = if y < 0 { -y } else { y };
    let c = if z < 0 { -z } else { z };
    assert(a * a == x * x && b * b == y * y && c * c == z * z) by (nonlinear_arith)
        requires
            a == x || a == -x,
            b == y || b == -y,
            c == z || c == -z,
    ;
    crate::math::scalar::lemma_unit_quotients(a, b, c, len);
    let ma = (a * one) / len;
    let mb = (b * one) / len;
    let mc = (c * one) / len;
    let q = v.normalize_spec();
    assert(q.x@ == if x < 0 { -ma } else { ma });
    assert(q.y@ == if y < 0 { -mb } else { mb });
    assert(q.z@ == if z < 0 { -mc } else { mc });
    assert(q.x@ * q.x@ == ma * ma && q.y@ * q.y@ == mb * mb && q.z@ * q.z@ == mc * mc)
        by (nonlinear_arith)
        requires
            q.x@ == ma || q.x@ == -ma,
            q.y@ == mb || q.y@ == -mb,
            q.z@ == mc || q.z@ == -mc,
    ;
    assert(ma * ma >= 0 && mb * mb >= 0 && mc * mc >= 0) by (nonlinear_arith);
    assert(q.x.mul_spec(q.x)@ == (ma * ma) / one);
    assert(q.y.mul_spec(q.y)@ == (mb * mb) / one);
    assert(q.z.mul_spec(q.z)@ == (mc * mc) / one);
}

/// A vector that has a zero in each place where `v` or `s` is zero scales to
/// zero there; in particular a vector scaled by zero is the zero vector.
pub proof fn lemma_scale_zero(v: Vector, s: Scalar)
    ensures
        s@ == 0 ==> v.scale_spec(s) == Vector::zero_spec(),
        v == Vector::zero_spec() ==> v.scale_spec(s) == Vector::zero_spec(),
{
    crate::math::scalar::lemma_mul_zero(v.x, s);
    crate::math::scalar::lemma_mul_zero(v.y, s);
    crate::math::scalar::lemma_mul_zero(v.z, s);
}

/// The cross product with the zero vector is the zero vector.
pub proof fn lemma_cross_zero(a: Vector, b: Vector)
    ensures
        b == Vector::zero_spec() ==> a.cross_spec(b) == Vector::zero_spec(),
{
    crate::math::scalar::lemma_mul_zero(a.x, b.y);
    crate::math::scalar::lemma_mul_zero(a.x, b.z);
    crate::math::scalar::lemma_mul_zero(a.y, b.x);
    crate::math::scalar::lemma_mul_zero(a.y, b.z);
    crate::math::scalar::lemma_mul_zero(a.z, b.x);
    crate::math::scalar::lemma_mul_zero(a.z, b.y);
}

} // verus!
