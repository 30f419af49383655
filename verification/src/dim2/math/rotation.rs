//! Planar rotations and isometries.

use vstd::prelude::*;
use crate::math::scalar::Scalar;
use crate::math::scalar::ONE_RAW;
use crate::dim2::math::vector::Vector;

verus! {

/// A rotation in the plane, held as the cosine and sine of its angle.
#[derive(Clone, Copy, Debug, PartialEq, Eq, Structural)]
pub struct Rotation {
    /// The cosine of the angle.
    pub cos: Scalar,
    /// The sine of the angle.
    pub sin: Scalar,
}

/// A rotation followed by a translation.
#[derive(Clone, Copy, Debug, PartialEq, Eq, Structural)]
pub struct Isometry {
    /// The rotation, applied first.
    pub rotation: Rotation,
    /// The translation, applied second.
    pub translation: Vector,
}

impl Rotation {
    /// The rotation by the angle zero.
    pub open spec fn identity_spec() -> Rotation {
        Rotation { cos: Scalar { raw: ONE_RAW }, sin: Scalar { raw: 0 } }
    }

    /// The rotation by the opposite angle.
    pub open spec fn inverse_spec(self) -> Rotation {
        Rotation { cos: self.cos, sin: self.sin.neg_spec() }
    }

    /// The vector `v` turned by this rotation:
    /// `(cos * x - sin * y, sin * x + cos * y)`.
    pub open spec fn rotate_spec(self, v: Vector) -> Vector {
        Vector {
            x: self.cos.mul_spec(v.x).sub_spec(self.sin.mul_spec(v.y)),
            y: self.sin.mul_spec(v.x).add_spec(self.cos.mul_spec(v.y)),
        }
    }

    /// The rotation by the angle zero.
    pub fn identity() -> (r: Rotation)
        ensures
            r == Rotation::identity_spec(),
    {
        Rotation { cos: Scalar::one(), sin: Scalar::zero() }
    }

    /// The rotation by the opposite angle.
    pub fn inverse(self) -> (r: Rotation)
        ensures
            r == self.inverse_spec(),
    {
        Rotation { cos: self.cos, sin: self.sin.neg() }
    }

    /// The vector `v` turned by this rotation.
    pub fn rotate(self, v: Vector) -> (r: Vector)
        ensures
            r == self.rotate_spec(v),
    {
        Vector {
            x: self.cos.mul(v.x).sub(self.sin.mul(v.y)),
            y: self.sin.mul(v.x).add(self.cos.mul(v.y)),
        }
    }
}

impl Isometry {
    /// The isometry that moves nothing.
    pub open spec fn identity_spec() -> Isometry {
        Isometry {
            rotation: Rotation::identity_spec(),
            translation: Vector { x: Scalar { raw: 0 }, y: Scalar { raw: 0 } },
        }
    }

    /// The point `p` rotated, then translated.
    pub open spec fn transform_point_spec(self, p: Vector) -> Vector {
        self.rotation.rotate_spec(p).add_spec(self.translation)
    }

    /// The direction `v` rotated.
    pub open spec fn transform_vector_spec(self, v: Vector) -> Vector {
        self.rotation.rotate_spec(v)
    }

    /// The isometry with the given translation and rotation.
    pub fn new(translation: Vector, rotation: Rotation) -> (r: Isometry)
        ensures
            r == (Isometry { rotation, translation }),
    {
        Isometry { rotation, translation }
    }

    /// The isometry that moves nothing.
    pub fn identity() -> (r: Isometry)
        ensures
            r == Isometry::identity_spec(),
    {
        Isometry { rotation: Rotation::identity(), translation: Vector::zero() }
    }

    /// The point `p` rotated, then translated.
    pub fn transform_point(self, p: Vector) -> (r: Vector)
        ensures
            r == self.transform_point_spec(p),
    {
        self.rotation.rotate(p).add(self.translation)
    }

    /// The direction `v` rotated.
    pub fn transform_vector(self, v: Vector) -> (r: Vector)
        ensures
            r == self.transform_vector_spec(v),
    {
        self.rotation.rotate(v)
    }
}

} // verus!
