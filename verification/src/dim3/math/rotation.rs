//! Rotations and isometries in space.

use vstd::prelude::*;
use crate::dim3::math::vector::Vector;
use crate::math::scalar::Scalar;
use crate::math::scalar::ONE_RAW;

verus! {

/// A rotation in space, held as a unit quaternion.
#[derive(Clone, Copy, Debug, PartialEq, Eq, Structural)]
pub struct Rotation {
    /// The first component of the vector part.
    pub x: Scalar,
    /// The second component of the vector part.
    pub y: Scalar,
    /// The third component of the vector part.
    pub z: Scalar,
    /// The scalar part.
    pub w: Scalar,
}

/// A rotation followed by a translation.
#[derive(Clone, Copy, Debug, PartialEq, Eq, Structural)]
pub struct Isometry {
    /// The rotation, applied first.
    pub rotation: Rotation,
    /// The translation, applied second.
    pub translation: Vector,
}

impl Rotation {
    /// The rotation that turns nothing.
    pub open spec fn identity_spec() -> Rotation {
        Rotation {
            x: Scalar { raw: 0 },
            y: Scalar { raw: 0 },
            z: Scalar { raw: 0 },
            w: Scalar { raw: ONE_RAW },
        }
    }

    /// The vector part of the quaternion.
    pub open spec fn axis_part_spec(self) -> Vector {
        Vector { x: self.x, y: self.y, z: self.z }
    }

    /// The opposite rotation: the conjugate of the quaternion.
    pub open spec fn inverse_spec(self) -> Rotation {
        Rotation { x: self.x.neg_spec(), y: self.y.neg_spec(), z: self.z.neg_spec(), w: self.w }
    }

    /// The vector `v` turned by this rotation: with `b` the vector part and
    /// `w` the scalar part of the quaternion,
    /// `v (w w - b . b) + b (2 (v . b)) + (b x v) (2 w)`.
    pub open spec fn rotate_spec(self, v: Vector) -> Vector {
        let b = self.axis_part_spec();
        let two = Scalar::of(2 * ONE_RAW);
        v.scale_spec(self.w.mul_spec(self.w).sub_spec(b.dot_spec(b))).add_spec(
            b.scale_spec(v.dot_spec(b).mul_spec(two)),
        ).add_spec(b.cross_spec(v).scale_spec(self.w.mul_spec(two)))
    }

    /// The rotation that turns nothing.
    pub fn identity() -> (r: Rotation)
        ensures
            r == Rotation::identity_spec(),
    {
        Rotation { x: Scalar::zero(), y: Scalar::zero(), z: Scalar::zero(), w: Scalar::one() }
    }

    /// The opposite rotation.
    pub fn inverse(self) -> (r: Rotation)
        ensures
            r == self.inverse_spec(),
    {
        Rotation { x: self.x.neg(), y: self.y.neg(), z: self.z.neg(), w: self.w }
    }

    /// The vector `v` turned by this rotation.
    pub fn rotate(self, v: Vector) -> (r: Vector)
        ensures
            r == self.rotate_spec(v),
    {
        let b = Vector::new(self.x, self.y, self.z);
        let two = Scalar::from_int(2);
        v.scale(self.w.mul(self.w).sub(b.dot(b))).add(b.scale(v.dot(b).mul(two))).add(
            b.cross(v).scale(self.w.mul(two)),
        )
    }
}

impl Isometry {
    /// The isometry that moves nothing.
    pub open spec fn identity_spec() -> Isometry {
        Isometry { rotation: Rotation::identity_spec(), translation: Vector::zero_spec() }
    }

    /// The point `p` rotated, then translated.
    pub open spec fn transform_point_spec(self, p: Vector) -> Vector {
        self.rotation.rotate_spec(p).add_spec(self.translation)
    }

    /// The direction `v` rotated.
    pub open spec fn transform_vector_spec(self, v: Vector) -> Vector {
        self.rotation.rotate_spec(v)
    }

    /// The isometry with the given translation and rotation.
    pub fn new(translation: Vector, rotation: Rotation) -> (r: Isometry)
        ensures
            r == (Isometry { rotation, translation }),
    {
        Isometry { rotation, translation }
    }

    /// The isometry that moves nothing.
    pub fn identity() -> (r: Isometry)
        ensures
            r == Isometry::identity_spec(),
    {
        Isometry { rotation: Rotation::identity(), translation: Vector::zero() }
    }

    /// The point `p` rotated, then translated.
    pub fn transform_point(self, p: Vector) -> (r: Vector)
        ensures
            r == self.transform_point_spec(p),
    {
        self.rotation.rotate(p).add(self.translation)
    }

    /// The direction `v` rotated.
    pub fn transform_vector(self, v: Vector) -> (r: Vector)
        ensures
            r == self.transform_vector_spec(v),
    {
        self.rotation.rotate(v)
    }
}

} // verus!
