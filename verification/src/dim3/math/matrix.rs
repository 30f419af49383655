//! Symmetric matrices in space: inverse angular inertia tensors.

use vstd::prelude::*;
use crate::dim3::math::vector::Vector;
use crate::math::scalar::Scalar;

verus! {

/// A symmetric three-by-three matrix, held by its upper triangle.
#[derive(Clone, Copy, Debug, PartialEq, Eq, Structural)]
pub struct SymmetricMatrix {
    /// The entry in the first row and the first column.
    pub m00: Scalar,
    /// The entry in the first row and the second column.
    pub m01: Scalar,
    /// The entry in the first row and the third column.
    pub m02: Scalar,
    /// The entry in the second row and the second column.
    pub m11: Scalar,
    /// The entry in the second row and the third column.
    pub m12: Scalar,
    /// The entry in the third row and the third column.
    pub m22: Scalar,
}

impl SymmetricMatrix {
    /// The zero matrix.
    pub open spec fn zero_spec() -> SymmetricMatrix {
        SymmetricMatrix {
            m00: Scalar { raw: 0 },
            m01: Scalar { raw: 0 },
            m02: Scalar { raw: 0 },
            m11: Scalar { raw: 0 },
            m12: Scalar { raw: 0 },
            m22: Scalar { raw: 0 },
        }
    }

    /// The matrix with `s` on its diagonal and zero elsewhere.
    pub open spec fn from_diagonal_spec(s: Scalar) -> SymmetricMatrix {
        SymmetricMatrix { m00: s, m11: s, m22: s, ..SymmetricMatrix::zero_spec() }
    }

    /// The component-wise sum.
    pub open spec fn add_spec(self, rhs: SymmetricMatrix) -> SymmetricMatrix {
        SymmetricMatrix {
            m00: self.m00.add_spec(rhs.m00),
            m01: self.m01.add_spec(rhs.m01),
            m02: self.m02.add_spec(rhs.m02),
            m11: self.m11.add_spec(rhs.m11),
            m12: self.m12.add_spec(rhs.m12),
            m22: self.m22.add_spec(rhs.m22),
        }
    }

    /// The product of the matrix and the vector `v`.
    pub open spec fn mul_vector_spec(self, v: Vector) -> Vector {
        Vector {
            x: self.m00.mul_spec(v.x).add_spec(self.m01.mul_spec(v.y)).add_spec(self.m02.mul_spec(v.z)),
            y: self.m01.mul_spec(v.x).add_spec(self.m11.mul_spec(v.y)).add_spec(self.m12.mul_spec(v.z)),
            z: self.m02.mul_spec(v.x).add_spec(self.m12.mul_spec(v.y)).add_spec(self.m22.mul_spec(v.z)),
        }
    }

    /// The zero matrix.
    pub fn zero() -> (r: SymmetricMatrix)
        ensures
            r == SymmetricMatrix::zero_spec(),
    {
        SymmetricMatrix {
            m00: Scalar::zero(),
            m01: Scalar::zero(),
            m02: Scalar::zero(),
            m11: Scalar::zero(),
            m12: Scalar::zero(),
            m22: Scalar::zero(),
        }
    }

    /// The matrix with `s` on its diagonal and zero elsewhere.
    pub fn from_diagonal(s: Scalar) -> (r: SymmetricMatrix)
        ensures
            r == SymmetricMatrix::from_diagonal_spec(s),
    {
        SymmetricMatrix {
            m00: s,
            m01: Scalar::zero(),
            m02: Scalar::zero(),
            m11: s,
            m12: Scalar::zero(),
            m22: s,
        }
    }

    /// The component-wise sum.
    pub fn add(self, rhs: SymmetricMatrix) -> (r: SymmetricMatrix)
        ensures
            r == self.add_spec(rhs),
    {
        SymmetricMatrix {
            m00: self.m00.add(rhs.m00),
            m01: self.m01.add(rhs.m01),
            m02: self.m02.add(rhs.m02),
            m11: self.m11.add(rhs.m11),
            m12: self.m12.add(rhs.m12),
            m22: self.m22.add(rhs.m22),
        }
    }

    /// The product of the matrix and the vector `v`.
    pub fn mul_vector(self, v: Vector) -> (r: Vector)
        ensures
            r == self.mul_vector_spec(v),
    {
        Vector {
            x: self.m00.mul(v.x).add(self.m01.mul(v.y)).add(self.m02.mul(v.z)),
            y: self.m01.mul(v.x).add(self.m11.mul(v.y)).add(self.m12.mul(v.z)),
            z: self.m02.mul(v.x).add(self.m12.mul(v.y)).add(self.m22.mul(v.z)),
        }
    }
}

/// The product of the zero matrix and any vector, and of any matrix and the
/// zero vector, is the zero vector.
pub proof fn lemma_mul_vector_zero(m: SymmetricMatrix, v: Vector)
    ensures
        m == SymmetricMatrix::zero_spec() ==> m.mul_vector_spec(v) == Vector::zero_spec(),
        v == Vector::zero_spec() ==> m.mul_vector_spec(v) == Vector::zero_spec(),
{
    crate::math::scalar::lemma_mul_zero(m.m00, v.x);
    crate::math::scalar::lemma_mul_zero(m.m01, v.y);
    crate::math::scalar::lemma_mul_zero(m.m02, v.z);
    crate::math::scalar::lemma_mul_zero(m.m01, v.x);
    crate::math::scalar::lemma_mul_zero(m.m11, v.y);
    crate::math::scalar::lemma_mul_zero(m.m12, v.z);
    crate::math::scalar::lemma_mul_zero(m.m02, v.x);
    crate::math::scalar::lemma_mul_zero(m.m12, v.y);
    crate::math::scalar::lemma_mul_zero(m.m22, v.z);
}

} // verus!
