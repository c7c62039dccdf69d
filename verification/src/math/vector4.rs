//! Four-component vectors: homogeneous coordinates of 3D points.

use crate::math::scalar::dot4;
use crate::math::scalar::dot4_ensures;
use crate::math::scalar::dot4_req;
use crate::math::scalar::dot4_spec;
use crate::math::scalar::exact;
use crate::math::scalar::is_one;
use crate::math::scalar::one;
use crate::math::scalar::one_spec;
use crate::math::scalar::Scalar;
use crate::math::vector3::Vector3;
use vstd::prelude::*;
use vstd::std_specs::convert::FromSpecImpl;

verus! {

/// A vector with components `x`, `y`, `z`, `w`.
#[derive(Clone, Copy, Debug, PartialEq)]
pub struct Vector4<T> {
    pub x: T,
    pub y: T,
    pub z: T,
    pub w: T,
}

impl<T: Scalar> Vector4<T> {
    /// The vector `(x, y, z, w)`.
    pub fn new(x: T, y: T, z: T, w: T) -> (v: Self)
        ensures
            v == (Vector4 { x, y, z, w }),
    {
        Vector4 { x, y, z, w }
    }

    /// Whether the dot product with `rhs` may be computed.
    pub open spec fn dot_req(self, rhs: Self) -> bool {
        dot4_req(self.x, rhs.x, self.y, rhs.y, self.z, rhs.z, self.w, rhs.w)
    }

    /// `r` is a value that the dot product with `rhs` may return.
    pub open spec fn dot_ensures(self, rhs: Self, r: T) -> bool {
        dot4_ensures(self.x, rhs.x, self.y, rhs.y, self.z, rhs.z, self.w, rhs.w, r)
    }

    /// The dot product `x * x' + y * y' + z * z' + w * w'`, summed left to
    /// right.
    pub open spec fn dot_spec(self, rhs: Self) -> T {
        dot4_spec(self.x, rhs.x, self.y, rhs.y, self.z, rhs.z, self.w, rhs.w)
    }

    /// The dot product with `rhs`.
    pub fn dot(self, rhs: Self) -> (r: T)
        requires
            self.dot_req(rhs),
        ensures
            self.dot_ensures(rhs, r),
            exact::<T>() ==> r == self.dot_spec(rhs),
    {
        dot4(self.x, rhs.x, self.y, rhs.y, self.z, rhs.z, self.w, rhs.w)
    }
}

/// `h` is a homogeneous point of `v`: the same `x`, `y`, `z`, and for `w`
/// a value of the constant 1.
pub open spec fn lift_ensures<T: Scalar>(v: Vector3<T>, h: Vector4<T>) -> bool {
    h.x == v.x && h.y == v.y && h.z == v.z && is_one(h.w)
}

/// The homogeneous point of `v`: the same `x`, `y`, `z`, and `w = 1`.
pub open spec fn lift_spec<T: Scalar>(v: Vector3<T>) -> Vector4<T> {
    Vector4 { x: v.x, y: v.y, z: v.z, w: one_spec::<T>() }
}

/// The first three components of `v`; `w` is dropped, not divided by.
pub open spec fn project_spec<T: Scalar>(v: Vector4<T>) -> Vector3<T> {
    Vector3 { x: v.x, y: v.y, z: v.z }
}

impl<T: Scalar> From<Vector3<T>> for Vector4<T> {
    /// Lifts a point to homogeneous coordinates.
    fn from(v: Vector3<T>) -> (r: Vector4<T>)
        ensures
            lift_ensures(v, r),
    {
        Vector4 { x: v.x, y: v.y, z: v.z, w: one::<T>() }
    }
}

impl<T: Scalar> FromSpecImpl<Vector3<T>> for Vector4<T> {
    open spec fn obeys_from_spec() -> bool {
        exact::<T>()
    }

    open spec fn from_spec(v: Vector3<T>) -> Vector4<T> {
        lift_spec(v)
    }
}

impl<T: Scalar> From<Vector4<T>> for Vector3<T> {
    /// Projects a homogeneous point back to 3D by dropping `w`.
    fn from(v: Vector4<T>) -> (r: Vector3<T>) {
        Vector3 { x: v.x, y: v.y, z: v.z }
    }
}

impl<T: Scalar> FromSpecImpl<Vector4<T>> for Vector3<T> {
    open spec fn obeys_from_spec() -> bool {
        true
    }

    open spec fn from_spec(v: Vector4<T>) -> Vector3<T> {
        project_spec(v)
    }
}

impl<T: Scalar> From<[T; 4]> for Vector4<T> {
    /// The vector whose components are the array's items, in order.
    fn from(a: [T; 4]) -> (r: Vector4<T>) {
        Vector4 { x: a[0], y: a[1], z: a[2], w: a[3] }
    }
}

impl<T: Scalar> FromSpecImpl<[T; 4]> for Vector4<T> {
    open spec fn obeys_from_spec() -> bool {
        true
    }

    open spec fn from_spec(a: [T; 4]) -> Vector4<T> {
        Vector4 { x: a[0], y: a[1], z: a[2], w: a[3] }
    }
}

} // verus!
