//! Three-component vectors: points and directions of 3D space.

use crate::math::scalar::dot3;
use crate::math::scalar::dot3_ensures;
use crate::math::scalar::dot3_req;
use crate::math::scalar::dot3_spec;
use crate::math::scalar::exact;
use crate::math::scalar::is_difference;
use crate::math::scalar::is_neg;
use crate::math::scalar::is_quotient;
use crate::math::scalar::is_sum;
use crate::math::scalar::may_add;
use crate::math::scalar::may_div;
use crate::math::scalar::may_neg;
use crate::math::scalar::may_sub;
use crate::math::scalar::mul_sub;
use crate::math::scalar::mul_sub_ensures;
use crate::math::scalar::mul_sub_req;
use crate::math::scalar::mul_sub_spec;
use crate::math::scalar::Scalar;
use crate::math::scalar::ScalarDiv;
use core::ops::Add;
use core::ops::Div;
use core::ops::Neg;
use core::ops::Sub;
use vstd::prelude::*;
use vstd::std_specs::ops::AddSpec;
use vstd::std_specs::ops::AddSpecImpl;
use vstd::std_specs::ops::DivSpec;
use vstd::std_specs::ops::DivSpecImpl;
use vstd::std_specs::ops::NegSpec;
use vstd::std_specs::ops::NegSpecImpl;
use vstd::std_specs::ops::SubSpec;
use vstd::std_specs::ops::SubSpecImpl;

verus! {

/// A vector with components `x`, `y`, `z`.
#[derive(Clone, Copy, Debug, PartialEq)]
pub struct Vector3<T> {
    pub x: T,
    pub y: T,
    pub z: T,
}

impl<T: Scalar> Vector3<T> {
    /// The vector `(x, y, z)`.
    pub fn new(x: T, y: T, z: T) -> (v: Self)
        ensures
            v == (Vector3 { x, y, z }),
    {
        Vector3 { x, y, z }
    }

    /// Whether every component may be negated.
    pub open spec fn opposite_req(self) -> bool {
        may_neg(self.x) && may_neg(self.y) && may_neg(self.z)
    }

    /// `r` is a value that `-self` may return.
    pub open spec fn opposite_ensures(self, r: Self) -> bool {
        is_neg(self.x, r.x) && is_neg(self.y, r.y) && is_neg(self.z, r.z)
    }

    /// The opposite vector.
    pub open spec fn opposite_spec(self) -> Self {
        Vector3 { x: self.x.neg_spec(), y: self.y.neg_spec(), z: self.z.neg_spec() }
    }

    /// Whether `rhs` may be added, component by component.
    pub open spec fn plus_req(self, rhs: Self) -> bool {
        may_add(self.x, rhs.x) && may_add(self.y, rhs.y) && may_add(self.z, rhs.z)
    }

    /// `r` is a value that `self + rhs` may return.
    pub open spec fn plus_ensures(self, rhs: Self, r: Self) -> bool {
        is_sum(self.x, rhs.x, r.x) && is_sum(self.y, rhs.y, r.y) && is_sum(self.z, rhs.z, r.z)
    }

    /// The sum, component by component.
    pub open spec fn plus_spec(self, rhs: Self) -> Self {
        Vector3 {
            x: self.x.add_spec(rhs.x),
            y: self.y.add_spec(rhs.y),
            z: self.z.add_spec(rhs.z),
        }
    }

    /// Whether `rhs` may be subtracted, component by component.
    pub open spec fn minus_req(self, rhs: Self) -> bool {
        may_sub(self.x, rhs.x) && may_sub(self.y, rhs.y) && may_sub(self.z, rhs.z)
    }

    /// `r` is a value that `self - rhs` may return.
    pub open spec fn minus_ensures(self, rhs: Self, r: Self) -> bool {
        &&& is_difference(self.x, rhs.x, r.x)
        &&& is_difference(self.y, rhs.y, r.y)
        &&& is_difference(self.z, rhs.z, r.z)
    }

    /// The difference, component by component.
    pub open spec fn minus_spec(self, rhs: Self) -> Self {
        Vector3 {
            x: self.x.sub_spec(rhs.x),
            y: self.y.sub_spec(rhs.y),
            z: self.z.sub_spec(rhs.z),
        }
    }

    /// Whether the dot product with `rhs` may be computed.
    pub open spec fn dot_req(self, rhs: Self) -> bool {
        dot3_req(self.x, rhs.x, self.y, rhs.y, self.z, rhs.z)
    }

    /// `r` is a value that the dot product with `rhs` may return.
    pub open spec fn dot_ensures(self, rhs: Self, r: T) -> bool {
        dot3_ensures(self.x, rhs.x, self.y, rhs.y, self.z, rhs.z, r)
    }

    /// The dot product `x * x' + y * y' + z * z'`, summed left to right.
    pub open spec fn dot_spec(self, rhs: Self) -> T {
        dot3_spec(self.x, rhs.x, self.y, rhs.y, self.z, rhs.z)
    }

    /// The dot product with `rhs`.
    pub fn dot(self, rhs: Self) -> (r: T)
        requires
            self.dot_req(rhs),
        ensures
            self.dot_ensures(rhs, r),
            exact::<T>() ==> r == self.dot_spec(rhs),
    {
        dot3(self.x, rhs.x, self.y, rhs.y, self.z, rhs.z)
    }

    /// Whether the cross product with `rhs` may be computed.
    pub open spec fn cross_req(self, rhs: Self) -> bool {
        &&& mul_sub_req(self.y, rhs.z, self.z, rhs.y)
        &&& mul_sub_req(self.z, rhs.x, self.x, rhs.z)
        &&& mul_sub_req(self.x, rhs.y, self.y, rhs.x)
    }

    /// `r` is a value that the cross product with `rhs` may return.
    pub open spec fn cross_ensures(self, rhs: Self, r: Self) -> bool {
        &&& mul_sub_ensures(self.y, rhs.z, self.z, rhs.y, r.x)
        &&& mul_sub_ensures(self.z, rhs.x, self.x, rhs.z, r.y)
        &&& mul_sub_ensures(self.x, rhs.y, self.y, rhs.x, r.z)
    }

    /// The cross product `self x rhs`.
    pub open spec fn cross_spec(self, rhs: Self) -> Self {
        Vector3 {
            x: mul_sub_spec(self.y, rhs.z, self.z, rhs.y),
            y: mul_sub_spec(self.z, rhs.x, self.x, rhs.z),
            z: mul_sub_spec(self.x, rhs.y, self.y, rhs.x),
        }
    }

    /// The cross product `self x rhs`.
    pub fn cross(self, rhs: Self) -> (r: Self)
        requires
            self.cross_req(rhs),
        ensures
            self.cross_ensures(rhs, r),
            exact::<T>() ==> r == self.cross_spec(rhs),
    {
        Vector3 {
            x: mul_sub(self.y, rhs.z, self.z, rhs.y),
            y: mul_sub(self.z, rhs.x, self.x, rhs.z),
            z: mul_sub(self.x, rhs.y, self.y, rhs.x),
        }
    }
}

impl<T: ScalarDiv> Vector3<T> {
    /// Whether every component may be divided by `n`.
    pub open spec fn over_req(self, n: T) -> bool {
        may_div(self.x, n) && may_div(self.y, n) && may_div(self.z, n)
    }

    /// `r` is a value that `self / n` may return.
    pub open spec fn over_ensures(self, n: T, r: Self) -> bool {
        is_quotient(self.x, n, r.x) && is_quotient(self.y, n, r.y) && is_quotient(self.z, n, r.z)
    }

    /// Every component divided by `n`.
    pub open spec fn over_spec(self, n: T) -> Self {
        Vector3 { x: self.x.div_spec(n), y: self.y.div_spec(n), z: self.z.div_spec(n) }
    }

    /// Whether `self` may be normalised with the square root `sqrt`: the
    /// squared length may be computed, and `self` may be divided by
    /// whatever `sqrt` returns for it.
    pub open spec fn normalize_req<F: Fn(T) -> T>(self, sqrt: F) -> bool {
        &&& self.dot_req(self)
        &&& forall|d: T, n: T|
            #![trigger self.dot_ensures(self, d), call_ensures(sqrt, (d,), n)]
            self.dot_ensures(self, d) && call_ensures(sqrt, (d,), n) ==> self.over_req(n)
    }

    /// `r` is a value that normalising `self` may return: `self` divided
    /// by what `sqrt` returns for the dot product of `self` with itself.
    pub open spec fn normalized<F: Fn(T) -> T>(self, sqrt: F, r: Self) -> bool {
        exists|d: T, n: T|
            #![trigger self.dot_ensures(self, d), call_ensures(sqrt, (d,), n)]
            self.dot_ensures(self, d) && call_ensures(sqrt, (d,), n) && self.over_ensures(n, r)
    }

    /// The vector divided by its length, the length being what `sqrt`
    /// returns for the dot product of the vector with itself.
    pub fn normalize<F: Fn(T) -> T>(self, sqrt: &F) -> (r: Self)
        requires
            forall|x: T| call_requires(*sqrt, (x,)),
            self.normalize_req(*sqrt),
        ensures
            self.normalized(*sqrt, r),
    {
        let d = self.dot(self);
        let n = sqrt(d);
        let r = self / n;
        r
    }
}

impl<T: ScalarDiv> Div<T> for Vector3<T> {
    type Output = Vector3<T>;

    /// Every component divided by `rhs`. The precondition, `div_req`, is
    /// `over_req`.
    fn div(self, rhs: T) -> (r: Vector3<T>)
        ensures
            self.over_ensures(rhs, r),
    {
        Vector3 { x: self.x / rhs, y: self.y / rhs, z: self.z / rhs }
    }
}

impl<T: ScalarDiv> DivSpecImpl<T> for Vector3<T> {
    open spec fn obeys_div_spec() -> bool {
        <T as DivSpec>::obeys_div_spec()
    }

    open spec fn div_req(self, rhs: T) -> bool {
        self.over_req(rhs)
    }

    open spec fn div_spec(self, rhs: T) -> Vector3<T> {
        self.over_spec(rhs)
    }
}

impl<T: Scalar> Neg for Vector3<T> {
    type Output = Vector3<T>;

    /// The opposite vector. The precondition, `neg_req`, is `opposite_req`.
    fn neg(self) -> (r: Vector3<T>)
        ensures
            self.opposite_ensures(r),
    {
        Vector3 { x: self.x.neg(), y: self.y.neg(), z: self.z.neg() }
    }
}

impl<T: Scalar> NegSpecImpl for Vector3<T> {
    open spec fn obeys_neg_spec() -> bool {
        <T as NegSpec>::obeys_neg_spec()
    }

    open spec fn neg_req(self) -> bool {
        self.opposite_req()
    }

    open spec fn neg_spec(self) -> Vector3<T> {
        self.opposite_spec()
    }
}

impl<T: Scalar> Add for Vector3<T> {
    type Output = Vector3<T>;

    /// The sum, component by component. The precondition, `add_req`, is
    /// `plus_req`.
    fn add(self, rhs: Vector3<T>) -> (r: Vector3<T>)
        ensures
            self.plus_ensures(rhs, r),
    {
        Vector3 { x: self.x + rhs.x, y: self.y + rhs.y, z: self.z + rhs.z }
    }
}

impl<T: Scalar> AddSpecImpl for Vector3<T> {
    open spec fn obeys_add_spec() -> bool {
        <T as AddSpec>::obeys_add_spec()
    }

    open spec fn add_req(self, rhs: Vector3<T>) -> bool {
        self.plus_req(rhs)
    }

    open spec fn add_spec(self, rhs: Vector3<T>) -> Vector3<T> {
        self.plus_spec(rhs)
    }
}

impl<T: Scalar> Sub for Vector3<T> {
    type Output = Vector3<T>;

    /// The difference, component by component. The precondition,
    /// `sub_req`, is `minus_req`.
    fn sub(self, rhs: Vector3<T>) -> (r: Vector3<T>)
        ensures
            self.minus_ensures(rhs, r),
    {
        Vector3 { x: self.x - rhs.x, y: self.y - rhs.y, z: self.z - rhs.z }
    }
}

impl<T: Scalar> SubSpecImpl for Vector3<T> {
    open spec fn obeys_sub_spec() -> bool {
        <T as SubSpec>::obeys_sub_spec()
    }

    open spec fn sub_req(self, rhs: Vector3<T>) -> bool {
        self.minus_req(rhs)
    }

    open spec fn sub_spec(self, rhs: Vector3<T>) -> Vector3<T> {
        self.minus_spec(rhs)
    }
}

} // verus!
