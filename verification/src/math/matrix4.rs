//! 4x4 matrices in row-major order: the homogeneous transforms of 3D space.
//!
//! A matrix is seen through its view, the sequence of its sixteen entries
//! row by row. Of each operation the file states a precondition
//! (`*_chain`), the relation between arguments and result that holds for
//! every element type (`*_result`), and the result itself where the
//! element type is exact (`*_model`).

use crate::math::scalar::add_mul3;
use crate::math::scalar::add_mul3_ensures;
use crate::math::scalar::add_mul3_req;
use crate::math::scalar::add_mul3_spec;
use crate::math::scalar::exact;
use crate::math::scalar::is_difference;
use crate::math::scalar::is_neg;
use crate::math::scalar::is_one;
use crate::math::scalar::is_sum;
use crate::math::scalar::is_zero;
use crate::math::scalar::may_add;
use crate::math::scalar::may_neg;
use crate::math::scalar::may_sub;
use crate::math::scalar::mul3_add_mul;
use crate::math::scalar::mul3_add_mul_ensures;
use crate::math::scalar::mul3_add_mul_req;
use crate::math::scalar::mul3_add_mul_spec;
use crate::math::scalar::mul3_sub_mul;
use crate::math::scalar::mul3_sub_mul_ensures;
use crate::math::scalar::mul3_sub_mul_req;
use crate::math::scalar::mul3_sub_mul_spec;
use crate::math::scalar::one;
use crate::math::scalar::one_spec;
use crate::math::scalar::Scalar;
use crate::math::scalar::ScalarDiv;
use crate::math::scalar::zero;
use crate::math::scalar::zero_spec;
use crate::math::vector3::Vector3;
use crate::math::vector4::lift_ensures;
use crate::math::vector4::lift_spec;
use crate::math::vector4::Vector4;
use core::ops::Add;
use core::ops::Mul;
use core::ops::Neg;
use core::ops::Sub;
use vstd::prelude::*;
use vstd::std_specs::convert::FromSpecImpl;
use vstd::std_specs::ops::AddSpec;
use vstd::std_specs::ops::AddSpecImpl;
use vstd::std_specs::ops::MulSpecImpl;
use vstd::std_specs::ops::NegSpec;
use vstd::std_specs::ops::NegSpecImpl;
use vstd::std_specs::ops::SubSpec;
use vstd::std_specs::ops::SubSpecImpl;

verus! {

/// A 4x4 matrix. Item `4 * row + col` of its view is the entry in that row
/// and column.
#[derive(Clone, Copy, Debug, PartialEq)]
pub struct Matrix4<T> {
    v: [T; 16],
}

impl<T> View for Matrix4<T> {
    type V = Seq<T>;

    closed spec fn view(&self) -> Seq<T> {
        self.v@
    }
}

/// The sequence of the sixteen given items.
pub open spec fn seq16<T>(
    e0: T,
    e1: T,
    e2: T,
    e3: T,
    e4: T,
    e5: T,
    e6: T,
    e7: T,
    e8: T,
    e9: T,
    e10: T,
    e11: T,
    e12: T,
    e13: T,
    e14: T,
    e15: T,
) -> Seq<T> {
    Seq::new(
        16,
        |i: int|
            if i == 0 {
                e0
            } else if i == 1 {
                e1
            } else if i == 2 {
                e2
            } else if i == 3 {
                e3
            } else if i == 4 {
                e4
            } else if i == 5 {
                e5
            } else if i == 6 {
                e6
            } else if i == 7 {
                e7
            } else if i == 8 {
                e8
            } else if i == 9 {
                e9
            } else if i == 10 {
                e10
            } else if i == 11 {
                e11
            } else if i == 12 {
                e12
            } else if i == 13 {
                e13
            } else if i == 14 {
                e14
            } else {
                e15
            },
    )
}

/// `z` and `o` are values of the constants 0 and 1.
pub open spec fn constants<T: Scalar>(z: T, o: T) -> bool {
    is_zero(z) && is_one(o)
}

/// Sixteen times `z`.
pub open spec fn zero_with<T>(z: T) -> Seq<T> {
    Seq::new(16, |i: int| z)
}

/// `m` is a matrix of zeros.
pub open spec fn zero_result<T: Scalar>(m: Seq<T>) -> bool {
    exists|z: T| #[trigger] is_zero(z) && m == zero_with(z)
}

/// Sixteen zeros.
pub open spec fn zero_model<T: Scalar>() -> Seq<T> {
    zero_with(zero_spec::<T>())
}

/// The identity over the constants `z` and `o`: `o` on the diagonal, `z`
/// elsewhere.
pub open spec fn unit_with<T>(z: T, o: T) -> Seq<T> {
    seq16(o, z, z, z, z, o, z, z, z, z, o, z, z, z, z, o)
}

/// `m` is an identity matrix.
pub open spec fn unit_result<T: Scalar>(m: Seq<T>) -> bool {
    exists|z: T, o: T| #[trigger] constants(z, o) && m == unit_with(z, o)
}

/// The identity: ones on the diagonal, zeros elsewhere.
pub open spec fn unit_model<T: Scalar>() -> Seq<T> {
    unit_with(zero_spec::<T>(), one_spec::<T>())
}

/// The translation by `v` over the constants `z` and `o`: the identity
/// with `v` in the last column of the first three rows.
pub open spec fn translate_with<T>(v: Vector3<T>, z: T, o: T) -> Seq<T> {
    seq16(o, z, z, v.x, z, o, z, v.y, z, z, o, v.z, z, z, z, o)
}

/// `m` is a translation by `v`.
pub open spec fn translate_result<T: Scalar>(v: Vector3<T>, m: Seq<T>) -> bool {
    exists|z: T, o: T| #[trigger] constants(z, o) && m == translate_with(v, z, o)
}

/// The translation by `v`.
pub open spec fn translate_model<T: Scalar>(v: Vector3<T>) -> Seq<T> {
    translate_with(v, zero_spec::<T>(), one_spec::<T>())
}

/// The scaling by `v` over the constants `z` and `o`: `v.x`, `v.y`, `v.z`,
/// `o` on the diagonal.
pub open spec fn scale_with<T>(v: Vector3<T>, z: T, o: T) -> Seq<T> {
    seq16(v.x, z, z, z, z, v.y, z, z, z, z, v.z, z, z, z, z, o)
}

/// `m` is a scaling by `v`.
pub open spec fn scale_result<T: Scalar>(v: Vector3<T>, m: Seq<T>) -> bool {
    exists|z: T, o: T| #[trigger] constants(z, o) && m == scale_with(v, z, o)
}

/// The scaling by `v`.
pub open spec fn scale_model<T: Scalar>(v: Vector3<T>) -> Seq<T> {
    scale_with(v, zero_spec::<T>(), one_spec::<T>())
}

/// The linear map whose columns are `x`, `y`, `z`, made affine over the
/// constants `n` and `o` by a last row and column of `n, n, n, o`.
pub open spec fn basis_with<T>(x: Vector3<T>, y: Vector3<T>, z: Vector3<T>, n: T, o: T) -> Seq<T> {
    seq16(x.x, y.x, z.x, n, x.y, y.y, z.y, n, x.z, y.z, z.z, n, n, n, n, o)
}

/// `m` is the matrix whose columns are `x`, `y`, `z`.
pub open spec fn basis_result<T: Scalar>(
    x: Vector3<T>,
    y: Vector3<T>,
    z: Vector3<T>,
    m: Seq<T>,
) -> bool {
    exists|n: T, o: T| #[trigger] constants(n, o) && m == basis_with(x, y, z, n, o)
}

/// The matrix whose columns are `x`, `y`, `z`.
pub open spec fn basis_model<T: Scalar>(x: Vector3<T>, y: Vector3<T>, z: Vector3<T>) -> Seq<T> {
    basis_with(x, y, z, zero_spec::<T>(), one_spec::<T>())
}

/// Whether the nine entries of Rodrigues' formula may be computed for the
/// axis `a`, the cosine `c`, the sine `s` and `t = 1 - c`.
pub open spec fn rodrigues_chain<T: Scalar>(a: Vector3<T>, c: T, s: T, t: T) -> bool {
    &&& add_mul3_req(c, a.x, a.x, t)
    &&& mul3_sub_mul_req(a.x, a.y, t, a.z, s)
    &&& mul3_add_mul_req(a.x, a.z, t, a.y, s)
    &&& mul3_add_mul_req(a.y, a.x, t, a.z, s)
    &&& add_mul3_req(c, a.y, a.y, t)
    &&& mul3_sub_mul_req(a.y, a.z, t, a.x, s)
    &&& mul3_sub_mul_req(a.z, a.x, t, a.y, s)
    &&& mul3_add_mul_req(a.z, a.y, t, a.x, s)
    &&& add_mul3_req(c, a.z, a.z, t)
}

/// `m` holds entries that Rodrigues' formula may give for the axis `a`,
/// the cosine `c`, the sine `s` and `t = 1 - c`, over the constants `z`
/// and `o`.
pub open spec fn rodrigues_result<T: Scalar>(
    a: Vector3<T>,
    c: T,
    s: T,
    t: T,
    z: T,
    o: T,
    m: Seq<T>,
) -> bool {
    &&& m.len() == 16
    &&& add_mul3_ensures(c, a.x, a.x, t, m[0])
    &&& mul3_sub_mul_ensures(a.x, a.y, t, a.z, s, m[1])
    &&& mul3_add_mul_ensures(a.x, a.z, t, a.y, s, m[2])
    &&& m[3] == z
    &&& mul3_add_mul_ensures(a.y, a.x, t, a.z, s, m[4])
    &&& add_mul3_ensures(c, a.y, a.y, t, m[5])
    &&& mul3_sub_mul_ensures(a.y, a.z, t, a.x, s, m[6])
    &&& m[7] == z
    &&& mul3_sub_mul_ensures(a.z, a.x, t, a.y, s, m[8])
    &&& mul3_add_mul_ensures(a.z, a.y, t, a.x, s, m[9])
    &&& add_mul3_ensures(c, a.z, a.z, t, m[10])
    &&& m[11] == z
    &&& m[12] == z
    &&& m[13] == z
    &&& m[14] == z
    &&& m[15] == o
}

/// Whether the rotation about `a` with cosine `c` and sine `s` may be
/// computed.
pub open spec fn axis_angle_chain<T: Scalar>(a: Vector3<T>, c: T, s: T) -> bool {
    forall|o: T| #[trigger]
        is_one(o) ==> {
            &&& may_sub(o, c)
            &&& forall|t: T| #[trigger] is_difference(o, c, t) ==> rodrigues_chain(a, c, s, t)
        }
}

/// `m` is a rotation about `a` with cosine `c` and sine `s`, by
/// Rodrigues' formula.
pub open spec fn axis_angle_result<T: Scalar>(a: Vector3<T>, c: T, s: T, m: Seq<T>) -> bool {
    exists|z: T, o: T, t: T|
        #![trigger constants(z, o), is_difference(o, c, t)]
        constants(z, o) && is_difference(o, c, t) && rodrigues_result(a, c, s, t, z, o, m)
}

/// Rodrigues' formula `I c + (1 - c) (a (x) a) + s [a]x`, entry by entry,
/// for the rotation about the unit axis `a` by the angle whose cosine is
/// `c` and whose sine is `s`.
pub open spec fn axis_angle_model<T: Scalar>(a: Vector3<T>, c: T, s: T) -> Seq<T> {
    let o = one_spec::<T>();
    let z = zero_spec::<T>();
    let t = o.sub_spec(c);
    seq16(
        add_mul3_spec(c, a.x, a.x, t),
        mul3_sub_mul_spec(a.x, a.y, t, a.z, s),
        mul3_add_mul_spec(a.x, a.z, t, a.y, s),
        z,
        mul3_add_mul_spec(a.y, a.x, t, a.z, s),
        add_mul3_spec(c, a.y, a.y, t),
        mul3_sub_mul_spec(a.y, a.z, t, a.x, s),
        z,
        mul3_sub_mul_spec(a.z, a.x, t, a.y, s),
        mul3_add_mul_spec(a.z, a.y, t, a.x, s),
        add_mul3_spec(c, a.z, a.z, t),
        z,
        z,
        z,
        z,
        o,
    )
}

/// The 16 entries with rows and columns swapped.
pub open spec fn transpose_model<T>(m: Seq<T>) -> Seq<T> {
    Seq::new(16, |i: int| m[(i % 4) * 4 + i / 4])
}

/// Row `i` of the entries `m`.
pub open spec fn row_model<T>(m: Seq<T>, i: int) -> Vector4<T> {
    Vector4 { x: m[4 * i], y: m[4 * i + 1], z: m[4 * i + 2], w: m[4 * i + 3] }
}

/// Column `j` of the entries `m`.
pub open spec fn col_model<T>(m: Seq<T>, j: int) -> Vector4<T> {
    Vector4 { x: m[j], y: m[4 + j], z: m[8 + j], w: m[12 + j] }
}

/// Whether every entry may be negated.
pub open spec fn neg_chain<T: Scalar>(a: Seq<T>) -> bool {
    forall|k: int| 0 <= k < 16 ==> may_neg(#[trigger] a[k])
}

/// `m` holds values that the negations of the entries of `a` may return.
pub open spec fn neg_result<T: Scalar>(a: Seq<T>, m: Seq<T>) -> bool {
    &&& m.len() == 16
    &&& forall|k: int| 0 <= k < 16 ==> is_neg(a[k], #[trigger] m[k])
}

/// Every entry negated.
pub open spec fn neg_model<T: Scalar>(a: Seq<T>) -> Seq<T> {
    Seq::new(16, |i: int| a[i].neg_spec())
}

/// Whether the entries may be added, one by one.
pub open spec fn add_chain<T: Scalar>(a: Seq<T>, b: Seq<T>) -> bool {
    forall|k: int| 0 <= k < 16 ==> may_add(#[trigger] a[k], b[k])
}

/// `m` holds values that the sums of the entries may return.
pub open spec fn add_result<T: Scalar>(a: Seq<T>, b: Seq<T>, m: Seq<T>) -> bool {
    &&& m.len() == 16
    &&& forall|k: int| 0 <= k < 16 ==> is_sum(a[k], b[k], #[trigger] m[k])
}

/// The sum, entry by entry.
pub open spec fn add_model<T: Scalar>(a: Seq<T>, b: Seq<T>) -> Seq<T> {
    Seq::new(16, |i: int| a[i].add_spec(b[i]))
}

/// Whether the entries may be subtracted, one by one.
pub open spec fn sub_chain<T: Scalar>(a: Seq<T>, b: Seq<T>) -> bool {
    forall|k: int| 0 <= k < 16 ==> may_sub(#[trigger] a[k], b[k])
}

/// `m` holds values that the differences of the entries may return.
pub open spec fn sub_result<T: Scalar>(a: Seq<T>, b: Seq<T>, m: Seq<T>) -> bool {
    &&& m.len() == 16
    &&& forall|k: int| 0 <= k < 16 ==> is_difference(a[k], b[k], #[trigger] m[k])
}

/// The difference, entry by entry.
pub open spec fn sub_model<T: Scalar>(a: Seq<T>, b: Seq<T>) -> Seq<T> {
    Seq::new(16, |i: int| a[i].sub_spec(b[i]))
}

/// Whether entry `(r, c)` of the product `a b` may be computed.
pub open spec fn entry_chain<T: Scalar>(a: Seq<T>, b: Seq<T>, r: int, c: int) -> bool {
    row_model(a, r).dot_req(col_model(b, c))
}

/// `e` is a value that entry `(r, c)` of the product `a b` may take.
pub open spec fn entry_result<T: Scalar>(a: Seq<T>, b: Seq<T>, r: int, c: int, e: T) -> bool {
    row_model(a, r).dot_ensures(col_model(b, c), e)
}

/// Entry `(r, c)` of the product `a b`: the dot product of row `r` of `a`
/// and column `c` of `b`.
pub open spec fn entry_model<T: Scalar>(a: Seq<T>, b: Seq<T>, r: int, c: int) -> T {
    row_model(a, r).dot_spec(col_model(b, c))
}

/// Whether every entry of the product `a b` may be computed.
pub open spec fn mul_chain<T: Scalar>(a: Seq<T>, b: Seq<T>) -> bool {
    &&& entry_chain(a, b, 0, 0)
    &&& entry_chain(a, b, 0, 1)
    &&& entry_chain(a, b, 0, 2)
    &&& entry_chain(a, b, 0, 3)
    &&& entry_chain(a, b, 1, 0)
    &&& entry_chain(a, b, 1, 1)
    &&& entry_chain(a, b, 1, 2)
    &&& entry_chain(a, b, 1, 3)
    &&& entry_chain(a, b, 2, 0)
    &&& entry_chain(a, b, 2, 1)
    &&& entry_chain(a, b, 2, 2)
    &&& entry_chain(a, b, 2, 3)
    &&& entry_chain(a, b, 3, 0)
    &&& entry_chain(a, b, 3, 1)
    &&& entry_chain(a, b, 3, 2)
    &&& entry_chain(a, b, 3, 3)
}

/// `m` holds values that the entries of the product `a b` may take.
pub open spec fn mul_result<T: Scalar>(a: Seq<T>, b: Seq<T>, m: Seq<T>) -> bool {
    &&& m.len() == 16
    &&& entry_result(a, b, 0, 0, m[0])
    &&& entry_result(a, b, 0, 1, m[1])
    &&& entry_result(a, b, 0, 2, m[2])
    &&& entry_result(a, b, 0, 3, m[3])
    &&& entry_result(a, b, 1, 0, m[4])
    &&& entry_result(a, b, 1, 1, m[5])
    &&& entry_result(a, b, 1, 2, m[6])
    &&& entry_result(a, b, 1, 3, m[7])
    &&& entry_result(a, b, 2, 0, m[8])
    &&& entry_result(a, b, 2, 1, m[9])
    &&& entry_result(a, b, 2, 2, m[10])
    &&& entry_result(a, b, 2, 3, m[11])
    &&& entry_result(a, b, 3, 0, m[12])
    &&& entry_result(a, b, 3, 1, m[13])
    &&& entry_result(a, b, 3, 2, m[14])
    &&& entry_result(a, b, 3, 3, m[15])
}

/// The matrix product `a b`, row by row.
pub open spec fn mul_model<T: Scalar>(a: Seq<T>, b: Seq<T>) -> Seq<T> {
    Seq::new(16, |i: int| entry_model(a, b, i / 4, i % 4))
}

/// Whether the image of the point `p` under `m` may be computed.
pub open spec fn apply_chain<T: Scalar>(m: Seq<T>, p: Vector3<T>) -> bool {
    forall|h: Vector4<T>| #[trigger]
        lift_ensures(p, h) ==> {
            &&& row_model(m, 0).dot_req(h)
            &&& row_model(m, 1).dot_req(h)
            &&& row_model(m, 2).dot_req(h)
            &&& row_model(m, 3).dot_req(h)
        }
}

/// `r` is a value that the image of the point `p` under `m` may take: the
/// first three components of `m` times a homogeneous point of `p`, the
/// fourth having been computed and dropped.
pub open spec fn apply_result<T: Scalar>(m: Seq<T>, p: Vector3<T>, r: Vector3<T>) -> bool {
    exists|h: Vector4<T>, w: T|
        #![trigger lift_ensures(p, h), row_model(m, 3).dot_ensures(h, w)]
        {
            &&& lift_ensures(p, h)
            &&& row_model(m, 0).dot_ensures(h, r.x)
            &&& row_model(m, 1).dot_ensures(h, r.y)
            &&& row_model(m, 2).dot_ensures(h, r.z)
            &&& row_model(m, 3).dot_ensures(h, w)
        }
}

/// The image of the point `p` under `m`: `p` is lifted to `w = 1`,
/// multiplied from the left by `m`, and `w` is dropped.
pub open spec fn apply_model<T: Scalar>(m: Seq<T>, p: Vector3<T>) -> Vector3<T> {
    Vector3 {
        x: row_model(m, 0).dot_spec(lift_spec(p)),
        y: row_model(m, 1).dot_spec(lift_spec(p)),
        z: row_model(m, 2).dot_spec(lift_spec(p)),
    }
}

/// Whether the frame at `origin` with axes `x`, `y`, `z` may be computed.
pub open spec fn frame_chain<T: Scalar>(
    origin: Vector3<T>,
    x: Vector3<T>,
    y: Vector3<T>,
    z: Vector3<T>,
) -> bool {
    forall|t: Seq<T>, b: Seq<T>|
        #![trigger translate_result(origin, t), basis_result(x, y, z, b)]
        translate_result(origin, t) && basis_result(x, y, z, b) ==> mul_chain(t, b)
}

/// `m` is a frame at `origin` with axes `x`, `y`, `z`: the product of a
/// translation to `origin` and the matrix with the axes as columns.
pub open spec fn frame_result<T: Scalar>(
    origin: Vector3<T>,
    x: Vector3<T>,
    y: Vector3<T>,
    z: Vector3<T>,
    m: Seq<T>,
) -> bool {
    exists|t: Seq<T>, b: Seq<T>|
        #![trigger translate_result(origin, t), basis_result(x, y, z, b)]
        translate_result(origin, t) && basis_result(x, y, z, b) && mul_result(t, b, m)
}

/// The frame at `origin` with axes `x`, `y`, `z`: the axes as columns,
/// followed by the translation to `origin`.
pub open spec fn frame_model<T: Scalar>(
    origin: Vector3<T>,
    x: Vector3<T>,
    y: Vector3<T>,
    z: Vector3<T>,
) -> Seq<T> {
    mul_model(translate_model(origin), basis_model(x, y, z))
}

/// `x`, `y`, `z` are axes of a camera at `origin` that looks at `target`:
/// for the forward direction `f`, which is `target - origin` normalised,
/// `z = -f`, `x` is `up x z` normalised and `y = z x x`.
pub open spec fn camera_axes<T: ScalarDiv, F: Fn(T) -> T>(
    origin: Vector3<T>,
    target: Vector3<T>,
    up: Vector3<T>,
    sqrt: F,
    x: Vector3<T>,
    y: Vector3<T>,
    z: Vector3<T>,
) -> bool {
    exists|d: Vector3<T>, f: Vector3<T>, c: Vector3<T>|
        #![trigger target.minus_ensures(origin, d), d.normalized(sqrt, f), up.cross_ensures(z, c)]
        {
            &&& target.minus_ensures(origin, d)
            &&& d.normalized(sqrt, f)
            &&& f.opposite_ensures(z)
            &&& up.cross_ensures(z, c)
            &&& c.normalized(sqrt, x)
            &&& z.cross_ensures(x, y)
        }
}

/// Whether the camera frame at `origin` looking at `target` may be
/// computed with the square root `sqrt`, whatever `sqrt` returns.
pub open spec fn look_at_chain<T: ScalarDiv, F: Fn(T) -> T>(
    origin: Vector3<T>,
    target: Vector3<T>,
    up: Vector3<T>,
    sqrt: F,
) -> bool {
    &&& target.minus_req(origin)
    &&& forall|d: Vector3<T>| #[trigger]
        target.minus_ensures(origin, d) ==> {
            &&& d.normalize_req(sqrt)
            &&& forall|f: Vector3<T>| #[trigger]
                d.normalized(sqrt, f) ==> {
                    &&& f.opposite_req()
                    &&& forall|z: Vector3<T>| #[trigger]
                        f.opposite_ensures(z) ==> {
                            &&& up.cross_req(z)
                            &&& forall|c: Vector3<T>| #[trigger]
                                up.cross_ensures(z, c) ==> {
                                    &&& c.normalize_req(sqrt)
                                    &&& forall|x: Vector3<T>| #[trigger]
                                        c.normalized(sqrt, x) ==> {
                                            &&& z.cross_req(x)
                                            &&& forall|y: Vector3<T>| #[trigger]
                                                z.cross_ensures(x, y) ==> frame_chain(
                                                    origin,
                                                    x,
                                                    y,
                                                    z,
                                                )
                                        }
                                }
                        }
                }
        }
}

/// `m` is a camera frame at `origin` looking at `target`.
pub open spec fn look_at_result<T: ScalarDiv, F: Fn(T) -> T>(
    origin: Vector3<T>,
    target: Vector3<T>,
    up: Vector3<T>,
    sqrt: F,
    m: Seq<T>,
) -> bool {
    exists|x: Vector3<T>, y: Vector3<T>, z: Vector3<T>|
        #![trigger camera_axes(origin, target, up, sqrt, x, y, z)]
        camera_axes(origin, target, up, sqrt, x, y, z) && frame_result(origin, x, y, z, m)
}

impl<T: Scalar> Matrix4<T> {
    /// The matrix whose view is `m`, for `m` of length 16.
    pub closed spec fn from_seq(m: Seq<T>) -> Self {
        Matrix4 {
            v: [
                m[0],
                m[1],
                m[2],
                m[3],
                m[4],
                m[5],
                m[6],
                m[7],
                m[8],
                m[9],
                m[10],
                m[11],
                m[12],
                m[13],
                m[14],
                m[15],
            ],
        }
    }

    /// A matrix has 16 entries.
    pub proof fn lemma_len(self)
        ensures
            self@.len() == 16,
    {
    }

    /// A matrix is determined by its entries.
    pub proof fn lemma_ext(self, other: Self)
        requires
            self@ == other@,
        ensures
            self == other,
    {
        assert(self.v =~= other.v);
    }

    /// `from_seq` builds the matrix with the given entries.
    pub proof fn lemma_from_seq(m: Seq<T>)
        requires
            m.len() == 16,
        ensures
            Self::from_seq(m)@ == m,
    {
    }

    /// The matrix with the given entries, row by row.
    pub fn new(array: [T; 16]) -> (m: Self)
        ensures
            m@ == array@,
    {
        Matrix4 { v: array }
    }

    /// The entries, row by row.
    pub fn to_array(&self) -> (a: [T; 16])
        ensures
            a@ == self@,
    {
        self.v
    }

    /// The entry in row `row` and column `col`.
    pub fn at(&self, row: usize, col: usize) -> (e: T)
        requires
            row < 4,
            col < 4,
        ensures
            e == self@[4 * row + col],
    {
        self.v[4 * row + col]
    }

    /// The matrix of zeros.
    pub fn zero() -> (m: Self)
        ensures
            zero_result(m@),
            exact::<T>() ==> m@ == zero_model::<T>(),
    {
        let z = zero::<T>();
        let m = Matrix4 { v: [z;16] };
        assert(m@ =~= zero_with(z));
        m
    }

    /// The multiplicative identity.
    pub fn unit() -> (m: Self)
        ensures
            unit_result(m@),
            exact::<T>() ==> m@ == unit_model::<T>(),
    {
        let o = one::<T>();
        let z = zero::<T>();
        let m = Matrix4 { v: [o, z, z, z, z, o, z, z, z, z, o, z, z, z, z, o] };
        assert(m@ =~= unit_with(z, o));
        assert(constants(z, o));
        m
    }

    /// The translation by `v`.
    pub fn translate(v: Vector3<T>) -> (m: Self)
        ensures
            translate_result(v, m@),
            exact::<T>() ==> m@ == translate_model(v),
    {
        let o = one::<T>();
        let z = zero::<T>();
        let m = Matrix4 { v: [o, z, z, v.x, z, o, z, v.y, z, z, o, v.z, z, z, z, o] };
        assert(m@ =~= translate_with(v, z, o));
        assert(constants(z, o));
        m
    }

    /// The scaling by `v.x`, `v.y`, `v.z` along the three axes.
    pub fn scale(v: Vector3<T>) -> (m: Self)
        ensures
            scale_result(v, m@),
            exact::<T>() ==> m@ == scale_model(v),
    {
        let o = one::<T>();
        let z = zero::<T>();
        let m = Matrix4 { v: [v.x, z, z, z, z, v.y, z, z, z, z, v.z, z, z, z, z, o] };
        assert(m@ =~= scale_with(v, z, o));
        assert(constants(z, o));
        m
    }

    /// The rotation about the axis `a` by the angle whose cosine is `c` and
    /// whose sine is `s`, by Rodrigues' formula. The axis is taken as it
    /// is: one that is not of unit length gives a map that is no rotation.
    pub fn axis_angle(a: Vector3<T>, c: T, s: T) -> (m: Self)
        requires
            axis_angle_chain(a, c, s),
        ensures
            axis_angle_result(a, c, s, m@),
            exact::<T>() ==> m@ == axis_angle_model(a, c, s),
    {
        let o = one::<T>();
        let z = zero::<T>();
        let t = o - c;
        assert(constants(z, o) && is_difference(o, c, t));
        let m = Matrix4 {
            v: [
                add_mul3(c, a.x, a.x, t),
                mul3_sub_mul(a.x, a.y, t, a.z, s),
                mul3_add_mul(a.x, a.z, t, a.y, s),
                z,
                mul3_add_mul(a.y, a.x, t, a.z, s),
                add_mul3(c, a.y, a.y, t),
                mul3_sub_mul(a.y, a.z, t, a.x, s),
                z,
                mul3_sub_mul(a.z, a.x, t, a.y, s),
                mul3_add_mul(a.z, a.y, t, a.x, s),
                add_mul3(c, a.z, a.z, t),
                z,
                z,
                z,
                z,
                o,
            ],
        };
        m
    }

    /// Entry `(r, c)` of the product `self rhs`.
    fn entry(&self, rhs: &Self, r: usize, c: usize) -> (e: T)
        requires
            r < 4,
            c < 4,
            entry_chain(self@, rhs@, r as int, c as int),
        ensures
            entry_result(self@, rhs@, r as int, c as int, e),
            exact::<T>() ==> e == entry_model(self@, rhs@, r as int, c as int),
    {
        Vector4::new(self.v[4 * r], self.v[4 * r + 1], self.v[4 * r + 2], self.v[4 * r + 3]).dot(
            Vector4::new(rhs.v[c], rhs.v[4 + c], rhs.v[8 + c], rhs.v[12 + c]),
        )
    }

    /// Applies `f` to each of the four rows, top to bottom, and collects
    /// the four results.
    pub fn map_col<F: Fn(Vector4<T>) -> T>(&self, f: F) -> (out: Vector4<T>)
        requires
            call_requires(f, (row_model(self@, 0),)),
            call_requires(f, (row_model(self@, 1),)),
            call_requires(f, (row_model(self@, 2),)),
            call_requires(f, (row_model(self@, 3),)),
        ensures
            call_ensures(f, (row_model(self@, 0),), out.x),
            call_ensures(f, (row_model(self@, 1),), out.y),
            call_ensures(f, (row_model(self@, 2),), out.z),
            call_ensures(f, (row_model(self@, 3),), out.w),
    {
        let x = f(Vector4::new(self.v[0], self.v[1], self.v[2], self.v[3]));
        let y = f(Vector4::new(self.v[4], self.v[5], self.v[6], self.v[7]));
        let z = f(Vector4::new(self.v[8], self.v[9], self.v[10], self.v[11]));
        let w = f(Vector4::new(self.v[12], self.v[13], self.v[14], self.v[15]));
        Vector4 { x, y, z, w }
    }

    /// The transpose: entry `(r, c)` of the result is entry `(c, r)` of
    /// `self`.
    pub fn transpose(&self) -> (m: Self)
        ensures
            m@ == transpose_model(self@),
    {
        let mut out = self.v;
        let mut i: usize = 0;
        while i < 16
            invariant
                i <= 16,
                forall|k: int| 0 <= k < i ==> out@[k] == self.v@[(k % 4) * 4 + k / 4],
            decreases 16 - i,
        {
            let x = i % 4;
            let y = i / 4;
            out[i] = self.v[x * 4 + y];
            i += 1;
        }
        Matrix4 { v: out }
    }
}

impl<T: Scalar> From<[Vector3<T>; 3]> for Matrix4<T> {
    /// The matrix whose first three columns are the three vectors.
    fn from(v: [Vector3<T>; 3]) -> (m: Matrix4<T>)
        ensures
            basis_result(v[0], v[1], v[2], m@),
            exact::<T>() ==> m@ == basis_model(v[0], v[1], v[2]),
    {
        let o = one::<T>();
        let n = zero::<T>();
        let m = Matrix4 {
            v: [
                v[0].x,
                v[1].x,
                v[2].x,
                n,
                v[0].y,
                v[1].y,
                v[2].y,
                n,
                v[0].z,
                v[1].z,
                v[2].z,
                n,
                n,
                n,
                n,
                o,
            ],
        };
        assert(m@ =~= basis_with(v[0], v[1], v[2], n, o));
        assert(constants(n, o));
        proof {
            if exact::<T>() {
                Matrix4::<T>::lemma_from_seq(basis_model(v[0], v[1], v[2]));
                m.lemma_ext(Matrix4::<T>::from_seq(basis_model(v[0], v[1], v[2])));
            }
        }
        m
    }
}

impl<T: Scalar> FromSpecImpl<[Vector3<T>; 3]> for Matrix4<T> {
    open spec fn obeys_from_spec() -> bool {
        exact::<T>()
    }

    open spec fn from_spec(v: [Vector3<T>; 3]) -> Matrix4<T> {
        Matrix4::<T>::from_seq(basis_model(v[0], v[1], v[2]))
    }
}

impl<T: Scalar> Neg for Matrix4<T> {
    type Output = Matrix4<T>;

    /// Every entry negated. The precondition, `neg_req`, is `neg_chain`.
    fn neg(self) -> (m: Matrix4<T>)
        ensures
            neg_result(self@, m@),
            <T as NegSpec>::obeys_neg_spec() ==> m@ == neg_model(self@),
    {
        let mut out = self.v;
        let mut i: usize = 0;
        while i < 16
            invariant
                i <= 16,
                neg_chain(self@),
                forall|k: int| 0 <= k < i ==> is_neg(self@[k], out@[k]),
            decreases 16 - i,
        {
            out[i] = self.v[i].neg();
            i += 1;
        }
        let m = Matrix4 { v: out };
        proof {
            if <T as NegSpec>::obeys_neg_spec() {
                assert(m@ =~= neg_model(self@));
                Matrix4::<T>::lemma_from_seq(neg_model(self@));
                m.lemma_ext(Matrix4::<T>::from_seq(neg_model(self@)));
            }
        }
        m
    }
}

impl<T: Scalar> NegSpecImpl for Matrix4<T> {
    open spec fn obeys_neg_spec() -> bool {
        <T as NegSpec>::obeys_neg_spec()
    }

    open spec fn neg_req(self) -> bool {
        neg_chain(self@)
    }

    open spec fn neg_spec(self) -> Matrix4<T> {
        Matrix4::<T>::from_seq(neg_model(self@))
    }
}

impl<T: Scalar> Add for Matrix4<T> {
    type Output = Matrix4<T>;

    /// The sum, entry by entry. The precondition, `add_req`, is `add_chain`.
    fn add(self, rhs: Matrix4<T>) -> (m: Matrix4<T>)
        ensures
            add_result(self@, rhs@, m@),
            <T as AddSpec>::obeys_add_spec() ==> m@ == add_model(self@, rhs@),
    {
        let mut out = self.v;
        let mut i: usize = 0;
        while i < 16
            invariant
                i <= 16,
                add_chain(self@, rhs@),
                forall|k: int| 0 <= k < i ==> is_sum(self@[k], rhs@[k], out@[k]),
            decreases 16 - i,
        {
            out[i] = self.v[i] + rhs.v[i];
            i += 1;
        }
        let m = Matrix4 { v: out };
        proof {
            if <T as AddSpec>::obeys_add_spec() {
                assert(m@ =~= add_model(self@, rhs@));
                Matrix4::<T>::lemma_from_seq(add_model(self@, rhs@));
                m.lemma_ext(Matrix4::<T>::from_seq(add_model(self@, rhs@)));
            }
        }
        m
    }
}

impl<T: Scalar> AddSpecImpl for Matrix4<T> {
    open spec fn obeys_add_spec() -> bool {
        <T as AddSpec>::obeys_add_spec()
    }

    open spec fn add_req(self, rhs: Matrix4<T>) -> bool {
        add_chain(self@, rhs@)
    }

    open spec fn add_spec(self, rhs: Matrix4<T>) -> Matrix4<T> {
        Matrix4::<T>::from_seq(add_model(self@, rhs@))
    }
}

impl<T: Scalar> Sub for Matrix4<T> {
    type Output = Matrix4<T>;

    /// The difference, entry by entry. The precondition, `sub_req`, is
    /// `sub_chain`.
    fn sub(self, rhs: Matrix4<T>) -> (m: Matrix4<T>)
        ensures
            sub_result(self@, rhs@, m@),
            <T as SubSpec>::obeys_sub_spec() ==> m@ == sub_model(self@, rhs@),
    {
        let mut out = self.v;
        let mut i: usize = 0;
        while i < 16
            invariant
                i <= 16,
                sub_chain(self@, rhs@),
                forall|k: int| 0 <= k < i ==> is_difference(self@[k], rhs@[k], out@[k]),
            decreases 16 - i,
        {
            out[i] = self.v[i] - rhs.v[i];
            i += 1;
        }
        let m = Matrix4 { v: out };
        proof {
            if <T as SubSpec>::obeys_sub_spec() {
                assert(m@ =~= sub_model(self@, rhs@));
                Matrix4::<T>::lemma_from_seq(sub_model(self@, rhs@));
                m.lemma_ext(Matrix4::<T>::from_seq(sub_model(self@, rhs@)));
            }
        }
        m
    }
}

impl<T: Scalar> SubSpecImpl for Matrix4<T> {
    open spec fn obeys_sub_spec() -> bool {
        <T as SubSpec>::obeys_sub_spec()
    }

    open spec fn sub_req(self, rhs: Matrix4<T>) -> bool {
        sub_chain(self@, rhs@)
    }

    open spec fn sub_spec(self, rhs: Matrix4<T>) -> Matrix4<T> {
        Matrix4::<T>::from_seq(sub_model(self@, rhs@))
    }
}

impl<T: Scalar> Mul for Matrix4<T> {
    type Output = Matrix4<T>;

    /// The matrix product `self rhs`. The precondition, `mul_req`, is
    /// `mul_chain`.
    fn mul(self, rhs: Matrix4<T>) -> (m: Matrix4<T>)
        ensures
            mul_result(self@, rhs@, m@),
            exact::<T>() ==> m@ == mul_model(self@, rhs@),
    {
        let m = Matrix4 {
            v: [
                self.entry(&rhs, 0, 0),
                self.entry(&rhs, 0, 1),
                self.entry(&rhs, 0, 2),
                self.entry(&rhs, 0, 3),
                self.entry(&rhs, 1, 0),
                self.entry(&rhs, 1, 1),
                self.entry(&rhs, 1, 2),
                self.entry(&rhs, 1, 3),
                self.entry(&rhs, 2, 0),
                self.entry(&rhs, 2, 1),
                self.entry(&rhs, 2, 2),
                self.entry(&rhs, 2, 3),
                self.entry(&rhs, 3, 0),
                self.entry(&rhs, 3, 1),
                self.entry(&rhs, 3, 2),
                self.entry(&rhs, 3, 3),
            ],
        };
        proof {
            if exact::<T>() {
                Matrix4::<T>::lemma_from_seq(mul_model(self@, rhs@));
                m.lemma_ext(Matrix4::<T>::from_seq(mul_model(self@, rhs@)));
            }
        }
        m
    }
}

impl<T: Scalar> MulSpecImpl for Matrix4<T> {
    open spec fn obeys_mul_spec() -> bool {
        exact::<T>()
    }

    open spec fn mul_req(self, rhs: Matrix4<T>) -> bool {
        mul_chain(self@, rhs@)
    }

    open spec fn mul_spec(self, rhs: Matrix4<T>) -> Matrix4<T> {
        Matrix4::<T>::from_seq(mul_model(self@, rhs@))
    }
}

impl<T: Scalar> Mul<Vector3<T>> for Matrix4<T> {
    type Output = Vector3<T>;

    /// The image of the point `rhs`: lifted to `w = 1`, multiplied from
    /// the left by `self`, projected back by dropping `w`. There is no
    /// perspective divide. The precondition, `mul_req`, is `apply_chain`;
    /// on exact operators the result is `apply_model`.
    fn mul(self, rhs: Vector3<T>) -> (p: Vector3<T>)
        ensures
            apply_result(self@, rhs, p),
    {
        let h: Vector4<T> = Vector4::from(rhs);
        let f = |row: Vector4<T>| -> (r: T)
            requires
                row.dot_req(h),
            ensures
                row.dot_ensures(h, r),
                exact::<T>() ==> r == row.dot_spec(h),
            { row.dot(h) };
        let out = self.map_col(f);
        let p = Vector3::from(out);
        p
    }
}

impl<T: Scalar> MulSpecImpl<Vector3<T>> for Matrix4<T> {
    open spec fn obeys_mul_spec() -> bool {
        exact::<T>()
    }

    open spec fn mul_req(self, rhs: Vector3<T>) -> bool {
        apply_chain(self@, rhs)
    }

    open spec fn mul_spec(self, rhs: Vector3<T>) -> Vector3<T> {
        apply_model(self@, rhs)
    }
}

impl<T: ScalarDiv> Matrix4<T> {
    /// The right-handed camera frame at `origin` whose `-z` axis points at
    /// `target`, lengths being taken with `sqrt`. `up` is not to be
    /// parallel to `target - origin`: the cross product then vanishes and
    /// there is no frame.
    pub fn look_at<F: Fn(T) -> T>(
        origin: Vector3<T>,
        target: Vector3<T>,
        up: Vector3<T>,
        sqrt: F,
    ) -> (m: Self)
        requires
            forall|x: T| call_requires(sqrt, (x,)),
            look_at_chain(origin, target, up, sqrt),
        ensures
            look_at_result(origin, target, up, sqrt, m@),
    {
        let d = target - origin;
        let f = d.normalize(&sqrt);
        let za = f.neg();
        let c = up.cross(za);
        let xa = c.normalize(&sqrt);
        let ya = za.cross(xa);
        let t = Matrix4::translate(origin);
        let b = Matrix4::from([xa, ya, za]);
        let m = t * b;
        assert(camera_axes(origin, target, up, sqrt, xa, ya, za));
        m
    }
}

} // verus!
