//! Laws of the transforms over exact arithmetic.
//!
//! The element type is required to form a ring under the specifications of
//! its operators. The primitive integers do. Floating point does not:
//! there the laws hold only up to rounding, and not at all for values that
//! are not finite.

use crate::math::matrix4::apply_model;
use crate::math::matrix4::axis_angle_model;
use crate::math::matrix4::basis_result;
use crate::math::matrix4::camera_axes;
use crate::math::matrix4::col_model;
use crate::math::matrix4::entry_model;
use crate::math::matrix4::entry_result;
use crate::math::matrix4::frame_model;
use crate::math::matrix4::frame_result;
use crate::math::matrix4::look_at_result;
use crate::math::matrix4::Matrix4;
use crate::math::matrix4::mul_model;
use crate::math::matrix4::mul_result;
use crate::math::matrix4::row_model;
use crate::math::matrix4::translate_model;
use crate::math::matrix4::translate_result;
use crate::math::matrix4::transpose_model;
use crate::math::matrix4::unit_model;
use crate::math::scalar::exact;
use crate::math::scalar::one_spec;
use crate::math::scalar::Scalar;
use crate::math::scalar::ScalarDiv;
use crate::math::scalar::zero_spec;
use crate::math::vector3::Vector3;
use crate::math::vector4::Vector4;
use vstd::prelude::*;
use vstd::std_specs::ops::AddSpec;
use vstd::std_specs::ops::MulSpec;
use vstd::std_specs::ops::NegSpec;
use vstd::std_specs::ops::SubSpec;

verus! {

/// The specifications of the operators of `T` form a ring with unit:
/// addition is commutative and associative with neutral element 0 and
/// opposites, subtraction adds the opposite, multiplication is associative
/// with neutral element 1 and distributes over addition from both sides.
#[verifier::opaque]
pub open spec fn ring<T: Scalar>() -> bool {
    &&& forall|a: T, b: T| #[trigger] a.add_spec(b) == b.add_spec(a)
    &&& forall|a: T, b: T, c: T| #[trigger] a.add_spec(b).add_spec(c) == a.add_spec(b.add_spec(c))
    &&& forall|a: T| #[trigger] a.add_spec(zero_spec::<T>()) == a
    &&& forall|a: T| #[trigger] a.add_spec(a.neg_spec()) == zero_spec::<T>()
    &&& forall|a: T, b: T| #[trigger] a.sub_spec(b) == a.add_spec(b.neg_spec())
    &&& forall|a: T, b: T, c: T| #[trigger] a.mul_spec(b).mul_spec(c) == a.mul_spec(b.mul_spec(c))
    &&& forall|a: T| #[trigger] a.mul_spec(one_spec::<T>()) == a
    &&& forall|a: T| #[trigger] one_spec::<T>().mul_spec(a) == a
    &&& forall|a: T, b: T, c: T| #[trigger]
        a.mul_spec(b.add_spec(c)) == a.mul_spec(b).add_spec(a.mul_spec(c))
    &&& forall|a: T, b: T, c: T| #[trigger]
        a.add_spec(b).mul_spec(c) == a.mul_spec(c).add_spec(b.mul_spec(c))
}

/// The specifications of the operators of `i32` compute modulo 2^32: they
/// form a ring.
pub proof fn lemma_ring_i32()
    ensures
        ring::<i32>(),
{
    reveal(ring);
    assert(one_spec::<i32>() == 1);
    assert forall|a: i32, b: i32, c: i32| #[trigger]
        a.add_spec(b).add_spec(c) == a.add_spec(b.add_spec(c)) by {
        assert(((a + b) as i32 + c) as i32 == (a + (b + c) as i32) as i32) by (bit_vector);
    }
    assert forall|a: i32| #[trigger] a.add_spec(a.neg_spec()) == zero_spec::<i32>() by {
        assert((a + (-a) as i32) as i32 == 0) by (bit_vector);
    }
    assert forall|a: i32, b: i32| #[trigger] a.sub_spec(b) == a.add_spec(b.neg_spec()) by {
        assert((a - b) as i32 == (a + (-b) as i32) as i32) by (bit_vector);
    }
    assert forall|a: i32, b: i32, c: i32| #[trigger]
        a.mul_spec(b).mul_spec(c) == a.mul_spec(b.mul_spec(c)) by {
        assert(((a * b) as i32 * c) as i32 == (a * (b * c) as i32) as i32) by (bit_vector);
    }
    assert forall|a: i32, b: i32, c: i32| #[trigger]
        a.mul_spec(b.add_spec(c)) == a.mul_spec(b).add_spec(a.mul_spec(c)) by {
        assert((a * (b + c) as i32) as i32 == ((a * b) as i32 + (a * c) as i32) as i32)
            by (bit_vector);
    }
    assert forall|a: i32, b: i32, c: i32| #[trigger]
        a.add_spec(b).mul_spec(c) == a.mul_spec(c).add_spec(b.mul_spec(c)) by {
        assert(((a + b) as i32 * c) as i32 == ((a * c) as i32 + (b * c) as i32) as i32)
            by (bit_vector);
    }
}

/// The specifications of the operators of `i64` compute modulo 2^64: they
/// form a ring.
pub proof fn lemma_ring_i64()
    ensures
        ring::<i64>(),
{
    reveal(ring);
    assert(one_spec::<i64>() == 1);
    assert forall|a: i64, b: i64, c: i64| #[trigger]
        a.add_spec(b).add_spec(c) == a.add_spec(b.add_spec(c)) by {
        assert(((a + b) as i64 + c) as i64 == (a + (b + c) as i64) as i64) by (bit_vector);
    }
    assert forall|a: i64| #[trigger] a.add_spec(a.neg_spec()) == zero_spec::<i64>() by {
        assert((a + (-a) as i64) as i64 == 0) by (bit_vector);
    }
    assert forall|a: i64, b: i64| #[trigger] a.sub_spec(b) == a.add_spec(b.neg_spec()) by {
        assert((a - b) as i64 == (a + (-b) as i64) as i64) by (bit_vector);
    }
    assert forall|a: i64, b: i64, c: i64| #[trigger]
        a.mul_spec(b).mul_spec(c) == a.mul_spec(b.mul_spec(c)) by {
        assert(((a * b) as i64 * c) as i64 == (a * (b * c) as i64) as i64) by (bit_vector);
    }
    assert forall|a: i64, b: i64, c: i64| #[trigger]
        a.mul_spec(b.add_spec(c)) == a.mul_spec(b).add_spec(a.mul_spec(c)) by {
        assert((a * (b + c) as i64) as i64 == ((a * b) as i64 + (a * c) as i64) as i64)
            by (bit_vector);
    }
    assert forall|a: i64, b: i64, c: i64| #[trigger]
        a.add_spec(b).mul_spec(c) == a.mul_spec(c).add_spec(b.mul_spec(c)) by {
        assert(((a + b) as i64 * c) as i64 == ((a * c) as i64 + (b * c) as i64) as i64)
            by (bit_vector);
    }
}

/// The zero vector.
pub open spec fn zero_vector<T: Scalar>() -> Vector3<T> {
    Vector3 { x: zero_spec::<T>(), y: zero_spec::<T>(), z: zero_spec::<T>() }
}

/// `((x0 + x1) + x2) + x3`.
pub open spec fn sum4<T: Scalar>(x0: T, x1: T, x2: T, x3: T) -> T {
    x0.add_spec(x1).add_spec(x2).add_spec(x3)
}

proof fn lemma_add_comm<T: Scalar>(a: T, b: T)
    requires
        ring::<T>(),
    ensures
        a.add_spec(b) == b.add_spec(a),
{
    reveal(ring);
}

proof fn lemma_add_assoc<T: Scalar>(a: T, b: T, c: T)
    requires
        ring::<T>(),
    ensures
        a.add_spec(b).add_spec(c) == a.add_spec(b.add_spec(c)),
{
    reveal(ring);
}

proof fn lemma_mul_assoc<T: Scalar>(a: T, b: T, c: T)
    requires
        ring::<T>(),
    ensures
        a.mul_spec(b).mul_spec(c) == a.mul_spec(b.mul_spec(c)),
{
    reveal(ring);
}

proof fn lemma_distrib_left<T: Scalar>(a: T, b: T, c: T)
    requires
        ring::<T>(),
    ensures
        a.mul_spec(b.add_spec(c)) == a.mul_spec(b).add_spec(a.mul_spec(c)),
{
    reveal(ring);
}

proof fn lemma_distrib_right<T: Scalar>(a: T, b: T, c: T)
    requires
        ring::<T>(),
    ensures
        a.add_spec(b).mul_spec(c) == a.mul_spec(c).add_spec(b.mul_spec(c)),
{
    reveal(ring);
}

/// In a ring, `x + x == x` only for `x == 0`.
proof fn lemma_idempotent_is_zero<T: Scalar>(x: T)
    requires
        ring::<T>(),
        x.add_spec(x) == x,
    ensures
        x == zero_spec::<T>(),
{
    reveal(ring);
    let n = x.neg_spec();
    assert(x.add_spec(n) == zero_spec::<T>());
}

proof fn lemma_mul_zero<T: Scalar>(a: T)
    requires
        ring::<T>(),
    ensures
        a.mul_spec(zero_spec::<T>()) == zero_spec::<T>(),
        zero_spec::<T>().mul_spec(a) == zero_spec::<T>(),
{
    let z = zero_spec::<T>();
    assert(z.add_spec(z) == z) by {
        reveal(ring);
    }
    lemma_distrib_left(a, z, z);
    lemma_idempotent_is_zero(a.mul_spec(z));
    lemma_distrib_right(z, z, a);
    lemma_idempotent_is_zero(z.mul_spec(a));
}

/// The rules by which sums and products with 0 and 1 simplify.
proof fn lemma_units<T: Scalar>()
    requires
        ring::<T>(),
    ensures
        forall|a: T| #[trigger] a.add_spec(zero_spec::<T>()) == a,
        forall|a: T| #[trigger] zero_spec::<T>().add_spec(a) == a,
        forall|a: T| #[trigger] a.mul_spec(one_spec::<T>()) == a,
        forall|a: T| #[trigger] one_spec::<T>().mul_spec(a) == a,
        forall|a: T| #[trigger] a.mul_spec(zero_spec::<T>()) == zero_spec::<T>(),
        forall|a: T| #[trigger] zero_spec::<T>().mul_spec(a) == zero_spec::<T>(),
        forall|a: T| #[trigger] a.add_spec(a.neg_spec()) == zero_spec::<T>(),
        forall|a: T| #[trigger] a.neg_spec().add_spec(a) == zero_spec::<T>(),
        forall|a: T, b: T| #[trigger] a.sub_spec(b) == a.add_spec(b.neg_spec()),
{
    assert forall|a: T| #[trigger] a.mul_spec(zero_spec::<T>()) == zero_spec::<T>() by {
        lemma_mul_zero(a);
    }
    assert forall|a: T| #[trigger] zero_spec::<T>().mul_spec(a) == zero_spec::<T>() by {
        lemma_mul_zero(a);
    }
    assert forall|a: T| #[trigger] zero_spec::<T>().add_spec(a) == a by {
        reveal(ring);
        lemma_add_comm(zero_spec::<T>(), a);
    }
    assert forall|a: T| #[trigger] a.neg_spec().add_spec(a) == zero_spec::<T>() by {
        reveal(ring);
        lemma_add_comm(a.neg_spec(), a);
    }
    reveal(ring);
}

/// Swapping rows and columns twice gives the matrix back, entry for entry.
pub proof fn lemma_transpose_twice<T: Scalar>(m: Matrix4<T>)
    ensures
        transpose_model(transpose_model(m@)) == m@,
{
    m.lemma_len();
}

/// The identity is neutral for the matrix product, on the right.
pub proof fn lemma_mul_unit_right<T: Scalar>(m: Matrix4<T>)
    requires
        ring::<T>(),
    ensures
        mul_model(m@, unit_model::<T>()) == m@,
{
    m.lemma_len();
    lemma_units::<T>();
}

/// The identity is neutral for the matrix product, on the left.
pub proof fn lemma_mul_unit_left<T: Scalar>(m: Matrix4<T>)
    requires
        ring::<T>(),
    ensures
        mul_model(unit_model::<T>(), m@) == m@,
{
    m.lemma_len();
    lemma_units::<T>();
}

/// A translation followed by the opposite translation is the identity.
pub proof fn lemma_translate_inverse<T: Scalar>(v: Vector3<T>)
    requires
        ring::<T>(),
    ensures
        mul_model(translate_model(v), translate_model(v.opposite_spec())) == unit_model::<T>(),
        mul_model(translate_model(v.opposite_spec()), translate_model(v)) == unit_model::<T>(),
{
    lemma_units::<T>();
}

/// The rotation by the angle 0, whose cosine is 1 and whose sine is 0, is
/// the identity, about any axis.
pub proof fn lemma_rotate_zero_angle<T: Scalar>(a: Vector3<T>)
    requires
        ring::<T>(),
    ensures
        axis_angle_model(a, one_spec::<T>(), zero_spec::<T>()) == unit_model::<T>(),
{
    lemma_units::<T>();
}

/// A frame maps the zero point to its origin.
pub proof fn lemma_frame_origin<T: Scalar>(
    origin: Vector3<T>,
    x: Vector3<T>,
    y: Vector3<T>,
    z: Vector3<T>,
)
    requires
        ring::<T>(),
    ensures
        apply_model(frame_model(origin, x, y, z), zero_vector::<T>()) == origin,
{
    lemma_units::<T>();
}

/// On exact operators a product is the product.
pub proof fn lemma_mul_exact<T: Scalar>(a: Seq<T>, b: Seq<T>, m: Seq<T>)
    requires
        exact::<T>(),
        mul_result(a, b, m),
    ensures
        m == mul_model(a, b),
{
}

/// On exact operators a frame is the frame.
pub proof fn lemma_frame_exact<T: Scalar>(
    origin: Vector3<T>,
    x: Vector3<T>,
    y: Vector3<T>,
    z: Vector3<T>,
    m: Seq<T>,
)
    requires
        exact::<T>(),
        frame_result(origin, x, y, z, m),
    ensures
        m == frame_model(origin, x, y, z),
{
    let (t, b) = choose|t: Seq<T>, b: Seq<T>|
        #![trigger translate_result(origin, t), basis_result(x, y, z, b)]
        translate_result(origin, t) && basis_result(x, y, z, b) && mul_result(t, b, m);
    lemma_mul_exact(t, b, m);
}

/// Every camera frame that `look_at` may return for `origin` maps the zero
/// point to `origin`: the translation part recovers the origin.
pub proof fn lemma_look_at_origin<T: ScalarDiv, F: Fn(T) -> T>(
    origin: Vector3<T>,
    target: Vector3<T>,
    up: Vector3<T>,
    sqrt: F,
    m: Seq<T>,
)
    requires
        exact::<T>(),
        ring::<T>(),
        look_at_result(origin, target, up, sqrt, m),
    ensures
        apply_model(m, zero_vector::<T>()) == origin,
{
    let (x, y, z) = choose|x: Vector3<T>, y: Vector3<T>, z: Vector3<T>|
        #![trigger camera_axes(origin, target, up, sqrt, x, y, z)]
        camera_axes(origin, target, up, sqrt, x, y, z) && frame_result(origin, x, y, z, m);
    lemma_frame_exact(origin, x, y, z, m);
    lemma_frame_origin(origin, x, y, z);
}

proof fn lemma_medial<T: Scalar>(a: T, b: T, c: T, d: T)
    requires
        ring::<T>(),
    ensures
        a.add_spec(b).add_spec(c.add_spec(d)) == a.add_spec(c).add_spec(b.add_spec(d)),
{
    lemma_add_assoc(a, b, c.add_spec(d));
    lemma_add_assoc(b, c, d);
    lemma_add_comm(b, c);
    lemma_add_assoc(c, b, d);
    lemma_add_assoc(a, c, b.add_spec(d));
}

/// The sum of four sums is the sum of the two sums of four.
proof fn lemma_sum4_add<T: Scalar>(x0: T, x1: T, x2: T, x3: T, y0: T, y1: T, y2: T, y3: T)
    requires
        ring::<T>(),
    ensures
        sum4(x0.add_spec(y0), x1.add_spec(y1), x2.add_spec(y2), x3.add_spec(y3)) == sum4(
            x0,
            x1,
            x2,
            x3,
        ).add_spec(sum4(y0, y1, y2, y3)),
{
    lemma_medial(x0, y0, x1, y1);
    lemma_medial(x0.add_spec(x1), y0.add_spec(y1), x2, y2);
    lemma_medial(x0.add_spec(x1).add_spec(x2), y0.add_spec(y1).add_spec(y2), x3, y3);
}

/// Sixteen values in a 4x4 grid have the same sum by columns as by rows.
proof fn lemma_sum4_swap<T: Scalar>(m: Seq<T>)
    requires
        ring::<T>(),
        m.len() == 16,
    ensures
        sum4(
            sum4(m[0], m[4], m[8], m[12]),
            sum4(m[1], m[5], m[9], m[13]),
            sum4(m[2], m[6], m[10], m[14]),
            sum4(m[3], m[7], m[11], m[15]),
        ) == sum4(
            sum4(m[0], m[1], m[2], m[3]),
            sum4(m[4], m[5], m[6], m[7]),
            sum4(m[8], m[9], m[10], m[11]),
            sum4(m[12], m[13], m[14], m[15]),
        ),
{
    lemma_sum4_add(
        m[0].add_spec(m[4]).add_spec(m[8]),
        m[1].add_spec(m[5]).add_spec(m[9]),
        m[2].add_spec(m[6]).add_spec(m[10]),
        m[3].add_spec(m[7]).add_spec(m[11]),
        m[12],
        m[13],
        m[14],
        m[15],
    );
    lemma_sum4_add(
        m[0].add_spec(m[4]),
        m[1].add_spec(m[5]),
        m[2].add_spec(m[6]),
        m[3].add_spec(m[7]),
        m[8],
        m[9],
        m[10],
        m[11],
    );
    lemma_sum4_add(m[0], m[1], m[2], m[3], m[4], m[5], m[6], m[7]);
}

/// A dot product times `c`, term by term.
proof fn lemma_col_term<T: Scalar>(a: Vector4<T>, b: Vector4<T>, c: T)
    requires
        ring::<T>(),
    ensures
        a.dot_spec(b).mul_spec(c) == sum4(
            a.x.mul_spec(b.x.mul_spec(c)),
            a.y.mul_spec(b.y.mul_spec(c)),
            a.z.mul_spec(b.z.mul_spec(c)),
            a.w.mul_spec(b.w.mul_spec(c)),
        ),
{
    let p0 = a.x.mul_spec(b.x);
    let p1 = a.y.mul_spec(b.y);
    let p2 = a.z.mul_spec(b.z);
    let p3 = a.w.mul_spec(b.w);
    lemma_distrib_right(p0.add_spec(p1).add_spec(p2), p3, c);
    lemma_distrib_right(p0.add_spec(p1), p2, c);
    lemma_distrib_right(p0, p1, c);
    lemma_mul_assoc(a.x, b.x, c);
    lemma_mul_assoc(a.y, b.y, c);
    lemma_mul_assoc(a.z, b.z, c);
    lemma_mul_assoc(a.w, b.w, c);
}

/// `a` times a dot product, term by term.
proof fn lemma_row_term<T: Scalar>(a: T, b: Vector4<T>, c: Vector4<T>)
    requires
        ring::<T>(),
    ensures
        a.mul_spec(b.dot_spec(c)) == sum4(
            a.mul_spec(b.x.mul_spec(c.x)),
            a.mul_spec(b.y.mul_spec(c.y)),
            a.mul_spec(b.z.mul_spec(c.z)),
            a.mul_spec(b.w.mul_spec(c.w)),
        ),
{
    let q0 = b.x.mul_spec(c.x);
    let q1 = b.y.mul_spec(c.y);
    let q2 = b.z.mul_spec(c.z);
    let q3 = b.w.mul_spec(c.w);
    lemma_distrib_left(a, q0.add_spec(q1).add_spec(q2), q3);
    lemma_distrib_left(a, q0.add_spec(q1), q2);
    lemma_distrib_left(a, q0, q1);
}

/// The row `a` times the matrix `b`, then times the column `c`, is `a`
/// times the product of `b` and `c`.
proof fn lemma_dot_assoc<T: Scalar>(a: Vector4<T>, b: Seq<T>, c: Vector4<T>)
    requires
        ring::<T>(),
        b.len() == 16,
    ensures
        (Vector4 {
            x: a.dot_spec(col_model(b, 0)),
            y: a.dot_spec(col_model(b, 1)),
            z: a.dot_spec(col_model(b, 2)),
            w: a.dot_spec(col_model(b, 3)),
        }).dot_spec(c) == a.dot_spec(
            Vector4 {
                x: row_model(b, 0).dot_spec(c),
                y: row_model(b, 1).dot_spec(c),
                z: row_model(b, 2).dot_spec(c),
                w: row_model(b, 3).dot_spec(c),
            },
        ),
{
    let m = Seq::new(
        16,
        |i: int|
            (if i / 4 == 0 {
                a.x
            } else if i / 4 == 1 {
                a.y
            } else if i / 4 == 2 {
                a.z
            } else {
                a.w
            }).mul_spec(
                b[i].mul_spec(
                    if i % 4 == 0 {
                        c.x
                    } else if i % 4 == 1 {
                        c.y
                    } else if i % 4 == 2 {
                        c.z
                    } else {
                        c.w
                    },
                ),
            ),
    );
    lemma_col_term(a, col_model(b, 0), c.x);
    lemma_col_term(a, col_model(b, 1), c.y);
    lemma_col_term(a, col_model(b, 2), c.z);
    lemma_col_term(a, col_model(b, 3), c.w);
    lemma_row_term(a.x, row_model(b, 0), c);
    lemma_row_term(a.y, row_model(b, 1), c);
    lemma_row_term(a.z, row_model(b, 2), c);
    lemma_row_term(a.w, row_model(b, 3), c);
    lemma_sum4_swap(m);
}

/// The matrix product is associative.
pub proof fn lemma_mul_associative<T: Scalar>(a: Matrix4<T>, b: Matrix4<T>, c: Matrix4<T>)
    requires
        ring::<T>(),
    ensures
        mul_model(mul_model(a@, b@), c@) == mul_model(a@, mul_model(b@, c@)),
{
    a.lemma_len();
    b.lemma_len();
    c.lemma_len();
    let ab = mul_model(a@, b@);
    let bc = mul_model(b@, c@);
    assert forall|i: int| 0 <= i < 16 implies mul_model(ab, c@)[i] == mul_model(a@, bc)[i] by {
        let r = i / 4;
        let l = i % 4;
        let row = row_model(a@, r);
        let col = col_model(c@, l);
        lemma_dot_assoc(row, b@, col);
        assert(row_model(ab, r) == (Vector4 {
            x: row.dot_spec(col_model(b@, 0)),
            y: row.dot_spec(col_model(b@, 1)),
            z: row.dot_spec(col_model(b@, 2)),
            w: row.dot_spec(col_model(b@, 3)),
        }));
        assert(col_model(bc, l) == (Vector4 {
            x: row_model(b@, 0).dot_spec(col),
            y: row_model(b@, 1).dot_spec(col),
            z: row_model(b@, 2).dot_spec(col),
            w: row_model(b@, 3).dot_spec(col),
        }));
    }
}

} // verus!
