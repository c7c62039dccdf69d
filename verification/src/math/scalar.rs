//! What a transform asks of its element type, and how contracts speak of
//! its arithmetic.
//!
//! The element type is any copyable type with the standard operators.
//! A contract says of a computed value that it is what the operators may
//! return along the computation (`*_ensures`), and, where the operators
//! are `exact`, which value that is (`*_spec`). A precondition (`*_req`)
//! asks that every operator be applicable to whatever the steps before it
//! may have returned: nothing for an element type whose operators never
//! refuse, such as floating point; the absence of overflow for the
//! primitive integers.

use core::ops::Add;
use core::ops::Div;
use core::ops::Mul;
use core::ops::Neg;
use core::ops::Sub;
use vstd::prelude::*;
use vstd::std_specs::convert::FromSpec;
use vstd::std_specs::ops::AddSpec;
use vstd::std_specs::ops::MulSpec;
use vstd::std_specs::ops::NegSpec;
use vstd::std_specs::ops::SubSpec;

verus! {

/// An element type: copyable, with `+`, `-`, `*`, unary `-`, and the two
/// constants 0 and 1 by conversion from `i8`.
pub trait Scalar: Copy + From<i8> + Add<Output = Self> + Sub<Output = Self> + Mul<
    Output = Self,
> + Neg<Output = Self> {

}

impl<T> Scalar for T where
    T: Copy + From<i8> + Add<Output = T> + Sub<Output = T> + Mul<Output = T> + Neg<Output = T>,
 {

}

/// A scalar that can also be divided.
pub trait ScalarDiv: Scalar + Div<Output = Self> {

}

impl<T> ScalarDiv for T where T: Scalar + Div<Output = T> {

}

/// The constant 0 of `T`.
pub open spec fn zero_spec<T: Scalar>() -> T {
    <T as FromSpec<i8>>::from_spec(0i8)
}

/// The constant 1 of `T`.
pub open spec fn one_spec<T: Scalar>() -> T {
    <T as FromSpec<i8>>::from_spec(1i8)
}

/// The operators and the conversion of `T` return what their
/// specifications say.
pub open spec fn exact<T: Scalar>() -> bool {
    &&& <T as FromSpec<i8>>::obeys_from_spec()
    &&& <T as AddSpec>::obeys_add_spec()
    &&& <T as SubSpec>::obeys_sub_spec()
    &&& <T as MulSpec>::obeys_mul_spec()
    &&& <T as NegSpec>::obeys_neg_spec()
}

/// `-a` may be computed.
pub open spec fn may_neg<T: Scalar>(a: T) -> bool {
    call_requires(<T as Neg>::neg, (a,))
}

/// `a + b` may be computed.
pub open spec fn may_add<T: Scalar>(a: T, b: T) -> bool {
    call_requires(<T as Add>::add, (a, b))
}

/// `a - b` may be computed.
pub open spec fn may_sub<T: Scalar>(a: T, b: T) -> bool {
    call_requires(<T as Sub>::sub, (a, b))
}

/// `a * b` may be computed.
pub open spec fn may_mul<T: Scalar>(a: T, b: T) -> bool {
    call_requires(<T as Mul>::mul, (a, b))
}

/// `a / b` may be computed.
pub open spec fn may_div<T: ScalarDiv>(a: T, b: T) -> bool {
    call_requires(<T as Div>::div, (a, b))
}

/// `r` is a value that the conversion of 0 may return.
pub open spec fn is_zero<T: Scalar>(r: T) -> bool {
    call_ensures(<T as From<i8>>::from, (0i8,), r)
}

/// `r` is a value that the conversion of 1 may return.
pub open spec fn is_one<T: Scalar>(r: T) -> bool {
    call_ensures(<T as From<i8>>::from, (1i8,), r)
}

/// `r` is a value that `-a` may return.
pub open spec fn is_neg<T: Scalar>(a: T, r: T) -> bool {
    call_ensures(<T as Neg>::neg, (a,), r)
}

/// `r` is a value that `a + b` may return.
pub open spec fn is_sum<T: Scalar>(a: T, b: T, r: T) -> bool {
    call_ensures(<T as Add>::add, (a, b), r)
}

/// `r` is a value that `a - b` may return.
pub open spec fn is_difference<T: Scalar>(a: T, b: T, r: T) -> bool {
    call_ensures(<T as Sub>::sub, (a, b), r)
}

/// `r` is a value that `a * b` may return.
pub open spec fn is_product<T: Scalar>(a: T, b: T, r: T) -> bool {
    call_ensures(<T as Mul>::mul, (a, b), r)
}

/// `r` is a value that `a / b` may return.
pub open spec fn is_quotient<T: ScalarDiv>(a: T, b: T, r: T) -> bool {
    call_ensures(<T as Div>::div, (a, b), r)
}

/// The constant 0.
pub fn zero<T: Scalar>() -> (r: T)
    ensures
        is_zero(r),
        exact::<T>() ==> r == zero_spec::<T>(),
{
    T::from(0i8)
}

/// The constant 1.
pub fn one<T: Scalar>() -> (r: T)
    ensures
        is_one(r),
        exact::<T>() ==> r == one_spec::<T>(),
{
    T::from(1i8)
}

/// Whether `a * b - c * d` may be computed.
pub open spec fn mul_sub_req<T: Scalar>(a: T, b: T, c: T, d: T) -> bool {
    &&& may_mul(a, b)
    &&& may_mul(c, d)
    &&& forall|p: T, q: T|
        #![trigger is_product(a, b, p), is_product(c, d, q)]
        is_product(a, b, p) && is_product(c, d, q) ==> may_sub(p, q)
}

/// `r` is a value that `a * b - c * d` may return.
pub open spec fn mul_sub_ensures<T: Scalar>(a: T, b: T, c: T, d: T, r: T) -> bool {
    exists|p: T, q: T|
        #![trigger is_product(a, b, p), is_product(c, d, q)]
        is_product(a, b, p) && is_product(c, d, q) && is_difference(p, q, r)
}

/// `a * b - c * d`.
pub open spec fn mul_sub_spec<T: Scalar>(a: T, b: T, c: T, d: T) -> T {
    a.mul_spec(b).sub_spec(c.mul_spec(d))
}

/// `a * b - c * d`.
pub fn mul_sub<T: Scalar>(a: T, b: T, c: T, d: T) -> (r: T)
    requires
        mul_sub_req(a, b, c, d),
    ensures
        mul_sub_ensures(a, b, c, d, r),
        exact::<T>() ==> r == mul_sub_spec(a, b, c, d),
{
    let p = a * b;
    let q = c * d;
    assert(is_product(a, b, p) && is_product(c, d, q));
    let r = p - q;
    r
}

/// Whether `a * b + c * d + e * f` may be computed, left to right.
pub open spec fn dot3_req<T: Scalar>(a: T, b: T, c: T, d: T, e: T, f: T) -> bool {
    &&& may_mul(a, b)
    &&& may_mul(c, d)
    &&& may_mul(e, f)
    &&& forall|p: T, q: T|
        #![trigger is_product(a, b, p), is_product(c, d, q)]
        is_product(a, b, p) && is_product(c, d, q) ==> {
            &&& may_add(p, q)
            &&& forall|s: T, u: T|
                #![trigger is_sum(p, q, s), is_product(e, f, u)]
                is_sum(p, q, s) && is_product(e, f, u) ==> may_add(s, u)
        }
}

/// `r` is a value that `(a * b + c * d) + e * f` may return.
pub open spec fn dot3_ensures<T: Scalar>(a: T, b: T, c: T, d: T, e: T, f: T, r: T) -> bool {
    exists|p: T, q: T, u: T, s: T|
        #![trigger is_product(a, b, p), is_product(c, d, q), is_product(e, f, u), is_sum(p, q, s)]
        {
            &&& is_product(a, b, p)
            &&& is_product(c, d, q)
            &&& is_product(e, f, u)
            &&& is_sum(p, q, s)
            &&& is_sum(s, u, r)
        }
}

/// `(a * b + c * d) + e * f`.
pub open spec fn dot3_spec<T: Scalar>(a: T, b: T, c: T, d: T, e: T, f: T) -> T {
    a.mul_spec(b).add_spec(c.mul_spec(d)).add_spec(e.mul_spec(f))
}

/// `(a * b + c * d) + e * f`.
pub fn dot3<T: Scalar>(a: T, b: T, c: T, d: T, e: T, f: T) -> (r: T)
    requires
        dot3_req(a, b, c, d, e, f),
    ensures
        dot3_ensures(a, b, c, d, e, f, r),
        exact::<T>() ==> r == dot3_spec(a, b, c, d, e, f),
{
    let p = a * b;
    let q = c * d;
    assert(is_product(a, b, p) && is_product(c, d, q));
    let s = p + q;
    let u = e * f;
    assert(is_sum(p, q, s) && is_product(e, f, u));
    let r = s + u;
    r
}

/// Whether `a * b + c * d + e * f + g * h` may be computed, left to right.
pub open spec fn dot4_req<T: Scalar>(a: T, b: T, c: T, d: T, e: T, f: T, g: T, h: T) -> bool {
    &&& dot3_req(a, b, c, d, e, f)
    &&& may_mul(g, h)
    &&& forall|s: T, v: T|
        #![trigger dot3_ensures(a, b, c, d, e, f, s), is_product(g, h, v)]
        dot3_ensures(a, b, c, d, e, f, s) && is_product(g, h, v) ==> may_add(s, v)
}

/// `r` is a value that `((a * b + c * d) + e * f) + g * h` may return.
pub open spec fn dot4_ensures<T: Scalar>(
    a: T,
    b: T,
    c: T,
    d: T,
    e: T,
    f: T,
    g: T,
    h: T,
    r: T,
) -> bool {
    exists|s: T, v: T|
        #![trigger dot3_ensures(a, b, c, d, e, f, s), is_product(g, h, v)]
        dot3_ensures(a, b, c, d, e, f, s) && is_product(g, h, v) && is_sum(s, v, r)
}

/// `((a * b + c * d) + e * f) + g * h`.
pub open spec fn dot4_spec<T: Scalar>(a: T, b: T, c: T, d: T, e: T, f: T, g: T, h: T) -> T {
    dot3_spec(a, b, c, d, e, f).add_spec(g.mul_spec(h))
}

/// `((a * b + c * d) + e * f) + g * h`.
pub fn dot4<T: Scalar>(a: T, b: T, c: T, d: T, e: T, f: T, g: T, h: T) -> (r: T)
    requires
        dot4_req(a, b, c, d, e, f, g, h),
    ensures
        dot4_ensures(a, b, c, d, e, f, g, h, r),
        exact::<T>() ==> r == dot4_spec(a, b, c, d, e, f, g, h),
{
    let s = dot3(a, b, c, d, e, f);
    let v = g * h;
    assert(is_product(g, h, v));
    let r = s + v;
    r
}

/// Whether `(p * q) * t` may be computed.
pub open spec fn mul3_req<T: Scalar>(p: T, q: T, t: T) -> bool {
    &&& may_mul(p, q)
    &&& forall|x: T| #[trigger] is_product(p, q, x) ==> may_mul(x, t)
}

/// `r` is a value that `(p * q) * t` may return.
pub open spec fn mul3_ensures<T: Scalar>(p: T, q: T, t: T, r: T) -> bool {
    exists|x: T| #[trigger] is_product(p, q, x) && is_product(x, t, r)
}

/// `(p * q) * t`.
pub open spec fn mul3_spec<T: Scalar>(p: T, q: T, t: T) -> T {
    p.mul_spec(q).mul_spec(t)
}

/// `(p * q) * t`.
pub fn mul3<T: Scalar>(p: T, q: T, t: T) -> (r: T)
    requires
        mul3_req(p, q, t),
    ensures
        mul3_ensures(p, q, t, r),
        exact::<T>() ==> r == mul3_spec(p, q, t),
{
    let x = p * q;
    assert(is_product(p, q, x));
    let r = x * t;
    r
}

/// Whether `a + (p * q) * t` may be computed.
pub open spec fn add_mul3_req<T: Scalar>(a: T, p: T, q: T, t: T) -> bool {
    &&& mul3_req(p, q, t)
    &&& forall|y: T| #[trigger] mul3_ensures(p, q, t, y) ==> may_add(a, y)
}

/// `r` is a value that `a + (p * q) * t` may return.
pub open spec fn add_mul3_ensures<T: Scalar>(a: T, p: T, q: T, t: T, r: T) -> bool {
    exists|y: T| #[trigger] mul3_ensures(p, q, t, y) && is_sum(a, y, r)
}

/// `a + (p * q) * t`.
pub open spec fn add_mul3_spec<T: Scalar>(a: T, p: T, q: T, t: T) -> T {
    a.add_spec(mul3_spec(p, q, t))
}

/// `a + (p * q) * t`.
pub fn add_mul3<T: Scalar>(a: T, p: T, q: T, t: T) -> (r: T)
    requires
        add_mul3_req(a, p, q, t),
    ensures
        add_mul3_ensures(a, p, q, t, r),
        exact::<T>() ==> r == add_mul3_spec(a, p, q, t),
{
    let y = mul3(p, q, t);
    let r = a + y;
    r
}

/// Whether `(p * q) * t - r * s` may be computed.
pub open spec fn mul3_sub_mul_req<T: Scalar>(p: T, q: T, t: T, r: T, s: T) -> bool {
    &&& mul3_req(p, q, t)
    &&& may_mul(r, s)
    &&& forall|y: T, w: T|
        #![trigger mul3_ensures(p, q, t, y), is_product(r, s, w)]
        mul3_ensures(p, q, t, y) && is_product(r, s, w) ==> may_sub(y, w)
}

/// `out` is a value that `(p * q) * t - r * s` may return.
pub open spec fn mul3_sub_mul_ensures<T: Scalar>(p: T, q: T, t: T, r: T, s: T, out: T) -> bool {
    exists|y: T, w: T|
        #![trigger mul3_ensures(p, q, t, y), is_product(r, s, w)]
        mul3_ensures(p, q, t, y) && is_product(r, s, w) && is_difference(y, w, out)
}

/// `(p * q) * t - r * s`.
pub open spec fn mul3_sub_mul_spec<T: Scalar>(p: T, q: T, t: T, r: T, s: T) -> T {
    mul3_spec(p, q, t).sub_spec(r.mul_spec(s))
}

/// `(p * q) * t - r * s`.
pub fn mul3_sub_mul<T: Scalar>(p: T, q: T, t: T, r: T, s: T) -> (out: T)
    requires
        mul3_sub_mul_req(p, q, t, r, s),
    ensures
        mul3_sub_mul_ensures(p, q, t, r, s, out),
        exact::<T>() ==> out == mul3_sub_mul_spec(p, q, t, r, s),
{
    let y = mul3(p, q, t);
    let w = r * s;
    assert(is_product(r, s, w));
    let out = y - w;
    out
}

/// Whether `(p * q) * t + r * s` may be computed.
pub open spec fn mul3_add_mul_req<T: Scalar>(p: T, q: T, t: T, r: T, s: T) -> bool {
    &&& mul3_req(p, q, t)
    &&& may_mul(r, s)
    &&& forall|y: T, w: T|
        #![trigger mul3_ensures(p, q, t, y), is_product(r, s, w)]
        mul3_ensures(p, q, t, y) && is_product(r, s, w) ==> may_add(y, w)
}

/// `out` is a value that `(p * q) * t + r * s` may return.
pub open spec fn mul3_add_mul_ensures<T: Scalar>(p: T, q: T, t: T, r: T, s: T, out: T) -> bool {
    exists|y: T, w: T|
        #![trigger mul3_ensures(p, q, t, y), is_product(r, s, w)]
        mul3_ensures(p, q, t, y) && is_product(r, s, w) && is_sum(y, w, out)
}

/// `(p * q) * t + r * s`.
pub open spec fn mul3_add_mul_spec<T: Scalar>(p: T, q: T, t: T, r: T, s: T) -> T {
    mul3_spec(p, q, t).add_spec(r.mul_spec(s))
}

/// `(p * q) * t + r * s`.
pub fn mul3_add_mul<T: Scalar>(p: T, q: T, t: T, r: T, s: T) -> (out: T)
    requires
        mul3_add_mul_req(p, q, t, r, s),
    ensures
        mul3_add_mul_ensures(p, q, t, r, s, out),
        exact::<T>() ==> out == mul3_add_mul_spec(p, q, t, r, s),
{
    let y = mul3(p, q, t);
    let w = r * s;
    assert(is_product(r, s, w));
    let out = y + w;
    out
}

} // verus!
