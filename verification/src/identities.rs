//! Identities of the vector operations over integral element types.
use crate::element::{Integral, SignedIntegral};
use crate::matrix::Mat3x3;
use crate::traits::{Cross, Dot, Invert, PieceWiseDiv, PieceWiseMul};
use crate::vector::vec3::{minor, minor_req};
use crate::vector::{Vec2, Vec3};
use vstd::prelude::*;
use vstd::std_specs::ops::{AddSpec, DivSpec, MulSpec, NegSpec, SubSpec};

verus! {

/// Where `a*b - c*d` can be computed, it stands for that integer.
pub proof fn lemma_minor_value<T: Integral>(a: T, b: T, c: T, d: T)
    requires
        minor_req(a, b, c, d),
    ensures
        minor(a, b, c, d).value() == a.value() * b.value() - c.value() * d.value(),
{
    T::exact(a, b);
    T::exact(c, d);
    T::exact(a.mul_spec(b), c.mul_spec(d));
}

/// Where the dot product of two 2-vectors can be computed, it stands for
/// the integer `x1*x2 + y1*y2`.
pub proof fn lemma_dot_value_vec2<T: Integral>(a: Vec2<T>, b: Vec2<T>)
    requires
        a.dot_req(&b),
    ensures
        a.dot_spec(&b).value() == a.x.value() * b.x.value() + a.y.value() * b.y.value(),
{
    T::exact(a.x, b.x);
    T::exact(a.y, b.y);
    T::exact(a.x.mul_spec(b.x), a.y.mul_spec(b.y));
}

/// Where the dot product of two 3-vectors can be computed, it stands for
/// the integer `x1*x2 + y1*y2 + z1*z2`.
pub proof fn lemma_dot_value_vec3<T: Integral>(a: Vec3<T>, b: Vec3<T>)
    requires
        a.dot_req(&b),
    ensures
        a.dot_spec(&b).value() == a.x.value() * b.x.value() + a.y.value() * b.y.value()
            + a.z.value() * b.z.value(),
{
    T::exact(a.x, b.x);
    T::exact(a.y, b.y);
    T::exact(a.z, b.z);
    T::exact(a.x.mul_spec(b.x), a.y.mul_spec(b.y));
    T::exact(a.x.mul_spec(b.x).add_spec(a.y.mul_spec(b.y)), a.z.mul_spec(b.z));
}

/// The dot product of two 2-vectors does not depend on their order:
/// `b.dot(a)` can be computed exactly when `a.dot(b)` can, and is the same
/// element.
pub proof fn lemma_dot_commutes_vec2<T: Integral>(a: Vec2<T>, b: Vec2<T>)
    ensures
        a.dot_req(&b) == b.dot_req(&a),
        a.dot_spec(&b) == b.dot_spec(&a),
{
    T::exact(a.x, b.x);
    T::exact(a.y, b.y);
    T::exact(b.x, a.x);
    T::exact(b.y, a.y);
}

/// The dot product of two 3-vectors does not depend on their order:
/// `b.dot(a)` can be computed exactly when `a.dot(b)` can, and is the same
/// element.
pub proof fn lemma_dot_commutes_vec3<T: Integral>(a: Vec3<T>, b: Vec3<T>)
    ensures
        a.dot_req(&b) == b.dot_req(&a),
        a.dot_spec(&b) == b.dot_spec(&a),
{
    T::exact(a.x, b.x);
    T::exact(a.y, b.y);
    T::exact(a.z, b.z);
    T::exact(b.x, a.x);
    T::exact(b.y, a.y);
    T::exact(b.z, a.z);
}

/// `a*b - c*d` is the negation of `c*d - a*b`, where both can be computed.
proof fn lemma_minor_negated<T: SignedIntegral>(a: T, b: T, c: T, d: T)
    requires
        minor_req(a, b, c, d),
        minor_req(c, d, a, b),
    ensures
        minor(c, d, a, b).neg_req(),
        minor(a, b, c, d) == minor(c, d, a, b).neg_spec(),
{
    lemma_minor_value(a, b, c, d);
    lemma_minor_value(c, d, a, b);
    T::exact_neg(minor(c, d, a, b));
    T::exact(minor(a, b, c, d), minor(c, d, a, b).neg_spec());
}

/// Swapping the arguments of the cross product negates it: where `a.cross(b)`
/// and `b.cross(a)` can both be computed, `b.cross(a)` can be negated, and
/// its negation is `a.cross(b)`.
pub proof fn lemma_cross_anticommutes<T: SignedIntegral>(a: Vec3<T>, b: Vec3<T>)
    requires
        a.cross_req(&b),
        b.cross_req(&a),
    ensures
        b.cross_spec(&a).neg_req(),
        a.cross_spec(&b) == b.cross_spec(&a).neg_spec(),
{
    T::exact(b.y, a.z);
    T::exact(b.z, a.y);
    T::exact(b.z, a.x);
    T::exact(b.x, a.z);
    T::exact(b.x, a.y);
    T::exact(b.y, a.x);
    T::exact(a.z, b.y);
    T::exact(a.y, b.z);
    T::exact(a.x, b.z);
    T::exact(a.z, b.x);
    T::exact(a.y, b.x);
    T::exact(a.x, b.y);
    lemma_minor_negated(a.y, b.z, a.z, b.y);
    lemma_minor_negated(a.z, b.x, a.x, b.z);
    lemma_minor_negated(a.x, b.y, a.y, b.x);
}

/// The cross product is orthogonal to both of its arguments: where
/// `a.cross(b)` can be computed, its dot product with `a`, and with `b`,
/// stands for zero wherever that dot product can be computed.
pub proof fn lemma_cross_orthogonal<T: Integral>(a: Vec3<T>, b: Vec3<T>)
    requires
        a.cross_req(&b),
    ensures
        a.cross_spec(&b).dot_req(&a) ==> a.cross_spec(&b).dot_spec(&a).value() == 0,
        a.cross_spec(&b).dot_req(&b) ==> a.cross_spec(&b).dot_spec(&b).value() == 0,
{
    let c = a.cross_spec(&b);
    lemma_minor_value(a.y, b.z, a.z, b.y);
    lemma_minor_value(a.z, b.x, a.x, b.z);
    lemma_minor_value(a.x, b.y, a.y, b.x);
    let (ax, ay, az) = (a.x.value(), a.y.value(), a.z.value());
    let (bx, by, bz) = (b.x.value(), b.y.value(), b.z.value());
    if c.dot_req(&a) {
        lemma_dot_value_vec3(c, a);
        assert((ay * bz - az * by) * ax + (az * bx - ax * bz) * ay + (ax * by - ay * bx) * az == 0)
            by (nonlinear_arith);
    }
    if c.dot_req(&b) {
        lemma_dot_value_vec3(c, b);
        assert((ay * bz - az * by) * bx + (az * bx - ax * bz) * by + (ax * by - ay * bx) * bz == 0)
            by (nonlinear_arith);
    }
}

/// Negating an element twice gives it back.
proof fn lemma_neg_twice<T: SignedIntegral>(a: T)
    requires
        a.neg_req(),
    ensures
        a.neg_spec().neg_req(),
        a.neg_spec().neg_spec() == a,
{
    T::exact_neg(a);
    T::exact_neg(a.neg_spec());
    T::exact(a, a.neg_spec().neg_spec());
}

/// Inverting a 2-vector twice gives it back: where `v` can be inverted, so
/// can the result, and the second result is `v`.
pub proof fn lemma_inverted_twice_vec2<T: SignedIntegral>(v: Vec2<T>)
    requires
        v.inverted_req(),
    ensures
        v.inverted_spec().inverted_req(),
        v.inverted_spec().inverted_spec() == v,
{
    lemma_neg_twice(v.x);
    lemma_neg_twice(v.y);
}

/// Inverting a 3-vector twice gives it back: where `v` can be inverted, so
/// can the result, and the second result is `v`.
pub proof fn lemma_inverted_twice_vec3<T: SignedIntegral>(v: Vec3<T>)
    requires
        v.inverted_req(),
    ensures
        v.inverted_spec().inverted_req(),
        v.inverted_spec().inverted_spec() == v,
{
    lemma_neg_twice(v.x);
    lemma_neg_twice(v.y);
    lemma_neg_twice(v.z);
}

/// Unary minus on a 3-vector and `inverted` agree.
pub proof fn lemma_neg_is_inverted<T: SignedIntegral>(v: Vec3<T>)
    ensures
        v.inverted_req() == v.neg_req(),
        v.inverted_spec() == v.neg_spec(),
{
    T::exact_neg(v.x);
}

/// Multiplying a 2-vector by `w` component by component and dividing the
/// result by `w` in the same way gives the vector back, if no component of
/// `w` is zero: the division can then be computed, and its result is `v`.
pub proof fn lemma_piece_wise_round_trip_vec2<T: Integral>(v: Vec2<T>, w: Vec2<T>)
    requires
        v.piece_wise_mul_req(&w),
        w.x.value() != 0,
        w.y.value() != 0,
    ensures
        v.piece_wise_mul_spec(&w).piece_wise_div_req(&w),
        v.piece_wise_mul_spec(&w).piece_wise_div_spec(&w) == v,
{
    T::exact(v.x, w.x);
    T::cancel(v.x, w.x);
    T::cancel(v.y, w.y);
}

/// Multiplying a 3-vector by `w` component by component and dividing the
/// result by `w` in the same way gives the vector back, if no component of
/// `w` is zero: the division can then be computed, and its result is `v`.
pub proof fn lemma_piece_wise_round_trip_vec3<T: Integral>(v: Vec3<T>, w: Vec3<T>)
    requires
        v.piece_wise_mul_req(&w),
        w.x.value() != 0,
        w.y.value() != 0,
        w.z.value() != 0,
    ensures
        v.piece_wise_mul_spec(&w).piece_wise_div_req(&w),
        v.piece_wise_mul_spec(&w).piece_wise_div_spec(&w) == v,
{
    T::exact(v.x, w.x);
    T::cancel(v.x, w.x);
    T::cancel(v.y, w.y);
    T::cancel(v.z, w.z);
}

/// Whether `m` has ones on its diagonal and zeros elsewhere.
pub open spec fn is_identity<T: Integral>(m: Mat3x3<T>) -> bool {
    forall|i: int, j: int|
        0 <= i < 3 && 0 <= j < 3 ==> #[trigger] m.at(i, j).value() == if i == j {
            1int
        } else {
            0int
        }
}

/// The dot product of a row `(p, q, r)` whose entries stand for zeros and at
/// most one 1 with `v`.
proof fn lemma_unit_row_dot<T: Integral>(row: Vec3<T>, v: Vec3<T>, k: int)
    requires
        0 <= k < 3,
        row.x.value() == if k == 0 { 1int } else { 0int },
        row.y.value() == if k == 1 { 1int } else { 0int },
        row.z.value() == if k == 2 { 1int } else { 0int },
    ensures
        row.dot_req(&v),
        k == 0 ==> row.dot_spec(&v) == v.x,
        k == 1 ==> row.dot_spec(&v) == v.y,
        k == 2 ==> row.dot_spec(&v) == v.z,
{
    T::exact(row.x, v.x);
    T::exact(row.y, v.y);
    T::exact(row.z, v.z);
    T::exact(v.x, v.x);
    T::exact(v.y, v.y);
    T::exact(v.z, v.z);
    let (p, q, r) = (row.x.mul_spec(v.x), row.y.mul_spec(v.y), row.z.mul_spec(v.z));
    assert(row.x.value() * v.x.value() == if k == 0 { v.x.value() } else { 0 })
        by (nonlinear_arith)
        requires
            row.x.value() == if k == 0 { 1int } else { 0int },
    ;
    assert(row.y.value() * v.y.value() == if k == 1 { v.y.value() } else { 0 })
        by (nonlinear_arith)
        requires
            row.y.value() == if k == 1 { 1int } else { 0int },
    ;
    assert(row.z.value() * v.z.value() == if k == 2 { v.z.value() } else { 0 })
        by (nonlinear_arith)
        requires
            row.z.value() == if k == 2 { 1int } else { 0int },
    ;
    T::exact(p, q);
    T::exact(p.add_spec(q), r);
    T::exact(row.dot_spec(&v), v.x);
    T::exact(row.dot_spec(&v), v.y);
    T::exact(row.dot_spec(&v), v.z);
}

/// The identity matrix maps every vector to itself: its product with `v`
/// can always be computed, and is `v`.
pub proof fn lemma_identity_dot<T: Integral>(m: Mat3x3<T>, v: Vec3<T>)
    requires
        is_identity(m),
    ensures
        m.dot_req(&v),
        m.dot_spec(&v) == v,
{
    assert(m.at(0, 0).value() == 1 && m.at(0, 1).value() == 0 && m.at(0, 2).value() == 0);
    assert(m.at(1, 0).value() == 0 && m.at(1, 1).value() == 1 && m.at(1, 2).value() == 0);
    assert(m.at(2, 0).value() == 0 && m.at(2, 1).value() == 0 && m.at(2, 2).value() == 1);
    lemma_unit_row_dot(m.row_spec(0), v, 0);
    lemma_unit_row_dot(m.row_spec(1), v, 1);
    lemma_unit_row_dot(m.row_spec(2), v, 2);
}

} // verus!
