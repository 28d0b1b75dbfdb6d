//! Integral element types with their order.
use crate::element::Integral;
use crate::vector::scalar::{greater_eq, smaller, smaller_eq};
use crate::vector::{Vec2, Vec3};
use vstd::prelude::*;
use vstd::std_specs::cmp::PartialOrdSpec;

verus! {

/// An integral element type whose comparisons are those of the integers it
/// stands for.
pub trait OrderedIntegral: Integral + PartialOrd {
    /// `<`, `<=` and `>=` on two elements compare their values.
    proof fn order(a: Self, b: Self)
        ensures
            Self::obeys_partial_cmp_spec(),
            smaller(a, b) == (a.value() < b.value()),
            smaller_eq(a, b) == (a.value() <= b.value()),
            greater_eq(a, b) == (a.value() >= b.value()),
    ;
}

impl OrderedIntegral for i8 {
    proof fn order(a: Self, b: Self) {
    }
}

impl OrderedIntegral for i16 {
    proof fn order(a: Self, b: Self) {
    }
}

impl OrderedIntegral for i32 {
    proof fn order(a: Self, b: Self) {
    }
}

impl OrderedIntegral for i64 {
    proof fn order(a: Self, b: Self) {
    }
}

impl OrderedIntegral for i128 {
    proof fn order(a: Self, b: Self) {
    }
}

impl OrderedIntegral for isize {
    proof fn order(a: Self, b: Self) {
    }
}

impl OrderedIntegral for u8 {
    proof fn order(a: Self, b: Self) {
    }
}

impl OrderedIntegral for u16 {
    proof fn order(a: Self, b: Self) {
    }
}

impl OrderedIntegral for u32 {
    proof fn order(a: Self, b: Self) {
    }
}

impl OrderedIntegral for u64 {
    proof fn order(a: Self, b: Self) {
    }
}

impl OrderedIntegral for u128 {
    proof fn order(a: Self, b: Self) {
    }
}

impl OrderedIntegral for usize {
    proof fn order(a: Self, b: Self) {
    }
}

/// `all_smaller` and `all_smaller_eq` on 2-vectors compare the values
/// component by component.
pub proof fn lemma_all_smaller_vec2<T: OrderedIntegral>(a: Vec2<T>, b: Vec2<T>)
    ensures
        a.all_smaller_spec(&b) == (a.x.value() < b.x.value() && a.y.value() < b.y.value()),
        a.all_smaller_eq_spec(&b) == (a.x.value() <= b.x.value() && a.y.value() <= b.y.value()),
{
    T::order(a.x, b.x);
    T::order(a.y, b.y);
}

/// `all_smaller` and `all_smaller_eq` on 3-vectors compare the values
/// component by component.
pub proof fn lemma_all_smaller_vec3<T: OrderedIntegral>(a: Vec3<T>, b: Vec3<T>)
    ensures
        a.all_smaller_spec(&b) == (a.x.value() < b.x.value() && a.y.value() < b.y.value()
            && a.z.value() < b.z.value()),
        a.all_smaller_eq_spec(&b) == (a.x.value() <= b.x.value() && a.y.value() <= b.y.value()
            && a.z.value() <= b.z.value()),
{
    T::order(a.x, b.x);
    T::order(a.y, b.y);
    T::order(a.z, b.z);
}

/// `min` is a component of the vector, none is smaller, and among equal
/// smallest components it is the first.
pub proof fn lemma_min_is_least<T: OrderedIntegral>(v: Vec3<T>)
    ensures
        v.min_spec().value() <= v.x.value(),
        v.min_spec().value() <= v.y.value(),
        v.min_spec().value() <= v.z.value(),
        v.min_spec() == if v.x.value() <= v.y.value() && v.x.value() <= v.z.value() {
            v.x
        } else if v.y.value() <= v.z.value() {
            v.y
        } else {
            v.z
        },
{
    T::order(v.x, v.y);
    T::order(v.x, v.z);
    T::order(v.y, v.x);
    T::order(v.y, v.z);
}

/// `max` is a component of the vector, none is greater, and among equal
/// greatest components it is the first.
pub proof fn lemma_max_is_greatest<T: OrderedIntegral>(v: Vec3<T>)
    ensures
        v.max_spec().value() >= v.x.value(),
        v.max_spec().value() >= v.y.value(),
        v.max_spec().value() >= v.z.value(),
        v.max_spec() == if v.x.value() >= v.y.value() && v.x.value() >= v.z.value() {
            v.x
        } else if v.y.value() >= v.z.value() {
            v.y
        } else {
            v.z
        },
{
    T::order(v.x, v.y);
    T::order(v.x, v.z);
    T::order(v.y, v.x);
    T::order(v.y, v.z);
}

/// The smaller of two integers.
pub open spec fn lesser(a: int, b: int) -> int {
    if a < b {
        a
    } else {
        b
    }
}

/// The greater of two integers.
pub open spec fn greater(a: int, b: int) -> int {
    if a >= b {
        a
    } else {
        b
    }
}

/// Each component of `element_wise_min` stands for the smaller of the two
/// values at its place, each component of `element_wise_max` for the greater.
pub proof fn lemma_element_wise_extremes<T: OrderedIntegral>(a: Vec3<T>, b: Vec3<T>)
    ensures
        a.element_wise_min_spec(&b).x.value() == lesser(a.x.value(), b.x.value()),
        a.element_wise_min_spec(&b).y.value() == lesser(a.y.value(), b.y.value()),
        a.element_wise_min_spec(&b).z.value() == lesser(a.z.value(), b.z.value()),
        a.element_wise_max_spec(&b).x.value() == greater(a.x.value(), b.x.value()),
        a.element_wise_max_spec(&b).y.value() == greater(a.y.value(), b.y.value()),
        a.element_wise_max_spec(&b).z.value() == greater(a.z.value(), b.z.value()),
{
    T::order(a.x, b.x);
    T::order(a.y, b.y);
    T::order(a.z, b.z);
}

} // verus!
