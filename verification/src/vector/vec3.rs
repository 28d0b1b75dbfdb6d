//! Three-component vectors.
use crate::traits::{Cross, Dot, Invert, Norm, PieceWiseDiv, PieceWiseMul, Sqrt};
use crate::vector::scalar::{greater_eq, smaller, smaller_eq};
use std::ops::{Add, AddAssign, Div, Index, Mul, Neg, Not, Sub};
use vstd::prelude::*;
use vstd::std_specs::cmp::PartialOrdSpec;
use vstd::std_specs::ops::{AddSpec, DivSpec, MulSpec, NegSpec, NotSpec, SubSpec};

verus! {

/// A vector of three components, read by name or by position 0, 1, 2. Any
/// three elements make a vector.
#[derive(Debug, Default, Copy, Clone)]
pub struct Vec3<T> {
    pub x: T,
    pub y: T,
    pub z: T,
}

impl<T> Vec3<T> {
    /// The component at `index`, for `index` below three.
    pub open spec fn component(&self, index: usize) -> T {
        if index == 0 {
            self.x
        } else if index == 1 {
            self.y
        } else {
            self.z
        }
    }

    /// `self` with the component at `index` replaced.
    pub open spec fn with_component(&self, index: usize, value: T) -> Vec3<T> {
        if index == 0 {
            Vec3 { x: value, y: self.y, z: self.z }
        } else if index == 1 {
            Vec3 { x: self.x, y: value, z: self.z }
        } else {
            Vec3 { x: self.x, y: self.y, z: value }
        }
    }

    /// Mutable access to the component at `index`.
    pub fn index_mut(&mut self, index: usize) -> (r: &mut T)
        requires
            index < 3,
        ensures
            *r == old(self).component(index),
            *final(self) == old(self).with_component(index, *final(r)),
    {
        if index == 0 {
            &mut self.x
        } else if index == 1 {
            &mut self.y
        } else if index == 2 {
            &mut self.z
        } else {
            unreached()
        }
    }
}

impl<T: Copy> Vec3<T> {
    pub fn new(x: T, y: T, z: T) -> (r: Self)
        ensures
            r == (Vec3 { x, y, z }),
    {
        Vec3 { x, y, z }
    }

    pub fn x(&self) -> (r: T)
        ensures
            r == self.x,
    {
        self.x
    }

    pub fn y(&self) -> (r: T)
        ensures
            r == self.y,
    {
        self.y
    }

    pub fn z(&self) -> (r: T)
        ensures
            r == self.z,
    {
        self.z
    }
}

impl<T: PartialOrd + Copy> Vec3<T> {
    pub open spec fn all_smaller_spec(&self, other: &Vec3<T>) -> bool {
        smaller(self.x, other.x) && smaller(self.y, other.y) && smaller(self.z, other.z)
    }

    pub open spec fn all_smaller_eq_spec(&self, other: &Vec3<T>) -> bool {
        smaller_eq(self.x, other.x) && smaller_eq(self.y, other.y) && smaller_eq(self.z, other.z)
    }

    /// The first component, in the order x, y, z, that is smaller than or
    /// equal to both others; `z` if there is none.
    pub open spec fn min_spec(&self) -> T {
        if smaller_eq(self.x, self.y) && smaller_eq(self.x, self.z) {
            self.x
        } else if smaller_eq(self.y, self.x) && smaller_eq(self.y, self.z) {
            self.y
        } else {
            self.z
        }
    }

    /// The first component, in the order x, y, z, that is greater than or
    /// equal to both others; `z` if there is none.
    pub open spec fn max_spec(&self) -> T {
        if greater_eq(self.x, self.y) && greater_eq(self.x, self.z) {
            self.x
        } else if greater_eq(self.y, self.x) && greater_eq(self.y, self.z) {
            self.y
        } else {
            self.z
        }
    }

    /// Per component `self`'s element where it is strictly smaller, else
    /// `other`'s: on a tie `other`'s.
    pub open spec fn element_wise_min_spec(&self, other: &Self) -> Self {
        Vec3 {
            x: if smaller(self.x, other.x) { self.x } else { other.x },
            y: if smaller(self.y, other.y) { self.y } else { other.y },
            z: if smaller(self.z, other.z) { self.z } else { other.z },
        }
    }

    /// Per component `self`'s element where it is greater or equal, else
    /// `other`'s: on a tie `self`'s.
    pub open spec fn element_wise_max_spec(&self, other: &Self) -> Self {
        Vec3 {
            x: if greater_eq(self.x, other.x) { self.x } else { other.x },
            y: if greater_eq(self.y, other.y) { self.y } else { other.y },
            z: if greater_eq(self.z, other.z) { self.z } else { other.z },
        }
    }

    /// Whether all components are strictly smaller than `other`'s.
    pub fn all_smaller(&self, other: &Vec3<T>) -> (r: bool)
        ensures
            T::obeys_partial_cmp_spec() ==> r == self.all_smaller_spec(other),
    {
        self.x < other.x && self.y < other.y && self.z < other.z
    }

    /// Whether all components are smaller than or equal to `other`'s.
    pub fn all_smaller_eq(&self, other: &Vec3<T>) -> (r: bool)
        ensures
            T::obeys_partial_cmp_spec() ==> r == self.all_smaller_eq_spec(other),
    {
        self.x <= other.x && self.y <= other.y && self.z <= other.z
    }

    pub fn min(&self) -> (r: T)
        ensures
            T::obeys_partial_cmp_spec() ==> r == self.min_spec(),
    {
        if self.x <= self.y && self.x <= self.z {
            self.x
        } else if self.y <= self.x && self.y <= self.z {
            self.y
        } else {
            self.z
        }
    }

    pub fn max(&self) -> (r: T)
        ensures
            T::obeys_partial_cmp_spec() ==> r == self.max_spec(),
    {
        if self.x >= self.y && self.x >= self.z {
            self.x
        } else if self.y >= self.x && self.y >= self.z {
            self.y
        } else {
            self.z
        }
    }

    pub fn element_wise_min(&self, other: &Self) -> (r: Self)
        ensures
            T::obeys_partial_cmp_spec() ==> r == self.element_wise_min_spec(other),
    {
        let x = if self.x < other.x { self.x } else { other.x };
        let y = if self.y < other.y { self.y } else { other.y };
        let z = if self.z < other.z { self.z } else { other.z };
        Vec3::new(x, y, z)
    }

    pub fn element_wise_max(&self, other: &Self) -> (r: Self)
        ensures
            T::obeys_partial_cmp_spec() ==> r == self.element_wise_max_spec(other),
    {
        let x = if self.x >= other.x { self.x } else { other.x };
        let y = if self.y >= other.y { self.y } else { other.y };
        let z = if self.z >= other.z { self.z } else { other.z };
        Vec3::new(x, y, z)
    }
}

impl<T: Copy> From<[T; 3]> for Vec3<T> {
    fn from(arr: [T; 3]) -> (r: Self) {
        Vec3 { x: arr[0], y: arr[1], z: arr[2] }
    }
}

impl<T: Copy> vstd::std_specs::convert::FromSpecImpl<[T; 3]> for Vec3<T> {
    open spec fn obeys_from_spec() -> bool {
        true
    }

    open spec fn from_spec(arr: [T; 3]) -> Self {
        Vec3 { x: arr[0], y: arr[1], z: arr[2] }
    }
}

impl<T> Index<usize> for Vec3<T> {
    type Output = T;

    fn index(&self, index: usize) -> (r: &T)
        ensures
            *r == self.component(index),
    {
        if index == 0 {
            &self.x
        } else if index == 1 {
            &self.y
        } else if index == 2 {
            &self.z
        } else {
            unreached()
        }
    }
}

impl<T> vstd::std_specs::core::IndexSpecImpl<usize> for Vec3<T> {
    open spec fn index_req(&self, index: &usize) -> bool {
        *index < 3
    }
}

impl<T> Vec3<T> where T: Mul<T, Output = T> + Add<T, Output = T> + Copy {
    /// Component-by-component product.
    pub fn piece_wise_mul(&self, rhs: &Self) -> (r: Self)
        requires
            self.piece_wise_mul_req(rhs),
        ensures
            r == self.piece_wise_mul_spec(rhs),
    {
        Vec3::new(self.x() * rhs.x(), self.y() * rhs.y(), self.z() * rhs.z())
    }
}

impl<T> Dot for Vec3<T> where T: Mul<Output = T> + Add<Output = T> + Copy {
    type Output = T;

    open spec fn dot_req(&self, rhs: &Self) -> bool {
        &&& T::obeys_mul_spec()
        &&& T::obeys_add_spec()
        &&& self.x.mul_req(rhs.x)
        &&& self.y.mul_req(rhs.y)
        &&& self.z.mul_req(rhs.z)
        &&& self.x.mul_spec(rhs.x).add_req(self.y.mul_spec(rhs.y))
        &&& self.x.mul_spec(rhs.x).add_spec(self.y.mul_spec(rhs.y)).add_req(
            self.z.mul_spec(rhs.z),
        )
    }

    /// `(x1*x2 + y1*y2) + z1*z2`.
    open spec fn dot_spec(&self, rhs: &Self) -> T {
        self.x.mul_spec(rhs.x).add_spec(self.y.mul_spec(rhs.y)).add_spec(self.z.mul_spec(rhs.z))
    }

    fn dot(&self, rhs: &Self) -> (r: T) {
        self.x() * rhs.x() + self.y() * rhs.y() + self.z() * rhs.z()
    }
}

/// Whether `a*b - c*d` can be computed.
pub open spec fn minor_req<T: Mul<Output = T> + Sub<Output = T>>(a: T, b: T, c: T, d: T) -> bool {
    a.mul_req(b) && c.mul_req(d) && a.mul_spec(b).sub_req(c.mul_spec(d))
}

/// `a*b - c*d`.
pub open spec fn minor<T: Mul<Output = T> + Sub<Output = T>>(a: T, b: T, c: T, d: T) -> T {
    a.mul_spec(b).sub_spec(c.mul_spec(d))
}

impl<T> Cross for Vec3<T> where T: Mul<Output = T> + Sub<Output = T> + Copy {
    type Output = Self;

    open spec fn cross_req(&self, rhs: &Self) -> bool {
        &&& T::obeys_mul_spec()
        &&& T::obeys_sub_spec()
        &&& minor_req(self.y, rhs.z, self.z, rhs.y)
        &&& minor_req(self.z, rhs.x, self.x, rhs.z)
        &&& minor_req(self.x, rhs.y, self.y, rhs.x)
    }

    /// `(y1*z2 - z1*y2, z1*x2 - x1*z2, x1*y2 - y1*x2)`.
    open spec fn cross_spec(&self, rhs: &Self) -> Self {
        Vec3 {
            x: minor(self.y, rhs.z, self.z, rhs.y),
            y: minor(self.z, rhs.x, self.x, rhs.z),
            z: minor(self.x, rhs.y, self.y, rhs.x),
        }
    }

    fn cross(&self, rhs: &Self) -> (r: Self) {
        Vec3::new(
            self.y() * rhs.z() - self.z() * rhs.y(),
            self.z() * rhs.x() - self.x() * rhs.z(),
            self.x() * rhs.y() - self.y() * rhs.x(),
        )
    }
}

impl<T> Norm for Vec3<T> where
    T: Mul<Output = T> + Div<Output = T> + Add<Output = T> + Copy + Sqrt,
 {
    type Output = T;

    open spec fn norm_req(&self) -> bool {
        self.norm2_req() && self.norm2_spec().sqrt_req()
    }

    /// The square root of `norm2`.
    open spec fn norm_spec(&self) -> T {
        self.norm2_spec().sqrt_spec()
    }

    open spec fn norm2_req(&self) -> bool {
        self.dot_req(self)
    }

    /// The dot product of `self` with itself.
    open spec fn norm2_spec(&self) -> T {
        self.dot_spec(self)
    }

    open spec fn normalized_req(&self) -> bool {
        &&& T::obeys_div_spec()
        &&& self.norm_req()
        &&& self.x.div_req(self.norm_spec())
        &&& self.y.div_req(self.norm_spec())
        &&& self.z.div_req(self.norm_spec())
    }

    /// Each component divided by the norm.
    open spec fn normalized_spec(&self) -> Self {
        Vec3 {
            x: self.x.div_spec(self.norm_spec()),
            y: self.y.div_spec(self.norm_spec()),
            z: self.z.div_spec(self.norm_spec()),
        }
    }

    fn norm(&self) -> (r: T) {
        T::sqrt(self.norm2())
    }

    fn norm2(&self) -> (r: T) {
        self.dot(self)
    }

    fn normalized(&self) -> (r: Self) {
        let norm = self.norm();
        Vec3::new(self.x() / norm, self.y() / norm, self.z() / norm)
    }

    fn normalize(&mut self) {
        let norm = self.norm();
        self.x = self.x / norm;
        self.y = self.y / norm;
        self.z = self.z / norm;
    }
}

impl<T> Add for Vec3<T> where T: Add<Output = T> + Copy {
    type Output = Self;

    fn add(self, rhs: Self) -> (r: Self) {
        Vec3::new(self.x() + rhs.x(), self.y() + rhs.y(), self.z() + rhs.z())
    }
}

impl<T> vstd::std_specs::ops::AddSpecImpl for Vec3<T> where T: Add<Output = T> + Copy {
    open spec fn obeys_add_spec() -> bool {
        T::obeys_add_spec()
    }

    open spec fn add_req(self, rhs: Self) -> bool {
        self.x.add_req(rhs.x) && self.y.add_req(rhs.y) && self.z.add_req(rhs.z)
    }

    open spec fn add_spec(self, rhs: Self) -> Self {
        Vec3 { x: self.x.add_spec(rhs.x), y: self.y.add_spec(rhs.y), z: self.z.add_spec(rhs.z) }
    }
}

impl<T> Sub for Vec3<T> where T: Sub<Output = T> + Copy {
    type Output = Self;

    fn sub(self, rhs: Self) -> (r: Self) {
        Vec3::new(self.x() - rhs.x(), self.y() - rhs.y(), self.z() - rhs.z())
    }
}

impl<T> vstd::std_specs::ops::SubSpecImpl for Vec3<T> where T: Sub<Output = T> + Copy {
    open spec fn obeys_sub_spec() -> bool {
        T::obeys_sub_spec()
    }

    open spec fn sub_req(self, rhs: Self) -> bool {
        self.x.sub_req(rhs.x) && self.y.sub_req(rhs.y) && self.z.sub_req(rhs.z)
    }

    open spec fn sub_spec(self, rhs: Self) -> Self {
        Vec3 { x: self.x.sub_spec(rhs.x), y: self.y.sub_spec(rhs.y), z: self.z.sub_spec(rhs.z) }
    }
}

impl<T> AddAssign for Vec3<T> where T: Add<Output = T> + Copy {
    fn add_assign(&mut self, rhs: Self)
        requires
            old(self).add_req(rhs),
        ensures
            T::obeys_add_spec() ==> *final(self) == old(self).add_spec(rhs),
    {
        self.x = self.x + rhs.x();
        self.y = self.y + rhs.y();
        self.z = self.z + rhs.z();
    }
}

impl<T> Mul<T> for Vec3<T> where T: Mul<Output = T> + Copy {
    type Output = Self;

    fn mul(self, rhs: T) -> (r: Self) {
        Vec3::new(self.x() * rhs, self.y() * rhs, self.z() * rhs)
    }
}

impl<T> vstd::std_specs::ops::MulSpecImpl<T> for Vec3<T> where T: Mul<Output = T> + Copy {
    open spec fn obeys_mul_spec() -> bool {
        T::obeys_mul_spec()
    }

    open spec fn mul_req(self, rhs: T) -> bool {
        self.x.mul_req(rhs) && self.y.mul_req(rhs) && self.z.mul_req(rhs)
    }

    open spec fn mul_spec(self, rhs: T) -> Self {
        Vec3 { x: self.x.mul_spec(rhs), y: self.y.mul_spec(rhs), z: self.z.mul_spec(rhs) }
    }
}

impl<T> Div<T> for Vec3<T> where T: Div<Output = T> + Copy {
    type Output = Self;

    fn div(self, rhs: T) -> (r: Self) {
        Vec3::new(self.x() / rhs, self.y() / rhs, self.z() / rhs)
    }
}

impl<T> vstd::std_specs::ops::DivSpecImpl<T> for Vec3<T> where T: Div<Output = T> + Copy {
    open spec fn obeys_div_spec() -> bool {
        T::obeys_div_spec()
    }

    open spec fn div_req(self, rhs: T) -> bool {
        self.x.div_req(rhs) && self.y.div_req(rhs) && self.z.div_req(rhs)
    }

    open spec fn div_spec(self, rhs: T) -> Self {
        Vec3 { x: self.x.div_spec(rhs), y: self.y.div_spec(rhs), z: self.z.div_spec(rhs) }
    }
}

impl<T> PieceWiseMul for Vec3<T> where T: Mul<Output = T> + Copy {
    open spec fn piece_wise_mul_req(&self, rhs: &Self) -> bool {
        &&& T::obeys_mul_spec()
        &&& self.x.mul_req(rhs.x)
        &&& self.y.mul_req(rhs.y)
        &&& self.z.mul_req(rhs.z)
    }

    open spec fn piece_wise_mul_spec(&self, rhs: &Self) -> Self {
        Vec3 { x: self.x.mul_spec(rhs.x), y: self.y.mul_spec(rhs.y), z: self.z.mul_spec(rhs.z) }
    }

    fn piece_wise_mul(&self, rhs: &Self) -> (r: Self) {
        Vec3::new(self.x() * rhs.x(), self.y() * rhs.y(), self.z() * rhs.z())
    }
}

impl<T> PieceWiseDiv for Vec3<T> where T: Div<Output = T> + Copy {
    open spec fn piece_wise_div_req(&self, rhs: &Self) -> bool {
        &&& T::obeys_div_spec()
        &&& self.x.div_req(rhs.x)
        &&& self.y.div_req(rhs.y)
        &&& self.z.div_req(rhs.z)
    }

    open spec fn piece_wise_div_spec(&self, rhs: &Self) -> Self {
        Vec3 { x: self.x.div_spec(rhs.x), y: self.y.div_spec(rhs.y), z: self.z.div_spec(rhs.z) }
    }

    fn piece_wise_div(&self, rhs: &Self) -> (r: Self) {
        Vec3::new(self.x() / rhs.x(), self.y() / rhs.y(), self.z() / rhs.z())
    }
}

impl<T> Neg for Vec3<T> where T: Neg<Output = T> + Copy {
    type Output = Vec3<T>;

    fn neg(self) -> (r: Vec3<T>) {
        Vec3::new(self.x().neg(), self.y().neg(), self.z().neg())
    }
}

impl<T> vstd::std_specs::ops::NegSpecImpl for Vec3<T> where T: Neg<Output = T> + Copy {
    open spec fn obeys_neg_spec() -> bool {
        T::obeys_neg_spec()
    }

    open spec fn neg_req(self) -> bool {
        self.x.neg_req() && self.y.neg_req() && self.z.neg_req()
    }

    open spec fn neg_spec(self) -> Vec3<T> {
        Vec3 { x: self.x.neg_spec(), y: self.y.neg_spec(), z: self.z.neg_spec() }
    }
}

impl<T> Invert for Vec3<T> where T: Neg<Output = T> + Copy {
    open spec fn inverted_req(&self) -> bool {
        T::obeys_neg_spec() && self.x.neg_req() && self.y.neg_req() && self.z.neg_req()
    }

    open spec fn inverted_spec(&self) -> Self {
        Vec3 { x: self.x.neg_spec(), y: self.y.neg_spec(), z: self.z.neg_spec() }
    }

    fn inverted(&self) -> (r: Self) {
        Vec3::new(self.x().neg(), self.y().neg(), self.z().neg())
    }

    fn invert(&mut self) {
        self.x = self.x().neg();
        self.y = self.y().neg();
        self.z = self.z().neg();
    }
}

impl<T> Not for Vec3<T> where T: Not<Output = T> + Copy {
    type Output = Vec3<T>;

    fn not(self) -> (r: Vec3<T>) {
        Vec3::new(self.x().not(), self.y().not(), self.z().not())
    }
}

impl<T> vstd::std_specs::ops::NotSpecImpl for Vec3<T> where T: Not<Output = T> + Copy {
    open spec fn obeys_not_spec() -> bool {
        T::obeys_not_spec()
    }

    open spec fn not_req(self) -> bool {
        self.x.not_req() && self.y.not_req() && self.z.not_req()
    }

    open spec fn not_spec(self) -> Vec3<T> {
        Vec3 { x: self.x.not_spec(), y: self.y.not_spec(), z: self.z.not_spec() }
    }
}

} // verus!
