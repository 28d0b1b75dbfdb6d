//! Two-component vectors.
use crate::traits::{Cross, Dot, Invert, Norm, PieceWiseDiv, PieceWiseMul, Sqrt};
use crate::vector::scalar::{smaller, smaller_eq};
use std::ops::{Add, AddAssign, Div, Mul, Neg, Not, Sub};
use vstd::prelude::*;
use vstd::std_specs::cmp::PartialOrdSpec;
use vstd::std_specs::ops::{AddSpec, DivSpec, MulSpec, NegSpec, NotSpec, SubSpec};

verus! {

/// A vector of two components. Any two elements make a vector.
#[derive(Debug, Default, Copy, Clone)]
pub struct Vec2<T> {
    pub x: T,
    pub y: T,
}

impl<T: Copy> Vec2<T> {
    pub fn new(x: T, y: T) -> (r: Vec2<T>)
        ensures
            r == (Vec2 { x, y }),
    {
        Vec2 { x, y }
    }

    pub fn x(&self) -> (r: T)
        ensures
            r == self.x,
    {
        self.x
    }

    pub fn y(&self) -> (r: T)
        ensures
            r == self.y,
    {
        self.y
    }
}

impl<T: PartialOrd> Vec2<T> {
    pub open spec fn all_smaller_spec(&self, other: &Vec2<T>) -> bool {
        smaller(self.x, other.x) && smaller(self.y, other.y)
    }

    pub open spec fn all_smaller_eq_spec(&self, other: &Vec2<T>) -> bool {
        smaller_eq(self.x, other.x) && smaller_eq(self.y, other.y)
    }

    /// Whether both components are strictly smaller than `other`'s.
    pub fn all_smaller(&self, other: &Vec2<T>) -> (r: bool)
        ensures
            T::obeys_partial_cmp_spec() ==> r == self.all_smaller_spec(other),
    {
        self.x < other.x && self.y < other.y
    }

    /// Whether both components are smaller than or equal to `other`'s.
    pub fn all_smaller_eq(&self, other: &Vec2<T>) -> (r: bool)
        ensures
            T::obeys_partial_cmp_spec() ==> r == self.all_smaller_eq_spec(other),
    {
        self.x <= other.x && self.y <= other.y
    }
}

impl<T> Vec2<T> where
    T: Copy + Mul<Output = T> + Add<Output = T> + Div<Output = T> + Neg<Output = T> + Sqrt,
 {
    /// The quarter turn `(y, -x)` of `self`, before it is scaled.
    pub open spec fn turned(&self) -> Vec2<T> {
        Vec2 { x: self.y, y: self.x.neg_spec() }
    }

    pub open spec fn normal_req(&self) -> bool {
        &&& T::obeys_neg_spec()
        &&& self.x.neg_req()
        &&& self.turned().normalized_req()
    }

    pub open spec fn normal_spec(&self) -> Vec2<T> {
        self.turned().normalized_spec()
    }

    /// The vector `(y, -x)`, perpendicular to `self`, scaled to unit length.
    pub fn normal(&self) -> (r: Vec2<T>)
        requires
            self.normal_req(),
        ensures
            r == self.normal_spec(),
    {
        let normal = Vec2 { x: self.y, y: self.x.neg() };
        normal.normalized()
    }
}

impl<T> Dot for Vec2<T> where T: Mul<Output = T> + Add<Output = T> + Copy {
    type Output = T;

    open spec fn dot_req(&self, rhs: &Self) -> bool {
        &&& T::obeys_mul_spec()
        &&& T::obeys_add_spec()
        &&& self.x.mul_req(rhs.x)
        &&& self.y.mul_req(rhs.y)
        &&& self.x.mul_spec(rhs.x).add_req(self.y.mul_spec(rhs.y))
    }

    /// `x1*x2 + y1*y2`.
    open spec fn dot_spec(&self, rhs: &Self) -> T {
        self.x.mul_spec(rhs.x).add_spec(self.y.mul_spec(rhs.y))
    }

    fn dot(&self, rhs: &Self) -> (r: T) {
        self.x * rhs.x + self.y * rhs.y
    }
}

impl<T> Cross for Vec2<T> where T: Mul<Output = T> + Sub<Output = T> + Copy {
    type Output = T;

    open spec fn cross_req(&self, rhs: &Self) -> bool {
        &&& T::obeys_mul_spec()
        &&& T::obeys_sub_spec()
        &&& self.x.mul_req(rhs.y)
        &&& self.y.mul_req(rhs.x)
        &&& self.x.mul_spec(rhs.y).sub_req(self.y.mul_spec(rhs.x))
    }

    /// `x1*y2 - y1*x2`.
    open spec fn cross_spec(&self, rhs: &Self) -> T {
        self.x.mul_spec(rhs.y).sub_spec(self.y.mul_spec(rhs.x))
    }

    fn cross(&self, rhs: &Self) -> (r: T) {
        self.x * rhs.y - self.y * rhs.x
    }
}

impl<T> Norm for Vec2<T> where
    T: Mul<Output = T> + Div<Output = T> + Add<Output = T> + Copy + Sqrt,
 {
    type Output = T;

    open spec fn norm_req(&self) -> bool {
        self.norm2_req() && self.norm2_spec().sqrt_req()
    }

    /// The square root of `norm2`.
    open spec fn norm_spec(&self) -> T {
        self.norm2_spec().sqrt_spec()
    }

    open spec fn norm2_req(&self) -> bool {
        self.dot_req(self)
    }

    /// The dot product of `self` with itself.
    open spec fn norm2_spec(&self) -> T {
        self.dot_spec(self)
    }

    open spec fn normalized_req(&self) -> bool {
        &&& T::obeys_div_spec()
        &&& self.norm_req()
        &&& self.x.div_req(self.norm_spec())
        &&& self.y.div_req(self.norm_spec())
    }

    /// Each component divided by the norm.
    open spec fn normalized_spec(&self) -> Self {
        Vec2 { x: self.x.div_spec(self.norm_spec()), y: self.y.div_spec(self.norm_spec()) }
    }

    fn norm(&self) -> (r: T) {
        T::sqrt(self.norm2())
    }

    fn norm2(&self) -> (r: T) {
        self.dot(self)
    }

    fn normalized(&self) -> (r: Self) {
        let norm = self.norm();
        Vec2 { x: self.x / norm, y: self.y / norm }
    }

    fn normalize(&mut self) {
        let norm = self.norm();
        self.x = self.x / norm;
        self.y = self.y / norm;
    }
}

impl<T> Add for Vec2<T> where T: Add<Output = T> + Copy {
    type Output = Vec2<T>;

    fn add(self, rhs: Self) -> (r: Vec2<T>) {
        Vec2 { x: self.x + rhs.x, y: self.y + rhs.y }
    }
}

impl<T> vstd::std_specs::ops::AddSpecImpl for Vec2<T> where T: Add<Output = T> + Copy {
    open spec fn obeys_add_spec() -> bool {
        T::obeys_add_spec()
    }

    open spec fn add_req(self, rhs: Self) -> bool {
        self.x.add_req(rhs.x) && self.y.add_req(rhs.y)
    }

    open spec fn add_spec(self, rhs: Self) -> Vec2<T> {
        Vec2 { x: self.x.add_spec(rhs.x), y: self.y.add_spec(rhs.y) }
    }
}

impl<T> Sub for Vec2<T> where T: Sub<Output = T> + Copy {
    type Output = Vec2<T>;

    fn sub(self, rhs: Self) -> (r: Vec2<T>) {
        Vec2 { x: self.x - rhs.x, y: self.y - rhs.y }
    }
}

impl<T> vstd::std_specs::ops::SubSpecImpl for Vec2<T> where T: Sub<Output = T> + Copy {
    open spec fn obeys_sub_spec() -> bool {
        T::obeys_sub_spec()
    }

    open spec fn sub_req(self, rhs: Self) -> bool {
        self.x.sub_req(rhs.x) && self.y.sub_req(rhs.y)
    }

    open spec fn sub_spec(self, rhs: Self) -> Vec2<T> {
        Vec2 { x: self.x.sub_spec(rhs.x), y: self.y.sub_spec(rhs.y) }
    }
}

impl<T> AddAssign for Vec2<T> where T: Add<Output = T> + Copy {
    fn add_assign(&mut self, rhs: Self)
        requires
            old(self).add_req(rhs),
        ensures
            T::obeys_add_spec() ==> *final(self) == old(self).add_spec(rhs),
    {
        self.x = self.x + rhs.x;
        self.y = self.y + rhs.y;
    }
}

impl<T> Mul<T> for Vec2<T> where T: Mul<Output = T> + Copy {
    type Output = Vec2<T>;

    fn mul(self, rhs: T) -> (r: Vec2<T>) {
        Vec2 { x: self.x * rhs, y: self.y * rhs }
    }
}

impl<T> vstd::std_specs::ops::MulSpecImpl<T> for Vec2<T> where T: Mul<Output = T> + Copy {
    open spec fn obeys_mul_spec() -> bool {
        T::obeys_mul_spec()
    }

    open spec fn mul_req(self, rhs: T) -> bool {
        self.x.mul_req(rhs) && self.y.mul_req(rhs)
    }

    open spec fn mul_spec(self, rhs: T) -> Vec2<T> {
        Vec2 { x: self.x.mul_spec(rhs), y: self.y.mul_spec(rhs) }
    }
}

impl<T> Div<T> for Vec2<T> where T: Div<Output = T> + Copy {
    type Output = Vec2<T>;

    fn div(self, rhs: T) -> (r: Vec2<T>) {
        Vec2 { x: self.x / rhs, y: self.y / rhs }
    }
}

impl<T> vstd::std_specs::ops::DivSpecImpl<T> for Vec2<T> where T: Div<Output = T> + Copy {
    open spec fn obeys_div_spec() -> bool {
        T::obeys_div_spec()
    }

    open spec fn div_req(self, rhs: T) -> bool {
        self.x.div_req(rhs) && self.y.div_req(rhs)
    }

    open spec fn div_spec(self, rhs: T) -> Vec2<T> {
        Vec2 { x: self.x.div_spec(rhs), y: self.y.div_spec(rhs) }
    }
}

impl<T> PieceWiseMul for Vec2<T> where T: Mul<Output = T> + Copy {
    open spec fn piece_wise_mul_req(&self, rhs: &Self) -> bool {
        T::obeys_mul_spec() && self.x.mul_req(rhs.x) && self.y.mul_req(rhs.y)
    }

    open spec fn piece_wise_mul_spec(&self, rhs: &Self) -> Self {
        Vec2 { x: self.x.mul_spec(rhs.x), y: self.y.mul_spec(rhs.y) }
    }

    fn piece_wise_mul(&self, rhs: &Self) -> (r: Self) {
        Vec2::new(self.x * rhs.x, self.y * rhs.y)
    }
}

impl<T> PieceWiseDiv for Vec2<T> where T: Div<Output = T> + Copy {
    open spec fn piece_wise_div_req(&self, rhs: &Self) -> bool {
        T::obeys_div_spec() && self.x.div_req(rhs.x) && self.y.div_req(rhs.y)
    }

    open spec fn piece_wise_div_spec(&self, rhs: &Self) -> Self {
        Vec2 { x: self.x.div_spec(rhs.x), y: self.y.div_spec(rhs.y) }
    }

    fn piece_wise_div(&self, rhs: &Self) -> (r: Self) {
        Vec2::new(self.x / rhs.x, self.y / rhs.y)
    }
}

impl<T> Invert for Vec2<T> where T: Neg<Output = T> + Copy {
    open spec fn inverted_req(&self) -> bool {
        T::obeys_neg_spec() && self.x.neg_req() && self.y.neg_req()
    }

    open spec fn inverted_spec(&self) -> Self {
        Vec2 { x: self.x.neg_spec(), y: self.y.neg_spec() }
    }

    fn inverted(&self) -> (r: Self) {
        Vec2::new(self.x.neg(), self.y.neg())
    }

    fn invert(&mut self) {
        self.x = self.x.neg();
        self.y = self.y.neg();
    }
}

impl<T> Not for Vec2<T> where T: Not<Output = T> + Copy {
    type Output = Vec2<T>;

    fn not(self) -> (r: Vec2<T>) {
        Vec2::new(self.x().not(), self.y().not())
    }
}

impl<T> vstd::std_specs::ops::NotSpecImpl for Vec2<T> where T: Not<Output = T> + Copy {
    open spec fn obeys_not_spec() -> bool {
        T::obeys_not_spec()
    }

    open spec fn not_req(self) -> bool {
        self.x.not_req() && self.y.not_req()
    }

    open spec fn not_spec(self) -> Vec2<T> {
        Vec2 { x: self.x.not_spec(), y: self.y.not_spec() }
    }
}

impl<T> From<[T; 2]> for Vec2<T> where T: Copy {
    fn from(arr: [T; 2]) -> (r: Self) {
        Vec2::new(arr[0], arr[1])
    }
}

impl<T> vstd::std_specs::convert::FromSpecImpl<[T; 2]> for Vec2<T> where T: Copy {
    open spec fn obeys_from_spec() -> bool {
        true
    }

    open spec fn from_spec(arr: [T; 2]) -> Self {
        Vec2 { x: arr[0], y: arr[1] }
    }
}

} // verus!
