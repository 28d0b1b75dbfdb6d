//! The operations that vectors offer, one trait each.
//!
//! Every operation comes with two specification functions: `*_req` says on
//! which inputs it may be called, `*_spec` names the value it returns. For the
//! vectors of this crate `*_req` asks that the element type's operators follow
//! their own specifications and that no step of the computation leaves the
//! element type's range.
use vstd::prelude::*;

verus! {

/// Sum of the products of matching components.
pub trait Dot<Rhs = Self> {
    type Output;

    spec fn dot_req(&self, rhs: &Rhs) -> bool;

    spec fn dot_spec(&self, rhs: &Rhs) -> Self::Output;

    fn dot(&self, rhs: &Rhs) -> (r: Self::Output)
        requires
            self.dot_req(rhs),
        ensures
            r == self.dot_spec(rhs),
    ;
}

/// Cross product: a scalar in two dimensions, a vector in three.
pub trait Cross<Rhs = Self> {
    type Output;

    spec fn cross_req(&self, rhs: &Rhs) -> bool;

    spec fn cross_spec(&self, rhs: &Rhs) -> Self::Output;

    fn cross(&self, rhs: &Rhs) -> (r: Self::Output)
        requires
            self.cross_req(rhs),
        ensures
            r == self.cross_spec(rhs),
    ;
}

/// Square root of an element.
///
/// An implementation says with `sqrt_req` on which elements the root may be
/// taken and names the root with `sqrt_spec`; the vectors' norms are stated
/// over these two. The root must depend on the element alone. Nothing here
/// says that `sqrt_spec` is a root in the mathematical sense: that is for the
/// implementation to state.
pub trait Sqrt: Sized {
    spec fn sqrt_req(self) -> bool;

    spec fn sqrt_spec(self) -> Self;

    fn sqrt(self) -> (r: Self)
        requires
            self.sqrt_req(),
        ensures
            r == self.sqrt_spec(),
    ;
}

/// Euclidean length, its square, and scaling to unit length.
pub trait Norm: Sized {
    type Output;

    spec fn norm_req(&self) -> bool;

    spec fn norm_spec(&self) -> Self::Output;

    spec fn norm2_req(&self) -> bool;

    spec fn norm2_spec(&self) -> Self::Output;

    spec fn normalized_req(&self) -> bool;

    spec fn normalized_spec(&self) -> Self;

    fn norm(&self) -> (r: Self::Output)
        requires
            self.norm_req(),
        ensures
            r == self.norm_spec(),
    ;

    fn norm2(&self) -> (r: Self::Output)
        requires
            self.norm2_req(),
        ensures
            r == self.norm2_spec(),
    ;

    fn normalized(&self) -> (r: Self)
        requires
            self.normalized_req(),
        ensures
            r == self.normalized_spec(),
    ;

    fn normalize(&mut self)
        requires
            old(self).normalized_req(),
        ensures
            *final(self) == old(self).normalized_spec(),
    ;
}

/// Component-by-component product.
pub trait PieceWiseMul: Sized {
    spec fn piece_wise_mul_req(&self, rhs: &Self) -> bool;

    spec fn piece_wise_mul_spec(&self, rhs: &Self) -> Self;

    fn piece_wise_mul(&self, rhs: &Self) -> (r: Self)
        requires
            self.piece_wise_mul_req(rhs),
        ensures
            r == self.piece_wise_mul_spec(rhs),
    ;
}

/// Component-by-component quotient.
pub trait PieceWiseDiv: Sized {
    spec fn piece_wise_div_req(&self, rhs: &Self) -> bool;

    spec fn piece_wise_div_spec(&self, rhs: &Self) -> Self;

    fn piece_wise_div(&self, rhs: &Self) -> (r: Self)
        requires
            self.piece_wise_div_req(rhs),
        ensures
            r == self.piece_wise_div_spec(rhs),
    ;
}

/// Negation of every component, by value and in place.
pub trait Invert: Sized {
    spec fn inverted_req(&self) -> bool;

    spec fn inverted_spec(&self) -> Self;

    fn inverted(&self) -> (r: Self)
        requires
            self.inverted_req(),
        ensures
            r == self.inverted_spec(),
    ;

    fn invert(&mut self)
        requires
            old(self).inverted_req(),
        ensures
            *final(self) == old(self).inverted_spec(),
    ;
}

} // verus!
