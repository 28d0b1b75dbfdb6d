//! Element types with exact integer arithmetic.
//!
//! The vectors work over any element type that has the operators an operation
//! needs. What holds of their results beyond the formulas (that a dot product
//! does not depend on the order of its arguments, say) depends on the element
//! type. This module names the element types for which such facts are proved
//! here: the machine integers, whose operators compute the mathematical result
//! wherever it fits the type.
use std::ops::{Add, Div, Mul, Neg, Sub};
use vstd::prelude::*;
use vstd::std_specs::ops::{AddSpec, DivSpec, MulSpec, NegSpec, SubSpec};

verus! {

/// An element type whose values stand for integers and whose `+`, `-`, `*`
/// are exact whenever they may be called.
pub trait Integral: Copy + Add<Output = Self> + Sub<Output = Self> + Mul<Output = Self> + Div<
    Output = Self,
> {
    /// The integer that an element stands for.
    spec fn value(self) -> int;

    /// Whether some element stands for `i`.
    spec fn in_range(i: int) -> bool;

    /// Two elements are equal when their values are; every value is in
    /// range; sum, difference and product may be computed exactly when the
    /// mathematical result is in range, and are then that result; sum and
    /// product do not depend on the order of their operands.
    proof fn exact(a: Self, b: Self)
        ensures
            Self::obeys_add_spec(),
            Self::obeys_sub_spec(),
            Self::obeys_mul_spec(),
            Self::obeys_div_spec(),
            Self::in_range(a.value()),
            a.value() == b.value() ==> a == b,
            a.add_req(b) == Self::in_range(a.value() + b.value()),
            a.add_req(b) ==> a.add_spec(b).value() == a.value() + b.value(),
            a.sub_req(b) == Self::in_range(a.value() - b.value()),
            a.sub_req(b) ==> a.sub_spec(b).value() == a.value() - b.value(),
            a.mul_req(b) == Self::in_range(a.value() * b.value()),
            a.mul_req(b) ==> a.mul_spec(b).value() == a.value() * b.value(),
            a.add_spec(b) == b.add_spec(a),
            a.mul_spec(b) == b.mul_spec(a),
    ;

    /// A divisor is never zero, and a product divided by its non-zero second
    /// factor is the first factor.
    proof fn cancel(a: Self, b: Self)
        ensures
            a.div_req(b) ==> b.value() != 0,
            a.mul_req(b) && b.value() != 0 ==> a.mul_spec(b).div_req(b) && a.mul_spec(b).div_spec(
                b,
            ) == a,
    ;
}

/// An integral element type with negation.
pub trait SignedIntegral: Integral + Neg<Output = Self> {
    /// Negation may be computed exactly when the negated value is in range,
    /// and is then that value.
    proof fn exact_neg(a: Self)
        ensures
            Self::obeys_neg_spec(),
            a.neg_req() == Self::in_range(-a.value()),
            a.neg_req() ==> a.neg_spec().value() == -a.value(),
    ;
}

/// For a non-zero `q`, `p * q` divided by `q` is `p`.
pub proof fn lemma_product_quotient(p: int, q: int)
    requires
        q != 0,
    ensures
        (p * q) / q == p,
{
    let d = (p * q) / q;
    let m = (p * q) % q;
    assert(p * q == q * d + m) by {
        vstd::arithmetic::div_mod::lemma_fundamental_div_mod(p * q, q);
    }
    assert(0 <= m && (q > 0 ==> m < q) && (q < 0 ==> m < -q)) by (nonlinear_arith)
        requires
            q != 0,
            m == (p * q) % q,
    ;
    assert(q * (p - d) == m) by (nonlinear_arith)
        requires
            p * q == q * d + m,
    ;
    assert(p == d) by (nonlinear_arith)
        requires
            q * (p - d) == m,
            0 <= m,
            q > 0 ==> m < q,
            q < 0 ==> m < -q,
            q != 0,
    ;
}

impl Integral for i8 {
    open spec fn value(self) -> int {
        self as int
    }

    open spec fn in_range(i: int) -> bool {
        i8::MIN <= i <= i8::MAX
    }

    proof fn exact(a: Self, b: Self) {
        assert((a as int) * (b as int) == (b as int) * (a as int)) by (nonlinear_arith);
    }

    proof fn cancel(a: Self, b: Self) {
        if a.mul_req(b) && b != 0 {
            lemma_product_quotient(a as int, b as int);
            lemma_product_quotient(-(a as int), b as int);
            assert(-((a as int) * (b as int)) == (-(a as int)) * (b as int)) by (nonlinear_arith);
        }
    }
}

impl SignedIntegral for i8 {
    proof fn exact_neg(a: Self) {
    }
}

impl Integral for i16 {
    open spec fn value(self) -> int {
        self as int
    }

    open spec fn in_range(i: int) -> bool {
        i16::MIN <= i <= i16::MAX
    }

    proof fn exact(a: Self, b: Self) {
        assert((a as int) * (b as int) == (b as int) * (a as int)) by (nonlinear_arith);
    }

    proof fn cancel(a: Self, b: Self) {
        if a.mul_req(b) && b != 0 {
            lemma_product_quotient(a as int, b as int);
            lemma_product_quotient(-(a as int), b as int);
            assert(-((a as int) * (b as int)) == (-(a as int)) * (b as int)) by (nonlinear_arith);
        }
    }
}

impl SignedIntegral for i16 {
    proof fn exact_neg(a: Self) {
    }
}

impl Integral for i32 {
    open spec fn value(self) -> int {
        self as int
    }

    open spec fn in_range(i: int) -> bool {
        i32::MIN <= i <= i32::MAX
    }

    proof fn exact(a: Self, b: Self) {
        assert((a as int) * (b as int) == (b as int) * (a as int)) by (nonlinear_arith);
    }

    proof fn cancel(a: Self, b: Self) {
        if a.mul_req(b) && b != 0 {
            lemma_product_quotient(a as int, b as int);
            lemma_product_quotient(-(a as int), b as int);
            assert(-((a as int) * (b as int)) == (-(a as int)) * (b as int)) by (nonlinear_arith);
        }
    }
}

impl SignedIntegral for i32 {
    proof fn exact_neg(a: Self) {
    }
}

impl Integral for i64 {
    open spec fn value(self) -> int {
        self as int
    }

    open spec fn in_range(i: int) -> bool {
        i64::MIN <= i <= i64::MAX
    }

    proof fn exact(a: Self, b: Self) {
        assert((a as int) * (b as int) == (b as int) * (a as int)) by (nonlinear_arith);
    }

    proof fn cancel(a: Self, b: Self) {
        if a.mul_req(b) && b != 0 {
            lemma_product_quotient(a as int, b as int);
            lemma_product_quotient(-(a as int), b as int);
            assert(-((a as int) * (b as int)) == (-(a as int)) * (b as int)) by (nonlinear_arith);
        }
    }
}

impl SignedIntegral for i64 {
    proof fn exact_neg(a: Self) {
    }
}

impl Integral for i128 {
    open spec fn value(self) -> int {
        self as int
    }

    open spec fn in_range(i: int) -> bool {
        i128::MIN <= i <= i128::MAX
    }

    proof fn exact(a: Self, b: Self) {
        assert((a as int) * (b as int) == (b as int) * (a as int)) by (nonlinear_arith);
    }

    proof fn cancel(a: Self, b: Self) {
        if a.mul_req(b) && b != 0 {
            lemma_product_quotient(a as int, b as int);
            lemma_product_quotient(-(a as int), b as int);
            assert(-((a as int) * (b as int)) == (-(a as int)) * (b as int)) by (nonlinear_arith);
        }
    }
}

impl SignedIntegral for i128 {
    proof fn exact_neg(a: Self) {
    }
}

impl Integral for isize {
    open spec fn value(self) -> int {
        self as int
    }

    open spec fn in_range(i: int) -> bool {
        isize::MIN <= i <= isize::MAX
    }

    proof fn exact(a: Self, b: Self) {
        assert((a as int) * (b as int) == (b as int) * (a as int)) by (nonlinear_arith);
    }

    proof fn cancel(a: Self, b: Self) {
        if a.mul_req(b) && b != 0 {
            lemma_product_quotient(a as int, b as int);
            lemma_product_quotient(-(a as int), b as int);
            assert(-((a as int) * (b as int)) == (-(a as int)) * (b as int)) by (nonlinear_arith);
        }
    }
}

impl SignedIntegral for isize {
    proof fn exact_neg(a: Self) {
    }
}

impl Integral for u8 {
    open spec fn value(self) -> int {
        self as int
    }

    open spec fn in_range(i: int) -> bool {
        u8::MIN <= i <= u8::MAX
    }

    proof fn exact(a: Self, b: Self) {
        assert((a as int) * (b as int) == (b as int) * (a as int)) by (nonlinear_arith);
    }

    proof fn cancel(a: Self, b: Self) {
        if a.mul_req(b) && b != 0 {
            lemma_product_quotient(a as int, b as int);
        }
    }
}

impl Integral for u16 {
    open spec fn value(self) -> int {
        self as int
    }

    open spec fn in_range(i: int) -> bool {
        u16::MIN <= i <= u16::MAX
    }

    proof fn exact(a: Self, b: Self) {
        assert((a as int) * (b as int) == (b as int) * (a as int)) by (nonlinear_arith);
    }

    proof fn cancel(a: Self, b: Self) {
        if a.mul_req(b) && b != 0 {
            lemma_product_quotient(a as int, b as int);
        }
    }
}

impl Integral for u32 {
    open spec fn value(self) -> int {
        self as int
    }

    open spec fn in_range(i: int) -> bool {
        u32::MIN <= i <= u32::MAX
    }

    proof fn exact(a: Self, b: Self) {
        assert((a as int) * (b as int) == (b as int) * (a as int)) by (nonlinear_arith);
    }

    proof fn cancel(a: Self, b: Self) {
        if a.mul_req(b) && b != 0 {
            lemma_product_quotient(a as int, b as int);
        }
    }
}

impl Integral for u64 {
    open spec fn value(self) -> int {
        self as int
    }

    open spec fn in_range(i: int) -> bool {
        u64::MIN <= i <= u64::MAX
    }

    proof fn exact(a: Self, b: Self) {
        assert((a as int) * (b as int) == (b as int) * (a as int)) by (nonlinear_arith);
    }

    proof fn cancel(a: Self, b: Self) {
        if a.mul_req(b) && b != 0 {
            lemma_product_quotient(a as int, b as int);
        }
    }
}

impl Integral for u128 {
    open spec fn value(self) -> int {
        self as int
    }

    open spec fn in_range(i: int) -> bool {
        u128::MIN <= i <= u128::MAX
    }

    proof fn exact(a: Self, b: Self) {
        assert((a as int) * (b as int) == (b as int) * (a as int)) by (nonlinear_arith);
    }

    proof fn cancel(a: Self, b: Self) {
        if a.mul_req(b) && b != 0 {
            lemma_product_quotient(a as int, b as int);
        }
    }
}

impl Integral for usize {
    open spec fn value(self) -> int {
        self as int
    }

    open spec fn in_range(i: int) -> bool {
        usize::MIN <= i <= usize::MAX
    }

    proof fn exact(a: Self, b: Self) {
        assert((a as int) * (b as int) == (b as int) * (a as int)) by (nonlinear_arith);
    }

    proof fn cancel(a: Self, b: Self) {
        if a.mul_req(b) && b != 0 {
            lemma_product_quotient(a as int, b as int);
        }
    }
}

} // verus!
