use linalg::prelude::{Cross, Dot, Invert, Norm, Vec3};
use linalg::traits::{PieceWiseDiv, PieceWiseMul, Sqrt};
use std::ops::{Add, Div, Mul};

#[derive(Debug, Clone, Copy, PartialEq, PartialOrd)]
struct Real(f64);

impl Add for Real {
    type Output = Real;
    fn add(self, rhs: Real) -> Real {
        Real(self.0 + rhs.0)
    }
}

impl Mul for Real {
    type Output = Real;
    fn mul(self, rhs: Real) -> Real {
        Real(self.0 * rhs.0)
    }
}

impl Div for Real {
    type Output = Real;
    fn div(self, rhs: Real) -> Real {
        Real(self.0 / rhs.0)
    }
}

impl Sqrt for Real {
    fn sqrt_req(self) -> bool {
        true
    }

    fn sqrt_spec(self) -> Real {
        Real(self.0.sqrt())
    }

    fn sqrt(self) -> Real {
        Real(self.0.sqrt())
    }
}

fn parts<T: Copy>(v: Vec3<T>) -> (T, T, T) {
    (v.x(), v.y(), v.z())
}

#[test]
fn vec3_accessors_and_index() {
    let v = Vec3::new(7, 8, 9);
    assert_eq!(parts(v), (7, 8, 9));
    assert_eq!((v[0], v[1], v[2]), (7, 8, 9));
}

#[test]
fn vec3_index_write() {
    let mut v = Vec3::new(7, 8, 9);
    *v.index_mut(1) = 80;
    assert_eq!(parts(v), (7, 80, 9));
    *v.index_mut(0) = 70;
    *v.index_mut(2) = 90;
    assert_eq!(parts(v), (70, 80, 90));
}

#[test]
fn vec3_from_array() {
    assert_eq!(parts(Vec3::from([1, 2, 3])), (1, 2, 3));
}

#[test]
fn vec3_cross_of_unit_vectors() {
    let c = Vec3::new(1, 0, 0).cross(&Vec3::new(0, 1, 0));
    assert_eq!(parts(c), (0, 0, 1));
}

#[test]
fn vec3_cross_general() {
    let a = Vec3::new(2, 3, 4);
    let b = Vec3::new(5, 6, 7);
    let c = a.cross(&b);
    assert_eq!(parts(c), (-3, 6, -3));
    assert_eq!(parts(-(b.cross(&a))), (-3, 6, -3));
    assert_eq!(c.dot(&a), 0);
    assert_eq!(c.dot(&b), 0);
}

#[test]
fn vec3_dot_commutes() {
    let a = Vec3::new(2, -3, 4);
    let b = Vec3::new(5, 6, -7);
    assert_eq!(a.dot(&b), -36);
    assert_eq!(b.dot(&a), -36);
}

#[test]
fn vec3_norm_of_axis_vector() {
    let v = Vec3::new(Real(3.0), Real(0.0), Real(0.0));
    assert_eq!(v.norm(), Real(3.0));
    assert_eq!(v.norm2(), Real(9.0));
    assert_eq!(Vec3::new(3, 0, 0).dot(&Vec3::new(3, 0, 0)), 9);
}

#[test]
fn vec3_normalized_has_unit_norm() {
    let v = Vec3::new(Real(1.0), Real(2.0), Real(2.0));
    assert_eq!(v.norm(), Real(3.0));
    let n = v.normalized();
    assert_eq!(parts(n), (Real(1.0 / 3.0), Real(2.0 / 3.0), Real(2.0 / 3.0)));
    assert!((n.norm().0 - 1.0).abs() < 1e-12);
    let mut m = v;
    m.normalize();
    assert_eq!(parts(m), parts(n));
}

#[test]
fn vec3_normalized_zero_is_not_a_number() {
    let n = Vec3::new(Real(0.0), Real(0.0), Real(0.0)).normalized();
    assert!(n.x().0.is_nan() && n.y().0.is_nan() && n.z().0.is_nan());
}

#[test]
fn vec3_arithmetic() {
    let a = Vec3::new(1, 2, 3);
    let b = Vec3::new(10, 20, 30);
    assert_eq!(parts(a + b), (11, 22, 33));
    assert_eq!(parts(a - b), (-9, -18, -27));
    assert_eq!(parts(a * 4), (4, 8, 12));
    assert_eq!(parts(b / 5), (2, 4, 6));
    assert_eq!(parts(Vec3::new(-7, 7, 1) / 2), (-3, 3, 0));
    let mut c = a;
    c += b;
    assert_eq!(parts(c), (11, 22, 33));
}

#[test]
fn vec3_negation_and_inversion_agree() {
    let v = Vec3::new(1, -2, 0);
    assert_eq!(parts(-v), (-1, 2, 0));
    assert_eq!(parts(v.inverted()), (-1, 2, 0));
    assert_eq!(parts(v.inverted().inverted()), (1, -2, 0));
    let mut m = v;
    m.invert();
    assert_eq!(parts(m), (-1, 2, 0));
}

#[test]
fn vec3_not_is_component_wise() {
    assert_eq!(parts(!Vec3::new(true, false, true)), (false, true, false));
}

#[test]
fn vec3_piece_wise_round_trip() {
    let v = Vec3::new(6, -7, 8);
    let w = Vec3::new(3, 2, -1);
    let p = v.piece_wise_mul(&w);
    assert_eq!(parts(p), (18, -14, -8));
    assert_eq!(parts(PieceWiseMul::piece_wise_mul(&v, &w)), (18, -14, -8));
    assert_eq!(parts(p.piece_wise_div(&w)), (6, -7, 8));
}

#[test]
fn vec3_comparisons() {
    let a = Vec3::new(1, 2, 3);
    assert!(a.all_smaller(&Vec3::new(2, 3, 4)));
    assert!(!a.all_smaller(&Vec3::new(2, 3, 3)));
    assert!(a.all_smaller_eq(&Vec3::new(1, 2, 3)));
    assert!(!a.all_smaller_eq(&Vec3::new(1, 1, 3)));
}

#[test]
fn vec3_min_and_max() {
    assert_eq!(Vec3::new(3, 1, 2).min(), 1);
    assert_eq!(Vec3::new(3, 1, 2).max(), 3);
    assert_eq!(Vec3::new(5, 9, -4).min(), -4);
    assert_eq!(Vec3::new(5, 9, -4).max(), 9);
    assert_eq!(Vec3::new(2, 2, 2).min(), 2);
    assert_eq!(Vec3::new(2, 2, 7).max(), 7);
}

#[test]
fn vec3_min_and_max_without_an_order_fall_to_the_last() {
    let nan = f64::NAN;
    assert_eq!(Vec3::new(nan, nan, 1.0).min(), 1.0);
    assert_eq!(Vec3::new(nan, nan, 1.0).max(), 1.0);
    assert_eq!(Vec3::new(nan, 4.0, 5.0).min(), 5.0);
    assert_eq!(Vec3::new(nan, 4.0, 5.0).max(), 5.0);
}

#[test]
fn vec3_element_wise_min_and_max() {
    let a = Vec3::new(1, 5, 3);
    let b = Vec3::new(4, 2, 3);
    assert_eq!(parts(a.element_wise_min(&b)), (1, 2, 3));
    assert_eq!(parts(a.element_wise_max(&b)), (4, 5, 3));
}

#[test]
fn vec3_element_wise_ties() {
    // 0.0 and -0.0 compare equal but can be told apart by their sign.
    let a = Vec3::new(0.0_f64, 0.0, 0.0);
    let b = Vec3::new(-0.0_f64, -0.0, -0.0);
    let lo = a.element_wise_min(&b);
    assert!(lo.x().is_sign_negative() && lo.y().is_sign_negative() && lo.z().is_sign_negative());
    let hi = a.element_wise_max(&b);
    assert!(hi.x().is_sign_positive() && hi.y().is_sign_positive() && hi.z().is_sign_positive());
}
