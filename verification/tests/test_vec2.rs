use linalg::prelude::{Cross, Dot, Invert, Norm, Vec2};
use linalg::traits::{PieceWiseDiv, PieceWiseMul, Sqrt};
use std::ops::{Add, Div, Mul, Neg};

#[derive(Debug, Clone, Copy, PartialEq, PartialOrd)]
struct Real(f64);

impl Add for Real {
    type Output = Real;
    fn add(self, rhs: Real) -> Real {
        Real(self.0 + rhs.0)
    }
}

impl Mul for Real {
    type Output = Real;
    fn mul(self, rhs: Real) -> Real {
        Real(self.0 * rhs.0)
    }
}

impl Div for Real {
    type Output = Real;
    fn div(self, rhs: Real) -> Real {
        Real(self.0 / rhs.0)
    }
}

impl Neg for Real {
    type Output = Real;
    fn neg(self) -> Real {
        Real(-self.0)
    }
}

impl Sqrt for Real {
    fn sqrt_req(self) -> bool {
        true
    }

    fn sqrt_spec(self) -> Real {
        Real(self.0.sqrt())
    }

    fn sqrt(self) -> Real {
        Real(self.0.sqrt())
    }
}

#[test]
fn test_add() {
    let result = Vec2::new(2, 2) + Vec2::new(3, 4);
    assert_eq!(result.x(), 5);
    assert_eq!(result.y(), 6);
}

#[test]
fn vec2_sub_and_scale() {
    let d = Vec2::new(7, 2) - Vec2::new(3, 4);
    assert_eq!((d.x(), d.y()), (4, -2));
    let m = Vec2::new(3, -4) * 5;
    assert_eq!((m.x(), m.y()), (15, -20));
    let q = Vec2::new(15, -20) / 5;
    assert_eq!((q.x(), q.y()), (3, -4));
}

#[test]
fn vec2_add_assign() {
    let mut v = Vec2::new(1, 2);
    v += Vec2::new(10, 20);
    assert_eq!((v.x(), v.y()), (11, 22));
}

#[test]
fn vec2_dot_and_cross() {
    let a = Vec2::new(2, 3);
    let b = Vec2::new(5, 7);
    assert_eq!(a.dot(&b), 31);
    assert_eq!(b.dot(&a), 31);
    assert_eq!(a.cross(&b), -1);
    assert_eq!(b.cross(&a), 1);
}

#[test]
fn vec2_comparisons() {
    let a = Vec2::new(1, 2);
    assert!(a.all_smaller(&Vec2::new(2, 3)));
    assert!(!a.all_smaller(&Vec2::new(2, 2)));
    assert!(!a.all_smaller(&Vec2::new(1, 3)));
    assert!(a.all_smaller_eq(&Vec2::new(1, 2)));
    assert!(a.all_smaller_eq(&Vec2::new(2, 2)));
    assert!(!a.all_smaller_eq(&Vec2::new(0, 5)));
}

#[test]
fn vec2_piece_wise_round_trip() {
    let v = Vec2::new(6, -7);
    let w = Vec2::new(3, 2);
    let p = v.piece_wise_mul(&w);
    assert_eq!((p.x(), p.y()), (18, -14));
    let q = p.piece_wise_div(&w);
    assert_eq!((q.x(), q.y()), (6, -7));
}

#[test]
fn vec2_invert_twice() {
    let v = Vec2::new(4, -9);
    let i = v.inverted();
    assert_eq!((i.x(), i.y()), (-4, 9));
    let back = i.inverted();
    assert_eq!((back.x(), back.y()), (4, -9));
    let mut m = v;
    m.invert();
    assert_eq!((m.x(), m.y()), (-4, 9));
}

#[test]
fn vec2_not_is_component_wise() {
    let v = !Vec2::new(true, false);
    assert_eq!((v.x(), v.y()), (false, true));
    let n = !Vec2::new(0u8, 255u8);
    assert_eq!((n.x(), n.y()), (255, 0));
}

#[test]
fn vec2_from_array() {
    let v = Vec2::from([8, 9]);
    assert_eq!((v.x(), v.y()), (8, 9));
}

#[test]
fn vec2_norms() {
    let v = Vec2::new(Real(3.0), Real(4.0));
    assert_eq!(v.norm2(), Real(25.0));
    assert_eq!(v.norm(), Real(5.0));
    let n = v.normalized();
    assert_eq!((n.x(), n.y()), (Real(0.6), Real(0.8)));
    assert!((n.norm().0 - 1.0).abs() < 1e-12);
    let mut m = v;
    m.normalize();
    assert_eq!((m.x(), m.y()), (Real(0.6), Real(0.8)));
}

#[test]
fn vec2_normal_is_the_scaled_quarter_turn() {
    let v = Vec2::new(Real(3.0), Real(4.0));
    let n = v.normal();
    assert_eq!((n.x(), n.y()), (Real(0.8), Real(-0.6)));
    assert!(n.dot(&v).0.abs() < 1e-12);
}

#[test]
fn vec2_normal_of_zero_is_not_a_number() {
    let n = Vec2::new(Real(0.0), Real(0.0)).normal();
    assert!(n.x().0.is_nan());
    assert!(n.y().0.is_nan());
}
