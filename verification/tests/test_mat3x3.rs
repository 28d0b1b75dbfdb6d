use linalg::prelude::{Mat3x3, Vec3};

fn parts<T: Copy>(v: Vec3<T>) -> (T, T, T) {
    (v.x(), v.y(), v.z())
}

#[test]
fn mat_rows_and_columns_of_a_grid() {
    let m = Mat3x3::new([[1, 2, 3], [4, 5, 6], [7, 8, 9]]);
    assert_eq!(parts(m.row(0)), (1, 2, 3));
    assert_eq!(parts(m.row(1)), (4, 5, 6));
    assert_eq!(parts(m.row(2)), (7, 8, 9));
    assert_eq!(parts(m.col(0)), (1, 4, 7));
    assert_eq!(parts(m.col(1)), (2, 5, 8));
    assert_eq!(parts(m.col(2)), (3, 6, 9));
    assert_eq!(m[1], [4, 5, 6]);
    assert_eq!(m[2][0], 7);
}

#[test]
fn mat_from_rows_keeps_the_rows() {
    let m = Mat3x3::from_rows(Vec3::new(1, 2, 3), Vec3::new(4, 5, 6), Vec3::new(7, 8, 9));
    assert_eq!(parts(m.row(0)), (1, 2, 3));
    assert_eq!(parts(m.row(1)), (4, 5, 6));
    assert_eq!(parts(m.row(2)), (7, 8, 9));
    assert_eq!(parts(m.col(0)), (1, 4, 7));
    assert_eq!(parts(m.col(1)), (2, 5, 8));
    assert_eq!(parts(m.col(2)), (3, 6, 9));
}

#[test]
fn mat_identity_keeps_the_vector() {
    let m = Mat3x3::from_rows(Vec3::new(1, 0, 0), Vec3::new(0, 1, 0), Vec3::new(0, 0, 1));
    assert_eq!(parts(m.dot(&Vec3::new(5, -6, 7))), (5, -6, 7));
}

#[test]
fn mat_dot_is_row_by_row() {
    let m = Mat3x3::new([[1, 2, 3], [4, 5, 6], [7, 8, 9]]);
    assert_eq!(parts(m.dot(&Vec3::new(1, 0, -1))), (-2, -2, -2));
    assert_eq!(parts(m.dot(&Vec3::new(2, 3, 4))), (20, 47, 74));
}

#[test]
fn mat_default_is_all_zero() {
    let m: Mat3x3<i32> = Mat3x3::default();
    assert_eq!(m[0], [0, 0, 0]);
    assert_eq!(m[1], [0, 0, 0]);
    assert_eq!(m[2], [0, 0, 0]);
}
