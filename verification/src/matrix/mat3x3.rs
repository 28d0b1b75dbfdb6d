//! Matrices of three rows and three columns.
use crate::traits::Dot;
use crate::vector::Vec3;
use std::ops::{Add, Index, Mul};
use vstd::prelude::*;

verus! {

/// A grid of three rows of three elements each. Any grid makes a matrix.
#[derive(Debug, Default)]
pub struct Mat3x3<T> {
    pub values: [[T; 3]; 3],
}

impl<T: Copy> Mat3x3<T> {
    /// The element in row `i` and column `j`.
    pub open spec fn at(&self, i: int, j: int) -> T {
        self.values[i][j]
    }

    /// Row `index`, from left to right.
    pub open spec fn row_spec(&self, index: int) -> Vec3<T> {
        Vec3 { x: self.at(index, 0), y: self.at(index, 1), z: self.at(index, 2) }
    }

    /// Column `index`, from top to bottom.
    pub open spec fn col_spec(&self, index: int) -> Vec3<T> {
        Vec3 { x: self.at(0, index), y: self.at(1, index), z: self.at(2, index) }
    }

    pub fn new(values: [[T; 3]; 3]) -> (r: Self)
        ensures
            r.values == values,
    {
        Mat3x3 { values }
    }

    pub fn from_rows(row0: Vec3<T>, row1: Vec3<T>, row2: Vec3<T>) -> (r: Mat3x3<T>)
        ensures
            r.row_spec(0) == row0,
            r.row_spec(1) == row1,
            r.row_spec(2) == row2,
            r.col_spec(0) == (Vec3 { x: row0.x, y: row1.x, z: row2.x }),
            r.col_spec(1) == (Vec3 { x: row0.y, y: row1.y, z: row2.y }),
            r.col_spec(2) == (Vec3 { x: row0.z, y: row1.z, z: row2.z }),
    {
        Mat3x3 {
            values: [
                [row0.x, row0.y, row0.z],
                [row1.x, row1.y, row1.z],
                [row2.x, row2.y, row2.z],
            ],
        }
    }

    pub fn row(&self, index: usize) -> (r: Vec3<T>)
        requires
            index < 3,
        ensures
            r == self.row_spec(index as int),
    {
        Vec3::from(self[index])
    }

    pub fn col(&self, index: usize) -> (r: Vec3<T>)
        requires
            index < 3,
        ensures
            r == self.col_spec(index as int),
    {
        Vec3::new(self[0][index], self[1][index], self[2][index])
    }
}

/// Column `j` of a matrix holds, from top to bottom, the `j`-th element of
/// each of its rows.
pub proof fn lemma_col_of_rows<T: Copy>(m: Mat3x3<T>, j: usize)
    requires
        j < 3,
    ensures
        m.col_spec(j as int) == (Vec3 {
            x: m.row_spec(0).component(j),
            y: m.row_spec(1).component(j),
            z: m.row_spec(2).component(j),
        }),
{
}

/// Row `i` of a matrix holds, from left to right, the `i`-th element of each
/// of its columns.
pub proof fn lemma_row_of_cols<T: Copy>(m: Mat3x3<T>, i: usize)
    requires
        i < 3,
    ensures
        m.row_spec(i as int) == (Vec3 {
            x: m.col_spec(0).component(i),
            y: m.col_spec(1).component(i),
            z: m.col_spec(2).component(i),
        }),
{
}

impl<T> Index<usize> for Mat3x3<T> {
    type Output = [T; 3];

    fn index(&self, index: usize) -> (r: &[T; 3])
        ensures
            *r == self.values[index as int],
    {
        &self.values[index]
    }
}

impl<T> vstd::std_specs::core::IndexSpecImpl<usize> for Mat3x3<T> {
    open spec fn index_req(&self, index: &usize) -> bool {
        *index < 3
    }
}

impl<T: Mul<Output = T> + Add<Output = T> + Copy> Mat3x3<T> {
    pub open spec fn dot_req(&self, rhs: &Vec3<T>) -> bool {
        &&& self.row_spec(0).dot_req(rhs)
        &&& self.row_spec(1).dot_req(rhs)
        &&& self.row_spec(2).dot_req(rhs)
    }

    /// The vector of the rows' dot products with `rhs`.
    pub open spec fn dot_spec(&self, rhs: &Vec3<T>) -> Vec3<T> {
        Vec3 {
            x: self.row_spec(0).dot_spec(rhs),
            y: self.row_spec(1).dot_spec(rhs),
            z: self.row_spec(2).dot_spec(rhs),
        }
    }

    /// The product of the matrix with the column vector `rhs`.
    pub fn dot(&self, rhs: &Vec3<T>) -> (r: Vec3<T>)
        requires
            self.dot_req(rhs),
        ensures
            r == self.dot_spec(rhs),
    {
        Vec3::new(self.row(0).dot(rhs), self.row(1).dot(rhs), self.row(2).dot(rhs))
    }
}

} // verus!
