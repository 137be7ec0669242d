use core::ops::{Add, Mul};
use vstd::prelude::*;
use vstd::std_specs::ops::{AddSpec, MulSpec};

verus! {

/// A point of the plane, as a column vector.
#[derive(Debug, Clone, Copy)]
pub struct Point<T> {
    pub x: T,
    pub y: T,
}

/// A 2 x 2 matrix; `attr_ij` is the entry in row `i`, column `j`.
#[derive(Debug, Clone, Copy)]
pub struct Matrix<T> {
    pub attr_11: T,
    pub attr_12: T,
    pub attr_21: T,
    pub attr_22: T,
}

/// `a * b + c * d`, by the element type's own multiplication and addition.
pub open spec fn dot<T: Mul<Output = T> + Add<Output = T>>(a: T, b: T, c: T, d: T) -> T {
    a.mul_spec(b).add_spec(c.mul_spec(d))
}

/// The element type's arithmetic follows its specification, and
/// `a * b + c * d` can be computed (for integers: nothing overflows).
pub open spec fn dot_computable<T: Mul<Output = T> + Add<Output = T>>(a: T, b: T, c: T, d: T) -> bool {
    &&& T::obeys_mul_spec()
    &&& T::obeys_add_spec()
    &&& a.mul_req(b)
    &&& c.mul_req(d)
    &&& a.mul_spec(b).add_req(c.mul_spec(d))
}

impl<T> vstd::std_specs::ops::MulSpecImpl for Matrix<T> where T: Mul<Output = T> + Add<Output = T> + Clone + Copy {
    open spec fn obeys_mul_spec() -> bool {
        T::obeys_mul_spec() && T::obeys_add_spec()
    }

    open spec fn mul_req(self, rhs: Self) -> bool {
        &&& dot_computable(self.attr_11, rhs.attr_11, self.attr_12, rhs.attr_21)
        &&& dot_computable(self.attr_11, rhs.attr_12, self.attr_12, rhs.attr_22)
        &&& dot_computable(self.attr_21, rhs.attr_11, self.attr_22, rhs.attr_21)
        &&& dot_computable(self.attr_21, rhs.attr_12, self.attr_22, rhs.attr_22)
    }

    open spec fn mul_spec(self, rhs: Self) -> Self {
        Matrix {
            attr_11: dot(self.attr_11, rhs.attr_11, self.attr_12, rhs.attr_21),
            attr_12: dot(self.attr_11, rhs.attr_12, self.attr_12, rhs.attr_22),
            attr_21: dot(self.attr_21, rhs.attr_11, self.attr_22, rhs.attr_21),
            attr_22: dot(self.attr_21, rhs.attr_12, self.attr_22, rhs.attr_22),
        }
    }
}

/// The matrix product: entry `ij` is row `i` of the left matrix times column
/// `j` of the right one.
impl<T> Mul for Matrix<T> where T: Mul<Output = T> + Add<Output = T> + Clone + Copy {
    type Output = Self;

    fn mul(self, rhs: Self) -> (product: Self::Output) {
        let attr_11 = self.attr_11 * rhs.attr_11 + self.attr_12 * rhs.attr_21;
        let attr_12 = self.attr_11 * rhs.attr_12 + self.attr_12 * rhs.attr_22;
        let attr_21 = self.attr_21 * rhs.attr_11 + self.attr_22 * rhs.attr_21;
        let attr_22 = self.attr_21 * rhs.attr_12 + self.attr_22 * rhs.attr_22;
        Matrix { attr_11, attr_12, attr_21, attr_22 }
    }
}

impl<T> vstd::std_specs::ops::MulSpecImpl<Point<T>> for Matrix<T> where T: Mul<Output = T> + Add<Output = T> + Clone + Copy {
    open spec fn obeys_mul_spec() -> bool {
        T::obeys_mul_spec() && T::obeys_add_spec()
    }

    open spec fn mul_req(self, rhs: Point<T>) -> bool {
        &&& dot_computable(self.attr_11, rhs.x, self.attr_12, rhs.y)
        &&& dot_computable(self.attr_21, rhs.x, self.attr_22, rhs.y)
    }

    open spec fn mul_spec(self, rhs: Point<T>) -> Point<T> {
        Point {
            x: dot(self.attr_11, rhs.x, self.attr_12, rhs.y),
            y: dot(self.attr_21, rhs.x, self.attr_22, rhs.y),
        }
    }
}

/// The image of a point under the matrix: each coordinate is a row of the
/// matrix times the point.
impl<T> Mul<Point<T>> for Matrix<T> where T: Mul<Output = T> + Add<Output = T> + Clone + Copy {
    type Output = Point<T>;

    fn mul(self, rhs: Point<T>) -> (image: Self::Output) {
        let x = self.attr_11 * rhs.x + self.attr_12 * rhs.y;
        let y = self.attr_21 * rhs.x + self.attr_22 * rhs.y;
        Point { x, y }
    }
}


/// For `i32` entries, the product is the usual row-by-column product: entry
/// `ij` is `m[i][1] * n[1][j] + m[i][2] * n[2][j]`, computed exactly whenever
/// the product can be computed at all.
pub proof fn lemma_matrix_product_i32(m: Matrix<i32>, n: Matrix<i32>)
    requires
        m.mul_req(n),
    ensures
        m.mul_spec(n).attr_11 == m.attr_11 * n.attr_11 + m.attr_12 * n.attr_21,
        m.mul_spec(n).attr_12 == m.attr_11 * n.attr_12 + m.attr_12 * n.attr_22,
        m.mul_spec(n).attr_21 == m.attr_21 * n.attr_11 + m.attr_22 * n.attr_21,
        m.mul_spec(n).attr_22 == m.attr_21 * n.attr_12 + m.attr_22 * n.attr_22,
{
}

/// For `i32` entries, the image of a point is the matrix times the column
/// vector: `x' = m11 * x + m12 * y` and `y' = m21 * x + m22 * y`.
pub proof fn lemma_matrix_point_i32(m: Matrix<i32>, p: Point<i32>)
    requires
        m.mul_req(p),
    ensures
        m.mul_spec(p).x == m.attr_11 * p.x + m.attr_12 * p.y,
        m.mul_spec(p).y == m.attr_21 * p.x + m.attr_22 * p.y,
{
}

/// The identity matrix changes no matrix and no point it multiplies.
pub proof fn lemma_identity_i32(m: Matrix<i32>, p: Point<i32>)
    ensures
        ({
            let id = Matrix { attr_11: 1i32, attr_12: 0i32, attr_21: 0i32, attr_22: 1i32 };
            &&& id.mul_req(m)
            &&& id.mul_spec(m) == m
            &&& m.mul_req(id)
            &&& m.mul_spec(id) == m
            &&& id.mul_req(p)
            &&& id.mul_spec(p) == p
        }),
{
}

} // verus!
