use rustbook::matrix::{Matrix, Point};

#[test]
fn matrix_products() {
    let p = Point { x: 2, y: 3 };
    let m1 = Matrix { attr_11: 5, attr_12: 6, attr_21: 7, attr_22: 8 };
    let m2 = Matrix { attr_11: 1, attr_12: 0, attr_21: 0, attr_22: 1 };
    let m = m1 * m2;
    assert_eq!((m.attr_11, m.attr_12, m.attr_21, m.attr_22), (5, 6, 7, 8));
    let q = m1 * p;
    assert_eq!((q.x, q.y), (28, 38));
    let r = m2 * p;
    assert_eq!((r.x, r.y), (2, 3));
}

#[test]
fn matrix_product_general() {
    let a = Matrix { attr_11: 1i64, attr_12: 2, attr_21: 3, attr_22: 4 };
    let b = Matrix { attr_11: 5i64, attr_12: 6, attr_21: 7, attr_22: 8 };
    let c = a * b;
    assert_eq!((c.attr_11, c.attr_12, c.attr_21, c.attr_22), (19, 22, 43, 50));
}
