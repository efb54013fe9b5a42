use rot3d::Matrix3;
use rot3d::Quaternion;
use rot3d::VectorFloat;

#[test]
fn it_works() {
    let result = 2 + 2;
    assert_eq!(result, 4);
}

#[test]
fn cross_of_unit_x_and_unit_y() {
    let r = VectorFloat::new(1, 0, 0).cross(&VectorFloat::new(0, 1, 0));
    assert_eq!(r, VectorFloat::new(0, 0, 1));
}

#[test]
fn cross_formula_is_not_the_textbook_one() {
    // The library's own formula: x = z1*y2 - y1*z2, y = z1*x2 - x1*z2,
    // z = x1*y2 - y1*x2. On these inputs the textbook cross product would
    // give (-1, 0, 0); the library gives (1, 0, 0).
    let r = VectorFloat::new(0, 0, 1).cross(&VectorFloat::new(0, 1, 0));
    assert_eq!(r, VectorFloat::new(1, 0, 0));
}

#[test]
fn identity_quaternion_squared_is_itself() {
    let r = Quaternion::new(1, 0, 0, 0).get_product(Quaternion::new(1, 0, 0, 0));
    assert_eq!(r, Quaternion::new(1, 0, 0, 0));
}

#[test]
fn diagonal_matrix_matches_rows() {
    let d = Matrix3::new_from_diag([1, 5, 9]);
    let m = Matrix3::new_from_rows([1, 0, 0], [0, 5, 0], [0, 0, 9]);
    assert_eq!(d.get_raw(), m.get_raw());
}

#[test]
fn rotation_by_identity_quaternion_is_identity() {
    let v = VectorFloat::new(1, 0, 0);
    let r = v.get_rotated(Quaternion::new(1, 0, 0, 0));
    assert_eq!(r, VectorFloat::new(1, 0, 0));
}

#[test]
fn rotate_in_place_matches_get_rotated() {
    let mut v = VectorFloat::new(3, -7, 11);
    let q = Quaternion::new(0, 1, 0, 0);
    let r = v.get_rotated(q);
    v.rotate(q);
    assert_eq!(v, r);
}

#[test]
fn vector_product_scales_columns() {
    let m = Matrix3::new_from_rows([1, 2, 3], [4, 5, 6], [7, 8, 9]);
    let r = m.vector_product(&VectorFloat::new(2, 1, 1));
    assert_eq!(r.get_raw(), [[2, 2, 3], [8, 5, 6], [14, 8, 9]]);
}

#[test]
fn quaternion_product_is_associative() {
    let a = Quaternion::new(1, 2, 3, 4);
    let b = Quaternion::new(-5, 3, 0, 7);
    let c = Quaternion::new(2, -1, 6, -2);
    let left = a.get_product(b).get_product(c);
    let right = a.get_product(b.get_product(c));
    assert_eq!(left, right);
}

#[test]
fn quaternion_product_is_not_commutative() {
    // i * j == k but j * i == -k.
    let i = Quaternion::new(0, 1, 0, 0);
    let j = Quaternion::new(0, 0, 1, 0);
    assert_eq!(i.get_product(j), Quaternion::new(0, 0, 0, 1));
    assert_eq!(j.get_product(i), Quaternion::new(0, 0, 0, -1));
    assert_ne!(i.get_product(j), j.get_product(i));
}

#[test]
fn conjugate_twice_gives_back_the_quaternion() {
    let q = Quaternion::new(4, -3, 2, -1);
    assert_eq!(q.get_conjugate().get_conjugate(), q);
}

#[test]
fn rotation_by_unit_quaternion_keeps_squared_magnitude() {
    // Rotation by the unit quaternion i is a half turn about the x axis.
    let v = VectorFloat::new(1, 2, 3);
    let r = v.get_rotated(Quaternion::new(0, 1, 0, 0));
    assert_eq!(r, VectorFloat::new(1, -2, -3));
    assert_eq!(
        r.x * r.x + r.y * r.y + r.z * r.z,
        v.x * v.x + v.y * v.y + v.z * v.z,
    );
}

#[test]
fn identity_matrix_is_the_multiplicative_identity() {
    let m = Matrix3::new_from_rows([1, 2, 3], [4, 5, 6], [7, 8, 9]);
    assert_eq!(m.product(&Matrix3::new_identity()).get_raw(), m.get_raw());
    assert_eq!(Matrix3::new_identity().product(&m).get_raw(), m.get_raw());
}

#[test]
fn transpose_twice_gives_back_the_matrix() {
    let m = Matrix3::new_from_rows([1, -2, 3], [0, 5, -6], [7, 8, 9]);
    assert_eq!(m.transpose().transpose().get_raw(), m.get_raw());
}

#[test]
fn transpose_swaps_rows_and_columns() {
    let m = Matrix3::new_from_rows([1, 2, 3], [4, 5, 6], [7, 8, 9]);
    assert_eq!(m.transpose().get_raw(), [[1, 4, 7], [2, 5, 8], [3, 6, 9]]);
}

#[test]
fn matrix_product_is_associative() {
    let a = Matrix3::new_from_rows([1, 2, 3], [4, 5, 6], [7, 8, 9]);
    let b = Matrix3::new_from_rows([2, 0, -1], [1, 3, 2], [-2, 4, 0]);
    let c = Matrix3::new_from_rows([0, 1, 1], [5, -3, 2], [2, 2, -4]);
    let left = a.product(&b).product(&c);
    let right = a.product(&b.product(&c));
    assert_eq!(left.get_raw(), right.get_raw());
}

#[test]
fn matrix_product_concrete_value() {
    let a = Matrix3::new_from_rows([1, 2, 3], [4, 5, 6], [7, 8, 9]);
    let b = Matrix3::new_from_rows([2, 3, 4], [5, 6, 7], [8, 9, 10]);
    assert_eq!(
        a.product(&b).get_raw(),
        [[36, 42, 48], [81, 96, 111], [126, 150, 174]],
    );
}

#[test]
fn new_from_cols_lays_columns_side_by_side() {
    let m = Matrix3::new_from_cols([1, 2, 3], [4, 5, 6], [7, 8, 9]);
    assert_eq!(m.get_raw(), [[1, 4, 7], [2, 5, 8], [3, 6, 9]]);
}

#[test]
fn vector_addition_and_subtraction() {
    let a = VectorFloat::new(1, 2, 3);
    let b = VectorFloat::new(10, -20, 30);
    assert_eq!(a.add(b), VectorFloat::new(11, -18, 33));
    assert_eq!(a.sub(b), VectorFloat::new(-9, 22, -27));
}

#[test]
fn vector_dot_and_scalar_product() {
    let a = VectorFloat::new(1, 2, 3);
    let b = VectorFloat::new(4, 5, 6);
    assert_eq!(a.dot(&b), 32);
    assert_eq!(a.prod(-2), VectorFloat::new(-2, -4, -6));
}

#[test]
fn hamilton_product_concrete_value() {
    let a = Quaternion::new(1, 2, 3, 4);
    let b = Quaternion::new(5, 6, 7, 8);
    // (1 + 2i + 3j + 4k)(5 + 6i + 7j + 8k) = -60 + 12i + 30j + 24k.
    assert_eq!(a.get_product(b), Quaternion::new(-60, 12, 30, 24));
}
