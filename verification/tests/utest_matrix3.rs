use m3d::matrices::Matrix3;
use m3d::rational::Rational;

fn rat(n: i128) -> Rational {
    Rational::from_int(n)
}

fn grid(v: [[i128; 3]; 3]) -> Matrix3 {
    Matrix3::from_array_2d([
        [rat(v[0][0]), rat(v[0][1]), rat(v[0][2])],
        [rat(v[1][0]), rat(v[1][1]), rat(v[1][2])],
        [rat(v[2][0]), rat(v[2][1]), rat(v[2][2])],
    ])
}

#[test]
fn test_matrix3_mul() {
    let m1 = grid([[1, 2, 3], [4, 5, 6], [7, 8, 9]]);
    let m2 = grid([[1, 2, 3], [4, 5, 6], [7, 8, 9]]);
    let e = grid([[30, 36, 42], [66, 81, 96], [102, 126, 150]]);
    let m3 = m1.mul(m2);
    assert!(m3.equals(&e));
}

#[test]
fn test_matrix3_transpose() {
    let m = grid([[1, 2, 3], [4, 5, 6], [7, 8, 9]]);
    let e = grid([[1, 4, 7], [2, 5, 8], [3, 6, 9]]);
    assert!(m.transpose().equals(&e));
}

#[test]
fn test_matrix3_determinant() {
    let singular = grid([[1, 2, 3], [4, 5, 6], [7, 8, 9]]);
    assert!(singular.determinant().equals(&rat(0)));
    let m = grid([[2, 0, 0], [0, 4, 0], [0, 0, 1]]);
    assert!(m.determinant().equals(&rat(8)));
}

#[test]
fn test_matrix3_inverse() {
    let m = grid([[2, 0, 0], [0, 4, 0], [0, 0, 1]]);
    let inv = m.inverse();
    let e = Matrix3::from_array_2d([
        [Rational::new(1, 2), rat(0), rat(0)],
        [rat(0), Rational::new(1, 4), rat(0)],
        [rat(0), rat(0), rat(1)],
    ]);
    assert!(inv.equals(&e));
    // Multiplying back gives the identity.
    assert!(m.mul(inv).equals(&Matrix3::identity()));
}

#[test]
fn test_matrix3_inverse_singular_falls_back_to_identity() {
    let singular = grid([[1, 2, 3], [4, 5, 6], [7, 8, 9]]);
    assert!(singular.inverse().equals(&Matrix3::identity()));
}

#[test]
fn test_matrix3_scalar_ops() {
    let m = grid([[1, 2, 3], [4, 5, 6], [7, 8, 9]]);
    let doubled = m.mul_scalar(rat(2));
    let e = grid([[2, 4, 6], [8, 10, 12], [14, 16, 18]]);
    assert!(doubled.equals(&e));
    let halved = doubled.div_scalar(rat(4));
    let h = Matrix3::from_array_2d([
        [Rational::new(1, 2), rat(1), Rational::new(3, 2)],
        [rat(2), Rational::new(5, 2), rat(3)],
        [Rational::new(7, 2), rat(4), Rational::new(9, 2)],
    ]);
    assert!(halved.equals(&h));
}

#[test]
fn test_matrix3_index_and_rows() {
    let m = grid([[1, 2, 3], [4, 5, 6], [7, 8, 9]]);
    assert!(m.index(0).equals(&rat(1)));
    assert!(m.index(5).equals(&rat(6)));
    let row = m.row(1);
    assert!(row.y().equals(&rat(5)));
    let arr = m.to_array();
    assert!(arr[8].equals(&rat(9)));
    let arr2 = m.to_array_2d();
    assert!(arr2[2][0].equals(&rat(7)));
}

#[test]
fn test_matrix3_div() {
    let m = grid([[2, 0, 0], [0, 4, 0], [0, 0, 1]]);
    assert!(m.div(m).equals(&Matrix3::identity()));
    let n = grid([[1, 2, 0], [0, 1, 0], [0, 0, 1]]);
    assert!(n.div(Matrix3::identity()).equals(&n));
}
