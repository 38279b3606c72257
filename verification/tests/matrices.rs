use raytracer::matrix2::Matrix2;
use raytracer::matrix3::Matrix3;
use raytracer::matrix4::Matrix4;

#[test]
fn matrix2_matrix_construct_inspect() {
    let m = Matrix2::builder(-3.0, 5.0).row(1.0, -2.0);
    assert_eq!(m.at(0, 0), -3.0);
    assert_eq!(m.at(0, 1), 5.0);
    assert_eq!(m.at(1, 0), 1.0);
    assert_eq!(m.at(1, 1), -2.0);
}

#[test]
fn matrix3_matrix_construct_inspect() {
    let m = Matrix3::builder(-3.0, 5.0, 0.0).row(1.0, -2.0, -7.0).row(0.0, 1.0, 1.0);
    assert_eq!(m.at(0, 0), -3.0);
    assert_eq!(m.at(1, 1), -2.0);
    assert_eq!(m.at(2, 2), 1.0);
}

#[test]
fn matrix3_sub_matrix() {
    let a = Matrix3::builder(1.0, 5.0, 0.0).row(-3.0, 2.0, 7.0).row(0.0, 6.0, -3.0);
    let expected = Matrix2::builder(-3.0, 2.0).row(0.0, 6.0);
    assert!(a.sub_matrix(0, 2) == expected);
}

#[test]
fn matrix4_matrix_construct_inspect() {
    let m = Matrix4::builder(1.0, 2.0, 3.0, 4.0)
        .row(5.5, 6.5, 7.5, 8.5)
        .row(9.0, 10.0, 11.0, 12.0)
        .row(13.5, 14.5, 15.5, 16.5);

    assert_eq!(m.at(0, 0), 1.0);
    assert_eq!(m.at(0, 3), 4.0);
    assert_eq!(m.at(1, 0), 5.5);
    assert_eq!(m.at(1, 2), 7.5);
    assert_eq!(m.at(2, 2), 11.0);
    assert_eq!(m.at(3, 0), 13.5);
    assert_eq!(m.at(3, 2), 15.5);
}

#[test]
fn matrix_equality() {
    let m1 = Matrix4::builder(1.0, 2.0, 3.0, 4.0)
        .row(5.5, 6.5, 7.5, 8.5)
        .row(9.0, 10.0, 11.0, 12.0)
        .row(13.5, 14.5, 15.5, 16.5);

    let m2 = Matrix4::builder(1.0, 2.0, 3.0, 4.0)
        .row(5.5, 6.5, 7.5, 8.5)
        .row(9.0, 10.0, 11.0, 12.0)
        .row(13.5, 14.5, 15.5, 16.5);

    assert_eq!(m1, m2);
    assert!(m1 == m2);
}

#[test]
fn matrix_inequality() {
    let m1 = Matrix4::builder(1.0, 2.0, 3.0, 4.0)
        .row(5.5, 6.5, 7.5, 8.5)
        .row(9.0, 10.0, 11.0, 12.0)
        .row(13.5, 14.5, 15.5, 16.5);

    let m2 = Matrix4::builder(1.0, 2.0, 3.0, 4.0)
        .row(5.5, 6.5, 7.0, 8.5)
        .row(9.0, 10.0, 11.0, 12.0)
        .row(13.5, 14.5, 15.5, 16.5);

    assert_ne!(m1, m2);
    assert!(m1 != m2);
}

#[test]
fn matrix_transpose() {
    let a = Matrix4::builder(0.0, 9.0, 3.0, 0.0)
        .row(9.0, 8.0, 0.0, 8.0)
        .row(1.0, 8.0, 5.0, 3.0)
        .row(0.0, 0.0, 5.0, 8.0);

    let expected = Matrix4::builder(0.0, 9.0, 1.0, 0.0)
        .row(9.0, 8.0, 8.0, 0.0)
        .row(3.0, 0.0, 5.0, 5.0)
        .row(0.0, 8.0, 3.0, 8.0);

    assert!(a.transpose() == expected);
}

#[test]
fn matrix_transpose_identity() {
    let identity = Matrix4::builder(1.0, 0.0, 0.0, 0.0)
        .row(0.0, 1.0, 0.0, 0.0)
        .row(0.0, 0.0, 1.0, 0.0)
        .row(0.0, 0.0, 0.0, 1.0);
    assert!(identity.transpose() == identity);
}

#[test]
fn matrix4_sub_matrix() {
    let a = Matrix4::builder(-6.0, 1.0, 1.0, 6.0)
        .row(-8.0, 5.0, 8.0, 6.0)
        .row(-1.0, 0.0, 8.0, 2.0)
        .row(-7.0, 1.0, -1.0, 1.0);

    let expected = Matrix3::builder(-6.0, 1.0, 6.0).row(-8.0, 8.0, 6.0).row(-7.0, -1.0, 1.0);

    assert!(a.sub_matrix(2, 1) == expected);
}

#[test]
fn row_col_index_is_row_major() {
    assert_eq!(Matrix2::<i32>::row_col_index(1, 1), 3);
    assert_eq!(Matrix3::<i32>::row_col_index(2, 1), 7);
    assert_eq!(Matrix4::<i32>::row_col_index(3, 2), 14);
}

#[test]
fn sub_matrix_drops_any_row_and_column() {
    let m = Matrix4::builder(0, 1, 2, 3).row(4, 5, 6, 7).row(8, 9, 10, 11).row(12, 13, 14, 15);
    let s = m.sub_matrix(1, 2);
    assert_eq!(s.values, [0, 1, 3, 8, 9, 11, 12, 13, 15]);
    let t = m.sub_matrix(0, 0);
    assert_eq!(t.values, [5, 6, 7, 9, 10, 11, 13, 14, 15]);
}

#[test]
fn transpose_twice_restores_the_matrix() {
    let m = Matrix4::builder(0, 1, 2, 3).row(4, 5, 6, 7).row(8, 9, 10, 11).row(12, 13, 14, 15);
    assert_eq!(m.transpose().transpose().values, m.values);
    assert_eq!(m.transpose().values, [0, 4, 8, 12, 1, 5, 9, 13, 2, 6, 10, 14, 3, 7, 11, 15]);
}
