use ray_tracer::cofactors::cofactor_flips;
use ray_tracer::matrix::{submatrix, Matrix};
use ray_tracer::scalar::Scalar;

fn s(x: f64) -> Scalar {
    Scalar::from_bits(x.to_bits())
}

fn matrix(width: usize, height: usize, values: Vec<f64>) -> Matrix {
    Matrix::new(width, height, values.into_iter().map(s).collect())
}

fn at(m: &Matrix, row: usize, column: usize) -> f64 {
    f64::from_bits(m.at(row, column).to_bits())
}

fn same_matrix(a: &Matrix, b: &Matrix) -> bool {
    if a.width() != b.width() || a.height() != b.height() {
        return false;
    }
    for r in 0..a.height() {
        for c in 0..a.width() {
            if (at(a, r, c) - at(b, r, c)).abs() > 0.00001 {
                return false;
            }
        }
    }
    true
}

#[test]
fn constructing_and_inspecting_4x4_matrix() {
    let m = matrix(
        4,
        4,
        vec![
            1.0, 2.0, 3.0, 4.0, 5.5, 6.5, 7.5, 8.5, 9.0, 10.0, 11.0, 12.0, 13.5, 14.5, 15.5, 16.5,
        ],
    );
    assert_eq!(at(&m, 0, 0), 1.0);
    assert_eq!(at(&m, 0, 3), 4.0);
    assert_eq!(at(&m, 1, 0), 5.5);
    assert_eq!(at(&m, 1, 2), 7.5);
    assert_eq!(at(&m, 2, 2), 11.0);
    assert_eq!(at(&m, 3, 0), 13.5);
    assert_eq!(at(&m, 3, 2), 15.5);
}

#[test]
fn can_represent_2x2_matrix() {
    let m = matrix(2, 2, vec![-3.0, 5.0, 1.0, -2.0]);
    assert_eq!(at(&m, 0, 0), -3.0);
    assert_eq!(at(&m, 0, 1), 5.0);
    assert_eq!(at(&m, 1, 0), 1.0);
    assert_eq!(at(&m, 1, 1), -2.0);
}

#[test]
fn can_represent_3x3_matrix() {
    let m = matrix(3, 3, vec![-3.0, 5.0, 0.0, 1.0, -2.0, -7.0, 0.0, 1.0, 1.0]);
    assert_eq!(at(&m, 0, 0), -3.0);
    assert_eq!(at(&m, 1, 1), -2.0);
    assert_eq!(at(&m, 2, 2), 1.0);
}

#[test]
fn transposing_a_matrix() {
    let m = matrix(
        4,
        4,
        vec![0.0, 9.0, 3.0, 0.0, 9.0, 8.0, 0.0, 8.0, 1.0, 8.0, 5.0, 3.0, 0.0, 0.0, 5.0, 8.0],
    );
    let expected = matrix(
        4,
        4,
        vec![0.0, 9.0, 1.0, 0.0, 9.0, 8.0, 8.0, 0.0, 3.0, 0.0, 5.0, 5.0, 0.0, 8.0, 3.0, 8.0],
    );
    assert!(same_matrix(&m.transpose(), &expected));
}

#[test]
fn transpose_identity() {
    let identity = Matrix::identity_4x4();
    assert!(same_matrix(&identity.transpose(), &identity));
}

#[test]
fn submatrix_of_3x3_is_2x2() {
    let m = matrix(3, 3, vec![1.0, 5.0, 0.0, -3.0, 2.0, 7.0, 0.0, 6.0, -3.0]);
    let expected = matrix(2, 2, vec![-3.0, 2.0, 0.0, 6.0]);
    assert!(same_matrix(&submatrix(&m, 0, 2), &expected));
}

#[test]
fn submatrix_of_4x4_is_3x3() {
    let m = matrix(
        4,
        4,
        vec![-6.0, 1.0, 1.0, 6.0, -8.0, 5.0, 8.0, 6.0, -1.0, 0.0, 8.0, 2.0, -7.0, 1.0, -1.0, 1.0],
    );
    let expected = matrix(3, 3, vec![-6.0, 1.0, 6.0, -8.0, 8.0, 6.0, -7.0, -1.0, 1.0]);
    assert!(same_matrix(&submatrix(&m, 2, 1), &expected));
}

#[test]
fn identity_has_ones_on_the_diagonal() {
    let identity = Matrix::identity_4x4();
    assert_eq!(identity.width(), 4);
    assert_eq!(identity.height(), 4);
    for r in 0..4 {
        for c in 0..4 {
            assert_eq!(at(&identity, r, c), if r == c { 1.0 } else { 0.0 });
        }
    }
}

#[test]
fn transposing_a_matrix_that_is_not_square() {
    let m = matrix(3, 2, vec![1.0, 2.0, 3.0, 4.0, 5.0, 6.0]);
    assert_eq!(m.width(), 3);
    assert_eq!(m.height(), 2);
    let t = m.transpose();
    assert_eq!(t.width(), 2);
    assert_eq!(t.height(), 3);
    assert!(same_matrix(&t, &matrix(2, 3, vec![1.0, 4.0, 2.0, 5.0, 3.0, 6.0])));
    assert!(same_matrix(&t.transpose(), &m));
}

#[test]
fn submatrix_at_the_edges() {
    let m = matrix(3, 3, vec![1.0, 2.0, 3.0, 4.0, 5.0, 6.0, 7.0, 8.0, 9.0]);
    assert!(same_matrix(&submatrix(&m, 0, 0), &matrix(2, 2, vec![5.0, 6.0, 8.0, 9.0])));
    assert!(same_matrix(&submatrix(&m, 2, 2), &matrix(2, 2, vec![1.0, 2.0, 4.0, 5.0])));
    assert!(same_matrix(&submatrix(&m, 1, 1), &matrix(2, 2, vec![1.0, 3.0, 7.0, 9.0])));
    let row = matrix(3, 1, vec![1.0, 2.0, 3.0]);
    let none = submatrix(&row, 0, 1);
    assert_eq!(none.width(), 2);
    assert_eq!(none.height(), 0);
    let one = matrix(1, 1, vec![7.0]);
    let empty = submatrix(&one, 0, 0);
    assert_eq!(empty.width(), 0);
    assert_eq!(empty.height(), 0);
    let wide = matrix(3, 2, vec![1.0, 2.0, 3.0, 4.0, 5.0, 6.0]);
    assert!(same_matrix(&submatrix(&wide, 0, 1), &matrix(2, 1, vec![4.0, 6.0])));
}

#[test]
fn cofactor_sign_alternates() {
    assert_eq!(cofactor_flips(0, 0), false);
    assert_eq!(cofactor_flips(0, 1), true);
    assert_eq!(cofactor_flips(1, 0), true);
    assert_eq!(cofactor_flips(1, 1), false);
    assert_eq!(cofactor_flips(2, 3), true);
    assert_eq!(cofactor_flips(3, 3), false);
    assert_eq!(cofactor_flips(usize::MAX, usize::MAX), false);
    assert_eq!(cofactor_flips(usize::MAX, 0), true);
}
