use linalg3::Matrix3x3;
use linalg3::MatrixAdd;
use linalg3::MatrixMul;
use linalg3::MatrixSub;
use linalg3::Transpose;
use linalg3::Unit;

fn mat(a: [[f32; 3]; 3]) -> Matrix3x3 {
    Matrix3x3 {
        m00: a[0][0].to_bits(),
        m01: a[0][1].to_bits(),
        m02: a[0][2].to_bits(),
        m10: a[1][0].to_bits(),
        m11: a[1][1].to_bits(),
        m12: a[1][2].to_bits(),
        m20: a[2][0].to_bits(),
        m21: a[2][1].to_bits(),
        m22: a[2][2].to_bits(),
    }
}

fn rows(a: &Matrix3x3) -> [[f32; 3]; 3] {
    [
        [
            f32::from_bits(a.m00),
            f32::from_bits(a.m01),
            f32::from_bits(a.m02),
        ],
        [
            f32::from_bits(a.m10),
            f32::from_bits(a.m11),
            f32::from_bits(a.m12),
        ],
        [
            f32::from_bits(a.m20),
            f32::from_bits(a.m21),
            f32::from_bits(a.m22),
        ],
    ]
}

#[test]
fn unit() {
    assert_eq!(
        rows(&Matrix3x3::unit()),
        [[1.0, 0.0, 0.0], [0.0, 1.0, 0.0], [0.0, 0.0, 1.0]]
    )
}

#[test]
fn add() {
    let a = mat([[1.0, 2.0, 3.0], [4.0, 5.0, 6.0], [7.0, 8.0, 9.0]]);
    let b = mat([[1.0, 1.0, 1.0], [1.0, 1.0, 1.0], [1.0, 1.0, 1.0]]);

    assert_eq!(
        rows(&a.add(&b)),
        [[2.0, 3.0, 4.0], [5.0, 6.0, 7.0], [8.0, 9.0, 10.0]]
    )
}

#[test]
fn sub() {
    let a = mat([[1.0, 2.0, 3.0], [4.0, 5.0, 6.0], [7.0, 8.0, 9.0]]);
    let b = mat([[1.0, 1.0, 1.0], [1.0, 1.0, 1.0], [1.0, 1.0, 1.0]]);

    assert_eq!(
        rows(&a.sub(&b)),
        [[0.0, 1.0, 2.0], [3.0, 4.0, 5.0], [6.0, 7.0, 8.0]]
    )
}

#[test]
fn mul() {
    let a = mat([[1.0, 2.0, 3.0], [4.0, 5.0, 6.0], [7.0, 8.0, 9.0]]);
    let b = Matrix3x3::unit();

    assert_eq!(a.mul(&b), a)
}

#[test]
fn transpose() {
    let a = mat([[1.0, 2.0, 3.0], [4.0, 5.0, 6.0], [7.0, 8.0, 9.0]]);
    assert_eq!(
        rows(&a.transpose()),
        [[1.0, 4.0, 7.0], [2.0, 5.0, 8.0], [3.0, 6.0, 9.0]]
    )
}

#[test]
fn mul_identity_left() {
    let a = mat([[0.5, -2.0, 3.25], [4.0, -5.5, 6.0], [7.0, 8.0, -9.75]]);
    assert_eq!(Matrix3x3::unit().mul(&a), a)
}

#[test]
fn mul_identity_right_negative_entries() {
    let a = mat([[-1.5, 2.0, -3.0], [0.25, -5.0, 6.5], [-7.0, 8.0, 9.0]]);
    assert_eq!(a.mul(&Matrix3x3::unit()), a)
}

#[test]
fn mul_general_product() {
    let a = mat([[1.0, 2.0, 3.0], [4.0, 5.0, 6.0], [7.0, 8.0, 9.0]]);
    let b = mat([[9.0, 8.0, 7.0], [6.0, 5.0, 4.0], [3.0, 2.0, 1.0]]);

    assert_eq!(
        rows(&a.mul(&b)),
        [[30.0, 24.0, 18.0], [84.0, 69.0, 54.0], [138.0, 114.0, 90.0]]
    )
}

#[test]
fn add_commutes() {
    let a = mat([[1.5, -2.0, 3.0], [0.125, 5.0, -6.0], [7.0, -8.5, 9.0]]);
    let b = mat([[-0.5, 4.0, 2.5], [3.0, -1.0, 0.75], [-2.0, 6.0, 1.0]]);

    assert_eq!(a.add(&b), b.add(&a))
}

#[test]
fn add_associates_on_exact_sums() {
    let a = mat([[1.0, 2.0, 3.0], [4.0, 5.0, 6.0], [7.0, 8.0, 9.0]]);
    let b = mat([[9.0, 8.0, 7.0], [6.0, 5.0, 4.0], [3.0, 2.0, 1.0]]);
    let c = mat([[1.0, 1.0, 1.0], [1.0, 1.0, 1.0], [1.0, 1.0, 1.0]]);

    assert_eq!(a.add(&b).add(&c), a.add(&b.add(&c)))
}

#[test]
fn transpose_twice_is_identity() {
    let a = mat([[0.1, -2.0, 3.5], [4.0, 5.25, -6.0], [-7.0, 8.0, 9.5]]);
    assert_eq!(a.transpose().transpose(), a)
}

#[test]
fn sub_of_equal_matrices_is_zero() {
    let a = mat([[1.5, -2.0, 3.0], [4.0, 5.0, -6.0], [7.0, 8.5, 9.0]]);
    assert_eq!(
        rows(&a.sub(&a)),
        [[0.0, 0.0, 0.0], [0.0, 0.0, 0.0], [0.0, 0.0, 0.0]]
    )
}
