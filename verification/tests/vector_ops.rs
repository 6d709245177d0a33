use linalg3::Matrix3x3;
use linalg3::MatrixMul;
use linalg3::Unit;
use linalg3::Vec3;
use linalg3::Vector;

fn vec3(a: [f32; 3]) -> Vec3 {
    Vec3 {
        x: a[0].to_bits(),
        y: a[1].to_bits(),
        z: a[2].to_bits(),
    }
}

fn comps(v: &Vec3) -> [f32; 3] {
    [
        f32::from_bits(v.x),
        f32::from_bits(v.y),
        f32::from_bits(v.z),
    ]
}

#[test]
fn matrix_vec_mul() {
    let a = Matrix3x3::unit();
    let b = vec3([1.0, 2.0, 3.0]);

    assert_eq!(b, a.mul(&b))
}

#[test]
fn mod_matrix_vec_mul() {
    let a = Matrix3x3::unit();
    let b = vec3([1.0, 2.0, 3.0]);

    assert_eq!(b, a.mul(&b))
}

#[test]
fn length() {
    assert_eq!(
        14.0f32.sqrt(),
        f32::from_bits(vec3([1.0, 2.0, 3.0]).length())
    )
}

#[test]
fn mod_unit() {
    let l = vec3([1283.0, 63231.1, 84351.9]).unit().length();
    assert!(1.0 - f32::from_bits(l) < 0.00001)
}

#[test]
fn accessors() {
    let v = vec3([1.5, -2.0, 3.25]);
    assert_eq!(f32::from_bits(v.x()), 1.5);
    assert_eq!(f32::from_bits(v.y()), -2.0);
    assert_eq!(f32::from_bits(v.z()), 3.25);
}

#[test]
fn length_of_zero_vector_is_zero() {
    assert_eq!(f32::from_bits(vec3([0.0, 0.0, 0.0]).length()), 0.0)
}

#[test]
fn unit_of_zero_vector_is_nan() {
    let u = vec3([0.0, 0.0, 0.0]).unit();
    let c = comps(&u);
    assert!(c[0].is_nan() && c[1].is_nan() && c[2].is_nan())
}

#[test]
fn unit_keeps_direction() {
    let u = vec3([3.0, 0.0, 4.0]).unit();
    assert_eq!(comps(&u), [0.6, 0.0, 0.8])
}

#[test]
fn add_vec_componentwise() {
    let v = vec3([1.0, 2.0, 3.0]);
    let w = vec3([0.5, -1.0, 2.25]);
    assert_eq!(comps(&v.add_vec(&w)), [1.5, 1.0, 5.25]);
    assert_eq!(v.add_vec(&w), w.add_vec(&v));
}

#[test]
fn sub_vec_componentwise() {
    let v = vec3([1.0, 2.0, 3.0]);
    let w = vec3([0.5, -1.0, 2.25]);
    assert_eq!(comps(&v.sub_vec(&w)), [0.5, 3.0, 0.75])
}

#[test]
fn scalar_add_sub_mul() {
    let v = vec3([1.0, -2.0, 3.0]);
    assert_eq!(comps(&v.add(1.5f32.to_bits())), [2.5, -0.5, 4.5]);
    assert_eq!(comps(&v.sub(1.5f32.to_bits())), [-0.5, -3.5, 1.5]);
    assert_eq!(comps(&v.mul(2.0f32.to_bits())), [2.0, -4.0, 6.0]);
}

#[test]
fn scalar_div_is_true_division() {
    let v = vec3([8.0, 4.0, 2.0]);
    let s = 2.0f32.to_bits();
    assert_eq!(comps(&v.div(s)), [4.0, 2.0, 1.0]);
    assert_ne!(comps(&v.div(s)), [6.0, 2.0, 0.0]);
}

#[test]
fn matrix_vec_mul_general() {
    let a = mat_rows([[1.0, 2.0, 3.0], [4.0, 5.0, 6.0], [7.0, 8.0, 9.0]]);
    let v = vec3([1.0, 2.0, 3.0]);
    assert_eq!(comps(&a.mul(&v)), [14.0, 32.0, 50.0])
}

fn mat_rows(a: [[f32; 3]; 3]) -> Matrix3x3 {
    Matrix3x3 {
        m00: a[0][0].to_bits(),
        m01: a[0][1].to_bits(),
        m02: a[0][2].to_bits(),
        m10: a[1][0].to_bits(),
        m11: a[1][1].to_bits(),
        m12: a[1][2].to_bits(),
        m20: a[2][0].to_bits(),
        m21: a[2][1].to_bits(),
        m22: a[2][2].to_bits(),
    }
}
