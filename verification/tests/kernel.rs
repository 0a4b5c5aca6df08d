//! Tests of the dot-product kernel and the vector/matrix value types.

use matlib::{cell_task, dot, Mat3, MatXVec3, Vec3};

fn v(x: f32, y: f32, z: f32) -> Vec3 {
    Vec3::new(x.to_bits(), y.to_bits(), z.to_bits())
}

fn dot_f32(a: [f32; 3], b: [f32; 3]) -> f32 {
    a[0] * b[0] + a[1] * b[1] + a[2] * b[2]
}

#[test]
fn dot_concrete() {
    let r = dot(&v(1.4, 1.2, 4.3), &v(0.5, 0.3, 2.7));
    let expected = dot_f32([1.4, 1.2, 4.3], [0.5, 0.3, 2.7]);
    assert_eq!(r, expected.to_bits());
    assert!((f32::from_bits(r) - 12.67).abs() < 1e-4);
}

#[test]
fn dot_is_not_identity_on_its_inputs() {
    // Catches an arithmetic layer that hands an operand back unchanged.
    let r = dot(&v(2.0, 0.0, 0.0), &v(3.0, 0.0, 0.0));
    assert_eq!(f32::from_bits(r), 6.0);
    let r = dot(&v(1.0, 1.0, 0.0), &v(1.0, 1.0, 0.0));
    assert_eq!(f32::from_bits(r), 2.0);
}

#[test]
fn vec3_new_stores_components() {
    let a = v(1.5, -2.25, 0.75);
    assert_eq!(f32::from_bits(a.x), 1.5);
    assert_eq!(f32::from_bits(a.y), -2.25);
    assert_eq!(f32::from_bits(a.z), 0.75);
}

fn m(vals: [[f32; 3]; 3]) -> Mat3 {
    let mut out = [[0u32; 3]; 3];
    for i in 0..3 {
        for j in 0..3 {
            out[i][j] = vals[i][j].to_bits();
        }
    }
    Mat3 { values: out }
}

#[test]
fn mat_x_vec3_concrete() {
    let mat = m([[1.4, 2.4, 3.1], [1.2, 4.9, 3.0], [0.1, 0.4, 3.7]]);
    let vec = v(2.0, 1.3, 3.2);
    let r = MatXVec3(&mat, &vec);
    assert_eq!(r.x, dot_f32([1.4, 2.4, 3.1], [2.0, 1.3, 3.2]).to_bits());
    assert_eq!(r.y, dot_f32([1.2, 4.9, 3.0], [2.0, 1.3, 3.2]).to_bits());
    assert_eq!(r.z, dot_f32([0.1, 0.4, 3.7], [2.0, 1.3, 3.2]).to_bits());
}

#[test]
fn cell_task_reports_its_coordinates_and_value() {
    let a = m([[1.4, 2.4, 3.1], [1.2, 4.9, 3.0], [0.1, 0.4, 3.7]]);
    let b = m([[2.3, 1.0, 4.2], [1.7, 4.6, 0.4], [6.2, 0.5, 1.0]]);
    let r = cell_task(&a, &b, 1, 2);
    assert_eq!(r.i, 1);
    assert_eq!(r.j, 2);
    assert_eq!(r.val, dot_f32([1.2, 4.9, 3.0], [4.2, 0.4, 1.0]).to_bits());
}

#[test]
fn builders() {
    let id = Mat3::new_identity();
    let empty = Mat3::new_empty();
    let diag = Mat3::new_diag(2.5f32.to_bits());
    let scale = Mat3::new_scale(2.0f32.to_bits(), 1.0f32.to_bits(), 3.7f32.to_bits());
    for i in 0..3 {
        for j in 0..3 {
            assert_eq!(f32::from_bits(id.values[i][j]), if i == j { 1.0 } else { 0.0 });
            assert_eq!(f32::from_bits(empty.values[i][j]), 0.0);
            assert_eq!(f32::from_bits(diag.values[i][j]), if i == j { 2.5 } else { 0.0 });
        }
    }
    assert_eq!(f32::from_bits(scale.values[0][0]), 2.0);
    assert_eq!(f32::from_bits(scale.values[1][1]), 1.0);
    assert_eq!(f32::from_bits(scale.values[2][2]), 3.7);
    assert_eq!(f32::from_bits(scale.values[0][1]), 0.0);
}
