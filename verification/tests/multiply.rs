//! Tests of the multiply engines: the parallel strategies against the
//! sequential oracle, the identity and zero laws, and concrete scenarios.

use matlib::{multiply_sequential, Mat3, MatXMat3, MatXMat3_locked};

fn m(vals: [[f32; 3]; 3]) -> Mat3 {
    let mut out = [[0u32; 3]; 3];
    for i in 0..3 {
        for j in 0..3 {
            out[i][j] = vals[i][j].to_bits();
        }
    }
    Mat3 { values: out }
}

fn mat1() -> Mat3 {
    m([[1.4, 2.4, 3.1], [1.2, 4.9, 3.0], [0.1, 0.4, 3.7]])
}

fn mat2() -> Mat3 {
    m([[2.3, 1.0, 4.2], [1.7, 4.6, 0.4], [6.2, 0.5, 1.0]])
}

/// The oracle, written directly over hardware binary32 arithmetic:
/// an accumulator started at zero, terms added in ascending order.
fn mul_f32(a: &Mat3, b: &Mat3) -> [[f32; 3]; 3] {
    let mut out = [[0.0f32; 3]; 3];
    for i in 0..3 {
        for j in 0..3 {
            let mut sum: f32 = 0.0;
            for k in 0..3 {
                sum = sum + f32::from_bits(a.values[i][k]) * f32::from_bits(b.values[k][j]);
            }
            out[i][j] = sum;
        }
    }
    out
}

fn assert_same(a: &Mat3, b: &Mat3) {
    for i in 0..3 {
        for j in 0..3 {
            assert_eq!(a.values[i][j], b.values[i][j], "cell ({}, {})", i, j);
        }
    }
}

#[test]
fn parallel_equals_sequential() {
    let cases = [
        (mat1(), mat2()),
        (Mat3::new_identity(), mat2()),
        (mat1(), Mat3::new_empty()),
        (m([[0.5, -1.25, 3.5], [2.0, 0.25, -0.75], [1e10, -1e-10, 9.875]]), mat1()),
        (mat2(), m([[-2.3, 1.0, -4.2], [1.7, -4.6, 0.4], [-6.2, 0.5, -1.0]])),
    ];
    for (a, b) in cases.iter() {
        let seq = multiply_sequential(a, b);
        let par = MatXMat3(a, b);
        let locked = MatXMat3_locked(a, b);
        assert_same(&seq, &par);
        assert_same(&seq, &locked);
    }
}

#[test]
fn strategies_agree_across_runs() {
    let a = mat1();
    let b = mat2();
    let first = MatXMat3(&a, &b);
    for _ in 0..10 {
        assert_same(&first, &MatXMat3(&a, &b));
        assert_same(&first, &MatXMat3_locked(&a, &b));
    }
}

#[test]
fn sequential_matches_hardware_oracle() {
    let a = mat1();
    let b = mat2();
    let expected = mul_f32(&a, &b);
    let seq = multiply_sequential(&a, &b);
    for i in 0..3 {
        for j in 0..3 {
            assert_eq!(seq.values[i][j], expected[i][j].to_bits(), "cell ({}, {})", i, j);
        }
    }
}

#[test]
fn identity_law() {
    let a = mat2();
    let left = MatXMat3(&Mat3::new_identity(), &a);
    let right = MatXMat3(&a, &Mat3::new_identity());
    assert_same(&left, &a);
    assert_same(&right, &a);
    let left = MatXMat3_locked(&Mat3::new_identity(), &a);
    let right = MatXMat3_locked(&a, &Mat3::new_identity());
    assert_same(&left, &a);
    assert_same(&right, &a);
}

#[test]
fn zero_law() {
    let a = m([[-2.3, 1.0, -4.2], [1.7, -4.6, 0.4], [-6.2, 0.5, -1.0]]);
    let z = Mat3::new_empty();
    for r in [MatXMat3(&a, &z), MatXMat3(&z, &a), MatXMat3_locked(&a, &z), MatXMat3_locked(&z, &a)]
    {
        for i in 0..3 {
            for j in 0..3 {
                assert_eq!(f32::from_bits(r.values[i][j]), 0.0, "cell ({}, {})", i, j);
            }
        }
    }
}

#[test]
fn identity_times_sample_is_sample() {
    let id = m([[1.0, 0.0, 0.0], [0.0, 1.0, 0.0], [0.0, 0.0, 1.0]]);
    let b = mat2();
    let r = MatXMat3(&id, &b);
    assert_same(&r, &b);
}

#[test]
fn result_is_rows_by_columns() {
    // Cell (i, j) is row i of the first operand dotted with column j of
    // the second; catches a transposed result.
    let a = mat1();
    let b = mat2();
    let r = MatXMat3(&a, &b);
    let cell01 = 1.4f32 * 1.0 + 2.4f32 * 4.6 + 3.1f32 * 0.5;
    assert_eq!(r.values[0][1], cell01.to_bits());
    let cell20 = 0.1f32 * 2.3 + 0.4f32 * 1.7 + 3.7f32 * 6.2;
    assert_eq!(r.values[2][0], cell20.to_bits());
}

#[test]
fn negative_zero_corner() {
    // The one corner where the sequential accumulation differs bitwise
    // from the kernel: a leading product of -0.0 is absorbed by the +0.0
    // accumulator.  The values still compare equal as scalars.
    let a = m([[-1.0, -1.0, -1.0]; 3]);
    let z = Mat3::new_empty();
    let seq = multiply_sequential(&a, &z);
    let par = MatXMat3(&a, &z);
    assert_eq!(seq.values[0][0], 0.0f32.to_bits());
    assert_eq!(par.values[0][0], (-0.0f32).to_bits());
    assert_eq!(f32::from_bits(seq.values[0][0]), f32::from_bits(par.values[0][0]));
}
