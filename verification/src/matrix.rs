//! The vector and matrix value types, the dot-product kernel, and the
//! sequential reference engine.
//!
//! A scalar is an IEEE 754 binary32 bit pattern (`u32`, see [`crate::scalar`]).
//! A [`Vec3`] is three scalars; a [`Mat3`] is a 3-by-3 grid of scalars
//! addressed by (row, column).

use vstd::prelude::*;

use crate::scalar::{
    add_bits, add_scalar, is_finite_bits, is_zero_bits, lemma_zero_bits_consts, lemma_zero_forms,
    mul_bits, mul_scalar, same_value_bits, NEG_ZERO, ONE_BITS, POS_ZERO,
};

verus! {

/// A 3-component vector of binary32 bit patterns.
pub struct Vec3 {
    pub x: u32,
    pub y: u32,
    pub z: u32,
}

impl View for Vec3 {
    type V = Seq<u32>;

    open spec fn view(&self) -> Seq<u32> {
        seq![self.x, self.y, self.z]
    }
}

impl Vec3 {
    /// Construct a vector from its three components.
    pub fn new(x: u32, y: u32, z: u32) -> (v: Vec3)
        ensures
            v@ == seq![x, y, z],
    {
        Vec3 { x, y, z }
    }
}

/// A 3-by-3 matrix of binary32 bit patterns, addressed by (row, column).
#[derive(Copy, Clone)]
pub struct Mat3 {
    pub values: [[u32; 3]; 3],
}

impl View for Mat3 {
    type V = Seq<Seq<u32>>;

    open spec fn view(&self) -> Seq<Seq<u32>> {
        seq![
            seq![self.values[0][0], self.values[0][1], self.values[0][2]],
            seq![self.values[1][0], self.values[1][1], self.values[1][2]],
            seq![self.values[2][0], self.values[2][1], self.values[2][2]],
        ]
    }
}

/// A well-formed matrix model: three rows of three scalars.
pub open spec fn wf_mat(m: Seq<Seq<u32>>) -> bool {
    m.len() == 3 && (forall|i: int| 0 <= i < 3 ==> (#[trigger] m[i]).len() == 3)
}

/// Row `i` of a matrix.
pub open spec fn row(m: Seq<Seq<u32>>, i: int) -> Seq<u32> {
    m[i]
}

/// Column `j` of a matrix.
pub open spec fn col(m: Seq<Seq<u32>>, j: int) -> Seq<u32> {
    seq![m[0][j], m[1][j], m[2][j]]
}

/// The dot product of two 3-component vectors, with the fixed accumulation
/// order of the kernel: `(a0*b0 + a1*b1) + a2*b2`.
pub open spec fn dot_bits(a: Seq<u32>, b: Seq<u32>) -> u32 {
    add_bits(add_bits(mul_bits(a[0], b[0]), mul_bits(a[1], b[1])), mul_bits(a[2], b[2]))
}

/// The accumulator of the sequential engine after `k` terms: it starts at
/// `+0.0` and adds the products in ascending index order.
pub open spec fn accum_bits(a: Seq<u32>, b: Seq<u32>, k: int) -> u32
    decreases k,
{
    if k <= 0 {
        POS_ZERO
    } else {
        add_bits(accum_bits(a, b, k - 1), mul_bits(a[k - 1], b[k - 1]))
    }
}

/// The cell value computed by the sequential engine: all three terms,
/// accumulated from `+0.0` in ascending index order.
pub open spec fn seq_dot_bits(a: Seq<u32>, b: Seq<u32>) -> u32 {
    accum_bits(a, b, 3)
}

/// All three components are finite.
pub open spec fn is_finite3(a: Seq<u32>) -> bool {
    a.len() == 3 && is_finite_bits(a[0]) && is_finite_bits(a[1]) && is_finite_bits(a[2])
}

/// The unit vector with `1.0` at position `j` and `+0.0` elsewhere.
pub open spec fn unit3(j: int) -> Seq<u32> {
    seq![
        if j == 0 { ONE_BITS } else { POS_ZERO },
        if j == 1 { ONE_BITS } else { POS_ZERO },
        if j == 2 { ONE_BITS } else { POS_ZERO },
    ]
}

/// The vector of three `+0.0` components.
pub open spec fn zero3() -> Seq<u32> {
    seq![POS_ZERO, POS_ZERO, POS_ZERO]
}

/// The identity- and zero-operand laws of a dot-product kernel result `r`
/// on operands `a` and `b`: dotting a finite vector with a unit vector
/// yields the selected component (up to the sign of a zero), and dotting a
/// finite vector with the zero vector yields a zero.
pub open spec fn kernel_laws(a: Seq<u32>, b: Seq<u32>, r: u32) -> bool {
    &&& (is_finite3(a) && b == unit3(0) ==> same_value_bits(r, a[0]))
    &&& (is_finite3(a) && b == unit3(1) ==> same_value_bits(r, a[1]))
    &&& (is_finite3(a) && b == unit3(2) ==> same_value_bits(r, a[2]))
    &&& (a == unit3(0) && is_finite3(b) ==> same_value_bits(r, b[0]))
    &&& (a == unit3(1) && is_finite3(b) ==> same_value_bits(r, b[1]))
    &&& (a == unit3(2) && is_finite3(b) ==> same_value_bits(r, b[2]))
    &&& (is_finite3(a) && b == zero3() ==> is_zero_bits(r))
    &&& (a == zero3() && is_finite3(b) ==> is_zero_bits(r))
}

/// The dot-product kernel: the unit of work of one cell task.
///
/// The result is exactly the kernel value `(x*x' + y*y') + z*z'`, and it
/// obeys the unit- and zero-vector laws.
pub fn dot(vec1: &Vec3, vec2: &Vec3) -> (r: u32)
    ensures
        r == dot_bits(vec1@, vec2@),
        kernel_laws(vec1@, vec2@, r),
{
    let t0 = mul_scalar(vec1.x, vec2.x);
    let t1 = mul_scalar(vec1.y, vec2.y);
    let t2 = mul_scalar(vec1.z, vec2.z);
    let s = add_scalar(t0, t1);
    let r = add_scalar(s, t2);
    proof {
        lemma_zero_bits_consts();
    }
    r
}

impl Mat3 {
    /// Construct a diagonal matrix: `val` on the diagonal, `+0.0` elsewhere.
    pub fn new_diag(val: u32) -> (m: Mat3)
        ensures
            m@ == seq![
                seq![val, POS_ZERO, POS_ZERO],
                seq![POS_ZERO, val, POS_ZERO],
                seq![POS_ZERO, POS_ZERO, val],
            ],
    {
        Mat3 {
            values: [
                [val, POS_ZERO, POS_ZERO],
                [POS_ZERO, val, POS_ZERO],
                [POS_ZERO, POS_ZERO, val],
            ],
        }
    }

    /// Construct the identity matrix.
    pub fn new_identity() -> (m: Mat3)
        ensures
            m@ == identity3(),
    {
        let m = Mat3::new_diag(ONE_BITS);
        proof {
            assert(m@[0] =~= unit3(0));
            assert(m@[1] =~= unit3(1));
            assert(m@[2] =~= unit3(2));
            assert(m@ =~= identity3());
        }
        m
    }

    /// Construct a scaling matrix: the three factors on the diagonal.
    pub fn new_scale(sx: u32, sy: u32, sz: u32) -> (m: Mat3)
        ensures
            m@ == seq![
                seq![sx, POS_ZERO, POS_ZERO],
                seq![POS_ZERO, sy, POS_ZERO],
                seq![POS_ZERO, POS_ZERO, sz],
            ],
    {
        Mat3 {
            values: [
                [sx, POS_ZERO, POS_ZERO],
                [POS_ZERO, sy, POS_ZERO],
                [POS_ZERO, POS_ZERO, sz],
            ],
        }
    }

    /// Construct the all-zero matrix.
    pub fn new_empty() -> (m: Mat3)
        ensures
            m@ == zero_mat3(),
    {
        let m = Mat3::new_diag(POS_ZERO);
        proof {
            assert(m@[0] =~= zero3());
            assert(m@[1] =~= zero3());
            assert(m@[2] =~= zero3());
            assert(m@ =~= zero_mat3());
        }
        m
    }
}

/// Extract row `i` of a matrix as an independent value copy.
pub fn row_of(mat: &Mat3, i: usize) -> (v: Vec3)
    requires
        i < 3,
    ensures
        v@ == row(mat@, i as int),
{
    let v = Vec3::new(mat.values[i][0], mat.values[i][1], mat.values[i][2]);
    proof {
        assert(v@ =~= row(mat@, i as int));
    }
    v
}

/// Extract column `j` of a matrix as an independent value copy.
pub fn col_of(mat: &Mat3, j: usize) -> (v: Vec3)
    requires
        j < 3,
    ensures
        v@ == col(mat@, j as int),
{
    let v = Vec3::new(mat.values[0][j], mat.values[1][j], mat.values[2][j]);
    proof {
        assert(v@ =~= col(mat@, j as int));
    }
    v
}

/// Multiply a matrix by a vector: each result component is one row of the
/// matrix dotted with the vector.
#[allow(non_snake_case)]
pub fn MatXVec3(mat: &Mat3, vec: &Vec3) -> (result: Vec3)
    ensures
        result.x == dot_bits(row(mat@, 0), vec@),
        result.y == dot_bits(row(mat@, 1), vec@),
        result.z == dot_bits(row(mat@, 2), vec@),
{
    let mvec1 = row_of(mat, 0);
    let mvec2 = row_of(mat, 1);
    let mvec3 = row_of(mat, 2);
    Vec3::new(dot(&mvec1, vec), dot(&mvec2, vec), dot(&mvec3, vec))
}

/// The value of cell (`i`, `j`) of the product, as every cell task
/// computes it: row `i` of `m1` dotted with column `j` of `m2`.
pub open spec fn cell_bits(m1: Seq<Seq<u32>>, m2: Seq<Seq<u32>>, i: int, j: int) -> u32 {
    dot_bits(row(m1, i), col(m2, j))
}

/// The product matrix, cell by cell, as the parallel engine computes it.
pub open spec fn mat_mul_bits(m1: Seq<Seq<u32>>, m2: Seq<Seq<u32>>) -> Seq<Seq<u32>> {
    Seq::new(3, |i: int| Seq::new(3, |j: int| cell_bits(m1, m2, i, j)))
}

/// The value of cell (`i`, `j`) of the product as the sequential engine
/// computes it, with its accumulator started at `+0.0`.
pub open spec fn seq_cell_bits(m1: Seq<Seq<u32>>, m2: Seq<Seq<u32>>, i: int, j: int) -> u32 {
    seq_dot_bits(row(m1, i), col(m2, j))
}

/// The product matrix as the sequential engine computes it.
pub open spec fn mat_mul_seq_bits(m1: Seq<Seq<u32>>, m2: Seq<Seq<u32>>) -> Seq<Seq<u32>> {
    Seq::new(3, |i: int| Seq::new(3, |j: int| seq_cell_bits(m1, m2, i, j)))
}

/// Every cell of the matrix is finite.
pub open spec fn mat_finite(m: Seq<Seq<u32>>) -> bool {
    wf_mat(m) && (forall|i: int| 0 <= i < 3 ==> is_finite3(#[trigger] m[i]))
}

/// The identity matrix model: rows are the three unit vectors.
pub open spec fn identity3() -> Seq<Seq<u32>> {
    seq![unit3(0), unit3(1), unit3(2)]
}

/// The zero matrix model: all cells `+0.0`.
pub open spec fn zero_mat3() -> Seq<Seq<u32>> {
    seq![zero3(), zero3(), zero3()]
}

/// The two matrices agree cell for cell under IEEE 754 equality (equal bit
/// patterns, or zeros of either sign).
pub open spec fn mat_same_value(a: Seq<Seq<u32>>, b: Seq<Seq<u32>>) -> bool {
    forall|i: int, j: int|
        0 <= i < 3 && 0 <= j < 3 ==> same_value_bits(#[trigger] a[i][j], b[i][j])
}

/// Every cell of the matrix is a zero (of either sign).
pub open spec fn mat_zero(a: Seq<Seq<u32>>) -> bool {
    forall|i: int, j: int| 0 <= i < 3 && 0 <= j < 3 ==> is_zero_bits(#[trigger] a[i][j])
}

/// The identity and zero laws of a product `r` of `m1` and `m2`:
/// multiplying a finite matrix by the identity gives the matrix back, and
/// multiplying a finite matrix by the zero matrix gives a matrix of zeros
/// (both under IEEE 754 equality, which ignores the sign of a zero).
pub open spec fn mul_laws(m1: Seq<Seq<u32>>, m2: Seq<Seq<u32>>, r: Seq<Seq<u32>>) -> bool {
    &&& (mat_finite(m1) && m2 == identity3() ==> mat_same_value(r, m1))
    &&& (m1 == identity3() && mat_finite(m2) ==> mat_same_value(r, m2))
    &&& (mat_finite(m1) && m2 == zero_mat3() ==> mat_zero(r))
    &&& (m1 == zero_mat3() && mat_finite(m2) ==> mat_zero(r))
}

/// Column `j` of the identity matrix is the unit vector `j`.
proof fn lemma_identity_col(j: int)
    requires
        0 <= j < 3,
    ensures
        col(identity3(), j) == unit3(j),
{
    assert(col(identity3(), j) =~= unit3(j));
}

/// Column `j` of the zero matrix is the zero vector.
proof fn lemma_zero_col(j: int)
    requires
        0 <= j < 3,
    ensures
        col(zero_mat3(), j) == zero3(),
{
    assert(col(zero_mat3(), j) =~= zero3());
}

/// A column of a finite matrix is finite.
proof fn lemma_finite_col(m: Seq<Seq<u32>>, j: int)
    requires
        mat_finite(m),
        0 <= j < 3,
    ensures
        is_finite3(col(m, j)),
{
}

/// The identity and zero laws of the product follow from the kernel laws
/// holding of every cell.
pub proof fn lemma_mul_laws(m1: Seq<Seq<u32>>, m2: Seq<Seq<u32>>, r: Seq<Seq<u32>>)
    requires
        wf_mat(m1),
        wf_mat(m2),
        wf_mat(r),
        forall|i: int, j: int|
            0 <= i < 3 && 0 <= j < 3 ==> kernel_laws(row(m1, i), col(m2, j), #[trigger] r[i][j]),
    ensures
        mul_laws(m1, m2, r),
{
    if mat_finite(m1) && m2 == identity3() {
        assert forall|i: int, j: int| 0 <= i < 3 && 0 <= j < 3 implies same_value_bits(
            #[trigger] r[i][j],
            m1[i][j],
        ) by {
            lemma_identity_col(j);
        }
    }
    if m1 == identity3() && mat_finite(m2) {
        assert forall|i: int, j: int| 0 <= i < 3 && 0 <= j < 3 implies same_value_bits(
            #[trigger] r[i][j],
            m2[i][j],
        ) by {
            lemma_finite_col(m2, j);
            assert(row(m1, i) == unit3(i));
            assert(col(m2, j)[i] == m2[i][j]);
        }
    }
    if mat_finite(m1) && m2 == zero_mat3() {
        assert forall|i: int, j: int| 0 <= i < 3 && 0 <= j < 3 implies is_zero_bits(
            #[trigger] r[i][j],
        ) by {
            lemma_zero_col(j);
        }
    }
    if m1 == zero_mat3() && mat_finite(m2) {
        assert forall|i: int, j: int| 0 <= i < 3 && 0 <= j < 3 implies is_zero_bits(
            #[trigger] r[i][j],
        ) by {
            lemma_finite_col(m2, j);
            assert(row(m1, i) == zero3());
        }
    }
}

/// No cell's leading product term is `-0.0`.  This is the one corner in
/// which the sequential accumulation, whose accumulator starts at `+0.0`,
/// can differ bitwise from the kernel's three-term sum: `+0.0 + -0.0` is
/// `+0.0`, not `-0.0`.
pub open spec fn no_neg_zero_lead(m1: Seq<Seq<u32>>, m2: Seq<Seq<u32>>) -> bool {
    forall|i: int, j: int|
        0 <= i < 3 && 0 <= j < 3 ==> #[trigger] mul_bits(m1[i][0], m2[0][j]) != NEG_ZERO
}

/// One cell of the sequential engine: an explicit accumulator, started at
/// `+0.0`, adding the three products in ascending index order.
///
/// The result is exactly the sequential accumulation; it obeys the kernel
/// laws; and whenever both operands are finite and the leading product is
/// not `-0.0`, it is bitwise the kernel value as well.
pub fn cell_sequential(a: &Vec3, b: &Vec3) -> (r: u32)
    ensures
        r == seq_dot_bits(a@, b@),
        kernel_laws(a@, b@, r),
        is_finite3(a@) && is_finite3(b@) && mul_bits(a@[0], b@[0]) != NEG_ZERO ==> r
            == dot_bits(a@, b@),
{
    let mut sum: u32 = POS_ZERO;
    sum = add_scalar(sum, mul_scalar(a.x, b.x));
    sum = add_scalar(sum, mul_scalar(a.y, b.y));
    sum = add_scalar(sum, mul_scalar(a.z, b.z));
    proof {
        lemma_zero_bits_consts();
        assert(accum_bits(a@, b@, 0) == POS_ZERO);
        assert(accum_bits(a@, b@, 1) == add_bits(accum_bits(a@, b@, 0), mul_bits(a@[0], b@[0])));
        assert(accum_bits(a@, b@, 2) == add_bits(accum_bits(a@, b@, 1), mul_bits(a@[1], b@[1])));
        assert(accum_bits(a@, b@, 3) == add_bits(accum_bits(a@, b@, 2), mul_bits(a@[2], b@[2])));
        if is_finite3(a@) && is_finite3(b@) && mul_bits(a@[0], b@[0]) != NEG_ZERO {
            if is_zero_bits(mul_bits(a@[0], b@[0])) {
                lemma_zero_forms(mul_bits(a@[0], b@[0]));
            }
        }
    }
    sum
}

/// Assemble a matrix from nine cell values in row-major order.
pub fn mat_from_cells(cells: &Vec<u32>) -> (m: Mat3)
    requires
        cells@.len() == 9,
    ensures
        wf_mat(m@),
        forall|i: int, j: int| 0 <= i < 3 && 0 <= j < 3 ==> #[trigger] m@[i][j] == cells@[3 * i + j],
{
    Mat3 {
        values: [
            [cells[0], cells[1], cells[2]],
            [cells[3], cells[4], cells[5]],
            [cells[6], cells[7], cells[8]],
        ],
    }
}

/// The sequential reference engine: for each row `i` and column `j`, cell
/// (`i`, `j`) of the result is the three products accumulated in ascending
/// order from a `+0.0` accumulator.  It is the oracle the parallel engine
/// is proved against: wherever no leading product term is `-0.0` (and the
/// inputs are finite), its result is bitwise the parallel engine's.
pub fn multiply_sequential(mat1: &Mat3, mat2: &Mat3) -> (result: Mat3)
    ensures
        result@ == mat_mul_seq_bits(mat1@, mat2@),
        mul_laws(mat1@, mat2@, result@),
        mat_finite(mat1@) && mat_finite(mat2@) && no_neg_zero_lead(mat1@, mat2@) ==> result@
            == mat_mul_bits(mat1@, mat2@),
{
    let mut cells: Vec<u32> = Vec::new();
    let mut k: usize = 0;
    while k < 9
        invariant
            k <= 9,
            cells@.len() == k,
            forall|m: int|
                0 <= m < k ==> #[trigger] cells@[m] == seq_cell_bits(
                    mat1@,
                    mat2@,
                    m / 3,
                    m % 3,
                ),
            forall|m: int|
                0 <= m < k ==> kernel_laws(
                    row(mat1@, m / 3),
                    col(mat2@, m % 3),
                    #[trigger] cells@[m],
                ),
            forall|m: int|
                0 <= m < k ==> (is_finite3(row(mat1@, m / 3)) && is_finite3(col(mat2@, m % 3))
                    && mul_bits(mat1@[m / 3][0], mat2@[0][m % 3]) != NEG_ZERO
                    ==> #[trigger] cells@[m] == cell_bits(mat1@, mat2@, m / 3, m % 3)),
        decreases 9 - k,
    {
        let i = k / 3;
        let j = k % 3;
        let rv = row_of(mat1, i);
        let cv = col_of(mat2, j);
        let v = cell_sequential(&rv, &cv);
        cells.push(v);
        k = k + 1;
    }
    let result = mat_from_cells(&cells);
    proof {
        assert(result@ =~~= mat_mul_seq_bits(mat1@, mat2@));
        lemma_mul_laws(mat1@, mat2@, result@);
        if mat_finite(mat1@) && mat_finite(mat2@) && no_neg_zero_lead(mat1@, mat2@) {
            assert forall|i: int| 0 <= i < 3 implies is_finite3(col(mat2@, i)) by {
                lemma_finite_col(mat2@, i);
            }
            assert(result@ =~~= mat_mul_bits(mat1@, mat2@));
        }
    }
    result
}

} // verus!
