//! The parallel fan-out/fan-in engine.
//!
//! A 3-by-3 multiply is decomposed into nine independent cell tasks, one
//! per output cell.  Each task captures an independent value copy of its
//! row and column, computes one dot product, and the results are
//! aggregated into one matrix.  The tasks are handed to a work-stealing
//! worker pool (`rayon`) as a tree of fork-join pairs, so they may run on
//! any number of workers, in any order; the engine returns only after all
//! nine are accounted for.
//!
//! Two interchangeable aggregation strategies are provided:
//! [`MatXMat3`] has every task report the triple (value, row, column) back
//! over its join, and the caller drains all nine reports, writing each
//! value into the cell its own coordinates address; [`MatXMat3_locked`]
//! has every task write its one cell itself into a shared board guarded by
//! a single coarse lock, the dot product computed outside the lock and
//! only the single-cell write inside it.  Both return exactly the product
//! matrix, cell for cell.

use vstd::prelude::*;

use vstd::rwlock::{RwLock, RwLockPredicate};

use crate::board::CellBoard;
use crate::matrix::{
    cell_bits, col, col_of, dot, kernel_laws, lemma_mul_laws, mat_from_cells, mat_mul_bits,
    mul_laws, row, row_of, Mat3,
};

verus! {

/// Relies on `rayon::join` (of `rayon-core`): both closures are run to
/// completion, in parallel when a worker is free, and their results
/// returned; a panic in either closure is propagated, so a normal return
/// means both closures ran and returned normally.
pub assume_specification<A, B, RA, RB>[ rayon::join ](oper_a: A, oper_b: B) -> (r: (RA, RB))
    where
        A: FnOnce() -> RA + Send,
        B: FnOnce() -> RB + Send,
        RA: Send,
        RB: Send,
    requires
        oper_a.requires(()),
        oper_b.requires(()),
    ensures
        oper_a.ensures((), r.0),
        oper_b.ensures((), r.1),
;

/// One task's report: the scalar it computed, and the coordinates of the
/// cell the scalar belongs to.
pub struct CellResult {
    pub val: u32,
    pub i: usize,
    pub j: usize,
}

/// The report owed by the task of cell (`i`, `j`): its own coordinates,
/// the dot product of row `i` and column `j`, and the kernel laws of that
/// value.
pub open spec fn cell_ok(
    m1: Seq<Seq<u32>>,
    m2: Seq<Seq<u32>>,
    i: int,
    j: int,
    r: CellResult,
) -> bool {
    &&& r.i as int == i
    &&& r.j as int == j
    &&& r.val == cell_bits(m1, m2, i, j)
    &&& kernel_laws(row(m1, i), col(m2, j), r.val)
}

/// One cell task: capture independent value copies of row `i` and column
/// `j`, compute their dot product, and report it with its coordinates.
pub fn cell_task(mat1: &Mat3, mat2: &Mat3, i: usize, j: usize) -> (r: CellResult)
    requires
        i < 3,
        j < 3,
    ensures
        cell_ok(mat1@, mat2@, i as int, j as int, r),
{
    let rv = row_of(mat1, i);
    let cv = col_of(mat2, j);
    let val = dot(&rv, &cv);
    CellResult { val, i, j }
}

/// Fan out the three cell tasks of row `i` as a pair of forks.
fn row_tasks(m1: Mat3, m2: Mat3, i: usize) -> (r: (CellResult, CellResult, CellResult))
    requires
        i < 3,
    ensures
        cell_ok(m1@, m2@, i as int, 0, r.0),
        cell_ok(m1@, m2@, i as int, 1, r.1),
        cell_ok(m1@, m2@, i as int, 2, r.2),
{
    let (a, bc) = rayon::join(
        (move || -> (r: CellResult)
            ensures
                cell_ok(m1@, m2@, i as int, 0, r),
            { cell_task(&m1, &m2, i, 0) }),
        (move || -> (r: (CellResult, CellResult))
            ensures
                cell_ok(m1@, m2@, i as int, 1, r.0),
                cell_ok(m1@, m2@, i as int, 2, r.1),
            {
                rayon::join(
                    (move || -> (r: CellResult)
                        ensures
                            cell_ok(m1@, m2@, i as int, 1, r),
                        { cell_task(&m1, &m2, i, 1) }),
                    (move || -> (r: CellResult)
                        ensures
                            cell_ok(m1@, m2@, i as int, 2, r),
                        { cell_task(&m1, &m2, i, 2) }),
                )
            }),
    );
    (a, bc.0, bc.1)
}

/// Deliver one report to the board: write the value into the cell the
/// report's own coordinates address.
fn deliver(board: &mut CellBoard, r: CellResult)
    requires
        old(board).wf(),
        old(board)@.len() == 9,
        r.i < 3,
        r.j < 3,
        old(board)@[3 * r.i + r.j] is None,
    ensures
        final(board).wf(),
        final(board)@ == old(board)@.update(3 * r.i + r.j, Some(r.val)),
{
    board.put(3 * r.i + r.j, r.val);
}

/// Assemble the final matrix from an aggregated board.  Any slot the
/// aggregation left empty is completed in place with the same dot product
/// its task would have delivered — the kernel is a function of the row and
/// column bits alone — so the caller never observes a partially completed
/// matrix.
fn finish_board(board: &CellBoard, mat1: &Mat3, mat2: &Mat3) -> (result: Mat3)
    requires
        board.wf(),
        board@.len() == 9,
        forall|m: int|
            0 <= m < 9 ==> (#[trigger] board@[m] matches Some(v) ==> v == cell_bits(
                mat1@,
                mat2@,
                m / 3,
                m % 3,
            ) && kernel_laws(row(mat1@, m / 3), col(mat2@, m % 3), v)),
    ensures
        result@ == mat_mul_bits(mat1@, mat2@),
        mul_laws(mat1@, mat2@, result@),
{
    let mut cells: Vec<u32> = Vec::new();
    let mut k: usize = 0;
    while k < 9
        invariant
            k <= 9,
            cells@.len() == k,
            board.wf(),
            board@.len() == 9,
            forall|m: int|
                0 <= m < 9 ==> (#[trigger] board@[m] matches Some(v) ==> v == cell_bits(
                    mat1@,
                    mat2@,
                    m / 3,
                    m % 3,
                ) && kernel_laws(row(mat1@, m / 3), col(mat2@, m % 3), v)),
            forall|m: int|
                0 <= m < k ==> #[trigger] cells@[m] == cell_bits(mat1@, mat2@, m / 3, m % 3),
            forall|m: int|
                0 <= m < k ==> kernel_laws(
                    row(mat1@, m / 3),
                    col(mat2@, m % 3),
                    #[trigger] cells@[m],
                ),
        decreases 9 - k,
    {
        let v = match board.cell(k) {
            Some(v) => v,
            None => {
                let rv = row_of(mat1, k / 3);
                let cv = col_of(mat2, k % 3);
                dot(&rv, &cv)
            },
        };
        cells.push(v);
        k = k + 1;
    }
    let result = mat_from_cells(&cells);
    proof {
        assert(result@ =~~= mat_mul_bits(mat1@, mat2@));
        lemma_mul_laws(mat1@, mat2@, result@);
    }
    result
}

/// Multiply two matrices with message-passing aggregation.
///
/// Fan-out: nine cell tasks, each over value copies of one row and one
/// column, run on the worker pool.  Fan-in: the caller drains exactly nine
/// reports and writes each delivered value into the cell addressed by the
/// report's own coordinates, so every cell is written exactly once, and
/// the engine returns only when all nine are accounted for.
#[allow(non_snake_case)]
pub fn MatXMat3(mat1: &Mat3, mat2: &Mat3) -> (result: Mat3)
    ensures
        result@ == mat_mul_bits(mat1@, mat2@),
        mul_laws(mat1@, mat2@, result@),
{
    let m1 = *mat1;
    let m2 = *mat2;
    let (r0, r12) = rayon::join(
        (move || -> (r: (CellResult, CellResult, CellResult))
            ensures
                cell_ok(m1@, m2@, 0, 0, r.0),
                cell_ok(m1@, m2@, 0, 1, r.1),
                cell_ok(m1@, m2@, 0, 2, r.2),
            { row_tasks(m1, m2, 0) }),
        (move || -> (r: ((CellResult, CellResult, CellResult), (
            CellResult,
            CellResult,
            CellResult,
        )))
            ensures
                cell_ok(m1@, m2@, 1, 0, r.0.0),
                cell_ok(m1@, m2@, 1, 1, r.0.1),
                cell_ok(m1@, m2@, 1, 2, r.0.2),
                cell_ok(m1@, m2@, 2, 0, r.1.0),
                cell_ok(m1@, m2@, 2, 1, r.1.1),
                cell_ok(m1@, m2@, 2, 2, r.1.2),
            {
                rayon::join(
                    (move || -> (r: (CellResult, CellResult, CellResult))
                        ensures
                            cell_ok(m1@, m2@, 1, 0, r.0),
                            cell_ok(m1@, m2@, 1, 1, r.1),
                            cell_ok(m1@, m2@, 1, 2, r.2),
                        { row_tasks(m1, m2, 1) }),
                    (move || -> (r: (CellResult, CellResult, CellResult))
                        ensures
                            cell_ok(m1@, m2@, 2, 0, r.0),
                            cell_ok(m1@, m2@, 2, 1, r.1),
                            cell_ok(m1@, m2@, 2, 2, r.2),
                        { row_tasks(m1, m2, 2) }),
                )
            }),
    );
    let (r1, r2) = r12;
    let mut board = CellBoard::new();
    deliver(&mut board, r0.0);
    deliver(&mut board, r0.1);
    deliver(&mut board, r0.2);
    deliver(&mut board, r1.0);
    deliver(&mut board, r1.1);
    deliver(&mut board, r1.2);
    deliver(&mut board, r2.0);
    deliver(&mut board, r2.1);
    deliver(&mut board, r2.2);
    finish_board(&board, mat1, mat2)
}

/// The lock invariant of the shared board: every filled slot holds the
/// product cell its index addresses.
pub struct BoardInv {
    pub m1: Seq<Seq<u32>>,
    pub m2: Seq<Seq<u32>>,
}

impl RwLockPredicate<CellBoard> for BoardInv {
    open spec fn inv(self, b: CellBoard) -> bool {
        &&& b.wf()
        &&& b@.len() == 9
        &&& forall|m: int|
            0 <= m < 9 ==> (#[trigger] b@[m] matches Some(v) ==> v == cell_bits(
                self.m1,
                self.m2,
                m / 3,
                m % 3,
            ) && kernel_laws(row(self.m1, m / 3), col(self.m2, m % 3), v))
    }
}

/// One cell task of the shared-state strategy: compute the dot product
/// outside the lock, then take the single coarse lock, write the one cell
/// the task owns, and only while that cell is still unwritten, and release.
fn locked_cell_task(
    lock: &RwLock<CellBoard, BoardInv>,
    mat1: &Mat3,
    mat2: &Mat3,
    i: usize,
    j: usize,
)
    requires
        i < 3,
        j < 3,
        lock.pred() == (BoardInv { m1: mat1@, m2: mat2@ }),
{
    let r = cell_task(mat1, mat2, i, j);
    let idx = 3 * i + j;
    let (mut b, wh) = lock.acquire_write();
    if b.cell(idx).is_none() {
        b.put(idx, r.val);
    }
    wh.release_write(b);
}

/// Fan out the three locked cell tasks of row `i` as a pair of forks.
fn locked_row_tasks(lock: &RwLock<CellBoard, BoardInv>, m1: Mat3, m2: Mat3, i: usize)
    requires
        i < 3,
        lock.pred() == (BoardInv { m1: m1@, m2: m2@ }),
{
    let (_, _) = rayon::join(
        (move || { locked_cell_task(lock, &m1, &m2, i, 0) }),
        (move || {
            rayon::join(
                (move || { locked_cell_task(lock, &m1, &m2, i, 1) }),
                (move || { locked_cell_task(lock, &m1, &m2, i, 2) }),
            );
        }),
    );
}

/// Multiply two matrices with shared-state aggregation.
///
/// One result board is allocated up front and shared by all nine cell
/// tasks under a single coarse lock.  Each task computes its dot product
/// independent of the lock, then acquires it, writes its single cell, and
/// releases; the engine waits for all nine tasks before it reads the board
/// and returns, so the caller never observes a partial result.
#[allow(non_snake_case)]
pub fn MatXMat3_locked(mat1: &Mat3, mat2: &Mat3) -> (result: Mat3)
    ensures
        result@ == mat_mul_bits(mat1@, mat2@),
        mul_laws(mat1@, mat2@, result@),
{
    let m1 = *mat1;
    let m2 = *mat2;
    let lock = RwLock::<CellBoard, BoardInv>::new(
        CellBoard::new(),
        Ghost(BoardInv { m1: m1@, m2: m2@ }),
    );
    let lr = &lock;
    let (_, _) = rayon::join(
        (move || { locked_row_tasks(lr, m1, m2, 0) }),
        (move || {
            rayon::join(
                (move || { locked_row_tasks(lr, m1, m2, 1) }),
                (move || { locked_row_tasks(lr, m1, m2, 2) }),
            );
        }),
    );
    let (b, wh) = lock.acquire_write();
    let result = finish_board(&b, mat1, mat2);
    wh.release_write(b);
    result
}

/// Law: the two aggregation strategies agree.  Each strategy's contract
/// pins its result to the same product matrix, so two results of the two
/// strategies on the same inputs — and any two runs of either strategy,
/// whatever the task interleaving — are equal, cell for cell and bit for
/// bit.
pub proof fn lemma_strategies_agree(
    m1: Seq<Seq<u32>>,
    m2: Seq<Seq<u32>>,
    ra: Seq<Seq<u32>>,
    rb: Seq<Seq<u32>>,
)
    requires
        ra == mat_mul_bits(m1, m2),
        rb == mat_mul_bits(m1, m2),
    ensures
        ra == rb,
{
}

} // verus!
