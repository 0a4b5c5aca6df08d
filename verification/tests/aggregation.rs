//! Tests of the aggregation board and of the engine's liveness: repeated
//! parallel multiplies all complete, and every cell is written exactly once.

use matlib::board::CellBoard;
use matlib::{Mat3, MatXMat3, MatXMat3_locked};

fn m(vals: [[f32; 3]; 3]) -> Mat3 {
    let mut out = [[0u32; 3]; 3];
    for i in 0..3 {
        for j in 0..3 {
            out[i][j] = vals[i][j].to_bits();
        }
    }
    Mat3 { values: out }
}

#[test]
fn no_hang_1000_parallel_multiplies() {
    let a = m([[1.4, 2.4, 3.1], [1.2, 4.9, 3.0], [0.1, 0.4, 3.7]]);
    let b = m([[2.3, 1.0, 4.2], [1.7, 4.6, 0.4], [6.2, 0.5, 1.0]]);
    let expected = MatXMat3(&a, &b);
    for n in 0..1000 {
        let r = if n % 2 == 0 { MatXMat3(&a, &b) } else { MatXMat3_locked(&a, &b) };
        for i in 0..3 {
            for j in 0..3 {
                assert_eq!(r.values[i][j], expected.values[i][j]);
            }
        }
    }
}

#[test]
fn board_counts_one_write_per_cell() {
    let mut board = CellBoard::new();
    assert_eq!(board.writes(), 0);
    for k in 0..9u32 {
        assert!(board.cell(k as usize).is_none());
        board.put(k as usize, k);
        assert_eq!(board.writes(), (k + 1) as u64);
    }
    for k in 0..9 {
        assert_eq!(board.cell(k), Some(k as u32));
    }
    assert_eq!(board.writes(), 9);
}
