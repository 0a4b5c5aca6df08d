//! The fan-in aggregation board: the result matrix under incremental
//! construction.
//!
//! The board holds one slot per output cell, in row-major order, and a
//! counter of the writes performed.  A slot can only be written while it is
//! empty, so a cell is never written twice, and well-formedness ties the
//! write counter to the number of filled slots: when all nine slots are
//! filled, exactly nine writes happened — one per cell.

use vstd::prelude::*;

verus! {

/// The number of filled slots.
pub open spec fn filled_count(s: Seq<Option<u32>>) -> int
    decreases s.len(),
{
    if s.len() == 0 {
        0
    } else {
        filled_count(s.drop_last()) + (if s.last() is Some {
            1int
        } else {
            0int
        })
    }
}

/// Appending a slot adds its own contribution to the filled count.
proof fn lemma_filled_push(s: Seq<Option<u32>>, x: Option<u32>)
    ensures
        filled_count(s.push(x)) == filled_count(s) + (if x is Some {
            1int
        } else {
            0int
        }),
{
    assert(s.push(x).drop_last() =~= s);
    assert(s.push(x).last() == x);
}

/// The filled count is between zero and the length.
proof fn lemma_filled_bounds(s: Seq<Option<u32>>)
    ensures
        0 <= filled_count(s) <= s.len(),
    decreases s.len(),
{
    if s.len() > 0 {
        lemma_filled_bounds(s.drop_last());
    }
}

/// Filling one empty slot raises the filled count by one.
proof fn lemma_filled_update(s: Seq<Option<u32>>, k: int, v: u32)
    requires
        0 <= k < s.len(),
        s[k] is None,
    ensures
        filled_count(s.update(k, Some(v))) == filled_count(s) + 1,
    decreases s.len(),
{
    let t = s.update(k, Some(v));
    if k == s.len() - 1 {
        assert(t.drop_last() =~= s.drop_last());
    } else {
        assert(t.drop_last() =~= s.drop_last().update(k, Some(v)));
        lemma_filled_update(s.drop_last(), k, v);
    }
}

/// The result matrix under construction: nine cell slots in row-major
/// order, each written at most once, and the count of writes performed.
pub struct CellBoard {
    cells: Vec<Option<u32>>,
    writes: u64,
}

impl View for CellBoard {
    type V = Seq<Option<u32>>;

    closed spec fn view(&self) -> Seq<Option<u32>> {
        self.cells@
    }
}

impl CellBoard {
    /// The number of writes performed on this board.
    pub closed spec fn write_count(&self) -> u64 {
        self.writes
    }

    /// Well-formedness: nine slots, and as many writes as filled slots.
    pub closed spec fn wf(&self) -> bool {
        self.cells@.len() == 9 && self.writes == filled_count(self.cells@)
    }

    /// Law: on a well-formed board the writes performed are exactly the
    /// filled cells — no cell was ever written twice, none was written and
    /// lost.  In particular, a fully filled board took exactly nine writes.
    pub proof fn lemma_writes_are_filled_cells(&self)
        requires
            self.wf(),
        ensures
            self.write_count() == filled_count(self@),
            self@.len() == 9,
            0 <= filled_count(self@) <= 9,
            (forall|k: int| 0 <= k < 9 ==> self@[k] is Some) ==> self.write_count() == 9,
    {
        lemma_filled_bounds(self.cells@);
        if forall|k: int| 0 <= k < 9 ==> self@[k] is Some {
            lemma_filled_full(self.cells@);
        }
    }

    /// An empty board: nine empty slots, no writes yet.
    pub fn new() -> (b: CellBoard)
        ensures
            b.wf(),
            b@.len() == 9,
            forall|k: int| 0 <= k < 9 ==> b@[k] is None,
            b.write_count() == 0,
    {
        let mut cells: Vec<Option<u32>> = Vec::new();
        let mut k: usize = 0;
        while k < 9
            invariant
                k <= 9,
                cells@.len() == k,
                forall|m: int| 0 <= m < k ==> cells@[m] is None,
                filled_count(cells@) == 0,
            decreases 9 - k,
        {
            proof {
                lemma_filled_push(cells@, None);
            }
            cells.push(None);
            k = k + 1;
        }
        CellBoard { cells, writes: 0 }
    }

    /// Read slot `k`.
    pub fn cell(&self, k: usize) -> (r: Option<u32>)
        requires
            self.wf(),
            k < 9,
        ensures
            r == self@[k as int],
    {
        self.cells[k]
    }

    /// The number of writes performed so far.
    pub fn writes(&self) -> (n: u64)
        ensures
            n == self.write_count(),
    {
        self.writes
    }

    /// Write value `v` into the empty slot `k`.  This is the only way a
    /// slot is filled, and it refuses a slot already written.
    pub fn put(&mut self, k: usize, v: u32)
        requires
            old(self).wf(),
            k < 9,
            old(self)@[k as int] is None,
        ensures
            final(self).wf(),
            final(self)@ == old(self)@.update(k as int, Some(v)),
            final(self).write_count() == old(self).write_count() + 1,
    {
        proof {
            lemma_filled_update(self.cells@, k as int, v);
            lemma_filled_bounds(self.cells@);
        }
        self.cells[k] = Some(v);
        self.writes = self.writes + 1;
    }
}

/// A fully filled sequence of slots has a filled count equal to its length.
proof fn lemma_filled_full(s: Seq<Option<u32>>)
    requires
        forall|k: int| 0 <= k < s.len() ==> s[k] is Some,
    ensures
        filled_count(s) == s.len(),
    decreases s.len(),
{
    if s.len() > 0 {
        assert(forall|k: int| 0 <= k < s.drop_last().len() ==> s.drop_last()[k] is Some);
        lemma_filled_full(s.drop_last());
    }
}

} // verus!
