//! The region: an append-only tape of rows, the copy constraints between
//! its cells, and what it means for the whole to be satisfied.
use vstd::prelude::*;
use crate::curve::CurveView;
use crate::field::{modulus, Fe};
use crate::gates::{gate_holds, rows_wf, span, Gate, Row};

verus! {

/// One of the two advice columns.
#[derive(Clone, Copy, Debug, PartialEq, Eq, Structural)]
pub enum Column {
    A,
    B,
}

/// A location in the region.
#[derive(Clone, Copy, Debug, PartialEq, Eq, Structural)]
pub struct Cell {
    pub row: usize,
    pub column: Column,
}

/// A witness value together with the one location it was assigned to.
#[derive(Clone, Copy, Debug)]
pub struct FieldCell {
    value: Fe,
    cell: Cell,
}

/// Why an operation on a region could not be attempted.
#[derive(Clone, Copy, Debug, PartialEq, Eq, Structural)]
pub enum Error {
    /// The cursor does not stand at the end of the region.
    CursorMismatch,
    /// The region has too few rows left.
    NotEnoughRows,
    /// A handle names no cell of the region, or not the value held there.
    UnboundCell,
    /// An input has the wrong number of elements.
    InvalidInput,
    /// The curve parameters cannot be used.
    MalformedConfig,
}

impl FieldCell {
    /// The witness value.
    pub closed spec fn spec_value(&self) -> Fe {
        self.value
    }

    /// The location the value is bound to.
    pub closed spec fn spec_cell(&self) -> Cell {
        self.cell
    }

    pub(crate) fn new(value: Fe, cell: Cell) -> (r: FieldCell)
        ensures
            r.spec_value() == value,
            r.spec_cell() == cell,
    {
        FieldCell { value, cell }
    }

    /// The witness value.
    pub fn value(&self) -> (r: Fe)
        ensures
            r == self.spec_value(),
    {
        self.value
    }

    /// The location the value is bound to.
    pub fn cell(&self) -> (r: Cell)
        ensures
            r == self.spec_cell(),
    {
        self.cell
    }
}

/// A region as a mathematical value.
pub struct RegionView {
    pub rows: Seq<Row>,
    pub copies: Seq<(Cell, Cell)>,
    pub capacity: nat,
}

/// The rows have the shape of one block: the selector of the first row
/// spans all of them, and the other rows have no selector.
pub open spec fn block_shaped(block: Seq<Row>) -> bool {
    &&& block.len() >= 1
    &&& span(block[0].gate) == block.len()
    &&& forall|j: int| 1 <= j < block.len() ==> (#[trigger] block[j]).gate == Gate::Off
}

/// A block as one operation lays it down: canonical cells in the shape of
/// one block.
pub open spec fn block_wf(block: Seq<Row>) -> bool {
    rows_wf(block) && block_shaped(block)
}

impl RegionView {
    /// The cell lies in a row that has been assigned.
    pub open spec fn in_range(self, c: Cell) -> bool {
        (c.row as int) < self.rows.len()
    }

    /// The residue held at a cell.
    pub open spec fn value_at(self, c: Cell) -> nat {
        match c.column {
            Column::A => self.rows[c.row as int].a@,
            Column::B => self.rows[c.row as int].b@,
        }
    }

    /// The handle names a cell of this region that holds its value.
    pub open spec fn binds(self, fc: FieldCell) -> bool {
        self.in_range(fc.spec_cell()) && self.value_at(fc.spec_cell()) == fc.spec_value()@
    }

    /// The rows that the selector of row `i` speaks of.
    pub open spec fn window(self, i: int) -> Seq<Row> {
        self.rows.subrange(i, i + span(self.rows[i].gate))
    }

    /// The selector of row `i` has its whole block assigned and holds on it.
    pub open spec fn row_ok(self, c: CurveView, i: int) -> bool {
        i + span(self.rows[i].gate) <= self.rows.len() && gate_holds(
            c,
            self.rows[i].gate,
            self.window(i),
        )
    }

    /// The two cells of copy constraint `k` hold the same residue.
    pub open spec fn copy_ok(self, k: int) -> bool {
        let (l, r) = self.copies[k];
        self.in_range(l) && self.in_range(r) && self.value_at(l) == self.value_at(r)
    }

    /// Every gate and every copy constraint holds.
    pub open spec fn satisfied(self, c: CurveView) -> bool {
        &&& forall|i: int| 0 <= i < self.rows.len() ==> #[trigger] self.row_ok(c, i)
        &&& forall|k: int| 0 <= k < self.copies.len() ==> #[trigger] self.copy_ok(k)
    }

    /// The region is within its capacity, its cells are canonical, every
    /// gate has its block assigned, and copy constraints name assigned cells.
    #[verifier::opaque]
    pub open spec fn wf(self) -> bool {
        &&& self.rows.len() <= self.capacity <= usize::MAX
        &&& rows_wf(self.rows)
        &&& forall|i: int|
            0 <= i < self.rows.len() ==> i + span((#[trigger] self.rows[i]).gate)
                <= self.rows.len()
        &&& forall|k: int|
            0 <= k < self.copies.len() ==> self.in_range((#[trigger] self.copies[k]).0)
                && self.in_range(self.copies[k].1)
    }

    /// The region with a block of rows appended.
    pub open spec fn extend(self, block: Seq<Row>) -> RegionView {
        RegionView { rows: self.rows + block, ..self }
    }

    /// The region with one more copy constraint.
    pub open spec fn link(self, l: Cell, r: Cell) -> RegionView {
        RegionView { copies: self.copies.push((l, r)), ..self }
    }

    /// The region has room for `n` more rows.
    pub open spec fn fits(self, n: nat) -> bool {
        self.rows.len() + n <= self.capacity
    }

    /// `later` is this region grown: the same capacity, the same rows
    /// followed by `n` more, the same copy constraints followed by others.
    pub open spec fn grown_by(self, later: RegionView, n: nat) -> bool {
        &&& later.capacity == self.capacity
        &&& later.rows.len() == self.rows.len() + n
        &&& later.rows.subrange(0, self.rows.len() as int) == self.rows
        &&& later.copies.len() >= self.copies.len()
        &&& later.copies.subrange(0, self.copies.len() as int) == self.copies
    }

    /// A well-formed region is within its capacity and holds canonical
    /// residues.
    pub proof fn lemma_wf(self)
        requires
            self.wf(),
        ensures
            self.rows.len() <= self.capacity <= usize::MAX,
            rows_wf(self.rows),
            forall|c: Cell| self.in_range(c) ==> #[trigger] self.value_at(c) < modulus(),
    {
        reveal(RegionView::wf);
        assert forall|c: Cell| self.in_range(c) implies #[trigger] self.value_at(c)
            < modulus() by {
            assert(self.rows[c.row as int].a.wf());
        }
    }

    /// In a satisfied region, the two cells of a copy constraint are
    /// assigned and hold the same residue.
    pub proof fn lemma_tied(self, c: CurveView, l: Cell, r: Cell)
        requires
            self.satisfied(c),
            self.copies.contains((l, r)),
        ensures
            self.in_range(l),
            self.in_range(r),
            self.value_at(l) == self.value_at(r),
    {
        let k = choose|k: int| 0 <= k < self.copies.len() && self.copies[k] == (l, r);
        assert(self.copy_ok(k));
    }

    /// In a satisfied region, every gate holds on its block.
    pub proof fn lemma_gate_holds(self, c: CurveView, i: int)
        requires
            self.wf(),
            self.satisfied(c),
            0 <= i < self.rows.len(),
        ensures
            i + span(self.rows[i].gate) <= self.rows.len(),
            gate_holds(c, self.rows[i].gate, self.window(i)),
            rows_wf(self.window(i)),
            self.window(i).len() == span(self.rows[i].gate),
    {
        reveal(RegionView::wf);
        assert(self.row_ok(c, i));
        let w = self.window(i);
        assert forall|k: int| 0 <= k < w.len() implies (#[trigger] w[k]).a.wf() && w[k].b.wf() by {
            assert(self.rows[i + k].a.wf());
        }
    }

    /// Growth keeps every copy constraint.
    pub proof fn lemma_grown_keeps_copies(self, later: RegionView, n: nat)
        requires
            self.grown_by(later, n),
        ensures
            forall|pair: (Cell, Cell)|
                self.copies.contains(pair) ==> #[trigger] later.copies.contains(pair),
    {
        assert forall|pair: (Cell, Cell)| self.copies.contains(pair) implies #[trigger] later
            .copies.contains(pair) by {
            let k = choose|k: int| 0 <= k < self.copies.len() && self.copies[k] == pair;
            assert(later.copies.subrange(0, self.copies.len() as int)[k] == later.copies[k]);
        }
    }

    /// Growth goes on: what has grown from a region that has grown from
    /// this one has grown from this one.
    pub proof fn lemma_grown_trans(self, mid: RegionView, n: nat, later: RegionView, m: nat)
        requires
            self.grown_by(mid, n),
            mid.grown_by(later, m),
        ensures
            self.grown_by(later, n + m),
    {
        assert(later.rows.subrange(0, self.rows.len() as int) =~= mid.rows.subrange(
            0,
            self.rows.len() as int,
        ));
        assert(later.copies.subrange(0, self.copies.len() as int) =~= mid.copies.subrange(
            0,
            self.copies.len() as int,
        ));
    }

    /// Growth keeps what was there: every cell holds what it held, and
    /// every handle stays bound.
    pub proof fn lemma_grown_keeps(self, later: RegionView, n: nat)
        requires
            self.grown_by(later, n),
        ensures
            forall|fc: FieldCell| self.binds(fc) ==> #[trigger] later.binds(fc),
            forall|c: Cell|
                self.in_range(c) ==> later.in_range(c) && #[trigger] later.value_at(c)
                    == self.value_at(c),
            forall|i: int| 0 <= i < self.rows.len() ==> #[trigger] later.rows[i] == self.rows[i],
    {
        assert forall|i: int| 0 <= i < self.rows.len() implies #[trigger] later.rows[i]
            == self.rows[i] by {
            assert(later.rows.subrange(0, self.rows.len() as int)[i] == later.rows[i]);
        }
    }

    /// A region has grown from itself by nothing.
    pub proof fn lemma_grown_refl(self)
        ensures
            self.grown_by(self, 0),
    {
        assert(self.rows.subrange(0, self.rows.len() as int) =~= self.rows);
        assert(self.copies.subrange(0, self.copies.len() as int) =~= self.copies);
    }

    /// Appending a block changes nothing about the rows and the copy
    /// constraints that were there: the extended region is satisfied
    /// exactly where the region was and the block meets its selector.
    pub proof fn lemma_extend(self, c: CurveView, block: Seq<Row>)
        requires
            self.wf(),
            block_wf(block),
            self.fits(block.len()),
        ensures
            self.extend(block).wf(),
            self.extend(block).satisfied(c) <==> self.satisfied(c) && gate_holds(
                c,
                block[0].gate,
                block,
            ),
            forall|fc: FieldCell| self.binds(fc) ==> #[trigger] self.extend(block).binds(fc),
            self.grown_by(self.extend(block), block.len()),
            self.extend(block).copies == self.copies,
            self.extend(block).window(self.rows.len() as int) == block,
    {
        reveal(RegionView::wf);
        assert(self.extend(block).rows.subrange(0, self.rows.len() as int) =~= self.rows);
        assert(self.copies.subrange(0, self.copies.len() as int) =~= self.copies);
        let e = self.extend(block);
        let n = self.rows.len() as int;
        assert forall|i: int| 0 <= i < e.rows.len() implies (#[trigger] e.rows[i]).a.wf()
            && e.rows[i].b.wf() && i + span(e.rows[i].gate) <= e.rows.len() by {
            if i < n {
                assert(self.rows[i].a.wf());
            } else {
                assert(block[i - n].a.wf());
            }
        }
        assert forall|i: int| 0 <= i < n implies e.row_ok(c, i) == self.row_ok(c, i) by {
            assert(self.rows[i].a.wf());
            assert(e.window(i) =~= self.window(i));
        }
        assert(e.window(n) =~= block);
        assert forall|i: int| n < i < e.rows.len() implies e.row_ok(c, i) by {
            assert(block[i - n].gate == Gate::Off);
        }
        assert forall|k: int| 0 <= k < self.copies.len() implies e.copy_ok(k) == self.copy_ok(
            k,
        ) by {
            assert(self.in_range(self.copies[k].0));
        }
        if e.satisfied(c) {
            assert forall|i: int| 0 <= i < n implies #[trigger] self.row_ok(c, i) by {
                assert(e.row_ok(c, i));
            }
            assert forall|k: int| 0 <= k < self.copies.len() implies #[trigger] self.copy_ok(
                k,
            ) by {
                assert(e.copy_ok(k));
            }
            assert(e.row_ok(c, n));
        }
        if self.satisfied(c) && gate_holds(c, block[0].gate, block) {
            assert forall|i: int| 0 <= i < e.rows.len() implies #[trigger] e.row_ok(c, i) by {
                if i < n {
                    assert(self.row_ok(c, i));
                }
            }
            assert forall|k: int| 0 <= k < e.copies.len() implies #[trigger] e.copy_ok(k) by {
                assert(self.copy_ok(k));
            }
        }
    }

    /// A copy constraint between two assigned cells adds one condition:
    /// the linked region is satisfied exactly where the region was and the
    /// two cells hold the same residue.
    pub proof fn lemma_link(self, c: CurveView, l: Cell, r: Cell)
        requires
            self.wf(),
            self.in_range(l),
            self.in_range(r),
        ensures
            self.link(l, r).wf(),
            self.link(l, r).satisfied(c) <==> self.satisfied(c) && self.value_at(l)
                == self.value_at(r),
            self.grown_by(self.link(l, r), 0),
    {
        reveal(RegionView::wf);
        assert(self.rows.subrange(0, self.rows.len() as int) =~= self.rows);
        assert(self.link(l, r).copies.subrange(0, self.copies.len() as int) =~= self.copies);
        let e = self.link(l, r);
        let m = self.copies.len() as int;
        assert forall|i: int| 0 <= i < self.rows.len() implies e.row_ok(c, i) == self.row_ok(
            c,
            i,
        ) by {
            assert(e.window(i) =~= self.window(i));
        }
        assert forall|k: int| 0 <= k < m implies e.copy_ok(k) == self.copy_ok(k) by {}
        assert(e.copy_ok(m) == (self.value_at(l) == self.value_at(r)));
        if e.satisfied(c) {
            assert forall|i: int| 0 <= i < self.rows.len() implies #[trigger] self.row_ok(
                c,
                i,
            ) by {
                assert(e.row_ok(c, i));
            }
            assert forall|k: int| 0 <= k < m implies #[trigger] self.copy_ok(k) by {
                assert(e.copy_ok(k));
            }
            assert(e.copy_ok(m));
        }
        if self.satisfied(c) && self.value_at(l) == self.value_at(r) {
            assert forall|i: int| 0 <= i < e.rows.len() implies #[trigger] e.row_ok(c, i) by {
                assert(self.row_ok(c, i));
            }
            assert forall|k: int| 0 <= k < e.copies.len() implies #[trigger] e.copy_ok(k) by {
                if k < m {
                    assert(self.copy_ok(k));
                }
            }
        }
    }
}

/// The error, if any, that keeps a block of `n` rows from being placed at
/// `offset`: the cursor must stand at the end of the region, and the rows
/// must fit.
pub open spec fn placement_error(v: RegionView, offset: usize, n: nat) -> Option<Error> {
    if offset != v.rows.len() {
        Some(Error::CursorMismatch)
    } else if !v.fits(n) {
        Some(Error::NotEnoughRows)
    } else {
        None
    }
}

/// One region of the circuit: the rows assigned so far and the copy
/// constraints between their cells.
#[derive(Clone, Debug)]
pub struct Region {
    rows: Vec<Row>,
    copies: Vec<(Cell, Cell)>,
    capacity: usize,
}

impl View for Region {
    type V = RegionView;

    closed spec fn view(&self) -> RegionView {
        RegionView { rows: self.rows@, copies: self.copies@, capacity: self.capacity as nat }
    }
}

impl Region {
    /// An empty region that can take `capacity` rows.
    pub fn new(capacity: usize) -> (r: Region)
        ensures
            r@.wf(),
            r@.rows.len() == 0,
            r@.copies.len() == 0,
            r@.capacity == capacity,
            forall|c: CurveView| r@.satisfied(c),
    {
        proof {
            reveal(RegionView::wf);
        }
        Region { rows: Vec::new(), copies: Vec::new(), capacity }
    }

    /// The number of rows assigned so far.
    pub fn len(&self) -> (r: usize)
        ensures
            r == self@.rows.len(),
    {
        self.rows.len()
    }

    /// The number of rows the region can take.
    pub fn capacity(&self) -> (r: usize)
        ensures
            r == self@.capacity,
    {
        self.capacity
    }

    /// The number of copy constraints.
    pub fn copy_count(&self) -> (r: usize)
        ensures
            r == self@.copies.len(),
    {
        self.copies.len()
    }

    /// Row `i`, if it has been assigned.
    pub fn row(&self, i: usize) -> (r: Option<Row>)
        ensures
            r == if (i as int) < self@.rows.len() {
                Some(self@.rows[i as int])
            } else {
                None
            },
    {
        if i < self.rows.len() {
            Some(self.rows[i])
        } else {
            None
        }
    }

    /// Copy constraint `k`, if there is one.
    pub fn copy(&self, k: usize) -> (r: Option<(Cell, Cell)>)
        ensures
            r == if (k as int) < self@.copies.len() {
                Some(self@.copies[k as int])
            } else {
                None
            },
    {
        if k < self.copies.len() {
            Some(self.copies[k])
        } else {
            None
        }
    }

    /// The value held at a cell, if the cell has been assigned.
    pub fn value(&self, cell: Cell) -> (r: Option<Fe>)
        ensures
            r.is_some() <==> self@.in_range(cell),
            r matches Some(v) ==> v@ == self@.value_at(cell) && (self@.wf() ==> v.wf()),
    {
        if cell.row < self.rows.len() {
            let row = self.rows[cell.row];
            proof {
                reveal(RegionView::wf);
                if self@.wf() {
                    assert(self@.rows[cell.row as int].a.wf());
                }
            }
            match cell.column {
                Column::A => Some(row.a),
                Column::B => Some(row.b),
            }
        } else {
            None
        }
    }

    /// Whether the handle names a cell of this region that holds its value.
    pub fn holds(&self, fc: &FieldCell) -> (r: bool)
        ensures
            r == self@.binds(*fc),
    {
        match self.value(fc.cell()) {
            Some(v) => v.equals(&fc.value()),
            None => false,
        }
    }

    /// Binds two cells to the same value for good. Both must have been
    /// assigned.
    pub fn constrain_equal(&mut self, left: Cell, right: Cell) -> (r: Result<(), Error>)
        requires
            old(self)@.wf(),
        ensures
            final(self)@.wf(),
            r.is_ok() <==> old(self)@.in_range(left) && old(self)@.in_range(right),
            r.is_ok() ==> final(self)@ == old(self)@.link(left, right),
            r.is_err() ==> r == Err::<(), Error>(Error::UnboundCell) && final(self)@ == old(self)@,
            forall|c: CurveView|
                r.is_ok() ==> (#[trigger] final(self)@.satisfied(c) <==> old(self)@.satisfied(c)
                    && old(self)@.value_at(left) == old(self)@.value_at(right)),
    {
        if left.row < self.rows.len() && right.row < self.rows.len() {
            proof {
                assert forall|c: CurveView|
                    (#[trigger] self@.link(left, right).satisfied(c) <==> self@.satisfied(c)
                        && self@.value_at(left) == self@.value_at(right)) by {
                    self@.lemma_link(c, left, right);
                }
                self@.lemma_link(CurveView { a: 0, b: 0, order: 0 }, left, right);
            }
            self.copies.push((left, right));
            Ok(())
        } else {
            Err(Error::UnboundCell)
        }
    }

    /// Whether the rows have the shape of one block.
    fn is_block(block: &Vec<Row>) -> (r: bool)
        ensures
            r == block_shaped(block@),
    {
        if block.len() == 0 || block[0].gate.rows() != block.len() {
            return false;
        }
        let mut j: usize = 1;
        while j < block.len()
            invariant
                1 <= j <= block.len(),
                forall|i: int| 1 <= i < j ==> (#[trigger] block@[i]).gate == Gate::Off,
            decreases block.len() - j,
        {
            if block[j].gate != Gate::Off {
                return false;
            }
            j = j + 1;
        }
        true
    }

    /// Assigns the rows of one block at the cursor, whatever they hold,
    /// and moves the cursor past them; hands back the row where the block
    /// starts. The rows must have the shape of one block. Nothing makes
    /// the rows meet their gate: the region is satisfied from then on only
    /// if they do.
    pub fn assign(&mut self, block: Vec<Row>, offset: &mut usize) -> (r: Result<usize, Error>)
        requires
            old(self)@.wf(),
            rows_wf(block@),
        ensures
            final(self)@.wf(),
            !block_shaped(block@) ==> r == Err::<usize, Error>(Error::InvalidInput)
                && final(self)@ == old(self)@ && *final(offset) == *old(offset),
            block_shaped(block@) ==> match placement_error(
                old(self)@,
                *old(offset),
                block@.len(),
            ) {
                Some(e) => r == Err::<usize, Error>(e) && final(self)@ == old(self)@
                    && *final(offset) == *old(offset),
                None => r == Ok::<usize, Error>(*old(offset)) && final(self)@ == old(self)@.extend(
                    block@,
                ) && *final(offset) == *old(offset) + block@.len(),
            },
            forall|c: CurveView|
                r.is_ok() ==> (#[trigger] final(self)@.satisfied(c) <==> old(self)@.satisfied(c)
                    && gate_holds(c, block@[0].gate, block@)),
    {
        if !Self::is_block(&block) {
            return Err(Error::InvalidInput);
        }
        proof {
            if placement_error(self@, *offset, block@.len()).is_none() {
                assert forall|c: CurveView|
                    (#[trigger] self@.extend(block@).satisfied(c) <==> self@.satisfied(c)
                        && gate_holds(c, block@[0].gate, block@)) by {
                    self@.lemma_extend(c, block@);
                }
            }
        }
        self.place(block, offset)
    }

    /// Appends a block at the cursor and moves the cursor past it.
    pub(crate) fn place(&mut self, block: Vec<Row>, offset: &mut usize) -> (r: Result<
        usize,
        Error,
    >)
        requires
            old(self)@.wf(),
            block_wf(block@),
        ensures
            final(self)@.wf(),
            match placement_error(old(self)@, *old(offset), block@.len()) {
                Some(e) => r == Err::<usize, Error>(e) && final(self)@ == old(self)@
                    && *final(offset) == *old(offset),
                None => r == Ok::<usize, Error>(*old(offset)) && final(self)@ == old(self)@.extend(
                    block@,
                ) && *final(offset) == *old(offset) + block@.len(),
            },
    {
        proof {
            reveal(RegionView::wf);
        }
        let n = block.len();
        if *offset != self.rows.len() {
            return Err(Error::CursorMismatch);
        }
        if n > self.capacity - self.rows.len() {
            return Err(Error::NotEnoughRows);
        }
        let start = *offset;
        proof {
            self@.lemma_extend(CurveView { a: 0, b: 0, order: 0 }, block@);
        }
        let mut block = block;
        self.rows.append(&mut block);
        *offset = start + n;
        Ok(start)
    }
}

} // verus!
