//! The chip: its configuration and the operations that lay field
//! arithmetic down in a region.
//!
//! Every operation takes the cursor by mutable reference, appends its rows
//! where the cursor stands, and moves the cursor past them. An operation
//! that cannot be attempted leaves the region and the cursor as they were.
use vstd::prelude::*;
use crate::curve::{discriminant, CurveParams, CurveView};
use crate::field::{fadd, fmul, Fe};
use crate::gates::{lemma_add_gate, lemma_mul_gate, Gate, Row};
use crate::region::{placement_error, Cell, Column, Error, FieldCell, Region, RegionView};

verus! {

/// The configuration of the chip: the curve whose equation its gates use.
#[derive(Clone, Copy, Debug)]
pub struct ECConfig {
    curve: CurveParams,
}

impl View for ECConfig {
    type V = CurveView;

    closed spec fn view(&self) -> CurveView {
        self.curve@
    }
}

impl ECConfig {
    /// The coefficients are canonical, the constant term is not zero, so
    /// that `(0, 0)` is no point of the curve, and the curve has no
    /// singular point.
    pub closed spec fn wf(&self) -> bool {
        self.curve.wf() && self.curve@.b != 0 && discriminant(self.curve@) != 0
    }

    /// The curve that the gates use.
    pub fn curve(&self) -> (r: CurveParams)
        ensures
            r@ == self@,
            self.wf() ==> r.wf(),
    {
        self.curve
    }
}

/// A handle on the chip. It holds nothing but its configuration.
#[derive(Clone, Copy, Debug)]
pub struct ECChip {
    config: ECConfig,
}

/// The region and the cursor are as they were.
pub open spec fn untouched(
    before: RegionView,
    after: RegionView,
    cursor_before: usize,
    cursor_after: usize,
) -> bool {
    after == before && cursor_after == cursor_before
}

/// The region has grown by `n` rows and the cursor has moved past them.
pub open spec fn advanced(
    before: RegionView,
    after: RegionView,
    cursor_before: usize,
    cursor_after: usize,
    n: nat,
) -> bool {
    &&& before.grown_by(after, n)
    &&& cursor_before == before.rows.len()
    &&& cursor_after == cursor_before + n
}

/// The cell in column `column` of row `row`.
pub fn cell_at(row: usize, column: Column) -> (r: Cell)
    ensures
        r == (Cell { row, column }),
{
    Cell { row, column }
}

impl ECChip {
    /// The configuration for a curve. A curve whose constant term is
    /// zero, which has a singular point, or whose group has order zero is
    /// refused.
    pub fn configure(curve: CurveParams) -> (r: Result<ECConfig, Error>)
        requires
            curve.wf(),
        ensures
            r.is_ok() <==> curve@.b != 0 && curve@.order != 0 && discriminant(curve@) != 0,
            r matches Ok(c) ==> c.wf() && c@ == curve@,
            r matches Err(e) ==> e == Error::MalformedConfig,
    {
        if curve.b.is_zero() || curve.order.is_zero() || !curve.is_regular() {
            Err(Error::MalformedConfig)
        } else {
            Ok(ECConfig { curve })
        }
    }

    /// A chip for the configuration.
    pub fn construct(config: ECConfig) -> (r: ECChip)
        ensures
            r.spec_config() == config,
    {
        ECChip { config }
    }

    /// The configuration that the chip holds.
    pub closed spec fn spec_config(&self) -> ECConfig {
        self.config
    }

    /// The configuration the chip was made for.
    pub fn config(&self) -> (r: ECConfig)
        ensures
            r == self.spec_config(),
    {
        self.config
    }

    /// Assigns `f` to a fresh row, under no constraint.
    pub fn load_private_field(
        &self,
        region: &mut Region,
        config: &ECConfig,
        f: &Fe,
        offset: &mut usize,
    ) -> (r: Result<FieldCell, Error>)
        requires
            old(region)@.wf(),
            f.wf(),
        ensures
            final(region)@.wf(),
            match placement_error(old(region)@, *old(offset), 1) {
                Some(e) => r == Err::<FieldCell, Error>(e) && untouched(
                    old(region)@,
                    final(region)@,
                    *old(offset),
                    *final(offset),
                ),
                None => r.is_ok() && advanced(
                    old(region)@,
                    final(region)@,
                    *old(offset),
                    *final(offset),
                    1,
                ),
            },
            r matches Ok(fc) ==> {
                let n = old(region)@.rows.len() as int;
                &&& final(region)@.copies == old(region)@.copies
                &&& final(region)@.rows[n].a == *f
                &&& final(region)@.rows[n].b@ == 0
                &&& final(region)@.rows[n].gate == Gate::Off
                &&& fc.spec_value() == *f
                &&& fc.spec_cell() == (Cell { row: *old(offset), column: Column::A })
                &&& final(region)@.binds(fc)
                &&& final(region)@.satisfied(config@) <==> old(region)@.satisfied(config@)
            },
    {
        let block = vec![Row { a: *f, b: Fe::zero(), gate: Gate::Off }];
        proof {
            if placement_error(region@, *offset, 1).is_none() {
                region@.lemma_extend(config@, block@);
            }
        }
        let start = region.place(block, offset)?;
        Ok(FieldCell::new(*f, cell_at(start, Column::A)))
    }

    /// Lays down the addition gate on `f1` and `f2` and hands back the cell
    /// that holds their sum.
    pub fn add(
        &self,
        region: &mut Region,
        config: &ECConfig,
        f1: &Fe,
        f2: &Fe,
        offset: &mut usize,
    ) -> (r: Result<FieldCell, Error>)
        requires
            old(region)@.wf(),
            f1.wf(),
            f2.wf(),
        ensures
            final(region)@.wf(),
            match placement_error(old(region)@, *old(offset), 2) {
                Some(e) => r == Err::<FieldCell, Error>(e) && untouched(
                    old(region)@,
                    final(region)@,
                    *old(offset),
                    *final(offset),
                ),
                None => r.is_ok() && advanced(
                    old(region)@,
                    final(region)@,
                    *old(offset),
                    *final(offset),
                    2,
                ),
            },
            r matches Ok(fc) ==> {
                let n = old(region)@.rows.len() as int;
                &&& final(region)@.copies == old(region)@.copies
                &&& final(region)@.rows[n] == (Row { a: *f1, b: *f2, gate: Gate::Add })
                &&& final(region)@.rows[n + 1].a == fc.spec_value()
                &&& final(region)@.rows[n + 1].b@ == 0
                &&& final(region)@.rows[n + 1].gate == Gate::Off
                &&& fc.spec_value()@ == fadd(f1@, f2@)
                &&& fc.spec_cell() == (Cell { row: (*old(offset) + 1) as usize, column: Column::A })
                &&& final(region)@.binds(fc)
                &&& final(region)@.satisfied(config@) <==> old(region)@.satisfied(config@)
            },
    {
        let sum = f1.add(f2);
        let block = vec![
            Row { a: *f1, b: *f2, gate: Gate::Add },
            Row { a: sum, b: Fe::zero(), gate: Gate::Off },
        ];
        proof {
            if placement_error(region@, *offset, 2).is_none() {
                region@.lemma_extend(config@, block@);
                lemma_add_gate(block@);
            }
        }
        let start = region.place(block, offset)?;
        Ok(FieldCell::new(sum, cell_at(start + 1, Column::A)))
    }

    /// Lays down the multiplication gate on `f1` and `f2` and hands back
    /// the cell that holds their product.
    pub fn mul(
        &self,
        region: &mut Region,
        config: &ECConfig,
        f1: &Fe,
        f2: &Fe,
        offset: &mut usize,
    ) -> (r: Result<FieldCell, Error>)
        requires
            old(region)@.wf(),
            f1.wf(),
            f2.wf(),
        ensures
            final(region)@.wf(),
            match placement_error(old(region)@, *old(offset), 2) {
                Some(e) => r == Err::<FieldCell, Error>(e) && untouched(
                    old(region)@,
                    final(region)@,
                    *old(offset),
                    *final(offset),
                ),
                None => r.is_ok() && advanced(
                    old(region)@,
                    final(region)@,
                    *old(offset),
                    *final(offset),
                    2,
                ),
            },
            r matches Ok(fc) ==> {
                let n = old(region)@.rows.len() as int;
                &&& final(region)@.copies == old(region)@.copies
                &&& final(region)@.rows[n] == (Row { a: *f1, b: *f2, gate: Gate::Mul })
                &&& final(region)@.rows[n + 1].a == fc.spec_value()
                &&& final(region)@.rows[n + 1].b@ == 0
                &&& final(region)@.rows[n + 1].gate == Gate::Off
                &&& fc.spec_value()@ == fmul(f1@, f2@)
                &&& fc.spec_cell() == (Cell { row: (*old(offset) + 1) as usize, column: Column::A })
                &&& final(region)@.binds(fc)
                &&& final(region)@.satisfied(config@) <==> old(region)@.satisfied(config@)
            },
    {
        let product = f1.mul(f2);
        let block = vec![
            Row { a: *f1, b: *f2, gate: Gate::Mul },
            Row { a: product, b: Fe::zero(), gate: Gate::Off },
        ];
        proof {
            if placement_error(region@, *offset, 2).is_none() {
                region@.lemma_extend(config@, block@);
                lemma_mul_gate(block@);
            }
        }
        let start = region.place(block, offset)?;
        Ok(FieldCell::new(product, cell_at(start + 1, Column::A)))
    }
}

/// A finished region has a multiple of this many rows.
pub const ROW_BOUNDARY: usize = 8;

/// The number of rows that bring a region of `len` rows to the boundary.
pub open spec fn padding(len: nat) -> nat {
    ((8 - len % 8) % 8) as nat
}

/// What holds while a region is padded: `k` neutral rows stand on top of
/// the region `before`.
#[verifier::opaque]
pub open spec fn pad_inv(before: RegionView, now: RegionView, c: CurveView, k: nat, offset: usize)
    -> bool {
    &&& now.wf()
    &&& before.rows.len() + padding(before.rows.len()) <= before.capacity
    &&& k <= padding(before.rows.len())
    &&& before.grown_by(now, k)
    &&& offset == before.rows.len() + k
    &&& now.copies == before.copies
    &&& now.satisfied(c) <==> before.satisfied(c)
    &&& forall|i: int|
        before.rows.len() <= i < now.rows.len() ==> is_neutral(#[trigger] now.rows[i])
}

/// The row holds two zeros under no gate.
pub open spec fn is_neutral(row: Row) -> bool {
    row.a@ == 0 && row.b@ == 0 && row.gate == Gate::Off
}

impl ECChip {
    /// One neutral row on top of the padding so far.
    fn pad_row(
        region: &mut Region,
        config: &ECConfig,
        k: usize,
        offset: &mut usize,
        Ghost(before): Ghost<RegionView>,
    )
        requires
            pad_inv(before, old(region)@, config@, k as nat, *old(offset)),
            k < padding(before.rows.len()),
        ensures
            pad_inv(before, final(region)@, config@, (k + 1) as nat, *final(offset)),
    {
        reveal(pad_inv);
        let ghost mid = region@;
        let zero = Fe::zero();
        let block = vec![Row { a: zero, b: zero, gate: Gate::Off }];
        proof {
            mid.lemma_extend(config@, block@);
        }
        let placed = region.place(block, offset);
        proof {
            before.lemma_grown_trans(mid, k as nat, region@, 1);
            mid.lemma_grown_keeps(region@, 1);
        }
    }

    /// Brings the region to the next row boundary with neutral rows: zeros
    /// under no gate. Nothing is computed.
    pub fn pad(&self, region: &mut Region, config: &ECConfig, offset: &mut usize) -> (r: Result<
        (),
        Error,
    >)
        requires
            old(region)@.wf(),
        ensures
            final(region)@.wf(),
            match placement_error(
                old(region)@,
                *old(offset),
                padding(old(region)@.rows.len()),
            ) {
                Some(e) => (r matches Err(x) && x == e) && untouched(
                    old(region)@,
                    final(region)@,
                    *old(offset),
                    *final(offset),
                ),
                None => r.is_ok() && advanced(
                    old(region)@,
                    final(region)@,
                    *old(offset),
                    *final(offset),
                    padding(old(region)@.rows.len()),
                ),
            },
            r.is_ok() ==> {
                &&& final(region)@.rows.len() % 8 == 0
                &&& final(region)@.copies == old(region)@.copies
                &&& forall|i: int|
                    old(region)@.rows.len() <= i < final(region)@.rows.len() ==> is_neutral(
                        #[trigger] final(region)@.rows[i],
                    )
                &&& final(region)@.satisfied(config@) <==> old(region)@.satisfied(config@)
            },
    {
        proof {
            region@.lemma_wf();
        }
        if *offset != region.len() {
            return Err(Error::CursorMismatch);
        }
        let missing = (ROW_BOUNDARY - region.len() % ROW_BOUNDARY) % ROW_BOUNDARY;
        if region.capacity() - region.len() < missing {
            return Err(Error::NotEnoughRows);
        }
        let ghost before = region@;
        let mut k: usize = 0;
        proof {
            reveal(pad_inv);
            before.lemma_grown_refl();
        }
        while k < missing
            invariant
                k <= missing,
                missing == padding(before.rows.len()),
                pad_inv(before, region@, config@, k as nat, *offset),
            decreases missing - k,
        {
            Self::pad_row(region, config, k, offset, Ghost(before));
            k = k + 1;
        }
        proof {
            reveal(pad_inv);
        }
        Ok(())
    }
}

} // verus!
