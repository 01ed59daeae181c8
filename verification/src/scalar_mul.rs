//! Scalar decomposition and scalar multiplication: the double-and-add
//! ladder over the bits of the scalar, most significant first.
use vstd::prelude::*;
use crate::chip::{advanced, cell_at, untouched, ECChip, ECConfig};
use crate::curve::{
    ec_add, ec_double, ec_mul, ec_select_add, identity, lemma_mul_small, AffinePoint, CurveView,
    PointValue, Scalar,
};
use crate::decompose::{
    all_bits, cell_values, chain_layout, digit_cell, digits_value, is_bit,
    lemma_chain_layout_keeps, lemma_digit_weight, lemma_digits_push, lemma_weight_128,
    lemma_weight_sum, low_cell, weight, Decomposition,
};
use crate::field::{lemma_select, modulus, Fe};
use crate::gates::{lemma_ec_add_range, Gate, Row};
use crate::points::Point;
use crate::region::{placement_error, Cell, Column, Error, FieldCell, Region, RegionView};

verus! {

/// The bits of a scalar, least significant first, and the cells that hold
/// its low and high halves.
#[derive(Debug)]
pub struct ScalarBits {
    pub bits: Vec<FieldCell>,
    pub low: FieldCell,
    pub high: FieldCell,
}

/// The number of rows that the decomposition of a scalar takes.
pub const SCALAR_ROWS: usize = 194;

/// The number of rows that a scalar multiplication takes: the point, the
/// bits of the scalar, the point at infinity, and one step for each bit.
pub const POINT_MUL_ROWS: usize = 5060;

/// The cell that holds bit `i` of a scalar decomposed from row `n`: the
/// low half stands first, the high half after it.
pub open spec fn scalar_digit_cell(n: nat, i: nat) -> Cell {
    if i < 128 {
        digit_cell(n, i)
    } else {
        digit_cell(n + 97, (i - 128) as nat)
    }
}

/// The two chains of a scalar decomposed from row `n` stand in the region.
pub open spec fn scalar_layout(r: RegionView, n: nat) -> bool {
    chain_layout(r, n) && chain_layout(r, n + 97)
}

/// The residues in the 256 bit cells of a scalar decomposed from row `n`,
/// least significant first.
pub open spec fn scalar_digits(r: RegionView, n: nat) -> Seq<nat> {
    Seq::new(256, |i: int| r.value_at(scalar_digit_cell(n, i as nat)))
}

/// Every one of the cells is the bit cell of its place in a scalar
/// decomposed from row `n`.
pub open spec fn scalar_cells(bits: Seq<FieldCell>, n: nat) -> bool {
    forall|i: int|
        0 <= i < bits.len() ==> (#[trigger] bits[i]).spec_cell() == scalar_digit_cell(
            n,
            i as nat,
        )
}

/// The digits of `d` followed by those of `e` stand for the number of `d`
/// plus that of `e` at the weight of the length of `d`.
pub proof fn lemma_digits_concat(d: Seq<nat>, e: Seq<nat>)
    ensures
        digits_value(d + e) == digits_value(d) + weight(d.len()) * digits_value(e),
    decreases e.len(),
{
    if e.len() == 0 {
        assert(d + e =~= d);
        assert(weight(d.len()) * 0 == 0) by (nonlinear_arith);
    } else {
        let f = e.drop_last();
        let b = e.last();
        assert(e =~= f.push(b));
        assert(d + e =~= (d + f).push(b));
        lemma_digits_concat(d, f);
        lemma_digits_push(d + f, b);
        lemma_digits_push(f, b);
        lemma_weight_sum(d.len(), f.len());
        let (wd, wf) = (weight(d.len()), weight(f.len()));
        let (vf, vd) = (digits_value(f), digits_value(d));
        assert(vd + wd * vf + (wd * wf) * b == vd + wd * (vf + wf * b)) by (nonlinear_arith);
    }
}

/// One step of the ladder takes the multiple by `m` to the multiple by
/// `2 m + b`.
pub proof fn lemma_ladder_step(c: CurveView, m: nat, b: nat, p: PointValue)
    requires
        is_bit(b),
        p.x < modulus(),
        p.y < modulus(),
    ensures
        ec_select_add(c, ec_double(c, ec_mul(c, m, p)), p, b) == ec_mul(c, 2 * m + b, p),
{
    let acc = ec_mul(c, m, p);
    let d = ec_double(c, acc);
    lemma_ec_mul_range(c, m, p);
    lemma_ec_add_range(c, acc, acc);
    lemma_ec_add_range(c, d, p);
    let s = ec_add(c, d, p);
    lemma_select(s.x, d.x);
    lemma_select(s.y, d.y);
    let n = 2 * m + b;
    assert(n / 2 == m && n % 2 == b);
    if n == 0 {
        assert(acc == identity());
    }
}

/// The coordinates of a multiple of a canonical point are canonical.
pub proof fn lemma_ec_mul_range(c: CurveView, m: nat, p: PointValue)
    requires
        p.x < modulus(),
        p.y < modulus(),
    ensures
        ec_mul(c, m, p).x < modulus(),
        ec_mul(c, m, p).y < modulus(),
    decreases m,
{
    if m != 0 {
        lemma_ec_mul_range(c, m / 2, p);
        let h = ec_mul(c, m / 2, p);
        lemma_ec_add_range(c, h, h);
        lemma_ec_add_range(c, ec_double(c, h), p);
    }
}

impl ECChip {
    /// Decomposes a scalar into its 256 bits, least significant first: the
    /// low half and the high half each as a 128-bit integer.
    pub fn decompose_scalar(
        &self,
        region: &mut Region,
        config: &ECConfig,
        s: &Scalar,
        offset: &mut usize,
    ) -> (r: Result<ScalarBits, Error>)
        requires
            old(region)@.wf(),
        ensures
            final(region)@.wf(),
            match placement_error(old(region)@, *old(offset), SCALAR_ROWS as nat) {
                Some(e) => (r matches Err(x) && x == e) && untouched(
                    old(region)@,
                    final(region)@,
                    *old(offset),
                    *final(offset),
                ),
                None => r.is_ok() && advanced(
                    old(region)@,
                    final(region)@,
                    *old(offset),
                    *final(offset),
                    SCALAR_ROWS as nat,
                ),
            },
            r matches Ok(d) ==> {
                &&& d.bits@.len() == 256
                &&& forall|i: int|
                    0 <= i < 256 ==> #[trigger] final(region)@.binds(d.bits@[i]) && is_bit(
                        d.bits@[i].spec_value()@,
                    )
                &&& digits_value(cell_values(d.bits@)) == s@
                &&& forall|i: int|
                    0 <= i < 256 && s@ < weight(i as nat) ==> (#[trigger] d.bits@[i]).spec_value()@
                        == 0
                &&& final(region)@.binds(d.low) && d.low.spec_value()@ == s.low as nat
                &&& final(region)@.binds(d.high) && d.high.spec_value()@ == s.high as nat
                &&& final(region)@.satisfied(config@) <==> old(region)@.satisfied(config@)
                &&& scalar_layout(final(region)@, old(region)@.rows.len())
                &&& scalar_cells(d.bits@, old(region)@.rows.len())
                &&& d.low.spec_cell() == low_cell(old(region)@.rows.len(), 0)
                &&& d.high.spec_cell() == low_cell(old(region)@.rows.len() + 97, 0)
            },
    {
        proof {
            region@.lemma_wf();
        }
        if *offset != region.len() {
            return Err(Error::CursorMismatch);
        }
        if region.capacity() - region.len() < SCALAR_ROWS {
            return Err(Error::NotEnoughRows);
        }
        let ghost before = region@;
        let low = self.decompose_u128(region, config, &s.low, offset).unwrap();
        let ghost mid = region@;
        let high = self.decompose_u128(region, config, &s.high, offset).unwrap();
        let Decomposition { digits: low_digits, remainder: _, value: low_value } = low;
        let Decomposition { digits: high_digits, remainder: _, value: high_value } = high;
        let mut bits = low_digits;
        let mut upper = high_digits;
        let ghost lower = bits@;
        let ghost higher = upper@;
        bits.append(&mut upper);
        proof {
            before.lemma_grown_trans(mid, 97, region@, 97);
            mid.lemma_grown_keeps(region@, 97);
            assert(cell_values(bits@) =~= cell_values(lower) + cell_values(higher));
            lemma_digits_concat(cell_values(lower), cell_values(higher));
            lemma_weight_128();
            assert forall|i: int| 0 <= i < 256 implies #[trigger] region@.binds(bits@[i])
                && is_bit(bits@[i].spec_value()@) by {
                if i < 128 {
                    assert(mid.binds(lower[i]));
                } else {
                    assert(region@.binds(higher[i - 128]));
                }
            }
            assert forall|i: int| 0 <= i < 256 && s@ < weight(i as nat) implies (
            #[trigger] bits@[i]).spec_value()@ == 0 by {
                let values = cell_values(bits@);
                assert(all_bits(values)) by {
                    assert forall|k: int| 0 <= k < values.len() implies is_bit(
                        #[trigger] values[k],
                    ) by {
                        assert(region@.binds(bits@[k]));
                    }
                }
                lemma_digit_weight(values, i);
                assert(is_bit(values[i]));
                if values[i] == 1 {
                    assert(weight(i as nat) * 1 == weight(i as nat)) by (nonlinear_arith);
                }
            }
            region@.lemma_wf();
            lemma_chain_layout_keeps(mid, region@, 97, before.rows.len());
            assert forall|i: int| 0 <= i < bits@.len() implies (#[trigger] bits@[i]).spec_cell()
                == scalar_digit_cell(before.rows.len(), i as nat) by {
                if i < 128 {
                    assert(lower[i].spec_cell() == digit_cell(before.rows.len(), i as nat));
                } else {
                    assert(higher[i - 128].spec_cell() == digit_cell(
                        mid.rows.len(),
                        (i - 128) as nat,
                    ));
                }
            }
        }
        Ok(ScalarBits { bits, low: low_value, high: high_value })
    }
}

/// The cell in column `column` of row `row`.
pub open spec fn cell_of(row: nat, column: Column) -> Cell {
    Cell { row: row as usize, column }
}

/// The first row of step `k` of a scalar multiplication from row `n`.
pub open spec fn step_row(n: nat, k: nat) -> nat {
    n + 196 + 19 * k
}

/// Step `k` of a scalar multiplication from row `n` stands in the region:
/// a doubling of the row before it, and a conditional addition of the
/// base point in row `n` to what was doubled, under the bit that step `k`
/// consumes: bit `255 - k` of the scalar decomposed from row `n + 1`.
pub open spec fn ladder_step_laid(r: RegionView, n: nat, k: nat) -> bool {
    let d = step_row(n, k);
    let a = d + 5;
    &&& d + 19 <= r.rows.len()
    &&& r.rows[d as int].gate == Gate::Double
    &&& r.rows[a as int].gate == Gate::CondAdd
    &&& r.copies.contains((cell_of((d - 1) as nat, Column::A), cell_of(d, Column::A)))
    &&& r.copies.contains((cell_of((d - 1) as nat, Column::B), cell_of(d, Column::B)))
    &&& r.copies.contains((cell_of(d + 4, Column::A), cell_of(a, Column::A)))
    &&& r.copies.contains((cell_of(d + 4, Column::B), cell_of(a, Column::B)))
    &&& r.copies.contains((cell_of(n, Column::A), cell_of(a + 1, Column::A)))
    &&& r.copies.contains((cell_of(n, Column::B), cell_of(a + 1, Column::B)))
    &&& r.copies.contains(
        (scalar_digit_cell(n + 1, (255 - k) as nat), cell_of(a + 2, Column::A)),
    )
}

/// A whole scalar multiplication from row `n` stands in the region: the
/// base point in row `n`, the scalar decomposed from row `n + 1`, the
/// point at infinity in a row of zeros, and the 256 steps.
pub open spec fn ladder_layout(r: RegionView, n: nat) -> bool {
    &&& n + 5060 <= r.rows.len() <= usize::MAX
    &&& scalar_layout(r, n + 1)
    &&& r.rows[(n + 195) as int].gate == Gate::Zero
    &&& forall|k: nat| k < 256 ==> #[trigger] ladder_step_laid(r, n, k)
}

/// The point sits in the two cells of row `row`.
pub open spec fn sits_in(p: Point, row: nat) -> bool {
    &&& p.spec_x().spec_cell() == cell_of(row, Column::A)
    &&& p.spec_y().spec_cell() == cell_of(row, Column::B)
}

/// A step of a scalar multiplication stays where the region grows.
pub proof fn lemma_ladder_step_keeps(r: RegionView, later: RegionView, m: nat, n: nat, k: nat)
    requires
        r.grown_by(later, m),
        ladder_step_laid(r, n, k),
    ensures
        ladder_step_laid(later, n, k),
{
    r.lemma_grown_keeps(later, m);
    r.lemma_grown_keeps_copies(later, m);
}

/// One step further, the steps of a scalar multiplication from row `n`
/// stand in the region.
pub proof fn lemma_ladder_steps_step(
    before: RegionView,
    mid: RegionView,
    now: RegionView,
    n: nat,
    k: nat,
    acc: Point,
    doubled: Point,
    base: Point,
    bit: FieldCell,
)
    requires
        before.grown_by(mid, 5),
        mid.grown_by(now, 14),
        before.rows.len() == step_row(n, k),
        now.rows.len() <= usize::MAX,
        forall|j: nat| j < k ==> #[trigger] ladder_step_laid(before, n, j),
        sits_in(acc, (step_row(n, k) - 1) as nat),
        sits_in(doubled, step_row(n, k) + 4),
        sits_in(base, n),
        bit.spec_cell() == scalar_digit_cell(n + 1, (255 - k) as nat),
        mid.rows[step_row(n, k) as int].gate == Gate::Double,
        now.rows[(step_row(n, k) + 5) as int].gate == Gate::CondAdd,
        mid.copies == before.copies.push(
            (acc.spec_x().spec_cell(), cell_of(step_row(n, k), Column::A)),
        ).push((acc.spec_y().spec_cell(), cell_of(step_row(n, k), Column::B))),
        now.copies == mid.copies.push(
            (doubled.spec_x().spec_cell(), cell_of(step_row(n, k) + 5, Column::A)),
        ).push((doubled.spec_y().spec_cell(), cell_of(step_row(n, k) + 5, Column::B))).push(
            (base.spec_x().spec_cell(), cell_of(step_row(n, k) + 6, Column::A)),
        ).push((base.spec_y().spec_cell(), cell_of(step_row(n, k) + 6, Column::B))).push(
            (bit.spec_cell(), cell_of(step_row(n, k) + 7, Column::A)),
        ),
    ensures
        forall|j: nat| j < k + 1 ==> #[trigger] ladder_step_laid(now, n, j),
{
    before.lemma_grown_trans(mid, 5, now, 14);
    mid.lemma_grown_keeps(now, 14);
    mid.lemma_grown_keeps_copies(now, 14);
    let m = before.copies.len() as int;
    assert(mid.copies[m] == (acc.spec_x().spec_cell(), cell_of(step_row(n, k), Column::A)));
    assert(mid.copies[m + 1] == (acc.spec_y().spec_cell(), cell_of(step_row(n, k), Column::B)));
    assert(now.copies[m + 2] == (
        doubled.spec_x().spec_cell(),
        cell_of(step_row(n, k) + 5, Column::A),
    ));
    assert(now.copies[m + 3] == (
        doubled.spec_y().spec_cell(),
        cell_of(step_row(n, k) + 5, Column::B),
    ));
    assert(now.copies[m + 4] == (
        base.spec_x().spec_cell(),
        cell_of(step_row(n, k) + 6, Column::A),
    ));
    assert(now.copies[m + 5] == (
        base.spec_y().spec_cell(),
        cell_of(step_row(n, k) + 6, Column::B),
    ));
    assert(now.copies[m + 6] == (bit.spec_cell(), cell_of(step_row(n, k) + 7, Column::A)));
    assert forall|j: nat| j < k + 1 implies #[trigger] ladder_step_laid(now, n, j) by {
        if j < k {
            lemma_ladder_step_keeps(before, now, 19, n, j);
        }
    }
}

/// What holds after `k` steps of the ladder for the scalar with the bits
/// `bits` on the point `base`, laid down on top of the region `start`
/// that holds the point, the bits and the point at infinity.
#[verifier::opaque]
pub open spec fn ladder_inv(
    start: RegionView,
    now: RegionView,
    c: CurveView,
    bits: Seq<FieldCell>,
    base: Point,
    acc: Point,
    k: nat,
    offset: usize,
) -> bool {
    &&& k <= 256
    &&& start.rows.len() >= 196
    &&& forall|j: nat|
        j < k ==> #[trigger] ladder_step_laid(now, (start.rows.len() - 196) as nat, j)
    &&& sits_in(acc, (start.rows.len() - 1 + 19 * k) as nat)
    &&& sits_in(base, (start.rows.len() - 196) as nat)
    &&& scalar_cells(bits, (start.rows.len() - 195) as nat)
    &&& bits.len() == 256
    &&& now.wf()
    &&& start.rows.len() + 4864 <= start.capacity
    &&& start.grown_by(now, 19 * k)
    &&& offset == start.rows.len() + 19 * k
    &&& now.satisfied(c) <==> start.satisfied(c)
    &&& forall|i: int|
        0 <= i < 256 ==> #[trigger] start.binds(bits[i]) && is_bit(bits[i].spec_value()@)
    &&& base.bound_in(start)
    &&& acc.bound_in(now)
    &&& !acc.spec_checked()
    &&& acc.value() == ec_mul(
        c,
        digits_value(cell_values(bits).subrange(256 - k, 256)),
        base.value(),
    )
}

impl ECChip {
    /// One step of the ladder: doubles the accumulator and adds the base
    /// point where the bit is one.
    fn ladder_step(
        &self,
        region: &mut Region,
        config: &ECConfig,
        bits: &Vec<FieldCell>,
        base: &Point,
        acc: &Point,
        k: usize,
        offset: &mut usize,
        Ghost(start): Ghost<RegionView>,
    ) -> (r: Point)
        requires
            config.wf(),
            k < 256,
            ladder_inv(
                start,
                old(region)@,
                config@,
                bits@,
                *base,
                *acc,
                k as nat,
                *old(offset),
            ),
        ensures
            ladder_inv(
                start,
                final(region)@,
                config@,
                bits@,
                *base,
                r,
                (k + 1) as nat,
                *final(offset),
            ),
    {
        reveal(ladder_inv);
        let ghost c = config@;
        let ghost before = region@;
        let bit = bits[255 - k];
        proof {
            before.lemma_wf();
            start.lemma_grown_keeps(before, (19 * k) as nat);
            assert(start.binds(bits@[255 - k]));
        }
        let doubled = self.point_double(region, config, acc, offset).unwrap();
        let ghost mid = region@;
        proof {
            before.lemma_grown_keeps(mid, 5);
        }
        let sum = self.conditional_point_add(region, config, &doubled, base, &bit, offset).unwrap();
        proof {
            region@.lemma_wf();
            lemma_ladder_steps_step(
                before,
                mid,
                region@,
                (start.rows.len() - 196) as nat,
                k as nat,
                *acc,
                doubled,
                *base,
                bit,
            );
            before.lemma_grown_trans(mid, 5, region@, 14);
            start.lemma_grown_trans(before, (19 * k) as nat, region@, 19);
            let values = cell_values(bits@);
            let upper = values.subrange(256 - k, 256);
            let wider = values.subrange(255 - k, 256);
            assert(wider.drop_first() =~= upper);
            assert(wider[0] == bit.spec_value()@);
            assert(digits_value(wider) == bit.spec_value()@ + 2 * digits_value(upper));
            lemma_ladder_step(c, digits_value(upper), bit.spec_value()@, base.value());
        }
        sum
    }

    /// Multiplies the point `p1` by the scalar `s`: loads the point with no
    /// check of the curve equation, decomposes the scalar, and runs the
    /// ladder from the point at infinity over the 256 bits, most
    /// significant first. Every bit lays down the same rows.
    pub fn point_mul(
        &self,
        region: &mut Region,
        config: &ECConfig,
        p1: &AffinePoint,
        s: &Scalar,
        offset: &mut usize,
    ) -> (r: Result<Point, Error>)
        requires
            old(region)@.wf(),
            config.wf(),
            p1.wf(),
        ensures
            final(region)@.wf(),
            match placement_error(old(region)@, *old(offset), POINT_MUL_ROWS as nat) {
                Some(e) => (r matches Err(x) && x == e) && untouched(
                    old(region)@,
                    final(region)@,
                    *old(offset),
                    *final(offset),
                ),
                None => r.is_ok() && advanced(
                    old(region)@,
                    final(region)@,
                    *old(offset),
                    *final(offset),
                    POINT_MUL_ROWS as nat,
                ),
            },
            r matches Ok(q) ==> {
                &&& q.value() == ec_mul(config@, s@, p1@)
                &&& !q.spec_checked()
                &&& q.bound_in(final(region)@)
                &&& sits_in(q, old(region)@.rows.len() + 5059)
                &&& ladder_layout(final(region)@, old(region)@.rows.len())
                &&& final(region)@.satisfied(config@) <==> old(region)@.satisfied(config@)
            },
    {
        proof {
            region@.lemma_wf();
        }
        if *offset != region.len() {
            return Err(Error::CursorMismatch);
        }
        if region.capacity() - region.len() < POINT_MUL_ROWS {
            return Err(Error::NotEnoughRows);
        }
        let ghost before = region@;
        let ghost c = config@;
        let base = self.load_private_point_unchecked(region, config, p1, offset).unwrap();
        let ghost loaded = region@;
        let scalar = self.decompose_scalar(region, config, s, offset).unwrap();
        let ghost decomposed = region@;
        let zero = Fe::zero();
        let block = vec![Row { a: zero, b: zero, gate: Gate::Zero }];
        proof {
            decomposed.lemma_extend(c, block@);
        }
        let origin = region.place(block, offset).unwrap();
        let ghost start = region@;
        let mut acc = Point::unchecked(
            FieldCell::new(zero, cell_at(origin, Column::A)),
            FieldCell::new(zero, cell_at(origin, Column::B)),
        );
        let bits = scalar.bits;
        let mut k: usize = 0;
        proof {
            before.lemma_grown_trans(loaded, 1, decomposed, 194);
            before.lemma_grown_trans(decomposed, 195, start, 1);
            loaded.lemma_grown_trans(decomposed, 194, start, 1);
            loaded.lemma_grown_keeps(start, 195);
            decomposed.lemma_grown_keeps(start, 1);
            start.lemma_grown_refl();
            reveal(ladder_inv);
            assert(cell_values(bits@).subrange(256, 256) =~= Seq::<nat>::empty());
            lemma_mul_small(c, base.value());
            assert forall|i: int| 0 <= i < 256 implies #[trigger] start.binds(bits@[i])
                && is_bit(bits@[i].spec_value()@) by {
                assert(decomposed.binds(bits@[i]));
            }
        }
        while k < 256
            invariant
                k <= 256,
                config.wf(),
                ladder_inv(start, region@, config@, bits@, base, acc, k as nat, *offset),
            decreases 256 - k,
        {
            acc = self.ladder_step(region, config, &bits, &base, &acc, k, offset, Ghost(start));
            k = k + 1;
        }
        proof {
            reveal(ladder_inv);
            before.lemma_grown_trans(start, 196, region@, 4864);
            assert(cell_values(bits@).subrange(0, 256) =~= cell_values(bits@));
            region@.lemma_wf();
            decomposed.lemma_grown_trans(start, 1, region@, 4864);
            lemma_chain_layout_keeps(decomposed, region@, 4865, before.rows.len() + 1);
            lemma_chain_layout_keeps(decomposed, region@, 4865, before.rows.len() + 98);
            start.lemma_grown_keeps(region@, 4864);
        }
        Ok(acc)
    }
}

} // verus!
