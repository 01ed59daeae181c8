//! Soundness: what the constraints of each gadget force. Whatever the
//! cells of a region hold, if the region is satisfied, then the cell under
//! an addition holds the sum, the row under a doubling holds the double,
//! the bits of a decomposition are bits and recompose to the value they
//! are tied to, and the last row of a scalar multiplication holds the
//! multiple of the point by the scalar.
//!
//! A gadget is told by where it stands: by the selectors of its rows and
//! by the copy constraints that tie its cells, never by what the cells
//! hold.
use vstd::prelude::*;
use crate::curve::{
    ec_add, ec_double, ec_mul, ec_select_add, lemma_mul_small, on_curve, CurveView, PointValue,
};
use crate::decompose::{
    chain_block, chain_digits, chain_layout, digit_cell, digits_value, high_cell, is_bit,
    is_partial_decomposition, lemma_bit_decomp_gate, lemma_nibble_in_field, lemma_weight_128,
    lemma_weight_sum, low_cell, weight,
};
use crate::field::{fadd, fmul};
use crate::gates::{
    bit_decomp_inputs, lemma_add_gate, lemma_cond_add_gate, lemma_double_gate, lemma_mul_gate,
    lemma_on_curve_gate, row_point, Gate,
};
use crate::points::{cond_add_laid, curve_check_laid, double_laid};
use crate::region::{Cell, Column, RegionView};
use crate::scalar_mul::{
    cell_of, ladder_layout, ladder_step_laid, lemma_digits_concat, lemma_ladder_step,
    scalar_digit_cell, scalar_digits, scalar_layout, step_row,
};

verus! {

/// What block `j` of a chain decomposes, and nothing for the block past
/// the last.
pub open spec fn chain_rest(r: RegionView, n: nat, j: nat) -> nat {
    if j >= 32 {
        0
    } else {
        r.value_at(low_cell(n, j))
    }
}

/// The weight of a place is at least one, and no more than that of a
/// higher place.
pub proof fn lemma_weight_grows(m: nat, k: nat)
    ensures
        weight(m) >= 1,
        weight(m) <= weight(m + k),
        weight(m + 4) == 16 * weight(m),
    decreases m,
{
    lemma_weight_sum(m, k);
    lemma_weight_positive(m);
    lemma_weight_positive(k);
    assert(weight(m) <= weight(m) * weight(k)) by (nonlinear_arith)
        requires
            weight(k) >= 1,
    ;
    assert(weight(m + 4) == 16 * weight(m)) by {
        reveal_with_fuel(weight, 5);
    }
}

/// The weight of a place is at least one.
pub proof fn lemma_weight_positive(m: nat)
    ensures
        weight(m) >= 1,
    decreases m,
{
    if m > 0 {
        lemma_weight_positive((m - 1) as nat);
    }
}

/// In a satisfied region, the cells of block `j` of a chain hold four
/// bits, and what the block decomposes is sixteen times what it leaves
/// plus the four bits at their weights, in the field.
pub proof fn lemma_chain_block_holds(r: RegionView, c: CurveView, n: nat, j: nat)
    requires
        r.wf(),
        r.satisfied(c),
        chain_block(r, n, j),
    ensures
        is_partial_decomposition(
            seq![
                r.value_at(digit_cell(n, 4 * j + 3)),
                r.value_at(digit_cell(n, 4 * j + 2)),
                r.value_at(digit_cell(n, 4 * j + 1)),
                r.value_at(digit_cell(n, 4 * j)),
                r.value_at(high_cell(n, j)),
                r.value_at(low_cell(n, j)),
            ],
        ),
{
    let at = (n + 3 * j) as int;
    r.lemma_wf();
    assert((4 * j) / 4 == j && (4 * j) % 4 == 0);
    assert((4 * j + 1) / 4 == j && (4 * j + 1) % 4 == 1);
    assert((4 * j + 2) / 4 == j && (4 * j + 2) % 4 == 2);
    assert((4 * j + 3) / 4 == j && (4 * j + 3) % 4 == 3);
    r.lemma_gate_holds(c, at);
    let w = r.window(at);
    lemma_bit_decomp_gate(w);
    assert(w[0] == r.rows[at] && w[1] == r.rows[at + 1] && w[2] == r.rows[at + 2]);
    assert(bit_decomp_inputs(w) =~= seq![
        r.value_at(digit_cell(n, 4 * j + 3)),
        r.value_at(digit_cell(n, 4 * j + 2)),
        r.value_at(digit_cell(n, 4 * j + 1)),
        r.value_at(digit_cell(n, 4 * j)),
        r.value_at(high_cell(n, j)),
        r.value_at(low_cell(n, j)),
    ]);
}

/// In a satisfied region, the bits of a chain from block `j` on are bits
/// and recompose to what block `j` decomposes.
pub proof fn lemma_chain_from(r: RegionView, c: CurveView, n: nat, j: nat)
    requires
        r.wf(),
        r.satisfied(c),
        chain_layout(r, n),
        j <= 32,
    ensures
        forall|i: int| 4 * j <= i < 128 ==> is_bit(#[trigger] chain_digits(r, n)[i]),
        digits_value(chain_digits(r, n).subrange(4 * j as int, 128)) == chain_rest(r, n, j),
        chain_rest(r, n, j) < weight((128 - 4 * j) as nat),
    decreases 32 - j,
{
    let d = chain_digits(r, n);
    if j == 32 {
        assert(d.subrange(128, 128) =~= Seq::<nat>::empty());
        lemma_weight_positive(0);
    } else {
        lemma_chain_from(r, c, n, j + 1);
        assert(chain_block(r, n, j));
        lemma_chain_block_holds(r, c, n, j);
        let hi = r.value_at(high_cell(n, j));
        let lo = r.value_at(low_cell(n, j));
        // what the block leaves is what the next one decomposes
        if j == 31 {
            let end = Cell { row: (n + 96) as usize, column: Column::A };
            r.lemma_tied(c, high_cell(n, 31), end);
            r.lemma_gate_holds(c, (n + 96) as int);
            assert(r.window((n + 96) as int)[0] == r.rows[(n + 96) as int]);
        } else {
            assert(chain_block(r, n, j + 1));
            r.lemma_tied(c, high_cell(n, j), low_cell(n, j + 1));
        }
        assert(hi == chain_rest(r, n, j + 1));
        let k = 4 * j as int;
        let (b0, b1, b2, b3) = (d[k], d[k + 1], d[k + 2], d[k + 3]);
        let up = (124 - 4 * j) as nat;
        lemma_weight_grows(up, 4);
        lemma_weight_grows((128 - 4 * j) as nat, 4 * j);
        lemma_weight_128();
        lemma_nibble_in_field(hi, b3, b2, b1, b0);
        // the digits from this block on: four bits, then the rest
        let s0 = d.subrange(k, 128);
        let s1 = d.subrange(k + 1, 128);
        let s2 = d.subrange(k + 2, 128);
        let s3 = d.subrange(k + 3, 128);
        let s4 = d.subrange(k + 4, 128);
        assert(s0.drop_first() =~= s1);
        assert(s1.drop_first() =~= s2);
        assert(s2.drop_first() =~= s3);
        assert(s3.drop_first() =~= s4);
        assert(digits_value(s3) == b3 + 2 * digits_value(s4));
        assert(digits_value(s2) == b2 + 2 * digits_value(s3));
        assert(digits_value(s1) == b1 + 2 * digits_value(s2));
        assert(digits_value(s0) == b0 + 2 * digits_value(s1));
    }
}

/// The decomposition of a 128-bit integer is sound: in a satisfied region
/// that holds a chain from row `n`, whatever its cells hold, the 128 bit
/// cells hold bits, and the bits recompose, as integers, to what the first
/// block decomposes, which is below two to the power 128.
pub proof fn lemma_chain_sound(r: RegionView, c: CurveView, n: nat)
    requires
        r.wf(),
        r.satisfied(c),
        chain_layout(r, n),
    ensures
        forall|i: int| 0 <= i < 128 ==> is_bit(#[trigger] chain_digits(r, n)[i]),
        digits_value(chain_digits(r, n)) == r.value_at(low_cell(n, 0)),
        r.value_at(low_cell(n, 0)) < 0x1_0000_0000_0000_0000_0000_0000_0000_0000,
{
    lemma_chain_from(r, c, n, 0);
    lemma_weight_128();
    assert(chain_digits(r, n).subrange(0, 128) =~= chain_digits(r, n));
}

/// The decomposition of a scalar is sound: in a satisfied region that
/// holds the two chains of a scalar from row `n`, whatever its cells hold,
/// the 256 bit cells hold bits, and the bits recompose to what the first
/// chain decomposes plus two to the power 128 times what the second does.
pub proof fn lemma_scalar_sound(r: RegionView, c: CurveView, n: nat)
    requires
        r.wf(),
        r.satisfied(c),
        scalar_layout(r, n),
    ensures
        forall|i: int| 0 <= i < 256 ==> is_bit(#[trigger] scalar_digits(r, n)[i]),
        digits_value(scalar_digits(r, n)) == r.value_at(low_cell(n, 0))
            + 0x1_0000_0000_0000_0000_0000_0000_0000_0000 * r.value_at(low_cell(n + 97, 0)),
{
    lemma_chain_sound(r, c, n);
    lemma_chain_sound(r, c, n + 97);
    let low = chain_digits(r, n);
    let high = chain_digits(r, n + 97);
    assert(scalar_digits(r, n) =~= low + high);
    lemma_digits_concat(low, high);
    lemma_weight_128();
    assert forall|i: int| 0 <= i < 256 implies is_bit(#[trigger] scalar_digits(r, n)[i]) by {
        if i < 128 {
            assert(is_bit(low[i]));
        } else {
            assert(is_bit(high[i - 128]));
        }
    }
}

/// The two residues of row `row` of the region read as a point.
pub open spec fn point_at(r: RegionView, row: nat) -> PointValue {
    row_point(r.rows, row as int)
}

/// In a satisfied region, the last row of a step of a scalar
/// multiplication holds what the step makes of the row before it: twice
/// that row, plus the base point where the bit of the step is one.
pub proof fn lemma_ladder_step_sound(r: RegionView, c: CurveView, n: nat, k: nat)
    requires
        r.wf(),
        r.satisfied(c),
        ladder_step_laid(r, n, k),
    ensures
        point_at(r, step_row(n, k) + 18) == ec_select_add(
            c,
            ec_double(c, point_at(r, (step_row(n, k) - 1) as nat)),
            point_at(r, n),
            r.value_at(scalar_digit_cell(n + 1, (255 - k) as nat)),
        ),
{
    let d = step_row(n, k);
    let a = d + 5;
    r.lemma_wf();
    r.lemma_gate_holds(c, d as int);
    let w = r.window(d as int);
    lemma_double_gate(c, w);
    assert(w[0] == r.rows[d as int] && w[4] == r.rows[d as int + 4]);
    r.lemma_tied(c, cell_of((d - 1) as nat, Column::A), cell_of(d, Column::A));
    r.lemma_tied(c, cell_of((d - 1) as nat, Column::B), cell_of(d, Column::B));
    assert(point_at(r, d) == point_at(r, (d - 1) as nat));
    r.lemma_gate_holds(c, a as int);
    let v = r.window(a as int);
    lemma_cond_add_gate(c, v);
    assert(v[0] == r.rows[a as int] && v[1] == r.rows[a as int + 1] && v[2] == r.rows[a as int
        + 2] && v[13] == r.rows[a as int + 13]);
    r.lemma_tied(c, cell_of(d + 4, Column::A), cell_of(a, Column::A));
    r.lemma_tied(c, cell_of(d + 4, Column::B), cell_of(a, Column::B));
    r.lemma_tied(c, cell_of(n, Column::A), cell_of(a + 1, Column::A));
    r.lemma_tied(c, cell_of(n, Column::B), cell_of(a + 1, Column::B));
    r.lemma_tied(c, scalar_digit_cell(n + 1, (255 - k) as nat), cell_of(a + 2, Column::A));
    assert(point_at(r, a) == point_at(r, d + 4));
    assert(point_at(r, a + 1) == point_at(r, n));
}

/// In a satisfied region, the row that ends step `k - 1` of a scalar
/// multiplication holds the multiple of the base point by the `k` highest
/// bits of the scalar.
pub proof fn lemma_ladder_upto(r: RegionView, c: CurveView, n: nat, k: nat)
    requires
        r.wf(),
        r.satisfied(c),
        ladder_layout(r, n),
        k <= 256,
    ensures
        point_at(r, n + 195 + 19 * k) == ec_mul(
            c,
            digits_value(scalar_digits(r, n + 1).subrange(256 - k, 256)),
            point_at(r, n),
        ),
    decreases k,
{
    let bits = scalar_digits(r, n + 1);
    let base = point_at(r, n);
    r.lemma_wf();
    if k == 0 {
        r.lemma_gate_holds(c, (n + 195) as int);
        assert(r.window((n + 195) as int)[0] == r.rows[(n + 195) as int]);
        assert(bits.subrange(256, 256) =~= Seq::<nat>::empty());
        lemma_mul_small(c, base);
    } else {
        let j = (k - 1) as nat;
        lemma_ladder_upto(r, c, n, j);
        assert(ladder_step_laid(r, n, j));
        lemma_ladder_step_sound(r, c, n, j);
        lemma_scalar_sound(r, c, n + 1);
        let upper = bits.subrange(256 - j, 256);
        let wider = bits.subrange(256 - k, 256);
        assert(wider.drop_first() =~= upper);
        assert(is_bit(bits[256 - k]));
        assert(digits_value(wider) == bits[256 - k] + 2 * digits_value(upper));
        assert(r.rows[n as int].a.wf() && r.rows[n as int].b.wf()) by {
            reveal(RegionView::wf);
        }
        lemma_ladder_step(c, digits_value(upper), bits[256 - k], base);
    }
}

/// Scalar multiplication is sound: in a satisfied region that holds a
/// scalar multiplication from row `n`, whatever its cells hold, the last
/// row holds the multiple of the point in row `n` by the number that the
/// 256 bit cells recompose to, and that number is what the two chains
/// decompose.
pub proof fn lemma_ladder_sound(r: RegionView, c: CurveView, n: nat)
    requires
        r.wf(),
        r.satisfied(c),
        ladder_layout(r, n),
    ensures
        point_at(r, n + 5059) == ec_mul(
            c,
            digits_value(scalar_digits(r, n + 1)),
            point_at(r, n),
        ),
        digits_value(scalar_digits(r, n + 1)) == r.value_at(low_cell(n + 1, 0))
            + 0x1_0000_0000_0000_0000_0000_0000_0000_0000 * r.value_at(low_cell(n + 98, 0)),
{
    lemma_ladder_upto(r, c, n, 256);
    lemma_scalar_sound(r, c, n + 1);
    assert(scalar_digits(r, n + 1).subrange(0, 256) =~= scalar_digits(r, n + 1));
}

/// The pair of residues that two cells of the region hold, read as a
/// point.
pub open spec fn point_in(r: RegionView, x: Cell, y: Cell) -> PointValue {
    PointValue { x: r.value_at(x), y: r.value_at(y) }
}

/// Addition is sound: in a satisfied region, whatever its cells hold, the
/// cell under a block of the addition gate holds the sum of the two cells
/// of the block.
pub proof fn lemma_add_sound(r: RegionView, c: CurveView, n: nat)
    requires
        r.wf(),
        r.satisfied(c),
        n < r.rows.len(),
        r.rows[n as int].gate == Gate::Add,
    ensures
        n + 2 <= r.rows.len(),
        r.value_at(cell_of(n + 1, Column::A)) == fadd(
            r.value_at(cell_of(n, Column::A)),
            r.value_at(cell_of(n, Column::B)),
        ),
{
    r.lemma_wf();
    r.lemma_gate_holds(c, n as int);
    let w = r.window(n as int);
    lemma_add_gate(w);
    assert(w[0] == r.rows[n as int] && w[1] == r.rows[n as int + 1]);
}

/// Multiplication is sound: in a satisfied region, whatever its cells
/// hold, the cell under a block of the multiplication gate holds the
/// product of the two cells of the block.
pub proof fn lemma_mul_sound(r: RegionView, c: CurveView, n: nat)
    requires
        r.wf(),
        r.satisfied(c),
        n < r.rows.len(),
        r.rows[n as int].gate == Gate::Mul,
    ensures
        n + 2 <= r.rows.len(),
        r.value_at(cell_of(n + 1, Column::A)) == fmul(
            r.value_at(cell_of(n, Column::A)),
            r.value_at(cell_of(n, Column::B)),
        ),
{
    r.lemma_wf();
    r.lemma_gate_holds(c, n as int);
    let w = r.window(n as int);
    lemma_mul_gate(w);
    assert(w[0] == r.rows[n as int] && w[1] == r.rows[n as int + 1]);
}

/// The partial bit decomposition is sound: in a satisfied region,
/// whatever its cells hold, the six cells of a block of the
/// bit-decomposition gate hold a partial decomposition.
pub proof fn lemma_partial_bit_decomp_sound(r: RegionView, c: CurveView, n: nat)
    requires
        r.wf(),
        r.satisfied(c),
        n < r.rows.len(),
        r.rows[n as int].gate == Gate::BitDecomp,
    ensures
        n + 3 <= r.rows.len(),
        is_partial_decomposition(
            seq![
                r.value_at(cell_of(n, Column::A)),
                r.value_at(cell_of(n, Column::B)),
                r.value_at(cell_of(n + 1, Column::A)),
                r.value_at(cell_of(n + 1, Column::B)),
                r.value_at(cell_of(n + 2, Column::A)),
                r.value_at(cell_of(n + 2, Column::B)),
            ],
        ),
{
    r.lemma_wf();
    r.lemma_gate_holds(c, n as int);
    let w = r.window(n as int);
    lemma_bit_decomp_gate(w);
    assert(w[0] == r.rows[n as int] && w[1] == r.rows[n as int + 1] && w[2] == r.rows[n as int
        + 2]);
    assert(bit_decomp_inputs(w) =~= seq![
        r.value_at(cell_of(n, Column::A)),
        r.value_at(cell_of(n, Column::B)),
        r.value_at(cell_of(n + 1, Column::A)),
        r.value_at(cell_of(n + 1, Column::B)),
        r.value_at(cell_of(n + 2, Column::A)),
        r.value_at(cell_of(n + 2, Column::B)),
    ]);
}

/// The curve check is sound: in a satisfied region, whatever its cells
/// hold, a point on whose cells the curve equation has been laid is a
/// point of the curve.
pub proof fn lemma_curve_check_sound(r: RegionView, c: CurveView, x: Cell, y: Cell, n: nat)
    requires
        r.wf(),
        r.satisfied(c),
        curve_check_laid(r, x, y, n),
    ensures
        on_curve(c, point_in(r, x, y)),
{
    r.lemma_wf();
    r.lemma_gate_holds(c, n as int);
    let w = r.window(n as int);
    lemma_on_curve_gate(c, w);
    assert(w[0] == r.rows[n as int]);
    r.lemma_tied(c, x, cell_of(n, Column::A));
    r.lemma_tied(c, y, cell_of(n, Column::B));
}

/// Doubling is sound: in a satisfied region, whatever its cells hold, the
/// last row of a doubling holds twice the point that the doubling is tied
/// to.
pub proof fn lemma_double_sound(r: RegionView, c: CurveView, x: Cell, y: Cell, n: nat)
    requires
        r.wf(),
        r.satisfied(c),
        double_laid(r, x, y, n),
    ensures
        n + 5 <= r.rows.len(),
        point_at(r, n + 4) == ec_double(c, point_in(r, x, y)),
{
    r.lemma_wf();
    r.lemma_gate_holds(c, n as int);
    let w = r.window(n as int);
    lemma_double_gate(c, w);
    assert(w[0] == r.rows[n as int] && w[4] == r.rows[n as int + 4]);
    r.lemma_tied(c, x, cell_of(n, Column::A));
    r.lemma_tied(c, y, cell_of(n, Column::B));
}

/// Conditional addition is sound: in a satisfied region, whatever its
/// cells hold, the last row of a conditional addition holds the blend of
/// the sum of the two points it is tied to and the first of them: the sum
/// where the bit it is tied to is one, the first point where the bit is
/// zero.
pub proof fn lemma_cond_add_sound(
    r: RegionView,
    c: CurveView,
    p: (Cell, Cell),
    q: (Cell, Cell),
    bit: Cell,
    n: nat,
)
    requires
        r.wf(),
        r.satisfied(c),
        cond_add_laid(r, p, q, bit, n),
    ensures
        n + 14 <= r.rows.len(),
        point_at(r, n + 13) == ec_select_add(
            c,
            point_in(r, p.0, p.1),
            point_in(r, q.0, q.1),
            r.value_at(bit),
        ),
        r.value_at(bit) == 1 ==> point_at(r, n + 13) == ec_add(
            c,
            point_in(r, p.0, p.1),
            point_in(r, q.0, q.1),
        ),
        r.value_at(bit) == 0 ==> point_at(r, n + 13) == point_in(r, p.0, p.1),
{
    r.lemma_wf();
    r.lemma_gate_holds(c, n as int);
    let w = r.window(n as int);
    lemma_cond_add_gate(c, w);
    assert(w[0] == r.rows[n as int] && w[1] == r.rows[n as int + 1] && w[2] == r.rows[n as int
        + 2] && w[13] == r.rows[n as int + 13]);
    r.lemma_tied(c, p.0, cell_of(n, Column::A));
    r.lemma_tied(c, p.1, cell_of(n, Column::B));
    r.lemma_tied(c, q.0, cell_of(n + 1, Column::A));
    r.lemma_tied(c, q.1, cell_of(n + 1, Column::B));
    r.lemma_tied(c, bit, cell_of(n + 2, Column::A));
}

} // verus!
