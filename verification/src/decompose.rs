//! Decomposition gadgets: a value as an ordered sequence of bits and a
//! remainder, tied back to the value by a recomposition identity.
use vstd::prelude::*;
use crate::chip::{advanced, cell_at, untouched, ECChip, ECConfig};
use crate::curve::CurveView;
use crate::field::{fadd, fmul, lemma_boolean, lemma_canonical, modulus, Fe};
use crate::gates::{
    bit_decomp_constraints, bit_decomp_holds, bit_decomp_inputs, lemma_vanishes, nibble,
    rows_wf, Gate, Row,
};
use crate::region::{placement_error, Cell, Column, Error, FieldCell, Region, RegionView};

verus! {

/// The digits of a decomposition, least significant first, the cell that
/// holds what is left above them, and the cell that holds the value.
#[derive(Debug)]
pub struct Decomposition {
    pub digits: Vec<FieldCell>,
    pub remainder: FieldCell,
    pub value: FieldCell,
}

/// The residue is zero or one.
pub open spec fn is_bit(b: nat) -> bool {
    b == 0 || b == 1
}

/// The number that a sequence of binary digits stands for, least
/// significant digit first.
pub open spec fn digits_value(d: Seq<nat>) -> nat
    decreases d.len(),
{
    if d.len() == 0 {
        0
    } else {
        d[0] + 2 * digits_value(d.drop_first())
    }
}

/// Two to the power `n`.
pub open spec fn weight(n: nat) -> nat
    decreases n,
{
    if n == 0 {
        1
    } else {
        2 * weight((n - 1) as nat)
    }
}

/// The residues held by a sequence of cells.
pub open spec fn cell_values(cells: Seq<FieldCell>) -> Seq<nat> {
    Seq::new(cells.len(), |i: int| cells[i].spec_value()@)
}

/// What the partial bit decomposition accepts: the six residues
/// `b3 b2 b1 b0 hi lo` with four bits and `lo = 16 hi + 8 b3 + 4 b2 + 2 b1 + b0`.
pub open spec fn is_partial_decomposition(v: Seq<nat>) -> bool {
    &&& is_bit(v[0])
    &&& is_bit(v[1])
    &&& is_bit(v[2])
    &&& is_bit(v[3])
    &&& v[5] == fadd(fmul(v[4], 16), nibble(v[0], v[1], v[2], v[3]))
}

/// The constraints of the bit-decomposition gate hold on the partial
/// decompositions and on nothing else.
pub proof fn lemma_bit_decomp_constraints(v: Seq<nat>)
    requires
        v.len() == 6,
        forall|i: int| 0 <= i < 6 ==> v[i] < modulus(),
    ensures
        bit_decomp_constraints(v) <==> is_partial_decomposition(v),
{
    lemma_boolean(v[0]);
    lemma_boolean(v[1]);
    lemma_boolean(v[2]);
    lemma_boolean(v[3]);
    lemma_canonical();
    lemma_vanishes(v[5], fadd(fmul(v[4], 16), nibble(v[0], v[1], v[2], v[3])));
}

/// The bit-decomposition gate holds exactly where its block holds a
/// partial decomposition.
pub proof fn lemma_bit_decomp_gate(w: Seq<Row>)
    requires
        w.len() == 3,
        rows_wf(w),
    ensures
        bit_decomp_holds(w) <==> is_partial_decomposition(bit_decomp_inputs(w)),
{
    assert(w[0].a.wf() && w[0].b.wf());
    assert(w[1].a.wf() && w[1].b.wf());
    assert(w[2].a.wf() && w[2].b.wf());
    lemma_bit_decomp_constraints(bit_decomp_inputs(w));
}

/// Every one of the residues is a bit.
pub open spec fn all_bits(d: Seq<nat>) -> bool {
    forall|i: int| 0 <= i < d.len() ==> is_bit(#[trigger] d[i])
}

/// A number has one sequence of binary digits of a given length at most:
/// sequences of bits of the same length that stand for the same number
/// are the same.
pub proof fn lemma_digits_unique(d: Seq<nat>, e: Seq<nat>)
    requires
        d.len() == e.len(),
        all_bits(d),
        all_bits(e),
        digits_value(d) == digits_value(e),
    ensures
        d == e,
    decreases d.len(),
{
    if d.len() > 0 {
        assert(is_bit(d[0]) && is_bit(e[0]));
        let (dt, et) = (d.drop_first(), e.drop_first());
        assert(d[0] == e[0] && digits_value(dt) == digits_value(et));
        assert(all_bits(dt)) by {
            assert forall|i: int| 0 <= i < dt.len() implies is_bit(#[trigger] dt[i]) by {
                assert(dt[i] == d[i + 1]);
            }
        }
        assert(all_bits(et)) by {
            assert forall|i: int| 0 <= i < et.len() implies is_bit(#[trigger] et[i]) by {
                assert(et[i] == e[i + 1]);
            }
        }
        lemma_digits_unique(dt, et);
        assert(d =~= seq![d[0]] + dt);
        assert(e =~= seq![e[0]] + et);
    } else {
        assert(d =~= e);
    }
}

/// A digit that is set makes the number at least the weight of its place:
/// the digits at the places whose weight is above the number are zero.
pub proof fn lemma_digit_weight(d: Seq<nat>, i: int)
    requires
        0 <= i < d.len(),
        all_bits(d),
    ensures
        weight(i as nat) * d[i] <= digits_value(d),
    decreases d.len(),
{
    if i == 0 {
        assert(1 * d[0] == d[0]) by (nonlinear_arith);
    } else {
        let t = d.drop_first();
        assert(all_bits(t)) by {
            assert forall|k: int| 0 <= k < t.len() implies is_bit(#[trigger] t[k]) by {
                assert(t[k] == d[k + 1]);
            }
        }
        lemma_digit_weight(t, i - 1);
        assert(t[i - 1] == d[i]);
        let w = weight((i - 1) as nat);
        assert((2 * w) * d[i] == 2 * (w * d[i])) by (nonlinear_arith);
    }
}

/// Appending a digit adds it at the weight of its place.
pub proof fn lemma_digits_push(d: Seq<nat>, b: nat)
    ensures
        digits_value(d.push(b)) == digits_value(d) + weight(d.len()) * b,
    decreases d.len(),
{
    if d.len() == 0 {
        assert(d.push(b).drop_first() =~= Seq::<nat>::empty());
        assert(digits_value(d.push(b)) == b + 2 * digits_value(Seq::<nat>::empty()));
        assert(1 * b == b) by (nonlinear_arith);
    } else {
        let t = d.drop_first();
        assert(d.push(b).drop_first() =~= t.push(b));
        lemma_digits_push(t, b);
        assert(2 * (weight(t.len()) * b) == (2 * weight(t.len())) * b) by (nonlinear_arith);
    }
}

/// Four binary digits and what is left above them make up a number in
/// the field as they do among the integers, as long as it stays below two
/// to the power 128.
pub proof fn lemma_nibble_in_field(hi: nat, b3: nat, b2: nat, b1: nat, b0: nat)
    requires
        is_bit(b3),
        is_bit(b2),
        is_bit(b1),
        is_bit(b0),
        16 * hi + 15 < 0x1_0000_0000_0000_0000_0000_0000_0000_0000,
    ensures
        fadd(fmul(hi, 16), nibble(b3, b2, b1, b0)) == 16 * hi + 8 * b3 + 4 * b2 + 2 * b1 + b0,
{
    assert(fmul(hi, 16) == 16 * hi) by {
        reveal(fmul);
        assert(hi * 16 == 16 * hi) by (nonlinear_arith);
    }
    assert(fmul(8, b3) == 8 * b3 && fmul(4, b2) == 4 * b2 && fmul(2, b1) == 2 * b1) by {
        reveal(fmul);
    }
    let s1 = fadd(fmul(8, b3), fmul(4, b2));
    assert(s1 == 8 * b3 + 4 * b2) by {
        reveal(fadd);
    }
    let s2 = fadd(s1, fmul(2, b1));
    assert(s2 == 8 * b3 + 4 * b2 + 2 * b1) by {
        reveal(fadd);
    }
    let s3 = fadd(s2, b0);
    assert(s3 == 8 * b3 + 4 * b2 + 2 * b1 + b0) by {
        reveal(fadd);
    }
    assert(fadd(fmul(hi, 16), s3) == 16 * hi + s3) by {
        reveal(fadd);
    }
}

/// A number is sixteen times what is left above its lowest four bits,
/// plus those bits at their weights.
pub proof fn lemma_nibble_split(rest: nat)
    ensures
        rest == 16 * (rest / 16) + (rest % 2) + 2 * ((rest / 2) % 2) + 4 * ((rest / 4) % 2) + 8
            * ((rest / 8) % 2),
{
    let (q2, q4, q8, q16) = (rest / 2, rest / 4, rest / 8, rest / 16);
    assert(q4 == q2 / 2);
    assert(q8 == q4 / 2);
    assert(q16 == q8 / 2);
}

/// One block further along the chain, the bits laid down and what is left
/// above them still make up the value.
pub proof fn lemma_chain_value(d: Seq<nat>, e: Seq<nat>, v: nat, rest: nat)
    requires
        v == digits_value(d) + weight(d.len()) * rest,
        e == d.push(rest % 2).push((rest / 2) % 2).push((rest / 4) % 2).push((rest / 8) % 2),
    ensures
        v == digits_value(e) + weight(e.len()) * (rest / 16),
{
    let (b0, b1, b2, b3) = (rest % 2, (rest / 2) % 2, (rest / 4) % 2, (rest / 8) % 2);
    let hi = rest / 16;
    let nib = b0 + 2 * b1 + 4 * b2 + 8 * b3;
    assert(rest == 16 * hi + nib) by {
        lemma_nibble_split(rest);
    }
    let w = weight(d.len());
    assert(digits_value(e) == digits_value(d) + w * nib && weight(e.len()) == 16 * w) by {
        lemma_digits_push_nibble(d, b0, b1, b2, b3);
    }
    assert(w * rest == (16 * w) * hi + w * nib) by (nonlinear_arith)
        requires
            rest == 16 * hi + nib,
    ;
}

impl ECChip {
    /// Lays down the six field elements `b3 b2 b1 b0 hi lo` under the
    /// bit-decomposition gate. Nothing is computed: the region stays
    /// satisfied where the six are a partial decomposition, and is not
    /// satisfied from then on where they are not.
    pub fn partial_bit_decomp(
        &self,
        region: &mut Region,
        config: &ECConfig,
        inputs: &[Fe],
        offset: &mut usize,
    ) -> (r: Result<Decomposition, Error>)
        requires
            old(region)@.wf(),
            forall|i: int| 0 <= i < inputs@.len() ==> (#[trigger] inputs@[i]).wf(),
        ensures
            final(region)@.wf(),
            inputs@.len() != 6 ==> (r matches Err(e) && e == Error::InvalidInput) && untouched(
                old(region)@,
                final(region)@,
                *old(offset),
                *final(offset),
            ),
            inputs@.len() == 6 ==> match placement_error(old(region)@, *old(offset), 3) {
                Some(e) => (r matches Err(x) && x == e) && untouched(
                    old(region)@,
                    final(region)@,
                    *old(offset),
                    *final(offset),
                ),
                None => r.is_ok() && advanced(
                    old(region)@,
                    final(region)@,
                    *old(offset),
                    *final(offset),
                    3,
                ),
            },
            r matches Ok(d) ==> {
                let n = old(region)@.rows.len() as int;
                let w = final(region)@.rows.subrange(n, n + 3);
                let given = Seq::new(6, |i: int| inputs@[i]@);
                &&& final(region)@.copies == old(region)@.copies
                &&& bit_decomp_inputs(w) == given
                &&& w[0].gate == Gate::BitDecomp && w[1].gate == Gate::Off && w[2].gate
                    == Gate::Off
                &&& d.digits@.len() == 4
                &&& forall|i: int|
                    0 <= i < 4 ==> #[trigger] final(region)@.binds(d.digits@[i])
                &&& cell_values(d.digits@) == seq![given[3], given[2], given[1], given[0]]
                &&& d.digits@[0].spec_cell() == (Cell { row: (n + 1) as usize, column: Column::B })
                &&& d.digits@[1].spec_cell() == (Cell { row: (n + 1) as usize, column: Column::A })
                &&& d.digits@[2].spec_cell() == (Cell { row: n as usize, column: Column::B })
                &&& d.digits@[3].spec_cell() == (Cell { row: n as usize, column: Column::A })
                &&& final(region)@.binds(d.remainder) && d.remainder.spec_value()@ == given[4]
                &&& d.remainder.spec_cell() == (Cell { row: (n + 2) as usize, column: Column::A })
                &&& final(region)@.binds(d.value) && d.value.spec_value()@ == given[5]
                &&& d.value.spec_cell() == (Cell { row: (n + 2) as usize, column: Column::B })
                &&& final(region)@.satisfied(config@) <==> old(region)@.satisfied(config@)
                    && is_partial_decomposition(given)
            },
    {
        if inputs.len() != 6 {
            return Err(Error::InvalidInput);
        }
        let block = vec![
            Row { a: inputs[0], b: inputs[1], gate: Gate::BitDecomp },
            Row { a: inputs[2], b: inputs[3], gate: Gate::Off },
            Row { a: inputs[4], b: inputs[5], gate: Gate::Off },
        ];
        proof {
            if placement_error(region@, *offset, 3).is_none() {
                region@.lemma_extend(config@, block@);
                lemma_bit_decomp_gate(block@);
                let n = region@.rows.len() as int;
                assert(region@.extend(block@).rows.subrange(n, n + 3) =~= block@);
                assert(bit_decomp_inputs(block@) =~= Seq::new(6, |i: int| inputs@[i]@));
            }
        }
        let start = region.place(block, offset)?;
        let digits = vec![
            FieldCell::new(inputs[3], cell_at(start + 1, Column::B)),
            FieldCell::new(inputs[2], cell_at(start + 1, Column::A)),
            FieldCell::new(inputs[1], cell_at(start, Column::B)),
            FieldCell::new(inputs[0], cell_at(start, Column::A)),
        ];
        proof {
            let given = Seq::new(6, |i: int| inputs@[i]@);
            assert(cell_values(digits@) =~= seq![given[3], given[2], given[1], given[0]]);
        }
        Ok(
            Decomposition {
                digits,
                remainder: FieldCell::new(inputs[4], cell_at(start + 2, Column::A)),
                value: FieldCell::new(inputs[5], cell_at(start + 2, Column::B)),
            },
        )
    }
}

/// The cell that holds what block `j` of a chain from row `n` decomposes.
pub open spec fn low_cell(n: nat, j: nat) -> Cell {
    Cell { row: (n + 3 * j + 2) as usize, column: Column::B }
}

/// The cell that holds what is left above the four bits of block `j` of a
/// chain from row `n`.
pub open spec fn high_cell(n: nat, j: nat) -> Cell {
    Cell { row: (n + 3 * j + 2) as usize, column: Column::A }
}

/// The cell that holds bit `i` of a chain from row `n`: block `i / 4`
/// holds its four bits as `b3 b2 | b1 b0`.
pub open spec fn digit_cell(n: nat, i: nat) -> Cell {
    let j = i / 4;
    if i % 4 == 0 {
        Cell { row: (n + 3 * j + 1) as usize, column: Column::B }
    } else if i % 4 == 1 {
        Cell { row: (n + 3 * j + 1) as usize, column: Column::A }
    } else if i % 4 == 2 {
        Cell { row: (n + 3 * j) as usize, column: Column::B }
    } else {
        Cell { row: (n + 3 * j) as usize, column: Column::A }
    }
}

/// Block `j` of a chain from row `n` stands in the region: its rows are
/// under the bit-decomposition gate, and what it decomposes is tied to
/// what the block before it left.
pub open spec fn chain_block(r: RegionView, n: nat, j: nat) -> bool {
    &&& n + 3 * j + 3 <= r.rows.len()
    &&& r.rows[(n + 3 * j) as int].gate == Gate::BitDecomp
    &&& j > 0 ==> r.copies.contains((high_cell(n, (j - 1) as nat), low_cell(n, j)))
}

/// A whole chain from row `n` stands in the region: its thirty-two
/// blocks, and the row of zeros that what the last block left is tied to.
pub open spec fn chain_layout(r: RegionView, n: nat) -> bool {
    &&& n + 97 <= r.rows.len() <= usize::MAX
    &&& forall|j: nat| j < 32 ==> #[trigger] chain_block(r, n, j)
    &&& r.rows[(n + 96) as int].gate == Gate::Zero
    &&& r.copies.contains((high_cell(n, 31), Cell { row: (n + 96) as usize, column: Column::A }))
}

/// The residues in the 128 bit cells of a chain from row `n`, least
/// significant first.
pub open spec fn chain_digits(r: RegionView, n: nat) -> Seq<nat> {
    Seq::new(128, |i: int| r.value_at(digit_cell(n, i as nat)))
}

/// The number of rows that the decomposition of a 128-bit integer takes:
/// thirty-two blocks of four bits and the row that closes the chain.
pub const U128_ROWS: usize = 97;

/// Two to the power 128.
pub proof fn lemma_weight_128()
    ensures
        weight(128) == 0x1_0000_0000_0000_0000_0000_0000_0000_0000,
{
    lemma_weight_sum(4, 4);
    lemma_weight_sum(8, 8);
    lemma_weight_sum(16, 16);
    lemma_weight_sum(32, 32);
    lemma_weight_sum(64, 64);
    assert(weight(4) == 16) by {
        reveal_with_fuel(weight, 5);
    }
    let (w8, w16, w32, w64) = (weight(8), weight(16), weight(32), weight(64));
    assert(w8 == 256) by (nonlinear_arith)
        requires
            w8 == weight(4) * weight(4),
            weight(4) == 16,
    ;
    assert(w16 == 65536) by (nonlinear_arith)
        requires
            w16 == w8 * w8,
            w8 == 256,
    ;
    assert(w32 == 0x1_0000_0000) by (nonlinear_arith)
        requires
            w32 == w16 * w16,
            w16 == 65536,
    ;
    assert(w64 == 0x1_0000_0000_0000_0000) by (nonlinear_arith)
        requires
            w64 == w32 * w32,
            w32 == 0x1_0000_0000,
    ;
    assert(weight(128) == 0x1_0000_0000_0000_0000_0000_0000_0000_0000) by (nonlinear_arith)
        requires
            weight(128) == w64 * w64,
            w64 == 0x1_0000_0000_0000_0000,
    ;
}

/// The weight of a sum of places is the product of their weights.
pub proof fn lemma_weight_sum(m: nat, n: nat)
    ensures
        weight(m + n) == weight(m) * weight(n),
    decreases n,
{
    if n == 0 {
        assert(weight(m) * 1 == weight(m)) by (nonlinear_arith);
    } else {
        lemma_weight_sum(m, (n - 1) as nat);
        assert(2 * (weight(m) * weight((n - 1) as nat)) == weight(m) * (2 * weight(
            (n - 1) as nat,
        ))) by (nonlinear_arith);
    }
}

/// Four more digits above `d` add their nibble at the weight of `d`.
pub proof fn lemma_digits_push_nibble(d: Seq<nat>, b0: nat, b1: nat, b2: nat, b3: nat)
    ensures
        digits_value(d.push(b0).push(b1).push(b2).push(b3)) == digits_value(d) + weight(d.len())
            * (b0 + 2 * b1 + 4 * b2 + 8 * b3),
        weight(d.len() + 4) == 16 * weight(d.len()),
{
    lemma_digits_push(d, b0);
    lemma_digits_push(d.push(b0), b1);
    lemma_digits_push(d.push(b0).push(b1), b2);
    lemma_digits_push(d.push(b0).push(b1).push(b2), b3);
    let w = weight(d.len());
    assert(weight(d.len() + 1) == 2 * w);
    assert(weight(d.len() + 2) == 4 * w);
    assert(weight(d.len() + 3) == 8 * w);
    assert(weight(d.len() + 4) == 16 * w);
    assert(w * b0 + (2 * w) * b1 + (4 * w) * b2 + (8 * w) * b3 == w * (b0 + 2 * b1 + 4 * b2 + 8
        * b3)) by (nonlinear_arith);
}

/// The four cells of `digits` from index `at` on are the bit cells of the
/// block that starts in row `start`, least significant first.
pub open spec fn nibble_cells(digits: Seq<FieldCell>, at: int, start: usize) -> bool {
    &&& digits[at].spec_cell() == (Cell { row: (start + 1) as usize, column: Column::B })
    &&& digits[at + 1].spec_cell() == (Cell { row: (start + 1) as usize, column: Column::A })
    &&& digits[at + 2].spec_cell() == (Cell { row: start, column: Column::B })
    &&& digits[at + 3].spec_cell() == (Cell { row: start, column: Column::A })
}

/// Every one of the cells is the bit cell of its place in a chain from
/// row `n`.
pub open spec fn digit_cells(digits: Seq<FieldCell>, n: nat) -> bool {
    forall|i: int|
        0 <= i < digits.len() ==> (#[trigger] digits[i]).spec_cell() == digit_cell(n, i as nat)
}

/// A block of a chain stays where the region grows.
pub proof fn lemma_chain_block_keeps(r: RegionView, later: RegionView, m: nat, n: nat, j: nat)
    requires
        r.grown_by(later, m),
        chain_block(r, n, j),
    ensures
        chain_block(later, n, j),
{
    r.lemma_grown_keeps(later, m);
    r.lemma_grown_keeps_copies(later, m);
}

/// A chain stays where the region grows.
pub proof fn lemma_chain_layout_keeps(r: RegionView, later: RegionView, m: nat, n: nat)
    requires
        r.grown_by(later, m),
        later.rows.len() <= usize::MAX,
        chain_layout(r, n),
    ensures
        chain_layout(later, n),
{
    r.lemma_grown_keeps(later, m);
    r.lemma_grown_keeps_copies(later, m);
    assert forall|j: nat| j < 32 implies #[trigger] chain_block(later, n, j) by {
        lemma_chain_block_keeps(r, later, m, n, j);
    }
}

/// One block further, the blocks of a chain from row `n` stand in the
/// region and the cells of its bits are where they belong.
pub proof fn lemma_chain_blocks_step(
    mid: RegionView,
    now: RegionView,
    n: nat,
    j: nat,
    above: Cell,
    old_digits: Seq<FieldCell>,
    digits: Seq<FieldCell>,
)
    requires
        mid.grown_by(now, 3),
        mid.rows.len() == n + 3 * j,
        n + 3 * j + 3 <= usize::MAX,
        forall|k: nat| k < j ==> #[trigger] chain_block(mid, n, k),
        j > 0 ==> above == high_cell(n, (j - 1) as nat),
        now.rows[(n + 3 * j) as int].gate == Gate::BitDecomp,
        j > 0 ==> now.copies.contains((above, low_cell(n, j))),
        old_digits.len() == 4 * j,
        digits.len() == 4 * j + 4,
        digits.subrange(0, 4 * j as int) == old_digits,
        digit_cells(old_digits, n),
        nibble_cells(digits, 4 * j as int, (n + 3 * j) as usize),
    ensures
        forall|k: nat| k < j + 1 ==> #[trigger] chain_block(now, n, k),
        digit_cells(digits, n),
{
    assert forall|k: nat| k < j + 1 implies #[trigger] chain_block(now, n, k) by {
        if k < j {
            lemma_chain_block_keeps(mid, now, 3, n, k);
        }
    }
    assert forall|i: int| 0 <= i < digits.len() implies (#[trigger] digits[i]).spec_cell()
        == digit_cell(n, i as nat) by {
        if i < 4 * j {
            assert(digits.subrange(0, 4 * j as int)[i] == digits[i]);
            assert(old_digits[i].spec_cell() == digit_cell(n, i as nat));
        } else {
            assert(i / 4 == j as int);
        }
    }
}

impl ECChip {
    /// Lays down one block of the bit-decomposition gate for the lowest
    /// four bits of `rest`, ties `rest` to the cell `above` where `tie` is
    /// set, and appends the four bit cells to `digits`, least significant
    /// first. Hands back the cell that holds `rest / 16`.
    fn place_nibble(
        region: &mut Region,
        config: &ECConfig,
        rest: u128,
        tie: bool,
        above: Cell,
        digits: &mut Vec<FieldCell>,
        offset: &mut usize,
    ) -> (r: Cell)
        requires
            old(region)@.wf(),
            placement_error(old(region)@, *old(offset), 3).is_none(),
            tie ==> old(region)@.in_range(above) && old(region)@.value_at(above) == rest as nat,
        ensures
            final(region)@.wf(),
            advanced(old(region)@, final(region)@, *old(offset), *final(offset), 3),
            final(region)@.satisfied(config@) <==> old(region)@.satisfied(config@),
            r == (Cell { row: (*old(offset) + 2) as usize, column: Column::A }),
            final(region)@.in_range(r),
            final(region)@.value_at(r) == rest as nat / 16,
            final(region)@.value_at(Cell { row: r.row, column: Column::B }) == rest as nat,
            final(digits)@.len() == old(digits)@.len() + 4,
            final(digits)@.subrange(0, old(digits)@.len() as int) == old(digits)@,
            forall|i: int|
                old(digits)@.len() <= i < final(digits)@.len() ==> #[trigger] final(region)@.binds(
                    final(digits)@[i],
                ),
            cell_values(final(digits)@) == cell_values(old(digits)@).push(rest as nat % 2).push(
                (rest as nat / 2) % 2,
            ).push((rest as nat / 4) % 2).push((rest as nat / 8) % 2),
            final(region)@.rows[*old(offset) as int].gate == Gate::BitDecomp,
            tie ==> final(region)@.copies.contains(
                (above, Cell { row: r.row, column: Column::B }),
            ),
            nibble_cells(final(digits)@, old(digits)@.len() as int, *old(offset)),
    {
        let ghost before = region@;
        let ghost c = config@;
        let ghost old_digits = digits@;
        let b0 = Fe::from_u64((rest % 2) as u64);
        let b1 = Fe::from_u64(((rest / 2) % 2) as u64);
        let b2 = Fe::from_u64(((rest / 4) % 2) as u64);
        let b3 = Fe::from_u64(((rest / 8) % 2) as u64);
        let hi = Fe::from_u128(rest / 16);
        let lo = Fe::from_u128(rest);
        let block = vec![
            Row { a: b3, b: b2, gate: Gate::BitDecomp },
            Row { a: b1, b: b0, gate: Gate::Off },
            Row { a: hi, b: lo, gate: Gate::Off },
        ];
        proof {
            assert(lo@ == fadd(fmul(hi@, 16), nibble(b3@, b2@, b1@, b0@))) by {
                lemma_nibble_split(rest as nat);
                lemma_nibble_in_field(hi@, b3@, b2@, b1@, b0@);
            }
            assert(bit_decomp_holds(block@)) by {
                assert(is_partial_decomposition(bit_decomp_inputs(block@)));
                lemma_bit_decomp_gate(block@);
            }
            before.lemma_extend(c, block@);
        }
        let start = region.place(block, offset).unwrap();
        let ghost placed = region@;
        let low = cell_at(start + 2, Column::B);
        proof {
            before.lemma_grown_keeps(placed, 3);
            placed.lemma_grown_refl();
        }
        if tie {
            proof {
                placed.lemma_link(c, above, low);
                before.lemma_grown_trans(placed, 3, placed.link(above, low), 0);
            }
            let linked = region.constrain_equal(above, low);
            assert(linked.is_ok());
            assert(region@.copies.last() == (above, low));
        }
        digits.push(FieldCell::new(b0, cell_at(start + 1, Column::B)));
        digits.push(FieldCell::new(b1, cell_at(start + 1, Column::A)));
        digits.push(FieldCell::new(b2, cell_at(start, Column::B)));
        digits.push(FieldCell::new(b3, cell_at(start, Column::A)));
        proof {
            assert(digits@.subrange(0, old_digits.len() as int) =~= old_digits);
            assert(cell_values(digits@) =~= cell_values(old_digits).push(b0@).push(b1@).push(
                b2@,
            ).push(b3@));
        }
        cell_at(start + 2, Column::A)
    }

    /// Lays down block `j` of the chain for `v`, where `rest` is what is
    /// left of `v` above the bits already laid down.
    fn chain_step(
        region: &mut Region,
        config: &ECConfig,
        v: u128,
        rest: u128,
        j: usize,
        above: Cell,
        digits: &mut Vec<FieldCell>,
        offset: &mut usize,
        Ghost(before): Ghost<RegionView>,
    ) -> (r: Cell)
        requires
            j < 32,
            chain_inv(
                before,
                old(region)@,
                config@,
                old(digits)@,
                v,
                rest,
                j as nat,
                above,
                *old(offset),
            ),
        ensures
            chain_inv(
                before,
                final(region)@,
                config@,
                final(digits)@,
                v,
                rest / 16,
                (j + 1) as nat,
                r,
                *final(offset),
            ),
    {
        reveal(chain_inv);
        let ghost mid = region@;
        let ghost old_digits = digits@;
        let next = Self::place_nibble(region, config, rest, j > 0, above, digits, offset);
        proof {
            before.lemma_grown_trans(mid, (3 * j) as nat, region@, 3);
            mid.lemma_grown_keeps(region@, 3);
            lemma_chain_value(
                cell_values(old_digits),
                cell_values(digits@),
                v as nat,
                rest as nat,
            );
            region@.lemma_wf();
            lemma_chain_blocks_step(
                mid,
                region@,
                before.rows.len(),
                j as nat,
                above,
                old_digits,
                digits@,
            );
            assert forall|i: int| 0 <= i < digits@.len() implies #[trigger] region@.binds(
                digits@[i],
            ) && is_bit(digits@[i].spec_value()@) by {
                if i < 4 * j {
                    assert(digits@.subrange(0, 4 * j as int)[i] == old_digits[i]);
                    assert(mid.binds(old_digits[i]));
                } else {
                    assert(cell_values(digits@)[i] == digits@[i].spec_value()@);
                }
            }
            if j > 0 {
                assert(mid.in_range(
                    Cell { row: (before.rows.len() + 2) as usize, column: Column::B },
                ));
            }
        }
        next
    }

    /// Closes the chain: a row of zeros, tied to what is left above the
    /// last block.
    fn chain_close(
        region: &mut Region,
        config: &ECConfig,
        v: u128,
        rest: u128,
        above: Cell,
        digits: &Vec<FieldCell>,
        offset: &mut usize,
        Ghost(before): Ghost<RegionView>,
    ) -> (r: (FieldCell, FieldCell))
        requires
            before.wf(),
            chain_inv(before, old(region)@, config@, digits@, v, rest, 32, above, *old(offset)),
        ensures
            final(region)@.wf(),
            *old(offset) == before.rows.len() + 96,
            advanced(before, final(region)@, (*old(offset) - 96) as usize, *final(offset), 97),
            digits@.len() == 128,
            forall|i: int|
                0 <= i < 128 ==> #[trigger] final(region)@.binds(digits@[i]) && is_bit(
                    digits@[i].spec_value()@,
                ),
            digits_value(cell_values(digits@)) == v as nat,
            final(region)@.binds(r.0) && r.0.spec_value()@ == 0,
            final(region)@.binds(r.1) && r.1.spec_value()@ == v as nat,
            final(region)@.satisfied(config@) <==> before.satisfied(config@),
            chain_layout(final(region)@, before.rows.len()),
            digit_cells(digits@, before.rows.len()),
            r.0.spec_cell() == high_cell(before.rows.len(), 31),
            r.1.spec_cell() == low_cell(before.rows.len(), 0),
    {
        reveal(chain_inv);
        let ghost c = config@;
        proof {
            lemma_weight_128();
            let w = weight(128);
            let t = (rest as nat);
            assert(t == 0) by (nonlinear_arith)
                requires
                    w * t <= v as nat,
                    w == 0x1_0000_0000_0000_0000_0000_0000_0000_0000,
                    (v as nat) < 0x1_0000_0000_0000_0000_0000_0000_0000_0000,
            ;
            assert(w * 0 == 0) by (nonlinear_arith);
        }
        let ghost mid = region@;
        let zero = Fe::zero();
        let block = vec![Row { a: zero, b: zero, gate: Gate::Zero }];
        proof {
            mid.lemma_extend(c, block@);
        }
        let closing = region.place(block, offset).unwrap();
        let ghost placed = region@;
        let end = cell_at(closing, Column::A);
        let low = cell_at(closing - 94, Column::B);
        proof {
            before.lemma_grown_trans(mid, 96, placed, 1);
            mid.lemma_grown_keeps(placed, 1);
            placed.lemma_link(c, above, end);
            before.lemma_grown_trans(placed, 97, placed.link(above, end), 0);
        }
        let linked = region.constrain_equal(above, end);
        assert(linked.is_ok());
        proof {
            assert forall|i: int| 0 <= i < 128 implies #[trigger] region@.binds(digits@[i])
                && is_bit(digits@[i].spec_value()@) by {
                assert(mid.binds(digits@[i]));
            }
            assert(region@.copies.last() == (above, end));
            placed.lemma_grown_refl();
            mid.lemma_grown_trans(placed, 1, region@, 0);
            assert forall|k: nat| k < 32 implies #[trigger] chain_block(
                region@,
                before.rows.len(),
                k,
            ) by {
                lemma_chain_block_keeps(mid, region@, 1, before.rows.len(), k);
            }
            region@.lemma_wf();
        }
        (FieldCell::new(zero, above), FieldCell::new(Fe::from_u128(v), low))
    }

    /// Decomposes a 128-bit integer into its 128 bits, least significant
    /// first. Each block of four bits is tied to the next by a copy
    /// constraint on what is left above it, and what is left above the
    /// last is tied to zero, so that the bits recompose to the value.
    pub fn decompose_u128(
        &self,
        region: &mut Region,
        config: &ECConfig,
        a: &u128,
        offset: &mut usize,
    ) -> (r: Result<Decomposition, Error>)
        requires
            old(region)@.wf(),
        ensures
            final(region)@.wf(),
            match placement_error(old(region)@, *old(offset), U128_ROWS as nat) {
                Some(e) => (r matches Err(x) && x == e) && untouched(
                    old(region)@,
                    final(region)@,
                    *old(offset),
                    *final(offset),
                ),
                None => r.is_ok() && advanced(
                    old(region)@,
                    final(region)@,
                    *old(offset),
                    *final(offset),
                    U128_ROWS as nat,
                ),
            },
            r matches Ok(d) ==> {
                &&& d.digits@.len() == 128
                &&& forall|i: int|
                    0 <= i < 128 ==> #[trigger] final(region)@.binds(d.digits@[i]) && is_bit(
                        d.digits@[i].spec_value()@,
                    )
                &&& digits_value(cell_values(d.digits@)) == *a as nat
                &&& final(region)@.binds(d.value) && d.value.spec_value()@ == *a as nat
                &&& final(region)@.binds(d.remainder) && d.remainder.spec_value()@ == 0
                &&& final(region)@.satisfied(config@) <==> old(region)@.satisfied(config@)
                &&& chain_layout(final(region)@, old(region)@.rows.len())
                &&& digit_cells(d.digits@, old(region)@.rows.len())
                &&& d.value.spec_cell() == low_cell(old(region)@.rows.len(), 0)
                &&& d.remainder.spec_cell() == high_cell(old(region)@.rows.len(), 31)
            },
    {
        if *offset != region.len() {
            return Err(Error::CursorMismatch);
        }
        proof {
            region@.lemma_wf();
        }
        if region.capacity() - region.len() < U128_ROWS {
            return Err(Error::NotEnoughRows);
        }
        let ghost before = region@;
        let v = *a;
        let mut digits: Vec<FieldCell> = Vec::new();
        let mut rest: u128 = v;
        let mut above = cell_at(0, Column::A);
        let mut j: usize = 0;
        proof {
            reveal(chain_inv);
            before.lemma_grown_refl();
            assert(cell_values(digits@) =~= Seq::<nat>::empty());
            assert(1 * (rest as nat) == rest as nat) by (nonlinear_arith);
        }
        while j < 32
            invariant
                j <= 32,
                chain_inv(before, region@, config@, digits@, v, rest, j as nat, above, *offset),
            decreases 32 - j,
        {
            above =
            Self::chain_step(region, config, v, rest, j, above, &mut digits, offset, Ghost(before));
            rest = rest / 16;
            j = j + 1;
        }
        let (remainder, value) = Self::chain_close(
            region,
            config,
            v,
            rest,
            above,
            &digits,
            offset,
            Ghost(before),
        );
        Ok(Decomposition { digits, remainder, value })
    }
}

/// What holds after `j` blocks of the chain for `v` have been laid down on
/// top of the region `before`.
#[verifier::opaque]
pub open spec fn chain_inv(
    before: RegionView,
    now: RegionView,
    c: CurveView,
    digits: Seq<FieldCell>,
    v: u128,
    rest: u128,
    j: nat,
    above: Cell,
    offset: usize,
) -> bool {
    &&& j <= 32
    &&& now.wf()
    &&& before.rows.len() + U128_ROWS <= before.capacity
    &&& before.grown_by(now, 3 * j)
    &&& offset == before.rows.len() + 3 * j
    &&& now.satisfied(c) <==> before.satisfied(c)
    &&& digits.len() == 4 * j
    &&& forall|i: int|
        0 <= i < digits.len() ==> #[trigger] now.binds(digits[i]) && is_bit(
            digits[i].spec_value()@,
        )
    &&& v as nat == digits_value(cell_values(digits)) + weight(4 * j) * (rest as nat)
    &&& j == 0 ==> rest == v
    &&& forall|k: nat| k < j ==> #[trigger] chain_block(now, before.rows.len(), k)
    &&& digit_cells(digits, before.rows.len())
    &&& j > 0 ==> above == high_cell(before.rows.len(), (j - 1) as nat)
    &&& j > 0 ==> now.in_range(above) && now.value_at(above) == rest as nat
    &&& j > 0 ==> now.value_at(Cell { row: (before.rows.len() + 2) as usize, column: Column::B })
        == v as nat
}

} // verus!
