//! The gates of the chip: for each selector, the polynomial constraints it
//! puts on the block of rows that starts where it is switched on.
//!
//! A constraint is written as `vanishes(lhs, rhs)`, the polynomial
//! `lhs - rhs` being zero in the field. The lemmas of this module say what
//! the constraints of each gate force on the cells of its block.
//!
//! A circuit cannot branch, so the gates of the group law compute every
//! case for every input and blend the results by flags. A flag is the
//! indicator of a residue being other than zero; it comes with a witness
//! `inv` for the inverse of the residue, or zero, and three constraints
//! that leave neither of the two any choice. With flags for "the
//! abscissas differ", "the ordinates do not cancel", "the ordinate is not
//! zero" and "the point is not the point at infinity", doubling and
//! addition are laid down without a case that divides by zero.
use vstd::prelude::*;
use crate::curve::{
    chord_slope, curve_rhs, ec_add, ec_double, ec_select_add, identity, line_sum, on_curve,
    tangent_slope, CurveView, PointValue,
};
use crate::field::{
    fadd, finv, fmul, fsq, fsub, lemma_canonical, lemma_finv, lemma_finv_zero,
    lemma_fsub_zero, lemma_no_zero_divisors, lemma_select, lemma_units, modulus, select, Fe,
};

verus! {

/// The selector of a row: which gate, if any, starts there.
#[derive(Clone, Copy, Debug, PartialEq, Eq, Structural)]
pub enum Gate {
    /// No constraint.
    Off,
    /// `c = a + b`.
    Add,
    /// `c = a * b`.
    Mul,
    /// Both cells of the row are zero.
    Zero,
    /// Four bits and the identity `lo = 16 hi + 8 b3 + 4 b2 + 2 b1 + b0`.
    BitDecomp,
    /// The row is a point of the curve.
    OnCurve,
    /// The last row of the block is twice the first.
    Double,
    /// The last row of the block is the first plus the second where the
    /// bit is one, and the first where it is zero.
    CondAdd,
}

/// One row of the region: the two advice cells and the selector.
#[derive(Clone, Copy, Debug)]
pub struct Row {
    pub a: Fe,
    pub b: Fe,
    pub gate: Gate,
}

/// The number of rows in the block of a gate.
pub open spec fn span(g: Gate) -> nat {
    match g {
        Gate::Off => 1,
        Gate::Add => 2,
        Gate::Mul => 2,
        Gate::Zero => 1,
        Gate::BitDecomp => 3,
        Gate::OnCurve => 1,
        Gate::Double => 5,
        Gate::CondAdd => 14,
    }
}

impl Gate {
    /// The number of rows in the block of this gate.
    pub fn rows(&self) -> (r: usize)
        ensures
            r == span(*self),
    {
        match self {
            Gate::Off => 1,
            Gate::Add => 2,
            Gate::Mul => 2,
            Gate::Zero => 1,
            Gate::BitDecomp => 3,
            Gate::OnCurve => 1,
            Gate::Double => 5,
            Gate::CondAdd => 14,
        }
    }
}

/// Every cell of the rows holds a canonical residue.
pub open spec fn rows_wf(w: Seq<Row>) -> bool {
    forall|i: int| 0 <= i < w.len() ==> (#[trigger] w[i]).a.wf() && w[i].b.wf()
}

/// The residue in the first column of row `k`.
pub open spec fn col_a(w: Seq<Row>, k: int) -> nat {
    w[k].a@
}

/// The residue in the second column of row `k`.
pub open spec fn col_b(w: Seq<Row>, k: int) -> nat {
    w[k].b@
}

/// The two cells of row `k` read as a point.
pub open spec fn row_point(w: Seq<Row>, k: int) -> PointValue {
    PointValue { x: w[k].a@, y: w[k].b@ }
}

/// The polynomial `lhs - rhs` is zero.
pub open spec fn vanishes(lhs: nat, rhs: nat) -> bool {
    fsub(lhs, rhs) == 0
}

/// The constraint `b (1 - b) = 0`.
pub open spec fn boolean_holds(b: nat) -> bool {
    fmul(b, fsub(1, b)) == 0
}

/// The constraints that make `inv` the inverse-or-zero of `v` and `flag`
/// the indicator of `v` being other than zero:
/// `flag = v inv`, `v (1 - flag) = 0`, `inv (1 - flag) = 0`.
pub open spec fn inv0_holds(v: nat, inv: nat, flag: nat) -> bool {
    &&& vanishes(flag, fmul(v, inv))
    &&& fmul(v, fsub(1, flag)) == 0
    &&& fmul(inv, fsub(1, flag)) == 0
}

/// `inv` is the inverse-or-zero of `v` and `flag` is one where `v` is
/// other than zero, zero where it is zero.
pub open spec fn inv0_proper(v: nat, inv: nat, flag: nat) -> bool {
    &&& inv == finv(v)
    &&& flag == if v == 0 { 0nat } else { 1nat }
}

/// `8 b3 + 4 b2 + 2 b1 + b0` in the field.
pub open spec fn nibble(b3: nat, b2: nat, b1: nat, b0: nat) -> nat {
    fadd(fadd(fadd(fmul(8, b3), fmul(4, b2)), fmul(2, b1)), b0)
}

/// The indicator of "one of the two flags is set": `m + n - m n`.
pub open spec fn either(m: nat, n: nat) -> nat {
    fsub(fadd(m, n), fmul(m, n))
}

/// The constraint of the addition gate on the rows `a b | c -`: `c - a - b = 0`.
pub open spec fn add_holds(w: Seq<Row>) -> bool {
    vanishes(fsub(col_a(w, 1), col_a(w, 0)), col_b(w, 0))
}

/// The constraint of the multiplication gate on the rows `a b | c -`: `c - a b = 0`.
pub open spec fn mul_holds(w: Seq<Row>) -> bool {
    vanishes(col_a(w, 1), fmul(col_a(w, 0), col_b(w, 0)))
}

/// The constraints of the zero gate on its row: both cells are zero.
pub open spec fn zero_holds(w: Seq<Row>) -> bool {
    col_a(w, 0) == 0 && col_b(w, 0) == 0
}

/// The six residues that a block of the bit-decomposition gate holds, in
/// the order `b3 b2 b1 b0 hi lo`: the rows hold `b3 b2 | b1 b0 | hi lo`.
pub open spec fn bit_decomp_inputs(w: Seq<Row>) -> Seq<nat> {
    seq![col_a(w, 0), col_b(w, 0), col_a(w, 1), col_b(w, 1), col_a(w, 2), col_b(w, 2)]
}

/// The constraints of the bit-decomposition gate on the six residues
/// `b3 b2 b1 b0 hi lo`: each `b (1 - b) = 0`, and
/// `lo - (16 hi + 8 b3 + 4 b2 + 2 b1 + b0) = 0`.
pub open spec fn bit_decomp_constraints(v: Seq<nat>) -> bool {
    &&& boolean_holds(v[0])
    &&& boolean_holds(v[1])
    &&& boolean_holds(v[2])
    &&& boolean_holds(v[3])
    &&& vanishes(v[5], fadd(fmul(v[4], 16), nibble(v[0], v[1], v[2], v[3])))
}

/// The constraints of the bit-decomposition gate on its three rows.
pub open spec fn bit_decomp_holds(w: Seq<Row>) -> bool {
    bit_decomp_constraints(bit_decomp_inputs(w))
}

/// The constraint of the curve gate on the row `x y`: `y^2 - (x^3 + a x + b) = 0`.
pub open spec fn on_curve_holds(c: CurveView, w: Seq<Row>) -> bool {
    vanishes(fsq(col_b(w, 0)), curve_rhs(c, col_a(w, 0)))
}

/// The rows hold `x1 y1 | inv flag | lambda xt | yt - | x3 y3`, where
/// `inv` and `flag` belong to `2 y1`.
pub open spec fn double_holds(c: CurveView, w: Seq<Row>) -> bool {
    let p = row_point(w, 0);
    let t = line_sum(col_a(w, 2), p, p.x);
    &&& inv0_holds(fmul(2, p.y), col_a(w, 1), col_b(w, 1))
    &&& vanishes(col_a(w, 2), fmul(fadd(fmul(3, fsq(p.x)), c.a), col_a(w, 1)))
    &&& vanishes(col_b(w, 2), t.x)
    &&& vanishes(col_a(w, 3), t.y)
    &&& vanishes(col_a(w, 4), fmul(col_b(w, 1), col_b(w, 2)))
    &&& vanishes(col_b(w, 4), fmul(col_b(w, 1), col_a(w, 3)))
}

/// The inverse-or-zero witnesses of a conditional addition and the values
/// they belong to: the difference of the abscissas, the sum of the
/// ordinates, twice the first ordinate, and the coordinates that tell a
/// point from the point at infinity.
pub open spec fn cond_add_inverses(w: Seq<Row>, k: int) -> (nat, nat, nat) {
    let p = row_point(w, 0);
    let q = row_point(w, 1);
    if k == 0 {
        (fsub(q.x, p.x), col_b(w, 2), col_a(w, 3))
    } else if k == 1 {
        (fadd(p.y, q.y), col_b(w, 3), col_a(w, 4))
    } else if k == 2 {
        (fmul(2, p.y), col_b(w, 4), col_a(w, 5))
    } else if k == 3 {
        (p.x, col_b(w, 7), col_a(w, 8))
    } else if k == 4 {
        (q.x, col_a(w, 9), col_a(w, 10))
    } else {
        (q.y, col_b(w, 9), col_b(w, 10))
    }
}

/// The constraints of a conditional addition other than those on its
/// inverse-or-zero witnesses. The rows hold
/// `x1 y1 | x2 y2 | bit . | nx . | ns . | nd lambda | xt yt | g . | n1 np |
/// . . | n2 m2 | nq - | xs ys | x3 y3`, the dots being those witnesses.
pub open spec fn cond_add_links(c: CurveView, w: Seq<Row>) -> bool {
    let p = row_point(w, 0);
    let q = row_point(w, 1);
    let bit = col_a(w, 2);
    let (nx, ns, nd) = (col_a(w, 3), col_a(w, 4), col_a(w, 5));
    let lambda = col_b(w, 5);
    let t = line_sum(lambda, p, q.x);
    let (xt, yt) = (col_a(w, 6), col_b(w, 6));
    let g = col_a(w, 7);
    let (n1, np) = (col_a(w, 8), col_b(w, 8));
    let (n2, m2) = (col_a(w, 10), col_b(w, 10));
    let nq = col_a(w, 11);
    let (xs, ys) = (col_a(w, 12), col_b(w, 12));
    &&& vanishes(
        lambda,
        select(
            nx,
            fmul(fsub(q.y, p.y), col_b(w, 2)),
            fmul(fadd(fmul(3, fsq(p.x)), c.a), col_b(w, 4)),
        ),
    )
    &&& vanishes(xt, t.x)
    &&& vanishes(yt, t.y)
    &&& vanishes(g, select(nx, 1, fmul(ns, nd)))
    &&& vanishes(np, either(n1, nd))
    &&& vanishes(nq, either(n2, m2))
    &&& vanishes(xs, select(np, select(nq, fmul(g, xt), p.x), q.x))
    &&& vanishes(ys, select(np, select(nq, fmul(g, yt), p.y), q.y))
    &&& vanishes(col_a(w, 13), select(bit, xs, p.x))
    &&& vanishes(col_b(w, 13), select(bit, ys, p.y))
}

/// The constraints of the conditional-addition gate on its fourteen rows.
pub open spec fn cond_add_holds(c: CurveView, w: Seq<Row>) -> bool {
    &&& cond_add_links(c, w)
    &&& forall|k: int|
        0 <= k < 6 ==> inv0_holds(
            (#[trigger] cond_add_inverses(w, k)).0,
            cond_add_inverses(w, k).1,
            cond_add_inverses(w, k).2,
        )
}

/// The constraints of gate `g` hold on the block `w`.
pub open spec fn gate_holds(c: CurveView, g: Gate, w: Seq<Row>) -> bool {
    match g {
        Gate::Off => true,
        Gate::Add => add_holds(w),
        Gate::Mul => mul_holds(w),
        Gate::Zero => zero_holds(w),
        Gate::BitDecomp => bit_decomp_holds(w),
        Gate::OnCurve => on_curve_holds(c, w),
        Gate::Double => double_holds(c, w),
        Gate::CondAdd => cond_add_holds(c, w),
    }
}

/// A polynomial `lhs - rhs` of canonical residues is zero exactly where
/// the two are equal.
pub proof fn lemma_vanishes(lhs: nat, rhs: nat)
    requires
        lhs < modulus(),
        rhs < modulus(),
    ensures
        vanishes(lhs, rhs) <==> lhs == rhs,
{
    lemma_fsub_zero(lhs, rhs);
}

/// The indicator of "one of two flags" is one where either is one and
/// zero where both are zero.
pub proof fn lemma_either(m: nat, n: nat)
    requires
        m == 0 || m == 1,
        n == 0 || n == 1,
    ensures
        either(m, n) == if m == 1 || n == 1 { 1nat } else { 0nat },
{
    lemma_units(n);
    reveal(fadd);
    reveal(fsub);
}

/// The addition gate holds exactly where the third cell is the sum of the
/// first two.
pub proof fn lemma_add_gate(w: Seq<Row>)
    requires
        w.len() == 2,
        rows_wf(w),
    ensures
        add_holds(w) <==> col_a(w, 1) == fadd(col_a(w, 0), col_b(w, 0)),
{
    reveal(fadd);
    reveal(fsub);
    assert(w[0].a.wf() && w[0].b.wf() && w[1].a.wf());
}

/// The multiplication gate holds exactly where the third cell is the
/// product of the first two.
pub proof fn lemma_mul_gate(w: Seq<Row>)
    requires
        w.len() == 2,
        rows_wf(w),
    ensures
        mul_holds(w) <==> col_a(w, 1) == fmul(col_a(w, 0), col_b(w, 0)),
{
    lemma_canonical();
    lemma_vanishes(col_a(w, 1), fmul(col_a(w, 0), col_b(w, 0)));
    assert(w[1].a.wf());
}

/// The curve gate holds exactly where the row satisfies the curve
/// equation.
pub proof fn lemma_on_curve_gate(c: CurveView, w: Seq<Row>)
    requires
        w.len() == 1,
    ensures
        on_curve_holds(c, w) <==> on_curve(c, row_point(w, 0)),
{
    lemma_canonical();
    lemma_vanishes(fsq(col_b(w, 0)), curve_rhs(c, col_a(w, 0)));
}

/// The constraints on an inverse-or-zero witness leave it no choice.
pub proof fn lemma_inv0_sound(v: nat, inv: nat, flag: nat)
    requires
        v < modulus(),
        inv < modulus(),
        flag < modulus(),
        inv0_holds(v, inv, flag),
    ensures
        inv0_proper(v, inv, flag),
{
    lemma_units(inv);
    lemma_canonical();
    lemma_no_zero_divisors();
    lemma_vanishes(flag, fmul(v, inv));
    lemma_fsub_zero(1, flag);
    lemma_fsub_zero(1, 0);
    if v == 0 {
        lemma_finv_zero();
    } else {
        assert(fsub(1, flag) == 0);
        lemma_finv(v, inv);
    }
}

/// The honest inverse-or-zero witness meets its constraints.
pub proof fn lemma_inv0_complete(v: nat, inv: nat, flag: nat)
    requires
        v < modulus(),
        inv < modulus(),
        inv == finv(v),
        v != 0 ==> fmul(v, inv) == 1,
        flag == fmul(v, inv),
    ensures
        inv0_holds(v, inv, flag),
        inv0_proper(v, inv, flag),
{
    lemma_units(inv);
    lemma_units(v);
    lemma_units(1);
    lemma_canonical();
    lemma_vanishes(flag, fmul(v, inv));
    if v == 0 {
        lemma_finv_zero();
    }
}

/// Twice a canonical residue is zero only for zero.
pub proof fn lemma_twice_zero(y: nat)
    requires
        y < modulus(),
    ensures
        fmul(2, y) == 0 <==> y == 0,
        fadd(y, y) == 0 <==> y == 0,
{
    reveal(fadd);
    reveal(fmul);
}

/// The inverse-or-zero witness of a doubling is the honest one.
pub open spec fn double_proper(w: Seq<Row>) -> bool {
    inv0_proper(fmul(2, col_b(w, 0)), col_a(w, 1), col_b(w, 1))
}

/// The inverse-or-zero witnesses of a conditional addition are the honest
/// ones.
pub open spec fn cond_add_proper(w: Seq<Row>) -> bool {
    forall|k: int|
        0 <= k < 6 ==> inv0_proper(
            (#[trigger] cond_add_inverses(w, k)).0,
            cond_add_inverses(w, k).1,
            cond_add_inverses(w, k).2,
        )
}

/// Every constraint `vanishes(lhs, rhs)` on canonical residues is the
/// equation `lhs == rhs`.
pub proof fn lemma_vanishes_all()
    ensures
        forall|lhs: nat, rhs: nat|
            lhs < modulus() && rhs < modulus() ==> (#[trigger] vanishes(lhs, rhs) <==> lhs
                == rhs),
{
    assert forall|lhs: nat, rhs: nat| lhs < modulus() && rhs < modulus() implies (
    #[trigger] vanishes(lhs, rhs) <==> lhs == rhs) by {
        lemma_vanishes(lhs, rhs);
    }
}

/// With the honest inverse-or-zero witness, the constraints of a doubling
/// make its last row twice its first.
pub proof fn lemma_double_value(c: CurveView, w: Seq<Row>)
    requires
        w.len() == 5,
        rows_wf(w),
        double_holds(c, w),
        double_proper(w),
    ensures
        row_point(w, 4) == ec_double(c, row_point(w, 0)),
{
    let p = row_point(w, 0);
    assert forall|i: int| 0 <= i < 5 implies col_a(w, i) < modulus() && col_b(w, i)
        < modulus() by {
        assert(w[i].a.wf() && w[i].b.wf());
    }
    lemma_canonical();
    lemma_vanishes_all();
    lemma_twice_zero(p.y);
    lemma_units(col_b(w, 2));
    lemma_units(col_a(w, 3));
}

/// The doubling gate holds only where the last row of its block is twice
/// the first.
pub proof fn lemma_double_gate(c: CurveView, w: Seq<Row>)
    requires
        w.len() == 5,
        rows_wf(w),
        double_holds(c, w),
    ensures
        row_point(w, 4) == ec_double(c, row_point(w, 0)),
{
    assert(w[1].a.wf() && w[1].b.wf());
    lemma_canonical();
    lemma_inv0_sound(fmul(2, col_b(w, 0)), col_a(w, 1), col_b(w, 1));
    lemma_double_value(c, w);
}

/// With the honest inverse-or-zero witnesses, the constraints of a
/// conditional addition make its last row the blend of the sum and the
/// first point.
pub proof fn lemma_cond_add_value(c: CurveView, w: Seq<Row>)
    requires
        w.len() == 14,
        rows_wf(w),
        cond_add_holds(c, w),
        cond_add_proper(w),
    ensures
        row_point(w, 12) == ec_add(c, row_point(w, 0), row_point(w, 1)),
        row_point(w, 13) == ec_select_add(c, row_point(w, 0), row_point(w, 1), col_a(w, 2)),
{
    let p = row_point(w, 0);
    let q = row_point(w, 1);
    assert forall|i: int| 0 <= i < 14 implies col_a(w, i) < modulus() && col_b(w, i)
        < modulus() by {
        assert(w[i].a.wf() && w[i].b.wf());
    }
    lemma_canonical();
    lemma_vanishes_all();
    let i0 = cond_add_inverses(w, 0);
    let i1 = cond_add_inverses(w, 1);
    let i2 = cond_add_inverses(w, 2);
    let i3 = cond_add_inverses(w, 3);
    let i4 = cond_add_inverses(w, 4);
    let i5 = cond_add_inverses(w, 5);
    assert(inv0_proper(i0.0, i0.1, i0.2));
    assert(inv0_proper(i1.0, i1.1, i1.2));
    assert(inv0_proper(i2.0, i2.1, i2.2));
    assert(inv0_proper(i3.0, i3.1, i3.2));
    assert(inv0_proper(i4.0, i4.1, i4.2));
    assert(inv0_proper(i5.0, i5.1, i5.2));
    let (nx, ns, nd) = (col_a(w, 3), col_a(w, 4), col_a(w, 5));
    let (xt, yt) = (col_a(w, 6), col_b(w, 6));
    let g = col_a(w, 7);
    let (n1, np) = (col_a(w, 8), col_b(w, 8));
    let (n2, m2) = (col_a(w, 10), col_b(w, 10));
    let nq = col_a(w, 11);
    lemma_twice_zero(p.y);
    lemma_fsub_zero(q.x, p.x);
    assert(nx == if p.x == q.x { 0nat } else { 1nat });
    assert(ns == if fadd(p.y, q.y) == 0 { 0nat } else { 1nat });
    assert(nd == if p.y == 0 { 0nat } else { 1nat });
    assert(n1 == if p.x == 0 { 0nat } else { 1nat });
    assert(n2 == if q.x == 0 { 0nat } else { 1nat });
    assert(m2 == if q.y == 0 { 0nat } else { 1nat });
    lemma_either(n1, nd);
    lemma_either(n2, m2);
    assert(np == if p == identity() { 0nat } else { 1nat });
    assert(nq == if q == identity() { 0nat } else { 1nat });
    lemma_select(
        fmul(fsub(q.y, p.y), col_b(w, 2)),
        fmul(fadd(fmul(3, fsq(p.x)), c.a), col_b(w, 4)),
    );
    lemma_units(nd);
    lemma_select(1, fmul(ns, nd));
    assert(g == if p.x != q.x {
        1nat
    } else if fadd(p.y, q.y) == 0 || p.y == 0 {
        0nat
    } else {
        1nat
    });
    lemma_units(xt);
    lemma_units(yt);
    lemma_select(fmul(g, xt), p.x);
    lemma_select(fmul(g, yt), p.y);
    lemma_select(select(nq, fmul(g, xt), p.x), q.x);
    lemma_select(select(nq, fmul(g, yt), p.y), q.y);
    let s = ec_add(c, p, q);
    if p == identity() {
    } else if q == identity() {
    } else if p.x != q.x {
        assert(col_b(w, 5) == chord_slope(p, q));
    } else if fadd(p.y, q.y) == 0 {
    } else if p.y == 0 {
    } else {
        assert(col_b(w, 5) == tangent_slope(c, p));
    }
    assert(col_a(w, 12) == s.x);
    assert(col_b(w, 12) == s.y);
}

/// The conditional-addition gate holds only where the last row of its
/// block is the blend of the sum and the first point: the sum where the
/// bit is one, the first point where it is zero.
pub proof fn lemma_cond_add_gate(c: CurveView, w: Seq<Row>)
    requires
        w.len() == 14,
        rows_wf(w),
        cond_add_holds(c, w),
    ensures
        row_point(w, 13) == ec_select_add(c, row_point(w, 0), row_point(w, 1), col_a(w, 2)),
        col_a(w, 2) == 1 ==> row_point(w, 13) == ec_add(c, row_point(w, 0), row_point(w, 1)),
        col_a(w, 2) == 0 ==> row_point(w, 13) == row_point(w, 0),
{
    assert forall|i: int| 0 <= i < 14 implies col_a(w, i) < modulus() && col_b(w, i)
        < modulus() by {
        assert(w[i].a.wf() && w[i].b.wf());
    }
    assert forall|k: int| 0 <= k < 6 implies inv0_proper(
        (#[trigger] cond_add_inverses(w, k)).0,
        cond_add_inverses(w, k).1,
        cond_add_inverses(w, k).2,
    ) by {
        let t = cond_add_inverses(w, k);
        lemma_canonical();
        lemma_inv0_sound(t.0, t.1, t.2);
    }
    lemma_cond_add_value(c, w);
    let s = ec_add(c, row_point(w, 0), row_point(w, 1));
    lemma_canonical();
    lemma_ec_add_range(c, row_point(w, 0), row_point(w, 1));
    lemma_select(s.x, col_a(w, 0));
    lemma_select(s.y, col_b(w, 0));
}

/// The coordinates of a sum of canonical points are canonical.
pub proof fn lemma_ec_add_range(c: CurveView, p: PointValue, q: PointValue)
    requires
        p.x < modulus(),
        p.y < modulus(),
        q.x < modulus(),
        q.y < modulus(),
    ensures
        ec_add(c, p, q).x < modulus(),
        ec_add(c, p, q).y < modulus(),
        ec_double(c, p).x < modulus(),
        ec_double(c, p).y < modulus(),
{
    lemma_canonical();
}

} // verus!
