//! Point gadgets: points as pairs of cells, the curve check, doubling, and
//! the conditional addition that a bit switches on.
use vstd::prelude::*;
use crate::chip::{advanced, cell_at, untouched, ECChip, ECConfig};
use crate::curve::{ec_double, ec_select_add, on_curve, AffinePoint, CurveView, PointValue};
use crate::field::{lemma_canonical, Fe};
use crate::gates::{
    cond_add_holds, cond_add_inverses, cond_add_links, double_holds, either, inv0_holds,
    inv0_proper, lemma_cond_add_value, lemma_double_value, lemma_inv0_complete,
    lemma_on_curve_gate, lemma_vanishes_all, row_point, Gate, Row,
};
use crate::region::{
    block_wf, placement_error, Cell, Column, Error, FieldCell, Region, RegionView,
};

verus! {

/// A point as a pair of cells. A point is checked once the curve equation
/// has been laid down on its coordinates.
#[derive(Clone, Copy, Debug)]
pub struct Point {
    x: FieldCell,
    y: FieldCell,
    checked: bool,
}

impl Point {
    /// The cell of the abscissa.
    pub closed spec fn spec_x(&self) -> FieldCell {
        self.x
    }

    /// The cell of the ordinate.
    pub closed spec fn spec_y(&self) -> FieldCell {
        self.y
    }

    /// Whether the curve equation has been laid down on this point.
    pub closed spec fn spec_checked(&self) -> bool {
        self.checked
    }

    /// The coordinates that the two cells hold.
    pub open spec fn value(&self) -> PointValue {
        PointValue { x: self.spec_x().spec_value()@, y: self.spec_y().spec_value()@ }
    }

    /// Both cells are cells of the region and hold their values there.
    pub open spec fn bound_in(&self, v: RegionView) -> bool {
        v.binds(self.spec_x()) && v.binds(self.spec_y())
    }

    /// A point on two cells, on which no curve equation has been laid.
    pub(crate) fn unchecked(x: FieldCell, y: FieldCell) -> (r: Point)
        ensures
            r.spec_x() == x,
            r.spec_y() == y,
            !r.spec_checked(),
    {
        Point { x, y, checked: false }
    }

    /// The cell of the abscissa.
    pub fn x(&self) -> (r: FieldCell)
        ensures
            r == self.spec_x(),
    {
        self.x
    }

    /// The cell of the ordinate.
    pub fn y(&self) -> (r: FieldCell)
        ensures
            r == self.spec_y(),
    {
        self.y
    }

    /// Whether the curve equation has been laid down on this point.
    pub fn is_checked(&self) -> (r: bool)
        ensures
            r == self.spec_checked(),
    {
        self.checked
    }
}

/// The number of rows of a doubling.
pub const DOUBLE_ROWS: usize = 5;

/// The number of rows of a conditional addition.
pub const COND_ADD_ROWS: usize = 14;

/// The curve equation has been laid in row `n` on the two cells `x` and
/// `y`: the row is under the curve gate and tied to the two cells.
pub open spec fn curve_check_laid(r: RegionView, x: Cell, y: Cell, n: nat) -> bool {
    &&& n < r.rows.len()
    &&& r.rows[n as int].gate == Gate::OnCurve
    &&& r.copies.contains((x, Cell { row: n as usize, column: Column::A }))
    &&& r.copies.contains((y, Cell { row: n as usize, column: Column::B }))
}

/// A doubling of the point in the two cells `x` and `y` has been laid
/// from row `n`: the row is under the doubling gate and tied to the two
/// cells.
pub open spec fn double_laid(r: RegionView, x: Cell, y: Cell, n: nat) -> bool {
    &&& n < r.rows.len()
    &&& r.rows[n as int].gate == Gate::Double
    &&& r.copies.contains((x, Cell { row: n as usize, column: Column::A }))
    &&& r.copies.contains((y, Cell { row: n as usize, column: Column::B }))
}

/// A conditional addition of the point in the cells `q` to the point in
/// the cells `p`, under the bit in the cell `bit`, has been laid from row
/// `n`: the row is under the conditional-addition gate, and the first
/// three rows of its block are tied to the five cells.
pub open spec fn cond_add_laid(
    r: RegionView,
    p: (Cell, Cell),
    q: (Cell, Cell),
    bit: Cell,
    n: nat,
) -> bool {
    &&& n < r.rows.len()
    &&& r.rows[n as int].gate == Gate::CondAdd
    &&& r.copies.contains((p.0, Cell { row: n as usize, column: Column::A }))
    &&& r.copies.contains((p.1, Cell { row: n as usize, column: Column::B }))
    &&& r.copies.contains((q.0, Cell { row: (n + 1) as usize, column: Column::A }))
    &&& r.copies.contains((q.1, Cell { row: (n + 1) as usize, column: Column::B }))
    &&& r.copies.contains((bit, Cell { row: (n + 2) as usize, column: Column::A }))
}

/// The last two of a sequence with two more elements are those two, and
/// what was there before is still there.
pub proof fn lemma_pushed<T>(s: Seq<T>, a: T, b: T)
    ensures
        s.push(a).push(b).contains(a),
        s.push(a).push(b).contains(b),
        forall|x: T| s.contains(x) ==> #[trigger] s.push(a).push(b).contains(x),
{
    let t = s.push(a).push(b);
    assert(t[s.len() as int] == a);
    assert(t[s.len() as int + 1] == b);
    assert forall|x: T| s.contains(x) implies #[trigger] t.contains(x) by {
        let k = choose|k: int| 0 <= k < s.len() && s[k] == x;
        assert(t[k] == x);
    }
}

/// The error, if any, that keeps an operation on handles from being
/// attempted: it must be possible to place its rows, and its handles must
/// be bound in the region.
pub open spec fn operation_error(v: RegionView, offset: usize, n: nat, bound: bool) -> Option<
    Error,
> {
    match placement_error(v, offset, n) {
        Some(e) => Some(e),
        None => if bound {
            None
        } else {
            Some(Error::UnboundCell)
        },
    }
}

/// The inverse of `v`, or zero for zero, and the flag that tells which.
fn inverse_and_flag(v: &Fe) -> (r: (Fe, Fe))
    requires
        v.wf(),
    ensures
        r.0.wf(),
        r.1.wf(),
        inv0_holds(v@, r.0@, r.1@),
        inv0_proper(v@, r.0@, r.1@),
{
    let inv = v.invert_or_zero();
    let flag = v.mul(&inv);
    proof {
        lemma_inv0_complete(v@, inv@, flag@);
    }
    (inv, flag)
}

/// The flag that is set where either of two flags is: `m + n - m n`.
fn either_flag(m: &Fe, n: &Fe) -> (r: Fe)
    requires
        m.wf(),
        n.wf(),
    ensures
        r.wf(),
        r@ == either(m@, n@),
{
    m.add(n).sub(&m.mul(n))
}

/// The rows of a doubling of `(x1, y1)`, with the honest witnesses.
fn double_block(config: &ECConfig, x1: &Fe, y1: &Fe) -> (r: Vec<Row>)
    requires
        config.wf(),
        x1.wf(),
        y1.wf(),
    ensures
        r@.len() == 5,
        block_wf(r@),
        r@[0] == (Row { a: *x1, b: *y1, gate: Gate::Double }),
        double_holds(config@, r@),
        row_point(r@, 4) == ec_double(config@, PointValue { x: x1@, y: y1@ }),
{
    let curve = config.curve();
    let zero = Fe::zero();
    let twice_y = Fe::from_u64(2).mul(y1);
    let (inv, flag) = inverse_and_flag(&twice_y);
    let lambda = Fe::from_u64(3).mul(&x1.square()).add(&curve.a).mul(&inv);
    let xt = lambda.square().sub(x1).sub(x1);
    let yt = lambda.mul(&x1.sub(&xt)).sub(y1);
    let x3 = flag.mul(&xt);
    let y3 = flag.mul(&yt);
    let block = vec![
        Row { a: *x1, b: *y1, gate: Gate::Double },
        Row { a: inv, b: flag, gate: Gate::Off },
        Row { a: lambda, b: xt, gate: Gate::Off },
        Row { a: yt, b: zero, gate: Gate::Off },
        Row { a: x3, b: y3, gate: Gate::Off },
    ];
    proof {
        lemma_canonical();
        lemma_vanishes_all();
        lemma_double_value(config@, block@);
    }
    block
}

/// The rows of a conditional addition of `(x2, y2)` to `(x1, y1)`, with
/// the honest witnesses.
fn cond_add_block(config: &ECConfig, x1: &Fe, y1: &Fe, x2: &Fe, y2: &Fe, bit: &Fe) -> (r: Vec<
    Row,
>)
    requires
        config.wf(),
        x1.wf(),
        y1.wf(),
        x2.wf(),
        y2.wf(),
        bit.wf(),
    ensures
        r@.len() == 14,
        block_wf(r@),
        r@[0] == (Row { a: *x1, b: *y1, gate: Gate::CondAdd }),
        r@[1].a == *x2 && r@[1].b == *y2,
        r@[2].a == *bit,
        cond_add_holds(config@, r@),
        row_point(r@, 13) == ec_select_add(
            config@,
            PointValue { x: x1@, y: y1@ },
            PointValue { x: x2@, y: y2@ },
            bit@,
        ),
{
    let curve = config.curve();
    let zero = Fe::zero();
    let one = Fe::one();
    let (al, nx) = inverse_and_flag(&x2.sub(x1));
    let (ep, ns) = inverse_and_flag(&y1.add(y2));
    let (be, nd) = inverse_and_flag(&Fe::from_u64(2).mul(y1));
    let chord = y2.sub(y1).mul(&al);
    let tangent = Fe::from_u64(3).mul(&x1.square()).add(&curve.a).mul(&be);
    let lambda = Fe::select(&nx, &chord, &tangent);
    let xt = lambda.square().sub(x1).sub(x2);
    let yt = lambda.mul(&x1.sub(&xt)).sub(y1);
    let g = Fe::select(&nx, &one, &ns.mul(&nd));
    let (i1, n1) = inverse_and_flag(x1);
    let np = either_flag(&n1, &nd);
    let (i2, n2) = inverse_and_flag(x2);
    let (k2, m2) = inverse_and_flag(y2);
    let nq = either_flag(&n2, &m2);
    let xs = Fe::select(&np, &Fe::select(&nq, &g.mul(&xt), x1), x2);
    let ys = Fe::select(&np, &Fe::select(&nq, &g.mul(&yt), y1), y2);
    let x3 = Fe::select(bit, &xs, x1);
    let y3 = Fe::select(bit, &ys, y1);
    let block = vec![
        Row { a: *x1, b: *y1, gate: Gate::CondAdd },
        Row { a: *x2, b: *y2, gate: Gate::Off },
        Row { a: *bit, b: al, gate: Gate::Off },
        Row { a: nx, b: ep, gate: Gate::Off },
        Row { a: ns, b: be, gate: Gate::Off },
        Row { a: nd, b: lambda, gate: Gate::Off },
        Row { a: xt, b: yt, gate: Gate::Off },
        Row { a: g, b: i1, gate: Gate::Off },
        Row { a: n1, b: np, gate: Gate::Off },
        Row { a: i2, b: k2, gate: Gate::Off },
        Row { a: n2, b: m2, gate: Gate::Off },
        Row { a: nq, b: zero, gate: Gate::Off },
        Row { a: xs, b: ys, gate: Gate::Off },
        Row { a: x3, b: y3, gate: Gate::Off },
    ];
    proof {
        let w = block@;
        lemma_canonical();
        lemma_vanishes_all();
        assert(cond_add_links(config@, w));
        assert forall|k: int| 0 <= k < 6 implies inv0_holds(
            (#[trigger] cond_add_inverses(w, k)).0,
            cond_add_inverses(w, k).1,
            cond_add_inverses(w, k).2,
        ) && inv0_proper(
            cond_add_inverses(w, k).0,
            cond_add_inverses(w, k).1,
            cond_add_inverses(w, k).2,
        ) by {}
        lemma_cond_add_value(config@, w);
    }
    block
}

/// Ties the cell `target` to the cell `source`, which holds the same
/// value.
fn tie(region: &mut Region, source: Cell, target: Cell, Ghost(c): Ghost<CurveView>)
    requires
        old(region)@.wf(),
        old(region)@.in_range(source),
        old(region)@.in_range(target),
        old(region)@.value_at(source) == old(region)@.value_at(target),
    ensures
        final(region)@.wf(),
        final(region)@ == old(region)@.link(source, target),
        old(region)@.grown_by(final(region)@, 0),
        final(region)@.rows == old(region)@.rows,
        final(region)@.satisfied(c) <==> old(region)@.satisfied(c),
{
    proof {
        region@.lemma_link(c, source, target);
    }
    let linked = region.constrain_equal(source, target);
    assert(linked.is_ok());
}

/// Ties both cells of row `row` to the cells of the point `p`, which hold
/// the same values.
fn tie_point(region: &mut Region, p: &Point, row: usize, Ghost(c): Ghost<CurveView>)
    requires
        old(region)@.wf(),
        p.bound_in(old(region)@),
        row < old(region)@.rows.len(),
        old(region)@.rows[row as int].a@ == p.value().x,
        old(region)@.rows[row as int].b@ == p.value().y,
    ensures
        final(region)@.wf(),
        final(region)@ == old(region)@.link(
            p.spec_x().spec_cell(),
            Cell { row, column: Column::A },
        ).link(p.spec_y().spec_cell(), Cell { row, column: Column::B }),
        old(region)@.grown_by(final(region)@, 0),
        final(region)@.rows == old(region)@.rows,
        final(region)@.satisfied(c) <==> old(region)@.satisfied(c),
{
    let ghost before = region@;
    tie(region, p.x.cell(), cell_at(row, Column::A), Ghost(c));
    let ghost mid = region@;
    tie(region, p.y.cell(), cell_at(row, Column::B), Ghost(c));
    proof {
        before.lemma_grown_trans(mid, 0, region@, 0);
    }
}

impl ECChip {
    /// Whether the cursor stands at the end of the region, `n` more rows
    /// fit, and the handles are bound: the error, if not.
    fn attempt(region: &Region, offset: usize, n: usize, bound: bool) -> (r: Option<Error>)
        requires
            region@.wf(),
        ensures
            r == operation_error(region@, offset, n as nat, bound),
    {
        proof {
            region@.lemma_wf();
        }
        if offset != region.len() {
            Some(Error::CursorMismatch)
        } else if region.capacity() - region.len() < n {
            Some(Error::NotEnoughRows)
        } else if !bound {
            Some(Error::UnboundCell)
        } else {
            None
        }
    }

    /// Assigns the coordinates of `p` to a fresh row, with no relation
    /// between them.
    pub fn load_private_point_unchecked(
        &self,
        region: &mut Region,
        config: &ECConfig,
        p: &AffinePoint,
        offset: &mut usize,
    ) -> (r: Result<Point, Error>)
        requires
            old(region)@.wf(),
            p.wf(),
        ensures
            final(region)@.wf(),
            match placement_error(old(region)@, *old(offset), 1) {
                Some(e) => (r matches Err(x) && x == e) && untouched(
                    old(region)@,
                    final(region)@,
                    *old(offset),
                    *final(offset),
                ),
                None => r.is_ok() && advanced(
                    old(region)@,
                    final(region)@,
                    *old(offset),
                    *final(offset),
                    1,
                ),
            },
            r matches Ok(q) ==> {
                let n = old(region)@.rows.len() as int;
                &&& final(region)@.copies == old(region)@.copies
                &&& final(region)@.rows[n] == (Row { a: p.x, b: p.y, gate: Gate::Off })
                &&& q.value() == p@
                &&& !q.spec_checked()
                &&& q.bound_in(final(region)@)
                &&& q.spec_x().spec_cell() == (Cell { row: *old(offset), column: Column::A })
                &&& q.spec_y().spec_cell() == (Cell { row: *old(offset), column: Column::B })
                &&& final(region)@.satisfied(config@) <==> old(region)@.satisfied(config@)
            },
    {
        let block = vec![Row { a: p.x, b: p.y, gate: Gate::Off }];
        proof {
            if placement_error(region@, *offset, 1).is_none() {
                region@.lemma_extend(config@, block@);
            }
        }
        let start = region.place(block, offset)?;
        Ok(
            Point {
                x: FieldCell::new(p.x, cell_at(start, Column::A)),
                y: FieldCell::new(p.y, cell_at(start, Column::B)),
                checked: false,
            },
        )
    }

    /// Lays the curve equation down on the coordinates of `p`: a row
    /// under the curve gate, tied to the two cells of `p`. The region can
    /// be satisfied from then on only if `p` is a point of the curve.
    pub fn enforce_on_curve(
        &self,
        region: &mut Region,
        config: &ECConfig,
        p: &Point,
        offset: &mut usize,
    ) -> (r: Result<Point, Error>)
        requires
            old(region)@.wf(),
        ensures
            final(region)@.wf(),
            match operation_error(old(region)@, *old(offset), 1, p.bound_in(old(region)@)) {
                Some(e) => (r matches Err(x) && x == e) && untouched(
                    old(region)@,
                    final(region)@,
                    *old(offset),
                    *final(offset),
                ),
                None => r.is_ok() && advanced(
                    old(region)@,
                    final(region)@,
                    *old(offset),
                    *final(offset),
                    1,
                ),
            },
            r matches Ok(q) ==> {
                let n = *old(offset);
                &&& final(region)@.copies == old(region)@.copies.push(
                    (p.spec_x().spec_cell(), Cell { row: n, column: Column::A }),
                ).push((p.spec_y().spec_cell(), Cell { row: n, column: Column::B }))
                &&& final(region)@.rows[n as int].gate == Gate::OnCurve
                &&& row_point(final(region)@.rows, n as int) == p.value()
                &&& q.spec_x() == p.spec_x() && q.spec_y() == p.spec_y()
                &&& q.spec_checked()
                &&& q.bound_in(final(region)@)
                &&& curve_check_laid(
                    final(region)@,
                    p.spec_x().spec_cell(),
                    p.spec_y().spec_cell(),
                    n as nat,
                )
                &&& final(region)@.satisfied(config@) <==> old(region)@.satisfied(config@)
                    && on_curve(config@, p.value())
            },
    {
        let bound = region.holds(&p.x) && region.holds(&p.y);
        if let Some(e) = Self::attempt(region, *offset, 1, bound) {
            return Err(e);
        }
        let ghost before = region@;
        let ghost c = config@;
        proof {
            before.lemma_wf();
        }
        let block = vec![Row { a: p.x.value(), b: p.y.value(), gate: Gate::OnCurve }];
        proof {
            before.lemma_extend(c, block@);
            lemma_on_curve_gate(c, block@);
        }
        let start = region.place(block, offset).unwrap();
        let ghost placed = region@;
        proof {
            before.lemma_grown_keeps(placed, 1);
        }
        tie_point(region, p, start, Ghost(c));
        proof {
            before.lemma_grown_trans(placed, 1, region@, 0);
            lemma_pushed(
                placed.copies,
                (p.spec_x().spec_cell(), Cell { row: start, column: Column::A }),
                (p.spec_y().spec_cell(), Cell { row: start, column: Column::B }),
            );
        }
        Ok(Point { x: p.x, y: p.y, checked: true })
    }

    /// Assigns the coordinates of `p` and lays the curve equation down on
    /// them.
    pub fn load_private_point(
        &self,
        region: &mut Region,
        config: &ECConfig,
        p: &AffinePoint,
        offset: &mut usize,
    ) -> (r: Result<Point, Error>)
        requires
            old(region)@.wf(),
            p.wf(),
        ensures
            final(region)@.wf(),
            match placement_error(old(region)@, *old(offset), 2) {
                Some(e) => (r matches Err(x) && x == e) && untouched(
                    old(region)@,
                    final(region)@,
                    *old(offset),
                    *final(offset),
                ),
                None => r.is_ok() && advanced(
                    old(region)@,
                    final(region)@,
                    *old(offset),
                    *final(offset),
                    2,
                ),
            },
            r matches Ok(q) ==> {
                &&& q.value() == p@
                &&& q.spec_checked()
                &&& q.bound_in(final(region)@)
                &&& q.spec_x().spec_cell() == (Cell { row: *old(offset), column: Column::A })
                &&& q.spec_y().spec_cell() == (Cell { row: *old(offset), column: Column::B })
                &&& final(region)@.satisfied(config@) <==> old(region)@.satisfied(config@)
                    && on_curve(config@, p@)
            },
    {
        if let Some(e) = Self::attempt(region, *offset, 2, true) {
            return Err(e);
        }
        let ghost before = region@;
        let loaded = self.load_private_point_unchecked(region, config, p, offset).unwrap();
        let ghost mid = region@;
        let checked = self.enforce_on_curve(region, config, &loaded, offset).unwrap();
        proof {
            before.lemma_grown_trans(mid, 1, region@, 1);
        }
        Ok(checked)
    }

    /// Lays down the doubling of `p1` and hands back the point that is
    /// twice `p1`.
    pub fn point_double(
        &self,
        region: &mut Region,
        config: &ECConfig,
        p1: &Point,
        offset: &mut usize,
    ) -> (r: Result<Point, Error>)
        requires
            old(region)@.wf(),
            config.wf(),
        ensures
            final(region)@.wf(),
            match operation_error(
                old(region)@,
                *old(offset),
                DOUBLE_ROWS as nat,
                p1.bound_in(old(region)@),
            ) {
                Some(e) => (r matches Err(x) && x == e) && untouched(
                    old(region)@,
                    final(region)@,
                    *old(offset),
                    *final(offset),
                ),
                None => r.is_ok() && advanced(
                    old(region)@,
                    final(region)@,
                    *old(offset),
                    *final(offset),
                    DOUBLE_ROWS as nat,
                ),
            },
            r matches Ok(q) ==> {
                let n = *old(offset);
                &&& final(region)@.copies == old(region)@.copies.push(
                    (p1.spec_x().spec_cell(), Cell { row: n, column: Column::A }),
                ).push((p1.spec_y().spec_cell(), Cell { row: n, column: Column::B }))
                &&& final(region)@.rows[n as int].gate == Gate::Double
                &&& q.value() == ec_double(config@, p1.value())
                &&& !q.spec_checked()
                &&& q.bound_in(final(region)@)
                &&& q.spec_x().spec_cell() == (Cell { row: (n + 4) as usize, column: Column::A })
                &&& q.spec_y().spec_cell() == (Cell { row: (n + 4) as usize, column: Column::B })
                &&& double_laid(
                    final(region)@,
                    p1.spec_x().spec_cell(),
                    p1.spec_y().spec_cell(),
                    n as nat,
                )
                &&& final(region)@.satisfied(config@) <==> old(region)@.satisfied(config@)
            },
    {
        let bound = region.holds(&p1.x) && region.holds(&p1.y);
        if let Some(e) = Self::attempt(region, *offset, DOUBLE_ROWS, bound) {
            return Err(e);
        }
        let ghost before = region@;
        let ghost c = config@;
        proof {
            before.lemma_wf();
        }
        let block = double_block(config, &p1.x.value(), &p1.y.value());
        let x3 = block[4].a;
        let y3 = block[4].b;
        proof {
            before.lemma_extend(c, block@);
        }
        let start = region.place(block, offset).unwrap();
        let ghost placed = region@;
        proof {
            before.lemma_grown_keeps(placed, 5);
        }
        tie_point(region, p1, start, Ghost(c));
        proof {
            before.lemma_grown_trans(placed, 5, region@, 0);
            lemma_pushed(
                placed.copies,
                (p1.spec_x().spec_cell(), Cell { row: start, column: Column::A }),
                (p1.spec_y().spec_cell(), Cell { row: start, column: Column::B }),
            );
        }
        Ok(
            Point {
                x: FieldCell::new(x3, cell_at(start + 4, Column::A)),
                y: FieldCell::new(y3, cell_at(start + 4, Column::B)),
                checked: false,
            },
        )
    }

    /// Lays down the conditional addition of `p2` to `p1` and hands back
    /// the result: `p1 + p2` where `bit` holds one, `p1` where it holds
    /// zero. Both are computed whatever `bit` holds; the bit only blends
    /// them. Nothing here makes `bit` a bit: that is for whoever made it.
    pub fn conditional_point_add(
        &self,
        region: &mut Region,
        config: &ECConfig,
        p1: &Point,
        p2: &Point,
        bit: &FieldCell,
        offset: &mut usize,
    ) -> (r: Result<Point, Error>)
        requires
            old(region)@.wf(),
            config.wf(),
        ensures
            final(region)@.wf(),
            match operation_error(
                old(region)@,
                *old(offset),
                COND_ADD_ROWS as nat,
                p1.bound_in(old(region)@) && p2.bound_in(old(region)@) && old(region)@.binds(
                    *bit,
                ),
            ) {
                Some(e) => (r matches Err(x) && x == e) && untouched(
                    old(region)@,
                    final(region)@,
                    *old(offset),
                    *final(offset),
                ),
                None => r.is_ok() && advanced(
                    old(region)@,
                    final(region)@,
                    *old(offset),
                    *final(offset),
                    COND_ADD_ROWS as nat,
                ),
            },
            r matches Ok(q) ==> {
                let n = *old(offset);
                &&& final(region)@.copies == old(region)@.copies.push(
                    (p1.spec_x().spec_cell(), Cell { row: n, column: Column::A }),
                ).push((p1.spec_y().spec_cell(), Cell { row: n, column: Column::B })).push(
                    (p2.spec_x().spec_cell(), Cell { row: (n + 1) as usize, column: Column::A }),
                ).push(
                    (p2.spec_y().spec_cell(), Cell { row: (n + 1) as usize, column: Column::B }),
                ).push((bit.spec_cell(), Cell { row: (n + 2) as usize, column: Column::A }))
                &&& final(region)@.rows[n as int].gate == Gate::CondAdd
                &&& q.value() == ec_select_add(
                    config@,
                    p1.value(),
                    p2.value(),
                    bit.spec_value()@,
                )
                &&& !q.spec_checked()
                &&& q.bound_in(final(region)@)
                &&& q.spec_x().spec_cell() == (Cell { row: (n + 13) as usize, column: Column::A })
                &&& q.spec_y().spec_cell() == (Cell { row: (n + 13) as usize, column: Column::B })
                &&& cond_add_laid(
                    final(region)@,
                    (p1.spec_x().spec_cell(), p1.spec_y().spec_cell()),
                    (p2.spec_x().spec_cell(), p2.spec_y().spec_cell()),
                    bit.spec_cell(),
                    n as nat,
                )
                &&& final(region)@.satisfied(config@) <==> old(region)@.satisfied(config@)
            },
    {
        let bound = region.holds(&p1.x) && region.holds(&p1.y) && region.holds(&p2.x)
            && region.holds(&p2.y) && region.holds(bit);
        if let Some(e) = Self::attempt(region, *offset, COND_ADD_ROWS, bound) {
            return Err(e);
        }
        let ghost before = region@;
        let ghost c = config@;
        proof {
            before.lemma_wf();
        }
        let block = cond_add_block(
            config,
            &p1.x.value(),
            &p1.y.value(),
            &p2.x.value(),
            &p2.y.value(),
            &bit.value(),
        );
        let x3 = block[13].a;
        let y3 = block[13].b;
        proof {
            before.lemma_extend(c, block@);
        }
        let start = region.place(block, offset).unwrap();
        let ghost placed = region@;
        proof {
            before.lemma_grown_keeps(placed, 14);
        }
        tie_point(region, p1, start, Ghost(c));
        let ghost first = region@;
        proof {
            placed.lemma_grown_keeps(first, 0);
        }
        tie_point(region, p2, start + 1, Ghost(c));
        let ghost second = region@;
        proof {
            first.lemma_grown_keeps(second, 0);
        }
        tie(region, bit.cell(), cell_at(start + 2, Column::A), Ghost(c));
        proof {
            before.lemma_grown_trans(placed, 14, first, 0);
            before.lemma_grown_trans(first, 14, second, 0);
            before.lemma_grown_trans(second, 14, region@, 0);
            let m = placed.copies.len() as int;
            assert(region@.copies[m] == (
                p1.spec_x().spec_cell(),
                Cell { row: start, column: Column::A },
            ));
            assert(region@.copies[m + 1] == (
                p1.spec_y().spec_cell(),
                Cell { row: start, column: Column::B },
            ));
            assert(region@.copies[m + 2] == (
                p2.spec_x().spec_cell(),
                Cell { row: (start + 1) as usize, column: Column::A },
            ));
            assert(region@.copies[m + 3] == (
                p2.spec_y().spec_cell(),
                Cell { row: (start + 1) as usize, column: Column::B },
            ));
            assert(region@.copies[m + 4] == (
                bit.spec_cell(),
                Cell { row: (start + 2) as usize, column: Column::A },
            ));
        }
        Ok(
            Point {
                x: FieldCell::new(x3, cell_at(start + 13, Column::A)),
                y: FieldCell::new(y3, cell_at(start + 13, Column::B)),
                checked: false,
            },
        )
    }
}

} // verus!
