//! The checker: evaluates every gate and every copy constraint of a region
//! and says whether all of them hold. The chip lays constraints down and
//! never judges them; this is where a wrong witness comes to light.
use vstd::prelude::*;
use crate::chip::ECConfig;
use crate::curve::{line_sum, CurveParams, PointValue};
use crate::field::Fe;
use crate::gates::{
    bit_decomp_holds, boolean_holds, cond_add_inverses, cond_add_links, double_holds, gate_holds,
    inv0_holds, on_curve_holds, rows_wf, span, vanishes, Gate, Row,
};
use crate::region::Region;

verus! {

/// Whether the polynomial `lhs - rhs` is zero.
fn is_zero_difference(lhs: &Fe, rhs: &Fe) -> (r: bool)
    requires
        lhs.wf(),
        rhs.wf(),
    ensures
        r == vanishes(lhs@, rhs@),
{
    lhs.sub(rhs).is_zero()
}

/// Whether `b (1 - b)` is zero.
fn is_boolean(b: &Fe) -> (r: bool)
    requires
        b.wf(),
    ensures
        r == boolean_holds(b@),
{
    b.mul(&Fe::one().sub(b)).is_zero()
}

/// Whether the three constraints on an inverse-or-zero witness hold.
fn is_inverse_or_zero(v: &Fe, inv: &Fe, flag: &Fe) -> (r: bool)
    requires
        v.wf(),
        inv.wf(),
        flag.wf(),
    ensures
        r == inv0_holds(v@, inv@, flag@),
{
    let rest = Fe::one().sub(flag);
    let tied = is_zero_difference(flag, &v.mul(inv));
    let first = v.mul(&rest).is_zero();
    let second = inv.mul(&rest).is_zero();
    tied && first && second
}

/// The point that the line of slope `lambda` through `(x1, y1)` and a
/// point of abscissa `x2` meets the curve in, reflected.
fn third_point(lambda: &Fe, x1: &Fe, y1: &Fe, x2: &Fe) -> (r: (Fe, Fe))
    requires
        lambda.wf(),
        x1.wf(),
        y1.wf(),
        x2.wf(),
    ensures
        r.0.wf(),
        r.1.wf(),
        (PointValue { x: r.0@, y: r.1@ }) == line_sum(
            lambda@,
            PointValue { x: x1@, y: y1@ },
            x2@,
        ),
{
    let x3 = lambda.square().sub(x1).sub(x2);
    let y3 = lambda.mul(&x1.sub(&x3)).sub(y1);
    (x3, y3)
}

/// `3 x^2 + a`, the numerator of the slope of a tangent.
fn tangent_numerator(curve: &CurveParams, x: &Fe) -> (r: Fe)
    requires
        curve.wf(),
        x.wf(),
    ensures
        r.wf(),
        r@ == crate::field::fadd(
            crate::field::fmul(3, crate::field::fsq(x@)),
            curve@.a,
        ),
{
    Fe::from_u64(3).mul(&x.square()).add(&curve.a)
}

fn check_bit_decomp(w: &Vec<Row>) -> (r: bool)
    requires
        w@.len() == 3,
        rows_wf(w@),
    ensures
        r == bit_decomp_holds(w@),
{
    let (b3, b2, b1, b0) = (w[0].a, w[0].b, w[1].a, w[1].b);
    let (hi, lo) = (w[2].a, w[2].b);
    let low = Fe::from_u64(8).mul(&b3).add(&Fe::from_u64(4).mul(&b2)).add(
        &Fe::from_u64(2).mul(&b1),
    ).add(&b0);
    let whole = hi.mul(&Fe::from_u64(16)).add(&low);
    let bits = is_boolean(&b3) && is_boolean(&b2) && is_boolean(&b1) && is_boolean(&b0);
    let sum = is_zero_difference(&lo, &whole);
    bits && sum
}

fn check_on_curve(curve: &CurveParams, w: &Vec<Row>) -> (r: bool)
    requires
        curve.wf(),
        w@.len() == 1,
        rows_wf(w@),
    ensures
        r == on_curve_holds(curve@, w@),
{
    let (x, y) = (w[0].a, w[0].b);
    let rhs = x.square().mul(&x).add(&curve.a.mul(&x)).add(&curve.b);
    is_zero_difference(&y.square(), &rhs)
}

fn check_double(curve: &CurveParams, w: &Vec<Row>) -> (r: bool)
    requires
        curve.wf(),
        w@.len() == 5,
        rows_wf(w@),
    ensures
        r == double_holds(curve@, w@),
{
    let (x1, y1) = (w[0].a, w[0].b);
    let (inv, flag) = (w[1].a, w[1].b);
    let (lambda, xt) = (w[2].a, w[2].b);
    let yt = w[3].a;
    let (x3, y3) = (w[4].a, w[4].b);
    let t = third_point(&lambda, &x1, &y1, &x1);
    let witness = is_inverse_or_zero(&Fe::from_u64(2).mul(&y1), &inv, &flag);
    let slope = is_zero_difference(&lambda, &tangent_numerator(curve, &x1).mul(&inv));
    let line = is_zero_difference(&xt, &t.0) && is_zero_difference(&yt, &t.1);
    let out = is_zero_difference(&x3, &flag.mul(&xt)) && is_zero_difference(
        &y3,
        &flag.mul(&yt),
    );
    witness && slope && line && out
}

/// Whether the six inverse-or-zero witnesses of a conditional addition
/// meet their constraints.
fn check_cond_add_inverses(w: &Vec<Row>) -> (r: bool)
    requires
        w@.len() == 14,
        rows_wf(w@),
    ensures
        r == (forall|k: int|
            0 <= k < 6 ==> inv0_holds(
                (#[trigger] cond_add_inverses(w@, k)).0,
                cond_add_inverses(w@, k).1,
                cond_add_inverses(w@, k).2,
            )),
{
    let (x1, y1) = (w[0].a, w[0].b);
    let (x2, y2) = (w[1].a, w[1].b);
    let c0 = is_inverse_or_zero(&x2.sub(&x1), &w[2].b, &w[3].a);
    let c1 = is_inverse_or_zero(&y1.add(&y2), &w[3].b, &w[4].a);
    let c2 = is_inverse_or_zero(&Fe::from_u64(2).mul(&y1), &w[4].b, &w[5].a);
    let c3 = is_inverse_or_zero(&x1, &w[7].b, &w[8].a);
    let c4 = is_inverse_or_zero(&x2, &w[9].a, &w[10].a);
    let c5 = is_inverse_or_zero(&y2, &w[9].b, &w[10].b);
    proof {
        let t0 = cond_add_inverses(w@, 0);
        let t1 = cond_add_inverses(w@, 1);
        let t2 = cond_add_inverses(w@, 2);
        let t3 = cond_add_inverses(w@, 3);
        let t4 = cond_add_inverses(w@, 4);
        let t5 = cond_add_inverses(w@, 5);
        assert(c0 == inv0_holds(t0.0, t0.1, t0.2));
        assert(c1 == inv0_holds(t1.0, t1.1, t1.2));
        assert(c2 == inv0_holds(t2.0, t2.1, t2.2));
        assert(c3 == inv0_holds(t3.0, t3.1, t3.2));
        assert(c4 == inv0_holds(t4.0, t4.1, t4.2));
        assert(c5 == inv0_holds(t5.0, t5.1, t5.2));
    }
    c0 && c1 && c2 && c3 && c4 && c5
}

/// Whether the constraints of a conditional addition that tie its cells
/// to one another hold.
fn check_cond_add_links(curve: &CurveParams, w: &Vec<Row>) -> (r: bool)
    requires
        curve.wf(),
        w@.len() == 14,
        rows_wf(w@),
    ensures
        r == cond_add_links(curve@, w@),
{
    let (x1, y1) = (w[0].a, w[0].b);
    let (x2, y2) = (w[1].a, w[1].b);
    let bit = w[2].a;
    let (nx, ns, nd) = (w[3].a, w[4].a, w[5].a);
    let lambda = w[5].b;
    let (xt, yt) = (w[6].a, w[6].b);
    let g = w[7].a;
    let (n1, np) = (w[8].a, w[8].b);
    let (n2, m2) = (w[10].a, w[10].b);
    let nq = w[11].a;
    let (xs, ys) = (w[12].a, w[12].b);
    let t = third_point(&lambda, &x1, &y1, &x2);
    let chord = y2.sub(&y1).mul(&w[2].b);
    let tangent = tangent_numerator(curve, &x1).mul(&w[4].b);
    let slope = is_zero_difference(&lambda, &Fe::select(&nx, &chord, &tangent));
    let line = is_zero_difference(&xt, &t.0) && is_zero_difference(&yt, &t.1);
    let generic = is_zero_difference(&g, &Fe::select(&nx, &Fe::one(), &ns.mul(&nd)));
    let first = is_zero_difference(&np, &n1.add(&nd).sub(&n1.mul(&nd)));
    let second = is_zero_difference(&nq, &n2.add(&m2).sub(&n2.mul(&m2)));
    let sum_x = is_zero_difference(
        &xs,
        &Fe::select(&np, &Fe::select(&nq, &g.mul(&xt), &x1), &x2),
    );
    let sum_y = is_zero_difference(
        &ys,
        &Fe::select(&np, &Fe::select(&nq, &g.mul(&yt), &y1), &y2),
    );
    let out_x = is_zero_difference(&w[13].a, &Fe::select(&bit, &xs, &x1));
    let out_y = is_zero_difference(&w[13].b, &Fe::select(&bit, &ys, &y1));
    slope && line && generic && first && second && sum_x && sum_y && out_x && out_y
}

/// Whether the constraints of gate `gate` hold on the block `w`.
pub fn check_gate(curve: &CurveParams, gate: Gate, w: &Vec<Row>) -> (r: bool)
    requires
        curve.wf(),
        w@.len() == span(gate),
        rows_wf(w@),
    ensures
        r == gate_holds(curve@, gate, w@),
{
    match gate {
        Gate::Off => true,
        Gate::Add => is_zero_difference(&w[1].a.sub(&w[0].a), &w[0].b),
        Gate::Mul => is_zero_difference(&w[1].a, &w[0].a.mul(&w[0].b)),
        Gate::Zero => w[0].a.is_zero() && w[0].b.is_zero(),
        Gate::BitDecomp => check_bit_decomp(w),
        Gate::OnCurve => check_on_curve(curve, w),
        Gate::Double => check_double(curve, w),
        Gate::CondAdd => {
            let links = check_cond_add_links(curve, w);
            let inverses = check_cond_add_inverses(w);
            links && inverses
        },
    }
}

/// Whether the selector of row `i` has its block assigned and holds on it.
pub fn check_row(region: &Region, config: &ECConfig, i: usize) -> (r: bool)
    requires
        region@.wf(),
        config.wf(),
        i < region@.rows.len(),
    ensures
        r == region@.row_ok(config@, i as int),
{
    proof {
        region@.lemma_wf();
    }
    let first = region.row(i).unwrap();
    let n = first.gate.rows();
    if region.len() - i < n {
        return false;
    }
    let mut w: Vec<Row> = Vec::new();
    let mut k: usize = 0;
    while k < n
        invariant
            k <= n,
            i + n <= region@.rows.len() <= usize::MAX,
            w@ == region@.rows.subrange(i as int, i + k),
        decreases n - k,
    {
        w.push(region.row(i + k).unwrap());
        proof {
            assert(w@ =~= region@.rows.subrange(i as int, i + k + 1));
        }
        k = k + 1;
    }
    proof {
        assert forall|j: int| 0 <= j < w@.len() implies (#[trigger] w@[j]).a.wf()
            && w@[j].b.wf() by {
            assert(region@.rows[i + j].a.wf());
        }
    }
    check_gate(&config.curve(), first.gate, &w)
}

/// Whether the two cells of copy constraint `k` hold the same value.
pub fn check_copy(region: &Region, k: usize) -> (r: bool)
    requires
        k < region@.copies.len(),
    ensures
        r == region@.copy_ok(k as int),
{
    let (left, right) = region.copy(k).unwrap();
    match (region.value(left), region.value(right)) {
        (Some(l), Some(r)) => l.equals(&r),
        _ => false,
    }
}

/// Whether the region is satisfied: every gate holds on its block and
/// every copy constraint ties equal values.
pub fn is_satisfied(region: &Region, config: &ECConfig) -> (r: bool)
    requires
        region@.wf(),
        config.wf(),
    ensures
        r == region@.satisfied(config@),
{
    let n = region.len();
    let mut i: usize = 0;
    while i < n
        invariant
            i <= n,
            n == region@.rows.len(),
            region@.wf(),
            config.wf(),
            forall|j: int| 0 <= j < i ==> #[trigger] region@.row_ok(config@, j),
        decreases n - i,
    {
        if !check_row(region, config, i) {
            return false;
        }
        i = i + 1;
    }
    let m = region.copy_count();
    let mut k: usize = 0;
    while k < m
        invariant
            k <= m,
            m == region@.copies.len(),
            forall|j: int| 0 <= j < k ==> #[trigger] region@.copy_ok(j),
        decreases m - k,
    {
        if !check_copy(region, k) {
            return false;
        }
        k = k + 1;
    }
    true
}

} // verus!
