//! Laws of the group law: the sum of two points of the curve, the double
//! of a point of the curve and every multiple of a point of the curve are
//! points of the curve or the point at infinity, and the sum does not
//! depend on the order of the two points.
//!
//! The proofs go through the integers: a residue computed in the field is
//! congruent to the same polynomial of the integers, and the polynomial
//! that says "on the curve" for the result is a combination of those that
//! say it for the arguments.
use vstd::prelude::*;
use vstd::arithmetic::div_mod::{
    lemma_add_mod_noop, lemma_mul_mod_noop_general, lemma_small_mod, lemma_sub_mod_noop,
};
use crate::curve::{
    chord_slope, curve_rhs, ec_add, ec_double, ec_mul, ec_neg, identity, line_sum, on_curve,
    tangent_slope, CurveView, PointValue,
};
use crate::field::{
    fadd, finv, fmul, fsq, fsub, lemma_canonical, lemma_fmul_assoc, lemma_fmul_comm,
    lemma_fsub_zero, lemma_inverse_exists, lemma_no_zero_divisors, lemma_units, modulus,
};

verus! {

/// The two integers leave the same residue.
pub open spec fn cong(a: int, b: int) -> bool {
    a % (modulus() as int) == b % (modulus() as int)
}

/// The point is the point at infinity or a point of the curve.
pub open spec fn in_group(c: CurveView, p: PointValue) -> bool {
    p == identity() || on_curve(c, p)
}

/// Both coordinates are canonical residues.
pub open spec fn canonical(p: PointValue) -> bool {
    p.x < modulus() && p.y < modulus()
}

/// Both coefficients are canonical residues.
pub open spec fn canonical_curve(c: CurveView) -> bool {
    c.a < modulus() && c.b < modulus()
}

/// Congruent summands give congruent sums, differences and products.
pub proof fn lemma_cong_ring(a: int, a2: int, b: int, b2: int)
    requires
        cong(a, a2),
        cong(b, b2),
    ensures
        cong(a + b, a2 + b2),
        cong(a - b, a2 - b2),
        cong(a * b, a2 * b2),
{
    let m = modulus() as int;
    lemma_add_mod_noop(a, b, m);
    lemma_add_mod_noop(a2, b2, m);
    lemma_sub_mod_noop(a, b, m);
    lemma_sub_mod_noop(a2, b2, m);
    lemma_mul_mod_noop_general(a, b, m);
    lemma_mul_mod_noop_general(a2, b2, m);
}

/// A sum in the field is congruent to the sum of what its summands are
/// congruent to.
pub proof fn lemma_lift_add(u: nat, v: nat, a: int, b: int)
    requires
        cong(u as int, a),
        cong(v as int, b),
    ensures
        cong(fadd(u, v) as int, a + b),
{
    reveal(fadd);
    lemma_cong_ring(u as int, a, v as int, b);
    lemma_small_mod(fadd(u, v), modulus());
}

/// A difference in the field is congruent to the difference of what its
/// terms are congruent to.
pub proof fn lemma_lift_sub(u: nat, v: nat, a: int, b: int)
    requires
        cong(u as int, a),
        cong(v as int, b),
    ensures
        cong(fsub(u, v) as int, a - b),
{
    reveal(fsub);
    lemma_cong_ring(u as int, a, v as int, b);
    lemma_small_mod(fsub(u, v), modulus());
}

/// A product in the field is congruent to the product of what its
/// factors are congruent to.
pub proof fn lemma_lift_mul(u: nat, v: nat, a: int, b: int)
    requires
        cong(u as int, a),
        cong(v as int, b),
    ensures
        cong(fmul(u, v) as int, a * b),
{
    reveal(fmul);
    lemma_cong_ring(u as int, a, v as int, b);
    lemma_small_mod(fmul(u, v), modulus());
}

/// Canonical residues that are congruent are equal.
pub proof fn lemma_cong_canonical(u: nat, v: nat)
    requires
        u < modulus(),
        v < modulus(),
        cong(u as int, v as int),
    ensures
        u == v,
{
    lemma_small_mod(u, modulus());
    lemma_small_mod(v, modulus());
}

/// What is congruent to zero stays so when multiplied.
pub proof fn lemma_cong_zero_multiple(k: int, d: int)
    requires
        cong(d, 0),
    ensures
        cong(k * d, 0),
{
    lemma_cong_ring(k, k, d, 0);
    assert(k * 0 == 0) by (nonlinear_arith);
}

/// The right-hand side of the curve equation in the field is congruent to
/// the same polynomial of the integers.
pub proof fn lemma_lift_curve_rhs(c: CurveView, x: nat, xp: int)
    requires
        cong(x as int, xp),
    ensures
        cong(curve_rhs(c, x) as int, xp * xp * xp + (c.a as int) * xp + (c.b as int)),
{
    lemma_lift_mul(x, x, xp, xp);
    lemma_lift_mul(fsq(x), x, xp * xp, xp);
    lemma_lift_mul(c.a, x, c.a as int, xp);
    lemma_lift_add(fmul(fsq(x), x), fmul(c.a, x), xp * xp * xp, (c.a as int) * xp);
    lemma_lift_add(
        fadd(fmul(fsq(x), x), fmul(c.a, x)),
        c.b,
        xp * xp * xp + (c.a as int) * xp,
        c.b as int,
    );
}

/// The third point of a line in the field is congruent, coordinate by
/// coordinate, to the same polynomials of the integers.
pub proof fn lemma_lift_line_sum(lambda: nat, p: PointValue, x2: nat)
    ensures
        cong(
            line_sum(lambda, p, x2).x as int,
            (lambda as int) * (lambda as int) - (p.x as int) - (x2 as int),
        ),
        cong(
            line_sum(lambda, p, x2).y as int,
            (lambda as int) * ((p.x as int) - ((lambda as int) * (lambda as int) - (p.x as int)
                - (x2 as int))) - (p.y as int),
        ),
{
    let l = lambda as int;
    let (x1, y1, xq) = (p.x as int, p.y as int, x2 as int);
    let xp = l * l - x1 - xq;
    lemma_lift_mul(lambda, lambda, l, l);
    lemma_lift_sub(fsq(lambda), p.x, l * l, x1);
    lemma_lift_sub(fsub(fsq(lambda), p.x), x2, l * l - x1, xq);
    let x3 = line_sum(lambda, p, x2).x;
    lemma_lift_sub(p.x, x3, x1, xp);
    lemma_lift_mul(lambda, fsub(p.x, x3), l, x1 - xp);
    lemma_lift_sub(fmul(lambda, fsub(p.x, x3)), p.y, l * (x1 - xp), y1);
}

/// The cubic of the curve less the square of the line of slope `l`
/// through `(x1, y1)`, at the abscissa `t`: zero exactly where the line
/// meets the curve.
pub open spec fn line_cubic(t: int, x1: int, y1: int, l: int, a: int, b: int) -> int {
    t * t * t + a * t + b - (l * (t - x1) + y1) * (l * (t - x1) + y1)
}

/// What is left of [`line_cubic`] once the factor `t - x1` is taken out.
pub open spec fn line_quadratic(t: int, x1: int, y1: int, l: int, a: int) -> int {
    t * t + t * x1 + x1 * x1 + a - (l * l) * (t - x1) - 2 * (l * y1)
}

/// The cubic at `t` is the cubic at `x1` plus `t - x1` times the
/// quadratic at `t`.
proof fn lemma_cubic_split(t: int, x1: int, y1: int, l: int, a: int, b: int)
    ensures
        line_cubic(t, x1, y1, l, a, b) == line_cubic(x1, x1, y1, l, a, b) + (t - x1)
            * line_quadratic(t, x1, y1, l, a),
{
    let d = t - x1;
    let c1 = t * t + t * x1 + x1 * x1;
    let c3 = (l * l) * d + 2 * (l * y1);
    assert(t * t * t - x1 * x1 * x1 == d * c1) by (nonlinear_arith)
        requires
            d == t - x1,
            c1 == t * t + t * x1 + x1 * x1,
    ;
    assert(a * t - a * x1 == d * a) by (nonlinear_arith)
        requires
            d == t - x1,
    ;
    assert((l * d + y1) * (l * d + y1) - y1 * y1 == d * c3) by (nonlinear_arith)
        requires
            c3 == (l * l) * d + 2 * (l * y1),
    ;
    assert(l * (x1 - x1) + y1 == y1) by (nonlinear_arith);
    assert(d * c1 + d * a - d * c3 == d * (c1 + a - c3)) by (nonlinear_arith);
}

/// The quadratic at `t` is the quadratic at `x2` plus `t - x2` times
/// `t + x2 + x1 - l^2`.
proof fn lemma_quadratic_shift(t: int, x1: int, x2: int, y1: int, l: int, a: int)
    ensures
        line_quadratic(t, x1, y1, l, a) == line_quadratic(x2, x1, y1, l, a) + (t - x2) * (t + x2
            + x1 - l * l),
{
    let k = l * l;
    assert(t * t + t * x1 - k * (t - x1) - (x2 * x2 + x2 * x1 - k * (x2 - x1)) == (t - x2) * (t
        + x2 + x1 - k)) by (nonlinear_arith);
}

/// Where the line of slope `l` through `(x1, y1)` meets the curve at
/// `x1`, and the quadratic vanishes at `x2`, the line meets the curve a
/// third time at `l^2 - x1 - x2`: the reflected third point is on the
/// curve.
proof fn lemma_third_point(x1: int, y1: int, x2: int, l: int, a: int, b: int)
    requires
        cong(line_cubic(x1, x1, y1, l, a, b), 0),
        cong(line_quadratic(x2, x1, y1, l, a), 0),
    ensures
        ({
            let xp = l * l - x1 - x2;
            let yp = l * (x1 - xp) - y1;
            cong(yp * yp, xp * xp * xp + a * xp + b)
        }),
{
    let xp = l * l - x1 - x2;
    let yp = l * (x1 - xp) - y1;
    let w = l * (xp - x1) + y1;
    let q2 = line_quadratic(x2, x1, y1, l, a);
    let f1 = line_cubic(x1, x1, y1, l, a, b);
    lemma_cubic_split(xp, x1, y1, l, a, b);
    lemma_quadratic_shift(xp, x1, x2, y1, l, a);
    assert((xp - x2) * (xp + x2 + x1 - l * l) == 0) by (nonlinear_arith)
        requires
            xp == l * l - x1 - x2,
    ;
    assert(line_cubic(xp, x1, y1, l, a, b) == f1 + (xp - x1) * q2);
    lemma_cong_zero_multiple(xp - x1, q2);
    lemma_cong_ring(f1, 0, (xp - x1) * q2, 0);
    assert(cong(line_cubic(xp, x1, y1, l, a, b), 0));
    assert(yp * yp == w * w) by (nonlinear_arith)
        requires
            yp == l * (x1 - xp) - y1,
            w == l * (xp - x1) + y1,
    ;
    let rhs = xp * xp * xp + a * xp + b;
    assert(line_cubic(xp, x1, y1, l, a, b) == rhs - w * w);
    lemma_cong_ring(rhs - w * w, 0, w * w, w * w);
}

/// A point of the curve makes the cubic of any line through it vanish at
/// its abscissa.
proof fn lemma_on_curve_cubic(c: CurveView, p: PointValue, l: int)
    requires
        on_curve(c, p),
    ensures
        cong(line_cubic(p.x as int, p.x as int, p.y as int, l, c.a as int, c.b as int), 0),
{
    let (x, y, a, b) = (p.x as int, p.y as int, c.a as int, c.b as int);
    lemma_lift_mul(p.y, p.y, y, y);
    lemma_lift_curve_rhs(c, p.x, x);
    let rhs = x * x * x + a * x + b;
    assert(cong(rhs, y * y));
    lemma_cong_ring(rhs, y * y, y * y, y * y);
    assert(l * (x - x) + y == y) by (nonlinear_arith);
}

/// Twice a point of the curve whose ordinate is not zero is a point of
/// the curve.
pub proof fn lemma_tangent_on_curve(c: CurveView, p: PointValue)
    requires
        canonical_curve(c),
        canonical(p),
        on_curve(c, p),
        p.y != 0,
    ensures
        on_curve(c, ec_double(c, p)),
{
    let (x, y, a, b) = (p.x as int, p.y as int, c.a as int, c.b as int);
    lemma_canonical();
    // the slope: twice the ordinate times the slope is the numerator
    let twice = fmul(2, p.y);
    assert(twice != 0) by {
        reveal(fmul);
    }
    lemma_inverse_exists(twice);
    let inv = finv(twice);
    let num = fadd(fmul(3, fsq(p.x)), c.a);
    let lambda = tangent_slope(c, p);
    let l = lambda as int;
    assert(fmul(twice, lambda) == num) by {
        lemma_fmul_comm(num, inv);
        lemma_fmul_assoc(twice, inv, num);
        lemma_units(num);
    }
    lemma_lift_mul(2, p.y, 2, y);
    lemma_lift_mul(twice, lambda, 2 * y, l);
    lemma_lift_mul(p.x, p.x, x, x);
    lemma_lift_mul(3, fsq(p.x), 3, x * x);
    lemma_lift_add(fmul(3, fsq(p.x)), c.a, 3 * (x * x), a);
    assert(cong(3 * (x * x) + a, (2 * y) * l));
    // so the quadratic of the tangent vanishes at the point itself
    lemma_cong_ring(3 * (x * x) + a, (2 * y) * l, (2 * y) * l, (2 * y) * l);
    assert(line_quadratic(x, x, y, l, a) == 3 * (x * x) + a - (2 * y) * l) by (nonlinear_arith);
    lemma_on_curve_cubic(c, p, l);
    lemma_third_point(x, y, x, l, a, b);
    // the result, coordinate by coordinate
    let r = ec_double(c, p);
    let xp = l * l - x - x;
    let yp = l * (x - xp) - y;
    lemma_lift_line_sum(lambda, p, p.x);
    lemma_lift_mul(r.y, r.y, yp, yp);
    lemma_lift_curve_rhs(c, r.x, xp);
    lemma_cong_canonical(fsq(r.y), curve_rhs(c, r.x));
}

/// The sum of two points of the curve with different abscissas is a point
/// of the curve.
pub proof fn lemma_chord_on_curve(c: CurveView, p: PointValue, q: PointValue)
    requires
        canonical_curve(c),
        canonical(p),
        canonical(q),
        on_curve(c, p),
        on_curve(c, q),
        p.x != q.x,
    ensures
        on_curve(c, line_sum(chord_slope(p, q), p, q.x)),
{
    let (x1, y1, x2, y2) = (p.x as int, p.y as int, q.x as int, q.y as int);
    let (a, b) = (c.a as int, c.b as int);
    lemma_canonical();
    lemma_no_zero_divisors();
    // the slope: the difference of the abscissas times the slope is the
    // difference of the ordinates
    let dx = fsub(q.x, p.x);
    let dy = fsub(q.y, p.y);
    lemma_fsub_zero(q.x, p.x);
    lemma_inverse_exists(dx);
    let inv = finv(dx);
    let lambda = chord_slope(p, q);
    let l = lambda as int;
    assert(fmul(dx, lambda) == dy) by {
        lemma_fmul_comm(dy, inv);
        lemma_fmul_assoc(dx, inv, dy);
        lemma_units(dy);
    }
    lemma_lift_sub(q.x, p.x, x2, x1);
    lemma_lift_sub(q.y, p.y, y2, y1);
    lemma_lift_mul(dx, lambda, x2 - x1, l);
    assert(cong((x2 - x1) * l, y2 - y1));
    // the line meets the curve at both points
    lemma_on_curve_cubic(c, p, l);
    lemma_on_curve_cubic(c, q, l);
    let v = l * (x2 - x1) + y1;
    assert(cong(v, y2)) by {
        assert(l * (x2 - x1) == (x2 - x1) * l) by (nonlinear_arith);
        lemma_cong_ring((x2 - x1) * l, y2 - y1, y1, y1);
    }
    lemma_cong_ring(v, y2, v, y2);
    let rhs2 = x2 * x2 * x2 + a * x2 + b;
    assert(l * (x2 - x2) + y2 == y2) by (nonlinear_arith);
    assert(cong(rhs2 - y2 * y2, 0));
    lemma_cong_ring(rhs2, rhs2, v * v, y2 * y2);
    assert(cong(line_cubic(x2, x1, y1, l, a, b), 0));
    // so the difference of the abscissas times the quadratic vanishes,
    // and with it the quadratic
    lemma_cubic_split(x2, x1, y1, l, a, b);
    let f1 = line_cubic(x1, x1, y1, l, a, b);
    let q2 = line_quadratic(x2, x1, y1, l, a);
    lemma_cong_ring(f1 + (x2 - x1) * q2, 0, f1, 0);
    assert(cong((x2 - x1) * q2, 0));
    let qr = (q2 % (modulus() as int)) as nat;
    assert(cong(qr as int, q2)) by {
        lemma_small_mod(qr, modulus());
    }
    lemma_lift_mul(dx, qr, x2 - x1, q2);
    lemma_cong_canonical(fmul(dx, qr), 0);
    assert(qr == 0);
    lemma_third_point(x1, y1, x2, l, a, b);
    // the result, coordinate by coordinate
    let r = line_sum(lambda, p, q.x);
    let xp = l * l - x1 - x2;
    let yp = l * (x1 - xp) - y1;
    lemma_lift_line_sum(lambda, p, q.x);
    lemma_lift_mul(r.y, r.y, yp, yp);
    lemma_lift_curve_rhs(c, r.x, xp);
    lemma_cong_canonical(fsq(r.y), curve_rhs(c, r.x));
}

/// The group is closed under doubling.
pub proof fn lemma_double_in_group(c: CurveView, p: PointValue)
    requires
        canonical_curve(c),
        canonical(p),
        in_group(c, p),
    ensures
        in_group(c, ec_double(c, p)),
        canonical(ec_double(c, p)),
{
    lemma_canonical();
    if p.y != 0 {
        lemma_tangent_on_curve(c, p);
    }
}

/// The group is closed under addition.
pub proof fn lemma_add_in_group(c: CurveView, p: PointValue, q: PointValue)
    requires
        canonical_curve(c),
        canonical(p),
        canonical(q),
        in_group(c, p),
        in_group(c, q),
    ensures
        in_group(c, ec_add(c, p, q)),
        canonical(ec_add(c, p, q)),
{
    lemma_canonical();
    if p != identity() && q != identity() {
        if p.x != q.x {
            lemma_chord_on_curve(c, p, q);
        } else {
            lemma_double_in_group(c, p);
        }
    }
}

/// The group is closed under multiplication by a scalar.
pub proof fn lemma_mul_in_group(c: CurveView, s: nat, p: PointValue)
    requires
        canonical_curve(c),
        canonical(p),
        in_group(c, p),
    ensures
        in_group(c, ec_mul(c, s, p)),
        canonical(ec_mul(c, s, p)),
    decreases s,
{
    if s != 0 {
        lemma_mul_in_group(c, s / 2, p);
        let h = ec_mul(c, s / 2, p);
        lemma_double_in_group(c, h);
        lemma_add_in_group(c, ec_double(c, h), p);
    }
}

/// The chord through two points has the same slope whichever of them
/// comes first.
pub proof fn lemma_chord_slope_symmetric(p: PointValue, q: PointValue)
    requires
        canonical(p),
        canonical(q),
        p.x != q.x,
    ensures
        chord_slope(p, q) == chord_slope(q, p),
        cong(
            ((q.x as int) - (p.x as int)) * (chord_slope(p, q) as int),
            (q.y as int) - (p.y as int),
        ),
{
    let (x1, y1, x2, y2) = (p.x as int, p.y as int, q.x as int, q.y as int);
    lemma_canonical();
    lemma_no_zero_divisors();
    let dx = fsub(q.x, p.x);
    let dy = fsub(q.y, p.y);
    let ex = fsub(p.x, q.x);
    let ey = fsub(p.y, q.y);
    lemma_fsub_zero(q.x, p.x);
    lemma_fsub_zero(p.x, q.x);
    lemma_inverse_exists(dx);
    lemma_inverse_exists(ex);
    let l1 = chord_slope(p, q);
    let l2 = chord_slope(q, p);
    assert(fmul(dx, l1) == dy) by {
        lemma_fmul_comm(dy, finv(dx));
        lemma_fmul_assoc(dx, finv(dx), dy);
        lemma_units(dy);
    }
    assert(fmul(ex, l2) == ey) by {
        lemma_fmul_comm(ey, finv(ex));
        lemma_fmul_assoc(ex, finv(ex), ey);
        lemma_units(ey);
    }
    lemma_lift_sub(q.x, p.x, x2, x1);
    lemma_lift_sub(q.y, p.y, y2, y1);
    lemma_lift_sub(p.x, q.x, x1, x2);
    lemma_lift_sub(p.y, q.y, y1, y2);
    lemma_lift_mul(dx, l1, x2 - x1, l1 as int);
    lemma_lift_mul(ex, l2, x1 - x2, l2 as int);
    // (x2 - x1) (l1 - l2) is congruent to (y2 - y1) + (y1 - y2)
    let d = (l1 as int) - (l2 as int);
    assert((x2 - x1) * d == (x2 - x1) * (l1 as int) + (x1 - x2) * (l2 as int)) by (nonlinear_arith)
        requires
            d == (l1 as int) - (l2 as int),
    ;
    lemma_cong_ring((x2 - x1) * (l1 as int), y2 - y1, (x1 - x2) * (l2 as int), y1 - y2);
    assert(cong((x2 - x1) * d, 0));
    lemma_lift_sub(l1, l2, l1 as int, l2 as int);
    lemma_lift_mul(dx, fsub(l1, l2), x2 - x1, d);
    lemma_cong_canonical(fmul(dx, fsub(l1, l2)), 0);
    lemma_fsub_zero(l1, l2);
}

/// Two points of the curve with the same abscissa have the same ordinate
/// or opposite ordinates.
pub proof fn lemma_same_abscissa(c: CurveView, p: PointValue, q: PointValue)
    requires
        canonical(p),
        canonical(q),
        on_curve(c, p),
        on_curve(c, q),
        p.x == q.x,
    ensures
        p.y == q.y || fadd(p.y, q.y) == 0,
{
    let (y1, y2) = (p.y as int, q.y as int);
    lemma_canonical();
    lemma_no_zero_divisors();
    lemma_lift_mul(p.y, p.y, y1, y1);
    lemma_lift_mul(q.y, q.y, y2, y2);
    lemma_lift_sub(p.y, q.y, y1, y2);
    lemma_lift_add(p.y, q.y, y1, y2);
    lemma_lift_mul(fsub(p.y, q.y), fadd(p.y, q.y), y1 - y2, y1 + y2);
    assert((y1 - y2) * (y1 + y2) == y1 * y1 - y2 * y2) by (nonlinear_arith);
    lemma_cong_ring(y1 * y1, y2 * y2, y2 * y2, y2 * y2);
    lemma_cong_canonical(fmul(fsub(p.y, q.y), fadd(p.y, q.y)), 0);
    lemma_fsub_zero(p.y, q.y);
}

/// The sum of two points of the group does not depend on their order.
pub proof fn lemma_add_commutes(c: CurveView, p: PointValue, q: PointValue)
    requires
        canonical(p),
        canonical(q),
        in_group(c, p),
        in_group(c, q),
    ensures
        ec_add(c, p, q) == ec_add(c, q, p),
{
    lemma_canonical();
    if p != identity() && q != identity() {
        if p.x != q.x {
            let (x1, y1, x2, y2) = (p.x as int, p.y as int, q.x as int, q.y as int);
            lemma_chord_slope_symmetric(p, q);
            let lambda = chord_slope(p, q);
            let l = lambda as int;
            let r = line_sum(lambda, p, q.x);
            let t = line_sum(lambda, q, p.x);
            lemma_lift_line_sum(lambda, p, q.x);
            lemma_lift_line_sum(lambda, q, p.x);
            let xp = l * l - x1 - x2;
            assert(l * l - x2 - x1 == xp);
            lemma_cong_canonical(r.x, t.x);
            // the ordinates differ by l (x1 - x2) - (y1 - y2)
            assert((l * (x1 - xp) - y1) - (l * (x2 - xp) - y2) == (y2 - y1) - (x2 - x1) * l)
                by (nonlinear_arith);
            lemma_cong_ring(y2 - y1, (x2 - x1) * l, (x2 - x1) * l, (x2 - x1) * l);
            lemma_cong_ring(
                (l * (x1 - xp) - y1) - (l * (x2 - xp) - y2),
                0,
                l * (x2 - xp) - y2,
                l * (x2 - xp) - y2,
            );
            lemma_cong_canonical(r.y, t.y);
        } else {
            assert(fadd(p.y, q.y) == fadd(q.y, p.y)) by {
                reveal(fadd);
            }
            lemma_same_abscissa(c, p, q);
        }
    }
}

/// The slope of a chord is the one residue that takes the difference of
/// the abscissas to the difference of the ordinates.
pub proof fn lemma_chord_slope_unique(p: PointValue, q: PointValue, l: nat)
    requires
        canonical(p),
        canonical(q),
        p.x != q.x,
        l < modulus(),
        cong(((q.x as int) - (p.x as int)) * (l as int), (q.y as int) - (p.y as int)),
    ensures
        chord_slope(p, q) == l,
{
    let (x1, x2) = (p.x as int, q.x as int);
    let k = chord_slope(p, q);
    lemma_canonical();
    lemma_no_zero_divisors();
    lemma_chord_slope_symmetric(p, q);
    let dx = fsub(q.x, p.x);
    lemma_fsub_zero(q.x, p.x);
    let d = (k as int) - (l as int);
    assert((x2 - x1) * d == (x2 - x1) * (k as int) - (x2 - x1) * (l as int)) by (nonlinear_arith)
        requires
            d == (k as int) - (l as int),
    ;
    lemma_cong_ring(
        (x2 - x1) * (k as int),
        (q.y as int) - (p.y as int),
        (x2 - x1) * (l as int),
        (q.y as int) - (p.y as int),
    );
    assert(cong((x2 - x1) * d, 0));
    lemma_lift_sub(q.x, p.x, x2, x1);
    lemma_lift_sub(k, l, k as int, l as int);
    lemma_lift_mul(dx, fsub(k, l), x2 - x1, d);
    lemma_cong_canonical(fmul(dx, fsub(k, l)), 0);
    lemma_fsub_zero(k, l);
}

/// Taking away what was added gives back what was there: where the
/// abscissas of `p`, of `q` and of `p + q` differ from one another,
/// `(p + q) - p` is `q`.
pub proof fn lemma_chord_cancels(c: CurveView, p: PointValue, q: PointValue)
    requires
        canonical(p),
        canonical(q),
        p != identity(),
        q != identity(),
        p.x != q.x,
        ec_add(c, p, q).x != p.x,
        ec_add(c, p, q) != identity(),
    ensures
        ec_add(c, ec_add(c, p, q), ec_neg(p)) == q,
{
    let (x1, y1, x2, y2) = (p.x as int, p.y as int, q.x as int, q.y as int);
    lemma_canonical();
    lemma_chord_slope_symmetric(p, q);
    let lambda = chord_slope(p, q);
    let l = lambda as int;
    let r = ec_add(c, p, q);
    assert(r == line_sum(lambda, p, q.x));
    let (x3, y3) = (r.x as int, r.y as int);
    let m = ec_neg(p);
    assert(m.y == fsub(0, p.y));
    lemma_lift_line_sum(lambda, p, q.x);
    let xp = l * l - x1 - x2;
    let yp = l * (x1 - xp) - y1;
    // the chord from p + q to -p has the opposite slope
    let mu = fsub(0, lambda);
    lemma_lift_sub(0, lambda, 0, l);
    lemma_lift_sub(0, p.y, 0, y1);
    assert(cong((x1 - x3) * (mu as int), (m.y as int) - y3)) by {
        lemma_cong_ring(x1 - x3, x1 - xp, mu as int, 0 - l);
        assert((x1 - xp) * (0 - l) == (0 - y1) - yp) by (nonlinear_arith)
            requires
                yp == l * (x1 - xp) - y1,
        ;
        lemma_cong_ring(m.y as int, 0 - y1, y3, yp);
    }
    assert(m != identity()) by {
        if m == identity() {
            lemma_fsub_zero(0, p.y);
            reveal(fsub);
        }
    }
    lemma_chord_slope_unique(r, m, mu);
    // so the third point is q
    let t = line_sum(mu, r, m.x);
    assert(ec_add(c, r, m) == t);
    lemma_lift_line_sum(mu, r, m.x);
    let k = mu as int;
    let tx = k * k - x3 - x1;
    let ty = k * (x3 - tx) - y3;
    lemma_cong_ring(k, 0 - l, k, 0 - l);
    assert((0 - l) * (0 - l) == l * l) by (nonlinear_arith);
    lemma_cong_ring(k * k, l * l, x3, xp);
    lemma_cong_ring(k * k - x3, l * l - xp, x1, x1);
    assert(l * l - xp - x1 == x2);
    lemma_cong_canonical(t.x, q.x);
    // and its ordinate
    lemma_cong_ring(x3, xp, tx, x2);
    lemma_cong_ring(k, 0 - l, x3 - tx, xp - x2);
    lemma_cong_ring(k * (x3 - tx), (0 - l) * (xp - x2), y3, yp);
    assert((0 - l) * (xp - x2) - yp == y1 + (x2 - x1) * l) by (nonlinear_arith)
        requires
            yp == l * (x1 - xp) - y1,
    ;
    lemma_cong_ring(y1, y1, (x2 - x1) * l, y2 - y1);
    lemma_cong_canonical(t.y, q.y);
}

} // verus!
