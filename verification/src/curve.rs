//! Short Weierstrass curves over the native field: the curve equation, the
//! group law in affine coordinates, and scalar multiplication.
//!
//! The point at infinity is written as the pair `(0, 0)`, which lies on no
//! curve with a constant term other than zero.
use vstd::prelude::*;
use crate::field::{
    fadd, finv, fmul, fneg, fsq, fsub, lemma_canonical, lemma_select, modulus, select, Fe,
};

verus! {

/// A pair of residues read as affine coordinates.
pub struct PointValue {
    pub x: nat,
    pub y: nat,
}

/// The parameters of a curve `y^2 = x^3 + a x + b` as numbers.
pub struct CurveView {
    pub a: nat,
    pub b: nat,
    pub order: nat,
}

/// The point at infinity.
pub open spec fn identity() -> PointValue {
    PointValue { x: 0, y: 0 }
}

/// The right-hand side `x^3 + a x + b` of the curve equation.
pub open spec fn curve_rhs(c: CurveView, x: nat) -> nat {
    fadd(fadd(fmul(fsq(x), x), fmul(c.a, x)), c.b)
}

/// The discriminant `4 a^3 + 27 b^2` of the curve, up to a unit: zero
/// where the curve has a singular point.
pub open spec fn discriminant(c: CurveView) -> nat {
    fadd(fmul(4, fmul(fsq(c.a), c.a)), fmul(27, fsq(c.b)))
}

/// The pair satisfies the curve equation.
pub open spec fn on_curve(c: CurveView, p: PointValue) -> bool {
    fsq(p.y) == curve_rhs(c, p.x)
}

/// The slope of the tangent at `p`: `(3 x^2 + a) / (2 y)`.
pub open spec fn tangent_slope(c: CurveView, p: PointValue) -> nat {
    fmul(fadd(fmul(3, fsq(p.x)), c.a), finv(fmul(2, p.y)))
}

/// The slope of the chord through `p` and `q`: `(y2 - y1) / (x2 - x1)`.
pub open spec fn chord_slope(p: PointValue, q: PointValue) -> nat {
    fmul(fsub(q.y, p.y), finv(fsub(q.x, p.x)))
}

/// The third point of the line with slope `lambda` through `p` and a point
/// with abscissa `x2`, reflected: `x3 = lambda^2 - x1 - x2`,
/// `y3 = lambda (x1 - x3) - y1`.
pub open spec fn line_sum(lambda: nat, p: PointValue, x2: nat) -> PointValue {
    let x3 = fsub(fsub(fsq(lambda), p.x), x2);
    PointValue { x: x3, y: fsub(fmul(lambda, fsub(p.x, x3)), p.y) }
}

/// Twice a point. A point with ordinate zero is its own negative, so its
/// double is the point at infinity; so is the double of the point at
/// infinity itself.
pub open spec fn ec_double(c: CurveView, p: PointValue) -> PointValue {
    if p.y == 0 {
        identity()
    } else {
        line_sum(tangent_slope(c, p), p, p.x)
    }
}

/// The sum of two points: the affine group law, complete with its
/// exceptional cases. The point at infinity is neutral; points with
/// different abscissas are joined by their chord; a point and its negative
/// add up to the point at infinity; and a point added to itself is
/// doubled. No case divides by zero: where a slope is used, its
/// denominator is not zero.
pub open spec fn ec_add(c: CurveView, p: PointValue, q: PointValue) -> PointValue {
    if p == identity() {
        q
    } else if q == identity() {
        p
    } else if p.x != q.x {
        line_sum(chord_slope(p, q), p, q.x)
    } else if fadd(p.y, q.y) == 0 {
        identity()
    } else {
        ec_double(c, p)
    }
}

/// `p + q` where `bit` is one and `p` where it is zero, as a blend of the
/// two in each coordinate.
pub open spec fn ec_select_add(c: CurveView, p: PointValue, q: PointValue, bit: nat)
    -> PointValue {
    let s = ec_add(c, p, q);
    PointValue { x: select(bit, s.x, p.x), y: select(bit, s.y, p.y) }
}

/// The multiple `s * p`, by doubling and adding along the binary expansion
/// of `s`.
pub open spec fn ec_mul(c: CurveView, s: nat, p: PointValue) -> PointValue
    decreases s,
{
    if s == 0 {
        identity()
    } else {
        let d = ec_double(c, ec_mul(c, s / 2, p));
        if s % 2 == 1 {
            ec_add(c, d, p)
        } else {
            d
        }
    }
}

/// The pair `(0, 0)` that stands for the point at infinity is no point of
/// a curve whose constant term is not zero.
pub proof fn lemma_identity_off_curve(c: CurveView)
    requires
        0 < c.b < modulus(),
    ensures
        !on_curve(c, identity()),
{
    reveal(fadd);
    reveal(fmul);
}

/// The negative of a point: the same abscissa, the opposite ordinate.
pub open spec fn ec_neg(p: PointValue) -> PointValue {
    PointValue { x: p.x, y: fneg(p.y) }
}

/// The point at infinity is neutral.
pub proof fn lemma_add_identity(c: CurveView, p: PointValue)
    ensures
        ec_add(c, identity(), p) == p,
        ec_add(c, p, identity()) == p,
        ec_double(c, identity()) == identity(),
{
}

/// Doubling is adding a point to itself.
pub proof fn lemma_double_is_add(c: CurveView, p: PointValue)
    requires
        p.x < modulus(),
        p.y < modulus(),
    ensures
        ec_add(c, p, p) == ec_double(c, p),
{
    assert(fadd(p.y, p.y) == 0 <==> p.y == 0) by {
        reveal(fadd);
    }
}

/// A point and its negative add up to the point at infinity.
pub proof fn lemma_add_opposite(c: CurveView, p: PointValue)
    requires
        p.x < modulus(),
        p.y < modulus(),
    ensures
        ec_add(c, p, ec_neg(p)) == identity(),
        ec_neg(identity()) == identity(),
{
    reveal(fadd);
    reveal(fsub);
}

/// Under the bit one the blend is the sum; under the bit zero it is the
/// first point.
pub proof fn lemma_select_add_bits(c: CurveView, p: PointValue, q: PointValue)
    requires
        p.x < modulus(),
        p.y < modulus(),
        q.x < modulus(),
        q.y < modulus(),
    ensures
        ec_select_add(c, p, q, 1) == ec_add(c, p, q),
        ec_select_add(c, p, q, 0) == p,
{
    let s = ec_add(c, p, q);
    lemma_canonical();
    lemma_select(s.x, p.x);
    lemma_select(s.y, p.y);
}

/// The multiple by zero is the point at infinity, the multiple by one the
/// point itself, and the multiple by two its double.
pub proof fn lemma_mul_small(c: CurveView, p: PointValue)
    ensures
        ec_mul(c, 0, p) == identity(),
        ec_mul(c, 1, p) == p,
        ec_mul(c, 2, p) == ec_double(c, p),
{
    reveal_with_fuel(ec_mul, 3);
}

/// A 256-bit scalar, kept as its low and high 128-bit halves.
#[derive(Clone, Copy, Debug, PartialEq, Eq, Structural)]
pub struct Scalar {
    pub low: u128,
    pub high: u128,
}

impl View for Scalar {
    type V = nat;

    open spec fn view(&self) -> nat {
        self.low as nat + (self.high as nat) * 0x1_0000_0000_0000_0000_0000_0000_0000_0000nat
    }
}

impl Scalar {
    /// The scalar with the given little-endian 64-bit limbs.
    pub fn from_limbs(limbs: [u64; 4]) -> (r: Scalar)
        ensures
            r@ == crate::field::limbs_value(limbs[0], limbs[1], limbs[2], limbs[3]),
    {
        let low: u128 = (limbs[0] as u128) | ((limbs[1] as u128) << 64);
        let high: u128 = (limbs[2] as u128) | ((limbs[3] as u128) << 64);
        proof {
            let (l0, l1, l2, l3) = (limbs[0], limbs[1], limbs[2], limbs[3]);
            assert((l0 as u128) | ((l1 as u128) << 64) == (l0 as u128) + (l1 as u128)
                * 0x1_0000_0000_0000_0000) by (bit_vector);
            assert((l2 as u128) | ((l3 as u128) << 64) == (l2 as u128) + (l3 as u128)
                * 0x1_0000_0000_0000_0000) by (bit_vector);
        }
        Scalar { low, high }
    }

    /// Whether the scalar is zero.
    pub fn is_zero(&self) -> (r: bool)
        ensures
            r == (self@ == 0),
    {
        self.low == 0 && self.high == 0
    }

    /// Whether the scalar is odd.
    pub fn is_odd(&self) -> (r: bool)
        ensures
            r == (self@ % 2 == 1),
    {
        self.low % 2 == 1
    }

    /// Half the scalar, rounded down.
    pub fn half(&self) -> (r: Scalar)
        ensures
            r@ == self@ / 2,
    {
        let carry: u128 = (self.high % 2) * 0x8000_0000_0000_0000_0000_0000_0000_0000;
        Scalar { low: self.low / 2 + carry, high: self.high / 2 }
    }

    /// Whether the scalar is below `bound`.
    pub fn less_than(&self, bound: &Scalar) -> (r: bool)
        ensures
            r == (self@ < bound@),
    {
        self.high < bound.high || (self.high == bound.high && self.low < bound.low)
    }
}

/// A pair of field elements read as the affine coordinates of a point. The
/// pair `(0, 0)` is the point at infinity.
#[derive(Clone, Copy, Debug, PartialEq, Eq, Structural)]
pub struct AffinePoint {
    pub x: Fe,
    pub y: Fe,
}

impl View for AffinePoint {
    type V = PointValue;

    open spec fn view(&self) -> PointValue {
        PointValue { x: self.x@, y: self.y@ }
    }
}

impl AffinePoint {
    /// Both coordinates are canonical.
    pub open spec fn wf(&self) -> bool {
        self.x.wf() && self.y.wf()
    }

    /// The point at infinity.
    pub fn identity() -> (r: AffinePoint)
        ensures
            r.wf(),
            r@ == identity(),
    {
        AffinePoint { x: Fe::zero(), y: Fe::zero() }
    }

    /// Whether this is the point at infinity.
    pub fn is_identity(&self) -> (r: bool)
        ensures
            r == (self@ == identity()),
    {
        self.x.is_zero() && self.y.is_zero()
    }

    /// The negative of the point.
    pub fn neg(&self) -> (r: AffinePoint)
        requires
            self.wf(),
        ensures
            r.wf(),
            r@ == ec_neg(self@),
    {
        AffinePoint { x: self.x, y: self.y.neg() }
    }

    /// Whether the pair satisfies the equation of the curve.
    pub fn is_on_curve(&self, curve: &CurveParams) -> (r: bool)
        requires
            self.wf(),
            curve.wf(),
        ensures
            r == on_curve(curve@, self@),
    {
        let rhs = self.x.square().mul(&self.x).add(&curve.a.mul(&self.x)).add(&curve.b);
        self.y.square().equals(&rhs)
    }

    /// The point where the line of slope `lambda` through this point and
    /// a point of abscissa `x2` meets the curve again, reflected.
    fn along(&self, lambda: &Fe, x2: &Fe) -> (r: AffinePoint)
        requires
            self.wf(),
            lambda.wf(),
            x2.wf(),
        ensures
            r.wf(),
            r@ == line_sum(lambda@, self@, x2@),
    {
        let x3 = lambda.square().sub(&self.x).sub(x2);
        let y3 = lambda.mul(&self.x.sub(&x3)).sub(&self.y);
        AffinePoint { x: x3, y: y3 }
    }

    /// Twice the point.
    pub fn double(&self, curve: &CurveParams) -> (r: AffinePoint)
        requires
            self.wf(),
            curve.wf(),
        ensures
            r.wf(),
            r@ == ec_double(curve@, self@),
    {
        if self.y.is_zero() {
            AffinePoint::identity()
        } else {
            let lambda = Fe::from_u64(3).mul(&self.x.square()).add(&curve.a).mul(
                &Fe::from_u64(2).mul(&self.y).invert_or_zero(),
            );
            self.along(&lambda, &self.x)
        }
    }

    /// The sum of the two points.
    pub fn add(&self, rhs: &AffinePoint, curve: &CurveParams) -> (r: AffinePoint)
        requires
            self.wf(),
            rhs.wf(),
            curve.wf(),
        ensures
            r.wf(),
            r@ == ec_add(curve@, self@, rhs@),
    {
        if self.is_identity() {
            *rhs
        } else if rhs.is_identity() {
            *self
        } else if !self.x.equals(&rhs.x) {
            let lambda = rhs.y.sub(&self.y).mul(&rhs.x.sub(&self.x).invert_or_zero());
            self.along(&lambda, &rhs.x)
        } else if self.y.add(&rhs.y).is_zero() {
            AffinePoint::identity()
        } else {
            self.double(curve)
        }
    }

    /// The multiple of the point by the scalar.
    pub fn mul(&self, s: &Scalar, curve: &CurveParams) -> (r: AffinePoint)
        requires
            self.wf(),
            curve.wf(),
        ensures
            r.wf(),
            r@ == ec_mul(curve@, s@, self@),
        decreases s@,
    {
        if s.is_zero() {
            AffinePoint::identity()
        } else {
            let doubled = self.mul(&s.half(), curve).double(curve);
            if s.is_odd() {
                doubled.add(self, curve)
            } else {
                doubled
            }
        }
    }
}

/// The parameters of a short Weierstrass curve `y^2 = x^3 + a x + b` over
/// the native field, with the order of its group.
#[derive(Clone, Copy, Debug)]
pub struct CurveParams {
    pub a: Fe,
    pub b: Fe,
    pub order: Scalar,
}

impl View for CurveParams {
    type V = CurveView;

    open spec fn view(&self) -> CurveView {
        CurveView { a: self.a@, b: self.b@, order: self.order@ }
    }
}

/// The parameters of Grumpkin: `y^2 = x^3 - 17`.
pub open spec fn grumpkin() -> CurveView {
    CurveView {
        a: 0,
        b: fneg(17),
        order: 0x30644e72e131a029b85045b68181585d97816a916871ca8d3c208c16d87cfd47nat,
    }
}

/// Grumpkin has a constant term and no singular point.
pub proof fn lemma_grumpkin_regular()
    ensures
        grumpkin().b != 0,
        discriminant(grumpkin()) == 7803,
{
    let b = fneg(17);
    assert(b == 0x30644e72e131a029b85045b68181585d2833e84879b9709143e1f593effffff0nat) by {
        reveal(fsub);
    }
    assert(fsq(b) == 289) by {
        reveal(fmul);
    }
    assert(fmul(27, 289) == 7803) by {
        reveal(fmul);
    }
    assert(fsq(0) == 0 && fmul(0, 0) == 0 && fmul(4, 0) == 0) by {
        reveal(fmul);
    }
    assert(fadd(0, 7803) == 7803) by {
        reveal(fadd);
    }
}

impl CurveParams {
    /// Both coefficients are canonical.
    pub open spec fn wf(&self) -> bool {
        self.a.wf() && self.b.wf()
    }

    /// The parameters of Grumpkin.
    pub fn grumpkin() -> (r: CurveParams)
        ensures
            r.wf(),
            r@ == grumpkin(),
    {
        CurveParams {
            a: Fe::zero(),
            b: Fe::from_u64(17).neg(),
            order: Scalar {
                low: 0x97816a916871ca8d3c208c16d87cfd47,
                high: 0x30644e72e131a029b85045b68181585d,
            },
        }
    }

    /// Whether the curve has no singular point.
    pub fn is_regular(&self) -> (r: bool)
        requires
            self.wf(),
        ensures
            r == (discriminant(self@) != 0),
    {
        let cube = self.a.square().mul(&self.a);
        let d = Fe::from_u64(4).mul(&cube).add(&Fe::from_u64(27).mul(&self.b.square()));
        !d.is_zero()
    }

    /// Whether the scalar is below the order of the group.
    pub fn is_valid_scalar(&self, s: &Scalar) -> (r: bool)
        ensures
            r == (s@ < self@.order),
    {
        s.less_than(&self.order)
    }
}

} // verus!
