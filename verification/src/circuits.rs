//! Whole circuits built from the chip: each lays a fixed sequence of
//! operations down in one region and binds the values it was given to what
//! the chip computed, so that the region is satisfied exactly where the
//! given values are right.
use vstd::prelude::*;
use crate::chip::{advanced, ECChip, ECConfig};
use crate::curve::{
    ec_add, ec_double, ec_mul, ec_select_add, identity, lemma_grumpkin_regular, on_curve,
    AffinePoint, CurveParams, CurveView, Scalar,
};
use crate::points::Point;
use crate::decompose::is_partial_decomposition;
use crate::field::{fadd, fmul, lemma_canonical, lemma_select, Fe};
use crate::gates::lemma_ec_add_range;
use crate::region::{placement_error, Error, Region};

verus! {

/// The number of rows of the arithmetic circuit, padding included.
pub const ARITH_ROWS: usize = 112;

/// The 128-bit integer that the arithmetic circuit decomposes: the bytes
/// `0, 1, ..., 15`, least significant first.
pub const ARITH_INTEGER: u128 = 0x0f0e0d0c0b0a09080706050403020100;

/// A circuit over the field gadgets: `f3` is claimed to be `f1 + f2`,
/// `f4` to be `f1 * f2`, and `f5` to be a partial bit decomposition
/// `b3 b2 b1 b0 hi lo`.
#[derive(Clone, Copy, Debug)]
pub struct ArithTestCircuit {
    pub f1: Fe,
    pub f2: Fe,
    pub f3: Fe,
    pub f4: Fe,
    pub f5: [Fe; 6],
}

impl ArithTestCircuit {
    /// Every value is canonical.
    pub open spec fn wf(&self) -> bool {
        &&& self.f1.wf() && self.f2.wf() && self.f3.wf() && self.f4.wf()
        &&& forall|i: int| 0 <= i < 6 ==> (#[trigger] self.f5@[i]).wf()
    }

    /// The six residues of `f5`.
    pub open spec fn digits(&self) -> Seq<nat> {
        Seq::new(6, |i: int| self.f5@[i]@)
    }

    /// The claims of the circuit are true.
    pub open spec fn claims(&self) -> bool {
        &&& self.f3@ == fadd(self.f1@, self.f2@)
        &&& self.f4@ == fmul(self.f1@, self.f2@)
        &&& is_partial_decomposition(self.digits())
    }

    /// The circuit with every value zero.
    pub fn without_witnesses(&self) -> (r: ArithTestCircuit)
        ensures
            r.wf(),
            r.f1@ == 0 && r.f2@ == 0 && r.f3@ == 0 && r.f4@ == 0,
            forall|i: int| 0 <= i < 6 ==> (#[trigger] r.f5@[i])@ == 0,
    {
        let zero = Fe::zero();
        ArithTestCircuit { f1: zero, f2: zero, f3: zero, f4: zero, f5: [zero; 6] }
    }

    /// The configuration of the chip for Grumpkin.
    pub fn configure() -> (r: ECConfig)
        ensures
            r.wf(),
            r@ == crate::curve::grumpkin(),
    {
        proof {
            lemma_grumpkin_regular();
        }
        ECChip::configure(CurveParams::grumpkin()).unwrap()
    }

    /// Lays the circuit down in a fresh region of `rows` rows: the sum
    /// and the product of `f1` and `f2`, each tied to the cell that holds
    /// the value claimed for it; `f5` under the bit-decomposition gate; the
    /// decomposition of [`ARITH_INTEGER`]; the padding.
    pub fn synthesize(&self, config: ECConfig, rows: usize) -> (r: Result<Region, Error>)
        requires
            self.wf(),
        ensures
            r.is_ok() <==> rows >= ARITH_ROWS,
            r matches Err(e) ==> e == Error::NotEnoughRows,
            r matches Ok(region) ==> {
                &&& region@.wf()
                &&& region@.rows.len() == ARITH_ROWS
                &&& region@.capacity == rows
                &&& region@.satisfied(config@) <==> self.claims()
            },
    {
        if rows < ARITH_ROWS {
            return Err(Error::NotEnoughRows);
        }
        let chip = ECChip::construct(config);
        let mut region = Region::new(rows);
        let mut offset: usize = 0;
        let ghost c = config@;

        let ghost r0 = region@;
        let f3_rec = chip.add(&mut region, &config, &self.f1, &self.f2, &mut offset).unwrap();
        let ghost r1 = region@;
        let f3 = chip.load_private_field(&mut region, &config, &self.f3, &mut offset).unwrap();
        let ghost r2 = region@;
        proof {
            r1.lemma_grown_keeps(r2, 1);
        }
        let tied = region.constrain_equal(f3.cell(), f3_rec.cell());
        assert(tied.is_ok());
        assert(region@.satisfied(c) <==> self.f3@ == fadd(self.f1@, self.f2@));

        let ghost r3 = region@;
        let f4_rec = chip.mul(&mut region, &config, &self.f1, &self.f2, &mut offset).unwrap();
        let ghost r4 = region@;
        let f4 = chip.load_private_field(&mut region, &config, &self.f4, &mut offset).unwrap();
        let ghost r5 = region@;
        proof {
            r4.lemma_grown_keeps(r5, 1);
        }
        let tied = region.constrain_equal(f4.cell(), f4_rec.cell());
        assert(tied.is_ok());
        assert(region@.satisfied(c) <==> self.f3@ == fadd(self.f1@, self.f2@) && self.f4@ == fmul(
            self.f1@,
            self.f2@,
        ));

        let ghost r6 = region@;
        let digits = chip.partial_bit_decomp(&mut region, &config, &self.f5, &mut offset);
        assert(digits.is_ok());
        proof {
            assert(Seq::new(6, |i: int| self.f5@[i]@) =~= self.digits());
        }
        assert(region@.satisfied(c) <==> self.claims());
        let bits = chip.decompose_u128(&mut region, &config, &ARITH_INTEGER, &mut offset);
        assert(bits.is_ok());
        assert(offset == 106);
        let padded = chip.pad(&mut region, &config, &mut offset);
        assert(padded.is_ok());
        Ok(region)
    }
}

/// The number of rows of the curve circuit.
pub const EC_ROWS: usize = 5304;

/// The number of rows of the scalar-multiplication circuit, padding
/// included.
pub const EC_MUL_ROWS: usize = 5072;

/// A circuit over the point gadgets: `p3` is claimed to be `p1 + p2`,
/// `p4` to be twice `p1`, `p5` to be `s` times `p1`, and all five to be
/// points of the curve.
#[derive(Clone, Copy, Debug)]
pub struct ECTestCircuit {
    pub s: Scalar,
    pub p1: AffinePoint,
    pub p2: AffinePoint,
    pub p3: AffinePoint,
    pub p4: AffinePoint,
    pub p5: AffinePoint,
}

/// The five points that the two curve circuits load and check: all of
/// them are points of the curve.
pub open spec fn all_on_curve(
    c: CurveView,
    p1: AffinePoint,
    p2: AffinePoint,
    p3: AffinePoint,
    p4: AffinePoint,
    p5: AffinePoint,
) -> bool {
    on_curve(c, p1@) && on_curve(c, p2@) && on_curve(c, p3@) && on_curve(c, p4@) && on_curve(
        c,
        p5@,
    )
}

/// Ties the two cells of `given` to the two cells of `computed`.
fn bind(region: &mut Region, given: &Point, computed: &Point, Ghost(c): Ghost<CurveView>)
    requires
        old(region)@.wf(),
        given.bound_in(old(region)@),
        computed.bound_in(old(region)@),
    ensures
        final(region)@.wf(),
        old(region)@.grown_by(final(region)@, 0),
        final(region)@.rows == old(region)@.rows,
        final(region)@.satisfied(c) <==> old(region)@.satisfied(c) && given.value()
            == computed.value(),
{
    let ghost before = region@;
    proof {
        before.lemma_link(c, given.spec_x().spec_cell(), computed.spec_x().spec_cell());
    }
    let first = region.constrain_equal(given.x().cell(), computed.x().cell());
    assert(first.is_ok());
    let ghost mid = region@;
    proof {
        mid.lemma_link(c, given.spec_y().spec_cell(), computed.spec_y().spec_cell());
        before.lemma_grown_trans(mid, 0, mid.link(
            given.spec_y().spec_cell(),
            computed.spec_y().spec_cell(),
        ), 0);
    }
    let second = region.constrain_equal(given.y().cell(), computed.y().cell());
    assert(second.is_ok());
}

/// Loads the five points: the first with no check and then the curve
/// equation on it, the others with the check.
fn load_points(
    chip: &ECChip,
    region: &mut Region,
    config: &ECConfig,
    p1: &AffinePoint,
    p2: &AffinePoint,
    p3: &AffinePoint,
    p4: &AffinePoint,
    p5: &AffinePoint,
    offset: &mut usize,
) -> (r: (Point, Point, Point, Point, Point))
    requires
        old(region)@.wf(),
        p1.wf() && p2.wf() && p3.wf() && p4.wf() && p5.wf(),
        placement_error(old(region)@, *old(offset), 10).is_none(),
    ensures
        final(region)@.wf(),
        advanced(old(region)@, final(region)@, *old(offset), *final(offset), 10),
        r.0.bound_in(final(region)@) && r.0.value() == p1@,
        r.1.bound_in(final(region)@) && r.1.value() == p2@,
        r.2.bound_in(final(region)@) && r.2.value() == p3@,
        r.3.bound_in(final(region)@) && r.3.value() == p4@,
        r.4.bound_in(final(region)@) && r.4.value() == p5@,
        final(region)@.satisfied(config@) <==> old(region)@.satisfied(config@) && all_on_curve(
            config@,
            *p1,
            *p2,
            *p3,
            *p4,
            *p5,
        ),
{
    let ghost r0 = region@;
    let q1 = chip.load_private_point_unchecked(region, config, p1, offset).unwrap();
    let ghost r1 = region@;
    let q1 = chip.enforce_on_curve(region, config, &q1, offset).unwrap();
    let ghost r2 = region@;
    let q2 = chip.load_private_point(region, config, p2, offset).unwrap();
    let ghost r3 = region@;
    let q3 = chip.load_private_point(region, config, p3, offset).unwrap();
    let ghost r4 = region@;
    let q4 = chip.load_private_point(region, config, p4, offset).unwrap();
    let ghost r5 = region@;
    let q5 = chip.load_private_point(region, config, p5, offset).unwrap();
    let ghost r6 = region@;
    proof {
        r0.lemma_grown_trans(r1, 1, r2, 1);
        r0.lemma_grown_trans(r2, 2, r3, 2);
        r0.lemma_grown_trans(r3, 4, r4, 2);
        r0.lemma_grown_trans(r4, 6, r5, 2);
        r0.lemma_grown_trans(r5, 8, r6, 2);
        r2.lemma_grown_trans(r3, 2, r4, 2);
        r2.lemma_grown_trans(r4, 4, r5, 2);
        r2.lemma_grown_trans(r5, 6, r6, 2);
        r2.lemma_grown_keeps(r6, 8);
        r3.lemma_grown_trans(r4, 2, r5, 2);
        r3.lemma_grown_trans(r5, 4, r6, 2);
        r3.lemma_grown_keeps(r6, 6);
        r4.lemma_grown_trans(r5, 2, r6, 2);
        r4.lemma_grown_keeps(r6, 4);
        r5.lemma_grown_keeps(r6, 2);
    }
    (q1, q2, q3, q4, q5)
}

/// Loads `p1`, `p2` and the bit once more, adds `p2` to `p1` under the
/// bit, and ties the result to `given`.
fn bind_sum(
    chip: &ECChip,
    region: &mut Region,
    config: &ECConfig,
    p1: &AffinePoint,
    p2: &AffinePoint,
    bit: u64,
    given: &Point,
    offset: &mut usize,
)
    requires
        old(region)@.wf(),
        config.wf(),
        p1.wf() && p2.wf(),
        given.bound_in(old(region)@),
        placement_error(old(region)@, *old(offset), 17).is_none(),
    ensures
        final(region)@.wf(),
        advanced(old(region)@, final(region)@, *old(offset), *final(offset), 17),
        final(region)@.satisfied(config@) <==> old(region)@.satisfied(config@) && given.value()
            == ec_select_add(config@, p1@, p2@, bit as nat),
{
    let ghost r0 = region@;
    let q1 = chip.load_private_point_unchecked(region, config, p1, offset).unwrap();
    let ghost r1 = region@;
    let q2 = chip.load_private_point_unchecked(region, config, p2, offset).unwrap();
    let ghost r2 = region@;
    let b = chip.load_private_field(region, config, &Fe::from_u64(bit), offset).unwrap();
    let ghost r3 = region@;
    proof {
        r1.lemma_grown_trans(r2, 1, r3, 1);
        r1.lemma_grown_keeps(r3, 2);
        r2.lemma_grown_keeps(r3, 1);
    }
    let sum = chip.conditional_point_add(region, config, &q1, &q2, &b, offset).unwrap();
    let ghost r4 = region@;
    proof {
        r0.lemma_grown_trans(r1, 1, r2, 1);
        r0.lemma_grown_trans(r2, 2, r3, 1);
        r0.lemma_grown_trans(r3, 3, r4, 14);
        r0.lemma_grown_keeps(r4, 17);
    }
    bind(region, given, &sum, Ghost(config@));
    proof {
        r0.lemma_grown_trans(r4, 17, region@, 0);
    }
}

/// Loads `p1` once more, doubles it, and ties the result to `given`.
fn bind_double(
    chip: &ECChip,
    region: &mut Region,
    config: &ECConfig,
    p1: &AffinePoint,
    given: &Point,
    offset: &mut usize,
)
    requires
        old(region)@.wf(),
        config.wf(),
        p1.wf(),
        given.bound_in(old(region)@),
        placement_error(old(region)@, *old(offset), 6).is_none(),
    ensures
        final(region)@.wf(),
        advanced(old(region)@, final(region)@, *old(offset), *final(offset), 6),
        final(region)@.satisfied(config@) <==> old(region)@.satisfied(config@) && given.value()
            == ec_double(config@, p1@),
{
    let ghost r0 = region@;
    let q1 = chip.load_private_point_unchecked(region, config, p1, offset).unwrap();
    let ghost r1 = region@;
    let twice = chip.point_double(region, config, &q1, offset).unwrap();
    let ghost r2 = region@;
    proof {
        r0.lemma_grown_trans(r1, 1, r2, 5);
        r0.lemma_grown_keeps(r2, 6);
    }
    bind(region, given, &twice, Ghost(config@));
    proof {
        r0.lemma_grown_trans(r2, 6, region@, 0);
    }
}

/// Multiplies `p1` by `s` and ties the result to `given`.
fn bind_multiple(
    chip: &ECChip,
    region: &mut Region,
    config: &ECConfig,
    p1: &AffinePoint,
    s: &Scalar,
    given: &Point,
    offset: &mut usize,
)
    requires
        old(region)@.wf(),
        config.wf(),
        p1.wf(),
        given.bound_in(old(region)@),
        placement_error(old(region)@, *old(offset), 5060).is_none(),
    ensures
        final(region)@.wf(),
        advanced(old(region)@, final(region)@, *old(offset), *final(offset), 5060),
        final(region)@.satisfied(config@) <==> old(region)@.satisfied(config@) && given.value()
            == ec_mul(config@, s@, p1@),
{
    let ghost r0 = region@;
    let multiple = chip.point_mul(region, config, p1, s, offset).unwrap();
    let ghost r1 = region@;
    proof {
        r0.lemma_grown_keeps(r1, 5060);
    }
    bind(region, given, &multiple, Ghost(config@));
    proof {
        r0.lemma_grown_trans(r1, 5060, region@, 0);
    }
}

impl ECTestCircuit {
    /// Every coordinate is canonical.
    pub open spec fn wf(&self) -> bool {
        self.p1.wf() && self.p2.wf() && self.p3.wf() && self.p4.wf() && self.p5.wf()
    }

    /// The claims of the circuit are true.
    pub open spec fn claims(&self, c: CurveView) -> bool {
        &&& all_on_curve(c, self.p1, self.p2, self.p3, self.p4, self.p5)
        &&& self.p3@ == ec_add(c, self.p1@, self.p2@)
        &&& self.p4@ == ec_double(c, self.p1@)
        &&& self.p5@ == ec_mul(c, self.s@, self.p1@)
    }

    /// The circuit with the scalar zero and every point the point at
    /// infinity.
    pub fn without_witnesses(&self) -> (r: ECTestCircuit)
        ensures
            r.wf(),
            r.s@ == 0,
            r.p1@ == identity() && r.p2@ == identity() && r.p3@ == identity(),
            r.p4@ == identity() && r.p5@ == identity(),
    {
        let o = AffinePoint::identity();
        ECTestCircuit { s: Scalar { low: 0, high: 0 }, p1: o, p2: o, p3: o, p4: o, p5: o }
    }

    /// The configuration of the chip for Grumpkin.
    pub fn configure() -> (r: ECConfig)
        ensures
            r.wf(),
            r@ == crate::curve::grumpkin(),
    {
        ArithTestCircuit::configure()
    }

    /// Lays the circuit down in a fresh region of `rows` rows: the five
    /// points under the curve equation; `p1 + p2` under the bit one, tied
    /// to `p3`; `p1 + p2` under the bit zero, tied to `p1`; twice `p1`,
    /// tied to `p4`; the decomposition of `s`; `s` times `p1`, tied to
    /// `p5`; the padding.
    pub fn synthesize(&self, config: ECConfig, rows: usize) -> (r: Result<Region, Error>)
        requires
            self.wf(),
            config.wf(),
        ensures
            r.is_ok() <==> rows >= EC_ROWS,
            r matches Err(e) ==> e == Error::NotEnoughRows,
            r matches Ok(region) ==> {
                &&& region@.wf()
                &&& region@.rows.len() == EC_ROWS
                &&& region@.capacity == rows
                &&& region@.satisfied(config@) <==> self.claims(config@)
            },
    {
        if rows < EC_ROWS {
            return Err(Error::NotEnoughRows);
        }
        let chip = ECChip::construct(config);
        let mut region = Region::new(rows);
        let mut offset: usize = 0;
        let ghost c = config@;
        let (_p1, _p2, p3, p4, p5) = load_points(
            &chip,
            &mut region,
            &config,
            &self.p1,
            &self.p2,
            &self.p3,
            &self.p4,
            &self.p5,
            &mut offset,
        );
        let ghost r1 = region@;
        bind_sum(&chip, &mut region, &config, &self.p1, &self.p2, 1, &p3, &mut offset);
        let ghost r2 = region@;
        proof {
            r1.lemma_grown_keeps(r2, 17);
        }
        bind_sum(&chip, &mut region, &config, &self.p1, &self.p2, 0, &_p1, &mut offset);
        let ghost r3 = region@;
        proof {
            r1.lemma_grown_trans(r2, 17, r3, 17);
            r1.lemma_grown_keeps(r3, 34);
        }
        bind_double(&chip, &mut region, &config, &self.p1, &p4, &mut offset);
        let ghost r4 = region@;
        let bits = chip.decompose_scalar(&mut region, &config, &self.s, &mut offset);
        assert(bits.is_ok());
        let ghost r5 = region@;
        proof {
            r1.lemma_grown_trans(r3, 34, r4, 6);
            r1.lemma_grown_trans(r4, 40, r5, 194);
            r1.lemma_grown_keeps(r5, 234);
        }
        bind_multiple(&chip, &mut region, &config, &self.p1, &self.s, &p5, &mut offset);
        assert(offset == 5304);
        let padded = chip.pad(&mut region, &config, &mut offset);
        assert(padded.is_ok());
        proof {
            let s = ec_add(c, self.p1@, self.p2@);
            lemma_canonical();
            lemma_ec_add_range(c, self.p1@, self.p2@);
            lemma_select(s.x, self.p1@.x);
            lemma_select(s.y, self.p1@.y);
        }
        Ok(region)
    }
}

/// A circuit over scalar multiplication alone: `p5` is claimed to be `s`
/// times `p1`, and all five points to be points of the curve.
#[derive(Clone, Copy, Debug)]
pub struct ScalarMulTestCircuit {
    pub s: Scalar,
    pub p1: AffinePoint,
    pub p2: AffinePoint,
    pub p3: AffinePoint,
    pub p4: AffinePoint,
    pub p5: AffinePoint,
}

impl ScalarMulTestCircuit {
    /// Every coordinate is canonical.
    pub open spec fn wf(&self) -> bool {
        self.p1.wf() && self.p2.wf() && self.p3.wf() && self.p4.wf() && self.p5.wf()
    }

    /// The claims of the circuit are true.
    pub open spec fn claims(&self, c: CurveView) -> bool {
        &&& all_on_curve(c, self.p1, self.p2, self.p3, self.p4, self.p5)
        &&& self.p5@ == ec_mul(c, self.s@, self.p1@)
    }

    /// The circuit with the scalar zero and every point the point at
    /// infinity.
    pub fn without_witnesses(&self) -> (r: ScalarMulTestCircuit)
        ensures
            r.wf(),
            r.s@ == 0,
            r.p1@ == identity() && r.p2@ == identity() && r.p3@ == identity(),
            r.p4@ == identity() && r.p5@ == identity(),
    {
        let o = AffinePoint::identity();
        ScalarMulTestCircuit { s: Scalar { low: 0, high: 0 }, p1: o, p2: o, p3: o, p4: o, p5: o }
    }

    /// The configuration of the chip for Grumpkin.
    pub fn configure() -> (r: ECConfig)
        ensures
            r.wf(),
            r@ == crate::curve::grumpkin(),
    {
        ArithTestCircuit::configure()
    }

    /// Lays the circuit down in a fresh region of `rows` rows: the five
    /// points under the curve equation; `s` times `p1`, tied to `p5`; the
    /// padding.
    pub fn synthesize(&self, config: ECConfig, rows: usize) -> (r: Result<Region, Error>)
        requires
            self.wf(),
            config.wf(),
        ensures
            r.is_ok() <==> rows >= EC_MUL_ROWS,
            r matches Err(e) ==> e == Error::NotEnoughRows,
            r matches Ok(region) ==> {
                &&& region@.wf()
                &&& region@.rows.len() == EC_MUL_ROWS
                &&& region@.capacity == rows
                &&& region@.satisfied(config@) <==> self.claims(config@)
            },
    {
        if rows < EC_MUL_ROWS {
            return Err(Error::NotEnoughRows);
        }
        let chip = ECChip::construct(config);
        let mut region = Region::new(rows);
        let mut offset: usize = 0;
        let (_p1, _p2, _p3, _p4, p5) = load_points(
            &chip,
            &mut region,
            &config,
            &self.p1,
            &self.p2,
            &self.p3,
            &self.p4,
            &self.p5,
            &mut offset,
        );
        bind_multiple(&chip, &mut region, &config, &self.p1, &self.s, &p5, &mut offset);
        assert(offset == 5070);
        let padded = chip.pad(&mut region, &config, &mut offset);
        assert(padded.is_ok());
        Ok(region)
    }
}

} // verus!
