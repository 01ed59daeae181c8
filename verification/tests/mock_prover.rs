use ark_std::test_rng;
use halo2_proofs::circuit::{Cell as AssignedAt, Layouter, SimpleFloorPlanner, Value};
use halo2_proofs::dev::MockProver;
use halo2_proofs::plonk::{
    Advice, Circuit, Column, ConstraintSystem, Error as PlonkError, Expression, Selector,
    VirtualCells,
};
use halo2_proofs::poly::Rotation;
use halo2curves::ff::Field;
use halo2curves::group::{Curve, Group};
use halo2curves::grumpkin::{Fq, Fr, G1Affine, G1};
use native_ecc::checker::is_satisfied;
use native_ecc::chip::{ECChip, ECConfig};
use native_ecc::circuits::{ArithTestCircuit, ECTestCircuit, ScalarMulTestCircuit, EC_MUL_ROWS};
use native_ecc::curve::{AffinePoint, CurveParams, Scalar};
use native_ecc::field::Fe;
use native_ecc::gates::{Gate, Row};
use native_ecc::region::{Cell, Column as Side, Error, Region};
use std::ops::Mul;

// The region of the library laid out again in a circuit of the proof
// system, gate for gate and copy for copy, so that its checker can judge
// the same rows.

#[derive(Clone)]
struct Replay {
    region: Region,
}

#[derive(Clone)]
struct ReplayConfig {
    a: Column<Advice>,
    b: Column<Advice>,
    add: Selector,
    mul: Selector,
    zero: Selector,
    bits: Selector,
    curve: Selector,
    double: Selector,
    cond_add: Selector,
}

fn limbs(bytes: &[u8]) -> [u64; 4] {
    let mut limbs = [0u64; 4];
    for (i, limb) in limbs.iter_mut().enumerate() {
        let mut chunk = [0u8; 8];
        chunk.copy_from_slice(&bytes[8 * i..8 * i + 8]);
        *limb = u64::from_le_bytes(chunk);
    }
    limbs
}

fn fe(x: &Fq) -> Fe {
    Fe::from_limbs(limbs(&x.to_bytes())).unwrap()
}

fn fq(x: &Fe) -> Fq {
    Fq::from_raw(x.to_limbs())
}

fn scalar(s: &Fr) -> Scalar {
    Scalar::from_limbs(limbs(&s.to_bytes()))
}

fn affine(p: &G1Affine) -> AffinePoint {
    AffinePoint { x: fe(&p.x), y: fe(&p.y) }
}

fn constant(v: u64) -> Expression<Fq> {
    Expression::Constant(Fq::from(v))
}

fn blend(bit: Expression<Fq>, v1: Expression<Fq>, v0: Expression<Fq>) -> Expression<Fq> {
    bit.clone() * v1 + (constant(1) - bit) * v0
}

fn either(m: Expression<Fq>, n: Expression<Fq>) -> Expression<Fq> {
    m.clone() + n.clone() - m * n
}

fn inverse_or_zero(
    v: Expression<Fq>,
    inv: Expression<Fq>,
    flag: Expression<Fq>,
) -> Vec<Expression<Fq>> {
    vec![
        flag.clone() - v.clone() * inv.clone(),
        v * (constant(1) - flag.clone()),
        inv * (constant(1) - flag),
    ]
}

fn boolean(b: Expression<Fq>) -> Expression<Fq> {
    b.clone() * (constant(1) - b)
}

fn gated(s: Expression<Fq>, polys: Vec<Expression<Fq>>) -> Vec<Expression<Fq>> {
    polys.into_iter().map(|p| s.clone() * p).collect()
}

impl Circuit<Fq> for Replay {
    type Config = ReplayConfig;
    type FloorPlanner = SimpleFloorPlanner;

    fn without_witnesses(&self) -> Self {
        self.clone()
    }

    fn configure(meta: &mut ConstraintSystem<Fq>) -> Self::Config {
        let a = meta.advice_column();
        let b = meta.advice_column();
        meta.enable_equality(a);
        meta.enable_equality(b);
        let config = ReplayConfig {
            a,
            b,
            add: meta.selector(),
            mul: meta.selector(),
            zero: meta.selector(),
            bits: meta.selector(),
            curve: meta.selector(),
            double: meta.selector(),
            cond_add: meta.selector(),
        };
        let curve_a = Expression::Constant(fq(&CurveParams::grumpkin().a));
        let curve_b = Expression::Constant(fq(&CurveParams::grumpkin().b));
        let qa = move |m: &mut VirtualCells<'_, Fq>, k: i32| m.query_advice(a, Rotation(k));
        let qb = move |m: &mut VirtualCells<'_, Fq>, k: i32| m.query_advice(b, Rotation(k));

        meta.create_gate("add", |m| {
            let s = m.query_selector(config.add);
            gated(s, vec![qa(m, 1) - qa(m, 0) - qb(m, 0)])
        });
        meta.create_gate("mul", |m| {
            let s = m.query_selector(config.mul);
            gated(s, vec![qa(m, 1) - qa(m, 0) * qb(m, 0)])
        });
        meta.create_gate("zero", |m| {
            let s = m.query_selector(config.zero);
            gated(s, vec![qa(m, 0), qb(m, 0)])
        });
        meta.create_gate("bits", |m| {
            let s = m.query_selector(config.bits);
            let (b3, b2, b1, b0) = (qa(m, 0), qb(m, 0), qa(m, 1), qb(m, 1));
            let (hi, lo) = (qa(m, 2), qb(m, 2));
            let nibble = constant(8) * b3.clone()
                + constant(4) * b2.clone()
                + constant(2) * b1.clone()
                + b0.clone();
            gated(
                s,
                vec![
                    boolean(b3),
                    boolean(b2),
                    boolean(b1),
                    boolean(b0),
                    lo - (hi * constant(16) + nibble),
                ],
            )
        });
        let (ca, cb) = (curve_a.clone(), curve_b.clone());
        meta.create_gate("curve", move |m| {
            let s = m.query_selector(config.curve);
            let (x, y) = (qa(m, 0), qb(m, 0));
            let rhs = x.clone() * x.clone() * x.clone() + ca.clone() * x + cb.clone();
            gated(s, vec![y.clone() * y - rhs])
        });
        let ca = curve_a.clone();
        meta.create_gate("double", move |m| {
            let s = m.query_selector(config.double);
            let (x1, y1) = (qa(m, 0), qb(m, 0));
            let (inv, flag) = (qa(m, 1), qb(m, 1));
            let (lambda, xt) = (qa(m, 2), qb(m, 2));
            let yt = qa(m, 3);
            let (x3, y3) = (qa(m, 4), qb(m, 4));
            let tx = lambda.clone() * lambda.clone() - x1.clone() - x1.clone();
            let ty = lambda.clone() * (x1.clone() - tx.clone()) - y1.clone();
            let mut polys = inverse_or_zero(constant(2) * y1, inv.clone(), flag.clone());
            polys.push(lambda - (constant(3) * x1.clone() * x1 + ca.clone()) * inv);
            polys.push(xt.clone() - tx);
            polys.push(yt.clone() - ty);
            polys.push(x3 - flag.clone() * xt);
            polys.push(y3 - flag * yt);
            gated(s, polys)
        });
        let ca = curve_a.clone();
        meta.create_gate("conditional addition", move |m| {
            let s = m.query_selector(config.cond_add);
            let (x1, y1) = (qa(m, 0), qb(m, 0));
            let (x2, y2) = (qa(m, 1), qb(m, 1));
            let (bit, al) = (qa(m, 2), qb(m, 2));
            let (nx, ep) = (qa(m, 3), qb(m, 3));
            let (ns, be) = (qa(m, 4), qb(m, 4));
            let (nd, lambda) = (qa(m, 5), qb(m, 5));
            let (xt, yt) = (qa(m, 6), qb(m, 6));
            let (g, i1) = (qa(m, 7), qb(m, 7));
            let (n1, np) = (qa(m, 8), qb(m, 8));
            let (i2, k2) = (qa(m, 9), qb(m, 9));
            let (n2, m2) = (qa(m, 10), qb(m, 10));
            let nq = qa(m, 11);
            let (xs, ys) = (qa(m, 12), qb(m, 12));
            let (x3, y3) = (qa(m, 13), qb(m, 13));
            let tx = lambda.clone() * lambda.clone() - x1.clone() - x2.clone();
            let ty = lambda.clone() * (x1.clone() - tx.clone()) - y1.clone();
            let chord = (y2.clone() - y1.clone()) * al.clone();
            let tangent = (constant(3) * x1.clone() * x1.clone() + ca.clone()) * be.clone();
            let mut polys = vec![
                lambda - blend(nx.clone(), chord, tangent),
                xt.clone() - tx,
                yt.clone() - ty,
                g.clone() - blend(nx.clone(), constant(1), ns.clone() * nd.clone()),
                np.clone() - either(n1.clone(), nd.clone()),
                nq.clone() - either(n2.clone(), m2.clone()),
                xs.clone()
                    - blend(np.clone(), blend(nq.clone(), g.clone() * xt, x1.clone()), x2.clone()),
                ys.clone() - blend(np, blend(nq, g * yt, y1.clone()), y2.clone()),
                x3 - blend(bit.clone(), xs, x1.clone()),
                y3 - blend(bit, ys, y1.clone()),
            ];
            polys.extend(inverse_or_zero(x2.clone() - x1.clone(), al, nx));
            polys.extend(inverse_or_zero(y1.clone() + y2.clone(), ep, ns));
            polys.extend(inverse_or_zero(constant(2) * y1, be, nd));
            polys.extend(inverse_or_zero(x1, i1, n1));
            polys.extend(inverse_or_zero(x2, i2, n2));
            polys.extend(inverse_or_zero(y2, k2, m2));
            gated(s, polys)
        });
        config
    }

    fn synthesize(
        &self,
        config: Self::Config,
        mut layouter: impl Layouter<Fq>,
    ) -> Result<(), PlonkError> {
        layouter.assign_region(
            || "replay",
            |mut region| {
                let mut cells: Vec<(AssignedAt, AssignedAt)> = Vec::new();
                for i in 0..self.region.len() {
                    let row = self.region.row(i).unwrap();
                    let a = region.assign_advice(|| "a", config.a, i, || Value::known(fq(&row.a)))?;
                    let b = region.assign_advice(|| "b", config.b, i, || Value::known(fq(&row.b)))?;
                    cells.push((a.cell(), b.cell()));
                    match row.gate {
                        Gate::Off => {}
                        Gate::Add => config.add.enable(&mut region, i)?,
                        Gate::Mul => config.mul.enable(&mut region, i)?,
                        Gate::Zero => config.zero.enable(&mut region, i)?,
                        Gate::BitDecomp => config.bits.enable(&mut region, i)?,
                        Gate::OnCurve => config.curve.enable(&mut region, i)?,
                        Gate::Double => config.double.enable(&mut region, i)?,
                        Gate::CondAdd => config.cond_add.enable(&mut region, i)?,
                    }
                }
                let at = |c: Cell| match c.column {
                    Side::A => cells[c.row].0,
                    Side::B => cells[c.row].1,
                };
                for k in 0..self.region.copy_count() {
                    let (l, r) = self.region.copy(k).unwrap();
                    region.constrain_equal(at(l), at(r))?;
                }
                Ok(())
            },
        )
    }
}

/// The verdict of the library's checker, after making sure that the
/// checker of the proof system gives the same on the same rows.
fn verdict(region: Region, config: &ECConfig, k: u32) -> bool {
    let own = is_satisfied(&region, config);
    let prover = MockProver::run(k, &Replay { region }, vec![]).unwrap();
    assert_eq!(prover.verify().is_ok(), own);
    own
}

fn setup() -> (ECChip, ECConfig) {
    let config = ECChip::configure(CurveParams::grumpkin()).unwrap();
    (ECChip::construct(config), config)
}

#[test]
fn test_field_ops() {
    let k = 10;

    let mut rng = test_rng();

    let f1 = Fq::random(&mut rng);
    let f2 = Fq::random(&mut rng);
    let f3 = f1 + f2;
    let f4 = f1 * f2;
    let config = ArithTestCircuit::configure();
    let circuit = |f3: Fq, f4: Fq, f5: [Fq; 6]| ArithTestCircuit {
        f1: fe(&f1),
        f2: fe(&f2),
        f3: fe(&f3),
        f4: fe(&f4),
        f5: [fe(&f5[0]), fe(&f5[1]), fe(&f5[2]), fe(&f5[3]), fe(&f5[4]), fe(&f5[5])],
    };
    {
        let f5 = [
            Fq::one(),
            Fq::zero(),
            Fq::zero(),
            Fq::one(),
            f1,
            f1 * Fq::from(16) + Fq::from(9),
        ];
        let circuit = circuit(f3, f4, f5);

        let region = circuit.synthesize(config, 1 << k).unwrap();
        assert!(verdict(region, &config, k));
    }

    // error case: addition fails
    {
        let f3 = f1 + f1;
        let f5 = [
            Fq::one(),
            Fq::zero(),
            Fq::zero(),
            Fq::one(),
            f1,
            f1 * Fq::from(16) + Fq::from(9),
        ];
        let circuit = circuit(f3, f4, f5);

        let region = circuit.synthesize(config, 1 << k).unwrap();
        assert!(!verdict(region, &config, k));
    }
    // error case: multiplication fails
    {
        let f4 = f1 * f1;
        let f5 = [
            Fq::one(),
            Fq::zero(),
            Fq::zero(),
            Fq::one(),
            f1,
            f1 * Fq::from(16) + Fq::from(9),
        ];
        let circuit = circuit(f3, f4, f5);

        let region = circuit.synthesize(config, 1 << k).unwrap();
        assert!(!verdict(region, &config, k));
    }
    // error case: not binary
    {
        let f5 = [
            Fq::from(2),
            Fq::zero(),
            Fq::zero(),
            Fq::one(),
            f1,
            f1 * Fq::from(16) + Fq::from(10),
        ];
        let circuit = circuit(f3, f4, f5);

        let region = circuit.synthesize(config, 1 << k).unwrap();
        assert!(!verdict(region, &config, k));
    }
    // error case: sum not equal
    {
        let f5 = [
            Fq::zero(),
            Fq::zero(),
            Fq::zero(),
            Fq::one(),
            f1,
            f1 * Fq::from(16) + Fq::from(10),
        ];
        let circuit = circuit(f3, f4, f5);

        let region = circuit.synthesize(config, 1 << k).unwrap();
        assert!(!verdict(region, &config, k));
    }
}

#[test]
#[allow(non_snake_case)]
fn ECCSample_test_ec_ops() {
    let k = 14;

    let mut rng = test_rng();
    let s = Fr::random(&mut rng);
    let p1 = G1::random(&mut rng).to_affine();
    let p2 = G1::random(&mut rng).to_affine();
    let p3 = (p1 + p2).to_affine();
    let p4 = (p1 + p1).to_affine();
    let p5 = p1.mul(s).to_affine();
    let config = ECTestCircuit::configure();

    {
        let circuit = ECTestCircuit {
            s: scalar(&s),
            p1: affine(&p1),
            p2: affine(&p2),
            p3: affine(&p3),
            p4: affine(&p4),
            p5: affine(&p5),
        };

        let region = circuit.synthesize(config, 1 << k).unwrap();
        assert!(verdict(region, &config, k));
    }

    // error case: add not equal
    {
        let p3 = (p1 + p1).to_affine();
        let circuit = ECTestCircuit {
            s: scalar(&s),
            p1: affine(&p1),
            p2: affine(&p2),
            p3: affine(&p3),
            p4: affine(&p4),
            p5: affine(&p5),
        };

        let region = circuit.synthesize(config, 1 << k).unwrap();
        assert!(!verdict(region, &config, k));
    }

    // error case: double not equal
    {
        let p4 = (p1 + p2).to_affine();
        let circuit = ECTestCircuit {
            s: scalar(&s),
            p1: affine(&p1),
            p2: affine(&p2),
            p3: affine(&p3),
            p4: affine(&p4),
            p5: affine(&p5),
        };

        let region = circuit.synthesize(config, 1 << k).unwrap();
        assert!(!verdict(region, &config, k));
    }
}

#[test]
#[allow(non_snake_case)]
fn testECC_test_ec_ops() {
    let k = 14;

    let mut rng = test_rng();
    let s = Fr::random(&mut rng);
    let p1 = G1::random(&mut rng).to_affine();
    let p2 = G1::random(&mut rng).to_affine();
    let p3 = (p1 + p2).to_affine();
    let p4 = (p1 + p1).to_affine();
    let p5 = p1.mul(s).to_affine();
    let config = ScalarMulTestCircuit::configure();

    {
        let circuit = ScalarMulTestCircuit {
            s: scalar(&s),
            p1: affine(&p1),
            p2: affine(&p2),
            p3: affine(&p3),
            p4: affine(&p4),
            p5: affine(&p5),
        };
        let region = circuit.synthesize(config, 1 << k).unwrap();
        assert_eq!(region.len(), EC_MUL_ROWS);
        assert!(verdict(region, &config, k));
    }
}

#[test]
fn a_wrong_multiple_is_rejected() {
    let mut rng = test_rng();
    let s = Fr::random(&mut rng);
    let p1 = G1::random(&mut rng).to_affine();
    let p5 = p1.mul(s).to_affine();
    let config = ScalarMulTestCircuit::configure();
    let good = ScalarMulTestCircuit {
        s: scalar(&s),
        p1: affine(&p1),
        p2: affine(&p1),
        p3: affine(&p1),
        p4: affine(&p1),
        p5: affine(&p5),
    };
    assert!(is_satisfied(&good.synthesize(config, 1 << 13).unwrap(), &config));
    let wrong = ScalarMulTestCircuit { p5: affine(&p1), ..good };
    assert!(!is_satisfied(&wrong.synthesize(config, 1 << 13).unwrap(), &config));
    // a point off the curve among the five
    let off = AffinePoint { x: good.p2.x, y: good.p2.y.add(&Fe::one()) };
    let stray = ScalarMulTestCircuit { p2: off, ..good };
    assert!(!is_satisfied(&stray.synthesize(config, 1 << 13).unwrap(), &config));
}

fn point_circuit(p: &G1Affine, q: &G1Affine, bit: u64, sum: &G1Affine, twice: &G1Affine) -> bool {
    let (chip, config) = setup();
    let mut region = Region::new(64);
    let mut offset = 0;
    let lp = chip.load_private_point(&mut region, &config, &affine(p), &mut offset).unwrap();
    let lq = chip
        .load_private_point_unchecked(&mut region, &config, &affine(q), &mut offset)
        .unwrap();
    let ls = chip
        .load_private_point_unchecked(&mut region, &config, &affine(sum), &mut offset)
        .unwrap();
    let lt = chip
        .load_private_point_unchecked(&mut region, &config, &affine(twice), &mut offset)
        .unwrap();
    let b = chip.load_private_field(&mut region, &config, &Fe::from_u64(bit), &mut offset).unwrap();
    let s = chip.conditional_point_add(&mut region, &config, &lp, &lq, &b, &mut offset).unwrap();
    let t = chip.point_double(&mut region, &config, &lp, &mut offset).unwrap();
    region.constrain_equal(ls.x().cell(), s.x().cell()).unwrap();
    region.constrain_equal(ls.y().cell(), s.y().cell()).unwrap();
    region.constrain_equal(lt.x().cell(), t.x().cell()).unwrap();
    region.constrain_equal(lt.y().cell(), t.y().cell()).unwrap();
    chip.pad(&mut region, &config, &mut offset).unwrap();
    verdict(region, &config, 7)
}

#[test]
fn mock_prover_agrees_on_point_operations() {
    let mut rng = test_rng();
    let p = G1::random(&mut rng).to_affine();
    let q = G1::random(&mut rng).to_affine();
    let o = G1Affine::default();
    let sum = (p + q).to_affine();
    let twice = (p + p).to_affine();
    assert!(point_circuit(&p, &q, 1, &sum, &twice));
    assert!(point_circuit(&p, &q, 0, &p, &twice));
    assert!(!point_circuit(&p, &q, 1, &twice, &twice));
    assert!(!point_circuit(&p, &q, 1, &sum, &sum));
    assert!(!point_circuit(&p, &q, 0, &sum, &twice));
    assert!(point_circuit(&p, &p, 1, &twice, &twice));
    assert!(point_circuit(&p, &(-p), 1, &o, &twice));
    assert!(point_circuit(&p, &o, 1, &p, &twice));
    // the point at infinity is no point of the curve
    assert!(!point_circuit(&o, &p, 1, &p, &o));
    let off = G1Affine { x: p.x, y: p.y + Fq::one() };
    assert!(!point_circuit(&off, &q, 0, &off, &o));
}

#[test]
fn mock_prover_agrees_on_scalar_multiplication() {
    let (chip, config) = setup();
    let mut rng = test_rng();
    let p = G1::random(&mut rng).to_affine();
    let s = Fr::random(&mut rng);
    for (given, expected) in [(p.mul(s).to_affine(), true), (p, false)] {
        let mut region = Region::new(1 << 13);
        let mut offset = 0;
        let claimed = chip
            .load_private_point(&mut region, &config, &affine(&given), &mut offset)
            .unwrap();
        let multiple =
            chip.point_mul(&mut region, &config, &affine(&p), &scalar(&s), &mut offset).unwrap();
        region.constrain_equal(claimed.x().cell(), multiple.x().cell()).unwrap();
        region.constrain_equal(claimed.y().cell(), multiple.y().cell()).unwrap();
        chip.pad(&mut region, &config, &mut offset).unwrap();
        assert_eq!(verdict(region, &config, 13), expected);
    }
}

/// The same gates and copy constraints over rows that `edit` has changed:
/// a witness that the chip did not make.
fn forge(honest: &Region, edit: impl Fn(usize, &mut Row)) -> Region {
    let mut forged = Region::new(honest.capacity());
    let mut offset = 0;
    while offset < honest.len() {
        let first = honest.row(offset).unwrap();
        let mut block = Vec::new();
        for i in offset..offset + first.gate.rows() {
            let mut row = honest.row(i).unwrap();
            edit(i, &mut row);
            block.push(row);
        }
        forged.assign(block, &mut offset).unwrap();
    }
    for k in 0..honest.copy_count() {
        let (l, r) = honest.copy(k).unwrap();
        forged.constrain_equal(l, r).unwrap();
    }
    assert_eq!(forged.len(), honest.len());
    forged
}

#[test]
fn forged_sums_and_products_are_rejected() {
    let (_, config) = setup();
    for (gate, right, wrong) in [(Gate::Add, 12u64, 13u64), (Gate::Mul, 35, 12)] {
        for (out, expected) in [(right, true), (wrong, false)] {
            let mut region = Region::new(8);
            let mut offset = 0;
            let block = vec![
                Row { a: Fe::from_u64(5), b: Fe::from_u64(7), gate },
                Row { a: Fe::from_u64(out), b: Fe::zero(), gate: Gate::Off },
            ];
            assert_eq!(region.assign(block, &mut offset), Ok(0));
            assert_eq!(offset, 2);
            assert_eq!(verdict(region, &config, 5), expected);
        }
    }
}

#[test]
fn rows_that_are_no_block_are_refused() {
    let mut region = Region::new(8);
    let mut offset = 0;
    let plain = Row { a: Fe::one(), b: Fe::one(), gate: Gate::Off };
    let adding = Row { a: Fe::one(), b: Fe::one(), gate: Gate::Add };
    assert_eq!(region.assign(vec![], &mut offset), Err(Error::InvalidInput));
    assert_eq!(region.assign(vec![adding], &mut offset), Err(Error::InvalidInput));
    assert_eq!(region.assign(vec![adding, adding], &mut offset), Err(Error::InvalidInput));
    assert_eq!(region.assign(vec![plain, plain], &mut offset), Err(Error::InvalidInput));
    assert_eq!(region.len(), 0);
    assert_eq!(region.assign(vec![plain], &mut offset), Ok(0));
    assert_eq!(region.assign(vec![adding, plain], &mut offset), Ok(1));
    assert_eq!(offset, 3);
    let mut stale = 0;
    assert_eq!(region.assign(vec![plain], &mut stale), Err(Error::CursorMismatch));
}

#[test]
fn a_row_of_zeros_must_hold_zeros() {
    let (_, config) = setup();
    for (a, b, expected) in [(0u64, 0u64, true), (1, 0, false), (0, 1, false)] {
        let mut region = Region::new(8);
        let mut offset = 0;
        let row = Row { a: Fe::from_u64(a), b: Fe::from_u64(b), gate: Gate::Zero };
        region.assign(vec![row], &mut offset).unwrap();
        assert_eq!(verdict(region, &config, 5), expected);
    }
}

#[test]
fn forged_doublings_are_rejected() {
    let (chip, config) = setup();
    let mut rng = test_rng();
    let p = affine(&G1::random(&mut rng).to_affine());
    let mut honest = Region::new(16);
    let mut offset = 0;
    let lp = chip.load_private_point_unchecked(&mut honest, &config, &p, &mut offset).unwrap();
    chip.point_double(&mut honest, &config, &lp, &mut offset).unwrap();
    assert!(verdict(forge(&honest, |_, _| {}), &config, 6));
    // every witness cell of the block, one at a time, off by one
    for row in 1..6 {
        for side in [Side::A, Side::B] {
            if row == 4 && side == Side::B {
                // the one cell of the block that no constraint reads
                continue;
            }
            let forged = forge(&honest, |i, r| {
                if i == row {
                    match side {
                        Side::A => r.a = r.a.add(&Fe::one()),
                        Side::B => r.b = r.b.add(&Fe::one()),
                    }
                }
            });
            assert!(!verdict(forged, &config, 6));
        }
    }
    // the claim that the ordinate is zero, and with it the point at infinity
    let forged = forge(&honest, |i, r| {
        if i == 2 || i == 5 {
            *r = Row { a: Fe::zero(), b: Fe::zero(), gate: r.gate };
        }
    });
    assert!(!verdict(forged, &config, 6));
}

#[test]
fn forged_conditional_additions_are_rejected() {
    let (chip, config) = setup();
    let mut rng = test_rng();
    let p = affine(&G1::random(&mut rng).to_affine());
    let q = affine(&G1::random(&mut rng).to_affine());
    let mut honest = Region::new(32);
    let mut offset = 0;
    let lp = chip.load_private_point_unchecked(&mut honest, &config, &p, &mut offset).unwrap();
    let lq = chip.load_private_point_unchecked(&mut honest, &config, &q, &mut offset).unwrap();
    let bit = chip.load_private_field(&mut honest, &config, &Fe::one(), &mut offset).unwrap();
    chip.conditional_point_add(&mut honest, &config, &lp, &lq, &bit, &mut offset).unwrap();
    assert!(verdict(forge(&honest, |_, _| {}), &config, 6));
    for row in 3..17 {
        for side in [Side::A, Side::B] {
            if row == 14 && side == Side::B {
                // the one cell of the block that no constraint reads
                continue;
            }
            let forged = forge(&honest, |i, r| {
                if i == row {
                    match side {
                        Side::A => r.a = r.a.add(&Fe::one()),
                        Side::B => r.b = r.b.add(&Fe::one()),
                    }
                }
            });
            assert!(!verdict(forged, &config, 6));
        }
    }
    // the sum swapped for the first point, under the bit one
    let forged = forge(&honest, |i, r| {
        if i == 15 || i == 16 {
            r.a = p.x;
            r.b = p.y;
        }
    });
    assert!(!verdict(forged, &config, 6));
}

#[test]
fn forged_bits_are_rejected() {
    let (chip, config) = setup();
    let mut honest = Region::new(128);
    let mut offset = 0;
    chip.decompose_u128(&mut honest, &config, &0x1234_5678_9abc_def0, &mut offset).unwrap();
    assert!(verdict(forge(&honest, |_, _| {}), &config, 8));
    // one bit flipped, with nothing else changed
    for block in [0usize, 7, 31] {
        let forged = forge(&honest, |i, r| {
            if i == 3 * block + 1 {
                r.b = Fe::one().sub(&r.b);
            }
        });
        assert!(!verdict(forged, &config, 8));
    }
    // a digit of two, made up for in the block itself
    let forged = forge(&honest, |i, r| {
        if i == 1 {
            // the lowest four bits are 0000: b0 = 2, b1 = -1 keeps the sum
            r.b = Fe::from_u64(2);
            r.a = Fe::one().neg();
        }
    });
    assert!(!verdict(forged, &config, 8));
    // the value changed, with all the bits left as they were
    let forged = forge(&honest, |i, r| {
        if i == 2 {
            r.b = r.b.add(&Fe::from_u64(16));
            r.a = r.a.add(&Fe::one());
        }
    });
    assert!(!verdict(forged, &config, 8));
    // what is left above the last block other than zero
    let forged = forge(&honest, |i, r| {
        if i == 95 {
            r.a = Fe::one();
            r.b = r.b.add(&Fe::from_u64(16));
        }
    });
    assert!(!verdict(forged, &config, 8));
}

#[test]
fn a_forged_step_of_the_ladder_is_rejected() {
    let (chip, config) = setup();
    let mut rng = test_rng();
    let p = affine(&G1::random(&mut rng).to_affine());
    let s = scalar(&Fr::random(&mut rng));
    let mut honest = Region::new(1 << 13);
    let mut offset = 0;
    chip.point_mul(&mut honest, &config, &p, &s, &mut offset).unwrap();
    assert!(is_satisfied(&honest, &config));
    // the accumulator replaced in the middle of the ladder, and the result
    let other = p.double(&config.curve());
    for row in [196 + 19 * 100 + 18, 5059] {
        let forged = forge(&honest, |i, r| {
            if i == row {
                r.a = other.x;
                r.b = other.y;
            }
        });
        assert!(!is_satisfied(&forged, &config));
    }
    // a bit of the scalar flipped where the ladder reads it
    let forged = forge(&honest, |i, r| {
        if i == 196 + 19 * 40 + 5 + 2 {
            r.a = Fe::one().sub(&r.a);
        }
    });
    assert!(!is_satisfied(&forged, &config));
}
