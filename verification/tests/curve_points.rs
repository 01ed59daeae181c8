use ark_std::test_rng;
use halo2curves::ff::Field;
use halo2curves::group::{Curve, Group};
use halo2curves::grumpkin::{Fq, Fr, G1Affine, G1};
use native_ecc::checker::is_satisfied;
use native_ecc::chip::{ECChip, ECConfig};
use native_ecc::circuits::{ECTestCircuit, EC_ROWS};
use native_ecc::curve::{AffinePoint, CurveParams, Scalar};
use native_ecc::field::Fe;
use native_ecc::region::{Cell, Column, Error, Region};
use std::ops::Mul;

fn limbs(bytes: &[u8]) -> [u64; 4] {
    let mut limbs = [0u64; 4];
    for (i, limb) in limbs.iter_mut().enumerate() {
        let mut chunk = [0u8; 8];
        chunk.copy_from_slice(&bytes[8 * i..8 * i + 8]);
        *limb = u64::from_le_bytes(chunk);
    }
    limbs
}

fn fe(x: &Fq) -> Fe {
    Fe::from_limbs(limbs(&x.to_bytes())).unwrap()
}

fn scalar(s: &Fr) -> Scalar {
    Scalar::from_limbs(limbs(&s.to_bytes()))
}

fn affine(p: &G1Affine) -> AffinePoint {
    AffinePoint { x: fe(&p.x), y: fe(&p.y) }
}

fn setup() -> (ECChip, ECConfig) {
    let config = ECChip::configure(CurveParams::grumpkin()).unwrap();
    (ECChip::construct(config), config)
}

#[test]
fn circuits_need_their_rows() {
    let config = ECTestCircuit::configure();
    let o = AffinePoint::identity();
    let circuit =
        ECTestCircuit { s: Scalar { low: 0, high: 0 }, p1: o, p2: o, p3: o, p4: o, p5: o };
    assert_eq!(circuit.synthesize(config, EC_ROWS - 1).unwrap_err(), Error::NotEnoughRows);
    assert_eq!(circuit.synthesize(config, EC_ROWS).unwrap().len(), 5304);
}

#[test]
fn native_group_law_agrees_with_the_curve_library() {
    let curve = CurveParams::grumpkin();
    let mut rng = test_rng();
    for _ in 0..10 {
        let p = G1::random(&mut rng).to_affine();
        let q = G1::random(&mut rng).to_affine();
        let s = Fr::random(&mut rng);
        assert_eq!(affine(&p).add(&affine(&q), &curve), affine(&(p + q).to_affine()));
        assert_eq!(affine(&p).double(&curve), affine(&(p + p).to_affine()));
        assert_eq!(affine(&p).add(&affine(&p), &curve), affine(&(p + p).to_affine()));
        assert_eq!(affine(&p).mul(&scalar(&s), &curve), affine(&p.mul(s).to_affine()));
        assert_ne!(affine(&p).add(&affine(&q), &curve), affine(&p));
        assert!(affine(&p).is_on_curve(&curve));
    }
}

#[test]
fn the_point_at_infinity_is_neutral() {
    let curve = CurveParams::grumpkin();
    let mut rng = test_rng();
    let p = affine(&G1::random(&mut rng).to_affine());
    let o = AffinePoint::identity();
    assert_eq!(o, affine(&G1Affine::default()));
    assert_eq!(p.add(&o, &curve), p);
    assert_eq!(o.add(&p, &curve), p);
    assert_eq!(o.add(&o, &curve), o);
    assert_eq!(o.double(&curve), o);
    assert!(o.is_identity());
    assert!(!p.is_identity());
    assert!(!o.is_on_curve(&curve));
}

#[test]
fn a_point_and_its_negative_add_up_to_infinity() {
    let curve = CurveParams::grumpkin();
    let mut rng = test_rng();
    let p = G1::random(&mut rng).to_affine();
    let minus = affine(&(-p));
    assert_eq!(minus, AffinePoint { x: fe(&p.x), y: fe(&p.y).neg() });
    assert_eq!(affine(&p).add(&minus, &curve), AffinePoint::identity());
}

#[test]
fn small_and_extreme_scalars() {
    let curve = CurveParams::grumpkin();
    let mut rng = test_rng();
    let g = G1::random(&mut rng).to_affine();
    let p = affine(&g);
    let zero = Scalar { low: 0, high: 0 };
    let one = Scalar { low: 1, high: 0 };
    let two = Scalar { low: 2, high: 0 };
    assert_eq!(p.mul(&zero, &curve), AffinePoint::identity());
    assert_eq!(p.mul(&one, &curve), p);
    assert_eq!(p.mul(&two, &curve), p.double(&curve));
    assert_eq!(
        p.mul(&Scalar { low: 5, high: 0 }, &curve),
        affine(&g.mul(Fr::from(5)).to_affine())
    );
    // the order of the group, and the order less one
    let order = curve.order;
    assert_eq!(p.mul(&order, &curve), AffinePoint::identity());
    let last = Scalar { low: order.low - 1, high: order.high };
    assert_eq!(last, scalar(&(-Fr::one())));
    assert_eq!(p.mul(&last, &curve), affine(&(-g)));
    assert!(curve.is_valid_scalar(&last));
    assert!(!curve.is_valid_scalar(&order));
    assert!(curve.is_valid_scalar(&zero));
}

#[test]
fn scalars_from_limbs() {
    let s = Scalar::from_limbs([1, 2, 3, 4]);
    assert_eq!(s.low, 1 + (2u128 << 64));
    assert_eq!(s.high, 3 + (4u128 << 64));
    assert_eq!(s.half(), Scalar { low: (1u128 << 127) + (1u128 << 64), high: 1 + (2u128 << 64) });
    assert!(s.is_odd());
    assert!(!s.half().is_odd());
    assert!(!s.is_zero());
    assert!(Scalar { low: 0, high: 0 }.is_zero());
    assert!(Scalar { low: u128::MAX, high: 0 }.less_than(&Scalar { low: 0, high: 1 }));
    assert!(!Scalar { low: 0, high: 1 }.less_than(&Scalar { low: u128::MAX, high: 0 }));
}

#[test]
fn loading_a_point_accepts_exactly_the_points_of_the_curve() {
    let (chip, config) = setup();
    let mut rng = test_rng();
    let p = affine(&G1::random(&mut rng).to_affine());
    let off = AffinePoint { x: p.x, y: p.y.add(&Fe::one()) };
    for (point, expected) in [(p, true), (off, false), (AffinePoint::identity(), false)] {
        let mut region = Region::new(16);
        let mut offset = 0;
        let loaded = chip.load_private_point(&mut region, &config, &point, &mut offset).unwrap();
        assert_eq!(offset, 2);
        assert!(loaded.is_checked());
        assert_eq!(loaded.x().value(), point.x);
        assert_eq!(loaded.y().cell(), Cell { row: 0, column: Column::B });
        assert_eq!(is_satisfied(&region, &config), expected);
        assert_eq!(point.is_on_curve(&config.curve()), expected);

        let mut region = Region::new(16);
        let mut offset = 0;
        let loaded = chip
            .load_private_point_unchecked(&mut region, &config, &point, &mut offset)
            .unwrap();
        assert_eq!(offset, 1);
        assert!(!loaded.is_checked());
        assert!(is_satisfied(&region, &config));
        let checked = chip.enforce_on_curve(&mut region, &config, &loaded, &mut offset).unwrap();
        assert!(checked.is_checked());
        assert_eq!(offset, 2);
        assert_eq!(is_satisfied(&region, &config), expected);
    }
}

fn add_under_bit(p: &G1Affine, q: &G1Affine, bit: u64, given: &G1Affine) -> bool {
    let (chip, config) = setup();
    let mut region = Region::new(64);
    let mut offset = 0;
    let lp = chip.load_private_point_unchecked(&mut region, &config, &affine(p), &mut offset);
    let lq = chip.load_private_point_unchecked(&mut region, &config, &affine(q), &mut offset);
    let bit = chip.load_private_field(&mut region, &config, &Fe::from_u64(bit), &mut offset);
    let expected =
        chip.load_private_point_unchecked(&mut region, &config, &affine(given), &mut offset);
    let (lp, lq, bit, expected) = (lp.unwrap(), lq.unwrap(), bit.unwrap(), expected.unwrap());
    let sum = chip
        .conditional_point_add(&mut region, &config, &lp, &lq, &bit, &mut offset)
        .unwrap();
    assert_eq!(offset, 4 + 14);
    assert!(!sum.is_checked());
    assert!(is_satisfied(&region, &config));
    region.constrain_equal(expected.x().cell(), sum.x().cell()).unwrap();
    region.constrain_equal(expected.y().cell(), sum.y().cell()).unwrap();
    is_satisfied(&region, &config)
}

#[test]
fn conditional_addition_adds_under_one_and_keeps_under_zero() {
    let mut rng = test_rng();
    let p = G1::random(&mut rng).to_affine();
    let q = G1::random(&mut rng).to_affine();
    let sum = (p + q).to_affine();
    let twice = (p + p).to_affine();
    assert!(add_under_bit(&p, &q, 1, &sum));
    assert!(add_under_bit(&p, &q, 0, &p));
    assert!(!add_under_bit(&p, &q, 1, &twice));
    assert!(!add_under_bit(&p, &q, 1, &p));
    assert!(!add_under_bit(&p, &q, 0, &sum));
    assert!(!add_under_bit(&p, &q, 0, &q));
}

#[test]
fn conditional_addition_is_complete() {
    let mut rng = test_rng();
    let p = G1::random(&mut rng).to_affine();
    let o = G1Affine::default();
    let twice = (p + p).to_affine();
    // equal points, opposite points, and the point at infinity on either side
    assert!(add_under_bit(&p, &p, 1, &twice));
    assert!(!add_under_bit(&p, &p, 1, &p));
    assert!(add_under_bit(&p, &(-p), 1, &o));
    assert!(!add_under_bit(&p, &(-p), 1, &p));
    assert!(add_under_bit(&p, &o, 1, &p));
    assert!(add_under_bit(&o, &p, 1, &p));
    assert!(!add_under_bit(&o, &p, 1, &o));
    assert!(add_under_bit(&o, &o, 1, &o));
    assert!(add_under_bit(&o, &p, 0, &o));
}

fn double_is(p: &G1Affine, given: &G1Affine) -> bool {
    let (chip, config) = setup();
    let mut region = Region::new(64);
    let mut offset = 0;
    let lp = chip
        .load_private_point_unchecked(&mut region, &config, &affine(p), &mut offset)
        .unwrap();
    let expected = chip
        .load_private_point_unchecked(&mut region, &config, &affine(given), &mut offset)
        .unwrap();
    let twice = chip.point_double(&mut region, &config, &lp, &mut offset).unwrap();
    assert_eq!(offset, 2 + 5);
    assert_eq!(twice.x().cell(), Cell { row: 6, column: Column::A });
    assert!(is_satisfied(&region, &config));
    region.constrain_equal(expected.x().cell(), twice.x().cell()).unwrap();
    region.constrain_equal(expected.y().cell(), twice.y().cell()).unwrap();
    is_satisfied(&region, &config)
}

#[test]
fn doubling_is_adding_a_point_to_itself() {
    let mut rng = test_rng();
    let p = G1::random(&mut rng).to_affine();
    let q = G1::random(&mut rng).to_affine();
    let o = G1Affine::default();
    assert!(double_is(&p, &(p + p).to_affine()));
    assert!(!double_is(&p, &(p + q).to_affine()));
    assert!(!double_is(&p, &p));
    assert!(double_is(&o, &o));
    assert!(!double_is(&o, &p));
}

fn multiple_is(p: &G1Affine, s: &Scalar, given: &AffinePoint) -> bool {
    let (chip, config) = setup();
    let mut region = Region::new(1 << 13);
    let mut offset = 0;
    let expected = chip
        .load_private_point_unchecked(&mut region, &config, given, &mut offset)
        .unwrap();
    let multiple = chip.point_mul(&mut region, &config, &affine(p), s, &mut offset).unwrap();
    assert_eq!(offset, 1 + 5060);
    assert_eq!(multiple.x().value(), affine(p).mul(s, &config.curve()).x);
    assert!(is_satisfied(&region, &config));
    region.constrain_equal(expected.x().cell(), multiple.x().cell()).unwrap();
    region.constrain_equal(expected.y().cell(), multiple.y().cell()).unwrap();
    is_satisfied(&region, &config)
}

#[test]
fn scalar_multiplication_in_the_region() {
    let mut rng = test_rng();
    let p = G1::random(&mut rng).to_affine();
    let s = Fr::random(&mut rng);
    let o = AffinePoint::identity();
    assert!(multiple_is(&p, &scalar(&s), &affine(&p.mul(s).to_affine())));
    assert!(!multiple_is(&p, &scalar(&s), &affine(&p)));
    assert!(multiple_is(&p, &Scalar { low: 0, high: 0 }, &o));
    assert!(!multiple_is(&p, &Scalar { low: 0, high: 0 }, &affine(&p)));
    assert!(multiple_is(&p, &Scalar { low: 1, high: 0 }, &affine(&p)));
    assert!(!multiple_is(&p, &Scalar { low: 1, high: 0 }, &o));
    assert!(multiple_is(&p, &scalar(&(-Fr::one())), &affine(&(-p))));
    assert!(multiple_is(&G1Affine::default(), &scalar(&s), &o));
}

#[test]
fn operations_on_points_refuse_handles_of_another_region() {
    let (chip, config) = setup();
    let mut rng = test_rng();
    let p = affine(&G1::random(&mut rng).to_affine());
    let mut other = Region::new(64);
    let mut other_offset = 0;
    chip.load_private_field(&mut other, &config, &Fe::one(), &mut other_offset).unwrap();
    chip.load_private_field(&mut other, &config, &Fe::one(), &mut other_offset).unwrap();
    let foreign =
        chip.load_private_point_unchecked(&mut other, &config, &p, &mut other_offset).unwrap();

    let mut region = Region::new(64);
    let mut offset = 0;
    let own = chip.load_private_point_unchecked(&mut region, &config, &p, &mut offset).unwrap();
    let bit = chip.load_private_field(&mut region, &config, &Fe::one(), &mut offset).unwrap();
    assert!(region.holds(&bit));
    assert!(!region.holds(&foreign.x()));
    assert_eq!(
        chip.point_double(&mut region, &config, &foreign, &mut offset).unwrap_err(),
        Error::UnboundCell
    );
    assert_eq!(
        chip.enforce_on_curve(&mut region, &config, &foreign, &mut offset).unwrap_err(),
        Error::UnboundCell
    );
    assert_eq!(
        chip.conditional_point_add(&mut region, &config, &own, &foreign, &bit, &mut offset)
            .unwrap_err(),
        Error::UnboundCell
    );
    assert_eq!(offset, 2);
    assert_eq!(region.len(), 2);
    assert_eq!(region.copy_count(), 0);
    let mut small = Region::new(5);
    let mut at = 0;
    let own = chip.load_private_point_unchecked(&mut small, &config, &p, &mut at).unwrap();
    assert_eq!(
        chip.point_double(&mut small, &config, &own, &mut at).unwrap_err(),
        Error::NotEnoughRows
    );
    assert_eq!(
        chip.point_mul(&mut small, &config, &p, &Scalar { low: 1, high: 0 }, &mut at)
            .unwrap_err(),
        Error::NotEnoughRows
    );
    assert_eq!(at, 1);
}

#[test]
fn sums_doubles_and_multiples_stay_on_the_curve() {
    let curve = CurveParams::grumpkin();
    let mut rng = test_rng();
    for _ in 0..5 {
        let p = affine(&G1::random(&mut rng).to_affine());
        let q = affine(&G1::random(&mut rng).to_affine());
        let s = scalar(&Fr::random(&mut rng));
        assert!(p.add(&q, &curve).is_on_curve(&curve));
        assert!(p.double(&curve).is_on_curve(&curve));
        assert!(p.mul(&s, &curve).is_on_curve(&curve));
        assert!(p.neg().is_on_curve(&curve));
    }
}

#[test]
fn addition_does_not_depend_on_the_order() {
    let curve = CurveParams::grumpkin();
    let mut rng = test_rng();
    let o = AffinePoint::identity();
    for _ in 0..5 {
        let p = affine(&G1::random(&mut rng).to_affine());
        let q = affine(&G1::random(&mut rng).to_affine());
        assert_eq!(p.add(&q, &curve), q.add(&p, &curve));
        assert_eq!(p.add(&o, &curve), o.add(&p, &curve));
        assert_eq!(p.add(&p.neg(), &curve), p.neg().add(&p, &curve));
        assert_eq!(p.add(&p.neg(), &curve), o);
    }
}

#[test]
fn the_negative_of_a_point() {
    let mut rng = test_rng();
    let g = G1::random(&mut rng).to_affine();
    assert_eq!(affine(&g).neg(), affine(&(-g)));
    assert_eq!(AffinePoint::identity().neg(), AffinePoint::identity());
    assert_eq!(affine(&g).neg().neg(), affine(&g));
}

#[test]
fn addition_is_associative_on_sample_points() {
    let curve = CurveParams::grumpkin();
    let mut rng = test_rng();
    for _ in 0..5 {
        let p = affine(&G1::random(&mut rng).to_affine());
        let q = affine(&G1::random(&mut rng).to_affine());
        let r = affine(&G1::random(&mut rng).to_affine());
        assert_eq!(
            p.add(&q, &curve).add(&r, &curve),
            p.add(&q.add(&r, &curve), &curve)
        );
        assert_eq!(
            p.add(&p, &curve).add(&q, &curve),
            p.add(&p.add(&q, &curve), &curve)
        );
        assert_eq!(
            p.add(&q, &curve).add(&q.neg(), &curve),
            p
        );
    }
}

#[test]
fn a_multiple_is_a_repeated_sum() {
    let curve = CurveParams::grumpkin();
    let mut rng = test_rng();
    let p = affine(&G1::random(&mut rng).to_affine());
    let mut sum = AffinePoint::identity();
    for s in 0..40u128 {
        assert_eq!(p.mul(&Scalar { low: s, high: 0 }, &curve), sum);
        sum = sum.add(&p, &curve);
    }
    // across the halves of the scalar: 2^128 p = 2 (2^127 p)
    let half = p.mul(&Scalar { low: 1 << 127, high: 0 }, &curve);
    assert_eq!(p.mul(&Scalar { low: 0, high: 1 }, &curve), half.double(&curve));
    assert_eq!(
        p.mul(&Scalar { low: 5, high: 1 }, &curve),
        half.double(&curve).add(&p.mul(&Scalar { low: 5, high: 0 }, &curve), &curve)
    );
}
