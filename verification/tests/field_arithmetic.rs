use ark_std::test_rng;
use halo2curves::ff::Field;
use halo2curves::grumpkin::Fq;
use native_ecc::field::Fe;

fn limbs_of(x: &Fq) -> [u64; 4] {
    let bytes = x.to_bytes();
    let mut limbs = [0u64; 4];
    for (i, limb) in limbs.iter_mut().enumerate() {
        let mut chunk = [0u8; 8];
        chunk.copy_from_slice(&bytes[8 * i..8 * i + 8]);
        *limb = u64::from_le_bytes(chunk);
    }
    limbs
}

fn fe(x: &Fq) -> Fe {
    Fe::from_limbs(limbs_of(x)).unwrap()
}

const MODULUS: [u64; 4] = [
    0x43e1f593f0000001,
    0x2833e84879b97091,
    0xb85045b68181585d,
    0x30644e72e131a029,
];

#[test]
fn small_sums_and_products() {
    let three = Fe::from_u64(3);
    let four = Fe::from_u64(4);
    assert_eq!(three.add(&four), Fe::from_u64(7));
    assert_eq!(three.mul(&four), Fe::from_u64(12));
    assert_eq!(four.sub(&three), Fe::from_u64(1));
    assert_eq!(three.square(), Fe::from_u64(9));
    assert_eq!(three.sub(&three), Fe::zero());
}

#[test]
fn subtraction_wraps_around_the_modulus() {
    let minus_one = Fe::zero().sub(&Fe::one());
    let mut expected = MODULUS;
    expected[0] -= 1;
    assert_eq!(minus_one.to_limbs(), expected);
    assert_eq!(minus_one.add(&Fe::one()), Fe::zero());
    assert_eq!(Fe::one().neg(), minus_one);
    assert_eq!(minus_one.mul(&minus_one), Fe::one());
}

#[test]
fn limbs_at_or_above_the_modulus_are_refused() {
    assert!(Fe::from_limbs(MODULUS).is_none());
    let mut below = MODULUS;
    below[0] -= 1;
    assert!(Fe::from_limbs(below).is_some());
    let mut above = MODULUS;
    above[0] += 1;
    assert!(Fe::from_limbs(above).is_none());
    assert!(Fe::from_limbs([u64::MAX; 4]).is_none());
    assert_eq!(Fe::from_limbs([5, 0, 0, 0]), Some(Fe::from_u64(5)));
}

#[test]
fn wide_integers_keep_their_limbs() {
    let v: u128 = 0x0123_4567_89ab_cdef_0fed_cba9_8765_4321;
    assert_eq!(
        Fe::from_u128(v).to_limbs(),
        [0x0fed_cba9_8765_4321, 0x0123_4567_89ab_cdef, 0, 0]
    );
    assert_eq!(Fe::from_u128(u128::MAX).to_limbs(), [u64::MAX, u64::MAX, 0, 0]);
    assert_eq!(Fe::from_u128(7), Fe::from_u64(7));
}

#[test]
fn arithmetic_agrees_with_the_curve_library() {
    let mut rng = test_rng();
    for _ in 0..50 {
        let a = Fq::random(&mut rng);
        let b = Fq::random(&mut rng);
        assert_eq!(fe(&a).add(&fe(&b)), fe(&(a + b)));
        assert_eq!(fe(&a).sub(&fe(&b)), fe(&(a - b)));
        assert_eq!(fe(&a).mul(&fe(&b)), fe(&(a * b)));
        assert_eq!(fe(&a).neg(), fe(&(-a)));
        assert_eq!(fe(&a).square(), fe(&a.square()));
        assert_ne!(fe(&a).add(&fe(&b)), fe(&a));
    }
}

#[test]
fn inverse_times_element_is_one() {
    let mut rng = test_rng();
    for _ in 0..20 {
        let a = fe(&Fq::random(&mut rng));
        let inv = a.invert().unwrap();
        assert_eq!(a.mul(&inv), Fe::one());
        assert_eq!(a.invert_or_zero(), inv);
        assert_ne!(inv, a);
    }
    assert_eq!(Fe::from_u64(2).invert().unwrap().mul(&Fe::from_u64(2)), Fe::one());
}

#[test]
fn zero_has_no_inverse() {
    assert!(Fe::zero().invert().is_none());
    assert_eq!(Fe::zero().invert_or_zero(), Fe::zero());
    assert!(Fe::zero().is_zero());
    assert!(!Fe::one().is_zero());
}

#[test]
fn select_blends_by_the_bit() {
    let a = Fe::from_u64(11);
    let b = Fe::from_u64(29);
    assert_eq!(Fe::select(&Fe::one(), &a, &b), a);
    assert_eq!(Fe::select(&Fe::zero(), &a, &b), b);
    // 2 * 11 + (1 - 2) * 29 = 22 - 29
    assert_eq!(Fe::select(&Fe::from_u64(2), &a, &b), Fe::from_u64(22).sub(&b));
}

#[test]
fn equality_is_equality_of_residues() {
    let a = Fe::from_u64(5);
    assert!(a.equals(&Fe::from_u128(5)));
    assert!(!a.equals(&Fe::from_u64(6)));
}
