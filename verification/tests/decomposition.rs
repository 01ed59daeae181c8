use ark_std::test_rng;
use halo2curves::ff::Field;
use halo2curves::grumpkin::{Fq, Fr};
use native_ecc::checker::is_satisfied;
use native_ecc::chip::{ECChip, ECConfig};
use native_ecc::curve::{CurveParams, Scalar};
use native_ecc::decompose::U128_ROWS;
use native_ecc::field::Fe;
use native_ecc::gates::Gate;
use native_ecc::region::{Cell, Column, Error, FieldCell, Region};
use native_ecc::scalar_mul::SCALAR_ROWS;

fn limbs(bytes: &[u8]) -> [u64; 4] {
    let mut limbs = [0u64; 4];
    for (i, limb) in limbs.iter_mut().enumerate() {
        let mut chunk = [0u8; 8];
        chunk.copy_from_slice(&bytes[8 * i..8 * i + 8]);
        *limb = u64::from_le_bytes(chunk);
    }
    limbs
}

fn fe(x: &Fq) -> Fe {
    Fe::from_limbs(limbs(&x.to_bytes())).unwrap()
}

fn setup() -> (ECChip, ECConfig) {
    let config = ECChip::configure(CurveParams::grumpkin()).unwrap();
    (ECChip::construct(config), config)
}

fn recompose(digits: &[FieldCell]) -> u128 {
    let mut v = 0u128;
    for (i, d) in digits.iter().enumerate() {
        let limbs = d.value().to_limbs();
        assert!(limbs == [0, 0, 0, 0] || limbs == [1, 0, 0, 0]);
        v |= (limbs[0] as u128) << i;
    }
    v
}

fn partial(values: [Fe; 6]) -> bool {
    let (chip, config) = setup();
    let mut region = Region::new(8);
    let mut offset = 0;
    let d = chip.partial_bit_decomp(&mut region, &config, &values, &mut offset).unwrap();
    assert_eq!(offset, 3);
    assert_eq!(d.digits.len(), 4);
    assert_eq!(d.digits[0].value(), values[3]);
    assert_eq!(d.digits[3].value(), values[0]);
    assert_eq!(d.digits[3].cell(), Cell { row: 0, column: Column::A });
    assert_eq!(d.remainder.value(), values[4]);
    assert_eq!(d.value.value(), values[5]);
    assert_eq!(d.value.cell(), Cell { row: 2, column: Column::B });
    assert_eq!(region.row(0).unwrap().gate, Gate::BitDecomp);
    is_satisfied(&region, &config)
}

#[test]
fn partial_bit_decomposition_accepts_bits_and_their_sum() {
    let mut rng = test_rng();
    let f1 = fe(&Fq::random(&mut rng));
    let one = Fe::one();
    let zero = Fe::zero();
    let sixteen = Fe::from_u64(16);
    let with = |n: u64| f1.mul(&sixteen).add(&Fe::from_u64(n));
    assert!(partial([one, zero, zero, one, f1, with(9)]));
    assert!(!partial([one, zero, zero, one, f1, with(10)]));
    assert!(!partial([Fe::from_u64(2), zero, zero, one, f1, with(10)]));
    assert!(!partial([Fe::from_u64(2), zero, zero, one, f1, with(17)]));
    assert!(!partial([zero, zero, zero, one, f1, with(10)]));
    // the weights: b3 counts eight, b2 four, b1 two, b0 one
    assert!(partial([one, zero, zero, zero, f1, with(8)]));
    assert!(partial([zero, one, zero, zero, f1, with(4)]));
    assert!(partial([zero, zero, one, zero, f1, with(2)]));
    assert!(partial([zero, zero, zero, one, f1, with(1)]));
    assert!(partial([one, one, one, one, f1, with(15)]));
    assert!(partial([zero, zero, zero, zero, zero, zero]));
    assert!(!partial([zero, zero, zero, one, f1, with(8)]));
}

#[test]
fn partial_bit_decomposition_takes_six_values() {
    let (chip, config) = setup();
    let mut region = Region::new(8);
    let mut offset = 0;
    let five = [Fe::zero(); 5];
    let r = chip.partial_bit_decomp(&mut region, &config, &five, &mut offset);
    assert_eq!(r.unwrap_err(), Error::InvalidInput);
    let seven = [Fe::zero(); 7];
    let r = chip.partial_bit_decomp(&mut region, &config, &seven, &mut offset);
    assert_eq!(r.unwrap_err(), Error::InvalidInput);
    assert_eq!(offset, 0);
    assert_eq!(region.len(), 0);
}

#[test]
fn decompose_u128_round_trips() {
    let (chip, config) = setup();
    let mut rng = test_rng();
    let random = limbs(&Fq::random(&mut rng).to_bytes());
    let values = [
        0u128,
        1,
        2,
        0x0f0e0d0c0b0a09080706050403020100,
        u128::MAX,
        u128::MAX - 1,
        1u128 << 127,
        (random[0] as u128) | ((random[1] as u128) << 64),
    ];
    for v in values {
        let mut region = Region::new(128);
        let mut offset = 0;
        let d = chip.decompose_u128(&mut region, &config, &v, &mut offset).unwrap();
        assert_eq!(offset, U128_ROWS);
        assert_eq!(offset, 97);
        assert_eq!(d.digits.len(), 128);
        assert_eq!(recompose(&d.digits), v);
        assert_eq!(d.value.value(), Fe::from_u128(v));
        assert_eq!(d.remainder.value(), Fe::zero());
        for digit in d.digits.iter() {
            assert!(region.holds(digit));
        }
        assert!(region.holds(&d.value));
        assert!(region.holds(&d.remainder));
        assert_eq!(region.copy_count(), 32);
        assert!(is_satisfied(&region, &config));
    }
}

#[test]
fn decompose_u128_binds_its_value() {
    let (chip, config) = setup();
    for (bound, expected) in [(300u128, true), (301, false)] {
        let mut region = Region::new(128);
        let mut offset = 0;
        let given =
            chip.load_private_field(&mut region, &config, &Fe::from_u128(bound), &mut offset);
        let d = chip.decompose_u128(&mut region, &config, &300, &mut offset).unwrap();
        region.constrain_equal(given.unwrap().cell(), d.value.cell()).unwrap();
        assert_eq!(is_satisfied(&region, &config), expected);
    }
}

#[test]
fn decompose_u128_needs_all_its_rows() {
    let (chip, config) = setup();
    let mut region = Region::new(96);
    let mut offset = 0;
    let r = chip.decompose_u128(&mut region, &config, &5, &mut offset);
    assert_eq!(r.unwrap_err(), Error::NotEnoughRows);
    assert_eq!(offset, 0);
    assert_eq!(region.len(), 0);
    let mut stale = 3;
    let r = chip.decompose_u128(&mut region, &config, &5, &mut stale);
    assert_eq!(r.unwrap_err(), Error::CursorMismatch);
}

#[test]
fn decompose_scalar_round_trips() {
    let (chip, config) = setup();
    let mut rng = test_rng();
    let order = config.curve().order;
    let last = Scalar { low: order.low - 1, high: order.high };
    let random = Scalar::from_limbs(limbs(&Fr::random(&mut rng).to_bytes()));
    for s in [Scalar { low: 0, high: 0 }, Scalar { low: 1, high: 0 }, last, random] {
        let mut region = Region::new(256);
        let mut offset = 0;
        let d = chip.decompose_scalar(&mut region, &config, &s, &mut offset).unwrap();
        assert_eq!(offset, SCALAR_ROWS);
        assert_eq!(offset, 194);
        assert_eq!(d.bits.len(), 256);
        assert_eq!(recompose(&d.bits[..128]), s.low);
        assert_eq!(recompose(&d.bits[128..]), s.high);
        assert_eq!(d.low.value(), Fe::from_u128(s.low));
        assert_eq!(d.high.value(), Fe::from_u128(s.high));
        // the group order has 254 bits: the two highest are padding
        if config.curve().is_valid_scalar(&s) {
            assert!(d.bits[254].value().is_zero());
            assert!(d.bits[255].value().is_zero());
        }
        assert!(is_satisfied(&region, &config));
    }
}
