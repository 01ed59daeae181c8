use native_ecc::checker::{check_copy, check_gate, check_row, is_satisfied};
use native_ecc::chip::{cell_at, ECChip, ECConfig};
use native_ecc::circuits::{ArithTestCircuit, ECTestCircuit, ScalarMulTestCircuit, ARITH_ROWS};
use native_ecc::gates::{Gate, Row};
use native_ecc::curve::{CurveParams, Scalar};
use native_ecc::field::Fe;
use native_ecc::region::{Cell, Column, Error, Region};

fn setup() -> (ECChip, ECConfig) {
    let config = ECChip::configure(CurveParams::grumpkin()).unwrap();
    (ECChip::construct(config), config)
}

#[test]
fn add_gate_lays_two_rows_and_returns_the_sum() {
    let (chip, config) = setup();
    let mut region = Region::new(16);
    let mut offset = 0;
    let cell = chip
        .add(&mut region, &config, &Fe::from_u64(5), &Fe::from_u64(7), &mut offset)
        .unwrap();
    assert_eq!(offset, 2);
    assert_eq!(region.len(), 2);
    assert_eq!(cell.value(), Fe::from_u64(12));
    assert_eq!(cell.cell(), Cell { row: 1, column: Column::A });
    assert_eq!(region.value(cell.cell()), Some(Fe::from_u64(12)));
    assert!(region.holds(&cell));
    assert!(is_satisfied(&region, &config));
}

#[test]
fn mul_gate_lays_two_rows_and_returns_the_product() {
    let (chip, config) = setup();
    let mut region = Region::new(16);
    let mut offset = 0;
    let cell = chip
        .mul(&mut region, &config, &Fe::from_u64(5), &Fe::from_u64(7), &mut offset)
        .unwrap();
    assert_eq!(offset, 2);
    assert_eq!(cell.value(), Fe::from_u64(35));
    assert_eq!(cell.cell(), Cell { row: 1, column: Column::A });
    assert!(is_satisfied(&region, &config));
}

#[test]
fn a_bound_sum_other_than_the_sum_is_rejected() {
    let (chip, config) = setup();
    for (bound, expected) in [(12u64, true), (13, false), (0, false)] {
        let mut region = Region::new(16);
        let mut offset = 0;
        let sum = chip
            .add(&mut region, &config, &Fe::from_u64(5), &Fe::from_u64(7), &mut offset)
            .unwrap();
        let given = chip
            .load_private_field(&mut region, &config, &Fe::from_u64(bound), &mut offset)
            .unwrap();
        region.constrain_equal(given.cell(), sum.cell()).unwrap();
        assert_eq!(is_satisfied(&region, &config), expected);
    }
}

#[test]
fn a_bound_product_other_than_the_product_is_rejected() {
    let (chip, config) = setup();
    for (bound, expected) in [(35u64, true), (36, false), (12, false)] {
        let mut region = Region::new(16);
        let mut offset = 0;
        let product = chip
            .mul(&mut region, &config, &Fe::from_u64(5), &Fe::from_u64(7), &mut offset)
            .unwrap();
        let given = chip
            .load_private_field(&mut region, &config, &Fe::from_u64(bound), &mut offset)
            .unwrap();
        region.constrain_equal(given.cell(), product.cell()).unwrap();
        assert_eq!(is_satisfied(&region, &config), expected);
    }
}

#[test]
fn the_cursor_must_stand_at_the_end_of_the_region() {
    let (chip, config) = setup();
    let mut region = Region::new(16);
    let mut offset = 0;
    chip.add(&mut region, &config, &Fe::one(), &Fe::one(), &mut offset).unwrap();
    let mut stale = 0;
    let r = chip.add(&mut region, &config, &Fe::one(), &Fe::one(), &mut stale);
    assert_eq!(r.unwrap_err(), Error::CursorMismatch);
    assert_eq!(stale, 0);
    assert_eq!(region.len(), 2);
    let mut ahead = 5;
    let r = chip.load_private_field(&mut region, &config, &Fe::one(), &mut ahead);
    assert_eq!(r.unwrap_err(), Error::CursorMismatch);
}

#[test]
fn a_full_region_takes_no_more_rows() {
    let (chip, config) = setup();
    let mut region = Region::new(3);
    let mut offset = 0;
    chip.add(&mut region, &config, &Fe::one(), &Fe::one(), &mut offset).unwrap();
    let r = chip.mul(&mut region, &config, &Fe::one(), &Fe::one(), &mut offset);
    assert_eq!(r.unwrap_err(), Error::NotEnoughRows);
    assert_eq!(offset, 2);
    assert_eq!(region.len(), 2);
    chip.load_private_field(&mut region, &config, &Fe::one(), &mut offset).unwrap();
    assert_eq!(offset, 3);
    let r = chip.load_private_field(&mut region, &config, &Fe::one(), &mut offset);
    assert_eq!(r.unwrap_err(), Error::NotEnoughRows);
}

#[test]
fn copy_constraints_need_assigned_cells() {
    let (chip, config) = setup();
    let mut region = Region::new(4);
    let mut offset = 0;
    let cell = chip.load_private_field(&mut region, &config, &Fe::one(), &mut offset).unwrap();
    let nowhere = Cell { row: 1, column: Column::A };
    assert_eq!(region.constrain_equal(cell.cell(), nowhere), Err(Error::UnboundCell));
    assert_eq!(region.copy_count(), 0);
    assert_eq!(region.constrain_equal(cell.cell(), cell.cell()), Ok(()));
    assert_eq!(region.copy_count(), 1);
    assert!(is_satisfied(&region, &config));
}

#[test]
fn pad_brings_the_region_to_a_multiple_of_eight() {
    let (chip, config) = setup();
    let mut region = Region::new(64);
    let mut offset = 0;
    chip.pad(&mut region, &config, &mut offset).unwrap();
    assert_eq!(offset, 0);
    chip.add(&mut region, &config, &Fe::one(), &Fe::one(), &mut offset).unwrap();
    chip.load_private_field(&mut region, &config, &Fe::one(), &mut offset).unwrap();
    chip.pad(&mut region, &config, &mut offset).unwrap();
    assert_eq!(offset, 8);
    assert_eq!(region.len(), 8);
    for i in 3..8 {
        let row = region.row(i).unwrap();
        assert!(row.a.is_zero() && row.b.is_zero());
    }
    chip.pad(&mut region, &config, &mut offset).unwrap();
    assert_eq!(offset, 8);
    assert!(is_satisfied(&region, &config));
}

#[test]
fn pad_needs_room_up_to_the_boundary() {
    let (chip, config) = setup();
    let mut region = Region::new(7);
    let mut offset = 0;
    chip.load_private_field(&mut region, &config, &Fe::one(), &mut offset).unwrap();
    assert_eq!(chip.pad(&mut region, &config, &mut offset), Err(Error::NotEnoughRows));
    assert_eq!(offset, 1);
    assert_eq!(region.len(), 1);
}

#[test]
fn a_curve_without_constant_term_is_refused() {
    let mut curve = CurveParams::grumpkin();
    curve.b = Fe::zero();
    assert_eq!(ECChip::configure(curve).unwrap_err(), Error::MalformedConfig);
    assert!(ECChip::configure(CurveParams::grumpkin()).is_ok());
}

#[test]
fn a_singular_curve_is_refused() {
    // y^2 = x^3 - 3 x + 2 has a node at x = 1: 4 (-3)^3 + 27 * 2^2 = 0
    let mut curve = CurveParams::grumpkin();
    curve.a = Fe::from_u64(3).neg();
    curve.b = Fe::from_u64(2);
    assert!(!curve.is_regular());
    assert_eq!(ECChip::configure(curve).unwrap_err(), Error::MalformedConfig);
    curve.b = Fe::from_u64(3);
    assert!(curve.is_regular());
    assert!(ECChip::configure(curve).is_ok());
    assert!(CurveParams::grumpkin().is_regular());
}

#[test]
fn a_group_of_order_zero_is_refused() {
    let mut curve = CurveParams::grumpkin();
    curve.order = Scalar { low: 0, high: 0 };
    assert_eq!(ECChip::configure(curve).unwrap_err(), Error::MalformedConfig);
    curve.order = Scalar { low: 1, high: 0 };
    assert!(ECChip::configure(curve).is_ok());
}

#[test]
fn the_configuration_keeps_its_curve() {
    let (chip, config) = setup();
    let curve = config.curve();
    assert!(curve.a.is_zero());
    assert_eq!(curve.b, Fe::from_u64(17).neg());
    assert_eq!(curve.order, CurveParams::grumpkin().order);
    assert_eq!(chip.config().curve().b, curve.b);
}

#[test]
fn the_checker_row_by_row() {
    let (chip, config) = setup();
    let mut region = Region::new(16);
    let mut offset = 0;
    let sum = chip
        .add(&mut region, &config, &Fe::from_u64(5), &Fe::from_u64(7), &mut offset)
        .unwrap();
    let wrong = chip
        .load_private_field(&mut region, &config, &Fe::from_u64(13), &mut offset)
        .unwrap();
    let right = chip
        .load_private_field(&mut region, &config, &Fe::from_u64(12), &mut offset)
        .unwrap();
    region.constrain_equal(right.cell(), sum.cell()).unwrap();
    region.constrain_equal(wrong.cell(), sum.cell()).unwrap();
    for i in 0..4 {
        assert!(check_row(&region, &config, i));
    }
    assert!(check_copy(&region, 0));
    assert!(!check_copy(&region, 1));
    assert!(!is_satisfied(&region, &config));
}

#[test]
fn the_checker_gate_by_gate() {
    let curve = CurveParams::grumpkin();
    let row = |a: u64, b: u64, gate: Gate| Row { a: Fe::from_u64(a), b: Fe::from_u64(b), gate };
    assert!(check_gate(&curve, Gate::Off, &vec![row(3, 4, Gate::Off)]));
    assert!(check_gate(&curve, Gate::Add, &vec![row(3, 4, Gate::Add), row(7, 9, Gate::Off)]));
    assert!(!check_gate(&curve, Gate::Add, &vec![row(3, 4, Gate::Add), row(8, 0, Gate::Off)]));
    assert!(check_gate(&curve, Gate::Mul, &vec![row(3, 4, Gate::Mul), row(12, 9, Gate::Off)]));
    assert!(!check_gate(&curve, Gate::Mul, &vec![row(3, 4, Gate::Mul), row(7, 0, Gate::Off)]));
    assert!(check_gate(&curve, Gate::Zero, &vec![row(0, 0, Gate::Zero)]));
    assert!(!check_gate(&curve, Gate::Zero, &vec![row(0, 1, Gate::Zero)]));
    // 16 * 5 + 8 + 2 = 90
    let bits = vec![row(1, 0, Gate::BitDecomp), row(1, 0, Gate::Off), row(5, 90, Gate::Off)];
    assert!(check_gate(&curve, Gate::BitDecomp, &bits));
    let bits = vec![row(1, 0, Gate::BitDecomp), row(1, 0, Gate::Off), row(5, 91, Gate::Off)];
    assert!(!check_gate(&curve, Gate::BitDecomp, &bits));
    // on y^2 = x^3 - 17: 1^3 - 17 = -16, and 4^2 = 16 is not -16
    assert!(!check_gate(&curve, Gate::OnCurve, &vec![row(1, 4, Gate::OnCurve)]));
    // on y^2 = x^3 - 11: 3^3 - 11 = 16 = 4^2
    let mut other = curve;
    other.b = Fe::from_u64(11).neg();
    assert!(check_gate(&other, Gate::OnCurve, &vec![row(3, 4, Gate::OnCurve)]));
    assert!(!check_gate(&other, Gate::OnCurve, &vec![row(3, 5, Gate::OnCurve)]));
}

#[test]
fn gates_and_their_rows() {
    assert_eq!(Gate::Off.rows(), 1);
    assert_eq!(Gate::Add.rows(), 2);
    assert_eq!(Gate::Mul.rows(), 2);
    assert_eq!(Gate::Zero.rows(), 1);
    assert_eq!(Gate::BitDecomp.rows(), 3);
    assert_eq!(Gate::OnCurve.rows(), 1);
    assert_eq!(Gate::Double.rows(), 5);
    assert_eq!(Gate::CondAdd.rows(), 14);
    assert_eq!(cell_at(3, Column::B), Cell { row: 3, column: Column::B });
}

#[test]
fn circuits_without_witnesses_hold_zeros() {
    let config = ArithTestCircuit::configure();
    let one = Fe::one();
    let arith = ArithTestCircuit { f1: one, f2: one, f3: one, f4: one, f5: [one; 6] };
    let empty = arith.without_witnesses();
    assert!(empty.f1.is_zero() && empty.f4.is_zero() && empty.f5[5].is_zero());
    // 0 + 0 = 0, 0 * 0 = 0, and 0 = 16 * 0 + 0
    let region = empty.synthesize(config, ARITH_ROWS).unwrap();
    assert_eq!(region.len(), 112);
    assert!(is_satisfied(&region, &config));
    assert!(!is_satisfied(&arith.synthesize(config, 1 << 10).unwrap(), &config));
    assert_eq!(arith.synthesize(config, ARITH_ROWS - 1).unwrap_err(), Error::NotEnoughRows);

    let p = native_ecc::curve::AffinePoint { x: one, y: one };
    let s = Scalar { low: 5, high: 0 };
    let ec = ECTestCircuit { s, p1: p, p2: p, p3: p, p4: p, p5: p };
    let empty = ec.without_witnesses();
    assert!(empty.p1.is_identity() && empty.p5.is_identity() && empty.s.is_zero());
    let mul = ScalarMulTestCircuit { s, p1: p, p2: p, p3: p, p4: p, p5: p };
    let empty = mul.without_witnesses();
    assert!(empty.p1.is_identity() && empty.p5.is_identity() && empty.s.is_zero());
    // the point at infinity is no point of the curve
    assert!(!is_satisfied(&empty.synthesize(config, 1 << 13).unwrap(), &config));
}
