use orion_runtime::fee::{FeeCoefficient, WeightToFee};
use orion_runtime::weight::Weight;

fn w(ref_time: u64) -> Weight {
    Weight::from_parts(ref_time, 0)
}

fn linear(base_fee: u128, coeff_integer: u128, coeff_frac: u32) -> WeightToFee {
    WeightToFee::new(base_fee, FeeCoefficient { coeff_integer, coeff_frac })
}

#[test]
fn fee_of_the_reference_scenario() {
    let f = linear(1_000_000_000_000_000, 1_000_000, 0);
    assert_eq!(f.fee_for(w(1_000_000_000)), 2_000_000_000_000_000);
}

#[test]
fn fee_of_zero_weight_is_the_base_fee() {
    let f = linear(1_000_000_000_000_000, 1_000_000, 250_000_000);
    assert_eq!(f.fee_for(w(0)), 1_000_000_000_000_000);
}

#[test]
fn fee_ignores_proof_size() {
    let f = linear(7, 3, 0);
    assert_eq!(f.fee_for(Weight::from_parts(10, 0)), 37);
    assert_eq!(f.fee_for(Weight::from_parts(10, 999)), 37);
}

#[test]
fn fractional_slope_is_rounded_to_nearest() {
    let half = linear(0, 0, 500_000_000);
    assert_eq!(half.fee_for(w(10)), 5);
    assert_eq!(half.fee_for(w(3)), 1);
    assert_eq!(half.fee_for(w(1)), 0);
    let just_over_half = linear(0, 0, 500_000_001);
    assert_eq!(just_over_half.fee_for(w(1)), 1);
    let third = linear(0, 0, 333_333_333);
    assert_eq!(third.fee_for(w(3)), 1);
    assert_eq!(third.fee_for(w(3_000_000_000)), 999_999_999);
}

#[test]
fn whole_and_fraction_add_up() {
    let f = linear(100, 2, 250_000_000);
    assert_eq!(f.fee_for(w(8)), 100 + 16 + 2);
    assert_eq!(f.fee_for(w(u64::MAX)), 100 + 2 * (u64::MAX as u128) + 4_611_686_018_427_387_904);
}

#[test]
fn fee_saturates_at_the_largest_balance() {
    let f = linear(1, u128::MAX, 0);
    assert_eq!(f.fee_for(w(1)), u128::MAX);
    assert_eq!(f.fee_for(w(u64::MAX)), u128::MAX);
    let g = linear(u128::MAX, 0, 1_000_000_000);
    assert_eq!(g.fee_for(w(0)), u128::MAX);
    assert_eq!(g.fee_for(w(5)), u128::MAX);
    let h = linear(u128::MAX - 10, 1, 0);
    assert_eq!(h.fee_for(w(10)), u128::MAX);
    assert_eq!(h.fee_for(w(9)), u128::MAX - 1);
}

#[test]
fn fee_is_monotonic_on_samples() {
    let f = linear(12_345, 3, 123_456_789);
    let samples: Vec<u64> = vec![
        0,
        1,
        2,
        7,
        8,
        9,
        999_999_999,
        1_000_000_000,
        1_000_000_001,
        u64::MAX - 1,
        u64::MAX,
    ];
    let mut last: u128 = 0;
    for s in samples {
        let fee = f.fee_for(w(s));
        assert!(fee >= last);
        last = fee;
    }
}

#[test]
fn a_fraction_above_one_counts_as_one() {
    let f = linear(0, 0, 2_000_000_000);
    assert_eq!(f.coeff().coeff_frac, 1_000_000_000);
    assert_eq!(f.fee_for(w(41)), 41);
    assert_eq!(f.base_fee(), 0);
}

#[test]
fn polynomial_splits_the_slope() {
    let c = WeightToFee::polynomial(3_000_000);
    assert_eq!(c.coeff_integer, 0);
    assert_eq!(c.coeff_frac, 333_333_333);
    let d = WeightToFee::polynomial(1);
    assert_eq!(d.coeff_integer, 1_000_000);
    assert_eq!(d.coeff_frac, 0);
    let e = WeightToFee::polynomial(400_000);
    assert_eq!(e.coeff_integer, 2);
    assert_eq!(e.coeff_frac, 500_000_000);
    let g = WeightToFee::polynomial(125_000_000);
    assert_eq!(g.coeff_integer, 0);
    assert_eq!(g.coeff_frac, 8_000_000);
    let h = WeightToFee::polynomial(u64::MAX);
    assert_eq!(h.coeff_integer, 0);
    assert_eq!(h.coeff_frac, 0);
}

#[test]
fn base_weight_costs_the_configured_amount() {
    let f = WeightToFee::new(0, WeightToFee::polynomial(125_000_000));
    assert_eq!(f.fee_for(w(125_000_000)), 1_000_000);
    assert_eq!(f.fee_for(w(1_000_000_000_000)), 8_000_000_000);
}

#[test]
fn multiplier_scales_the_fee() {
    let f = linear(1_000, 1, 0);
    let one: u128 = 1_000_000_000_000_000_000;
    assert_eq!(f.adjusted_fee_for(w(500), one), 1_500);
    assert_eq!(f.adjusted_fee_for(w(500), 2 * one), 3_000);
    assert_eq!(f.adjusted_fee_for(w(500), one / 2), 750);
    assert_eq!(f.adjusted_fee_for(w(500), 0), 0);
    assert_eq!(f.adjusted_fee_for(w(1), one / 2), 500);
    assert_eq!(linear(3, 0, 0).adjusted_fee_for(w(0), one / 2), 1);
}

#[test]
fn multiplied_fee_saturates() {
    let f = linear(u128::MAX, 0, 0);
    let one: u128 = 1_000_000_000_000_000_000;
    assert_eq!(f.adjusted_fee_for(w(0), one), u128::MAX);
    assert_eq!(f.adjusted_fee_for(w(0), 2 * one), u128::MAX);
    assert_eq!(f.adjusted_fee_for(w(0), u128::MAX), u128::MAX);
}
