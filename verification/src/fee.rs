//! Conversion of a weight into a fee: a linear function of the reference time.

use vstd::prelude::*;
use crate::ratio::{
    fixed_mul_int, fixed_product, lemma_scaled_monotonic, perbill_from_rational, perbill_mul,
    ratio_parts, scaled, BILLION,
};
use crate::weight::Weight;

verus! {

/// An amount on the ledger, with eighteen fractional digits.
pub type Balance = u128;

/// What the base weight of an extrinsic costs, in ledger units, when the
/// slope is derived from that weight.
pub const FEE_PER_BASE_WEIGHT: u128 = 1_000_000;

/// The slope of the fee: a whole number of ledger units per unit of reference
/// time, plus a fraction counted in billionths.
#[derive(Clone, Copy, Debug, PartialEq, Eq, Structural)]
pub struct FeeCoefficient {
    pub coeff_integer: Balance,
    pub coeff_frac: u32,
}

/// `v` cut off at the largest balance.
pub open spec fn saturate(v: int) -> Balance {
    if v > u128::MAX {
        u128::MAX
    } else if v < 0 {
        0
    } else {
        v as u128
    }
}

/// The fee before it is cut off at the largest balance.
pub open spec fn exact_fee(base_fee: Balance, coeff: FeeCoefficient, ref_time: u64) -> int {
    base_fee as int + (coeff.coeff_integer as int) * (ref_time as int) + scaled(
        coeff.coeff_frac,
        ref_time as u128,
    )
}

/// Converts weight to fee.
#[derive(Clone, Copy, Debug)]
pub struct WeightToFee {
    base_fee: Balance,
    coeff: FeeCoefficient,
}

impl WeightToFee {
    #[verifier::type_invariant]
    spec fn inv(self) -> bool {
        self.well_formed()
    }

    /// The fractional part of the slope is at most one whole.
    pub open spec fn well_formed(self) -> bool {
        self.spec_coeff().coeff_frac <= BILLION
    }

    pub closed spec fn spec_base_fee(self) -> Balance {
        self.base_fee
    }

    pub closed spec fn spec_coeff(self) -> FeeCoefficient {
        self.coeff
    }

    /// The fee that this converter asks for `weight`.
    pub open spec fn spec_fee_for(self, weight: Weight) -> Balance {
        saturate(exact_fee(self.spec_base_fee(), self.spec_coeff(), weight.ref_time))
    }

    /// A converter with the given base fee and slope. A fraction above one
    /// whole counts as one whole.
    pub fn new(base_fee: Balance, coeff: FeeCoefficient) -> (f: WeightToFee)
        ensures
            f.well_formed(),
            f.spec_base_fee() == base_fee,
            f.spec_coeff().coeff_integer == coeff.coeff_integer,
            f.spec_coeff().coeff_frac == if coeff.coeff_frac <= BILLION {
                coeff.coeff_frac
            } else {
                BILLION
            },
    {
        let frac: u32 = if coeff.coeff_frac <= BILLION {
            coeff.coeff_frac
        } else {
            BILLION
        };
        WeightToFee { base_fee, coeff: FeeCoefficient { coeff_integer: coeff.coeff_integer, coeff_frac: frac } }
    }

    /// The slope at which `base_ref_time` units of reference time cost
    /// `FEE_PER_BASE_WEIGHT` ledger units.
    pub fn polynomial(base_ref_time: u64) -> (c: FeeCoefficient)
        requires
            base_ref_time > 0,
        ensures
            c.coeff_integer == FEE_PER_BASE_WEIGHT / (base_ref_time as u128),
            c.coeff_frac as int == ratio_parts(
                FEE_PER_BASE_WEIGHT % (base_ref_time as u128),
                base_ref_time as u128,
            ),
            c.coeff_frac < BILLION,
    {
        let p: u128 = FEE_PER_BASE_WEIGHT;
        let q: u128 = base_ref_time as u128;
        let frac: u32 = perbill_from_rational(p % q, q);
        assert(ratio_parts(p % q, q) < 1_000_000_000) by (nonlinear_arith)
            requires
                0 <= p % q < q,
                ratio_parts(p % q, q) == (1_000_000_000 * ((p % q) as int)) / (q as int),
        ;
        FeeCoefficient { coeff_integer: p / q, coeff_frac: frac }
    }

    pub fn base_fee(&self) -> (b: Balance)
        ensures
            b == self.spec_base_fee(),
    {
        self.base_fee
    }

    pub fn coeff(&self) -> (c: FeeCoefficient)
        ensures
            c == self.spec_coeff(),
            c.coeff_frac <= BILLION,
    {
        proof {
            use_type_invariant(self);
        }
        self.coeff
    }

    /// The fee for `weight`: the base fee plus the slope times the reference
    /// time, cut off at the largest balance.
    pub fn fee_for(&self, weight: Weight) -> (fee: Balance)
        ensures
            fee == self.spec_fee_for(weight),
    {
        proof {
            use_type_invariant(self);
            lemma_scaled_monotonic(self.coeff.coeff_frac, weight.ref_time as u128, weight.ref_time as u128);
        }
        let w: u128 = weight.ref_time as u128;
        let frac: u128 = perbill_mul(self.coeff.coeff_frac, w);
        match self.coeff.coeff_integer.checked_mul(w) {
            Some(whole) => self.base_fee.saturating_add(whole).saturating_add(frac),
            None => {
                assert((self.coeff.coeff_integer as int) * (weight.ref_time as int) > u128::MAX);
                u128::MAX
            },
        }
    }
}

impl WeightToFee {
    /// The fee for `weight` after the block's multiplier, which counts in
    /// parts of `10^18`, was applied to it.
    pub open spec fn spec_adjusted_fee_for(self, weight: Weight, multiplier: u128) -> Balance {
        fixed_product(multiplier, self.spec_fee_for(weight))
    }

    /// The fee for `weight` times the block's fee multiplier, rounded down
    /// and cut off at the largest balance. `multiplier` counts in parts of
    /// `10^18`: that value leaves the fee as it is.
    pub fn adjusted_fee_for(&self, weight: Weight, multiplier: u128) -> (fee: Balance)
        ensures
            fee == self.spec_adjusted_fee_for(weight, multiplier),
    {
        fixed_mul_int(multiplier, self.fee_for(weight))
    }
}

/// A heavier extrinsic never pays less: the fee does not decrease when the
/// reference time grows.
pub proof fn lemma_fee_monotonic(f: WeightToFee, w1: Weight, w2: Weight)
    requires
        f.well_formed(),
        w1.ref_time <= w2.ref_time,
    ensures
        f.spec_fee_for(w1) <= f.spec_fee_for(w2),
{
    lemma_scaled_monotonic(f.coeff.coeff_frac, w1.ref_time as u128, w2.ref_time as u128);
    assert((f.coeff.coeff_integer as int) * (w1.ref_time as int) <= (f.coeff.coeff_integer as int)
        * (w2.ref_time as int)) by (nonlinear_arith)
        requires
            w1.ref_time <= w2.ref_time,
            0 <= f.coeff.coeff_integer,
    ;
}

} // verus!
