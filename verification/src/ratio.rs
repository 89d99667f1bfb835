//! Parts-per-billion ratios, computed by `sp_arithmetic::Perbill`.

use vstd::prelude::*;

verus! {

/// The number of parts that make one whole.
pub const BILLION: u32 = 1_000_000_000;

/// `y` divided by a billion and rounded to the nearest integer, a tie going down.
pub open spec fn nearest_billionth(y: int) -> int {
    y / 1_000_000_000 + if y % 1_000_000_000 > 500_000_000 { 1int } else { 0int }
}

/// `x` times `parts` billionths: the whole billions of `x` are multiplied
/// exactly, and only the product of the rest is rounded.
pub open spec fn scaled(parts: u32, x: u128) -> int {
    (x as int / 1_000_000_000) * (parts as int)
        + nearest_billionth((x as int % 1_000_000_000) * (parts as int))
}

/// The largest number of billionths that does not exceed `p / q`.
pub open spec fn ratio_parts(p: u128, q: u128) -> int {
    (1_000_000_000 * (p as int)) / (q as int)
}

/// Calls `Perbill::from_rational` of sp_arithmetic and takes the parts out of
/// the result with `deconstruct`. For a divisor that is not zero and a
/// numerator that does not exceed it, the crate multiplies a billion by `p` in
/// double width, divides by `q` and rounds down; that quotient is claimed here.
#[verifier::external_body]
pub(crate) fn perbill_from_rational(p: u128, q: u128) -> (parts: u32)
    requires
        0 < q,
        p <= q,
    ensures
        parts as int == ratio_parts(p, q),
{
    sp_arithmetic::Perbill::from_rational(p, q).deconstruct()
}

/// Calls `Perbill::from_parts` of sp_arithmetic and multiplies the result by
/// `x` with the crate's `Mul` impl. The crate computes
/// `(x / 10^9) * parts` and adds the product of the remainder and `parts`,
/// divided by `10^9` and rounded to the nearest integer with a tie going
/// down; that sum is claimed here.
#[verifier::external_body]
pub(crate) fn perbill_mul(parts: u32, x: u128) -> (r: u128)
    requires
        parts <= BILLION,
    ensures
        r as int == scaled(parts, x),
{
    sp_arithmetic::Perbill::from_parts(parts) * x
}

/// The product of `x` and a multiplier counted in parts of `10^18`, rounded
/// down and cut off at the largest value.
pub open spec fn fixed_product(multiplier: u128, x: u128) -> u128 {
    let exact = ((multiplier as int) * (x as int)) / 1_000_000_000_000_000_000;
    if exact > u128::MAX {
        u128::MAX
    } else {
        exact as u128
    }
}

/// Calls `FixedU128::from_inner` of sp_arithmetic and `saturating_mul_int` on
/// the result. The crate multiplies the inner value by `x` in double width,
/// divides by `10^18` rounding down, and gives the largest value where the
/// quotient does not fit; that is claimed here.
#[verifier::external_body]
pub(crate) fn fixed_mul_int(multiplier: u128, x: u128) -> (r: u128)
    ensures
        r == fixed_product(multiplier, x),
{
    sp_arithmetic::FixedPointNumber::saturating_mul_int(
        sp_arithmetic::FixedU128::from_inner(multiplier),
        x,
    )
}

/// Scaling by a ratio is the exact product rounded once.
pub proof fn lemma_scaled_is_rounded_product(parts: u32, x: u128)
    ensures
        scaled(parts, x) == nearest_billionth((x as int) * (parts as int)),
{
    let a = x as int / 1_000_000_000;
    let r = x as int % 1_000_000_000;
    let p = parts as int;
    assert((x as int) * p == 1_000_000_000 * (a * p) + r * p) by (nonlinear_arith)
        requires
            x as int == 1_000_000_000 * a + r,
    ;
    let k = a * p;
    let y = r * p;
    assert((1_000_000_000 * k + y) / 1_000_000_000 == k + y / 1_000_000_000);
    assert((1_000_000_000 * k + y) % 1_000_000_000 == y % 1_000_000_000);
}

/// Scaling never exceeds the scaled amount, and a larger amount gives no
/// smaller result.
pub proof fn lemma_scaled_monotonic(parts: u32, x1: u128, x2: u128)
    requires
        parts <= BILLION,
        x1 <= x2,
    ensures
        0 <= scaled(parts, x1) <= scaled(parts, x2) <= x2,
{
    lemma_scaled_is_rounded_product(parts, x1);
    lemma_scaled_is_rounded_product(parts, x2);
    let p = parts as int;
    let y1 = (x1 as int) * p;
    let y2 = (x2 as int) * p;
    assert(0 <= y1 <= y2 <= (x2 as int) * 1_000_000_000) by (nonlinear_arith)
        requires
            0 <= x1 as int <= x2 as int,
            0 <= p <= 1_000_000_000,
            y1 == (x1 as int) * p,
            y2 == (x2 as int) * p,
    ;
}

} // verus!
