//! The tax model: a levy on one designated token, apart from the trade fee.
use vstd::prelude::*;

use crate::fees::{denom, fee_of, floor_div, lemma_fee_bounds, FEE_RATE_DENOMINATOR_VALUE};

verus! {

/// The tax taken from `amount` at `tax_rate`: `floor(amount * tax_rate / D)`.
/// Zero at a zero rate; the whole amount at the full rate.
pub fn tax_amount(amount: u64, tax_rate: u64) -> (r: Option<u128>)
    ensures
        r matches Some(v) && v == fee_of(amount as int, tax_rate as int),
        tax_rate == 0 ==> r == Some(0u128),
        tax_rate == FEE_RATE_DENOMINATOR_VALUE ==> r == Some(amount as u128),
        tax_rate <= FEE_RATE_DENOMINATOR_VALUE ==> (r matches Some(v) && v <= amount),
{
    proof {
        assert(amount * tax_rate <= u64::MAX * u64::MAX) by (nonlinear_arith);
        assert(fee_of(amount as int, 0) == 0);
        assert(amount * denom() / denom() == amount) by (nonlinear_arith)
            requires
                denom() > 0,
        ;
        if tax_rate <= FEE_RATE_DENOMINATOR_VALUE {
            lemma_fee_bounds(amount as int, tax_rate as int);
        }
    }
    floor_div(amount as u128, tax_rate as u128, FEE_RATE_DENOMINATOR_VALUE as u128)
}

} // verus!
