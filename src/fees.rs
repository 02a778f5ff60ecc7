//! Fee arithmetic: the floor-division primitive, the fee splitter and the
//! inverse (pre-fee) computation.
use vstd::prelude::*;

verus! {

/// Every rate is a numerator over this denominator.
pub const FEE_RATE_DENOMINATOR_VALUE: u64 = 1_000_000;

/// The fee denominator as a mathematical integer.
pub open spec fn denom() -> int {
    FEE_RATE_DENOMINATOR_VALUE as int
}

/// `floor(amount * rate / denominator)`: the fee (or tax) taken from `amount`.
pub open spec fn fee_of(amount: int, rate: int) -> int {
    amount * rate / denom()
}

/// `ceil(post * denominator / (denominator - rate))`: the smallest amount whose
/// exact (unrounded) fee-deducted value reaches `post`.
pub open spec fn pre_fee_of(post: int, rate: int) -> int {
    if rate == 0 {
        post
    } else {
        (post * denom() + (denom() - rate) - 1) / (denom() - rate)
    }
}

/// The protocol's total cut of a trade fee, before the fund's part is carved out.
pub open spec fn protocol_total_of(trade_fee: int, protocol_fee_rate: int) -> int {
    fee_of(trade_fee, protocol_fee_rate)
}

/// The fund's cut: taken from the protocol's total, not from the trade fee.
pub open spec fn fund_fee_of(trade_fee: int, protocol_fee_rate: int, fund_fee_rate: int) -> int {
    fee_of(protocol_total_of(trade_fee, protocol_fee_rate), fund_fee_rate)
}

/// What stays with the protocol once the fund's cut is taken.
pub open spec fn protocol_fee_of(trade_fee: int, protocol_fee_rate: int, fund_fee_rate: int) -> int {
    protocol_total_of(trade_fee, protocol_fee_rate) - fund_fee_of(
        trade_fee,
        protocol_fee_rate,
        fund_fee_rate,
    )
}

/// A fee never exceeds its base when the rate is at most the denominator,
/// and `fee * denominator` never exceeds `amount * rate`.
pub proof fn lemma_fee_bounds(amount: int, rate: int)
    requires
        0 <= amount,
        0 <= rate <= denom(),
    ensures
        0 <= fee_of(amount, rate) <= amount,
        fee_of(amount, rate) * denom() <= amount * rate,
        amount * rate < (fee_of(amount, rate) + 1) * denom(),
{
    let d = denom();
    assert(0 <= amount * rate <= amount * d) by (nonlinear_arith)
        requires
            0 <= amount,
            0 <= rate <= d,
    ;
    assert(amount * d / d == amount) by (nonlinear_arith)
        requires
            d > 0,
    ;
    assert((amount * rate) / d <= (amount * d) / d) by (nonlinear_arith)
        requires
            d > 0,
            amount * rate <= amount * d,
    ;
    assert(fee_of(amount, rate) * d <= amount * rate < (fee_of(amount, rate) + 1) * d)
        by (nonlinear_arith)
        requires
            d > 0,
            fee_of(amount, rate) == (amount * rate) / d,
    ;
}

/// A fee grows with its base.
pub proof fn lemma_fee_monotonic(a: int, b: int, rate: int)
    requires
        0 <= a <= b,
        0 <= rate,
    ensures
        fee_of(a, rate) <= fee_of(b, rate),
{
    let d = denom();
    assert((a * rate) / d <= (b * rate) / d) by (nonlinear_arith)
        requires
            0 <= a <= b,
            0 <= rate,
            d > 0,
    ;
}

/// Two fees on one base, rounded down apart, add up to no more than the fee
/// at the summed rate.
pub proof fn lemma_fee_sum(amount: int, r1: int, r2: int)
    requires
        0 <= amount,
        0 <= r1,
        0 <= r2,
    ensures
        fee_of(amount, r1) + fee_of(amount, r2) <= fee_of(amount, r1 + r2),
{
    let d = denom();
    let f1 = fee_of(amount, r1);
    let f2 = fee_of(amount, r2);
    assert(f1 * d <= amount * r1 && f2 * d <= amount * r2) by (nonlinear_arith)
        requires
            d > 0,
            f1 == (amount * r1) / d,
            f2 == (amount * r2) / d,
    ;
    assert((f1 + f2) * d <= amount * (r1 + r2)) by (nonlinear_arith)
        requires
            f1 * d <= amount * r1,
            f2 * d <= amount * r2,
    ;
    assert(f1 + f2 <= (amount * (r1 + r2)) / d) by (nonlinear_arith)
        requires
            d > 0,
            (f1 + f2) * d <= amount * (r1 + r2),
    ;
}

/// `floor(token_amount * fee_numerator / fee_denominator)`, or `None` when
/// the product does not fit in 128 bits or the denominator is zero.
pub fn floor_div(token_amount: u128, fee_numerator: u128, fee_denominator: u128) -> (r: Option<u128>)
    ensures
        r is Some <==> (fee_denominator > 0 && token_amount * fee_numerator <= u128::MAX),
        r matches Some(v) ==> v == token_amount * fee_numerator / (fee_denominator as int),
{
    match token_amount.checked_mul(fee_numerator) {
        Some(p) => p.checked_div(fee_denominator),
        None => None,
    }
}

/// `ceil(token_amount * fee_numerator / fee_denominator)`, or `None` when an
/// intermediate value does not fit in 128 bits or the denominator is zero.
pub fn ceil_div(token_amount: u128, fee_numerator: u128, fee_denominator: u128) -> (r: Option<u128>)
    ensures
        r is Some <==> (fee_denominator > 0 && token_amount * fee_numerator + fee_denominator - 1
            <= u128::MAX),
        r matches Some(v) ==> v == (token_amount * fee_numerator + fee_denominator - 1) / (
        fee_denominator as int),
{
    if fee_denominator == 0 {
        return None;
    }
    match token_amount.checked_mul(fee_numerator) {
        Some(p) => match p.checked_add(fee_denominator - 1) {
            Some(s) => Some(s / fee_denominator),
            None => None,
        },
        None => None,
    }
}

/// The fee taken from `amount` at `fee_rate`, rounded down.
pub fn fee_amount(amount: u64, fee_rate: u64) -> (r: u64)
    requires
        fee_rate <= FEE_RATE_DENOMINATOR_VALUE,
    ensures
        r == fee_of(amount as int, fee_rate as int),
        r <= amount,
{
    proof {
        lemma_fee_bounds(amount as int, fee_rate as int);
        assert(amount * fee_rate <= u64::MAX * u64::MAX) by (nonlinear_arith);
    }
    let p: u128 = (amount as u128) * (fee_rate as u128);
    (p / (FEE_RATE_DENOMINATOR_VALUE as u128)) as u64
}

/// Splits a trade fee into `(protocol_fee, fund_fee)`. The protocol's total
/// is `floor(trade_fee * protocol_fee_rate / D)`; the fund's part is carved
/// out of that total at `fund_fee_rate`; what the two leave of the trade fee
/// stays with the liquidity providers.
pub fn split_trade_fee(trade_fee: u64, protocol_fee_rate: u64, fund_fee_rate: u64) -> (r: (
    u64,
    u64,
))
    requires
        protocol_fee_rate <= FEE_RATE_DENOMINATOR_VALUE,
        fund_fee_rate <= FEE_RATE_DENOMINATOR_VALUE,
    ensures
        r.0 == protocol_fee_of(trade_fee as int, protocol_fee_rate as int, fund_fee_rate as int),
        r.1 == fund_fee_of(trade_fee as int, protocol_fee_rate as int, fund_fee_rate as int),
        r.0 + r.1 == protocol_total_of(trade_fee as int, protocol_fee_rate as int),
        r.0 + r.1 <= trade_fee,
        r.1 <= protocol_total_of(trade_fee as int, protocol_fee_rate as int),
{
    let protocol_total = fee_amount(trade_fee, protocol_fee_rate);
    let fund_fee = fee_amount(protocol_total, fund_fee_rate);
    (protocol_total - fund_fee, fund_fee)
}

/// Inverts the fee: `ceil(post_fee_amount * D / (D - fee_rate))`. Taking
/// the rounded-down fee from the result leaves at least `post_fee_amount`, so
/// no upward correction is ever needed. `None` when `fee_rate` is the whole
/// denominator or more (no amount survives such a fee), or on overflow.
pub fn calculate_pre_fee_amount(post_fee_amount: u128, fee_rate: u64) -> (r: Option<u128>)
    ensures
        r is Some <==> (fee_rate == 0 || (fee_rate < FEE_RATE_DENOMINATOR_VALUE && post_fee_amount
            * denom() + (denom() - fee_rate) - 1 <= u128::MAX)),
        r matches Some(v) ==> {
            &&& v == pre_fee_of(post_fee_amount as int, fee_rate as int)
            &&& v >= post_fee_amount
            &&& v - fee_of(v as int, fee_rate as int) >= post_fee_amount
        },
{
    if fee_rate == 0 {
        return Some(post_fee_amount);
    }
    if fee_rate >= FEE_RATE_DENOMINATOR_VALUE {
        return None;
    }
    let denominator: u128 = (FEE_RATE_DENOMINATOR_VALUE - fee_rate) as u128;
    let r = ceil_div(post_fee_amount, FEE_RATE_DENOMINATOR_VALUE as u128, denominator);
    proof {
        if let Some(v) = r {
            lemma_pre_fee_covers(post_fee_amount as int, fee_rate as int);
        }
    }
    r
}

/// The pre-fee amount covers the post-fee amount, and after its fee is taken
/// at least the post-fee amount is left.
pub proof fn lemma_pre_fee_covers(post: int, rate: int)
    requires
        0 <= post,
        0 <= rate < denom(),
    ensures
        pre_fee_of(post, rate) >= post,
        pre_fee_of(post, rate) - fee_of(pre_fee_of(post, rate), rate) >= post,
{
    let d = denom();
    let pre = pre_fee_of(post, rate);
    if rate > 0 {
        let e = d - rate;
        assert(pre * e >= post * d) by (nonlinear_arith)
            requires
                e > 0,
                pre == (post * d + e - 1) / e,
        ;
        assert(pre >= post) by (nonlinear_arith)
            requires
                e > 0,
                e <= d,
                post >= 0,
                pre * e >= post * d,
        ;
        // pre - pre*rate/d >= post because pre*(d - rate) >= post*d
        let f = fee_of(pre, rate);
        assert(f * d <= pre * rate) by (nonlinear_arith)
            requires
                d > 0,
                f == (pre * rate) / d,
        ;
        assert(pre - f >= post) by (nonlinear_arith)
            requires
                d > 0,
                e == d - rate,
                pre * e >= post * d,
                f * d <= pre * rate,
        ;
    } else {
        assert(fee_of(pre, 0) == 0) by (nonlinear_arith)
            requires
                d > 0,
        ;
    }
}

} // verus!
