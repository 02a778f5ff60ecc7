//! The two swap quotes. Each reads the ledger, strips or grosses up tax,
//! prices against the effective reserves, checks the pool invariant and
//! returns an immutable quote; nothing is mutated until the caller applies
//! the quote with `PoolState::apply_swap`.
use vstd::prelude::*;

use crate::curve::{
    exact_in_defined, exact_out_defined, gross_input_for_output, is_exact_in_result,
    is_exact_out_result, CurveCalculator, FeeRates, SwapResult, TradeDirection,
};
use crate::error::ErrorCode;
use crate::fees::{calculate_pre_fee_amount, denom, fee_of, pre_fee_of, FEE_RATE_DENOMINATOR_VALUE};
use crate::pool::{AmmConfig, PoolState, PoolStatusBitIndex};
use crate::tax::tax_amount;

verus! {

/// A priced swap, ready to be settled.
#[derive(Clone, Copy, Debug, PartialEq, Eq, Structural)]
pub struct SwapQuote {
    pub direction: TradeDirection,
    /// Effective input reserve the swap was priced against.
    pub total_input_token_amount: u64,
    /// Effective output reserve the swap was priced against.
    pub total_output_token_amount: u64,
    /// Exact input: what the trader sends. Exact output: what the input
    /// vault must receive, before the input token's own transfer fee.
    pub amount_in: u64,
    /// What the output vault sends, before the output token's own transfer fee.
    pub amount_out: u64,
    /// Tax withheld, in the tax token.
    pub tax_amount: u64,
    /// Protocol fee accrued, in the input token.
    pub protocol_fee: u64,
    /// Fund fee accrued, in the input token.
    pub fund_fee: u64,
    /// The curve's result.
    pub result: SwapResult,
}

/// `a - b`, or zero when `b` exceeds `a`.
pub open spec fn saturating_sub(a: int, b: int) -> int {
    if a >= b {
        a - b
    } else {
        0
    }
}

/// Tax on the input of a trade in `direction`, when it applies.
pub open spec fn in_tax_on(pool: PoolState, direction: TradeDirection, amount: int) -> int {
    if pool.has_in_tax(direction) {
        fee_of(amount, pool.in_tax_rate as int)
    } else {
        0
    }
}

/// Tax on the output of a trade in `direction`, when it applies.
pub open spec fn out_tax_on(pool: PoolState, direction: TradeDirection, amount: int) -> int {
    if pool.has_out_tax(direction) {
        fee_of(amount, pool.out_tax_rate as int)
    } else {
        0
    }
}

/// Whether the vault balances cover what has accrued in each token.
pub open spec fn reserves_defined(
    pool: PoolState,
    direction: TradeDirection,
    input_vault: int,
    output_vault: int,
) -> bool {
    match direction {
        TradeDirection::ZeroForOne => pool.accrued_0() <= input_vault && pool.accrued_1()
            <= output_vault,
        TradeDirection::OneForZero => pool.accrued_1() <= input_vault && pool.accrued_0()
            <= output_vault,
    }
}

/// Effective input reserve: the input vault less what has accrued in its token.
pub open spec fn input_reserve(pool: PoolState, direction: TradeDirection, input_vault: int) -> int {
    match direction {
        TradeDirection::ZeroForOne => input_vault - pool.accrued_0(),
        TradeDirection::OneForZero => input_vault - pool.accrued_1(),
    }
}

/// Effective output reserve: the output vault less what has accrued in its token.
pub open spec fn output_reserve(pool: PoolState, direction: TradeDirection, output_vault: int) -> int {
    match direction {
        TradeDirection::ZeroForOne => output_vault - pool.accrued_1(),
        TradeDirection::OneForZero => output_vault - pool.accrued_0(),
    }
}

/// Exact input: what reaches the curve once the input token's transfer fee
/// and any input tax are taken.
pub open spec fn exact_in_curve_input(
    pool: PoolState,
    direction: TradeDirection,
    amount_in: int,
    transfer_fee: int,
) -> int {
    let received = saturating_sub(amount_in, transfer_fee);
    received - in_tax_on(pool, direction, received)
}

/// Exact input: the error a quote ends with, or `None` when it succeeds.
pub open spec fn exact_in_error(
    pool: PoolState,
    config: AmmConfig,
    direction: TradeDirection,
    input_vault: int,
    output_vault: int,
    amount_in: int,
    transfer_fee: int,
    now: u64,
) -> Option<ErrorCode> {
    let actual = exact_in_curve_input(pool, direction, amount_in, transfer_fee);
    if !pool.swap_allowed(now) {
        Some(ErrorCode::NotApproved)
    } else if actual <= 0 {
        Some(ErrorCode::ZeroTradingTokens)
    } else if !reserves_defined(pool, direction, input_vault, output_vault) {
        Some(ErrorCode::ArithmeticOverflow)
    } else if !exact_in_defined(
        actual,
        input_reserve(pool, direction, input_vault),
        output_reserve(pool, direction, output_vault),
        pool.rates(config),
    ) {
        Some(ErrorCode::ZeroTradingTokens)
    } else {
        None
    }
}

/// Exact output: the output the curve must release, tax grossed up.
pub open spec fn out_with_tax(pool: PoolState, direction: TradeDirection, amount_out: int) -> int {
    if pool.has_out_tax(direction) {
        pre_fee_of(amount_out, pool.out_tax_rate as int)
    } else {
        amount_out
    }
}

/// Exact output: what the input vault must receive, tax grossed up.
pub open spec fn in_with_tax(pool: PoolState, direction: TradeDirection, gross: int) -> int {
    if pool.has_in_tax(direction) {
        pre_fee_of(gross, pool.in_tax_rate as int)
    } else {
        gross
    }
}

/// Exact output: the output the curve must release, tax and the output
/// token's transfer fee included.
pub open spec fn exact_out_curve_output(
    pool: PoolState,
    direction: TradeDirection,
    amount_out: int,
    transfer_fee: int,
) -> int {
    out_with_tax(pool, direction, amount_out) + transfer_fee
}

/// Exact output: the error a quote ends with, or `None` when it succeeds.
pub open spec fn exact_out_error(
    pool: PoolState,
    config: AmmConfig,
    direction: TradeDirection,
    input_vault: int,
    output_vault: int,
    amount_out: int,
    transfer_fee: int,
    now: u64,
) -> Option<ErrorCode> {
    let actual_out = exact_out_curve_output(pool, direction, amount_out, transfer_fee);
    let in_res = input_reserve(pool, direction, input_vault);
    let out_res = output_reserve(pool, direction, output_vault);
    let rates = pool.rates(config);
    let gross = gross_input_for_output(actual_out, in_res, out_res, rates);
    if !pool.swap_allowed(now) {
        Some(ErrorCode::NotApproved)
    } else if pool.has_out_tax(direction) && pool.out_tax_rate >= FEE_RATE_DENOMINATOR_VALUE {
        Some(ErrorCode::TaxCalculationFailed)
    } else if out_with_tax(pool, direction, amount_out) > u64::MAX {
        Some(ErrorCode::ArithmeticOverflow)
    } else if actual_out > u64::MAX {
        Some(ErrorCode::ArithmeticOverflow)
    } else if !reserves_defined(pool, direction, input_vault, output_vault) {
        Some(ErrorCode::ArithmeticOverflow)
    } else if !exact_out_defined(actual_out, in_res, out_res, rates) {
        Some(ErrorCode::ZeroTradingTokens)
    } else if pool.has_in_tax(direction) && pool.in_tax_rate >= FEE_RATE_DENOMINATOR_VALUE {
        Some(ErrorCode::TaxCalculationFailed)
    } else if in_with_tax(pool, direction, gross) > u64::MAX {
        Some(ErrorCode::ArithmeticOverflow)
    } else {
        None
    }
}

/// The effective reserves for a trade in `direction`, as (input, output).
fn reserves_for(pool: &PoolState, direction: TradeDirection, input_vault: u64, output_vault: u64) -> (r:
    Option<(u64, u64)>)
    ensures
        r is Some <==> reserves_defined(*pool, direction, input_vault as int, output_vault as int),
        r matches Some(v) ==> v.0 == input_reserve(*pool, direction, input_vault as int) && v.1
            == output_reserve(*pool, direction, output_vault as int),
{
    match direction {
        TradeDirection::ZeroForOne => pool.vault_amount_without_fee(input_vault, output_vault),
        TradeDirection::OneForZero => match pool.vault_amount_without_fee(
            output_vault,
            input_vault,
        ) {
            Some((output_reserve, input_reserve)) => Some((input_reserve, output_reserve)),
            None => None,
        },
    }
}

/// Checks the pool invariant on a priced swap: the product of the reserves
/// after it is at least the product before. A product past 128 bits is
/// larger than any product of two 64-bit reserves.
fn check_invariant(before_in: u64, before_out: u64, result: &SwapResult) -> (r: Result<
    (),
    ErrorCode,
>)
    ensures
        r is Ok <==> result.new_swap_source_amount * result.new_swap_destination_amount
            >= before_in * before_out,
        r is Err ==> r == Err::<(), ErrorCode>(ErrorCode::InvariantViolation),
{
    proof {
        assert(before_in * before_out <= u64::MAX * u64::MAX) by (nonlinear_arith);
    }
    let constant_before: u128 = (before_in as u128) * (before_out as u128);
    match result.new_swap_source_amount.checked_mul(result.new_swap_destination_amount) {
        Some(constant_after) => {
            if constant_after < constant_before {
                Err(ErrorCode::InvariantViolation)
            } else {
                Ok(())
            }
        },
        None => Ok(()),
    }
}

/// Quotes a swap of an exact input. `amount_in` is what the trader sends;
/// `input_transfer_fee` is what the input token itself deducts from that
/// transfer. Input tax is taken before the curve, output tax after it. The
/// quote's `amount_out` is what the output vault sends; the output token's
/// own fee on it is settled by `check_minimum_amount_out`.
pub fn swap_base_input(
    pool: &PoolState,
    config: &AmmConfig,
    direction: TradeDirection,
    input_vault_amount: u64,
    output_vault_amount: u64,
    amount_in: u64,
    input_transfer_fee: u64,
    block_timestamp: u64,
) -> (r: Result<SwapQuote, ErrorCode>)
    requires
        pool.wf(),
        pool.rates(*config).valid(),
    ensures
        ({
            let err = exact_in_error(
                *pool,
                *config,
                direction,
                input_vault_amount as int,
                output_vault_amount as int,
                amount_in as int,
                input_transfer_fee as int,
                block_timestamp,
            );
            let received = saturating_sub(amount_in as int, input_transfer_fee as int);
            let actual = exact_in_curve_input(
                *pool,
                direction,
                amount_in as int,
                input_transfer_fee as int,
            );
            match r {
                Err(e) => err == Some(e),
                Ok(q) => {
                    let out_tax = out_tax_on(
                        *pool,
                        direction,
                        q.result.destination_amount_swapped as int,
                    );
                    &&& err is None
                    &&& q.direction == direction
                    &&& q.total_input_token_amount == input_reserve(
                        *pool,
                        direction,
                        input_vault_amount as int,
                    )
                    &&& q.total_output_token_amount == output_reserve(
                        *pool,
                        direction,
                        output_vault_amount as int,
                    )
                    &&& is_exact_in_result(
                        q.result,
                        actual,
                        q.total_input_token_amount as int,
                        q.total_output_token_amount as int,
                        pool.rates(*config),
                    )
                    &&& q.amount_in == amount_in
                    &&& q.amount_out == q.result.destination_amount_swapped - out_tax
                    &&& q.tax_amount == if pool.has_in_tax(direction) {
                        in_tax_on(*pool, direction, received)
                    } else {
                        out_tax
                    }
                    &&& q.protocol_fee == q.result.protocol_fee
                    &&& q.fund_fee == q.result.fund_fee
                }
            }
        }),
{
    if !pool.get_status_by_bit(PoolStatusBitIndex::Swap) || block_timestamp < pool.open_time {
        return Err(ErrorCode::NotApproved);
    }
    let amount_in_without_transfer_fee = amount_in.saturating_sub(input_transfer_fee);
    let input_is_token_0 = match direction {
        TradeDirection::ZeroForOne => true,
        TradeDirection::OneForZero => false,
    };
    let has_out_tax = !pool.tax_disabled && pool.out_tax_rate > 0 && pool.tax_use_token_0
        != input_is_token_0;
    let has_in_tax = !pool.tax_disabled && pool.in_tax_rate > 0 && pool.tax_use_token_0
        == input_is_token_0;
    let in_tax: u64 = if has_in_tax {
        match tax_amount(amount_in_without_transfer_fee, pool.in_tax_rate) {
            Some(t) => t as u64,
            None => return Err(ErrorCode::TaxCalculationFailed),
        }
    } else {
        0
    };
    let actual_amount_in = amount_in_without_transfer_fee - in_tax;
    if actual_amount_in == 0 {
        return Err(ErrorCode::ZeroTradingTokens);
    }
    let (total_input_token_amount, total_output_token_amount) = match reserves_for(
        pool,
        direction,
        input_vault_amount,
        output_vault_amount,
    ) {
        Some(v) => v,
        None => return Err(ErrorCode::ArithmeticOverflow),
    };
    let rates = FeeRates {
        trade_fee_rate: config.trade_fee_rate,
        protocol_fee_rate: config.protocol_fee_rate,
        fund_fee_rate: config.fund_fee_rate,
        lp_fee_rate: pool.lp_fee_rate,
    };
    let result = match CurveCalculator::swap_base_input(
        actual_amount_in,
        total_input_token_amount,
        total_output_token_amount,
        &rates,
    ) {
        Some(res) => res,
        None => return Err(ErrorCode::ZeroTradingTokens),
    };
    match check_invariant(total_input_token_amount, total_output_token_amount, &result) {
        Ok(()) => {},
        Err(e) => return Err(e),
    }
    let destination = result.destination_amount_swapped as u64;
    let out_tax: u64 = if has_out_tax {
        match tax_amount(destination, pool.out_tax_rate) {
            Some(t) => t as u64,
            None => return Err(ErrorCode::TaxCalculationFailed),
        }
    } else {
        0
    };
    let amount_out = destination - out_tax;
    let tax: u64 = if has_in_tax {
        in_tax
    } else {
        out_tax
    };
    Ok(
        SwapQuote {
            direction,
            total_input_token_amount,
            total_output_token_amount,
            amount_in,
            amount_out,
            tax_amount: tax,
            protocol_fee: result.protocol_fee as u64,
            fund_fee: result.fund_fee as u64,
            result,
        },
    )
}

/// Quotes a swap of an exact output. `amount_out_less_fee` is what the
/// trader must end up with; `output_transfer_fee` is what the output token
/// itself deducts when `amount_out_less_fee` plus that fee is sent. Output
/// tax grosses up the amount the curve releases; input tax grosses up the
/// curve's input the same way trade fees are inverted. The quote's
/// `amount_in` is what the input vault must receive; the input token's own
/// fee on top of it is settled by `check_maximum_amount_in`.
pub fn swap_base_output(
    pool: &PoolState,
    config: &AmmConfig,
    direction: TradeDirection,
    input_vault_amount: u64,
    output_vault_amount: u64,
    amount_out_less_fee: u64,
    output_transfer_fee: u64,
    block_timestamp: u64,
) -> (r: Result<SwapQuote, ErrorCode>)
    requires
        pool.wf(),
        pool.rates(*config).valid(),
    ensures
        ({
            let err = exact_out_error(
                *pool,
                *config,
                direction,
                input_vault_amount as int,
                output_vault_amount as int,
                amount_out_less_fee as int,
                output_transfer_fee as int,
                block_timestamp,
            );
            let with_tax = out_with_tax(*pool, direction, amount_out_less_fee as int);
            let actual_out = exact_out_curve_output(
                *pool,
                direction,
                amount_out_less_fee as int,
                output_transfer_fee as int,
            );
            match r {
                Err(e) => err == Some(e),
                Ok(q) => {
                    let gross = q.result.source_amount_swapped as int;
                    &&& err is None
                    &&& q.direction == direction
                    &&& q.total_input_token_amount == input_reserve(
                        *pool,
                        direction,
                        input_vault_amount as int,
                    )
                    &&& q.total_output_token_amount == output_reserve(
                        *pool,
                        direction,
                        output_vault_amount as int,
                    )
                    &&& is_exact_out_result(
                        q.result,
                        actual_out,
                        q.total_input_token_amount as int,
                        q.total_output_token_amount as int,
                        pool.rates(*config),
                    )
                    &&& q.amount_in == in_with_tax(*pool, direction, gross)
                    &&& q.amount_out == amount_out_less_fee + output_transfer_fee
                    &&& q.tax_amount == if pool.has_out_tax(direction) {
                        with_tax - amount_out_less_fee
                    } else {
                        q.amount_in - gross
                    }
                    &&& q.protocol_fee == q.result.protocol_fee
                    &&& q.fund_fee == q.result.fund_fee
                }
            }
        }),
{
    if !pool.get_status_by_bit(PoolStatusBitIndex::Swap) || block_timestamp < pool.open_time {
        return Err(ErrorCode::NotApproved);
    }
    let input_is_token_0 = match direction {
        TradeDirection::ZeroForOne => true,
        TradeDirection::OneForZero => false,
    };
    let has_out_tax = !pool.tax_disabled && pool.out_tax_rate > 0 && pool.tax_use_token_0
        != input_is_token_0;
    let has_in_tax = !pool.tax_disabled && pool.in_tax_rate > 0 && pool.tax_use_token_0
        == input_is_token_0;
    let (out_tax, amount_out_with_tax): (u64, u64) = if has_out_tax {
        proof {
            assert(amount_out_less_fee * denom() + (denom() - pool.out_tax_rate) - 1 <= u128::MAX)
                by (nonlinear_arith)
                requires
                    0 <= amount_out_less_fee <= u64::MAX,
                    denom() == 1_000_000,
                    pool.out_tax_rate >= 0,
            ;
        }
        let with_tax = match calculate_pre_fee_amount(
            amount_out_less_fee as u128,
            pool.out_tax_rate,
        ) {
            Some(v) => v,
            None => return Err(ErrorCode::TaxCalculationFailed),
        };
        if with_tax > u64::MAX as u128 {
            return Err(ErrorCode::ArithmeticOverflow);
        }
        let with_tax = with_tax as u64;
        (with_tax - amount_out_less_fee, with_tax)
    } else {
        (0, amount_out_less_fee)
    };
    let actual_amount_out = match amount_out_with_tax.checked_add(output_transfer_fee) {
        Some(v) => v,
        None => return Err(ErrorCode::ArithmeticOverflow),
    };
    let (total_input_token_amount, total_output_token_amount) = match reserves_for(
        pool,
        direction,
        input_vault_amount,
        output_vault_amount,
    ) {
        Some(v) => v,
        None => return Err(ErrorCode::ArithmeticOverflow),
    };
    let rates = FeeRates {
        trade_fee_rate: config.trade_fee_rate,
        protocol_fee_rate: config.protocol_fee_rate,
        fund_fee_rate: config.fund_fee_rate,
        lp_fee_rate: pool.lp_fee_rate,
    };
    let result = match CurveCalculator::swap_base_output(
        actual_amount_out,
        total_input_token_amount,
        total_output_token_amount,
        &rates,
    ) {
        Some(res) => res,
        None => return Err(ErrorCode::ZeroTradingTokens),
    };
    match check_invariant(total_input_token_amount, total_output_token_amount, &result) {
        Ok(()) => {},
        Err(e) => return Err(e),
    }
    let gross = result.source_amount_swapped;
    let (in_tax, amount_in_with_tax): (u128, u128) = if has_in_tax {
        proof {
            assert(gross * denom() + (denom() - pool.in_tax_rate) - 1 <= u128::MAX)
                by (nonlinear_arith)
                requires
                    0 <= gross <= u64::MAX,
                    denom() == 1_000_000,
                    pool.in_tax_rate >= 0,
            ;
        }
        let with_tax = match calculate_pre_fee_amount(gross, pool.in_tax_rate) {
            Some(v) => v,
            None => return Err(ErrorCode::TaxCalculationFailed),
        };
        (with_tax - gross, with_tax)
    } else {
        (0, gross)
    };
    if amount_in_with_tax > u64::MAX as u128 {
        return Err(ErrorCode::ArithmeticOverflow);
    }
    let output_transfer_amount = actual_amount_out - out_tax;
    let tax: u64 = if has_out_tax {
        out_tax
    } else {
        in_tax as u64
    };
    Ok(
        SwapQuote {
            direction,
            total_input_token_amount,
            total_output_token_amount,
            amount_in: amount_in_with_tax as u64,
            amount_out: output_transfer_amount,
            tax_amount: tax,
            protocol_fee: result.protocol_fee as u64,
            fund_fee: result.fund_fee as u64,
            result,
        },
    )
}

/// Exact input, after the quote: what the trader receives once the output
/// token deducts `transfer_fee` from `amount_out`. Refused when the fee
/// exceeds the amount, when nothing is received, or when less than
/// `minimum_amount_out` is received.
pub fn check_minimum_amount_out(amount_out: u64, transfer_fee: u64, minimum_amount_out: u64) -> (r:
    Result<u64, ErrorCode>)
    ensures
        transfer_fee > amount_out ==> r == Err::<u64, ErrorCode>(ErrorCode::ArithmeticOverflow),
        transfer_fee == amount_out ==> r == Err::<u64, ErrorCode>(ErrorCode::ZeroTradingTokens),
        transfer_fee < amount_out && amount_out - transfer_fee < minimum_amount_out ==> r == Err::<
            u64,
            ErrorCode,
        >(ErrorCode::ExceededSlippage),
        transfer_fee < amount_out && amount_out - transfer_fee >= minimum_amount_out ==> r == Ok::<
            u64,
            ErrorCode,
        >((amount_out - transfer_fee) as u64),
{
    let amount_received = match amount_out.checked_sub(transfer_fee) {
        Some(v) => v,
        None => return Err(ErrorCode::ArithmeticOverflow),
    };
    if amount_received == 0 {
        return Err(ErrorCode::ZeroTradingTokens);
    }
    if amount_received < minimum_amount_out {
        return Err(ErrorCode::ExceededSlippage);
    }
    Ok(amount_received)
}

/// Exact output, after the quote: what the trader must send so that
/// `amount_in` reaches the input vault once the input token deducts
/// `transfer_fee`. Refused when that overflows or exceeds `max_amount_in`.
pub fn check_maximum_amount_in(amount_in: u64, transfer_fee: u64, max_amount_in: u64) -> (r: Result<
    u64,
    ErrorCode,
>)
    ensures
        amount_in + transfer_fee > u64::MAX ==> r == Err::<u64, ErrorCode>(
            ErrorCode::ArithmeticOverflow,
        ),
        amount_in + transfer_fee <= u64::MAX && amount_in + transfer_fee > max_amount_in ==> r
            == Err::<u64, ErrorCode>(ErrorCode::ExceededSlippage),
        amount_in + transfer_fee <= max_amount_in ==> r == Ok::<u64, ErrorCode>(
            (amount_in + transfer_fee) as u64,
        ),
{
    let input_transfer_amount = match amount_in.checked_add(transfer_fee) {
        Some(v) => v,
        None => return Err(ErrorCode::ArithmeticOverflow),
    };
    if input_transfer_amount > max_amount_in {
        return Err(ErrorCode::ExceededSlippage);
    }
    Ok(input_transfer_amount)
}

impl PoolState {
    /// Records a settled swap: adds its tax to the tax token's accumulator
    /// and its protocol and fund fees to the input token's accumulators.
    /// On overflow nothing changes.
    pub fn apply_swap(&mut self, quote: &SwapQuote) -> (r: Result<(), ErrorCode>)
        ensures
            r is Err ==> r == Err::<(), ErrorCode>(ErrorCode::ArithmeticOverflow) && *final(self)
                == *old(self),
            r is Ok <==> ({
                let tax_slot = if old(self).tax_use_token_0 {
                    old(self).tax_amount_0
                } else {
                    old(self).tax_amount_1
                };
                let (protocol_slot, fund_slot) = match quote.direction {
                    TradeDirection::ZeroForOne => (
                        old(self).protocol_fees_token_0,
                        old(self).fund_fees_token_0,
                    ),
                    TradeDirection::OneForZero => (
                        old(self).protocol_fees_token_1,
                        old(self).fund_fees_token_1,
                    ),
                };
                &&& tax_slot + quote.tax_amount <= u64::MAX
                &&& protocol_slot + quote.protocol_fee <= u64::MAX
                &&& fund_slot + quote.fund_fee <= u64::MAX
            }),
            r is Ok ==> final(self).accrued_sum() == old(self).accrued_sum() + quote.tax_amount
                + quote.protocol_fee + quote.fund_fee,
            r is Ok ==> *final(self) == old(self).with_swap_accrued(*quote),
    {
        let tax_before = if self.tax_use_token_0 {
            self.tax_amount_0
        } else {
            self.tax_amount_1
        };
        let tax_after = match tax_before.checked_add(quote.tax_amount) {
            Some(v) => v,
            None => return Err(ErrorCode::ArithmeticOverflow),
        };
        let (protocol_before, fund_before) = match quote.direction {
            TradeDirection::ZeroForOne => (self.protocol_fees_token_0, self.fund_fees_token_0),
            TradeDirection::OneForZero => (self.protocol_fees_token_1, self.fund_fees_token_1),
        };
        let protocol_after = match protocol_before.checked_add(quote.protocol_fee) {
            Some(v) => v,
            None => return Err(ErrorCode::ArithmeticOverflow),
        };
        let fund_after = match fund_before.checked_add(quote.fund_fee) {
            Some(v) => v,
            None => return Err(ErrorCode::ArithmeticOverflow),
        };
        if self.tax_use_token_0 {
            self.tax_amount_0 = tax_after;
        } else {
            self.tax_amount_1 = tax_after;
        }
        match quote.direction {
            TradeDirection::ZeroForOne => {
                self.protocol_fees_token_0 = protocol_after;
                self.fund_fees_token_0 = fund_after;
            },
            TradeDirection::OneForZero => {
                self.protocol_fees_token_1 = protocol_after;
                self.fund_fees_token_1 = fund_after;
            },
        }
        Ok(())
    }

    /// Everything accrued in both tokens.
    pub open spec fn accrued_sum(&self) -> int {
        self.accrued_0() + self.accrued_1()
    }

    /// The ledger once a quote's tax and fees are added to their accumulators.
    pub open spec fn with_swap_accrued(&self, quote: SwapQuote) -> PoolState {
        let taxed = if self.tax_use_token_0 {
            PoolState { tax_amount_0: (self.tax_amount_0 + quote.tax_amount) as u64, ..*self }
        } else {
            PoolState { tax_amount_1: (self.tax_amount_1 + quote.tax_amount) as u64, ..*self }
        };
        match quote.direction {
            TradeDirection::ZeroForOne => PoolState {
                protocol_fees_token_0: (self.protocol_fees_token_0 + quote.protocol_fee) as u64,
                fund_fees_token_0: (self.fund_fees_token_0 + quote.fund_fee) as u64,
                ..taxed
            },
            TradeDirection::OneForZero => PoolState {
                protocol_fees_token_1: (self.protocol_fees_token_1 + quote.protocol_fee) as u64,
                fund_fees_token_1: (self.fund_fees_token_1 + quote.fund_fee) as u64,
                ..taxed
            },
        }
    }
}

} // verus!
