//! The constant-product curve evaluator, in both directions.
use vstd::prelude::*;

use crate::fees::{
    calculate_pre_fee_amount, ceil_div, denom, fee_amount, fee_of, fund_fee_of,
    lemma_fee_bounds, lemma_fee_sum, lemma_pre_fee_covers, pre_fee_of, protocol_fee_of,
    split_trade_fee, FEE_RATE_DENOMINATOR_VALUE,
};

verus! {

/// Which way a trade crosses the pool.
#[derive(Clone, Copy, Debug, PartialEq, Eq, Structural)]
pub enum TradeDirection {
    /// Token 0 in, token 1 out.
    ZeroForOne,
    /// Token 1 in, token 0 out.
    OneForZero,
}

/// The rate bundle a swap is priced with, each a numerator over
/// `FEE_RATE_DENOMINATOR_VALUE`.
#[derive(Clone, Copy, Debug, PartialEq, Eq, Structural)]
pub struct FeeRates {
    /// Gross fee charged on the input.
    pub trade_fee_rate: u64,
    /// The protocol's share of the trade fee.
    pub protocol_fee_rate: u64,
    /// The fund's share, carved out of the protocol's share.
    pub fund_fee_rate: u64,
    /// A further fee that stays in the pool for its liquidity providers.
    pub lp_fee_rate: u64,
}

impl FeeRates {
    /// The configuration invariants on the rates.
    pub open spec fn valid(&self) -> bool {
        &&& self.protocol_fee_rate + self.fund_fee_rate <= FEE_RATE_DENOMINATOR_VALUE
        &&& self.trade_fee_rate + self.lp_fee_rate <= FEE_RATE_DENOMINATOR_VALUE
    }

    /// The trade fee and the liquidity-provider fee together.
    pub open spec fn combined_rate(&self) -> int {
        self.trade_fee_rate + self.lp_fee_rate
    }

    /// Whether every rate is zero.
    pub open spec fn all_zero(&self) -> bool {
        &&& self.trade_fee_rate == 0
        &&& self.protocol_fee_rate == 0
        &&& self.fund_fee_rate == 0
        &&& self.lp_fee_rate == 0
    }
}

/// The amounts a swap moves and the fees it takes.
#[derive(Clone, Copy, Debug, PartialEq, Eq, Structural)]
pub struct SwapResult {
    /// Input reserve after the swap.
    pub new_swap_source_amount: u128,
    /// Output reserve after the swap.
    pub new_swap_destination_amount: u128,
    /// Gross amount entering the input reserve, fees included.
    pub source_amount_swapped: u128,
    /// Amount leaving the output reserve.
    pub destination_amount_swapped: u128,
    /// Gross trade fee.
    pub trade_fee: u128,
    /// Part of the trade fee owed to the protocol.
    pub protocol_fee: u128,
    /// Part of the trade fee owed to the fund.
    pub fund_fee: u128,
    /// Fee retained in the pool for liquidity providers; never withdrawn.
    pub lp_fee: u128,
}

/// What an exact input still prices against the curve once the trade fee and
/// the liquidity-provider fee are taken from it.
pub open spec fn net_input_of(amount_in: int, rates: FeeRates) -> int {
    amount_in - fee_of(amount_in, rates.trade_fee_rate as int) - fee_of(
        amount_in,
        rates.lp_fee_rate as int,
    )
}

/// Constant-product output for a net input, rounded down:
/// `floor(net * output_reserve / (input_reserve + net))`.
pub open spec fn output_for_input(net: int, input_reserve: int, output_reserve: int) -> int {
    net * output_reserve / (input_reserve + net)
}

/// Net input the curve needs to release `amount_out`, rounded up:
/// `ceil(input_reserve * amount_out / (output_reserve - amount_out))`.
pub open spec fn input_for_output(amount_out: int, input_reserve: int, output_reserve: int) -> int {
    (input_reserve * amount_out + (output_reserve - amount_out) - 1) / (output_reserve
        - amount_out)
}

/// Gross input an exact-output swap asks for: the net input grossed up over
/// the trade and liquidity-provider fees together.
pub open spec fn gross_input_for_output(
    amount_out: int,
    input_reserve: int,
    output_reserve: int,
    rates: FeeRates,
) -> int {
    pre_fee_of(input_for_output(amount_out, input_reserve, output_reserve), rates.combined_rate())
}

/// The product of the reserves did not decrease.
pub open spec fn invariant_kept(before_in: int, before_out: int, after_in: int, after_out: int) -> bool {
    after_in * after_out >= before_in * before_out
}

/// When an exact-input swap has a result: a positive amount, two positive
/// reserves, and something left to price once the fees are taken.
pub open spec fn exact_in_defined(amount_in: int, input_reserve: int, output_reserve: int, rates: FeeRates) -> bool {
    &&& amount_in > 0
    &&& input_reserve > 0
    &&& output_reserve > 0
    &&& net_input_of(amount_in, rates) > 0
}

/// What an exact-input swap of `amount_in` against the two reserves returns.
pub open spec fn is_exact_in_result(
    res: SwapResult,
    amount_in: int,
    input_reserve: int,
    output_reserve: int,
    rates: FeeRates,
) -> bool {
    let net = net_input_of(amount_in, rates);
    let out = output_for_input(net, input_reserve, output_reserve);
    &&& res.source_amount_swapped == amount_in
    &&& res.trade_fee == fee_of(amount_in, rates.trade_fee_rate as int)
    &&& res.lp_fee == fee_of(amount_in, rates.lp_fee_rate as int)
    &&& res.protocol_fee == protocol_fee_of(
        res.trade_fee as int,
        rates.protocol_fee_rate as int,
        rates.fund_fee_rate as int,
    )
    &&& res.fund_fee == fund_fee_of(
        res.trade_fee as int,
        rates.protocol_fee_rate as int,
        rates.fund_fee_rate as int,
    )
    &&& res.protocol_fee + res.fund_fee <= res.trade_fee
    &&& res.trade_fee + res.lp_fee + net == amount_in
    &&& res.destination_amount_swapped == out
    &&& res.destination_amount_swapped < output_reserve
    &&& res.new_swap_source_amount == input_reserve + amount_in
    &&& res.new_swap_destination_amount == output_reserve - out
    &&& invariant_kept(
        input_reserve,
        output_reserve,
        res.new_swap_source_amount as int,
        res.new_swap_destination_amount as int,
    )
    &&& rates.all_zero() ==> {
        &&& res.trade_fee == 0
        &&& res.lp_fee == 0
        &&& res.protocol_fee == 0
        &&& res.fund_fee == 0
        &&& res.destination_amount_swapped == amount_in * output_reserve / (input_reserve
            + amount_in)
    }
}

/// When an exact-output swap has a result: a positive amount below the
/// output reserve, a positive input reserve, fees that leave something of the
/// input, and a gross input that fits in 64 bits.
pub open spec fn exact_out_defined(amount_out: int, input_reserve: int, output_reserve: int, rates: FeeRates) -> bool {
    &&& amount_out > 0
    &&& input_reserve > 0
    &&& amount_out < output_reserve
    &&& rates.combined_rate() < denom()
    &&& gross_input_for_output(amount_out, input_reserve, output_reserve, rates) <= u64::MAX
}

/// What an exact-output swap of `amount_out` against the two reserves returns.
pub open spec fn is_exact_out_result(
    res: SwapResult,
    amount_out: int,
    input_reserve: int,
    output_reserve: int,
    rates: FeeRates,
) -> bool {
    let net = input_for_output(amount_out, input_reserve, output_reserve);
    let gross = gross_input_for_output(amount_out, input_reserve, output_reserve, rates);
    &&& res.destination_amount_swapped == amount_out
    &&& res.source_amount_swapped == gross
    &&& res.lp_fee == fee_of(gross, rates.lp_fee_rate as int)
    &&& res.trade_fee + res.lp_fee + net == gross
    &&& res.trade_fee >= fee_of(gross, rates.trade_fee_rate as int)
    &&& res.protocol_fee == protocol_fee_of(
        res.trade_fee as int,
        rates.protocol_fee_rate as int,
        rates.fund_fee_rate as int,
    )
    &&& res.fund_fee == fund_fee_of(
        res.trade_fee as int,
        rates.protocol_fee_rate as int,
        rates.fund_fee_rate as int,
    )
    &&& res.protocol_fee + res.fund_fee <= res.trade_fee
    &&& res.new_swap_source_amount == input_reserve + gross
    &&& res.new_swap_destination_amount == output_reserve - amount_out
    &&& net > 0
    &&& invariant_kept(
        input_reserve,
        output_reserve,
        res.new_swap_source_amount as int,
        res.new_swap_destination_amount as int,
    )
    &&& rates.all_zero() ==> {
        &&& res.trade_fee == 0
        &&& res.lp_fee == 0
        &&& res.source_amount_swapped == net
    }
}

/// The exact-input output stays below the output reserve, and the pool's
/// product does not decrease.
pub proof fn lemma_exact_in_invariant(net: int, amount_in: int, input_reserve: int, output_reserve: int)
    requires
        0 < net <= amount_in,
        input_reserve > 0,
        output_reserve > 0,
    ensures
        0 <= output_for_input(net, input_reserve, output_reserve) < output_reserve,
        invariant_kept(
            input_reserve,
            output_reserve,
            input_reserve + amount_in,
            output_reserve - output_for_input(net, input_reserve, output_reserve),
        ),
{
    let s = input_reserve;
    let t = output_reserve;
    let q = output_for_input(net, s, t);
    assert(0 <= q && q * (s + net) <= net * t) by (nonlinear_arith)
        requires
            s > 0,
            net > 0,
            t > 0,
            q == (net * t) / (s + net),
    ;
    assert(q < t) by (nonlinear_arith)
        requires
            s > 0,
            net > 0,
            t > 0,
            q >= 0,
            q * (s + net) <= net * t,
    {
        if q >= t {
            assert(q * (s + net) >= t * (s + net));
            assert(t * (s + net) > net * t);
        }
    }
    assert((s + net) * (t - q) >= s * t) by (nonlinear_arith)
        requires
            q * (s + net) <= net * t,
    ;
    assert((s + amount_in) * (t - q) >= (s + net) * (t - q)) by (nonlinear_arith)
        requires
            net <= amount_in,
            q < t,
    ;
}

/// The net input an exact-output swap asks for is positive, and with any
/// gross input at least that large the pool's product does not decrease.
pub proof fn lemma_exact_out_invariant(
    amount_out: int,
    gross: int,
    input_reserve: int,
    output_reserve: int,
)
    requires
        0 < amount_out < output_reserve,
        input_reserve > 0,
        gross >= input_for_output(amount_out, input_reserve, output_reserve),
    ensures
        input_for_output(amount_out, input_reserve, output_reserve) > 0,
        input_for_output(amount_out, input_reserve, output_reserve) * (output_reserve - amount_out)
            >= input_reserve * amount_out,
        invariant_kept(
            input_reserve,
            output_reserve,
            input_reserve + gross,
            output_reserve - amount_out,
        ),
{
    let s = input_reserve;
    let t = output_reserve;
    let y = amount_out;
    let n = input_for_output(y, s, t);
    assert(n * (t - y) >= s * y && n > 0) by (nonlinear_arith)
        requires
            t - y > 0,
            s > 0,
            y > 0,
            n == (s * y + (t - y) - 1) / (t - y),
    ;
    assert((s + n) * (t - y) >= s * t) by (nonlinear_arith)
        requires
            n * (t - y) >= s * y,
    ;
    assert((s + gross) * (t - y) >= (s + n) * (t - y)) by (nonlinear_arith)
        requires
            gross >= n,
            t - y > 0,
    ;
}

/// The constant-product output grows with the net input.
pub proof fn lemma_output_monotonic(n: int, m: int, input_reserve: int, output_reserve: int)
    requires
        0 <= n <= m,
        input_reserve > 0,
        output_reserve >= 0,
    ensures
        output_for_input(n, input_reserve, output_reserve) <= output_for_input(
            m,
            input_reserve,
            output_reserve,
        ),
{
    let s = input_reserve;
    let t = output_reserve;
    let q = output_for_input(n, s, t);
    assert(0 <= q && q * (s + n) <= n * t) by (nonlinear_arith)
        requires
            s > 0,
            n >= 0,
            t >= 0,
            q == (n * t) / (s + n),
    ;
    assert(q <= t) by (nonlinear_arith)
        requires
            s > 0,
            n >= 0,
            t >= 0,
            q >= 0,
            q * (s + n) <= n * t,
    {
        if q > t {
            assert(q * (s + n) > t * (s + n));
        }
    }
    assert(q * (s + m) <= m * t) by (nonlinear_arith)
        requires
            q * (s + n) <= n * t,
            0 <= q <= t,
            n <= m,
    ;
    assert(q <= (m * t) / (s + m)) by (nonlinear_arith)
        requires
            s > 0,
            m >= 0,
            q * (s + m) <= m * t,
    ;
}

/// The net input an exact-output swap asks for is the least net input whose
/// exact-input output reaches the requested amount.
pub proof fn lemma_input_for_output_least(n: int, amount_out: int, input_reserve: int, output_reserve: int)
    requires
        n >= 0,
        input_reserve > 0,
        0 < amount_out < output_reserve,
    ensures
        (output_for_input(n, input_reserve, output_reserve) >= amount_out) == (n
            >= input_for_output(amount_out, input_reserve, output_reserve)),
{
    let s = input_reserve;
    let t = output_reserve;
    let y = amount_out;
    let q = output_for_input(n, s, t);
    let c = input_for_output(y, s, t);
    assert((q >= y) == (n * t >= y * (s + n))) by (nonlinear_arith)
        requires
            s + n > 0,
            q == (n * t) / (s + n),
    ;
    assert((n * t >= y * (s + n)) == (n * (t - y) >= s * y)) by (nonlinear_arith);
    assert((n * (t - y) >= s * y) == (n >= c)) by (nonlinear_arith)
        requires
            t - y > 0,
            c == (s * y + (t - y) - 1) / (t - y),
    ;
}

/// Rounding favours the pool: the gross input an exact-output swap asks for,
/// sold back as an exact input, buys at least the requested output.
pub proof fn lemma_exact_out_input_buys_output(
    amount_out: int,
    input_reserve: int,
    output_reserve: int,
    rates: FeeRates,
)
    requires
        rates.valid(),
        exact_out_defined(amount_out, input_reserve, output_reserve, rates),
    ensures
        exact_in_defined(
            gross_input_for_output(amount_out, input_reserve, output_reserve, rates),
            input_reserve,
            output_reserve,
            rates,
        ),
        output_for_input(
            net_input_of(
                gross_input_for_output(amount_out, input_reserve, output_reserve, rates),
                rates,
            ),
            input_reserve,
            output_reserve,
        ) >= amount_out,
{
    let n = input_for_output(amount_out, input_reserve, output_reserve);
    let gross = gross_input_for_output(amount_out, input_reserve, output_reserve, rates);
    lemma_exact_out_invariant(amount_out, n, input_reserve, output_reserve);
    lemma_pre_fee_covers(n, rates.combined_rate());
    lemma_fee_sum(gross, rates.trade_fee_rate as int, rates.lp_fee_rate as int);
    let net = net_input_of(gross, rates);
    assert(net >= n);
    lemma_input_for_output_least(n, amount_out, input_reserve, output_reserve);
    lemma_output_monotonic(n, net, input_reserve, output_reserve);
}

/// Rounding favours the pool on a round trip: when the net input of an
/// exact-input swap of `amount_in` is the least net input that buys its
/// output (so the output was not reached by a smaller input rounding to the
/// same amount), buying that output back with an exact-output swap asks for
/// the same net input and a gross input of at least `amount_in`.
pub proof fn lemma_round_trip(amount_in: int, input_reserve: int, output_reserve: int, rates: FeeRates)
    requires
        rates.valid(),
        rates.combined_rate() < denom(),
        exact_in_defined(amount_in, input_reserve, output_reserve, rates),
        output_for_input(net_input_of(amount_in, rates) - 1, input_reserve, output_reserve)
            < output_for_input(net_input_of(amount_in, rates), input_reserve, output_reserve),
    ensures
        ({
            let net = net_input_of(amount_in, rates);
            let out = output_for_input(net, input_reserve, output_reserve);
            &&& 0 < out < output_reserve
            &&& input_for_output(out, input_reserve, output_reserve) == net
            &&& gross_input_for_output(out, input_reserve, output_reserve, rates) >= amount_in
        }),
{
    let d = denom();
    let net = net_input_of(amount_in, rates);
    let out = output_for_input(net, input_reserve, output_reserve);
    lemma_exact_in_invariant(net, amount_in, input_reserve, output_reserve);
    lemma_output_monotonic(0, net - 1, input_reserve, output_reserve);
    assert(output_for_input(0, input_reserve, output_reserve) == 0);
    lemma_input_for_output_least(net, out, input_reserve, output_reserve);
    lemma_input_for_output_least(net - 1, out, input_reserve, output_reserve);
    let tr = rates.trade_fee_rate as int;
    let lr = rates.lp_fee_rate as int;
    let r = rates.combined_rate();
    let f1 = fee_of(amount_in, tr);
    let f2 = fee_of(amount_in, lr);
    lemma_fee_bounds(amount_in, tr);
    lemma_fee_bounds(amount_in, lr);
    assert(net * d >= amount_in * (d - r)) by (nonlinear_arith)
        requires
            net == amount_in - f1 - f2,
            f1 * d <= amount_in * tr,
            f2 * d <= amount_in * lr,
            r == tr + lr,
    ;
    if r == 0 {
        assert(fee_of(amount_in, 0) == 0);
    } else {
        let e = d - r;
        let g = pre_fee_of(net, r);
        assert(g * e >= net * d) by (nonlinear_arith)
            requires
                e > 0,
                g == (net * d + e - 1) / e,
        ;
        assert(g >= amount_in) by (nonlinear_arith)
            requires
                e > 0,
                g * e >= net * d,
                net * d >= amount_in * e,
        ;
    }
}

/// The evaluator of the constant-product curve.
pub struct CurveCalculator;

impl CurveCalculator {
    /// Prices an exact input. The trade fee and the liquidity-provider fee
    /// are taken from `source_amount` (each rounded down); the rest is
    /// priced against the curve and the output is rounded down. The whole
    /// `source_amount` enters the input reserve, so the liquidity-provider
    /// fee stays in the pool. `None` when an amount or a reserve is zero, or
    /// when the fees leave nothing to trade.
    pub fn swap_base_input(
        source_amount: u64,
        swap_source_amount: u64,
        swap_destination_amount: u64,
        rates: &FeeRates,
    ) -> (r: Option<SwapResult>)
        requires
            rates.valid(),
        ensures
            r is Some <==> exact_in_defined(
                source_amount as int,
                swap_source_amount as int,
                swap_destination_amount as int,
                *rates,
            ),
            r matches Some(res) ==> is_exact_in_result(
                res,
                source_amount as int,
                swap_source_amount as int,
                swap_destination_amount as int,
                *rates,
            ),
    {
        if source_amount == 0 || swap_source_amount == 0 || swap_destination_amount == 0 {
            return None;
        }
        let trade_fee = fee_amount(source_amount, rates.trade_fee_rate);
        let lp_fee = fee_amount(source_amount, rates.lp_fee_rate);
        proof {
            lemma_fee_sum(
                source_amount as int,
                rates.trade_fee_rate as int,
                rates.lp_fee_rate as int,
            );
            lemma_fee_bounds(source_amount as int, rates.combined_rate());
        }
        let net = source_amount - trade_fee - lp_fee;
        if net == 0 {
            return None;
        }
        let (protocol_fee, fund_fee) = split_trade_fee(
            trade_fee,
            rates.protocol_fee_rate,
            rates.fund_fee_rate,
        );
        proof {
            assert(net * swap_destination_amount <= u64::MAX * u64::MAX) by (nonlinear_arith);
            lemma_exact_in_invariant(
                net as int,
                source_amount as int,
                swap_source_amount as int,
                swap_destination_amount as int,
            );
            if rates.all_zero() {
                assert(fee_of(source_amount as int, 0) == 0);
                assert(fee_of(0, 0) == 0);
            }
        }
        let numerator: u128 = (net as u128) * (swap_destination_amount as u128);
        let denominator: u128 = (swap_source_amount as u128) + (net as u128);
        let out: u128 = numerator / denominator;
        Some(
            SwapResult {
                new_swap_source_amount: (swap_source_amount as u128) + (source_amount as u128),
                new_swap_destination_amount: (swap_destination_amount as u128) - out,
                source_amount_swapped: source_amount as u128,
                destination_amount_swapped: out,
                trade_fee: trade_fee as u128,
                protocol_fee: protocol_fee as u128,
                fund_fee: fund_fee as u128,
                lp_fee: lp_fee as u128,
            },
        )
    }
    /// Prices an exact output. The output reserve falls by exactly
    /// `destination_amount`; the net input the curve asks for is rounded up,
    /// then grossed up over the trade and liquidity-provider fees together.
    /// The liquidity-provider fee is the rounded-down fee on the gross input,
    /// and the trade fee is what the gross input holds beyond the net input
    /// and that fee (never less than the rounded-down trade fee). `None` when
    /// `destination_amount` is zero or would drain the output reserve, when the
    /// input reserve is zero, when the fees take the whole input, or when the
    /// gross input does not fit in 64 bits.
    pub fn swap_base_output(
        destination_amount: u64,
        swap_source_amount: u64,
        swap_destination_amount: u64,
        rates: &FeeRates,
    ) -> (r: Option<SwapResult>)
        requires
            rates.valid(),
        ensures
            r is Some <==> exact_out_defined(
                destination_amount as int,
                swap_source_amount as int,
                swap_destination_amount as int,
                *rates,
            ),
            r matches Some(res) ==> is_exact_out_result(
                res,
                destination_amount as int,
                swap_source_amount as int,
                swap_destination_amount as int,
                *rates,
            ),
    {
        if destination_amount == 0 || swap_source_amount == 0 || destination_amount
            >= swap_destination_amount {
            return None;
        }
        let combined = rates.trade_fee_rate + rates.lp_fee_rate;
        if combined >= FEE_RATE_DENOMINATOR_VALUE {
            return None;
        }
        let new_destination = swap_destination_amount - destination_amount;
        proof {
            let s = swap_source_amount as int;
            let y = destination_amount as int;
            let e = new_destination as int;
            assert(s * y + e - 1 <= u128::MAX) by (nonlinear_arith)
                requires
                    0 <= s <= u64::MAX,
                    0 <= y <= u64::MAX,
                    0 < e <= u64::MAX,
            ;
        }
        let net = match ceil_div(
            swap_source_amount as u128,
            destination_amount as u128,
            new_destination as u128,
        ) {
            Some(v) => v,
            None => return None,
        };
        proof {
            lemma_exact_out_invariant(
                destination_amount as int,
                net as int,
                swap_source_amount as int,
                swap_destination_amount as int,
            );
            lemma_pre_fee_covers(net as int, combined as int);
        }
        if net > u64::MAX as u128 {
            return None;
        }
        proof {
            assert(net * denom() + (denom() - combined) - 1 <= u128::MAX) by (nonlinear_arith)
                requires
                    0 <= net <= u64::MAX,
                    0 <= combined < denom(),
                    denom() == 1_000_000,
            ;
        }
        let gross = match calculate_pre_fee_amount(net, combined) {
            Some(v) => v,
            None => return None,
        };
        if gross > u64::MAX as u128 {
            return None;
        }
        let gross64 = gross as u64;
        let net64 = net as u64;
        let lp_fee = fee_amount(gross64, rates.lp_fee_rate);
        proof {
            lemma_fee_sum(gross as int, rates.trade_fee_rate as int, rates.lp_fee_rate as int);
            lemma_fee_bounds(gross as int, rates.trade_fee_rate as int);
            lemma_exact_out_invariant(
                destination_amount as int,
                gross as int,
                swap_source_amount as int,
                swap_destination_amount as int,
            );
        }
        let trade_fee = gross64 - net64 - lp_fee;
        let (protocol_fee, fund_fee) = split_trade_fee(
            trade_fee,
            rates.protocol_fee_rate,
            rates.fund_fee_rate,
        );
        proof {
            if rates.all_zero() {
                assert(fee_of(gross as int, 0) == 0);
            }
        }
        Some(
            SwapResult {
                new_swap_source_amount: (swap_source_amount as u128) + gross,
                new_swap_destination_amount: new_destination as u128,
                source_amount_swapped: gross,
                destination_amount_swapped: destination_amount as u128,
                trade_fee: trade_fee as u128,
                protocol_fee: protocol_fee as u128,
                fund_fee: fund_fee as u128,
                lp_fee: lp_fee as u128,
            },
        )
    }
}

} // verus!
