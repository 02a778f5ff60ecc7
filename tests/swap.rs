use goatswap::curve::TradeDirection;
use goatswap::error::ErrorCode;
use goatswap::pool::{AmmConfig, PoolState, PoolStatusBitFlag, PoolStatusBitIndex};
use goatswap::swap::{
    check_maximum_amount_in, check_minimum_amount_out, swap_base_input, swap_base_output,
};

fn config() -> AmmConfig {
    AmmConfig {
        trade_fee_rate: 2_500,
        protocol_fee_rate: 120_000,
        fund_fee_rate: 0,
    }
}

fn pool() -> PoolState {
    let mut p = PoolState::default();
    p.initialize(0, true, 0, 0, 0);
    p
}

#[test]
fn exact_input_quote_scenario() {
    let p = pool();
    let q = swap_base_input(&p, &config(), TradeDirection::ZeroForOne, 1_000_000, 1_000_000, 10_000, 0, 5)
        .unwrap();
    assert_eq!(q.result.trade_fee, 25);
    assert_eq!(q.result.destination_amount_swapped, 9_876);
    assert_eq!(q.amount_in, 10_000);
    assert_eq!(q.amount_out, 9_876);
    assert_eq!(q.tax_amount, 0);
    assert_eq!(q.protocol_fee, 3);
    assert_eq!(q.fund_fee, 0);
    assert_eq!(q.total_input_token_amount, 1_000_000);
    assert_eq!(q.total_output_token_amount, 1_000_000);
}

#[test]
fn exact_input_with_input_tax() {
    let mut p = pool();
    p.update_tax(true, 50_000, 0);
    let q = swap_base_input(&p, &config(), TradeDirection::ZeroForOne, 1_000_000, 1_000_000, 10_000, 0, 5)
        .unwrap();
    assert_eq!(q.tax_amount, 500);
    assert_eq!(q.result.source_amount_swapped, 9_500);
    assert_eq!(q.result.trade_fee, 23);
    assert_eq!(q.result.destination_amount_swapped, 9_388);
    assert_eq!(q.amount_out, 9_388);
    assert_eq!(q.amount_in, 10_000);
}

#[test]
fn exact_input_with_output_tax() {
    let mut p = pool();
    p.update_tax(false, 0, 50_000);
    let q = swap_base_input(&p, &config(), TradeDirection::ZeroForOne, 1_000_000, 1_000_000, 10_000, 0, 5)
        .unwrap();
    assert_eq!(q.result.destination_amount_swapped, 9_876);
    assert_eq!(q.tax_amount, 493);
    assert_eq!(q.amount_out, 9_383);
}

#[test]
fn exact_input_tax_disabled_or_other_side() {
    let mut p = pool();
    p.update_tax(true, 50_000, 0);
    // Token 1 in: input tax is on token 0 only.
    let q = swap_base_input(&p, &config(), TradeDirection::OneForZero, 1_000_000, 1_000_000, 10_000, 0, 5)
        .unwrap();
    assert_eq!(q.tax_amount, 0);
    assert_eq!(q.result.source_amount_swapped, 10_000);
    p.set_tax_status(true);
    let q = swap_base_input(&p, &config(), TradeDirection::ZeroForOne, 1_000_000, 1_000_000, 10_000, 0, 5)
        .unwrap();
    assert_eq!(q.tax_amount, 0);
}

#[test]
fn exact_input_transfer_fee_reduces_curve_input() {
    let p = pool();
    let q = swap_base_input(&p, &config(), TradeDirection::ZeroForOne, 1_000_000, 1_000_000, 10_100, 100, 5)
        .unwrap();
    assert_eq!(q.result.source_amount_swapped, 10_000);
    assert_eq!(q.amount_in, 10_100);
    assert_eq!(q.amount_out, 9_876);
}

#[test]
fn exact_input_uses_effective_reserves() {
    let mut p = pool();
    p.protocol_fees_token_1 = 500;
    p.tax_amount_1 = 500;
    // Token 1 in: the input reserve excludes what has accrued in token 1.
    let q = swap_base_input(&p, &config(), TradeDirection::OneForZero, 1_001_000, 1_000_000, 10_000, 0, 5)
        .unwrap();
    assert_eq!(q.total_input_token_amount, 1_000_000);
    assert_eq!(q.total_output_token_amount, 1_000_000);
    assert_eq!(q.result.destination_amount_swapped, 9_876);
}

#[test]
fn exact_input_errors() {
    let mut p = pool();
    let c = config();
    let d = TradeDirection::ZeroForOne;
    assert_eq!(swap_base_input(&p, &c, d, 1_000_000, 1_000_000, 0, 0, 5), Err(ErrorCode::ZeroTradingTokens));
    assert_eq!(swap_base_input(&p, &c, d, 1_000_000, 1_000_000, 100, 100, 5), Err(ErrorCode::ZeroTradingTokens));
    assert_eq!(swap_base_input(&p, &c, d, 1_000_000, 0, 100, 0, 5), Err(ErrorCode::ZeroTradingTokens));
    p.protocol_fees_token_0 = 10;
    assert_eq!(swap_base_input(&p, &c, d, 5, 1_000_000, 100, 0, 5), Err(ErrorCode::ArithmeticOverflow));
    p.open_time = 10;
    assert_eq!(swap_base_input(&p, &c, d, 1_000_000, 1_000_000, 100, 0, 5), Err(ErrorCode::NotApproved));
    p.open_time = 0;
    p.set_status_by_bit(PoolStatusBitIndex::Swap, PoolStatusBitFlag::Disable);
    assert_eq!(swap_base_input(&p, &c, d, 1_000_000, 1_000_000, 100, 0, 5), Err(ErrorCode::NotApproved));
}

#[test]
fn minimum_amount_out_checks() {
    assert_eq!(check_minimum_amount_out(9_876, 76, 9_800), Ok(9_800));
    assert_eq!(check_minimum_amount_out(9_876, 77, 9_800), Err(ErrorCode::ExceededSlippage));
    assert_eq!(check_minimum_amount_out(10, 10, 0), Err(ErrorCode::ZeroTradingTokens));
    assert_eq!(check_minimum_amount_out(10, 11, 0), Err(ErrorCode::ArithmeticOverflow));
}

#[test]
fn maximum_amount_in_checks() {
    assert_eq!(check_maximum_amount_in(10_128, 72, 10_200), Ok(10_200));
    assert_eq!(check_maximum_amount_in(10_128, 73, 10_200), Err(ErrorCode::ExceededSlippage));
    assert_eq!(check_maximum_amount_in(u64::MAX, 1, u64::MAX), Err(ErrorCode::ArithmeticOverflow));
}

#[test]
fn exact_output_quote_with_output_tax() {
    let mut p = pool();
    p.update_tax(false, 0, 50_000);
    let q = swap_base_output(&p, &config(), TradeDirection::ZeroForOne, 1_000_000, 1_000_000, 9_500, 0, 5)
        .unwrap();
    assert_eq!(q.result.destination_amount_swapped, 10_000);
    assert_eq!(q.tax_amount, 500);
    assert_eq!(q.amount_out, 9_500);
    assert_eq!(q.result.source_amount_swapped, 10_128);
    assert_eq!(q.amount_in, 10_128);
    assert_eq!(q.result.trade_fee, 26);
    assert_eq!(q.protocol_fee, 3);
}

#[test]
fn exact_output_quote_with_input_tax() {
    let mut p = pool();
    p.update_tax(true, 50_000, 0);
    let q = swap_base_output(&p, &config(), TradeDirection::ZeroForOne, 1_000_000, 1_000_000, 10_000, 0, 5)
        .unwrap();
    assert_eq!(q.result.source_amount_swapped, 10_128);
    // ceil(10_128 * 1_000_000 / 950_000) = 10_662
    assert_eq!(q.amount_in, 10_662);
    assert_eq!(q.tax_amount, 534);
    assert_eq!(q.amount_out, 10_000);
}

#[test]
fn exact_output_transfer_fee_adds_to_curve_output() {
    let p = pool();
    let q = swap_base_output(&p, &config(), TradeDirection::ZeroForOne, 1_000_000, 1_000_000, 9_900, 100, 5)
        .unwrap();
    assert_eq!(q.result.destination_amount_swapped, 10_000);
    assert_eq!(q.amount_out, 10_000);
    assert_eq!(q.amount_in, 10_128);
}

#[test]
fn exact_output_errors() {
    let mut p = pool();
    let c = config();
    let d = TradeDirection::ZeroForOne;
    assert_eq!(swap_base_output(&p, &c, d, 1_000_000, 1_000_000, 1_000_000, 0, 5), Err(ErrorCode::ZeroTradingTokens));
    assert_eq!(swap_base_output(&p, &c, d, 1_000_000, 1_000_000, 0, 0, 5), Err(ErrorCode::ZeroTradingTokens));
    assert_eq!(swap_base_output(&p, &c, d, 1_000_000, 1_000_000, u64::MAX, 1, 5), Err(ErrorCode::ArithmeticOverflow));
    p.update_tax(false, 0, 1_000_000);
    assert_eq!(swap_base_output(&p, &c, d, 1_000_000, 1_000_000, 100, 0, 5), Err(ErrorCode::TaxCalculationFailed));
    p.update_tax(true, 1_000_000, 0);
    assert_eq!(swap_base_output(&p, &c, d, 1_000_000, 1_000_000, 100, 0, 5), Err(ErrorCode::TaxCalculationFailed));
    p.open_time = 6;
    assert_eq!(swap_base_output(&p, &c, d, 1_000_000, 1_000_000, 100, 0, 5), Err(ErrorCode::NotApproved));
}

#[test]
fn apply_swap_accrues_fees_and_tax() {
    let mut p = pool();
    p.update_tax(true, 50_000, 0);
    let q = swap_base_input(&p, &config(), TradeDirection::ZeroForOne, 1_000_000, 1_000_000, 10_000, 0, 5)
        .unwrap();
    assert_eq!(p.apply_swap(&q), Ok(()));
    assert_eq!(p.tax_amount_0, 500);
    assert_eq!(p.protocol_fees_token_0, 2);
    assert_eq!(p.fund_fees_token_0, 0);
    assert_eq!(p.protocol_fees_token_1, 0);
}

#[test]
fn apply_swap_refuses_overflow_and_changes_nothing() {
    let mut p = pool();
    p.update_tax(false, 0, 50_000);
    let q = swap_base_input(&p, &config(), TradeDirection::ZeroForOne, 1_000_000, 1_000_000, 10_000, 0, 5)
        .unwrap();
    p.tax_amount_1 = u64::MAX;
    let before = p;
    assert_eq!(p.apply_swap(&q), Err(ErrorCode::ArithmeticOverflow));
    assert_eq!(p, before);
}
