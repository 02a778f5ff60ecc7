use goatswap::error::ErrorCode;
use goatswap::pool::{PoolState, PoolStatusBitFlag, PoolStatusBitIndex};

#[test]
fn get_set_status_by_bit() {
    let mut pool_state = PoolState::default();
    pool_state.set_status(4); // 0000100
    assert_eq!(pool_state.get_status_by_bit(PoolStatusBitIndex::Swap), false);
    assert_eq!(pool_state.get_status_by_bit(PoolStatusBitIndex::Deposit), true);
    assert_eq!(pool_state.get_status_by_bit(PoolStatusBitIndex::Withdraw), true);

    // disable -> disable, nothing to change
    pool_state.set_status_by_bit(PoolStatusBitIndex::Swap, PoolStatusBitFlag::Disable);
    assert_eq!(pool_state.get_status_by_bit(PoolStatusBitIndex::Swap), false);

    // disable -> enable
    pool_state.set_status_by_bit(PoolStatusBitIndex::Swap, PoolStatusBitFlag::Enable);
    assert_eq!(pool_state.get_status_by_bit(PoolStatusBitIndex::Swap), true);

    // enable -> enable, nothing to change
    pool_state.set_status_by_bit(PoolStatusBitIndex::Swap, PoolStatusBitFlag::Enable);
    assert_eq!(pool_state.get_status_by_bit(PoolStatusBitIndex::Swap), true);
    // enable -> disable
    pool_state.set_status_by_bit(PoolStatusBitIndex::Swap, PoolStatusBitFlag::Disable);
    assert_eq!(pool_state.get_status_by_bit(PoolStatusBitIndex::Swap), false);

    pool_state.set_status(5); // 0000101
    assert_eq!(pool_state.get_status_by_bit(PoolStatusBitIndex::Swap), false);
    assert_eq!(pool_state.get_status_by_bit(PoolStatusBitIndex::Deposit), false);
    assert_eq!(pool_state.get_status_by_bit(PoolStatusBitIndex::Withdraw), true);

    pool_state.set_status(7); // 0000111
    assert_eq!(pool_state.get_status_by_bit(PoolStatusBitIndex::Swap), false);
    assert_eq!(pool_state.get_status_by_bit(PoolStatusBitIndex::Deposit), false);
    assert_eq!(pool_state.get_status_by_bit(PoolStatusBitIndex::Withdraw), false);

    pool_state.set_status(3); // 0000011
    assert_eq!(pool_state.get_status_by_bit(PoolStatusBitIndex::Swap), true);
    assert_eq!(pool_state.get_status_by_bit(PoolStatusBitIndex::Deposit), false);
    assert_eq!(pool_state.get_status_by_bit(PoolStatusBitIndex::Withdraw), false);
}

#[test]
fn set_status_by_bit_keeps_other_bits() {
    let mut pool_state = PoolState::default();
    pool_state.set_status(0b1111_1000);
    pool_state.set_status_by_bit(PoolStatusBitIndex::Withdraw, PoolStatusBitFlag::Disable);
    assert_eq!(pool_state.status, 0b1111_1010);
    pool_state.set_status_by_bit(PoolStatusBitIndex::Withdraw, PoolStatusBitFlag::Enable);
    assert_eq!(pool_state.status, 0b1111_1000);
}

#[test]
fn default_pool_is_zeroed() {
    let pool_state = PoolState::default();
    assert_eq!(pool_state.status, 0);
    assert_eq!(pool_state.tax_amount_0, 0);
    assert_eq!(pool_state.protocol_fees_token_1, 0);
    assert!(!pool_state.tax_disabled);
}

#[test]
fn initialize_resets_accumulators() {
    let mut pool_state = PoolState::default();
    pool_state.protocol_fees_token_0 = 9;
    pool_state.tax_amount_1 = 4;
    pool_state.tax_disabled = true;
    pool_state.initialize(100, true, 50_000, 20_000, 1_000);
    assert_eq!(pool_state.protocol_fees_token_0, 0);
    assert_eq!(pool_state.tax_amount_1, 0);
    assert!(!pool_state.tax_disabled);
    assert_eq!(pool_state.open_time, 100);
    assert!(pool_state.tax_use_token_0);
    assert_eq!(pool_state.in_tax_rate, 50_000);
    assert_eq!(pool_state.out_tax_rate, 20_000);
    assert_eq!(pool_state.lp_fee_rate, 1_000);
}

#[test]
fn vault_amount_without_fee_subtracts_accrued() {
    let mut pool_state = PoolState::default();
    pool_state.protocol_fees_token_0 = 10;
    pool_state.fund_fees_token_0 = 5;
    pool_state.tax_amount_0 = 1;
    pool_state.protocol_fees_token_1 = 7;
    assert_eq!(pool_state.vault_amount_without_fee(100, 50), Some((84, 43)));
    assert_eq!(pool_state.vault_amount_without_fee(16, 7), Some((0, 0)));
    assert_eq!(pool_state.vault_amount_without_fee(15, 50), None);
    assert_eq!(pool_state.vault_amount_without_fee(100, 6), None);
}

#[test]
fn vault_amount_without_fee_does_not_wrap() {
    let mut pool_state = PoolState::default();
    pool_state.protocol_fees_token_0 = u64::MAX;
    pool_state.fund_fees_token_0 = 1;
    assert_eq!(pool_state.vault_amount_without_fee(u64::MAX, 0), None);
}

#[test]
fn collect_tax_drains_pending() {
    let mut pool_state = PoolState::default();
    pool_state.tax_amount_0 = 30;
    pool_state.tax_amount_1 = 0;
    assert_eq!(pool_state.collect_tax(), Ok((30, 0)));
    assert_eq!(pool_state.tax_amount_0, 0);
    assert_eq!(pool_state.collect_tax(), Err(ErrorCode::NoPendingTax));
}

#[test]
fn collect_tax_refused_when_disabled() {
    let mut pool_state = PoolState::default();
    pool_state.tax_amount_1 = 8;
    pool_state.set_tax_status(true);
    assert_eq!(pool_state.collect_tax(), Err(ErrorCode::TaxDisabled));
    assert_eq!(pool_state.tax_amount_1, 8);
}

#[test]
fn update_tax_and_lp_fee() {
    let mut pool_state = PoolState::default();
    pool_state.update_tax(false, 1_000, 2_000);
    assert!(!pool_state.tax_use_token_0);
    assert_eq!(pool_state.in_tax_rate, 1_000);
    assert_eq!(pool_state.out_tax_rate, 2_000);
    pool_state.update_lp_fee(3_000, 2_500);
    assert_eq!(pool_state.lp_fee_rate, 3_000);
}
