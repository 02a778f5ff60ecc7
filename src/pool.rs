//! The pool ledger the core reads and updates: status flags, accrued fees
//! and tax, tax configuration, and the reserve adjuster.
use vstd::prelude::*;

use crate::curve::{FeeRates, TradeDirection};
use crate::error::ErrorCode;
use crate::fees::FEE_RATE_DENOMINATOR_VALUE;

verus! {

/// The operations whose availability the pool's status mask controls.
#[derive(Clone, Copy, Debug, PartialEq, Eq, Structural)]
pub enum PoolStatusBitIndex {
    /// Bit 0.
    Deposit,
    /// Bit 1.
    Withdraw,
    /// Bit 2.
    Swap,
}

/// Whether an operation is to be enabled or disabled.
#[derive(Clone, Copy, Debug, PartialEq, Eq, Structural)]
pub enum PoolStatusBitFlag {
    Enable,
    Disable,
}

/// The position of an operation's bit in the status mask.
pub open spec fn bit_position(bit: PoolStatusBitIndex) -> u8 {
    match bit {
        PoolStatusBitIndex::Deposit => 0,
        PoolStatusBitIndex::Withdraw => 1,
        PoolStatusBitIndex::Swap => 2,
    }
}

/// Whether bit `i` of the mask is set (a set bit disables its operation).
pub open spec fn bit_set(status: u8, i: u8) -> bool {
    status & (1u8 << i) != 0
}

fn bit_index(bit: PoolStatusBitIndex) -> (r: u8)
    ensures
        r == bit_position(bit),
{
    match bit {
        PoolStatusBitIndex::Deposit => 0,
        PoolStatusBitIndex::Withdraw => 1,
        PoolStatusBitIndex::Swap => 2,
    }
}

proof fn lemma_set_bit(s: u8, k: u8, i: u8)
    by (bit_vector)
    requires
        k < 8,
        i < 8,
    ensures
        ((s | (1u8 << k)) & (1u8 << i) != 0) == (i == k || s & (1u8 << i) != 0),
{
}

proof fn lemma_clear_bit(s: u8, k: u8, i: u8)
    by (bit_vector)
    requires
        k < 8,
        i < 8,
    ensures
        ((s & (255u8 ^ (1u8 << k))) & (1u8 << i) != 0) == (i != k && s & (1u8 << i) != 0),
{
}

/// The fee-rate part of the shared configuration a pool belongs to.
#[derive(Clone, Copy, Debug, PartialEq, Eq, Structural)]
pub struct AmmConfig {
    pub trade_fee_rate: u64,
    pub protocol_fee_rate: u64,
    pub fund_fee_rate: u64,
}

/// The fields of a pool's ledger that pricing and fee accounting read and
/// update. Accrued amounts are per token; `tax_use_token_0` names the token
/// that tax applies to.
#[derive(Clone, Copy, Debug, PartialEq, Eq, Structural)]
pub struct PoolState {
    /// Bit 0 disables deposit, bit 1 withdraw, bit 2 swap.
    pub status: u8,
    pub protocol_fees_token_0: u64,
    pub protocol_fees_token_1: u64,
    pub fund_fees_token_0: u64,
    pub fund_fees_token_1: u64,
    /// The time from which swaps are allowed.
    pub open_time: u64,
    /// Tax applies to token 0 when set, to token 1 otherwise.
    pub tax_use_token_0: bool,
    pub in_tax_rate: u64,
    pub out_tax_rate: u64,
    /// Tax pending collection, per token.
    pub tax_amount_0: u64,
    pub tax_amount_1: u64,
    pub tax_disabled: bool,
    pub lp_fee_rate: u64,
}

impl Default for PoolState {
    fn default() -> (r: PoolState)
        ensures
            r == PoolState::zeroed(),
    {
        PoolState {
            status: 0,
            protocol_fees_token_0: 0,
            protocol_fees_token_1: 0,
            fund_fees_token_0: 0,
            fund_fees_token_1: 0,
            open_time: 0,
            tax_use_token_0: false,
            in_tax_rate: 0,
            out_tax_rate: 0,
            tax_amount_0: 0,
            tax_amount_1: 0,
            tax_disabled: false,
            lp_fee_rate: 0,
        }
    }
}

impl PoolState {
    /// A ledger with every field zero (or false).
    pub open spec fn zeroed() -> PoolState {
        PoolState {
            status: 0,
            protocol_fees_token_0: 0,
            protocol_fees_token_1: 0,
            fund_fees_token_0: 0,
            fund_fees_token_1: 0,
            open_time: 0,
            tax_use_token_0: false,
            in_tax_rate: 0,
            out_tax_rate: 0,
            tax_amount_0: 0,
            tax_amount_1: 0,
            tax_disabled: false,
            lp_fee_rate: 0,
        }
    }

    /// The ledger's rate invariants: each tax rate and the liquidity-provider
    /// fee rate is at most the denominator.
    pub open spec fn wf(&self) -> bool {
        &&& self.in_tax_rate <= FEE_RATE_DENOMINATOR_VALUE
        &&& self.out_tax_rate <= FEE_RATE_DENOMINATOR_VALUE
        &&& self.lp_fee_rate <= FEE_RATE_DENOMINATOR_VALUE
    }

    /// Whether the operation is enabled (its bit is clear).
    pub open spec fn enabled(&self, bit: PoolStatusBitIndex) -> bool {
        !bit_set(self.status, bit_position(bit))
    }

    /// Whether a swap may run at time `now`.
    pub open spec fn swap_allowed(&self, now: u64) -> bool {
        self.enabled(PoolStatusBitIndex::Swap) && now >= self.open_time
    }

    /// Whether tax applies to the input of a trade in `direction`.
    pub open spec fn has_in_tax(&self, direction: TradeDirection) -> bool {
        &&& !self.tax_disabled
        &&& self.in_tax_rate > 0
        &&& self.tax_use_token_0 == (direction == TradeDirection::ZeroForOne)
    }

    /// Whether tax applies to the output of a trade in `direction`.
    pub open spec fn has_out_tax(&self, direction: TradeDirection) -> bool {
        &&& !self.tax_disabled
        &&& self.out_tax_rate > 0
        &&& self.tax_use_token_0 == (direction == TradeDirection::OneForZero)
    }

    /// Fees and tax accrued in token 0 and still held in its vault.
    pub open spec fn accrued_0(&self) -> int {
        self.protocol_fees_token_0 + self.fund_fees_token_0 + self.tax_amount_0
    }

    /// Fees and tax accrued in token 1 and still held in its vault.
    pub open spec fn accrued_1(&self) -> int {
        self.protocol_fees_token_1 + self.fund_fees_token_1 + self.tax_amount_1
    }

    /// The rate bundle a swap on this pool is priced with.
    pub open spec fn rates(&self, config: AmmConfig) -> FeeRates {
        FeeRates {
            trade_fee_rate: config.trade_fee_rate,
            protocol_fee_rate: config.protocol_fee_rate,
            fund_fee_rate: config.fund_fee_rate,
            lp_fee_rate: self.lp_fee_rate,
        }
    }

    /// Sets up a new pool: records its opening time, tax and liquidity-provider
    /// fee configuration, and starts every accumulator at zero with tax enabled.
    pub fn initialize(
        &mut self,
        open_time: u64,
        tax_use_token_0: bool,
        in_tax_rate: u64,
        out_tax_rate: u64,
        lp_fee_rate: u64,
    )
        requires
            in_tax_rate <= FEE_RATE_DENOMINATOR_VALUE,
            out_tax_rate <= FEE_RATE_DENOMINATOR_VALUE,
            lp_fee_rate <= FEE_RATE_DENOMINATOR_VALUE,
        ensures
            *final(self) == (PoolState {
                status: old(self).status,
                protocol_fees_token_0: 0,
                protocol_fees_token_1: 0,
                fund_fees_token_0: 0,
                fund_fees_token_1: 0,
                open_time,
                tax_use_token_0,
                in_tax_rate,
                out_tax_rate,
                tax_amount_0: 0,
                tax_amount_1: 0,
                tax_disabled: false,
                lp_fee_rate,
            }),
            final(self).wf(),
    {
        self.protocol_fees_token_0 = 0;
        self.protocol_fees_token_1 = 0;
        self.fund_fees_token_0 = 0;
        self.fund_fees_token_1 = 0;
        self.open_time = open_time;
        self.tax_use_token_0 = tax_use_token_0;
        self.in_tax_rate = in_tax_rate;
        self.out_tax_rate = out_tax_rate;
        self.tax_amount_0 = 0;
        self.tax_amount_1 = 0;
        self.tax_disabled = false;
        self.lp_fee_rate = lp_fee_rate;
    }

    /// Turns tax on or off.
    pub fn set_tax_status(&mut self, tax_disabled: bool)
        ensures
            *final(self) == (PoolState { tax_disabled, ..*old(self) }),
    {
        self.tax_disabled = tax_disabled;
    }

    /// Replaces the whole status mask.
    pub fn set_status(&mut self, status: u8)
        ensures
            *final(self) == (PoolState { status, ..*old(self) }),
    {
        self.status = status;
    }

    /// Enables or disables one operation, leaving the other bits of the mask
    /// as they were.
    pub fn set_status_by_bit(&mut self, bit: PoolStatusBitIndex, flag: PoolStatusBitFlag)
        ensures
            *final(self) == (PoolState { status: final(self).status, ..*old(self) }),
            forall|i: u8|
                i < 8 ==> #[trigger] bit_set(final(self).status, i) == if i == bit_position(bit) {
                    flag == PoolStatusBitFlag::Disable
                } else {
                    bit_set(old(self).status, i)
                },
    {
        let k = bit_index(bit);
        let s: u8 = 1u8 << k;
        let old_status = self.status;
        if flag == PoolStatusBitFlag::Disable {
            self.status = old_status | s;
            assert forall|i: u8| i < 8 implies #[trigger] bit_set(self.status, i) == (i == k
                || bit_set(old_status, i)) by {
                lemma_set_bit(old_status, k, i);
            }
        } else {
            let m: u8 = 255u8 ^ s;
            self.status = old_status & m;
            assert forall|i: u8| i < 8 implies #[trigger] bit_set(self.status, i) == (i != k
                && bit_set(old_status, i)) by {
                lemma_clear_bit(old_status, k, i);
            }
        }
    }

    /// Whether the operation is enabled: true when its bit is clear.
    pub fn get_status_by_bit(&self, bit: PoolStatusBitIndex) -> (r: bool)
        ensures
            r == self.enabled(bit),
    {
        let status: u8 = 1u8 << bit_index(bit);
        self.status & status == 0
    }

    /// The reserves the curve may price against: each vault balance less
    /// the protocol fees, fund fees and tax accrued in its token. `None` when
    /// the accrued amounts exceed a balance, which only a prior accounting
    /// error can cause.
    pub fn vault_amount_without_fee(&self, vault_0: u64, vault_1: u64) -> (r: Option<(u64, u64)>)
        ensures
            r is Some <==> (self.accrued_0() <= vault_0 && self.accrued_1() <= vault_1),
            r matches Some(v) ==> v.0 == vault_0 - self.accrued_0() && v.1 == vault_1
                - self.accrued_1(),
    {
        let accrued_0: u128 = self.protocol_fees_token_0 as u128 + self.fund_fees_token_0 as u128
            + self.tax_amount_0 as u128;
        let accrued_1: u128 = self.protocol_fees_token_1 as u128 + self.fund_fees_token_1 as u128
            + self.tax_amount_1 as u128;
        if accrued_0 > vault_0 as u128 || accrued_1 > vault_1 as u128 {
            return None;
        }
        Some(((vault_0 as u128 - accrued_0) as u64, (vault_1 as u128 - accrued_1) as u64))
    }

    /// Points tax at token 0 or token 1 and sets both tax rates.
    pub fn update_tax(&mut self, tax_use_token_0: bool, in_tax_rate: u64, out_tax_rate: u64)
        requires
            in_tax_rate <= FEE_RATE_DENOMINATOR_VALUE,
            out_tax_rate <= FEE_RATE_DENOMINATOR_VALUE,
        ensures
            *final(self) == (PoolState { tax_use_token_0, in_tax_rate, out_tax_rate, ..*old(self) }),
    {
        self.tax_use_token_0 = tax_use_token_0;
        self.in_tax_rate = in_tax_rate;
        self.out_tax_rate = out_tax_rate;
    }

    /// Sets the liquidity-provider fee rate; with the configuration's trade
    /// fee rate it may not exceed the denominator.
    pub fn update_lp_fee(&mut self, lp_fee_rate: u64, trade_fee_rate: u64)
        requires
            lp_fee_rate + trade_fee_rate <= FEE_RATE_DENOMINATOR_VALUE,
        ensures
            *final(self) == (PoolState { lp_fee_rate, ..*old(self) }),
    {
        self.lp_fee_rate = lp_fee_rate;
    }

    /// Drains the pending tax of both tokens and returns it as
    /// `(token 0, token 1)`. Refused while tax is disabled or when nothing
    /// is pending; a refusal changes nothing.
    pub fn collect_tax(&mut self) -> (r: Result<(u64, u64), ErrorCode>)
        ensures
            old(self).tax_disabled ==> r == Err::<(u64, u64), ErrorCode>(ErrorCode::TaxDisabled),
            !old(self).tax_disabled && old(self).tax_amount_0 == 0 && old(self).tax_amount_1 == 0
                ==> r == Err::<(u64, u64), ErrorCode>(ErrorCode::NoPendingTax),
            r is Ok ==> r == Ok::<(u64, u64), ErrorCode>(
                (old(self).tax_amount_0, old(self).tax_amount_1),
            ) && *final(self) == (PoolState { tax_amount_0: 0, tax_amount_1: 0, ..*old(self) }),
            r is Err ==> *final(self) == *old(self),
            r is Ok <==> !old(self).tax_disabled && (old(self).tax_amount_0 > 0
                || old(self).tax_amount_1 > 0),
    {
        if self.tax_disabled {
            return Err(ErrorCode::TaxDisabled);
        }
        let amount_0 = self.tax_amount_0;
        let amount_1 = self.tax_amount_1;
        if amount_0 == 0 && amount_1 == 0 {
            return Err(ErrorCode::NoPendingTax);
        }
        self.tax_amount_0 = 0;
        self.tax_amount_1 = 0;
        Ok((amount_0, amount_1))
    }
}

} // verus!
