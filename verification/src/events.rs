//! Typed events: one per successful mutating operation.
//!
//! An event carries the record's address, the relevant amount or identity,
//! and the operation's timestamp. Events describe what happened (and, for
//! balance-moving operations, the transfer the runtime must perform); they
//! are consumed off-path and are never required for correctness.

use vstd::prelude::*;

use crate::state::AccountId;

verus! {

/// A new record was created.
#[derive(Clone, Copy, Debug, PartialEq, Eq)]
pub struct EscrowInitialized {
    pub escrow: AccountId,
    pub user: AccountId,
    pub token_mint: AccountId,
    pub timestamp: i64,
}

/// The owner deposited `amount`; the held balance becomes `new_balance`.
#[derive(Clone, Copy, Debug, PartialEq, Eq)]
pub struct TokenDeposit {
    pub escrow: AccountId,
    pub amount: u64,
    pub new_balance: u64,
    pub timestamp: i64,
}

/// A platform authority was delegated.
#[derive(Clone, Copy, Debug, PartialEq, Eq)]
pub struct PlatformAuthorityDelegated {
    pub escrow: AccountId,
    pub authority: AccountId,
    pub timestamp: i64,
}

/// A trading authority was delegated.
#[derive(Clone, Copy, Debug, PartialEq, Eq)]
pub struct TradingAuthorityDelegated {
    pub escrow: AccountId,
    pub authority: AccountId,
    pub timestamp: i64,
}

/// The platform authority slot was cleared.
#[derive(Clone, Copy, Debug, PartialEq, Eq)]
pub struct PlatformAuthorityRevoked {
    pub escrow: AccountId,
    pub timestamp: i64,
}

/// The trading authority slot was cleared.
#[derive(Clone, Copy, Debug, PartialEq, Eq)]
pub struct TradingAuthorityRevoked {
    pub escrow: AccountId,
    pub timestamp: i64,
}

/// The owner withdrew `amount`, leaving `remaining_balance` held.
#[derive(Clone, Copy, Debug, PartialEq, Eq)]
pub struct TokenWithdraw {
    pub escrow: AccountId,
    pub amount: u64,
    pub remaining_balance: u64,
    pub timestamp: i64,
}

/// The platform authority collected a fee of `amount`.
#[derive(Clone, Copy, Debug, PartialEq, Eq)]
pub struct SubscriptionFeeWithdraw {
    pub escrow: AccountId,
    pub amount: u64,
    pub remaining_balance: u64,
    pub timestamp: i64,
}

/// The trading authority drew `amount` for a trade.
#[derive(Clone, Copy, Debug, PartialEq, Eq)]
pub struct TradeWithdraw {
    pub escrow: AccountId,
    pub amount: u64,
    pub remaining_balance: u64,
    pub timestamp: i64,
}

/// The owner withdrew `amount` while the record was paused.
#[derive(Clone, Copy, Debug, PartialEq, Eq)]
pub struct EmergencyWithdrawal {
    pub escrow: AccountId,
    pub amount: u64,
    pub timestamp: i64,
}

/// The record was paused.
#[derive(Clone, Copy, Debug, PartialEq, Eq)]
pub struct EscrowPaused {
    pub escrow: AccountId,
    pub timestamp: i64,
}

/// The record was unpaused.
#[derive(Clone, Copy, Debug, PartialEq, Eq)]
pub struct EscrowUnpaused {
    pub escrow: AccountId,
    pub timestamp: i64,
}

/// The record was destroyed and its reserve returned to the owner.
#[derive(Clone, Copy, Debug, PartialEq, Eq)]
pub struct EscrowClosed {
    pub escrow: AccountId,
    pub timestamp: i64,
}

} // verus!
