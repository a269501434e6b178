//! The one discrete error kind each failed operation reports.

use vstd::prelude::*;

verus! {

/// Every way an escrow operation can refuse to act.
///
/// An operation validates its preconditions in a fixed order and returns the
/// first failure with no effect on the record.
#[derive(Clone, Copy, Debug, PartialEq, Eq, Structural)]
pub enum EscrowError {
    /// Caller is not the record's owner.
    Unauthorized,
    /// Amount must be strictly positive.
    InvalidAmount,
    /// Held balance is smaller than the requested amount.
    InsufficientBalance,
    /// An authority is still active; revoke before withdrawing or closing.
    EscrowStillActive,
    /// Held balance is still above the dust threshold at closure.
    EscrowNotEmpty,
    /// A checked addition would overflow.
    MathOverflow,
    /// The null identity cannot be delegated to.
    InvalidAuthority,
    /// The record is paused.
    EscrowPaused,
    /// Emergency withdrawal requires the paused state.
    EscrowNotPaused,
    /// Balance ceiling exceeded.
    MaxBalanceExceeded,
    /// No platform authority is set.
    PlatformAuthorityNotSet,
    /// No trading authority is set.
    TradingAuthorityNotSet,
    /// Amount exceeds the applicable per-call cap.
    AmountTooLarge,
    /// The supplied token mint does not match the record's.
    InvalidTokenMint,
    /// The destination account is not acceptable.
    InvalidDestination,
    /// The transaction's deadline has passed.
    DeadlineExceeded,
    /// The record's configured lifetime has elapsed.
    EscrowExpired,
    /// A lifetime must be non-negative.
    InvalidLifetime,
    /// The platform authority's time-lock has not matured.
    PlatformAuthorityTooNew,
    /// The trading authority's time-lock has not matured.
    TradingAuthorityTooNew,
    /// Nonce mismatch: the request is stale.
    StaleTransaction,
    /// The unpause cooldown has not elapsed.
    CooldownNotElapsed,
    /// Token decimal precision outside the accepted range.
    InvalidTokenDecimals,
    /// The holding sub-account's reclaimable reserve is below the floor.
    RentNotRecovered,
    /// Caller is not the record's platform authority.
    UnauthorizedPlatform,
    /// Caller is not the record's trading authority.
    UnauthorizedTrading,
    /// The platform authority slot is already occupied.
    PlatformAuthorityAlreadySet,
    /// The trading authority slot is already occupied.
    TradingAuthorityAlreadySet,
}

} // verus!
