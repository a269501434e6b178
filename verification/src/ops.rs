//! The thirteen permissioned operations on an escrow record.
//!
//! Each operation follows the checks → effects → interactions template: it
//! validates every precondition in a fixed order against the record, the
//! caller's proven identity, the externally read held balance, and the
//! current time; on the first failure it returns that error with the record
//! untouched; only when all checks pass does it mutate the record and return
//! the event describing the transfer the runtime must then perform.
//!
//! For every operation a `..._check` spec function states the exact verdict
//! — which error, or success — and a `..._applied` spec function states the
//! exact new record; the operation's contract ties its result to both.

use vstd::prelude::*;

use crate::constants::DEFAULT_MAX_BALANCE;
use crate::constants::DUST_THRESHOLD;
use crate::constants::MAX_ALLOWED_BALANCE;
use crate::constants::MAX_SUBSCRIPTION_FEE;
use crate::constants::MAX_TRANSACTION_AMOUNT;
use crate::constants::MAX_TOKEN_DECIMALS;
use crate::constants::MIN_RENT_EXEMPT_LAMPORTS;
use crate::constants::MIN_TOKEN_DECIMALS;
use crate::errors::EscrowError;
use crate::events::EmergencyWithdrawal;
use crate::events::EscrowClosed;
use crate::events::EscrowInitialized;
use crate::events::EscrowPaused;
use crate::events::EscrowUnpaused;
use crate::events::PlatformAuthorityDelegated;
use crate::events::PlatformAuthorityRevoked;
use crate::events::SubscriptionFeeWithdraw;
use crate::events::TokenDeposit;
use crate::events::TokenWithdraw;
use crate::events::TradeWithdraw;
use crate::events::TradingAuthorityDelegated;
use crate::events::TradingAuthorityRevoked;
use crate::state::nonce_after;
use crate::state::mutating_step;
use crate::state::AccountId;
use crate::state::EscrowAccount;

verus! {

// ===== Initialization =====

/// Verdict of the initialization checks: a requested ceiling above the
/// absolute maximum is refused, as is a mint precision outside the accepted
/// range.
pub open spec fn initialize_escrow_check(max_balance: u64, mint_decimals: u8) -> Result<
    (),
    EscrowError,
> {
    if max_balance > 0 && max_balance > MAX_ALLOWED_BALANCE {
        Err(EscrowError::MaxBalanceExceeded)
    } else if !(MIN_TOKEN_DECIMALS <= mint_decimals && mint_decimals <= MAX_TOKEN_DECIMALS) {
        Err(EscrowError::InvalidTokenDecimals)
    } else {
        Ok(())
    }
}

/// The freshly created record: everything zeroed but the owner, the mint,
/// the address salt, the creation time, and the ceiling (the default when
/// the owner requested none).
pub open spec fn initialized_record(
    user: AccountId,
    token_mint: AccountId,
    bump: u8,
    max_balance: u64,
    now: i64,
) -> EscrowAccount {
    EscrowAccount {
        user,
        platform_authority: None,
        trading_authority: None,
        token_mint,
        bump,
        platform_active: false,
        trading_active: false,
        paused: false,
        created_at: now,
        platform_activated_at: 0,
        trading_activated_at: 0,
        last_paused_at: 0,
        action_nonce: 0,
        total_deposited: 0,
        total_withdrawn: 0,
        total_fees_paid: 0,
        total_traded: 0,
        max_balance: if max_balance == 0 {
            DEFAULT_MAX_BALANCE
        } else {
            max_balance
        },
        max_lifetime: 0,
        reserved: vstd::array::spec_array_fill_for_copy_type::<u8, 176>(0u8),
    }
}

/// Create a record for `user`, holding assets of `token_mint`.
///
/// `mint_decimals` is the asset's decimal precision as the runtime read it;
/// `max_balance` is the requested ceiling, 0 meaning the default; `now` is
/// the creation timestamp. On success the runtime must create the holding
/// sub-account, as the returned event announces.
pub fn initialize_escrow(
    escrow_key: AccountId,
    user: AccountId,
    token_mint: AccountId,
    mint_decimals: u8,
    bump: u8,
    max_balance: u64,
    now: i64,
) -> (r: Result<(EscrowAccount, EscrowInitialized), EscrowError>)
    ensures
        ({
            let verdict = initialize_escrow_check(max_balance, mint_decimals);
            match verdict {
                Ok(()) => r matches Ok((e, ev)) && e == initialized_record(
                    user,
                    token_mint,
                    bump,
                    max_balance,
                    now,
                ) && ev == (EscrowInitialized { escrow: escrow_key, user, token_mint, timestamp: now }),
                Err(reason) => r matches Err(got) && got == reason,
            }
        }),
        r matches Ok((e, ev)) ==> e.wf() && 0 < e.max_balance <= MAX_ALLOWED_BALANCE,
{
    if max_balance > 0 && max_balance > MAX_ALLOWED_BALANCE {
        return Err(EscrowError::MaxBalanceExceeded);
    }
    if !(MIN_TOKEN_DECIMALS <= mint_decimals && mint_decimals <= MAX_TOKEN_DECIMALS) {
        return Err(EscrowError::InvalidTokenDecimals);
    }
    let ceiling = if max_balance == 0 {
        DEFAULT_MAX_BALANCE
    } else {
        max_balance
    };
    let record = EscrowAccount {
        user,
        platform_authority: None,
        trading_authority: None,
        token_mint,
        bump,
        platform_active: false,
        trading_active: false,
        paused: false,
        created_at: now,
        platform_activated_at: 0,
        trading_activated_at: 0,
        last_paused_at: 0,
        action_nonce: 0,
        total_deposited: 0,
        total_withdrawn: 0,
        total_fees_paid: 0,
        total_traded: 0,
        max_balance: ceiling,
        max_lifetime: 0,
        reserved: [0u8; 176],
    };
    Ok((record, EscrowInitialized { escrow: escrow_key, user, token_mint, timestamp: now }))
}

// ===== Deposit =====

/// Verdict of the deposit checks, in the order the operation makes them:
/// owner only; not paused; positive amount; not expired; the held balance
/// plus the amount must fit in `u64` and stay within the ceiling (where one
/// is configured); the deposit accumulator must not overflow.
pub open spec fn deposit_token_check(
    e: EscrowAccount,
    caller: AccountId,
    amount: u64,
    current_balance: u64,
    now: int,
) -> Result<(), EscrowError> {
    if caller != e.user {
        Err(EscrowError::Unauthorized)
    } else if e.paused {
        Err(EscrowError::EscrowPaused)
    } else if amount == 0 {
        Err(EscrowError::InvalidAmount)
    } else if e.spec_is_expired(now) {
        Err(EscrowError::EscrowExpired)
    } else if current_balance + amount > u64::MAX {
        Err(EscrowError::MathOverflow)
    } else if e.max_balance > 0 && current_balance + amount > e.max_balance {
        Err(EscrowError::MaxBalanceExceeded)
    } else if e.total_deposited + amount > u64::MAX {
        Err(EscrowError::MathOverflow)
    } else {
        Ok(())
    }
}

/// The record after a successful deposit: the deposit accumulator grows by
/// the amount and the nonce advances; nothing else moves.
pub open spec fn deposit_token_applied(e: EscrowAccount, amount: u64) -> EscrowAccount {
    EscrowAccount {
        total_deposited: (e.total_deposited + amount) as u64,
        action_nonce: nonce_after(e.action_nonce),
        ..e
    }
}

/// Deposit `amount` into the record's holding sub-account.
///
/// `current_balance` is the held balance the runtime read at the start of
/// the operation; on success the runtime must pull `amount` from the owner
/// into the sub-account, as the returned event describes.
pub fn deposit_token(
    escrow: &mut EscrowAccount,
    escrow_key: AccountId,
    caller: AccountId,
    amount: u64,
    current_balance: u64,
    now: i64,
) -> (r: Result<TokenDeposit, EscrowError>)
    ensures
        ({
            let verdict = deposit_token_check(*old(escrow), caller, amount, current_balance, now as int);
            match verdict {
                Ok(()) => r matches Ok(ev) && ev == (TokenDeposit {
                    escrow: escrow_key,
                    amount,
                    new_balance: (current_balance + amount) as u64,
                    timestamp: now,
                }) && *final(escrow) == deposit_token_applied(*old(escrow), amount),
                Err(reason) => r matches Err(got) && got == reason && *final(escrow) == *old(
                    escrow,
                ),
            }
        }),
        r is Ok ==> mutating_step(*old(escrow), *final(escrow)),
        r is Ok && old(escrow).wf() ==> final(escrow).wf(),
{
    if caller != escrow.user {
        return Err(EscrowError::Unauthorized);
    }
    if escrow.is_paused() {
        return Err(EscrowError::EscrowPaused);
    }
    if amount == 0 {
        return Err(EscrowError::InvalidAmount);
    }
    if escrow.is_expired(now) {
        return Err(EscrowError::EscrowExpired);
    }
    if amount > u64::MAX - current_balance {
        return Err(EscrowError::MathOverflow);
    }
    let new_balance = current_balance + amount;
    if escrow.max_balance > 0 && new_balance > escrow.max_balance {
        return Err(EscrowError::MaxBalanceExceeded);
    }
    if amount > u64::MAX - escrow.total_deposited {
        return Err(EscrowError::MathOverflow);
    }
    escrow.total_deposited = escrow.total_deposited + amount;
    escrow.action_nonce = if escrow.action_nonce == u64::MAX {
        0
    } else {
        escrow.action_nonce + 1
    };
    Ok(TokenDeposit { escrow: escrow_key, amount, new_balance, timestamp: now })
}

// ===== Authority delegation =====

/// Verdict of the platform-delegation checks: owner only; not paused; the
/// target must not be the null identity; the slot must be free; the record
/// must not be expired.
pub open spec fn delegate_platform_authority_check(
    e: EscrowAccount,
    caller: AccountId,
    authority: AccountId,
    now: int,
) -> Result<(), EscrowError> {
    if caller != e.user {
        Err(EscrowError::Unauthorized)
    } else if e.paused {
        Err(EscrowError::EscrowPaused)
    } else if authority.spec_is_null() {
        Err(EscrowError::InvalidAuthority)
    } else if e.platform_authority is Some {
        Err(EscrowError::PlatformAuthorityAlreadySet)
    } else if e.spec_is_expired(now) {
        Err(EscrowError::EscrowExpired)
    } else {
        Ok(())
    }
}

/// The record after a successful platform delegation: the slot is filled,
/// its flag raised, its activation time stamped, and the nonce advances.
pub open spec fn delegate_platform_authority_applied(
    e: EscrowAccount,
    authority: AccountId,
    now: i64,
) -> EscrowAccount {
    EscrowAccount {
        platform_authority: Some(authority),
        platform_active: true,
        platform_activated_at: now,
        action_nonce: nonce_after(e.action_nonce),
        ..e
    }
}

/// Delegate the fee-collection right to `platform_authority`. The delegate
/// may not act before its time-lock matures.
pub fn delegate_platform_authority(
    escrow: &mut EscrowAccount,
    escrow_key: AccountId,
    caller: AccountId,
    platform_authority: AccountId,
    now: i64,
) -> (r: Result<PlatformAuthorityDelegated, EscrowError>)
    ensures
        ({
            let verdict = delegate_platform_authority_check(
                *old(escrow),
                caller,
                platform_authority,
                now as int,
            );
            match verdict {
                Ok(()) => r matches Ok(ev) && ev == (PlatformAuthorityDelegated {
                    escrow: escrow_key,
                    authority: platform_authority,
                    timestamp: now,
                }) && *final(escrow) == delegate_platform_authority_applied(
                    *old(escrow),
                    platform_authority,
                    now,
                ),
                Err(reason) => r matches Err(got) && got == reason && *final(escrow) == *old(
                    escrow,
                ),
            }
        }),
        r is Ok ==> mutating_step(*old(escrow), *final(escrow)),
        r is Ok && old(escrow).wf() ==> final(escrow).wf(),
{
    if caller != escrow.user {
        return Err(EscrowError::Unauthorized);
    }
    if escrow.is_paused() {
        return Err(EscrowError::EscrowPaused);
    }
    if platform_authority.is_null() {
        return Err(EscrowError::InvalidAuthority);
    }
    if escrow.platform_authority.is_some() {
        return Err(EscrowError::PlatformAuthorityAlreadySet);
    }
    if escrow.is_expired(now) {
        return Err(EscrowError::EscrowExpired);
    }
    escrow.platform_authority = Some(platform_authority);
    escrow.set_platform_active(true);
    escrow.platform_activated_at = now;
    escrow.action_nonce = if escrow.action_nonce == u64::MAX {
        0
    } else {
        escrow.action_nonce + 1
    };
    Ok(PlatformAuthorityDelegated { escrow: escrow_key, authority: platform_authority, timestamp: now })
}

/// Verdict of the trading-delegation checks, under the same rules as the
/// platform slot.
pub open spec fn delegate_trading_authority_check(
    e: EscrowAccount,
    caller: AccountId,
    authority: AccountId,
    now: int,
) -> Result<(), EscrowError> {
    if caller != e.user {
        Err(EscrowError::Unauthorized)
    } else if e.paused {
        Err(EscrowError::EscrowPaused)
    } else if authority.spec_is_null() {
        Err(EscrowError::InvalidAuthority)
    } else if e.trading_authority is Some {
        Err(EscrowError::TradingAuthorityAlreadySet)
    } else if e.spec_is_expired(now) {
        Err(EscrowError::EscrowExpired)
    } else {
        Ok(())
    }
}

/// The record after a successful trading delegation.
pub open spec fn delegate_trading_authority_applied(
    e: EscrowAccount,
    authority: AccountId,
    now: i64,
) -> EscrowAccount {
    EscrowAccount {
        trading_authority: Some(authority),
        trading_active: true,
        trading_activated_at: now,
        action_nonce: nonce_after(e.action_nonce),
        ..e
    }
}

/// Delegate the trade-execution right to `trading_authority`. The delegate
/// may not act before its time-lock matures.
pub fn delegate_trading_authority(
    escrow: &mut EscrowAccount,
    escrow_key: AccountId,
    caller: AccountId,
    trading_authority: AccountId,
    now: i64,
) -> (r: Result<TradingAuthorityDelegated, EscrowError>)
    ensures
        ({
            let verdict = delegate_trading_authority_check(
                *old(escrow),
                caller,
                trading_authority,
                now as int,
            );
            match verdict {
                Ok(()) => r matches Ok(ev) && ev == (TradingAuthorityDelegated {
                    escrow: escrow_key,
                    authority: trading_authority,
                    timestamp: now,
                }) && *final(escrow) == delegate_trading_authority_applied(
                    *old(escrow),
                    trading_authority,
                    now,
                ),
                Err(reason) => r matches Err(got) && got == reason && *final(escrow) == *old(
                    escrow,
                ),
            }
        }),
        r is Ok ==> mutating_step(*old(escrow), *final(escrow)),
        r is Ok && old(escrow).wf() ==> final(escrow).wf(),
{
    if caller != escrow.user {
        return Err(EscrowError::Unauthorized);
    }
    if escrow.is_paused() {
        return Err(EscrowError::EscrowPaused);
    }
    if trading_authority.is_null() {
        return Err(EscrowError::InvalidAuthority);
    }
    if escrow.trading_authority.is_some() {
        return Err(EscrowError::TradingAuthorityAlreadySet);
    }
    if escrow.is_expired(now) {
        return Err(EscrowError::EscrowExpired);
    }
    escrow.trading_authority = Some(trading_authority);
    escrow.set_trading_active(true);
    escrow.trading_activated_at = now;
    escrow.action_nonce = if escrow.action_nonce == u64::MAX {
        0
    } else {
        escrow.action_nonce + 1
    };
    Ok(TradingAuthorityDelegated { escrow: escrow_key, authority: trading_authority, timestamp: now })
}

// ===== Authority revocation =====

/// Verdict of the revocation checks: owner only; not paused. Revoking a slot
/// that was never filled is a no-op success.
pub open spec fn revoke_authority_check(e: EscrowAccount, caller: AccountId) -> Result<
    (),
    EscrowError,
> {
    if caller != e.user {
        Err(EscrowError::Unauthorized)
    } else if e.paused {
        Err(EscrowError::EscrowPaused)
    } else {
        Ok(())
    }
}

/// The record after a platform revocation: the slot is null again, its flag
/// lowered, its activation time zeroed, and the nonce advances.
pub open spec fn revoke_platform_authority_applied(e: EscrowAccount) -> EscrowAccount {
    EscrowAccount {
        platform_authority: None,
        platform_active: false,
        platform_activated_at: 0,
        action_nonce: nonce_after(e.action_nonce),
        ..e
    }
}

/// Clear the platform-authority slot, whether or not it was filled.
pub fn revoke_platform_authority(
    escrow: &mut EscrowAccount,
    escrow_key: AccountId,
    caller: AccountId,
    now: i64,
) -> (r: Result<PlatformAuthorityRevoked, EscrowError>)
    ensures
        ({
            let verdict = revoke_authority_check(*old(escrow), caller);
            match verdict {
                Ok(()) => r matches Ok(ev) && ev == (PlatformAuthorityRevoked {
                    escrow: escrow_key,
                    timestamp: now,
                }) && *final(escrow) == revoke_platform_authority_applied(*old(escrow)),
                Err(reason) => r matches Err(got) && got == reason && *final(escrow) == *old(
                    escrow,
                ),
            }
        }),
        r is Ok ==> mutating_step(*old(escrow), *final(escrow)),
        r is Ok ==> final(escrow).platform_authority is None,
        r is Ok && old(escrow).wf() ==> final(escrow).wf(),
{
    if caller != escrow.user {
        return Err(EscrowError::Unauthorized);
    }
    if escrow.is_paused() {
        return Err(EscrowError::EscrowPaused);
    }
    escrow.platform_authority = None;
    escrow.set_platform_active(false);
    escrow.platform_activated_at = 0;
    escrow.action_nonce = if escrow.action_nonce == u64::MAX {
        0
    } else {
        escrow.action_nonce + 1
    };
    Ok(PlatformAuthorityRevoked { escrow: escrow_key, timestamp: now })
}

/// The record after a trading revocation.
pub open spec fn revoke_trading_authority_applied(e: EscrowAccount) -> EscrowAccount {
    EscrowAccount {
        trading_authority: None,
        trading_active: false,
        trading_activated_at: 0,
        action_nonce: nonce_after(e.action_nonce),
        ..e
    }
}

/// Clear the trading-authority slot, whether or not it was filled.
pub fn revoke_trading_authority(
    escrow: &mut EscrowAccount,
    escrow_key: AccountId,
    caller: AccountId,
    now: i64,
) -> (r: Result<TradingAuthorityRevoked, EscrowError>)
    ensures
        ({
            let verdict = revoke_authority_check(*old(escrow), caller);
            match verdict {
                Ok(()) => r matches Ok(ev) && ev == (TradingAuthorityRevoked {
                    escrow: escrow_key,
                    timestamp: now,
                }) && *final(escrow) == revoke_trading_authority_applied(*old(escrow)),
                Err(reason) => r matches Err(got) && got == reason && *final(escrow) == *old(
                    escrow,
                ),
            }
        }),
        r is Ok ==> mutating_step(*old(escrow), *final(escrow)),
        r is Ok ==> final(escrow).trading_authority is None,
        r is Ok && old(escrow).wf() ==> final(escrow).wf(),
{
    if caller != escrow.user {
        return Err(EscrowError::Unauthorized);
    }
    if escrow.is_paused() {
        return Err(EscrowError::EscrowPaused);
    }
    escrow.trading_authority = None;
    escrow.set_trading_active(false);
    escrow.trading_activated_at = 0;
    escrow.action_nonce = if escrow.action_nonce == u64::MAX {
        0
    } else {
        escrow.action_nonce + 1
    };
    Ok(TradingAuthorityRevoked { escrow: escrow_key, timestamp: now })
}

// ===== Delegate withdrawals =====

/// Verdict of the fee-withdrawal checks, in the order the operation makes
/// them: not paused; positive amount; within the per-period fee cap — the
/// cap binds before the balance is even looked at; the caller must be the
/// record's platform authority, and mature; the held balance must cover the
/// amount; the fee accumulator must not overflow.
pub open spec fn withdraw_subscription_fee_check(
    e: EscrowAccount,
    caller: AccountId,
    amount: u64,
    current_balance: u64,
    now: int,
) -> Result<(), EscrowError> {
    if e.paused {
        Err(EscrowError::EscrowPaused)
    } else if amount == 0 {
        Err(EscrowError::InvalidAmount)
    } else if amount > MAX_SUBSCRIPTION_FEE {
        Err(EscrowError::AmountTooLarge)
    } else if e.platform_authority != Some(caller) {
        Err(EscrowError::UnauthorizedPlatform)
    } else if !e.spec_is_platform_authority_mature(now) {
        Err(EscrowError::PlatformAuthorityTooNew)
    } else if amount > current_balance {
        Err(EscrowError::InsufficientBalance)
    } else if e.total_fees_paid + amount > u64::MAX {
        Err(EscrowError::MathOverflow)
    } else {
        Ok(())
    }
}

/// The record after a successful fee withdrawal.
pub open spec fn withdraw_subscription_fee_applied(e: EscrowAccount, amount: u64) -> EscrowAccount {
    EscrowAccount {
        total_fees_paid: (e.total_fees_paid + amount) as u64,
        action_nonce: nonce_after(e.action_nonce),
        ..e
    }
}

/// Collect a subscription fee of `amount`: the platform authority's one,
/// capped, drawing right. On success the runtime must push `amount` from the
/// holding sub-account to the platform authority.
pub fn withdraw_subscription_fee(
    escrow: &mut EscrowAccount,
    escrow_key: AccountId,
    caller: AccountId,
    amount: u64,
    current_balance: u64,
    now: i64,
) -> (r: Result<SubscriptionFeeWithdraw, EscrowError>)
    ensures
        ({
            let verdict = withdraw_subscription_fee_check(
                *old(escrow),
                caller,
                amount,
                current_balance,
                now as int,
            );
            match verdict {
                Ok(()) => r matches Ok(ev) && ev == (SubscriptionFeeWithdraw {
                    escrow: escrow_key,
                    amount,
                    remaining_balance: (current_balance - amount) as u64,
                    timestamp: now,
                }) && *final(escrow) == withdraw_subscription_fee_applied(*old(escrow), amount),
                Err(reason) => r matches Err(got) && got == reason && *final(escrow) == *old(
                    escrow,
                ),
            }
        }),
        r is Ok ==> mutating_step(*old(escrow), *final(escrow)),
        r is Ok && old(escrow).wf() ==> final(escrow).wf(),
{
    if escrow.is_paused() {
        return Err(EscrowError::EscrowPaused);
    }
    if amount == 0 {
        return Err(EscrowError::InvalidAmount);
    }
    if amount > MAX_SUBSCRIPTION_FEE {
        return Err(EscrowError::AmountTooLarge);
    }
    let authorized = match &escrow.platform_authority {
        Some(a) => *a == caller,
        None => false,
    };
    if !authorized {
        return Err(EscrowError::UnauthorizedPlatform);
    }
    if !escrow.is_platform_authority_mature(now) {
        return Err(EscrowError::PlatformAuthorityTooNew);
    }
    if amount > current_balance {
        return Err(EscrowError::InsufficientBalance);
    }
    if amount > u64::MAX - escrow.total_fees_paid {
        return Err(EscrowError::MathOverflow);
    }
    escrow.total_fees_paid = escrow.total_fees_paid + amount;
    escrow.action_nonce = if escrow.action_nonce == u64::MAX {
        0
    } else {
        escrow.action_nonce + 1
    };
    Ok(
        SubscriptionFeeWithdraw {
            escrow: escrow_key,
            amount,
            remaining_balance: current_balance - amount,
            timestamp: now,
        },
    )
}

/// Verdict of the trade-withdrawal checks, mirroring the fee path with the
/// per-transaction cap and the trading authority.
pub open spec fn withdraw_for_trade_check(
    e: EscrowAccount,
    caller: AccountId,
    amount: u64,
    current_balance: u64,
    now: int,
) -> Result<(), EscrowError> {
    if e.paused {
        Err(EscrowError::EscrowPaused)
    } else if amount == 0 {
        Err(EscrowError::InvalidAmount)
    } else if amount > MAX_TRANSACTION_AMOUNT {
        Err(EscrowError::AmountTooLarge)
    } else if e.trading_authority != Some(caller) {
        Err(EscrowError::UnauthorizedTrading)
    } else if !e.spec_is_trading_authority_mature(now) {
        Err(EscrowError::TradingAuthorityTooNew)
    } else if amount > current_balance {
        Err(EscrowError::InsufficientBalance)
    } else if e.total_traded + amount > u64::MAX {
        Err(EscrowError::MathOverflow)
    } else {
        Ok(())
    }
}

/// The record after a successful trade withdrawal.
pub open spec fn withdraw_for_trade_applied(e: EscrowAccount, amount: u64) -> EscrowAccount {
    EscrowAccount {
        total_traded: (e.total_traded + amount) as u64,
        action_nonce: nonce_after(e.action_nonce),
        ..e
    }
}

/// Draw `amount` for trade execution: the trading authority's one, capped,
/// drawing right. On success the runtime must push `amount` from the holding
/// sub-account to the trading authority.
pub fn withdraw_for_trade(
    escrow: &mut EscrowAccount,
    escrow_key: AccountId,
    caller: AccountId,
    amount: u64,
    current_balance: u64,
    now: i64,
) -> (r: Result<TradeWithdraw, EscrowError>)
    ensures
        ({
            let verdict = withdraw_for_trade_check(
                *old(escrow),
                caller,
                amount,
                current_balance,
                now as int,
            );
            match verdict {
                Ok(()) => r matches Ok(ev) && ev == (TradeWithdraw {
                    escrow: escrow_key,
                    amount,
                    remaining_balance: (current_balance - amount) as u64,
                    timestamp: now,
                }) && *final(escrow) == withdraw_for_trade_applied(*old(escrow), amount),
                Err(reason) => r matches Err(got) && got == reason && *final(escrow) == *old(
                    escrow,
                ),
            }
        }),
        r is Ok ==> mutating_step(*old(escrow), *final(escrow)),
        r is Ok && old(escrow).wf() ==> final(escrow).wf(),
{
    if escrow.is_paused() {
        return Err(EscrowError::EscrowPaused);
    }
    if amount == 0 {
        return Err(EscrowError::InvalidAmount);
    }
    if amount > MAX_TRANSACTION_AMOUNT {
        return Err(EscrowError::AmountTooLarge);
    }
    let authorized = match &escrow.trading_authority {
        Some(a) => *a == caller,
        None => false,
    };
    if !authorized {
        return Err(EscrowError::UnauthorizedTrading);
    }
    if !escrow.is_trading_authority_mature(now) {
        return Err(EscrowError::TradingAuthorityTooNew);
    }
    if amount > current_balance {
        return Err(EscrowError::InsufficientBalance);
    }
    if amount > u64::MAX - escrow.total_traded {
        return Err(EscrowError::MathOverflow);
    }
    escrow.total_traded = escrow.total_traded + amount;
    escrow.action_nonce = if escrow.action_nonce == u64::MAX {
        0
    } else {
        escrow.action_nonce + 1
    };
    Ok(
        TradeWithdraw {
            escrow: escrow_key,
            amount,
            remaining_balance: current_balance - amount,
            timestamp: now,
        },
    )
}

// ===== Owner withdrawals =====

/// Verdict of the owner-withdrawal checks: owner only; not paused; no
/// delegate may hold power — the owner must revoke both slots first; then a
/// positive amount within the held balance, without accumulator overflow.
pub open spec fn withdraw_token_check(
    e: EscrowAccount,
    caller: AccountId,
    amount: u64,
    current_balance: u64,
) -> Result<(), EscrowError> {
    if caller != e.user {
        Err(EscrowError::Unauthorized)
    } else if e.paused {
        Err(EscrowError::EscrowPaused)
    } else if e.spec_has_active_authority() {
        Err(EscrowError::EscrowStillActive)
    } else if amount == 0 {
        Err(EscrowError::InvalidAmount)
    } else if amount > current_balance {
        Err(EscrowError::InsufficientBalance)
    } else if e.total_withdrawn + amount > u64::MAX {
        Err(EscrowError::MathOverflow)
    } else {
        Ok(())
    }
}

/// The record after a successful owner or emergency withdrawal.
pub open spec fn withdraw_token_applied(e: EscrowAccount, amount: u64) -> EscrowAccount {
    EscrowAccount {
        total_withdrawn: (e.total_withdrawn + amount) as u64,
        action_nonce: nonce_after(e.action_nonce),
        ..e
    }
}

/// Withdraw `amount` to the owner. Forbidden while any authority is active,
/// so a delegate's bounded drawing window is exclusive. On success the
/// runtime must push `amount` from the holding sub-account to the owner.
pub fn withdraw_token(
    escrow: &mut EscrowAccount,
    escrow_key: AccountId,
    caller: AccountId,
    amount: u64,
    current_balance: u64,
    now: i64,
) -> (r: Result<TokenWithdraw, EscrowError>)
    ensures
        ({
            let verdict = withdraw_token_check(*old(escrow), caller, amount, current_balance);
            match verdict {
                Ok(()) => r matches Ok(ev) && ev == (TokenWithdraw {
                    escrow: escrow_key,
                    amount,
                    remaining_balance: (current_balance - amount) as u64,
                    timestamp: now,
                }) && *final(escrow) == withdraw_token_applied(*old(escrow), amount),
                Err(reason) => r matches Err(got) && got == reason && *final(escrow) == *old(
                    escrow,
                ),
            }
        }),
        r is Ok ==> mutating_step(*old(escrow), *final(escrow)),
        r is Ok && old(escrow).wf() ==> final(escrow).wf(),
{
    if caller != escrow.user {
        return Err(EscrowError::Unauthorized);
    }
    if escrow.is_paused() {
        return Err(EscrowError::EscrowPaused);
    }
    if escrow.has_active_authority() {
        return Err(EscrowError::EscrowStillActive);
    }
    if amount == 0 {
        return Err(EscrowError::InvalidAmount);
    }
    if amount > current_balance {
        return Err(EscrowError::InsufficientBalance);
    }
    if amount > u64::MAX - escrow.total_withdrawn {
        return Err(EscrowError::MathOverflow);
    }
    escrow.total_withdrawn = escrow.total_withdrawn + amount;
    escrow.action_nonce = if escrow.action_nonce == u64::MAX {
        0
    } else {
        escrow.action_nonce + 1
    };
    Ok(
        TokenWithdraw {
            escrow: escrow_key,
            amount,
            remaining_balance: current_balance - amount,
            timestamp: now,
        },
    )
}

/// Verdict of the emergency-withdrawal checks: owner only; the record must
/// be paused — the inverse of every other operation's pause gate — and no
/// authority may be active; then a positive amount within the held balance,
/// without accumulator overflow.
pub open spec fn emergency_withdraw_check(
    e: EscrowAccount,
    caller: AccountId,
    amount: u64,
    current_balance: u64,
) -> Result<(), EscrowError> {
    if caller != e.user {
        Err(EscrowError::Unauthorized)
    } else if !e.paused {
        Err(EscrowError::EscrowNotPaused)
    } else if e.spec_has_active_authority() {
        Err(EscrowError::EscrowStillActive)
    } else if amount == 0 {
        Err(EscrowError::InvalidAmount)
    } else if amount > current_balance {
        Err(EscrowError::InsufficientBalance)
    } else if e.total_withdrawn + amount > u64::MAX {
        Err(EscrowError::MathOverflow)
    } else {
        Ok(())
    }
}

/// Withdraw `amount` to the owner while the record is paused: the escape
/// hatch for a record frozen by its own safety switch. On success the
/// runtime must push `amount` from the holding sub-account to the owner.
pub fn emergency_withdraw(
    escrow: &mut EscrowAccount,
    escrow_key: AccountId,
    caller: AccountId,
    amount: u64,
    current_balance: u64,
    now: i64,
) -> (r: Result<EmergencyWithdrawal, EscrowError>)
    ensures
        ({
            let verdict = emergency_withdraw_check(*old(escrow), caller, amount, current_balance);
            match verdict {
                Ok(()) => r matches Ok(ev) && ev == (EmergencyWithdrawal {
                    escrow: escrow_key,
                    amount,
                    timestamp: now,
                }) && *final(escrow) == withdraw_token_applied(*old(escrow), amount),
                Err(reason) => r matches Err(got) && got == reason && *final(escrow) == *old(
                    escrow,
                ),
            }
        }),
        r is Ok ==> mutating_step(*old(escrow), *final(escrow)),
        r is Ok && old(escrow).wf() ==> final(escrow).wf(),
{
    if caller != escrow.user {
        return Err(EscrowError::Unauthorized);
    }
    if !escrow.is_paused() {
        return Err(EscrowError::EscrowNotPaused);
    }
    if escrow.has_active_authority() {
        return Err(EscrowError::EscrowStillActive);
    }
    if amount == 0 {
        return Err(EscrowError::InvalidAmount);
    }
    if amount > current_balance {
        return Err(EscrowError::InsufficientBalance);
    }
    if amount > u64::MAX - escrow.total_withdrawn {
        return Err(EscrowError::MathOverflow);
    }
    escrow.total_withdrawn = escrow.total_withdrawn + amount;
    escrow.action_nonce = if escrow.action_nonce == u64::MAX {
        0
    } else {
        escrow.action_nonce + 1
    };
    Ok(EmergencyWithdrawal { escrow: escrow_key, amount, timestamp: now })
}

// ===== Pause, cooldown, lifetime, closure =====

/// The record after a pause: the paused flag set — even if it already was —
/// the pause time restamped, and the nonce advanced.
pub open spec fn pause_escrow_applied(e: EscrowAccount, now: i64) -> EscrowAccount {
    EscrowAccount {
        paused: true,
        last_paused_at: now,
        action_nonce: nonce_after(e.action_nonce),
        ..e
    }
}

/// Pause the record. Owner only; always allowed, and restamps the pause
/// time, which restarts the unpause cooldown.
pub fn pause_escrow(
    escrow: &mut EscrowAccount,
    escrow_key: AccountId,
    caller: AccountId,
    now: i64,
) -> (r: Result<EscrowPaused, EscrowError>)
    ensures
        caller != old(escrow).user ==> (r matches Err(got) && got == EscrowError::Unauthorized
            && *final(escrow) == *old(escrow)),
        caller == old(escrow).user ==> (r matches Ok(ev) && ev == (EscrowPaused {
            escrow: escrow_key,
            timestamp: now,
        }) && *final(escrow) == pause_escrow_applied(*old(escrow), now)),
        r is Ok ==> mutating_step(*old(escrow), *final(escrow)),
        r is Ok && old(escrow).wf() ==> final(escrow).wf(),
{
    if caller != escrow.user {
        return Err(EscrowError::Unauthorized);
    }
    escrow.set_paused(true, now);
    escrow.action_nonce = if escrow.action_nonce == u64::MAX {
        0
    } else {
        escrow.action_nonce + 1
    };
    Ok(EscrowPaused { escrow: escrow_key, timestamp: now })
}

/// Verdict of the unpause checks: owner only; the cooldown since the last
/// pause must have elapsed.
pub open spec fn unpause_escrow_check(e: EscrowAccount, caller: AccountId, now: int) -> Result<
    (),
    EscrowError,
> {
    if caller != e.user {
        Err(EscrowError::Unauthorized)
    } else if !e.spec_can_unpause(now) {
        Err(EscrowError::CooldownNotElapsed)
    } else {
        Ok(())
    }
}

/// The record after an unpause: only the paused flag falls — the pause time
/// keeps its stamp — and the nonce advances.
pub open spec fn unpause_escrow_applied(e: EscrowAccount) -> EscrowAccount {
    EscrowAccount { paused: false, action_nonce: nonce_after(e.action_nonce), ..e }
}

/// Unpause the record, once the cooldown has elapsed.
pub fn unpause_escrow(
    escrow: &mut EscrowAccount,
    escrow_key: AccountId,
    caller: AccountId,
    now: i64,
) -> (r: Result<EscrowUnpaused, EscrowError>)
    ensures
        ({
            let verdict = unpause_escrow_check(*old(escrow), caller, now as int);
            match verdict {
                Ok(()) => r matches Ok(ev) && ev == (EscrowUnpaused {
                    escrow: escrow_key,
                    timestamp: now,
                }) && *final(escrow) == unpause_escrow_applied(*old(escrow)),
                Err(reason) => r matches Err(got) && got == reason && *final(escrow) == *old(
                    escrow,
                ),
            }
        }),
        r is Ok ==> mutating_step(*old(escrow), *final(escrow)),
        r is Ok && old(escrow).wf() ==> final(escrow).wf(),
{
    if caller != escrow.user {
        return Err(EscrowError::Unauthorized);
    }
    if !escrow.can_unpause(now) {
        return Err(EscrowError::CooldownNotElapsed);
    }
    escrow.set_paused(false, now);
    escrow.action_nonce = if escrow.action_nonce == u64::MAX {
        0
    } else {
        escrow.action_nonce + 1
    };
    Ok(EscrowUnpaused { escrow: escrow_key, timestamp: now })
}

/// Verdict of the lifetime update: owner only; the duration must be
/// non-negative, 0 meaning no expiry.
pub open spec fn set_max_lifetime_check(
    e: EscrowAccount,
    caller: AccountId,
    max_lifetime_seconds: i64,
) -> Result<(), EscrowError> {
    if caller != e.user {
        Err(EscrowError::Unauthorized)
    } else if max_lifetime_seconds < 0 {
        Err(EscrowError::InvalidLifetime)
    } else {
        Ok(())
    }
}

/// The record after a lifetime update.
pub open spec fn set_max_lifetime_applied(
    e: EscrowAccount,
    max_lifetime_seconds: i64,
) -> EscrowAccount {
    EscrowAccount {
        max_lifetime: max_lifetime_seconds,
        action_nonce: nonce_after(e.action_nonce),
        ..e
    }
}

/// Set the record's maximum lifetime, in seconds after creation; 0 removes
/// the expiry.
pub fn set_max_lifetime(
    escrow: &mut EscrowAccount,
    caller: AccountId,
    max_lifetime_seconds: i64,
) -> (r: Result<(), EscrowError>)
    ensures
        ({
            let verdict = set_max_lifetime_check(*old(escrow), caller, max_lifetime_seconds);
            match verdict {
                Ok(()) => r is Ok && *final(escrow) == set_max_lifetime_applied(
                    *old(escrow),
                    max_lifetime_seconds,
                ),
                Err(reason) => r matches Err(got) && got == reason && *final(escrow) == *old(
                    escrow,
                ),
            }
        }),
        r is Ok ==> mutating_step(*old(escrow), *final(escrow)),
        r is Ok && old(escrow).wf() ==> final(escrow).wf(),
{
    if caller != escrow.user {
        return Err(EscrowError::Unauthorized);
    }
    if max_lifetime_seconds < 0 {
        return Err(EscrowError::InvalidLifetime);
    }
    escrow.max_lifetime = max_lifetime_seconds;
    escrow.action_nonce = if escrow.action_nonce == u64::MAX {
        0
    } else {
        escrow.action_nonce + 1
    };
    Ok(())
}

/// Verdict of the closure checks: owner only; not paused; no delegate may
/// hold power; the held balance must be dust at most; and the holding
/// sub-account must still carry its reclaimable reserve, so closure returns
/// it to the owner.
pub open spec fn close_escrow_check(
    e: EscrowAccount,
    caller: AccountId,
    current_balance: u64,
    token_account_lamports: u64,
) -> Result<(), EscrowError> {
    if caller != e.user {
        Err(EscrowError::Unauthorized)
    } else if e.paused {
        Err(EscrowError::EscrowPaused)
    } else if e.spec_has_active_authority() {
        Err(EscrowError::EscrowStillActive)
    } else if current_balance > DUST_THRESHOLD {
        Err(EscrowError::EscrowNotEmpty)
    } else if token_account_lamports < MIN_RENT_EXEMPT_LAMPORTS {
        Err(EscrowError::RentNotRecovered)
    } else {
        Ok(())
    }
}

/// Approve destruction of the record. The record itself is not mutated —
/// on success the runtime closes the holding sub-account, returns its
/// reserve to the owner, and reclaims the record's storage.
pub fn close_escrow(
    escrow: &EscrowAccount,
    escrow_key: AccountId,
    caller: AccountId,
    current_balance: u64,
    token_account_lamports: u64,
    now: i64,
) -> (r: Result<EscrowClosed, EscrowError>)
    ensures
        ({
            let verdict = close_escrow_check(*escrow, caller, current_balance, token_account_lamports);
            match verdict {
                Ok(()) => r matches Ok(ev) && ev == (EscrowClosed {
                    escrow: escrow_key,
                    timestamp: now,
                }),
                Err(reason) => r matches Err(got) && got == reason,
            }
        }),
{
    if caller != escrow.user {
        return Err(EscrowError::Unauthorized);
    }
    if escrow.is_paused() {
        return Err(EscrowError::EscrowPaused);
    }
    if escrow.has_active_authority() {
        return Err(EscrowError::EscrowStillActive);
    }
    if current_balance > DUST_THRESHOLD {
        return Err(EscrowError::EscrowNotEmpty);
    }
    if token_account_lamports < MIN_RENT_EXEMPT_LAMPORTS {
        return Err(EscrowError::RentNotRecovered);
    }
    Ok(EscrowClosed { escrow: escrow_key, timestamp: now })
}

} // verus!
