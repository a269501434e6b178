use escrow::constants::DEFAULT_MAX_BALANCE;
use escrow::constants::DUST_THRESHOLD;
use escrow::constants::MAX_ALLOWED_BALANCE;
use escrow::constants::MAX_SUBSCRIPTION_FEE;
use escrow::constants::MAX_TRANSACTION_AMOUNT;
use escrow::constants::MIN_RENT_EXEMPT_LAMPORTS;
use escrow::errors::EscrowError;
use escrow::ops::close_escrow;
use escrow::ops::delegate_platform_authority;
use escrow::ops::delegate_trading_authority;
use escrow::ops::deposit_token;
use escrow::ops::emergency_withdraw;
use escrow::ops::initialize_escrow;
use escrow::ops::pause_escrow;
use escrow::ops::revoke_platform_authority;
use escrow::ops::revoke_trading_authority;
use escrow::ops::set_max_lifetime;
use escrow::ops::unpause_escrow;
use escrow::ops::withdraw_for_trade;
use escrow::ops::withdraw_subscription_fee;
use escrow::ops::withdraw_token;
use escrow::state::AccountId;
use escrow::state::EscrowAccount;

fn id(n: u8) -> AccountId {
    AccountId { bytes: [n; 32] }
}

fn fresh_escrow() -> EscrowAccount {
    initialize_escrow(id(9), id(1), id(2), 6, 255, 1_000_000, 1000).unwrap().0
}

#[test]
fn initialize_uses_default_ceiling_for_zero() {
    let (e, ev) = initialize_escrow(id(9), id(1), id(2), 6, 255, 0, 1000).unwrap();
    assert_eq!(ev.escrow, id(9));
    assert_eq!(ev.user, id(1));
    assert_eq!(ev.token_mint, id(2));
    assert_eq!(ev.timestamp, 1000);
    assert_eq!(e.max_balance, DEFAULT_MAX_BALANCE);
    assert_eq!(e.created_at, 1000);
    assert_eq!(e.action_nonce, 0);
    assert_eq!(e.user, id(1));
    assert_eq!(e.token_mint, id(2));
    assert!(e.platform_authority.is_none());
    assert!(e.trading_authority.is_none());
    assert!(!e.paused);
    assert_eq!(e.max_lifetime, 0);
    assert_eq!(e.bump, 255);
    assert!(e.reserved.iter().all(|b| *b == 0));
}

#[test]
fn initialize_rejects_ceiling_above_absolute_maximum() {
    let r = initialize_escrow(id(9), id(1), id(2), 6, 255, MAX_ALLOWED_BALANCE + 1, 1000);
    assert_eq!(r.unwrap_err(), EscrowError::MaxBalanceExceeded);
    let ok = initialize_escrow(id(9), id(1), id(2), 6, 255, MAX_ALLOWED_BALANCE, 1000).unwrap().0;
    assert_eq!(ok.max_balance, MAX_ALLOWED_BALANCE);
}

#[test]
fn initialize_rejects_decimals_outside_range() {
    assert_eq!(
        initialize_escrow(id(9), id(1), id(2), 5, 255, 0, 1000).unwrap_err(),
        EscrowError::InvalidTokenDecimals
    );
    assert_eq!(
        initialize_escrow(id(9), id(1), id(2), 10, 255, 0, 1000).unwrap_err(),
        EscrowError::InvalidTokenDecimals
    );
    assert!(initialize_escrow(id(9), id(1), id(2), 9, 255, 0, 1000).is_ok());
}

#[test]
fn deposit_accumulates_and_advances_nonce() {
    let mut e = fresh_escrow();
    let ev = deposit_token(&mut e, id(9), id(1), 400, 0, 1001).unwrap();
    assert_eq!(ev.amount, 400);
    assert_eq!(ev.new_balance, 400);
    assert_eq!(ev.timestamp, 1001);
    assert_eq!(ev.escrow, id(9));
    assert_eq!(e.total_deposited, 400);
    assert_eq!(e.action_nonce, 1);
}

#[test]
fn deposit_to_exact_ceiling_succeeds_one_over_fails() {
    let mut e = fresh_escrow();
    let r = deposit_token(&mut e, id(9), id(1), 1, 1_000_000, 1001);
    assert_eq!(r.unwrap_err(), EscrowError::MaxBalanceExceeded);
    assert_eq!(e.total_deposited, 0);
    assert_eq!(e.action_nonce, 0);
    let ev = deposit_token(&mut e, id(9), id(1), 300_000, 700_000, 1001).unwrap();
    assert_eq!(ev.new_balance, 1_000_000);
}

#[test]
fn deposit_rejects_wrong_caller_zero_amount_and_pause() {
    let mut e = fresh_escrow();
    assert_eq!(
        deposit_token(&mut e, id(9), id(4), 10, 0, 1001).unwrap_err(),
        EscrowError::Unauthorized
    );
    assert_eq!(
        deposit_token(&mut e, id(9), id(1), 0, 0, 1001).unwrap_err(),
        EscrowError::InvalidAmount
    );
    pause_escrow(&mut e, id(9), id(1), 1002).unwrap();
    assert_eq!(
        deposit_token(&mut e, id(9), id(1), 10, 0, 1003).unwrap_err(),
        EscrowError::EscrowPaused
    );
}

#[test]
fn deposit_rejects_expired_record() {
    let mut e = fresh_escrow();
    set_max_lifetime(&mut e, id(1), 100).unwrap();
    assert!(deposit_token(&mut e, id(9), id(1), 10, 0, 1100).is_ok());
    assert_eq!(
        deposit_token(&mut e, id(9), id(1), 10, 10, 1101).unwrap_err(),
        EscrowError::EscrowExpired
    );
}

#[test]
fn deposit_reports_balance_overflow() {
    let mut e = initialize_escrow(id(9), id(1), id(2), 6, 255, 0, 1000).unwrap().0;
    assert_eq!(
        deposit_token(&mut e, id(9), id(1), u64::MAX, 1, 1001).unwrap_err(),
        EscrowError::MathOverflow
    );
}

#[test]
fn delegate_platform_sets_slot_flag_and_stamp() {
    let mut e = fresh_escrow();
    let ev = delegate_platform_authority(&mut e, id(9), id(1), id(5), 2000).unwrap();
    assert_eq!(ev.authority, id(5));
    assert_eq!(ev.timestamp, 2000);
    assert_eq!(e.platform_authority, Some(id(5)));
    assert!(e.platform_active);
    assert_eq!(e.platform_activated_at, 2000);
    assert_eq!(e.action_nonce, 1);
    assert!(e.has_active_authority());
}

#[test]
fn delegate_rejects_null_identity() {
    let mut e = fresh_escrow();
    let zero = AccountId { bytes: [0; 32] };
    assert_eq!(
        delegate_platform_authority(&mut e, id(9), id(1), zero, 2000).unwrap_err(),
        EscrowError::InvalidAuthority
    );
    assert_eq!(
        delegate_trading_authority(&mut e, id(9), id(1), zero, 2000).unwrap_err(),
        EscrowError::InvalidAuthority
    );
}

#[test]
fn delegate_occupied_slot_fails_with_already_set() {
    let mut e = fresh_escrow();
    delegate_platform_authority(&mut e, id(9), id(1), id(5), 2000).unwrap();
    assert_eq!(
        delegate_platform_authority(&mut e, id(9), id(1), id(6), 2001).unwrap_err(),
        EscrowError::PlatformAuthorityAlreadySet
    );
    delegate_trading_authority(&mut e, id(9), id(1), id(6), 2000).unwrap();
    assert_eq!(
        delegate_trading_authority(&mut e, id(9), id(1), id(7), 2001).unwrap_err(),
        EscrowError::TradingAuthorityAlreadySet
    );
    assert_eq!(e.platform_authority, Some(id(5)));
    assert_eq!(e.trading_authority, Some(id(6)));
}

#[test]
fn delegate_rejects_expired_record() {
    let mut e = fresh_escrow();
    set_max_lifetime(&mut e, id(1), 100).unwrap();
    assert_eq!(
        delegate_trading_authority(&mut e, id(9), id(1), id(5), 1101).unwrap_err(),
        EscrowError::EscrowExpired
    );
}

#[test]
fn revoke_never_set_slot_is_noop_success() {
    let mut e = fresh_escrow();
    let ev = revoke_platform_authority(&mut e, id(9), id(1), 2000).unwrap();
    assert_eq!(ev.timestamp, 2000);
    assert!(e.platform_authority.is_none());
    assert!(!e.platform_active);
    assert_eq!(e.platform_activated_at, 0);
    assert_eq!(e.action_nonce, 1);
    revoke_trading_authority(&mut e, id(9), id(1), 2000).unwrap();
    assert!(e.trading_authority.is_none());
    assert_eq!(e.action_nonce, 2);
}

#[test]
fn revoke_clears_a_delegated_authority() {
    let mut e = fresh_escrow();
    delegate_platform_authority(&mut e, id(9), id(1), id(5), 2000).unwrap();
    revoke_platform_authority(&mut e, id(9), id(1), 2001).unwrap();
    assert!(e.platform_authority.is_none());
    assert!(!e.platform_active);
    assert_eq!(e.platform_activated_at, 0);
    assert!(!e.has_active_authority());
}

#[test]
fn fee_withdrawal_pays_out_when_mature() {
    let mut e = fresh_escrow();
    delegate_platform_authority(&mut e, id(9), id(1), id(5), 2000).unwrap();
    let ev = withdraw_subscription_fee(&mut e, id(9), id(5), 700, 5000, 2300).unwrap();
    assert_eq!(ev.amount, 700);
    assert_eq!(ev.remaining_balance, 4300);
    assert_eq!(e.total_fees_paid, 700);
    assert_eq!(e.action_nonce, 2);
}

#[test]
fn fee_withdrawal_rejects_immature_authority() {
    let mut e = fresh_escrow();
    delegate_platform_authority(&mut e, id(9), id(1), id(5), 2000).unwrap();
    assert_eq!(
        withdraw_subscription_fee(&mut e, id(9), id(5), 700, 5000, 2299).unwrap_err(),
        EscrowError::PlatformAuthorityTooNew
    );
}

#[test]
fn fee_withdrawal_cap_binds_even_with_sufficient_balance() {
    let mut e = fresh_escrow();
    delegate_platform_authority(&mut e, id(9), id(1), id(5), 2000).unwrap();
    assert_eq!(
        withdraw_subscription_fee(&mut e, id(9), id(5), MAX_SUBSCRIPTION_FEE + 1, u64::MAX, 9000)
            .unwrap_err(),
        EscrowError::AmountTooLarge
    );
    assert_eq!(e.total_fees_paid, 0);
}

#[test]
fn fee_withdrawal_rejects_wrong_or_missing_authority() {
    let mut e = fresh_escrow();
    assert_eq!(
        withdraw_subscription_fee(&mut e, id(9), id(5), 700, 5000, 2300).unwrap_err(),
        EscrowError::UnauthorizedPlatform
    );
    delegate_platform_authority(&mut e, id(9), id(1), id(5), 2000).unwrap();
    assert_eq!(
        withdraw_subscription_fee(&mut e, id(9), id(6), 700, 5000, 2300).unwrap_err(),
        EscrowError::UnauthorizedPlatform
    );
}

#[test]
fn fee_withdrawal_rejects_insufficient_balance() {
    let mut e = fresh_escrow();
    delegate_platform_authority(&mut e, id(9), id(1), id(5), 2000).unwrap();
    assert_eq!(
        withdraw_subscription_fee(&mut e, id(9), id(5), 700, 699, 2300).unwrap_err(),
        EscrowError::InsufficientBalance
    );
}

#[test]
fn trade_withdrawal_pays_out_when_mature() {
    let mut e = fresh_escrow();
    delegate_trading_authority(&mut e, id(9), id(1), id(6), 2000).unwrap();
    let ev = withdraw_for_trade(&mut e, id(9), id(6), 900, 5000, 2300).unwrap();
    assert_eq!(ev.amount, 900);
    assert_eq!(ev.remaining_balance, 4100);
    assert_eq!(e.total_traded, 900);
}

#[test]
fn trade_withdrawal_cap_binds_even_with_sufficient_balance() {
    let mut e = fresh_escrow();
    delegate_trading_authority(&mut e, id(9), id(1), id(6), 2000).unwrap();
    assert_eq!(
        withdraw_for_trade(&mut e, id(9), id(6), MAX_TRANSACTION_AMOUNT + 1, u64::MAX, 9000)
            .unwrap_err(),
        EscrowError::AmountTooLarge
    );
    assert_eq!(
        withdraw_for_trade(&mut e, id(9), id(6), 900, 5000, 2299).unwrap_err(),
        EscrowError::TradingAuthorityTooNew
    );
    assert_eq!(
        withdraw_for_trade(&mut e, id(9), id(7), 900, 5000, 2300).unwrap_err(),
        EscrowError::UnauthorizedTrading
    );
}

#[test]
fn owner_withdrawal_blocked_while_any_authority_active() {
    let mut e = fresh_escrow();
    delegate_trading_authority(&mut e, id(9), id(1), id(6), 2000).unwrap();
    assert_eq!(
        withdraw_token(&mut e, id(9), id(1), 100, 5000, 2300).unwrap_err(),
        EscrowError::EscrowStillActive
    );
    revoke_trading_authority(&mut e, id(9), id(1), 2301).unwrap();
    let ev = withdraw_token(&mut e, id(9), id(1), 100, 5000, 2302).unwrap();
    assert_eq!(ev.remaining_balance, 4900);
    assert_eq!(e.total_withdrawn, 100);
}

#[test]
fn owner_withdrawal_rejects_overdraw_and_strangers() {
    let mut e = fresh_escrow();
    assert_eq!(
        withdraw_token(&mut e, id(9), id(1), 5001, 5000, 2300).unwrap_err(),
        EscrowError::InsufficientBalance
    );
    assert_eq!(
        withdraw_token(&mut e, id(9), id(4), 100, 5000, 2300).unwrap_err(),
        EscrowError::Unauthorized
    );
    pause_escrow(&mut e, id(9), id(1), 2301).unwrap();
    assert_eq!(
        withdraw_token(&mut e, id(9), id(1), 100, 5000, 2302).unwrap_err(),
        EscrowError::EscrowPaused
    );
}

#[test]
fn emergency_withdrawal_needs_paused_state() {
    let mut e = fresh_escrow();
    assert_eq!(
        emergency_withdraw(&mut e, id(9), id(1), 100, 5000, 2300).unwrap_err(),
        EscrowError::EscrowNotPaused
    );
    pause_escrow(&mut e, id(9), id(1), 2301).unwrap();
    let ev = emergency_withdraw(&mut e, id(9), id(1), 100, 5000, 2302).unwrap();
    assert_eq!(ev.amount, 100);
    assert_eq!(e.total_withdrawn, 100);
}

#[test]
fn emergency_withdrawal_blocked_by_active_authority() {
    let mut e = fresh_escrow();
    delegate_platform_authority(&mut e, id(9), id(1), id(5), 2000).unwrap();
    pause_escrow(&mut e, id(9), id(1), 2301).unwrap();
    assert_eq!(
        emergency_withdraw(&mut e, id(9), id(1), 100, 5000, 2302).unwrap_err(),
        EscrowError::EscrowStillActive
    );
}

#[test]
fn pause_stamps_time_and_unpause_waits_for_cooldown() {
    let mut e = fresh_escrow();
    pause_escrow(&mut e, id(9), id(1), 1000).unwrap();
    assert!(e.paused);
    assert_eq!(e.last_paused_at, 1000);
    assert_eq!(
        unpause_escrow(&mut e, id(9), id(1), 1299).unwrap_err(),
        EscrowError::CooldownNotElapsed
    );
    assert!(e.paused);
    unpause_escrow(&mut e, id(9), id(1), 1300).unwrap();
    assert!(!e.paused);
    assert_eq!(e.last_paused_at, 1000);
}

#[test]
fn set_max_lifetime_rejects_negative() {
    let mut e = fresh_escrow();
    assert_eq!(
        set_max_lifetime(&mut e, id(1), -1).unwrap_err(),
        EscrowError::InvalidLifetime
    );
    set_max_lifetime(&mut e, id(1), 86_400).unwrap();
    assert_eq!(e.max_lifetime, 86_400);
    assert_eq!(e.action_nonce, 1);
}

#[test]
fn close_requires_dust_balance_and_rent_reserve() {
    let e = fresh_escrow();
    let ev = close_escrow(&e, id(9), id(1), DUST_THRESHOLD, MIN_RENT_EXEMPT_LAMPORTS, 3000)
        .unwrap();
    assert_eq!(ev.timestamp, 3000);
    assert_eq!(
        close_escrow(&e, id(9), id(1), DUST_THRESHOLD + 1, MIN_RENT_EXEMPT_LAMPORTS, 3000)
            .unwrap_err(),
        EscrowError::EscrowNotEmpty
    );
    assert_eq!(
        close_escrow(&e, id(9), id(1), DUST_THRESHOLD, MIN_RENT_EXEMPT_LAMPORTS - 1, 3000)
            .unwrap_err(),
        EscrowError::RentNotRecovered
    );
}

#[test]
fn close_blocked_by_pause_or_active_authority() {
    let mut e = fresh_escrow();
    delegate_platform_authority(&mut e, id(9), id(1), id(5), 2000).unwrap();
    assert_eq!(
        close_escrow(&e, id(9), id(1), 0, MIN_RENT_EXEMPT_LAMPORTS, 3000).unwrap_err(),
        EscrowError::EscrowStillActive
    );
    revoke_platform_authority(&mut e, id(9), id(1), 2001).unwrap();
    pause_escrow(&mut e, id(9), id(1), 2002).unwrap();
    assert_eq!(
        close_escrow(&e, id(9), id(1), 0, MIN_RENT_EXEMPT_LAMPORTS, 3000).unwrap_err(),
        EscrowError::EscrowPaused
    );
}

#[test]
fn nonce_wraps_silently_at_the_top() {
    let mut e = fresh_escrow();
    e.action_nonce = u64::MAX;
    deposit_token(&mut e, id(9), id(1), 10, 0, 1001).unwrap();
    assert_eq!(e.action_nonce, 0);
}
