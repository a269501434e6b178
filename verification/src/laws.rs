//! The library's stated laws: properties that hold of every record and
//! every operation, proved from the contracts in [`crate::ops`] and the
//! definitions in [`crate::state`].

use vstd::prelude::*;

use crate::constants::MAX_SUBSCRIPTION_FEE;
use crate::constants::MAX_TRANSACTION_AMOUNT;
use crate::errors::EscrowError;
use crate::ops::close_escrow_check;
use crate::ops::delegate_platform_authority_check;
use crate::ops::delegate_trading_authority_check;
use crate::ops::deposit_token_check;
use crate::ops::emergency_withdraw_check;
use crate::ops::revoke_authority_check;
use crate::ops::revoke_platform_authority_applied;
use crate::ops::revoke_trading_authority_applied;
use crate::ops::withdraw_for_trade_check;
use crate::ops::withdraw_subscription_fee_check;
use crate::ops::withdraw_token_check;
use crate::state::mutating_step;
use crate::state::AccountId;
use crate::state::EscrowAccount;

verus! {

/// Law: one successful mutating operation advances the action nonce by
/// exactly one, as long as it has room to move without wrapping.
pub proof fn lemma_nonce_advances_by_one(pre: EscrowAccount, post: EscrowAccount)
    requires
        mutating_step(pre, post),
        pre.action_nonce < u64::MAX,
    ensures
        post.action_nonce == pre.action_nonce + 1,
{
}

/// Law: over any chain of records linked by successful mutating operations,
/// the action nonce after N operations equals its starting value plus N —
/// and in particular never decreases — as long as it does not wrap. (At
/// `u64::MAX` the nonce wraps to 0 by design, the one input this law
/// excludes.)
pub proof fn lemma_nonce_counts_operations(states: Seq<EscrowAccount>)
    requires
        states.len() >= 1,
        forall|i: int|
            0 <= i < states.len() - 1 ==> mutating_step(#[trigger] states[i], states[i + 1]),
        states[0].action_nonce + states.len() - 1 <= u64::MAX,
    ensures
        states.last().action_nonce == states[0].action_nonce + states.len() - 1,
    decreases states.len(),
{
    if states.len() > 1 {
        let prefix = states.drop_last();
        assert forall|i: int|
            0 <= i < prefix.len() - 1 implies mutating_step(
            #[trigger] prefix[i],
            prefix[i + 1],
        ) by {
            assert(mutating_step(states[i], states[i + 1]));
        }
        lemma_nonce_counts_operations(prefix);
        assert(mutating_step(states[states.len() - 2], states.last()));
    }
}

/// Law: over the same chain, each of the four lifetime accumulators is
/// non-decreasing from the first record to the last.
pub proof fn lemma_accumulators_never_decrease(states: Seq<EscrowAccount>)
    requires
        states.len() >= 1,
        forall|i: int|
            0 <= i < states.len() - 1 ==> mutating_step(#[trigger] states[i], states[i + 1]),
    ensures
        states[0].total_deposited <= states.last().total_deposited,
        states[0].total_withdrawn <= states.last().total_withdrawn,
        states[0].total_fees_paid <= states.last().total_fees_paid,
        states[0].total_traded <= states.last().total_traded,
    decreases states.len(),
{
    if states.len() > 1 {
        let prefix = states.drop_last();
        assert forall|i: int|
            0 <= i < prefix.len() - 1 implies mutating_step(
            #[trigger] prefix[i],
            prefix[i + 1],
        ) by {
            assert(mutating_step(states[i], states[i + 1]));
        }
        lemma_accumulators_never_decrease(prefix);
        assert(mutating_step(states[states.len() - 2], states.last()));
    }
}

/// Law: on a well-formed record, an authority is reported active exactly
/// when its identity slot is occupied — the flags can never diverge from
/// the slots.
pub proof fn lemma_active_authority_mirrors_slots(e: EscrowAccount)
    requires
        e.wf(),
    ensures
        e.spec_has_active_authority() <==> (e.platform_authority is Some
            || e.trading_authority is Some),
{
}

/// Law: an owner withdrawal is refused for still-active authorities exactly
/// when one of the two delegates holds power; with both slots free that
/// refusal can never come.
pub proof fn lemma_owner_withdrawal_blocked_by_authority(
    e: EscrowAccount,
    caller: AccountId,
    amount: u64,
    current_balance: u64,
)
    requires
        caller == e.user,
        !e.paused,
    ensures
        withdraw_token_check(e, caller, amount, current_balance) == Err::<(), EscrowError>(
            EscrowError::EscrowStillActive,
        ) <==> e.spec_has_active_authority(),
{
}

/// Law: closure is refused for still-active authorities exactly when one of
/// the two delegates holds power.
pub proof fn lemma_closure_blocked_by_authority(
    e: EscrowAccount,
    caller: AccountId,
    current_balance: u64,
    token_account_lamports: u64,
)
    requires
        caller == e.user,
        !e.paused,
    ensures
        close_escrow_check(e, caller, current_balance, token_account_lamports) == Err::<
            (),
            EscrowError,
        >(EscrowError::EscrowStillActive) <==> e.spec_has_active_authority(),
{
}

/// Law: a deposit never passes its checks if the resulting balance would
/// exceed the record's ceiling; depositing exactly to the ceiling is
/// allowed.
pub proof fn lemma_deposit_respects_ceiling(
    e: EscrowAccount,
    caller: AccountId,
    amount: u64,
    current_balance: u64,
    now: int,
)
    requires
        deposit_token_check(e, caller, amount, current_balance, now) is Ok,
        e.max_balance > 0,
    ensures
        current_balance + amount <= e.max_balance,
{
}

/// Law: delegating into an occupied slot fails with that slot's
/// already-set error, whatever else holds.
pub proof fn lemma_delegate_occupied_slot_fails(
    e: EscrowAccount,
    caller: AccountId,
    authority: AccountId,
    now: int,
)
    requires
        caller == e.user,
        !e.paused,
        !authority.spec_is_null(),
    ensures
        e.platform_authority is Some ==> delegate_platform_authority_check(e, caller, authority, now)
            == Err::<(), EscrowError>(EscrowError::PlatformAuthorityAlreadySet),
        e.trading_authority is Some ==> delegate_trading_authority_check(e, caller, authority, now)
            == Err::<(), EscrowError>(EscrowError::TradingAuthorityAlreadySet),
{
}

/// Law: revocation by the owner of an unpaused record always succeeds —
/// on a never-set slot it is a no-op success — and leaves the slot null
/// either way.
pub proof fn lemma_revocation_always_clears(e: EscrowAccount, caller: AccountId)
    requires
        caller == e.user,
        !e.paused,
    ensures
        revoke_authority_check(e, caller) is Ok,
        revoke_platform_authority_applied(e).platform_authority is None,
        revoke_trading_authority_applied(e).trading_authority is None,
{
}

/// Law: a fee or trade withdrawal above its cap fails with the too-large
/// error even when the held balance would cover it — the cap binds before
/// the balance, the caller, or the time-lock is consulted.
pub proof fn lemma_caps_bind_before_balance(
    e: EscrowAccount,
    caller: AccountId,
    amount: u64,
    current_balance: u64,
    now: int,
)
    requires
        !e.paused,
    ensures
        amount > MAX_SUBSCRIPTION_FEE ==> withdraw_subscription_fee_check(
            e,
            caller,
            amount,
            current_balance,
            now,
        ) == Err::<(), EscrowError>(EscrowError::AmountTooLarge),
        amount > MAX_TRANSACTION_AMOUNT ==> withdraw_for_trade_check(
            e,
            caller,
            amount,
            current_balance,
            now,
        ) == Err::<(), EscrowError>(EscrowError::AmountTooLarge),
{
}

/// Law: an emergency withdrawal on an unpaused record fails with the
/// not-paused error regardless of the amount or the held balance; and it
/// passes its checks only while the record is paused with no active
/// authority.
pub proof fn lemma_emergency_needs_pause(
    e: EscrowAccount,
    caller: AccountId,
    amount: u64,
    current_balance: u64,
)
    requires
        caller == e.user,
    ensures
        !e.paused ==> emergency_withdraw_check(e, caller, amount, current_balance) == Err::<
            (),
            EscrowError,
        >(EscrowError::EscrowNotPaused),
        emergency_withdraw_check(e, caller, amount, current_balance) is Ok ==> e.paused
            && !e.spec_has_active_authority(),
{
}

} // verus!
