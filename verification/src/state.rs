//! The escrow record: its fields, invariant, and pure state predicates.

use vstd::prelude::*;

use crate::constants::MIN_AUTHORITY_AGE;
use crate::constants::UNPAUSE_COOLDOWN;

verus! {

broadcast use vstd::array::group_array_axioms;

/// A 32-byte identity, as the ledger addresses parties and assets.
#[derive(Clone, Copy, Debug)]
pub struct AccountId {
    pub bytes: [u8; 32],
}

impl PartialEq for AccountId {
    fn eq(&self, other: &AccountId) -> (r: bool) {
        let mut i: usize = 0;
        while i < 32
            invariant
                i <= 32,
                forall|j: int| 0 <= j < i ==> self.bytes[j] == other.bytes[j],
            decreases 32 - i,
        {
            if self.bytes[i] != other.bytes[i] {
                return false;
            }
            i = i + 1;
        }
        proof {
            assert(self.bytes =~= other.bytes);
        }
        true
    }
}

impl vstd::std_specs::cmp::PartialEqSpecImpl for AccountId {
    open spec fn obeys_eq_spec() -> bool {
        true
    }

    open spec fn eq_spec(&self, other: &AccountId) -> bool {
        self.bytes == other.bytes
    }
}

impl Eq for AccountId {

}

impl AccountId {
    /// True iff every byte of the identity is zero: the null identity,
    /// which no real party may use.
    pub open spec fn spec_is_null(self) -> bool {
        forall|i: int| 0 <= i < 32 ==> self.bytes[i] == 0
    }

    /// Decide whether this is the null identity.
    pub fn is_null(&self) -> (r: bool)
        ensures
            r == self.spec_is_null(),
    {
        let mut i: usize = 0;
        while i < 32
            invariant
                i <= 32,
                forall|j: int| 0 <= j < i ==> self.bytes[j] == 0,
            decreases 32 - i,
        {
            if self.bytes[i] != 0 {
                return false;
            }
            i = i + 1;
        }
        true
    }
}

/// The durable per-owner escrow record.
///
/// The three flag fields are stored, not derived: the well-formedness
/// predicate [`EscrowAccount::wf`] ties each activity flag to its authority
/// slot, and every operation preserves it.
#[derive(Clone, Copy, Debug)]
pub struct EscrowAccount {
    /// Sole party with default control.
    pub user: AccountId,
    /// Fee-collection delegate; `None` when unset.
    pub platform_authority: Option<AccountId>,
    /// Trade-execution delegate; `None` when unset.
    pub trading_authority: Option<AccountId>,
    /// The single asset type this record may hold.
    pub token_mint: AccountId,
    /// Salt the runtime uses to re-derive this record's address.
    pub bump: u8,
    /// Mirrors `platform_authority` being set.
    pub platform_active: bool,
    /// Mirrors `trading_authority` being set.
    pub trading_active: bool,
    /// Safety switch; most operations refuse while set.
    pub paused: bool,
    /// Creation timestamp, set once.
    pub created_at: i64,
    /// When the platform authority was delegated; 0 = never.
    pub platform_activated_at: i64,
    /// When the trading authority was delegated; 0 = never.
    pub trading_activated_at: i64,
    /// Stamped on every transition into the paused state; 0 = never paused.
    pub last_paused_at: i64,
    /// Replay-protection counter; wraps silently by design.
    pub action_nonce: u64,
    /// Lifetime sum of all deposits.
    pub total_deposited: u64,
    /// Lifetime sum of owner and emergency withdrawals.
    pub total_withdrawn: u64,
    /// Lifetime sum of subscription-fee withdrawals.
    pub total_fees_paid: u64,
    /// Lifetime sum of trade withdrawals.
    pub total_traded: u64,
    /// Ceiling on the held balance after a deposit.
    pub max_balance: u64,
    /// 0 = no expiry; otherwise seconds from `created_at` to expiry.
    pub max_lifetime: i64,
    /// Forward-compatibility padding, zero at creation.
    pub reserved: [u8; 176],
}

impl EscrowAccount {
    /// Well-formedness: each activity flag holds exactly when its authority
    /// slot is occupied, and the slot never holds the null identity.
    pub open spec fn wf(self) -> bool {
        &&& self.platform_active <==> self.platform_authority is Some
        &&& self.trading_active <==> self.trading_authority is Some
        &&& self.platform_authority matches Some(a) ==> !a.spec_is_null()
        &&& self.trading_authority matches Some(a) ==> !a.spec_is_null()
    }

    /// Check whether the platform authority is active.
    pub fn is_platform_active(&self) -> (r: bool)
        ensures
            r == self.platform_active,
    {
        self.platform_active
    }

    /// Set the platform activity flag, touching nothing else.
    pub fn set_platform_active(&mut self, active: bool)
        ensures
            *final(self) == (EscrowAccount { platform_active: active, ..*old(self) }),
    {
        self.platform_active = active;
    }

    /// Check whether the trading authority is active.
    pub fn is_trading_active(&self) -> (r: bool)
        ensures
            r == self.trading_active,
    {
        self.trading_active
    }

    /// Set the trading activity flag, touching nothing else.
    pub fn set_trading_active(&mut self, active: bool)
        ensures
            *final(self) == (EscrowAccount { trading_active: active, ..*old(self) }),
    {
        self.trading_active = active;
    }

    /// Check whether the record is paused.
    pub fn is_paused(&self) -> (r: bool)
        ensures
            r == self.paused,
    {
        self.paused
    }

    /// Set the paused flag; a transition into the paused state also stamps
    /// `last_paused_at`, while unpausing leaves the stamp untouched.
    pub fn set_paused(&mut self, paused: bool, timestamp: i64)
        ensures
            paused ==> *final(self) == (EscrowAccount {
                paused: true,
                last_paused_at: timestamp,
                ..*old(self)
            }),
            !paused ==> *final(self) == (EscrowAccount { paused: false, ..*old(self) }),
    {
        if paused {
            self.paused = true;
            self.last_paused_at = timestamp;
        } else {
            self.paused = false;
        }
    }

    /// True iff at least one delegate currently holds power; while so, the
    /// owner may neither withdraw nor close.
    pub open spec fn spec_has_active_authority(self) -> bool {
        self.platform_active || self.trading_active
    }

    /// Check whether any authority is active.
    pub fn has_active_authority(&self) -> (r: bool)
        ensures
            r == self.spec_has_active_authority(),
    {
        self.platform_active || self.trading_active
    }

    /// Expiry: never when `max_lifetime` is 0; otherwise strictly more than
    /// `max_lifetime` seconds after creation — at the boundary the record is
    /// still valid.
    pub open spec fn spec_is_expired(self, now: int) -> bool {
        self.max_lifetime != 0 && now - self.created_at > self.max_lifetime
    }

    /// Check expiry against a caller-supplied current timestamp.
    pub fn is_expired(&self, current_timestamp: i64) -> (r: bool)
        ensures
            r == self.spec_is_expired(current_timestamp as int),
    {
        if self.max_lifetime == 0 {
            return false;
        }
        (current_timestamp as i128) - (self.created_at as i128) > (self.max_lifetime as i128)
    }

    /// Unpause gate: always open if the record was never paused; otherwise
    /// the cooldown must have elapsed, boundary inclusive.
    pub open spec fn spec_can_unpause(self, now: int) -> bool {
        self.last_paused_at == 0 || now - self.last_paused_at >= UNPAUSE_COOLDOWN
    }

    /// Check the unpause cooldown against the current timestamp.
    pub fn can_unpause(&self, current_timestamp: i64) -> (r: bool)
        ensures
            r == self.spec_can_unpause(current_timestamp as int),
    {
        if self.last_paused_at == 0 {
            return true;
        }
        (current_timestamp as i128) - (self.last_paused_at as i128) >= (UNPAUSE_COOLDOWN as i128)
    }

    /// Maturity of the platform authority: never while unset; otherwise the
    /// time-lock must have elapsed since delegation, boundary inclusive.
    pub open spec fn spec_is_platform_authority_mature(self, now: int) -> bool {
        self.platform_activated_at != 0 && now - self.platform_activated_at >= MIN_AUTHORITY_AGE
    }

    /// Check the platform authority's time-lock.
    pub fn is_platform_authority_mature(&self, current_timestamp: i64) -> (r: bool)
        ensures
            r == self.spec_is_platform_authority_mature(current_timestamp as int),
    {
        if self.platform_activated_at == 0 {
            return false;
        }
        (current_timestamp as i128) - (self.platform_activated_at as i128)
            >= (MIN_AUTHORITY_AGE as i128)
    }

    /// Maturity of the trading authority, under the same rule.
    pub open spec fn spec_is_trading_authority_mature(self, now: int) -> bool {
        self.trading_activated_at != 0 && now - self.trading_activated_at >= MIN_AUTHORITY_AGE
    }

    /// Check the trading authority's time-lock.
    pub fn is_trading_authority_mature(&self, current_timestamp: i64) -> (r: bool)
        ensures
            r == self.spec_is_trading_authority_mature(current_timestamp as int),
    {
        if self.trading_activated_at == 0 {
            return false;
        }
        (current_timestamp as i128) - (self.trading_activated_at as i128)
            >= (MIN_AUTHORITY_AGE as i128)
    }
}

/// The replay-protection counter after one successful mutating operation:
/// one more, wrapping silently at the top of `u64` — the one deliberate
/// exception to the record's checked-arithmetic policy.
pub open spec fn nonce_after(nonce: u64) -> u64 {
    if nonce == u64::MAX {
        0
    } else {
        (nonce + 1) as u64
    }
}

/// What every successful mutating operation does to the record's counters:
/// the action nonce advances by exactly one (wrapping), and each of the four
/// lifetime accumulators is non-decreasing.
pub open spec fn mutating_step(pre: EscrowAccount, post: EscrowAccount) -> bool {
    &&& post.action_nonce == nonce_after(pre.action_nonce)
    &&& pre.total_deposited <= post.total_deposited
    &&& pre.total_withdrawn <= post.total_withdrawn
    &&& pre.total_fees_paid <= post.total_fees_paid
    &&& pre.total_traded <= post.total_traded
}

} // verus!
