//! Build-time limits and timing windows for the escrow core.

use vstd::prelude::*;

verus! {

/// Per-record balance ceiling applied when the owner requests none.
pub const DEFAULT_MAX_BALANCE: u64 = 1_000_000_000_000;

/// Absolute ceiling: no record may be configured to hold more than this.
pub const MAX_ALLOWED_BALANCE: u64 = 10_000_000_000_000;

/// Cap on a single trade withdrawal.
pub const MAX_TRANSACTION_AMOUNT: u64 = 100_000_000_000;

/// Balance at or below which a record counts as empty for closure.
pub const DUST_THRESHOLD: u64 = 10;

/// Tolerated clock skew, in seconds.
pub const TIMESTAMP_TOLERANCE: i64 = 30;

/// Seconds a freshly delegated authority must wait before it may act.
pub const MIN_AUTHORITY_AGE: i64 = 300;

/// Seconds that must elapse after a pause before unpausing is allowed.
pub const UNPAUSE_COOLDOWN: i64 = 300;

/// Smallest accepted token decimal precision.
pub const MIN_TOKEN_DECIMALS: u8 = 6;

/// Largest accepted token decimal precision.
pub const MAX_TOKEN_DECIMALS: u8 = 9;

/// Reclaimable reserve the holding sub-account must still carry at closure.
pub const MIN_RENT_EXEMPT_LAMPORTS: u64 = 2_039_280;

/// Cap on a single subscription-fee withdrawal.
pub const MAX_SUBSCRIPTION_FEE: u64 = 1_000_000_000;

} // verus!
