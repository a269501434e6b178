//! A custodial token-escrow record with a dual-authority delegation model.
//!
//! One record is kept per owning identity. The owner may delegate two narrow,
//! capped drawing rights — periodic fee collection and trade execution — each
//! protected by a maturity time-lock, and may pause the record, subject to a
//! cooldown before unpausing. Every mutating operation follows a strict
//! checks → effects → interactions order: all preconditions are validated
//! before any field changes, and the external transfer the operation requests
//! is described by the event value it returns.
//!
//! The surrounding runtime is expected to prove the caller's identity, read
//! the held token balance, supply the current time, and perform the requested
//! transfers; this crate holds the record model and the full decision logic,
//! verified.

pub mod constants;
pub mod errors;
pub mod events;
pub mod laws;
pub mod ops;
pub mod state;
