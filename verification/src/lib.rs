//! A verified ledger for tracking custody and administration of uniquely
//! identified units (vaccine doses) through a supply chain.
//!
//! The crate is organised around five stores, each owned by one component:
//! a role registry gating every operation, a unit ledger running the
//! two-phase custody and administration handoffs, an append-only audit
//! trail of ownership events, a per-recipient passport of administered
//! units, and a consumption guard preventing double administration.
//! A zero-knowledge proof gate authorises reads of the passport store.

pub mod errors;
pub mod roles;
pub mod units;
pub mod trail;
pub mod passport;
pub mod guard;
pub mod cids;
pub mod proofgate;
pub mod ledger;
