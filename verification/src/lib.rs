//! A gated, role-based, one-time claim mechanism for handing a custodial
//! liquidity-position balance to its two beneficiaries (a partner and a pool
//! creator) once an outer migration pipeline has created the destination pool.
//!
//! The crate is the authorization and bookkeeping layer around a single claim
//! action: it checks the migration checkpoint, resolves the caller's role,
//! enforces one claim per role, and reports the exact amount owed. The value
//! movement itself is a custodial transfer performed by the host runtime; the
//! gate only decides whether it may happen and records that it did.

pub mod gate;
pub mod laws;
pub mod ledger;
