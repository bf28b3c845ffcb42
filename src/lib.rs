//! Ledger logic of a tiered coin-flip wager: configuration, stake collection,
//! outcome resolution, deferred reward accrual, claims and treasury moves.
//!
//! The execution host (account ownership, signatures, the token transfer
//! primitive, the oracle feed and the clock) stays outside: each operation here
//! takes the plain values the host supplies and returns the transfers that the
//! host must carry out, all or nothing.

pub mod account;
pub mod errors;
pub mod vault;
pub mod game;
pub mod treasury;
pub mod laws;
