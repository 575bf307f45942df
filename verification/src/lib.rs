//! A binary-outcome prediction market: users stake value on the "yes" or "no"
//! side of a question with a deadline, an authority resolves the market, and
//! winners claim a proportional share of the combined pool.
//!
//! The market accounting is a pure state machine over [`market::Market`] and
//! [`position::Position`] records, with truncating integer arithmetic for odds
//! and payouts. Storage, signer verification and value transfer are external
//! collaborators: the host hands this library plain values and performs the
//! transfers this library's results call for.

pub mod laws;
pub mod market;
pub mod position;
pub mod types;
