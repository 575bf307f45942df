//! Plain value types shared by the market engine: identities, outcomes,
//! lifecycle status, and the error taxonomy.

use vstd::prelude::*;

verus! {

/// Identity of a participant (a market authority or a staker): the 32 bytes
/// of its public key, split into four 64-bit words. The engine only ever
/// compares identities for equality.
#[derive(Clone, Copy, PartialEq, Eq, Structural, Debug)]
pub struct AccountId {
    pub w0: u64,
    pub w1: u64,
    pub w2: u64,
    pub w3: u64,
}

/// One of the two sides of a binary market.
#[derive(Clone, Copy, PartialEq, Eq, Structural, Debug)]
pub enum Outcome {
    Yes,
    No,
}

/// Lifecycle of a market: `Active` until the authority resolves it, then
/// terminally `Resolved`.
#[derive(Clone, Copy, PartialEq, Eq, Structural, Debug)]
pub enum MarketStatus {
    Active,
    Resolved,
}

/// Every failure an operation can report. Each operation's contract states
/// exactly which inputs produce which variant.
#[derive(Clone, Copy, PartialEq, Eq, Structural, Debug)]
pub enum ErrorCode {
    /// Operation requires an `Active` market but it is `Resolved`.
    MarketNotActive,
    /// Stake attempted at or after the market's end time.
    MarketExpired,
    /// Stake amount was zero.
    InvalidAmount,
    /// Caller identity does not match the required identity.
    Unauthorized,
    /// Resolution attempted on a market that is no longer `Active`.
    MarketAlreadyResolved,
    /// Claim attempted before the market was resolved.
    MarketNotResolved,
    /// Claim attempted twice on the same position.
    AlreadyClaimed,
    /// Invariant breach: a `Resolved` market with no recorded winner.
    NoWinner,
}

} // verus!
