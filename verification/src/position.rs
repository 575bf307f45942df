//! The position record — one user's stake against a market — and the payout
//! claim that settles it.

use vstd::prelude::*;
use crate::market::{spec_side_pool, Market};
use crate::types::{AccountId, ErrorCode, MarketStatus, Outcome};

verus! {

/// One user's stake against one market: a permanent claim receipt.
#[derive(Debug)]
pub struct Position {
    /// Identity of the staker; only this identity may claim.
    pub user: AccountId,
    /// Identifier of the market staked on.
    pub market: String,
    /// Value committed; fixed at creation, strictly positive.
    pub stake_amount: u64,
    /// The side chosen.
    pub outcome: Outcome,
    /// Implied probability of the chosen side at the instant of staking, in
    /// basis points; informational only.
    pub odds_at_stake: u64,
    /// Payout estimate frozen at stake time; informational only, never used
    /// by the claim logic.
    pub potential_payout: u64,
    /// Zero until claimed; then the payout actually computed (zero for a
    /// loser).
    pub payout_amount: u64,
    /// False until a claim succeeds; then permanently true.
    pub claimed: bool,
    /// Timestamp recorded when the stake was placed.
    pub created_at: i64,
}

/// The single authoritative payout formula: a winner receives
/// `total_pool * stake / winning_pool`, truncating; zero if nobody ever
/// staked on the declared winner (never a division fault).
pub open spec fn spec_payout(total_pool: int, stake: u64, winning_pool: u64) -> int {
    if winning_pool > 0 {
        total_pool * stake / winning_pool as int
    } else {
        0
    }
}

/// The first claim precondition that fails, checked in order: the market must
/// be `Resolved`, the position unclaimed, and the caller its owner. A
/// `Resolved` market without a recorded winner is an invariant breach,
/// reported as `NoWinner`. `None` means the claim is accepted.
pub open spec fn spec_claim_check(m: Market, p: Position, caller: AccountId) -> Option<ErrorCode> {
    if !(m.status is Resolved) {
        Some(ErrorCode::MarketNotResolved)
    } else if p.claimed {
        Some(ErrorCode::AlreadyClaimed)
    } else if p.user != caller {
        Some(ErrorCode::Unauthorized)
    } else if m.winning_outcome is None {
        Some(ErrorCode::NoWinner)
    } else {
        None
    }
}

/// What an accepted claim pays: zero for a position on the losing side, and
/// the proportional share of the combined pool for a winner.
pub open spec fn spec_claim_amount(m: Market, p: Position) -> int {
    match m.winning_outcome {
        Some(w) => {
            if p.outcome == w {
                spec_payout(m.spec_total_pool(), p.stake_amount, spec_side_pool(m, w))
            } else {
                0
            }
        },
        None => 0,
    }
}

/// Claims the payout for `position` against the resolved `market`.
///
/// On success the computed payout (possibly zero) is returned and recorded in
/// the position, which is permanently marked claimed; every other field is
/// untouched. On failure the position is left unchanged and the error says
/// which precondition failed first. If the result is positive, the caller
/// must move that amount out of the market's escrow to the user.
///
/// The overflow bound in the precondition excludes exactly the inputs on
/// which `total_pool * stake_amount` would exceed `u64`.
pub fn claim_payout(
    market: &Market,
    position: &mut Position,
    caller: AccountId,
) -> (r: Result<u64, ErrorCode>)
    requires
        market.wf(),
        spec_claim_check(*market, *old(position), caller) is None ==>
            market.spec_total_pool() * old(position).stake_amount <= u64::MAX,
    ensures
        r is Ok <==> spec_claim_check(*market, *old(position), caller) is None,
        match r {
            Ok(payout) => {
                &&& payout == spec_claim_amount(*market, *old(position))
                &&& final(position).payout_amount == payout
                &&& final(position).claimed
                &&& final(position).user == old(position).user
                &&& final(position).market == old(position).market
                &&& final(position).stake_amount == old(position).stake_amount
                &&& final(position).outcome == old(position).outcome
                &&& final(position).odds_at_stake == old(position).odds_at_stake
                &&& final(position).potential_payout == old(position).potential_payout
                &&& final(position).created_at == old(position).created_at
            },
            Err(e) => {
                &&& spec_claim_check(*market, *old(position), caller) == Some(e)
                &&& *final(position) == *old(position)
            },
        },
{
    if !(market.status == MarketStatus::Resolved) {
        return Err(ErrorCode::MarketNotResolved);
    }
    if position.claimed {
        return Err(ErrorCode::AlreadyClaimed);
    }
    if !(position.user == caller) {
        return Err(ErrorCode::Unauthorized);
    }
    let winning_outcome = match market.winning_outcome {
        Some(w) => w,
        None => {
            return Err(ErrorCode::NoWinner);
        },
    };

    let payout = if position.outcome == winning_outcome {
        let winning_pool = match winning_outcome {
            Outcome::Yes => market.pool_yes,
            Outcome::No => market.pool_no,
        };
        let total_pool = market.pool_yes + market.pool_no;
        if winning_pool > 0 {
            (total_pool * position.stake_amount) / winning_pool
        } else {
            // Degenerate market: nobody staked on the declared winner.
            0
        }
    } else {
        // Loser: the claim still completes, consuming the claim right.
        0
    };

    position.payout_amount = payout;
    position.claimed = true;
    Ok(payout)
}

} // verus!
