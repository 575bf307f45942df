//! The market record and the operations that drive it: creation, staking,
//! and resolution.
//!
//! A market tracks the cumulative value staked on each side of a yes/no
//! question. Odds are quoted in basis points at the instant of staking; the
//! pools only ever grow, and `total_volume` equals `pool_yes + pool_no` after
//! every operation.

use vstd::prelude::*;
use vstd::string::StrSliceExecFns;
use crate::types::{AccountId, ErrorCode, MarketStatus, Outcome};
use crate::position::Position;

verus! {

/// Upper bound on the length of a market identifier, in characters.
pub const MAX_MARKET_ID_LEN: usize = 50;

/// Upper bound on the length of a market question, in characters.
pub const MAX_QUESTION_LEN: usize = 200;

/// Odds are quoted in basis points: 10000 = 100%.
pub const ODDS_SCALE: u64 = 10000;

/// The quote for a stake into an empty market: 50.00%.
pub const EVEN_ODDS: u64 = 5000;

/// Aggregate state of one yes/no question.
#[derive(Debug)]
pub struct Market {
    /// Identity permitted to resolve this market; set once at creation.
    pub authority: AccountId,
    /// Caller-chosen identifier, unique per deployment (uniqueness is the
    /// record store's concern, not this logic's).
    pub market_id: String,
    /// Free-text description of the question.
    pub question: String,
    /// Cumulative value ever staked on "yes"; never decreases.
    pub pool_yes: u64,
    /// Cumulative value ever staked on "no"; never decreases.
    pub pool_no: u64,
    /// Sum of all stakes ever placed; equals `pool_yes + pool_no`.
    pub total_volume: u64,
    /// Timestamp at and after which new stakes are rejected.
    pub end_time: i64,
    /// `Active` until resolved, then terminally `Resolved`.
    pub status: MarketStatus,
    /// Unset while `Active`; set exactly once at resolution.
    pub winning_outcome: Option<Outcome>,
}

impl Market {
    /// The accounting invariant: the recorded volume is exactly the sum of
    /// the two pools. Creation establishes it and every operation keeps it.
    pub open spec fn wf(self) -> bool {
        self.total_volume == self.pool_yes + self.pool_no
    }

    /// The combined pool, `pool_yes + pool_no`, as a mathematical integer.
    pub open spec fn spec_total_pool(self) -> int {
        self.pool_yes + self.pool_no
    }
}

/// The pool recorded for one side of the market.
pub open spec fn spec_side_pool(m: Market, outcome: Outcome) -> u64 {
    match outcome {
        Outcome::Yes => m.pool_yes,
        Outcome::No => m.pool_no,
    }
}

/// The market record as creation initializes it: both pools and the volume
/// zero, status `Active`, no winner, authority bound to the caller.
pub open spec fn spec_new_market(
    authority: AccountId,
    market_id: String,
    question: String,
    end_time: i64,
) -> Market {
    Market {
        authority,
        market_id,
        question,
        pool_yes: 0,
        pool_no: 0,
        total_volume: 0,
        end_time,
        status: MarketStatus::Active,
        winning_outcome: None,
    }
}

/// The implied probability of `outcome`, in basis points, quoted against the
/// pools as they stand before the stake: `pool[outcome] * 10000 / total`,
/// truncating, or 5000 into an empty market.
pub open spec fn spec_odds(m: Market, outcome: Outcome) -> int {
    if m.spec_total_pool() == 0 {
        EVEN_ODDS as int
    } else {
        spec_side_pool(m, outcome) * ODDS_SCALE / m.spec_total_pool()
    }
}

/// The informational payout estimate frozen into a new position: the claim
/// formula applied against the pools as they stand after this stake, as if no
/// further stake ever arrived. Not used by the claim logic.
pub open spec fn spec_potential_payout(m: Market, amount: u64, outcome: Outcome) -> int {
    (m.spec_total_pool() + amount) * amount / (spec_side_pool(m, outcome) + amount)
}

/// The first stake precondition that fails, checked in order: the market must
/// be `Active`, the current time strictly before `end_time`, and the amount
/// strictly positive. `None` means the stake is accepted.
pub open spec fn spec_stake_check(m: Market, amount: u64, now: i64) -> Option<ErrorCode> {
    if !(m.status is Active) {
        Some(ErrorCode::MarketNotActive)
    } else if now >= m.end_time {
        Some(ErrorCode::MarketExpired)
    } else if amount == 0 {
        Some(ErrorCode::InvalidAmount)
    } else {
        None
    }
}

/// The market after an accepted stake: `amount` added to the chosen side's
/// pool and to the volume; everything else untouched.
pub open spec fn spec_stake_market(m: Market, amount: u64, outcome: Outcome) -> Market {
    Market {
        pool_yes: if outcome is Yes { (m.pool_yes + amount) as u64 } else { m.pool_yes },
        pool_no: if outcome is No { (m.pool_no + amount) as u64 } else { m.pool_no },
        total_volume: (m.total_volume + amount) as u64,
        ..m
    }
}

/// The first resolution precondition that fails: the caller must be the
/// market's authority, and the market still `Active`.
pub open spec fn spec_resolve_check(m: Market, caller: AccountId) -> Option<ErrorCode> {
    if caller != m.authority {
        Some(ErrorCode::Unauthorized)
    } else if !(m.status is Active) {
        Some(ErrorCode::MarketAlreadyResolved)
    } else {
        None
    }
}

/// The market after resolution: status `Resolved`, the winner recorded,
/// pools and volume untouched.
pub open spec fn spec_resolve_market(m: Market, winning_outcome: Outcome) -> Market {
    Market {
        status: MarketStatus::Resolved,
        winning_outcome: Some(winning_outcome),
        ..m
    }
}

/// Initializes a new market for `authority`. Returns `None` exactly when a
/// text field exceeds its bound; otherwise the fresh `Active` record with
/// empty pools. No payment is required to create a market; identifier
/// uniqueness is enforced by the record store, not here.
pub fn create_market(
    authority: AccountId,
    market_id: String,
    question: String,
    end_time: i64,
) -> (r: Option<Market>)
    ensures
        match r {
            Some(m) => {
                &&& market_id@.len() <= MAX_MARKET_ID_LEN
                &&& question@.len() <= MAX_QUESTION_LEN
                &&& m == spec_new_market(authority, market_id, question, end_time)
                &&& m.wf()
            },
            None => market_id@.len() > MAX_MARKET_ID_LEN || question@.len() > MAX_QUESTION_LEN,
        },
{
    if market_id.as_str().unicode_len() > MAX_MARKET_ID_LEN
        || question.as_str().unicode_len() > MAX_QUESTION_LEN {
        return None;
    }
    Some(Market {
        authority,
        market_id,
        question,
        pool_yes: 0,
        pool_no: 0,
        total_volume: 0,
        end_time,
        status: MarketStatus::Active,
        winning_outcome: None,
    })
}

/// Places a stake of `amount` on `outcome` at time `now`.
///
/// On success the chosen pool and the volume grow by `amount` and the new
/// position is returned, carrying the odds quoted against the pre-stake pools
/// and the informational payout estimate against the post-stake pools. On
/// failure the market is left unchanged and the error says which precondition
/// failed first. The caller must escrow `amount` from `user` before trusting
/// the updated record (all-or-nothing per stake).
///
/// The overflow bounds in the precondition exclude exactly the inputs on
/// which the arithmetic would exceed `u64`.
pub fn place_stake(
    market: &mut Market,
    user: AccountId,
    amount: u64,
    outcome: Outcome,
    now: i64,
) -> (r: Result<Position, ErrorCode>)
    requires
        old(market).wf(),
        spec_stake_check(*old(market), amount, now) is None ==> {
            &&& old(market).spec_total_pool() + amount <= u64::MAX
            &&& spec_side_pool(*old(market), outcome) * ODDS_SCALE <= u64::MAX
            &&& (old(market).spec_total_pool() + amount) * amount <= u64::MAX
        },
    ensures
        final(market).wf(),
        r is Ok <==> spec_stake_check(*old(market), amount, now) is None,
        match r {
            Ok(p) => {
                &&& *final(market) == spec_stake_market(*old(market), amount, outcome)
                &&& p.user == user
                &&& p.market == old(market).market_id
                &&& p.stake_amount == amount
                &&& p.outcome == outcome
                &&& p.odds_at_stake == spec_odds(*old(market), outcome)
                &&& p.potential_payout == spec_potential_payout(*old(market), amount, outcome)
                &&& p.payout_amount == 0
                &&& !p.claimed
                &&& p.created_at == now
            },
            Err(e) => {
                &&& spec_stake_check(*old(market), amount, now) == Some(e)
                &&& *final(market) == *old(market)
            },
        },
{
    if !(market.status == MarketStatus::Active) {
        return Err(ErrorCode::MarketNotActive);
    }
    if now >= market.end_time {
        return Err(ErrorCode::MarketExpired);
    }
    if amount == 0 {
        return Err(ErrorCode::InvalidAmount);
    }

    // Odds are quoted against the pools before this stake joins them.
    let total_pool = market.pool_yes + market.pool_no;
    let odds_at_stake = if total_pool == 0 {
        EVEN_ODDS
    } else {
        match outcome {
            Outcome::Yes => (market.pool_yes * ODDS_SCALE) / total_pool,
            Outcome::No => (market.pool_no * ODDS_SCALE) / total_pool,
        }
    };

    match outcome {
        Outcome::Yes => { market.pool_yes = market.pool_yes + amount; },
        Outcome::No => { market.pool_no = market.pool_no + amount; },
    }
    market.total_volume = market.total_volume + amount;

    // The estimate divides by the post-stake side pool, which this stake
    // itself made strictly positive.
    let new_total = market.pool_yes + market.pool_no;
    let potential_payout = match outcome {
        Outcome::Yes => (new_total * amount) / market.pool_yes,
        Outcome::No => (new_total * amount) / market.pool_no,
    };

    Ok(Position {
        user,
        market: market.market_id.clone(),
        stake_amount: amount,
        outcome,
        odds_at_stake,
        potential_payout,
        payout_amount: 0,
        claimed: false,
        created_at: now,
    })
}

/// Resolves the market to `winning_outcome`. Only the authority may resolve,
/// and only once: a later attempt fails with `MarketAlreadyResolved` (or
/// `Unauthorized`, checked first) and changes nothing.
pub fn resolve_market(
    market: &mut Market,
    caller: AccountId,
    winning_outcome: Outcome,
) -> (r: Result<(), ErrorCode>)
    ensures
        r is Ok <==> spec_resolve_check(*old(market), caller) is None,
        old(market).wf() ==> final(market).wf(),
        match r {
            Ok(_) => *final(market) == spec_resolve_market(*old(market), winning_outcome),
            Err(e) => {
                &&& spec_resolve_check(*old(market), caller) == Some(e)
                &&& *final(market) == *old(market)
            },
        },
{
    if !(caller == market.authority) {
        return Err(ErrorCode::Unauthorized);
    }
    if !(market.status == MarketStatus::Active) {
        return Err(ErrorCode::MarketAlreadyResolved);
    }
    market.status = MarketStatus::Resolved;
    market.winning_outcome = Some(winning_outcome);
    Ok(())
}

} // verus!
