//! The guarantees the market engine gives across operations, stated over the
//! same specification functions the operations' contracts use and proved once
//! and for all: accounting stays balanced, rejected operations reject for the
//! stated reason, resolution and claims are one-shot, and settlement can
//! never pay out more than the pool collected.

use vstd::prelude::*;
use vstd::arithmetic::div_mod::{
    lemma_div_is_ordered, lemma_div_multiples_vanish, lemma_fundamental_div_mod,
    lemma_mod_bound, lemma_multiply_divide_le,
};
use vstd::arithmetic::mul::{
    lemma_mul_inequality, lemma_mul_is_commutative, lemma_mul_is_distributive_add,
    lemma_mul_nonnegative,
};
use crate::market::{
    spec_odds, spec_resolve_check, spec_resolve_market, spec_side_pool, spec_stake_check,
    spec_stake_market, Market, EVEN_ODDS,
};
use crate::position::{spec_claim_amount, spec_claim_check, spec_payout, Position};
use crate::types::{AccountId, ErrorCode, Outcome};

verus! {

/// Accounting balance: an accepted stake moves the market to a state where
/// `total_volume` still equals `pool_yes + pool_no`. Creation establishes the
/// same equation (see `create_market`), resolution keeps it (below), and a
/// claim never touches the market record, so it holds after every operation.
pub proof fn lemma_stake_preserves_accounting(m: Market, amount: u64, outcome: Outcome)
    requires
        m.wf(),
        m.spec_total_pool() + amount <= u64::MAX,
    ensures
        spec_stake_market(m, amount, outcome).wf(),
{
}

/// Accounting balance: resolution leaves both pools and the volume untouched,
/// so the balance equation survives it.
pub proof fn lemma_resolve_preserves_accounting(m: Market, winning_outcome: Outcome)
    requires
        m.wf(),
    ensures
        spec_resolve_market(m, winning_outcome).wf(),
{
}

/// The pools and the volume never decrease: a stake only adds to them, and
/// resolution and claims never touch them — claims pay out of escrow without
/// shrinking the recorded totals.
pub proof fn lemma_pools_never_shrink(m: Market, amount: u64, outcome: Outcome)
    requires
        m.wf(),
        m.spec_total_pool() + amount <= u64::MAX,
    ensures
        spec_stake_market(m, amount, outcome).pool_yes >= m.pool_yes,
        spec_stake_market(m, amount, outcome).pool_no >= m.pool_no,
        spec_stake_market(m, amount, outcome).total_volume >= m.total_volume,
{
}

/// A stake against a market that is no longer `Active` is rejected with
/// `MarketNotActive`, whatever the amount or the time; `place_stake`'s
/// contract then guarantees the market is left unchanged.
pub proof fn lemma_stake_rejected_inactive(m: Market, amount: u64, now: i64)
    requires
        !(m.status is Active),
    ensures
        spec_stake_check(m, amount, now) == Some(ErrorCode::MarketNotActive),
{
}

/// A stake at or after the market's end time is rejected with
/// `MarketExpired`, whatever the amount; `place_stake`'s contract then
/// guarantees the market is left unchanged.
pub proof fn lemma_stake_rejected_expired(m: Market, amount: u64, now: i64)
    requires
        m.status is Active,
        now >= m.end_time,
    ensures
        spec_stake_check(m, amount, now) == Some(ErrorCode::MarketExpired),
{
}

/// The first stake into a fresh market — both pools empty — is always quoted
/// even odds of 5000 basis points, regardless of the side chosen.
pub proof fn lemma_first_stake_even_odds(m: Market, outcome: Outcome)
    requires
        m.pool_yes == 0,
        m.pool_no == 0,
    ensures
        spec_odds(m, outcome) == EVEN_ODDS,
{
}

/// Resolution is one-shot: once a resolution has been accepted, the recorded
/// winner is the resolved outcome, and every later resolution attempt fails —
/// with `MarketAlreadyResolved` when the authority itself retries. A failing
/// `resolve_market` leaves the market unchanged (its contract), so the winner
/// recorded by the first resolution can never change.
pub proof fn lemma_resolution_is_final(
    m: Market,
    caller: AccountId,
    winning_outcome: Outcome,
    retry_caller: AccountId,
)
    requires
        spec_resolve_check(m, caller) is None,
    ensures
        spec_resolve_market(m, winning_outcome).winning_outcome == Some(winning_outcome),
        spec_resolve_check(spec_resolve_market(m, winning_outcome), retry_caller) is Some,
        retry_caller == m.authority ==> spec_resolve_check(
            spec_resolve_market(m, winning_outcome),
            retry_caller,
        ) == Some(ErrorCode::MarketAlreadyResolved),
{
}

/// A claim right is consumed permanently: a claim on an already-claimed
/// position fails with `AlreadyClaimed`, whoever calls. Since a successful
/// `claim_payout` sets `claimed` and a failing one leaves the position
/// unchanged (its contract), the `payout_amount` recorded by the first claim
/// survives every later attempt.
pub proof fn lemma_second_claim_rejected(m: Market, p: Position, caller: AccountId)
    requires
        m.status is Resolved,
        p.claimed,
    ensures
        spec_claim_check(m, p, caller) == Some(ErrorCode::AlreadyClaimed),
{
}

/// Degenerate settlement: if nobody ever staked on the declared winner, every
/// claim on that market pays zero — losers by side, winners by the empty-pool
/// guard — and no division by zero is ever reached.
pub proof fn lemma_empty_winning_pool_pays_zero(m: Market, p: Position, winner: Outcome)
    requires
        m.winning_outcome == Some(winner),
        spec_side_pool(m, winner) == 0,
    ensures
        spec_claim_amount(m, p) == 0,
{
}

/// The sum of a sequence of stake amounts.
pub open spec fn sum_stakes(stakes: Seq<u64>) -> int
    decreases stakes.len(),
{
    if stakes.len() == 0 {
        0
    } else {
        sum_stakes(stakes.drop_last()) + stakes.last()
    }
}

/// The sum of the payouts the claim formula grants to winning positions with
/// the given stake amounts, against a combined pool of `total_pool` and a
/// winning-side pool of `winning_pool`.
pub open spec fn sum_payouts(total_pool: int, winning_pool: u64, stakes: Seq<u64>) -> int
    decreases stakes.len(),
{
    if stakes.len() == 0 {
        0
    } else {
        sum_payouts(total_pool, winning_pool, stakes.drop_last()) + spec_payout(
            total_pool,
            stakes.last(),
            winning_pool,
        )
    }
}

/// A sum of stake amounts is never negative.
proof fn lemma_sum_stakes_nonneg(stakes: Seq<u64>)
    ensures
        sum_stakes(stakes) >= 0,
    decreases stakes.len(),
{
    if stakes.len() > 0 {
        lemma_sum_stakes_nonneg(stakes.drop_last());
    }
}

/// Truncating division is superadditive: dropping each remainder separately
/// never beats dropping the remainder of the sum.
proof fn lemma_div_superadditive(a: int, b: int, w: int)
    requires
        0 <= a,
        0 <= b,
        0 < w,
    ensures
        a / w + b / w <= (a + b) / w,
{
    lemma_fundamental_div_mod(a, w);
    lemma_fundamental_div_mod(b, w);
    lemma_mod_bound(a, w);
    lemma_mod_bound(b, w);
    lemma_mul_is_distributive_add(w, a / w, b / w);
    assert(w * (a / w + b / w) <= a + b);
    lemma_div_multiples_vanish(a / w + b / w, w);
    lemma_div_is_ordered(w * (a / w + b / w), a + b, w);
}

/// Summed truncating payouts never beat the payout of the summed stakes:
/// each winner's `total_pool * stake / winning_pool` rounds down, so the sum
/// is at most `total_pool * sum_stakes / winning_pool`.
proof fn lemma_payout_sum_le_pooled_payout(total_pool: int, winning_pool: u64, stakes: Seq<u64>)
    requires
        0 <= total_pool,
        winning_pool > 0,
    ensures
        sum_payouts(total_pool, winning_pool, stakes) <= total_pool * sum_stakes(stakes)
            / winning_pool as int,
    decreases stakes.len(),
{
    let w = winning_pool as int;
    if stakes.len() == 0 {
        assert(total_pool * 0 == 0);
        assert(0int / w == 0);
    } else {
        let rest = stakes.drop_last();
        let x = stakes.last();
        lemma_payout_sum_le_pooled_payout(total_pool, winning_pool, rest);
        lemma_sum_stakes_nonneg(rest);
        lemma_mul_nonnegative(total_pool, sum_stakes(rest));
        lemma_mul_nonnegative(total_pool, x as int);
        lemma_div_superadditive(total_pool * sum_stakes(rest), total_pool * x, w);
        lemma_mul_is_distributive_add(total_pool, sum_stakes(rest), x as int);
    }
}

/// Conservation of the escrow, in the raw arithmetic: as long as the winning
/// stakes together amount to no more than the winning pool, the truncating
/// payout formula disburses at most the combined pool.
pub proof fn lemma_payout_sum_bounded(total_pool: int, winning_pool: u64, stakes: Seq<u64>)
    requires
        0 <= total_pool,
        sum_stakes(stakes) <= winning_pool,
    ensures
        sum_payouts(total_pool, winning_pool, stakes) <= total_pool,
    decreases stakes.len(),
{
    if winning_pool == 0 {
        // Every payout is zero against an empty winning pool.
        if stakes.len() > 0 {
            lemma_sum_stakes_nonneg(stakes.drop_last());
            lemma_payout_sum_bounded(total_pool, winning_pool, stakes.drop_last());
        }
    } else {
        let w = winning_pool as int;
        lemma_payout_sum_le_pooled_payout(total_pool, winning_pool, stakes);
        lemma_sum_stakes_nonneg(stakes);
        lemma_mul_inequality(sum_stakes(stakes), w, total_pool);
        lemma_mul_is_commutative(sum_stakes(stakes), total_pool);
        lemma_mul_is_commutative(w, total_pool);
        lemma_multiply_divide_le(total_pool * sum_stakes(stakes), w, total_pool);
        lemma_div_is_ordered(total_pool * sum_stakes(stakes), w * total_pool, w);
    }
}

/// Conservation for a resolved market: every position on the winning side put
/// its stake into the winning pool, so the winning stakes sum to at most that
/// pool, and the payouts the claim formula grants them — each one equal to
/// `spec_claim_amount` for its position — sum to at most `pool_yes + pool_no`
/// as they stand at resolution. The escrow that collected every stake can
/// therefore always cover every claim.
pub proof fn lemma_claim_conservation(m: Market, winner: Outcome, stakes: Seq<u64>)
    requires
        m.wf(),
        m.status is Resolved,
        m.winning_outcome == Some(winner),
        sum_stakes(stakes) <= spec_side_pool(m, winner),
    ensures
        sum_payouts(m.spec_total_pool(), spec_side_pool(m, winner), stakes)
            <= m.spec_total_pool(),
{
    lemma_payout_sum_bounded(m.spec_total_pool(), spec_side_pool(m, winner), stakes);
}

/// The market after a sequence of accepted stakes, oldest first.
pub open spec fn spec_apply_stakes(m: Market, stakes: Seq<(u64, Outcome)>) -> Market
    decreases stakes.len(),
{
    if stakes.len() == 0 {
        m
    } else {
        spec_stake_market(
            spec_apply_stakes(m, stakes.drop_last()),
            stakes.last().0,
            stakes.last().1,
        )
    }
}

/// The amounts of the stakes placed on one side, in order.
pub open spec fn stake_amounts_on(stakes: Seq<(u64, Outcome)>, side: Outcome) -> Seq<u64>
    decreases stakes.len(),
{
    if stakes.len() == 0 {
        Seq::empty()
    } else {
        let rest = stake_amounts_on(stakes.drop_last(), side);
        if stakes.last().1 == side {
            rest.push(stakes.last().0)
        } else {
            rest
        }
    }
}

/// Every accepted stake adds its amount to its side's pool and nothing else
/// touches the pools, so after any sequence of stakes each pool is its
/// starting value plus the sum of the amounts staked on that side.
pub proof fn lemma_pools_collect_stakes(m: Market, stakes: Seq<(u64, Outcome)>)
    requires
        m.wf(),
        m.spec_total_pool() + sum_stakes(stake_amounts_on(stakes, Outcome::Yes)) + sum_stakes(
            stake_amounts_on(stakes, Outcome::No),
        ) <= u64::MAX,
    ensures
        spec_apply_stakes(m, stakes).pool_yes == m.pool_yes + sum_stakes(
            stake_amounts_on(stakes, Outcome::Yes),
        ),
        spec_apply_stakes(m, stakes).pool_no == m.pool_no + sum_stakes(
            stake_amounts_on(stakes, Outcome::No),
        ),
        spec_apply_stakes(m, stakes).wf(),
    decreases stakes.len(),
{
    if stakes.len() > 0 {
        let rest = stakes.drop_last();
        let amount = stakes.last().0;
        let on_yes = stake_amounts_on(rest, Outcome::Yes);
        let on_no = stake_amounts_on(rest, Outcome::No);
        // Appending one amount to a side's list adds exactly that amount to
        // the side's sum.
        assert(on_yes.push(amount).drop_last() =~= on_yes);
        assert(on_no.push(amount).drop_last() =~= on_no);
        assert(sum_stakes(on_yes.push(amount)) == sum_stakes(on_yes) + amount);
        assert(sum_stakes(on_no.push(amount)) == sum_stakes(on_no) + amount);
        lemma_sum_stakes_nonneg(on_yes);
        lemma_sum_stakes_nonneg(on_no);
        lemma_pools_collect_stakes(m, rest);
    }
}

/// Conservation, grounded in the engine's own accounting: a market built from
/// freshly created (empty) pools by any sequence of accepted stakes and then
/// resolved has its winning pool equal to the sum of the winning stakes, so
/// the payouts the claim formula grants those stakes sum to at most the
/// combined pool standing at resolution.
pub proof fn lemma_settlement_conservation(
    m: Market,
    stakes: Seq<(u64, Outcome)>,
    winner: Outcome,
)
    requires
        m.wf(),
        m.pool_yes == 0,
        m.pool_no == 0,
        sum_stakes(stake_amounts_on(stakes, Outcome::Yes)) + sum_stakes(
            stake_amounts_on(stakes, Outcome::No),
        ) <= u64::MAX,
    ensures
        ({
            let settled = spec_resolve_market(spec_apply_stakes(m, stakes), winner);
            sum_payouts(
                settled.spec_total_pool(),
                spec_side_pool(settled, winner),
                stake_amounts_on(stakes, winner),
            ) <= settled.spec_total_pool()
        }),
{
    let settled = spec_resolve_market(spec_apply_stakes(m, stakes), winner);
    lemma_pools_collect_stakes(m, stakes);
    lemma_sum_stakes_nonneg(stake_amounts_on(stakes, Outcome::Yes));
    lemma_sum_stakes_nonneg(stake_amounts_on(stakes, Outcome::No));
    lemma_payout_sum_bounded(
        settled.spec_total_pool(),
        spec_side_pool(settled, winner),
        stake_amounts_on(stakes, winner),
    );
}

/// Each term of `sum_payouts` is exactly what `claim_payout` grants a winning
/// position with that stake: the two ways of reading the settlement agree.
pub proof fn lemma_claim_amount_matches_payout(m: Market, p: Position, winner: Outcome)
    requires
        m.winning_outcome == Some(winner),
        p.outcome == winner,
    ensures
        spec_claim_amount(m, p) == spec_payout(
            m.spec_total_pool(),
            p.stake_amount,
            spec_side_pool(m, winner),
        ),
{
}

} // verus!
