use oracle_program::market::{create_market, place_stake, resolve_market, Market};
use oracle_program::types::{AccountId, ErrorCode, MarketStatus, Outcome};

fn acct(n: u64) -> AccountId {
    AccountId { w0: n, w1: 0, w2: 0, w3: 0 }
}

fn fresh_market(end_time: i64) -> Market {
    create_market(
        acct(1),
        String::from("btc-100k"),
        String::from("Will BTC close above 100k this year?"),
        end_time,
    )
    .expect("bounded text must be accepted")
}

#[test]
fn create_initializes_empty_active_market() {
    let m = fresh_market(1_000);
    assert_eq!(m.authority, acct(1));
    assert_eq!(m.market_id, "btc-100k");
    assert_eq!(m.question, "Will BTC close above 100k this year?");
    assert_eq!(m.pool_yes, 0);
    assert_eq!(m.pool_no, 0);
    assert_eq!(m.total_volume, 0);
    assert_eq!(m.end_time, 1_000);
    assert_eq!(m.status, MarketStatus::Active);
    assert_eq!(m.winning_outcome, None);
}

#[test]
fn create_rejects_overlong_market_id() {
    let long_id = "x".repeat(51);
    assert!(create_market(acct(1), long_id, String::from("q"), 10).is_none());
    let max_id = "x".repeat(50);
    assert!(create_market(acct(1), max_id, String::from("q"), 10).is_some());
}

#[test]
fn create_rejects_overlong_question() {
    let long_q = "y".repeat(201);
    assert!(create_market(acct(1), String::from("id"), long_q, 10).is_none());
    let max_q = "y".repeat(200);
    assert!(create_market(acct(1), String::from("id"), max_q, 10).is_some());
}

#[test]
fn first_stake_into_empty_market_quotes_even_odds() {
    // A stake of 100 into an empty market on Yes: odds 5000, pools 100/0,
    // potential payout (100 * 100) / 100 = 100.
    let mut m = fresh_market(1_000);
    let p = place_stake(&mut m, acct(2), 100, Outcome::Yes, 10).expect("stake must be accepted");
    assert_eq!(p.odds_at_stake, 5000);
    assert_eq!(m.pool_yes, 100);
    assert_eq!(m.pool_no, 0);
    assert_eq!(m.total_volume, 100);
    assert_eq!(p.potential_payout, 100);
    assert_eq!(p.user, acct(2));
    assert_eq!(p.market, "btc-100k");
    assert_eq!(p.stake_amount, 100);
    assert_eq!(p.outcome, Outcome::Yes);
    assert_eq!(p.payout_amount, 0);
    assert!(!p.claimed);
    assert_eq!(p.created_at, 10);
}

#[test]
fn first_stake_quotes_even_odds_on_either_side() {
    let mut yes_side = fresh_market(1_000);
    let p_yes =
        place_stake(&mut yes_side, acct(2), 7, Outcome::Yes, 10).expect("stake must be accepted");
    let mut no_side = fresh_market(1_000);
    let p_no =
        place_stake(&mut no_side, acct(2), 7, Outcome::No, 10).expect("stake must be accepted");
    assert_eq!(p_yes.odds_at_stake, 5000);
    assert_eq!(p_no.odds_at_stake, 5000);
}

#[test]
fn odds_quote_the_chosen_side_before_the_stake() {
    let mut m = fresh_market(1_000);
    place_stake(&mut m, acct(2), 300, Outcome::Yes, 10).unwrap();
    place_stake(&mut m, acct(3), 100, Outcome::No, 11).unwrap();
    // Pools are now 300/100. A Yes stake is quoted 300 * 10000 / 400 = 7500;
    // a No stake 100 * 10000 / 400 = 2500 — asymmetric by design.
    let p_yes = place_stake(&mut m, acct(4), 40, Outcome::Yes, 12).unwrap();
    assert_eq!(p_yes.odds_at_stake, 7500);
    // Pools are now 340/100: a No quote is 100 * 10000 / 440 = 2272 (truncated).
    let p_no = place_stake(&mut m, acct(5), 40, Outcome::No, 13).unwrap();
    assert_eq!(p_no.odds_at_stake, 2272);
}

#[test]
fn one_sided_market_quotes_certainty_for_the_crowded_side() {
    let mut m = fresh_market(1_000);
    place_stake(&mut m, acct(2), 100, Outcome::Yes, 10).unwrap();
    // Pools 100/0: the crowded side is quoted 100 * 10000 / 100 = 10000, and
    // a stake there can at best get its money back: (150 * 50) / 150 = 50.
    let p = place_stake(&mut m, acct(3), 50, Outcome::Yes, 11).unwrap();
    assert_eq!(p.odds_at_stake, 10_000);
    assert_eq!(p.potential_payout, 50);
}

#[test]
fn volume_equals_pool_sum_after_every_operation() {
    let mut m = fresh_market(1_000);
    assert_eq!(m.total_volume, m.pool_yes + m.pool_no);
    let stakes = [
        (2u64, 100u64, Outcome::Yes),
        (3, 250, Outcome::No),
        (4, 1, Outcome::Yes),
        (5, 999, Outcome::No),
        (6, 42, Outcome::Yes),
    ];
    for (who, amount, side) in stakes {
        place_stake(&mut m, acct(who), amount, side, 10).unwrap();
        assert_eq!(m.total_volume, m.pool_yes + m.pool_no);
    }
    resolve_market(&mut m, acct(1), Outcome::No).unwrap();
    assert_eq!(m.total_volume, m.pool_yes + m.pool_no);
}

#[test]
fn stake_on_resolved_market_fails_and_changes_nothing() {
    let mut m = fresh_market(1_000);
    place_stake(&mut m, acct(2), 100, Outcome::Yes, 10).unwrap();
    resolve_market(&mut m, acct(1), Outcome::Yes).unwrap();
    let before_yes = m.pool_yes;
    let before_no = m.pool_no;
    let before_volume = m.total_volume;
    let r = place_stake(&mut m, acct(3), 50, Outcome::No, 11);
    assert_eq!(r.unwrap_err(), ErrorCode::MarketNotActive);
    assert_eq!(m.pool_yes, before_yes);
    assert_eq!(m.pool_no, before_no);
    assert_eq!(m.total_volume, before_volume);
    assert_eq!(m.status, MarketStatus::Resolved);
}

#[test]
fn stake_at_or_after_end_time_fails_and_changes_nothing() {
    let mut m = fresh_market(1_000);
    // Exactly at the deadline is already too late.
    let r = place_stake(&mut m, acct(2), 50, Outcome::Yes, 1_000);
    assert_eq!(r.unwrap_err(), ErrorCode::MarketExpired);
    let r = place_stake(&mut m, acct(2), 50, Outcome::Yes, 2_000);
    assert_eq!(r.unwrap_err(), ErrorCode::MarketExpired);
    assert_eq!(m.pool_yes, 0);
    assert_eq!(m.pool_no, 0);
    assert_eq!(m.total_volume, 0);
    // One tick before the deadline is still accepted.
    assert!(place_stake(&mut m, acct(2), 50, Outcome::Yes, 999).is_ok());
}

#[test]
fn zero_stake_is_rejected() {
    let mut m = fresh_market(1_000);
    let r = place_stake(&mut m, acct(2), 0, Outcome::No, 10);
    assert_eq!(r.unwrap_err(), ErrorCode::InvalidAmount);
    assert_eq!(m.total_volume, 0);
}

#[test]
fn only_the_authority_may_resolve() {
    let mut m = fresh_market(1_000);
    let r = resolve_market(&mut m, acct(99), Outcome::Yes);
    assert_eq!(r.unwrap_err(), ErrorCode::Unauthorized);
    assert_eq!(m.status, MarketStatus::Active);
    assert_eq!(m.winning_outcome, None);
    assert!(resolve_market(&mut m, acct(1), Outcome::Yes).is_ok());
    assert_eq!(m.status, MarketStatus::Resolved);
    assert_eq!(m.winning_outcome, Some(Outcome::Yes));
}

#[test]
fn second_resolution_fails_and_keeps_the_winner() {
    let mut m = fresh_market(1_000);
    resolve_market(&mut m, acct(1), Outcome::No).unwrap();
    let r = resolve_market(&mut m, acct(1), Outcome::Yes);
    assert_eq!(r.unwrap_err(), ErrorCode::MarketAlreadyResolved);
    assert_eq!(m.winning_outcome, Some(Outcome::No));
    assert_eq!(m.status, MarketStatus::Resolved);
}
