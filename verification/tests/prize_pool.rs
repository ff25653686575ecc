use puzzle_contracts::prize_pool::{PoolError, PoolStatus, PrizePoolContract};
use puzzle_contracts::token::TokenTransfer;

const OWNER: u64 = 1;
const ADMIN: u64 = 2;
const USER1: u64 = 3;
const USER2: u64 = 4;
const USER3: u64 = 5;
const TOKEN: u64 = 50;
const CONTRACT: u64 = 90;

#[test]
fn test_prize_pool_flow() {
    let mut pp = PrizePoolContract::init(OWNER, TOKEN);
    // min_threshold 300 and claim_period 0, so rollover is allowed at once.
    let pool_id = pp.create_pool(ADMIN, 300, 0, 0);
    assert_eq!(pp.contribute(USER1, pool_id, 100, CONTRACT), Ok(TokenTransfer { token: TOKEN, from: USER1, to: CONTRACT, amount: 100 }));
    pp.contribute(USER2, pool_id, 100, CONTRACT).unwrap();
    pp.contribute(USER3, pool_id, 150, CONTRACT).unwrap();
    assert_eq!(pp.get_pool(pool_id).unwrap().total, 350);

    pp.distribute(ADMIN, pool_id, vec![USER1, USER2], 10).unwrap();
    // user1 receives 175.
    let paid = pp.claim(USER1, pool_id, CONTRACT).unwrap();
    assert_eq!(paid, TokenTransfer { token: TOKEN, from: CONTRACT, to: USER1, amount: 175 });

    // user2 does not claim; the rest rolls into a new pool.
    let target_pool = pp.create_pool(ADMIN, 10, 0, 10);
    pp.rollover_unclaimed(OWNER, pool_id, target_pool, 10).unwrap();
    assert_eq!(pp.get_pool(target_pool).unwrap().total, 175);
    assert_eq!(pp.get_stats().total_distributed, 175);
    assert_eq!(pp.get_stats().total_contributed, 350);
    assert_eq!(pp.get_stats().num_contributors, 3);
}

#[test]
fn split_keeps_remainder_in_pool() {
    let mut pp = PrizePoolContract::init(OWNER, TOKEN);
    let id = pp.create_pool(ADMIN, 0, 100, 0);
    pp.contribute(USER1, id, 100, CONTRACT).unwrap();
    pp.distribute(ADMIN, id, vec![USER1, USER2, USER3], 5).unwrap();
    let pool = pp.get_pool(id).unwrap();
    assert_eq!(pool.status, PoolStatus::Distributed);
    assert_eq!(pool.total, 1);
    let d = pp.get_distribution(id).unwrap();
    assert_eq!(d.amounts, vec![33, 33, 33]);
    assert_eq!(d.distributed_at, 5);
    assert!(d.claimed.is_empty());
}

#[test]
fn claim_errors() {
    let mut pp = PrizePoolContract::init(OWNER, TOKEN);
    let id = pp.create_pool(ADMIN, 0, 100, 0);
    pp.contribute(USER1, id, 10, CONTRACT).unwrap();
    assert_eq!(pp.claim(USER1, id, CONTRACT), Err(PoolError::DistributionNotFound));
    pp.distribute(ADMIN, id, vec![USER1], 0).unwrap();
    assert_eq!(pp.claim(USER2, id, CONTRACT), Err(PoolError::NotAWinner));
    pp.claim(USER1, id, CONTRACT).unwrap();
    assert_eq!(pp.claim(USER1, id, CONTRACT), Err(PoolError::AlreadyClaimed));
    assert_eq!(pp.get_distribution(id).unwrap().claimed, vec![true]);
}

#[test]
fn distribute_and_contribute_errors() {
    let mut pp = PrizePoolContract::init(OWNER, TOKEN);
    let id = pp.create_pool(ADMIN, 50, 100, 0);
    assert_eq!(pp.contribute(USER1, id, 0, CONTRACT), Err(PoolError::InvalidAmount));
    assert_eq!(pp.contribute(USER1, 9, 5, CONTRACT), Err(PoolError::PoolNotFound));
    pp.contribute(USER1, id, 10, CONTRACT).unwrap();
    assert_eq!(pp.distribute(ADMIN, id, vec![USER1], 0), Err(PoolError::BelowMinimumThreshold));
    pp.contribute(USER1, id, 40, CONTRACT).unwrap();
    assert_eq!(pp.distribute(ADMIN, id, vec![], 0), Err(PoolError::NoWinners));
    assert_eq!(pp.distribute(USER1, id, vec![USER1], 0), Err(PoolError::NotPoolAdmin));
    pp.distribute(ADMIN, id, vec![USER1], 0).unwrap();
    assert_eq!(pp.contribute(USER1, id, 5, CONTRACT), Err(PoolError::PoolNotOpen));
    assert_eq!(pp.distribute(ADMIN, id, vec![USER1], 0), Err(PoolError::PoolNotOpen));
}

#[test]
fn rollover_waits_for_claim_period() {
    let mut pp = PrizePoolContract::init(OWNER, TOKEN);
    let id = pp.create_pool(ADMIN, 0, 100, 0);
    let target = pp.create_pool(ADMIN, 0, 100, 0);
    pp.contribute(USER1, id, 20, CONTRACT).unwrap();
    assert_eq!(pp.rollover_unclaimed(OWNER, id, target, 0), Err(PoolError::DistributionNotFound));
    pp.distribute(ADMIN, id, vec![USER1, USER2], 10).unwrap();
    assert_eq!(pp.rollover_unclaimed(OWNER, id, target, 109), Err(PoolError::ClaimPeriodNotExpired));
    pp.rollover_unclaimed(OWNER, id, target, 110).unwrap();
    assert_eq!(pp.get_pool(target).unwrap().total, 20);
    assert_eq!(pp.get_distribution(id).unwrap().claimed, vec![true, true]);
    // Nothing is left to roll over a second time.
    pp.rollover_unclaimed(OWNER, id, target, 200).unwrap();
    assert_eq!(pp.get_pool(target).unwrap().total, 20);
    assert_eq!(pp.claim(USER2, id, CONTRACT), Err(PoolError::AlreadyClaimed));
}
