use puzzle_contracts::puzzle_bounty::{BountyError, BountyStatus, PuzzleBountyContract};
use puzzle_contracts::token::TokenTransfer;

const ADMIN: u64 = 1;
const SPONSOR: u64 = 2;
const S1: u64 = 3;
const S2: u64 = 4;
const S3: u64 = 5;
const TOKEN: u64 = 50;
const CONTRACT: u64 = 90;

fn make_hash(seed: u8) -> [u8; 32] {
    let mut bytes = [0u8; 32];
    bytes[0] = seed;
    bytes
}

fn setup() -> PuzzleBountyContract {
    PuzzleBountyContract::initialize(ADMIN)
}

fn payout(to: u64, amount: i128) -> TokenTransfer {
    TokenTransfer { token: TOKEN, from: CONTRACT, to, amount }
}

#[test]
fn test_create_bounty_escrows_tokens() {
    let mut c = setup();
    let (id, escrow) = c.create_bounty(SPONSOR, TOKEN, 1, make_hash(42), 500, 300, 100, 3600, 0, CONTRACT).unwrap();
    assert_eq!(id, 1);
    // Sponsor pays 900 into the contract.
    assert_eq!(escrow, TokenTransfer { token: TOKEN, from: SPONSOR, to: CONTRACT, amount: 900 });
    let bounty = c.get_bounty(id).unwrap();
    assert_eq!(bounty.status, BountyStatus::Open);
    assert_eq!(bounty.winner_count, 0);
    assert_eq!(bounty.total_reward(), 900);
    assert_eq!(c.get_bounty_count(), 1);
}

#[test]
fn test_first_solver_gets_top_reward() {
    let mut c = setup();
    let correct = make_hash(7);
    let (id, _) = c.create_bounty(SPONSOR, TOKEN, 1, correct, 500, 300, 100, 3600, 0, CONTRACT).unwrap();
    let (rank, paid) = c.claim_bounty(S1, id, correct, 10, CONTRACT).unwrap();
    assert_eq!(rank, 1);
    assert_eq!(paid, payout(S1, 500));
    let bounty = c.get_bounty(id).unwrap();
    assert_eq!(bounty.winner_count, 1);
    assert_eq!(bounty.status, BountyStatus::Open);
}

#[test]
fn test_multi_winner_top3_distribution() {
    let mut c = setup();
    let hash = make_hash(99);
    let (id, _) = c.create_bounty(SPONSOR, TOKEN, 2, hash, 500, 300, 100, 3600, 0, CONTRACT).unwrap();
    let (r1, p1) = c.claim_bounty(S1, id, hash, 1, CONTRACT).unwrap();
    let (r2, p2) = c.claim_bounty(S2, id, hash, 2, CONTRACT).unwrap();
    let (r3, p3) = c.claim_bounty(S3, id, hash, 3, CONTRACT).unwrap();
    assert_eq!((r1, r2, r3), (1, 2, 3));
    assert_eq!(p1, payout(S1, 500));
    assert_eq!(p2, payout(S2, 300));
    assert_eq!(p3, payout(S3, 100));
    assert_eq!(c.get_bounty(id).unwrap().status, BountyStatus::Completed);
    let lb = c.get_leaderboard(id);
    assert_eq!(lb.len(), 3);
    assert_eq!(lb[0].rank, 1);
    assert_eq!(lb[1].rank, 2);
    assert_eq!(lb[2].rank, 3);
    assert_eq!(c.claim_bounty(7, id, hash, 4, CONTRACT), Err(BountyError::BountyNotOpen));
}

#[test]
fn test_refund_expired_unclaimed() {
    let mut c = setup();
    let hash = make_hash(1);
    let (id, escrow) = c.create_bounty(SPONSOR, TOKEN, 3, hash, 500, 200, 100, 100, 0, CONTRACT).unwrap();
    assert_eq!(escrow.amount, 800);
    let (_, paid) = c.claim_bounty(S1, id, hash, 50, CONTRACT).unwrap();
    assert_eq!(paid, payout(S1, 500));
    assert_eq!(c.refund_expired(id, 100, CONTRACT), Err(BountyError::NotExpiredYet));
    // 2nd + 3rd (300) go back to the sponsor.
    let refund = c.refund_expired(id, 200, CONTRACT).unwrap();
    assert_eq!(refund, Some(payout(SPONSOR, 300)));
    assert_eq!(c.get_bounty(id).unwrap().status, BountyStatus::Expired);
    assert_eq!(c.refund_expired(id, 300, CONTRACT), Err(BountyError::BountyNotOpen));
}

#[test]
fn test_cancel_open_bounty_refunds_sponsor() {
    let mut c = setup();
    let (id, escrow) = c.create_bounty(SPONSOR, TOKEN, 4, make_hash(5), 400, 200, 100, 3600, 0, CONTRACT).unwrap();
    assert_eq!(escrow.amount, 700);
    assert_eq!(c.cancel_bounty(S1, id, CONTRACT), Err(BountyError::NotSponsor));
    // Full 700 returned.
    assert_eq!(c.cancel_bounty(SPONSOR, id, CONTRACT), Ok(payout(SPONSOR, 700)));
    assert_eq!(c.get_bounty(id).unwrap().status, BountyStatus::Cancelled);
}

#[test]
#[should_panic]
fn test_cannot_claim_after_expiry() {
    let mut c = setup();
    let hash = make_hash(11);
    let (id, _) = c.create_bounty(SPONSOR, TOKEN, 5, hash, 500, 0, 0, 100, 0, CONTRACT).unwrap();
    c.claim_bounty(S1, id, hash, 200, CONTRACT).unwrap();
}

#[test]
#[should_panic]
fn test_wrong_solution_rejected() {
    let mut c = setup();
    let (id, _) = c.create_bounty(SPONSOR, TOKEN, 6, make_hash(77), 500, 0, 0, 3600, 0, CONTRACT).unwrap();
    c.claim_bounty(S1, id, make_hash(88), 0, CONTRACT).unwrap();
}

#[test]
#[should_panic]
fn test_cannot_cancel_after_claim() {
    let mut c = setup();
    let hash = make_hash(33);
    let (id, _) = c.create_bounty(SPONSOR, TOKEN, 7, hash, 500, 300, 100, 3600, 0, CONTRACT).unwrap();
    c.claim_bounty(S1, id, hash, 0, CONTRACT).unwrap();
    c.cancel_bounty(SPONSOR, id, CONTRACT).unwrap();
}

#[test]
fn claim_and_cancel_errors() {
    let mut c = setup();
    let hash = make_hash(33);
    let (id, _) = c.create_bounty(SPONSOR, TOKEN, 7, hash, 500, 300, 100, 100, 0, CONTRACT).unwrap();
    assert_eq!(c.claim_bounty(S1, id, hash, 101, CONTRACT), Err(BountyError::BountyExpired));
    assert_eq!(c.claim_bounty(S1, id, make_hash(1), 0, CONTRACT), Err(BountyError::IncorrectSolution));
    c.claim_bounty(S1, id, hash, 0, CONTRACT).unwrap();
    assert_eq!(c.claim_bounty(S1, id, hash, 0, CONTRACT), Err(BountyError::AlreadyClaimed));
    assert_eq!(c.cancel_bounty(SPONSOR, id, CONTRACT), Err(BountyError::WinnersAlreadyClaimed));
    assert_eq!(c.claim_bounty(S1, 9, hash, 0, CONTRACT), Err(BountyError::BountyNotFound));
}

#[test]
fn create_bounty_errors() {
    let mut c = setup();
    let h = make_hash(1);
    assert_eq!(c.create_bounty(SPONSOR, TOKEN, 1, h, 0, 0, 0, 10, 0, CONTRACT), Err(BountyError::FirstRewardNotPositive));
    assert_eq!(c.create_bounty(SPONSOR, TOKEN, 1, h, 5, -1, 0, 10, 0, CONTRACT), Err(BountyError::NegativeReward));
    assert_eq!(c.create_bounty(SPONSOR, TOKEN, 1, h, 5, 6, 0, 10, 0, CONTRACT), Err(BountyError::RewardsNotDescending));
    assert_eq!(c.create_bounty(SPONSOR, TOKEN, 1, h, 5, 4, 3, 0, 0, CONTRACT), Err(BountyError::ZeroDuration));
    assert_eq!(c.get_bounty_count(), 0);
}

#[test]
fn test_leaderboard_tracks_winners() {
    let mut c = setup();
    let hash = make_hash(55);
    let (id, _) = c.create_bounty(SPONSOR, TOKEN, 8, hash, 400, 200, 100, 3600, 0, CONTRACT).unwrap();
    c.claim_bounty(S1, id, hash, 0, CONTRACT).unwrap();
    c.claim_bounty(S2, id, hash, 0, CONTRACT).unwrap();
    let lb = c.get_leaderboard(id);
    assert_eq!(lb.len(), 2);
    assert_eq!(lb[0].solver, S1);
    assert_eq!(lb[0].rank, 1);
    assert_eq!(lb[1].solver, S2);
    assert_eq!(lb[1].rank, 2);
}

#[test]
fn bounties_for_puzzle_paged() {
    let mut c = setup();
    let h = make_hash(1);
    for _ in 0..3 {
        c.create_bounty(SPONSOR, TOKEN, 9, h, 10, 0, 0, 100, 0, CONTRACT).unwrap();
    }
    c.create_bounty(SPONSOR, TOKEN, 8, h, 10, 0, 0, 100, 0, CONTRACT).unwrap();
    c.cancel_bounty(SPONSOR, 2, CONTRACT).unwrap();
    let all = c.get_bounties_for_puzzle(9, 0, 10);
    assert_eq!(all.iter().map(|b| b.id).collect::<Vec<u32>>(), vec![1, 3]);
    let page = c.get_bounties_for_puzzle(9, 1, 1);
    assert_eq!(page.iter().map(|b| b.id).collect::<Vec<u32>>(), vec![3]);
    assert!(c.get_bounties_for_puzzle(9, 2, 5).is_empty());
}
