use puzzle_contracts::player_sponsorship::{
    condition_met, Milestone, MilestoneCondition, PlayerSponsorshipContract, SponsorshipError,
};
use puzzle_contracts::token::TokenTransfer;

const ADMIN: u64 = 1;
const PROOF: u64 = 2;
const LEADERBOARD: u64 = 3;
const SPONSOR: u64 = 4;
const PLAYER: u64 = 5;
const TOKEN: u64 = 50;
const CONTRACT: u64 = 90;

fn setup() -> PlayerSponsorshipContract {
    PlayerSponsorshipContract::initialize(ADMIN, PROOF, LEADERBOARD)
}

fn ms(cond: MilestoneCondition, reward: i128) -> Milestone {
    Milestone { condition: cond, reward_amount: reward, claimed: false }
}

#[test]
fn test_create_deal_escrows_full_amount() {
    let mut c = setup();
    let milestones = vec![ms(MilestoneCondition::PuzzlesSolved(1), 400), ms(MilestoneCondition::PuzzlesSolved(2), 600)];
    let (deal_id, escrow) = c.create_deal(SPONSOR, PLAYER, TOKEN, milestones, 1_000, CONTRACT).unwrap();
    assert_eq!(deal_id, 1);
    assert_eq!(escrow, TokenTransfer { token: TOKEN, from: SPONSOR, to: CONTRACT, amount: 1_000 });
    let deal = c.get_deal(deal_id).unwrap();
    assert_eq!(deal.sponsor, SPONSOR);
    assert_eq!(deal.player, PLAYER);
    assert_eq!(deal.total_amount, 1_000);
    assert_eq!(deal.released, 0);
    assert_eq!(deal.milestones.len(), 2);
    assert_eq!(c.list_player_deals(PLAYER), vec![1]);
}

#[test]
fn test_valid_milestone_claim_releases_payment() {
    let mut c = setup();
    let (deal_id, _) = c.create_deal(SPONSOR, PLAYER, TOKEN, vec![ms(MilestoneCondition::PuzzlesSolved(3), 1_000)], 1_000, CONTRACT).unwrap();
    // The activity contract reports 3 solved puzzles.
    let paid = c.claim_milestone(PLAYER, deal_id, 0, 3, CONTRACT).unwrap();
    assert_eq!(paid, TokenTransfer { token: TOKEN, from: CONTRACT, to: PLAYER, amount: 1_000 });
    let deal = c.get_deal(deal_id).unwrap();
    assert_eq!(deal.released, 1_000);
    assert!(deal.milestones[0].claimed);
    // Fully released deals are no longer listed.
    assert!(c.list_player_deals(PLAYER).is_empty());
}

#[test]
#[should_panic]
fn test_invalid_claim_condition_unmet() {
    let mut c = setup();
    let (deal_id, _) = c.create_deal(SPONSOR, PLAYER, TOKEN, vec![ms(MilestoneCondition::PuzzlesSolved(10), 500)], 500, CONTRACT).unwrap();
    // Only 2 puzzles solved.
    c.claim_milestone(PLAYER, deal_id, 0, 2, CONTRACT).unwrap();
}

#[test]
fn test_sponsor_cancel_reclaims_unclaimed() {
    let mut c = setup();
    let milestones = vec![ms(MilestoneCondition::PuzzlesSolved(1), 400), ms(MilestoneCondition::PuzzlesSolved(2), 600)];
    let (deal_id, _) = c.create_deal(SPONSOR, PLAYER, TOKEN, milestones, 1_000, CONTRACT).unwrap();
    assert_eq!(c.claim_milestone(PLAYER, deal_id, 0, 1, CONTRACT).unwrap().amount, 400);
    let refund = c.cancel_deal(SPONSOR, deal_id, CONTRACT).unwrap();
    assert_eq!(refund, Some(TokenTransfer { token: TOKEN, from: CONTRACT, to: SPONSOR, amount: 600 }));
    assert!(c.get_deal(deal_id).unwrap().cancelled);
    assert_eq!(c.cancel_deal(SPONSOR, deal_id, CONTRACT), Err(SponsorshipError::DealAlreadyCancelled));
    assert_eq!(c.claim_milestone(PLAYER, deal_id, 1, 5, CONTRACT), Err(SponsorshipError::DealCancelled));
}

#[test]
fn create_deal_errors() {
    let mut c = setup();
    let good = ms(MilestoneCondition::PuzzlesSolved(1), 10);
    assert_eq!(c.create_deal(SPONSOR, PLAYER, TOKEN, vec![good], 0, CONTRACT), Err(SponsorshipError::TotalNotPositive));
    assert_eq!(c.create_deal(SPONSOR, PLAYER, TOKEN, vec![], 10, CONTRACT), Err(SponsorshipError::NoMilestones));
    assert_eq!(c.create_deal(SPONSOR, PLAYER, TOKEN, vec![good, ms(MilestoneCondition::RankAtMost(1), 0)], 10, CONTRACT),
        Err(SponsorshipError::MilestoneRewardNotPositive));
    let pre = Milestone { claimed: true, ..good };
    assert_eq!(c.create_deal(SPONSOR, PLAYER, TOKEN, vec![pre], 10, CONTRACT), Err(SponsorshipError::MilestonePreClaimed));
    assert_eq!(c.create_deal(SPONSOR, PLAYER, TOKEN, vec![good], 11, CONTRACT), Err(SponsorshipError::RewardsDoNotSumToTotal));
    assert!(c.get_deal(1).is_none());
}

#[test]
fn claim_errors_and_rank_condition() {
    let mut c = setup();
    let (id, _) = c.create_deal(SPONSOR, PLAYER, TOKEN, vec![ms(MilestoneCondition::RankAtMost(3), 10)], 10, CONTRACT).unwrap();
    assert_eq!(c.claim_milestone(SPONSOR, id, 0, 1, CONTRACT), Err(SponsorshipError::NotPlayer));
    assert_eq!(c.claim_milestone(PLAYER, id, 1, 1, CONTRACT), Err(SponsorshipError::InvalidMilestoneIndex));
    // Rank 0 means unranked.
    assert_eq!(c.claim_milestone(PLAYER, id, 0, 0, CONTRACT), Err(SponsorshipError::ConditionNotMet));
    assert_eq!(c.claim_milestone(PLAYER, id, 0, 4, CONTRACT), Err(SponsorshipError::ConditionNotMet));
    c.claim_milestone(PLAYER, id, 0, 3, CONTRACT).unwrap();
    assert_eq!(c.claim_milestone(PLAYER, id, 0, 3, CONTRACT), Err(SponsorshipError::MilestoneAlreadyClaimed));
    assert_eq!(c.claim_milestone(PLAYER, 9, 0, 3, CONTRACT), Err(SponsorshipError::DealNotFound));
    assert_eq!(c.cancel_deal(PLAYER, id, CONTRACT), Err(SponsorshipError::NotSponsor));
    assert_eq!(c.cancel_deal(SPONSOR, id, CONTRACT), Ok(None));
}

#[test]
fn conditions() {
    assert!(condition_met(&MilestoneCondition::PuzzlesSolved(2), 2));
    assert!(!condition_met(&MilestoneCondition::PuzzlesSolved(2), 1));
    assert!(condition_met(&MilestoneCondition::RankAtMost(5), 5));
    assert!(!condition_met(&MilestoneCondition::RankAtMost(5), 0));
}
