use puzzle_contracts::battle_pass::{BattlePassContract, BattlePassError, PassTier};

const P1: u64 = 1;
const P2: u64 = 2;

fn setup() -> BattlePassContract {
    let mut c = BattlePassContract::new();
    c.init_season(1, 50_000_000, 0).unwrap();
    c
}

#[test]
fn season_cannot_be_started_again() {
    let mut c = BattlePassContract::new();
    assert_eq!(c.get_current_season(), 1);
    c.init_season(1, 50_000_000, 0).unwrap();
    assert_eq!(c.init_season(1, 50_000_000, 0), Err(BattlePassError::SeasonNumberNotGreater));
    assert_eq!(c.get_season_info(1).unwrap().end_time, 2_592_000);
}

#[test]
fn purchase_free_and_premium() {
    let mut c = setup();
    c.purchase_pass(P1, PassTier::Free, 0).unwrap();
    let pass = c.get_player_pass(P1).unwrap();
    assert_eq!(pass.owner, P1);
    assert_eq!(pass.current_level, 0);
    assert_eq!(pass.season, 1);
    c.purchase_pass(P2, PassTier::Premium, 0).unwrap();
    assert!(matches!(c.get_player_pass(P2).unwrap().tier, PassTier::Premium));
    assert_eq!(c.get_season_info(1).unwrap().total_players, 2);
}

#[test]
fn cannot_purchase_twice() {
    let mut c = setup();
    c.purchase_pass(P1, PassTier::Free, 0).unwrap();
    assert_eq!(c.purchase_pass(P1, PassTier::Premium, 0), Err(BattlePassError::AlreadyOwnsPass));
}

#[test]
fn add_xp_and_level_up() {
    let mut c = setup();
    c.purchase_pass(P1, PassTier::Free, 0).unwrap();
    c.add_xp(P1, 1000, 0).unwrap();
    assert_eq!(c.get_player_xp(P1), 1000);
    assert_eq!(c.get_player_pass(P1).unwrap().current_level, 1);
}

#[test]
fn xp_with_bonus_event() {
    let mut c = setup();
    c.purchase_pass(P1, PassTier::Free, 0).unwrap();
    c.set_bonus_xp_event(2).unwrap();
    c.add_xp(P1, 500, 0).unwrap();
    assert_eq!(c.get_player_xp(P1), 1000);
    assert_eq!(c.get_bonus_xp_multiplier(), 2);
    assert_eq!(c.set_bonus_xp_event(11), Err(BattlePassError::InvalidMultiplier));
    c.clear_bonus_xp_event();
    assert_eq!(c.get_bonus_xp_multiplier(), 1);
}

#[test]
fn claim_reward_rules() {
    let mut c = setup();
    c.purchase_pass(P1, PassTier::Free, 0).unwrap();
    c.add_xp(P1, 5000, 0).unwrap();
    assert_eq!(c.claim_reward(P1, 3).unwrap(), 300);
    assert_eq!(c.claim_reward(P1, 3), Err(BattlePassError::AlreadyClaimed));
    assert_eq!(c.claim_reward(P1, 6), Err(BattlePassError::LevelNotUnlocked));
    c.add_xp(P1, 55000, 0).unwrap();
    assert_eq!(c.claim_reward(P1, 55), Err(BattlePassError::PremiumOnly));
}

#[test]
fn retroactive_claim() {
    let mut c = setup();
    c.purchase_pass(P1, PassTier::Premium, 0).unwrap();
    c.add_xp(P1, 30000, 0).unwrap();
    let total = c.claim_retroactive_rewards(P1).unwrap();
    let expected: u128 = (1..=30u32).map(BattlePassContract::calculate_reward).sum();
    assert_eq!(total, expected);
    assert_eq!(c.claim_retroactive_rewards(P1).unwrap(), 0);
}

#[test]
fn transfer_pass_moves_level_and_xp() {
    let mut c = setup();
    c.purchase_pass(P1, PassTier::Free, 0).unwrap();
    c.add_xp(P1, 5000, 0).unwrap();
    c.transfer_pass(P1, P2).unwrap();
    assert!(c.get_player_pass(P1).is_none());
    let pass2 = c.get_player_pass(P2).unwrap();
    assert_eq!(pass2.owner, P2);
    assert_eq!(pass2.current_level, 5);
    assert_eq!(c.get_player_xp(P2), 5000);
}

#[test]
fn cannot_transfer_to_existing_owner() {
    let mut c = setup();
    c.purchase_pass(P1, PassTier::Free, 0).unwrap();
    c.purchase_pass(P2, PassTier::Free, 0).unwrap();
    assert_eq!(c.transfer_pass(P1, P2), Err(BattlePassError::RecipientOwnsPass));
}

#[test]
fn deactivated_or_expired_season_refuses_play() {
    let mut c = setup();
    c.purchase_pass(P1, PassTier::Free, 0).unwrap();
    assert_eq!(c.add_xp(P1, 10, 2_592_001), Err(BattlePassError::SeasonExpired));
    c.deactivate_season(1).unwrap();
    assert_eq!(c.add_xp(P1, 10, 0), Err(BattlePassError::SeasonNotActive));
}

#[test]
fn season_history() {
    let mut c = setup();
    c.purchase_pass(P1, PassTier::Premium, 0).unwrap();
    c.add_xp(P1, 30000, 0).unwrap();
    c.archive_season(P1).unwrap();
    let history = c.get_season_history(P1);
    assert_eq!(history.len(), 1);
    assert_eq!(history[0].season, 1);
    assert_eq!(history[0].final_level, 30);
    assert_eq!(history[0].total_xp, 30000);
    c.init_season(2, 75_000_000, 0).unwrap();
    c.purchase_pass(P1, PassTier::Premium, 0).unwrap();
    assert_eq!(c.get_current_season(), 2);
    assert_eq!(c.get_season_history(P1).len(), 1);
}

#[test]
fn progressive_rewards() {
    let mut c = setup();
    c.purchase_pass(P1, PassTier::Premium, 0).unwrap();
    c.add_xp(P1, 50000, 0).unwrap();
    let r5 = c.claim_reward(P1, 5).unwrap();
    let r10 = c.claim_reward(P1, 10).unwrap();
    let r20 = c.claim_reward(P1, 20).unwrap();
    let r50 = c.claim_reward(P1, 50).unwrap();
    assert!(r10 > r5);
    assert!(r20 > r10);
    assert!(r50 > r20);
    assert_eq!(BattlePassContract::calculate_reward(100), 110000);
    assert_eq!(BattlePassContract::calculate_reward(5), 500);
    assert_eq!(BattlePassContract::calculate_reward(10), 2000);
}

#[test]
fn max_level_cap() {
    let mut c = setup();
    c.purchase_pass(P1, PassTier::Free, 0).unwrap();
    c.add_xp(P1, 200000, 0).unwrap();
    assert_eq!(c.get_player_pass(P1).unwrap().current_level, 100);
    assert_eq!(c.get_player_xp(P1), 100000);
}

fn fresh() -> BattlePassContract {
    BattlePassContract::new()
}

#[test]
fn test_init_season() {
    let mut c = fresh();
    c.init_season(1, 50_000_000u128, 0).unwrap();
    assert_eq!(c.get_current_season(), 1);
}

#[test]
fn test_purchase_free_pass() {
    let mut c = fresh();
    c.init_season(1, 50_000_000u128, 0).unwrap();
    c.purchase_pass(P1, PassTier::Free, 0).unwrap();
    let pass = c.get_player_pass(P1);
    assert!(pass.is_some());
    let pass = pass.unwrap();
    assert_eq!(pass.owner, P1);
    assert_eq!(pass.current_level, 0);
    assert_eq!(pass.season, 1);
}

#[test]
fn test_purchase_premium_pass() {
    let mut c = fresh();
    c.init_season(1, 50_000_000u128, 0).unwrap();
    c.purchase_pass(P1, PassTier::Premium, 0).unwrap();
    let pass = c.get_player_pass(P1);
    assert!(pass.is_some());
    assert!(matches!(pass.unwrap().tier, PassTier::Premium));
}

#[test]
#[should_panic]
fn test_cannot_purchase_twice() {
    let mut c = fresh();
    c.init_season(1, 50_000_000u128, 0).unwrap();
    c.purchase_pass(P1, PassTier::Free, 0).unwrap();
    c.purchase_pass(P1, PassTier::Premium, 0).unwrap();
}

#[test]
fn test_add_xp_and_level_up() {
    let mut c = fresh();
    c.init_season(1, 50_000_000u128, 0).unwrap();
    c.purchase_pass(P1, PassTier::Free, 0).unwrap();
    c.add_xp(P1, 1000, 0).unwrap();
    assert_eq!(c.get_player_xp(P1), 1000);
    assert_eq!(c.get_player_pass(P1).unwrap().current_level, 1);
}

#[test]
fn test_xp_with_bonus_event() {
    let mut c = fresh();
    c.init_season(1, 50_000_000u128, 0).unwrap();
    c.purchase_pass(P1, PassTier::Free, 0).unwrap();
    c.set_bonus_xp_event(2).unwrap();
    // 500 becomes 1000 with the 2x multiplier.
    c.add_xp(P1, 500, 0).unwrap();
    assert_eq!(c.get_player_xp(P1), 1000);
    assert_eq!(c.get_bonus_xp_multiplier(), 2);
}

#[test]
fn test_claim_reward() {
    let mut c = fresh();
    c.init_season(1, 50_000_000u128, 0).unwrap();
    c.purchase_pass(P1, PassTier::Free, 0).unwrap();
    c.add_xp(P1, 5000, 0).unwrap();
    let reward = c.claim_reward(P1, 3).unwrap();
    assert!(reward > 0);
}

#[test]
#[should_panic]
fn test_cannot_claim_unreached_level() {
    let mut c = fresh();
    c.init_season(1, 50_000_000u128, 0).unwrap();
    c.purchase_pass(P1, PassTier::Free, 0).unwrap();
    c.add_xp(P1, 2000, 0).unwrap();
    c.claim_reward(P1, 5).unwrap();
}

#[test]
#[should_panic]
fn test_free_tier_cannot_claim_premium_rewards() {
    let mut c = fresh();
    c.init_season(1, 50_000_000u128, 0).unwrap();
    c.purchase_pass(P1, PassTier::Free, 0).unwrap();
    c.add_xp(P1, 60000, 0).unwrap();
    c.claim_reward(P1, 55).unwrap();
}

#[test]
fn test_retroactive_claim() {
    let mut c = fresh();
    c.init_season(1, 50_000_000u128, 0).unwrap();
    c.purchase_pass(P1, PassTier::Free, 0).unwrap();
    c.add_xp(P1, 30000, 0).unwrap();
    let mut c2 = fresh();
    c2.init_season(1, 50_000_000u128, 0).unwrap();
    c2.purchase_pass(P1, PassTier::Premium, 0).unwrap();
    c2.add_xp(P1, 30000, 0).unwrap();
    let total = c2.claim_retroactive_rewards(P1).unwrap();
    assert!(total > 0);
}

#[test]
fn test_transfer_pass() {
    let mut c = fresh();
    c.init_season(1, 50_000_000u128, 0).unwrap();
    c.purchase_pass(P1, PassTier::Free, 0).unwrap();
    c.add_xp(P1, 5000, 0).unwrap();
    c.transfer_pass(P1, P2).unwrap();
    assert!(c.get_player_pass(P1).is_none());
    let pass2 = c.get_player_pass(P2);
    assert!(pass2.is_some());
    let pass2 = pass2.unwrap();
    assert_eq!(pass2.owner, P2);
    assert_eq!(pass2.current_level, 5);
    assert_eq!(c.get_player_xp(P2), 5000);
}

#[test]
#[should_panic]
fn test_cannot_transfer_to_existing_owner() {
    let mut c = fresh();
    c.init_season(1, 50_000_000u128, 0).unwrap();
    c.purchase_pass(P1, PassTier::Free, 0).unwrap();
    c.purchase_pass(P2, PassTier::Free, 0).unwrap();
    c.transfer_pass(P1, P2).unwrap();
}

#[test]
fn test_season_expiration() {
    let mut c = fresh();
    c.init_season(1, 50_000_000u128, 0).unwrap();
    c.purchase_pass(P1, PassTier::Free, 0).unwrap();
    c.deactivate_season(1).unwrap();
    assert!(!c.get_season_info(1).unwrap().is_active);
}

#[test]
fn test_season_history() {
    let mut c = fresh();
    c.init_season(1, 50_000_000u128, 0).unwrap();
    c.purchase_pass(P1, PassTier::Premium, 0).unwrap();
    c.add_xp(P1, 30000, 0).unwrap();
    c.archive_season(P1).unwrap();
    let history = c.get_season_history(P1);
    assert_eq!(history.len(), 1);
    let record = history[0];
    assert_eq!(record.season, 1);
    assert_eq!(record.final_level, 30);
    assert_eq!(record.total_xp, 30000);
}

#[test]
fn test_multiple_seasons() {
    let mut c = fresh();
    c.init_season(1, 50_000_000u128, 0).unwrap();
    c.purchase_pass(P1, PassTier::Free, 0).unwrap();
    c.add_xp(P1, 10000, 0).unwrap();
    c.archive_season(P1).unwrap();
    c.init_season(2, 75_000_000u128, 0).unwrap();
    c.purchase_pass(P1, PassTier::Premium, 0).unwrap();
    c.add_xp(P1, 20000, 0).unwrap();
    assert_eq!(c.get_current_season(), 2);
    // Only archived seasons show.
    assert_eq!(c.get_season_history(P1).len(), 1);
}

#[test]
fn test_progressive_rewards() {
    let mut c = fresh();
    c.init_season(1, 50_000_000u128, 0).unwrap();
    c.purchase_pass(P1, PassTier::Premium, 0).unwrap();
    c.add_xp(P1, 50000, 0).unwrap();
    let reward_5 = c.claim_reward(P1, 5).unwrap();
    let reward_10 = c.claim_reward(P1, 10).unwrap();
    let reward_20 = c.claim_reward(P1, 20).unwrap();
    let reward_50 = c.claim_reward(P1, 50).unwrap();
    assert!(reward_10 > reward_5);
    assert!(reward_20 > reward_10);
    assert!(reward_50 > reward_20);
}

#[test]
fn test_cannot_claim_same_reward_twice() {
    let mut c = fresh();
    c.init_season(1, 50_000_000u128, 0).unwrap();
    c.purchase_pass(P1, PassTier::Free, 0).unwrap();
    c.add_xp(P1, 5000, 0).unwrap();
    c.claim_reward(P1, 3).unwrap();
    assert_eq!(c.claim_reward(P1, 3), Err(BattlePassError::AlreadyClaimed));
}

#[test]
fn test_max_level_cap() {
    let mut c = fresh();
    c.init_season(1, 50_000_000u128, 0).unwrap();
    c.purchase_pass(P1, PassTier::Free, 0).unwrap();
    c.add_xp(P1, 200000, 0).unwrap();
    assert!(c.get_player_pass(P1).unwrap().current_level <= 100);
}
