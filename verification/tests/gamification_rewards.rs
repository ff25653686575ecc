use puzzle_contracts::gamification_rewards::{BoostType, GameError, GamificationRewardsContract, StreakData, BASE_MULTIPLIER, DAY_IN_LEDGERS};

const ADMIN: u64 = 1;
const PLAYER: u64 = 2;

fn setup() -> GamificationRewardsContract {
    GamificationRewardsContract::initialize(ADMIN)
}

#[test]
fn lib_test_initialize_rewards() {
    let c = setup();
    let config = c.get_config();
    assert_eq!(config.admin, ADMIN);
    assert!(!config.paused);
}

#[test]
fn test_combo_chain_stacks() {
    let mut c = setup();
    assert_eq!(c.record_combo_action(PLAYER, 0).unwrap(), 102);
    assert_eq!(c.record_combo_action(PLAYER, 0).unwrap(), 104);
    let combo = c.get_combo_data(PLAYER);
    assert_eq!(combo.current_combo, 2);
    assert_eq!(combo.best_combo, 2);
}

#[test]
fn test_milestone_unlocks_permanent_bonus() {
    let mut c = setup();
    c.set_milestone_threshold(ADMIN, 1, 5).unwrap();
    for _ in 0..5 {
        c.record_milestone_action(PLAYER).unwrap();
    }
    let m = c.get_milestone_progress(PLAYER);
    assert_eq!(m.total_actions, 5);
    assert_eq!(m.milestones_unlocked, 1);
    assert_eq!(m.permanent_bonus, 5);
}

#[test]
fn test_boost_item_activation() {
    let mut c = setup();
    c.activate_boost(PLAYER, BoostType::SpeedBoost, 10, 0).unwrap();
    let boosts = c.get_active_boosts(PLAYER, 0);
    assert_eq!(boosts.len(), 1);
    assert_eq!(boosts[0].boost_type, BoostType::SpeedBoost);
    assert_eq!(boosts[0].multiplier_bonus, 50);
    assert_eq!(c.get_active_boosts(PLAYER, 11).len(), 0);
}

#[test]
fn test_multiplier_calculation() {
    let mut c = setup();
    c.record_daily_action(PLAYER, 0).unwrap();
    c.record_combo_action(PLAYER, 0).unwrap();
    let state = c.get_total_multiplier(PLAYER, 0);
    assert!(state.total_multiplier >= BASE_MULTIPLIER);
    assert_eq!(state.base_multiplier, BASE_MULTIPLIER);
}

#[test]
fn test_reward_calculation() {
    let mut c = setup();
    let reward1 = c.calculate_reward(PLAYER, 1000, 0);
    assert_eq!(reward1, 1000);
    for _ in 0..5 {
        c.record_combo_action(PLAYER, 0).unwrap();
    }
    let reward2 = c.calculate_reward(PLAYER, 1000, 0);
    assert!(reward2 > reward1);
    // Five combo points: 100 + 10 = 110.
    assert_eq!(reward2, 1100);
    // Two rewards and five combo actions each applied the multiplier.
    assert_eq!(c.get_global_stats().total_multipliers_applied, 7);
}

#[test]
fn test_leaderboard_updates() {
    let mut c = setup();
    c.record_daily_action(PLAYER, 0).unwrap();
    for _ in 0..10 {
        c.record_combo_action(PLAYER, 0).unwrap();
    }
    c.update_leaderboard(PLAYER, 0).unwrap();
    let board = c.get_leaderboard(10);
    assert_eq!(board.len(), 1);
    assert_eq!(board[0].player, PLAYER);
    assert_eq!(c.get_player_rank(PLAYER), 1);
}

#[test]
fn test_leaderboard_sorted_and_replaces_entry() {
    let mut c = setup();
    c.update_leaderboard(3, 0).unwrap();
    for _ in 0..20 {
        c.record_combo_action(PLAYER, 0).unwrap();
    }
    c.update_leaderboard(PLAYER, 0).unwrap();
    c.update_leaderboard(PLAYER, 0).unwrap();
    let board = c.get_leaderboard(10);
    assert_eq!(board.len(), 2);
    assert_eq!(board[0].player, PLAYER);
    assert_eq!(board[0].total_multiplier, 140);
    assert_eq!(board[1].player, 3);
    assert_eq!(c.get_player_rank(3), 2);
    assert_eq!(c.get_player_rank(99), 0);
}

#[test]
fn test_combo_decay() {
    let mut c = setup();
    for _ in 0..10 {
        c.record_combo_action(PLAYER, 0).unwrap();
    }
    assert_eq!(c.get_combo_data(PLAYER).current_combo, 10);
    c.record_combo_action(PLAYER, DAY_IN_LEDGERS + 5).unwrap();
    let combo2 = c.get_combo_data(PLAYER);
    assert!(combo2.current_combo < 10);
    assert_eq!(combo2.current_combo, 6);
    assert_eq!(combo2.best_combo, 10);
}

#[test]
fn test_daily_streak_new_day_and_break() {
    let mut c = setup();
    assert_eq!(c.record_daily_action(PLAYER, 0).unwrap(), 110);
    assert_eq!(c.get_streak_data(PLAYER).daily_streak, 1);
    // Within the same day nothing changes.
    assert_eq!(c.record_daily_action(PLAYER, DAY_IN_LEDGERS - 1).unwrap(), 110);
    assert_eq!(c.get_streak_data(PLAYER).daily_streak, 1);
    assert_eq!(c.record_daily_action(PLAYER, DAY_IN_LEDGERS).unwrap(), 120);
    assert_eq!(c.get_streak_data(PLAYER).daily_streak, 2);
    assert_eq!(c.record_daily_action(PLAYER, 2 * DAY_IN_LEDGERS).unwrap(), 130);
    assert_eq!(c.get_streak_data(PLAYER).daily_streak, 3);
    // A gap of more than two days restarts the streak, and a week after the
    // start the weekly streak begins: 100 + 10 + 10.
    assert_eq!(c.record_daily_action(PLAYER, 10 * DAY_IN_LEDGERS).unwrap(), 120);
    assert_eq!(c.get_streak_data(PLAYER).daily_streak, 1);
    assert_eq!(c.get_streak_data(PLAYER).weekly_streak, 1);
    assert_eq!(c.get_streak_data(PLAYER).best_daily_streak, 3);
}

#[test]
fn test_pure_multipliers() {
    let s = StreakData { daily_streak: 40, weekly_streak: 20, last_daily_claim: 0, last_weekly_claim: 0, best_daily_streak: 0, best_weekly_streak: 0 };
    assert_eq!(GamificationRewardsContract::calculate_streak_multiplier(&s), 370);
    assert_eq!(GamificationRewardsContract::calculate_combo_multiplier(150), 300);
    assert_eq!(GamificationRewardsContract::calculate_milestone_multiplier(15), 115);
    assert_eq!(GamificationRewardsContract::apply_stacking_rules(110, 120, 100, 100), 130);
    assert_eq!(GamificationRewardsContract::apply_stacking_rules(200, 200, 200, 200), 500);
    assert_eq!(GamificationRewardsContract::apply_stacking_rules(200, 200, 200, 199), 499);
    assert_eq!(GamificationRewardsContract::apply_stacking_rules(900, 900, 900, 900), 500);
}

#[test]
fn test_pause_and_admin_checks() {
    let mut c = setup();
    assert_eq!(c.set_paused(5, true), Err(GameError::AdminOnly));
    c.set_paused(ADMIN, true).unwrap();
    assert_eq!(c.record_combo_action(PLAYER, 0), Err(GameError::Paused));
    assert_eq!(c.get_combo_data(PLAYER).current_combo, 0);
}

#[test]
fn test_history_newest_first() {
    let mut c = setup();
    c.get_total_multiplier(PLAYER, 1);
    c.record_combo_action(PLAYER, 1).unwrap();
    c.get_total_multiplier(PLAYER, 2);
    let h = c.get_multiplier_history(PLAYER, 10);
    // The combo action applied the multiplier too.
    assert_eq!(h.len(), 3);
    assert_eq!(h[0].ledger, 2);
    assert_eq!(h[0].multiplier, 102);
    assert_eq!(h[1].ledger, 1);
    assert_eq!(h[1].multiplier, 102);
    assert_eq!(h[2].multiplier, 100);
    assert_eq!(c.get_multiplier_history(PLAYER, 1).len(), 1);
}

#[test]
fn test_daily_streak_increases() {
    let mut c = setup();
    let mult1 = c.record_daily_action(PLAYER, 0).unwrap();
    assert_eq!(mult1, 110);
    let mult2 = c.record_daily_action(PLAYER, DAY_IN_LEDGERS).unwrap();
    assert!(mult2 > mult1);
    let streak = c.get_streak_data(PLAYER);
    assert_eq!(streak.daily_streak, 2);
}

#[test]
fn test_multiplier_history_tracking() {
    let mut c = setup();
    let mut ledger: u32 = 0;
    for i in 0..5 {
        c.record_daily_action(PLAYER, ledger).unwrap();
        c.record_combo_action(PLAYER, ledger).unwrap();
        if i < 4 {
            ledger += DAY_IN_LEDGERS;
        }
    }
    let history = c.get_multiplier_history(PLAYER, 10);
    assert!(history.len() > 0);
    assert!(history.len() <= 10);
}

#[test]
fn test_global_stats_tracking() {
    let mut c = setup();
    for _ in 0..50 {
        c.record_combo_action(PLAYER, 0).unwrap();
    }
    let stats = c.get_global_stats();
    assert!(stats.highest_combo >= 50);
    assert!(stats.total_multipliers_applied > 0);
}
