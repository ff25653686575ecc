use puzzle_contracts::anti_bot::{
    ActivityType, AntiBot, AntiBotError, AppealStatus, CaptchaProof, PenaltyType, PlayerStatus,
    Recommendation, RequiredAction, RiskFactor,
};

const ADMIN: u64 = 1;
const PLAYER: u64 = 2;
const T0: u64 = 1000;

fn setup() -> AntiBot {
    AntiBot::initialize(ADMIN)
}

fn proof_bytes(challenge_id: u32, nonce: u64) -> Vec<u8> {
    let mut v: Vec<u8> = challenge_id.to_le_bytes().to_vec();
    v.extend_from_slice(&nonce.to_le_bytes());
    v
}

fn digest(env: &soroban_sdk::Env, data: &[u8]) -> [u8; 32] {
    env.crypto().sha256(&soroban_sdk::Bytes::from_slice(env, data)).to_array()
}

fn prefix(d: &[u8; 32]) -> u16 {
    ((d[0] as u16) << 8) | d[1] as u16
}

#[test]
fn anti_bot_initialize() {
    let c = setup();
    let config = c.get_config().unwrap();
    assert_eq!(config.admin, ADMIN);
    assert_eq!(config.max_attempts_per_window, 10);
    assert_eq!(config.rate_limit_window_seconds, 300);
    assert!(config.verifiers.is_empty());
}

#[test]
fn profile_created_on_first_read() {
    let mut c = setup();
    assert!(c.get_profile(PLAYER).is_none());
    assert_eq!(c.get_trust_score(PLAYER, T0), 500);
    let profile = c.get_profile(PLAYER).unwrap();
    assert_eq!(profile.address, PLAYER);
    assert_eq!(profile.status, PlayerStatus::Unverified.code());
    assert_eq!(profile.trust_score, 500);
    assert_eq!(profile.total_attempts, 0);
    assert_eq!(profile.first_seen, T0);
}

#[test]
fn test_profile_trust_score_updates() {
    let mut c = setup();
    c.record_activity(PLAYER, 1, 10000, 500, true, T0).unwrap();
    let profile = c.get_profile(PLAYER).unwrap();
    assert_eq!(profile.successful_attempts, 1);
    assert!(profile.trust_score >= 500);
}

#[test]
fn test_generate_captcha_challenge() {
    let env = soroban_sdk::Env::default();
    let mut c = setup();
    let challenge = c.generate_captcha_challenge(&env, PLAYER, T0).unwrap();
    assert_eq!(challenge.challenge_id, 1);
    assert_eq!(challenge.difficulty, 2);
    assert_eq!(challenge.min_iterations, 500);
    assert_eq!(challenge.expires_at, T0 + 300);
    // The target is the start of the hash of the time's low four bytes.
    let d = digest(&env, &T0.to_le_bytes()[..4]);
    assert_eq!(challenge.target_prefix, [d[0], d[1], d[2], d[3]]);
    assert_eq!(c.generate_captcha_challenge(&env, PLAYER, T0).unwrap().challenge_id, 2);
}

#[test]
fn test_verify_captcha_proof() {
    let env = soroban_sdk::Env::default();
    let mut c = setup();
    let mut config = c.get_config().unwrap();
    config.captcha_difficulty = 1;
    c.update_config(config).unwrap();
    let challenge = c.generate_captcha_challenge(&env, PLAYER, T0).unwrap();
    assert_eq!(challenge.min_iterations, 100);
    // Find a nonce whose digest starts under 0x4000.
    let (nonce, hash) = (0u64..100_000)
        .map(|n| (n, digest(&env, &proof_bytes(challenge.challenge_id, n))))
        .find(|(_, h)| prefix(h) < 0x4000)
        .unwrap();
    let proof = CaptchaProof { challenge_id: challenge.challenge_id, nonce, iterations: 100, proof_hash: hash };
    assert_eq!(c.verify_captcha_proof(&env, PLAYER, proof, T0 + 10), Ok(true));
    assert_eq!(c.get_profile(PLAYER).unwrap().status, PlayerStatus::Verified.code());
    // A proof carrying another digest is refused.
    let mut wrong = proof;
    wrong.proof_hash[0] ^= 1;
    assert_eq!(c.verify_captcha_proof(&env, PLAYER, wrong, T0 + 10), Err(AntiBotError::VerificationFailed));
    // Too few iterations are refused.
    let lazy = CaptchaProof { iterations: 99, ..proof };
    assert_eq!(c.verify_captcha_proof(&env, PLAYER, lazy, T0 + 10), Err(AntiBotError::VerificationFailed));
}

#[test]
fn failed_captcha_is_recorded() {
    let env = soroban_sdk::Env::default();
    let mut c = setup();
    let challenge = c.generate_captcha_challenge(&env, PLAYER, T0).unwrap();
    // Find a nonce whose digest does not start under 0x1000.
    let (nonce, hash) = (0u64..100)
        .map(|n| (n, digest(&env, &proof_bytes(challenge.challenge_id, n))))
        .find(|(_, h)| prefix(h) >= 0x1000)
        .unwrap();
    let proof = CaptchaProof { challenge_id: challenge.challenge_id, nonce, iterations: 500, proof_hash: hash };
    assert_eq!(c.verify_captcha_proof(&env, PLAYER, proof, T0), Ok(false));
    let recorded = c.get_suspicious_activities(PLAYER, 0, 10);
    assert_eq!(recorded.len(), 1);
    assert_eq!(recorded[0].activity_type, ActivityType::FailedCaptcha);
    assert_eq!(recorded[0].evidence, "bad_proof");
    assert_eq!(recorded[0].severity, 5);
}

#[test]
fn test_expired_challenge_fails() {
    let env = soroban_sdk::Env::default();
    let mut c = setup();
    let challenge = c.generate_captcha_challenge(&env, PLAYER, T0).unwrap();
    let proof = CaptchaProof { challenge_id: challenge.challenge_id, nonce: 0, iterations: 100, proof_hash: [0; 32] };
    let result = c.verify_captcha_proof(&env, PLAYER, proof, challenge.expires_at + 1);
    assert_eq!(result, Err(AntiBotError::ChallengeExpired));
    let missing = CaptchaProof { challenge_id: 9, ..proof };
    assert_eq!(c.verify_captcha_proof(&env, PLAYER, missing, T0), Err(AntiBotError::ChallengeExpired));
}

#[test]
fn test_rate_limit_enforced() {
    let mut c = setup();
    for _ in 0..10 {
        c.check_rate_limit(PLAYER, T0).unwrap();
    }
    assert_eq!(c.check_rate_limit(PLAYER, T0), Err(AntiBotError::RateLimitExceeded));
    let recorded = c.get_suspicious_activities(PLAYER, 0, 10);
    assert_eq!(recorded.len(), 1);
    assert_eq!(recorded[0].activity_type, ActivityType::RateLimitViolation);
}

#[test]
fn test_rate_limit_window_resets() {
    let mut c = setup();
    for _ in 0..10 {
        c.check_rate_limit(PLAYER, T0).unwrap();
    }
    c.check_rate_limit(PLAYER, T0 + 301).unwrap();
    let status = c.get_rate_limit_status(PLAYER, T0 + 301);
    assert_eq!(status.window_start, T0 + 301);
    assert_eq!(status.attempt_count, 1);
}

#[test]
fn test_get_rate_limit_status() {
    let mut c = setup();
    let status = c.get_rate_limit_status(PLAYER, T0);
    assert_eq!(status.attempt_count, 0);
    assert_eq!(status.window_start, T0);
    c.check_rate_limit(PLAYER, T0).unwrap();
    let status = c.get_rate_limit_status(PLAYER, T0 + 5);
    assert_eq!(status.attempt_count, 1);
    assert_eq!(status.last_attempt, T0);
}

#[test]
fn test_record_activity() {
    let mut c = setup();
    c.record_activity(PLAYER, 1, 10000, 500, true, T0).unwrap();
    let profile = c.get_profile(PLAYER).unwrap();
    assert_eq!(profile.total_attempts, 1);
    assert_eq!(profile.successful_attempts, 1);
    assert_eq!(profile.avg_solve_time_ms, 10000);
    // 500 + 300 for a perfect success rate.
    assert_eq!(profile.trust_score, 800);
    assert_eq!(profile.reputation_tier, 4);
    assert_eq!(profile.status, PlayerStatus::Verified.code());
}

#[test]
fn test_too_fast_solve_detected() {
    let mut c = setup();
    let fast_time = c.get_config().unwrap().min_solve_time_threshold_ms / 2;
    c.record_activity(PLAYER, 1, fast_time, 500, true, T0).unwrap();
    let profile = c.get_profile(PLAYER).unwrap();
    assert_eq!(profile.consecutive_fast_solves, 1);
    // 2 500 ms is fast but not under the suspicious 2 000 ms.
    assert!(c.get_suspicious_activities(PLAYER, 0, 10).is_empty());
    c.record_activity(PLAYER, 1, 1500, 500, true, T0 + 1).unwrap();
    let recorded = c.get_suspicious_activities(PLAYER, 0, 10);
    assert_eq!(recorded.len(), 1);
    assert_eq!(recorded[0].activity_type, ActivityType::TooFastSolve);
    assert_eq!(recorded[0].evidence, "fast_slv");
}

#[test]
fn test_behavioral_pattern_tracking() {
    let mut c = setup();
    for i in 0..5u64 {
        c.record_activity(PLAYER, i as u32, 10000, 500, true, T0 + i * 60).unwrap();
    }
    let pattern = c.get_behavioral_pattern(PLAYER).unwrap();
    assert_eq!(pattern.time_distribution, vec![1000, 1060, 1120, 1180, 1240]);
    assert_eq!(pattern.avg_interaction_interval_ms, 60);
    assert_eq!(pattern.pattern_variance, 0);
    assert_eq!(pattern.consistency_score, 1000);
    assert_eq!(pattern.gas_pattern_variance, 400);
}

#[test]
fn pattern_keeps_last_window_and_measures_variance() {
    let mut c = setup();
    // Intervals alternate 100 s and 3 100 s; the last ten timestamps span
    // nine intervals (five short, four long) averaging 12 900 / 9 = 1 433.
    let mut t = T0;
    for i in 0..12u64 {
        c.record_activity(PLAYER, 1, 10000, 1000, true, t).unwrap();
        t += if i % 2 == 0 { 100 } else { 3100 };
    }
    let pattern = c.get_behavioral_pattern(PLAYER).unwrap();
    assert_eq!(pattern.time_distribution.len(), 10);
    assert_eq!(pattern.avg_interaction_interval_ms, 1433);
    assert_eq!(pattern.time_distribution[0], 4200);
    // The variance is capped at 1 000 000 before scaling to 0..1000.
    assert_eq!(pattern.pattern_variance, 1000);
    assert_eq!(pattern.consistency_score, 0);
    assert_eq!(pattern.gas_pattern_variance, 900);
}

#[test]
fn test_analyze_player() {
    let mut c = setup();
    for i in 0..5u64 {
        c.record_activity(PLAYER, i as u32, 15000, 520 + i, true, T0 + i * 600).unwrap();
    }
    let analysis = c.analyze_player(PLAYER, T0 + 2400).unwrap();
    // Perfectly regular timing: consistent (25) and low variance (20).
    assert_eq!(analysis.bot_probability, 45);
    assert_eq!(analysis.risk_factors, vec![RiskFactor::ConsistentTiming, RiskFactor::LowVariance]);
    assert_eq!(analysis.recommendation, Recommendation::Verify);
    assert_eq!(analysis.trust_score, 700);
}

#[test]
fn test_flag_player() {
    let mut c = setup();
    c.flag_player(PLAYER, "suspct".to_string(), 8, T0).unwrap();
    let profile = c.get_profile(PLAYER).unwrap();
    assert_eq!(profile.status, PlayerStatus::Flagged.code());
    let recorded = c.get_suspicious_activities(PLAYER, 0, 10);
    assert_eq!(recorded[0].evidence, "suspct");
    assert_eq!(recorded[0].activity_type, ActivityType::SuspiciousTiming);
}

#[test]
fn test_unflag_player() {
    let mut c = setup();
    c.flag_player(PLAYER, "suspct".to_string(), 8, T0).unwrap();
    c.unflag_player(PLAYER, T0).unwrap();
    assert_eq!(c.get_profile(PLAYER).unwrap().status, PlayerStatus::Verified.code());
    assert_eq!(c.unflag_player(PLAYER, T0), Err(AntiBotError::Unauthorized));
}

#[test]
fn test_get_suspicious_activities() {
    let mut c = setup();
    for _ in 0..15 {
        let _ = c.check_rate_limit(PLAYER, T0);
    }
    let activities = c.get_suspicious_activities(PLAYER, 0, 10);
    assert_eq!(activities.len(), 5);
    assert_eq!(c.get_suspicious_activities(PLAYER, 3, 10).len(), 2);
    assert_eq!(c.get_suspicious_activities(PLAYER, 7, 10).len(), 0);
    // Five records but none of severity 7 or more: not flagged.
    assert_eq!(c.get_profile(PLAYER).unwrap().status, PlayerStatus::Unverified.code());
}

#[test]
fn test_set_time_window() {
    let mut c = setup();
    c.set_time_window(1, 5000, 60000, 1000, 5000, 1000).unwrap();
    let window = c.get_time_window(1).unwrap();
    assert_eq!(window.puzzle_id, 1);
    assert_eq!(window.min_solve_time_ms, 5000);
    assert_eq!(window.max_solve_time_ms, 60000);
}

#[test]
fn test_validate_submission_time() {
    let mut c = setup();
    c.set_time_window(1, 5000, 60000, 1000, 5000, 1000).unwrap();
    assert_eq!(c.validate_submission_time(PLAYER, 1, 10000, T0), Ok(true));
    assert_eq!(c.validate_submission_time(PLAYER, 1, 70000, T0), Ok(false));
    // The grace period of 1 000 ms extends the window by one second.
    assert_eq!(c.validate_submission_time(PLAYER, 1, 10000, 5001), Ok(true));
    assert_eq!(c.validate_submission_time(PLAYER, 1, 10000, 5002), Err(AntiBotError::TimeWindowInvalid));
    assert_eq!(c.validate_submission_time(PLAYER, 2, 10000, T0), Err(AntiBotError::InvalidWindow));
}

#[test]
fn test_validate_submission_time_too_fast() {
    let mut c = setup();
    c.set_time_window(1, 5000, 60000, 1000, 5000, 1000).unwrap();
    assert_eq!(c.validate_submission_time(PLAYER, 1, 1000, T0), Ok(false));
    let recorded = c.get_suspicious_activities(PLAYER, 0, 10);
    assert_eq!(recorded.len(), 1);
    assert_eq!(recorded[0].evidence, "min_time");
}

#[test]
fn test_invalid_time_window_fails() {
    let mut c = setup();
    assert_eq!(c.set_time_window(1, 5000, 60000, 5000, 1000, 0), Err(AntiBotError::InvalidWindow));
    assert_eq!(c.set_time_window(1, 60000, 5000, 1000, 5000, 0), Err(AntiBotError::InvalidWindow));
    assert!(c.get_time_window(1).is_none());
}

#[test]
fn test_trust_score_updates() {
    let mut c = setup();
    let initial_score = c.get_trust_score(PLAYER, T0);
    assert_eq!(initial_score, 500);
    for i in 0..5u64 {
        c.record_activity(PLAYER, i as u32, 15000, 500, true, T0 + i * 86400).unwrap();
    }
    // 500 + 300 (successes) + 40 (four days) - 100 (regular timing).
    assert_eq!(c.get_trust_score(PLAYER, T0 + 4 * 86400), 740);
}

#[test]
fn reputation_tier_grows_with_history() {
    let mut c = setup();
    assert_eq!(c.get_reputation_tier(PLAYER, T0), 2);
    for i in 0..10u64 {
        c.record_activity(PLAYER, i as u32, 15000, 500, true, T0 + i * 86400).unwrap();
    }
    assert_eq!(c.get_trust_score(PLAYER, T0), 790);
    assert_eq!(c.get_reputation_tier(PLAYER, T0), 4);
}

#[test]
fn test_apply_penalty() {
    let mut c = setup();
    let penalty_id = c.apply_penalty(PLAYER, PenaltyType::TemporaryBan, "bot_like".to_string(), 6, T0).unwrap();
    assert_eq!(penalty_id, 1);
    let penalty = c.get_penalty(penalty_id).unwrap();
    assert!(penalty.active);
    assert_eq!(penalty.penalty_type, PenaltyType::TemporaryBan);
    assert_eq!(penalty.severity, 6);
    assert_eq!(penalty.expires_at, T0 + 24 * 3600);
    let profile = c.get_profile(PLAYER).unwrap();
    assert_eq!(profile.status, PlayerStatus::Penalized.code());
    assert_eq!(profile.penalty_count, 1);
}

#[test]
fn score_reduction_penalty() {
    let mut c = setup();
    c.apply_penalty(PLAYER, PenaltyType::ScoreReduction, "r".to_string(), 3, T0).unwrap();
    assert_eq!(c.get_profile(PLAYER).unwrap().trust_score, 350);
    c.apply_penalty(PLAYER, PenaltyType::ScoreReduction, "r".to_string(), 9, T0).unwrap();
    assert_eq!(c.get_profile(PLAYER).unwrap().trust_score, 50);
    // A score reduction ends at once, so it is not active.
    assert_eq!(c.get_active_penalties(PLAYER, T0), 0);
}

#[test]
fn test_remove_penalty() {
    let mut c = setup();
    let penalty_id = c.apply_penalty(PLAYER, PenaltyType::TemporaryBan, "mistake".to_string(), 4, T0).unwrap();
    c.remove_penalty(penalty_id, T0).unwrap();
    assert!(!c.get_penalty(penalty_id).unwrap().active);
    assert_eq!(c.get_profile(PLAYER).unwrap().status, PlayerStatus::Verified.code());
    assert_eq!(c.remove_penalty(99, T0), Err(AntiBotError::Unauthorized));
}

#[test]
fn test_get_active_penalties() {
    let mut c = setup();
    assert_eq!(c.get_active_penalties(PLAYER, T0), 0);
    c.apply_penalty(PLAYER, PenaltyType::TemporaryBan, "violation".to_string(), 5, T0).unwrap();
    assert_eq!(c.get_active_penalties(PLAYER, T0), 1);
    assert_eq!(c.get_active_penalties(PLAYER, T0 + 24 * 3600), 0);
}

#[test]
fn test_check_penalty_status() {
    let mut c = setup();
    assert_eq!(c.check_penalty_status(PLAYER, T0), Ok(()));
    c.apply_penalty(PLAYER, PenaltyType::TemporaryBan, "violation".to_string(), 5, T0).unwrap();
    assert_eq!(c.check_penalty_status(PLAYER, T0), Err(AntiBotError::PenaltyActive));
}

#[test]
fn test_submit_appeal() {
    let mut c = setup();
    let penalty_id = c.apply_penalty(PLAYER, PenaltyType::TemporaryBan, "mistake".to_string(), 4, T0).unwrap();
    let appeal_id = c.submit_appeal(PLAYER, penalty_id, "wrong_acc".to_string(), "evidence1".to_string(), T0).unwrap();
    assert_eq!(appeal_id, 1);
    let appeal = c.get_appeal(appeal_id).unwrap();
    assert_eq!(appeal.status, AppealStatus::Pending);
    assert_eq!(appeal.penalty_id, penalty_id);
    assert_eq!(c.get_profile(PLAYER).unwrap().status, PlayerStatus::AppealPending.code());
    let again = c.submit_appeal(PLAYER, penalty_id, "again".to_string(), "e".to_string(), T0);
    assert_eq!(again, Err(AntiBotError::AlreadyAppealed));
}

#[test]
fn test_review_appeal_approve() {
    let mut c = setup();
    let penalty_id = c.apply_penalty(PLAYER, PenaltyType::TemporaryBan, "mistake".to_string(), 4, T0).unwrap();
    let appeal_id = c.submit_appeal(PLAYER, penalty_id, "wrong_acc".to_string(), "evidence1".to_string(), T0).unwrap();
    c.review_appeal(appeal_id, true, "approved".to_string(), T0 + 5).unwrap();
    let appeal = c.get_appeal(appeal_id).unwrap();
    assert_eq!(appeal.status, AppealStatus::Approved);
    assert_eq!(appeal.reviewed_by, Some(ADMIN));
    assert_eq!(appeal.reviewed_at, Some(T0 + 5));
    assert_eq!(appeal.decision_reason, Some("approved".to_string()));
    assert!(!c.get_penalty(penalty_id).unwrap().active);
    let profile = c.get_profile(PLAYER).unwrap();
    assert_eq!(profile.status, PlayerStatus::Verified.code());
    assert_eq!(profile.trust_score, 600);
    assert_eq!(c.review_appeal(appeal_id, true, "again".to_string(), T0), Err(AntiBotError::AppealNotFound));
}

#[test]
fn test_review_appeal_reject() {
    let mut c = setup();
    let penalty_id = c.apply_penalty(PLAYER, PenaltyType::TemporaryBan, "violation".to_string(), 7, T0).unwrap();
    let appeal_id = c.submit_appeal(PLAYER, penalty_id, "explain".to_string(), "evidence1".to_string(), T0).unwrap();
    c.review_appeal(appeal_id, false, "insuff".to_string(), T0).unwrap();
    assert_eq!(c.get_appeal(appeal_id).unwrap().status, AppealStatus::Rejected);
    assert!(c.get_penalty(penalty_id).unwrap().active);
    assert_eq!(c.get_profile(PLAYER).unwrap().status, PlayerStatus::Penalized.code());
}

#[test]
fn test_appeal_period_expired() {
    let mut c = setup();
    let penalty_id = c.apply_penalty(PLAYER, PenaltyType::TemporaryBan, "violation".to_string(), 5, T0).unwrap();
    let result = c.submit_appeal(PLAYER, penalty_id, "explain".to_string(), "evidence1".to_string(), T0 + 7 * 86400 + 1);
    assert_eq!(result, Err(AntiBotError::AppealPeriodExpired));
    let in_time = c.submit_appeal(PLAYER, penalty_id, "explain".to_string(), "evidence1".to_string(), T0 + 7 * 86400);
    assert_eq!(in_time, Ok(1));
}

#[test]
fn test_whitelist_player() {
    let mut c = setup();
    c.whitelist_player(PLAYER, T0).unwrap();
    assert!(c.is_whitelisted(PLAYER));
    let profile = c.get_profile(PLAYER).unwrap();
    assert_eq!(profile.trust_score, 1000);
    assert_eq!(profile.status, PlayerStatus::Whitelisted.code());
}

#[test]
fn test_remove_whitelist() {
    let mut c = setup();
    c.whitelist_player(PLAYER, T0).unwrap();
    c.remove_whitelist(PLAYER, T0).unwrap();
    assert!(!c.is_whitelisted(PLAYER));
    assert_eq!(c.get_profile(PLAYER).unwrap().trust_score, 800);
}

#[test]
fn test_blacklist_player() {
    let mut c = setup();
    c.blacklist_player(PLAYER, "conf_bot".to_string(), T0).unwrap();
    assert!(c.is_blacklisted(PLAYER));
    assert_eq!(c.get_active_penalties(PLAYER, T0), 1);
    assert_eq!(c.check_penalty_status(PLAYER, T0), Err(AntiBotError::BotDetected));
    // The permanent ban leaves the player marked as penalised, with no trust.
    let profile = c.get_profile(PLAYER).unwrap();
    assert_eq!(profile.status, PlayerStatus::Penalized.code());
    assert_eq!(profile.trust_score, 0);
}

#[test]
fn test_remove_blacklist() {
    let mut c = setup();
    c.blacklist_player(PLAYER, "conf_bot".to_string(), T0).unwrap();
    c.remove_blacklist(PLAYER, T0).unwrap();
    assert!(!c.is_blacklisted(PLAYER));
    assert_eq!(c.get_profile(PLAYER).unwrap().trust_score, 300);
}

#[test]
fn test_verify_player_whitelisted() {
    let mut c = setup();
    c.set_time_window(1, 5000, 60000, 1000, 5000, 1000).unwrap();
    c.whitelist_player(PLAYER, T0).unwrap();
    let result = c.verify_player(PLAYER, 1, 10000, T0).unwrap();
    assert!(result.allowed);
    assert_eq!(result.trust_score, 1000);
    assert_eq!(result.bot_probability, 0);
}

#[test]
fn test_verify_player_blacklisted() {
    let mut c = setup();
    c.blacklist_player(PLAYER, "conf_bot".to_string(), T0).unwrap();
    let result = c.verify_player(PLAYER, 1, 10000, T0).unwrap();
    assert!(!result.allowed);
}

#[test]
fn test_verify_player_with_penalty() {
    let mut c = setup();
    c.set_time_window(1, 5000, 60000, 1000, 5000, 1000).unwrap();
    c.apply_penalty(PLAYER, PenaltyType::TemporaryBan, "violation".to_string(), 5, T0).unwrap();
    let result = c.verify_player(PLAYER, 1, 10000, T0).unwrap();
    assert!(!result.allowed);
}

#[test]
fn test_verify_player_normal() {
    let mut c = setup();
    c.set_time_window(1, 5000, 60000, 1000, 5000, 1000).unwrap();
    for i in 0..3u64 {
        c.record_activity(PLAYER, i as u32, 10000, 500, true, T0 + i * 600).unwrap();
    }
    let result = c.verify_player(PLAYER, 1, 10000, T0 + 1200).unwrap();
    assert!(result.bot_probability < 50);
    assert!(result.allowed);
    assert_eq!(result.required_action, RequiredAction::NoAction);
    assert_eq!(result.trust_score, 700);
}

#[test]
fn verify_player_retry_on_slow_solve() {
    let mut c = setup();
    c.set_time_window(1, 5000, 60000, 1000, 5000, 1000).unwrap();
    let result = c.verify_player(PLAYER, 1, 70000, T0).unwrap();
    assert!(!result.allowed);
    assert_eq!(result.required_action, RequiredAction::Retry);
    assert_eq!(result.bot_probability, 30);
    assert_eq!(result.trust_score, 500);
}

#[test]
fn test_update_config() {
    let mut c = setup();
    let mut config = c.get_config().unwrap();
    config.max_attempts_per_window = 20;
    config.rate_limit_window_seconds = 600;
    c.update_config(config).unwrap();
    let updated = c.get_config().unwrap();
    assert_eq!(updated.max_attempts_per_window, 20);
    assert_eq!(updated.rate_limit_window_seconds, 600);
}

#[test]
fn test_add_and_remove_verifier() {
    let mut c = setup();
    c.add_verifier(77).unwrap();
    assert!(c.get_config().unwrap().verifiers.contains(&77));
    c.remove_verifier(77).unwrap();
    assert!(!c.get_config().unwrap().verifiers.contains(&77));
}

#[test]
fn test_full_bot_detection_flow() {
    let mut c = setup();
    c.set_time_window(1, 5000, 60000, 1000, 5000, 1000).unwrap();
    let bot = 9;
    for i in 0..5u64 {
        c.record_activity(bot, 1, 1000, 1000, true, T0 + i * 10).unwrap();
    }
    let analysis = c.analyze_player(bot, T0 + 40).unwrap();
    // Fast solves 30, consistent timing 25, round gas 15, low variance 20.
    assert_eq!(analysis.bot_probability, 90);
    assert_eq!(analysis.recommendation, Recommendation::Block);
    let profile = c.get_profile(bot).unwrap();
    assert!(profile.status == PlayerStatus::Flagged.code() || profile.consecutive_fast_solves >= 3);
    assert_eq!(profile.consecutive_fast_solves, 5);
    assert_eq!(profile.trust_score, 600);
    // The full check blocks and bans the bot.
    let result = c.verify_player(bot, 1, 10000, T0 + 50).unwrap();
    assert!(!result.allowed);
    assert_eq!(result.required_action, RequiredAction::Blocked);
    assert_eq!(c.get_active_penalties(bot, T0 + 50), 1);
}

#[test]
fn test_legitimate_player_not_blocked() {
    let mut c = setup();
    c.set_time_window(1, 5000, 60000, 1000, 5000, 1000).unwrap();
    let legit = 10;
    let times = [1000u64, 1700, 2300, 3400, 3900];
    for (i, t) in times.iter().enumerate() {
        let solve = if i % 2 == 0 { 12000 } else { 15000 };
        c.record_activity(legit, i as u32, solve, 520 + i as u64, true, *t).unwrap();
    }
    let result = c.verify_player(legit, 1, 12000, 4000).unwrap();
    assert!(result.bot_probability < 50);
    assert!(result.allowed);
}

#[test]
fn test_double_initialize_fails() {
    let first = AntiBot::initialize(ADMIN);
    let second = AntiBot::initialize(ADMIN);
    assert_eq!(first.get_config().unwrap().admin, second.get_config().unwrap().admin);
}

#[test]
fn test_get_or_create_profile() {
    let env = soroban_sdk::Env::default();
    let mut c = setup();
    // No profile at first.
    assert!(c.get_profile(PLAYER).is_none());
    // Generating a challenge creates the profile.
    c.generate_captcha_challenge(&env, PLAYER, T0).unwrap();
    let profile = c.get_profile(PLAYER).unwrap();
    assert_eq!(profile.address, PLAYER);
    assert_eq!(profile.status, 0);
    assert_eq!(profile.trust_score, 500);
    assert_eq!(profile.total_attempts, 0);
}

#[test]
fn test_reputation_tier_calculation() {
    let mut c = setup();
    // Neutral at 500.
    assert_eq!(c.get_reputation_tier(PLAYER, 1000), 2);
    for i in 0..10u32 {
        c.record_activity(PLAYER, i, 15000, 500, true, 1000 + i as u64 * 86400).unwrap();
    }
    assert!(c.get_reputation_tier(PLAYER, 1000) >= 3);
}
