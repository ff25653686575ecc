//! Bot detection for puzzle play: per-player profiles with a trust score,
//! rate limits, behavioural timing patterns, proof-of-work challenges,
//! suspicious-activity records, penalties with appeals, and white and black
//! lists, combined into one verification of a submission.
//!
//! The contract's whole state is described by `AntiBotView`; each operation
//! states its effect as a function from the view before to the view after,
//! defined in `anti_bot_spec`.
use vstd::prelude::*;
use crate::assoc::{AssocMap, ListMap};
use crate::anti_bot_spec::{
    active_count, active_in, fast_stage, run_stage, history_stage, timing_stage, stats_after, analysis_of, analyze_fits, analyze_spec, apply_penalty_fits,
    apply_penalty_spec, avg_interval, blacklist_spec, check_rate_fits, check_rate_spec, current_window,
    digest_prefix, ensure_profile, expiry_of, tier_of, high_count, interval_diff, is_listed, kept_times, min_iterations_of,
    new_profile, pattern_after, pattern_at, pattern_fits, pattern_or_default, penalty_check,
    pending_appeal_exists, profile_at, proof_bytes, rate_window_at, record_activity_fits,
    record_activity_spec, record_susp, remove_blacklist_spec, remove_penalty_spec,
    remove_whitelist_spec, review_appeal_spec, seed_bytes, seq_at, settle_spec, submit_appeal_fits,
    submit_appeal_spec, susp_room, threshold_of, times_after, trust_after, trust_fits, validate_fits,
    validate_spec, var_sum, verify_player_fits, verify_player_spec, whitelist_spec, with_profile,
    AnalysisView, AntiBotView, AppealView, ConfigView, PatternView, PenaltyView, SuspiciousView,
};

verus! {

#[derive(Clone, Copy, Debug, PartialEq, Eq, Structural)]
pub enum AntiBotError {
    NotInitialized,
    AlreadyInitialized,
    Unauthorized,
    RateLimitExceeded,
    BotDetected,
    InvalidWindow,
    AppealNotFound,
    AlreadyAppealed,
    AppealPeriodExpired,
    InsufficientReputation,
    PenaltyActive,
    VerificationFailed,
    SuspiciousActivity,
    TimeWindowInvalid,
    ChallengeExpired,
    InvalidProof,
}

/// The statuses a player profile records, by their codes 0 to 7 in this order.
#[derive(Clone, Copy, Debug, PartialEq, Eq, Structural)]
pub enum PlayerStatus {
    Unverified,
    Verified,
    Suspicious,
    Flagged,
    Penalized,
    AppealPending,
    Whitelisted,
    Blacklisted,
}

impl PlayerStatus {
    pub open spec fn spec_code(self) -> u32 {
        match self {
            PlayerStatus::Unverified => 0,
            PlayerStatus::Verified => 1,
            PlayerStatus::Suspicious => 2,
            PlayerStatus::Flagged => 3,
            PlayerStatus::Penalized => 4,
            PlayerStatus::AppealPending => 5,
            PlayerStatus::Whitelisted => 6,
            PlayerStatus::Blacklisted => 7,
        }
    }

    /// The code a profile stores for this status.
    pub fn code(self) -> (c: u32)
        ensures
            c == self.spec_code(),
    {
        match self {
            PlayerStatus::Unverified => 0,
            PlayerStatus::Verified => 1,
            PlayerStatus::Suspicious => 2,
            PlayerStatus::Flagged => 3,
            PlayerStatus::Penalized => 4,
            PlayerStatus::AppealPending => 5,
            PlayerStatus::Whitelisted => 6,
            PlayerStatus::Blacklisted => 7,
        }
    }
}

#[derive(Clone, Copy, Debug, PartialEq, Eq, Structural)]
pub struct PlayerProfile {
    pub address: u64,
    /// A `PlayerStatus` code.
    pub status: u32,
    pub trust_score: u32,
    pub total_attempts: u32,
    pub successful_attempts: u32,
    pub failed_attempts: u32,
    pub avg_solve_time_ms: u64,
    pub first_seen: u64,
    pub last_activity: u64,
    pub consecutive_fast_solves: u32,
    pub reputation_tier: u32,
    pub penalty_count: u32,
    pub appeal_count: u32,
}

#[derive(Clone, Copy, Debug, PartialEq, Eq, Structural)]
pub struct ActivityRecord {
    pub timestamp: u64,
    pub puzzle_id: u32,
    pub solve_time_ms: u64,
    pub gas_used: u64,
    pub success: bool,
}

#[derive(Clone, Copy, Debug, PartialEq, Eq, Structural)]
pub struct RateLimitWindow {
    pub window_start: u64,
    pub attempt_count: u32,
    pub last_attempt: u64,
}

#[derive(Debug)]
pub struct BehavioralPattern {
    pub avg_interaction_interval_ms: u64,
    /// 0 to 1000; lower is more bot-like.
    pub pattern_variance: u32,
    /// 0 to 1000; higher is more bot-like.
    pub consistency_score: u32,
    /// Timestamps of the most recent interactions.
    pub time_distribution: Vec<u64>,
    pub gas_pattern_variance: u32,
}

impl View for BehavioralPattern {
    type V = PatternView;

    open spec fn view(&self) -> PatternView {
        PatternView {
            avg_interaction_interval_ms: self.avg_interaction_interval_ms,
            pattern_variance: self.pattern_variance,
            consistency_score: self.consistency_score,
            time_distribution: self.time_distribution@,
            gas_pattern_variance: self.gas_pattern_variance,
        }
    }
}

impl Clone for BehavioralPattern {
    fn clone(&self) -> (r: Self)
        ensures
            r@ == self@,
    {
        BehavioralPattern {
            avg_interaction_interval_ms: self.avg_interaction_interval_ms,
            pattern_variance: self.pattern_variance,
            consistency_score: self.consistency_score,
            time_distribution: crate::seqs::copy_vec(&self.time_distribution),
            gas_pattern_variance: self.gas_pattern_variance,
        }
    }
}

#[derive(Clone, Copy, Debug)]
pub struct CaptchaChallenge {
    pub challenge_id: u32,
    /// 1 to 5.
    pub difficulty: u32,
    pub created_at: u64,
    pub expires_at: u64,
    pub target_prefix: [u8; 4],
    /// Proof-of-work iterations required.
    pub min_iterations: u32,
}

#[derive(Clone, Copy, Debug)]
pub struct CaptchaProof {
    pub challenge_id: u32,
    pub nonce: u64,
    pub iterations: u32,
    pub proof_hash: [u8; 32],
}

#[derive(Clone, Copy, Debug, PartialEq, Eq, Structural)]
pub enum ActivityType {
    TooFastSolve,
    PatternMatch,
    GasAnomaly,
    RateLimitViolation,
    FailedCaptcha,
    RepeatedFailures,
    TimestampManipulation,
    SuspiciousTiming,
}

#[derive(Debug)]
pub struct SuspiciousActivity {
    pub activity_type: ActivityType,
    pub timestamp: u64,
    pub evidence: String,
    /// 1 to 10.
    pub severity: u32,
}

impl View for SuspiciousActivity {
    type V = SuspiciousView;

    open spec fn view(&self) -> SuspiciousView {
        SuspiciousView { activity_type: self.activity_type, timestamp: self.timestamp, evidence: self.evidence@, severity: self.severity }
    }
}

impl Clone for SuspiciousActivity {
    fn clone(&self) -> (r: Self)
        ensures
            r@ == self@,
    {
        SuspiciousActivity { activity_type: self.activity_type, timestamp: self.timestamp, evidence: self.evidence.clone(), severity: self.severity }
    }
}

#[derive(Clone, Copy, Debug, PartialEq, Eq, Structural)]
pub enum PenaltyType {
    Warning,
    /// Hours.
    TemporaryBan,
    /// Days.
    ExtendedBan,
    PermanentBan,
    ScoreReduction,
    VerificationRequired,
}

#[derive(Debug)]
pub struct PenaltyRecord {
    pub penalty_id: u32,
    pub player: u64,
    pub penalty_type: PenaltyType,
    pub reason: String,
    pub severity: u32,
    pub applied_at: u64,
    pub expires_at: u64,
    pub active: bool,
}

impl View for PenaltyRecord {
    type V = PenaltyView;

    open spec fn view(&self) -> PenaltyView {
        PenaltyView {
            penalty_id: self.penalty_id,
            player: self.player,
            penalty_type: self.penalty_type,
            reason: self.reason@,
            severity: self.severity,
            applied_at: self.applied_at,
            expires_at: self.expires_at,
            active: self.active,
        }
    }
}

impl Clone for PenaltyRecord {
    fn clone(&self) -> (r: Self)
        ensures
            r@ == self@,
    {
        PenaltyRecord {
            penalty_id: self.penalty_id,
            player: self.player,
            penalty_type: self.penalty_type,
            reason: self.reason.clone(),
            severity: self.severity,
            applied_at: self.applied_at,
            expires_at: self.expires_at,
            active: self.active,
        }
    }
}

#[derive(Clone, Copy, Debug, PartialEq, Eq, Structural)]
pub enum AppealStatus {
    Pending,
    Approved,
    Rejected,
    UnderReview,
}

#[derive(Debug)]
pub struct Appeal {
    pub appeal_id: u32,
    pub player: u64,
    pub penalty_id: u32,
    pub reason: String,
    pub evidence: String,
    pub submitted_at: u64,
    pub status: AppealStatus,
    pub reviewed_by: Option<u64>,
    pub reviewed_at: Option<u64>,
    pub decision_reason: Option<String>,
}

impl View for Appeal {
    type V = AppealView;

    open spec fn view(&self) -> AppealView {
        AppealView {
            appeal_id: self.appeal_id,
            player: self.player,
            penalty_id: self.penalty_id,
            reason: self.reason@,
            evidence: self.evidence@,
            submitted_at: self.submitted_at,
            status: self.status,
            reviewed_by: self.reviewed_by,
            reviewed_at: self.reviewed_at,
            decision_reason: match self.decision_reason {
                Some(s) => Some(s@),
                None => None,
            },
        }
    }
}

impl Clone for Appeal {
    fn clone(&self) -> (r: Self)
        ensures
            r@ == self@,
    {
        Appeal {
            appeal_id: self.appeal_id,
            player: self.player,
            penalty_id: self.penalty_id,
            reason: self.reason.clone(),
            evidence: self.evidence.clone(),
            submitted_at: self.submitted_at,
            status: self.status,
            reviewed_by: self.reviewed_by,
            reviewed_at: self.reviewed_at,
            decision_reason: match &self.decision_reason {
                Some(s) => Some(s.clone()),
                None => None,
            },
        }
    }
}

#[derive(Clone, Copy, Debug, PartialEq, Eq, Structural)]
pub struct TimeWindow {
    pub puzzle_id: u32,
    pub min_solve_time_ms: u64,
    pub max_solve_time_ms: u64,
    pub submission_start: u64,
    pub submission_end: u64,
    pub grace_period_ms: u64,
}

#[derive(Debug)]
pub struct Config {
    pub admin: u64,
    pub verifiers: Vec<u64>,
    pub max_attempts_per_window: u32,
    pub rate_limit_window_seconds: u64,
    pub min_solve_time_threshold_ms: u64,
    pub suspicious_solve_time_ms: u64,
    pub captcha_difficulty: u32,
    pub captcha_validity_seconds: u64,
    pub pattern_analysis_window: u32,
    pub max_consecutive_fast_solves: u32,
    pub appeal_period_days: u64,
    pub default_penalty_hours: u64,
    pub trust_score_threshold: u32,
    pub reputation_contract: Option<u64>,
}

impl View for Config {
    type V = ConfigView;

    open spec fn view(&self) -> ConfigView {
        ConfigView {
            admin: self.admin,
            verifiers: self.verifiers@,
            max_attempts_per_window: self.max_attempts_per_window,
            rate_limit_window_seconds: self.rate_limit_window_seconds,
            min_solve_time_threshold_ms: self.min_solve_time_threshold_ms,
            suspicious_solve_time_ms: self.suspicious_solve_time_ms,
            captcha_difficulty: self.captcha_difficulty,
            captcha_validity_seconds: self.captcha_validity_seconds,
            pattern_analysis_window: self.pattern_analysis_window,
            max_consecutive_fast_solves: self.max_consecutive_fast_solves,
            appeal_period_days: self.appeal_period_days,
            default_penalty_hours: self.default_penalty_hours,
            trust_score_threshold: self.trust_score_threshold,
            reputation_contract: self.reputation_contract,
        }
    }
}

impl Clone for Config {
    fn clone(&self) -> (r: Self)
        ensures
            r@ == self@,
    {
        Config {
            admin: self.admin,
            verifiers: crate::seqs::copy_vec(&self.verifiers),
            max_attempts_per_window: self.max_attempts_per_window,
            rate_limit_window_seconds: self.rate_limit_window_seconds,
            min_solve_time_threshold_ms: self.min_solve_time_threshold_ms,
            suspicious_solve_time_ms: self.suspicious_solve_time_ms,
            captcha_difficulty: self.captcha_difficulty,
            captcha_validity_seconds: self.captcha_validity_seconds,
            pattern_analysis_window: self.pattern_analysis_window,
            max_consecutive_fast_solves: self.max_consecutive_fast_solves,
            appeal_period_days: self.appeal_period_days,
            default_penalty_hours: self.default_penalty_hours,
            trust_score_threshold: self.trust_score_threshold,
            reputation_contract: self.reputation_contract,
        }
    }
}

/// The risks an analysis can name.
#[derive(Clone, Copy, Debug, PartialEq, Eq, Structural)]
pub enum RiskFactor {
    FastSolves,
    HighFailureRate,
    ConsistentTiming,
    GasPattern,
    LowVariance,
    LowTrust,
}

#[derive(Clone, Copy, Debug, PartialEq, Eq, Structural)]
pub enum Recommendation {
    Allow,
    Verify,
    Block,
}

/// What a verified player must do before playing on.
#[derive(Clone, Copy, Debug, PartialEq, Eq, Structural)]
pub enum RequiredAction {
    NoAction,
    Retry,
    Blocked,
    Captcha,
    Verify,
}

#[derive(Debug)]
pub struct PlayerAnalysis {
    pub player: u64,
    pub trust_score: u32,
    pub bot_probability: u32,
    pub risk_factors: Vec<RiskFactor>,
    pub recommendation: Recommendation,
    pub status: u32,
}

impl View for PlayerAnalysis {
    type V = AnalysisView;

    open spec fn view(&self) -> AnalysisView {
        AnalysisView {
            player: self.player,
            trust_score: self.trust_score,
            bot_probability: self.bot_probability,
            risk_factors: self.risk_factors@,
            recommendation: self.recommendation,
            status: self.status,
        }
    }
}

#[derive(Clone, Copy, Debug, PartialEq, Eq, Structural)]
pub struct VerificationResult {
    pub allowed: bool,
    pub required_action: RequiredAction,
    pub trust_score: u32,
    pub bot_probability: u32,
}

/// The state of the anti-bot contract.
pub struct AntiBot {
    pub config: Config,
    pub challenge_counter: u32,
    pub penalty_counter: u32,
    pub appeal_counter: u32,
    pub profiles: AssocMap<PlayerProfile>,
    /// Activity history of each player, in order.
    pub activities: ListMap<ActivityRecord>,
    pub rate_limits: AssocMap<RateLimitWindow>,
    pub patterns: AssocMap<BehavioralPattern>,
    pub challenges: AssocMap<CaptchaChallenge>,
    /// Suspicious activities of each player, in order.
    pub suspicious: ListMap<SuspiciousActivity>,
    pub penalties: AssocMap<PenaltyRecord>,
    /// Penalty ids of each player, in order.
    pub player_penalties: ListMap<u32>,
    pub appeals: AssocMap<Appeal>,
    /// Time windows by puzzle.
    pub time_windows: AssocMap<TimeWindow>,
    pub whitelisted: AssocMap<bool>,
    pub blacklisted: AssocMap<bool>,
}

impl View for AntiBot {
    type V = AntiBotView;

    open spec fn view(&self) -> AntiBotView {
        AntiBotView {
            config: self.config@,
            challenge_counter: self.challenge_counter,
            penalty_counter: self.penalty_counter,
            appeal_counter: self.appeal_counter,
            profiles: self.profiles@,
            activities: self.activities@,
            rate_limits: self.rate_limits@,
            patterns: self.patterns@.map_values(|p: BehavioralPattern| p@),
            challenges: self.challenges@,
            suspicious: self.suspicious@.map_values(|s: Seq<SuspiciousActivity>| s.map_values(|a: SuspiciousActivity| a@)),
            penalties: self.penalties@.map_values(|p: PenaltyRecord| p@),
            player_penalties: self.player_penalties@,
            appeals: self.appeals@.map_values(|a: Appeal| a@),
            time_windows: self.time_windows@,
            whitelisted: self.whitelisted@,
            blacklisted: self.blacklisted@,
        }
    }
}

} // verus!

verus! {

/// The last `window` entries of a list (all of them when fewer).
fn last_entries(v: &Vec<u64>, window: u32) -> (r: Vec<u64>)
    ensures
        r@ == kept_times(v@, window),
{
    if v.len() as u64 <= window as u64 {
        return crate::seqs::copy_vec(v);
    }
    let start: usize = v.len() - window as usize;
    let mut r: Vec<u64> = Vec::new();
    let mut i = start;
    while i < v.len()
        invariant
            start <= i <= v@.len(),
            start == v@.len() - window,
            r@ == v@.subrange(start as int, i as int),
        decreases v@.len() - i,
    {
        r.push(v[i]);
        i = i + 1;
        assert(r@ =~= v@.subrange(start as int, i as int));
    }
    r
}

/// In a list whose neighbours are in order, any two entries are.
proof fn lemma_sorted(d: Seq<u64>, i: int, j: int)
    requires
        forall|k: int| 0 <= k < d.len() - 1 ==> #[trigger] d[k] <= d[k + 1],
        0 <= i <= j < d.len(),
    ensures
        d[i] <= d[j],
    decreases j - i,
{
    if i < j {
        lemma_sorted(d, i, j - 1);
        assert(d[j - 1] <= d[(j - 1) + 1]);
    }
}

/// The sum of squared distances grows with the number of intervals.
proof fn lemma_var_sum_monotone(d: Seq<u64>, avg: int, k: int, n: int)
    requires
        0 <= k <= n,
    ensures
        var_sum(d, avg, k) <= var_sum(d, avg, n),
    decreases n - k,
{
    if k < n {
        lemma_var_sum_monotone(d, avg, k, n - 1);
        let x = interval_diff(d, avg, n - 1);
        assert(0 <= x * x) by (nonlinear_arith);
    }
}

/// The sum of squared distances of the intervals of `d` from `avg`.
fn variance_sum(d: &Vec<u64>, avg: u64) -> (s: u64)
    requires
        d@.len() >= 2,
        forall|k: int| 0 <= k < d@.len() - 1 ==> #[trigger] d@[k] <= d@[k + 1],
        var_sum(d@, avg as int, d@.len() - 1) <= u64::MAX,
    ensures
        s == var_sum(d@, avg as int, d@.len() - 1),
{
    let n: usize = d.len() - 1;
    let mut s: u64 = 0;
    let mut i: usize = 0;
    while i < n
        invariant
            i <= n,
            n == d@.len() - 1,
            forall|k: int| 0 <= k < d@.len() - 1 ==> #[trigger] d@[k] <= d@[k + 1],
            var_sum(d@, avg as int, n as int) <= u64::MAX,
            s == var_sum(d@, avg as int, i as int),
        decreases n - i,
    {
        assert(d@[i as int] <= d@[i as int + 1]);
        let x = d[i + 1] - d[i];
        let diff = if x > avg { x - avg } else { avg - x };
        proof {
            lemma_var_sum_monotone(d@, avg as int, i + 1, n as int);
            assert(diff == interval_diff(d@, avg as int, i as int));
            assert(0 <= s);
            assert(0 <= diff * diff) by (nonlinear_arith);
        }
        s = s + diff * diff;
        i = i + 1;
    }
    s
}

/// The pattern after an interaction at `ts` using `gas`.
fn next_pattern(base: &BehavioralPattern, ts: u64, gas: u64, window: u32) -> (r: BehavioralPattern)
    requires
        pattern_fits(base@, ts, window),
    ensures
        r@ == pattern_after(base@, ts, gas, window),
{
    let mut all = crate::seqs::copy_vec(&base.time_distribution);
    all.push(ts);
    let d = last_entries(&all, window);
    assert(d@ == times_after(base@, ts, window));
    if d.len() >= 3 {
        let n: usize = d.len() - 1;
        proof {
            lemma_sorted(d@, 0, n as int);
        }
        let avg = (d[n] - d[0]) / (n as u64);
        assert(avg == avg_interval(d@));
        let variance = variance_sum(&d, avg) / (n as u64);
        let capped = if variance <= 1_000_000 { variance } else { 1_000_000 };
        let pv = (capped / 1000) as u32;
        let gas_var = if gas > 0 {
            if gas % 1000 == 0 { 900 } else { 400 }
        } else {
            base.gas_pattern_variance
        };
        BehavioralPattern {
            avg_interaction_interval_ms: avg,
            pattern_variance: pv,
            consistency_score: 1000 - pv,
            time_distribution: d,
            gas_pattern_variance: gas_var,
        }
    } else {
        BehavioralPattern {
            avg_interaction_interval_ms: base.avg_interaction_interval_ms,
            pattern_variance: base.pattern_variance,
            consistency_score: base.consistency_score,
            time_distribution: d,
            gas_pattern_variance: base.gas_pattern_variance,
        }
    }
}

/// The profile with its trust score, tier and status recomputed.
fn with_trust(p: PlayerProfile, pat: Option<&BehavioralPattern>, now: u64) -> (r: PlayerProfile)
    requires
        trust_fits(p, now),
    ensures
        r == trust_after(p, match pat { Some(q) => Some(q@), None => None }, now),
{
    let mut score: u32 = 500;
    if p.total_attempts > 0 {
        let rate = (p.successful_attempts * 300) / p.total_attempts;
        score = score + if rate <= 300 { rate } else { 300 };
    }
    let age = (now - p.first_seen) / 86400;
    assert(age * 10 <= u64::MAX) by (nonlinear_arith)
        requires
            age == (now - p.first_seen) / 86400,
            p.first_seen <= now,
    ;
    let age_points = age * 10;
    score = score + if age_points <= 100 { age_points as u32 } else { 100 };
    match pat {
        Some(q) => {
            if q.consistency_score > 800 {
                score = score.saturating_sub(100);
            } else if q.consistency_score < 300 {
                score = score + 50;
            }
        },
        None => {},
    }
    score = score.saturating_sub(p.penalty_count * 50);
    if p.consecutive_fast_solves > 0 {
        score = score.saturating_sub(p.consecutive_fast_solves * 20);
    }
    let t = if score <= 1000 { score } else { 1000 };
    let status = if t >= 800 && p.status == 0 { 1 } else { p.status };
    let tier = if t <= 199 {
        0
    } else if t <= 399 {
        1
    } else if t <= 599 {
        2
    } else if t <= 749 {
        3
    } else if t <= 899 {
        4
    } else {
        5
    };
    PlayerProfile { trust_score: t, status, reputation_tier: tier, ..p }
}

} // verus!

verus! {

/// The views of a list of suspicious activities.
pub open spec fn susp_views(s: Seq<SuspiciousActivity>) -> Seq<SuspiciousView> {
    s.map_values(|a: SuspiciousActivity| a@)
}

impl AntiBot {
    /// The contract as `initialize` leaves it: `admin` (who has authorised)
    /// administers it with the default limits and nothing recorded.
    pub fn initialize(admin: u64) -> (c: Self)
        ensures
            c@.config == (ConfigView {
                admin,
                verifiers: Seq::empty(),
                max_attempts_per_window: 10,
                rate_limit_window_seconds: 300,
                min_solve_time_threshold_ms: 5000,
                suspicious_solve_time_ms: 2000,
                captcha_difficulty: 2,
                captcha_validity_seconds: 300,
                pattern_analysis_window: 10,
                max_consecutive_fast_solves: 3,
                appeal_period_days: 7,
                default_penalty_hours: 24,
                trust_score_threshold: 500,
                reputation_contract: None,
            }),
            c@.challenge_counter == 0 && c@.penalty_counter == 0 && c@.appeal_counter == 0,
            c@.profiles == Map::<u64, PlayerProfile>::empty(),
            c@.activities == Map::<u64, Seq<ActivityRecord>>::empty(),
            c@.rate_limits == Map::<u64, RateLimitWindow>::empty(),
            c@.patterns == Map::<u64, PatternView>::empty(),
            c@.challenges == Map::<u64, CaptchaChallenge>::empty(),
            c@.suspicious == Map::<u64, Seq<SuspiciousView>>::empty(),
            c@.penalties == Map::<u64, PenaltyView>::empty(),
            c@.player_penalties == Map::<u64, Seq<u32>>::empty(),
            c@.appeals == Map::<u64, AppealView>::empty(),
            c@.time_windows == Map::<u64, TimeWindow>::empty(),
            c@.whitelisted == Map::<u64, bool>::empty(),
            c@.blacklisted == Map::<u64, bool>::empty(),
    {
        let c = AntiBot {
            config: Config {
                admin,
                verifiers: Vec::new(),
                max_attempts_per_window: 10,
                rate_limit_window_seconds: 300,
                min_solve_time_threshold_ms: 5000,
                suspicious_solve_time_ms: 2000,
                captcha_difficulty: 2,
                captcha_validity_seconds: 300,
                pattern_analysis_window: 10,
                max_consecutive_fast_solves: 3,
                appeal_period_days: 7,
                default_penalty_hours: 24,
                trust_score_threshold: 500,
                reputation_contract: None,
            },
            challenge_counter: 0,
            penalty_counter: 0,
            appeal_counter: 0,
            profiles: AssocMap::new(),
            activities: ListMap::new(),
            rate_limits: AssocMap::new(),
            patterns: AssocMap::new(),
            challenges: AssocMap::new(),
            suspicious: ListMap::new(),
            penalties: AssocMap::new(),
            player_penalties: ListMap::new(),
            appeals: AssocMap::new(),
            time_windows: AssocMap::new(),
            whitelisted: AssocMap::new(),
            blacklisted: AssocMap::new(),
        };
        assert(c@.patterns =~= Map::<u64, PatternView>::empty());
        assert(c@.suspicious =~= Map::<u64, Seq<SuspiciousView>>::empty());
        assert(c@.penalties =~= Map::<u64, PenaltyView>::empty());
        assert(c@.appeals =~= Map::<u64, AppealView>::empty());
        c
    }

    /// The player's profile, or the one they get when first seen at `now`.
    fn profile_or_new(&self, player: u64, now: u64) -> (p: PlayerProfile)
        ensures
            p == profile_at(self@, player, now),
    {
        match self.profiles.get(player) {
            Some(p) => *p,
            None => PlayerProfile {
                address: player,
                status: 0,
                trust_score: 500,
                total_attempts: 0,
                successful_attempts: 0,
                failed_attempts: 0,
                avg_solve_time_ms: 0,
                first_seen: now,
                last_activity: now,
                consecutive_fast_solves: 0,
                reputation_tier: 2,
                penalty_count: 0,
                appeal_count: 0,
            },
        }
    }

    /// Stores the player's profile.
    fn set_profile(&mut self, player: u64, p: PlayerProfile)
        ensures
            final(self)@ == with_profile(old(self)@, player, p),
    {
        self.profiles.insert(player, p);
        assert(self@ =~= with_profile(old(self)@, player, p));
    }

    /// Stores the player's profile (created at `now` when missing) and returns it.
    fn get_or_create_profile(&mut self, player: u64, now: u64) -> (p: PlayerProfile)
        ensures
            p == profile_at(old(self)@, player, now),
            final(self)@ == ensure_profile(old(self)@, player, now),
    {
        let p = self.profile_or_new(player, now);
        self.set_profile(player, p);
        p
    }

    pub fn get_profile(&self, player: u64) -> (r: Option<PlayerProfile>)
        ensures
            r == (if self@.profiles.contains_key(player) { Some(self@.profiles[player]) } else { None }),
    {
        match self.profiles.get(player) {
            Some(p) => Some(*p),
            None => None,
        }
    }

    /// How many of the listed activities have severity 7 or more.
    fn count_high_severity(s: &Vec<SuspiciousActivity>) -> (n: u64)
        ensures
            n == high_count(susp_views(s@)),
    {
        let mut n: u64 = 0;
        let mut i: usize = 0;
        while i < s.len()
            invariant
                i <= s@.len(),
                n == high_count(susp_views(s@.take(i as int))),
                n <= i,
            decreases s@.len() - i,
        {
            proof {
                assert(susp_views(s@.take(i + 1)).drop_last() =~= susp_views(s@.take(i as int)));
                assert(susp_views(s@.take(i + 1)).last() == s@[i as int]@);
            }
            if s[i].severity >= 7 {
                n = n + 1;
            }
            i = i + 1;
        }
        assert(s@.take(s@.len() as int) =~= s@);
        n
    }

    /// Records a suspicious activity of the player at `now` (see `record_susp`).
    fn record_suspicious_activity(&mut self, player: u64, activity_type: ActivityType, evidence: String, severity: u32, now: u64)
        requires
            susp_room(old(self)@, player),
        ensures
            final(self)@ == record_susp(old(self)@, player, activity_type, evidence@, severity, now),
    {
        let ghost ev = evidence@;
        let ghost old_list = self.suspicious.list(player);
        let a = SuspiciousActivity { activity_type, timestamp: now, evidence, severity };
        self.suspicious.push(player, a);
        let ghost v1 = self@;
        proof {
            let nl = old_list.push(a);
            assert(susp_views(nl) =~= seq_at(old(self)@.suspicious, player).push(a@));
            assert(self@.suspicious =~= old(self)@.suspicious.insert(player, susp_views(nl)));
            assert(self@ == AntiBotView { suspicious: old(self)@.suspicious.insert(player, seq_at(old(self)@.suspicious, player).push(SuspiciousView { activity_type, timestamp: now, evidence: ev, severity })), ..old(self)@ });
        }
        let (total, high) = match self.suspicious.get(player) {
            Some(list) => (list.len() as u64, Self::count_high_severity(list)),
            None => (0, 0),
        };
        assert(total == seq_at(v1.suspicious, player).len());
        assert(high == high_count(seq_at(v1.suspicious, player)));
        let mut p = self.profile_or_new(player, now);
        if p.status != PlayerStatus::Flagged.code() && p.status != PlayerStatus::Penalized.code() && p.status != PlayerStatus::Blacklisted.code() {
            if severity >= 8 || (total >= 5 && high >= 2) {
                p.status = PlayerStatus::Flagged.code();
            }
        }
        self.set_profile(player, p);
    }

    /// Updates the player's timing pattern with an interaction at `ts`.
    fn update_behavioral_pattern(&mut self, player: u64, ts: u64, gas: u64)
        requires
            pattern_fits(pattern_or_default(old(self)@, player), ts, old(self)@.config.pattern_analysis_window),
        ensures
            final(self)@ == (AntiBotView {
                patterns: old(self)@.patterns.insert(player, pattern_after(pattern_or_default(old(self)@, player), ts, gas, old(self)@.config.pattern_analysis_window)),
                ..old(self)@
            }),
    {
        let base = match self.patterns.get(player) {
            Some(p) => p.clone(),
            None => BehavioralPattern {
                avg_interaction_interval_ms: 0,
                pattern_variance: 500,
                consistency_score: 500,
                time_distribution: Vec::new(),
                gas_pattern_variance: 500,
            },
        };
        assert(base@ == pattern_or_default(old(self)@, player));
        let next = next_pattern(&base, ts, gas, self.config.pattern_analysis_window);
        let ghost nv = next@;
        self.patterns.insert(player, next);
        assert(self@.patterns =~= old(self)@.patterns.insert(player, nv));
    }

    /// Records an attempt of the player at `now` (the player has
    /// authorised); see `record_activity_spec`.
    pub fn record_activity(&mut self, player: u64, puzzle_id: u32, solve_time_ms: u64, gas_used: u64, success: bool, now: u64) -> (r: Result<(), AntiBotError>)
        requires
            record_activity_fits(old(self)@, player, puzzle_id, solve_time_ms, gas_used, success, now),
        ensures
            r is Ok,
            final(self)@ == record_activity_spec(old(self)@, player, puzzle_id, solve_time_ms, gas_used, success, now),
    {
        let ghost v = self@;
        let min_threshold = self.config.min_solve_time_threshold_ms;
        let suspicious_threshold = self.config.suspicious_solve_time_ms;
        let max_fast = self.config.max_consecutive_fast_solves;
        let mut p = self.get_or_create_profile(player, now);
        let ghost v0 = self@;
        p.total_attempts = p.total_attempts + 1;
        p.last_activity = now;
        if success {
            p.successful_attempts = p.successful_attempts + 1;
        } else {
            p.failed_attempts = p.failed_attempts + 1;
        }
        if success && solve_time_ms < min_threshold {
            p.consecutive_fast_solves = p.consecutive_fast_solves + 1;
            if solve_time_ms < suspicious_threshold {
                self.record_suspicious_activity(player, ActivityType::TooFastSolve, String::from_str("fast_slv"), 7, now);
            }
        } else {
            p.consecutive_fast_solves = 0;
        }
        assert(self@ == fast_stage(v0, player, solve_time_ms, success, now));
        let ghost v1 = self@;
        if success && p.successful_attempts > 0 {
            p.avg_solve_time_ms = (p.avg_solve_time_ms * (p.successful_attempts - 1) as u64 + solve_time_ms) / p.successful_attempts as u64;
        }
        assert(p == stats_after(profile_at(v, player, now), v.config, solve_time_ms, success, now));
        if p.consecutive_fast_solves >= max_fast {
            self.record_suspicious_activity(player, ActivityType::PatternMatch, String::from_str("bot_patt"), 8, now);
        }
        assert(self@ == run_stage(v1, player, p, now));
        let ghost v2 = self@;
        let rec = ActivityRecord { timestamp: now, puzzle_id, solve_time_ms, gas_used, success };
        self.activities.push(player, rec);
        assert(self@ =~= history_stage(v2, player, rec));
        let ghost v3 = self@;
        self.update_behavioral_pattern(player, now, gas_used);
        assert(self@ == timing_stage(v3, player, now, gas_used));
        let ghost v4 = self@;
        let pat = self.patterns.get(player);
        assert(self@.patterns.contains_key(player));
        assert(self.patterns@.contains_key(player));
        assert(pat is Some && pat.unwrap()@ == v4.patterns[player]);
        let p2 = with_trust(p, pat, now);
        assert(p2 == trust_after(p, Some(v4.patterns[player]), now));
        self.set_profile(player, p2);
        Ok(())
    }
}

} // verus!

verus! {

impl AntiBot {
    /// Counts an attempt of the player at `now` against their rate limit
    /// (see `check_rate_spec`).
    pub fn check_rate_limit(&mut self, player: u64, now: u64) -> (r: Result<(), AntiBotError>)
        requires
            check_rate_fits(old(self)@, player, now),
        ensures
            (final(self)@, r) == check_rate_spec(old(self)@, player, now),
    {
        let mut w = self.get_rate_limit_status(player, now);
        if now - w.window_start > self.config.rate_limit_window_seconds {
            w.window_start = now;
            w.attempt_count = 0;
        }
        assert(w == current_window(old(self)@, player, now));
        if w.attempt_count >= self.config.max_attempts_per_window {
            self.record_suspicious_activity(player, ActivityType::RateLimitViolation, String::from_str("rate_lim"), 6, now);
            return Err(AntiBotError::RateLimitExceeded);
        }
        w.attempt_count = w.attempt_count + 1;
        w.last_attempt = now;
        self.rate_limits.insert(player, w);
        assert(self@ =~= check_rate_spec(old(self)@, player, now).0);
        Ok(())
    }

    /// The player's rate window (a fresh one starting at `now` when none).
    pub fn get_rate_limit_status(&self, player: u64, now: u64) -> (w: RateLimitWindow)
        ensures
            w == rate_window_at(self@, player, now),
    {
        match self.rate_limits.get(player) {
            Some(w) => *w,
            None => RateLimitWindow { window_start: now, attempt_count: 0, last_attempt: 0 },
        }
    }

    /// The player's timing pattern, if any.
    pub fn get_behavioral_pattern(&self, player: u64) -> (r: Option<BehavioralPattern>)
        ensures
            r is Some <==> self@.patterns.contains_key(player),
            r matches Some(p) ==> p@ == self@.patterns[player],
    {
        match self.patterns.get(player) {
            Some(p) => Some(p.clone()),
            None => None,
        }
    }

    /// Analyses the player at `now` (storing their profile when new); see
    /// `analysis_of`.
    pub fn analyze_player(&mut self, player: u64, now: u64) -> (r: Result<PlayerAnalysis, AntiBotError>)
        requires
            analyze_fits(old(self)@, player, now),
        ensures
            r is Ok,
            r matches Ok(a) ==> (final(self)@, a@) == analyze_spec(old(self)@, player, now),
    {
        let p = self.get_or_create_profile(player, now);
        let ghost v0 = old(self)@;
        let ghost pat = pattern_at(v0, player);
        let fast = p.consecutive_fast_solves >= 3;
        let fails = p.failed_attempts > p.successful_attempts * 2;
        let (cons, gas, low_var) = match self.patterns.get(player) {
            Some(q) => (q.consistency_score > 800, q.gas_pattern_variance > 700, q.pattern_variance < 100),
            None => (false, false, false),
        };
        assert(cons == (pat matches Some(q) && q.consistency_score > 800));
        assert(gas == (pat matches Some(q) && q.gas_pattern_variance > 700));
        assert(low_var == (pat matches Some(q) && q.pattern_variance < 100));
        let low_trust = p.trust_score < 300;
        let mut risks: Vec<RiskFactor> = Vec::new();
        let mut prob: u32 = 0;
        if fast {
            risks.push(RiskFactor::FastSolves);
            prob = prob + 30;
        }
        assert(risks@ =~= crate::anti_bot_spec::risk_if(fast, RiskFactor::FastSolves));
        let ghost r1 = risks@;
        if fails {
            risks.push(RiskFactor::HighFailureRate);
            prob = prob + 20;
        }
        assert(risks@ =~= r1 + crate::anti_bot_spec::risk_if(fails, RiskFactor::HighFailureRate));
        let ghost r2 = risks@;
        if cons {
            risks.push(RiskFactor::ConsistentTiming);
            prob = prob + 25;
        }
        assert(risks@ =~= r2 + crate::anti_bot_spec::risk_if(cons, RiskFactor::ConsistentTiming));
        let ghost r3 = risks@;
        if gas {
            risks.push(RiskFactor::GasPattern);
            prob = prob + 15;
        }
        assert(risks@ =~= r3 + crate::anti_bot_spec::risk_if(gas, RiskFactor::GasPattern));
        let ghost r4 = risks@;
        if low_var {
            risks.push(RiskFactor::LowVariance);
            prob = prob + 20;
        }
        assert(risks@ =~= r4 + crate::anti_bot_spec::risk_if(low_var, RiskFactor::LowVariance));
        let ghost r5 = risks@;
        if low_trust {
            risks.push(RiskFactor::LowTrust);
            prob = prob + 20;
        }
        assert(risks@ =~= r5 + crate::anti_bot_spec::risk_if(low_trust, RiskFactor::LowTrust));
        let recommendation = if prob > 70 {
            Recommendation::Block
        } else if prob > 40 {
            Recommendation::Verify
        } else {
            Recommendation::Allow
        };
        let a = PlayerAnalysis {
            player,
            trust_score: p.trust_score,
            bot_probability: if prob <= 100 { prob } else { 100 },
            risk_factors: risks,
            recommendation,
            status: p.status,
        };
        let ghost expected = analysis_of(player, p, pat);
        assert(a@.risk_factors =~= expected.risk_factors);
        assert(a@.bot_probability == expected.bot_probability);
        assert(a@.recommendation == expected.recommendation);
        assert(a@ == expected);
        Ok(a)
    }

    /// Flags the player at `now` (the verifier has authorised) and records
    /// the reason as a suspicious activity of the given severity.
    pub fn flag_player(&mut self, player: u64, reason: String, severity: u32, now: u64) -> (r: Result<(), AntiBotError>)
        requires
            susp_room(old(self)@, player),
        ensures
            r is Ok,
            final(self)@ == record_susp(
                with_profile(old(self)@, player, PlayerProfile { status: PlayerStatus::Flagged.spec_code(), ..profile_at(old(self)@, player, now) }),
                player,
                ActivityType::SuspiciousTiming,
                reason@,
                severity,
                now,
            ),
    {
        let mut p = self.profile_or_new(player, now);
        p.status = PlayerStatus::Flagged.code();
        self.set_profile(player, p);
        self.record_suspicious_activity(player, ActivityType::SuspiciousTiming, reason, severity, now);
        Ok(())
    }

    /// The admin (who has authorised) clears a flagged or suspicious player
    /// at `now`, who becomes verified; any other player is refused
    /// (`Unauthorized`), their profile stored as it is.
    pub fn unflag_player(&mut self, player: u64, now: u64) -> (r: Result<(), AntiBotError>)
        ensures
            ({
                let p = profile_at(old(self)@, player, now);
                if p.status == PlayerStatus::Flagged.spec_code() || p.status == PlayerStatus::Suspicious.spec_code() {
                    r is Ok && final(self)@ == with_profile(old(self)@, player, PlayerProfile { status: PlayerStatus::Verified.spec_code(), ..p })
                } else {
                    r == Err::<(), AntiBotError>(AntiBotError::Unauthorized) && final(self)@ == ensure_profile(old(self)@, player, now)
                }
            }),
    {
        let mut p = self.get_or_create_profile(player, now);
        if p.status == PlayerStatus::Flagged.code() || p.status == PlayerStatus::Suspicious.code() {
            p.status = PlayerStatus::Verified.code();
            self.set_profile(player, p);
            assert(self@.profiles =~= with_profile(old(self)@, player, p).profiles);
            Ok(())
        } else {
            Err(AntiBotError::Unauthorized)
        }
    }

    /// The suspicious activities of the player from `offset`, at most `limit`.
    pub fn get_suspicious_activities(&self, player: u64, offset: u32, limit: u32) -> (r: Vec<SuspiciousActivity>)
        requires
            offset + limit <= u32::MAX,
            seq_at(self@.suspicious, player).len() <= u32::MAX,
        ensures
            ({
                let s = seq_at(self@.suspicious, player);
                let start = min_u(offset as int, s.len() as int);
                let end = min_u(offset + limit, s.len() as int);
                susp_views(r@) == s.subrange(start, end)
            }),
    {
        let mut r: Vec<SuspiciousActivity> = Vec::new();
        match self.suspicious.get(player) {
            Some(list) => {
                let count: usize = list.len();
                let first = offset as usize;
                let last = offset as usize + limit as usize;
                let start: usize = if first <= count { first } else { count };
                let end: usize = if last <= count { last } else { count };
                let mut i: usize = start;
                while i < end
                    invariant
                        start <= i <= end,
                        end <= list@.len(),
                        susp_views(r@) == susp_views(list@).subrange(start as int, i as int),
                    decreases end - i,
                {
                    let c = list[i].clone();
                    let ghost before = r@;
                    r.push(c);
                    assert(susp_views(r@) =~= susp_views(before).push(c@));
                    i = i + 1;
                    assert(susp_views(r@) =~= susp_views(list@).subrange(start as int, i as int));
                }
            },
            None => {
                assert(susp_views(r@) =~= Seq::<SuspiciousView>::empty());
            },
        }
        r
    }

    /// Sets the time window of a puzzle (the admin has authorised); the
    /// submission period and the solve-time range must each be non-empty.
    pub fn set_time_window(
        &mut self,
        puzzle_id: u32,
        min_solve_time_ms: u64,
        max_solve_time_ms: u64,
        submission_start: u64,
        submission_end: u64,
        grace_period_ms: u64,
    ) -> (r: Result<(), AntiBotError>)
        ensures
            r is Err <==> submission_end <= submission_start || min_solve_time_ms >= max_solve_time_ms,
            r is Err ==> r->Err_0 == AntiBotError::InvalidWindow && final(self)@ == old(self)@,
            r is Ok ==> final(self)@ == (AntiBotView {
                time_windows: old(self)@.time_windows.insert(puzzle_id as u64, TimeWindow {
                    puzzle_id,
                    min_solve_time_ms,
                    max_solve_time_ms,
                    submission_start,
                    submission_end,
                    grace_period_ms,
                }),
                ..old(self)@
            }),
    {
        if submission_end <= submission_start {
            return Err(AntiBotError::InvalidWindow);
        }
        if min_solve_time_ms >= max_solve_time_ms {
            return Err(AntiBotError::InvalidWindow);
        }
        self.time_windows.insert(puzzle_id as u64, TimeWindow {
            puzzle_id,
            min_solve_time_ms,
            max_solve_time_ms,
            submission_start,
            submission_end,
            grace_period_ms,
        });
        Ok(())
    }

    /// Checks a submission's timing (see `validate_spec`).
    pub fn validate_submission_time(&mut self, player: u64, puzzle_id: u32, solve_time_ms: u64, now: u64) -> (r: Result<bool, AntiBotError>)
        requires
            validate_fits(old(self)@, player, puzzle_id),
        ensures
            (final(self)@, r) == validate_spec(old(self)@, player, puzzle_id, solve_time_ms, now),
    {
        let w = match self.time_windows.get(puzzle_id as u64) {
            Some(w) => *w,
            None => {
                return Err(AntiBotError::InvalidWindow);
            },
        };
        if now < w.submission_start || now > w.submission_end + (w.grace_period_ms / 1000) {
            self.record_suspicious_activity(player, ActivityType::TimestampManipulation, String::from_str("time_win"), 6, now);
            return Err(AntiBotError::TimeWindowInvalid);
        }
        if solve_time_ms < w.min_solve_time_ms {
            self.record_suspicious_activity(player, ActivityType::TooFastSolve, String::from_str("min_time"), 7, now);
            return Ok(false);
        }
        if solve_time_ms > w.max_solve_time_ms {
            return Ok(false);
        }
        Ok(true)
    }

    pub fn get_time_window(&self, puzzle_id: u32) -> (r: Option<TimeWindow>)
        ensures
            r == (if self@.time_windows.contains_key(puzzle_id as u64) { Some(self@.time_windows[puzzle_id as u64]) } else { None }),
    {
        match self.time_windows.get(puzzle_id as u64) {
            Some(w) => Some(*w),
            None => None,
        }
    }

    /// The player's trust score (their profile stored when new).
    pub fn get_trust_score(&mut self, player: u64, now: u64) -> (t: u32)
        ensures
            t == profile_at(old(self)@, player, now).trust_score,
            final(self)@ == ensure_profile(old(self)@, player, now),
    {
        self.get_or_create_profile(player, now).trust_score
    }

    /// The player's reputation tier (their profile stored when new).
    pub fn get_reputation_tier(&mut self, player: u64, now: u64) -> (t: u32)
        ensures
            t == profile_at(old(self)@, player, now).reputation_tier,
            final(self)@ == ensure_profile(old(self)@, player, now),
    {
        self.get_or_create_profile(player, now).reputation_tier
    }
}

/// The smaller of two numbers.
pub open spec fn min_u(a: int, b: int) -> int {
    if a <= b { a } else { b }
}

} // verus!

verus! {

impl AntiBot {
    /// Applies a penalty to the player at `now` (the verifier has
    /// authorised) and returns its id; see `apply_penalty_spec`.
    pub fn apply_penalty(&mut self, player: u64, penalty_type: PenaltyType, reason: String, severity: u32, now: u64) -> (r: Result<u32, AntiBotError>)
        requires
            apply_penalty_fits(old(self)@, player, penalty_type, severity, now),
        ensures
            r is Ok,
            r matches Ok(id) ==> (final(self)@, id) == apply_penalty_spec(old(self)@, player, penalty_type, reason@, severity, now),
    {
        let ghost v = self@;
        let ghost rv = reason@;
        let penalty_id = self.penalty_counter + 1;
        self.penalty_counter = penalty_id;
        let hours = self.config.default_penalty_hours;
        let expires_at = match penalty_type {
            PenaltyType::Warning => now,
            PenaltyType::TemporaryBan => now + hours * 3600,
            PenaltyType::ExtendedBan => now + hours * 3600 * 7,
            PenaltyType::PermanentBan => u64::MAX,
            PenaltyType::ScoreReduction => now,
            PenaltyType::VerificationRequired => now + hours * 3600,
        };
        let pen = PenaltyRecord {
            penalty_id,
            player,
            penalty_type,
            reason,
            severity,
            applied_at: now,
            expires_at,
            active: true,
        };
        let ghost pv = pen@;
        self.penalties.insert(penalty_id as u64, pen);
        self.player_penalties.push(player, penalty_id);
        let ghost v1 = self@;
        assert(v1.penalties =~= v.penalties.insert(penalty_id as u64, pv));
        let mut p = self.profile_or_new(player, now);
        p.penalty_count = p.penalty_count + 1;
        p.status = PlayerStatus::Penalized.code();
        if penalty_type == PenaltyType::ScoreReduction {
            let reduction = if severity * 50 <= 300 { severity * 50 } else { 300 };
            p.trust_score = p.trust_score.saturating_sub(reduction);
        }
        self.set_profile(player, p);
        if penalty_type == PenaltyType::PermanentBan {
            self.blacklisted.insert(player, true);
        }
        assert(self@ =~= apply_penalty_spec(v, player, penalty_type, rv, severity, now).0);
        Ok(penalty_id)
    }

    pub fn get_penalty(&self, penalty_id: u32) -> (r: Option<PenaltyRecord>)
        ensures
            r is Some <==> self@.penalties.contains_key(penalty_id as u64),
            r matches Some(p) ==> p@ == self@.penalties[penalty_id as u64],
    {
        match self.penalties.get(penalty_id as u64) {
            Some(p) => Some(p.clone()),
            None => None,
        }
    }

    /// How many of the player's penalties are active and not over at `now`.
    fn count_active(&self, player: u64, now: u64) -> (n: u64)
        ensures
            n == active_count(self@, player, now),
    {
        let mut n: u64 = 0;
        match self.player_penalties.get(player) {
            Some(ids) => {
                let mut i: usize = 0;
                while i < ids.len()
                    invariant
                        i <= ids@.len(),
                        ids@ == seq_at(self@.player_penalties, player),
                        n == active_in(ids@.take(i as int), self@.penalties, now),
                        n <= i,
                    decreases ids@.len() - i,
                {
                    proof {
                        assert(ids@.take(i + 1).drop_last() =~= ids@.take(i as int));
                        assert(ids@.take(i + 1).last() == ids@[i as int]);
                    }
                    let counts = match self.penalties.get(ids[i] as u64) {
                        Some(pen) => pen.active && pen.expires_at > now,
                        None => false,
                    };
                    if counts {
                        n = n + 1;
                    }
                    i = i + 1;
                }
                assert(ids@.take(ids@.len() as int) =~= ids@);
            },
            None => {},
        }
        n
    }

    /// How many of the player's penalties are active and not over at `now`.
    pub fn get_active_penalties(&self, player: u64, now: u64) -> (n: u32)
        requires
            seq_at(self@.player_penalties, player).len() <= u32::MAX,
        ensures
            n == active_count(self@, player, now),
    {
        proof {
            lemma_active_in_bound(seq_at(self@.player_penalties, player), self@.penalties, now);
        }
        self.count_active(player, now) as u32
    }

    /// Lifts a penalty at `now` (the admin has authorised); see
    /// `remove_penalty_spec`. An unknown penalty is refused (`Unauthorized`).
    pub fn remove_penalty(&mut self, penalty_id: u32, now: u64) -> (r: Result<(), AntiBotError>)
        ensures
            match remove_penalty_spec(old(self)@, penalty_id, now) {
                Some(w) => r is Ok && final(self)@ == w,
                None => r == Err::<(), AntiBotError>(AntiBotError::Unauthorized) && final(self)@ == old(self)@,
            },
    {
        let ghost v = self@;
        let mut pen = match self.penalties.remove(penalty_id as u64) {
            Some(p) => p,
            None => {
                assert(self.penalties@ =~= old(self).penalties@);
                return Err(AntiBotError::Unauthorized);
            },
        };
        pen.active = false;
        let player = pen.player;
        let ghost pv = pen@;
        self.penalties.insert(penalty_id as u64, pen);
        let ghost v1 = self@;
        assert(v1.penalties =~= v.penalties.insert(penalty_id as u64, pv));
        assert(v1 == AntiBotView { penalties: v.penalties.insert(penalty_id as u64, pv), ..v });
        if self.count_active(player, now) == 0 {
            let mut p = self.profile_or_new(player, now);
            if p.status == PlayerStatus::Penalized.code() {
                p.status = PlayerStatus::Verified.code();
            }
            self.set_profile(player, p);
        }
        Ok(())
    }

    /// Whether the player may play as far as penalties go; see `penalty_check`.
    pub fn check_penalty_status(&self, player: u64, now: u64) -> (r: Result<(), AntiBotError>)
        ensures
            r == penalty_check(self@, player, now),
    {
        if self.is_blacklisted(player) {
            return Err(AntiBotError::BotDetected);
        }
        if self.count_active(player, now) > 0 {
            return Err(AntiBotError::PenaltyActive);
        }
        Ok(())
    }

    /// Whether a pending appeal against the penalty exists.
    fn has_pending_appeal(&self, penalty_id: u32) -> (b: bool)
        ensures
            b == pending_appeal_exists(self@, penalty_id),
    {
        let count = self.appeal_counter as u64;
        let mut i: u64 = 1;
        while i <= count
            invariant
                1 <= i <= count + 1,
                count == self@.appeal_counter,
                forall|j: u32| 1 <= j < i && #[trigger] self@.appeals.contains_key(j as u64) ==> !(self@.appeals[j as u64].penalty_id == penalty_id
                    && self@.appeals[j as u64].status == AppealStatus::Pending),
            decreases count + 1 - i,
        {
            match self.appeals.get(i) {
                Some(a) => {
                    if a.penalty_id == penalty_id && a.status == AppealStatus::Pending {
                        assert(self@.appeals.contains_key((i as u32) as u64));
                        return true;
                    }
                },
                None => {},
            }
            i = i + 1;
        }
        false
    }

    /// The player (who has authorised) appeals against a penalty at `now`;
    /// see `submit_appeal_spec`.
    pub fn submit_appeal(&mut self, player: u64, penalty_id: u32, reason: String, evidence: String, now: u64) -> (r: Result<u32, AntiBotError>)
        requires
            submit_appeal_fits(old(self)@, player, penalty_id, now),
        ensures
            (final(self)@, r) == submit_appeal_spec(old(self)@, player, penalty_id, reason@, evidence@, now),
    {
        let ghost v = self@;
        let applied_at = match self.penalties.get(penalty_id as u64) {
            Some(pen) => {
                if !pen.active {
                    return Err(AntiBotError::AppealNotFound);
                }
                pen.applied_at
            },
            None => {
                return Err(AntiBotError::AppealNotFound);
            },
        };
        if now > applied_at + self.config.appeal_period_days * 86400 {
            return Err(AntiBotError::AppealPeriodExpired);
        }
        if self.has_pending_appeal(penalty_id) {
            return Err(AntiBotError::AlreadyAppealed);
        }
        let appeal_id = self.appeal_counter + 1;
        self.appeal_counter = appeal_id;
        let a = Appeal {
            appeal_id,
            player,
            penalty_id,
            reason,
            evidence,
            submitted_at: now,
            status: AppealStatus::Pending,
            reviewed_by: None,
            reviewed_at: None,
            decision_reason: None,
        };
        let ghost av = a@;
        self.appeals.insert(appeal_id as u64, a);
        assert(self@.appeals =~= v.appeals.insert(appeal_id as u64, av));
        let mut p = self.profile_or_new(player, now);
        p.appeal_count = p.appeal_count + 1;
        p.status = PlayerStatus::AppealPending.code();
        self.set_profile(player, p);
        Ok(appeal_id)
    }

    /// The admin (who has authorised) decides a pending appeal at `now`;
    /// see `review_appeal_spec`.
    pub fn review_appeal(&mut self, appeal_id: u32, approved: bool, decision_reason: String, now: u64) -> (r: Result<(), AntiBotError>)
        requires
            old(self)@.appeals.contains_key(appeal_id as u64) ==> profile_at(old(self)@, old(self)@.appeals[appeal_id as u64].player, now).trust_score + 100 <= u32::MAX,
        ensures
            (final(self)@, r) == review_appeal_spec(old(self)@, appeal_id, approved, decision_reason@, now),
    {
        let ghost v = self@;
        let ghost dr = decision_reason@;
        let reviewer = self.config.admin;
        let mut a = match self.appeals.remove(appeal_id as u64) {
            Some(a) => a,
            None => {
                assert(self.appeals@ =~= old(self).appeals@);
                return Err(AntiBotError::AppealNotFound);
            },
        };
        if a.status != AppealStatus::Pending {
            self.appeals.insert(appeal_id as u64, a);
            assert(self.appeals@ =~= old(self).appeals@);
            return Err(AntiBotError::AppealNotFound);
        }
        a.status = if approved { AppealStatus::Approved } else { AppealStatus::Rejected };
        a.reviewed_by = Some(reviewer);
        a.reviewed_at = Some(now);
        a.decision_reason = Some(decision_reason);
        let player = a.player;
        let pid = a.penalty_id;
        let ghost av = a@;
        self.appeals.insert(appeal_id as u64, a);
        assert(self@.appeals =~= v.appeals.insert(appeal_id as u64, av));
        let mut p = self.get_or_create_profile(player, now);
        if approved {
            let _ = self.remove_penalty(pid, now);
            p.status = PlayerStatus::Verified.code();
            p.trust_score = if p.trust_score + 100 <= 1000 { p.trust_score + 100 } else { 1000 };
        } else {
            p.status = if self.count_active(player, now) > 0 { PlayerStatus::Penalized.code() } else { PlayerStatus::Verified.code() };
        }
        self.set_profile(player, p);
        Ok(())
    }

    pub fn get_appeal(&self, appeal_id: u32) -> (r: Option<Appeal>)
        ensures
            r is Some <==> self@.appeals.contains_key(appeal_id as u64),
            r matches Some(a) ==> a@ == self@.appeals[appeal_id as u64],
    {
        match self.appeals.get(appeal_id as u64) {
            Some(a) => Some(a.clone()),
            None => None,
        }
    }

    /// Whitelists the player at `now` (the admin has authorised).
    pub fn whitelist_player(&mut self, player: u64, now: u64) -> (r: Result<(), AntiBotError>)
        ensures
            r is Ok,
            final(self)@ == whitelist_spec(old(self)@, player, now),
    {
        self.whitelisted.insert(player, true);
        let mut p = self.profile_or_new(player, now);
        p.status = PlayerStatus::Whitelisted.code();
        p.trust_score = 1000;
        self.set_profile(player, p);
        Ok(())
    }

    /// Takes the player off the whitelist at `now` (the admin has authorised).
    pub fn remove_whitelist(&mut self, player: u64, now: u64) -> (r: Result<(), AntiBotError>)
        ensures
            r is Ok,
            final(self)@ == remove_whitelist_spec(old(self)@, player, now),
    {
        let _ = self.whitelisted.remove(player);
        let mut p = self.profile_or_new(player, now);
        p.status = PlayerStatus::Verified.code();
        p.trust_score = 800;
        self.set_profile(player, p);
        Ok(())
    }

    /// Blacklists the player at `now` (the admin has authorised), with a
    /// permanent ban of severity 10 for the reason.
    pub fn blacklist_player(&mut self, player: u64, reason: String, now: u64) -> (r: Result<(), AntiBotError>)
        requires
            apply_penalty_fits(old(self)@, player, PenaltyType::PermanentBan, 10, now),
        ensures
            r is Ok,
            final(self)@ == blacklist_spec(old(self)@, player, reason@, now),
    {
        self.blacklisted.insert(player, true);
        let mut p = self.profile_or_new(player, now);
        p.status = PlayerStatus::Blacklisted.code();
        p.trust_score = 0;
        self.set_profile(player, p);
        let _ = self.apply_penalty(player, PenaltyType::PermanentBan, reason, 10, now);
        Ok(())
    }

    /// Takes the player off the blacklist at `now` (the admin has authorised).
    pub fn remove_blacklist(&mut self, player: u64, now: u64) -> (r: Result<(), AntiBotError>)
        ensures
            r is Ok,
            final(self)@ == remove_blacklist_spec(old(self)@, player, now),
    {
        let _ = self.blacklisted.remove(player);
        let mut p = self.profile_or_new(player, now);
        p.status = PlayerStatus::Verified.code();
        p.trust_score = 300;
        self.set_profile(player, p);
        Ok(())
    }

    pub fn is_whitelisted(&self, player: u64) -> (b: bool)
        ensures
            b == is_listed(self@.whitelisted, player),
    {
        match self.whitelisted.get(player) {
            Some(b) => *b,
            None => false,
        }
    }

    pub fn is_blacklisted(&self, player: u64) -> (b: bool)
        ensures
            b == is_listed(self@.blacklisted, player),
    {
        match self.blacklisted.get(player) {
            Some(b) => *b,
            None => false,
        }
    }

    /// Replaces the configuration (the admin has authorised).
    pub fn update_config(&mut self, new_config: Config) -> (r: Result<(), AntiBotError>)
        ensures
            r is Ok,
            final(self)@ == (AntiBotView { config: new_config@, ..old(self)@ }),
    {
        self.config = new_config;
        Ok(())
    }

    pub fn get_config(&self) -> (r: Result<Config, AntiBotError>)
        ensures
            r is Ok,
            r matches Ok(c) ==> c@ == self@.config,
    {
        Ok(self.config.clone())
    }

    /// Adds a verifier (the admin has authorised).
    pub fn add_verifier(&mut self, verifier: u64) -> (r: Result<(), AntiBotError>)
        ensures
            r is Ok,
            final(self)@ == (AntiBotView { config: ConfigView { verifiers: old(self)@.config.verifiers.push(verifier), ..old(self)@.config }, ..old(self)@ }),
    {
        self.config.verifiers.push(verifier);
        Ok(())
    }

    /// Removes the first occurrence of a verifier, if any (the admin has authorised).
    pub fn remove_verifier(&mut self, verifier: u64) -> (r: Result<(), AntiBotError>)
        ensures
            r is Ok,
            final(self)@ == (AntiBotView { config: ConfigView { verifiers: old(self)@.config.verifiers.remove_value(verifier), ..old(self)@.config }, ..old(self)@ }),
    {
        crate::seqs::remove_value_u64(&mut self.config.verifiers, verifier);
        Ok(())
    }
}

/// A count of listed penalties is at most the list's length.
proof fn lemma_active_in_bound(ids: Seq<u32>, pens: Map<u64, PenaltyView>, now: u64)
    ensures
        active_in(ids, pens, now) <= ids.len(),
    decreases ids.len(),
{
    if ids.len() > 0 {
        lemma_active_in_bound(ids.drop_last(), pens, now);
    }
}

} // verus!

verus! {

impl AntiBot {
    /// The full check of a submission of the player for a puzzle at `now`;
    /// see `verify_player_spec`.
    pub fn verify_player(&mut self, player: u64, puzzle_id: u32, solve_time_ms: u64, now: u64) -> (r: Result<VerificationResult, AntiBotError>)
        requires
            verify_player_fits(old(self)@, player, puzzle_id, solve_time_ms, now),
        ensures
            (final(self)@, r) == verify_player_spec(old(self)@, player, puzzle_id, solve_time_ms, now),
    {
        if self.is_whitelisted(player) {
            return Ok(VerificationResult { allowed: true, required_action: RequiredAction::NoAction, trust_score: 1000, bot_probability: 0 });
        }
        if self.is_blacklisted(player) {
            return Ok(VerificationResult { allowed: false, required_action: RequiredAction::Blocked, trust_score: 0, bot_probability: 100 });
        }
        match self.check_penalty_status(player, now) {
            Ok(()) => {},
            Err(_) => {
                let trust_score = self.profile_or_new(player, now).trust_score;
                return Ok(VerificationResult { allowed: false, required_action: RequiredAction::Blocked, trust_score, bot_probability: 0 });
            },
        }
        match self.check_rate_limit(player, now) {
            Ok(()) => {},
            Err(e) => {
                return Err(e);
            },
        }
        let time_valid = match self.validate_submission_time(player, puzzle_id, solve_time_ms, now) {
            Ok(b) => b,
            Err(e) => {
                return Err(e);
            },
        };
        if !time_valid {
            let trust_score = self.get_trust_score(player, now);
            return Ok(VerificationResult { allowed: false, required_action: RequiredAction::Retry, trust_score, bot_probability: 30 });
        }
        let ghost v2 = self@;
        let analysis = match self.analyze_player(player, now) {
            Ok(a) => a,
            Err(e) => {
                return Err(e);
            },
        };
        let ghost v3 = self@;
        let mut allowed = true;
        let mut required_action = RequiredAction::NoAction;
        match analysis.recommendation {
            Recommendation::Block => {
                allowed = false;
                required_action = RequiredAction::Blocked;
                if analysis.bot_probability > 85 {
                    let _ = self.apply_penalty(player, PenaltyType::TemporaryBan, String::from_str("bot_det"), 7, now);
                }
            },
            Recommendation::Verify => {
                let p = self.get_or_create_profile(player, now);
                assert(self@ =~= v3) by {
                    assert(self@.profiles =~= v3.profiles);
                }
                if p.status != PlayerStatus::Verified.code() {
                    allowed = false;
                    required_action = RequiredAction::Captcha;
                }
            },
            Recommendation::Allow => {},
        }
        if analysis.trust_score < 200 {
            allowed = false;
            required_action = RequiredAction::Verify;
        }
        Ok(VerificationResult { allowed, required_action, trust_score: analysis.trust_score, bot_probability: analysis.bot_probability })
    }
}

/// How long a penalty lasts, by its type, counted from when it is applied and
/// measured in the configured penalty hours: a temporary ban and a
/// verification requirement last those hours, an extended ban seven times as
/// long, a permanent ban never ends, and a warning or a score reduction ends
/// at once. The penalty is recorded as active, for the player, at `now`.
pub proof fn law_penalty_lengths(v: AntiBotView, player: u64, ty: PenaltyType, reason: Seq<char>, severity: u32, now: u64)
    requires
        apply_penalty_fits(v, player, ty, severity, now),
    ensures
        ({
            let (v2, id) = apply_penalty_spec(v, player, ty, reason, severity, now);
            let hour: int = 3600;
            let span = v.config.default_penalty_hours * hour;
            let pen = v2.penalties[id as u64];
            &&& v2.penalties.contains_key(id as u64)
            &&& pen.player == player && pen.penalty_type == ty && pen.applied_at == now && pen.active
            &&& pen.expires_at as int == (match ty {
                PenaltyType::Warning => now as int,
                PenaltyType::ScoreReduction => now as int,
                PenaltyType::TemporaryBan => now + span,
                PenaltyType::VerificationRequired => now + span,
                PenaltyType::ExtendedBan => now + 7 * span,
                PenaltyType::PermanentBan => u64::MAX as int,
            })
        }),
        expiry_of(PenaltyType::ExtendedBan, now, v.config.default_penalty_hours) - now
            == 7 * (expiry_of(PenaltyType::TemporaryBan, now, v.config.default_penalty_hours) - now),
{
}

/// A harder captcha (difficulty 1 to 5) asks for strictly more proof-of-work
/// iterations and accepts strictly fewer digests (a lower threshold).
pub proof fn law_harder_captcha(d1: u32, d2: u32)
    requires
        1 <= d1 < d2 <= 5,
    ensures
        min_iterations_of(d1) < min_iterations_of(d2),
        threshold_of(d1) > threshold_of(d2),
{
}

/// The reputation tier never falls as the trust score rises; it is 0 below
/// 200 and 5 from 900 on.
pub proof fn law_tier_follows_trust(t1: int, t2: int)
    requires
        t1 <= t2,
    ensures
        tier_of(t1) <= tier_of(t2),
        t1 < 200 ==> tier_of(t1) == 0,
        t2 >= 900 ==> tier_of(t2) == 5,
{
}

/// Rate limiting: an attempt passes exactly when fewer than the allowed
/// number were counted in the player's current window, and a passing attempt
/// leaves the window's count at most that number; a refused one is not counted.
pub proof fn law_rate_limit_caps_attempts(v: AntiBotView, player: u64, now: u64)
    ensures
        check_rate_spec(v, player, now).1 is Ok <==> current_window(v, player, now).attempt_count < v.config.max_attempts_per_window,
        check_rate_spec(v, player, now).1 is Ok ==> {
            let w = check_rate_spec(v, player, now).0.rate_limits[player];
            &&& w.attempt_count == current_window(v, player, now).attempt_count + 1
            &&& w.attempt_count <= v.config.max_attempts_per_window
            &&& w.window_start == current_window(v, player, now).window_start
        },
        check_rate_spec(v, player, now).1 is Err ==> check_rate_spec(v, player, now).0.rate_limits == v.rate_limits,
{
}

/// Approving a pending appeal lifts the penalty it is against, marks the
/// appeal approved and leaves the player verified.
pub proof fn law_approved_appeal_lifts_penalty(v: AntiBotView, appeal_id: u32, reason: Seq<char>, now: u64)
    requires
        v.appeals.contains_key(appeal_id as u64),
        v.appeals[appeal_id as u64].status == AppealStatus::Pending,
        v.penalties.contains_key(v.appeals[appeal_id as u64].penalty_id as u64),
    ensures
        ({
            let a = v.appeals[appeal_id as u64];
            let (v2, r) = review_appeal_spec(v, appeal_id, true, reason, now);
            &&& r is Ok
            &&& v2.penalties.contains_key(a.penalty_id as u64)
            &&& !v2.penalties[a.penalty_id as u64].active
            &&& v2.appeals[appeal_id as u64].status == AppealStatus::Approved
            &&& v2.profiles[a.player].status == PlayerStatus::Verified.spec_code()
        }),
{
}

/// Who passes the full check: a whitelisted player always does; a blacklisted
/// or penalised one never does, and checking them changes nothing; any other
/// player passes only with a trust score of at least 200. A player is allowed
/// exactly when no further action is asked of them.
pub proof fn law_verify_player_decides(v: AntiBotView, player: u64, puzzle_id: u32, solve: u64, now: u64)
    ensures
        is_listed(v.whitelisted, player) ==> (verify_player_spec(v, player, puzzle_id, solve, now).1 matches Ok(res) && res.allowed),
        !is_listed(v.whitelisted, player) && (is_listed(v.blacklisted, player) || active_count(v, player, now) > 0) ==> {
            &&& verify_player_spec(v, player, puzzle_id, solve, now).0 == v
            &&& (verify_player_spec(v, player, puzzle_id, solve, now).1 matches Ok(res) && !res.allowed
                && res.required_action == RequiredAction::Blocked)
        },
        verify_player_spec(v, player, puzzle_id, solve, now).1 matches Ok(res) ==> {
            &&& res.allowed <==> res.required_action == RequiredAction::NoAction
            &&& res.allowed && !is_listed(v.whitelisted, player) ==> res.trust_score >= 200
        },
{
}

} // verus!

verus! {

#[verifier::external_type_specification]
#[verifier::external_body]
pub struct ExHostEnv(soroban_sdk::Env);

/// The SHA-256 digest of a byte string, as the Soroban host computes it.
pub uninterp spec fn sha256_digest(data: Seq<u8>) -> Seq<u8>;

/// Hashes `data` with the host's SHA-256 (`soroban_sdk::crypto::Crypto::sha256`).
/// The contract claims only that the digest is a function of the bytes
/// alone; what that function is (SHA-256) is not stated.
#[verifier::external_body]
fn host_sha256(env: &soroban_sdk::Env, data: &Vec<u8>) -> (d: [u8; 32])
    ensures
        d@ == sha256_digest(data@),
{
    env.crypto().sha256(&soroban_sdk::Bytes::from_slice(env, data.as_slice())).to_array()
}

/// Whether two digests are equal.
fn same_digest(a: &[u8; 32], b: &[u8; 32]) -> (r: bool)
    ensures
        r == (a@ == b@),
{
    let mut i: usize = 0;
    while i < 32
        invariant
            i <= 32,
            a@.len() == 32,
            b@.len() == 32,
            forall|k: int| 0 <= k < i ==> a@[k] == b@[k],
        decreases 32 - i,
    {
        if a[i] != b[i] {
            return false;
        }
        i = i + 1;
    }
    assert(a@ =~= b@);
    true
}

impl AntiBot {
    /// Issues a challenge to the player at `now` whose target is the first
    /// four bytes of `digest`, with the configured difficulty and validity;
    /// the player's profile is created if missing. Returns the challenge.
    pub fn issue_challenge(&mut self, player: u64, digest: [u8; 32], now: u64) -> (r: Result<CaptchaChallenge, AntiBotError>)
        requires
            old(self)@.challenge_counter < u32::MAX,
            now + old(self)@.config.captcha_validity_seconds <= u64::MAX,
        ensures
            r is Ok,
            r matches Ok(c) ==> {
                &&& c.challenge_id == old(self)@.challenge_counter + 1
                &&& c.difficulty == old(self)@.config.captcha_difficulty
                &&& c.created_at == now
                &&& c.expires_at == now + old(self)@.config.captcha_validity_seconds
                &&& c.target_prefix@ == digest@.take(4)
                &&& c.min_iterations == min_iterations_of(c.difficulty)
                &&& final(self)@ == (AntiBotView {
                    challenge_counter: c.challenge_id,
                    challenges: old(self)@.challenges.insert(c.challenge_id as u64, c),
                    ..ensure_profile(old(self)@, player, now)
                })
            },
    {
        self.get_or_create_profile(player, now);
        let id = self.challenge_counter + 1;
        self.challenge_counter = id;
        let difficulty = self.config.captcha_difficulty;
        let min_iterations: u32 = if difficulty == 1 {
            100
        } else if difficulty == 2 {
            500
        } else if difficulty == 3 {
            2000
        } else if difficulty == 4 {
            10000
        } else if difficulty == 5 {
            50000
        } else {
            500
        };
        let target_prefix: [u8; 4] = [digest[0], digest[1], digest[2], digest[3]];
        assert(target_prefix@ =~= digest@.take(4));
        let c = CaptchaChallenge {
            challenge_id: id,
            difficulty,
            created_at: now,
            expires_at: now + self.config.captcha_validity_seconds,
            target_prefix,
            min_iterations,
        };
        self.challenges.insert(id as u64, c);
        Ok(c)
    }

    /// Issues a proof-of-work challenge to the player (who has authorised)
    /// at `now`, its target taken from the hash of the time's low bytes.
    pub fn generate_captcha_challenge(&mut self, env: &soroban_sdk::Env, player: u64, now: u64) -> (r: Result<CaptchaChallenge, AntiBotError>)
        requires
            old(self)@.challenge_counter < u32::MAX,
            now + old(self)@.config.captcha_validity_seconds <= u64::MAX,
        ensures
            r is Ok,
            r matches Ok(c) ==> {
                &&& c.challenge_id == old(self)@.challenge_counter + 1
                &&& c.difficulty == old(self)@.config.captcha_difficulty
                &&& c.created_at == now
                &&& c.expires_at == now + old(self)@.config.captcha_validity_seconds
                &&& c.target_prefix@ == sha256_digest(seed_bytes(now)).take(4)
                &&& c.min_iterations == min_iterations_of(c.difficulty)
                &&& final(self)@ == (AntiBotView {
                    challenge_counter: c.challenge_id,
                    challenges: old(self)@.challenges.insert(c.challenge_id as u64, c),
                    ..ensure_profile(old(self)@, player, now)
                })
            },
    {
        let mut seed: Vec<u8> = Vec::new();
        seed.push((now & 0xff) as u8);
        seed.push(((now >> 8u64) & 0xff) as u8);
        seed.push(((now >> 16u64) & 0xff) as u8);
        seed.push(((now >> 24u64) & 0xff) as u8);
        assert(seed@ =~= seed_bytes(now));
        let digest = host_sha256(env, &seed);
        self.issue_challenge(player, digest, now)
    }

    /// Judges a proof for a challenge at `now` given the digest of the
    /// proof's bytes (see `settle_spec`).
    pub fn settle_captcha_proof(&mut self, player: u64, proof: CaptchaProof, digest: [u8; 32], now: u64) -> (r: Result<bool, AntiBotError>)
        requires
            susp_room(old(self)@, player),
        ensures
            (final(self)@, r) == settle_spec(old(self)@, player, proof, digest@, now),
    {
        let c = match self.challenges.get(proof.challenge_id as u64) {
            Some(c) => *c,
            None => {
                return Err(AntiBotError::ChallengeExpired);
            },
        };
        if now > c.expires_at {
            return Err(AntiBotError::ChallengeExpired);
        }
        if proof.iterations < c.min_iterations {
            return Err(AntiBotError::VerificationFailed);
        }
        if !same_digest(&digest, &proof.proof_hash) {
            return Err(AntiBotError::VerificationFailed);
        }
        let threshold: u16 = if c.difficulty == 1 {
            0x4000
        } else if c.difficulty == 2 {
            0x1000
        } else if c.difficulty == 3 {
            0x0400
        } else if c.difficulty == 4 {
            0x0100
        } else if c.difficulty == 5 {
            0x0040
        } else {
            0x1000
        };
        let prefix: u16 = ((digest[0] as u16) << 8u16) | (digest[1] as u16);
        assert(prefix == digest_prefix(digest@));
        if prefix < threshold {
            let mut p = self.profile_or_new(player, now);
            p.status = PlayerStatus::Verified.code();
            self.set_profile(player, p);
            Ok(true)
        } else {
            self.record_suspicious_activity(player, ActivityType::FailedCaptcha, String::from_str("bad_proof"), 5, now);
            Ok(false)
        }
    }

    /// Judges the player's (authorised) proof for a challenge at `now`: the
    /// proof's bytes are hashed and the digest judged by `settle_captcha_proof`.
    pub fn verify_captcha_proof(&mut self, env: &soroban_sdk::Env, player: u64, proof: CaptchaProof, now: u64) -> (r: Result<bool, AntiBotError>)
        requires
            susp_room(old(self)@, player),
        ensures
            (final(self)@, r) == settle_spec(old(self)@, player, proof, sha256_digest(proof_bytes(proof.challenge_id, proof.nonce)), now),
    {
        let id = proof.challenge_id;
        let nonce = proof.nonce;
        let mut data: Vec<u8> = Vec::new();
        data.push((id & 0xff) as u8);
        data.push(((id >> 8u32) & 0xff) as u8);
        data.push(((id >> 16u32) & 0xff) as u8);
        data.push(((id >> 24u32) & 0xff) as u8);
        data.push((nonce & 0xff) as u8);
        data.push(((nonce >> 8u64) & 0xff) as u8);
        data.push(((nonce >> 16u64) & 0xff) as u8);
        data.push(((nonce >> 24u64) & 0xff) as u8);
        data.push(((nonce >> 32u64) & 0xff) as u8);
        data.push(((nonce >> 40u64) & 0xff) as u8);
        data.push(((nonce >> 48u64) & 0xff) as u8);
        data.push(((nonce >> 56u64) & 0xff) as u8);
        assert(data@ =~= proof_bytes(id, nonce));
        let digest = host_sha256(env, &data);
        self.settle_captcha_proof(player, proof, digest, now)
    }
}

} // verus!
