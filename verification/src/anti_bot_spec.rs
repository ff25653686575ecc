//! The mathematical model of the anti-bot contract: the state as plain maps
//! and sequences, and each operation as a function on it.
use vstd::prelude::*;
use crate::anti_bot::{
    ActivityRecord, ActivityType, AntiBotError, AppealStatus, CaptchaChallenge, CaptchaProof,
    PenaltyType, PlayerProfile, PlayerStatus, RateLimitWindow, Recommendation, RequiredAction,
    RiskFactor, TimeWindow, VerificationResult,
};

verus! {

pub struct PatternView {
    pub avg_interaction_interval_ms: u64,
    pub pattern_variance: u32,
    pub consistency_score: u32,
    pub time_distribution: Seq<u64>,
    pub gas_pattern_variance: u32,
}

pub struct SuspiciousView {
    pub activity_type: ActivityType,
    pub timestamp: u64,
    pub evidence: Seq<char>,
    pub severity: u32,
}

pub struct PenaltyView {
    pub penalty_id: u32,
    pub player: u64,
    pub penalty_type: PenaltyType,
    pub reason: Seq<char>,
    pub severity: u32,
    pub applied_at: u64,
    pub expires_at: u64,
    pub active: bool,
}

pub struct AppealView {
    pub appeal_id: u32,
    pub player: u64,
    pub penalty_id: u32,
    pub reason: Seq<char>,
    pub evidence: Seq<char>,
    pub submitted_at: u64,
    pub status: AppealStatus,
    pub reviewed_by: Option<u64>,
    pub reviewed_at: Option<u64>,
    pub decision_reason: Option<Seq<char>>,
}

pub struct ConfigView {
    pub admin: u64,
    pub verifiers: Seq<u64>,
    pub max_attempts_per_window: u32,
    pub rate_limit_window_seconds: u64,
    pub min_solve_time_threshold_ms: u64,
    pub suspicious_solve_time_ms: u64,
    pub captcha_difficulty: u32,
    pub captcha_validity_seconds: u64,
    pub pattern_analysis_window: u32,
    pub max_consecutive_fast_solves: u32,
    pub appeal_period_days: u64,
    pub default_penalty_hours: u64,
    pub trust_score_threshold: u32,
    pub reputation_contract: Option<u64>,
}

pub struct AnalysisView {
    pub player: u64,
    pub trust_score: u32,
    pub bot_probability: u32,
    pub risk_factors: Seq<RiskFactor>,
    pub recommendation: Recommendation,
    pub status: u32,
}

/// The whole state of the contract.
pub struct AntiBotView {
    pub config: ConfigView,
    pub challenge_counter: u32,
    pub penalty_counter: u32,
    pub appeal_counter: u32,
    pub profiles: Map<u64, PlayerProfile>,
    pub activities: Map<u64, Seq<ActivityRecord>>,
    pub rate_limits: Map<u64, RateLimitWindow>,
    pub patterns: Map<u64, PatternView>,
    pub challenges: Map<u64, CaptchaChallenge>,
    pub suspicious: Map<u64, Seq<SuspiciousView>>,
    pub penalties: Map<u64, PenaltyView>,
    pub player_penalties: Map<u64, Seq<u32>>,
    pub appeals: Map<u64, AppealView>,
    pub time_windows: Map<u64, TimeWindow>,
    pub whitelisted: Map<u64, bool>,
    pub blacklisted: Map<u64, bool>,
}

/// The list under a key (empty when there is none).
pub open spec fn seq_at<T>(m: Map<u64, Seq<T>>, k: u64) -> Seq<T> {
    if m.contains_key(k) { m[k] } else { Seq::empty() }
}

/// Whether a flag map holds `true` for the key.
pub open spec fn is_listed(m: Map<u64, bool>, k: u64) -> bool {
    m.contains_key(k) && m[k]
}

/// `a - b`, or 0 when `b` is larger.
pub open spec fn sat_sub(a: int, b: int) -> int {
    if a >= b { a - b } else { 0 }
}

pub open spec fn min_int(a: int, b: int) -> int {
    if a <= b { a } else { b }
}

// ───────────── profiles ─────────────

/// The profile a player gets when first seen at `now`: unverified, with a
/// neutral trust score of 500 and the tier of that score.
pub open spec fn new_profile(player: u64, now: u64) -> PlayerProfile {
    PlayerProfile {
        address: player,
        status: 0,
        trust_score: 500,
        total_attempts: 0,
        successful_attempts: 0,
        failed_attempts: 0,
        avg_solve_time_ms: 0,
        first_seen: now,
        last_activity: now,
        consecutive_fast_solves: 0,
        reputation_tier: 2,
        penalty_count: 0,
        appeal_count: 0,
    }
}

/// The player's profile, or the one they get when first seen at `now`.
pub open spec fn profile_at(v: AntiBotView, player: u64, now: u64) -> PlayerProfile {
    if v.profiles.contains_key(player) { v.profiles[player] } else { new_profile(player, now) }
}

pub open spec fn with_profile(v: AntiBotView, player: u64, p: PlayerProfile) -> AntiBotView {
    AntiBotView { profiles: v.profiles.insert(player, p), ..v }
}

/// The state with the player's profile stored (created when missing).
pub open spec fn ensure_profile(v: AntiBotView, player: u64, now: u64) -> AntiBotView {
    with_profile(v, player, profile_at(v, player, now))
}

// ───────────── suspicious activity ─────────────

/// How many of the activities have severity 7 or more.
pub open spec fn high_count(s: Seq<SuspiciousView>) -> nat
    decreases s.len(),
{
    if s.len() == 0 {
        0
    } else {
        high_count(s.drop_last()) + if s.last().severity >= 7 { 1nat } else { 0nat }
    }
}

/// Records a suspicious activity of the player at `now`. A player who is
/// not already flagged, penalised or blacklisted is flagged when the
/// severity is 8 or more, or when they have 5 or more records of which at
/// least 2 have severity 7 or more. The profile is stored either way.
pub open spec fn record_susp(v: AntiBotView, player: u64, ty: ActivityType, evidence: Seq<char>, severity: u32, now: u64) -> AntiBotView {
    let list = seq_at(v.suspicious, player).push(SuspiciousView { activity_type: ty, timestamp: now, evidence, severity });
    let v1 = AntiBotView { suspicious: v.suspicious.insert(player, list), ..v };
    let p = profile_at(v1, player, now);
    let flag = p.status != PlayerStatus::Flagged.spec_code() && p.status != PlayerStatus::Penalized.spec_code()
        && p.status != PlayerStatus::Blacklisted.spec_code() && (severity >= 8 || (list.len() >= 5 && high_count(list) >= 2));
    with_profile(v1, player, if flag { PlayerProfile { status: PlayerStatus::Flagged.spec_code(), ..p } } else { p })
}

/// Whether the player's suspicious-activity count can grow by one.
pub open spec fn susp_room(v: AntiBotView, player: u64) -> bool {
    seq_at(v.suspicious, player).len() < u32::MAX
}

// ───────────── behavioural patterns ─────────────

pub open spec fn default_pattern() -> PatternView {
    PatternView {
        avg_interaction_interval_ms: 0,
        pattern_variance: 500,
        consistency_score: 500,
        time_distribution: Seq::empty(),
        gas_pattern_variance: 500,
    }
}

pub open spec fn pattern_or_default(v: AntiBotView, player: u64) -> PatternView {
    if v.patterns.contains_key(player) { v.patterns[player] } else { default_pattern() }
}

/// The last `window` timestamps (all of them when fewer).
pub open spec fn kept_times(d: Seq<u64>, window: u32) -> Seq<u64> {
    if d.len() > window { d.subrange(d.len() - window, d.len() as int) } else { d }
}

/// The distance of the `i`-th interval between timestamps from `avg`.
pub open spec fn interval_diff(d: Seq<u64>, avg: int, i: int) -> int {
    let x = d[i + 1] - d[i];
    if x > avg { x - avg } else { avg - x }
}

/// The sum of the squared distances of the first `k` intervals from `avg`.
pub open spec fn var_sum(d: Seq<u64>, avg: int, k: int) -> int
    decreases k,
{
    if k <= 0 {
        0
    } else {
        var_sum(d, avg, k - 1) + interval_diff(d, avg, k - 1) * interval_diff(d, avg, k - 1)
    }
}

/// The timestamps after adding one.
pub open spec fn times_after(base: PatternView, ts: u64, window: u32) -> Seq<u64> {
    kept_times(base.time_distribution.push(ts), window)
}

/// The average interval of at least three timestamps in order.
pub open spec fn avg_interval(d: Seq<u64>) -> int {
    (d.last() - d[0]) / (d.len() - 1)
}

/// The pattern after an interaction at `ts` using `gas`: the timestamp is
/// kept among the last `window`; with three or more, the average interval,
/// the variance of the intervals (scaled to 0..1000, capped) and its
/// complement as the consistency score are recomputed, and a positive gas
/// use marks the gas pattern as suspicious (900) when it is a multiple of
/// 1000 and as normal (400) otherwise.
pub open spec fn pattern_after(base: PatternView, ts: u64, gas: u64, window: u32) -> PatternView {
    let d = times_after(base, ts, window);
    if d.len() >= 3 {
        let n = d.len() - 1;
        let avg = avg_interval(d);
        let variance = var_sum(d, avg, n) / n;
        let pv = min_int(variance, 1_000_000) / 1000;
        PatternView {
            avg_interaction_interval_ms: avg as u64,
            pattern_variance: pv as u32,
            consistency_score: (1000 - pv) as u32,
            time_distribution: d,
            gas_pattern_variance: if gas > 0 {
                if gas % 1000 == 0 { 900 } else { 400 }
            } else {
                base.gas_pattern_variance
            },
        }
    } else {
        PatternView { time_distribution: d, ..base }
    }
}

/// Whether the pattern update's arithmetic stays in range: the kept
/// timestamps are in order and the squared distances sum within 64 bits.
pub open spec fn pattern_fits(base: PatternView, ts: u64, window: u32) -> bool {
    let d = times_after(base, ts, window);
    &&& forall|i: int| 0 <= i < d.len() - 1 ==> #[trigger] d[i] <= d[i + 1]
    &&& d.len() >= 3 ==> var_sum(d, avg_interval(d), d.len() - 1) <= u64::MAX
}

// ───────────── trust ─────────────

/// The reputation tier of a trust score.
pub open spec fn tier_of(t: int) -> u32 {
    if t <= 199 {
        0
    } else if t <= 399 {
        1
    } else if t <= 599 {
        2
    } else if t <= 749 {
        3
    } else if t <= 899 {
        4
    } else {
        5
    }
}

/// The trust score of a profile at `now`: 500, plus up to 300 for the
/// success rate, plus 10 per day of age up to 100, minus 100 for a very
/// consistent timing pattern or plus 50 for a varied one, minus 50 per
/// penalty and 20 per consecutive fast solve (never below 0), at most 1000.
pub open spec fn trust_score_of(p: PlayerProfile, pat: Option<PatternView>, now: u64) -> int {
    let s1: int = if p.total_attempts > 0 {
        500 + min_int((p.successful_attempts * 300) / p.total_attempts as int, 300)
    } else {
        500
    };
    let age = (now - p.first_seen) / 86400;
    let s2 = s1 + min_int(age * 10, 100);
    let s3 = match pat {
        Some(q) => if q.consistency_score > 800 {
            sat_sub(s2, 100)
        } else if q.consistency_score < 300 {
            s2 + 50
        } else {
            s2
        },
        None => s2,
    };
    let s4 = sat_sub(s3, p.penalty_count * 50);
    let s5 = if p.consecutive_fast_solves > 0 { sat_sub(s4, p.consecutive_fast_solves * 20) } else { s4 };
    min_int(s5, 1000)
}

/// The profile with its trust score, tier and (for an unverified player
/// reaching 800) status recomputed.
pub open spec fn trust_after(p: PlayerProfile, pat: Option<PatternView>, now: u64) -> PlayerProfile {
    let t = trust_score_of(p, pat, now);
    PlayerProfile {
        trust_score: t as u32,
        status: if t >= 800 && p.status == 0 { 1 } else { p.status },
        reputation_tier: tier_of(t),
        ..p
    }
}

/// Whether recomputing the trust score stays in range.
pub open spec fn trust_fits(p: PlayerProfile, now: u64) -> bool {
    &&& p.successful_attempts * 300 <= u32::MAX
    &&& p.penalty_count * 50 <= u32::MAX
    &&& p.consecutive_fast_solves * 20 <= u32::MAX
    &&& p.first_seen <= now
}

// ───────────── activity ─────────────

/// The profile after an attempt's counters are updated.
pub open spec fn stats_after(p: PlayerProfile, c: ConfigView, solve: u64, success: bool, now: u64) -> PlayerProfile {
    let succ = if success { p.successful_attempts + 1 } else { p.successful_attempts as int };
    let fast = success && solve < c.min_solve_time_threshold_ms;
    PlayerProfile {
        total_attempts: (p.total_attempts + 1) as u32,
        last_activity: now,
        successful_attempts: succ as u32,
        failed_attempts: if success { p.failed_attempts } else { (p.failed_attempts + 1) as u32 },
        consecutive_fast_solves: if fast { (p.consecutive_fast_solves + 1) as u32 } else { 0 },
        avg_solve_time_ms: if success && succ > 0 {
            ((p.avg_solve_time_ms * (succ - 1) + solve) / succ) as u64
        } else {
            p.avg_solve_time_ms
        },
        ..p
    }
}

pub open spec fn stats_fit(p: PlayerProfile, solve: u64, success: bool) -> bool {
    &&& p.total_attempts < u32::MAX
    &&& success ==> p.successful_attempts < u32::MAX
    &&& !success ==> p.failed_attempts < u32::MAX
    &&& p.consecutive_fast_solves < u32::MAX
    &&& success ==> p.avg_solve_time_ms * p.successful_attempts + solve <= u64::MAX
}

/// A too-fast solve (under the suspicious threshold) is recorded as suspicious.
pub open spec fn fast_stage(v0: AntiBotView, player: u64, solve: u64, success: bool, now: u64) -> AntiBotView {
    let c = v0.config;
    if success && solve < c.min_solve_time_threshold_ms && solve < c.suspicious_solve_time_ms {
        record_susp(v0, player, ActivityType::TooFastSolve, "fast_slv"@, 7, now)
    } else {
        v0
    }
}

/// A run of fast solves as long as the configured maximum is recorded as suspicious.
pub open spec fn run_stage(v1: AntiBotView, player: u64, p1: PlayerProfile, now: u64) -> AntiBotView {
    if p1.consecutive_fast_solves >= v1.config.max_consecutive_fast_solves {
        record_susp(v1, player, ActivityType::PatternMatch, "bot_patt"@, 8, now)
    } else {
        v1
    }
}

/// The attempt joins the player's history.
pub open spec fn history_stage(v2: AntiBotView, player: u64, rec: ActivityRecord) -> AntiBotView {
    AntiBotView { activities: v2.activities.insert(player, seq_at(v2.activities, player).push(rec)), ..v2 }
}

/// The player's timing pattern takes in an interaction at `ts`.
pub open spec fn timing_stage(v3: AntiBotView, player: u64, ts: u64, gas: u64) -> AntiBotView {
    AntiBotView {
        patterns: v3.patterns.insert(player, pattern_after(pattern_or_default(v3, player), ts, gas, v3.config.pattern_analysis_window)),
        ..v3
    }
}

/// Records an attempt of the player at `now`: the profile's counters are
/// updated, a too-fast solve and a run of fast solves are recorded as
/// suspicious, the attempt joins the history, the timing pattern is
/// updated, and the trust score is recomputed from the new pattern.
pub open spec fn record_activity_spec(v: AntiBotView, player: u64, puzzle_id: u32, solve: u64, gas: u64, success: bool, now: u64) -> AntiBotView {
    let p1 = stats_after(profile_at(v, player, now), v.config, solve, success, now);
    let v1 = fast_stage(ensure_profile(v, player, now), player, solve, success, now);
    let v2 = run_stage(v1, player, p1, now);
    let v3 = history_stage(v2, player, ActivityRecord { timestamp: now, puzzle_id, solve_time_ms: solve, gas_used: gas, success });
    let v4 = timing_stage(v3, player, now, gas);
    with_profile(v4, player, trust_after(p1, Some(v4.patterns[player]), now))
}

/// Whether recording the activity stays in range.
pub open spec fn record_activity_fits(v: AntiBotView, player: u64, puzzle_id: u32, solve: u64, gas: u64, success: bool, now: u64) -> bool {
    let p0 = profile_at(v, player, now);
    let p1 = stats_after(p0, v.config, solve, success, now);
    let v0 = ensure_profile(v, player, now);
    let v1 = fast_stage(v0, player, solve, success, now);
    let v2 = run_stage(v1, player, p1, now);
    let v3 = history_stage(v2, player, ActivityRecord { timestamp: now, puzzle_id, solve_time_ms: solve, gas_used: gas, success });
    &&& stats_fit(p0, solve, success)
    &&& susp_room(v0, player)
    &&& susp_room(v1, player)
    &&& seq_at(v2.activities, player).len() < u32::MAX
    &&& pattern_fits(pattern_or_default(v3, player), now, v.config.pattern_analysis_window)
    &&& trust_fits(p1, now)
}

// ───────────── rate limits ─────────────

pub open spec fn rate_window_at(v: AntiBotView, player: u64, now: u64) -> RateLimitWindow {
    if v.rate_limits.contains_key(player) {
        v.rate_limits[player]
    } else {
        RateLimitWindow { window_start: now, attempt_count: 0, last_attempt: 0 }
    }
}

/// The player's window at `now`, restarted when the current one is over.
pub open spec fn current_window(v: AntiBotView, player: u64, now: u64) -> RateLimitWindow {
    let w = rate_window_at(v, player, now);
    if now - w.window_start > v.config.rate_limit_window_seconds {
        RateLimitWindow { window_start: now, attempt_count: 0, ..w }
    } else {
        w
    }
}

/// Counts an attempt of the player at `now` in their rate window; one over
/// the limit is recorded as suspicious and refused.
pub open spec fn check_rate_spec(v: AntiBotView, player: u64, now: u64) -> (AntiBotView, Result<(), AntiBotError>) {
    let w = current_window(v, player, now);
    if w.attempt_count >= v.config.max_attempts_per_window {
        (record_susp(v, player, ActivityType::RateLimitViolation, "rate_lim"@, 6, now), Err(AntiBotError::RateLimitExceeded))
    } else {
        (
            AntiBotView {
                rate_limits: v.rate_limits.insert(player, RateLimitWindow { attempt_count: (w.attempt_count + 1) as u32, last_attempt: now, ..w }),
                ..v
            },
            Ok(()),
        )
    }
}

pub open spec fn check_rate_fits(v: AntiBotView, player: u64, now: u64) -> bool {
    &&& rate_window_at(v, player, now).window_start <= now
    &&& current_window(v, player, now).attempt_count >= v.config.max_attempts_per_window ==> susp_room(v, player)
}

// ───────────── time windows ─────────────

/// Checks a submission of the player for a puzzle at `now` against the
/// puzzle's time window: outside the window (grace included) it is recorded
/// as suspicious and refused; a solve faster than the minimum is recorded
/// as suspicious and judged invalid; one slower than the maximum is invalid.
pub open spec fn validate_spec(v: AntiBotView, player: u64, puzzle_id: u32, solve: u64, now: u64) -> (AntiBotView, Result<bool, AntiBotError>) {
    if !v.time_windows.contains_key(puzzle_id as u64) {
        (v, Err(AntiBotError::InvalidWindow))
    } else {
        let w = v.time_windows[puzzle_id as u64];
        if now < w.submission_start || now > w.submission_end + w.grace_period_ms / 1000 {
            (record_susp(v, player, ActivityType::TimestampManipulation, "time_win"@, 6, now), Err(AntiBotError::TimeWindowInvalid))
        } else if solve < w.min_solve_time_ms {
            (record_susp(v, player, ActivityType::TooFastSolve, "min_time"@, 7, now), Ok(false))
        } else if solve > w.max_solve_time_ms {
            (v, Ok(false))
        } else {
            (v, Ok(true))
        }
    }
}

pub open spec fn validate_fits(v: AntiBotView, player: u64, puzzle_id: u32) -> bool {
    v.time_windows.contains_key(puzzle_id as u64) ==> {
        &&& v.time_windows[puzzle_id as u64].submission_end + v.time_windows[puzzle_id as u64].grace_period_ms / 1000 <= u64::MAX
        &&& susp_room(v, player)
    }
}

// ───────────── analysis ─────────────

pub open spec fn risk_if(b: bool, f: RiskFactor) -> Seq<RiskFactor> {
    if b { seq![f] } else { Seq::empty() }
}

pub open spec fn points_if(b: bool, n: int) -> int {
    if b { n } else { 0 }
}

/// The analysis of a profile and timing pattern: each risk found adds to
/// the bot probability (capped at 100), which decides the recommendation.
pub open spec fn analysis_of(player: u64, p: PlayerProfile, pat: Option<PatternView>) -> AnalysisView {
    let fast = p.consecutive_fast_solves >= 3;
    let fails = p.failed_attempts > p.successful_attempts * 2;
    let cons = pat matches Some(q) && q.consistency_score > 800;
    let gas = pat matches Some(q) && q.gas_pattern_variance > 700;
    let low_var = pat matches Some(q) && q.pattern_variance < 100;
    let low_trust = p.trust_score < 300;
    let prob = points_if(fast, 30) + points_if(fails, 20) + points_if(cons, 25) + points_if(gas, 15) + points_if(low_var, 20) + points_if(low_trust, 20);
    AnalysisView {
        player,
        trust_score: p.trust_score,
        bot_probability: min_int(prob, 100) as u32,
        risk_factors: risk_if(fast, RiskFactor::FastSolves) + risk_if(fails, RiskFactor::HighFailureRate) + risk_if(cons, RiskFactor::ConsistentTiming)
            + risk_if(gas, RiskFactor::GasPattern) + risk_if(low_var, RiskFactor::LowVariance) + risk_if(low_trust, RiskFactor::LowTrust),
        recommendation: if prob > 70 {
            Recommendation::Block
        } else if prob > 40 {
            Recommendation::Verify
        } else {
            Recommendation::Allow
        },
        status: p.status,
    }
}

pub open spec fn pattern_at(v: AntiBotView, player: u64) -> Option<PatternView> {
    if v.patterns.contains_key(player) { Some(v.patterns[player]) } else { None }
}

/// Analyses the player (storing their profile when new).
pub open spec fn analyze_spec(v: AntiBotView, player: u64, now: u64) -> (AntiBotView, AnalysisView) {
    (ensure_profile(v, player, now), analysis_of(player, profile_at(v, player, now), pattern_at(v, player)))
}

pub open spec fn analyze_fits(v: AntiBotView, player: u64, now: u64) -> bool {
    profile_at(v, player, now).successful_attempts * 2 <= u32::MAX
}

// ───────────── penalties ─────────────

/// When a penalty of the type applied at `now` ends.
pub open spec fn expiry_of(ty: PenaltyType, now: u64, hours: u64) -> int {
    match ty {
        PenaltyType::Warning => now as int,
        PenaltyType::TemporaryBan => now + hours * 3600,
        PenaltyType::ExtendedBan => now + hours * 3600 * 7,
        PenaltyType::PermanentBan => u64::MAX as int,
        PenaltyType::ScoreReduction => now as int,
        PenaltyType::VerificationRequired => now + hours * 3600,
    }
}

/// Applies a penalty to the player at `now`: the next penalty id is used,
/// the penalty is recorded and listed for the player, the player is marked
/// penalised with one more penalty (and for a score reduction loses 50
/// trust per severity point, at most 300), and a permanent ban also
/// blacklists them. Returns the state and the penalty's id.
pub open spec fn apply_penalty_spec(v: AntiBotView, player: u64, ty: PenaltyType, reason: Seq<char>, severity: u32, now: u64) -> (AntiBotView, u32) {
    let id = (v.penalty_counter + 1) as u32;
    let pen = PenaltyView {
        penalty_id: id,
        player,
        penalty_type: ty,
        reason,
        severity,
        applied_at: now,
        expires_at: expiry_of(ty, now, v.config.default_penalty_hours) as u64,
        active: true,
    };
    let v1 = AntiBotView {
        penalty_counter: id,
        penalties: v.penalties.insert(id as u64, pen),
        player_penalties: v.player_penalties.insert(player, seq_at(v.player_penalties, player).push(id)),
        ..v
    };
    let p = profile_at(v1, player, now);
    let p2 = PlayerProfile {
        penalty_count: (p.penalty_count + 1) as u32,
        status: PlayerStatus::Penalized.spec_code(),
        trust_score: if ty == PenaltyType::ScoreReduction {
            sat_sub(p.trust_score as int, min_int(severity * 50, 300)) as u32
        } else {
            p.trust_score
        },
        ..p
    };
    let v2 = with_profile(v1, player, p2);
    let v3 = if ty == PenaltyType::PermanentBan { AntiBotView { blacklisted: v2.blacklisted.insert(player, true), ..v2 } } else { v2 };
    (v3, id)
}

pub open spec fn apply_penalty_fits(v: AntiBotView, player: u64, ty: PenaltyType, severity: u32, now: u64) -> bool {
    &&& v.penalty_counter < u32::MAX
    &&& expiry_of(ty, now, v.config.default_penalty_hours) <= u64::MAX
    &&& seq_at(v.player_penalties, player).len() < u32::MAX
    &&& profile_at(v, player, now).penalty_count < u32::MAX
    &&& severity * 50 <= u32::MAX
}

/// How many of the listed penalties are active and not yet over at `now`.
pub open spec fn active_in(ids: Seq<u32>, pens: Map<u64, PenaltyView>, now: u64) -> nat
    decreases ids.len(),
{
    if ids.len() == 0 {
        0
    } else {
        let id = ids.last() as u64;
        active_in(ids.drop_last(), pens, now) + if pens.contains_key(id) && pens[id].active && pens[id].expires_at > now { 1nat } else { 0nat }
    }
}

pub open spec fn active_count(v: AntiBotView, player: u64, now: u64) -> nat {
    active_in(seq_at(v.player_penalties, player), v.penalties, now)
}

/// Lifts a penalty at `now`; a penalised player left with no active
/// penalty becomes verified. `None` when there is no such penalty.
pub open spec fn remove_penalty_spec(v: AntiBotView, penalty_id: u32, now: u64) -> Option<AntiBotView> {
    if !v.penalties.contains_key(penalty_id as u64) {
        None
    } else {
        let pen = v.penalties[penalty_id as u64];
        let v1 = AntiBotView { penalties: v.penalties.insert(penalty_id as u64, PenaltyView { active: false, ..pen }), ..v };
        if active_count(v1, pen.player, now) == 0 {
            let p = profile_at(v1, pen.player, now);
            Some(with_profile(v1, pen.player, if p.status == PlayerStatus::Penalized.spec_code() {
                PlayerProfile { status: PlayerStatus::Verified.spec_code(), ..p }
            } else {
                p
            }))
        } else {
            Some(v1)
        }
    }
}

/// Whether a player may play as far as penalties go.
pub open spec fn penalty_check(v: AntiBotView, player: u64, now: u64) -> Result<(), AntiBotError> {
    if is_listed(v.blacklisted, player) {
        Err(AntiBotError::BotDetected)
    } else if active_count(v, player, now) > 0 {
        Err(AntiBotError::PenaltyActive)
    } else {
        Ok(())
    }
}

// ───────────── appeals ─────────────

/// Whether a pending appeal against the penalty exists among appeals 1 to the counter.
pub open spec fn pending_appeal_exists(v: AntiBotView, penalty_id: u32) -> bool {
    exists|i: u32| 1 <= i <= v.appeal_counter && #[trigger] v.appeals.contains_key(i as u64)
        && v.appeals[i as u64].penalty_id == penalty_id && v.appeals[i as u64].status == AppealStatus::Pending
}

/// Submits an appeal of the player at `now` against an active penalty,
/// within the appeal period and unless one is pending: the next appeal id
/// is used and the player's profile counts the appeal and is marked as
/// appealing.
pub open spec fn submit_appeal_spec(v: AntiBotView, player: u64, penalty_id: u32, reason: Seq<char>, evidence: Seq<char>, now: u64) -> (AntiBotView, Result<u32, AntiBotError>) {
    if !v.penalties.contains_key(penalty_id as u64) || !v.penalties[penalty_id as u64].active {
        (v, Err(AntiBotError::AppealNotFound))
    } else if now > v.penalties[penalty_id as u64].applied_at + v.config.appeal_period_days * 86400 {
        (v, Err(AntiBotError::AppealPeriodExpired))
    } else if pending_appeal_exists(v, penalty_id) {
        (v, Err(AntiBotError::AlreadyAppealed))
    } else {
        let id = (v.appeal_counter + 1) as u32;
        let a = AppealView {
            appeal_id: id,
            player,
            penalty_id,
            reason,
            evidence,
            submitted_at: now,
            status: AppealStatus::Pending,
            reviewed_by: None,
            reviewed_at: None,
            decision_reason: None,
        };
        let v1 = AntiBotView { appeal_counter: id, appeals: v.appeals.insert(id as u64, a), ..v };
        let p = profile_at(v1, player, now);
        (with_profile(v1, player, PlayerProfile { appeal_count: (p.appeal_count + 1) as u32, status: PlayerStatus::AppealPending.spec_code(), ..p }), Ok(id))
    }
}

pub open spec fn submit_appeal_fits(v: AntiBotView, player: u64, penalty_id: u32, now: u64) -> bool {
    &&& v.appeal_counter < u32::MAX
    &&& v.penalties.contains_key(penalty_id as u64) ==> v.penalties[penalty_id as u64].applied_at + v.config.appeal_period_days * 86400 <= u64::MAX
    &&& profile_at(v, player, now).appeal_count < u32::MAX
}

/// Decides a pending appeal at `now` (by the admin): the appeal records the
/// decision; an approved one lifts the penalty and makes the player
/// verified with 100 more trust (at most 1000); a rejected one leaves the
/// player penalised while a penalty is active, verified otherwise.
pub open spec fn review_appeal_spec(v: AntiBotView, appeal_id: u32, approved: bool, reason: Seq<char>, now: u64) -> (AntiBotView, Result<(), AntiBotError>) {
    if !v.appeals.contains_key(appeal_id as u64) || v.appeals[appeal_id as u64].status != AppealStatus::Pending {
        (v, Err(AntiBotError::AppealNotFound))
    } else {
        let a = v.appeals[appeal_id as u64];
        let a2 = AppealView {
            status: if approved { AppealStatus::Approved } else { AppealStatus::Rejected },
            reviewed_by: Some(v.config.admin),
            reviewed_at: Some(now),
            decision_reason: Some(reason),
            ..a
        };
        let v1 = AntiBotView { appeals: v.appeals.insert(appeal_id as u64, a2), ..v };
        let p = profile_at(v1, a.player, now);
        let v2 = with_profile(v1, a.player, p);
        if approved {
            let v3 = match remove_penalty_spec(v2, a.penalty_id, now) {
                Some(w) => w,
                None => v2,
            };
            (with_profile(v3, a.player, PlayerProfile {
                status: PlayerStatus::Verified.spec_code(),
                trust_score: min_int(p.trust_score + 100, 1000) as u32,
                ..p
            }), Ok(()))
        } else {
            (with_profile(v2, a.player, PlayerProfile {
                status: if active_count(v2, a.player, now) > 0 { PlayerStatus::Penalized.spec_code() } else { PlayerStatus::Verified.spec_code() },
                ..p
            }), Ok(()))
        }
    }
}

// ───────────── lists ─────────────

/// Whitelists the player (trust 1000).
pub open spec fn whitelist_spec(v: AntiBotView, player: u64, now: u64) -> AntiBotView {
    let v1 = AntiBotView { whitelisted: v.whitelisted.insert(player, true), ..v };
    let p = profile_at(v1, player, now);
    with_profile(v1, player, PlayerProfile { status: PlayerStatus::Whitelisted.spec_code(), trust_score: 1000, ..p })
}

/// Takes the player off the whitelist (verified, trust 800).
pub open spec fn remove_whitelist_spec(v: AntiBotView, player: u64, now: u64) -> AntiBotView {
    let v1 = AntiBotView { whitelisted: v.whitelisted.remove(player), ..v };
    let p = profile_at(v1, player, now);
    with_profile(v1, player, PlayerProfile { status: PlayerStatus::Verified.spec_code(), trust_score: 800, ..p })
}

/// Blacklists the player (trust 0) and applies a permanent ban of severity 10.
pub open spec fn blacklist_spec(v: AntiBotView, player: u64, reason: Seq<char>, now: u64) -> AntiBotView {
    let v1 = AntiBotView { blacklisted: v.blacklisted.insert(player, true), ..v };
    let p = profile_at(v1, player, now);
    let v2 = with_profile(v1, player, PlayerProfile { status: PlayerStatus::Blacklisted.spec_code(), trust_score: 0, ..p });
    apply_penalty_spec(v2, player, PenaltyType::PermanentBan, reason, 10, now).0
}

/// Takes the player off the blacklist (verified, trust 300).
pub open spec fn remove_blacklist_spec(v: AntiBotView, player: u64, now: u64) -> AntiBotView {
    let v1 = AntiBotView { blacklisted: v.blacklisted.remove(player), ..v };
    let p = profile_at(v1, player, now);
    with_profile(v1, player, PlayerProfile { status: PlayerStatus::Verified.spec_code(), trust_score: 300, ..p })
}

// ───────────── captcha ─────────────

/// The bytes hashed to seed a challenge issued at `now`: its low four bytes.
pub open spec fn seed_bytes(now: u64) -> Seq<u8> {
    seq![(now & 0xff) as u8, ((now >> 8u64) & 0xff) as u8, ((now >> 16u64) & 0xff) as u8, ((now >> 24u64) & 0xff) as u8]
}

/// The proof-of-work iterations a difficulty asks for.
pub open spec fn min_iterations_of(difficulty: u32) -> u32 {
    if difficulty == 1 {
        100
    } else if difficulty == 2 {
        500
    } else if difficulty == 3 {
        2000
    } else if difficulty == 4 {
        10000
    } else if difficulty == 5 {
        50000
    } else {
        500
    }
}

/// The bytes hashed for a proof: the challenge id's four bytes, then the
/// nonce's eight, least significant first.
pub open spec fn proof_bytes(challenge_id: u32, nonce: u64) -> Seq<u8> {
    seq![
        (challenge_id & 0xff) as u8,
        ((challenge_id >> 8u32) & 0xff) as u8,
        ((challenge_id >> 16u32) & 0xff) as u8,
        ((challenge_id >> 24u32) & 0xff) as u8,
        (nonce & 0xff) as u8,
        ((nonce >> 8u64) & 0xff) as u8,
        ((nonce >> 16u64) & 0xff) as u8,
        ((nonce >> 24u64) & 0xff) as u8,
        ((nonce >> 32u64) & 0xff) as u8,
        ((nonce >> 40u64) & 0xff) as u8,
        ((nonce >> 48u64) & 0xff) as u8,
        ((nonce >> 56u64) & 0xff) as u8,
    ]
}

/// The largest two-byte hash prefix (exclusive) a difficulty accepts.
pub open spec fn threshold_of(difficulty: u32) -> u16 {
    if difficulty == 1 {
        0x4000
    } else if difficulty == 2 {
        0x1000
    } else if difficulty == 3 {
        0x0400
    } else if difficulty == 4 {
        0x0100
    } else if difficulty == 5 {
        0x0040
    } else {
        0x1000
    }
}

/// The first two bytes of a digest as a big-endian number.
pub open spec fn digest_prefix(d: Seq<u8>) -> u16 {
    ((d[0] as u16) << 8u16) | (d[1] as u16)
}

/// Judges a proof for a challenge at `now`, given the digest of the proof's
/// bytes: the challenge must exist and not have expired, the proof must
/// claim enough iterations and carry that digest; it passes when the
/// digest's prefix is under the difficulty's threshold, which verifies the
/// player, and otherwise is recorded as a failed captcha.
pub open spec fn settle_spec(v: AntiBotView, player: u64, proof: CaptchaProof, digest: Seq<u8>, now: u64) -> (AntiBotView, Result<bool, AntiBotError>) {
    if !v.challenges.contains_key(proof.challenge_id as u64) {
        (v, Err(AntiBotError::ChallengeExpired))
    } else {
        let c = v.challenges[proof.challenge_id as u64];
        if now > c.expires_at {
            (v, Err(AntiBotError::ChallengeExpired))
        } else if proof.iterations < c.min_iterations {
            (v, Err(AntiBotError::VerificationFailed))
        } else if digest != proof.proof_hash@ {
            (v, Err(AntiBotError::VerificationFailed))
        } else if digest_prefix(digest) < threshold_of(c.difficulty) {
            let p = profile_at(v, player, now);
            (with_profile(v, player, PlayerProfile { status: PlayerStatus::Verified.spec_code(), ..p }), Ok(true))
        } else {
            (record_susp(v, player, ActivityType::FailedCaptcha, "bad_proof"@, 5, now), Ok(false))
        }
    }
}

// ───────────── verification ─────────────

/// The full check of a submission of the player for a puzzle at `now`:
/// whitelisted players pass outright, and blacklisted or penalised ones are
/// answered "not allowed, blocked" (the blacklisted with trust 0 and bot
/// probability 100); otherwise the attempt is rate-limited and checked against the
/// puzzle's time window, and the analysis decides: a block refuses (and a
/// bot probability over 85 earns a temporary ban), a call for verification
/// asks an unverified player for a captcha, and a trust score under 200
/// always asks for verification.
pub open spec fn verify_player_spec(v: AntiBotView, player: u64, puzzle_id: u32, solve: u64, now: u64) -> (AntiBotView, Result<VerificationResult, AntiBotError>) {
    if is_listed(v.whitelisted, player) {
        (v, Ok(VerificationResult { allowed: true, required_action: RequiredAction::NoAction, trust_score: 1000, bot_probability: 0 }))
    } else if is_listed(v.blacklisted, player) {
        (v, Ok(VerificationResult { allowed: false, required_action: RequiredAction::Blocked, trust_score: 0, bot_probability: 100 }))
    } else if active_count(v, player, now) > 0 {
        (v, Ok(VerificationResult {
            allowed: false,
            required_action: RequiredAction::Blocked,
            trust_score: profile_at(v, player, now).trust_score,
            bot_probability: 0,
        }))
    } else {
        let (v1, rate) = check_rate_spec(v, player, now);
        if rate is Err {
            (v1, Err(AntiBotError::RateLimitExceeded))
        } else {
            let (v2, timing) = validate_spec(v1, player, puzzle_id, solve, now);
            match timing {
                Err(e) => (v2, Err(e)),
                Ok(false) => (
                    ensure_profile(v2, player, now),
                    Ok(VerificationResult {
                        allowed: false,
                        required_action: RequiredAction::Retry,
                        trust_score: profile_at(v2, player, now).trust_score,
                        bot_probability: 30,
                    }),
                ),
                Ok(true) => {
                    let (v3, a) = analyze_spec(v2, player, now);
                    let (v4, allowed, action) = match a.recommendation {
                        Recommendation::Block => (
                            if a.bot_probability > 85 {
                                apply_penalty_spec(v3, player, PenaltyType::TemporaryBan, "bot_det"@, 7, now).0
                            } else {
                                v3
                            },
                            false,
                            RequiredAction::Blocked,
                        ),
                        Recommendation::Verify => if profile_at(v3, player, now).status != PlayerStatus::Verified.spec_code() {
                            (v3, false, RequiredAction::Captcha)
                        } else {
                            (v3, true, RequiredAction::NoAction)
                        },
                        Recommendation::Allow => (v3, true, RequiredAction::NoAction),
                    };
                    (
                        v4,
                        Ok(VerificationResult {
                            allowed: if a.trust_score < 200 { false } else { allowed },
                            required_action: if a.trust_score < 200 { RequiredAction::Verify } else { action },
                            trust_score: a.trust_score,
                            bot_probability: a.bot_probability,
                        }),
                    )
                },
            }
        }
    }
}

/// Whether the full check stays in range.
pub open spec fn verify_player_fits(v: AntiBotView, player: u64, puzzle_id: u32, solve: u64, now: u64) -> bool {
    let v1 = check_rate_spec(v, player, now).0;
    let v2 = validate_spec(v1, player, puzzle_id, solve, now).0;
    let v3 = analyze_spec(v2, player, now).0;
    &&& check_rate_fits(v, player, now)
    &&& validate_fits(v1, player, puzzle_id)
    &&& analyze_fits(v2, player, now)
    &&& apply_penalty_fits(v3, player, PenaltyType::TemporaryBan, 7, now)
}

} // verus!
