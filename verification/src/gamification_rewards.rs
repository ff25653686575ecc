//! Reward multipliers from daily/weekly streaks, combo chains, milestone
//! unlocks and boost items, with a history per player and a leaderboard.
use vstd::prelude::*;
use crate::assoc::AssocMap;

verus! {

pub const DAY_IN_LEDGERS: u32 = 17280;
pub const WEEK_IN_LEDGERS: u32 = 120960;
pub const MAX_COMBO_CHAIN: u32 = 100;
pub const MAX_STREAK_MULTIPLIER: u32 = 500;
pub const BASE_MULTIPLIER: u32 = 100;
pub const MAX_HISTORY: usize = 50;

/// Reasons a call is refused.
#[derive(Clone, Copy, Debug, PartialEq, Eq, Structural)]
pub enum GameError {
    /// The caller named as admin is not the admin.
    AdminOnly,
    /// The contract is paused.
    Paused,
}

#[derive(Clone, Copy, Debug, PartialEq, Eq, Structural)]
pub enum MultiplierType {
    Streak,
    Combo,
    Milestone,
    Boost,
}

#[derive(Clone, Copy, Debug, PartialEq, Eq, Structural)]
pub enum StreakType {
    Daily,
    Weekly,
}

#[derive(Clone, Copy, Debug, PartialEq, Eq, Structural)]
pub struct MultiplierState {
    pub base_multiplier: u32,
    pub streak_multiplier: u32,
    pub combo_multiplier: u32,
    pub milestone_multiplier: u32,
    pub boost_multiplier: u32,
    pub total_multiplier: u32,
}

#[derive(Clone, Copy, Debug, PartialEq, Eq, Structural)]
pub struct StreakData {
    pub daily_streak: u32,
    pub weekly_streak: u32,
    pub last_daily_claim: u32,
    pub last_weekly_claim: u32,
    pub best_daily_streak: u32,
    pub best_weekly_streak: u32,
}

#[derive(Clone, Copy, Debug, PartialEq, Eq, Structural)]
pub struct ComboChain {
    pub current_combo: u32,
    pub best_combo: u32,
    pub last_action_ledger: u32,
    pub combo_decay_start: u32,
}

#[derive(Clone, Copy, Debug, PartialEq, Eq, Structural)]
pub struct MilestoneProgress {
    pub total_actions: u32,
    pub milestones_unlocked: u32,
    pub permanent_bonus: u32,
}

#[derive(Clone, Copy, Debug, PartialEq, Eq, Structural)]
pub enum BoostType {
    SpeedBoost,
    LuckBoost,
    PowerBoost,
    SuperBoost,
}

#[derive(Clone, Copy, Debug, PartialEq, Eq, Structural)]
pub struct BoostItem {
    pub boost_type: BoostType,
    pub multiplier_bonus: u32,
    pub start_ledger: u32,
    pub duration_ledgers: u32,
    pub is_active: bool,
}

#[derive(Clone, Copy, Debug, PartialEq, Eq, Structural)]
pub struct MultiplierHistoryEntry {
    pub ledger: u32,
    pub multiplier: u32,
    pub breakdown: MultiplierState,
}

#[derive(Clone, Copy, Debug, PartialEq, Eq, Structural)]
pub struct PlayerLeaderboardEntry {
    pub player: u64,
    pub total_multiplier: u32,
    pub total_actions: u32,
    pub best_combo: u32,
    pub best_streak: u32,
}

#[derive(Clone, Copy, Debug, PartialEq, Eq, Structural)]
pub struct GlobalStats {
    pub total_players: u32,
    pub total_multipliers_applied: u32,
    pub highest_combo: u32,
    pub highest_streak: u32,
}

#[derive(Clone, Copy, Debug, PartialEq, Eq, Structural)]
pub struct Config {
    pub admin: u64,
    pub combo_decay_period: u32,
    pub combo_decay_rate: u32,
    pub max_leaderboard_entries: u32,
    pub paused: bool,
}

// ───────────── pure multiplier rules ─────────────

pub open spec fn min_int(a: int, b: int) -> int {
    if a <= b { a } else { b }
}

pub open spec fn streak_mult_spec(s: StreakData) -> int {
    BASE_MULTIPLIER + min_int(min_int(s.daily_streak as int, 30) * 10, 150) + min_int(min_int(s.weekly_streak as int, 12) * 10, 120)
}

pub open spec fn combo_mult_spec(combo: u32) -> int {
    BASE_MULTIPLIER + min_int(combo * 2, 200)
}

pub open spec fn milestone_mult_spec(bonus: u32) -> int {
    BASE_MULTIPLIER + bonus
}

/// The sum of the bonuses of the active boosts.
pub open spec fn active_boost_sum(s: Seq<BoostItem>) -> int
    decreases s.len(),
{
    if s.len() == 0 {
        0
    } else {
        active_boost_sum(s.drop_last()) + if s.last().is_active { s.last().multiplier_bonus as int } else { 0 }
    }
}

/// The stacked multiplier: the base times one plus the sum of the four
/// categories' bonuses (each over 100), that is 100 plus that sum, capped at 5x.
pub open spec fn stacking_spec(streak: u32, combo: u32, milestone: u32, boost: u32) -> int {
    let total = (streak - 100) + (combo - 100) + (milestone - 100) + (boost - 100);
    min_int(100 + total, 500)
}

/// The bonus a boost type grants.
pub open spec fn boost_bonus_spec(t: BoostType) -> u32 {
    match t {
        BoostType::SpeedBoost => 50,
        BoostType::LuckBoost => 30,
        BoostType::PowerBoost => 20,
        BoostType::SuperBoost => 100,
    }
}

impl GamificationRewardsContract {
    /// The streak multiplier: 100, plus 10 per daily streak day (at most 150),
    /// plus 10 per weekly streak week (at most 120).
    pub fn calculate_streak_multiplier(streak_data: &StreakData) -> (m: u32)
        ensures
            m == streak_mult_spec(*streak_data),
            100 <= m <= 370,
    {
        let d = if streak_data.daily_streak < 30 { streak_data.daily_streak } else { 30 };
        let daily_bonus = if d * 10 < 150 { d * 10 } else { 150 };
        let w = if streak_data.weekly_streak < 12 { streak_data.weekly_streak } else { 12 };
        let weekly_bonus = if w * 10 < 120 { w * 10 } else { 120 };
        BASE_MULTIPLIER + daily_bonus + weekly_bonus
    }

    /// The combo multiplier: 100 plus 2 per combo point, at most 300.
    pub fn calculate_combo_multiplier(combo: u32) -> (m: u32)
        requires
            combo * 2 <= u32::MAX,
        ensures
            m == combo_mult_spec(combo),
            100 <= m <= 300,
    {
        let c2 = combo * 2;
        BASE_MULTIPLIER + if c2 < 200 { c2 } else { 200 }
    }

    /// The milestone multiplier: 100 plus the permanent bonus.
    pub fn calculate_milestone_multiplier(permanent_bonus: u32) -> (m: u32)
        requires
            permanent_bonus + 100 <= u32::MAX,
        ensures
            m == milestone_mult_spec(permanent_bonus),
    {
        BASE_MULTIPLIER + permanent_bonus
    }

    /// The boost multiplier: 100 plus the bonuses of the boosts marked active.
    pub fn calculate_boost_multiplier(boosts: &Vec<BoostItem>) -> (m: u32)
        requires
            active_boost_sum(boosts@) + 100 <= u32::MAX,
        ensures
            m == 100 + active_boost_sum(boosts@),
            m >= 100,
    {
        proof {
            lemma_boost_sum_nonneg(boosts@);
        }
        let mut total: u32 = 0;
        let mut i: usize = 0;
        while i < boosts.len()
            invariant
                i <= boosts@.len(),
                total == active_boost_sum(boosts@.subrange(0, i as int)),
                active_boost_sum(boosts@) + 100 <= u32::MAX,
            decreases boosts@.len() - i,
        {
            proof {
                lemma_boost_sum_prefix_le(boosts@, i as int + 1);
                assert(boosts@.subrange(0, i + 1).drop_last() =~= boosts@.subrange(0, i as int));
            }
            if boosts[i].is_active {
                total = total + boosts[i].multiplier_bonus;
            }
            i = i + 1;
        }
        assert(boosts@.subrange(0, boosts@.len() as int) =~= boosts@);
        BASE_MULTIPLIER + total
    }

    /// Combines the four category multipliers: 100 plus the sum of their
    /// bonuses over 100, capped at 500.
    pub fn apply_stacking_rules(streak_mult: u32, combo_mult: u32, milestone_mult: u32, boost_mult: u32) -> (m: u32)
        requires
            streak_mult >= 100,
            combo_mult >= 100,
            milestone_mult >= 100,
            boost_mult >= 100,
            (streak_mult - 100) + (combo_mult - 100) + (milestone_mult - 100) + (boost_mult - 100) <= u32::MAX,
        ensures
            m == stacking_spec(streak_mult, combo_mult, milestone_mult, boost_mult),
    {
        let total_bonus = (streak_mult - BASE_MULTIPLIER) + (combo_mult - BASE_MULTIPLIER) + (milestone_mult - BASE_MULTIPLIER) + (boost_mult - BASE_MULTIPLIER);
        if total_bonus < MAX_STREAK_MULTIPLIER - BASE_MULTIPLIER { BASE_MULTIPLIER + total_bonus } else { MAX_STREAK_MULTIPLIER }
    }
}

proof fn lemma_boost_sum_prefix_le(s: Seq<BoostItem>, n: int)
    requires
        0 <= n <= s.len(),
    ensures
        0 <= active_boost_sum(s.subrange(0, n)) <= active_boost_sum(s),
    decreases s.len() - n,
{
    lemma_boost_sum_nonneg(s.subrange(0, n));
    if n < s.len() {
        lemma_boost_sum_prefix_le(s, n + 1);
        assert(s.subrange(0, n + 1).drop_last() =~= s.subrange(0, n));
    } else {
        assert(s.subrange(0, n) =~= s);
    }
}

proof fn lemma_boost_sum_nonneg(s: Seq<BoostItem>)
    ensures
        active_boost_sum(s) >= 0,
    decreases s.len(),
{
    if s.len() > 0 {
        lemma_boost_sum_nonneg(s.drop_last());
    }
}

/// The stacked multiplier always lies between 1x and 5x.
pub proof fn law_stacking_bounds(streak: u32, combo: u32, milestone: u32, boost: u32)
    requires
        streak >= 100,
        combo >= 100,
        milestone >= 100,
        boost >= 100,
    ensures
        100 <= stacking_spec(streak, combo, milestone, boost) <= 500,
{
}

/// Raising any category multiplier never lowers the stacked multiplier.
pub proof fn law_stacking_monotone(s1: u32, c1: u32, m1: u32, b1: u32, s2: u32, c2: u32, m2: u32, b2: u32)
    requires
        100 <= s1 <= s2,
        100 <= c1 <= c2,
        100 <= m1 <= m2,
        100 <= b1 <= b2,
    ensures
        stacking_spec(s1, c1, m1, b1) <= stacking_spec(s2, c2, m2, b2),
{
}

/// The steps of the streaks on a new day. The daily streak grows by exactly
/// one when the day comes within two days of the last daily claim and
/// restarts at 1 after a longer gap. The weekly streak grows by exactly one
/// when the day comes at least one and less than two weeks after the last
/// weekly claim (which then moves to this day), stays as it was within a
/// week, and restarts at 1 after a longer gap. So consecutive weekly actions
/// make the weekly streak grow.
pub proof fn law_streak_steps(s: StreakData, ledger: u32, first: bool)
    requires
        s.daily_streak < u32::MAX,
        s.weekly_streak < u32::MAX,
        is_new_day(s, ledger, first),
    ensures
        ({
            let s1 = daily_action_spec(s, ledger, first);
            let since = if ledger >= s.last_daily_claim { ledger - s.last_daily_claim } else { 0 };
            let wsince = if ledger >= s.last_weekly_claim { ledger - s.last_weekly_claim } else { 0 };
            &&& s1.last_daily_claim == ledger
            &&& (since < 2 * DAY_IN_LEDGERS ==> s1.daily_streak == s.daily_streak + 1)
            &&& (since >= 2 * DAY_IN_LEDGERS ==> s1.daily_streak == 1)
            &&& (wsince < WEEK_IN_LEDGERS ==> s1.weekly_streak == s.weekly_streak && s1.last_weekly_claim == s.last_weekly_claim)
            &&& (WEEK_IN_LEDGERS <= wsince < 2 * WEEK_IN_LEDGERS ==> s1.weekly_streak == s.weekly_streak + 1 && s1.last_weekly_claim == ledger)
            &&& (wsince >= 2 * WEEK_IN_LEDGERS ==> s1.weekly_streak == 1 && s1.last_weekly_claim == ledger)
        }),
{
}

/// Each boost type carries its own bonus over the base of 100: a SpeedBoost
/// half the base, a LuckBoost 30%, a PowerBoost 20% and a SuperBoost the
/// whole base (1.0x), the largest of the four. A running boost on its own
/// raises the boost multiplier by exactly its bonus, so a lone SuperBoost
/// doubles it.
pub proof fn law_boost_bonus_by_type(t: BoostType, start: u32, duration: u32, ledger: u32)
    requires
        ledger < start + duration,
    ensures
        boost_bonus_spec(t) as int == (match t {
            BoostType::SpeedBoost => 50int,
            BoostType::LuckBoost => 30int,
            BoostType::PowerBoost => 20int,
            BoostType::SuperBoost => 100int,
        }),
        t != BoostType::SuperBoost ==> boost_bonus_spec(t) < boost_bonus_spec(BoostType::SuperBoost),
        100 + active_boost_sum(running_boosts(seq![BoostItem {
            boost_type: t,
            multiplier_bonus: boost_bonus_spec(t),
            start_ledger: start,
            duration_ledgers: duration,
            is_active: true,
        }], ledger)) == 100 + boost_bonus_spec(t),
        t == BoostType::SuperBoost ==> 100 + active_boost_sum(running_boosts(seq![BoostItem {
            boost_type: t,
            multiplier_bonus: boost_bonus_spec(t),
            start_ledger: start,
            duration_ledgers: duration,
            is_active: true,
        }], ledger)) == 200,
{
    let b = BoostItem { boost_type: t, multiplier_bonus: boost_bonus_spec(t), start_ledger: start, duration_ledgers: duration, is_active: true };
    let one = seq![b];
    reveal_with_fuel(Seq::filter, 2);
    assert(one.drop_last() =~= Seq::<BoostItem>::empty());
    assert(running_boosts(one, ledger) =~= one);
    assert(one.drop_last() =~= Seq::<BoostItem>::empty());
    assert(active_boost_sum(one) == boost_bonus_spec(t)) by {
        assert(one.last() == b);
        assert(active_boost_sum(one.drop_last()) == 0);
    }
}

/// How the streaks raise the streak multiplier: with no streak it is the base
/// of 100; each further day of the daily streak adds exactly 10 until 15 days
/// (1.5x more), after which more days add nothing; each further week of the
/// weekly streak adds exactly 10 until 12 weeks, after which more weeks add
/// nothing.
pub proof fn law_streak_multiplier_steps(s: StreakData)
    requires
        s.daily_streak < u32::MAX,
        s.weekly_streak < u32::MAX,
    ensures
        streak_mult_spec(StreakData { daily_streak: 0, weekly_streak: 0, ..s }) == 100,
        s.daily_streak < 15 ==> streak_mult_spec(StreakData { daily_streak: (s.daily_streak + 1) as u32, ..s }) == streak_mult_spec(s) + 10,
        s.daily_streak >= 15 ==> streak_mult_spec(StreakData { daily_streak: (s.daily_streak + 1) as u32, ..s }) == streak_mult_spec(s),
        s.weekly_streak < 12 ==> streak_mult_spec(StreakData { weekly_streak: (s.weekly_streak + 1) as u32, ..s }) == streak_mult_spec(s) + 10,
        s.weekly_streak >= 12 ==> streak_mult_spec(StreakData { weekly_streak: (s.weekly_streak + 1) as u32, ..s }) == streak_mult_spec(s),
{
}

/// Each combo point adds exactly 2 to the combo multiplier, from the base of
/// 100 up to 300 at 100 points, and more points add nothing.
pub proof fn law_combo_multiplier_steps(combo: u32)
    requires
        combo < u32::MAX,
    ensures
        combo_mult_spec(0) == 100,
        combo < 100 ==> combo_mult_spec((combo + 1) as u32) == combo_mult_spec(combo) + 2,
        combo >= 100 ==> combo_mult_spec((combo + 1) as u32) == combo_mult_spec(combo) == 300,
{
}

// ───────────── contract state ─────────────

/// The state of the gamification contract.
pub struct GamificationRewardsContract {
    pub config: Config,
    pub admin: u64,
    pub stats: GlobalStats,
    /// Actions needed for each milestone level.
    pub thresholds: AssocMap<u32>,
    /// Registered verifiers.
    pub verifiers: AssocMap<bool>,
    pub streaks: AssocMap<StreakData>,
    pub combos: AssocMap<ComboChain>,
    pub milestones: AssocMap<MilestoneProgress>,
    pub boosts: AssocMap<Vec<BoostItem>>,
    pub history: AssocMap<Vec<MultiplierHistoryEntry>>,
    pub leaderboard: Vec<PlayerLeaderboardEntry>,
}

pub open spec fn zero_streak() -> StreakData {
    StreakData {
        daily_streak: 0,
        weekly_streak: 0,
        last_daily_claim: 0,
        last_weekly_claim: 0,
        best_daily_streak: 0,
        best_weekly_streak: 0,
    }
}

pub open spec fn zero_combo() -> ComboChain {
    ComboChain { current_combo: 0, best_combo: 0, last_action_ledger: 0, combo_decay_start: 0 }
}

pub open spec fn zero_progress() -> MilestoneProgress {
    MilestoneProgress { total_actions: 0, milestones_unlocked: 0, permanent_bonus: 0 }
}

pub open spec fn zero_stats() -> GlobalStats {
    GlobalStats { total_players: 0, total_multipliers_applied: 0, highest_combo: 0, highest_streak: 0 }
}

pub open spec fn get_or<V>(m: Map<u64, V>, k: u64, d: V) -> V {
    if m.contains_key(k) { m[k] } else { d }
}

pub open spec fn saturating_sub_spec(a: u32, b: u32) -> int {
    if a >= b { a - b } else { 0 }
}

/// Whether a daily action at `ledger` counts as a new day: always for the
/// player's first one (`first`), otherwise from a full day after the last claim.
pub open spec fn is_new_day(s: StreakData, ledger: u32, first: bool) -> bool {
    first || saturating_sub_spec(ledger, s.last_daily_claim) >= DAY_IN_LEDGERS
}

/// The streak after a daily action at `ledger`; `first` tells that the player
/// has no streak yet, so that the action starts one at 1.
pub open spec fn daily_action_spec(s: StreakData, ledger: u32, first: bool) -> StreakData {
    let since = saturating_sub_spec(ledger, s.last_daily_claim);
    if !is_new_day(s, ledger, first) {
        s
    } else {
        let d = if since < 2 * DAY_IN_LEDGERS { (s.daily_streak + 1) as u32 } else { 1u32 };
        let bd = if since < 2 * DAY_IN_LEDGERS && d > s.best_daily_streak { d } else { s.best_daily_streak };
        let wsince = saturating_sub_spec(ledger, s.last_weekly_claim);
        let w = if wsince < WEEK_IN_LEDGERS { s.weekly_streak } else if wsince < 2 * WEEK_IN_LEDGERS { (s.weekly_streak + 1) as u32 } else { 1u32 };
        let bw = if WEEK_IN_LEDGERS <= wsince < 2 * WEEK_IN_LEDGERS && w > s.best_weekly_streak { w } else { s.best_weekly_streak };
        let lw = if wsince < WEEK_IN_LEDGERS { s.last_weekly_claim } else { ledger };
        StreakData {
            daily_streak: d,
            weekly_streak: w,
            last_daily_claim: ledger,
            last_weekly_claim: lw,
            best_daily_streak: bd,
            best_weekly_streak: bw,
        }
    }
}

/// The combo after an action at `ledger`, before it is stored.
pub open spec fn combo_action_spec(c: ComboChain, ledger: u32, period: u32, rate: u32) -> ComboChain {
    let since = saturating_sub_spec(ledger, c.last_action_ledger);
    let decayed = if c.current_combo > 0 && since > period {
        saturating_sub_spec(c.current_combo, ((since - period) * rate) as u32)
    } else {
        c.current_combo as int
    };
    let cur = min_int(decayed + 1, MAX_COMBO_CHAIN as int) as u32;
    ComboChain {
        current_combo: cur,
        best_combo: if cur > c.best_combo { cur } else { c.best_combo },
        last_action_ledger: ledger,
        combo_decay_start: (ledger + period) as u32,
    }
}

/// Whether the decay arithmetic of a combo action stays within u32.
pub open spec fn combo_action_fits(c: ComboChain, ledger: u32, period: u32, rate: u32) -> bool {
    let since = saturating_sub_spec(ledger, c.last_action_ledger);
    &&& (c.current_combo > 0 && since > period ==> (since - period) * rate <= u32::MAX)
    &&& ledger + period <= u32::MAX
}

/// Milestone progress after checking levels `from..=10` against the thresholds.
pub open spec fn unlock_from(p: MilestoneProgress, th: Map<u64, u32>, from: u32) -> MilestoneProgress
    decreases 11 - from,
{
    if from > 10 {
        p
    } else {
        let p2 = if th.contains_key(from as u64) && p.total_actions >= th[from as u64] && from > p.milestones_unlocked {
            MilestoneProgress { milestones_unlocked: from, permanent_bonus: (p.permanent_bonus + 5) as u32, ..p }
        } else {
            p
        };
        unlock_from(p2, th, (from + 1) as u32)
    }
}

/// The boosts still running at `ledger`.
pub open spec fn running_boosts(s: Seq<BoostItem>, ledger: u32) -> Seq<BoostItem> {
    s.filter(|b: BoostItem| b.is_active && ledger < b.start_ledger + b.duration_ledgers)
}

/// The newest `limit` history entries, newest first.
pub open spec fn newest_first(h: Seq<MultiplierHistoryEntry>, limit: u32) -> Seq<MultiplierHistoryEntry> {
    let n = min_int(limit as int, h.len() as int);
    Seq::new(n as nat, |i: int| h[h.len() - 1 - i])
}

/// The history after appending `e`, keeping at most fifty entries.
pub open spec fn history_push(h: Seq<MultiplierHistoryEntry>, e: MultiplierHistoryEntry) -> Seq<MultiplierHistoryEntry> {
    if h.len() >= 50 {
        h.subrange(1, h.len() as int).push(e)
    } else {
        h.push(e)
    }
}

/// The leaderboard built by walking `rest` from index `i`, having built `acc`
/// so far, with `inserted` telling whether `e` is placed already.
pub open spec fn board_walk(rest: Seq<PlayerLeaderboardEntry>, e: PlayerLeaderboardEntry, max: u32, i: int, acc: Seq<PlayerLeaderboardEntry>, inserted: bool) -> Seq<PlayerLeaderboardEntry>
    decreases rest.len() - i,
{
    if i >= rest.len() || i < 0 {
        if !inserted && acc.len() < max { acc.push(e) } else { acc }
    } else {
        let (acc1, ins1) = if !inserted && e.total_multiplier > rest[i].total_multiplier {
            (acc.push(e), true)
        } else {
            (acc, inserted)
        };
        let acc2 = if acc1.len() < max { acc1.push(rest[i]) } else { acc1 };
        board_walk(rest, e, max, i + 1, acc2, ins1)
    }
}

/// The leaderboard after placing `e` for its player: the player's old entry is
/// dropped, `e` goes before the first entry with a smaller multiplier, and
/// entries are kept while the board is shorter than `max`.
pub open spec fn board_update(board: Seq<PlayerLeaderboardEntry>, e: PlayerLeaderboardEntry, max: u32) -> Seq<PlayerLeaderboardEntry> {
    board_walk(board_others(board, e.player), e, max, 0, Seq::empty(), false)
}

/// Holds of the entries of players other than `player`.
pub open spec fn not_player(player: u64) -> spec_fn(PlayerLeaderboardEntry) -> bool {
    |x: PlayerLeaderboardEntry| x.player != player
}

/// The entries of players other than `player`, in board order.
pub open spec fn board_others(board: Seq<PlayerLeaderboardEntry>, player: u64) -> Seq<PlayerLeaderboardEntry> {
    board.filter(not_player(player))
}

/// A well-formed leaderboard: at most `max` entries, multipliers never rise
/// down the board, and no player is listed twice.
pub open spec fn board_ranked(board: Seq<PlayerLeaderboardEntry>, max: u32) -> bool {
    &&& board.len() <= max
    &&& forall|i: int, j: int| 0 <= i < j < board.len() ==> board[i].total_multiplier >= board[j].total_multiplier
    &&& forall|i: int, j: int| 0 <= i < j < board.len() ==> board[i].player != board[j].player
}

/// The 1-based rank of the player's first entry, 0 when absent.
pub open spec fn rank_in(board: Seq<PlayerLeaderboardEntry>, player: u64) -> int
    decreases board.len(),
{
    if board.len() == 0 {
        0
    } else if board[0].player == player {
        1
    } else {
        let r = rank_in(board.drop_first(), player);
        if r == 0 { 0 } else { r + 1 }
    }
}

impl GamificationRewardsContract {
    /// The components of the player's multiplier at `ledger`, from the stored state.
    pub open spec fn multiplier_spec(&self, player: u64, ledger: u32) -> MultiplierState {
        self.multiplier_with(get_or(self.streaks@, player, zero_streak()), get_or(self.combos@, player, zero_combo()), player, ledger)
    }

    /// The components of the player's multiplier at `ledger` with the given
    /// streak and combo data, the rest from the stored state.
    pub open spec fn multiplier_with(&self, streak: StreakData, combo: ComboChain, player: u64, ledger: u32) -> MultiplierState {
        let s = streak_mult_spec(streak) as u32;
        let c = combo_mult_spec(combo.current_combo) as u32;
        let m = milestone_mult_spec(get_or(self.milestones@, player, zero_progress()).permanent_bonus) as u32;
        let b = (100 + active_boost_sum(running_boosts(self.boost_list(player), ledger))) as u32;
        MultiplierState {
            base_multiplier: 100,
            streak_multiplier: s,
            combo_multiplier: c,
            milestone_multiplier: m,
            boost_multiplier: b,
            total_multiplier: stacking_spec(s, c, m, b) as u32,
        }
    }

    pub open spec fn boost_list(&self, player: u64) -> Seq<BoostItem> {
        if self.boosts@.contains_key(player) { self.boosts@[player]@ } else { Seq::empty() }
    }

    pub open spec fn history_list(&self, player: u64) -> Seq<MultiplierHistoryEntry> {
        if self.history@.contains_key(player) { self.history@[player]@ } else { Seq::empty() }
    }

    /// Whether the multiplier arithmetic for the player stays within u32.
    pub open spec fn multiplier_fits(&self, player: u64, ledger: u32) -> bool {
        let bl = self.boost_list(player);
        &&& get_or(self.combos@, player, zero_combo()).current_combo * 2 <= u32::MAX
        &&& get_or(self.milestones@, player, zero_progress()).permanent_bonus + 100 <= u32::MAX
        &&& forall|i: int| 0 <= i < bl.len() ==> #[trigger] bl[i].start_ledger + bl[i].duration_ledgers <= u32::MAX
        &&& active_boost_sum(running_boosts(bl, ledger)) + 100 <= u32::MAX
        &&& (min_int(get_or(self.combos@, player, zero_combo()).current_combo * 2, 200)
            + get_or(self.milestones@, player, zero_progress()).permanent_bonus
            + active_boost_sum(running_boosts(bl, ledger)) + 270 <= u32::MAX)
    }

    /// Whether the multiplier arithmetic for the player stays within u32
    /// whatever their combo (which never passes 100).
    pub open spec fn bonus_fits(&self, player: u64, ledger: u32) -> bool {
        let bl = self.boost_list(player);
        &&& get_or(self.milestones@, player, zero_progress()).permanent_bonus + 100 <= u32::MAX
        &&& forall|i: int| 0 <= i < bl.len() ==> #[trigger] bl[i].start_ledger + bl[i].duration_ledgers <= u32::MAX
        &&& active_boost_sum(running_boosts(bl, ledger)) + 100 <= u32::MAX
        &&& get_or(self.milestones@, player, zero_progress()).permanent_bonus
            + active_boost_sum(running_boosts(bl, ledger)) + 470 <= u32::MAX
    }

    /// The configuration, admin, thresholds, verifiers, milestones, boosts and
    /// leaderboard are as before.
    pub open spec fn same_settings(&self, other: &Self) -> bool {
        &&& self.config == other.config
        &&& self.admin == other.admin
        &&& self.thresholds@ == other.thresholds@
        &&& self.verifiers@ == other.verifiers@
        &&& self.milestones@ == other.milestones@
        &&& self.boosts@ == other.boosts@
        &&& self.leaderboard@ == other.leaderboard@
    }

    /// All stored state other than the named parts is as before.
    pub open spec fn same_except_history(&self, other: &Self) -> bool {
        &&& self.config == other.config
        &&& self.admin == other.admin
        &&& self.stats == other.stats
        &&& self.thresholds@ == other.thresholds@
        &&& self.verifiers@ == other.verifiers@
        &&& self.streaks@ == other.streaks@
        &&& self.combos@ == other.combos@
        &&& self.milestones@ == other.milestones@
        &&& self.boosts@ == other.boosts@
        &&& self.leaderboard@ == other.leaderboard@
    }

    /// The contract as `initialize` leaves it, with the default milestone
    /// thresholds 10, 50, 100, 250, 500 and 1000 for levels 1 to 6.
    pub fn initialize(admin: u64) -> (c: Self)
        ensures
            c.config == (Config {
                admin,
                combo_decay_period: DAY_IN_LEDGERS,
                combo_decay_rate: 1,
                max_leaderboard_entries: 100,
                paused: false,
            }),
            c.admin == admin,
            c.stats == zero_stats(),
            c.thresholds@ == map![1u64 => 10u32, 2u64 => 50u32, 3u64 => 100u32, 4u64 => 250u32, 5u64 => 500u32, 6u64 => 1000u32],
            c.verifiers@ == Map::<u64, bool>::empty(),
            c.streaks@ == Map::<u64, StreakData>::empty(),
            c.combos@ == Map::<u64, ComboChain>::empty(),
            c.milestones@ == Map::<u64, MilestoneProgress>::empty(),
            c.boosts@ == Map::<u64, Vec<BoostItem>>::empty(),
            c.history@ == Map::<u64, Vec<MultiplierHistoryEntry>>::empty(),
            c.leaderboard@ == Seq::<PlayerLeaderboardEntry>::empty(),
    {
        let mut thresholds = AssocMap::new();
        thresholds.insert(1, 10);
        thresholds.insert(2, 50);
        thresholds.insert(3, 100);
        thresholds.insert(4, 250);
        thresholds.insert(5, 500);
        thresholds.insert(6, 1000);
        let c = GamificationRewardsContract {
            config: Config {
                admin,
                combo_decay_period: DAY_IN_LEDGERS,
                combo_decay_rate: 1,
                max_leaderboard_entries: 100,
                paused: false,
            },
            admin,
            stats: GlobalStats { total_players: 0, total_multipliers_applied: 0, highest_combo: 0, highest_streak: 0 },
            thresholds,
            verifiers: AssocMap::new(),
            streaks: AssocMap::new(),
            combos: AssocMap::new(),
            milestones: AssocMap::new(),
            boosts: AssocMap::new(),
            history: AssocMap::new(),
            leaderboard: Vec::new(),
        };
        assert(c.thresholds@ =~= map![1u64 => 10u32, 2u64 => 50u32, 3u64 => 100u32, 4u64 => 250u32, 5u64 => 500u32, 6u64 => 1000u32]);
        c
    }

    /// Registers a verifier; `admin` must be the admin.
    pub fn add_verifier(&mut self, admin: u64, verifier: u64) -> (r: Result<(), GameError>)
        ensures
            r == (if admin == old(self).admin { Ok(()) } else { Err(GameError::AdminOnly) }),
            r is Err ==> *final(self) == *old(self),
            r is Ok ==> final(self).verifiers@ == old(self).verifiers@.insert(verifier, true),
            r is Ok ==> final(self).same_except_verifiers(old(self)),
    {
        if admin != self.admin {
            return Err(GameError::AdminOnly);
        }
        self.verifiers.insert(verifier, true);
        Ok(())
    }

    /// Removes a verifier; `admin` must be the admin.
    pub fn remove_verifier(&mut self, admin: u64, verifier: u64) -> (r: Result<(), GameError>)
        ensures
            r == (if admin == old(self).admin { Ok(()) } else { Err(GameError::AdminOnly) }),
            r is Err ==> *final(self) == *old(self),
            r is Ok ==> final(self).verifiers@ == old(self).verifiers@.remove(verifier),
            r is Ok ==> final(self).same_except_verifiers(old(self)),
    {
        if admin != self.admin {
            return Err(GameError::AdminOnly);
        }
        self.verifiers.remove(verifier);
        Ok(())
    }

    pub open spec fn same_except_verifiers(&self, other: &Self) -> bool {
        &&& self.config == other.config
        &&& self.admin == other.admin
        &&& self.stats == other.stats
        &&& self.thresholds@ == other.thresholds@
        &&& self.streaks@ == other.streaks@
        &&& self.combos@ == other.combos@
        &&& self.milestones@ == other.milestones@
        &&& self.boosts@ == other.boosts@
        &&& self.history@ == other.history@
        &&& self.leaderboard@ == other.leaderboard@
    }

    /// Pauses or resumes player actions; `admin` must be the admin.
    pub fn set_paused(&mut self, admin: u64, paused: bool) -> (r: Result<(), GameError>)
        ensures
            r == (if admin == old(self).admin { Ok(()) } else { Err(GameError::AdminOnly) }),
            r is Err ==> *final(self) == *old(self),
            r is Ok ==> *final(self) == (GamificationRewardsContract { config: Config { paused, ..old(self).config }, ..*old(self) }),
    {
        if admin != self.admin {
            return Err(GameError::AdminOnly);
        }
        self.config.paused = paused;
        Ok(())
    }

    /// Sets the combo decay period and rate; `admin` must be the admin.
    pub fn update_combo_decay(&mut self, admin: u64, combo_decay_period: u32, combo_decay_rate: u32) -> (r: Result<(), GameError>)
        ensures
            r == (if admin == old(self).admin { Ok(()) } else { Err(GameError::AdminOnly) }),
            r is Err ==> *final(self) == *old(self),
            r is Ok ==> *final(self) == (GamificationRewardsContract {
                config: Config { combo_decay_period, combo_decay_rate, ..old(self).config },
                ..*old(self)
            }),
    {
        if admin != self.admin {
            return Err(GameError::AdminOnly);
        }
        self.config.combo_decay_period = combo_decay_period;
        self.config.combo_decay_rate = combo_decay_rate;
        Ok(())
    }

    /// Sets the actions needed for a milestone level; `admin` must be the admin.
    pub fn set_milestone_threshold(&mut self, admin: u64, level: u32, threshold: u32) -> (r: Result<(), GameError>)
        ensures
            r == (if admin == old(self).admin { Ok(()) } else { Err(GameError::AdminOnly) }),
            r is Err ==> *final(self) == *old(self),
            r is Ok ==> final(self).thresholds@ == old(self).thresholds@.insert(level as u64, threshold),
            r is Ok ==> final(self).config == old(self).config && final(self).milestones@ == old(self).milestones@
                && final(self).streaks@ == old(self).streaks@ && final(self).combos@ == old(self).combos@,
    {
        if admin != self.admin {
            return Err(GameError::AdminOnly);
        }
        self.thresholds.insert(level as u64, threshold);
        Ok(())
    }

    /// Records a daily action of `player` at ledger `ledger` and returns the
    /// streak multiplier. The player's first daily action starts the streak
    /// at 1; after that a new day begins a full day after the last claim, and
    /// a claim within two days extends the streak, a later one restarts it at 1.
    /// The player's multiplier is then applied: recorded in the history and
    /// counted in the global stats.
    pub fn record_daily_action(&mut self, player: u64, ledger: u32) -> (r: Result<u32, GameError>)
        requires
            get_or(old(self).streaks@, player, zero_streak()).daily_streak < u32::MAX,
            get_or(old(self).streaks@, player, zero_streak()).weekly_streak < u32::MAX,
            old(self).multiplier_fits(player, ledger),
            old(self).stats.total_multipliers_applied < u32::MAX,
        ensures
            r is Err <==> old(self).config.paused,
            r is Err ==> r == Err::<u32, GameError>(GameError::Paused) && *final(self) == *old(self),
            r matches Ok(m) ==> {
                let s0 = get_or(old(self).streaks@, player, zero_streak());
                let first = !old(self).streaks@.contains_key(player);
                let s1 = daily_action_spec(s0, ledger, first);
                let ms = old(self).multiplier_with(s1, get_or(old(self).combos@, player, zero_combo()), player, ledger);
                &&& m == streak_mult_spec(s1)
                &&& final(self).streaks@ == (if is_new_day(s0, ledger, first) {
                    old(self).streaks@.insert(player, s1)
                } else {
                    old(self).streaks@
                })
                &&& final(self).history_list(player) == history_push(old(self).history_list(player), MultiplierHistoryEntry { ledger, multiplier: ms.total_multiplier, breakdown: ms })
                &&& forall|p: u64| p != player ==> #[trigger] final(self).history_list(p) == old(self).history_list(p)
                &&& final(self).stats == (GlobalStats { total_multipliers_applied: (old(self).stats.total_multipliers_applied + 1) as u32, ..old(self).stats })
                &&& final(self).combos@ == old(self).combos@
                &&& final(self).same_settings(old(self))
            },
    {
        if self.config.paused {
            return Err(GameError::Paused);
        }
        let (mut s, first) = match self.streaks.get(player) {
            Some(x) => (*x, false),
            None => (StreakData {
                daily_streak: 0,
                weekly_streak: 0,
                last_daily_claim: 0,
                last_weekly_claim: 0,
                best_daily_streak: 0,
                best_weekly_streak: 0,
            }, true),
        };
        let since = if ledger >= s.last_daily_claim { ledger - s.last_daily_claim } else { 0 };
        if first || since >= DAY_IN_LEDGERS {
            if since < DAY_IN_LEDGERS * 2 {
                s.daily_streak = s.daily_streak + 1;
                if s.daily_streak > s.best_daily_streak {
                    s.best_daily_streak = s.daily_streak;
                }
            } else {
                s.daily_streak = 1;
            }
            s.last_daily_claim = ledger;
            let wsince = if ledger >= s.last_weekly_claim { ledger - s.last_weekly_claim } else { 0 };
            if wsince >= WEEK_IN_LEDGERS {
                if wsince < WEEK_IN_LEDGERS * 2 {
                    s.weekly_streak = s.weekly_streak + 1;
                    if s.weekly_streak > s.best_weekly_streak {
                        s.best_weekly_streak = s.weekly_streak;
                    }
                } else {
                    s.weekly_streak = 1;
                }
                s.last_weekly_claim = ledger;
            }
            self.streaks.insert(player, s);
        }
        let m = Self::calculate_streak_multiplier(&s);
        self.apply_multiplier(player, ledger);
        Ok(m)
    }

    /// Applies the player's multiplier at `ledger`: it is recorded in the
    /// history and the count of applied multipliers goes up by one.
    fn apply_multiplier(&mut self, player: u64, ledger: u32)
        requires
            old(self).multiplier_fits(player, ledger),
            old(self).stats.total_multipliers_applied < u32::MAX,
        ensures
            final(self).history_list(player) == history_push(old(self).history_list(player), MultiplierHistoryEntry {
                ledger,
                multiplier: old(self).multiplier_spec(player, ledger).total_multiplier,
                breakdown: old(self).multiplier_spec(player, ledger),
            }),
            forall|p: u64| p != player ==> #[trigger] final(self).history_list(p) == old(self).history_list(p),
            final(self).stats == (GlobalStats { total_multipliers_applied: (old(self).stats.total_multipliers_applied + 1) as u32, ..old(self).stats }),
            final(self).streaks@ == old(self).streaks@,
            final(self).combos@ == old(self).combos@,
            final(self).same_settings(old(self)),
    {
        self.stats.total_multipliers_applied = self.stats.total_multipliers_applied + 1;
        self.get_total_multiplier(player, ledger);
    }

    pub open spec fn same_except_streaks(&self, other: &Self) -> bool {
        &&& self.config == other.config
        &&& self.admin == other.admin
        &&& self.stats == other.stats
        &&& self.thresholds@ == other.thresholds@
        &&& self.verifiers@ == other.verifiers@
        &&& self.combos@ == other.combos@
        &&& self.milestones@ == other.milestones@
        &&& self.boosts@ == other.boosts@
        &&& self.history@ == other.history@
        &&& self.leaderboard@ == other.leaderboard@
    }

    /// The player's streak data (all zero before the first claim).
    pub fn get_streak_data(&self, player: u64) -> (s: StreakData)
        ensures
            s == get_or(self.streaks@, player, zero_streak()),
    {
        match self.streaks.get(player) {
            Some(x) => *x,
            None => StreakData {
                daily_streak: 0,
                weekly_streak: 0,
                last_daily_claim: 0,
                last_weekly_claim: 0,
                best_daily_streak: 0,
                best_weekly_streak: 0,
            },
        }
    }

    /// Records a combo action of `player` at `ledger` and returns the combo
    /// multiplier. A combo idle for longer than the decay period first loses
    /// `rate` points per ledger beyond it; the combo is capped at 100. The
    /// player's multiplier is then applied: recorded in the history and
    /// counted in the global stats.
    pub fn record_combo_action(&mut self, player: u64, ledger: u32) -> (r: Result<u32, GameError>)
        requires
            combo_action_fits(get_or(old(self).combos@, player, zero_combo()), ledger, old(self).config.combo_decay_period, old(self).config.combo_decay_rate),
            old(self).bonus_fits(player, ledger),
            old(self).stats.total_multipliers_applied < u32::MAX,
        ensures
            r is Err <==> old(self).config.paused,
            r is Err ==> r == Err::<u32, GameError>(GameError::Paused) && *final(self) == *old(self),
            r matches Ok(m) ==> {
                let c0 = get_or(old(self).combos@, player, zero_combo());
                let c1 = combo_action_spec(c0, ledger, old(self).config.combo_decay_period, old(self).config.combo_decay_rate);
                let ms = old(self).multiplier_with(get_or(old(self).streaks@, player, zero_streak()), c1, player, ledger);
                &&& m == combo_mult_spec(c1.current_combo)
                &&& final(self).combos@ == old(self).combos@.insert(player, c1)
                &&& final(self).stats == (GlobalStats {
                    total_multipliers_applied: (old(self).stats.total_multipliers_applied + 1) as u32,
                    highest_combo: if c1.best_combo > c0.best_combo && c1.best_combo > old(self).stats.highest_combo {
                        c1.best_combo
                    } else {
                        old(self).stats.highest_combo
                    },
                    ..old(self).stats
                })
                &&& final(self).history_list(player) == history_push(old(self).history_list(player), MultiplierHistoryEntry { ledger, multiplier: ms.total_multiplier, breakdown: ms })
                &&& forall|p: u64| p != player ==> #[trigger] final(self).history_list(p) == old(self).history_list(p)
                &&& final(self).streaks@ == old(self).streaks@
                &&& final(self).same_settings(old(self))
            },
    {
        if self.config.paused {
            return Err(GameError::Paused);
        }
        let period = self.config.combo_decay_period;
        let rate = self.config.combo_decay_rate;
        let mut c = match self.combos.get(player) {
            Some(x) => *x,
            None => ComboChain { current_combo: 0, best_combo: 0, last_action_ledger: 0, combo_decay_start: 0 },
        };
        if c.current_combo > 0 {
            let since = if ledger >= c.last_action_ledger { ledger - c.last_action_ledger } else { 0 };
            if since > period {
                let decay = (since - period) * rate;
                c.current_combo = if c.current_combo >= decay { c.current_combo - decay } else { 0 };
            }
        }
        let next = if c.current_combo < MAX_COMBO_CHAIN { c.current_combo + 1 } else { MAX_COMBO_CHAIN };
        c.current_combo = next;
        if c.current_combo > c.best_combo {
            c.best_combo = c.current_combo;
            if c.best_combo > self.stats.highest_combo {
                self.stats.highest_combo = c.best_combo;
            }
        }
        c.last_action_ledger = ledger;
        c.combo_decay_start = ledger + period;
        self.combos.insert(player, c);
        let m = Self::calculate_combo_multiplier(c.current_combo);
        self.apply_multiplier(player, ledger);
        Ok(m)
    }

    /// The player's combo data (all zero before the first action).
    pub fn get_combo_data(&self, player: u64) -> (c: ComboChain)
        ensures
            c == get_or(self.combos@, player, zero_combo()),
    {
        match self.combos.get(player) {
            Some(x) => *x,
            None => ComboChain { current_combo: 0, best_combo: 0, last_action_ledger: 0, combo_decay_start: 0 },
        }
    }

    /// Records a milestone action for `player` (the admin has authorised) and
    /// returns the milestone multiplier. Every level 1 to 10 with a threshold
    /// that the new action count reaches, above the levels unlocked so far,
    /// unlocks and adds 5 to the permanent bonus.
    pub fn record_milestone_action(&mut self, player: u64) -> (r: Result<u32, GameError>)
        requires
            get_or(old(self).milestones@, player, zero_progress()).total_actions < u32::MAX,
            get_or(old(self).milestones@, player, zero_progress()).permanent_bonus + 150 <= u32::MAX,
        ensures
            r is Err <==> old(self).config.paused,
            r is Err ==> r == Err::<u32, GameError>(GameError::Paused) && *final(self) == *old(self),
            r matches Ok(m) ==> {
                let p0 = get_or(old(self).milestones@, player, zero_progress());
                let p1 = unlock_from(MilestoneProgress { total_actions: (p0.total_actions + 1) as u32, ..p0 }, old(self).thresholds@, 1);
                &&& final(self).milestones@ == old(self).milestones@.insert(player, p1)
                &&& m == milestone_mult_spec(p1.permanent_bonus)
                &&& final(self).config == old(self).config
                &&& final(self).stats == old(self).stats
                &&& final(self).streaks@ == old(self).streaks@
                &&& final(self).combos@ == old(self).combos@
                &&& final(self).boosts@ == old(self).boosts@
                &&& final(self).history@ == old(self).history@
                &&& final(self).leaderboard@ == old(self).leaderboard@
            },
    {
        if self.config.paused {
            return Err(GameError::Paused);
        }
        let mut p = match self.milestones.get(player) {
            Some(x) => *x,
            None => MilestoneProgress { total_actions: 0, milestones_unlocked: 0, permanent_bonus: 0 },
        };
        p.total_actions = p.total_actions + 1;
        let ghost p_start = p;
        let ghost bonus0 = p.permanent_bonus;
        let mut level: u32 = 1;
        while level <= 10
            invariant
                1 <= level <= 11,
                unlock_from(p, self.thresholds@, level) == unlock_from(p_start, self.thresholds@, 1),
                p.permanent_bonus <= bonus0 + 5 * (level - 1),
                bonus0 + 150 <= u32::MAX,
            decreases 11 - level,
        {
            match self.thresholds.get(level as u64) {
                Some(t) => {
                    if p.total_actions >= *t && level > p.milestones_unlocked {
                        p.milestones_unlocked = level;
                        p.permanent_bonus = p.permanent_bonus + 5;
                    }
                },
                None => {},
            }
            level = level + 1;
        }
        self.milestones.insert(player, p);
        Ok(Self::calculate_milestone_multiplier(p.permanent_bonus))
    }

    /// The player's milestone progress (all zero before the first action).
    pub fn get_milestone_progress(&self, player: u64) -> (p: MilestoneProgress)
        ensures
            p == get_or(self.milestones@, player, zero_progress()),
    {
        match self.milestones.get(player) {
            Some(x) => *x,
            None => MilestoneProgress { total_actions: 0, milestones_unlocked: 0, permanent_bonus: 0 },
        }
    }

    /// Gives `player` a boost of the given type starting at `ledger` (the
    /// caller has authorised as `admin`; the role itself is not checked).
    pub fn activate_boost(&mut self, player: u64, boost_type: BoostType, duration_ledgers: u32, ledger: u32) -> (r: Result<(), GameError>)
        ensures
            r is Err <==> old(self).config.paused,
            r is Err ==> *final(self) == *old(self),
            r is Ok ==> {
                &&& final(self).boost_list(player) == old(self).boost_list(player).push(BoostItem {
                    boost_type,
                    multiplier_bonus: boost_bonus_spec(boost_type),
                    start_ledger: ledger,
                    duration_ledgers,
                    is_active: true,
                })
                &&& final(self).boosts@.dom() == old(self).boosts@.dom().insert(player)
                &&& forall|p: u64| p != player ==> #[trigger] final(self).boost_list(p) == old(self).boost_list(p)
                &&& final(self).config == old(self).config
                &&& final(self).combos@ == old(self).combos@
                &&& final(self).streaks@ == old(self).streaks@
                &&& final(self).milestones@ == old(self).milestones@
            },
    {
        if self.config.paused {
            return Err(GameError::Paused);
        }
        let bonus: u32 = match boost_type {
            BoostType::SpeedBoost => 50,
            BoostType::LuckBoost => 30,
            BoostType::PowerBoost => 20,
            BoostType::SuperBoost => 100,
        };
        let mut list = match self.boosts.remove(player) {
            Some(l) => l,
            None => Vec::new(),
        };
        list.push(BoostItem { boost_type, multiplier_bonus: bonus, start_ledger: ledger, duration_ledgers, is_active: true });
        self.boosts.insert(player, list);
        assert(self.boosts@.dom() =~= old(self).boosts@.dom().insert(player));
        Ok(())
    }

    /// Marks the player's boost at `boost_index` inactive, when there is one.
    pub fn deactivate_boost(&mut self, player: u64, boost_index: u32)
        ensures
            final(self).boost_list(player) == (if (boost_index as int) < old(self).boost_list(player).len() {
                old(self).boost_list(player).update(boost_index as int, BoostItem { is_active: false, ..old(self).boost_list(player)[boost_index as int] })
            } else {
                old(self).boost_list(player)
            }),
            forall|p: u64| p != player ==> #[trigger] final(self).boost_list(p) == old(self).boost_list(p),
            final(self).config == old(self).config,
            final(self).combos@ == old(self).combos@,
            final(self).streaks@ == old(self).streaks@,
            final(self).milestones@ == old(self).milestones@,
    {
        let n = match self.boosts.get(player) {
            Some(l) => l.len(),
            None => 0,
        };
        if (boost_index as usize) < n {
            let mut list = self.boosts.remove(player).unwrap();
            let mut b = list[boost_index as usize];
            b.is_active = false;
            list.set(boost_index as usize, b);
            self.boosts.insert(player, list);
        }
    }

    /// The player's boosts that are marked active and have not run out at `ledger`.
    pub fn get_active_boosts(&self, player: u64, ledger: u32) -> (r: Vec<BoostItem>)
        requires
            forall|i: int| 0 <= i < self.boost_list(player).len() ==> #[trigger] self.boost_list(player)[i].start_ledger + self.boost_list(player)[i].duration_ledgers <= u32::MAX,
        ensures
            r@ == running_boosts(self.boost_list(player), ledger),
    {
        let mut out: Vec<BoostItem> = Vec::new();
        match self.boosts.get(player) {
            Some(l) => {
                let mut i: usize = 0;
                while i < l.len()
                    invariant
                        i <= l@.len(),
                        l@ == self.boost_list(player),
                        out@ == running_boosts(l@.subrange(0, i as int), ledger),
                        forall|j: int| 0 <= j < l@.len() ==> #[trigger] l@[j].start_ledger + l@[j].duration_ledgers <= u32::MAX,
                    decreases l@.len() - i,
                {
                    let b = l[i];
                    proof {
                        assert(l@.subrange(0, i + 1).drop_last() =~= l@.subrange(0, i as int));
                        reveal_with_fuel(Seq::filter, 1);
                    }
                    if b.is_active && ledger < b.start_ledger + b.duration_ledgers {
                        out.push(b);
                    }
                    i = i + 1;
                }
                assert(l@.subrange(0, l@.len() as int) =~= l@);
            },
            None => {
                assert(running_boosts(Seq::<BoostItem>::empty(), ledger) =~= Seq::<BoostItem>::empty());
            },
        }
        out
    }

    /// The player's multiplier breakdown at `ledger`; the result is appended
    /// to the player's history, which keeps the newest fifty entries.
    pub fn get_total_multiplier(&mut self, player: u64, ledger: u32) -> (m: MultiplierState)
        requires
            old(self).multiplier_fits(player, ledger),
        ensures
            m == old(self).multiplier_spec(player, ledger),
            100 <= m.total_multiplier <= 500,
            final(self).history_list(player) == history_push(old(self).history_list(player), MultiplierHistoryEntry { ledger, multiplier: m.total_multiplier, breakdown: m }),
            forall|p: u64| p != player ==> #[trigger] final(self).history_list(p) == old(self).history_list(p),
            final(self).history@.dom() == old(self).history@.dom().insert(player),
            final(self).same_except_history(old(self)),
    {
        let streak = self.get_streak_data(player);
        let combo = self.get_combo_data(player);
        let prog = self.get_milestone_progress(player);
        let boosts = self.get_active_boosts(player, ledger);
        let s = Self::calculate_streak_multiplier(&streak);
        let c = Self::calculate_combo_multiplier(combo.current_combo);
        let mm = Self::calculate_milestone_multiplier(prog.permanent_bonus);
        let b = Self::calculate_boost_multiplier(&boosts);
        let total = Self::apply_stacking_rules(s, c, mm, b);
        proof {
            law_stacking_bounds(s, c, mm, b);
        }
        let state = MultiplierState {
            base_multiplier: BASE_MULTIPLIER,
            streak_multiplier: s,
            combo_multiplier: c,
            milestone_multiplier: mm,
            boost_multiplier: b,
            total_multiplier: total,
        };
        self.record_multiplier_history(player, ledger, state);
        state
    }

    fn record_multiplier_history(&mut self, player: u64, ledger: u32, state: MultiplierState)
        ensures
            final(self).history_list(player) == history_push(old(self).history_list(player), MultiplierHistoryEntry { ledger, multiplier: state.total_multiplier, breakdown: state }),
            forall|p: u64| p != player ==> #[trigger] final(self).history_list(p) == old(self).history_list(p),
            final(self).history@.dom() == old(self).history@.dom().insert(player),
            final(self).same_except_history(old(self)),
    {
        let mut h = match self.history.remove(player) {
            Some(l) => l,
            None => Vec::new(),
        };
        let entry = MultiplierHistoryEntry { ledger, multiplier: state.total_multiplier, breakdown: state };
        if h.len() >= MAX_HISTORY {
            h.remove(0);
        }
        let ghost before = h@;
        h.push(entry);
        self.history.insert(player, h);
        assert(self.history@.dom() =~= old(self).history@.dom().insert(player));
    }

    /// The reward for `base_reward` with the player's multiplier applied
    /// (base times multiplier over 100); the multiplier is recorded in the
    /// history and the count of applied multipliers goes up by one.
    pub fn calculate_reward(&mut self, player: u64, base_reward: u128, ledger: u32) -> (r: u128)
        requires
            old(self).multiplier_fits(player, ledger),
            base_reward * 500 <= u128::MAX,
            old(self).stats.total_multipliers_applied < u32::MAX,
        ensures
            r == base_reward * old(self).multiplier_spec(player, ledger).total_multiplier / 100,
            final(self).stats == (GlobalStats { total_multipliers_applied: (old(self).stats.total_multipliers_applied + 1) as u32, ..old(self).stats }),
            final(self).history_list(player) == history_push(old(self).history_list(player), MultiplierHistoryEntry {
                ledger,
                multiplier: old(self).multiplier_spec(player, ledger).total_multiplier,
                breakdown: old(self).multiplier_spec(player, ledger),
            }),
    {
        let m = self.get_total_multiplier(player, ledger);
        proof {
            assert(base_reward * m.total_multiplier <= base_reward * 500) by (nonlinear_arith)
                requires
                    m.total_multiplier <= 500,
            ;
        }
        let reward = (base_reward * m.total_multiplier as u128) / 100;
        self.stats.total_multipliers_applied = self.stats.total_multipliers_applied + 1;
        reward
    }

    /// The newest `limit` history entries of the player, newest first.
    pub fn get_multiplier_history(&self, player: u64, limit: u32) -> (r: Vec<MultiplierHistoryEntry>)
        ensures
            r@ == newest_first(self.history_list(player), limit),
    {
        let mut out: Vec<MultiplierHistoryEntry> = Vec::new();
        match self.history.get(player) {
            Some(h) => {
                let n: usize = if (limit as usize) < h.len() { limit as usize } else { h.len() };
                let mut i: usize = 0;
                while i < n
                    invariant
                        n <= h@.len(),
                        i <= n,
                        n == min_int(limit as int, h@.len() as int),
                        h@ == self.history_list(player),
                        out@ == Seq::new(i as nat, |j: int| h@[h@.len() - 1 - j]),
                    decreases n - i,
                {
                    out.push(h[h.len() - 1 - i]);
                    i = i + 1;
                    assert(out@ =~= Seq::new(i as nat, |j: int| h@[h@.len() - 1 - j]));
                }
                assert(out@ =~= newest_first(self.history_list(player), limit));
            },
            None => {
                assert(out@ =~= newest_first(self.history_list(player), limit));
            },
        }
        out
    }

    /// Puts the player on the leaderboard with their current multiplier at
    /// `ledger` (which also records it in the history).
    pub fn update_leaderboard(&mut self, player: u64, ledger: u32) -> (r: Result<(), GameError>)
        requires
            old(self).multiplier_fits(player, ledger),
        ensures
            r is Err <==> old(self).config.paused,
            r is Err ==> *final(self) == *old(self),
            r is Ok ==> {
                let m = old(self).multiplier_spec(player, ledger);
                let s = get_or(old(self).streaks@, player, zero_streak());
                let e = PlayerLeaderboardEntry {
                    player,
                    total_multiplier: m.total_multiplier,
                    total_actions: get_or(old(self).milestones@, player, zero_progress()).total_actions,
                    best_combo: get_or(old(self).combos@, player, zero_combo()).best_combo,
                    best_streak: if s.best_daily_streak >= s.best_weekly_streak { s.best_daily_streak } else { s.best_weekly_streak },
                };
                &&& final(self).leaderboard@ == board_update(old(self).leaderboard@, e, old(self).config.max_leaderboard_entries)
                &&& final(self).history_list(player) == history_push(old(self).history_list(player), MultiplierHistoryEntry { ledger, multiplier: m.total_multiplier, breakdown: m })
                &&& final(self).config == old(self).config
                &&& final(self).stats == old(self).stats
            },
    {
        if self.config.paused {
            return Err(GameError::Paused);
        }
        let m = self.get_total_multiplier(player, ledger);
        let s = self.get_streak_data(player);
        let c = self.get_combo_data(player);
        let p = self.get_milestone_progress(player);
        let e = PlayerLeaderboardEntry {
            player,
            total_multiplier: m.total_multiplier,
            total_actions: p.total_actions,
            best_combo: c.best_combo,
            best_streak: if s.best_daily_streak >= s.best_weekly_streak { s.best_daily_streak } else { s.best_weekly_streak },
        };
        let mut rest: Vec<PlayerLeaderboardEntry> = Vec::new();
        let mut i: usize = 0;
        while i < self.leaderboard.len()
            invariant
                i <= self.leaderboard@.len(),
                rest@ == board_others(self.leaderboard@.subrange(0, i as int), player),
            decreases self.leaderboard@.len() - i,
        {
            let x = self.leaderboard[i];
            proof {
                assert(self.leaderboard@.subrange(0, i + 1).drop_last() =~= self.leaderboard@.subrange(0, i as int));
                reveal_with_fuel(Seq::filter, 1);
            }
            if x.player != player {
                rest.push(x);
            }
            i = i + 1;
        }
        assert(self.leaderboard@.subrange(0, self.leaderboard@.len() as int) =~= self.leaderboard@);
        let max = self.config.max_leaderboard_entries;
        let mut out: Vec<PlayerLeaderboardEntry> = Vec::new();
        let mut inserted = false;
        let mut j: usize = 0;
        while j < rest.len()
            invariant
                j <= rest@.len(),
                board_walk(rest@, e, max, j as int, out@, inserted) == board_walk(rest@, e, max, 0, Seq::empty(), false),
            decreases rest@.len() - j,
        {
            let x = rest[j];
            if !inserted && e.total_multiplier > x.total_multiplier {
                out.push(e);
                inserted = true;
            }
            if (out.len() as u64) < (max as u64) {
                out.push(x);
            }
            j = j + 1;
        }
        if !inserted && (out.len() as u64) < (max as u64) {
            out.push(e);
        }
        self.leaderboard = out;
        Ok(())
    }

    /// The first `limit` leaderboard entries.
    pub fn get_leaderboard(&self, limit: u32) -> (r: Vec<PlayerLeaderboardEntry>)
        ensures
            r@ == self.leaderboard@.subrange(0, min_int(limit as int, self.leaderboard@.len() as int)),
    {
        let n: usize = if (limit as usize) < self.leaderboard.len() { limit as usize } else { self.leaderboard.len() };
        let mut out: Vec<PlayerLeaderboardEntry> = Vec::new();
        let mut i: usize = 0;
        while i < n
            invariant
                i <= n <= self.leaderboard@.len(),
                out@ == self.leaderboard@.subrange(0, i as int),
            decreases n - i,
        {
            out.push(self.leaderboard[i]);
            i = i + 1;
            assert(out@ =~= self.leaderboard@.subrange(0, i as int));
        }
        out
    }

    /// The player's 1-based position on the leaderboard, 0 when not listed.
    pub fn get_player_rank(&self, player: u64) -> (r: u32)
        requires
            self.leaderboard@.len() < u32::MAX,
        ensures
            r == rank_in(self.leaderboard@, player),
    {
        let mut i: usize = 0;
        while i < self.leaderboard.len()
            invariant
                i <= self.leaderboard@.len() < u32::MAX,
                forall|j: int| 0 <= j < i ==> #[trigger] self.leaderboard@[j].player != player,
            decreases self.leaderboard@.len() - i,
        {
            if self.leaderboard[i].player == player {
                proof {
                    lemma_rank_at(self.leaderboard@, player, i as int);
                }
                return (i + 1) as u32;
            }
            i = i + 1;
        }
        proof {
            lemma_rank_absent(self.leaderboard@, player);
        }
        0
    }

    pub fn get_global_stats(&self) -> (s: GlobalStats)
        ensures
            s == self.stats,
    {
        self.stats
    }

    pub fn get_config(&self) -> (c: Config)
        ensures
            c == self.config,
    {
        self.config
    }
}

proof fn lemma_rank_at(b: Seq<PlayerLeaderboardEntry>, p: u64, i: int)
    requires
        0 <= i < b.len(),
        b[i].player == p,
        forall|j: int| 0 <= j < i ==> #[trigger] b[j].player != p,
    ensures
        rank_in(b, p) == i + 1,
    decreases i,
{
    if i > 0 {
        assert forall|j: int| 0 <= j < i - 1 implies #[trigger] b.drop_first()[j].player != p by {
            assert(b.drop_first()[j] == b[j + 1]);
        }
        lemma_rank_at(b.drop_first(), p, i - 1);
    }
}

proof fn lemma_rank_absent(b: Seq<PlayerLeaderboardEntry>, p: u64)
    requires
        forall|j: int| 0 <= j < b.len() ==> #[trigger] b[j].player != p,
    ensures
        rank_in(b, p) == 0,
    decreases b.len(),
{
    if b.len() > 0 {
        assert forall|j: int| 0 <= j < b.len() - 1 implies #[trigger] b.drop_first()[j].player != p by {
            assert(b.drop_first()[j] == b[j + 1]);
        }
        lemma_rank_absent(b.drop_first(), p);
    }
}


/// The index at which the walk from `i` places `e`: the first entry with a
/// smaller multiplier, or the end of `rest`.
pub open spec fn place_from(rest: Seq<PlayerLeaderboardEntry>, e: PlayerLeaderboardEntry, i: int) -> int
    decreases rest.len() - i,
{
    if i >= rest.len() || i < 0 {
        rest.len() as int
    } else if e.total_multiplier > rest[i].total_multiplier {
        i
    } else {
        place_from(rest, e, i + 1)
    }
}

/// The first `n` entries of `s`, or all of them where there are fewer.
pub open spec fn take_upto(s: Seq<PlayerLeaderboardEntry>, n: int) -> Seq<PlayerLeaderboardEntry> {
    if s.len() <= n { s } else { s.take(n) }
}

/// Updating a well-formed leaderboard gives a well-formed leaderboard: it stays
/// sorted by multiplier (highest first), lists no player twice and holds at most
/// `max` entries. The player's entry, where listed, is the new one; it is listed
/// unless the board is full of others whose multipliers are all at least as high;
/// and the other players' entries are a prefix of theirs before, in the same order.
pub proof fn law_leaderboard_stays_ranked(board: Seq<PlayerLeaderboardEntry>, e: PlayerLeaderboardEntry, max: u32)
    requires
        board_ranked(board, max),
    ensures
        board_ranked(board_update(board, e, max), max),
        forall|j: int| 0 <= j < board_update(board, e, max).len() && #[trigger] board_update(board, e, max)[j].player == e.player
            ==> board_update(board, e, max)[j] == e,
        board_update(board, e, max).contains(e) <==> (board_others(board, e.player).len() < max
            || exists|m: int| 0 <= m < board_others(board, e.player).len()
                && #[trigger] board_others(board, e.player)[m].total_multiplier < e.total_multiplier),
        board_others(board_update(board, e, max), e.player)
            == board_others(board, e.player).take(board_others(board_update(board, e, max), e.player).len() as int),
{
    let p = e.player;
    let rest = board_others(board, p);
    lemma_others_ranked(board, p, max);
    assert(rest.subrange(0, 0) =~= Seq::<PlayerLeaderboardEntry>::empty());
    lemma_walk_open(rest, e, max, 0);
    let k = place_from(rest, e, 0);
    let new = board_update(board, e, max);
    assert(new == take_upto(insert_at(rest, k, e), max as int));
    lemma_insert_ranked(rest, e, k, max);
    lemma_insert_others(rest, e, k, max);
    if new.contains(e) {
        let j = choose|j: int| 0 <= j < new.len() && new[j] == e;
        assert(new[j].player == p);
    }
    if k < rest.len() {
        assert(rest[k].total_multiplier < e.total_multiplier);
    }
}

/// `e` placed at index `k` of `rest`.
pub open spec fn insert_at(rest: Seq<PlayerLeaderboardEntry>, k: int, e: PlayerLeaderboardEntry) -> Seq<PlayerLeaderboardEntry> {
    rest.subrange(0, k).push(e) + rest.subrange(k, rest.len() as int)
}

/// Placing `e` where the multipliers drop below its own, in a well-formed board
/// without its player, and keeping `max` entries, gives a well-formed board.
proof fn lemma_insert_ranked(rest: Seq<PlayerLeaderboardEntry>, e: PlayerLeaderboardEntry, k: int, max: u32)
    requires
        board_ranked(rest, max),
        forall|i: int| 0 <= i < rest.len() ==> #[trigger] rest[i].player != e.player,
        0 <= k <= rest.len(),
        forall|j: int| 0 <= j < k ==> #[trigger] rest[j].total_multiplier >= e.total_multiplier,
        k < rest.len() ==> e.total_multiplier > rest[k].total_multiplier,
    ensures
        board_ranked(take_upto(insert_at(rest, k, e), max as int), max),
        forall|j: int| 0 <= j < take_upto(insert_at(rest, k, e), max as int).len()
            && #[trigger] take_upto(insert_at(rest, k, e), max as int)[j].player == e.player
            ==> j == k && take_upto(insert_at(rest, k, e), max as int)[j] == e,
        k < take_upto(insert_at(rest, k, e), max as int).len() <==> k < max,
        k < max ==> take_upto(insert_at(rest, k, e), max as int)[k] == e,
{
    let u = insert_at(rest, k, e);
    let new = take_upto(u, max as int);
    assert(u.len() == rest.len() + 1);
    assert forall|j: int| 0 <= j < u.len() implies #[trigger] u[j] == (if j < k { rest[j] } else if j == k { e } else { rest[j - 1] }) by {}
    assert forall|j: int| 0 <= j < new.len() implies #[trigger] new[j] == u[j] by {}
    assert forall|a: int, b: int| 0 <= a < b < new.len() implies new[a].total_multiplier >= new[b].total_multiplier by {
        assert(new[a] == u[a] && new[b] == u[b]);
        if b > k {
            assert(rest[k].total_multiplier < e.total_multiplier);
            assert(rest[k].total_multiplier >= rest[b - 1].total_multiplier);
        }
    }
    assert forall|a: int, b: int| 0 <= a < b < new.len() implies new[a].player != new[b].player by {
        assert(new[a] == u[a] && new[b] == u[b]);
    }
}

/// Placing an entry of the player and keeping a prefix leaves a prefix of the
/// other players' entries.
proof fn lemma_insert_others(rest: Seq<PlayerLeaderboardEntry>, e: PlayerLeaderboardEntry, k: int, max: u32)
    requires
        forall|i: int| 0 <= i < rest.len() ==> #[trigger] rest[i].player != e.player,
        0 <= k <= rest.len(),
    ensures
        board_others(take_upto(insert_at(rest, k, e), max as int), e.player)
            == rest.take(board_others(take_upto(insert_at(rest, k, e), max as int), e.player).len() as int),
{
    let p = e.player;
    let u = insert_at(rest, k, e);
    let new = take_upto(u, max as int);
    let n = new.len() as int;
    assert(u =~= new + u.skip(n));
    Seq::filter_distributes_over_add(new, u.skip(n), not_player(p));
    Seq::filter_distributes_over_add(rest.subrange(0, k).push(e), rest.subrange(k, rest.len() as int), not_player(p));
    lemma_filter_push_player(rest.subrange(0, k), e);
    lemma_filter_all(rest.subrange(0, k), p);
    lemma_filter_all(rest.subrange(k, rest.len() as int), p);
    assert(rest.subrange(0, k) + rest.subrange(k, rest.len() as int) =~= rest);
    assert(board_others(u, p) == rest);
    let fnew = board_others(new, p);
    assert(fnew =~= rest.take(fnew.len() as int));
}

/// Filtering drops an appended entry of the player.
proof fn lemma_filter_push_player(s: Seq<PlayerLeaderboardEntry>, e: PlayerLeaderboardEntry)
    ensures
        board_others(s.push(e), e.player) == board_others(s, e.player),
{
    reveal_with_fuel(Seq::filter, 1);
    assert(s.push(e).drop_last() =~= s);
}

/// A board with no entry of the player is unchanged by filtering it out.
proof fn lemma_filter_all(s: Seq<PlayerLeaderboardEntry>, p: u64)
    requires
        forall|i: int| 0 <= i < s.len() ==> #[trigger] s[i].player != p,
    ensures
        board_others(s, p) == s,
    decreases s.len(),
{
    reveal_with_fuel(Seq::filter, 1);
    if s.len() > 0 {
        let s1 = s.drop_last();
        assert forall|i: int| 0 <= i < s1.len() implies #[trigger] s1[i].player != p by {
            assert(s1[i] == s[i]);
        }
        lemma_filter_all(s1, p);
        assert(s1.push(s.last()) =~= s);
    }
}

/// Filtering a well-formed board gives a well-formed board of entries taken
/// from it, none of them the player's.
proof fn lemma_others_ranked(s: Seq<PlayerLeaderboardEntry>, p: u64, max: u32)
    requires
        board_ranked(s, max),
    ensures
        board_ranked(board_others(s, p), max),
        board_others(s, p).len() <= s.len(),
        forall|i: int| 0 <= i < board_others(s, p).len() ==> #[trigger] board_others(s, p)[i].player != p,
        forall|i: int| 0 <= i < board_others(s, p).len() ==> s.contains(#[trigger] board_others(s, p)[i]),
    decreases s.len(),
{
    reveal_with_fuel(Seq::filter, 1);
    if s.len() > 0 {
        let s1 = s.drop_last();
        let f1 = board_others(s1, p);
        let f = board_others(s, p);
        lemma_others_ranked(s1, p, max);
        assert forall|i: int| 0 <= i < f1.len() implies s.contains(#[trigger] f1[i]) by {
            let a = choose|a: int| 0 <= a < s1.len() && s1[a] == f1[i];
            assert(s[a] == f1[i]);
        }
        if s.last().player != p {
            assert(f == f1.push(s.last()));
            assert forall|i: int, j: int| 0 <= i < j < f.len() implies f[i].total_multiplier >= f[j].total_multiplier
                && f[i].player != f[j].player by {
                if j == f1.len() {
                    let a = choose|a: int| 0 <= a < s1.len() && s1[a] == f1[i];
                    assert(s[a] == f[i]);
                    assert(s[s.len() - 1] == f[j]);
                } else {
                    assert(f[i] == f1[i] && f[j] == f1[j]);
                }
            }
            assert forall|i: int| 0 <= i < f.len() implies s.contains(#[trigger] f[i]) by {
                if i == f1.len() {
                    assert(s[s.len() - 1] == f[i]);
                } else {
                    assert(f[i] == f1[i]);
                }
            }
        } else {
            assert(f == f1);
        }
    }
}

/// The walk once `e` is placed keeps the rest of `rest` while there is room.
proof fn lemma_walk_placed(rest: Seq<PlayerLeaderboardEntry>, e: PlayerLeaderboardEntry, max: u32, i: int, acc: Seq<PlayerLeaderboardEntry>)
    requires
        0 <= i <= rest.len(),
        acc.len() <= max,
    ensures
        board_walk(rest, e, max, i, acc, true) == take_upto(acc + rest.subrange(i, rest.len() as int), max as int),
    decreases rest.len() - i,
{
    if i < rest.len() {
        let acc2 = if acc.len() < max { acc.push(rest[i]) } else { acc };
        lemma_walk_placed(rest, e, max, i + 1, acc2);
        if acc.len() < max {
            assert(acc2 + rest.subrange(i + 1, rest.len() as int) =~= acc + rest.subrange(i, rest.len() as int));
        } else {
            assert(take_upto(acc + rest.subrange(i + 1, rest.len() as int), max as int) =~= acc);
            assert(take_upto(acc + rest.subrange(i, rest.len() as int), max as int) =~= acc);
        }
    } else {
        assert(take_upto(acc + rest.subrange(i, i), max as int) =~= acc);
    }
}

/// The walk from `i`, with the first `i` entries kept and `e` not yet placed,
/// places `e` at `place_from` and keeps the first `max` entries.
proof fn lemma_walk_open(rest: Seq<PlayerLeaderboardEntry>, e: PlayerLeaderboardEntry, max: u32, i: int)
    requires
        0 <= i <= rest.len() <= max,
    ensures
        i <= place_from(rest, e, i) <= rest.len(),
        forall|j: int| i <= j < place_from(rest, e, i) ==> #[trigger] rest[j].total_multiplier >= e.total_multiplier,
        place_from(rest, e, i) < rest.len() ==> e.total_multiplier > rest[place_from(rest, e, i)].total_multiplier,
        board_walk(rest, e, max, i, rest.subrange(0, i), false)
            == take_upto(rest.subrange(0, place_from(rest, e, i)).push(e) + rest.subrange(place_from(rest, e, i), rest.len() as int), max as int),
    decreases rest.len() - i,
{
    let acc = rest.subrange(0, i);
    if i == rest.len() {
        assert(acc =~= rest);
        assert(rest.subrange(i, i) =~= Seq::<PlayerLeaderboardEntry>::empty());
        if rest.len() < max {
            assert(take_upto(rest.push(e) + rest.subrange(i, i), max as int) =~= rest.push(e));
        } else {
            assert(take_upto(rest.push(e) + rest.subrange(i, i), max as int) =~= rest);
        }
    } else if e.total_multiplier > rest[i].total_multiplier {
        let acc1 = acc.push(e);
        lemma_walk_placed(rest, e, max, i, acc1);
    } else {
        lemma_walk_open(rest, e, max, i + 1);
        assert(acc.push(rest[i]) =~= rest.subrange(0, i + 1));
    }
}

} // verus!
