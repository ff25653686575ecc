//! Seasonal battle passes: players buy a free or premium pass, earn XP to
//! level up (100 levels of 1000 XP), and claim progressively larger rewards.
use vstd::prelude::*;
use crate::assoc::{AssocMap, PairMap};
use crate::seqs::copy_vec;

verus! {

pub const SEASON_DURATION: u64 = 2_592_000;
pub const LEVELS_PER_SEASON: u32 = 100;
pub const FREE_TIER_REWARDS: u32 = 50;
pub const PREMIUM_TIER_REWARDS: u32 = 100;
pub const XP_PER_LEVEL: u32 = 1000;

#[derive(Clone, Copy, Debug, PartialEq, Eq, Structural)]
pub enum BattlePassError {
    SeasonNumberNotGreater,
    AlreadyOwnsPass,
    NoPass,
    LevelNotUnlocked,
    InvalidLevel,
    PremiumOnly,
    AlreadyClaimed,
    NotPremium,
    RecipientOwnsPass,
    InvalidMultiplier,
    SeasonNotFound,
    SeasonExpired,
    SeasonNotActive,
}

#[derive(Clone, Copy, Debug, PartialEq, Eq, Structural)]
pub enum PassTier {
    Free,
    Premium,
}

#[derive(Clone, Copy, Debug, PartialEq, Eq, Structural)]
pub struct BattlePass {
    pub owner: u64,
    pub season: u32,
    pub tier: PassTier,
    pub current_level: u32,
    pub is_active: bool,
    pub purchase_time: u64,
}

#[derive(Clone, Copy, Debug, PartialEq, Eq, Structural)]
pub struct SeasonInfo {
    pub season_number: u32,
    pub start_time: u64,
    pub end_time: u64,
    pub is_active: bool,
    pub total_players: u32,
    pub reward_pool: u128,
}

#[derive(Clone, Copy, Debug, PartialEq, Eq, Structural)]
pub struct SeasonRecord {
    pub season: u32,
    pub final_level: u32,
    pub total_xp: u32,
    pub rewards_claimed: bool,
    pub tier: PassTier,
}

#[derive(Clone, Copy, Debug, PartialEq, Eq, Structural)]
pub struct Reward {
    pub level: u32,
    pub reward_amount: u128,
    pub is_exclusive_premium: bool,
}

/// The state of the battle pass contract.
pub struct BattlePassContract {
    /// The current season (1 before any season is started).
    pub current_season: u32,
    /// Whether a season has been started.
    pub season_started: bool,
    pub season_infos: AssocMap<SeasonInfo>,
    /// Passes by (season, player).
    pub passes: PairMap<BattlePass>,
    /// XP by (season, player).
    pub xp: PairMap<u32>,
    /// The highest level claimed, by (season, player).
    pub claimed: PairMap<u32>,
    pub history: AssocMap<Vec<SeasonRecord>>,
    /// The XP multiplier of a season's bonus event.
    pub bonus: AssocMap<u32>,
}

/// The reward for a level: 100 tokens per level, times one plus the
/// level's tens (1x at levels 1 to 9, 2x at 10 to 19, and so on).
pub open spec fn reward_spec(level: u32) -> int {
    100 * level * (level / 10 + 1)
}

/// The sum of the rewards for levels `from..=to`.
pub open spec fn reward_sum(from: int, to: int) -> int
    decreases to - from + 1,
{
    if from > to || from < 0 {
        0
    } else {
        reward_sum(from, to - 1) + reward_spec(to as u32)
    }
}

/// A higher level never pays less.
pub proof fn law_reward_grows_with_level(a: u32, b: u32)
    requires
        a <= b,
    ensures
        reward_spec(a) <= reward_spec(b),
{
    assert(a / 10 <= b / 10) by (nonlinear_arith)
        requires
            a <= b,
    ;
    assert(100 * a * (a / 10 + 1) <= 100 * b * (b / 10 + 1)) by (nonlinear_arith)
        requires
            a <= b,
            a / 10 <= b / 10,
            0 <= a,
    ;
}

proof fn lemma_reward_bound(level: u32)
    requires
        level <= 100,
    ensures
        0 <= reward_spec(level) <= 110000,
{
    law_reward_grows_with_level(level, 100);
    assert(100 * 100 * (100u32 / 10 + 1) == 110000) by (nonlinear_arith);
    assert(0 <= 100 * level * (level / 10 + 1)) by (nonlinear_arith)
        requires
            0 <= level,
    ;
}

proof fn lemma_reward_sum_bound(from: int, to: int)
    requires
        0 <= from,
        to <= 100,
    ensures
        0 <= reward_sum(from, to) <= 110000 * (if to >= from { to - from + 1 } else { 0 }),
    decreases to - from + 1,
{
    if from <= to {
        lemma_reward_sum_bound(from, to - 1);
        lemma_reward_bound(to as u32);
    }
}

impl BattlePassContract {
    /// The reward paid for reaching `level`.
    pub fn calculate_reward(level: u32) -> (r: u128)
        ensures
            r == reward_spec(level),
    {
        let base_reward: u128 = 100;
        let bonus_multiplier = (level / 10) as u128 + 1;
        proof {
            assert(base_reward * level * bonus_multiplier <= 100 * 0xffff_ffff * 0x1_0000_0000) by (nonlinear_arith)
                requires
                    level <= 0xffff_ffff,
                    bonus_multiplier <= 0x1_0000_0000,
                    base_reward == 100,
            ;
        }
        base_reward * level as u128 * bonus_multiplier
    }

    /// Levels and claims never pass the season's last level.
    pub open spec fn wf(&self) -> bool {
        &&& forall|k: (u64, u64)| #[trigger] self.passes@.contains_key(k) ==> self.passes@[k].current_level <= 100
        &&& forall|k: (u64, u64)| #[trigger] self.claimed@.contains_key(k) ==> self.claimed@[k] <= 100
    }

    /// The last season started (0 before any).
    pub open spec fn last_started(&self) -> u32 {
        if self.season_started { self.current_season } else { 0 }
    }

    pub open spec fn pass_of(&self, player: u64) -> Option<BattlePass> {
        let k = (self.current_season as u64, player);
        if self.passes@.contains_key(k) { Some(self.passes@[k]) } else { None }
    }

    pub open spec fn xp_of(&self, player: u64) -> u32 {
        let k = (self.current_season as u64, player);
        if self.xp@.contains_key(k) { self.xp@[k] } else { 0 }
    }

    pub open spec fn claimed_of(&self, player: u64) -> u32 {
        let k = (self.current_season as u64, player);
        if self.claimed@.contains_key(k) { self.claimed@[k] } else { 0 }
    }

    /// Why the current season refuses play at time `now`, if it does.
    pub open spec fn season_check(&self, now: u64) -> Option<BattlePassError> {
        let s = self.current_season as u64;
        if !self.season_infos@.contains_key(s) {
            Some(BattlePassError::SeasonNotFound)
        } else if now > self.season_infos@[s].end_time {
            Some(BattlePassError::SeasonExpired)
        } else if !self.season_infos@[s].is_active {
            Some(BattlePassError::SeasonNotActive)
        } else {
            None
        }
    }

    /// The contract before any season is started.
    pub fn new() -> (c: Self)
        ensures
            c.current_season == 1,
            !c.season_started,
            c.season_infos@ == Map::<u64, SeasonInfo>::empty(),
            c.passes@ == Map::<(u64, u64), BattlePass>::empty(),
            c.xp@ == Map::<(u64, u64), u32>::empty(),
            c.claimed@ == Map::<(u64, u64), u32>::empty(),
            c.history@ == Map::<u64, Vec<SeasonRecord>>::empty(),
            c.bonus@ == Map::<u64, u32>::empty(),
            c.wf(),
    {
        BattlePassContract {
            current_season: 1,
            season_started: false,
            season_infos: AssocMap::new(),
            passes: PairMap::new(),
            xp: PairMap::new(),
            claimed: PairMap::new(),
            history: AssocMap::new(),
            bonus: AssocMap::new(),
        }
    }

    /// Starts season `season_number` at time `now`; it must be later than the
    /// last season started.
    pub fn init_season(&mut self, season_number: u32, reward_pool: u128, now: u64) -> (r: Result<(), BattlePassError>)
        requires
            now + SEASON_DURATION <= u64::MAX,
            old(self).wf(),
        ensures
            final(self).wf(),
            r is Err <==> season_number <= old(self).last_started(),
            r is Err ==> r == Err::<(), BattlePassError>(BattlePassError::SeasonNumberNotGreater) && *final(self) == *old(self),
            r is Ok ==> {
                &&& final(self).current_season == season_number
                &&& final(self).season_started
                &&& final(self).season_infos@ == old(self).season_infos@.insert(season_number as u64, SeasonInfo {
                    season_number,
                    start_time: now,
                    end_time: (now + SEASON_DURATION) as u64,
                    is_active: true,
                    total_players: 0,
                    reward_pool,
                })
                &&& final(self).passes@ == old(self).passes@
                &&& final(self).xp@ == old(self).xp@
                &&& final(self).claimed@ == old(self).claimed@
            },
    {
        let last = if self.season_started { self.current_season } else { 0 };
        if season_number <= last {
            return Err(BattlePassError::SeasonNumberNotGreater);
        }
        self.season_infos.insert(season_number as u64, SeasonInfo {
            season_number,
            start_time: now,
            end_time: now + SEASON_DURATION,
            is_active: true,
            total_players: 0,
            reward_pool,
        });
        self.current_season = season_number;
        self.season_started = true;
        Ok(())
    }

    fn check_season(&self, now: u64) -> (r: Result<(), BattlePassError>)
        ensures
            r == match self.season_check(now) {
                Some(e) => Err(e),
                None => Ok(()),
            },
    {
        match self.season_infos.get(self.current_season as u64) {
            None => Err(BattlePassError::SeasonNotFound),
            Some(info) => {
                if now > info.end_time {
                    Err(BattlePassError::SeasonExpired)
                } else if !info.is_active {
                    Err(BattlePassError::SeasonNotActive)
                } else {
                    Ok(())
                }
            },
        }
    }

    /// Gives `player` (who has authorised) a pass of `tier` for the current season.
    pub fn purchase_pass(&mut self, player: u64, tier: PassTier, now: u64) -> (r: Result<(), BattlePassError>)
        requires
            old(self).wf(),
            old(self).season_infos@.contains_key(old(self).current_season as u64) ==> old(self).season_infos@[old(self).current_season as u64].total_players < u32::MAX,
        ensures
            final(self).wf(),
            r == (match old(self).season_check(now) {
                Some(e) => Err(e),
                None => if old(self).pass_of(player) is Some { Err(BattlePassError::AlreadyOwnsPass) } else { Ok(()) },
            }),
            r is Err ==> *final(self) == *old(self),
            r is Ok ==> {
                let s = old(self).current_season as u64;
                let info = old(self).season_infos@[s];
                &&& final(self).passes@ == old(self).passes@.insert((s, player), BattlePass {
                    owner: player,
                    season: old(self).current_season,
                    tier,
                    current_level: 0,
                    is_active: true,
                    purchase_time: now,
                })
                &&& final(self).season_infos@ == old(self).season_infos@.insert(s, SeasonInfo { total_players: (info.total_players + 1) as u32, ..info })
                &&& final(self).xp@ == old(self).xp@.insert((s, player), 0)
                &&& final(self).claimed@ == old(self).claimed@
                &&& final(self).current_season == old(self).current_season
            },
    {
        self.check_season(now)?;
        let s = self.current_season as u64;
        if self.passes.contains_key(s, player) {
            return Err(BattlePassError::AlreadyOwnsPass);
        }
        self.passes.insert(s, player, BattlePass {
            owner: player,
            season: self.current_season,
            tier,
            current_level: 0,
            is_active: true,
            purchase_time: now,
        });
        let mut info = self.season_infos.remove(s).unwrap();
        info.total_players = info.total_players + 1;
        self.season_infos.insert(s, info);
        self.xp.insert(s, player, 0);
        Ok(())
    }

    /// The XP an `amount` is worth in the current season: multiplied by the
    /// bonus event's multiplier (truncated to 32 bits) when one is set.
    pub open spec fn effective_xp(&self, amount: u32) -> u32 {
        let s = self.current_season as u64;
        if self.bonus@.contains_key(s) { (amount * self.bonus@[s]) as u32 } else { amount }
    }

    /// Adds XP for `player` (who has authorised) and updates the pass level;
    /// XP saturates at the u32 maximum and is capped at 100 levels' worth
    /// once that is passed.
    pub fn add_xp(&mut self, player: u64, amount: u32, now: u64) -> (r: Result<(), BattlePassError>)
        requires
            old(self).wf(),
        ensures
            final(self).wf(),
            r == (match old(self).season_check(now) {
                Some(e) => Err(e),
                None => if old(self).pass_of(player) is None { Err(BattlePassError::NoPass) } else { Ok(()) },
            }),
            r is Err ==> *final(self) == *old(self),
            r is Ok ==> {
                let s = old(self).current_season as u64;
                let total = old(self).xp_of(player) + old(self).effective_xp(amount);
                let new_xp = if total > u32::MAX { u32::MAX } else { total as u32 };
                let level = new_xp / 1000;
                &&& final(self).xp@ == old(self).xp@.insert((s, player), if level > 100 { 100000u32 } else { new_xp })
                &&& final(self).passes@ == old(self).passes@.insert((s, player), BattlePass {
                    current_level: if level < 100 { level } else { 100 },
                    ..old(self).passes@[(s, player)]
                })
                &&& final(self).claimed@ == old(self).claimed@
                &&& final(self).season_infos@ == old(self).season_infos@
                &&& final(self).current_season == old(self).current_season
            },
    {
        self.check_season(now)?;
        let s = self.current_season as u64;
        if !self.passes.contains_key(s, player) {
            return Err(BattlePassError::NoPass);
        }
        let xp_amount: u32 = match self.bonus.get(s) {
            Some(m) => {
                proof {
                    assert((amount as u128) * (*m as u128) <= 0xffff_ffff * 0xffff_ffff) by (nonlinear_arith)
                        requires
                            amount <= 0xffff_ffff,
                            *m <= 0xffff_ffff,
                    ;
                }
                let prod: u128 = (amount as u128) * (*m as u128);
                #[verifier::truncate]
                (prod as u32)
            },
            None => amount,
        };
        let current: u32 = match self.xp.get(s, player) {
            Some(x) => *x,
            None => 0,
        };
        let new_xp: u32 = if current as u64 + xp_amount as u64 > u32::MAX as u64 { u32::MAX } else { current + xp_amount };
        let level = new_xp / XP_PER_LEVEL;
        if level > LEVELS_PER_SEASON {
            self.xp.insert(s, player, LEVELS_PER_SEASON * XP_PER_LEVEL);
        } else {
            self.xp.insert(s, player, new_xp);
        }
        let mut pass = *self.passes.get(s, player).unwrap();
        pass.current_level = if level < LEVELS_PER_SEASON { level } else { LEVELS_PER_SEASON };
        self.passes.insert(s, player, pass);
        Ok(())
    }

    /// Claims the reward of `level` for `player` (who has authorised).
    /// Levels above 50 need a premium pass; claims only go upward.
    pub fn claim_reward(&mut self, player: u64, level: u32) -> (r: Result<u128, BattlePassError>)
        requires
            old(self).wf(),
        ensures
            final(self).wf(),
            r == (match old(self).pass_of(player) {
                None => Err(BattlePassError::NoPass),
                Some(p) => if level > p.current_level {
                    Err(BattlePassError::LevelNotUnlocked)
                } else if level == 0 || level > 100 {
                    Err(BattlePassError::InvalidLevel)
                } else if level > 50 && p.tier == PassTier::Free {
                    Err(BattlePassError::PremiumOnly)
                } else if level <= old(self).claimed_of(player) {
                    Err(BattlePassError::AlreadyClaimed)
                } else {
                    Ok(reward_spec(level) as u128)
                },
            }),
            r is Err ==> *final(self) == *old(self),
            r is Ok ==> {
                &&& final(self).claimed@ == old(self).claimed@.insert((old(self).current_season as u64, player), level)
                &&& final(self).passes@ == old(self).passes@
                &&& final(self).xp@ == old(self).xp@
                &&& final(self).current_season == old(self).current_season
            },
    {
        let s = self.current_season as u64;
        let pass = match self.passes.get(s, player) {
            Some(p) => *p,
            None => {
                return Err(BattlePassError::NoPass);
            },
        };
        if level > pass.current_level {
            return Err(BattlePassError::LevelNotUnlocked);
        }
        if level == 0 || level > LEVELS_PER_SEASON {
            return Err(BattlePassError::InvalidLevel);
        }
        if level > FREE_TIER_REWARDS && pass.tier == PassTier::Free {
            return Err(BattlePassError::PremiumOnly);
        }
        let claimed_up_to: u32 = match self.claimed.get(s, player) {
            Some(c) => *c,
            None => 0,
        };
        if level <= claimed_up_to {
            return Err(BattlePassError::AlreadyClaimed);
        }
        let reward = Self::calculate_reward(level);
        self.claimed.insert(s, player, level);
        Ok(reward)
    }

    /// Claims, for a premium pass holder (who has authorised), the rewards
    /// of every level above the highest claimed up to the current level.
    pub fn claim_retroactive_rewards(&mut self, player: u64) -> (r: Result<u128, BattlePassError>)
        requires
            old(self).wf(),
        ensures
            final(self).wf(),
            r == (match old(self).pass_of(player) {
                None => Err(BattlePassError::NoPass),
                Some(p) => if p.tier != PassTier::Premium {
                    Err(BattlePassError::NotPremium)
                } else {
                    Ok(reward_sum(old(self).claimed_of(player) + 1, p.current_level as int) as u128)
                },
            }),
            r is Err ==> *final(self) == *old(self),
            r matches Ok(total) ==> {
                let k = (old(self).current_season as u64, player);
                &&& final(self).claimed@ == (if total > 0 {
                    old(self).claimed@.insert(k, old(self).passes@[k].current_level)
                } else {
                    old(self).claimed@
                })
                &&& final(self).passes@ == old(self).passes@
                &&& final(self).xp@ == old(self).xp@
                &&& final(self).current_season == old(self).current_season
            },
    {
        let s = self.current_season as u64;
        let pass = match self.passes.get(s, player) {
            Some(p) => *p,
            None => {
                return Err(BattlePassError::NoPass);
            },
        };
        if pass.tier != PassTier::Premium {
            return Err(BattlePassError::NotPremium);
        }
        let claimed_up_to: u32 = match self.claimed.get(s, player) {
            Some(c) => *c,
            None => 0,
        };
        assert(pass.current_level <= 100);
        assert(claimed_up_to <= 100);
        let mut total: u128 = 0;
        let mut level: u32 = claimed_up_to + 1;
        while level <= pass.current_level
            invariant
                claimed_up_to + 1 <= level <= pass.current_level + 1 || level == claimed_up_to + 1,
                pass.current_level <= 100,
                claimed_up_to <= 100,
                total == reward_sum(claimed_up_to + 1, level - 1),
            decreases pass.current_level + 1 - level,
        {
            proof {
                lemma_reward_sum_bound(claimed_up_to + 1, level - 1);
                lemma_reward_bound(level);
            }
            total = total + Self::calculate_reward(level);
            level = level + 1;
        }
        if total > 0 {
            self.claimed.insert(s, player, pass.current_level);
        }
        Ok(total)
    }

    /// Moves `from`'s current-season pass and XP to `to` (`from` has authorised).
    pub fn transfer_pass(&mut self, from: u64, to: u64) -> (r: Result<(), BattlePassError>)
        requires
            old(self).wf(),
        ensures
            final(self).wf(),
            r == (if old(self).pass_of(from) is None {
                Err(BattlePassError::NoPass)
            } else if old(self).pass_of(to) is Some {
                Err(BattlePassError::RecipientOwnsPass)
            } else {
                Ok(())
            }),
            r is Err ==> *final(self) == *old(self),
            r is Ok ==> {
                let s = old(self).current_season as u64;
                &&& final(self).passes@ == old(self).passes@.remove((s, from)).insert((s, to), BattlePass { owner: to, ..old(self).passes@[(s, from)] })
                &&& final(self).xp@ == old(self).xp@.remove((s, from)).insert((s, to), old(self).xp_of(from))
                &&& final(self).claimed@ == old(self).claimed@
                &&& final(self).current_season == old(self).current_season
            },
    {
        let s = self.current_season as u64;
        let pass = match self.passes.get(s, from) {
            Some(p) => *p,
            None => {
                return Err(BattlePassError::NoPass);
            },
        };
        if self.passes.contains_key(s, to) {
            return Err(BattlePassError::RecipientOwnsPass);
        }
        self.passes.remove(s, from);
        self.passes.insert(s, to, BattlePass { owner: to, ..pass });
        let xp: u32 = match self.xp.get(s, from) {
            Some(x) => *x,
            None => 0,
        };
        self.xp.remove(s, from);
        self.xp.insert(s, to, xp);
        Ok(())
    }

    /// Sets the current season's XP multiplier (1 to 10).
    pub fn set_bonus_xp_event(&mut self, multiplier: u32) -> (r: Result<(), BattlePassError>)
        ensures
            r is Err <==> (multiplier < 1 || multiplier > 10),
            r is Err ==> *final(self) == *old(self),
            r is Ok ==> *final(self) == (BattlePassContract { bonus: final(self).bonus, ..*old(self) }),
            r is Ok ==> final(self).bonus@ == old(self).bonus@.insert(old(self).current_season as u64, multiplier),
    {
        if multiplier < 1 || multiplier > 10 {
            return Err(BattlePassError::InvalidMultiplier);
        }
        self.bonus.insert(self.current_season as u64, multiplier);
        Ok(())
    }

    /// Ends the current season's XP bonus.
    pub fn clear_bonus_xp_event(&mut self)
        ensures
            *final(self) == (BattlePassContract { bonus: final(self).bonus, ..*old(self) }),
            final(self).bonus@ == old(self).bonus@.remove(old(self).current_season as u64),
    {
        self.bonus.remove(self.current_season as u64);
    }

    /// Appends the player's current-season record to their history.
    pub fn archive_season(&mut self, player: u64) -> (r: Result<(), BattlePassError>)
        requires
            old(self).wf(),
        ensures
            final(self).wf(),
            r is Err <==> old(self).pass_of(player) is None,
            r is Err ==> *final(self) == *old(self),
            r is Ok ==> {
                let p = old(self).pass_of(player)->0;
                &&& final(self).history_of(player) == old(self).history_of(player).push(SeasonRecord {
                    season: old(self).current_season,
                    final_level: p.current_level,
                    total_xp: old(self).xp_of(player),
                    rewards_claimed: old(self).claimed_of(player) > 0,
                    tier: p.tier,
                })
                &&& forall|q: u64| q != player ==> #[trigger] final(self).history_of(q) == old(self).history_of(q)
                &&& *final(self) == (BattlePassContract { history: final(self).history, ..*old(self) })
            },
    {
        let s = self.current_season as u64;
        let pass = match self.passes.get(s, player) {
            Some(p) => *p,
            None => {
                return Err(BattlePassError::NoPass);
            },
        };
        let total_xp: u32 = match self.xp.get(s, player) {
            Some(x) => *x,
            None => 0,
        };
        let claimed: u32 = match self.claimed.get(s, player) {
            Some(c) => *c,
            None => 0,
        };
        let record = SeasonRecord {
            season: self.current_season,
            final_level: pass.current_level,
            total_xp,
            rewards_claimed: claimed > 0,
            tier: pass.tier,
        };
        let mut h = match self.history.remove(player) {
            Some(h) => h,
            None => Vec::new(),
        };
        h.push(record);
        self.history.insert(player, h);
        Ok(())
    }

    pub open spec fn history_of(&self, player: u64) -> Seq<SeasonRecord> {
        if self.history@.contains_key(player) { self.history@[player]@ } else { Seq::empty() }
    }

    pub fn get_player_pass(&self, player: u64) -> (p: Option<BattlePass>)
        ensures
            p == self.pass_of(player),
    {
        match self.passes.get(self.current_season as u64, player) {
            Some(p) => Some(*p),
            None => None,
        }
    }

    pub fn get_player_xp(&self, player: u64) -> (x: u32)
        ensures
            x == self.xp_of(player),
    {
        match self.xp.get(self.current_season as u64, player) {
            Some(x) => *x,
            None => 0,
        }
    }

    pub fn get_season_history(&self, player: u64) -> (h: Vec<SeasonRecord>)
        ensures
            h@ == self.history_of(player),
    {
        match self.history.get(player) {
            Some(h) => copy_vec(h),
            None => Vec::new(),
        }
    }

    pub fn get_current_season(&self) -> (s: u32)
        ensures
            s == self.current_season,
    {
        self.current_season
    }

    pub fn get_season_info(&self, season: u32) -> (r: Result<SeasonInfo, BattlePassError>)
        ensures
            r == (if self.season_infos@.contains_key(season as u64) {
                Ok(self.season_infos@[season as u64])
            } else {
                Err(BattlePassError::SeasonNotFound)
            }),
    {
        match self.season_infos.get(season as u64) {
            Some(i) => Ok(*i),
            None => Err(BattlePassError::SeasonNotFound),
        }
    }

    /// The current season's XP multiplier, 1 when no event is set.
    pub fn get_bonus_xp_multiplier(&self) -> (m: u32)
        ensures
            m == (if self.bonus@.contains_key(self.current_season as u64) { self.bonus@[self.current_season as u64] } else { 1 }),
    {
        match self.bonus.get(self.current_season as u64) {
            Some(m) => *m,
            None => 1,
        }
    }

    /// Marks a season inactive.
    pub fn deactivate_season(&mut self, season: u32) -> (r: Result<(), BattlePassError>)
        ensures
            r is Err <==> !old(self).season_infos@.contains_key(season as u64),
            r is Err ==> *final(self) == *old(self),
            r is Ok ==> final(self).season_infos@ == old(self).season_infos@.insert(season as u64, SeasonInfo { is_active: false, ..old(self).season_infos@[season as u64] }),
            r is Ok ==> *final(self) == (BattlePassContract { season_infos: final(self).season_infos, ..*old(self) }),
    {
        if !self.season_infos.contains_key(season as u64) {
            return Err(BattlePassError::SeasonNotFound);
        }
        let mut info = self.season_infos.remove(season as u64).unwrap();
        info.is_active = false;
        self.season_infos.insert(season as u64, info);
        Ok(())
    }
}

} // verus!
