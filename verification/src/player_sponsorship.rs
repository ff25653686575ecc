//! Player sponsorship: a sponsor escrows a sum for a player, split into
//! milestones (puzzles solved, or a leaderboard rank); the player draws each
//! milestone's reward once its condition holds. The sponsor may cancel and
//! take back what was not yet released.
//!
//! Whether a condition holds depends on another contract's answer (the
//! player's activity count or rank), which the caller hands in.
use vstd::prelude::*;
use crate::assoc::{AssocMap, ListMap};
use crate::seqs::copy_vec;
use crate::token::TokenTransfer;

verus! {

#[derive(Clone, Copy, Debug, PartialEq, Eq, Structural)]
pub enum MilestoneCondition {
    /// At least this many puzzles solved.
    PuzzlesSolved(u32),
    /// An all-time rank of at most this (rank 0 means unranked).
    RankAtMost(u32),
}

/// The leaderboard's periods; conditions read the all-time rank.
#[derive(Clone, Copy, Debug, PartialEq, Eq, Structural)]
pub enum TimePeriod {
    Daily,
    Weekly,
    AllTime,
}

#[derive(Clone, Copy, Debug, PartialEq, Eq, Structural)]
pub struct Milestone {
    pub condition: MilestoneCondition,
    pub reward_amount: i128,
    pub claimed: bool,
}

#[derive(Debug)]
pub struct SponsorshipDeal {
    pub id: u32,
    pub sponsor: u64,
    pub player: u64,
    pub token: u64,
    pub total_amount: i128,
    pub released: i128,
    pub milestones: Vec<Milestone>,
    pub cancelled: bool,
}

pub struct DealView {
    pub id: u32,
    pub sponsor: u64,
    pub player: u64,
    pub token: u64,
    pub total_amount: i128,
    pub released: i128,
    pub milestones: Seq<Milestone>,
    pub cancelled: bool,
}

impl View for SponsorshipDeal {
    type V = DealView;

    open spec fn view(&self) -> DealView {
        DealView {
            id: self.id,
            sponsor: self.sponsor,
            player: self.player,
            token: self.token,
            total_amount: self.total_amount,
            released: self.released,
            milestones: self.milestones@,
            cancelled: self.cancelled,
        }
    }
}

#[derive(Clone, Copy, Debug, PartialEq, Eq, Structural)]
pub enum SponsorshipError {
    TotalNotPositive,
    NoMilestones,
    MilestoneRewardNotPositive,
    MilestonePreClaimed,
    RewardsDoNotSumToTotal,
    DealNotFound,
    DealCancelled,
    NotPlayer,
    InvalidMilestoneIndex,
    MilestoneAlreadyClaimed,
    ConditionNotMet,
    DealAlreadyCancelled,
    NotSponsor,
}

pub struct PlayerSponsorshipContract {
    pub admin: u64,
    /// The contract that counts a player's solved puzzles.
    pub proof_of_activity: u64,
    /// The contract that ranks players.
    pub leaderboard: u64,
    pub deal_count: u32,
    pub deals: AssocMap<SponsorshipDeal>,
    /// The deals of each player, in creation order.
    pub player_deals: ListMap<u32>,
}

pub struct SponsorshipView {
    pub admin: u64,
    pub proof_of_activity: u64,
    pub leaderboard: u64,
    pub deal_count: u32,
    pub deals: Map<u64, DealView>,
    pub player_deals: Map<u64, Seq<u32>>,
}

impl View for PlayerSponsorshipContract {
    type V = SponsorshipView;

    open spec fn view(&self) -> SponsorshipView {
        SponsorshipView {
            admin: self.admin,
            proof_of_activity: self.proof_of_activity,
            leaderboard: self.leaderboard,
            deal_count: self.deal_count,
            deals: self.deals@.map_values(|d: SponsorshipDeal| d@),
            player_deals: self.player_deals@,
        }
    }
}

pub open spec fn outcome_of<S, R, E>(r: Result<R, E>, spec: Result<(S, R), E>, old: S, new: S) -> bool {
    match spec {
        Ok((w, x)) => r == Ok::<R, E>(x) && new == w,
        Err(e) => r == Err::<R, E>(e) && new == old,
    }
}

/// Whether the condition holds, given what the contract it names answered
/// (the activity count, or the all-time rank).
pub open spec fn condition_holds(cond: MilestoneCondition, observed: u32) -> bool {
    match cond {
        MilestoneCondition::PuzzlesSolved(t) => observed >= t,
        MilestoneCondition::RankAtMost(t) => observed > 0 && observed <= t,
    }
}

/// The first fault among the first `n` milestones, checked in order.
pub open spec fn milestones_fault(ms: Seq<Milestone>, n: nat) -> Option<SponsorshipError>
    decreases n,
{
    if n == 0 {
        None
    } else {
        match milestones_fault(ms, (n - 1) as nat) {
            Some(e) => Some(e),
            None => if ms[n - 1].reward_amount <= 0 {
                Some(SponsorshipError::MilestoneRewardNotPositive)
            } else if ms[n - 1].claimed {
                Some(SponsorshipError::MilestonePreClaimed)
            } else {
                None
            },
        }
    }
}

/// The rewards of the first `n` milestones.
pub open spec fn reward_sum(ms: Seq<Milestone>, n: nat) -> int
    decreases n,
{
    if n == 0 { 0 } else { reward_sum(ms, (n - 1) as nat) + ms[n - 1].reward_amount }
}

/// Why a deal with these milestones and total is refused, if it is.
pub open spec fn create_error(ms: Seq<Milestone>, total: i128) -> Option<SponsorshipError> {
    if total <= 0 {
        Some(SponsorshipError::TotalNotPositive)
    } else if ms.len() == 0 {
        Some(SponsorshipError::NoMilestones)
    } else if milestones_fault(ms, ms.len()) is Some {
        milestones_fault(ms, ms.len())
    } else if reward_sum(ms, ms.len()) != total {
        Some(SponsorshipError::RewardsDoNotSumToTotal)
    } else {
        None
    }
}

pub open spec fn deals_of(v: SponsorshipView, player: u64) -> Seq<u32> {
    if v.player_deals.contains_key(player) { v.player_deals[player] } else { Seq::empty() }
}

/// The player claims a milestone whose condition holds; its reward is
/// released to them.
pub open spec fn claim_spec(v: SponsorshipView, player: u64, deal_id: u32, idx: u32, observed: u32, contract: u64)
    -> Result<(SponsorshipView, TokenTransfer), SponsorshipError> {
    if !v.deals.contains_key(deal_id as u64) {
        Err(SponsorshipError::DealNotFound)
    } else {
        let d = v.deals[deal_id as u64];
        if d.cancelled {
            Err(SponsorshipError::DealCancelled)
        } else if d.player != player {
            Err(SponsorshipError::NotPlayer)
        } else if idx >= d.milestones.len() {
            Err(SponsorshipError::InvalidMilestoneIndex)
        } else {
            let m = d.milestones[idx as int];
            if m.claimed {
                Err(SponsorshipError::MilestoneAlreadyClaimed)
            } else if !condition_holds(m.condition, observed) {
                Err(SponsorshipError::ConditionNotMet)
            } else {
                let nd = DealView {
                    milestones: d.milestones.update(idx as int, Milestone { claimed: true, ..m }),
                    released: (d.released + m.reward_amount) as i128,
                    ..d
                };
                Ok((SponsorshipView { deals: v.deals.insert(deal_id as u64, nd), ..v },
                    TokenTransfer { token: d.token, from: contract, to: player, amount: m.reward_amount }))
            }
        }
    }
}

pub open spec fn claim_fits(v: SponsorshipView, deal_id: u32, idx: u32) -> bool {
    v.deals.contains_key(deal_id as u64) && idx < v.deals[deal_id as u64].milestones.len() ==> {
        let d = v.deals[deal_id as u64];
        i128::MIN <= d.released + d.milestones[idx as int].reward_amount <= i128::MAX
    }
}

/// The sponsor cancels; what was not released goes back to them.
pub open spec fn cancel_spec(v: SponsorshipView, sponsor: u64, deal_id: u32, contract: u64)
    -> Result<(SponsorshipView, Option<TokenTransfer>), SponsorshipError> {
    if !v.deals.contains_key(deal_id as u64) {
        Err(SponsorshipError::DealNotFound)
    } else {
        let d = v.deals[deal_id as u64];
        let remaining = d.total_amount - d.released;
        if d.cancelled {
            Err(SponsorshipError::DealAlreadyCancelled)
        } else if d.sponsor != sponsor {
            Err(SponsorshipError::NotSponsor)
        } else {
            Ok((SponsorshipView { deals: v.deals.insert(deal_id as u64, DealView { cancelled: true, ..d }), ..v },
                if remaining > 0 {
                    Some(TokenTransfer { token: d.token, from: contract, to: sponsor, amount: remaining as i128 })
                } else {
                    None
                }))
        }
    }
}

/// A deal with rewards left to release.
pub open spec fn deal_active(v: SponsorshipView, id: u32) -> bool {
    v.deals.contains_key(id as u64) && !v.deals[id as u64].cancelled && v.deals[id as u64].released < v.deals[id as u64].total_amount
}

fn copy_deal(d: &SponsorshipDeal) -> (r: SponsorshipDeal)
    ensures
        r@ == d@,
{
    SponsorshipDeal {
        id: d.id,
        sponsor: d.sponsor,
        player: d.player,
        token: d.token,
        total_amount: d.total_amount,
        released: d.released,
        milestones: copy_vec(&d.milestones),
        cancelled: d.cancelled,
    }
}

/// Whether the condition holds, given the answer of the contract it names.
pub fn condition_met(cond: &MilestoneCondition, observed: u32) -> (b: bool)
    ensures
        b == condition_holds(*cond, observed),
{
    match cond {
        MilestoneCondition::PuzzlesSolved(t) => observed >= *t,
        MilestoneCondition::RankAtMost(t) => observed > 0 && observed <= *t,
    }
}

impl PlayerSponsorshipContract {
    pub fn initialize(admin: u64, proof_of_activity: u64, leaderboard: u64) -> (c: Self)
        ensures
            c@.admin == admin,
            c@.proof_of_activity == proof_of_activity,
            c@.leaderboard == leaderboard,
            c@.deal_count == 0,
            c@.deals == Map::<u64, DealView>::empty(),
            c@.player_deals == Map::<u64, Seq<u32>>::empty(),
    {
        let c = PlayerSponsorshipContract {
            admin,
            proof_of_activity,
            leaderboard,
            deal_count: 0,
            deals: AssocMap::new(),
            player_deals: ListMap::new(),
        };
        assert(c@.deals =~= Map::<u64, DealView>::empty());
        c
    }

    /// Opens a deal; the returned transfer escrows the total.
    pub fn create_deal(&mut self, sponsor: u64, player: u64, token_address: u64, milestones: Vec<Milestone>, total_amount: i128, contract: u64)
        -> (r: Result<(u32, TokenTransfer), SponsorshipError>)
        requires
            forall|k: nat| k <= milestones@.len() && #[trigger] milestones_fault(milestones@, k) is None ==> reward_sum(milestones@, k) <= i128::MAX,
            create_error(milestones@, total_amount) is None ==> old(self)@.deal_count < u32::MAX,
        ensures
            match create_error(milestones@, total_amount) {
                Some(e) => r == Err::<(u32, TokenTransfer), SponsorshipError>(e) && final(self)@ == old(self)@,
                None => {
                    let id = (old(self)@.deal_count + 1) as u32;
                    let d = DealView {
                        id,
                        sponsor,
                        player,
                        token: token_address,
                        total_amount,
                        released: 0,
                        milestones: milestones@,
                        cancelled: false,
                    };
                    &&& r == Ok::<(u32, TokenTransfer), SponsorshipError>((id, TokenTransfer { token: token_address, from: sponsor, to: contract, amount: total_amount }))
                    &&& final(self)@ == (SponsorshipView {
                        deal_count: id,
                        deals: old(self)@.deals.insert(id as u64, d),
                        player_deals: old(self)@.player_deals.insert(player, deals_of(old(self)@, player).push(id)),
                        ..old(self)@
                    })
                },
            },
    {
        if total_amount <= 0 {
            return Err(SponsorshipError::TotalNotPositive);
        }
        if milestones.len() == 0 {
            return Err(SponsorshipError::NoMilestones);
        }
        let mut sum: i128 = 0;
        let mut i: usize = 0;
        while i < milestones.len()
            invariant
                i <= milestones@.len(),
                total_amount > 0,
                milestones@.len() > 0,
                self@ == old(self)@,
                milestones_fault(milestones@, i as nat) is None,
                sum == reward_sum(milestones@, i as nat),
                forall|k: nat| k <= milestones@.len() && #[trigger] milestones_fault(milestones@, k) is None ==> reward_sum(milestones@, k) <= i128::MAX,
            decreases milestones@.len() - i,
        {
            let m = milestones[i];
            if m.reward_amount <= 0 {
                proof {
                    lemma_fault_sticks(milestones@, (i + 1) as nat, milestones@.len());
                }
                return Err(SponsorshipError::MilestoneRewardNotPositive);
            }
            if m.claimed {
                proof {
                    lemma_fault_sticks(milestones@, (i + 1) as nat, milestones@.len());
                }
                return Err(SponsorshipError::MilestonePreClaimed);
            }
            assert(milestones_fault(milestones@, (i + 1) as nat) is None);
            sum = sum + m.reward_amount;
            i = i + 1;
        }
        if sum != total_amount {
            return Err(SponsorshipError::RewardsDoNotSumToTotal);
        }
        let id = self.deal_count + 1;
        let ghost old_view = self@;
        let d = SponsorshipDeal {
            id,
            sponsor,
            player,
            token: token_address,
            total_amount,
            released: 0,
            milestones,
            cancelled: false,
        };
        let ghost dv = d@;
        self.deals.insert(id as u64, d);
        self.deal_count = id;
        self.player_deals.push(player, id);
        assert(self@.deals =~= old_view.deals.insert(id as u64, dv));
        Ok((id, TokenTransfer { token: token_address, from: sponsor, to: contract, amount: total_amount }))
    }

    /// The player draws a milestone's reward; `observed` is the answer of
    /// the contract the milestone's condition names.
    pub fn claim_milestone(&mut self, player: u64, deal_id: u32, milestone_index: u32, observed: u32, contract: u64)
        -> (r: Result<TokenTransfer, SponsorshipError>)
        requires
            claim_fits(old(self)@, deal_id, milestone_index),
        ensures
            outcome_of(r, claim_spec(old(self)@, player, deal_id, milestone_index, observed, contract), old(self)@, final(self)@),
    {
        let ghost old_view = self@;
        let (nd, amount, token) = match self.deals.get(deal_id as u64) {
            None => {
                return Err(SponsorshipError::DealNotFound);
            },
            Some(d) => {
                if d.cancelled {
                    return Err(SponsorshipError::DealCancelled);
                }
                if d.player != player {
                    return Err(SponsorshipError::NotPlayer);
                }
                if milestone_index as usize >= d.milestones.len() {
                    return Err(SponsorshipError::InvalidMilestoneIndex);
                }
                let m = d.milestones[milestone_index as usize];
                if m.claimed {
                    return Err(SponsorshipError::MilestoneAlreadyClaimed);
                }
                if !condition_met(&m.condition, observed) {
                    return Err(SponsorshipError::ConditionNotMet);
                }
                let mut nd = copy_deal(d);
                nd.milestones.set(milestone_index as usize, Milestone { claimed: true, ..m });
                nd.released = d.released + m.reward_amount;
                (nd, m.reward_amount, d.token)
            },
        };
        let ghost ndv = nd@;
        self.deals.insert(deal_id as u64, nd);
        assert(self@.deals =~= old_view.deals.insert(deal_id as u64, ndv));
        Ok(TokenTransfer { token, from: contract, to: player, amount })
    }

    /// The sponsor cancels the deal; the returned transfer, if any, refunds
    /// what was not released.
    pub fn cancel_deal(&mut self, sponsor: u64, deal_id: u32, contract: u64) -> (r: Result<Option<TokenTransfer>, SponsorshipError>)
        requires
            old(self)@.deals.contains_key(deal_id as u64) ==> i128::MIN <= old(self)@.deals[deal_id as u64].total_amount
                - old(self)@.deals[deal_id as u64].released <= i128::MAX,
        ensures
            outcome_of(r, cancel_spec(old(self)@, sponsor, deal_id, contract), old(self)@, final(self)@),
    {
        let ghost old_view = self@;
        let (nd, remaining, token) = match self.deals.get(deal_id as u64) {
            None => {
                return Err(SponsorshipError::DealNotFound);
            },
            Some(d) => {
                if d.cancelled {
                    return Err(SponsorshipError::DealAlreadyCancelled);
                }
                if d.sponsor != sponsor {
                    return Err(SponsorshipError::NotSponsor);
                }
                let mut nd = copy_deal(d);
                nd.cancelled = true;
                (nd, d.total_amount - d.released, d.token)
            },
        };
        let ghost ndv = nd@;
        self.deals.insert(deal_id as u64, nd);
        assert(self@.deals =~= old_view.deals.insert(deal_id as u64, ndv));
        if remaining > 0 {
            Ok(Some(TokenTransfer { token, from: contract, to: sponsor, amount: remaining }))
        } else {
            Ok(None)
        }
    }

    pub fn get_deal(&self, deal_id: u32) -> (r: Option<SponsorshipDeal>)
        ensures
            match r {
                Some(d) => self@.deals.contains_key(deal_id as u64) && d@ == self@.deals[deal_id as u64],
                None => !self@.deals.contains_key(deal_id as u64),
            },
    {
        match self.deals.get(deal_id as u64) {
            Some(d) => Some(copy_deal(d)),
            None => None,
        }
    }

    /// The player's deals that still have rewards to release, in creation order.
    pub fn list_player_deals(&self, player: u64) -> (r: Vec<u32>)
        ensures
            r@ == deals_of(self@, player).filter(|id: u32| deal_active(self@, id)),
    {
        let ids = self.player_deals.get_list(player);
        let ghost s = ids@;
        let mut active: Vec<u32> = Vec::new();
        let mut i: usize = 0;
        while i < ids.len()
            invariant
                s == ids@,
                s == deals_of(self@, player),
                i <= s.len(),
                active@ == s.subrange(0, i as int).filter(|id: u32| deal_active(self@, id)),
            decreases s.len() - i,
        {
            let id = ids[i];
            proof {
                assert(s.subrange(0, i + 1).drop_last() =~= s.subrange(0, i as int));
                reveal_with_fuel(Seq::filter, 1);
            }
            match self.deals.get(id as u64) {
                Some(d) => {
                    if !d.cancelled && d.released < d.total_amount {
                        active.push(id);
                    }
                },
                None => {},
            }
            i = i + 1;
        }
        assert(s.subrange(0, s.len() as int) =~= s);
        active
    }
}

proof fn lemma_fault_sticks(ms: Seq<Milestone>, k: nat, n: nat)
    requires
        k <= n,
        milestones_fault(ms, k) is Some,
    ensures
        milestones_fault(ms, n) == milestones_fault(ms, k),
    decreases n,
{
    if n > k {
        lemma_fault_sticks(ms, k, (n - 1) as nat);
    }
}

} // verus!

verus! {

/// The rewards of the claimed milestones among the first `n`.
pub open spec fn claimed_sum(ms: Seq<Milestone>, n: nat) -> int
    decreases n,
{
    if n == 0 { 0 } else { claimed_sum(ms, (n - 1) as nat) + (if ms[n - 1].claimed { ms[n - 1].reward_amount as int } else { 0 }) }
}

/// A deal's books: every reward is positive, the rewards make up the
/// escrowed total, and what was released is the rewards claimed.
pub open spec fn deal_wf(d: DealView) -> bool {
    &&& forall|i: int| 0 <= i < d.milestones.len() ==> (#[trigger] d.milestones[i]).reward_amount > 0
    &&& reward_sum(d.milestones, d.milestones.len()) == d.total_amount
    &&& claimed_sum(d.milestones, d.milestones.len()) == d.released
}

proof fn lemma_claim_sums(ms: Seq<Milestone>, i: int, n: nat)
    requires
        0 <= i < ms.len(),
        n <= ms.len(),
        !ms[i].claimed,
    ensures
        reward_sum(ms.update(i, Milestone { claimed: true, ..ms[i] }), n) == reward_sum(ms, n),
        claimed_sum(ms.update(i, Milestone { claimed: true, ..ms[i] }), n) == claimed_sum(ms, n) + (if i < n { ms[i].reward_amount as int } else { 0 }),
    decreases n,
{
    if n > 0 {
        lemma_claim_sums(ms, i, (n - 1) as nat);
    }
}

proof fn lemma_claimed_within(ms: Seq<Milestone>, n: nat)
    requires
        n <= ms.len(),
        forall|i: int| 0 <= i < ms.len() ==> (#[trigger] ms[i]).reward_amount > 0,
    ensures
        0 <= claimed_sum(ms, n) <= reward_sum(ms, n),
    decreases n,
{
    if n > 0 {
        lemma_claimed_within(ms, (n - 1) as nat);
        assert(ms[n - 1].reward_amount > 0);
    }
}

proof fn lemma_fresh_books(ms: Seq<Milestone>, n: nat)
    requires
        n <= ms.len(),
        milestones_fault(ms, n) is None,
    ensures
        claimed_sum(ms, n) == 0,
        forall|i: int| 0 <= i < n ==> (#[trigger] ms[i]).reward_amount > 0 && !ms[i].claimed,
    decreases n,
{
    if n > 0 {
        lemma_fresh_books(ms, (n - 1) as nat);
    }
}

/// A deal that is created keeps books: its rewards are positive and make
/// up the total, and nothing is released yet.
pub proof fn law_new_deal_keeps_books(ms: Seq<Milestone>, total: i128, d: DealView)
    requires
        create_error(ms, total) is None,
        d.milestones == ms,
        d.total_amount == total,
        d.released == 0,
    ensures
        deal_wf(d),
{
    lemma_fresh_books(ms, ms.len());
}

/// A claim keeps the deal's books, so the released amount never exceeds
/// the escrowed total.
pub proof fn law_claim_keeps_books(v: SponsorshipView, player: u64, deal_id: u32, idx: u32, observed: u32, contract: u64)
    requires
        v.deals.contains_key(deal_id as u64) ==> deal_wf(v.deals[deal_id as u64]),
    ensures
        claim_spec(v, player, deal_id, idx, observed, contract) matches Ok((w, t)) ==> {
            let d = w.deals[deal_id as u64];
            &&& deal_wf(d)
            &&& 0 <= d.released <= d.total_amount
            &&& t.amount == v.deals[deal_id as u64].milestones[idx as int].reward_amount
        },
{
    if let Ok((w, t)) = claim_spec(v, player, deal_id, idx, observed, contract) {
        let d = v.deals[deal_id as u64];
        let nd = w.deals[deal_id as u64];
        lemma_claim_sums(d.milestones, idx as int, d.milestones.len());
        assert forall|i: int| 0 <= i < nd.milestones.len() implies (#[trigger] nd.milestones[i]).reward_amount > 0 by {
            assert(d.milestones[i].reward_amount > 0);
        }
        lemma_claimed_within(nd.milestones, nd.milestones.len());
    }
}

} // verus!
