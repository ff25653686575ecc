//! Prize pools: players pay into a pool; once it reaches its threshold the
//! pool's admin splits it equally among the winners, who claim their
//! shares. After the claim period what was not claimed rolls into another
//! pool.
use vstd::prelude::*;
use crate::assoc::{AssocMap, ListMap};
use crate::seqs::{copy_vec, position_u64};
use crate::token::TokenTransfer;

verus! {

#[derive(Clone, Copy, Debug, PartialEq, Eq, Structural)]
pub enum PoolStatus {
    Open,
    Distributed,
    Closed,
}

#[derive(Clone, Copy, Debug, PartialEq, Eq, Structural)]
pub struct Pool {
    pub id: u32,
    pub admin: u64,
    pub total: i128,
    pub min_threshold: i128,
    pub status: PoolStatus,
    pub created_at: u64,
    pub claim_period: u64,
}

#[derive(Clone, Copy, Debug, PartialEq, Eq, Structural)]
pub struct Contribution {
    pub contributor: u64,
    pub amount: i128,
}

/// How a pool was split: `amounts[i]` for `winners[i]`, and whether each
/// has been claimed (a missing entry counts as not claimed).
#[derive(Debug)]
pub struct Distribution {
    pub pool_id: u32,
    pub winners: Vec<u64>,
    pub amounts: Vec<i128>,
    pub claimed: Vec<bool>,
    pub distributed_at: u64,
}

pub struct DistView {
    pub pool_id: u32,
    pub winners: Seq<u64>,
    pub amounts: Seq<i128>,
    pub claimed: Seq<bool>,
    pub distributed_at: u64,
}

impl View for Distribution {
    type V = DistView;

    open spec fn view(&self) -> DistView {
        DistView {
            pool_id: self.pool_id,
            winners: self.winners@,
            amounts: self.amounts@,
            claimed: self.claimed@,
            distributed_at: self.distributed_at,
        }
    }
}

#[derive(Clone, Copy, Debug, PartialEq, Eq, Structural)]
pub struct Stats {
    pub total_contributed: i128,
    pub num_contributors: u32,
    pub total_distributed: i128,
}

#[derive(Clone, Copy, Debug, PartialEq, Eq, Structural)]
pub enum PoolError {
    InvalidAmount,
    PoolNotFound,
    PoolNotOpen,
    BelowMinimumThreshold,
    NoWinners,
    NotPoolAdmin,
    DistributionNotFound,
    NotAWinner,
    AlreadyClaimed,
    ClaimPeriodNotExpired,
}

pub struct PrizePoolContract {
    pub owner: u64,
    pub token: u64,
    pub next_pool_id: u32,
    pub pools: AssocMap<Pool>,
    pub contributions: ListMap<Contribution>,
    pub distributions: AssocMap<Distribution>,
    pub stats: Stats,
}

pub struct PoolView {
    pub owner: u64,
    pub token: u64,
    pub next_pool_id: u32,
    pub pools: Map<u64, Pool>,
    pub contributions: Map<u64, Seq<Contribution>>,
    pub distributions: Map<u64, DistView>,
    pub stats: Stats,
}

impl View for PrizePoolContract {
    type V = PoolView;

    open spec fn view(&self) -> PoolView {
        PoolView {
            owner: self.owner,
            token: self.token,
            next_pool_id: self.next_pool_id,
            pools: self.pools@,
            contributions: self.contributions@,
            distributions: self.distributions@.map_values(|d: Distribution| d@),
            stats: self.stats,
        }
    }
}

pub open spec fn outcome_of<S, R, E>(r: Result<R, E>, spec: Result<(S, R), E>, old: S, new: S) -> bool {
    match spec {
        Ok((w, x)) => r == Ok::<R, E>(x) && new == w,
        Err(e) => r == Err::<R, E>(e) && new == old,
    }
}

pub open spec fn contributions_of(v: PoolView, id: u32) -> Seq<Contribution> {
    if v.contributions.contains_key(id as u64) { v.contributions[id as u64] } else { Seq::empty() }
}

/// A contribution to an open pool raises its total and the totals in the
/// statistics.
pub open spec fn contribute_spec(v: PoolView, user: u64, pool_id: u32, amount: i128, contract: u64) -> Result<(PoolView, TokenTransfer), PoolError> {
    if amount <= 0 {
        Err(PoolError::InvalidAmount)
    } else if !v.pools.contains_key(pool_id as u64) {
        Err(PoolError::PoolNotFound)
    } else {
        let p = v.pools[pool_id as u64];
        if p.status != PoolStatus::Open {
            Err(PoolError::PoolNotOpen)
        } else {
            Ok((PoolView {
                contributions: v.contributions.insert(pool_id as u64, contributions_of(v, pool_id).push(Contribution { contributor: user, amount })),
                pools: v.pools.insert(pool_id as u64, Pool { total: (p.total + amount) as i128, ..p }),
                stats: Stats {
                    total_contributed: (v.stats.total_contributed + amount) as i128,
                    num_contributors: (v.stats.num_contributors + 1) as u32,
                    ..v.stats
                },
                ..v
            }, TokenTransfer { token: v.token, from: user, to: contract, amount }))
        }
    }
}

pub open spec fn contribute_fits(v: PoolView, pool_id: u32, amount: i128) -> bool {
    &&& v.pools.contains_key(pool_id as u64) ==> v.pools[pool_id as u64].total + amount <= i128::MAX
    &&& v.stats.total_contributed + amount <= i128::MAX
    &&& v.stats.num_contributors < u32::MAX
}

/// Each winner's equal part of the pool (the remainder stays in the pool).
pub open spec fn equal_part(total: int, n: int) -> int {
    if total >= 0 { total / n } else { -((-total) / n) }
}

/// Distribution by the pool's admin: the pool must be open, at its
/// threshold, and given winners; each winner gets an equal part and the
/// pool keeps the remainder.
pub open spec fn distribute_spec(v: PoolView, admin: u64, pool_id: u32, winners: Seq<u64>, now: u64) -> Result<PoolView, PoolError> {
    if !v.pools.contains_key(pool_id as u64) {
        Err(PoolError::PoolNotFound)
    } else {
        let p = v.pools[pool_id as u64];
        let per = equal_part(p.total as int, winners.len() as int);
        if p.status != PoolStatus::Open {
            Err(PoolError::PoolNotOpen)
        } else if p.total < p.min_threshold {
            Err(PoolError::BelowMinimumThreshold)
        } else if winners.len() == 0 {
            Err(PoolError::NoWinners)
        } else if admin != p.admin {
            Err(PoolError::NotPoolAdmin)
        } else {
            let d = DistView {
                pool_id,
                winners,
                amounts: Seq::new(winners.len(), |i: int| per as i128),
                claimed: Seq::empty(),
                distributed_at: now,
            };
            Ok(PoolView {
                distributions: v.distributions.insert(pool_id as u64, d),
                pools: v.pools.insert(pool_id as u64, Pool { status: PoolStatus::Distributed, total: (p.total - per * winners.len()) as i128, ..p }),
                ..v
            })
        }
    }
}

/// The claim flags, padded with "not claimed" up to the number of winners.
pub open spec fn ext_claimed(d: DistView) -> Seq<bool> {
    if d.claimed.len() < d.winners.len() {
        d.claimed + Seq::new((d.winners.len() - d.claimed.len()) as nat, |i: int| false)
    } else {
        d.claimed
    }
}

/// A winner claims their part once.
pub open spec fn claim_spec(v: PoolView, user: u64, pool_id: u32, contract: u64) -> Result<(PoolView, TokenTransfer), PoolError> {
    if !v.distributions.contains_key(pool_id as u64) {
        Err(PoolError::DistributionNotFound)
    } else {
        let d = v.distributions[pool_id as u64];
        match d.winners.index_of_first(user) {
            None => Err(PoolError::NotAWinner),
            Some(i) => if ext_claimed(d)[i] {
                Err(PoolError::AlreadyClaimed)
            } else {
                let amount = d.amounts[i];
                Ok((PoolView {
                    distributions: v.distributions.insert(pool_id as u64, DistView { claimed: ext_claimed(d).update(i, true), ..d }),
                    stats: Stats { total_distributed: (v.stats.total_distributed + amount) as i128, ..v.stats },
                    ..v
                }, TokenTransfer { token: v.token, from: contract, to: user, amount }))
            },
        }
    }
}

pub open spec fn claim_fits(v: PoolView, pool_id: u32) -> bool {
    v.distributions.contains_key(pool_id as u64) ==> {
        let d = v.distributions[pool_id as u64];
        &&& d.amounts.len() >= d.winners.len()
        &&& forall|i: int| 0 <= i < d.winners.len() ==> i128::MIN <= v.stats.total_distributed + #[trigger] d.amounts[i] <= i128::MAX
    }
}

/// What the first `n` winners left unclaimed.
pub open spec fn unclaimed_upto(d: DistView, n: nat) -> int
    decreases n,
{
    if n == 0 {
        0
    } else {
        unclaimed_upto(d, (n - 1) as nat) + (if !ext_claimed(d)[n - 1] { d.amounts[n - 1] as int } else { 0 })
    }
}

/// After the claim period, what was not claimed is added to the target
/// pool and every part counts as claimed; with nothing unclaimed nothing
/// changes.
pub open spec fn rollover_spec(v: PoolView, pool_id: u32, target: u32, now: u64) -> Result<PoolView, PoolError> {
    if !v.pools.contains_key(pool_id as u64) || !v.pools.contains_key(target as u64) {
        Err(PoolError::PoolNotFound)
    } else if !v.distributions.contains_key(pool_id as u64) {
        Err(PoolError::DistributionNotFound)
    } else {
        let p = v.pools[pool_id as u64];
        let t = v.pools[target as u64];
        let d = v.distributions[pool_id as u64];
        let unclaimed = unclaimed_upto(d, d.winners.len());
        let ext = ext_claimed(d);
        if now < d.distributed_at + p.claim_period {
            Err(PoolError::ClaimPeriodNotExpired)
        } else if unclaimed == 0 {
            Ok(v)
        } else {
            Ok(PoolView {
                pools: v.pools.insert(target as u64, Pool { total: (t.total + unclaimed) as i128, ..t }),
                distributions: v.distributions.insert(pool_id as u64, DistView {
                    claimed: Seq::new(ext.len(), |i: int| if i < d.winners.len() { true } else { ext[i] }),
                    ..d
                }),
                ..v
            })
        }
    }
}

pub open spec fn rollover_fits(v: PoolView, pool_id: u32, target: u32) -> bool {
    v.pools.contains_key(pool_id as u64) && v.pools.contains_key(target as u64) && v.distributions.contains_key(pool_id as u64) ==> {
        let d = v.distributions[pool_id as u64];
        &&& d.distributed_at + v.pools[pool_id as u64].claim_period <= u64::MAX
        &&& d.amounts.len() >= d.winners.len()
        &&& forall|k: nat| k <= d.winners.len() ==> i128::MIN <= #[trigger] unclaimed_upto(d, k) <= i128::MAX
        &&& i128::MIN <= v.pools[target as u64].total + unclaimed_upto(d, d.winners.len()) <= i128::MAX
    }
}

fn extended_claims(d: &Distribution) -> (r: Vec<bool>)
    ensures
        r@ == ext_claimed(d@),
{
    let mut c = copy_vec(&d.claimed);
    let ghost base = d.claimed@;
    while c.len() < d.winners.len()
        invariant
            base == d.claimed@,
            c@.len() >= base.len(),
            c@ == base + Seq::new((c@.len() - base.len()) as nat, |i: int| false),
            base.len() < d.winners@.len() ==> c@.len() <= d.winners@.len(),
            base.len() >= d.winners@.len() ==> c@.len() == base.len(),
        decreases d.winners@.len() - c@.len(),
    {
        c.push(false);
        assert(c@ =~= base + Seq::new((c@.len() - base.len()) as nat, |i: int| false));
    }
    proof {
        if base.len() >= d.winners@.len() {
            assert(c@ =~= base);
        } else {
            assert(c@ =~= ext_claimed(d@));
        }
    }
    c
}

fn copy_distribution(d: &Distribution) -> (r: Distribution)
    ensures
        r@ == d@,
{
    Distribution {
        pool_id: d.pool_id,
        winners: copy_vec(&d.winners),
        amounts: copy_vec(&d.amounts),
        claimed: copy_vec(&d.claimed),
        distributed_at: d.distributed_at,
    }
}

impl PrizePoolContract {
    pub fn init(owner: u64, token: u64) -> (c: Self)
        ensures
            c@.owner == owner,
            c@.token == token,
            c@.next_pool_id == 1,
            c@.pools == Map::<u64, Pool>::empty(),
            c@.contributions == Map::<u64, Seq<Contribution>>::empty(),
            c@.distributions == Map::<u64, DistView>::empty(),
            c@.stats == (Stats { total_contributed: 0, num_contributors: 0, total_distributed: 0 }),
    {
        let c = PrizePoolContract {
            owner,
            token,
            next_pool_id: 1,
            pools: AssocMap::new(),
            contributions: ListMap::new(),
            distributions: AssocMap::new(),
            stats: Stats { total_contributed: 0, num_contributors: 0, total_distributed: 0 },
        };
        assert(c@.distributions =~= Map::<u64, DistView>::empty());
        c
    }

    /// Opens a pool run by `admin`.
    pub fn create_pool(&mut self, admin: u64, min_threshold: i128, claim_period: u64, now: u64) -> (r: u32)
        requires
            old(self)@.next_pool_id < u32::MAX,
        ensures
            r == old(self)@.next_pool_id,
            final(self)@ == (PoolView {
                next_pool_id: (r + 1) as u32,
                pools: old(self)@.pools.insert(r as u64, Pool {
                    id: r,
                    admin,
                    total: 0,
                    min_threshold,
                    status: PoolStatus::Open,
                    created_at: now,
                    claim_period,
                }),
                contributions: old(self)@.contributions.insert(r as u64, Seq::empty()),
                ..old(self)@
            }),
    {
        let id = self.next_pool_id;
        let pool = Pool { id, admin, total: 0, min_threshold, status: PoolStatus::Open, created_at: now, claim_period };
        self.pools.insert(id as u64, pool);
        self.contributions.set(id as u64, Vec::new());
        self.next_pool_id = id + 1;
        id
    }

    /// Pays into an open pool; the returned transfer collects the amount.
    pub fn contribute(&mut self, user: u64, pool_id: u32, amount: i128, contract: u64) -> (r: Result<TokenTransfer, PoolError>)
        requires
            contribute_fits(old(self)@, pool_id, amount),
        ensures
            outcome_of(r, contribute_spec(old(self)@, user, pool_id, amount, contract), old(self)@, final(self)@),
    {
        if amount <= 0 {
            return Err(PoolError::InvalidAmount);
        }
        let p = match self.pools.get(pool_id as u64) {
            Some(p) => *p,
            None => {
                return Err(PoolError::PoolNotFound);
            },
        };
        if p.status != PoolStatus::Open {
            return Err(PoolError::PoolNotOpen);
        }
        let ghost old_view = self@;
        self.contributions.push(pool_id as u64, Contribution { contributor: user, amount });
        self.pools.insert(pool_id as u64, Pool { total: p.total + amount, ..p });
        self.stats = Stats {
            total_contributed: self.stats.total_contributed + amount,
            num_contributors: self.stats.num_contributors + 1,
            ..self.stats
        };
        assert(self@.distributions =~= old_view.distributions);
        Ok(TokenTransfer { token: self.token, from: user, to: contract, amount })
    }

    /// Splits the pool equally among the winners.
    pub fn distribute(&mut self, admin: u64, pool_id: u32, winners: Vec<u64>, now: u64) -> (r: Result<(), PoolError>)
        ensures
            outcome_of(r, match distribute_spec(old(self)@, admin, pool_id, winners@, now) {
                Ok(w) => Ok((w, ())),
                Err(e) => Err(e),
            }, old(self)@, final(self)@),
    {
        let p = match self.pools.get(pool_id as u64) {
            Some(p) => *p,
            None => {
                return Err(PoolError::PoolNotFound);
            },
        };
        if p.status != PoolStatus::Open {
            return Err(PoolError::PoolNotOpen);
        }
        if p.total < p.min_threshold {
            return Err(PoolError::BelowMinimumThreshold);
        }
        if winners.len() == 0 {
            return Err(PoolError::NoWinners);
        }
        if admin != p.admin {
            return Err(PoolError::NotPoolAdmin);
        }
        let n = winners.len();
        assert(n <= usize::MAX);
        let count = n as i128;
        let per = p.total / count;
        let ghost t: int = p.total as int;
        let ghost k: int = count as int;
        assert(per as int == equal_part(t, k));
        let mut amounts: Vec<i128> = Vec::new();
        let mut i: usize = 0;
        while i < n
            invariant
                i <= n,
                amounts@ == Seq::new(i as nat, |j: int| per),
            decreases n - i,
        {
            amounts.push(per);
            i = i + 1;
            assert(amounts@ =~= Seq::new(i as nat, |j: int| per));
        }
        assert(i128::MIN <= per * count <= i128::MAX && (t >= 0 ==> 0 <= per * count <= t) && (t < 0 ==> t <= per * count <= 0)) by (nonlinear_arith)
            requires
                k >= 1,
                per as int == (if t >= 0 { t / k } else { -((-t) / k) }),
                i128::MIN <= t <= i128::MAX,
                count as int == k,
        {
        }
        let sum = per * count;
        let ghost old_view = self@;
        let d = Distribution { pool_id, winners, amounts, claimed: Vec::new(), distributed_at: now };
        self.distributions.insert(pool_id as u64, d);
        self.pools.insert(pool_id as u64, Pool { status: PoolStatus::Distributed, total: p.total - sum, ..p });
        assert(self@.distributions =~= old_view.distributions.insert(pool_id as u64, d@));
        Ok(())
    }

    /// A winner claims their part; the returned transfer pays it.
    pub fn claim(&mut self, user: u64, pool_id: u32, contract: u64) -> (r: Result<TokenTransfer, PoolError>)
        requires
            claim_fits(old(self)@, pool_id),
        ensures
            outcome_of(r, claim_spec(old(self)@, user, pool_id, contract), old(self)@, final(self)@),
    {
        let ghost old_view = self@;
        let (nd, amount) = match self.distributions.get(pool_id as u64) {
            None => {
                return Err(PoolError::DistributionNotFound);
            },
            Some(d) => {
                let idx = match position_u64(&d.winners, user) {
                    Some(i) => i,
                    None => {
                        return Err(PoolError::NotAWinner);
                    },
                };
                let mut c = extended_claims(d);
                if c[idx] {
                    return Err(PoolError::AlreadyClaimed);
                }
                let amount = d.amounts[idx];
                c.set(idx, true);
                let nd = Distribution {
                    pool_id: d.pool_id,
                    winners: copy_vec(&d.winners),
                    amounts: copy_vec(&d.amounts),
                    claimed: c,
                    distributed_at: d.distributed_at,
                };
                (nd, amount)
            },
        };
        self.distributions.insert(pool_id as u64, nd);
        self.stats = Stats { total_distributed: self.stats.total_distributed + amount, ..self.stats };
        assert(self@.distributions =~= old_view.distributions.insert(pool_id as u64, nd@));
        Ok(TokenTransfer { token: self.token, from: contract, to: user, amount })
    }

    /// Moves what winners left unclaimed into the target pool once the
    /// claim period is over (`owner` has authorised).
    pub fn rollover_unclaimed(&mut self, owner: u64, pool_id: u32, target_pool_id: u32, now: u64) -> (r: Result<(), PoolError>)
        requires
            rollover_fits(old(self)@, pool_id, target_pool_id),
        ensures
            outcome_of(r, match rollover_spec(old(self)@, pool_id, target_pool_id, now) {
                Ok(w) => Ok((w, ())),
                Err(e) => Err(e),
            }, old(self)@, final(self)@),
    {
        let ghost old_view = self@;
        let p = match self.pools.get(pool_id as u64) {
            Some(p) => *p,
            None => {
                return Err(PoolError::PoolNotFound);
            },
        };
        let t = match self.pools.get(target_pool_id as u64) {
            Some(t) => *t,
            None => {
                return Err(PoolError::PoolNotFound);
            },
        };
        let nd = match self.distributions.get(pool_id as u64) {
            None => {
                return Err(PoolError::DistributionNotFound);
            },
            Some(d) => {
                if now < d.distributed_at + p.claim_period {
                    return Err(PoolError::ClaimPeriodNotExpired);
                }
                let ghost dv = d@;
                let ghost ext = ext_claimed(dv);
                let mut c = extended_claims(d);
                let mut unclaimed: i128 = 0;
                let mut i: usize = 0;
                while i < d.winners.len()
                    invariant
                        dv == d@,
                        ext == ext_claimed(dv),
                        i <= dv.winners.len(),
                        dv.amounts.len() >= dv.winners.len(),
                        ext.len() >= dv.winners.len(),
                        c@ == Seq::new(ext.len(), |j: int| if j < i { true } else { ext[j] }),
                        unclaimed == unclaimed_upto(dv, i as nat),
                        forall|k: nat| k <= dv.winners.len() ==> i128::MIN <= #[trigger] unclaimed_upto(dv, k) <= i128::MAX,
                    decreases dv.winners.len() - i,
                {
                    assert(c@[i as int] == ext[i as int]);
                    assert(unclaimed_upto(dv, (i + 1) as nat) == unclaimed_upto(dv, i as nat) + (if !ext[i as int] { dv.amounts[i as int] as int } else { 0 }));
                    if !c[i] {
                        unclaimed = unclaimed + d.amounts[i];
                        c.set(i, true);
                    }
                    i = i + 1;
                    assert(c@ =~= Seq::new(ext.len(), |j: int| if j < i { true } else { ext[j] }));
                }
                if unclaimed == 0 {
                    return Ok(());
                }
                self.pools.insert(target_pool_id as u64, Pool { total: t.total + unclaimed, ..t });
                Distribution {
                    pool_id: d.pool_id,
                    winners: copy_vec(&d.winners),
                    amounts: copy_vec(&d.amounts),
                    claimed: c,
                    distributed_at: d.distributed_at,
                }
            },
        };
        self.distributions.insert(pool_id as u64, nd);
        assert(self@.distributions =~= old_view.distributions.insert(pool_id as u64, nd@));
        Ok(())
    }

    pub fn get_pool(&self, pool_id: u32) -> (r: Result<Pool, PoolError>)
        ensures
            r == (if self@.pools.contains_key(pool_id as u64) {
                Ok::<Pool, PoolError>(self@.pools[pool_id as u64])
            } else {
                Err(PoolError::PoolNotFound)
            }),
    {
        match self.pools.get(pool_id as u64) {
            Some(p) => Ok(*p),
            None => Err(PoolError::PoolNotFound),
        }
    }

    pub fn get_stats(&self) -> (r: Stats)
        ensures
            r == self@.stats,
    {
        self.stats
    }

    pub fn get_distribution(&self, pool_id: u32) -> (r: Result<Distribution, PoolError>)
        ensures
            match r {
                Ok(d) => self@.distributions.contains_key(pool_id as u64) && d@ == self@.distributions[pool_id as u64],
                Err(e) => !self@.distributions.contains_key(pool_id as u64) && e == PoolError::DistributionNotFound,
            },
    {
        match self.distributions.get(pool_id as u64) {
            Some(d) => Ok(copy_distribution(d)),
            None => Err(PoolError::DistributionNotFound),
        }
    }
}

} // verus!

verus! {

/// Splitting a pool with a non-negative total: the winners' parts plus
/// what the pool keeps make up the old total, and the pool keeps less than
/// one part per winner.
pub proof fn law_split_keeps_total(v: PoolView, admin: u64, pool_id: u32, winners: Seq<u64>, now: u64)
    requires
        v.pools.contains_key(pool_id as u64) ==> v.pools[pool_id as u64].total >= 0,
    ensures
        distribute_spec(v, admin, pool_id, winners, now) matches Ok(w) ==> {
            let before = v.pools[pool_id as u64].total as int;
            let after = w.pools[pool_id as u64].total as int;
            let n = winners.len() as int;
            &&& after + n * equal_part(before, n) == before
            &&& 0 <= after < n
            &&& w.distributions[pool_id as u64].amounts.len() == n
        },
{
    if let Ok(w) = distribute_spec(v, admin, pool_id, winners, now) {
        let t = v.pools[pool_id as u64].total as int;
        let n = winners.len() as int;
        assert(0 <= t - (t / n) * n < n && 0 <= (t / n) * n <= t) by (nonlinear_arith)
            requires
                t >= 0,
                n >= 1,
        {
        }
        assert(n * equal_part(t, n) == (t / n) * n) by (nonlinear_arith)
            requires
                t >= 0,
                n >= 1,
                equal_part(t, n) == t / n,
        {
        }
    }
}

/// A winner who has claimed cannot claim again.
pub proof fn law_claim_once(v: PoolView, user: u64, pool_id: u32, contract: u64)
    ensures
        claim_spec(v, user, pool_id, contract) matches Ok((w, _)) ==> claim_spec(w, user, pool_id, contract) == Err::<(PoolView, TokenTransfer), PoolError>(PoolError::AlreadyClaimed),
{
    if let Ok((w, _)) = claim_spec(v, user, pool_id, contract) {
        let d = v.distributions[pool_id as u64];
        let i = d.winners.index_of_first(user)->0;
        d.winners.index_of_first_ensures(user);
        let d2 = w.distributions[pool_id as u64];
        assert(ext_claimed(d2) == d2.claimed);
        assert(d2.claimed[i] == true);
    }
}

} // verus!
