//! Puzzle bounties: a sponsor escrows three prizes for a puzzle; the first
//! three solvers who present the solution's hash before the deadline take
//! them in order. Unclaimed prizes go back to the sponsor once the bounty
//! expires, or all of them if the sponsor cancels before anyone claims.
use vstd::prelude::*;
use crate::assoc::{AssocMap, ListMap};
use crate::token::TokenTransfer;

verus! {

#[derive(Clone, Copy, Debug, PartialEq, Eq, Structural)]
pub enum BountyStatus {
    Open,
    /// All three places are taken.
    Completed,
    Expired,
    Cancelled,
}

/// A bounty posted by a sponsor.
#[derive(Clone, Copy, Debug)]
pub struct PuzzleBounty {
    pub id: u32,
    pub sponsor: u64,
    /// The token the prizes are paid in.
    pub token: u64,
    pub puzzle_id: u32,
    /// Hash of the correct solution; solvers present the same hash.
    pub solution_hash: [u8; 32],
    pub reward_1st: i128,
    pub reward_2nd: i128,
    pub reward_3rd: i128,
    /// No claims are accepted after this time.
    pub expiration: u64,
    pub status: BountyStatus,
    /// Places taken so far (0 to 3).
    pub winner_count: u32,
}

pub open spec fn total_of(b: PuzzleBounty) -> int {
    b.reward_1st + b.reward_2nd + b.reward_3rd
}

/// Adding up the prizes stays within `i128`.
pub open spec fn total_fits(b: PuzzleBounty) -> bool {
    &&& i128::MIN <= b.reward_1st + b.reward_2nd <= i128::MAX
    &&& i128::MIN <= total_of(b) <= i128::MAX
}

impl PuzzleBounty {
    /// All three prizes together: what was escrowed.
    pub fn total_reward(&self) -> (r: i128)
        requires
            total_fits(*self),
        ensures
            r == total_of(*self),
    {
        self.reward_1st + self.reward_2nd + self.reward_3rd
    }
}

#[derive(Clone, Copy, Debug, PartialEq, Eq, Structural)]
pub struct WinnerEntry {
    pub rank: u32,
    pub solver: u64,
    pub reward: i128,
    pub claimed_at: u64,
}

#[derive(Clone, Copy, Debug, PartialEq, Eq, Structural)]
pub enum BountyError {
    FirstRewardNotPositive,
    NegativeReward,
    RewardsNotDescending,
    ZeroDuration,
    BountyNotFound,
    BountyNotOpen,
    BountyExpired,
    IncorrectSolution,
    AllSlotsFilled,
    AlreadyClaimed,
    NotExpiredYet,
    NotSponsor,
    WinnersAlreadyClaimed,
}

pub struct PuzzleBountyContract {
    pub admin: u64,
    pub bounty_count: u32,
    pub bounties: AssocMap<PuzzleBounty>,
    /// Winners of each bounty, in the order they claimed.
    pub winners: ListMap<WinnerEntry>,
}

pub struct BountyView {
    pub admin: u64,
    pub bounty_count: u32,
    pub bounties: Map<u64, PuzzleBounty>,
    pub winners: Map<u64, Seq<WinnerEntry>>,
}

impl View for PuzzleBountyContract {
    type V = BountyView;

    open spec fn view(&self) -> BountyView {
        BountyView { admin: self.admin, bounty_count: self.bounty_count, bounties: self.bounties@, winners: self.winners@ }
    }
}

pub open spec fn winners_of(v: BountyView, id: u32) -> Seq<WinnerEntry> {
    if v.winners.contains_key(id as u64) { v.winners[id as u64] } else { Seq::empty() }
}

/// The prizes paid out so far.
pub open spec fn sum_rewards(s: Seq<WinnerEntry>) -> int
    decreases s.len(),
{
    if s.len() == 0 { 0 } else { sum_rewards(s.drop_last()) + s.last().reward }
}

pub open spec fn has_solver(s: Seq<WinnerEntry>, solver: u64) -> bool {
    exists|j: int| 0 <= j < s.len() && #[trigger] s[j].solver == solver
}

/// Why a bounty with these prizes and duration is refused, if it is.
pub open spec fn create_error(r1: i128, r2: i128, r3: i128, duration: u64) -> Option<BountyError> {
    if r1 <= 0 {
        Some(BountyError::FirstRewardNotPositive)
    } else if r2 < 0 || r3 < 0 {
        Some(BountyError::NegativeReward)
    } else if r1 < r2 || r2 < r3 {
        Some(BountyError::RewardsNotDescending)
    } else if duration == 0 {
        Some(BountyError::ZeroDuration)
    } else {
        None
    }
}

pub open spec fn prize_for(b: PuzzleBounty, rank: int) -> i128 {
    if rank == 1 { b.reward_1st } else if rank == 2 { b.reward_2nd } else { b.reward_3rd }
}

/// A claim: an open, unexpired bounty, the right hash, a free place, and a
/// solver who has not claimed before. The solver takes the next place and
/// its prize; the third place completes the bounty.
pub open spec fn claim_spec(v: BountyView, solver: u64, id: u32, hash: Seq<u8>, now: u64, contract: u64)
    -> Result<(BountyView, (u32, TokenTransfer)), BountyError> {
    if !v.bounties.contains_key(id as u64) {
        Err(BountyError::BountyNotFound)
    } else {
        let b = v.bounties[id as u64];
        let rank = b.winner_count + 1;
        if b.status != BountyStatus::Open {
            Err(BountyError::BountyNotOpen)
        } else if now > b.expiration {
            Err(BountyError::BountyExpired)
        } else if hash != b.solution_hash@ {
            Err(BountyError::IncorrectSolution)
        } else if rank > 3 {
            Err(BountyError::AllSlotsFilled)
        } else if has_solver(winners_of(v, id), solver) {
            Err(BountyError::AlreadyClaimed)
        } else {
            let reward = prize_for(b, rank);
            let entry = WinnerEntry { rank: rank as u32, solver, reward, claimed_at: now };
            let nb = PuzzleBounty {
                winner_count: rank as u32,
                status: if rank == 3 { BountyStatus::Completed } else { BountyStatus::Open },
                ..b
            };
            Ok((BountyView {
                bounties: v.bounties.insert(id as u64, nb),
                winners: v.winners.insert(id as u64, winners_of(v, id).push(entry)),
                ..v
            }, (rank as u32, TokenTransfer { token: b.token, from: contract, to: solver, amount: reward })))
        }
    }
}

/// After expiry an open bounty closes and what was not paid out goes back
/// to the sponsor.
pub open spec fn refund_spec(v: BountyView, id: u32, now: u64, contract: u64) -> Result<(BountyView, Option<TokenTransfer>), BountyError> {
    if !v.bounties.contains_key(id as u64) {
        Err(BountyError::BountyNotFound)
    } else {
        let b = v.bounties[id as u64];
        let unclaimed = total_of(b) - sum_rewards(winners_of(v, id));
        if b.status != BountyStatus::Open {
            Err(BountyError::BountyNotOpen)
        } else if now <= b.expiration {
            Err(BountyError::NotExpiredYet)
        } else {
            Ok((BountyView { bounties: v.bounties.insert(id as u64, PuzzleBounty { status: BountyStatus::Expired, ..b }), ..v },
                if unclaimed > 0 {
                    Some(TokenTransfer { token: b.token, from: contract, to: b.sponsor, amount: unclaimed as i128 })
                } else {
                    None
                }))
        }
    }
}

pub open spec fn refund_fits(v: BountyView, id: u32) -> bool {
    v.bounties.contains_key(id as u64) ==> {
        let b = v.bounties[id as u64];
        let s = winners_of(v, id);
        &&& total_fits(b)
        &&& forall|k: int| 0 <= k <= s.len() ==> i128::MIN <= #[trigger] sum_rewards(s.take(k)) <= i128::MAX
        &&& i128::MIN <= total_of(b) - sum_rewards(s) <= i128::MAX
    }
}

/// The sponsor withdraws an open bounty nobody has claimed; all the
/// prizes go back.
pub open spec fn cancel_spec(v: BountyView, sponsor: u64, id: u32, contract: u64) -> Result<(BountyView, TokenTransfer), BountyError> {
    if !v.bounties.contains_key(id as u64) {
        Err(BountyError::BountyNotFound)
    } else {
        let b = v.bounties[id as u64];
        if b.sponsor != sponsor {
            Err(BountyError::NotSponsor)
        } else if b.status != BountyStatus::Open {
            Err(BountyError::BountyNotOpen)
        } else if b.winner_count > 0 {
            Err(BountyError::WinnersAlreadyClaimed)
        } else {
            Ok((BountyView { bounties: v.bounties.insert(id as u64, PuzzleBounty { status: BountyStatus::Cancelled, ..b }), ..v },
                TokenTransfer { token: b.token, from: contract, to: sponsor, amount: total_of(b) as i128 }))
        }
    }
}

/// The open bounties for the puzzle among ids `1..=n`, in id order.
pub open spec fn open_for_puzzle(m: Map<u64, PuzzleBounty>, puzzle_id: u32, n: nat) -> Seq<PuzzleBounty>
    decreases n,
{
    if n == 0 {
        Seq::empty()
    } else {
        let prev = open_for_puzzle(m, puzzle_id, (n - 1) as nat);
        if m.contains_key(n as u64) && m[n as u64].puzzle_id == puzzle_id && m[n as u64].status == BountyStatus::Open {
            prev.push(m[n as u64])
        } else {
            prev
        }
    }
}

/// The page of `s` that skips `offset` items and holds at most `limit`.
pub open spec fn page<T>(s: Seq<T>, offset: int, limit: int) -> Seq<T> {
    let lo = if offset < s.len() { offset } else { s.len() as int };
    let hi = if offset + limit < s.len() { offset + limit } else { s.len() as int };
    s.subrange(lo, hi)
}

pub open spec fn outcome_of<S, R, E>(r: Result<R, E>, spec: Result<(S, R), E>, old: S, new: S) -> bool {
    match spec {
        Ok((w, x)) => r == Ok::<R, E>(x) && new == w,
        Err(e) => r == Err::<R, E>(e) && new == old,
    }
}

proof fn lemma_page_push<T>(s: Seq<T>, x: T, offset: int, limit: int)
    requires
        offset >= 0,
        limit >= 0,
    ensures
        page(s.push(x), offset, limit) == (if s.len() >= offset && page(s, offset, limit).len() < limit {
            page(s, offset, limit).push(x)
        } else {
            page(s, offset, limit)
        }),
{
    if s.len() >= offset && page(s, offset, limit).len() < limit {
        assert(page(s.push(x), offset, limit) =~= page(s, offset, limit).push(x));
    } else {
        assert(page(s.push(x), offset, limit) =~= page(s, offset, limit));
    }
}

fn same_hash(a: &[u8; 32], b: &[u8; 32]) -> (r: bool)
    ensures
        r == (a@ == b@),
{
    let mut i: usize = 0;
    while i < 32
        invariant
            i <= 32,
            a@.len() == 32,
            b@.len() == 32,
            forall|j: int| 0 <= j < i ==> a@[j] == b@[j],
        decreases 32 - i,
    {
        if a[i] != b[i] {
            return false;
        }
        i = i + 1;
    }
    assert(a@ =~= b@);
    true
}

fn find_solver(ws: &Vec<WinnerEntry>, solver: u64) -> (r: bool)
    ensures
        r == has_solver(ws@, solver),
{
    let mut i: usize = 0;
    while i < ws.len()
        invariant
            i <= ws@.len(),
            forall|j: int| 0 <= j < i ==> ws@[j].solver != solver,
        decreases ws@.len() - i,
    {
        if ws[i].solver == solver {
            return true;
        }
        i = i + 1;
    }
    false
}

fn sum_paid(ws: &Vec<WinnerEntry>) -> (r: i128)
    requires
        forall|k: int| 0 <= k <= ws@.len() ==> i128::MIN <= #[trigger] sum_rewards(ws@.take(k)) <= i128::MAX,
    ensures
        r == sum_rewards(ws@),
{
    let mut total: i128 = 0;
    let mut i: usize = 0;
    while i < ws.len()
        invariant
            i <= ws@.len(),
            total == sum_rewards(ws@.take(i as int)),
            forall|k: int| 0 <= k <= ws@.len() ==> i128::MIN <= #[trigger] sum_rewards(ws@.take(k)) <= i128::MAX,
        decreases ws@.len() - i,
    {
        assert(ws@.take(i + 1).drop_last() =~= ws@.take(i as int));
        assert(sum_rewards(ws@.take(i + 1)) == sum_rewards(ws@.take(i as int)) + ws@[i as int].reward);
        total = total + ws[i].reward;
        i = i + 1;
    }
    assert(ws@.take(ws@.len() as int) =~= ws@);
    total
}

impl PuzzleBountyContract {
    pub fn initialize(admin: u64) -> (c: Self)
        ensures
            c@.admin == admin,
            c@.bounty_count == 0,
            c@.bounties == Map::<u64, PuzzleBounty>::empty(),
            c@.winners == Map::<u64, Seq<WinnerEntry>>::empty(),
    {
        PuzzleBountyContract { admin, bounty_count: 0, bounties: AssocMap::new(), winners: ListMap::new() }
    }

    /// Posts a bounty; the returned transfer escrows the three prizes.
    pub fn create_bounty(
        &mut self,
        sponsor: u64,
        token_address: u64,
        puzzle_id: u32,
        solution_hash: [u8; 32],
        reward_1st: i128,
        reward_2nd: i128,
        reward_3rd: i128,
        duration: u64,
        now: u64,
        contract: u64,
    ) -> (r: Result<(u32, TokenTransfer), BountyError>)
        requires
            create_error(reward_1st, reward_2nd, reward_3rd, duration) is None ==> {
                &&& reward_1st + reward_2nd + reward_3rd <= i128::MAX
                &&& old(self)@.bounty_count < u32::MAX
                &&& now + duration <= u64::MAX
            },
        ensures
            match create_error(reward_1st, reward_2nd, reward_3rd, duration) {
                Some(e) => r == Err::<(u32, TokenTransfer), BountyError>(e) && final(self)@ == old(self)@,
                None => {
                    let id = (old(self)@.bounty_count + 1) as u32;
                    let b = PuzzleBounty {
                        id,
                        sponsor,
                        token: token_address,
                        puzzle_id,
                        solution_hash,
                        reward_1st,
                        reward_2nd,
                        reward_3rd,
                        expiration: (now + duration) as u64,
                        status: BountyStatus::Open,
                        winner_count: 0,
                    };
                    &&& r == Ok::<(u32, TokenTransfer), BountyError>((id, TokenTransfer {
                        token: token_address,
                        from: sponsor,
                        to: contract,
                        amount: (reward_1st + reward_2nd + reward_3rd) as i128,
                    }))
                    &&& final(self)@ == (BountyView {
                        bounty_count: id,
                        bounties: old(self)@.bounties.insert(id as u64, b),
                        winners: old(self)@.winners.insert(id as u64, Seq::empty()),
                        ..old(self)@
                    })
                },
            },
    {
        if reward_1st <= 0 {
            return Err(BountyError::FirstRewardNotPositive);
        }
        if reward_2nd < 0 || reward_3rd < 0 {
            return Err(BountyError::NegativeReward);
        }
        if reward_1st < reward_2nd || reward_2nd < reward_3rd {
            return Err(BountyError::RewardsNotDescending);
        }
        if duration == 0 {
            return Err(BountyError::ZeroDuration);
        }
        let total = reward_1st + reward_2nd + reward_3rd;
        let id = self.bounty_count + 1;
        let b = PuzzleBounty {
            id,
            sponsor,
            token: token_address,
            puzzle_id,
            solution_hash,
            reward_1st,
            reward_2nd,
            reward_3rd,
            expiration: now + duration,
            status: BountyStatus::Open,
            winner_count: 0,
        };
        self.bounties.insert(id as u64, b);
        self.bounty_count = id;
        self.winners.set(id as u64, Vec::new());
        Ok((id, TokenTransfer { token: token_address, from: sponsor, to: contract, amount: total }))
    }

    /// Claims the next place with the solution's hash; hands back the place
    /// and the transfer of its prize.
    pub fn claim_bounty(&mut self, solver: u64, bounty_id: u32, solution_hash: [u8; 32], now: u64, contract: u64)
        -> (r: Result<(u32, TokenTransfer), BountyError>)
        requires
            old(self)@.bounties.contains_key(bounty_id as u64) ==> old(self)@.bounties[bounty_id as u64].winner_count < u32::MAX,
        ensures
            outcome_of(r, claim_spec(old(self)@, solver, bounty_id, solution_hash@, now, contract), old(self)@, final(self)@),
    {
        let b = match self.bounties.get(bounty_id as u64) {
            Some(b) => *b,
            None => {
                return Err(BountyError::BountyNotFound);
            },
        };
        if b.status != BountyStatus::Open {
            return Err(BountyError::BountyNotOpen);
        }
        if now > b.expiration {
            return Err(BountyError::BountyExpired);
        }
        if !same_hash(&solution_hash, &b.solution_hash) {
            return Err(BountyError::IncorrectSolution);
        }
        let rank = b.winner_count + 1;
        if rank > 3 {
            return Err(BountyError::AllSlotsFilled);
        }
        let ws = self.winners.get_list(bounty_id as u64);
        if find_solver(&ws, solver) {
            return Err(BountyError::AlreadyClaimed);
        }
        let reward = if rank == 1 {
            b.reward_1st
        } else if rank == 2 {
            b.reward_2nd
        } else {
            b.reward_3rd
        };
        self.winners.push(bounty_id as u64, WinnerEntry { rank, solver, reward, claimed_at: now });
        let status = if rank == 3 { BountyStatus::Completed } else { BountyStatus::Open };
        self.bounties.insert(bounty_id as u64, PuzzleBounty { winner_count: rank, status, ..b });
        Ok((rank, TokenTransfer { token: b.token, from: contract, to: solver, amount: reward }))
    }

    /// Closes an expired bounty; the returned transfer, if any, refunds the
    /// prizes nobody claimed.
    pub fn refund_expired(&mut self, bounty_id: u32, now: u64, contract: u64) -> (r: Result<Option<TokenTransfer>, BountyError>)
        requires
            refund_fits(old(self)@, bounty_id),
        ensures
            outcome_of(r, refund_spec(old(self)@, bounty_id, now, contract), old(self)@, final(self)@),
    {
        let b = match self.bounties.get(bounty_id as u64) {
            Some(b) => *b,
            None => {
                return Err(BountyError::BountyNotFound);
            },
        };
        if b.status != BountyStatus::Open {
            return Err(BountyError::BountyNotOpen);
        }
        if now <= b.expiration {
            return Err(BountyError::NotExpiredYet);
        }
        let ws = self.winners.get_list(bounty_id as u64);
        let claimed = sum_paid(&ws);
        let unclaimed = b.total_reward() - claimed;
        self.bounties.insert(bounty_id as u64, PuzzleBounty { status: BountyStatus::Expired, ..b });
        if unclaimed > 0 {
            Ok(Some(TokenTransfer { token: b.token, from: contract, to: b.sponsor, amount: unclaimed }))
        } else {
            Ok(None)
        }
    }

    /// Withdraws an unclaimed bounty; the returned transfer refunds it all.
    pub fn cancel_bounty(&mut self, sponsor: u64, bounty_id: u32, contract: u64) -> (r: Result<TokenTransfer, BountyError>)
        requires
            old(self)@.bounties.contains_key(bounty_id as u64) ==> total_fits(old(self)@.bounties[bounty_id as u64]),
        ensures
            outcome_of(r, cancel_spec(old(self)@, sponsor, bounty_id, contract), old(self)@, final(self)@),
    {
        let b = match self.bounties.get(bounty_id as u64) {
            Some(b) => *b,
            None => {
                return Err(BountyError::BountyNotFound);
            },
        };
        if b.sponsor != sponsor {
            return Err(BountyError::NotSponsor);
        }
        if b.status != BountyStatus::Open {
            return Err(BountyError::BountyNotOpen);
        }
        if b.winner_count > 0 {
            return Err(BountyError::WinnersAlreadyClaimed);
        }
        let total = b.total_reward();
        self.bounties.insert(bounty_id as u64, PuzzleBounty { status: BountyStatus::Cancelled, ..b });
        Ok(TokenTransfer { token: b.token, from: contract, to: sponsor, amount: total })
    }

    pub fn get_bounty(&self, bounty_id: u32) -> (r: Option<PuzzleBounty>)
        ensures
            r == (if self@.bounties.contains_key(bounty_id as u64) { Some(self@.bounties[bounty_id as u64]) } else { None }),
    {
        match self.bounties.get(bounty_id as u64) {
            Some(b) => Some(*b),
            None => None,
        }
    }

    pub fn get_bounty_count(&self) -> (r: u32)
        ensures
            r == self@.bounty_count,
    {
        self.bounty_count
    }

    /// The winners of the bounty, in the order they claimed.
    pub fn get_leaderboard(&self, bounty_id: u32) -> (r: Vec<WinnerEntry>)
        ensures
            r@ == winners_of(self@, bounty_id),
    {
        self.winners.get_list(bounty_id as u64)
    }

    /// The open bounties for the puzzle, in id order, skipping `offset` of
    /// them and returning at most `limit`.
    pub fn get_bounties_for_puzzle(&self, puzzle_id: u32, offset: u32, limit: u32) -> (r: Vec<PuzzleBounty>)
        ensures
            r@ == page(open_for_puzzle(self@.bounties, puzzle_id, self@.bounty_count as nat), offset as int, limit as int),
    {
        let count = self.bounty_count;
        let mut result: Vec<PuzzleBounty> = Vec::new();
        let mut seen: u32 = 0;
        let mut i: u64 = 1;
        while i <= count as u64
            invariant
                1 <= i <= count as u64 + 1,
                count == self@.bounty_count,
                seen as int == open_for_puzzle(self@.bounties, puzzle_id, (i - 1) as nat).len(),
                seen < i,
                result@ == page(open_for_puzzle(self@.bounties, puzzle_id, (i - 1) as nat), offset as int, limit as int),
            decreases count as u64 + 1 - i,
        {
            let ghost before = open_for_puzzle(self@.bounties, puzzle_id, (i - 1) as nat);
            match self.bounties.get(i) {
                Some(b) => {
                    if b.puzzle_id == puzzle_id && b.status == BountyStatus::Open {
                        proof {
                            lemma_page_push(before, *b, offset as int, limit as int);
                        }
                        if seen >= offset && result.len() < limit as usize {
                            result.push(*b);
                        }
                        seen = seen + 1;
                    }
                },
                None => {},
            }
            i = i + 1;
        }
        result
    }
}

} // verus!

verus! {

/// The winners of a bounty hold places 1, 2, ... in claim order, each with
/// its place's prize, and there are as many as the bounty counts.
pub open spec fn bounty_wf(v: BountyView, id: u32) -> bool {
    v.bounties.contains_key(id as u64) ==> {
        let b = v.bounties[id as u64];
        let s = winners_of(v, id);
        &&& s.len() == b.winner_count
        &&& b.winner_count <= 3
        &&& forall|j: int| 0 <= j < s.len() ==> (#[trigger] s[j]).rank == j + 1 && s[j].reward == prize_for(b, j + 1)
    }
}

/// A claim keeps the winners in place order with their places' prizes,
/// and pays the solver the prize of the place they took.
pub proof fn law_claim_takes_next_place(v: BountyView, solver: u64, id: u32, hash: Seq<u8>, now: u64, contract: u64)
    requires
        bounty_wf(v, id),
    ensures
        claim_spec(v, solver, id, hash, now, contract) matches Ok((w, (rank, t))) ==> {
            &&& bounty_wf(w, id)
            &&& rank == winners_of(w, id).len()
            &&& t.amount == prize_for(v.bounties[id as u64], rank as int)
            &&& t.to == solver
        },
{
    if let Ok((w, (rank, t))) = claim_spec(v, solver, id, hash, now, contract) {
        let b = v.bounties[id as u64];
        let s = winners_of(w, id);
        assert forall|j: int| 0 <= j < s.len() implies (#[trigger] s[j]).rank == j + 1 && s[j].reward == prize_for(w.bounties[id as u64], j + 1) by {
            if j < s.len() - 1 {
                assert(s[j] == winners_of(v, id)[j]);
            }
        }
    }
}

/// What a bounty has paid out never exceeds what was escrowed for it.
pub proof fn law_paid_within_escrow(v: BountyView, id: u32)
    requires
        bounty_wf(v, id),
        v.bounties.contains_key(id as u64),
        create_error(v.bounties[id as u64].reward_1st, v.bounties[id as u64].reward_2nd, v.bounties[id as u64].reward_3rd, 1) is None,
    ensures
        0 <= sum_rewards(winners_of(v, id)) <= total_of(v.bounties[id as u64]),
{
    let s = winners_of(v, id);
    reveal_with_fuel(sum_rewards, 4);
    if s.len() >= 1 {
        assert(s[0].reward == prize_for(v.bounties[id as u64], 1));
    }
    if s.len() >= 2 {
        assert(s[1].reward == prize_for(v.bounties[id as u64], 2));
    }
    if s.len() >= 3 {
        assert(s[2].reward == prize_for(v.bounties[id as u64], 3));
    }
    if s.len() == 3 {
        assert(s.drop_last().drop_last().drop_last().len() == 0);
    }
}

} // verus!
