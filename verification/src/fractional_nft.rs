//! Fractional ownership of NFTs: an NFT is locked in a vault and split into
//! shares, which can be transferred (subject to a minimum holding), traded,
//! bought out, and voted with; rental income paid into a vault is shared
//! among the holders by their shares.
//!
//! The state is described by `FracView`; share movements state their effect
//! as functions on it. Token payments and NFT moves are handed back as
//! actions for the host to perform.
use vstd::prelude::*;
use crate::assoc::{AssocMap, PairMap};
use crate::token::TokenTransfer;

verus! {

pub const BPS_DENOMINATOR: i128 = 10_000;
/// The scale of the accumulated rental income per share.
pub const ACC_SCALE: i128 = 1_000_000_000_000;

#[derive(Clone, Copy, Debug, PartialEq, Eq, Structural)]
pub struct Vault {
    pub id: u64,
    pub nft_contract: u64,
    pub nft_id: u32,
    pub total_shares: i128,
    pub min_ownership_bps: u32,
    pub rental_token: Option<u64>,
    /// Rental income per share so far, times `ACC_SCALE`.
    pub acc_rental_per_share: i128,
    pub active: bool,
}

#[derive(Clone, Copy, Debug, PartialEq, Eq, Structural)]
pub struct Listing {
    pub id: u64,
    pub vault_id: u64,
    pub seller: u64,
    pub payment_token: u64,
    pub shares: i128,
    pub price_per_share: i128,
    pub expiration: Option<u64>,
    pub active: bool,
}

#[derive(Clone, Copy, Debug, PartialEq, Eq, Structural)]
pub struct Buyout {
    pub vault_id: u64,
    pub buyer: u64,
    pub payment_token: u64,
    pub price_total: i128,
    pub escrow_remaining: i128,
    pub end_time: u64,
    pub active: bool,
}

#[derive(Clone, Copy, Debug, PartialEq, Eq, Structural)]
pub enum ProposalKind {
    SetRentalToken,
}

#[derive(Clone, Copy, Debug, PartialEq, Eq, Structural)]
pub struct Proposal {
    pub id: u64,
    pub vault_id: u64,
    pub proposer: u64,
    pub kind: ProposalKind,
    pub new_rental_token: u64,
    pub start_time: u64,
    pub end_time: u64,
    pub for_votes: i128,
    pub against_votes: i128,
    pub executed: bool,
}

/// Move NFT `nft_id` of contract `nft_contract` from `from` to `to`.
#[derive(Clone, Copy, Debug, PartialEq, Eq, Structural)]
pub struct NftMove {
    pub nft_contract: u64,
    pub from: u64,
    pub to: u64,
    pub nft_id: u32,
}

#[derive(Clone, Copy, Debug, PartialEq, Eq, Structural)]
pub enum FractionalError {
    VaultNotFound,
    VaultInactive,
    InvalidAmount,
    LengthMismatch,
    InvalidTotalShares,
    InvalidMinOwnershipBps,
    NotNftOwner,
    CannotTransferToSelf,
    InsufficientBalance,
    InsufficientAllowance,
    BelowMinOwnershipThreshold,
    InvalidParams,
    InvalidExpiration,
    ListingNotFound,
    ListingInactive,
    CannotBuyOwnListing,
    ListingExpired,
    NotSeller,
    Overflow,
    InvalidPrice,
    InvalidEndTime,
    BuyoutActive,
    NoBuyout,
    BuyoutInactive,
    BuyoutEnded,
    BuyerCannotTender,
    InsufficientBuyoutEscrow,
    NotBuyer,
    BuyoutNotEnded,
    NotFullOwner,
    RentalTokenNotSet,
    NoClaimable,
    InvalidVotingPeriod,
    NoShares,
    ProposalNotFound,
    VotingNotStarted,
    VotingEnded,
    AlreadyVoted,
    AlreadyExecuted,
    VotingNotEnded,
    ProposalDefeated,
}

/// The state of the contract.
pub struct FractionalNftContract {
    pub admin: u64,
    pub vault_count: u64,
    pub listing_count: u64,
    pub proposal_count: u64,
    pub vaults: AssocMap<Vault>,
    /// Shares by (vault, holder).
    pub balances: PairMap<i128>,
    /// Allowances by vault, then (owner, spender).
    pub allowances: AssocMap<PairMap<i128>>,
    pub listings: AssocMap<Listing>,
    pub buyouts: AssocMap<Buyout>,
    pub proposals: AssocMap<Proposal>,
    /// Votes cast, by (proposal, voter).
    pub voted: PairMap<bool>,
    /// Rental income already accounted for, by (vault, holder).
    pub reward_debt: PairMap<i128>,
    /// Rental income owed, by (vault, holder).
    pub claimable: PairMap<i128>,
}

/// The contract's state as plain maps.
pub struct FracView {
    pub admin: u64,
    pub vault_count: u64,
    pub listing_count: u64,
    pub proposal_count: u64,
    pub vaults: Map<u64, Vault>,
    pub balances: Map<(u64, u64), i128>,
    pub allowances: Map<(u64, u64, u64), i128>,
    pub listings: Map<u64, Listing>,
    pub buyouts: Map<u64, Buyout>,
    pub proposals: Map<u64, Proposal>,
    pub voted: Map<(u64, u64), bool>,
    pub reward_debt: Map<(u64, u64), i128>,
    pub claimable: Map<(u64, u64), i128>,
}

pub open spec fn allowance_view(m: Map<u64, PairMap<i128>>) -> Map<(u64, u64, u64), i128> {
    Map::new(
        |k: (u64, u64, u64)| m.contains_key(k.0) && m[k.0]@.contains_key((k.1, k.2)),
        |k: (u64, u64, u64)| m[k.0]@[(k.1, k.2)],
    )
}

impl View for FractionalNftContract {
    type V = FracView;

    open spec fn view(&self) -> FracView {
        FracView {
            admin: self.admin,
            vault_count: self.vault_count,
            listing_count: self.listing_count,
            proposal_count: self.proposal_count,
            vaults: self.vaults@,
            balances: self.balances@,
            allowances: allowance_view(self.allowances@),
            listings: self.listings@,
            buyouts: self.buyouts@,
            proposals: self.proposals@,
            voted: self.voted@,
            reward_debt: self.reward_debt@,
            claimable: self.claimable@,
        }
    }
}

// ───────────── the model ─────────────

/// The amount under a key (0 when there is none).
pub open spec fn amount_at<K>(m: Map<K, i128>, k: K) -> i128 {
    if m.contains_key(k) { m[k] } else { 0 }
}

pub open spec fn fits(x: int) -> bool {
    i128::MIN <= x <= i128::MAX
}

/// Division rounding toward zero by a positive divisor.
pub open spec fn tdiv(a: int, b: int) -> int {
    if a >= 0 { a / b } else { -((-a) / b) }
}

pub open spec fn is_active_vault(v: FracView, id: u64) -> bool {
    v.vaults.contains_key(id) && v.vaults[id].active
}

pub open spec fn shares_of(v: FracView, vault: u64, who: u64) -> i128 {
    amount_at(v.balances, (vault, who))
}

/// The holder's share of the vault's rental income so far.
pub open spec fn accrued(v: FracView, vault: u64, who: u64) -> int {
    tdiv(shares_of(v, vault, who) * v.vaults[vault].acc_rental_per_share, ACC_SCALE as int)
}

/// Before a holder's shares change, the rental income they earned since
/// last accounted for is added to what they may claim (active vaults only).
pub open spec fn accrue_spec(v: FracView, vault: u64, who: u64) -> Result<FracView, FractionalError> {
    if !is_active_vault(v, vault) {
        Ok(v)
    } else if !fits(shares_of(v, vault, who) * v.vaults[vault].acc_rental_per_share) {
        Err(FractionalError::Overflow)
    } else {
        let pending = accrued(v, vault, who) - amount_at(v.reward_debt, (vault, who));
        if pending > 0 {
            Ok(FracView { claimable: v.claimable.insert((vault, who), (amount_at(v.claimable, (vault, who)) + pending) as i128), ..v })
        } else {
            Ok(v)
        }
    }
}

pub open spec fn accrue_fits(v: FracView, vault: u64, who: u64) -> bool {
    is_active_vault(v, vault) && fits(shares_of(v, vault, who) * v.vaults[vault].acc_rental_per_share) ==> {
        let pending = accrued(v, vault, who) - amount_at(v.reward_debt, (vault, who));
        &&& fits(pending)
        &&& pending > 0 ==> fits(amount_at(v.claimable, (vault, who)) + pending)
    }
}

/// After a holder's shares change, their income so far counts as accounted for.
pub open spec fn settle_spec(v: FracView, vault: u64, who: u64) -> Result<FracView, FractionalError> {
    if !is_active_vault(v, vault) {
        Ok(v)
    } else if !fits(shares_of(v, vault, who) * v.vaults[vault].acc_rental_per_share) {
        Err(FractionalError::Overflow)
    } else {
        Ok(FracView { reward_debt: v.reward_debt.insert((vault, who), accrued(v, vault, who) as i128), ..v })
    }
}

/// The fewest shares a holder may keep: `min_ownership_bps` of the total, rounded up.
pub open spec fn min_shares(vt: Vault) -> int {
    tdiv(vt.total_shares * vt.min_ownership_bps + 9999, 10000)
}

/// Whether holding `b` shares of the vault is allowed: nothing or at least
/// the minimum (the vault must exist).
pub open spec fn enforce_amount(v: FracView, vault: u64, b: i128) -> Result<(), FractionalError> {
    if !v.vaults.contains_key(vault) {
        Err(FractionalError::VaultNotFound)
    } else {
        let vt = v.vaults[vault];
        if vt.min_ownership_bps == 0 || b == 0 {
            Ok(())
        } else if !fits(vt.total_shares * vt.min_ownership_bps) {
            Err(FractionalError::Overflow)
        } else if b < min_shares(vt) {
            Err(FractionalError::BelowMinOwnershipThreshold)
        } else {
            Ok(())
        }
    }
}

/// A holder with shares must hold at least the vault's minimum.
pub open spec fn enforce_spec(v: FracView, vault: u64, who: u64) -> Result<(), FractionalError> {
    enforce_amount(v, vault, shares_of(v, vault, who))
}

pub open spec fn enforce_fits(v: FracView, vault: u64) -> bool {
    v.vaults.contains_key(vault) && fits(v.vaults[vault].total_shares * v.vaults[vault].min_ownership_bps)
        ==> fits(v.vaults[vault].total_shares * v.vaults[vault].min_ownership_bps + 9999)
}

/// The balances after moving `amt` shares: the sender's balance is set
/// first, then the receiver's (from their balance before the move).
pub open spec fn moved(v: FracView, vault: u64, from: u64, to: u64, amt: i128) -> FracView {
    let fb = shares_of(v, vault, from);
    let tb = shares_of(v, vault, to);
    FracView { balances: v.balances.insert((vault, from), (fb - amt) as i128).insert((vault, to), (tb + amt) as i128), ..v }
}

/// Moves `amt` shares: both holders' income is accrued, the sender must
/// hold enough, both must stay above the minimum holding afterwards, and
/// both holders' income is then accounted for. Any failure changes nothing.
pub open spec fn move_spec(v: FracView, vault: u64, from: u64, to: u64, amt: i128) -> Result<FracView, FractionalError> {
    match accrue_spec(v, vault, from) {
        Err(e) => Err(e),
        Ok(v1) => match accrue_spec(v1, vault, to) {
            Err(e) => Err(e),
            Ok(v2) => if shares_of(v2, vault, from) < amt {
                Err(FractionalError::InsufficientBalance)
            } else {
                let v3 = moved(v2, vault, from, to, amt);
                match enforce_spec(v3, vault, from) {
                    Err(e) => Err(e),
                    Ok(_) => match enforce_spec(v3, vault, to) {
                        Err(e) => Err(e),
                        Ok(_) => match settle_spec(v3, vault, from) {
                            Err(e) => Err(e),
                            Ok(v4) => settle_spec(v4, vault, to),
                        },
                    },
                }
            },
        },
    }
}

/// A transfer of shares: a positive amount moved by `move_spec`.
pub open spec fn transfer_spec(v: FracView, vault: u64, from: u64, to: u64, amt: i128) -> Result<FracView, FractionalError> {
    if amt <= 0 { Err(FractionalError::InvalidAmount) } else { move_spec(v, vault, from, to, amt) }
}

pub open spec fn move_fits(v: FracView, vault: u64, from: u64, to: u64, amt: i128) -> bool {
    &&& accrue_fits(v, vault, from)
    &&& accrue_spec(v, vault, from) matches Ok(v1) ==> {
        &&& accrue_fits(v1, vault, to)
        &&& accrue_spec(v1, vault, to) matches Ok(v2) ==> (shares_of(v2, vault, from) >= amt ==> {
            &&& fits(shares_of(v2, vault, to) + amt)
            &&& enforce_fits(v, vault)
        })
    }
}

/// What the result of an operation on the model says of the state after it.
pub open spec fn outcome<T>(r: Result<T, FractionalError>, spec: Result<FracView, FractionalError>, old: FracView, new: FracView) -> bool {
    match spec {
        Ok(w) => r is Ok && new == w,
        Err(e) => r matches Err(f) && f == e && new == old,
    }
}

} // verus!

verus! {

impl FractionalNftContract {
    /// The contract as `initialize` leaves it.
    pub fn initialize(admin: u64) -> (c: Self)
        ensures
            c@.admin == admin,
            c@.vault_count == 0 && c@.listing_count == 0 && c@.proposal_count == 0,
            c@.vaults == Map::<u64, Vault>::empty(),
            c@.balances == Map::<(u64, u64), i128>::empty(),
            c@.allowances == Map::<(u64, u64, u64), i128>::empty(),
            c@.listings == Map::<u64, Listing>::empty(),
            c@.buyouts == Map::<u64, Buyout>::empty(),
            c@.proposals == Map::<u64, Proposal>::empty(),
            c@.voted == Map::<(u64, u64), bool>::empty(),
            c@.reward_debt == Map::<(u64, u64), i128>::empty(),
            c@.claimable == Map::<(u64, u64), i128>::empty(),
    {
        let c = FractionalNftContract {
            admin,
            vault_count: 0,
            listing_count: 0,
            proposal_count: 0,
            vaults: AssocMap::new(),
            balances: PairMap::new(),
            allowances: AssocMap::new(),
            listings: AssocMap::new(),
            buyouts: AssocMap::new(),
            proposals: AssocMap::new(),
            voted: PairMap::new(),
            reward_debt: PairMap::new(),
            claimable: PairMap::new(),
        };
        assert(c@.allowances =~= Map::<(u64, u64, u64), i128>::empty());
        c
    }

    fn amount(m: &PairMap<i128>, a: u64, b: u64) -> (r: i128)
        ensures
            r == amount_at(m@, (a, b)),
    {
        match m.get(a, b) {
            Some(x) => *x,
            None => 0,
        }
    }

    fn set_shares(&mut self, vault: u64, who: u64, amount: i128)
        ensures
            final(self)@ == (FracView { balances: old(self)@.balances.insert((vault, who), amount), ..old(self)@ }),
    {
        self.balances.insert(vault, who, amount);
    }

    /// Adds the holder's earned income to what they may claim.
    fn accrue(&mut self, vault: u64, who: u64)
        requires
            accrue_spec(old(self)@, vault, who) is Ok,
            accrue_fits(old(self)@, vault, who),
        ensures
            final(self)@ == accrue_spec(old(self)@, vault, who)->Ok_0,
    {
        let acc = match self.vaults.get(vault) {
            Some(vt) => {
                if !vt.active {
                    return;
                }
                vt.acc_rental_per_share
            },
            None => {
                return;
            },
        };
        let b = Self::amount(&self.balances, vault, who);
        let debt = Self::amount(&self.reward_debt, vault, who);
        let accumulated = (b * acc) / ACC_SCALE;
        let pending = accumulated - debt;
        if pending > 0 {
            let current = Self::amount(&self.claimable, vault, who);
            self.claimable.insert(vault, who, current + pending);
        }
    }

    /// Counts the holder's income so far as accounted for.
    fn settle(&mut self, vault: u64, who: u64)
        requires
            settle_spec(old(self)@, vault, who) is Ok,
        ensures
            final(self)@ == settle_spec(old(self)@, vault, who)->Ok_0,
    {
        let acc = match self.vaults.get(vault) {
            Some(vt) => {
                if !vt.active {
                    return;
                }
                vt.acc_rental_per_share
            },
            None => {
                return;
            },
        };
        let b = Self::amount(&self.balances, vault, who);
        self.reward_debt.insert(vault, who, (b * acc) / ACC_SCALE);
    }

    /// Whether holding `b` shares of the vault is allowed.
    fn check_min(&self, vault: u64, b: i128) -> (r: Result<(), FractionalError>)
        requires
            enforce_fits(self@, vault),
        ensures
            r == enforce_amount(self@, vault, b),
    {
        let vt = match self.vaults.get(vault) {
            Some(vt) => *vt,
            None => {
                return Err(FractionalError::VaultNotFound);
            },
        };
        if vt.min_ownership_bps == 0 || b == 0 {
            return Ok(());
        }
        let prod = match vt.total_shares.checked_mul(vt.min_ownership_bps as i128) {
            Some(p) => p,
            None => {
                return Err(FractionalError::Overflow);
            },
        };
        let min = (prod + (BPS_DENOMINATOR - 1)) / BPS_DENOMINATOR;
        if b < min {
            return Err(FractionalError::BelowMinOwnershipThreshold);
        }
        Ok(())
    }

    /// Moves `amt` shares of a vault from one holder to another (see `move_spec`).
    fn move_shares(&mut self, vault: u64, from: u64, to: u64, amt: i128) -> (r: Result<(), FractionalError>)
        requires
            amt > 0,
            move_fits(old(self)@, vault, from, to, amt),
        ensures
            outcome(r, move_spec(old(self)@, vault, from, to, amt), old(self)@, final(self)@),
    {
        let ghost v = self@;
        let (active, acc) = match self.vaults.get(vault) {
            Some(vt) => (vt.active, vt.acc_rental_per_share),
            None => (false, 0),
        };
        let fb = Self::amount(&self.balances, vault, from);
        let tb = Self::amount(&self.balances, vault, to);
        if active {
            if fb.checked_mul(acc).is_none() {
                return Err(FractionalError::Overflow);
            }
            if tb.checked_mul(acc).is_none() {
                return Err(FractionalError::Overflow);
            }
        }
        if fb < amt {
            return Err(FractionalError::InsufficientBalance);
        }
        let new_from = fb - amt;
        let new_to = tb + amt;
        let post_from = if from == to { new_to } else { new_from };
        match self.check_min(vault, post_from) {
            Ok(()) => {},
            Err(e) => {
                return Err(e);
            },
        }
        match self.check_min(vault, new_to) {
            Ok(()) => {},
            Err(e) => {
                return Err(e);
            },
        }
        if active {
            if post_from.checked_mul(acc).is_none() {
                return Err(FractionalError::Overflow);
            }
            if new_to.checked_mul(acc).is_none() {
                return Err(FractionalError::Overflow);
            }
        }
        self.accrue(vault, from);
        self.accrue(vault, to);
        self.set_shares(vault, from, new_from);
        self.set_shares(vault, to, new_to);
        self.settle(vault, from);
        self.settle(vault, to);
        Ok(())
    }
}

} // verus!

verus! {

/// The vault, if it exists and is active.
pub open spec fn active_vault(v: FracView, id: u64) -> Result<Vault, FractionalError> {
    if !v.vaults.contains_key(id) {
        Err(FractionalError::VaultNotFound)
    } else if !v.vaults[id].active {
        Err(FractionalError::VaultInactive)
    } else {
        Ok(v.vaults[id])
    }
}

/// The state after the first `n` transfers of a distribution, each of which
/// must succeed.
pub open spec fn dist_upto(v: FracView, vault: u64, from: u64, rs: Seq<u64>, am: Seq<i128>, n: nat) -> Result<FracView, FractionalError>
    decreases n,
{
    if n == 0 {
        Ok(v)
    } else {
        match dist_upto(v, vault, from, rs, am, (n - 1) as nat) {
            Err(e) => Err(e),
            Ok(w) => transfer_spec(w, vault, from, rs[n - 1], am[n - 1]),
        }
    }
}

/// Distribution: an active vault, as many amounts as recipients, then each
/// transfer in turn.
pub open spec fn distribute_spec(v: FracView, vault: u64, from: u64, rs: Seq<u64>, am: Seq<i128>) -> Result<FracView, FractionalError> {
    match active_vault(v, vault) {
        Err(e) => Err(e),
        Ok(_) => if rs.len() != am.len() {
            Err(FractionalError::LengthMismatch)
        } else {
            dist_upto(v, vault, from, rs, am, rs.len())
        },
    }
}

/// No step of the distribution overflows.
pub open spec fn dist_fits(v: FracView, vault: u64, from: u64, rs: Seq<u64>, am: Seq<i128>) -> bool {
    forall|k: nat| k < rs.len() && k < am.len() ==> (#[trigger] dist_upto(v, vault, from, rs, am, k) matches Ok(w) ==> (am[k as int] > 0
        ==> move_fits(w, vault, from, rs[k as int], am[k as int])))
}

proof fn lemma_dist_err_sticks(v: FracView, vault: u64, from: u64, rs: Seq<u64>, am: Seq<i128>, k: nat, n: nat)
    requires
        k <= n,
        dist_upto(v, vault, from, rs, am, k) is Err,
    ensures
        dist_upto(v, vault, from, rs, am, n) == dist_upto(v, vault, from, rs, am, k),
    decreases n,
{
    if n > k {
        lemma_dist_err_sticks(v, vault, from, rs, am, k, (n - 1) as nat);
    }
}

/// A share movement changes only balances, claims and accounted income.
proof fn lemma_move_frame(v: FracView, vault: u64, from: u64, to: u64, amt: i128)
    ensures
        move_spec(v, vault, from, to, amt) matches Ok(w) ==> w == (FracView { balances: w.balances, claimable: w.claimable, reward_debt: w.reward_debt, ..v }),
{
}

/// Fractionalizing: positive shares, a minimum holding of at most 100%, and
/// the caller must own the NFT.
pub open spec fn fractionalize_error(owner: u64, total: i128, bps: u32, current_owner: u64) -> Option<FractionalError> {
    if total <= 0 {
        Some(FractionalError::InvalidTotalShares)
    } else if bps > 10_000 {
        Some(FractionalError::InvalidMinOwnershipBps)
    } else if current_owner != owner {
        Some(FractionalError::NotNftOwner)
    } else {
        None
    }
}

pub open spec fn allowance_of(v: FracView, vault: u64, owner: u64, spender: u64) -> i128 {
    amount_at(v.allowances, (vault, owner, spender))
}

impl FractionalNftContract {
    fn require_active_vault(&self, vault_id: u64) -> (r: Result<Vault, FractionalError>)
        ensures
            r == active_vault(self@, vault_id),
    {
        match self.vaults.get(vault_id) {
            Some(vt) => if vt.active { Ok(*vt) } else { Err(FractionalError::VaultInactive) },
            None => Err(FractionalError::VaultNotFound),
        }
    }

    /// Sends `amounts[i]` shares to `recipients[i]`, for each `i` in turn;
    /// if any transfer fails, nothing changes.
    pub fn distribute_shares(&mut self, vault_id: u64, from: u64, recipients: Vec<u64>, amounts: Vec<i128>) -> (r: Result<(), FractionalError>)
        requires
            dist_fits(old(self)@, vault_id, from, recipients@, amounts@),
        ensures
            outcome(r, distribute_spec(old(self)@, vault_id, from, recipients@, amounts@), old(self)@, final(self)@),
    {
        let ghost v0 = self@;
        match self.require_active_vault(vault_id) {
            Ok(_) => {},
            Err(e) => {
                return Err(e);
            },
        }
        if recipients.len() != amounts.len() {
            return Err(FractionalError::LengthMismatch);
        }
        let bsnap = self.balances.duplicate();
        let csnap = self.claimable.duplicate();
        let dsnap = self.reward_debt.duplicate();
        let mut i: usize = 0;
        while i < recipients.len()
            invariant
                i <= recipients@.len(),
                recipients@.len() == amounts@.len(),
                v0 == old(self)@,
                active_vault(v0, vault_id) is Ok,
                dist_upto(v0, vault_id, from, recipients@, amounts@, i as nat) == Ok::<FracView, FractionalError>(self@),
                dist_fits(v0, vault_id, from, recipients@, amounts@),
                bsnap@ == v0.balances,
                csnap@ == v0.claimable,
                dsnap@ == v0.reward_debt,
                self@ == (FracView { balances: self@.balances, claimable: self@.claimable, reward_debt: self@.reward_debt, ..v0 }),
            decreases recipients@.len() - i,
        {
            let to = recipients[i];
            let amt = amounts[i];
            proof {
                assert(dist_upto(v0, vault_id, from, recipients@, amounts@, (i + 1) as nat)
                    == transfer_spec(self@, vault_id, from, to, amt));
            }
            if amt <= 0 {
                self.balances = bsnap;
                self.claimable = csnap;
                self.reward_debt = dsnap;
                proof {
                    lemma_dist_err_sticks(v0, vault_id, from, recipients@, amounts@, (i + 1) as nat, recipients@.len());
                    assert(self@ == v0);
                }
                return Err(FractionalError::InvalidAmount);
            }
            proof {
                assert(dist_upto(v0, vault_id, from, recipients@, amounts@, i as nat) matches Ok(w) && w == self@);
                lemma_move_frame(self@, vault_id, from, to, amt);
            }
            match self.move_shares(vault_id, from, to, amt) {
                Ok(()) => {},
                Err(e) => {
                    self.balances = bsnap;
                    self.claimable = csnap;
                    self.reward_debt = dsnap;
                    proof {
                        lemma_dist_err_sticks(v0, vault_id, from, recipients@, amounts@, (i + 1) as nat, recipients@.len());
                        assert(self@ == v0);
                    }
                    return Err(e);
                },
            }
            i = i + 1;
        }
        Ok(())
    }

    /// Locks the NFT in a new vault of `total_shares` shares, all held by the
    /// owner. `current_owner` is the NFT's owner as its contract reports it;
    /// the returned move hands the NFT to this contract.
    pub fn fractionalize(
        &mut self,
        owner: u64,
        nft_contract: u64,
        nft_id: u32,
        total_shares: i128,
        min_ownership_bps: u32,
        rental_token: Option<u64>,
        current_owner: u64,
        contract: u64,
    ) -> (r: Result<(u64, NftMove), FractionalError>)
        requires
            old(self)@.vault_count < u64::MAX,
        ensures
            match fractionalize_error(owner, total_shares, min_ownership_bps, current_owner) {
                Some(e) => r == Err::<(u64, NftMove), FractionalError>(e) && final(self)@ == old(self)@,
                None => {
                    let id = (old(self)@.vault_count + 1) as u64;
                    let vt = Vault {
                        id,
                        nft_contract,
                        nft_id,
                        total_shares,
                        min_ownership_bps,
                        rental_token,
                        acc_rental_per_share: 0,
                        active: true,
                    };
                    &&& r == Ok::<(u64, NftMove), FractionalError>((id, NftMove { nft_contract, from: owner, to: contract, nft_id }))
                    &&& final(self)@ == (FracView {
                        vault_count: id,
                        vaults: old(self)@.vaults.insert(id, vt),
                        balances: old(self)@.balances.insert((id, owner), total_shares),
                        reward_debt: old(self)@.reward_debt.insert((id, owner), 0),
                        ..old(self)@
                    })
                },
            },
    {
        if total_shares <= 0 {
            return Err(FractionalError::InvalidTotalShares);
        }
        if min_ownership_bps > 10_000 {
            return Err(FractionalError::InvalidMinOwnershipBps);
        }
        if current_owner != owner {
            return Err(FractionalError::NotNftOwner);
        }
        let id = self.vault_count + 1;
        self.vault_count = id;
        let vt = Vault {
            id,
            nft_contract,
            nft_id,
            total_shares,
            min_ownership_bps,
            rental_token,
            acc_rental_per_share: 0,
            active: true,
        };
        self.vaults.insert(id, vt);
        self.balances.insert(id, owner, total_shares);
        self.reward_debt.insert(id, owner, 0);
        Ok((id, NftMove { nft_contract, from: owner, to: contract, nft_id }))
    }

    pub fn get_vault(&self, vault_id: u64) -> (r: Option<Vault>)
        ensures
            r == (if self@.vaults.contains_key(vault_id) { Some(self@.vaults[vault_id]) } else { None }),
    {
        match self.vaults.get(vault_id) {
            Some(v) => Some(*v),
            None => None,
        }
    }

    /// Shares held (0 when none).
    pub fn balance_of(&self, vault_id: u64, owner: u64) -> (r: i128)
        ensures
            r == shares_of(self@, vault_id, owner),
    {
        Self::amount(&self.balances, vault_id, owner)
    }

    /// Shares the spender may move for the owner (0 when none).
    pub fn allowance(&self, vault_id: u64, owner: u64, spender: u64) -> (r: i128)
        ensures
            r == allowance_of(self@, vault_id, owner, spender),
    {
        match self.allowances.get(vault_id) {
            Some(pm) => Self::amount(pm, owner, spender),
            None => 0,
        }
    }

    fn set_allowance(&mut self, vault_id: u64, owner: u64, spender: u64, amount: i128)
        ensures
            final(self)@ == (FracView { allowances: old(self)@.allowances.insert((vault_id, owner, spender), amount), ..old(self)@ }),
    {
        let ghost old_allow = self.allowances@;
        let mut pm = match self.allowances.remove(vault_id) {
            Some(p) => p,
            None => PairMap::new(),
        };
        pm.insert(owner, spender, amount);
        self.allowances.insert(vault_id, pm);
        assert(allowance_view(self.allowances@) =~= allowance_view(old_allow).insert((vault_id, owner, spender), amount));
    }

    /// Lets `spender` move up to `amount` of the owner's shares; a negative
    /// amount is refused.
    pub fn approve_shares(&mut self, vault_id: u64, owner: u64, spender: u64, amount: i128) -> (r: Result<(), FractionalError>)
        ensures
            amount < 0 ==> r == Err::<(), FractionalError>(FractionalError::InvalidAmount) && final(self)@ == old(self)@,
            amount >= 0 ==> r is Ok && final(self)@ == (FracView { allowances: old(self)@.allowances.insert((vault_id, owner, spender), amount), ..old(self)@ }),
    {
        if amount < 0 {
            return Err(FractionalError::InvalidAmount);
        }
        self.set_allowance(vault_id, owner, spender, amount);
        Ok(())
    }

    /// Moves shares to another holder (see `move_spec`).
    pub fn transfer_shares(&mut self, vault_id: u64, from: u64, to: u64, amount: i128) -> (r: Result<(), FractionalError>)
        requires
            amount > 0 ==> move_fits(old(self)@, vault_id, from, to, amount),
        ensures
            outcome(r, if amount <= 0 {
                Err(FractionalError::InvalidAmount)
            } else if from == to {
                Err(FractionalError::CannotTransferToSelf)
            } else {
                move_spec(old(self)@, vault_id, from, to, amount)
            }, old(self)@, final(self)@),
    {
        if amount <= 0 {
            return Err(FractionalError::InvalidAmount);
        }
        if from == to {
            return Err(FractionalError::CannotTransferToSelf);
        }
        self.move_shares(vault_id, from, to, amount)
    }

    /// Moves shares on the owner's behalf, using up allowance.
    pub fn transfer_shares_from(&mut self, vault_id: u64, spender: u64, from: u64, to: u64, amount: i128) -> (r: Result<(), FractionalError>)
        requires
            amount > 0 ==> move_fits(old(self)@, vault_id, from, to, amount),
        ensures
            outcome(r, if amount <= 0 {
                Err(FractionalError::InvalidAmount)
            } else if allowance_of(old(self)@, vault_id, from, spender) < amount {
                Err(FractionalError::InsufficientAllowance)
            } else {
                match move_spec(old(self)@, vault_id, from, to, amount) {
                    Err(e) => Err(e),
                    Ok(w) => Ok(FracView { allowances: w.allowances.insert((vault_id, from, spender),
                        (allowance_of(old(self)@, vault_id, from, spender) - amount) as i128), ..w }),
                }
            }, old(self)@, final(self)@),
    {
        if amount <= 0 {
            return Err(FractionalError::InvalidAmount);
        }
        let allow = self.allowance(vault_id, from, spender);
        if allow < amount {
            return Err(FractionalError::InsufficientAllowance);
        }
        match self.move_shares(vault_id, from, to, amount) {
            Ok(()) => {},
            Err(e) => {
                return Err(e);
            },
        }
        proof {
            lemma_move_frame(old(self)@, vault_id, from, to, amount);
        }
        self.set_allowance(vault_id, from, spender, allow - amount);
        Ok(())
    }
}

} // verus!

verus! {

/// What the result of an operation that also hands back a value says of
/// the state after it.
pub open spec fn outcome_with<R>(r: Result<R, FractionalError>, spec: Result<(FracView, R), FractionalError>, old: FracView, new: FracView) -> bool {
    match spec {
        Ok((w, x)) => r == Ok::<R, FractionalError>(x) && new == w,
        Err(e) => r == Err::<R, FractionalError>(e) && new == old,
    }
}

pub open spec fn create_listing_spec(v: FracView, seller: u64, vault: u64, shares: i128, payment_token: u64, price_per_share: i128,
    expiration: Option<u64>, now: u64, contract: u64) -> Result<(FracView, u64), FractionalError> {
    match active_vault(v, vault) {
        Err(e) => Err(e),
        Ok(_) => if shares <= 0 || price_per_share <= 0 {
            Err(FractionalError::InvalidParams)
        } else if expiration matches Some(t) && t <= now {
            Err(FractionalError::InvalidExpiration)
        } else {
            match move_spec(v, vault, seller, contract, shares) {
                Err(e) => Err(e),
                Ok(w) => {
                    let id = (v.listing_count + 1) as u64;
                    let l = Listing { id, vault_id: vault, seller, payment_token, shares, price_per_share, expiration, active: true };
                    Ok((FracView { listing_count: id, listings: w.listings.insert(id, l), ..w }, id))
                },
            }
        },
    }
}

/// Buying a listing: the buyer pays the seller `price_per_share * shares`
/// and receives the shares held for the listing.
pub open spec fn buy_listing_spec(v: FracView, buyer: u64, listing_id: u64, now: u64, contract: u64) -> Result<(FracView, TokenTransfer), FractionalError> {
    if !v.listings.contains_key(listing_id) {
        Err(FractionalError::ListingNotFound)
    } else {
        let l = v.listings[listing_id];
        if !l.active {
            Err(FractionalError::ListingInactive)
        } else if l.seller == buyer {
            Err(FractionalError::CannotBuyOwnListing)
        } else if l.expiration matches Some(t) && now > t {
            Err(FractionalError::ListingExpired)
        } else if !fits(l.price_per_share * l.shares) {
            Err(FractionalError::Overflow)
        } else {
            match transfer_spec(v, l.vault_id, contract, buyer, l.shares) {
                Err(e) => Err(e),
                Ok(w) => Ok((FracView { listings: w.listings.insert(listing_id, Listing { active: false, ..l }), ..w },
                    TokenTransfer { token: l.payment_token, from: buyer, to: l.seller, amount: (l.price_per_share * l.shares) as i128 })),
            }
        }
    }
}

/// Cancelling a listing hands its shares back to the seller.
pub open spec fn cancel_listing_spec(v: FracView, seller: u64, listing_id: u64, contract: u64) -> Result<FracView, FractionalError> {
    if !v.listings.contains_key(listing_id) {
        Err(FractionalError::ListingNotFound)
    } else {
        let l = v.listings[listing_id];
        if !l.active {
            Err(FractionalError::ListingInactive)
        } else if l.seller != seller {
            Err(FractionalError::NotSeller)
        } else {
            match transfer_spec(v, l.vault_id, contract, seller, l.shares) {
                Err(e) => Err(e),
                Ok(w) => Ok(FracView { listings: w.listings.insert(listing_id, Listing { active: false, ..l }), ..w }),
            }
        }
    }
}

/// A buyout offer escrows `price_total` with the contract until `end_time`.
pub open spec fn start_buyout_spec(v: FracView, buyer: u64, vault: u64, payment_token: u64, price_total: i128, end_time: u64,
    now: u64, contract: u64) -> Result<(FracView, TokenTransfer), FractionalError> {
    match active_vault(v, vault) {
        Err(e) => Err(e),
        Ok(_) => if price_total <= 0 {
            Err(FractionalError::InvalidPrice)
        } else if end_time <= now {
            Err(FractionalError::InvalidEndTime)
        } else if v.buyouts.contains_key(vault) && v.buyouts[vault].active {
            Err(FractionalError::BuyoutActive)
        } else {
            let b = Buyout { vault_id: vault, buyer, payment_token, price_total, escrow_remaining: price_total, end_time, active: true };
            Ok((FracView { buyouts: v.buyouts.insert(vault, b), ..v },
                TokenTransfer { token: payment_token, from: buyer, to: contract, amount: price_total }))
        },
    }
}

/// What a holder is paid for tendering `shares`: their part of the offer,
/// rounded toward zero.
pub open spec fn tender_payout(b: Buyout, vt: Vault, shares: i128) -> int {
    tdiv(b.price_total * shares, vt.total_shares as int)
}

/// Tendering shares into an open buyout: the shares go to the buyer and the
/// holder is paid their part of the offer from the escrow.
pub open spec fn tender_spec(v: FracView, holder: u64, vault: u64, shares: i128, now: u64, contract: u64) -> Result<(FracView, TokenTransfer), FractionalError> {
    if shares <= 0 {
        Err(FractionalError::InvalidAmount)
    } else {
        match active_vault(v, vault) {
            Err(e) => Err(e),
            Ok(vt) => if !v.buyouts.contains_key(vault) {
                Err(FractionalError::NoBuyout)
            } else {
                let b = v.buyouts[vault];
                if !b.active {
                    Err(FractionalError::BuyoutInactive)
                } else if now > b.end_time {
                    Err(FractionalError::BuyoutEnded)
                } else if holder == b.buyer {
                    Err(FractionalError::BuyerCannotTender)
                } else if !fits(b.price_total * shares) {
                    Err(FractionalError::Overflow)
                } else if tender_payout(b, vt, shares) > b.escrow_remaining {
                    Err(FractionalError::InsufficientBuyoutEscrow)
                } else {
                    let payout = tender_payout(b, vt, shares);
                    match move_spec(v, vault, holder, b.buyer, shares) {
                        Err(e) => Err(e),
                        Ok(w) => Ok((FracView { buyouts: w.buyouts.insert(vault, Buyout { escrow_remaining: (b.escrow_remaining - payout) as i128, ..b }), ..w },
                            TokenTransfer { token: b.payment_token, from: contract, to: holder, amount: payout as i128 })),
                    }
                }
            },
        }
    }
}

pub open spec fn tender_fits(v: FracView, holder: u64, vault: u64, shares: i128) -> bool {
    v.vaults.contains_key(vault) ==> {
        &&& v.vaults[vault].total_shares > 0
        &&& v.buyouts.contains_key(vault) ==> {
            &&& v.buyouts[vault].price_total >= 0
            &&& move_fits(v, vault, holder, v.buyouts[vault].buyer, shares)
        }
    }
}

/// After the buyout ends, the buyer takes back what is left in escrow and
/// the buyout closes.
pub open spec fn reclaim_spec(v: FracView, buyer: u64, vault: u64, now: u64, contract: u64) -> Result<(FracView, Option<TokenTransfer>), FractionalError> {
    if !v.buyouts.contains_key(vault) {
        Err(FractionalError::NoBuyout)
    } else {
        let b = v.buyouts[vault];
        if !b.active {
            Err(FractionalError::BuyoutInactive)
        } else if b.buyer != buyer {
            Err(FractionalError::NotBuyer)
        } else if now <= b.end_time {
            Err(FractionalError::BuyoutNotEnded)
        } else if b.escrow_remaining > 0 {
            Ok((FracView { buyouts: v.buyouts.insert(vault, Buyout { escrow_remaining: 0, active: false, ..b }), ..v },
                Some(TokenTransfer { token: b.payment_token, from: contract, to: buyer, amount: b.escrow_remaining })))
        } else {
            Ok((FracView { buyouts: v.buyouts.insert(vault, Buyout { active: false, ..b }), ..v }, None))
        }
    }
}

/// The holder of every share takes the NFT out; the vault closes.
pub open spec fn recombine_spec(v: FracView, owner: u64, vault: u64, to: u64, contract: u64) -> Result<(FracView, NftMove), FractionalError> {
    match active_vault(v, vault) {
        Err(e) => Err(e),
        Ok(vt) => if shares_of(v, vault, owner) != vt.total_shares {
            Err(FractionalError::NotFullOwner)
        } else if v.buyouts.contains_key(vault) && v.buyouts[vault].active {
            Err(FractionalError::BuyoutActive)
        } else {
            match accrue_spec(v, vault, owner) {
                Err(e) => Err(e),
                Ok(v1) => {
                    let v2 = FracView { balances: v1.balances.insert((vault, owner), 0), ..v1 };
                    match settle_spec(v2, vault, owner) {
                        Err(e) => Err(e),
                        Ok(v3) => Ok((FracView { vaults: v3.vaults.insert(vault, Vault { active: false, ..vt }), ..v3 },
                            NftMove { nft_contract: vt.nft_contract, from: contract, to, nft_id: vt.nft_id })),
                    }
                },
            }
        },
    }
}

/// Rental income paid in raises the income per share by
/// `amount * ACC_SCALE / total_shares`.
pub open spec fn deposit_spec(v: FracView, payer: u64, vault: u64, amount: i128, contract: u64) -> Result<(FracView, TokenTransfer), FractionalError> {
    match active_vault(v, vault) {
        Err(e) => Err(e),
        Ok(vt) => if amount <= 0 {
            Err(FractionalError::InvalidAmount)
        } else if vt.rental_token is None {
            Err(FractionalError::RentalTokenNotSet)
        } else if !fits(amount * ACC_SCALE) {
            Err(FractionalError::Overflow)
        } else {
            let acc = vt.acc_rental_per_share + tdiv(amount * ACC_SCALE, vt.total_shares as int);
            Ok((FracView { vaults: v.vaults.insert(vault, Vault { acc_rental_per_share: acc as i128, ..vt }), ..v },
                TokenTransfer { token: vt.rental_token->0, from: payer, to: contract, amount }))
        },
    }
}

pub open spec fn deposit_fits(v: FracView, vault: u64, amount: i128) -> bool {
    v.vaults.contains_key(vault) ==> {
        let vt = v.vaults[vault];
        &&& vt.total_shares > 0
        &&& fits(amount * ACC_SCALE) ==> fits(vt.acc_rental_per_share + tdiv(amount * ACC_SCALE, vt.total_shares as int))
    }
}

/// A holder claims all the rental income owed to them.
pub open spec fn claim_spec(v: FracView, claimer: u64, vault: u64, contract: u64) -> Result<(FracView, TokenTransfer), FractionalError> {
    match active_vault(v, vault) {
        Err(e) => Err(e),
        Ok(vt) => match accrue_spec(v, vault, claimer) {
            Err(e) => Err(e),
            Ok(v1) => {
                let amount = amount_at(v1.claimable, (vault, claimer));
                if amount <= 0 {
                    Err(FractionalError::NoClaimable)
                } else if vt.rental_token is None {
                    Err(FractionalError::RentalTokenNotSet)
                } else {
                    let v2 = FracView { claimable: v1.claimable.insert((vault, claimer), 0), ..v1 };
                    match settle_spec(v2, vault, claimer) {
                        Err(e) => Err(e),
                        Ok(v3) => Ok((v3, TokenTransfer { token: vt.rental_token->0, from: contract, to: claimer, amount })),
                    }
                }
            },
        },
    }
}

/// A holder proposes a new rental token; voting runs for `period` seconds from now.
pub open spec fn proposal_spec(v: FracView, proposer: u64, vault: u64, new_rental_token: u64, period: u64, now: u64) -> Result<(FracView, u64), FractionalError> {
    match active_vault(v, vault) {
        Err(e) => Err(e),
        Ok(_) => if period == 0 {
            Err(FractionalError::InvalidVotingPeriod)
        } else if shares_of(v, vault, proposer) <= 0 {
            Err(FractionalError::NoShares)
        } else {
            let id = (v.proposal_count + 1) as u64;
            let p = Proposal {
                id,
                vault_id: vault,
                proposer,
                kind: ProposalKind::SetRentalToken,
                new_rental_token,
                start_time: now,
                end_time: (now + period) as u64,
                for_votes: 0,
                against_votes: 0,
                executed: false,
            };
            Ok((FracView { proposal_count: id, proposals: v.proposals.insert(id, p), ..v }, id))
        },
    }
}

/// A holder votes once, weighted by the shares they hold now.
pub open spec fn vote_spec(v: FracView, voter: u64, proposal_id: u64, support: bool, now: u64) -> Result<FracView, FractionalError> {
    if !v.proposals.contains_key(proposal_id) {
        Err(FractionalError::ProposalNotFound)
    } else {
        let p = v.proposals[proposal_id];
        let w = shares_of(v, p.vault_id, voter);
        if now < p.start_time {
            Err(FractionalError::VotingNotStarted)
        } else if now > p.end_time {
            Err(FractionalError::VotingEnded)
        } else if v.voted.contains_key((proposal_id, voter)) {
            Err(FractionalError::AlreadyVoted)
        } else if w <= 0 {
            Err(FractionalError::NoShares)
        } else {
            let q = if support { Proposal { for_votes: (p.for_votes + w) as i128, ..p } } else { Proposal { against_votes: (p.against_votes + w) as i128, ..p } };
            Ok(FracView { proposals: v.proposals.insert(proposal_id, q), voted: v.voted.insert((proposal_id, voter), true), ..v })
        }
    }
}

pub open spec fn vote_fits(v: FracView, voter: u64, proposal_id: u64) -> bool {
    v.proposals.contains_key(proposal_id) ==> {
        let p = v.proposals[proposal_id];
        let w = shares_of(v, p.vault_id, voter);
        w > 0 ==> fits(p.for_votes + w) && fits(p.against_votes + w)
    }
}

/// After voting ends, a proposal with more votes for than against sets the
/// vault's rental token.
pub open spec fn execute_spec(v: FracView, proposal_id: u64, now: u64) -> Result<FracView, FractionalError> {
    if !v.proposals.contains_key(proposal_id) {
        Err(FractionalError::ProposalNotFound)
    } else {
        let p = v.proposals[proposal_id];
        if p.executed {
            Err(FractionalError::AlreadyExecuted)
        } else if now <= p.end_time {
            Err(FractionalError::VotingNotEnded)
        } else if p.for_votes <= p.against_votes {
            Err(FractionalError::ProposalDefeated)
        } else {
            match active_vault(v, p.vault_id) {
                Err(e) => Err(e),
                Ok(vt) => Ok(FracView {
                    vaults: v.vaults.insert(vt.id, Vault { rental_token: Some(p.new_rental_token), ..vt }),
                    proposals: v.proposals.insert(proposal_id, Proposal { executed: true, ..p }),
                    ..v
                }),
            }
        }
    }
}

} // verus!

verus! {

impl FractionalNftContract {
    fn try_accrue(&mut self, vault: u64, who: u64) -> (r: Result<(), FractionalError>)
        requires
            accrue_fits(old(self)@, vault, who),
        ensures
            outcome(r, accrue_spec(old(self)@, vault, who), old(self)@, final(self)@),
    {
        match self.vaults.get(vault) {
            Some(vt) => {
                if vt.active {
                    let b = Self::amount(&self.balances, vault, who);
                    if b.checked_mul(vt.acc_rental_per_share).is_none() {
                        return Err(FractionalError::Overflow);
                    }
                }
            },
            None => {},
        }
        self.accrue(vault, who);
        Ok(())
    }

    fn try_settle(&mut self, vault: u64, who: u64) -> (r: Result<(), FractionalError>)
        ensures
            outcome(r, settle_spec(old(self)@, vault, who), old(self)@, final(self)@),
    {
        match self.vaults.get(vault) {
            Some(vt) => {
                if vt.active {
                    let b = Self::amount(&self.balances, vault, who);
                    if b.checked_mul(vt.acc_rental_per_share).is_none() {
                        return Err(FractionalError::Overflow);
                    }
                }
            },
            None => {},
        }
        self.settle(vault, who);
        Ok(())
    }

    /// Lists `shares` for sale at `price_per_share`; the shares are held by
    /// the contract (address `contract`) until sold or cancelled.
    pub fn create_listing(
        &mut self,
        seller: u64,
        vault_id: u64,
        shares: i128,
        payment_token: u64,
        price_per_share: i128,
        expiration: Option<u64>,
        now: u64,
        contract: u64,
    ) -> (r: Result<u64, FractionalError>)
        requires
            old(self)@.listing_count < u64::MAX,
            shares > 0 ==> move_fits(old(self)@, vault_id, seller, contract, shares),
        ensures
            outcome_with(r, create_listing_spec(old(self)@, seller, vault_id, shares, payment_token, price_per_share, expiration, now, contract),
                old(self)@, final(self)@),
    {
        match self.require_active_vault(vault_id) {
            Ok(_) => {},
            Err(e) => {
                return Err(e);
            },
        }
        if shares <= 0 || price_per_share <= 0 {
            return Err(FractionalError::InvalidParams);
        }
        match expiration {
            Some(t) => {
                if t <= now {
                    return Err(FractionalError::InvalidExpiration);
                }
            },
            None => {},
        }
        match self.move_shares(vault_id, seller, contract, shares) {
            Ok(()) => {},
            Err(e) => {
                return Err(e);
            },
        }
        proof {
            lemma_move_frame(old(self)@, vault_id, seller, contract, shares);
        }
        let id = self.listing_count + 1;
        self.listing_count = id;
        let l = Listing { id, vault_id, seller, payment_token, shares, price_per_share, expiration, active: true };
        self.listings.insert(id, l);
        Ok(id)
    }

    /// Buys a listing; the returned transfer pays the seller.
    pub fn buy_listing(&mut self, buyer: u64, listing_id: u64, now: u64, contract: u64) -> (r: Result<TokenTransfer, FractionalError>)
        requires
            old(self)@.listings.contains_key(listing_id) ==> move_fits(old(self)@, old(self)@.listings[listing_id].vault_id, contract,
                buyer, old(self)@.listings[listing_id].shares),
        ensures
            outcome_with(r, buy_listing_spec(old(self)@, buyer, listing_id, now, contract), old(self)@, final(self)@),
    {
        let l = match self.listings.get(listing_id) {
            Some(l) => *l,
            None => {
                return Err(FractionalError::ListingNotFound);
            },
        };
        if !l.active {
            return Err(FractionalError::ListingInactive);
        }
        if l.seller == buyer {
            return Err(FractionalError::CannotBuyOwnListing);
        }
        match l.expiration {
            Some(t) => {
                if now > t {
                    return Err(FractionalError::ListingExpired);
                }
            },
            None => {},
        }
        let total = match l.price_per_share.checked_mul(l.shares) {
            Some(t) => t,
            None => {
                return Err(FractionalError::Overflow);
            },
        };
        if l.shares <= 0 {
            return Err(FractionalError::InvalidAmount);
        }
        match self.move_shares(l.vault_id, contract, buyer, l.shares) {
            Ok(()) => {},
            Err(e) => {
                return Err(e);
            },
        }
        proof {
            lemma_move_frame(old(self)@, l.vault_id, contract, buyer, l.shares);
        }
        self.listings.insert(listing_id, Listing { active: false, ..l });
        Ok(TokenTransfer { token: l.payment_token, from: buyer, to: l.seller, amount: total })
    }

    /// Withdraws an unsold listing; its shares go back to the seller.
    pub fn cancel_listing(&mut self, seller: u64, listing_id: u64, contract: u64) -> (r: Result<(), FractionalError>)
        requires
            old(self)@.listings.contains_key(listing_id) ==> move_fits(old(self)@, old(self)@.listings[listing_id].vault_id, contract,
                seller, old(self)@.listings[listing_id].shares),
        ensures
            outcome(r, cancel_listing_spec(old(self)@, seller, listing_id, contract), old(self)@, final(self)@),
    {
        let l = match self.listings.get(listing_id) {
            Some(l) => *l,
            None => {
                return Err(FractionalError::ListingNotFound);
            },
        };
        if !l.active {
            return Err(FractionalError::ListingInactive);
        }
        if l.seller != seller {
            return Err(FractionalError::NotSeller);
        }
        if l.shares <= 0 {
            return Err(FractionalError::InvalidAmount);
        }
        match self.move_shares(l.vault_id, contract, seller, l.shares) {
            Ok(()) => {},
            Err(e) => {
                return Err(e);
            },
        }
        proof {
            lemma_move_frame(old(self)@, l.vault_id, contract, seller, l.shares);
        }
        self.listings.insert(listing_id, Listing { active: false, ..l });
        Ok(())
    }

    /// Opens a buyout offer; the returned transfer escrows the price.
    pub fn start_buyout(
        &mut self,
        buyer: u64,
        vault_id: u64,
        payment_token: u64,
        price_total: i128,
        end_time: u64,
        now: u64,
        contract: u64,
    ) -> (r: Result<TokenTransfer, FractionalError>)
        ensures
            outcome_with(r, start_buyout_spec(old(self)@, buyer, vault_id, payment_token, price_total, end_time, now, contract),
                old(self)@, final(self)@),
    {
        match self.require_active_vault(vault_id) {
            Ok(_) => {},
            Err(e) => {
                return Err(e);
            },
        }
        if price_total <= 0 {
            return Err(FractionalError::InvalidPrice);
        }
        if end_time <= now {
            return Err(FractionalError::InvalidEndTime);
        }
        match self.buyouts.get(vault_id) {
            Some(b) => {
                if b.active {
                    return Err(FractionalError::BuyoutActive);
                }
            },
            None => {},
        }
        let b = Buyout { vault_id, buyer, payment_token, price_total, escrow_remaining: price_total, end_time, active: true };
        self.buyouts.insert(vault_id, b);
        Ok(TokenTransfer { token: payment_token, from: buyer, to: contract, amount: price_total })
    }

    pub fn get_buyout(&self, vault_id: u64) -> (r: Option<Buyout>)
        ensures
            r == (if self@.buyouts.contains_key(vault_id) { Some(self@.buyouts[vault_id]) } else { None }),
    {
        match self.buyouts.get(vault_id) {
            Some(b) => Some(*b),
            None => None,
        }
    }

    /// Sells shares into the open buyout; the returned transfer pays the holder.
    pub fn tender_shares(&mut self, holder: u64, vault_id: u64, shares: i128, now: u64, contract: u64) -> (r: Result<TokenTransfer, FractionalError>)
        requires
            tender_fits(old(self)@, holder, vault_id, shares),
        ensures
            outcome_with(r, tender_spec(old(self)@, holder, vault_id, shares, now, contract), old(self)@, final(self)@),
    {
        if shares <= 0 {
            return Err(FractionalError::InvalidAmount);
        }
        let vt = match self.require_active_vault(vault_id) {
            Ok(vt) => vt,
            Err(e) => {
                return Err(e);
            },
        };
        let b = match self.buyouts.get(vault_id) {
            Some(b) => *b,
            None => {
                return Err(FractionalError::NoBuyout);
            },
        };
        if !b.active {
            return Err(FractionalError::BuyoutInactive);
        }
        if now > b.end_time {
            return Err(FractionalError::BuyoutEnded);
        }
        if holder == b.buyer {
            return Err(FractionalError::BuyerCannotTender);
        }
        let prod = match b.price_total.checked_mul(shares) {
            Some(p) => p,
            None => {
                return Err(FractionalError::Overflow);
            },
        };
        let payout = prod / vt.total_shares;
        if payout > b.escrow_remaining {
            return Err(FractionalError::InsufficientBuyoutEscrow);
        }
        match self.move_shares(vault_id, holder, b.buyer, shares) {
            Ok(()) => {},
            Err(e) => {
                return Err(e);
            },
        }
        proof {
            lemma_move_frame(old(self)@, vault_id, holder, b.buyer, shares);
        }
        self.buyouts.insert(vault_id, Buyout { escrow_remaining: b.escrow_remaining - payout, ..b });
        Ok(TokenTransfer { token: b.payment_token, from: contract, to: holder, amount: payout })
    }

    /// Closes an ended buyout; the returned transfer, if any, refunds the
    /// escrow left to the buyer.
    pub fn reclaim_buyout_escrow(&mut self, buyer: u64, vault_id: u64, now: u64, contract: u64) -> (r: Result<Option<TokenTransfer>, FractionalError>)
        ensures
            outcome_with(r, reclaim_spec(old(self)@, buyer, vault_id, now, contract), old(self)@, final(self)@),
    {
        let b = match self.buyouts.get(vault_id) {
            Some(b) => *b,
            None => {
                return Err(FractionalError::NoBuyout);
            },
        };
        if !b.active {
            return Err(FractionalError::BuyoutInactive);
        }
        if b.buyer != buyer {
            return Err(FractionalError::NotBuyer);
        }
        if now <= b.end_time {
            return Err(FractionalError::BuyoutNotEnded);
        }
        if b.escrow_remaining > 0 {
            self.buyouts.insert(vault_id, Buyout { escrow_remaining: 0, active: false, ..b });
            Ok(Some(TokenTransfer { token: b.payment_token, from: contract, to: buyer, amount: b.escrow_remaining }))
        } else {
            self.buyouts.insert(vault_id, Buyout { active: false, ..b });
            Ok(None)
        }
    }

    /// The holder of every share takes the NFT out to `to` and the vault
    /// closes; the returned move releases the NFT.
    pub fn recombine(&mut self, owner: u64, vault_id: u64, to: u64, contract: u64) -> (r: Result<NftMove, FractionalError>)
        requires
            accrue_fits(old(self)@, vault_id, owner),
        ensures
            outcome_with(r, recombine_spec(old(self)@, owner, vault_id, to, contract), old(self)@, final(self)@),
    {
        let vt = match self.require_active_vault(vault_id) {
            Ok(vt) => vt,
            Err(e) => {
                return Err(e);
            },
        };
        let bal = Self::amount(&self.balances, vault_id, owner);
        if bal != vt.total_shares {
            return Err(FractionalError::NotFullOwner);
        }
        match self.buyouts.get(vault_id) {
            Some(b) => {
                if b.active {
                    return Err(FractionalError::BuyoutActive);
                }
            },
            None => {},
        }
        match self.try_accrue(vault_id, owner) {
            Ok(()) => {},
            Err(e) => {
                return Err(e);
            },
        }
        let ghost v1 = self@;
        self.set_shares(vault_id, owner, 0);
        match self.try_settle(vault_id, owner) {
            Ok(()) => {},
            Err(e) => {
                assert(settle_spec(v1, vault_id, owner) is Ok);
                return Err(e);
            },
        }
        self.vaults.insert(vault_id, Vault { active: false, ..vt });
        Ok(NftMove { nft_contract: vt.nft_contract, from: contract, to, nft_id: vt.nft_id })
    }

    /// Pays rental income into the vault; the returned transfer collects it.
    pub fn deposit_rental_income(&mut self, payer: u64, vault_id: u64, amount: i128, contract: u64) -> (r: Result<TokenTransfer, FractionalError>)
        requires
            deposit_fits(old(self)@, vault_id, amount),
        ensures
            outcome_with(r, deposit_spec(old(self)@, payer, vault_id, amount, contract), old(self)@, final(self)@),
    {
        let vt = match self.require_active_vault(vault_id) {
            Ok(vt) => vt,
            Err(e) => {
                return Err(e);
            },
        };
        if amount <= 0 {
            return Err(FractionalError::InvalidAmount);
        }
        let token = match vt.rental_token {
            Some(t) => t,
            None => {
                return Err(FractionalError::RentalTokenNotSet);
            },
        };
        let prod = match amount.checked_mul(ACC_SCALE) {
            Some(p) => p,
            None => {
                return Err(FractionalError::Overflow);
            },
        };
        let acc = vt.acc_rental_per_share + prod / vt.total_shares;
        self.vaults.insert(vault_id, Vault { acc_rental_per_share: acc, ..vt });
        Ok(TokenTransfer { token, from: payer, to: contract, amount })
    }

    /// Pays out the rental income owed to the claimer.
    pub fn claim_rental_profit(&mut self, claimer: u64, vault_id: u64, contract: u64) -> (r: Result<TokenTransfer, FractionalError>)
        requires
            accrue_fits(old(self)@, vault_id, claimer),
        ensures
            outcome_with(r, claim_spec(old(self)@, claimer, vault_id, contract), old(self)@, final(self)@),
    {
        let vt = match self.require_active_vault(vault_id) {
            Ok(vt) => vt,
            Err(e) => {
                return Err(e);
            },
        };
        let snapshot = self.claimable.duplicate();
        match self.try_accrue(vault_id, claimer) {
            Ok(()) => {},
            Err(e) => {
                return Err(e);
            },
        }
        let amount = Self::amount(&self.claimable, vault_id, claimer);
        if amount <= 0 {
            self.claimable = snapshot;
            return Err(FractionalError::NoClaimable);
        }
        let token = match vt.rental_token {
            Some(t) => t,
            None => {
                self.claimable = snapshot;
                return Err(FractionalError::RentalTokenNotSet);
            },
        };
        self.claimable.insert(vault_id, claimer, 0);
        match self.try_settle(vault_id, claimer) {
            Ok(()) => {},
            Err(e) => {
                self.claimable = snapshot;
                return Err(e);
            },
        }
        Ok(TokenTransfer { token, from: contract, to: claimer, amount })
    }

    /// Proposes a new rental token for the vault.
    pub fn create_proposal_set_rental_token(
        &mut self,
        proposer: u64,
        vault_id: u64,
        new_rental_token: u64,
        voting_period_secs: u64,
        now: u64,
    ) -> (r: Result<u64, FractionalError>)
        requires
            old(self)@.proposal_count < u64::MAX,
            now + voting_period_secs <= u64::MAX,
        ensures
            outcome_with(r, proposal_spec(old(self)@, proposer, vault_id, new_rental_token, voting_period_secs, now), old(self)@, final(self)@),
    {
        match self.require_active_vault(vault_id) {
            Ok(_) => {},
            Err(e) => {
                return Err(e);
            },
        }
        if voting_period_secs == 0 {
            return Err(FractionalError::InvalidVotingPeriod);
        }
        if Self::amount(&self.balances, vault_id, proposer) <= 0 {
            return Err(FractionalError::NoShares);
        }
        let id = self.proposal_count + 1;
        self.proposal_count = id;
        let p = Proposal {
            id,
            vault_id,
            proposer,
            kind: ProposalKind::SetRentalToken,
            new_rental_token,
            start_time: now,
            end_time: now + voting_period_secs,
            for_votes: 0,
            against_votes: 0,
            executed: false,
        };
        self.proposals.insert(id, p);
        Ok(id)
    }

    /// Casts the voter's shares for or against the proposal.
    pub fn vote(&mut self, voter: u64, proposal_id: u64, support: bool, now: u64) -> (r: Result<(), FractionalError>)
        requires
            vote_fits(old(self)@, voter, proposal_id),
        ensures
            outcome(r, vote_spec(old(self)@, voter, proposal_id, support, now), old(self)@, final(self)@),
    {
        let p = match self.proposals.get(proposal_id) {
            Some(p) => *p,
            None => {
                return Err(FractionalError::ProposalNotFound);
            },
        };
        if now < p.start_time {
            return Err(FractionalError::VotingNotStarted);
        }
        if now > p.end_time {
            return Err(FractionalError::VotingEnded);
        }
        if self.voted.contains_key(proposal_id, voter) {
            return Err(FractionalError::AlreadyVoted);
        }
        let w = Self::amount(&self.balances, p.vault_id, voter);
        if w <= 0 {
            return Err(FractionalError::NoShares);
        }
        let q = if support {
            Proposal { for_votes: p.for_votes + w, ..p }
        } else {
            Proposal { against_votes: p.against_votes + w, ..p }
        };
        self.proposals.insert(proposal_id, q);
        self.voted.insert(proposal_id, voter, true);
        Ok(())
    }

    /// Carries out a proposal that won its vote.
    pub fn execute_proposal(&mut self, proposal_id: u64, now: u64) -> (r: Result<(), FractionalError>)
        ensures
            outcome(r, execute_spec(old(self)@, proposal_id, now), old(self)@, final(self)@),
    {
        let p = match self.proposals.get(proposal_id) {
            Some(p) => *p,
            None => {
                return Err(FractionalError::ProposalNotFound);
            },
        };
        if p.executed {
            return Err(FractionalError::AlreadyExecuted);
        }
        if now <= p.end_time {
            return Err(FractionalError::VotingNotEnded);
        }
        if p.for_votes <= p.against_votes {
            return Err(FractionalError::ProposalDefeated);
        }
        let vt = match self.require_active_vault(p.vault_id) {
            Ok(vt) => vt,
            Err(e) => {
                return Err(e);
            },
        };
        self.vaults.insert(vt.id, Vault { rental_token: Some(p.new_rental_token), ..vt });
        self.proposals.insert(proposal_id, Proposal { executed: true, ..p });
        Ok(())
    }
}

} // verus!

verus! {

/// Moving shares between two different holders keeps the sum of their
/// balances and leaves every other holder's balance as it was.
pub proof fn law_move_conserves_shares(v: FracView, vault: u64, from: u64, to: u64, amt: i128)
    requires
        from != to,
        amt > 0,
        fits(shares_of(v, vault, to) + amt),
    ensures
        move_spec(v, vault, from, to, amt) matches Ok(w) ==> {
            &&& shares_of(w, vault, from) + shares_of(w, vault, to) == shares_of(v, vault, from) + shares_of(v, vault, to)
            &&& shares_of(w, vault, from) == shares_of(v, vault, from) - amt
            &&& forall|k: (u64, u64)| k != (vault, from) && k != (vault, to) ==> #[trigger] amount_at(w.balances, k) == amount_at(v.balances, k)
        },
{
    if let Ok(v1) = accrue_spec(v, vault, from) {
        assert(v1.balances == v.balances);
        if let Ok(v2) = accrue_spec(v1, vault, to) {
            assert(v2.balances == v.balances);
            if shares_of(v2, vault, from) >= amt {
                let v3 = moved(v2, vault, from, to, amt);
                if let Ok(v4) = settle_spec(v3, vault, from) {
                    assert(v4.balances == v3.balances);
                    if let Ok(v5) = settle_spec(v4, vault, to) {
                        assert(v5.balances == v3.balances);
                    }
                }
            }
        }
    }
}

#[derive(Clone, Copy, Debug, PartialEq, Eq, Structural)]
pub enum MockNftError {
    TokenNotFound,
    NotOwner,
}

/// A minimal NFT registry: who owns each token.
pub struct MockNFT {
    pub owners: AssocMap<u64>,
}

impl MockNFT {
    pub fn new() -> (m: Self)
        ensures
            m.owners@ == Map::<u64, u64>::empty(),
    {
        MockNFT { owners: AssocMap::new() }
    }

    pub fn owner_of(&self, token_id: u32) -> (r: Result<u64, MockNftError>)
        ensures
            r == (if self.owners@.contains_key(token_id as u64) {
                Ok::<u64, MockNftError>(self.owners@[token_id as u64])
            } else {
                Err(MockNftError::TokenNotFound)
            }),
    {
        match self.owners.get(token_id as u64) {
            Some(o) => Ok(*o),
            None => Err(MockNftError::TokenNotFound),
        }
    }

    /// Moves the token from its owner `from` to `to`.
    pub fn transfer(&mut self, from: u64, to: u64, token_id: u32) -> (r: Result<(), MockNftError>)
        ensures
            !old(self).owners@.contains_key(token_id as u64) ==> r == Err::<(), MockNftError>(MockNftError::TokenNotFound)
                && final(self).owners@ == old(self).owners@,
            old(self).owners@.contains_key(token_id as u64) && old(self).owners@[token_id as u64] != from
                ==> r == Err::<(), MockNftError>(MockNftError::NotOwner) && final(self).owners@ == old(self).owners@,
            old(self).owners@.contains_key(token_id as u64) && old(self).owners@[token_id as u64] == from
                ==> r is Ok && final(self).owners@ == old(self).owners@.insert(token_id as u64, to),
    {
        let current = match self.owners.get(token_id as u64) {
            Some(o) => *o,
            None => {
                return Err(MockNftError::TokenNotFound);
            },
        };
        if current != from {
            return Err(MockNftError::NotOwner);
        }
        self.owners.insert(token_id as u64, to);
        Ok(())
    }

    pub fn set_owner(&mut self, token_id: u32, owner: u64)
        ensures
            final(self).owners@ == old(self).owners@.insert(token_id as u64, owner),
    {
        self.owners.insert(token_id as u64, owner);
    }
}

} // verus!
