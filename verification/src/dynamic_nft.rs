//! Dynamic NFTs that change over time: admins and verifiers raise or lower
//! a token's level and rarity, anyone can evolve a token once enough time
//! has passed, and an owner can fuse two tokens into a stronger one. Each
//! change is recorded in the token's history.
use vstd::prelude::*;
use crate::assoc::AssocMap;
use crate::seqs::copy_vec;

verus! {

/// A change recorded in a token's history.
#[derive(Clone, Copy, Debug, PartialEq, Eq, Structural)]
pub enum HistoryEntry {
    EvolvedMilestone,
    TimeEvolved,
    Downgraded,
    Fused,
}

pub open spec fn label_of(e: HistoryEntry) -> Seq<char> {
    match e {
        HistoryEntry::EvolvedMilestone => "evolved_milestone"@,
        HistoryEntry::TimeEvolved => "time_evolved"@,
        HistoryEntry::Downgraded => "downgraded"@,
        HistoryEntry::Fused => "fused"@,
    }
}

impl HistoryEntry {
    /// The entry's name as it appears in the history.
    pub fn label(&self) -> (s: String)
        ensures
            s@ == label_of(*self),
    {
        match self {
            HistoryEntry::EvolvedMilestone => String::from_str("evolved_milestone"),
            HistoryEntry::TimeEvolved => String::from_str("time_evolved"),
            HistoryEntry::Downgraded => String::from_str("downgraded"),
            HistoryEntry::Fused => String::from_str("fused"),
        }
    }
}

#[derive(Debug)]
pub struct DynamicNft {
    pub owner: u64,
    pub level: u32,
    pub rarity: u32,
    pub traits: String,
    pub metadata: String,
    pub history: Vec<HistoryEntry>,
    /// When the token was minted, or last evolved by time.
    pub minted_at: u64,
}

pub struct NftView {
    pub owner: u64,
    pub level: u32,
    pub rarity: u32,
    pub traits: Seq<char>,
    pub metadata: Seq<char>,
    pub history: Seq<HistoryEntry>,
    pub minted_at: u64,
}

impl View for DynamicNft {
    type V = NftView;

    open spec fn view(&self) -> NftView {
        NftView {
            owner: self.owner,
            level: self.level,
            rarity: self.rarity,
            traits: self.traits@,
            metadata: self.metadata@,
            history: self.history@,
            minted_at: self.minted_at,
        }
    }
}

#[derive(Clone, Copy, Debug, PartialEq, Eq, Structural)]
pub struct MintEvent {
    pub owner: u64,
    pub token_id: u32,
}

#[derive(Clone, Copy, Debug, PartialEq, Eq, Structural)]
pub struct EvolveMilestoneEvent {
    pub token_id: u32,
}

#[derive(Clone, Copy, Debug, PartialEq, Eq, Structural)]
pub struct EvolveTimeEvent {
    pub token_id: u32,
}

#[derive(Clone, Copy, Debug, PartialEq, Eq, Structural)]
pub struct DowngradeEvent {
    pub token_id: u32,
}

#[derive(Clone, Copy, Debug, PartialEq, Eq, Structural)]
pub struct FuseEvent {
    pub owner: u64,
    pub token_id: u32,
}

#[derive(Clone, Copy, Debug, PartialEq, Eq, Structural)]
pub enum DynamicNftError {
    Unauthorized,
    TokenNotFound,
    NotReadyForTimeEvolution,
    OwnersMustMatch,
    OnlyOwnerCanFuse,
}

pub struct DynamicNftContract {
    pub admins: AssocMap<bool>,
    pub verifiers: AssocMap<bool>,
    pub next_nft_id: u32,
    pub nfts: AssocMap<DynamicNft>,
}

pub struct DynamicState {
    pub admins: Map<u64, bool>,
    pub verifiers: Map<u64, bool>,
    pub next_nft_id: u32,
    pub nfts: Map<u64, NftView>,
}

impl View for DynamicNftContract {
    type V = DynamicState;

    open spec fn view(&self) -> DynamicState {
        DynamicState {
            admins: self.admins@,
            verifiers: self.verifiers@,
            next_nft_id: self.next_nft_id,
            nfts: self.nfts@.map_values(|n: DynamicNft| n@),
        }
    }
}

pub open spec fn flag(m: Map<u64, bool>, k: u64) -> bool {
    m.contains_key(k) && m[k]
}

pub open spec fn may_adjust(v: DynamicState, who: u64) -> bool {
    flag(v.admins, who) || flag(v.verifiers, who)
}

pub open spec fn sat_add(a: u32, b: u32) -> u32 {
    if a + b > u32::MAX { u32::MAX } else { (a + b) as u32 }
}

pub open spec fn sat_sub(a: u32, b: u32) -> u32 {
    if a < b { 0 } else { (a - b) as u32 }
}

pub open spec fn outcome_of<S, R, E>(r: Result<R, E>, spec: Result<(S, R), E>, old: S, new: S) -> bool {
    match spec {
        Ok((w, x)) => r == Ok::<R, E>(x) && new == w,
        Err(e) => r == Err::<R, E>(e) && new == old,
    }
}

/// An admin or verifier raises the level and rarity (saturating) and may
/// replace the traits.
pub open spec fn evolve_milestone_spec(v: DynamicState, submitter: u64, id: u32, level_inc: u32, rarity_inc: u32, new_traits: Option<Seq<char>>)
    -> Result<(DynamicState, EvolveMilestoneEvent), DynamicNftError> {
    if !may_adjust(v, submitter) {
        Err(DynamicNftError::Unauthorized)
    } else if !v.nfts.contains_key(id as u64) {
        Err(DynamicNftError::TokenNotFound)
    } else {
        let n = v.nfts[id as u64];
        let nn = NftView {
            level: sat_add(n.level, level_inc),
            rarity: sat_add(n.rarity, rarity_inc),
            traits: match new_traits { Some(t) => t, None => n.traits },
            history: n.history.push(HistoryEntry::EvolvedMilestone),
            ..n
        };
        Ok((DynamicState { nfts: v.nfts.insert(id as u64, nn), ..v }, EvolveMilestoneEvent { token_id: id }))
    }
}

/// Once `required_secs` have passed since the token's clock started, its
/// level rises by one and the clock restarts.
pub open spec fn evolve_time_spec(v: DynamicState, id: u32, required_secs: u64, now: u64) -> Result<(DynamicState, EvolveTimeEvent), DynamicNftError> {
    if !v.nfts.contains_key(id as u64) {
        Err(DynamicNftError::TokenNotFound)
    } else {
        let n = v.nfts[id as u64];
        if now < n.minted_at + required_secs {
            Err(DynamicNftError::NotReadyForTimeEvolution)
        } else {
            let nn = NftView { level: sat_add(n.level, 1), history: n.history.push(HistoryEntry::TimeEvolved), minted_at: now, ..n };
            Ok((DynamicState { nfts: v.nfts.insert(id as u64, nn), ..v }, EvolveTimeEvent { token_id: id }))
        }
    }
}

/// An admin or verifier lowers the level (not below zero).
pub open spec fn downgrade_spec(v: DynamicState, submitter: u64, id: u32, level_dec: u32) -> Result<(DynamicState, DowngradeEvent), DynamicNftError> {
    if !may_adjust(v, submitter) {
        Err(DynamicNftError::Unauthorized)
    } else if !v.nfts.contains_key(id as u64) {
        Err(DynamicNftError::TokenNotFound)
    } else {
        let n = v.nfts[id as u64];
        let nn = NftView { level: sat_sub(n.level, level_dec), history: n.history.push(HistoryEntry::Downgraded), ..n };
        Ok((DynamicState { nfts: v.nfts.insert(id as u64, nn), ..v }, DowngradeEvent { token_id: id }))
    }
}

/// The owner of two tokens fuses them: both are removed and a new token
/// gets their summed level (saturating), the higher rarity plus one, and
/// the first token's traits and metadata.
pub open spec fn fuse_spec(v: DynamicState, submitter: u64, a: u32, b: u32, now: u64) -> Result<(DynamicState, (u32, FuseEvent)), DynamicNftError> {
    if !v.nfts.contains_key(a as u64) || !v.nfts.contains_key(b as u64) {
        Err(DynamicNftError::TokenNotFound)
    } else {
        let na = v.nfts[a as u64];
        let nb = v.nfts[b as u64];
        if na.owner != nb.owner {
            Err(DynamicNftError::OwnersMustMatch)
        } else if submitter != na.owner {
            Err(DynamicNftError::OnlyOwnerCanFuse)
        } else {
            let id = v.next_nft_id;
            let nn = NftView {
                owner: na.owner,
                level: sat_add(na.level, nb.level),
                rarity: ((if na.rarity > nb.rarity { na.rarity } else { nb.rarity }) + 1) as u32,
                traits: na.traits,
                metadata: na.metadata,
                history: seq![HistoryEntry::Fused],
                minted_at: now,
            };
            Ok((DynamicState {
                nfts: v.nfts.remove(a as u64).remove(b as u64).insert(id as u64, nn),
                next_nft_id: (id + 1) as u32,
                ..v
            }, (id, FuseEvent { owner: na.owner, token_id: id })))
        }
    }
}

pub open spec fn fuse_fits(v: DynamicState, a: u32, b: u32) -> bool {
    &&& v.next_nft_id < u32::MAX
    &&& v.nfts.contains_key(a as u64) && v.nfts.contains_key(b as u64) ==> v.nfts[a as u64].rarity < u32::MAX && v.nfts[b as u64].rarity < u32::MAX
}

fn copy_nft(n: &DynamicNft) -> (r: DynamicNft)
    ensures
        r@ == n@,
{
    DynamicNft {
        owner: n.owner,
        level: n.level,
        rarity: n.rarity,
        traits: n.traits.clone(),
        metadata: n.metadata.clone(),
        history: copy_vec(&n.history),
        minted_at: n.minted_at,
    }
}

impl DynamicNftContract {
    pub fn initialize(admin: u64) -> (c: Self)
        ensures
            c@.admins == Map::<u64, bool>::empty().insert(admin, true),
            c@.verifiers == Map::<u64, bool>::empty(),
            c@.next_nft_id == 1,
            c@.nfts == Map::<u64, NftView>::empty(),
    {
        let mut admins = AssocMap::new();
        admins.insert(admin, true);
        let c = DynamicNftContract { admins, verifiers: AssocMap::new(), next_nft_id: 1, nfts: AssocMap::new() };
        assert(c@.nfts =~= Map::<u64, NftView>::empty());
        c
    }

    fn is_flagged(m: &AssocMap<bool>, who: u64) -> (b: bool)
        ensures
            b == flag(m@, who),
    {
        match m.get(who) {
            Some(f) => *f,
            None => false,
        }
    }

    /// An admin lets `verifier` adjust tokens.
    pub fn add_verifier(&mut self, admin: u64, verifier: u64) -> (r: Result<(), DynamicNftError>)
        ensures
            flag(old(self)@.admins, admin) ==> r is Ok && final(self)@ == (DynamicState { verifiers: old(self)@.verifiers.insert(verifier, true), ..old(self)@ }),
            !flag(old(self)@.admins, admin) ==> r == Err::<(), DynamicNftError>(DynamicNftError::Unauthorized) && final(self)@ == old(self)@,
    {
        if !Self::is_flagged(&self.admins, admin) {
            return Err(DynamicNftError::Unauthorized);
        }
        self.verifiers.insert(verifier, true);
        Ok(())
    }

    /// An admin withdraws a verifier's right to adjust tokens.
    pub fn remove_verifier(&mut self, admin: u64, verifier: u64) -> (r: Result<(), DynamicNftError>)
        ensures
            flag(old(self)@.admins, admin) ==> r is Ok && final(self)@ == (DynamicState { verifiers: old(self)@.verifiers.remove(verifier), ..old(self)@ }),
            !flag(old(self)@.admins, admin) ==> r == Err::<(), DynamicNftError>(DynamicNftError::Unauthorized) && final(self)@ == old(self)@,
    {
        if !Self::is_flagged(&self.admins, admin) {
            return Err(DynamicNftError::Unauthorized);
        }
        self.verifiers.remove(verifier);
        Ok(())
    }

    /// Mints a level-1, rarity-1 token with an empty history.
    pub fn mint(&mut self, minter: u64, owner: u64, metadata: String, traits: String, now: u64) -> (r: (u32, MintEvent))
        requires
            old(self)@.next_nft_id < u32::MAX,
        ensures
            r.0 == old(self)@.next_nft_id,
            r.1 == (MintEvent { owner, token_id: r.0 }),
            final(self)@ == (DynamicState {
                nfts: old(self)@.nfts.insert(r.0 as u64, NftView {
                    owner,
                    level: 1,
                    rarity: 1,
                    traits: traits@,
                    metadata: metadata@,
                    history: Seq::empty(),
                    minted_at: now,
                }),
                next_nft_id: (r.0 + 1) as u32,
                ..old(self)@
            }),
    {
        let ghost old_view = self@;
        let next = self.next_nft_id;
        let nft = DynamicNft { owner, level: 1, rarity: 1, traits, metadata, history: Vec::new(), minted_at: now };
        let ghost nv = nft@;
        self.nfts.insert(next as u64, nft);
        self.next_nft_id = next + 1;
        assert(self@.nfts =~= old_view.nfts.insert(next as u64, nv));
        (next, MintEvent { owner, token_id: next })
    }

    /// Raises a token's level and rarity for a milestone (admins and verifiers).
    pub fn evolve_milestone(&mut self, submitter: u64, token_id: u32, level_inc: u32, rarity_inc: u32, new_traits: Option<String>)
        -> (r: Result<EvolveMilestoneEvent, DynamicNftError>)
        ensures
            outcome_of(r, evolve_milestone_spec(old(self)@, submitter, token_id, level_inc, rarity_inc,
                match new_traits { Some(t) => Some(t@), None => None }), old(self)@, final(self)@),
    {
        let ghost old_view = self@;
        if !Self::is_flagged(&self.admins, submitter) && !Self::is_flagged(&self.verifiers, submitter) {
            return Err(DynamicNftError::Unauthorized);
        }
        let mut nn = match self.nfts.get(token_id as u64) {
            Some(n) => copy_nft(n),
            None => {
                return Err(DynamicNftError::TokenNotFound);
            },
        };
        nn.level = nn.level.saturating_add(level_inc);
        nn.rarity = nn.rarity.saturating_add(rarity_inc);
        match new_traits {
            Some(t) => {
                nn.traits = t;
            },
            None => {},
        }
        nn.history.push(HistoryEntry::EvolvedMilestone);
        let ghost nv = nn@;
        self.nfts.insert(token_id as u64, nn);
        assert(self@.nfts =~= old_view.nfts.insert(token_id as u64, nv));
        Ok(EvolveMilestoneEvent { token_id })
    }

    /// Raises a token's level by one once `required_secs` have passed
    /// since its clock started; the clock restarts.
    pub fn evolve_time(&mut self, caller: u64, token_id: u32, required_secs: u64, now: u64) -> (r: Result<EvolveTimeEvent, DynamicNftError>)
        requires
            old(self)@.nfts.contains_key(token_id as u64) ==> old(self)@.nfts[token_id as u64].minted_at + required_secs <= u64::MAX,
        ensures
            outcome_of(r, evolve_time_spec(old(self)@, token_id, required_secs, now), old(self)@, final(self)@),
    {
        let ghost old_view = self@;
        let mut nn = match self.nfts.get(token_id as u64) {
            Some(n) => copy_nft(n),
            None => {
                return Err(DynamicNftError::TokenNotFound);
            },
        };
        if now < nn.minted_at + required_secs {
            return Err(DynamicNftError::NotReadyForTimeEvolution);
        }
        nn.level = nn.level.saturating_add(1);
        nn.history.push(HistoryEntry::TimeEvolved);
        nn.minted_at = now;
        let ghost nv = nn@;
        self.nfts.insert(token_id as u64, nn);
        assert(self@.nfts =~= old_view.nfts.insert(token_id as u64, nv));
        Ok(EvolveTimeEvent { token_id })
    }

    /// Lowers a token's level (admins and verifiers).
    pub fn downgrade(&mut self, submitter: u64, token_id: u32, level_dec: u32) -> (r: Result<DowngradeEvent, DynamicNftError>)
        ensures
            outcome_of(r, downgrade_spec(old(self)@, submitter, token_id, level_dec), old(self)@, final(self)@),
    {
        let ghost old_view = self@;
        if !Self::is_flagged(&self.admins, submitter) && !Self::is_flagged(&self.verifiers, submitter) {
            return Err(DynamicNftError::Unauthorized);
        }
        let mut nn = match self.nfts.get(token_id as u64) {
            Some(n) => copy_nft(n),
            None => {
                return Err(DynamicNftError::TokenNotFound);
            },
        };
        nn.level = nn.level.saturating_sub(level_dec);
        nn.history.push(HistoryEntry::Downgraded);
        let ghost nv = nn@;
        self.nfts.insert(token_id as u64, nn);
        assert(self@.nfts =~= old_view.nfts.insert(token_id as u64, nv));
        Ok(DowngradeEvent { token_id })
    }

    /// Fuses two tokens of the submitter into a new one.
    pub fn fuse(&mut self, submitter: u64, token_a: u32, token_b: u32, now: u64) -> (r: Result<(u32, FuseEvent), DynamicNftError>)
        requires
            fuse_fits(old(self)@, token_a, token_b),
        ensures
            outcome_of(r, fuse_spec(old(self)@, submitter, token_a, token_b, now), old(self)@, final(self)@),
    {
        let ghost old_view = self@;
        let (owner, la, ra, traits, metadata) = match self.nfts.get(token_a as u64) {
            Some(n) => (n.owner, n.level, n.rarity, n.traits.clone(), n.metadata.clone()),
            None => {
                return Err(DynamicNftError::TokenNotFound);
            },
        };
        let (owner_b, lb, rb) = match self.nfts.get(token_b as u64) {
            Some(n) => (n.owner, n.level, n.rarity),
            None => {
                return Err(DynamicNftError::TokenNotFound);
            },
        };
        if owner != owner_b {
            return Err(DynamicNftError::OwnersMustMatch);
        }
        if submitter != owner {
            return Err(DynamicNftError::OnlyOwnerCanFuse);
        }
        let level = la.saturating_add(lb);
        let rarity = (if ra > rb { ra } else { rb }) + 1;
        self.nfts.remove(token_a as u64);
        self.nfts.remove(token_b as u64);
        let next = self.next_nft_id;
        let mut history = Vec::new();
        history.push(HistoryEntry::Fused);
        let nft = DynamicNft { owner, level, rarity, traits, metadata, history, minted_at: now };
        let ghost nv = nft@;
        assert(nv.history =~= seq![HistoryEntry::Fused]);
        self.nfts.insert(next as u64, nft);
        self.next_nft_id = next + 1;
        assert(self@.nfts =~= old_view.nfts.remove(token_a as u64).remove(token_b as u64).insert(next as u64, nv));
        Ok((next, FuseEvent { owner, token_id: next }))
    }

    pub fn get_nft(&self, token_id: u32) -> (r: Option<DynamicNft>)
        ensures
            match r {
                Some(n) => self@.nfts.contains_key(token_id as u64) && n@ == self@.nfts[token_id as u64],
                None => !self@.nfts.contains_key(token_id as u64),
            },
    {
        match self.nfts.get(token_id as u64) {
            Some(n) => Some(copy_nft(n)),
            None => None,
        }
    }

    pub fn get_history(&self, token_id: u32) -> (r: Option<Vec<HistoryEntry>>)
        ensures
            match r {
                Some(h) => self@.nfts.contains_key(token_id as u64) && h@ == self@.nfts[token_id as u64].history,
                None => !self@.nfts.contains_key(token_id as u64),
            },
    {
        match self.nfts.get(token_id as u64) {
            Some(n) => Some(copy_vec(&n.history)),
            None => None,
        }
    }
}

/// Evolving by time restarts the clock: the same token cannot evolve by
/// time again until `required_secs` more have passed.
pub proof fn law_time_evolution_restarts_clock(v: DynamicState, id: u32, required_secs: u64, now: u64, later: u64)
    requires
        later < now + required_secs,
    ensures
        evolve_time_spec(v, id, required_secs, now) matches Ok((w, _))
            ==> evolve_time_spec(w, id, required_secs, later) == Err::<(DynamicState, EvolveTimeEvent), DynamicNftError>(DynamicNftError::NotReadyForTimeEvolution),
{
}

/// Every change to a token adds exactly one entry to its history.
pub proof fn law_changes_are_recorded(v: DynamicState, who: u64, id: u32, a: u32, b: u32, t: Option<Seq<char>>, secs: u64, now: u64)
    ensures
        evolve_milestone_spec(v, who, id, a, b, t) matches Ok((w, _))
            ==> w.nfts[id as u64].history == v.nfts[id as u64].history.push(HistoryEntry::EvolvedMilestone),
        evolve_time_spec(v, id, secs, now) matches Ok((w, _))
            ==> w.nfts[id as u64].history == v.nfts[id as u64].history.push(HistoryEntry::TimeEvolved),
        downgrade_spec(v, who, id, a) matches Ok((w, _))
            ==> w.nfts[id as u64].history == v.nfts[id as u64].history.push(HistoryEntry::Downgraded),
{
}

/// Fusing two tokens makes a token whose rarity is one above the higher of
/// the two, so it is rarer than each of the tokens it was made from; its
/// level is their summed level (saturating), and both fused tokens are gone.
pub proof fn law_fusion_raises_rarity(v: DynamicState, who: u64, a: u32, b: u32, now: u64)
    requires
        fuse_fits(v, a, b),
    ensures
        fuse_spec(v, who, a, b, now) matches Ok((v2, (id, e))) ==> {
            let ra = v.nfts[a as u64].rarity;
            let rb = v.nfts[b as u64].rarity;
            &&& v2.nfts.contains_key(id as u64)
            &&& v2.nfts[id as u64].rarity > ra
            &&& v2.nfts[id as u64].rarity > rb
            &&& (v2.nfts[id as u64].rarity == ra + 1 || v2.nfts[id as u64].rarity == rb + 1)
            &&& v2.nfts[id as u64].level as int == if v.nfts[a as u64].level + v.nfts[b as u64].level <= u32::MAX {
                v.nfts[a as u64].level + v.nfts[b as u64].level
            } else {
                u32::MAX as int
            }
            &&& (id != a ==> !v2.nfts.contains_key(a as u64))
            &&& (id != b ==> !v2.nfts.contains_key(b as u64))
        },
{
}

} // verus!
