//! Puzzle completion certificates: one per (puzzle, solver), ranked by how fast
//! the puzzle was solved, transferable only when minted so, burnable by the owner.
use vstd::prelude::*;
use crate::assoc::AssocMap;
use crate::seqs::{copy_u64s, remove_value_u64};

verus! {

/// Reasons a certificate operation is refused.
#[derive(Clone, Copy, Debug, PartialEq, Eq, Structural)]
pub enum CertError {
    NotAdmin,
    NotOwner,
    CertNotFound,
    AlreadyMinted,
    TransferRestricted,
    ContractPaused,
    InvalidInput,
    Unauthorized,
}

/// Rarity of a certificate, derived from the completion time.
#[derive(Clone, Copy, Debug, PartialEq, Eq, Structural)]
pub enum RarityTier {
    /// Completion time up to 60 s.
    Legendary,
    /// 61 s to 300 s.
    Epic,
    /// 301 s to 900 s.
    Rare,
    /// 901 s to 3600 s.
    Uncommon,
    /// More than 3600 s.
    Common,
}

/// The tier that a completion time falls into.
pub open spec fn tier_of(secs: u64) -> RarityTier {
    if secs <= 60 {
        RarityTier::Legendary
    } else if secs <= 300 {
        RarityTier::Epic
    } else if secs <= 900 {
        RarityTier::Rare
    } else if secs <= 3600 {
        RarityTier::Uncommon
    } else {
        RarityTier::Common
    }
}

/// The sort weight of a tier: Legendary 5 down to Common 1.
pub open spec fn weight_of(t: RarityTier) -> u32 {
    match t {
        RarityTier::Legendary => 5,
        RarityTier::Epic => 4,
        RarityTier::Rare => 3,
        RarityTier::Uncommon => 2,
        RarityTier::Common => 1,
    }
}

impl RarityTier {
    pub fn from_seconds(secs: u64) -> (t: Self)
        ensures
            t == tier_of(secs),
    {
        if secs <= 60 {
            RarityTier::Legendary
        } else if secs <= 300 {
            RarityTier::Epic
        } else if secs <= 900 {
            RarityTier::Rare
        } else if secs <= 3600 {
            RarityTier::Uncommon
        } else {
            RarityTier::Common
        }
    }

    pub fn weight(&self) -> (w: u32)
        ensures
            w == weight_of(*self),
    {
        match self {
            RarityTier::Legendary => 5,
            RarityTier::Epic => 4,
            RarityTier::Rare => 3,
            RarityTier::Uncommon => 2,
            RarityTier::Common => 1,
        }
    }
}

/// A faster completion never earns a lighter tier.
pub proof fn law_faster_tier_weighs_more(fast: u64, slow: u64)
    requires
        fast <= slow,
    ensures
        weight_of(tier_of(fast)) >= weight_of(tier_of(slow)),
{
}

/// The tiers are strictly ordered by weight and no two tiers share one.
pub proof fn law_tier_weights_distinct(a: RarityTier, b: RarityTier)
    ensures
        weight_of(a) == weight_of(b) <==> a == b,
        1 <= weight_of(a) <= 5,
{
}

/// The data of one certificate.
#[derive(Debug)]
pub struct CertificateMetadata {
    pub token_id: u64,
    pub owner: u64,
    pub puzzle_id: String,
    pub puzzle_title: String,
    pub completed_at: u64,
    pub completion_time_secs: u64,
    pub rank: u64,
    pub rarity: RarityTier,
    pub solution_hash: String,
    pub metadata_uri: String,
    pub transferable: bool,
    pub burned: bool,
}

impl Clone for CertificateMetadata {
    fn clone(&self) -> (r: Self)
        ensures
            r == *self,
    {
        CertificateMetadata {
            token_id: self.token_id,
            owner: self.owner,
            puzzle_id: self.puzzle_id.clone(),
            puzzle_title: self.puzzle_title.clone(),
            completed_at: self.completed_at,
            completion_time_secs: self.completion_time_secs,
            rank: self.rank,
            rarity: self.rarity,
            solution_hash: self.solution_hash.clone(),
            metadata_uri: self.metadata_uri.clone(),
            transferable: self.transferable,
            burned: self.burned,
        }
    }
}

/// The answer to a verification request.
#[derive(Debug)]
pub struct VerificationProof {
    pub token_id: u64,
    pub owner: u64,
    pub puzzle_id: String,
    pub solution_hash: String,
    pub rarity: RarityTier,
    pub completed_at: u64,
    pub rank: u64,
    pub authentic: bool,
}

/// A (puzzle, solver) pair that has been minted.
pub struct MintRecord {
    pub puzzle_id: String,
    pub owner: u64,
}

/// The state of the certificate contract.
pub struct CompletionCertificateContract {
    pub admin: u64,
    pub token_count: u64,
    pub paused: bool,
    /// Certificates by token id.
    pub certs: AssocMap<CertificateMetadata>,
    /// The (puzzle, solver) pairs minted so far, in minting order.
    pub minted: Vec<MintRecord>,
    /// Token ids held by each owner, in the order acquired.
    pub owner_certs: AssocMap<Vec<u64>>,
}

/// Whether a (puzzle, owner) pair occurs among the minted records.
pub open spec fn minted_pair(m: Seq<MintRecord>, puzzle_id: Seq<char>, owner: u64) -> bool {
    exists|i: int| 0 <= i < m.len() && #[trigger] m[i].puzzle_id@ == puzzle_id && m[i].owner == owner
}

/// The token ids listed for an owner (empty when none were ever listed).
pub open spec fn list_of(m: Map<u64, Seq<u64>>, owner: u64) -> Seq<u64> {
    if m.contains_key(owner) {
        m[owner]
    } else {
        Seq::empty()
    }
}

/// The certificate stored for a token id, when it exists and is not burned.
pub open spec fn live_cert(m: Map<u64, CertificateMetadata>, id: u64) -> bool {
    m.contains_key(id) && !m[id].burned
}

/// The live certificates for a list of ids, in list order.
pub open spec fn live_certs_of(m: Map<u64, CertificateMetadata>, ids: Seq<u64>) -> Seq<CertificateMetadata>
    decreases ids.len(),
{
    if ids.len() == 0 {
        Seq::empty()
    } else {
        let rest = live_certs_of(m, ids.drop_last());
        if live_cert(m, ids.last()) {
            rest.push(m[ids.last()])
        } else {
            rest
        }
    }
}

/// The certificates of a sequence that have weight `w`, in sequence order.
pub open spec fn with_weight(s: Seq<CertificateMetadata>, w: u32) -> Seq<CertificateMetadata> {
    s.filter(|c: CertificateMetadata| weight_of(c.rarity) == w)
}

/// A showcase: heaviest tier first, and within a tier in the order given.
pub open spec fn showcase_order(s: Seq<CertificateMetadata>) -> Seq<CertificateMetadata> {
    with_weight(s, 5) + with_weight(s, 4) + with_weight(s, 3) + with_weight(s, 2) + with_weight(s, 1)
}

impl CompletionCertificateContract {
    /// The owners' lists of token ids.
    pub open spec fn owner_lists(&self) -> Map<u64, Seq<u64>> {
        self.owner_certs@.map_values(|v: Vec<u64>| v@)
    }

    /// The contract as `initialize` leaves it.
    pub fn initialize(admin: u64) -> (c: Self)
        ensures
            c.admin == admin,
            c.token_count == 0,
            !c.paused,
            c.certs@ == Map::<u64, CertificateMetadata>::empty(),
            c.minted@ == Seq::<MintRecord>::empty(),
            c.owner_lists() == Map::<u64, Seq<u64>>::empty(),
    {
        CompletionCertificateContract {
            admin,
            token_count: 0,
            paused: false,
            certs: AssocMap::new(),
            minted: Vec::new(),
            owner_certs: AssocMap::new(),
        }
    }

    /// Hands the admin role to `new_admin` (the current admin has authorised).
    pub fn set_admin(&mut self, new_admin: u64)
        ensures
            final(self).admin == new_admin,
            final(self).token_count == old(self).token_count,
            final(self).paused == old(self).paused,
            final(self).certs@ == old(self).certs@,
            final(self).minted@ == old(self).minted@,
            final(self).owner_lists() == old(self).owner_lists(),
    {
        self.admin = new_admin;
    }

    /// Pauses or resumes minting and transfers (the admin has authorised).
    pub fn set_paused(&mut self, paused: bool)
        ensures
            final(self).paused == paused,
            final(self).admin == old(self).admin,
            final(self).token_count == old(self).token_count,
            final(self).certs@ == old(self).certs@,
            final(self).minted@ == old(self).minted@,
            final(self).owner_lists() == old(self).owner_lists(),
    {
        self.paused = paused;
    }

    fn find_minted(&self, puzzle_id: &String, owner: u64) -> (b: bool)
        ensures
            b == minted_pair(self.minted@, puzzle_id@, owner),
    {
        let mut i: usize = 0;
        while i < self.minted.len()
            invariant
                i <= self.minted@.len(),
                forall|j: int| 0 <= j < i ==> !(#[trigger] self.minted@[j].puzzle_id@ == puzzle_id@ && self.minted@[j].owner == owner),
            decreases self.minted@.len() - i,
        {
            let r = &self.minted[i];
            if r.owner == owner && r.puzzle_id == *puzzle_id {
                return true;
            }
            i = i + 1;
        }
        false
    }

    /// Whether a certificate for this puzzle was ever minted to this owner.
    pub fn is_minted(&self, puzzle_id: &String, owner: u64) -> (b: bool)
        ensures
            b == minted_pair(self.minted@, puzzle_id@, owner),
    {
        self.find_minted(puzzle_id, owner)
    }

    /// Mints the next certificate to `owner` at time `now` (the admin has authorised).
    /// Refused while paused, and when this (puzzle, owner) pair was minted before.
    pub fn mint_certificate(
        &mut self,
        owner: u64,
        puzzle_id: String,
        puzzle_title: String,
        completion_time_secs: u64,
        rank: u64,
        solution_hash: String,
        metadata_uri: String,
        transferable: bool,
        now: u64,
    ) -> (r: Result<u64, CertError>)
        requires
            old(self).token_count < u64::MAX,
        ensures
            old(self).paused ==> r == Err::<u64, CertError>(CertError::ContractPaused),
            !old(self).paused && minted_pair(old(self).minted@, puzzle_id@, owner) ==> r == Err::<u64, CertError>(CertError::AlreadyMinted),
            r is Err ==> *final(self) == *old(self),
            r is Ok <==> (!old(self).paused && !minted_pair(old(self).minted@, puzzle_id@, owner)),
            r matches Ok(id) ==> {
                &&& id == old(self).token_count + 1
                &&& final(self).token_count == id
                &&& final(self).certs@ == old(self).certs@.insert(id, CertificateMetadata {
                    token_id: id,
                    owner,
                    puzzle_id,
                    puzzle_title,
                    completed_at: now,
                    completion_time_secs,
                    rank,
                    rarity: tier_of(completion_time_secs),
                    solution_hash,
                    metadata_uri,
                    transferable,
                    burned: false,
                })
                &&& final(self).minted@.len() == old(self).minted@.len() + 1
                &&& final(self).minted@.subrange(0, old(self).minted@.len() as int) == old(self).minted@
                &&& final(self).minted@.last().puzzle_id@ == puzzle_id@
                &&& final(self).minted@.last().owner == owner
                &&& final(self).owner_lists() == old(self).owner_lists().insert(owner, list_of(old(self).owner_lists(), owner).push(id))
                &&& final(self).admin == old(self).admin
                &&& final(self).paused == old(self).paused
            },
    {
        if self.paused {
            return Err(CertError::ContractPaused);
        }
        if self.find_minted(&puzzle_id, owner) {
            return Err(CertError::AlreadyMinted);
        }
        let rarity = RarityTier::from_seconds(completion_time_secs);
        let token_id = self.token_count + 1;
        self.token_count = token_id;
        let key_puzzle = puzzle_id.clone();
        let cert = CertificateMetadata {
            token_id,
            owner,
            puzzle_id,
            puzzle_title,
            completed_at: now,
            completion_time_secs,
            rank,
            rarity,
            solution_hash,
            metadata_uri,
            transferable,
            burned: false,
        };
        self.certs.insert(token_id, cert);
        let ghost old_minted = self.minted@;
        self.minted.push(MintRecord { puzzle_id: key_puzzle, owner });
        assert(self.minted@.subrange(0, old_minted.len() as int) =~= old_minted);
        let mut list = match self.owner_certs.remove(owner) {
            Some(l) => l,
            None => Vec::new(),
        };
        list.push(token_id);
        self.owner_certs.insert(owner, list);
        assert(self.owner_lists() =~= old(self).owner_lists().insert(owner, list_of(old(self).owner_lists(), owner).push(token_id)));
        Ok(token_id)
    }

    /// Moves certificate `token_id` from `from` to `to` (`from` has authorised).
    pub fn transfer(&mut self, from: u64, to: u64, token_id: u64) -> (r: Result<(), CertError>)
        ensures
            r == (if old(self).paused {
                Err(CertError::ContractPaused)
            } else if !live_cert(old(self).certs@, token_id) {
                Err(CertError::CertNotFound)
            } else if old(self).certs@[token_id].owner != from {
                Err(CertError::NotOwner)
            } else if !old(self).certs@[token_id].transferable {
                Err(CertError::TransferRestricted)
            } else {
                Ok(())
            }),
            r is Err ==> *final(self) == *old(self),
            r is Ok ==> {
                let c = old(self).certs@[token_id];
                let mid = old(self).owner_lists().insert(from, list_of(old(self).owner_lists(), from).remove_value(token_id));
                &&& final(self).certs@ == old(self).certs@.insert(token_id, CertificateMetadata { owner: to, ..c })
                &&& final(self).owner_lists() == mid.insert(to, list_of(mid, to).push(token_id))
                &&& final(self).token_count == old(self).token_count
                &&& final(self).minted@ == old(self).minted@
                &&& final(self).admin == old(self).admin
                &&& final(self).paused == old(self).paused
            },
    {
        if self.paused {
            return Err(CertError::ContractPaused);
        }
        let (owner, transferable) = match self.certs.get(token_id) {
            None => {
                return Err(CertError::CertNotFound);
            },
            Some(c) => {
                if c.burned {
                    return Err(CertError::CertNotFound);
                }
                (c.owner, c.transferable)
            },
        };
        if owner != from {
            return Err(CertError::NotOwner);
        }
        if !transferable {
            return Err(CertError::TransferRestricted);
        }
        let ghost lists0 = self.owner_lists();
        let mut old_list = match self.owner_certs.remove(from) {
            Some(l) => l,
            None => Vec::new(),
        };
        remove_value_u64(&mut old_list, token_id);
        self.owner_certs.insert(from, old_list);
        let ghost mid = self.owner_lists();
        assert(mid =~= lists0.insert(from, list_of(lists0, from).remove_value(token_id)));
        let mut new_list = match self.owner_certs.remove(to) {
            Some(l) => l,
            None => Vec::new(),
        };
        new_list.push(token_id);
        self.owner_certs.insert(to, new_list);
        assert(self.owner_lists() =~= mid.insert(to, list_of(mid, to).push(token_id)));
        let mut cert = self.certs.remove(token_id).unwrap();
        cert.owner = to;
        self.certs.insert(token_id, cert);
        assert(self.certs@ =~= old(self).certs@.insert(token_id, CertificateMetadata { owner: to, ..old(self).certs@[token_id] }));
        Ok(())
    }

    /// Burns certificate `token_id` held by `owner` (`owner` has authorised).
    pub fn burn(&mut self, owner: u64, token_id: u64) -> (r: Result<(), CertError>)
        ensures
            r == (if !old(self).certs@.contains_key(token_id) {
                Err(CertError::CertNotFound)
            } else if old(self).certs@[token_id].owner != owner {
                Err(CertError::NotOwner)
            } else if old(self).certs@[token_id].burned {
                Err(CertError::CertNotFound)
            } else {
                Ok(())
            }),
            r is Err ==> *final(self) == *old(self),
            r is Ok ==> {
                let c = old(self).certs@[token_id];
                &&& final(self).certs@ == old(self).certs@.insert(token_id, CertificateMetadata { burned: true, ..c })
                &&& final(self).owner_lists() == old(self).owner_lists().insert(owner, list_of(old(self).owner_lists(), owner).remove_value(token_id))
                &&& final(self).token_count == old(self).token_count
                &&& final(self).minted@ == old(self).minted@
                &&& final(self).admin == old(self).admin
                &&& final(self).paused == old(self).paused
            },
    {
        let (cur_owner, burned) = match self.certs.get(token_id) {
            None => {
                return Err(CertError::CertNotFound);
            },
            Some(c) => (c.owner, c.burned),
        };
        if cur_owner != owner {
            return Err(CertError::NotOwner);
        }
        if burned {
            return Err(CertError::CertNotFound);
        }
        let mut cert = self.certs.remove(token_id).unwrap();
        cert.burned = true;
        self.certs.insert(token_id, cert);
        assert(self.certs@ =~= old(self).certs@.insert(token_id, CertificateMetadata { burned: true, ..old(self).certs@[token_id] }));
        let mut list = match self.owner_certs.remove(owner) {
            Some(l) => l,
            None => Vec::new(),
        };
        remove_value_u64(&mut list, token_id);
        self.owner_certs.insert(owner, list);
        assert(self.owner_lists() =~= old(self).owner_lists().insert(owner, list_of(old(self).owner_lists(), owner).remove_value(token_id)));
        Ok(())
    }

    /// What a verifier learns of `token_id`; `contract` is this contract's own
    /// address, reported as the owner of a certificate that does not exist.
    pub fn verify_certificate(&self, token_id: u64, contract: u64) -> (p: VerificationProof)
        ensures
            live_cert(self.certs@, token_id) ==> {
                let c = self.certs@[token_id];
                p == VerificationProof {
                    token_id: c.token_id,
                    owner: c.owner,
                    puzzle_id: c.puzzle_id,
                    solution_hash: c.solution_hash,
                    rarity: c.rarity,
                    completed_at: c.completed_at,
                    rank: c.rank,
                    authentic: true,
                }
            },
            !live_cert(self.certs@, token_id) ==> {
                &&& p.token_id == token_id
                &&& p.owner == contract
                &&& p.puzzle_id@ == Seq::<char>::empty()
                &&& p.solution_hash@ == Seq::<char>::empty()
                &&& p.rarity == RarityTier::Common
                &&& p.completed_at == 0
                &&& p.rank == 0
                &&& !p.authentic
            },
    {
        match self.certs.get(token_id) {
            Some(c) => {
                if !c.burned {
                    return VerificationProof {
                        token_id: c.token_id,
                        owner: c.owner,
                        puzzle_id: c.puzzle_id.clone(),
                        solution_hash: c.solution_hash.clone(),
                        rarity: c.rarity,
                        completed_at: c.completed_at,
                        rank: c.rank,
                        authentic: true,
                    };
                }
            },
            None => {},
        }
        VerificationProof {
            token_id,
            owner: contract,
            puzzle_id: String::new(),
            solution_hash: String::new(),
            rarity: RarityTier::Common,
            completed_at: 0,
            rank: 0,
            authentic: false,
        }
    }

    /// The certificate stored under `token_id`, burned or not.
    pub fn get_certificate(&self, token_id: u64) -> (r: Result<&CertificateMetadata, CertError>)
        ensures
            r == (if self.certs@.contains_key(token_id) {
                Ok(&self.certs@[token_id])
            } else {
                Err(CertError::CertNotFound)
            }),
    {
        match self.certs.get(token_id) {
            Some(c) => Ok(c),
            None => Err(CertError::CertNotFound),
        }
    }

    /// The token ids held by `owner`, in the order acquired.
    pub fn get_owner_certificates(&self, owner: u64) -> (r: Vec<u64>)
        ensures
            r@ == list_of(self.owner_lists(), owner),
    {
        match self.owner_certs.get(owner) {
            Some(l) => copy_u64s(l),
            None => Vec::new(),
        }
    }

    /// The number of certificates ever minted.
    pub fn total_supply(&self) -> (n: u64)
        ensures
            n == self.token_count,
    {
        self.token_count
    }

    pub fn get_admin(&self) -> (a: u64)
        ensures
            a == self.admin,
    {
        self.admin
    }

    pub fn is_paused(&self) -> (b: bool)
        ensures
            b == self.paused,
    {
        self.paused
    }

    /// The owner's live certificates, heaviest rarity first; certificates of
    /// equal rarity keep the order of the owner's list.
    pub fn get_showcase(&self, owner: u64) -> (r: Vec<CertificateMetadata>)
        ensures
            r@ == showcase_order(live_certs_of(self.certs@, list_of(self.owner_lists(), owner))),
    {
        let ids = self.get_owner_certificates(owner);
        let mut live: Vec<CertificateMetadata> = Vec::new();
        let mut i: usize = 0;
        while i < ids.len()
            invariant
                i <= ids@.len(),
                live@ == live_certs_of(self.certs@, ids@.subrange(0, i as int)),
            decreases ids@.len() - i,
        {
            let id = ids[i];
            proof {
                assert(ids@.subrange(0, i + 1).drop_last() =~= ids@.subrange(0, i as int));
            }
            match self.certs.get(id) {
                Some(c) => {
                    if !c.burned {
                        live.push(c.clone());
                    }
                },
                None => {},
            }
            i = i + 1;
        }
        assert(ids@.subrange(0, ids@.len() as int) =~= ids@);
        let mut out: Vec<CertificateMetadata> = Vec::new();
        let mut w: u32 = 5;
        while w >= 1
            invariant
                w <= 5,
                out@ == showcase_prefix(live@, w),
            decreases w,
        {
            let mut j: usize = 0;
            let ghost base = out@;
            while j < live.len()
                invariant
                    j <= live@.len(),
                    out@ == base + with_weight(live@.subrange(0, j as int), w),
                decreases live@.len() - j,
            {
                let c = &live[j];
                proof {
                    let f = |c: CertificateMetadata| weight_of(c.rarity) == w;
                    assert(live@.subrange(0, j + 1).drop_last() =~= live@.subrange(0, j as int));
                    reveal_with_fuel(Seq::filter, 1);
                }
                if c.rarity.weight() == w {
                    out.push(c.clone());
                    assert(out@ =~= base + with_weight(live@.subrange(0, j + 1), w));
                } else {
                    assert(out@ =~= base + with_weight(live@.subrange(0, j + 1), w));
                }
                j = j + 1;
            }
            assert(live@.subrange(0, live@.len() as int) =~= live@);
            w = w - 1;
        }
        assert(out@ =~= showcase_order(live@)) by {
            reveal_with_fuel(showcase_prefix, 6);
        }
        out
    }
}

/// The showcase built down to (but not including) weight `w`.
pub open spec fn showcase_prefix(s: Seq<CertificateMetadata>, w: u32) -> Seq<CertificateMetadata>
    decreases 5 - w,
{
    if w >= 5 {
        Seq::empty()
    } else {
        showcase_prefix(s, (w + 1) as u32) + with_weight(s, (w + 1) as u32)
    }
}

} // verus!
