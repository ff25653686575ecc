//! Composable NFTs: the admin mints base tokens carrying a set of traits;
//! an owner merges two of their tokens into a child that takes each
//! selected trait from the parent named for it, and the parents are burned.
//! Every token remembers its parents, so its lineage can be traced.
//!
//! Trait names and values are identifiers (the host's symbols).
use vstd::prelude::*;
use crate::assoc::AssocMap;
use crate::seqs::copy_vec;

verus! {

#[derive(Debug)]
pub struct CompositeNFT {
    pub token_id: u32,
    pub owner: u64,
    /// Parents (0 for a base token).
    pub parent_a: u32,
    pub parent_b: u32,
    /// Trait values by trait name.
    pub inherited_traits: AssocMap<u64>,
    pub merge_timestamp: u64,
    pub is_burned: bool,
}

pub struct NftView {
    pub token_id: u32,
    pub owner: u64,
    pub parent_a: u32,
    pub parent_b: u32,
    pub traits: Map<u64, u64>,
    pub merge_timestamp: u64,
    pub is_burned: bool,
}

impl View for CompositeNFT {
    type V = NftView;

    open spec fn view(&self) -> NftView {
        NftView {
            token_id: self.token_id,
            owner: self.owner,
            parent_a: self.parent_a,
            parent_b: self.parent_b,
            traits: self.inherited_traits@,
            merge_timestamp: self.merge_timestamp,
            is_burned: self.is_burned,
        }
    }
}

/// Take trait `trait_key` from parent `source` (1 for the first, 2 for the second).
#[derive(Clone, Copy, Debug, PartialEq, Eq, Structural)]
pub struct TraitSelection {
    pub trait_key: u64,
    pub source: u32,
}

#[derive(Clone, Copy, Debug, PartialEq, Eq, Structural)]
pub enum ComposeError {
    MissingRequiredTrait,
    IdenticalTokens,
    TokenANotFound,
    TokenBNotFound,
    BurnedToken,
    NotOwnerOfBoth,
    InvalidSource,
    ParentLacksTrait,
    SelectionsMissingRequiredTrait,
}

pub struct NftComposabilityContract {
    pub admin: u64,
    pub required_traits: Vec<u64>,
    pub supply: u32,
    pub tokens: AssocMap<CompositeNFT>,
}

pub struct ComposeView {
    pub admin: u64,
    pub required_traits: Seq<u64>,
    pub supply: u32,
    pub tokens: Map<u64, NftView>,
}

impl View for NftComposabilityContract {
    type V = ComposeView;

    open spec fn view(&self) -> ComposeView {
        ComposeView {
            admin: self.admin,
            required_traits: self.required_traits@,
            supply: self.supply,
            tokens: self.tokens@.map_values(|t: CompositeNFT| t@),
        }
    }
}

/// Whether every required trait is among the keys.
pub open spec fn has_all(required: Seq<u64>, keys: Set<u64>) -> bool {
    forall|i: int| 0 <= i < required.len() ==> keys.contains(#[trigger] required[i])
}

/// The traits chosen by the first `n` selections, or the first fault.
pub open spec fn select_upto(a: Map<u64, u64>, b: Map<u64, u64>, sels: Seq<TraitSelection>, n: nat) -> Result<Map<u64, u64>, ComposeError>
    decreases n,
{
    if n == 0 {
        Ok(Map::empty())
    } else {
        match select_upto(a, b, sels, (n - 1) as nat) {
            Err(e) => Err(e),
            Ok(m) => {
                let s = sels[n - 1];
                if s.source != 1 && s.source != 2 {
                    Err(ComposeError::InvalidSource)
                } else {
                    let parent = if s.source == 1 { a } else { b };
                    if !parent.contains_key(s.trait_key) {
                        Err(ComposeError::ParentLacksTrait)
                    } else {
                        Ok(m.insert(s.trait_key, parent[s.trait_key]))
                    }
                }
            },
        }
    }
}

/// A merge of two live tokens of the owner: the selections must name a
/// parent holding each chosen trait and cover every required trait. The
/// parents are burned and the child gets the next id.
pub open spec fn merge_spec(v: ComposeView, owner: u64, a: u32, b: u32, sels: Seq<TraitSelection>, now: u64)
    -> Result<(ComposeView, u32), ComposeError> {
    if a == b {
        Err(ComposeError::IdenticalTokens)
    } else if !v.tokens.contains_key(a as u64) {
        Err(ComposeError::TokenANotFound)
    } else if !v.tokens.contains_key(b as u64) {
        Err(ComposeError::TokenBNotFound)
    } else {
        let pa = v.tokens[a as u64];
        let pb = v.tokens[b as u64];
        if pa.is_burned || pb.is_burned {
            Err(ComposeError::BurnedToken)
        } else if pa.owner != owner || pb.owner != owner {
            Err(ComposeError::NotOwnerOfBoth)
        } else {
            match select_upto(pa.traits, pb.traits, sels, sels.len()) {
                Err(e) => Err(e),
                Ok(traits) => if !has_all(v.required_traits, traits.dom()) {
                    Err(ComposeError::SelectionsMissingRequiredTrait)
                } else {
                    let id = (v.supply + 1) as u32;
                    let child = NftView { token_id: id, owner, parent_a: a, parent_b: b, traits, merge_timestamp: now, is_burned: false };
                    Ok((ComposeView {
                        tokens: v.tokens.insert(a as u64, NftView { is_burned: true, ..pa })
                            .insert(b as u64, NftView { is_burned: true, ..pb })
                            .insert(id as u64, child),
                        supply: id,
                        ..v
                    }, id))
                },
            }
        }
    }
}

/// Every token's id is at most the supply and its parents came before it.
pub open spec fn lineage_wf(v: ComposeView) -> bool {
    forall|k: u64| #[trigger] v.tokens.contains_key(k) ==> 1 <= k <= v.supply && v.tokens[k].parent_a < k && v.tokens[k].parent_b < k
}

/// The token, then the lineage of its first parent, then of its second.
pub open spec fn lineage(m: Map<u64, NftView>, id: u32) -> Seq<u32>
    decreases id,
{
    if id == 0 || !m.contains_key(id as u64) {
        Seq::empty()
    } else {
        let t = m[id as u64];
        let la = if t.parent_a != 0 && t.parent_a < id { lineage(m, t.parent_a) } else { Seq::empty() };
        let lb = if t.parent_b != 0 && t.parent_b < id { lineage(m, t.parent_b) } else { Seq::empty() };
        seq![id] + la + lb
    }
}

fn copy_token(t: &CompositeNFT) -> (r: CompositeNFT)
    ensures
        r@ == t@,
{
    CompositeNFT {
        token_id: t.token_id,
        owner: t.owner,
        parent_a: t.parent_a,
        parent_b: t.parent_b,
        inherited_traits: t.inherited_traits.duplicate(),
        merge_timestamp: t.merge_timestamp,
        is_burned: t.is_burned,
    }
}

fn covers(required: &Vec<u64>, traits: &AssocMap<u64>) -> (b: bool)
    ensures
        b == has_all(required@, traits@.dom()),
{
    let mut i: usize = 0;
    while i < required.len()
        invariant
            i <= required@.len(),
            forall|j: int| 0 <= j < i ==> traits@.dom().contains(#[trigger] required@[j]),
        decreases required@.len() - i,
    {
        if !traits.contains_key(required[i]) {
            return false;
        }
        i = i + 1;
    }
    true
}

proof fn lemma_select_err_sticks(a: Map<u64, u64>, b: Map<u64, u64>, sels: Seq<TraitSelection>, k: nat, n: nat)
    requires
        k <= n,
        select_upto(a, b, sels, k) is Err,
    ensures
        select_upto(a, b, sels, n) == select_upto(a, b, sels, k),
    decreases n,
{
    if n > k {
        lemma_select_err_sticks(a, b, sels, k, (n - 1) as nat);
    }
}

impl NftComposabilityContract {
    pub fn initialize(admin: u64) -> (c: Self)
        ensures
            c@.admin == admin,
            c@.required_traits == Seq::<u64>::empty(),
            c@.supply == 0,
            c@.tokens == Map::<u64, NftView>::empty(),
    {
        let c = NftComposabilityContract { admin, required_traits: Vec::new(), supply: 0, tokens: AssocMap::new() };
        assert(c@.tokens =~= Map::<u64, NftView>::empty());
        c
    }

    pub fn set_admin(&mut self, admin: u64)
        ensures
            final(self)@ == (ComposeView { admin, ..old(self)@ }),
    {
        self.admin = admin;
    }

    pub fn get_admin(&self) -> (r: u64)
        ensures
            r == self@.admin,
    {
        self.admin
    }

    pub fn set_required_traits(&mut self, traits: Vec<u64>)
        ensures
            final(self)@ == (ComposeView { required_traits: traits@, ..old(self)@ }),
    {
        self.required_traits = traits;
    }

    pub fn get_required_traits(&self) -> (r: Vec<u64>)
        ensures
            r@ == self@.required_traits,
    {
        copy_vec(&self.required_traits)
    }

    /// Sets the traits every token must carry.
    pub fn register_traits(&mut self, traits: Vec<u64>)
        ensures
            final(self)@ == (ComposeView { required_traits: traits@, ..old(self)@ }),
    {
        self.set_required_traits(traits);
    }

    /// Counts one more token and hands back its id.
    pub fn increment_supply(&mut self) -> (r: u32)
        requires
            old(self)@.supply < u32::MAX,
        ensures
            r == old(self)@.supply + 1,
            final(self)@ == (ComposeView { supply: r, ..old(self)@ }),
    {
        self.supply = self.supply + 1;
        self.supply
    }

    pub fn set_token(&mut self, id: u32, token: CompositeNFT)
        ensures
            final(self)@ == (ComposeView { tokens: old(self)@.tokens.insert(id as u64, token@), ..old(self)@ }),
    {
        let ghost old_view = self@;
        let ghost tv = token@;
        self.tokens.insert(id as u64, token);
        assert(self@.tokens =~= old_view.tokens.insert(id as u64, tv));
    }

    pub fn remove_token(&mut self, id: u32)
        ensures
            final(self)@ == (ComposeView { tokens: old(self)@.tokens.remove(id as u64), ..old(self)@ }),
    {
        let ghost old_view = self@;
        self.tokens.remove(id as u64);
        assert(self@.tokens =~= old_view.tokens.remove(id as u64));
    }

    pub fn get_token(&self, id: u32) -> (r: Option<CompositeNFT>)
        ensures
            match r {
                Some(t) => self@.tokens.contains_key(id as u64) && t@ == self@.tokens[id as u64],
                None => !self@.tokens.contains_key(id as u64),
            },
    {
        match self.tokens.get(id as u64) {
            Some(t) => Some(copy_token(t)),
            None => None,
        }
    }

    /// Mints a base token with the given traits, which must include every
    /// required trait.
    pub fn mint_base(&mut self, owner: u64, traits: AssocMap<u64>, now: u64) -> (r: Result<u32, ComposeError>)
        requires
            old(self)@.supply < u32::MAX,
        ensures
            !has_all(old(self)@.required_traits, traits@.dom()) ==> r == Err::<u32, ComposeError>(ComposeError::MissingRequiredTrait)
                && final(self)@ == old(self)@,
            has_all(old(self)@.required_traits, traits@.dom()) ==> {
                let id = (old(self)@.supply + 1) as u32;
                &&& r == Ok::<u32, ComposeError>(id)
                &&& final(self)@ == (ComposeView {
                    supply: id,
                    tokens: old(self)@.tokens.insert(id as u64, NftView {
                        token_id: id,
                        owner,
                        parent_a: 0,
                        parent_b: 0,
                        traits: traits@,
                        merge_timestamp: now,
                        is_burned: false,
                    }),
                    ..old(self)@
                })
            },
    {
        if !covers(&self.required_traits, &traits) {
            return Err(ComposeError::MissingRequiredTrait);
        }
        let id = self.increment_supply();
        let nft = CompositeNFT { token_id: id, owner, parent_a: 0, parent_b: 0, inherited_traits: traits, merge_timestamp: now, is_burned: false };
        self.set_token(id, nft);
        Ok(id)
    }

    /// Merges two of the owner's tokens into a child built from the selections.
    pub fn merge(&mut self, owner: u64, token_a: u32, token_b: u32, selections: Vec<TraitSelection>, now: u64) -> (r: Result<u32, ComposeError>)
        requires
            old(self)@.supply < u32::MAX,
        ensures
            match merge_spec(old(self)@, owner, token_a, token_b, selections@, now) {
                Ok((w, id)) => r == Ok::<u32, ComposeError>(id) && final(self)@ == w,
                Err(e) => r == Err::<u32, ComposeError>(e) && final(self)@ == old(self)@,
            },
    {
        if token_a == token_b {
            return Err(ComposeError::IdenticalTokens);
        }
        let pa = match self.tokens.get(token_a as u64) {
            Some(t) => copy_token(t),
            None => {
                return Err(ComposeError::TokenANotFound);
            },
        };
        let pb = match self.tokens.get(token_b as u64) {
            Some(t) => copy_token(t),
            None => {
                return Err(ComposeError::TokenBNotFound);
            },
        };
        if pa.is_burned || pb.is_burned {
            return Err(ComposeError::BurnedToken);
        }
        if pa.owner != owner || pb.owner != owner {
            return Err(ComposeError::NotOwnerOfBoth);
        }
        let ghost ta = pa.inherited_traits@;
        let ghost tb = pb.inherited_traits@;
        let mut new_traits: AssocMap<u64> = AssocMap::new();
        let mut i: usize = 0;
        while i < selections.len()
            invariant
                i <= selections@.len(),
                self@ == old(self)@,
                token_a != token_b,
                self@.tokens.contains_key(token_a as u64) && pa@ == self@.tokens[token_a as u64],
                self@.tokens.contains_key(token_b as u64) && pb@ == self@.tokens[token_b as u64],
                !pa.is_burned && !pb.is_burned,
                pa.owner == owner && pb.owner == owner,
                ta == pa.inherited_traits@,
                tb == pb.inherited_traits@,
                select_upto(ta, tb, selections@, i as nat) == Ok::<Map<u64, u64>, ComposeError>(new_traits@),
            decreases selections@.len() - i,
        {
            let s = selections[i];
            let val = if s.source == 1 {
                pa.inherited_traits.get(s.trait_key)
            } else if s.source == 2 {
                pb.inherited_traits.get(s.trait_key)
            } else {
                proof {
                    lemma_select_err_sticks(ta, tb, selections@, (i + 1) as nat, selections@.len());
                }
                return Err(ComposeError::InvalidSource);
            };
            let v = match val {
                Some(v) => *v,
                None => {
                    proof {
                        lemma_select_err_sticks(ta, tb, selections@, (i + 1) as nat, selections@.len());
                    }
                    return Err(ComposeError::ParentLacksTrait);
                },
            };
            new_traits.insert(s.trait_key, v);
            i = i + 1;
        }
        if !covers(&self.required_traits, &new_traits) {
            return Err(ComposeError::SelectionsMissingRequiredTrait);
        }
        let burned_a = CompositeNFT { is_burned: true, ..pa };
        self.set_token(token_a, burned_a);
        let burned_b = CompositeNFT { is_burned: true, ..pb };
        self.set_token(token_b, burned_b);
        let new_id = self.increment_supply();
        let child = CompositeNFT {
            token_id: new_id,
            owner,
            parent_a: token_a,
            parent_b: token_b,
            inherited_traits: new_traits,
            merge_timestamp: now,
            is_burned: false,
        };
        self.set_token(new_id, child);
        Ok(new_id)
    }

    pub fn get_nft(&self, token_id: u32) -> (r: Option<CompositeNFT>)
        ensures
            match r {
                Some(t) => self@.tokens.contains_key(token_id as u64) && t@ == self@.tokens[token_id as u64],
                None => !self@.tokens.contains_key(token_id as u64),
            },
    {
        self.get_token(token_id)
    }

    /// The token and all its ancestors, each token before its parents'
    /// lines (first parent's line first).
    pub fn get_lineage(&self, token_id: u32) -> (r: Vec<u32>)
        requires
            lineage_wf(self@),
        ensures
            r@ == lineage(self@.tokens, token_id),
    {
        let mut out: Vec<u32> = Vec::new();
        self.recurse_lineage(token_id, &mut out);
        assert(out@ =~= lineage(self@.tokens, token_id));
        out
    }

    fn recurse_lineage(&self, token_id: u32, out: &mut Vec<u32>)
        requires
            lineage_wf(self@),
        ensures
            final(out)@ == old(out)@ + lineage(self@.tokens, token_id),
        decreases token_id,
    {
        if token_id == 0 {
            assert(old(out)@ + lineage(self@.tokens, token_id) =~= old(out)@);
            return;
        }
        match self.tokens.get(token_id as u64) {
            Some(t) => {
                let pa = t.parent_a;
                let pb = t.parent_b;
                proof {
                    assert(self@.tokens.contains_key(token_id as u64));
                }
                let ghost before = out@;
                out.push(token_id);
                if pa != 0 {
                    self.recurse_lineage(pa, out);
                }
                let ghost mid = out@;
                if pb != 0 {
                    self.recurse_lineage(pb, out);
                }
                proof {
                    let m = self@.tokens;
                    let la = if pa != 0 && pa < token_id { lineage(m, pa) } else { Seq::empty() };
                    let lb = if pb != 0 && pb < token_id { lineage(m, pb) } else { Seq::empty() };
                    assert(pa == 0 ==> lineage(m, pa) =~= Seq::<u32>::empty());
                    assert(pb == 0 ==> lineage(m, pb) =~= Seq::<u32>::empty());
                    assert(out@ =~= before + (seq![token_id] + la + lb));
                }
            },
            None => {
                assert(old(out)@ + lineage(self@.tokens, token_id) =~= old(out)@);
            },
        }
    }
}

/// Minting and merging keep every token's parents older than the token
/// (so lineages are finite and `get_lineage` may be called).
pub proof fn law_merge_keeps_lineage_wf(v: ComposeView, owner: u64, a: u32, b: u32, sels: Seq<TraitSelection>, now: u64)
    requires
        lineage_wf(v),
        v.supply < u32::MAX,
    ensures
        merge_spec(v, owner, a, b, sels, now) matches Ok((w, _)) ==> lineage_wf(w),
{
}

/// A merge burns both parents and the child names them as its parents.
pub proof fn law_merge_burns_parents(v: ComposeView, owner: u64, a: u32, b: u32, sels: Seq<TraitSelection>, now: u64)
    requires
        lineage_wf(v),
        v.supply < u32::MAX,
    ensures
        merge_spec(v, owner, a, b, sels, now) matches Ok((w, id)) ==> {
            &&& w.tokens[a as u64].is_burned
            &&& w.tokens[b as u64].is_burned
            &&& w.tokens[id as u64].parent_a == a && w.tokens[id as u64].parent_b == b
            &&& !w.tokens[id as u64].is_burned
            &&& !v.tokens.contains_key(id as u64)
        },
{
}

} // verus!
