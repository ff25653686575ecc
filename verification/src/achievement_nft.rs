//! Achievement NFTs: a player whose puzzle completion was recorded mints a
//! token for it; tokens can be transferred and burned, and each owner's
//! collection lists their tokens.
use vstd::prelude::*;
use crate::assoc::{AssocMap, ListMap, PairMap};

verus! {

#[derive(Debug)]
pub struct Achievement {
    pub owner: u64,
    pub puzzle_id: u32,
    pub metadata: String,
    pub timestamp: u64,
}

pub struct AchievementView {
    pub owner: u64,
    pub puzzle_id: u32,
    pub metadata: Seq<char>,
    pub timestamp: u64,
}

impl View for Achievement {
    type V = AchievementView;

    open spec fn view(&self) -> AchievementView {
        AchievementView { owner: self.owner, puzzle_id: self.puzzle_id, metadata: self.metadata@, timestamp: self.timestamp }
    }
}

#[derive(Clone, Copy, Debug, PartialEq, Eq, Structural)]
pub enum AchievementError {
    PuzzleNotCompleted,
    CannotTransferToSelf,
    TokenDoesNotExist,
    NotTheOwner,
    IdNotInCollection,
}

pub struct AchievementNFT {
    pub admin: u64,
    pub next_token_id: u32,
    pub total_supply: u32,
    pub achievements: AssocMap<Achievement>,
    /// Token ids by owner, in the order they were received.
    pub collections: ListMap<u32>,
    /// Recorded puzzle completions, by (player, puzzle).
    pub completed: PairMap<bool>,
}

pub struct AchievementState {
    pub admin: u64,
    pub next_token_id: u32,
    pub total_supply: u32,
    pub achievements: Map<u64, AchievementView>,
    pub collections: Map<u64, Seq<u32>>,
    pub completed: Map<(u64, u64), bool>,
}

impl View for AchievementNFT {
    type V = AchievementState;

    open spec fn view(&self) -> AchievementState {
        AchievementState {
            admin: self.admin,
            next_token_id: self.next_token_id,
            total_supply: self.total_supply,
            achievements: self.achievements@.map_values(|a: Achievement| a@),
            collections: self.collections@,
            completed: self.completed@,
        }
    }
}

pub open spec fn collection_of(v: AchievementState, owner: u64) -> Seq<u32> {
    if v.collections.contains_key(owner) { v.collections[owner] } else { Seq::empty() }
}

pub open spec fn is_completed(v: AchievementState, user: u64, puzzle_id: u32) -> bool {
    v.completed.contains_key((user, puzzle_id as u64)) && v.completed[(user, puzzle_id as u64)]
}

/// The state after minting the next token to `to`.
pub open spec fn minted(v: AchievementState, to: u64, puzzle_id: u32, metadata: Seq<char>, now: u64) -> AchievementState {
    let id = v.next_token_id;
    AchievementState {
        achievements: v.achievements.insert(id as u64, AchievementView { owner: to, puzzle_id, metadata, timestamp: now }),
        collections: v.collections.insert(to, collection_of(v, to).push(id)),
        next_token_id: (id + 1) as u32,
        total_supply: (v.total_supply + 1) as u32,
        ..v
    }
}

pub open spec fn mint_fits(v: AchievementState) -> bool {
    v.next_token_id < u32::MAX && v.total_supply < u32::MAX
}

/// The distinct puzzles of the tokens among the first `n` ids that still
/// exist, in order of first appearance.
pub open spec fn puzzles_upto(achs: Map<u64, AchievementView>, ids: Seq<u32>, n: nat) -> Seq<u32>
    decreases n,
{
    if n == 0 {
        Seq::empty()
    } else {
        let prev = puzzles_upto(achs, ids, (n - 1) as nat);
        let id = ids[n - 1] as u64;
        if achs.contains_key(id) && !prev.contains(achs[id].puzzle_id) {
            prev.push(achs[id].puzzle_id)
        } else {
            prev
        }
    }
}

pub open spec fn puzzles_of(v: AchievementState, owner: u64) -> Seq<u32> {
    puzzles_upto(v.achievements, collection_of(v, owner), collection_of(v, owner).len())
}

fn position_u32(v: &Vec<u32>, x: u32) -> (r: Option<usize>)
    ensures
        match r {
            Some(i) => v@.index_of_first(x) == Some(i as int) && i < v@.len(),
            None => v@.index_of_first(x) == None::<int>,
        },
{
    let mut i: usize = 0;
    while i < v.len()
        invariant
            i <= v@.len(),
            forall|j: int| 0 <= j < i ==> v@[j] != x,
        decreases v@.len() - i,
    {
        if v[i] == x {
            proof {
                v@.index_of_first_ensures(x);
                assert(v@.contains(x));
                let k = v@.index_of_first(x)->0;
                if k < i {
                    assert(v@[k] != x);
                }
            }
            return Some(i);
        }
        i = i + 1;
    }
    proof {
        v@.index_of_first_ensures(x);
        if v@.contains(x) {
            let k = choose|k: int| 0 <= k < v@.len() && v@[k] == x;
        }
    }
    None
}

fn contains_u32(v: &Vec<u32>, x: u32) -> (b: bool)
    ensures
        b == v@.contains(x),
{
    proof {
        v@.index_of_first_ensures(x);
    }
    position_u32(v, x).is_some()
}

impl AchievementNFT {
    pub fn initialize(admin: u64) -> (c: Self)
        ensures
            c@.admin == admin,
            c@.next_token_id == 1,
            c@.total_supply == 0,
            c@.achievements == Map::<u64, AchievementView>::empty(),
            c@.collections == Map::<u64, Seq<u32>>::empty(),
            c@.completed == Map::<(u64, u64), bool>::empty(),
    {
        let c = AchievementNFT {
            admin,
            next_token_id: 1,
            total_supply: 0,
            achievements: AssocMap::new(),
            collections: ListMap::new(),
            completed: PairMap::new(),
        };
        assert(c@.achievements =~= Map::<u64, AchievementView>::empty());
        c
    }

    /// Records that the user completed the puzzle.
    pub fn mark_puzzle_completed(&mut self, user: u64, puzzle_id: u32)
        ensures
            final(self)@ == (AchievementState { completed: old(self)@.completed.insert((user, puzzle_id as u64), true), ..old(self)@ }),
    {
        self.completed.insert(user, puzzle_id as u64, true);
    }

    /// Mints an achievement for a completed puzzle.
    pub fn mint(&mut self, to: u64, puzzle_id: u32, metadata: String, now: u64) -> (r: Result<u32, AchievementError>)
        requires
            mint_fits(old(self)@),
        ensures
            is_completed(old(self)@, to, puzzle_id) ==> r == Ok::<u32, AchievementError>(old(self)@.next_token_id)
                && final(self)@ == minted(old(self)@, to, puzzle_id, metadata@, now),
            !is_completed(old(self)@, to, puzzle_id) ==> r == Err::<u32, AchievementError>(AchievementError::PuzzleNotCompleted)
                && final(self)@ == old(self)@,
    {
        let done = match self.completed.get(to, puzzle_id as u64) {
            Some(b) => *b,
            None => false,
        };
        if !done {
            return Err(AchievementError::PuzzleNotCompleted);
        }
        Ok(self.mint_internal(to, puzzle_id, metadata, now))
    }

    /// Mints an achievement without the completion check (used for crafting).
    pub fn craftmint(&mut self, to: u64, puzzle_id: u32, metadata: String, now: u64) -> (r: u32)
        requires
            mint_fits(old(self)@),
        ensures
            r == old(self)@.next_token_id,
            final(self)@ == minted(old(self)@, to, puzzle_id, metadata@, now),
    {
        self.mint_internal(to, puzzle_id, metadata, now)
    }

    fn mint_internal(&mut self, to: u64, puzzle_id: u32, metadata: String, now: u64) -> (r: u32)
        requires
            mint_fits(old(self)@),
        ensures
            r == old(self)@.next_token_id,
            final(self)@ == minted(old(self)@, to, puzzle_id, metadata@, now),
    {
        let ghost old_view = self@;
        let token_id = self.next_token_id;
        let a = Achievement { owner: to, puzzle_id, metadata, timestamp: now };
        let ghost av = a@;
        self.achievements.insert(token_id as u64, a);
        self.collections.push(to, token_id);
        self.next_token_id = token_id + 1;
        self.total_supply = self.total_supply + 1;
        assert(self@.achievements =~= old_view.achievements.insert(token_id as u64, av));
        token_id
    }

    /// Moves a token between owners' collections.
    pub fn transfer(&mut self, from: u64, to: u64, token_id: u32) -> (r: Result<(), AchievementError>)
        ensures
            from == to ==> r == Err::<(), AchievementError>(AchievementError::CannotTransferToSelf) && final(self)@ == old(self)@,
            from != to && !old(self)@.achievements.contains_key(token_id as u64)
                ==> r == Err::<(), AchievementError>(AchievementError::TokenDoesNotExist) && final(self)@ == old(self)@,
            from != to && old(self)@.achievements.contains_key(token_id as u64) && old(self)@.achievements[token_id as u64].owner != from
                ==> r == Err::<(), AchievementError>(AchievementError::NotTheOwner) && final(self)@ == old(self)@,
            from != to && old(self)@.achievements.contains_key(token_id as u64) && old(self)@.achievements[token_id as u64].owner == from
                && !collection_of(old(self)@, from).contains(token_id)
                ==> r == Err::<(), AchievementError>(AchievementError::IdNotInCollection) && final(self)@ == old(self)@,
            r is Ok ==> {
                let a = old(self)@.achievements[token_id as u64];
                let i = collection_of(old(self)@, from).index_of_first(token_id)->0;
                final(self)@ == (AchievementState {
                    achievements: old(self)@.achievements.insert(token_id as u64, AchievementView { owner: to, ..a }),
                    collections: old(self)@.collections.insert(from, collection_of(old(self)@, from).remove(i))
                        .insert(to, collection_of(old(self)@, to).push(token_id)),
                    ..old(self)@
                })
            },
            r is Ok <==> from != to && old(self)@.achievements.contains_key(token_id as u64)
                && old(self)@.achievements[token_id as u64].owner == from && collection_of(old(self)@, from).contains(token_id),
    {
        let ghost old_view = self@;
        if from == to {
            return Err(AchievementError::CannotTransferToSelf);
        }
        let na = match self.achievements.get(token_id as u64) {
            None => {
                return Err(AchievementError::TokenDoesNotExist);
            },
            Some(a) => {
                if a.owner != from {
                    return Err(AchievementError::NotTheOwner);
                }
                Achievement { owner: to, puzzle_id: a.puzzle_id, metadata: a.metadata.clone(), timestamp: a.timestamp }
            },
        };
        let mut from_col = self.collections.get_list(from);
        proof {
            from_col@.index_of_first_ensures(token_id);
        }
        let index = match position_u32(&from_col, token_id) {
            Some(i) => i,
            None => {
                return Err(AchievementError::IdNotInCollection);
            },
        };
        from_col.remove(index);
        self.collections.set(from, from_col);
        self.collections.push(to, token_id);
        let ghost nav = na@;
        self.achievements.insert(token_id as u64, na);
        assert(self@.achievements =~= old_view.achievements.insert(token_id as u64, nav));
        Ok(())
    }

    /// The owner's token ids.
    pub fn get_collection(&self, owner: u64) -> (r: Vec<u32>)
        ensures
            r@ == collection_of(self@, owner),
    {
        self.collections.get_list(owner)
    }

    pub fn owner_of(&self, token_id: u32) -> (r: Result<u64, AchievementError>)
        ensures
            r == (if self@.achievements.contains_key(token_id as u64) {
                Ok::<u64, AchievementError>(self@.achievements[token_id as u64].owner)
            } else {
                Err(AchievementError::TokenDoesNotExist)
            }),
    {
        match self.achievements.get(token_id as u64) {
            Some(a) => Ok(a.owner),
            None => Err(AchievementError::TokenDoesNotExist),
        }
    }

    /// Tokens minted and not burned.
    pub fn total_supply(&self) -> (r: u32)
        ensures
            r == self@.total_supply,
    {
        self.total_supply
    }

    /// Destroys a token, taking it out of its owner's collection.
    pub fn burn(&mut self, token_id: u32) -> (r: Result<(), AchievementError>)
        requires
            old(self)@.achievements.contains_key(token_id as u64) ==> old(self)@.total_supply > 0,
        ensures
            !old(self)@.achievements.contains_key(token_id as u64)
                ==> r == Err::<(), AchievementError>(AchievementError::TokenDoesNotExist) && final(self)@ == old(self)@,
            old(self)@.achievements.contains_key(token_id as u64) ==> {
                let owner = old(self)@.achievements[token_id as u64].owner;
                let col = collection_of(old(self)@, owner);
                &&& r is Ok
                &&& final(self)@ == (AchievementState {
                    achievements: old(self)@.achievements.remove(token_id as u64),
                    collections: if col.contains(token_id) {
                        old(self)@.collections.insert(owner, col.remove(col.index_of_first(token_id)->0))
                    } else {
                        old(self)@.collections
                    },
                    total_supply: (old(self)@.total_supply - 1) as u32,
                    ..old(self)@
                })
            },
    {
        let ghost old_view = self@;
        let owner = match self.achievements.get(token_id as u64) {
            Some(a) => a.owner,
            None => {
                return Err(AchievementError::TokenDoesNotExist);
            },
        };
        let mut col = self.collections.get_list(owner);
        proof {
            col@.index_of_first_ensures(token_id);
        }
        match position_u32(&col, token_id) {
            Some(index) => {
                col.remove(index);
                self.collections.set(owner, col);
            },
            None => {},
        }
        self.achievements.remove(token_id as u64);
        self.total_supply = self.total_supply - 1;
        assert(self@.achievements =~= old_view.achievements.remove(token_id as u64));
        Ok(())
    }

    pub fn get_achievement(&self, token_id: u32) -> (r: Option<Achievement>)
        ensures
            match r {
                Some(a) => self@.achievements.contains_key(token_id as u64) && a@ == self@.achievements[token_id as u64],
                None => !self@.achievements.contains_key(token_id as u64),
            },
    {
        match self.achievements.get(token_id as u64) {
            Some(a) => Some(Achievement { owner: a.owner, puzzle_id: a.puzzle_id, metadata: a.metadata.clone(), timestamp: a.timestamp }),
            None => None,
        }
    }

    /// The distinct puzzles of the owner's tokens, in collection order.
    pub fn puzzle_ids_of(&self, owner: u64) -> (r: Vec<u32>)
        ensures
            r@ == puzzles_of(self@, owner),
    {
        let ids = self.collections.get_list(owner);
        let mut puzzles: Vec<u32> = Vec::new();
        let mut i: usize = 0;
        while i < ids.len()
            invariant
                ids@ == collection_of(self@, owner),
                i <= ids@.len(),
                puzzles@ == puzzles_upto(self@.achievements, ids@, i as nat),
            decreases ids@.len() - i,
        {
            match self.achievements.get(ids[i] as u64) {
                Some(a) => {
                    if !contains_u32(&puzzles, a.puzzle_id) {
                        puzzles.push(a.puzzle_id);
                    }
                },
                None => {},
            }
            i = i + 1;
        }
        puzzles
    }

    /// Whether the owner holds a token for the puzzle.
    pub fn has_puzzle(&self, owner: u64, puzzle_id: u32) -> (b: bool)
        ensures
            b == puzzles_of(self@, owner).contains(puzzle_id),
    {
        let puzzles = self.puzzle_ids_of(owner);
        contains_u32(&puzzles, puzzle_id)
    }
}

/// The puzzle list names each puzzle once.
pub proof fn law_puzzle_ids_distinct(achs: Map<u64, AchievementView>, ids: Seq<u32>, n: nat)
    requires
        n <= ids.len(),
    ensures
        puzzles_upto(achs, ids, n).no_duplicates(),
    decreases n,
{
    if n > 0 {
        law_puzzle_ids_distinct(achs, ids, (n - 1) as nat);
    }
}

/// A puzzle is listed exactly when one of the tokens holds it.
pub proof fn law_has_puzzle_iff_token(achs: Map<u64, AchievementView>, ids: Seq<u32>, n: nat, p: u32)
    requires
        n <= ids.len(),
    ensures
        puzzles_upto(achs, ids, n).contains(p) <==> exists|i: int| 0 <= i < n && achs.contains_key(#[trigger] ids[i] as u64) && achs[ids[i] as u64].puzzle_id == p,
    decreases n,
{
    if n > 0 {
        law_has_puzzle_iff_token(achs, ids, (n - 1) as nat, p);
        let prev = puzzles_upto(achs, ids, (n - 1) as nat);
        let id = ids[n - 1] as u64;
        if achs.contains_key(id) && achs[id].puzzle_id == p {
            if !prev.contains(p) {
                assert(puzzles_upto(achs, ids, n)[prev.len() as int] == p);
            }
        }
        if exists|i: int| 0 <= i < n - 1 && achs.contains_key(#[trigger] ids[i] as u64) && achs[ids[i] as u64].puzzle_id == p {
            let i = choose|i: int| 0 <= i < n - 1 && achs.contains_key(#[trigger] ids[i] as u64) && achs[ids[i] as u64].puzzle_id == p;
            assert(prev.contains(p));
            let j = choose|j: int| 0 <= j < prev.len() && prev[j] == p;
            assert(puzzles_upto(achs, ids, n)[j] == p);
        }
    }
}

} // verus!
