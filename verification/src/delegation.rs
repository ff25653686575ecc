//! Vote delegation: an account hands its voting power to another; power
//! flows along delegations, up to three levels deep, and delegation cycles
//! are refused.
//!
//! Voting power reads token balances, which live in the token contract;
//! the caller hands them in as a book of balances by account.
use vstd::prelude::*;
use crate::assoc::{AssocMap, ListMap};
use crate::seqs::{contains_u64, remove_value_u64};

verus! {

#[derive(Clone, Copy, Debug, PartialEq, Eq, Structural)]
pub struct Delegation {
    pub delegator: u64,
    pub delegatee: u64,
    pub delegated_at: u64,
    pub active: bool,
}

#[derive(Clone, Copy, Debug, PartialEq, Eq, Structural)]
pub enum DelegationError {
    CannotDelegateToSelf,
    CircularDelegation,
}

/// How many delegation hops the cycle check and the chain follow.
pub const MAX_HOPS: u32 = 10;

pub struct DelegationContract {
    pub token_address: u64,
    /// Each account's delegation, by delegator.
    pub delegations: AssocMap<Delegation>,
    /// The accounts that delegated to each account.
    pub delegators: ListMap<u64>,
}

pub struct DelegationView {
    pub token_address: u64,
    pub delegations: Map<u64, Delegation>,
    pub delegators: Map<u64, Seq<u64>>,
}

impl View for DelegationContract {
    type V = DelegationView;

    open spec fn view(&self) -> DelegationView {
        DelegationView { token_address: self.token_address, delegations: self.delegations@, delegators: self.delegators@ }
    }
}

pub open spec fn delegators_of(v: DelegationView, who: u64) -> Seq<u64> {
    if v.delegators.contains_key(who) { v.delegators[who] } else { Seq::empty() }
}

pub open spec fn is_delegating(v: DelegationView, who: u64) -> bool {
    v.delegations.contains_key(who) && v.delegations[who].active
}

/// Whether following active delegations from `start` reaches `target`
/// within `steps` accounts.
pub open spec fn reaches(v: DelegationView, start: u64, target: u64, steps: nat) -> bool
    decreases steps,
{
    if steps == 0 {
        false
    } else if start == target {
        true
    } else if is_delegating(v, start) {
        reaches(v, v.delegations[start].delegatee, target, (steps - 1) as nat)
    } else {
        false
    }
}

/// `start`, then the accounts its delegations lead to, at most `steps` hops.
pub open spec fn chain(v: DelegationView, start: u64, steps: nat) -> Seq<u64>
    decreases steps,
{
    if steps > 0 && is_delegating(v, start) {
        seq![start] + chain(v, v.delegations[start].delegatee, (steps - 1) as nat)
    } else {
        seq![start]
    }
}

/// The delegation lists after `delegator` moves to `delegatee`: it leaves
/// its old delegatee's list (if it was delegating) and joins the new one
/// (once).
pub open spec fn relinked(v: DelegationView, delegator: u64, delegatee: u64) -> Map<u64, Seq<u64>> {
    let after_leave = if is_delegating(v, delegator) && delegators_of(v, v.delegations[delegator].delegatee).contains(delegator) {
        let old_e = v.delegations[delegator].delegatee;
        v.delegators.insert(old_e, delegators_of(v, old_e).remove_value(delegator))
    } else {
        v.delegators
    };
    let joined = if after_leave.contains_key(delegatee) { after_leave[delegatee] } else { Seq::empty() };
    if joined.contains(delegator) { after_leave } else { after_leave.insert(delegatee, joined.push(delegator)) }
}

pub open spec fn bal_of(b: Map<u64, i128>, a: u64) -> int {
    if b.contains_key(a) { b[a] as int } else { 0 }
}

pub open spec fn delegates_to(v: DelegationView, d: u64, e: u64) -> bool {
    is_delegating(v, d) && v.delegations[d].delegatee == e
}

/// The power delegated to `who` at the given depth (levels 1 to 3): the
/// balances and delegated power of the accounts in its list that still
/// delegate to it.
pub open spec fn power_from(v: DelegationView, b: Map<u64, i128>, who: u64, depth: nat) -> int
    decreases 4 - depth, 1int, 0int,
{
    if depth > 3 {
        0
    } else {
        list_power(v, b, who, delegators_of(v, who), delegators_of(v, who).len(), depth)
    }
}

/// The part of `power_from` that the first `n` listed accounts give.
pub open spec fn list_power(v: DelegationView, b: Map<u64, i128>, who: u64, ds: Seq<u64>, n: nat, depth: nat) -> int
    decreases 4 - depth, 0int, n,
{
    if n == 0 || depth > 3 {
        0
    } else {
        list_power(v, b, who, ds, (n - 1) as nat, depth) + (if delegates_to(v, ds[n - 1], who) {
            bal_of(b, ds[n - 1]) + power_from(v, b, ds[n - 1], depth + 1)
        } else {
            0
        })
    }
}

/// An account that delegates has no voting power; otherwise it has its
/// balance plus the power delegated to it.
pub open spec fn voting_power(v: DelegationView, b: Map<u64, i128>, who: u64) -> int {
    if is_delegating(v, who) { 0 } else { bal_of(b, who) + power_from(v, b, who, 1) }
}

pub open spec fn balances_nonneg(b: Map<u64, i128>) -> bool {
    forall|a: u64| #[trigger] b.contains_key(a) ==> b[a] >= 0
}

proof fn lemma_power_nonneg(v: DelegationView, b: Map<u64, i128>, who: u64, depth: nat)
    requires
        balances_nonneg(b),
    ensures
        power_from(v, b, who, depth) >= 0,
    decreases 4 - depth, 1int, 0int,
{
    if depth <= 3 {
        lemma_list_monotone(v, b, who, delegators_of(v, who), delegators_of(v, who).len(), depth);
    }
}

proof fn lemma_list_monotone(v: DelegationView, b: Map<u64, i128>, who: u64, ds: Seq<u64>, n: nat, depth: nat)
    requires
        balances_nonneg(b),
    ensures
        list_power(v, b, who, ds, n, depth) >= 0,
        n > 0 && depth <= 3 ==> list_power(v, b, who, ds, (n - 1) as nat, depth) <= list_power(v, b, who, ds, n, depth),
    decreases 4 - depth, 0int, n,
{
    if n > 0 && depth <= 3 {
        lemma_list_monotone(v, b, who, ds, (n - 1) as nat, depth);
        if delegates_to(v, ds[n - 1], who) {
            lemma_power_nonneg(v, b, ds[n - 1], depth + 1);
        }
    }
}

proof fn lemma_list_prefix(v: DelegationView, b: Map<u64, i128>, who: u64, ds: Seq<u64>, i: nat, n: nat, depth: nat)
    requires
        balances_nonneg(b),
        i <= n,
        depth <= 3,
    ensures
        list_power(v, b, who, ds, i, depth) <= list_power(v, b, who, ds, n, depth),
    decreases n,
{
    if i < n {
        lemma_list_prefix(v, b, who, ds, i, (n - 1) as nat, depth);
        lemma_list_monotone(v, b, who, ds, n, depth);
    }
}

impl DelegationContract {
    pub fn initialize(token_address: u64) -> (c: Self)
        ensures
            c@.token_address == token_address,
            c@.delegations == Map::<u64, Delegation>::empty(),
            c@.delegators == Map::<u64, Seq<u64>>::empty(),
    {
        DelegationContract { token_address, delegations: AssocMap::new(), delegators: ListMap::new() }
    }

    pub fn set_token_address(&mut self, token: u64)
        ensures
            final(self)@ == (DelegationView { token_address: token, ..old(self)@ }),
    {
        self.token_address = token;
    }

    pub fn get_token_address(&self) -> (r: u64)
        ensures
            r == self@.token_address,
    {
        self.token_address
    }

    pub fn set_delegation(&mut self, delegator: u64, d: Delegation)
        ensures
            final(self)@ == (DelegationView { delegations: old(self)@.delegations.insert(delegator, d), ..old(self)@ }),
    {
        self.delegations.insert(delegator, d);
    }

    pub fn get_delegation(&self, delegator: u64) -> (r: Option<Delegation>)
        ensures
            r == (if self@.delegations.contains_key(delegator) { Some(self@.delegations[delegator]) } else { None }),
    {
        match self.delegations.get(delegator) {
            Some(d) => Some(*d),
            None => None,
        }
    }

    /// Adds `delegator` to the delegatee's list, unless it is there already.
    pub fn add_delegator(&mut self, delegatee: u64, delegator: u64)
        ensures
            final(self)@ == (DelegationView {
                delegators: if delegators_of(old(self)@, delegatee).contains(delegator) {
                    old(self)@.delegators
                } else {
                    old(self)@.delegators.insert(delegatee, delegators_of(old(self)@, delegatee).push(delegator))
                },
                ..old(self)@
            }),
    {
        let list = self.delegators.get_list(delegatee);
        if !contains_u64(&list, delegator) {
            self.delegators.push(delegatee, delegator);
        }
    }

    /// Takes `delegator` out of the delegatee's list (its first occurrence).
    pub fn remove_delegator(&mut self, delegatee: u64, delegator: u64)
        ensures
            final(self)@ == (DelegationView {
                delegators: if delegators_of(old(self)@, delegatee).contains(delegator) {
                    old(self)@.delegators.insert(delegatee, delegators_of(old(self)@, delegatee).remove_value(delegator))
                } else {
                    old(self)@.delegators
                },
                ..old(self)@
            }),
    {
        let mut list = self.delegators.get_list(delegatee);
        if contains_u64(&list, delegator) {
            remove_value_u64(&mut list, delegator);
            self.delegators.set(delegatee, list);
        }
    }

    /// The accounts that delegated to `delegatee`.
    pub fn get_delegators(&self, delegatee: u64) -> (r: Vec<u64>)
        ensures
            r@ == delegators_of(self@, delegatee),
    {
        self.delegators.get_list(delegatee)
    }

    /// The accounts that have delegated at some time (whose balances voting
    /// power may read, besides the account asked about).
    pub fn accounts(&self) -> (r: Vec<u64>)
        ensures
            forall|a: u64| self@.delegations.contains_key(a) <==> r@.contains(a),
    {
        self.delegations.keys()
    }

    /// Delegates the delegator's voting power to `delegatee`, unless that
    /// would close a cycle within `MAX_HOPS` delegations.
    pub fn delegate(&mut self, delegator: u64, delegatee: u64, now: u64) -> (r: Result<(), DelegationError>)
        ensures
            delegator == delegatee ==> r == Err::<(), DelegationError>(DelegationError::CannotDelegateToSelf) && final(self)@ == old(self)@,
            delegator != delegatee && reaches(old(self)@, delegatee, delegator, MAX_HOPS as nat)
                ==> r == Err::<(), DelegationError>(DelegationError::CircularDelegation) && final(self)@ == old(self)@,
            delegator != delegatee && !reaches(old(self)@, delegatee, delegator, MAX_HOPS as nat) ==> {
                &&& r is Ok
                &&& final(self)@ == (DelegationView {
                    delegations: old(self)@.delegations.insert(delegator, Delegation { delegator, delegatee, delegated_at: now, active: true }),
                    delegators: relinked(old(self)@, delegator, delegatee),
                    ..old(self)@
                })
            },
    {
        if delegator == delegatee {
            return Err(DelegationError::CannotDelegateToSelf);
        }
        let mut curr = delegatee;
        let mut k: u32 = 0;
        let mut done = false;
        while !done && k < MAX_HOPS
            invariant
                k <= MAX_HOPS,
                delegator != delegatee,
                self@ == old(self)@,
                reaches(self@, delegatee, delegator, MAX_HOPS as nat) == reaches(self@, curr, delegator, (MAX_HOPS - k) as nat),
                done ==> !reaches(self@, curr, delegator, (MAX_HOPS - k) as nat),
            decreases 2 * (MAX_HOPS - k) + (if done { 0int } else { 1int }),
        {
            if curr == delegator {
                return Err(DelegationError::CircularDelegation);
            }
            match self.delegations.get(curr) {
                Some(d) => {
                    if d.active {
                        curr = d.delegatee;
                        k = k + 1;
                    } else {
                        done = true;
                    }
                },
                None => {
                    done = true;
                },
            }
        }
        match self.get_delegation(delegator) {
            Some(old_d) => {
                if old_d.active {
                    self.remove_delegator(old_d.delegatee, delegator);
                }
            },
            None => {},
        }
        self.add_delegator(delegatee, delegator);
        self.set_delegation(delegator, Delegation { delegator, delegatee, delegated_at: now, active: true });
        Ok(())
    }

    /// Ends the delegator's active delegation, if it has one.
    pub fn revoke_delegation(&mut self, delegator: u64)
        ensures
            !is_delegating(old(self)@, delegator) ==> final(self)@ == old(self)@,
            is_delegating(old(self)@, delegator) ==> {
                let d = old(self)@.delegations[delegator];
                final(self)@ == (DelegationView {
                    delegations: old(self)@.delegations.insert(delegator, Delegation { active: false, ..d }),
                    delegators: if delegators_of(old(self)@, d.delegatee).contains(delegator) {
                        old(self)@.delegators.insert(d.delegatee, delegators_of(old(self)@, d.delegatee).remove_value(delegator))
                    } else {
                        old(self)@.delegators
                    },
                    ..old(self)@
                })
            },
    {
        match self.get_delegation(delegator) {
            Some(d) => {
                if d.active {
                    self.remove_delegator(d.delegatee, delegator);
                    self.set_delegation(delegator, Delegation { active: false, ..d });
                }
            },
            None => {},
        }
    }

    /// `start` and the accounts its delegations lead to (at most `MAX_HOPS` hops).
    pub fn get_delegator_chain(&self, start: u64) -> (r: Vec<u64>)
        ensures
            r@ == chain(self@, start, MAX_HOPS as nat),
    {
        let mut out: Vec<u64> = Vec::new();
        let mut current = start;
        out.push(current);
        let mut k: u32 = 0;
        let mut done = false;
        while !done && k < MAX_HOPS
            invariant
                k <= MAX_HOPS,
                out@.len() > 0,
                out@.last() == current,
                chain(self@, start, MAX_HOPS as nat) == out@.drop_last() + chain(self@, current, (MAX_HOPS - k) as nat),
                done ==> chain(self@, current, (MAX_HOPS - k) as nat) == seq![current],
            decreases 2 * (MAX_HOPS - k) + (if done { 0int } else { 1int }),
        {
            match self.delegations.get(current) {
                Some(d) => {
                    if d.active {
                        let ghost before = out@;
                        current = d.delegatee;
                        out.push(current);
                        k = k + 1;
                        proof {
                            assert(out@.drop_last() =~= before);
                            assert(before.drop_last() + seq![before.last()] =~= before);
                        }
                    } else {
                        done = true;
                    }
                },
                None => {
                    done = true;
                },
            }
        }
        proof {
            assert(out@.drop_last() + seq![current] =~= out@);
        }
        out
    }

    fn balance(balances: &AssocMap<i128>, a: u64) -> (r: i128)
        ensures
            r == bal_of(balances@, a),
    {
        match balances.get(a) {
            Some(x) => *x,
            None => 0,
        }
    }

    fn compute_delegated_power(&self, delegatee: u64, balances: &AssocMap<i128>, depth: u32) -> (r: i128)
        requires
            1 <= depth,
            balances_nonneg(balances@),
            power_from(self@, balances@, delegatee, depth as nat) <= i128::MAX,
        ensures
            r == power_from(self@, balances@, delegatee, depth as nat),
        decreases 4 - depth,
    {
        if depth > 3 {
            return 0;
        }
        let ds = self.delegators.get_list(delegatee);
        let ghost b = balances@;
        let ghost total_spec = power_from(self@, b, delegatee, depth as nat);
        let mut total: i128 = 0;
        let mut i: usize = 0;
        while i < ds.len()
            invariant
                1 <= depth <= 3,
                b == balances@,
                balances_nonneg(b),
                ds@ == delegators_of(self@, delegatee),
                total_spec == power_from(self@, b, delegatee, depth as nat),
                total_spec == list_power(self@, b, delegatee, ds@, ds@.len(), depth as nat),
                total_spec <= i128::MAX,
                i <= ds@.len(),
                total == list_power(self@, b, delegatee, ds@, i as nat, depth as nat),
            decreases ds@.len() - i,
        {
            let d = ds[i];
            proof {
                lemma_list_prefix(self@, b, delegatee, ds@, (i + 1) as nat, ds@.len(), depth as nat);
                lemma_list_monotone(self@, b, delegatee, ds@, (i + 1) as nat, depth as nat);
                lemma_list_monotone(self@, b, delegatee, ds@, i as nat, depth as nat);
                lemma_power_nonneg(self@, b, d, (depth + 1) as nat);
            }
            assert(list_power(self@, b, delegatee, ds@, (i + 1) as nat, depth as nat) == total + (if delegates_to(self@, d, delegatee) {
                bal_of(b, d) + power_from(self@, b, d, (depth + 1) as nat)
            } else {
                0
            }));
            assert(b.contains_key(d) ==> b[d] >= 0);
            match self.delegations.get(d) {
                Some(dl) => {
                    if dl.active && dl.delegatee == delegatee {
                        let bal = Self::balance(balances, d);
                        total = total + bal;
                        let sub = self.compute_delegated_power(d, balances, depth + 1);
                        total = total + sub;
                    }
                },
                None => {},
            }
            i = i + 1;
        }
        total
    }

    /// The account's voting power, given the balances of the accounts
    /// involved (an account missing from the book counts as holding 0).
    pub fn get_voting_power(&self, address: u64, balances: &AssocMap<i128>) -> (r: i128)
        requires
            balances_nonneg(balances@),
            voting_power(self@, balances@, address) <= i128::MAX,
        ensures
            r == voting_power(self@, balances@, address),
    {
        match self.delegations.get(address) {
            Some(d) => {
                if d.active {
                    return 0;
                }
            },
            None => {},
        }
        proof {
            lemma_power_nonneg(self@, balances@, address, 1);
        }
        let own = Self::balance(balances, address);
        own + self.compute_delegated_power(address, balances, 1)
    }
}

/// A delegation that is accepted closes no cycle: afterwards, following
/// delegations from the delegatee does not lead back to the delegator
/// within `MAX_HOPS` accounts.
pub proof fn law_no_cycle_after_delegate(v: DelegationView, delegator: u64, delegatee: u64, now: u64)
    requires
        delegator != delegatee,
        !reaches(v, delegatee, delegator, MAX_HOPS as nat),
    ensures
        !reaches(DelegationView {
            delegations: v.delegations.insert(delegator, Delegation { delegator, delegatee, delegated_at: now, active: true }),
            delegators: relinked(v, delegator, delegatee),
            ..v
        }, delegatee, delegator, MAX_HOPS as nat),
{
    let w = DelegationView {
        delegations: v.delegations.insert(delegator, Delegation { delegator, delegatee, delegated_at: now, active: true }),
        delegators: relinked(v, delegator, delegatee),
        ..v
    };
    lemma_walk_ignores_target(v, w, delegatee, delegator, MAX_HOPS as nat);
}

/// A walk that stops at `t` never reads `t`'s own delegation.
proof fn lemma_walk_ignores_target(v: DelegationView, w: DelegationView, s: u64, t: u64, n: nat)
    requires
        forall|a: u64| a != t ==> (v.delegations.contains_key(a) <==> w.delegations.contains_key(a)),
        forall|a: u64| a != t && #[trigger] v.delegations.contains_key(a) ==> v.delegations[a] == w.delegations[a],
    ensures
        reaches(v, s, t, n) == reaches(w, s, t, n),
    decreases n,
{
    if n > 0 && s != t {
        if is_delegating(v, s) {
            lemma_walk_ignores_target(v, w, v.delegations[s].delegatee, t, (n - 1) as nat);
        }
    }
}

/// An account that delegates has no voting power of its own to cast.
pub proof fn law_delegator_has_no_power(v: DelegationView, b: Map<u64, i128>, who: u64)
    requires
        is_delegating(v, who),
    ensures
        voting_power(v, b, who) == 0,
{
}

/// With non-negative balances, an account that does not delegate has at
/// least its own balance.
pub proof fn law_power_covers_own_balance(v: DelegationView, b: Map<u64, i128>, who: u64)
    requires
        balances_nonneg(b),
        !is_delegating(v, who),
    ensures
        voting_power(v, b, who) >= bal_of(b, who),
{
    lemma_power_nonneg(v, b, who, 1);
}

} // verus!
