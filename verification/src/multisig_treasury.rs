//! An M-of-N treasury: members with roles propose transactions, sign them, and
//! execute them once enough signatures are in; owners can run an emergency
//! ownership recovery.
use vstd::prelude::*;
use crate::assoc::AssocMap;
use crate::seqs::{contains_u64, copy_vec, without_u64};

verus! {

#[derive(Clone, Copy, Debug, PartialEq, Eq, Structural)]
pub enum Role {
    Signer,
    Admin,
    Owner,
}

#[derive(Clone, Copy, Debug, PartialEq, Eq, Structural)]
pub enum TransactionStatus {
    Pending,
    Approved,
    Executed,
    Rejected,
    Expired,
}

#[derive(Clone, Copy, Debug, PartialEq, Eq, Structural)]
pub enum TransactionType {
    TokenTransfer,
    NativeTransfer,
    ContractCall,
    ConfigUpdate,
    SignerManagement,
    EmergencyAction,
}

#[derive(Clone, Copy, Debug, PartialEq, Eq, Structural)]
pub enum TreasuryError {
    NotInitialized,
    AlreadyInitialized,
    Unauthorized,
    MemberNotFound,
    MemberAlreadyExists,
    TransactionNotFound,
    AlreadyExecuted,
    AlreadySigned,
    TransactionExpired,
    ThresholdNotReached,
    TooManyPendingProposals,
    InvalidThreshold,
    CannotRemoveLastOwner,
    EmergencyNotAvailable,
    EmergencyCooldownActive,
    InvalidParameters,
    InsufficientRole,
    TransferFailed,
    NotApproved,
}

/// The membership change a signer-management proposal asks for.
#[derive(Clone, Copy, Debug, PartialEq, Eq, Structural)]
pub enum SignerAction {
    Add,
    Remove,
    UpdateRole,
    /// Any other action name: executing it changes no member.
    Other,
}

#[derive(Clone, Copy, Debug, PartialEq, Eq, Structural)]
pub struct TreasuryConfig {
    pub owner: u64,
    pub threshold: u32,
    pub total_signers: u32,
    pub proposal_timeout: u64,
    pub max_pending_proposals: u32,
    pub emergency_recovery_enabled: bool,
    pub emergency_cooldown: u64,
}

#[derive(Clone, Copy, Debug, PartialEq, Eq, Structural)]
pub struct Member {
    pub address: u64,
    pub role: Role,
    pub added_at: u64,
    pub active: bool,
}

#[derive(Clone, Copy, Debug, PartialEq, Eq, Structural)]
pub struct Signature {
    pub signer: u64,
    pub timestamp: u64,
}

/// The arguments a proposal carries: opaque call arguments for a contract
/// call, or the parts of a membership change.
#[derive(Debug)]
pub enum TxArgs {
    Call(Vec<u8>),
    Manage { action: SignerAction, target: u64, role: Option<Role> },
}

#[derive(Debug)]
pub struct Transaction {
    pub id: u64,
    pub proposer: u64,
    pub transaction_type: TransactionType,
    pub status: TransactionStatus,
    pub target: Option<u64>,
    pub amount: Option<i128>,
    pub destination: Option<u64>,
    pub function: Option<String>,
    pub args: Option<TxArgs>,
    pub signatures: Vec<Signature>,
    pub created_at: u64,
    pub expires_at: u64,
    pub executed_at: Option<u64>,
    pub description: String,
    pub required_role: Role,
}

#[derive(Debug)]
pub struct TransactionRecord {
    pub id: u64,
    pub transaction_type: TransactionType,
    pub status: TransactionStatus,
    pub proposer: u64,
    pub signers: Vec<u64>,
    pub executed_at: u64,
}

#[derive(Debug)]
pub struct EmergencyState {
    pub activated_at: u64,
    pub activated_by: u64,
    pub reason: String,
    pub new_owner: u64,
    pub recovery_approved: bool,
    /// The owners who approved the recovery, the activator first.
    pub approvals: Vec<u64>,
}

/// The outside work that executing a transaction asks for.
#[derive(Debug)]
pub enum TreasuryAction {
    /// Nothing beyond the state change.
    Nothing,
    /// Move `amount` of `token` from the treasury to `to`.
    Transfer { token: u64, to: u64, amount: i128 },
    /// Call `function` on `contract` with the stored arguments; its result is
    /// what the execution returns.
    Invoke { contract: u64, function: String, args: Vec<u8> },
}

/// The state of the treasury.
pub struct MultisigTreasury {
    pub config: TreasuryConfig,
    pub members: AssocMap<Member>,
    pub member_list: Vec<u64>,
    pub transactions: AssocMap<Transaction>,
    pub next_tx_id: u64,
    pub history: AssocMap<TransactionRecord>,
    pub tx_count: u64,
    pub emergency: Option<EmergencyState>,
    pub last_emergency_at: u64,
    pub pending: Vec<u64>,
}

pub open spec fn role_level_spec(r: Role) -> int {
    match r {
        Role::Signer => 1,
        Role::Admin => 2,
        Role::Owner => 3,
    }
}

pub open spec fn is_active_owner(m: Map<u64, Member>, a: u64) -> bool {
    m.contains_key(a) && m[a].role == Role::Owner && m[a].active
}

/// How many listed members are active owners.
pub open spec fn owner_count(list: Seq<u64>, m: Map<u64, Member>) -> nat {
    list.filter(|a: u64| is_active_owner(m, a)).len()
}

/// The approvals an emergency recovery needs: two thirds of the active
/// owners (rounded down), at least one.
pub open spec fn required_approvals(owners: nat) -> nat {
    if owners * 2 / 3 >= 1 { owners * 2 / 3 } else { 1 }
}

pub open spec fn signed_by(sigs: Seq<Signature>, s: u64) -> bool {
    exists|i: int| 0 <= i < sigs.len() && #[trigger] sigs[i].signer == s
}

impl MultisigTreasury {
    /// The level of a role for comparisons: Signer 1, Admin 2, Owner 3.
    pub fn role_level(role: &Role) -> (l: u8)
        ensures
            l == role_level_spec(*role),
    {
        match role {
            Role::Signer => 1,
            Role::Admin => 2,
            Role::Owner => 3,
        }
    }

    /// Everything but the membership is as before.
    pub open spec fn same_but_members(&self, other: &Self) -> bool {
        &&& self.transactions@ == other.transactions@
        &&& self.next_tx_id == other.next_tx_id
        &&& self.history@ == other.history@
        &&& self.tx_count == other.tx_count
        &&& self.emergency == other.emergency
        &&& self.last_emergency_at == other.last_emergency_at
        &&& self.pending@ == other.pending@
    }

    /// The treasury as `initialize` leaves it: the owner is its only member.
    pub fn initialize(owner: u64, threshold: u32, proposal_timeout: u64, max_pending_proposals: u32, emergency_cooldown: u64, now: u64) -> (r: Result<Self, TreasuryError>)
        ensures
            r is Err <==> threshold == 0,
            r is Err ==> r == Err::<Self, TreasuryError>(TreasuryError::InvalidThreshold),
            r matches Ok(t) ==> {
                &&& t.config == (TreasuryConfig {
                    owner,
                    threshold,
                    total_signers: 1,
                    proposal_timeout,
                    max_pending_proposals,
                    emergency_recovery_enabled: true,
                    emergency_cooldown,
                })
                &&& t.members@ == map![owner => Member { address: owner, role: Role::Owner, added_at: now, active: true }]
                &&& t.member_list@ == seq![owner]
                &&& t.transactions@ == Map::<u64, Transaction>::empty()
                &&& t.next_tx_id == 0
                &&& t.history@ == Map::<u64, TransactionRecord>::empty()
                &&& t.tx_count == 0
                &&& t.emergency is None
                &&& t.last_emergency_at == 0
                &&& t.pending@ == Seq::<u64>::empty()
            },
    {
        if threshold == 0 {
            return Err(TreasuryError::InvalidThreshold);
        }
        let mut members = AssocMap::new();
        members.insert(owner, Member { address: owner, role: Role::Owner, added_at: now, active: true });
        let mut member_list = Vec::new();
        member_list.push(owner);
        let t = MultisigTreasury {
            config: TreasuryConfig {
                owner,
                threshold,
                total_signers: 1,
                proposal_timeout,
                max_pending_proposals,
                emergency_recovery_enabled: true,
                emergency_cooldown,
            },
            members,
            member_list,
            transactions: AssocMap::new(),
            next_tx_id: 0,
            history: AssocMap::new(),
            tx_count: 0,
            emergency: None,
            last_emergency_at: 0,
            pending: Vec::new(),
        };
        assert(t.members@ =~= map![owner => Member { address: owner, role: Role::Owner, added_at: now, active: true }]);
        assert(t.member_list@ =~= seq![owner]);
        Ok(t)
    }

    /// The outcome of `add_member`, decided on the state before the call.
    pub open spec fn add_member_check(&self, caller: u64, new_member: u64, role: Role) -> Result<(), TreasuryError> {
        if !self.members@.contains_key(caller) {
            Err(TreasuryError::MemberNotFound)
        } else if self.members@[caller].role == Role::Signer {
            Err(TreasuryError::InsufficientRole)
        } else if self.members@.contains_key(new_member) {
            Err(TreasuryError::MemberAlreadyExists)
        } else if (role == Role::Owner || role == Role::Admin) && self.members@[caller].role != Role::Owner {
            Err(TreasuryError::InsufficientRole)
        } else if self.config.threshold > self.config.total_signers + 1 {
            Err(TreasuryError::InvalidThreshold)
        } else {
            Ok(())
        }
    }

    /// Adds `new_member` with `role` at time `now` (`caller` has authorised).
    /// Admins may add signers; only owners may add admins and owners.
    pub fn add_member(&mut self, caller: u64, new_member: u64, role: Role, now: u64) -> (r: Result<(), TreasuryError>)
        requires
            old(self).config.total_signers < u32::MAX,
        ensures
            r == old(self).add_member_check(caller, new_member, role),
            r is Err ==> *final(self) == *old(self),
            r is Ok ==> {
                &&& final(self).members@ == old(self).members@.insert(new_member, Member { address: new_member, role, added_at: now, active: true })
                &&& final(self).member_list@ == old(self).member_list@.push(new_member)
                &&& final(self).config == (TreasuryConfig { total_signers: (old(self).config.total_signers + 1) as u32, ..old(self).config })
                &&& final(self).same_but_members(old(self))
            },
    {
        let caller_role = match self.members.get(caller) {
            Some(m) => m.role,
            None => {
                return Err(TreasuryError::MemberNotFound);
            },
        };
        if caller_role != Role::Admin && caller_role != Role::Owner {
            return Err(TreasuryError::InsufficientRole);
        }
        if self.members.contains_key(new_member) {
            return Err(TreasuryError::MemberAlreadyExists);
        }
        if (role == Role::Owner || role == Role::Admin) && caller_role != Role::Owner {
            return Err(TreasuryError::InsufficientRole);
        }
        if self.config.threshold > self.config.total_signers + 1 {
            return Err(TreasuryError::InvalidThreshold);
        }
        self.members.insert(new_member, Member { address: new_member, role, added_at: now, active: true });
        self.member_list.push(new_member);
        self.config.total_signers = self.config.total_signers + 1;
        Ok(())
    }

    fn count_owners(&self) -> (n: usize)
        ensures
            n == owner_count(self.member_list@, self.members@),
    {
        let mut n: usize = 0;
        let mut i: usize = 0;
        while i < self.member_list.len()
            invariant
                i <= self.member_list@.len(),
                n == self.member_list@.subrange(0, i as int).filter(|a: u64| is_active_owner(self.members@, a)).len(),
                n <= i,
            decreases self.member_list@.len() - i,
        {
            let a = self.member_list[i];
            proof {
                assert(self.member_list@.subrange(0, i + 1).drop_last() =~= self.member_list@.subrange(0, i as int));
                reveal_with_fuel(Seq::filter, 1);
            }
            match self.members.get(a) {
                Some(m) => {
                    if m.role == Role::Owner && m.active {
                        n = n + 1;
                    }
                },
                None => {},
            }
            i = i + 1;
        }
        assert(self.member_list@.subrange(0, self.member_list@.len() as int) =~= self.member_list@);
        n
    }

    /// The outcome of `remove_member`, decided on the state before the call.
    pub open spec fn remove_member_check(&self, caller: u64, target: u64) -> Result<(), TreasuryError> {
        if !self.members@.contains_key(caller) || !self.members@.contains_key(target) {
            Err(TreasuryError::MemberNotFound)
        } else if caller == target && self.members@[target].role == Role::Owner && owner_count(self.member_list@, self.members@) <= 1 {
            Err(TreasuryError::CannotRemoveLastOwner)
        } else if self.members@[caller].role == Role::Admin && self.members@[target].role != Role::Signer {
            Err(TreasuryError::Unauthorized)
        } else if self.members@[caller].role == Role::Signer {
            Err(TreasuryError::Unauthorized)
        } else {
            Ok(())
        }
    }

    /// Removes `target` (`caller` has authorised). Owners may remove anyone,
    /// admins only signers; an owner cannot remove itself as the last owner.
    /// The threshold drops with the member count when it would exceed it.
    pub fn remove_member(&mut self, caller: u64, target: u64) -> (r: Result<(), TreasuryError>)
        requires
            old(self).config.total_signers >= 1,
        ensures
            r == old(self).remove_member_check(caller, target),
            r is Err ==> *final(self) == *old(self),
            r is Ok ==> {
                let n = (old(self).config.total_signers - 1) as u32;
                &&& final(self).members@ == old(self).members@.remove(target)
                &&& final(self).member_list@ == old(self).member_list@.filter(|a: u64| a != target)
                &&& final(self).config == (TreasuryConfig {
                    total_signers: n,
                    threshold: if old(self).config.threshold > n { n } else { old(self).config.threshold },
                    ..old(self).config
                })
                &&& final(self).same_but_members(old(self))
            },
    {
        let caller_role = match self.members.get(caller) {
            Some(m) => m.role,
            None => {
                return Err(TreasuryError::MemberNotFound);
            },
        };
        let target_role = match self.members.get(target) {
            Some(m) => m.role,
            None => {
                return Err(TreasuryError::MemberNotFound);
            },
        };
        if caller == target && target_role == Role::Owner {
            if self.count_owners() <= 1 {
                return Err(TreasuryError::CannotRemoveLastOwner);
            }
        }
        if caller_role != Role::Owner {
            if caller_role == Role::Admin && target_role != Role::Signer {
                return Err(TreasuryError::Unauthorized);
            }
            if caller_role == Role::Signer {
                return Err(TreasuryError::Unauthorized);
            }
        }
        self.member_list = without_u64(&self.member_list, target);
        self.members.remove(target);
        let n = self.config.total_signers - 1;
        self.config.total_signers = n;
        if self.config.threshold > n {
            self.config.threshold = n;
        }
        Ok(())
    }

    /// The outcome of `update_member_role`, decided on the state before the call.
    pub open spec fn update_role_check(&self, caller: u64, target: u64, new_role: Role) -> Result<(), TreasuryError> {
        if !self.members@.contains_key(caller) {
            Err(TreasuryError::MemberNotFound)
        } else if self.members@[caller].role != Role::Owner {
            Err(TreasuryError::Unauthorized)
        } else if !self.members@.contains_key(target) {
            Err(TreasuryError::MemberNotFound)
        } else if self.members@[target].role == Role::Owner && new_role != Role::Owner && owner_count(self.member_list@, self.members@) <= 1 {
            Err(TreasuryError::CannotRemoveLastOwner)
        } else {
            Ok(())
        }
    }

    /// Gives `target` the role `new_role` (`caller`, an owner, has authorised).
    pub fn update_member_role(&mut self, caller: u64, target: u64, new_role: Role) -> (r: Result<(), TreasuryError>)
        ensures
            r == old(self).update_role_check(caller, target, new_role),
            r is Err ==> *final(self) == *old(self),
            r is Ok ==> {
                &&& final(self).members@ == old(self).members@.insert(target, Member { role: new_role, ..old(self).members@[target] })
                &&& final(self).member_list@ == old(self).member_list@
                &&& final(self).config == old(self).config
                &&& final(self).same_but_members(old(self))
            },
    {
        let caller_role = match self.members.get(caller) {
            Some(m) => m.role,
            None => {
                return Err(TreasuryError::MemberNotFound);
            },
        };
        if caller_role != Role::Owner {
            return Err(TreasuryError::Unauthorized);
        }
        let target_member = match self.members.get(target) {
            Some(m) => *m,
            None => {
                return Err(TreasuryError::MemberNotFound);
            },
        };
        if target_member.role == Role::Owner && new_role != Role::Owner {
            if self.count_owners() <= 1 {
                return Err(TreasuryError::CannotRemoveLastOwner);
            }
        }
        self.members.insert(target, Member { role: new_role, ..target_member });
        Ok(())
    }

    /// Sets threshold, proposal timeout and pending limit (`caller`, an
    /// owner, has authorised). The threshold must lie in 1..=total signers.
    pub fn update_config(&mut self, caller: u64, threshold: u32, proposal_timeout: u64, max_pending_proposals: u32) -> (r: Result<(), TreasuryError>)
        ensures
            r == (if !old(self).members@.contains_key(caller) {
                Err(TreasuryError::MemberNotFound)
            } else if old(self).members@[caller].role != Role::Owner {
                Err(TreasuryError::Unauthorized)
            } else if threshold == 0 || threshold > old(self).config.total_signers {
                Err(TreasuryError::InvalidThreshold)
            } else {
                Ok(())
            }),
            r is Err ==> *final(self) == *old(self),
            r is Ok ==> *final(self) == (MultisigTreasury {
                config: TreasuryConfig { threshold, proposal_timeout, max_pending_proposals, ..old(self).config },
                ..*old(self)
            }),
    {
        match self.members.get(caller) {
            Some(m) => {
                if m.role != Role::Owner {
                    return Err(TreasuryError::Unauthorized);
                }
            },
            None => {
                return Err(TreasuryError::MemberNotFound);
            },
        }
        if threshold == 0 || threshold > self.config.total_signers {
            return Err(TreasuryError::InvalidThreshold);
        }
        self.config.threshold = threshold;
        self.config.proposal_timeout = proposal_timeout;
        self.config.max_pending_proposals = max_pending_proposals;
        Ok(())
    }

    /// Whether `a` is an active member (every role may sign).
    pub open spec fn is_signer(&self, a: u64) -> bool {
        self.members@.contains_key(a) && self.members@[a].active
    }

    /// What a new proposal looks like.
    pub open spec fn proposal_spec(
        &self,
        id: u64,
        proposer: u64,
        tx_type: TransactionType,
        target: Option<u64>,
        amount: Option<i128>,
        destination: Option<u64>,
        function: Option<String>,
        args: Option<TxArgs>,
        description: String,
        required_role: Role,
        now: u64,
    ) -> Transaction {
        Transaction {
            id,
            proposer,
            transaction_type: tx_type,
            status: TransactionStatus::Pending,
            target,
            amount,
            destination,
            function,
            args,
            signatures: self.transactions@[id].signatures,
            created_at: now,
            expires_at: (now + self.config.proposal_timeout) as u64,
            executed_at: None,
            description,
            required_role,
        }
    }

    /// Everything that a proposal leaves alone, besides the configuration and
    /// the members, is as before.
    pub open spec fn same_but_proposals(&self, other: &Self) -> bool {
        &&& self.member_list@ == other.member_list@
        &&& self.history@ == other.history@
        &&& self.tx_count == other.tx_count
        &&& self.emergency == other.emergency
        &&& self.last_emergency_at == other.last_emergency_at
    }

    /// Whether the proposal arithmetic stays within range.
    pub open spec fn can_propose(&self, now: u64) -> bool {
        &&& self.next_tx_id < u64::MAX
        &&& now + self.config.proposal_timeout <= u64::MAX
    }

    fn create_transaction(
        &mut self,
        proposer: u64,
        tx_type: TransactionType,
        target: Option<u64>,
        amount: Option<i128>,
        destination: Option<u64>,
        function: Option<String>,
        args: Option<TxArgs>,
        description: String,
        required_role: Role,
        now: u64,
    ) -> (r: Result<u64, TreasuryError>)
        requires
            old(self).can_propose(now),
        ensures
            r is Err <==> old(self).pending@.len() >= old(self).config.max_pending_proposals,
            r is Err ==> r == Err::<u64, TreasuryError>(TreasuryError::TooManyPendingProposals) && *final(self) == *old(self),
            r matches Ok(id) ==> {
                &&& id == old(self).next_tx_id + 1
                &&& final(self).next_tx_id == id
                &&& final(self).transactions@.dom() == old(self).transactions@.dom().insert(id)
                &&& forall|k: u64| k != id && #[trigger] old(self).transactions@.contains_key(k) ==> final(self).transactions@[k] == old(self).transactions@[k]
                &&& final(self).transactions@[id] == final(self).proposal_spec(id, proposer, tx_type, target, amount, destination, function, args, description, required_role, now)
                &&& final(self).transactions@[id].signatures@ == Seq::<Signature>::empty()
                &&& final(self).pending@ == old(self).pending@.push(id)
                &&& final(self).config == old(self).config
                &&& final(self).members@ == old(self).members@
                &&& final(self).member_list@ == old(self).member_list@
                &&& final(self).history@ == old(self).history@
                &&& final(self).tx_count == old(self).tx_count
                &&& final(self).emergency == old(self).emergency
                &&& final(self).last_emergency_at == old(self).last_emergency_at
            },
    {
        if self.pending.len() as u64 >= self.config.max_pending_proposals as u64 {
            return Err(TreasuryError::TooManyPendingProposals);
        }
        let id = self.next_tx_id + 1;
        self.next_tx_id = id;
        let tx = Transaction {
            id,
            proposer,
            transaction_type: tx_type,
            status: TransactionStatus::Pending,
            target,
            amount,
            destination,
            function,
            args,
            signatures: Vec::new(),
            created_at: now,
            expires_at: now + self.config.proposal_timeout,
            executed_at: None,
            description,
            required_role,
        };
        self.transactions.insert(id, tx);
        self.pending.push(id);
        assert(self.transactions@.dom() =~= old(self).transactions@.dom().insert(id));
        Ok(id)
    }

    /// Proposes moving `amount` of `token` to `destination` at time `now`
    /// (`proposer` has authorised and must be an active member).
    pub fn propose_transfer(&mut self, proposer: u64, token: u64, destination: u64, amount: i128, description: String, now: u64) -> (r: Result<u64, TreasuryError>)
        requires
            old(self).can_propose(now),
        ensures
            r is Err ==> *final(self) == *old(self),
            !old(self).members@.contains_key(proposer) ==> r == Err::<u64, TreasuryError>(TreasuryError::MemberNotFound),
            old(self).members@.contains_key(proposer) && !old(self).members@[proposer].active ==> r == Err::<u64, TreasuryError>(TreasuryError::Unauthorized),
            old(self).is_signer(proposer) && amount <= 0 ==> r == Err::<u64, TreasuryError>(TreasuryError::InvalidParameters),
            old(self).is_signer(proposer) && amount > 0 && old(self).pending@.len() >= old(self).config.max_pending_proposals ==> r == Err::<u64, TreasuryError>(TreasuryError::TooManyPendingProposals),
            r is Ok <==> (old(self).is_signer(proposer) && amount > 0 && old(self).pending@.len() < old(self).config.max_pending_proposals),
            r matches Ok(id) ==> {
                &&& id == old(self).next_tx_id + 1
                &&& final(self).next_tx_id == id
                &&& final(self).pending@ == old(self).pending@.push(id)
                &&& final(self).transactions@.dom() == old(self).transactions@.dom().insert(id)
                &&& forall|k: u64| k != id && #[trigger] old(self).transactions@.contains_key(k) ==> final(self).transactions@[k] == old(self).transactions@[k]
                &&& final(self).transactions@[id] == final(self).proposal_spec(id, proposer, TransactionType::TokenTransfer, Some(token), Some(amount), Some(destination), None, None, description, Role::Signer, now)
                &&& final(self).transactions@[id].signatures@ == Seq::<Signature>::empty()
                &&& final(self).members@ == old(self).members@
                &&& final(self).config == old(self).config
                &&& final(self).same_but_proposals(old(self))
            },
    {
        self.require_signer(proposer)?;
        if amount <= 0 {
            return Err(TreasuryError::InvalidParameters);
        }
        self.create_transaction(proposer, TransactionType::TokenTransfer, Some(token), Some(amount), Some(destination), None, None, description, Role::Signer, now)
    }

    /// Proposes calling `function` on `contract` with `args` (opaque to the
    /// treasury) at time `now` (`proposer` has authorised).
    pub fn propose_contract_call(&mut self, proposer: u64, contract: u64, function: String, args: Vec<u8>, description: String, now: u64) -> (r: Result<u64, TreasuryError>)
        requires
            old(self).can_propose(now),
        ensures
            r is Err ==> *final(self) == *old(self),
            !old(self).members@.contains_key(proposer) ==> r == Err::<u64, TreasuryError>(TreasuryError::MemberNotFound),
            old(self).members@.contains_key(proposer) && !old(self).members@[proposer].active ==> r == Err::<u64, TreasuryError>(TreasuryError::Unauthorized),
            r is Ok <==> (old(self).is_signer(proposer) && old(self).pending@.len() < old(self).config.max_pending_proposals),
            r matches Ok(id) ==> {
                &&& id == old(self).next_tx_id + 1
                &&& final(self).pending@ == old(self).pending@.push(id)
                &&& final(self).transactions@.dom() == old(self).transactions@.dom().insert(id)
                &&& forall|k: u64| k != id && #[trigger] old(self).transactions@.contains_key(k) ==> final(self).transactions@[k] == old(self).transactions@[k]
                &&& final(self).transactions@[id] == final(self).proposal_spec(id, proposer, TransactionType::ContractCall, Some(contract), None, None, Some(function), Some(TxArgs::Call(args)), description, Role::Signer, now)
                &&& final(self).transactions@[id].signatures@ == Seq::<Signature>::empty()
                &&& final(self).members@ == old(self).members@
                &&& final(self).config == old(self).config
                &&& final(self).same_but_proposals(old(self))
            },
    {
        self.require_signer(proposer)?;
        self.create_transaction(proposer, TransactionType::ContractCall, Some(contract), None, None, Some(function), Some(TxArgs::Call(args)), description, Role::Signer, now)
    }

    /// Proposes a membership change (`proposer`, an admin or owner, has
    /// authorised); signing it needs at least the admin role.
    pub fn propose_signer_management(&mut self, proposer: u64, action: SignerAction, target: u64, role: Option<Role>, description: String, now: u64) -> (r: Result<u64, TreasuryError>)
        requires
            old(self).can_propose(now),
        ensures
            r is Err ==> *final(self) == *old(self),
            !old(self).members@.contains_key(proposer) ==> r == Err::<u64, TreasuryError>(TreasuryError::MemberNotFound),
            old(self).members@.contains_key(proposer) && old(self).members@[proposer].role == Role::Signer ==> r == Err::<u64, TreasuryError>(TreasuryError::InsufficientRole),
            r is Ok <==> (old(self).members@.contains_key(proposer) && old(self).members@[proposer].role != Role::Signer && old(self).pending@.len() < old(self).config.max_pending_proposals),
            r matches Ok(id) ==> {
                &&& id == old(self).next_tx_id + 1
                &&& final(self).pending@ == old(self).pending@.push(id)
                &&& final(self).transactions@.dom() == old(self).transactions@.dom().insert(id)
                &&& forall|k: u64| k != id && #[trigger] old(self).transactions@.contains_key(k) ==> final(self).transactions@[k] == old(self).transactions@[k]
                &&& final(self).transactions@[id].transaction_type == TransactionType::SignerManagement
                &&& final(self).transactions@[id].required_role == Role::Admin
                &&& final(self).transactions@[id].args == Some(TxArgs::Manage { action, target, role })
                &&& final(self).transactions@[id].function.unwrap()@ == "manage_signer"@
                &&& final(self).transactions@[id] == final(self).proposal_spec(id, proposer, TransactionType::SignerManagement, None, None, None, final(self).transactions@[id].function, Some(TxArgs::Manage { action, target, role }), description, Role::Admin, now)
                &&& final(self).transactions@[id].signatures@ == Seq::<Signature>::empty()
                &&& final(self).members@ == old(self).members@
                &&& final(self).config == old(self).config
                &&& final(self).same_but_proposals(old(self))
            },
    {
        match self.members.get(proposer) {
            Some(m) => {
                if m.role != Role::Admin && m.role != Role::Owner {
                    return Err(TreasuryError::InsufficientRole);
                }
            },
            None => {
                return Err(TreasuryError::MemberNotFound);
            },
        }
        let name = "manage_signer".to_string();
        self.create_transaction(proposer, TransactionType::SignerManagement, None, None, None, Some(name), Some(TxArgs::Manage { action, target, role }), description, Role::Admin, now)
    }

    fn require_signer(&self, a: u64) -> (r: Result<(), TreasuryError>)
        ensures
            r == (if !self.members@.contains_key(a) {
                Err(TreasuryError::MemberNotFound)
            } else if !self.members@[a].active {
                Err(TreasuryError::Unauthorized)
            } else {
                Ok(())
            }),
    {
        match self.members.get(a) {
            Some(m) => {
                if !m.active {
                    Err(TreasuryError::Unauthorized)
                } else {
                    Ok(())
                }
            },
            None => Err(TreasuryError::MemberNotFound),
        }
    }

    fn has_signature(sigs: &Vec<Signature>, s: u64) -> (b: bool)
        ensures
            b == signed_by(sigs@, s),
    {
        let mut i: usize = 0;
        while i < sigs.len()
            invariant
                i <= sigs@.len(),
                forall|j: int| 0 <= j < i ==> #[trigger] sigs@[j].signer != s,
            decreases sigs@.len() - i,
        {
            if sigs[i].signer == s {
                return true;
            }
            i = i + 1;
        }
        false
    }

    /// Whether `signer` has signed transaction `tx_id`.
    pub fn has_signer_signed(&self, tx_id: u64, signer: u64) -> (b: bool)
        ensures
            b == (self.transactions@.contains_key(tx_id) && signed_by(self.transactions@[tx_id].signatures@, signer)),
    {
        match self.transactions.get(tx_id) {
            Some(t) => Self::has_signature(&t.signatures, signer),
            None => false,
        }
    }

    /// The outcome of `sign_transaction`, decided on the state before the call.
    pub open spec fn sign_check(&self, signer: u64, tx_id: u64, now: u64) -> Result<(), TreasuryError> {
        if !self.transactions@.contains_key(tx_id) {
            Err(TreasuryError::TransactionNotFound)
        } else if self.transactions@[tx_id].status != TransactionStatus::Pending {
            Err(TreasuryError::AlreadyExecuted)
        } else if now > self.transactions@[tx_id].expires_at {
            Err(TreasuryError::TransactionExpired)
        } else if !self.members@.contains_key(signer) {
            Err(TreasuryError::MemberNotFound)
        } else if !self.members@[signer].active {
            Err(TreasuryError::Unauthorized)
        } else if role_level_spec(self.members@[signer].role) < role_level_spec(self.transactions@[tx_id].required_role) {
            Err(TreasuryError::InsufficientRole)
        } else if signed_by(self.transactions@[tx_id].signatures@, signer) {
            Err(TreasuryError::AlreadySigned)
        } else {
            Ok(())
        }
    }

    /// Adds `signer`'s signature to a pending transaction at time `now`
    /// (`signer` has authorised); it becomes approved once the signatures
    /// reach the threshold.
    pub fn sign_transaction(&mut self, signer: u64, tx_id: u64, now: u64) -> (r: Result<(), TreasuryError>)
        ensures
            r == old(self).sign_check(signer, tx_id, now),
            r is Err ==> *final(self) == *old(self),
            r is Ok ==> {
                let t = old(self).transactions@[tx_id];
                let sigs = t.signatures@.push(Signature { signer, timestamp: now });
                &&& final(self).transactions@.dom() == old(self).transactions@.dom()
                &&& forall|k: u64| k != tx_id && #[trigger] old(self).transactions@.contains_key(k) ==> final(self).transactions@[k] == old(self).transactions@[k]
                &&& final(self).transactions@[tx_id].signatures@ == sigs
                &&& final(self).transactions@[tx_id].status == (if sigs.len() >= old(self).config.threshold { TransactionStatus::Approved } else { TransactionStatus::Pending })
                &&& final(self).transactions@[tx_id] == (Transaction {
                    signatures: final(self).transactions@[tx_id].signatures,
                    status: final(self).transactions@[tx_id].status,
                    ..t
                })
                &&& final(self).same_but_transactions(old(self))
            },
    {
        let (status, expires_at, required) = match self.transactions.get(tx_id) {
            Some(t) => (t.status, t.expires_at, t.required_role),
            None => {
                return Err(TreasuryError::TransactionNotFound);
            },
        };
        if status != TransactionStatus::Pending {
            return Err(TreasuryError::AlreadyExecuted);
        }
        if now > expires_at {
            return Err(TreasuryError::TransactionExpired);
        }
        let member = match self.members.get(signer) {
            Some(m) => *m,
            None => {
                return Err(TreasuryError::MemberNotFound);
            },
        };
        if !member.active {
            return Err(TreasuryError::Unauthorized);
        }
        if Self::role_level(&member.role) < Self::role_level(&required) {
            return Err(TreasuryError::InsufficientRole);
        }
        let already = match self.transactions.get(tx_id) {
            Some(t) => Self::has_signature(&t.signatures, signer),
            None => false,
        };
        if already {
            return Err(TreasuryError::AlreadySigned);
        }
        let mut tx = self.transactions.remove(tx_id).unwrap();
        tx.signatures.push(Signature { signer, timestamp: now });
        if tx.signatures.len() as u64 >= self.config.threshold as u64 {
            tx.status = TransactionStatus::Approved;
        }
        self.transactions.insert(tx_id, tx);
        assert(self.transactions@.dom() =~= old(self).transactions@.dom());
        Ok(())
    }

    pub open spec fn same_but_transactions(&self, other: &Self) -> bool {
        &&& self.config == other.config
        &&& self.members@ == other.members@
        &&& self.member_list@ == other.member_list@
        &&& self.next_tx_id == other.next_tx_id
        &&& self.history@ == other.history@
        &&& self.tx_count == other.tx_count
        &&& self.emergency == other.emergency
        &&& self.last_emergency_at == other.last_emergency_at
        &&& self.pending@ == other.pending@
    }

    /// The outcome of the checks `execute_transaction` makes before acting.
    pub open spec fn execute_check(&self, executor: u64, tx_id: u64) -> Result<(), TreasuryError> {
        if !self.members@.contains_key(executor) {
            Err(TreasuryError::MemberNotFound)
        } else if !self.members@[executor].active {
            Err(TreasuryError::Unauthorized)
        } else if !self.transactions@.contains_key(tx_id) {
            Err(TreasuryError::TransactionNotFound)
        } else if self.transactions@[tx_id].status != TransactionStatus::Approved && self.transactions@[tx_id].status != TransactionStatus::Pending {
            Err(TreasuryError::NotApproved)
        } else if self.transactions@[tx_id].status == TransactionStatus::Pending && self.transactions@[tx_id].signatures@.len() < self.config.threshold {
            Err(TreasuryError::ThresholdNotReached)
        } else {
            Ok(())
        }
    }

    /// The outcome of the steps of `execute_transaction` after its checks:
    /// the fields the transaction type needs must be present, and a
    /// membership change must be allowed to the executor.
    pub open spec fn execute_effect_check(&self, executor: u64, tx_id: u64, now: u64) -> Result<(), TreasuryError> {
        let t = self.transactions@[tx_id];
        match t.transaction_type {
            TransactionType::TokenTransfer => if t.target is None || t.destination is None || t.amount is None {
                Err(TreasuryError::InvalidParameters)
            } else {
                Ok(())
            },
            TransactionType::ContractCall => if t.target is None || t.function is None {
                Err(TreasuryError::InvalidParameters)
            } else {
                Ok(())
            },
            TransactionType::SignerManagement => match t.args {
                Some(TxArgs::Manage { action, target, role }) => match action {
                    SignerAction::Add => match role {
                        Some(r) => self.add_member_check(executor, target, r),
                        None => Err(TreasuryError::InvalidParameters),
                    },
                    SignerAction::Remove => self.remove_member_check(executor, target),
                    SignerAction::UpdateRole => match role {
                        Some(r) => self.update_role_check(executor, target, r),
                        None => Err(TreasuryError::InvalidParameters),
                    },
                    SignerAction::Other => Ok(()),
                },
                _ => Err(TreasuryError::InvalidParameters),
            },
            _ => Ok(()),
        }
    }

    /// The members, member list and configuration after a membership change
    /// is executed, as `add_member`, `remove_member` and
    /// `update_member_role` make them (unchanged for other actions).
    pub open spec fn members_after(&self, tx_id: u64, now: u64) -> (Map<u64, Member>, Seq<u64>, TreasuryConfig) {
        let t = self.transactions@[tx_id];
        match t.args {
            Some(TxArgs::Manage { action, target, role }) => match action {
                SignerAction::Add => (
                    self.members@.insert(target, Member { address: target, role: role->0, added_at: now, active: true }),
                    self.member_list@.push(target),
                    TreasuryConfig { total_signers: (self.config.total_signers + 1) as u32, ..self.config },
                ),
                SignerAction::Remove => {
                    let n = (self.config.total_signers - 1) as u32;
                    (
                        self.members@.remove(target),
                        self.member_list@.filter(|a: u64| a != target),
                        TreasuryConfig {
                            total_signers: n,
                            threshold: if self.config.threshold > n { n } else { self.config.threshold },
                            ..self.config
                        },
                    )
                },
                SignerAction::UpdateRole => (
                    self.members@.insert(target, Member { role: role->0, ..self.members@[target] }),
                    self.member_list@,
                    self.config,
                ),
                SignerAction::Other => (self.members@, self.member_list@, self.config),
            },
            _ => (self.members@, self.member_list@, self.config),
        }
    }

    /// Executes an approved transaction (or a pending one with enough
    /// signatures) at time `now` (`executor`, an active member, has
    /// authorised). A transfer or contract call is handed back as the action
    /// to perform; a membership change is applied with the executor as its
    /// caller and fails the execution when it is refused. The transaction is
    /// marked executed, leaves the pending list and is recorded in the history.
    pub fn execute_transaction(&mut self, executor: u64, tx_id: u64, now: u64) -> (r: Result<TreasuryAction, TreasuryError>)
        requires
            1 <= old(self).config.total_signers < u32::MAX,
            old(self).tx_count < u64::MAX,
        ensures
            old(self).execute_check(executor, tx_id) is Err ==> r == match old(self).execute_check(executor, tx_id) {
                Err(e) => Err::<TreasuryAction, TreasuryError>(e),
                Ok(_) => Err::<TreasuryAction, TreasuryError>(TreasuryError::NotApproved),
            },
            old(self).execute_check(executor, tx_id) is Ok ==> {
                &&& (r is Ok <==> old(self).execute_effect_check(executor, tx_id, now) is Ok)
                &&& (old(self).execute_effect_check(executor, tx_id, now) matches Err(e) ==> r == Err::<TreasuryAction, TreasuryError>(e))
            },
            r is Err ==> *final(self) == *old(self),
            r is Ok && old(self).transactions@[tx_id].transaction_type == TransactionType::SignerManagement ==> {
                &&& final(self).members@ == old(self).members_after(tx_id, now).0
                &&& final(self).member_list@ == old(self).members_after(tx_id, now).1
                &&& final(self).config == old(self).members_after(tx_id, now).2
            },
            r is Ok ==> {
                let t = old(self).transactions@[tx_id];
                &&& old(self).execute_check(executor, tx_id) is Ok
                &&& final(self).transactions@.dom() == old(self).transactions@.dom()
                &&& forall|k: u64| k != tx_id && #[trigger] old(self).transactions@.contains_key(k) ==> final(self).transactions@[k] == old(self).transactions@[k]
                &&& final(self).transactions@[tx_id].status == TransactionStatus::Executed
                &&& final(self).transactions@[tx_id].executed_at == Some(now)
                &&& final(self).transactions@[tx_id].signatures == t.signatures
                &&& final(self).transactions@[tx_id].transaction_type == t.transaction_type
                &&& final(self).pending@ == old(self).pending@.filter(|id: u64| id != tx_id)
                &&& final(self).history@.contains_key(tx_id)
                &&& final(self).history@[tx_id].id == tx_id
                &&& final(self).history@[tx_id].status == TransactionStatus::Executed
                &&& final(self).history@[tx_id].proposer == t.proposer
                &&& final(self).history@[tx_id].transaction_type == t.transaction_type
                &&& final(self).history@[tx_id].executed_at == now
                &&& final(self).history@[tx_id].signers@ == t.signatures@.map_values(|s: Signature| s.signer)
                &&& final(self).history@.remove(tx_id) == old(self).history@.remove(tx_id)
                &&& final(self).tx_count == old(self).tx_count + 1
                &&& final(self).emergency == old(self).emergency
                &&& final(self).next_tx_id == old(self).next_tx_id
                &&& (t.transaction_type != TransactionType::SignerManagement ==> {
                    &&& final(self).members@ == old(self).members@
                    &&& final(self).member_list@ == old(self).member_list@
                    &&& final(self).config == old(self).config
                })
            },
            r matches Ok(a) ==> {
                let t = old(self).transactions@[tx_id];
                match t.transaction_type {
                    TransactionType::TokenTransfer => a == TreasuryAction::Transfer { token: t.target.unwrap(), to: t.destination.unwrap(), amount: t.amount.unwrap() },
                    TransactionType::ContractCall => a matches TreasuryAction::Invoke { contract, function, args } && Some(contract) == t.target && Some(function) == t.function
                        && (t.args matches Some(TxArgs::Call(v)) ==> args@ == v@)
                        && (!(t.args matches Some(TxArgs::Call(_))) ==> args@ == Seq::<u8>::empty()),
                    _ => a == TreasuryAction::Nothing,
                }
            },
    {
        self.require_signer(executor)?;
        let (status, nsigs, tx_type) = match self.transactions.get(tx_id) {
            Some(t) => (t.status, t.signatures.len(), t.transaction_type),
            None => {
                return Err(TreasuryError::TransactionNotFound);
            },
        };
        if status != TransactionStatus::Approved && status != TransactionStatus::Pending {
            return Err(TreasuryError::NotApproved);
        }
        if status == TransactionStatus::Pending {
            if (nsigs as u64) < self.config.threshold as u64 {
                return Err(TreasuryError::ThresholdNotReached);
            }
        }
        let action = match tx_type {
            TransactionType::TokenTransfer => {
                let t = self.transactions.get(tx_id).unwrap();
                let token = match t.target {
                    Some(x) => x,
                    None => {
                        return Err(TreasuryError::InvalidParameters);
                    },
                };
                let to = match t.destination {
                    Some(x) => x,
                    None => {
                        return Err(TreasuryError::InvalidParameters);
                    },
                };
                let amount = match t.amount {
                    Some(x) => x,
                    None => {
                        return Err(TreasuryError::InvalidParameters);
                    },
                };
                TreasuryAction::Transfer { token, to, amount }
            },
            TransactionType::ContractCall => {
                let t = self.transactions.get(tx_id).unwrap();
                let contract = match t.target {
                    Some(x) => x,
                    None => {
                        return Err(TreasuryError::InvalidParameters);
                    },
                };
                let function = match &t.function {
                    Some(f) => f.clone(),
                    None => {
                        return Err(TreasuryError::InvalidParameters);
                    },
                };
                let args = match &t.args {
                    Some(TxArgs::Call(v)) => copy_vec(v),
                    _ => Vec::new(),
                };
                TreasuryAction::Invoke { contract, function, args }
            },
            TransactionType::SignerManagement => {
                let (action, target, role) = match &self.transactions.get(tx_id).unwrap().args {
                    Some(TxArgs::Manage { action, target, role }) => (*action, *target, *role),
                    _ => {
                        return Err(TreasuryError::InvalidParameters);
                    },
                };
                match action {
                    SignerAction::Add => {
                        let role = match role {
                            Some(x) => x,
                            None => {
                                return Err(TreasuryError::InvalidParameters);
                            },
                        };
                        self.add_member(executor, target, role, now)?;
                    },
                    SignerAction::Remove => {
                        self.remove_member(executor, target)?;
                    },
                    SignerAction::UpdateRole => {
                        let role = match role {
                            Some(x) => x,
                            None => {
                                return Err(TreasuryError::InvalidParameters);
                            },
                        };
                        self.update_member_role(executor, target, role)?;
                    },
                    SignerAction::Other => {},
                }
                TreasuryAction::Nothing
            },
            _ => TreasuryAction::Nothing,
        };
        let mut tx = self.transactions.remove(tx_id).unwrap();
        tx.status = TransactionStatus::Executed;
        tx.executed_at = Some(now);
        let mut signers: Vec<u64> = Vec::new();
        let mut i: usize = 0;
        while i < tx.signatures.len()
            invariant
                i <= tx.signatures@.len(),
                signers@ == tx.signatures@.subrange(0, i as int).map_values(|s: Signature| s.signer),
            decreases tx.signatures@.len() - i,
        {
            signers.push(tx.signatures[i].signer);
            i = i + 1;
            assert(signers@ =~= tx.signatures@.subrange(0, i as int).map_values(|s: Signature| s.signer));
        }
        assert(tx.signatures@.subrange(0, tx.signatures@.len() as int) =~= tx.signatures@);
        let record = TransactionRecord {
            id: tx_id,
            transaction_type: tx.transaction_type,
            status: TransactionStatus::Executed,
            proposer: tx.proposer,
            signers,
            executed_at: now,
        };
        self.transactions.insert(tx_id, tx);
        self.pending = without_u64(&self.pending, tx_id);
        self.history.insert(tx_id, record);
        self.tx_count = self.tx_count + 1;
        assert(self.transactions@.dom() =~= old(self).transactions@.dom());
        assert(self.history@.remove(tx_id) =~= old(self).history@.remove(tx_id));
        Ok(action)
    }

    /// Rejects a pending transaction; only its proposer may (and has authorised).
    pub fn reject_transaction(&mut self, rejector: u64, tx_id: u64) -> (r: Result<(), TreasuryError>)
        ensures
            r == (if !old(self).transactions@.contains_key(tx_id) {
                Err(TreasuryError::TransactionNotFound)
            } else if old(self).transactions@[tx_id].proposer != rejector {
                Err(TreasuryError::Unauthorized)
            } else if old(self).transactions@[tx_id].status != TransactionStatus::Pending {
                Err(TreasuryError::AlreadyExecuted)
            } else {
                Ok(())
            }),
            r is Err ==> *final(self) == *old(self),
            r is Ok ==> {
                &&& final(self).transactions@ == old(self).transactions@.insert(tx_id, Transaction { status: TransactionStatus::Rejected, ..old(self).transactions@[tx_id] })
                &&& final(self).pending@ == old(self).pending@.filter(|id: u64| id != tx_id)
                &&& final(self).config == old(self).config
                &&& final(self).members@ == old(self).members@
                &&& final(self).history@ == old(self).history@
            },
    {
        let (proposer, status) = match self.transactions.get(tx_id) {
            Some(t) => (t.proposer, t.status),
            None => {
                return Err(TreasuryError::TransactionNotFound);
            },
        };
        if proposer != rejector {
            return Err(TreasuryError::Unauthorized);
        }
        if status != TransactionStatus::Pending {
            return Err(TreasuryError::AlreadyExecuted);
        }
        let mut tx = self.transactions.remove(tx_id).unwrap();
        tx.status = TransactionStatus::Rejected;
        self.transactions.insert(tx_id, tx);
        self.pending = without_u64(&self.pending, tx_id);
        assert(self.transactions@ =~= old(self).transactions@.insert(tx_id, Transaction { status: TransactionStatus::Rejected, ..old(self).transactions@[tx_id] }));
        Ok(())
    }

    /// Starts an emergency recovery at time `now` (`caller`, an owner, has
    /// authorised), once the cooldown since the last one has passed.
    pub fn activate_emergency_recovery(&mut self, caller: u64, reason: String, now: u64) -> (r: Result<(), TreasuryError>)
        requires
            old(self).last_emergency_at + old(self).config.emergency_cooldown <= u64::MAX,
        ensures
            r == (if !old(self).members@.contains_key(caller) {
                Err(TreasuryError::MemberNotFound)
            } else if old(self).members@[caller].role != Role::Owner {
                Err(TreasuryError::Unauthorized)
            } else if !old(self).config.emergency_recovery_enabled {
                Err(TreasuryError::EmergencyNotAvailable)
            } else if now < old(self).last_emergency_at + old(self).config.emergency_cooldown {
                Err(TreasuryError::EmergencyCooldownActive)
            } else {
                Ok(())
            }),
            r is Err ==> *final(self) == *old(self),
            r is Ok ==> {
                &&& final(self).emergency matches Some(e) && e.activated_at == now && e.activated_by == caller && e.reason == reason
                    && e.new_owner == caller && !e.recovery_approved && e.approvals@ == seq![caller]
                &&& final(self).last_emergency_at == now
                &&& final(self).config == old(self).config
                &&& final(self).members@ == old(self).members@
                &&& final(self).same_but_emergency(old(self))
            },
    {
        match self.members.get(caller) {
            Some(m) => {
                if m.role != Role::Owner {
                    return Err(TreasuryError::Unauthorized);
                }
            },
            None => {
                return Err(TreasuryError::MemberNotFound);
            },
        }
        if !self.config.emergency_recovery_enabled {
            return Err(TreasuryError::EmergencyNotAvailable);
        }
        if now < self.last_emergency_at + self.config.emergency_cooldown {
            return Err(TreasuryError::EmergencyCooldownActive);
        }
        let mut approvals = Vec::new();
        approvals.push(caller);
        self.emergency = Some(EmergencyState { activated_at: now, activated_by: caller, reason, new_owner: caller, recovery_approved: false, approvals });
        self.last_emergency_at = now;
        Ok(())
    }

    pub open spec fn same_but_emergency(&self, other: &Self) -> bool {
        &&& self.transactions@ == other.transactions@
        &&& self.member_list@ == other.member_list@
        &&& self.next_tx_id == other.next_tx_id
        &&& self.history@ == other.history@
        &&& self.tx_count == other.tx_count
        &&& self.pending@ == other.pending@
    }

    /// The approvals of the emergency recovery once `caller`'s is counted.
    pub open spec fn approvals_with(&self, caller: u64) -> Seq<u64> {
        let a = self.emergency.unwrap().approvals@;
        if a.contains(caller) { a } else { a.push(caller) }
    }

    /// Whether `caller`'s approval completes the emergency recovery.
    pub open spec fn recovery_completes(&self, caller: u64) -> bool {
        self.approvals_with(caller).len() >= required_approvals(owner_count(self.member_list@, self.members@))
    }

    /// Approves an emergency recovery (`caller`, an owner other than the
    /// activator, has authorised). The approval is recorded; once two thirds
    /// of the active owners (at least one) have approved, the activator
    /// counting, the recovery completes: `new_owner` becomes the treasury
    /// owner and an active owner member, added at time `now` if new. Returns
    /// whether the recovery completed.
    pub fn execute_emergency_recovery(&mut self, caller: u64, new_owner: u64, now: u64) -> (r: Result<bool, TreasuryError>)
        ensures
            r == (if old(self).emergency is None {
                Err(TreasuryError::EmergencyNotAvailable)
            } else if old(self).emergency.unwrap().recovery_approved {
                Err(TreasuryError::AlreadyExecuted)
            } else if !old(self).members@.contains_key(caller) {
                Err(TreasuryError::MemberNotFound)
            } else if old(self).members@[caller].role != Role::Owner {
                Err(TreasuryError::Unauthorized)
            } else if caller == old(self).emergency.unwrap().activated_by {
                Err(TreasuryError::Unauthorized)
            } else {
                Ok(old(self).recovery_completes(caller))
            }),
            r is Err ==> *final(self) == *old(self),
            r matches Ok(done) ==> {
                let e = old(self).emergency.unwrap();
                &&& final(self).emergency matches Some(f) && f.approvals@ == old(self).approvals_with(caller)
                    && f.activated_at == e.activated_at && f.activated_by == e.activated_by && f.reason == e.reason
                    && f.recovery_approved == done && f.new_owner == (if done { new_owner } else { e.new_owner })
                &&& done ==> final(self).config == (TreasuryConfig { owner: new_owner, ..old(self).config })
                &&& done ==> final(self).members@ == (if old(self).members@.contains_key(new_owner) {
                    old(self).members@.insert(new_owner, Member { role: Role::Owner, active: true, ..old(self).members@[new_owner] })
                } else {
                    old(self).members@.insert(new_owner, Member { address: new_owner, role: Role::Owner, added_at: now, active: true })
                })
                &&& done ==> final(self).member_list@ == (if old(self).members@.contains_key(new_owner) {
                    old(self).member_list@
                } else {
                    old(self).member_list@.push(new_owner)
                })
                &&& !done ==> final(self).config == old(self).config && final(self).members@ == old(self).members@
                    && final(self).member_list@ == old(self).member_list@
                &&& final(self).last_emergency_at == old(self).last_emergency_at
                &&& final(self).transactions@ == old(self).transactions@
                &&& final(self).pending@ == old(self).pending@
            },
    {
        let (approved, activated_by) = match &self.emergency {
            Some(e) => (e.recovery_approved, e.activated_by),
            None => {
                return Err(TreasuryError::EmergencyNotAvailable);
            },
        };
        if approved {
            return Err(TreasuryError::AlreadyExecuted);
        }
        match self.members.get(caller) {
            Some(m) => {
                if m.role != Role::Owner {
                    return Err(TreasuryError::Unauthorized);
                }
            },
            None => {
                return Err(TreasuryError::MemberNotFound);
            },
        }
        if caller == activated_by {
            return Err(TreasuryError::Unauthorized);
        }
        let owners = self.count_owners() as u128;
        let two_thirds = owners * 2 / 3;
        let required: u128 = if two_thirds >= 1 { two_thirds } else { 1 };
        let ghost old_self = *old(self);
        let mut e = self.emergency.take().unwrap();
        if !contains_u64(&e.approvals, caller) {
            e.approvals.push(caller);
        }
        let done = e.approvals.len() as u128 >= required;
        proof {
            assert(e.approvals@ == old_self.approvals_with(caller));
            assert(required == required_approvals(owner_count(old_self.member_list@, old_self.members@)));
        }
        if done {
            self.config.owner = new_owner;
            match self.members.remove(new_owner) {
                None => {
                    self.members.insert(new_owner, Member { address: new_owner, role: Role::Owner, added_at: now, active: true });
                    self.member_list.push(new_owner);
                },
                Some(m) => {
                    self.members.insert(new_owner, Member { role: Role::Owner, active: true, ..m });
                    assert(self.members@ =~= old(self).members@.insert(new_owner, Member { role: Role::Owner, active: true, ..old(self).members@[new_owner] }));
                },
            }
            e.recovery_approved = true;
            e.new_owner = new_owner;
        }
        self.emergency = Some(e);
        Ok(done)
    }

    /// Cancels an emergency recovery that has not completed (`caller`, the
    /// activator or an owner, has authorised).
    pub fn cancel_emergency_recovery(&mut self, caller: u64) -> (r: Result<(), TreasuryError>)
        ensures
            r == (if old(self).emergency is None {
                Err(TreasuryError::EmergencyNotAvailable)
            } else if old(self).emergency.unwrap().recovery_approved {
                Err(TreasuryError::AlreadyExecuted)
            } else if !old(self).members@.contains_key(caller) {
                Err(TreasuryError::MemberNotFound)
            } else if caller != old(self).emergency.unwrap().activated_by && old(self).members@[caller].role != Role::Owner {
                Err(TreasuryError::Unauthorized)
            } else {
                Ok(())
            }),
            r is Err ==> *final(self) == *old(self),
            r is Ok ==> *final(self) == (MultisigTreasury { emergency: None, ..*old(self) }),
    {
        let (approved, activated_by) = match &self.emergency {
            Some(e) => (e.recovery_approved, e.activated_by),
            None => {
                return Err(TreasuryError::EmergencyNotAvailable);
            },
        };
        if approved {
            return Err(TreasuryError::AlreadyExecuted);
        }
        let role = match self.members.get(caller) {
            Some(m) => m.role,
            None => {
                return Err(TreasuryError::MemberNotFound);
            },
        };
        if caller != activated_by && role != Role::Owner {
            return Err(TreasuryError::Unauthorized);
        }
        self.emergency = None;
        Ok(())
    }

    pub fn get_config_info(&self) -> (c: TreasuryConfig)
        ensures
            c == self.config,
    {
        self.config
    }

    pub fn get_member_info(&self, address: u64) -> (m: Option<Member>)
        ensures
            m == (if self.members@.contains_key(address) { Some(self.members@[address]) } else { None }),
    {
        match self.members.get(address) {
            Some(m) => Some(*m),
            None => None,
        }
    }

    pub fn get_all_members(&self) -> (r: Vec<u64>)
        ensures
            r@ == self.member_list@,
    {
        copy_vec(&self.member_list)
    }

    pub fn get_transaction_info(&self, tx_id: u64) -> (r: Option<&Transaction>)
        ensures
            r == (if self.transactions@.contains_key(tx_id) { Some(&self.transactions@[tx_id]) } else { None }),
    {
        self.transactions.get(tx_id)
    }

    pub fn get_pending_transaction_ids(&self) -> (r: Vec<u64>)
        ensures
            r@ == self.pending@,
    {
        copy_vec(&self.pending)
    }

    pub fn get_transaction_record(&self, tx_id: u64) -> (r: Option<&TransactionRecord>)
        ensures
            r == (if self.history@.contains_key(tx_id) { Some(&self.history@[tx_id]) } else { None }),
    {
        self.history.get(tx_id)
    }

    pub fn get_executed_transaction_count(&self) -> (n: u64)
        ensures
            n == self.tx_count,
    {
        self.tx_count
    }

    pub fn get_emergency_info(&self) -> (e: Option<&EmergencyState>)
        ensures
            e == match self.emergency {
                Some(x) => Some(&x),
                None => None::<&EmergencyState>,
            },
    {
        match &self.emergency {
            Some(x) => Some(x),
            None => None,
        }
    }
}

} // verus!

verus! {

/// A transaction runs at most once: once executed, every further attempt
/// to execute it is refused.
pub proof fn law_no_second_execution(t: MultisigTreasury, executor: u64, tx_id: u64)
    requires
        t.transactions@.contains_key(tx_id),
        t.transactions@[tx_id].status == TransactionStatus::Executed,
    ensures
        t.execute_check(executor, tx_id) is Err,
{
}

} // verus!
