//! A bridge that carries NFTs to and from other chains: an NFT is locked
//! here, and once enough registered validators have signed it is recorded as
//! wrapped on the other side; it can later be unwrapped or bridged back.
use vstd::prelude::*;
use crate::assoc::AssocMap;
use crate::seqs::{contains_u64, copy_vec};

verus! {

#[derive(Clone, Copy, Debug, PartialEq, Eq, Structural)]
pub enum BridgeAction {
    Lock,
    Unlock,
}

/// The stages of a bridge transfer, in the order in which a transfer goes
/// through them (their numbers are 0 to 6 in this order).
#[derive(Clone, Copy, Debug, PartialEq, Eq, Structural)]
pub enum TransferStatus {
    Initiated,
    Locked,
    Verified,
    Wrapped,
    Completed,
    Cancelled,
    Failed,
}

/// The keys of the per-transfer entries the contract stores.
#[derive(Clone, Copy, Debug, PartialEq, Eq, Structural)]
pub enum TransferKey {
    Transfer(u64),
    WrappedNFT(u64),
}

#[derive(Debug)]
pub struct NFTData {
    pub contract: u64,
    pub token_id: u64,
    pub owner: u64,
    pub name: String,
    pub symbol: String,
    pub uri: String,
}

impl Clone for NFTData {
    fn clone(&self) -> (r: Self)
        ensures
            r == *self,
    {
        NFTData {
            contract: self.contract,
            token_id: self.token_id,
            owner: self.owner,
            name: self.name.clone(),
            symbol: self.symbol.clone(),
            uri: self.uri.clone(),
        }
    }
}

#[derive(Debug)]
pub struct BridgeTransfer {
    pub id: u64,
    pub action: BridgeAction,
    pub nft_data: NFTData,
    pub sender: u64,
    /// The recipient's address on the destination chain, as raw bytes.
    pub recipient: Vec<u8>,
    pub source_chain: u32,
    pub destination_chain: u32,
    pub status: TransferStatus,
    pub locked_timestamp: u64,
    pub verified_timestamp: Option<u64>,
    pub completed_timestamp: Option<u64>,
    pub fee_amount: i128,
    pub nonce: u64,
}

/// Two transfers are the same when their fields are, the recipient bytes
/// compared by content.
pub open spec fn same_transfer(a: BridgeTransfer, b: BridgeTransfer) -> bool {
    &&& a.recipient@ == b.recipient@
    &&& (BridgeTransfer { recipient: b.recipient, ..a }) == b
}

impl Clone for BridgeTransfer {
    fn clone(&self) -> (r: Self)
        ensures
            same_transfer(r, *self),
    {
        BridgeTransfer {
            id: self.id,
            action: self.action,
            nft_data: self.nft_data.clone(),
            sender: self.sender,
            recipient: copy_vec(&self.recipient),
            source_chain: self.source_chain,
            destination_chain: self.destination_chain,
            status: self.status,
            locked_timestamp: self.locked_timestamp,
            verified_timestamp: self.verified_timestamp,
            completed_timestamp: self.completed_timestamp,
            fee_amount: self.fee_amount,
            nonce: self.nonce,
        }
    }
}

#[derive(Debug)]
pub struct WrappedNFTData {
    pub transfer_id: u64,
    pub original_contract: u64,
    pub original_token_id: u64,
    pub original_chain: u32,
    pub wrapped_token_address: u64,
    pub wrapped_token_id: u64,
    pub current_owner: u64,
    pub wrapped_timestamp: u64,
    pub metadata_uri: String,
}

impl Clone for WrappedNFTData {
    fn clone(&self) -> (r: Self)
        ensures
            r == *self,
    {
        WrappedNFTData {
            transfer_id: self.transfer_id,
            original_contract: self.original_contract,
            original_token_id: self.original_token_id,
            original_chain: self.original_chain,
            wrapped_token_address: self.wrapped_token_address,
            wrapped_token_id: self.wrapped_token_id,
            current_owner: self.current_owner,
            wrapped_timestamp: self.wrapped_timestamp,
            metadata_uri: self.metadata_uri.clone(),
        }
    }
}

#[derive(Clone, Copy, Debug)]
pub struct ValidatorSignature {
    pub validator: u64,
    pub signature: [u8; 64],
}

#[derive(Clone, Copy, Debug)]
pub struct Validator {
    pub address: u64,
    pub public_key: [u8; 32],
    pub active: bool,
    pub added_timestamp: u64,
}

#[derive(Clone, Copy, Debug, PartialEq, Eq, Structural)]
pub struct BridgeConfig {
    pub admin: u64,
    pub required_signatures: u32,
    pub max_validators: u32,
    pub base_fee_bps: u32,
    pub min_fee: i128,
    pub max_fee: i128,
    pub fee_token: Option<u64>,
    pub fee_collector: u64,
    pub paused: bool,
}

#[derive(Clone, Copy, Debug, PartialEq, Eq, Structural)]
pub enum NftWrapperError {
    Unauthorized,
    InvalidTransfer,
    TransferNotFound,
    InvalidChainId,
    InvalidMetadata,
    ContractPaused,
    InsufficientSignatures,
    ValidatorNotFound,
    ValidatorAlreadyExists,
    MaxValidatorsReached,
    FeeCalculationError,
    DuplicateSignature,
}

/// The state of the bridge contract.
pub struct NftWrapperContract {
    pub admin: u64,
    pub config: BridgeConfig,
    pub paused: bool,
    /// The validator list; `None` until the first validator is added.
    pub validators: Option<Vec<Validator>>,
    pub next_transfer_id: u64,
    pub bridge_fees: i128,
    /// The id of the chain this contract runs on.
    pub chain_id: u32,
    pub transfers: AssocMap<BridgeTransfer>,
    pub wrapped: AssocMap<WrappedNFTData>,
}

/// A fee clamped first from below by `min` and then from above by `max`.
pub open spec fn clamp_fee(f: int, min: i128, max: i128) -> int {
    let lo = if f >= min { f } else { min as int };
    if lo <= max { lo } else { max as int }
}

/// The bridge fee on an amount: `base_fee_bps` basis points of it (rounded
/// toward zero), clamped to the configured minimum and maximum.
pub open spec fn bridge_fee(amount: i128, c: BridgeConfig) -> int {
    let p = amount * c.base_fee_bps;
    let f = if p >= 0 { p / 10000 } else { -((-p) / 10000) };
    clamp_fee(f, c.min_fee, c.max_fee)
}

/// Whether `a` is the address of an active validator in the list.
pub open spec fn is_active_validator(vals: Seq<Validator>, a: u64) -> bool {
    exists|j: int| 0 <= j < vals.len() && #[trigger] vals[j].address == a && vals[j].active
}

/// The signers of a list of signatures, in order.
pub open spec fn signers(sigs: Seq<ValidatorSignature>) -> Seq<u64> {
    sigs.map_values(|s: ValidatorSignature| s.validator)
}

/// The first problem met when going through the signers in order: a signer
/// seen before, or one who is not an active validator.
pub open spec fn scan_signers(s: Seq<u64>, vals: Seq<Validator>) -> Option<NftWrapperError>
    decreases s.len(),
{
    if s.len() == 0 {
        None
    } else {
        let p = s.drop_last();
        match scan_signers(p, vals) {
            Some(e) => Some(e),
            None => if p.contains(s.last()) {
                Some(NftWrapperError::DuplicateSignature)
            } else if !is_active_validator(vals, s.last()) {
                Some(NftWrapperError::ValidatorNotFound)
            } else {
                None
            },
        }
    }
}

/// Once a prefix of the signers shows a problem, the whole list shows the same.
proof fn lemma_scan_prefix(s: Seq<u64>, vals: Seq<Validator>, j: int)
    requires
        0 <= j <= s.len(),
        scan_signers(s.take(j), vals) is Some,
    ensures
        scan_signers(s, vals) == scan_signers(s.take(j), vals),
    decreases s.len(),
{
    if j < s.len() {
        assert(s.drop_last().take(j) =~= s.take(j));
        lemma_scan_prefix(s.drop_last(), vals, j);
    } else {
        assert(s.take(j) =~= s);
    }
}

/// Whether the validator list has an entry for the address.
pub open spec fn has_validator(vals: Seq<Validator>, a: u64) -> bool {
    exists|j: int| 0 <= j < vals.len() && #[trigger] vals[j].address == a
}

/// Whether some active validator in the list has the address.
fn find_active(vals: &Vec<Validator>, a: u64) -> (b: bool)
    ensures
        b == is_active_validator(vals@, a),
{
    let mut j: usize = 0;
    while j < vals.len()
        invariant
            j <= vals@.len(),
            forall|k: int| 0 <= k < j ==> !(#[trigger] vals@[k].address == a && vals@[k].active),
        decreases vals@.len() - j,
    {
        if vals[j].address == a && vals[j].active {
            return true;
        }
        j = j + 1;
    }
    false
}

/// Whether the validator list has an entry for the address.
fn find_validator(vals: &Vec<Validator>, a: u64) -> (b: bool)
    ensures
        b == has_validator(vals@, a),
{
    let mut j: usize = 0;
    while j < vals.len()
        invariant
            j <= vals@.len(),
            forall|k: int| 0 <= k < j ==> #[trigger] vals@[k].address != a,
        decreases vals@.len() - j,
    {
        if vals[j].address == a {
            return true;
        }
        j = j + 1;
    }
    false
}

/// Goes through the signatures in order and reports the first duplicate
/// signer or unknown (or inactive) validator.
fn scan_signatures(sigs: &Vec<ValidatorSignature>, vals: &Vec<Validator>) -> (r: Option<NftWrapperError>)
    ensures
        r == scan_signers(signers(sigs@), vals@),
{
    let ghost s = signers(sigs@);
    let mut seen: Vec<u64> = Vec::new();
    let mut i: usize = 0;
    while i < sigs.len()
        invariant
            i <= sigs@.len(),
            s == signers(sigs@),
            seen@ == s.take(i as int),
            scan_signers(s.take(i as int), vals@) is None,
        decreases sigs@.len() - i,
    {
        let a = sigs[i].validator;
        proof {
            assert(s.take(i + 1).drop_last() =~= s.take(i as int));
            assert(s.take(i + 1).last() == a);
        }
        if contains_u64(&seen, a) {
            proof {
                lemma_scan_prefix(s, vals@, i + 1);
            }
            return Some(NftWrapperError::DuplicateSignature);
        }
        assert(!seen@.contains(a));
        if !find_active(vals, a) {
            proof {
                lemma_scan_prefix(s, vals@, i + 1);
            }
            return Some(NftWrapperError::ValidatorNotFound);
        }
        seen.push(a);
        i = i + 1;
        assert(seen@ =~= s.take(i as int));
    }
    assert(s.take(sigs@.len() as int) =~= s);
    None
}

/// Drops every validator with the given address, the others kept in order.
fn without_validator(vals: &Vec<Validator>, a: u64) -> (r: Vec<Validator>)
    ensures
        r@ == vals@.filter(|v: Validator| v.address != a),
{
    let mut r: Vec<Validator> = Vec::new();
    let mut i: usize = 0;
    while i < vals.len()
        invariant
            i <= vals@.len(),
            r@ == vals@.subrange(0, i as int).filter(|v: Validator| v.address != a),
        decreases vals@.len() - i,
    {
        proof {
            assert(vals@.subrange(0, i + 1).drop_last() =~= vals@.subrange(0, i as int));
            reveal_with_fuel(Seq::filter, 1);
        }
        if vals[i].address != a {
            r.push(vals[i]);
        }
        i = i + 1;
    }
    assert(vals@.subrange(0, vals@.len() as int) =~= vals@);
    r
}

impl NftWrapperContract {
    /// The contract as `initialize` leaves it, with two signatures required,
    /// at most ten validators, and a fee of 50 basis points clamped to
    /// 100 000 000 .. 10 000 000 000.
    pub fn initialize(admin: u64, fee_token: Option<u64>, fee_collector: u64, _native_chain_id: u32, current_chain_id: u32) -> (c: Self)
        ensures
            c.admin == admin,
            c.config == (BridgeConfig {
                admin,
                required_signatures: 2,
                max_validators: 10,
                base_fee_bps: 50,
                min_fee: 100_000_000,
                max_fee: 10_000_000_000,
                fee_token,
                fee_collector,
                paused: false,
            }),
            !c.paused,
            c.validators is None,
            c.next_transfer_id == 1,
            c.bridge_fees == 0,
            c.chain_id == current_chain_id,
            c.transfers@ == Map::<u64, BridgeTransfer>::empty(),
            c.wrapped@ == Map::<u64, WrappedNFTData>::empty(),
    {
        NftWrapperContract {
            admin,
            config: BridgeConfig {
                admin,
                required_signatures: 2,
                max_validators: 10,
                base_fee_bps: 50,
                min_fee: 100_000_000,
                max_fee: 10_000_000_000,
                fee_token,
                fee_collector,
                paused: false,
            },
            paused: false,
            validators: None,
            next_transfer_id: 1,
            bridge_fees: 0,
            chain_id: current_chain_id,
            transfers: AssocMap::new(),
            wrapped: AssocMap::new(),
        }
    }

    /// The validators as a list (empty before the first is added).
    pub open spec fn validator_list(&self) -> Seq<Validator> {
        match self.validators {
            Some(v) => v@,
            None => Seq::empty(),
        }
    }

    /// Registers an active validator at time `now`, unless paused, already
    /// registered, or the list is full.
    pub fn add_validator(&mut self, validator_address: u64, public_key: [u8; 32], now: u64) -> (r: Result<(), NftWrapperError>)
        ensures
            r == (if old(self).paused {
                Err(NftWrapperError::ContractPaused)
            } else if has_validator(old(self).validator_list(), validator_address) {
                Err(NftWrapperError::ValidatorAlreadyExists)
            } else if old(self).validator_list().len() >= old(self).config.max_validators {
                Err(NftWrapperError::MaxValidatorsReached)
            } else {
                Ok(())
            }),
            r is Err ==> *final(self) == *old(self),
            r is Ok ==> {
                &&& final(self).validators is Some
                &&& final(self).validator_list() == old(self).validator_list().push(Validator {
                    address: validator_address,
                    public_key,
                    active: true,
                    added_timestamp: now,
                })
                &&& *final(self) == (NftWrapperContract { validators: final(self).validators, ..*old(self) })
            },
    {
        if self.paused {
            return Err(NftWrapperError::ContractPaused);
        }
        let mut vals: Vec<Validator> = match &self.validators {
            Some(v) => copy_vec(v),
            None => Vec::new(),
        };
        if find_validator(&vals, validator_address) {
            return Err(NftWrapperError::ValidatorAlreadyExists);
        }
        if vals.len() as u64 >= self.config.max_validators as u64 {
            return Err(NftWrapperError::MaxValidatorsReached);
        }
        vals.push(Validator { address: validator_address, public_key, active: true, added_timestamp: now });
        self.validators = Some(vals);
        Ok(())
    }

    /// Drops the validator with the given address from the list.
    pub fn remove_validator(&mut self, validator_address: u64) -> (r: Result<(), NftWrapperError>)
        ensures
            r == (if old(self).validators is None || !has_validator(old(self).validator_list(), validator_address) {
                Err(NftWrapperError::ValidatorNotFound)
            } else {
                Ok(())
            }),
            r is Err ==> *final(self) == *old(self),
            r is Ok ==> {
                &&& final(self).validators is Some
                &&& final(self).validator_list() == old(self).validator_list().filter(|v: Validator| v.address != validator_address)
                &&& *final(self) == (NftWrapperContract { validators: final(self).validators, ..*old(self) })
            },
    {
        let updated = match &self.validators {
            Some(v) => {
                if !find_validator(v, validator_address) {
                    return Err(NftWrapperError::ValidatorNotFound);
                }
                without_validator(v, validator_address)
            },
            None => {
                return Err(NftWrapperError::ValidatorNotFound);
            },
        };
        self.validators = Some(updated);
        Ok(())
    }

    pub fn get_validators(&self) -> (r: Vec<Validator>)
        ensures
            r@ == self.validator_list(),
    {
        match &self.validators {
            Some(v) => copy_vec(v),
            None => Vec::new(),
        }
    }

    /// The bridge fee on `base_amount` under the current configuration.
    pub fn calculate_fee(&self, base_amount: i128) -> (f: i128)
        requires
            i128::MIN <= base_amount * self.config.base_fee_bps <= i128::MAX,
        ensures
            f == bridge_fee(base_amount, self.config),
    {
        let fee = (base_amount * self.config.base_fee_bps as i128) / 10_000;
        let fee = if fee >= self.config.min_fee { fee } else { self.config.min_fee };
        if fee <= self.config.max_fee { fee } else { self.config.max_fee }
    }

    /// What checking a list of signatures decides: the validator list must
    /// exist, there must be at least the required number of signatures, and
    /// each must come from a distinct active validator.
    pub open spec fn signature_check(&self, sigs: Seq<ValidatorSignature>) -> Result<(), NftWrapperError> {
        if self.validators is None {
            Err(NftWrapperError::ValidatorNotFound)
        } else if sigs.len() < self.config.required_signatures {
            Err(NftWrapperError::InsufficientSignatures)
        } else {
            match scan_signers(signers(sigs), self.validator_list()) {
                Some(e) => Err(e),
                None => Ok(()),
            }
        }
    }

    fn verify_signatures(&self, signatures: &Vec<ValidatorSignature>) -> (r: Result<(), NftWrapperError>)
        ensures
            r == self.signature_check(signatures@),
    {
        let vals = match &self.validators {
            Some(v) => v,
            None => {
                return Err(NftWrapperError::ValidatorNotFound);
            },
        };
        if (signatures.len() as u64) < self.config.required_signatures as u64 {
            return Err(NftWrapperError::InsufficientSignatures);
        }
        match scan_signatures(signatures, vals) {
            Some(e) => Err(e),
            None => Ok(()),
        }
    }

    /// Locks `token_id` of `nft_contract` for the bridge at time `now` and
    /// ledger `sequence` (the sender has authorised), bound for
    /// `destination_chain`, and returns the transfer's id. The destination
    /// must differ from this chain and the name and symbol must not be
    /// empty. The fee recorded is the bridge fee on 1 000 000.
    pub fn lock_nft(
        &mut self,
        sender: u64,
        nft_contract: u64,
        token_id: u64,
        recipient_address: Vec<u8>,
        destination_chain: u32,
        name: String,
        symbol: String,
        uri: String,
        now: u64,
        sequence: u32,
    ) -> (r: Result<u64, NftWrapperError>)
        requires
            old(self).next_transfer_id < u64::MAX,
        ensures
            r == (if old(self).paused {
                Err(NftWrapperError::ContractPaused)
            } else if destination_chain == old(self).chain_id {
                Err(NftWrapperError::InvalidChainId)
            } else if name@.len() == 0 || symbol@.len() == 0 {
                Err(NftWrapperError::InvalidMetadata)
            } else {
                Ok(old(self).next_transfer_id)
            }),
            r is Err ==> *final(self) == *old(self),
            r matches Ok(id) ==> {
                &&& final(self).transfers@ == old(self).transfers@.insert(id, BridgeTransfer {
                    id,
                    action: BridgeAction::Lock,
                    nft_data: NFTData { contract: nft_contract, token_id, owner: sender, name, symbol, uri },
                    sender,
                    recipient: recipient_address,
                    source_chain: old(self).chain_id,
                    destination_chain,
                    status: TransferStatus::Locked,
                    locked_timestamp: now,
                    verified_timestamp: None,
                    completed_timestamp: None,
                    fee_amount: bridge_fee(1_000_000, old(self).config) as i128,
                    nonce: sequence as u64,
                })
                &&& *final(self) == (NftWrapperContract { next_transfer_id: (id + 1) as u64, transfers: final(self).transfers, ..*old(self) })
            },
    {
        if self.paused {
            return Err(NftWrapperError::ContractPaused);
        }
        if destination_chain == self.chain_id {
            return Err(NftWrapperError::InvalidChainId);
        }
        if name.as_str().is_empty() || symbol.as_str().is_empty() {
            return Err(NftWrapperError::InvalidMetadata);
        }
        let transfer_id = self.next_transfer_id;
        assert(1_000_000 * self.config.base_fee_bps <= 1_000_000 * 4294967295int) by (nonlinear_arith)
            requires
                self.config.base_fee_bps <= 4294967295int,
        ;
        let fee_amount = self.calculate_fee(1_000_000);
        self.transfers.insert(transfer_id, BridgeTransfer {
            id: transfer_id,
            action: BridgeAction::Lock,
            nft_data: NFTData { contract: nft_contract, token_id, owner: sender, name, symbol, uri },
            sender,
            recipient: recipient_address,
            source_chain: self.chain_id,
            destination_chain,
            status: TransferStatus::Locked,
            locked_timestamp: now,
            verified_timestamp: None,
            completed_timestamp: None,
            fee_amount,
            nonce: sequence as u64,
        });
        self.next_transfer_id = transfer_id + 1;
        Ok(transfer_id)
    }

    /// Confirms a locked transfer with validator signatures at time `now`
    /// (the caller has authorised): the transfer becomes wrapped and the
    /// wrapped NFT is recorded, owned by the sender.
    pub fn verify_and_wrap(
        &mut self,
        caller: u64,
        transfer_id: u64,
        signatures: &Vec<ValidatorSignature>,
        wrapped_token_address: u64,
        wrapped_token_id: u64,
        now: u64,
    ) -> (r: Result<(), NftWrapperError>)
        ensures
            r == (if old(self).paused {
                Err(NftWrapperError::ContractPaused)
            } else if !old(self).transfers@.contains_key(transfer_id) {
                Err(NftWrapperError::TransferNotFound)
            } else if old(self).transfers@[transfer_id].status != TransferStatus::Locked {
                Err(NftWrapperError::InvalidTransfer)
            } else {
                old(self).signature_check(signatures@)
            }),
            r is Err ==> *final(self) == *old(self),
            r is Ok ==> {
                let t = old(self).transfers@[transfer_id];
                &&& final(self).transfers@ == old(self).transfers@.insert(transfer_id, BridgeTransfer {
                    status: TransferStatus::Wrapped,
                    verified_timestamp: Some(now),
                    ..t
                })
                &&& final(self).wrapped@ == old(self).wrapped@.insert(transfer_id, WrappedNFTData {
                    transfer_id,
                    original_contract: t.nft_data.contract,
                    original_token_id: t.nft_data.token_id,
                    original_chain: t.source_chain,
                    wrapped_token_address,
                    wrapped_token_id,
                    current_owner: t.sender,
                    wrapped_timestamp: now,
                    metadata_uri: t.nft_data.uri,
                })
                &&& *final(self) == (NftWrapperContract { transfers: final(self).transfers, wrapped: final(self).wrapped, ..*old(self) })
            },
    {
        if self.paused {
            return Err(NftWrapperError::ContractPaused);
        }
        match self.transfers.get(transfer_id) {
            Some(t) => {
                if t.status != TransferStatus::Locked {
                    return Err(NftWrapperError::InvalidTransfer);
                }
            },
            None => {
                return Err(NftWrapperError::TransferNotFound);
            },
        }
        match self.verify_signatures(signatures) {
            Ok(()) => {},
            Err(e) => {
                return Err(e);
            },
        }
        let mut t = self.transfers.remove(transfer_id).unwrap();
        t.status = TransferStatus::Wrapped;
        t.verified_timestamp = Some(now);
        let w = WrappedNFTData {
            transfer_id,
            original_contract: t.nft_data.contract,
            original_token_id: t.nft_data.token_id,
            original_chain: t.source_chain,
            wrapped_token_address,
            wrapped_token_id,
            current_owner: t.sender,
            wrapped_timestamp: now,
            metadata_uri: t.nft_data.uri.clone(),
        };
        self.transfers.insert(transfer_id, t);
        self.wrapped.insert(transfer_id, w);
        Ok(())
    }

    /// The owner of a wrapped NFT (who has authorised) unwraps it at time
    /// `now`: its transfer is marked cancelled.
    pub fn unwrap_nft(&mut self, sender: u64, transfer_id: u64, now: u64) -> (r: Result<(), NftWrapperError>)
        ensures
            r == (if old(self).paused {
                Err(NftWrapperError::ContractPaused)
            } else if !old(self).wrapped@.contains_key(transfer_id) {
                Err(NftWrapperError::TransferNotFound)
            } else if old(self).wrapped@[transfer_id].current_owner != sender {
                Err(NftWrapperError::Unauthorized)
            } else if !old(self).transfers@.contains_key(transfer_id) {
                Err(NftWrapperError::TransferNotFound)
            } else {
                Ok(())
            }),
            r is Err ==> *final(self) == *old(self),
            r is Ok ==> {
                &&& final(self).transfers@ == old(self).transfers@.insert(transfer_id, BridgeTransfer {
                    status: TransferStatus::Cancelled,
                    completed_timestamp: Some(now),
                    ..old(self).transfers@[transfer_id]
                })
                &&& *final(self) == (NftWrapperContract { transfers: final(self).transfers, ..*old(self) })
            },
    {
        if self.paused {
            return Err(NftWrapperError::ContractPaused);
        }
        match self.wrapped.get(transfer_id) {
            Some(w) => {
                if w.current_owner != sender {
                    return Err(NftWrapperError::Unauthorized);
                }
            },
            None => {
                return Err(NftWrapperError::TransferNotFound);
            },
        }
        if !self.transfers.contains_key(transfer_id) {
            return Err(NftWrapperError::TransferNotFound);
        }
        let mut t = self.transfers.remove(transfer_id).unwrap();
        t.status = TransferStatus::Cancelled;
        t.completed_timestamp = Some(now);
        self.transfers.insert(transfer_id, t);
        Ok(())
    }

    /// Completes the return of a wrapped transfer with validator signatures
    /// at time `now` (the caller has authorised).
    pub fn bridge_back_nft(&mut self, caller: u64, transfer_id: u64, signatures: &Vec<ValidatorSignature>, now: u64) -> (r: Result<(), NftWrapperError>)
        ensures
            r == (if old(self).paused {
                Err(NftWrapperError::ContractPaused)
            } else if !old(self).transfers@.contains_key(transfer_id) {
                Err(NftWrapperError::TransferNotFound)
            } else if old(self).transfers@[transfer_id].status != TransferStatus::Wrapped {
                Err(NftWrapperError::InvalidTransfer)
            } else {
                old(self).signature_check(signatures@)
            }),
            r is Err ==> *final(self) == *old(self),
            r is Ok ==> {
                &&& final(self).transfers@ == old(self).transfers@.insert(transfer_id, BridgeTransfer {
                    status: TransferStatus::Completed,
                    completed_timestamp: Some(now),
                    ..old(self).transfers@[transfer_id]
                })
                &&& *final(self) == (NftWrapperContract { transfers: final(self).transfers, ..*old(self) })
            },
    {
        if self.paused {
            return Err(NftWrapperError::ContractPaused);
        }
        match self.transfers.get(transfer_id) {
            Some(t) => {
                if t.status != TransferStatus::Wrapped {
                    return Err(NftWrapperError::InvalidTransfer);
                }
            },
            None => {
                return Err(NftWrapperError::TransferNotFound);
            },
        }
        match self.verify_signatures(signatures) {
            Ok(()) => {},
            Err(e) => {
                return Err(e);
            },
        }
        let mut t = self.transfers.remove(transfer_id).unwrap();
        t.status = TransferStatus::Completed;
        t.completed_timestamp = Some(now);
        self.transfers.insert(transfer_id, t);
        Ok(())
    }

    pub fn get_transfer(&self, transfer_id: u64) -> (r: Result<BridgeTransfer, NftWrapperError>)
        ensures
            r is Ok <==> self.transfers@.contains_key(transfer_id),
            r is Err ==> r->Err_0 == NftWrapperError::TransferNotFound,
            r matches Ok(t) ==> same_transfer(t, self.transfers@[transfer_id]),
    {
        match self.transfers.get(transfer_id) {
            Some(t) => Ok(t.clone()),
            None => Err(NftWrapperError::TransferNotFound),
        }
    }

    pub fn get_wrapped_nft(&self, transfer_id: u64) -> (r: Result<WrappedNFTData, NftWrapperError>)
        ensures
            r == (if self.wrapped@.contains_key(transfer_id) {
                Ok(self.wrapped@[transfer_id])
            } else {
                Err(NftWrapperError::TransferNotFound)
            }),
    {
        match self.wrapped.get(transfer_id) {
            Some(w) => Ok(w.clone()),
            None => Err(NftWrapperError::TransferNotFound),
        }
    }

    /// Whether an entry is stored under the key.
    pub fn has_entry(&self, key: TransferKey) -> (b: bool)
        ensures
            b == match key {
                TransferKey::Transfer(id) => self.transfers@.contains_key(id),
                TransferKey::WrappedNFT(id) => self.wrapped@.contains_key(id),
            },
    {
        match key {
            TransferKey::Transfer(id) => self.transfers.contains_key(id),
            TransferKey::WrappedNFT(id) => self.wrapped.contains_key(id),
        }
    }

    /// Pauses the bridge; no caller is checked.
    pub fn pause(&mut self) -> (r: Result<(), NftWrapperError>)
        ensures
            r is Ok,
            *final(self) == (NftWrapperContract { paused: true, ..*old(self) }),
    {
        self.paused = true;
        Ok(())
    }

    pub fn unpause(&mut self) -> (r: Result<(), NftWrapperError>)
        ensures
            r is Ok,
            *final(self) == (NftWrapperContract { paused: false, ..*old(self) }),
    {
        self.paused = false;
        Ok(())
    }

    pub fn is_paused(&self) -> (b: bool)
        ensures
            b == self.paused,
    {
        self.paused
    }

    /// Hands back the collected bridge fees and resets them to zero.
    pub fn collect_fees(&mut self) -> (r: Result<i128, NftWrapperError>)
        ensures
            r == Ok::<i128, NftWrapperError>(old(self).bridge_fees),
            *final(self) == (NftWrapperContract { bridge_fees: if old(self).bridge_fees > 0 { 0 } else { old(self).bridge_fees }, ..*old(self) }),
    {
        let collected = self.bridge_fees;
        if collected > 0 {
            self.bridge_fees = 0;
        }
        Ok(collected)
    }

    pub fn get_config(&self) -> (r: Result<BridgeConfig, NftWrapperError>)
        ensures
            r == Ok::<BridgeConfig, NftWrapperError>(self.config),
    {
        Ok(self.config)
    }

    /// Replaces each configuration value that is given.
    pub fn update_config(
        &mut self,
        required_signatures: Option<u32>,
        base_fee_bps: Option<u32>,
        min_fee: Option<i128>,
        max_fee: Option<i128>,
    ) -> (r: Result<(), NftWrapperError>)
        ensures
            r is Ok,
            *final(self) == (NftWrapperContract {
                config: BridgeConfig {
                    required_signatures: match required_signatures { Some(v) => v, None => old(self).config.required_signatures },
                    base_fee_bps: match base_fee_bps { Some(v) => v, None => old(self).config.base_fee_bps },
                    min_fee: match min_fee { Some(v) => v, None => old(self).config.min_fee },
                    max_fee: match max_fee { Some(v) => v, None => old(self).config.max_fee },
                    ..old(self).config
                },
                ..*old(self)
            }),
    {
        if let Some(s) = required_signatures {
            self.config.required_signatures = s;
        }
        if let Some(f) = base_fee_bps {
            self.config.base_fee_bps = f;
        }
        if let Some(f) = min_fee {
            self.config.min_fee = f;
        }
        if let Some(f) = max_fee {
            self.config.max_fee = f;
        }
        Ok(())
    }
}

} // verus!
