use puzzle_contracts::nft_wrapper::{
    NftWrapperContract, NftWrapperError, TransferKey, TransferStatus, ValidatorSignature,
};

const ADMIN: u64 = 1;
const COLLECTOR: u64 = 2;
const SENDER: u64 = 3;
const NFT: u64 = 40;
const V1: u64 = 11;
const V2: u64 = 12;
const V3: u64 = 13;

#[test]
fn test_contract_compiles() {
    assert_eq!(TransferStatus::Locked, TransferStatus::Locked);
    assert_eq!(TransferStatus::Wrapped, TransferStatus::Wrapped);
    assert_eq!(TransferStatus::Cancelled, TransferStatus::Cancelled);
}

#[test]
fn test_transfer_status_ordering() {
    assert!((TransferStatus::Initiated as u32) < (TransferStatus::Locked as u32));
    assert!((TransferStatus::Locked as u32) < (TransferStatus::Verified as u32));
    assert!((TransferStatus::Verified as u32) < (TransferStatus::Wrapped as u32));
    assert!((TransferStatus::Wrapped as u32) < (TransferStatus::Completed as u32));
}

#[test]
fn test_status_values() {
    assert_eq!(TransferStatus::Initiated as u32, 0);
    assert_eq!(TransferStatus::Locked as u32, 1);
    assert_eq!(TransferStatus::Verified as u32, 2);
    assert_eq!(TransferStatus::Wrapped as u32, 3);
    assert_eq!(TransferStatus::Completed as u32, 4);
    assert_eq!(TransferStatus::Cancelled as u32, 5);
    assert_eq!(TransferStatus::Failed as u32, 6);
}

fn sig(v: u64) -> ValidatorSignature {
    ValidatorSignature { validator: v, signature: [7u8; 64] }
}

fn setup() -> NftWrapperContract {
    let mut c = NftWrapperContract::initialize(ADMIN, None, COLLECTOR, 1, 1);
    c.add_validator(V1, [1u8; 32], 5).unwrap();
    c.add_validator(V2, [2u8; 32], 5).unwrap();
    c
}

fn lock(c: &mut NftWrapperContract) -> u64 {
    c.lock_nft(
        SENDER,
        NFT,
        9,
        vec![0xab, 0xcd],
        2,
        "Puzzle".to_string(),
        "PZL".to_string(),
        "ipfs://x".to_string(),
        100,
        42,
    )
    .unwrap()
}

#[test]
fn bridge_fee_is_clamped() {
    let c = setup();
    // 50 bps of 1 000 000 is 5 000, raised to the minimum.
    assert_eq!(c.calculate_fee(1_000_000), 100_000_000);
    // 50 bps of 10^12 is 5 * 10^9, within the bounds.
    assert_eq!(c.calculate_fee(1_000_000_000_000), 5_000_000_000);
    // 50 bps of 10^13 is 5 * 10^10, lowered to the maximum.
    assert_eq!(c.calculate_fee(10_000_000_000_000), 10_000_000_000);
}

#[test]
fn validator_management() {
    let mut c = setup();
    assert_eq!(c.add_validator(V1, [9u8; 32], 6), Err(NftWrapperError::ValidatorAlreadyExists));
    assert_eq!(c.get_validators().len(), 2);
    c.remove_validator(V1).unwrap();
    let vals = c.get_validators();
    assert_eq!(vals.len(), 1);
    assert_eq!(vals[0].address, V2);
    assert_eq!(c.remove_validator(V1), Err(NftWrapperError::ValidatorNotFound));
    let mut fresh = NftWrapperContract::initialize(ADMIN, None, COLLECTOR, 1, 1);
    assert_eq!(fresh.remove_validator(V1), Err(NftWrapperError::ValidatorNotFound));
    for i in 0..10u64 {
        fresh.add_validator(100 + i, [0u8; 32], 0).unwrap();
    }
    assert_eq!(fresh.add_validator(200, [0u8; 32], 0), Err(NftWrapperError::MaxValidatorsReached));
}

#[test]
fn lock_checks_chain_and_metadata() {
    let mut c = setup();
    let same_chain = c.lock_nft(SENDER, NFT, 9, vec![], 1, "A".to_string(), "B".to_string(), String::new(), 0, 0);
    assert_eq!(same_chain, Err(NftWrapperError::InvalidChainId));
    let no_name = c.lock_nft(SENDER, NFT, 9, vec![], 2, String::new(), "B".to_string(), String::new(), 0, 0);
    assert_eq!(no_name, Err(NftWrapperError::InvalidMetadata));
    let id = lock(&mut c);
    assert_eq!(id, 1);
    let t = c.get_transfer(id).unwrap();
    assert_eq!(t.status, TransferStatus::Locked);
    assert_eq!(t.fee_amount, 100_000_000);
    assert_eq!(t.nonce, 42);
    assert_eq!(t.recipient, vec![0xab, 0xcd]);
    assert_eq!(t.nft_data.name, "Puzzle");
    assert!(c.has_entry(TransferKey::Transfer(id)));
    assert!(!c.has_entry(TransferKey::WrappedNFT(id)));
    assert_eq!(lock(&mut c), 2);
}

#[test]
fn signature_checks() {
    let mut c = setup();
    let id = lock(&mut c);
    assert_eq!(c.verify_and_wrap(SENDER, id, &vec![sig(V1)], 500, 1, 200), Err(NftWrapperError::InsufficientSignatures));
    assert_eq!(c.verify_and_wrap(SENDER, id, &vec![sig(V1), sig(V1)], 500, 1, 200), Err(NftWrapperError::DuplicateSignature));
    assert_eq!(c.verify_and_wrap(SENDER, id, &vec![sig(V1), sig(V3)], 500, 1, 200), Err(NftWrapperError::ValidatorNotFound));
    assert_eq!(c.get_transfer(id).unwrap().status, TransferStatus::Locked);
    let no_validators = NftWrapperContract::initialize(ADMIN, None, COLLECTOR, 1, 1);
    let mut nv = no_validators;
    let id2 = lock(&mut nv);
    assert_eq!(nv.verify_and_wrap(SENDER, id2, &vec![sig(V1), sig(V2)], 500, 1, 200), Err(NftWrapperError::ValidatorNotFound));
}

#[test]
fn full_bridge_flow() {
    let mut c = setup();
    let id = lock(&mut c);
    c.verify_and_wrap(SENDER, id, &vec![sig(V1), sig(V2)], 500, 77, 200).unwrap();
    let t = c.get_transfer(id).unwrap();
    assert_eq!(t.status, TransferStatus::Wrapped);
    assert_eq!(t.verified_timestamp, Some(200));
    let w = c.get_wrapped_nft(id).unwrap();
    assert_eq!(w.current_owner, SENDER);
    assert_eq!(w.original_contract, NFT);
    assert_eq!(w.wrapped_token_id, 77);
    assert_eq!(w.metadata_uri, "ipfs://x");
    assert_eq!(c.verify_and_wrap(SENDER, id, &vec![sig(V1), sig(V2)], 500, 77, 200), Err(NftWrapperError::InvalidTransfer));
    c.bridge_back_nft(SENDER, id, &vec![sig(V2), sig(V1)], 300).unwrap();
    let t = c.get_transfer(id).unwrap();
    assert_eq!(t.status, TransferStatus::Completed);
    assert_eq!(t.completed_timestamp, Some(300));
}

#[test]
fn unwrap_by_owner_only() {
    let mut c = setup();
    let id = lock(&mut c);
    assert_eq!(c.unwrap_nft(SENDER, id, 250), Err(NftWrapperError::TransferNotFound));
    c.verify_and_wrap(SENDER, id, &vec![sig(V1), sig(V2)], 500, 77, 200).unwrap();
    assert_eq!(c.unwrap_nft(99, id, 250), Err(NftWrapperError::Unauthorized));
    c.unwrap_nft(SENDER, id, 250).unwrap();
    assert_eq!(c.get_transfer(id).unwrap().status, TransferStatus::Cancelled);
}

#[test]
fn pause_blocks_operations() {
    let mut c = setup();
    c.pause().unwrap();
    assert!(c.is_paused());
    assert_eq!(c.add_validator(V3, [3u8; 32], 0), Err(NftWrapperError::ContractPaused));
    let r = c.lock_nft(SENDER, NFT, 9, vec![], 2, "A".to_string(), "B".to_string(), String::new(), 0, 0);
    assert_eq!(r, Err(NftWrapperError::ContractPaused));
    c.unpause().unwrap();
    assert!(!c.is_paused());
    assert_eq!(lock(&mut c), 1);
}

#[test]
fn config_updates_and_fees() {
    let mut c = setup();
    c.update_config(Some(3), None, Some(1), None).unwrap();
    let cfg = c.get_config().unwrap();
    assert_eq!(cfg.required_signatures, 3);
    assert_eq!(cfg.base_fee_bps, 50);
    assert_eq!(cfg.min_fee, 1);
    assert_eq!(cfg.max_fee, 10_000_000_000);
    assert_eq!(c.calculate_fee(1_000_000), 5_000);
    assert_eq!(c.collect_fees(), Ok(0));
}
