use puzzle_contracts::completion_certificate::{CertError, CompletionCertificateContract, RarityTier};

const ADMIN: u64 = 1;
const CONTRACT: u64 = 1000;

fn setup() -> CompletionCertificateContract {
    CompletionCertificateContract::initialize(ADMIN)
}

fn s(x: &str) -> String {
    x.to_string()
}

fn mint(c: &mut CompletionCertificateContract, owner: u64, p: &str, secs: u64, rank: u64, transferable: bool) -> Result<u64, CertError> {
    c.mint_certificate(owner, s(p), s("Title"), secs, rank, s("h"), s("u"), transferable, 0)
}

#[test]
fn test_rarity_legendary() {
    assert_eq!(RarityTier::from_seconds(0), RarityTier::Legendary);
    assert_eq!(RarityTier::from_seconds(30), RarityTier::Legendary);
    assert_eq!(RarityTier::from_seconds(60), RarityTier::Legendary);
}

#[test]
fn test_rarity_epic() {
    assert_eq!(RarityTier::from_seconds(61), RarityTier::Epic);
    assert_eq!(RarityTier::from_seconds(300), RarityTier::Epic);
}

#[test]
fn test_rarity_rare() {
    assert_eq!(RarityTier::from_seconds(301), RarityTier::Rare);
    assert_eq!(RarityTier::from_seconds(900), RarityTier::Rare);
}

#[test]
fn test_rarity_uncommon() {
    assert_eq!(RarityTier::from_seconds(901), RarityTier::Uncommon);
    assert_eq!(RarityTier::from_seconds(3600), RarityTier::Uncommon);
}

#[test]
fn test_rarity_common() {
    assert_eq!(RarityTier::from_seconds(3601), RarityTier::Common);
    assert_eq!(RarityTier::from_seconds(99999), RarityTier::Common);
}

#[test]
fn test_rarity_weights_ordered() {
    assert!(RarityTier::Legendary.weight() > RarityTier::Epic.weight());
    assert!(RarityTier::Epic.weight() > RarityTier::Rare.weight());
    assert!(RarityTier::Rare.weight() > RarityTier::Uncommon.weight());
    assert!(RarityTier::Uncommon.weight() > RarityTier::Common.weight());
}

#[test]
fn test_rarity_weight_values() {
    assert_eq!(RarityTier::Legendary.weight(), 5);
    assert_eq!(RarityTier::Common.weight(), 1);
}

#[test]
fn lib_test_initialize() {
    let c = setup();
    assert_eq!(c.get_admin(), ADMIN);
    assert_eq!(c.total_supply(), 0);
    assert!(!c.is_paused());
}

#[test]
fn test_mint_certificate_basic() {
    let mut c = setup();
    let owner = 2;
    let token_id = c
        .mint_certificate(owner, s("PUZZLE-001"), s("The Lost Labyrinth"), 45, 1, s("abc123def456"), s("ipfs://QmTest"), true, 0)
        .unwrap();
    assert_eq!(token_id, 1);
    assert_eq!(c.total_supply(), 1);
    let cert = c.get_certificate(token_id).unwrap();
    assert_eq!(cert.owner, owner);
    assert_eq!(cert.puzzle_id, "PUZZLE-001");
    assert_eq!(cert.rank, 1);
    assert_eq!(cert.rarity, RarityTier::Legendary);
    assert!(!cert.burned);
    assert!(cert.transferable);
}

#[test]
fn test_mint_increments_token_id() {
    let mut c = setup();
    for i in 0u64..5 {
        let owner = 10 + i;
        let id = c
            .mint_certificate(owner, s("PUZZLE-X"), s("Test Puzzle"), i * 100 + 50, i + 1, s("hash"), s("uri"), true, 0)
            .unwrap();
        assert_eq!(id, i + 1);
    }
    assert_eq!(c.total_supply(), 5);
}

#[test]
#[should_panic]
fn test_mint_duplicate_panics() {
    let mut c = setup();
    let owner = 2;
    mint(&mut c, owner, "PUZZLE-DUP", 200, 1, true).unwrap();
    mint(&mut c, owner, "PUZZLE-DUP", 200, 1, true).unwrap();
}

#[test]
fn test_mint_duplicate_error_and_state_kept() {
    let mut c = setup();
    mint(&mut c, 2, "PUZZLE-DUP", 200, 1, true).unwrap();
    assert_eq!(mint(&mut c, 2, "PUZZLE-DUP", 200, 1, true), Err(CertError::AlreadyMinted));
    assert_eq!(c.total_supply(), 1);
    assert_eq!(c.get_owner_certificates(2), vec![1]);
}

#[test]
fn test_is_minted() {
    let mut c = setup();
    let owner = 2;
    assert!(!c.is_minted(&s("P-01"), owner));
    c.mint_certificate(owner, s("P-01"), s("Puzzle"), 120, 2, s("h"), s("u"), false, 0).unwrap();
    assert!(c.is_minted(&s("P-01"), owner));
}

#[test]
fn test_transfer_transferable_cert() {
    let mut c = setup();
    let owner = 2;
    let new_owner = 3;
    let token_id = mint(&mut c, owner, "P-T", 50, 1, true).unwrap();
    c.transfer(owner, new_owner, token_id).unwrap();
    assert_eq!(c.get_certificate(token_id).unwrap().owner, new_owner);
    assert_eq!(c.get_owner_certificates(owner).len(), 0);
    assert_eq!(c.get_owner_certificates(new_owner).len(), 1);
}

#[test]
#[should_panic]
fn test_transfer_non_transferable_panics() {
    let mut c = setup();
    let token_id = mint(&mut c, 2, "P-NT", 50, 1, false).unwrap();
    c.transfer(2, 3, token_id).unwrap();
}

#[test]
fn test_transfer_errors() {
    let mut c = setup();
    let token_id = mint(&mut c, 2, "P-NT", 50, 1, false).unwrap();
    assert_eq!(c.transfer(2, 3, token_id), Err(CertError::TransferRestricted));
    assert_eq!(c.transfer(4, 3, token_id), Err(CertError::NotOwner));
    assert_eq!(c.transfer(2, 3, 99), Err(CertError::CertNotFound));
    c.set_paused(true);
    assert_eq!(c.transfer(2, 3, token_id), Err(CertError::ContractPaused));
}

#[test]
fn test_burn_certificate() {
    let mut c = setup();
    let owner = 2;
    let token_id = mint(&mut c, owner, "P-BURN", 100, 3, true).unwrap();
    c.burn(owner, token_id).unwrap();
    assert!(c.get_certificate(token_id).unwrap().burned);
    assert_eq!(c.get_owner_certificates(owner).len(), 0);
    let proof = c.verify_certificate(token_id, CONTRACT);
    assert!(!proof.authentic);
    assert_eq!(c.burn(owner, token_id), Err(CertError::CertNotFound));
}

#[test]
#[should_panic]
fn test_burn_by_non_owner_panics() {
    let mut c = setup();
    let token_id = mint(&mut c, 2, "P-BURN2", 100, 1, true).unwrap();
    c.burn(3, token_id).unwrap();
}

#[test]
fn test_verify_valid_certificate() {
    let mut c = setup();
    let owner = 2;
    let token_id = c
        .mint_certificate(owner, s("P-VER"), s("Verify Me"), 250, 5, s("deadbeef"), s("uri"), true, 0)
        .unwrap();
    let proof = c.verify_certificate(token_id, CONTRACT);
    assert!(proof.authentic);
    assert_eq!(proof.owner, owner);
    assert_eq!(proof.puzzle_id, "P-VER");
    assert_eq!(proof.solution_hash, "deadbeef");
    assert_eq!(proof.rarity, RarityTier::Epic);
    assert_eq!(proof.rank, 5);
}

#[test]
fn test_verify_nonexistent_returns_inauthentic() {
    let c = setup();
    let proof = c.verify_certificate(999, CONTRACT);
    assert!(!proof.authentic);
    assert_eq!(proof.owner, CONTRACT);
    assert_eq!(proof.rarity, RarityTier::Common);
}

#[test]
fn test_showcase_sorted_by_rarity() {
    let mut c = setup();
    let owner = 2;
    for (p, secs) in [("P-C", 5000u64), ("P-E", 200u64), ("P-R", 600u64)] {
        mint(&mut c, owner, p, secs, 1, true).unwrap();
    }
    let showcase = c.get_showcase(owner);
    assert_eq!(showcase.len(), 3);
    assert_eq!(showcase[0].rarity, RarityTier::Epic);
    assert_eq!(showcase[1].rarity, RarityTier::Rare);
    assert_eq!(showcase[2].rarity, RarityTier::Common);
}

#[test]
fn test_showcase_ties_keep_order_and_skip_burned() {
    let mut c = setup();
    let owner = 2;
    mint(&mut c, owner, "A", 5000, 1, true).unwrap();
    mint(&mut c, owner, "B", 10, 1, true).unwrap();
    mint(&mut c, owner, "C", 7000, 1, true).unwrap();
    mint(&mut c, owner, "D", 20, 1, true).unwrap();
    c.burn(owner, 4).unwrap();
    let ids: Vec<u64> = c.get_showcase(owner).iter().map(|x| x.token_id).collect();
    assert_eq!(ids, vec![2, 1, 3]);
}

#[test]
#[should_panic]
fn test_mint_when_paused_panics() {
    let mut c = setup();
    c.set_paused(true);
    assert!(c.is_paused());
    mint(&mut c, 2, "P-PAUSE", 100, 1, true).unwrap();
}

#[test]
fn test_unpause_allows_mint() {
    let mut c = setup();
    c.set_paused(true);
    c.set_paused(false);
    assert!(!c.is_paused());
    let id = mint(&mut c, 2, "P-UNPAUSE", 100, 1, true).unwrap();
    assert_eq!(id, 1);
}

#[test]
fn test_set_admin() {
    let mut c = setup();
    c.set_admin(7);
    assert_eq!(c.get_admin(), 7);
}

#[test]
fn test_get_owner_certificates_empty() {
    let c = setup();
    assert_eq!(c.get_owner_certificates(42).len(), 0);
}

#[test]
fn test_get_owner_certificates_multiple() {
    let mut c = setup();
    for p in ["PA", "PB", "PC"] {
        mint(&mut c, 2, p, 100, 1, true).unwrap();
    }
    assert_eq!(c.get_owner_certificates(2).len(), 3);
}
