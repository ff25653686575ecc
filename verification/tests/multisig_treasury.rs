use puzzle_contracts::multisig_treasury::{MultisigTreasury, Role, SignerAction, TransactionStatus, TransactionType, TreasuryAction, TreasuryError};

const OWNER: u64 = 1;
const TOKEN: u64 = 900;
const DEST: u64 = 901;

fn init(threshold: u32, max_pending: u32) -> MultisigTreasury {
    MultisigTreasury::initialize(OWNER, threshold, 86400, max_pending, 0, 0).unwrap()
}

fn transfer(t: &mut MultisigTreasury, proposer: u64, amount: i128) -> Result<u64, TreasuryError> {
    t.propose_transfer(proposer, TOKEN, DEST, amount, "Test".to_string(), 0)
}

#[test]
fn test_initialization() {
    let t = init(2, 10);
    let config = t.get_config_info();
    assert_eq!(config.owner, OWNER);
    assert_eq!(config.threshold, 2);
    assert_eq!(config.total_signers, 1);
    assert_eq!(config.proposal_timeout, 86400);
    assert_eq!(config.max_pending_proposals, 10);
    assert!(config.emergency_recovery_enabled);
    let member = t.get_member_info(OWNER).unwrap();
    assert!(matches!(member.role, Role::Owner));
    assert!(member.active);
    let members = t.get_all_members();
    assert_eq!(members.len(), 1);
    assert_eq!(members[0], OWNER);
}

#[test]
#[should_panic]
fn test_initialize_with_zero_threshold() {
    MultisigTreasury::initialize(OWNER, 0, 86400, 10, 0, 0).unwrap();
}

#[test]
fn test_add_member() {
    let mut t = init(2, 10);
    t.add_member(OWNER, 2, Role::Signer, 0).unwrap();
    t.add_member(OWNER, 3, Role::Signer, 0).unwrap();
    t.add_member(OWNER, 4, Role::Admin, 0).unwrap();
    assert_eq!(t.get_config_info().total_signers, 4);
    assert_eq!(t.get_all_members().len(), 4);
}

#[test]
#[should_panic]
fn test_add_duplicate_member() {
    let mut t = init(2, 10);
    t.add_member(OWNER, 2, Role::Signer, 0).unwrap();
    t.add_member(OWNER, 2, Role::Signer, 0).unwrap();
}

#[test]
#[should_panic]
fn test_signer_cannot_add_member() {
    let mut t = init(2, 10);
    t.add_member(OWNER, 2, Role::Signer, 0).unwrap();
    t.add_member(2, 3, Role::Signer, 0).unwrap();
}

#[test]
#[should_panic]
fn test_admin_cannot_add_admin() {
    let mut t = init(2, 10);
    t.add_member(OWNER, 2, Role::Admin, 0).unwrap();
    t.add_member(2, 3, Role::Admin, 0).unwrap();
}

#[test]
fn test_add_member_errors() {
    let mut t = init(2, 10);
    t.add_member(OWNER, 2, Role::Signer, 0).unwrap();
    assert_eq!(t.add_member(OWNER, 2, Role::Signer, 0), Err(TreasuryError::MemberAlreadyExists));
    assert_eq!(t.add_member(2, 3, Role::Signer, 0), Err(TreasuryError::InsufficientRole));
    assert_eq!(t.add_member(77, 3, Role::Signer, 0), Err(TreasuryError::MemberNotFound));
    let mut high = init(3, 10);
    assert_eq!(high.add_member(OWNER, 2, Role::Signer, 0), Err(TreasuryError::InvalidThreshold));
    assert_eq!(high.get_all_members().len(), 1);
}

#[test]
fn test_remove_member() {
    let mut t = init(2, 10);
    t.add_member(OWNER, 2, Role::Signer, 0).unwrap();
    t.add_member(OWNER, 3, Role::Signer, 0).unwrap();
    t.remove_member(OWNER, 2).unwrap();
    assert!(t.get_member_info(2).is_none());
    assert_eq!(t.get_all_members().len(), 2);
    assert_eq!(t.get_config_info().total_signers, 2);
}

#[test]
#[should_panic]
fn test_cannot_remove_last_owner() {
    let mut t = init(2, 10);
    t.remove_member(OWNER, OWNER).unwrap();
}

#[test]
fn test_admin_can_remove_signer() {
    let mut t = init(2, 10);
    t.add_member(OWNER, 2, Role::Admin, 0).unwrap();
    t.add_member(OWNER, 3, Role::Signer, 0).unwrap();
    t.remove_member(2, 3).unwrap();
    assert!(t.get_member_info(3).is_none());
}

#[test]
#[should_panic]
fn test_admin_cannot_remove_admin() {
    let mut t = init(2, 10);
    t.add_member(OWNER, 2, Role::Admin, 0).unwrap();
    t.add_member(OWNER, 3, Role::Admin, 0).unwrap();
    t.remove_member(2, 3).unwrap();
}

#[test]
fn test_remove_lowers_threshold() {
    let mut t = init(2, 10);
    t.add_member(OWNER, 2, Role::Signer, 0).unwrap();
    t.remove_member(OWNER, 2).unwrap();
    assert_eq!(t.get_config_info().threshold, 1);
    assert_eq!(t.remove_member(OWNER, OWNER), Err(TreasuryError::CannotRemoveLastOwner));
}

#[test]
fn test_update_member_role() {
    let mut t = init(2, 10);
    t.add_member(OWNER, 2, Role::Signer, 0).unwrap();
    t.update_member_role(OWNER, 2, Role::Admin).unwrap();
    assert!(matches!(t.get_member_info(2).unwrap().role, Role::Admin));
}

#[test]
fn test_propose_and_sign_transfer() {
    let mut t = init(2, 10);
    t.add_member(OWNER, 2, Role::Signer, 0).unwrap();
    t.add_member(OWNER, 3, Role::Signer, 0).unwrap();
    let tx_id = t.propose_transfer(OWNER, TOKEN, DEST, 1000, "Test transfer".to_string(), 0).unwrap();
    assert_eq!(tx_id, 1);
    assert!(matches!(t.get_transaction_info(tx_id).unwrap().status, TransactionStatus::Pending));
    t.sign_transaction(OWNER, tx_id, 0).unwrap();
    assert_eq!(t.get_transaction_info(tx_id).unwrap().signatures.len(), 1);
    t.sign_transaction(2, tx_id, 0).unwrap();
    let tx = t.get_transaction_info(tx_id).unwrap();
    assert_eq!(tx.signatures.len(), 2);
    assert!(matches!(tx.status, TransactionStatus::Approved));
    assert!(t.has_signer_signed(tx_id, OWNER));
    assert!(t.has_signer_signed(tx_id, 2));
}

#[test]
#[should_panic]
fn test_cannot_sign_twice() {
    let mut t = init(2, 10);
    let tx_id = transfer(&mut t, OWNER, 1000).unwrap();
    t.sign_transaction(OWNER, tx_id, 0).unwrap();
    t.sign_transaction(OWNER, tx_id, 0).unwrap();
}

#[test]
#[should_panic]
fn test_non_member_cannot_sign() {
    let mut t = init(2, 10);
    let tx_id = transfer(&mut t, OWNER, 1000).unwrap();
    t.sign_transaction(55, tx_id, 0).unwrap();
}

#[test]
fn test_sign_expired() {
    let mut t = init(2, 10);
    let tx_id = transfer(&mut t, OWNER, 1000).unwrap();
    assert_eq!(t.sign_transaction(OWNER, tx_id, 86401), Err(TreasuryError::TransactionExpired));
    assert!(matches!(t.get_transaction_info(tx_id).unwrap().status, TransactionStatus::Pending));
}

#[test]
fn test_propose_contract_call() {
    let mut t = init(2, 10);
    let tx_id = t.propose_contract_call(OWNER, 77, "test".to_string(), vec![1, 2, 3], "Test".to_string(), 0).unwrap();
    assert!(matches!(t.get_transaction_info(tx_id).unwrap().transaction_type, TransactionType::ContractCall));
}

#[test]
fn test_reject_transaction() {
    let mut t = init(2, 10);
    let tx_id = transfer(&mut t, OWNER, 1000).unwrap();
    t.reject_transaction(OWNER, tx_id).unwrap();
    assert!(matches!(t.get_transaction_info(tx_id).unwrap().status, TransactionStatus::Rejected));
    assert_eq!(t.get_pending_transaction_ids().len(), 0);
}

#[test]
#[should_panic]
fn test_non_proposer_cannot_reject() {
    let mut t = init(2, 10);
    t.add_member(OWNER, 2, Role::Signer, 0).unwrap();
    let tx_id = transfer(&mut t, OWNER, 1000).unwrap();
    t.reject_transaction(2, tx_id).unwrap();
}

#[test]
fn test_test_update_config() {
    let mut t = init(2, 10);
    t.add_member(OWNER, 2, Role::Signer, 0).unwrap();
    t.add_member(OWNER, 3, Role::Signer, 0).unwrap();
    t.update_config(OWNER, 3, 172800, 20).unwrap();
    let config = t.get_config_info();
    assert_eq!(config.threshold, 3);
    assert_eq!(config.proposal_timeout, 172800);
    assert_eq!(config.max_pending_proposals, 20);
}

#[test]
#[should_panic]
fn test_non_owner_cannot_update_config() {
    let mut t = init(2, 10);
    t.add_member(OWNER, 2, Role::Signer, 0).unwrap();
    t.update_config(2, 1, 86400, 10).unwrap();
}

#[test]
fn test_emergency_recovery_activation() {
    let mut t = init(2, 10);
    t.add_member(OWNER, 2, Role::Owner, 0).unwrap();
    t.activate_emergency_recovery(OWNER, "Security breach".to_string(), 0).unwrap();
    assert!(!t.get_emergency_info().unwrap().recovery_approved);
}

#[test]
#[should_panic]
fn test_non_owner_cannot_activate_emergency() {
    let mut t = init(2, 10);
    t.add_member(OWNER, 2, Role::Admin, 0).unwrap();
    t.activate_emergency_recovery(2, "Emergency".to_string(), 0).unwrap();
}

#[test]
fn test_emergency_recovery_execution() {
    let mut t = init(2, 10);
    t.add_member(OWNER, 2, Role::Owner, 0).unwrap();
    t.activate_emergency_recovery(OWNER, "Compromised".to_string(), 0).unwrap();
    t.execute_emergency_recovery(2, 9, 0).unwrap();
    assert_eq!(t.get_config_info().owner, 9);
    assert!(matches!(t.get_member_info(9).unwrap().role, Role::Owner));
    assert!(t.get_emergency_info().unwrap().recovery_approved);
}

#[test]
fn test_cancel_emergency_recovery() {
    let mut t = init(2, 10);
    t.add_member(OWNER, 2, Role::Owner, 0).unwrap();
    t.activate_emergency_recovery(OWNER, "False alarm".to_string(), 0).unwrap();
    t.cancel_emergency_recovery(2).unwrap();
    assert!(t.get_emergency_info().is_none());
}

#[test]
#[should_panic]
fn test_emergency_requires_second_owner() {
    let mut t = init(2, 10);
    t.add_member(OWNER, 2, Role::Owner, 0).unwrap();
    t.activate_emergency_recovery(OWNER, "Emergency".to_string(), 0).unwrap();
    t.execute_emergency_recovery(OWNER, 9, 0).unwrap();
}

#[test]
fn test_transaction_counter() {
    let mut t = init(2, 10);
    assert_eq!(transfer(&mut t, OWNER, 100).unwrap(), 1);
    assert_eq!(transfer(&mut t, OWNER, 200).unwrap(), 2);
    assert_eq!(transfer(&mut t, OWNER, 300).unwrap(), 3);
    assert_eq!(t.get_pending_transaction_ids().len(), 3);
}

#[test]
fn test_role_levels() {
    let mut t = init(2, 10);
    t.add_member(OWNER, 2, Role::Admin, 0).unwrap();
    t.add_member(OWNER, 3, Role::Signer, 0).unwrap();
    assert!(matches!(t.get_member_info(OWNER).unwrap().role, Role::Owner));
    assert!(matches!(t.get_member_info(2).unwrap().role, Role::Admin));
    assert!(matches!(t.get_member_info(3).unwrap().role, Role::Signer));
    assert_eq!(MultisigTreasury::role_level(&Role::Signer), 1);
    assert_eq!(MultisigTreasury::role_level(&Role::Admin), 2);
    assert_eq!(MultisigTreasury::role_level(&Role::Owner), 3);
}

#[test]
#[should_panic]
fn test_pending_transaction_limit() {
    let mut t = init(1, 3);
    transfer(&mut t, OWNER, 100).unwrap();
    transfer(&mut t, OWNER, 200).unwrap();
    transfer(&mut t, OWNER, 300).unwrap();
    transfer(&mut t, OWNER, 400).unwrap();
}

#[test]
fn test_execute_transfer_flow() {
    let mut t = init(1, 10);
    let tx_id = transfer(&mut t, OWNER, 500).unwrap();
    assert_eq!(t.execute_transaction(OWNER, tx_id, 5).unwrap_err(), TreasuryError::ThresholdNotReached);
    t.sign_transaction(OWNER, tx_id, 1).unwrap();
    match t.execute_transaction(OWNER, tx_id, 5).unwrap() {
        TreasuryAction::Transfer { token, to, amount } => {
            assert_eq!((token, to, amount), (TOKEN, DEST, 500));
        }
        _ => panic!("expected a transfer"),
    }
    assert!(matches!(t.get_transaction_info(tx_id).unwrap().status, TransactionStatus::Executed));
    assert_eq!(t.get_executed_transaction_count(), 1);
    assert_eq!(t.get_transaction_record(tx_id).unwrap().signers, vec![OWNER]);
    assert_eq!(t.get_pending_transaction_ids().len(), 0);
    assert_eq!(t.execute_transaction(OWNER, tx_id, 6).unwrap_err(), TreasuryError::NotApproved);
}

#[test]
fn test_execute_signer_management() {
    let mut t = init(1, 10);
    let tx_id = t.propose_signer_management(OWNER, SignerAction::Add, 5, Some(Role::Signer), "add".to_string(), 0).unwrap();
    t.sign_transaction(OWNER, tx_id, 0).unwrap();
    assert!(matches!(t.execute_transaction(OWNER, tx_id, 0).unwrap(), TreasuryAction::Nothing));
    assert!(matches!(t.get_member_info(5).unwrap().role, Role::Signer));
    assert_eq!(t.get_config_info().total_signers, 2);
}

#[test]
fn emergency_recovery_needs_two_thirds_of_owners() {
    let mut t = init(1, 10);
    for o in 2..=5u64 {
        t.add_member(OWNER, o, Role::Owner, 0).unwrap();
    }
    // Five owners: 5 * 2 / 3 = 3 approvals, the activator's included.
    t.activate_emergency_recovery(OWNER, "Compromised".to_string(), 0).unwrap();
    assert_eq!(t.execute_emergency_recovery(OWNER, 9, 0), Err(TreasuryError::Unauthorized));
    assert_eq!(t.execute_emergency_recovery(2, 9, 0), Ok(false));
    assert_eq!(t.get_config_info().owner, OWNER);
    assert!(!t.get_emergency_info().unwrap().recovery_approved);
    // A repeated approval does not count twice.
    assert_eq!(t.execute_emergency_recovery(2, 9, 0), Ok(false));
    assert_eq!(t.execute_emergency_recovery(3, 9, 0), Ok(true));
    assert_eq!(t.get_config_info().owner, 9);
    assert_eq!(t.get_emergency_info().unwrap().approvals, vec![OWNER, 2, 3]);
    assert_eq!(t.execute_emergency_recovery(4, 9, 0), Err(TreasuryError::AlreadyExecuted));
}

#[test]
fn execute_transfer_succeeds_once_signed() {
    let mut t = init(1, 10);
    let id = transfer(&mut t, OWNER, 100).unwrap();
    t.sign_transaction(OWNER, id, 0).unwrap();
    let action = t.execute_transaction(OWNER, id, 5).unwrap();
    assert!(matches!(action, TreasuryAction::Transfer { token: TOKEN, to: DEST, amount: 100 }));
    assert_eq!(t.get_executed_transaction_count(), 1);
    assert!(t.get_pending_transaction_ids().is_empty());
    assert_eq!(t.execute_transaction(OWNER, id, 6).err(), Some(TreasuryError::NotApproved));
}
