use puzzle_contracts::nft_leasing::{DisputeStatus, Error, LeaseStatus, NFTLeasingContract};
use puzzle_contracts::token::TokenTransfer;

const ADMIN: u64 = 1;
const LESSOR: u64 = 2;
const LESSEE: u64 = 3;
const TOKEN: u64 = 50;
const CONTRACT: u64 = 90;

fn setup() -> NFTLeasingContract {
    NFTLeasingContract::initialize(ADMIN, TOKEN)
}

fn pay(to: u64, amount: i128) -> TokenTransfer {
    TokenTransfer { token: TOKEN, from: CONTRACT, to, amount }
}

#[test]
fn test_create_lease() {
    let mut c = setup();
    let lease_id = c.create_lease(LESSOR, LESSEE, 1, 86400, 70, 0, false).unwrap();
    assert_eq!(lease_id, 1);
    let lease = c.get_lease(lease_id).unwrap();
    assert_eq!(lease.lessor, LESSOR);
    assert_eq!(lease.lessee, LESSEE);
    assert_eq!(lease.nft_id, 1);
    assert_eq!(lease.lessor_share, 70);
    assert_eq!(lease.status, LeaseStatus::Pending);
    assert!(lease.collateral_deposited);
}

#[test]
fn test_activate_lease_no_collateral() {
    let mut c = setup();
    let lease_id = c.create_lease(LESSOR, LESSEE, 1, 86400, 60, 0, false).unwrap();
    c.activate_lease(lease_id, 0).unwrap();
    assert_eq!(c.get_lease(lease_id).unwrap().status, LeaseStatus::Active);
}

#[test]
fn test_collateral_deposit_and_activate() {
    let mut c = setup();
    let collateral = 10_000i128;
    let lease_id = c.create_lease(LESSOR, LESSEE, 2, 86400, 50, collateral, false).unwrap();
    assert!(!c.get_lease(lease_id).unwrap().collateral_deposited);
    let t = c.deposit_collateral(lease_id, CONTRACT).unwrap();
    assert_eq!(t, Some(TokenTransfer { token: TOKEN, from: LESSEE, to: CONTRACT, amount: collateral }));
    assert!(c.get_lease(lease_id).unwrap().collateral_deposited);
    // A second deposit moves nothing.
    assert_eq!(c.deposit_collateral(lease_id, CONTRACT), Ok(None));
    c.activate_lease(lease_id, 0).unwrap();
    assert_eq!(c.get_lease(lease_id).unwrap().status, LeaseStatus::Active);
}

#[test]
fn test_record_reward_and_distribute() {
    let mut c = setup();
    let lease_id = c.create_lease(LESSOR, LESSEE, 3, 86400, 70, 0, false).unwrap();
    c.activate_lease(lease_id, 0).unwrap();
    c.record_reward(lease_id, 1_000, 0).unwrap();
    assert_eq!(c.get_lease(lease_id).unwrap().total_revenue, 1_000);
    let ts = c.distribute_revenue(lease_id, CONTRACT).unwrap();
    assert_eq!(ts, vec![pay(LESSOR, 700), pay(LESSEE, 300)]);
    let lease = c.get_lease(lease_id).unwrap();
    assert_eq!(lease.lessor_earned, 700);
    assert_eq!(lease.lessee_earned, 300);
}

#[test]
fn test_multiple_reward_distributions() {
    let mut c = setup();
    let lease_id = c.create_lease(LESSOR, LESSEE, 4, 86400, 60, 0, false).unwrap();
    c.activate_lease(lease_id, 0).unwrap();
    c.record_reward(lease_id, 1_000, 0).unwrap();
    let first = c.distribute_revenue(lease_id, CONTRACT).unwrap();
    c.record_reward(lease_id, 1_000, 0).unwrap();
    let second = c.distribute_revenue(lease_id, CONTRACT).unwrap();
    assert_eq!(first, vec![pay(LESSOR, 600), pay(LESSEE, 400)]);
    assert_eq!(second, vec![pay(LESSOR, 600), pay(LESSEE, 400)]);
    let lease = c.get_lease(lease_id).unwrap();
    assert_eq!(lease.total_revenue, 2_000);
    assert_eq!(lease.lessor_earned, 1_200);
    assert_eq!(lease.lessee_earned, 800);
    // Nothing is left to distribute.
    assert_eq!(c.distribute_revenue(lease_id, CONTRACT), Ok(vec![]));
}

#[test]
fn test_lease_renewal() {
    let mut c = setup();
    let lease_id = c.create_lease(LESSOR, LESSEE, 5, 1000, 50, 0, true).unwrap();
    c.activate_lease(lease_id, 0).unwrap();
    c.renew_lease(lease_id, 5000, 2000).unwrap();
    let lease = c.get_lease(lease_id).unwrap();
    assert_eq!(lease.status, LeaseStatus::Active);
    assert_eq!(lease.duration, 5000);
    assert_eq!(lease.start_time, 2000);
    assert_eq!(lease.renewal_count, 1);
}

#[test]
fn test_lease_termination_returns_collateral() {
    let mut c = setup();
    let collateral = 5_000i128;
    let lease_id = c.create_lease(LESSOR, LESSEE, 6, 86400, 50, collateral, false).unwrap();
    c.deposit_collateral(lease_id, CONTRACT).unwrap();
    c.activate_lease(lease_id, 0).unwrap();
    let ts = c.terminate_lease(lease_id, LESSOR, CONTRACT).unwrap();
    assert_eq!(ts, vec![pay(LESSEE, collateral)]);
    assert_eq!(c.get_lease(lease_id).unwrap().status, LeaseStatus::Terminated);
}

#[test]
fn test_terminate_distributes_remaining_revenue() {
    let mut c = setup();
    let lease_id = c.create_lease(LESSOR, LESSEE, 7, 86400, 80, 0, false).unwrap();
    c.activate_lease(lease_id, 0).unwrap();
    c.record_reward(lease_id, 500, 0).unwrap();
    let ts = c.terminate_lease(lease_id, LESSEE, CONTRACT).unwrap();
    assert_eq!(ts, vec![pay(LESSOR, 400), pay(LESSEE, 100)]);
}

#[test]
fn test_test_marketplace_listing_and_take() {
    let mut c = setup();
    let listing_id = c.list_on_marketplace(LESSOR, 8, 60, 86400, 0, true).unwrap();
    assert_eq!(listing_id, 1);
    let listing = c.get_listing(listing_id).unwrap();
    assert!(listing.active);
    assert_eq!(listing.lessor_share, 60);
    let lease_id = c.take_marketplace_listing(listing_id, LESSEE).unwrap();
    let lease = c.get_lease(lease_id).unwrap();
    assert_eq!(lease.lessor, LESSOR);
    assert_eq!(lease.lessee, LESSEE);
    assert_eq!(lease.nft_id, 8);
    assert_eq!(lease.status, LeaseStatus::Pending);
    assert!(lease.renewable);
    assert!(!c.get_listing(listing_id).unwrap().active);
    // A closed listing cannot be taken again.
    assert_eq!(c.take_marketplace_listing(listing_id, LESSEE), Err(Error::ListingNotFound));
}

#[test]
fn test_marketplace_listing_with_collateral() {
    let mut c = setup();
    let listing_id = c.list_on_marketplace(LESSOR, 9, 70, 3600, 2_000, false).unwrap();
    let lease_id = c.take_marketplace_listing(listing_id, LESSEE).unwrap();
    let lease = c.get_lease(lease_id).unwrap();
    assert_eq!(lease.collateral, 2_000);
    assert!(!lease.collateral_deposited);
    c.deposit_collateral(lease_id, CONTRACT).unwrap();
    c.activate_lease(lease_id, 0).unwrap();
    assert_eq!(c.get_lease(lease_id).unwrap().status, LeaseStatus::Active);
}

#[test]
fn test_open_and_resolve_dispute_favor_lessor() {
    let mut c = setup();
    let collateral = 3_000i128;
    let lease_id = c.create_lease(LESSOR, LESSEE, 10, 86400, 50, collateral, false).unwrap();
    c.deposit_collateral(lease_id, CONTRACT).unwrap();
    c.activate_lease(lease_id, 0).unwrap();
    let dispute_id = c.open_dispute(lease_id, LESSOR, "Lessee violated terms".to_string(), 10).unwrap();
    assert_eq!(c.get_lease(lease_id).unwrap().status, LeaseStatus::Disputed);
    assert_eq!(c.get_dispute(dispute_id).unwrap().status, DisputeStatus::Open);
    assert_eq!(c.open_dispute(lease_id, LESSEE, "again".to_string(), 11), Err(Error::AlreadyDisputed));
    let t = c.resolve_dispute(dispute_id, true, CONTRACT).unwrap();
    assert_eq!(t, Some(pay(LESSOR, collateral)));
    assert_eq!(c.get_dispute(dispute_id).unwrap().status, DisputeStatus::ResolvedForLessor);
    assert_eq!(c.get_lease(lease_id).unwrap().status, LeaseStatus::Terminated);
}

#[test]
fn test_open_and_resolve_dispute_favor_lessee() {
    let mut c = setup();
    let collateral = 2_000i128;
    let lease_id = c.create_lease(LESSOR, LESSEE, 11, 86400, 50, collateral, false).unwrap();
    c.deposit_collateral(lease_id, CONTRACT).unwrap();
    c.activate_lease(lease_id, 0).unwrap();
    let dispute_id = c.open_dispute(lease_id, LESSEE, "Lessor withheld NFT access".to_string(), 10).unwrap();
    let t = c.resolve_dispute(dispute_id, false, CONTRACT).unwrap();
    assert_eq!(t, Some(pay(LESSEE, collateral)));
    let dispute = c.get_dispute(dispute_id).unwrap();
    assert_eq!(dispute.status, DisputeStatus::ResolvedForLessee);
    assert_eq!(dispute.reason, "Lessor withheld NFT access");
}

#[test]
fn test_lease_expiry_on_reward_record() {
    let mut c = setup();
    let lease_id = c.create_lease(LESSOR, LESSEE, 12, 1000, 50, 0, false).unwrap();
    c.activate_lease(lease_id, 0).unwrap();
    let result = c.record_reward(lease_id, 100, 5000);
    assert!(result.is_err());
    assert_eq!(c.get_lease(lease_id).unwrap().status, LeaseStatus::Expired);
    assert_eq!(c.get_lease(lease_id).unwrap().total_revenue, 0);
}

#[test]
fn test_invalid_split_rejected() {
    let mut c = setup();
    let result = c.create_lease(LESSOR, LESSEE, 1, 86400, 101, 0, false);
    assert_eq!(result, Err(Error::InvalidSplit));
}

#[test]
fn test_zero_duration_rejected() {
    let mut c = setup();
    let result = c.create_lease(LESSOR, LESSEE, 1, 0, 50, 0, false);
    assert_eq!(result, Err(Error::InvalidTerms));
}

#[test]
fn test_non_renewable_lease_cannot_renew() {
    let mut c = setup();
    let lease_id = c.create_lease(LESSOR, LESSEE, 13, 86400, 50, 0, false).unwrap();
    c.activate_lease(lease_id, 0).unwrap();
    assert_eq!(c.renew_lease(lease_id, 86400, 0), Err(Error::InvalidTerms));
}

#[test]
fn test_activate_without_collateral_rejected() {
    let mut c = setup();
    let lease_id = c.create_lease(LESSOR, LESSEE, 14, 86400, 50, 5_000, false).unwrap();
    assert_eq!(c.activate_lease(lease_id, 0), Err(Error::InsufficientCollateral));
}

#[test]
fn test_full_lease_flow() {
    let mut c = setup();
    let collateral = 1_000i128;
    let lease_id = c.create_lease(LESSOR, LESSEE, 99, 86400, 70, collateral, true).unwrap();
    c.deposit_collateral(lease_id, CONTRACT).unwrap();
    c.activate_lease(lease_id, 0).unwrap();
    c.record_reward(lease_id, 1_000, 0).unwrap();
    c.record_reward(lease_id, 2_000, 0).unwrap();
    let ts = c.distribute_revenue(lease_id, CONTRACT).unwrap();
    assert_eq!(ts, vec![pay(LESSOR, 2_100), pay(LESSEE, 900)]);
    c.renew_lease(lease_id, 86400, 100_000).unwrap();
    let lease = c.get_lease(lease_id).unwrap();
    assert_eq!(lease.renewal_count, 1);
    assert_eq!(lease.status, LeaseStatus::Active);
    let ts = c.terminate_lease(lease_id, LESSOR, CONTRACT).unwrap();
    assert_eq!(ts, vec![pay(LESSEE, collateral)]);
    assert_eq!(c.get_lease(lease_id).unwrap().status, LeaseStatus::Terminated);
    assert_eq!(c.terminate_lease(lease_id, LESSOR, CONTRACT), Err(Error::LeaseNotTerminable));
}

#[test]
fn leasing_lookup_and_caller_errors() {
    let mut c = setup();
    assert_eq!(c.get_lease(7).err(), Some(Error::LeaseNotFound));
    assert_eq!(c.get_listing(7).err(), Some(Error::ListingNotFound));
    assert_eq!(c.get_dispute(7).err(), Some(Error::DisputeNotFound));
    assert_eq!(c.resolve_dispute(7, true, CONTRACT), Err(Error::DisputeNotFound));
    let lease_id = c.create_lease(LESSOR, LESSEE, 1, 100, 50, 0, false).unwrap();
    assert_eq!(c.terminate_lease(lease_id, 77, CONTRACT), Err(Error::UnauthorizedCaller));
    assert_eq!(c.open_dispute(lease_id, 77, "x".to_string(), 0), Err(Error::UnauthorizedCaller));
    assert_eq!(c.distribute_revenue(lease_id, CONTRACT), Err(Error::LeaseExpired));
    c.activate_lease(lease_id, 0).unwrap();
    assert_eq!(c.activate_lease(lease_id, 0), Err(Error::LeaseAlreadyActive));
    assert_eq!(c.list_on_marketplace(LESSOR, 1, 101, 10, 0, false), Err(Error::InvalidSplit));
}
