use puzzle_contracts::fractional_nft::{FractionalError, FractionalNftContract, MockNFT, MockNftError, NftMove};
use puzzle_contracts::token::TokenTransfer;

const ADMIN: u64 = 1;
const OWNER: u64 = 2;
const ALICE: u64 = 3;
const BOB: u64 = 4;
const NFT_CONTRACT: u64 = 40;
const PAY_TOKEN: u64 = 50;
const RENT_TOKEN: u64 = 51;
const CONTRACT: u64 = 90;
const TOKEN_ID: u32 = 1;

fn fractionalize(c: &mut FractionalNftContract, nft: &mut MockNFT, owner: u64, bps: u32, rental: Option<u64>) -> u64 {
    let current = nft.owner_of(TOKEN_ID).unwrap();
    let (id, mv) = c.fractionalize(owner, NFT_CONTRACT, TOKEN_ID, 100, bps, rental, current, CONTRACT).unwrap();
    assert_eq!(mv, NftMove { nft_contract: NFT_CONTRACT, from: owner, to: CONTRACT, nft_id: TOKEN_ID });
    nft.transfer(mv.from, mv.to, mv.nft_id).unwrap();
    id
}

fn setup(owner: u64, bps: u32, rental: Option<u64>) -> (FractionalNftContract, MockNFT, u64) {
    let mut nft = MockNFT::new();
    nft.set_owner(TOKEN_ID, owner);
    let mut c = FractionalNftContract::initialize(ADMIN);
    let id = fractionalize(&mut c, &mut nft, owner, bps, rental);
    (c, nft, id)
}

#[test]
fn test_fractionalize_and_transfer_shares() {
    let (mut c, _nft, vault_id) = setup(OWNER, 0, None);
    assert_eq!(c.get_vault(vault_id).unwrap().total_shares, 100);
    assert_eq!(c.balance_of(vault_id, OWNER), 100);
    c.transfer_shares(vault_id, OWNER, ALICE, 25).unwrap();
    assert_eq!(c.balance_of(vault_id, OWNER), 75);
    assert_eq!(c.balance_of(vault_id, ALICE), 25);
}

#[test]
#[should_panic]
fn test_minimum_ownership_threshold_enforced() {
    // total_shares=100, min_ownership_bps=1000 => min_shares=10
    let (mut c, _nft, vault_id) = setup(OWNER, 1000, None);
    // This would leave bob with 5 shares (below 10).
    c.transfer_shares(vault_id, OWNER, BOB, 5).unwrap();
}

#[test]
fn minimum_threshold_error_leaves_balances() {
    let (mut c, _nft, vault_id) = setup(OWNER, 1000, None);
    assert_eq!(c.transfer_shares(vault_id, OWNER, BOB, 5), Err(FractionalError::BelowMinOwnershipThreshold));
    assert_eq!(c.balance_of(vault_id, OWNER), 100);
    assert_eq!(c.balance_of(vault_id, BOB), 0);
    // Leaving the sender with 5 is refused too; moving everything is allowed.
    assert_eq!(c.transfer_shares(vault_id, OWNER, BOB, 95), Err(FractionalError::BelowMinOwnershipThreshold));
    c.transfer_shares(vault_id, OWNER, BOB, 10).unwrap();
    c.transfer_shares(vault_id, OWNER, BOB, 90).unwrap();
    assert_eq!(c.balance_of(vault_id, BOB), 100);
    assert_eq!(c.balance_of(vault_id, OWNER), 0);
}

#[test]
fn test_share_trading_listing_buy_and_cancel() {
    let seller = OWNER;
    let buyer = ALICE;
    let (mut c, _nft, vault_id) = setup(seller, 0, None);
    let listing_id = c.create_listing(seller, vault_id, 20, PAY_TOKEN, 2, None, 0, CONTRACT).unwrap();
    assert_eq!(c.balance_of(vault_id, seller), 80);
    assert_eq!(c.balance_of(vault_id, CONTRACT), 20);

    let pay = c.buy_listing(buyer, listing_id, 0, CONTRACT).unwrap();
    assert_eq!(c.balance_of(vault_id, buyer), 20);
    assert_eq!(c.balance_of(vault_id, CONTRACT), 0);
    // Buyer pays seller 40 tokens.
    assert_eq!(pay, TokenTransfer { token: PAY_TOKEN, from: buyer, to: seller, amount: 40 });
    assert_eq!(c.buy_listing(BOB, listing_id, 0, CONTRACT), Err(FractionalError::ListingInactive));

    let listing_id2 = c.create_listing(seller, vault_id, 10, PAY_TOKEN, 1, None, 0, CONTRACT).unwrap();
    assert_eq!(c.balance_of(vault_id, CONTRACT), 10);
    c.cancel_listing(seller, listing_id2, CONTRACT).unwrap();
    assert_eq!(c.balance_of(vault_id, CONTRACT), 0);
    assert_eq!(c.balance_of(vault_id, seller), 80);
}

#[test]
fn listing_errors() {
    let (mut c, _nft, vault_id) = setup(OWNER, 0, None);
    assert_eq!(c.create_listing(OWNER, vault_id, 0, PAY_TOKEN, 2, None, 0, CONTRACT), Err(FractionalError::InvalidParams));
    assert_eq!(c.create_listing(OWNER, vault_id, 5, PAY_TOKEN, 2, Some(10), 10, CONTRACT), Err(FractionalError::InvalidExpiration));
    assert_eq!(c.create_listing(OWNER, 99, 5, PAY_TOKEN, 2, None, 0, CONTRACT), Err(FractionalError::VaultNotFound));
    assert_eq!(c.create_listing(OWNER, vault_id, 500, PAY_TOKEN, 2, None, 0, CONTRACT), Err(FractionalError::InsufficientBalance));
    let id = c.create_listing(OWNER, vault_id, 5, PAY_TOKEN, 2, Some(20), 10, CONTRACT).unwrap();
    assert_eq!(c.buy_listing(OWNER, id, 10, CONTRACT), Err(FractionalError::CannotBuyOwnListing));
    assert_eq!(c.buy_listing(ALICE, id, 21, CONTRACT), Err(FractionalError::ListingExpired));
    assert_eq!(c.cancel_listing(ALICE, id, CONTRACT), Err(FractionalError::NotSeller));
    assert_eq!(c.buy_listing(ALICE, 77, 10, CONTRACT), Err(FractionalError::ListingNotFound));
}

#[test]
fn test_buyout_tender_and_reclaim() {
    let original_owner = OWNER;
    let holder = ALICE;
    let buyer = BOB;
    let (mut c, _nft, vault_id) = setup(original_owner, 0, None);
    c.transfer_shares(vault_id, original_owner, holder, 30).unwrap();

    let escrow = c.start_buyout(buyer, vault_id, PAY_TOKEN, 1_000, 200, 100, CONTRACT).unwrap();
    assert_eq!(escrow, TokenTransfer { token: PAY_TOKEN, from: buyer, to: CONTRACT, amount: 1_000 });
    assert_eq!(c.start_buyout(buyer, vault_id, PAY_TOKEN, 1_000, 300, 100, CONTRACT), Err(FractionalError::BuyoutActive));

    // Holder tenders 10 shares => gets 1000 * 10 / 100 = 100.
    let paid = c.tender_shares(holder, vault_id, 10, 100, CONTRACT).unwrap();
    assert_eq!(paid, TokenTransfer { token: PAY_TOKEN, from: CONTRACT, to: holder, amount: 100 });
    assert_eq!(c.balance_of(vault_id, buyer), 10);
    assert_eq!(c.get_buyout(vault_id).unwrap().escrow_remaining, 900);
    assert_eq!(c.tender_shares(buyer, vault_id, 5, 100, CONTRACT), Err(FractionalError::BuyerCannotTender));

    // Before the end the buyer cannot reclaim; after it the rest comes back.
    assert_eq!(c.reclaim_buyout_escrow(buyer, vault_id, 200, CONTRACT), Err(FractionalError::BuyoutNotEnded));
    assert_eq!(c.tender_shares(holder, vault_id, 5, 201, CONTRACT), Err(FractionalError::BuyoutEnded));
    let back = c.reclaim_buyout_escrow(buyer, vault_id, 201, CONTRACT).unwrap();
    assert_eq!(back, Some(TokenTransfer { token: PAY_TOKEN, from: CONTRACT, to: buyer, amount: 900 }));
    assert!(!c.get_buyout(vault_id).unwrap().active);
    assert_eq!(c.reclaim_buyout_escrow(buyer, vault_id, 202, CONTRACT), Err(FractionalError::BuyoutInactive));
}

#[test]
fn test_profit_sharing_from_rentals_and_claim() {
    let payer = BOB;
    let other = ALICE;
    let (mut c, _nft, vault_id) = setup(OWNER, 0, Some(RENT_TOKEN));
    c.transfer_shares(vault_id, OWNER, other, 40).unwrap();
    let paid_in = c.deposit_rental_income(payer, vault_id, 500, CONTRACT).unwrap();
    assert_eq!(paid_in, TokenTransfer { token: RENT_TOKEN, from: payer, to: CONTRACT, amount: 500 });

    // Owner has 60%, other has 40%.
    let a = c.claim_rental_profit(OWNER, vault_id, CONTRACT).unwrap();
    let b = c.claim_rental_profit(other, vault_id, CONTRACT).unwrap();
    assert_eq!(a, TokenTransfer { token: RENT_TOKEN, from: CONTRACT, to: OWNER, amount: 300 });
    assert_eq!(b, TokenTransfer { token: RENT_TOKEN, from: CONTRACT, to: other, amount: 200 });
    assert_eq!(c.claim_rental_profit(OWNER, vault_id, CONTRACT), Err(FractionalError::NoClaimable));
}

#[test]
fn rental_income_follows_transfers() {
    let (mut c, _nft, vault_id) = setup(OWNER, 0, Some(RENT_TOKEN));
    c.deposit_rental_income(BOB, vault_id, 100, CONTRACT).unwrap();
    // Income earned before a transfer stays with the sender.
    c.transfer_shares(vault_id, OWNER, ALICE, 50).unwrap();
    c.deposit_rental_income(BOB, vault_id, 100, CONTRACT).unwrap();
    assert_eq!(c.claim_rental_profit(OWNER, vault_id, CONTRACT).unwrap().amount, 150);
    assert_eq!(c.claim_rental_profit(ALICE, vault_id, CONTRACT).unwrap().amount, 50);
}

#[test]
fn deposit_without_rental_token_refused() {
    let (mut c, _nft, vault_id) = setup(OWNER, 0, None);
    assert_eq!(c.deposit_rental_income(BOB, vault_id, 100, CONTRACT), Err(FractionalError::RentalTokenNotSet));
    assert_eq!(c.deposit_rental_income(BOB, vault_id, 0, CONTRACT), Err(FractionalError::InvalidAmount));
}

#[test]
fn test_voting_set_rental_token() {
    let voter2 = ALICE;
    let (mut c, _nft, vault_id) = setup(OWNER, 0, None);
    c.transfer_shares(vault_id, OWNER, voter2, 30).unwrap();
    let proposal_id = c.create_proposal_set_rental_token(OWNER, vault_id, RENT_TOKEN, 50, 100).unwrap();
    c.vote(OWNER, proposal_id, true, 100).unwrap();
    c.vote(voter2, proposal_id, true, 100).unwrap();
    assert_eq!(c.vote(voter2, proposal_id, true, 100), Err(FractionalError::AlreadyVoted));
    assert_eq!(c.vote(BOB, proposal_id, true, 100), Err(FractionalError::NoShares));
    assert_eq!(c.execute_proposal(proposal_id, 150), Err(FractionalError::VotingNotEnded));
    c.execute_proposal(proposal_id, 151).unwrap();
    assert_eq!(c.get_vault(vault_id).unwrap().rental_token, Some(RENT_TOKEN));
    assert_eq!(c.execute_proposal(proposal_id, 152), Err(FractionalError::AlreadyExecuted));
}

#[test]
fn defeated_proposal_not_executed() {
    let (mut c, _nft, vault_id) = setup(OWNER, 0, None);
    c.transfer_shares(vault_id, OWNER, ALICE, 30).unwrap();
    let pid = c.create_proposal_set_rental_token(ALICE, vault_id, RENT_TOKEN, 50, 100).unwrap();
    c.vote(ALICE, pid, true, 100).unwrap();
    c.vote(OWNER, pid, false, 120).unwrap();
    assert_eq!(c.vote(ALICE, pid, true, 151), Err(FractionalError::VotingEnded));
    assert_eq!(c.execute_proposal(pid, 151), Err(FractionalError::ProposalDefeated));
    assert_eq!(c.create_proposal_set_rental_token(BOB, vault_id, RENT_TOKEN, 50, 100), Err(FractionalError::NoShares));
    assert_eq!(c.create_proposal_set_rental_token(OWNER, vault_id, RENT_TOKEN, 0, 100), Err(FractionalError::InvalidVotingPeriod));
}

#[test]
fn test_recombine_merge_fractions() {
    let receiver = ALICE;
    let (mut c, mut nft, vault_id) = setup(OWNER, 0, None);
    let mv = c.recombine(OWNER, vault_id, receiver, CONTRACT).unwrap();
    nft.transfer(mv.from, mv.to, mv.nft_id).unwrap();
    assert_eq!(nft.owner_of(TOKEN_ID), Ok(receiver));
    assert!(!c.get_vault(vault_id).unwrap().active);
    assert_eq!(c.balance_of(vault_id, OWNER), 0);
    assert_eq!(c.transfer_shares(vault_id, OWNER, BOB, 1), Err(FractionalError::InsufficientBalance));
}

#[test]
fn recombine_needs_every_share() {
    let (mut c, _nft, vault_id) = setup(OWNER, 0, None);
    c.transfer_shares(vault_id, OWNER, ALICE, 1).unwrap();
    assert_eq!(c.recombine(OWNER, vault_id, ALICE, CONTRACT), Err(FractionalError::NotFullOwner));
}

#[test]
fn fractionalize_errors() {
    let mut c = FractionalNftContract::initialize(ADMIN);
    assert_eq!(c.fractionalize(OWNER, NFT_CONTRACT, 1, 0, 0, None, OWNER, CONTRACT), Err(FractionalError::InvalidTotalShares));
    assert_eq!(c.fractionalize(OWNER, NFT_CONTRACT, 1, 10, 10_001, None, OWNER, CONTRACT), Err(FractionalError::InvalidMinOwnershipBps));
    assert_eq!(c.fractionalize(OWNER, NFT_CONTRACT, 1, 10, 0, None, ALICE, CONTRACT), Err(FractionalError::NotNftOwner));
    assert_eq!(c.get_vault(1), None);
}

#[test]
fn distribute_and_allowances() {
    let (mut c, _nft, vault_id) = setup(OWNER, 0, None);
    c.distribute_shares(vault_id, OWNER, vec![ALICE, BOB], vec![10, 20]).unwrap();
    assert_eq!(c.balance_of(vault_id, ALICE), 10);
    assert_eq!(c.balance_of(vault_id, BOB), 20);
    assert_eq!(c.balance_of(vault_id, OWNER), 70);
    // A failing step undoes the earlier ones.
    assert_eq!(c.distribute_shares(vault_id, OWNER, vec![ALICE, BOB], vec![10, 0]), Err(FractionalError::InvalidAmount));
    assert_eq!(c.balance_of(vault_id, ALICE), 10);
    assert_eq!(c.balance_of(vault_id, OWNER), 70);
    assert_eq!(c.distribute_shares(vault_id, OWNER, vec![ALICE], vec![10, 0]), Err(FractionalError::LengthMismatch));

    assert_eq!(c.approve_shares(vault_id, OWNER, BOB, -1), Err(FractionalError::InvalidAmount));
    c.approve_shares(vault_id, OWNER, BOB, 15).unwrap();
    assert_eq!(c.allowance(vault_id, OWNER, BOB), 15);
    assert_eq!(c.transfer_shares_from(vault_id, BOB, OWNER, ALICE, 16), Err(FractionalError::InsufficientAllowance));
    c.transfer_shares_from(vault_id, BOB, OWNER, ALICE, 5).unwrap();
    assert_eq!(c.allowance(vault_id, OWNER, BOB), 10);
    assert_eq!(c.balance_of(vault_id, ALICE), 15);
    assert_eq!(c.transfer_shares(vault_id, OWNER, OWNER, 1), Err(FractionalError::CannotTransferToSelf));
}

#[test]
fn mock_nft_registry() {
    let mut nft = MockNFT::new();
    assert_eq!(nft.owner_of(7), Err(MockNftError::TokenNotFound));
    nft.set_owner(7, OWNER);
    assert_eq!(nft.transfer(ALICE, BOB, 7), Err(MockNftError::NotOwner));
    nft.transfer(OWNER, BOB, 7).unwrap();
    assert_eq!(nft.owner_of(7), Ok(BOB));
}
