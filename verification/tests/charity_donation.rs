use puzzle_contracts::charity_donation::{CharityContract, CharityError};
use puzzle_contracts::token::TokenTransfer;

const ADMIN: u64 = 1;
const TOKEN: u64 = 50;
const WALLET: u64 = 60;
const CONTRACT: u64 = 70;

fn setup() -> (CharityContract, u32) {
    let mut c = CharityContract::initialize(ADMIN, TOKEN);
    let id = c.add_charity(ADMIN, "Test Charity".to_string(), WALLET).unwrap();
    c.verify_charity(ADMIN, id).unwrap();
    (c, id)
}

#[test]
fn test_donation_flow() {
    let (mut c, charity_id) = setup();
    assert_eq!(charity_id, 1);
    let t = c.donate(2, charity_id, 1000).unwrap();
    assert_eq!(t, TokenTransfer { token: TOKEN, from: 2, to: WALLET, amount: 1000 });
    let charity = c.get_charity(charity_id).unwrap();
    assert_eq!(charity.total_raised, 1000);
    assert_eq!(charity.contributor_count, 1);
    assert_eq!(c.get_donor_total(2, charity_id), 1000);
}

#[test]
fn test_quadratic_funding() {
    let (mut c, charity_id) = setup();
    c.donate(2, charity_id, 100).unwrap();
    c.donate(3, charity_id, 100).unwrap();
    let fund = c.fund_matching_pool(4, 10000, CONTRACT);
    assert_eq!(fund, TokenTransfer { token: TOKEN, from: 4, to: CONTRACT, amount: 10000 });
    let (matched, t) = c.distribute_matching(ADMIN, charity_id, CONTRACT).unwrap();
    assert!(matched > 0);
    assert_eq!(matched, 200);
    assert_eq!(t, Some(TokenTransfer { token: TOKEN, from: CONTRACT, to: WALLET, amount: 200 }));
    assert_eq!(c.matching_pool, 9800);
}

#[test]
fn test_receipt_issuance() {
    let (mut c, charity_id) = setup();
    c.donate(2, charity_id, 500).unwrap();
    assert_eq!(c.issue_receipt(2, charity_id).unwrap(), 1);
    assert_eq!(c.issue_receipt(3, charity_id), Err(CharityError::NoDonationsFound));
}

#[test]
fn test_recurring_donations() {
    let (mut c, charity_id) = setup();
    c.set_recurring(2, charity_id, 100, true);
    c.set_recurring(2, charity_id, 100, false);
}

#[test]
fn test_leaderboard() {
    let (mut c, charity_id) = setup();
    c.donate(2, charity_id, 1000).unwrap();
    c.donate(3, charity_id, 500).unwrap();
    let board = c.get_leaderboard();
    assert_eq!(board.len(), 2);
    assert_eq!(board[0].0, 2);
    assert_eq!(board[0].1, 1000);
}

#[test]
fn leaderboard_accumulates_and_keeps_ten() {
    let (mut c, charity_id) = setup();
    for d in 10..22u64 {
        c.donate(d, charity_id, d as i128).unwrap();
    }
    // Donor 10 fell off the board, so its new gift enters as a fresh entry.
    c.donate(10, charity_id, 100).unwrap();
    let board = c.get_leaderboard();
    assert_eq!(board.len(), 10);
    assert_eq!(board[0], (10, 100));
    // A donor still on the board accumulates.
    c.donate(21, charity_id, 100).unwrap();
    assert_eq!(c.get_leaderboard()[0], (21, 121));
    for w in board.windows(2) {
        assert!(w[0].1 >= w[1].1);
    }
}

#[test]
#[should_panic]
fn test_unverified_charity_donation() {
    let mut c = CharityContract::initialize(ADMIN, TOKEN);
    let id = c.add_charity(ADMIN, "Unverified".to_string(), WALLET).unwrap();
    c.donate(2, id, 1000).unwrap();
}

#[test]
fn integer_square_roots() {
    assert_eq!(CharityContract::sqrt(0), 0);
    assert_eq!(CharityContract::sqrt(1), 1);
    assert_eq!(CharityContract::sqrt(99), 9);
    assert_eq!(CharityContract::sqrt(100), 10);
    assert_eq!(CharityContract::sqrt(i128::MAX - 1), 13043817825332782212);
    assert_eq!(CharityContract::sqrt(-5), -5);
}
