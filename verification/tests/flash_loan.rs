use puzzle_contracts::flash_loan::{FlashLoanContract, FlashLoanError, FlashLoanStatus};
use puzzle_contracts::token::TokenTransfer;

const ADMIN: u64 = 1;
const LENDER: u64 = 2;
const BORROWER: u64 = 3;
const TOKEN: u64 = 40;
const CONTRACT: u64 = 99;
const CALLBACK: u64 = 77;

fn setup() -> FlashLoanContract {
    FlashLoanContract::initialize(ADMIN, 10).unwrap()
}

#[test]
fn test_test_initialize() {
    let c = setup();
    let config = c.get_config();
    assert_eq!(config.admin, ADMIN);
    assert_eq!(config.fee_bps, 10);
    assert_eq!(config.max_loan_ratio, 8000);
    assert_eq!(config.paused, false);
    let analytics = c.get_analytics();
    assert_eq!(analytics.total_loans, 0);
    assert_eq!(analytics.total_volume_borrowed, 0);
    assert_eq!(analytics.total_fees_collected, 0);
}

#[test]
#[should_panic]
fn test_invalid_fee_too_low() {
    FlashLoanContract::initialize(ADMIN, 5).unwrap();
}

#[test]
#[should_panic]
fn test_invalid_fee_too_high() {
    FlashLoanContract::initialize(ADMIN, 50).unwrap();
}

#[test]
fn invalid_fee_errors() {
    assert_eq!(FlashLoanContract::initialize(ADMIN, 9).err(), Some(FlashLoanError::InvalidFee));
    assert_eq!(FlashLoanContract::initialize(ADMIN, 31).err(), Some(FlashLoanError::InvalidFee));
    assert!(FlashLoanContract::initialize(ADMIN, 30).is_ok());
}

#[test]
fn test_add_liquidity() {
    let mut c = setup();
    let t = c.add_liquidity(LENDER, TOKEN, 5_000, 100, CONTRACT).unwrap();
    assert_eq!(t, TokenTransfer { token: TOKEN, from: LENDER, to: CONTRACT, amount: 5_000 });
    let pool = c.get_pool(TOKEN).unwrap();
    assert_eq!(pool.total_liquidity, 5_000);
    assert_eq!(pool.available_liquidity, 5_000);
    assert_eq!(pool.fees_collected, 0);
}

#[test]
fn test_add_liquidity_multiple_times() {
    let mut c = setup();
    c.add_liquidity(LENDER, TOKEN, 3_000, 100, CONTRACT).unwrap();
    c.add_liquidity(LENDER, TOKEN, 2_000, 101, CONTRACT).unwrap();
    let pool = c.get_pool(TOKEN).unwrap();
    assert_eq!(pool.total_liquidity, 5_000);
    assert_eq!(pool.available_liquidity, 5_000);
    assert_eq!(pool.lenders, vec![LENDER]);
}

#[test]
fn test_remove_liquidity() {
    let mut c = setup();
    c.add_liquidity(LENDER, TOKEN, 5_000, 100, CONTRACT).unwrap();
    let t = c.remove_liquidity(LENDER, TOKEN, 2_000, CONTRACT).unwrap();
    assert_eq!(t, TokenTransfer { token: TOKEN, from: CONTRACT, to: LENDER, amount: 2_000 });
    let pool = c.get_pool(TOKEN).unwrap();
    assert_eq!(pool.total_liquidity, 3_000);
    assert_eq!(pool.available_liquidity, 3_000);
    assert_eq!(c.get_lender_position(TOKEN, LENDER).unwrap().amount, 3_000);
}

#[test]
#[should_panic]
fn test_remove_liquidity_too_much() {
    let mut c = setup();
    c.add_liquidity(LENDER, TOKEN, 5_000, 100, CONTRACT).unwrap();
    c.remove_liquidity(LENDER, TOKEN, 10_000, CONTRACT).unwrap();
}

#[test]
fn remove_liquidity_errors_leave_state() {
    let mut c = setup();
    assert_eq!(c.remove_liquidity(LENDER, TOKEN, 1, CONTRACT), Err(FlashLoanError::PoolNotFound));
    c.add_liquidity(LENDER, TOKEN, 5_000, 100, CONTRACT).unwrap();
    assert_eq!(c.remove_liquidity(LENDER, TOKEN, 10_000, CONTRACT), Err(FlashLoanError::InsufficientLiquidity));
    assert_eq!(c.remove_liquidity(BORROWER, TOKEN, 10, CONTRACT), Err(FlashLoanError::LenderPositionNotFound));
    assert_eq!(c.remove_liquidity(LENDER, TOKEN, 0, CONTRACT), Err(FlashLoanError::InvalidAmount));
    assert_eq!(c.get_pool(TOKEN).unwrap().available_liquidity, 5_000);
}

#[test]
fn test_calculate_fee() {
    let c = setup();
    assert_eq!(c.calculate_fee(10_000), 10);
    assert_eq!(c.calculate_fee(999), 0);
}

#[test]
fn test_set_fee_bps() {
    let mut c = setup();
    c.set_fee_bps(ADMIN, 20).unwrap();
    assert_eq!(c.get_config().fee_bps, 20);
    assert_eq!(c.calculate_fee(10_000), 20);
    assert_eq!(c.set_fee_bps(ADMIN, 31), Err(FlashLoanError::InvalidFee));
}

#[test]
fn test_set_max_loan_ratio() {
    let mut c = setup();
    c.set_max_loan_ratio(ADMIN, 5000).unwrap();
    assert_eq!(c.get_config().max_loan_ratio, 5000);
}

#[test]
fn test_pause_unpause() {
    let mut c = setup();
    c.pause(ADMIN).unwrap();
    assert_eq!(c.get_config().paused, true);
    c.unpause(ADMIN).unwrap();
    assert_eq!(c.get_config().paused, false);
}

#[test]
fn test_get_analytics() {
    let c = setup();
    let analytics = c.get_analytics();
    assert_eq!(analytics.total_loans, 0);
    assert_eq!(analytics.total_volume_borrowed, 0);
    assert_eq!(analytics.total_fees_collected, 0);
    assert_eq!(analytics.total_repaid, 0);
    assert_eq!(analytics.defaulted_loans, 0);
}

#[test]
fn test_get_all_pools() {
    let mut c = setup();
    c.add_liquidity(LENDER, TOKEN, 5_000, 100, CONTRACT).unwrap();
    let pools = c.get_all_pools();
    assert_eq!(pools.len(), 1);
    assert_eq!(pools[0], TOKEN);
}

#[test]
fn test_get_lender_position() {
    let mut c = setup();
    c.add_liquidity(LENDER, TOKEN, 5_000, 100, CONTRACT).unwrap();
    let position = c.get_lender_position(TOKEN, LENDER).unwrap();
    assert_eq!(position.amount, 5_000);
    assert_eq!(position.lender, LENDER);
}

#[test]
#[should_panic]
fn test_non_admin_set_fee() {
    let mut c = setup();
    c.set_fee_bps(BORROWER, 20).unwrap();
}

#[test]
#[should_panic]
fn test_paused_add_liquidity() {
    let mut c = setup();
    c.pause(ADMIN).unwrap();
    c.add_liquidity(LENDER, TOKEN, 5_000, 100, CONTRACT).unwrap();
}

#[test]
fn flash_loan_repaid_in_full() {
    let mut c = setup();
    c.add_liquidity(LENDER, TOKEN, 10_000, 100, CONTRACT).unwrap();
    let start = c.begin_flash_loan(BORROWER, TOKEN, 5_000, CALLBACK, 200, CONTRACT).unwrap();
    assert_eq!(start.fee, 5);
    assert_eq!(start.payout, TokenTransfer { token: TOKEN, from: CONTRACT, to: BORROWER, amount: 5_000 });
    // Balance before the loan was 10 000; principal plus fee came back.
    let loan_id = c.settle_flash_loan(10_005, 200).unwrap();
    assert_eq!(loan_id, start.loan_id);
    let rec = c.get_flash_loan(loan_id).unwrap();
    assert_eq!(rec.status, FlashLoanStatus::Repaid);
    assert_eq!(rec.repayment_amount, 5_005);
    let pool = c.get_pool(TOKEN).unwrap();
    assert_eq!(pool.available_liquidity, 10_005);
    assert_eq!(pool.fees_collected, 5);
    assert_eq!(c.get_analytics().total_loans, 1);
}

#[test]
fn flash_loan_limits_and_short_repayment() {
    let mut c = setup();
    c.add_liquidity(LENDER, TOKEN, 10_000, 100, CONTRACT).unwrap();
    assert_eq!(
        c.begin_flash_loan(BORROWER, TOKEN, 9_000, CALLBACK, 200, CONTRACT).err(),
        Some(FlashLoanError::ExceedsMaxLoan)
    );
    assert_eq!(
        c.begin_flash_loan(BORROWER, TOKEN + 1, 10, CALLBACK, 200, CONTRACT).err(),
        Some(FlashLoanError::PoolNotFound)
    );
    c.begin_flash_loan(BORROWER, TOKEN, 1_000, CALLBACK, 200, CONTRACT).unwrap();
    assert_eq!(
        c.begin_flash_loan(BORROWER, TOKEN, 10, CALLBACK, 200, CONTRACT).err(),
        Some(FlashLoanError::ReentrancyDetected)
    );
    assert_eq!(c.settle_flash_loan(10_000, 200), Err(FlashLoanError::NotRepaid));
    // The unpaid loan is undone: no record, the pool as before, a new loan allowed.
    assert!(c.get_flash_loan(1).is_none());
    assert_eq!(c.get_pool(TOKEN).unwrap().available_liquidity, 10_000);
    assert_eq!(c.get_pool(TOKEN).unwrap().total_borrowed, 0);
    let again = c.begin_flash_loan(BORROWER, TOKEN, 1_000, CALLBACK, 300, CONTRACT).unwrap();
    assert_eq!(again.loan_id, 1);
    assert_eq!(c.settle_flash_loan(10_001, 300), Ok(1));
    assert_eq!(
        c.begin_flash_loan(BORROWER, TOKEN, 8_001, CALLBACK, 300, CONTRACT).err(),
        Some(FlashLoanError::ExceedsMaxLoan)
    );
}

#[test]
fn withdraw_fees_after_loan() {
    let mut c = setup();
    c.add_liquidity(LENDER, TOKEN, 10_000, 100, CONTRACT).unwrap();
    c.begin_flash_loan(BORROWER, TOKEN, 5_000, CALLBACK, 200, CONTRACT).unwrap();
    c.settle_flash_loan(10_005, 200).unwrap();
    assert_eq!(c.withdraw_fees(ADMIN, TOKEN, 6, CONTRACT), Err(FlashLoanError::InsufficientFees));
    let t = c.withdraw_fees(ADMIN, TOKEN, 5, CONTRACT).unwrap();
    assert_eq!(t, TokenTransfer { token: TOKEN, from: CONTRACT, to: ADMIN, amount: 5 });
    assert_eq!(c.get_pool(TOKEN).unwrap().fees_collected, 0);
}
