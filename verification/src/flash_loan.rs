//! Flash loans from per-token liquidity pools: lenders deposit, borrowers take
//! a loan that must be repaid with a fee within the same transaction.
//!
//! A flash loan is two steps here: `begin_flash_loan` decides and records the
//! loan and hands back the transfer and callback to perform; once they are
//! done, `settle_flash_loan` checks the contract's token balance and settles.
use vstd::prelude::*;
use crate::assoc::{AssocMap, PairMap};
use crate::seqs::{contains_u64, copy_vec};
use crate::token::TokenTransfer;

verus! {

pub const BASIS_POINTS: i128 = 10_000;
pub const MIN_FEE_BPS: u32 = 10;
pub const MAX_FEE_BPS: u32 = 30;

#[derive(Clone, Copy, Debug, PartialEq, Eq, Structural)]
pub enum FlashLoanError {
    InvalidFee,
    InvalidRatio,
    InvalidAmount,
    Paused,
    ReentrancyDetected,
    PoolNotFound,
    ExceedsMaxLoan,
    InsufficientLiquidity,
    LenderPositionNotFound,
    InsufficientLenderBalance,
    InsufficientFees,
    AdminOnly,
    NotRepaid,
    NoLoanInFlight,
}

#[derive(Clone, Copy, Debug, PartialEq, Eq, Structural)]
pub enum FlashLoanStatus {
    Active,
    Repaid,
    Defaulted,
}

#[derive(Clone, Copy, Debug, PartialEq, Eq, Structural)]
pub struct FlashLoanConfig {
    pub admin: u64,
    pub fee_bps: u32,
    pub max_loan_ratio: u32,
    pub paused: bool,
}

#[derive(Debug)]
pub struct LiquidityPool {
    pub token: u64,
    pub total_liquidity: i128,
    pub available_liquidity: i128,
    pub total_borrowed: i128,
    pub fees_collected: i128,
    pub lenders: Vec<u64>,
}

#[derive(Clone, Copy, Debug, PartialEq, Eq, Structural)]
pub struct LenderPosition {
    pub lender: u64,
    pub amount: i128,
    pub deposit_time: u64,
}

#[derive(Clone, Copy, Debug, PartialEq, Eq, Structural)]
pub struct FlashLoanRecord {
    pub loan_id: u64,
    pub borrower: u64,
    pub token: u64,
    pub principal: i128,
    pub fee: i128,
    pub repayment_amount: i128,
    pub start_time: u64,
    pub end_time: u64,
    pub status: FlashLoanStatus,
    pub callback_contract: u64,
}

#[derive(Clone, Copy, Debug, PartialEq, Eq, Structural)]
pub struct FlashLoanAnalytics {
    pub total_loans: u64,
    pub total_volume_borrowed: i128,
    pub total_fees_collected: i128,
    pub total_repaid: i128,
    pub defaulted_loans: u64,
    pub unique_borrowers: u64,
}

/// A loan between its two steps.
#[derive(Clone, Copy, Debug, PartialEq, Eq, Structural)]
pub struct LoanInFlight {
    pub loan_id: u64,
    pub token: u64,
    pub amount: i128,
    pub fee: i128,
    /// The token balance the contract must hold when the callback returns.
    pub expected_balance: i128,
    /// What the loan changed, kept so that an unpaid loan can be undone:
    /// the record under the loan's id and the pool's available and borrowed
    /// amounts before the loan.
    pub prior_record: Option<FlashLoanRecord>,
    pub prior_available: i128,
    pub prior_borrowed: i128,
}

/// What the host does between the two steps: pay out the principal, then
/// call `flash_loan_callback(borrower, token, amount, fee, data)` on the
/// callback contract.
#[derive(Clone, Copy, Debug, PartialEq, Eq, Structural)]
pub struct FlashLoanStart {
    pub loan_id: u64,
    pub payout: TokenTransfer,
    pub callback_contract: u64,
    pub borrower: u64,
    pub token: u64,
    pub amount: i128,
    pub fee: i128,
}

/// The state of the flash loan contract.
pub struct FlashLoanContract {
    pub config: FlashLoanConfig,
    pub analytics: FlashLoanAnalytics,
    pub loan_counter: u64,
    /// Pools by token.
    pub pools: AssocMap<LiquidityPool>,
    pub pool_list: Vec<u64>,
    pub loans: AssocMap<FlashLoanRecord>,
    /// Positions by (token, lender).
    pub positions: PairMap<LenderPosition>,
    pub reentrancy_guard: bool,
    pub paused: bool,
    pub in_flight: Option<LoanInFlight>,
}

/// The fee on an amount at a rate in basis points (truncated toward zero).
pub open spec fn fee_spec(amount: i128, fee_bps: u32) -> int {
    let p = amount * fee_bps;
    if p >= 0 { p / 10000 } else { -((-p) / 10000) }
}

/// The largest loan a pool allows at a ratio in basis points.
pub open spec fn max_loan_spec(available: i128, ratio: u32) -> int {
    let p = available * ratio;
    if p >= 0 { p / 10000 } else { -((-p) / 10000) }
}

/// Truncating division by 10 000, as Rust's `/` does.
fn div_bps(p: i128) -> (r: i128)
    ensures
        r == (if p >= 0 { p / 10000 } else { -((-p) / 10000) }),
{
    p / 10000
}

/// The numbers of a pool (its lenders aside).
pub open spec fn pool_numbers(p: LiquidityPool) -> (i128, i128, i128, i128) {
    (p.total_liquidity, p.available_liquidity, p.total_borrowed, p.fees_collected)
}

impl FlashLoanContract {
    /// The contract as `initialize` leaves it; the fee must be 10 to 30 basis points.
    pub fn initialize(admin: u64, fee_bps: u32) -> (r: Result<Self, FlashLoanError>)
        ensures
            r is Err <==> (fee_bps < MIN_FEE_BPS || fee_bps > MAX_FEE_BPS),
            r is Err ==> r == Err::<Self, FlashLoanError>(FlashLoanError::InvalidFee),
            r matches Ok(c) ==> {
                &&& c.config == (FlashLoanConfig { admin, fee_bps, max_loan_ratio: 8000, paused: false })
                &&& c.analytics == (FlashLoanAnalytics { total_loans: 0, total_volume_borrowed: 0, total_fees_collected: 0, total_repaid: 0, defaulted_loans: 0, unique_borrowers: 0 })
                &&& c.loan_counter == 0
                &&& c.pools@ == Map::<u64, LiquidityPool>::empty()
                &&& c.pool_list@ == Seq::<u64>::empty()
                &&& c.loans@ == Map::<u64, FlashLoanRecord>::empty()
                &&& c.positions@ == Map::<(u64, u64), LenderPosition>::empty()
                &&& !c.reentrancy_guard
                &&& !c.paused
                &&& c.in_flight is None
            },
    {
        if fee_bps < MIN_FEE_BPS || fee_bps > MAX_FEE_BPS {
            return Err(FlashLoanError::InvalidFee);
        }
        Ok(FlashLoanContract {
            config: FlashLoanConfig { admin, fee_bps, max_loan_ratio: 8000, paused: false },
            analytics: FlashLoanAnalytics { total_loans: 0, total_volume_borrowed: 0, total_fees_collected: 0, total_repaid: 0, defaulted_loans: 0, unique_borrowers: 0 },
            loan_counter: 0,
            pools: AssocMap::new(),
            pool_list: Vec::new(),
            loans: AssocMap::new(),
            positions: PairMap::new(),
            reentrancy_guard: false,
            paused: false,
            in_flight: None,
        })
    }

    pub open spec fn pool_nums(&self, token: u64) -> (i128, i128, i128, i128) {
        if self.pools@.contains_key(token) { pool_numbers(self.pools@[token]) } else { (0, 0, 0, 0) }
    }

    pub open spec fn lenders_of(&self, token: u64) -> Seq<u64> {
        if self.pools@.contains_key(token) { self.pools@[token].lenders@ } else { Seq::empty() }
    }

    /// Deposits `amount` of `token` from `lender` (who has authorised) at
    /// time `now` and returns the transfer into the contract. The lender's
    /// position is set to this deposit.
    pub fn add_liquidity(&mut self, lender: u64, token: u64, amount: i128, now: u64, contract: u64) -> (r: Result<TokenTransfer, FlashLoanError>)
        requires
            old(self).pool_nums(token).0 + amount <= i128::MAX,
            old(self).pool_nums(token).1 + amount <= i128::MAX,
        ensures
            r == (if old(self).config.paused {
                Err(FlashLoanError::Paused)
            } else if amount <= 0 {
                Err(FlashLoanError::InvalidAmount)
            } else {
                Ok(TokenTransfer { token, from: lender, to: contract, amount })
            }),
            r is Err ==> *final(self) == *old(self),
            r is Ok ==> {
                let (t, a, b, f) = old(self).pool_nums(token);
                &&& final(self).pools@.contains_key(token)
                &&& final(self).pools@[token].token == (if old(self).pools@.contains_key(token) { old(self).pools@[token].token } else { token })
                &&& pool_numbers(final(self).pools@[token]) == ((t + amount) as i128, (a + amount) as i128, b, f)
                &&& final(self).lenders_of(token) == (if old(self).lenders_of(token).contains(lender) {
                    old(self).lenders_of(token)
                } else {
                    old(self).lenders_of(token).push(lender)
                })
                &&& forall|k: u64| k != token ==> #[trigger] final(self).pools@.contains_key(k) == old(self).pools@.contains_key(k)
                &&& forall|k: u64| k != token && old(self).pools@.contains_key(k) ==> #[trigger] final(self).pools@[k] == old(self).pools@[k]
                &&& final(self).pool_list@ == (if !old(self).pools@.contains_key(token) && !old(self).pool_list@.contains(token) {
                    old(self).pool_list@.push(token)
                } else {
                    old(self).pool_list@
                })
                &&& final(self).positions@ == old(self).positions@.insert((token, lender), LenderPosition { lender, amount, deposit_time: now })
                &&& final(self).config == old(self).config
                &&& final(self).loans@ == old(self).loans@
                &&& final(self).analytics == old(self).analytics
                &&& final(self).in_flight == old(self).in_flight
                &&& final(self).reentrancy_guard == old(self).reentrancy_guard
                &&& final(self).loan_counter == old(self).loan_counter
                &&& final(self).paused == old(self).paused
            },
    {
        if self.config.paused {
            return Err(FlashLoanError::Paused);
        }
        if amount <= 0 {
            return Err(FlashLoanError::InvalidAmount);
        }
        let mut pool = match self.pools.remove(token) {
            Some(p) => p,
            None => {
                if !contains_u64(&self.pool_list, token) {
                    self.pool_list.push(token);
                }
                LiquidityPool {
                    token,
                    total_liquidity: 0,
                    available_liquidity: 0,
                    total_borrowed: 0,
                    fees_collected: 0,
                    lenders: Vec::new(),
                }
            },
        };
        pool.total_liquidity = pool.total_liquidity + amount;
        pool.available_liquidity = pool.available_liquidity + amount;
        if !contains_u64(&pool.lenders, lender) {
            pool.lenders.push(lender);
        }
        self.pools.insert(token, pool);
        self.positions.insert(token, lender, LenderPosition { lender, amount, deposit_time: now });
        Ok(TokenTransfer { token, from: lender, to: contract, amount })
    }

    /// Withdraws `amount` of `token` for `lender` (who has authorised) and
    /// returns the transfer out of the contract.
    pub fn remove_liquidity(&mut self, lender: u64, token: u64, amount: i128, contract: u64) -> (r: Result<TokenTransfer, FlashLoanError>)
        requires
            old(self).pool_nums(token).0 - amount >= i128::MIN,
        ensures
            r == (if old(self).config.paused {
                Err(FlashLoanError::Paused)
            } else if amount <= 0 {
                Err(FlashLoanError::InvalidAmount)
            } else if !old(self).pools@.contains_key(token) {
                Err(FlashLoanError::PoolNotFound)
            } else if old(self).pools@[token].available_liquidity < amount {
                Err(FlashLoanError::InsufficientLiquidity)
            } else if !old(self).positions@.contains_key((token, lender)) {
                Err(FlashLoanError::LenderPositionNotFound)
            } else if old(self).positions@[(token, lender)].amount < amount {
                Err(FlashLoanError::InsufficientLenderBalance)
            } else {
                Ok(TokenTransfer { token, from: contract, to: lender, amount })
            }),
            r is Err ==> *final(self) == *old(self),
            r is Ok ==> {
                let p = old(self).pools@[token];
                let pos = old(self).positions@[(token, lender)];
                &&& final(self).pools@ == old(self).pools@.insert(token, LiquidityPool {
                    total_liquidity: (p.total_liquidity - amount) as i128,
                    available_liquidity: (p.available_liquidity - amount) as i128,
                    ..p
                })
                &&& final(self).positions@ == (if pos.amount == amount {
                    old(self).positions@.remove((token, lender))
                } else {
                    old(self).positions@.insert((token, lender), LenderPosition { amount: (pos.amount - amount) as i128, ..pos })
                })
                &&& final(self).config == old(self).config
                &&& final(self).loans@ == old(self).loans@
                &&& final(self).pool_list@ == old(self).pool_list@
                &&& final(self).in_flight == old(self).in_flight
            },
    {
        if self.config.paused {
            return Err(FlashLoanError::Paused);
        }
        if amount <= 0 {
            return Err(FlashLoanError::InvalidAmount);
        }
        let available = match self.pools.get(token) {
            Some(p) => p.available_liquidity,
            None => {
                return Err(FlashLoanError::PoolNotFound);
            },
        };
        if available < amount {
            return Err(FlashLoanError::InsufficientLiquidity);
        }
        let pos = match self.positions.get(token, lender) {
            Some(p) => *p,
            None => {
                return Err(FlashLoanError::LenderPositionNotFound);
            },
        };
        if pos.amount < amount {
            return Err(FlashLoanError::InsufficientLenderBalance);
        }
        let mut pool = self.pools.remove(token).unwrap();
        pool.total_liquidity = pool.total_liquidity - amount;
        pool.available_liquidity = pool.available_liquidity - amount;
        self.pools.insert(token, pool);
        let new_amount = pos.amount - amount;
        if new_amount == 0 {
            self.positions.remove(token, lender);
        } else {
            self.positions.insert(token, lender, LenderPosition { amount: new_amount, ..pos });
        }
        Ok(TokenTransfer { token, from: contract, to: lender, amount })
    }

    /// The outcome of the checks that open a flash loan.
    pub open spec fn begin_check(&self, token: u64, amount: i128) -> Option<FlashLoanError> {
        if self.config.paused {
            Some(FlashLoanError::Paused)
        } else if self.reentrancy_guard {
            Some(FlashLoanError::ReentrancyDetected)
        } else if amount <= 0 {
            Some(FlashLoanError::InvalidAmount)
        } else if !self.pools@.contains_key(token) {
            Some(FlashLoanError::PoolNotFound)
        } else if amount > max_loan_spec(self.pools@[token].available_liquidity, self.config.max_loan_ratio) {
            Some(FlashLoanError::ExceedsMaxLoan)
        } else if self.pools@[token].available_liquidity < amount {
            Some(FlashLoanError::InsufficientLiquidity)
        } else {
            None
        }
    }

    /// Whether the arithmetic of opening a loan stays within range.
    pub open spec fn begin_fits(&self, token: u64, amount: i128) -> bool {
        let (t, a, b, f) = self.pool_nums(token);
        &&& self.loan_counter < u64::MAX
        &&& i128::MIN <= a * self.config.max_loan_ratio <= i128::MAX
        &&& amount * self.config.fee_bps <= i128::MAX
        &&& amount + fee_spec(amount, self.config.fee_bps) <= i128::MAX
        &&& b + amount <= i128::MAX
        &&& (a - amount) + amount + fee_spec(amount, self.config.fee_bps) <= i128::MAX
    }

    /// `new` is this state with a loan of `amount` of `token` opened for
    /// `borrower`: recorded as active under the next id, taken out of the
    /// pool's available liquidity, the guard raised and the loan in flight.
    pub open spec fn begun(&self, new: Self, borrower: u64, token: u64, amount: i128, callback_contract: u64, now: u64) -> bool {
        let fee = fee_spec(amount, self.config.fee_bps) as i128;
        let p = self.pools@[token];
        let id = (self.loan_counter + 1) as u64;
                &&& new.loan_counter == id
                &&& new.loans@ =~= self.loans@.insert(id, FlashLoanRecord {
                    loan_id: id,
                    borrower,
                    token,
                    principal: amount,
                    fee,
                    repayment_amount: (amount + fee) as i128,
                    start_time: now,
                    end_time: 0,
                    status: FlashLoanStatus::Active,
                    callback_contract,
                })
                &&& new.pools@ =~= self.pools@.insert(token, LiquidityPool {
                    available_liquidity: (p.available_liquidity - amount) as i128,
                    total_borrowed: (p.total_borrowed + amount) as i128,
                    ..p
                })
                &&& new.reentrancy_guard
                &&& new.in_flight == Some(LoanInFlight {
                    loan_id: id,
                    token,
                    amount,
                    fee,
                    expected_balance: (p.available_liquidity - amount + amount + fee) as i128,
                    prior_record: if self.loans@.contains_key(id) { Some(self.loans@[id]) } else { None },
                    prior_available: p.available_liquidity,
                    prior_borrowed: p.total_borrowed,
                })
                &&& new.config == self.config
                &&& new.analytics == self.analytics
                &&& new.positions@ =~= self.positions@
                &&& new.pool_list@ =~= self.pool_list@
                &&& new.paused == self.paused
    }

    /// Opens a flash loan of `amount` of `token` for `borrower` (who has
    /// authorised) at time `now`: records it as active, takes the amount out
    /// of the pool's available liquidity, raises the reentrancy guard, and
    /// returns what the host must do before settling.
    pub fn begin_flash_loan(&mut self, borrower: u64, token: u64, amount: i128, callback_contract: u64, now: u64, contract: u64) -> (r: Result<FlashLoanStart, FlashLoanError>)
        requires
            old(self).begin_fits(token, amount),
        ensures
            r is Err <==> old(self).begin_check(token, amount) is Some,
            r is Err ==> r == Err::<FlashLoanStart, FlashLoanError>(old(self).begin_check(token, amount)->0) && *final(self) == *old(self),
            r matches Ok(s) ==> {
                let fee = fee_spec(amount, old(self).config.fee_bps) as i128;
                let p = old(self).pools@[token];
                let id = (old(self).loan_counter + 1) as u64;
                &&& s == (FlashLoanStart {
                    loan_id: id,
                    payout: TokenTransfer { token, from: contract, to: borrower, amount },
                    callback_contract,
                    borrower,
                    token,
                    amount,
                    fee,
                })
                &&& old(self).begun(*final(self), borrower, token, amount, callback_contract, now)
            },
    {
        if self.config.paused {
            return Err(FlashLoanError::Paused);
        }
        if self.reentrancy_guard {
            return Err(FlashLoanError::ReentrancyDetected);
        }
        if amount <= 0 {
            return Err(FlashLoanError::InvalidAmount);
        }
        let available = match self.pools.get(token) {
            Some(p) => p.available_liquidity,
            None => {
                return Err(FlashLoanError::PoolNotFound);
            },
        };
        let max_loan = div_bps(available * self.config.max_loan_ratio as i128);
        if amount > max_loan {
            return Err(FlashLoanError::ExceedsMaxLoan);
        }
        if available < amount {
            return Err(FlashLoanError::InsufficientLiquidity);
        }
        let fee = div_bps(amount * self.config.fee_bps as i128);
        let repayment = amount + fee;
        let loan_id = self.loan_counter + 1;
        let prior_record = match self.loans.get(loan_id) {
            Some(r) => Some(*r),
            None => None,
        };
        self.loan_counter = loan_id;
        self.loans.insert(loan_id, FlashLoanRecord {
            loan_id,
            borrower,
            token,
            principal: amount,
            fee,
            repayment_amount: repayment,
            start_time: now,
            end_time: 0,
            status: FlashLoanStatus::Active,
            callback_contract,
        });
        let mut pool = self.pools.remove(token).unwrap();
        let prior_available = pool.available_liquidity;
        let prior_borrowed = pool.total_borrowed;
        pool.available_liquidity = pool.available_liquidity - amount;
        pool.total_borrowed = pool.total_borrowed + amount;
        let expected = pool.available_liquidity + repayment;
        self.pools.insert(token, pool);
        self.reentrancy_guard = true;
        self.in_flight = Some(LoanInFlight {
            loan_id,
            token,
            amount,
            fee,
            expected_balance: expected,
            prior_record,
            prior_available,
            prior_borrowed,
        });
        Ok(FlashLoanStart {
            loan_id,
            payout: TokenTransfer { token, from: contract, to: borrower, amount },
            callback_contract,
            borrower,
            token,
            amount,
            fee,
        })
    }

    /// `new` is this state with the loan in flight undone: the guard lowered,
    /// nothing in flight, the loan counter back, the record under the
    /// loan's id as it was, and the pool's available and borrowed amounts as
    /// they were; all else unchanged.
    pub open spec fn rolled_back(&self, new: Self) -> bool {
        let l = self.in_flight->0;
        &&& !new.reentrancy_guard
        &&& new.in_flight is None
        &&& new.loan_counter == (l.loan_id - 1) as u64
        &&& new.loans@ == (match l.prior_record {
            Some(rec) => self.loans@.insert(l.loan_id, rec),
            None => self.loans@.remove(l.loan_id),
        })
        &&& new.pools@ == self.pools@.insert(l.token, LiquidityPool {
            available_liquidity: l.prior_available,
            total_borrowed: l.prior_borrowed,
            ..self.pools@[l.token]
        })
        &&& new.config == self.config
        &&& new.analytics == self.analytics
        &&& new.positions@ == self.positions@
        &&& new.pool_list@ == self.pool_list@
        &&& new.paused == self.paused
    }

    fn undo_loan(&mut self, l: LoanInFlight)
        requires
            old(self).in_flight == Some(l),
            l.loan_id >= 1,
            old(self).pools@.contains_key(l.token),
        ensures
            old(self).rolled_back(*final(self)),
    {
        self.reentrancy_guard = false;
        self.in_flight = None;
        self.loan_counter = l.loan_id - 1;
        match l.prior_record {
            Some(rec) => {
                self.loans.insert(l.loan_id, rec);
            },
            None => {
                self.loans.remove(l.loan_id);
            },
        }
        let mut pool = self.pools.remove(l.token).unwrap();
        pool.available_liquidity = l.prior_available;
        pool.total_borrowed = l.prior_borrowed;
        self.pools.insert(l.token, pool);
        assert(self.pools@ =~= old(self).pools@.insert(l.token, LiquidityPool {
            available_liquidity: l.prior_available,
            total_borrowed: l.prior_borrowed,
            ..old(self).pools@[l.token]
        }));
        assert(self.loans@ =~= (match l.prior_record {
            Some(rec) => old(self).loans@.insert(l.loan_id, rec),
            None => old(self).loans@.remove(l.loan_id),
        }));
    }

    /// Whether the arithmetic of settling the loan in flight stays within range.
    pub open spec fn settle_fits(&self) -> bool {
        self.in_flight matches Some(l) ==> {
            let (t, a, b, f) = self.pool_nums(l.token);
            &&& l.loan_id >= 1
            &&& self.loans@.contains_key(l.loan_id)
            &&& self.pools@.contains_key(l.token)
            &&& i128::MIN <= a + l.amount + l.fee <= i128::MAX
            &&& i128::MIN <= l.amount + l.fee <= i128::MAX
            &&& i128::MIN <= f + l.fee <= i128::MAX
            &&& i128::MIN <= b - l.amount <= i128::MAX
            &&& self.analytics.total_loans < u64::MAX
            &&& i128::MIN <= self.analytics.total_volume_borrowed + l.amount <= i128::MAX
            &&& i128::MIN <= self.analytics.total_fees_collected + l.fee <= i128::MAX
            &&& i128::MIN <= self.analytics.total_repaid + l.amount + l.fee <= i128::MAX
        }
    }

    /// Settles the loan in flight at time `now`, given the contract's token
    /// balance after the callback. When the balance is short of the expected
    /// one the loan is refused as unpaid and undone: the state is as it was
    /// before `begin_flash_loan` (see `rolled_back`). Otherwise the guard is
    /// lowered, the repayment returns to the pool, the fee is collected, the
    /// loan is marked repaid, and the analytics count it.
    pub fn settle_flash_loan(&mut self, current_balance: i128, now: u64) -> (r: Result<u64, FlashLoanError>)
        requires
            old(self).settle_fits(),
        ensures
            old(self).in_flight is None ==> r == Err::<u64, FlashLoanError>(FlashLoanError::NoLoanInFlight) && *final(self) == *old(self),
            old(self).in_flight matches Some(l) ==> {
                &&& (current_balance < l.expected_balance <==> r is Err)
                &&& (current_balance < l.expected_balance ==> r == Err::<u64, FlashLoanError>(FlashLoanError::NotRepaid)
                    && old(self).rolled_back(*final(self)))
            },
            r matches Ok(id) ==> {
                let l = old(self).in_flight->0;
                let (t, a, b, f) = old(self).pool_nums(l.token);
                let an = old(self).analytics;
                let p = old(self).pools@[l.token];
                &&& id == l.loan_id
                &&& !final(self).reentrancy_guard
                &&& final(self).in_flight is None
                &&& final(self).pools@ == old(self).pools@.insert(l.token, LiquidityPool {
                    available_liquidity: (a + l.amount + l.fee) as i128,
                    total_borrowed: (b - l.amount) as i128,
                    fees_collected: (f + l.fee) as i128,
                    ..p
                })
                &&& final(self).loans@ == old(self).loans@.insert(id, FlashLoanRecord {
                    status: FlashLoanStatus::Repaid,
                    end_time: now,
                    ..old(self).loans@[id]
                })
                &&& final(self).analytics == (FlashLoanAnalytics {
                    total_loans: (an.total_loans + 1) as u64,
                    total_volume_borrowed: (an.total_volume_borrowed + l.amount) as i128,
                    total_fees_collected: (an.total_fees_collected + l.fee) as i128,
                    total_repaid: (an.total_repaid + l.amount + l.fee) as i128,
                    ..an
                })
                &&& final(self).config == old(self).config
                &&& final(self).positions@ == old(self).positions@
                &&& final(self).pool_list@ == old(self).pool_list@
                &&& final(self).loan_counter == old(self).loan_counter
                &&& final(self).paused == old(self).paused
            },
    {
        let l = match self.in_flight {
            Some(l) => l,
            None => {
                return Err(FlashLoanError::NoLoanInFlight);
            },
        };
        if current_balance < l.expected_balance {
            self.undo_loan(l);
            return Err(FlashLoanError::NotRepaid);
        }
        self.reentrancy_guard = false;
        self.in_flight = None;
        let mut pool = match self.pools.remove(l.token) {
            Some(p) => p,
            None => LiquidityPool {
                token: l.token,
                total_liquidity: 0,
                available_liquidity: 0,
                total_borrowed: 0,
                fees_collected: 0,
                lenders: Vec::new(),
            },
        };
        pool.available_liquidity = pool.available_liquidity + (l.amount + l.fee);
        pool.fees_collected = pool.fees_collected + l.fee;
        pool.total_borrowed = pool.total_borrowed - l.amount;
        self.pools.insert(l.token, pool);
        let mut rec = match self.loans.remove(l.loan_id) {
            Some(r) => r,
            None => FlashLoanRecord {
                loan_id: l.loan_id,
                borrower: 0,
                token: l.token,
                principal: l.amount,
                fee: l.fee,
                repayment_amount: l.amount + l.fee,
                start_time: 0,
                end_time: 0,
                status: FlashLoanStatus::Active,
                callback_contract: 0,
            },
        };
        rec.status = FlashLoanStatus::Repaid;
        rec.end_time = now;
        self.loans.insert(l.loan_id, rec);
        self.update_analytics(l.amount, l.fee);
        Ok(l.loan_id)
    }

    fn update_analytics(&mut self, amount: i128, fee: i128)
        requires
            old(self).analytics.total_loans < u64::MAX,
            i128::MIN <= old(self).analytics.total_volume_borrowed + amount <= i128::MAX,
            i128::MIN <= old(self).analytics.total_fees_collected + fee <= i128::MAX,
            i128::MIN <= old(self).analytics.total_repaid + amount + fee <= i128::MAX,
            i128::MIN <= amount + fee <= i128::MAX,
        ensures
            final(self).analytics == (FlashLoanAnalytics {
                total_loans: (old(self).analytics.total_loans + 1) as u64,
                total_volume_borrowed: (old(self).analytics.total_volume_borrowed + amount) as i128,
                total_fees_collected: (old(self).analytics.total_fees_collected + fee) as i128,
                total_repaid: (old(self).analytics.total_repaid + amount + fee) as i128,
                ..old(self).analytics
            }),
            *final(self) == (FlashLoanContract { analytics: final(self).analytics, ..*old(self) }),
    {
        self.analytics.total_loans = self.analytics.total_loans + 1;
        self.analytics.total_volume_borrowed = self.analytics.total_volume_borrowed + amount;
        self.analytics.total_fees_collected = self.analytics.total_fees_collected + fee;
        self.analytics.total_repaid = self.analytics.total_repaid + (amount + fee);
    }

    /// Sets the fee (10 to 30 basis points); `admin` must be the admin.
    pub fn set_fee_bps(&mut self, admin: u64, fee_bps: u32) -> (r: Result<(), FlashLoanError>)
        ensures
            r == (if admin != old(self).config.admin {
                Err(FlashLoanError::AdminOnly)
            } else if fee_bps < MIN_FEE_BPS || fee_bps > MAX_FEE_BPS {
                Err(FlashLoanError::InvalidFee)
            } else {
                Ok(())
            }),
            r is Err ==> *final(self) == *old(self),
            r is Ok ==> *final(self) == (FlashLoanContract { config: FlashLoanConfig { fee_bps, ..old(self).config }, ..*old(self) }),
    {
        if admin != self.config.admin {
            return Err(FlashLoanError::AdminOnly);
        }
        if fee_bps < MIN_FEE_BPS || fee_bps > MAX_FEE_BPS {
            return Err(FlashLoanError::InvalidFee);
        }
        self.config.fee_bps = fee_bps;
        Ok(())
    }

    /// Sets the largest loan as a share of available liquidity (1 to 10000
    /// basis points); `admin` must be the admin.
    pub fn set_max_loan_ratio(&mut self, admin: u64, ratio: u32) -> (r: Result<(), FlashLoanError>)
        ensures
            r == (if admin != old(self).config.admin {
                Err(FlashLoanError::AdminOnly)
            } else if ratio == 0 || ratio > 10000 {
                Err(FlashLoanError::InvalidRatio)
            } else {
                Ok(())
            }),
            r is Err ==> *final(self) == *old(self),
            r is Ok ==> *final(self) == (FlashLoanContract { config: FlashLoanConfig { max_loan_ratio: ratio, ..old(self).config }, ..*old(self) }),
    {
        if admin != self.config.admin {
            return Err(FlashLoanError::AdminOnly);
        }
        if ratio == 0 || ratio > 10000 {
            return Err(FlashLoanError::InvalidRatio);
        }
        self.config.max_loan_ratio = ratio;
        Ok(())
    }

    /// Pauses the contract; `admin` must be the admin.
    pub fn pause(&mut self, admin: u64) -> (r: Result<(), FlashLoanError>)
        ensures
            r is Err <==> admin != old(self).config.admin,
            r is Err ==> *final(self) == *old(self),
            r is Ok ==> *final(self) == (FlashLoanContract { config: FlashLoanConfig { paused: true, ..old(self).config }, paused: true, ..*old(self) }),
    {
        if admin != self.config.admin {
            return Err(FlashLoanError::AdminOnly);
        }
        self.config.paused = true;
        self.paused = true;
        Ok(())
    }

    /// Resumes the contract; `admin` must be the admin.
    pub fn unpause(&mut self, admin: u64) -> (r: Result<(), FlashLoanError>)
        ensures
            r is Err <==> admin != old(self).config.admin,
            r is Err ==> *final(self) == *old(self),
            r is Ok ==> *final(self) == (FlashLoanContract { config: FlashLoanConfig { paused: false, ..old(self).config }, paused: false, ..*old(self) }),
    {
        if admin != self.config.admin {
            return Err(FlashLoanError::AdminOnly);
        }
        self.config.paused = false;
        self.paused = false;
        Ok(())
    }

    /// Withdraws collected fees of `token` to the admin (who must be `admin`
    /// and has authorised) and returns the transfer out of the contract.
    pub fn withdraw_fees(&mut self, admin: u64, token: u64, amount: i128, contract: u64) -> (r: Result<TokenTransfer, FlashLoanError>)
        requires
            i128::MIN <= old(self).pool_nums(token).3 - amount <= i128::MAX,
            i128::MIN <= old(self).pool_nums(token).0 - amount <= i128::MAX,
        ensures
            r == (if admin != old(self).config.admin {
                Err(FlashLoanError::AdminOnly)
            } else if !old(self).pools@.contains_key(token) {
                Err(FlashLoanError::PoolNotFound)
            } else if old(self).pools@[token].fees_collected < amount {
                Err(FlashLoanError::InsufficientFees)
            } else {
                Ok(TokenTransfer { token, from: contract, to: admin, amount })
            }),
            r is Err ==> *final(self) == *old(self),
            r is Ok ==> {
                let p = old(self).pools@[token];
                &&& final(self).pools@ == old(self).pools@.insert(token, LiquidityPool {
                    fees_collected: (p.fees_collected - amount) as i128,
                    total_liquidity: (p.total_liquidity - amount) as i128,
                    ..p
                })
                &&& final(self).config == old(self).config
                &&& final(self).loans@ == old(self).loans@
            },
    {
        if admin != self.config.admin {
            return Err(FlashLoanError::AdminOnly);
        }
        let fees = match self.pools.get(token) {
            Some(p) => p.fees_collected,
            None => {
                return Err(FlashLoanError::PoolNotFound);
            },
        };
        if fees < amount {
            return Err(FlashLoanError::InsufficientFees);
        }
        let mut pool = self.pools.remove(token).unwrap();
        pool.fees_collected = pool.fees_collected - amount;
        pool.total_liquidity = pool.total_liquidity - amount;
        self.pools.insert(token, pool);
        Ok(TokenTransfer { token, from: contract, to: admin, amount })
    }

    pub fn get_pool(&self, token: u64) -> (r: Option<&LiquidityPool>)
        ensures
            r == (if self.pools@.contains_key(token) { Some(&self.pools@[token]) } else { None }),
    {
        self.pools.get(token)
    }

    pub fn get_flash_loan(&self, loan_id: u64) -> (r: Option<FlashLoanRecord>)
        ensures
            r == (if self.loans@.contains_key(loan_id) { Some(self.loans@[loan_id]) } else { None }),
    {
        match self.loans.get(loan_id) {
            Some(l) => Some(*l),
            None => None,
        }
    }

    pub fn get_config(&self) -> (c: FlashLoanConfig)
        ensures
            c == self.config,
    {
        self.config
    }

    pub fn get_analytics(&self) -> (a: FlashLoanAnalytics)
        ensures
            a == self.analytics,
    {
        self.analytics
    }

    pub fn get_all_pools(&self) -> (r: Vec<u64>)
        ensures
            r@ == self.pool_list@,
    {
        copy_vec(&self.pool_list)
    }

    /// The fee the current rate charges on `amount`.
    pub fn calculate_fee(&self, amount: i128) -> (f: i128)
        requires
            i128::MIN <= amount * self.config.fee_bps <= i128::MAX,
        ensures
            f == fee_spec(amount, self.config.fee_bps),
    {
        div_bps(amount * self.config.fee_bps as i128)
    }

    pub fn get_lender_position(&self, token: u64, lender: u64) -> (r: Option<LenderPosition>)
        ensures
            r == (if self.positions@.contains_key((token, lender)) { Some(self.positions@[(token, lender)]) } else { None }),
    {
        match self.positions.get(token, lender) {
            Some(p) => Some(*p),
            None => None,
        }
    }
}

/// A fee at an allowed rate is never negative and never more than the
/// amount, for a positive amount.
pub proof fn law_fee_within_amount(amount: i128, fee_bps: u32)
    requires
        amount > 0,
        MIN_FEE_BPS <= fee_bps <= MAX_FEE_BPS,
    ensures
        0 <= fee_spec(amount, fee_bps) <= amount,
{
    assert(amount * fee_bps >= 0) by (nonlinear_arith)
        requires
            amount > 0,
            fee_bps >= 0,
    ;
    assert(amount * fee_bps <= amount * 10000) by (nonlinear_arith)
        requires
            amount > 0,
            fee_bps <= 30,
    ;
}

} // verus!

verus! {

/// An unpaid flash loan leaves no trace: opening a loan and settling it
/// with the balance short of what is owed gives back the state before the
/// loan, field by field.
pub proof fn law_unpaid_loan_reverts(s0: FlashLoanContract, s1: FlashLoanContract, s2: FlashLoanContract, borrower: u64, token: u64,
    amount: i128, callback_contract: u64, now: u64)
    requires
        s0.in_flight is None,
        !s0.reentrancy_guard,
        s0.pools@.contains_key(token),
        s0.loan_counter < u64::MAX,
        s0.begun(s1, borrower, token, amount, callback_contract, now),
        s1.rolled_back(s2),
    ensures
        s2.loan_counter == s0.loan_counter,
        s2.loans@ == s0.loans@,
        s2.pools@ == s0.pools@,
        s2.reentrancy_guard == s0.reentrancy_guard,
        s2.in_flight == s0.in_flight,
        s2.config == s0.config,
        s2.analytics == s0.analytics,
        s2.positions@ == s0.positions@,
        s2.pool_list@ == s0.pool_list@,
        s2.paused == s0.paused,
{
    let id = (s0.loan_counter + 1) as u64;
    assert(s2.loans@ =~= s0.loans@);
    assert(s2.pools@ =~= s0.pools@);
}

} // verus!
