//! Donations to verified charities, with a top-ten donor leaderboard, receipts,
//! and quadratic-funding payouts from a matching pool.
use vstd::prelude::*;
use crate::assoc::{AssocMap, PairMap};
use crate::seqs::copy_vec;
use crate::token::TokenTransfer;

verus! {

#[derive(Clone, Copy, Debug, PartialEq, Eq, Structural)]
pub enum CharityError {
    Unauthorized,
    InvalidAmount,
    CharityNotFound,
    CharityNotVerified,
    NoDonationsFound,
}

#[derive(Debug)]
pub struct Charity {
    pub id: u32,
    pub name: String,
    pub wallet: u64,
    pub verified: bool,
    pub total_raised: i128,
    pub contributor_count: u32,
}

impl Clone for Charity {
    fn clone(&self) -> (r: Self)
        ensures
            r == *self,
    {
        Charity {
            id: self.id,
            name: self.name.clone(),
            wallet: self.wallet,
            verified: self.verified,
            total_raised: self.total_raised,
            contributor_count: self.contributor_count,
        }
    }
}

#[derive(Clone, Copy, Debug, PartialEq, Eq, Structural)]
pub struct Donation {
    pub donor: u64,
    pub charity_id: u32,
    pub amount: i128,
    pub timestamp: u64,
    pub recurring: bool,
}

#[derive(Clone, Copy, Debug, PartialEq, Eq, Structural)]
pub struct Receipt {
    pub id: u32,
    pub donor: u64,
    pub charity_id: u32,
    pub total_donated: i128,
}

/// The state of the charity contract.
pub struct CharityContract {
    pub admin: u64,
    pub token: u64,
    pub matching_pool: i128,
    pub next_charity_id: u32,
    pub next_receipt_id: u32,
    pub charities: AssocMap<Charity>,
    /// Total given, by (donor, charity).
    pub donor_totals: PairMap<i128>,
    /// Donors of each charity, in order of first donation.
    pub donor_lists: AssocMap<Vec<u64>>,
    /// Recurring amounts, by (donor, charity).
    pub recurring: PairMap<i128>,
    pub receipts: AssocMap<Receipt>,
    /// (donor, amount) pairs, largest first, at most ten.
    pub leaderboard: Vec<(u64, i128)>,
}

// ───────────── integer square root ─────────────

/// `r` is the integer square root of a positive `n`.
pub open spec fn is_isqrt(n: int, r: int) -> bool {
    0 <= r && r * r <= n && n < (r + 1) * (r + 1)
}

/// What `sqrt` returns: the integer square root of a positive number, 0 for
/// 0, and the number itself when it is negative.
pub open spec fn sqrt_spec(n: int) -> int {
    if n <= 0 {
        n
    } else {
        choose|r: int| is_isqrt(n, r)
    }
}

proof fn lemma_isqrt_unique(n: int, a: int, b: int)
    requires
        is_isqrt(n, a),
        is_isqrt(n, b),
    ensures
        a == b,
{
    if a < b {
        assert((a + 1) * (a + 1) <= b * b) by (nonlinear_arith)
            requires
                0 <= a,
                a + 1 <= b,
        ;
    } else if b < a {
        assert((b + 1) * (b + 1) <= a * a) by (nonlinear_arith)
            requires
                0 <= b,
                b + 1 <= a,
        ;
    }
}

proof fn lemma_sqrt_spec_is(n: int, r: int)
    requires
        n > 0,
        is_isqrt(n, r),
    ensures
        sqrt_spec(n) == r,
{
    let c = choose|c: int| is_isqrt(n, c);
    assert(is_isqrt(n, c));
    lemma_isqrt_unique(n, c, r);
}

/// The Newton step from `x` lands at or above the integer square root, and
/// no higher than `n`'s own bound.
proof fn lemma_newton_step(n: int, x: int)
    requires
        n > 0,
        1 <= x <= n,
        n < (x + 1) * (x + 1),
    ensures
        ({
            let y = (x + n / x) / 2;
            &&& n < (y + 1) * (y + 1)
            &&& y >= 1
            &&& x + n / x <= n + 1
            &&& (y >= x ==> x * x <= n)
        }),
{
    let q = n / x;
    let y = (x + q) / 2;
    assert(x * q <= n && n < x * (q + 1)) by (nonlinear_arith)
        requires
            x >= 1,
            q == n / x,
            n >= 0,
    ;
    assert(2 * (y + 1) >= x + q + 1);
    assert((x + q + 1) * (x + q + 1) >= 4 * x * (q + 1)) by (nonlinear_arith)
        requires
            x >= 1,
            q >= 0,
    ;
    assert(4 * (y + 1) * (y + 1) >= (x + q + 1) * (x + q + 1)) by (nonlinear_arith)
        requires
            2 * (y + 1) >= x + q + 1,
            x + q + 1 >= 0,
    ;
    assert(n < (y + 1) * (y + 1)) by (nonlinear_arith)
        requires
            4 * (y + 1) * (y + 1) >= (x + q + 1) * (x + q + 1),
            (x + q + 1) * (x + q + 1) >= 4 * x * (q + 1),
            n < x * (q + 1),
    ;
    assert(y >= 1) by (nonlinear_arith)
        requires
            n < (y + 1) * (y + 1),
            n >= 1,
            y >= 0,
    ;
    assert(x * (n + 1 - x) >= n) by (nonlinear_arith)
        requires
            1 <= x <= n,
    {
        assert((x - 1) * (n - x) >= 0);
    }
    assert(q <= n + 1 - x) by (nonlinear_arith)
        requires
            x >= 1,
            x * q <= n,
            n <= x * (n + 1 - x),
    ;
    if y >= x && x * x > n {
        assert(q < x) by (nonlinear_arith)
            requires
                x * x > n,
                x * q <= n,
                x >= 1,
        ;
    }
}

impl CharityContract {
    /// Integer square root by Newton's method (see `sqrt_spec`).
    pub fn sqrt(n: i128) -> (r: i128)
        requires
            n < i128::MAX,
        ensures
            r == sqrt_spec(n as int),
            n > 0 ==> is_isqrt(n as int, r as int),
    {
        if n == 0 {
            return 0;
        }
        if n < 0 {
            return n;
        }
        let mut x = n;
        proof {
            assert(n < (n + 1) * (n + 1)) by (nonlinear_arith)
                requires
                    n >= 1,
            ;
            lemma_newton_step(n as int, n as int);
            assert(n / n == 1) by (nonlinear_arith)
                requires
                    n >= 1,
            ;
        }
        let mut y = (x + 1) / 2;
        while y < x
            invariant
                n > 0,
                n < i128::MAX,
                1 <= x <= n,
                n < (x + 1) * (x + 1),
                y == (x + n / x) / 2,
                1 <= y,
                n < (y + 1) * (y + 1),
                y < x ==> y <= n,
                y >= x ==> x * x <= n,
            decreases x,
        {
            x = y;
            proof {
                lemma_newton_step(n as int, x as int);
            }
            y = (x + n / x) / 2;
        }
        proof {
            lemma_sqrt_spec_is(n as int, x as int);
        }
        x
    }
}

/// The sum of the square roots of the donors' totals.
pub open spec fn sqrt_sum(donors: Seq<u64>, totals: Map<(u64, u64), i128>, charity: u64) -> int
    decreases donors.len(),
{
    if donors.len() == 0 {
        0
    } else {
        sqrt_sum(donors.drop_last(), totals, charity) + sqrt_spec(totals[(donors.last(), charity)] as int)
    }
}

// ───────────── leaderboard ─────────────

pub open spec fn swap_at(s: Seq<(u64, i128)>, i: int, j: int) -> Seq<(u64, i128)> {
    s.update(i, s[j]).update(j, s[i])
}

/// One inner pass: compare position `i` with each later position from `j`,
/// swapping whenever the later amount is larger.
pub open spec fn pass_from(s: Seq<(u64, i128)>, i: int, j: int) -> Seq<(u64, i128)>
    decreases s.len() - j,
{
    if j >= s.len() || j < 0 || i < 0 || i >= s.len() {
        s
    } else {
        let s2 = if s[j].1 > s[i].1 { swap_at(s, i, j) } else { s };
        pass_from(s2, i, j + 1)
    }
}

/// The exchange sort from position `i` on (`n` is the length).
pub open spec fn sort_from(s: Seq<(u64, i128)>, i: int, n: int) -> Seq<(u64, i128)>
    decreases n - i,
{
    if i >= n || i < 0 {
        s
    } else {
        sort_from(pass_from(s, i, i + 1), i + 1, n)
    }
}

proof fn lemma_pass_len(s: Seq<(u64, i128)>, i: int, j: int)
    requires
        0 <= i < s.len(),
    ensures
        pass_from(s, i, j).len() == s.len(),
    decreases s.len() - j,
{
    if j >= s.len() || j < 0 || i < 0 || i >= s.len() {
    } else {
        let s2 = if s[j].1 > s[i].1 { swap_at(s, i, j) } else { s };
        lemma_pass_len(s2, i, j + 1);
    }
}

/// The board with `amount` added to the donor's entry (or a new entry),
/// before sorting.
pub open spec fn board_add(b: Seq<(u64, i128)>, donor: u64, amount: i128) -> Seq<(u64, i128)> {
    if exists|i: int| 0 <= i < b.len() && #[trigger] b[i].0 == donor {
        let i = choose|i: int| 0 <= i < b.len() && b[i].0 == donor && forall|k: int| 0 <= k < i ==> #[trigger] b[k].0 != donor;
        b.update(i, (donor, (b[i].1 + amount) as i128))
    } else {
        b.push((donor, amount))
    }
}

/// The leaderboard after a donation: added, exchange-sorted largest first,
/// and cut back to ten.
pub open spec fn board_after(b: Seq<(u64, i128)>, donor: u64, amount: i128) -> Seq<(u64, i128)> {
    let a = board_add(b, donor, amount);
    let s = sort_from(a, 0, a.len() as int);
    if s.len() > 10 { s.drop_last() } else { s }
}

fn find_donor(board: &Vec<(u64, i128)>, donor: u64) -> (r: Option<usize>)
    ensures
        match r {
            Some(i) => i < board@.len() && board@[i as int].0 == donor && forall|k: int| 0 <= k < i ==> #[trigger] board@[k].0 != donor,
            None => forall|k: int| 0 <= k < board@.len() ==> #[trigger] board@[k].0 != donor,
        },
{
    let mut i: usize = 0;
    while i < board.len()
        invariant
            i <= board@.len(),
            forall|k: int| 0 <= k < i ==> #[trigger] board@[k].0 != donor,
        decreases board@.len() - i,
    {
        if board[i].0 == donor {
            return Some(i);
        }
        i = i + 1;
    }
    None
}

impl CharityContract {
    /// Whether a donation fits the arithmetic of every running total.
    pub open spec fn donation_fits(&self, donor: u64, charity_id: u32, amount: i128) -> bool {
        let c = charity_id as u64;
        &&& (self.donor_totals@.contains_key((donor, c)) ==> self.donor_totals@[(donor, c)] + amount <= i128::MAX)
        &&& (self.charities@.contains_key(c) ==> self.charities@[c].total_raised + amount <= i128::MAX
            && self.charities@[c].contributor_count < u32::MAX)
        &&& forall|i: int| 0 <= i < self.leaderboard@.len() && #[trigger] self.leaderboard@[i].0 == donor ==> self.leaderboard@[i].1 + amount <= i128::MAX
    }

    pub open spec fn total_of(&self, donor: u64, charity_id: u32) -> i128 {
        if self.donor_totals@.contains_key((donor, charity_id as u64)) { self.donor_totals@[(donor, charity_id as u64)] } else { 0 }
    }

    /// The contract as `initialize` leaves it.
    pub fn initialize(admin: u64, token: u64) -> (c: Self)
        ensures
            c.admin == admin,
            c.token == token,
            c.matching_pool == 0,
            c.next_charity_id == 1,
            c.next_receipt_id == 1,
            c.charities@ == Map::<u64, Charity>::empty(),
            c.donor_totals@ == Map::<(u64, u64), i128>::empty(),
            c.donor_lists@ == Map::<u64, Vec<u64>>::empty(),
            c.leaderboard@ == Seq::<(u64, i128)>::empty(),
    {
        CharityContract {
            admin,
            token,
            matching_pool: 0,
            next_charity_id: 1,
            next_receipt_id: 1,
            charities: AssocMap::new(),
            donor_totals: PairMap::new(),
            donor_lists: AssocMap::new(),
            recurring: PairMap::new(),
            receipts: AssocMap::new(),
            leaderboard: Vec::new(),
        }
    }

    /// Registers an unverified charity (`admin` must be the admin) and returns its id.
    pub fn add_charity(&mut self, admin: u64, name: String, wallet: u64) -> (r: Result<u32, CharityError>)
        requires
            old(self).next_charity_id < u32::MAX,
        ensures
            r is Err <==> admin != old(self).admin,
            r is Err ==> r == Err::<u32, CharityError>(CharityError::Unauthorized) && *final(self) == *old(self),
            r matches Ok(id) ==> {
                &&& id == old(self).next_charity_id
                &&& final(self).next_charity_id == id + 1
                &&& final(self).charities@ == old(self).charities@.insert(id as u64, Charity { id, name, wallet, verified: false, total_raised: 0, contributor_count: 0 })
                &&& final(self).donor_lists@.contains_key(id as u64)
                &&& final(self).donor_lists@[id as u64]@ == Seq::<u64>::empty()
                &&& final(self).donor_totals@ == old(self).donor_totals@
                &&& final(self).leaderboard@ == old(self).leaderboard@
                &&& final(self).matching_pool == old(self).matching_pool
            },
    {
        if admin != self.admin {
            return Err(CharityError::Unauthorized);
        }
        let id = self.next_charity_id;
        self.charities.insert(id as u64, Charity { id, name, wallet, verified: false, total_raised: 0, contributor_count: 0 });
        self.donor_lists.insert(id as u64, Vec::new());
        self.next_charity_id = id + 1;
        Ok(id)
    }

    /// Marks a charity verified (`admin` must be the admin).
    pub fn verify_charity(&mut self, admin: u64, charity_id: u32) -> (r: Result<(), CharityError>)
        ensures
            r == (if admin != old(self).admin {
                Err(CharityError::Unauthorized)
            } else if !old(self).charities@.contains_key(charity_id as u64) {
                Err(CharityError::CharityNotFound)
            } else {
                Ok(())
            }),
            r is Err ==> *final(self) == *old(self),
            r is Ok ==> final(self).charities@ == old(self).charities@.insert(charity_id as u64, Charity { verified: true, ..old(self).charities@[charity_id as u64] }),
            r is Ok ==> *final(self) == (CharityContract { charities: final(self).charities, ..*old(self) }),
    {
        if admin != self.admin {
            return Err(CharityError::Unauthorized);
        }
        if !self.charities.contains_key(charity_id as u64) {
            return Err(CharityError::CharityNotFound);
        }
        let mut c = self.charities.remove(charity_id as u64).unwrap();
        c.verified = true;
        self.charities.insert(charity_id as u64, c);
        Ok(())
    }

    /// Records a donation of `amount` by `donor` (who has authorised) and
    /// returns the token transfer from the donor to the charity's wallet.
    pub fn donate(&mut self, donor: u64, charity_id: u32, amount: i128) -> (r: Result<TokenTransfer, CharityError>)
        requires
            old(self).donation_fits(donor, charity_id, amount),
        ensures
            r == (if amount <= 0 {
                Err(CharityError::InvalidAmount)
            } else if !old(self).charities@.contains_key(charity_id as u64) {
                Err(CharityError::CharityNotFound)
            } else if !old(self).charities@[charity_id as u64].verified {
                Err(CharityError::CharityNotVerified)
            } else {
                Ok(TokenTransfer { token: old(self).token, from: donor, to: old(self).charities@[charity_id as u64].wallet, amount })
            }),
            r is Err ==> *final(self) == *old(self),
            r is Ok ==> {
                let c = charity_id as u64;
                let ch = old(self).charities@[c];
                let first = old(self).total_of(donor, charity_id) == 0;
                &&& final(self).donor_totals@ == old(self).donor_totals@.insert((donor, c), (old(self).total_of(donor, charity_id) + amount) as i128)
                &&& final(self).charities@ == old(self).charities@.insert(c, Charity {
                    total_raised: (ch.total_raised + amount) as i128,
                    contributor_count: if first { (ch.contributor_count + 1) as u32 } else { ch.contributor_count },
                    ..ch
                })
                &&& final(self).donors_of(c) == (if first { old(self).donors_of(c).push(donor) } else { old(self).donors_of(c) })
                &&& forall|k: u64| k != c ==> #[trigger] final(self).donors_of(k) == old(self).donors_of(k)
                &&& final(self).leaderboard@ == board_after(old(self).leaderboard@, donor, amount)
                &&& final(self).matching_pool == old(self).matching_pool
                &&& final(self).admin == old(self).admin
                &&& final(self).token == old(self).token
            },
    {
        if amount <= 0 {
            return Err(CharityError::InvalidAmount);
        }
        let c = charity_id as u64;
        let (verified, wallet) = match self.charities.get(c) {
            Some(ch) => (ch.verified, ch.wallet),
            None => {
                return Err(CharityError::CharityNotFound);
            },
        };
        if !verified {
            return Err(CharityError::CharityNotVerified);
        }
        let prev: i128 = match self.donor_totals.get(donor, c) {
            Some(t) => *t,
            None => 0,
        };
        let mut ch = self.charities.remove(c).unwrap();
        if prev == 0 {
            ch.contributor_count = ch.contributor_count + 1;
            let mut list = match self.donor_lists.remove(c) {
                Some(l) => l,
                None => Vec::new(),
            };
            list.push(donor);
            self.donor_lists.insert(c, list);
        }
        self.donor_totals.insert(donor, c, prev + amount);
        ch.total_raised = ch.total_raised + amount;
        self.charities.insert(c, ch);
        proof {
            assert(self.charities@ =~= old(self).charities@.insert(c, Charity {
                total_raised: (old(self).charities@[c].total_raised + amount) as i128,
                contributor_count: if prev == 0 { (old(self).charities@[c].contributor_count + 1) as u32 } else { old(self).charities@[c].contributor_count },
                ..old(self).charities@[c]
            }));
        }
        self.update_leaderboard(donor, amount);
        Ok(TokenTransfer { token: self.token, from: donor, to: wallet, amount })
    }

    pub open spec fn donors_of(&self, c: u64) -> Seq<u64> {
        if self.donor_lists@.contains_key(c) { self.donor_lists@[c]@ } else { Seq::empty() }
    }

    fn update_leaderboard(&mut self, donor: u64, amount: i128)
        requires
            amount > 0,
            forall|i: int| 0 <= i < old(self).leaderboard@.len() && #[trigger] old(self).leaderboard@[i].0 == donor ==> old(self).leaderboard@[i].1 + amount <= i128::MAX,
        ensures
            final(self).leaderboard@ == board_after(old(self).leaderboard@, donor, amount),
            *final(self) == (CharityContract { leaderboard: final(self).leaderboard, ..*old(self) }),
    {
        let mut board = Vec::new();
        std::mem::swap(&mut board, &mut self.leaderboard);
        let ghost b0 = board@;
        match find_donor(&board, donor) {
            Some(i) => {
                assert(b0 == old(self).leaderboard@);
                assert(old(self).leaderboard@[i as int].0 == donor);
                assert(old(self).leaderboard@[i as int].1 + amount <= i128::MAX);
                let cur = board[i].1;
                board.set(i, (donor, cur + amount));
                proof {
                    let j = choose|j: int| 0 <= j < b0.len() && b0[j].0 == donor && forall|k: int| 0 <= k < j ==> #[trigger] b0[k].0 != donor;
                    assert(0 <= i < b0.len() && b0[i as int].0 == donor && forall|k: int| 0 <= k < i ==> #[trigger] b0[k].0 != donor);
                    if j < i {
                        assert(b0[j].0 != donor);
                    } else if j > i {
                        assert(b0[i as int].0 != donor);
                    }
                }
                assert(board@ == board_add(b0, donor, amount));
            },
            None => {
                board.push((donor, amount));
                assert(board@ == board_add(b0, donor, amount));
            },
        }
        let ghost a = board@;
        let n = board.len();
        let mut p: usize = 0;
        while p < n
            invariant
                board@.len() == n,
                n == a.len(),
                p <= n,
                sort_from(board@, p as int, n as int) == sort_from(a, 0, n as int),
            decreases n - p,
        {
            let mut q: usize = p + 1;
            while q < n
                invariant
                    board@.len() == n,
                    p < n,
                    p + 1 <= q <= n,
                    sort_from(pass_from(board@, p as int, q as int), p as int + 1, n as int) == sort_from(a, 0, n as int),
                decreases n - q,
            {
                if board[q].1 > board[p].1 {
                    let tp = board[p];
                    let tq = board[q];
                    board.set(p, tq);
                    board.set(q, tp);
                }
                q = q + 1;
            }
            p = p + 1;
        }
        if board.len() > 10 {
            board.pop();
        }
        self.leaderboard = board;
    }

    /// Adds `amount` from `funder` (who has authorised) to the matching pool
    /// and returns the transfer from the funder to this contract.
    pub fn fund_matching_pool(&mut self, funder: u64, amount: i128, contract: u64) -> (r: TokenTransfer)
        requires
            old(self).matching_pool + amount <= i128::MAX,
            old(self).matching_pool + amount >= i128::MIN,
        ensures
            r == (TokenTransfer { token: old(self).token, from: funder, to: contract, amount }),
            *final(self) == (CharityContract { matching_pool: (old(self).matching_pool + amount) as i128, ..*old(self) }),
    {
        self.matching_pool = self.matching_pool + amount;
        TokenTransfer { token: self.token, from: funder, to: contract, amount }
    }

    /// The quadratic-funding match for a charity: the square of the sum of
    /// the square roots of its donors' totals, less what it raised.
    pub open spec fn qf_amount(&self, charity_id: u32) -> int {
        let c = charity_id as u64;
        let s = sqrt_sum(self.donors_of(c), self.donor_totals@, c);
        s * s - self.charities@[c].total_raised
    }

    /// Whether the matching arithmetic stays within i128.
    pub open spec fn matching_fits(&self, charity_id: u32) -> bool {
        let c = charity_id as u64;
        let d = self.donors_of(c);
        &&& forall|i: int| 0 <= i < d.len() ==> self.donor_totals@.contains_key((#[trigger] d[i], c))
            && 0 <= self.donor_totals@[(d[i], c)] < i128::MAX
        &&& forall|k: int| 0 <= k <= d.len() ==> 0 <= #[trigger] sqrt_sum(d.subrange(0, k), self.donor_totals@, c) <= 0x7fff_ffff_ffff_ffff
        &&& i128::MIN <= self.qf_amount(charity_id) <= i128::MAX
    }

    /// Pays a charity (`admin` must be the admin) its quadratic-funding match,
    /// at most the pool, and returns the payout with the transfer from this
    /// contract to the charity's wallet when the payout is positive.
    pub fn distribute_matching(&mut self, admin: u64, charity_id: u32, contract: u64) -> (r: Result<(i128, Option<TokenTransfer>), CharityError>)
        requires
            old(self).charities@.contains_key(charity_id as u64) ==> old(self).matching_fits(charity_id),
            old(self).charities@.contains_key(charity_id as u64) ==> old(self).donor_lists@.contains_key(charity_id as u64),
        ensures
            r is Err <==> (admin != old(self).admin || !old(self).charities@.contains_key(charity_id as u64)),
            r is Err ==> *final(self) == *old(self),
            r matches Ok((payout, t)) ==> {
                let qf = old(self).qf_amount(charity_id);
                let pool = old(self).matching_pool;
                &&& payout == (if qf > pool { pool as int } else { qf })
                &&& payout > 0 ==> t == Some(TokenTransfer { token: old(self).token, from: contract, to: old(self).charities@[charity_id as u64].wallet, amount: payout })
                &&& payout <= 0 ==> t is None
                &&& *final(self) == (CharityContract {
                    matching_pool: if payout > 0 { (pool - payout) as i128 } else { pool },
                    ..*old(self)
                })
            },
    {
        if admin != self.admin {
            return Err(CharityError::Unauthorized);
        }
        let c = charity_id as u64;
        let (total_raised, wallet) = match self.charities.get(c) {
            Some(ch) => (ch.total_raised, ch.wallet),
            None => {
                return Err(CharityError::CharityNotFound);
            },
        };
        let donors = self.donor_lists.get(c).unwrap();
        let ghost d = donors@;
        let mut sum_sqrt: i128 = 0;
        let mut i: usize = 0;
        while i < donors.len()
            invariant
                i <= d.len(),
                c == charity_id as u64,
                donors@ == d,
                d == self.donors_of(c),
                self.matching_fits(charity_id),
                sum_sqrt == sqrt_sum(d.subrange(0, i as int), self.donor_totals@, c),
            decreases d.len() - i,
        {
            let donor = donors[i];
            assert(d[i as int] == donor);
            assert(self.donor_totals@.contains_key((d[i as int], c)) && 0 <= self.donor_totals@[(d[i as int], c)] < i128::MAX);
            let amount = *self.donor_totals.get(donor, c).unwrap();
            let s = Self::sqrt(amount);
            proof {
                assert(d.subrange(0, i + 1).drop_last() =~= d.subrange(0, i as int));
                assert(d.subrange(0, i + 1).last() == d[i as int]);
                let k = i + 1;
                assert(0 <= sqrt_sum(d.subrange(0, k as int), self.donor_totals@, c) <= 0x7fff_ffff_ffff_ffff);
            }
            sum_sqrt = sum_sqrt + s;
            i = i + 1;
        }
        assert(d.subrange(0, d.len() as int) =~= d);
        proof {
            assert(sum_sqrt * sum_sqrt <= 0x7fff_ffff_ffff_ffff * 0x7fff_ffff_ffff_ffff) by (nonlinear_arith)
                requires
                    0 <= sum_sqrt <= 0x7fff_ffff_ffff_ffff,
            ;
        }
        let qf = sum_sqrt * sum_sqrt - total_raised;
        let pool = self.matching_pool;
        let payout = if qf > pool { pool } else { qf };
        if payout > 0 {
            self.matching_pool = pool - payout;
            Ok((payout, Some(TokenTransfer { token: self.token, from: contract, to: wallet, amount: payout })))
        } else {
            Ok((payout, None))
        }
    }

    /// Issues a receipt for `donor`'s total to a charity (`donor` has authorised).
    pub fn issue_receipt(&mut self, donor: u64, charity_id: u32) -> (r: Result<u32, CharityError>)
        requires
            old(self).next_receipt_id < u32::MAX,
        ensures
            r is Err <==> old(self).total_of(donor, charity_id) == 0,
            r is Err ==> r == Err::<u32, CharityError>(CharityError::NoDonationsFound) && *final(self) == *old(self),
            r matches Ok(id) ==> {
                &&& id == old(self).next_receipt_id
                &&& final(self).next_receipt_id == id + 1
                &&& final(self).receipts@ == old(self).receipts@.insert(id as u64, Receipt { id, donor, charity_id, total_donated: old(self).total_of(donor, charity_id) })
                &&& final(self).donor_totals@ == old(self).donor_totals@
            },
    {
        let total: i128 = match self.donor_totals.get(donor, charity_id as u64) {
            Some(t) => *t,
            None => 0,
        };
        if total == 0 {
            return Err(CharityError::NoDonationsFound);
        }
        let id = self.next_receipt_id;
        self.receipts.insert(id as u64, Receipt { id, donor, charity_id, total_donated: total });
        self.next_receipt_id = id + 1;
        Ok(id)
    }

    /// Sets or clears `donor`'s recurring amount for a charity (`donor` has authorised).
    pub fn set_recurring(&mut self, donor: u64, charity_id: u32, amount: i128, enabled: bool)
        ensures
            final(self).recurring@ == (if enabled {
                old(self).recurring@.insert((donor, charity_id as u64), amount)
            } else {
                old(self).recurring@.remove((donor, charity_id as u64))
            }),
            *final(self) == (CharityContract { recurring: final(self).recurring, ..*old(self) }),
    {
        if enabled {
            self.recurring.insert(donor, charity_id as u64, amount);
        } else {
            self.recurring.remove(donor, charity_id as u64);
        }
    }

    pub fn get_charity(&self, charity_id: u32) -> (r: Result<Charity, CharityError>)
        ensures
            r == (if self.charities@.contains_key(charity_id as u64) {
                Ok(self.charities@[charity_id as u64])
            } else {
                Err(CharityError::CharityNotFound)
            }),
    {
        match self.charities.get(charity_id as u64) {
            Some(c) => Ok(c.clone()),
            None => Err(CharityError::CharityNotFound),
        }
    }

    pub fn get_leaderboard(&self) -> (r: Vec<(u64, i128)>)
        ensures
            r@ == self.leaderboard@,
    {
        copy_vec(&self.leaderboard)
    }

    pub fn get_donor_total(&self, donor: u64, charity_id: u32) -> (t: i128)
        ensures
            t == self.total_of(donor, charity_id),
    {
        match self.donor_totals.get(donor, charity_id as u64) {
            Some(t) => *t,
            None => 0,
        }
    }
}

} // verus!
