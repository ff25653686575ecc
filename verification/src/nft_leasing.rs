//! Leasing of game NFTs: a lessor lends an NFT to a lessee for a period,
//! optionally against collateral, and the rewards it earns meanwhile are
//! split between the two by the lessor's share in percent.
use vstd::prelude::*;
use crate::assoc::AssocMap;
use crate::token::TokenTransfer;

verus! {

#[derive(Clone, Copy, Debug, PartialEq, Eq, Structural)]
pub enum Error {
    LeaseNotFound,
    LeaseAlreadyActive,
    LeaseExpired,
    UnauthorizedCaller,
    InvalidTerms,
    InsufficientCollateral,
    ListingNotFound,
    DisputeNotFound,
    LeaseNotTerminable,
    AlreadyDisputed,
    InvalidSplit,
}

#[derive(Clone, Copy, Debug, PartialEq, Eq, Structural)]
pub enum LeaseStatus {
    Pending,
    Active,
    Expired,
    Terminated,
    Disputed,
}

#[derive(Clone, Copy, Debug, PartialEq, Eq, Structural)]
pub enum DisputeStatus {
    Open,
    ResolvedForLessor,
    ResolvedForLessee,
}

#[derive(Clone, Copy, Debug, PartialEq, Eq, Structural)]
pub struct LeaseAgreement {
    pub lease_id: u64,
    pub lessor: u64,
    pub lessee: u64,
    pub nft_id: u64,
    pub start_time: u64,
    pub duration: u64,
    pub lessor_share: u32,
    pub collateral: i128,
    pub collateral_deposited: bool,
    pub status: LeaseStatus,
    pub total_revenue: i128,
    pub lessor_earned: i128,
    pub lessee_earned: i128,
    pub renewable: bool,
    pub renewal_count: u32,
}

#[derive(Clone, Copy, Debug, PartialEq, Eq, Structural)]
pub struct MarketplaceListing {
    pub listing_id: u64,
    pub lessor: u64,
    pub nft_id: u64,
    pub lessor_share: u32,
    pub duration: u64,
    pub collateral_required: i128,
    pub active: bool,
    pub renewable: bool,
}

#[derive(Debug)]
pub struct DisputeCase {
    pub dispute_id: u64,
    pub lease_id: u64,
    pub claimant: u64,
    pub reason: String,
    pub status: DisputeStatus,
    pub created_at: u64,
}

impl Clone for DisputeCase {
    fn clone(&self) -> (r: Self)
        ensures
            r == *self,
    {
        DisputeCase {
            dispute_id: self.dispute_id,
            lease_id: self.lease_id,
            claimant: self.claimant,
            reason: self.reason.clone(),
            status: self.status,
            created_at: self.created_at,
        }
    }
}

/// The state of the leasing contract.
pub struct NFTLeasingContract {
    pub admin: u64,
    /// The token in which collateral and rewards are paid.
    pub token: u64,
    pub lease_counter: u64,
    pub listing_counter: u64,
    pub dispute_counter: u64,
    pub leases: AssocMap<LeaseAgreement>,
    pub listings: AssocMap<MarketplaceListing>,
    pub disputes: AssocMap<DisputeCase>,
}

/// Revenue recorded but not yet paid out.
pub open spec fn undistributed(l: LeaseAgreement) -> int {
    l.total_revenue - (l.lessor_earned + l.lessee_earned)
}

/// The lessor's part of an amount: `share` percent, rounded down.
pub open spec fn lessor_part(amount: int, share: u32) -> int {
    amount * share / 100
}

/// Whether paying out the undistributed revenue of a lease stays in range.
pub open spec fn payout_fits(l: LeaseAgreement) -> bool {
    let d = undistributed(l);
    &&& i128::MIN <= l.lessor_earned + l.lessee_earned <= i128::MAX
    &&& i128::MIN <= d <= i128::MAX
    &&& l.lessor_share <= 100
    &&& (d > 0 ==> {
        &&& d * l.lessor_share <= i128::MAX
        &&& l.lessor_earned + lessor_part(d, l.lessor_share) <= i128::MAX
        &&& l.lessee_earned + (d - lessor_part(d, l.lessor_share)) <= i128::MAX
    })
}

/// The transfers that pay out the undistributed revenue of a lease from the
/// contract: the lessor's part, then the lessee's, each only when positive.
pub open spec fn payout_transfers(l: LeaseAgreement, token: u64, contract: u64) -> Seq<TokenTransfer> {
    let d = undistributed(l);
    let a = lessor_part(d, l.lessor_share);
    let b = d - a;
    if d <= 0 {
        Seq::empty()
    } else {
        (if a > 0 {
            seq![TokenTransfer { token, from: contract, to: l.lessor, amount: a as i128 }]
        } else {
            Seq::empty()
        }) + (if b > 0 {
            seq![TokenTransfer { token, from: contract, to: l.lessee, amount: b as i128 }]
        } else {
            Seq::empty()
        })
    }
}

/// The lease after its undistributed revenue is paid out.
pub open spec fn after_payout(l: LeaseAgreement) -> LeaseAgreement {
    let d = undistributed(l);
    let a = lessor_part(d, l.lessor_share);
    let b = d - a;
    if d <= 0 {
        l
    } else {
        LeaseAgreement {
            lessor_earned: if a > 0 { (l.lessor_earned + a) as i128 } else { l.lessor_earned },
            lessee_earned: if b > 0 { (l.lessee_earned + b) as i128 } else { l.lessee_earned },
            ..l
        }
    }
}

/// Pays out the undistributed revenue of `lease`, pushing the transfers.
fn pay_out(lease: &mut LeaseAgreement, token: u64, contract: u64, out: &mut Vec<TokenTransfer>)
    requires
        payout_fits(*old(lease)),
    ensures
        *final(lease) == after_payout(*old(lease)),
        final(out)@ == old(out)@ + payout_transfers(*old(lease), token, contract),
{
    let earned = lease.lessor_earned + lease.lessee_earned;
    let d = lease.total_revenue - earned;
    if d <= 0 {
        assert(payout_transfers(*old(lease), token, contract) =~= Seq::<TokenTransfer>::empty());
        assert(old(out)@ + Seq::<TokenTransfer>::empty() =~= old(out)@);
        return;
    }
    assert(0 <= d * lease.lessor_share) by (nonlinear_arith)
        requires
            d > 0,
    ;
    assert(d * lease.lessor_share <= d * 100) by (nonlinear_arith)
        requires
            d > 0,
            lease.lessor_share <= 100,
    ;
    let a = (d * lease.lessor_share as i128) / 100;
    let b = d - a;
    let ghost before = out@;
    if a > 0 {
        out.push(TokenTransfer { token, from: contract, to: lease.lessor, amount: a });
        lease.lessor_earned = lease.lessor_earned + a;
    }
    let ghost mid = out@;
    if b > 0 {
        out.push(TokenTransfer { token, from: contract, to: lease.lessee, amount: b });
        lease.lessee_earned = lease.lessee_earned + b;
    }
    assert(out@ =~= old(out)@ + payout_transfers(*old(lease), token, contract));
}

impl NFTLeasingContract {
    /// The contract as `initialize` leaves it.
    pub fn initialize(admin: u64, token: u64) -> (c: Self)
        ensures
            c.admin == admin,
            c.token == token,
            c.lease_counter == 0,
            c.listing_counter == 0,
            c.dispute_counter == 0,
            c.leases@ == Map::<u64, LeaseAgreement>::empty(),
            c.listings@ == Map::<u64, MarketplaceListing>::empty(),
            c.disputes@ == Map::<u64, DisputeCase>::empty(),
    {
        NFTLeasingContract {
            admin,
            token,
            lease_counter: 0,
            listing_counter: 0,
            dispute_counter: 0,
            leases: AssocMap::new(),
            listings: AssocMap::new(),
            disputes: AssocMap::new(),
        }
    }

    /// A new pending lease as created from the given terms.
    pub open spec fn new_lease(id: u64, lessor: u64, lessee: u64, nft_id: u64, duration: u64, lessor_share: u32, collateral: i128, renewable: bool) -> LeaseAgreement {
        LeaseAgreement {
            lease_id: id,
            lessor,
            lessee,
            nft_id,
            start_time: 0,
            duration,
            lessor_share,
            collateral,
            collateral_deposited: collateral == 0,
            status: LeaseStatus::Pending,
            total_revenue: 0,
            lessor_earned: 0,
            lessee_earned: 0,
            renewable,
            renewal_count: 0,
        }
    }

    /// Creates a pending lease on the lessor's terms (the lessor has
    /// authorised) and returns its id, the next in sequence. The share must
    /// be at most 100 percent and the duration positive. With no collateral
    /// the collateral counts as deposited.
    pub fn create_lease(
        &mut self,
        lessor: u64,
        lessee: u64,
        nft_id: u64,
        duration: u64,
        lessor_share: u32,
        collateral: i128,
        renewable: bool,
    ) -> (r: Result<u64, Error>)
        requires
            old(self).lease_counter < u64::MAX,
        ensures
            r == (if lessor_share > 100 {
                Err(Error::InvalidSplit)
            } else if duration == 0 {
                Err(Error::InvalidTerms)
            } else {
                Ok((old(self).lease_counter + 1) as u64)
            }),
            r is Err ==> *final(self) == *old(self),
            r matches Ok(id) ==> {
                &&& final(self).leases@ == old(self).leases@.insert(id, Self::new_lease(id, lessor, lessee, nft_id, duration, lessor_share, collateral, renewable))
                &&& *final(self) == (NFTLeasingContract { lease_counter: id, leases: final(self).leases, ..*old(self) })
            },
    {
        if lessor_share > 100 {
            return Err(Error::InvalidSplit);
        }
        if duration == 0 {
            return Err(Error::InvalidTerms);
        }
        let lease_id = self.lease_counter + 1;
        self.lease_counter = lease_id;
        self.leases.insert(lease_id, LeaseAgreement {
            lease_id,
            lessor,
            lessee,
            nft_id,
            start_time: 0,
            duration,
            lessor_share,
            collateral,
            collateral_deposited: collateral == 0,
            status: LeaseStatus::Pending,
            total_revenue: 0,
            lessor_earned: 0,
            lessee_earned: 0,
            renewable,
            renewal_count: 0,
        });
        Ok(lease_id)
    }

    /// The lessee (who has authorised) deposits the collateral into the
    /// contract at `contract`; nothing happens when it is already deposited.
    pub fn deposit_collateral(&mut self, lease_id: u64, contract: u64) -> (r: Result<Option<TokenTransfer>, Error>)
        ensures
            !old(self).leases@.contains_key(lease_id) ==> r == Err::<Option<TokenTransfer>, Error>(Error::LeaseNotFound),
            old(self).leases@.contains_key(lease_id) ==> {
                let l = old(self).leases@[lease_id];
                if l.collateral_deposited {
                    r == Ok::<Option<TokenTransfer>, Error>(None)
                } else {
                    &&& r == Ok::<Option<TokenTransfer>, Error>(Some(TokenTransfer { token: old(self).token, from: l.lessee, to: contract, amount: l.collateral }))
                    &&& final(self).leases@ == old(self).leases@.insert(lease_id, LeaseAgreement { collateral_deposited: true, ..l })
                }
            },
            r is Err || r == Ok::<Option<TokenTransfer>, Error>(None) ==> *final(self) == *old(self),
            *final(self) == (NFTLeasingContract { leases: final(self).leases, ..*old(self) }),
    {
        let mut lease = match self.leases.get(lease_id) {
            Some(l) => *l,
            None => {
                return Err(Error::LeaseNotFound);
            },
        };
        if lease.collateral_deposited {
            return Ok(None);
        }
        let t = TokenTransfer { token: self.token, from: lease.lessee, to: contract, amount: lease.collateral };
        lease.collateral_deposited = true;
        self.leases.insert(lease_id, lease);
        Ok(Some(t))
    }

    /// The lessor (who has authorised) starts a pending lease whose
    /// collateral is deposited; the lease period begins at `now`.
    pub fn activate_lease(&mut self, lease_id: u64, now: u64) -> (r: Result<(), Error>)
        ensures
            r == (if !old(self).leases@.contains_key(lease_id) {
                Err(Error::LeaseNotFound)
            } else if old(self).leases@[lease_id].status != LeaseStatus::Pending {
                Err(Error::LeaseAlreadyActive)
            } else if !old(self).leases@[lease_id].collateral_deposited {
                Err(Error::InsufficientCollateral)
            } else {
                Ok(())
            }),
            r is Err ==> *final(self) == *old(self),
            r is Ok ==> final(self).leases@ == old(self).leases@.insert(lease_id, LeaseAgreement {
                start_time: now,
                status: LeaseStatus::Active,
                ..old(self).leases@[lease_id]
            }),
            *final(self) == (NFTLeasingContract { leases: final(self).leases, ..*old(self) }),
    {
        let mut lease = match self.leases.get(lease_id) {
            Some(l) => *l,
            None => {
                return Err(Error::LeaseNotFound);
            },
        };
        if lease.status != LeaseStatus::Pending {
            return Err(Error::LeaseAlreadyActive);
        }
        if !lease.collateral_deposited {
            return Err(Error::InsufficientCollateral);
        }
        lease.start_time = now;
        lease.status = LeaseStatus::Active;
        self.leases.insert(lease_id, lease);
        Ok(())
    }

    /// Whether the arithmetic of recording `amount` on the lease stays in range.
    pub open spec fn reward_fits(&self, lease_id: u64, amount: i128) -> bool {
        self.leases@.contains_key(lease_id) ==> {
            let l = self.leases@[lease_id];
            &&& l.start_time + l.duration <= u64::MAX
            &&& i128::MIN <= l.total_revenue + amount <= i128::MAX
        }
    }

    /// Records `amount` of revenue earned by an active lease at time `now`.
    /// A lease whose period has ended is marked expired (and stays so) and
    /// the reward is refused.
    pub fn record_reward(&mut self, lease_id: u64, amount: i128, now: u64) -> (r: Result<(), Error>)
        requires
            old(self).reward_fits(lease_id, amount),
        ensures
            r == (if !old(self).leases@.contains_key(lease_id) {
                Err(Error::LeaseNotFound)
            } else if old(self).leases@[lease_id].status != LeaseStatus::Active {
                Err(Error::LeaseExpired)
            } else if now > old(self).leases@[lease_id].start_time + old(self).leases@[lease_id].duration {
                Err(Error::LeaseExpired)
            } else {
                Ok(())
            }),
            old(self).leases@.contains_key(lease_id) && old(self).leases@[lease_id].status == LeaseStatus::Active ==> {
                let l = old(self).leases@[lease_id];
                final(self).leases@ == old(self).leases@.insert(lease_id, if now > l.start_time + l.duration {
                    LeaseAgreement { status: LeaseStatus::Expired, ..l }
                } else {
                    LeaseAgreement { total_revenue: (l.total_revenue + amount) as i128, ..l }
                })
            },
            !(old(self).leases@.contains_key(lease_id) && old(self).leases@[lease_id].status == LeaseStatus::Active) ==> *final(self) == *old(self),
            *final(self) == (NFTLeasingContract { leases: final(self).leases, ..*old(self) }),
    {
        let mut lease = match self.leases.get(lease_id) {
            Some(l) => *l,
            None => {
                return Err(Error::LeaseNotFound);
            },
        };
        if lease.status != LeaseStatus::Active {
            return Err(Error::LeaseExpired);
        }
        if now > lease.start_time + lease.duration {
            lease.status = LeaseStatus::Expired;
            self.leases.insert(lease_id, lease);
            return Err(Error::LeaseExpired);
        }
        lease.total_revenue = lease.total_revenue + amount;
        self.leases.insert(lease_id, lease);
        Ok(())
    }

    /// Whether paying out the lease's revenue stays in range (vacuous for
    /// an unknown lease).
    pub open spec fn lease_payout_fits(&self, lease_id: u64) -> bool {
        self.leases@.contains_key(lease_id) ==> payout_fits(self.leases@[lease_id])
    }

    /// Pays out the undistributed revenue of an active lease from the
    /// contract at `contract`: `lessor_share` percent (rounded down) to the
    /// lessor and the rest to the lessee. Returns the transfers made.
    pub fn distribute_revenue(&mut self, lease_id: u64, contract: u64) -> (r: Result<Vec<TokenTransfer>, Error>)
        requires
            old(self).lease_payout_fits(lease_id),
        ensures
            !old(self).leases@.contains_key(lease_id) ==> r is Err && r->Err_0 == Error::LeaseNotFound,
            old(self).leases@.contains_key(lease_id) ==> {
                let l = old(self).leases@[lease_id];
                if l.status != LeaseStatus::Active {
                    r is Err && r->Err_0 == Error::LeaseExpired
                } else {
                    &&& r is Ok
                    &&& r->Ok_0@ == payout_transfers(l, old(self).token, contract)
                    &&& final(self).leases@ == old(self).leases@.insert(lease_id, after_payout(l))
                }
            },
            r is Err ==> *final(self) == *old(self),
            *final(self) == (NFTLeasingContract { leases: final(self).leases, ..*old(self) }),
    {
        let mut lease = match self.leases.get(lease_id) {
            Some(l) => *l,
            None => {
                return Err(Error::LeaseNotFound);
            },
        };
        if lease.status != LeaseStatus::Active {
            return Err(Error::LeaseExpired);
        }
        let mut out: Vec<TokenTransfer> = Vec::new();
        pay_out(&mut lease, self.token, contract, &mut out);
        assert(out@ =~= payout_transfers(old(self).leases@[lease_id], self.token, contract));
        self.leases.insert(lease_id, lease);
        Ok(out)
    }

    /// The lessee (who has authorised) renews a renewable lease that is
    /// active or expired for `new_duration` from `now`.
    pub fn renew_lease(&mut self, lease_id: u64, new_duration: u64, now: u64) -> (r: Result<(), Error>)
        requires
            old(self).leases@.contains_key(lease_id) ==> old(self).leases@[lease_id].renewal_count < u32::MAX,
        ensures
            r == (if !old(self).leases@.contains_key(lease_id) {
                Err(Error::LeaseNotFound)
            } else if !old(self).leases@[lease_id].renewable {
                Err(Error::InvalidTerms)
            } else if old(self).leases@[lease_id].status != LeaseStatus::Active && old(self).leases@[lease_id].status != LeaseStatus::Expired {
                Err(Error::LeaseNotTerminable)
            } else if new_duration == 0 {
                Err(Error::InvalidTerms)
            } else {
                Ok(())
            }),
            r is Err ==> *final(self) == *old(self),
            r is Ok ==> final(self).leases@ == old(self).leases@.insert(lease_id, LeaseAgreement {
                start_time: now,
                duration: new_duration,
                status: LeaseStatus::Active,
                renewal_count: (old(self).leases@[lease_id].renewal_count + 1) as u32,
                ..old(self).leases@[lease_id]
            }),
            *final(self) == (NFTLeasingContract { leases: final(self).leases, ..*old(self) }),
    {
        let mut lease = match self.leases.get(lease_id) {
            Some(l) => *l,
            None => {
                return Err(Error::LeaseNotFound);
            },
        };
        if !lease.renewable {
            return Err(Error::InvalidTerms);
        }
        if lease.status != LeaseStatus::Active && lease.status != LeaseStatus::Expired {
            return Err(Error::LeaseNotTerminable);
        }
        if new_duration == 0 {
            return Err(Error::InvalidTerms);
        }
        lease.start_time = now;
        lease.duration = new_duration;
        lease.status = LeaseStatus::Active;
        lease.renewal_count = lease.renewal_count + 1;
        self.leases.insert(lease_id, lease);
        Ok(())
    }

    /// The collateral refund to the lessee when a lease with deposited
    /// positive collateral ends.
    pub open spec fn collateral_refund(l: LeaseAgreement, token: u64, contract: u64) -> Seq<TokenTransfer> {
        if l.collateral > 0 && l.collateral_deposited {
            seq![TokenTransfer { token, from: contract, to: l.lessee, amount: l.collateral }]
        } else {
            Seq::empty()
        }
    }

    /// Ends a lease at the request of its lessor or lessee (who has
    /// authorised): pays out the undistributed revenue, returns deposited
    /// collateral to the lessee, and marks the lease terminated. Returns the
    /// transfers made, in order.
    pub fn terminate_lease(&mut self, lease_id: u64, caller: u64, contract: u64) -> (r: Result<Vec<TokenTransfer>, Error>)
        requires
            old(self).lease_payout_fits(lease_id),
        ensures
            !old(self).leases@.contains_key(lease_id) ==> r is Err && r->Err_0 == Error::LeaseNotFound,
            old(self).leases@.contains_key(lease_id) ==> {
                let l = old(self).leases@[lease_id];
                if caller != l.lessor && caller != l.lessee {
                    r is Err && r->Err_0 == Error::UnauthorizedCaller
                } else if l.status == LeaseStatus::Terminated {
                    r is Err && r->Err_0 == Error::LeaseNotTerminable
                } else {
                    &&& r is Ok
                    &&& r->Ok_0@ == payout_transfers(l, old(self).token, contract) + Self::collateral_refund(l, old(self).token, contract)
                    &&& final(self).leases@ == old(self).leases@.insert(lease_id, LeaseAgreement { status: LeaseStatus::Terminated, ..after_payout(l) })
                }
            },
            r is Err ==> *final(self) == *old(self),
            *final(self) == (NFTLeasingContract { leases: final(self).leases, ..*old(self) }),
    {
        let mut lease = match self.leases.get(lease_id) {
            Some(l) => *l,
            None => {
                return Err(Error::LeaseNotFound);
            },
        };
        if caller != lease.lessor && caller != lease.lessee {
            return Err(Error::UnauthorizedCaller);
        }
        if lease.status == LeaseStatus::Terminated {
            return Err(Error::LeaseNotTerminable);
        }
        let ghost l0 = lease;
        let mut out: Vec<TokenTransfer> = Vec::new();
        pay_out(&mut lease, self.token, contract, &mut out);
        let ghost paid = out@;
        if lease.collateral > 0 && lease.collateral_deposited {
            out.push(TokenTransfer { token: self.token, from: contract, to: lease.lessee, amount: lease.collateral });
        }
        assert(out@ =~= paid + Self::collateral_refund(l0, self.token, contract));
        lease.status = LeaseStatus::Terminated;
        self.leases.insert(lease_id, lease);
        Ok(out)
    }

    /// Lists an NFT for lease on the lessor's terms (the lessor has
    /// authorised) and returns the listing's id, the next in sequence.
    pub fn list_on_marketplace(
        &mut self,
        lessor: u64,
        nft_id: u64,
        lessor_share: u32,
        duration: u64,
        collateral_required: i128,
        renewable: bool,
    ) -> (r: Result<u64, Error>)
        requires
            old(self).listing_counter < u64::MAX,
        ensures
            r == (if lessor_share > 100 {
                Err(Error::InvalidSplit)
            } else {
                Ok((old(self).listing_counter + 1) as u64)
            }),
            r is Err ==> *final(self) == *old(self),
            r matches Ok(id) ==> {
                &&& final(self).listings@ == old(self).listings@.insert(id, MarketplaceListing {
                    listing_id: id,
                    lessor,
                    nft_id,
                    lessor_share,
                    duration,
                    collateral_required,
                    active: true,
                    renewable,
                })
                &&& *final(self) == (NFTLeasingContract { listing_counter: id, listings: final(self).listings, ..*old(self) })
            },
    {
        if lessor_share > 100 {
            return Err(Error::InvalidSplit);
        }
        let listing_id = self.listing_counter + 1;
        self.listing_counter = listing_id;
        self.listings.insert(listing_id, MarketplaceListing {
            listing_id,
            lessor,
            nft_id,
            lessor_share,
            duration,
            collateral_required,
            active: true,
            renewable,
        });
        Ok(listing_id)
    }

    /// The lessee (who has authorised) takes an active listing: the listing
    /// closes and a pending lease on its terms is created; returns its id.
    pub fn take_marketplace_listing(&mut self, listing_id: u64, lessee: u64) -> (r: Result<u64, Error>)
        requires
            old(self).lease_counter < u64::MAX,
        ensures
            r == (if !old(self).listings@.contains_key(listing_id) || !old(self).listings@[listing_id].active {
                Err(Error::ListingNotFound)
            } else {
                Ok((old(self).lease_counter + 1) as u64)
            }),
            r is Err ==> *final(self) == *old(self),
            r matches Ok(id) ==> {
                let s = old(self).listings@[listing_id];
                &&& final(self).listings@ == old(self).listings@.insert(listing_id, MarketplaceListing { active: false, ..s })
                &&& final(self).leases@ == old(self).leases@.insert(id, Self::new_lease(id, s.lessor, lessee, s.nft_id, s.duration, s.lessor_share, s.collateral_required, s.renewable))
                &&& *final(self) == (NFTLeasingContract { lease_counter: id, leases: final(self).leases, listings: final(self).listings, ..*old(self) })
            },
    {
        let mut listing = match self.listings.get(listing_id) {
            Some(s) => *s,
            None => {
                return Err(Error::ListingNotFound);
            },
        };
        if !listing.active {
            return Err(Error::ListingNotFound);
        }
        listing.active = false;
        self.listings.insert(listing_id, listing);
        let lease_id = self.lease_counter + 1;
        self.lease_counter = lease_id;
        self.leases.insert(lease_id, LeaseAgreement {
            lease_id,
            lessor: listing.lessor,
            lessee,
            nft_id: listing.nft_id,
            start_time: 0,
            duration: listing.duration,
            lessor_share: listing.lessor_share,
            collateral: listing.collateral_required,
            collateral_deposited: listing.collateral_required == 0,
            status: LeaseStatus::Pending,
            total_revenue: 0,
            lessor_earned: 0,
            lessee_earned: 0,
            renewable: listing.renewable,
            renewal_count: 0,
        });
        Ok(lease_id)
    }

    /// The lessor or lessee (who has authorised) disputes a lease at time
    /// `now`: an open dispute is recorded, with the next id in sequence, and
    /// the lease is marked disputed.
    pub fn open_dispute(&mut self, lease_id: u64, claimant: u64, reason: String, now: u64) -> (r: Result<u64, Error>)
        requires
            old(self).dispute_counter < u64::MAX,
        ensures
            r == (if !old(self).leases@.contains_key(lease_id) {
                Err(Error::LeaseNotFound)
            } else if claimant != old(self).leases@[lease_id].lessor && claimant != old(self).leases@[lease_id].lessee {
                Err(Error::UnauthorizedCaller)
            } else if old(self).leases@[lease_id].status == LeaseStatus::Disputed {
                Err(Error::AlreadyDisputed)
            } else {
                Ok((old(self).dispute_counter + 1) as u64)
            }),
            r is Err ==> *final(self) == *old(self),
            r matches Ok(id) ==> {
                &&& final(self).leases@ == old(self).leases@.insert(lease_id, LeaseAgreement { status: LeaseStatus::Disputed, ..old(self).leases@[lease_id] })
                &&& final(self).disputes@ == old(self).disputes@.insert(id, DisputeCase {
                    dispute_id: id,
                    lease_id,
                    claimant,
                    reason,
                    status: DisputeStatus::Open,
                    created_at: now,
                })
                &&& *final(self) == (NFTLeasingContract { dispute_counter: id, leases: final(self).leases, disputes: final(self).disputes, ..*old(self) })
            },
    {
        let mut lease = match self.leases.get(lease_id) {
            Some(l) => *l,
            None => {
                return Err(Error::LeaseNotFound);
            },
        };
        if claimant != lease.lessor && claimant != lease.lessee {
            return Err(Error::UnauthorizedCaller);
        }
        if lease.status == LeaseStatus::Disputed {
            return Err(Error::AlreadyDisputed);
        }
        let dispute_id = self.dispute_counter + 1;
        self.dispute_counter = dispute_id;
        lease.status = LeaseStatus::Disputed;
        self.leases.insert(lease_id, lease);
        self.disputes.insert(dispute_id, DisputeCase {
            dispute_id,
            lease_id,
            claimant,
            reason,
            status: DisputeStatus::Open,
            created_at: now,
        });
        Ok(dispute_id)
    }

    /// The admin (who has authorised) settles a dispute: deposited positive
    /// collateral goes to the lessor or to the lessee as decided, the
    /// dispute records the outcome, and the lease is terminated. Returns the
    /// collateral transfer, if any.
    pub fn resolve_dispute(&mut self, dispute_id: u64, favor_lessor: bool, contract: u64) -> (r: Result<Option<TokenTransfer>, Error>)
        ensures
            !old(self).disputes@.contains_key(dispute_id) ==> r == Err::<Option<TokenTransfer>, Error>(Error::DisputeNotFound),
            old(self).disputes@.contains_key(dispute_id) ==> {
                let d = old(self).disputes@[dispute_id];
                if !old(self).leases@.contains_key(d.lease_id) {
                    r == Err::<Option<TokenTransfer>, Error>(Error::LeaseNotFound)
                } else {
                    let l = old(self).leases@[d.lease_id];
                    &&& r == Ok::<Option<TokenTransfer>, Error>(if l.collateral > 0 && l.collateral_deposited {
                        Some(TokenTransfer { token: old(self).token, from: contract, to: if favor_lessor { l.lessor } else { l.lessee }, amount: l.collateral })
                    } else {
                        None
                    })
                    &&& final(self).disputes@ == old(self).disputes@.insert(dispute_id, DisputeCase {
                        status: if favor_lessor { DisputeStatus::ResolvedForLessor } else { DisputeStatus::ResolvedForLessee },
                        ..d
                    })
                    &&& final(self).leases@ == old(self).leases@.insert(d.lease_id, LeaseAgreement { status: LeaseStatus::Terminated, ..l })
                }
            },
            r is Err ==> *final(self) == *old(self),
            *final(self) == (NFTLeasingContract { leases: final(self).leases, disputes: final(self).disputes, ..*old(self) }),
    {
        let lease_id = match self.disputes.get(dispute_id) {
            Some(d) => d.lease_id,
            None => {
                return Err(Error::DisputeNotFound);
            },
        };
        let mut lease = match self.leases.get(lease_id) {
            Some(l) => *l,
            None => {
                return Err(Error::LeaseNotFound);
            },
        };
        let t = if lease.collateral > 0 && lease.collateral_deposited {
            let to = if favor_lessor { lease.lessor } else { lease.lessee };
            Some(TokenTransfer { token: self.token, from: contract, to, amount: lease.collateral })
        } else {
            None
        };
        let mut dispute = self.disputes.remove(dispute_id).unwrap();
        dispute.status = if favor_lessor { DisputeStatus::ResolvedForLessor } else { DisputeStatus::ResolvedForLessee };
        self.disputes.insert(dispute_id, dispute);
        lease.status = LeaseStatus::Terminated;
        self.leases.insert(lease_id, lease);
        Ok(t)
    }

    pub fn get_lease(&self, lease_id: u64) -> (r: Result<LeaseAgreement, Error>)
        ensures
            r == (if self.leases@.contains_key(lease_id) {
                Ok(self.leases@[lease_id])
            } else {
                Err(Error::LeaseNotFound)
            }),
    {
        match self.leases.get(lease_id) {
            Some(l) => Ok(*l),
            None => Err(Error::LeaseNotFound),
        }
    }

    pub fn get_listing(&self, listing_id: u64) -> (r: Result<MarketplaceListing, Error>)
        ensures
            r == (if self.listings@.contains_key(listing_id) {
                Ok(self.listings@[listing_id])
            } else {
                Err(Error::ListingNotFound)
            }),
    {
        match self.listings.get(listing_id) {
            Some(s) => Ok(*s),
            None => Err(Error::ListingNotFound),
        }
    }

    pub fn get_dispute(&self, dispute_id: u64) -> (r: Result<DisputeCase, Error>)
        ensures
            r == (if self.disputes@.contains_key(dispute_id) {
                Ok(self.disputes@[dispute_id])
            } else {
                Err(Error::DisputeNotFound)
            }),
    {
        match self.disputes.get(dispute_id) {
            Some(d) => Ok(d.clone()),
            None => Err(Error::DisputeNotFound),
        }
    }
}

} // verus!

verus! {

/// Paying out a lease's revenue splits exactly what was undistributed: the
/// lessor gets `lessor_share` percent (rounded down), the lessee the rest,
/// and nothing is left undistributed.
pub proof fn law_payout_splits_revenue(l: LeaseAgreement)
    requires
        payout_fits(l),
        undistributed(l) > 0,
    ensures
        undistributed(after_payout(l)) == 0,
        0 <= lessor_part(undistributed(l), l.lessor_share) <= undistributed(l),
        after_payout(l).lessor_earned == l.lessor_earned + lessor_part(undistributed(l), l.lessor_share),
{
    let d = undistributed(l);
    let s = l.lessor_share as int;
    assert(0 <= d * s / 100 <= d) by (nonlinear_arith)
        requires
            d > 0,
            0 <= s <= 100,
    {
        assert(d * s <= d * 100);
    }
}

} // verus!
