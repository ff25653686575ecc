//! A marketplace for puzzle hints: creators publish hints, sellers list them
//! at a price adjusted for quality and demand, buyers pay the seller, the
//! marketplace fee and the creator's royalty, and buyers rate what they read.
//! Hints can also be sold in packs.
use vstd::prelude::*;
use crate::assoc::{AssocMap, ListMap, PairMap};
use crate::seqs::{copy_vec, remove_value_u64};
use crate::token::TokenTransfer;

verus! {

/// Hint quality, from worst to best (levels 1 to 5).
#[derive(Clone, Copy, Debug, PartialEq, Eq, Structural)]
pub enum HintQuality {
    Poor,
    Fair,
    Good,
    Excellent,
    Perfect,
}

#[derive(Clone, Copy, Debug, PartialEq, Eq, Structural)]
pub enum ListingStatus {
    Active,
    Sold,
    Cancelled,
    Expired,
}

#[derive(Clone, Copy, Debug)]
pub struct Hint {
    pub hint_id: u64,
    pub puzzle_id: u32,
    pub creator: u64,
    /// Hash of the hint's content, which is kept elsewhere.
    pub content_hash: [u8; 32],
    pub quality: HintQuality,
    pub created_at: u64,
    pub total_sales: u32,
    /// Sum of all quality ratings.
    pub total_rating: u64,
    pub rating_count: u32,
}

#[derive(Clone, Copy, Debug, PartialEq, Eq, Structural)]
pub struct HintListing {
    pub listing_id: u64,
    pub hint_id: u64,
    pub seller: u64,
    pub payment_token: u64,
    pub base_price: i128,
    pub current_price: i128,
    pub status: ListingStatus,
    pub created_time: u64,
    pub expiration_time: u64,
    pub creator: u64,
    /// Royalty in basis points (10 000 is all of the price).
    pub royalty_bps: u32,
    pub quality: HintQuality,
}

#[derive(Debug)]
pub struct HintPack {
    pub pack_id: u64,
    pub name: String,
    pub hint_ids: Vec<u64>,
    pub pack_price: i128,
    pub discount_bps: u32,
    pub creator: u64,
    pub created_at: u64,
    pub expiration_time: Option<u64>,
}

/// Two packs are the same when their fields are, the hint lists compared by
/// content.
pub open spec fn same_pack(a: HintPack, b: HintPack) -> bool {
    &&& a.hint_ids@ == b.hint_ids@
    &&& (HintPack { hint_ids: b.hint_ids, ..a }) == b
}

impl Clone for HintPack {
    fn clone(&self) -> (r: Self)
        ensures
            same_pack(r, *self),
    {
        HintPack {
            pack_id: self.pack_id,
            name: self.name.clone(),
            hint_ids: copy_vec(&self.hint_ids),
            pack_price: self.pack_price,
            discount_bps: self.discount_bps,
            creator: self.creator,
            created_at: self.created_at,
            expiration_time: self.expiration_time,
        }
    }
}

#[derive(Clone, Copy, Debug, PartialEq, Eq, Structural)]
pub struct Rating {
    pub rater: u64,
    pub hint_id: u64,
    /// 1 to 5.
    pub quality_rating: u32,
    /// 1 to 5.
    pub helpfulness: u32,
    pub timestamp: u64,
}

#[derive(Clone, Copy, Debug, PartialEq, Eq, Structural)]
pub struct MarketplaceConfig {
    pub admin: u64,
    pub fee_recipient: u64,
    /// Marketplace fee in basis points.
    pub fee_bps: u32,
    pub min_listing_duration: u64,
    pub max_listing_duration: u64,
    /// How strongly demand raises prices, in basis points.
    pub price_adjustment_factor: u32,
    pub min_quality_for_listing: HintQuality,
}

#[derive(Clone, Copy, Debug, PartialEq, Eq, Structural)]
pub struct DemandMetrics {
    pub hint_id: u64,
    pub views: u32,
    pub purchases: u32,
    pub last_purchase_time: u64,
    /// Average time between listing and sale.
    pub average_time_to_sale: u64,
}

#[derive(Clone, Copy, Debug, PartialEq, Eq, Structural)]
pub enum MarketplaceError {
    NotInitialized,
    AlreadyInitialized,
    NotAuthorized,
    HintNotFound,
    ListingNotFound,
    ListingNotActive,
    ListingExpired,
    InvalidPrice,
    InvalidDuration,
    InsufficientBalance,
    InvalidQuality,
    InvalidRating,
    PackNotFound,
    PackExpired,
    DuplicateRating,
}

/// The state of the hint marketplace.
pub struct HintMarketplace {
    pub config: MarketplaceConfig,
    pub hint_counter: u64,
    pub listing_counter: u64,
    pub pack_counter: u64,
    pub hints: AssocMap<Hint>,
    pub listings: AssocMap<HintListing>,
    pub packs: AssocMap<HintPack>,
    /// Ratings by (hint, rater).
    pub ratings: PairMap<Rating>,
    /// Raters of each hint, in order.
    pub ratings_by_hint: ListMap<u64>,
    pub listings_by_hint: ListMap<u64>,
    pub listings_by_seller: ListMap<u64>,
    pub listings_by_puzzle: ListMap<u64>,
    pub active_listings: Vec<u64>,
    /// Sale prices of each hint, the last hundred at most.
    pub price_history: ListMap<i128>,
    pub demand: AssocMap<DemandMetrics>,
    pub packs_by_creator: ListMap<u64>,
    pub active_packs: Vec<u64>,
}

/// The level of a quality, 1 (poor) to 5 (perfect).
pub open spec fn level(q: HintQuality) -> u32 {
    match q {
        HintQuality::Poor => 1,
        HintQuality::Fair => 2,
        HintQuality::Good => 3,
        HintQuality::Excellent => 4,
        HintQuality::Perfect => 5,
    }
}

fn quality_level(q: HintQuality) -> (r: u32)
    ensures
        r == level(q),
{
    match q {
        HintQuality::Poor => 1,
        HintQuality::Fair => 2,
        HintQuality::Good => 3,
        HintQuality::Excellent => 4,
        HintQuality::Perfect => 5,
    }
}

/// The quality an average rating stands for (anything else reads as good).
pub open spec fn quality_of_average(avg: u64) -> HintQuality {
    if avg == 1 {
        HintQuality::Poor
    } else if avg == 2 {
        HintQuality::Fair
    } else if avg == 3 {
        HintQuality::Good
    } else if avg == 4 {
        HintQuality::Excellent
    } else if avg == 5 {
        HintQuality::Perfect
    } else {
        HintQuality::Good
    }
}

fn quality_from_average(avg: u64) -> (q: HintQuality)
    ensures
        q == quality_of_average(avg),
{
    if avg == 1 {
        HintQuality::Poor
    } else if avg == 2 {
        HintQuality::Fair
    } else if avg == 3 {
        HintQuality::Good
    } else if avg == 4 {
        HintQuality::Excellent
    } else if avg == 5 {
        HintQuality::Perfect
    } else {
        HintQuality::Good
    }
}

/// The price multiplier of a quality, in basis points.
pub open spec fn quality_multiplier(q: HintQuality) -> int {
    match q {
        HintQuality::Poor => 5000,
        HintQuality::Fair => 7500,
        HintQuality::Good => 10000,
        HintQuality::Excellent => 12500,
        HintQuality::Perfect => 15000,
    }
}

/// The demand multiplier, in basis points: 100% for a hint never bought,
/// otherwise raised by the adjustment factor times the purchase rate.
pub open spec fn demand_factor(m: DemandMetrics, factor: u32) -> int {
    if m.purchases > 0 {
        let seen = if m.views + m.purchases >= 1 { m.views + m.purchases } else { 1 };
        let rate = (m.purchases * 10000) / seen;
        10000 + (rate * factor) / 10000
    } else {
        10000
    }
}

/// The listing price of a hint of quality `q` at a positive base price: the
/// base scaled by quality and by demand (each rounded down), kept between
/// half the base (rounded down) and three times the base.
pub open spec fn dynamic_price(base: i128, q: HintQuality, m: DemandMetrics, factor: u32) -> int {
    let quality_adjusted = (base * quality_multiplier(q)) / 10000;
    let p = (quality_adjusted * demand_factor(m, factor)) / 10000;
    let lo = base / 2;
    let hi = base * 3;
    let a = if p >= lo { p } else { lo };
    if a <= hi { a } else { hi }
}

/// A part of a price in basis points, rounded toward zero.
pub open spec fn bps_part(price: i128, bps: u32) -> int {
    let p = price * bps;
    if p >= 0 { p / 10000 } else { -((-p) / 10000) }
}

/// The metrics a hint has before anything is recorded.
pub open spec fn fresh_metrics(hint_id: u64) -> DemandMetrics {
    DemandMetrics { hint_id, views: 0, purchases: 0, last_purchase_time: 0, average_time_to_sale: 0 }
}

/// The metrics after a sale at `now` of a listing created at `created`.
pub open spec fn metrics_after_sale(m: DemandMetrics, created: u64, now: u64) -> DemandMetrics {
    let p = m.purchases + 1;
    let t = now - created;
    DemandMetrics {
        purchases: p as u32,
        last_purchase_time: now,
        average_time_to_sale: (if p == 1 { t } else { (m.average_time_to_sale * (p - 1) + t) / p }) as u64,
        ..m
    }
}

/// A price history with one more price, keeping the last hundred.
pub open spec fn history_after(h: Seq<i128>, price: i128) -> Seq<i128> {
    let g = h.push(price);
    if g.len() > 100 { g.subrange(g.len() - 100, g.len() as int) } else { g }
}

/// The transfers of a sale at the listing's base price: the price from the
/// buyer into the contract,
/// then the seller's part, the marketplace fee and the creator's royalty
/// out of it (the last two only when positive).
pub open spec fn sale_transfers(l: HintListing, c: MarketplaceConfig, buyer: u64, contract: u64) -> Seq<TokenTransfer> {
    let token = l.payment_token;
    let fee = bps_part(l.base_price, c.fee_bps);
    let royalty = bps_part(l.base_price, l.royalty_bps);
    seq![
        TokenTransfer { token, from: buyer, to: contract, amount: l.base_price },
        TokenTransfer { token, from: contract, to: l.seller, amount: (l.base_price - fee - royalty) as i128 },
    ] + (if fee > 0 {
        seq![TokenTransfer { token, from: contract, to: c.fee_recipient, amount: fee as i128 }]
    } else {
        Seq::empty()
    }) + (if royalty > 0 {
        seq![TokenTransfer { token, from: contract, to: l.creator, amount: royalty as i128 }]
    } else {
        Seq::empty()
    })
}

/// The first reason a list of hints cannot form a creator's pack: a hint
/// that does not exist or that another creator made.
pub open spec fn pack_problem(ids: Seq<u64>, hints: Map<u64, Hint>, creator: u64) -> Option<MarketplaceError>
    decreases ids.len(),
{
    if ids.len() == 0 {
        None
    } else {
        match pack_problem(ids.drop_last(), hints, creator) {
            Some(e) => Some(e),
            None => if !hints.contains_key(ids.last()) {
                Some(MarketplaceError::HintNotFound)
            } else if hints[ids.last()].creator != creator {
                Some(MarketplaceError::NotAuthorized)
            } else {
                None
            },
        }
    }
}

proof fn lemma_pack_problem_prefix(ids: Seq<u64>, hints: Map<u64, Hint>, creator: u64, j: int)
    requires
        0 <= j <= ids.len(),
        pack_problem(ids.take(j), hints, creator) is Some,
    ensures
        pack_problem(ids, hints, creator) == pack_problem(ids.take(j), hints, creator),
    decreases ids.len(),
{
    if j < ids.len() {
        assert(ids.drop_last().take(j) =~= ids.take(j));
        lemma_pack_problem_prefix(ids.drop_last(), hints, creator, j);
    } else {
        assert(ids.take(j) =~= ids);
    }
}

/// The hints after one more sale of each listed hint, in order.
pub open spec fn add_sales(hints: Map<u64, Hint>, ids: Seq<u64>) -> Map<u64, Hint>
    decreases ids.len(),
{
    if ids.len() == 0 {
        hints
    } else {
        let h = add_sales(hints, ids.drop_last());
        h.insert(ids.last(), Hint { total_sales: (h[ids.last()].total_sales + 1) as u32, ..h[ids.last()] })
    }
}

/// Whether no sale count overflows while `add_sales` counts the list.
pub open spec fn sales_fit(hints: Map<u64, Hint>, ids: Seq<u64>) -> bool
    decreases ids.len(),
{
    if ids.len() == 0 {
        true
    } else {
        sales_fit(hints, ids.drop_last()) && add_sales(hints, ids.drop_last())[ids.last()].total_sales < u32::MAX
    }
}

proof fn lemma_sales_fit_prefix(hints: Map<u64, Hint>, ids: Seq<u64>, j: int)
    requires
        0 <= j <= ids.len(),
        sales_fit(hints, ids),
    ensures
        sales_fit(hints, ids.take(j)),
    decreases ids.len(),
{
    if j < ids.len() {
        assert(ids.drop_last().take(j) =~= ids.take(j));
        lemma_sales_fit_prefix(hints, ids.drop_last(), j);
    } else {
        assert(ids.take(j) =~= ids);
    }
}

/// Counting sales keeps the set of hints.
proof fn lemma_add_sales_dom(hints: Map<u64, Hint>, ids: Seq<u64>)
    requires
        forall|k: int| 0 <= k < ids.len() ==> hints.contains_key(#[trigger] ids[k]),
    ensures
        add_sales(hints, ids).dom() == hints.dom(),
    decreases ids.len(),
{
    if ids.len() > 0 {
        assert forall|k: int| 0 <= k < ids.drop_last().len() implies hints.contains_key(#[trigger] ids.drop_last()[k]) by {
            assert(ids.drop_last()[k] == ids[k]);
        }
        lemma_add_sales_dom(hints, ids.drop_last());
        assert(hints.contains_key(ids[ids.len() - 1]));
        assert(add_sales(hints, ids).dom() =~= hints.dom());
    }
}

/// The listings and active list after expiring, in order, each listed id
/// whose listing is active and past its expiration at `now`.
pub open spec fn expire_all(ls: Map<u64, HintListing>, active: Seq<u64>, ids: Seq<u64>, now: u64) -> (Map<u64, HintListing>, Seq<u64>)
    decreases ids.len(),
{
    if ids.len() == 0 {
        (ls, active)
    } else {
        let (l2, a2) = expire_all(ls, active, ids.drop_last(), now);
        let id = ids.last();
        if l2.contains_key(id) && l2[id].status == ListingStatus::Active && now > l2[id].expiration_time {
            (l2.insert(id, HintListing { status: ListingStatus::Expired, ..l2[id] }), a2.remove_value(id))
        } else {
            (l2, a2)
        }
    }
}

/// The last hundred entries of a list (all of it when shorter).
fn last_hundred(v: Vec<i128>) -> (r: Vec<i128>)
    ensures
        r@ == (if v@.len() > 100 { v@.subrange(v@.len() - 100, v@.len() as int) } else { v@ }),
{
    if v.len() <= 100 {
        return v;
    }
    let start = v.len() - 100;
    let mut r: Vec<i128> = Vec::new();
    let mut i = start;
    while i < v.len()
        invariant
            start <= i <= v@.len(),
            start == v@.len() - 100,
            r@ == v@.subrange(start as int, i as int),
        decreases v@.len() - i,
    {
        r.push(v[i]);
        i = i + 1;
        assert(r@ =~= v@.subrange(start as int, i as int));
    }
    r
}

impl HintMarketplace {
    /// Whether the configured rates are within 100%.
    pub open spec fn wf(&self) -> bool {
        &&& self.config.fee_bps <= 10000
        &&& self.config.price_adjustment_factor <= 10000
    }

    /// The marketplace as `initialize` leaves it. The fee and the price
    /// adjustment factor must not exceed 100% (`InvalidPrice` otherwise).
    pub fn initialize(
        admin: u64,
        fee_recipient: u64,
        fee_bps: u32,
        min_listing_duration: u64,
        max_listing_duration: u64,
        price_adjustment_factor: u32,
        min_quality_for_listing: HintQuality,
    ) -> (r: Result<Self, MarketplaceError>)
        ensures
            r is Err <==> fee_bps > 10000 || price_adjustment_factor > 10000,
            r is Err ==> r->Err_0 == MarketplaceError::InvalidPrice,
            r matches Ok(m) ==> {
                &&& m.wf()
                &&& m.config == (MarketplaceConfig {
                    admin,
                    fee_recipient,
                    fee_bps,
                    min_listing_duration,
                    max_listing_duration,
                    price_adjustment_factor,
                    min_quality_for_listing,
                })
                &&& m.hint_counter == 0 && m.listing_counter == 0 && m.pack_counter == 0
                &&& m.hints@ == Map::<u64, Hint>::empty()
                &&& m.listings@ == Map::<u64, HintListing>::empty()
                &&& m.packs@ == Map::<u64, HintPack>::empty()
                &&& m.ratings@ == Map::<(u64, u64), Rating>::empty()
                &&& m.ratings_by_hint@ == Map::<u64, Seq<u64>>::empty()
                &&& m.listings_by_hint@ == Map::<u64, Seq<u64>>::empty()
                &&& m.listings_by_seller@ == Map::<u64, Seq<u64>>::empty()
                &&& m.listings_by_puzzle@ == Map::<u64, Seq<u64>>::empty()
                &&& m.active_listings@ == Seq::<u64>::empty()
                &&& m.price_history@ == Map::<u64, Seq<i128>>::empty()
                &&& m.demand@ == Map::<u64, DemandMetrics>::empty()
                &&& m.packs_by_creator@ == Map::<u64, Seq<u64>>::empty()
                &&& m.active_packs@ == Seq::<u64>::empty()
            },
    {
        if fee_bps > 10000 || price_adjustment_factor > 10000 {
            return Err(MarketplaceError::InvalidPrice);
        }
        Ok(HintMarketplace {
            config: MarketplaceConfig {
                admin,
                fee_recipient,
                fee_bps,
                min_listing_duration,
                max_listing_duration,
                price_adjustment_factor,
                min_quality_for_listing,
            },
            hint_counter: 0,
            listing_counter: 0,
            pack_counter: 0,
            hints: AssocMap::new(),
            listings: AssocMap::new(),
            packs: AssocMap::new(),
            ratings: PairMap::new(),
            ratings_by_hint: ListMap::new(),
            listings_by_hint: ListMap::new(),
            listings_by_seller: ListMap::new(),
            listings_by_puzzle: ListMap::new(),
            active_listings: Vec::new(),
            price_history: ListMap::new(),
            demand: AssocMap::new(),
            packs_by_creator: ListMap::new(),
            active_packs: Vec::new(),
        })
    }

    /// Replaces each configuration value that is given (the admin has
    /// authorised). A fee or adjustment factor above 100% is refused
    /// (`InvalidPrice`) and nothing changes.
    pub fn update_config(
        &mut self,
        fee_recipient: Option<u64>,
        fee_bps: Option<u32>,
        min_listing_duration: Option<u64>,
        max_listing_duration: Option<u64>,
        price_adjustment_factor: Option<u32>,
        min_quality_for_listing: Option<HintQuality>,
    ) -> (r: Result<(), MarketplaceError>)
        ensures
            r is Err <==> (fee_bps matches Some(b) && b > 10000) || (price_adjustment_factor matches Some(f) && f > 10000),
            r is Err ==> r->Err_0 == MarketplaceError::InvalidPrice && *final(self) == *old(self),
            r is Ok ==> *final(self) == (HintMarketplace {
                config: MarketplaceConfig {
                    fee_recipient: match fee_recipient { Some(v) => v, None => old(self).config.fee_recipient },
                    fee_bps: match fee_bps { Some(v) => v, None => old(self).config.fee_bps },
                    min_listing_duration: match min_listing_duration { Some(v) => v, None => old(self).config.min_listing_duration },
                    max_listing_duration: match max_listing_duration { Some(v) => v, None => old(self).config.max_listing_duration },
                    price_adjustment_factor: match price_adjustment_factor { Some(v) => v, None => old(self).config.price_adjustment_factor },
                    min_quality_for_listing: match min_quality_for_listing { Some(v) => v, None => old(self).config.min_quality_for_listing },
                    ..old(self).config
                },
                ..*old(self)
            }),
            old(self).wf() ==> final(self).wf(),
    {
        if let Some(b) = fee_bps {
            if b > 10000 {
                return Err(MarketplaceError::InvalidPrice);
            }
        }
        if let Some(f) = price_adjustment_factor {
            if f > 10000 {
                return Err(MarketplaceError::InvalidPrice);
            }
        }
        if let Some(v) = fee_recipient {
            self.config.fee_recipient = v;
        }
        if let Some(v) = fee_bps {
            self.config.fee_bps = v;
        }
        if let Some(v) = min_listing_duration {
            self.config.min_listing_duration = v;
        }
        if let Some(v) = max_listing_duration {
            self.config.max_listing_duration = v;
        }
        if let Some(v) = price_adjustment_factor {
            self.config.price_adjustment_factor = v;
        }
        if let Some(v) = min_quality_for_listing {
            self.config.min_quality_for_listing = v;
        }
        Ok(())
    }

    /// Publishes a hint by `creator` (who has authorised) at time `now`, with
    /// fresh demand metrics; returns its id, the next in sequence.
    pub fn create_hint(&mut self, creator: u64, puzzle_id: u32, content_hash: [u8; 32], quality: HintQuality, now: u64) -> (id: u64)
        requires
            old(self).hint_counter < u64::MAX,
        ensures
            id == old(self).hint_counter + 1,
            final(self).hints@ == old(self).hints@.insert(id, Hint {
                hint_id: id,
                puzzle_id,
                creator,
                content_hash,
                quality,
                created_at: now,
                total_sales: 0,
                total_rating: 0,
                rating_count: 0,
            }),
            final(self).demand@ == old(self).demand@.insert(id, fresh_metrics(id)),
            *final(self) == (HintMarketplace { hint_counter: id, hints: final(self).hints, demand: final(self).demand, ..*old(self) }),
    {
        let hint_id = self.hint_counter + 1;
        self.hint_counter = hint_id;
        self.hints.insert(hint_id, Hint {
            hint_id,
            puzzle_id,
            creator,
            content_hash,
            quality,
            created_at: now,
            total_sales: 0,
            total_rating: 0,
            rating_count: 0,
        });
        self.demand.insert(hint_id, DemandMetrics { hint_id, views: 0, purchases: 0, last_purchase_time: 0, average_time_to_sale: 0 });
        hint_id
    }

    /// The metrics of a hint (fresh ones when none are stored).
    pub open spec fn metrics_of(&self, hint_id: u64) -> DemandMetrics {
        if self.demand@.contains_key(hint_id) { self.demand@[hint_id] } else { fresh_metrics(hint_id) }
    }

    fn metrics(&self, hint_id: u64) -> (m: DemandMetrics)
        ensures
            m == self.metrics_of(hint_id),
    {
        match self.demand.get(hint_id) {
            Some(m) => *m,
            None => DemandMetrics { hint_id, views: 0, purchases: 0, last_purchase_time: 0, average_time_to_sale: 0 },
        }
    }

    /// The listing price of an existing hint at a positive base price.
    pub fn calculate_dynamic_price(&self, hint_id: u64, base_price: i128) -> (p: i128)
        requires
            self.wf(),
            self.hints@.contains_key(hint_id),
            0 < base_price,
            base_price * 30000 <= i128::MAX,
        ensures
            p == dynamic_price(base_price, self.hints@[hint_id].quality, self.metrics_of(hint_id), self.config.price_adjustment_factor),
    {
        let m = self.metrics(hint_id);
        let q = self.hints.get(hint_id).unwrap().quality;
        let mult: i128 = match q {
            HintQuality::Poor => 5000,
            HintQuality::Fair => 7500,
            HintQuality::Good => 10000,
            HintQuality::Excellent => 12500,
            HintQuality::Perfect => 15000,
        };
        assert(base_price * mult <= base_price * 15000) by (nonlinear_arith)
            requires
                0 < base_price,
                mult <= 15000,
        ;
        assert(0 < base_price * mult) by (nonlinear_arith)
            requires
                0 < base_price,
                0 < mult,
        ;
        let quality_adjusted = (base_price * mult) / 10000;
        let factor = self.config.price_adjustment_factor;
        let demand: i128 = if m.purchases > 0 {
            let total = m.views as i128 + m.purchases as i128;
            let seen: i128 = if total >= 1 { total } else { 1 };
            let p = m.purchases as i128;
            assert(p * 10000 <= seen * 10000) by (nonlinear_arith)
                requires
                    p <= seen,
            ;
            let rate = (p * 10000) / seen;
            assert(rate <= 10000) by (nonlinear_arith)
                requires
                    rate == (p * 10000) / (seen as int),
                    p * 10000 <= seen * 10000,
                    seen > 0,
            ;
            assert(rate * factor <= 10000 * 10000) by (nonlinear_arith)
                requires
                    0 <= rate <= 10000,
                    factor <= 10000,
            ;
            assert(0 <= rate * factor) by (nonlinear_arith)
                requires
                    0 <= rate,
            ;
            10000 + (rate * factor as i128) / 10000
        } else {
            10000
        };
        assert(quality_adjusted * 2 <= base_price * 3) by (nonlinear_arith)
            requires
                quality_adjusted == (base_price * mult) / 10000,
                base_price * mult <= base_price * 15000,
                0 < base_price,
        ;
        assert(quality_adjusted * demand * 2 <= base_price * 3 * demand) by (nonlinear_arith)
            requires
                quality_adjusted * 2 <= base_price * 3,
                0 < demand,
        ;
        assert(base_price * 3 * demand <= base_price * 3 * 20000) by (nonlinear_arith)
            requires
                0 < base_price,
                0 < demand <= 20000,
        ;
        assert(0 <= quality_adjusted * demand) by (nonlinear_arith)
            requires
                0 <= quality_adjusted,
                0 < demand,
        ;
        let p = (quality_adjusted * demand) / 10000;
        let lo = base_price / 2;
        let hi = base_price * 3;
        let a = if p >= lo { p } else { lo };
        if a <= hi { a } else { hi }
    }

    /// The seller's part, the fee and the royalty of a price.
    pub fn calculate_payouts(price: i128, fee_bps: u32, royalty_bps: u32) -> (r: (i128, i128, i128))
        requires
            i128::MIN <= price * fee_bps <= i128::MAX,
            i128::MIN <= price * royalty_bps <= i128::MAX,
            i128::MIN <= price - bps_part(price, fee_bps) <= i128::MAX,
            i128::MIN <= price - bps_part(price, fee_bps) - bps_part(price, royalty_bps) <= i128::MAX,
        ensures
            r.1 == bps_part(price, fee_bps),
            r.2 == bps_part(price, royalty_bps),
            r.0 == price - r.1 - r.2,
    {
        let fee = (price * fee_bps as i128) / 10000;
        let royalty = (price * royalty_bps as i128) / 10000;
        (price - fee - royalty, fee, royalty)
    }

    /// `seller` (who has authorised) lists an existing hint at time `now` for
    /// `duration`, paid in `payment_token`, with a royalty to the hint's
    /// creator. The hint must meet the minimum quality, the base price must
    /// be positive, the royalty at most 100% and the duration within the
    /// configured bounds. The listing is priced by `dynamic_price` and
    /// indexed by hint, seller, puzzle and as active. Returns its id.
    pub fn create_listing(
        &mut self,
        seller: u64,
        hint_id: u64,
        payment_token: u64,
        base_price: i128,
        duration: u64,
        royalty_bps: u32,
        now: u64,
    ) -> (r: Result<u64, MarketplaceError>)
        requires
            old(self).wf(),
            old(self).listing_counter < u64::MAX,
            now + duration <= u64::MAX,
            base_price * 30000 <= i128::MAX,
        ensures
            r == (if !old(self).hints@.contains_key(hint_id) {
                Err(MarketplaceError::HintNotFound)
            } else if level(old(self).hints@[hint_id].quality) < level(old(self).config.min_quality_for_listing) {
                Err(MarketplaceError::InvalidQuality)
            } else if base_price <= 0 || royalty_bps > 10000 {
                Err(MarketplaceError::InvalidPrice)
            } else if duration < old(self).config.min_listing_duration || duration > old(self).config.max_listing_duration {
                Err(MarketplaceError::InvalidDuration)
            } else {
                Ok((old(self).listing_counter + 1) as u64)
            }),
            r is Err ==> *final(self) == *old(self),
            r matches Ok(id) ==> {
                let h = old(self).hints@[hint_id];
                &&& final(self).listings@ == old(self).listings@.insert(id, HintListing {
                    listing_id: id,
                    hint_id,
                    seller,
                    payment_token,
                    base_price,
                    current_price: dynamic_price(base_price, h.quality, old(self).metrics_of(hint_id), old(self).config.price_adjustment_factor) as i128,
                    status: ListingStatus::Active,
                    created_time: now,
                    expiration_time: (now + duration) as u64,
                    creator: h.creator,
                    royalty_bps,
                    quality: h.quality,
                })
                &&& final(self).listings_by_hint@ == old(self).listings_by_hint@.insert(hint_id, old(self).listings_by_hint.list(hint_id).push(id))
                &&& final(self).listings_by_seller@ == old(self).listings_by_seller@.insert(seller, old(self).listings_by_seller.list(seller).push(id))
                &&& final(self).listings_by_puzzle@ == old(self).listings_by_puzzle@.insert(h.puzzle_id as u64, old(self).listings_by_puzzle.list(h.puzzle_id as u64).push(id))
                &&& final(self).active_listings@ == old(self).active_listings@.push(id)
                &&& *final(self) == (HintMarketplace {
                    listing_counter: id,
                    listings: final(self).listings,
                    listings_by_hint: final(self).listings_by_hint,
                    listings_by_seller: final(self).listings_by_seller,
                    listings_by_puzzle: final(self).listings_by_puzzle,
                    active_listings: final(self).active_listings,
                    ..*old(self)
                })
            },
    {
        let h = match self.hints.get(hint_id) {
            Some(h) => *h,
            None => {
                return Err(MarketplaceError::HintNotFound);
            },
        };
        if quality_level(h.quality) < quality_level(self.config.min_quality_for_listing) {
            return Err(MarketplaceError::InvalidQuality);
        }
        if base_price <= 0 || royalty_bps > 10000 {
            return Err(MarketplaceError::InvalidPrice);
        }
        if duration < self.config.min_listing_duration || duration > self.config.max_listing_duration {
            return Err(MarketplaceError::InvalidDuration);
        }
        let current_price = self.calculate_dynamic_price(hint_id, base_price);
        let listing_id = self.listing_counter + 1;
        self.listing_counter = listing_id;
        self.listings.insert(listing_id, HintListing {
            listing_id,
            hint_id,
            seller,
            payment_token,
            base_price,
            current_price,
            status: ListingStatus::Active,
            created_time: now,
            expiration_time: now + duration,
            creator: h.creator,
            royalty_bps,
            quality: h.quality,
        });
        self.listings_by_hint.push(hint_id, listing_id);
        self.listings_by_seller.push(seller, listing_id);
        self.listings_by_puzzle.push(h.puzzle_id as u64, listing_id);
        self.active_listings.push(listing_id);
        Ok(listing_id)
    }

    /// Whether the arithmetic of buying the listing at `now` stays in range
    /// (vacuous for an unknown listing).
    pub open spec fn buy_fits(&self, listing_id: u64, now: u64) -> bool {
        self.listings@.contains_key(listing_id) ==> {
            let l = self.listings@[listing_id];
            let fee = bps_part(l.base_price, self.config.fee_bps);
            let royalty = bps_part(l.base_price, l.royalty_bps);
            let m = self.metrics_of(l.hint_id);
            &&& i128::MIN <= l.base_price * self.config.fee_bps <= i128::MAX
            &&& i128::MIN <= l.base_price * l.royalty_bps <= i128::MAX
            &&& i128::MIN <= l.base_price - fee <= i128::MAX
            &&& i128::MIN <= l.base_price - fee - royalty <= i128::MAX
            &&& self.hints@.contains_key(l.hint_id) ==> self.hints@[l.hint_id].total_sales < u32::MAX
            &&& m.purchases < u32::MAX
            &&& (l.status == ListingStatus::Active && now <= l.expiration_time) ==> {
                &&& l.created_time <= now
                &&& m.average_time_to_sale * m.purchases + (now - l.created_time) <= u64::MAX
            }
        }
    }

    /// `buyer` (who has authorised) buys an active listing at time `now`;
    /// returns the transfers to make at the listing's base price (see
    /// `sale_transfers`). The hint counts a sale, its demand metrics and
    /// price history record it, and the listing is sold and leaves the
    /// active list. A listing past its expiration is refused; nothing
    /// changes on a refusal.
    pub fn buy(&mut self, buyer: u64, listing_id: u64, now: u64, contract: u64) -> (r: Result<Vec<TokenTransfer>, MarketplaceError>)
        requires
            old(self).buy_fits(listing_id, now),
        ensures
            !old(self).listings@.contains_key(listing_id) ==> r is Err && r->Err_0 == MarketplaceError::ListingNotFound,
            old(self).listings@.contains_key(listing_id) ==> {
                let l = old(self).listings@[listing_id];
                if l.status != ListingStatus::Active {
                    r is Err && r->Err_0 == MarketplaceError::ListingNotActive
                } else if now > l.expiration_time {
                    r is Err && r->Err_0 == MarketplaceError::ListingExpired
                } else if l.seller == buyer {
                    r is Err && r->Err_0 == MarketplaceError::NotAuthorized
                } else if !old(self).hints@.contains_key(l.hint_id) {
                    r is Err && r->Err_0 == MarketplaceError::HintNotFound
                } else {
                    let h = old(self).hints@[l.hint_id];
                    &&& r is Ok
                    &&& r->Ok_0@ == sale_transfers(l, old(self).config, buyer, contract)
                    &&& final(self).hints@ == old(self).hints@.insert(l.hint_id, Hint { total_sales: (h.total_sales + 1) as u32, ..h })
                    &&& final(self).demand@ == old(self).demand@.insert(l.hint_id, metrics_after_sale(old(self).metrics_of(l.hint_id), l.created_time, now))
                    &&& final(self).listings@ == old(self).listings@.insert(listing_id, HintListing { status: ListingStatus::Sold, ..l })
                    &&& final(self).active_listings@ == old(self).active_listings@.remove_value(listing_id)
                    &&& final(self).price_history@ == old(self).price_history@.insert(l.hint_id, history_after(old(self).price_history.list(l.hint_id), l.base_price))
                    &&& *final(self) == (HintMarketplace {
                        hints: final(self).hints,
                        demand: final(self).demand,
                        listings: final(self).listings,
                        active_listings: final(self).active_listings,
                        price_history: final(self).price_history,
                        ..*old(self)
                    })
                }
            },
            r is Err ==> *final(self) == *old(self),
    {
        let mut l = match self.listings.get(listing_id) {
            Some(l) => *l,
            None => {
                return Err(MarketplaceError::ListingNotFound);
            },
        };
        if l.status != ListingStatus::Active {
            return Err(MarketplaceError::ListingNotActive);
        }
        if now > l.expiration_time {
            return Err(MarketplaceError::ListingExpired);
        }
        if l.seller == buyer {
            return Err(MarketplaceError::NotAuthorized);
        }
        let mut h = match self.hints.get(l.hint_id) {
            Some(h) => *h,
            None => {
                return Err(MarketplaceError::HintNotFound);
            },
        };
        let (seller_amount, fee, royalty) = Self::calculate_payouts(l.base_price, self.config.fee_bps, l.royalty_bps);
        let token = l.payment_token;
        let mut out: Vec<TokenTransfer> = Vec::new();
        out.push(TokenTransfer { token, from: buyer, to: contract, amount: l.base_price });
        out.push(TokenTransfer { token, from: contract, to: l.seller, amount: seller_amount });
        if fee > 0 {
            out.push(TokenTransfer { token, from: contract, to: self.config.fee_recipient, amount: fee });
        }
        if royalty > 0 {
            out.push(TokenTransfer { token, from: contract, to: l.creator, amount: royalty });
        }
        assert(out@ =~= sale_transfers(l, self.config, buyer, contract));
        h.total_sales = h.total_sales + 1;
        self.hints.insert(l.hint_id, h);
        let mut m = self.metrics(l.hint_id);
        m.purchases = m.purchases + 1;
        m.last_purchase_time = now;
        let t = now - l.created_time;
        if m.purchases == 1 {
            m.average_time_to_sale = t;
        } else {
            m.average_time_to_sale = (m.average_time_to_sale * (m.purchases - 1) as u64 + t) / m.purchases as u64;
        }
        self.demand.insert(l.hint_id, m);
        l.status = ListingStatus::Sold;
        self.listings.insert(listing_id, l);
        remove_value_u64(&mut self.active_listings, listing_id);
        self.record_price(l.hint_id, l.base_price);
        Ok(out)
    }

    /// Appends a sale price to a hint's history, keeping the last hundred.
    fn record_price(&mut self, hint_id: u64, price: i128)
        ensures
            final(self).price_history@ == old(self).price_history@.insert(hint_id, history_after(old(self).price_history.list(hint_id), price)),
            *final(self) == (HintMarketplace { price_history: final(self).price_history, ..*old(self) }),
    {
        let mut h = self.price_history.get_list(hint_id);
        h.push(price);
        let kept = last_hundred(h);
        self.price_history.set(hint_id, kept);
    }

    /// `rater` (who has authorised) rates an existing hint once, at time
    /// `now`, for quality and helpfulness (each 1 to 5). The hint's quality
    /// becomes the one its average quality rating (rounded down) stands for.
    pub fn rate_hint(&mut self, rater: u64, hint_id: u64, quality_rating: u32, helpfulness: u32, now: u64) -> (r: Result<(), MarketplaceError>)
        requires
            old(self).hints@.contains_key(hint_id) ==> {
                &&& old(self).hints@[hint_id].total_rating + quality_rating <= u64::MAX
                &&& old(self).hints@[hint_id].rating_count < u32::MAX
            },
        ensures
            r == (if !old(self).hints@.contains_key(hint_id) {
                Err(MarketplaceError::HintNotFound)
            } else if quality_rating < 1 || quality_rating > 5 || helpfulness < 1 || helpfulness > 5 {
                Err(MarketplaceError::InvalidRating)
            } else if old(self).ratings@.contains_key((hint_id, rater)) {
                Err(MarketplaceError::DuplicateRating)
            } else {
                Ok(())
            }),
            r is Err ==> *final(self) == *old(self),
            r is Ok ==> {
                let h = old(self).hints@[hint_id];
                let total = (h.total_rating + quality_rating) as u64;
                let count = (h.rating_count + 1) as u32;
                &&& final(self).ratings@ == old(self).ratings@.insert((hint_id, rater), Rating { rater, hint_id, quality_rating, helpfulness, timestamp: now })
                &&& final(self).ratings_by_hint@ == old(self).ratings_by_hint@.insert(hint_id, old(self).ratings_by_hint.list(hint_id).push(rater))
                &&& final(self).hints@ == old(self).hints@.insert(hint_id, Hint {
                    total_rating: total,
                    rating_count: count,
                    quality: quality_of_average(total / count as u64),
                    ..h
                })
                &&& *final(self) == (HintMarketplace {
                    ratings: final(self).ratings,
                    ratings_by_hint: final(self).ratings_by_hint,
                    hints: final(self).hints,
                    ..*old(self)
                })
            },
    {
        let mut h = match self.hints.get(hint_id) {
            Some(h) => *h,
            None => {
                return Err(MarketplaceError::HintNotFound);
            },
        };
        if quality_rating < 1 || quality_rating > 5 || helpfulness < 1 || helpfulness > 5 {
            return Err(MarketplaceError::InvalidRating);
        }
        if self.ratings.contains_key(hint_id, rater) {
            return Err(MarketplaceError::DuplicateRating);
        }
        self.ratings.insert(hint_id, rater, Rating { rater, hint_id, quality_rating, helpfulness, timestamp: now });
        self.ratings_by_hint.push(hint_id, rater);
        h.total_rating = h.total_rating + quality_rating as u64;
        h.rating_count = h.rating_count + 1;
        let avg = h.total_rating / h.rating_count as u64;
        h.quality = quality_from_average(avg);
        self.hints.insert(hint_id, h);
        Ok(())
    }

    /// The first problem of a list of hints for a creator's pack.
    fn check_pack_hints(&self, ids: &Vec<u64>, creator: u64) -> (r: Option<MarketplaceError>)
        ensures
            r == pack_problem(ids@, self.hints@, creator),
    {
        let mut i: usize = 0;
        while i < ids.len()
            invariant
                i <= ids@.len(),
                pack_problem(ids@.take(i as int), self.hints@, creator) is None,
            decreases ids@.len() - i,
        {
            proof {
                assert(ids@.take(i + 1).drop_last() =~= ids@.take(i as int));
                assert(ids@.take(i + 1).last() == ids@[i as int]);
            }
            match self.hints.get(ids[i]) {
                Some(h) => {
                    if h.creator != creator {
                        proof {
                            lemma_pack_problem_prefix(ids@, self.hints@, creator, i + 1);
                        }
                        return Some(MarketplaceError::NotAuthorized);
                    }
                },
                None => {
                    proof {
                        lemma_pack_problem_prefix(ids@, self.hints@, creator, i + 1);
                    }
                    return Some(MarketplaceError::HintNotFound);
                },
            }
            i = i + 1;
        }
        assert(ids@.take(ids@.len() as int) =~= ids@);
        None
    }

    /// `creator` (who has authorised) bundles some of their own hints into
    /// a pack at time `now`; returns its id, the next in sequence. The pack
    /// must name at least one hint (`HintNotFound` otherwise) and the
    /// discount must not exceed 100% (`InvalidPrice`).
    pub fn create_pack(
        &mut self,
        creator: u64,
        name: String,
        hint_ids: Vec<u64>,
        pack_price: i128,
        discount_bps: u32,
        expiration_time: Option<u64>,
        now: u64,
    ) -> (r: Result<u64, MarketplaceError>)
        requires
            old(self).pack_counter < u64::MAX,
        ensures
            r == (if hint_ids@.len() == 0 {
                Err(MarketplaceError::HintNotFound)
            } else if discount_bps > 10000 {
                Err(MarketplaceError::InvalidPrice)
            } else if pack_problem(hint_ids@, old(self).hints@, creator) is Some {
                Err(pack_problem(hint_ids@, old(self).hints@, creator)->0)
            } else {
                Ok((old(self).pack_counter + 1) as u64)
            }),
            r is Err ==> *final(self) == *old(self),
            r matches Ok(id) ==> {
                &&& final(self).packs@ == old(self).packs@.insert(id, HintPack {
                    pack_id: id,
                    name,
                    hint_ids,
                    pack_price,
                    discount_bps,
                    creator,
                    created_at: now,
                    expiration_time,
                })
                &&& final(self).packs_by_creator@ == old(self).packs_by_creator@.insert(creator, old(self).packs_by_creator.list(creator).push(id))
                &&& final(self).active_packs@ == old(self).active_packs@.push(id)
                &&& *final(self) == (HintMarketplace {
                    pack_counter: id,
                    packs: final(self).packs,
                    packs_by_creator: final(self).packs_by_creator,
                    active_packs: final(self).active_packs,
                    ..*old(self)
                })
            },
    {
        if hint_ids.len() == 0 {
            return Err(MarketplaceError::HintNotFound);
        }
        if discount_bps > 10000 {
            return Err(MarketplaceError::InvalidPrice);
        }
        match self.check_pack_hints(&hint_ids, creator) {
            Some(e) => {
                return Err(e);
            },
            None => {},
        }
        let pack_id = self.pack_counter + 1;
        self.pack_counter = pack_id;
        self.packs.insert(pack_id, HintPack {
            pack_id,
            name,
            hint_ids,
            pack_price,
            discount_bps,
            creator,
            created_at: now,
            expiration_time,
        });
        self.packs_by_creator.push(creator, pack_id);
        self.active_packs.push(pack_id);
        Ok(pack_id)
    }

    /// Whether the arithmetic of buying the pack stays in range (vacuous
    /// for an unknown pack).
    pub open spec fn pack_fits(&self, pack_id: u64) -> bool {
        self.packs@.contains_key(pack_id) ==> {
            let p = self.packs@[pack_id];
            &&& i128::MIN <= p.pack_price * self.config.fee_bps <= i128::MAX
            &&& i128::MIN <= p.pack_price - bps_part(p.pack_price, self.config.fee_bps) <= i128::MAX
            &&& sales_fit(self.hints@, p.hint_ids@)
        }
    }

    /// Counts one more sale of each hint in the list.
    fn count_sales(&mut self, ids: &Vec<u64>)
        requires
            forall|k: int| 0 <= k < ids@.len() ==> old(self).hints@.contains_key(#[trigger] ids@[k]),
            sales_fit(old(self).hints@, ids@),
        ensures
            final(self).hints@ == add_sales(old(self).hints@, ids@),
            *final(self) == (HintMarketplace { hints: final(self).hints, ..*old(self) }),
    {
        let ghost h0 = self.hints@;
        let mut i: usize = 0;
        while i < ids.len()
            invariant
                i <= ids@.len(),
                forall|k: int| 0 <= k < ids@.len() ==> h0.contains_key(#[trigger] ids@[k]),
                sales_fit(h0, ids@),
                self.hints@ == add_sales(h0, ids@.take(i as int)),
                *self == (HintMarketplace { hints: self.hints, ..*old(self) }),
            decreases ids@.len() - i,
        {
            let ghost t = ids@.take(i + 1);
            proof {
                assert(t.drop_last() =~= ids@.take(i as int));
                assert(t.last() == ids@[i as int]);
                lemma_sales_fit_prefix(h0, ids@, i + 1);
                assert forall|k: int| 0 <= k < ids@.take(i as int).len() implies h0.contains_key(#[trigger] ids@.take(i as int)[k]) by {
                    assert(ids@.take(i as int)[k] == ids@[k]);
                }
                lemma_add_sales_dom(h0, ids@.take(i as int));
                assert(h0.contains_key(ids@[i as int]));
            }
            let id = ids[i];
            let mut h = *self.hints.get(id).unwrap();
            h.total_sales = h.total_sales + 1;
            self.hints.insert(id, h);
            i = i + 1;
        }
        assert(ids@.take(ids@.len() as int) =~= ids@);
    }

    /// `buyer` (who has authorised) buys a pack at time `now`, paying in
    /// `payment_token`: the price goes into the contract, then the fee to the
    /// fee recipient (when positive) and the rest to the pack's creator.
    /// Each hint of the pack counts one more sale. Returns the transfers.
    pub fn buy_pack(&mut self, buyer: u64, pack_id: u64, payment_token: u64, now: u64, contract: u64) -> (r: Result<Vec<TokenTransfer>, MarketplaceError>)
        requires
            old(self).pack_fits(pack_id),
        ensures
            !old(self).packs@.contains_key(pack_id) ==> r is Err && r->Err_0 == MarketplaceError::PackNotFound,
            old(self).packs@.contains_key(pack_id) ==> {
                let p = old(self).packs@[pack_id];
                let fee = bps_part(p.pack_price, old(self).config.fee_bps);
                if p.expiration_time matches Some(e) && now > e {
                    r is Err && r->Err_0 == MarketplaceError::PackExpired
                } else if exists|k: int| 0 <= k < p.hint_ids@.len() && !old(self).hints@.contains_key(#[trigger] p.hint_ids@[k]) {
                    r is Err && r->Err_0 == MarketplaceError::HintNotFound
                } else {
                    &&& r is Ok
                    &&& r->Ok_0@ == seq![
                        TokenTransfer { token: payment_token, from: buyer, to: contract, amount: p.pack_price },
                        TokenTransfer { token: payment_token, from: contract, to: p.creator, amount: (p.pack_price - fee) as i128 },
                    ] + (if fee > 0 {
                        seq![TokenTransfer { token: payment_token, from: contract, to: old(self).config.fee_recipient, amount: fee as i128 }]
                    } else {
                        Seq::empty()
                    })
                    &&& final(self).hints@ == add_sales(old(self).hints@, p.hint_ids@)
                    &&& *final(self) == (HintMarketplace { hints: final(self).hints, ..*old(self) })
                }
            },
            r is Err ==> *final(self) == *old(self),
    {
        let (price, creator, expired) = match self.packs.get(pack_id) {
            Some(p) => {
                let expired = match p.expiration_time {
                    Some(e) => now > e,
                    None => false,
                };
                (p.pack_price, p.creator, expired)
            },
            None => {
                return Err(MarketplaceError::PackNotFound);
            },
        };
        if expired {
            return Err(MarketplaceError::PackExpired);
        }
        let ids = copy_vec(&self.packs.get(pack_id).unwrap().hint_ids);
        let mut i: usize = 0;
        while i < ids.len()
            invariant
                i <= ids@.len(),
                old(self).packs@.contains_key(pack_id),
                ids@ == old(self).packs@[pack_id].hint_ids@,
                !(old(self).packs@[pack_id].expiration_time matches Some(e) && now > e),
                *self == *old(self),
                forall|k: int| 0 <= k < i ==> self.hints@.contains_key(#[trigger] ids@[k]),
            decreases ids@.len() - i,
        {
            if !self.hints.contains_key(ids[i]) {
                assert(!old(self).hints@.contains_key(old(self).packs@[pack_id].hint_ids@[i as int]));
                return Err(MarketplaceError::HintNotFound);
            }
            i = i + 1;
        }
        let fee = (price * self.config.fee_bps as i128) / 10000;
        let mut out: Vec<TokenTransfer> = Vec::new();
        out.push(TokenTransfer { token: payment_token, from: buyer, to: contract, amount: price });
        out.push(TokenTransfer { token: payment_token, from: contract, to: creator, amount: price - fee });
        if fee > 0 {
            out.push(TokenTransfer { token: payment_token, from: contract, to: self.config.fee_recipient, amount: fee });
        }
        self.count_sales(&ids);
        Ok(out)
    }

    /// The seller (who has authorised) withdraws an active listing.
    pub fn cancel_listing(&mut self, seller: u64, listing_id: u64) -> (r: Result<(), MarketplaceError>)
        ensures
            r == (if !old(self).listings@.contains_key(listing_id) {
                Err(MarketplaceError::ListingNotFound)
            } else if old(self).listings@[listing_id].seller != seller {
                Err(MarketplaceError::NotAuthorized)
            } else if old(self).listings@[listing_id].status != ListingStatus::Active {
                Err(MarketplaceError::ListingNotActive)
            } else {
                Ok(())
            }),
            r is Err ==> *final(self) == *old(self),
            r is Ok ==> {
                &&& final(self).listings@ == old(self).listings@.insert(listing_id, HintListing {
                    status: ListingStatus::Cancelled,
                    ..old(self).listings@[listing_id]
                })
                &&& final(self).active_listings@ == old(self).active_listings@.remove_value(listing_id)
                &&& *final(self) == (HintMarketplace { listings: final(self).listings, active_listings: final(self).active_listings, ..*old(self) })
            },
    {
        let mut l = match self.listings.get(listing_id) {
            Some(l) => *l,
            None => {
                return Err(MarketplaceError::ListingNotFound);
            },
        };
        if l.seller != seller {
            return Err(MarketplaceError::NotAuthorized);
        }
        if l.status != ListingStatus::Active {
            return Err(MarketplaceError::ListingNotActive);
        }
        l.status = ListingStatus::Cancelled;
        self.listings.insert(listing_id, l);
        remove_value_u64(&mut self.active_listings, listing_id);
        Ok(())
    }

    /// Marks expired, in order, each listed listing that is active and past
    /// its expiration at `now`, and drops it from the active list.
    pub fn expire_listings(&mut self, listing_ids: &Vec<u64>, now: u64)
        ensures
            (final(self).listings@, final(self).active_listings@) == expire_all(old(self).listings@, old(self).active_listings@, listing_ids@, now),
            *final(self) == (HintMarketplace { listings: final(self).listings, active_listings: final(self).active_listings, ..*old(self) }),
    {
        let ghost l0 = self.listings@;
        let ghost a0 = self.active_listings@;
        let mut i: usize = 0;
        while i < listing_ids.len()
            invariant
                i <= listing_ids@.len(),
                (self.listings@, self.active_listings@) == expire_all(l0, a0, listing_ids@.take(i as int), now),
                *self == (HintMarketplace { listings: self.listings, active_listings: self.active_listings, ..*old(self) }),
            decreases listing_ids@.len() - i,
        {
            proof {
                assert(listing_ids@.take(i + 1).drop_last() =~= listing_ids@.take(i as int));
                assert(listing_ids@.take(i + 1).last() == listing_ids@[i as int]);
            }
            let id = listing_ids[i];
            let expire = match self.listings.get(id) {
                Some(l) => l.status == ListingStatus::Active && now > l.expiration_time,
                None => false,
            };
            if expire {
                let mut l = *self.listings.get(id).unwrap();
                l.status = ListingStatus::Expired;
                self.listings.insert(id, l);
                remove_value_u64(&mut self.active_listings, id);
            }
            i = i + 1;
        }
        assert(listing_ids@.take(listing_ids@.len() as int) =~= listing_ids@);
    }

    pub fn get_hint(&self, hint_id: u64) -> (r: Option<Hint>)
        ensures
            r == (if self.hints@.contains_key(hint_id) { Some(self.hints@[hint_id]) } else { None }),
    {
        match self.hints.get(hint_id) {
            Some(h) => Some(*h),
            None => None,
        }
    }

    pub fn get_listing(&self, listing_id: u64) -> (r: Option<HintListing>)
        ensures
            r == (if self.listings@.contains_key(listing_id) { Some(self.listings@[listing_id]) } else { None }),
    {
        match self.listings.get(listing_id) {
            Some(l) => Some(*l),
            None => None,
        }
    }

    pub fn get_pack(&self, pack_id: u64) -> (r: Option<HintPack>)
        ensures
            r is Some <==> self.packs@.contains_key(pack_id),
            r matches Some(p) ==> same_pack(p, self.packs@[pack_id]),
    {
        match self.packs.get(pack_id) {
            Some(p) => Some(p.clone()),
            None => None,
        }
    }

    pub fn get_rating(&self, hint_id: u64, rater: u64) -> (r: Option<Rating>)
        ensures
            r == (if self.ratings@.contains_key((hint_id, rater)) { Some(self.ratings@[(hint_id, rater)]) } else { None }),
    {
        match self.ratings.get(hint_id, rater) {
            Some(v) => Some(*v),
            None => None,
        }
    }

    pub fn get_listings_by_hint(&self, hint_id: u64) -> (r: Vec<u64>)
        ensures
            r@ == self.listings_by_hint.list(hint_id),
    {
        self.listings_by_hint.get_list(hint_id)
    }

    pub fn get_listings_by_seller(&self, seller: u64) -> (r: Vec<u64>)
        ensures
            r@ == self.listings_by_seller.list(seller),
    {
        self.listings_by_seller.get_list(seller)
    }

    pub fn get_listings_by_puzzle(&self, puzzle_id: u32) -> (r: Vec<u64>)
        ensures
            r@ == self.listings_by_puzzle.list(puzzle_id as u64),
    {
        self.listings_by_puzzle.get_list(puzzle_id as u64)
    }

    pub fn get_active_listings(&self) -> (r: Vec<u64>)
        ensures
            r@ == self.active_listings@,
    {
        copy_vec(&self.active_listings)
    }

    pub fn get_ratings_by_hint(&self, hint_id: u64) -> (r: Vec<u64>)
        ensures
            r@ == self.ratings_by_hint.list(hint_id),
    {
        self.ratings_by_hint.get_list(hint_id)
    }

    pub fn get_price_history(&self, hint_id: u64) -> (r: Vec<i128>)
        ensures
            r@ == self.price_history.list(hint_id),
    {
        self.price_history.get_list(hint_id)
    }

    pub fn get_demand_metrics(&self, hint_id: u64) -> (r: Option<DemandMetrics>)
        ensures
            r == (if self.demand@.contains_key(hint_id) { Some(self.demand@[hint_id]) } else { None }),
    {
        match self.demand.get(hint_id) {
            Some(m) => Some(*m),
            None => None,
        }
    }

    pub fn get_packs_by_creator(&self, creator: u64) -> (r: Vec<u64>)
        ensures
            r@ == self.packs_by_creator.list(creator),
    {
        self.packs_by_creator.get_list(creator)
    }

    pub fn get_active_packs(&self) -> (r: Vec<u64>)
        ensures
            r@ == self.active_packs@,
    {
        copy_vec(&self.active_packs)
    }

    pub fn get_config(&self) -> (c: MarketplaceConfig)
        ensures
            c == self.config,
    {
        self.config
    }
}

} // verus!

verus! {

/// The total of the amounts of a list of transfers.
pub open spec fn total_amount(ts: Seq<TokenTransfer>) -> int
    decreases ts.len(),
{
    if ts.len() == 0 { 0 } else { total_amount(ts.drop_last()) + ts.last().amount }
}

proof fn lemma_total_amount_concat(a: Seq<TokenTransfer>, b: Seq<TokenTransfer>)
    ensures
        total_amount(a + b) == total_amount(a) + total_amount(b),
    decreases b.len(),
{
    if b.len() > 0 {
        assert((a + b).drop_last() =~= a + b.drop_last());
        lemma_total_amount_concat(a, b.drop_last());
    }
}
/// A hint that has never been bought is listed at its base price scaled by
/// its quality and rounded down: half the base for Poor, three quarters for
/// Fair, the base itself for Good, five quarters for Excellent and one and a
/// half times the base for Perfect (all within the half-to-triple bounds).
pub proof fn law_unsold_listing_price(base: i128, q: HintQuality, m: DemandMetrics, factor: u32)
    requires
        0 < base,
        m.purchases == 0,
    ensures
        dynamic_price(base, q, m, factor) == (match q {
            HintQuality::Poor => base / 2,
            HintQuality::Fair => (3 * base) / 4,
            HintQuality::Good => base as int,
            HintQuality::Excellent => (5 * base) / 4,
            HintQuality::Perfect => (3 * base) / 2,
        }),
{
    let b = base as int;
    let qa = (b * quality_multiplier(q)) / 10000;
    assert(demand_factor(m, factor) == 10000);
    assert((qa * 10000) / 10000 == qa) by (nonlinear_arith);
    match q {
        HintQuality::Poor => {
            assert((b * 5000) / 10000 == b / 2) by (nonlinear_arith) requires b > 0;
        },
        HintQuality::Fair => {
            assert((b * 7500) / 10000 == (3 * b) / 4) by (nonlinear_arith) requires b > 0;
            assert(b / 2 <= (3 * b) / 4 <= b * 3) by (nonlinear_arith) requires b > 0;
        },
        HintQuality::Good => {
            assert((b * 10000) / 10000 == b) by (nonlinear_arith) requires b > 0;
            assert(b / 2 <= b) by (nonlinear_arith) requires b > 0;
        },
        HintQuality::Excellent => {
            assert((b * 12500) / 10000 == (5 * b) / 4) by (nonlinear_arith) requires b > 0;
            assert(b / 2 <= (5 * b) / 4 <= b * 3) by (nonlinear_arith) requires b > 0;
        },
        HintQuality::Perfect => {
            assert((b * 15000) / 10000 == (3 * b) / 2) by (nonlinear_arith) requires b > 0;
            assert(b / 2 <= (3 * b) / 2 <= b * 3) by (nonlinear_arith) requires b > 0;
        },
    }
}

/// From a base price of 4 up, a hint that has never been bought is listed
/// strictly higher than one of lower quality at the same base.
pub proof fn law_better_quality_lists_higher(base: i128, q1: HintQuality, q2: HintQuality, m: DemandMetrics, factor: u32)
    requires
        4 <= base,
        m.purchases == 0,
        level(q1) < level(q2),
    ensures
        dynamic_price(base, q1, m, factor) < dynamic_price(base, q2, m, factor),
{
    law_unsold_listing_price(base, q1, m, factor);
    law_unsold_listing_price(base, q2, m, factor);
    let b = base as int;
    assert(b / 2 < (3 * b) / 4) by (nonlinear_arith) requires b >= 4;
    assert((3 * b) / 4 < b) by (nonlinear_arith) requires b >= 4;
    assert(b < (5 * b) / 4) by (nonlinear_arith) requires b >= 4;
    assert((5 * b) / 4 < (3 * b) / 2) by (nonlinear_arith) requires b >= 4;
}


/// A sale passes on exactly what the buyer paid: the seller's part, the fee
/// and the royalty add up to the price, and none of them is negative (with
/// fee and royalty together at most 100%).
pub proof fn law_sale_pays_out_price(l: HintListing, c: MarketplaceConfig, buyer: u64, contract: u64)
    requires
        l.base_price >= 0,
        c.fee_bps + l.royalty_bps <= 10000,
    ensures
        total_amount(sale_transfers(l, c, buyer, contract).drop_first()) == l.base_price,
        forall|i: int| 0 <= i < sale_transfers(l, c, buyer, contract).len() ==> #[trigger] sale_transfers(l, c, buyer, contract)[i].amount >= 0,
{
    let p = l.base_price as int;
    let a = c.fee_bps as int;
    let b = l.royalty_bps as int;
    assert(p * a / 10000 + p * b / 10000 <= p && 0 <= p * a / 10000 && 0 <= p * b / 10000) by (nonlinear_arith)
        requires
            p >= 0,
            a >= 0,
            b >= 0,
            a + b <= 10000,
    {
        assert(p * a / 10000 + p * b / 10000 <= (p * a + p * b) / 10000);
        assert(p * a + p * b <= p * 10000);
    }
    let fee = bps_part(l.base_price, c.fee_bps);
    let royalty = bps_part(l.base_price, l.royalty_bps);
    let token = l.payment_token;
    let head = seq![TokenTransfer { token, from: contract, to: l.seller, amount: (l.base_price - fee - royalty) as i128 }];
    let fs = if fee > 0 { seq![TokenTransfer { token, from: contract, to: c.fee_recipient, amount: fee as i128 }] } else { Seq::empty() };
    let rs = if royalty > 0 { seq![TokenTransfer { token, from: contract, to: l.creator, amount: royalty as i128 }] } else { Seq::empty() };
    let ts = sale_transfers(l, c, buyer, contract);
    assert(ts.drop_first() =~= head + fs + rs);
    lemma_total_amount_concat(head + fs, rs);
    lemma_total_amount_concat(head, fs);
    reveal_with_fuel(total_amount, 2);
}

} // verus!
