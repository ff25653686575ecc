use puzzle_contracts::hint_marketplace::{HintMarketplace, HintQuality, ListingStatus, MarketplaceError};
use puzzle_contracts::token::TokenTransfer;

const ADMIN: u64 = 1;
const FEE_TO: u64 = 2;
const CREATOR: u64 = 3;
const SELLER: u64 = 4;
const BUYER: u64 = 5;
const TOKEN: u64 = 60;
const CONTRACT: u64 = 99;
const HASH: [u8; 32] = [0u8; 32];

fn setup(fee_recipient: u64, factor: u32) -> HintMarketplace {
    HintMarketplace::initialize(ADMIN, fee_recipient, 250, 3600, 86400 * 30, factor, HintQuality::Good).unwrap()
}

fn t(from: u64, to: u64, amount: i128) -> TokenTransfer {
    TokenTransfer { token: TOKEN, from, to, amount }
}

#[test]
fn hint_test_initialize() {
    let m = setup(FEE_TO, 500);
    let config = m.get_config();
    assert_eq!(config.admin, ADMIN);
    assert_eq!(config.fee_recipient, FEE_TO);
    assert_eq!(config.fee_bps, 250);
    assert_eq!(config.min_quality_for_listing, HintQuality::Good);
    assert_eq!(
        HintMarketplace::initialize(ADMIN, FEE_TO, 10_001, 1, 2, 0, HintQuality::Good).err(),
        Some(MarketplaceError::InvalidPrice)
    );
}

#[test]
fn test_create_hint() {
    let mut m = setup(ADMIN, 500);
    let hint_id = m.create_hint(CREATOR, 1, HASH, HintQuality::Excellent, 0);
    assert_eq!(hint_id, 1);
    let hint = m.get_hint(hint_id).unwrap();
    assert_eq!(hint.creator, CREATOR);
    assert_eq!(hint.puzzle_id, 1);
    assert_eq!(hint.quality, HintQuality::Excellent);
    assert_eq!(hint.total_sales, 0);
    assert_eq!(m.get_demand_metrics(hint_id).unwrap().purchases, 0);
}

#[test]
fn test_create_listing() {
    let mut m = setup(ADMIN, 500);
    let hint_id = m.create_hint(CREATOR, 1, HASH, HintQuality::Good, 0);
    let listing_id = m.create_listing(CREATOR, hint_id, TOKEN, 1000, 86400, 500, 10).unwrap();
    assert_eq!(listing_id, 1);
    let listing = m.get_listing(listing_id).unwrap();
    assert_eq!(listing.hint_id, hint_id);
    assert_eq!(listing.seller, CREATOR);
    assert_eq!(listing.base_price, 1000);
    assert_eq!(listing.current_price, 1000);
    assert_eq!(listing.status, ListingStatus::Active);
    assert_eq!(listing.expiration_time, 86410);
    assert_eq!(m.get_listings_by_hint(hint_id), vec![listing_id]);
    assert_eq!(m.get_listings_by_seller(CREATOR), vec![listing_id]);
    assert_eq!(m.get_listings_by_puzzle(1), vec![listing_id]);
    assert_eq!(m.get_active_listings(), vec![listing_id]);
}

#[test]
fn create_listing_errors() {
    let mut m = setup(ADMIN, 500);
    let hint_id = m.create_hint(CREATOR, 1, HASH, HintQuality::Good, 0);
    assert_eq!(m.create_listing(CREATOR, 9, TOKEN, 1000, 86400, 500, 0), Err(MarketplaceError::HintNotFound));
    assert_eq!(m.create_listing(CREATOR, hint_id, TOKEN, 0, 86400, 500, 0), Err(MarketplaceError::InvalidPrice));
    assert_eq!(m.create_listing(CREATOR, hint_id, TOKEN, 10, 86400, 10_001, 0), Err(MarketplaceError::InvalidPrice));
    assert_eq!(m.create_listing(CREATOR, hint_id, TOKEN, 10, 60, 0, 0), Err(MarketplaceError::InvalidDuration));
    assert!(m.get_active_listings().is_empty());
}

#[test]
fn test_buy_hint() {
    let mut m = setup(FEE_TO, 500);
    let hint_id = m.create_hint(CREATOR, 1, HASH, HintQuality::Excellent, 0);
    let listing_id = m.create_listing(SELLER, hint_id, TOKEN, 1000, 86400, 500, 0).unwrap();
    let ts = m.buy(BUYER, listing_id, 10, CONTRACT).unwrap();
    assert_eq!(m.get_listing(listing_id).unwrap().status, ListingStatus::Sold);
    // Fee 1000 * 250 / 10000 = 25, royalty 1000 * 500 / 10000 = 50, seller 925.
    assert_eq!(
        ts,
        vec![t(BUYER, CONTRACT, 1000), t(CONTRACT, SELLER, 925), t(CONTRACT, FEE_TO, 25), t(CONTRACT, CREATOR, 50)]
    );
    assert_eq!(m.get_hint(hint_id).unwrap().total_sales, 1);
    assert!(m.get_active_listings().is_empty());
    assert_eq!(m.buy(BUYER, listing_id, 11, CONTRACT), Err(MarketplaceError::ListingNotActive));
}

#[test]
fn payouts_at_base_price() {
    assert_eq!(HintMarketplace::calculate_payouts(1000, 250, 500), (925, 25, 50));
    assert_eq!(HintMarketplace::calculate_payouts(1500, 250, 0), (1463, 37, 0));
}

#[test]
fn cannot_buy_own_listing() {
    let mut m = setup(FEE_TO, 500);
    let hint_id = m.create_hint(CREATOR, 1, HASH, HintQuality::Good, 0);
    let listing_id = m.create_listing(SELLER, hint_id, TOKEN, 1000, 86400, 500, 0).unwrap();
    assert_eq!(m.buy(SELLER, listing_id, 10, CONTRACT), Err(MarketplaceError::NotAuthorized));
    assert_eq!(m.get_listing(listing_id).unwrap().status, ListingStatus::Active);
}

#[test]
fn test_rate_hint() {
    let mut m = setup(ADMIN, 500);
    let hint_id = m.create_hint(CREATOR, 1, HASH, HintQuality::Good, 0);
    m.rate_hint(BUYER, hint_id, 5, 5, 10).unwrap();
    let rating = m.get_rating(hint_id, BUYER).unwrap();
    assert_eq!(rating.quality_rating, 5);
    assert_eq!(rating.helpfulness, 5);
    let hint = m.get_hint(hint_id).unwrap();
    assert_eq!(hint.rating_count, 1);
    assert_eq!(hint.total_rating, 5);
    assert_eq!(hint.quality, HintQuality::Perfect);
    assert_eq!(m.get_ratings_by_hint(hint_id), vec![BUYER]);
    assert_eq!(m.rate_hint(SELLER, hint_id, 0, 3, 10), Err(MarketplaceError::InvalidRating));
}

#[test]
fn test_create_and_buy_pack() {
    let mut m = setup(FEE_TO, 500);
    let h1 = m.create_hint(CREATOR, 1, HASH, HintQuality::Good, 0);
    let h2 = m.create_hint(CREATOR, 2, HASH, HintQuality::Excellent, 0);
    let pack_id = m.create_pack(CREATOR, "StarterPack".to_string(), vec![h1, h2], 1500, 2500, None, 0).unwrap();
    let pack = m.get_pack(pack_id).unwrap();
    assert_eq!(pack.creator, CREATOR);
    assert_eq!(pack.pack_price, 1500);
    assert_eq!(pack.hint_ids, vec![h1, h2]);
    let ts = m.buy_pack(BUYER, pack_id, TOKEN, 10, CONTRACT).unwrap();
    assert_eq!(ts, vec![t(BUYER, CONTRACT, 1500), t(CONTRACT, CREATOR, 1463), t(CONTRACT, FEE_TO, 37)]);
    assert_eq!(m.get_hint(h1).unwrap().total_sales, 1);
    assert_eq!(m.get_hint(h2).unwrap().total_sales, 1);
    assert_eq!(m.get_packs_by_creator(CREATOR), vec![pack_id]);
    assert_eq!(m.get_active_packs(), vec![pack_id]);
}

#[test]
fn pack_checks() {
    let mut m = setup(FEE_TO, 500);
    let h1 = m.create_hint(CREATOR, 1, HASH, HintQuality::Good, 0);
    let other = m.create_hint(SELLER, 1, HASH, HintQuality::Good, 0);
    assert_eq!(m.create_pack(CREATOR, "P".to_string(), vec![], 1, 0, None, 0), Err(MarketplaceError::HintNotFound));
    assert_eq!(m.create_pack(CREATOR, "P".to_string(), vec![h1], 1, 10_001, None, 0), Err(MarketplaceError::InvalidPrice));
    assert_eq!(m.create_pack(CREATOR, "P".to_string(), vec![h1, 77], 1, 0, None, 0), Err(MarketplaceError::HintNotFound));
    assert_eq!(m.create_pack(CREATOR, "P".to_string(), vec![h1, other], 1, 0, None, 0), Err(MarketplaceError::NotAuthorized));
    let pack_id = m.create_pack(CREATOR, "P".to_string(), vec![h1, h1], 100, 0, Some(50), 0).unwrap();
    assert_eq!(m.buy_pack(BUYER, pack_id, TOKEN, 51, CONTRACT), Err(MarketplaceError::PackExpired));
    assert_eq!(m.buy_pack(BUYER, 42, TOKEN, 1, CONTRACT), Err(MarketplaceError::PackNotFound));
    m.buy_pack(BUYER, pack_id, TOKEN, 50, CONTRACT).unwrap();
    // A hint listed twice in a pack counts two sales.
    assert_eq!(m.get_hint(h1).unwrap().total_sales, 2);
}

#[test]
fn test_listing_expiration() {
    let mut m = setup(ADMIN, 500);
    let hint_id = m.create_hint(CREATOR, 1, HASH, HintQuality::Good, 0);
    let listing_id = m.create_listing(CREATOR, hint_id, TOKEN, 1000, 3600, 500, 1000).unwrap();
    let listing = m.get_listing(listing_id).unwrap();
    assert_eq!(listing.status, ListingStatus::Active);
    assert_eq!(listing.expiration_time, 1000 + 3600);
    m.expire_listings(&vec![listing_id, 77], 5000);
    assert_eq!(m.get_listing(listing_id).unwrap().status, ListingStatus::Expired);
    assert!(m.get_active_listings().is_empty());
}

#[test]
#[should_panic]
fn test_buy_expired_listing() {
    let mut m = setup(ADMIN, 500);
    let hint_id = m.create_hint(CREATOR, 1, HASH, HintQuality::Good, 0);
    let listing_id = m.create_listing(CREATOR, hint_id, TOKEN, 1000, 3600, 500, 1000).unwrap();
    m.buy(BUYER, listing_id, 5000, CONTRACT).unwrap();
}

#[test]
fn buying_expired_listing_changes_nothing() {
    let mut m = setup(ADMIN, 500);
    let hint_id = m.create_hint(CREATOR, 1, HASH, HintQuality::Good, 0);
    let listing_id = m.create_listing(CREATOR, hint_id, TOKEN, 1000, 3600, 500, 1000).unwrap();
    assert_eq!(m.buy(BUYER, listing_id, 5000, CONTRACT), Err(MarketplaceError::ListingExpired));
    assert_eq!(m.get_listing(listing_id).unwrap().status, ListingStatus::Active);
    assert_eq!(m.get_active_listings(), vec![listing_id]);
    assert_eq!(m.get_hint(hint_id).unwrap().total_sales, 0);
}

#[test]
fn dynamic_pricing_by_quality() {
    let mut m = setup(ADMIN, 1000);
    let poor = m.create_hint(CREATOR, 1, HASH, HintQuality::Poor, 0);
    let excellent = m.create_hint(CREATOR, 2, HASH, HintQuality::Excellent, 0);
    m.update_config(None, None, None, None, None, Some(HintQuality::Poor)).unwrap();
    let poor_listing = m.create_listing(CREATOR, poor, TOKEN, 1000, 86400, 500, 0).unwrap();
    let excellent_listing = m.create_listing(CREATOR, excellent, TOKEN, 1000, 86400, 500, 0).unwrap();
    let p = m.get_listing(poor_listing).unwrap().current_price;
    let e = m.get_listing(excellent_listing).unwrap().current_price;
    assert!(e > p);
    assert_eq!(p, 500);
    assert_eq!(e, 1250);
}

#[test]
fn test_cancel_listing() {
    let mut m = setup(ADMIN, 500);
    let hint_id = m.create_hint(CREATOR, 1, HASH, HintQuality::Good, 0);
    let listing_id = m.create_listing(CREATOR, hint_id, TOKEN, 1000, 86400, 500, 0).unwrap();
    assert_eq!(m.cancel_listing(SELLER, listing_id), Err(MarketplaceError::NotAuthorized));
    m.cancel_listing(CREATOR, listing_id).unwrap();
    assert_eq!(m.get_listing(listing_id).unwrap().status, ListingStatus::Cancelled);
    assert!(!m.get_active_listings().contains(&listing_id));
    assert_eq!(m.cancel_listing(CREATOR, listing_id), Err(MarketplaceError::ListingNotActive));
}

#[test]
fn test_multiple_ratings() {
    let mut m = setup(ADMIN, 500);
    let hint_id = m.create_hint(CREATOR, 1, HASH, HintQuality::Good, 0);
    m.rate_hint(11, hint_id, 5, 5, 0).unwrap();
    m.rate_hint(12, hint_id, 4, 4, 0).unwrap();
    m.rate_hint(13, hint_id, 3, 3, 0).unwrap();
    let hint = m.get_hint(hint_id).unwrap();
    assert_eq!(hint.rating_count, 3);
    assert_eq!(hint.total_rating, 12);
    assert_eq!(hint.quality, HintQuality::Excellent);
    assert_eq!(m.get_rating(hint_id, 11).unwrap().quality_rating, 5);
    assert_eq!(m.get_rating(hint_id, 12).unwrap().quality_rating, 4);
    assert_eq!(m.get_rating(hint_id, 13).unwrap().quality_rating, 3);
}

#[test]
#[should_panic]
fn test_duplicate_rating() {
    let mut m = setup(ADMIN, 500);
    let hint_id = m.create_hint(CREATOR, 1, HASH, HintQuality::Good, 0);
    m.rate_hint(BUYER, hint_id, 5, 5, 0).unwrap();
    m.rate_hint(BUYER, hint_id, 4, 4, 0).unwrap();
}

#[test]
#[should_panic]
fn test_minimum_quality_requirement() {
    let mut m = setup(ADMIN, 500);
    let hint_id = m.create_hint(CREATOR, 1, HASH, HintQuality::Poor, 0);
    m.create_listing(CREATOR, hint_id, TOKEN, 1000, 86400, 500, 0).unwrap();
}

#[test]
fn test_price_history() {
    let mut m = setup(ADMIN, 500);
    let hint_id = m.create_hint(CREATOR, 1, HASH, HintQuality::Good, 0);
    let l1 = m.create_listing(CREATOR, hint_id, TOKEN, 1000, 86400, 500, 0).unwrap();
    m.buy(BUYER, l1, 10, CONTRACT).unwrap();
    let l2 = m.create_listing(CREATOR, hint_id, TOKEN, 1500, 86400, 500, 20).unwrap();
    m.buy(SELLER, l2, 30, CONTRACT).unwrap();
    let history = m.get_price_history(hint_id);
    assert_eq!(history.len(), 2);
    // Sales are recorded at the listings' base prices.
    assert_eq!(history, vec![1000, 1500]);
}

#[test]
fn price_history_keeps_last_hundred() {
    let mut m = setup(ADMIN, 0);
    let hint_id = m.create_hint(CREATOR, 1, HASH, HintQuality::Good, 0);
    for i in 0..105i128 {
        let l = m.create_listing(CREATOR, hint_id, TOKEN, 1000 + i, 86400, 0, 0).unwrap();
        m.buy(BUYER, l, 1, CONTRACT).unwrap();
    }
    let history = m.get_price_history(hint_id);
    assert_eq!(history.len(), 100);
    assert_eq!(history[0], 1005);
    assert_eq!(history[99], 1104);
}

#[test]
fn test_demand_metrics() {
    let mut m = setup(ADMIN, 500);
    let hint_id = m.create_hint(CREATOR, 1, HASH, HintQuality::Good, 0);
    let listing_id = m.create_listing(CREATOR, hint_id, TOKEN, 1000, 86400, 500, 1000).unwrap();
    m.buy(BUYER, listing_id, 2000, CONTRACT).unwrap();
    let metrics = m.get_demand_metrics(hint_id).unwrap();
    assert_eq!(metrics.purchases, 1);
    assert_eq!(metrics.last_purchase_time, 2000);
    assert_eq!(metrics.average_time_to_sale, 1000);
    let l2 = m.create_listing(CREATOR, hint_id, TOKEN, 1000, 86400, 500, 3000).unwrap();
    m.buy(BUYER, l2, 6000, CONTRACT).unwrap();
    let metrics = m.get_demand_metrics(hint_id).unwrap();
    assert_eq!(metrics.purchases, 2);
    assert_eq!(metrics.average_time_to_sale, 2000);
}
