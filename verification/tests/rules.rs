use sport_marketplace::{
    ItemCondition, Listing, ListingIndex, ListingStatus, MarketError, SportCategory,
    SportMarketplace, Transfer,
};

const T0: u64 = 100;

fn s(x: &str) -> String {
    x.to_string()
}

fn market(fee_bps: u32) -> SportMarketplace {
    let mut m = SportMarketplace::new();
    m.initialize(s("GADMIN"), fee_bps, s("GVAULT")).unwrap();
    m
}

fn list_by(m: &mut SportMarketplace, seller: &str, category: SportCategory, price: i128) -> u64 {
    m.list_item(
        s(seller),
        s("Item"),
        s("Description"),
        category,
        ItemCondition::Good,
        price,
        s("CTOKEN"),
        T0,
    )
    .unwrap()
}

fn ids(entries: &[ListingIndex]) -> Vec<u64> {
    entries.iter().map(|e| e.id).collect()
}

#[test]
fn new_marketplace_is_empty() {
    let m = SportMarketplace::new();
    assert_eq!(m.get_listing_count(), 0);
    assert_eq!(m.get_fee_bps(), 0);
    assert_eq!(m.get_admin(), Err(MarketError::NotInitialized));
    assert_eq!(m.get_fee_vault(), None);
    assert!(m.get_all_listings().is_empty());
    assert!(m.get_listing(0).is_none());
}

#[test]
fn initialize_only_once() {
    let mut m = market(250);
    assert_eq!(m.initialize(s("GOTHER"), 100, s("GV2")), Err(MarketError::AlreadyInitialized));
    assert_eq!(m.get_admin().unwrap(), "GADMIN");
    assert_eq!(m.get_fee_bps(), 250);
    assert_eq!(m.get_fee_vault(), Some(s("GVAULT")));
}

#[test]
fn initialize_rejects_fee_above_100_percent() {
    let mut m = SportMarketplace::new();
    assert_eq!(m.initialize(s("GADMIN"), 10_001, s("GVAULT")), Err(MarketError::InvalidFeeBps));
    assert_eq!(m.get_admin(), Err(MarketError::NotInitialized));
    assert_eq!(m.initialize(s("GADMIN"), 10_000, s("GVAULT")), Ok(()));
    assert_eq!(m.get_fee_bps(), 10_000);
}

#[test]
fn admin_settings() {
    let mut m = SportMarketplace::new();
    assert_eq!(m.set_fee_bps(100), Err(MarketError::NotInitialized));
    assert_eq!(m.set_fee_vault(s("GV2")), Err(MarketError::NotInitialized));
    m.initialize(s("GADMIN"), 250, s("GVAULT")).unwrap();
    assert_eq!(m.set_fee_bps(10_001), Err(MarketError::InvalidFeeBps));
    assert_eq!(m.get_fee_bps(), 250);
    assert_eq!(m.set_fee_bps(0), Ok(()));
    assert_eq!(m.get_fee_bps(), 0);
    assert_eq!(m.set_fee_vault(s("GV2")), Ok(()));
    assert_eq!(m.get_fee_vault(), Some(s("GV2")));
}

#[test]
fn ids_are_sequential_and_listing_is_stored() {
    let mut m = market(0);
    assert_eq!(list_by(&mut m, "GS1", SportCategory::Golf, 10), 0);
    assert_eq!(list_by(&mut m, "GS2", SportCategory::Golf, 20), 1);
    assert_eq!(list_by(&mut m, "GS1", SportCategory::Running, 30), 2);
    assert_eq!(m.get_listing_count(), 3);
    let l: Listing = m.get_listing(1).unwrap();
    assert_eq!(l.id, 1);
    assert_eq!(l.seller, "GS2");
    assert_eq!(l.title, "Item");
    assert_eq!(l.description, "Description");
    assert_eq!(l.category, SportCategory::Golf);
    assert_eq!(l.condition, ItemCondition::Good);
    assert_eq!(l.price, 20);
    assert_eq!(l.token, "CTOKEN");
    assert_eq!(l.status, ListingStatus::Active);
    assert_eq!(l.created_at, T0);
    assert_eq!(l.updated_at, T0);
    assert!(m.get_listing(3).is_none());
    assert_eq!(ids(&m.get_all_listings()), vec![0, 1, 2]);
}

#[test]
fn list_rejects_non_positive_price() {
    let mut m = market(0);
    let r = m.list_item(s("GS"), s("t"), s("d"), SportCategory::Other, ItemCondition::Poor, 0, s("C"), T0);
    assert_eq!(r, Err(MarketError::InvalidPrice));
    let r = m.list_item(s("GS"), s("t"), s("d"), SportCategory::Other, ItemCondition::Poor, -5, s("C"), T0);
    assert_eq!(r, Err(MarketError::InvalidPrice));
    assert_eq!(m.get_listing_count(), 0);
}

#[test]
fn listing_works_before_initialization() {
    let mut m = SportMarketplace::new();
    assert_eq!(list_by(&mut m, "GS", SportCategory::Cycling, 5), 0);
    assert_eq!(m.get_listing_count(), 1);
}

#[test]
fn initialize_keeps_listings_and_their_ids() {
    let mut m = SportMarketplace::new();
    list_by(&mut m, "GOLD", SportCategory::Cycling, 5);
    list_by(&mut m, "GOLD", SportCategory::Cycling, 6);
    m.initialize(s("GADMIN"), 250, s("GVAULT")).unwrap();
    assert_eq!(m.get_listing_count(), 2);
    assert_eq!(ids(&m.get_all_listings()), vec![0, 1]);
    // a listing bought after initialization stays sold
    m.buy_item(s("GB"), 1, T0).unwrap();
    // the next listings get fresh ids
    assert_eq!(list_by(&mut m, "GNEW", SportCategory::Golf, 7), 2);
    assert_eq!(list_by(&mut m, "GNEW", SportCategory::Golf, 8), 3);
    assert_eq!(m.get_listing(0).unwrap().seller, "GOLD");
    let sold = m.get_listing(1).unwrap();
    assert_eq!(sold.seller, "GOLD");
    assert_eq!(sold.status, ListingStatus::Sold);
    assert_eq!(m.get_listing(2).unwrap().seller, "GNEW");
}

#[test]
fn unlist_errors() {
    let mut m = market(0);
    let id = list_by(&mut m, "GS", SportCategory::Tennis, 10);
    assert_eq!(m.unlist_item(s("GS"), 7, T0), Err(MarketError::NotFound));
    assert_eq!(m.unlist_item(s("GX"), id, T0), Err(MarketError::Unauthorized));
    assert_eq!(m.unlist_item(s("GS"), id, T0 + 1), Ok(()));
    assert_eq!(m.unlist_item(s("GS"), id, T0 + 2), Err(MarketError::NotActive));
    assert_eq!(m.get_listing(id).unwrap().updated_at, T0 + 1);
}

#[test]
fn relist_errors() {
    let mut m = market(0);
    let id = list_by(&mut m, "GS", SportCategory::Tennis, 10);
    assert_eq!(m.relist_item(s("GS"), 9, None, T0), Err(MarketError::NotFound));
    assert_eq!(m.relist_item(s("GX"), id, None, T0), Err(MarketError::Unauthorized));
    assert_eq!(m.relist_item(s("GS"), id, None, T0), Err(MarketError::NotUnlisted));
    m.unlist_item(s("GS"), id, T0).unwrap();
    assert_eq!(m.relist_item(s("GS"), id, Some(0), T0), Err(MarketError::InvalidPrice));
    assert_eq!(m.get_listing(id).unwrap().status, ListingStatus::Unlisted);
}

#[test]
fn unlist_then_relist_restores_listing() {
    let mut m = market(0);
    let id = list_by(&mut m, "GS", SportCategory::Baseball, 77);
    let before = m.get_all_listings();
    m.unlist_item(s("GS"), id, T0 + 1).unwrap();
    assert_eq!(m.get_all_listings()[0].status, ListingStatus::Unlisted);
    m.relist_item(s("GS"), id, None, T0 + 2).unwrap();
    let after = m.get_all_listings();
    assert_eq!(after.len(), before.len());
    assert_eq!(after[0].status, before[0].status);
    assert_eq!(after[0].price, before[0].price);
    let l = m.get_listing(id).unwrap();
    assert_eq!(l.status, ListingStatus::Active);
    assert_eq!(l.price, 77);
    assert_eq!(l.created_at, T0);
    assert_eq!(l.updated_at, T0 + 2);
}

#[test]
fn relist_with_new_price_updates_index_price() {
    let mut m = market(0);
    let id = list_by(&mut m, "GS", SportCategory::Swimming, 100);
    m.unlist_item(s("GS"), id, T0).unwrap();
    m.relist_item(s("GS"), id, Some(80), T0).unwrap();
    assert_eq!(m.get_listing(id).unwrap().price, 80);
    let entry = &m.get_all_listings()[0];
    assert_eq!(entry.status, ListingStatus::Active);
    assert_eq!(entry.price, 80);
    assert_eq!(m.get_active_listings()[0].price, 80);
}

#[test]
fn category_queries_add_up_to_active_listings() {
    let mut m = market(0);
    let cats = [
        SportCategory::Football,
        SportCategory::Basketball,
        SportCategory::Tennis,
        SportCategory::Baseball,
        SportCategory::Golf,
        SportCategory::Swimming,
        SportCategory::Cycling,
        SportCategory::Running,
        SportCategory::Other,
    ];
    for (i, c) in cats.iter().enumerate() {
        list_by(&mut m, "GS", *c, 10 + i as i128);
        list_by(&mut m, "GT", *c, 20 + i as i128);
    }
    m.unlist_item(s("GS"), 0, T0).unwrap();
    m.buy_item(s("GB"), 5, T0).unwrap();
    let active = m.get_active_listings();
    assert_eq!(active.len(), 16);
    let total: usize = cats.iter().map(|c| m.get_listings_by_category(*c).len()).sum();
    assert_eq!(total, active.len());
    for c in cats.iter() {
        let in_cat: Vec<u64> = active.iter().filter(|e| e.category == *c).map(|e| e.id).collect();
        assert_eq!(ids(&m.get_listings_by_category(*c)), in_cat);
    }
}

#[test]
fn unlist_and_buy_remove_one_active_entry() {
    let mut m = market(0);
    for _ in 0..4 {
        list_by(&mut m, "GS", SportCategory::Golf, 10);
    }
    m.unlist_item(s("GS"), 1, T0).unwrap();
    assert_eq!(ids(&m.get_active_listings()), vec![0, 2, 3]);
    m.buy_item(s("GB"), 2, T0).unwrap();
    assert_eq!(ids(&m.get_active_listings()), vec![0, 3]);
    // the seller's listings keep one entry per listing, whatever its status
    assert_eq!(ids(&m.get_seller_listings(s("GS"))), vec![0, 1, 2, 3]);
}

#[test]
fn update_price_updates_listing_and_index() {
    let mut m = market(0);
    let id = list_by(&mut m, "GS", SportCategory::Running, 100);
    assert_eq!(m.update_price(s("GS"), id, 0, T0), Err(MarketError::InvalidPrice));
    assert_eq!(m.update_price(s("GS"), 5, 10, T0), Err(MarketError::NotFound));
    // the price is checked before the listing is looked up
    assert_eq!(m.update_price(s("GS"), 5, -1, T0), Err(MarketError::InvalidPrice));
    assert_eq!(m.update_price(s("GX"), id, 10, T0), Err(MarketError::Unauthorized));
    assert_eq!(m.update_price(s("GS"), id, 150, T0 + 3), Ok(()));
    let l = m.get_listing(id).unwrap();
    assert_eq!(l.price, 150);
    assert_eq!(l.updated_at, T0 + 3);
    assert_eq!(m.get_all_listings()[0].price, 150);
    m.unlist_item(s("GS"), id, T0).unwrap();
    assert_eq!(m.update_price(s("GS"), id, 10, T0), Err(MarketError::NotActive));
}

#[test]
fn buy_errors() {
    let mut m = SportMarketplace::new();
    let id = list_by(&mut m, "GS", SportCategory::Golf, 1_000);
    assert_eq!(m.buy_item(s("GB"), 3, T0).unwrap_err(), MarketError::NotFound);
    assert_eq!(m.buy_item(s("GS"), id, T0).unwrap_err(), MarketError::SelfPurchase);
    // no fee vault before initialization
    assert_eq!(m.buy_item(s("GB"), id, T0).unwrap_err(), MarketError::NotInitialized);
    assert_eq!(m.get_listing(id).unwrap().status, ListingStatus::Active);
}

#[test]
fn buy_rejects_unlisted_and_sold() {
    let mut m = market(250);
    let id = list_by(&mut m, "GS", SportCategory::Golf, 1_000);
    m.unlist_item(s("GS"), id, T0).unwrap();
    assert_eq!(m.buy_item(s("GB"), id, T0).unwrap_err(), MarketError::NotActive);
    m.relist_item(s("GS"), id, None, T0).unwrap();
    assert!(m.buy_item(s("GB"), id, T0).is_ok());
    assert_eq!(m.buy_item(s("GC"), id, T0).unwrap_err(), MarketError::NotActive);
}

#[test]
fn sold_listing_is_final() {
    let mut m = market(250);
    let id = list_by(&mut m, "GS", SportCategory::Golf, 1_000);
    m.buy_item(s("GB"), id, T0 + 1).unwrap();
    assert_eq!(m.unlist_item(s("GS"), id, T0), Err(MarketError::NotActive));
    assert_eq!(m.relist_item(s("GS"), id, None, T0), Err(MarketError::NotUnlisted));
    assert_eq!(m.update_price(s("GS"), id, 5, T0), Err(MarketError::NotActive));
    let l = m.get_listing(id).unwrap();
    assert_eq!(l.status, ListingStatus::Sold);
    assert_eq!(l.updated_at, T0 + 1);
    assert_eq!(l.price, 1_000);
    assert_eq!(m.get_all_listings()[0].status, ListingStatus::Sold);
}

#[test]
fn purchase_transfers_split_price_and_fee() {
    let mut m = market(250);
    let id = list_by(&mut m, "GS", SportCategory::Golf, 399);
    let t: Vec<Transfer> = m.buy_item(s("GB"), id, T0).unwrap();
    // 399 * 250 / 10_000 = 9.975, rounded down to 9
    assert_eq!(t.len(), 2);
    assert_eq!((t[0].token.as_str(), t[0].from.as_str(), t[0].to.as_str(), t[0].amount), ("CTOKEN", "GB", "GS", 390));
    assert_eq!((t[1].token.as_str(), t[1].from.as_str(), t[1].to.as_str(), t[1].amount), ("CTOKEN", "GB", "GVAULT", 9));
}

#[test]
fn zero_fee_mode_pays_seller_everything() {
    let mut m = market(0);
    let id = list_by(&mut m, "GS", SportCategory::Golf, 1_234);
    let t = m.buy_item(s("GB"), id, T0).unwrap();
    assert_eq!(t.len(), 1);
    assert_eq!(t[0].to, "GS");
    assert_eq!(t[0].amount, 1_234);
}

#[test]
fn tiny_fee_rounds_to_zero() {
    let mut m = market(250);
    let id = list_by(&mut m, "GS", SportCategory::Golf, 39);
    let t = m.buy_item(s("GB"), id, T0).unwrap();
    assert_eq!(t.len(), 1);
    assert_eq!(t[0].amount, 39);
}

#[test]
fn full_fee_sends_everything_to_vault() {
    let mut m = market(10_000);
    let id = list_by(&mut m, "GS", SportCategory::Golf, 500);
    let t = m.buy_item(s("GB"), id, T0).unwrap();
    assert_eq!(t.len(), 2);
    assert_eq!(t[0].to, "GS");
    assert_eq!(t[0].amount, 0);
    assert_eq!(t[1].to, "GVAULT");
    assert_eq!(t[1].amount, 500);
}

#[test]
fn listing_at_max_price_can_be_bought() {
    let mut m = market(250);
    let id = list_by(&mut m, "GS", SportCategory::Golf, i128::MAX);
    let t = m.buy_item(s("GB"), id, T0).unwrap();
    // 250 bps is 1/40 of the price, rounded down
    let fee = i128::MAX / 40;
    assert_eq!(t.len(), 2);
    assert_eq!(t[1].to, "GVAULT");
    assert_eq!(t[1].amount, fee);
    assert_eq!(t[0].to, "GS");
    assert_eq!(t[0].amount, i128::MAX - fee);
    assert_eq!(m.get_listing(id).unwrap().status, ListingStatus::Sold);
}

#[test]
fn large_price_fee_matches_exact_rounding() {
    let mut m = market(9_999);
    // 12_345 * 9_999 = 123_437_655, / 10_000 = 12_343 (rounded down)
    let id = list_by(&mut m, "GS", SportCategory::Golf, 12_345);
    let t = m.buy_item(s("GB"), id, T0).unwrap();
    assert_eq!(t[1].amount, 12_343);
    assert_eq!(t[0].amount, 2);
    let mut m = market(10_000);
    let id = list_by(&mut m, "GS", SportCategory::Golf, i128::MAX);
    let t = m.buy_item(s("GB"), id, T0).unwrap();
    assert_eq!(t[0].amount, 0);
    assert_eq!(t[1].amount, i128::MAX);
}

#[test]
fn queries_filter_the_index() {
    let mut m = market(0);
    let a = list_by(&mut m, "GS1", SportCategory::Football, 10);
    let b = list_by(&mut m, "GS2", SportCategory::Football, 20);
    let c = list_by(&mut m, "GS1", SportCategory::Tennis, 30);
    let d = list_by(&mut m, "GS2", SportCategory::Football, 40);
    m.unlist_item(s("GS2"), b, T0).unwrap();
    m.buy_item(s("GB"), d, T0).unwrap();

    assert_eq!(ids(&m.get_all_listings()), vec![a, b, c, d]);
    assert_eq!(ids(&m.get_active_listings()), vec![a, c]);
    assert_eq!(ids(&m.get_seller_listings(s("GS2"))), vec![b, d]);
    assert_eq!(ids(&m.get_seller_listings(s("GS1"))), vec![a, c]);
    assert!(m.get_seller_listings(s("GNOBODY")).is_empty());
    assert_eq!(ids(&m.get_listings_by_category(SportCategory::Football)), vec![a]);
    assert_eq!(ids(&m.get_listings_by_category(SportCategory::Tennis)), vec![c]);
    assert!(m.get_listings_by_category(SportCategory::Golf).is_empty());
}

fn sample_listing(id: u64, seller: &str, price: i128) -> Listing {
    Listing {
        id,
        seller: s(seller),
        title: s("t"),
        description: s("d"),
        category: SportCategory::Other,
        condition: ItemCondition::Fair,
        price,
        token: s("C"),
        status: ListingStatus::Active,
        created_at: 1,
        updated_at: 1,
    }
}

fn entry_of(l: &Listing) -> ListingIndex {
    ListingIndex { id: l.id, seller: l.seller.clone(), price: l.price, status: l.status, category: l.category }
}

#[test]
fn restore_accepts_consistent_state() {
    let l0 = sample_listing(0, "GA", 5);
    let l1 = sample_listing(1, "GB", 6);
    let index = vec![entry_of(&l0), entry_of(&l1)];
    let m = SportMarketplace::restore(Some(s("GADMIN")), 100, Some(s("GV")), 2, vec![l0, l1], index)
        .unwrap();
    assert_eq!(m.get_listing_count(), 2);
    assert_eq!(m.get_fee_bps(), 100);
    assert_eq!(m.get_listing(1).unwrap().seller, "GB");
    assert_eq!(ids(&m.get_all_listings()), vec![0, 1]);
}

#[test]
fn restore_rejects_inconsistent_state() {
    let l0 = sample_listing(0, "GA", 5);
    // wrong count
    assert!(SportMarketplace::restore(None, 0, None, 2, vec![l0.clone()], vec![entry_of(&l0)]).is_none());
    // fee above 100 %
    assert!(SportMarketplace::restore(None, 10_001, None, 0, vec![], vec![]).is_none());
    // listing stored under another id
    let l3 = sample_listing(3, "GA", 5);
    assert!(SportMarketplace::restore(None, 0, None, 1, vec![l3.clone()], vec![entry_of(&l3)]).is_none());
    // non-positive price
    let free = sample_listing(0, "GA", 0);
    assert!(SportMarketplace::restore(None, 0, None, 1, vec![free.clone()], vec![entry_of(&free)]).is_none());
    // index entry of another seller
    let mut e = entry_of(&l0);
    e.seller = s("GZ");
    assert!(SportMarketplace::restore(None, 0, None, 1, vec![l0.clone()], vec![e]).is_none());
    // more index entries than listings
    assert!(SportMarketplace::restore(None, 0, None, 1, vec![], vec![entry_of(&l0)]).is_none());
    // a stored listing without an index entry
    assert!(SportMarketplace::restore(None, 0, None, 0, vec![l0.clone()], vec![]).is_none());
    // index entry with another price
    let mut e = entry_of(&l0);
    e.price = 9;
    assert!(SportMarketplace::restore(None, 0, None, 1, vec![l0.clone()], vec![e]).is_none());
}
