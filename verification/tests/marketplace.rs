use std::collections::HashMap;

use sport_marketplace::{
    ItemCondition, ListingStatus, MarketError, SportCategory, SportMarketplace, Transfer,
};

const NOW: u64 = 1_700_000_000;

struct Accounts {
    admin: String,
    vault: String,
    seller: String,
    buyer: String,
    token: String,
}

fn setup_env() -> (SportMarketplace, Accounts) {
    let accounts = Accounts {
        admin: "GADMIN".to_string(),
        vault: "GVAULT".to_string(),
        seller: "GSELLER".to_string(),
        buyer: "GBUYER".to_string(),
        token: "CTOKEN".to_string(),
    };
    (SportMarketplace::new(), accounts)
}

fn list(
    m: &mut SportMarketplace,
    seller: &str,
    title: &str,
    description: &str,
    category: SportCategory,
    condition: ItemCondition,
    price: i128,
    token: &str,
) -> Result<u64, MarketError> {
    m.list_item(
        seller.to_string(),
        title.to_string(),
        description.to_string(),
        category,
        condition,
        price,
        token.to_string(),
        NOW,
    )
}

/// Applies the transfers of a purchase to token balances.
fn settle(balances: &mut HashMap<String, i128>, transfers: &[Transfer]) {
    for t in transfers {
        *balances.entry(t.from.clone()).or_insert(0) -= t.amount;
        *balances.entry(t.to.clone()).or_insert(0) += t.amount;
    }
}

fn balance(balances: &HashMap<String, i128>, who: &str) -> i128 {
    *balances.get(who).unwrap_or(&0)
}

#[test]
fn test_initialize() {
    let (mut m, a) = setup_env();
    m.initialize(a.admin.clone(), 250, a.vault.clone()).unwrap();

    assert_eq!(m.get_fee_bps(), 250);
    assert_eq!(m.get_admin().unwrap(), a.admin);
    assert_eq!(m.get_listing_count(), 0);
}

#[test]
fn test_list_and_get() {
    let (mut m, a) = setup_env();
    m.initialize(a.admin.clone(), 250, a.vault.clone()).unwrap();

    let id = list(
        &mut m,
        &a.seller,
        "Nike Football Boots",
        "Size 10, barely used",
        SportCategory::Football,
        ItemCondition::LikeNew,
        50_000_000,
        &a.token,
    )
    .unwrap();

    assert_eq!(id, 0);
    assert_eq!(m.get_listing_count(), 1);

    let listing = m.get_listing(id).unwrap();
    assert_eq!(listing.price, 50_000_000);
    assert_eq!(listing.status, ListingStatus::Active);
}

#[test]
fn test_unlist_relist() {
    let (mut m, a) = setup_env();
    m.initialize(a.admin.clone(), 0, a.vault.clone()).unwrap();

    let id = list(
        &mut m,
        &a.seller,
        "Tennis Racket",
        "Wilson Pro Staff",
        SportCategory::Tennis,
        ItemCondition::Good,
        30_000_000,
        &a.token,
    )
    .unwrap();

    m.unlist_item(a.seller.clone(), id, NOW + 1).unwrap();
    let l = m.get_listing(id).unwrap();
    assert_eq!(l.status, ListingStatus::Unlisted);

    m.relist_item(a.seller.clone(), id, Some(25_000_000_i128), NOW + 2).unwrap();
    let l2 = m.get_listing(id).unwrap();
    assert_eq!(l2.status, ListingStatus::Active);
    assert_eq!(l2.price, 25_000_000);
}

#[test]
fn test_buy_item() {
    let (mut m, a) = setup_env();

    // Mint tokens to buyer
    let mut balances: HashMap<String, i128> = HashMap::new();
    balances.insert(a.buyer.clone(), 100_000_000);

    m.initialize(a.admin.clone(), 250, a.vault.clone()).unwrap(); // 2.5 % fee

    let id = list(
        &mut m,
        &a.seller,
        "Basketball",
        "Spalding NBA Official",
        SportCategory::Basketball,
        ItemCondition::New,
        40_000_000,
        &a.token,
    )
    .unwrap();

    let seller_before = balance(&balances, &a.seller);
    let vault_before = balance(&balances, &a.vault);

    let transfers = m.buy_item(a.buyer.clone(), id, NOW + 5).unwrap();
    settle(&mut balances, &transfers);

    // 2.5 % of 40_000_000 = 1_000_000
    assert_eq!(balance(&balances, &a.seller), seller_before + 39_000_000);
    assert_eq!(balance(&balances, &a.vault), vault_before + 1_000_000);
    assert_eq!(balance(&balances, &a.buyer), 60_000_000);

    let listing = m.get_listing(id).unwrap();
    assert_eq!(listing.status, ListingStatus::Sold);
}

#[test]
fn test_filter_by_category() {
    let (mut m, a) = setup_env();
    m.initialize(a.admin.clone(), 0, a.vault.clone()).unwrap();

    list(&mut m, &a.seller, "Ball", "", SportCategory::Football, ItemCondition::New, 1_000_000, &a.token)
        .unwrap();
    list(&mut m, &a.seller, "Hoop", "", SportCategory::Basketball, ItemCondition::New, 2_000_000, &a.token)
        .unwrap();
    list(&mut m, &a.seller, "Cleat", "", SportCategory::Football, ItemCondition::Good, 500_000, &a.token)
        .unwrap();

    let football = m.get_listings_by_category(SportCategory::Football);
    assert_eq!(football.len(), 2);

    let basketball = m.get_listings_by_category(SportCategory::Basketball);
    assert_eq!(basketball.len(), 1);
}
