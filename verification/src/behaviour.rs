//! What each operation does, stated over its inputs: when it succeeds, and
//! which fields of which listing, index entry or setting it gives which value.
use vstd::prelude::*;

use crate::index::{selected, Selection};
use crate::laws::same_item;
use crate::market::{MarketView, MAX_FEE_BPS};
use crate::types::{Address, ItemCondition, ListingStatus, MarketError, SportCategory};

verus! {

/// The stored listings other than `id` and their index entries are the same
/// in `w` as in `v`, and so are the count and the settings.
pub open spec fn others_unchanged(v: MarketView, w: MarketView, id: u64) -> bool {
    &&& w.admin == v.admin
    &&& w.fee_bps == v.fee_bps
    &&& w.fee_vault == v.fee_vault
    &&& w.listing_count == v.listing_count
    &&& w.listings.len() == v.listings.len()
    &&& w.index.len() == v.index.len()
    &&& forall|j: int| 0 <= j < v.listings.len() && j != id ==> #[trigger] w.listings[j] == v.listings[j]
    &&& forall|j: int| 0 <= j < v.index.len() && j != id ==> #[trigger] w.index[j] == v.index[j]
}

/// `initialize` on a marketplace without admin, with a fee of at most
/// 10 000 basis points, succeeds and sets exactly the given admin, fee and
/// vault, keeping every listing and the index; a fee above 10 000 is
/// refused, and so is any second initialization.
pub proof fn law_initialize_sets_what_it_is_given(
    v: MarketView,
    admin: Address,
    fee_bps: u32,
    fee_vault: Address,
)
    ensures
        v.admin is Some ==> v.initialize_outcome(fee_bps) == Err::<(), MarketError>(
            MarketError::AlreadyInitialized,
        ),
        v.admin is None && fee_bps > 10_000 ==> v.initialize_outcome(fee_bps) == Err::<
            (),
            MarketError,
        >(MarketError::InvalidFeeBps),
        v.admin is None && fee_bps <= 10_000 ==> v.initialize_outcome(fee_bps) is Ok,
        ({
            let w = v.after_initialize(admin, fee_bps, fee_vault);
            &&& w.admin == Some(admin)
            &&& w.fee_bps == fee_bps
            &&& w.fee_vault == Some(fee_vault)
            &&& w.listing_count == v.listing_count
            &&& w.listings == v.listings
            &&& w.index == v.index
        }),
{
}

/// On an initialized marketplace, `set_fee_bps(f)` succeeds for every fee of
/// at most 10 000 basis points, whatever the current fee, and the fee is
/// then `f` with nothing else changed; a fee above 10 000 is refused, and
/// before initialization every fee is refused.
pub proof fn law_set_fee_bps_takes_any_fee_up_to_100_percent(v: MarketView, fee_bps: u32)
    ensures
        v.admin is Some && fee_bps <= MAX_FEE_BPS ==> v.set_fee_bps_outcome(fee_bps) is Ok,
        v.admin is Some && fee_bps > MAX_FEE_BPS ==> v.set_fee_bps_outcome(fee_bps) == Err::<
            (),
            MarketError,
        >(MarketError::InvalidFeeBps),
        v.admin is None ==> v.set_fee_bps_outcome(fee_bps) == Err::<(), MarketError>(
            MarketError::NotInitialized,
        ),
        v.after_set_fee_bps(fee_bps).fee_bps == fee_bps,
        v.after_set_fee_bps(fee_bps).admin == v.admin,
        v.after_set_fee_bps(fee_bps).fee_vault == v.fee_vault,
        v.after_set_fee_bps(fee_bps).listings == v.listings,
        v.after_set_fee_bps(fee_bps).index == v.index,
        v.after_set_fee_bps(fee_bps).listing_count == v.listing_count,
{
}

/// On an initialized marketplace, `set_fee_vault(a)` succeeds and the vault
/// is then `a` with nothing else changed; before initialization it is
/// refused.
pub proof fn law_set_fee_vault_sets_the_vault(v: MarketView, vault: Address)
    ensures
        v.admin is Some ==> v.set_fee_vault_outcome() is Ok,
        v.admin is None ==> v.set_fee_vault_outcome() == Err::<(), MarketError>(
            MarketError::NotInitialized,
        ),
        v.after_set_fee_vault(vault).fee_vault == Some(vault),
        v.after_set_fee_vault(vault).fee_bps == v.fee_bps,
        v.after_set_fee_vault(vault).admin == v.admin,
        v.after_set_fee_vault(vault).listings == v.listings,
        v.after_set_fee_vault(vault).index == v.index,
        v.after_set_fee_vault(vault).listing_count == v.listing_count,
{
}

/// `list_item` with a positive price succeeds, and the new listing, read
/// back under the returned id, carries exactly the seller, title,
/// description, category, condition, price and token it was given, is
/// `Active`, and was created and changed at `now`; its index entry carries
/// the same id, seller, price and category, and the category query of that
/// category returns it while no other category query does. Every listing
/// stored before stays as it was.
pub proof fn law_listed_item_carries_its_arguments(
    v: MarketView,
    seller: Address,
    title: String,
    description: String,
    category: SportCategory,
    condition: ItemCondition,
    price: i128,
    token: Address,
    now: u64,
    other: SportCategory,
)
    requires
        v.wf(),
        v.listing_count < u64::MAX,
        price > 0,
    ensures
        v.list_outcome(price) == Ok::<u64, MarketError>(v.listing_count),
        ({
            let id = v.listing_count;
            let w = v.after_list(
                v.new_listing(seller, title, description, category, condition, price, token, now),
            );
            let l = w.listing(id);
            let e = w.index[id as int];
            &&& w.has_listing(id)
            &&& l.id == id
            &&& l.seller == seller
            &&& l.title == title
            &&& l.description == description
            &&& l.category == category
            &&& l.condition == condition
            &&& l.price == price
            &&& l.token == token
            &&& l.status == ListingStatus::Active
            &&& l.created_at == now
            &&& l.updated_at == now
            &&& e.id == id
            &&& e.seller == seller
            &&& e.price == price
            &&& e.category == category
            &&& e.status == ListingStatus::Active
            &&& selected(w.index, Selection::ActiveInCategory(category)).contains(e)
            &&& (other != category ==> forall|k: int|
                0 <= k < selected(w.index, Selection::ActiveInCategory(other)).len()
                    ==> #[trigger] selected(w.index, Selection::ActiveInCategory(other))[k].id != id)
            &&& w.listing_count == v.listing_count + 1
            &&& forall|j: int| 0 <= j < v.listings.len() ==> #[trigger] w.listings[j] == v.listings[j]
            &&& forall|j: int| 0 <= j < v.index.len() ==> #[trigger] w.index[j] == v.index[j]
        }),
{
    broadcast use vstd::seq_lib::group_filter_ensures;

    let id = v.listing_count;
    let w = v.after_list(
        v.new_listing(seller, title, description, category, condition, price, token, now),
    );
    let e = w.index[id as int];
    assert(w.index.len() == id + 1);
    crate::laws::law_queries_return_what_they_select(w.index, Selection::ActiveInCategory(category));
    crate::laws::law_queries_return_what_they_select(w.index, Selection::ActiveInCategory(other));
    assert(crate::index::selects(Selection::ActiveInCategory(category), w.index[id as int]));
    if other != category {
        let q = selected(w.index, Selection::ActiveInCategory(other));
        assert forall|k: int| 0 <= k < q.len() implies #[trigger] q[k].id != id by {
            if q[k].id == id {
                let j = choose|j: int| 0 <= j < w.index.len() && w.index[j] == q[k];
                if j < v.index.len() {
                    assert(crate::market::entry_describes(v.index[j], v.listings[j]));
                    assert(v.listings[j].id == j);
                }
                assert(j == id);
            }
        }
    }
}

/// `unlist_item` by the seller of a stored `Active` listing succeeds; the
/// listing is then `Unlisted`, changed at `now`, and keeps its price and
/// everything else, its index entry turns `Unlisted` at the same price, and
/// nothing else changes. Any other state of the listing is refused.
pub proof fn law_unlist_item_unlists(v: MarketView, seller: Address, id: u64, now: u64)
    requires
        v.wf(),
    ensures
        !v.has_listing(id) ==> v.unlist_outcome(seller, id) == Err::<(), MarketError>(
            MarketError::NotFound,
        ),
        v.has_listing(id) && v.listing(id).seller@ == seller@ && v.listing(id).status
            != ListingStatus::Active ==> v.unlist_outcome(seller, id) == Err::<(), MarketError>(
            MarketError::NotActive,
        ),
        v.has_listing(id) && v.listing(id).seller@ == seller@ && v.listing(id).status
            == ListingStatus::Active ==> {
            let w = v.after_status(id, ListingStatus::Unlisted, now);
            &&& v.unlist_outcome(seller, id) is Ok
            &&& w.listing(id).status == ListingStatus::Unlisted
            &&& w.listing(id).updated_at == now
            &&& w.listing(id).price == v.listing(id).price
            &&& same_item(w.listing(id), v.listing(id))
            &&& w.index[id as int].status == ListingStatus::Unlisted
            &&& w.index[id as int].price == v.listing(id).price
            &&& w.index[id as int].id == id
            &&& others_unchanged(v, w, id)
        },
{
}

/// `relist_item` by the seller of a stored `Unlisted` listing succeeds for
/// every positive new price, or none; the listing is then `Active`, changed
/// at `now`, at the new price if one is given and at its old price
/// otherwise, in storage and in its index entry, and nothing else changes.
/// A new price that is not positive, or a listing that is not `Unlisted`,
/// is refused.
pub proof fn law_relist_item_relists(
    v: MarketView,
    seller: Address,
    id: u64,
    new_price: Option<i128>,
    now: u64,
)
    requires
        v.wf(),
    ensures
        !v.has_listing(id) ==> v.relist_outcome(seller, id, new_price) == Err::<(), MarketError>(
            MarketError::NotFound,
        ),
        v.has_listing(id) && v.listing(id).seller@ == seller@ && v.listing(id).status
            != ListingStatus::Unlisted ==> v.relist_outcome(seller, id, new_price) == Err::<
            (),
            MarketError,
        >(MarketError::NotUnlisted),
        v.has_listing(id) && v.listing(id).seller@ == seller@ && v.listing(id).status
            == ListingStatus::Unlisted && (new_price matches Some(p) && p <= 0) ==> v.relist_outcome(
            seller,
            id,
            new_price,
        ) == Err::<(), MarketError>(MarketError::InvalidPrice),
        v.has_listing(id) && v.listing(id).seller@ == seller@ && v.listing(id).status
            == ListingStatus::Unlisted && (new_price matches Some(p) ==> p > 0) ==> {
            let w = v.after_relist(id, new_price, now);
            let price = match new_price {
                Some(p) => p,
                None => v.listing(id).price,
            };
            &&& v.relist_outcome(seller, id, new_price) is Ok
            &&& w.listing(id).status == ListingStatus::Active
            &&& w.listing(id).price == price
            &&& w.listing(id).updated_at == now
            &&& same_item(w.listing(id), v.listing(id))
            &&& w.index[id as int].status == ListingStatus::Active
            &&& w.index[id as int].price == price
            &&& w.index[id as int].id == id
            &&& others_unchanged(v, w, id)
        },
{
    if v.has_listing(id) {
        assert(crate::market::entry_describes(v.index[id as int], v.listings[id as int]));
    }
}

/// `update_price` by the seller of a stored `Active` listing succeeds for
/// every positive price, higher or lower than the current one; the listing
/// and its index entry then carry that price, the listing stays `Active`,
/// changed at `now`, and nothing else changes. A price that is not positive,
/// or a listing that is not `Active`, is refused.
pub proof fn law_update_price_sets_any_positive_price(
    v: MarketView,
    seller: Address,
    id: u64,
    new_price: i128,
    now: u64,
)
    requires
        v.wf(),
    ensures
        new_price <= 0 ==> v.update_price_outcome(seller, id, new_price) == Err::<(), MarketError>(
            MarketError::InvalidPrice,
        ),
        new_price > 0 && !v.has_listing(id) ==> v.update_price_outcome(seller, id, new_price)
            == Err::<(), MarketError>(MarketError::NotFound),
        new_price > 0 && v.has_listing(id) && v.listing(id).seller@ == seller@ && v.listing(
            id,
        ).status != ListingStatus::Active ==> v.update_price_outcome(seller, id, new_price)
            == Err::<(), MarketError>(MarketError::NotActive),
        new_price > 0 && v.has_listing(id) && v.listing(id).seller@ == seller@ && v.listing(
            id,
        ).status == ListingStatus::Active ==> {
            let w = v.after_update_price(id, new_price, now);
            &&& v.update_price_outcome(seller, id, new_price) is Ok
            &&& w.listing(id).price == new_price
            &&& w.listing(id).status == ListingStatus::Active
            &&& w.listing(id).updated_at == now
            &&& same_item(w.listing(id), v.listing(id))
            &&& w.index[id as int].price == new_price
            &&& w.index[id as int].status == ListingStatus::Active
            &&& w.index[id as int].id == id
            &&& others_unchanged(v, w, id)
        },
{
    if v.has_listing(id) {
        assert(crate::market::entry_describes(v.index[id as int], v.listings[id as int]));
    }
}

/// A successful purchase leaves the listing `Sold`, changed at `now`, at its
/// price and otherwise as it was, turns its index entry `Sold`, and changes
/// nothing else.
pub proof fn law_buy_item_sells(v: MarketView, buyer: Address, id: u64, now: u64)
    requires
        v.wf(),
        v.buy_outcome(buyer, id) is Ok,
    ensures
        ({
            let w = v.after_status(id, ListingStatus::Sold, now);
            &&& w.listing(id).status == ListingStatus::Sold
            &&& w.listing(id).updated_at == now
            &&& w.listing(id).price == v.listing(id).price
            &&& same_item(w.listing(id), v.listing(id))
            &&& w.index[id as int].status == ListingStatus::Sold
            &&& w.index[id as int].price == v.listing(id).price
            &&& w.index[id as int].id == id
            &&& others_unchanged(v, w, id)
        }),
{
    assert(crate::market::entry_describes(v.index[id as int], v.listings[id as int]));
}

} // verus!
