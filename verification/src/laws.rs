use vstd::prelude::*;

use crate::fees::lemma_fee_bounds;
use crate::index::{selected, selects, with_entry_status, Selection};
use crate::market::{
    entry_describes, lemma_after_list_wf, lemma_after_price_wf, lemma_after_relist_wf,
    lemma_after_status_wf, listing_with_status, summary_of, MarketView, MAX_FEE_BPS,
};
use crate::types::{
    Address, ItemCondition, Listing, ListingIndex, ListingStatus, MarketError, SportCategory,
    Transfer,
};

verus! {

/// One request to the marketplace, with the caller the host authenticated
/// and the ledger time where the operation reads them.
pub enum MarketOp {
    Initialize { admin: Address, fee_bps: u32, fee_vault: Address },
    SetFeeBps { fee_bps: u32 },
    SetFeeVault { fee_vault: Address },
    List {
        seller: Address,
        title: String,
        description: String,
        category: SportCategory,
        condition: ItemCondition,
        price: i128,
        token: Address,
        now: u64,
    },
    Unlist { seller: Address, id: u64, now: u64 },
    Relist { seller: Address, id: u64, new_price: Option<i128>, now: u64 },
    UpdatePrice { seller: Address, id: u64, new_price: i128, now: u64 },
    Buy { buyer: Address, id: u64, now: u64 },
}

impl MarketView {
    /// The operation `op` succeeds on this state.
    pub open spec fn accepts(self, op: MarketOp) -> bool {
        match op {
            MarketOp::Initialize { admin, fee_bps, fee_vault } => self.initialize_outcome(
                fee_bps,
            ) is Ok,
            MarketOp::SetFeeBps { fee_bps } => self.set_fee_bps_outcome(fee_bps) is Ok,
            MarketOp::SetFeeVault { fee_vault } => self.set_fee_vault_outcome() is Ok,
            MarketOp::List { price, .. } => self.list_outcome(price) is Ok,
            MarketOp::Unlist { seller, id, now } => self.unlist_outcome(seller, id) is Ok,
            MarketOp::Relist { seller, id, new_price, now } => self.relist_outcome(
                seller,
                id,
                new_price,
            ) is Ok,
            MarketOp::UpdatePrice { seller, id, new_price, now } => self.update_price_outcome(
                seller,
                id,
                new_price,
            ) is Ok,
            MarketOp::Buy { buyer, id, now } => self.buy_outcome(buyer, id) is Ok,
        }
    }

    /// The state after `op`, as the operation of the same name leaves it:
    /// unchanged when `op` is refused.
    pub open spec fn step(self, op: MarketOp) -> MarketView {
        if !self.accepts(op) {
            self
        } else {
            match op {
                MarketOp::Initialize { admin, fee_bps, fee_vault } => self.after_initialize(
                    admin,
                    fee_bps,
                    fee_vault,
                ),
                MarketOp::SetFeeBps { fee_bps } => self.after_set_fee_bps(fee_bps),
                MarketOp::SetFeeVault { fee_vault } => self.after_set_fee_vault(fee_vault),
                MarketOp::List {
                    seller,
                    title,
                    description,
                    category,
                    condition,
                    price,
                    token,
                    now,
                } => self.after_list(
                    self.new_listing(seller, title, description, category, condition, price, token, now),
                ),
                MarketOp::Unlist { seller, id, now } => self.after_status(
                    id,
                    ListingStatus::Unlisted,
                    now,
                ),
                MarketOp::Relist { seller, id, new_price, now } => self.after_relist(
                    id,
                    new_price,
                    now,
                ),
                MarketOp::UpdatePrice { seller, id, new_price, now } => self.after_update_price(
                    id,
                    new_price,
                    now,
                ),
                MarketOp::Buy { buyer, id, now } => self.after_status(id, ListingStatus::Sold, now),
            }
        }
    }
}

/// `a` and `b` are the same listing but for its status, price and time of
/// last change.
pub open spec fn same_item(a: Listing, b: Listing) -> bool {
    &&& a.id == b.id
    &&& a.seller == b.seller
    &&& a.title == b.title
    &&& a.description == b.description
    &&& a.category == b.category
    &&& a.condition == b.condition
    &&& a.token == b.token
    &&& a.created_at == b.created_at
}


// ---------------------------------------------------------------------------
// The invariant, operation by operation
// ---------------------------------------------------------------------------

/// Every operation keeps the marketplace's invariant: the fee is at most
/// 10 000 basis points, the listing count is the number of stored listings
/// and of index entries, the listing with id `i` is stored at position `i`
/// with a positive price, and the index entry at position `i` is that
/// listing's summary: its id, seller, price, status and category. (Creating
/// a listing needs the count to be below `u64::MAX`.)
pub proof fn law_step_keeps_invariant(v: MarketView, op: MarketOp)
    requires
        v.wf(),
        op is List ==> v.listing_count < u64::MAX,
    ensures
        v.step(op).wf(),
{
    if v.accepts(op) {
        match op {
            MarketOp::Initialize { admin, fee_bps, fee_vault } => {},
            MarketOp::SetFeeBps { fee_bps } => {},
            MarketOp::SetFeeVault { fee_vault } => {},
            MarketOp::List { seller, title, description, category, condition, price, token, now } => {
                lemma_after_list_wf(
                    v,
                    v.new_listing(seller, title, description, category, condition, price, token, now),
                );
            },
            MarketOp::Unlist { seller, id, now } => {
                lemma_after_status_wf(v, id, ListingStatus::Unlisted, now);
            },
            MarketOp::Relist { seller, id, new_price, now } => {
                lemma_after_relist_wf(v, id, new_price, now);
            },
            MarketOp::UpdatePrice { seller, id, new_price, now } => {
                lemma_after_price_wf(v, id, new_price, now);
            },
            MarketOp::Buy { buyer, id, now } => {
                lemma_after_status_wf(v, id, ListingStatus::Sold, now);
            },
        }
    }
}

// ---------------------------------------------------------------------------
// Listings persist
// ---------------------------------------------------------------------------

/// A stored listing stays stored, and keeps its id, seller, title,
/// description, category, condition, token and creation time, whatever
/// operation comes.
pub proof fn law_listings_keep_their_identity(v: MarketView, op: MarketOp, id: u64)
    requires
        v.wf(),
        v.has_listing(id),
    ensures
        v.step(op).has_listing(id),
        same_item(v.step(op).listing(id), v.listing(id)),
{
}

/// A sold listing never changes again, whatever operation comes.
pub proof fn law_sold_listing_is_final(v: MarketView, op: MarketOp, id: u64)
    requires
        v.wf(),
        v.has_listing(id),
        v.listing(id).status == ListingStatus::Sold,
    ensures
        v.step(op).listing(id) == v.listing(id),
{
}

// ---------------------------------------------------------------------------
// Listing
// ---------------------------------------------------------------------------

/// `list_item` with a positive price gives the new listing the id that
/// equals the listing count, an id that no stored listing carries (so it
/// differs from every id handed out before, as those stay stored); it
/// stores the listing under that id as an `Active` listing created and
/// changed at `now`, appends its summary to the index and counts it. A price
/// that is not positive is refused.
pub proof fn law_listed_item_is_stored(
    v: MarketView,
    seller: Address,
    title: String,
    description: String,
    category: SportCategory,
    condition: ItemCondition,
    price: i128,
    token: Address,
    now: u64,
)
    requires
        v.wf(),
        v.listing_count < u64::MAX,
    ensures
        price <= 0 ==> v.list_outcome(price) == Err::<u64, MarketError>(MarketError::InvalidPrice),
        price > 0 ==> ({
            let l = v.new_listing(
                seller,
                title,
                description,
                category,
                condition,
                price,
                token,
                now,
            );
            let w = v.after_list(l);
            &&& v.list_outcome(price) == Ok::<u64, MarketError>(v.listing_count)
            &&& !v.has_listing(v.listing_count)
            &&& w.has_listing(v.listing_count)
            &&& w.listing(v.listing_count) == l
            &&& l.status == ListingStatus::Active
            &&& l.created_at == now && l.updated_at == now
            &&& w.listing_count == v.listing_count + 1
            &&& w.index == v.index.push(summary_of(l))
        }),
{
}

/// Two listings created one after the other get the ids `n` and `n + 1`.
pub proof fn law_successive_listings_get_successive_ids(v: MarketView, l: Listing, price: i128)
    requires
        v.wf(),
        v.listing_count < u64::MAX,
        l.id == v.listing_count,
        l.price > 0,
        price > 0,
    ensures
        v.after_list(l).list_outcome(price) == Ok::<u64, MarketError>((l.id + 1) as u64),
{
}

// ---------------------------------------------------------------------------
// Listing management
// ---------------------------------------------------------------------------

/// Only the seller of a stored listing can unlist, relist or reprice it.
pub proof fn law_only_the_seller_manages_a_listing(
    v: MarketView,
    caller: Address,
    id: u64,
    new_price: i128,
    relist_price: Option<i128>,
)
    requires
        v.has_listing(id),
        v.listing(id).seller@ != caller@,
        new_price > 0,
    ensures
        v.unlist_outcome(caller, id) == Err::<(), MarketError>(MarketError::Unauthorized),
        v.relist_outcome(caller, id, relist_price) == Err::<(), MarketError>(
            MarketError::Unauthorized,
        ),
        v.update_price_outcome(caller, id, new_price) == Err::<(), MarketError>(
            MarketError::Unauthorized,
        ),
{
}

/// Unlisting an `Active` listing and relisting it without a new price gives
/// back the state before, but for the listing's time of last change: the
/// listing is `Active` again at its old price, and the index is as before.
pub proof fn law_unlist_then_relist_restores(v: MarketView, seller: Address, id: u64, t1: u64, t2: u64)
    requires
        v.wf(),
        v.unlist_outcome(seller, id) is Ok,
    ensures
        v.after_status(id, ListingStatus::Unlisted, t1).relist_outcome(seller, id, None) is Ok,
        v.after_status(id, ListingStatus::Unlisted, t1).after_relist(id, None, t2) == (MarketView {
            listings: v.listings.update(id as int, listing_with_status(v.listing(id), ListingStatus::Active, t2)),
            ..v
        }),
        listing_with_status(v.listing(id), ListingStatus::Active, t2).price == v.listing(id).price,
{
    let u = v.after_status(id, ListingStatus::Unlisted, t1);
    let w = u.after_relist(id, None, t2);
    let want = MarketView {
        listings: v.listings.update(id as int, listing_with_status(v.listing(id), ListingStatus::Active, t2)),
        ..v
    };
    assert(w.listings =~= want.listings);
    assert(entry_describes(v.index[id as int], v.listings[id as int]));
    assert(w.index[id as int] == v.index[id as int]);
    assert(w.index =~= want.index);
}

/// After `update_price`, or after `relist_item` with a new price, the
/// listing and its index entry carry the new price.
pub proof fn law_new_price_is_visible(v: MarketView, id: u64, new_price: i128, now: u64)
    requires
        v.wf(),
        v.has_listing(id),
    ensures
        v.after_update_price(id, new_price, now).listing(id).price == new_price,
        v.after_update_price(id, new_price, now).index[id as int].price == new_price,
        v.after_relist(id, Some(new_price), now).listing(id).price == new_price,
        v.after_relist(id, Some(new_price), now).index[id as int].price == new_price,
{
}

// ---------------------------------------------------------------------------
// Storage and index
// ---------------------------------------------------------------------------

/// The stored listings are exactly those with an id below the listing
/// count, each stored under its own id, and the index has one entry per
/// listing.
pub proof fn law_stored_listings_are_those_below_the_count(v: MarketView, id: u64)
    requires
        v.wf(),
    ensures
        v.has_listing(id) <==> id < v.listing_count,
        v.has_listing(id) ==> v.listing(id).id == id,
        v.index.len() == v.listing_count,
{
}

/// The index entry of each stored listing stands at the listing's id and is
/// its summary: same id, seller, price, status and category.
pub proof fn law_index_is_the_summary_of_the_listings(v: MarketView, id: u64)
    requires
        v.wf(),
        v.has_listing(id),
    ensures
        entry_describes(v.index[id as int], v.listing(id)),
        v.index[id as int].id == summary_of(v.listing(id)).id,
        v.index[id as int].seller@ == summary_of(v.listing(id)).seller@,
        v.index[id as int].price == summary_of(v.listing(id)).price,
        v.index[id as int].status == summary_of(v.listing(id)).status,
        v.index[id as int].category == summary_of(v.listing(id)).category,
{
}

/// Once initialized, a marketplace refuses to be initialized again.
pub proof fn law_initialize_only_once(
    v: MarketView,
    admin: Address,
    fee_bps: u32,
    fee_vault: Address,
    again_fee_bps: u32,
)
    requires
        v.initialize_outcome(fee_bps) is Ok,
    ensures
        v.after_initialize(admin, fee_bps, fee_vault).initialize_outcome(again_fee_bps) == Err::<
            (),
            MarketError,
        >(MarketError::AlreadyInitialized),
        v.after_initialize(admin, fee_bps, fee_vault).fee_bps <= MAX_FEE_BPS,
{
}

// ---------------------------------------------------------------------------
// Buying
// ---------------------------------------------------------------------------

/// Sum of the amounts of `transfers`.
pub open spec fn total_amount(transfers: Seq<Transfer>) -> int
    decreases transfers.len(),
{
    if transfers.len() == 0 {
        0
    } else {
        total_amount(transfers.drop_last()) + transfers.last().amount
    }
}

/// A purchase pays exactly the listing's price, in the listing's token and
/// from the buyer: the seller receives the price less the fee (the fee being
/// the price times the fee rate, divided by 10 000 and rounded down, between
/// 0 and the price), and the fee vault receives the fee when it is positive.
pub proof fn law_purchase_pays_the_price(v: MarketView, buyer: Address, id: u64)
    requires
        v.wf(),
        v.buy_outcome(buyer, id) is Ok,
    ensures
        ({
            let l = v.listing(id);
            let fee = v.fee_of_listing(id);
            let t = v.purchase_transfers(buyer, id);
            &&& 0 <= fee <= l.price
            &&& total_amount(t) == l.price
            &&& t[0].to == l.seller
            &&& t[0].amount == l.price - fee
            &&& (fee > 0 ==> t.len() == 2 && t[1].to == v.fee_vault.unwrap() && t[1].amount == fee)
            &&& (fee == 0 ==> t.len() == 1)
            &&& forall|i: int|
                0 <= i < t.len() ==> #[trigger] t[i].from == buyer && t[i].token == l.token
                    && t[i].amount >= 0
        }),
{
    let l = v.listing(id);
    assert(l.price > 0);
    lemma_fee_bounds(l.price as int, v.fee_bps as int);
    let t = v.purchase_transfers(buyer, id);
    reveal_with_fuel(total_amount, 3);
    if v.fee_of_listing(id) > 0 {
        assert(t.drop_last() =~= seq![t[0]]);
        assert(seq![t[0]].drop_last() =~= Seq::<Transfer>::empty());
    } else {
        assert(t.drop_last() =~= Seq::<Transfer>::empty());
    }
}

/// With a fee rate of 0, the seller receives the whole price and nothing
/// goes to the fee vault.
pub proof fn law_zero_fee_mode(v: MarketView, buyer: Address, id: u64)
    requires
        v.wf(),
        v.buy_outcome(buyer, id) is Ok,
        v.fee_bps == 0,
    ensures
        v.purchase_transfers(buyer, id) == seq![
            Transfer {
                token: v.listing(id).token,
                from: buyer,
                to: v.listing(id).seller,
                amount: v.listing(id).price,
            },
        ],
{
    assert(v.fee_of_listing(id) == 0);
}

/// Once the fee vault is set, every `Active` listing can be bought by
/// anyone but its seller, whatever its price.
pub proof fn law_any_active_listing_can_be_bought(v: MarketView, buyer: Address, id: u64)
    requires
        v.has_listing(id),
        v.listing(id).status == ListingStatus::Active,
        v.listing(id).seller@ != buyer@,
        v.fee_vault is Some,
    ensures
        v.buy_outcome(buyer, id) is Ok,
{
}

/// A buyer cannot buy a listing that is not `Active`, nor one of its own.
pub proof fn law_buy_protections(v: MarketView, buyer: Address, id: u64)
    requires
        v.has_listing(id),
    ensures
        v.listing(id).status != ListingStatus::Active ==> v.buy_outcome(buyer, id) == Err::<
            (),
            MarketError,
        >(MarketError::NotActive),
        v.listing(id).status == ListingStatus::Active && v.listing(id).seller@ == buyer@
            ==> v.buy_outcome(buyer, id) == Err::<(), MarketError>(MarketError::SelfPurchase),
{
}

// ---------------------------------------------------------------------------
// Queries
// ---------------------------------------------------------------------------

proof fn lemma_selected_entries_come_from_index(index: Seq<ListingIndex>, sel: Selection, i: int)
    requires
        0 <= i < selected(index, sel).len(),
    ensures
        index.contains(selected(index, sel)[i]),
    decreases index.len(),
{
    reveal(Seq::filter);
    if index.len() > 0 {
        let rest = index.drop_last();
        if selects(sel, index.last()) && i == selected(index, sel).len() - 1 {
            assert(index[index.len() - 1] == index.last());
        } else {
            lemma_selected_entries_come_from_index(rest, sel, i);
            let j = choose|j: int| 0 <= j < rest.len() && rest[j] == selected(index, sel)[i];
            assert(index[j] == rest[j]);
        }
    }
}

/// A query returns exactly the index entries that it selects: every entry it
/// returns is in the index and selected (for `get_listings_by_category`:
/// `Active` and of that category; for `get_active_listings`: `Active`; for
/// `get_seller_listings`: of that seller), and every selected entry of the
/// index is returned.
pub proof fn law_queries_return_what_they_select(index: Seq<ListingIndex>, sel: Selection)
    ensures
        forall|i: int|
            0 <= i < selected(index, sel).len() ==> selects(sel, #[trigger] selected(index, sel)[i])
                && index.contains(selected(index, sel)[i]),
        forall|j: int|
            0 <= j < index.len() && selects(sel, #[trigger] index[j]) ==> selected(
                index,
                sel,
            ).contains(index[j]),
{
    broadcast use vstd::seq_lib::group_filter_ensures;

    assert forall|i: int| 0 <= i < selected(index, sel).len() implies selects(
        sel,
        #[trigger] selected(index, sel)[i],
    ) && index.contains(selected(index, sel)[i]) by {
        lemma_selected_entries_come_from_index(index, sel, i);
    }
}


/// Turning a selected entry into one the query does not select removes it
/// from the query's result, and keeps the order of the others.
proof fn lemma_select_after_unselecting(
    s: Seq<ListingIndex>,
    k: int,
    x: ListingIndex,
    sel: Selection,
)
    requires
        0 <= k < s.len(),
        selects(sel, s[k]),
        !selects(sel, x),
    ensures
        selected(s.update(k, x), sel) == selected(s.remove(k), sel),
        selected(s, sel).len() == selected(s.remove(k), sel).len() + 1,
    decreases s.len(),
{
    reveal(Seq::filter);
    let n = s.len() as int;
    if k == n - 1 {
        assert(s.update(k, x).drop_last() =~= s.drop_last());
        assert(s.remove(k) =~= s.drop_last());
        assert(s.update(k, x).last() == x);
    } else {
        lemma_select_after_unselecting(s.drop_last(), k, x, sel);
        assert(s.update(k, x).drop_last() =~= s.drop_last().update(k, x));
        assert(s.remove(k).drop_last() =~= s.drop_last().remove(k));
        assert(s.update(k, x).last() == s.last());
        assert(s.remove(k).last() == s.last());
        assert(s.remove(k).len() > 0);
    }
}

/// Unlisting or selling an `Active` listing takes its entry out of the
/// active listings and leaves the others, in the same order: the active
/// listings after are those of the index without that listing's entry, one
/// fewer than before.
pub proof fn law_active_listings_after_unlist_or_buy(
    v: MarketView,
    id: u64,
    status: ListingStatus,
    now: u64,
)
    requires
        v.wf(),
        v.has_listing(id),
        v.listing(id).status == ListingStatus::Active,
        status != ListingStatus::Active,
    ensures
        selected(v.after_status(id, status, now).index, Selection::Active) == selected(
            v.index.remove(id as int),
            Selection::Active,
        ),
        selected(v.index, Selection::Active).len() == selected(
            v.after_status(id, status, now).index,
            Selection::Active,
        ).len() + 1,
{
    assert(entry_describes(v.index[id as int], v.listings[id as int]));
    lemma_select_after_unselecting(
        v.index,
        id as int,
        with_entry_status(v.index[id as int], status),
        Selection::Active,
    );
}

/// The entries of a query's result come from the index in index order: if
/// the ids of the index increase, so do those of the result.
proof fn lemma_selected_ids_increase(s: Seq<ListingIndex>, sel: Selection)
    requires
        forall|i: int, j: int| 0 <= i < j < s.len() ==> s[i].id < s[j].id,
    ensures
        forall|i: int, j: int|
            0 <= i < j < selected(s, sel).len() ==> selected(s, sel)[i].id < selected(s, sel)[j].id,
    decreases s.len(),
{
    reveal(Seq::filter);
    if s.len() > 0 {
        let rest = s.drop_last();
        lemma_selected_ids_increase(rest, sel);
        let f = selected(rest, sel);
        if selects(sel, s.last()) {
            assert forall|i: int| 0 <= i < f.len() implies f[i].id < s.last().id by {
                lemma_selected_entries_come_from_index(rest, sel, i);
                let j = choose|j: int| 0 <= j < rest.len() && rest[j] == f[i];
                assert(s[j] == rest[j]);
                assert(s[s.len() - 1] == s.last());
            }
            assert(selected(s, sel) == f.push(s.last()));
        }
    }
}

/// A seller's listings hold exactly one entry for each listing that seller
/// created, whatever its status, and no entry for a listing of another
/// seller.
pub proof fn law_seller_listings_hold_each_listing_once(v: MarketView, seller: Address, id: u64)
    requires
        v.wf(),
        v.has_listing(id),
    ensures
        ({
            let q = selected(v.index, Selection::BySeller(seller));
            &&& v.listing(id).seller@ == seller@ ==> (exists|k: int|
                0 <= k < q.len() && #[trigger] q[k].id == id)
            &&& forall|k1: int, k2: int|
                0 <= k1 < q.len() && 0 <= k2 < q.len() && #[trigger] q[k1].id == id
                    && #[trigger] q[k2].id == id ==> k1 == k2
            &&& v.listing(id).seller@ != seller@ ==> forall|k: int|
                0 <= k < q.len() ==> #[trigger] q[k].id != id
        }),
{
    broadcast use vstd::seq_lib::group_filter_ensures;

    let sel = Selection::BySeller(seller);
    let q = selected(v.index, sel);
    assert forall|j: int| 0 <= j < v.index.len() implies #[trigger] v.index[j].id == j by {
        assert(entry_describes(v.index[j], v.listings[j]));
        assert(v.listings[j].id == j);
    }
    assert(entry_describes(v.index[id as int], v.listings[id as int]));
    lemma_selected_ids_increase(v.index, sel);
    if v.listing(id).seller@ == seller@ {
        assert(selects(sel, v.index[id as int]));
        assert(q.contains(v.index[id as int]));
        let k = choose|k: int| 0 <= k < q.len() && q[k] == v.index[id as int];
        assert(q[k].id == id);
    } else {
        assert forall|k: int| 0 <= k < q.len() implies #[trigger] q[k].id != id by {
            lemma_selected_entries_come_from_index(v.index, sel, k);
            let j = choose|j: int| 0 <= j < v.index.len() && v.index[j] == q[k];
            if q[k].id == id {
                assert(v.index[j].id == j);
                assert(j == id);
            }
        }
    }
    assert forall|k1: int, k2: int|
        0 <= k1 < q.len() && 0 <= k2 < q.len() && #[trigger] q[k1].id == id && #[trigger] q[k2].id
            == id implies k1 == k2 by {
        if k1 < k2 {
            assert(q[k1].id < q[k2].id);
        } else if k2 < k1 {
            assert(q[k2].id < q[k1].id);
        }
    }
}

/// Selecting a category among the active listings gives the active listings
/// of that category, in the same order.
proof fn lemma_category_within_active(s: Seq<ListingIndex>, category: SportCategory)
    ensures
        selected(selected(s, Selection::Active), Selection::ActiveInCategory(category)) == selected(
            s,
            Selection::ActiveInCategory(category),
        ),
    decreases s.len(),
{
    reveal(Seq::filter);
    if s.len() > 0 {
        lemma_category_within_active(s.drop_last(), category);
        let a = selected(s.drop_last(), Selection::Active);
        if selects(Selection::Active, s.last()) {
            assert(selected(s, Selection::Active) == a.push(s.last()));
            assert(a.push(s.last()).drop_last() =~= a);
            assert(a.push(s.last()).last() == s.last());
        }
    }
}

/// The number of active listings of each category, summed over all the
/// categories.
pub open spec fn active_per_category_total(s: Seq<ListingIndex>) -> nat {
    selected(s, Selection::ActiveInCategory(SportCategory::Football)).len()
        + selected(s, Selection::ActiveInCategory(SportCategory::Basketball)).len()
        + selected(s, Selection::ActiveInCategory(SportCategory::Tennis)).len()
        + selected(s, Selection::ActiveInCategory(SportCategory::Baseball)).len()
        + selected(s, Selection::ActiveInCategory(SportCategory::Golf)).len()
        + selected(s, Selection::ActiveInCategory(SportCategory::Swimming)).len()
        + selected(s, Selection::ActiveInCategory(SportCategory::Cycling)).len()
        + selected(s, Selection::ActiveInCategory(SportCategory::Running)).len()
        + selected(s, Selection::ActiveInCategory(SportCategory::Other)).len()
}

proof fn lemma_categories_count_active(s: Seq<ListingIndex>)
    ensures
        active_per_category_total(s) == selected(s, Selection::Active).len(),
    decreases s.len(),
{
    reveal(Seq::filter);
    if s.len() > 0 {
        lemma_categories_count_active(s.drop_last());
    }
}

/// The category queries split the active listings: each is the active
/// listings of its category, in the same order, and their sizes over all
/// the categories add up to the number of active listings.
pub proof fn law_category_queries_split_the_active_listings(
    index: Seq<ListingIndex>,
    category: SportCategory,
)
    ensures
        selected(index, Selection::ActiveInCategory(category)) == selected(
            selected(index, Selection::Active),
            Selection::ActiveInCategory(category),
        ),
        active_per_category_total(index) == selected(index, Selection::Active).len(),
{
    lemma_category_within_active(index, category);
    lemma_categories_count_active(index);
}
} // verus!
