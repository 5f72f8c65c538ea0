use vstd::prelude::*;

use crate::types::{Address, ListingIndex, ListingStatus, SportCategory};

verus! {

/// `k` is the first position of `index` whose entry carries listing id `id`.
pub open spec fn is_first_with_id(index: Seq<ListingIndex>, id: u64, k: int) -> bool {
    &&& 0 <= k < index.len()
    &&& index[k].id == id
    &&& forall|j: int| 0 <= j < k ==> index[j].id != id
}

/// No entry of `index` carries listing id `id`.
pub open spec fn has_no_id(index: Seq<ListingIndex>, id: u64) -> bool {
    forall|j: int| 0 <= j < index.len() ==> index[j].id != id
}

/// The entry `e` with its status replaced.
pub open spec fn with_entry_status(e: ListingIndex, status: ListingStatus) -> ListingIndex {
    ListingIndex { id: e.id, seller: e.seller, price: e.price, status: status, category: e.category }
}

/// The entry `e` with its price replaced.
pub open spec fn with_entry_price(e: ListingIndex, price: i128) -> ListingIndex {
    ListingIndex { id: e.id, seller: e.seller, price: price, status: e.status, category: e.category }
}

/// Finds the first entry of the index that carries listing id `id`.
fn position_of(index: &Vec<ListingIndex>, id: u64) -> (r: Option<usize>)
    ensures
        match r {
            Some(k) => is_first_with_id(index@, id, k as int),
            None => has_no_id(index@, id),
        },
{
    let mut i: usize = 0;
    while i < index.len()
        invariant
            i <= index@.len(),
            forall|j: int| 0 <= j < i ==> index@[j].id != id,
        decreases index@.len() - i,
    {
        if index[i].id == id {
            return Some(i);
        }
        i = i + 1;
    }
    None
}

/// Sets the status of the first index entry of listing `listing_id`;
/// leaves the index as it is when no entry carries that id.
pub fn update_index_status(index: &mut Vec<ListingIndex>, listing_id: u64, new_status: ListingStatus)
    ensures
        has_no_id(old(index)@, listing_id) ==> final(index)@ == old(index)@,
        forall|k: int|
            is_first_with_id(old(index)@, listing_id, k) ==> final(index)@ == old(index)@.update(
                k,
                with_entry_status(old(index)@[k], new_status),
            ),
{
    match position_of(index, listing_id) {
        Some(k) => {
            let e = &index[k];
            let entry = ListingIndex {
                id: e.id,
                seller: e.seller.clone(),
                price: e.price,
                status: new_status,
                category: e.category,
            };
            index.set(k, entry);
        },
        None => {},
    }
}

/// Sets the price of the first index entry of listing `listing_id`;
/// leaves the index as it is when no entry carries that id.
pub fn update_index_price(index: &mut Vec<ListingIndex>, listing_id: u64, new_price: i128)
    ensures
        has_no_id(old(index)@, listing_id) ==> final(index)@ == old(index)@,
        forall|k: int|
            is_first_with_id(old(index)@, listing_id, k) ==> final(index)@ == old(index)@.update(
                k,
                with_entry_price(old(index)@[k], new_price),
            ),
{
    match position_of(index, listing_id) {
        Some(k) => {
            let e = &index[k];
            let entry = ListingIndex {
                id: e.id,
                seller: e.seller.clone(),
                price: new_price,
                status: e.status,
                category: e.category,
            };
            index.set(k, entry);
        },
        None => {},
    }
}

/// Which index entries a query returns.
pub enum Selection {
    /// Entries whose status is `Active`.
    Active,
    /// Entries of the given seller, whatever their status.
    BySeller(Address),
    /// `Active` entries of the given category.
    ActiveInCategory(SportCategory),
}

/// Whether the query `sel` returns the entry `e`.
pub open spec fn selects(sel: Selection, e: ListingIndex) -> bool {
    match sel {
        Selection::Active => e.status == ListingStatus::Active,
        Selection::BySeller(seller) => e.seller@ == seller@,
        Selection::ActiveInCategory(category) => e.category == category && e.status
            == ListingStatus::Active,
    }
}

/// The entries of `index` that `sel` returns, in index order.
pub open spec fn selected(index: Seq<ListingIndex>, sel: Selection) -> Seq<ListingIndex> {
    index.filter(|e: ListingIndex| selects(sel, e))
}

fn matches(sel: &Selection, e: &ListingIndex) -> (r: bool)
    ensures
        r == selects(*sel, *e),
{
    match sel {
        Selection::Active => e.status == ListingStatus::Active,
        Selection::BySeller(seller) => e.seller == *seller,
        Selection::ActiveInCategory(category) => e.category == *category && e.status
            == ListingStatus::Active,
    }
}

/// The entries of `index` that `sel` returns, in index order.
pub fn select(index: &Vec<ListingIndex>, sel: &Selection) -> (r: Vec<ListingIndex>)
    ensures
        r@ == selected(index@, *sel),
{
    let mut out: Vec<ListingIndex> = Vec::new();
    let mut i: usize = 0;
    while i < index.len()
        invariant
            i <= index@.len(),
            out@ == selected(index@.take(i as int), *sel),
        decreases index@.len() - i,
    {
        proof {
            reveal(Seq::filter);
            assert(index@.take(i + 1).drop_last() =~= index@.take(i as int));
            assert(index@.take(i + 1).last() == index@[i as int]);
        }
        if matches(sel, &index[i]) {
            out.push(index[i].clone());
        }
        i = i + 1;
    }
    proof {
        assert(index@.take(index@.len() as int) =~= index@);
    }
    out
}

} // verus!
