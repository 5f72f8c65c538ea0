use vstd::prelude::*;

use crate::fees::{compute_fee, fee_of};
use crate::index::{
    is_first_with_id, select, selected, update_index_price, update_index_status,
    with_entry_price, with_entry_status, Selection,
};
use crate::types::{
    Address, ItemCondition, Listing, ListingIndex, ListingStatus, MarketError, SportCategory,
    Transfer,
};

verus! {

/// Highest platform fee, in basis points (100 %).
pub const MAX_FEE_BPS: u32 = 10_000;

/// The whole state of a marketplace, as plain mathematical values.
pub struct MarketView {
    /// The admin, once the marketplace is initialized.
    pub admin: Option<Address>,
    /// Platform fee in basis points (100 = 1 %); 0 until initialized.
    pub fee_bps: u32,
    /// The address that collects platform fees, once initialized.
    pub fee_vault: Option<Address>,
    /// Number of listings created; the next listing id.
    pub listing_count: u64,
    /// Every stored listing; the listing with id `i` stands at position `i`.
    pub listings: Seq<Listing>,
    /// The searchable index: the entry of listing `i` stands at position `i`.
    pub index: Seq<ListingIndex>,
}

/// The index entry that `list_item` records for a new listing.
pub open spec fn summary_of(l: Listing) -> ListingIndex {
    ListingIndex { id: l.id, seller: l.seller, price: l.price, status: l.status, category: l.category }
}

/// The index entry `e` is the summary of the listing `l`: same id, seller
/// (by strkey), price, status and category.
pub open spec fn entry_describes(e: ListingIndex, l: Listing) -> bool {
    &&& e.id == l.id
    &&& e.seller@ == l.seller@
    &&& e.price == l.price
    &&& e.status == l.status
    &&& e.category == l.category
}

/// `l` with a new status and last-change time.
pub open spec fn listing_with_status(l: Listing, status: ListingStatus, now: u64) -> Listing {
    Listing {
        id: l.id,
        seller: l.seller,
        title: l.title,
        description: l.description,
        category: l.category,
        condition: l.condition,
        price: l.price,
        token: l.token,
        status: status,
        created_at: l.created_at,
        updated_at: now,
    }
}

/// `l` with a new price and last-change time.
pub open spec fn listing_with_price(l: Listing, price: i128, now: u64) -> Listing {
    Listing {
        id: l.id,
        seller: l.seller,
        title: l.title,
        description: l.description,
        category: l.category,
        condition: l.condition,
        price: price,
        token: l.token,
        status: l.status,
        created_at: l.created_at,
        updated_at: now,
    }
}

impl MarketView {
    /// The invariant that every operation keeps.
    pub open spec fn wf(self) -> bool {
        &&& self.fee_bps <= MAX_FEE_BPS
        &&& self.listing_count == self.index.len()
        &&& self.index.len() == self.listings.len()
        &&& forall|i: int|
            #![trigger self.listings[i]]
            0 <= i < self.listings.len() ==> self.listings[i].id == i && self.listings[i].price > 0
        &&& forall|i: int|
            #![trigger self.index[i]]
            0 <= i < self.index.len() ==> entry_describes(self.index[i], self.listings[i])
    }

    /// A listing with id `id` is stored.
    pub open spec fn has_listing(self, id: u64) -> bool {
        id < self.listings.len()
    }

    /// The stored listing with id `id`.
    pub open spec fn listing(self, id: u64) -> Listing {
        self.listings[id as int]
    }

    /// The state of a marketplace on which nothing was done yet.
    pub open spec fn empty() -> MarketView {
        MarketView {
            admin: None,
            fee_bps: 0,
            fee_vault: None,
            listing_count: 0,
            listings: Seq::empty(),
            index: Seq::empty(),
        }
    }

    // ---- initialize ----
    pub open spec fn initialize_outcome(self, fee_bps: u32) -> Result<(), MarketError> {
        if self.admin is Some {
            Err(MarketError::AlreadyInitialized)
        } else if fee_bps > MAX_FEE_BPS {
            Err(MarketError::InvalidFeeBps)
        } else {
            Ok(())
        }
    }

    /// Initialization sets admin, fee and vault; listings created before it
    /// stay, with their ids, in storage and in the index.
    pub open spec fn after_initialize(self, admin: Address, fee_bps: u32, fee_vault: Address) -> MarketView {
        MarketView { admin: Some(admin), fee_bps: fee_bps, fee_vault: Some(fee_vault), ..self }
    }

    // ---- admin ----
    pub open spec fn set_fee_bps_outcome(self, fee_bps: u32) -> Result<(), MarketError> {
        if self.admin is None {
            Err(MarketError::NotInitialized)
        } else if fee_bps > MAX_FEE_BPS {
            Err(MarketError::InvalidFeeBps)
        } else {
            Ok(())
        }
    }

    pub open spec fn after_set_fee_bps(self, fee_bps: u32) -> MarketView {
        MarketView { fee_bps: fee_bps, ..self }
    }

    pub open spec fn set_fee_vault_outcome(self) -> Result<(), MarketError> {
        if self.admin is None {
            Err(MarketError::NotInitialized)
        } else {
            Ok(())
        }
    }

    pub open spec fn after_set_fee_vault(self, fee_vault: Address) -> MarketView {
        MarketView { fee_vault: Some(fee_vault), ..self }
    }

    // ---- list ----
    pub open spec fn list_outcome(self, price: i128) -> Result<u64, MarketError> {
        if price <= 0 {
            Err(MarketError::InvalidPrice)
        } else {
            Ok(self.listing_count)
        }
    }

    /// The listing that `list_item` creates.
    pub open spec fn new_listing(
        self,
        seller: Address,
        title: String,
        description: String,
        category: SportCategory,
        condition: ItemCondition,
        price: i128,
        token: Address,
        now: u64,
    ) -> Listing {
        Listing {
            id: self.listing_count,
            seller: seller,
            title: title,
            description: description,
            category: category,
            condition: condition,
            price: price,
            token: token,
            status: ListingStatus::Active,
            created_at: now,
            updated_at: now,
        }
    }

    /// Stores `l` after the stored listings, appends its summary to the
    /// index and counts it.
    pub open spec fn after_list(self, l: Listing) -> MarketView {
        MarketView {
            listing_count: (self.listing_count + 1) as u64,
            listings: self.listings.push(l),
            index: self.index.push(summary_of(l)),
            ..self
        }
    }

    // ---- seller checks ----
    /// The checks of `unlist_item`, in the order in which they are made.
    pub open spec fn unlist_outcome(self, seller: Address, id: u64) -> Result<(), MarketError> {
        if !self.has_listing(id) {
            Err(MarketError::NotFound)
        } else if self.listing(id).seller@ != seller@ {
            Err(MarketError::Unauthorized)
        } else if self.listing(id).status != ListingStatus::Active {
            Err(MarketError::NotActive)
        } else {
            Ok(())
        }
    }

    /// Listing `id` gets `status` and change time `now`, in storage and in
    /// its index entry.
    pub open spec fn after_status(self, id: u64, status: ListingStatus, now: u64) -> MarketView {
        MarketView {
            listings: self.listings.update(
                id as int,
                listing_with_status(self.listing(id), status, now),
            ),
            index: self.index.update(id as int, with_entry_status(self.index[id as int], status)),
            ..self
        }
    }

    pub open spec fn relist_outcome(self, seller: Address, id: u64, new_price: Option<i128>) -> Result<
        (),
        MarketError,
    > {
        if !self.has_listing(id) {
            Err(MarketError::NotFound)
        } else if self.listing(id).seller@ != seller@ {
            Err(MarketError::Unauthorized)
        } else if self.listing(id).status != ListingStatus::Unlisted {
            Err(MarketError::NotUnlisted)
        } else if new_price matches Some(p) && p <= 0 {
            Err(MarketError::InvalidPrice)
        } else {
            Ok(())
        }
    }

    /// Listing `id` becomes `Active` again, with the new price if one is
    /// given, in storage and in its index entry.
    pub open spec fn after_relist(self, id: u64, new_price: Option<i128>, now: u64) -> MarketView {
        let l = self.listing(id);
        let e = self.index[id as int];
        let (priced, priced_entry) = match new_price {
            Some(p) => (listing_with_price(l, p, now), with_entry_price(e, p)),
            None => (l, e),
        };
        MarketView {
            listings: self.listings.update(
                id as int,
                listing_with_status(priced, ListingStatus::Active, now),
            ),
            index: self.index.update(
                id as int,
                with_entry_status(priced_entry, ListingStatus::Active),
            ),
            ..self
        }
    }

    pub open spec fn update_price_outcome(self, seller: Address, id: u64, new_price: i128) -> Result<
        (),
        MarketError,
    > {
        if new_price <= 0 {
            Err(MarketError::InvalidPrice)
        } else if !self.has_listing(id) {
            Err(MarketError::NotFound)
        } else if self.listing(id).seller@ != seller@ {
            Err(MarketError::Unauthorized)
        } else if self.listing(id).status != ListingStatus::Active {
            Err(MarketError::NotActive)
        } else {
            Ok(())
        }
    }

    /// Listing `id` and its index entry get the new price.
    pub open spec fn after_update_price(self, id: u64, new_price: i128, now: u64) -> MarketView {
        MarketView {
            listings: self.listings.update(
                id as int,
                listing_with_price(self.listing(id), new_price, now),
            ),
            index: self.index.update(id as int, with_entry_price(self.index[id as int], new_price)),
            ..self
        }
    }

    // ---- buy ----
    /// The checks of `buy_item`, in the order in which they are made.
    pub open spec fn buy_outcome(self, buyer: Address, id: u64) -> Result<(), MarketError> {
        if !self.has_listing(id) {
            Err(MarketError::NotFound)
        } else if self.listing(id).status != ListingStatus::Active {
            Err(MarketError::NotActive)
        } else if self.listing(id).seller@ == buyer@ {
            Err(MarketError::SelfPurchase)
        } else if self.fee_vault is None {
            Err(MarketError::NotInitialized)
        } else {
            Ok(())
        }
    }

    /// The platform fee of listing `id` at the current fee rate.
    pub open spec fn fee_of_listing(self, id: u64) -> int {
        fee_of(self.listing(id).price as int, self.fee_bps as int)
    }

    /// What the buyer of listing `id` pays: the price less the fee to the
    /// seller, then the fee to the fee vault when the fee is positive.
    pub open spec fn purchase_transfers(self, buyer: Address, id: u64) -> Seq<Transfer> {
        let l = self.listing(id);
        let fee = self.fee_of_listing(id);
        let to_seller = Transfer {
            token: l.token,
            from: buyer,
            to: l.seller,
            amount: (l.price - fee) as i128,
        };
        if fee > 0 {
            seq![
                to_seller,
                Transfer { token: l.token, from: buyer, to: self.fee_vault.unwrap(), amount: fee as i128 },
            ]
        } else {
            seq![to_seller]
        }
    }
}


/// The entry at each position of `index` carries that position as its id.
pub open spec fn ids_are_positions(index: Seq<ListingIndex>) -> bool {
    forall|j: int| #![trigger index[j]] 0 <= j < index.len() ==> index[j].id == j
}

/// In an index whose ids are its positions, the entry of listing `id`
/// stands at position `id`.
proof fn lemma_first_position(index: Seq<ListingIndex>, id: u64)
    requires
        ids_are_positions(index),
        id < index.len(),
    ensures
        is_first_with_id(index, id, id as int),
{
    assert(index[id as int].id == id);
}

/// Under the invariant, the ids of the index are its positions.
proof fn lemma_index_ids(v: MarketView)
    requires
        v.wf(),
    ensures
        ids_are_positions(v.index),
{
    assert forall|j: int| 0 <= j < v.index.len() implies #[trigger] v.index[j].id == j by {
        assert(entry_describes(v.index[j], v.listings[j]));
        assert(v.listings[j].id == j);
    }
}

/// Changing the status of a stored listing keeps the invariant.
pub proof fn lemma_after_status_wf(v: MarketView, id: u64, status: ListingStatus, now: u64)
    requires
        v.wf(),
        v.has_listing(id),
    ensures
        v.after_status(id, status, now).wf(),
{
    let w = v.after_status(id, status, now);
    assert(w.listings.len() == v.listings.len());
    assert(w.index.len() == v.index.len());
    assert forall|i: int| 0 <= i < w.listings.len() implies #[trigger] w.listings[i].id == i
        && w.listings[i].price > 0 by {
        assert(v.listings[i].id == i && v.listings[i].price > 0);
    }
    assert forall|i: int| 0 <= i < w.index.len() implies entry_describes(
        #[trigger] w.index[i],
        w.listings[i],
    ) by {
        assert(entry_describes(v.index[i], v.listings[i]));
    }
}

/// Giving a stored listing a positive price keeps the invariant.
pub proof fn lemma_after_price_wf(v: MarketView, id: u64, price: i128, now: u64)
    requires
        v.wf(),
        v.has_listing(id),
        price > 0,
    ensures
        v.after_update_price(id, price, now).wf(),
{
    let w = v.after_update_price(id, price, now);
    assert(w.listings.len() == v.listings.len());
    assert(w.index.len() == v.index.len());
    assert forall|i: int| 0 <= i < w.listings.len() implies #[trigger] w.listings[i].id == i
        && w.listings[i].price > 0 by {
        assert(v.listings[i].id == i && v.listings[i].price > 0);
    }
    assert forall|i: int| 0 <= i < w.index.len() implies entry_describes(
        #[trigger] w.index[i],
        w.listings[i],
    ) by {
        assert(entry_describes(v.index[i], v.listings[i]));
    }
}

/// Relisting a stored listing, at a positive price if one is given, keeps
/// the invariant.
pub proof fn lemma_after_relist_wf(v: MarketView, id: u64, new_price: Option<i128>, now: u64)
    requires
        v.wf(),
        v.has_listing(id),
        new_price matches Some(p) ==> p > 0,
    ensures
        v.after_relist(id, new_price, now).wf(),
{
    let w = v.after_relist(id, new_price, now);
    assert(w.listings.len() == v.listings.len());
    assert(w.index.len() == v.index.len());
    assert forall|i: int| 0 <= i < w.listings.len() implies #[trigger] w.listings[i].id == i
        && w.listings[i].price > 0 by {
        assert(v.listings[i].id == i && v.listings[i].price > 0);
    }
    assert forall|i: int| 0 <= i < w.index.len() implies entry_describes(
        #[trigger] w.index[i],
        w.listings[i],
    ) by {
        assert(entry_describes(v.index[i], v.listings[i]));
    }
}

/// Appending a new listing with the next id and a positive price keeps the
/// invariant.
pub proof fn lemma_after_list_wf(v: MarketView, l: Listing)
    requires
        v.wf(),
        v.listing_count < u64::MAX,
        l.id == v.listing_count,
        l.price > 0,
    ensures
        v.after_list(l).wf(),
{
    let w = v.after_list(l);
    assert forall|i: int| 0 <= i < w.listings.len() implies #[trigger] w.listings[i].id == i
        && w.listings[i].price > 0 by {
        if i < v.listings.len() {
            assert(v.listings[i].id == i && v.listings[i].price > 0);
        }
    }
    assert forall|i: int| 0 <= i < w.index.len() implies entry_describes(
        #[trigger] w.index[i],
        w.listings[i],
    ) by {
        if i < v.index.len() {
            assert(entry_describes(v.index[i], v.listings[i]));
        }
    }
}

/// A sport-item marketplace: its configuration, its listings and their index.
pub struct SportMarketplace {
    admin: Option<Address>,
    fee_bps: u32,
    fee_vault: Option<Address>,
    listing_count: u64,
    listings: Vec<Listing>,
    index: Vec<ListingIndex>,
}

impl View for SportMarketplace {
    type V = MarketView;

    closed spec fn view(&self) -> MarketView {
        MarketView {
            admin: self.admin,
            fee_bps: self.fee_bps,
            fee_vault: self.fee_vault,
            listing_count: self.listing_count,
            listings: self.listings@,
            index: self.index@,
        }
    }
}

impl SportMarketplace {
    /// Every marketplace value keeps the invariant.
    #[verifier::type_invariant]
    spec fn keeps_invariant(self) -> bool {
        self@.wf()
    }

    /// A marketplace on which nothing was done yet.
    pub fn new() -> (r: SportMarketplace)
        ensures
            r@ == MarketView::empty(),
            r@.wf(),
    {
        SportMarketplace {
            admin: None,
            fee_bps: 0,
            fee_vault: None,
            listing_count: 0,
            listings: Vec::new(),
            index: Vec::new(),
        }
    }

    /// Moves the whole state out, leaving an empty marketplace behind.
    fn take(&mut self) -> (r: SportMarketplace)
        ensures
            r@ == old(self)@,
            r@.wf(),
            final(self)@ == MarketView::empty(),
    {
        proof {
            use_type_invariant(&*self);
        }
        let mut r = SportMarketplace::new();
        std::mem::swap(&mut r, self);
        r
    }

    /// The marketplace whose state is made of the given parts, as they were
    /// read back from storage; `None` when the parts break the invariant.
    pub fn restore(
        admin: Option<Address>,
        fee_bps: u32,
        fee_vault: Option<Address>,
        listing_count: u64,
        listings: Vec<Listing>,
        index: Vec<ListingIndex>,
    ) -> (r: Option<SportMarketplace>)
        ensures
            r is Some <==> (MarketView {
                admin: admin,
                fee_bps: fee_bps,
                fee_vault: fee_vault,
                listing_count: listing_count,
                listings: listings@,
                index: index@,
            }).wf(),
            r matches Some(m) ==> m@ == (MarketView {
                admin: admin,
                fee_bps: fee_bps,
                fee_vault: fee_vault,
                listing_count: listing_count,
                listings: listings@,
                index: index@,
            }),
    {
        if fee_bps > MAX_FEE_BPS || listing_count != index.len() as u64 || index.len()
            != listings.len() {
            return None;
        }
        let mut i: usize = 0;
        while i < listings.len()
            invariant
                i <= listings@.len(),
                forall|j: int|
                    #![trigger listings@[j]]
                    0 <= j < i ==> listings@[j].id == j && listings@[j].price > 0,
            decreases listings@.len() - i,
        {
            let l = &listings[i];
            if l.id != i as u64 || l.price <= 0 {
                return None;
            }
            i = i + 1;
        }
        let mut k: usize = 0;
        while k < index.len()
            invariant
                index@.len() == listings@.len(),
                k <= index@.len(),
                forall|j: int| 0 <= j < k ==> entry_describes(#[trigger] index@[j], listings@[j]),
            decreases index@.len() - k,
        {
            let e = &index[k];
            let l = &listings[k];
            if e.id != l.id || !(e.seller == l.seller) || e.price != l.price || e.status != l.status
                || e.category != l.category {
                return None;
            }
            k = k + 1;
        }
        Some(SportMarketplace { admin, fee_bps, fee_vault, listing_count, listings, index })
    }

    /// Sets up the marketplace: its admin, its fee in basis points (at most
    /// 10 000) and the address that collects fees. Allowed once. Listings
    /// created before keep their ids.
    pub fn initialize(&mut self, admin: Address, fee_bps: u32, fee_vault: Address) -> (r: Result<
        (),
        MarketError,
    >)
        ensures
            old(self)@.wf(),
            final(self)@.wf(),
            r == old(self)@.initialize_outcome(fee_bps),
            r is Ok ==> final(self)@ == old(self)@.after_initialize(admin, fee_bps, fee_vault),
            r is Err ==> final(self)@ == old(self)@,
    {
        proof {
            use_type_invariant(&*self);
        }
        if self.admin.is_some() {
            return Err(MarketError::AlreadyInitialized);
        }
        if fee_bps > MAX_FEE_BPS {
            return Err(MarketError::InvalidFeeBps);
        }
        self.admin = Some(admin);
        self.fee_bps = fee_bps;
        self.fee_vault = Some(fee_vault);
        Ok(())
    }

    /// Changes the platform fee. The host lets only the admin call it.
    pub fn set_fee_bps(&mut self, fee_bps: u32) -> (r: Result<(), MarketError>)
        ensures
            old(self)@.wf(),
            final(self)@.wf(),
            r == old(self)@.set_fee_bps_outcome(fee_bps),
            r is Ok ==> final(self)@ == old(self)@.after_set_fee_bps(fee_bps),
            r is Err ==> final(self)@ == old(self)@,
    {
        proof {
            use_type_invariant(&*self);
        }
        if self.admin.is_none() {
            return Err(MarketError::NotInitialized);
        }
        if fee_bps > MAX_FEE_BPS {
            return Err(MarketError::InvalidFeeBps);
        }
        self.fee_bps = fee_bps;
        Ok(())
    }

    /// Changes the address that collects fees. The host lets only the admin
    /// call it.
    pub fn set_fee_vault(&mut self, new_vault: Address) -> (r: Result<(), MarketError>)
        ensures
            old(self)@.wf(),
            final(self)@.wf(),
            r == old(self)@.set_fee_vault_outcome(),
            r is Ok ==> final(self)@ == old(self)@.after_set_fee_vault(new_vault),
            r is Err ==> final(self)@ == old(self)@,
    {
        proof {
            use_type_invariant(&*self);
        }
        if self.admin.is_none() {
            return Err(MarketError::NotInitialized);
        }
        self.fee_vault = Some(new_vault);
        Ok(())
    }

    /// Lists a sport item for sale by `seller` (whom the host has
    /// authenticated) at ledger time `now`; returns the new listing's id,
    /// which is the number of listings created before it.
    pub fn list_item(
        &mut self,
        seller: Address,
        title: String,
        description: String,
        category: SportCategory,
        condition: ItemCondition,
        price: i128,
        token: Address,
        now: u64,
    ) -> (r: Result<u64, MarketError>)
        requires
            old(self)@.listing_count < u64::MAX,
        ensures
            old(self)@.wf(),
            final(self)@.wf(),
            r == old(self)@.list_outcome(price),
            r is Ok ==> final(self)@ == old(self)@.after_list(
                old(self)@.new_listing(
                    seller,
                    title,
                    description,
                    category,
                    condition,
                    price,
                    token,
                    now,
                ),
            ),
            r is Err ==> final(self)@ == old(self)@,
    {
        proof {
            use_type_invariant(&*self);
        }
        if price <= 0 {
            return Err(MarketError::InvalidPrice);
        }
        let ghost pre = self@;
        let SportMarketplace { admin, fee_bps, fee_vault, listing_count, mut listings, mut index } =
            self.take();
        let id = listing_count;
        let entry = ListingIndex {
            id: id,
            seller: seller.clone(),
            price: price,
            status: ListingStatus::Active,
            category: category,
        };
        let listing = Listing {
            id: id,
            seller: seller,
            title: title,
            description: description,
            category: category,
            condition: condition,
            price: price,
            token: token,
            status: ListingStatus::Active,
            created_at: now,
            updated_at: now,
        };
        assert(entry == summary_of(listing));
        listings.push(listing);
        index.push(entry);
        proof {
            lemma_after_list_wf(pre, listing);
        }
        *self = SportMarketplace {
            admin,
            fee_bps,
            fee_vault,
            listing_count: id + 1,
            listings,
            index,
        };
        Ok(id)
    }

    /// Gives listing `id` a new status and change time, in storage and in
    /// the index.
    fn restatus(&mut self, id: u64, status: ListingStatus, now: u64)
        requires
            old(self)@.has_listing(id),
        ensures
            final(self)@ == old(self)@.after_status(id, status, now),
            final(self)@.wf(),
    {
        let ghost pre = self@;
        let SportMarketplace { admin, fee_bps, fee_vault, listing_count, mut listings, mut index } =
            self.take();
        assert(id < listings.len());
        let mut l = listings[id as usize].clone();
        l.status = status;
        l.updated_at = now;
        assert(l == listing_with_status(pre.listing(id), status, now));
        listings.set(id as usize, l);
        proof {
            lemma_index_ids(pre);
            lemma_first_position(index@, id);
        }
        update_index_status(&mut index, id, status);
        proof {
            lemma_after_status_wf(pre, id, status, now);
        }
        *self = SportMarketplace { admin, fee_bps, fee_vault, listing_count, listings, index };
    }

    /// Takes an `Active` listing of `seller` off the market.
    pub fn unlist_item(&mut self, seller: Address, listing_id: u64, now: u64) -> (r: Result<
        (),
        MarketError,
    >)
        ensures
            old(self)@.wf(),
            final(self)@.wf(),
            r == old(self)@.unlist_outcome(seller, listing_id),
            r is Ok ==> final(self)@ == old(self)@.after_status(
                listing_id,
                ListingStatus::Unlisted,
                now,
            ),
            r is Err ==> final(self)@ == old(self)@,
    {
        proof {
            use_type_invariant(&*self);
        }
        if listing_id >= self.listings.len() as u64 {
            return Err(MarketError::NotFound);
        }
        let l = &self.listings[listing_id as usize];
        if !(l.seller == seller) {
            return Err(MarketError::Unauthorized);
        }
        if l.status != ListingStatus::Active {
            return Err(MarketError::NotActive);
        }
        self.restatus(listing_id, ListingStatus::Unlisted, now);
        Ok(())
    }

    /// Puts an `Unlisted` listing of `seller` back on the market, at
    /// `new_price` when one is given.
    pub fn relist_item(&mut self, seller: Address, listing_id: u64, new_price: Option<i128>, now: u64) -> (r:
        Result<(), MarketError>)
        ensures
            old(self)@.wf(),
            final(self)@.wf(),
            r == old(self)@.relist_outcome(seller, listing_id, new_price),
            r is Ok ==> final(self)@ == old(self)@.after_relist(listing_id, new_price, now),
            r is Err ==> final(self)@ == old(self)@,
    {
        proof {
            use_type_invariant(&*self);
        }
        if listing_id >= self.listings.len() as u64 {
            return Err(MarketError::NotFound);
        }
        let l = &self.listings[listing_id as usize];
        if !(l.seller == seller) {
            return Err(MarketError::Unauthorized);
        }
        if l.status != ListingStatus::Unlisted {
            return Err(MarketError::NotUnlisted);
        }
        if let Some(p) = new_price {
            if p <= 0 {
                return Err(MarketError::InvalidPrice);
            }
        }
        let ghost pre = self@;
        let SportMarketplace { admin, fee_bps, fee_vault, listing_count, mut listings, mut index } =
            self.take();
        let mut relisted = listings[listing_id as usize].clone();
        if let Some(p) = new_price {
            relisted.price = p;
        }
        relisted.status = ListingStatus::Active;
        relisted.updated_at = now;
        listings.set(listing_id as usize, relisted);
        proof {
            lemma_index_ids(pre);
            lemma_first_position(index@, listing_id);
        }
        if let Some(p) = new_price {
            update_index_price(&mut index, listing_id, p);
            proof {
                lemma_first_position(index@, listing_id);
            }
        }
        update_index_status(&mut index, listing_id, ListingStatus::Active);
        proof {
            lemma_after_relist_wf(pre, listing_id, new_price, now);
            let want = pre.after_relist(listing_id, new_price, now);
            assert(listings@ =~= want.listings);
            assert(index@ =~= want.index);
        }
        *self = SportMarketplace { admin, fee_bps, fee_vault, listing_count, listings, index };
        Ok(())
    }

    /// Changes the price of an `Active` listing of `seller`, in storage and
    /// in the index.
    pub fn update_price(&mut self, seller: Address, listing_id: u64, new_price: i128, now: u64) -> (r:
        Result<(), MarketError>)
        ensures
            old(self)@.wf(),
            final(self)@.wf(),
            r == old(self)@.update_price_outcome(seller, listing_id, new_price),
            r is Ok ==> final(self)@ == old(self)@.after_update_price(listing_id, new_price, now),
            r is Err ==> final(self)@ == old(self)@,
    {
        proof {
            use_type_invariant(&*self);
        }
        if new_price <= 0 {
            return Err(MarketError::InvalidPrice);
        }
        if listing_id >= self.listings.len() as u64 {
            return Err(MarketError::NotFound);
        }
        let l = &self.listings[listing_id as usize];
        if !(l.seller == seller) {
            return Err(MarketError::Unauthorized);
        }
        if l.status != ListingStatus::Active {
            return Err(MarketError::NotActive);
        }
        let ghost pre = self@;
        let SportMarketplace { admin, fee_bps, fee_vault, listing_count, mut listings, mut index } =
            self.take();
        let mut priced = listings[listing_id as usize].clone();
        priced.price = new_price;
        priced.updated_at = now;
        assert(priced == listing_with_price(pre.listing(listing_id), new_price, now));
        listings.set(listing_id as usize, priced);
        proof {
            lemma_index_ids(pre);
            lemma_first_position(index@, listing_id);
        }
        update_index_price(&mut index, listing_id, new_price);
        proof {
            lemma_after_price_wf(pre, listing_id, new_price, now);
        }
        *self = SportMarketplace { admin, fee_bps, fee_vault, listing_count, listings, index };
        Ok(())
    }

    /// Sells an `Active` listing to `buyer` (whom the host has
    /// authenticated): the listing becomes `Sold`, and the result lists the
    /// token transfers that pay for it, which the host performs.
    pub fn buy_item(&mut self, buyer: Address, listing_id: u64, now: u64) -> (r: Result<
        Vec<Transfer>,
        MarketError,
    >)
        ensures
            old(self)@.wf(),
            final(self)@.wf(),
            r matches Err(e) ==> old(self)@.buy_outcome(buyer, listing_id) == Err::<(), MarketError>(e),
            r is Ok <==> old(self)@.buy_outcome(buyer, listing_id) is Ok,
            r matches Ok(transfers) ==> transfers@ == old(self)@.purchase_transfers(buyer, listing_id),
            r is Ok ==> final(self)@ == old(self)@.after_status(listing_id, ListingStatus::Sold, now),
            r is Err ==> final(self)@ == old(self)@,
    {
        proof {
            use_type_invariant(&*self);
        }
        if listing_id >= self.listings.len() as u64 {
            return Err(MarketError::NotFound);
        }
        let ghost pre = self@;
        let l = &self.listings[listing_id as usize];
        if l.status != ListingStatus::Active {
            return Err(MarketError::NotActive);
        }
        if l.seller == buyer {
            return Err(MarketError::SelfPurchase);
        }
        let fee_vault = match &self.fee_vault {
            Some(v) => v.clone(),
            None => {
                return Err(MarketError::NotInitialized);
            },
        };
        let fee_amount = compute_fee(l.price, self.fee_bps);
        let seller_amount = l.price - fee_amount;
        let mut transfers: Vec<Transfer> = Vec::new();
        transfers.push(
            Transfer {
                token: l.token.clone(),
                from: buyer.clone(),
                to: l.seller.clone(),
                amount: seller_amount,
            },
        );
        if fee_amount > 0 {
            transfers.push(
                Transfer {
                    token: l.token.clone(),
                    from: buyer,
                    to: fee_vault,
                    amount: fee_amount,
                },
            );
        }
        assert(transfers@ =~= pre.purchase_transfers(buyer, listing_id));
        self.restatus(listing_id, ListingStatus::Sold, now);
        Ok(transfers)
    }
    /// Full details of the listing with id `listing_id`, if one is stored.
    pub fn get_listing(&self, listing_id: u64) -> (r: Option<Listing>)
        ensures
            r == (if self@.has_listing(listing_id) {
                Some(self@.listing(listing_id))
            } else {
                None
            }),
    {
        if listing_id < self.listings.len() as u64 {
            Some(self.listings[listing_id as usize].clone())
        } else {
            None
        }
    }

    /// The whole index: one entry per listing ever created, whatever
    /// its status, in id order.
    pub fn get_all_listings(&self) -> (r: Vec<ListingIndex>)
        ensures
            r@ == self@.index,
    {
        let mut out: Vec<ListingIndex> = Vec::new();
        let mut i: usize = 0;
        while i < self.index.len()
            invariant
                i <= self.index@.len(),
                out@ == self.index@.take(i as int),
            decreases self.index@.len() - i,
        {
            out.push(self.index[i].clone());
            assert(out@ =~= self.index@.take(i + 1));
            i = i + 1;
        }
        assert(out@ =~= self.index@);
        out
    }

    /// The index entries whose status is `Active`, in id order.
    pub fn get_active_listings(&self) -> (r: Vec<ListingIndex>)
        ensures
            r@ == selected(self@.index, Selection::Active),
    {
        select(&self.index, &Selection::Active)
    }

    /// The index entries of `seller`, whatever their status, in id order.
    pub fn get_seller_listings(&self, seller: Address) -> (r: Vec<ListingIndex>)
        ensures
            r@ == selected(self@.index, Selection::BySeller(seller)),
    {
        select(&self.index, &Selection::BySeller(seller))
    }

    /// The `Active` index entries of `category`, in id order.
    pub fn get_listings_by_category(&self, category: SportCategory) -> (r: Vec<ListingIndex>)
        ensures
            r@ == selected(self@.index, Selection::ActiveInCategory(category)),
    {
        select(&self.index, &Selection::ActiveInCategory(category))
    }

    /// Number of listings ever created.
    pub fn get_listing_count(&self) -> (r: u64)
        ensures
            r == self@.listing_count,
    {
        self.listing_count
    }

    /// Platform fee in basis points; 0 before initialization.
    pub fn get_fee_bps(&self) -> (r: u32)
        ensures
            r == self@.fee_bps,
    {
        self.fee_bps
    }

    /// The admin, or `NotInitialized` before initialization.
    pub fn get_admin(&self) -> (r: Result<Address, MarketError>)
        ensures
            r == (match self@.admin {
                Some(a) => Ok(a),
                None => Err(MarketError::NotInitialized),
            }),
    {
        match &self.admin {
            Some(a) => Ok(a.clone()),
            None => Err(MarketError::NotInitialized),
        }
    }

    /// The address that collects fees, if the marketplace is initialized.
    pub fn get_fee_vault(&self) -> (r: Option<Address>)
        ensures
            r == self@.fee_vault,
    {
        match &self.fee_vault {
            Some(v) => Some(v.clone()),
            None => None,
        }
    }
}

} // verus!
