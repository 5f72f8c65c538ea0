# sport_marketplace

A marketplace for sport equipment, written in Verus: sellers list items with
a price and a payment token, unlist and relist them, change their price, and
buyers purchase them; an admin sets the platform fee (in basis points) and the
address that collects it. A lightweight index of all listings answers the
queries by status, seller and category.

Layout:

- `src/types.rs` – categories, conditions, statuses, errors, listings, index
  entries and token transfers.
- `src/market.rs` – `SportMarketplace`, its mathematical view `MarketView`,
  the invariant (a type invariant of `SportMarketplace`), the lemmas that
  each operation keeps it, and every operation with a contract stated over
  the view.
- `src/index.rs` – the index search and update loops and the query filter.
- `src/fees.rs` – the fee computation and its bounds.
- `src/laws.rs` – properties of the marketplace as a whole: the invariant is
  kept by every operation, ids are never reused, listings persist, sold
  listings are final, the index is the listings' summary, a purchase pays
  exactly the price, unlist then relist restores a listing, and what the
  queries return (how the active listings change, one entry per listing of a
  seller, the category queries splitting the active listings).
- `app/lib.rs` – the Soroban contract: it authenticates callers, keeps the
  state in contract storage, calls the library and performs token transfers.
