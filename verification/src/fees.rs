use vstd::prelude::*;

verus! {

/// The platform fee of `price` at `fee_bps` basis points, rounded down.
pub open spec fn fee_of(price: int, fee_bps: int) -> int {
    price * fee_bps / 10_000
}

/// For a price that is not negative and a rate of at most 10 000 basis
/// points, the fee is between 0 and the price.
pub proof fn lemma_fee_bounds(price: int, fee_bps: int)
    requires
        price >= 0,
        0 <= fee_bps <= 10_000,
    ensures
        0 <= fee_of(price, fee_bps) <= price,
{
    assert(0 <= price * fee_bps <= price * 10_000) by (nonlinear_arith)
        requires
            price >= 0,
            0 <= fee_bps <= 10_000,
    ;
    assert(price * fee_bps / 10_000 <= price * 10_000 / 10_000) by (nonlinear_arith)
        requires
            0 <= price * fee_bps <= price * 10_000,
    ;
    assert(price * 10_000 / 10_000 == price) by (nonlinear_arith);
    assert(0 <= price * fee_bps / 10_000) by (nonlinear_arith)
        requires
            0 <= price * fee_bps,
    ;
}

/// Splitting the price by 10 000 splits the fee: the fee of
/// `10 000 * q + r` is `q * fee_bps` plus the fee of `r`.
proof fn lemma_fee_by_parts(price: int, fee_bps: int)
    requires
        price >= 0,
        0 <= fee_bps <= 10_000,
    ensures
        fee_of(price, fee_bps) == (price / 10_000) * fee_bps + (price % 10_000) * fee_bps / 10_000,
        0 <= (price / 10_000) * fee_bps <= price,
        0 <= (price % 10_000) * fee_bps < 100_000_000,
{
    let q = price / 10_000;
    let r = price % 10_000;
    vstd::arithmetic::div_mod::lemma_fundamental_div_mod(price, 10_000);
    assert(0 <= q && 0 <= r < 10_000);
    assert(price * fee_bps == r * fee_bps + (q * fee_bps) * 10_000) by (nonlinear_arith)
        requires
            price == 10_000 * q + r,
    ;
    vstd::arithmetic::div_mod::lemma_hoist_over_denominator(r * fee_bps, q * fee_bps, 10_000);
    assert(0 <= q * fee_bps <= q * 10_000) by (nonlinear_arith)
        requires
            0 <= q,
            0 <= fee_bps <= 10_000,
    ;
    assert(0 <= r * fee_bps < 100_000_000) by (nonlinear_arith)
        requires
            0 <= r < 10_000,
            0 <= fee_bps <= 10_000,
    ;
}

/// The platform fee of a positive `price`, computed from the price's
/// quotient and remainder by 10 000 so that no product exceeds the price.
pub fn compute_fee(price: i128, fee_bps: u32) -> (r: i128)
    requires
        price > 0,
        fee_bps <= 10_000,
    ensures
        r == fee_of(price as int, fee_bps as int),
        0 <= r <= price,
{
    proof {
        lemma_fee_by_parts(price as int, fee_bps as int);
        lemma_fee_bounds(price as int, fee_bps as int);
    }
    let bps = fee_bps as i128;
    let whole = (price / 10_000) * bps;
    let part = (price % 10_000) * bps / 10_000;
    whole + part
}

} // verus!
