//! Restock re-pricing.
//!
//! When a delivered order line replenishes an item that is already stocked,
//! the item is re-priced by a synthetic restock markup drawn uniformly from
//! 3% (inclusive) to 10% (exclusive) — not a real costing model. Prices are
//! integral cents; the markup is carried in basis points (hundredths of a
//! percent). The raise is rounded up to a whole cent so that any positive
//! markup on a positive price moves the price, and then capped at the
//! largest whole-cent amount strictly under 10% of the prior price, so the
//! effective markup stays within `[3%, 10%)` for every price of at least
//! 11 cents. Only for prices of 1 to 10 cents does the integer-cent unit
//! force the minimal one-cent raise, which is 10% or more; a zero price
//! cannot be raised by a percentage at all.

use vstd::prelude::*;

verus! {

/// Lowest markup ever drawn, in basis points (3%).
pub const MARKUP_BP_MIN: u64 = 300;

/// One past the highest markup ever drawn, in basis points (10%).
pub const MARKUP_BP_END: u64 = 1000;

/// Relies on `rand::Rng::gen_range` over `rand::thread_rng`: the sample
/// lies in the (non-empty) requested range. Which value comes back is
/// chance; nothing else is assumed of it.
#[verifier::external_body]
pub fn draw_markup_bp() -> (r: u64)
    ensures
        MARKUP_BP_MIN <= r < MARKUP_BP_END,
{
    rand::Rng::gen_range(&mut rand::thread_rng(), MARKUP_BP_MIN..MARKUP_BP_END)
}

/// The whole-cent raise a markup of `markup_bp` basis points gives a price:
/// the markup rounded up to a whole cent, capped at the largest whole-cent
/// amount strictly under 10% of the price (with a floor of one cent, the
/// smallest raise the integer-cent unit can express).
pub open spec fn spec_markup_raise(price_cents: u64, markup_bp: u64) -> int {
    let rounded_up = (price_cents * markup_bp + 9999) / 10000;
    let cap = if (price_cents + 9) / 10 >= 2 {
        (price_cents + 9) / 10 - 1
    } else {
        1
    };
    if rounded_up <= cap {
        rounded_up
    } else {
        cap
    }
}

/// A price after a markup of `markup_bp` basis points: raised by
/// `spec_markup_raise`, saturating at the largest representable price.
pub open spec fn spec_apply_markup(price_cents: u64, markup_bp: u64) -> u64 {
    let raised = price_cents + spec_markup_raise(price_cents, markup_bp);
    if raised > u64::MAX {
        u64::MAX
    } else {
        raised as u64
    }
}

/// Re-price by a markup in basis points.
pub fn apply_markup(price_cents: u64, markup_bp: u64) -> (r: u64)
    ensures
        r == spec_apply_markup(price_cents, markup_bp),
{
    proof {
        assert((price_cents as u128) * (markup_bp as u128) <= (u64::MAX as u128) * (
        u64::MAX as u128)) by (nonlinear_arith)
            requires
                price_cents as u128 <= u64::MAX as u128,
                markup_bp as u128 <= u64::MAX as u128,
        ;
    }
    let p = price_cents as u128;
    let rounded_up = (p * (markup_bp as u128) + 9999) / 10000;
    let tenth = (p + 9) / 10;
    let cap: u128 = if tenth >= 2 {
        tenth - 1
    } else {
        1
    };
    let raise = if rounded_up <= cap {
        rounded_up
    } else {
        cap
    };
    let raised = p + raise;
    if raised > u64::MAX as u128 {
        u64::MAX
    } else {
        raised as u64
    }
}

/// Any markup of at least 3% strictly raises a positive price, as long as
/// the raise does not overrun the largest representable price.
pub proof fn lemma_markup_strictly_raises(price_cents: u64, markup_bp: u64)
    requires
        1 <= price_cents,
        MARKUP_BP_MIN <= markup_bp,
        price_cents + (price_cents * markup_bp + 9999) / 10000 <= u64::MAX,
    ensures
        spec_apply_markup(price_cents, markup_bp) > price_cents,
{
    assert(price_cents * markup_bp >= 300) by (nonlinear_arith)
        requires
            1 <= price_cents,
            300 <= markup_bp,
    ;
    assert((price_cents * markup_bp + 9999) / 10000 >= 1);
}

/// Restock markup band law: for any stocked price of at least 11 cents, the
/// effective raise of any drawn markup stays within `[3%, 10%)` — at least
/// three cents per dollar and strictly below a tenth of the prior price.
/// (For prices of 1 to 10 cents the integer-cent unit forces the minimal
/// one-cent raise, which is 10% or more; a zero price is never raised.)
pub proof fn lemma_markup_within_band(price_cents: u64, markup_bp: u64)
    requires
        11 <= price_cents,
        MARKUP_BP_MIN <= markup_bp < MARKUP_BP_END,
        price_cents + (price_cents * markup_bp + 9999) / 10000 <= u64::MAX,
    ensures
        ({
            let new_price = spec_apply_markup(price_cents, markup_bp);
            &&& 100 * (new_price - price_cents) >= 3 * price_cents
            &&& 10 * (new_price - price_cents) < price_cents
        }),
{
    let p = price_cents as int;
    let rounded_up = (p * markup_bp + 9999) / 10000;
    let tenth = (p + 9) / 10;
    let cap = tenth - 1;
    assert(tenth >= 2);
    // the raise never saturates: it is at most the uncapped rounding
    let raise = spec_markup_raise(price_cents, markup_bp);
    assert(raise <= rounded_up);
    // upper bound: 10 * cap <= p + 9 - 10 < p
    vstd::arithmetic::div_mod::lemma_fundamental_div_mod(p + 9, 10);
    assert(10 * cap < p);
    // lower bound, uncapped part: 10000 * rounded_up >= 300 * p
    assert(p * markup_bp >= 300 * p) by (nonlinear_arith)
        requires
            p >= 0,
            markup_bp >= 300,
    ;
    vstd::arithmetic::div_mod::lemma_fundamental_div_mod(p * markup_bp + 9999, 10000);
    assert(100 * rounded_up >= 3 * p);
    // lower bound, capped part: 100 * cap >= 3 * p
    if p <= 33 {
        assert(cap >= 1);
        assert(100 * cap >= 3 * p);
    } else {
        assert(10 * tenth >= p);
        assert(100 * cap >= 10 * p - 100);
        assert(10 * p - 100 >= 3 * p);
    }
}

/// Saturating addition on u64-sized amounts.
pub open spec fn spec_sat_add(a: u64, b: u64) -> u64 {
    if a + b > u64::MAX {
        u64::MAX
    } else {
        (a + b) as u64
    }
}

/// A stock level after depleting by a sold amount: floored at zero, never
/// negative.
pub open spec fn spec_deplete(quantity: u64, sold: u64) -> u64 {
    if quantity >= sold {
        (quantity - sold) as u64
    } else {
        0
    }
}

/// Deplete a stock level by a sold amount, floored at zero.
pub fn deplete(quantity: u64, sold: u64) -> (r: u64)
    ensures
        r == spec_deplete(quantity, sold),
{
    if quantity >= sold {
        quantity - sold
    } else {
        0
    }
}

} // verus!
