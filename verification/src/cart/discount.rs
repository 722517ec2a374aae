//! Discounts applied to carts, and the rules that decide whether a discount
//! definition may still be used.
use vstd::prelude::*;
use crate::ids::{CategoryId, DiscountId, ProductId};
use crate::money::Money;

verus! {

/// Type of discount.
#[derive(Debug, Clone, Copy, PartialEq, Eq, Structural, Hash)]
pub enum DiscountType {
    /// Percentage off.
    Percentage,
    /// Fixed amount off.
    FixedAmount,
    /// Free shipping.
    FreeShipping,
    /// Buy X get Y free/discounted.
    BuyXGetY,
}

/// Condition for a discount to apply.
#[derive(Debug, Clone)]
pub enum DiscountCondition {
    /// Minimum purchase amount.
    MinimumPurchase(Money),
    /// Specific product must be in cart.
    ProductInCart(ProductId),
    /// Product from category must be in cart.
    CategoryInCart(CategoryId),
    /// Customer has specific tag.
    CustomerTag(String),
    /// First order only.
    FirstOrder,
    /// Minimum quantity of items.
    MinimumQuantity(i64),
    /// Specific products only.
    SpecificProducts(Vec<ProductId>),
    /// Specific categories only.
    SpecificCategories(Vec<CategoryId>),
}

/// A discount that has been applied to a cart.
#[derive(Debug, Clone)]
pub struct AppliedDiscount {
    /// The discount ID.
    pub discount_id: DiscountId,
    /// The discount code used.
    pub code: String,
    /// Description for display.
    pub description: String,
    /// Amount discounted.
    pub amount: Money,
}

/// A discount definition may be used at `now`: it is active, `now` lies within
/// its start and end (both inclusive), and its usage limit is not reached.
pub open spec fn discount_valid_at(
    active: bool,
    starts_at: Option<i64>,
    ends_at: Option<i64>,
    usage_limit: Option<i64>,
    usage_count: i64,
    now: i64,
) -> bool {
    &&& active
    &&& starts_at matches Some(s) ==> now >= s
    &&& ends_at matches Some(e) ==> now <= e
    &&& usage_limit matches Some(l) ==> usage_count < l
}

/// Whether a discount definition may be used at `now` (time window, active
/// flag and usage limit).
pub fn discount_is_valid(
    active: bool,
    starts_at: Option<i64>,
    ends_at: Option<i64>,
    usage_limit: Option<i64>,
    usage_count: i64,
    now: i64,
) -> (r: bool)
    ensures
        r == discount_valid_at(active, starts_at, ends_at, usage_limit, usage_count, now),
{
    if !active {
        return false;
    }
    if let Some(starts) = starts_at {
        if now < starts {
            return false;
        }
    }
    if let Some(ends) = ends_at {
        if now > ends {
            return false;
        }
    }
    if let Some(limit) = usage_limit {
        if usage_count >= limit {
            return false;
        }
    }
    true
}

/// Whether a discount's usage limit has been reached (never, without a limit).
pub fn discount_is_exhausted(usage_limit: Option<i64>, usage_count: i64) -> (r: bool)
    ensures
        r == (usage_limit matches Some(l) && usage_count >= l),
{
    match usage_limit {
        Some(limit) => usage_count >= limit,
        None => false,
    }
}

/// Whether a discount has expired at `now` (never, without an end date).
pub fn discount_is_expired(ends_at: Option<i64>, now: i64) -> (r: bool)
    ensures
        r == (ends_at matches Some(e) && now > e),
{
    match ends_at {
        Some(ends) => now > ends,
        None => false,
    }
}

/// The amount a fixed discount takes off a subtotal: the discount's amount,
/// but never more than the subtotal.
pub fn fixed_discount_amount(amount: &Money, subtotal: &Money) -> (r: Money)
    ensures
        r == if amount.amount_cents > subtotal.amount_cents { *subtotal } else { *amount },
{
    if amount.amount_cents > subtotal.amount_cents {
        *subtotal
    } else {
        *amount
    }
}

} // verus!
