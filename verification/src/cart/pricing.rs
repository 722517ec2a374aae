//! Cart pricing breakdowns.
use vstd::prelude::*;
use crate::ids::LineItemId;
use crate::money::Money;
use crate::arith::{div_toward_zero, trunc_div};

verus! {

/// Complete pricing breakdown for a cart.
#[derive(Debug)]
pub struct CartPricing {
    /// Subtotal before discounts.
    pub subtotal: Money,
    /// Total discount amount.
    pub discount_total: Money,
    /// Shipping cost.
    pub shipping_total: Money,
    /// Tax amount.
    pub tax_total: Money,
    /// Final total (subtotal - discounts + shipping + tax).
    pub grand_total: Money,
    /// Per-line-item pricing breakdown.
    pub line_items: Vec<LineItemPricing>,
}

impl CartPricing {
    /// The savings from discounts.
    pub fn savings(&self) -> (r: Money)
        ensures
            r == self.discount_total,
    {
        self.discount_total
    }

    /// Whether any discount is applied.
    pub fn has_discounts(&self) -> (r: bool)
        ensures
            r == (self.discount_total.amount_cents > 0),
    {
        self.discount_total.amount_cents > 0
    }
}

/// Pricing breakdown for a single line item.
#[derive(Debug)]
pub struct LineItemPricing {
    /// Line item ID.
    pub line_item_id: LineItemId,
    /// Unit price.
    pub unit_price: Money,
    /// Quantity.
    pub quantity: i64,
    /// Subtotal (unit_price * quantity).
    pub subtotal: Money,
    /// Discount applied to this item.
    pub discount_amount: Money,
    /// Tax on this item.
    pub tax_amount: Money,
    /// Final total for this item.
    pub total: Money,
}

impl LineItemPricing {
    /// The effective unit price after discounts: the total divided by the
    /// quantity (rounding toward zero), or the unit price when the quantity is zero.
    pub fn effective_unit_price(&self) -> (r: Money)
        requires
            !(self.total.amount_cents == i64::MIN && self.quantity == -1),
        ensures
            self.quantity == 0 ==> r == self.unit_price,
            self.quantity != 0 ==> r == (Money {
                amount_cents: trunc_div(self.total.amount_cents as int, self.quantity as int) as i64,
                currency: self.total.currency,
            }),
    {
        if self.quantity == 0 {
            return self.unit_price;
        }
        let q = div_toward_zero(self.total.amount_cents, self.quantity);
        Money::new(q, self.total.currency)
    }
}

} // verus!
