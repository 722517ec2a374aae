//! Orders and their statuses.
use vstd::prelude::*;
use crate::cart::cart::LineItemProperty;
use crate::checkout::address::Address;
use crate::checkout::shipping::ShippingSelection;
use crate::ids::{OrderId, OrderLineItemId, ProductId, UserId, VariantId};
use crate::money::{fits_i64, Currency, Money};
use crate::platform::system_clock_secs;
use crate::text::{dec_digits, push_dec};
use crate::time::current_timestamp;

verus! {

/// Order status.
#[derive(Debug, Clone, Copy, PartialEq, Eq, Structural, Hash)]
pub enum OrderStatus {
    /// Order placed, awaiting processing.
    Pending,
    /// Order confirmed and processing.
    Confirmed,
    /// Order being prepared.
    Processing,
    /// Order shipped.
    Shipped,
    /// Order delivered.
    Delivered,
    /// Order cancelled.
    Cancelled,
    /// Order refunded.
    Refunded,
}

/// The machine name of an order status.
pub open spec fn order_status_name(s: OrderStatus) -> Seq<char> {
    match s {
        OrderStatus::Pending => "pending"@,
        OrderStatus::Confirmed => "confirmed"@,
        OrderStatus::Processing => "processing"@,
        OrderStatus::Shipped => "shipped"@,
        OrderStatus::Delivered => "delivered"@,
        OrderStatus::Cancelled => "cancelled"@,
        OrderStatus::Refunded => "refunded"@,
    }
}

/// The display name of an order status.
pub open spec fn order_status_title(s: OrderStatus) -> Seq<char> {
    match s {
        OrderStatus::Pending => "Pending"@,
        OrderStatus::Confirmed => "Confirmed"@,
        OrderStatus::Processing => "Processing"@,
        OrderStatus::Shipped => "Shipped"@,
        OrderStatus::Delivered => "Delivered"@,
        OrderStatus::Cancelled => "Cancelled"@,
        OrderStatus::Refunded => "Refunded"@,
    }
}

/// Delivered, cancelled and refunded orders are in a terminal state.
pub open spec fn status_terminal(s: OrderStatus) -> bool {
    s == OrderStatus::Delivered || s == OrderStatus::Cancelled || s == OrderStatus::Refunded
}

/// Pending, confirmed and processing orders may be cancelled.
pub open spec fn status_cancellable(s: OrderStatus) -> bool {
    s == OrderStatus::Pending || s == OrderStatus::Confirmed || s == OrderStatus::Processing
}

impl OrderStatus {
    /// The machine name (e.g. "pending").
    pub fn as_str(&self) -> (r: &'static str)
        ensures
            r@ == order_status_name(*self),
    {
        match self {
            OrderStatus::Pending => "pending",
            OrderStatus::Confirmed => "confirmed",
            OrderStatus::Processing => "processing",
            OrderStatus::Shipped => "shipped",
            OrderStatus::Delivered => "delivered",
            OrderStatus::Cancelled => "cancelled",
            OrderStatus::Refunded => "refunded",
        }
    }

    /// The display name (e.g. "Pending").
    pub fn display_name(&self) -> (r: &'static str)
        ensures
            r@ == order_status_title(*self),
    {
        match self {
            OrderStatus::Pending => "Pending",
            OrderStatus::Confirmed => "Confirmed",
            OrderStatus::Processing => "Processing",
            OrderStatus::Shipped => "Shipped",
            OrderStatus::Delivered => "Delivered",
            OrderStatus::Cancelled => "Cancelled",
            OrderStatus::Refunded => "Refunded",
        }
    }

    /// Whether the order is in a terminal state.
    pub fn is_terminal(&self) -> (r: bool)
        ensures
            r == status_terminal(*self),
    {
        match self {
            OrderStatus::Delivered | OrderStatus::Cancelled | OrderStatus::Refunded => true,
            _ => false,
        }
    }

    /// Whether the order can be cancelled.
    pub fn can_cancel(&self) -> (r: bool)
        ensures
            r == status_cancellable(*self),
    {
        match self {
            OrderStatus::Pending | OrderStatus::Confirmed | OrderStatus::Processing => true,
            _ => false,
        }
    }
}

impl Default for OrderStatus {
    fn default() -> (r: Self)
        ensures
            r == OrderStatus::Pending,
    {
        OrderStatus::Pending
    }
}

/// Financial/payment status.
#[derive(Debug, Clone, Copy, PartialEq, Eq, Structural, Hash)]
pub enum FinancialStatus {
    /// Payment pending.
    Pending,
    /// Payment authorized but not captured.
    Authorized,
    /// Payment captured/completed.
    Paid,
    /// Partially refunded.
    PartiallyRefunded,
    /// Fully refunded.
    Refunded,
    /// Payment voided.
    Voided,
}

/// The machine name of a financial status.
pub open spec fn financial_status_name(s: FinancialStatus) -> Seq<char> {
    match s {
        FinancialStatus::Pending => "pending"@,
        FinancialStatus::Authorized => "authorized"@,
        FinancialStatus::Paid => "paid"@,
        FinancialStatus::PartiallyRefunded => "partially_refunded"@,
        FinancialStatus::Refunded => "refunded"@,
        FinancialStatus::Voided => "voided"@,
    }
}

impl FinancialStatus {
    /// The machine name (e.g. "paid").
    pub fn as_str(&self) -> (r: &'static str)
        ensures
            r@ == financial_status_name(*self),
    {
        match self {
            FinancialStatus::Pending => "pending",
            FinancialStatus::Authorized => "authorized",
            FinancialStatus::Paid => "paid",
            FinancialStatus::PartiallyRefunded => "partially_refunded",
            FinancialStatus::Refunded => "refunded",
            FinancialStatus::Voided => "voided",
        }
    }
}

impl Default for FinancialStatus {
    fn default() -> (r: Self)
        ensures
            r == FinancialStatus::Pending,
    {
        FinancialStatus::Pending
    }
}

/// Fulfillment status.
#[derive(Debug, Clone, Copy, PartialEq, Eq, Structural, Hash)]
pub enum FulfillmentStatus {
    /// Nothing fulfilled yet.
    Unfulfilled,
    /// Some items fulfilled.
    PartiallyFulfilled,
    /// All items fulfilled.
    Fulfilled,
}

/// The machine name of a fulfillment status.
pub open spec fn fulfillment_status_name(s: FulfillmentStatus) -> Seq<char> {
    match s {
        FulfillmentStatus::Unfulfilled => "unfulfilled"@,
        FulfillmentStatus::PartiallyFulfilled => "partially_fulfilled"@,
        FulfillmentStatus::Fulfilled => "fulfilled"@,
    }
}

impl FulfillmentStatus {
    /// The machine name (e.g. "fulfilled").
    pub fn as_str(&self) -> (r: &'static str)
        ensures
            r@ == fulfillment_status_name(*self),
    {
        match self {
            FulfillmentStatus::Unfulfilled => "unfulfilled",
            FulfillmentStatus::PartiallyFulfilled => "partially_fulfilled",
            FulfillmentStatus::Fulfilled => "fulfilled",
        }
    }
}

impl Default for FulfillmentStatus {
    fn default() -> (r: Self)
        ensures
            r == FulfillmentStatus::Unfulfilled,
    {
        FulfillmentStatus::Unfulfilled
    }
}

/// A line item in an order.
#[derive(Debug, Clone)]
pub struct OrderLineItem {
    /// Unique line item identifier.
    pub id: OrderLineItemId,
    /// Variant ID.
    pub variant_id: VariantId,
    /// Product ID.
    pub product_id: ProductId,
    /// SKU at time of order.
    pub sku: String,
    /// Product name at time of order.
    pub name: String,
    /// Variant title (e.g., "Large / Blue").
    pub variant_title: Option<String>,
    /// Quantity ordered.
    pub quantity: i64,
    /// Unit price at time of order.
    pub unit_price: Money,
    /// Total price for this line.
    pub total_price: Money,
    /// Discount applied to this line.
    pub discount_amount: Money,
    /// Tax for this line.
    pub tax_amount: Money,
    /// Fulfillment status for this item.
    pub fulfillment_status: FulfillmentStatus,
    /// Quantity fulfilled.
    pub fulfilled_quantity: i64,
    /// Custom properties.
    pub properties: Vec<LineItemProperty>,
}

impl OrderLineItem {
    /// Whether the whole quantity has been fulfilled.
    pub fn is_fulfilled(&self) -> (r: bool)
        ensures
            r == (self.fulfilled_quantity >= self.quantity),
    {
        self.fulfilled_quantity >= self.quantity
    }

    /// The quantity still to fulfil (never negative).
    pub fn unfulfilled_quantity(&self) -> (r: i64)
        requires
            fits_i64(self.quantity - self.fulfilled_quantity),
        ensures
            r == if self.quantity - self.fulfilled_quantity > 0 { self.quantity - self.fulfilled_quantity } else { 0 },
    {
        let d = self.quantity - self.fulfilled_quantity;
        if d > 0 { d } else { 0 }
    }
}

/// The sum of the quantities of order lines.
pub open spec fn order_quantity_sum(items: Seq<OrderLineItem>) -> int
    decreases items.len(),
{
    if items.len() == 0 {
        0
    } else {
        order_quantity_sum(items.drop_last()) + items.last().quantity
    }
}

/// A completed order.
#[derive(Debug, Clone)]
pub struct Order {
    /// Unique order identifier.
    pub id: OrderId,
    /// Human-readable order number.
    pub order_number: String,
    /// Customer user ID (None for guest).
    pub user_id: Option<UserId>,
    /// Customer email.
    pub email: String,
    /// Order status.
    pub status: OrderStatus,
    /// Payment status.
    pub financial_status: FinancialStatus,
    /// Fulfillment status.
    pub fulfillment_status: FulfillmentStatus,
    /// Items in the order.
    pub line_items: Vec<OrderLineItem>,
    /// Shipping address.
    pub shipping_address: Address,
    /// Billing address.
    pub billing_address: Address,
    /// Shipping method used.
    pub shipping_method: ShippingSelection,
    /// Subtotal before discounts.
    pub subtotal: Money,
    /// Total discount amount.
    pub discount_total: Money,
    /// Shipping cost.
    pub shipping_total: Money,
    /// Tax amount.
    pub tax_total: Money,
    /// Grand total charged.
    pub grand_total: Money,
    /// Order currency.
    pub currency: Currency,
    /// Customer note.
    pub note: Option<String>,
    /// Order tags.
    pub tags: Vec<String>,
    /// Additional metadata.
    pub metadata: serde_json::Value,
    /// Unix timestamp of creation.
    pub created_at: i64,
    /// Unix timestamp of last update.
    pub updated_at: i64,
    /// Unix timestamp when cancelled (if applicable).
    pub cancelled_at: Option<i64>,
}

/// An order number for a Unix time: "ORD-" and the seconds.
pub open spec fn order_number_for(secs: nat) -> Seq<char> {
    "ORD-"@ + dec_digits(secs)
}

impl Order {
    /// An order number from the clock: "ORD-" followed by the Unix seconds (zero
    /// when the clock reads before the epoch).
    pub fn generate_order_number() -> (r: String)
        ensures
            exists|secs: u64| r@ == order_number_for(secs as nat),
    {
        let ts: u64 = match system_clock_secs() {
            Some(s) => s,
            None => 0,
        };
        let mut s = "ORD-".to_string();
        push_dec(&mut s, ts as u128);
        assert(s@ == order_number_for(ts as nat));
        s
    }

    /// The total item count: the sum of the line quantities.
    pub fn item_count(&self) -> (r: i64)
        requires
            forall|k: int| 0 <= k <= self.line_items@.len() ==> fits_i64(#[trigger] order_quantity_sum(self.line_items@.take(k))),
        ensures
            r == order_quantity_sum(self.line_items@),
    {
        let mut total: i64 = 0;
        let mut i: usize = 0;
        while i < self.line_items.len()
            invariant
                i <= self.line_items@.len(),
                forall|k: int| 0 <= k <= self.line_items@.len() ==> fits_i64(#[trigger] order_quantity_sum(self.line_items@.take(k))),
                total == order_quantity_sum(self.line_items@.take(i as int)),
            decreases self.line_items@.len() - i,
        {
            assert(self.line_items@.take(i + 1).drop_last() =~= self.line_items@.take(i as int));
            assert(fits_i64(order_quantity_sum(self.line_items@.take(i + 1))));
            total = total + self.line_items[i].quantity;
            i = i + 1;
        }
        assert(self.line_items@.take(i as int) =~= self.line_items@);
        total
    }

    /// Whether the order is paid (paid or partially refunded).
    pub fn is_paid(&self) -> (r: bool)
        ensures
            r == (self.financial_status == FinancialStatus::Paid || self.financial_status
                == FinancialStatus::PartiallyRefunded),
    {
        match self.financial_status {
            FinancialStatus::Paid | FinancialStatus::PartiallyRefunded => true,
            _ => false,
        }
    }

    /// Whether the order is fully fulfilled.
    pub fn is_fulfilled(&self) -> (r: bool)
        ensures
            r == (self.fulfillment_status == FulfillmentStatus::Fulfilled),
    {
        self.fulfillment_status == FulfillmentStatus::Fulfilled
    }

    /// Cancel the order if its status allows; says whether it was cancelled.
    pub fn cancel(&mut self) -> (r: bool)
        ensures
            r == status_cancellable(old(self).status),
            r ==> final(self).status == OrderStatus::Cancelled && final(self).cancelled_at is Some,
            r ==> *final(self) == (Order {
                status: OrderStatus::Cancelled,
                cancelled_at: final(self).cancelled_at,
                updated_at: final(self).updated_at,
                ..*old(self)
            }),
            !r ==> *final(self) == *old(self),
    {
        if !self.status.can_cancel() {
            return false;
        }
        self.status = OrderStatus::Cancelled;
        self.cancelled_at = Some(current_timestamp());
        self.updated_at = current_timestamp();
        true
    }

    /// Update the order status.
    pub fn set_status(&mut self, status: OrderStatus)
        ensures
            *final(self) == (Order { status, updated_at: final(self).updated_at, ..*old(self) }),
    {
        self.status = status;
        self.updated_at = current_timestamp();
    }

    /// Update the financial status.
    pub fn set_financial_status(&mut self, status: FinancialStatus)
        ensures
            *final(self) == (Order { financial_status: status, updated_at: final(self).updated_at, ..*old(self) }),
    {
        self.financial_status = status;
        self.updated_at = current_timestamp();
    }

    /// Update the fulfillment status.
    pub fn set_fulfillment_status(&mut self, status: FulfillmentStatus)
        ensures
            *final(self) == (Order { fulfillment_status: status, updated_at: final(self).updated_at, ..*old(self) }),
    {
        self.fulfillment_status = status;
        self.updated_at = current_timestamp();
    }
}

/// A cancellable order is never in a terminal state, and a cancelled order
/// can no longer be cancelled.
pub proof fn law_cancellable_not_terminal(s: OrderStatus)
    ensures
        status_cancellable(s) ==> !status_terminal(s),
        !status_cancellable(OrderStatus::Cancelled),
        status_terminal(OrderStatus::Cancelled),
{
}

/// An order can be cancelled until it ships: an order that is pending,
/// confirmed or being processed is cancellable (so `cancel` on it returns
/// `true` and cancels it), and one that has shipped, been delivered, been
/// cancelled or been refunded is not. An order's life ends once it is
/// delivered, cancelled or refunded, and not before.
pub proof fn law_cancellable_until_shipped(s: OrderStatus)
    ensures
        (s == OrderStatus::Pending || s == OrderStatus::Confirmed || s == OrderStatus::Processing)
            ==> status_cancellable(s),
        (s == OrderStatus::Shipped || s == OrderStatus::Delivered || s == OrderStatus::Cancelled
            || s == OrderStatus::Refunded) ==> !status_cancellable(s),
        (s == OrderStatus::Delivered || s == OrderStatus::Cancelled || s == OrderStatus::Refunded)
            ==> status_terminal(s),
        (s == OrderStatus::Pending || s == OrderStatus::Confirmed || s == OrderStatus::Processing
            || s == OrderStatus::Shipped) ==> !status_terminal(s),
{
}

} // verus!
