//! Inventory tracking.
use vstd::prelude::*;
use crate::ids::VariantId;
use crate::money::fits_i64;
use crate::time::current_timestamp;

verus! {

/// Inventory level for a product variant.
#[derive(Debug, Clone, PartialEq, Eq, Structural)]
pub struct InventoryLevel {
    /// Total quantity in stock.
    pub quantity: i64,
    /// Quantity reserved for pending orders.
    pub reserved: i64,
    /// Whether to track inventory for this item.
    pub track_inventory: bool,
    /// Whether to allow orders when out of stock.
    pub allow_backorder: bool,
    /// Low stock threshold for alerts.
    pub low_stock_threshold: Option<i64>,
}

/// The larger of a value and zero.
pub open spec fn at_least_zero(v: int) -> int {
    if v > 0 { v } else { 0 }
}

impl InventoryLevel {
    /// The quantity not reserved.
    pub open spec fn spec_available(self) -> int {
        self.quantity - self.reserved
    }

    /// The available quantity fits in an `i64`.
    pub open spec fn available_fits(self) -> bool {
        fits_i64(self.quantity - self.reserved)
    }

    /// Whether an amount can be fulfilled: always without tracking, otherwise
    /// when it is available or backorders are allowed.
    pub open spec fn can_fulfill_spec(self, quantity: i64) -> bool {
        !self.track_inventory || self.spec_available() >= quantity || self.allow_backorder
    }

    /// The level after reserving an amount, and whether the reservation was made.
    pub open spec fn after_reserve(self, quantity: i64) -> (InventoryLevel, bool) {
        if self.can_fulfill_spec(quantity) {
            (InventoryLevel { reserved: (self.reserved + quantity) as i64, ..self }, true)
        } else {
            (self, false)
        }
    }

    /// The level after releasing a reserved amount.
    pub open spec fn after_release(self, quantity: i64) -> InventoryLevel {
        InventoryLevel { reserved: at_least_zero(self.reserved - quantity) as i64, ..self }
    }

    /// The level after committing a reserved amount (the order shipped).
    pub open spec fn after_commit(self, quantity: i64) -> InventoryLevel {
        InventoryLevel {
            reserved: at_least_zero(self.reserved - quantity) as i64,
            quantity: at_least_zero(self.quantity - quantity) as i64,
            ..self
        }
    }

    /// A tracked inventory level with a quantity in stock.
    pub fn new(quantity: i64) -> (r: Self)
        ensures
            r == (InventoryLevel {
                quantity,
                reserved: 0,
                track_inventory: true,
                allow_backorder: false,
                low_stock_threshold: None,
            }),
    {
        InventoryLevel {
            quantity,
            reserved: 0,
            track_inventory: true,
            allow_backorder: false,
            low_stock_threshold: None,
        }
    }

    /// An inventory level without tracking (unlimited stock).
    pub fn untracked() -> (r: Self)
        ensures
            r == (InventoryLevel {
                quantity: 0,
                reserved: 0,
                track_inventory: false,
                allow_backorder: true,
                low_stock_threshold: None,
            }),
    {
        InventoryLevel {
            quantity: 0,
            reserved: 0,
            track_inventory: false,
            allow_backorder: true,
            low_stock_threshold: None,
        }
    }

    /// The available quantity: in stock minus reserved.
    pub fn available(&self) -> (r: i64)
        requires
            self.available_fits(),
        ensures
            r == self.spec_available(),
    {
        self.quantity - self.reserved
    }

    /// Whether the item can be bought: always without tracking; otherwise when
    /// some is available or backorders are allowed.
    pub fn is_available(&self) -> (r: bool)
        requires
            self.track_inventory ==> self.available_fits(),
        ensures
            r == (!self.track_inventory || self.spec_available() > 0 || self.allow_backorder),
    {
        if !self.track_inventory {
            return true;
        }
        self.available() > 0 || self.allow_backorder
    }

    /// Whether a quantity can be fulfilled.
    pub fn can_fulfill(&self, quantity: i64) -> (r: bool)
        requires
            self.track_inventory ==> self.available_fits(),
        ensures
            r == self.can_fulfill_spec(quantity),
    {
        if !self.track_inventory {
            return true;
        }
        self.available() >= quantity || self.allow_backorder
    }

    /// Whether stock is low: tracked, with a threshold, and the available
    /// quantity at or below it.
    pub fn is_low_stock(&self) -> (r: bool)
        requires
            self.track_inventory ==> self.available_fits(),
        ensures
            r == (self.track_inventory && (self.low_stock_threshold matches Some(t)
                && self.spec_available() <= t)),
    {
        if !self.track_inventory {
            return false;
        }
        match self.low_stock_threshold {
            Some(threshold) => self.available() <= threshold,
            None => false,
        }
    }

    /// Whether the item is out of stock: tracked, with nothing available.
    pub fn is_out_of_stock(&self) -> (r: bool)
        requires
            self.track_inventory ==> self.available_fits(),
        ensures
            r == (self.track_inventory && self.spec_available() <= 0),
    {
        self.track_inventory && self.available() <= 0
    }

    /// Reserve a quantity for an order when it can be fulfilled; says whether
    /// it was reserved.
    pub fn reserve(&mut self, quantity: i64) -> (r: bool)
        requires
            old(self).track_inventory ==> old(self).available_fits(),
            old(self).can_fulfill_spec(quantity) ==> fits_i64(old(self).reserved + quantity),
        ensures
            (*final(self), r) == old(self).after_reserve(quantity),
    {
        if !self.can_fulfill(quantity) {
            return false;
        }
        self.reserved = self.reserved + quantity;
        true
    }

    /// Release a reserved quantity (e.g. an order was cancelled); the reserved
    /// quantity never drops below zero.
    pub fn release(&mut self, quantity: i64)
        requires
            fits_i64(old(self).reserved - quantity),
        ensures
            *final(self) == old(self).after_release(quantity),
    {
        let r = self.reserved - quantity;
        self.reserved = if r > 0 { r } else { 0 };
    }

    /// Commit a reserved quantity (the order shipped): both the reserved and the
    /// in-stock quantities go down by it, never below zero.
    pub fn commit(&mut self, quantity: i64)
        requires
            fits_i64(old(self).reserved - quantity),
            fits_i64(old(self).quantity - quantity),
        ensures
            *final(self) == old(self).after_commit(quantity),
    {
        let r = self.reserved - quantity;
        self.reserved = if r > 0 { r } else { 0 };
        let q = self.quantity - quantity;
        self.quantity = if q > 0 { q } else { 0 };
    }

    /// Add stock.
    pub fn restock(&mut self, quantity: i64)
        requires
            fits_i64(old(self).quantity + quantity),
        ensures
            *final(self) == (InventoryLevel { quantity: (old(self).quantity + quantity) as i64, ..*old(self) }),
    {
        self.quantity = self.quantity + quantity;
    }

    /// Correct the stock by a signed amount, never below zero.
    pub fn adjust(&mut self, delta: i64)
        requires
            fits_i64(old(self).quantity + delta),
        ensures
            *final(self) == (InventoryLevel {
                quantity: at_least_zero(old(self).quantity + delta) as i64,
                ..*old(self)
            }),
    {
        let q = self.quantity + delta;
        self.quantity = if q > 0 { q } else { 0 };
    }
}

impl Default for InventoryLevel {
    fn default() -> (r: Self)
        ensures
            r == (InventoryLevel {
                quantity: 0,
                reserved: 0,
                track_inventory: false,
                allow_backorder: false,
                low_stock_threshold: None,
            }),
    {
        InventoryLevel {
            quantity: 0,
            reserved: 0,
            track_inventory: false,
            allow_backorder: false,
            low_stock_threshold: None,
        }
    }
}

/// Releasing what was just reserved gives back the level one started from,
/// when nothing negative was reserved before.
pub proof fn law_release_undoes_reserve(inv: InventoryLevel, quantity: i64)
    requires
        inv.reserved >= 0,
        fits_i64(inv.reserved + quantity),
        inv.after_reserve(quantity).1,
    ensures
        inv.after_reserve(quantity).0.after_release(quantity) == inv,
{
}

/// A successful reservation lowers the available quantity by the amount; a
/// refused one changes nothing.
pub proof fn law_reserve_lowers_available(inv: InventoryLevel, quantity: i64)
    requires
        fits_i64(inv.reserved + quantity),
    ensures
        inv.after_reserve(quantity).1 ==> inv.after_reserve(quantity).0.spec_available() == inv.spec_available() - quantity,
        !inv.after_reserve(quantity).1 ==> inv.after_reserve(quantity).0 == inv,
        inv.after_reserve(quantity).1 == inv.can_fulfill_spec(quantity),
{
}

/// Committing a reservation that covered its amount, on a level holding at
/// least that much stock, leaves the reservation as before the reserve and
/// the stock lowered by the amount.
pub proof fn law_commit_after_reserve(inv: InventoryLevel, quantity: i64)
    requires
        inv.reserved >= 0,
        quantity >= 0,
        inv.quantity >= quantity,
        fits_i64(inv.reserved + quantity),
        inv.after_reserve(quantity).1,
    ensures
        inv.after_reserve(quantity).0.after_commit(quantity) == (InventoryLevel {
            quantity: (inv.quantity - quantity) as i64,
            ..inv
        }),
{
}

/// Without tracking, every quantity can be fulfilled and the item is never out
/// of stock or low on stock.
pub proof fn law_untracked_unlimited(inv: InventoryLevel, quantity: i64)
    requires
        !inv.track_inventory,
    ensures
        inv.can_fulfill_spec(quantity),
        inv.after_reserve(quantity).1,
{
}

/// Reason for an inventory adjustment.
#[derive(Debug, Clone, Copy, PartialEq, Eq, Structural, Hash)]
pub enum AdjustmentReason {
    /// Sold to customer.
    Sale,
    /// Returned by customer.
    Return,
    /// Restocked from supplier.
    Restock,
    /// Manual correction.
    Correction,
    /// Reserved for pending order.
    Reserved,
    /// Released from reservation.
    Released,
    /// Damaged or lost.
    Shrinkage,
    /// Transferred to another location.
    Transfer,
}

/// The machine name of an adjustment reason.
pub open spec fn reason_name(r: AdjustmentReason) -> Seq<char> {
    match r {
        AdjustmentReason::Sale => "sale"@,
        AdjustmentReason::Return => "return"@,
        AdjustmentReason::Restock => "restock"@,
        AdjustmentReason::Correction => "correction"@,
        AdjustmentReason::Reserved => "reserved"@,
        AdjustmentReason::Released => "released"@,
        AdjustmentReason::Shrinkage => "shrinkage"@,
        AdjustmentReason::Transfer => "transfer"@,
    }
}

impl AdjustmentReason {
    /// The machine name (e.g. "restock").
    pub fn as_str(&self) -> (r: &'static str)
        ensures
            r@ == reason_name(*self),
    {
        match self {
            AdjustmentReason::Sale => "sale",
            AdjustmentReason::Return => "return",
            AdjustmentReason::Restock => "restock",
            AdjustmentReason::Correction => "correction",
            AdjustmentReason::Reserved => "reserved",
            AdjustmentReason::Released => "released",
            AdjustmentReason::Shrinkage => "shrinkage",
            AdjustmentReason::Transfer => "transfer",
        }
    }
}

/// An inventory adjustment record (for the audit trail).
#[derive(Debug, Clone)]
pub struct InventoryAdjustment {
    /// Variant that was adjusted.
    pub variant_id: VariantId,
    /// Change in quantity (positive or negative).
    pub quantity_change: i64,
    /// Reason for the adjustment.
    pub reason: AdjustmentReason,
    /// Reference ID (e.g., order ID).
    pub reference_id: Option<String>,
    /// Unix timestamp of adjustment.
    pub timestamp: i64,
}

impl InventoryAdjustment {
    /// A record of an adjustment made now, without reference.
    pub fn new(variant_id: VariantId, quantity_change: i64, reason: AdjustmentReason) -> (r: Self)
        ensures
            r.variant_id == variant_id,
            r.quantity_change == quantity_change,
            r.reason == reason,
            r.reference_id is None,
    {
        InventoryAdjustment {
            variant_id,
            quantity_change,
            reason,
            reference_id: None,
            timestamp: current_timestamp(),
        }
    }

    /// The record with a reference (e.g. an order ID).
    pub fn with_reference(self, reference_id: &str) -> (r: Self)
        ensures
            r.reference_id matches Some(x) && x@ == reference_id@,
            r == (InventoryAdjustment { reference_id: r.reference_id, ..self }),
    {
        InventoryAdjustment { reference_id: Some(reference_id.to_string()), ..self }
    }
}

/// Whether a quantity can be fulfilled, in terms of the level's data: an
/// untracked level or one that allows backorders fulfils (and so reserves) any
/// quantity; a tracked level without backorders fulfils exactly the quantities
/// that its unreserved stock covers.
pub proof fn law_fulfil_by_stock_or_backorder(inv: InventoryLevel, quantity: i64)
    ensures
        inv.allow_backorder ==> inv.can_fulfill_spec(quantity) && inv.after_reserve(quantity).1,
        inv.allow_backorder && fits_i64(inv.reserved + quantity) ==> inv.after_reserve(quantity).0
            == (InventoryLevel { reserved: (inv.reserved + quantity) as i64, ..inv }),
        !inv.track_inventory ==> inv.can_fulfill_spec(quantity),
        inv.quantity - inv.reserved >= quantity ==> inv.can_fulfill_spec(quantity),
        inv.track_inventory && !inv.allow_backorder && inv.quantity - inv.reserved < quantity
            ==> !inv.can_fulfill_spec(quantity) && inv.after_reserve(quantity) == (inv, false),
{
}

} // verus!
