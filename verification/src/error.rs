//! Error type of the commerce domain.
use vstd::prelude::*;

verus! {

/// Errors that can occur in e-commerce operations.
#[derive(Debug)]
pub enum CommerceError {
    /// Product not found.
    ProductNotFound(String),
    /// Variant not found.
    VariantNotFound(String),
    /// Category not found.
    CategoryNotFound(String),
    /// Cart not found.
    CartNotFound(String),
    /// Order not found.
    OrderNotFound(String),
    /// Item not in cart.
    ItemNotInCart(String),
    /// Insufficient inventory.
    InsufficientInventory { product_id: String, requested: i64, available: i64 },
    /// Invalid quantity.
    InvalidQuantity(i64),
    /// Invalid checkout state transition.
    InvalidCheckoutTransition { from: String, to: String },
    /// Checkout incomplete.
    CheckoutIncomplete(String),
    /// Invalid discount code.
    InvalidDiscountCode(String),
    /// Discount expired.
    DiscountExpired(String),
    /// Discount usage limit reached.
    DiscountUsageLimitReached(String),
    /// Currency mismatch.
    CurrencyMismatch { expected: String, got: String },
    /// Arithmetic overflow.
    Overflow,
    /// Quantity exceeds maximum allowed.
    QuantityExceedsLimit(i64, i64),
    /// Database error.
    DatabaseError(String),
    /// Cache error.
    CacheError(String),
    /// Serialization error.
    SerializationError(String),
    /// Validation error.
    ValidationError(String),
}

} // verus!
