//! Shopping cart: line items, pricing and applied discounts.
pub mod cart;
pub mod discount;
pub mod pricing;

pub use self::cart::{Cart, LineItem, LineItemProperty, MAX_QUANTITY_PER_ITEM};
pub use self::discount::{AppliedDiscount, DiscountCondition, DiscountType};
pub use self::pricing::{CartPricing, LineItemPricing};
