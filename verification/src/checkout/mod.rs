//! Checkout: addresses, shipping, the checkout flow and orders.
pub mod address;
pub mod flow;
pub mod order;
pub mod shipping;

pub use self::address::Address;
pub use self::flow::{CheckoutFlow, CheckoutStep};
pub use self::order::{FinancialStatus, FulfillmentStatus, Order, OrderLineItem, OrderStatus};
pub use self::shipping::{ShippingMethod, ShippingSelection};
