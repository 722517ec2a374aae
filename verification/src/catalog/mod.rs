//! Product catalog: products, variants, categories and inventory.
pub mod category;
pub mod inventory;
pub mod product;

pub use self::category::Category;
pub use self::inventory::{AdjustmentReason, InventoryAdjustment, InventoryLevel};
pub use self::product::{MediaType, Product, ProductMedia, ProductStatus, ProductType, ProductVariant, VariantOption};
