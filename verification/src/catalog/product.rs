//! Products, variants, options and media.
use vstd::prelude::*;
use crate::catalog::inventory::InventoryLevel;
use crate::ids::{CategoryId, MediaId, ProductId, VariantId};
use crate::money::Money;
use crate::platform::{ascii_lower, ascii_upper, empty_json_object, is_ascii_text, spec_to_lowercase, to_lowercase};
use crate::text::{join, join_strings, str_eq, string_views};
use crate::time::current_timestamp;

verus! {

/// Product status in the catalog.
#[derive(Debug, Clone, Copy, PartialEq, Eq, Structural, Hash)]
pub enum ProductStatus {
    /// Product is in draft mode, not visible to customers.
    Draft,
    /// Product is active and visible.
    Active,
    /// Product is archived, not visible but data preserved.
    Archived,
}

/// The machine name of a product status.
pub open spec fn product_status_name(s: ProductStatus) -> Seq<char> {
    match s {
        ProductStatus::Draft => "draft"@,
        ProductStatus::Active => "active"@,
        ProductStatus::Archived => "archived"@,
    }
}

/// The product status with exactly this machine name.
pub open spec fn product_status_named(s: Seq<char>) -> Option<ProductStatus> {
    if s == "draft"@ {
        Some(ProductStatus::Draft)
    } else if s == "active"@ {
        Some(ProductStatus::Active)
    } else if s == "archived"@ {
        Some(ProductStatus::Archived)
    } else {
        None
    }
}

impl ProductStatus {
    /// The machine name (e.g. "active").
    pub fn as_str(&self) -> (r: &'static str)
        ensures
            r@ == product_status_name(*self),
    {
        match self {
            ProductStatus::Draft => "draft",
            ProductStatus::Active => "active",
            ProductStatus::Archived => "archived",
        }
    }

    /// Parse a status name, ignoring case.
    pub fn from_str(s: &str) -> (r: Option<Self>)
        ensures
            r == product_status_named(spec_to_lowercase(s@)),
            is_ascii_text(s@) ==> r == product_status_named(ascii_lower(s@)),
    {
        let lower = to_lowercase(s);
        let l = lower.as_str();
        if str_eq(l, "draft") {
            Some(ProductStatus::Draft)
        } else if str_eq(l, "active") {
            Some(ProductStatus::Active)
        } else if str_eq(l, "archived") {
            Some(ProductStatus::Archived)
        } else {
            None
        }
    }
}

impl Default for ProductStatus {
    fn default() -> (r: Self)
        ensures
            r == ProductStatus::Active,
    {
        ProductStatus::Active
    }
}

/// Product type classification.
#[derive(Debug, Clone, Copy, PartialEq, Eq, Structural, Hash)]
pub enum ProductType {
    /// Simple product with no variants.
    Simple,
    /// Product with variants (e.g., size, color).
    Variable,
    /// Bundle of multiple products.
    Bundle,
    /// Digital/downloadable product.
    Digital,
}

/// The machine name of a product type.
pub open spec fn product_type_name(t: ProductType) -> Seq<char> {
    match t {
        ProductType::Simple => "simple"@,
        ProductType::Variable => "variable"@,
        ProductType::Bundle => "bundle"@,
        ProductType::Digital => "digital"@,
    }
}

/// The product type with exactly this machine name.
pub open spec fn product_type_named(s: Seq<char>) -> Option<ProductType> {
    if s == "simple"@ {
        Some(ProductType::Simple)
    } else if s == "variable"@ {
        Some(ProductType::Variable)
    } else if s == "bundle"@ {
        Some(ProductType::Bundle)
    } else if s == "digital"@ {
        Some(ProductType::Digital)
    } else {
        None
    }
}

impl ProductType {
    /// The machine name (e.g. "simple").
    pub fn as_str(&self) -> (r: &'static str)
        ensures
            r@ == product_type_name(*self),
    {
        match self {
            ProductType::Simple => "simple",
            ProductType::Variable => "variable",
            ProductType::Bundle => "bundle",
            ProductType::Digital => "digital",
        }
    }

    /// Parse a type name, ignoring case.
    pub fn from_str(s: &str) -> (r: Option<Self>)
        ensures
            r == product_type_named(spec_to_lowercase(s@)),
            is_ascii_text(s@) ==> r == product_type_named(ascii_lower(s@)),
    {
        let lower = to_lowercase(s);
        let l = lower.as_str();
        if str_eq(l, "simple") {
            Some(ProductType::Simple)
        } else if str_eq(l, "variable") {
            Some(ProductType::Variable)
        } else if str_eq(l, "bundle") {
            Some(ProductType::Bundle)
        } else if str_eq(l, "digital") {
            Some(ProductType::Digital)
        } else {
            None
        }
    }
}

impl Default for ProductType {
    fn default() -> (r: Self)
        ensures
            r == ProductType::Simple,
    {
        ProductType::Simple
    }
}

/// A product in the catalog.
#[derive(Debug, Clone)]
pub struct Product {
    /// Unique product identifier.
    pub id: ProductId,
    /// Stock keeping unit (unique).
    pub sku: String,
    /// Product name.
    pub name: String,
    /// URL-friendly slug (unique).
    pub slug: String,
    /// Full description (may contain HTML/markdown).
    pub description: Option<String>,
    /// Short description for listings.
    pub short_description: Option<String>,
    /// Product visibility status.
    pub status: ProductStatus,
    /// Type of product.
    pub product_type: ProductType,
    /// Categories this product belongs to.
    pub category_ids: Vec<CategoryId>,
    /// Tags for filtering/search.
    pub tags: Vec<String>,
    /// ID of the default variant (for variable products).
    pub default_variant_id: Option<VariantId>,
    /// Additional metadata as JSON.
    pub metadata: serde_json::Value,
    /// Unix timestamp of creation.
    pub created_at: i64,
    /// Unix timestamp of last update.
    pub updated_at: i64,
}

impl Product {
    /// A new active simple product with a fresh identifier.
    pub fn new(sku: &str, name: &str, slug: &str) -> (r: Self)
        ensures
            r.sku@ == sku@,
            r.name@ == name@,
            r.slug@ == slug@,
            r.description is None,
            r.short_description is None,
            r.status == ProductStatus::Active,
            r.product_type == ProductType::Simple,
            r.category_ids@.len() == 0,
            r.tags@.len() == 0,
            r.default_variant_id is None,
            r.created_at == r.updated_at,
    {
        let now = current_timestamp();
        Product {
            id: ProductId::generate(),
            sku: sku.to_string(),
            name: name.to_string(),
            slug: slug.to_string(),
            description: None,
            short_description: None,
            status: ProductStatus::Active,
            product_type: ProductType::Simple,
            category_ids: Vec::new(),
            tags: Vec::new(),
            default_variant_id: None,
            metadata: empty_json_object(),
            created_at: now,
            updated_at: now,
        }
    }

    /// Whether the product can be bought (it is active).
    pub fn is_available(&self) -> (r: bool)
        ensures
            r == (self.status == ProductStatus::Active),
    {
        self.status == ProductStatus::Active
    }

    /// Whether the product has variants.
    pub fn has_variants(&self) -> (r: bool)
        ensures
            r == (self.product_type == ProductType::Variable),
    {
        self.product_type == ProductType::Variable
    }

    /// Whether the product is digital.
    pub fn is_digital(&self) -> (r: bool)
        ensures
            r == (self.product_type == ProductType::Digital),
    {
        self.product_type == ProductType::Digital
    }

    /// Add a category unless the product already has one with the same identifier.
    pub fn add_category(&mut self, category_id: CategoryId)
        ensures
            category_views(final(self).category_ids@) == if category_views(
                old(self).category_ids@,
            ).contains(category_id@) {
                category_views(old(self).category_ids@)
            } else {
                category_views(old(self).category_ids@).push(category_id@)
            },
            *final(self) == (Product { category_ids: final(self).category_ids, ..*old(self) }),
    {
        let mut i: usize = 0;
        while i < self.category_ids.len()
            invariant
                i <= self.category_ids@.len(),
                forall|j: int| 0 <= j < i ==> category_views(self.category_ids@)[j] != category_id@,
            decreases self.category_ids@.len() - i,
        {
            if self.category_ids[i] == category_id {
                assert(category_views(self.category_ids@)[i as int] == category_id@);
                return;
            }
            i = i + 1;
        }
        let ghost before = self.category_ids@;
        self.category_ids.push(category_id);
        assert(category_views(self.category_ids@) =~= category_views(before).push(category_id@));
    }

    /// Add a tag unless the product already has it.
    pub fn add_tag(&mut self, tag: &str)
        ensures
            string_views(final(self).tags@) == if string_views(old(self).tags@).contains(tag@) {
                string_views(old(self).tags@)
            } else {
                string_views(old(self).tags@).push(tag@)
            },
            *final(self) == (Product { tags: final(self).tags, ..*old(self) }),
    {
        let mut i: usize = 0;
        while i < self.tags.len()
            invariant
                i <= self.tags@.len(),
                forall|j: int| 0 <= j < i ==> string_views(self.tags@)[j] != tag@,
            decreases self.tags@.len() - i,
        {
            if str_eq(self.tags[i].as_str(), tag) {
                assert(string_views(self.tags@)[i as int] == tag@);
                return;
            }
            i = i + 1;
        }
        self.tags.push(tag.to_string());
        assert(string_views(self.tags@) =~= string_views(old(self).tags@).push(tag@));
    }
}

/// The identifier texts of a list of categories.
pub open spec fn category_views(ids: Seq<CategoryId>) -> Seq<Seq<char>> {
    ids.map_values(|c: CategoryId| c@)
}

/// A variant option (e.g., Size: Large).
#[derive(Debug, Clone)]
pub struct VariantOption {
    /// Option name (e.g., "Size", "Color").
    pub name: String,
    /// Option value (e.g., "Large", "Blue").
    pub value: String,
}

impl VariantOption {
    /// A new option.
    pub fn new(name: &str, value: &str) -> (r: Self)
        ensures
            r.name@ == name@,
            r.value@ == value@,
    {
        VariantOption { name: name.to_string(), value: value.to_string() }
    }
}

/// The values of options, in order.
pub open spec fn option_values(options: Seq<VariantOption>) -> Seq<Seq<char>> {
    options.map_values(|o: VariantOption| o.value@)
}

/// A product variant (e.g., size/color combination).
#[derive(Debug, Clone)]
pub struct ProductVariant {
    /// Unique variant identifier.
    pub id: VariantId,
    /// Parent product ID.
    pub product_id: ProductId,
    /// Stock keeping unit for this variant (unique).
    pub sku: String,
    /// Variant name (e.g., "Large / Blue").
    pub name: Option<String>,
    /// Price of this variant.
    pub price: Money,
    /// Compare-at price (original price for showing discounts).
    pub compare_at_price: Option<Money>,
    /// Cost price (for profit calculations).
    pub cost: Option<Money>,
    /// Options that define this variant.
    pub options: Vec<VariantOption>,
    /// Weight in grams (for shipping).
    pub weight_grams: Option<i64>,
    /// Inventory level.
    pub inventory: InventoryLevel,
    /// Media/images for this variant.
    pub images: Vec<MediaId>,
    /// Sort order position.
    pub position: i32,
    /// Unix timestamp of creation.
    pub created_at: i64,
    /// Unix timestamp of last update.
    pub updated_at: i64,
}

impl ProductVariant {
    /// A new variant with a fresh identifier and untracked, empty inventory.
    pub fn new(product_id: ProductId, sku: &str, price: Money) -> (r: Self)
        ensures
            r.product_id == product_id,
            r.sku@ == sku@,
            r.name is None,
            r.price == price,
            r.compare_at_price is None,
            r.cost is None,
            r.options@.len() == 0,
            r.weight_grams is None,
            r.inventory == (InventoryLevel {
                quantity: 0,
                reserved: 0,
                track_inventory: false,
                allow_backorder: false,
                low_stock_threshold: None,
            }),
            r.images@.len() == 0,
            r.position == 0,
            r.created_at == r.updated_at,
    {
        let now = current_timestamp();
        ProductVariant {
            id: VariantId::generate(),
            product_id,
            sku: sku.to_string(),
            name: None,
            price,
            compare_at_price: None,
            cost: None,
            options: Vec::new(),
            weight_grams: None,
            inventory: InventoryLevel::default(),
            images: Vec::new(),
            position: 0,
            created_at: now,
            updated_at: now,
        }
    }

    /// Whether the variant is in stock.
    pub fn is_in_stock(&self) -> (r: bool)
        requires
            self.inventory.track_inventory ==> self.inventory.available_fits(),
        ensures
            r == (!self.inventory.track_inventory || self.inventory.spec_available() > 0
                || self.inventory.allow_backorder),
    {
        self.inventory.is_available()
    }

    /// Whether the variant is on sale: its compare-at price is above its price.
    pub fn is_on_sale(&self) -> (r: bool)
        ensures
            r == (self.compare_at_price matches Some(c) && c.amount_cents > self.price.amount_cents),
    {
        match self.compare_at_price {
            Some(cap) => cap.amount_cents > self.price.amount_cents,
            None => false,
        }
    }

    /// The variant name built from its option values ("Default" without options).
    pub fn build_name(&self) -> (r: String)
        ensures
            self.options@.len() == 0 ==> r@ == "Default"@,
            self.options@.len() > 0 ==> r@ == join(option_values(self.options@), " / "@),
    {
        if self.options.len() == 0 {
            return "Default".to_string();
        }
        let mut values: Vec<String> = Vec::new();
        let mut i: usize = 0;
        while i < self.options.len()
            invariant
                i <= self.options@.len(),
                string_views(values@) =~= option_values(self.options@.take(i as int)),
            decreases self.options@.len() - i,
        {
            let v = self.options[i].value.clone();
            proof {
                assert(v@ == self.options@[i as int].value@);
            }
            let ghost prev = values@;
            values.push(v);
            proof {
                assert(string_views(values@) =~= string_views(prev).push(v@));
                assert(self.options@.take(i + 1) =~= self.options@.take(i as int).push(
                    self.options@[i as int],
                ));
                assert(option_values(self.options@.take(i + 1)) =~= option_values(
                    self.options@.take(i as int),
                ).push(v@));
            }
            i = i + 1;
        }
        assert(self.options@.take(i as int) =~= self.options@);
        join_strings(&values, " / ")
    }

    /// Add an option.
    pub fn add_option(&mut self, name: &str, value: &str)
        ensures
            final(self).options@.len() == old(self).options@.len() + 1,
            final(self).options@.drop_last() == old(self).options@,
            final(self).options@.last().name@ == name@,
            final(self).options@.last().value@ == value@,
            *final(self) == (ProductVariant { options: final(self).options, ..*old(self) }),
    {
        self.options.push(VariantOption { name: name.to_string(), value: value.to_string() });
        assert(self.options@.drop_last() =~= old(self).options@);
    }
}

/// Media type for product images/videos.
#[derive(Debug, Clone, Copy, PartialEq, Eq, Structural, Hash)]
pub enum MediaType {
    Image,
    Video,
    Model3d,
}

/// The machine name of a media type.
pub open spec fn media_type_name(t: MediaType) -> Seq<char> {
    match t {
        MediaType::Image => "image"@,
        MediaType::Video => "video"@,
        MediaType::Model3d => "model3d"@,
    }
}

impl MediaType {
    /// The machine name (e.g. "image").
    pub fn as_str(&self) -> (r: &'static str)
        ensures
            r@ == media_type_name(*self),
    {
        match self {
            MediaType::Image => "image",
            MediaType::Video => "video",
            MediaType::Model3d => "model3d",
        }
    }
}

impl Default for MediaType {
    fn default() -> (r: Self)
        ensures
            r == MediaType::Image,
    {
        MediaType::Image
    }
}

/// Product media (image, video, 3D model).
#[derive(Debug, Clone)]
pub struct ProductMedia {
    /// Unique media identifier.
    pub id: MediaId,
    /// Parent product ID.
    pub product_id: ProductId,
    /// Variants this media is associated with.
    pub variant_ids: Vec<VariantId>,
    /// Type of media.
    pub media_type: MediaType,
    /// URL to the media file.
    pub url: String,
    /// Alt text for accessibility.
    pub alt_text: Option<String>,
    /// Sort order position.
    pub position: i32,
    /// Image width in pixels.
    pub width: Option<i32>,
    /// Image height in pixels.
    pub height: Option<i32>,
}

impl ProductMedia {
    /// A new image of a product, with a fresh identifier.
    pub fn new_image(product_id: ProductId, url: &str) -> (r: Self)
        ensures
            r.product_id == product_id,
            r.variant_ids@.len() == 0,
            r.media_type == MediaType::Image,
            r.url@ == url@,
            r.alt_text is None,
            r.position == 0,
            r.width is None,
            r.height is None,
    {
        ProductMedia {
            id: MediaId::generate(),
            product_id,
            variant_ids: Vec::new(),
            media_type: MediaType::Image,
            url: url.to_string(),
            alt_text: None,
            position: 0,
            width: None,
            height: None,
        }
    }
}

/// A status name is ASCII, and parsing it, in lower or upper case, gives back
/// the status: `from_str(s.as_str())` and `from_str` of its upper-case form
/// are both `Some(s)`.
pub proof fn law_status_name_round_trip(st: ProductStatus)
    ensures
        is_ascii_text(product_status_name(st)),
        is_ascii_text(ascii_upper(product_status_name(st))),
        product_status_named(ascii_lower(product_status_name(st))) == Some(st),
        product_status_named(ascii_lower(ascii_upper(product_status_name(st)))) == Some(st),
{
    reveal_strlit("draft");
    reveal_strlit("active");
    reveal_strlit("archived");
    let n = product_status_name(st);
    assert(ascii_lower(n) =~= n);
    assert(ascii_lower(ascii_upper(n)) =~= n);
}

/// A type name is ASCII, and parsing it, in lower or upper case, gives back
/// the type.
pub proof fn law_type_name_round_trip(t: ProductType)
    ensures
        is_ascii_text(product_type_name(t)),
        is_ascii_text(ascii_upper(product_type_name(t))),
        product_type_named(ascii_lower(product_type_name(t))) == Some(t),
        product_type_named(ascii_lower(ascii_upper(product_type_name(t)))) == Some(t),
{
    reveal_strlit("simple");
    reveal_strlit("variable");
    reveal_strlit("bundle");
    reveal_strlit("digital");
    assert("bundle"@ != "simple"@) by {
        assert("bundle"@[0] != "simple"@[0]);
    }
    let n = product_type_name(t);
    assert(ascii_lower(n) =~= n);
    assert(ascii_lower(ascii_upper(n)) =~= n);
}

} // verus!
