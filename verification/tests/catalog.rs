use turbocommerce::catalog::{Category, InventoryLevel, Product, ProductStatus, ProductType, ProductVariant};
use turbocommerce::ids::{CategoryId, ProductId};
use turbocommerce::money::{Currency, Money};

#[test]
fn test_root_category() {
    let cat = Category::new_root("Electronics", "electronics");
    assert!(cat.is_root());
    assert_eq!(cat.level, 0);
    assert_eq!(cat.name, "Electronics");
}

#[test]
fn test_child_category() {
    let parent = Category::new_root("Electronics", "electronics");
    let child = Category::new_child(&parent, "Phones", "phones");

    assert!(!child.is_root());
    assert_eq!(child.level, 1);
    assert!(child.path.contains(&parent.id.as_str().to_string()));
}

#[test]
fn test_hierarchy() {
    let root = Category::new_root("Root", "root");
    let child = Category::new_child(&root, "Child", "child");
    let grandchild = Category::new_child(&child, "Grandchild", "grandchild");

    assert!(root.is_ancestor_of(&child));
    assert!(root.is_ancestor_of(&grandchild));
    assert!(child.is_ancestor_of(&grandchild));

    assert!(child.is_descendant_of(&root));
    assert!(grandchild.is_descendant_of(&root));
    assert!(grandchild.is_descendant_of(&child));

    assert!(!root.is_ancestor_of(&root));
    assert!(!child.is_ancestor_of(&root));
}

#[test]
fn category_paths_and_depth() {
    let root = Category::new_root("Root", "root");
    let child = Category::new_child(&root, "Child", "child");
    let grandchild = Category::new_child(&child, "Grandchild", "grandchild");
    assert_eq!(root.depth(), 0);
    assert_eq!(grandchild.depth(), 2);
    let path = grandchild.path_ids();
    assert_eq!(path, vec![root.id.clone(), child.id.clone(), grandchild.id.clone()]);
    assert_eq!(grandchild.ancestor_ids(), vec![root.id.clone(), child.id.clone()]);
}

#[test]
fn test_inventory_availability() {
    let mut inv = InventoryLevel::new(10);
    assert!(inv.is_available());
    assert!(inv.can_fulfill(10));
    assert!(!inv.can_fulfill(11));

    inv.reserve(5);
    assert_eq!(inv.available(), 5);
    assert!(inv.can_fulfill(5));
    assert!(!inv.can_fulfill(6));
}

#[test]
fn test_inventory_reserve_release() {
    let mut inv = InventoryLevel::new(10);

    assert!(inv.reserve(3));
    assert_eq!(inv.reserved, 3);
    assert_eq!(inv.available(), 7);

    inv.release(2);
    assert_eq!(inv.reserved, 1);
    assert_eq!(inv.available(), 9);
}

#[test]
fn test_inventory_commit() {
    let mut inv = InventoryLevel::new(10);
    inv.reserve(3);
    inv.commit(3);

    assert_eq!(inv.quantity, 7);
    assert_eq!(inv.reserved, 0);
}

#[test]
fn test_untracked_inventory() {
    let inv = InventoryLevel::untracked();
    assert!(inv.is_available());
    assert!(inv.can_fulfill(1000));
    assert!(!inv.is_out_of_stock());
}

#[test]
fn test_low_stock() {
    let mut inv = InventoryLevel::new(5);
    inv.low_stock_threshold = Some(10);

    assert!(inv.is_low_stock());

    inv.quantity = 15;
    assert!(!inv.is_low_stock());
}

#[test]
fn release_never_goes_below_zero_and_refused_reserve_changes_nothing() {
    let mut inv = InventoryLevel::new(2);
    assert!(!inv.reserve(3));
    assert_eq!(inv.reserved, 0);
    inv.release(5);
    assert_eq!(inv.reserved, 0);
    inv.adjust(-10);
    assert_eq!(inv.quantity, 0);
    inv.restock(4);
    assert_eq!(inv.quantity, 4);
}

#[test]
fn test_product_creation() {
    let product = Product::new("SKU-001", "Test Product", "test-product");
    assert_eq!(product.sku, "SKU-001");
    assert_eq!(product.name, "Test Product");
    assert!(product.is_available());
}

#[test]
fn test_variant_creation() {
    let product_id = ProductId::generate();
    let variant = ProductVariant::new(product_id.clone(), "SKU-001-L", Money::new(2999, Currency::USD));
    assert_eq!(variant.product_id, product_id);
    assert_eq!(variant.price.amount_cents, 2999);
}

#[test]
fn test_variant_options() {
    let product_id = ProductId::generate();
    let mut variant = ProductVariant::new(product_id, "SKU-001-L-BL", Money::new(2999, Currency::USD));
    variant.add_option("Size", "Large");
    variant.add_option("Color", "Blue");

    assert_eq!(variant.build_name(), "Large / Blue");
}

#[test]
fn variant_without_options_is_named_default() {
    let variant = ProductVariant::new(ProductId::new("p"), "S", Money::new(1, Currency::USD));
    assert_eq!(variant.build_name(), "Default");
}

#[test]
fn variant_on_sale_compares_prices() {
    let mut variant = ProductVariant::new(ProductId::new("p"), "SKU-001", Money::new(2000, Currency::USD));
    assert!(!variant.is_on_sale());
    variant.compare_at_price = Some(Money::new(3000, Currency::USD));
    assert!(variant.is_on_sale());
    variant.compare_at_price = Some(Money::new(2000, Currency::USD));
    assert!(!variant.is_on_sale());
}

#[test]
fn product_categories_and_tags_are_not_repeated() {
    let mut product = Product::new("S", "N", "n");
    product.add_category(CategoryId::new("c1"));
    product.add_category(CategoryId::new("c1"));
    product.add_category(CategoryId::new("c2"));
    assert_eq!(product.category_ids, vec![CategoryId::new("c1"), CategoryId::new("c2")]);
    product.add_tag("sale");
    product.add_tag("sale");
    assert_eq!(product.tags, vec!["sale".to_string()]);
}

#[test]
fn product_status_and_type_names() {
    assert_eq!(ProductStatus::from_str("ARCHIVED"), Some(ProductStatus::Archived));
    assert_eq!(ProductStatus::from_str("gone"), None);
    assert_eq!(ProductType::from_str("Digital"), Some(ProductType::Digital));
    assert_eq!(ProductType::Variable.as_str(), "variable");
    assert_eq!(ProductStatus::default(), ProductStatus::Active);
}

#[test]
fn ancestry_goes_by_whole_path_segments() {
    let mut a = Category::new_root("A", "a");
    a.id = CategoryId::new("ab");
    a.path = "ab".to_string();
    let mut b = Category::new_root("B", "b");
    b.id = CategoryId::new("abc");
    b.path = "abc".to_string();
    assert!(!a.is_ancestor_of(&b));
    assert!(!b.is_descendant_of(&a));
    let mut c = Category::new_root("C", "c");
    c.id = CategoryId::new("x");
    c.path = "ab/x".to_string();
    assert!(a.is_ancestor_of(&c));
    assert!(c.is_descendant_of(&a));
    assert!(!b.is_ancestor_of(&c));
}

#[test]
fn new_child_extends_parent_ids_and_depth() {
    let root = Category::new_root("Root", "root");
    let child = Category::new_child(&root, "Child", "child");
    assert_eq!(child.ancestor_ids(), root.path_ids());
    let mut expected = root.path_ids();
    expected.push(child.id.clone());
    assert_eq!(child.path_ids(), expected);
    assert_eq!(child.depth(), root.depth() + 1);
    assert!(!child.is_root());
    assert_eq!(child.level, root.level + 1);
}

#[test]
fn status_and_type_names_round_trip() {
    for st in [ProductStatus::Draft, ProductStatus::Active, ProductStatus::Archived] {
        assert_eq!(ProductStatus::from_str(st.as_str()), Some(st));
        assert_eq!(ProductStatus::from_str(&st.as_str().to_uppercase()), Some(st));
    }
    for t in [ProductType::Simple, ProductType::Variable, ProductType::Bundle, ProductType::Digital] {
        assert_eq!(ProductType::from_str(t.as_str()), Some(t));
        assert_eq!(ProductType::from_str(&t.as_str().to_uppercase()), Some(t));
    }
    assert_eq!(ProductStatus::from_str("pending"), None);
}
