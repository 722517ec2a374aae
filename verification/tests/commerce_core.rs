use turbocommerce::cart::AppliedDiscount;
use turbocommerce::error::CommerceError;
use turbocommerce::ids::{generate_id, id_from_draws, DiscountId};
use turbocommerce::time::timestamp_of;
use turbocommerce::cart::discount::{discount_is_exhausted, discount_is_valid, fixed_discount_amount};
use turbocommerce::time::current_timestamp;
use turbocommerce::arith::trunc_div;
use turbocommerce::cart::{Cart, CartPricing, LineItemPricing, MAX_QUANTITY_PER_ITEM};
use turbocommerce::ids::{LineItemId, ProductId, VariantId};
use turbocommerce::money::{Currency, Money};

#[test]
fn test_id_creation() {
    let id = ProductId::new("prod-123");
    assert_eq!(id.as_str(), "prod-123");
}

#[test]
fn test_id_generation() {
    let id1 = ProductId::generate();
    let id2 = ProductId::generate();
    assert_ne!(id1, id2);
}

#[test]
fn test_id_from_string() {
    let id: ProductId = "prod-456".into();
    assert_eq!(id.as_str(), "prod-456");
}

#[test]
fn test_id_display() {
    let id = ProductId::new("prod-789");
    assert_eq!(id.as_str(), "prod-789");
}

#[test]
fn test_id_equality() {
    let id1 = ProductId::new("same");
    let id2 = ProductId::new("same");
    let id3 = ProductId::new("different");

    assert_eq!(id1, id2);
    assert_ne!(id1, id3);
}

#[test]
fn generated_ids_are_lowercase_hex() {
    let id = ProductId::generate();
    assert!(!id.as_str().is_empty());
    assert!(id.as_str().chars().all(|c| c.is_ascii_digit() || ('a'..='f').contains(&c)));
}

#[test]
fn test_money_from_cents() {
    let m = Money::new(4999, Currency::USD);
    assert_eq!(m.amount_cents, 4999);
    assert_eq!(m.currency, Currency::USD);
}

#[test]
fn test_money_display() {
    let m = Money::new(4999, Currency::USD);
    assert_eq!(m.display(), "$49.99");

    let m = Money::new(100, Currency::JPY);
    assert_eq!(m.display(), "\u{00a5}100");
}

#[test]
fn money_display_negative_and_small_amounts() {
    assert_eq!(Money::new(-5, Currency::USD).display(), "$-0.05");
    assert_eq!(Money::new(7, Currency::EUR).display_amount(), "0.07");
    assert_eq!(Money::new(-250, Currency::GBP).display_amount(), "-2.50");
    assert_eq!(Money::new(0, Currency::USD).display(), "$0.00");
}

#[test]
fn test_money_addition() {
    let a = Money::new(1000, Currency::USD);
    let b = Money::new(500, Currency::USD);
    let c = a + b;
    assert_eq!(c.amount_cents, 1500);
}

#[test]
fn test_money_subtraction() {
    let a = Money::new(1000, Currency::USD);
    let b = Money::new(300, Currency::USD);
    let c = a.subtract(&b);
    assert_eq!(c.amount_cents, 700);
}

#[test]
fn test_money_multiply() {
    let m = Money::new(1000, Currency::USD);
    let doubled = m.multiply(2);
    assert_eq!(doubled.amount_cents, 2000);
}

#[test]
#[should_panic(expected = "Currency mismatch")]
fn test_money_currency_mismatch() {
    let usd = Money::new(1000, Currency::USD);
    let eur = Money::new(1000, Currency::EUR);
    let _ = usd + eur;
}

#[test]
fn test_currency_from_code() {
    assert_eq!(Currency::from_code("USD"), Some(Currency::USD));
    assert_eq!(Currency::from_code("eur"), Some(Currency::EUR));
    assert_eq!(Currency::from_code("INVALID"), None);
}

#[test]
fn money_try_operations() {
    let usd = Money::new(1000, Currency::USD);
    let eur = Money::new(1000, Currency::EUR);
    assert_eq!(usd.try_add(&eur), None);
    assert_eq!(usd.try_subtract(&eur), None);
    assert_eq!(usd.try_add(&usd), Some(Money::new(2000, Currency::USD)));
    assert_eq!(usd.try_multiply(i64::MAX), None);
    assert_eq!(usd.try_multiply(3), Some(Money::new(3000, Currency::USD)));
}

#[test]
fn money_sum_and_try_sum() {
    let items = vec![Money::new(100, Currency::USD), Money::new(250, Currency::USD)];
    assert_eq!(Money::sum(&items, Currency::USD), Money::new(350, Currency::USD));
    assert_eq!(Money::try_sum(&items, Currency::USD), Some(Money::new(350, Currency::USD)));
    let mixed = vec![Money::new(100, Currency::USD), Money::new(250, Currency::EUR)];
    assert_eq!(Money::try_sum(&mixed, Currency::USD), None);
    assert_eq!(Money::try_sum(&[], Currency::JPY), Some(Money::zero(Currency::JPY)));
}

#[test]
fn money_signs() {
    let m = Money::new(-300, Currency::USD);
    assert!(m.is_negative());
    assert!(!m.is_positive());
    assert_eq!(m.abs().amount_cents, 300);
    assert_eq!(m.negate().amount_cents, 300);
    assert!(Money::zero(Currency::USD).is_zero());
    assert_eq!(Money::default(), Money::new(0, Currency::USD));
}

#[test]
fn currency_details() {
    assert_eq!(Currency::JPY.decimal_places(), 0);
    assert_eq!(Currency::CAD.symbol(), "CA$");
    assert_eq!(Currency::MXN.code(), "MXN");
    assert_eq!(Currency::default(), Currency::USD);
}

#[test]
fn test_effective_unit_price() {
    let pricing = LineItemPricing {
        line_item_id: LineItemId::new("item-1"),
        unit_price: Money::new(1000, Currency::USD),
        quantity: 2,
        subtotal: Money::new(2000, Currency::USD),
        discount_amount: Money::new(200, Currency::USD),
        tax_amount: Money::zero(Currency::USD),
        total: Money::new(1800, Currency::USD),
    };

    assert_eq!(pricing.effective_unit_price().amount_cents, 900);
}

#[test]
fn effective_unit_price_rounds_toward_zero() {
    let pricing = LineItemPricing {
        line_item_id: LineItemId::new("item-2"),
        unit_price: Money::new(1000, Currency::USD),
        quantity: 3,
        subtotal: Money::new(3000, Currency::USD),
        discount_amount: Money::new(0, Currency::USD),
        tax_amount: Money::zero(Currency::USD),
        total: Money::new(-1000, Currency::USD),
    };
    assert_eq!(pricing.effective_unit_price().amount_cents, -333);
    let zero_qty = LineItemPricing { quantity: 0, ..pricing };
    assert_eq!(zero_qty.effective_unit_price().amount_cents, 1000);
    let _ = trunc_div;
}

#[test]
fn pricing_savings() {
    let pricing = CartPricing {
        subtotal: Money::new(10000, Currency::USD),
        discount_total: Money::new(1000, Currency::USD),
        shipping_total: Money::zero(Currency::USD),
        tax_total: Money::zero(Currency::USD),
        grand_total: Money::new(9000, Currency::USD),
        line_items: vec![],
    };
    assert!(pricing.has_discounts());
    assert_eq!(pricing.savings().amount_cents, 1000);
}

#[test]
fn test_cart_creation() {
    let cart = Cart::new("session-123");
    assert!(cart.is_empty());
    assert_eq!(cart.session_id, "session-123");
}

#[test]
fn test_add_item() {
    let mut cart = Cart::new("session-123");
    cart.add_item(
        VariantId::new("var-1"),
        ProductId::new("prod-1"),
        "Test Product",
        2,
        Money::new(1000, Currency::USD),
    )
    .unwrap();

    assert_eq!(cart.item_count(), 2);
    assert_eq!(cart.unique_item_count(), 1);
}

#[test]
fn test_add_same_item_increases_quantity() {
    let mut cart = Cart::new("session-123");
    let variant_id = VariantId::new("var-1");

    cart.add_item(
        variant_id.clone(),
        ProductId::new("prod-1"),
        "Test Product",
        1,
        Money::new(1000, Currency::USD),
    )
    .unwrap();

    cart.add_item(
        variant_id.clone(),
        ProductId::new("prod-1"),
        "Test Product",
        2,
        Money::new(1000, Currency::USD),
    )
    .unwrap();

    assert_eq!(cart.unique_item_count(), 1);
    assert_eq!(cart.item_count(), 3);
}

#[test]
fn test_update_quantity() {
    let mut cart = Cart::new("session-123");
    let line_id = cart
        .add_item(
            VariantId::new("var-1"),
            ProductId::new("prod-1"),
            "Test Product",
            1,
            Money::new(1000, Currency::USD),
        )
        .unwrap();

    cart.update_quantity(&line_id, 5).unwrap();
    assert_eq!(cart.item_count(), 5);
}

#[test]
fn test_remove_item() {
    let mut cart = Cart::new("session-123");
    let line_id = cart
        .add_item(
            VariantId::new("var-1"),
            ProductId::new("prod-1"),
            "Test Product",
            1,
            Money::new(1000, Currency::USD),
        )
        .unwrap();

    assert!(cart.remove_item(&line_id));
    assert!(cart.is_empty());
}

#[test]
fn test_pricing() {
    let mut cart = Cart::new("session-123");
    cart.add_item(
        VariantId::new("var-1"),
        ProductId::new("prod-1"),
        "Product A",
        2,
        Money::new(1000, Currency::USD),
    )
    .unwrap();
    cart.add_item(
        VariantId::new("var-2"),
        ProductId::new("prod-2"),
        "Product B",
        1,
        Money::new(2000, Currency::USD),
    )
    .unwrap();

    let pricing = cart.calculate_pricing().unwrap();
    assert_eq!(pricing.subtotal.amount_cents, 4000);
    assert_eq!(pricing.grand_total.amount_cents, 4000);
}

#[test]
fn test_quantity_limit() {
    let mut cart = Cart::new("session-123");
    let result = cart.add_item(
        VariantId::new("var-1"),
        ProductId::new("prod-1"),
        "Test Product",
        MAX_QUANTITY_PER_ITEM + 1,
        Money::new(1000, Currency::USD),
    );
    assert!(result.is_err());
}

#[test]
fn test_invalid_quantity() {
    let mut cart = Cart::new("session-123");
    let result = cart.add_item(
        VariantId::new("var-1"),
        ProductId::new("prod-1"),
        "Test Product",
        0,
        Money::new(1000, Currency::USD),
    );
    assert!(result.is_err());
}

#[test]
fn removing_an_added_line_restores_the_cart() {
    let mut cart = Cart::new("s");
    cart.add_item(VariantId::new("a"), ProductId::new("p"), "A", 1, Money::new(100, Currency::USD))
        .unwrap();
    let before = cart.item_count();
    let id = cart
        .add_item(VariantId::new("b"), ProductId::new("p"), "B", 4, Money::new(100, Currency::USD))
        .unwrap();
    assert_eq!(cart.item_count(), before + 4);
    assert!(cart.remove_item(&id));
    assert_eq!(cart.item_count(), before);
    assert_eq!(cart.unique_item_count(), 1);
}

#[test]
fn update_quantity_to_zero_removes_the_line() {
    let mut cart = Cart::new("s");
    let id = cart
        .add_item(VariantId::new("a"), ProductId::new("p"), "A", 3, Money::new(100, Currency::USD))
        .unwrap();
    assert!(matches!(cart.update_quantity(&id, 0), Ok(true)));
    assert!(cart.is_empty());
    assert!(matches!(cart.update_quantity(&id, 2), Ok(false)));
}

#[test]
fn one_line_per_variant_through_add_and_merge() {
    let price = Money::new(250, Currency::USD);
    let mut cart = Cart::new("s1");
    cart.add_item(VariantId::new("a"), ProductId::new("p"), "A", 1, price).unwrap();
    cart.add_item(VariantId::new("b"), ProductId::new("p"), "B", 1, price).unwrap();
    cart.add_item(VariantId::new("a"), ProductId::new("p"), "A", 2, price).unwrap();
    assert_eq!(cart.items.len(), 2);
    let mut other = Cart::new("s2");
    other.add_item(VariantId::new("b"), ProductId::new("p"), "B", 5, price).unwrap();
    other.add_item(VariantId::new("c"), ProductId::new("p"), "C", 1, price).unwrap();
    cart.merge(other).unwrap();
    assert_eq!(cart.items.len(), 3);
    for (i, x) in cart.items.iter().enumerate() {
        for y in cart.items.iter().skip(i + 1) {
            assert_ne!(x.variant_id, y.variant_id);
        }
    }
    assert_eq!(cart.get_item_by_variant(&VariantId::new("a")).unwrap().quantity, 3);
    assert_eq!(cart.get_item_by_variant(&VariantId::new("b")).unwrap().quantity, 6);
    assert_eq!(cart.item_count(), 10);
}

#[test]
fn test_fixed_discount() {
    let amount = fixed_discount_amount(&Money::new(500, Currency::USD), &Money::new(10000, Currency::USD));
    assert_eq!(amount.amount_cents, 500);
}

#[test]
fn test_fixed_discount_capped() {
    let amount = fixed_discount_amount(&Money::new(10000, Currency::USD), &Money::new(5000, Currency::USD));
    // Capped at subtotal
    assert_eq!(amount.amount_cents, 5000);
}

#[test]
fn test_discount_validity() {
    let now = current_timestamp();
    assert!(discount_is_valid(true, None, None, None, 0, now));
    assert!(!discount_is_valid(false, None, None, None, 0, now));
}

#[test]
fn test_discount_usage_limit() {
    let now = current_timestamp();
    assert!(discount_is_valid(true, None, None, Some(5), 4, now));
    assert!(!discount_is_valid(true, None, None, Some(5), 5, now));
    assert!(discount_is_exhausted(Some(5), 5));
    assert!(!discount_is_exhausted(None, 500));
}

#[test]
fn failed_add_leaves_the_cart_unchanged() {
    let mut cart = Cart::new("s1");
    let big = Money::new(i64::MAX, Currency::USD);
    cart.add_item(VariantId::new("v"), ProductId::new("p"), "Big", 1, big).unwrap();
    assert!(cart.add_item(VariantId::new("v"), ProductId::new("p"), "Big", 1, big).is_err());
    assert_eq!(cart.items.len(), 1);
    assert_eq!(cart.items[0].quantity, 1);
    assert_eq!(cart.items[0].total_price.amount_cents, i64::MAX);
    let id = cart.items[0].id.clone();
    assert!(cart.update_quantity(&id, 3).is_err());
    assert_eq!(cart.items[0].quantity, 1);
}

#[test]
fn checked_money_arithmetic_refuses_overflow() {
    let max = Money::new(i64::MAX, Currency::USD);
    let one = Money::new(1, Currency::USD);
    assert_eq!(max.try_add(&one), None);
    assert_eq!(Money::new(i64::MIN, Currency::USD).try_subtract(&one), None);
    let c = Money::new(700, Currency::USD).try_add(&Money::new(300, Currency::USD)).unwrap();
    assert_eq!(c.try_subtract(&Money::new(300, Currency::USD)), Some(Money::new(700, Currency::USD)));
}

#[test]
fn pricing_overflow_of_grand_total_is_an_error() {
    let mut cart = Cart::new("s");
    cart.add_item(VariantId::new("v"), ProductId::new("p"), "Big", 1, Money::new(i64::MAX, Currency::USD)).unwrap();
    cart.apply_discount(AppliedDiscount {
        discount_id: DiscountId::new("d"),
        code: "NEG".to_string(),
        description: "negative".to_string(),
        amount: Money::new(-1, Currency::USD),
    });
    assert!(matches!(cart.calculate_pricing(), Err(CommerceError::Overflow)));
}

#[test]
fn clock_and_draw_conversions() {
    assert_eq!(timestamp_of(Some(1_700_000_000)), 1_700_000_000);
    assert_eq!(timestamp_of(None), 0);
    assert_eq!(timestamp_of(Some(u64::MAX)), -1);
    assert_eq!(id_from_draws(Some(0xff), 0x0f), "f0");
    assert_eq!(id_from_draws(None, 0xabc), "abc");
    assert_eq!(id_from_draws(Some((1u128 << 64) + 5), 0), "5");
    let id = generate_id();
    assert!(!id.is_empty() && id.chars().all(|c| c.is_ascii_hexdigit() && !c.is_ascii_uppercase()));
}
