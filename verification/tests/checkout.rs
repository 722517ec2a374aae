use turbocommerce::checkout::{Address, CheckoutFlow, CheckoutStep, Order, OrderStatus, ShippingMethod, ShippingSelection};
use turbocommerce::error::CommerceError;
use turbocommerce::ids::CartId;
use turbocommerce::money::{Currency, Money};

#[test]
fn test_address_creation() {
    let addr = Address::new("John", "Doe", "123 Main St", "San Francisco", "United States", "US", "94102");
    assert_eq!(addr.full_name(), "John Doe");
    assert!(addr.is_complete());
}

#[test]
fn test_address_formatting() {
    let mut addr = Address::new("Jane", "Smith", "456 Oak Ave", "Los Angeles", "United States", "US", "90001");
    addr.province_code = Some("CA".to_string());

    assert!(addr.one_line().contains("Los Angeles"));
    assert!(addr.one_line().contains("CA"));
}

#[test]
fn address_one_line_exact() {
    let mut addr = Address::new("Jane", "Smith", "456 Oak Ave", "Los Angeles", "United States", "US", "90001");
    addr.province_code = Some("CA".to_string());
    assert_eq!(addr.one_line(), "456 Oak Ave, Los Angeles, CA, 90001, US");
}

#[test]
fn test_checkout_creation() {
    let flow = CheckoutFlow::new(CartId::new("cart-123"));
    assert_eq!(flow.step, CheckoutStep::Cart);
    assert!(flow.completed_steps.is_empty());
}

#[test]
fn test_checkout_advance() {
    let mut flow = CheckoutFlow::new(CartId::new("cart-123"));

    assert!(flow.advance().is_ok());
    assert_eq!(flow.step, CheckoutStep::Information);

    flow.set_email("test@example.com");
    assert!(flow.advance().is_ok());
    assert_eq!(flow.step, CheckoutStep::Shipping);
}

#[test]
fn test_checkout_requires_data() {
    let mut flow = CheckoutFlow::new(CartId::new("cart-123"));
    flow.step = CheckoutStep::Information;

    assert!(flow.advance().is_err());

    flow.set_email("test@example.com");
    assert!(flow.advance().is_ok());
}

#[test]
fn test_checkout_go_back() {
    let mut flow = CheckoutFlow::new(CartId::new("cart-123"));
    flow.step = CheckoutStep::Shipping;
    flow.completed_steps = vec![CheckoutStep::Cart, CheckoutStep::Information];

    assert!(flow.go_back().is_ok());
    assert_eq!(flow.step, CheckoutStep::Information);
}

#[test]
fn going_back_after_advancing_returns_to_the_step() {
    let mut flow = CheckoutFlow::new(CartId::new("cart-1"));
    flow.advance().unwrap();
    let before = flow.step;
    flow.set_email("a@b.c");
    flow.advance().unwrap();
    flow.go_back().unwrap();
    assert_eq!(flow.step, before);
}

#[test]
fn checkout_progress_and_first_step() {
    let mut flow = CheckoutFlow::new(CartId::new("cart-1"));
    assert_eq!(flow.progress_percent(), 16);
    assert!(flow.go_back().is_err());
    flow.advance().unwrap();
    assert_eq!(flow.progress_percent(), 33);
}

#[test]
fn test_order_status_can_cancel() {
    assert!(OrderStatus::Pending.can_cancel());
    assert!(OrderStatus::Confirmed.can_cancel());
    assert!(!OrderStatus::Shipped.can_cancel());
    assert!(!OrderStatus::Delivered.can_cancel());
}

#[test]
fn test_order_number_generation() {
    let num1 = Order::generate_order_number();
    let _num2 = Order::generate_order_number();
    assert!(num1.starts_with("ORD-"));
}

#[test]
fn test_shipping_method() {
    let mut method = ShippingMethod::new("Standard Shipping", Money::new(599, Currency::USD));
    method.min_delivery_days = Some(5);
    method.max_delivery_days = Some(7);

    assert_eq!(method.delivery_estimate(), Some("5-7 days".to_string()));
    assert!(!method.is_free());
}

#[test]
fn test_free_shipping() {
    let method = ShippingMethod::new("Free Shipping", Money::zero(Currency::USD));
    assert!(method.is_free());
}

#[test]
fn delivery_estimate_forms() {
    let mut method = ShippingMethod::new("S", Money::new(1, Currency::USD));
    assert_eq!(method.delivery_estimate(), None);
    method.min_delivery_days = Some(3);
    assert_eq!(method.delivery_estimate(), Some("3+ days".to_string()));
    method.max_delivery_days = Some(3);
    assert_eq!(method.delivery_estimate(), Some("3 days".to_string()));
    method.min_delivery_days = None;
    assert_eq!(method.delivery_estimate(), Some("Up to 3 days".to_string()));
}

#[test]
fn refused_advance_names_what_is_missing() {
    let mut flow = CheckoutFlow::new(CartId::new("c1"));
    flow.advance().unwrap();
    flow.set_email("a@example.com");
    flow.advance().unwrap();
    assert_eq!(flow.step, CheckoutStep::Shipping);
    let mut incomplete = Address::new("Jane", "Smith", "456 Oak Ave", "Los Angeles", "United States", "US", "90001");
    incomplete.city = String::new();
    flow.set_shipping_address(incomplete);
    let method = ShippingMethod::new("Standard", Money::new(500, Currency::USD));
    flow.set_shipping_method(ShippingSelection::from_method(&method));
    match flow.advance() {
        Err(CommerceError::CheckoutIncomplete(m)) => assert_eq!(m, "shipping address"),
        other => panic!("unexpected {:?}", other),
    }
    flow.set_shipping_address(Address::new("Jane", "Smith", "456 Oak Ave", "Los Angeles", "United States", "US", "90001"));
    flow.advance().unwrap();
    flow.set_payment_token("tok");
    flow.advance().unwrap();
    assert_eq!(flow.step, CheckoutStep::Review);
    flow.payment_token = None;
    match flow.advance() {
        Err(CommerceError::CheckoutIncomplete(m)) => assert_eq!(m, "payment method"),
        other => panic!("unexpected {:?}", other),
    }
}
