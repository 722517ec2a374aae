//! Shipping methods and the selection made at checkout.
use vstd::prelude::*;
use crate::ids::ShippingMethodId;
use crate::money::Money;
use crate::text::{push_signed_dec, signed_dec_digits};

verus! {

/// A shipping method option.
#[derive(Debug, Clone)]
pub struct ShippingMethod {
    /// Unique identifier.
    pub id: ShippingMethodId,
    /// Display name.
    pub name: String,
    /// Description.
    pub description: Option<String>,
    /// Carrier name (e.g., "UPS", "FedEx").
    pub carrier: Option<String>,
    /// Shipping price.
    pub price: Money,
    /// Minimum delivery days.
    pub min_delivery_days: Option<i32>,
    /// Maximum delivery days.
    pub max_delivery_days: Option<i32>,
}

/// The delivery estimate for a range of days: "N days" when both bounds are
/// equal, "N-M days", "N+ days" with only a minimum, "Up to M days" with only a
/// maximum, and none without either.
pub open spec fn estimate_of(min: Option<i32>, max: Option<i32>) -> Option<Seq<char>> {
    match (min, max) {
        (Some(a), Some(b)) => if a == b {
            Some(signed_dec_digits(a as int) + " days"@)
        } else {
            Some(signed_dec_digits(a as int) + "-"@ + signed_dec_digits(b as int) + " days"@)
        },
        (Some(a), None) => Some(signed_dec_digits(a as int) + "+ days"@),
        (None, Some(b)) => Some("Up to "@ + signed_dec_digits(b as int) + " days"@),
        (None, None) => None,
    }
}

/// The characters of an optional string.
pub open spec fn opt_view(s: Option<String>) -> Option<Seq<char>> {
    match s {
        Some(x) => Some(x@),
        None => None,
    }
}

fn clone_opt_string(s: &Option<String>) -> (r: Option<String>)
    ensures
        opt_view(r) == opt_view(*s),
{
    match s {
        Some(x) => Some(x.clone()),
        None => None,
    }
}

fn days_text(prefix: &str, n: i32, suffix: &str) -> (r: String)
    ensures
        r@ == prefix@ + signed_dec_digits(n as int) + suffix@,
{
    let mut s = prefix.to_string();
    push_signed_dec(&mut s, n as i64);
    s.append(suffix);
    s
}

fn num_text(n: i32, suffix: &str) -> (r: String)
    ensures
        r@ == signed_dec_digits(n as int) + suffix@,
{
    let mut s = String::new();
    push_signed_dec(&mut s, n as i64);
    s.append(suffix);
    assert(s@ =~= signed_dec_digits(n as int) + suffix@);
    s
}

impl ShippingMethod {
    /// Create a new shipping method with a fresh identifier.
    pub fn new(name: &str, price: Money) -> (r: Self)
        ensures
            r.name@ == name@,
            r.description is None,
            r.carrier is None,
            r.price == price,
            r.min_delivery_days is None,
            r.max_delivery_days is None,
    {
        ShippingMethod {
            id: ShippingMethodId::generate(),
            name: name.to_string(),
            description: None,
            carrier: None,
            price,
            min_delivery_days: None,
            max_delivery_days: None,
        }
    }

    /// The delivery estimate text, if any bound is known.
    pub fn delivery_estimate(&self) -> (r: Option<String>)
        ensures
            opt_view(r) == estimate_of(self.min_delivery_days, self.max_delivery_days),
    {
        match (self.min_delivery_days, self.max_delivery_days) {
            (Some(min), Some(max)) => {
                if min == max {
                    Some(num_text(min, " days"))
                } else {
                    let mut s = num_text(min, "-");
                    push_signed_dec(&mut s, max as i64);
                    s.append(" days");
                    assert(s@ =~= signed_dec_digits(min as int) + "-"@ + signed_dec_digits(max as int) + " days"@);
                    Some(s)
                }
            },
            (Some(min), None) => Some(num_text(min, "+ days")),
            (None, Some(max)) => Some(days_text("Up to ", max, " days")),
            (None, None) => None,
        }
    }

    /// Whether shipping is free.
    pub fn is_free(&self) -> (r: bool)
        ensures
            r == (self.price.amount_cents == 0),
    {
        self.price.amount_cents == 0
    }
}

/// A selected shipping method with rate.
#[derive(Debug, Clone)]
pub struct ShippingSelection {
    /// Selected method ID.
    pub method_id: ShippingMethodId,
    /// Method name (denormalized).
    pub method_name: String,
    /// Calculated rate.
    pub rate: Money,
    /// Carrier name.
    pub carrier: Option<String>,
    /// Delivery estimate.
    pub delivery_estimate: Option<String>,
}

impl ShippingSelection {
    /// The selection of a shipping method at its price.
    pub fn from_method(method: &ShippingMethod) -> (r: Self)
        ensures
            r.method_id == method.id,
            r.method_name@ == method.name@,
            r.rate == method.price,
            opt_view(r.carrier) == opt_view(method.carrier),
            opt_view(r.delivery_estimate) == estimate_of(method.min_delivery_days, method.max_delivery_days),
    {
        ShippingSelection {
            method_id: method.id.clone(),
            method_name: method.name.clone(),
            rate: method.price,
            carrier: clone_opt_string(&method.carrier),
            delivery_estimate: method.delivery_estimate(),
        }
    }
}

} // verus!
