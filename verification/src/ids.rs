//! Newtype identifiers, so that one kind of identifier cannot stand where
//! another is expected. Each is viewed as the characters of its text, and two
//! identifiers are equal exactly when their texts are.
use vstd::prelude::*;
use crate::platform::{fresh_entropy, system_clock_nanos};
use crate::text::{hex_digits, push_hex};

verus! {

/// The identifier text of two drawn values: the lower-case hexadecimal form of
/// the clock's nanoseconds (their low 64 bits, zero before the epoch) mixed by
/// exclusive or with a random value.
pub fn id_from_draws(nanos: Option<u128>, entropy: u64) -> (r: String)
    ensures
        r@ == hex_digits(
            (match nanos {
                Some(n) => n as u64,
                None => 0u64,
            } ^ entropy) as nat,
        ),
{
    let low: u64 = match nanos {
        Some(n) => #[verifier::truncate] (n as u64),
        None => 0,
    };
    let combined: u64 = low ^ entropy;
    let mut s = String::new();
    push_hex(&mut s, combined);
    assert(s@ =~= hex_digits(combined as nat));
    s
}

/// A fresh identifier text: `id_from_draws` of the clock's nanoseconds and a
/// per-call random value.
pub fn generate_id() -> (r: String)
    ensures
        exists|n: u64| r@ == hex_digits(n as nat),
{
    id_from_draws(system_clock_nanos(), fresh_entropy())
}

/// A unique identifier.
#[derive(Debug)]
pub struct ProductId(String);

impl View for ProductId {
    type V = Seq<char>;

    closed spec fn view(&self) -> Seq<char> {
        self.0@
    }
}

impl ProductId {
    /// Create an identifier from a string.
    pub fn new(id: &str) -> (r: Self)
        ensures
            r@ == id@,
    {
        ProductId(id.to_string())
    }

    /// Generate a new unique identifier.
    pub fn generate() -> (r: Self)
        ensures
            exists|n: u64| r@ == hex_digits(n as nat),
    {
        ProductId(generate_id())
    }

    /// The identifier as a string slice.
    pub fn as_str(&self) -> (r: &str)
        ensures
            r@ == self@,
    {
        self.0.as_str()
    }

    /// Consume the identifier and return the inner string.
    pub fn into_inner(self) -> (r: String)
        ensures
            r@ == self@,
    {
        self.0
    }
}

impl Clone for ProductId {
    fn clone(&self) -> (r: Self)
        ensures
            r == *self,
    {
        ProductId(self.0.clone())
    }
}

impl PartialEq for ProductId {
    fn eq(&self, other: &Self) -> (r: bool) {
        self.0 == other.0
    }
}

impl Eq for ProductId {}

impl vstd::std_specs::cmp::PartialEqSpecImpl for ProductId {
    open spec fn obeys_eq_spec() -> bool {
        true
    }

    open spec fn eq_spec(&self, other: &ProductId) -> bool {
        self@ == other@
    }
}

impl From<String> for ProductId {
    fn from(s: String) -> (r: Self)
        ensures
            r@ == s@,
    {
        ProductId(s)
    }
}

impl vstd::std_specs::convert::FromSpecImpl<String> for ProductId {
    open spec fn obeys_from_spec() -> bool {
        true
    }

    closed spec fn from_spec(s: String) -> ProductId {
        ProductId(s)
    }
}

impl From<&str> for ProductId {
    fn from(s: &str) -> (r: Self)
        ensures
            r@ == s@,
    {
        ProductId(s.to_string())
    }
}

impl vstd::std_specs::convert::FromSpecImpl<&str> for ProductId {
    open spec fn obeys_from_spec() -> bool {
        false
    }

    closed spec fn from_spec(s: &str) -> ProductId {
        arbitrary()
    }
}

/// A unique identifier.
#[derive(Debug)]
pub struct VariantId(String);

impl View for VariantId {
    type V = Seq<char>;

    closed spec fn view(&self) -> Seq<char> {
        self.0@
    }
}

impl VariantId {
    /// Create an identifier from a string.
    pub fn new(id: &str) -> (r: Self)
        ensures
            r@ == id@,
    {
        VariantId(id.to_string())
    }

    /// Generate a new unique identifier.
    pub fn generate() -> (r: Self)
        ensures
            exists|n: u64| r@ == hex_digits(n as nat),
    {
        VariantId(generate_id())
    }

    /// The identifier as a string slice.
    pub fn as_str(&self) -> (r: &str)
        ensures
            r@ == self@,
    {
        self.0.as_str()
    }

    /// Consume the identifier and return the inner string.
    pub fn into_inner(self) -> (r: String)
        ensures
            r@ == self@,
    {
        self.0
    }
}

impl Clone for VariantId {
    fn clone(&self) -> (r: Self)
        ensures
            r == *self,
    {
        VariantId(self.0.clone())
    }
}

impl PartialEq for VariantId {
    fn eq(&self, other: &Self) -> (r: bool) {
        self.0 == other.0
    }
}

impl Eq for VariantId {}

impl vstd::std_specs::cmp::PartialEqSpecImpl for VariantId {
    open spec fn obeys_eq_spec() -> bool {
        true
    }

    open spec fn eq_spec(&self, other: &VariantId) -> bool {
        self@ == other@
    }
}

impl From<String> for VariantId {
    fn from(s: String) -> (r: Self)
        ensures
            r@ == s@,
    {
        VariantId(s)
    }
}

impl vstd::std_specs::convert::FromSpecImpl<String> for VariantId {
    open spec fn obeys_from_spec() -> bool {
        true
    }

    closed spec fn from_spec(s: String) -> VariantId {
        VariantId(s)
    }
}

impl From<&str> for VariantId {
    fn from(s: &str) -> (r: Self)
        ensures
            r@ == s@,
    {
        VariantId(s.to_string())
    }
}

impl vstd::std_specs::convert::FromSpecImpl<&str> for VariantId {
    open spec fn obeys_from_spec() -> bool {
        false
    }

    closed spec fn from_spec(s: &str) -> VariantId {
        arbitrary()
    }
}

/// A unique identifier.
#[derive(Debug)]
pub struct CategoryId(String);

impl View for CategoryId {
    type V = Seq<char>;

    closed spec fn view(&self) -> Seq<char> {
        self.0@
    }
}

impl CategoryId {
    /// Create an identifier from a string.
    pub fn new(id: &str) -> (r: Self)
        ensures
            r@ == id@,
    {
        CategoryId(id.to_string())
    }

    /// Generate a new unique identifier.
    pub fn generate() -> (r: Self)
        ensures
            exists|n: u64| r@ == hex_digits(n as nat),
    {
        CategoryId(generate_id())
    }

    /// The identifier as a string slice.
    pub fn as_str(&self) -> (r: &str)
        ensures
            r@ == self@,
    {
        self.0.as_str()
    }

    /// Consume the identifier and return the inner string.
    pub fn into_inner(self) -> (r: String)
        ensures
            r@ == self@,
    {
        self.0
    }
}

impl Clone for CategoryId {
    fn clone(&self) -> (r: Self)
        ensures
            r == *self,
    {
        CategoryId(self.0.clone())
    }
}

impl PartialEq for CategoryId {
    fn eq(&self, other: &Self) -> (r: bool) {
        self.0 == other.0
    }
}

impl Eq for CategoryId {}

impl vstd::std_specs::cmp::PartialEqSpecImpl for CategoryId {
    open spec fn obeys_eq_spec() -> bool {
        true
    }

    open spec fn eq_spec(&self, other: &CategoryId) -> bool {
        self@ == other@
    }
}

impl From<String> for CategoryId {
    fn from(s: String) -> (r: Self)
        ensures
            r@ == s@,
    {
        CategoryId(s)
    }
}

impl vstd::std_specs::convert::FromSpecImpl<String> for CategoryId {
    open spec fn obeys_from_spec() -> bool {
        true
    }

    closed spec fn from_spec(s: String) -> CategoryId {
        CategoryId(s)
    }
}

impl From<&str> for CategoryId {
    fn from(s: &str) -> (r: Self)
        ensures
            r@ == s@,
    {
        CategoryId(s.to_string())
    }
}

impl vstd::std_specs::convert::FromSpecImpl<&str> for CategoryId {
    open spec fn obeys_from_spec() -> bool {
        false
    }

    closed spec fn from_spec(s: &str) -> CategoryId {
        arbitrary()
    }
}

/// A unique identifier.
#[derive(Debug)]
pub struct CartId(String);

impl View for CartId {
    type V = Seq<char>;

    closed spec fn view(&self) -> Seq<char> {
        self.0@
    }
}

impl CartId {
    /// Create an identifier from a string.
    pub fn new(id: &str) -> (r: Self)
        ensures
            r@ == id@,
    {
        CartId(id.to_string())
    }

    /// Generate a new unique identifier.
    pub fn generate() -> (r: Self)
        ensures
            exists|n: u64| r@ == hex_digits(n as nat),
    {
        CartId(generate_id())
    }

    /// The identifier as a string slice.
    pub fn as_str(&self) -> (r: &str)
        ensures
            r@ == self@,
    {
        self.0.as_str()
    }

    /// Consume the identifier and return the inner string.
    pub fn into_inner(self) -> (r: String)
        ensures
            r@ == self@,
    {
        self.0
    }
}

impl Clone for CartId {
    fn clone(&self) -> (r: Self)
        ensures
            r == *self,
    {
        CartId(self.0.clone())
    }
}

impl PartialEq for CartId {
    fn eq(&self, other: &Self) -> (r: bool) {
        self.0 == other.0
    }
}

impl Eq for CartId {}

impl vstd::std_specs::cmp::PartialEqSpecImpl for CartId {
    open spec fn obeys_eq_spec() -> bool {
        true
    }

    open spec fn eq_spec(&self, other: &CartId) -> bool {
        self@ == other@
    }
}

impl From<String> for CartId {
    fn from(s: String) -> (r: Self)
        ensures
            r@ == s@,
    {
        CartId(s)
    }
}

impl vstd::std_specs::convert::FromSpecImpl<String> for CartId {
    open spec fn obeys_from_spec() -> bool {
        true
    }

    closed spec fn from_spec(s: String) -> CartId {
        CartId(s)
    }
}

impl From<&str> for CartId {
    fn from(s: &str) -> (r: Self)
        ensures
            r@ == s@,
    {
        CartId(s.to_string())
    }
}

impl vstd::std_specs::convert::FromSpecImpl<&str> for CartId {
    open spec fn obeys_from_spec() -> bool {
        false
    }

    closed spec fn from_spec(s: &str) -> CartId {
        arbitrary()
    }
}

/// A unique identifier.
#[derive(Debug)]
pub struct LineItemId(String);

impl View for LineItemId {
    type V = Seq<char>;

    closed spec fn view(&self) -> Seq<char> {
        self.0@
    }
}

impl LineItemId {
    /// Create an identifier from a string.
    pub fn new(id: &str) -> (r: Self)
        ensures
            r@ == id@,
    {
        LineItemId(id.to_string())
    }

    /// Generate a new unique identifier.
    pub fn generate() -> (r: Self)
        ensures
            exists|n: u64| r@ == hex_digits(n as nat),
    {
        LineItemId(generate_id())
    }

    /// The identifier as a string slice.
    pub fn as_str(&self) -> (r: &str)
        ensures
            r@ == self@,
    {
        self.0.as_str()
    }

    /// Consume the identifier and return the inner string.
    pub fn into_inner(self) -> (r: String)
        ensures
            r@ == self@,
    {
        self.0
    }
}

impl Clone for LineItemId {
    fn clone(&self) -> (r: Self)
        ensures
            r == *self,
    {
        LineItemId(self.0.clone())
    }
}

impl PartialEq for LineItemId {
    fn eq(&self, other: &Self) -> (r: bool) {
        self.0 == other.0
    }
}

impl Eq for LineItemId {}

impl vstd::std_specs::cmp::PartialEqSpecImpl for LineItemId {
    open spec fn obeys_eq_spec() -> bool {
        true
    }

    open spec fn eq_spec(&self, other: &LineItemId) -> bool {
        self@ == other@
    }
}

impl From<String> for LineItemId {
    fn from(s: String) -> (r: Self)
        ensures
            r@ == s@,
    {
        LineItemId(s)
    }
}

impl vstd::std_specs::convert::FromSpecImpl<String> for LineItemId {
    open spec fn obeys_from_spec() -> bool {
        true
    }

    closed spec fn from_spec(s: String) -> LineItemId {
        LineItemId(s)
    }
}

impl From<&str> for LineItemId {
    fn from(s: &str) -> (r: Self)
        ensures
            r@ == s@,
    {
        LineItemId(s.to_string())
    }
}

impl vstd::std_specs::convert::FromSpecImpl<&str> for LineItemId {
    open spec fn obeys_from_spec() -> bool {
        false
    }

    closed spec fn from_spec(s: &str) -> LineItemId {
        arbitrary()
    }
}

/// A unique identifier.
#[derive(Debug)]
pub struct OrderId(String);

impl View for OrderId {
    type V = Seq<char>;

    closed spec fn view(&self) -> Seq<char> {
        self.0@
    }
}

impl OrderId {
    /// Create an identifier from a string.
    pub fn new(id: &str) -> (r: Self)
        ensures
            r@ == id@,
    {
        OrderId(id.to_string())
    }

    /// Generate a new unique identifier.
    pub fn generate() -> (r: Self)
        ensures
            exists|n: u64| r@ == hex_digits(n as nat),
    {
        OrderId(generate_id())
    }

    /// The identifier as a string slice.
    pub fn as_str(&self) -> (r: &str)
        ensures
            r@ == self@,
    {
        self.0.as_str()
    }

    /// Consume the identifier and return the inner string.
    pub fn into_inner(self) -> (r: String)
        ensures
            r@ == self@,
    {
        self.0
    }
}

impl Clone for OrderId {
    fn clone(&self) -> (r: Self)
        ensures
            r == *self,
    {
        OrderId(self.0.clone())
    }
}

impl PartialEq for OrderId {
    fn eq(&self, other: &Self) -> (r: bool) {
        self.0 == other.0
    }
}

impl Eq for OrderId {}

impl vstd::std_specs::cmp::PartialEqSpecImpl for OrderId {
    open spec fn obeys_eq_spec() -> bool {
        true
    }

    open spec fn eq_spec(&self, other: &OrderId) -> bool {
        self@ == other@
    }
}

impl From<String> for OrderId {
    fn from(s: String) -> (r: Self)
        ensures
            r@ == s@,
    {
        OrderId(s)
    }
}

impl vstd::std_specs::convert::FromSpecImpl<String> for OrderId {
    open spec fn obeys_from_spec() -> bool {
        true
    }

    closed spec fn from_spec(s: String) -> OrderId {
        OrderId(s)
    }
}

impl From<&str> for OrderId {
    fn from(s: &str) -> (r: Self)
        ensures
            r@ == s@,
    {
        OrderId(s.to_string())
    }
}

impl vstd::std_specs::convert::FromSpecImpl<&str> for OrderId {
    open spec fn obeys_from_spec() -> bool {
        false
    }

    closed spec fn from_spec(s: &str) -> OrderId {
        arbitrary()
    }
}

/// A unique identifier.
#[derive(Debug)]
pub struct OrderLineItemId(String);

impl View for OrderLineItemId {
    type V = Seq<char>;

    closed spec fn view(&self) -> Seq<char> {
        self.0@
    }
}

impl OrderLineItemId {
    /// Create an identifier from a string.
    pub fn new(id: &str) -> (r: Self)
        ensures
            r@ == id@,
    {
        OrderLineItemId(id.to_string())
    }

    /// Generate a new unique identifier.
    pub fn generate() -> (r: Self)
        ensures
            exists|n: u64| r@ == hex_digits(n as nat),
    {
        OrderLineItemId(generate_id())
    }

    /// The identifier as a string slice.
    pub fn as_str(&self) -> (r: &str)
        ensures
            r@ == self@,
    {
        self.0.as_str()
    }

    /// Consume the identifier and return the inner string.
    pub fn into_inner(self) -> (r: String)
        ensures
            r@ == self@,
    {
        self.0
    }
}

impl Clone for OrderLineItemId {
    fn clone(&self) -> (r: Self)
        ensures
            r == *self,
    {
        OrderLineItemId(self.0.clone())
    }
}

impl PartialEq for OrderLineItemId {
    fn eq(&self, other: &Self) -> (r: bool) {
        self.0 == other.0
    }
}

impl Eq for OrderLineItemId {}

impl vstd::std_specs::cmp::PartialEqSpecImpl for OrderLineItemId {
    open spec fn obeys_eq_spec() -> bool {
        true
    }

    open spec fn eq_spec(&self, other: &OrderLineItemId) -> bool {
        self@ == other@
    }
}

impl From<String> for OrderLineItemId {
    fn from(s: String) -> (r: Self)
        ensures
            r@ == s@,
    {
        OrderLineItemId(s)
    }
}

impl vstd::std_specs::convert::FromSpecImpl<String> for OrderLineItemId {
    open spec fn obeys_from_spec() -> bool {
        true
    }

    closed spec fn from_spec(s: String) -> OrderLineItemId {
        OrderLineItemId(s)
    }
}

impl From<&str> for OrderLineItemId {
    fn from(s: &str) -> (r: Self)
        ensures
            r@ == s@,
    {
        OrderLineItemId(s.to_string())
    }
}

impl vstd::std_specs::convert::FromSpecImpl<&str> for OrderLineItemId {
    open spec fn obeys_from_spec() -> bool {
        false
    }

    closed spec fn from_spec(s: &str) -> OrderLineItemId {
        arbitrary()
    }
}

/// A unique identifier.
#[derive(Debug)]
pub struct DiscountId(String);

impl View for DiscountId {
    type V = Seq<char>;

    closed spec fn view(&self) -> Seq<char> {
        self.0@
    }
}

impl DiscountId {
    /// Create an identifier from a string.
    pub fn new(id: &str) -> (r: Self)
        ensures
            r@ == id@,
    {
        DiscountId(id.to_string())
    }

    /// Generate a new unique identifier.
    pub fn generate() -> (r: Self)
        ensures
            exists|n: u64| r@ == hex_digits(n as nat),
    {
        DiscountId(generate_id())
    }

    /// The identifier as a string slice.
    pub fn as_str(&self) -> (r: &str)
        ensures
            r@ == self@,
    {
        self.0.as_str()
    }

    /// Consume the identifier and return the inner string.
    pub fn into_inner(self) -> (r: String)
        ensures
            r@ == self@,
    {
        self.0
    }
}

impl Clone for DiscountId {
    fn clone(&self) -> (r: Self)
        ensures
            r == *self,
    {
        DiscountId(self.0.clone())
    }
}

impl PartialEq for DiscountId {
    fn eq(&self, other: &Self) -> (r: bool) {
        self.0 == other.0
    }
}

impl Eq for DiscountId {}

impl vstd::std_specs::cmp::PartialEqSpecImpl for DiscountId {
    open spec fn obeys_eq_spec() -> bool {
        true
    }

    open spec fn eq_spec(&self, other: &DiscountId) -> bool {
        self@ == other@
    }
}

impl From<String> for DiscountId {
    fn from(s: String) -> (r: Self)
        ensures
            r@ == s@,
    {
        DiscountId(s)
    }
}

impl vstd::std_specs::convert::FromSpecImpl<String> for DiscountId {
    open spec fn obeys_from_spec() -> bool {
        true
    }

    closed spec fn from_spec(s: String) -> DiscountId {
        DiscountId(s)
    }
}

impl From<&str> for DiscountId {
    fn from(s: &str) -> (r: Self)
        ensures
            r@ == s@,
    {
        DiscountId(s.to_string())
    }
}

impl vstd::std_specs::convert::FromSpecImpl<&str> for DiscountId {
    open spec fn obeys_from_spec() -> bool {
        false
    }

    closed spec fn from_spec(s: &str) -> DiscountId {
        arbitrary()
    }
}

/// A unique identifier.
#[derive(Debug)]
pub struct ShippingMethodId(String);

impl View for ShippingMethodId {
    type V = Seq<char>;

    closed spec fn view(&self) -> Seq<char> {
        self.0@
    }
}

impl ShippingMethodId {
    /// Create an identifier from a string.
    pub fn new(id: &str) -> (r: Self)
        ensures
            r@ == id@,
    {
        ShippingMethodId(id.to_string())
    }

    /// Generate a new unique identifier.
    pub fn generate() -> (r: Self)
        ensures
            exists|n: u64| r@ == hex_digits(n as nat),
    {
        ShippingMethodId(generate_id())
    }

    /// The identifier as a string slice.
    pub fn as_str(&self) -> (r: &str)
        ensures
            r@ == self@,
    {
        self.0.as_str()
    }

    /// Consume the identifier and return the inner string.
    pub fn into_inner(self) -> (r: String)
        ensures
            r@ == self@,
    {
        self.0
    }
}

impl Clone for ShippingMethodId {
    fn clone(&self) -> (r: Self)
        ensures
            r == *self,
    {
        ShippingMethodId(self.0.clone())
    }
}

impl PartialEq for ShippingMethodId {
    fn eq(&self, other: &Self) -> (r: bool) {
        self.0 == other.0
    }
}

impl Eq for ShippingMethodId {}

impl vstd::std_specs::cmp::PartialEqSpecImpl for ShippingMethodId {
    open spec fn obeys_eq_spec() -> bool {
        true
    }

    open spec fn eq_spec(&self, other: &ShippingMethodId) -> bool {
        self@ == other@
    }
}

impl From<String> for ShippingMethodId {
    fn from(s: String) -> (r: Self)
        ensures
            r@ == s@,
    {
        ShippingMethodId(s)
    }
}

impl vstd::std_specs::convert::FromSpecImpl<String> for ShippingMethodId {
    open spec fn obeys_from_spec() -> bool {
        true
    }

    closed spec fn from_spec(s: String) -> ShippingMethodId {
        ShippingMethodId(s)
    }
}

impl From<&str> for ShippingMethodId {
    fn from(s: &str) -> (r: Self)
        ensures
            r@ == s@,
    {
        ShippingMethodId(s.to_string())
    }
}

impl vstd::std_specs::convert::FromSpecImpl<&str> for ShippingMethodId {
    open spec fn obeys_from_spec() -> bool {
        false
    }

    closed spec fn from_spec(s: &str) -> ShippingMethodId {
        arbitrary()
    }
}

/// A unique identifier.
#[derive(Debug)]
pub struct CheckoutId(String);

impl View for CheckoutId {
    type V = Seq<char>;

    closed spec fn view(&self) -> Seq<char> {
        self.0@
    }
}

impl CheckoutId {
    /// Create an identifier from a string.
    pub fn new(id: &str) -> (r: Self)
        ensures
            r@ == id@,
    {
        CheckoutId(id.to_string())
    }

    /// Generate a new unique identifier.
    pub fn generate() -> (r: Self)
        ensures
            exists|n: u64| r@ == hex_digits(n as nat),
    {
        CheckoutId(generate_id())
    }

    /// The identifier as a string slice.
    pub fn as_str(&self) -> (r: &str)
        ensures
            r@ == self@,
    {
        self.0.as_str()
    }

    /// Consume the identifier and return the inner string.
    pub fn into_inner(self) -> (r: String)
        ensures
            r@ == self@,
    {
        self.0
    }
}

impl Clone for CheckoutId {
    fn clone(&self) -> (r: Self)
        ensures
            r == *self,
    {
        CheckoutId(self.0.clone())
    }
}

impl PartialEq for CheckoutId {
    fn eq(&self, other: &Self) -> (r: bool) {
        self.0 == other.0
    }
}

impl Eq for CheckoutId {}

impl vstd::std_specs::cmp::PartialEqSpecImpl for CheckoutId {
    open spec fn obeys_eq_spec() -> bool {
        true
    }

    open spec fn eq_spec(&self, other: &CheckoutId) -> bool {
        self@ == other@
    }
}

impl From<String> for CheckoutId {
    fn from(s: String) -> (r: Self)
        ensures
            r@ == s@,
    {
        CheckoutId(s)
    }
}

impl vstd::std_specs::convert::FromSpecImpl<String> for CheckoutId {
    open spec fn obeys_from_spec() -> bool {
        true
    }

    closed spec fn from_spec(s: String) -> CheckoutId {
        CheckoutId(s)
    }
}

impl From<&str> for CheckoutId {
    fn from(s: &str) -> (r: Self)
        ensures
            r@ == s@,
    {
        CheckoutId(s.to_string())
    }
}

impl vstd::std_specs::convert::FromSpecImpl<&str> for CheckoutId {
    open spec fn obeys_from_spec() -> bool {
        false
    }

    closed spec fn from_spec(s: &str) -> CheckoutId {
        arbitrary()
    }
}

/// A unique identifier.
#[derive(Debug)]
pub struct AddressId(String);

impl View for AddressId {
    type V = Seq<char>;

    closed spec fn view(&self) -> Seq<char> {
        self.0@
    }
}

impl AddressId {
    /// Create an identifier from a string.
    pub fn new(id: &str) -> (r: Self)
        ensures
            r@ == id@,
    {
        AddressId(id.to_string())
    }

    /// Generate a new unique identifier.
    pub fn generate() -> (r: Self)
        ensures
            exists|n: u64| r@ == hex_digits(n as nat),
    {
        AddressId(generate_id())
    }

    /// The identifier as a string slice.
    pub fn as_str(&self) -> (r: &str)
        ensures
            r@ == self@,
    {
        self.0.as_str()
    }

    /// Consume the identifier and return the inner string.
    pub fn into_inner(self) -> (r: String)
        ensures
            r@ == self@,
    {
        self.0
    }
}

impl Clone for AddressId {
    fn clone(&self) -> (r: Self)
        ensures
            r == *self,
    {
        AddressId(self.0.clone())
    }
}

impl PartialEq for AddressId {
    fn eq(&self, other: &Self) -> (r: bool) {
        self.0 == other.0
    }
}

impl Eq for AddressId {}

impl vstd::std_specs::cmp::PartialEqSpecImpl for AddressId {
    open spec fn obeys_eq_spec() -> bool {
        true
    }

    open spec fn eq_spec(&self, other: &AddressId) -> bool {
        self@ == other@
    }
}

impl From<String> for AddressId {
    fn from(s: String) -> (r: Self)
        ensures
            r@ == s@,
    {
        AddressId(s)
    }
}

impl vstd::std_specs::convert::FromSpecImpl<String> for AddressId {
    open spec fn obeys_from_spec() -> bool {
        true
    }

    closed spec fn from_spec(s: String) -> AddressId {
        AddressId(s)
    }
}

impl From<&str> for AddressId {
    fn from(s: &str) -> (r: Self)
        ensures
            r@ == s@,
    {
        AddressId(s.to_string())
    }
}

impl vstd::std_specs::convert::FromSpecImpl<&str> for AddressId {
    open spec fn obeys_from_spec() -> bool {
        false
    }

    closed spec fn from_spec(s: &str) -> AddressId {
        arbitrary()
    }
}

/// A unique identifier.
#[derive(Debug)]
pub struct MediaId(String);

impl View for MediaId {
    type V = Seq<char>;

    closed spec fn view(&self) -> Seq<char> {
        self.0@
    }
}

impl MediaId {
    /// Create an identifier from a string.
    pub fn new(id: &str) -> (r: Self)
        ensures
            r@ == id@,
    {
        MediaId(id.to_string())
    }

    /// Generate a new unique identifier.
    pub fn generate() -> (r: Self)
        ensures
            exists|n: u64| r@ == hex_digits(n as nat),
    {
        MediaId(generate_id())
    }

    /// The identifier as a string slice.
    pub fn as_str(&self) -> (r: &str)
        ensures
            r@ == self@,
    {
        self.0.as_str()
    }

    /// Consume the identifier and return the inner string.
    pub fn into_inner(self) -> (r: String)
        ensures
            r@ == self@,
    {
        self.0
    }
}

impl Clone for MediaId {
    fn clone(&self) -> (r: Self)
        ensures
            r == *self,
    {
        MediaId(self.0.clone())
    }
}

impl PartialEq for MediaId {
    fn eq(&self, other: &Self) -> (r: bool) {
        self.0 == other.0
    }
}

impl Eq for MediaId {}

impl vstd::std_specs::cmp::PartialEqSpecImpl for MediaId {
    open spec fn obeys_eq_spec() -> bool {
        true
    }

    open spec fn eq_spec(&self, other: &MediaId) -> bool {
        self@ == other@
    }
}

impl From<String> for MediaId {
    fn from(s: String) -> (r: Self)
        ensures
            r@ == s@,
    {
        MediaId(s)
    }
}

impl vstd::std_specs::convert::FromSpecImpl<String> for MediaId {
    open spec fn obeys_from_spec() -> bool {
        true
    }

    closed spec fn from_spec(s: String) -> MediaId {
        MediaId(s)
    }
}

impl From<&str> for MediaId {
    fn from(s: &str) -> (r: Self)
        ensures
            r@ == s@,
    {
        MediaId(s.to_string())
    }
}

impl vstd::std_specs::convert::FromSpecImpl<&str> for MediaId {
    open spec fn obeys_from_spec() -> bool {
        false
    }

    closed spec fn from_spec(s: &str) -> MediaId {
        arbitrary()
    }
}

/// A unique identifier.
#[derive(Debug)]
pub struct UserId(String);

impl View for UserId {
    type V = Seq<char>;

    closed spec fn view(&self) -> Seq<char> {
        self.0@
    }
}

impl UserId {
    /// Create an identifier from a string.
    pub fn new(id: &str) -> (r: Self)
        ensures
            r@ == id@,
    {
        UserId(id.to_string())
    }

    /// Generate a new unique identifier.
    pub fn generate() -> (r: Self)
        ensures
            exists|n: u64| r@ == hex_digits(n as nat),
    {
        UserId(generate_id())
    }

    /// The identifier as a string slice.
    pub fn as_str(&self) -> (r: &str)
        ensures
            r@ == self@,
    {
        self.0.as_str()
    }

    /// Consume the identifier and return the inner string.
    pub fn into_inner(self) -> (r: String)
        ensures
            r@ == self@,
    {
        self.0
    }
}

impl Clone for UserId {
    fn clone(&self) -> (r: Self)
        ensures
            r == *self,
    {
        UserId(self.0.clone())
    }
}

impl PartialEq for UserId {
    fn eq(&self, other: &Self) -> (r: bool) {
        self.0 == other.0
    }
}

impl Eq for UserId {}

impl vstd::std_specs::cmp::PartialEqSpecImpl for UserId {
    open spec fn obeys_eq_spec() -> bool {
        true
    }

    open spec fn eq_spec(&self, other: &UserId) -> bool {
        self@ == other@
    }
}

impl From<String> for UserId {
    fn from(s: String) -> (r: Self)
        ensures
            r@ == s@,
    {
        UserId(s)
    }
}

impl vstd::std_specs::convert::FromSpecImpl<String> for UserId {
    open spec fn obeys_from_spec() -> bool {
        true
    }

    closed spec fn from_spec(s: String) -> UserId {
        UserId(s)
    }
}

impl From<&str> for UserId {
    fn from(s: &str) -> (r: Self)
        ensures
            r@ == s@,
    {
        UserId(s.to_string())
    }
}

impl vstd::std_specs::convert::FromSpecImpl<&str> for UserId {
    open spec fn obeys_from_spec() -> bool {
        false
    }

    closed spec fn from_spec(s: &str) -> UserId {
        arbitrary()
    }
}

/// A unique identifier.
#[derive(Debug)]
pub struct SessionId(String);

impl View for SessionId {
    type V = Seq<char>;

    closed spec fn view(&self) -> Seq<char> {
        self.0@
    }
}

impl SessionId {
    /// Create an identifier from a string.
    pub fn new(id: &str) -> (r: Self)
        ensures
            r@ == id@,
    {
        SessionId(id.to_string())
    }

    /// Generate a new unique identifier.
    pub fn generate() -> (r: Self)
        ensures
            exists|n: u64| r@ == hex_digits(n as nat),
    {
        SessionId(generate_id())
    }

    /// The identifier as a string slice.
    pub fn as_str(&self) -> (r: &str)
        ensures
            r@ == self@,
    {
        self.0.as_str()
    }

    /// Consume the identifier and return the inner string.
    pub fn into_inner(self) -> (r: String)
        ensures
            r@ == self@,
    {
        self.0
    }
}

impl Clone for SessionId {
    fn clone(&self) -> (r: Self)
        ensures
            r == *self,
    {
        SessionId(self.0.clone())
    }
}

impl PartialEq for SessionId {
    fn eq(&self, other: &Self) -> (r: bool) {
        self.0 == other.0
    }
}

impl Eq for SessionId {}

impl vstd::std_specs::cmp::PartialEqSpecImpl for SessionId {
    open spec fn obeys_eq_spec() -> bool {
        true
    }

    open spec fn eq_spec(&self, other: &SessionId) -> bool {
        self@ == other@
    }
}

impl From<String> for SessionId {
    fn from(s: String) -> (r: Self)
        ensures
            r@ == s@,
    {
        SessionId(s)
    }
}

impl vstd::std_specs::convert::FromSpecImpl<String> for SessionId {
    open spec fn obeys_from_spec() -> bool {
        true
    }

    closed spec fn from_spec(s: String) -> SessionId {
        SessionId(s)
    }
}

impl From<&str> for SessionId {
    fn from(s: &str) -> (r: Self)
        ensures
            r@ == s@,
    {
        SessionId(s.to_string())
    }
}

impl vstd::std_specs::convert::FromSpecImpl<&str> for SessionId {
    open spec fn obeys_from_spec() -> bool {
        false
    }

    closed spec fn from_spec(s: &str) -> SessionId {
        arbitrary()
    }
}

} // verus!
