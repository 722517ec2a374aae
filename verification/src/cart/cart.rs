//! Carts and their line items.
use vstd::prelude::*;
use crate::cart::discount::AppliedDiscount;
use crate::cart::pricing::{CartPricing, LineItemPricing};
use crate::error::CommerceError;
use crate::ids::{CartId, LineItemId, ProductId, UserId, VariantId};
use crate::money::{checked_sum, fits_i64, Currency, Money};
use crate::platform::empty_json_object;
use crate::seq_util::{first_index, keep, lemma_first_index_is, lemma_first_index_none, lemma_first_index_none_all, lemma_keep_all, lemma_keep_distinct, lemma_keep_len, lemma_keep_preserves, lemma_keep_push, lemma_keep_push_removed};
use crate::text::str_eq;
use crate::time::current_timestamp;

verus! {

/// Maximum quantity allowed per line item.
pub const MAX_QUANTITY_PER_ITEM: i64 = 9999;

/// A custom property on a line item.
#[derive(Debug, Clone)]
pub struct LineItemProperty {
    /// Property name.
    pub name: String,
    /// Property value.
    pub value: String,
}

/// A line item in the cart.
#[derive(Debug, Clone)]
pub struct LineItem {
    /// Unique line item identifier.
    pub id: LineItemId,
    /// Variant being purchased.
    pub variant_id: VariantId,
    /// Product ID.
    pub product_id: ProductId,
    /// Product name (denormalized for display).
    pub product_name: String,
    /// Variant name (e.g., "Large / Blue").
    pub variant_name: Option<String>,
    /// Quantity.
    pub quantity: i64,
    /// Unit price.
    pub unit_price: Money,
    /// Total price (unit_price * quantity).
    pub total_price: Money,
    /// Custom properties (e.g., gift wrapping, engraving).
    pub properties: Vec<LineItemProperty>,
}

/// A unit price times a quantity, in the unit price's currency.
pub open spec fn times(m: Money, q: i64) -> Money {
    Money { amount_cents: (m.amount_cents * q) as i64, currency: m.currency }
}

/// The line item with another quantity and its total left as it was.
pub open spec fn with_quantity(it: LineItem, q: i64) -> LineItem {
    LineItem { quantity: q, ..it }
}

/// The line item with another quantity and its total recomputed.
pub open spec fn repriced(it: LineItem, q: i64) -> LineItem {
    LineItem { quantity: q, total_price: times(it.unit_price, q), ..it }
}

/// Line items of a variant.
pub open spec fn variant_is(v: Seq<char>) -> spec_fn(LineItem) -> bool {
    |it: LineItem| it.variant_id@ == v
}

/// Line items with an identifier.
pub open spec fn line_is(id: Seq<char>) -> spec_fn(LineItem) -> bool {
    |it: LineItem| it.id@ == id
}

/// Line items with another identifier.
pub open spec fn line_is_not(id: Seq<char>) -> spec_fn(LineItem) -> bool {
    |it: LineItem| it.id@ != id
}

/// Applied discounts with another code.
pub open spec fn code_is_not(code: Seq<char>) -> spec_fn(AppliedDiscount) -> bool {
    |d: AppliedDiscount| d.code@ != code
}

/// The sum of the quantities of line items.
pub open spec fn quantity_sum(items: Seq<LineItem>) -> int
    decreases items.len(),
{
    if items.len() == 0 {
        0
    } else {
        quantity_sum(items.drop_last()) + items.last().quantity
    }
}

/// A new line item as `LineItem::new` makes it.
pub open spec fn is_new_line(
    it: LineItem,
    variant_id: Seq<char>,
    product_id: Seq<char>,
    product_name: Seq<char>,
    quantity: i64,
    unit_price: Money,
) -> bool {
    &&& it.variant_id@ == variant_id
    &&& it.product_id@ == product_id
    &&& it.product_name@ == product_name
    &&& it.variant_name is None
    &&& it.quantity == quantity
    &&& it.unit_price == unit_price
    &&& it.total_price == times(unit_price, quantity)
    &&& it.properties@.len() == 0
}

impl LineItem {
    /// The total price is the unit price times the quantity.
    pub open spec fn priced(self) -> bool {
        self.total_price == times(self.unit_price, self.quantity)
    }

    /// Create a line item; fails with `Overflow` when the total does not fit.
    pub fn new(
        variant_id: VariantId,
        product_id: ProductId,
        product_name: &str,
        quantity: i64,
        unit_price: Money,
    ) -> (r: Result<Self, CommerceError>)
        ensures
            fits_i64(unit_price.amount_cents * quantity) ==> (r matches Ok(it) && is_new_line(
                it,
                variant_id@,
                product_id@,
                product_name@,
                quantity,
                unit_price,
            )),
            !fits_i64(unit_price.amount_cents * quantity) ==> r == Err::<Self, CommerceError>(
                CommerceError::Overflow,
            ),
    {
        let total_price = match unit_price.try_multiply(quantity) {
            Some(t) => t,
            None => return Err(CommerceError::Overflow),
        };
        Ok(LineItem {
            id: LineItemId::generate(),
            variant_id,
            product_id,
            product_name: product_name.to_string(),
            variant_name: None,
            quantity,
            unit_price,
            total_price,
            properties: Vec::new(),
        })
    }

    /// Recompute the total price from the quantity; fails with `Overflow`,
    /// leaving the item unchanged, when the total does not fit.
    pub fn update_total(&mut self) -> (r: Result<(), CommerceError>)
        ensures
            fits_i64(old(self).unit_price.amount_cents * old(self).quantity) ==> r is Ok
                && *final(self) == repriced(*old(self), old(self).quantity),
            !fits_i64(old(self).unit_price.amount_cents * old(self).quantity) ==> r == Err::<
                (),
                CommerceError,
            >(CommerceError::Overflow) && *final(self) == *old(self),
    {
        match self.unit_price.try_multiply(self.quantity) {
            Some(t) => {
                self.total_price = t;
                Ok(())
            },
            None => Err(CommerceError::Overflow),
        }
    }

    /// Add a custom property.
    pub fn add_property(&mut self, name: &str, value: &str)
        ensures
            final(self).properties@.len() == old(self).properties@.len() + 1,
            final(self).properties@.drop_last() == old(self).properties@,
            final(self).properties@.last().name@ == name@,
            final(self).properties@.last().value@ == value@,
            *final(self) == (LineItem { properties: final(self).properties, ..*old(self) }),
    {
        self.properties.push(LineItemProperty { name: name.to_string(), value: value.to_string() });
        assert(self.properties@.drop_last() =~= old(self).properties@);
    }
}

fn find_variant(items: &Vec<LineItem>, variant_id: &VariantId) -> (r: Option<usize>)
    ensures
        r matches Some(k) ==> first_index(items@, variant_is(variant_id@)) == Some(k as int),
        r is None ==> first_index(items@, variant_is(variant_id@)) is None,
{
    let mut i: usize = 0;
    while i < items.len()
        invariant
            i <= items@.len(),
            forall|j: int| 0 <= j < i ==> !variant_is(variant_id@)(#[trigger] items@[j]),
        decreases items@.len() - i,
    {
        if items[i].variant_id == *variant_id {
            proof { lemma_first_index_is(items@, variant_is(variant_id@), i as int); }
            return Some(i);
        }
        i = i + 1;
    }
    proof { lemma_first_index_none(items@, variant_is(variant_id@)); }
    None
}

fn find_line(items: &Vec<LineItem>, id: &LineItemId) -> (r: Option<usize>)
    ensures
        r matches Some(k) ==> first_index(items@, line_is(id@)) == Some(k as int),
        r is None ==> first_index(items@, line_is(id@)) is None,
{
    let mut i: usize = 0;
    while i < items.len()
        invariant
            i <= items@.len(),
            forall|j: int| 0 <= j < i ==> !line_is(id@)(#[trigger] items@[j]),
        decreases items@.len() - i,
    {
        if items[i].id == *id {
            proof { lemma_first_index_is(items@, line_is(id@), i as int); }
            return Some(i);
        }
        i = i + 1;
    }
    proof { lemma_first_index_none(items@, line_is(id@)); }
    None
}

fn remove_lines_with_id(items: &mut Vec<LineItem>, id: &LineItemId)
    ensures
        final(items)@ == keep(old(items)@, line_is_not(id@)),
{
    let ghost orig = items@;
    let ghost p = line_is_not(id@);
    let n: usize = items.len();
    assert(orig.len() == n);
    let mut i: usize = 0;
    let mut j: usize = 0;
    assert(orig.take(0) =~= Seq::<LineItem>::empty());
    assert(items@ =~= keep(orig.take(0), p) + orig.subrange(0, orig.len() as int));
    while i < items.len()
        invariant
            j <= orig.len(),
            orig.len() <= usize::MAX,
            i == keep(orig.take(j as int), p).len(),
            items@ =~= keep(orig.take(j as int), p) + orig.subrange(j as int, orig.len() as int),
            p == line_is_not(id@),
        decreases items@.len() - i,
    {
        assert(items@.len() == i + (orig.len() - j));
        assert(items@[i as int] == orig[j as int]);
        assert(orig.take(j + 1) =~= orig.take(j as int).push(orig[j as int]));
        proof { lemma_keep_push(orig.take(j as int), orig[j as int], p); }
        if items[i].id == *id {
            items.remove(i);
        } else {
            i = i + 1;
        }
        j = j + 1;
    }
    assert(j == orig.len());
    assert(orig.take(j as int) =~= orig);
}

fn remove_discounts_with_code(ds: &mut Vec<AppliedDiscount>, code: &str)
    ensures
        final(ds)@ == keep(old(ds)@, code_is_not(code@)),
{
    let ghost orig = ds@;
    let ghost p = code_is_not(code@);
    let n: usize = ds.len();
    assert(orig.len() == n);
    let mut i: usize = 0;
    let mut j: usize = 0;
    assert(orig.take(0) =~= Seq::<AppliedDiscount>::empty());
    assert(ds@ =~= keep(orig.take(0), p) + orig.subrange(0, orig.len() as int));
    while i < ds.len()
        invariant
            j <= orig.len(),
            orig.len() <= usize::MAX,
            i == keep(orig.take(j as int), p).len(),
            ds@ =~= keep(orig.take(j as int), p) + orig.subrange(j as int, orig.len() as int),
            p == code_is_not(code@),
        decreases ds@.len() - i,
    {
        assert(ds@.len() == i + (orig.len() - j));
        assert(ds@[i as int] == orig[j as int]);
        assert(orig.take(j + 1) =~= orig.take(j as int).push(orig[j as int]));
        proof { lemma_keep_push(orig.take(j as int), orig[j as int], p); }
        if str_eq(ds[i].code.as_str(), code) {
            ds.remove(i);
        } else {
            i = i + 1;
        }
        j = j + 1;
    }
    assert(j == orig.len());
    assert(orig.take(j as int) =~= orig);
}

/// A line item has a quantity between one and the maximum per item, and a total
/// equal to its unit price times its quantity.
pub open spec fn line_ok(it: LineItem) -> bool {
    0 < it.quantity <= MAX_QUANTITY_PER_ITEM && it.priced()
}

/// Every line item is well formed.
pub open spec fn lines_ok(items: Seq<LineItem>) -> bool {
    forall|i: int| 0 <= i < items.len() ==> line_ok(#[trigger] items[i])
}

/// Replacing one line item changes the quantity sum by the difference.
pub proof fn lemma_quantity_sum_update(s: Seq<LineItem>, i: int, x: LineItem)
    requires
        0 <= i < s.len(),
    ensures
        quantity_sum(s.update(i, x)) == quantity_sum(s) - s[i].quantity + x.quantity,
    decreases s.len(),
{
    if i < s.len() - 1 {
        assert(s.update(i, x).drop_last() =~= s.drop_last().update(i, x));
        lemma_quantity_sum_update(s.drop_last(), i, x);
    } else {
        assert(s.update(i, x).drop_last() =~= s.drop_last());
    }
}

/// Well-formed line items stay well formed through a successful merge.
pub proof fn lemma_merge_all_ok(items: Seq<LineItem>, incoming: Seq<LineItem>)
    requires
        lines_ok(items),
        lines_ok(incoming),
        merge_all(items, incoming).1,
    ensures
        lines_ok(merge_all(items, incoming).0),
    decreases incoming.len(),
{
    if incoming.len() > 0 {
        let prev = merge_all(items, incoming.drop_last());
        assert(lines_ok(incoming.drop_last())) by {
            assert forall|i: int| 0 <= i < incoming.drop_last().len() implies
                line_ok(#[trigger] incoming.drop_last()[i]) by {
                assert(line_ok(incoming[i]));
            }
        }
        lemma_merge_all_ok(items, incoming.drop_last());
        let item = incoming.last();
        assert(line_ok(incoming[incoming.len() - 1]));
        let res = merge_one(prev.0, item);
        assert forall|j: int| 0 <= j < res.0.len() implies line_ok(#[trigger] res.0[j]) by {
            match first_index(prev.0, variant_is(item.variant_id@)) {
                Some(i) => {
                    if j != i {
                        assert(res.0[j] == prev.0[j]);
                    } else {
                        assert(line_ok(prev.0[i]));
                    }
                },
                None => {
                    if j < prev.0.len() {
                        assert(res.0[j] == prev.0[j]);
                    }
                },
            }
        }
    }
}

/// A line item's pricing line within a cart priced in `currency`.
pub open spec fn line_pricing_of(it: LineItem, currency: Currency) -> LineItemPricing {
    LineItemPricing {
        line_item_id: it.id,
        unit_price: it.unit_price,
        quantity: it.quantity,
        subtotal: it.total_price,
        discount_amount: Money { amount_cents: 0, currency },
        tax_amount: Money { amount_cents: 0, currency },
        total: it.total_price,
    }
}

/// The totals of line items.
pub open spec fn line_totals(items: Seq<LineItem>) -> Seq<Money> {
    items.map_values(|it: LineItem| it.total_price)
}

/// The amounts of applied discounts.
pub open spec fn discount_amounts(ds: Seq<AppliedDiscount>) -> Seq<Money> {
    ds.map_values(|d: AppliedDiscount| d.amount)
}

/// `a + b`, clamped to the `i64` range (as `i64::saturating_add`).
pub open spec fn saturating_add(a: i64, b: i64) -> i64 {
    if a + b > i64::MAX {
        i64::MAX
    } else if a + b < i64::MIN {
        i64::MIN
    } else {
        (a + b) as i64
    }
}

/// The quantity a merged line item ends with: the sum, saturated, and capped at
/// the maximum per item.
pub open spec fn merged_quantity(a: i64, b: i64) -> i64 {
    let s = saturating_add(a, b);
    if s > MAX_QUANTITY_PER_ITEM { MAX_QUANTITY_PER_ITEM } else { s }
}

/// Merging one incoming line item into a list of line items: an item of the same
/// variant gets the merged quantity and is repriced (when repricing overflows the
/// quantity stays changed and the merge stops, shown by `false`); otherwise the
/// incoming item is appended.
pub open spec fn merge_one(items: Seq<LineItem>, item: LineItem) -> (Seq<LineItem>, bool) {
    match first_index(items, variant_is(item.variant_id@)) {
        Some(i) => {
            let e = items[i];
            let q = merged_quantity(e.quantity, item.quantity);
            if fits_i64(e.unit_price.amount_cents * q) {
                (items.update(i, repriced(e, q)), true)
            } else {
                (items.update(i, with_quantity(e, q)), false)
            }
        },
        None => (items.push(item), true),
    }
}

/// Merging incoming line items one after another, stopping at the first failure.
pub open spec fn merge_all(items: Seq<LineItem>, incoming: Seq<LineItem>) -> (Seq<LineItem>, bool)
    decreases incoming.len(),
{
    if incoming.len() == 0 {
        (items, true)
    } else {
        let prev = merge_all(items, incoming.drop_last());
        if prev.1 {
            merge_one(prev.0, incoming.last())
        } else {
            prev
        }
    }
}

/// No two line items are for the same variant.
pub open spec fn variants_distinct(items: Seq<LineItem>) -> bool {
    forall|a: int, b: int|
        0 <= a < b < items.len() ==> (#[trigger] items[a]).variant_id@ != (#[trigger] items[b]).variant_id@
}

/// Replacing a line item by one of the same variant keeps the variants distinct.
pub proof fn lemma_update_same_variant(items: Seq<LineItem>, i: int, x: LineItem)
    requires
        variants_distinct(items),
        0 <= i < items.len(),
        x.variant_id@ == items[i].variant_id@,
    ensures
        variants_distinct(items.update(i, x)),
{
    let u = items.update(i, x);
    assert forall|a: int, b: int| 0 <= a < b < u.len() implies (#[trigger] u[a]).variant_id@ != (
    #[trigger] u[b]).variant_id@ by {
        assert(u[a].variant_id@ == items[a].variant_id@);
        assert(u[b].variant_id@ == items[b].variant_id@);
    }
}

/// Appending a line item of a variant that no line has keeps the variants distinct.
pub proof fn lemma_push_new_variant(items: Seq<LineItem>, x: LineItem)
    requires
        variants_distinct(items),
        first_index(items, variant_is(x.variant_id@)) is None,
    ensures
        variants_distinct(items.push(x)),
{
    lemma_first_index_none_all(items, variant_is(x.variant_id@));
    let u = items.push(x);
    assert forall|a: int, b: int| 0 <= a < b < u.len() implies (#[trigger] u[a]).variant_id@ != (
    #[trigger] u[b]).variant_id@ by {
        assert(u[a] == items[a]);
        if b < items.len() {
            assert(u[b] == items[b]);
        } else {
            assert(!variant_is(x.variant_id@)(items[a]));
        }
    }
}

/// Removing line items keeps the variants distinct.
pub proof fn lemma_keep_variants_distinct(items: Seq<LineItem>, p: spec_fn(LineItem) -> bool)
    requires
        variants_distinct(items),
    ensures
        variants_distinct(keep(items, p)),
{
    let key = |it: LineItem| it.variant_id@;
    assert forall|a: int, b: int| 0 <= a < b < items.len() implies key(#[trigger] items[a]) != key(
    #[trigger] items[b]) by {}
    lemma_keep_distinct(items, p, key);
    let k = keep(items, p);
    assert forall|a: int, b: int| 0 <= a < b < k.len() implies (#[trigger] k[a]).variant_id@ != (
    #[trigger] k[b]).variant_id@ by {
        assert(key(k[a]) != key(k[b]));
    }
}

/// Merging one line item keeps the variants distinct.
pub proof fn lemma_merge_one_distinct(items: Seq<LineItem>, item: LineItem)
    requires
        variants_distinct(items),
    ensures
        variants_distinct(merge_one(items, item).0),
{
    match first_index(items, variant_is(item.variant_id@)) {
        Some(i) => {
            let e = items[i];
            let q = merged_quantity(e.quantity, item.quantity);
            lemma_update_same_variant(items, i, repriced(e, q));
            lemma_update_same_variant(items, i, with_quantity(e, q));
        },
        None => {
            lemma_push_new_variant(items, item);
        },
    }
}

/// A cart holds one line per variant, and merging in any line items, even
/// several of one variant, keeps it so.
pub proof fn law_merge_keeps_one_line_per_variant(items: Seq<LineItem>, incoming: Seq<LineItem>)
    requires
        variants_distinct(items),
    ensures
        variants_distinct(merge_all(items, incoming).0),
    decreases incoming.len(),
{
    if incoming.len() > 0 {
        law_merge_keeps_one_line_per_variant(items, incoming.drop_last());
        let prev = merge_all(items, incoming.drop_last());
        if prev.1 {
            lemma_merge_one_distinct(prev.0, incoming.last());
        }
    }
}

/// Once a merge has failed, merging more items changes nothing.
pub proof fn lemma_merge_all_stops(items: Seq<LineItem>, incoming: Seq<LineItem>, k: int)
    requires
        0 <= k <= incoming.len(),
        !merge_all(items, incoming.take(k)).1,
    ensures
        merge_all(items, incoming) == merge_all(items, incoming.take(k)),
    decreases incoming.len() - k,
{
    if k < incoming.len() {
        assert(incoming.take(k + 1).drop_last() =~= incoming.take(k));
        lemma_merge_all_stops(items, incoming, k + 1);
    } else {
        assert(incoming.take(k) =~= incoming);
    }
}

/// A shopping cart.
#[derive(Debug)]
pub struct Cart {
    /// Unique cart identifier.
    pub id: CartId,
    /// Session ID for anonymous carts.
    pub session_id: String,
    /// User ID for authenticated carts.
    pub user_id: Option<UserId>,
    /// Items in the cart.
    pub items: Vec<LineItem>,
    /// Applied discounts.
    pub discounts: Vec<AppliedDiscount>,
    /// Cart currency.
    pub currency: Currency,
    /// Customer note.
    pub note: Option<String>,
    /// Additional metadata.
    pub metadata: serde_json::Value,
    /// Unix timestamp of creation.
    pub created_at: i64,
    /// Unix timestamp of last update.
    pub updated_at: i64,
    /// Unix timestamp when cart expires.
    pub expires_at: Option<i64>,
}

impl Cart {
    /// The fields other than the items, the discounts and the update time agree.
    pub open spec fn same_identity(self, other: Cart) -> bool {
        &&& self.id == other.id
        &&& self.session_id == other.session_id
        &&& self.user_id == other.user_id
        &&& self.currency == other.currency
        &&& self.note == other.note
        &&& self.metadata == other.metadata
        &&& self.created_at == other.created_at
        &&& self.expires_at == other.expires_at
    }

    /// Every line item has a quantity between one and the maximum per item, and
    /// a total equal to its unit price times its quantity.
    pub open spec fn wf(self) -> bool {
        lines_ok(self.items@)
    }

    /// Create a new, empty cart for a session, in US dollars.
    pub fn new(session_id: &str) -> (r: Self)
        ensures
            r.session_id@ == session_id@,
            r.user_id is None,
            r.items@.len() == 0,
            r.discounts@.len() == 0,
            r.currency == Currency::USD,
            r.note is None,
            r.created_at == r.updated_at,
            r.expires_at is None,
    {
        let now = current_timestamp();
        Cart {
            id: CartId::generate(),
            session_id: session_id.to_string(),
            user_id: None,
            items: Vec::new(),
            discounts: Vec::new(),
            currency: Currency::USD,
            note: None,
            metadata: empty_json_object(),
            created_at: now,
            updated_at: now,
            expires_at: None,
        }
    }

    /// Create a cart for an authenticated user.
    pub fn for_user(user_id: UserId, session_id: &str) -> (r: Self)
        ensures
            r.session_id@ == session_id@,
            r.user_id == Some(user_id),
            r.items@.len() == 0,
            r.discounts@.len() == 0,
            r.currency == Currency::USD,
            r.note is None,
            r.created_at == r.updated_at,
            r.expires_at is None,
    {
        let mut cart = Self::new(session_id);
        cart.user_id = Some(user_id);
        cart
    }

    /// Add an item to the cart. A positive quantity of a variant already in the
    /// cart is added to that line; otherwise a new line is appended. Fails on a
    /// quantity that is not positive, on a line quantity above the maximum, and
    /// on arithmetic overflow; a failed add leaves the cart unchanged.
    #[verifier::rlimit(40)]
    pub fn add_item(
        &mut self,
        variant_id: VariantId,
        product_id: ProductId,
        product_name: &str,
        quantity: i64,
        unit_price: Money,
    ) -> (r: Result<LineItemId, CommerceError>)
        ensures
            old(self).wf() && r is Ok ==> final(self).wf(),
            variants_distinct(old(self).items@) ==> variants_distinct(final(self).items@),
            r is Err ==> *final(self) == *old(self),
            r is Ok ==> quantity_sum(final(self).items@) == quantity_sum(old(self).items@) + quantity,
            quantity <= 0 ==> r == Err::<LineItemId, CommerceError>(
                CommerceError::InvalidQuantity(quantity),
            ) && *final(self) == *old(self),
            quantity > 0 ==> match first_index(old(self).items@, variant_is(variant_id@)) {
                Some(i) => {
                    let e = old(self).items@[i];
                    if !fits_i64(e.quantity + quantity) {
                        r == Err::<LineItemId, CommerceError>(CommerceError::Overflow)
                            && *final(self) == *old(self)
                    } else if e.quantity + quantity > MAX_QUANTITY_PER_ITEM {
                        r == Err::<LineItemId, CommerceError>(
                            CommerceError::QuantityExceedsLimit(
                                (e.quantity + quantity) as i64,
                                MAX_QUANTITY_PER_ITEM,
                            ),
                        ) && *final(self) == *old(self)
                    } else if !fits_i64(e.unit_price.amount_cents * (e.quantity + quantity)) {
                        r == Err::<LineItemId, CommerceError>(CommerceError::Overflow)
                            && *final(self) == *old(self)
                    } else {
                        r == Ok::<LineItemId, CommerceError>(e.id) && final(self).items@
                            == old(self).items@.update(
                            i,
                            repriced(e, (e.quantity + quantity) as i64),
                        ) && final(self).same_identity(*old(self))
                            && final(self).discounts == old(self).discounts
                    }
                },
                None => {
                    if quantity > MAX_QUANTITY_PER_ITEM {
                        r == Err::<LineItemId, CommerceError>(
                            CommerceError::QuantityExceedsLimit(quantity, MAX_QUANTITY_PER_ITEM),
                        ) && *final(self) == *old(self)
                    } else if !fits_i64(unit_price.amount_cents * quantity) {
                        r == Err::<LineItemId, CommerceError>(CommerceError::Overflow)
                            && *final(self) == *old(self)
                    } else {
                        &&& final(self).items@.len() == old(self).items@.len() + 1
                        &&& final(self).items@.drop_last() == old(self).items@
                        &&& is_new_line(
                            final(self).items@.last(),
                            variant_id@,
                            product_id@,
                            product_name@,
                            quantity,
                            unit_price,
                        )
                        &&& r == Ok::<LineItemId, CommerceError>(final(self).items@.last().id)
                        &&& final(self).same_identity(*old(self))
                        &&& final(self).discounts == old(self).discounts
                    }
                },
            },
    {
        if quantity <= 0 {
            return Err(CommerceError::InvalidQuantity(quantity));
        }
        match find_variant(&self.items, &variant_id) {
            Some(i) => {
                let new_quantity = match self.items[i].quantity.checked_add(quantity) {
                    Some(q) => q,
                    None => return Err(CommerceError::Overflow),
                };
                if new_quantity > MAX_QUANTITY_PER_ITEM {
                    return Err(
                        CommerceError::QuantityExceedsLimit(new_quantity, MAX_QUANTITY_PER_ITEM),
                    );
                }
                if self.items[i].unit_price.try_multiply(new_quantity).is_none() {
                    return Err(CommerceError::Overflow);
                }
                self.items[i].quantity = new_quantity;
                let res = self.items[i].update_total();
                proof {
                    assert(res is Ok);
                    assert(self.items@ =~= old(self).items@.update(i as int, self.items@[i as int]));
                    if variants_distinct(old(self).items@) {
                        lemma_update_same_variant(old(self).items@, i as int, self.items@[i as int]);
                    }
                }
                self.updated_at = current_timestamp();
                proof {
                    assert(self.items@ =~= old(self).items@.update(i as int, self.items@[i as int]));
                    lemma_quantity_sum_update(old(self).items@, i as int, self.items@[i as int]);
                    if old(self).wf() {
                        assert forall|j: int| 0 <= j < self.items@.len() implies line_ok(#[trigger] self.items@[j]) by {
                            if j != i {
                                assert(self.items@[j] == old(self).items@[j]);
                            }
                        }
                    }
                }
                Ok(self.items[i].id.clone())
            },
            None => {
                if quantity > MAX_QUANTITY_PER_ITEM {
                    return Err(CommerceError::QuantityExceedsLimit(quantity, MAX_QUANTITY_PER_ITEM));
                }
                let item = match LineItem::new(variant_id, product_id, product_name, quantity, unit_price) {
                    Ok(item) => item,
                    Err(e) => return Err(e),
                };
                let id = item.id.clone();
                proof {
                    if variants_distinct(old(self).items@) {
                        lemma_push_new_variant(old(self).items@, item);
                    }
                }
                self.items.push(item);
                self.updated_at = current_timestamp();
                assert(self.items@.drop_last() =~= old(self).items@);
                assert(quantity_sum(self.items@) == quantity_sum(old(self).items@) + quantity);
                proof {
                    if old(self).wf() {
                        assert forall|j: int| 0 <= j < self.items@.len() implies line_ok(#[trigger] self.items@[j]) by {
                            if j < old(self).items@.len() {
                                assert(self.items@[j] == old(self).items@[j]);
                            }
                        }
                    }
                }
                Ok(id)
            },
        }
    }

    /// Update a line item's quantity. A quantity that is not positive removes
    /// the line (the result says whether one was removed); a quantity above the
    /// maximum fails; otherwise the line with that identifier, if any, gets the
    /// new quantity and is repriced. A failure leaves the cart unchanged.
    #[verifier::rlimit(40)]
    pub fn update_quantity(&mut self, line_item_id: &LineItemId, quantity: i64) -> (r: Result<bool, CommerceError>)
        ensures
            old(self).wf() && r is Ok ==> final(self).wf(),
            variants_distinct(old(self).items@) ==> variants_distinct(final(self).items@),
            r is Err ==> *final(self) == *old(self),
            quantity <= 0 ==> {
                &&& final(self).items@ == keep(old(self).items@, line_is_not(line_item_id@))
                &&& r == Ok::<bool, CommerceError>(exists|j: int| 0 <= j < old(self).items@.len()
                    && (#[trigger] old(self).items@[j]).id@ == line_item_id@)
                &&& final(self).same_identity(*old(self))
                &&& final(self).discounts == old(self).discounts
            },
            quantity > MAX_QUANTITY_PER_ITEM ==> r == Err::<bool, CommerceError>(
                CommerceError::QuantityExceedsLimit(quantity, MAX_QUANTITY_PER_ITEM),
            ) && *final(self) == *old(self),
            0 < quantity <= MAX_QUANTITY_PER_ITEM ==> match first_index(old(self).items@, line_is(line_item_id@)) {
                Some(i) => {
                    let e = old(self).items@[i];
                    if fits_i64(e.unit_price.amount_cents * quantity) {
                        r == Ok::<bool, CommerceError>(true)
                            && final(self).items@ == old(self).items@.update(i, repriced(e, quantity))
                            && final(self).same_identity(*old(self))
                            && final(self).discounts == old(self).discounts
                    } else {
                        r == Err::<bool, CommerceError>(CommerceError::Overflow)
                            && *final(self) == *old(self)
                    }
                },
                None => r == Ok::<bool, CommerceError>(false) && *final(self) == *old(self),
            },
    {
        if quantity <= 0 {
            return Ok(self.remove_item(line_item_id));
        }
        if quantity > MAX_QUANTITY_PER_ITEM {
            return Err(CommerceError::QuantityExceedsLimit(quantity, MAX_QUANTITY_PER_ITEM));
        }
        match find_line(&self.items, line_item_id) {
            Some(i) => {
                if self.items[i].unit_price.try_multiply(quantity).is_none() {
                    return Err(CommerceError::Overflow);
                }
                self.items[i].quantity = quantity;
                let res = self.items[i].update_total();
                proof {
                    assert(res is Ok);
                    assert(self.items@ =~= old(self).items@.update(i as int, self.items@[i as int]));
                    if variants_distinct(old(self).items@) {
                        lemma_update_same_variant(old(self).items@, i as int, self.items@[i as int]);
                    }
                }
                self.updated_at = current_timestamp();
                proof {
                    if old(self).wf() {
                        assert forall|j: int| 0 <= j < self.items@.len() implies line_ok(#[trigger] self.items@[j]) by {
                            if j != i {
                                assert(self.items@[j] == old(self).items@[j]);
                            }
                        }
                    }
                }
                Ok(true)
            },
            None => Ok(false),
        }
    }

    /// Remove the line items with an identifier; says whether any was removed.
    pub fn remove_item(&mut self, line_item_id: &LineItemId) -> (r: bool)
        ensures
            final(self).items@ == keep(old(self).items@, line_is_not(line_item_id@)),
            r == exists|j: int| 0 <= j < old(self).items@.len()
                && (#[trigger] old(self).items@[j]).id@ == line_item_id@,
            final(self).same_identity(*old(self)),
            final(self).discounts == old(self).discounts,
            !r ==> final(self).updated_at == old(self).updated_at,
            old(self).wf() ==> final(self).wf(),
            variants_distinct(old(self).items@) ==> variants_distinct(final(self).items@),
    {
        let len_before = self.items.len();
        remove_lines_with_id(&mut self.items, line_item_id);
        proof {
            if variants_distinct(old(self).items@) {
                lemma_keep_variants_distinct(old(self).items@, line_is_not(line_item_id@));
            }
        }
        let removed = self.items.len() < len_before;
        proof {
            if old(self).wf() {
                lemma_keep_preserves(old(self).items@, line_is_not(line_item_id@), |it: LineItem| line_ok(it));
            }
            lemma_keep_len(old(self).items@, line_is_not(line_item_id@));
            if removed {
                let j = choose|j: int| 0 <= j < old(self).items@.len()
                    && !line_is_not(line_item_id@)(#[trigger] old(self).items@[j]);
                assert(old(self).items@[j].id@ == line_item_id@);
            } else {
                assert forall|j: int| 0 <= j < old(self).items@.len() implies
                    (#[trigger] old(self).items@[j]).id@ != line_item_id@ by {
                    assert(line_is_not(line_item_id@)(old(self).items@[j]));
                }
            }
        }
        if removed {
            self.updated_at = current_timestamp();
        }
        removed
    }

    /// Remove all items and discounts.
    pub fn clear(&mut self)
        ensures
            final(self).items@.len() == 0,
            final(self).discounts@.len() == 0,
            final(self).same_identity(*old(self)),
    {
        self.items.clear();
        self.discounts.clear();
        self.updated_at = current_timestamp();
    }

    /// Apply a discount, replacing any applied discount with the same code.
    pub fn apply_discount(&mut self, discount: AppliedDiscount)
        ensures
            final(self).discounts@ == keep(old(self).discounts@, code_is_not(discount.code@)).push(discount),
            final(self).items == old(self).items,
            final(self).same_identity(*old(self)),
    {
        remove_discounts_with_code(&mut self.discounts, discount.code.as_str());
        self.discounts.push(discount);
        self.updated_at = current_timestamp();
    }

    /// Remove the applied discounts with a code; says whether any was removed.
    pub fn remove_discount(&mut self, code: &str) -> (r: bool)
        ensures
            final(self).discounts@ == keep(old(self).discounts@, code_is_not(code@)),
            r == exists|j: int| 0 <= j < old(self).discounts@.len()
                && (#[trigger] old(self).discounts@[j]).code@ == code@,
            final(self).items == old(self).items,
            final(self).same_identity(*old(self)),
            !r ==> final(self).updated_at == old(self).updated_at,
    {
        let len_before = self.discounts.len();
        remove_discounts_with_code(&mut self.discounts, code);
        let removed = self.discounts.len() < len_before;
        proof {
            lemma_keep_len(old(self).discounts@, code_is_not(code@));
            if removed {
                let j = choose|j: int| 0 <= j < old(self).discounts@.len()
                    && !code_is_not(code@)(#[trigger] old(self).discounts@[j]);
                assert(old(self).discounts@[j].code@ == code@);
            } else {
                assert forall|j: int| 0 <= j < old(self).discounts@.len() implies
                    (#[trigger] old(self).discounts@[j]).code@ != code@ by {
                    assert(code_is_not(code@)(old(self).discounts@[j]));
                }
            }
        }
        if removed {
            self.updated_at = current_timestamp();
        }
        removed
    }

    /// The total item count: the sum of the line quantities.
    pub fn item_count(&self) -> (r: i64)
        requires
            forall|k: int| 0 <= k <= self.items@.len() ==> fits_i64(#[trigger] quantity_sum(self.items@.take(k))),
        ensures
            r == quantity_sum(self.items@),
    {
        let mut total: i64 = 0;
        let mut i: usize = 0;
        while i < self.items.len()
            invariant
                i <= self.items@.len(),
                forall|k: int| 0 <= k <= self.items@.len() ==> fits_i64(#[trigger] quantity_sum(self.items@.take(k))),
                total == quantity_sum(self.items@.take(i as int)),
            decreases self.items@.len() - i,
        {
            assert(self.items@.take(i + 1).drop_last() =~= self.items@.take(i as int));
            assert(fits_i64(quantity_sum(self.items@.take(i + 1))));
            total = total + self.items[i].quantity;
            i = i + 1;
        }
        assert(self.items@.take(i as int) =~= self.items@);
        total
    }

    /// The number of line items.
    pub fn unique_item_count(&self) -> (r: usize)
        ensures
            r == self.items@.len(),
    {
        self.items.len()
    }

    /// Whether the cart has no line items.
    pub fn is_empty(&self) -> (r: bool)
        ensures
            r == (self.items@.len() == 0),
    {
        self.items.len() == 0
    }

    /// The first line item with an identifier.
    pub fn get_item(&self, line_item_id: &LineItemId) -> (r: Option<&LineItem>)
        ensures
            match first_index(self.items@, line_is(line_item_id@)) {
                Some(i) => r == Some(&self.items@[i]),
                None => r is None,
            },
    {
        match find_line(&self.items, line_item_id) {
            Some(i) => {
                assert(first_index(self.items@, line_is(line_item_id@)) == Some(i as int));
                let r = &self.items[i];
                assert(*r == self.items@[i as int]);
                Some(r)
            },
            None => None,
        }
    }

    /// The first line item of a variant.
    pub fn get_item_by_variant(&self, variant_id: &VariantId) -> (r: Option<&LineItem>)
        ensures
            match first_index(self.items@, variant_is(variant_id@)) {
                Some(i) => r == Some(&self.items@[i]),
                None => r is None,
            },
    {
        match find_variant(&self.items, variant_id) {
            Some(i) => Some(&self.items[i]),
            None => None,
        }
    }

    /// Price the cart: the subtotal is the sum of the line totals, the discount
    /// total the sum of the applied discounts, and the grand total their
    /// difference; shipping and tax are zero. Fails with `Overflow` when a sum
    /// overflows or holds another currency than the cart's, and when the grand
    /// total leaves the `i64` range.
    pub fn calculate_pricing(&self) -> (r: Result<CartPricing, CommerceError>)
        ensures
            match (
                checked_sum(line_totals(self.items@), self.currency),
                checked_sum(discount_amounts(self.discounts@), self.currency),
            ) {
                (Some(a), Some(b)) => if !fits_i64(a - b) {
                    r == Err::<CartPricing, CommerceError>(CommerceError::Overflow)
                } else {
                    r matches Ok(p) && {
                    &&& p.subtotal == (Money { amount_cents: a as i64, currency: self.currency })
                    &&& p.discount_total == (Money { amount_cents: b as i64, currency: self.currency })
                    &&& p.shipping_total == (Money { amount_cents: 0, currency: self.currency })
                    &&& p.tax_total == (Money { amount_cents: 0, currency: self.currency })
                    &&& p.grand_total == (Money { amount_cents: (a - b) as i64, currency: self.currency })
                    &&& p.line_items@ == self.items@.map_values(|it: LineItem| line_pricing_of(it, self.currency))
                    }
                },
                _ => r == Err::<CartPricing, CommerceError>(CommerceError::Overflow),
            },
    {
        let mut line_items: Vec<LineItemPricing> = Vec::new();
        let mut totals: Vec<Money> = Vec::new();
        let mut i: usize = 0;
        while i < self.items.len()
            invariant
                i <= self.items@.len(),
                line_items@ =~= self.items@.take(i as int).map_values(|it: LineItem| line_pricing_of(it, self.currency)),
                totals@ =~= line_totals(self.items@.take(i as int)),
            decreases self.items@.len() - i,
        {
            let item = &self.items[i];
            line_items.push(LineItemPricing {
                line_item_id: item.id.clone(),
                unit_price: item.unit_price,
                quantity: item.quantity,
                subtotal: item.total_price,
                discount_amount: Money::zero(self.currency),
                tax_amount: Money::zero(self.currency),
                total: item.total_price,
            });
            totals.push(item.total_price);
            assert(self.items@.take(i + 1) =~= self.items@.take(i as int).push(self.items@[i as int]));
            i = i + 1;
        }
        assert(self.items@.take(i as int) =~= self.items@);
        let mut amounts: Vec<Money> = Vec::new();
        let mut j: usize = 0;
        while j < self.discounts.len()
            invariant
                j <= self.discounts@.len(),
                amounts@ =~= discount_amounts(self.discounts@.take(j as int)),
            decreases self.discounts@.len() - j,
        {
            amounts.push(self.discounts[j].amount);
            assert(self.discounts@.take(j + 1) =~= self.discounts@.take(j as int).push(self.discounts@[j as int]));
            j = j + 1;
        }
        assert(self.discounts@.take(j as int) =~= self.discounts@);
        let subtotal = match Money::try_sum(totals.as_slice(), self.currency) {
            Some(m) => m,
            None => return Err(CommerceError::Overflow),
        };
        let discount_total = match Money::try_sum(amounts.as_slice(), self.currency) {
            Some(m) => m,
            None => return Err(CommerceError::Overflow),
        };
        let grand_total = match subtotal.try_subtract(&discount_total) {
            Some(m) => m,
            None => return Err(CommerceError::Overflow),
        };
        Ok(CartPricing {
            subtotal,
            discount_total,
            shipping_total: Money::zero(self.currency),
            tax_total: Money::zero(self.currency),
            grand_total,
            line_items,
        })
    }

    /// Merge another cart's items into this one (e.g. when a user logs in): a
    /// variant already present gets the summed quantity, capped at the maximum
    /// per item, and is repriced; other items are appended. Stops with
    /// `Overflow` when repricing overflows.
    #[verifier::rlimit(40)]
    pub fn merge(&mut self, other: Cart) -> (r: Result<(), CommerceError>)
        ensures
            final(self).items@ == merge_all(old(self).items@, other.items@).0,
            variants_distinct(old(self).items@) ==> variants_distinct(final(self).items@),
            merge_all(old(self).items@, other.items@).1 ==> r is Ok,
            old(self).wf() && other.wf() && r is Ok ==> final(self).wf(),
            !merge_all(old(self).items@, other.items@).1 ==> r == Err::<(), CommerceError>(CommerceError::Overflow)
                && final(self).updated_at == old(self).updated_at,
            final(self).same_identity(*old(self)),
            final(self).discounts == old(self).discounts,
    {
        let ghost incoming = other.items@;
        proof {
            if variants_distinct(old(self).items@) {
                law_merge_keeps_one_line_per_variant(old(self).items@, incoming);
            }
        }
        let mut rest = other.items;
        let mut k: usize = 0;
        let n = rest.len();
        assert(incoming.take(0) =~= Seq::<LineItem>::empty());
        while rest.len() > 0
            invariant
                k <= n,
                n == incoming.len(),
                incoming == other.items@,
                rest@ =~= incoming.subrange(k as int, incoming.len() as int),
                merge_all(old(self).items@, incoming.take(k as int)) == (self.items@, true),
                variants_distinct(old(self).items@) ==> variants_distinct(merge_all(old(self).items@, incoming).0),
                self.same_identity(*old(self)),
                self.discounts == old(self).discounts,
                self.updated_at == old(self).updated_at,
            decreases rest@.len(),
        {
            let item = rest.remove(0);
            assert(item == incoming[k as int]);
            assert(incoming.take(k + 1).drop_last() =~= incoming.take(k as int));
            assert(incoming.take(k + 1).last() == item);
            let ghost before = self.items@;
            match find_variant(&self.items, &item.variant_id) {
                Some(i) => {
                    let sum = match self.items[i].quantity.checked_add(item.quantity) {
                        Some(s) => s,
                        None => if item.quantity > 0 { i64::MAX } else { i64::MIN },
                    };
                    let new_quantity = if sum > MAX_QUANTITY_PER_ITEM { MAX_QUANTITY_PER_ITEM } else { sum };
                    assert(new_quantity == merged_quantity(before[i as int].quantity, item.quantity));
                    self.items[i].quantity = new_quantity;
                    let res = self.items[i].update_total();
                    if res.is_err() {
                        proof {
                            assert(self.items@ =~= merge_one(before, item).0);
                            assert(!merge_one(before, item).1);
                            assert(merge_all(old(self).items@, incoming.take(k + 1)) == merge_one(before, item));
                            lemma_merge_all_stops(old(self).items@, incoming, k + 1);
                            assert(merge_all(old(self).items@, incoming).0 == self.items@);
                        }
                        return Err(CommerceError::Overflow);
                    }
                    assert(self.items@ =~= merge_one(before, item).0);
                },
                None => {
                    self.items.push(item);
                },
            }
            k = k + 1;
        }
        assert(k == n);
        assert(incoming.take(k as int) =~= incoming);
        assert(merge_all(old(self).items@, incoming) == (self.items@, true));
        proof {
            if old(self).wf() && other.wf() {
                lemma_merge_all_ok(old(self).items@, incoming);
            }
        }
        self.updated_at = current_timestamp();
        Ok(())
    }

    /// Set the authenticated user of the cart.
    pub fn set_user(&mut self, user_id: UserId)
        ensures
            final(self).user_id == Some(user_id),
            final(self).items == old(self).items,
            final(self).discounts == old(self).discounts,
            final(self).id == old(self).id,
            final(self).session_id == old(self).session_id,
            final(self).currency == old(self).currency,
            final(self).created_at == old(self).created_at,
    {
        self.user_id = Some(user_id);
        self.updated_at = current_timestamp();
    }
}

/// Removing the line that adding a new variant appended gives back the lines as
/// they were before, provided no earlier line shares the new line's identifier.
pub proof fn law_remove_undoes_add(before: Seq<LineItem>, added: LineItem)
    requires
        forall|j: int| 0 <= j < before.len() ==> (#[trigger] before[j]).id@ != added.id@,
    ensures
        keep(before.push(added), line_is_not(added.id@)) == before,
{
    lemma_keep_push_removed(before, added, line_is_not(added.id@));
}

/// After a discount is applied, it is the last applied discount and no other
/// applied discount has its code.
pub proof fn law_applied_code_unique(before: Seq<AppliedDiscount>, d: AppliedDiscount)
    ensures
        ({
            let after = keep(before, code_is_not(d.code@)).push(d);
            &&& after.last() == d
            &&& forall|j: int| 0 <= j < after.len() - 1 ==> (#[trigger] after[j]).code@ != d.code@
        }),
{
    lemma_keep_all(before, code_is_not(d.code@));
    let k = keep(before, code_is_not(d.code@));
    assert forall|j: int| 0 <= j < k.push(d).len() - 1 implies (#[trigger] k.push(d)[j]).code@ != d.code@ by {
        assert(code_is_not(d.code@)(k[j]));
    }
}

impl Default for Cart {
    fn default() -> (r: Self)
        ensures
            r.session_id@ == "anonymous"@,
            r.items@.len() == 0,
            r.discounts@.len() == 0,
    {
        Self::new("anonymous")
    }
}

/// Each line of a pricing breakdown totals its unit price times its quantity,
/// less its discount and plus its tax; that is the line item's own total, and
/// its subtotal is the same product.
pub proof fn law_line_pricing_totals(it: LineItem, currency: Currency)
    requires
        it.priced(),
        fits_i64(it.unit_price.amount_cents * it.quantity),
    ensures
        ({
            let lp = line_pricing_of(it, currency);
            &&& lp.unit_price == it.unit_price
            &&& lp.quantity == it.quantity
            &&& lp.subtotal.amount_cents == lp.unit_price.amount_cents * lp.quantity
            &&& lp.total.amount_cents == lp.unit_price.amount_cents * lp.quantity
                - lp.discount_amount.amount_cents + lp.tax_amount.amount_cents
            &&& lp.total == it.total_price
        }),
{
}

} // verus!
