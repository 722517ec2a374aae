//! The checkout flow: a state machine over checkout steps.
use vstd::prelude::*;
use crate::checkout::address::{address_complete, Address};
use crate::checkout::shipping::ShippingSelection;
use crate::error::CommerceError;
use crate::ids::{CartId, CheckoutId};
use crate::text::{join, join_strs, str_views};
use crate::time::current_timestamp;

verus! {

/// Steps in the checkout flow.
#[derive(Debug, Clone, Copy, PartialEq, Eq, Structural, Hash)]
pub enum CheckoutStep {
    /// Cart review.
    Cart,
    /// Contact information.
    Information,
    /// Shipping address and method.
    Shipping,
    /// Payment details.
    Payment,
    /// Order review before submission.
    Review,
    /// Checkout complete.
    Complete,
}

/// The machine name of a step.
pub open spec fn step_name(s: CheckoutStep) -> Seq<char> {
    match s {
        CheckoutStep::Cart => "cart"@,
        CheckoutStep::Information => "information"@,
        CheckoutStep::Shipping => "shipping"@,
        CheckoutStep::Payment => "payment"@,
        CheckoutStep::Review => "review"@,
        CheckoutStep::Complete => "complete"@,
    }
}

/// The display name of a step.
pub open spec fn step_title(s: CheckoutStep) -> Seq<char> {
    match s {
        CheckoutStep::Cart => "Cart"@,
        CheckoutStep::Information => "Information"@,
        CheckoutStep::Shipping => "Shipping"@,
        CheckoutStep::Payment => "Payment"@,
        CheckoutStep::Review => "Review"@,
        CheckoutStep::Complete => "Complete"@,
    }
}

/// The 1-based position of a step.
pub open spec fn step_number(s: CheckoutStep) -> u8 {
    match s {
        CheckoutStep::Cart => 1,
        CheckoutStep::Information => 2,
        CheckoutStep::Shipping => 3,
        CheckoutStep::Payment => 4,
        CheckoutStep::Review => 5,
        CheckoutStep::Complete => 6,
    }
}

/// The step after a step; none after `Complete`.
pub open spec fn next_step(s: CheckoutStep) -> Option<CheckoutStep> {
    match s {
        CheckoutStep::Cart => Some(CheckoutStep::Information),
        CheckoutStep::Information => Some(CheckoutStep::Shipping),
        CheckoutStep::Shipping => Some(CheckoutStep::Payment),
        CheckoutStep::Payment => Some(CheckoutStep::Review),
        CheckoutStep::Review => Some(CheckoutStep::Complete),
        CheckoutStep::Complete => None,
    }
}

/// The step before a step; none before `Cart`.
pub open spec fn prev_step(s: CheckoutStep) -> Option<CheckoutStep> {
    match s {
        CheckoutStep::Cart => None,
        CheckoutStep::Information => Some(CheckoutStep::Cart),
        CheckoutStep::Shipping => Some(CheckoutStep::Information),
        CheckoutStep::Payment => Some(CheckoutStep::Shipping),
        CheckoutStep::Review => Some(CheckoutStep::Payment),
        CheckoutStep::Complete => Some(CheckoutStep::Review),
    }
}

impl CheckoutStep {
    /// The machine name (e.g. "shipping").
    pub fn as_str(&self) -> (r: &'static str)
        ensures
            r@ == step_name(*self),
    {
        match self {
            CheckoutStep::Cart => "cart",
            CheckoutStep::Information => "information",
            CheckoutStep::Shipping => "shipping",
            CheckoutStep::Payment => "payment",
            CheckoutStep::Review => "review",
            CheckoutStep::Complete => "complete",
        }
    }

    /// The display name (e.g. "Shipping").
    pub fn display_name(&self) -> (r: &'static str)
        ensures
            r@ == step_title(*self),
    {
        match self {
            CheckoutStep::Cart => "Cart",
            CheckoutStep::Information => "Information",
            CheckoutStep::Shipping => "Shipping",
            CheckoutStep::Payment => "Payment",
            CheckoutStep::Review => "Review",
            CheckoutStep::Complete => "Complete",
        }
    }

    /// The step number (1-indexed).
    pub fn number(&self) -> (r: u8)
        ensures
            r == step_number(*self),
    {
        match self {
            CheckoutStep::Cart => 1,
            CheckoutStep::Information => 2,
            CheckoutStep::Shipping => 3,
            CheckoutStep::Payment => 4,
            CheckoutStep::Review => 5,
            CheckoutStep::Complete => 6,
        }
    }
}

/// Checkout flow state.
#[derive(Debug, Clone)]
pub struct CheckoutFlow {
    /// Unique checkout identifier.
    pub id: CheckoutId,
    /// Associated cart ID.
    pub cart_id: CartId,
    /// Current step.
    pub step: CheckoutStep,
    /// Completed steps.
    pub completed_steps: Vec<CheckoutStep>,
    /// Customer email.
    pub email: Option<String>,
    /// Shipping address.
    pub shipping_address: Option<Address>,
    /// Billing address (if different from shipping).
    pub billing_address: Option<Address>,
    /// Use shipping address as billing.
    pub billing_same_as_shipping: bool,
    /// Selected shipping method.
    pub shipping_method: Option<ShippingSelection>,
    /// Payment method identifier/token.
    pub payment_token: Option<String>,
    /// Unix timestamp of creation.
    pub created_at: i64,
    /// Unix timestamp of last update.
    pub updated_at: i64,
    /// Unix timestamp when checkout expires.
    pub expires_at: i64,
}

impl CheckoutFlow {
    /// What the payment step needs: an email, a complete shipping address and a
    /// shipping method.
    pub open spec fn payment_ready(self) -> bool {
        &&& self.email is Some
        &&& self.shipping_address matches Some(a) && address_complete(a)
        &&& self.shipping_method is Some
    }

    /// Whether the flow may move to a step.
    pub open spec fn may_advance_to(self, s: CheckoutStep) -> bool {
        match s {
            CheckoutStep::Cart => true,
            CheckoutStep::Information => true,
            CheckoutStep::Shipping => self.email is Some,
            CheckoutStep::Payment => self.payment_ready(),
            CheckoutStep::Review => self.payment_ready() && self.payment_token is Some,
            CheckoutStep::Complete => self.payment_ready() && self.payment_token is Some,
        }
    }

    /// Whether the shipping address is present and complete.
    pub open spec fn shipping_address_ready(self) -> bool {
        self.shipping_address matches Some(a) && address_complete(a)
    }

    /// The names of the missing data that the payment step checks for: an email,
    /// a complete shipping address and a shipping method.
    pub open spec fn missing_for_payment(self) -> Seq<Seq<char>> {
        let m1 = if self.email is None { seq!["email"@] } else { Seq::empty() };
        let m2 = if !self.shipping_address_ready() { m1.push("shipping address"@) } else { m1 };
        if self.shipping_method is None { m2.push("shipping method"@) } else { m2 }
    }

    /// The names of the missing data that the review step checks for: what the
    /// payment step checks for, and a payment method.
    pub open spec fn missing_for_review(self) -> Seq<Seq<char>> {
        if self.payment_token is None {
            self.missing_for_payment().push("payment method"@)
        } else {
            self.missing_for_payment()
        }
    }

    /// The names of the missing data reported for a step (the last step needs
    /// what the review step needs).
    pub open spec fn missing_for(self, s: CheckoutStep) -> Seq<Seq<char>> {
        match s {
            CheckoutStep::Shipping => if self.email is None { seq!["email"@] } else { Seq::empty() },
            CheckoutStep::Payment => self.missing_for_payment(),
            CheckoutStep::Review => self.missing_for_review(),
            CheckoutStep::Complete => self.missing_for_review(),
            _ => Seq::empty(),
        }
    }

    /// The completed steps after leaving the current step forward.
    pub open spec fn completed_after_leaving(self) -> Seq<CheckoutStep> {
        if self.completed_steps@.contains(self.step) {
            self.completed_steps@
        } else {
            self.completed_steps@.push(self.step)
        }
    }

    /// All the data other than the step, the completed steps and the update time agree.
    pub open spec fn same_data(self, other: CheckoutFlow) -> bool {
        &&& self.id == other.id
        &&& self.cart_id == other.cart_id
        &&& self.email == other.email
        &&& self.shipping_address == other.shipping_address
        &&& self.billing_address == other.billing_address
        &&& self.billing_same_as_shipping == other.billing_same_as_shipping
        &&& self.shipping_method == other.shipping_method
        &&& self.payment_token == other.payment_token
        &&& self.created_at == other.created_at
        &&& self.expires_at == other.expires_at
    }

    /// Create a new checkout flow at the cart step, expiring an hour after creation.
    pub fn new(cart_id: CartId) -> (r: Self)
        ensures
            r.cart_id == cart_id,
            r.step == CheckoutStep::Cart,
            r.completed_steps@.len() == 0,
            r.email is None,
            r.shipping_address is None,
            r.billing_address is None,
            r.billing_same_as_shipping,
            r.shipping_method is None,
            r.payment_token is None,
            r.created_at == r.updated_at,
            r.created_at + 3600 <= i64::MAX ==> r.expires_at == r.created_at + 3600,
    {
        let now = current_timestamp();
        let expires_at = if now <= i64::MAX - 3600 { now + 3600 } else { now.wrapping_add(3600) };
        CheckoutFlow {
            id: CheckoutId::generate(),
            cart_id,
            step: CheckoutStep::Cart,
            completed_steps: Vec::new(),
            email: None,
            shipping_address: None,
            billing_address: None,
            billing_same_as_shipping: true,
            shipping_method: None,
            payment_token: None,
            created_at: now,
            updated_at: now,
            expires_at,
        }
    }

    /// Whether the checkout can move to a step.
    pub fn can_advance_to(&self, step: CheckoutStep) -> (r: bool)
        ensures
            r == self.may_advance_to(step),
    {
        match step {
            CheckoutStep::Cart => true,
            CheckoutStep::Information => true,
            CheckoutStep::Shipping => self.email.is_some(),
            CheckoutStep::Payment => self.payment_is_ready(),
            CheckoutStep::Review => self.payment_is_ready() && self.payment_token.is_some(),
            CheckoutStep::Complete => self.payment_is_ready() && self.payment_token.is_some(),
        }
    }

    fn payment_is_ready(&self) -> (r: bool)
        ensures
            r == self.payment_ready(),
    {
        self.email.is_some() && match &self.shipping_address {
            Some(a) => a.is_complete(),
            None => false,
        } && self.shipping_method.is_some()
    }

    fn has_completed(&self, step: CheckoutStep) -> (r: bool)
        ensures
            r == self.completed_steps@.contains(step),
    {
        let mut i: usize = 0;
        while i < self.completed_steps.len()
            invariant
                i <= self.completed_steps@.len(),
                forall|j: int| 0 <= j < i ==> self.completed_steps@[j] != step,
            decreases self.completed_steps@.len() - i,
        {
            if self.completed_steps[i] == step {
                return true;
            }
            i = i + 1;
        }
        false
    }

    /// Move to the next step, recording the current one as completed. Fails at
    /// the last step, and when the data that the next step needs is missing.
    pub fn advance(&mut self) -> (r: Result<CheckoutStep, CommerceError>)
        ensures
            match next_step(old(self).step) {
                None => *final(self) == *old(self) && (r matches Err(
                    CommerceError::InvalidCheckoutTransition { from, to },
                ) && from@ == "complete"@ && to@ == "none"@),
                Some(n) => if old(self).may_advance_to(n) {
                    &&& r == Ok::<CheckoutStep, CommerceError>(n)
                    &&& final(self).step == n
                    &&& final(self).completed_steps@ == old(self).completed_after_leaving()
                    &&& final(self).same_data(*old(self))
                } else {
                    *final(self) == *old(self) && (r matches Err(CommerceError::CheckoutIncomplete(m))
                        && m@ == join(old(self).missing_for(n), ", "@))
                },
            },
            old(self).completed_steps@.no_duplicates() ==> final(self).completed_steps@.no_duplicates(),
    {
        let next = match self.step {
            CheckoutStep::Cart => CheckoutStep::Information,
            CheckoutStep::Information => CheckoutStep::Shipping,
            CheckoutStep::Shipping => CheckoutStep::Payment,
            CheckoutStep::Payment => CheckoutStep::Review,
            CheckoutStep::Review => CheckoutStep::Complete,
            CheckoutStep::Complete => {
                return Err(
                    CommerceError::InvalidCheckoutTransition {
                        from: "complete".to_string(),
                        to: "none".to_string(),
                    },
                );
            },
        };
        if !self.can_advance_to(next) {
            let missing = self.missing_for_step(next);
            return Err(CommerceError::CheckoutIncomplete(join_strs(&missing, ", ")));
        }
        if !self.has_completed(self.step) {
            self.completed_steps.push(self.step);
            proof {
                if old(self).completed_steps@.no_duplicates() {
                    assert forall|a: int, b: int|
                        0 <= a < self.completed_steps@.len() && 0 <= b < self.completed_steps@.len() && a != b
                        implies self.completed_steps@[a] != self.completed_steps@[b] by {
                        if a < old(self).completed_steps@.len() && b < old(self).completed_steps@.len() {
                        } else if a < old(self).completed_steps@.len() {
                            assert(old(self).completed_steps@.contains(self.completed_steps@[a]));
                        } else {
                            assert(old(self).completed_steps@.contains(self.completed_steps@[b]));
                        }
                    }
                }
            }
        }
        self.step = next;
        self.updated_at = current_timestamp();
        Ok(next)
    }

    /// Move back to the previous step; fails at the first step.
    pub fn go_back(&mut self) -> (r: Result<CheckoutStep, CommerceError>)
        ensures
            match prev_step(old(self).step) {
                None => *final(self) == *old(self) && (r matches Err(
                    CommerceError::InvalidCheckoutTransition { from, to },
                ) && from@ == "cart"@ && to@ == "none"@),
                Some(p) => r == Ok::<CheckoutStep, CommerceError>(p) && final(self).step == p
                    && final(self).completed_steps == old(self).completed_steps
                    && final(self).same_data(*old(self)),
            },
    {
        let prev = match self.step {
            CheckoutStep::Cart => {
                return Err(
                    CommerceError::InvalidCheckoutTransition {
                        from: "cart".to_string(),
                        to: "none".to_string(),
                    },
                );
            },
            CheckoutStep::Information => CheckoutStep::Cart,
            CheckoutStep::Shipping => CheckoutStep::Information,
            CheckoutStep::Payment => CheckoutStep::Shipping,
            CheckoutStep::Review => CheckoutStep::Payment,
            CheckoutStep::Complete => CheckoutStep::Review,
        };
        self.step = prev;
        self.updated_at = current_timestamp();
        Ok(prev)
    }

    /// Go to a step: the current step or any completed step is always allowed;
    /// the step right after the current one when its data is present (by
    /// advancing); anything else fails.
    pub fn go_to(&mut self, step: CheckoutStep) -> (r: Result<(), CommerceError>)
        ensures
            if step == old(self).step || old(self).completed_steps@.contains(step) {
                r is Ok && final(self).step == step && final(self).completed_steps == old(self).completed_steps
                    && final(self).same_data(*old(self))
            } else if old(self).may_advance_to(step) && step_number(step) == step_number(old(self).step) + 1 {
                r is Ok && final(self).step == step
                    && final(self).completed_steps@ == old(self).completed_after_leaving()
                    && final(self).same_data(*old(self))
            } else {
                *final(self) == *old(self) && (r matches Err(CommerceError::InvalidCheckoutTransition { from, to })
                    && from@ == step_name(old(self).step) && to@ == step_name(step))
            },
            old(self).completed_steps@.no_duplicates() ==> final(self).completed_steps@.no_duplicates(),
    {
        if step == self.step || self.has_completed(step) {
            self.step = step;
            self.updated_at = current_timestamp();
            Ok(())
        } else if self.can_advance_to(step) && step.number() as u16 == self.step.number() as u16 + 1 {
            assert(next_step(self.step) == Some(step));
            match self.advance() {
                Ok(_) => Ok(()),
                Err(e) => Err(e),
            }
        } else {
            Err(
                CommerceError::InvalidCheckoutTransition {
                    from: self.step.as_str().to_string(),
                    to: step.as_str().to_string(),
                },
            )
        }
    }

    /// The names of what is missing to move to a step.
    fn missing_for_step(&self, step: CheckoutStep) -> (r: Vec<&'static str>)
        ensures
            str_views(r@) == self.missing_for(step),
            r@.len() == 0 <==> self.may_advance_to(step),
    {
        let mut missing: Vec<&'static str> = Vec::new();
        match step {
            CheckoutStep::Shipping => {
                if self.email.is_none() {
                    missing.push("email");
                }
            },
            CheckoutStep::Payment | CheckoutStep::Review | CheckoutStep::Complete => {
                if self.email.is_none() {
                    missing.push("email");
                }
                let address_ready = match &self.shipping_address {
                    Some(a) => a.is_complete(),
                    None => false,
                };
                if !address_ready {
                    missing.push("shipping address");
                }
                if self.shipping_method.is_none() {
                    missing.push("shipping method");
                }
                if step != CheckoutStep::Payment && self.payment_token.is_none() {
                    missing.push("payment method");
                }
            },
            _ => {},
        }
        assert(str_views(missing@) =~= self.missing_for(step));
        proof { law_missing_exactly_when_refused(*self, step); }
        missing
    }

    /// Set the customer email.
    pub fn set_email(&mut self, email: &str)
        ensures
            final(self).email matches Some(e) && e@ == email@,
            *final(self) == (CheckoutFlow { email: final(self).email, updated_at: final(self).updated_at, ..*old(self) }),
    {
        self.email = Some(email.to_string());
        self.updated_at = current_timestamp();
    }

    /// Set the shipping address.
    pub fn set_shipping_address(&mut self, address: Address)
        ensures
            *final(self) == (CheckoutFlow { shipping_address: Some(address), updated_at: final(self).updated_at, ..*old(self) }),
    {
        self.shipping_address = Some(address);
        self.updated_at = current_timestamp();
    }

    /// Set a billing address distinct from the shipping address.
    pub fn set_billing_address(&mut self, address: Address)
        ensures
            *final(self) == (CheckoutFlow {
                billing_address: Some(address),
                billing_same_as_shipping: false,
                updated_at: final(self).updated_at,
                ..*old(self)
            }),
    {
        self.billing_address = Some(address);
        self.billing_same_as_shipping = false;
        self.updated_at = current_timestamp();
    }

    /// Set whether billing uses the shipping address; setting it drops any
    /// separate billing address.
    pub fn set_billing_same_as_shipping(&mut self, same: bool)
        ensures
            *final(self) == (CheckoutFlow {
                billing_same_as_shipping: same,
                billing_address: if same { None } else { old(self).billing_address },
                updated_at: final(self).updated_at,
                ..*old(self)
            }),
    {
        self.billing_same_as_shipping = same;
        if same {
            self.billing_address = None;
        }
        self.updated_at = current_timestamp();
    }

    /// Set the shipping method.
    pub fn set_shipping_method(&mut self, selection: ShippingSelection)
        ensures
            *final(self) == (CheckoutFlow { shipping_method: Some(selection), updated_at: final(self).updated_at, ..*old(self) }),
    {
        self.shipping_method = Some(selection);
        self.updated_at = current_timestamp();
    }

    /// Set the payment token.
    pub fn set_payment_token(&mut self, token: &str)
        ensures
            final(self).payment_token matches Some(t) && t@ == token@,
            *final(self) == (CheckoutFlow { payment_token: final(self).payment_token, updated_at: final(self).updated_at, ..*old(self) }),
    {
        self.payment_token = Some(token.to_string());
        self.updated_at = current_timestamp();
    }

    /// The billing address in effect: the shipping address when billing is the
    /// same as shipping, otherwise the billing address.
    pub fn effective_billing_address(&self) -> (r: Option<&Address>)
        ensures
            r == if self.billing_same_as_shipping {
                match self.shipping_address {
                    Some(a) => Some(&a),
                    None => None,
                }
            } else {
                match self.billing_address {
                    Some(a) => Some(&a),
                    None => None,
                }
            },
    {
        if self.billing_same_as_shipping {
            self.shipping_address.as_ref()
        } else {
            self.billing_address.as_ref()
        }
    }

    /// Whether checkout is complete.
    pub fn is_complete(&self) -> (r: bool)
        ensures
            r == (self.step == CheckoutStep::Complete),
    {
        self.step == CheckoutStep::Complete
    }

    /// Whether the checkout has expired at a given time.
    pub fn is_expired_at(&self, now: i64) -> (r: bool)
        ensures
            r == (now > self.expires_at),
    {
        now > self.expires_at
    }

    /// Whether the checkout has expired, by the clock.
    pub fn is_expired(&self) -> bool {
        self.is_expired_at(current_timestamp())
    }

    /// The progress through the steps, in percent (rounded down).
    pub fn progress_percent(&self) -> (r: u8)
        ensures
            r == step_number(self.step) * 100 / 6,
    {
        (self.step.number() as u16 * 100 / 6) as u8
    }
}

/// Going back after a successful advance returns to the step one started from.
pub proof fn law_back_after_advance(s: CheckoutStep)
    ensures
        next_step(s) matches Some(n) ==> prev_step(n) == Some(s),
{
}

/// Advancing goes to the step whose number is one more.
pub proof fn law_advance_numbers(s: CheckoutStep)
    ensures
        next_step(s) matches Some(n) ==> step_number(n) == step_number(s) + 1,
        next_step(s) is None <==> s == CheckoutStep::Complete,
{
}

/// Each step's requirements include those of the steps before it.
pub proof fn law_requirements_accumulate(f: CheckoutFlow)
    ensures
        f.may_advance_to(CheckoutStep::Complete) ==> f.may_advance_to(CheckoutStep::Review),
        f.may_advance_to(CheckoutStep::Review) ==> f.may_advance_to(CheckoutStep::Payment),
        f.may_advance_to(CheckoutStep::Payment) ==> f.may_advance_to(CheckoutStep::Shipping),
        f.may_advance_to(CheckoutStep::Shipping) ==> f.may_advance_to(CheckoutStep::Information),
{
}

/// The missing data reported for a step is empty exactly when the flow may
/// move to that step, so a refused advance always names what is missing; and
/// no name is reported twice.
pub proof fn law_missing_exactly_when_refused(f: CheckoutFlow, s: CheckoutStep)
    ensures
        f.missing_for(s).len() == 0 <==> f.may_advance_to(s),
        f.missing_for(s).no_duplicates(),
{
    reveal_strlit("email");
    reveal_strlit("shipping address");
    reveal_strlit("shipping method");
    reveal_strlit("payment method");
    let m1 = if f.email is None { seq!["email"@] } else { Seq::empty() };
    let m2 = if !f.shipping_address_ready() { m1.push("shipping address"@) } else { m1 };
    let m3 = f.missing_for_payment();
    assert(m2.len() == 0 ==> f.shipping_address_ready());
    assert("email"@ != "shipping address"@) by { assert("email"@.len() != "shipping address"@.len()); }
    assert("email"@ != "shipping method"@) by { assert("email"@[0] != "shipping method"@[0]); }
    assert("shipping address"@ != "shipping method"@) by { assert("shipping address"@[9] != "shipping method"@[9]); }
    assert("email"@ != "payment method"@) by { assert("email"@[0] != "payment method"@[0]); }
    assert("shipping address"@ != "payment method"@) by { assert("shipping address"@[0] != "payment method"@[0]); }
    assert("shipping method"@ != "payment method"@) by { assert("shipping method"@[0] != "payment method"@[0]); }
    assert(m3.no_duplicates());
    assert(f.missing_for_review().no_duplicates());
}

/// What each step needs, in terms of the flow's data: the shipping step an
/// email; the payment step an email, a complete shipping address and a
/// shipping method; the review and final steps all that and a payment method.
/// In particular the review step is never reached without a payment method,
/// and when one is missing it is named among what is missing.
pub proof fn law_step_requirements(f: CheckoutFlow)
    ensures
        f.may_advance_to(CheckoutStep::Shipping) <==> f.email is Some,
        f.may_advance_to(CheckoutStep::Payment) <==> (f.email is Some && (f.shipping_address matches Some(a)
            && address_complete(a)) && f.shipping_method is Some),
        f.may_advance_to(CheckoutStep::Review) <==> (f.email is Some && (f.shipping_address matches Some(a)
            && address_complete(a)) && f.shipping_method is Some && f.payment_token is Some),
        f.may_advance_to(CheckoutStep::Complete) <==> f.may_advance_to(CheckoutStep::Review),
        f.may_advance_to(CheckoutStep::Review) ==> f.payment_token is Some,
        f.payment_token is None ==> f.missing_for(CheckoutStep::Review).contains("payment method"@),
{
    if f.payment_token is None {
        let m = f.missing_for(CheckoutStep::Review);
        assert(m[m.len() - 1] == "payment method"@);
    }
}

} // verus!
