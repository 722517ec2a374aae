//! Money in the smallest unit of a currency (cents for USD), so that amounts
//! are exact integers.
use vstd::prelude::*;
use crate::platform::{ascii_upper, is_ascii_text, push_char, spec_to_uppercase, to_uppercase};
use crate::text::{dec_digits, push_dec, str_eq};

verus! {

/// The sum of two amounts of one currency, when it fits an `i64`.
pub open spec fn checked_add_money(a: Money, b: Money) -> Option<Money> {
    if a.currency == b.currency && fits_i64(a.amount_cents + b.amount_cents) {
        Some(Money { amount_cents: (a.amount_cents + b.amount_cents) as i64, currency: a.currency })
    } else {
        None
    }
}

/// The difference of two amounts of one currency, when it fits an `i64`.
pub open spec fn checked_sub_money(a: Money, b: Money) -> Option<Money> {
    if a.currency == b.currency && fits_i64(a.amount_cents - b.amount_cents) {
        Some(Money { amount_cents: (a.amount_cents - b.amount_cents) as i64, currency: a.currency })
    } else {
        None
    }
}

/// Supported currencies.
#[derive(Debug, Clone, Copy, PartialEq, Eq, Structural, Hash)]
pub enum Currency {
    USD,
    EUR,
    GBP,
    JPY,
    CAD,
    AUD,
    CHF,
    CNY,
    INR,
    MXN,
}

/// The ISO code of a currency.
pub open spec fn code_of(c: Currency) -> Seq<char> {
    match c {
        Currency::USD => "USD"@,
        Currency::EUR => "EUR"@,
        Currency::GBP => "GBP"@,
        Currency::JPY => "JPY"@,
        Currency::CAD => "CAD"@,
        Currency::AUD => "AUD"@,
        Currency::CHF => "CHF"@,
        Currency::CNY => "CNY"@,
        Currency::INR => "INR"@,
        Currency::MXN => "MXN"@,
    }
}

/// The display symbol of a currency.
pub open spec fn symbol_of(c: Currency) -> Seq<char> {
    match c {
        Currency::USD => "$"@,
        Currency::EUR => "\u{20ac}"@,
        Currency::GBP => "\u{00a3}"@,
        Currency::JPY => "\u{00a5}"@,
        Currency::CAD => "CA$"@,
        Currency::AUD => "A$"@,
        Currency::CHF => "CHF"@,
        Currency::CNY => "\u{00a5}"@,
        Currency::INR => "\u{20b9}"@,
        Currency::MXN => "MX$"@,
    }
}

/// The number of decimal places of a currency's amounts.
pub open spec fn places_of(c: Currency) -> nat {
    match c {
        Currency::JPY => 0,
        _ => 2,
    }
}

/// The currency whose code is exactly `s`, if any.
pub open spec fn currency_with_code(s: Seq<char>) -> Option<Currency> {
    if s == "USD"@ {
        Some(Currency::USD)
    } else if s == "EUR"@ {
        Some(Currency::EUR)
    } else if s == "GBP"@ {
        Some(Currency::GBP)
    } else if s == "JPY"@ {
        Some(Currency::JPY)
    } else if s == "CAD"@ {
        Some(Currency::CAD)
    } else if s == "AUD"@ {
        Some(Currency::AUD)
    } else if s == "CHF"@ {
        Some(Currency::CHF)
    } else if s == "CNY"@ {
        Some(Currency::CNY)
    } else if s == "INR"@ {
        Some(Currency::INR)
    } else if s == "MXN"@ {
        Some(Currency::MXN)
    } else {
        None
    }
}

impl Currency {
    /// The currency code (e.g. "USD").
    pub fn code(&self) -> (r: &'static str)
        ensures
            r@ == code_of(*self),
    {
        match self {
            Currency::USD => "USD",
            Currency::EUR => "EUR",
            Currency::GBP => "GBP",
            Currency::JPY => "JPY",
            Currency::CAD => "CAD",
            Currency::AUD => "AUD",
            Currency::CHF => "CHF",
            Currency::CNY => "CNY",
            Currency::INR => "INR",
            Currency::MXN => "MXN",
        }
    }

    /// The currency symbol (e.g. "$").
    pub fn symbol(&self) -> (r: &'static str)
        ensures
            r@ == symbol_of(*self),
    {
        match self {
            Currency::USD => "$",
            Currency::EUR => "\u{20ac}",
            Currency::GBP => "\u{00a3}",
            Currency::JPY => "\u{00a5}",
            Currency::CAD => "CA$",
            Currency::AUD => "A$",
            Currency::CHF => "CHF",
            Currency::CNY => "\u{00a5}",
            Currency::INR => "\u{20b9}",
            Currency::MXN => "MX$",
        }
    }

    /// The number of decimal places for this currency.
    pub fn decimal_places(&self) -> (r: u32)
        ensures
            r == places_of(*self),
    {
        match self {
            Currency::JPY => 0,
            _ => 2,
        }
    }

    /// Parse a currency code, ignoring case.
    pub fn from_code(code: &str) -> (r: Option<Self>)
        ensures
            r == currency_with_code(spec_to_uppercase(code@)),
            is_ascii_text(code@) ==> r == currency_with_code(ascii_upper(code@)),
    {
        let upper = to_uppercase(code);
        let u = upper.as_str();
        if str_eq(u, "USD") {
            Some(Currency::USD)
        } else if str_eq(u, "EUR") {
            Some(Currency::EUR)
        } else if str_eq(u, "GBP") {
            Some(Currency::GBP)
        } else if str_eq(u, "JPY") {
            Some(Currency::JPY)
        } else if str_eq(u, "CAD") {
            Some(Currency::CAD)
        } else if str_eq(u, "AUD") {
            Some(Currency::AUD)
        } else if str_eq(u, "CHF") {
            Some(Currency::CHF)
        } else if str_eq(u, "CNY") {
            Some(Currency::CNY)
        } else if str_eq(u, "INR") {
            Some(Currency::INR)
        } else if str_eq(u, "MXN") {
            Some(Currency::MXN)
        } else {
            None
        }
    }
}

impl Default for Currency {
    fn default() -> (r: Self)
        ensures
            r == Currency::USD,
    {
        Currency::USD
    }
}

/// A monetary value: an amount in the currency's smallest unit, and the currency.
#[derive(Debug, Clone, Copy, PartialEq, Eq, Structural, Hash)]
pub struct Money {
    /// Amount in smallest currency unit (e.g., cents).
    pub amount_cents: i64,
    /// The currency.
    pub currency: Currency,
}

/// Whether an integer fits in an `i64`.
pub open spec fn fits_i64(v: int) -> bool {
    i64::MIN <= v <= i64::MAX
}

/// Sum of the amounts of a sequence of money values.
pub open spec fn cents_sum(s: Seq<Money>) -> int
    decreases s.len(),
{
    if s.len() == 0 {
        0
    } else {
        cents_sum(s.drop_last()) + s.last().amount_cents
    }
}

/// Folding a sequence of money values into a sum in `currency`, left to right:
/// `None` as soon as an element has another currency or a partial sum leaves the
/// `i64` range; otherwise the sum.
pub open spec fn checked_sum(s: Seq<Money>, currency: Currency) -> Option<int>
    decreases s.len(),
{
    if s.len() == 0 {
        Some(0)
    } else {
        match checked_sum(s.drop_last(), currency) {
            None => None,
            Some(v) => if s.last().currency != currency || !fits_i64(v + s.last().amount_cents) {
                None
            } else {
                Some(v + s.last().amount_cents)
            },
        }
    }
}

/// The two-digit rendering of a number below 100, with a leading zero.
pub open spec fn two_digits(n: nat) -> Seq<char> {
    if n < 10 {
        seq!['0'] + dec_digits(n)
    } else {
        dec_digits(n)
    }
}

/// The magnitude of an amount rendered with a currency's decimal places:
/// whole units, then a `.` and two digits when the currency has cents.
pub open spec fn amount_text(magnitude: nat, places: nat) -> Seq<char> {
    if places == 0 {
        dec_digits(magnitude)
    } else {
        dec_digits(magnitude / 100) + seq!['.'] + two_digits(magnitude % 100)
    }
}

/// The display of an amount without symbol: a `-` for negative amounts, then the
/// magnitude with the currency's decimal places (e.g. "49.99", "-0.05", "100").
pub open spec fn display_amount_of(m: Money) -> Seq<char> {
    if m.amount_cents < 0 {
        seq!['-'] + amount_text((-m.amount_cents) as nat, places_of(m.currency))
    } else {
        amount_text(m.amount_cents as nat, places_of(m.currency))
    }
}

/// The display of an amount: the currency symbol, then its amount text.
pub open spec fn display_of(m: Money) -> Seq<char> {
    symbol_of(m.currency) + display_amount_of(m)
}

impl Money {
    /// Create a Money value from cents.
    pub fn new(amount_cents: i64, currency: Currency) -> (r: Self)
        ensures
            r == (Money { amount_cents, currency }),
    {
        Money { amount_cents, currency }
    }

    /// A zero amount in the given currency.
    pub fn zero(currency: Currency) -> (r: Self)
        ensures
            r == (Money { amount_cents: 0, currency }),
    {
        Self::new(0, currency)
    }

    /// Whether the amount is zero.
    pub fn is_zero(&self) -> (r: bool)
        ensures
            r == (self.amount_cents == 0),
    {
        self.amount_cents == 0
    }

    /// Whether the amount is positive.
    pub fn is_positive(&self) -> (r: bool)
        ensures
            r == (self.amount_cents > 0),
    {
        self.amount_cents > 0
    }

    /// Whether the amount is negative.
    pub fn is_negative(&self) -> (r: bool)
        ensures
            r == (self.amount_cents < 0),
    {
        self.amount_cents < 0
    }

    /// The absolute value.
    pub fn abs(&self) -> (r: Self)
        requires
            self.amount_cents != i64::MIN,
        ensures
            r.currency == self.currency,
            r.amount_cents == if self.amount_cents < 0 { -self.amount_cents } else { self.amount_cents as int },
    {
        let a = if self.amount_cents < 0 { -self.amount_cents } else { self.amount_cents };
        Self::new(a, self.currency)
    }

    /// The negated amount.
    pub fn negate(&self) -> (r: Self)
        requires
            self.amount_cents != i64::MIN,
        ensures
            r == (Money { amount_cents: -self.amount_cents as i64, currency: self.currency }),
    {
        Self::new(-self.amount_cents, self.currency)
    }

    fn push_amount(&self, s: &mut String)
        ensures
            final(s)@ == old(s)@ + display_amount_of(*self),
    {
        let neg = self.amount_cents < 0;
        let mag: u128 = if neg { (0i128 - self.amount_cents as i128) as u128 } else { self.amount_cents as u128 };
        let ghost s0 = s@;
        if neg {
            push_char(s, '-');
        }
        let ghost s1 = s@;
        if self.currency.decimal_places() == 0 {
            push_dec(s, mag);
            assert(s@ =~= s1 + amount_text(mag as nat, places_of(self.currency)));
        } else {
            push_dec(s, mag / 100);
            push_char(s, '.');
            let cents = mag % 100;
            if cents < 10 {
                push_char(s, '0');
            }
            push_dec(s, cents);
            assert(s@ =~= s1 + amount_text(mag as nat, places_of(self.currency)));
        }
        assert(s@ =~= s0 + display_amount_of(*self));
    }

    /// Format as a display string, e.g. "$49.99".
    pub fn display(&self) -> (r: String)
        ensures
            r@ == display_of(*self),
    {
        let mut s = self.currency.symbol().to_string();
        self.push_amount(&mut s);
        s
    }

    /// Format the amount without symbol, e.g. "49.99".
    pub fn display_amount(&self) -> (r: String)
        ensures
            r@ == display_amount_of(*self),
    {
        let mut s = String::new();
        self.push_amount(&mut s);
        assert(s@ =~= display_amount_of(*self));
        s
    }

    /// Add another Money value of the same currency.
    pub fn add(&self, other: &Money) -> (r: Money)
        requires
            self.currency == other.currency,
            fits_i64(self.amount_cents + other.amount_cents),
        ensures
            r == (Money { amount_cents: (self.amount_cents + other.amount_cents) as i64, currency: self.currency }),
    {
        self.try_add(other).expect("Currency mismatch in addition")
    }

    /// Add another Money value; `None` when the currencies differ or the sum
    /// leaves the `i64` range.
    pub fn try_add(&self, other: &Money) -> (r: Option<Money>)
        ensures
            r == checked_add_money(*self, *other),
    {
        if self.currency != other.currency {
            return None;
        }
        match self.amount_cents.checked_add(other.amount_cents) {
            Some(a) => Some(Money::new(a, self.currency)),
            None => None,
        }
    }

    /// Subtract another Money value of the same currency.
    pub fn subtract(&self, other: &Money) -> (r: Money)
        requires
            self.currency == other.currency,
            fits_i64(self.amount_cents - other.amount_cents),
        ensures
            r == (Money { amount_cents: (self.amount_cents - other.amount_cents) as i64, currency: self.currency }),
    {
        self.try_subtract(other).expect("Currency mismatch in subtraction")
    }

    /// Subtract another Money value; `None` when the currencies differ or the
    /// difference leaves the `i64` range.
    pub fn try_subtract(&self, other: &Money) -> (r: Option<Money>)
        ensures
            r == checked_sub_money(*self, *other),
    {
        if self.currency != other.currency {
            return None;
        }
        match self.amount_cents.checked_sub(other.amount_cents) {
            Some(a) => Some(Money::new(a, self.currency)),
            None => None,
        }
    }

    /// Multiply by a scalar.
    pub fn multiply(&self, factor: i64) -> (r: Money)
        requires
            fits_i64(self.amount_cents * factor),
        ensures
            r == (Money { amount_cents: (self.amount_cents * factor) as i64, currency: self.currency }),
    {
        Money::new(self.amount_cents * factor, self.currency)
    }

    /// Multiply by a scalar; `None` when the product leaves the `i64` range.
    pub fn try_multiply(&self, factor: i64) -> (r: Option<Money>)
        ensures
            fits_i64(self.amount_cents * factor) ==> r == Some(Money {
                amount_cents: (self.amount_cents * factor) as i64,
                currency: self.currency,
            }),
            !fits_i64(self.amount_cents * factor) ==> r is None,
    {
        match self.amount_cents.checked_mul(factor) {
            Some(a) => Some(Money::new(a, self.currency)),
            None => None,
        }
    }

    /// Sum money values that are all in `currency`.
    pub fn sum(items: &[Money], currency: Currency) -> (r: Money)
        requires
            forall|i: int| 0 <= i < items@.len() ==> (#[trigger] items@[i]).currency == currency,
            forall|k: int| 0 <= k <= items@.len() ==> fits_i64(#[trigger] cents_sum(items@.take(k))),
        ensures
            r == (Money { amount_cents: cents_sum(items@) as i64, currency }),
    {
        let mut acc = Money::zero(currency);
        let mut i: usize = 0;
        while i < items.len()
            invariant
                i <= items@.len(),
                forall|j: int| 0 <= j < items@.len() ==> (#[trigger] items@[j]).currency == currency,
                forall|k: int| 0 <= k <= items@.len() ==> fits_i64(#[trigger] cents_sum(items@.take(k))),
                acc.currency == currency,
                acc.amount_cents == cents_sum(items@.take(i as int)),
            decreases items@.len() - i,
        {
            assert(items@.take(i + 1).drop_last() =~= items@.take(i as int));
            assert(fits_i64(cents_sum(items@.take(i + 1))));
            acc = acc.add(&items[i]);
            i = i + 1;
        }
        assert(items@.take(i as int) =~= items@);
        acc
    }

    /// Sum money values in `currency`; `None` when one has another currency or a
    /// partial sum leaves the `i64` range.
    pub fn try_sum(items: &[Money], currency: Currency) -> (r: Option<Money>)
        ensures
            match checked_sum(items@, currency) {
                Some(v) => r == Some(Money { amount_cents: v as i64, currency }),
                None => r is None,
            },
    {
        let mut acc: i64 = 0;
        let mut i: usize = 0;
        while i < items.len()
            invariant
                i <= items@.len(),
                checked_sum(items@.take(i as int), currency) == Some(acc as int),
            decreases items@.len() - i,
        {
            let m = items[i];
            assert(items@.take(i + 1).drop_last() =~= items@.take(i as int));
            if m.currency != currency {
                proof { lemma_checked_sum_none_extends(items@, currency, i + 1); }
                return None;
            }
            match acc.checked_add(m.amount_cents) {
                Some(v) => {
                    acc = v;
                },
                None => {
                    proof { lemma_checked_sum_none_extends(items@, currency, i + 1); }
                    return None;
                },
            }
            i = i + 1;
        }
        assert(items@.take(i as int) =~= items@);
        Some(Money::new(acc, currency))
    }
}

/// Once a prefix of the fold is `None`, so is the whole fold.
pub proof fn lemma_checked_sum_none_extends(s: Seq<Money>, currency: Currency, k: int)
    requires
        0 <= k <= s.len(),
        checked_sum(s.take(k), currency) is None,
    ensures
        checked_sum(s, currency) is None,
    decreases s.len() - k,
{
    if k < s.len() {
        assert(s.take(k + 1).drop_last() =~= s.take(k));
        lemma_checked_sum_none_extends(s, currency, k + 1);
    } else {
        assert(s.take(k) =~= s);
    }
}

impl Default for Money {
    fn default() -> (r: Self)
        ensures
            r == (Money { amount_cents: 0, currency: Currency::USD }),
    {
        Money::zero(Currency::USD)
    }
}

impl core::ops::Add for Money {
    type Output = Money;

    fn add(self, other: Money) -> (r: Money) {
        Money::add(&self, &other)
    }
}

impl vstd::std_specs::ops::AddSpecImpl for Money {
    open spec fn obeys_add_spec() -> bool {
        true
    }

    open spec fn add_req(self, other: Money) -> bool {
        self.currency == other.currency && fits_i64(self.amount_cents + other.amount_cents)
    }

    open spec fn add_spec(self, other: Money) -> Money {
        Money { amount_cents: (self.amount_cents + other.amount_cents) as i64, currency: self.currency }
    }
}

impl core::ops::Sub for Money {
    type Output = Money;

    fn sub(self, other: Money) -> (r: Money) {
        Money::subtract(&self, &other)
    }
}

impl vstd::std_specs::ops::SubSpecImpl for Money {
    open spec fn obeys_sub_spec() -> bool {
        true
    }

    open spec fn sub_req(self, other: Money) -> bool {
        self.currency == other.currency && fits_i64(self.amount_cents - other.amount_cents)
    }

    open spec fn sub_spec(self, other: Money) -> Money {
        Money { amount_cents: (self.amount_cents - other.amount_cents) as i64, currency: self.currency }
    }
}

impl core::ops::Mul<i64> for Money {
    type Output = Money;

    fn mul(self, factor: i64) -> (r: Money) {
        self.multiply(factor)
    }
}

impl vstd::std_specs::ops::MulSpecImpl<i64> for Money {
    open spec fn obeys_mul_spec() -> bool {
        true
    }

    open spec fn mul_req(self, factor: i64) -> bool {
        fits_i64(self.amount_cents * factor)
    }

    open spec fn mul_spec(self, factor: i64) -> Money {
        Money { amount_cents: (self.amount_cents * factor) as i64, currency: self.currency }
    }
}


/// Checked subtraction undoes checked addition: when `a + b` succeeds with
/// `c`, then `c - b` succeeds with `a`. Amounts of different currencies are
/// neither added nor subtracted.
pub proof fn law_subtract_undoes_add(a: Money, b: Money)
    ensures
        checked_add_money(a, b) matches Some(c) ==> checked_sub_money(c, b) == Some(a),
        a.currency != b.currency ==> checked_add_money(a, b) is None && checked_sub_money(a, b) is None,
{
}

/// Addition of amounts in one currency does not depend on the order.
pub proof fn law_add_commutes(a: Money, b: Money)
    requires
        a.currency == b.currency,
    ensures
        (Money { amount_cents: (a.amount_cents + b.amount_cents) as i64, currency: a.currency }) == (Money {
            amount_cents: (b.amount_cents + a.amount_cents) as i64,
            currency: b.currency,
        }),
{
}

/// When every amount is in the currency and every partial sum fits, the
/// checked sum succeeds with the plain sum: `try_sum` and `sum` agree.
pub proof fn law_try_sum_agrees_with_sum(items: Seq<Money>, currency: Currency)
    requires
        forall|i: int| 0 <= i < items.len() ==> (#[trigger] items[i]).currency == currency,
        forall|k: int| 0 <= k <= items.len() ==> fits_i64(#[trigger] cents_sum(items.take(k))),
    ensures
        checked_sum(items, currency) == Some(cents_sum(items)),
    decreases items.len(),
{
    if items.len() > 0 {
        let init = items.drop_last();
        assert forall|k: int| 0 <= k <= init.len() implies fits_i64(#[trigger] cents_sum(init.take(k))) by {
            assert(init.take(k) =~= items.take(k));
        }
        law_try_sum_agrees_with_sum(init, currency);
        assert(items.take(items.len() as int) =~= items);
        assert(fits_i64(cents_sum(items.take(items.len() as int))));
        assert(items[items.len() - 1].currency == currency);
    }
}

} // verus!
