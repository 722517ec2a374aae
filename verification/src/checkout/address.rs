//! Postal addresses.
use vstd::prelude::*;
use crate::ids::AddressId;
use crate::text::{join, join_strings, string_views};

verus! {

/// A postal address.
#[derive(Debug, Clone)]
pub struct Address {
    /// Address ID (None for unsaved addresses).
    pub id: Option<AddressId>,
    /// First name.
    pub first_name: String,
    /// Last name.
    pub last_name: String,
    /// Company name.
    pub company: Option<String>,
    /// Address line 1.
    pub address1: String,
    /// Address line 2 (apt, suite, etc.).
    pub address2: Option<String>,
    /// City.
    pub city: String,
    /// State/province name.
    pub province: Option<String>,
    /// State/province code (e.g., "CA").
    pub province_code: Option<String>,
    /// Country name.
    pub country: String,
    /// Country code (e.g., "US").
    pub country_code: String,
    /// Postal/ZIP code.
    pub zip: String,
    /// Phone number.
    pub phone: Option<String>,
}

/// The parts of the one-line form: address line 1, line 2 if any, city,
/// province code if any, ZIP code and country code.
pub open spec fn one_line_parts(a: Address) -> Seq<Seq<char>> {
    let p1 = seq![a.address1@];
    let p2 = match a.address2 {
        Some(x) => p1.push(x@),
        None => p1,
    };
    let p3 = p2.push(a.city@);
    let p4 = match a.province_code {
        Some(x) => p3.push(x@),
        None => p3,
    };
    p4.push(a.zip@).push(a.country_code@)
}

/// The city line: "city, province zip", or "city zip" without a province code.
pub open spec fn city_line(a: Address) -> Seq<char> {
    match a.province_code {
        Some(p) => a.city@ + ", "@ + p@ + " "@ + a.zip@,
        None => a.city@ + " "@ + a.zip@,
    }
}

/// The lines of the multi-line form: full name, company if any, line 1, line 2
/// if any, the city line and the country.
pub open spec fn multi_line_parts(a: Address) -> Seq<Seq<char>> {
    let l1 = seq![a.first_name@ + " "@ + a.last_name@];
    let l2 = match a.company {
        Some(x) => l1.push(x@),
        None => l1,
    };
    let l3 = l2.push(a.address1@);
    let l4 = match a.address2 {
        Some(x) => l3.push(x@),
        None => l3,
    };
    l4.push(city_line(a)).push(a.country@)
}

/// An address is complete when the names, line 1, city, country code and ZIP
/// code are all non-empty.
pub open spec fn address_complete(a: Address) -> bool {
    &&& a.first_name@.len() > 0
    &&& a.last_name@.len() > 0
    &&& a.address1@.len() > 0
    &&& a.city@.len() > 0
    &&& a.country_code@.len() > 0
    &&& a.zip@.len() > 0
}

fn clone_string(s: &String) -> (r: String)
    ensures
        r@ == s@,
{
    s.clone()
}

impl Address {
    /// Create a new address with the required fields; the optional ones are empty.
    pub fn new(
        first_name: &str,
        last_name: &str,
        address1: &str,
        city: &str,
        country: &str,
        country_code: &str,
        zip: &str,
    ) -> (r: Self)
        ensures
            r.id is None,
            r.first_name@ == first_name@,
            r.last_name@ == last_name@,
            r.company is None,
            r.address1@ == address1@,
            r.address2 is None,
            r.city@ == city@,
            r.province is None,
            r.province_code is None,
            r.country@ == country@,
            r.country_code@ == country_code@,
            r.zip@ == zip@,
            r.phone is None,
    {
        Address {
            id: None,
            first_name: first_name.to_string(),
            last_name: last_name.to_string(),
            company: None,
            address1: address1.to_string(),
            address2: None,
            city: city.to_string(),
            province: None,
            province_code: None,
            country: country.to_string(),
            country_code: country_code.to_string(),
            zip: zip.to_string(),
            phone: None,
        }
    }

    /// The full name: first name, a space, last name.
    pub fn full_name(&self) -> (r: String)
        ensures
            r@ == self.first_name@ + " "@ + self.last_name@,
    {
        let mut s = clone_string(&self.first_name);
        s.append(" ");
        s.append(self.last_name.as_str());
        s
    }

    /// The address on one line, its parts separated by ", ".
    pub fn one_line(&self) -> (r: String)
        ensures
            r@ == join(one_line_parts(*self), ", "@),
    {
        let mut parts: Vec<String> = Vec::new();
        parts.push(clone_string(&self.address1));
        if let Some(ref addr2) = self.address2 {
            parts.push(clone_string(addr2));
        }
        parts.push(clone_string(&self.city));
        if let Some(ref province) = self.province_code {
            parts.push(clone_string(province));
        }
        parts.push(clone_string(&self.zip));
        parts.push(clone_string(&self.country_code));
        assert(string_views(parts@) =~= one_line_parts(*self));
        join_strings(&parts, ", ")
    }

    /// The address on several lines, separated by newlines.
    pub fn multi_line(&self) -> (r: String)
        ensures
            r@ == join(multi_line_parts(*self), "\n"@),
    {
        let mut lines: Vec<String> = Vec::new();
        lines.push(self.full_name());
        if let Some(ref company) = self.company {
            lines.push(clone_string(company));
        }
        lines.push(clone_string(&self.address1));
        if let Some(ref addr2) = self.address2 {
            lines.push(clone_string(addr2));
        }
        let mut city = clone_string(&self.city);
        if let Some(ref province) = self.province_code {
            city.append(", ");
            city.append(province.as_str());
            city.append(" ");
        } else {
            city.append(" ");
        }
        city.append(self.zip.as_str());
        lines.push(city);
        lines.push(clone_string(&self.country));
        assert(string_views(lines@) =~= multi_line_parts(*self));
        join_strings(&lines, "\n")
    }

    /// Whether the address is complete.
    pub fn is_complete(&self) -> (r: bool)
        ensures
            r == address_complete(*self),
    {
        self.first_name.as_str().unicode_len() > 0
            && self.last_name.as_str().unicode_len() > 0
            && self.address1.as_str().unicode_len() > 0
            && self.city.as_str().unicode_len() > 0
            && self.country_code.as_str().unicode_len() > 0
            && self.zip.as_str().unicode_len() > 0
    }
}

impl Default for Address {
    fn default() -> (r: Self)
        ensures
            r.id is None,
            r.first_name@.len() == 0,
            r.last_name@.len() == 0,
            r.company is None,
            r.address1@.len() == 0,
            r.address2 is None,
            r.city@.len() == 0,
            r.province is None,
            r.province_code is None,
            r.country@.len() == 0,
            r.country_code@.len() == 0,
            r.zip@.len() == 0,
            r.phone is None,
    {
        Address {
            id: None,
            first_name: String::new(),
            last_name: String::new(),
            company: None,
            address1: String::new(),
            address2: None,
            city: String::new(),
            province: None,
            province_code: None,
            country: String::new(),
            country_code: String::new(),
            zip: String::new(),
            phone: None,
        }
    }
}

} // verus!
