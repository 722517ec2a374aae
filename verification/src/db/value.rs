//! Database values.
use vstd::prelude::*;
use crate::encoding::{base64_encode, base64_of};
use crate::platform::string_from_utf8;
use vstd::arithmetic::power2::{lemma2_to64, lemma2_to64_rest, lemma_pow2_strictly_increases, lemma_pow2_unfold, pow2};

verus! {

/// A database value that can be used as a parameter or result.
#[derive(Debug)]
pub enum DbValue {
    /// Null value.
    Null,
    /// Integer value.
    Integer(i64),
    /// Real value, held as the bits of an IEEE-754 binary64 number.
    Real(u64),
    /// Text value.
    Text(String),
    /// Binary blob value.
    Blob(Vec<u8>),
}

/// 2 to the 52nd: the weight of the implicit leading bit of a binary64 significand.
pub open spec fn significand_unit() -> int {
    4503599627370496
}

/// The integer part of the magnitude of a finite binary64 number, capped at 2^63.
pub open spec fn f64_bits_magnitude(bits: u64) -> int {
    let exp = (bits as int / significand_unit()) % 2048;
    let m = significand_unit() + bits as int % significand_unit();
    if exp < 1023 {
        0
    } else if exp >= 1086 {
        0x8000_0000_0000_0000
    } else if exp >= 1075 {
        m * pow2((exp - 1075) as nat)
    } else {
        m / pow2((1075 - exp) as nat) as int
    }
}

/// What converting a binary64 number with these bits to `i64` gives (Rust's
/// `as`): the value rounded toward zero, saturated to the range of `i64`, and
/// zero for NaN.
pub open spec fn f64_bits_to_i64(bits: u64) -> i64 {
    let exp = (bits as int / significand_unit()) % 2048;
    let frac = bits as int % significand_unit();
    let mag = f64_bits_magnitude(bits);
    if exp == 2047 && frac != 0 {
        0
    } else if bits >= 0x8000_0000_0000_0000u64 {
        if mag >= 0x8000_0000_0000_0000 { i64::MIN } else { (-mag) as i64 }
    } else {
        if mag >= 0x8000_0000_0000_0000 { i64::MAX } else { mag as i64 }
    }
}

/// 2 to the `k`.
fn pow2_u64(k: u64) -> (r: u64)
    requires
        k < 64,
    ensures
        r == pow2(k as nat),
{
    proof {
        lemma2_to64();
        lemma2_to64_rest();
    }
    let mut r: u64 = 1;
    let mut i: u64 = 0;
    while i < k
        invariant
            i <= k < 64,
            r == pow2(i as nat),
        decreases k - i,
    {
        proof {
            lemma_pow2_unfold((i + 1) as nat);
            lemma2_to64();
            lemma2_to64_rest();
            if i < 63 {
                lemma_pow2_strictly_increases(i as nat, 63);
            }
        }
        r = r * 2;
        i = i + 1;
    }
    r
}

/// Rust's `f64 as i64` on the bits of a binary64 number, in integer arithmetic.
pub fn f64_bits_as_i64(bits: u64) -> (r: i64)
    ensures
        r == f64_bits_to_i64(bits),
{
    proof {
        lemma2_to64();
        lemma2_to64_rest();
    }
    let exp: u64 = (bits / 4503599627370496) % 2048;
    let frac: u64 = bits % 4503599627370496;
    if exp == 2047 && frac != 0 {
        return 0;
    }
    let m: u64 = 4503599627370496 + frac;
    let mag: u64 = if exp < 1023 {
        0
    } else if exp >= 1086 {
        0x8000_0000_0000_0000
    } else if exp >= 1075 {
        let p = pow2_u64(exp - 1075);
        proof {
            if exp - 1075 < 10 {
                lemma_pow2_strictly_increases((exp - 1075) as nat, 10);
            }
        }
        assert(m * p < 0x8000_0000_0000_0000) by (nonlinear_arith)
            requires
                m < 9007199254740992,
                p <= 1024,
        ;
        m * p
    } else {
        let p = pow2_u64(1075 - exp);
        proof {
            vstd::arithmetic::power2::lemma_pow2_pos((1075 - exp) as nat);
        }
        m / p
    };
    assert(mag == f64_bits_magnitude(bits));
    if bits >= 0x8000_0000_0000_0000u64 {
        if mag >= 0x8000_0000_0000_0000u64 {
            i64::MIN
        } else {
            0i64 - (mag as i64)
        }
    } else {
        if mag >= 0x8000_0000_0000_0000u64 {
            i64::MAX
        } else {
            mag as i64
        }
    }
}

/// Two values are the same: of one kind and holding the same contents.
pub open spec fn same_value(a: DbValue, b: DbValue) -> bool {
    match (a, b) {
        (DbValue::Null, DbValue::Null) => true,
        (DbValue::Integer(x), DbValue::Integer(y)) => x == y,
        (DbValue::Real(x), DbValue::Real(y)) => x == y,
        (DbValue::Text(x), DbValue::Text(y)) => x@ == y@,
        (DbValue::Blob(x), DbValue::Blob(y)) => x@ == y@,
        _ => false,
    }
}

impl Clone for DbValue {
    fn clone(&self) -> (r: Self)
        ensures
            same_value(r, *self),
    {
        match self {
            DbValue::Null => DbValue::Null,
            DbValue::Integer(i) => DbValue::Integer(*i),
            DbValue::Real(b) => DbValue::Real(*b),
            DbValue::Text(s) => DbValue::Text(s.clone()),
            DbValue::Blob(b) => {
                let c = b.clone();
                assert(c@ =~= b@);
                DbValue::Blob(c)
            },
        }
    }
}

impl DbValue {
    /// The value as an integer: integers as they are, reals rounded toward zero
    /// (saturating, NaN as zero); `None` for the other kinds.
    pub fn as_integer(&self) -> (r: Option<i64>)
        ensures
            r == match *self {
                DbValue::Integer(i) => Some(i),
                DbValue::Real(bits) => Some(f64_bits_to_i64(bits)),
                _ => None::<i64>,
            },
    {
        match self {
            DbValue::Integer(i) => Some(*i),
            DbValue::Real(bits) => Some(f64_bits_as_i64(*bits)),
            _ => None,
        }
    }

    /// The value as text, for text values.
    pub fn as_text(&self) -> (r: Option<&str>)
        ensures
            match *self {
                DbValue::Text(s) => r matches Some(t) && t@ == s@,
                _ => r is None,
            },
    {
        match self {
            DbValue::Text(s) => Some(s.as_str()),
            _ => None,
        }
    }

    /// The value as bytes: a blob's bytes, or the UTF-8 bytes of a text.
    pub fn as_blob(&self) -> (r: Option<&[u8]>)
        ensures
            match *self {
                DbValue::Blob(b) => r matches Some(t) && t@ == b@,
                DbValue::Text(s) => r matches Some(t) && t@ == vstd::utf8::encode_utf8(s@),
                _ => r is None,
            },
    {
        match self {
            DbValue::Blob(b) => Some(b.as_slice()),
            DbValue::Text(s) => Some(s.as_str().as_bytes()),
            _ => None,
        }
    }

    /// Whether the value is null.
    pub fn is_null(&self) -> (r: bool)
        ensures
            r == (*self is Null),
    {
        match self {
            DbValue::Null => true,
            _ => false,
        }
    }
}

impl From<i32> for DbValue {
    fn from(v: i32) -> (r: Self)
        ensures
            r == DbValue::Integer(v as i64),
    {
        DbValue::Integer(v as i64)
    }
}

impl vstd::std_specs::convert::FromSpecImpl<i32> for DbValue {
    open spec fn obeys_from_spec() -> bool {
        true
    }

    open spec fn from_spec(v: i32) -> DbValue {
        DbValue::Integer(v as i64)
    }
}

impl From<i64> for DbValue {
    fn from(v: i64) -> (r: Self)
        ensures
            r == DbValue::Integer(v),
    {
        DbValue::Integer(v)
    }
}

impl vstd::std_specs::convert::FromSpecImpl<i64> for DbValue {
    open spec fn obeys_from_spec() -> bool {
        true
    }

    open spec fn from_spec(v: i64) -> DbValue {
        DbValue::Integer(v)
    }
}

impl From<bool> for DbValue {
    /// One for true, zero for false.
    fn from(v: bool) -> (r: Self)
        ensures
            r == DbValue::Integer(if v { 1 } else { 0 }),
    {
        DbValue::Integer(if v { 1 } else { 0 })
    }
}

impl vstd::std_specs::convert::FromSpecImpl<bool> for DbValue {
    open spec fn obeys_from_spec() -> bool {
        true
    }

    open spec fn from_spec(v: bool) -> DbValue {
        DbValue::Integer(if v { 1 } else { 0 })
    }
}

impl From<&str> for DbValue {
    fn from(v: &str) -> (r: Self)
        ensures
            r matches DbValue::Text(s) && s@ == v@,
    {
        DbValue::Text(v.to_string())
    }
}

impl vstd::std_specs::convert::FromSpecImpl<&str> for DbValue {
    open spec fn obeys_from_spec() -> bool {
        false
    }

    closed spec fn from_spec(v: &str) -> DbValue {
        arbitrary()
    }
}

impl From<String> for DbValue {
    fn from(v: String) -> (r: Self)
        ensures
            r == DbValue::Text(v),
    {
        DbValue::Text(v)
    }
}

impl vstd::std_specs::convert::FromSpecImpl<String> for DbValue {
    open spec fn obeys_from_spec() -> bool {
        true
    }

    open spec fn from_spec(v: String) -> DbValue {
        DbValue::Text(v)
    }
}

impl From<Vec<u8>> for DbValue {
    fn from(v: Vec<u8>) -> (r: Self)
        ensures
            r == DbValue::Blob(v),
    {
        DbValue::Blob(v)
    }
}

impl vstd::std_specs::convert::FromSpecImpl<Vec<u8>> for DbValue {
    open spec fn obeys_from_spec() -> bool {
        true
    }

    open spec fn from_spec(v: Vec<u8>) -> DbValue {
        DbValue::Blob(v)
    }
}

impl<T: Into<DbValue>> From<Option<T>> for DbValue {
    /// Null for `None`; the converted value for `Some`.
    fn from(v: Option<T>) -> (r: Self)
        ensures
            v is None ==> r is Null,
            v matches Some(x) ==> call_ensures(<T as Into<DbValue>>::into, (x,), r),
    {
        match v {
            Some(x) => x.into(),
            None => DbValue::Null,
        }
    }
}

impl<T: Into<DbValue>> vstd::std_specs::convert::FromSpecImpl<Option<T>> for DbValue {
    open spec fn obeys_from_spec() -> bool {
        false
    }

    closed spec fn from_spec(v: Option<T>) -> DbValue {
        arbitrary()
    }
}

/// The text that stands for a blob in JSON: the blob's characters when it is
/// valid UTF-8, else its standard base64 encoding.
pub open spec fn blob_json_text(bytes: Seq<u8>) -> Seq<char> {
    if vstd::utf8::valid_utf8(bytes) {
        vstd::utf8::decode_utf8(bytes)
    } else {
        base64_of(bytes)
    }
}

/// The text that stands for a blob in JSON: its UTF-8 text, or base64 when the
/// bytes are not UTF-8.
pub fn blob_text(bytes: &Vec<u8>) -> (r: String)
    ensures
        r@ == blob_json_text(bytes@),
{
    let copy = bytes.clone();
    assert(copy@ =~= bytes@);
    match string_from_utf8(copy) {
        Ok(s) => s,
        Err(_) => base64_encode(bytes.as_slice()),
    }
}

} // verus!
