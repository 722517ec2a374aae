//! Standard base64 encoding (RFC 4648 alphabet, with `=` padding).
use vstd::prelude::*;
use crate::platform::push_char;

verus! {

/// The character of a 6-bit value in the standard base64 alphabet:
/// `A`-`Z`, `a`-`z`, `0`-`9`, `+`, `/`.
pub open spec fn b64_char(v: int) -> char {
    if v < 26 {
        (65 + v) as char
    } else if v < 52 {
        (97 + (v - 26)) as char
    } else if v < 62 {
        (48 + (v - 52)) as char
    } else if v == 62 {
        '+'
    } else {
        '/'
    }
}

/// The four characters encoding a group of one to three bytes; missing bytes
/// count as zero and their characters become `=`.
pub open spec fn b64_group(g: Seq<u8>) -> Seq<char> {
    let b0 = g[0] as int;
    let b1 = if g.len() > 1 { g[1] as int } else { 0 };
    let b2 = if g.len() > 2 { g[2] as int } else { 0 };
    seq![
        b64_char(b0 / 4),
        b64_char((b0 % 4) * 16 + b1 / 16),
        if g.len() > 1 { b64_char((b1 % 16) * 4 + b2 / 64) } else { '=' },
        if g.len() > 2 { b64_char(b2 % 64) } else { '=' },
    ]
}

/// Where the last group of `n > 0` bytes starts: the largest multiple of three below `n`.
pub open spec fn last_group_start(n: int) -> int {
    ((n - 1) / 3) * 3
}

/// The base64 text of a byte sequence: each group of three bytes (the last one
/// possibly shorter) becomes four characters.
pub open spec fn base64_of(data: Seq<u8>) -> Seq<char>
    decreases data.len(),
{
    if data.len() == 0 {
        Seq::empty()
    } else {
        let k = last_group_start(data.len() as int);
        base64_of(data.take(k)) + b64_group(data.skip(k))
    }
}

/// The character of a 6-bit value.
fn b64_digit(v: u8) -> (c: char)
    requires
        v < 64,
    ensures
        c == b64_char(v as int),
{
    if v < 26 {
        (65 + v) as char
    } else if v < 52 {
        (97 + (v - 26)) as char
    } else if v < 62 {
        (48 + (v - 52)) as char
    } else if v == 62 {
        '+'
    } else {
        '/'
    }
}

proof fn lemma_group_start(i: int, c: int)
    requires
        i >= 0,
        i % 3 == 0,
        1 <= c <= 3,
    ensures
        last_group_start(i + c) == i,
{
    assert(((i + c - 1) / 3) * 3 == i) by (nonlinear_arith)
        requires
            i >= 0,
            i % 3 == 0,
            1 <= c <= 3,
    ;
}

/// Encoding the bytes up to the end of one more group appends that group's characters.
proof fn lemma_base64_step(data: Seq<u8>, i: int, c: int)
    requires
        i >= 0,
        i % 3 == 0,
        1 <= c <= 3,
        i + c <= data.len(),
    ensures
        base64_of(data.take(i + c)) == base64_of(data.take(i)) + b64_group(data.subrange(i, i + c)),
{
    let t = data.take(i + c);
    lemma_group_start(i, c);
    assert(t.take(i) =~= data.take(i));
    assert(t.skip(i) =~= data.subrange(i, i + c));
}

/// The standard base64 encoding of bytes, with padding.
pub fn base64_encode(data: &[u8]) -> (r: String)
    ensures
        r@ == base64_of(data@),
        base64_decode(r@) == data@,
        b64_well_formed(r@, data@.len()),
{
    proof { law_base64_round_trip(data@); }
    let mut s = String::new();
    let n = data.len();
    let mut i: usize = 0;
    assert(data@.take(0) =~= Seq::<u8>::empty());
    while i < n
        invariant
            n == data@.len(),
            i <= n,
            i % 3 == 0 || i == n,
            s@ == base64_of(data@.take(i as int)),
        decreases n - i,
    {
        let c: usize = if n - i >= 3 { 3 } else { n - i };
        let b0: u8 = data[i];
        let b1: u8 = if c > 1 { data[i + 1] } else { 0 };
        let b2: u8 = if c > 2 { data[i + 2] } else { 0 };
        let x0 = b64_digit(b0 / 4);
        let x1 = b64_digit((b0 % 4) * 16 + b1 / 16);
        let x2 = if c > 1 { b64_digit((b1 % 16) * 4 + b2 / 64) } else { '=' };
        let x3 = if c > 2 { b64_digit(b2 % 64) } else { '=' };
        proof {
            let g = data@.subrange(i as int, i + c);
            assert(g[0] == b0);
            assert(c > 1 ==> g[1] == b1);
            assert(c > 2 ==> g[2] == b2);
            assert(b64_group(g) =~= seq![x0, x1, x2, x3]);
            lemma_base64_step(data@, i as int, c as int);
        }
        let ghost before = s@;
        push_char(&mut s, x0);
        push_char(&mut s, x1);
        push_char(&mut s, x2);
        push_char(&mut s, x3);
        assert(s@ =~= before + seq![x0, x1, x2, x3]);
        i = i + c;
    }
    assert(data@.take(n as int) =~= data@);
    s
}

/// Base64 text is four characters for every started group of three bytes.
pub proof fn law_base64_length(data: Seq<u8>)
    ensures
        base64_of(data).len() == 4 * ((data.len() + 2) / 3),
    decreases data.len(),
{
    if data.len() > 0 {
        let n = data.len() as int;
        let k = last_group_start(n);
        assert(0 <= k < n && n - k <= 3 && k % 3 == 0) by (nonlinear_arith)
            requires
                n > 0,
                k == ((n - 1) / 3) * 3,
        ;
        law_base64_length(data.take(k));
        assert((k + 2) / 3 + 1 == (n + 2) / 3) by (nonlinear_arith)
            requires
                k % 3 == 0,
                0 <= k < n,
                n - k <= 3,
        ;
    }
}

/// Whether a character belongs to the standard base64 alphabet.
pub open spec fn is_b64_alphabet(c: char) -> bool {
    ('A' <= c && c <= 'Z') || ('a' <= c && c <= 'z') || ('0' <= c && c <= '9') || c == '+' || c == '/'
}

/// The 6-bit value of a character of the standard base64 alphabet.
pub open spec fn b64_value(c: char) -> int {
    let x = c as int;
    if 65 <= x <= 90 {
        x - 65
    } else if 97 <= x <= 122 {
        x - 71
    } else if 48 <= x <= 57 {
        x + 4
    } else if c == '+' {
        62
    } else {
        63
    }
}

/// The bytes that four base64 characters stand for: one byte when the last two
/// are padding, two when the last one is, three otherwise.
pub open spec fn b64_decode_group(q: Seq<char>) -> Seq<u8> {
    let v0 = b64_value(q[0]);
    let v1 = b64_value(q[1]);
    let v2 = b64_value(q[2]);
    let v3 = b64_value(q[3]);
    let x0 = (v0 * 4 + v1 / 16) as u8;
    let x1 = ((v1 % 16) * 16 + v2 / 4) as u8;
    let x2 = ((v2 % 4) * 64 + v3) as u8;
    if q[2] == '=' {
        seq![x0]
    } else if q[3] == '=' {
        seq![x0, x1]
    } else {
        seq![x0, x1, x2]
    }
}

/// Standard base64 decoding, four characters at a time.
pub open spec fn base64_decode(s: Seq<char>) -> Seq<u8>
    decreases s.len(),
{
    if s.len() < 4 {
        Seq::empty()
    } else {
        base64_decode(s.take(s.len() - 4)) + b64_decode_group(s.skip(s.len() - 4))
    }
}

/// The number of `=` that pad the base64 text of `n` bytes.
pub open spec fn b64_padding(n: nat) -> int {
    (3 - (n % 3) as int) % 3
}

/// The characters of the alphabet stand for their values, and none is `=`.
proof fn lemma_b64_char(v: int)
    requires
        0 <= v < 64,
    ensures
        is_b64_alphabet(b64_char(v)),
        b64_char(v) != '=',
        b64_value(b64_char(v)) == v,
{
}

/// Decoding the characters of a group gives back its bytes.
proof fn lemma_group_round_trip(g: Seq<u8>)
    requires
        1 <= g.len() <= 3,
    ensures
        b64_decode_group(b64_group(g)) == g,
{
    let b0 = g[0] as int;
    let b1 = if g.len() > 1 { g[1] as int } else { 0 };
    let b2 = if g.len() > 2 { g[2] as int } else { 0 };
    let v0 = b0 / 4;
    let v1 = (b0 % 4) * 16 + b1 / 16;
    let v2 = (b1 % 16) * 4 + b2 / 64;
    let v3 = b2 % 64;
    assert(0 <= v0 < 64 && 0 <= v1 < 64 && 0 <= v2 < 64 && 0 <= v3 < 64) by (nonlinear_arith)
        requires
            0 <= b0 < 256,
            0 <= b1 < 256,
            0 <= b2 < 256,
            v0 == b0 / 4,
            v1 == (b0 % 4) * 16 + b1 / 16,
            v2 == (b1 % 16) * 4 + b2 / 64,
            v3 == b2 % 64,
    ;
    lemma_b64_char(v0);
    lemma_b64_char(v1);
    lemma_b64_char(v2);
    lemma_b64_char(v3);
    assert(v0 * 4 + v1 / 16 == b0 && (v1 % 16) * 16 + v2 / 4 == b1 && (v2 % 4) * 64 + v3 == b2)
        by (nonlinear_arith)
        requires
            0 <= b0 < 256,
            0 <= b1 < 256,
            0 <= b2 < 256,
            v0 == b0 / 4,
            v1 == (b0 % 4) * 16 + b1 / 16,
            v2 == (b1 % 16) * 4 + b2 / 64,
            v3 == b2 % 64,
    ;
    let q = b64_group(g);
    if g.len() == 1 {
        assert(b64_decode_group(q) =~= g);
    } else if g.len() == 2 {
        assert(b64_decode_group(q) =~= g);
    } else {
        assert(b64_decode_group(q) =~= g);
    }
}

/// The base64 text of `data`: characters of the alphabet, then exactly the
/// padding `=` that the length calls for.
pub open spec fn b64_well_formed(s: Seq<char>, n: nat) -> bool {
    &&& forall|i: int| 0 <= i < s.len() - b64_padding(n) ==> is_b64_alphabet(#[trigger] s[i])
    &&& forall|i: int| s.len() - b64_padding(n) <= i < s.len() ==> #[trigger] s[i] == '='
}

/// Base64 text is made of alphabet characters followed by its padding, and
/// decoding it gives back the bytes: `base64_decode(base64_of(data)) == data`.
pub proof fn law_base64_round_trip(data: Seq<u8>)
    ensures
        base64_decode(base64_of(data)) == data,
        b64_well_formed(base64_of(data), data.len()),
    decreases data.len(),
{
    law_base64_length(data);
    if data.len() > 0 {
        let n = data.len() as int;
        let k = last_group_start(n);
        assert(0 <= k < n && n - k <= 3 && k % 3 == 0) by (nonlinear_arith)
            requires
                n > 0,
                k == ((n - 1) / 3) * 3,
        ;
        let front = data.take(k);
        let g = data.skip(k);
        law_base64_round_trip(front);
        law_base64_length(front);
        lemma_group_round_trip(g);
        let s = base64_of(data);
        let a = base64_of(front);
        let q = b64_group(g);
        assert(s == a + q);
        assert(s.take(s.len() - 4) =~= a);
        assert(s.skip(s.len() - 4) =~= q);
        assert(front + g =~= data);
        // padding
        assert(b64_padding(front.len()) == 0) by {
            assert(front.len() % 3 == 0);
        }
        assert(b64_padding(data.len()) == 3 - g.len() || (g.len() == 3 && b64_padding(data.len()) == 0)) by (nonlinear_arith)
            requires
                k % 3 == 0,
                g.len() == n - k,
                1 <= n - k <= 3,
                data.len() == n,
        ;
        let b0 = g[0] as int;
        let b1 = if g.len() > 1 { g[1] as int } else { 0 };
        let b2 = if g.len() > 2 { g[2] as int } else { 0 };
        assert(0 <= b0 / 4 < 64 && 0 <= (b0 % 4) * 16 + b1 / 16 < 64 && 0 <= (b1 % 16) * 4 + b2 / 64 < 64 && 0 <= b2 % 64 < 64) by (nonlinear_arith)
            requires
                0 <= b0 < 256,
                0 <= b1 < 256,
                0 <= b2 < 256,
        ;
        lemma_b64_char(b0 / 4);
        lemma_b64_char((b0 % 4) * 16 + b1 / 16);
        lemma_b64_char((b1 % 16) * 4 + b2 / 64);
        lemma_b64_char(b2 % 64);
        assert forall|i: int| 0 <= i < s.len() - b64_padding(data.len()) implies is_b64_alphabet(#[trigger] s[i]) by {
            if i < a.len() {
                assert(s[i] == a[i]);
            } else {
                assert(s[i] == q[i - a.len()]);
            }
        }
        assert forall|i: int| s.len() - b64_padding(data.len()) <= i < s.len() implies #[trigger] s[i] == '=' by {
            assert(s[i] == q[i - a.len()]);
        }
    } else {
        assert(base64_of(data) =~= Seq::<char>::empty());
        assert(data =~= Seq::<u8>::empty());
    }
}

} // verus!
