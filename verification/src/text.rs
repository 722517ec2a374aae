//! Text helpers: decimal and hexadecimal rendering of integers and parsing of
//! unsigned decimal numbers, each proved against its mathematical definition.
use vstd::prelude::*;
use crate::platform::push_char;

verus! {

/// The ten decimal digit characters, in order.
pub open spec fn dec_alphabet() -> Seq<char> {
    seq!['0', '1', '2', '3', '4', '5', '6', '7', '8', '9']
}

/// The sixteen lower-case hexadecimal digit characters, in order.
pub open spec fn hex_alphabet() -> Seq<char> {
    seq!['0', '1', '2', '3', '4', '5', '6', '7', '8', '9', 'a', 'b', 'c', 'd', 'e', 'f']
}

/// The decimal representation of `n`, without leading zeros ("0" for zero).
pub open spec fn dec_digits(n: nat) -> Seq<char>
    decreases n,
{
    if n < 10 {
        seq![dec_alphabet()[n as int]]
    } else {
        dec_digits(n / 10).push(dec_alphabet()[(n % 10) as int])
    }
}

/// The lower-case hexadecimal representation of `n`, without leading zeros.
pub open spec fn hex_digits(n: nat) -> Seq<char>
    decreases n,
{
    if n < 16 {
        seq![hex_alphabet()[n as int]]
    } else {
        hex_digits(n / 16).push(hex_alphabet()[(n % 16) as int])
    }
}

/// The decimal representation of a signed integer: a `-` before the digits of
/// its magnitude when it is negative.
pub open spec fn signed_dec_digits(n: int) -> Seq<char> {
    if n < 0 {
        seq!['-'] + dec_digits((-n) as nat)
    } else {
        dec_digits(n as nat)
    }
}

/// The parts joined with a separator between each two of them.
pub open spec fn join(parts: Seq<Seq<char>>, sep: Seq<char>) -> Seq<char>
    decreases parts.len(),
{
    if parts.len() == 0 {
        Seq::empty()
    } else if parts.len() == 1 {
        parts[0]
    } else {
        join(parts.drop_last(), sep) + sep + parts.last()
    }
}

/// The characters of each string slice.
pub open spec fn str_views(parts: Seq<&str>) -> Seq<Seq<char>> {
    parts.map_values(|p: &str| p@)
}

/// The characters of each string.
pub open spec fn string_views(parts: Seq<String>) -> Seq<Seq<char>> {
    parts.map_values(|p: String| p@)
}

/// `s` splits at every occurrence of `c` (as `str::split` with a character):
/// `n` occurrences give `n + 1` pieces, some of them possibly empty.
pub open spec fn split_on(s: Seq<char>, c: char) -> Seq<Seq<char>>
    decreases s.len(),
{
    if s.len() == 0 {
        seq![Seq::empty()]
    } else {
        let parts = split_on(s.drop_last(), c);
        if s.last() == c {
            parts.push(Seq::empty())
        } else {
            parts.update(parts.len() - 1, parts.last().push(s.last()))
        }
    }
}

/// Splitting always gives at least one piece.
pub proof fn lemma_split_on_nonempty(s: Seq<char>, c: char)
    ensures
        split_on(s, c).len() >= 1,
    decreases s.len(),
{
    if s.len() > 0 {
        lemma_split_on_nonempty(s.drop_last(), c);
    }
}

/// Splitting text joined at a separator splits each side: the pieces of
/// `p` followed by the pieces of `w`.
pub proof fn lemma_split_on_concat(p: Seq<char>, w: Seq<char>, c: char)
    ensures
        split_on(p.push(c) + w, c) == split_on(p, c) + split_on(w, c),
    decreases w.len(),
{
    let s = p.push(c) + w;
    if w.len() == 0 {
        assert(s =~= p.push(c));
        assert(p.push(c).drop_last() =~= p);
        assert(split_on(w, c) =~= seq![Seq::<char>::empty()]);
        assert(split_on(s, c) =~= split_on(p, c) + split_on(w, c));
    } else {
        let w1 = w.drop_last();
        assert(s.drop_last() =~= p.push(c) + w1);
        assert(s.last() == w.last());
        lemma_split_on_concat(p, w1, c);
        lemma_split_on_nonempty(w1, c);
        let a = split_on(p, c);
        let b = split_on(w1, c);
        assert(split_on(s.drop_last(), c) == a + b);
        if w.last() == c {
            assert(split_on(s, c) =~= a + split_on(w, c));
        } else {
            assert((a + b).update((a + b).len() - 1, (a + b).last().push(w.last())) =~= a + b.update(
                b.len() - 1,
                b.last().push(w.last()),
            ));
            assert(split_on(s, c) =~= a + split_on(w, c));
        }
    }
}

/// The number of occurrences of a character.
pub open spec fn count_char(s: Seq<char>, c: char) -> nat
    decreases s.len(),
{
    if s.len() == 0 {
        0
    } else {
        count_char(s.drop_last(), c) + if s.last() == c { 1nat } else { 0nat }
    }
}

/// Counting over a concatenation adds the counts.
pub proof fn lemma_count_char_add(a: Seq<char>, b: Seq<char>, c: char)
    ensures
        count_char(a + b, c) == count_char(a, c) + count_char(b, c),
    decreases b.len(),
{
    if b.len() == 0 {
        assert(a + b =~= a);
    } else {
        assert((a + b).drop_last() =~= a + b.drop_last());
        lemma_count_char_add(a, b.drop_last(), c);
    }
}

/// The count of a character in a text is the count in its first `k`
/// characters plus the count in the rest.
pub proof fn lemma_count_char_split(s: Seq<char>, k: int, c: char)
    requires
        0 <= k <= s.len(),
    ensures
        count_char(s, c) == count_char(s.take(k), c) + count_char(s.skip(k), c),
{
    assert(s =~= s.take(k) + s.skip(k));
    lemma_count_char_add(s.take(k), s.skip(k), c);
}

/// The total count of a character over several texts.
pub open spec fn count_char_all(parts: Seq<Seq<char>>, c: char) -> nat
    decreases parts.len(),
{
    if parts.len() == 0 {
        0
    } else {
        count_char_all(parts.drop_last(), c) + count_char(parts.last(), c)
    }
}

/// Joining texts with a separator that lacks a character keeps the total
/// count of that character.
pub proof fn lemma_count_char_join(parts: Seq<Seq<char>>, sep: Seq<char>, c: char)
    requires
        count_char(sep, c) == 0,
    ensures
        count_char(join(parts, sep), c) == count_char_all(parts, c),
    decreases parts.len(),
{
    if parts.len() == 0 {
        assert(count_char(Seq::<char>::empty(), c) == 0);
    } else if parts.len() == 1 {
        assert(parts.drop_last() =~= Seq::<Seq<char>>::empty());
        assert(count_char_all(Seq::<Seq<char>>::empty(), c) == 0);
    } else {
        lemma_count_char_join(parts.drop_last(), sep, c);
        lemma_count_char_add(join(parts.drop_last(), sep), sep, c);
        lemma_count_char_add(join(parts.drop_last(), sep) + sep, parts.last(), c);
    }
}

/// The characters of a string, in order.
pub fn chars_of(s: &str) -> (r: Vec<char>)
    ensures
        r@ == s@,
{
    broadcast use vstd::string::axiom_spec_iter, vstd::string::next_postcondition;
    let mut out: Vec<char> = Vec::new();
    for c in it: s.chars()
        invariant
            it.seq() == s@,
            out@ == s@.take(it.index() as int),
    {
        out.push(c);
    }
    out
}

/// Whether a character is an ASCII decimal digit.
pub open spec fn is_dec_char(c: char) -> bool {
    '0' <= c <= '9'
}

/// The numeric value of an ASCII decimal digit.
pub open spec fn dec_char_value(c: char) -> nat {
    (c as int - '0' as int) as nat
}

/// The value of a sequence of decimal digit characters (zero for the empty sequence).
pub open spec fn dec_value(s: Seq<char>) -> nat
    decreases s.len(),
{
    if s.len() == 0 {
        0
    } else {
        dec_value(s.drop_last()) * 10 + dec_char_value(s.last())
    }
}

/// The digits that an unsigned number's text holds after an optional leading `+`.
pub open spec fn unsigned_digits(s: Seq<char>) -> Seq<char> {
    if s.len() > 0 && s[0] == '+' {
        s.drop_first()
    } else {
        s
    }
}

/// What std's `FromStr` gives for an unsigned integer type whose largest value
/// is `max`: an optional `+`, then one or more decimal digits whose value is at
/// most `max`; anything else is rejected.
pub open spec fn parse_unsigned(s: Seq<char>, max: nat) -> Option<nat> {
    let d = unsigned_digits(s);
    if d.len() > 0 && (forall|i: int| 0 <= i < d.len() ==> is_dec_char(#[trigger] d[i]))
        && dec_value(d) <= max {
        Some(dec_value(d))
    } else {
        None
    }
}

/// A value of a digit sequence is at least that of any of its prefixes.
pub proof fn lemma_dec_value_prefix(s: Seq<char>, k: int)
    requires
        0 <= k <= s.len(),
    ensures
        dec_value(s.take(k)) <= dec_value(s),
    decreases s.len(),
{
    if k < s.len() {
        lemma_dec_value_prefix(s.drop_last(), k);
        assert(s.drop_last().take(k) =~= s.take(k));
    } else {
        assert(s.take(k) =~= s);
    }
}

/// Whether two string slices hold the same characters.
pub fn str_eq(a: &str, b: &str) -> (r: bool)
    ensures
        r == (a@ == b@),
{
    let a = a.to_string();
    let b = b.to_string();
    a == b
}

/// Joins string slices with a separator.
pub fn join_strs(parts: &Vec<&str>, sep: &str) -> (r: String)
    ensures
        r@ == join(str_views(parts@), sep@),
{
    let mut s = String::new();
    let mut i: usize = 0;
    while i < parts.len()
        invariant
            i <= parts@.len(),
            s@ == join(str_views(parts@.take(i as int)), sep@),
        decreases parts@.len() - i,
    {
        assert(str_views(parts@.take(i + 1)).drop_last() =~= str_views(parts@.take(i as int)));
        if i > 0 {
            s.append(sep);
        }
        s.append(parts[i]);
        proof {
            if i == 0 {
                assert(s@ =~= str_views(parts@.take(1))[0]);
            }
        }
        i = i + 1;
    }
    assert(parts@.take(i as int) =~= parts@);
    s
}

/// Joins strings with a separator.
pub fn join_strings(parts: &Vec<String>, sep: &str) -> (r: String)
    ensures
        r@ == join(string_views(parts@), sep@),
{
    let mut s = String::new();
    let mut i: usize = 0;
    while i < parts.len()
        invariant
            i <= parts@.len(),
            s@ == join(string_views(parts@.take(i as int)), sep@),
        decreases parts@.len() - i,
    {
        assert(string_views(parts@.take(i + 1)).drop_last() =~= string_views(parts@.take(i as int)));
        if i > 0 {
            s.append(sep);
        }
        s.append(parts[i].as_str());
        proof {
            if i == 0 {
                assert(s@ =~= string_views(parts@.take(1))[0]);
            }
        }
        i = i + 1;
    }
    assert(parts@.take(i as int) =~= parts@);
    s
}

/// A copy of a list of strings.
pub fn clone_strings(v: &Vec<String>) -> (r: Vec<String>)
    ensures
        string_views(r@) == string_views(v@),
{
    let mut out: Vec<String> = Vec::new();
    let mut i: usize = 0;
    while i < v.len()
        invariant
            i <= v@.len(),
            string_views(out@) =~= string_views(v@.take(i as int)),
        decreases v@.len() - i,
    {
        let c = v[i].clone();
        let ghost before = out@;
        out.push(c);
        assert(string_views(out@) =~= string_views(before).push(c@));
        assert(v@.take(i + 1) =~= v@.take(i as int).push(v@[i as int]));
        i = i + 1;
    }
    assert(v@.take(i as int) =~= v@);
    out
}

/// Whether a string slice begins with another.
pub fn starts_with(s: &str, prefix: &str) -> (r: bool)
    ensures
        r == prefix@.is_prefix_of(s@),
{
    let a = chars_of(s);
    let b = chars_of(prefix);
    if b.len() > a.len() {
        return false;
    }
    let mut i: usize = 0;
    while i < b.len()
        invariant
            b@.len() <= a@.len(),
            i <= b@.len(),
            a@ == s@,
            b@ == prefix@,
            forall|j: int| 0 <= j < i ==> a@[j] == b@[j],
        decreases b@.len() - i,
    {
        if a[i] != b[i] {
            return false;
        }
        i = i + 1;
    }
    assert(prefix@ =~= s@.take(prefix@.len() as int));
    true
}

/// The number of occurrences of a character in a string slice.
pub fn count_occurrences(s: &str, c: char) -> (r: usize)
    ensures
        r == count_char(s@, c),
{
    let a = chars_of(s);
    let mut n: usize = 0;
    let mut i: usize = 0;
    while i < a.len()
        invariant
            i <= a@.len(),
            a@ == s@,
            n == count_char(a@.take(i as int), c),
            n <= i,
        decreases a@.len() - i,
    {
        assert(a@.take(i + 1).drop_last() =~= a@.take(i as int));
        if a[i] == c {
            n = n + 1;
        }
        i = i + 1;
    }
    assert(a@.take(i as int) =~= a@);
    n
}

/// The pieces of a string slice split at a character, as strings.
pub fn split_str(s: &str, c: char) -> (r: Vec<String>)
    ensures
        string_views(r@) == split_on(s@, c),
{
    let a = chars_of(s);
    let mut parts: Vec<String> = Vec::new();
    let mut cur = String::new();
    let mut i: usize = 0;
    assert(a@.take(0) =~= Seq::<char>::empty());
    assert(string_views(parts@).push(cur@) =~= split_on(a@.take(0), c));
    while i < a.len()
        invariant
            i <= a@.len(),
            a@ == s@,
            string_views(parts@).push(cur@) == split_on(a@.take(i as int), c),
        decreases a@.len() - i,
    {
        let ch = a[i];
        assert(a@.take(i + 1).drop_last() =~= a@.take(i as int));
        let ghost before = split_on(a@.take(i as int), c);
        if ch == c {
            let done = cur;
            parts.push(done);
            cur = String::new();
            assert(string_views(parts@).push(cur@) =~= before.push(Seq::empty()));
        } else {
            push_char(&mut cur, ch);
            assert(string_views(parts@).push(cur@) =~= before.update(before.len() - 1, before.last().push(ch)));
        }
        i = i + 1;
    }
    assert(a@.take(i as int) =~= a@);
    parts.push(cur);
    assert(string_views(parts@) =~= split_on(s@, c));
    parts
}

fn dec_char(d: u8) -> (c: char)
    requires
        d < 10,
    ensures
        c == dec_alphabet()[d as int],
{
    match d {
        0 => '0',
        1 => '1',
        2 => '2',
        3 => '3',
        4 => '4',
        5 => '5',
        6 => '6',
        7 => '7',
        8 => '8',
        _ => '9',
    }
}

fn hex_char(d: u8) -> (c: char)
    requires
        d < 16,
    ensures
        c == hex_alphabet()[d as int],
{
    match d {
        0 => '0',
        1 => '1',
        2 => '2',
        3 => '3',
        4 => '4',
        5 => '5',
        6 => '6',
        7 => '7',
        8 => '8',
        9 => '9',
        10 => 'a',
        11 => 'b',
        12 => 'c',
        13 => 'd',
        14 => 'e',
        _ => 'f',
    }
}

/// Appends the decimal digits of `n` to `s`.
pub fn push_dec(s: &mut String, n: u128)
    ensures
        final(s)@ == old(s)@ + dec_digits(n as nat),
    decreases n,
{
    if n >= 10 {
        push_dec(s, n / 10);
    }
    push_char(s, dec_char((n % 10) as u8));
    proof {
        if n >= 10 {
            assert(old(s)@ + dec_digits(n as nat) =~= old(s)@ + dec_digits((n / 10) as nat)
                + seq![dec_alphabet()[(n % 10) as int]]);
        } else {
            assert(dec_digits(n as nat) =~= seq![dec_alphabet()[n as int]]);
        }
    }
}

/// Appends the lower-case hexadecimal digits of `n` to `s`.
pub fn push_hex(s: &mut String, n: u64)
    ensures
        final(s)@ == old(s)@ + hex_digits(n as nat),
    decreases n,
{
    if n >= 16 {
        push_hex(s, n / 16);
    }
    push_char(s, hex_char((n % 16) as u8));
    proof {
        if n >= 16 {
            assert(old(s)@ + hex_digits(n as nat) =~= old(s)@ + hex_digits((n / 16) as nat)
                + seq![hex_alphabet()[(n % 16) as int]]);
        } else {
            assert(hex_digits(n as nat) =~= seq![hex_alphabet()[n as int]]);
        }
    }
}

/// Appends the decimal representation of a signed integer to `s`.
pub fn push_signed_dec(s: &mut String, n: i64)
    ensures
        final(s)@ == old(s)@ + signed_dec_digits(n as int),
{
    if n < 0 {
        push_char(s, '-');
        let m: u128 = (0i128 - n as i128) as u128;
        push_dec(s, m);
        assert(final(s)@ =~= old(s)@ + signed_dec_digits(n as int));
    } else {
        push_dec(s, n as u128);
    }
}

/// The decimal text of an unsigned integer.
pub fn dec_string(n: u64) -> (r: String)
    ensures
        r@ == dec_digits(n as nat),
{
    let mut s = String::new();
    push_dec(&mut s, n as u128);
    assert(s@ =~= dec_digits(n as nat));
    s
}

/// The decimal text of a signed integer.
pub fn signed_dec_string(n: i64) -> (r: String)
    ensures
        r@ == signed_dec_digits(n as int),
{
    let mut s = String::new();
    push_signed_dec(&mut s, n);
    assert(s@ =~= signed_dec_digits(n as int));
    s
}

/// Parses unsigned decimal text as std's `FromStr` does for an unsigned
/// integer type whose largest value is `max`.
pub fn parse_unsigned_chars(s: &Vec<char>, max: u64) -> (r: Option<u64>)
    ensures
        match parse_unsigned(s@, max as nat) {
            Some(v) => r == Some(v as u64),
            None => r is None,
        },
{
    let start: usize = if s.len() > 0 && s[0] == '+' { 1 } else { 0 };
    let ghost d = unsigned_digits(s@);
    assert(d =~= s@.subrange(start as int, s@.len() as int));
    if start >= s.len() {
        return None;
    }
    let mut acc: u64 = 0;
    let mut i = start;
    while i < s.len()
        invariant
            start <= i <= s.len(),
            start < s.len(),
            d =~= s@.subrange(start as int, s@.len() as int),
            d == unsigned_digits(s@),
            forall|j: int| start <= j < i ==> is_dec_char(#[trigger] s@[j]),
            acc as nat == dec_value(d.take(i - start)),
            acc <= max,
        decreases s.len() - i,
    {
        let c = s[i];
        if !('0' <= c && c <= '9') {
            assert(d[i - start] == c);
            assert(!is_dec_char(d[i - start]));
            assert(!(forall|j: int| 0 <= j < d.len() ==> is_dec_char(#[trigger] d[j])));
            assert(parse_unsigned(s@, max as nat) is None);
            return None;
        }
        let dv: u64 = (c as u32 - '0' as u32) as u64;
        assert(d.take(i + 1 - start).drop_last() =~= d.take(i - start));
        if dv > max || acc > (max - dv) / 10 {
            proof {
                assert(dec_value(d.take(i + 1 - start)) == acc * 10 + dv);
                assert(acc * 10 + dv > max) by (nonlinear_arith)
                    requires dv > max || (dv <= max && acc > (max - dv) / 10);
                lemma_dec_value_prefix(d, i + 1 - start);
                assert(dec_value(d) > max);
                assert(parse_unsigned(s@, max as nat) is None);
            }
            return None;
        }
        proof {
            assert(acc * 10 + dv <= max) by (nonlinear_arith)
                requires acc <= (max - dv) / 10, dv <= max;
        }
        acc = acc * 10 + dv;
        i = i + 1;
    }
    assert(d.take(i - start) =~= d);
    Some(acc)
}

} // verus!
