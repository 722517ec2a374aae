//! Text shown by the command-line tool: durations, deployment states, table
//! rows and machine-readable error lines.
use vstd::prelude::*;
use crate::platform::{parse_rfc3339_utc_text, push_char, rfc3339_utc_text, spec_to_lowercase, to_lowercase};
use crate::text::chars_of;
use crate::text::{dec_digits, dec_string, join, push_dec, str_eq, str_views, string_views};
use crate::money::amount_text;
use vstd::arithmetic::power2::{lemma2_to64, lemma2_to64_rest, lemma_pow2_strictly_increases, lemma_pow2_unfold, pow2};

verus! {

/// A duration in seconds as shown: seconds under a minute, minutes and seconds
/// under an hour, else hours and minutes.
pub open spec fn duration_text(secs: nat) -> Seq<char> {
    if secs < 60 {
        dec_digits(secs) + "s"@
    } else if secs < 3600 {
        dec_digits(secs / 60) + "m "@ + dec_digits(secs % 60) + "s"@
    } else {
        dec_digits(secs / 3600) + "h "@ + dec_digits((secs % 3600) / 60) + "m"@
    }
}

/// Format duration as human-readable string.
pub fn format_duration(secs: u64) -> (r: String)
    ensures
        r@ == duration_text(secs as nat),
{
    let mut s = String::new();
    let ghost empty = s@;
    assert(empty + dec_digits(secs as nat) =~= dec_digits(secs as nat));
    assert(empty + dec_digits((secs / 60) as nat) =~= dec_digits((secs / 60) as nat));
    assert(empty + dec_digits((secs / 3600) as nat) =~= dec_digits((secs / 3600) as nat));
    if secs < 60 {
        push_dec(&mut s, secs as u128);
        s.append("s");
    } else if secs < 3600 {
        push_dec(&mut s, (secs / 60) as u128);
        s.append("m ");
        push_dec(&mut s, (secs % 60) as u128);
        s.append("s");
    } else {
        push_dec(&mut s, (secs / 3600) as u128);
        s.append("h ");
        push_dec(&mut s, ((secs % 3600) / 60) as u128);
        s.append("m");
    }
    s
}

/// The state of a deployment: a canary at its percentage (0 when unknown), or active.
pub open spec fn deployment_status_text(canary: bool, percentage: Option<u8>) -> Seq<char> {
    if canary {
        "canary-"@ + dec_digits(
            match percentage {
                Some(p) => p as nat,
                None => 0,
            },
        ) + "%"@
    } else {
        "active"@
    }
}

/// The state of a deployment record.
pub fn determine_status(canary: bool, percentage: Option<u8>) -> (r: String)
    ensures
        r@ == deployment_status_text(canary, percentage),
{
    if canary {
        let p: u8 = match percentage {
            Some(p) => p,
            None => 0,
        };
        let mut s = "canary-".to_string();
        push_dec(&mut s, p as u128);
        s.append("%");
        s
    } else {
        "active".to_string()
    }
}

/// How a deployment state is highlighted.
#[derive(Debug, Clone, Copy, PartialEq, Eq, Structural)]
pub enum StatusTone {
    /// Running well (green).
    Good,
    /// In progress (yellow).
    Pending,
    /// Failed (red).
    Bad,
    /// Not running (dimmed).
    Muted,
    /// Any other state (shown as it is).
    Plain,
}

/// The highlight of a state name, ignoring case.
pub open spec fn status_tone_of(status: Seq<char>) -> StatusTone {
    let l = spec_to_lowercase(status);
    if l == "deployed"@ || l == "active"@ || l == "healthy"@ {
        StatusTone::Good
    } else if l == "deploying"@ || l == "pending"@ {
        StatusTone::Pending
    } else if l == "failed"@ || l == "error"@ {
        StatusTone::Bad
    } else if l == "inactive"@ || l == "stopped"@ {
        StatusTone::Muted
    } else {
        StatusTone::Plain
    }
}

/// The highlight of a deployment state.
pub fn status_tone(status: &str) -> (r: StatusTone)
    ensures
        r == status_tone_of(status@),
{
    let lower = to_lowercase(status);
    let l = lower.as_str();
    if str_eq(l, "deployed") || str_eq(l, "active") || str_eq(l, "healthy") {
        StatusTone::Good
    } else if str_eq(l, "deploying") || str_eq(l, "pending") {
        StatusTone::Pending
    } else if str_eq(l, "failed") || str_eq(l, "error") {
        StatusTone::Bad
    } else if str_eq(l, "inactive") || str_eq(l, "stopped") {
        StatusTone::Muted
    } else {
        StatusTone::Plain
    }
}

/// A text padded with spaces on the right to at least `width` characters.
pub open spec fn pad_right(s: Seq<char>, width: nat) -> Seq<char> {
    if s.len() >= width {
        s
    } else {
        s + Seq::new((width - s.len()) as nat, |i: int| ' ')
    }
}

/// The cells of a table row: each column padded to its width, as far as both lists go.
pub open spec fn row_cells(cols: Seq<Seq<char>>, widths: Seq<usize>) -> Seq<Seq<char>> {
    Seq::new(
        if cols.len() <= widths.len() { cols.len() } else { widths.len() },
        |i: int| pad_right(cols[i], widths[i] as nat),
    )
}

/// A table row as printed: indented by two spaces, cells separated by two spaces.
pub open spec fn table_row_text(cols: Seq<Seq<char>>, widths: Seq<usize>) -> Seq<char> {
    "  "@ + join(row_cells(cols, widths), "  "@)
}

/// A text padded with spaces to a width.
fn pad(s: &str, width: usize) -> (r: String)
    ensures
        r@ == pad_right(s@, width as nat),
{
    let chars = chars_of(s);
    let mut out = s.to_string();
    let mut k: usize = chars.len();
    while k < width
        invariant
            chars@ == s@,
            chars@.len() <= k <= width || (k == chars@.len() && k >= width),
            k >= chars@.len(),
            out@ =~= s@ + Seq::new((k - s@.len()) as nat, |i: int| ' '),
        decreases width - k,
    {
        push_char(&mut out, ' ');
        k = k + 1;
    }
    proof {
        if s@.len() >= width {
            assert(out@ =~= s@);
        }
    }
    out
}

/// A table row as printed.
pub fn table_row(cols: &[&str], widths: &[usize]) -> (r: String)
    ensures
        r@ == table_row_text(cols@.map_values(|c: &str| c@), widths@),
{
    let n: usize = if cols.len() <= widths.len() { cols.len() } else { widths.len() };
    let ghost cv = cols@.map_values(|c: &str| c@);
    let mut cells: Vec<String> = Vec::new();
    let mut i: usize = 0;
    while i < n
        invariant
            i <= n,
            n <= cols@.len(),
            n <= widths@.len(),
            n == row_cells(cv, widths@).len(),
            cv == cols@.map_values(|c: &str| c@),
            string_views(cells@) =~= row_cells(cv, widths@).take(i as int),
        decreases n - i,
    {
        let cell = pad(cols[i], widths[i]);
        let ghost before = cells@;
        cells.push(cell);
        assert(string_views(cells@) =~= string_views(before).push(cell@));
        i = i + 1;
    }
    assert(row_cells(cv, widths@).take(n as int) =~= row_cells(cv, widths@));
    let mut line = "  ".to_string();
    line.append(crate::text::join_strings(&cells, "  ").as_str());
    line
}

/// A message with each double quote escaped by a backslash.
pub open spec fn escape_quotes(s: Seq<char>) -> Seq<char>
    decreases s.len(),
{
    if s.len() == 0 {
        Seq::empty()
    } else {
        escape_quotes(s.drop_last()) + if s.last() == '"' {
            seq!['\\', '"']
        } else {
            seq![s.last()]
        }
    }
}

/// An error as a line of JSON: `{"error": "<message>"}`.
pub open spec fn json_error_text(msg: Seq<char>) -> Seq<char> {
    "{\"error\": \""@ + escape_quotes(msg) + "\"}"@
}

/// An error as a line of JSON.
pub fn json_error_line(msg: &str) -> (r: String)
    ensures
        r@ == json_error_text(msg@),
{
    let chars = chars_of(msg);
    let mut out = "{\"error\": \"".to_string();
    let ghost head = out@;
    let mut i: usize = 0;
    assert(chars@.take(0) =~= Seq::<char>::empty());
    while i < chars.len()
        invariant
            i <= chars@.len(),
            chars@ == msg@,
            out@ =~= head + escape_quotes(chars@.take(i as int)),
        decreases chars@.len() - i,
    {
        assert(chars@.take(i + 1).drop_last() =~= chars@.take(i as int));
        if chars[i] == '"' {
            push_char(&mut out, '\\');
            push_char(&mut out, '"');
        } else {
            push_char(&mut out, chars[i]);
        }
        i = i + 1;
    }
    assert(chars@.take(i as int) =~= msg@);
    out.append("\"}");
    out
}


/// How many low bits of `b` do not fit in the 53-bit significand of a double.
pub open spec fn excess_bits(b: nat) -> nat
    decreases b,
{
    if b < 9007199254740992 {
        0
    } else {
        1 + excess_bits(b / 2)
    }
}

/// `q + r/p` rounded to an integer, ties to the even one.
pub open spec fn round_half_even(q: nat, r: nat, p: nat) -> nat {
    if 2 * r > p || (2 * r == p && q % 2 == 1) {
        q + 1
    } else {
        q
    }
}

/// The value of `b as f64` for an unsigned integer: `b` rounded to 53
/// significant bits, ties to even.
pub open spec fn f64_of(b: nat) -> nat {
    let p = pow2(excess_bits(b));
    round_half_even(b / p, b % p, p) * p
}

/// `v / p` printed with two decimals (`{:.2}`), rounded half to even.
pub open spec fn two_decimals(v: nat, p: nat) -> Seq<char> {
    amount_text(round_half_even((v * 100) / p, (v * 100) % p, p), 2)
}

/// A byte count as shown: whole bytes below a kibibyte, else the value in KB,
/// MB or GB (powers of 1024) with two decimals, computed as `f64` does.
pub open spec fn bytes_text(b: nat) -> Seq<char> {
    if b >= 1073741824 {
        two_decimals(f64_of(b), 1073741824) + " GB"@
    } else if b >= 1048576 {
        two_decimals(f64_of(b), 1048576) + " MB"@
    } else if b >= 1024 {
        two_decimals(f64_of(b), 1024) + " KB"@
    } else {
        dec_digits(b) + " B"@
    }
}

/// The value of `b as f64`, as an integer.
fn f64_value(b: u64) -> (r: u128)
    ensures
        r == f64_of(b as nat),
        r <= 0x1_0000_0000_0000_0000u128,
{
    let mut t: u64 = b;
    let mut e: u64 = 0;
    let mut p: u64 = 1;
    proof {
        lemma2_to64();
    }
    while t >= 9007199254740992
        invariant
            e <= 11,
            p == pow2(e as nat),
            p <= 2048,
            t == b / p,
            excess_bits(t as nat) + e == excess_bits(b as nat),
        decreases t,
    {
        proof {
            vstd::arithmetic::power2::lemma_pow2_pos(e as nat);
            assert(t * p <= b) by (nonlinear_arith)
                requires
                    t == b / p,
                    p > 0,
            ;
            assert(p < 2048) by (nonlinear_arith)
                requires
                    t * p <= b,
                    t >= 9007199254740992,
                    b < 0x1_0000_0000_0000_0000int,
            ;
            lemma2_to64();
            if e >= 11 {
                if e > 11 {
                    lemma_pow2_strictly_increases(11, e as nat);
                }
                assert(false);
            }
            lemma_pow2_unfold((e + 1) as nat);
            vstd::arithmetic::div_mod::lemma_div_denominator(b as int, p as int, 2);
        }
        t = t / 2;
        e = e + 1;
        p = p * 2;
    }
    proof {
        vstd::arithmetic::power2::lemma_pow2_pos(e as nat);
    }
    let q: u128 = (b / p) as u128;
    let r: u128 = (b % p) as u128;
    let q2: u128 = if 2 * r > p as u128 || (2 * r == p as u128 && q % 2 == 1) { q + 1 } else { q };
    assert(q2 * (p as u128) <= 0x1_0000_0000_0000_0000u128) by (nonlinear_arith)
        requires
            q2 <= q + 1,
            q < 9007199254740992,
            p <= 2048,
    ;
    q2 * (p as u128)
}

/// Format bytes as human-readable size.
pub fn format_bytes(bytes: u64) -> (r: String)
    ensures
        r@ == bytes_text(bytes as nat),
{
    if bytes < 1024 {
        let mut s = dec_string(bytes);
        s.append(" B");
        return s;
    }
    let (p, unit): (u128, &str) = if bytes >= 1073741824 {
        (1073741824, " GB")
    } else if bytes >= 1048576 {
        (1048576, " MB")
    } else {
        (1024, " KB")
    };
    let v = f64_value(bytes);
    let n: u128 = v * 100;
    let q: u128 = n / p;
    let rem: u128 = n % p;
    let rounded: u128 = if 2 * rem > p || (2 * rem == p && q % 2 == 1) { q + 1 } else { q };
    let mut s = String::new();
    push_dec(&mut s, rounded / 100);
    push_char(&mut s, '.');
    let cents = rounded % 100;
    if cents < 10 {
        push_char(&mut s, '0');
    }
    push_dec(&mut s, cents);
    s.append(unit);
    s
}

/// A deployment timestamp for display: an RFC 3339 timestamp shown in UTC as
/// "YYYY-MM-DD HH:MM:SS UTC"; any other text as it is.
pub fn format_timestamp(ts: &str) -> (r: String)
    ensures
        r@ == match rfc3339_utc_text(ts@) {
            Some(t) => t,
            None => ts@,
        },
{
    match parse_rfc3339_utc_text(ts) {
        Some(t) => t,
        None => ts.to_string(),
    }
}

} // verus!
