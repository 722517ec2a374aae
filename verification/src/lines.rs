//! Lines, white space and trimming of text, as `str::lines`, `str::trim` and
//! `str::trim_matches` define them.
use vstd::prelude::*;
use crate::platform::{push_char};
use crate::text::chars_of;
use crate::text::{split_on, split_str, string_views};

verus! {

/// Whether a character has the Unicode White_Space property (`char::is_whitespace`).
pub open spec fn is_white(c: char) -> bool {
    ||| '\u{9}' <= c <= '\u{d}'
    ||| c == ' '
    ||| c == '\u{85}'
    ||| c == '\u{a0}'
    ||| c == '\u{1680}'
    ||| '\u{2000}' <= c <= '\u{200a}'
    ||| c == '\u{2028}'
    ||| c == '\u{2029}'
    ||| c == '\u{202f}'
    ||| c == '\u{205f}'
    ||| c == '\u{3000}'
}

/// Whether a character is white space.
pub fn is_white_char(c: char) -> (r: bool)
    ensures
        r == is_white(c),
{
    ('\u{9}' <= c && c <= '\u{d}') || c == ' ' || c == '\u{85}' || c == '\u{a0}' || c == '\u{1680}'
        || ('\u{2000}' <= c && c <= '\u{200a}') || c == '\u{2028}' || c == '\u{2029}' || c
        == '\u{202f}' || c == '\u{205f}' || c == '\u{3000}'
}

/// The characters that trimming removes: white space, or one given character.
pub open spec fn trimmed_char(white: bool, c: char) -> spec_fn(char) -> bool {
    |x: char| if white { is_white(x) } else { x == c }
}

/// The text without the leading characters that satisfy `p`.
pub open spec fn strip_start(s: Seq<char>, p: spec_fn(char) -> bool) -> Seq<char>
    decreases s.len(),
{
    if s.len() > 0 && p(s[0]) {
        strip_start(s.drop_first(), p)
    } else {
        s
    }
}

/// The text without the trailing characters that satisfy `p`.
pub open spec fn strip_end(s: Seq<char>, p: spec_fn(char) -> bool) -> Seq<char>
    decreases s.len(),
{
    if s.len() > 0 && p(s.last()) {
        strip_end(s.drop_last(), p)
    } else {
        s
    }
}

/// The text without leading and trailing white space (`str::trim`).
pub open spec fn trim_white(s: Seq<char>) -> Seq<char> {
    strip_end(strip_start(s, trimmed_char(true, ' ')), trimmed_char(true, ' '))
}

/// The text without leading and trailing occurrences of a character (`str::trim_matches`).
pub open spec fn trim_char(s: Seq<char>, c: char) -> Seq<char> {
    strip_end(strip_start(s, trimmed_char(false, c)), trimmed_char(false, c))
}

/// The characters from `a` to `b` as a string.
fn collect_range(chars: &Vec<char>, a: usize, b: usize) -> (r: String)
    requires
        a <= b <= chars@.len(),
    ensures
        r@ == chars@.subrange(a as int, b as int),
{
    let mut out = String::new();
    let mut i: usize = a;
    while i < b
        invariant
            a <= i <= b <= chars@.len(),
            out@ =~= chars@.subrange(a as int, i as int),
        decreases b - i,
    {
        push_char(&mut out, chars[i]);
        i = i + 1;
    }
    out
}

/// Whether a character is removed by trimming.
fn trims(white: bool, c: char, x: char) -> (r: bool)
    ensures
        r == trimmed_char(white, c)(x),
{
    if white {
        is_white_char(x)
    } else {
        x == c
    }
}

/// The text trimmed at both ends: of white space, or of one character.
fn trim_both(s: &str, white: bool, c: char) -> (r: String)
    ensures
        r@ == strip_end(strip_start(s@, trimmed_char(white, c)), trimmed_char(white, c)),
{
    let ghost p = trimmed_char(white, c);
    let chars = chars_of(s);
    let n = chars.len();
    let mut i: usize = 0;
    assert(chars@.skip(0) =~= chars@);
    while i < n && trims(white, c, chars[i])
        invariant
            i <= n == chars@.len(),
            chars@ == s@,
            p == trimmed_char(white, c),
            strip_start(chars@.skip(i as int), p) == strip_start(s@, p),
        decreases n - i,
    {
        assert(chars@.skip(i as int).drop_first() =~= chars@.skip(i + 1));
        i = i + 1;
    }
    assert(strip_start(s@, p) == chars@.subrange(i as int, n as int)) by {
        assert(chars@.skip(i as int) =~= chars@.subrange(i as int, n as int));
    }
    let mut j: usize = n;
    while j > i && trims(white, c, chars[j - 1])
        invariant
            i <= j <= n == chars@.len(),
            p == trimmed_char(white, c),
            strip_end(chars@.subrange(i as int, j as int), p) == strip_end(strip_start(s@, p), p),
        decreases j,
    {
        assert(chars@.subrange(i as int, j as int).drop_last() =~= chars@.subrange(
            i as int,
            j - 1,
        ));
        j = j - 1;
    }
    collect_range(&chars, i, j)
}

/// The text without leading and trailing white space.
pub fn trim_str(s: &str) -> (r: String)
    ensures
        r@ == trim_white(s@),
{
    trim_both(s, true, ' ')
}

/// The text without leading and trailing occurrences of a character.
pub fn trim_matches_char(s: &str, c: char) -> (r: String)
    ensures
        r@ == trim_char(s@, c),
{
    trim_both(s, false, c)
}

/// A line without the carriage return that ended it along with a newline.
pub open spec fn strip_cr(l: Seq<char>) -> Seq<char> {
    if l.len() > 0 && l.last() == '\r' {
        l.drop_last()
    } else {
        l
    }
}

/// The lines of a text (`str::lines`): split at each newline, a carriage
/// return before a newline dropped, and no empty line after a final newline.
pub open spec fn text_lines(s: Seq<char>) -> Seq<Seq<char>> {
    let pieces = split_on(s, '\n');
    let ended = pieces.drop_last().map_values(|l: Seq<char>| strip_cr(l));
    if pieces.last().len() == 0 {
        ended
    } else {
        ended.push(pieces.last())
    }
}

/// The lines of a text.
pub fn lines_of(s: &str) -> (r: Vec<String>)
    ensures
        string_views(r@) == text_lines(s@),
{
    let pieces = split_str(s, '\n');
    proof {
        crate::text::lemma_split_on_nonempty(s@, '\n');
    }
    let ghost pv = string_views(pieces@);
    let n = pieces.len();
    let mut out: Vec<String> = Vec::new();
    let mut i: usize = 0;
    while i + 1 < n
        invariant
            1 <= n == pieces@.len(),
            i + 1 <= n,
            pv == string_views(pieces@),
            pv == split_on(s@, '\n'),
            string_views(out@) =~= pv.take(i as int).map_values(|l: Seq<char>| strip_cr(l)),
        decreases n - i,
    {
        let chars = chars_of(pieces[i].as_str());
        let end: usize = if chars.len() > 0 && chars[chars.len() - 1] == '\r' {
            chars.len() - 1
        } else {
            chars.len()
        };
        let line = collect_range(&chars, 0, end);
        assert(line@ =~= strip_cr(pv[i as int]));
        let ghost before = out@;
        out.push(line);
        assert(string_views(out@) =~= string_views(before).push(line@));
        assert(pv.take(i + 1) =~= pv.take(i as int).push(pv[i as int]));
        i = i + 1;
    }
    assert(pv.take(i as int) =~= pv.drop_last());
    if pieces[n - 1].as_str().is_empty() {
        out
    } else {
        let last = pieces[n - 1].clone();
        let ghost before = out@;
        out.push(last);
        assert(string_views(out@) =~= string_views(before).push(last@));
        out
    }
}

/// Whether `pat` occurs in `s` at index `i`.
pub open spec fn occurs_at(s: Seq<char>, pat: Seq<char>, i: int) -> bool {
    0 <= i && i + pat.len() <= s.len() && s.subrange(i, i + pat.len()) == pat
}

/// The first index from `k` on at which `pat` occurs in `s` (`str::find`).
pub open spec fn find_from(s: Seq<char>, pat: Seq<char>, k: int) -> Option<int>
    decreases s.len() + 1 - k,
{
    if k < 0 || k + pat.len() > s.len() {
        None
    } else if occurs_at(s, pat, k) {
        Some(k)
    } else {
        find_from(s, pat, k + 1)
    }
}

/// A found index is where the pattern occurs, at or after the starting index.
pub proof fn lemma_find_from_some(s: Seq<char>, pat: Seq<char>, k: int)
    ensures
        find_from(s, pat, k) matches Some(i) ==> k <= i && occurs_at(s, pat, i),
    decreases s.len() + 1 - k,
{
    if !(k < 0 || k + pat.len() > s.len()) && !occurs_at(s, pat, k) {
        lemma_find_from_some(s, pat, k + 1);
    }
}

/// The index of the first occurrence of `pat` in `s`.
pub fn find_str(s: &Vec<char>, pat: &Vec<char>) -> (r: Option<usize>)
    ensures
        match find_from(s@, pat@, 0) {
            Some(i) => r == Some(i as usize),
            None => r is None,
        },
{
    let n = s.len();
    let m = pat.len();
    if m > n {
        return None;
    }
    let mut k: usize = 0;
    while k <= n - m
        invariant
            n == s@.len(),
            m == pat@.len(),
            m <= n,
            k <= n - m + 1,
            find_from(s@, pat@, k as int) == find_from(s@, pat@, 0),
        decreases n - k,
    {
        let mut j: usize = 0;
        let mut same = true;
        while j < m
            invariant
                j <= m,
                k + m <= n,
                n == s@.len(),
                m == pat@.len(),
                same == (forall|t: int| 0 <= t < j ==> s@[k + t] == pat@[t]),
            decreases m - j,
        {
            if s[k + j] != pat[j] {
                same = false;
            }
            j = j + 1;
        }
        if same {
            assert(s@.subrange(k as int, k + m) =~= pat@);
            return Some(k);
        } else {
            assert(!occurs_at(s@, pat@, k as int)) by {
                if occurs_at(s@, pat@, k as int) {
                    assert forall|t: int| 0 <= t < m implies s@[k + t] == pat@[t] by {
                        assert(s@.subrange(k as int, k + m)[t] == s@[k + t]);
                    }
                }
            }
        }
        k = k + 1;
    }
    None
}

/// The number of leading characters of `s` that are not white space.
pub open spec fn non_white_prefix(s: Seq<char>) -> nat
    decreases s.len(),
{
    if s.len() == 0 || is_white(s[0]) {
        0
    } else {
        1 + non_white_prefix(s.drop_first())
    }
}

/// The first value that is present, in order.
pub open spec fn first_present(xs: Seq<Option<Seq<char>>>) -> Option<Seq<char>>
    decreases xs.len(),
{
    if xs.len() == 0 {
        None
    } else if xs[0] is Some {
        xs[0]
    } else {
        first_present(xs.drop_first())
    }
}

/// Whether a character occurs in a text.
pub open spec fn has_char(s: Seq<char>, c: char) -> bool {
    exists|i: int| 0 <= i < s.len() && s[i] == c
}

/// Whether a character occurs in a string.
pub fn contains_char(s: &str, c: char) -> (r: bool)
    ensures
        r == has_char(s@, c),
{
    let chars = chars_of(s);
    let mut i: usize = 0;
    while i < chars.len()
        invariant
            i <= chars@.len(),
            chars@ == s@,
            forall|j: int| 0 <= j < i ==> chars@[j] != c,
        decreases chars@.len() - i,
    {
        if chars[i] == c {
            return true;
        }
        i = i + 1;
    }
    false
}

} // verus!
