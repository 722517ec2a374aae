//! Finding values in the text of other tools: the package name in a
//! `Cargo.toml`, and the deployed URL in the output of `spin deploy`.
use vstd::prelude::*;
use crate::lines::{
    contains_char, find_from, find_str, first_present, has_char, is_white, is_white_char, lines_of,
    non_white_prefix, text_lines, trim_char, trim_matches_char, trim_str, trim_white,
};
use crate::platform::{push_char};
use crate::text::chars_of;
use crate::text::{split_on, split_str, starts_with, string_views};

verus! {

/// The package name a line of a `Cargo.toml` gives: for a trimmed line that
/// starts with `name` and holds `=`, the text after the first `=`, trimmed, then
/// without surrounding double and then single quotes.
pub open spec fn name_in_line(line: Seq<char>) -> Option<Seq<char>> {
    let t = trim_white(line);
    if "name"@.is_prefix_of(t) && has_char(t, '=') {
        Some(trim_char(trim_char(trim_white(split_on(t, '=')[1]), '"'), '\''))
    } else {
        None
    }
}

/// The package name of a `Cargo.toml`: that of the first line that gives one.
pub open spec fn cargo_name(content: Seq<char>) -> Option<Seq<char>> {
    first_present(text_lines(content).map_values(|l: Seq<char>| name_in_line(l)))
}

/// The URL a line of deploy output shows: from the first `https://` up to the
/// next white space or the end of the line.
pub open spec fn url_in_line(line: Seq<char>) -> Option<Seq<char>> {
    match find_from(line, "https://"@, 0) {
        Some(start) => Some(line.skip(start).take(non_white_prefix(line.skip(start)) as int)),
        None => None,
    }
}

/// The deployed URL in deploy output: that of the first line showing one.
pub open spec fn deployed_url(output: Seq<char>) -> Option<Seq<char>> {
    first_present(text_lines(output).map_values(|l: Seq<char>| url_in_line(l)))
}

/// The first present value from index `i` on.
proof fn lemma_first_present_skip(xs: Seq<Option<Seq<char>>>, i: int)
    requires
        0 <= i <= xs.len(),
        forall|j: int| 0 <= j < i ==> xs[j] is None,
    ensures
        first_present(xs) == first_present(xs.skip(i)),
    decreases i,
{
    if i > 0 {
        assert(xs[0] is None);
        lemma_first_present_skip(xs.drop_first(), i - 1);
        assert(xs.drop_first().skip(i - 1) =~= xs.skip(i));
    } else {
        assert(xs.skip(0) =~= xs);
    }
}

/// The package name a line gives.
fn name_from_line(line: &str) -> (r: Option<String>)
    ensures
        match name_in_line(line@) {
            Some(n) => r matches Some(s) && s@ == n,
            None => r is None,
        },
{
    let t = trim_str(line);
    if starts_with(t.as_str(), "name") && contains_char(t.as_str(), '=') {
        let pieces = split_str(t.as_str(), '=');
        proof {
            let k = choose|k: int| 0 <= k < t@.len() && t@[k] == '=';
            lemma_split_on_count(t@, '=', k);
        }
        let value = trim_str(pieces[1].as_str());
        let unquoted = trim_matches_char(value.as_str(), '"');
        let name = trim_matches_char(unquoted.as_str(), '\'');
        Some(name)
    } else {
        None
    }
}

/// Splitting at a character that occurs gives at least two pieces.
proof fn lemma_split_on_count(s: Seq<char>, c: char, k: int)
    requires
        0 <= k < s.len(),
        s[k] == c,
    ensures
        split_on(s, c).len() >= 2,
    decreases s.len(),
{
    crate::text::lemma_split_on_nonempty(s.drop_last(), c);
    if k < s.len() - 1 {
        lemma_split_on_count(s.drop_last(), c, k);
    }
}

/// The package name in the text of a `Cargo.toml`.
pub fn extract_cargo_name(content: &str) -> (r: Option<String>)
    ensures
        match cargo_name(content@) {
            Some(n) => r matches Some(s) && s@ == n,
            None => r is None,
        },
{
    let lines = lines_of(content);
    let ghost xs = text_lines(content@).map_values(|l: Seq<char>| name_in_line(l));
    let mut i: usize = 0;
    while i < lines.len()
        invariant
            i <= lines@.len(),
            string_views(lines@) == text_lines(content@),
            xs == text_lines(content@).map_values(|l: Seq<char>| name_in_line(l)),
            forall|j: int| 0 <= j < i ==> xs[j] is None,
        decreases lines@.len() - i,
    {
        assert(xs[i as int] == name_in_line(lines@[i as int]@));
        match name_from_line(lines[i].as_str()) {
            Some(n) => {
                proof {
                    lemma_first_present_skip(xs, i as int);
                }
                return Some(n);
            },
            None => {},
        }
        i = i + 1;
    }
    proof {
        lemma_first_present_skip(xs, i as int);
    }
    None
}

/// The URL a line of deploy output shows.
fn url_from_line(line: &str) -> (r: Option<String>)
    ensures
        match url_in_line(line@) {
            Some(u) => r matches Some(s) && s@ == u,
            None => r is None,
        },
{
    let chars = chars_of(line);
    let pat = chars_of("https://");
    match find_str(&chars, &pat) {
        Some(start) => {
            proof {
                crate::lines::lemma_find_from_some(chars@, pat@, 0);
            }
            let ghost part = line@.skip(start as int);
            assert(part.skip(0) =~= part);
            let mut out = String::new();
            let mut i: usize = start;
            while i < chars.len() && !is_white_char(chars[i])
                invariant
                    start <= i <= chars@.len(),
                    chars@ == line@,
                    part == line@.skip(start as int),
                    out@ =~= part.take(i - start),
                    non_white_prefix(part.skip(i - start)) + (i - start) == non_white_prefix(part),
                decreases chars@.len() - i,
            {
                assert(part.skip(i - start).drop_first() =~= part.skip(i - start + 1));
                push_char(&mut out, chars[i]);
                i = i + 1;
            }
            assert(non_white_prefix(part.skip(i - start)) == 0);
            Some(out)
        },
        None => None,
    }
}

/// The deployed URL in the output of `spin deploy`.
pub fn extract_deployed_url(output: &str) -> (r: Option<String>)
    ensures
        match deployed_url(output@) {
            Some(u) => r matches Some(s) && s@ == u,
            None => r is None,
        },
{
    let lines = lines_of(output);
    let ghost xs = text_lines(output@).map_values(|l: Seq<char>| url_in_line(l));
    let mut i: usize = 0;
    while i < lines.len()
        invariant
            i <= lines@.len(),
            string_views(lines@) == text_lines(output@),
            xs == text_lines(output@).map_values(|l: Seq<char>| url_in_line(l)),
            forall|j: int| 0 <= j < i ==> xs[j] is None,
        decreases lines@.len() - i,
    {
        assert(xs[i as int] == url_in_line(lines@[i as int]@));
        match url_from_line(lines[i].as_str()) {
            Some(u) => {
                proof {
                    lemma_first_present_skip(xs, i as int);
                }
                return Some(u);
            },
            None => {},
        }
        i = i + 1;
    }
    proof {
        lemma_first_present_skip(xs, i as int);
    }
    None
}

} // verus!
