//! Progress extraction from one line of the download tool's output.
//!
//! A progress line carries the literal tag `[download]`, then at least one
//! whitespace character, then a run of digits and dots, then `%`. The parser
//! finds the leftmost such match and returns the numeric text; the numeric
//! text is reported only when it is a well-formed decimal (at most one dot
//! and at least one digit), since anything else would not read as a number.

use vstd::prelude::*;

use crate::strings::{is_space, matches_at, space_char, str_matches_at};

verus! {

/// The bracketed tag that marks a progress line.
pub open spec fn tag() -> Seq<char> {
    seq!['[', 'd', 'o', 'w', 'n', 'l', 'o', 'a', 'd', ']']
}

/// A digit or a dot: the characters allowed in the percentage text.
pub open spec fn is_num_char(c: char) -> bool {
    ('0' <= c && c <= '9') || c == '.'
}

pub open spec fn is_digit(c: char) -> bool {
    '0' <= c && c <= '9'
}

/// Index of the first character at or after `i` that is not a digit or dot.
pub open spec fn num_end(s: Seq<char>, i: int) -> int
    decreases s.len() - i when 0 <= i <= s.len()
{
    if i < s.len() && is_num_char(s[i]) {
        num_end(s, i + 1)
    } else {
        i
    }
}

/// The percentage text captured by a match of the progress pattern starting
/// at `i`, or `None` if the pattern does not match there. A match is the
/// tag, one or more whitespace characters, one or more digits or dots
/// (taken maximally), and a percent sign.
pub open spec fn capture_at(s: Seq<char>, i: int) -> Option<Seq<char>> {
    if matches_at(s, i, tag()) {
        let j = crate::strings::skip_spaces(s, i + tag().len() as int);
        let k = num_end(s, j);
        if j > i + tag().len() && k > j && k < s.len() && s[k] == '%' {
            Some(s.subrange(j, k))
        } else {
            None
        }
    } else {
        None
    }
}

/// The capture of the leftmost match at or after position `i`.
pub open spec fn capture_from(s: Seq<char>, i: int) -> Option<Seq<char>>
    decreases s.len() - i when 0 <= i <= s.len()
{
    if i >= s.len() {
        None
    } else if capture_at(s, i) is Some {
        capture_at(s, i)
    } else {
        capture_from(s, i + 1)
    }
}

/// The numeric text of the leftmost progress match in the line, if any.
pub open spec fn spec_progress_capture(s: Seq<char>) -> Option<Seq<char>> {
    capture_from(s, 0)
}

/// A captured text reads as a number exactly when it has at least one digit
/// and at most one dot.
pub open spec fn is_well_formed_number(t: Seq<char>) -> bool {
    (exists|j: int| 0 <= j < t.len() && is_digit(t[j])) && (forall|a: int, b: int|
        0 <= a < b < t.len() && t[a] == '.' ==> t[b] != '.')
}

/// What `parse_progress` returns: the leftmost captured percentage text,
/// provided it reads as a number; otherwise nothing.
pub open spec fn spec_parse_progress(s: Seq<char>) -> Option<Seq<char>> {
    match spec_progress_capture(s) {
        Some(t) => if is_well_formed_number(t) {
            Some(t)
        } else {
            None
        },
        None => None,
    }
}

/// Exec test for a digit or dot.
fn num_char(c: char) -> (r: bool)
    ensures
        r == is_num_char(c),
{
    ('0' <= c && c <= '9') || c == '.'
}

/// Checks whether the progress pattern matches at position `i`, returning
/// the capture bounds `(j, k)` on success.
fn try_capture_at(s: &str, i: usize) -> (r: Option<(usize, usize)>)
    requires
        i <= s@.len(),
    ensures
        match r {
            Some(bounds) => {
                &&& capture_at(s@, i as int) == Some(
                    s@.subrange(bounds.0 as int, bounds.1 as int),
                )
                &&& i <= bounds.0 < bounds.1 <= s@.len()
            },
            None => capture_at(s@, i as int) is None,
        },
{
    let t = "[download]";
    proof {
        reveal_strlit("[download]");
        assert(t@ =~= tag());
    }
    if !str_matches_at(s, i, t) {
        return None;
    }
    let len = s.unicode_len();
    let mut j: usize = i + 10;
    while j < len && space_char(s.get_char(j))
        invariant
            i + 10 <= j <= len,
            len == s@.len(),
            crate::strings::skip_spaces(s@, i + 10) == crate::strings::skip_spaces(s@, j as int),
        decreases len - j,
    {
        j = j + 1;
    }
    proof {
        assert(crate::strings::skip_spaces(s@, j as int) == j);
    }
    if j == i + 10 {
        return None;
    }
    let mut k: usize = j;
    while k < len && num_char(s.get_char(k))
        invariant
            j <= k <= len,
            len == s@.len(),
            num_end(s@, j as int) == num_end(s@, k as int),
        decreases len - k,
    {
        k = k + 1;
    }
    proof {
        assert(num_end(s@, k as int) == k);
    }
    if k == j {
        return None;
    }
    if k < len && s.get_char(k) == '%' {
        Some((j, k))
    } else {
        None
    }
}

/// Checks that the capture `s[j..k)` reads as a number: at least one digit,
/// at most one dot.
fn capture_is_number(s: &str, j: usize, k: usize) -> (r: bool)
    requires
        j <= k <= s@.len(),
    ensures
        r == is_well_formed_number(s@.subrange(j as int, k as int)),
{
    let ghost t = s@.subrange(j as int, k as int);
    let mut saw_digit = false;
    let mut saw_dot = false;
    let mut two_dots = false;
    let mut m: usize = j;
    while m < k
        invariant
            j <= m <= k <= s@.len(),
            t == s@.subrange(j as int, k as int),
            saw_digit == exists|a: int| 0 <= a < m - j && is_digit(t[a]),
            saw_dot == exists|a: int| 0 <= a < m - j && t[a] == '.',
            two_dots == exists|a: int, b: int| 0 <= a < b < m - j && t[a] == '.' && t[b] == '.',
        decreases k - m,
    {
        let c = s.get_char(m);
        proof {
            assert(t[m - j] == s@[m as int]);
        }
        if c == '.' {
            if saw_dot {
                two_dots = true;
            }
            saw_dot = true;
        } else if '0' <= c && c <= '9' {
            saw_digit = true;
        }
        m = m + 1;
    }
    let r = saw_digit && !two_dots;
    proof {
        assert(r == is_well_formed_number(t)) by {
            if saw_digit && !two_dots {
                assert(forall|a: int, b: int| 0 <= a < b < t.len() && t[a] == '.' ==> t[b] != '.');
            }
            if saw_digit && two_dots {
                let (a, b) = choose|a: int, b: int|
                    0 <= a < b < t.len() && t[a] == '.' && t[b] == '.';
                assert(!is_well_formed_number(t));
            }
        }
    }
    r
}

/// Extracts the percentage text from a progress line, scanning for the
/// leftmost match of the pattern; returns `None` for lines that carry no
/// progress or whose percentage does not read as a number. Total: never
/// panics, for arbitrary input.
pub fn parse_progress(line: &str) -> (r: Option<String>)
    ensures
        match r {
            Some(p) => spec_parse_progress(line@) == Some(p@),
            None => spec_parse_progress(line@) is None,
        },
{
    let len = line.unicode_len();
    let mut i: usize = 0;
    while i < len
        invariant
            i <= len,
            len == line@.len(),
            capture_from(line@, 0) == capture_from(line@, i as int),
        decreases len - i,
    {
        match try_capture_at(line, i) {
            Some((j, k)) => {
                proof {
                    assert(capture_from(line@, i as int) == capture_at(line@, i as int));
                }
                if capture_is_number(line, j, k) {
                    let sub = line.substring_char(j, k);
                    return Some(String::from_str(sub));
                } else {
                    return None;
                }
            },
            None => {
                i = i + 1;
            },
        }
    }
    None
}

} // verus!
