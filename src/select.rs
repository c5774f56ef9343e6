use vstd::prelude::*;

use crate::text::{chars_of, str_has_char};
use crate::window::{lower_of, lowercase};

verus! {

/// How a window query turned out before any prompt.
#[derive(Clone, Copy, Debug, PartialEq, Eq, Structural)]
pub enum WindowLookup {
    /// No window matched.
    NoMatch,
    /// Exactly one window matched: it is taken.
    Single,
    /// Several windows matched: the user picks one.
    Ambiguous,
}

/// The outcome of a window query that matched `match_count` windows.
pub fn lookup_outcome(match_count: usize) -> (r: WindowLookup)
    ensures
        match_count == 0 ==> r == WindowLookup::NoMatch,
        match_count == 1 ==> r == WindowLookup::Single,
        match_count > 1 ==> r == WindowLookup::Ambiguous,
{
    if match_count == 0 {
        WindowLookup::NoMatch
    } else if match_count == 1 {
        WindowLookup::Single
    } else {
        WindowLookup::Ambiguous
    }
}

/// What a line typed at the window prompt asks for.
#[derive(Clone, Copy, Debug, PartialEq, Eq, Structural)]
pub enum Selection {
    /// Leave without capturing.
    Quit,
    /// Capture the window at this position of the listed matches.
    Pick(usize),
    /// Nothing usable: ask again.
    Invalid,
}

pub open spec fn is_digit(c: char) -> bool {
    '0' <= c <= '9'
}

pub open spec fn all_digits(d: Seq<char>) -> bool {
    forall|i: int| 0 <= i < d.len() ==> is_digit(#[trigger] d[i])
}

/// The number that a run of decimal digits writes.
pub open spec fn digits_value(d: Seq<char>) -> nat
    decreases d.len(),
{
    if d.len() == 0 {
        0
    } else {
        digits_value(d.drop_last()) * 10 + (d.last() as u32 - '0' as u32) as nat
    }
}

/// What `usize::from_str` accepts: an optional `+` and then one or more
/// decimal digits whose value fits.
pub open spec fn parsed_usize(s: Seq<char>) -> Option<usize> {
    let d = if s.len() > 0 && s[0] == '+' {
        s.skip(1)
    } else {
        s
    };
    if d.len() > 0 && all_digits(d) && digits_value(d) <= usize::MAX {
        Some(digits_value(d) as usize)
    } else {
        None
    }
}

/// Reads an unsigned decimal number, as `usize::from_str` does.
pub fn parse_usize(s: &str) -> (r: Option<usize>)
    ensures
        r == parsed_usize(s@),
{
    let chars = chars_of(s);
    let n = chars.len();
    let start: usize = if n > 0 && chars[0] == '+' {
        1
    } else {
        0
    };
    let ghost d = if s@.len() > 0 && s@[0] == '+' {
        s@.skip(1)
    } else {
        s@
    };
    assert(d =~= s@.subrange(start as int, n as int));
    if start == n {
        return None;
    }
    let mut value: usize = 0;
    let mut overflow = false;
    let mut i: usize = start;
    while i < n
        invariant
            chars@ == s@,
            n == s@.len(),
            start <= i <= n,
            d == s@.subrange(start as int, n as int),
            d == (if s@.len() > 0 && s@[0] == '+' {
                s@.skip(1)
            } else {
                s@
            }),
            forall|k: int| 0 <= k < i - start ==> is_digit(#[trigger] d[k]),
            !overflow ==> value == digits_value(d.take(i - start)),
            overflow ==> digits_value(d.take(i - start)) > usize::MAX,
        decreases n - i,
    {
        let c = chars[i];
        if !('0' <= c && c <= '9') {
            assert(!is_digit(d[i - start]));
            assert(!all_digits(d));
            return None;
        }
        let digit = c as u32 - '0' as u32;
        let ghost prev = d.take(i - start);
        assert(d.take(i + 1 - start).drop_last() =~= prev);
        assert(d.take(i + 1 - start).last() == c);
        if !overflow {
            let next: u128 = value as u128 * 10 + digit as u128;
            if next > usize::MAX as u128 {
                overflow = true;
            } else {
                value = next as usize;
            }
        }
        i = i + 1;
    }
    assert(d.take(n - start) =~= d);
    if overflow {
        None
    } else {
        Some(value)
    }
}

/// What a prompt line asks for, from the line in lowercase and the line
/// without surrounding whitespace: a `q` anywhere quits, otherwise the line
/// must be the position of one of `count` listed windows.
pub open spec fn spec_selection(lowered: Seq<char>, trimmed: Seq<char>, count: nat) -> Selection {
    if lowered.contains('q') {
        Selection::Quit
    } else {
        match parsed_usize(trimmed) {
            Some(n) => if n < count {
                Selection::Pick(n)
            } else {
                Selection::Invalid
            },
            None => Selection::Invalid,
        }
    }
}

/// The selection that a prompt line makes, given the line in lowercase and
/// the line with surrounding whitespace removed.
pub fn selection_from(lowered: &str, trimmed: &str, count: usize) -> (r: Selection)
    ensures
        r == spec_selection(lowered@, trimmed@, count as nat),
{
    if str_has_char(lowered, 'q') {
        return Selection::Quit;
    }
    match parse_usize(trimmed) {
        Some(n) => if n < count {
            Selection::Pick(n)
        } else {
            Selection::Invalid
        },
        None => Selection::Invalid,
    }
}

/// What `str::trim` returns for a string.
pub uninterp spec fn trimmed_of(s: Seq<char>) -> Seq<char>;

/// Relies on `str::trim`: the string without leading and trailing white
/// space.
#[verifier::external_body]
fn trim(s: &str) -> (r: &str)
    ensures
        r@ == trimmed_of(s@),
{
    s.trim()
}

/// The selection that a line typed at the window prompt makes among `count`
/// listed windows.
pub fn parse_selection(input: &str, count: usize) -> (r: Selection)
    ensures
        r == spec_selection(lower_of(input@), trimmed_of(input@), count as nat),
{
    let lowered = lowercase(input);
    selection_from(lowered.as_str(), trim(input), count)
}

} // verus!
