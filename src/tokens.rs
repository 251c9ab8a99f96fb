//! The token extractor and the record builder: attribute names and values
//! taken out of normalised requirements text, then paired by position.

use vstd::prelude::*;
use crate::text::{is_digit, parse_u8, u8_text};

verus! {

/// Whether `c` belongs to the characters of a run: ASCII digits when
/// `digits` holds, ASCII lowercase letters otherwise.
pub open spec fn in_class(c: char, digits: bool) -> bool {
    if digits {
        is_digit(c)
    } else {
        'a' <= c && c <= 'z'
    }
}

/// The maximal runs of class characters of `s`, left to right, where `cur`
/// is the run already begun before `s`.
pub open spec fn runs_from(s: Seq<char>, digits: bool, cur: Seq<char>) -> Seq<Seq<char>>
    decreases s.len(),
{
    if s.len() == 0 {
        if cur.len() == 0 {
            Seq::empty()
        } else {
            seq![cur]
        }
    } else if in_class(s[0], digits) {
        runs_from(s.drop_first(), digits, cur.push(s[0]))
    } else if cur.len() == 0 {
        runs_from(s.drop_first(), digits, Seq::empty())
    } else {
        seq![cur] + runs_from(s.drop_first(), digits, Seq::empty())
    }
}

/// The maximal runs of digits (or of lowercase letters) of `s`, in order.
pub open spec fn runs(s: Seq<char>, digits: bool) -> Seq<Seq<char>> {
    runs_from(s, digits, Seq::empty())
}

/// The pattern that matches runs of lowercase letters.
pub open spec fn letters_pattern() -> Seq<char> {
    "[a-z]+"@
}

/// The pattern that matches runs of digits.
pub open spec fn digits_pattern() -> Seq<char> {
    "[0-9]+"@
}

/// Relies on `regex::Regex::new` and `regex::Regex::find_iter`: both
/// patterns compile, and `find_iter` yields the successive non-overlapping
/// leftmost greedy matches, which for a one-class `+` pattern are exactly
/// the maximal runs of that class.
#[verifier::external_body]
fn find_runs(pattern: &str, text: &str) -> (r: Vec<String>)
    requires
        pattern@ == letters_pattern() || pattern@ == digits_pattern(),
    ensures
        pattern@ == letters_pattern() ==> r.deep_view() == runs(text@, false),
        pattern@ == digits_pattern() ==> r.deep_view() == runs(text@, true),
{
    regex::Regex::new(pattern).unwrap().find_iter(text).map(|m| m.as_str().to_string()).collect()
}

/// The runs of exactly three characters, in order.
pub open spec fn three_long(ts: Seq<Seq<char>>) -> Seq<Seq<char>>
    decreases ts.len(),
{
    if ts.len() == 0 {
        Seq::empty()
    } else if ts.last().len() == 3 {
        three_long(ts.drop_last()).push(ts.last())
    } else {
        three_long(ts.drop_last())
    }
}

/// The runs that read as a byte, read, in order.
pub open spec fn byte_values(ts: Seq<Seq<char>>) -> Seq<u8>
    decreases ts.len(),
{
    if ts.len() == 0 {
        Seq::empty()
    } else {
        match u8_text(ts.last()) {
            Some(v) => byte_values(ts.drop_last()).push(v),
            None => byte_values(ts.drop_last()),
        }
    }
}

/// The attribute-name tokens of normalised text: its maximal runs of
/// exactly three lowercase letters.
pub open spec fn name_tokens_of(text: Seq<char>) -> Seq<Seq<char>> {
    three_long(runs(text, false))
}

/// The value tokens of normalised text: its maximal runs of digits that
/// read as a byte.
pub open spec fn value_tokens_of(text: Seq<char>) -> Seq<u8> {
    byte_values(runs(text, true))
}

/// The attribute-name tokens of normalised text, in order.
pub fn name_tokens(text: &str) -> (r: Vec<String>)
    ensures
        r.deep_view() == name_tokens_of(text@),
{
    let all = find_runs("[a-z]+", text);
    let mut r: Vec<String> = Vec::new();
    let mut i: usize = 0;
    while i < all.len()
        invariant
            i <= all.len(),
            all.deep_view() == runs(text@, false),
            r.deep_view() == three_long(all.deep_view().subrange(0, i as int)),
        decreases all.len() - i,
    {
        proof {
            assert(all.deep_view().subrange(0, i + 1).drop_last()
                =~= all.deep_view().subrange(0, i as int));
        }
        if all[i].unicode_len() == 3 {
            r.push(all[i].clone());
            assert(r.deep_view() =~= three_long(all.deep_view().subrange(0, i + 1)));
        }
        i = i + 1;
    }
    assert(all.deep_view().subrange(0, i as int) =~= all.deep_view());
    r
}

/// The value tokens of normalised text, in order.
pub fn value_tokens(text: &str) -> (r: Vec<u8>)
    ensures
        r@ == value_tokens_of(text@),
{
    let all = find_runs("[0-9]+", text);
    let mut r: Vec<u8> = Vec::new();
    let mut i: usize = 0;
    while i < all.len()
        invariant
            i <= all.len(),
            all.deep_view() == runs(text@, true),
            r@ == byte_values(all.deep_view().subrange(0, i as int)),
        decreases all.len() - i,
    {
        proof {
            assert(all.deep_view().subrange(0, i + 1).drop_last()
                =~= all.deep_view().subrange(0, i as int));
        }
        match parse_u8(all[i].as_str()) {
            Some(v) => r.push(v),
            None => {},
        }
        i = i + 1;
    }
    assert(all.deep_view().subrange(0, i as int) =~= all.deep_view());
    r
}

} // verus!
