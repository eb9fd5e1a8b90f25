//! Numeric literals in engineering notation.
//!
//! A literal is a floating-point number, optionally followed by a scaling
//! suffix and then by unit letters, which are ignored: `1.5megohm` is the
//! number `1.5` scaled by `meg`. Letter case does not matter.

use crate::text::{chars_of, lower, string_of, to_lower};
use vstd::prelude::*;

verus! {

/// A scaling suffix of a numeric literal.
#[derive(Debug, Clone, Copy, PartialEq, Eq, Structural)]
pub enum Suffix {
    /// `t`, 10^12
    Tera,
    /// `g`, 10^9
    Giga,
    /// `meg`, 10^6
    Mega,
    /// `k`, 10^3
    Kilo,
    /// `mil`, 25.4 * 10^-6
    Mil,
    /// `m`, 10^-3
    Milli,
    /// `u`, 10^-6
    Micro,
    /// `n`, 10^-9
    Nano,
    /// `p`, 10^-12
    Pico,
    /// `f`, 10^-15
    Femto,
    /// `a`, 10^-18
    Atto,
}

/// Whether `text` begins with `prefix`.
pub open spec fn starts_with(text: Seq<char>, prefix: Seq<char>) -> bool {
    prefix.len() <= text.len() && text.subrange(0, prefix.len() as int) == prefix
}

/// The suffix a text in lower case begins with. The suffixes are tried in
/// a fixed order, in which `meg` and `mil` stand before `m`.
pub open spec fn suffix_of(rest: Seq<char>) -> Option<Suffix> {
    if starts_with(rest, seq!['t']) {
        Some(Suffix::Tera)
    } else if starts_with(rest, seq!['g']) {
        Some(Suffix::Giga)
    } else if starts_with(rest, seq!['m', 'e', 'g']) {
        Some(Suffix::Mega)
    } else if starts_with(rest, seq!['k']) {
        Some(Suffix::Kilo)
    } else if starts_with(rest, seq!['m', 'i', 'l']) {
        Some(Suffix::Mil)
    } else if starts_with(rest, seq!['m']) {
        Some(Suffix::Milli)
    } else if starts_with(rest, seq!['u']) {
        Some(Suffix::Micro)
    } else if starts_with(rest, seq!['n']) {
        Some(Suffix::Nano)
    } else if starts_with(rest, seq!['p']) {
        Some(Suffix::Pico)
    } else if starts_with(rest, seq!['f']) {
        Some(Suffix::Femto)
    } else if starts_with(rest, seq!['a']) {
        Some(Suffix::Atto)
    } else {
        None
    }
}

/// What is left of a text after the floating-point number it begins with,
/// by the grammar of `nom`'s `double`; `None` where it begins with none.
pub uninterp spec fn float_rest(text: Seq<char>) -> Option<Seq<char>>;

/// Whether `rest` is the end of `text`.
pub open spec fn is_tail_of(rest: Seq<char>, text: Seq<char>) -> bool {
    rest.len() <= text.len() && rest == text.subrange(text.len() - rest.len(), text.len() as int)
}

/// `nom::number::complete::double` on `text`: the input that the parser
/// leaves, which is the end of `text` after the number; `None` where the
/// parser fails.
#[verifier::external_body]
fn after_float(text: &str) -> (r: Option<String>)
    ensures
        r is Some == float_rest(text@) is Some,
        r matches Some(rest) ==> float_rest(text@) == Some(rest@) && is_tail_of(rest@, text@),
{
    match nom::number::complete::double::<&str, nom::error::Error<&str>>(text) {
        Ok((rest, _)) => Some(rest.to_string()),
        Err(_) => None,
    }
}

/// A numeric literal taken apart: the text of the floating-point number,
/// in lower case, and the scaling suffix that follows it, if any.
pub open spec fn split_at_rest(low: Seq<char>, rest: Seq<char>) -> (Seq<char>, Option<Suffix>) {
    (low.subrange(0, low.len() - rest.len()), suffix_of(rest))
}

/// A literal as its number text and suffix; `None` where the text does not
/// begin with a number.
pub open spec fn split_number(text: Seq<char>) -> Option<(Seq<char>, Option<Suffix>)> {
    match float_rest(lower(text)) {
        Some(rest) => Some(split_at_rest(lower(text), rest)),
        None => None,
    }
}

fn begins(text: &Vec<char>, a: char) -> (r: bool)
    ensures
        r == starts_with(text@, seq![a]),
{
    let r = text.len() >= 1 && text[0] == a;
    proof {
        if text.len() >= 1 {
            assert(text@.subrange(0, 1)[0] == text@[0]);
            assert(seq![a][0] == a);
            assert(r == (text@.subrange(0, 1) =~= seq![a]));
        }
    }
    r
}

fn begins3(text: &Vec<char>, a: char, b: char, c: char) -> (r: bool)
    ensures
        r == starts_with(text@, seq![a, b, c]),
{
    let r = text.len() >= 3 && text[0] == a && text[1] == b && text[2] == c;
    assert(r == (text@.len() >= 3 && text@.subrange(0, 3) =~= seq![a, b, c]));
    r
}

/// The scaling suffix that a text in lower case begins with.
pub fn parse_suffix(rest: &str) -> (r: Option<Suffix>)
    ensures
        r == suffix_of(rest@),
{
    let text = chars_of(rest);
    if begins(&text, 't') {
        Some(Suffix::Tera)
    } else if begins(&text, 'g') {
        Some(Suffix::Giga)
    } else if begins3(&text, 'm', 'e', 'g') {
        Some(Suffix::Mega)
    } else if begins(&text, 'k') {
        Some(Suffix::Kilo)
    } else if begins3(&text, 'm', 'i', 'l') {
        Some(Suffix::Mil)
    } else if begins(&text, 'm') {
        Some(Suffix::Milli)
    } else if begins(&text, 'u') {
        Some(Suffix::Micro)
    } else if begins(&text, 'n') {
        Some(Suffix::Nano)
    } else if begins(&text, 'p') {
        Some(Suffix::Pico)
    } else if begins(&text, 'f') {
        Some(Suffix::Femto)
    } else if begins(&text, 'a') {
        Some(Suffix::Atto)
    } else {
        None
    }
}

/// Takes a literal in lower case apart, given what follows its number.
pub fn split_literal(low: &str, rest: &str) -> (r: (String, Option<Suffix>))
    requires
        is_tail_of(rest@, low@),
    ensures
        (r.0@, r.1) == split_at_rest(low@, rest@),
{
    let all = chars_of(low);
    let tail = chars_of(rest);
    let number = string_of(&all, 0, all.len() - tail.len());
    (number, parse_suffix(rest))
}

/// Parser of numbers with an optional scaling suffix.
pub struct SuffixNumberParser;

impl SuffixNumberParser {
    /// Takes a literal apart into the text of its number, in lower case,
    /// and its scaling suffix; `None` where the literal begins with no
    /// number.
    pub fn to_number(&self, n: &str) -> (r: Option<(String, Option<Suffix>)>)
        ensures
            r is Some == split_number(n@) is Some,
            r matches Some(parts) ==> split_number(n@) == Some((parts.0@, parts.1)),
    {
        let low = to_lower(n);
        match after_float(low.as_str()) {
            Some(rest) => Some(split_literal(low.as_str(), rest.as_str())),
            None => None,
        }
    }
}

} // verus!
