//! Character-level helpers shared by the lexer and the grammar rules.

use vstd::prelude::*;
use vstd::std_specs::iter::IteratorSpec;

verus! {

/// ASCII upper-case form of a character; other characters are unchanged.
pub open spec fn ascii_upper(c: char) -> char {
    if 'a' <= c <= 'z' {
        ((c as u32) - 32) as char
    } else {
        c
    }
}

/// ASCII lower-case form of a character; other characters are unchanged.
pub open spec fn ascii_lower(c: char) -> char {
    if 'A' <= c <= 'Z' {
        ((c as u32) + 32) as char
    } else {
        c
    }
}

/// A text with every ASCII letter in upper case.
pub open spec fn upper(s: Seq<char>) -> Seq<char> {
    s.map_values(|c: char| ascii_upper(c))
}

/// A text with every ASCII letter in lower case.
pub open spec fn lower(s: Seq<char>) -> Seq<char> {
    s.map_values(|c: char| ascii_lower(c))
}

/// Two texts are the same word when they agree up to ASCII letter case.
#[verifier::opaque]
pub open spec fn same_word(a: Seq<char>, b: Seq<char>) -> bool {
    upper(a) == upper(b)
}

pub open spec fn is_digit(c: char) -> bool {
    '0' <= c <= '9'
}

pub open spec fn is_alpha(c: char) -> bool {
    ('a' <= c <= 'z') || ('A' <= c <= 'Z')
}

pub open spec fn is_alnum(c: char) -> bool {
    is_digit(c) || is_alpha(c)
}

/// Whether a character is a decimal digit.
pub fn digit(c: char) -> (r: bool)
    ensures
        r == is_digit(c),
{
    '0' <= c && c <= '9'
}

/// Whether a character is an ASCII letter.
pub fn alpha(c: char) -> (r: bool)
    ensures
        r == is_alpha(c),
{
    ('a' <= c && c <= 'z') || ('A' <= c && c <= 'Z')
}

/// A character with the Unicode property `White_Space`.
pub open spec fn is_white_space(c: char) -> bool {
    let u = c as u32;
    (0x09 <= u <= 0x0D) || u == 0x20 || u == 0x85 || u == 0xA0 || u == 0x1680 || (0x2000 <= u
        <= 0x200A) || u == 0x2028 || u == 0x2029 || u == 0x202F || u == 0x205F || u == 0x3000
}

/// Whether a character is white space.
pub(crate) fn is_space(c: char) -> (r: bool)
    ensures
        r == is_white_space(c),
{
    let u = c as u32;
    (0x09 <= u && u <= 0x0D) || u == 0x20 || u == 0x85 || u == 0xA0 || u == 0x1680 || (0x2000 <= u
        && u <= 0x200A) || u == 0x2028 || u == 0x2029 || u == 0x202F || u == 0x205F || u == 0x3000
}

/// Number of bytes a character takes in UTF-8.
pub open spec fn utf8_width(c: char) -> nat {
    let u = c as u32;
    if u < 0x80 {
        1
    } else if u < 0x800 {
        2
    } else if u < 0x10000 {
        3
    } else {
        4
    }
}

/// Number of bytes a character takes in UTF-8.
pub fn width_of(c: char) -> (w: usize)
    ensures
        w == utf8_width(c),
{
    let u = c as u32;
    if u < 0x80 {
        1
    } else if u < 0x800 {
        2
    } else if u < 0x10000 {
        3
    } else {
        4
    }
}

/// The characters of a string, in order.
pub fn chars_of(s: &str) -> (v: Vec<char>)
    ensures
        v@ == s@,
{
    let mut v: Vec<char> = Vec::new();
    let mut it = s.chars();
    loop
        invariant
            it.obeys_prophetic_iter_laws(),
            v@ + it.remaining() == s@,
            it.decrease() is Some,
        decreases it.decrease()->0,
    {
        broadcast use vstd::string::group_string_axioms;
        let ghost before = it;
        match it.next() {
            Some(c) => {
                assert(v@.push(c) + before.remaining().drop_first() =~= v@ + before.remaining());
                v.push(c);
            },
            None => {
                assert(v@ + before.remaining() =~= v@);
                return v;
            },
        }
    }
}

/// `String::push`: the string gains `c` at its end.
#[verifier::external_body]
fn push_char(s: &mut String, c: char)
    ensures
        final(s)@ == old(s)@.push(c),
{
    s.push(c)
}

/// The text made of `chars[from..to]`.
pub fn string_of(chars: &Vec<char>, from: usize, to: usize) -> (s: String)
    requires
        from <= to <= chars.len(),
    ensures
        s@ == chars@.subrange(from as int, to as int),
{
    let mut s = String::new();
    let mut i: usize = from;
    while i < to
        invariant
            from <= i <= to <= chars.len(),
            s@ == chars@.subrange(from as int, i as int),
        decreases to - i,
    {
        push_char(&mut s, chars[i]);
        i += 1;
        assert(s@ =~= chars@.subrange(from as int, i as int));
    }
    s
}

/// The ASCII upper-case form of a character.
fn upper_char(c: char) -> (r: char)
    ensures
        r == ascii_upper(c),
{
    if 'a' <= c && c <= 'z' {
        ((c as u8) - 32) as char
    } else {
        c
    }
}

/// The ASCII lower-case form of a character.
fn lower_char(c: char) -> (r: char)
    ensures
        r == ascii_lower(c),
{
    if 'A' <= c && c <= 'Z' {
        ((c as u8) + 32) as char
    } else {
        c
    }
}

/// The upper-case form of a text.
pub fn to_upper(s: &str) -> (r: String)
    ensures
        r@ == upper(s@),
{
    let chars = chars_of(s);
    let mut r = String::new();
    let mut i: usize = 0;
    while i < chars.len()
        invariant
            i <= chars.len(),
            chars@ == s@,
            r@ == upper(s@.subrange(0, i as int)),
        decreases chars.len() - i,
    {
        push_char(&mut r, upper_char(chars[i]));
        i += 1;
        assert(r@ =~= upper(s@.subrange(0, i as int)));
    }
    assert(s@.subrange(0, i as int) =~= s@);
    r
}

/// The lower-case form of a text.
pub fn to_lower(s: &str) -> (r: String)
    ensures
        r@ == lower(s@),
{
    let chars = chars_of(s);
    let mut r = String::new();
    let mut i: usize = 0;
    while i < chars.len()
        invariant
            i <= chars.len(),
            chars@ == s@,
            r@ == lower(s@.subrange(0, i as int)),
        decreases chars.len() - i,
    {
        push_char(&mut r, lower_char(chars[i]));
        i += 1;
        assert(r@ =~= lower(s@.subrange(0, i as int)));
    }
    assert(s@.subrange(0, i as int) =~= s@);
    r
}

/// Whether `a` and `b` are the same word up to ASCII letter case.
pub fn is_same_word(a: &str, b: &str) -> (r: bool)
    ensures
        r == same_word(a@, b@),
{
    reveal(same_word);
    to_upper(a) == to_upper(b)
}

/// Whether two texts are the same, letter case included.
pub fn same_text(a: &str, b: &str) -> (r: bool)
    ensures
        r == (a@ == b@),
{
    a.to_owned() == b.to_owned()
}

} // verus!
