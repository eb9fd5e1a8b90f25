//! Token cursor and the building blocks of every grammar rule.
//!
//! A grammar rule is described twice: as a spec function from a token
//! sequence and a cursor position to an [`Outcome`], and as an executable
//! method of [`SpiceLineParser`] that is proved to compute that outcome.

use crate::ast::{Atom, AtomView, Node};
use crate::text::{is_same_word, same_word};
use vstd::prelude::*;

verus! {

/// Why a parse was rejected, and where: the line of the offending atom and
/// the column at which it begins, both from 0. The end of input has no
/// place.
#[derive(Debug, PartialEq)]
pub struct ParseError {
    pub reason: String,
    pub position: Option<(usize, usize)>,
}

/// Mathematical content of a [`ParseError`].
pub struct ParseErrorView {
    pub reason: Seq<char>,
    pub position: Option<(usize, usize)>,
}

impl View for ParseError {
    type V = ParseErrorView;

    open spec fn view(&self) -> ParseErrorView {
        ParseErrorView { reason: self.reason@, position: self.position }
    }
}

pub type ParseResult<T> = Result<T, ParseError>;

pub type Token = Atom;

/// Outcome of a grammar rule at a cursor position: the value or the
/// rejection, and the position the cursor is left at.
pub type Outcome<V> = (Result<V, ParseErrorView>, nat);

/// The mathematical content of an executable parse result.
pub open spec fn outcome_of<T: DeepView>(r: ParseResult<T>) -> Result<T::V, ParseErrorView> {
    match r {
        Ok(v) => Ok(v.deep_view()),
        Err(e) => Err(e@),
    }
}

/// The rejection raised when the input ends where a token is needed.
pub open spec fn eof_error() -> ParseErrorView {
    ParseErrorView { reason: "Unexpected EOF"@, position: None }
}

/// The rejection raised when `actual` stands where `expect` is needed.
#[verifier::opaque]
pub open spec fn unexpected_error(
    expect: Seq<char>,
    actual: Seq<char>,
    position: Option<(usize, usize)>,
) -> ParseErrorView {
    ParseErrorView {
        reason: "Expect `"@ + expect + "', found `"@ + actual + "'"@,
        position,
    }
}

/// The rejection raised for an output-variable suffix outside `accepts`.
#[verifier::opaque]
pub open spec fn unknown_suffix_error(
    found: Seq<char>,
    accepts: Seq<char>,
    position: Option<(usize, usize)>,
) -> ParseErrorView {
    ParseErrorView {
        reason: "Unknown suffix: `"@ + found + "', only accepts "@ + accepts,
        position,
    }
}

/// A rejection whose message is `before`, the offending text, then `after`.
#[verifier::opaque]
pub open spec fn quoting_error(
    before: Seq<char>,
    text: Seq<char>,
    after: Seq<char>,
    position: Option<(usize, usize)>,
) -> ParseErrorView {
    ParseErrorView { reason: before + text + after, position }
}

/// A rejection with a position of its own keeps it; one without takes
/// `position`.
pub open spec fn with_fallback(e: ParseErrorView, position: (usize, usize)) -> ParseErrorView {
    ParseErrorView {
        reason: e.reason,
        position: if e.position is None {
            Some(position)
        } else {
            e.position
        },
    }
}

/// The token under the cursor, or the end-of-input rejection.
pub open spec fn token_at(ts: Seq<AtomView>, pos: nat) -> Result<AtomView, ParseErrorView> {
    if pos < ts.len() {
        Ok(ts[pos as int])
    } else {
        Err(eof_error())
    }
}

/// Whether the token under the cursor is `word`, up to letter case.
pub open spec fn matches_at(ts: Seq<AtomView>, pos: nat, word: Seq<char>) -> bool {
    pos < ts.len() && same_word(ts[pos as int].raw, word)
}

/// Consume the token under the cursor if it is `word`; reject otherwise,
/// leaving the cursor where it is.
pub open spec fn expect_at(ts: Seq<AtomView>, pos: nat, word: Seq<char>) -> Outcome<AtomView> {
    if pos >= ts.len() {
        (Err(eof_error()), pos)
    } else if same_word(ts[pos as int].raw, word) {
        (Ok(ts[pos as int]), pos + 1)
    } else {
        (Err(unexpected_error(word, ts[pos as int].raw, Some(ts[pos as int].place()))), pos)
    }
}

/// Accept only the end of the input.
pub open spec fn expect_eof_at(ts: Seq<AtomView>, pos: nat) -> Result<(), ParseErrorView> {
    if pos >= ts.len() {
        Ok(())
    } else {
        Err(unexpected_error("<EOF>"@, ts[pos as int].raw, Some(ts[pos as int].place())))
    }
}

/// How many tokens lie at or after `pos`.
pub open spec fn tokens_left(ts: Seq<AtomView>, pos: nat) -> nat {
    if pos < ts.len() {
        (ts.len() - pos) as nat
    } else {
        0
    }
}

/// An outcome whose position is not before `pos`. No rule moves the cursor
/// backwards, so this changes none of their outcomes; it shows that a rule
/// defined by recursion is well founded.
pub open spec fn forward<V>(pos: nat, o: Outcome<V>) -> Outcome<V> {
    (
        o.0,
        if o.1 >= pos {
            o.1
        } else {
            pos
        },
    )
}

/// Whether a position before the end has no token left, which never holds.
/// The rules of a recursive family that do not otherwise refer to
/// themselves are defined by recursion on the tokens left through this
/// case; that bounds how far a proof unfolds the family.
pub open spec fn exhausted(ts: Seq<AtomView>, pos: nat) -> bool {
    pos < ts.len() && tokens_left(ts, pos) == 0
}

/// Never holds. The views of a recursive family that do not otherwise refer
/// to themselves are defined by recursion through this case, as the rest of
/// the family is; that bounds how far a proof unfolds them.
pub open spec fn unreal<T>(x: T) -> bool {
    x != x
}

/// The first character of a text in upper case, if it has one.
pub open spec fn initial_of(text: Seq<char>) -> Option<char> {
    if text.len() > 0 {
        Some(crate::text::ascii_upper(text[0]))
    } else {
        None
    }
}

/// The first character of an atom's text in upper case, if it has one.
pub fn initial(atom: &Atom) -> (r: Option<char>)
    ensures
        r == initial_of(atom.raw@),
{
    let up = crate::text::chars_of(atom.to_uppercase().as_str());
    if up.len() > 0 {
        Some(up[0])
    } else {
        None
    }
}

/// Whether a rejection is that of the end of input: a rule asked for a
/// token where none was left. A rejection of a token that is there is none,
/// whatever the token holds.
pub open spec fn is_end_of_input(e: ParseErrorView) -> bool {
    e == eof_error()
}

/// One field of a record that the end of the line may cut short. Once the
/// end was met (`eof`), a field is absent and nothing is tried. Otherwise
/// the field counts as tried; it is there if its rule accepts, absent if
/// its rule met the end of input, which is then met, and any other
/// rejection is the record's. Yields the field, whether the end
/// is met, the count of fields tried and the position.
pub open spec fn partial_field<V>(eof: bool, count: u32, pos: nat, rule: Outcome<V>) -> Result<
    (Option<V>, bool, u32, nat),
    (ParseErrorView, nat),
> {
    if eof {
        Ok((None, true, count, pos))
    } else {
        match rule {
            (Ok(v), p) => Ok((Some(v), false, (count + 1) as u32, p)),
            (Err(e), p) => if is_end_of_input(e) {
                Ok((None, true, (count + 1) as u32, p))
            } else {
                Err((e, p))
            },
        }
    }
}

/// The field of a partial record that the result of its rule stands for,
/// the end of the line not being met before: the value where the rule
/// accepted; nothing where it met the end of input, and the end is met
/// then; and any other rejection as it is.
pub fn partial_of<T>(r: ParseResult<T>, is_eof: &mut bool) -> (out: ParseResult<Option<T>>)
    requires
        !*old(is_eof),
    ensures
        r matches Ok(v) ==> out == Ok::<Option<T>, ParseError>(Some(v)) && !*final(is_eof),
        r matches Err(e) ==> (if is_end_of_input(e@) {
            out == Ok::<Option<T>, ParseError>(None) && *final(is_eof)
        } else {
            out == Err::<Option<T>, ParseError>(e) && !*final(is_eof)
        }),
{
    match r {
        Ok(v) => Ok(Some(v)),
        Err(e) => {
            if e.is_end_of_input() {
                *is_eof = true;
                Ok(None)
            } else {
                Err(e)
            }
        },
    }
}

/// The number that decimal digits stand for.
pub open spec fn decimal_value(digits: Seq<char>) -> nat
    decreases digits.len(),
{
    if digits.len() == 0 {
        0
    } else {
        decimal_value(digits.drop_last()) * 10 + ((digits.last() as u32) - ('0' as u32)) as nat
    }
}

/// The `usize` a text stands for: an optional `+`, then one or more decimal
/// digits whose number fits; `None` for any other text.
pub open spec fn usize_of(text: Seq<char>) -> Option<usize> {
    let digits = if text.len() > 0 && text[0] == '+' {
        text.drop_first()
    } else {
        text
    };
    if digits.len() > 0 && (forall|i: int| 0 <= i < digits.len() ==> crate::text::is_digit(
        #[trigger] digits[i],
    )) && decimal_value(digits) <= usize::MAX {
        Some(decimal_value(digits) as usize)
    } else {
        None
    }
}

/// `str::parse::<usize>`: the number that the text stands for in decimal,
/// where it is an optional `+` and digits that fit a `usize`; an error for
/// any other text.
#[verifier::external_body]
fn parse_usize(text: &str) -> (r: Option<usize>)
    ensures
        r == usize_of(text@),
{
    text.parse::<usize>().ok()
}

/// A count: a token that is a `usize` in decimal.
pub open spec fn count_at(ts: Seq<AtomView>, pos: nat) -> Outcome<usize> {
    if pos >= ts.len() {
        (Err(eof_error()), pos)
    } else {
        match usize_of(ts[pos as int].raw) {
            Some(n) => (Ok(n), pos + 1),
            None => (
                Err(unexpected_error("<usize>"@, ts[pos as int].raw, Some(ts[pos as int].place()))),
                pos,
            ),
        }
    }
}

/// Joins three pieces of text.
pub fn concat3(a: &str, b: &str, c: &str) -> (r: String)
    ensures
        r@ == a@ + b@ + c@,
{
    let mut r = a.to_owned();
    r.append(b);
    r.append(c);
    r
}

impl ParseError {
    /// Whether the rejection is that of the end of input.
    pub fn is_end_of_input(&self) -> (r: bool)
        ensures
            r == is_end_of_input(self@),
    {
        self.position.is_none() && crate::text::same_text(self.reason.as_str(), "Unexpected EOF")
    }

    pub fn unexpected_eof(position: Option<(usize, usize)>) -> (r: Self)
        ensures
            r@ == (ParseErrorView { reason: "Unexpected EOF"@, position }),
    {
        Self { reason: "Unexpected EOF".to_owned(), position }
    }

    pub fn unexpected(expect: &str, actual: &str, position: Option<(usize, usize)>) -> (r: Self)
        ensures
            r@ == unexpected_error(expect@, actual@, position),
    {
        reveal(unexpected_error);
        let mut reason = concat3("Expect `", expect, "', found `");
        reason.append(actual);
        reason.append("'");
        Self { reason, position }
    }

    pub fn unknown_suffix(found: &str, accepts: &str, position: Option<(usize, usize)>) -> (r:
        Self)
        ensures
            r@ == unknown_suffix_error(found@, accepts@, position),
    {
        reveal(unknown_suffix_error);
        let mut reason = concat3("Unknown suffix: `", found, "', only accepts ");
        reason.append(accepts);
        Self { reason, position }
    }

    /// A rejection whose message quotes `text` between `before` and `after`.
    pub fn quoting(before: &str, text: &str, after: &str, position: Option<(usize, usize)>) -> (r:
        Self)
        ensures
            r@ == quoting_error(before@, text@, after@, position),
    {
        reveal(quoting_error);
        Self { reason: concat3(before, text, after), position }
    }

    pub fn fallback_position(self, position: (usize, usize)) -> (r: Self)
        ensures
            r@ == with_fallback(self@, position),
    {
        let mut e = self;
        if e.position.is_none() {
            e.position = Some(position);
        }
        e
    }

    /// The message shown to a user: the position, when there is one, then
    /// the reason.
    pub fn to_string(&self) -> (r: String)
        ensures
            r@ == display_text(self@),
    {
        match self.position {
            Some((line, col)) => {
                let mut r = concat3("Parse error at line ", decimal(line).as_str(), ", column ");
                r.append(decimal(col).as_str());
                r.append(": ");
                r.append(self.reason.as_str());
                r
            },
            None => {
                let mut r = "Parse error: ".to_owned();
                r.append(self.reason.as_str());
                r
            },
        }
    }
}

/// The decimal digits of `n`, most significant first.
pub open spec fn decimal_digits(n: nat) -> Seq<char>
    decreases n,
{
    if n < 10 {
        seq![digit_char(n)]
    } else {
        decimal_digits(n / 10).push(digit_char(n % 10))
    }
}

/// The character of a single decimal digit.
pub open spec fn digit_char(d: nat) -> char {
    if d == 0 {
        '0'
    } else if d == 1 {
        '1'
    } else if d == 2 {
        '2'
    } else if d == 3 {
        '3'
    } else if d == 4 {
        '4'
    } else if d == 5 {
        '5'
    } else if d == 6 {
        '6'
    } else if d == 7 {
        '7'
    } else if d == 8 {
        '8'
    } else {
        '9'
    }
}

/// What [`ParseError::to_string`] shows.
pub open spec fn display_text(e: ParseErrorView) -> Seq<char> {
    match e.position {
        Some((line, col)) => "Parse error at line "@ + decimal_digits(line as nat)
            + ", column "@ + decimal_digits(col as nat) + ": "@ + e.reason,
        None => "Parse error: "@ + e.reason,
    }
}

/// `usize`'s `to_string`: the number in decimal, without sign or padding.
#[verifier::external_body]
fn decimal(n: usize) -> (r: String)
    ensures
        r@ == decimal_digits(n as nat),
{
    n.to_string()
}

/// One grammar rule of a token stream: parse a `T` at the cursor.
pub trait TryParse<T: DeepView>: TokenStream {
    /// The outcome of the rule for `T` on the tokens `ts` at `pos`.
    spec fn rule(ts: Seq<AtomView>, pos: nat) -> Outcome<T::V>;

    /// Parses a `T`: the result and the cursor's new position are those of
    /// the rule, and the tokens stay as they are. The cursor does not move
    /// backwards, and where the rule accepts it does not pass the end.
    fn try_parse(&mut self) -> (r: ParseResult<T>)
        ensures
            final(self).stream() == old(self).stream(),
            outcome_of(r) == Self::rule(old(self).stream(), old(self).at()).0,
            final(self).at() == Self::rule(old(self).stream(), old(self).at()).1,
            old(self).at() <= final(self).at(),
            r is Ok && old(self).at() <= old(self).stream().len() ==> final(self).at() <= old(
                self,
            ).stream().len(),
    ;
}

/// The nodes a record is connected to.
pub trait ExposeNodes {
    /// The nodes of the record, in the order of its fields.
    spec fn exposed(&self) -> Seq<Node>;

    fn nodes(&self) -> (ret: Vec<Node>)
        ensures
            ret@ == self.exposed(),
    ;
}

/// What stands at one place of a partially typed record.
#[derive(Clone, Debug)]
pub enum ElementInfo {
    Number,
    Node(String),
}

/// A place of a partially typed record.
#[derive(Clone, Debug)]
pub struct Element {
    pub inner: ElementInfo,
    pub line: usize,
    pub character: usize,
}

/// A grammar rule that accepts a record cut short by the end of input.
pub trait PartialParse<T: DeepView>: TokenStream {
    /// The outcome of the rule for `T` on the tokens `ts` at `pos`.
    spec fn partial_rule(ts: Seq<AtomView>, pos: nat) -> Outcome<T::V>;

    /// Parses a `T` as far as the line goes.
    fn try_partial(&mut self) -> (r: ParseResult<T>)
        ensures
            final(self).stream() == old(self).stream(),
            outcome_of(r) == Self::partial_rule(old(self).stream(), old(self).at()).0,
            final(self).at() == Self::partial_rule(old(self).stream(), old(self).at()).1,
    ;

    /// Parses a `T` as far as the line goes; the list of its places is
    /// empty.
    fn info(&mut self) -> (r: ParseResult<(T, Vec<Element>)>)
        ensures
            final(self).stream() == old(self).stream(),
            final(self).at() == Self::partial_rule(old(self).stream(), old(self).at()).1,
            match r {
                Ok((v, elements)) => Self::partial_rule(old(self).stream(), old(self).at()).0
                    == Ok::<T::V, ParseErrorView>(v.deep_view()) && elements@.len() == 0,
                Err(e) => Self::partial_rule(old(self).stream(), old(self).at()).0 == Err::<
                    T::V,
                    ParseErrorView,
                >(e@),
            },
    ;
}

/// A cursor over tokens.
pub trait TokenStream: Snapshot {
    /// The tokens.
    spec fn stream(&self) -> Seq<AtomView>;

    /// The cursor position.
    spec fn at(&self) -> nat;

    /// Total number of tokens.
    fn len(&self) -> (r: usize)
        ensures
            r == self.stream().len(),
    ;

    /// The cursor position.
    fn position(&self) -> (r: usize)
        ensures
            r == self.at(),
    ;

    /// The token at `index`, if there is one.
    fn get(&self, index: usize) -> (r: Option<&Token>)
        ensures
            r is Some <==> index < self.stream().len(),
            r matches Some(t) ==> t.deep_view() == self.stream()[index as int],
    ;

    /// Moves the cursor one token forward.
    fn consume(&mut self)
        requires
            old(self).at() < usize::MAX,
        ensures
            final(self).at() == old(self).at() + 1,
            final(self).stream() == old(self).stream(),
    ;

    /// The token under the cursor; an error at the end of input.
    fn token(&self) -> (r: ParseResult<Token>)
        ensures
            outcome_of(r) == token_at(self.stream(), self.at()),
    ;

    /// The token after the one under the cursor.
    fn next_token(&self) -> (r: ParseResult<Token>)
        ensures
            outcome_of(r) == token_at(self.stream(), self.at() + 1),
    ;

    /// Whether the token under the cursor is `word`, up to letter case.
    fn matches(&self, word: &str) -> (r: bool)
        ensures
            r == matches_at(self.stream(), self.at(), word@),
    ;

    /// Consumes the token under the cursor if it is `word`.
    fn matches_consume(&mut self, word: &str) -> (r: bool)
        ensures
            r == matches_at(old(self).stream(), old(self).at(), word@),
            final(self).stream() == old(self).stream(),
            final(self).at() == if r {
                old(self).at() + 1
            } else {
                old(self).at()
            },
    ;

    /// Whether the token after the one under the cursor is `word`.
    fn next_matches(&self, word: &str) -> (r: bool)
        ensures
            r == matches_at(self.stream(), self.at() + 1, word@),
    ;

    /// Whether the cursor is at or past the end.
    fn is_eof(&self) -> (r: bool)
        ensures
            r == (self.at() >= self.stream().len()),
    ;

    /// Whether at most one token is left.
    fn next_eof(&self) -> (r: bool)
        ensures
            r == (self.at() + 1 >= self.stream().len()),
    ;

    /// Consumes the token under the cursor, which must be `word`.
    fn expect(&mut self, word: &str) -> (r: ParseResult<Token>)
        ensures
            final(self).stream() == old(self).stream(),
            (outcome_of(r), final(self).at()) == expect_at(
                old(self).stream(),
                old(self).at(),
                word@,
            ),
    ;

    /// Accepts only the end of the input.
    fn expect_eof(&self) -> (r: ParseResult<()>)
        ensures
            r is Ok <==> self.at() >= self.stream().len(),
            r matches Err(e) ==> Err::<(), ParseErrorView>(e@) == expect_eof_at(
                self.stream(),
                self.at(),
            ),
    ;
}

/// Saving and restoring a cursor, for rules that may have to back off.
pub trait Snapshot {
    type State;

    fn snapshot(&self) -> Self::State;

    fn restore(&mut self, state: Self::State);
}

/// A cursor over the tokens of one logical line.
pub struct SpiceLineParser<'a> {
    pub vec: &'a Vec<Token>,
    pub position: usize,
}

impl<'a> SpiceLineParser<'a> {
    pub fn new(vec: &'a Vec<Token>) -> (r: Self)
        ensures
            r.vec == vec,
            r.position == 0,
    {
        Self { vec, position: 0 }
    }

    /// The tokens of the line.
    pub open spec fn tokens(&self) -> Seq<AtomView> {
        self.vec.deep_view()
    }

    /// The cursor position.
    pub open spec fn cursor(&self) -> nat {
        self.position as nat
    }

    /// How many tokens lie at or after the cursor.
    pub open spec fn remaining(&self) -> nat {
        if self.position < self.vec.len() {
            (self.vec.len() - self.position) as nat
        } else {
            0
        }
    }

    /// Total number of tokens.
    pub fn len(&self) -> (r: usize)
        ensures
            r == self.tokens().len(),
    {
        self.vec.len()
    }

    /// The cursor position.
    pub fn position(&self) -> (r: usize)
        ensures
            r == self.position,
    {
        self.position
    }

    /// The token at `index`, if there is one.
    pub fn get(&self, index: usize) -> (r: Option<&Token>)
        ensures
            r is Some <==> index < self.tokens().len(),
            r matches Some(t) ==> *t == self.vec[index as int],
    {
        if index < self.vec.len() {
            Some(&self.vec[index])
        } else {
            None
        }
    }

    /// Moves the cursor one token forward.
    pub fn consume(&mut self)
        requires
            old(self).position < usize::MAX,
        ensures
            final(self).position == old(self).position + 1,
            final(self).vec == old(self).vec,
    {
        self.position += 1;
    }

    /// The token under the cursor; an error at the end of input.
    pub fn token(&self) -> (r: ParseResult<Token>)
        ensures
            outcome_of(r) == token_at(self.tokens(), self.cursor()),
            r matches Ok(t) ==> t == self.vec[self.position as int],
            r is Ok <==> self.position < self.vec.len(),
    {
        if self.position < self.vec.len() {
            Ok(self.vec[self.position].clone())
        } else {
            Err(ParseError::unexpected_eof(None))
        }
    }

    /// The token after the one under the cursor; an error when there is none.
    pub fn next_token(&self) -> (r: ParseResult<Token>)
        ensures
            outcome_of(r) == token_at(self.tokens(), self.cursor() + 1),
    {
        if self.position < self.vec.len() && self.position + 1 < self.vec.len() {
            Ok(self.vec[self.position + 1].clone())
        } else {
            Err(ParseError::unexpected_eof(None))
        }
    }

    /// Whether the token under the cursor is `word`, up to letter case.
    pub fn matches(&self, word: &str) -> (r: bool)
        ensures
            r == matches_at(self.tokens(), self.cursor(), word@),
            r ==> self.position < self.vec.len(),
    {
        if self.position < self.vec.len() {
            is_same_word(self.vec[self.position].raw.as_str(), word)
        } else {
            false
        }
    }

    /// Consumes the token under the cursor if it is `word`.
    pub fn matches_consume(&mut self, word: &str) -> (r: bool)
        ensures
            r == matches_at(old(self).tokens(), old(self).cursor(), word@),
            final(self).vec == old(self).vec,
            final(self).position == if r {
                old(self).position + 1
            } else {
                old(self).position as int
            },
    {
        if self.matches(word) {
            self.position += 1;
            true
        } else {
            false
        }
    }

    /// Whether the token after the one under the cursor is `word`.
    pub fn next_matches(&self, word: &str) -> (r: bool)
        ensures
            r == matches_at(self.tokens(), self.cursor() + 1, word@),
    {
        if self.position < self.vec.len() && self.position + 1 < self.vec.len() {
            is_same_word(self.vec[self.position + 1].raw.as_str(), word)
        } else {
            false
        }
    }

    /// Whether the cursor is at or past the end of the line.
    pub fn is_eof(&self) -> (r: bool)
        ensures
            r == (self.cursor() >= self.tokens().len()),
    {
        self.position >= self.vec.len()
    }

    /// Whether at most one token is left.
    pub fn next_eof(&self) -> (r: bool)
        ensures
            r == (self.cursor() + 1 >= self.tokens().len()),
    {
        self.position >= self.vec.len() || self.position + 1 >= self.vec.len()
    }

    /// Consumes the token under the cursor, which must be `word`.
    pub fn expect(&mut self, word: &str) -> (r: ParseResult<Token>)
        ensures
            final(self).vec == old(self).vec,
            (outcome_of(r), final(self).cursor()) == expect_at(
                old(self).tokens(),
                old(self).cursor(),
                word@,
            ),
    {
        let actual = self.token()?;
        if !is_same_word(actual.raw.as_str(), word) {
            return Err(ParseError::unexpected(word, actual.raw.as_str(), Some(actual.place())));
        }
        self.position += 1;
        Ok(actual)
    }

    /// Accepts only the end of the line.
    pub fn expect_eof(&self) -> (r: ParseResult<()>)
        ensures
            r is Ok <==> self.cursor() >= self.tokens().len(),
            r matches Err(e) ==> Err::<(), ParseErrorView>(e@) == expect_eof_at(
                self.tokens(),
                self.cursor(),
            ),
    {
        if self.is_eof() {
            Ok(())
        } else {
            let token = self.token()?;
            Err(ParseError::unexpected("<EOF>", token.raw.as_str(), Some(token.place())))
        }
    }
}

/// `after` is the cursor `before` once a rule with the outcome `rule` has
/// run on it and returned `r`: the tokens are the same, the result and the
/// position are the rule's, and the cursor has not moved backwards.
pub open spec fn parsed<T: DeepView>(
    before: SpiceLineParser,
    after: SpiceLineParser,
    r: ParseResult<T>,
    rule: Outcome<T::V>,
) -> bool {
    &&& after.vec == before.vec
    &&& outcome_of(r) == rule.0
    &&& after.position == rule.1
    &&& before.position <= after.position
}

/// An optional rule: the value where the rule accepts, and otherwise
/// nothing, with the cursor where it was.
pub open spec fn optional_of<V>(rule: Outcome<V>, pos: nat) -> Outcome<Option<V>> {
    match rule {
        (Ok(v), p) => (Ok(Some(v)), p),
        (Err(_), _) => (Ok(None), pos),
    }
}

/// As many `T` as follow one another from `pos`, added to `acc`: the rule
/// of `T` is repeated for as long as it accepts and takes a token.
pub open spec fn list_from<T: DeepView, P: TryParse<T>>(
    ts: Seq<AtomView>,
    pos: nat,
    acc: Seq<T::V>,
) -> (Seq<T::V>, nat)
    decreases tokens_left(ts, pos),
{
    match P::rule(ts, pos) {
        (Ok(v), p) => if pos < p <= ts.len() {
            list_from::<T, P>(ts, p, acc.push(v))
        } else {
            (acc, pos)
        },
        (Err(_), _) => (acc, pos),
    }
}

/// A list of `T`: the rule of `T` is repeated for as long as it accepts.
pub open spec fn list_of<T: DeepView, P: TryParse<T>>(ts: Seq<AtomView>, pos: nat) -> Outcome<
    Seq<T::V>,
> {
    (Ok(list_from::<T, P>(ts, pos, Seq::empty()).0), list_from::<T, P>(ts, pos, Seq::empty()).1)
}

impl<'a> SpiceLineParser<'a> {
    /// Parses a `T` if one stands at the cursor; where none does, the
    /// cursor stays where it is.
    pub fn parse_optional<T: DeepView>(&mut self) -> (r: ParseResult<Option<T>>) where
        Self: TryParse<T>,

        ensures
            parsed(
                *old(self),
                *final(self),
                r,
                optional_of(Self::rule(old(self).tokens(), old(self).cursor()), old(self).cursor()),
            ),
            r is Ok,
            r is Ok && old(self).position <= old(self).vec.len() ==> final(self).position <= old(
                self,
            ).vec.len(),
    {
        let tokens = self.vec;
        let snapshot = self.position;
        let found: ParseResult<T> = self.try_parse();
        // Whatever rule stands behind `T`, the cursor stays on these tokens.
        self.vec = tokens;
        match found {
            Ok(value) => Ok(Some(value)),
            Err(_) => {
                self.position = snapshot;
                Ok(None)
            },
        }
    }

    /// Parses a list of `T`: as many as follow one another.
    pub fn parse_list<T: DeepView>(&mut self) -> (r: ParseResult<Vec<T>>) where
        Self: TryParse<T>,

        ensures
            parsed(
                *old(self),
                *final(self),
                r,
                list_of::<T, Self>(old(self).tokens(), old(self).cursor()),
            ),
            r is Ok,
            r is Ok && old(self).position <= old(self).vec.len() ==> final(self).position <= old(
                self,
            ).vec.len(),
    {
        let tokens = self.vec;
        let ghost goal = list_from::<T, Self>(self.tokens(), self.cursor(), Seq::empty());
        let mut values: Vec<T> = Vec::new();
        assert(values.deep_view() =~= Seq::empty());
        loop
            invariant
                self.vec == old(self).vec,
                tokens == old(self).vec,
                old(self).position <= self.position,
                old(self).position <= old(self).vec.len() ==> self.position <= self.vec.len(),
                goal == list_from::<T, Self>(old(self).tokens(), old(self).cursor(), Seq::empty()),
                goal == list_from::<T, Self>(self.tokens(), self.cursor(), values.deep_view()),
            decreases self.remaining(),
        {
            let snapshot = self.position;
            let ghost before = values.deep_view();
            let found: ParseResult<T> = self.try_parse();
            // Whatever rule stands behind `T`, the cursor stays on these
            // tokens.
            self.vec = tokens;
            match found {
                Ok(value) => {
                    if snapshot < self.position && self.position <= self.vec.len() {
                        values.push(value);
                        assert(values.deep_view() =~= before.push(value.deep_view()));
                    } else {
                        self.position = snapshot;
                        return Ok(values);
                    }
                },
                Err(_) => {
                    self.position = snapshot;
                    return Ok(values);
                },
            }
        }
    }
}

impl<'a> SpiceLineParser<'a> {
    /// Parses a count.
    pub fn parse_count(&mut self) -> (r: ParseResult<usize>)
        ensures
            parsed(*old(self), *final(self), r, count_at(old(self).tokens(), old(self).cursor())),
            r is Ok ==> old(self).position < final(self).position <= old(self).vec.len(),
    {
        let token = self.token()?;
        match parse_usize(token.raw.as_str()) {
            Some(n) => {
                self.position += 1;
                Ok(n)
            },
            None => Err(ParseError::unexpected("<usize>", token.raw.as_str(), Some(token.place()))),
        }
    }
}

impl TryParse<usize> for SpiceLineParser<'_> {
    open spec fn rule(ts: Seq<AtomView>, pos: nat) -> Outcome<usize> {
        count_at(ts, pos)
    }

    fn try_parse(&mut self) -> (r: ParseResult<usize>) {
        self.parse_count()
    }
}

impl TryParse<Vec<usize>> for SpiceLineParser<'_> {
    open spec fn rule(ts: Seq<AtomView>, pos: nat) -> Outcome<Seq<usize>> {
        list_of::<usize, SpiceLineParser>(ts, pos)
    }

    fn try_parse(&mut self) -> (r: ParseResult<Vec<usize>>) {
        self.parse_list::<usize>()
    }
}

impl Snapshot for SpiceLineParser<'_> {
    type State = usize;

    fn snapshot(&self) -> (r: usize)
        ensures
            r == self.position,
    {
        self.position
    }

    fn restore(&mut self, state: usize)
        ensures
            final(self).position == state,
            final(self).vec == old(self).vec,
    {
        self.position = state;
    }
}

impl TokenStream for SpiceLineParser<'_> {
    open spec fn stream(&self) -> Seq<AtomView> {
        self.tokens()
    }

    open spec fn at(&self) -> nat {
        self.cursor()
    }

    fn len(&self) -> (r: usize) {
        self.vec.len()
    }

    fn position(&self) -> (r: usize) {
        self.position
    }

    fn get(&self, index: usize) -> (r: Option<&Token>) {
        if index < self.vec.len() {
            Some(&self.vec[index])
        } else {
            None
        }
    }

    fn consume(&mut self) {
        self.position += 1;
    }

    fn token(&self) -> (r: ParseResult<Token>) {
        SpiceLineParser::token(self)
    }

    fn next_token(&self) -> (r: ParseResult<Token>) {
        SpiceLineParser::next_token(self)
    }

    fn matches(&self, word: &str) -> (r: bool) {
        SpiceLineParser::matches(self, word)
    }

    fn matches_consume(&mut self, word: &str) -> (r: bool) {
        SpiceLineParser::matches_consume(self, word)
    }

    fn next_matches(&self, word: &str) -> (r: bool) {
        SpiceLineParser::next_matches(self, word)
    }

    fn is_eof(&self) -> (r: bool) {
        SpiceLineParser::is_eof(self)
    }

    fn next_eof(&self) -> (r: bool) {
        SpiceLineParser::next_eof(self)
    }

    fn expect(&mut self, word: &str) -> (r: ParseResult<Token>) {
        SpiceLineParser::expect(self, word)
    }

    fn expect_eof(&self) -> (r: ParseResult<()>) {
        SpiceLineParser::expect_eof(self)
    }
}

} // verus!
