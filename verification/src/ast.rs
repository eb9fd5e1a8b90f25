//! Source atoms and the syntax tree built from them.

pub mod command;
pub mod component;
pub mod copy;
pub mod expression;
pub mod gain;
pub mod sweep;
pub mod transient;
pub mod variable;

use crate::ast::expression::{number_at, text_at, Number, NumberView, Text};
use crate::ast::variable::{output_variable_at, OutputVariable, OutputVariableView};
use crate::parse::{
    count_at, eof_error, expect_at, list_of, matches_at, optional_of, parsed, quoting_error,
    Outcome, ParseError, ParseErrorView, ParseResult, SpiceLineParser, TryParse,
};
use crate::text::{alpha, chars_of, digit, is_alnum, is_alpha, is_digit, to_upper, upper};
use vstd::prelude::*;
use vstd::std_specs::cmp::PartialEqSpecImpl;
use vstd::std_specs::convert::FromSpecImpl;

verus! {

/// A span of source text: the text itself, its byte columns within the line,
/// and the line it was read from.
///
/// Executable equality (`==`) compares the text only.
#[derive(Debug)]
pub struct Atom {
    pub raw: String,
    pub column: (usize, usize),
    pub line: usize,
}

/// Mathematical content of an [`Atom`].
pub struct AtomView {
    pub raw: Seq<char>,
    pub column: (usize, usize),
    pub line: usize,
}

impl DeepView for Atom {
    type V = AtomView;

    open spec fn deep_view(&self) -> AtomView {
        AtomView { raw: self.raw@, column: self.column, line: self.line }
    }
}

impl Clone for Atom {
    fn clone(&self) -> (r: Self)
        ensures
            r == *self,
    {
        Atom { raw: self.raw.clone(), column: self.column, line: self.line }
    }
}

impl PartialEq for Atom {
    fn eq(&self, other: &Self) -> (r: bool) {
        self.raw == other.raw
    }
}

impl PartialEqSpecImpl for Atom {
    open spec fn obeys_eq_spec() -> bool {
        true
    }

    open spec fn eq_spec(&self, other: &Self) -> bool {
        self.raw@ == other.raw@
    }
}

impl Eq for Atom {}

impl<'a> From<&'a str> for Atom {
    /// An atom with the given text, at the start of the first line.
    fn from(value: &'a str) -> (r: Self)
        ensures
            r.deep_view() == (AtomView { raw: value@, column: (0, 0), line: 0 }),
    {
        Atom { raw: value.to_owned(), column: (0, 0), line: 0 }
    }
}

impl<'a> FromSpecImpl<&'a str> for Atom {
    open spec fn obeys_from_spec() -> bool {
        false
    }

    open spec fn from_spec(v: &'a str) -> Self {
        arbitrary()
    }
}

impl AtomView {
    /// Where the atom stands: its line, and the column at which it begins.
    pub open spec fn place(self) -> (usize, usize) {
        (self.line, self.column.0)
    }
}

impl Atom {
    /// Where the atom stands: its line, and the column at which it begins.
    pub fn place(&self) -> (r: (usize, usize))
        ensures
            r == self.deep_view().place(),
    {
        (self.line, self.column.0)
    }

    /// An atom with the given text and position.
    pub fn new(raw: &str, column: (usize, usize), line: usize) -> (r: Self)
        ensures
            r.raw@ == raw@,
            r.column == column,
            r.line == line,
    {
        Atom { raw: raw.to_owned(), column, line }
    }

    /// The atom's text.
    pub fn to_string(&self) -> (r: String)
        ensures
            r@ == self.raw@,
    {
        self.raw.clone()
    }

    /// The atom's text with every ASCII letter in upper case.
    pub fn to_uppercase(&self) -> (r: String)
        ensures
            r@ == upper(self.raw@),
    {
        to_upper(self.raw.as_str())
    }

    /// Whether the atom is a quoted string.
    pub fn is_string(&self) -> (r: bool)
        ensures
            r == is_quoted(self.raw@),
    {
        let chars = chars_of(self.raw.as_str());
        chars.len() > 0 && chars[0] == '"' && chars[chars.len() - 1] == '"'
    }
}

/// A text that begins and ends with a double quote.
pub open spec fn is_quoted(s: Seq<char>) -> bool {
    s.len() > 0 && s[0] == '"' && s[s.len() - 1] == '"'
}

/// Characters a node name is made of.
pub open spec fn is_node_char(c: char) -> bool {
    is_alnum(c) || c == '_' || c == '$'
}

/// A text made of letters, digits, `_` and `$` only.
pub open spec fn valid_node_name(name: Seq<char>) -> bool {
    forall|i: int| 0 <= i < name.len() ==> is_node_char(#[trigger] name[i])
}

/// A text made of digits only.
pub open spec fn valid_digits_node_name(name: Seq<char>) -> bool {
    forall|i: int| 0 <= i < name.len() ==> is_digit(#[trigger] name[i])
}

/// A letter followed by letters, digits and `_`.
pub open spec fn valid_name(name: Seq<char>) -> bool {
    &&& name.len() > 0
    &&& is_alpha(name[0])
    &&& forall|i: int| 1 <= i < name.len() ==> is_alnum(#[trigger] name[i]) || name[i] == '_'
}

/// Whether a text consists of digits only.
pub fn is_valid_digits_node_name(name: &str) -> (r: bool)
    ensures
        r == valid_digits_node_name(name@),
{
    let chars = chars_of(name);
    let mut i: usize = 0;
    while i < chars.len()
        invariant
            i <= chars.len(),
            chars@ == name@,
            forall|k: int| 0 <= k < i ==> is_digit(#[trigger] name@[k]),
        decreases chars.len() - i,
    {
        if !digit(chars[i]) {
            return false;
        }
        i += 1;
    }
    true
}

/// Whether a text consists of letters, digits, `_` and `$` only.
pub fn is_valid_node_name(name: &str) -> (r: bool)
    ensures
        r == valid_node_name(name@),
{
    let chars = chars_of(name);
    let mut i: usize = 0;
    while i < chars.len()
        invariant
            i <= chars.len(),
            chars@ == name@,
            forall|k: int| 0 <= k < i ==> is_node_char(#[trigger] name@[k]),
        decreases chars.len() - i,
    {
        let c = chars[i];
        if !(alpha(c) || digit(c) || c == '_' || c == '$') {
            return false;
        }
        i += 1;
    }
    true
}

/// Whether a text is a letter followed by letters, digits and `_`.
pub fn is_valid_name(name: &str) -> (r: bool)
    ensures
        r == valid_name(name@),
{
    let chars = chars_of(name);
    if chars.len() == 0 || !alpha(chars[0]) {
        return false;
    }
    let mut i: usize = 1;
    while i < chars.len()
        invariant
            1 <= i <= chars.len(),
            chars@ == name@,
            forall|k: int| 1 <= k < i ==> is_alnum(#[trigger] name@[k]) || name@[k] == '_',
        decreases chars.len() - i,
    {
        let c = chars[i];
        if !(alpha(c) || digit(c) || c == '_') {
            return false;
        }
        i += 1;
    }
    true
}

/// A node: a token naming a point of the circuit.
///
/// - `<node> ::= [0-9a-zA-Z_$]+`
/// - `<node> | [ <node> ]`
#[derive(Debug, PartialEq)]
pub struct Node(pub Atom);

impl DeepView for Node {
    type V = AtomView;

    open spec fn deep_view(&self) -> AtomView {
        self.0.deep_view()
    }
}

impl Clone for Node {
    fn clone(&self) -> (r: Self)
        ensures
            r == *self,
    {
        Node(self.0.clone())
    }
}

/// A node written so that it cannot be taken for a name: digits only, or
/// within brackets.
///
/// - `<digits node>`
/// - `[ <node> ]`
#[derive(Debug, PartialEq)]
pub struct ExplicitNode(pub Node);

impl DeepView for ExplicitNode {
    type V = AtomView;

    open spec fn deep_view(&self) -> AtomView {
        self.0.deep_view()
    }
}

impl Clone for ExplicitNode {
    fn clone(&self) -> (r: Self)
        ensures
            r == *self,
    {
        ExplicitNode(self.0.clone())
    }
}

/// The name of a component or a model.
///
/// - `[a-zA-Z][a-zA-Z0-9_]*`
#[derive(Debug, PartialEq)]
pub struct Name(pub Atom);

impl DeepView for Name {
    type V = AtomView;

    open spec fn deep_view(&self) -> AtomView {
        self.0.deep_view()
    }
}

impl Clone for Name {
    fn clone(&self) -> (r: Self)
        ensures
            r == *self,
    {
        Name(self.0.clone())
    }
}

/// The rejection of a token that is no node.
pub open spec fn not_a_node(t: AtomView) -> ParseErrorView {
    quoting_error("Expect `"@, t.raw, "' to be a node"@, Some(t.place()))
}

/// The rejection of a token that is no explicit node.
pub open spec fn not_an_explicit_node(t: AtomView) -> ParseErrorView {
    quoting_error(
        "Expect `"@,
        t.raw,
        "' to be an explicit node (only contains digits, or contained in `[]')"@,
        Some(t.place()),
    )
}

/// The rejection of a token that is no name.
pub open spec fn not_a_name(t: AtomView) -> ParseErrorView {
    quoting_error("Expect `"@, t.raw, "' to be a name"@, Some(t.place()))
}

/// A node name, alone or within brackets.
pub open spec fn node_at(ts: Seq<AtomView>, pos: nat) -> Outcome<AtomView> {
    let bracket = matches_at(ts, pos, "["@);
    let p = if bracket {
        pos + 1
    } else {
        pos
    };
    if p >= ts.len() {
        (Err(eof_error()), p)
    } else if !valid_node_name(ts[p as int].raw) {
        (Err(not_a_node(ts[p as int])), p)
    } else if bracket {
        match expect_at(ts, p + 1, "]"@) {
            (Ok(_), end) => (Ok(ts[p as int]), end),
            (Err(e), end) => (Err(e), end),
        }
    } else {
        (Ok(ts[p as int]), p + 1)
    }
}

/// A node name within brackets, or one of digits only.
pub open spec fn explicit_node_at(ts: Seq<AtomView>, pos: nat) -> Outcome<AtomView> {
    if matches_at(ts, pos, "["@) {
        let p = pos + 1;
        if p >= ts.len() {
            (Err(eof_error()), p)
        } else if !valid_node_name(ts[p as int].raw) {
            (Err(not_a_node(ts[p as int])), p)
        } else {
            match expect_at(ts, p + 1, "]"@) {
                (Ok(_), end) => (Ok(ts[p as int]), end),
                (Err(e), end) => (Err(e), end),
            }
        }
    } else if pos >= ts.len() {
        (Err(eof_error()), pos)
    } else if !valid_digits_node_name(ts[pos as int].raw) {
        (Err(not_an_explicit_node(ts[pos as int])), pos)
    } else {
        (Ok(ts[pos as int]), pos + 1)
    }
}

/// A name.
pub open spec fn name_at(ts: Seq<AtomView>, pos: nat) -> Outcome<AtomView> {
    if pos >= ts.len() {
        (Err(eof_error()), pos)
    } else if !valid_name(ts[pos as int].raw) {
        (Err(not_a_name(ts[pos as int])), pos)
    } else {
        (Ok(ts[pos as int]), pos + 1)
    }
}

impl<'a> SpiceLineParser<'a> {
    /// Parses a node.
    pub fn parse_node(&mut self) -> (r: ParseResult<Node>)
        ensures
            parsed(*old(self), *final(self), r, node_at(old(self).tokens(), old(self).cursor())),
            r is Ok ==> old(self).position < final(self).position <= old(self).vec.len(),
    {
        let bracket = self.matches_consume("[");
        let token = self.token()?;
        if is_valid_node_name(token.raw.as_str()) {
            self.position += 1;
            if bracket {
                self.expect("]")?;
            }
            Ok(Node(token))
        } else {
            Err(ParseError::quoting("Expect `", token.raw.as_str(), "' to be a node", Some(token.place())))
        }
    }

    /// Parses an explicit node.
    pub fn parse_explicit_node(&mut self) -> (r: ParseResult<ExplicitNode>)
        ensures
            parsed(*old(self), *final(self), r, explicit_node_at(old(self).tokens(), old(self).cursor())),
            r is Ok ==> old(self).position < final(self).position <= old(self).vec.len(),
    {
        if self.matches_consume("[") {
            let token = self.token()?;
            if is_valid_node_name(token.raw.as_str()) {
                self.position += 1;
                self.expect("]")?;
                Ok(ExplicitNode(Node(token)))
            } else {
                Err(ParseError::quoting("Expect `", token.raw.as_str(), "' to be a node", Some(token.place())))
            }
        } else {
            let token = self.token()?;
            if is_valid_digits_node_name(token.raw.as_str()) {
                self.position += 1;
                Ok(ExplicitNode(Node(token)))
            } else {
                Err(ParseError::quoting(
                    "Expect `",
                    token.raw.as_str(),
                    "' to be an explicit node (only contains digits, or contained in `[]')",
                    Some(token.place()),
                ))
            }
        }
    }

    /// Parses a name.
    pub fn parse_name(&mut self) -> (r: ParseResult<Name>)
        ensures
            parsed(*old(self), *final(self), r, name_at(old(self).tokens(), old(self).cursor())),
            r is Ok ==> old(self).position < final(self).position <= old(self).vec.len(),
    {
        let token = self.token()?;
        if is_valid_name(token.raw.as_str()) {
            self.position += 1;
            Ok(Name(token))
        } else {
            Err(ParseError::quoting("Expect `", token.raw.as_str(), "' to be a name", Some(token.place())))
        }
    }
}


impl TryParse<Node> for SpiceLineParser<'_> {
    open spec fn rule(ts: Seq<AtomView>, pos: nat) -> Outcome<AtomView> {
        node_at(ts, pos)
    }

    fn try_parse(&mut self) -> (r: ParseResult<Node>) {
        self.parse_node()
    }
}

impl TryParse<ExplicitNode> for SpiceLineParser<'_> {
    open spec fn rule(ts: Seq<AtomView>, pos: nat) -> Outcome<AtomView> {
        explicit_node_at(ts, pos)
    }

    fn try_parse(&mut self) -> (r: ParseResult<ExplicitNode>) {
        self.parse_explicit_node()
    }
}

impl TryParse<Name> for SpiceLineParser<'_> {
    open spec fn rule(ts: Seq<AtomView>, pos: nat) -> Outcome<AtomView> {
        name_at(ts, pos)
    }

    fn try_parse(&mut self) -> (r: ParseResult<Name>) {
        self.parse_name()
    }
}

/// How the frequency of an AC sweep moves.
#[derive(Debug, Clone, Copy, PartialEq, Eq, Structural)]
pub enum AcType {
    /// linear
    Lin,
    /// by octaves
    Oct,
    /// by decades
    Dec,
}

impl DeepView for AcType {
    type V = AcType;

    open spec fn deep_view(&self) -> AcType {
        *self
    }
}
/// The rule of [`AcType`]: one of its keywords, in any letter case.
#[verifier::opaque]
pub open spec fn ac_type_at(ts: Seq<AtomView>, pos: nat) -> Outcome<AcType> {
    if pos >= ts.len() {
        (Err(eof_error()), pos)
    } else if matches_at(ts, pos, "LIN"@) {
        (Ok(AcType::Lin), pos + 1)
    } else if matches_at(ts, pos, "OCT"@) {
        (Ok(AcType::Oct), pos + 1)
    } else if matches_at(ts, pos, "DEC"@) {
        (Ok(AcType::Dec), pos + 1)
    } else {
        (
            Err(
                quoting_error(
                    "Unknown varient: '"@,
                    ts[pos as int].raw,
                    "', valid options are [\"LIN\", \"OCT\", \"DEC\"]"@,
                    Some(ts[pos as int].place()),
                ),
            ),
            pos,
        )
    }
}

impl<'a> SpiceLineParser<'a> {
    /// Parses a [`AcType`].
    pub fn parse_ac_type(&mut self) -> (r: ParseResult<AcType>)
        ensures
            parsed(*old(self), *final(self), r, ac_type_at(old(self).tokens(), old(self).cursor())),
            r is Ok ==> old(self).position < final(self).position <= old(self).vec.len(),
    {
        reveal(ac_type_at);
        let token = self.token()?;
        if self.matches_consume("LIN") {
            Ok(AcType::Lin)
        } else if self.matches_consume("OCT") {
            Ok(AcType::Oct)
        } else if self.matches_consume("DEC") {
            Ok(AcType::Dec)
        } else {
            Err(
                ParseError::quoting(
                    "Unknown varient: '",
                    token.raw.as_str(),
                    "', valid options are [\"LIN\", \"OCT\", \"DEC\"]",
                    Some(token.place()),
                ),
            )
        }
    }
}

impl TryParse<AcType> for SpiceLineParser<'_> {
    open spec fn rule(ts: Seq<AtomView>, pos: nat) -> Outcome<AcType> {
        ac_type_at(ts, pos)
    }

    fn try_parse(&mut self) -> (r: ParseResult<AcType>) {
        self.parse_ac_type()
    }
}

/// An optional `Number`: the value where the rule accepts, and otherwise
/// nothing, with the cursor where it was.
#[verifier::opaque]
pub open spec fn optional_number_at(ts: Seq<AtomView>, pos: nat) -> Outcome<Option<NumberView>> {
    optional_of(number_at(ts, pos), pos)
}

impl<'a> SpiceLineParser<'a> {
    /// Parses an optional `Number`.
    pub fn parse_optional_number(&mut self) -> (r: ParseResult<Option<Number>>)
        ensures
            parsed(*old(self), *final(self), r, optional_number_at(old(self).tokens(), old(self).cursor())),
            r is Ok,
            r is Ok && old(self).position <= old(self).vec.len() ==> final(self).position <= old(self).vec.len(),
    {
        reveal(optional_number_at);
        self.parse_optional::<Number>()
    }
}

impl TryParse<Option<Number>> for SpiceLineParser<'_> {
    open spec fn rule(ts: Seq<AtomView>, pos: nat) -> Outcome<Option<NumberView>> {
        optional_number_at(ts, pos)
    }

    fn try_parse(&mut self) -> (r: ParseResult<Option<Number>>) {
        self.parse_optional_number()
    }
}

/// An optional `Name`: the value where the rule accepts, and otherwise
/// nothing, with the cursor where it was.
#[verifier::opaque]
pub open spec fn optional_name_at(ts: Seq<AtomView>, pos: nat) -> Outcome<Option<AtomView>> {
    optional_of(name_at(ts, pos), pos)
}

impl<'a> SpiceLineParser<'a> {
    /// Parses an optional `Name`.
    pub fn parse_optional_name(&mut self) -> (r: ParseResult<Option<Name>>)
        ensures
            parsed(*old(self), *final(self), r, optional_name_at(old(self).tokens(), old(self).cursor())),
            r is Ok,
            r is Ok && old(self).position <= old(self).vec.len() ==> final(self).position <= old(self).vec.len(),
    {
        reveal(optional_name_at);
        self.parse_optional::<Name>()
    }
}

impl TryParse<Option<Name>> for SpiceLineParser<'_> {
    open spec fn rule(ts: Seq<AtomView>, pos: nat) -> Outcome<Option<AtomView>> {
        optional_name_at(ts, pos)
    }

    fn try_parse(&mut self) -> (r: ParseResult<Option<Name>>) {
        self.parse_optional_name()
    }
}

/// An optional `Text`: the value where the rule accepts, and otherwise
/// nothing, with the cursor where it was.
#[verifier::opaque]
pub open spec fn optional_text_at(ts: Seq<AtomView>, pos: nat) -> Outcome<Option<AtomView>> {
    optional_of(text_at(ts, pos), pos)
}

impl<'a> SpiceLineParser<'a> {
    /// Parses an optional `Text`.
    pub fn parse_optional_text(&mut self) -> (r: ParseResult<Option<Text>>)
        ensures
            parsed(*old(self), *final(self), r, optional_text_at(old(self).tokens(), old(self).cursor())),
            r is Ok,
            r is Ok && old(self).position <= old(self).vec.len() ==> final(self).position <= old(self).vec.len(),
    {
        reveal(optional_text_at);
        self.parse_optional::<Text>()
    }
}

impl TryParse<Option<Text>> for SpiceLineParser<'_> {
    open spec fn rule(ts: Seq<AtomView>, pos: nat) -> Outcome<Option<AtomView>> {
        optional_text_at(ts, pos)
    }

    fn try_parse(&mut self) -> (r: ParseResult<Option<Text>>) {
        self.parse_optional_text()
    }
}

/// An optional `ExplicitNode`: the value where the rule accepts, and otherwise
/// nothing, with the cursor where it was.
#[verifier::opaque]
pub open spec fn optional_explicit_node_at(ts: Seq<AtomView>, pos: nat) -> Outcome<Option<AtomView>> {
    optional_of(explicit_node_at(ts, pos), pos)
}

impl<'a> SpiceLineParser<'a> {
    /// Parses an optional `ExplicitNode`.
    pub fn parse_optional_explicit_node(&mut self) -> (r: ParseResult<Option<ExplicitNode>>)
        ensures
            parsed(*old(self), *final(self), r, optional_explicit_node_at(old(self).tokens(), old(self).cursor())),
            r is Ok,
            r is Ok && old(self).position <= old(self).vec.len() ==> final(self).position <= old(self).vec.len(),
    {
        reveal(optional_explicit_node_at);
        self.parse_optional::<ExplicitNode>()
    }
}

impl TryParse<Option<ExplicitNode>> for SpiceLineParser<'_> {
    open spec fn rule(ts: Seq<AtomView>, pos: nat) -> Outcome<Option<AtomView>> {
        optional_explicit_node_at(ts, pos)
    }

    fn try_parse(&mut self) -> (r: ParseResult<Option<ExplicitNode>>) {
        self.parse_optional_explicit_node()
    }
}

/// An optional `usize`: the value where the rule accepts, and otherwise
/// nothing, with the cursor where it was.
#[verifier::opaque]
pub open spec fn optional_count_at(ts: Seq<AtomView>, pos: nat) -> Outcome<Option<usize>> {
    optional_of(count_at(ts, pos), pos)
}

impl<'a> SpiceLineParser<'a> {
    /// Parses an optional `usize`.
    pub fn parse_optional_count(&mut self) -> (r: ParseResult<Option<usize>>)
        ensures
            parsed(*old(self), *final(self), r, optional_count_at(old(self).tokens(), old(self).cursor())),
            r is Ok,
            r is Ok && old(self).position <= old(self).vec.len() ==> final(self).position <= old(self).vec.len(),
    {
        reveal(optional_count_at);
        self.parse_optional::<usize>()
    }
}

impl TryParse<Option<usize>> for SpiceLineParser<'_> {
    open spec fn rule(ts: Seq<AtomView>, pos: nat) -> Outcome<Option<usize>> {
        optional_count_at(ts, pos)
    }

    fn try_parse(&mut self) -> (r: ParseResult<Option<usize>>) {
        self.parse_optional_count()
    }
}

/// Two numbers.
#[verifier::opaque]
pub open spec fn number_pair_at(ts: Seq<AtomView>, pos: nat) -> Outcome<(NumberView, NumberView)> {
    match number_at(ts, pos) {
        (Ok(v0), p1) => {
            match number_at(ts, p1) {
                (Ok(v1), p2) => {
                    (Ok((v0, v1)), p2)
                },
                (Err(e), p2) => (Err(e), p2),
            }
        },
        (Err(e), p1) => (Err(e), p1),
    }
}

impl<'a> SpiceLineParser<'a> {
    /// Parses two numbers.
    pub fn parse_number_pair(&mut self) -> (r: ParseResult<(Number, Number)>)
        ensures
            parsed(*old(self), *final(self), r, number_pair_at(old(self).tokens(), old(self).cursor())),
            r is Ok ==> old(self).position < final(self).position <= old(self).vec.len(),
    {
        reveal(number_pair_at);
        let v0 = self.parse_number()?;
        let v1 = self.parse_number()?;
        Ok((v0, v1))
    }
}

impl TryParse<(Number, Number)> for SpiceLineParser<'_> {
    open spec fn rule(ts: Seq<AtomView>, pos: nat) -> Outcome<(NumberView, NumberView)> {
        number_pair_at(ts, pos)
    }

    fn try_parse(&mut self) -> (r: ParseResult<(Number, Number)>) {
        self.parse_number_pair()
    }
}

/// Three numbers.
#[verifier::opaque]
pub open spec fn number_triple_at(ts: Seq<AtomView>, pos: nat) -> Outcome<(NumberView, NumberView, NumberView)> {
    match number_at(ts, pos) {
        (Ok(v0), p1) => {
            match number_at(ts, p1) {
                (Ok(v1), p2) => {
                    match number_at(ts, p2) {
                        (Ok(v2), p3) => {
                            (Ok((v0, v1, v2)), p3)
                        },
                        (Err(e), p3) => (Err(e), p3),
                    }
                },
                (Err(e), p2) => (Err(e), p2),
            }
        },
        (Err(e), p1) => (Err(e), p1),
    }
}

impl<'a> SpiceLineParser<'a> {
    /// Parses three numbers.
    pub fn parse_number_triple(&mut self) -> (r: ParseResult<(Number, Number, Number)>)
        ensures
            parsed(*old(self), *final(self), r, number_triple_at(old(self).tokens(), old(self).cursor())),
            r is Ok ==> old(self).position < final(self).position <= old(self).vec.len(),
    {
        reveal(number_triple_at);
        let v0 = self.parse_number()?;
        let v1 = self.parse_number()?;
        let v2 = self.parse_number()?;
        Ok((v0, v1, v2))
    }
}

impl TryParse<(Number, Number, Number)> for SpiceLineParser<'_> {
    open spec fn rule(ts: Seq<AtomView>, pos: nat) -> Outcome<
        (NumberView, NumberView, NumberView),
    > {
        number_triple_at(ts, pos)
    }

    fn try_parse(&mut self) -> (r: ParseResult<(Number, Number, Number)>) {
        self.parse_number_triple()
    }
}

/// Four numbers.
#[verifier::opaque]
pub open spec fn number_quad_at(ts: Seq<AtomView>, pos: nat) -> Outcome<(NumberView, NumberView, NumberView, NumberView)> {
    match number_at(ts, pos) {
        (Ok(v0), p1) => {
            match number_at(ts, p1) {
                (Ok(v1), p2) => {
                    match number_at(ts, p2) {
                        (Ok(v2), p3) => {
                            match number_at(ts, p3) {
                                (Ok(v3), p4) => {
                                    (Ok((v0, v1, v2, v3)), p4)
                                },
                                (Err(e), p4) => (Err(e), p4),
                            }
                        },
                        (Err(e), p3) => (Err(e), p3),
                    }
                },
                (Err(e), p2) => (Err(e), p2),
            }
        },
        (Err(e), p1) => (Err(e), p1),
    }
}

impl<'a> SpiceLineParser<'a> {
    /// Parses four numbers.
    pub fn parse_number_quad(&mut self) -> (r: ParseResult<(Number, Number, Number, Number)>)
        ensures
            parsed(*old(self), *final(self), r, number_quad_at(old(self).tokens(), old(self).cursor())),
            r is Ok ==> old(self).position < final(self).position <= old(self).vec.len(),
    {
        reveal(number_quad_at);
        let v0 = self.parse_number()?;
        let v1 = self.parse_number()?;
        let v2 = self.parse_number()?;
        let v3 = self.parse_number()?;
        Ok((v0, v1, v2, v3))
    }
}

impl TryParse<(Number, Number, Number, Number)> for SpiceLineParser<'_> {
    open spec fn rule(ts: Seq<AtomView>, pos: nat) -> Outcome<
        (NumberView, NumberView, NumberView, NumberView),
    > {
        number_quad_at(ts, pos)
    }

    fn try_parse(&mut self) -> (r: ParseResult<(Number, Number, Number, Number)>) {
        self.parse_number_quad()
    }
}

/// A number, and a second one if it follows.
#[verifier::opaque]
pub open spec fn number_then_optional_at(ts: Seq<AtomView>, pos: nat) -> Outcome<(NumberView, Option<NumberView>)> {
    match number_at(ts, pos) {
        (Ok(v0), p1) => {
            match optional_number_at(ts, p1) {
                (Ok(v1), p2) => {
                    (Ok((v0, v1)), p2)
                },
                (Err(e), p2) => (Err(e), p2),
            }
        },
        (Err(e), p1) => (Err(e), p1),
    }
}

impl<'a> SpiceLineParser<'a> {
    /// Parses a number, and a second one if it follows.
    pub fn parse_number_then_optional(&mut self) -> (r: ParseResult<(Number, Option<Number>)>)
        ensures
            parsed(*old(self), *final(self), r, number_then_optional_at(old(self).tokens(), old(self).cursor())),
            r is Ok ==> old(self).position < final(self).position <= old(self).vec.len(),
    {
        reveal(number_then_optional_at);
        let v0 = self.parse_number()?;
        let v1 = self.parse_optional_number()?;
        Ok((v0, v1))
    }
}

impl TryParse<(Number, Option<Number>)> for SpiceLineParser<'_> {
    open spec fn rule(ts: Seq<AtomView>, pos: nat) -> Outcome<(NumberView, Option<NumberView>)> {
        number_then_optional_at(ts, pos)
    }

    fn try_parse(&mut self) -> (r: ParseResult<(Number, Option<Number>)>) {
        self.parse_number_then_optional()
    }
}

/// A name, and a number if it follows.
#[verifier::opaque]
pub open spec fn name_then_number_at(ts: Seq<AtomView>, pos: nat) -> Outcome<(AtomView, Option<NumberView>)> {
    match name_at(ts, pos) {
        (Ok(v0), p1) => {
            match optional_number_at(ts, p1) {
                (Ok(v1), p2) => {
                    (Ok((v0, v1)), p2)
                },
                (Err(e), p2) => (Err(e), p2),
            }
        },
        (Err(e), p1) => (Err(e), p1),
    }
}

impl<'a> SpiceLineParser<'a> {
    /// Parses a name, and a number if it follows.
    pub fn parse_name_then_number(&mut self) -> (r: ParseResult<(Name, Option<Number>)>)
        ensures
            parsed(*old(self), *final(self), r, name_then_number_at(old(self).tokens(), old(self).cursor())),
            r is Ok ==> old(self).position < final(self).position <= old(self).vec.len(),
    {
        reveal(name_then_number_at);
        let v0 = self.parse_name()?;
        let v1 = self.parse_optional_number()?;
        Ok((v0, v1))
    }
}

impl TryParse<(Name, Option<Number>)> for SpiceLineParser<'_> {
    open spec fn rule(ts: Seq<AtomView>, pos: nat) -> Outcome<(AtomView, Option<NumberView>)> {
        name_then_number_at(ts, pos)
    }

    fn try_parse(&mut self) -> (r: ParseResult<(Name, Option<Number>)>) {
        self.parse_name_then_number()
    }
}

/// Two nodes.
#[verifier::opaque]
pub open spec fn node_pair_at(ts: Seq<AtomView>, pos: nat) -> Outcome<(AtomView, AtomView)> {
    match node_at(ts, pos) {
        (Ok(v0), p1) => {
            match node_at(ts, p1) {
                (Ok(v1), p2) => {
                    (Ok((v0, v1)), p2)
                },
                (Err(e), p2) => (Err(e), p2),
            }
        },
        (Err(e), p1) => (Err(e), p1),
    }
}

impl<'a> SpiceLineParser<'a> {
    /// Parses two nodes.
    pub fn parse_node_pair(&mut self) -> (r: ParseResult<(Node, Node)>)
        ensures
            parsed(*old(self), *final(self), r, node_pair_at(old(self).tokens(), old(self).cursor())),
            r is Ok ==> old(self).position < final(self).position <= old(self).vec.len(),
    {
        reveal(node_pair_at);
        let v0 = self.parse_node()?;
        let v1 = self.parse_node()?;
        Ok((v0, v1))
    }
}

impl TryParse<(Node, Node)> for SpiceLineParser<'_> {
    open spec fn rule(ts: Seq<AtomView>, pos: nat) -> Outcome<(AtomView, AtomView)> {
        node_pair_at(ts, pos)
    }

    fn try_parse(&mut self) -> (r: ParseResult<(Node, Node)>) {
        self.parse_node_pair()
    }
}

/// An optional `(Name, Option<Number>)`: the value where the rule accepts, and otherwise
/// nothing, with the cursor where it was.
#[verifier::opaque]
pub open spec fn optional_name_then_number_at(ts: Seq<AtomView>, pos: nat) -> Outcome<Option<(AtomView, Option<NumberView>)>> {
    optional_of(name_then_number_at(ts, pos), pos)
}

impl<'a> SpiceLineParser<'a> {
    /// Parses an optional `(Name, Option<Number>)`.
    pub fn parse_optional_name_then_number(&mut self) -> (r: ParseResult<Option<(Name, Option<Number>)>>)
        ensures
            parsed(*old(self), *final(self), r, optional_name_then_number_at(old(self).tokens(), old(self).cursor())),
            r is Ok,
            r is Ok && old(self).position <= old(self).vec.len() ==> final(self).position <= old(self).vec.len(),
    {
        reveal(optional_name_then_number_at);
        self.parse_optional::<(Name, Option<Number>)>()
    }
}

impl TryParse<Option<(Name, Option<Number>)>> for SpiceLineParser<'_> {
    open spec fn rule(ts: Seq<AtomView>, pos: nat) -> Outcome<
        Option<(AtomView, Option<NumberView>)>,
    > {
        optional_name_then_number_at(ts, pos)
    }

    fn try_parse(&mut self) -> (r: ParseResult<Option<(Name, Option<Number>)>>) {
        self.parse_optional_name_then_number()
    }
}

/// `<name> = <value>`
#[derive(Debug, Clone, PartialEq)]
pub struct Param<T> {
    pub name: Name,
    pub value: T,
}

/// Mathematical content of a [`Param`].
pub struct ParamView<TV> {
    pub name: AtomView,
    pub value: TV,
}

impl<T: DeepView> DeepView for Param<T> {
    type V = ParamView<T::V>;

    open spec fn deep_view(&self) -> ParamView<T::V> {
        ParamView { name: self.name.deep_view(), value: self.value.deep_view() }
    }
}

/// `<name> = <value>`, the name being any rule.
#[derive(Debug, Clone, PartialEq)]
pub struct Pairs<T, R> {
    pub name: T,
    pub value: R,
}

/// Mathematical content of a [`Pairs`].
pub struct PairsView<TV, RV> {
    pub name: TV,
    pub value: RV,
}

impl<T: DeepView, R: DeepView> DeepView for Pairs<T, R> {
    type V = PairsView<T::V, R::V>;

    open spec fn deep_view(&self) -> PairsView<T::V, R::V> {
        PairsView { name: self.name.deep_view(), value: self.value.deep_view() }
    }
}

/// A parameter whose value is a `Number`.
#[verifier::opaque]
pub open spec fn param_number_at(ts: Seq<AtomView>, pos: nat) -> Outcome<ParamView<NumberView>> {
    match name_at(ts, pos) {
        (Ok(name), p1) => match expect_at(ts, p1, "="@) {
            (Ok(_), p2) => match number_at(ts, p2) {
                (Ok(value), p3) => (Ok(ParamView { name, value }), p3),
                (Err(e), p3) => (Err(e), p3),
            },
            (Err(e), p2) => (Err(e), p2),
        },
        (Err(e), p1) => (Err(e), p1),
    }
}

impl<'a> SpiceLineParser<'a> {
    /// Parses a parameter whose value is a `Number`.
    pub fn parse_param_number(&mut self) -> (r: ParseResult<Param<Number>>)
        ensures
            parsed(*old(self), *final(self), r, param_number_at(old(self).tokens(), old(self).cursor())),
            r is Ok ==> old(self).position < final(self).position <= old(self).vec.len(),
    {
        reveal(param_number_at);
        let name = self.parse_name()?;
        self.expect("=")?;
        let value = self.parse_number()?;
        Ok(Param { name, value })
    }
}

impl TryParse<Param<Number>> for SpiceLineParser<'_> {
    open spec fn rule(ts: Seq<AtomView>, pos: nat) -> Outcome<ParamView<NumberView>> {
        param_number_at(ts, pos)
    }

    fn try_parse(&mut self) -> (r: ParseResult<Param<Number>>) {
        self.parse_param_number()
    }
}

/// A parameter whose value is a `Text`.
#[verifier::opaque]
pub open spec fn param_text_at(ts: Seq<AtomView>, pos: nat) -> Outcome<ParamView<AtomView>> {
    match name_at(ts, pos) {
        (Ok(name), p1) => match expect_at(ts, p1, "="@) {
            (Ok(_), p2) => match text_at(ts, p2) {
                (Ok(value), p3) => (Ok(ParamView { name, value }), p3),
                (Err(e), p3) => (Err(e), p3),
            },
            (Err(e), p2) => (Err(e), p2),
        },
        (Err(e), p1) => (Err(e), p1),
    }
}

impl<'a> SpiceLineParser<'a> {
    /// Parses a parameter whose value is a `Text`.
    pub fn parse_param_text(&mut self) -> (r: ParseResult<Param<Text>>)
        ensures
            parsed(*old(self), *final(self), r, param_text_at(old(self).tokens(), old(self).cursor())),
            r is Ok ==> old(self).position < final(self).position <= old(self).vec.len(),
    {
        reveal(param_text_at);
        let name = self.parse_name()?;
        self.expect("=")?;
        let value = self.parse_text()?;
        Ok(Param { name, value })
    }
}

impl TryParse<Param<Text>> for SpiceLineParser<'_> {
    open spec fn rule(ts: Seq<AtomView>, pos: nat) -> Outcome<ParamView<AtomView>> {
        param_text_at(ts, pos)
    }

    fn try_parse(&mut self) -> (r: ParseResult<Param<Text>>) {
        self.parse_param_text()
    }
}

/// A `OutputVariable`, `=` and a `Number`.
#[verifier::opaque]
pub open spec fn variable_value_at(ts: Seq<AtomView>, pos: nat) -> Outcome<PairsView<OutputVariableView, NumberView>> {
    match output_variable_at(ts, pos) {
        (Ok(name), p1) => match expect_at(ts, p1, "="@) {
            (Ok(_), p2) => match number_at(ts, p2) {
                (Ok(value), p3) => (Ok(PairsView { name, value }), p3),
                (Err(e), p3) => (Err(e), p3),
            },
            (Err(e), p2) => (Err(e), p2),
        },
        (Err(e), p1) => (Err(e), p1),
    }
}

impl<'a> SpiceLineParser<'a> {
    /// Parses a `OutputVariable`, `=` and a `Number`.
    pub fn parse_variable_value(&mut self) -> (r: ParseResult<Pairs<OutputVariable, Number>>)
        ensures
            parsed(*old(self), *final(self), r, variable_value_at(old(self).tokens(), old(self).cursor())),
            r is Ok ==> old(self).position < final(self).position <= old(self).vec.len(),
    {
        reveal(variable_value_at);
        let name = self.parse_output_variable()?;
        self.expect("=")?;
        let value = self.parse_number()?;
        Ok(Pairs { name, value })
    }
}

impl TryParse<Pairs<OutputVariable, Number>> for SpiceLineParser<'_> {
    open spec fn rule(ts: Seq<AtomView>, pos: nat) -> Outcome<PairsView<OutputVariableView, NumberView>> {
        variable_value_at(ts, pos)
    }

    fn try_parse(&mut self) -> (r: ParseResult<Pairs<OutputVariable, Number>>) {
        self.parse_variable_value()
    }
}

/// A `Node`, `=` and a `Node`.
#[verifier::opaque]
pub open spec fn node_default_at(ts: Seq<AtomView>, pos: nat) -> Outcome<PairsView<AtomView, AtomView>> {
    match node_at(ts, pos) {
        (Ok(name), p1) => match expect_at(ts, p1, "="@) {
            (Ok(_), p2) => match node_at(ts, p2) {
                (Ok(value), p3) => (Ok(PairsView { name, value }), p3),
                (Err(e), p3) => (Err(e), p3),
            },
            (Err(e), p2) => (Err(e), p2),
        },
        (Err(e), p1) => (Err(e), p1),
    }
}

impl<'a> SpiceLineParser<'a> {
    /// Parses a `Node`, `=` and a `Node`.
    pub fn parse_node_default(&mut self) -> (r: ParseResult<Pairs<Node, Node>>)
        ensures
            parsed(*old(self), *final(self), r, node_default_at(old(self).tokens(), old(self).cursor())),
            r is Ok ==> old(self).position < final(self).position <= old(self).vec.len(),
    {
        reveal(node_default_at);
        let name = self.parse_node()?;
        self.expect("=")?;
        let value = self.parse_node()?;
        Ok(Pairs { name, value })
    }
}

impl TryParse<Pairs<Node, Node>> for SpiceLineParser<'_> {
    open spec fn rule(ts: Seq<AtomView>, pos: nat) -> Outcome<PairsView<AtomView, AtomView>> {
        node_default_at(ts, pos)
    }

    fn try_parse(&mut self) -> (r: ParseResult<Pairs<Node, Node>>) {
        self.parse_node_default()
    }
}

/// `<name>` or `<name> = <value>`
#[derive(Debug, Clone, PartialEq)]
pub struct Options<T> {
    pub name: Name,
    pub value: Option<T>,
}

/// Mathematical content of an [`Options`].
pub struct OptionsView<V> {
    pub name: AtomView,
    pub value: Option<V>,
}

impl<T: DeepView> DeepView for Options<T> {
    type V = OptionsView<T::V>;

    open spec fn deep_view(&self) -> OptionsView<T::V> {
        OptionsView { name: self.name.deep_view(), value: self.value.deep_view() }
    }
}

/// An option: a name, and a number after `=` if one follows.
#[verifier::opaque]
pub open spec fn option_number_at(ts: Seq<AtomView>, pos: nat) -> Outcome<OptionsView<NumberView>> {
    match name_at(ts, pos) {
        (Ok(name), p1) => if matches_at(ts, p1, "="@) {
            match number_at(ts, p1 + 1) {
                (Ok(value), p2) => (Ok(OptionsView { name, value: Some(value) }), p2),
                (Err(e), p2) => (Err(e), p2),
            }
        } else {
            (Ok(OptionsView { name, value: None }), p1)
        },
        (Err(e), p1) => (Err(e), p1),
    }
}

impl<'a> SpiceLineParser<'a> {
    /// Parses an option whose value is a number.
    pub fn parse_option_number(&mut self) -> (r: ParseResult<Options<Number>>)
        ensures
            parsed(*old(self), *final(self), r, option_number_at(old(self).tokens(), old(self).cursor())),
            r is Ok ==> old(self).position < final(self).position <= old(self).vec.len(),
    {
        reveal(option_number_at);
        let name = self.parse_name()?;
        if self.matches_consume("=") {
            let value = Some(self.parse_number()?);
            Ok(Options { name, value })
        } else {
            Ok(Options { name, value: None })
        }
    }
}

/// A value that may stand within parentheses.
#[derive(Debug, Clone, PartialEq)]
pub struct OptionParenthesis<T>(pub T);

impl<T: DeepView> DeepView for OptionParenthesis<T> {
    type V = T::V;

    open spec fn deep_view(&self) -> T::V {
        self.0.deep_view()
    }
}

impl TryParse<Options<Number>> for SpiceLineParser<'_> {
    open spec fn rule(ts: Seq<AtomView>, pos: nat) -> Outcome<OptionsView<NumberView>> {
        option_number_at(ts, pos)
    }

    fn try_parse(&mut self) -> (r: ParseResult<Options<Number>>) {
        self.parse_option_number()
    }
}

/// `(Number, Number)`, within parentheses or without.
#[verifier::opaque]
pub open spec fn grouped_number_pair_at(ts: Seq<AtomView>, pos: nat) -> Outcome<(NumberView, NumberView)> {
    if matches_at(ts, pos, "("@) {
        match number_pair_at(ts, pos + 1) {
            (Ok(v), p1) => match expect_at(ts, p1, ")"@) {
                (Ok(_), p2) => (Ok(v), p2),
                (Err(e), p2) => (Err(e), p2),
            },
            (Err(e), p1) => (Err(e), p1),
        }
    } else {
        number_pair_at(ts, pos)
    }
}

impl<'a> SpiceLineParser<'a> {
    /// Parses `(Number, Number)`, within parentheses or without.
    pub fn parse_grouped_number_pair(&mut self) -> (r: ParseResult<OptionParenthesis<(Number, Number)>>)
        ensures
            parsed(*old(self), *final(self), r, grouped_number_pair_at(old(self).tokens(), old(self).cursor())),
            r is Ok ==> old(self).position < final(self).position <= old(self).vec.len(),
    {
        reveal(grouped_number_pair_at);
        if self.matches_consume("(") {
            let inner = self.parse_number_pair()?;
            self.expect(")")?;
            Ok(OptionParenthesis(inner))
        } else {
            Ok(OptionParenthesis(self.parse_number_pair()?))
        }
    }
}

impl TryParse<OptionParenthesis<(Number, Number)>> for SpiceLineParser<'_> {
    open spec fn rule(ts: Seq<AtomView>, pos: nat) -> Outcome<(NumberView, NumberView)> {
        grouped_number_pair_at(ts, pos)
    }

    fn try_parse(&mut self) -> (r: ParseResult<OptionParenthesis<(Number, Number)>>) {
        self.parse_grouped_number_pair()
    }
}

/// `(Number, Number, Number)`, within parentheses or without.
#[verifier::opaque]
pub open spec fn grouped_number_triple_at(ts: Seq<AtomView>, pos: nat) -> Outcome<(NumberView, NumberView, NumberView)> {
    if matches_at(ts, pos, "("@) {
        match number_triple_at(ts, pos + 1) {
            (Ok(v), p1) => match expect_at(ts, p1, ")"@) {
                (Ok(_), p2) => (Ok(v), p2),
                (Err(e), p2) => (Err(e), p2),
            },
            (Err(e), p1) => (Err(e), p1),
        }
    } else {
        number_triple_at(ts, pos)
    }
}

impl<'a> SpiceLineParser<'a> {
    /// Parses `(Number, Number, Number)`, within parentheses or without.
    pub fn parse_grouped_number_triple(&mut self) -> (r: ParseResult<OptionParenthesis<(Number, Number, Number)>>)
        ensures
            parsed(*old(self), *final(self), r, grouped_number_triple_at(old(self).tokens(), old(self).cursor())),
            r is Ok ==> old(self).position < final(self).position <= old(self).vec.len(),
    {
        reveal(grouped_number_triple_at);
        if self.matches_consume("(") {
            let inner = self.parse_number_triple()?;
            self.expect(")")?;
            Ok(OptionParenthesis(inner))
        } else {
            Ok(OptionParenthesis(self.parse_number_triple()?))
        }
    }
}

impl TryParse<OptionParenthesis<(Number, Number, Number)>> for SpiceLineParser<'_> {
    open spec fn rule(ts: Seq<AtomView>, pos: nat) -> Outcome<(NumberView, NumberView, NumberView)> {
        grouped_number_triple_at(ts, pos)
    }

    fn try_parse(&mut self) -> (r: ParseResult<OptionParenthesis<(Number, Number, Number)>>) {
        self.parse_grouped_number_triple()
    }
}

/// `(<lower>, <upper>)`
#[derive(Debug, Clone, PartialEq)]
pub struct Limits {
    pub lower: Number,
    pub upper: Number,
}

/// Mathematical content of a [`Limits`].
pub struct LimitsView {
    pub lower: NumberView,
    pub upper: NumberView,
}

impl DeepView for Limits {
    type V = LimitsView;

    open spec fn deep_view(&self) -> LimitsView {
        LimitsView {
            lower: self.lower.deep_view(),
            upper: self.upper.deep_view(),
        }
    }
}

/// The rule of [`Limits`].
#[verifier::opaque]
pub open spec fn limits_at(ts: Seq<AtomView>, pos: nat) -> Outcome<LimitsView> {
    match expect_at(ts, pos, "("@) {
        (Ok(_), p1) => {
            match number_at(ts, p1) {
                (Ok(lower), p2) => {
                    match number_at(ts, p2) {
                        (Ok(upper), p3) => {
                            match expect_at(ts, p3, ")"@) {
                                (Ok(_), p4) => {
                                    (Ok(LimitsView { lower, upper }), p4)
                                },
                                (Err(e), p4) => (Err(e), p4),
                            }
                        },
                        (Err(e), p3) => (Err(e), p3),
                    }
                },
                (Err(e), p2) => (Err(e), p2),
            }
        },
        (Err(e), p1) => (Err(e), p1),
    }
}

impl<'a> SpiceLineParser<'a> {
    /// Parses a [`Limits`].
    pub fn parse_limits(&mut self) -> (r: ParseResult<Limits>)
        ensures
            parsed(*old(self), *final(self), r, limits_at(old(self).tokens(), old(self).cursor())),
            r is Ok ==> old(self).position < final(self).position <= old(self).vec.len(),
    {
        reveal(limits_at);
        self.expect("(")?;
        let lower = self.parse_number()?;
        let upper = self.parse_number()?;
        self.expect(")")?;
        Ok(Limits { lower, upper })
    }
}

impl TryParse<Limits> for SpiceLineParser<'_> {
    open spec fn rule(ts: Seq<AtomView>, pos: nat) -> Outcome<LimitsView> {
        limits_at(ts, pos)
    }

    fn try_parse(&mut self) -> (r: ParseResult<Limits>) {
        self.parse_limits()
    }
}

/// An optional `Limits`: the value where the rule accepts, and otherwise
/// nothing, with the cursor where it was.
#[verifier::opaque]
pub open spec fn optional_limits_at(ts: Seq<AtomView>, pos: nat) -> Outcome<Option<LimitsView>> {
    optional_of(limits_at(ts, pos), pos)
}

impl<'a> SpiceLineParser<'a> {
    /// Parses an optional `Limits`.
    pub fn parse_optional_limits(&mut self) -> (r: ParseResult<Option<Limits>>)
        ensures
            parsed(*old(self), *final(self), r, optional_limits_at(old(self).tokens(), old(self).cursor())),
            r is Ok,
            r is Ok && old(self).position <= old(self).vec.len() ==> final(self).position <= old(self).vec.len(),
    {
        reveal(optional_limits_at);
        self.parse_optional::<Limits>()
    }
}

impl TryParse<Option<Limits>> for SpiceLineParser<'_> {
    open spec fn rule(ts: Seq<AtomView>, pos: nat) -> Outcome<Option<LimitsView>> {
        optional_limits_at(ts, pos)
    }

    fn try_parse(&mut self) -> (r: ParseResult<Option<Limits>>) {
        self.parse_optional_limits()
    }
}

/// A variable to report, and the limits of its plot.
#[derive(Debug, Clone, PartialEq)]
pub struct PrintVariable {
    pub variable: OutputVariable,
    pub limits: Option<Limits>,
}

/// Mathematical content of a [`PrintVariable`].
pub struct PrintVariableView {
    pub variable: OutputVariableView,
    pub limits: Option<LimitsView>,
}

impl DeepView for PrintVariable {
    type V = PrintVariableView;

    open spec fn deep_view(&self) -> PrintVariableView {
        PrintVariableView {
            variable: self.variable.deep_view(),
            limits: self.limits.deep_view(),
        }
    }
}

/// The rule of [`PrintVariable`].
#[verifier::opaque]
pub open spec fn print_variable_at(ts: Seq<AtomView>, pos: nat) -> Outcome<PrintVariableView> {
    match output_variable_at(ts, pos) {
        (Ok(variable), p1) => {
            match optional_limits_at(ts, p1) {
                (Ok(limits), p2) => {
                    (Ok(PrintVariableView { variable, limits }), p2)
                },
                (Err(e), p2) => (Err(e), p2),
            }
        },
        (Err(e), p1) => (Err(e), p1),
    }
}

impl<'a> SpiceLineParser<'a> {
    /// Parses a [`PrintVariable`].
    pub fn parse_print_variable(&mut self) -> (r: ParseResult<PrintVariable>)
        ensures
            parsed(*old(self), *final(self), r, print_variable_at(old(self).tokens(), old(self).cursor())),
            r is Ok ==> old(self).position < final(self).position <= old(self).vec.len(),
    {
        reveal(print_variable_at);
        let variable = self.parse_output_variable()?;
        let limits = self.parse_optional_limits()?;
        Ok(PrintVariable { variable, limits })
    }
}

impl TryParse<PrintVariable> for SpiceLineParser<'_> {
    open spec fn rule(ts: Seq<AtomView>, pos: nat) -> Outcome<PrintVariableView> {
        print_variable_at(ts, pos)
    }

    fn try_parse(&mut self) -> (r: ParseResult<PrintVariable>) {
        self.parse_print_variable()
    }
}

/// A list of `Number`: the rule is repeated for as long as it accepts.
#[verifier::opaque]
pub open spec fn number_list_at(ts: Seq<AtomView>, pos: nat) -> Outcome<Seq<NumberView>> {
    list_of::<Number, SpiceLineParser>(ts, pos)
}

impl<'a> SpiceLineParser<'a> {
    /// Parses a list of `Number`.
    pub fn parse_number_list(&mut self) -> (r: ParseResult<Vec<Number>>)
        ensures
            parsed(*old(self), *final(self), r, number_list_at(old(self).tokens(), old(self).cursor())),
            r is Ok,
            r is Ok && old(self).position <= old(self).vec.len() ==> final(self).position <= old(self).vec.len(),
    {
        reveal(number_list_at);
        self.parse_list::<Number>()
    }
}

impl TryParse<Vec<Number>> for SpiceLineParser<'_> {
    open spec fn rule(ts: Seq<AtomView>, pos: nat) -> Outcome<Seq<NumberView>> {
        number_list_at(ts, pos)
    }

    fn try_parse(&mut self) -> (r: ParseResult<Vec<Number>>) {
        self.parse_number_list()
    }
}

/// A list of `Name`: the rule is repeated for as long as it accepts.
#[verifier::opaque]
pub open spec fn name_list_at(ts: Seq<AtomView>, pos: nat) -> Outcome<Seq<AtomView>> {
    list_of::<Name, SpiceLineParser>(ts, pos)
}

impl<'a> SpiceLineParser<'a> {
    /// Parses a list of `Name`.
    pub fn parse_name_list(&mut self) -> (r: ParseResult<Vec<Name>>)
        ensures
            parsed(*old(self), *final(self), r, name_list_at(old(self).tokens(), old(self).cursor())),
            r is Ok,
            r is Ok && old(self).position <= old(self).vec.len() ==> final(self).position <= old(self).vec.len(),
    {
        reveal(name_list_at);
        self.parse_list::<Name>()
    }
}

impl TryParse<Vec<Name>> for SpiceLineParser<'_> {
    open spec fn rule(ts: Seq<AtomView>, pos: nat) -> Outcome<Seq<AtomView>> {
        name_list_at(ts, pos)
    }

    fn try_parse(&mut self) -> (r: ParseResult<Vec<Name>>) {
        self.parse_name_list()
    }
}

/// A list of `Node`: the rule is repeated for as long as it accepts.
#[verifier::opaque]
pub open spec fn node_list_at(ts: Seq<AtomView>, pos: nat) -> Outcome<Seq<AtomView>> {
    list_of::<Node, SpiceLineParser>(ts, pos)
}

impl<'a> SpiceLineParser<'a> {
    /// Parses a list of `Node`.
    pub fn parse_node_list(&mut self) -> (r: ParseResult<Vec<Node>>)
        ensures
            parsed(*old(self), *final(self), r, node_list_at(old(self).tokens(), old(self).cursor())),
            r is Ok,
            r is Ok && old(self).position <= old(self).vec.len() ==> final(self).position <= old(self).vec.len(),
    {
        reveal(node_list_at);
        self.parse_list::<Node>()
    }
}

impl TryParse<Vec<Node>> for SpiceLineParser<'_> {
    open spec fn rule(ts: Seq<AtomView>, pos: nat) -> Outcome<Seq<AtomView>> {
        node_list_at(ts, pos)
    }

    fn try_parse(&mut self) -> (r: ParseResult<Vec<Node>>) {
        self.parse_node_list()
    }
}

/// A list of `OutputVariable`: the rule is repeated for as long as it accepts.
#[verifier::opaque]
pub open spec fn output_variable_list_at(ts: Seq<AtomView>, pos: nat) -> Outcome<Seq<OutputVariableView>> {
    list_of::<OutputVariable, SpiceLineParser>(ts, pos)
}

impl<'a> SpiceLineParser<'a> {
    /// Parses a list of `OutputVariable`.
    pub fn parse_output_variable_list(&mut self) -> (r: ParseResult<Vec<OutputVariable>>)
        ensures
            parsed(*old(self), *final(self), r, output_variable_list_at(old(self).tokens(), old(self).cursor())),
            r is Ok,
            r is Ok && old(self).position <= old(self).vec.len() ==> final(self).position <= old(self).vec.len(),
    {
        reveal(output_variable_list_at);
        self.parse_list::<OutputVariable>()
    }
}

impl TryParse<Vec<OutputVariable>> for SpiceLineParser<'_> {
    open spec fn rule(ts: Seq<AtomView>, pos: nat) -> Outcome<Seq<OutputVariableView>> {
        output_variable_list_at(ts, pos)
    }

    fn try_parse(&mut self) -> (r: ParseResult<Vec<OutputVariable>>) {
        self.parse_output_variable_list()
    }
}

/// A list of `PrintVariable`: the rule is repeated for as long as it accepts.
#[verifier::opaque]
pub open spec fn print_variable_list_at(ts: Seq<AtomView>, pos: nat) -> Outcome<Seq<PrintVariableView>> {
    list_of::<PrintVariable, SpiceLineParser>(ts, pos)
}

impl<'a> SpiceLineParser<'a> {
    /// Parses a list of `PrintVariable`.
    pub fn parse_print_variable_list(&mut self) -> (r: ParseResult<Vec<PrintVariable>>)
        ensures
            parsed(*old(self), *final(self), r, print_variable_list_at(old(self).tokens(), old(self).cursor())),
            r is Ok,
            r is Ok && old(self).position <= old(self).vec.len() ==> final(self).position <= old(self).vec.len(),
    {
        reveal(print_variable_list_at);
        self.parse_list::<PrintVariable>()
    }
}

impl TryParse<Vec<PrintVariable>> for SpiceLineParser<'_> {
    open spec fn rule(ts: Seq<AtomView>, pos: nat) -> Outcome<Seq<PrintVariableView>> {
        print_variable_list_at(ts, pos)
    }

    fn try_parse(&mut self) -> (r: ParseResult<Vec<PrintVariable>>) {
        self.parse_print_variable_list()
    }
}

/// A list of `Param<Number>`: the rule is repeated for as long as it accepts.
#[verifier::opaque]
pub open spec fn param_number_list_at(ts: Seq<AtomView>, pos: nat) -> Outcome<Seq<ParamView<NumberView>>> {
    list_of::<Param<Number>, SpiceLineParser>(ts, pos)
}

impl<'a> SpiceLineParser<'a> {
    /// Parses a list of `Param<Number>`.
    pub fn parse_param_number_list(&mut self) -> (r: ParseResult<Vec<Param<Number>>>)
        ensures
            parsed(*old(self), *final(self), r, param_number_list_at(old(self).tokens(), old(self).cursor())),
            r is Ok,
            r is Ok && old(self).position <= old(self).vec.len() ==> final(self).position <= old(self).vec.len(),
    {
        reveal(param_number_list_at);
        self.parse_list::<Param<Number>>()
    }
}

impl TryParse<Vec<Param<Number>>> for SpiceLineParser<'_> {
    open spec fn rule(ts: Seq<AtomView>, pos: nat) -> Outcome<Seq<ParamView<NumberView>>> {
        param_number_list_at(ts, pos)
    }

    fn try_parse(&mut self) -> (r: ParseResult<Vec<Param<Number>>>) {
        self.parse_param_number_list()
    }
}

/// A list of `Param<Text>`: the rule is repeated for as long as it accepts.
#[verifier::opaque]
pub open spec fn param_text_list_at(ts: Seq<AtomView>, pos: nat) -> Outcome<Seq<ParamView<AtomView>>> {
    list_of::<Param<Text>, SpiceLineParser>(ts, pos)
}

impl<'a> SpiceLineParser<'a> {
    /// Parses a list of `Param<Text>`.
    pub fn parse_param_text_list(&mut self) -> (r: ParseResult<Vec<Param<Text>>>)
        ensures
            parsed(*old(self), *final(self), r, param_text_list_at(old(self).tokens(), old(self).cursor())),
            r is Ok,
            r is Ok && old(self).position <= old(self).vec.len() ==> final(self).position <= old(self).vec.len(),
    {
        reveal(param_text_list_at);
        self.parse_list::<Param<Text>>()
    }
}

impl TryParse<Vec<Param<Text>>> for SpiceLineParser<'_> {
    open spec fn rule(ts: Seq<AtomView>, pos: nat) -> Outcome<Seq<ParamView<AtomView>>> {
        param_text_list_at(ts, pos)
    }

    fn try_parse(&mut self) -> (r: ParseResult<Vec<Param<Text>>>) {
        self.parse_param_text_list()
    }
}

/// A list of `Pairs<OutputVariable, Number>`: the rule is repeated for as long as it accepts.
#[verifier::opaque]
pub open spec fn variable_value_list_at(ts: Seq<AtomView>, pos: nat) -> Outcome<Seq<PairsView<OutputVariableView, NumberView>>> {
    list_of::<Pairs<OutputVariable, Number>, SpiceLineParser>(ts, pos)
}

impl<'a> SpiceLineParser<'a> {
    /// Parses a list of `Pairs<OutputVariable, Number>`.
    pub fn parse_variable_value_list(&mut self) -> (r: ParseResult<Vec<Pairs<OutputVariable, Number>>>)
        ensures
            parsed(*old(self), *final(self), r, variable_value_list_at(old(self).tokens(), old(self).cursor())),
            r is Ok,
            r is Ok && old(self).position <= old(self).vec.len() ==> final(self).position <= old(self).vec.len(),
    {
        reveal(variable_value_list_at);
        self.parse_list::<Pairs<OutputVariable, Number>>()
    }
}

impl TryParse<Vec<Pairs<OutputVariable, Number>>> for SpiceLineParser<'_> {
    open spec fn rule(ts: Seq<AtomView>, pos: nat) -> Outcome<
        Seq<PairsView<OutputVariableView, NumberView>>,
    > {
        variable_value_list_at(ts, pos)
    }

    fn try_parse(&mut self) -> (r: ParseResult<Vec<Pairs<OutputVariable, Number>>>) {
        self.parse_variable_value_list()
    }
}

/// A list of `Pairs<Node, Node>`: the rule is repeated for as long as it accepts.
#[verifier::opaque]
pub open spec fn node_default_list_at(ts: Seq<AtomView>, pos: nat) -> Outcome<Seq<PairsView<AtomView, AtomView>>> {
    list_of::<Pairs<Node, Node>, SpiceLineParser>(ts, pos)
}

impl<'a> SpiceLineParser<'a> {
    /// Parses a list of `Pairs<Node, Node>`.
    pub fn parse_node_default_list(&mut self) -> (r: ParseResult<Vec<Pairs<Node, Node>>>)
        ensures
            parsed(*old(self), *final(self), r, node_default_list_at(old(self).tokens(), old(self).cursor())),
            r is Ok,
            r is Ok && old(self).position <= old(self).vec.len() ==> final(self).position <= old(self).vec.len(),
    {
        reveal(node_default_list_at);
        self.parse_list::<Pairs<Node, Node>>()
    }
}

impl TryParse<Vec<Pairs<Node, Node>>> for SpiceLineParser<'_> {
    open spec fn rule(ts: Seq<AtomView>, pos: nat) -> Outcome<Seq<PairsView<AtomView, AtomView>>> {
        node_default_list_at(ts, pos)
    }

    fn try_parse(&mut self) -> (r: ParseResult<Vec<Pairs<Node, Node>>>) {
        self.parse_node_default_list()
    }
}

/// A list of `Options<Number>`: the rule is repeated for as long as it accepts.
#[verifier::opaque]
pub open spec fn option_number_list_at(ts: Seq<AtomView>, pos: nat) -> Outcome<Seq<OptionsView<NumberView>>> {
    list_of::<Options<Number>, SpiceLineParser>(ts, pos)
}

impl<'a> SpiceLineParser<'a> {
    /// Parses a list of `Options<Number>`.
    pub fn parse_option_number_list(&mut self) -> (r: ParseResult<Vec<Options<Number>>>)
        ensures
            parsed(*old(self), *final(self), r, option_number_list_at(old(self).tokens(), old(self).cursor())),
            r is Ok,
            r is Ok && old(self).position <= old(self).vec.len() ==> final(self).position <= old(self).vec.len(),
    {
        reveal(option_number_list_at);
        self.parse_list::<Options<Number>>()
    }
}

impl TryParse<Vec<Options<Number>>> for SpiceLineParser<'_> {
    open spec fn rule(ts: Seq<AtomView>, pos: nat) -> Outcome<Seq<OptionsView<NumberView>>> {
        option_number_list_at(ts, pos)
    }

    fn try_parse(&mut self) -> (r: ParseResult<Vec<Options<Number>>>) {
        self.parse_option_number_list()
    }
}

/// A list of `(Number, Number)`: the rule is repeated for as long as it accepts.
#[verifier::opaque]
pub open spec fn number_pair_list_at(ts: Seq<AtomView>, pos: nat) -> Outcome<Seq<(NumberView, NumberView)>> {
    list_of::<(Number, Number), SpiceLineParser>(ts, pos)
}

impl<'a> SpiceLineParser<'a> {
    /// Parses a list of `(Number, Number)`.
    pub fn parse_number_pair_list(&mut self) -> (r: ParseResult<Vec<(Number, Number)>>)
        ensures
            parsed(*old(self), *final(self), r, number_pair_list_at(old(self).tokens(), old(self).cursor())),
            r is Ok,
            r is Ok && old(self).position <= old(self).vec.len() ==> final(self).position <= old(self).vec.len(),
    {
        reveal(number_pair_list_at);
        self.parse_list::<(Number, Number)>()
    }
}

impl TryParse<Vec<(Number, Number)>> for SpiceLineParser<'_> {
    open spec fn rule(ts: Seq<AtomView>, pos: nat) -> Outcome<Seq<(NumberView, NumberView)>> {
        number_pair_list_at(ts, pos)
    }

    fn try_parse(&mut self) -> (r: ParseResult<Vec<(Number, Number)>>) {
        self.parse_number_pair_list()
    }
}

/// A list of `OptionParenthesis<(Number, Number)>`: the rule is repeated for as long as it accepts.
#[verifier::opaque]
pub open spec fn grouped_number_pair_list_at(ts: Seq<AtomView>, pos: nat) -> Outcome<Seq<(NumberView, NumberView)>> {
    list_of::<OptionParenthesis<(Number, Number)>, SpiceLineParser>(ts, pos)
}

impl<'a> SpiceLineParser<'a> {
    /// Parses a list of `OptionParenthesis<(Number, Number)>`.
    pub fn parse_grouped_number_pair_list(&mut self) -> (r: ParseResult<Vec<OptionParenthesis<(Number, Number)>>>)
        ensures
            parsed(*old(self), *final(self), r, grouped_number_pair_list_at(old(self).tokens(), old(self).cursor())),
            r is Ok,
            r is Ok && old(self).position <= old(self).vec.len() ==> final(self).position <= old(self).vec.len(),
    {
        reveal(grouped_number_pair_list_at);
        self.parse_list::<OptionParenthesis<(Number, Number)>>()
    }
}

impl TryParse<Vec<OptionParenthesis<(Number, Number)>>> for SpiceLineParser<'_> {
    open spec fn rule(ts: Seq<AtomView>, pos: nat) -> Outcome<Seq<(NumberView, NumberView)>> {
        grouped_number_pair_list_at(ts, pos)
    }

    fn try_parse(&mut self) -> (r: ParseResult<Vec<OptionParenthesis<(Number, Number)>>>) {
        self.parse_grouped_number_pair_list()
    }
}

/// A list of `OptionParenthesis<(Number, Number, Number)>`: the rule is repeated for as long as it accepts.
#[verifier::opaque]
pub open spec fn grouped_number_triple_list_at(ts: Seq<AtomView>, pos: nat) -> Outcome<Seq<(NumberView, NumberView, NumberView)>> {
    list_of::<OptionParenthesis<(Number, Number, Number)>, SpiceLineParser>(ts, pos)
}

impl<'a> SpiceLineParser<'a> {
    /// Parses a list of `OptionParenthesis<(Number, Number, Number)>`.
    pub fn parse_grouped_number_triple_list(&mut self) -> (r: ParseResult<Vec<OptionParenthesis<(Number, Number, Number)>>>)
        ensures
            parsed(*old(self), *final(self), r, grouped_number_triple_list_at(old(self).tokens(), old(self).cursor())),
            r is Ok,
            r is Ok && old(self).position <= old(self).vec.len() ==> final(self).position <= old(self).vec.len(),
    {
        reveal(grouped_number_triple_list_at);
        self.parse_list::<OptionParenthesis<(Number, Number, Number)>>()
    }
}

impl TryParse<Vec<OptionParenthesis<(Number, Number, Number)>>> for SpiceLineParser<'_> {
    open spec fn rule(ts: Seq<AtomView>, pos: nat) -> Outcome<
        Seq<(NumberView, NumberView, NumberView)>,
    > {
        grouped_number_triple_list_at(ts, pos)
    }

    fn try_parse(&mut self) -> (r: ParseResult<Vec<OptionParenthesis<(Number, Number, Number)>>>) {
        self.parse_grouped_number_triple_list()
    }
}

} // verus!
