//! Numbers and expressions.
//!
//! ```plain
//! <factor1> ::= ( <expr> ) | <ident> | <ident> ( <expr> ... ) | <literal>
//! <factor2> ::= <factor1> | + <factor2> | - <factor2> | ~ <factor2>
//! <factor3> ::= <factor2> | <factor2> ** <factor3>
//! <factor4> ::= <factor3> | <factor4> * <factor3> | <factor4> / <factor3>
//! <factor5> ::= <factor4> | <factor5> + <factor4> | <factor5> - <factor4>
//! <factor6> ::= <factor5> | <factor6> & <factor5>
//! <factor7> ::= <factor6> | <factor7> ^ <factor6>
//! <factor8> ::= <factor7> | <factor8> | <factor7>
//! <factor9> ::= <factor8> | <factor8> (>= | <= | > | <) <factor8>
//! <factor10> ::= <factor9> | <factor9> (== | !=) <factor9>
//! <factor11> ::= <factor10> | <factor10> ? <factor11> : <factor11>
//! <expr> ::= <factor11>
//! ```
//!
//! Power associates to the right; the other binary operators associate to
//! the left.

use crate::ast::{is_quoted, name_at, Atom, AtomView, Name};
use crate::parse::{
    eof_error, exhausted, expect_at, forward, matches_at, parsed, quoting_error, tokens_left,
    unexpected_error, unreal, Outcome, ParseError, ParseResult, SpiceLineParser, TryParse,
};
use crate::value::{split_number, Suffix, SuffixNumberParser};
use vstd::prelude::*;
use vstd::std_specs::convert::FromSpecImpl;

verus! {

/// A numeric literal as written: the text of its floating-point number in
/// lower case, its scaling suffix, and whether a `-` stood before it. Its
/// value is the number times the suffix's factor, negated if `negative`.
#[derive(Debug, PartialEq)]
pub struct Literal {
    pub negative: bool,
    pub number: String,
    pub suffix: Option<Suffix>,
}

/// Mathematical content of a [`Literal`].
pub struct LiteralView {
    pub negative: bool,
    pub number: Seq<char>,
    pub suffix: Option<Suffix>,
}

impl DeepView for Literal {
    type V = LiteralView;

    open spec fn deep_view(&self) -> LiteralView {
        LiteralView { negative: self.negative, number: self.number@, suffix: self.suffix }
    }
}

impl Clone for Literal {
    fn clone(&self) -> (r: Self)
        ensures
            r == *self,
    {
        Literal { negative: self.negative, number: self.number.clone(), suffix: self.suffix }
    }
}

/// An identifier `<ident>`.
#[derive(Debug, PartialEq)]
pub struct Ident(pub Name);

impl DeepView for Ident {
    type V = AtomView;

    open spec fn deep_view(&self) -> AtomView {
        self.0.deep_view()
    }
}

impl Clone for Ident {
    fn clone(&self) -> (r: Self)
        ensures
            r == *self,
    {
        Ident(self.0.clone())
    }
}

/// A quoted string, quotes included.
#[derive(Debug, PartialEq)]
pub struct Text(pub Atom);

impl DeepView for Text {
    type V = AtomView;

    open spec fn deep_view(&self) -> AtomView {
        self.0.deep_view()
    }
}

impl From<Atom> for Ident {
    fn from(name: Atom) -> (r: Self) {
        Ident(Name(name))
    }
}

impl FromSpecImpl<Atom> for Ident {
    open spec fn obeys_from_spec() -> bool {
        true
    }

    open spec fn from_spec(v: Atom) -> Self {
        Ident(Name(v))
    }
}

impl<'a> From<&'a str> for Ident {
    /// An identifier with the given text, at the start of the first line.
    fn from(value: &'a str) -> (r: Self)
        ensures
            r.deep_view() == (AtomView { raw: value@, column: (0, 0), line: 0 }),
    {
        Ident(Name(Atom::from(value)))
    }
}

impl<'a> FromSpecImpl<&'a str> for Ident {
    open spec fn obeys_from_spec() -> bool {
        false
    }

    open spec fn from_spec(v: &'a str) -> Self {
        arbitrary()
    }
}

impl Clone for Text {
    fn clone(&self) -> (r: Self)
        ensures
            r == *self,
    {
        Text(self.0.clone())
    }
}

/// `( <expr> )`, `<ident>`, `<ident> ( <expr> ... )` or `<literal>`.
#[derive(Debug, PartialEq)]
pub enum Factor1 {
    Parenthesis(Box<Expr>),
    Ident(Ident),
    Call { name: Ident, args: Vec<Expr> },
    Literal(Literal),
}

/// A `<factor1>` under any number of the signs `+`, `-` and `~`.
#[derive(Debug, PartialEq)]
pub enum Factor2 {
    Base(Factor1),
    Pos(Box<Factor2>),
    Neg(Box<Factor2>),
    Not(Box<Factor2>),
}

/// Power: `<factor2> ** <factor3>`.
#[derive(Debug, PartialEq)]
pub enum Factor3 {
    Base(Factor2),
    Pow(Box<Factor2>, Box<Factor3>),
}

/// Products and quotients.
#[derive(Debug, PartialEq)]
pub enum Factor4 {
    Base(Factor3),
    Mul(Box<Factor4>, Box<Factor3>),
    Div(Box<Factor4>, Box<Factor3>),
}

/// Sums and differences.
#[derive(Debug, PartialEq)]
pub enum Factor5 {
    Base(Factor4),
    Add(Box<Factor5>, Box<Factor4>),
    Sub(Box<Factor5>, Box<Factor4>),
}

/// Bitwise and.
#[derive(Debug, PartialEq)]
pub enum Factor6 {
    Base(Factor5),
    And(Box<Factor6>, Box<Factor5>),
}

/// Bitwise exclusive or.
#[derive(Debug, PartialEq)]
pub enum Factor7 {
    Base(Factor6),
    Xor(Box<Factor7>, Box<Factor6>),
}

/// Bitwise or.
#[derive(Debug, PartialEq)]
pub enum Factor8 {
    Or(Box<Factor8>, Box<Factor7>),
    Base(Factor7),
}

/// Comparisons.
#[derive(Debug, PartialEq)]
pub enum Factor9 {
    Base(Factor8),
    Ge(Box<Factor8>, Box<Factor8>),
    Le(Box<Factor8>, Box<Factor8>),
    Gt(Box<Factor8>, Box<Factor8>),
    Lt(Box<Factor8>, Box<Factor8>),
}

/// Equality and inequality.
#[derive(Debug, PartialEq)]
pub enum Factor10 {
    Base(Factor9),
    Eq(Box<Factor9>, Box<Factor9>),
    Neq(Box<Factor9>, Box<Factor9>),
}

/// The conditional `<factor10> ? <factor11> : <factor11>`.
#[derive(Debug, PartialEq)]
pub enum Factor11 {
    Ternary { cond: Box<Factor10>, then_branch: Box<Factor11>, else_branch: Box<Factor11> },
    Base(Factor10),
}

/// An expression.
#[derive(Debug, PartialEq)]
pub struct Expr(pub Factor11);

/// A number: a literal, or an expression within braces.
///
/// - `1.0`
/// - `{ <expression> }`
#[derive(Debug, PartialEq)]
pub enum Number {
    Literal(Literal),
    Expr(Expr),
}

/// Mathematical content of a [`Factor1`].
pub enum Factor1View {
    Parenthesis(Box<ExprView>),
    Ident(AtomView),
    Call { name: AtomView, args: Seq<ExprView> },
    Literal(LiteralView),
}

/// Mathematical content of a [`Factor2`].
pub enum Factor2View {
    Base(Factor1View),
    Pos(Box<Factor2View>),
    Neg(Box<Factor2View>),
    Not(Box<Factor2View>),
}

/// Mathematical content of a [`Factor3`].
pub enum Factor3View {
    Base(Factor2View),
    Pow(Box<Factor2View>, Box<Factor3View>),
}

/// Mathematical content of a [`Factor4`].
pub enum Factor4View {
    Base(Factor3View),
    Mul(Box<Factor4View>, Box<Factor3View>),
    Div(Box<Factor4View>, Box<Factor3View>),
}

/// Mathematical content of a [`Factor5`].
pub enum Factor5View {
    Base(Factor4View),
    Add(Box<Factor5View>, Box<Factor4View>),
    Sub(Box<Factor5View>, Box<Factor4View>),
}

/// Mathematical content of a [`Factor6`].
pub enum Factor6View {
    Base(Factor5View),
    And(Box<Factor6View>, Box<Factor5View>),
}

/// Mathematical content of a [`Factor7`].
pub enum Factor7View {
    Base(Factor6View),
    Xor(Box<Factor7View>, Box<Factor6View>),
}

/// Mathematical content of a [`Factor8`].
pub enum Factor8View {
    Or(Box<Factor8View>, Box<Factor7View>),
    Base(Factor7View),
}

/// Mathematical content of a [`Factor9`].
pub enum Factor9View {
    Base(Factor8View),
    Ge(Box<Factor8View>, Box<Factor8View>),
    Le(Box<Factor8View>, Box<Factor8View>),
    Gt(Box<Factor8View>, Box<Factor8View>),
    Lt(Box<Factor8View>, Box<Factor8View>),
}

/// Mathematical content of a [`Factor10`].
pub enum Factor10View {
    Base(Factor9View),
    Eq(Box<Factor9View>, Box<Factor9View>),
    Neq(Box<Factor9View>, Box<Factor9View>),
}

/// Mathematical content of a [`Factor11`].
pub enum Factor11View {
    Ternary {
        cond: Box<Factor10View>,
        then_branch: Box<Factor11View>,
        else_branch: Box<Factor11View>,
    },
    Base(Factor10View),
}

/// Mathematical content of an [`Expr`].
pub struct ExprView(pub Factor11View);

/// Mathematical content of a [`Number`].
pub enum NumberView {
    Literal(LiteralView),
    Expr(ExprView),
}

/// The views of a sequence of expressions.
pub open spec fn exprs_view(args: Seq<Expr>) -> Seq<ExprView>
    decreases args,
{
    if unreal(args) {
        exprs_view(args)
    } else {
        Seq::new(
            args.len(),
            |i: int|
                if 0 <= i < args.len() {
                    expr_view(args[i])
                } else {
                    arbitrary()
                },
        )
    }
}

pub open spec fn factor1_view(f: Factor1) -> Factor1View
    decreases f,
{
    if unreal(f) {
        factor1_view(f)
    } else {
        match f {
            Factor1::Parenthesis(e) => Factor1View::Parenthesis(Box::new(expr_view(*e))),
            Factor1::Ident(i) => Factor1View::Ident(i.deep_view()),
            Factor1::Call { name, args } => Factor1View::Call {
                name: name.deep_view(),
                args: exprs_view(args@),
            },
            Factor1::Literal(l) => Factor1View::Literal(l.deep_view()),
        }
    }
}

pub open spec fn factor2_view(f: Factor2) -> Factor2View
    decreases f,
{
    match f {
        Factor2::Base(b) => Factor2View::Base(factor1_view(b)),
        Factor2::Pos(b) => Factor2View::Pos(Box::new(factor2_view(*b))),
        Factor2::Neg(b) => Factor2View::Neg(Box::new(factor2_view(*b))),
        Factor2::Not(b) => Factor2View::Not(Box::new(factor2_view(*b))),
    }
}

pub open spec fn factor3_view(f: Factor3) -> Factor3View
    decreases f,
{
    match f {
        Factor3::Base(b) => Factor3View::Base(factor2_view(b)),
        Factor3::Pow(l, r) => Factor3View::Pow(
            Box::new(factor2_view(*l)),
            Box::new(factor3_view(*r)),
        ),
    }
}

pub open spec fn factor4_view(f: Factor4) -> Factor4View
    decreases f,
{
    match f {
        Factor4::Base(b) => Factor4View::Base(factor3_view(b)),
        Factor4::Mul(l, r) => Factor4View::Mul(
            Box::new(factor4_view(*l)),
            Box::new(factor3_view(*r)),
        ),
        Factor4::Div(l, r) => Factor4View::Div(
            Box::new(factor4_view(*l)),
            Box::new(factor3_view(*r)),
        ),
    }
}

pub open spec fn factor5_view(f: Factor5) -> Factor5View
    decreases f,
{
    match f {
        Factor5::Base(b) => Factor5View::Base(factor4_view(b)),
        Factor5::Add(l, r) => Factor5View::Add(
            Box::new(factor5_view(*l)),
            Box::new(factor4_view(*r)),
        ),
        Factor5::Sub(l, r) => Factor5View::Sub(
            Box::new(factor5_view(*l)),
            Box::new(factor4_view(*r)),
        ),
    }
}

pub open spec fn factor6_view(f: Factor6) -> Factor6View
    decreases f,
{
    match f {
        Factor6::Base(b) => Factor6View::Base(factor5_view(b)),
        Factor6::And(l, r) => Factor6View::And(
            Box::new(factor6_view(*l)),
            Box::new(factor5_view(*r)),
        ),
    }
}

pub open spec fn factor7_view(f: Factor7) -> Factor7View
    decreases f,
{
    match f {
        Factor7::Base(b) => Factor7View::Base(factor6_view(b)),
        Factor7::Xor(l, r) => Factor7View::Xor(
            Box::new(factor7_view(*l)),
            Box::new(factor6_view(*r)),
        ),
    }
}

pub open spec fn factor8_view(f: Factor8) -> Factor8View
    decreases f,
{
    match f {
        Factor8::Base(b) => Factor8View::Base(factor7_view(b)),
        Factor8::Or(l, r) => Factor8View::Or(
            Box::new(factor8_view(*l)),
            Box::new(factor7_view(*r)),
        ),
    }
}

pub open spec fn factor9_view(f: Factor9) -> Factor9View
    decreases f,
{
    if unreal(f) {
        factor9_view(f)
    } else {
        match f {
            Factor9::Base(b) => Factor9View::Base(factor8_view(b)),
            Factor9::Ge(l, r) => Factor9View::Ge(
                Box::new(factor8_view(*l)),
                Box::new(factor8_view(*r)),
            ),
            Factor9::Le(l, r) => Factor9View::Le(
                Box::new(factor8_view(*l)),
                Box::new(factor8_view(*r)),
            ),
            Factor9::Gt(l, r) => Factor9View::Gt(
                Box::new(factor8_view(*l)),
                Box::new(factor8_view(*r)),
            ),
            Factor9::Lt(l, r) => Factor9View::Lt(
                Box::new(factor8_view(*l)),
                Box::new(factor8_view(*r)),
            ),
        }
    }
}

pub open spec fn factor10_view(f: Factor10) -> Factor10View
    decreases f,
{
    if unreal(f) {
        factor10_view(f)
    } else {
        match f {
            Factor10::Base(b) => Factor10View::Base(factor9_view(b)),
            Factor10::Eq(l, r) => Factor10View::Eq(
                Box::new(factor9_view(*l)),
                Box::new(factor9_view(*r)),
            ),
            Factor10::Neq(l, r) => Factor10View::Neq(
                Box::new(factor9_view(*l)),
                Box::new(factor9_view(*r)),
            ),
        }
    }
}

pub open spec fn factor11_view(f: Factor11) -> Factor11View
    decreases f,
{
    match f {
        Factor11::Ternary { cond, then_branch, else_branch } => Factor11View::Ternary {
            cond: Box::new(factor10_view(*cond)),
            then_branch: Box::new(factor11_view(*then_branch)),
            else_branch: Box::new(factor11_view(*else_branch)),
        },
        Factor11::Base(b) => Factor11View::Base(factor10_view(b)),
    }
}

pub open spec fn expr_view(e: Expr) -> ExprView
    decreases e,
{
    if unreal(e) {
        expr_view(e)
    } else {
        ExprView(factor11_view(e.0))
    }
}

impl DeepView for Factor1 {
    type V = Factor1View;

    open spec fn deep_view(&self) -> Factor1View {
        factor1_view(*self)
    }
}

impl DeepView for Factor2 {
    type V = Factor2View;

    open spec fn deep_view(&self) -> Factor2View {
        factor2_view(*self)
    }
}

impl DeepView for Factor3 {
    type V = Factor3View;

    open spec fn deep_view(&self) -> Factor3View {
        factor3_view(*self)
    }
}

impl DeepView for Factor4 {
    type V = Factor4View;

    open spec fn deep_view(&self) -> Factor4View {
        factor4_view(*self)
    }
}

impl DeepView for Factor5 {
    type V = Factor5View;

    open spec fn deep_view(&self) -> Factor5View {
        factor5_view(*self)
    }
}

impl DeepView for Factor6 {
    type V = Factor6View;

    open spec fn deep_view(&self) -> Factor6View {
        factor6_view(*self)
    }
}

impl DeepView for Factor7 {
    type V = Factor7View;

    open spec fn deep_view(&self) -> Factor7View {
        factor7_view(*self)
    }
}

impl DeepView for Factor8 {
    type V = Factor8View;

    open spec fn deep_view(&self) -> Factor8View {
        factor8_view(*self)
    }
}

impl DeepView for Factor9 {
    type V = Factor9View;

    open spec fn deep_view(&self) -> Factor9View {
        factor9_view(*self)
    }
}

impl DeepView for Factor10 {
    type V = Factor10View;

    open spec fn deep_view(&self) -> Factor10View {
        factor10_view(*self)
    }
}

impl DeepView for Factor11 {
    type V = Factor11View;

    open spec fn deep_view(&self) -> Factor11View {
        factor11_view(*self)
    }
}

impl DeepView for Expr {
    type V = ExprView;

    open spec fn deep_view(&self) -> ExprView {
        expr_view(*self)
    }
}

impl DeepView for Number {
    type V = NumberView;

    open spec fn deep_view(&self) -> NumberView {
        match self {
            Number::Literal(l) => NumberView::Literal(l.deep_view()),
            Number::Expr(e) => NumberView::Expr(e.deep_view()),
        }
    }
}

/// A literal, with an optional `-` before it.
#[verifier::opaque]
pub open spec fn literal_at(ts: Seq<AtomView>, pos: nat) -> Outcome<LiteralView> {
    let negative = matches_at(ts, pos, "-"@);
    let p = if negative {
        pos + 1
    } else {
        pos
    };
    if p >= ts.len() {
        (Err(eof_error()), p)
    } else {
        match split_number(ts[p as int].raw) {
            Some((number, suffix)) => (Ok(LiteralView { negative, number, suffix }), p + 1),
            None => (
                Err(unexpected_error("<string>"@, ts[p as int].raw, Some(ts[p as int].place()))),
                p,
            ),
        }
    }
}

/// A quoted string.
pub open spec fn text_at(ts: Seq<AtomView>, pos: nat) -> Outcome<AtomView> {
    if pos >= ts.len() {
        (Err(eof_error()), pos)
    } else if is_quoted(ts[pos as int].raw) {
        (Ok(ts[pos as int]), pos + 1)
    } else {
        (
            Err(
                quoting_error(
                    "Expect a string, found `"@,
                    ts[pos as int].raw,
                    "'"@,
                    Some(ts[pos as int].place()),
                ),
            ),
            pos,
        )
    }
}

/// The arguments of a call, after its `(`: expressions up to the `)`,
/// added to `acc`.
pub open spec fn call_args_at(ts: Seq<AtomView>, pos: nat, acc: Seq<ExprView>) -> Outcome<
    Seq<ExprView>,
>
    decreases tokens_left(ts, pos), 40nat,
{
    if pos >= ts.len() {
        (Err(eof_error()), pos)
    } else if matches_at(ts, pos, ")"@) {
        (Ok(acc), pos + 1)
    } else {
        match expr_at(ts, pos) {
            (Ok(e), p) => if p > pos {
                call_args_at(ts, p, acc.push(e))
            } else {
                (Err(eof_error()), p)
            },
            (Err(e), p) => (Err(e), p),
        }
    }
}

/// The call of `name` with the outcome of its arguments.
pub open spec fn call_of(name: AtomView, args: Outcome<Seq<ExprView>>) -> Outcome<Factor1View> {
    match args {
        (Ok(args), end) => (Ok(Factor1View::Call { name, args }), end),
        (Err(x), end) => (Err(x), end),
    }
}

pub open spec fn factor1_at(ts: Seq<AtomView>, pos: nat) -> Outcome<Factor1View>
    decreases tokens_left(ts, pos), 1nat,
{
    if exhausted(ts, pos) {
        factor1_at(ts, pos + 1)
    } else if matches_at(ts, pos, "("@) {
        match forward(pos + 1, expr_at(ts, pos + 1)) {
            (Ok(e), p) => match expect_at(ts, p, ")"@) {
                (Ok(_), end) => (Ok(Factor1View::Parenthesis(Box::new(e))), end),
                (Err(x), end) => (Err(x), end),
            },
            (Err(x), p) => (Err(x), p),
        }
    } else {
        match name_at(ts, pos) {
            (Ok(name), p) => if matches_at(ts, p, "("@) {
                call_of(name, call_args_at(ts, p + 1, Seq::empty()))
            } else {
                (Ok(Factor1View::Ident(name)), p)
            },
            (Err(_), _) => match literal_at(ts, pos) {
                (Ok(l), p) => (Ok(Factor1View::Literal(l)), p),
                (Err(x), p) => (Err(x), p),
            },
        }
    }
}

pub open spec fn factor2_at(ts: Seq<AtomView>, pos: nat) -> Outcome<Factor2View>
    decreases tokens_left(ts, pos), 2nat,
{
    if matches_at(ts, pos, "+"@) {
        match forward(pos + 1, factor2_at(ts, pos + 1)) {
            (Ok(f), p) => (Ok(Factor2View::Pos(Box::new(f))), p),
            (Err(x), p) => (Err(x), p),
        }
    } else if matches_at(ts, pos, "-"@) {
        match forward(pos + 1, factor2_at(ts, pos + 1)) {
            (Ok(f), p) => (Ok(Factor2View::Neg(Box::new(f))), p),
            (Err(x), p) => (Err(x), p),
        }
    } else if matches_at(ts, pos, "~"@) {
        match forward(pos + 1, factor2_at(ts, pos + 1)) {
            (Ok(f), p) => (Ok(Factor2View::Not(Box::new(f))), p),
            (Err(x), p) => (Err(x), p),
        }
    } else {
        match factor1_at(ts, pos) {
            (Ok(f), p) => (Ok(Factor2View::Base(f)), p),
            (Err(x), p) => (Err(x), p),
        }
    }
}

pub open spec fn factor3_at(ts: Seq<AtomView>, pos: nat) -> Outcome<Factor3View>
    decreases tokens_left(ts, pos), 3nat,
{
    match forward(pos, factor2_at(ts, pos)) {
        (Ok(left), p) => if matches_at(ts, p, "**"@) {
            match forward(p + 1, factor3_at(ts, p + 1)) {
                (Ok(right), end) => (Ok(Factor3View::Pow(Box::new(left), Box::new(right))), end),
                (Err(x), end) => (Err(x), end),
            }
        } else {
            (Ok(Factor3View::Base(left)), p)
        },
        (Err(x), p) => (Err(x), p),
    }
}

/// What follows a `<factor4>` already read as `left`: any number of
/// `*` or `/` and a `<factor3>`, folded to the left.
pub open spec fn factor4_tail(ts: Seq<AtomView>, pos: nat, left: Factor4View) -> Outcome<Factor4View>
    decreases tokens_left(ts, pos), 4nat,
{
    if matches_at(ts, pos, "*"@) {
        match forward(pos + 1, factor3_at(ts, pos + 1)) {
            (Ok(right), p) => factor4_tail(ts, p, Factor4View::Mul(Box::new(left), Box::new(right))),
            (Err(x), p) => (Err(x), p),
        }
    } else if matches_at(ts, pos, "/"@) {
        match forward(pos + 1, factor3_at(ts, pos + 1)) {
            (Ok(right), p) => factor4_tail(ts, p, Factor4View::Div(Box::new(left), Box::new(right))),
            (Err(x), p) => (Err(x), p),
        }
    } else {
        (Ok(left), pos)
    }
}

pub open spec fn factor4_at(ts: Seq<AtomView>, pos: nat) -> Outcome<Factor4View>
    decreases tokens_left(ts, pos), 24nat,
{
    if exhausted(ts, pos) {
        factor4_at(ts, pos + 1)
    } else {
        match forward(pos, factor3_at(ts, pos)) {
            (Ok(first), p) => factor4_tail(ts, p, Factor4View::Base(first)),
            (Err(x), p) => (Err(x), p),
        }
    }
}

/// What follows a `<factor5>` already read as `left`: any number of
/// `+` or `-` and a `<factor4>`, folded to the left.
pub open spec fn factor5_tail(ts: Seq<AtomView>, pos: nat, left: Factor5View) -> Outcome<Factor5View>
    decreases tokens_left(ts, pos), 5nat,
{
    if matches_at(ts, pos, "+"@) {
        match forward(pos + 1, factor4_at(ts, pos + 1)) {
            (Ok(right), p) => factor5_tail(ts, p, Factor5View::Add(Box::new(left), Box::new(right))),
            (Err(x), p) => (Err(x), p),
        }
    } else if matches_at(ts, pos, "-"@) {
        match forward(pos + 1, factor4_at(ts, pos + 1)) {
            (Ok(right), p) => factor5_tail(ts, p, Factor5View::Sub(Box::new(left), Box::new(right))),
            (Err(x), p) => (Err(x), p),
        }
    } else {
        (Ok(left), pos)
    }
}

pub open spec fn factor5_at(ts: Seq<AtomView>, pos: nat) -> Outcome<Factor5View>
    decreases tokens_left(ts, pos), 25nat,
{
    if exhausted(ts, pos) {
        factor5_at(ts, pos + 1)
    } else {
        match forward(pos, factor4_at(ts, pos)) {
            (Ok(first), p) => factor5_tail(ts, p, Factor5View::Base(first)),
            (Err(x), p) => (Err(x), p),
        }
    }
}

/// What follows a `<factor6>` already read as `left`: any number of
/// `&` and a `<factor5>`, folded to the left.
pub open spec fn factor6_tail(ts: Seq<AtomView>, pos: nat, left: Factor6View) -> Outcome<Factor6View>
    decreases tokens_left(ts, pos), 6nat,
{
    if matches_at(ts, pos, "&"@) {
        match forward(pos + 1, factor5_at(ts, pos + 1)) {
            (Ok(right), p) => factor6_tail(ts, p, Factor6View::And(Box::new(left), Box::new(right))),
            (Err(x), p) => (Err(x), p),
        }
    } else {
        (Ok(left), pos)
    }
}

pub open spec fn factor6_at(ts: Seq<AtomView>, pos: nat) -> Outcome<Factor6View>
    decreases tokens_left(ts, pos), 26nat,
{
    if exhausted(ts, pos) {
        factor6_at(ts, pos + 1)
    } else {
        match forward(pos, factor5_at(ts, pos)) {
            (Ok(first), p) => factor6_tail(ts, p, Factor6View::Base(first)),
            (Err(x), p) => (Err(x), p),
        }
    }
}

/// What follows a `<factor7>` already read as `left`: any number of
/// `^` and a `<factor6>`, folded to the left.
pub open spec fn factor7_tail(ts: Seq<AtomView>, pos: nat, left: Factor7View) -> Outcome<Factor7View>
    decreases tokens_left(ts, pos), 7nat,
{
    if matches_at(ts, pos, "^"@) {
        match forward(pos + 1, factor6_at(ts, pos + 1)) {
            (Ok(right), p) => factor7_tail(ts, p, Factor7View::Xor(Box::new(left), Box::new(right))),
            (Err(x), p) => (Err(x), p),
        }
    } else {
        (Ok(left), pos)
    }
}

pub open spec fn factor7_at(ts: Seq<AtomView>, pos: nat) -> Outcome<Factor7View>
    decreases tokens_left(ts, pos), 27nat,
{
    if exhausted(ts, pos) {
        factor7_at(ts, pos + 1)
    } else {
        match forward(pos, factor6_at(ts, pos)) {
            (Ok(first), p) => factor7_tail(ts, p, Factor7View::Base(first)),
            (Err(x), p) => (Err(x), p),
        }
    }
}

/// What follows a `<factor8>` already read as `left`: any number of
/// `|` and a `<factor7>`, folded to the left.
pub open spec fn factor8_tail(ts: Seq<AtomView>, pos: nat, left: Factor8View) -> Outcome<Factor8View>
    decreases tokens_left(ts, pos), 8nat,
{
    if matches_at(ts, pos, "|"@) {
        match forward(pos + 1, factor7_at(ts, pos + 1)) {
            (Ok(right), p) => factor8_tail(ts, p, Factor8View::Or(Box::new(left), Box::new(right))),
            (Err(x), p) => (Err(x), p),
        }
    } else {
        (Ok(left), pos)
    }
}

pub open spec fn factor8_at(ts: Seq<AtomView>, pos: nat) -> Outcome<Factor8View>
    decreases tokens_left(ts, pos), 28nat,
{
    if exhausted(ts, pos) {
        factor8_at(ts, pos + 1)
    } else {
        match forward(pos, factor7_at(ts, pos)) {
            (Ok(first), p) => factor8_tail(ts, p, Factor8View::Base(first)),
            (Err(x), p) => (Err(x), p),
        }
    }
}

pub open spec fn factor9_at(ts: Seq<AtomView>, pos: nat) -> Outcome<Factor9View>
    decreases tokens_left(ts, pos), 29nat,
{
    if exhausted(ts, pos) {
        factor9_at(ts, pos + 1)
    } else {
        match forward(pos, factor8_at(ts, pos)) {
            (Ok(left), p) => if matches_at(ts, p, ">="@) {
                match forward(p + 1, factor8_at(ts, p + 1)) {
                    (Ok(right), end) => (
                        Ok(Factor9View::Ge(Box::new(left), Box::new(right))),
                        end,
                    ),
                    (Err(x), end) => (Err(x), end),
                }
            } else if matches_at(ts, p, "<="@) {
                match forward(p + 1, factor8_at(ts, p + 1)) {
                    (Ok(right), end) => (
                        Ok(Factor9View::Le(Box::new(left), Box::new(right))),
                        end,
                    ),
                    (Err(x), end) => (Err(x), end),
                }
            } else if matches_at(ts, p, ">"@) {
                match forward(p + 1, factor8_at(ts, p + 1)) {
                    (Ok(right), end) => (
                        Ok(Factor9View::Gt(Box::new(left), Box::new(right))),
                        end,
                    ),
                    (Err(x), end) => (Err(x), end),
                }
            } else if matches_at(ts, p, "<"@) {
                match forward(p + 1, factor8_at(ts, p + 1)) {
                    (Ok(right), end) => (
                        Ok(Factor9View::Lt(Box::new(left), Box::new(right))),
                        end,
                    ),
                    (Err(x), end) => (Err(x), end),
                }
            } else {
                (Ok(Factor9View::Base(left)), p)
            },
            (Err(x), p) => (Err(x), p),
        }
    }
}

pub open spec fn factor10_at(ts: Seq<AtomView>, pos: nat) -> Outcome<Factor10View>
    decreases tokens_left(ts, pos), 30nat,
{
    if exhausted(ts, pos) {
        factor10_at(ts, pos + 1)
    } else {
        match forward(pos, factor9_at(ts, pos)) {
            (Ok(left), p) => if matches_at(ts, p, "=="@) {
                match forward(p + 1, factor9_at(ts, p + 1)) {
                    (Ok(right), end) => (
                        Ok(Factor10View::Eq(Box::new(left), Box::new(right))),
                        end,
                    ),
                    (Err(x), end) => (Err(x), end),
                }
            } else if matches_at(ts, p, "!="@) {
                match forward(p + 1, factor9_at(ts, p + 1)) {
                    (Ok(right), end) => (
                        Ok(Factor10View::Neq(Box::new(left), Box::new(right))),
                        end,
                    ),
                    (Err(x), end) => (Err(x), end),
                }
            } else {
                (Ok(Factor10View::Base(left)), p)
            },
            (Err(x), p) => (Err(x), p),
        }
    }
}

pub open spec fn factor11_at(ts: Seq<AtomView>, pos: nat) -> Outcome<Factor11View>
    decreases tokens_left(ts, pos), 31nat,
{
    match forward(pos, factor10_at(ts, pos)) {
        (Ok(cond), p) => if matches_at(ts, p, "?"@) {
            match forward(p + 1, factor11_at(ts, p + 1)) {
                (Ok(then_branch), q) => match expect_at(ts, q, ":"@) {
                    (Ok(_), q1) => match forward(q1, factor11_at(ts, q1)) {
                        (Ok(else_branch), end) => (
                            Ok(
                                Factor11View::Ternary {
                                    cond: Box::new(cond),
                                    then_branch: Box::new(then_branch),
                                    else_branch: Box::new(else_branch),
                                },
                            ),
                            end,
                        ),
                        (Err(x), end) => (Err(x), end),
                    },
                    (Err(x), q1) => (Err(x), q1),
                },
                (Err(x), q) => (Err(x), q),
            }
        } else {
            (Ok(Factor11View::Base(cond)), p)
        },
        (Err(x), p) => (Err(x), p),
    }
}

/// An expression.
pub open spec fn expr_at(ts: Seq<AtomView>, pos: nat) -> Outcome<ExprView>
    decreases tokens_left(ts, pos), 32nat,
{
    if exhausted(ts, pos) {
        expr_at(ts, pos + 1)
    } else {
        match factor11_at(ts, pos) {
            (Ok(f), p) => (Ok(ExprView(f)), p),
            (Err(x), p) => (Err(x), p),
        }
    }
}

/// A number: an expression within braces, or a literal.
#[verifier::opaque]
pub open spec fn number_at(ts: Seq<AtomView>, pos: nat) -> Outcome<NumberView> {
    if matches_at(ts, pos, "{"@) {
        match expr_at(ts, pos + 1) {
            (Ok(e), p) => match expect_at(ts, p, "}"@) {
                (Ok(_), end) => (Ok(NumberView::Expr(e)), end),
                (Err(x), end) => (Err(x), end),
            },
            (Err(x), p) => (Err(x), p),
        }
    } else {
        match literal_at(ts, pos) {
            (Ok(l), p) => (Ok(NumberView::Literal(l)), p),
            (Err(x), p) => (Err(x), p),
        }
    }
}

impl<'a> SpiceLineParser<'a> {
    /// Parses a literal.
    pub fn parse_literal(&mut self) -> (r: ParseResult<Literal>)
        ensures
            parsed(*old(self), *final(self), r, literal_at(old(self).tokens(), old(self).cursor())),
            r is Ok ==> old(self).position < final(self).position <= old(self).vec.len(),
    {
        reveal(literal_at);
        let negative = self.matches_consume("-");
        let token = self.token()?;
        let parser = SuffixNumberParser;
        match parser.to_number(token.raw.as_str()) {
            Some((number, suffix)) => {
                self.position += 1;
                Ok(Literal { negative, number, suffix })
            },
            None => Err(ParseError::unexpected("<string>", token.raw.as_str(), Some(token.place()))),
        }
    }

    /// Parses a quoted string.
    pub fn parse_text(&mut self) -> (r: ParseResult<Text>)
        ensures
            parsed(*old(self), *final(self), r, text_at(old(self).tokens(), old(self).cursor())),
            r is Ok ==> old(self).position < final(self).position <= old(self).vec.len(),
    {
        let token = self.token()?;
        if token.is_string() {
            self.position += 1;
            Ok(Text(token))
        } else {
            Err(ParseError::quoting("Expect a string, found `", token.raw.as_str(), "'", Some(token.place())))
        }
    }

    /// Parses an identifier.
    pub fn parse_ident(&mut self) -> (r: ParseResult<Ident>)
        ensures
            parsed(*old(self), *final(self), r, name_at(old(self).tokens(), old(self).cursor())),
            r is Ok ==> old(self).position < final(self).position <= old(self).vec.len(),
    {
        Ok(Ident(self.parse_name()?))
    }

    pub fn parse_factor1(&mut self) -> (r: ParseResult<Factor1>)
        ensures
            parsed(*old(self), *final(self), r, factor1_at(old(self).tokens(), old(self).cursor())),
            r is Ok ==> old(self).position < final(self).position <= old(self).vec.len(),
        decreases old(self).remaining(), 1nat,
    {
        if self.matches_consume("(") {
            let expr = self.parse_expr()?;
            self.expect(")")?;
            return Ok(Factor1::Parenthesis(Box::new(expr)));
        }
        let snapshot = self.position;
        match self.parse_ident() {
            Ok(ident) => {
                if self.matches_consume("(") {
                    let ghost goal = factor1_at(old(self).tokens(), old(self).cursor());
                    let mut exprs: Vec<Expr> = Vec::new();
                    assert(exprs_view(exprs@) =~= Seq::empty());
                    loop
                        invariant
                            self.vec == old(self).vec,
                            old(self).position < self.position,
                            goal == factor1_at(old(self).tokens(), old(self).cursor()),
                            goal == call_of(
                                ident.deep_view(),
                                call_args_at(self.tokens(), self.cursor(), exprs_view(exprs@)),
                            ),
                        decreases self.remaining(),
                    {
                        if self.position >= self.vec.len() {
                            return Err(ParseError::unexpected_eof(None));
                        }
                        if self.matches_consume(")") {
                            return Ok(Factor1::Call { name: ident, args: exprs });
                        }
                        let ghost before = exprs_view(exprs@);
                        let e = self.parse_expr()?;
                        exprs.push(e);
                        assert(exprs_view(exprs@) =~= before.push(expr_view(e)));
                    }
                }
                Ok(Factor1::Ident(ident))
            },
            Err(_) => {
                self.position = snapshot;
                Ok(Factor1::Literal(self.parse_literal()?))
            },
        }
    }

    pub fn parse_factor2(&mut self) -> (r: ParseResult<Factor2>)
        ensures
            parsed(*old(self), *final(self), r, factor2_at(old(self).tokens(), old(self).cursor())),
            r is Ok ==> old(self).position < final(self).position <= old(self).vec.len(),
        decreases old(self).remaining(), 2nat,
    {
        if self.matches_consume("+") {
            return Ok(Factor2::Pos(Box::new(self.parse_factor2()?)));
        } else if self.matches_consume("-") {
            return Ok(Factor2::Neg(Box::new(self.parse_factor2()?)));
        } else if self.matches_consume("~") {
            return Ok(Factor2::Not(Box::new(self.parse_factor2()?)));
        }
        Ok(Factor2::Base(self.parse_factor1()?))
    }

    pub fn parse_factor3(&mut self) -> (r: ParseResult<Factor3>)
        ensures
            parsed(*old(self), *final(self), r, factor3_at(old(self).tokens(), old(self).cursor())),
            r is Ok ==> old(self).position < final(self).position <= old(self).vec.len(),
        decreases old(self).remaining(), 3nat,
    {
        let left = self.parse_factor2()?;
        if self.matches_consume("**") {
            let right = self.parse_factor3()?;
            return Ok(Factor3::Pow(Box::new(left), Box::new(right)));
        }
        Ok(Factor3::Base(left))
    }

    pub fn parse_factor4(&mut self) -> (r: ParseResult<Factor4>)
        ensures
            parsed(*old(self), *final(self), r, factor4_at(old(self).tokens(), old(self).cursor())),
            r is Ok ==> old(self).position < final(self).position <= old(self).vec.len(),
        decreases old(self).remaining(), 24nat,
    {
        let ghost goal = factor4_at(self.tokens(), self.cursor());
        let mut left = Factor4::Base(self.parse_factor3()?);
        loop
            invariant
                self.vec == old(self).vec,
                old(self).position < self.position <= self.vec.len(),
                goal == factor4_at(old(self).tokens(), old(self).cursor()),
                factor4_tail(self.tokens(), self.cursor(), left.deep_view()) == goal,
            decreases self.remaining(),
        {
            if self.matches_consume("*") {
                let right = self.parse_factor3()?;
                left = Factor4::Mul(Box::new(left), Box::new(right));
            } else if self.matches_consume("/") {
                let right = self.parse_factor3()?;
                left = Factor4::Div(Box::new(left), Box::new(right));
            } else {
                return Ok(left);
            }
        }
    }

    pub fn parse_factor5(&mut self) -> (r: ParseResult<Factor5>)
        ensures
            parsed(*old(self), *final(self), r, factor5_at(old(self).tokens(), old(self).cursor())),
            r is Ok ==> old(self).position < final(self).position <= old(self).vec.len(),
        decreases old(self).remaining(), 25nat,
    {
        let ghost goal = factor5_at(self.tokens(), self.cursor());
        let mut left = Factor5::Base(self.parse_factor4()?);
        loop
            invariant
                self.vec == old(self).vec,
                old(self).position < self.position <= self.vec.len(),
                goal == factor5_at(old(self).tokens(), old(self).cursor()),
                factor5_tail(self.tokens(), self.cursor(), left.deep_view()) == goal,
            decreases self.remaining(),
        {
            if self.matches_consume("+") {
                let right = self.parse_factor4()?;
                left = Factor5::Add(Box::new(left), Box::new(right));
            } else if self.matches_consume("-") {
                let right = self.parse_factor4()?;
                left = Factor5::Sub(Box::new(left), Box::new(right));
            } else {
                return Ok(left);
            }
        }
    }

    pub fn parse_factor6(&mut self) -> (r: ParseResult<Factor6>)
        ensures
            parsed(*old(self), *final(self), r, factor6_at(old(self).tokens(), old(self).cursor())),
            r is Ok ==> old(self).position < final(self).position <= old(self).vec.len(),
        decreases old(self).remaining(), 26nat,
    {
        let ghost goal = factor6_at(self.tokens(), self.cursor());
        let mut left = Factor6::Base(self.parse_factor5()?);
        loop
            invariant
                self.vec == old(self).vec,
                old(self).position < self.position <= self.vec.len(),
                goal == factor6_at(old(self).tokens(), old(self).cursor()),
                factor6_tail(self.tokens(), self.cursor(), left.deep_view()) == goal,
            decreases self.remaining(),
        {
            if self.matches_consume("&") {
                let right = self.parse_factor5()?;
                left = Factor6::And(Box::new(left), Box::new(right));
            } else {
                return Ok(left);
            }
        }
    }

    pub fn parse_factor7(&mut self) -> (r: ParseResult<Factor7>)
        ensures
            parsed(*old(self), *final(self), r, factor7_at(old(self).tokens(), old(self).cursor())),
            r is Ok ==> old(self).position < final(self).position <= old(self).vec.len(),
        decreases old(self).remaining(), 27nat,
    {
        let ghost goal = factor7_at(self.tokens(), self.cursor());
        let mut left = Factor7::Base(self.parse_factor6()?);
        loop
            invariant
                self.vec == old(self).vec,
                old(self).position < self.position <= self.vec.len(),
                goal == factor7_at(old(self).tokens(), old(self).cursor()),
                factor7_tail(self.tokens(), self.cursor(), left.deep_view()) == goal,
            decreases self.remaining(),
        {
            if self.matches_consume("^") {
                let right = self.parse_factor6()?;
                left = Factor7::Xor(Box::new(left), Box::new(right));
            } else {
                return Ok(left);
            }
        }
    }

    pub fn parse_factor8(&mut self) -> (r: ParseResult<Factor8>)
        ensures
            parsed(*old(self), *final(self), r, factor8_at(old(self).tokens(), old(self).cursor())),
            r is Ok ==> old(self).position < final(self).position <= old(self).vec.len(),
        decreases old(self).remaining(), 28nat,
    {
        let ghost goal = factor8_at(self.tokens(), self.cursor());
        let mut left = Factor8::Base(self.parse_factor7()?);
        loop
            invariant
                self.vec == old(self).vec,
                old(self).position < self.position <= self.vec.len(),
                goal == factor8_at(old(self).tokens(), old(self).cursor()),
                factor8_tail(self.tokens(), self.cursor(), left.deep_view()) == goal,
            decreases self.remaining(),
        {
            if self.matches_consume("|") {
                let right = self.parse_factor7()?;
                left = Factor8::Or(Box::new(left), Box::new(right));
            } else {
                return Ok(left);
            }
        }
    }

    pub fn parse_factor9(&mut self) -> (r: ParseResult<Factor9>)
        ensures
            parsed(*old(self), *final(self), r, factor9_at(old(self).tokens(), old(self).cursor())),
            r is Ok ==> old(self).position < final(self).position <= old(self).vec.len(),
        decreases old(self).remaining(), 29nat,
    {
        let left = self.parse_factor8()?;
        if self.matches_consume(">=") {
            return Ok(Factor9::Ge(Box::new(left), Box::new(self.parse_factor8()?)));
        } else if self.matches_consume("<=") {
            return Ok(Factor9::Le(Box::new(left), Box::new(self.parse_factor8()?)));
        } else if self.matches_consume(">") {
            return Ok(Factor9::Gt(Box::new(left), Box::new(self.parse_factor8()?)));
        } else if self.matches_consume("<") {
            return Ok(Factor9::Lt(Box::new(left), Box::new(self.parse_factor8()?)));
        }
        Ok(Factor9::Base(left))
    }

    pub fn parse_factor10(&mut self) -> (r: ParseResult<Factor10>)
        ensures
            parsed(*old(self), *final(self), r, factor10_at(old(self).tokens(), old(self).cursor())),
            r is Ok ==> old(self).position < final(self).position <= old(self).vec.len(),
        decreases old(self).remaining(), 30nat,
    {
        let left = self.parse_factor9()?;
        if self.matches_consume("==") {
            return Ok(Factor10::Eq(Box::new(left), Box::new(self.parse_factor9()?)));
        } else if self.matches_consume("!=") {
            return Ok(Factor10::Neq(Box::new(left), Box::new(self.parse_factor9()?)));
        }
        Ok(Factor10::Base(left))
    }

    pub fn parse_factor11(&mut self) -> (r: ParseResult<Factor11>)
        ensures
            parsed(*old(self), *final(self), r, factor11_at(old(self).tokens(), old(self).cursor())),
            r is Ok ==> old(self).position < final(self).position <= old(self).vec.len(),
        decreases old(self).remaining(), 31nat,
    {
        let cond = self.parse_factor10()?;
        if self.matches_consume("?") {
            let then_branch = self.parse_factor11()?;
            self.expect(":")?;
            let else_branch = self.parse_factor11()?;
            return Ok(
                Factor11::Ternary {
                    cond: Box::new(cond),
                    then_branch: Box::new(then_branch),
                    else_branch: Box::new(else_branch),
                },
            );
        }
        Ok(Factor11::Base(cond))
    }

    /// Parses an expression.
    pub fn parse_expr(&mut self) -> (r: ParseResult<Expr>)
        ensures
            parsed(*old(self), *final(self), r, expr_at(old(self).tokens(), old(self).cursor())),
            r is Ok ==> old(self).position < final(self).position <= old(self).vec.len(),
        decreases old(self).remaining(), 32nat,
    {
        Ok(Expr(self.parse_factor11()?))
    }

    /// Parses a number.
    pub fn parse_number(&mut self) -> (r: ParseResult<Number>)
        ensures
            parsed(*old(self), *final(self), r, number_at(old(self).tokens(), old(self).cursor())),
            r is Ok ==> old(self).position < final(self).position <= old(self).vec.len(),
    {
        reveal(number_at);
        if self.matches_consume("{") {
            let expr = self.parse_expr()?;
            self.expect("}")?;
            return Ok(Number::Expr(expr));
        }
        Ok(Number::Literal(self.parse_literal()?))
    }
}

/// A copy of a `<factor1>`.
#[verifier::loop_isolation(false)]
pub fn clone_factor1(f: &Factor1) -> (r: Factor1)
    ensures
        factor1_view(r) == factor1_view(*f),
    decreases f,
{
    match f {
        Factor1::Parenthesis(e) => Factor1::Parenthesis(Box::new(clone_expr(e))),
        Factor1::Ident(i) => Factor1::Ident(i.clone()),
        Factor1::Call { name, args } => {
            let mut copies: Vec<Expr> = Vec::new();
            let mut i: usize = 0;
            while i < args.len()
                invariant
                    i <= args.len(),
                    copies.len() == i,
                    forall|k: int| 0 <= k < i ==> expr_view(#[trigger] copies[k]) == expr_view(args[k]),
                decreases args.len() - i,
            {
                copies.push(clone_expr(&args[i]));
                i += 1;
            }
            assert(exprs_view(copies@) =~= exprs_view(args@));
            Factor1::Call { name: name.clone(), args: copies }
        },
        Factor1::Literal(l) => Factor1::Literal(l.clone()),
    }
}

/// A copy of a `<factor2>`.
#[verifier::loop_isolation(false)]
pub fn clone_factor2(f: &Factor2) -> (r: Factor2)
    ensures
        factor2_view(r) == factor2_view(*f),
    decreases f,
{
    match f {
        Factor2::Base(b) => Factor2::Base(clone_factor1(b)),
        Factor2::Pos(b) => Factor2::Pos(Box::new(clone_factor2(b))),
        Factor2::Neg(b) => Factor2::Neg(Box::new(clone_factor2(b))),
        Factor2::Not(b) => Factor2::Not(Box::new(clone_factor2(b))),
    }
}

/// A copy of a `<factor3>`.
#[verifier::loop_isolation(false)]
pub fn clone_factor3(f: &Factor3) -> (r: Factor3)
    ensures
        factor3_view(r) == factor3_view(*f),
    decreases f,
{
    match f {
        Factor3::Base(b) => Factor3::Base(clone_factor2(b)),
        Factor3::Pow(l, r) => Factor3::Pow(Box::new(clone_factor2(l)), Box::new(clone_factor3(r))),
    }
}

/// A copy of a `<factor4>`.
#[verifier::loop_isolation(false)]
pub fn clone_factor4(f: &Factor4) -> (r: Factor4)
    ensures
        factor4_view(r) == factor4_view(*f),
    decreases f,
{
    match f {
        Factor4::Base(b) => Factor4::Base(clone_factor3(b)),
        Factor4::Mul(l, r) => Factor4::Mul(Box::new(clone_factor4(l)), Box::new(clone_factor3(r))),
        Factor4::Div(l, r) => Factor4::Div(Box::new(clone_factor4(l)), Box::new(clone_factor3(r))),
    }
}

/// A copy of a `<factor5>`.
#[verifier::loop_isolation(false)]
pub fn clone_factor5(f: &Factor5) -> (r: Factor5)
    ensures
        factor5_view(r) == factor5_view(*f),
    decreases f,
{
    match f {
        Factor5::Base(b) => Factor5::Base(clone_factor4(b)),
        Factor5::Add(l, r) => Factor5::Add(Box::new(clone_factor5(l)), Box::new(clone_factor4(r))),
        Factor5::Sub(l, r) => Factor5::Sub(Box::new(clone_factor5(l)), Box::new(clone_factor4(r))),
    }
}

/// A copy of a `<factor6>`.
#[verifier::loop_isolation(false)]
pub fn clone_factor6(f: &Factor6) -> (r: Factor6)
    ensures
        factor6_view(r) == factor6_view(*f),
    decreases f,
{
    match f {
        Factor6::Base(b) => Factor6::Base(clone_factor5(b)),
        Factor6::And(l, r) => Factor6::And(Box::new(clone_factor6(l)), Box::new(clone_factor5(r))),
    }
}

/// A copy of a `<factor7>`.
#[verifier::loop_isolation(false)]
pub fn clone_factor7(f: &Factor7) -> (r: Factor7)
    ensures
        factor7_view(r) == factor7_view(*f),
    decreases f,
{
    match f {
        Factor7::Base(b) => Factor7::Base(clone_factor6(b)),
        Factor7::Xor(l, r) => Factor7::Xor(Box::new(clone_factor7(l)), Box::new(clone_factor6(r))),
    }
}

/// A copy of a `<factor8>`.
#[verifier::loop_isolation(false)]
pub fn clone_factor8(f: &Factor8) -> (r: Factor8)
    ensures
        factor8_view(r) == factor8_view(*f),
    decreases f,
{
    match f {
        Factor8::Base(b) => Factor8::Base(clone_factor7(b)),
        Factor8::Or(l, r) => Factor8::Or(Box::new(clone_factor8(l)), Box::new(clone_factor7(r))),
    }
}

/// A copy of a `<factor9>`.
#[verifier::loop_isolation(false)]
pub fn clone_factor9(f: &Factor9) -> (r: Factor9)
    ensures
        factor9_view(r) == factor9_view(*f),
    decreases f,
{
    match f {
        Factor9::Base(b) => Factor9::Base(clone_factor8(b)),
        Factor9::Ge(l, r) => Factor9::Ge(Box::new(clone_factor8(l)), Box::new(clone_factor8(r))),
        Factor9::Le(l, r) => Factor9::Le(Box::new(clone_factor8(l)), Box::new(clone_factor8(r))),
        Factor9::Gt(l, r) => Factor9::Gt(Box::new(clone_factor8(l)), Box::new(clone_factor8(r))),
        Factor9::Lt(l, r) => Factor9::Lt(Box::new(clone_factor8(l)), Box::new(clone_factor8(r))),
    }
}

/// A copy of a `<factor10>`.
#[verifier::loop_isolation(false)]
pub fn clone_factor10(f: &Factor10) -> (r: Factor10)
    ensures
        factor10_view(r) == factor10_view(*f),
    decreases f,
{
    match f {
        Factor10::Base(b) => Factor10::Base(clone_factor9(b)),
        Factor10::Eq(l, r) => Factor10::Eq(Box::new(clone_factor9(l)), Box::new(clone_factor9(r))),
        Factor10::Neq(l, r) => Factor10::Neq(Box::new(clone_factor9(l)), Box::new(clone_factor9(r))),
    }
}

/// A copy of a `<factor11>`.
#[verifier::loop_isolation(false)]
pub fn clone_factor11(f: &Factor11) -> (r: Factor11)
    ensures
        factor11_view(r) == factor11_view(*f),
    decreases f,
{
    match f {
        Factor11::Ternary { cond, then_branch, else_branch } => Factor11::Ternary {
            cond: Box::new(clone_factor10(cond)),
            then_branch: Box::new(clone_factor11(then_branch)),
            else_branch: Box::new(clone_factor11(else_branch)),
        },
        Factor11::Base(b) => Factor11::Base(clone_factor10(b)),
    }
}

/// A copy of an expression.
pub fn clone_expr(e: &Expr) -> (r: Expr)
    ensures
        expr_view(r) == expr_view(*e),
    decreases e,
{
    Expr(clone_factor11(&e.0))
}

impl Clone for Expr {
    fn clone(&self) -> (r: Self)
        ensures
            r.deep_view() == self.deep_view(),
    {
        clone_expr(self)
    }
}

impl Clone for Number {
    fn clone(&self) -> (r: Self)
        ensures
            r.deep_view() == self.deep_view(),
    {
        match self {
            Number::Literal(l) => Number::Literal(l.clone()),
            Number::Expr(e) => Number::Expr(clone_expr(e)),
        }
    }
}

impl Clone for Factor1 {
    fn clone(&self) -> (r: Self)
        ensures
            r.deep_view() == self.deep_view(),
    {
        clone_factor1(self)
    }
}

impl Clone for Factor2 {
    fn clone(&self) -> (r: Self)
        ensures
            r.deep_view() == self.deep_view(),
    {
        clone_factor2(self)
    }
}

impl Clone for Factor3 {
    fn clone(&self) -> (r: Self)
        ensures
            r.deep_view() == self.deep_view(),
    {
        clone_factor3(self)
    }
}

impl Clone for Factor4 {
    fn clone(&self) -> (r: Self)
        ensures
            r.deep_view() == self.deep_view(),
    {
        clone_factor4(self)
    }
}

impl Clone for Factor5 {
    fn clone(&self) -> (r: Self)
        ensures
            r.deep_view() == self.deep_view(),
    {
        clone_factor5(self)
    }
}

impl Clone for Factor6 {
    fn clone(&self) -> (r: Self)
        ensures
            r.deep_view() == self.deep_view(),
    {
        clone_factor6(self)
    }
}

impl Clone for Factor7 {
    fn clone(&self) -> (r: Self)
        ensures
            r.deep_view() == self.deep_view(),
    {
        clone_factor7(self)
    }
}

impl Clone for Factor8 {
    fn clone(&self) -> (r: Self)
        ensures
            r.deep_view() == self.deep_view(),
    {
        clone_factor8(self)
    }
}

impl Clone for Factor9 {
    fn clone(&self) -> (r: Self)
        ensures
            r.deep_view() == self.deep_view(),
    {
        clone_factor9(self)
    }
}

impl Clone for Factor10 {
    fn clone(&self) -> (r: Self)
        ensures
            r.deep_view() == self.deep_view(),
    {
        clone_factor10(self)
    }
}

impl Clone for Factor11 {
    fn clone(&self) -> (r: Self)
        ensures
            r.deep_view() == self.deep_view(),
    {
        clone_factor11(self)
    }
}

impl TryParse<Literal> for SpiceLineParser<'_> {
    open spec fn rule(ts: Seq<AtomView>, pos: nat) -> Outcome<LiteralView> {
        literal_at(ts, pos)
    }

    fn try_parse(&mut self) -> (r: ParseResult<Literal>) {
        self.parse_literal()
    }
}

impl TryParse<Text> for SpiceLineParser<'_> {
    open spec fn rule(ts: Seq<AtomView>, pos: nat) -> Outcome<AtomView> {
        text_at(ts, pos)
    }

    fn try_parse(&mut self) -> (r: ParseResult<Text>) {
        self.parse_text()
    }
}

impl TryParse<Ident> for SpiceLineParser<'_> {
    open spec fn rule(ts: Seq<AtomView>, pos: nat) -> Outcome<AtomView> {
        name_at(ts, pos)
    }

    fn try_parse(&mut self) -> (r: ParseResult<Ident>) {
        self.parse_ident()
    }
}

impl TryParse<Factor1> for SpiceLineParser<'_> {
    open spec fn rule(ts: Seq<AtomView>, pos: nat) -> Outcome<Factor1View> {
        factor1_at(ts, pos)
    }

    fn try_parse(&mut self) -> (r: ParseResult<Factor1>) {
        self.parse_factor1()
    }
}

impl TryParse<Factor2> for SpiceLineParser<'_> {
    open spec fn rule(ts: Seq<AtomView>, pos: nat) -> Outcome<Factor2View> {
        factor2_at(ts, pos)
    }

    fn try_parse(&mut self) -> (r: ParseResult<Factor2>) {
        self.parse_factor2()
    }
}

impl TryParse<Factor3> for SpiceLineParser<'_> {
    open spec fn rule(ts: Seq<AtomView>, pos: nat) -> Outcome<Factor3View> {
        factor3_at(ts, pos)
    }

    fn try_parse(&mut self) -> (r: ParseResult<Factor3>) {
        self.parse_factor3()
    }
}

impl TryParse<Factor4> for SpiceLineParser<'_> {
    open spec fn rule(ts: Seq<AtomView>, pos: nat) -> Outcome<Factor4View> {
        factor4_at(ts, pos)
    }

    fn try_parse(&mut self) -> (r: ParseResult<Factor4>) {
        self.parse_factor4()
    }
}

impl TryParse<Factor5> for SpiceLineParser<'_> {
    open spec fn rule(ts: Seq<AtomView>, pos: nat) -> Outcome<Factor5View> {
        factor5_at(ts, pos)
    }

    fn try_parse(&mut self) -> (r: ParseResult<Factor5>) {
        self.parse_factor5()
    }
}

impl TryParse<Factor6> for SpiceLineParser<'_> {
    open spec fn rule(ts: Seq<AtomView>, pos: nat) -> Outcome<Factor6View> {
        factor6_at(ts, pos)
    }

    fn try_parse(&mut self) -> (r: ParseResult<Factor6>) {
        self.parse_factor6()
    }
}

impl TryParse<Factor7> for SpiceLineParser<'_> {
    open spec fn rule(ts: Seq<AtomView>, pos: nat) -> Outcome<Factor7View> {
        factor7_at(ts, pos)
    }

    fn try_parse(&mut self) -> (r: ParseResult<Factor7>) {
        self.parse_factor7()
    }
}

impl TryParse<Factor8> for SpiceLineParser<'_> {
    open spec fn rule(ts: Seq<AtomView>, pos: nat) -> Outcome<Factor8View> {
        factor8_at(ts, pos)
    }

    fn try_parse(&mut self) -> (r: ParseResult<Factor8>) {
        self.parse_factor8()
    }
}

impl TryParse<Factor9> for SpiceLineParser<'_> {
    open spec fn rule(ts: Seq<AtomView>, pos: nat) -> Outcome<Factor9View> {
        factor9_at(ts, pos)
    }

    fn try_parse(&mut self) -> (r: ParseResult<Factor9>) {
        self.parse_factor9()
    }
}

impl TryParse<Factor10> for SpiceLineParser<'_> {
    open spec fn rule(ts: Seq<AtomView>, pos: nat) -> Outcome<Factor10View> {
        factor10_at(ts, pos)
    }

    fn try_parse(&mut self) -> (r: ParseResult<Factor10>) {
        self.parse_factor10()
    }
}

impl TryParse<Factor11> for SpiceLineParser<'_> {
    open spec fn rule(ts: Seq<AtomView>, pos: nat) -> Outcome<Factor11View> {
        factor11_at(ts, pos)
    }

    fn try_parse(&mut self) -> (r: ParseResult<Factor11>) {
        self.parse_factor11()
    }
}

impl TryParse<Expr> for SpiceLineParser<'_> {
    open spec fn rule(ts: Seq<AtomView>, pos: nat) -> Outcome<ExprView> {
        expr_at(ts, pos)
    }

    fn try_parse(&mut self) -> (r: ParseResult<Expr>) {
        self.parse_expr()
    }
}

impl TryParse<Number> for SpiceLineParser<'_> {
    open spec fn rule(ts: Seq<AtomView>, pos: nat) -> Outcome<NumberView> {
        number_at(ts, pos)
    }

    fn try_parse(&mut self) -> (r: ParseResult<Number>) {
        self.parse_number()
    }
}

} // verus!
