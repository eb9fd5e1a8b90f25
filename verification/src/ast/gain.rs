//! Gains of controlled sources.

use crate::ast::{
    grouped_number_pair_list_at, grouped_number_triple_list_at, name_at, node_at, node_pair_at,
    number_list_at, AtomView, Name, Node, OptionParenthesis, Pairs,
};
use crate::ast::expression::{expr_at, number_at, Expr, ExprView, Number, NumberView};
use crate::parse::{
    count_at, eof_error, expect_at, forward, matches_at, optional_of, parsed, quoting_error,
    tokens_left, Outcome, ParseError, ParseResult, SpiceLineParser, TryParse,
};
use vstd::prelude::*;

verus! {

/// A gain controlled by a voltage:
/// `<(+) controlling node> <(-) controlling node> <gain>`
#[derive(Debug, Clone, PartialEq)]
pub struct SimpleVoltageGain {
    pub node1: Node,
    pub node2: Node,
    pub gain: Number,
}

/// Mathematical content of a [`SimpleVoltageGain`].
pub struct SimpleVoltageGainView {
    pub node1: AtomView,
    pub node2: AtomView,
    pub gain: NumberView,
}

impl DeepView for SimpleVoltageGain {
    type V = SimpleVoltageGainView;

    open spec fn deep_view(&self) -> SimpleVoltageGainView {
        SimpleVoltageGainView {
            node1: self.node1.deep_view(),
            node2: self.node2.deep_view(),
            gain: self.gain.deep_view(),
        }
    }
}

/// The rule of [`SimpleVoltageGain`].
#[verifier::opaque]
pub open spec fn simple_voltage_gain_at(ts: Seq<AtomView>, pos: nat) -> Outcome<SimpleVoltageGainView> {
    match node_at(ts, pos) {
        (Ok(node1), p1) => {
            match node_at(ts, p1) {
                (Ok(node2), p2) => {
                    match number_at(ts, p2) {
                        (Ok(gain), p3) => {
                            (Ok(SimpleVoltageGainView { node1, node2, gain }), p3)
                        },
                        (Err(e), p3) => (Err(e), p3),
                    }
                },
                (Err(e), p2) => (Err(e), p2),
            }
        },
        (Err(e), p1) => (Err(e), p1),
    }
}

impl<'a> SpiceLineParser<'a> {
    /// Parses a [`SimpleVoltageGain`].
    pub fn parse_simple_voltage_gain(&mut self) -> (r: ParseResult<SimpleVoltageGain>)
        ensures
            parsed(*old(self), *final(self), r, simple_voltage_gain_at(old(self).tokens(), old(self).cursor())),
            r is Ok ==> old(self).position < final(self).position <= old(self).vec.len(),
    {
        reveal(simple_voltage_gain_at);
        let node1 = self.parse_node()?;
        let node2 = self.parse_node()?;
        let gain = self.parse_number()?;
        Ok(SimpleVoltageGain { node1, node2, gain })
    }
}

impl TryParse<SimpleVoltageGain> for SpiceLineParser<'_> {
    open spec fn rule(ts: Seq<AtomView>, pos: nat) -> Outcome<SimpleVoltageGainView> {
        simple_voltage_gain_at(ts, pos)
    }

    fn try_parse(&mut self) -> (r: ParseResult<SimpleVoltageGain>) {
        self.parse_simple_voltage_gain()
    }
}

/// A gain controlled by a current: `<controlling V device> <gain>`
#[derive(Debug, Clone, PartialEq)]
pub struct SimpleCurrentGain {
    pub vdevice: Name,
    pub gain: Number,
}

/// Mathematical content of a [`SimpleCurrentGain`].
pub struct SimpleCurrentGainView {
    pub vdevice: AtomView,
    pub gain: NumberView,
}

impl DeepView for SimpleCurrentGain {
    type V = SimpleCurrentGainView;

    open spec fn deep_view(&self) -> SimpleCurrentGainView {
        SimpleCurrentGainView {
            vdevice: self.vdevice.deep_view(),
            gain: self.gain.deep_view(),
        }
    }
}

/// The rule of [`SimpleCurrentGain`].
#[verifier::opaque]
pub open spec fn simple_current_gain_at(ts: Seq<AtomView>, pos: nat) -> Outcome<SimpleCurrentGainView> {
    match name_at(ts, pos) {
        (Ok(vdevice), p1) => {
            match number_at(ts, p1) {
                (Ok(gain), p2) => {
                    (Ok(SimpleCurrentGainView { vdevice, gain }), p2)
                },
                (Err(e), p2) => (Err(e), p2),
            }
        },
        (Err(e), p1) => (Err(e), p1),
    }
}

impl<'a> SpiceLineParser<'a> {
    /// Parses a [`SimpleCurrentGain`].
    pub fn parse_simple_current_gain(&mut self) -> (r: ParseResult<SimpleCurrentGain>)
        ensures
            parsed(*old(self), *final(self), r, simple_current_gain_at(old(self).tokens(), old(self).cursor())),
            r is Ok ==> old(self).position < final(self).position <= old(self).vec.len(),
    {
        reveal(simple_current_gain_at);
        let vdevice = self.parse_name()?;
        let gain = self.parse_number()?;
        Ok(SimpleCurrentGain { vdevice, gain })
    }
}

impl TryParse<SimpleCurrentGain> for SpiceLineParser<'_> {
    open spec fn rule(ts: Seq<AtomView>, pos: nat) -> Outcome<SimpleCurrentGainView> {
        simple_current_gain_at(ts, pos)
    }

    fn try_parse(&mut self) -> (r: ParseResult<SimpleCurrentGain>) {
        self.parse_simple_current_gain()
    }
}

/// Pairs of nodes, `n` of them.
pub open spec fn node_pairs_from(ts: Seq<AtomView>, pos: nat, n: nat, acc: Seq<(AtomView, AtomView)>) -> Outcome<Seq<(AtomView, AtomView)>>
    decreases n,
{
    if n == 0 {
        (Ok(acc), pos)
    } else {
        match node_pair_at(ts, pos) {
            (Ok(v), p) => node_pairs_from(ts, p, (n - 1) as nat, acc.push(v)),
            (Err(e), p) => (Err(e), p),
        }
    }
}

impl<'a> SpiceLineParser<'a> {
    /// Pairs of nodes, `n` of them.
    pub fn parse_node_pairs(&mut self, n: usize) -> (r: ParseResult<Vec<(Node, Node)>>)
        ensures
            parsed(
                *old(self),
                *final(self),
                r,
                node_pairs_from(old(self).tokens(), old(self).cursor(), n as nat, Seq::empty()),
            ),
            r is Ok && old(self).position <= old(self).vec.len() ==> final(self).position <= old(self).vec.len(),
    {
        let ghost goal = node_pairs_from(self.tokens(), self.cursor(), n as nat, Seq::empty());
        let mut values: Vec<(Node, Node)> = Vec::new();
        assert(values.deep_view() =~= Seq::empty());
        let mut i: usize = 0;
        while i < n
            invariant
                i <= n,
                self.vec == old(self).vec,
                old(self).position <= self.position,
                old(self).position <= old(self).vec.len() ==> self.position <= self.vec.len(),
                goal == node_pairs_from(old(self).tokens(), old(self).cursor(), n as nat, Seq::empty()),
                goal == node_pairs_from(self.tokens(), self.cursor(), (n - i) as nat, values.deep_view()),
            decreases n - i,
        {
            let ghost before = values.deep_view();
            let value = self.parse_node_pair()?;
            values.push(value);
            assert(values.deep_view() =~= before.push(value.deep_view()));
            i += 1;
        }
        Ok(values)
    }
}

/// Names, `n` of them.
pub open spec fn names_from(ts: Seq<AtomView>, pos: nat, n: nat, acc: Seq<AtomView>) -> Outcome<Seq<AtomView>>
    decreases n,
{
    if n == 0 {
        (Ok(acc), pos)
    } else {
        match name_at(ts, pos) {
            (Ok(v), p) => names_from(ts, p, (n - 1) as nat, acc.push(v)),
            (Err(e), p) => (Err(e), p),
        }
    }
}

impl<'a> SpiceLineParser<'a> {
    /// Names, `n` of them.
    pub fn parse_names(&mut self, n: usize) -> (r: ParseResult<Vec<Name>>)
        ensures
            parsed(
                *old(self),
                *final(self),
                r,
                names_from(old(self).tokens(), old(self).cursor(), n as nat, Seq::empty()),
            ),
            r is Ok && old(self).position <= old(self).vec.len() ==> final(self).position <= old(self).vec.len(),
    {
        let ghost goal = names_from(self.tokens(), self.cursor(), n as nat, Seq::empty());
        let mut values: Vec<Name> = Vec::new();
        assert(values.deep_view() =~= Seq::empty());
        let mut i: usize = 0;
        while i < n
            invariant
                i <= n,
                self.vec == old(self).vec,
                old(self).position <= self.position,
                old(self).position <= old(self).vec.len() ==> self.position <= self.vec.len(),
                goal == names_from(old(self).tokens(), old(self).cursor(), n as nat, Seq::empty()),
                goal == names_from(self.tokens(), self.cursor(), (n - i) as nat, values.deep_view()),
            decreases n - i,
        {
            let ghost before = values.deep_view();
            let value = self.parse_name()?;
            values.push(value);
            assert(values.deep_view() =~= before.push(value.deep_view()));
            i += 1;
        }
        Ok(values)
    }
}

/// A polynomial gain: `POLY(<n>)`, pairs of controlling nodes, `n` of them, and the
/// coefficients.
#[derive(Debug, Clone, PartialEq)]
pub struct PolyVoltageGain {
    pub n: usize,
    pub nodes: Vec<(Node, Node)>,
    pub coefficients: Vec<Number>,
}

/// Mathematical content of a [`PolyVoltageGain`].
pub struct PolyVoltageGainView {
    pub n: usize,
    pub nodes: Seq<(AtomView, AtomView)>,
    pub coefficients: Seq<NumberView>,
}

impl DeepView for PolyVoltageGain {
    type V = PolyVoltageGainView;

    open spec fn deep_view(&self) -> PolyVoltageGainView {
        PolyVoltageGainView {
            n: self.n,
            nodes: self.nodes.deep_view(),
            coefficients: self.coefficients.deep_view(),
        }
    }
}

/// The rule of [`PolyVoltageGain`].
#[verifier::opaque]
pub open spec fn poly_voltage_gain_at(ts: Seq<AtomView>, pos: nat) -> Outcome<PolyVoltageGainView> {
    match expect_at(ts, pos, "POLY"@) {
        (Ok(_), p1) => match expect_at(ts, p1, "("@) {
            (Ok(_), p2) => match count_at(ts, p2) {
                (Ok(n), p3) => match expect_at(ts, p3, ")"@) {
                    (Ok(_), p4) => match node_pairs_from(ts, p4, n as nat, Seq::empty()) {
                        (Ok(nodes), p5) => match number_list_at(ts, p5) {
                            (Ok(coefficients), p6) => (
                                Ok(PolyVoltageGainView { n, nodes, coefficients }),
                                p6,
                            ),
                            (Err(e), p6) => (Err(e), p6),
                        },
                        (Err(e), p5) => (Err(e), p5),
                    },
                    (Err(e), p4) => (Err(e), p4),
                },
                (Err(e), p3) => (Err(e), p3),
            },
            (Err(e), p2) => (Err(e), p2),
        },
        (Err(e), p1) => (Err(e), p1),
    }
}

impl<'a> SpiceLineParser<'a> {
    /// Parses a [`PolyVoltageGain`].
    pub fn parse_poly_voltage_gain(&mut self) -> (r: ParseResult<PolyVoltageGain>)
        ensures
            parsed(*old(self), *final(self), r, poly_voltage_gain_at(old(self).tokens(), old(self).cursor())),
            r is Ok ==> old(self).position < final(self).position <= old(self).vec.len(),
    {
        reveal(poly_voltage_gain_at);
        self.expect("POLY")?;
        self.expect("(")?;
        let n = self.parse_count()?;
        self.expect(")")?;
        let nodes = self.parse_node_pairs(n)?;
        let coefficients = self.parse_number_list()?;
        Ok(PolyVoltageGain { n, nodes, coefficients })
    }
}

impl TryParse<PolyVoltageGain> for SpiceLineParser<'_> {
    open spec fn rule(ts: Seq<AtomView>, pos: nat) -> Outcome<PolyVoltageGainView> {
        poly_voltage_gain_at(ts, pos)
    }

    fn try_parse(&mut self) -> (r: ParseResult<PolyVoltageGain>) {
        self.parse_poly_voltage_gain()
    }
}

/// A polynomial gain: `POLY(<n>)`, controlling V devices, `n` of them, and the
/// coefficients.
#[derive(Debug, Clone, PartialEq)]
pub struct PolyCurrentGain {
    pub n: usize,
    pub vdevices: Vec<Name>,
    pub coefficients: Vec<Number>,
}

/// Mathematical content of a [`PolyCurrentGain`].
pub struct PolyCurrentGainView {
    pub n: usize,
    pub vdevices: Seq<AtomView>,
    pub coefficients: Seq<NumberView>,
}

impl DeepView for PolyCurrentGain {
    type V = PolyCurrentGainView;

    open spec fn deep_view(&self) -> PolyCurrentGainView {
        PolyCurrentGainView {
            n: self.n,
            vdevices: self.vdevices.deep_view(),
            coefficients: self.coefficients.deep_view(),
        }
    }
}

/// The rule of [`PolyCurrentGain`].
#[verifier::opaque]
pub open spec fn poly_current_gain_at(ts: Seq<AtomView>, pos: nat) -> Outcome<PolyCurrentGainView> {
    match expect_at(ts, pos, "POLY"@) {
        (Ok(_), p1) => match expect_at(ts, p1, "("@) {
            (Ok(_), p2) => match count_at(ts, p2) {
                (Ok(n), p3) => match expect_at(ts, p3, ")"@) {
                    (Ok(_), p4) => match names_from(ts, p4, n as nat, Seq::empty()) {
                        (Ok(vdevices), p5) => match number_list_at(ts, p5) {
                            (Ok(coefficients), p6) => (
                                Ok(PolyCurrentGainView { n, vdevices, coefficients }),
                                p6,
                            ),
                            (Err(e), p6) => (Err(e), p6),
                        },
                        (Err(e), p5) => (Err(e), p5),
                    },
                    (Err(e), p4) => (Err(e), p4),
                },
                (Err(e), p3) => (Err(e), p3),
            },
            (Err(e), p2) => (Err(e), p2),
        },
        (Err(e), p1) => (Err(e), p1),
    }
}

impl<'a> SpiceLineParser<'a> {
    /// Parses a [`PolyCurrentGain`].
    pub fn parse_poly_current_gain(&mut self) -> (r: ParseResult<PolyCurrentGain>)
        ensures
            parsed(*old(self), *final(self), r, poly_current_gain_at(old(self).tokens(), old(self).cursor())),
            r is Ok ==> old(self).position < final(self).position <= old(self).vec.len(),
    {
        reveal(poly_current_gain_at);
        self.expect("POLY")?;
        self.expect("(")?;
        let n = self.parse_count()?;
        self.expect(")")?;
        let vdevices = self.parse_names(n)?;
        let coefficients = self.parse_number_list()?;
        Ok(PolyCurrentGain { n, vdevices, coefficients })
    }
}

impl TryParse<PolyCurrentGain> for SpiceLineParser<'_> {
    open spec fn rule(ts: Seq<AtomView>, pos: nat) -> Outcome<PolyCurrentGainView> {
        poly_current_gain_at(ts, pos)
    }

    fn try_parse(&mut self) -> (r: ParseResult<PolyCurrentGain>) {
        self.parse_poly_current_gain()
    }
}

/// A gain given by an expression: `VALUE = { <expression> }`
#[derive(Debug, Clone, PartialEq)]
pub struct ValueGain {
    pub value: Expr,
}

/// Mathematical content of a [`ValueGain`].
pub struct ValueGainView {
    pub value: ExprView,
}

impl DeepView for ValueGain {
    type V = ValueGainView;

    open spec fn deep_view(&self) -> ValueGainView {
        ValueGainView {
            value: self.value.deep_view(),
        }
    }
}

/// The rule of [`ValueGain`].
#[verifier::opaque]
pub open spec fn value_gain_at(ts: Seq<AtomView>, pos: nat) -> Outcome<ValueGainView> {
    match expect_at(ts, pos, "VALUE"@) {
        (Ok(_), p1) => {
            match expect_at(ts, p1, "="@) {
                (Ok(_), p2) => {
                    match expect_at(ts, p2, "{"@) {
                        (Ok(_), p3) => {
                            match expr_at(ts, p3) {
                                (Ok(value), p4) => {
                                    match expect_at(ts, p4, "}"@) {
                                        (Ok(_), p5) => {
                                            (Ok(ValueGainView { value }), p5)
                                        },
                                        (Err(e), p5) => (Err(e), p5),
                                    }
                                },
                                (Err(e), p4) => (Err(e), p4),
                            }
                        },
                        (Err(e), p3) => (Err(e), p3),
                    }
                },
                (Err(e), p2) => (Err(e), p2),
            }
        },
        (Err(e), p1) => (Err(e), p1),
    }
}

impl<'a> SpiceLineParser<'a> {
    /// Parses a [`ValueGain`].
    pub fn parse_value_gain(&mut self) -> (r: ParseResult<ValueGain>)
        ensures
            parsed(*old(self), *final(self), r, value_gain_at(old(self).tokens(), old(self).cursor())),
            r is Ok ==> old(self).position < final(self).position <= old(self).vec.len(),
    {
        reveal(value_gain_at);
        self.expect("VALUE")?;
        self.expect("=")?;
        self.expect("{")?;
        let value = self.parse_expr()?;
        self.expect("}")?;
        Ok(ValueGain { value })
    }
}

impl TryParse<ValueGain> for SpiceLineParser<'_> {
    open spec fn rule(ts: Seq<AtomView>, pos: nat) -> Outcome<ValueGainView> {
        value_gain_at(ts, pos)
    }

    fn try_parse(&mut self) -> (r: ParseResult<ValueGain>) {
        self.parse_value_gain()
    }
}

/// A gain given by a table:
/// `TABLE { <expression> } = < ( <input value>, <output value> ) >*`
/// The parentheses may be left out.
#[derive(Debug, Clone, PartialEq)]
pub struct TableGain {
    pub expression: Expr,
    pub values: Vec<OptionParenthesis<(Number, Number)>>,
}

/// Mathematical content of a [`TableGain`].
pub struct TableGainView {
    pub expression: ExprView,
    pub values: Seq<(NumberView, NumberView)>,
}

impl DeepView for TableGain {
    type V = TableGainView;

    open spec fn deep_view(&self) -> TableGainView {
        TableGainView {
            expression: self.expression.deep_view(),
            values: self.values.deep_view(),
        }
    }
}

/// The rule of [`TableGain`].
#[verifier::opaque]
pub open spec fn table_gain_at(ts: Seq<AtomView>, pos: nat) -> Outcome<TableGainView> {
    match expect_at(ts, pos, "TABLE"@) {
        (Ok(_), p1) => {
            match expect_at(ts, p1, "{"@) {
                (Ok(_), p2) => {
                    match expr_at(ts, p2) {
                        (Ok(expression), p3) => {
                            match expect_at(ts, p3, "}"@) {
                                (Ok(_), p4) => {
                                    match expect_at(ts, p4, "="@) {
                                        (Ok(_), p5) => {
                                            match grouped_number_pair_list_at(ts, p5) {
                                                (Ok(values), p6) => {
                                                    (Ok(TableGainView { expression, values }), p6)
                                                },
                                                (Err(e), p6) => (Err(e), p6),
                                            }
                                        },
                                        (Err(e), p5) => (Err(e), p5),
                                    }
                                },
                                (Err(e), p4) => (Err(e), p4),
                            }
                        },
                        (Err(e), p3) => (Err(e), p3),
                    }
                },
                (Err(e), p2) => (Err(e), p2),
            }
        },
        (Err(e), p1) => (Err(e), p1),
    }
}

impl<'a> SpiceLineParser<'a> {
    /// Parses a [`TableGain`].
    pub fn parse_table_gain(&mut self) -> (r: ParseResult<TableGain>)
        ensures
            parsed(*old(self), *final(self), r, table_gain_at(old(self).tokens(), old(self).cursor())),
            r is Ok ==> old(self).position < final(self).position <= old(self).vec.len(),
    {
        reveal(table_gain_at);
        self.expect("TABLE")?;
        self.expect("{")?;
        let expression = self.parse_expr()?;
        self.expect("}")?;
        self.expect("=")?;
        let values = self.parse_grouped_number_pair_list()?;
        Ok(TableGain { expression, values })
    }
}

impl TryParse<TableGain> for SpiceLineParser<'_> {
    open spec fn rule(ts: Seq<AtomView>, pos: nat) -> Outcome<TableGainView> {
        table_gain_at(ts, pos)
    }

    fn try_parse(&mut self) -> (r: ParseResult<TableGain>) {
        self.parse_table_gain()
    }
}

/// A gain given by a transform: `LAPLACE { <expression> } = { <transform> }`
#[derive(Debug, Clone, PartialEq)]
pub struct LaplaceGain {
    pub expression: Expr,
    pub transform: Expr,
}

/// Mathematical content of a [`LaplaceGain`].
pub struct LaplaceGainView {
    pub expression: ExprView,
    pub transform: ExprView,
}

impl DeepView for LaplaceGain {
    type V = LaplaceGainView;

    open spec fn deep_view(&self) -> LaplaceGainView {
        LaplaceGainView {
            expression: self.expression.deep_view(),
            transform: self.transform.deep_view(),
        }
    }
}

/// The rule of [`LaplaceGain`].
#[verifier::opaque]
pub open spec fn laplace_gain_at(ts: Seq<AtomView>, pos: nat) -> Outcome<LaplaceGainView> {
    match expect_at(ts, pos, "LAPLACE"@) {
        (Ok(_), p1) => {
            match expect_at(ts, p1, "{"@) {
                (Ok(_), p2) => {
                    match expr_at(ts, p2) {
                        (Ok(expression), p3) => {
                            match expect_at(ts, p3, "}"@) {
                                (Ok(_), p4) => {
                                    match expect_at(ts, p4, "="@) {
                                        (Ok(_), p5) => {
                                            match expect_at(ts, p5, "{"@) {
                                                (Ok(_), p6) => {
                                                    match expr_at(ts, p6) {
                                                        (Ok(transform), p7) => {
                                                            match expect_at(ts, p7, "}"@) {
                                                                (Ok(_), p8) => {
                                                                    (Ok(LaplaceGainView { expression, transform }), p8)
                                                                },
                                                                (Err(e), p8) => (Err(e), p8),
                                                            }
                                                        },
                                                        (Err(e), p7) => (Err(e), p7),
                                                    }
                                                },
                                                (Err(e), p6) => (Err(e), p6),
                                            }
                                        },
                                        (Err(e), p5) => (Err(e), p5),
                                    }
                                },
                                (Err(e), p4) => (Err(e), p4),
                            }
                        },
                        (Err(e), p3) => (Err(e), p3),
                    }
                },
                (Err(e), p2) => (Err(e), p2),
            }
        },
        (Err(e), p1) => (Err(e), p1),
    }
}

impl<'a> SpiceLineParser<'a> {
    /// Parses a [`LaplaceGain`].
    pub fn parse_laplace_gain(&mut self) -> (r: ParseResult<LaplaceGain>)
        ensures
            parsed(*old(self), *final(self), r, laplace_gain_at(old(self).tokens(), old(self).cursor())),
            r is Ok ==> old(self).position < final(self).position <= old(self).vec.len(),
    {
        reveal(laplace_gain_at);
        self.expect("LAPLACE")?;
        self.expect("{")?;
        let expression = self.parse_expr()?;
        self.expect("}")?;
        self.expect("=")?;
        self.expect("{")?;
        let transform = self.parse_expr()?;
        self.expect("}")?;
        Ok(LaplaceGain { expression, transform })
    }
}

impl TryParse<LaplaceGain> for SpiceLineParser<'_> {
    open spec fn rule(ts: Seq<AtomView>, pos: nat) -> Outcome<LaplaceGainView> {
        laplace_gain_at(ts, pos)
    }

    fn try_parse(&mut self) -> (r: ParseResult<LaplaceGain>) {
        self.parse_laplace_gain()
    }
}

/// How the values of a frequency response are read.
#[derive(Debug, Clone, Copy, PartialEq, Eq, Structural)]
pub enum FreqKeyword {
    /// magnitude as a raw value
    Mag,
    /// magnitude in decibels
    Db,
    /// phase in radians
    Rad,
    /// phase in degrees
    Deg,
    /// real and imaginary parts
    Ri,
}

impl DeepView for FreqKeyword {
    type V = FreqKeyword;

    open spec fn deep_view(&self) -> FreqKeyword {
        *self
    }
}
/// The rule of [`FreqKeyword`]: one of its keywords, in any letter case.
#[verifier::opaque]
pub open spec fn freq_keyword_at(ts: Seq<AtomView>, pos: nat) -> Outcome<FreqKeyword> {
    if pos >= ts.len() {
        (Err(eof_error()), pos)
    } else if matches_at(ts, pos, "MAG"@) {
        (Ok(FreqKeyword::Mag), pos + 1)
    } else if matches_at(ts, pos, "DB"@) {
        (Ok(FreqKeyword::Db), pos + 1)
    } else if matches_at(ts, pos, "RAD"@) {
        (Ok(FreqKeyword::Rad), pos + 1)
    } else if matches_at(ts, pos, "DEG"@) {
        (Ok(FreqKeyword::Deg), pos + 1)
    } else if matches_at(ts, pos, "R_I"@) {
        (Ok(FreqKeyword::Ri), pos + 1)
    } else {
        (
            Err(
                quoting_error(
                    "Unknown varient: '"@,
                    ts[pos as int].raw,
                    "', valid options are [\"MAG\", \"DB\", \"RAD\", \"DEG\", \"R_I\"]"@,
                    Some(ts[pos as int].place()),
                ),
            ),
            pos,
        )
    }
}

impl<'a> SpiceLineParser<'a> {
    /// Parses a [`FreqKeyword`].
    pub fn parse_freq_keyword(&mut self) -> (r: ParseResult<FreqKeyword>)
        ensures
            parsed(*old(self), *final(self), r, freq_keyword_at(old(self).tokens(), old(self).cursor())),
            r is Ok ==> old(self).position < final(self).position <= old(self).vec.len(),
    {
        reveal(freq_keyword_at);
        let token = self.token()?;
        if self.matches_consume("MAG") {
            Ok(FreqKeyword::Mag)
        } else if self.matches_consume("DB") {
            Ok(FreqKeyword::Db)
        } else if self.matches_consume("RAD") {
            Ok(FreqKeyword::Rad)
        } else if self.matches_consume("DEG") {
            Ok(FreqKeyword::Deg)
        } else if self.matches_consume("R_I") {
            Ok(FreqKeyword::Ri)
        } else {
            Err(
                ParseError::quoting(
                    "Unknown varient: '",
                    token.raw.as_str(),
                    "', valid options are [\"MAG\", \"DB\", \"RAD\", \"DEG\", \"R_I\"]",
                    Some(token.place()),
                ),
            )
        }
    }
}

impl TryParse<FreqKeyword> for SpiceLineParser<'_> {
    open spec fn rule(ts: Seq<AtomView>, pos: nat) -> Outcome<FreqKeyword> {
        freq_keyword_at(ts, pos)
    }

    fn try_parse(&mut self) -> (r: ParseResult<FreqKeyword>) {
        self.parse_freq_keyword()
    }
}

/// An optional `FreqKeyword`: the value where the rule accepts, and otherwise
/// nothing, with the cursor where it was.
#[verifier::opaque]
pub open spec fn optional_freq_keyword_at(ts: Seq<AtomView>, pos: nat) -> Outcome<Option<FreqKeyword>> {
    optional_of(freq_keyword_at(ts, pos), pos)
}

impl<'a> SpiceLineParser<'a> {
    /// Parses an optional `FreqKeyword`.
    pub fn parse_optional_freq_keyword(&mut self) -> (r: ParseResult<Option<FreqKeyword>>)
        ensures
            parsed(*old(self), *final(self), r, optional_freq_keyword_at(old(self).tokens(), old(self).cursor())),
            r is Ok,
            r is Ok && old(self).position <= old(self).vec.len() ==> final(self).position <= old(self).vec.len(),
    {
        reveal(optional_freq_keyword_at);
        self.parse_optional::<FreqKeyword>()
    }
}

impl TryParse<Option<FreqKeyword>> for SpiceLineParser<'_> {
    open spec fn rule(ts: Seq<AtomView>, pos: nat) -> Outcome<Option<FreqKeyword>> {
        optional_freq_keyword_at(ts, pos)
    }

    fn try_parse(&mut self) -> (r: ParseResult<Option<FreqKeyword>>) {
        self.parse_optional_freq_keyword()
    }
}

/// The parameters of a [`FreqGain`].
#[derive(Debug, Clone, PartialEq)]
pub struct FreqGainParams {
    pub delay: Option<Number>,
}

/// Mathematical content of a [`FreqGainParams`].
pub struct FreqGainParamsView {
    pub delay: Option<NumberView>,
}

impl DeepView for FreqGainParams {
    type V = FreqGainParamsView;

    open spec fn deep_view(&self) -> FreqGainParamsView {
        FreqGainParamsView {
            delay: self.delay.deep_view(),
        }
    }
}

impl FreqGainParamsView {
    /// No parameter given.
    pub open spec fn none() -> FreqGainParamsView {
        FreqGainParamsView { delay: None }
    }
}

/// The parameters from `pos` on, added to `acc`: a later value of a
/// parameter replaces an earlier one, and the first token that names no
/// parameter ends the record.
pub open spec fn freq_gain_params_from(ts: Seq<AtomView>, pos: nat, acc: FreqGainParamsView) -> Outcome<FreqGainParamsView>
    decreases tokens_left(ts, pos),
{
    if pos >= ts.len() {
        (Ok(acc), pos)
    } else if matches_at(ts, pos, "DELAY"@) {
        match expect_at(ts, pos + 1, "="@) {
            (Ok(_), p) => match forward(pos + 2, number_at(ts, p)) {
                (Ok(v), end) => freq_gain_params_from(ts, end, FreqGainParamsView { delay: Some(v), ..acc }),
                (Err(e), end) => (Err(e), end),
            },
            (Err(e), p) => (Err(e), p),
        }
    } else {
        (Ok(acc), pos)
    }
}

/// The rule of [`FreqGainParams`].
#[verifier::opaque]
pub open spec fn freq_gain_params_at(ts: Seq<AtomView>, pos: nat) -> Outcome<FreqGainParamsView> {
    freq_gain_params_from(ts, pos, FreqGainParamsView::none())
}

impl<'a> SpiceLineParser<'a> {
    /// Parses a [`FreqGainParams`].
    pub fn parse_freq_gain_params(&mut self) -> (r: ParseResult<FreqGainParams>)
        ensures
            parsed(*old(self), *final(self), r, freq_gain_params_at(old(self).tokens(), old(self).cursor())),
            r is Ok && old(self).position <= old(self).vec.len() ==> final(self).position <= old(self).vec.len(),
    {
        reveal(freq_gain_params_at);
        let ghost goal = freq_gain_params_at(self.tokens(), self.cursor());
        let mut delay: Option<Number> = None;
        loop
            invariant
                self.vec == old(self).vec,
                old(self).position <= self.position,
                old(self).position <= old(self).vec.len() ==> self.position <= self.vec.len(),
                goal == freq_gain_params_at(old(self).tokens(), old(self).cursor()),
                goal == freq_gain_params_from(self.tokens(), self.cursor(), FreqGainParamsView { delay: delay.deep_view() }),
            decreases self.remaining(),
        {
            reveal(freq_gain_params_at);
            if self.matches_consume("DELAY") {
                self.expect("=")?;
                delay = Some(self.parse_number()?);
            } else {
                return Ok(FreqGainParams { delay });
            }
        }
    }
}

impl TryParse<FreqGainParams> for SpiceLineParser<'_> {
    open spec fn rule(ts: Seq<AtomView>, pos: nat) -> Outcome<FreqGainParamsView> {
        freq_gain_params_at(ts, pos)
    }

    fn try_parse(&mut self) -> (r: ParseResult<FreqGainParams>) {
        self.parse_freq_gain_params()
    }
}

/// A gain given by a frequency response:
/// `FREQ { <expression> } = [KEYWORD] < ( <frequency>, <magnitude>, <phase> ) >* [DELAY = <value>]`
#[derive(Debug, Clone, PartialEq)]
pub struct FreqGain {
    pub expression: Expr,
    pub keyword: Option<FreqKeyword>,
    pub values: Vec<OptionParenthesis<(Number, Number, Number)>>,
    pub params: FreqGainParams,
}

/// Mathematical content of a [`FreqGain`].
pub struct FreqGainView {
    pub expression: ExprView,
    pub keyword: Option<FreqKeyword>,
    pub values: Seq<(NumberView, NumberView, NumberView)>,
    pub params: FreqGainParamsView,
}

impl DeepView for FreqGain {
    type V = FreqGainView;

    open spec fn deep_view(&self) -> FreqGainView {
        FreqGainView {
            expression: self.expression.deep_view(),
            keyword: self.keyword.deep_view(),
            values: self.values.deep_view(),
            params: self.params.deep_view(),
        }
    }
}

/// The rule of [`FreqGain`].
#[verifier::opaque]
pub open spec fn freq_gain_at(ts: Seq<AtomView>, pos: nat) -> Outcome<FreqGainView> {
    match expect_at(ts, pos, "FREQ"@) {
        (Ok(_), p1) => {
            match expect_at(ts, p1, "{"@) {
                (Ok(_), p2) => {
                    match expr_at(ts, p2) {
                        (Ok(expression), p3) => {
                            match expect_at(ts, p3, "}"@) {
                                (Ok(_), p4) => {
                                    match expect_at(ts, p4, "="@) {
                                        (Ok(_), p5) => {
                                            match optional_freq_keyword_at(ts, p5) {
                                                (Ok(keyword), p6) => {
                                                    match grouped_number_triple_list_at(ts, p6) {
                                                        (Ok(values), p7) => {
                                                            match freq_gain_params_at(ts, p7) {
                                                                (Ok(params), p8) => {
                                                                    (Ok(FreqGainView { expression, keyword, values, params }), p8)
                                                                },
                                                                (Err(e), p8) => (Err(e), p8),
                                                            }
                                                        },
                                                        (Err(e), p7) => (Err(e), p7),
                                                    }
                                                },
                                                (Err(e), p6) => (Err(e), p6),
                                            }
                                        },
                                        (Err(e), p5) => (Err(e), p5),
                                    }
                                },
                                (Err(e), p4) => (Err(e), p4),
                            }
                        },
                        (Err(e), p3) => (Err(e), p3),
                    }
                },
                (Err(e), p2) => (Err(e), p2),
            }
        },
        (Err(e), p1) => (Err(e), p1),
    }
}

impl<'a> SpiceLineParser<'a> {
    /// Parses a [`FreqGain`].
    pub fn parse_freq_gain(&mut self) -> (r: ParseResult<FreqGain>)
        ensures
            parsed(*old(self), *final(self), r, freq_gain_at(old(self).tokens(), old(self).cursor())),
            r is Ok ==> old(self).position < final(self).position <= old(self).vec.len(),
    {
        reveal(freq_gain_at);
        self.expect("FREQ")?;
        self.expect("{")?;
        let expression = self.parse_expr()?;
        self.expect("}")?;
        self.expect("=")?;
        let keyword = self.parse_optional_freq_keyword()?;
        let values = self.parse_grouped_number_triple_list()?;
        let params = self.parse_freq_gain_params()?;
        Ok(FreqGain { expression, keyword, values, params })
    }
}

impl TryParse<FreqGain> for SpiceLineParser<'_> {
    open spec fn rule(ts: Seq<AtomView>, pos: nat) -> Outcome<FreqGainView> {
        freq_gain_at(ts, pos)
    }

    fn try_parse(&mut self) -> (r: ParseResult<FreqGain>) {
        self.parse_freq_gain()
    }
}

/// The kind of a Chebyshev filter.
#[derive(Debug, Clone, PartialEq)]
pub struct ChebyshevGainParams {
    pub lp: bool,
    pub hp: bool,
    pub bp: bool,
    pub br: bool,
}

/// Mathematical content of a [`ChebyshevGainParams`].
pub struct ChebyshevGainParamsView {
    pub lp: bool,
    pub hp: bool,
    pub bp: bool,
    pub br: bool,
}

impl DeepView for ChebyshevGainParams {
    type V = ChebyshevGainParamsView;

    open spec fn deep_view(&self) -> ChebyshevGainParamsView {
        ChebyshevGainParamsView {
            lp: self.lp,
            hp: self.hp,
            bp: self.bp,
            br: self.br,
        }
    }
}

impl ChebyshevGainParamsView {
    /// No parameter given.
    pub open spec fn none() -> ChebyshevGainParamsView {
        ChebyshevGainParamsView { lp: false, hp: false, bp: false, br: false }
    }
}

/// The parameters from `pos` on, added to `acc`: a later value of a
/// parameter replaces an earlier one, and the first token that names no
/// parameter ends the record.
pub open spec fn chebyshev_gain_params_from(ts: Seq<AtomView>, pos: nat, acc: ChebyshevGainParamsView) -> Outcome<ChebyshevGainParamsView>
    decreases tokens_left(ts, pos),
{
    if pos >= ts.len() {
        (Ok(acc), pos)
    } else if matches_at(ts, pos, "LP"@) {
        chebyshev_gain_params_from(ts, pos + 1, ChebyshevGainParamsView { lp: true, ..acc })
    } else if matches_at(ts, pos, "HP"@) {
        chebyshev_gain_params_from(ts, pos + 1, ChebyshevGainParamsView { hp: true, ..acc })
    } else if matches_at(ts, pos, "BP"@) {
        chebyshev_gain_params_from(ts, pos + 1, ChebyshevGainParamsView { bp: true, ..acc })
    } else if matches_at(ts, pos, "BR"@) {
        chebyshev_gain_params_from(ts, pos + 1, ChebyshevGainParamsView { br: true, ..acc })
    } else {
        (Ok(acc), pos)
    }
}

/// The rule of [`ChebyshevGainParams`].
#[verifier::opaque]
pub open spec fn chebyshev_gain_params_at(ts: Seq<AtomView>, pos: nat) -> Outcome<ChebyshevGainParamsView> {
    chebyshev_gain_params_from(ts, pos, ChebyshevGainParamsView::none())
}

impl<'a> SpiceLineParser<'a> {
    /// Parses a [`ChebyshevGainParams`].
    pub fn parse_chebyshev_gain_params(&mut self) -> (r: ParseResult<ChebyshevGainParams>)
        ensures
            parsed(*old(self), *final(self), r, chebyshev_gain_params_at(old(self).tokens(), old(self).cursor())),
            r is Ok && old(self).position <= old(self).vec.len() ==> final(self).position <= old(self).vec.len(),
    {
        reveal(chebyshev_gain_params_at);
        let ghost goal = chebyshev_gain_params_at(self.tokens(), self.cursor());
        let mut lp: bool = false;
        let mut hp: bool = false;
        let mut bp: bool = false;
        let mut br: bool = false;
        loop
            invariant
                self.vec == old(self).vec,
                old(self).position <= self.position,
                old(self).position <= old(self).vec.len() ==> self.position <= self.vec.len(),
                goal == chebyshev_gain_params_at(old(self).tokens(), old(self).cursor()),
                goal == chebyshev_gain_params_from(self.tokens(), self.cursor(), ChebyshevGainParamsView { lp: lp, hp: hp, bp: bp, br: br }),
            decreases self.remaining(),
        {
            reveal(chebyshev_gain_params_at);
            if self.matches_consume("LP") {
                lp = true;
            } else if self.matches_consume("HP") {
                hp = true;
            } else if self.matches_consume("BP") {
                bp = true;
            } else if self.matches_consume("BR") {
                br = true;
            } else {
                return Ok(ChebyshevGainParams { lp, hp, bp, br });
            }
        }
    }
}

impl TryParse<ChebyshevGainParams> for SpiceLineParser<'_> {
    open spec fn rule(ts: Seq<AtomView>, pos: nat) -> Outcome<ChebyshevGainParamsView> {
        chebyshev_gain_params_at(ts, pos)
    }

    fn try_parse(&mut self) -> (r: ParseResult<ChebyshevGainParams>) {
        self.parse_chebyshev_gain_params()
    }
}

/// A Chebyshev filter:
/// `CHEBYSHEV { <expression> } = <[LP] [HP] [BP] [BR]> <cutoff frequencies>* <attenuation>*`
/// The first half of the numbers are the cutoffs.
#[derive(Debug, Clone, PartialEq)]
pub struct ChebyshevGain {
    pub expression: Expr,
    pub params: ChebyshevGainParams,
    pub cutoffs: Vec<Number>,
    pub attenuations: Vec<Number>,
}

/// Mathematical content of a [`ChebyshevGain`].
pub struct ChebyshevGainView {
    pub expression: ExprView,
    pub params: ChebyshevGainParamsView,
    pub cutoffs: Seq<NumberView>,
    pub attenuations: Seq<NumberView>,
}

impl DeepView for ChebyshevGain {
    type V = ChebyshevGainView;

    open spec fn deep_view(&self) -> ChebyshevGainView {
        ChebyshevGainView {
            expression: self.expression.deep_view(),
            params: self.params.deep_view(),
            cutoffs: self.cutoffs.deep_view(),
            attenuations: self.attenuations.deep_view(),
        }
    }
}

/// The numbers of a Chebyshev filter, halved into cutoffs and
/// attenuations.
pub open spec fn halved(
    expression: ExprView,
    params: ChebyshevGainParamsView,
    numbers: Seq<NumberView>,
) -> ChebyshevGainView {
    ChebyshevGainView {
        expression,
        params,
        cutoffs: numbers.subrange(0, (numbers.len() / 2) as int),
        attenuations: numbers.subrange((numbers.len() / 2) as int, numbers.len() as int),
    }
}

/// The rule of [`ChebyshevGain`].
#[verifier::opaque]
pub open spec fn chebyshev_gain_at(ts: Seq<AtomView>, pos: nat) -> Outcome<ChebyshevGainView> {
    match expect_at(ts, pos, "CHEBYSHEV"@) {
        (Ok(_), p1) => match expect_at(ts, p1, "{"@) {
            (Ok(_), p2) => match expr_at(ts, p2) {
                (Ok(expression), p3) => match expect_at(ts, p3, "}"@) {
                    (Ok(_), p4) => match expect_at(ts, p4, "="@) {
                        (Ok(_), p5) => match chebyshev_gain_params_at(ts, p5) {
                            (Ok(params), p6) => match number_list_at(ts, p6) {
                                (Ok(numbers), p7) => (Ok(halved(expression, params, numbers)), p7),
                                (Err(e), p7) => (Err(e), p7),
                            },
                            (Err(e), p6) => (Err(e), p6),
                        },
                        (Err(e), p5) => (Err(e), p5),
                    },
                    (Err(e), p4) => (Err(e), p4),
                },
                (Err(e), p3) => (Err(e), p3),
            },
            (Err(e), p2) => (Err(e), p2),
        },
        (Err(e), p1) => (Err(e), p1),
    }
}

impl<'a> SpiceLineParser<'a> {
    /// Parses a [`ChebyshevGain`].
    pub fn parse_chebyshev_gain(&mut self) -> (r: ParseResult<ChebyshevGain>)
        ensures
            parsed(*old(self), *final(self), r, chebyshev_gain_at(old(self).tokens(), old(self).cursor())),
            r is Ok ==> old(self).position < final(self).position <= old(self).vec.len(),
    {
        reveal(chebyshev_gain_at);
        self.expect("CHEBYSHEV")?;
        self.expect("{")?;
        let expression = self.parse_expr()?;
        self.expect("}")?;
        self.expect("=")?;
        let params = self.parse_chebyshev_gain_params()?;
        let mut cutoffs = self.parse_number_list()?;
        let ghost numbers = cutoffs.deep_view();
        let half = cutoffs.len() / 2;
        let attenuations = cutoffs.split_off(half);
        assert(cutoffs.deep_view() =~= numbers.subrange(0, half as int));
        assert(attenuations.deep_view() =~= numbers.subrange(half as int, numbers.len() as int));
        Ok(ChebyshevGain { expression, params, cutoffs, attenuations })
    }
}

impl TryParse<ChebyshevGain> for SpiceLineParser<'_> {
    open spec fn rule(ts: Seq<AtomView>, pos: nat) -> Outcome<ChebyshevGainView> {
        chebyshev_gain_at(ts, pos)
    }

    fn try_parse(&mut self) -> (r: ParseResult<ChebyshevGain>) {
        self.parse_chebyshev_gain()
    }
}

/// The gain of a source controlled by a voltage.
#[derive(Debug, Clone, PartialEq)]
pub enum VoltageGain {
    Simple(SimpleVoltageGain),
    Poly(PolyVoltageGain),
    Value(ValueGain),
    Table(TableGain),
    Laplace(LaplaceGain),
    Freq(FreqGain),
    Chebyshev(ChebyshevGain),
}

/// Mathematical content of a [`VoltageGain`].
pub enum VoltageGainView {
    Simple(SimpleVoltageGainView),
    Poly(PolyVoltageGainView),
    Value(ValueGainView),
    Table(TableGainView),
    Laplace(LaplaceGainView),
    Freq(FreqGainView),
    Chebyshev(ChebyshevGainView),
}

impl DeepView for VoltageGain {
    type V = VoltageGainView;

    open spec fn deep_view(&self) -> VoltageGainView {
        match self {
            VoltageGain::Simple(x) => VoltageGainView::Simple(x.deep_view()),
            VoltageGain::Poly(x) => VoltageGainView::Poly(x.deep_view()),
            VoltageGain::Value(x) => VoltageGainView::Value(x.deep_view()),
            VoltageGain::Table(x) => VoltageGainView::Table(x.deep_view()),
            VoltageGain::Laplace(x) => VoltageGainView::Laplace(x.deep_view()),
            VoltageGain::Freq(x) => VoltageGainView::Freq(x.deep_view()),
            VoltageGain::Chebyshev(x) => VoltageGainView::Chebyshev(x.deep_view()),
        }
    }
}

/// The rule of [`VoltageGain`]: the first token decides which of its forms follows.
#[verifier::opaque]
pub open spec fn voltage_gain_at(ts: Seq<AtomView>, pos: nat) -> Outcome<VoltageGainView> {
    if pos >= ts.len() {
        (Err(eof_error()), pos)
    } else if matches_at(ts, pos, "POLY"@) {
        match poly_voltage_gain_at(ts, pos) {
            (Ok(x), p) => (Ok(VoltageGainView::Poly(x)), p),
            (Err(e), p) => (Err(e), p),
        }
    } else if matches_at(ts, pos, "VALUE"@) {
        match value_gain_at(ts, pos) {
            (Ok(x), p) => (Ok(VoltageGainView::Value(x)), p),
            (Err(e), p) => (Err(e), p),
        }
    } else if matches_at(ts, pos, "TABLE"@) {
        match table_gain_at(ts, pos) {
            (Ok(x), p) => (Ok(VoltageGainView::Table(x)), p),
            (Err(e), p) => (Err(e), p),
        }
    } else if matches_at(ts, pos, "LAPLACE"@) {
        match laplace_gain_at(ts, pos) {
            (Ok(x), p) => (Ok(VoltageGainView::Laplace(x)), p),
            (Err(e), p) => (Err(e), p),
        }
    } else if matches_at(ts, pos, "FREQ"@) {
        match freq_gain_at(ts, pos) {
            (Ok(x), p) => (Ok(VoltageGainView::Freq(x)), p),
            (Err(e), p) => (Err(e), p),
        }
    } else if matches_at(ts, pos, "CHEBYSHEV"@) {
        match chebyshev_gain_at(ts, pos) {
            (Ok(x), p) => (Ok(VoltageGainView::Chebyshev(x)), p),
            (Err(e), p) => (Err(e), p),
        }
    } else {
        match simple_voltage_gain_at(ts, pos) {
            (Ok(x), p) => (Ok(VoltageGainView::Simple(x)), p),
            (Err(e), p) => (Err(e), p),
        }
    }
}

impl<'a> SpiceLineParser<'a> {
    /// Parses a [`VoltageGain`].
    pub fn parse_voltage_gain(&mut self) -> (r: ParseResult<VoltageGain>)
        ensures
            parsed(*old(self), *final(self), r, voltage_gain_at(old(self).tokens(), old(self).cursor())),
            r is Ok ==> old(self).position < final(self).position <= old(self).vec.len(),
    {
        reveal(voltage_gain_at);
        let token = self.token()?;
        if self.matches("POLY") {
            Ok(VoltageGain::Poly(self.parse_poly_voltage_gain()?))
        } else if self.matches("VALUE") {
            Ok(VoltageGain::Value(self.parse_value_gain()?))
        } else if self.matches("TABLE") {
            Ok(VoltageGain::Table(self.parse_table_gain()?))
        } else if self.matches("LAPLACE") {
            Ok(VoltageGain::Laplace(self.parse_laplace_gain()?))
        } else if self.matches("FREQ") {
            Ok(VoltageGain::Freq(self.parse_freq_gain()?))
        } else if self.matches("CHEBYSHEV") {
            Ok(VoltageGain::Chebyshev(self.parse_chebyshev_gain()?))
        } else {
            Ok(VoltageGain::Simple(self.parse_simple_voltage_gain()?))
        }
    }
}

impl TryParse<VoltageGain> for SpiceLineParser<'_> {
    open spec fn rule(ts: Seq<AtomView>, pos: nat) -> Outcome<VoltageGainView> {
        voltage_gain_at(ts, pos)
    }

    fn try_parse(&mut self) -> (r: ParseResult<VoltageGain>) {
        self.parse_voltage_gain()
    }
}

/// The gain of a source controlled by a current.
#[derive(Debug, Clone, PartialEq)]
pub enum CurrentGain {
    Simple(SimpleCurrentGain),
    Poly(PolyCurrentGain),
}

/// Mathematical content of a [`CurrentGain`].
pub enum CurrentGainView {
    Simple(SimpleCurrentGainView),
    Poly(PolyCurrentGainView),
}

impl DeepView for CurrentGain {
    type V = CurrentGainView;

    open spec fn deep_view(&self) -> CurrentGainView {
        match self {
            CurrentGain::Simple(x) => CurrentGainView::Simple(x.deep_view()),
            CurrentGain::Poly(x) => CurrentGainView::Poly(x.deep_view()),
        }
    }
}

/// The rule of [`CurrentGain`]: the first token decides which of its forms follows.
#[verifier::opaque]
pub open spec fn current_gain_at(ts: Seq<AtomView>, pos: nat) -> Outcome<CurrentGainView> {
    if pos >= ts.len() {
        (Err(eof_error()), pos)
    } else if matches_at(ts, pos, "POLY"@) {
        match poly_current_gain_at(ts, pos) {
            (Ok(x), p) => (Ok(CurrentGainView::Poly(x)), p),
            (Err(e), p) => (Err(e), p),
        }
    } else {
        match simple_current_gain_at(ts, pos) {
            (Ok(x), p) => (Ok(CurrentGainView::Simple(x)), p),
            (Err(e), p) => (Err(e), p),
        }
    }
}

impl<'a> SpiceLineParser<'a> {
    /// Parses a [`CurrentGain`].
    pub fn parse_current_gain(&mut self) -> (r: ParseResult<CurrentGain>)
        ensures
            parsed(*old(self), *final(self), r, current_gain_at(old(self).tokens(), old(self).cursor())),
            r is Ok ==> old(self).position < final(self).position <= old(self).vec.len(),
    {
        reveal(current_gain_at);
        let token = self.token()?;
        if self.matches("POLY") {
            Ok(CurrentGain::Poly(self.parse_poly_current_gain()?))
        } else {
            Ok(CurrentGain::Simple(self.parse_simple_current_gain()?))
        }
    }
}

impl TryParse<CurrentGain> for SpiceLineParser<'_> {
    open spec fn rule(ts: Seq<AtomView>, pos: nat) -> Outcome<CurrentGainView> {
        current_gain_at(ts, pos)
    }

    fn try_parse(&mut self) -> (r: ParseResult<CurrentGain>) {
        self.parse_current_gain()
    }
}

} // verus!
