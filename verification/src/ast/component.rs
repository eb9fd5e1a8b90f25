//! Components: the devices of a circuit.

use crate::ast::{
    name_at, name_list_at, node_at, number_quad_at, number_then_optional_at,
    optional_explicit_node_at, optional_name_at, optional_name_then_number_at, optional_number_at,
    param_number_at, param_text_at, AtomView, ExplicitNode, Name, Node, Param, ParamView,
};
use crate::ast::expression::{number_at, Number, NumberView, Text};
use crate::ast::gain::{
    current_gain_at, voltage_gain_at, CurrentGain, CurrentGainView, VoltageGain, VoltageGainView,
};
use crate::ast::transient::{
    optional_ac_source_at, optional_dc_source_at, optional_transient_at, AcSource, AcSourceView,
    DcSource, DcSourceView, Transient, TransientView,
};
use crate::parse::{
    eof_error, expect_at, forward, initial, initial_of, matches_at, parsed, partial_field,
    partial_of, quoting_error, tokens_left, Element, ExposeNodes, Outcome, ParseError,
    ParseErrorView, ParseResult, PartialParse, SpiceLineParser, TryParse,
};
use vstd::prelude::*;

verus! {

/// A GaAs MES field-effect transistor:
/// `B<name> <drain node> <gate node> <source node> <model name> [area value]`
#[derive(Debug, Clone, PartialEq)]
pub struct BComponent {
    pub name: Name,
    pub drain: Node,
    pub gate: Node,
    pub source: Node,
    pub model: Name,
    pub area: Option<Number>,
}

/// Mathematical content of a [`BComponent`].
pub struct BComponentView {
    pub name: AtomView,
    pub drain: AtomView,
    pub gate: AtomView,
    pub source: AtomView,
    pub model: AtomView,
    pub area: Option<NumberView>,
}

impl DeepView for BComponent {
    type V = BComponentView;

    open spec fn deep_view(&self) -> BComponentView {
        BComponentView {
            name: self.name.deep_view(),
            drain: self.drain.deep_view(),
            gate: self.gate.deep_view(),
            source: self.source.deep_view(),
            model: self.model.deep_view(),
            area: self.area.deep_view(),
        }
    }
}

/// The rule of [`BComponent`].
#[verifier::opaque]
pub open spec fn b_component_at(ts: Seq<AtomView>, pos: nat) -> Outcome<BComponentView> {
    match name_at(ts, pos) {
        (Ok(name), p1) => {
            match node_at(ts, p1) {
                (Ok(drain), p2) => {
                    match node_at(ts, p2) {
                        (Ok(gate), p3) => {
                            match node_at(ts, p3) {
                                (Ok(source), p4) => {
                                    match name_at(ts, p4) {
                                        (Ok(model), p5) => {
                                            match optional_number_at(ts, p5) {
                                                (Ok(area), p6) => {
                                                    (Ok(BComponentView { name, drain, gate, source, model, area }), p6)
                                                },
                                                (Err(e), p6) => (Err(e), p6),
                                            }
                                        },
                                        (Err(e), p5) => (Err(e), p5),
                                    }
                                },
                                (Err(e), p4) => (Err(e), p4),
                            }
                        },
                        (Err(e), p3) => (Err(e), p3),
                    }
                },
                (Err(e), p2) => (Err(e), p2),
            }
        },
        (Err(e), p1) => (Err(e), p1),
    }
}

impl<'a> SpiceLineParser<'a> {
    /// Parses a [`BComponent`].
    pub fn parse_b_component(&mut self) -> (r: ParseResult<BComponent>)
        ensures
            parsed(*old(self), *final(self), r, b_component_at(old(self).tokens(), old(self).cursor())),
            r is Ok ==> old(self).position < final(self).position <= old(self).vec.len(),
    {
        reveal(b_component_at);
        let name = self.parse_name()?;
        let drain = self.parse_node()?;
        let gate = self.parse_node()?;
        let source = self.parse_node()?;
        let model = self.parse_name()?;
        let area = self.parse_optional_number()?;
        Ok(BComponent { name, drain, gate, source, model, area })
    }
}

impl TryParse<BComponent> for SpiceLineParser<'_> {
    open spec fn rule(ts: Seq<AtomView>, pos: nat) -> Outcome<BComponentView> {
        b_component_at(ts, pos)
    }

    fn try_parse(&mut self) -> (r: ParseResult<BComponent>) {
        self.parse_b_component()
    }
}

impl ExposeNodes for BComponent {
    open spec fn exposed(&self) -> Seq<Node> {
        seq![self.drain, self.gate, self.source]
    }

    fn nodes(&self) -> (ret: Vec<Node>) {
        let mut ret: Vec<Node> = Vec::new();
        ret.push(self.drain.clone());
        ret.push(self.gate.clone());
        ret.push(self.source.clone());
        ret
    }
}

/// A [`BComponent`] that the end of the line may have cut short: each field is
/// there if the line reached it, and `position` counts the fields that
/// were tried.
#[derive(Debug, Clone)]
pub struct BComponentPartial {
    pub position: u32,
    pub name: Option<Name>,
    pub drain: Option<Node>,
    pub gate: Option<Node>,
    pub source: Option<Node>,
    pub model: Option<Name>,
    pub area: Option<Option<Number>>,
}

/// Mathematical content of a [`BComponentPartial`].
pub struct BComponentPartialView {
    pub position: u32,
    pub name: Option<AtomView>,
    pub drain: Option<AtomView>,
    pub gate: Option<AtomView>,
    pub source: Option<AtomView>,
    pub model: Option<AtomView>,
    pub area: Option<Option<NumberView>>,
}

impl DeepView for BComponentPartial {
    type V = BComponentPartialView;

    open spec fn deep_view(&self) -> BComponentPartialView {
        BComponentPartialView {
            position: self.position,
            name: self.name.deep_view(),
            drain: self.drain.deep_view(),
            gate: self.gate.deep_view(),
            source: self.source.deep_view(),
            model: self.model.deep_view(),
            area: self.area.deep_view(),
        }
    }
}

impl BComponentPartialView {
    /// Each field that is there follows one that is there.
    pub open spec fn in_order(self) -> bool {
        &&& self.drain is Some ==> self.name is Some
        &&& self.gate is Some ==> self.drain is Some
        &&& self.source is Some ==> self.gate is Some
        &&& self.model is Some ==> self.source is Some
        &&& self.area is Some ==> self.model is Some
    }
}

/// The rule of [`BComponentPartial`]: the fields of [`BComponent`] in order, up to the end of
/// the line.
#[verifier::opaque]
pub open spec fn b_component_partial_at(ts: Seq<AtomView>, pos: nat) -> Outcome<BComponentPartialView> {
    match partial_field(false, 0u32, pos, name_at(ts, pos)) {
        Ok((name, eof1, n1, p1)) => {
            match partial_field(eof1, n1, p1, node_at(ts, p1)) {
                Ok((drain, eof2, n2, p2)) => {
                    match partial_field(eof2, n2, p2, node_at(ts, p2)) {
                        Ok((gate, eof3, n3, p3)) => {
                            match partial_field(eof3, n3, p3, node_at(ts, p3)) {
                                Ok((source, eof4, n4, p4)) => {
                                    match partial_field(eof4, n4, p4, name_at(ts, p4)) {
                                        Ok((model, eof5, n5, p5)) => {
                                            match partial_field(eof5, n5, p5, optional_number_at(ts, p5)) {
                                                Ok((area, eof6, n6, p6)) => {
                                                    (Ok(BComponentPartialView { position: n6, name, drain, gate, source, model, area }), p6)
                                                },
                                                Err((e, p6)) => (Err(e), p6),
                                            }
                                        },
                                        Err((e, p5)) => (Err(e), p5),
                                    }
                                },
                                Err((e, p4)) => (Err(e), p4),
                            }
                        },
                        Err((e, p3)) => (Err(e), p3),
                    }
                },
                Err((e, p2)) => (Err(e), p2),
            }
        },
        Err((e, p1)) => (Err(e), p1),
    }
}

impl<'a> SpiceLineParser<'a> {
    /// Parses a [`BComponent`] as far as the line goes.
    pub fn parse_b_component_partial(&mut self) -> (r: ParseResult<BComponentPartial>)
        ensures
            parsed(*old(self), *final(self), r, b_component_partial_at(old(self).tokens(), old(self).cursor())),
            r matches Ok(v) ==> v.deep_view().in_order(),
    {
        reveal(b_component_partial_at);
        let mut is_eof = false;
        let mut position: u32 = 0;
        let name = if !is_eof {
            position += 1;
            partial_of(self.parse_name(), &mut is_eof)?
        } else {
            None
        };
        let drain = if !is_eof {
            position += 1;
            partial_of(self.parse_node(), &mut is_eof)?
        } else {
            None
        };
        let gate = if !is_eof {
            position += 1;
            partial_of(self.parse_node(), &mut is_eof)?
        } else {
            None
        };
        let source = if !is_eof {
            position += 1;
            partial_of(self.parse_node(), &mut is_eof)?
        } else {
            None
        };
        let model = if !is_eof {
            position += 1;
            partial_of(self.parse_name(), &mut is_eof)?
        } else {
            None
        };
        let area = if !is_eof {
            position += 1;
            partial_of(self.parse_optional_number(), &mut is_eof)?
        } else {
            None
        };
        Ok(BComponentPartial { position, name, drain, gate, source, model, area })
    }
}

impl PartialParse<BComponentPartial> for SpiceLineParser<'_> {
    open spec fn partial_rule(ts: Seq<AtomView>, pos: nat) -> Outcome<BComponentPartialView> {
        b_component_partial_at(ts, pos)
    }

    fn try_partial(&mut self) -> (r: ParseResult<BComponentPartial>) {
        self.parse_b_component_partial()
    }

    fn info(&mut self) -> (r: ParseResult<(BComponentPartial, Vec<Element>)>) {
        let v = self.parse_b_component_partial()?;
        Ok((v, Vec::new()))
    }
}

/// A field of a [`BComponentPartial`] is there only if every field before it is.
pub proof fn lemma_b_component_partial_in_order(ts: Seq<AtomView>, pos: nat)
    ensures
        b_component_partial_at(ts, pos).0 matches Ok(v) ==> v.in_order(),
{
    reveal(b_component_partial_at);
}

/// The parameters of a capacitor.
#[derive(Debug, Clone, PartialEq)]
pub struct CComponentParams {
    pub ic: Option<Number>,
}

/// Mathematical content of a [`CComponentParams`].
pub struct CComponentParamsView {
    pub ic: Option<NumberView>,
}

impl DeepView for CComponentParams {
    type V = CComponentParamsView;

    open spec fn deep_view(&self) -> CComponentParamsView {
        CComponentParamsView {
            ic: self.ic.deep_view(),
        }
    }
}

impl CComponentParamsView {
    /// No parameter given.
    pub open spec fn none() -> CComponentParamsView {
        CComponentParamsView { ic: None }
    }
}

/// The parameters from `pos` on, added to `acc`: a later value of a
/// parameter replaces an earlier one, and the first token that names no
/// parameter ends the record.
pub open spec fn c_component_params_from(ts: Seq<AtomView>, pos: nat, acc: CComponentParamsView) -> Outcome<CComponentParamsView>
    decreases tokens_left(ts, pos),
{
    if pos >= ts.len() {
        (Ok(acc), pos)
    } else if matches_at(ts, pos, "IC"@) {
        match expect_at(ts, pos + 1, "="@) {
            (Ok(_), p) => match forward(pos + 2, number_at(ts, p)) {
                (Ok(v), end) => c_component_params_from(ts, end, CComponentParamsView { ic: Some(v), ..acc }),
                (Err(e), end) => (Err(e), end),
            },
            (Err(e), p) => (Err(e), p),
        }
    } else {
        (Ok(acc), pos)
    }
}

/// The rule of [`CComponentParams`].
#[verifier::opaque]
pub open spec fn c_component_params_at(ts: Seq<AtomView>, pos: nat) -> Outcome<CComponentParamsView> {
    c_component_params_from(ts, pos, CComponentParamsView::none())
}

impl<'a> SpiceLineParser<'a> {
    /// Parses a [`CComponentParams`].
    pub fn parse_c_component_params(&mut self) -> (r: ParseResult<CComponentParams>)
        ensures
            parsed(*old(self), *final(self), r, c_component_params_at(old(self).tokens(), old(self).cursor())),
            r is Ok && old(self).position <= old(self).vec.len() ==> final(self).position <= old(self).vec.len(),
    {
        reveal(c_component_params_at);
        let ghost goal = c_component_params_at(self.tokens(), self.cursor());
        let mut ic: Option<Number> = None;
        loop
            invariant
                self.vec == old(self).vec,
                old(self).position <= self.position,
                old(self).position <= old(self).vec.len() ==> self.position <= self.vec.len(),
                goal == c_component_params_at(old(self).tokens(), old(self).cursor()),
                goal == c_component_params_from(self.tokens(), self.cursor(), CComponentParamsView { ic: ic.deep_view() }),
            decreases self.remaining(),
        {
            reveal(c_component_params_at);
            if self.matches_consume("IC") {
                self.expect("=")?;
                ic = Some(self.parse_number()?);
            } else {
                return Ok(CComponentParams { ic });
            }
        }
    }
}

impl TryParse<CComponentParams> for SpiceLineParser<'_> {
    open spec fn rule(ts: Seq<AtomView>, pos: nat) -> Outcome<CComponentParamsView> {
        c_component_params_at(ts, pos)
    }

    fn try_parse(&mut self) -> (r: ParseResult<CComponentParams>) {
        self.parse_c_component_params()
    }
}

impl ExposeNodes for CComponentParams {
    open spec fn exposed(&self) -> Seq<Node> {
        Seq::empty()
    }

    fn nodes(&self) -> (ret: Vec<Node>) {
        let ret: Vec<Node> = Vec::new();
        ret
    }
}

/// A capacitor:
/// `C<name> <(+) node> <(-) node> [model name] <value> [IC=<initial value>]`
#[derive(Debug, Clone, PartialEq)]
pub struct CComponent {
    pub name: Name,
    pub node1: Node,
    pub node2: Node,
    pub model: Option<Name>,
    pub value: Number,
    pub params: CComponentParams,
}

/// Mathematical content of a [`CComponent`].
pub struct CComponentView {
    pub name: AtomView,
    pub node1: AtomView,
    pub node2: AtomView,
    pub model: Option<AtomView>,
    pub value: NumberView,
    pub params: CComponentParamsView,
}

impl DeepView for CComponent {
    type V = CComponentView;

    open spec fn deep_view(&self) -> CComponentView {
        CComponentView {
            name: self.name.deep_view(),
            node1: self.node1.deep_view(),
            node2: self.node2.deep_view(),
            model: self.model.deep_view(),
            value: self.value.deep_view(),
            params: self.params.deep_view(),
        }
    }
}

/// The rule of [`CComponent`].
#[verifier::opaque]
pub open spec fn c_component_at(ts: Seq<AtomView>, pos: nat) -> Outcome<CComponentView> {
    match name_at(ts, pos) {
        (Ok(name), p1) => {
            match node_at(ts, p1) {
                (Ok(node1), p2) => {
                    match node_at(ts, p2) {
                        (Ok(node2), p3) => {
                            match optional_name_at(ts, p3) {
                                (Ok(model), p4) => {
                                    match number_at(ts, p4) {
                                        (Ok(value), p5) => {
                                            match c_component_params_at(ts, p5) {
                                                (Ok(params), p6) => {
                                                    (Ok(CComponentView { name, node1, node2, model, value, params }), p6)
                                                },
                                                (Err(e), p6) => (Err(e), p6),
                                            }
                                        },
                                        (Err(e), p5) => (Err(e), p5),
                                    }
                                },
                                (Err(e), p4) => (Err(e), p4),
                            }
                        },
                        (Err(e), p3) => (Err(e), p3),
                    }
                },
                (Err(e), p2) => (Err(e), p2),
            }
        },
        (Err(e), p1) => (Err(e), p1),
    }
}

impl<'a> SpiceLineParser<'a> {
    /// Parses a [`CComponent`].
    pub fn parse_c_component(&mut self) -> (r: ParseResult<CComponent>)
        ensures
            parsed(*old(self), *final(self), r, c_component_at(old(self).tokens(), old(self).cursor())),
            r is Ok ==> old(self).position < final(self).position <= old(self).vec.len(),
    {
        reveal(c_component_at);
        let name = self.parse_name()?;
        let node1 = self.parse_node()?;
        let node2 = self.parse_node()?;
        let model = self.parse_optional_name()?;
        let value = self.parse_number()?;
        let params = self.parse_c_component_params()?;
        Ok(CComponent { name, node1, node2, model, value, params })
    }
}

impl TryParse<CComponent> for SpiceLineParser<'_> {
    open spec fn rule(ts: Seq<AtomView>, pos: nat) -> Outcome<CComponentView> {
        c_component_at(ts, pos)
    }

    fn try_parse(&mut self) -> (r: ParseResult<CComponent>) {
        self.parse_c_component()
    }
}

impl ExposeNodes for CComponent {
    open spec fn exposed(&self) -> Seq<Node> {
        seq![self.node1, self.node2]
    }

    fn nodes(&self) -> (ret: Vec<Node>) {
        let mut ret: Vec<Node> = Vec::new();
        ret.push(self.node1.clone());
        ret.push(self.node2.clone());
        ret
    }
}

/// A [`CComponent`] that the end of the line may have cut short: each field is
/// there if the line reached it, and `position` counts the fields that
/// were tried.
#[derive(Debug, Clone)]
pub struct CComponentPartial {
    pub position: u32,
    pub name: Option<Name>,
    pub node1: Option<Node>,
    pub node2: Option<Node>,
    pub model: Option<Option<Name>>,
    pub value: Option<Number>,
    pub params: Option<CComponentParams>,
}

/// Mathematical content of a [`CComponentPartial`].
pub struct CComponentPartialView {
    pub position: u32,
    pub name: Option<AtomView>,
    pub node1: Option<AtomView>,
    pub node2: Option<AtomView>,
    pub model: Option<Option<AtomView>>,
    pub value: Option<NumberView>,
    pub params: Option<CComponentParamsView>,
}

impl DeepView for CComponentPartial {
    type V = CComponentPartialView;

    open spec fn deep_view(&self) -> CComponentPartialView {
        CComponentPartialView {
            position: self.position,
            name: self.name.deep_view(),
            node1: self.node1.deep_view(),
            node2: self.node2.deep_view(),
            model: self.model.deep_view(),
            value: self.value.deep_view(),
            params: self.params.deep_view(),
        }
    }
}

impl CComponentPartialView {
    /// Each field that is there follows one that is there.
    pub open spec fn in_order(self) -> bool {
        &&& self.node1 is Some ==> self.name is Some
        &&& self.node2 is Some ==> self.node1 is Some
        &&& self.model is Some ==> self.node2 is Some
        &&& self.value is Some ==> self.model is Some
        &&& self.params is Some ==> self.value is Some
    }
}

/// The rule of [`CComponentPartial`]: the fields of [`CComponent`] in order, up to the end of
/// the line.
#[verifier::opaque]
pub open spec fn c_component_partial_at(ts: Seq<AtomView>, pos: nat) -> Outcome<CComponentPartialView> {
    match partial_field(false, 0u32, pos, name_at(ts, pos)) {
        Ok((name, eof1, n1, p1)) => {
            match partial_field(eof1, n1, p1, node_at(ts, p1)) {
                Ok((node1, eof2, n2, p2)) => {
                    match partial_field(eof2, n2, p2, node_at(ts, p2)) {
                        Ok((node2, eof3, n3, p3)) => {
                            match partial_field(eof3, n3, p3, optional_name_at(ts, p3)) {
                                Ok((model, eof4, n4, p4)) => {
                                    match partial_field(eof4, n4, p4, number_at(ts, p4)) {
                                        Ok((value, eof5, n5, p5)) => {
                                            match partial_field(eof5, n5, p5, c_component_params_at(ts, p5)) {
                                                Ok((params, eof6, n6, p6)) => {
                                                    (Ok(CComponentPartialView { position: n6, name, node1, node2, model, value, params }), p6)
                                                },
                                                Err((e, p6)) => (Err(e), p6),
                                            }
                                        },
                                        Err((e, p5)) => (Err(e), p5),
                                    }
                                },
                                Err((e, p4)) => (Err(e), p4),
                            }
                        },
                        Err((e, p3)) => (Err(e), p3),
                    }
                },
                Err((e, p2)) => (Err(e), p2),
            }
        },
        Err((e, p1)) => (Err(e), p1),
    }
}

impl<'a> SpiceLineParser<'a> {
    /// Parses a [`CComponent`] as far as the line goes.
    pub fn parse_c_component_partial(&mut self) -> (r: ParseResult<CComponentPartial>)
        ensures
            parsed(*old(self), *final(self), r, c_component_partial_at(old(self).tokens(), old(self).cursor())),
            r matches Ok(v) ==> v.deep_view().in_order(),
    {
        reveal(c_component_partial_at);
        let mut is_eof = false;
        let mut position: u32 = 0;
        let name = if !is_eof {
            position += 1;
            partial_of(self.parse_name(), &mut is_eof)?
        } else {
            None
        };
        let node1 = if !is_eof {
            position += 1;
            partial_of(self.parse_node(), &mut is_eof)?
        } else {
            None
        };
        let node2 = if !is_eof {
            position += 1;
            partial_of(self.parse_node(), &mut is_eof)?
        } else {
            None
        };
        let model = if !is_eof {
            position += 1;
            partial_of(self.parse_optional_name(), &mut is_eof)?
        } else {
            None
        };
        let value = if !is_eof {
            position += 1;
            partial_of(self.parse_number(), &mut is_eof)?
        } else {
            None
        };
        let params = if !is_eof {
            position += 1;
            partial_of(self.parse_c_component_params(), &mut is_eof)?
        } else {
            None
        };
        Ok(CComponentPartial { position, name, node1, node2, model, value, params })
    }
}

impl PartialParse<CComponentPartial> for SpiceLineParser<'_> {
    open spec fn partial_rule(ts: Seq<AtomView>, pos: nat) -> Outcome<CComponentPartialView> {
        c_component_partial_at(ts, pos)
    }

    fn try_partial(&mut self) -> (r: ParseResult<CComponentPartial>) {
        self.parse_c_component_partial()
    }

    fn info(&mut self) -> (r: ParseResult<(CComponentPartial, Vec<Element>)>) {
        let v = self.parse_c_component_partial()?;
        Ok((v, Vec::new()))
    }
}

/// A field of a [`CComponentPartial`] is there only if every field before it is.
pub proof fn lemma_c_component_partial_in_order(ts: Seq<AtomView>, pos: nat)
    ensures
        c_component_partial_at(ts, pos).0 matches Ok(v) ==> v.in_order(),
{
    reveal(c_component_partial_at);
}

/// A diode: `D<name> <(+) node> <(-) node> <model name> [area value]`
#[derive(Debug, Clone, PartialEq)]
pub struct DComponent {
    pub name: Name,
    pub node1: Node,
    pub node2: Node,
    pub model: Name,
    pub area: Option<Number>,
}

/// Mathematical content of a [`DComponent`].
pub struct DComponentView {
    pub name: AtomView,
    pub node1: AtomView,
    pub node2: AtomView,
    pub model: AtomView,
    pub area: Option<NumberView>,
}

impl DeepView for DComponent {
    type V = DComponentView;

    open spec fn deep_view(&self) -> DComponentView {
        DComponentView {
            name: self.name.deep_view(),
            node1: self.node1.deep_view(),
            node2: self.node2.deep_view(),
            model: self.model.deep_view(),
            area: self.area.deep_view(),
        }
    }
}

/// The rule of [`DComponent`].
#[verifier::opaque]
pub open spec fn d_component_at(ts: Seq<AtomView>, pos: nat) -> Outcome<DComponentView> {
    match name_at(ts, pos) {
        (Ok(name), p1) => {
            match node_at(ts, p1) {
                (Ok(node1), p2) => {
                    match node_at(ts, p2) {
                        (Ok(node2), p3) => {
                            match name_at(ts, p3) {
                                (Ok(model), p4) => {
                                    match optional_number_at(ts, p4) {
                                        (Ok(area), p5) => {
                                            (Ok(DComponentView { name, node1, node2, model, area }), p5)
                                        },
                                        (Err(e), p5) => (Err(e), p5),
                                    }
                                },
                                (Err(e), p4) => (Err(e), p4),
                            }
                        },
                        (Err(e), p3) => (Err(e), p3),
                    }
                },
                (Err(e), p2) => (Err(e), p2),
            }
        },
        (Err(e), p1) => (Err(e), p1),
    }
}

impl<'a> SpiceLineParser<'a> {
    /// Parses a [`DComponent`].
    pub fn parse_d_component(&mut self) -> (r: ParseResult<DComponent>)
        ensures
            parsed(*old(self), *final(self), r, d_component_at(old(self).tokens(), old(self).cursor())),
            r is Ok ==> old(self).position < final(self).position <= old(self).vec.len(),
    {
        reveal(d_component_at);
        let name = self.parse_name()?;
        let node1 = self.parse_node()?;
        let node2 = self.parse_node()?;
        let model = self.parse_name()?;
        let area = self.parse_optional_number()?;
        Ok(DComponent { name, node1, node2, model, area })
    }
}

impl TryParse<DComponent> for SpiceLineParser<'_> {
    open spec fn rule(ts: Seq<AtomView>, pos: nat) -> Outcome<DComponentView> {
        d_component_at(ts, pos)
    }

    fn try_parse(&mut self) -> (r: ParseResult<DComponent>) {
        self.parse_d_component()
    }
}

impl ExposeNodes for DComponent {
    open spec fn exposed(&self) -> Seq<Node> {
        seq![self.node1, self.node2]
    }

    fn nodes(&self) -> (ret: Vec<Node>) {
        let mut ret: Vec<Node> = Vec::new();
        ret.push(self.node1.clone());
        ret.push(self.node2.clone());
        ret
    }
}

/// A [`DComponent`] that the end of the line may have cut short: each field is
/// there if the line reached it, and `position` counts the fields that
/// were tried.
#[derive(Debug, Clone)]
pub struct DComponentPartial {
    pub position: u32,
    pub name: Option<Name>,
    pub node1: Option<Node>,
    pub node2: Option<Node>,
    pub model: Option<Name>,
    pub area: Option<Option<Number>>,
}

/// Mathematical content of a [`DComponentPartial`].
pub struct DComponentPartialView {
    pub position: u32,
    pub name: Option<AtomView>,
    pub node1: Option<AtomView>,
    pub node2: Option<AtomView>,
    pub model: Option<AtomView>,
    pub area: Option<Option<NumberView>>,
}

impl DeepView for DComponentPartial {
    type V = DComponentPartialView;

    open spec fn deep_view(&self) -> DComponentPartialView {
        DComponentPartialView {
            position: self.position,
            name: self.name.deep_view(),
            node1: self.node1.deep_view(),
            node2: self.node2.deep_view(),
            model: self.model.deep_view(),
            area: self.area.deep_view(),
        }
    }
}

impl DComponentPartialView {
    /// Each field that is there follows one that is there.
    pub open spec fn in_order(self) -> bool {
        &&& self.node1 is Some ==> self.name is Some
        &&& self.node2 is Some ==> self.node1 is Some
        &&& self.model is Some ==> self.node2 is Some
        &&& self.area is Some ==> self.model is Some
    }
}

/// The rule of [`DComponentPartial`]: the fields of [`DComponent`] in order, up to the end of
/// the line.
#[verifier::opaque]
pub open spec fn d_component_partial_at(ts: Seq<AtomView>, pos: nat) -> Outcome<DComponentPartialView> {
    match partial_field(false, 0u32, pos, name_at(ts, pos)) {
        Ok((name, eof1, n1, p1)) => {
            match partial_field(eof1, n1, p1, node_at(ts, p1)) {
                Ok((node1, eof2, n2, p2)) => {
                    match partial_field(eof2, n2, p2, node_at(ts, p2)) {
                        Ok((node2, eof3, n3, p3)) => {
                            match partial_field(eof3, n3, p3, name_at(ts, p3)) {
                                Ok((model, eof4, n4, p4)) => {
                                    match partial_field(eof4, n4, p4, optional_number_at(ts, p4)) {
                                        Ok((area, eof5, n5, p5)) => {
                                            (Ok(DComponentPartialView { position: n5, name, node1, node2, model, area }), p5)
                                        },
                                        Err((e, p5)) => (Err(e), p5),
                                    }
                                },
                                Err((e, p4)) => (Err(e), p4),
                            }
                        },
                        Err((e, p3)) => (Err(e), p3),
                    }
                },
                Err((e, p2)) => (Err(e), p2),
            }
        },
        Err((e, p1)) => (Err(e), p1),
    }
}

impl<'a> SpiceLineParser<'a> {
    /// Parses a [`DComponent`] as far as the line goes.
    pub fn parse_d_component_partial(&mut self) -> (r: ParseResult<DComponentPartial>)
        ensures
            parsed(*old(self), *final(self), r, d_component_partial_at(old(self).tokens(), old(self).cursor())),
            r matches Ok(v) ==> v.deep_view().in_order(),
    {
        reveal(d_component_partial_at);
        let mut is_eof = false;
        let mut position: u32 = 0;
        let name = if !is_eof {
            position += 1;
            partial_of(self.parse_name(), &mut is_eof)?
        } else {
            None
        };
        let node1 = if !is_eof {
            position += 1;
            partial_of(self.parse_node(), &mut is_eof)?
        } else {
            None
        };
        let node2 = if !is_eof {
            position += 1;
            partial_of(self.parse_node(), &mut is_eof)?
        } else {
            None
        };
        let model = if !is_eof {
            position += 1;
            partial_of(self.parse_name(), &mut is_eof)?
        } else {
            None
        };
        let area = if !is_eof {
            position += 1;
            partial_of(self.parse_optional_number(), &mut is_eof)?
        } else {
            None
        };
        Ok(DComponentPartial { position, name, node1, node2, model, area })
    }
}

impl PartialParse<DComponentPartial> for SpiceLineParser<'_> {
    open spec fn partial_rule(ts: Seq<AtomView>, pos: nat) -> Outcome<DComponentPartialView> {
        d_component_partial_at(ts, pos)
    }

    fn try_partial(&mut self) -> (r: ParseResult<DComponentPartial>) {
        self.parse_d_component_partial()
    }

    fn info(&mut self) -> (r: ParseResult<(DComponentPartial, Vec<Element>)>) {
        let v = self.parse_d_component_partial()?;
        Ok((v, Vec::new()))
    }
}

/// A field of a [`DComponentPartial`] is there only if every field before it is.
pub proof fn lemma_d_component_partial_in_order(ts: Seq<AtomView>, pos: nat)
    ensures
        d_component_partial_at(ts, pos).0 matches Ok(v) ==> v.in_order(),
{
    reveal(d_component_partial_at);
}

/// A voltage source controlled by a voltage: `E<name> <(+) node> <(-) node> <gain>`
#[derive(Debug, Clone, PartialEq)]
pub struct EComponent {
    pub name: Name,
    pub node1: Node,
    pub node2: Node,
    pub gain: VoltageGain,
}

/// Mathematical content of a [`EComponent`].
pub struct EComponentView {
    pub name: AtomView,
    pub node1: AtomView,
    pub node2: AtomView,
    pub gain: VoltageGainView,
}

impl DeepView for EComponent {
    type V = EComponentView;

    open spec fn deep_view(&self) -> EComponentView {
        EComponentView {
            name: self.name.deep_view(),
            node1: self.node1.deep_view(),
            node2: self.node2.deep_view(),
            gain: self.gain.deep_view(),
        }
    }
}

/// The rule of [`EComponent`].
#[verifier::opaque]
pub open spec fn e_component_at(ts: Seq<AtomView>, pos: nat) -> Outcome<EComponentView> {
    match name_at(ts, pos) {
        (Ok(name), p1) => {
            match node_at(ts, p1) {
                (Ok(node1), p2) => {
                    match node_at(ts, p2) {
                        (Ok(node2), p3) => {
                            match voltage_gain_at(ts, p3) {
                                (Ok(gain), p4) => {
                                    (Ok(EComponentView { name, node1, node2, gain }), p4)
                                },
                                (Err(e), p4) => (Err(e), p4),
                            }
                        },
                        (Err(e), p3) => (Err(e), p3),
                    }
                },
                (Err(e), p2) => (Err(e), p2),
            }
        },
        (Err(e), p1) => (Err(e), p1),
    }
}

impl<'a> SpiceLineParser<'a> {
    /// Parses a [`EComponent`].
    pub fn parse_e_component(&mut self) -> (r: ParseResult<EComponent>)
        ensures
            parsed(*old(self), *final(self), r, e_component_at(old(self).tokens(), old(self).cursor())),
            r is Ok ==> old(self).position < final(self).position <= old(self).vec.len(),
    {
        reveal(e_component_at);
        let name = self.parse_name()?;
        let node1 = self.parse_node()?;
        let node2 = self.parse_node()?;
        let gain = self.parse_voltage_gain()?;
        Ok(EComponent { name, node1, node2, gain })
    }
}

impl TryParse<EComponent> for SpiceLineParser<'_> {
    open spec fn rule(ts: Seq<AtomView>, pos: nat) -> Outcome<EComponentView> {
        e_component_at(ts, pos)
    }

    fn try_parse(&mut self) -> (r: ParseResult<EComponent>) {
        self.parse_e_component()
    }
}

impl ExposeNodes for EComponent {
    open spec fn exposed(&self) -> Seq<Node> {
        seq![self.node1, self.node2]
    }

    fn nodes(&self) -> (ret: Vec<Node>) {
        let mut ret: Vec<Node> = Vec::new();
        ret.push(self.node1.clone());
        ret.push(self.node2.clone());
        ret
    }
}

/// A [`EComponent`] that the end of the line may have cut short: each field is
/// there if the line reached it, and `position` counts the fields that
/// were tried.
#[derive(Debug, Clone)]
pub struct EComponentPartial {
    pub position: u32,
    pub name: Option<Name>,
    pub node1: Option<Node>,
    pub node2: Option<Node>,
    pub gain: Option<VoltageGain>,
}

/// Mathematical content of a [`EComponentPartial`].
pub struct EComponentPartialView {
    pub position: u32,
    pub name: Option<AtomView>,
    pub node1: Option<AtomView>,
    pub node2: Option<AtomView>,
    pub gain: Option<VoltageGainView>,
}

impl DeepView for EComponentPartial {
    type V = EComponentPartialView;

    open spec fn deep_view(&self) -> EComponentPartialView {
        EComponentPartialView {
            position: self.position,
            name: self.name.deep_view(),
            node1: self.node1.deep_view(),
            node2: self.node2.deep_view(),
            gain: self.gain.deep_view(),
        }
    }
}

impl EComponentPartialView {
    /// Each field that is there follows one that is there.
    pub open spec fn in_order(self) -> bool {
        &&& self.node1 is Some ==> self.name is Some
        &&& self.node2 is Some ==> self.node1 is Some
        &&& self.gain is Some ==> self.node2 is Some
    }
}

/// The rule of [`EComponentPartial`]: the fields of [`EComponent`] in order, up to the end of
/// the line.
#[verifier::opaque]
pub open spec fn e_component_partial_at(ts: Seq<AtomView>, pos: nat) -> Outcome<EComponentPartialView> {
    match partial_field(false, 0u32, pos, name_at(ts, pos)) {
        Ok((name, eof1, n1, p1)) => {
            match partial_field(eof1, n1, p1, node_at(ts, p1)) {
                Ok((node1, eof2, n2, p2)) => {
                    match partial_field(eof2, n2, p2, node_at(ts, p2)) {
                        Ok((node2, eof3, n3, p3)) => {
                            match partial_field(eof3, n3, p3, voltage_gain_at(ts, p3)) {
                                Ok((gain, eof4, n4, p4)) => {
                                    (Ok(EComponentPartialView { position: n4, name, node1, node2, gain }), p4)
                                },
                                Err((e, p4)) => (Err(e), p4),
                            }
                        },
                        Err((e, p3)) => (Err(e), p3),
                    }
                },
                Err((e, p2)) => (Err(e), p2),
            }
        },
        Err((e, p1)) => (Err(e), p1),
    }
}

impl<'a> SpiceLineParser<'a> {
    /// Parses a [`EComponent`] as far as the line goes.
    pub fn parse_e_component_partial(&mut self) -> (r: ParseResult<EComponentPartial>)
        ensures
            parsed(*old(self), *final(self), r, e_component_partial_at(old(self).tokens(), old(self).cursor())),
            r matches Ok(v) ==> v.deep_view().in_order(),
    {
        reveal(e_component_partial_at);
        let mut is_eof = false;
        let mut position: u32 = 0;
        let name = if !is_eof {
            position += 1;
            partial_of(self.parse_name(), &mut is_eof)?
        } else {
            None
        };
        let node1 = if !is_eof {
            position += 1;
            partial_of(self.parse_node(), &mut is_eof)?
        } else {
            None
        };
        let node2 = if !is_eof {
            position += 1;
            partial_of(self.parse_node(), &mut is_eof)?
        } else {
            None
        };
        let gain = if !is_eof {
            position += 1;
            partial_of(self.parse_voltage_gain(), &mut is_eof)?
        } else {
            None
        };
        Ok(EComponentPartial { position, name, node1, node2, gain })
    }
}

impl PartialParse<EComponentPartial> for SpiceLineParser<'_> {
    open spec fn partial_rule(ts: Seq<AtomView>, pos: nat) -> Outcome<EComponentPartialView> {
        e_component_partial_at(ts, pos)
    }

    fn try_partial(&mut self) -> (r: ParseResult<EComponentPartial>) {
        self.parse_e_component_partial()
    }

    fn info(&mut self) -> (r: ParseResult<(EComponentPartial, Vec<Element>)>) {
        let v = self.parse_e_component_partial()?;
        Ok((v, Vec::new()))
    }
}

/// A field of a [`EComponentPartial`] is there only if every field before it is.
pub proof fn lemma_e_component_partial_in_order(ts: Seq<AtomView>, pos: nat)
    ensures
        e_component_partial_at(ts, pos).0 matches Ok(v) ==> v.in_order(),
{
    reveal(e_component_partial_at);
}

/// A current source controlled by a current: `F<name> <(+) node> <(-) node> <gain>`
#[derive(Debug, Clone, PartialEq)]
pub struct FComponent {
    pub name: Name,
    pub node1: Node,
    pub node2: Node,
    pub gain: CurrentGain,
}

/// Mathematical content of a [`FComponent`].
pub struct FComponentView {
    pub name: AtomView,
    pub node1: AtomView,
    pub node2: AtomView,
    pub gain: CurrentGainView,
}

impl DeepView for FComponent {
    type V = FComponentView;

    open spec fn deep_view(&self) -> FComponentView {
        FComponentView {
            name: self.name.deep_view(),
            node1: self.node1.deep_view(),
            node2: self.node2.deep_view(),
            gain: self.gain.deep_view(),
        }
    }
}

/// The rule of [`FComponent`].
#[verifier::opaque]
pub open spec fn f_component_at(ts: Seq<AtomView>, pos: nat) -> Outcome<FComponentView> {
    match name_at(ts, pos) {
        (Ok(name), p1) => {
            match node_at(ts, p1) {
                (Ok(node1), p2) => {
                    match node_at(ts, p2) {
                        (Ok(node2), p3) => {
                            match current_gain_at(ts, p3) {
                                (Ok(gain), p4) => {
                                    (Ok(FComponentView { name, node1, node2, gain }), p4)
                                },
                                (Err(e), p4) => (Err(e), p4),
                            }
                        },
                        (Err(e), p3) => (Err(e), p3),
                    }
                },
                (Err(e), p2) => (Err(e), p2),
            }
        },
        (Err(e), p1) => (Err(e), p1),
    }
}

impl<'a> SpiceLineParser<'a> {
    /// Parses a [`FComponent`].
    pub fn parse_f_component(&mut self) -> (r: ParseResult<FComponent>)
        ensures
            parsed(*old(self), *final(self), r, f_component_at(old(self).tokens(), old(self).cursor())),
            r is Ok ==> old(self).position < final(self).position <= old(self).vec.len(),
    {
        reveal(f_component_at);
        let name = self.parse_name()?;
        let node1 = self.parse_node()?;
        let node2 = self.parse_node()?;
        let gain = self.parse_current_gain()?;
        Ok(FComponent { name, node1, node2, gain })
    }
}

impl TryParse<FComponent> for SpiceLineParser<'_> {
    open spec fn rule(ts: Seq<AtomView>, pos: nat) -> Outcome<FComponentView> {
        f_component_at(ts, pos)
    }

    fn try_parse(&mut self) -> (r: ParseResult<FComponent>) {
        self.parse_f_component()
    }
}

impl ExposeNodes for FComponent {
    open spec fn exposed(&self) -> Seq<Node> {
        seq![self.node1, self.node2]
    }

    fn nodes(&self) -> (ret: Vec<Node>) {
        let mut ret: Vec<Node> = Vec::new();
        ret.push(self.node1.clone());
        ret.push(self.node2.clone());
        ret
    }
}

/// A [`FComponent`] that the end of the line may have cut short: each field is
/// there if the line reached it, and `position` counts the fields that
/// were tried.
#[derive(Debug, Clone)]
pub struct FComponentPartial {
    pub position: u32,
    pub name: Option<Name>,
    pub node1: Option<Node>,
    pub node2: Option<Node>,
    pub gain: Option<CurrentGain>,
}

/// Mathematical content of a [`FComponentPartial`].
pub struct FComponentPartialView {
    pub position: u32,
    pub name: Option<AtomView>,
    pub node1: Option<AtomView>,
    pub node2: Option<AtomView>,
    pub gain: Option<CurrentGainView>,
}

impl DeepView for FComponentPartial {
    type V = FComponentPartialView;

    open spec fn deep_view(&self) -> FComponentPartialView {
        FComponentPartialView {
            position: self.position,
            name: self.name.deep_view(),
            node1: self.node1.deep_view(),
            node2: self.node2.deep_view(),
            gain: self.gain.deep_view(),
        }
    }
}

impl FComponentPartialView {
    /// Each field that is there follows one that is there.
    pub open spec fn in_order(self) -> bool {
        &&& self.node1 is Some ==> self.name is Some
        &&& self.node2 is Some ==> self.node1 is Some
        &&& self.gain is Some ==> self.node2 is Some
    }
}

/// The rule of [`FComponentPartial`]: the fields of [`FComponent`] in order, up to the end of
/// the line.
#[verifier::opaque]
pub open spec fn f_component_partial_at(ts: Seq<AtomView>, pos: nat) -> Outcome<FComponentPartialView> {
    match partial_field(false, 0u32, pos, name_at(ts, pos)) {
        Ok((name, eof1, n1, p1)) => {
            match partial_field(eof1, n1, p1, node_at(ts, p1)) {
                Ok((node1, eof2, n2, p2)) => {
                    match partial_field(eof2, n2, p2, node_at(ts, p2)) {
                        Ok((node2, eof3, n3, p3)) => {
                            match partial_field(eof3, n3, p3, current_gain_at(ts, p3)) {
                                Ok((gain, eof4, n4, p4)) => {
                                    (Ok(FComponentPartialView { position: n4, name, node1, node2, gain }), p4)
                                },
                                Err((e, p4)) => (Err(e), p4),
                            }
                        },
                        Err((e, p3)) => (Err(e), p3),
                    }
                },
                Err((e, p2)) => (Err(e), p2),
            }
        },
        Err((e, p1)) => (Err(e), p1),
    }
}

impl<'a> SpiceLineParser<'a> {
    /// Parses a [`FComponent`] as far as the line goes.
    pub fn parse_f_component_partial(&mut self) -> (r: ParseResult<FComponentPartial>)
        ensures
            parsed(*old(self), *final(self), r, f_component_partial_at(old(self).tokens(), old(self).cursor())),
            r matches Ok(v) ==> v.deep_view().in_order(),
    {
        reveal(f_component_partial_at);
        let mut is_eof = false;
        let mut position: u32 = 0;
        let name = if !is_eof {
            position += 1;
            partial_of(self.parse_name(), &mut is_eof)?
        } else {
            None
        };
        let node1 = if !is_eof {
            position += 1;
            partial_of(self.parse_node(), &mut is_eof)?
        } else {
            None
        };
        let node2 = if !is_eof {
            position += 1;
            partial_of(self.parse_node(), &mut is_eof)?
        } else {
            None
        };
        let gain = if !is_eof {
            position += 1;
            partial_of(self.parse_current_gain(), &mut is_eof)?
        } else {
            None
        };
        Ok(FComponentPartial { position, name, node1, node2, gain })
    }
}

impl PartialParse<FComponentPartial> for SpiceLineParser<'_> {
    open spec fn partial_rule(ts: Seq<AtomView>, pos: nat) -> Outcome<FComponentPartialView> {
        f_component_partial_at(ts, pos)
    }

    fn try_partial(&mut self) -> (r: ParseResult<FComponentPartial>) {
        self.parse_f_component_partial()
    }

    fn info(&mut self) -> (r: ParseResult<(FComponentPartial, Vec<Element>)>) {
        let v = self.parse_f_component_partial()?;
        Ok((v, Vec::new()))
    }
}

/// A field of a [`FComponentPartial`] is there only if every field before it is.
pub proof fn lemma_f_component_partial_in_order(ts: Seq<AtomView>, pos: nat)
    ensures
        f_component_partial_at(ts, pos).0 matches Ok(v) ==> v.in_order(),
{
    reveal(f_component_partial_at);
}

/// A current source controlled by a voltage: `G<name> <(+) node> <(-) node> <gain>`
#[derive(Debug, Clone, PartialEq)]
pub struct GComponent {
    pub name: Name,
    pub node1: Node,
    pub node2: Node,
    pub gain: VoltageGain,
}

/// Mathematical content of a [`GComponent`].
pub struct GComponentView {
    pub name: AtomView,
    pub node1: AtomView,
    pub node2: AtomView,
    pub gain: VoltageGainView,
}

impl DeepView for GComponent {
    type V = GComponentView;

    open spec fn deep_view(&self) -> GComponentView {
        GComponentView {
            name: self.name.deep_view(),
            node1: self.node1.deep_view(),
            node2: self.node2.deep_view(),
            gain: self.gain.deep_view(),
        }
    }
}

/// The rule of [`GComponent`].
#[verifier::opaque]
pub open spec fn g_component_at(ts: Seq<AtomView>, pos: nat) -> Outcome<GComponentView> {
    match name_at(ts, pos) {
        (Ok(name), p1) => {
            match node_at(ts, p1) {
                (Ok(node1), p2) => {
                    match node_at(ts, p2) {
                        (Ok(node2), p3) => {
                            match voltage_gain_at(ts, p3) {
                                (Ok(gain), p4) => {
                                    (Ok(GComponentView { name, node1, node2, gain }), p4)
                                },
                                (Err(e), p4) => (Err(e), p4),
                            }
                        },
                        (Err(e), p3) => (Err(e), p3),
                    }
                },
                (Err(e), p2) => (Err(e), p2),
            }
        },
        (Err(e), p1) => (Err(e), p1),
    }
}

impl<'a> SpiceLineParser<'a> {
    /// Parses a [`GComponent`].
    pub fn parse_g_component(&mut self) -> (r: ParseResult<GComponent>)
        ensures
            parsed(*old(self), *final(self), r, g_component_at(old(self).tokens(), old(self).cursor())),
            r is Ok ==> old(self).position < final(self).position <= old(self).vec.len(),
    {
        reveal(g_component_at);
        let name = self.parse_name()?;
        let node1 = self.parse_node()?;
        let node2 = self.parse_node()?;
        let gain = self.parse_voltage_gain()?;
        Ok(GComponent { name, node1, node2, gain })
    }
}

impl TryParse<GComponent> for SpiceLineParser<'_> {
    open spec fn rule(ts: Seq<AtomView>, pos: nat) -> Outcome<GComponentView> {
        g_component_at(ts, pos)
    }

    fn try_parse(&mut self) -> (r: ParseResult<GComponent>) {
        self.parse_g_component()
    }
}

impl ExposeNodes for GComponent {
    open spec fn exposed(&self) -> Seq<Node> {
        seq![self.node1, self.node2]
    }

    fn nodes(&self) -> (ret: Vec<Node>) {
        let mut ret: Vec<Node> = Vec::new();
        ret.push(self.node1.clone());
        ret.push(self.node2.clone());
        ret
    }
}

/// A [`GComponent`] that the end of the line may have cut short: each field is
/// there if the line reached it, and `position` counts the fields that
/// were tried.
#[derive(Debug, Clone)]
pub struct GComponentPartial {
    pub position: u32,
    pub name: Option<Name>,
    pub node1: Option<Node>,
    pub node2: Option<Node>,
    pub gain: Option<VoltageGain>,
}

/// Mathematical content of a [`GComponentPartial`].
pub struct GComponentPartialView {
    pub position: u32,
    pub name: Option<AtomView>,
    pub node1: Option<AtomView>,
    pub node2: Option<AtomView>,
    pub gain: Option<VoltageGainView>,
}

impl DeepView for GComponentPartial {
    type V = GComponentPartialView;

    open spec fn deep_view(&self) -> GComponentPartialView {
        GComponentPartialView {
            position: self.position,
            name: self.name.deep_view(),
            node1: self.node1.deep_view(),
            node2: self.node2.deep_view(),
            gain: self.gain.deep_view(),
        }
    }
}

impl GComponentPartialView {
    /// Each field that is there follows one that is there.
    pub open spec fn in_order(self) -> bool {
        &&& self.node1 is Some ==> self.name is Some
        &&& self.node2 is Some ==> self.node1 is Some
        &&& self.gain is Some ==> self.node2 is Some
    }
}

/// The rule of [`GComponentPartial`]: the fields of [`GComponent`] in order, up to the end of
/// the line.
#[verifier::opaque]
pub open spec fn g_component_partial_at(ts: Seq<AtomView>, pos: nat) -> Outcome<GComponentPartialView> {
    match partial_field(false, 0u32, pos, name_at(ts, pos)) {
        Ok((name, eof1, n1, p1)) => {
            match partial_field(eof1, n1, p1, node_at(ts, p1)) {
                Ok((node1, eof2, n2, p2)) => {
                    match partial_field(eof2, n2, p2, node_at(ts, p2)) {
                        Ok((node2, eof3, n3, p3)) => {
                            match partial_field(eof3, n3, p3, voltage_gain_at(ts, p3)) {
                                Ok((gain, eof4, n4, p4)) => {
                                    (Ok(GComponentPartialView { position: n4, name, node1, node2, gain }), p4)
                                },
                                Err((e, p4)) => (Err(e), p4),
                            }
                        },
                        Err((e, p3)) => (Err(e), p3),
                    }
                },
                Err((e, p2)) => (Err(e), p2),
            }
        },
        Err((e, p1)) => (Err(e), p1),
    }
}

impl<'a> SpiceLineParser<'a> {
    /// Parses a [`GComponent`] as far as the line goes.
    pub fn parse_g_component_partial(&mut self) -> (r: ParseResult<GComponentPartial>)
        ensures
            parsed(*old(self), *final(self), r, g_component_partial_at(old(self).tokens(), old(self).cursor())),
            r matches Ok(v) ==> v.deep_view().in_order(),
    {
        reveal(g_component_partial_at);
        let mut is_eof = false;
        let mut position: u32 = 0;
        let name = if !is_eof {
            position += 1;
            partial_of(self.parse_name(), &mut is_eof)?
        } else {
            None
        };
        let node1 = if !is_eof {
            position += 1;
            partial_of(self.parse_node(), &mut is_eof)?
        } else {
            None
        };
        let node2 = if !is_eof {
            position += 1;
            partial_of(self.parse_node(), &mut is_eof)?
        } else {
            None
        };
        let gain = if !is_eof {
            position += 1;
            partial_of(self.parse_voltage_gain(), &mut is_eof)?
        } else {
            None
        };
        Ok(GComponentPartial { position, name, node1, node2, gain })
    }
}

impl PartialParse<GComponentPartial> for SpiceLineParser<'_> {
    open spec fn partial_rule(ts: Seq<AtomView>, pos: nat) -> Outcome<GComponentPartialView> {
        g_component_partial_at(ts, pos)
    }

    fn try_partial(&mut self) -> (r: ParseResult<GComponentPartial>) {
        self.parse_g_component_partial()
    }

    fn info(&mut self) -> (r: ParseResult<(GComponentPartial, Vec<Element>)>) {
        let v = self.parse_g_component_partial()?;
        Ok((v, Vec::new()))
    }
}

/// A field of a [`GComponentPartial`] is there only if every field before it is.
pub proof fn lemma_g_component_partial_in_order(ts: Seq<AtomView>, pos: nat)
    ensures
        g_component_partial_at(ts, pos).0 matches Ok(v) ==> v.in_order(),
{
    reveal(g_component_partial_at);
}

/// A voltage source controlled by a current: `H<name> <(+) node> <(-) node> <gain>`
#[derive(Debug, Clone, PartialEq)]
pub struct HComponent {
    pub name: Name,
    pub node1: Node,
    pub node2: Node,
    pub gain: CurrentGain,
}

/// Mathematical content of a [`HComponent`].
pub struct HComponentView {
    pub name: AtomView,
    pub node1: AtomView,
    pub node2: AtomView,
    pub gain: CurrentGainView,
}

impl DeepView for HComponent {
    type V = HComponentView;

    open spec fn deep_view(&self) -> HComponentView {
        HComponentView {
            name: self.name.deep_view(),
            node1: self.node1.deep_view(),
            node2: self.node2.deep_view(),
            gain: self.gain.deep_view(),
        }
    }
}

/// The rule of [`HComponent`].
#[verifier::opaque]
pub open spec fn h_component_at(ts: Seq<AtomView>, pos: nat) -> Outcome<HComponentView> {
    match name_at(ts, pos) {
        (Ok(name), p1) => {
            match node_at(ts, p1) {
                (Ok(node1), p2) => {
                    match node_at(ts, p2) {
                        (Ok(node2), p3) => {
                            match current_gain_at(ts, p3) {
                                (Ok(gain), p4) => {
                                    (Ok(HComponentView { name, node1, node2, gain }), p4)
                                },
                                (Err(e), p4) => (Err(e), p4),
                            }
                        },
                        (Err(e), p3) => (Err(e), p3),
                    }
                },
                (Err(e), p2) => (Err(e), p2),
            }
        },
        (Err(e), p1) => (Err(e), p1),
    }
}

impl<'a> SpiceLineParser<'a> {
    /// Parses a [`HComponent`].
    pub fn parse_h_component(&mut self) -> (r: ParseResult<HComponent>)
        ensures
            parsed(*old(self), *final(self), r, h_component_at(old(self).tokens(), old(self).cursor())),
            r is Ok ==> old(self).position < final(self).position <= old(self).vec.len(),
    {
        reveal(h_component_at);
        let name = self.parse_name()?;
        let node1 = self.parse_node()?;
        let node2 = self.parse_node()?;
        let gain = self.parse_current_gain()?;
        Ok(HComponent { name, node1, node2, gain })
    }
}

impl TryParse<HComponent> for SpiceLineParser<'_> {
    open spec fn rule(ts: Seq<AtomView>, pos: nat) -> Outcome<HComponentView> {
        h_component_at(ts, pos)
    }

    fn try_parse(&mut self) -> (r: ParseResult<HComponent>) {
        self.parse_h_component()
    }
}

impl ExposeNodes for HComponent {
    open spec fn exposed(&self) -> Seq<Node> {
        seq![self.node1, self.node2]
    }

    fn nodes(&self) -> (ret: Vec<Node>) {
        let mut ret: Vec<Node> = Vec::new();
        ret.push(self.node1.clone());
        ret.push(self.node2.clone());
        ret
    }
}

/// A [`HComponent`] that the end of the line may have cut short: each field is
/// there if the line reached it, and `position` counts the fields that
/// were tried.
#[derive(Debug, Clone)]
pub struct HComponentPartial {
    pub position: u32,
    pub name: Option<Name>,
    pub node1: Option<Node>,
    pub node2: Option<Node>,
    pub gain: Option<CurrentGain>,
}

/// Mathematical content of a [`HComponentPartial`].
pub struct HComponentPartialView {
    pub position: u32,
    pub name: Option<AtomView>,
    pub node1: Option<AtomView>,
    pub node2: Option<AtomView>,
    pub gain: Option<CurrentGainView>,
}

impl DeepView for HComponentPartial {
    type V = HComponentPartialView;

    open spec fn deep_view(&self) -> HComponentPartialView {
        HComponentPartialView {
            position: self.position,
            name: self.name.deep_view(),
            node1: self.node1.deep_view(),
            node2: self.node2.deep_view(),
            gain: self.gain.deep_view(),
        }
    }
}

impl HComponentPartialView {
    /// Each field that is there follows one that is there.
    pub open spec fn in_order(self) -> bool {
        &&& self.node1 is Some ==> self.name is Some
        &&& self.node2 is Some ==> self.node1 is Some
        &&& self.gain is Some ==> self.node2 is Some
    }
}

/// The rule of [`HComponentPartial`]: the fields of [`HComponent`] in order, up to the end of
/// the line.
#[verifier::opaque]
pub open spec fn h_component_partial_at(ts: Seq<AtomView>, pos: nat) -> Outcome<HComponentPartialView> {
    match partial_field(false, 0u32, pos, name_at(ts, pos)) {
        Ok((name, eof1, n1, p1)) => {
            match partial_field(eof1, n1, p1, node_at(ts, p1)) {
                Ok((node1, eof2, n2, p2)) => {
                    match partial_field(eof2, n2, p2, node_at(ts, p2)) {
                        Ok((node2, eof3, n3, p3)) => {
                            match partial_field(eof3, n3, p3, current_gain_at(ts, p3)) {
                                Ok((gain, eof4, n4, p4)) => {
                                    (Ok(HComponentPartialView { position: n4, name, node1, node2, gain }), p4)
                                },
                                Err((e, p4)) => (Err(e), p4),
                            }
                        },
                        Err((e, p3)) => (Err(e), p3),
                    }
                },
                Err((e, p2)) => (Err(e), p2),
            }
        },
        Err((e, p1)) => (Err(e), p1),
    }
}

impl<'a> SpiceLineParser<'a> {
    /// Parses a [`HComponent`] as far as the line goes.
    pub fn parse_h_component_partial(&mut self) -> (r: ParseResult<HComponentPartial>)
        ensures
            parsed(*old(self), *final(self), r, h_component_partial_at(old(self).tokens(), old(self).cursor())),
            r matches Ok(v) ==> v.deep_view().in_order(),
    {
        reveal(h_component_partial_at);
        let mut is_eof = false;
        let mut position: u32 = 0;
        let name = if !is_eof {
            position += 1;
            partial_of(self.parse_name(), &mut is_eof)?
        } else {
            None
        };
        let node1 = if !is_eof {
            position += 1;
            partial_of(self.parse_node(), &mut is_eof)?
        } else {
            None
        };
        let node2 = if !is_eof {
            position += 1;
            partial_of(self.parse_node(), &mut is_eof)?
        } else {
            None
        };
        let gain = if !is_eof {
            position += 1;
            partial_of(self.parse_current_gain(), &mut is_eof)?
        } else {
            None
        };
        Ok(HComponentPartial { position, name, node1, node2, gain })
    }
}

impl PartialParse<HComponentPartial> for SpiceLineParser<'_> {
    open spec fn partial_rule(ts: Seq<AtomView>, pos: nat) -> Outcome<HComponentPartialView> {
        h_component_partial_at(ts, pos)
    }

    fn try_partial(&mut self) -> (r: ParseResult<HComponentPartial>) {
        self.parse_h_component_partial()
    }

    fn info(&mut self) -> (r: ParseResult<(HComponentPartial, Vec<Element>)>) {
        let v = self.parse_h_component_partial()?;
        Ok((v, Vec::new()))
    }
}

/// A field of a [`HComponentPartial`] is there only if every field before it is.
pub proof fn lemma_h_component_partial_in_order(ts: Seq<AtomView>, pos: nat)
    ensures
        h_component_partial_at(ts, pos).0 matches Ok(v) ==> v.in_order(),
{
    reveal(h_component_partial_at);
}

/// An independent current source:
/// `I<name> <node1> <node2> [<dc>] [<ac>] [<transient>]`
#[derive(Debug, Clone, PartialEq)]
pub struct IComponent {
    pub name: Name,
    pub node1: Node,
    pub node2: Node,
    pub dc: Option<DcSource>,
    pub ac: Option<AcSource>,
    pub transient: Option<Transient>,
}

/// Mathematical content of a [`IComponent`].
pub struct IComponentView {
    pub name: AtomView,
    pub node1: AtomView,
    pub node2: AtomView,
    pub dc: Option<DcSourceView>,
    pub ac: Option<AcSourceView>,
    pub transient: Option<TransientView>,
}

impl DeepView for IComponent {
    type V = IComponentView;

    open spec fn deep_view(&self) -> IComponentView {
        IComponentView {
            name: self.name.deep_view(),
            node1: self.node1.deep_view(),
            node2: self.node2.deep_view(),
            dc: self.dc.deep_view(),
            ac: self.ac.deep_view(),
            transient: self.transient.deep_view(),
        }
    }
}

/// The rule of [`IComponent`].
#[verifier::opaque]
pub open spec fn i_component_at(ts: Seq<AtomView>, pos: nat) -> Outcome<IComponentView> {
    match name_at(ts, pos) {
        (Ok(name), p1) => {
            match node_at(ts, p1) {
                (Ok(node1), p2) => {
                    match node_at(ts, p2) {
                        (Ok(node2), p3) => {
                            match optional_dc_source_at(ts, p3) {
                                (Ok(dc), p4) => {
                                    match optional_ac_source_at(ts, p4) {
                                        (Ok(ac), p5) => {
                                            match optional_transient_at(ts, p5) {
                                                (Ok(transient), p6) => {
                                                    (Ok(IComponentView { name, node1, node2, dc, ac, transient }), p6)
                                                },
                                                (Err(e), p6) => (Err(e), p6),
                                            }
                                        },
                                        (Err(e), p5) => (Err(e), p5),
                                    }
                                },
                                (Err(e), p4) => (Err(e), p4),
                            }
                        },
                        (Err(e), p3) => (Err(e), p3),
                    }
                },
                (Err(e), p2) => (Err(e), p2),
            }
        },
        (Err(e), p1) => (Err(e), p1),
    }
}

impl<'a> SpiceLineParser<'a> {
    /// Parses a [`IComponent`].
    pub fn parse_i_component(&mut self) -> (r: ParseResult<IComponent>)
        ensures
            parsed(*old(self), *final(self), r, i_component_at(old(self).tokens(), old(self).cursor())),
            r is Ok ==> old(self).position < final(self).position <= old(self).vec.len(),
    {
        reveal(i_component_at);
        let name = self.parse_name()?;
        let node1 = self.parse_node()?;
        let node2 = self.parse_node()?;
        let dc = self.parse_optional_dc_source()?;
        let ac = self.parse_optional_ac_source()?;
        let transient = self.parse_optional_transient()?;
        Ok(IComponent { name, node1, node2, dc, ac, transient })
    }
}

impl TryParse<IComponent> for SpiceLineParser<'_> {
    open spec fn rule(ts: Seq<AtomView>, pos: nat) -> Outcome<IComponentView> {
        i_component_at(ts, pos)
    }

    fn try_parse(&mut self) -> (r: ParseResult<IComponent>) {
        self.parse_i_component()
    }
}

impl ExposeNodes for IComponent {
    open spec fn exposed(&self) -> Seq<Node> {
        seq![self.node1, self.node2]
    }

    fn nodes(&self) -> (ret: Vec<Node>) {
        let mut ret: Vec<Node> = Vec::new();
        ret.push(self.node1.clone());
        ret.push(self.node2.clone());
        ret
    }
}

/// A [`IComponent`] that the end of the line may have cut short: each field is
/// there if the line reached it, and `position` counts the fields that
/// were tried.
#[derive(Debug, Clone)]
pub struct IComponentPartial {
    pub position: u32,
    pub name: Option<Name>,
    pub node1: Option<Node>,
    pub node2: Option<Node>,
    pub dc: Option<Option<DcSource>>,
    pub ac: Option<Option<AcSource>>,
    pub transient: Option<Option<Transient>>,
}

/// Mathematical content of a [`IComponentPartial`].
pub struct IComponentPartialView {
    pub position: u32,
    pub name: Option<AtomView>,
    pub node1: Option<AtomView>,
    pub node2: Option<AtomView>,
    pub dc: Option<Option<DcSourceView>>,
    pub ac: Option<Option<AcSourceView>>,
    pub transient: Option<Option<TransientView>>,
}

impl DeepView for IComponentPartial {
    type V = IComponentPartialView;

    open spec fn deep_view(&self) -> IComponentPartialView {
        IComponentPartialView {
            position: self.position,
            name: self.name.deep_view(),
            node1: self.node1.deep_view(),
            node2: self.node2.deep_view(),
            dc: self.dc.deep_view(),
            ac: self.ac.deep_view(),
            transient: self.transient.deep_view(),
        }
    }
}

impl IComponentPartialView {
    /// Each field that is there follows one that is there.
    pub open spec fn in_order(self) -> bool {
        &&& self.node1 is Some ==> self.name is Some
        &&& self.node2 is Some ==> self.node1 is Some
        &&& self.dc is Some ==> self.node2 is Some
        &&& self.ac is Some ==> self.dc is Some
        &&& self.transient is Some ==> self.ac is Some
    }
}

/// The rule of [`IComponentPartial`]: the fields of [`IComponent`] in order, up to the end of
/// the line.
#[verifier::opaque]
pub open spec fn i_component_partial_at(ts: Seq<AtomView>, pos: nat) -> Outcome<IComponentPartialView> {
    match partial_field(false, 0u32, pos, name_at(ts, pos)) {
        Ok((name, eof1, n1, p1)) => {
            match partial_field(eof1, n1, p1, node_at(ts, p1)) {
                Ok((node1, eof2, n2, p2)) => {
                    match partial_field(eof2, n2, p2, node_at(ts, p2)) {
                        Ok((node2, eof3, n3, p3)) => {
                            match partial_field(eof3, n3, p3, optional_dc_source_at(ts, p3)) {
                                Ok((dc, eof4, n4, p4)) => {
                                    match partial_field(eof4, n4, p4, optional_ac_source_at(ts, p4)) {
                                        Ok((ac, eof5, n5, p5)) => {
                                            match partial_field(eof5, n5, p5, optional_transient_at(ts, p5)) {
                                                Ok((transient, eof6, n6, p6)) => {
                                                    (Ok(IComponentPartialView { position: n6, name, node1, node2, dc, ac, transient }), p6)
                                                },
                                                Err((e, p6)) => (Err(e), p6),
                                            }
                                        },
                                        Err((e, p5)) => (Err(e), p5),
                                    }
                                },
                                Err((e, p4)) => (Err(e), p4),
                            }
                        },
                        Err((e, p3)) => (Err(e), p3),
                    }
                },
                Err((e, p2)) => (Err(e), p2),
            }
        },
        Err((e, p1)) => (Err(e), p1),
    }
}

impl<'a> SpiceLineParser<'a> {
    /// Parses a [`IComponent`] as far as the line goes.
    pub fn parse_i_component_partial(&mut self) -> (r: ParseResult<IComponentPartial>)
        ensures
            parsed(*old(self), *final(self), r, i_component_partial_at(old(self).tokens(), old(self).cursor())),
            r matches Ok(v) ==> v.deep_view().in_order(),
    {
        reveal(i_component_partial_at);
        let mut is_eof = false;
        let mut position: u32 = 0;
        let name = if !is_eof {
            position += 1;
            partial_of(self.parse_name(), &mut is_eof)?
        } else {
            None
        };
        let node1 = if !is_eof {
            position += 1;
            partial_of(self.parse_node(), &mut is_eof)?
        } else {
            None
        };
        let node2 = if !is_eof {
            position += 1;
            partial_of(self.parse_node(), &mut is_eof)?
        } else {
            None
        };
        let dc = if !is_eof {
            position += 1;
            partial_of(self.parse_optional_dc_source(), &mut is_eof)?
        } else {
            None
        };
        let ac = if !is_eof {
            position += 1;
            partial_of(self.parse_optional_ac_source(), &mut is_eof)?
        } else {
            None
        };
        let transient = if !is_eof {
            position += 1;
            partial_of(self.parse_optional_transient(), &mut is_eof)?
        } else {
            None
        };
        Ok(IComponentPartial { position, name, node1, node2, dc, ac, transient })
    }
}

impl PartialParse<IComponentPartial> for SpiceLineParser<'_> {
    open spec fn partial_rule(ts: Seq<AtomView>, pos: nat) -> Outcome<IComponentPartialView> {
        i_component_partial_at(ts, pos)
    }

    fn try_partial(&mut self) -> (r: ParseResult<IComponentPartial>) {
        self.parse_i_component_partial()
    }

    fn info(&mut self) -> (r: ParseResult<(IComponentPartial, Vec<Element>)>) {
        let v = self.parse_i_component_partial()?;
        Ok((v, Vec::new()))
    }
}

/// A field of a [`IComponentPartial`] is there only if every field before it is.
pub proof fn lemma_i_component_partial_in_order(ts: Seq<AtomView>, pos: nat)
    ensures
        i_component_partial_at(ts, pos).0 matches Ok(v) ==> v.in_order(),
{
    reveal(i_component_partial_at);
}

/// A junction field-effect transistor:
/// `J<name> <drain node> <gate node> <source node> <model name> [area value]`
#[derive(Debug, Clone, PartialEq)]
pub struct JComponent {
    pub name: Name,
    pub drain: Node,
    pub gate: Node,
    pub source: Node,
    pub model: Name,
    pub area: Option<Number>,
}

/// Mathematical content of a [`JComponent`].
pub struct JComponentView {
    pub name: AtomView,
    pub drain: AtomView,
    pub gate: AtomView,
    pub source: AtomView,
    pub model: AtomView,
    pub area: Option<NumberView>,
}

impl DeepView for JComponent {
    type V = JComponentView;

    open spec fn deep_view(&self) -> JComponentView {
        JComponentView {
            name: self.name.deep_view(),
            drain: self.drain.deep_view(),
            gate: self.gate.deep_view(),
            source: self.source.deep_view(),
            model: self.model.deep_view(),
            area: self.area.deep_view(),
        }
    }
}

/// The rule of [`JComponent`].
#[verifier::opaque]
pub open spec fn j_component_at(ts: Seq<AtomView>, pos: nat) -> Outcome<JComponentView> {
    match name_at(ts, pos) {
        (Ok(name), p1) => {
            match node_at(ts, p1) {
                (Ok(drain), p2) => {
                    match node_at(ts, p2) {
                        (Ok(gate), p3) => {
                            match node_at(ts, p3) {
                                (Ok(source), p4) => {
                                    match name_at(ts, p4) {
                                        (Ok(model), p5) => {
                                            match optional_number_at(ts, p5) {
                                                (Ok(area), p6) => {
                                                    (Ok(JComponentView { name, drain, gate, source, model, area }), p6)
                                                },
                                                (Err(e), p6) => (Err(e), p6),
                                            }
                                        },
                                        (Err(e), p5) => (Err(e), p5),
                                    }
                                },
                                (Err(e), p4) => (Err(e), p4),
                            }
                        },
                        (Err(e), p3) => (Err(e), p3),
                    }
                },
                (Err(e), p2) => (Err(e), p2),
            }
        },
        (Err(e), p1) => (Err(e), p1),
    }
}

impl<'a> SpiceLineParser<'a> {
    /// Parses a [`JComponent`].
    pub fn parse_j_component(&mut self) -> (r: ParseResult<JComponent>)
        ensures
            parsed(*old(self), *final(self), r, j_component_at(old(self).tokens(), old(self).cursor())),
            r is Ok ==> old(self).position < final(self).position <= old(self).vec.len(),
    {
        reveal(j_component_at);
        let name = self.parse_name()?;
        let drain = self.parse_node()?;
        let gate = self.parse_node()?;
        let source = self.parse_node()?;
        let model = self.parse_name()?;
        let area = self.parse_optional_number()?;
        Ok(JComponent { name, drain, gate, source, model, area })
    }
}

impl TryParse<JComponent> for SpiceLineParser<'_> {
    open spec fn rule(ts: Seq<AtomView>, pos: nat) -> Outcome<JComponentView> {
        j_component_at(ts, pos)
    }

    fn try_parse(&mut self) -> (r: ParseResult<JComponent>) {
        self.parse_j_component()
    }
}

impl ExposeNodes for JComponent {
    open spec fn exposed(&self) -> Seq<Node> {
        seq![self.drain, self.gate, self.source]
    }

    fn nodes(&self) -> (ret: Vec<Node>) {
        let mut ret: Vec<Node> = Vec::new();
        ret.push(self.drain.clone());
        ret.push(self.gate.clone());
        ret.push(self.source.clone());
        ret
    }
}

/// A [`JComponent`] that the end of the line may have cut short: each field is
/// there if the line reached it, and `position` counts the fields that
/// were tried.
#[derive(Debug, Clone)]
pub struct JComponentPartial {
    pub position: u32,
    pub name: Option<Name>,
    pub drain: Option<Node>,
    pub gate: Option<Node>,
    pub source: Option<Node>,
    pub model: Option<Name>,
    pub area: Option<Option<Number>>,
}

/// Mathematical content of a [`JComponentPartial`].
pub struct JComponentPartialView {
    pub position: u32,
    pub name: Option<AtomView>,
    pub drain: Option<AtomView>,
    pub gate: Option<AtomView>,
    pub source: Option<AtomView>,
    pub model: Option<AtomView>,
    pub area: Option<Option<NumberView>>,
}

impl DeepView for JComponentPartial {
    type V = JComponentPartialView;

    open spec fn deep_view(&self) -> JComponentPartialView {
        JComponentPartialView {
            position: self.position,
            name: self.name.deep_view(),
            drain: self.drain.deep_view(),
            gate: self.gate.deep_view(),
            source: self.source.deep_view(),
            model: self.model.deep_view(),
            area: self.area.deep_view(),
        }
    }
}

impl JComponentPartialView {
    /// Each field that is there follows one that is there.
    pub open spec fn in_order(self) -> bool {
        &&& self.drain is Some ==> self.name is Some
        &&& self.gate is Some ==> self.drain is Some
        &&& self.source is Some ==> self.gate is Some
        &&& self.model is Some ==> self.source is Some
        &&& self.area is Some ==> self.model is Some
    }
}

/// The rule of [`JComponentPartial`]: the fields of [`JComponent`] in order, up to the end of
/// the line.
#[verifier::opaque]
pub open spec fn j_component_partial_at(ts: Seq<AtomView>, pos: nat) -> Outcome<JComponentPartialView> {
    match partial_field(false, 0u32, pos, name_at(ts, pos)) {
        Ok((name, eof1, n1, p1)) => {
            match partial_field(eof1, n1, p1, node_at(ts, p1)) {
                Ok((drain, eof2, n2, p2)) => {
                    match partial_field(eof2, n2, p2, node_at(ts, p2)) {
                        Ok((gate, eof3, n3, p3)) => {
                            match partial_field(eof3, n3, p3, node_at(ts, p3)) {
                                Ok((source, eof4, n4, p4)) => {
                                    match partial_field(eof4, n4, p4, name_at(ts, p4)) {
                                        Ok((model, eof5, n5, p5)) => {
                                            match partial_field(eof5, n5, p5, optional_number_at(ts, p5)) {
                                                Ok((area, eof6, n6, p6)) => {
                                                    (Ok(JComponentPartialView { position: n6, name, drain, gate, source, model, area }), p6)
                                                },
                                                Err((e, p6)) => (Err(e), p6),
                                            }
                                        },
                                        Err((e, p5)) => (Err(e), p5),
                                    }
                                },
                                Err((e, p4)) => (Err(e), p4),
                            }
                        },
                        Err((e, p3)) => (Err(e), p3),
                    }
                },
                Err((e, p2)) => (Err(e), p2),
            }
        },
        Err((e, p1)) => (Err(e), p1),
    }
}

impl<'a> SpiceLineParser<'a> {
    /// Parses a [`JComponent`] as far as the line goes.
    pub fn parse_j_component_partial(&mut self) -> (r: ParseResult<JComponentPartial>)
        ensures
            parsed(*old(self), *final(self), r, j_component_partial_at(old(self).tokens(), old(self).cursor())),
            r matches Ok(v) ==> v.deep_view().in_order(),
    {
        reveal(j_component_partial_at);
        let mut is_eof = false;
        let mut position: u32 = 0;
        let name = if !is_eof {
            position += 1;
            partial_of(self.parse_name(), &mut is_eof)?
        } else {
            None
        };
        let drain = if !is_eof {
            position += 1;
            partial_of(self.parse_node(), &mut is_eof)?
        } else {
            None
        };
        let gate = if !is_eof {
            position += 1;
            partial_of(self.parse_node(), &mut is_eof)?
        } else {
            None
        };
        let source = if !is_eof {
            position += 1;
            partial_of(self.parse_node(), &mut is_eof)?
        } else {
            None
        };
        let model = if !is_eof {
            position += 1;
            partial_of(self.parse_name(), &mut is_eof)?
        } else {
            None
        };
        let area = if !is_eof {
            position += 1;
            partial_of(self.parse_optional_number(), &mut is_eof)?
        } else {
            None
        };
        Ok(JComponentPartial { position, name, drain, gate, source, model, area })
    }
}

impl PartialParse<JComponentPartial> for SpiceLineParser<'_> {
    open spec fn partial_rule(ts: Seq<AtomView>, pos: nat) -> Outcome<JComponentPartialView> {
        j_component_partial_at(ts, pos)
    }

    fn try_partial(&mut self) -> (r: ParseResult<JComponentPartial>) {
        self.parse_j_component_partial()
    }

    fn info(&mut self) -> (r: ParseResult<(JComponentPartial, Vec<Element>)>) {
        let v = self.parse_j_component_partial()?;
        Ok((v, Vec::new()))
    }
}

/// A field of a [`JComponentPartial`] is there only if every field before it is.
pub proof fn lemma_j_component_partial_in_order(ts: Seq<AtomView>, pos: nat)
    ensures
        j_component_partial_at(ts, pos).0 matches Ok(v) ==> v.in_order(),
{
    reveal(j_component_partial_at);
}

/// Coupled inductors: `K<name> <induct1> <induct2> ... <k> [<model> [<size>]]`
#[derive(Debug, Clone, PartialEq)]
pub struct KComponent {
    pub name: Name,
    pub inducts: Vec<Name>,
    pub k: Number,
    pub model: Option<(Name, Option<Number>)>,
}

/// Mathematical content of a [`KComponent`].
pub struct KComponentView {
    pub name: AtomView,
    pub inducts: Seq<AtomView>,
    pub k: NumberView,
    pub model: Option<(AtomView, Option<NumberView>)>,
}

impl DeepView for KComponent {
    type V = KComponentView;

    open spec fn deep_view(&self) -> KComponentView {
        KComponentView {
            name: self.name.deep_view(),
            inducts: self.inducts.deep_view(),
            k: self.k.deep_view(),
            model: self.model.deep_view(),
        }
    }
}

/// The rule of [`KComponent`].
#[verifier::opaque]
pub open spec fn k_component_at(ts: Seq<AtomView>, pos: nat) -> Outcome<KComponentView> {
    match name_at(ts, pos) {
        (Ok(name), p1) => {
            match name_list_at(ts, p1) {
                (Ok(inducts), p2) => {
                    match number_at(ts, p2) {
                        (Ok(k), p3) => {
                            match optional_name_then_number_at(ts, p3) {
                                (Ok(model), p4) => {
                                    (Ok(KComponentView { name, inducts, k, model }), p4)
                                },
                                (Err(e), p4) => (Err(e), p4),
                            }
                        },
                        (Err(e), p3) => (Err(e), p3),
                    }
                },
                (Err(e), p2) => (Err(e), p2),
            }
        },
        (Err(e), p1) => (Err(e), p1),
    }
}

impl<'a> SpiceLineParser<'a> {
    /// Parses a [`KComponent`].
    pub fn parse_k_component(&mut self) -> (r: ParseResult<KComponent>)
        ensures
            parsed(*old(self), *final(self), r, k_component_at(old(self).tokens(), old(self).cursor())),
            r is Ok ==> old(self).position < final(self).position <= old(self).vec.len(),
    {
        reveal(k_component_at);
        let name = self.parse_name()?;
        let inducts = self.parse_name_list()?;
        let k = self.parse_number()?;
        let model = self.parse_optional_name_then_number()?;
        Ok(KComponent { name, inducts, k, model })
    }
}

impl TryParse<KComponent> for SpiceLineParser<'_> {
    open spec fn rule(ts: Seq<AtomView>, pos: nat) -> Outcome<KComponentView> {
        k_component_at(ts, pos)
    }

    fn try_parse(&mut self) -> (r: ParseResult<KComponent>) {
        self.parse_k_component()
    }
}

impl ExposeNodes for KComponent {
    open spec fn exposed(&self) -> Seq<Node> {
        Seq::empty()
    }

    fn nodes(&self) -> (ret: Vec<Node>) {
        let ret: Vec<Node> = Vec::new();
        ret
    }
}

/// A [`KComponent`] that the end of the line may have cut short: each field is
/// there if the line reached it, and `position` counts the fields that
/// were tried.
#[derive(Debug, Clone)]
pub struct KComponentPartial {
    pub position: u32,
    pub name: Option<Name>,
    pub inducts: Option<Vec<Name>>,
    pub k: Option<Number>,
    pub model: Option<Option<(Name, Option<Number>)>>,
}

/// Mathematical content of a [`KComponentPartial`].
pub struct KComponentPartialView {
    pub position: u32,
    pub name: Option<AtomView>,
    pub inducts: Option<Seq<AtomView>>,
    pub k: Option<NumberView>,
    pub model: Option<Option<(AtomView, Option<NumberView>)>>,
}

impl DeepView for KComponentPartial {
    type V = KComponentPartialView;

    open spec fn deep_view(&self) -> KComponentPartialView {
        KComponentPartialView {
            position: self.position,
            name: self.name.deep_view(),
            inducts: self.inducts.deep_view(),
            k: self.k.deep_view(),
            model: self.model.deep_view(),
        }
    }
}

impl KComponentPartialView {
    /// Each field that is there follows one that is there.
    pub open spec fn in_order(self) -> bool {
        &&& self.inducts is Some ==> self.name is Some
        &&& self.k is Some ==> self.inducts is Some
        &&& self.model is Some ==> self.k is Some
    }
}

/// The rule of [`KComponentPartial`]: the fields of [`KComponent`] in order, up to the end of
/// the line.
#[verifier::opaque]
pub open spec fn k_component_partial_at(ts: Seq<AtomView>, pos: nat) -> Outcome<KComponentPartialView> {
    match partial_field(false, 0u32, pos, name_at(ts, pos)) {
        Ok((name, eof1, n1, p1)) => {
            match partial_field(eof1, n1, p1, name_list_at(ts, p1)) {
                Ok((inducts, eof2, n2, p2)) => {
                    match partial_field(eof2, n2, p2, number_at(ts, p2)) {
                        Ok((k, eof3, n3, p3)) => {
                            match partial_field(eof3, n3, p3, optional_name_then_number_at(ts, p3)) {
                                Ok((model, eof4, n4, p4)) => {
                                    (Ok(KComponentPartialView { position: n4, name, inducts, k, model }), p4)
                                },
                                Err((e, p4)) => (Err(e), p4),
                            }
                        },
                        Err((e, p3)) => (Err(e), p3),
                    }
                },
                Err((e, p2)) => (Err(e), p2),
            }
        },
        Err((e, p1)) => (Err(e), p1),
    }
}

impl<'a> SpiceLineParser<'a> {
    /// Parses a [`KComponent`] as far as the line goes.
    pub fn parse_k_component_partial(&mut self) -> (r: ParseResult<KComponentPartial>)
        ensures
            parsed(*old(self), *final(self), r, k_component_partial_at(old(self).tokens(), old(self).cursor())),
            r matches Ok(v) ==> v.deep_view().in_order(),
    {
        reveal(k_component_partial_at);
        let mut is_eof = false;
        let mut position: u32 = 0;
        let name = if !is_eof {
            position += 1;
            partial_of(self.parse_name(), &mut is_eof)?
        } else {
            None
        };
        let inducts = if !is_eof {
            position += 1;
            partial_of(self.parse_name_list(), &mut is_eof)?
        } else {
            None
        };
        let k = if !is_eof {
            position += 1;
            partial_of(self.parse_number(), &mut is_eof)?
        } else {
            None
        };
        let model = if !is_eof {
            position += 1;
            partial_of(self.parse_optional_name_then_number(), &mut is_eof)?
        } else {
            None
        };
        Ok(KComponentPartial { position, name, inducts, k, model })
    }
}

impl PartialParse<KComponentPartial> for SpiceLineParser<'_> {
    open spec fn partial_rule(ts: Seq<AtomView>, pos: nat) -> Outcome<KComponentPartialView> {
        k_component_partial_at(ts, pos)
    }

    fn try_partial(&mut self) -> (r: ParseResult<KComponentPartial>) {
        self.parse_k_component_partial()
    }

    fn info(&mut self) -> (r: ParseResult<(KComponentPartial, Vec<Element>)>) {
        let v = self.parse_k_component_partial()?;
        Ok((v, Vec::new()))
    }
}

/// A field of a [`KComponentPartial`] is there only if every field before it is.
pub proof fn lemma_k_component_partial_in_order(ts: Seq<AtomView>, pos: nat)
    ensures
        k_component_partial_at(ts, pos).0 matches Ok(v) ==> v.in_order(),
{
    reveal(k_component_partial_at);
}

/// The parameters of an inductor.
#[derive(Debug, Clone, PartialEq)]
pub struct LComponentParams {
    pub ic: Option<Number>,
}

/// Mathematical content of a [`LComponentParams`].
pub struct LComponentParamsView {
    pub ic: Option<NumberView>,
}

impl DeepView for LComponentParams {
    type V = LComponentParamsView;

    open spec fn deep_view(&self) -> LComponentParamsView {
        LComponentParamsView {
            ic: self.ic.deep_view(),
        }
    }
}

impl LComponentParamsView {
    /// No parameter given.
    pub open spec fn none() -> LComponentParamsView {
        LComponentParamsView { ic: None }
    }
}

/// The parameters from `pos` on, added to `acc`: a later value of a
/// parameter replaces an earlier one, and the first token that names no
/// parameter ends the record.
pub open spec fn l_component_params_from(ts: Seq<AtomView>, pos: nat, acc: LComponentParamsView) -> Outcome<LComponentParamsView>
    decreases tokens_left(ts, pos),
{
    if pos >= ts.len() {
        (Ok(acc), pos)
    } else if matches_at(ts, pos, "IC"@) {
        match expect_at(ts, pos + 1, "="@) {
            (Ok(_), p) => match forward(pos + 2, number_at(ts, p)) {
                (Ok(v), end) => l_component_params_from(ts, end, LComponentParamsView { ic: Some(v), ..acc }),
                (Err(e), end) => (Err(e), end),
            },
            (Err(e), p) => (Err(e), p),
        }
    } else {
        (Ok(acc), pos)
    }
}

/// The rule of [`LComponentParams`].
#[verifier::opaque]
pub open spec fn l_component_params_at(ts: Seq<AtomView>, pos: nat) -> Outcome<LComponentParamsView> {
    l_component_params_from(ts, pos, LComponentParamsView::none())
}

impl<'a> SpiceLineParser<'a> {
    /// Parses a [`LComponentParams`].
    pub fn parse_l_component_params(&mut self) -> (r: ParseResult<LComponentParams>)
        ensures
            parsed(*old(self), *final(self), r, l_component_params_at(old(self).tokens(), old(self).cursor())),
            r is Ok && old(self).position <= old(self).vec.len() ==> final(self).position <= old(self).vec.len(),
    {
        reveal(l_component_params_at);
        let ghost goal = l_component_params_at(self.tokens(), self.cursor());
        let mut ic: Option<Number> = None;
        loop
            invariant
                self.vec == old(self).vec,
                old(self).position <= self.position,
                old(self).position <= old(self).vec.len() ==> self.position <= self.vec.len(),
                goal == l_component_params_at(old(self).tokens(), old(self).cursor()),
                goal == l_component_params_from(self.tokens(), self.cursor(), LComponentParamsView { ic: ic.deep_view() }),
            decreases self.remaining(),
        {
            reveal(l_component_params_at);
            if self.matches_consume("IC") {
                self.expect("=")?;
                ic = Some(self.parse_number()?);
            } else {
                return Ok(LComponentParams { ic });
            }
        }
    }
}

impl TryParse<LComponentParams> for SpiceLineParser<'_> {
    open spec fn rule(ts: Seq<AtomView>, pos: nat) -> Outcome<LComponentParamsView> {
        l_component_params_at(ts, pos)
    }

    fn try_parse(&mut self) -> (r: ParseResult<LComponentParams>) {
        self.parse_l_component_params()
    }
}

impl ExposeNodes for LComponentParams {
    open spec fn exposed(&self) -> Seq<Node> {
        Seq::empty()
    }

    fn nodes(&self) -> (ret: Vec<Node>) {
        let ret: Vec<Node> = Vec::new();
        ret
    }
}

/// An inductor:
/// `L<name> <(+) node> <(-) node> [model name] <value> [IC=<initial value>]`
#[derive(Debug, Clone, PartialEq)]
pub struct LComponent {
    pub name: Name,
    pub node1: Node,
    pub node2: Node,
    pub model: Option<Name>,
    pub value: Number,
    pub params: LComponentParams,
}

/// Mathematical content of a [`LComponent`].
pub struct LComponentView {
    pub name: AtomView,
    pub node1: AtomView,
    pub node2: AtomView,
    pub model: Option<AtomView>,
    pub value: NumberView,
    pub params: LComponentParamsView,
}

impl DeepView for LComponent {
    type V = LComponentView;

    open spec fn deep_view(&self) -> LComponentView {
        LComponentView {
            name: self.name.deep_view(),
            node1: self.node1.deep_view(),
            node2: self.node2.deep_view(),
            model: self.model.deep_view(),
            value: self.value.deep_view(),
            params: self.params.deep_view(),
        }
    }
}

/// The rule of [`LComponent`].
#[verifier::opaque]
pub open spec fn l_component_at(ts: Seq<AtomView>, pos: nat) -> Outcome<LComponentView> {
    match name_at(ts, pos) {
        (Ok(name), p1) => {
            match node_at(ts, p1) {
                (Ok(node1), p2) => {
                    match node_at(ts, p2) {
                        (Ok(node2), p3) => {
                            match optional_name_at(ts, p3) {
                                (Ok(model), p4) => {
                                    match number_at(ts, p4) {
                                        (Ok(value), p5) => {
                                            match l_component_params_at(ts, p5) {
                                                (Ok(params), p6) => {
                                                    (Ok(LComponentView { name, node1, node2, model, value, params }), p6)
                                                },
                                                (Err(e), p6) => (Err(e), p6),
                                            }
                                        },
                                        (Err(e), p5) => (Err(e), p5),
                                    }
                                },
                                (Err(e), p4) => (Err(e), p4),
                            }
                        },
                        (Err(e), p3) => (Err(e), p3),
                    }
                },
                (Err(e), p2) => (Err(e), p2),
            }
        },
        (Err(e), p1) => (Err(e), p1),
    }
}

impl<'a> SpiceLineParser<'a> {
    /// Parses a [`LComponent`].
    pub fn parse_l_component(&mut self) -> (r: ParseResult<LComponent>)
        ensures
            parsed(*old(self), *final(self), r, l_component_at(old(self).tokens(), old(self).cursor())),
            r is Ok ==> old(self).position < final(self).position <= old(self).vec.len(),
    {
        reveal(l_component_at);
        let name = self.parse_name()?;
        let node1 = self.parse_node()?;
        let node2 = self.parse_node()?;
        let model = self.parse_optional_name()?;
        let value = self.parse_number()?;
        let params = self.parse_l_component_params()?;
        Ok(LComponent { name, node1, node2, model, value, params })
    }
}

impl TryParse<LComponent> for SpiceLineParser<'_> {
    open spec fn rule(ts: Seq<AtomView>, pos: nat) -> Outcome<LComponentView> {
        l_component_at(ts, pos)
    }

    fn try_parse(&mut self) -> (r: ParseResult<LComponent>) {
        self.parse_l_component()
    }
}

impl ExposeNodes for LComponent {
    open spec fn exposed(&self) -> Seq<Node> {
        seq![self.node1, self.node2]
    }

    fn nodes(&self) -> (ret: Vec<Node>) {
        let mut ret: Vec<Node> = Vec::new();
        ret.push(self.node1.clone());
        ret.push(self.node2.clone());
        ret
    }
}

/// A [`LComponent`] that the end of the line may have cut short: each field is
/// there if the line reached it, and `position` counts the fields that
/// were tried.
#[derive(Debug, Clone)]
pub struct LComponentPartial {
    pub position: u32,
    pub name: Option<Name>,
    pub node1: Option<Node>,
    pub node2: Option<Node>,
    pub model: Option<Option<Name>>,
    pub value: Option<Number>,
    pub params: Option<LComponentParams>,
}

/// Mathematical content of a [`LComponentPartial`].
pub struct LComponentPartialView {
    pub position: u32,
    pub name: Option<AtomView>,
    pub node1: Option<AtomView>,
    pub node2: Option<AtomView>,
    pub model: Option<Option<AtomView>>,
    pub value: Option<NumberView>,
    pub params: Option<LComponentParamsView>,
}

impl DeepView for LComponentPartial {
    type V = LComponentPartialView;

    open spec fn deep_view(&self) -> LComponentPartialView {
        LComponentPartialView {
            position: self.position,
            name: self.name.deep_view(),
            node1: self.node1.deep_view(),
            node2: self.node2.deep_view(),
            model: self.model.deep_view(),
            value: self.value.deep_view(),
            params: self.params.deep_view(),
        }
    }
}

impl LComponentPartialView {
    /// Each field that is there follows one that is there.
    pub open spec fn in_order(self) -> bool {
        &&& self.node1 is Some ==> self.name is Some
        &&& self.node2 is Some ==> self.node1 is Some
        &&& self.model is Some ==> self.node2 is Some
        &&& self.value is Some ==> self.model is Some
        &&& self.params is Some ==> self.value is Some
    }
}

/// The rule of [`LComponentPartial`]: the fields of [`LComponent`] in order, up to the end of
/// the line.
#[verifier::opaque]
pub open spec fn l_component_partial_at(ts: Seq<AtomView>, pos: nat) -> Outcome<LComponentPartialView> {
    match partial_field(false, 0u32, pos, name_at(ts, pos)) {
        Ok((name, eof1, n1, p1)) => {
            match partial_field(eof1, n1, p1, node_at(ts, p1)) {
                Ok((node1, eof2, n2, p2)) => {
                    match partial_field(eof2, n2, p2, node_at(ts, p2)) {
                        Ok((node2, eof3, n3, p3)) => {
                            match partial_field(eof3, n3, p3, optional_name_at(ts, p3)) {
                                Ok((model, eof4, n4, p4)) => {
                                    match partial_field(eof4, n4, p4, number_at(ts, p4)) {
                                        Ok((value, eof5, n5, p5)) => {
                                            match partial_field(eof5, n5, p5, l_component_params_at(ts, p5)) {
                                                Ok((params, eof6, n6, p6)) => {
                                                    (Ok(LComponentPartialView { position: n6, name, node1, node2, model, value, params }), p6)
                                                },
                                                Err((e, p6)) => (Err(e), p6),
                                            }
                                        },
                                        Err((e, p5)) => (Err(e), p5),
                                    }
                                },
                                Err((e, p4)) => (Err(e), p4),
                            }
                        },
                        Err((e, p3)) => (Err(e), p3),
                    }
                },
                Err((e, p2)) => (Err(e), p2),
            }
        },
        Err((e, p1)) => (Err(e), p1),
    }
}

impl<'a> SpiceLineParser<'a> {
    /// Parses a [`LComponent`] as far as the line goes.
    pub fn parse_l_component_partial(&mut self) -> (r: ParseResult<LComponentPartial>)
        ensures
            parsed(*old(self), *final(self), r, l_component_partial_at(old(self).tokens(), old(self).cursor())),
            r matches Ok(v) ==> v.deep_view().in_order(),
    {
        reveal(l_component_partial_at);
        let mut is_eof = false;
        let mut position: u32 = 0;
        let name = if !is_eof {
            position += 1;
            partial_of(self.parse_name(), &mut is_eof)?
        } else {
            None
        };
        let node1 = if !is_eof {
            position += 1;
            partial_of(self.parse_node(), &mut is_eof)?
        } else {
            None
        };
        let node2 = if !is_eof {
            position += 1;
            partial_of(self.parse_node(), &mut is_eof)?
        } else {
            None
        };
        let model = if !is_eof {
            position += 1;
            partial_of(self.parse_optional_name(), &mut is_eof)?
        } else {
            None
        };
        let value = if !is_eof {
            position += 1;
            partial_of(self.parse_number(), &mut is_eof)?
        } else {
            None
        };
        let params = if !is_eof {
            position += 1;
            partial_of(self.parse_l_component_params(), &mut is_eof)?
        } else {
            None
        };
        Ok(LComponentPartial { position, name, node1, node2, model, value, params })
    }
}

impl PartialParse<LComponentPartial> for SpiceLineParser<'_> {
    open spec fn partial_rule(ts: Seq<AtomView>, pos: nat) -> Outcome<LComponentPartialView> {
        l_component_partial_at(ts, pos)
    }

    fn try_partial(&mut self) -> (r: ParseResult<LComponentPartial>) {
        self.parse_l_component_partial()
    }

    fn info(&mut self) -> (r: ParseResult<(LComponentPartial, Vec<Element>)>) {
        let v = self.parse_l_component_partial()?;
        Ok((v, Vec::new()))
    }
}

/// A field of a [`LComponentPartial`] is there only if every field before it is.
pub proof fn lemma_l_component_partial_in_order(ts: Seq<AtomView>, pos: nat)
    ensures
        l_component_partial_at(ts, pos).0 matches Ok(v) ==> v.in_order(),
{
    reveal(l_component_partial_at);
}

/// The parameters of a MOS transistor.
#[derive(Debug, Clone, PartialEq)]
pub struct MComponentParams {
    pub l: Option<Number>,
    pub w: Option<Number>,
    pub ad: Option<Number>,
    pub as_: Option<Number>,
    pub pd: Option<Number>,
    pub ps: Option<Number>,
    pub nrd: Option<Number>,
    pub nrs: Option<Number>,
    pub nrg: Option<Number>,
    pub nrb: Option<Number>,
    pub m: Option<Number>,
    pub n: Option<Number>,
}

/// Mathematical content of a [`MComponentParams`].
pub struct MComponentParamsView {
    pub l: Option<NumberView>,
    pub w: Option<NumberView>,
    pub ad: Option<NumberView>,
    pub as_: Option<NumberView>,
    pub pd: Option<NumberView>,
    pub ps: Option<NumberView>,
    pub nrd: Option<NumberView>,
    pub nrs: Option<NumberView>,
    pub nrg: Option<NumberView>,
    pub nrb: Option<NumberView>,
    pub m: Option<NumberView>,
    pub n: Option<NumberView>,
}

impl DeepView for MComponentParams {
    type V = MComponentParamsView;

    open spec fn deep_view(&self) -> MComponentParamsView {
        MComponentParamsView {
            l: self.l.deep_view(),
            w: self.w.deep_view(),
            ad: self.ad.deep_view(),
            as_: self.as_.deep_view(),
            pd: self.pd.deep_view(),
            ps: self.ps.deep_view(),
            nrd: self.nrd.deep_view(),
            nrs: self.nrs.deep_view(),
            nrg: self.nrg.deep_view(),
            nrb: self.nrb.deep_view(),
            m: self.m.deep_view(),
            n: self.n.deep_view(),
        }
    }
}

impl MComponentParamsView {
    /// No parameter given.
    pub open spec fn none() -> MComponentParamsView {
        MComponentParamsView { l: None, w: None, ad: None, as_: None, pd: None, ps: None, nrd: None, nrs: None, nrg: None, nrb: None, m: None, n: None }
    }
}

/// The parameters from `pos` on, added to `acc`: a later value of a
/// parameter replaces an earlier one, and the first token that names no
/// parameter ends the record.
pub open spec fn m_component_params_from(ts: Seq<AtomView>, pos: nat, acc: MComponentParamsView) -> Outcome<MComponentParamsView>
    decreases tokens_left(ts, pos),
{
    if pos >= ts.len() {
        (Ok(acc), pos)
    } else if matches_at(ts, pos, "L"@) {
        match expect_at(ts, pos + 1, "="@) {
            (Ok(_), p) => match forward(pos + 2, number_at(ts, p)) {
                (Ok(v), end) => m_component_params_from(ts, end, MComponentParamsView { l: Some(v), ..acc }),
                (Err(e), end) => (Err(e), end),
            },
            (Err(e), p) => (Err(e), p),
        }
    } else if matches_at(ts, pos, "W"@) {
        match expect_at(ts, pos + 1, "="@) {
            (Ok(_), p) => match forward(pos + 2, number_at(ts, p)) {
                (Ok(v), end) => m_component_params_from(ts, end, MComponentParamsView { w: Some(v), ..acc }),
                (Err(e), end) => (Err(e), end),
            },
            (Err(e), p) => (Err(e), p),
        }
    } else if matches_at(ts, pos, "AD"@) {
        match expect_at(ts, pos + 1, "="@) {
            (Ok(_), p) => match forward(pos + 2, number_at(ts, p)) {
                (Ok(v), end) => m_component_params_from(ts, end, MComponentParamsView { ad: Some(v), ..acc }),
                (Err(e), end) => (Err(e), end),
            },
            (Err(e), p) => (Err(e), p),
        }
    } else if matches_at(ts, pos, "AS"@) {
        match expect_at(ts, pos + 1, "="@) {
            (Ok(_), p) => match forward(pos + 2, number_at(ts, p)) {
                (Ok(v), end) => m_component_params_from(ts, end, MComponentParamsView { as_: Some(v), ..acc }),
                (Err(e), end) => (Err(e), end),
            },
            (Err(e), p) => (Err(e), p),
        }
    } else if matches_at(ts, pos, "PD"@) {
        match expect_at(ts, pos + 1, "="@) {
            (Ok(_), p) => match forward(pos + 2, number_at(ts, p)) {
                (Ok(v), end) => m_component_params_from(ts, end, MComponentParamsView { pd: Some(v), ..acc }),
                (Err(e), end) => (Err(e), end),
            },
            (Err(e), p) => (Err(e), p),
        }
    } else if matches_at(ts, pos, "PS"@) {
        match expect_at(ts, pos + 1, "="@) {
            (Ok(_), p) => match forward(pos + 2, number_at(ts, p)) {
                (Ok(v), end) => m_component_params_from(ts, end, MComponentParamsView { ps: Some(v), ..acc }),
                (Err(e), end) => (Err(e), end),
            },
            (Err(e), p) => (Err(e), p),
        }
    } else if matches_at(ts, pos, "NRD"@) {
        match expect_at(ts, pos + 1, "="@) {
            (Ok(_), p) => match forward(pos + 2, number_at(ts, p)) {
                (Ok(v), end) => m_component_params_from(ts, end, MComponentParamsView { nrd: Some(v), ..acc }),
                (Err(e), end) => (Err(e), end),
            },
            (Err(e), p) => (Err(e), p),
        }
    } else if matches_at(ts, pos, "NRS"@) {
        match expect_at(ts, pos + 1, "="@) {
            (Ok(_), p) => match forward(pos + 2, number_at(ts, p)) {
                (Ok(v), end) => m_component_params_from(ts, end, MComponentParamsView { nrs: Some(v), ..acc }),
                (Err(e), end) => (Err(e), end),
            },
            (Err(e), p) => (Err(e), p),
        }
    } else if matches_at(ts, pos, "NRG"@) {
        match expect_at(ts, pos + 1, "="@) {
            (Ok(_), p) => match forward(pos + 2, number_at(ts, p)) {
                (Ok(v), end) => m_component_params_from(ts, end, MComponentParamsView { nrg: Some(v), ..acc }),
                (Err(e), end) => (Err(e), end),
            },
            (Err(e), p) => (Err(e), p),
        }
    } else if matches_at(ts, pos, "NRB"@) {
        match expect_at(ts, pos + 1, "="@) {
            (Ok(_), p) => match forward(pos + 2, number_at(ts, p)) {
                (Ok(v), end) => m_component_params_from(ts, end, MComponentParamsView { nrb: Some(v), ..acc }),
                (Err(e), end) => (Err(e), end),
            },
            (Err(e), p) => (Err(e), p),
        }
    } else if matches_at(ts, pos, "M"@) {
        match expect_at(ts, pos + 1, "="@) {
            (Ok(_), p) => match forward(pos + 2, number_at(ts, p)) {
                (Ok(v), end) => m_component_params_from(ts, end, MComponentParamsView { m: Some(v), ..acc }),
                (Err(e), end) => (Err(e), end),
            },
            (Err(e), p) => (Err(e), p),
        }
    } else if matches_at(ts, pos, "N"@) {
        match expect_at(ts, pos + 1, "="@) {
            (Ok(_), p) => match forward(pos + 2, number_at(ts, p)) {
                (Ok(v), end) => m_component_params_from(ts, end, MComponentParamsView { n: Some(v), ..acc }),
                (Err(e), end) => (Err(e), end),
            },
            (Err(e), p) => (Err(e), p),
        }
    } else {
        (Ok(acc), pos)
    }
}

/// The rule of [`MComponentParams`].
#[verifier::opaque]
pub open spec fn m_component_params_at(ts: Seq<AtomView>, pos: nat) -> Outcome<MComponentParamsView> {
    m_component_params_from(ts, pos, MComponentParamsView::none())
}

impl<'a> SpiceLineParser<'a> {
    /// Parses a [`MComponentParams`].
    pub fn parse_m_component_params(&mut self) -> (r: ParseResult<MComponentParams>)
        ensures
            parsed(*old(self), *final(self), r, m_component_params_at(old(self).tokens(), old(self).cursor())),
            r is Ok && old(self).position <= old(self).vec.len() ==> final(self).position <= old(self).vec.len(),
    {
        reveal(m_component_params_at);
        let ghost goal = m_component_params_at(self.tokens(), self.cursor());
        let mut l: Option<Number> = None;
        let mut w: Option<Number> = None;
        let mut ad: Option<Number> = None;
        let mut as_: Option<Number> = None;
        let mut pd: Option<Number> = None;
        let mut ps: Option<Number> = None;
        let mut nrd: Option<Number> = None;
        let mut nrs: Option<Number> = None;
        let mut nrg: Option<Number> = None;
        let mut nrb: Option<Number> = None;
        let mut m: Option<Number> = None;
        let mut n: Option<Number> = None;
        loop
            invariant
                self.vec == old(self).vec,
                old(self).position <= self.position,
                old(self).position <= old(self).vec.len() ==> self.position <= self.vec.len(),
                goal == m_component_params_at(old(self).tokens(), old(self).cursor()),
                goal == m_component_params_from(self.tokens(), self.cursor(), MComponentParamsView { l: l.deep_view(), w: w.deep_view(), ad: ad.deep_view(), as_: as_.deep_view(), pd: pd.deep_view(), ps: ps.deep_view(), nrd: nrd.deep_view(), nrs: nrs.deep_view(), nrg: nrg.deep_view(), nrb: nrb.deep_view(), m: m.deep_view(), n: n.deep_view() }),
            decreases self.remaining(),
        {
            reveal(m_component_params_at);
            if self.matches_consume("L") {
                self.expect("=")?;
                l = Some(self.parse_number()?);
            } else if self.matches_consume("W") {
                self.expect("=")?;
                w = Some(self.parse_number()?);
            } else if self.matches_consume("AD") {
                self.expect("=")?;
                ad = Some(self.parse_number()?);
            } else if self.matches_consume("AS") {
                self.expect("=")?;
                as_ = Some(self.parse_number()?);
            } else if self.matches_consume("PD") {
                self.expect("=")?;
                pd = Some(self.parse_number()?);
            } else if self.matches_consume("PS") {
                self.expect("=")?;
                ps = Some(self.parse_number()?);
            } else if self.matches_consume("NRD") {
                self.expect("=")?;
                nrd = Some(self.parse_number()?);
            } else if self.matches_consume("NRS") {
                self.expect("=")?;
                nrs = Some(self.parse_number()?);
            } else if self.matches_consume("NRG") {
                self.expect("=")?;
                nrg = Some(self.parse_number()?);
            } else if self.matches_consume("NRB") {
                self.expect("=")?;
                nrb = Some(self.parse_number()?);
            } else if self.matches_consume("M") {
                self.expect("=")?;
                m = Some(self.parse_number()?);
            } else if self.matches_consume("N") {
                self.expect("=")?;
                n = Some(self.parse_number()?);
            } else {
                return Ok(MComponentParams { l, w, ad, as_, pd, ps, nrd, nrs, nrg, nrb, m, n });
            }
        }
    }
}

impl TryParse<MComponentParams> for SpiceLineParser<'_> {
    open spec fn rule(ts: Seq<AtomView>, pos: nat) -> Outcome<MComponentParamsView> {
        m_component_params_at(ts, pos)
    }

    fn try_parse(&mut self) -> (r: ParseResult<MComponentParams>) {
        self.parse_m_component_params()
    }
}

impl ExposeNodes for MComponentParams {
    open spec fn exposed(&self) -> Seq<Node> {
        Seq::empty()
    }

    fn nodes(&self) -> (ret: Vec<Node>) {
        let ret: Vec<Node> = Vec::new();
        ret
    }
}

/// A MOS field-effect transistor:
/// `M<name> <drain node> <gate node> <source node> <bulk node> <model name> [<param>=<value>]*`
#[derive(Debug, Clone, PartialEq)]
pub struct MComponent {
    pub name: Name,
    pub drain: Node,
    pub gate: Node,
    pub source: Node,
    pub bulk: Node,
    pub model: Name,
    pub params: MComponentParams,
}

/// Mathematical content of a [`MComponent`].
pub struct MComponentView {
    pub name: AtomView,
    pub drain: AtomView,
    pub gate: AtomView,
    pub source: AtomView,
    pub bulk: AtomView,
    pub model: AtomView,
    pub params: MComponentParamsView,
}

impl DeepView for MComponent {
    type V = MComponentView;

    open spec fn deep_view(&self) -> MComponentView {
        MComponentView {
            name: self.name.deep_view(),
            drain: self.drain.deep_view(),
            gate: self.gate.deep_view(),
            source: self.source.deep_view(),
            bulk: self.bulk.deep_view(),
            model: self.model.deep_view(),
            params: self.params.deep_view(),
        }
    }
}

/// The rule of [`MComponent`].
#[verifier::opaque]
pub open spec fn m_component_at(ts: Seq<AtomView>, pos: nat) -> Outcome<MComponentView> {
    match name_at(ts, pos) {
        (Ok(name), p1) => {
            match node_at(ts, p1) {
                (Ok(drain), p2) => {
                    match node_at(ts, p2) {
                        (Ok(gate), p3) => {
                            match node_at(ts, p3) {
                                (Ok(source), p4) => {
                                    match node_at(ts, p4) {
                                        (Ok(bulk), p5) => {
                                            match name_at(ts, p5) {
                                                (Ok(model), p6) => {
                                                    match m_component_params_at(ts, p6) {
                                                        (Ok(params), p7) => {
                                                            (Ok(MComponentView { name, drain, gate, source, bulk, model, params }), p7)
                                                        },
                                                        (Err(e), p7) => (Err(e), p7),
                                                    }
                                                },
                                                (Err(e), p6) => (Err(e), p6),
                                            }
                                        },
                                        (Err(e), p5) => (Err(e), p5),
                                    }
                                },
                                (Err(e), p4) => (Err(e), p4),
                            }
                        },
                        (Err(e), p3) => (Err(e), p3),
                    }
                },
                (Err(e), p2) => (Err(e), p2),
            }
        },
        (Err(e), p1) => (Err(e), p1),
    }
}

impl<'a> SpiceLineParser<'a> {
    /// Parses a [`MComponent`].
    pub fn parse_m_component(&mut self) -> (r: ParseResult<MComponent>)
        ensures
            parsed(*old(self), *final(self), r, m_component_at(old(self).tokens(), old(self).cursor())),
            r is Ok ==> old(self).position < final(self).position <= old(self).vec.len(),
    {
        reveal(m_component_at);
        let name = self.parse_name()?;
        let drain = self.parse_node()?;
        let gate = self.parse_node()?;
        let source = self.parse_node()?;
        let bulk = self.parse_node()?;
        let model = self.parse_name()?;
        let params = self.parse_m_component_params()?;
        Ok(MComponent { name, drain, gate, source, bulk, model, params })
    }
}

impl TryParse<MComponent> for SpiceLineParser<'_> {
    open spec fn rule(ts: Seq<AtomView>, pos: nat) -> Outcome<MComponentView> {
        m_component_at(ts, pos)
    }

    fn try_parse(&mut self) -> (r: ParseResult<MComponent>) {
        self.parse_m_component()
    }
}

impl ExposeNodes for MComponent {
    open spec fn exposed(&self) -> Seq<Node> {
        seq![self.drain, self.gate, self.source, self.bulk]
    }

    fn nodes(&self) -> (ret: Vec<Node>) {
        let mut ret: Vec<Node> = Vec::new();
        ret.push(self.drain.clone());
        ret.push(self.gate.clone());
        ret.push(self.source.clone());
        ret.push(self.bulk.clone());
        ret
    }
}

/// A [`MComponent`] that the end of the line may have cut short: each field is
/// there if the line reached it, and `position` counts the fields that
/// were tried.
#[derive(Debug, Clone)]
pub struct MComponentPartial {
    pub position: u32,
    pub name: Option<Name>,
    pub drain: Option<Node>,
    pub gate: Option<Node>,
    pub source: Option<Node>,
    pub bulk: Option<Node>,
    pub model: Option<Name>,
    pub params: Option<MComponentParams>,
}

/// Mathematical content of a [`MComponentPartial`].
pub struct MComponentPartialView {
    pub position: u32,
    pub name: Option<AtomView>,
    pub drain: Option<AtomView>,
    pub gate: Option<AtomView>,
    pub source: Option<AtomView>,
    pub bulk: Option<AtomView>,
    pub model: Option<AtomView>,
    pub params: Option<MComponentParamsView>,
}

impl DeepView for MComponentPartial {
    type V = MComponentPartialView;

    open spec fn deep_view(&self) -> MComponentPartialView {
        MComponentPartialView {
            position: self.position,
            name: self.name.deep_view(),
            drain: self.drain.deep_view(),
            gate: self.gate.deep_view(),
            source: self.source.deep_view(),
            bulk: self.bulk.deep_view(),
            model: self.model.deep_view(),
            params: self.params.deep_view(),
        }
    }
}

impl MComponentPartialView {
    /// Each field that is there follows one that is there.
    pub open spec fn in_order(self) -> bool {
        &&& self.drain is Some ==> self.name is Some
        &&& self.gate is Some ==> self.drain is Some
        &&& self.source is Some ==> self.gate is Some
        &&& self.bulk is Some ==> self.source is Some
        &&& self.model is Some ==> self.bulk is Some
        &&& self.params is Some ==> self.model is Some
    }
}

/// The rule of [`MComponentPartial`]: the fields of [`MComponent`] in order, up to the end of
/// the line.
#[verifier::opaque]
pub open spec fn m_component_partial_at(ts: Seq<AtomView>, pos: nat) -> Outcome<MComponentPartialView> {
    match partial_field(false, 0u32, pos, name_at(ts, pos)) {
        Ok((name, eof1, n1, p1)) => {
            match partial_field(eof1, n1, p1, node_at(ts, p1)) {
                Ok((drain, eof2, n2, p2)) => {
                    match partial_field(eof2, n2, p2, node_at(ts, p2)) {
                        Ok((gate, eof3, n3, p3)) => {
                            match partial_field(eof3, n3, p3, node_at(ts, p3)) {
                                Ok((source, eof4, n4, p4)) => {
                                    match partial_field(eof4, n4, p4, node_at(ts, p4)) {
                                        Ok((bulk, eof5, n5, p5)) => {
                                            match partial_field(eof5, n5, p5, name_at(ts, p5)) {
                                                Ok((model, eof6, n6, p6)) => {
                                                    match partial_field(eof6, n6, p6, m_component_params_at(ts, p6)) {
                                                        Ok((params, eof7, n7, p7)) => {
                                                            (Ok(MComponentPartialView { position: n7, name, drain, gate, source, bulk, model, params }), p7)
                                                        },
                                                        Err((e, p7)) => (Err(e), p7),
                                                    }
                                                },
                                                Err((e, p6)) => (Err(e), p6),
                                            }
                                        },
                                        Err((e, p5)) => (Err(e), p5),
                                    }
                                },
                                Err((e, p4)) => (Err(e), p4),
                            }
                        },
                        Err((e, p3)) => (Err(e), p3),
                    }
                },
                Err((e, p2)) => (Err(e), p2),
            }
        },
        Err((e, p1)) => (Err(e), p1),
    }
}

impl<'a> SpiceLineParser<'a> {
    /// Parses a [`MComponent`] as far as the line goes.
    pub fn parse_m_component_partial(&mut self) -> (r: ParseResult<MComponentPartial>)
        ensures
            parsed(*old(self), *final(self), r, m_component_partial_at(old(self).tokens(), old(self).cursor())),
            r matches Ok(v) ==> v.deep_view().in_order(),
    {
        reveal(m_component_partial_at);
        let mut is_eof = false;
        let mut position: u32 = 0;
        let name = if !is_eof {
            position += 1;
            partial_of(self.parse_name(), &mut is_eof)?
        } else {
            None
        };
        let drain = if !is_eof {
            position += 1;
            partial_of(self.parse_node(), &mut is_eof)?
        } else {
            None
        };
        let gate = if !is_eof {
            position += 1;
            partial_of(self.parse_node(), &mut is_eof)?
        } else {
            None
        };
        let source = if !is_eof {
            position += 1;
            partial_of(self.parse_node(), &mut is_eof)?
        } else {
            None
        };
        let bulk = if !is_eof {
            position += 1;
            partial_of(self.parse_node(), &mut is_eof)?
        } else {
            None
        };
        let model = if !is_eof {
            position += 1;
            partial_of(self.parse_name(), &mut is_eof)?
        } else {
            None
        };
        let params = if !is_eof {
            position += 1;
            partial_of(self.parse_m_component_params(), &mut is_eof)?
        } else {
            None
        };
        Ok(MComponentPartial { position, name, drain, gate, source, bulk, model, params })
    }
}

impl PartialParse<MComponentPartial> for SpiceLineParser<'_> {
    open spec fn partial_rule(ts: Seq<AtomView>, pos: nat) -> Outcome<MComponentPartialView> {
        m_component_partial_at(ts, pos)
    }

    fn try_partial(&mut self) -> (r: ParseResult<MComponentPartial>) {
        self.parse_m_component_partial()
    }

    fn info(&mut self) -> (r: ParseResult<(MComponentPartial, Vec<Element>)>) {
        let v = self.parse_m_component_partial()?;
        Ok((v, Vec::new()))
    }
}

/// A field of a [`MComponentPartial`] is there only if every field before it is.
pub proof fn lemma_m_component_partial_in_order(ts: Seq<AtomView>, pos: nat)
    ensures
        m_component_partial_at(ts, pos).0 matches Ok(v) ==> v.in_order(),
{
    reveal(m_component_partial_at);
}

/// A bipolar junction transistor:
/// `Q<name> <collector node> <base node> <emitter node> [substrate node] <model name> [area value]`
#[derive(Debug, Clone, PartialEq)]
pub struct QComponent {
    pub name: Name,
    pub collector: Node,
    pub base: Node,
    pub emitter: Node,
    pub substrate: Option<ExplicitNode>,
    pub model: Name,
    pub area: Option<Number>,
}

/// Mathematical content of a [`QComponent`].
pub struct QComponentView {
    pub name: AtomView,
    pub collector: AtomView,
    pub base: AtomView,
    pub emitter: AtomView,
    pub substrate: Option<AtomView>,
    pub model: AtomView,
    pub area: Option<NumberView>,
}

impl DeepView for QComponent {
    type V = QComponentView;

    open spec fn deep_view(&self) -> QComponentView {
        QComponentView {
            name: self.name.deep_view(),
            collector: self.collector.deep_view(),
            base: self.base.deep_view(),
            emitter: self.emitter.deep_view(),
            substrate: self.substrate.deep_view(),
            model: self.model.deep_view(),
            area: self.area.deep_view(),
        }
    }
}

/// The rule of [`QComponent`].
#[verifier::opaque]
pub open spec fn q_component_at(ts: Seq<AtomView>, pos: nat) -> Outcome<QComponentView> {
    match name_at(ts, pos) {
        (Ok(name), p1) => {
            match node_at(ts, p1) {
                (Ok(collector), p2) => {
                    match node_at(ts, p2) {
                        (Ok(base), p3) => {
                            match node_at(ts, p3) {
                                (Ok(emitter), p4) => {
                                    match optional_explicit_node_at(ts, p4) {
                                        (Ok(substrate), p5) => {
                                            match name_at(ts, p5) {
                                                (Ok(model), p6) => {
                                                    match optional_number_at(ts, p6) {
                                                        (Ok(area), p7) => {
                                                            (Ok(QComponentView { name, collector, base, emitter, substrate, model, area }), p7)
                                                        },
                                                        (Err(e), p7) => (Err(e), p7),
                                                    }
                                                },
                                                (Err(e), p6) => (Err(e), p6),
                                            }
                                        },
                                        (Err(e), p5) => (Err(e), p5),
                                    }
                                },
                                (Err(e), p4) => (Err(e), p4),
                            }
                        },
                        (Err(e), p3) => (Err(e), p3),
                    }
                },
                (Err(e), p2) => (Err(e), p2),
            }
        },
        (Err(e), p1) => (Err(e), p1),
    }
}

impl<'a> SpiceLineParser<'a> {
    /// Parses a [`QComponent`].
    pub fn parse_q_component(&mut self) -> (r: ParseResult<QComponent>)
        ensures
            parsed(*old(self), *final(self), r, q_component_at(old(self).tokens(), old(self).cursor())),
            r is Ok ==> old(self).position < final(self).position <= old(self).vec.len(),
    {
        reveal(q_component_at);
        let name = self.parse_name()?;
        let collector = self.parse_node()?;
        let base = self.parse_node()?;
        let emitter = self.parse_node()?;
        let substrate = self.parse_optional_explicit_node()?;
        let model = self.parse_name()?;
        let area = self.parse_optional_number()?;
        Ok(QComponent { name, collector, base, emitter, substrate, model, area })
    }
}

impl TryParse<QComponent> for SpiceLineParser<'_> {
    open spec fn rule(ts: Seq<AtomView>, pos: nat) -> Outcome<QComponentView> {
        q_component_at(ts, pos)
    }

    fn try_parse(&mut self) -> (r: ParseResult<QComponent>) {
        self.parse_q_component()
    }
}

impl ExposeNodes for QComponent {
    open spec fn exposed(&self) -> Seq<Node> {
        seq![self.collector, self.base, self.emitter]
    }

    fn nodes(&self) -> (ret: Vec<Node>) {
        let mut ret: Vec<Node> = Vec::new();
        ret.push(self.collector.clone());
        ret.push(self.base.clone());
        ret.push(self.emitter.clone());
        ret
    }
}

/// A [`QComponent`] that the end of the line may have cut short: each field is
/// there if the line reached it, and `position` counts the fields that
/// were tried.
#[derive(Debug, Clone)]
pub struct QComponentPartial {
    pub position: u32,
    pub name: Option<Name>,
    pub collector: Option<Node>,
    pub base: Option<Node>,
    pub emitter: Option<Node>,
    pub substrate: Option<Option<ExplicitNode>>,
    pub model: Option<Name>,
    pub area: Option<Option<Number>>,
}

/// Mathematical content of a [`QComponentPartial`].
pub struct QComponentPartialView {
    pub position: u32,
    pub name: Option<AtomView>,
    pub collector: Option<AtomView>,
    pub base: Option<AtomView>,
    pub emitter: Option<AtomView>,
    pub substrate: Option<Option<AtomView>>,
    pub model: Option<AtomView>,
    pub area: Option<Option<NumberView>>,
}

impl DeepView for QComponentPartial {
    type V = QComponentPartialView;

    open spec fn deep_view(&self) -> QComponentPartialView {
        QComponentPartialView {
            position: self.position,
            name: self.name.deep_view(),
            collector: self.collector.deep_view(),
            base: self.base.deep_view(),
            emitter: self.emitter.deep_view(),
            substrate: self.substrate.deep_view(),
            model: self.model.deep_view(),
            area: self.area.deep_view(),
        }
    }
}

impl QComponentPartialView {
    /// Each field that is there follows one that is there.
    pub open spec fn in_order(self) -> bool {
        &&& self.collector is Some ==> self.name is Some
        &&& self.base is Some ==> self.collector is Some
        &&& self.emitter is Some ==> self.base is Some
        &&& self.substrate is Some ==> self.emitter is Some
        &&& self.model is Some ==> self.substrate is Some
        &&& self.area is Some ==> self.model is Some
    }
}

/// The rule of [`QComponentPartial`]: the fields of [`QComponent`] in order, up to the end of
/// the line.
#[verifier::opaque]
pub open spec fn q_component_partial_at(ts: Seq<AtomView>, pos: nat) -> Outcome<QComponentPartialView> {
    match partial_field(false, 0u32, pos, name_at(ts, pos)) {
        Ok((name, eof1, n1, p1)) => {
            match partial_field(eof1, n1, p1, node_at(ts, p1)) {
                Ok((collector, eof2, n2, p2)) => {
                    match partial_field(eof2, n2, p2, node_at(ts, p2)) {
                        Ok((base, eof3, n3, p3)) => {
                            match partial_field(eof3, n3, p3, node_at(ts, p3)) {
                                Ok((emitter, eof4, n4, p4)) => {
                                    match partial_field(eof4, n4, p4, optional_explicit_node_at(ts, p4)) {
                                        Ok((substrate, eof5, n5, p5)) => {
                                            match partial_field(eof5, n5, p5, name_at(ts, p5)) {
                                                Ok((model, eof6, n6, p6)) => {
                                                    match partial_field(eof6, n6, p6, optional_number_at(ts, p6)) {
                                                        Ok((area, eof7, n7, p7)) => {
                                                            (Ok(QComponentPartialView { position: n7, name, collector, base, emitter, substrate, model, area }), p7)
                                                        },
                                                        Err((e, p7)) => (Err(e), p7),
                                                    }
                                                },
                                                Err((e, p6)) => (Err(e), p6),
                                            }
                                        },
                                        Err((e, p5)) => (Err(e), p5),
                                    }
                                },
                                Err((e, p4)) => (Err(e), p4),
                            }
                        },
                        Err((e, p3)) => (Err(e), p3),
                    }
                },
                Err((e, p2)) => (Err(e), p2),
            }
        },
        Err((e, p1)) => (Err(e), p1),
    }
}

impl<'a> SpiceLineParser<'a> {
    /// Parses a [`QComponent`] as far as the line goes.
    pub fn parse_q_component_partial(&mut self) -> (r: ParseResult<QComponentPartial>)
        ensures
            parsed(*old(self), *final(self), r, q_component_partial_at(old(self).tokens(), old(self).cursor())),
            r matches Ok(v) ==> v.deep_view().in_order(),
    {
        reveal(q_component_partial_at);
        let mut is_eof = false;
        let mut position: u32 = 0;
        let name = if !is_eof {
            position += 1;
            partial_of(self.parse_name(), &mut is_eof)?
        } else {
            None
        };
        let collector = if !is_eof {
            position += 1;
            partial_of(self.parse_node(), &mut is_eof)?
        } else {
            None
        };
        let base = if !is_eof {
            position += 1;
            partial_of(self.parse_node(), &mut is_eof)?
        } else {
            None
        };
        let emitter = if !is_eof {
            position += 1;
            partial_of(self.parse_node(), &mut is_eof)?
        } else {
            None
        };
        let substrate = if !is_eof {
            position += 1;
            partial_of(self.parse_optional_explicit_node(), &mut is_eof)?
        } else {
            None
        };
        let model = if !is_eof {
            position += 1;
            partial_of(self.parse_name(), &mut is_eof)?
        } else {
            None
        };
        let area = if !is_eof {
            position += 1;
            partial_of(self.parse_optional_number(), &mut is_eof)?
        } else {
            None
        };
        Ok(QComponentPartial { position, name, collector, base, emitter, substrate, model, area })
    }
}

impl PartialParse<QComponentPartial> for SpiceLineParser<'_> {
    open spec fn partial_rule(ts: Seq<AtomView>, pos: nat) -> Outcome<QComponentPartialView> {
        q_component_partial_at(ts, pos)
    }

    fn try_partial(&mut self) -> (r: ParseResult<QComponentPartial>) {
        self.parse_q_component_partial()
    }

    fn info(&mut self) -> (r: ParseResult<(QComponentPartial, Vec<Element>)>) {
        let v = self.parse_q_component_partial()?;
        Ok((v, Vec::new()))
    }
}

/// A field of a [`QComponentPartial`] is there only if every field before it is.
pub proof fn lemma_q_component_partial_in_order(ts: Seq<AtomView>, pos: nat)
    ensures
        q_component_partial_at(ts, pos).0 matches Ok(v) ==> v.in_order(),
{
    reveal(q_component_partial_at);
}

/// The parameters of a resistor: `TC = <TC1> [<TC2>]`
#[derive(Debug, Clone, PartialEq)]
pub struct RComponentParams {
    pub tc: Option<(Number, Option<Number>)>,
}

/// Mathematical content of a [`RComponentParams`].
pub struct RComponentParamsView {
    pub tc: Option<(NumberView, Option<NumberView>)>,
}

impl DeepView for RComponentParams {
    type V = RComponentParamsView;

    open spec fn deep_view(&self) -> RComponentParamsView {
        RComponentParamsView {
            tc: self.tc.deep_view(),
        }
    }
}

impl RComponentParamsView {
    /// No parameter given.
    pub open spec fn none() -> RComponentParamsView {
        RComponentParamsView { tc: None }
    }
}

/// The parameters from `pos` on, added to `acc`: a later value of a
/// parameter replaces an earlier one, and the first token that names no
/// parameter ends the record.
pub open spec fn r_component_params_from(ts: Seq<AtomView>, pos: nat, acc: RComponentParamsView) -> Outcome<RComponentParamsView>
    decreases tokens_left(ts, pos),
{
    if pos >= ts.len() {
        (Ok(acc), pos)
    } else if matches_at(ts, pos, "TC"@) {
        match expect_at(ts, pos + 1, "="@) {
            (Ok(_), p) => match forward(pos + 2, number_then_optional_at(ts, p)) {
                (Ok(v), end) => r_component_params_from(ts, end, RComponentParamsView { tc: Some(v), ..acc }),
                (Err(e), end) => (Err(e), end),
            },
            (Err(e), p) => (Err(e), p),
        }
    } else {
        (Ok(acc), pos)
    }
}

/// The rule of [`RComponentParams`].
#[verifier::opaque]
pub open spec fn r_component_params_at(ts: Seq<AtomView>, pos: nat) -> Outcome<RComponentParamsView> {
    r_component_params_from(ts, pos, RComponentParamsView::none())
}

impl<'a> SpiceLineParser<'a> {
    /// Parses a [`RComponentParams`].
    pub fn parse_r_component_params(&mut self) -> (r: ParseResult<RComponentParams>)
        ensures
            parsed(*old(self), *final(self), r, r_component_params_at(old(self).tokens(), old(self).cursor())),
            r is Ok && old(self).position <= old(self).vec.len() ==> final(self).position <= old(self).vec.len(),
    {
        reveal(r_component_params_at);
        let ghost goal = r_component_params_at(self.tokens(), self.cursor());
        let mut tc: Option<(Number, Option<Number>)> = None;
        loop
            invariant
                self.vec == old(self).vec,
                old(self).position <= self.position,
                old(self).position <= old(self).vec.len() ==> self.position <= self.vec.len(),
                goal == r_component_params_at(old(self).tokens(), old(self).cursor()),
                goal == r_component_params_from(self.tokens(), self.cursor(), RComponentParamsView { tc: tc.deep_view() }),
            decreases self.remaining(),
        {
            reveal(r_component_params_at);
            if self.matches_consume("TC") {
                self.expect("=")?;
                tc = Some(self.parse_number_then_optional()?);
            } else {
                return Ok(RComponentParams { tc });
            }
        }
    }
}

impl TryParse<RComponentParams> for SpiceLineParser<'_> {
    open spec fn rule(ts: Seq<AtomView>, pos: nat) -> Outcome<RComponentParamsView> {
        r_component_params_at(ts, pos)
    }

    fn try_parse(&mut self) -> (r: ParseResult<RComponentParams>) {
        self.parse_r_component_params()
    }
}

impl ExposeNodes for RComponentParams {
    open spec fn exposed(&self) -> Seq<Node> {
        Seq::empty()
    }

    fn nodes(&self) -> (ret: Vec<Node>) {
        let ret: Vec<Node> = Vec::new();
        ret
    }
}

/// A resistor:
/// `R<name> <(+) node> <(-) node> [model name] <value> [TC = <TC1> [,<TC2>]]`
#[derive(Debug, Clone, PartialEq)]
pub struct RComponent {
    pub name: Name,
    pub node1: Node,
    pub node2: Node,
    pub model: Option<Name>,
    pub value: Number,
    pub params: RComponentParams,
}

/// Mathematical content of a [`RComponent`].
pub struct RComponentView {
    pub name: AtomView,
    pub node1: AtomView,
    pub node2: AtomView,
    pub model: Option<AtomView>,
    pub value: NumberView,
    pub params: RComponentParamsView,
}

impl DeepView for RComponent {
    type V = RComponentView;

    open spec fn deep_view(&self) -> RComponentView {
        RComponentView {
            name: self.name.deep_view(),
            node1: self.node1.deep_view(),
            node2: self.node2.deep_view(),
            model: self.model.deep_view(),
            value: self.value.deep_view(),
            params: self.params.deep_view(),
        }
    }
}

/// The rule of [`RComponent`].
#[verifier::opaque]
pub open spec fn r_component_at(ts: Seq<AtomView>, pos: nat) -> Outcome<RComponentView> {
    match name_at(ts, pos) {
        (Ok(name), p1) => {
            match node_at(ts, p1) {
                (Ok(node1), p2) => {
                    match node_at(ts, p2) {
                        (Ok(node2), p3) => {
                            match optional_name_at(ts, p3) {
                                (Ok(model), p4) => {
                                    match number_at(ts, p4) {
                                        (Ok(value), p5) => {
                                            match r_component_params_at(ts, p5) {
                                                (Ok(params), p6) => {
                                                    (Ok(RComponentView { name, node1, node2, model, value, params }), p6)
                                                },
                                                (Err(e), p6) => (Err(e), p6),
                                            }
                                        },
                                        (Err(e), p5) => (Err(e), p5),
                                    }
                                },
                                (Err(e), p4) => (Err(e), p4),
                            }
                        },
                        (Err(e), p3) => (Err(e), p3),
                    }
                },
                (Err(e), p2) => (Err(e), p2),
            }
        },
        (Err(e), p1) => (Err(e), p1),
    }
}

impl<'a> SpiceLineParser<'a> {
    /// Parses a [`RComponent`].
    pub fn parse_r_component(&mut self) -> (r: ParseResult<RComponent>)
        ensures
            parsed(*old(self), *final(self), r, r_component_at(old(self).tokens(), old(self).cursor())),
            r is Ok ==> old(self).position < final(self).position <= old(self).vec.len(),
    {
        reveal(r_component_at);
        let name = self.parse_name()?;
        let node1 = self.parse_node()?;
        let node2 = self.parse_node()?;
        let model = self.parse_optional_name()?;
        let value = self.parse_number()?;
        let params = self.parse_r_component_params()?;
        Ok(RComponent { name, node1, node2, model, value, params })
    }
}

impl TryParse<RComponent> for SpiceLineParser<'_> {
    open spec fn rule(ts: Seq<AtomView>, pos: nat) -> Outcome<RComponentView> {
        r_component_at(ts, pos)
    }

    fn try_parse(&mut self) -> (r: ParseResult<RComponent>) {
        self.parse_r_component()
    }
}

impl ExposeNodes for RComponent {
    open spec fn exposed(&self) -> Seq<Node> {
        seq![self.node1, self.node2]
    }

    fn nodes(&self) -> (ret: Vec<Node>) {
        let mut ret: Vec<Node> = Vec::new();
        ret.push(self.node1.clone());
        ret.push(self.node2.clone());
        ret
    }
}

/// A [`RComponent`] that the end of the line may have cut short: each field is
/// there if the line reached it, and `position` counts the fields that
/// were tried.
#[derive(Debug, Clone)]
pub struct RComponentPartial {
    pub position: u32,
    pub name: Option<Name>,
    pub node1: Option<Node>,
    pub node2: Option<Node>,
    pub model: Option<Option<Name>>,
    pub value: Option<Number>,
    pub params: Option<RComponentParams>,
}

/// Mathematical content of a [`RComponentPartial`].
pub struct RComponentPartialView {
    pub position: u32,
    pub name: Option<AtomView>,
    pub node1: Option<AtomView>,
    pub node2: Option<AtomView>,
    pub model: Option<Option<AtomView>>,
    pub value: Option<NumberView>,
    pub params: Option<RComponentParamsView>,
}

impl DeepView for RComponentPartial {
    type V = RComponentPartialView;

    open spec fn deep_view(&self) -> RComponentPartialView {
        RComponentPartialView {
            position: self.position,
            name: self.name.deep_view(),
            node1: self.node1.deep_view(),
            node2: self.node2.deep_view(),
            model: self.model.deep_view(),
            value: self.value.deep_view(),
            params: self.params.deep_view(),
        }
    }
}

impl RComponentPartialView {
    /// Each field that is there follows one that is there.
    pub open spec fn in_order(self) -> bool {
        &&& self.node1 is Some ==> self.name is Some
        &&& self.node2 is Some ==> self.node1 is Some
        &&& self.model is Some ==> self.node2 is Some
        &&& self.value is Some ==> self.model is Some
        &&& self.params is Some ==> self.value is Some
    }
}

/// The rule of [`RComponentPartial`]: the fields of [`RComponent`] in order, up to the end of
/// the line.
#[verifier::opaque]
pub open spec fn r_component_partial_at(ts: Seq<AtomView>, pos: nat) -> Outcome<RComponentPartialView> {
    match partial_field(false, 0u32, pos, name_at(ts, pos)) {
        Ok((name, eof1, n1, p1)) => {
            match partial_field(eof1, n1, p1, node_at(ts, p1)) {
                Ok((node1, eof2, n2, p2)) => {
                    match partial_field(eof2, n2, p2, node_at(ts, p2)) {
                        Ok((node2, eof3, n3, p3)) => {
                            match partial_field(eof3, n3, p3, optional_name_at(ts, p3)) {
                                Ok((model, eof4, n4, p4)) => {
                                    match partial_field(eof4, n4, p4, number_at(ts, p4)) {
                                        Ok((value, eof5, n5, p5)) => {
                                            match partial_field(eof5, n5, p5, r_component_params_at(ts, p5)) {
                                                Ok((params, eof6, n6, p6)) => {
                                                    (Ok(RComponentPartialView { position: n6, name, node1, node2, model, value, params }), p6)
                                                },
                                                Err((e, p6)) => (Err(e), p6),
                                            }
                                        },
                                        Err((e, p5)) => (Err(e), p5),
                                    }
                                },
                                Err((e, p4)) => (Err(e), p4),
                            }
                        },
                        Err((e, p3)) => (Err(e), p3),
                    }
                },
                Err((e, p2)) => (Err(e), p2),
            }
        },
        Err((e, p1)) => (Err(e), p1),
    }
}

impl<'a> SpiceLineParser<'a> {
    /// Parses a [`RComponent`] as far as the line goes.
    pub fn parse_r_component_partial(&mut self) -> (r: ParseResult<RComponentPartial>)
        ensures
            parsed(*old(self), *final(self), r, r_component_partial_at(old(self).tokens(), old(self).cursor())),
            r matches Ok(v) ==> v.deep_view().in_order(),
    {
        reveal(r_component_partial_at);
        let mut is_eof = false;
        let mut position: u32 = 0;
        let name = if !is_eof {
            position += 1;
            partial_of(self.parse_name(), &mut is_eof)?
        } else {
            None
        };
        let node1 = if !is_eof {
            position += 1;
            partial_of(self.parse_node(), &mut is_eof)?
        } else {
            None
        };
        let node2 = if !is_eof {
            position += 1;
            partial_of(self.parse_node(), &mut is_eof)?
        } else {
            None
        };
        let model = if !is_eof {
            position += 1;
            partial_of(self.parse_optional_name(), &mut is_eof)?
        } else {
            None
        };
        let value = if !is_eof {
            position += 1;
            partial_of(self.parse_number(), &mut is_eof)?
        } else {
            None
        };
        let params = if !is_eof {
            position += 1;
            partial_of(self.parse_r_component_params(), &mut is_eof)?
        } else {
            None
        };
        Ok(RComponentPartial { position, name, node1, node2, model, value, params })
    }
}

impl PartialParse<RComponentPartial> for SpiceLineParser<'_> {
    open spec fn partial_rule(ts: Seq<AtomView>, pos: nat) -> Outcome<RComponentPartialView> {
        r_component_partial_at(ts, pos)
    }

    fn try_partial(&mut self) -> (r: ParseResult<RComponentPartial>) {
        self.parse_r_component_partial()
    }

    fn info(&mut self) -> (r: ParseResult<(RComponentPartial, Vec<Element>)>) {
        let v = self.parse_r_component_partial()?;
        Ok((v, Vec::new()))
    }
}

/// A field of a [`RComponentPartial`] is there only if every field before it is.
pub proof fn lemma_r_component_partial_in_order(ts: Seq<AtomView>, pos: nat)
    ensures
        r_component_partial_at(ts, pos).0 matches Ok(v) ==> v.in_order(),
{
    reveal(r_component_partial_at);
}

/// A switch controlled by a voltage:
/// `S<name> <(+) switch node> <(-) switch node> <(+) controlling node> <(-) controlling node> <model name>`
#[derive(Debug, Clone, PartialEq)]
pub struct SComponent {
    pub name: Name,
    pub snode1: Node,
    pub snode2: Node,
    pub cnode1: Node,
    pub cnode2: Node,
    pub model: Name,
}

/// Mathematical content of a [`SComponent`].
pub struct SComponentView {
    pub name: AtomView,
    pub snode1: AtomView,
    pub snode2: AtomView,
    pub cnode1: AtomView,
    pub cnode2: AtomView,
    pub model: AtomView,
}

impl DeepView for SComponent {
    type V = SComponentView;

    open spec fn deep_view(&self) -> SComponentView {
        SComponentView {
            name: self.name.deep_view(),
            snode1: self.snode1.deep_view(),
            snode2: self.snode2.deep_view(),
            cnode1: self.cnode1.deep_view(),
            cnode2: self.cnode2.deep_view(),
            model: self.model.deep_view(),
        }
    }
}

/// The rule of [`SComponent`].
#[verifier::opaque]
pub open spec fn s_component_at(ts: Seq<AtomView>, pos: nat) -> Outcome<SComponentView> {
    match name_at(ts, pos) {
        (Ok(name), p1) => {
            match node_at(ts, p1) {
                (Ok(snode1), p2) => {
                    match node_at(ts, p2) {
                        (Ok(snode2), p3) => {
                            match node_at(ts, p3) {
                                (Ok(cnode1), p4) => {
                                    match node_at(ts, p4) {
                                        (Ok(cnode2), p5) => {
                                            match name_at(ts, p5) {
                                                (Ok(model), p6) => {
                                                    (Ok(SComponentView { name, snode1, snode2, cnode1, cnode2, model }), p6)
                                                },
                                                (Err(e), p6) => (Err(e), p6),
                                            }
                                        },
                                        (Err(e), p5) => (Err(e), p5),
                                    }
                                },
                                (Err(e), p4) => (Err(e), p4),
                            }
                        },
                        (Err(e), p3) => (Err(e), p3),
                    }
                },
                (Err(e), p2) => (Err(e), p2),
            }
        },
        (Err(e), p1) => (Err(e), p1),
    }
}

impl<'a> SpiceLineParser<'a> {
    /// Parses a [`SComponent`].
    pub fn parse_s_component(&mut self) -> (r: ParseResult<SComponent>)
        ensures
            parsed(*old(self), *final(self), r, s_component_at(old(self).tokens(), old(self).cursor())),
            r is Ok ==> old(self).position < final(self).position <= old(self).vec.len(),
    {
        reveal(s_component_at);
        let name = self.parse_name()?;
        let snode1 = self.parse_node()?;
        let snode2 = self.parse_node()?;
        let cnode1 = self.parse_node()?;
        let cnode2 = self.parse_node()?;
        let model = self.parse_name()?;
        Ok(SComponent { name, snode1, snode2, cnode1, cnode2, model })
    }
}

impl TryParse<SComponent> for SpiceLineParser<'_> {
    open spec fn rule(ts: Seq<AtomView>, pos: nat) -> Outcome<SComponentView> {
        s_component_at(ts, pos)
    }

    fn try_parse(&mut self) -> (r: ParseResult<SComponent>) {
        self.parse_s_component()
    }
}

impl ExposeNodes for SComponent {
    open spec fn exposed(&self) -> Seq<Node> {
        seq![self.snode1, self.snode2, self.cnode1, self.cnode2]
    }

    fn nodes(&self) -> (ret: Vec<Node>) {
        let mut ret: Vec<Node> = Vec::new();
        ret.push(self.snode1.clone());
        ret.push(self.snode2.clone());
        ret.push(self.cnode1.clone());
        ret.push(self.cnode2.clone());
        ret
    }
}

/// A [`SComponent`] that the end of the line may have cut short: each field is
/// there if the line reached it, and `position` counts the fields that
/// were tried.
#[derive(Debug, Clone)]
pub struct SComponentPartial {
    pub position: u32,
    pub name: Option<Name>,
    pub snode1: Option<Node>,
    pub snode2: Option<Node>,
    pub cnode1: Option<Node>,
    pub cnode2: Option<Node>,
    pub model: Option<Name>,
}

/// Mathematical content of a [`SComponentPartial`].
pub struct SComponentPartialView {
    pub position: u32,
    pub name: Option<AtomView>,
    pub snode1: Option<AtomView>,
    pub snode2: Option<AtomView>,
    pub cnode1: Option<AtomView>,
    pub cnode2: Option<AtomView>,
    pub model: Option<AtomView>,
}

impl DeepView for SComponentPartial {
    type V = SComponentPartialView;

    open spec fn deep_view(&self) -> SComponentPartialView {
        SComponentPartialView {
            position: self.position,
            name: self.name.deep_view(),
            snode1: self.snode1.deep_view(),
            snode2: self.snode2.deep_view(),
            cnode1: self.cnode1.deep_view(),
            cnode2: self.cnode2.deep_view(),
            model: self.model.deep_view(),
        }
    }
}

impl SComponentPartialView {
    /// Each field that is there follows one that is there.
    pub open spec fn in_order(self) -> bool {
        &&& self.snode1 is Some ==> self.name is Some
        &&& self.snode2 is Some ==> self.snode1 is Some
        &&& self.cnode1 is Some ==> self.snode2 is Some
        &&& self.cnode2 is Some ==> self.cnode1 is Some
        &&& self.model is Some ==> self.cnode2 is Some
    }
}

/// The rule of [`SComponentPartial`]: the fields of [`SComponent`] in order, up to the end of
/// the line.
#[verifier::opaque]
pub open spec fn s_component_partial_at(ts: Seq<AtomView>, pos: nat) -> Outcome<SComponentPartialView> {
    match partial_field(false, 0u32, pos, name_at(ts, pos)) {
        Ok((name, eof1, n1, p1)) => {
            match partial_field(eof1, n1, p1, node_at(ts, p1)) {
                Ok((snode1, eof2, n2, p2)) => {
                    match partial_field(eof2, n2, p2, node_at(ts, p2)) {
                        Ok((snode2, eof3, n3, p3)) => {
                            match partial_field(eof3, n3, p3, node_at(ts, p3)) {
                                Ok((cnode1, eof4, n4, p4)) => {
                                    match partial_field(eof4, n4, p4, node_at(ts, p4)) {
                                        Ok((cnode2, eof5, n5, p5)) => {
                                            match partial_field(eof5, n5, p5, name_at(ts, p5)) {
                                                Ok((model, eof6, n6, p6)) => {
                                                    (Ok(SComponentPartialView { position: n6, name, snode1, snode2, cnode1, cnode2, model }), p6)
                                                },
                                                Err((e, p6)) => (Err(e), p6),
                                            }
                                        },
                                        Err((e, p5)) => (Err(e), p5),
                                    }
                                },
                                Err((e, p4)) => (Err(e), p4),
                            }
                        },
                        Err((e, p3)) => (Err(e), p3),
                    }
                },
                Err((e, p2)) => (Err(e), p2),
            }
        },
        Err((e, p1)) => (Err(e), p1),
    }
}

impl<'a> SpiceLineParser<'a> {
    /// Parses a [`SComponent`] as far as the line goes.
    pub fn parse_s_component_partial(&mut self) -> (r: ParseResult<SComponentPartial>)
        ensures
            parsed(*old(self), *final(self), r, s_component_partial_at(old(self).tokens(), old(self).cursor())),
            r matches Ok(v) ==> v.deep_view().in_order(),
    {
        reveal(s_component_partial_at);
        let mut is_eof = false;
        let mut position: u32 = 0;
        let name = if !is_eof {
            position += 1;
            partial_of(self.parse_name(), &mut is_eof)?
        } else {
            None
        };
        let snode1 = if !is_eof {
            position += 1;
            partial_of(self.parse_node(), &mut is_eof)?
        } else {
            None
        };
        let snode2 = if !is_eof {
            position += 1;
            partial_of(self.parse_node(), &mut is_eof)?
        } else {
            None
        };
        let cnode1 = if !is_eof {
            position += 1;
            partial_of(self.parse_node(), &mut is_eof)?
        } else {
            None
        };
        let cnode2 = if !is_eof {
            position += 1;
            partial_of(self.parse_node(), &mut is_eof)?
        } else {
            None
        };
        let model = if !is_eof {
            position += 1;
            partial_of(self.parse_name(), &mut is_eof)?
        } else {
            None
        };
        Ok(SComponentPartial { position, name, snode1, snode2, cnode1, cnode2, model })
    }
}

impl PartialParse<SComponentPartial> for SpiceLineParser<'_> {
    open spec fn partial_rule(ts: Seq<AtomView>, pos: nat) -> Outcome<SComponentPartialView> {
        s_component_partial_at(ts, pos)
    }

    fn try_partial(&mut self) -> (r: ParseResult<SComponentPartial>) {
        self.parse_s_component_partial()
    }

    fn info(&mut self) -> (r: ParseResult<(SComponentPartial, Vec<Element>)>) {
        let v = self.parse_s_component_partial()?;
        Ok((v, Vec::new()))
    }
}

/// A field of a [`SComponentPartial`] is there only if every field before it is.
pub proof fn lemma_s_component_partial_in_order(ts: Seq<AtomView>, pos: nat)
    ensures
        s_component_partial_at(ts, pos).0 matches Ok(v) ==> v.in_order(),
{
    reveal(s_component_partial_at);
}

/// The parameters of a transmission line.
#[derive(Debug, Clone, PartialEq)]
pub struct TComponentParams {
    pub z0: Option<Number>,
    pub td: Option<Number>,
    pub f: Option<Number>,
    pub nl: Option<Number>,
    pub ic: Option<(Number, Number, Number, Number)>,
    pub len: Option<Number>,
    pub r: Option<Number>,
    pub l: Option<Number>,
    pub g: Option<Number>,
    pub c: Option<Number>,
}

/// Mathematical content of a [`TComponentParams`].
pub struct TComponentParamsView {
    pub z0: Option<NumberView>,
    pub td: Option<NumberView>,
    pub f: Option<NumberView>,
    pub nl: Option<NumberView>,
    pub ic: Option<(NumberView, NumberView, NumberView, NumberView)>,
    pub len: Option<NumberView>,
    pub r: Option<NumberView>,
    pub l: Option<NumberView>,
    pub g: Option<NumberView>,
    pub c: Option<NumberView>,
}

impl DeepView for TComponentParams {
    type V = TComponentParamsView;

    open spec fn deep_view(&self) -> TComponentParamsView {
        TComponentParamsView {
            z0: self.z0.deep_view(),
            td: self.td.deep_view(),
            f: self.f.deep_view(),
            nl: self.nl.deep_view(),
            ic: self.ic.deep_view(),
            len: self.len.deep_view(),
            r: self.r.deep_view(),
            l: self.l.deep_view(),
            g: self.g.deep_view(),
            c: self.c.deep_view(),
        }
    }
}

impl TComponentParamsView {
    /// No parameter given.
    pub open spec fn none() -> TComponentParamsView {
        TComponentParamsView { z0: None, td: None, f: None, nl: None, ic: None, len: None, r: None, l: None, g: None, c: None }
    }
}

/// The parameters from `pos` on, added to `acc`: a later value of a
/// parameter replaces an earlier one, and the first token that names no
/// parameter ends the record.
pub open spec fn t_component_params_from(ts: Seq<AtomView>, pos: nat, acc: TComponentParamsView) -> Outcome<TComponentParamsView>
    decreases tokens_left(ts, pos),
{
    if pos >= ts.len() {
        (Ok(acc), pos)
    } else if matches_at(ts, pos, "Z0"@) {
        match expect_at(ts, pos + 1, "="@) {
            (Ok(_), p) => match forward(pos + 2, number_at(ts, p)) {
                (Ok(v), end) => t_component_params_from(ts, end, TComponentParamsView { z0: Some(v), ..acc }),
                (Err(e), end) => (Err(e), end),
            },
            (Err(e), p) => (Err(e), p),
        }
    } else if matches_at(ts, pos, "TD"@) {
        match expect_at(ts, pos + 1, "="@) {
            (Ok(_), p) => match forward(pos + 2, number_at(ts, p)) {
                (Ok(v), end) => t_component_params_from(ts, end, TComponentParamsView { td: Some(v), ..acc }),
                (Err(e), end) => (Err(e), end),
            },
            (Err(e), p) => (Err(e), p),
        }
    } else if matches_at(ts, pos, "F"@) {
        match expect_at(ts, pos + 1, "="@) {
            (Ok(_), p) => match forward(pos + 2, number_at(ts, p)) {
                (Ok(v), end) => t_component_params_from(ts, end, TComponentParamsView { f: Some(v), ..acc }),
                (Err(e), end) => (Err(e), end),
            },
            (Err(e), p) => (Err(e), p),
        }
    } else if matches_at(ts, pos, "NL"@) {
        match expect_at(ts, pos + 1, "="@) {
            (Ok(_), p) => match forward(pos + 2, number_at(ts, p)) {
                (Ok(v), end) => t_component_params_from(ts, end, TComponentParamsView { nl: Some(v), ..acc }),
                (Err(e), end) => (Err(e), end),
            },
            (Err(e), p) => (Err(e), p),
        }
    } else if matches_at(ts, pos, "IC"@) {
        match expect_at(ts, pos + 1, "="@) {
            (Ok(_), p) => match forward(pos + 2, number_quad_at(ts, p)) {
                (Ok(v), end) => t_component_params_from(ts, end, TComponentParamsView { ic: Some(v), ..acc }),
                (Err(e), end) => (Err(e), end),
            },
            (Err(e), p) => (Err(e), p),
        }
    } else if matches_at(ts, pos, "LEN"@) {
        match expect_at(ts, pos + 1, "="@) {
            (Ok(_), p) => match forward(pos + 2, number_at(ts, p)) {
                (Ok(v), end) => t_component_params_from(ts, end, TComponentParamsView { len: Some(v), ..acc }),
                (Err(e), end) => (Err(e), end),
            },
            (Err(e), p) => (Err(e), p),
        }
    } else if matches_at(ts, pos, "R"@) {
        match expect_at(ts, pos + 1, "="@) {
            (Ok(_), p) => match forward(pos + 2, number_at(ts, p)) {
                (Ok(v), end) => t_component_params_from(ts, end, TComponentParamsView { r: Some(v), ..acc }),
                (Err(e), end) => (Err(e), end),
            },
            (Err(e), p) => (Err(e), p),
        }
    } else if matches_at(ts, pos, "L"@) {
        match expect_at(ts, pos + 1, "="@) {
            (Ok(_), p) => match forward(pos + 2, number_at(ts, p)) {
                (Ok(v), end) => t_component_params_from(ts, end, TComponentParamsView { l: Some(v), ..acc }),
                (Err(e), end) => (Err(e), end),
            },
            (Err(e), p) => (Err(e), p),
        }
    } else if matches_at(ts, pos, "G"@) {
        match expect_at(ts, pos + 1, "="@) {
            (Ok(_), p) => match forward(pos + 2, number_at(ts, p)) {
                (Ok(v), end) => t_component_params_from(ts, end, TComponentParamsView { g: Some(v), ..acc }),
                (Err(e), end) => (Err(e), end),
            },
            (Err(e), p) => (Err(e), p),
        }
    } else if matches_at(ts, pos, "C"@) {
        match expect_at(ts, pos + 1, "="@) {
            (Ok(_), p) => match forward(pos + 2, number_at(ts, p)) {
                (Ok(v), end) => t_component_params_from(ts, end, TComponentParamsView { c: Some(v), ..acc }),
                (Err(e), end) => (Err(e), end),
            },
            (Err(e), p) => (Err(e), p),
        }
    } else {
        (Ok(acc), pos)
    }
}

/// The rule of [`TComponentParams`].
#[verifier::opaque]
pub open spec fn t_component_params_at(ts: Seq<AtomView>, pos: nat) -> Outcome<TComponentParamsView> {
    t_component_params_from(ts, pos, TComponentParamsView::none())
}

impl<'a> SpiceLineParser<'a> {
    /// Parses a [`TComponentParams`].
    pub fn parse_t_component_params(&mut self) -> (r: ParseResult<TComponentParams>)
        ensures
            parsed(*old(self), *final(self), r, t_component_params_at(old(self).tokens(), old(self).cursor())),
            r is Ok && old(self).position <= old(self).vec.len() ==> final(self).position <= old(self).vec.len(),
    {
        reveal(t_component_params_at);
        let ghost goal = t_component_params_at(self.tokens(), self.cursor());
        let mut z0: Option<Number> = None;
        let mut td: Option<Number> = None;
        let mut f: Option<Number> = None;
        let mut nl: Option<Number> = None;
        let mut ic: Option<(Number, Number, Number, Number)> = None;
        let mut len: Option<Number> = None;
        let mut r: Option<Number> = None;
        let mut l: Option<Number> = None;
        let mut g: Option<Number> = None;
        let mut c: Option<Number> = None;
        loop
            invariant
                self.vec == old(self).vec,
                old(self).position <= self.position,
                old(self).position <= old(self).vec.len() ==> self.position <= self.vec.len(),
                goal == t_component_params_at(old(self).tokens(), old(self).cursor()),
                goal == t_component_params_from(self.tokens(), self.cursor(), TComponentParamsView { z0: z0.deep_view(), td: td.deep_view(), f: f.deep_view(), nl: nl.deep_view(), ic: ic.deep_view(), len: len.deep_view(), r: r.deep_view(), l: l.deep_view(), g: g.deep_view(), c: c.deep_view() }),
            decreases self.remaining(),
        {
            reveal(t_component_params_at);
            if self.matches_consume("Z0") {
                self.expect("=")?;
                z0 = Some(self.parse_number()?);
            } else if self.matches_consume("TD") {
                self.expect("=")?;
                td = Some(self.parse_number()?);
            } else if self.matches_consume("F") {
                self.expect("=")?;
                f = Some(self.parse_number()?);
            } else if self.matches_consume("NL") {
                self.expect("=")?;
                nl = Some(self.parse_number()?);
            } else if self.matches_consume("IC") {
                self.expect("=")?;
                ic = Some(self.parse_number_quad()?);
            } else if self.matches_consume("LEN") {
                self.expect("=")?;
                len = Some(self.parse_number()?);
            } else if self.matches_consume("R") {
                self.expect("=")?;
                r = Some(self.parse_number()?);
            } else if self.matches_consume("L") {
                self.expect("=")?;
                l = Some(self.parse_number()?);
            } else if self.matches_consume("G") {
                self.expect("=")?;
                g = Some(self.parse_number()?);
            } else if self.matches_consume("C") {
                self.expect("=")?;
                c = Some(self.parse_number()?);
            } else {
                return Ok(TComponentParams { z0, td, f, nl, ic, len, r, l, g, c });
            }
        }
    }
}

impl TryParse<TComponentParams> for SpiceLineParser<'_> {
    open spec fn rule(ts: Seq<AtomView>, pos: nat) -> Outcome<TComponentParamsView> {
        t_component_params_at(ts, pos)
    }

    fn try_parse(&mut self) -> (r: ParseResult<TComponentParams>) {
        self.parse_t_component_params()
    }
}

impl ExposeNodes for TComponentParams {
    open spec fn exposed(&self) -> Seq<Node> {
        Seq::empty()
    }

    fn nodes(&self) -> (ret: Vec<Node>) {
        let ret: Vec<Node> = Vec::new();
        ret
    }
}

/// A transmission line:
/// `T<name> <A (+) node> <A (-) node> <B (+) node> <B (-) node> [<model> [<length>]] [<param>=<value>]*`
#[derive(Debug, Clone, PartialEq)]
pub struct TComponent {
    pub name: Name,
    pub anode1: Node,
    pub anode2: Node,
    pub bnode1: Node,
    pub bnode2: Node,
    pub model: Option<(Name, Option<Number>)>,
    pub params: TComponentParams,
}

/// Mathematical content of a [`TComponent`].
pub struct TComponentView {
    pub name: AtomView,
    pub anode1: AtomView,
    pub anode2: AtomView,
    pub bnode1: AtomView,
    pub bnode2: AtomView,
    pub model: Option<(AtomView, Option<NumberView>)>,
    pub params: TComponentParamsView,
}

impl DeepView for TComponent {
    type V = TComponentView;

    open spec fn deep_view(&self) -> TComponentView {
        TComponentView {
            name: self.name.deep_view(),
            anode1: self.anode1.deep_view(),
            anode2: self.anode2.deep_view(),
            bnode1: self.bnode1.deep_view(),
            bnode2: self.bnode2.deep_view(),
            model: self.model.deep_view(),
            params: self.params.deep_view(),
        }
    }
}

/// The rule of [`TComponent`].
#[verifier::opaque]
pub open spec fn t_component_at(ts: Seq<AtomView>, pos: nat) -> Outcome<TComponentView> {
    match name_at(ts, pos) {
        (Ok(name), p1) => {
            match node_at(ts, p1) {
                (Ok(anode1), p2) => {
                    match node_at(ts, p2) {
                        (Ok(anode2), p3) => {
                            match node_at(ts, p3) {
                                (Ok(bnode1), p4) => {
                                    match node_at(ts, p4) {
                                        (Ok(bnode2), p5) => {
                                            match optional_name_then_number_at(ts, p5) {
                                                (Ok(model), p6) => {
                                                    match t_component_params_at(ts, p6) {
                                                        (Ok(params), p7) => {
                                                            (Ok(TComponentView { name, anode1, anode2, bnode1, bnode2, model, params }), p7)
                                                        },
                                                        (Err(e), p7) => (Err(e), p7),
                                                    }
                                                },
                                                (Err(e), p6) => (Err(e), p6),
                                            }
                                        },
                                        (Err(e), p5) => (Err(e), p5),
                                    }
                                },
                                (Err(e), p4) => (Err(e), p4),
                            }
                        },
                        (Err(e), p3) => (Err(e), p3),
                    }
                },
                (Err(e), p2) => (Err(e), p2),
            }
        },
        (Err(e), p1) => (Err(e), p1),
    }
}

impl<'a> SpiceLineParser<'a> {
    /// Parses a [`TComponent`].
    pub fn parse_t_component(&mut self) -> (r: ParseResult<TComponent>)
        ensures
            parsed(*old(self), *final(self), r, t_component_at(old(self).tokens(), old(self).cursor())),
            r is Ok ==> old(self).position < final(self).position <= old(self).vec.len(),
    {
        reveal(t_component_at);
        let name = self.parse_name()?;
        let anode1 = self.parse_node()?;
        let anode2 = self.parse_node()?;
        let bnode1 = self.parse_node()?;
        let bnode2 = self.parse_node()?;
        let model = self.parse_optional_name_then_number()?;
        let params = self.parse_t_component_params()?;
        Ok(TComponent { name, anode1, anode2, bnode1, bnode2, model, params })
    }
}

impl TryParse<TComponent> for SpiceLineParser<'_> {
    open spec fn rule(ts: Seq<AtomView>, pos: nat) -> Outcome<TComponentView> {
        t_component_at(ts, pos)
    }

    fn try_parse(&mut self) -> (r: ParseResult<TComponent>) {
        self.parse_t_component()
    }
}

impl ExposeNodes for TComponent {
    open spec fn exposed(&self) -> Seq<Node> {
        seq![self.anode1, self.anode2, self.bnode1, self.bnode2]
    }

    fn nodes(&self) -> (ret: Vec<Node>) {
        let mut ret: Vec<Node> = Vec::new();
        ret.push(self.anode1.clone());
        ret.push(self.anode2.clone());
        ret.push(self.bnode1.clone());
        ret.push(self.bnode2.clone());
        ret
    }
}

/// A [`TComponent`] that the end of the line may have cut short: each field is
/// there if the line reached it, and `position` counts the fields that
/// were tried.
#[derive(Debug, Clone)]
pub struct TComponentPartial {
    pub position: u32,
    pub name: Option<Name>,
    pub anode1: Option<Node>,
    pub anode2: Option<Node>,
    pub bnode1: Option<Node>,
    pub bnode2: Option<Node>,
    pub model: Option<Option<(Name, Option<Number>)>>,
    pub params: Option<TComponentParams>,
}

/// Mathematical content of a [`TComponentPartial`].
pub struct TComponentPartialView {
    pub position: u32,
    pub name: Option<AtomView>,
    pub anode1: Option<AtomView>,
    pub anode2: Option<AtomView>,
    pub bnode1: Option<AtomView>,
    pub bnode2: Option<AtomView>,
    pub model: Option<Option<(AtomView, Option<NumberView>)>>,
    pub params: Option<TComponentParamsView>,
}

impl DeepView for TComponentPartial {
    type V = TComponentPartialView;

    open spec fn deep_view(&self) -> TComponentPartialView {
        TComponentPartialView {
            position: self.position,
            name: self.name.deep_view(),
            anode1: self.anode1.deep_view(),
            anode2: self.anode2.deep_view(),
            bnode1: self.bnode1.deep_view(),
            bnode2: self.bnode2.deep_view(),
            model: self.model.deep_view(),
            params: self.params.deep_view(),
        }
    }
}

impl TComponentPartialView {
    /// Each field that is there follows one that is there.
    pub open spec fn in_order(self) -> bool {
        &&& self.anode1 is Some ==> self.name is Some
        &&& self.anode2 is Some ==> self.anode1 is Some
        &&& self.bnode1 is Some ==> self.anode2 is Some
        &&& self.bnode2 is Some ==> self.bnode1 is Some
        &&& self.model is Some ==> self.bnode2 is Some
        &&& self.params is Some ==> self.model is Some
    }
}

/// The rule of [`TComponentPartial`]: the fields of [`TComponent`] in order, up to the end of
/// the line.
#[verifier::opaque]
pub open spec fn t_component_partial_at(ts: Seq<AtomView>, pos: nat) -> Outcome<TComponentPartialView> {
    match partial_field(false, 0u32, pos, name_at(ts, pos)) {
        Ok((name, eof1, n1, p1)) => {
            match partial_field(eof1, n1, p1, node_at(ts, p1)) {
                Ok((anode1, eof2, n2, p2)) => {
                    match partial_field(eof2, n2, p2, node_at(ts, p2)) {
                        Ok((anode2, eof3, n3, p3)) => {
                            match partial_field(eof3, n3, p3, node_at(ts, p3)) {
                                Ok((bnode1, eof4, n4, p4)) => {
                                    match partial_field(eof4, n4, p4, node_at(ts, p4)) {
                                        Ok((bnode2, eof5, n5, p5)) => {
                                            match partial_field(eof5, n5, p5, optional_name_then_number_at(ts, p5)) {
                                                Ok((model, eof6, n6, p6)) => {
                                                    match partial_field(eof6, n6, p6, t_component_params_at(ts, p6)) {
                                                        Ok((params, eof7, n7, p7)) => {
                                                            (Ok(TComponentPartialView { position: n7, name, anode1, anode2, bnode1, bnode2, model, params }), p7)
                                                        },
                                                        Err((e, p7)) => (Err(e), p7),
                                                    }
                                                },
                                                Err((e, p6)) => (Err(e), p6),
                                            }
                                        },
                                        Err((e, p5)) => (Err(e), p5),
                                    }
                                },
                                Err((e, p4)) => (Err(e), p4),
                            }
                        },
                        Err((e, p3)) => (Err(e), p3),
                    }
                },
                Err((e, p2)) => (Err(e), p2),
            }
        },
        Err((e, p1)) => (Err(e), p1),
    }
}

impl<'a> SpiceLineParser<'a> {
    /// Parses a [`TComponent`] as far as the line goes.
    pub fn parse_t_component_partial(&mut self) -> (r: ParseResult<TComponentPartial>)
        ensures
            parsed(*old(self), *final(self), r, t_component_partial_at(old(self).tokens(), old(self).cursor())),
            r matches Ok(v) ==> v.deep_view().in_order(),
    {
        reveal(t_component_partial_at);
        let mut is_eof = false;
        let mut position: u32 = 0;
        let name = if !is_eof {
            position += 1;
            partial_of(self.parse_name(), &mut is_eof)?
        } else {
            None
        };
        let anode1 = if !is_eof {
            position += 1;
            partial_of(self.parse_node(), &mut is_eof)?
        } else {
            None
        };
        let anode2 = if !is_eof {
            position += 1;
            partial_of(self.parse_node(), &mut is_eof)?
        } else {
            None
        };
        let bnode1 = if !is_eof {
            position += 1;
            partial_of(self.parse_node(), &mut is_eof)?
        } else {
            None
        };
        let bnode2 = if !is_eof {
            position += 1;
            partial_of(self.parse_node(), &mut is_eof)?
        } else {
            None
        };
        let model = if !is_eof {
            position += 1;
            partial_of(self.parse_optional_name_then_number(), &mut is_eof)?
        } else {
            None
        };
        let params = if !is_eof {
            position += 1;
            partial_of(self.parse_t_component_params(), &mut is_eof)?
        } else {
            None
        };
        Ok(TComponentPartial { position, name, anode1, anode2, bnode1, bnode2, model, params })
    }
}

impl PartialParse<TComponentPartial> for SpiceLineParser<'_> {
    open spec fn partial_rule(ts: Seq<AtomView>, pos: nat) -> Outcome<TComponentPartialView> {
        t_component_partial_at(ts, pos)
    }

    fn try_partial(&mut self) -> (r: ParseResult<TComponentPartial>) {
        self.parse_t_component_partial()
    }

    fn info(&mut self) -> (r: ParseResult<(TComponentPartial, Vec<Element>)>) {
        let v = self.parse_t_component_partial()?;
        Ok((v, Vec::new()))
    }
}

/// A field of a [`TComponentPartial`] is there only if every field before it is.
pub proof fn lemma_t_component_partial_in_order(ts: Seq<AtomView>, pos: nat)
    ensures
        t_component_partial_at(ts, pos).0 matches Ok(v) ==> v.in_order(),
{
    reveal(t_component_partial_at);
}

/// An independent voltage source:
/// `V<name> <node1> <node2> [<dc>] [<ac>] [<transient>]`
#[derive(Debug, Clone, PartialEq)]
pub struct VComponent {
    pub name: Name,
    pub node1: Node,
    pub node2: Node,
    pub dc: Option<DcSource>,
    pub ac: Option<AcSource>,
    pub transient: Option<Transient>,
}

/// Mathematical content of a [`VComponent`].
pub struct VComponentView {
    pub name: AtomView,
    pub node1: AtomView,
    pub node2: AtomView,
    pub dc: Option<DcSourceView>,
    pub ac: Option<AcSourceView>,
    pub transient: Option<TransientView>,
}

impl DeepView for VComponent {
    type V = VComponentView;

    open spec fn deep_view(&self) -> VComponentView {
        VComponentView {
            name: self.name.deep_view(),
            node1: self.node1.deep_view(),
            node2: self.node2.deep_view(),
            dc: self.dc.deep_view(),
            ac: self.ac.deep_view(),
            transient: self.transient.deep_view(),
        }
    }
}

/// The rule of [`VComponent`].
#[verifier::opaque]
pub open spec fn v_component_at(ts: Seq<AtomView>, pos: nat) -> Outcome<VComponentView> {
    match name_at(ts, pos) {
        (Ok(name), p1) => {
            match node_at(ts, p1) {
                (Ok(node1), p2) => {
                    match node_at(ts, p2) {
                        (Ok(node2), p3) => {
                            match optional_dc_source_at(ts, p3) {
                                (Ok(dc), p4) => {
                                    match optional_ac_source_at(ts, p4) {
                                        (Ok(ac), p5) => {
                                            match optional_transient_at(ts, p5) {
                                                (Ok(transient), p6) => {
                                                    (Ok(VComponentView { name, node1, node2, dc, ac, transient }), p6)
                                                },
                                                (Err(e), p6) => (Err(e), p6),
                                            }
                                        },
                                        (Err(e), p5) => (Err(e), p5),
                                    }
                                },
                                (Err(e), p4) => (Err(e), p4),
                            }
                        },
                        (Err(e), p3) => (Err(e), p3),
                    }
                },
                (Err(e), p2) => (Err(e), p2),
            }
        },
        (Err(e), p1) => (Err(e), p1),
    }
}

impl<'a> SpiceLineParser<'a> {
    /// Parses a [`VComponent`].
    pub fn parse_v_component(&mut self) -> (r: ParseResult<VComponent>)
        ensures
            parsed(*old(self), *final(self), r, v_component_at(old(self).tokens(), old(self).cursor())),
            r is Ok ==> old(self).position < final(self).position <= old(self).vec.len(),
    {
        reveal(v_component_at);
        let name = self.parse_name()?;
        let node1 = self.parse_node()?;
        let node2 = self.parse_node()?;
        let dc = self.parse_optional_dc_source()?;
        let ac = self.parse_optional_ac_source()?;
        let transient = self.parse_optional_transient()?;
        Ok(VComponent { name, node1, node2, dc, ac, transient })
    }
}

impl TryParse<VComponent> for SpiceLineParser<'_> {
    open spec fn rule(ts: Seq<AtomView>, pos: nat) -> Outcome<VComponentView> {
        v_component_at(ts, pos)
    }

    fn try_parse(&mut self) -> (r: ParseResult<VComponent>) {
        self.parse_v_component()
    }
}

impl ExposeNodes for VComponent {
    open spec fn exposed(&self) -> Seq<Node> {
        seq![self.node1, self.node2]
    }

    fn nodes(&self) -> (ret: Vec<Node>) {
        let mut ret: Vec<Node> = Vec::new();
        ret.push(self.node1.clone());
        ret.push(self.node2.clone());
        ret
    }
}

/// A [`VComponent`] that the end of the line may have cut short: each field is
/// there if the line reached it, and `position` counts the fields that
/// were tried.
#[derive(Debug, Clone)]
pub struct VComponentPartial {
    pub position: u32,
    pub name: Option<Name>,
    pub node1: Option<Node>,
    pub node2: Option<Node>,
    pub dc: Option<Option<DcSource>>,
    pub ac: Option<Option<AcSource>>,
    pub transient: Option<Option<Transient>>,
}

/// Mathematical content of a [`VComponentPartial`].
pub struct VComponentPartialView {
    pub position: u32,
    pub name: Option<AtomView>,
    pub node1: Option<AtomView>,
    pub node2: Option<AtomView>,
    pub dc: Option<Option<DcSourceView>>,
    pub ac: Option<Option<AcSourceView>>,
    pub transient: Option<Option<TransientView>>,
}

impl DeepView for VComponentPartial {
    type V = VComponentPartialView;

    open spec fn deep_view(&self) -> VComponentPartialView {
        VComponentPartialView {
            position: self.position,
            name: self.name.deep_view(),
            node1: self.node1.deep_view(),
            node2: self.node2.deep_view(),
            dc: self.dc.deep_view(),
            ac: self.ac.deep_view(),
            transient: self.transient.deep_view(),
        }
    }
}

impl VComponentPartialView {
    /// Each field that is there follows one that is there.
    pub open spec fn in_order(self) -> bool {
        &&& self.node1 is Some ==> self.name is Some
        &&& self.node2 is Some ==> self.node1 is Some
        &&& self.dc is Some ==> self.node2 is Some
        &&& self.ac is Some ==> self.dc is Some
        &&& self.transient is Some ==> self.ac is Some
    }
}

/// The rule of [`VComponentPartial`]: the fields of [`VComponent`] in order, up to the end of
/// the line.
#[verifier::opaque]
pub open spec fn v_component_partial_at(ts: Seq<AtomView>, pos: nat) -> Outcome<VComponentPartialView> {
    match partial_field(false, 0u32, pos, name_at(ts, pos)) {
        Ok((name, eof1, n1, p1)) => {
            match partial_field(eof1, n1, p1, node_at(ts, p1)) {
                Ok((node1, eof2, n2, p2)) => {
                    match partial_field(eof2, n2, p2, node_at(ts, p2)) {
                        Ok((node2, eof3, n3, p3)) => {
                            match partial_field(eof3, n3, p3, optional_dc_source_at(ts, p3)) {
                                Ok((dc, eof4, n4, p4)) => {
                                    match partial_field(eof4, n4, p4, optional_ac_source_at(ts, p4)) {
                                        Ok((ac, eof5, n5, p5)) => {
                                            match partial_field(eof5, n5, p5, optional_transient_at(ts, p5)) {
                                                Ok((transient, eof6, n6, p6)) => {
                                                    (Ok(VComponentPartialView { position: n6, name, node1, node2, dc, ac, transient }), p6)
                                                },
                                                Err((e, p6)) => (Err(e), p6),
                                            }
                                        },
                                        Err((e, p5)) => (Err(e), p5),
                                    }
                                },
                                Err((e, p4)) => (Err(e), p4),
                            }
                        },
                        Err((e, p3)) => (Err(e), p3),
                    }
                },
                Err((e, p2)) => (Err(e), p2),
            }
        },
        Err((e, p1)) => (Err(e), p1),
    }
}

impl<'a> SpiceLineParser<'a> {
    /// Parses a [`VComponent`] as far as the line goes.
    pub fn parse_v_component_partial(&mut self) -> (r: ParseResult<VComponentPartial>)
        ensures
            parsed(*old(self), *final(self), r, v_component_partial_at(old(self).tokens(), old(self).cursor())),
            r matches Ok(v) ==> v.deep_view().in_order(),
    {
        reveal(v_component_partial_at);
        let mut is_eof = false;
        let mut position: u32 = 0;
        let name = if !is_eof {
            position += 1;
            partial_of(self.parse_name(), &mut is_eof)?
        } else {
            None
        };
        let node1 = if !is_eof {
            position += 1;
            partial_of(self.parse_node(), &mut is_eof)?
        } else {
            None
        };
        let node2 = if !is_eof {
            position += 1;
            partial_of(self.parse_node(), &mut is_eof)?
        } else {
            None
        };
        let dc = if !is_eof {
            position += 1;
            partial_of(self.parse_optional_dc_source(), &mut is_eof)?
        } else {
            None
        };
        let ac = if !is_eof {
            position += 1;
            partial_of(self.parse_optional_ac_source(), &mut is_eof)?
        } else {
            None
        };
        let transient = if !is_eof {
            position += 1;
            partial_of(self.parse_optional_transient(), &mut is_eof)?
        } else {
            None
        };
        Ok(VComponentPartial { position, name, node1, node2, dc, ac, transient })
    }
}

impl PartialParse<VComponentPartial> for SpiceLineParser<'_> {
    open spec fn partial_rule(ts: Seq<AtomView>, pos: nat) -> Outcome<VComponentPartialView> {
        v_component_partial_at(ts, pos)
    }

    fn try_partial(&mut self) -> (r: ParseResult<VComponentPartial>) {
        self.parse_v_component_partial()
    }

    fn info(&mut self) -> (r: ParseResult<(VComponentPartial, Vec<Element>)>) {
        let v = self.parse_v_component_partial()?;
        Ok((v, Vec::new()))
    }
}

/// A field of a [`VComponentPartial`] is there only if every field before it is.
pub proof fn lemma_v_component_partial_in_order(ts: Seq<AtomView>, pos: nat)
    ensures
        v_component_partial_at(ts, pos).0 matches Ok(v) ==> v.in_order(),
{
    reveal(v_component_partial_at);
}

/// A switch controlled by a current:
/// `W<name> <(+) switch node> <(-) switch node> <controlling V device name> <model name>`
#[derive(Debug, Clone, PartialEq)]
pub struct WComponent {
    pub name: Name,
    pub snode1: Node,
    pub snode2: Node,
    pub vdevice: Name,
    pub model: Name,
}

/// Mathematical content of a [`WComponent`].
pub struct WComponentView {
    pub name: AtomView,
    pub snode1: AtomView,
    pub snode2: AtomView,
    pub vdevice: AtomView,
    pub model: AtomView,
}

impl DeepView for WComponent {
    type V = WComponentView;

    open spec fn deep_view(&self) -> WComponentView {
        WComponentView {
            name: self.name.deep_view(),
            snode1: self.snode1.deep_view(),
            snode2: self.snode2.deep_view(),
            vdevice: self.vdevice.deep_view(),
            model: self.model.deep_view(),
        }
    }
}

/// The rule of [`WComponent`].
#[verifier::opaque]
pub open spec fn w_component_at(ts: Seq<AtomView>, pos: nat) -> Outcome<WComponentView> {
    match name_at(ts, pos) {
        (Ok(name), p1) => {
            match node_at(ts, p1) {
                (Ok(snode1), p2) => {
                    match node_at(ts, p2) {
                        (Ok(snode2), p3) => {
                            match name_at(ts, p3) {
                                (Ok(vdevice), p4) => {
                                    match name_at(ts, p4) {
                                        (Ok(model), p5) => {
                                            (Ok(WComponentView { name, snode1, snode2, vdevice, model }), p5)
                                        },
                                        (Err(e), p5) => (Err(e), p5),
                                    }
                                },
                                (Err(e), p4) => (Err(e), p4),
                            }
                        },
                        (Err(e), p3) => (Err(e), p3),
                    }
                },
                (Err(e), p2) => (Err(e), p2),
            }
        },
        (Err(e), p1) => (Err(e), p1),
    }
}

impl<'a> SpiceLineParser<'a> {
    /// Parses a [`WComponent`].
    pub fn parse_w_component(&mut self) -> (r: ParseResult<WComponent>)
        ensures
            parsed(*old(self), *final(self), r, w_component_at(old(self).tokens(), old(self).cursor())),
            r is Ok ==> old(self).position < final(self).position <= old(self).vec.len(),
    {
        reveal(w_component_at);
        let name = self.parse_name()?;
        let snode1 = self.parse_node()?;
        let snode2 = self.parse_node()?;
        let vdevice = self.parse_name()?;
        let model = self.parse_name()?;
        Ok(WComponent { name, snode1, snode2, vdevice, model })
    }
}

impl TryParse<WComponent> for SpiceLineParser<'_> {
    open spec fn rule(ts: Seq<AtomView>, pos: nat) -> Outcome<WComponentView> {
        w_component_at(ts, pos)
    }

    fn try_parse(&mut self) -> (r: ParseResult<WComponent>) {
        self.parse_w_component()
    }
}

impl ExposeNodes for WComponent {
    open spec fn exposed(&self) -> Seq<Node> {
        seq![self.snode1, self.snode2]
    }

    fn nodes(&self) -> (ret: Vec<Node>) {
        let mut ret: Vec<Node> = Vec::new();
        ret.push(self.snode1.clone());
        ret.push(self.snode2.clone());
        ret
    }
}

/// A [`WComponent`] that the end of the line may have cut short: each field is
/// there if the line reached it, and `position` counts the fields that
/// were tried.
#[derive(Debug, Clone)]
pub struct WComponentPartial {
    pub position: u32,
    pub name: Option<Name>,
    pub snode1: Option<Node>,
    pub snode2: Option<Node>,
    pub vdevice: Option<Name>,
    pub model: Option<Name>,
}

/// Mathematical content of a [`WComponentPartial`].
pub struct WComponentPartialView {
    pub position: u32,
    pub name: Option<AtomView>,
    pub snode1: Option<AtomView>,
    pub snode2: Option<AtomView>,
    pub vdevice: Option<AtomView>,
    pub model: Option<AtomView>,
}

impl DeepView for WComponentPartial {
    type V = WComponentPartialView;

    open spec fn deep_view(&self) -> WComponentPartialView {
        WComponentPartialView {
            position: self.position,
            name: self.name.deep_view(),
            snode1: self.snode1.deep_view(),
            snode2: self.snode2.deep_view(),
            vdevice: self.vdevice.deep_view(),
            model: self.model.deep_view(),
        }
    }
}

impl WComponentPartialView {
    /// Each field that is there follows one that is there.
    pub open spec fn in_order(self) -> bool {
        &&& self.snode1 is Some ==> self.name is Some
        &&& self.snode2 is Some ==> self.snode1 is Some
        &&& self.vdevice is Some ==> self.snode2 is Some
        &&& self.model is Some ==> self.vdevice is Some
    }
}

/// The rule of [`WComponentPartial`]: the fields of [`WComponent`] in order, up to the end of
/// the line.
#[verifier::opaque]
pub open spec fn w_component_partial_at(ts: Seq<AtomView>, pos: nat) -> Outcome<WComponentPartialView> {
    match partial_field(false, 0u32, pos, name_at(ts, pos)) {
        Ok((name, eof1, n1, p1)) => {
            match partial_field(eof1, n1, p1, node_at(ts, p1)) {
                Ok((snode1, eof2, n2, p2)) => {
                    match partial_field(eof2, n2, p2, node_at(ts, p2)) {
                        Ok((snode2, eof3, n3, p3)) => {
                            match partial_field(eof3, n3, p3, name_at(ts, p3)) {
                                Ok((vdevice, eof4, n4, p4)) => {
                                    match partial_field(eof4, n4, p4, name_at(ts, p4)) {
                                        Ok((model, eof5, n5, p5)) => {
                                            (Ok(WComponentPartialView { position: n5, name, snode1, snode2, vdevice, model }), p5)
                                        },
                                        Err((e, p5)) => (Err(e), p5),
                                    }
                                },
                                Err((e, p4)) => (Err(e), p4),
                            }
                        },
                        Err((e, p3)) => (Err(e), p3),
                    }
                },
                Err((e, p2)) => (Err(e), p2),
            }
        },
        Err((e, p1)) => (Err(e), p1),
    }
}

impl<'a> SpiceLineParser<'a> {
    /// Parses a [`WComponent`] as far as the line goes.
    pub fn parse_w_component_partial(&mut self) -> (r: ParseResult<WComponentPartial>)
        ensures
            parsed(*old(self), *final(self), r, w_component_partial_at(old(self).tokens(), old(self).cursor())),
            r matches Ok(v) ==> v.deep_view().in_order(),
    {
        reveal(w_component_partial_at);
        let mut is_eof = false;
        let mut position: u32 = 0;
        let name = if !is_eof {
            position += 1;
            partial_of(self.parse_name(), &mut is_eof)?
        } else {
            None
        };
        let snode1 = if !is_eof {
            position += 1;
            partial_of(self.parse_node(), &mut is_eof)?
        } else {
            None
        };
        let snode2 = if !is_eof {
            position += 1;
            partial_of(self.parse_node(), &mut is_eof)?
        } else {
            None
        };
        let vdevice = if !is_eof {
            position += 1;
            partial_of(self.parse_name(), &mut is_eof)?
        } else {
            None
        };
        let model = if !is_eof {
            position += 1;
            partial_of(self.parse_name(), &mut is_eof)?
        } else {
            None
        };
        Ok(WComponentPartial { position, name, snode1, snode2, vdevice, model })
    }
}

impl PartialParse<WComponentPartial> for SpiceLineParser<'_> {
    open spec fn partial_rule(ts: Seq<AtomView>, pos: nat) -> Outcome<WComponentPartialView> {
        w_component_partial_at(ts, pos)
    }

    fn try_partial(&mut self) -> (r: ParseResult<WComponentPartial>) {
        self.parse_w_component_partial()
    }

    fn info(&mut self) -> (r: ParseResult<(WComponentPartial, Vec<Element>)>) {
        let v = self.parse_w_component_partial()?;
        Ok((v, Vec::new()))
    }
}

/// A field of a [`WComponentPartial`] is there only if every field before it is.
pub proof fn lemma_w_component_partial_in_order(ts: Seq<AtomView>, pos: nat)
    ensures
        w_component_partial_at(ts, pos).0 matches Ok(v) ==> v.in_order(),
{
    reveal(w_component_partial_at);
}

/// The pins of a call: nodes for as long as a token follows the next one and that token is neither `PARAM` nor `TEXT`.
pub open spec fn call_pins_from(ts: Seq<AtomView>, pos: nat, acc: Seq<AtomView>) -> Outcome<Seq<AtomView>>
    decreases tokens_left(ts, pos),
{
    if pos + 1 >= ts.len() || matches_at(ts, pos + 1, "PARAM"@) || matches_at(ts, pos + 1, "TEXT"@) {
        (Ok(acc), pos)
    } else {
        match node_at(ts, pos) {
            (Ok(v), p) => if pos < p {
                call_pins_from(ts, p, acc.push(v))
            } else {
                (Ok(acc), pos)
            },
            (Err(e), p) => (Err(e), p),
        }
    }
}

/// The pins of a call: nodes for as long as a token follows the next one and that token is neither `PARAM` nor `TEXT`.
#[verifier::opaque]
pub open spec fn call_pins_at(ts: Seq<AtomView>, pos: nat) -> Outcome<Seq<AtomView>> {
    call_pins_from(ts, pos, Seq::empty())
}

impl<'a> SpiceLineParser<'a> {
    /// The pins of a call: nodes for as long as a token follows the next one and that token is neither `PARAM` nor `TEXT`.
    pub fn parse_call_pins(&mut self) -> (r: ParseResult<Vec<Node>>)
        ensures
            parsed(*old(self), *final(self), r, call_pins_at(old(self).tokens(), old(self).cursor())),
            r is Ok && old(self).position <= old(self).vec.len() ==> final(self).position <= old(self).vec.len(),
    {
        reveal(call_pins_at);
        let ghost goal = call_pins_at(self.tokens(), self.cursor());
        let mut values: Vec<Node> = Vec::new();
        assert(values.deep_view() =~= Seq::empty());
        loop
            invariant
                self.vec == old(self).vec,
                old(self).position <= self.position,
                old(self).position <= old(self).vec.len() ==> self.position <= self.vec.len(),
                goal == call_pins_at(old(self).tokens(), old(self).cursor()),
                goal == call_pins_from(self.tokens(), self.cursor(), values.deep_view()),
            decreases self.remaining(),
        {
            reveal(call_pins_at);
            if self.next_eof() || self.next_matches("PARAM") || self.next_matches("TEXT") {
                return Ok(values);
            }
            let ghost before = values.deep_view();
            let value = self.parse_node()?;
            values.push(value);
            assert(values.deep_view() =~= before.push(value.deep_view()));
        }
    }
}

/// Parameters up to `TEXT` or the end of the line.
pub open spec fn params_before_text_from(ts: Seq<AtomView>, pos: nat, acc: Seq<ParamView<NumberView>>) -> Outcome<Seq<ParamView<NumberView>>>
    decreases tokens_left(ts, pos),
{
    if pos >= ts.len() || matches_at(ts, pos, "TEXT"@) {
        (Ok(acc), pos)
    } else {
        match param_number_at(ts, pos) {
            (Ok(v), p) => if pos < p {
                params_before_text_from(ts, p, acc.push(v))
            } else {
                (Ok(acc), pos)
            },
            (Err(e), p) => (Err(e), p),
        }
    }
}

/// Parameters up to `TEXT` or the end of the line.
#[verifier::opaque]
pub open spec fn params_before_text_at(ts: Seq<AtomView>, pos: nat) -> Outcome<Seq<ParamView<NumberView>>> {
    params_before_text_from(ts, pos, Seq::empty())
}

impl<'a> SpiceLineParser<'a> {
    /// Parameters up to `TEXT` or the end of the line.
    pub fn parse_params_before_text(&mut self) -> (r: ParseResult<Vec<Param<Number>>>)
        ensures
            parsed(*old(self), *final(self), r, params_before_text_at(old(self).tokens(), old(self).cursor())),
            r is Ok && old(self).position <= old(self).vec.len() ==> final(self).position <= old(self).vec.len(),
    {
        reveal(params_before_text_at);
        let ghost goal = params_before_text_at(self.tokens(), self.cursor());
        let mut values: Vec<Param<Number>> = Vec::new();
        assert(values.deep_view() =~= Seq::empty());
        loop
            invariant
                self.vec == old(self).vec,
                old(self).position <= self.position,
                old(self).position <= old(self).vec.len() ==> self.position <= self.vec.len(),
                goal == params_before_text_at(old(self).tokens(), old(self).cursor()),
                goal == params_before_text_from(self.tokens(), self.cursor(), values.deep_view()),
            decreases self.remaining(),
        {
            reveal(params_before_text_at);
            if self.is_eof() || self.matches("TEXT") {
                return Ok(values);
            }
            let ghost before = values.deep_view();
            let value = self.parse_param_number()?;
            values.push(value);
            assert(values.deep_view() =~= before.push(value.deep_view()));
        }
    }
}

/// Text parameters up to the end of the line.
pub open spec fn texts_to_end_from(ts: Seq<AtomView>, pos: nat, acc: Seq<ParamView<AtomView>>) -> Outcome<Seq<ParamView<AtomView>>>
    decreases tokens_left(ts, pos),
{
    if pos >= ts.len() {
        (Ok(acc), pos)
    } else {
        match param_text_at(ts, pos) {
            (Ok(v), p) => if pos < p {
                texts_to_end_from(ts, p, acc.push(v))
            } else {
                (Ok(acc), pos)
            },
            (Err(e), p) => (Err(e), p),
        }
    }
}

/// Text parameters up to the end of the line.
#[verifier::opaque]
pub open spec fn texts_to_end_at(ts: Seq<AtomView>, pos: nat) -> Outcome<Seq<ParamView<AtomView>>> {
    texts_to_end_from(ts, pos, Seq::empty())
}

impl<'a> SpiceLineParser<'a> {
    /// Text parameters up to the end of the line.
    pub fn parse_texts_to_end(&mut self) -> (r: ParseResult<Vec<Param<Text>>>)
        ensures
            parsed(*old(self), *final(self), r, texts_to_end_at(old(self).tokens(), old(self).cursor())),
            r is Ok && old(self).position <= old(self).vec.len() ==> final(self).position <= old(self).vec.len(),
    {
        reveal(texts_to_end_at);
        let ghost goal = texts_to_end_at(self.tokens(), self.cursor());
        let mut values: Vec<Param<Text>> = Vec::new();
        assert(values.deep_view() =~= Seq::empty());
        loop
            invariant
                self.vec == old(self).vec,
                old(self).position <= self.position,
                old(self).position <= old(self).vec.len() ==> self.position <= self.vec.len(),
                goal == texts_to_end_at(old(self).tokens(), old(self).cursor()),
                goal == texts_to_end_from(self.tokens(), self.cursor(), values.deep_view()),
            decreases self.remaining(),
        {
            reveal(texts_to_end_at);
            if self.is_eof() {
                return Ok(values);
            }
            let ghost before = values.deep_view();
            let value = self.parse_param_text()?;
            values.push(value);
            assert(values.deep_view() =~= before.push(value.deep_view()));
        }
    }
}

/// A call of a subcircuit:
/// `X<name> [node]* <subcircuit name> [PARAM: <<name> = <value>>*] [TEXT: < <name> = <text value> >* ]`
#[derive(Debug, Clone, PartialEq)]
pub struct XComponent {
    pub name: Name,
    pub pins: Vec<Node>,
    pub sname: Name,
    pub params: Vec<Param<Number>>,
    pub texts: Vec<Param<Text>>,
}

/// Mathematical content of an [`XComponent`].
pub struct XComponentView {
    pub name: AtomView,
    pub pins: Seq<AtomView>,
    pub sname: AtomView,
    pub params: Seq<ParamView<NumberView>>,
    pub texts: Seq<ParamView<AtomView>>,
}

impl DeepView for XComponent {
    type V = XComponentView;

    open spec fn deep_view(&self) -> XComponentView {
        XComponentView {
            name: self.name.deep_view(),
            pins: self.pins.deep_view(),
            sname: self.sname.deep_view(),
            params: self.params.deep_view(),
            texts: self.texts.deep_view(),
        }
    }
}

/// The parameters after `PARAM :`, if `PARAM` stands at `pos`; none
/// otherwise.
#[verifier::opaque]
pub open spec fn param_section_at(ts: Seq<AtomView>, pos: nat) -> Outcome<Seq<ParamView<NumberView>>> {
    if matches_at(ts, pos, "PARAM"@) {
        match expect_at(ts, pos + 1, ":"@) {
            (Ok(_), p) => params_before_text_at(ts, p),
            (Err(e), p) => (Err(e), p),
        }
    } else {
        (Ok(Seq::empty()), pos)
    }
}

/// The text parameters after `TEXT :`, if `TEXT` stands at `pos`; none
/// otherwise.
#[verifier::opaque]
pub open spec fn text_section_at(ts: Seq<AtomView>, pos: nat) -> Outcome<Seq<ParamView<AtomView>>> {
    if matches_at(ts, pos, "TEXT"@) {
        match expect_at(ts, pos + 1, ":"@) {
            (Ok(_), p) => texts_to_end_at(ts, p),
            (Err(e), p) => (Err(e), p),
        }
    } else {
        (Ok(Seq::empty()), pos)
    }
}

/// The rule of [`XComponent`].
#[verifier::opaque]
pub open spec fn x_component_at(ts: Seq<AtomView>, pos: nat) -> Outcome<XComponentView> {
    match name_at(ts, pos) {
        (Ok(name), p1) => match call_pins_at(ts, p1) {
            (Ok(pins), p2) => match name_at(ts, p2) {
                (Ok(sname), p3) => match param_section_at(ts, p3) {
                    (Ok(params), p4) => match text_section_at(ts, p4) {
                        (Ok(texts), p5) => (
                            Ok(XComponentView { name, pins, sname, params, texts }),
                            p5,
                        ),
                        (Err(e), p5) => (Err(e), p5),
                    },
                    (Err(e), p4) => (Err(e), p4),
                },
                (Err(e), p3) => (Err(e), p3),
            },
            (Err(e), p2) => (Err(e), p2),
        },
        (Err(e), p1) => (Err(e), p1),
    }
}

impl<'a> SpiceLineParser<'a> {
    /// Parses the parameters that `PARAM :` introduces, if it is there.
    pub fn parse_param_section(&mut self) -> (r: ParseResult<Vec<Param<Number>>>)
        ensures
            parsed(*old(self), *final(self), r, param_section_at(old(self).tokens(), old(self).cursor())),
            r is Ok && old(self).position <= old(self).vec.len() ==> final(self).position <= old(self).vec.len(),
    {
        reveal(param_section_at);
        if self.matches_consume("PARAM") {
            self.expect(":")?;
            self.parse_params_before_text()
        } else {
            let none: Vec<Param<Number>> = Vec::new();
            assert(none.deep_view() =~= Seq::empty());
            Ok(none)
        }
    }

    /// Parses the text parameters that `TEXT :` introduces, if it is there.
    pub fn parse_text_section(&mut self) -> (r: ParseResult<Vec<Param<Text>>>)
        ensures
            parsed(*old(self), *final(self), r, text_section_at(old(self).tokens(), old(self).cursor())),
            r is Ok && old(self).position <= old(self).vec.len() ==> final(self).position <= old(self).vec.len(),
    {
        reveal(text_section_at);
        if self.matches_consume("TEXT") {
            self.expect(":")?;
            self.parse_texts_to_end()
        } else {
            let none: Vec<Param<Text>> = Vec::new();
            assert(none.deep_view() =~= Seq::empty());
            Ok(none)
        }
    }

    /// Parses an [`XComponent`].
    pub fn parse_x_component(&mut self) -> (r: ParseResult<XComponent>)
        ensures
            parsed(*old(self), *final(self), r, x_component_at(old(self).tokens(), old(self).cursor())),
            r is Ok ==> old(self).position < final(self).position <= old(self).vec.len(),
    {
        reveal(x_component_at);
        let name = self.parse_name()?;
        let pins = self.parse_call_pins()?;
        let sname = self.parse_name()?;
        let params = self.parse_param_section()?;
        let texts = self.parse_text_section()?;
        Ok(XComponent { name, pins, sname, params, texts })
    }
}

impl ExposeNodes for XComponent {
    open spec fn exposed(&self) -> Seq<Node> {
        Seq::empty()
    }

    fn nodes(&self) -> (ret: Vec<Node>) {
        Vec::new()
    }
}

impl TryParse<XComponent> for SpiceLineParser<'_> {
    open spec fn rule(ts: Seq<AtomView>, pos: nat) -> Outcome<XComponentView> {
        x_component_at(ts, pos)
    }

    fn try_parse(&mut self) -> (r: ParseResult<XComponent>) {
        self.parse_x_component()
    }
}

/// The parameters of an IGBT.
#[derive(Debug, Clone, PartialEq)]
pub struct ZComponentParams {
    pub area: Option<Number>,
    pub wb: Option<Number>,
    pub agd: Option<Number>,
    pub kp: Option<Number>,
    pub tau: Option<Number>,
}

/// Mathematical content of a [`ZComponentParams`].
pub struct ZComponentParamsView {
    pub area: Option<NumberView>,
    pub wb: Option<NumberView>,
    pub agd: Option<NumberView>,
    pub kp: Option<NumberView>,
    pub tau: Option<NumberView>,
}

impl DeepView for ZComponentParams {
    type V = ZComponentParamsView;

    open spec fn deep_view(&self) -> ZComponentParamsView {
        ZComponentParamsView {
            area: self.area.deep_view(),
            wb: self.wb.deep_view(),
            agd: self.agd.deep_view(),
            kp: self.kp.deep_view(),
            tau: self.tau.deep_view(),
        }
    }
}

impl ZComponentParamsView {
    /// No parameter given.
    pub open spec fn none() -> ZComponentParamsView {
        ZComponentParamsView { area: None, wb: None, agd: None, kp: None, tau: None }
    }
}

/// The parameters from `pos` on, added to `acc`: a later value of a
/// parameter replaces an earlier one, and the first token that names no
/// parameter ends the record.
pub open spec fn z_component_params_from(ts: Seq<AtomView>, pos: nat, acc: ZComponentParamsView) -> Outcome<ZComponentParamsView>
    decreases tokens_left(ts, pos),
{
    if pos >= ts.len() {
        (Ok(acc), pos)
    } else if matches_at(ts, pos, "AREA"@) {
        match expect_at(ts, pos + 1, "="@) {
            (Ok(_), p) => match forward(pos + 2, number_at(ts, p)) {
                (Ok(v), end) => z_component_params_from(ts, end, ZComponentParamsView { area: Some(v), ..acc }),
                (Err(e), end) => (Err(e), end),
            },
            (Err(e), p) => (Err(e), p),
        }
    } else if matches_at(ts, pos, "WB"@) {
        match expect_at(ts, pos + 1, "="@) {
            (Ok(_), p) => match forward(pos + 2, number_at(ts, p)) {
                (Ok(v), end) => z_component_params_from(ts, end, ZComponentParamsView { wb: Some(v), ..acc }),
                (Err(e), end) => (Err(e), end),
            },
            (Err(e), p) => (Err(e), p),
        }
    } else if matches_at(ts, pos, "AGD"@) {
        match expect_at(ts, pos + 1, "="@) {
            (Ok(_), p) => match forward(pos + 2, number_at(ts, p)) {
                (Ok(v), end) => z_component_params_from(ts, end, ZComponentParamsView { agd: Some(v), ..acc }),
                (Err(e), end) => (Err(e), end),
            },
            (Err(e), p) => (Err(e), p),
        }
    } else if matches_at(ts, pos, "KP"@) {
        match expect_at(ts, pos + 1, "="@) {
            (Ok(_), p) => match forward(pos + 2, number_at(ts, p)) {
                (Ok(v), end) => z_component_params_from(ts, end, ZComponentParamsView { kp: Some(v), ..acc }),
                (Err(e), end) => (Err(e), end),
            },
            (Err(e), p) => (Err(e), p),
        }
    } else if matches_at(ts, pos, "TAU"@) {
        match expect_at(ts, pos + 1, "="@) {
            (Ok(_), p) => match forward(pos + 2, number_at(ts, p)) {
                (Ok(v), end) => z_component_params_from(ts, end, ZComponentParamsView { tau: Some(v), ..acc }),
                (Err(e), end) => (Err(e), end),
            },
            (Err(e), p) => (Err(e), p),
        }
    } else {
        (Ok(acc), pos)
    }
}

/// The rule of [`ZComponentParams`].
#[verifier::opaque]
pub open spec fn z_component_params_at(ts: Seq<AtomView>, pos: nat) -> Outcome<ZComponentParamsView> {
    z_component_params_from(ts, pos, ZComponentParamsView::none())
}

impl<'a> SpiceLineParser<'a> {
    /// Parses a [`ZComponentParams`].
    pub fn parse_z_component_params(&mut self) -> (r: ParseResult<ZComponentParams>)
        ensures
            parsed(*old(self), *final(self), r, z_component_params_at(old(self).tokens(), old(self).cursor())),
            r is Ok && old(self).position <= old(self).vec.len() ==> final(self).position <= old(self).vec.len(),
    {
        reveal(z_component_params_at);
        let ghost goal = z_component_params_at(self.tokens(), self.cursor());
        let mut area: Option<Number> = None;
        let mut wb: Option<Number> = None;
        let mut agd: Option<Number> = None;
        let mut kp: Option<Number> = None;
        let mut tau: Option<Number> = None;
        loop
            invariant
                self.vec == old(self).vec,
                old(self).position <= self.position,
                old(self).position <= old(self).vec.len() ==> self.position <= self.vec.len(),
                goal == z_component_params_at(old(self).tokens(), old(self).cursor()),
                goal == z_component_params_from(self.tokens(), self.cursor(), ZComponentParamsView { area: area.deep_view(), wb: wb.deep_view(), agd: agd.deep_view(), kp: kp.deep_view(), tau: tau.deep_view() }),
            decreases self.remaining(),
        {
            reveal(z_component_params_at);
            if self.matches_consume("AREA") {
                self.expect("=")?;
                area = Some(self.parse_number()?);
            } else if self.matches_consume("WB") {
                self.expect("=")?;
                wb = Some(self.parse_number()?);
            } else if self.matches_consume("AGD") {
                self.expect("=")?;
                agd = Some(self.parse_number()?);
            } else if self.matches_consume("KP") {
                self.expect("=")?;
                kp = Some(self.parse_number()?);
            } else if self.matches_consume("TAU") {
                self.expect("=")?;
                tau = Some(self.parse_number()?);
            } else {
                return Ok(ZComponentParams { area, wb, agd, kp, tau });
            }
        }
    }
}

impl TryParse<ZComponentParams> for SpiceLineParser<'_> {
    open spec fn rule(ts: Seq<AtomView>, pos: nat) -> Outcome<ZComponentParamsView> {
        z_component_params_at(ts, pos)
    }

    fn try_parse(&mut self) -> (r: ParseResult<ZComponentParams>) {
        self.parse_z_component_params()
    }
}

/// An IGBT:
/// `Z<name> <collector> <gate> <emitter> <model name> [<param>=<value>]*`
#[derive(Debug, Clone, PartialEq)]
pub struct ZComponent {
    pub name: Name,
    pub collector: Node,
    pub gate: Node,
    pub emitter: Node,
    pub model: Name,
    pub params: ZComponentParams,
}

/// Mathematical content of a [`ZComponent`].
pub struct ZComponentView {
    pub name: AtomView,
    pub collector: AtomView,
    pub gate: AtomView,
    pub emitter: AtomView,
    pub model: AtomView,
    pub params: ZComponentParamsView,
}

impl DeepView for ZComponent {
    type V = ZComponentView;

    open spec fn deep_view(&self) -> ZComponentView {
        ZComponentView {
            name: self.name.deep_view(),
            collector: self.collector.deep_view(),
            gate: self.gate.deep_view(),
            emitter: self.emitter.deep_view(),
            model: self.model.deep_view(),
            params: self.params.deep_view(),
        }
    }
}

/// The rule of [`ZComponent`].
#[verifier::opaque]
pub open spec fn z_component_at(ts: Seq<AtomView>, pos: nat) -> Outcome<ZComponentView> {
    match name_at(ts, pos) {
        (Ok(name), p1) => {
            match node_at(ts, p1) {
                (Ok(collector), p2) => {
                    match node_at(ts, p2) {
                        (Ok(gate), p3) => {
                            match node_at(ts, p3) {
                                (Ok(emitter), p4) => {
                                    match name_at(ts, p4) {
                                        (Ok(model), p5) => {
                                            match z_component_params_at(ts, p5) {
                                                (Ok(params), p6) => {
                                                    (Ok(ZComponentView { name, collector, gate, emitter, model, params }), p6)
                                                },
                                                (Err(e), p6) => (Err(e), p6),
                                            }
                                        },
                                        (Err(e), p5) => (Err(e), p5),
                                    }
                                },
                                (Err(e), p4) => (Err(e), p4),
                            }
                        },
                        (Err(e), p3) => (Err(e), p3),
                    }
                },
                (Err(e), p2) => (Err(e), p2),
            }
        },
        (Err(e), p1) => (Err(e), p1),
    }
}

impl<'a> SpiceLineParser<'a> {
    /// Parses a [`ZComponent`].
    pub fn parse_z_component(&mut self) -> (r: ParseResult<ZComponent>)
        ensures
            parsed(*old(self), *final(self), r, z_component_at(old(self).tokens(), old(self).cursor())),
            r is Ok ==> old(self).position < final(self).position <= old(self).vec.len(),
    {
        reveal(z_component_at);
        let name = self.parse_name()?;
        let collector = self.parse_node()?;
        let gate = self.parse_node()?;
        let emitter = self.parse_node()?;
        let model = self.parse_name()?;
        let params = self.parse_z_component_params()?;
        Ok(ZComponent { name, collector, gate, emitter, model, params })
    }
}

impl TryParse<ZComponent> for SpiceLineParser<'_> {
    open spec fn rule(ts: Seq<AtomView>, pos: nat) -> Outcome<ZComponentView> {
        z_component_at(ts, pos)
    }

    fn try_parse(&mut self) -> (r: ParseResult<ZComponent>) {
        self.parse_z_component()
    }
}

impl ExposeNodes for ZComponent {
    open spec fn exposed(&self) -> Seq<Node> {
        seq![self.collector, self.gate, self.emitter]
    }

    fn nodes(&self) -> (ret: Vec<Node>) {
        let mut ret: Vec<Node> = Vec::new();
        ret.push(self.collector.clone());
        ret.push(self.gate.clone());
        ret.push(self.emitter.clone());
        ret
    }
}

/// A [`ZComponent`] that the end of the line may have cut short: each field is
/// there if the line reached it, and `position` counts the fields that
/// were tried.
#[derive(Debug, Clone)]
pub struct ZComponentPartial {
    pub position: u32,
    pub name: Option<Name>,
    pub collector: Option<Node>,
    pub gate: Option<Node>,
    pub emitter: Option<Node>,
    pub model: Option<Name>,
    pub params: Option<ZComponentParams>,
}

/// Mathematical content of a [`ZComponentPartial`].
pub struct ZComponentPartialView {
    pub position: u32,
    pub name: Option<AtomView>,
    pub collector: Option<AtomView>,
    pub gate: Option<AtomView>,
    pub emitter: Option<AtomView>,
    pub model: Option<AtomView>,
    pub params: Option<ZComponentParamsView>,
}

impl DeepView for ZComponentPartial {
    type V = ZComponentPartialView;

    open spec fn deep_view(&self) -> ZComponentPartialView {
        ZComponentPartialView {
            position: self.position,
            name: self.name.deep_view(),
            collector: self.collector.deep_view(),
            gate: self.gate.deep_view(),
            emitter: self.emitter.deep_view(),
            model: self.model.deep_view(),
            params: self.params.deep_view(),
        }
    }
}

impl ZComponentPartialView {
    /// Each field that is there follows one that is there.
    pub open spec fn in_order(self) -> bool {
        &&& self.collector is Some ==> self.name is Some
        &&& self.gate is Some ==> self.collector is Some
        &&& self.emitter is Some ==> self.gate is Some
        &&& self.model is Some ==> self.emitter is Some
        &&& self.params is Some ==> self.model is Some
    }
}

/// The rule of [`ZComponentPartial`]: the fields of [`ZComponent`] in order, up to the end of
/// the line.
#[verifier::opaque]
pub open spec fn z_component_partial_at(ts: Seq<AtomView>, pos: nat) -> Outcome<ZComponentPartialView> {
    match partial_field(false, 0u32, pos, name_at(ts, pos)) {
        Ok((name, eof1, n1, p1)) => {
            match partial_field(eof1, n1, p1, node_at(ts, p1)) {
                Ok((collector, eof2, n2, p2)) => {
                    match partial_field(eof2, n2, p2, node_at(ts, p2)) {
                        Ok((gate, eof3, n3, p3)) => {
                            match partial_field(eof3, n3, p3, node_at(ts, p3)) {
                                Ok((emitter, eof4, n4, p4)) => {
                                    match partial_field(eof4, n4, p4, name_at(ts, p4)) {
                                        Ok((model, eof5, n5, p5)) => {
                                            match partial_field(eof5, n5, p5, z_component_params_at(ts, p5)) {
                                                Ok((params, eof6, n6, p6)) => {
                                                    (Ok(ZComponentPartialView { position: n6, name, collector, gate, emitter, model, params }), p6)
                                                },
                                                Err((e, p6)) => (Err(e), p6),
                                            }
                                        },
                                        Err((e, p5)) => (Err(e), p5),
                                    }
                                },
                                Err((e, p4)) => (Err(e), p4),
                            }
                        },
                        Err((e, p3)) => (Err(e), p3),
                    }
                },
                Err((e, p2)) => (Err(e), p2),
            }
        },
        Err((e, p1)) => (Err(e), p1),
    }
}

impl<'a> SpiceLineParser<'a> {
    /// Parses a [`ZComponent`] as far as the line goes.
    pub fn parse_z_component_partial(&mut self) -> (r: ParseResult<ZComponentPartial>)
        ensures
            parsed(*old(self), *final(self), r, z_component_partial_at(old(self).tokens(), old(self).cursor())),
            r matches Ok(v) ==> v.deep_view().in_order(),
    {
        reveal(z_component_partial_at);
        let mut is_eof = false;
        let mut position: u32 = 0;
        let name = if !is_eof {
            position += 1;
            partial_of(self.parse_name(), &mut is_eof)?
        } else {
            None
        };
        let collector = if !is_eof {
            position += 1;
            partial_of(self.parse_node(), &mut is_eof)?
        } else {
            None
        };
        let gate = if !is_eof {
            position += 1;
            partial_of(self.parse_node(), &mut is_eof)?
        } else {
            None
        };
        let emitter = if !is_eof {
            position += 1;
            partial_of(self.parse_node(), &mut is_eof)?
        } else {
            None
        };
        let model = if !is_eof {
            position += 1;
            partial_of(self.parse_name(), &mut is_eof)?
        } else {
            None
        };
        let params = if !is_eof {
            position += 1;
            partial_of(self.parse_z_component_params(), &mut is_eof)?
        } else {
            None
        };
        Ok(ZComponentPartial { position, name, collector, gate, emitter, model, params })
    }
}

impl PartialParse<ZComponentPartial> for SpiceLineParser<'_> {
    open spec fn partial_rule(ts: Seq<AtomView>, pos: nat) -> Outcome<ZComponentPartialView> {
        z_component_partial_at(ts, pos)
    }

    fn try_partial(&mut self) -> (r: ParseResult<ZComponentPartial>) {
        self.parse_z_component_partial()
    }

    fn info(&mut self) -> (r: ParseResult<(ZComponentPartial, Vec<Element>)>) {
        let v = self.parse_z_component_partial()?;
        Ok((v, Vec::new()))
    }
}

/// A field of a [`ZComponentPartial`] is there only if every field before it is.
pub proof fn lemma_z_component_partial_in_order(ts: Seq<AtomView>, pos: nat)
    ensures
        z_component_partial_at(ts, pos).0 matches Ok(v) ==> v.in_order(),
{
    reveal(z_component_partial_at);
}

/// A component: one device of the circuit. The first letter of its name
/// tells its kind.
#[derive(Debug, Clone, PartialEq)]
pub enum Component {
    B(BComponent),
    C(CComponent),
    D(DComponent),
    E(EComponent),
    F(FComponent),
    G(GComponent),
    H(HComponent),
    I(IComponent),
    J(JComponent),
    K(KComponent),
    L(LComponent),
    M(MComponent),
    Q(QComponent),
    R(RComponent),
    S(SComponent),
    T(TComponent),
    V(VComponent),
    W(WComponent),
    X(XComponent),
    Z(ZComponent),
}

/// Mathematical content of a [`Component`].
pub enum ComponentView {
    B(BComponentView),
    C(CComponentView),
    D(DComponentView),
    E(EComponentView),
    F(FComponentView),
    G(GComponentView),
    H(HComponentView),
    I(IComponentView),
    J(JComponentView),
    K(KComponentView),
    L(LComponentView),
    M(MComponentView),
    Q(QComponentView),
    R(RComponentView),
    S(SComponentView),
    T(TComponentView),
    V(VComponentView),
    W(WComponentView),
    X(XComponentView),
    Z(ZComponentView),
}

impl DeepView for Component {
    type V = ComponentView;

    open spec fn deep_view(&self) -> ComponentView {
        match self {
            Component::B(c) => ComponentView::B(c.deep_view()),
            Component::C(c) => ComponentView::C(c.deep_view()),
            Component::D(c) => ComponentView::D(c.deep_view()),
            Component::E(c) => ComponentView::E(c.deep_view()),
            Component::F(c) => ComponentView::F(c.deep_view()),
            Component::G(c) => ComponentView::G(c.deep_view()),
            Component::H(c) => ComponentView::H(c.deep_view()),
            Component::I(c) => ComponentView::I(c.deep_view()),
            Component::J(c) => ComponentView::J(c.deep_view()),
            Component::K(c) => ComponentView::K(c.deep_view()),
            Component::L(c) => ComponentView::L(c.deep_view()),
            Component::M(c) => ComponentView::M(c.deep_view()),
            Component::Q(c) => ComponentView::Q(c.deep_view()),
            Component::R(c) => ComponentView::R(c.deep_view()),
            Component::S(c) => ComponentView::S(c.deep_view()),
            Component::T(c) => ComponentView::T(c.deep_view()),
            Component::V(c) => ComponentView::V(c.deep_view()),
            Component::W(c) => ComponentView::W(c.deep_view()),
            Component::X(c) => ComponentView::X(c.deep_view()),
            Component::Z(c) => ComponentView::Z(c.deep_view()),
        }
    }
}

impl Component {
    /// The name of the component.
    pub open spec fn name_view(self) -> AtomView {
        match self {
            Component::B(c) => c.name.deep_view(),
            Component::C(c) => c.name.deep_view(),
            Component::D(c) => c.name.deep_view(),
            Component::E(c) => c.name.deep_view(),
            Component::F(c) => c.name.deep_view(),
            Component::G(c) => c.name.deep_view(),
            Component::H(c) => c.name.deep_view(),
            Component::I(c) => c.name.deep_view(),
            Component::J(c) => c.name.deep_view(),
            Component::K(c) => c.name.deep_view(),
            Component::L(c) => c.name.deep_view(),
            Component::M(c) => c.name.deep_view(),
            Component::Q(c) => c.name.deep_view(),
            Component::R(c) => c.name.deep_view(),
            Component::S(c) => c.name.deep_view(),
            Component::T(c) => c.name.deep_view(),
            Component::V(c) => c.name.deep_view(),
            Component::W(c) => c.name.deep_view(),
            Component::X(c) => c.name.deep_view(),
            Component::Z(c) => c.name.deep_view(),
        }
    }

    /// The name of the component.
    pub fn name(&self) -> (r: &Name)
        ensures
            r.deep_view() == self.name_view(),
    {
        match self {
            Component::B(c) => &c.name,
            Component::C(c) => &c.name,
            Component::D(c) => &c.name,
            Component::E(c) => &c.name,
            Component::F(c) => &c.name,
            Component::G(c) => &c.name,
            Component::H(c) => &c.name,
            Component::I(c) => &c.name,
            Component::J(c) => &c.name,
            Component::K(c) => &c.name,
            Component::L(c) => &c.name,
            Component::M(c) => &c.name,
            Component::Q(c) => &c.name,
            Component::R(c) => &c.name,
            Component::S(c) => &c.name,
            Component::T(c) => &c.name,
            Component::V(c) => &c.name,
            Component::W(c) => &c.name,
            Component::X(c) => &c.name,
            Component::Z(c) => &c.name,
        }
    }
}

impl ExposeNodes for Component {
    open spec fn exposed(&self) -> Seq<Node> {
        match self {
            Component::B(c) => c.exposed(),
            Component::C(c) => c.exposed(),
            Component::D(c) => c.exposed(),
            Component::E(c) => c.exposed(),
            Component::F(c) => c.exposed(),
            Component::G(c) => c.exposed(),
            Component::H(c) => c.exposed(),
            Component::I(c) => c.exposed(),
            Component::J(c) => c.exposed(),
            Component::K(c) => c.exposed(),
            Component::L(c) => c.exposed(),
            Component::M(c) => c.exposed(),
            Component::Q(c) => c.exposed(),
            Component::R(c) => c.exposed(),
            Component::S(c) => c.exposed(),
            Component::T(c) => c.exposed(),
            Component::V(c) => c.exposed(),
            Component::W(c) => c.exposed(),
            Component::X(c) => c.exposed(),
            Component::Z(c) => c.exposed(),
        }
    }

    fn nodes(&self) -> (ret: Vec<Node>) {
        match self {
            Component::B(c) => c.nodes(),
            Component::C(c) => c.nodes(),
            Component::D(c) => c.nodes(),
            Component::E(c) => c.nodes(),
            Component::F(c) => c.nodes(),
            Component::G(c) => c.nodes(),
            Component::H(c) => c.nodes(),
            Component::I(c) => c.nodes(),
            Component::J(c) => c.nodes(),
            Component::K(c) => c.nodes(),
            Component::L(c) => c.nodes(),
            Component::M(c) => c.nodes(),
            Component::Q(c) => c.nodes(),
            Component::R(c) => c.nodes(),
            Component::S(c) => c.nodes(),
            Component::T(c) => c.nodes(),
            Component::V(c) => c.nodes(),
            Component::W(c) => c.nodes(),
            Component::X(c) => c.nodes(),
            Component::Z(c) => c.nodes(),
        }
    }
}

/// The rejection of a token that begins no component.
pub open spec fn not_a_component(t: AtomView) -> ParseErrorView {
    quoting_error("Expect `"@, t.raw, "' to be a Component name"@, Some(t.place()))
}

/// The rule of [`Component`]: the first letter of the first token, in
/// upper case, decides the kind.
#[verifier::opaque]
pub open spec fn component_at(ts: Seq<AtomView>, pos: nat) -> Outcome<ComponentView> {
    if pos >= ts.len() {
        (Err(eof_error()), pos)
    } else if initial_of(ts[pos as int].raw) == Some('B') {
        match b_component_at(ts, pos) {
            (Ok(c), p) => (Ok(ComponentView::B(c)), p),
            (Err(e), p) => (Err(e), p),
        }
    } else if initial_of(ts[pos as int].raw) == Some('C') {
        match c_component_at(ts, pos) {
            (Ok(c), p) => (Ok(ComponentView::C(c)), p),
            (Err(e), p) => (Err(e), p),
        }
    } else if initial_of(ts[pos as int].raw) == Some('D') {
        match d_component_at(ts, pos) {
            (Ok(c), p) => (Ok(ComponentView::D(c)), p),
            (Err(e), p) => (Err(e), p),
        }
    } else if initial_of(ts[pos as int].raw) == Some('E') {
        match e_component_at(ts, pos) {
            (Ok(c), p) => (Ok(ComponentView::E(c)), p),
            (Err(e), p) => (Err(e), p),
        }
    } else if initial_of(ts[pos as int].raw) == Some('F') {
        match f_component_at(ts, pos) {
            (Ok(c), p) => (Ok(ComponentView::F(c)), p),
            (Err(e), p) => (Err(e), p),
        }
    } else if initial_of(ts[pos as int].raw) == Some('G') {
        match g_component_at(ts, pos) {
            (Ok(c), p) => (Ok(ComponentView::G(c)), p),
            (Err(e), p) => (Err(e), p),
        }
    } else if initial_of(ts[pos as int].raw) == Some('H') {
        match h_component_at(ts, pos) {
            (Ok(c), p) => (Ok(ComponentView::H(c)), p),
            (Err(e), p) => (Err(e), p),
        }
    } else if initial_of(ts[pos as int].raw) == Some('I') {
        match i_component_at(ts, pos) {
            (Ok(c), p) => (Ok(ComponentView::I(c)), p),
            (Err(e), p) => (Err(e), p),
        }
    } else if initial_of(ts[pos as int].raw) == Some('J') {
        match j_component_at(ts, pos) {
            (Ok(c), p) => (Ok(ComponentView::J(c)), p),
            (Err(e), p) => (Err(e), p),
        }
    } else if initial_of(ts[pos as int].raw) == Some('K') {
        match k_component_at(ts, pos) {
            (Ok(c), p) => (Ok(ComponentView::K(c)), p),
            (Err(e), p) => (Err(e), p),
        }
    } else if initial_of(ts[pos as int].raw) == Some('L') {
        match l_component_at(ts, pos) {
            (Ok(c), p) => (Ok(ComponentView::L(c)), p),
            (Err(e), p) => (Err(e), p),
        }
    } else if initial_of(ts[pos as int].raw) == Some('M') {
        match m_component_at(ts, pos) {
            (Ok(c), p) => (Ok(ComponentView::M(c)), p),
            (Err(e), p) => (Err(e), p),
        }
    } else if initial_of(ts[pos as int].raw) == Some('Q') {
        match q_component_at(ts, pos) {
            (Ok(c), p) => (Ok(ComponentView::Q(c)), p),
            (Err(e), p) => (Err(e), p),
        }
    } else if initial_of(ts[pos as int].raw) == Some('R') {
        match r_component_at(ts, pos) {
            (Ok(c), p) => (Ok(ComponentView::R(c)), p),
            (Err(e), p) => (Err(e), p),
        }
    } else if initial_of(ts[pos as int].raw) == Some('S') {
        match s_component_at(ts, pos) {
            (Ok(c), p) => (Ok(ComponentView::S(c)), p),
            (Err(e), p) => (Err(e), p),
        }
    } else if initial_of(ts[pos as int].raw) == Some('T') {
        match t_component_at(ts, pos) {
            (Ok(c), p) => (Ok(ComponentView::T(c)), p),
            (Err(e), p) => (Err(e), p),
        }
    } else if initial_of(ts[pos as int].raw) == Some('V') {
        match v_component_at(ts, pos) {
            (Ok(c), p) => (Ok(ComponentView::V(c)), p),
            (Err(e), p) => (Err(e), p),
        }
    } else if initial_of(ts[pos as int].raw) == Some('W') {
        match w_component_at(ts, pos) {
            (Ok(c), p) => (Ok(ComponentView::W(c)), p),
            (Err(e), p) => (Err(e), p),
        }
    } else if initial_of(ts[pos as int].raw) == Some('X') {
        match x_component_at(ts, pos) {
            (Ok(c), p) => (Ok(ComponentView::X(c)), p),
            (Err(e), p) => (Err(e), p),
        }
    } else if initial_of(ts[pos as int].raw) == Some('Z') {
        match z_component_at(ts, pos) {
            (Ok(c), p) => (Ok(ComponentView::Z(c)), p),
            (Err(e), p) => (Err(e), p),
        }
    } else {
        (Err(not_a_component(ts[pos as int])), pos)
    }
}

impl<'a> SpiceLineParser<'a> {
    /// Parses a [`Component`].
    pub fn parse_component(&mut self) -> (r: ParseResult<Component>)
        ensures
            parsed(*old(self), *final(self), r, component_at(old(self).tokens(), old(self).cursor())),
            r is Ok ==> old(self).position < final(self).position <= old(self).vec.len(),
    {
        reveal(component_at);
        let token = self.token()?;
        let kind = initial(&token);
        if kind == Some('B') {
            return Ok(Component::B(self.parse_b_component()?));
        }
        if kind == Some('C') {
            return Ok(Component::C(self.parse_c_component()?));
        }
        if kind == Some('D') {
            return Ok(Component::D(self.parse_d_component()?));
        }
        if kind == Some('E') {
            return Ok(Component::E(self.parse_e_component()?));
        }
        if kind == Some('F') {
            return Ok(Component::F(self.parse_f_component()?));
        }
        if kind == Some('G') {
            return Ok(Component::G(self.parse_g_component()?));
        }
        if kind == Some('H') {
            return Ok(Component::H(self.parse_h_component()?));
        }
        if kind == Some('I') {
            return Ok(Component::I(self.parse_i_component()?));
        }
        if kind == Some('J') {
            return Ok(Component::J(self.parse_j_component()?));
        }
        if kind == Some('K') {
            return Ok(Component::K(self.parse_k_component()?));
        }
        if kind == Some('L') {
            return Ok(Component::L(self.parse_l_component()?));
        }
        if kind == Some('M') {
            return Ok(Component::M(self.parse_m_component()?));
        }
        if kind == Some('Q') {
            return Ok(Component::Q(self.parse_q_component()?));
        }
        if kind == Some('R') {
            return Ok(Component::R(self.parse_r_component()?));
        }
        if kind == Some('S') {
            return Ok(Component::S(self.parse_s_component()?));
        }
        if kind == Some('T') {
            return Ok(Component::T(self.parse_t_component()?));
        }
        if kind == Some('V') {
            return Ok(Component::V(self.parse_v_component()?));
        }
        if kind == Some('W') {
            return Ok(Component::W(self.parse_w_component()?));
        }
        if kind == Some('X') {
            return Ok(Component::X(self.parse_x_component()?));
        }
        if kind == Some('Z') {
            return Ok(Component::Z(self.parse_z_component()?));
        }
        Err(
            ParseError::quoting(
                "Expect `",
                token.raw.as_str(),
                "' to be a Component name",
                Some(token.place()),
            ),
        )
    }
}

impl TryParse<Component> for SpiceLineParser<'_> {
    open spec fn rule(ts: Seq<AtomView>, pos: nat) -> Outcome<ComponentView> {
        component_at(ts, pos)
    }

    fn try_parse(&mut self) -> (r: ParseResult<Component>) {
        self.parse_component()
    }
}

/// A component that the end of the line may have cut short.
#[derive(Debug, Clone)]
pub enum ComponentPartial {
    B(BComponentPartial),
    C(CComponentPartial),
    D(DComponentPartial),
    E(EComponentPartial),
    F(FComponentPartial),
    G(GComponentPartial),
    H(HComponentPartial),
    I(IComponentPartial),
    J(JComponentPartial),
    K(KComponentPartial),
    L(LComponentPartial),
    M(MComponentPartial),
    Q(QComponentPartial),
    R(RComponentPartial),
    S(SComponentPartial),
    T(TComponentPartial),
    V(VComponentPartial),
    W(WComponentPartial),
    Z(ZComponentPartial),
    Unknown,
}

/// Mathematical content of a [`ComponentPartial`].
pub enum ComponentPartialView {
    B(BComponentPartialView),
    C(CComponentPartialView),
    D(DComponentPartialView),
    E(EComponentPartialView),
    F(FComponentPartialView),
    G(GComponentPartialView),
    H(HComponentPartialView),
    I(IComponentPartialView),
    J(JComponentPartialView),
    K(KComponentPartialView),
    L(LComponentPartialView),
    M(MComponentPartialView),
    Q(QComponentPartialView),
    R(RComponentPartialView),
    S(SComponentPartialView),
    T(TComponentPartialView),
    V(VComponentPartialView),
    W(WComponentPartialView),
    Z(ZComponentPartialView),
    Unknown,
}

impl DeepView for ComponentPartial {
    type V = ComponentPartialView;

    open spec fn deep_view(&self) -> ComponentPartialView {
        match self {
            ComponentPartial::B(c) => ComponentPartialView::B(c.deep_view()),
            ComponentPartial::C(c) => ComponentPartialView::C(c.deep_view()),
            ComponentPartial::D(c) => ComponentPartialView::D(c.deep_view()),
            ComponentPartial::E(c) => ComponentPartialView::E(c.deep_view()),
            ComponentPartial::F(c) => ComponentPartialView::F(c.deep_view()),
            ComponentPartial::G(c) => ComponentPartialView::G(c.deep_view()),
            ComponentPartial::H(c) => ComponentPartialView::H(c.deep_view()),
            ComponentPartial::I(c) => ComponentPartialView::I(c.deep_view()),
            ComponentPartial::J(c) => ComponentPartialView::J(c.deep_view()),
            ComponentPartial::K(c) => ComponentPartialView::K(c.deep_view()),
            ComponentPartial::L(c) => ComponentPartialView::L(c.deep_view()),
            ComponentPartial::M(c) => ComponentPartialView::M(c.deep_view()),
            ComponentPartial::Q(c) => ComponentPartialView::Q(c.deep_view()),
            ComponentPartial::R(c) => ComponentPartialView::R(c.deep_view()),
            ComponentPartial::S(c) => ComponentPartialView::S(c.deep_view()),
            ComponentPartial::T(c) => ComponentPartialView::T(c.deep_view()),
            ComponentPartial::V(c) => ComponentPartialView::V(c.deep_view()),
            ComponentPartial::W(c) => ComponentPartialView::W(c.deep_view()),
            ComponentPartial::Z(c) => ComponentPartialView::Z(c.deep_view()),
            ComponentPartial::Unknown => ComponentPartialView::Unknown,
        }
    }
}

impl ComponentPartialView {
    /// Each field that is there follows one that is there.
    pub open spec fn in_order(self) -> bool {
        match self {
            ComponentPartialView::B(c) => c.in_order(),
            ComponentPartialView::C(c) => c.in_order(),
            ComponentPartialView::D(c) => c.in_order(),
            ComponentPartialView::E(c) => c.in_order(),
            ComponentPartialView::F(c) => c.in_order(),
            ComponentPartialView::G(c) => c.in_order(),
            ComponentPartialView::H(c) => c.in_order(),
            ComponentPartialView::I(c) => c.in_order(),
            ComponentPartialView::J(c) => c.in_order(),
            ComponentPartialView::K(c) => c.in_order(),
            ComponentPartialView::L(c) => c.in_order(),
            ComponentPartialView::M(c) => c.in_order(),
            ComponentPartialView::Q(c) => c.in_order(),
            ComponentPartialView::R(c) => c.in_order(),
            ComponentPartialView::S(c) => c.in_order(),
            ComponentPartialView::T(c) => c.in_order(),
            ComponentPartialView::V(c) => c.in_order(),
            ComponentPartialView::W(c) => c.in_order(),
            ComponentPartialView::Z(c) => c.in_order(),
            ComponentPartialView::Unknown => true,
        }
    }
}

/// The rule of [`ComponentPartial`]: the first letter of the first token,
/// in upper case, decides the kind. A call of a subcircuit has no partial
/// form.
#[verifier::opaque]
pub open spec fn component_partial_at(ts: Seq<AtomView>, pos: nat) -> Outcome<ComponentPartialView> {
    if pos >= ts.len() {
        (Err(eof_error()), pos)
    } else if initial_of(ts[pos as int].raw) == Some('B') {
        match b_component_partial_at(ts, pos) {
            (Ok(c), p) => (Ok(ComponentPartialView::B(c)), p),
            (Err(e), p) => (Err(e), p),
        }
    } else if initial_of(ts[pos as int].raw) == Some('C') {
        match c_component_partial_at(ts, pos) {
            (Ok(c), p) => (Ok(ComponentPartialView::C(c)), p),
            (Err(e), p) => (Err(e), p),
        }
    } else if initial_of(ts[pos as int].raw) == Some('D') {
        match d_component_partial_at(ts, pos) {
            (Ok(c), p) => (Ok(ComponentPartialView::D(c)), p),
            (Err(e), p) => (Err(e), p),
        }
    } else if initial_of(ts[pos as int].raw) == Some('E') {
        match e_component_partial_at(ts, pos) {
            (Ok(c), p) => (Ok(ComponentPartialView::E(c)), p),
            (Err(e), p) => (Err(e), p),
        }
    } else if initial_of(ts[pos as int].raw) == Some('F') {
        match f_component_partial_at(ts, pos) {
            (Ok(c), p) => (Ok(ComponentPartialView::F(c)), p),
            (Err(e), p) => (Err(e), p),
        }
    } else if initial_of(ts[pos as int].raw) == Some('G') {
        match g_component_partial_at(ts, pos) {
            (Ok(c), p) => (Ok(ComponentPartialView::G(c)), p),
            (Err(e), p) => (Err(e), p),
        }
    } else if initial_of(ts[pos as int].raw) == Some('H') {
        match h_component_partial_at(ts, pos) {
            (Ok(c), p) => (Ok(ComponentPartialView::H(c)), p),
            (Err(e), p) => (Err(e), p),
        }
    } else if initial_of(ts[pos as int].raw) == Some('I') {
        match i_component_partial_at(ts, pos) {
            (Ok(c), p) => (Ok(ComponentPartialView::I(c)), p),
            (Err(e), p) => (Err(e), p),
        }
    } else if initial_of(ts[pos as int].raw) == Some('J') {
        match j_component_partial_at(ts, pos) {
            (Ok(c), p) => (Ok(ComponentPartialView::J(c)), p),
            (Err(e), p) => (Err(e), p),
        }
    } else if initial_of(ts[pos as int].raw) == Some('K') {
        match k_component_partial_at(ts, pos) {
            (Ok(c), p) => (Ok(ComponentPartialView::K(c)), p),
            (Err(e), p) => (Err(e), p),
        }
    } else if initial_of(ts[pos as int].raw) == Some('L') {
        match l_component_partial_at(ts, pos) {
            (Ok(c), p) => (Ok(ComponentPartialView::L(c)), p),
            (Err(e), p) => (Err(e), p),
        }
    } else if initial_of(ts[pos as int].raw) == Some('M') {
        match m_component_partial_at(ts, pos) {
            (Ok(c), p) => (Ok(ComponentPartialView::M(c)), p),
            (Err(e), p) => (Err(e), p),
        }
    } else if initial_of(ts[pos as int].raw) == Some('Q') {
        match q_component_partial_at(ts, pos) {
            (Ok(c), p) => (Ok(ComponentPartialView::Q(c)), p),
            (Err(e), p) => (Err(e), p),
        }
    } else if initial_of(ts[pos as int].raw) == Some('R') {
        match r_component_partial_at(ts, pos) {
            (Ok(c), p) => (Ok(ComponentPartialView::R(c)), p),
            (Err(e), p) => (Err(e), p),
        }
    } else if initial_of(ts[pos as int].raw) == Some('S') {
        match s_component_partial_at(ts, pos) {
            (Ok(c), p) => (Ok(ComponentPartialView::S(c)), p),
            (Err(e), p) => (Err(e), p),
        }
    } else if initial_of(ts[pos as int].raw) == Some('T') {
        match t_component_partial_at(ts, pos) {
            (Ok(c), p) => (Ok(ComponentPartialView::T(c)), p),
            (Err(e), p) => (Err(e), p),
        }
    } else if initial_of(ts[pos as int].raw) == Some('V') {
        match v_component_partial_at(ts, pos) {
            (Ok(c), p) => (Ok(ComponentPartialView::V(c)), p),
            (Err(e), p) => (Err(e), p),
        }
    } else if initial_of(ts[pos as int].raw) == Some('W') {
        match w_component_partial_at(ts, pos) {
            (Ok(c), p) => (Ok(ComponentPartialView::W(c)), p),
            (Err(e), p) => (Err(e), p),
        }
    } else if initial_of(ts[pos as int].raw) == Some('Z') {
        match z_component_partial_at(ts, pos) {
            (Ok(c), p) => (Ok(ComponentPartialView::Z(c)), p),
            (Err(e), p) => (Err(e), p),
        }
    } else {
        (Err(not_a_component(ts[pos as int])), pos)
    }
}

impl<'a> SpiceLineParser<'a> {
    /// Parses a [`Component`] as far as the line goes.
    pub fn parse_component_partial(&mut self) -> (r: ParseResult<ComponentPartial>)
        ensures
            parsed(
                *old(self),
                *final(self),
                r,
                component_partial_at(old(self).tokens(), old(self).cursor()),
            ),
            r matches Ok(v) ==> v.deep_view().in_order(),
    {
        reveal(component_partial_at);
        let token = self.token()?;
        let kind = initial(&token);
        if kind == Some('B') {
            return Ok(ComponentPartial::B(self.parse_b_component_partial()?));
        }
        if kind == Some('C') {
            return Ok(ComponentPartial::C(self.parse_c_component_partial()?));
        }
        if kind == Some('D') {
            return Ok(ComponentPartial::D(self.parse_d_component_partial()?));
        }
        if kind == Some('E') {
            return Ok(ComponentPartial::E(self.parse_e_component_partial()?));
        }
        if kind == Some('F') {
            return Ok(ComponentPartial::F(self.parse_f_component_partial()?));
        }
        if kind == Some('G') {
            return Ok(ComponentPartial::G(self.parse_g_component_partial()?));
        }
        if kind == Some('H') {
            return Ok(ComponentPartial::H(self.parse_h_component_partial()?));
        }
        if kind == Some('I') {
            return Ok(ComponentPartial::I(self.parse_i_component_partial()?));
        }
        if kind == Some('J') {
            return Ok(ComponentPartial::J(self.parse_j_component_partial()?));
        }
        if kind == Some('K') {
            return Ok(ComponentPartial::K(self.parse_k_component_partial()?));
        }
        if kind == Some('L') {
            return Ok(ComponentPartial::L(self.parse_l_component_partial()?));
        }
        if kind == Some('M') {
            return Ok(ComponentPartial::M(self.parse_m_component_partial()?));
        }
        if kind == Some('Q') {
            return Ok(ComponentPartial::Q(self.parse_q_component_partial()?));
        }
        if kind == Some('R') {
            return Ok(ComponentPartial::R(self.parse_r_component_partial()?));
        }
        if kind == Some('S') {
            return Ok(ComponentPartial::S(self.parse_s_component_partial()?));
        }
        if kind == Some('T') {
            return Ok(ComponentPartial::T(self.parse_t_component_partial()?));
        }
        if kind == Some('V') {
            return Ok(ComponentPartial::V(self.parse_v_component_partial()?));
        }
        if kind == Some('W') {
            return Ok(ComponentPartial::W(self.parse_w_component_partial()?));
        }
        if kind == Some('Z') {
            return Ok(ComponentPartial::Z(self.parse_z_component_partial()?));
        }
        Err(
            ParseError::quoting(
                "Expect `",
                token.raw.as_str(),
                "' to be a Component name",
                Some(token.place()),
            ),
        )
    }
}

impl PartialParse<ComponentPartial> for SpiceLineParser<'_> {
    open spec fn partial_rule(ts: Seq<AtomView>, pos: nat) -> Outcome<ComponentPartialView> {
        component_partial_at(ts, pos)
    }

    fn try_partial(&mut self) -> (r: ParseResult<ComponentPartial>) {
        self.parse_component_partial()
    }

    fn info(&mut self) -> (r: ParseResult<(ComponentPartial, Vec<Element>)>) {
        let v = self.parse_component_partial()?;
        Ok((v, Vec::new()))
    }
}

/// A field of a partial component is there only if every field before it
/// is.
pub proof fn lemma_component_partial_in_order(ts: Seq<AtomView>, pos: nat)
    ensures
        component_partial_at(ts, pos).0 matches Ok(v) ==> v.in_order(),
{
    reveal(component_partial_at);
    lemma_b_component_partial_in_order(ts, pos);
    lemma_c_component_partial_in_order(ts, pos);
    lemma_d_component_partial_in_order(ts, pos);
    lemma_e_component_partial_in_order(ts, pos);
    lemma_f_component_partial_in_order(ts, pos);
    lemma_g_component_partial_in_order(ts, pos);
    lemma_h_component_partial_in_order(ts, pos);
    lemma_i_component_partial_in_order(ts, pos);
    lemma_j_component_partial_in_order(ts, pos);
    lemma_k_component_partial_in_order(ts, pos);
    lemma_l_component_partial_in_order(ts, pos);
    lemma_m_component_partial_in_order(ts, pos);
    lemma_q_component_partial_in_order(ts, pos);
    lemma_r_component_partial_in_order(ts, pos);
    lemma_s_component_partial_in_order(ts, pos);
    lemma_t_component_partial_in_order(ts, pos);
    lemma_v_component_partial_in_order(ts, pos);
    lemma_w_component_partial_in_order(ts, pos);
    lemma_z_component_partial_in_order(ts, pos);
}

} // verus!
