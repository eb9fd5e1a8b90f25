//! Commands: the lines of a circuit that begin with a dot.

use crate::ast::{
    ac_type_at, name_at, node_at, node_default_at, number_list_at, option_number_list_at,
    optional_count_at, optional_name_at, optional_number_at, optional_text_at,
    output_variable_list_at, param_number_list_at, param_text_list_at, print_variable_list_at,
    variable_value_list_at, AcType, AtomView, Name, Node, Options, OptionsView, Pairs, PairsView,
    Param, ParamView, PrintVariable, PrintVariableView,
};
use crate::ast::component::{param_section_at, text_section_at, Component, ComponentView};
use crate::ast::copy::Duplicate;
use crate::ast::expression::{number_at, text_at, Number, NumberView, Text};
use crate::ast::sweep::{sweep_list_at, Sweep, SweepView};
use crate::ast::variable::{output_variable_at, OutputVariable, OutputVariableView};
use crate::parse::{
    eof_error, expect_at, initial, initial_of, matches_at, parsed, partial_field, partial_of,
    quoting_error, tokens_left, unreal, Element, Outcome, ParseError, ParseErrorView, ParseResult,
    PartialParse, SpiceLineParser, TryParse,
};
use vstd::prelude::*;

verus! {

/// An AC analysis:
/// `.AC <sweep type> <points value> <start frequency value> <end frequency value>`
#[derive(Debug, Clone, PartialEq)]
pub struct AcCommand {
    pub ty: AcType,
    pub np: Number,
    pub fstart: Number,
    pub fend: Number,
}

/// Mathematical content of a [`AcCommand`].
pub struct AcCommandView {
    pub ty: AcType,
    pub np: NumberView,
    pub fstart: NumberView,
    pub fend: NumberView,
}

impl DeepView for AcCommand {
    type V = AcCommandView;

    open spec fn deep_view(&self) -> AcCommandView {
        AcCommandView {
            ty: self.ty.deep_view(),
            np: self.np.deep_view(),
            fstart: self.fstart.deep_view(),
            fend: self.fend.deep_view(),
        }
    }
}

/// The rule of [`AcCommand`].
#[verifier::opaque]
pub open spec fn ac_command_at(ts: Seq<AtomView>, pos: nat) -> Outcome<AcCommandView> {
    match expect_at(ts, pos, ".AC"@) {
        (Ok(_), p1) => {
            match ac_type_at(ts, p1) {
                (Ok(ty), p2) => {
                    match number_at(ts, p2) {
                        (Ok(np), p3) => {
                            match number_at(ts, p3) {
                                (Ok(fstart), p4) => {
                                    match number_at(ts, p4) {
                                        (Ok(fend), p5) => {
                                            (Ok(AcCommandView { ty, np, fstart, fend }), p5)
                                        },
                                        (Err(e), p5) => (Err(e), p5),
                                    }
                                },
                                (Err(e), p4) => (Err(e), p4),
                            }
                        },
                        (Err(e), p3) => (Err(e), p3),
                    }
                },
                (Err(e), p2) => (Err(e), p2),
            }
        },
        (Err(e), p1) => (Err(e), p1),
    }
}

impl<'a> SpiceLineParser<'a> {
    /// Parses a [`AcCommand`].
    pub fn parse_ac_command(&mut self) -> (r: ParseResult<AcCommand>)
        ensures
            parsed(*old(self), *final(self), r, ac_command_at(old(self).tokens(), old(self).cursor())),
            r is Ok ==> old(self).position < final(self).position <= old(self).vec.len(),
    {
        reveal(ac_command_at);
        self.expect(".AC")?;
        let ty = self.parse_ac_type()?;
        let np = self.parse_number()?;
        let fstart = self.parse_number()?;
        let fend = self.parse_number()?;
        Ok(AcCommand { ty, np, fstart, fend })
    }
}

impl TryParse<AcCommand> for SpiceLineParser<'_> {
    open spec fn rule(ts: Seq<AtomView>, pos: nat) -> Outcome<AcCommandView> {
        ac_command_at(ts, pos)
    }

    fn try_parse(&mut self) -> (r: ParseResult<AcCommand>) {
        self.parse_ac_command()
    }
}

/// A [`AcCommand`] that the end of the line may have cut short: each field is
/// there if the line reached it, and `position` counts the fields that
/// were tried.
#[derive(Debug, Clone)]
pub struct AcCommandPartial {
    pub position: u32,
    pub ty: Option<AcType>,
    pub np: Option<Number>,
    pub fstart: Option<Number>,
    pub fend: Option<Number>,
}

/// Mathematical content of a [`AcCommandPartial`].
pub struct AcCommandPartialView {
    pub position: u32,
    pub ty: Option<AcType>,
    pub np: Option<NumberView>,
    pub fstart: Option<NumberView>,
    pub fend: Option<NumberView>,
}

impl DeepView for AcCommandPartial {
    type V = AcCommandPartialView;

    open spec fn deep_view(&self) -> AcCommandPartialView {
        AcCommandPartialView {
            position: self.position,
            ty: self.ty.deep_view(),
            np: self.np.deep_view(),
            fstart: self.fstart.deep_view(),
            fend: self.fend.deep_view(),
        }
    }
}

impl AcCommandPartialView {
    /// Each field that is there follows one that is there.
    pub open spec fn in_order(self) -> bool {
        &&& self.np is Some ==> self.ty is Some
        &&& self.fstart is Some ==> self.np is Some
        &&& self.fend is Some ==> self.fstart is Some
    }
}

/// The rule of [`AcCommandPartial`]: the fields of [`AcCommand`] in order, up to the end of
/// the line.
#[verifier::opaque]
pub open spec fn ac_command_partial_at(ts: Seq<AtomView>, pos: nat) -> Outcome<AcCommandPartialView> {
    match expect_at(ts, pos, ".AC"@) {
        (Ok(_), p1) => {
            match partial_field(false, 0u32, p1, ac_type_at(ts, p1)) {
                Ok((ty, eof2, n2, p2)) => {
                    match partial_field(eof2, n2, p2, number_at(ts, p2)) {
                        Ok((np, eof3, n3, p3)) => {
                            match partial_field(eof3, n3, p3, number_at(ts, p3)) {
                                Ok((fstart, eof4, n4, p4)) => {
                                    match partial_field(eof4, n4, p4, number_at(ts, p4)) {
                                        Ok((fend, eof5, n5, p5)) => {
                                            (Ok(AcCommandPartialView { position: n5, ty, np, fstart, fend }), p5)
                                        },
                                        Err((e, p5)) => (Err(e), p5),
                                    }
                                },
                                Err((e, p4)) => (Err(e), p4),
                            }
                        },
                        Err((e, p3)) => (Err(e), p3),
                    }
                },
                Err((e, p2)) => (Err(e), p2),
            }
        },
        (Err(e), p1) => (Err(e), p1),
    }
}

impl<'a> SpiceLineParser<'a> {
    /// Parses a [`AcCommand`] as far as the line goes.
    pub fn parse_ac_command_partial(&mut self) -> (r: ParseResult<AcCommandPartial>)
        ensures
            parsed(*old(self), *final(self), r, ac_command_partial_at(old(self).tokens(), old(self).cursor())),
            r matches Ok(v) ==> v.deep_view().in_order(),
    {
        reveal(ac_command_partial_at);
        let mut is_eof = false;
        let mut position: u32 = 0;
        self.expect(".AC")?;
        let ty = if !is_eof {
            position += 1;
            partial_of(self.parse_ac_type(), &mut is_eof)?
        } else {
            None
        };
        let np = if !is_eof {
            position += 1;
            partial_of(self.parse_number(), &mut is_eof)?
        } else {
            None
        };
        let fstart = if !is_eof {
            position += 1;
            partial_of(self.parse_number(), &mut is_eof)?
        } else {
            None
        };
        let fend = if !is_eof {
            position += 1;
            partial_of(self.parse_number(), &mut is_eof)?
        } else {
            None
        };
        Ok(AcCommandPartial { position, ty, np, fstart, fend })
    }
}

impl PartialParse<AcCommandPartial> for SpiceLineParser<'_> {
    open spec fn partial_rule(ts: Seq<AtomView>, pos: nat) -> Outcome<AcCommandPartialView> {
        ac_command_partial_at(ts, pos)
    }

    fn try_partial(&mut self) -> (r: ParseResult<AcCommandPartial>) {
        self.parse_ac_command_partial()
    }

    fn info(&mut self) -> (r: ParseResult<(AcCommandPartial, Vec<Element>)>) {
        let v = self.parse_ac_command_partial()?;
        Ok((v, Vec::new()))
    }
}

/// A field of a [`AcCommandPartial`] is there only if every field before it is.
pub proof fn lemma_ac_command_partial_in_order(ts: Seq<AtomView>, pos: nat)
    ensures
        ac_command_partial_at(ts, pos).0 matches Ok(v) ==> v.in_order(),
{
    reveal(ac_command_partial_at);
}

/// A DC sweep: `.DC <sweep1> <sweep2> ...`
#[derive(Debug, Clone, PartialEq)]
pub struct DcCommand {
    pub sweeps: Vec<Sweep>,
}

/// Mathematical content of a [`DcCommand`].
pub struct DcCommandView {
    pub sweeps: Seq<SweepView>,
}

impl DeepView for DcCommand {
    type V = DcCommandView;

    open spec fn deep_view(&self) -> DcCommandView {
        DcCommandView {
            sweeps: self.sweeps.deep_view(),
        }
    }
}

/// The rule of [`DcCommand`].
#[verifier::opaque]
pub open spec fn dc_command_at(ts: Seq<AtomView>, pos: nat) -> Outcome<DcCommandView> {
    match expect_at(ts, pos, ".DC"@) {
        (Ok(_), p1) => {
            match sweep_list_at(ts, p1) {
                (Ok(sweeps), p2) => {
                    (Ok(DcCommandView { sweeps }), p2)
                },
                (Err(e), p2) => (Err(e), p2),
            }
        },
        (Err(e), p1) => (Err(e), p1),
    }
}

impl<'a> SpiceLineParser<'a> {
    /// Parses a [`DcCommand`].
    pub fn parse_dc_command(&mut self) -> (r: ParseResult<DcCommand>)
        ensures
            parsed(*old(self), *final(self), r, dc_command_at(old(self).tokens(), old(self).cursor())),
            r is Ok ==> old(self).position < final(self).position <= old(self).vec.len(),
    {
        reveal(dc_command_at);
        self.expect(".DC")?;
        let sweeps = self.parse_sweep_list()?;
        Ok(DcCommand { sweeps })
    }
}

impl TryParse<DcCommand> for SpiceLineParser<'_> {
    open spec fn rule(ts: Seq<AtomView>, pos: nat) -> Outcome<DcCommandView> {
        dc_command_at(ts, pos)
    }

    fn try_parse(&mut self) -> (r: ParseResult<DcCommand>) {
        self.parse_dc_command()
    }
}

/// The end of the circuit: `.END`
#[derive(Debug, Clone, Copy, PartialEq, Eq, Structural)]
pub struct EndCommand {}

impl DeepView for EndCommand {
    type V = EndCommand;

    open spec fn deep_view(&self) -> EndCommand {
        *self
    }
}

/// The rule of [`EndCommand`].
#[verifier::opaque]
pub open spec fn end_command_at(ts: Seq<AtomView>, pos: nat) -> Outcome<EndCommand> {
    match expect_at(ts, pos, ".END"@) {
        (Ok(_), p1) => {
            (Ok(EndCommand {}), p1)
        },
        (Err(e), p1) => (Err(e), p1),
    }
}

impl<'a> SpiceLineParser<'a> {
    /// Parses a [`EndCommand`].
    pub fn parse_end_command(&mut self) -> (r: ParseResult<EndCommand>)
        ensures
            parsed(*old(self), *final(self), r, end_command_at(old(self).tokens(), old(self).cursor())),
            r is Ok ==> old(self).position < final(self).position <= old(self).vec.len(),
    {
        reveal(end_command_at);
        self.expect(".END")?;
        Ok(EndCommand {})
    }
}

impl TryParse<EndCommand> for SpiceLineParser<'_> {
    open spec fn rule(ts: Seq<AtomView>, pos: nat) -> Outcome<EndCommand> {
        end_command_at(ts, pos)
    }

    fn try_parse(&mut self) -> (r: ParseResult<EndCommand>) {
        self.parse_end_command()
    }
}

/// A Fourier analysis: `.FOUR <freq> [<np>] <var1> <var2> ...`
#[derive(Debug, Clone, PartialEq)]
pub struct FourCommand {
    pub freq: Number,
    pub np: Option<usize>,
    pub variables: Vec<OutputVariable>,
}

/// Mathematical content of a [`FourCommand`].
pub struct FourCommandView {
    pub freq: NumberView,
    pub np: Option<usize>,
    pub variables: Seq<OutputVariableView>,
}

impl DeepView for FourCommand {
    type V = FourCommandView;

    open spec fn deep_view(&self) -> FourCommandView {
        FourCommandView {
            freq: self.freq.deep_view(),
            np: self.np.deep_view(),
            variables: self.variables.deep_view(),
        }
    }
}

/// The rule of [`FourCommand`].
#[verifier::opaque]
pub open spec fn four_command_at(ts: Seq<AtomView>, pos: nat) -> Outcome<FourCommandView> {
    match expect_at(ts, pos, ".FOUR"@) {
        (Ok(_), p1) => {
            match number_at(ts, p1) {
                (Ok(freq), p2) => {
                    match optional_count_at(ts, p2) {
                        (Ok(np), p3) => {
                            match output_variable_list_at(ts, p3) {
                                (Ok(variables), p4) => {
                                    (Ok(FourCommandView { freq, np, variables }), p4)
                                },
                                (Err(e), p4) => (Err(e), p4),
                            }
                        },
                        (Err(e), p3) => (Err(e), p3),
                    }
                },
                (Err(e), p2) => (Err(e), p2),
            }
        },
        (Err(e), p1) => (Err(e), p1),
    }
}

impl<'a> SpiceLineParser<'a> {
    /// Parses a [`FourCommand`].
    pub fn parse_four_command(&mut self) -> (r: ParseResult<FourCommand>)
        ensures
            parsed(*old(self), *final(self), r, four_command_at(old(self).tokens(), old(self).cursor())),
            r is Ok ==> old(self).position < final(self).position <= old(self).vec.len(),
    {
        reveal(four_command_at);
        self.expect(".FOUR")?;
        let freq = self.parse_number()?;
        let np = self.parse_optional_count()?;
        let variables = self.parse_output_variable_list()?;
        Ok(FourCommand { freq, np, variables })
    }
}

impl TryParse<FourCommand> for SpiceLineParser<'_> {
    open spec fn rule(ts: Seq<AtomView>, pos: nat) -> Outcome<FourCommandView> {
        four_command_at(ts, pos)
    }

    fn try_parse(&mut self) -> (r: ParseResult<FourCommand>) {
        self.parse_four_command()
    }
}

/// A [`FourCommand`] that the end of the line may have cut short: each field is
/// there if the line reached it, and `position` counts the fields that
/// were tried.
#[derive(Debug, Clone)]
pub struct FourCommandPartial {
    pub position: u32,
    pub freq: Option<Number>,
    pub np: Option<Option<usize>>,
    pub variables: Option<Vec<OutputVariable>>,
}

/// Mathematical content of a [`FourCommandPartial`].
pub struct FourCommandPartialView {
    pub position: u32,
    pub freq: Option<NumberView>,
    pub np: Option<Option<usize>>,
    pub variables: Option<Seq<OutputVariableView>>,
}

impl DeepView for FourCommandPartial {
    type V = FourCommandPartialView;

    open spec fn deep_view(&self) -> FourCommandPartialView {
        FourCommandPartialView {
            position: self.position,
            freq: self.freq.deep_view(),
            np: self.np.deep_view(),
            variables: self.variables.deep_view(),
        }
    }
}

impl FourCommandPartialView {
    /// Each field that is there follows one that is there.
    pub open spec fn in_order(self) -> bool {
        &&& self.np is Some ==> self.freq is Some
        &&& self.variables is Some ==> self.np is Some
    }
}

/// The rule of [`FourCommandPartial`]: the fields of [`FourCommand`] in order, up to the end of
/// the line.
#[verifier::opaque]
pub open spec fn four_command_partial_at(ts: Seq<AtomView>, pos: nat) -> Outcome<FourCommandPartialView> {
    match expect_at(ts, pos, ".FOUR"@) {
        (Ok(_), p1) => {
            match partial_field(false, 0u32, p1, number_at(ts, p1)) {
                Ok((freq, eof2, n2, p2)) => {
                    match partial_field(eof2, n2, p2, optional_count_at(ts, p2)) {
                        Ok((np, eof3, n3, p3)) => {
                            match partial_field(eof3, n3, p3, output_variable_list_at(ts, p3)) {
                                Ok((variables, eof4, n4, p4)) => {
                                    (Ok(FourCommandPartialView { position: n4, freq, np, variables }), p4)
                                },
                                Err((e, p4)) => (Err(e), p4),
                            }
                        },
                        Err((e, p3)) => (Err(e), p3),
                    }
                },
                Err((e, p2)) => (Err(e), p2),
            }
        },
        (Err(e), p1) => (Err(e), p1),
    }
}

impl<'a> SpiceLineParser<'a> {
    /// Parses a [`FourCommand`] as far as the line goes.
    pub fn parse_four_command_partial(&mut self) -> (r: ParseResult<FourCommandPartial>)
        ensures
            parsed(*old(self), *final(self), r, four_command_partial_at(old(self).tokens(), old(self).cursor())),
            r matches Ok(v) ==> v.deep_view().in_order(),
    {
        reveal(four_command_partial_at);
        let mut is_eof = false;
        let mut position: u32 = 0;
        self.expect(".FOUR")?;
        let freq = if !is_eof {
            position += 1;
            partial_of(self.parse_number(), &mut is_eof)?
        } else {
            None
        };
        let np = if !is_eof {
            position += 1;
            partial_of(self.parse_optional_count(), &mut is_eof)?
        } else {
            None
        };
        let variables = if !is_eof {
            position += 1;
            partial_of(self.parse_output_variable_list(), &mut is_eof)?
        } else {
            None
        };
        Ok(FourCommandPartial { position, freq, np, variables })
    }
}

impl PartialParse<FourCommandPartial> for SpiceLineParser<'_> {
    open spec fn partial_rule(ts: Seq<AtomView>, pos: nat) -> Outcome<FourCommandPartialView> {
        four_command_partial_at(ts, pos)
    }

    fn try_partial(&mut self) -> (r: ParseResult<FourCommandPartial>) {
        self.parse_four_command_partial()
    }

    fn info(&mut self) -> (r: ParseResult<(FourCommandPartial, Vec<Element>)>) {
        let v = self.parse_four_command_partial()?;
        Ok((v, Vec::new()))
    }
}

/// A field of a [`FourCommandPartial`] is there only if every field before it is.
pub proof fn lemma_four_command_partial_in_order(ts: Seq<AtomView>, pos: nat)
    ensures
        four_command_partial_at(ts, pos).0 matches Ok(v) ==> v.in_order(),
{
    reveal(four_command_partial_at);
}

/// The definition of a function: `.FUNC <name> ( <arg>* ) { <body> }`.
/// It has no rule.
#[derive(Debug, Clone, Copy, PartialEq, Eq, Structural)]
pub struct FuncCommand {}

impl DeepView for FuncCommand {
    type V = FuncCommand;

    open spec fn deep_view(&self) -> FuncCommand {
        *self
    }
}

/// A node that means the same everywhere: `.GLOBAL <node>`
#[derive(Debug, Clone, PartialEq)]
pub struct GlobalCommand {
    pub node: Node,
}

/// Mathematical content of a [`GlobalCommand`].
pub struct GlobalCommandView {
    pub node: AtomView,
}

impl DeepView for GlobalCommand {
    type V = GlobalCommandView;

    open spec fn deep_view(&self) -> GlobalCommandView {
        GlobalCommandView {
            node: self.node.deep_view(),
        }
    }
}

/// The rule of [`GlobalCommand`].
#[verifier::opaque]
pub open spec fn global_command_at(ts: Seq<AtomView>, pos: nat) -> Outcome<GlobalCommandView> {
    match expect_at(ts, pos, ".GLOBAL"@) {
        (Ok(_), p1) => {
            match node_at(ts, p1) {
                (Ok(node), p2) => {
                    (Ok(GlobalCommandView { node }), p2)
                },
                (Err(e), p2) => (Err(e), p2),
            }
        },
        (Err(e), p1) => (Err(e), p1),
    }
}

impl<'a> SpiceLineParser<'a> {
    /// Parses a [`GlobalCommand`].
    pub fn parse_global_command(&mut self) -> (r: ParseResult<GlobalCommand>)
        ensures
            parsed(*old(self), *final(self), r, global_command_at(old(self).tokens(), old(self).cursor())),
            r is Ok ==> old(self).position < final(self).position <= old(self).vec.len(),
    {
        reveal(global_command_at);
        self.expect(".GLOBAL")?;
        let node = self.parse_node()?;
        Ok(GlobalCommand { node })
    }
}

impl TryParse<GlobalCommand> for SpiceLineParser<'_> {
    open spec fn rule(ts: Seq<AtomView>, pos: nat) -> Outcome<GlobalCommandView> {
        global_command_at(ts, pos)
    }

    fn try_parse(&mut self) -> (r: ParseResult<GlobalCommand>) {
        self.parse_global_command()
    }
}

/// Initial conditions of a transient analysis: `.IC <ic1> <ic2> ...`
#[derive(Debug, Clone, PartialEq)]
pub struct IcCommand {
    pub ics: Vec<Pairs<OutputVariable, Number>>,
}

/// Mathematical content of a [`IcCommand`].
pub struct IcCommandView {
    pub ics: Seq<PairsView<OutputVariableView, NumberView>>,
}

impl DeepView for IcCommand {
    type V = IcCommandView;

    open spec fn deep_view(&self) -> IcCommandView {
        IcCommandView {
            ics: self.ics.deep_view(),
        }
    }
}

/// The rule of [`IcCommand`].
#[verifier::opaque]
pub open spec fn ic_command_at(ts: Seq<AtomView>, pos: nat) -> Outcome<IcCommandView> {
    match expect_at(ts, pos, ".IC"@) {
        (Ok(_), p1) => {
            match variable_value_list_at(ts, p1) {
                (Ok(ics), p2) => {
                    (Ok(IcCommandView { ics }), p2)
                },
                (Err(e), p2) => (Err(e), p2),
            }
        },
        (Err(e), p1) => (Err(e), p1),
    }
}

impl<'a> SpiceLineParser<'a> {
    /// Parses a [`IcCommand`].
    pub fn parse_ic_command(&mut self) -> (r: ParseResult<IcCommand>)
        ensures
            parsed(*old(self), *final(self), r, ic_command_at(old(self).tokens(), old(self).cursor())),
            r is Ok ==> old(self).position < final(self).position <= old(self).vec.len(),
    {
        reveal(ic_command_at);
        self.expect(".IC")?;
        let ics = self.parse_variable_value_list()?;
        Ok(IcCommand { ics })
    }
}

impl TryParse<IcCommand> for SpiceLineParser<'_> {
    open spec fn rule(ts: Seq<AtomView>, pos: nat) -> Outcome<IcCommandView> {
        ic_command_at(ts, pos)
    }

    fn try_parse(&mut self) -> (r: ParseResult<IcCommand>) {
        self.parse_ic_command()
    }
}

/// The inclusion of a file: `.INC <file name>`
#[derive(Debug, Clone, PartialEq)]
pub struct IncCommand {
    pub filename: Text,
}

/// Mathematical content of a [`IncCommand`].
pub struct IncCommandView {
    pub filename: AtomView,
}

impl DeepView for IncCommand {
    type V = IncCommandView;

    open spec fn deep_view(&self) -> IncCommandView {
        IncCommandView {
            filename: self.filename.deep_view(),
        }
    }
}

/// The rule of [`IncCommand`].
#[verifier::opaque]
pub open spec fn inc_command_at(ts: Seq<AtomView>, pos: nat) -> Outcome<IncCommandView> {
    match expect_at(ts, pos, ".INC"@) {
        (Ok(_), p1) => {
            match text_at(ts, p1) {
                (Ok(filename), p2) => {
                    (Ok(IncCommandView { filename }), p2)
                },
                (Err(e), p2) => (Err(e), p2),
            }
        },
        (Err(e), p1) => (Err(e), p1),
    }
}

impl<'a> SpiceLineParser<'a> {
    /// Parses a [`IncCommand`].
    pub fn parse_inc_command(&mut self) -> (r: ParseResult<IncCommand>)
        ensures
            parsed(*old(self), *final(self), r, inc_command_at(old(self).tokens(), old(self).cursor())),
            r is Ok ==> old(self).position < final(self).position <= old(self).vec.len(),
    {
        reveal(inc_command_at);
        self.expect(".INC")?;
        let filename = self.parse_text()?;
        Ok(IncCommand { filename })
    }
}

impl TryParse<IncCommand> for SpiceLineParser<'_> {
    open spec fn rule(ts: Seq<AtomView>, pos: nat) -> Outcome<IncCommandView> {
        inc_command_at(ts, pos)
    }

    fn try_parse(&mut self) -> (r: ParseResult<IncCommand>) {
        self.parse_inc_command()
    }
}

/// The use of a library: `.LIB [<file name>]`
#[derive(Debug, Clone, PartialEq)]
pub struct LibCommand {
    pub filename: Option<Text>,
}

/// Mathematical content of a [`LibCommand`].
pub struct LibCommandView {
    pub filename: Option<AtomView>,
}

impl DeepView for LibCommand {
    type V = LibCommandView;

    open spec fn deep_view(&self) -> LibCommandView {
        LibCommandView {
            filename: self.filename.deep_view(),
        }
    }
}

/// The rule of [`LibCommand`].
#[verifier::opaque]
pub open spec fn lib_command_at(ts: Seq<AtomView>, pos: nat) -> Outcome<LibCommandView> {
    match expect_at(ts, pos, ".LIB"@) {
        (Ok(_), p1) => {
            match optional_text_at(ts, p1) {
                (Ok(filename), p2) => {
                    (Ok(LibCommandView { filename }), p2)
                },
                (Err(e), p2) => (Err(e), p2),
            }
        },
        (Err(e), p1) => (Err(e), p1),
    }
}

impl<'a> SpiceLineParser<'a> {
    /// Parses a [`LibCommand`].
    pub fn parse_lib_command(&mut self) -> (r: ParseResult<LibCommand>)
        ensures
            parsed(*old(self), *final(self), r, lib_command_at(old(self).tokens(), old(self).cursor())),
            r is Ok ==> old(self).position < final(self).position <= old(self).vec.len(),
    {
        reveal(lib_command_at);
        self.expect(".LIB")?;
        let filename = self.parse_optional_text()?;
        Ok(LibCommand { filename })
    }
}

impl TryParse<LibCommand> for SpiceLineParser<'_> {
    open spec fn rule(ts: Seq<AtomView>, pos: nat) -> Outcome<LibCommandView> {
        lib_command_at(ts, pos)
    }

    fn try_parse(&mut self) -> (r: ParseResult<LibCommand>) {
        self.parse_lib_command()
    }
}

/// A Monte Carlo analysis: `.MC ...`. It has no rule.
#[derive(Debug, Clone, Copy, PartialEq, Eq, Structural)]
pub struct McCommand {}

impl DeepView for McCommand {
    type V = McCommand;

    open spec fn deep_view(&self) -> McCommand {
        *self
    }
}

/// A model:
/// `.MODEL <model name> [AKO: <reference model name>] <model type> ( [<parameter name> = <value>]* )`
/// The parentheses may be left out.
#[derive(Debug, Clone, PartialEq)]
pub struct ModelCommand {
    pub name: Name,
    pub reference: Option<Name>,
    pub ty: Name,
    pub params: Vec<Param<Number>>,
}

/// Mathematical content of a [`ModelCommand`].
pub struct ModelCommandView {
    pub name: AtomView,
    pub reference: Option<AtomView>,
    pub ty: AtomView,
    pub params: Seq<ParamView<NumberView>>,
}

impl DeepView for ModelCommand {
    type V = ModelCommandView;

    open spec fn deep_view(&self) -> ModelCommandView {
        ModelCommandView {
            name: self.name.deep_view(),
            reference: self.reference.deep_view(),
            ty: self.ty.deep_view(),
            params: self.params.deep_view(),
        }
    }
}

/// The model that `AKO :` refers to, if `AKO` stands at `pos`.
#[verifier::opaque]
pub open spec fn reference_at(ts: Seq<AtomView>, pos: nat) -> Outcome<Option<AtomView>> {
    if matches_at(ts, pos, "AKO"@) {
        match expect_at(ts, pos + 1, ":"@) {
            (Ok(_), p1) => match name_at(ts, p1) {
                (Ok(name), p2) => (Ok(Some(name)), p2),
                (Err(e), p2) => (Err(e), p2),
            },
            (Err(e), p1) => (Err(e), p1),
        }
    } else {
        (Ok(None), pos)
    }
}

/// The parameters of a model, within parentheses or without.
#[verifier::opaque]
pub open spec fn model_params_at(ts: Seq<AtomView>, pos: nat) -> Outcome<Seq<ParamView<NumberView>>> {
    if matches_at(ts, pos, "("@) {
        match param_number_list_at(ts, pos + 1) {
            (Ok(params), p1) => match expect_at(ts, p1, ")"@) {
                (Ok(_), p2) => (Ok(params), p2),
                (Err(e), p2) => (Err(e), p2),
            },
            (Err(e), p1) => (Err(e), p1),
        }
    } else {
        param_number_list_at(ts, pos)
    }
}

/// The rule of [`ModelCommand`].
#[verifier::opaque]
pub open spec fn model_command_at(ts: Seq<AtomView>, pos: nat) -> Outcome<ModelCommandView> {
    match expect_at(ts, pos, ".MODEL"@) {
        (Ok(_), p1) => match name_at(ts, p1) {
            (Ok(name), p2) => match reference_at(ts, p2) {
                (Ok(reference), p3) => match name_at(ts, p3) {
                    (Ok(ty), p4) => match model_params_at(ts, p4) {
                        (Ok(params), p5) => (
                            Ok(ModelCommandView { name, reference, ty, params }),
                            p5,
                        ),
                        (Err(e), p5) => (Err(e), p5),
                    },
                    (Err(e), p4) => (Err(e), p4),
                },
                (Err(e), p3) => (Err(e), p3),
            },
            (Err(e), p2) => (Err(e), p2),
        },
        (Err(e), p1) => (Err(e), p1),
    }
}

impl<'a> SpiceLineParser<'a> {
    /// Parses the reference of a model, if there is one.
    pub fn parse_reference(&mut self) -> (r: ParseResult<Option<Name>>)
        ensures
            parsed(*old(self), *final(self), r, reference_at(old(self).tokens(), old(self).cursor())),
            r is Ok && old(self).position <= old(self).vec.len() ==> final(self).position <= old(self).vec.len(),
    {
        reveal(reference_at);
        if self.matches_consume("AKO") {
            self.expect(":")?;
            Ok(Some(self.parse_name()?))
        } else {
            Ok(None)
        }
    }

    /// Parses the parameters of a model.
    pub fn parse_model_params(&mut self) -> (r: ParseResult<Vec<Param<Number>>>)
        ensures
            parsed(*old(self), *final(self), r, model_params_at(old(self).tokens(), old(self).cursor())),
            r is Ok && old(self).position <= old(self).vec.len() ==> final(self).position <= old(self).vec.len(),
    {
        reveal(model_params_at);
        let has_brackets = self.matches_consume("(");
        let params = self.parse_param_number_list()?;
        if has_brackets {
            self.expect(")")?;
        }
        Ok(params)
    }

    /// Parses a [`ModelCommand`].
    pub fn parse_model_command(&mut self) -> (r: ParseResult<ModelCommand>)
        ensures
            parsed(*old(self), *final(self), r, model_command_at(old(self).tokens(), old(self).cursor())),
            r is Ok ==> old(self).position < final(self).position <= old(self).vec.len(),
    {
        reveal(model_command_at);
        self.expect(".MODEL")?;
        let name = self.parse_name()?;
        let reference = self.parse_reference()?;
        let ty = self.parse_name()?;
        let params = self.parse_model_params()?;
        Ok(ModelCommand { name, reference, ty, params })
    }
}

impl TryParse<ModelCommand> for SpiceLineParser<'_> {
    open spec fn rule(ts: Seq<AtomView>, pos: nat) -> Outcome<ModelCommandView> {
        model_command_at(ts, pos)
    }

    fn try_parse(&mut self) -> (r: ParseResult<ModelCommand>) {
        self.parse_model_command()
    }
}

/// Guesses for the operating point: `.NODESET <V(<node>[,<node>])=<value>>*`
#[derive(Debug, Clone, PartialEq)]
pub struct NodeSetCommand {
    pub nodesets: Vec<Pairs<OutputVariable, Number>>,
}

/// Mathematical content of a [`NodeSetCommand`].
pub struct NodeSetCommandView {
    pub nodesets: Seq<PairsView<OutputVariableView, NumberView>>,
}

impl DeepView for NodeSetCommand {
    type V = NodeSetCommandView;

    open spec fn deep_view(&self) -> NodeSetCommandView {
        NodeSetCommandView {
            nodesets: self.nodesets.deep_view(),
        }
    }
}

/// The rule of [`NodeSetCommand`].
#[verifier::opaque]
pub open spec fn node_set_command_at(ts: Seq<AtomView>, pos: nat) -> Outcome<NodeSetCommandView> {
    match expect_at(ts, pos, ".NODESET"@) {
        (Ok(_), p1) => {
            match variable_value_list_at(ts, p1) {
                (Ok(nodesets), p2) => {
                    (Ok(NodeSetCommandView { nodesets }), p2)
                },
                (Err(e), p2) => (Err(e), p2),
            }
        },
        (Err(e), p1) => (Err(e), p1),
    }
}

impl<'a> SpiceLineParser<'a> {
    /// Parses a [`NodeSetCommand`].
    pub fn parse_node_set_command(&mut self) -> (r: ParseResult<NodeSetCommand>)
        ensures
            parsed(*old(self), *final(self), r, node_set_command_at(old(self).tokens(), old(self).cursor())),
            r is Ok ==> old(self).position < final(self).position <= old(self).vec.len(),
    {
        reveal(node_set_command_at);
        self.expect(".NODESET")?;
        let nodesets = self.parse_variable_value_list()?;
        Ok(NodeSetCommand { nodesets })
    }
}

impl TryParse<NodeSetCommand> for SpiceLineParser<'_> {
    open spec fn rule(ts: Seq<AtomView>, pos: nat) -> Outcome<NodeSetCommandView> {
        node_set_command_at(ts, pos)
    }

    fn try_parse(&mut self) -> (r: ParseResult<NodeSetCommand>) {
        self.parse_node_set_command()
    }
}

/// A noise analysis: `.NOISE <variable> <source> [<m>]`
#[derive(Debug, Clone, PartialEq)]
pub struct NoiseCommand {
    pub variable: OutputVariable,
    pub source: Name,
    pub m: Option<usize>,
}

/// Mathematical content of a [`NoiseCommand`].
pub struct NoiseCommandView {
    pub variable: OutputVariableView,
    pub source: AtomView,
    pub m: Option<usize>,
}

impl DeepView for NoiseCommand {
    type V = NoiseCommandView;

    open spec fn deep_view(&self) -> NoiseCommandView {
        NoiseCommandView {
            variable: self.variable.deep_view(),
            source: self.source.deep_view(),
            m: self.m.deep_view(),
        }
    }
}

/// The rule of [`NoiseCommand`].
#[verifier::opaque]
pub open spec fn noise_command_at(ts: Seq<AtomView>, pos: nat) -> Outcome<NoiseCommandView> {
    match expect_at(ts, pos, ".NOISE"@) {
        (Ok(_), p1) => {
            match output_variable_at(ts, p1) {
                (Ok(variable), p2) => {
                    match name_at(ts, p2) {
                        (Ok(source), p3) => {
                            match optional_count_at(ts, p3) {
                                (Ok(m), p4) => {
                                    (Ok(NoiseCommandView { variable, source, m }), p4)
                                },
                                (Err(e), p4) => (Err(e), p4),
                            }
                        },
                        (Err(e), p3) => (Err(e), p3),
                    }
                },
                (Err(e), p2) => (Err(e), p2),
            }
        },
        (Err(e), p1) => (Err(e), p1),
    }
}

impl<'a> SpiceLineParser<'a> {
    /// Parses a [`NoiseCommand`].
    pub fn parse_noise_command(&mut self) -> (r: ParseResult<NoiseCommand>)
        ensures
            parsed(*old(self), *final(self), r, noise_command_at(old(self).tokens(), old(self).cursor())),
            r is Ok ==> old(self).position < final(self).position <= old(self).vec.len(),
    {
        reveal(noise_command_at);
        self.expect(".NOISE")?;
        let variable = self.parse_output_variable()?;
        let source = self.parse_name()?;
        let m = self.parse_optional_count()?;
        Ok(NoiseCommand { variable, source, m })
    }
}

impl TryParse<NoiseCommand> for SpiceLineParser<'_> {
    open spec fn rule(ts: Seq<AtomView>, pos: nat) -> Outcome<NoiseCommandView> {
        noise_command_at(ts, pos)
    }

    fn try_parse(&mut self) -> (r: ParseResult<NoiseCommand>) {
        self.parse_noise_command()
    }
}

/// The operating point: `.OP`
#[derive(Debug, Clone, Copy, PartialEq, Eq, Structural)]
pub struct OpCommand {}

impl DeepView for OpCommand {
    type V = OpCommand;

    open spec fn deep_view(&self) -> OpCommand {
        *self
    }
}

/// The rule of [`OpCommand`].
#[verifier::opaque]
pub open spec fn op_command_at(ts: Seq<AtomView>, pos: nat) -> Outcome<OpCommand> {
    match expect_at(ts, pos, ".OP"@) {
        (Ok(_), p1) => {
            (Ok(OpCommand {}), p1)
        },
        (Err(e), p1) => (Err(e), p1),
    }
}

impl<'a> SpiceLineParser<'a> {
    /// Parses a [`OpCommand`].
    pub fn parse_op_command(&mut self) -> (r: ParseResult<OpCommand>)
        ensures
            parsed(*old(self), *final(self), r, op_command_at(old(self).tokens(), old(self).cursor())),
            r is Ok ==> old(self).position < final(self).position <= old(self).vec.len(),
    {
        reveal(op_command_at);
        self.expect(".OP")?;
        Ok(OpCommand {})
    }
}

impl TryParse<OpCommand> for SpiceLineParser<'_> {
    open spec fn rule(ts: Seq<AtomView>, pos: nat) -> Outcome<OpCommand> {
        op_command_at(ts, pos)
    }

    fn try_parse(&mut self) -> (r: ParseResult<OpCommand>) {
        self.parse_op_command()
    }
}

/// Options of the analysis: `.OPTIONS <option1> <option2> ...`
#[derive(Debug, Clone, PartialEq)]
pub struct OptionsCommand {
    pub options: Vec<Options<Number>>,
}

/// Mathematical content of a [`OptionsCommand`].
pub struct OptionsCommandView {
    pub options: Seq<OptionsView<NumberView>>,
}

impl DeepView for OptionsCommand {
    type V = OptionsCommandView;

    open spec fn deep_view(&self) -> OptionsCommandView {
        OptionsCommandView {
            options: self.options.deep_view(),
        }
    }
}

/// The rule of [`OptionsCommand`].
#[verifier::opaque]
pub open spec fn options_command_at(ts: Seq<AtomView>, pos: nat) -> Outcome<OptionsCommandView> {
    match expect_at(ts, pos, ".OPTIONS"@) {
        (Ok(_), p1) => {
            match option_number_list_at(ts, p1) {
                (Ok(options), p2) => {
                    (Ok(OptionsCommandView { options }), p2)
                },
                (Err(e), p2) => (Err(e), p2),
            }
        },
        (Err(e), p1) => (Err(e), p1),
    }
}

impl<'a> SpiceLineParser<'a> {
    /// Parses a [`OptionsCommand`].
    pub fn parse_options_command(&mut self) -> (r: ParseResult<OptionsCommand>)
        ensures
            parsed(*old(self), *final(self), r, options_command_at(old(self).tokens(), old(self).cursor())),
            r is Ok ==> old(self).position < final(self).position <= old(self).vec.len(),
    {
        reveal(options_command_at);
        self.expect(".OPTIONS")?;
        let options = self.parse_option_number_list()?;
        Ok(OptionsCommand { options })
    }
}

impl TryParse<OptionsCommand> for SpiceLineParser<'_> {
    open spec fn rule(ts: Seq<AtomView>, pos: nat) -> Outcome<OptionsCommandView> {
        options_command_at(ts, pos)
    }

    fn try_parse(&mut self) -> (r: ParseResult<OptionsCommand>) {
        self.parse_options_command()
    }
}

/// Global parameters: `.PARAM <param1> <param2> ...`
#[derive(Debug, Clone, PartialEq)]
pub struct ParamCommand {
    pub params: Vec<Param<Number>>,
}

/// Mathematical content of a [`ParamCommand`].
pub struct ParamCommandView {
    pub params: Seq<ParamView<NumberView>>,
}

impl DeepView for ParamCommand {
    type V = ParamCommandView;

    open spec fn deep_view(&self) -> ParamCommandView {
        ParamCommandView {
            params: self.params.deep_view(),
        }
    }
}

/// The rule of [`ParamCommand`].
#[verifier::opaque]
pub open spec fn param_command_at(ts: Seq<AtomView>, pos: nat) -> Outcome<ParamCommandView> {
    match expect_at(ts, pos, ".PARAM"@) {
        (Ok(_), p1) => {
            match param_number_list_at(ts, p1) {
                (Ok(params), p2) => {
                    (Ok(ParamCommandView { params }), p2)
                },
                (Err(e), p2) => (Err(e), p2),
            }
        },
        (Err(e), p1) => (Err(e), p1),
    }
}

impl<'a> SpiceLineParser<'a> {
    /// Parses a [`ParamCommand`].
    pub fn parse_param_command(&mut self) -> (r: ParseResult<ParamCommand>)
        ensures
            parsed(*old(self), *final(self), r, param_command_at(old(self).tokens(), old(self).cursor())),
            r is Ok ==> old(self).position < final(self).position <= old(self).vec.len(),
    {
        reveal(param_command_at);
        self.expect(".PARAM")?;
        let params = self.parse_param_number_list()?;
        Ok(ParamCommand { params })
    }
}

impl TryParse<ParamCommand> for SpiceLineParser<'_> {
    open spec fn rule(ts: Seq<AtomView>, pos: nat) -> Outcome<ParamCommandView> {
        param_command_at(ts, pos)
    }

    fn try_parse(&mut self) -> (r: ParseResult<ParamCommand>) {
        self.parse_param_command()
    }
}

/// The analysis whose results are reported.
#[derive(Debug, Clone, Copy, PartialEq, Eq, Structural)]
pub enum ProbeSource {
    /// transient
    Tran,
    /// DC sweep
    Dc,
    /// frequency response
    Ac,
    /// noise
    Noise,
}

impl DeepView for ProbeSource {
    type V = ProbeSource;

    open spec fn deep_view(&self) -> ProbeSource {
        *self
    }
}
/// The rule of [`ProbeSource`]: one of its keywords, in any letter case.
#[verifier::opaque]
pub open spec fn probe_source_at(ts: Seq<AtomView>, pos: nat) -> Outcome<ProbeSource> {
    if pos >= ts.len() {
        (Err(eof_error()), pos)
    } else if matches_at(ts, pos, "TRAN"@) {
        (Ok(ProbeSource::Tran), pos + 1)
    } else if matches_at(ts, pos, "DC"@) {
        (Ok(ProbeSource::Dc), pos + 1)
    } else if matches_at(ts, pos, "AC"@) {
        (Ok(ProbeSource::Ac), pos + 1)
    } else if matches_at(ts, pos, "NOISE"@) {
        (Ok(ProbeSource::Noise), pos + 1)
    } else {
        (
            Err(
                quoting_error(
                    "Unknown varient: '"@,
                    ts[pos as int].raw,
                    "', valid options are [\"TRAN\", \"DC\", \"AC\", \"NOISE\"]"@,
                    Some(ts[pos as int].place()),
                ),
            ),
            pos,
        )
    }
}

impl<'a> SpiceLineParser<'a> {
    /// Parses a [`ProbeSource`].
    pub fn parse_probe_source(&mut self) -> (r: ParseResult<ProbeSource>)
        ensures
            parsed(*old(self), *final(self), r, probe_source_at(old(self).tokens(), old(self).cursor())),
            r is Ok ==> old(self).position < final(self).position <= old(self).vec.len(),
    {
        reveal(probe_source_at);
        let token = self.token()?;
        if self.matches_consume("TRAN") {
            Ok(ProbeSource::Tran)
        } else if self.matches_consume("DC") {
            Ok(ProbeSource::Dc)
        } else if self.matches_consume("AC") {
            Ok(ProbeSource::Ac)
        } else if self.matches_consume("NOISE") {
            Ok(ProbeSource::Noise)
        } else {
            Err(
                ParseError::quoting(
                    "Unknown varient: '",
                    token.raw.as_str(),
                    "', valid options are [\"TRAN\", \"DC\", \"AC\", \"NOISE\"]",
                    Some(token.place()),
                ),
            )
        }
    }
}

impl TryParse<ProbeSource> for SpiceLineParser<'_> {
    open spec fn rule(ts: Seq<AtomView>, pos: nat) -> Outcome<ProbeSource> {
        probe_source_at(ts, pos)
    }

    fn try_parse(&mut self) -> (r: ParseResult<ProbeSource>) {
        self.parse_probe_source()
    }
}

/// A plot: `.PLOT <source> <var1> <var2> ...`
#[derive(Debug, Clone, PartialEq)]
pub struct PlotCommand {
    pub source: ProbeSource,
    pub variables: Vec<PrintVariable>,
}

/// Mathematical content of a [`PlotCommand`].
pub struct PlotCommandView {
    pub source: ProbeSource,
    pub variables: Seq<PrintVariableView>,
}

impl DeepView for PlotCommand {
    type V = PlotCommandView;

    open spec fn deep_view(&self) -> PlotCommandView {
        PlotCommandView {
            source: self.source.deep_view(),
            variables: self.variables.deep_view(),
        }
    }
}

/// The rule of [`PlotCommand`].
#[verifier::opaque]
pub open spec fn plot_command_at(ts: Seq<AtomView>, pos: nat) -> Outcome<PlotCommandView> {
    match expect_at(ts, pos, ".PLOT"@) {
        (Ok(_), p1) => {
            match probe_source_at(ts, p1) {
                (Ok(source), p2) => {
                    match print_variable_list_at(ts, p2) {
                        (Ok(variables), p3) => {
                            (Ok(PlotCommandView { source, variables }), p3)
                        },
                        (Err(e), p3) => (Err(e), p3),
                    }
                },
                (Err(e), p2) => (Err(e), p2),
            }
        },
        (Err(e), p1) => (Err(e), p1),
    }
}

impl<'a> SpiceLineParser<'a> {
    /// Parses a [`PlotCommand`].
    pub fn parse_plot_command(&mut self) -> (r: ParseResult<PlotCommand>)
        ensures
            parsed(*old(self), *final(self), r, plot_command_at(old(self).tokens(), old(self).cursor())),
            r is Ok ==> old(self).position < final(self).position <= old(self).vec.len(),
    {
        reveal(plot_command_at);
        self.expect(".PLOT")?;
        let source = self.parse_probe_source()?;
        let variables = self.parse_print_variable_list()?;
        Ok(PlotCommand { source, variables })
    }
}

impl TryParse<PlotCommand> for SpiceLineParser<'_> {
    open spec fn rule(ts: Seq<AtomView>, pos: nat) -> Outcome<PlotCommandView> {
        plot_command_at(ts, pos)
    }

    fn try_parse(&mut self) -> (r: ParseResult<PlotCommand>) {
        self.parse_plot_command()
    }
}

/// A table: `.PRINT[/DGTLCHG] <source> <var1> <var2> ...`
#[derive(Debug, Clone, PartialEq)]
pub struct PrintCommand {
    pub dgtlchg: bool,
    pub source: ProbeSource,
    pub variables: Vec<PrintVariable>,
}

/// Mathematical content of a [`PrintCommand`].
pub struct PrintCommandView {
    pub dgtlchg: bool,
    pub source: ProbeSource,
    pub variables: Seq<PrintVariableView>,
}

impl DeepView for PrintCommand {
    type V = PrintCommandView;

    open spec fn deep_view(&self) -> PrintCommandView {
        PrintCommandView {
            dgtlchg: self.dgtlchg,
            source: self.source.deep_view(),
            variables: self.variables.deep_view(),
        }
    }
}

/// The rule of [`PrintCommand`].
#[verifier::opaque]
pub open spec fn print_command_at(ts: Seq<AtomView>, pos: nat) -> Outcome<PrintCommandView> {
    match expect_at(ts, pos, ".PRINT"@) {
        (Ok(_), p1) => {
            if matches_at(ts, p1, "/"@) {
                match expect_at(ts, p1 + 1, "DGTLCHG"@) {
                    (Ok(_), p3) => {
                        let dgtlchg = true;
                        match probe_source_at(ts, p3) {
                            (Ok(source), p5) => {
                                match print_variable_list_at(ts, p5) {
                                    (Ok(variables), p6) => {
                                        (Ok(PrintCommandView { dgtlchg, source, variables }), p6)
                                    },
                                    (Err(e), p6) => (Err(e), p6),
                                }
                            },
                            (Err(e), p5) => (Err(e), p5),
                        }
                    },
                    (Err(e), p3) => (Err(e), p3),
                }
            } else {
                let dgtlchg = false;
                match probe_source_at(ts, p1) {
                    (Ok(source), p8) => {
                        match print_variable_list_at(ts, p8) {
                            (Ok(variables), p9) => {
                                (Ok(PrintCommandView { dgtlchg, source, variables }), p9)
                            },
                            (Err(e), p9) => (Err(e), p9),
                        }
                    },
                    (Err(e), p8) => (Err(e), p8),
                }
            }
        },
        (Err(e), p1) => (Err(e), p1),
    }
}

impl<'a> SpiceLineParser<'a> {
    /// Parses a [`PrintCommand`].
    pub fn parse_print_command(&mut self) -> (r: ParseResult<PrintCommand>)
        ensures
            parsed(*old(self), *final(self), r, print_command_at(old(self).tokens(), old(self).cursor())),
            r is Ok ==> old(self).position < final(self).position <= old(self).vec.len(),
    {
        reveal(print_command_at);
        self.expect(".PRINT")?;
        let dgtlchg = if self.matches_consume("/") {
            self.expect("DGTLCHG")?;
            true
        } else {
            false
        };
        let source = self.parse_probe_source()?;
        let variables = self.parse_print_variable_list()?;
        Ok(PrintCommand { dgtlchg, source, variables })
    }
}

impl TryParse<PrintCommand> for SpiceLineParser<'_> {
    open spec fn rule(ts: Seq<AtomView>, pos: nat) -> Outcome<PrintCommandView> {
        print_command_at(ts, pos)
    }

    fn try_parse(&mut self) -> (r: ParseResult<PrintCommand>) {
        self.parse_print_command()
    }
}

/// Data for the waveform viewer: `.PROBE[/CSDF] <output variable>*`
#[derive(Debug, Clone, PartialEq)]
pub struct ProbeCommand {
    pub csdf: bool,
    pub variables: Vec<PrintVariable>,
}

/// Mathematical content of a [`ProbeCommand`].
pub struct ProbeCommandView {
    pub csdf: bool,
    pub variables: Seq<PrintVariableView>,
}

impl DeepView for ProbeCommand {
    type V = ProbeCommandView;

    open spec fn deep_view(&self) -> ProbeCommandView {
        ProbeCommandView {
            csdf: self.csdf,
            variables: self.variables.deep_view(),
        }
    }
}

/// The rule of [`ProbeCommand`].
#[verifier::opaque]
pub open spec fn probe_command_at(ts: Seq<AtomView>, pos: nat) -> Outcome<ProbeCommandView> {
    match expect_at(ts, pos, ".PROBE"@) {
        (Ok(_), p1) => {
            if matches_at(ts, p1, "/"@) {
                match expect_at(ts, p1 + 1, "CSDF"@) {
                    (Ok(_), p3) => {
                        let csdf = true;
                        match print_variable_list_at(ts, p3) {
                            (Ok(variables), p5) => {
                                (Ok(ProbeCommandView { csdf, variables }), p5)
                            },
                            (Err(e), p5) => (Err(e), p5),
                        }
                    },
                    (Err(e), p3) => (Err(e), p3),
                }
            } else {
                let csdf = false;
                match print_variable_list_at(ts, p1) {
                    (Ok(variables), p7) => {
                        (Ok(ProbeCommandView { csdf, variables }), p7)
                    },
                    (Err(e), p7) => (Err(e), p7),
                }
            }
        },
        (Err(e), p1) => (Err(e), p1),
    }
}

impl<'a> SpiceLineParser<'a> {
    /// Parses a [`ProbeCommand`].
    pub fn parse_probe_command(&mut self) -> (r: ParseResult<ProbeCommand>)
        ensures
            parsed(*old(self), *final(self), r, probe_command_at(old(self).tokens(), old(self).cursor())),
            r is Ok ==> old(self).position < final(self).position <= old(self).vec.len(),
    {
        reveal(probe_command_at);
        self.expect(".PROBE")?;
        let csdf = if self.matches_consume("/") {
            self.expect("CSDF")?;
            true
        } else {
            false
        };
        let variables = self.parse_print_variable_list()?;
        Ok(ProbeCommand { csdf, variables })
    }
}

impl TryParse<ProbeCommand> for SpiceLineParser<'_> {
    open spec fn rule(ts: Seq<AtomView>, pos: nat) -> Outcome<ProbeCommandView> {
        probe_command_at(ts, pos)
    }

    fn try_parse(&mut self) -> (r: ParseResult<ProbeCommand>) {
        self.parse_probe_command()
    }
}

/// A sensitivity analysis: `.SENS <output variable>*`
#[derive(Debug, Clone, PartialEq)]
pub struct SensCommand {
    pub variables: Vec<OutputVariable>,
}

/// Mathematical content of a [`SensCommand`].
pub struct SensCommandView {
    pub variables: Seq<OutputVariableView>,
}

impl DeepView for SensCommand {
    type V = SensCommandView;

    open spec fn deep_view(&self) -> SensCommandView {
        SensCommandView {
            variables: self.variables.deep_view(),
        }
    }
}

/// The rule of [`SensCommand`].
#[verifier::opaque]
pub open spec fn sens_command_at(ts: Seq<AtomView>, pos: nat) -> Outcome<SensCommandView> {
    match expect_at(ts, pos, ".SENS"@) {
        (Ok(_), p1) => {
            match output_variable_list_at(ts, p1) {
                (Ok(variables), p2) => {
                    (Ok(SensCommandView { variables }), p2)
                },
                (Err(e), p2) => (Err(e), p2),
            }
        },
        (Err(e), p1) => (Err(e), p1),
    }
}

impl<'a> SpiceLineParser<'a> {
    /// Parses a [`SensCommand`].
    pub fn parse_sens_command(&mut self) -> (r: ParseResult<SensCommand>)
        ensures
            parsed(*old(self), *final(self), r, sens_command_at(old(self).tokens(), old(self).cursor())),
            r is Ok ==> old(self).position < final(self).position <= old(self).vec.len(),
    {
        reveal(sens_command_at);
        self.expect(".SENS")?;
        let variables = self.parse_output_variable_list()?;
        Ok(SensCommand { variables })
    }
}

impl TryParse<SensCommand> for SpiceLineParser<'_> {
    open spec fn rule(ts: Seq<AtomView>, pos: nat) -> Outcome<SensCommandView> {
        sens_command_at(ts, pos)
    }

    fn try_parse(&mut self) -> (r: ParseResult<SensCommand>) {
        self.parse_sens_command()
    }
}

/// A parametric analysis: `.STEP <sweep1> <sweep2> ...`
#[derive(Debug, Clone, PartialEq)]
pub struct StepCommand {
    pub sweeps: Vec<Sweep>,
}

/// Mathematical content of a [`StepCommand`].
pub struct StepCommandView {
    pub sweeps: Seq<SweepView>,
}

impl DeepView for StepCommand {
    type V = StepCommandView;

    open spec fn deep_view(&self) -> StepCommandView {
        StepCommandView {
            sweeps: self.sweeps.deep_view(),
        }
    }
}

/// The rule of [`StepCommand`].
#[verifier::opaque]
pub open spec fn step_command_at(ts: Seq<AtomView>, pos: nat) -> Outcome<StepCommandView> {
    match expect_at(ts, pos, ".STEP"@) {
        (Ok(_), p1) => {
            match sweep_list_at(ts, p1) {
                (Ok(sweeps), p2) => {
                    (Ok(StepCommandView { sweeps }), p2)
                },
                (Err(e), p2) => (Err(e), p2),
            }
        },
        (Err(e), p1) => (Err(e), p1),
    }
}

impl<'a> SpiceLineParser<'a> {
    /// Parses a [`StepCommand`].
    pub fn parse_step_command(&mut self) -> (r: ParseResult<StepCommand>)
        ensures
            parsed(*old(self), *final(self), r, step_command_at(old(self).tokens(), old(self).cursor())),
            r is Ok ==> old(self).position < final(self).position <= old(self).vec.len(),
    {
        reveal(step_command_at);
        self.expect(".STEP")?;
        let sweeps = self.parse_sweep_list()?;
        Ok(StepCommand { sweeps })
    }
}

impl TryParse<StepCommand> for SpiceLineParser<'_> {
    open spec fn rule(ts: Seq<AtomView>, pos: nat) -> Outcome<StepCommandView> {
        step_command_at(ts, pos)
    }

    fn try_parse(&mut self) -> (r: ParseResult<StepCommand>) {
        self.parse_step_command()
    }
}

/// The end of a subcircuit: `.ENDS [<name>]`
#[derive(Debug, Clone, PartialEq)]
pub struct EndsCommand {
    pub name: Option<Name>,
}

/// Mathematical content of a [`EndsCommand`].
pub struct EndsCommandView {
    pub name: Option<AtomView>,
}

impl DeepView for EndsCommand {
    type V = EndsCommandView;

    open spec fn deep_view(&self) -> EndsCommandView {
        EndsCommandView {
            name: self.name.deep_view(),
        }
    }
}

/// The rule of [`EndsCommand`].
#[verifier::opaque]
pub open spec fn ends_command_at(ts: Seq<AtomView>, pos: nat) -> Outcome<EndsCommandView> {
    match expect_at(ts, pos, ".ENDS"@) {
        (Ok(_), p1) => {
            match optional_name_at(ts, p1) {
                (Ok(name), p2) => {
                    (Ok(EndsCommandView { name }), p2)
                },
                (Err(e), p2) => (Err(e), p2),
            }
        },
        (Err(e), p1) => (Err(e), p1),
    }
}

impl<'a> SpiceLineParser<'a> {
    /// Parses a [`EndsCommand`].
    pub fn parse_ends_command(&mut self) -> (r: ParseResult<EndsCommand>)
        ensures
            parsed(*old(self), *final(self), r, ends_command_at(old(self).tokens(), old(self).cursor())),
            r is Ok ==> old(self).position < final(self).position <= old(self).vec.len(),
    {
        reveal(ends_command_at);
        self.expect(".ENDS")?;
        let name = self.parse_optional_name()?;
        Ok(EndsCommand { name })
    }
}

impl TryParse<EndsCommand> for SpiceLineParser<'_> {
    open spec fn rule(ts: Seq<AtomView>, pos: nat) -> Outcome<EndsCommandView> {
        ends_command_at(ts, pos)
    }

    fn try_parse(&mut self) -> (r: ParseResult<EndsCommand>) {
        self.parse_ends_command()
    }
}

/// Temperatures: `.TEMP <temperature value>*`
#[derive(Debug, Clone, PartialEq)]
pub struct TempCommand {
    pub temps: Vec<Number>,
}

/// Mathematical content of a [`TempCommand`].
pub struct TempCommandView {
    pub temps: Seq<NumberView>,
}

impl DeepView for TempCommand {
    type V = TempCommandView;

    open spec fn deep_view(&self) -> TempCommandView {
        TempCommandView {
            temps: self.temps.deep_view(),
        }
    }
}

/// The rule of [`TempCommand`].
#[verifier::opaque]
pub open spec fn temp_command_at(ts: Seq<AtomView>, pos: nat) -> Outcome<TempCommandView> {
    match expect_at(ts, pos, ".TEMP"@) {
        (Ok(_), p1) => {
            match number_list_at(ts, p1) {
                (Ok(temps), p2) => {
                    (Ok(TempCommandView { temps }), p2)
                },
                (Err(e), p2) => (Err(e), p2),
            }
        },
        (Err(e), p1) => (Err(e), p1),
    }
}

impl<'a> SpiceLineParser<'a> {
    /// Parses a [`TempCommand`].
    pub fn parse_temp_command(&mut self) -> (r: ParseResult<TempCommand>)
        ensures
            parsed(*old(self), *final(self), r, temp_command_at(old(self).tokens(), old(self).cursor())),
            r is Ok ==> old(self).position < final(self).position <= old(self).vec.len(),
    {
        reveal(temp_command_at);
        self.expect(".TEMP")?;
        let temps = self.parse_number_list()?;
        Ok(TempCommand { temps })
    }
}

impl TryParse<TempCommand> for SpiceLineParser<'_> {
    open spec fn rule(ts: Seq<AtomView>, pos: nat) -> Outcome<TempCommandView> {
        temp_command_at(ts, pos)
    }

    fn try_parse(&mut self) -> (r: ParseResult<TempCommand>) {
        self.parse_temp_command()
    }
}

/// Text parameters: `.TEXT < <name> = "<text value>" >*`
#[derive(Debug, Clone, PartialEq)]
pub struct TextCommand {
    pub texts: Vec<Param<Text>>,
}

/// Mathematical content of a [`TextCommand`].
pub struct TextCommandView {
    pub texts: Seq<ParamView<AtomView>>,
}

impl DeepView for TextCommand {
    type V = TextCommandView;

    open spec fn deep_view(&self) -> TextCommandView {
        TextCommandView {
            texts: self.texts.deep_view(),
        }
    }
}

/// The rule of [`TextCommand`].
#[verifier::opaque]
pub open spec fn text_command_at(ts: Seq<AtomView>, pos: nat) -> Outcome<TextCommandView> {
    match expect_at(ts, pos, ".TEXT"@) {
        (Ok(_), p1) => {
            match param_text_list_at(ts, p1) {
                (Ok(texts), p2) => {
                    (Ok(TextCommandView { texts }), p2)
                },
                (Err(e), p2) => (Err(e), p2),
            }
        },
        (Err(e), p1) => (Err(e), p1),
    }
}

impl<'a> SpiceLineParser<'a> {
    /// Parses a [`TextCommand`].
    pub fn parse_text_command(&mut self) -> (r: ParseResult<TextCommand>)
        ensures
            parsed(*old(self), *final(self), r, text_command_at(old(self).tokens(), old(self).cursor())),
            r is Ok ==> old(self).position < final(self).position <= old(self).vec.len(),
    {
        reveal(text_command_at);
        self.expect(".TEXT")?;
        let texts = self.parse_param_text_list()?;
        Ok(TextCommand { texts })
    }
}

impl TryParse<TextCommand> for SpiceLineParser<'_> {
    open spec fn rule(ts: Seq<AtomView>, pos: nat) -> Outcome<TextCommandView> {
        text_command_at(ts, pos)
    }

    fn try_parse(&mut self) -> (r: ParseResult<TextCommand>) {
        self.parse_text_command()
    }
}

/// A transfer function: `.TF <output variable> <input source name>`
#[derive(Debug, Clone, PartialEq)]
pub struct TfCommand {
    pub output: OutputVariable,
    pub input: Name,
}

/// Mathematical content of a [`TfCommand`].
pub struct TfCommandView {
    pub output: OutputVariableView,
    pub input: AtomView,
}

impl DeepView for TfCommand {
    type V = TfCommandView;

    open spec fn deep_view(&self) -> TfCommandView {
        TfCommandView {
            output: self.output.deep_view(),
            input: self.input.deep_view(),
        }
    }
}

/// The rule of [`TfCommand`].
#[verifier::opaque]
pub open spec fn tf_command_at(ts: Seq<AtomView>, pos: nat) -> Outcome<TfCommandView> {
    match expect_at(ts, pos, ".TF"@) {
        (Ok(_), p1) => {
            match output_variable_at(ts, p1) {
                (Ok(output), p2) => {
                    match name_at(ts, p2) {
                        (Ok(input), p3) => {
                            (Ok(TfCommandView { output, input }), p3)
                        },
                        (Err(e), p3) => (Err(e), p3),
                    }
                },
                (Err(e), p2) => (Err(e), p2),
            }
        },
        (Err(e), p1) => (Err(e), p1),
    }
}

impl<'a> SpiceLineParser<'a> {
    /// Parses a [`TfCommand`].
    pub fn parse_tf_command(&mut self) -> (r: ParseResult<TfCommand>)
        ensures
            parsed(*old(self), *final(self), r, tf_command_at(old(self).tokens(), old(self).cursor())),
            r is Ok ==> old(self).position < final(self).position <= old(self).vec.len(),
    {
        reveal(tf_command_at);
        self.expect(".TF")?;
        let output = self.parse_output_variable()?;
        let input = self.parse_name()?;
        Ok(TfCommand { output, input })
    }
}

impl TryParse<TfCommand> for SpiceLineParser<'_> {
    open spec fn rule(ts: Seq<AtomView>, pos: nat) -> Outcome<TfCommandView> {
        tf_command_at(ts, pos)
    }

    fn try_parse(&mut self) -> (r: ParseResult<TfCommand>) {
        self.parse_tf_command()
    }
}

/// The flags of a transient analysis.
#[derive(Debug, Clone, PartialEq)]
pub struct TranCommandParams {
    pub uic: bool,
    pub skipbp: bool,
}

/// Mathematical content of a [`TranCommandParams`].
pub struct TranCommandParamsView {
    pub uic: bool,
    pub skipbp: bool,
}

impl DeepView for TranCommandParams {
    type V = TranCommandParamsView;

    open spec fn deep_view(&self) -> TranCommandParamsView {
        TranCommandParamsView {
            uic: self.uic,
            skipbp: self.skipbp,
        }
    }
}

impl TranCommandParamsView {
    /// No parameter given.
    pub open spec fn none() -> TranCommandParamsView {
        TranCommandParamsView { uic: false, skipbp: false }
    }
}

/// The parameters from `pos` on, added to `acc`: a later value of a
/// parameter replaces an earlier one, and the first token that names no
/// parameter ends the record.
pub open spec fn tran_command_params_from(ts: Seq<AtomView>, pos: nat, acc: TranCommandParamsView) -> Outcome<TranCommandParamsView>
    decreases tokens_left(ts, pos),
{
    if pos >= ts.len() {
        (Ok(acc), pos)
    } else if matches_at(ts, pos, "UIC"@) {
        tran_command_params_from(ts, pos + 1, TranCommandParamsView { uic: true, ..acc })
    } else if matches_at(ts, pos, "SKIPBP"@) {
        tran_command_params_from(ts, pos + 1, TranCommandParamsView { skipbp: true, ..acc })
    } else {
        (Ok(acc), pos)
    }
}

/// The rule of [`TranCommandParams`].
#[verifier::opaque]
pub open spec fn tran_command_params_at(ts: Seq<AtomView>, pos: nat) -> Outcome<TranCommandParamsView> {
    tran_command_params_from(ts, pos, TranCommandParamsView::none())
}

impl<'a> SpiceLineParser<'a> {
    /// Parses a [`TranCommandParams`].
    pub fn parse_tran_command_params(&mut self) -> (r: ParseResult<TranCommandParams>)
        ensures
            parsed(*old(self), *final(self), r, tran_command_params_at(old(self).tokens(), old(self).cursor())),
            r is Ok && old(self).position <= old(self).vec.len() ==> final(self).position <= old(self).vec.len(),
    {
        reveal(tran_command_params_at);
        let ghost goal = tran_command_params_at(self.tokens(), self.cursor());
        let mut uic: bool = false;
        let mut skipbp: bool = false;
        loop
            invariant
                self.vec == old(self).vec,
                old(self).position <= self.position,
                old(self).position <= old(self).vec.len() ==> self.position <= self.vec.len(),
                goal == tran_command_params_at(old(self).tokens(), old(self).cursor()),
                goal == tran_command_params_from(self.tokens(), self.cursor(), TranCommandParamsView { uic: uic, skipbp: skipbp }),
            decreases self.remaining(),
        {
            reveal(tran_command_params_at);
            if self.matches_consume("UIC") {
                uic = true;
            } else if self.matches_consume("SKIPBP") {
                skipbp = true;
            } else {
                return Ok(TranCommandParams { uic, skipbp });
            }
        }
    }
}

impl TryParse<TranCommandParams> for SpiceLineParser<'_> {
    open spec fn rule(ts: Seq<AtomView>, pos: nat) -> Outcome<TranCommandParamsView> {
        tran_command_params_at(ts, pos)
    }

    fn try_parse(&mut self) -> (r: ParseResult<TranCommandParams>) {
        self.parse_tran_command_params()
    }
}

/// A transient analysis:
/// `.TRAN[/OP] <tstep> <tstop> [<tstart>] [<tmax>] [UIC] [SKIPBP]`
#[derive(Debug, Clone, PartialEq)]
pub struct TranCommand {
    pub op: bool,
    pub tstep: Number,
    pub tstop: Number,
    pub tstart: Option<Number>,
    pub tmax: Option<Number>,
    pub params: TranCommandParams,
}

/// Mathematical content of a [`TranCommand`].
pub struct TranCommandView {
    pub op: bool,
    pub tstep: NumberView,
    pub tstop: NumberView,
    pub tstart: Option<NumberView>,
    pub tmax: Option<NumberView>,
    pub params: TranCommandParamsView,
}

impl DeepView for TranCommand {
    type V = TranCommandView;

    open spec fn deep_view(&self) -> TranCommandView {
        TranCommandView {
            op: self.op,
            tstep: self.tstep.deep_view(),
            tstop: self.tstop.deep_view(),
            tstart: self.tstart.deep_view(),
            tmax: self.tmax.deep_view(),
            params: self.params.deep_view(),
        }
    }
}

/// The rule of [`TranCommand`].
#[verifier::opaque]
pub open spec fn tran_command_at(ts: Seq<AtomView>, pos: nat) -> Outcome<TranCommandView> {
    match expect_at(ts, pos, ".TRAN"@) {
        (Ok(_), p1) => {
            if matches_at(ts, p1, "/"@) {
                match expect_at(ts, p1 + 1, "OP"@) {
                    (Ok(_), p3) => {
                        let op = true;
                        match number_at(ts, p3) {
                            (Ok(tstep), p5) => {
                                match number_at(ts, p5) {
                                    (Ok(tstop), p6) => {
                                        match optional_number_at(ts, p6) {
                                            (Ok(tstart), p7) => {
                                                match optional_number_at(ts, p7) {
                                                    (Ok(tmax), p8) => {
                                                        match tran_command_params_at(ts, p8) {
                                                            (Ok(params), p9) => {
                                                                (Ok(TranCommandView { op, tstep, tstop, tstart, tmax, params }), p9)
                                                            },
                                                            (Err(e), p9) => (Err(e), p9),
                                                        }
                                                    },
                                                    (Err(e), p8) => (Err(e), p8),
                                                }
                                            },
                                            (Err(e), p7) => (Err(e), p7),
                                        }
                                    },
                                    (Err(e), p6) => (Err(e), p6),
                                }
                            },
                            (Err(e), p5) => (Err(e), p5),
                        }
                    },
                    (Err(e), p3) => (Err(e), p3),
                }
            } else {
                let op = false;
                match number_at(ts, p1) {
                    (Ok(tstep), p11) => {
                        match number_at(ts, p11) {
                            (Ok(tstop), p12) => {
                                match optional_number_at(ts, p12) {
                                    (Ok(tstart), p13) => {
                                        match optional_number_at(ts, p13) {
                                            (Ok(tmax), p14) => {
                                                match tran_command_params_at(ts, p14) {
                                                    (Ok(params), p15) => {
                                                        (Ok(TranCommandView { op, tstep, tstop, tstart, tmax, params }), p15)
                                                    },
                                                    (Err(e), p15) => (Err(e), p15),
                                                }
                                            },
                                            (Err(e), p14) => (Err(e), p14),
                                        }
                                    },
                                    (Err(e), p13) => (Err(e), p13),
                                }
                            },
                            (Err(e), p12) => (Err(e), p12),
                        }
                    },
                    (Err(e), p11) => (Err(e), p11),
                }
            }
        },
        (Err(e), p1) => (Err(e), p1),
    }
}

impl<'a> SpiceLineParser<'a> {
    /// Parses a [`TranCommand`].
    pub fn parse_tran_command(&mut self) -> (r: ParseResult<TranCommand>)
        ensures
            parsed(*old(self), *final(self), r, tran_command_at(old(self).tokens(), old(self).cursor())),
            r is Ok ==> old(self).position < final(self).position <= old(self).vec.len(),
    {
        reveal(tran_command_at);
        self.expect(".TRAN")?;
        let op = if self.matches_consume("/") {
            self.expect("OP")?;
            true
        } else {
            false
        };
        let tstep = self.parse_number()?;
        let tstop = self.parse_number()?;
        let tstart = self.parse_optional_number()?;
        let tmax = self.parse_optional_number()?;
        let params = self.parse_tran_command_params()?;
        Ok(TranCommand { op, tstep, tstop, tstart, tmax, params })
    }
}

impl TryParse<TranCommand> for SpiceLineParser<'_> {
    open spec fn rule(ts: Seq<AtomView>, pos: nat) -> Outcome<TranCommandView> {
        tran_command_at(ts, pos)
    }

    fn try_parse(&mut self) -> (r: ParseResult<TranCommand>) {
        self.parse_tran_command()
    }
}

/// Values to watch: `.WATCH <source> <var1> <var2> ...`
#[derive(Debug, Clone, PartialEq)]
pub struct WatchCommand {
    pub source: ProbeSource,
    pub variables: Vec<PrintVariable>,
}

/// Mathematical content of a [`WatchCommand`].
pub struct WatchCommandView {
    pub source: ProbeSource,
    pub variables: Seq<PrintVariableView>,
}

impl DeepView for WatchCommand {
    type V = WatchCommandView;

    open spec fn deep_view(&self) -> WatchCommandView {
        WatchCommandView {
            source: self.source.deep_view(),
            variables: self.variables.deep_view(),
        }
    }
}

/// The rule of [`WatchCommand`].
#[verifier::opaque]
pub open spec fn watch_command_at(ts: Seq<AtomView>, pos: nat) -> Outcome<WatchCommandView> {
    match expect_at(ts, pos, ".WATCH"@) {
        (Ok(_), p1) => {
            match probe_source_at(ts, p1) {
                (Ok(source), p2) => {
                    match print_variable_list_at(ts, p2) {
                        (Ok(variables), p3) => {
                            (Ok(WatchCommandView { source, variables }), p3)
                        },
                        (Err(e), p3) => (Err(e), p3),
                    }
                },
                (Err(e), p2) => (Err(e), p2),
            }
        },
        (Err(e), p1) => (Err(e), p1),
    }
}

impl<'a> SpiceLineParser<'a> {
    /// Parses a [`WatchCommand`].
    pub fn parse_watch_command(&mut self) -> (r: ParseResult<WatchCommand>)
        ensures
            parsed(*old(self), *final(self), r, watch_command_at(old(self).tokens(), old(self).cursor())),
            r is Ok ==> old(self).position < final(self).position <= old(self).vec.len(),
    {
        reveal(watch_command_at);
        self.expect(".WATCH")?;
        let source = self.parse_probe_source()?;
        let variables = self.parse_print_variable_list()?;
        Ok(WatchCommand { source, variables })
    }
}

impl TryParse<WatchCommand> for SpiceLineParser<'_> {
    open spec fn rule(ts: Seq<AtomView>, pos: nat) -> Outcome<WatchCommandView> {
        watch_command_at(ts, pos)
    }

    fn try_parse(&mut self) -> (r: ParseResult<WatchCommand>) {
        self.parse_watch_command()
    }
}

/// The width of the output: `.WIDTH OUT=<value>`
#[derive(Debug, Clone, PartialEq)]
pub struct WidthCommand {
    pub width: Number,
}

/// Mathematical content of a [`WidthCommand`].
pub struct WidthCommandView {
    pub width: NumberView,
}

impl DeepView for WidthCommand {
    type V = WidthCommandView;

    open spec fn deep_view(&self) -> WidthCommandView {
        WidthCommandView {
            width: self.width.deep_view(),
        }
    }
}

/// The rule of [`WidthCommand`].
#[verifier::opaque]
pub open spec fn width_command_at(ts: Seq<AtomView>, pos: nat) -> Outcome<WidthCommandView> {
    match expect_at(ts, pos, ".WIDTH"@) {
        (Ok(_), p1) => {
            match expect_at(ts, p1, "OUT"@) {
                (Ok(_), p2) => {
                    match expect_at(ts, p2, "="@) {
                        (Ok(_), p3) => {
                            match number_at(ts, p3) {
                                (Ok(width), p4) => {
                                    (Ok(WidthCommandView { width }), p4)
                                },
                                (Err(e), p4) => (Err(e), p4),
                            }
                        },
                        (Err(e), p3) => (Err(e), p3),
                    }
                },
                (Err(e), p2) => (Err(e), p2),
            }
        },
        (Err(e), p1) => (Err(e), p1),
    }
}

impl<'a> SpiceLineParser<'a> {
    /// Parses a [`WidthCommand`].
    pub fn parse_width_command(&mut self) -> (r: ParseResult<WidthCommand>)
        ensures
            parsed(*old(self), *final(self), r, width_command_at(old(self).tokens(), old(self).cursor())),
            r is Ok ==> old(self).position < final(self).position <= old(self).vec.len(),
    {
        reveal(width_command_at);
        self.expect(".WIDTH")?;
        self.expect("OUT")?;
        self.expect("=")?;
        let width = self.parse_number()?;
        Ok(WidthCommand { width })
    }
}

impl TryParse<WidthCommand> for SpiceLineParser<'_> {
    open spec fn rule(ts: Seq<AtomView>, pos: nat) -> Outcome<WidthCommandView> {
        width_command_at(ts, pos)
    }

    fn try_parse(&mut self) -> (r: ParseResult<WidthCommand>) {
        self.parse_width_command()
    }
}

/// The pins of a subcircuit: nodes up to `OPTIONAL`, `PARAM`, `TEXT` or the end of the line.
pub open spec fn subckt_pins_from(ts: Seq<AtomView>, pos: nat, acc: Seq<AtomView>) -> Outcome<Seq<AtomView>>
    decreases tokens_left(ts, pos),
{
    if pos >= ts.len() || matches_at(ts, pos, "OPTIONAL"@) || matches_at(ts, pos, "PARAM"@) || matches_at(ts, pos, "TEXT"@) {
        (Ok(acc), pos)
    } else {
        match node_at(ts, pos) {
            (Ok(v), p) => if pos < p {
                subckt_pins_from(ts, p, acc.push(v))
            } else {
                (Ok(acc), pos)
            },
            (Err(e), p) => (Err(e), p),
        }
    }
}

/// The pins of a subcircuit: nodes up to `OPTIONAL`, `PARAM`, `TEXT` or the end of the line.
#[verifier::opaque]
pub open spec fn subckt_pins_at(ts: Seq<AtomView>, pos: nat) -> Outcome<Seq<AtomView>> {
    subckt_pins_from(ts, pos, Seq::empty())
}

impl<'a> SpiceLineParser<'a> {
    /// The pins of a subcircuit: nodes up to `OPTIONAL`, `PARAM`, `TEXT` or the end of the line.
    pub fn parse_subckt_pins(&mut self) -> (r: ParseResult<Vec<Node>>)
        ensures
            parsed(*old(self), *final(self), r, subckt_pins_at(old(self).tokens(), old(self).cursor())),
            r is Ok && old(self).position <= old(self).vec.len() ==> final(self).position <= old(self).vec.len(),
    {
        reveal(subckt_pins_at);
        let ghost goal = subckt_pins_at(self.tokens(), self.cursor());
        let mut values: Vec<Node> = Vec::new();
        assert(values.deep_view() =~= Seq::empty());
        loop
            invariant
                self.vec == old(self).vec,
                old(self).position <= self.position,
                old(self).position <= old(self).vec.len() ==> self.position <= self.vec.len(),
                goal == subckt_pins_at(old(self).tokens(), old(self).cursor()),
                goal == subckt_pins_from(self.tokens(), self.cursor(), values.deep_view()),
            decreases self.remaining(),
        {
            reveal(subckt_pins_at);
            if self.is_eof() || self.matches("OPTIONAL") || self.matches("PARAM") || self.matches("TEXT") {
                return Ok(values);
            }
            let ghost before = values.deep_view();
            let value = self.parse_node()?;
            values.push(value);
            assert(values.deep_view() =~= before.push(value.deep_view()));
        }
    }
}

/// The optional pins of a subcircuit, each with its default, up to `PARAM`, `TEXT` or the end of the line.
pub open spec fn subckt_optionals_from(ts: Seq<AtomView>, pos: nat, acc: Seq<PairsView<AtomView, AtomView>>) -> Outcome<Seq<PairsView<AtomView, AtomView>>>
    decreases tokens_left(ts, pos),
{
    if pos >= ts.len() || matches_at(ts, pos, "PARAM"@) || matches_at(ts, pos, "TEXT"@) {
        (Ok(acc), pos)
    } else {
        match node_default_at(ts, pos) {
            (Ok(v), p) => if pos < p {
                subckt_optionals_from(ts, p, acc.push(v))
            } else {
                (Ok(acc), pos)
            },
            (Err(e), p) => (Err(e), p),
        }
    }
}

/// The optional pins of a subcircuit, each with its default, up to `PARAM`, `TEXT` or the end of the line.
#[verifier::opaque]
pub open spec fn subckt_optionals_at(ts: Seq<AtomView>, pos: nat) -> Outcome<Seq<PairsView<AtomView, AtomView>>> {
    subckt_optionals_from(ts, pos, Seq::empty())
}

impl<'a> SpiceLineParser<'a> {
    /// The optional pins of a subcircuit, each with its default, up to `PARAM`, `TEXT` or the end of the line.
    pub fn parse_subckt_optionals(&mut self) -> (r: ParseResult<Vec<Pairs<Node, Node>>>)
        ensures
            parsed(*old(self), *final(self), r, subckt_optionals_at(old(self).tokens(), old(self).cursor())),
            r is Ok && old(self).position <= old(self).vec.len() ==> final(self).position <= old(self).vec.len(),
    {
        reveal(subckt_optionals_at);
        let ghost goal = subckt_optionals_at(self.tokens(), self.cursor());
        let mut values: Vec<Pairs<Node, Node>> = Vec::new();
        assert(values.deep_view() =~= Seq::empty());
        loop
            invariant
                self.vec == old(self).vec,
                old(self).position <= self.position,
                old(self).position <= old(self).vec.len() ==> self.position <= self.vec.len(),
                goal == subckt_optionals_at(old(self).tokens(), old(self).cursor()),
                goal == subckt_optionals_from(self.tokens(), self.cursor(), values.deep_view()),
            decreases self.remaining(),
        {
            reveal(subckt_optionals_at);
            if self.is_eof() || self.matches("PARAM") || self.matches("TEXT") {
                return Ok(values);
            }
            let ghost before = values.deep_view();
            let value = self.parse_node_default()?;
            values.push(value);
            assert(values.deep_view() =~= before.push(value.deep_view()));
        }
    }
}

/// One instruction of a program: a command or a component.
#[derive(Debug, PartialEq)]
pub enum Instruction {
    Command(Command),
    Component(Component),
}

/// A subcircuit:
/// `.SUBCKT <name> [node]* [OPTIONAL: < <interface node> = <default value> >*] [PARAM: < <name> = <value> >* ] [TEXT: < <name> = <text value> >* ]`
/// Its instructions are the lines up to the `.ENDS` that closes it.
#[derive(Debug, PartialEq)]
pub struct SubcktCommand {
    pub name: Name,
    pub pins: Vec<Node>,
    pub optionals: Vec<Pairs<Node, Node>>,
    pub params: Vec<Param<Number>>,
    pub texts: Vec<Param<Text>>,
    pub instructions: Vec<Instruction>,
}

/// A command: a line that begins with a dot.
#[derive(Debug, PartialEq)]
pub enum Command {
    Ac(AcCommand),
    Dc(DcCommand),
    End(EndCommand),
    Four(FourCommand),
    Func(FuncCommand),
    Global(GlobalCommand),
    Ic(IcCommand),
    Inc(IncCommand),
    Lib(LibCommand),
    Mc(McCommand),
    Model(ModelCommand),
    NodeSet(NodeSetCommand),
    Noise(NoiseCommand),
    Op(OpCommand),
    Options(OptionsCommand),
    Param(ParamCommand),
    Plot(PlotCommand),
    Print(PrintCommand),
    Probe(ProbeCommand),
    Sens(SensCommand),
    Step(StepCommand),
    Subckt(SubcktCommand),
    Ends(EndsCommand),
    Temp(TempCommand),
    Text(TextCommand),
    Tf(TfCommand),
    Tran(TranCommand),
    Watch(WatchCommand),
    Width(WidthCommand),
}

/// A program: the instructions of a source text, those of a subcircuit
/// within its `.SUBCKT` command.
#[derive(Debug, Clone, PartialEq)]
pub struct Program {
    pub name: Option<Name>,
    pub instructions: Vec<Instruction>,
}

/// Mathematical content of an [`Instruction`].
pub enum InstructionView {
    Command(CommandView),
    Component(ComponentView),
}

/// Mathematical content of a [`SubcktCommand`].
pub struct SubcktCommandView {
    pub name: AtomView,
    pub pins: Seq<AtomView>,
    pub optionals: Seq<PairsView<AtomView, AtomView>>,
    pub params: Seq<ParamView<NumberView>>,
    pub texts: Seq<ParamView<AtomView>>,
    pub instructions: Seq<InstructionView>,
}

/// Mathematical content of a [`Command`].
pub enum CommandView {
    Ac(AcCommandView),
    Dc(DcCommandView),
    End(EndCommand),
    Four(FourCommandView),
    Func(FuncCommand),
    Global(GlobalCommandView),
    Ic(IcCommandView),
    Inc(IncCommandView),
    Lib(LibCommandView),
    Mc(McCommand),
    Model(ModelCommandView),
    NodeSet(NodeSetCommandView),
    Noise(NoiseCommandView),
    Op(OpCommand),
    Options(OptionsCommandView),
    Param(ParamCommandView),
    Plot(PlotCommandView),
    Print(PrintCommandView),
    Probe(ProbeCommandView),
    Sens(SensCommandView),
    Step(StepCommandView),
    Subckt(SubcktCommandView),
    Ends(EndsCommandView),
    Temp(TempCommandView),
    Text(TextCommandView),
    Tf(TfCommandView),
    Tran(TranCommandView),
    Watch(WatchCommandView),
    Width(WidthCommandView),
}

/// Mathematical content of a [`Program`].
pub struct ProgramView {
    pub name: Option<AtomView>,
    pub instructions: Seq<InstructionView>,
}

/// The views of a sequence of instructions.
pub open spec fn instructions_view(instructions: Seq<Instruction>) -> Seq<InstructionView>
    decreases instructions,
{
    if unreal(instructions) {
        instructions_view(instructions)
    } else {
        Seq::new(
            instructions.len(),
            |i: int|
                if 0 <= i < instructions.len() {
                    instruction_view(instructions[i])
                } else {
                    arbitrary()
                },
        )
    }
}

pub open spec fn instruction_view(instruction: Instruction) -> InstructionView
    decreases instruction,
{
    if unreal(instruction) {
        instruction_view(instruction)
    } else {
        match instruction {
            Instruction::Command(c) => InstructionView::Command(command_view(c)),
            Instruction::Component(c) => InstructionView::Component(c.deep_view()),
        }
    }
}

pub open spec fn subckt_view(subckt: SubcktCommand) -> SubcktCommandView
    decreases subckt,
{
    if unreal(subckt) {
        subckt_view(subckt)
    } else {
        SubcktCommandView {
            name: subckt.name.deep_view(),
            pins: subckt.pins.deep_view(),
            optionals: subckt.optionals.deep_view(),
            params: subckt.params.deep_view(),
            texts: subckt.texts.deep_view(),
            instructions: instructions_view(subckt.instructions@),
        }
    }
}

pub open spec fn command_view(command: Command) -> CommandView
    decreases command,
{
    if unreal(command) {
        command_view(command)
    } else {
        match command {
            Command::Ac(x) => CommandView::Ac(x.deep_view()),
            Command::Dc(x) => CommandView::Dc(x.deep_view()),
            Command::End(x) => CommandView::End(x.deep_view()),
            Command::Four(x) => CommandView::Four(x.deep_view()),
            Command::Func(x) => CommandView::Func(x.deep_view()),
            Command::Global(x) => CommandView::Global(x.deep_view()),
            Command::Ic(x) => CommandView::Ic(x.deep_view()),
            Command::Inc(x) => CommandView::Inc(x.deep_view()),
            Command::Lib(x) => CommandView::Lib(x.deep_view()),
            Command::Mc(x) => CommandView::Mc(x.deep_view()),
            Command::Model(x) => CommandView::Model(x.deep_view()),
            Command::NodeSet(x) => CommandView::NodeSet(x.deep_view()),
            Command::Noise(x) => CommandView::Noise(x.deep_view()),
            Command::Op(x) => CommandView::Op(x.deep_view()),
            Command::Options(x) => CommandView::Options(x.deep_view()),
            Command::Param(x) => CommandView::Param(x.deep_view()),
            Command::Plot(x) => CommandView::Plot(x.deep_view()),
            Command::Print(x) => CommandView::Print(x.deep_view()),
            Command::Probe(x) => CommandView::Probe(x.deep_view()),
            Command::Sens(x) => CommandView::Sens(x.deep_view()),
            Command::Step(x) => CommandView::Step(x.deep_view()),
            Command::Subckt(x) => CommandView::Subckt(subckt_view(x)),
            Command::Ends(x) => CommandView::Ends(x.deep_view()),
            Command::Temp(x) => CommandView::Temp(x.deep_view()),
            Command::Text(x) => CommandView::Text(x.deep_view()),
            Command::Tf(x) => CommandView::Tf(x.deep_view()),
            Command::Tran(x) => CommandView::Tran(x.deep_view()),
            Command::Watch(x) => CommandView::Watch(x.deep_view()),
            Command::Width(x) => CommandView::Width(x.deep_view()),
        }
    }
}

/// A copy of a list of instructions: its content is that of the list.
#[verifier::loop_isolation(false)]
fn copy_instructions(instructions: &Vec<Instruction>) -> (r: Vec<Instruction>)
    ensures
        instructions_view(r@) == instructions_view(instructions@),
    decreases instructions,
{
    let mut copies: Vec<Instruction> = Vec::new();
    let mut i: usize = 0;
    while i < instructions.len()
        invariant
            i <= instructions.len(),
            copies.len() == i,
            forall|k: int|
                0 <= k < i ==> instruction_view(#[trigger] copies[k]) == instruction_view(
                    instructions[k],
                ),
        decreases instructions.len() - i,
    {
        copies.push(copy_instruction(&instructions[i]));
        i += 1;
    }
    assert(instructions_view(copies@) =~= instructions_view(instructions@));
    copies
}

/// A copy of an instruction: its content is that of the instruction.
fn copy_instruction(instruction: &Instruction) -> (r: Instruction)
    ensures
        instruction_view(r) == instruction_view(*instruction),
    decreases instruction,
{
    match instruction {
        Instruction::Command(c) => Instruction::Command(copy_command(c)),
        Instruction::Component(c) => Instruction::Component(c.duplicate()),
    }
}

/// A copy of a subcircuit: its content is that of the subcircuit, the
/// instructions in it included.
fn copy_subckt(subckt: &SubcktCommand) -> (r: SubcktCommand)
    ensures
        subckt_view(r) == subckt_view(*subckt),
    decreases subckt,
{
    SubcktCommand {
        name: subckt.name.duplicate(),
        pins: subckt.pins.duplicate(),
        optionals: subckt.optionals.duplicate(),
        params: subckt.params.duplicate(),
        texts: subckt.texts.duplicate(),
        instructions: copy_instructions(&subckt.instructions),
    }
}

/// A copy of a command: its content is that of the command.
fn copy_command(command: &Command) -> (r: Command)
    ensures
        command_view(r) == command_view(*command),
    decreases command,
{
    match command {
        Command::Ac(x) => Command::Ac(x.duplicate()),
        Command::Dc(x) => Command::Dc(x.duplicate()),
        Command::End(x) => Command::End(x.duplicate()),
        Command::Four(x) => Command::Four(x.duplicate()),
        Command::Func(x) => Command::Func(x.duplicate()),
        Command::Global(x) => Command::Global(x.duplicate()),
        Command::Ic(x) => Command::Ic(x.duplicate()),
        Command::Inc(x) => Command::Inc(x.duplicate()),
        Command::Lib(x) => Command::Lib(x.duplicate()),
        Command::Mc(x) => Command::Mc(x.duplicate()),
        Command::Model(x) => Command::Model(x.duplicate()),
        Command::NodeSet(x) => Command::NodeSet(x.duplicate()),
        Command::Noise(x) => Command::Noise(x.duplicate()),
        Command::Op(x) => Command::Op(x.duplicate()),
        Command::Options(x) => Command::Options(x.duplicate()),
        Command::Param(x) => Command::Param(x.duplicate()),
        Command::Plot(x) => Command::Plot(x.duplicate()),
        Command::Print(x) => Command::Print(x.duplicate()),
        Command::Probe(x) => Command::Probe(x.duplicate()),
        Command::Sens(x) => Command::Sens(x.duplicate()),
        Command::Step(x) => Command::Step(x.duplicate()),
        Command::Subckt(x) => Command::Subckt(copy_subckt(x)),
        Command::Ends(x) => Command::Ends(x.duplicate()),
        Command::Temp(x) => Command::Temp(x.duplicate()),
        Command::Text(x) => Command::Text(x.duplicate()),
        Command::Tf(x) => Command::Tf(x.duplicate()),
        Command::Tran(x) => Command::Tran(x.duplicate()),
        Command::Watch(x) => Command::Watch(x.duplicate()),
        Command::Width(x) => Command::Width(x.duplicate()),
    }
}

impl Clone for Instruction {
    fn clone(&self) -> (r: Self)
        ensures
            instruction_view(r) == instruction_view(*self),
    {
        copy_instruction(self)
    }
}

impl Clone for SubcktCommand {
    fn clone(&self) -> (r: Self)
        ensures
            subckt_view(r) == subckt_view(*self),
    {
        copy_subckt(self)
    }
}

impl Clone for Command {
    fn clone(&self) -> (r: Self)
        ensures
            command_view(r) == command_view(*self),
    {
        copy_command(self)
    }
}

impl DeepView for Instruction {
    type V = InstructionView;

    open spec fn deep_view(&self) -> InstructionView {
        instruction_view(*self)
    }
}

impl DeepView for SubcktCommand {
    type V = SubcktCommandView;

    open spec fn deep_view(&self) -> SubcktCommandView {
        subckt_view(*self)
    }
}

impl DeepView for Command {
    type V = CommandView;

    open spec fn deep_view(&self) -> CommandView {
        command_view(*self)
    }
}

impl DeepView for Program {
    type V = ProgramView;

    open spec fn deep_view(&self) -> ProgramView {
        ProgramView {
            name: self.name.deep_view(),
            instructions: instructions_view(self.instructions@),
        }
    }
}

/// The optional pins after `OPTIONAL :`, if `OPTIONAL` stands at `pos`.
#[verifier::opaque]
pub open spec fn optional_section_at(ts: Seq<AtomView>, pos: nat) -> Outcome<
    Seq<PairsView<AtomView, AtomView>>,
> {
    if matches_at(ts, pos, "OPTIONAL"@) {
        match expect_at(ts, pos + 1, ":"@) {
            (Ok(_), p) => subckt_optionals_at(ts, p),
            (Err(e), p) => (Err(e), p),
        }
    } else {
        (Ok(Seq::empty()), pos)
    }
}

/// The rule of [`SubcktCommand`]. The command is parsed without
/// instructions.
#[verifier::opaque]
pub open spec fn subckt_command_at(ts: Seq<AtomView>, pos: nat) -> Outcome<SubcktCommandView> {
    match expect_at(ts, pos, ".SUBCKT"@) {
        (Ok(_), p1) => match name_at(ts, p1) {
            (Ok(name), p2) => match subckt_pins_at(ts, p2) {
                (Ok(pins), p3) => match optional_section_at(ts, p3) {
                    (Ok(optionals), p4) => match param_section_at(ts, p4) {
                        (Ok(params), p5) => match text_section_at(ts, p5) {
                            (Ok(texts), p6) => (
                                Ok(
                                    SubcktCommandView {
                                        name,
                                        pins,
                                        optionals,
                                        params,
                                        texts,
                                        instructions: Seq::empty(),
                                    },
                                ),
                                p6,
                            ),
                            (Err(e), p6) => (Err(e), p6),
                        },
                        (Err(e), p5) => (Err(e), p5),
                    },
                    (Err(e), p4) => (Err(e), p4),
                },
                (Err(e), p3) => (Err(e), p3),
            },
            (Err(e), p2) => (Err(e), p2),
        },
        (Err(e), p1) => (Err(e), p1),
    }
}

impl<'a> SpiceLineParser<'a> {
    /// Parses the optional pins that `OPTIONAL :` introduces, if it is
    /// there.
    pub fn parse_optional_section(&mut self) -> (r: ParseResult<Vec<Pairs<Node, Node>>>)
        ensures
            parsed(*old(self), *final(self), r, optional_section_at(old(self).tokens(), old(self).cursor())),
            r is Ok && old(self).position <= old(self).vec.len() ==> final(self).position <= old(self).vec.len(),
    {
        reveal(optional_section_at);
        if self.matches_consume("OPTIONAL") {
            self.expect(":")?;
            self.parse_subckt_optionals()
        } else {
            let none: Vec<Pairs<Node, Node>> = Vec::new();
            assert(none.deep_view() =~= Seq::empty());
            Ok(none)
        }
    }

    /// Parses a [`SubcktCommand`].
    pub fn parse_subckt_command(&mut self) -> (r: ParseResult<SubcktCommand>)
        ensures
            parsed(*old(self), *final(self), r, subckt_command_at(old(self).tokens(), old(self).cursor())),
            r is Ok ==> old(self).position < final(self).position <= old(self).vec.len(),
            r matches Ok(s) ==> s.instructions@.len() == 0,
    {
        reveal(subckt_command_at);
        self.expect(".SUBCKT")?;
        let name = self.parse_name()?;
        let pins = self.parse_subckt_pins()?;
        let optionals = self.parse_optional_section()?;
        let params = self.parse_param_section()?;
        let texts = self.parse_text_section()?;
        let instructions: Vec<Instruction> = Vec::new();
        assert(instructions_view(instructions@) =~= Seq::empty());
        Ok(SubcktCommand { name, pins, optionals, params, texts, instructions })
    }
}

/// The rejection of a command that has no rule.
pub open spec fn unsupported_command(t: AtomView) -> ParseErrorView {
    quoting_error("Unsupported command `"@, t.raw, "'"@, Some(t.place()))
}

/// The rejection of a command of an unknown name.
pub open spec fn unknown_command(t: AtomView) -> ParseErrorView {
    quoting_error("Unknown command `"@, t.raw, "'"@, Some(t.place()))
}

/// The rejection of a token that begins no command.
pub open spec fn not_a_command(t: AtomView) -> ParseErrorView {
    quoting_error("Expect `"@, t.raw, "' to be a Command name"@, Some(t.place()))
}

/// The rule of [`Command`]: the first token, in any letter case, names the
/// command. `.FUNC` and `.MC` are known and not supported.
#[verifier::opaque]
pub open spec fn command_at(ts: Seq<AtomView>, pos: nat) -> Outcome<CommandView> {
    if pos >= ts.len() {
        (Err(eof_error()), pos)
    } else if matches_at(ts, pos, ".AC"@) {
        match ac_command_at(ts, pos) {
            (Ok(x), p) => (Ok(CommandView::Ac(x)), p),
            (Err(e), p) => (Err(e), p),
        }
    } else if matches_at(ts, pos, ".DC"@) {
        match dc_command_at(ts, pos) {
            (Ok(x), p) => (Ok(CommandView::Dc(x)), p),
            (Err(e), p) => (Err(e), p),
        }
    } else if matches_at(ts, pos, ".END"@) {
        match end_command_at(ts, pos) {
            (Ok(x), p) => (Ok(CommandView::End(x)), p),
            (Err(e), p) => (Err(e), p),
        }
    } else if matches_at(ts, pos, ".FOUR"@) {
        match four_command_at(ts, pos) {
            (Ok(x), p) => (Ok(CommandView::Four(x)), p),
            (Err(e), p) => (Err(e), p),
        }
    } else if matches_at(ts, pos, ".GLOBAL"@) {
        match global_command_at(ts, pos) {
            (Ok(x), p) => (Ok(CommandView::Global(x)), p),
            (Err(e), p) => (Err(e), p),
        }
    } else if matches_at(ts, pos, ".IC"@) {
        match ic_command_at(ts, pos) {
            (Ok(x), p) => (Ok(CommandView::Ic(x)), p),
            (Err(e), p) => (Err(e), p),
        }
    } else if matches_at(ts, pos, ".INC"@) {
        match inc_command_at(ts, pos) {
            (Ok(x), p) => (Ok(CommandView::Inc(x)), p),
            (Err(e), p) => (Err(e), p),
        }
    } else if matches_at(ts, pos, ".LIB"@) {
        match lib_command_at(ts, pos) {
            (Ok(x), p) => (Ok(CommandView::Lib(x)), p),
            (Err(e), p) => (Err(e), p),
        }
    } else if matches_at(ts, pos, ".MODEL"@) {
        match model_command_at(ts, pos) {
            (Ok(x), p) => (Ok(CommandView::Model(x)), p),
            (Err(e), p) => (Err(e), p),
        }
    } else if matches_at(ts, pos, ".NODESET"@) {
        match node_set_command_at(ts, pos) {
            (Ok(x), p) => (Ok(CommandView::NodeSet(x)), p),
            (Err(e), p) => (Err(e), p),
        }
    } else if matches_at(ts, pos, ".NOISE"@) {
        match noise_command_at(ts, pos) {
            (Ok(x), p) => (Ok(CommandView::Noise(x)), p),
            (Err(e), p) => (Err(e), p),
        }
    } else if matches_at(ts, pos, ".OP"@) {
        match op_command_at(ts, pos) {
            (Ok(x), p) => (Ok(CommandView::Op(x)), p),
            (Err(e), p) => (Err(e), p),
        }
    } else if matches_at(ts, pos, ".OPTIONS"@) {
        match options_command_at(ts, pos) {
            (Ok(x), p) => (Ok(CommandView::Options(x)), p),
            (Err(e), p) => (Err(e), p),
        }
    } else if matches_at(ts, pos, ".PARAM"@) {
        match param_command_at(ts, pos) {
            (Ok(x), p) => (Ok(CommandView::Param(x)), p),
            (Err(e), p) => (Err(e), p),
        }
    } else if matches_at(ts, pos, ".PLOT"@) {
        match plot_command_at(ts, pos) {
            (Ok(x), p) => (Ok(CommandView::Plot(x)), p),
            (Err(e), p) => (Err(e), p),
        }
    } else if matches_at(ts, pos, ".PRINT"@) {
        match print_command_at(ts, pos) {
            (Ok(x), p) => (Ok(CommandView::Print(x)), p),
            (Err(e), p) => (Err(e), p),
        }
    } else if matches_at(ts, pos, ".PROBE"@) {
        match probe_command_at(ts, pos) {
            (Ok(x), p) => (Ok(CommandView::Probe(x)), p),
            (Err(e), p) => (Err(e), p),
        }
    } else if matches_at(ts, pos, ".SENS"@) {
        match sens_command_at(ts, pos) {
            (Ok(x), p) => (Ok(CommandView::Sens(x)), p),
            (Err(e), p) => (Err(e), p),
        }
    } else if matches_at(ts, pos, ".STEP"@) {
        match step_command_at(ts, pos) {
            (Ok(x), p) => (Ok(CommandView::Step(x)), p),
            (Err(e), p) => (Err(e), p),
        }
    } else if matches_at(ts, pos, ".SUBCKT"@) {
        match subckt_command_at(ts, pos) {
            (Ok(x), p) => (Ok(CommandView::Subckt(x)), p),
            (Err(e), p) => (Err(e), p),
        }
    } else if matches_at(ts, pos, ".ENDS"@) {
        match ends_command_at(ts, pos) {
            (Ok(x), p) => (Ok(CommandView::Ends(x)), p),
            (Err(e), p) => (Err(e), p),
        }
    } else if matches_at(ts, pos, ".TEMP"@) {
        match temp_command_at(ts, pos) {
            (Ok(x), p) => (Ok(CommandView::Temp(x)), p),
            (Err(e), p) => (Err(e), p),
        }
    } else if matches_at(ts, pos, ".TEXT"@) {
        match text_command_at(ts, pos) {
            (Ok(x), p) => (Ok(CommandView::Text(x)), p),
            (Err(e), p) => (Err(e), p),
        }
    } else if matches_at(ts, pos, ".TF"@) {
        match tf_command_at(ts, pos) {
            (Ok(x), p) => (Ok(CommandView::Tf(x)), p),
            (Err(e), p) => (Err(e), p),
        }
    } else if matches_at(ts, pos, ".TRAN"@) {
        match tran_command_at(ts, pos) {
            (Ok(x), p) => (Ok(CommandView::Tran(x)), p),
            (Err(e), p) => (Err(e), p),
        }
    } else if matches_at(ts, pos, ".WATCH"@) {
        match watch_command_at(ts, pos) {
            (Ok(x), p) => (Ok(CommandView::Watch(x)), p),
            (Err(e), p) => (Err(e), p),
        }
    } else if matches_at(ts, pos, ".WIDTH"@) {
        match width_command_at(ts, pos) {
            (Ok(x), p) => (Ok(CommandView::Width(x)), p),
            (Err(e), p) => (Err(e), p),
        }
    } else if matches_at(ts, pos, ".FUNC"@) || matches_at(ts, pos, ".MC"@) {
        (Err(unsupported_command(ts[pos as int])), pos)
    } else if initial_of(ts[pos as int].raw) == Some('.') {
        (Err(unknown_command(ts[pos as int])), pos)
    } else {
        (Err(not_a_command(ts[pos as int])), pos)
    }
}

impl<'a> SpiceLineParser<'a> {
    /// Parses a [`Command`].
    pub fn parse_command(&mut self) -> (r: ParseResult<Command>)
        ensures
            parsed(*old(self), *final(self), r, command_at(old(self).tokens(), old(self).cursor())),
            r is Ok ==> old(self).position < final(self).position <= old(self).vec.len(),
    {
        reveal(command_at);
        let token = self.token()?;
        if self.matches(".AC") {
            return Ok(Command::Ac(self.parse_ac_command()?));
        }
        if self.matches(".DC") {
            return Ok(Command::Dc(self.parse_dc_command()?));
        }
        if self.matches(".END") {
            return Ok(Command::End(self.parse_end_command()?));
        }
        if self.matches(".FOUR") {
            return Ok(Command::Four(self.parse_four_command()?));
        }
        if self.matches(".GLOBAL") {
            return Ok(Command::Global(self.parse_global_command()?));
        }
        if self.matches(".IC") {
            return Ok(Command::Ic(self.parse_ic_command()?));
        }
        if self.matches(".INC") {
            return Ok(Command::Inc(self.parse_inc_command()?));
        }
        if self.matches(".LIB") {
            return Ok(Command::Lib(self.parse_lib_command()?));
        }
        if self.matches(".MODEL") {
            return Ok(Command::Model(self.parse_model_command()?));
        }
        if self.matches(".NODESET") {
            return Ok(Command::NodeSet(self.parse_node_set_command()?));
        }
        if self.matches(".NOISE") {
            return Ok(Command::Noise(self.parse_noise_command()?));
        }
        if self.matches(".OP") {
            return Ok(Command::Op(self.parse_op_command()?));
        }
        if self.matches(".OPTIONS") {
            return Ok(Command::Options(self.parse_options_command()?));
        }
        if self.matches(".PARAM") {
            return Ok(Command::Param(self.parse_param_command()?));
        }
        if self.matches(".PLOT") {
            return Ok(Command::Plot(self.parse_plot_command()?));
        }
        if self.matches(".PRINT") {
            return Ok(Command::Print(self.parse_print_command()?));
        }
        if self.matches(".PROBE") {
            return Ok(Command::Probe(self.parse_probe_command()?));
        }
        if self.matches(".SENS") {
            return Ok(Command::Sens(self.parse_sens_command()?));
        }
        if self.matches(".STEP") {
            return Ok(Command::Step(self.parse_step_command()?));
        }
        if self.matches(".SUBCKT") {
            return Ok(Command::Subckt(self.parse_subckt_command()?));
        }
        if self.matches(".ENDS") {
            return Ok(Command::Ends(self.parse_ends_command()?));
        }
        if self.matches(".TEMP") {
            return Ok(Command::Temp(self.parse_temp_command()?));
        }
        if self.matches(".TEXT") {
            return Ok(Command::Text(self.parse_text_command()?));
        }
        if self.matches(".TF") {
            return Ok(Command::Tf(self.parse_tf_command()?));
        }
        if self.matches(".TRAN") {
            return Ok(Command::Tran(self.parse_tran_command()?));
        }
        if self.matches(".WATCH") {
            return Ok(Command::Watch(self.parse_watch_command()?));
        }
        if self.matches(".WIDTH") {
            return Ok(Command::Width(self.parse_width_command()?));
        }
        if self.matches(".FUNC") || self.matches(".MC") {
            return Err(
                ParseError::quoting("Unsupported command `", token.raw.as_str(), "'", Some(token.place())),
            );
        }
        if initial(&token) == Some('.') {
            return Err(
                ParseError::quoting("Unknown command `", token.raw.as_str(), "'", Some(token.place())),
            );
        }
        Err(
            ParseError::quoting(
                "Expect `",
                token.raw.as_str(),
                "' to be a Command name",
                Some(token.place()),
            ),
        )
    }
}

impl TryParse<SubcktCommand> for SpiceLineParser<'_> {
    open spec fn rule(ts: Seq<AtomView>, pos: nat) -> Outcome<SubcktCommandView> {
        subckt_command_at(ts, pos)
    }

    fn try_parse(&mut self) -> (r: ParseResult<SubcktCommand>) {
        self.parse_subckt_command()
    }
}

impl TryParse<Command> for SpiceLineParser<'_> {
    open spec fn rule(ts: Seq<AtomView>, pos: nat) -> Outcome<CommandView> {
        command_at(ts, pos)
    }

    fn try_parse(&mut self) -> (r: ParseResult<Command>) {
        self.parse_command()
    }
}

} // verus!
