//! Sweeps: what `.DC` and `.STEP` vary, and how.

use crate::ast::{name_at, number_list_at, AtomView, Name, Param};
use crate::ast::expression::{number_at, Number, NumberView};
use crate::parse::{
    eof_error, expect_at, initial, initial_of, list_of, matches_at, parsed, Outcome, ParseResult,
    SpiceLineParser, TryParse,
};
use vstd::prelude::*;

verus! {

/// What a sweep varies.
#[derive(Debug, Clone, PartialEq)]
pub enum SweepName {
    /// An independent source: `<name>`, beginning with `V` or `I`.
    Power { name: Name },
    /// A parameter of a model: `<type> <model> ( <param> )`
    ModelParam { name1: Name, name2: Name, param: Name },
    /// The temperature: `TEMP`
    Temp,
    /// A global parameter: `PARAM <name>`
    Param { name: Name },
}

/// Mathematical content of a [`SweepName`].
pub enum SweepNameView {
    Power { name: AtomView },
    ModelParam { name1: AtomView, name2: AtomView, param: AtomView },
    Temp,
    Param { name: AtomView },
}

impl DeepView for SweepName {
    type V = SweepNameView;

    open spec fn deep_view(&self) -> SweepNameView {
        match self {
            SweepName::Power { name } => SweepNameView::Power { name: name.deep_view() },
            SweepName::ModelParam { name1, name2, param } => SweepNameView::ModelParam {
                name1: name1.deep_view(),
                name2: name2.deep_view(),
                param: param.deep_view(),
            },
            SweepName::Temp => SweepNameView::Temp,
            SweepName::Param { name } => SweepNameView::Param { name: name.deep_view() },
        }
    }
}

/// The parameter of a model: two names, and a third within parentheses.
#[verifier::opaque]
pub open spec fn model_param_at(ts: Seq<AtomView>, pos: nat) -> Outcome<SweepNameView> {
    match name_at(ts, pos) {
        (Ok(name1), p1) => match name_at(ts, p1) {
            (Ok(name2), p2) => match expect_at(ts, p2, "("@) {
                (Ok(_), p3) => match name_at(ts, p3) {
                    (Ok(param), p4) => match expect_at(ts, p4, ")"@) {
                        (Ok(_), p5) => (Ok(SweepNameView::ModelParam { name1, name2, param }), p5),
                        (Err(e), p5) => (Err(e), p5),
                    },
                    (Err(e), p4) => (Err(e), p4),
                },
                (Err(e), p3) => (Err(e), p3),
            },
            (Err(e), p2) => (Err(e), p2),
        },
        (Err(e), p1) => (Err(e), p1),
    }
}

/// The rule of [`SweepName`]: `TEMP`, `PARAM` and a name, a name that
/// begins with `V` or `I`, or the parameter of a model.
#[verifier::opaque]
pub open spec fn sweep_name_at(ts: Seq<AtomView>, pos: nat) -> Outcome<SweepNameView> {
    if pos >= ts.len() {
        (Err(eof_error()), pos)
    } else if matches_at(ts, pos, "TEMP"@) {
        (Ok(SweepNameView::Temp), pos + 1)
    } else if matches_at(ts, pos, "PARAM"@) {
        match name_at(ts, pos + 1) {
            (Ok(name), p) => (Ok(SweepNameView::Param { name }), p),
            (Err(e), p) => (Err(e), p),
        }
    } else if initial_of(ts[pos as int].raw) == Some('V') || initial_of(ts[pos as int].raw) == Some(
        'I',
    ) {
        match name_at(ts, pos) {
            (Ok(name), p) => (Ok(SweepNameView::Power { name }), p),
            (Err(e), p) => (Err(e), p),
        }
    } else {
        model_param_at(ts, pos)
    }
}

impl<'a> SpiceLineParser<'a> {
    /// Parses a [`SweepName`].
    pub fn parse_sweep_name(&mut self) -> (r: ParseResult<SweepName>)
        ensures
            parsed(*old(self), *final(self), r, sweep_name_at(old(self).tokens(), old(self).cursor())),
            r is Ok ==> old(self).position < final(self).position <= old(self).vec.len(),
    {
        reveal(sweep_name_at);
        reveal(model_param_at);
        let token = self.token()?;
        if self.matches_consume("TEMP") {
            return Ok(SweepName::Temp);
        }
        if self.matches_consume("PARAM") {
            let name = self.parse_name()?;
            return Ok(SweepName::Param { name });
        }
        let kind = initial(&token);
        if kind == Some('V') || kind == Some('I') {
            let name = self.parse_name()?;
            return Ok(SweepName::Power { name });
        }
        let name1 = self.parse_name()?;
        let name2 = self.parse_name()?;
        self.expect("(")?;
        let param = self.parse_name()?;
        self.expect(")")?;
        Ok(SweepName::ModelParam { name1, name2, param })
    }
}

impl TryParse<SweepName> for SpiceLineParser<'_> {
    open spec fn rule(ts: Seq<AtomView>, pos: nat) -> Outcome<SweepNameView> {
        sweep_name_at(ts, pos)
    }

    fn try_parse(&mut self) -> (r: ParseResult<SweepName>) {
        self.parse_sweep_name()
    }
}

/// A linear sweep: `[LIN] <swname> <sstart> <send> <sinc>`
#[derive(Debug, Clone, PartialEq)]
pub struct Lin {
    pub swname: SweepName,
    pub sstart: Number,
    pub send: Number,
    pub sinc: Number,
}

/// Mathematical content of a [`Lin`].
pub struct LinView {
    pub swname: SweepNameView,
    pub sstart: NumberView,
    pub send: NumberView,
    pub sinc: NumberView,
}

impl DeepView for Lin {
    type V = LinView;

    open spec fn deep_view(&self) -> LinView {
        LinView {
            swname: self.swname.deep_view(),
            sstart: self.sstart.deep_view(),
            send: self.send.deep_view(),
            sinc: self.sinc.deep_view(),
        }
    }
}

/// The rule of [`Lin`].
#[verifier::opaque]
pub open spec fn lin_at(ts: Seq<AtomView>, pos: nat) -> Outcome<LinView> {
    match expect_at(ts, pos, "LIN"@) {
        (Ok(_), p1) => {
            match sweep_name_at(ts, p1) {
                (Ok(swname), p2) => {
                    match number_at(ts, p2) {
                        (Ok(sstart), p3) => {
                            match number_at(ts, p3) {
                                (Ok(send), p4) => {
                                    match number_at(ts, p4) {
                                        (Ok(sinc), p5) => {
                                            (Ok(LinView { swname, sstart, send, sinc }), p5)
                                        },
                                        (Err(e), p5) => (Err(e), p5),
                                    }
                                },
                                (Err(e), p4) => (Err(e), p4),
                            }
                        },
                        (Err(e), p3) => (Err(e), p3),
                    }
                },
                (Err(e), p2) => (Err(e), p2),
            }
        },
        (Err(e), p1) => (Err(e), p1),
    }
}

impl<'a> SpiceLineParser<'a> {
    /// Parses a [`Lin`].
    pub fn parse_lin(&mut self) -> (r: ParseResult<Lin>)
        ensures
            parsed(*old(self), *final(self), r, lin_at(old(self).tokens(), old(self).cursor())),
            r is Ok ==> old(self).position < final(self).position <= old(self).vec.len(),
    {
        reveal(lin_at);
        self.expect("LIN")?;
        let swname = self.parse_sweep_name()?;
        let sstart = self.parse_number()?;
        let send = self.parse_number()?;
        let sinc = self.parse_number()?;
        Ok(Lin { swname, sstart, send, sinc })
    }
}

impl TryParse<Lin> for SpiceLineParser<'_> {
    open spec fn rule(ts: Seq<AtomView>, pos: nat) -> Outcome<LinView> {
        lin_at(ts, pos)
    }

    fn try_parse(&mut self) -> (r: ParseResult<Lin>) {
        self.parse_lin()
    }
}

/// A sweep by octaves: `OCT <swname> <sstart> <send> <np>`
#[derive(Debug, Clone, PartialEq)]
pub struct Oct {
    pub swname: SweepName,
    pub sstart: Number,
    pub send: Number,
    pub np: Number,
}

/// Mathematical content of a [`Oct`].
pub struct OctView {
    pub swname: SweepNameView,
    pub sstart: NumberView,
    pub send: NumberView,
    pub np: NumberView,
}

impl DeepView for Oct {
    type V = OctView;

    open spec fn deep_view(&self) -> OctView {
        OctView {
            swname: self.swname.deep_view(),
            sstart: self.sstart.deep_view(),
            send: self.send.deep_view(),
            np: self.np.deep_view(),
        }
    }
}

/// The rule of [`Oct`].
#[verifier::opaque]
pub open spec fn oct_at(ts: Seq<AtomView>, pos: nat) -> Outcome<OctView> {
    match expect_at(ts, pos, "OCT"@) {
        (Ok(_), p1) => {
            match sweep_name_at(ts, p1) {
                (Ok(swname), p2) => {
                    match number_at(ts, p2) {
                        (Ok(sstart), p3) => {
                            match number_at(ts, p3) {
                                (Ok(send), p4) => {
                                    match number_at(ts, p4) {
                                        (Ok(np), p5) => {
                                            (Ok(OctView { swname, sstart, send, np }), p5)
                                        },
                                        (Err(e), p5) => (Err(e), p5),
                                    }
                                },
                                (Err(e), p4) => (Err(e), p4),
                            }
                        },
                        (Err(e), p3) => (Err(e), p3),
                    }
                },
                (Err(e), p2) => (Err(e), p2),
            }
        },
        (Err(e), p1) => (Err(e), p1),
    }
}

impl<'a> SpiceLineParser<'a> {
    /// Parses a [`Oct`].
    pub fn parse_oct(&mut self) -> (r: ParseResult<Oct>)
        ensures
            parsed(*old(self), *final(self), r, oct_at(old(self).tokens(), old(self).cursor())),
            r is Ok ==> old(self).position < final(self).position <= old(self).vec.len(),
    {
        reveal(oct_at);
        self.expect("OCT")?;
        let swname = self.parse_sweep_name()?;
        let sstart = self.parse_number()?;
        let send = self.parse_number()?;
        let np = self.parse_number()?;
        Ok(Oct { swname, sstart, send, np })
    }
}

impl TryParse<Oct> for SpiceLineParser<'_> {
    open spec fn rule(ts: Seq<AtomView>, pos: nat) -> Outcome<OctView> {
        oct_at(ts, pos)
    }

    fn try_parse(&mut self) -> (r: ParseResult<Oct>) {
        self.parse_oct()
    }
}

/// A sweep by decades: `DEC <swname> <sstart> <send> <np>`
#[derive(Debug, Clone, PartialEq)]
pub struct Dec {
    pub swname: SweepName,
    pub sstart: Number,
    pub send: Number,
    pub np: Number,
}

/// Mathematical content of a [`Dec`].
pub struct DecView {
    pub swname: SweepNameView,
    pub sstart: NumberView,
    pub send: NumberView,
    pub np: NumberView,
}

impl DeepView for Dec {
    type V = DecView;

    open spec fn deep_view(&self) -> DecView {
        DecView {
            swname: self.swname.deep_view(),
            sstart: self.sstart.deep_view(),
            send: self.send.deep_view(),
            np: self.np.deep_view(),
        }
    }
}

/// The rule of [`Dec`].
#[verifier::opaque]
pub open spec fn dec_at(ts: Seq<AtomView>, pos: nat) -> Outcome<DecView> {
    match expect_at(ts, pos, "DEC"@) {
        (Ok(_), p1) => {
            match sweep_name_at(ts, p1) {
                (Ok(swname), p2) => {
                    match number_at(ts, p2) {
                        (Ok(sstart), p3) => {
                            match number_at(ts, p3) {
                                (Ok(send), p4) => {
                                    match number_at(ts, p4) {
                                        (Ok(np), p5) => {
                                            (Ok(DecView { swname, sstart, send, np }), p5)
                                        },
                                        (Err(e), p5) => (Err(e), p5),
                                    }
                                },
                                (Err(e), p4) => (Err(e), p4),
                            }
                        },
                        (Err(e), p3) => (Err(e), p3),
                    }
                },
                (Err(e), p2) => (Err(e), p2),
            }
        },
        (Err(e), p1) => (Err(e), p1),
    }
}

impl<'a> SpiceLineParser<'a> {
    /// Parses a [`Dec`].
    pub fn parse_dec(&mut self) -> (r: ParseResult<Dec>)
        ensures
            parsed(*old(self), *final(self), r, dec_at(old(self).tokens(), old(self).cursor())),
            r is Ok ==> old(self).position < final(self).position <= old(self).vec.len(),
    {
        reveal(dec_at);
        self.expect("DEC")?;
        let swname = self.parse_sweep_name()?;
        let sstart = self.parse_number()?;
        let send = self.parse_number()?;
        let np = self.parse_number()?;
        Ok(Dec { swname, sstart, send, np })
    }
}

impl TryParse<Dec> for SpiceLineParser<'_> {
    open spec fn rule(ts: Seq<AtomView>, pos: nat) -> Outcome<DecView> {
        dec_at(ts, pos)
    }

    fn try_parse(&mut self) -> (r: ParseResult<Dec>) {
        self.parse_dec()
    }
}

/// A sweep over listed values: `<swname> LIST <v1> <v2> ...`
#[derive(Debug, Clone, PartialEq)]
pub struct List {
    pub swname: SweepName,
    pub values: Vec<Number>,
}

/// Mathematical content of a [`List`].
pub struct ListView {
    pub swname: SweepNameView,
    pub values: Seq<NumberView>,
}

impl DeepView for List {
    type V = ListView;

    open spec fn deep_view(&self) -> ListView {
        ListView { swname: self.swname.deep_view(), values: self.values.deep_view() }
    }
}

/// A sweep.
#[derive(Debug, Clone, PartialEq)]
pub enum Sweep {
    Lin(Lin),
    Oct(Oct),
    Dec(Dec),
    List(List),
}

/// Mathematical content of a [`Sweep`].
pub enum SweepView {
    Lin(LinView),
    Oct(OctView),
    Dec(DecView),
    List(ListView),
}

impl DeepView for Sweep {
    type V = SweepView;

    open spec fn deep_view(&self) -> SweepView {
        match self {
            Sweep::Lin(x) => SweepView::Lin(x.deep_view()),
            Sweep::Oct(x) => SweepView::Oct(x.deep_view()),
            Sweep::Dec(x) => SweepView::Dec(x.deep_view()),
            Sweep::List(x) => SweepView::List(x.deep_view()),
        }
    }
}

/// A sweep that begins with what it varies: a list of values after `LIST`,
/// or start, end and increment of a linear sweep.
#[verifier::opaque]
pub open spec fn plain_sweep_at(ts: Seq<AtomView>, pos: nat) -> Outcome<SweepView> {
    match sweep_name_at(ts, pos) {
        (Ok(swname), p1) => if matches_at(ts, p1, "LIST"@) {
            match number_list_at(ts, p1 + 1) {
                (Ok(values), p2) => (Ok(SweepView::List(ListView { swname, values })), p2),
                (Err(e), p2) => (Err(e), p2),
            }
        } else {
            match number_at(ts, p1) {
                (Ok(sstart), p2) => match number_at(ts, p2) {
                    (Ok(send), p3) => match number_at(ts, p3) {
                        (Ok(sinc), p4) => (
                            Ok(SweepView::Lin(LinView { swname, sstart, send, sinc })),
                            p4,
                        ),
                        (Err(e), p4) => (Err(e), p4),
                    },
                    (Err(e), p3) => (Err(e), p3),
                },
                (Err(e), p2) => (Err(e), p2),
            }
        },
        (Err(e), p1) => (Err(e), p1),
    }
}

/// The rule of [`Sweep`]: `OCT`, `DEC` or `LIN` and their fields, or a
/// sweep that begins with what it varies.
#[verifier::opaque]
pub open spec fn sweep_at(ts: Seq<AtomView>, pos: nat) -> Outcome<SweepView> {
    if pos >= ts.len() {
        (Err(eof_error()), pos)
    } else if matches_at(ts, pos, "OCT"@) {
        match oct_at(ts, pos) {
            (Ok(x), p) => (Ok(SweepView::Oct(x)), p),
            (Err(e), p) => (Err(e), p),
        }
    } else if matches_at(ts, pos, "DEC"@) {
        match dec_at(ts, pos) {
            (Ok(x), p) => (Ok(SweepView::Dec(x)), p),
            (Err(e), p) => (Err(e), p),
        }
    } else if matches_at(ts, pos, "LIN"@) {
        match lin_at(ts, pos) {
            (Ok(x), p) => (Ok(SweepView::Lin(x)), p),
            (Err(e), p) => (Err(e), p),
        }
    } else {
        plain_sweep_at(ts, pos)
    }
}

impl<'a> SpiceLineParser<'a> {
    /// Parses a [`Sweep`].
    pub fn parse_sweep(&mut self) -> (r: ParseResult<Sweep>)
        ensures
            parsed(*old(self), *final(self), r, sweep_at(old(self).tokens(), old(self).cursor())),
            r is Ok ==> old(self).position < final(self).position <= old(self).vec.len(),
    {
        reveal(sweep_at);
        reveal(plain_sweep_at);
        let token = self.token()?;
        if self.matches("OCT") {
            Ok(Sweep::Oct(self.parse_oct()?))
        } else if self.matches("DEC") {
            Ok(Sweep::Dec(self.parse_dec()?))
        } else if self.matches("LIN") {
            Ok(Sweep::Lin(self.parse_lin()?))
        } else {
            let swname = self.parse_sweep_name()?;
            if self.matches_consume("LIST") {
                let values = self.parse_number_list()?;
                Ok(Sweep::List(List { swname, values }))
            } else {
                let sstart = self.parse_number()?;
                let send = self.parse_number()?;
                let sinc = self.parse_number()?;
                Ok(Sweep::Lin(Lin { swname, sstart, send, sinc }))
            }
        }
    }
}

impl TryParse<Sweep> for SpiceLineParser<'_> {
    open spec fn rule(ts: Seq<AtomView>, pos: nat) -> Outcome<SweepView> {
        sweep_at(ts, pos)
    }

    fn try_parse(&mut self) -> (r: ParseResult<Sweep>) {
        self.parse_sweep()
    }
}

/// A list of `Sweep`: the rule is repeated for as long as it accepts.
#[verifier::opaque]
pub open spec fn sweep_list_at(ts: Seq<AtomView>, pos: nat) -> Outcome<Seq<SweepView>> {
    list_of::<Sweep, SpiceLineParser>(ts, pos)
}

impl<'a> SpiceLineParser<'a> {
    /// Parses a list of `Sweep`.
    pub fn parse_sweep_list(&mut self) -> (r: ParseResult<Vec<Sweep>>)
        ensures
            parsed(*old(self), *final(self), r, sweep_list_at(old(self).tokens(), old(self).cursor())),
            r is Ok,
            r is Ok && old(self).position <= old(self).vec.len() ==> final(self).position <= old(self).vec.len(),
    {
        reveal(sweep_list_at);
        self.parse_list::<Sweep>()
    }
}

impl TryParse<Vec<Sweep>> for SpiceLineParser<'_> {
    open spec fn rule(ts: Seq<AtomView>, pos: nat) -> Outcome<Seq<SweepView>> {
        sweep_list_at(ts, pos)
    }

    fn try_parse(&mut self) -> (r: ParseResult<Vec<Sweep>>) {
        self.parse_sweep_list()
    }
}

} // verus!
