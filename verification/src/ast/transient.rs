//! The DC, AC and transient parts of an independent source.

use crate::ast::{number_pair_list_at, optional_number_at, AtomView};
use crate::ast::expression::{number_at, Number, NumberView};
use crate::parse::{
    eof_error, expect_at, matches_at, optional_of, parsed, quoting_error, Outcome, ParseError,
    ParseResult, SpiceLineParser, TryParse,
};
use vstd::prelude::*;

verus! {

/// The DC part of a source: `[DC] <value>`
#[derive(Debug, Clone, PartialEq)]
pub struct DcSource {
    pub dc: bool,
    pub value: Number,
}

/// Mathematical content of a [`DcSource`].
pub struct DcSourceView {
    pub dc: bool,
    pub value: NumberView,
}

impl DeepView for DcSource {
    type V = DcSourceView;

    open spec fn deep_view(&self) -> DcSourceView {
        DcSourceView {
            dc: self.dc,
            value: self.value.deep_view(),
        }
    }
}

/// The rule of [`DcSource`].
#[verifier::opaque]
pub open spec fn dc_source_at(ts: Seq<AtomView>, pos: nat) -> Outcome<DcSourceView> {
    if matches_at(ts, pos, "DC"@) {
        let dc = true;
        match number_at(ts, pos + 1) {
            (Ok(value), p3) => {
                (Ok(DcSourceView { dc, value }), p3)
            },
            (Err(e), p3) => (Err(e), p3),
        }
    } else {
        let dc = false;
        match number_at(ts, pos) {
            (Ok(value), p5) => {
                (Ok(DcSourceView { dc, value }), p5)
            },
            (Err(e), p5) => (Err(e), p5),
        }
    }
}

impl<'a> SpiceLineParser<'a> {
    /// Parses a [`DcSource`].
    pub fn parse_dc_source(&mut self) -> (r: ParseResult<DcSource>)
        ensures
            parsed(*old(self), *final(self), r, dc_source_at(old(self).tokens(), old(self).cursor())),
            r is Ok ==> old(self).position < final(self).position <= old(self).vec.len(),
    {
        reveal(dc_source_at);
        let dc = if self.matches_consume("DC") {
            true
        } else {
            false
        };
        let value = self.parse_number()?;
        Ok(DcSource { dc, value })
    }
}

impl TryParse<DcSource> for SpiceLineParser<'_> {
    open spec fn rule(ts: Seq<AtomView>, pos: nat) -> Outcome<DcSourceView> {
        dc_source_at(ts, pos)
    }

    fn try_parse(&mut self) -> (r: ParseResult<DcSource>) {
        self.parse_dc_source()
    }
}

/// The AC part of a source: `AC <magnitude> [<phase>]`
#[derive(Debug, Clone, PartialEq)]
pub struct AcSource {
    pub magnitude: Number,
    pub phase: Option<Number>,
}

/// Mathematical content of a [`AcSource`].
pub struct AcSourceView {
    pub magnitude: NumberView,
    pub phase: Option<NumberView>,
}

impl DeepView for AcSource {
    type V = AcSourceView;

    open spec fn deep_view(&self) -> AcSourceView {
        AcSourceView {
            magnitude: self.magnitude.deep_view(),
            phase: self.phase.deep_view(),
        }
    }
}

/// The rule of [`AcSource`].
#[verifier::opaque]
pub open spec fn ac_source_at(ts: Seq<AtomView>, pos: nat) -> Outcome<AcSourceView> {
    match expect_at(ts, pos, "AC"@) {
        (Ok(_), p1) => {
            match number_at(ts, p1) {
                (Ok(magnitude), p2) => {
                    match optional_number_at(ts, p2) {
                        (Ok(phase), p3) => {
                            (Ok(AcSourceView { magnitude, phase }), p3)
                        },
                        (Err(e), p3) => (Err(e), p3),
                    }
                },
                (Err(e), p2) => (Err(e), p2),
            }
        },
        (Err(e), p1) => (Err(e), p1),
    }
}

impl<'a> SpiceLineParser<'a> {
    /// Parses a [`AcSource`].
    pub fn parse_ac_source(&mut self) -> (r: ParseResult<AcSource>)
        ensures
            parsed(*old(self), *final(self), r, ac_source_at(old(self).tokens(), old(self).cursor())),
            r is Ok ==> old(self).position < final(self).position <= old(self).vec.len(),
    {
        reveal(ac_source_at);
        self.expect("AC")?;
        let magnitude = self.parse_number()?;
        let phase = self.parse_optional_number()?;
        Ok(AcSource { magnitude, phase })
    }
}

impl TryParse<AcSource> for SpiceLineParser<'_> {
    open spec fn rule(ts: Seq<AtomView>, pos: nat) -> Outcome<AcSourceView> {
        ac_source_at(ts, pos)
    }

    fn try_parse(&mut self) -> (r: ParseResult<AcSource>) {
        self.parse_ac_source()
    }
}

/// A pulse: `PULSE ( <v1> <v2> [<td>] [<tr>] [<tf>] [<pw>] [<per>] )`
#[derive(Debug, Clone, PartialEq)]
pub struct Pulse {
    pub v1: Number,
    pub v2: Number,
    pub td: Option<Number>,
    pub tr: Option<Number>,
    pub tf: Option<Number>,
    pub pw: Option<Number>,
    pub per: Option<Number>,
}

/// Mathematical content of a [`Pulse`].
pub struct PulseView {
    pub v1: NumberView,
    pub v2: NumberView,
    pub td: Option<NumberView>,
    pub tr: Option<NumberView>,
    pub tf: Option<NumberView>,
    pub pw: Option<NumberView>,
    pub per: Option<NumberView>,
}

impl DeepView for Pulse {
    type V = PulseView;

    open spec fn deep_view(&self) -> PulseView {
        PulseView {
            v1: self.v1.deep_view(),
            v2: self.v2.deep_view(),
            td: self.td.deep_view(),
            tr: self.tr.deep_view(),
            tf: self.tf.deep_view(),
            pw: self.pw.deep_view(),
            per: self.per.deep_view(),
        }
    }
}

/// The rule of [`Pulse`].
#[verifier::opaque]
pub open spec fn pulse_at(ts: Seq<AtomView>, pos: nat) -> Outcome<PulseView> {
    match expect_at(ts, pos, "PULSE"@) {
        (Ok(_), p1) => {
            match expect_at(ts, p1, "("@) {
                (Ok(_), p2) => {
                    match number_at(ts, p2) {
                        (Ok(v1), p3) => {
                            match number_at(ts, p3) {
                                (Ok(v2), p4) => {
                                    match optional_number_at(ts, p4) {
                                        (Ok(td), p5) => {
                                            match optional_number_at(ts, p5) {
                                                (Ok(tr), p6) => {
                                                    match optional_number_at(ts, p6) {
                                                        (Ok(tf), p7) => {
                                                            match optional_number_at(ts, p7) {
                                                                (Ok(pw), p8) => {
                                                                    match optional_number_at(ts, p8) {
                                                                        (Ok(per), p9) => {
                                                                            match expect_at(ts, p9, ")"@) {
                                                                                (Ok(_), p10) => {
                                                                                    (Ok(PulseView { v1, v2, td, tr, tf, pw, per }), p10)
                                                                                },
                                                                                (Err(e), p10) => (Err(e), p10),
                                                                            }
                                                                        },
                                                                        (Err(e), p9) => (Err(e), p9),
                                                                    }
                                                                },
                                                                (Err(e), p8) => (Err(e), p8),
                                                            }
                                                        },
                                                        (Err(e), p7) => (Err(e), p7),
                                                    }
                                                },
                                                (Err(e), p6) => (Err(e), p6),
                                            }
                                        },
                                        (Err(e), p5) => (Err(e), p5),
                                    }
                                },
                                (Err(e), p4) => (Err(e), p4),
                            }
                        },
                        (Err(e), p3) => (Err(e), p3),
                    }
                },
                (Err(e), p2) => (Err(e), p2),
            }
        },
        (Err(e), p1) => (Err(e), p1),
    }
}

impl<'a> SpiceLineParser<'a> {
    /// Parses a [`Pulse`].
    pub fn parse_pulse(&mut self) -> (r: ParseResult<Pulse>)
        ensures
            parsed(*old(self), *final(self), r, pulse_at(old(self).tokens(), old(self).cursor())),
            r is Ok ==> old(self).position < final(self).position <= old(self).vec.len(),
    {
        reveal(pulse_at);
        self.expect("PULSE")?;
        self.expect("(")?;
        let v1 = self.parse_number()?;
        let v2 = self.parse_number()?;
        let td = self.parse_optional_number()?;
        let tr = self.parse_optional_number()?;
        let tf = self.parse_optional_number()?;
        let pw = self.parse_optional_number()?;
        let per = self.parse_optional_number()?;
        self.expect(")")?;
        Ok(Pulse { v1, v2, td, tr, tf, pw, per })
    }
}

impl TryParse<Pulse> for SpiceLineParser<'_> {
    open spec fn rule(ts: Seq<AtomView>, pos: nat) -> Outcome<PulseView> {
        pulse_at(ts, pos)
    }

    fn try_parse(&mut self) -> (r: ParseResult<Pulse>) {
        self.parse_pulse()
    }
}

/// A piecewise linear wave: `PWL ( <t1> <v1> <t2> <v2> ... )`
#[derive(Debug, Clone, PartialEq)]
pub struct Pwl {
    pub points: Vec<(Number, Number)>,
}

/// Mathematical content of a [`Pwl`].
pub struct PwlView {
    pub points: Seq<(NumberView, NumberView)>,
}

impl DeepView for Pwl {
    type V = PwlView;

    open spec fn deep_view(&self) -> PwlView {
        PwlView {
            points: self.points.deep_view(),
        }
    }
}

/// The rule of [`Pwl`].
#[verifier::opaque]
pub open spec fn pwl_at(ts: Seq<AtomView>, pos: nat) -> Outcome<PwlView> {
    match expect_at(ts, pos, "PWL"@) {
        (Ok(_), p1) => {
            match expect_at(ts, p1, "("@) {
                (Ok(_), p2) => {
                    match number_pair_list_at(ts, p2) {
                        (Ok(points), p3) => {
                            match expect_at(ts, p3, ")"@) {
                                (Ok(_), p4) => {
                                    (Ok(PwlView { points }), p4)
                                },
                                (Err(e), p4) => (Err(e), p4),
                            }
                        },
                        (Err(e), p3) => (Err(e), p3),
                    }
                },
                (Err(e), p2) => (Err(e), p2),
            }
        },
        (Err(e), p1) => (Err(e), p1),
    }
}

impl<'a> SpiceLineParser<'a> {
    /// Parses a [`Pwl`].
    pub fn parse_pwl(&mut self) -> (r: ParseResult<Pwl>)
        ensures
            parsed(*old(self), *final(self), r, pwl_at(old(self).tokens(), old(self).cursor())),
            r is Ok ==> old(self).position < final(self).position <= old(self).vec.len(),
    {
        reveal(pwl_at);
        self.expect("PWL")?;
        self.expect("(")?;
        let points = self.parse_number_pair_list()?;
        self.expect(")")?;
        Ok(Pwl { points })
    }
}

impl TryParse<Pwl> for SpiceLineParser<'_> {
    open spec fn rule(ts: Seq<AtomView>, pos: nat) -> Outcome<PwlView> {
        pwl_at(ts, pos)
    }

    fn try_parse(&mut self) -> (r: ParseResult<Pwl>) {
        self.parse_pwl()
    }
}

/// A sine: `SIN ( <v0> <vampl> [<freq>] [<td>] [<alpha>] [<theta>] )`
#[derive(Debug, Clone, PartialEq)]
pub struct Sin {
    pub v0: Number,
    pub vampl: Number,
    pub freq: Option<Number>,
    pub td: Option<Number>,
    pub alpha: Option<Number>,
    pub theta: Option<Number>,
}

/// Mathematical content of a [`Sin`].
pub struct SinView {
    pub v0: NumberView,
    pub vampl: NumberView,
    pub freq: Option<NumberView>,
    pub td: Option<NumberView>,
    pub alpha: Option<NumberView>,
    pub theta: Option<NumberView>,
}

impl DeepView for Sin {
    type V = SinView;

    open spec fn deep_view(&self) -> SinView {
        SinView {
            v0: self.v0.deep_view(),
            vampl: self.vampl.deep_view(),
            freq: self.freq.deep_view(),
            td: self.td.deep_view(),
            alpha: self.alpha.deep_view(),
            theta: self.theta.deep_view(),
        }
    }
}

/// The rule of [`Sin`].
#[verifier::opaque]
pub open spec fn sin_at(ts: Seq<AtomView>, pos: nat) -> Outcome<SinView> {
    match expect_at(ts, pos, "SIN"@) {
        (Ok(_), p1) => {
            match expect_at(ts, p1, "("@) {
                (Ok(_), p2) => {
                    match number_at(ts, p2) {
                        (Ok(v0), p3) => {
                            match number_at(ts, p3) {
                                (Ok(vampl), p4) => {
                                    match optional_number_at(ts, p4) {
                                        (Ok(freq), p5) => {
                                            match optional_number_at(ts, p5) {
                                                (Ok(td), p6) => {
                                                    match optional_number_at(ts, p6) {
                                                        (Ok(alpha), p7) => {
                                                            match optional_number_at(ts, p7) {
                                                                (Ok(theta), p8) => {
                                                                    match expect_at(ts, p8, ")"@) {
                                                                        (Ok(_), p9) => {
                                                                            (Ok(SinView { v0, vampl, freq, td, alpha, theta }), p9)
                                                                        },
                                                                        (Err(e), p9) => (Err(e), p9),
                                                                    }
                                                                },
                                                                (Err(e), p8) => (Err(e), p8),
                                                            }
                                                        },
                                                        (Err(e), p7) => (Err(e), p7),
                                                    }
                                                },
                                                (Err(e), p6) => (Err(e), p6),
                                            }
                                        },
                                        (Err(e), p5) => (Err(e), p5),
                                    }
                                },
                                (Err(e), p4) => (Err(e), p4),
                            }
                        },
                        (Err(e), p3) => (Err(e), p3),
                    }
                },
                (Err(e), p2) => (Err(e), p2),
            }
        },
        (Err(e), p1) => (Err(e), p1),
    }
}

impl<'a> SpiceLineParser<'a> {
    /// Parses a [`Sin`].
    pub fn parse_sin(&mut self) -> (r: ParseResult<Sin>)
        ensures
            parsed(*old(self), *final(self), r, sin_at(old(self).tokens(), old(self).cursor())),
            r is Ok ==> old(self).position < final(self).position <= old(self).vec.len(),
    {
        reveal(sin_at);
        self.expect("SIN")?;
        self.expect("(")?;
        let v0 = self.parse_number()?;
        let vampl = self.parse_number()?;
        let freq = self.parse_optional_number()?;
        let td = self.parse_optional_number()?;
        let alpha = self.parse_optional_number()?;
        let theta = self.parse_optional_number()?;
        self.expect(")")?;
        Ok(Sin { v0, vampl, freq, td, alpha, theta })
    }
}

impl TryParse<Sin> for SpiceLineParser<'_> {
    open spec fn rule(ts: Seq<AtomView>, pos: nat) -> Outcome<SinView> {
        sin_at(ts, pos)
    }

    fn try_parse(&mut self) -> (r: ParseResult<Sin>) {
        self.parse_sin()
    }
}

/// An exponential: `EXP ( <v1> <v2> [<td1>] [<tc1>] [<td2>] [<tc2>] )`
#[derive(Debug, Clone, PartialEq)]
pub struct Exp {
    pub v1: Number,
    pub v2: Number,
    pub td1: Option<Number>,
    pub tc1: Option<Number>,
    pub td2: Option<Number>,
    pub tc2: Option<Number>,
}

/// Mathematical content of a [`Exp`].
pub struct ExpView {
    pub v1: NumberView,
    pub v2: NumberView,
    pub td1: Option<NumberView>,
    pub tc1: Option<NumberView>,
    pub td2: Option<NumberView>,
    pub tc2: Option<NumberView>,
}

impl DeepView for Exp {
    type V = ExpView;

    open spec fn deep_view(&self) -> ExpView {
        ExpView {
            v1: self.v1.deep_view(),
            v2: self.v2.deep_view(),
            td1: self.td1.deep_view(),
            tc1: self.tc1.deep_view(),
            td2: self.td2.deep_view(),
            tc2: self.tc2.deep_view(),
        }
    }
}

/// The rule of [`Exp`].
#[verifier::opaque]
pub open spec fn exp_at(ts: Seq<AtomView>, pos: nat) -> Outcome<ExpView> {
    match expect_at(ts, pos, "EXP"@) {
        (Ok(_), p1) => {
            match expect_at(ts, p1, "("@) {
                (Ok(_), p2) => {
                    match number_at(ts, p2) {
                        (Ok(v1), p3) => {
                            match number_at(ts, p3) {
                                (Ok(v2), p4) => {
                                    match optional_number_at(ts, p4) {
                                        (Ok(td1), p5) => {
                                            match optional_number_at(ts, p5) {
                                                (Ok(tc1), p6) => {
                                                    match optional_number_at(ts, p6) {
                                                        (Ok(td2), p7) => {
                                                            match optional_number_at(ts, p7) {
                                                                (Ok(tc2), p8) => {
                                                                    match expect_at(ts, p8, ")"@) {
                                                                        (Ok(_), p9) => {
                                                                            (Ok(ExpView { v1, v2, td1, tc1, td2, tc2 }), p9)
                                                                        },
                                                                        (Err(e), p9) => (Err(e), p9),
                                                                    }
                                                                },
                                                                (Err(e), p8) => (Err(e), p8),
                                                            }
                                                        },
                                                        (Err(e), p7) => (Err(e), p7),
                                                    }
                                                },
                                                (Err(e), p6) => (Err(e), p6),
                                            }
                                        },
                                        (Err(e), p5) => (Err(e), p5),
                                    }
                                },
                                (Err(e), p4) => (Err(e), p4),
                            }
                        },
                        (Err(e), p3) => (Err(e), p3),
                    }
                },
                (Err(e), p2) => (Err(e), p2),
            }
        },
        (Err(e), p1) => (Err(e), p1),
    }
}

impl<'a> SpiceLineParser<'a> {
    /// Parses a [`Exp`].
    pub fn parse_exp(&mut self) -> (r: ParseResult<Exp>)
        ensures
            parsed(*old(self), *final(self), r, exp_at(old(self).tokens(), old(self).cursor())),
            r is Ok ==> old(self).position < final(self).position <= old(self).vec.len(),
    {
        reveal(exp_at);
        self.expect("EXP")?;
        self.expect("(")?;
        let v1 = self.parse_number()?;
        let v2 = self.parse_number()?;
        let td1 = self.parse_optional_number()?;
        let tc1 = self.parse_optional_number()?;
        let td2 = self.parse_optional_number()?;
        let tc2 = self.parse_optional_number()?;
        self.expect(")")?;
        Ok(Exp { v1, v2, td1, tc1, td2, tc2 })
    }
}

impl TryParse<Exp> for SpiceLineParser<'_> {
    open spec fn rule(ts: Seq<AtomView>, pos: nat) -> Outcome<ExpView> {
        exp_at(ts, pos)
    }

    fn try_parse(&mut self) -> (r: ParseResult<Exp>) {
        self.parse_exp()
    }
}

/// A frequency-modulated sine: `SFFM ( <v0> <va> [<fc>] [<md>] [<fs>] )`
#[derive(Debug, Clone, PartialEq)]
pub struct Sffm {
    pub v0: Number,
    pub va: Number,
    pub fc: Option<Number>,
    pub md: Option<Number>,
    pub fs: Option<Number>,
}

/// Mathematical content of a [`Sffm`].
pub struct SffmView {
    pub v0: NumberView,
    pub va: NumberView,
    pub fc: Option<NumberView>,
    pub md: Option<NumberView>,
    pub fs: Option<NumberView>,
}

impl DeepView for Sffm {
    type V = SffmView;

    open spec fn deep_view(&self) -> SffmView {
        SffmView {
            v0: self.v0.deep_view(),
            va: self.va.deep_view(),
            fc: self.fc.deep_view(),
            md: self.md.deep_view(),
            fs: self.fs.deep_view(),
        }
    }
}

/// The rule of [`Sffm`].
#[verifier::opaque]
pub open spec fn sffm_at(ts: Seq<AtomView>, pos: nat) -> Outcome<SffmView> {
    match expect_at(ts, pos, "SFFM"@) {
        (Ok(_), p1) => {
            match expect_at(ts, p1, "("@) {
                (Ok(_), p2) => {
                    match number_at(ts, p2) {
                        (Ok(v0), p3) => {
                            match number_at(ts, p3) {
                                (Ok(va), p4) => {
                                    match optional_number_at(ts, p4) {
                                        (Ok(fc), p5) => {
                                            match optional_number_at(ts, p5) {
                                                (Ok(md), p6) => {
                                                    match optional_number_at(ts, p6) {
                                                        (Ok(fs), p7) => {
                                                            match expect_at(ts, p7, ")"@) {
                                                                (Ok(_), p8) => {
                                                                    (Ok(SffmView { v0, va, fc, md, fs }), p8)
                                                                },
                                                                (Err(e), p8) => (Err(e), p8),
                                                            }
                                                        },
                                                        (Err(e), p7) => (Err(e), p7),
                                                    }
                                                },
                                                (Err(e), p6) => (Err(e), p6),
                                            }
                                        },
                                        (Err(e), p5) => (Err(e), p5),
                                    }
                                },
                                (Err(e), p4) => (Err(e), p4),
                            }
                        },
                        (Err(e), p3) => (Err(e), p3),
                    }
                },
                (Err(e), p2) => (Err(e), p2),
            }
        },
        (Err(e), p1) => (Err(e), p1),
    }
}

impl<'a> SpiceLineParser<'a> {
    /// Parses a [`Sffm`].
    pub fn parse_sffm(&mut self) -> (r: ParseResult<Sffm>)
        ensures
            parsed(*old(self), *final(self), r, sffm_at(old(self).tokens(), old(self).cursor())),
            r is Ok ==> old(self).position < final(self).position <= old(self).vec.len(),
    {
        reveal(sffm_at);
        self.expect("SFFM")?;
        self.expect("(")?;
        let v0 = self.parse_number()?;
        let va = self.parse_number()?;
        let fc = self.parse_optional_number()?;
        let md = self.parse_optional_number()?;
        let fs = self.parse_optional_number()?;
        self.expect(")")?;
        Ok(Sffm { v0, va, fc, md, fs })
    }
}

impl TryParse<Sffm> for SpiceLineParser<'_> {
    open spec fn rule(ts: Seq<AtomView>, pos: nat) -> Outcome<SffmView> {
        sffm_at(ts, pos)
    }

    fn try_parse(&mut self) -> (r: ParseResult<Sffm>) {
        self.parse_sffm()
    }
}

/// An AC source: `VAC ( <dc> <ac_mag> <ac_phase> )`
#[derive(Debug, Clone, PartialEq)]
pub struct Vac {
    pub dc: Number,
    pub ac_mag: Number,
    pub ac_phase: Number,
}

/// Mathematical content of a [`Vac`].
pub struct VacView {
    pub dc: NumberView,
    pub ac_mag: NumberView,
    pub ac_phase: NumberView,
}

impl DeepView for Vac {
    type V = VacView;

    open spec fn deep_view(&self) -> VacView {
        VacView {
            dc: self.dc.deep_view(),
            ac_mag: self.ac_mag.deep_view(),
            ac_phase: self.ac_phase.deep_view(),
        }
    }
}

/// The rule of [`Vac`].
#[verifier::opaque]
pub open spec fn vac_at(ts: Seq<AtomView>, pos: nat) -> Outcome<VacView> {
    match expect_at(ts, pos, "VAC"@) {
        (Ok(_), p1) => {
            match expect_at(ts, p1, "("@) {
                (Ok(_), p2) => {
                    match number_at(ts, p2) {
                        (Ok(dc), p3) => {
                            match number_at(ts, p3) {
                                (Ok(ac_mag), p4) => {
                                    match number_at(ts, p4) {
                                        (Ok(ac_phase), p5) => {
                                            match expect_at(ts, p5, ")"@) {
                                                (Ok(_), p6) => {
                                                    (Ok(VacView { dc, ac_mag, ac_phase }), p6)
                                                },
                                                (Err(e), p6) => (Err(e), p6),
                                            }
                                        },
                                        (Err(e), p5) => (Err(e), p5),
                                    }
                                },
                                (Err(e), p4) => (Err(e), p4),
                            }
                        },
                        (Err(e), p3) => (Err(e), p3),
                    }
                },
                (Err(e), p2) => (Err(e), p2),
            }
        },
        (Err(e), p1) => (Err(e), p1),
    }
}

impl<'a> SpiceLineParser<'a> {
    /// Parses a [`Vac`].
    pub fn parse_vac(&mut self) -> (r: ParseResult<Vac>)
        ensures
            parsed(*old(self), *final(self), r, vac_at(old(self).tokens(), old(self).cursor())),
            r is Ok ==> old(self).position < final(self).position <= old(self).vec.len(),
    {
        reveal(vac_at);
        self.expect("VAC")?;
        self.expect("(")?;
        let dc = self.parse_number()?;
        let ac_mag = self.parse_number()?;
        let ac_phase = self.parse_number()?;
        self.expect(")")?;
        Ok(Vac { dc, ac_mag, ac_phase })
    }
}

impl TryParse<Vac> for SpiceLineParser<'_> {
    open spec fn rule(ts: Seq<AtomView>, pos: nat) -> Outcome<VacView> {
        vac_at(ts, pos)
    }

    fn try_parse(&mut self) -> (r: ParseResult<Vac>) {
        self.parse_vac()
    }
}

/// The wave of a source: `<NAME> ( <v1> <v2> ... )`
#[derive(Debug, Clone, PartialEq)]
pub enum Transient {
    Pulse(Pulse),
    Pwl(Pwl),
    Sin(Sin),
    Exp(Exp),
    Sffm(Sffm),
    Vac(Vac),
}

/// Mathematical content of a [`Transient`].
pub enum TransientView {
    Pulse(PulseView),
    Pwl(PwlView),
    Sin(SinView),
    Exp(ExpView),
    Sffm(SffmView),
    Vac(VacView),
}

impl DeepView for Transient {
    type V = TransientView;

    open spec fn deep_view(&self) -> TransientView {
        match self {
            Transient::Pulse(x) => TransientView::Pulse(x.deep_view()),
            Transient::Pwl(x) => TransientView::Pwl(x.deep_view()),
            Transient::Sin(x) => TransientView::Sin(x.deep_view()),
            Transient::Exp(x) => TransientView::Exp(x.deep_view()),
            Transient::Sffm(x) => TransientView::Sffm(x.deep_view()),
            Transient::Vac(x) => TransientView::Vac(x.deep_view()),
        }
    }
}

/// The rule of [`Transient`]: the first token decides which of its forms follows.
#[verifier::opaque]
pub open spec fn transient_at(ts: Seq<AtomView>, pos: nat) -> Outcome<TransientView> {
    if pos >= ts.len() {
        (Err(eof_error()), pos)
    } else if matches_at(ts, pos, "PULSE"@) {
        match pulse_at(ts, pos) {
            (Ok(x), p) => (Ok(TransientView::Pulse(x)), p),
            (Err(e), p) => (Err(e), p),
        }
    } else if matches_at(ts, pos, "PWL"@) {
        match pwl_at(ts, pos) {
            (Ok(x), p) => (Ok(TransientView::Pwl(x)), p),
            (Err(e), p) => (Err(e), p),
        }
    } else if matches_at(ts, pos, "SIN"@) {
        match sin_at(ts, pos) {
            (Ok(x), p) => (Ok(TransientView::Sin(x)), p),
            (Err(e), p) => (Err(e), p),
        }
    } else if matches_at(ts, pos, "EXP"@) {
        match exp_at(ts, pos) {
            (Ok(x), p) => (Ok(TransientView::Exp(x)), p),
            (Err(e), p) => (Err(e), p),
        }
    } else if matches_at(ts, pos, "SFFM"@) {
        match sffm_at(ts, pos) {
            (Ok(x), p) => (Ok(TransientView::Sffm(x)), p),
            (Err(e), p) => (Err(e), p),
        }
    } else if matches_at(ts, pos, "VAC"@) {
        match vac_at(ts, pos) {
            (Ok(x), p) => (Ok(TransientView::Vac(x)), p),
            (Err(e), p) => (Err(e), p),
        }
    } else {
        (
            Err(quoting_error("Expect `"@, ts[pos as int].raw, "' to be a transient specification"@, Some(ts[pos as int].place()))),
            pos,
        )
    }
}

impl<'a> SpiceLineParser<'a> {
    /// Parses a [`Transient`].
    pub fn parse_transient(&mut self) -> (r: ParseResult<Transient>)
        ensures
            parsed(*old(self), *final(self), r, transient_at(old(self).tokens(), old(self).cursor())),
            r is Ok ==> old(self).position < final(self).position <= old(self).vec.len(),
    {
        reveal(transient_at);
        let token = self.token()?;
        if self.matches("PULSE") {
            Ok(Transient::Pulse(self.parse_pulse()?))
        } else if self.matches("PWL") {
            Ok(Transient::Pwl(self.parse_pwl()?))
        } else if self.matches("SIN") {
            Ok(Transient::Sin(self.parse_sin()?))
        } else if self.matches("EXP") {
            Ok(Transient::Exp(self.parse_exp()?))
        } else if self.matches("SFFM") {
            Ok(Transient::Sffm(self.parse_sffm()?))
        } else if self.matches("VAC") {
            Ok(Transient::Vac(self.parse_vac()?))
        } else {
            Err(ParseError::quoting("Expect `", token.raw.as_str(), "' to be a transient specification", Some(token.place())))
        }
    }
}

impl TryParse<Transient> for SpiceLineParser<'_> {
    open spec fn rule(ts: Seq<AtomView>, pos: nat) -> Outcome<TransientView> {
        transient_at(ts, pos)
    }

    fn try_parse(&mut self) -> (r: ParseResult<Transient>) {
        self.parse_transient()
    }
}

/// An optional `DcSource`: the value where the rule accepts, and otherwise
/// nothing, with the cursor where it was.
#[verifier::opaque]
pub open spec fn optional_dc_source_at(ts: Seq<AtomView>, pos: nat) -> Outcome<Option<DcSourceView>> {
    optional_of(dc_source_at(ts, pos), pos)
}

impl<'a> SpiceLineParser<'a> {
    /// Parses an optional `DcSource`.
    pub fn parse_optional_dc_source(&mut self) -> (r: ParseResult<Option<DcSource>>)
        ensures
            parsed(*old(self), *final(self), r, optional_dc_source_at(old(self).tokens(), old(self).cursor())),
            r is Ok,
            r is Ok && old(self).position <= old(self).vec.len() ==> final(self).position <= old(self).vec.len(),
    {
        reveal(optional_dc_source_at);
        self.parse_optional::<DcSource>()
    }
}

impl TryParse<Option<DcSource>> for SpiceLineParser<'_> {
    open spec fn rule(ts: Seq<AtomView>, pos: nat) -> Outcome<Option<DcSourceView>> {
        optional_dc_source_at(ts, pos)
    }

    fn try_parse(&mut self) -> (r: ParseResult<Option<DcSource>>) {
        self.parse_optional_dc_source()
    }
}

/// An optional `AcSource`: the value where the rule accepts, and otherwise
/// nothing, with the cursor where it was.
#[verifier::opaque]
pub open spec fn optional_ac_source_at(ts: Seq<AtomView>, pos: nat) -> Outcome<Option<AcSourceView>> {
    optional_of(ac_source_at(ts, pos), pos)
}

impl<'a> SpiceLineParser<'a> {
    /// Parses an optional `AcSource`.
    pub fn parse_optional_ac_source(&mut self) -> (r: ParseResult<Option<AcSource>>)
        ensures
            parsed(*old(self), *final(self), r, optional_ac_source_at(old(self).tokens(), old(self).cursor())),
            r is Ok,
            r is Ok && old(self).position <= old(self).vec.len() ==> final(self).position <= old(self).vec.len(),
    {
        reveal(optional_ac_source_at);
        self.parse_optional::<AcSource>()
    }
}

impl TryParse<Option<AcSource>> for SpiceLineParser<'_> {
    open spec fn rule(ts: Seq<AtomView>, pos: nat) -> Outcome<Option<AcSourceView>> {
        optional_ac_source_at(ts, pos)
    }

    fn try_parse(&mut self) -> (r: ParseResult<Option<AcSource>>) {
        self.parse_optional_ac_source()
    }
}

/// An optional `Transient`: the value where the rule accepts, and otherwise
/// nothing, with the cursor where it was.
#[verifier::opaque]
pub open spec fn optional_transient_at(ts: Seq<AtomView>, pos: nat) -> Outcome<Option<TransientView>> {
    optional_of(transient_at(ts, pos), pos)
}

impl<'a> SpiceLineParser<'a> {
    /// Parses an optional `Transient`.
    pub fn parse_optional_transient(&mut self) -> (r: ParseResult<Option<Transient>>)
        ensures
            parsed(*old(self), *final(self), r, optional_transient_at(old(self).tokens(), old(self).cursor())),
            r is Ok,
            r is Ok && old(self).position <= old(self).vec.len() ==> final(self).position <= old(self).vec.len(),
    {
        reveal(optional_transient_at);
        self.parse_optional::<Transient>()
    }
}

impl TryParse<Option<Transient>> for SpiceLineParser<'_> {
    open spec fn rule(ts: Seq<AtomView>, pos: nat) -> Outcome<Option<TransientView>> {
        optional_transient_at(ts, pos)
    }

    fn try_parse(&mut self) -> (r: ParseResult<Option<Transient>>) {
        self.parse_optional_transient()
    }
}

} // verus!
