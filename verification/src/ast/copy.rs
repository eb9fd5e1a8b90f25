//! Copies of syntax trees. What `derive` writes for `Clone` carries no
//! contract; a copy made by [`Duplicate`] is proved to have the content of
//! the value it was made from.

use crate::ast::{
    AcType, ExplicitNode, Limits, Name, Node, OptionParenthesis, Options, Pairs, Param,
    PrintVariable,
};
use crate::ast::command::{
    AcCommand, DcCommand, EndCommand, EndsCommand, FourCommand, FuncCommand, GlobalCommand,
    IcCommand, IncCommand, LibCommand, McCommand, ModelCommand, NodeSetCommand, NoiseCommand,
    OpCommand, OptionsCommand, ParamCommand, PlotCommand, PrintCommand, ProbeCommand, ProbeSource,
    SensCommand, StepCommand, TempCommand, TextCommand, TfCommand, TranCommand, TranCommandParams,
    WatchCommand, WidthCommand,
};
use crate::ast::component::{
    BComponent, CComponent, CComponentParams, Component, DComponent, EComponent, FComponent,
    GComponent, HComponent, IComponent, JComponent, KComponent, LComponent, LComponentParams,
    MComponent, MComponentParams, QComponent, RComponent, RComponentParams, SComponent, TComponent,
    TComponentParams, VComponent, WComponent, XComponent, ZComponent, ZComponentParams,
};
use crate::ast::expression::{Expr, Number, Text};
use crate::ast::gain::{
    ChebyshevGain, ChebyshevGainParams, CurrentGain, FreqGain, FreqGainParams, FreqKeyword,
    LaplaceGain, PolyCurrentGain, PolyVoltageGain, SimpleCurrentGain, SimpleVoltageGain, TableGain,
    ValueGain, VoltageGain,
};
use crate::ast::sweep::{Dec, Lin, List, Oct, Sweep, SweepName};
use crate::ast::transient::{AcSource, DcSource, Exp, Pulse, Pwl, Sffm, Sin, Transient, Vac};
use crate::ast::variable::{CurrentVariable, OutputVariable, PowerVariable, VoltageVariable};
use vstd::prelude::*;

verus! {

/// Values that can be copied with their content.
pub trait Duplicate: DeepView + Sized {
    /// A copy of the value: its content is that of the value.
    fn duplicate(&self) -> (r: Self)
        ensures
            r.deep_view() == self.deep_view(),
    ;
}

impl Duplicate for bool {
    fn duplicate(&self) -> (r: Self) {
        *self
    }
}

impl Duplicate for usize {
    fn duplicate(&self) -> (r: Self) {
        *self
    }
}

impl<T: Duplicate> Duplicate for Option<T> {
    fn duplicate(&self) -> (r: Self) {
        match self {
            Some(x) => Some(x.duplicate()),
            None => None,
        }
    }
}

impl<T: Duplicate> Duplicate for Vec<T> {
    fn duplicate(&self) -> (r: Self) {
        let mut r: Vec<T> = Vec::new();
        let mut i: usize = 0;
        while i < self.len()
            invariant
                i <= self.len(),
                r.len() == i,
                forall|k: int| 0 <= k < i ==> r[k].deep_view() == self[k].deep_view(),
            decreases self.len() - i,
        {
            r.push(self[i].duplicate());
            i += 1;
        }
        assert(r.deep_view() =~= self.deep_view());
        r
    }
}

impl<A: Duplicate, B: Duplicate> Duplicate for (A, B) {
    fn duplicate(&self) -> (r: Self) {
        (self.0.duplicate(), self.1.duplicate())
    }
}

impl<A: Duplicate, B: Duplicate, C: Duplicate> Duplicate for (A, B, C) {
    fn duplicate(&self) -> (r: Self) {
        (self.0.duplicate(), self.1.duplicate(), self.2.duplicate())
    }
}

impl<A: Duplicate, B: Duplicate, C: Duplicate, D: Duplicate> Duplicate for (A, B, C, D) {
    fn duplicate(&self) -> (r: Self) {
        (self.0.duplicate(), self.1.duplicate(), self.2.duplicate(), self.3.duplicate())
    }
}

impl Duplicate for Node {
    fn duplicate(&self) -> (r: Self) {
        self.clone()
    }
}

impl Duplicate for ExplicitNode {
    fn duplicate(&self) -> (r: Self) {
        self.clone()
    }
}

impl Duplicate for Name {
    fn duplicate(&self) -> (r: Self) {
        self.clone()
    }
}

impl Duplicate for AcType {
    fn duplicate(&self) -> (r: Self) {
        *self
    }
}

impl<T: Duplicate> Duplicate for Param<T> {
    fn duplicate(&self) -> (r: Self) {
        Param {
            name: self.name.duplicate(),
            value: self.value.duplicate(),
        }
    }
}

impl<T: Duplicate, R: Duplicate> Duplicate for Pairs<T, R> {
    fn duplicate(&self) -> (r: Self) {
        Pairs {
            name: self.name.duplicate(),
            value: self.value.duplicate(),
        }
    }
}

impl<T: Duplicate> Duplicate for Options<T> {
    fn duplicate(&self) -> (r: Self) {
        Options {
            name: self.name.duplicate(),
            value: self.value.duplicate(),
        }
    }
}

impl<T: Duplicate> Duplicate for OptionParenthesis<T> {
    fn duplicate(&self) -> (r: Self) {
        OptionParenthesis(self.0.duplicate())
    }
}

impl Duplicate for Limits {
    fn duplicate(&self) -> (r: Self) {
        Limits {
            lower: self.lower.duplicate(),
            upper: self.upper.duplicate(),
        }
    }
}

impl Duplicate for PrintVariable {
    fn duplicate(&self) -> (r: Self) {
        PrintVariable {
            variable: self.variable.duplicate(),
            limits: self.limits.duplicate(),
        }
    }
}

impl Duplicate for AcCommand {
    fn duplicate(&self) -> (r: Self) {
        AcCommand {
            ty: self.ty.duplicate(),
            np: self.np.duplicate(),
            fstart: self.fstart.duplicate(),
            fend: self.fend.duplicate(),
        }
    }
}

impl Duplicate for DcCommand {
    fn duplicate(&self) -> (r: Self) {
        DcCommand {
            sweeps: self.sweeps.duplicate(),
        }
    }
}

impl Duplicate for EndCommand {
    fn duplicate(&self) -> (r: Self) {
        *self
    }
}

impl Duplicate for FourCommand {
    fn duplicate(&self) -> (r: Self) {
        FourCommand {
            freq: self.freq.duplicate(),
            np: self.np.duplicate(),
            variables: self.variables.duplicate(),
        }
    }
}

impl Duplicate for FuncCommand {
    fn duplicate(&self) -> (r: Self) {
        *self
    }
}

impl Duplicate for GlobalCommand {
    fn duplicate(&self) -> (r: Self) {
        GlobalCommand {
            node: self.node.duplicate(),
        }
    }
}

impl Duplicate for IcCommand {
    fn duplicate(&self) -> (r: Self) {
        IcCommand {
            ics: self.ics.duplicate(),
        }
    }
}

impl Duplicate for IncCommand {
    fn duplicate(&self) -> (r: Self) {
        IncCommand {
            filename: self.filename.duplicate(),
        }
    }
}

impl Duplicate for LibCommand {
    fn duplicate(&self) -> (r: Self) {
        LibCommand {
            filename: self.filename.duplicate(),
        }
    }
}

impl Duplicate for McCommand {
    fn duplicate(&self) -> (r: Self) {
        *self
    }
}

impl Duplicate for ModelCommand {
    fn duplicate(&self) -> (r: Self) {
        ModelCommand {
            name: self.name.duplicate(),
            reference: self.reference.duplicate(),
            ty: self.ty.duplicate(),
            params: self.params.duplicate(),
        }
    }
}

impl Duplicate for NodeSetCommand {
    fn duplicate(&self) -> (r: Self) {
        NodeSetCommand {
            nodesets: self.nodesets.duplicate(),
        }
    }
}

impl Duplicate for NoiseCommand {
    fn duplicate(&self) -> (r: Self) {
        NoiseCommand {
            variable: self.variable.duplicate(),
            source: self.source.duplicate(),
            m: self.m.duplicate(),
        }
    }
}

impl Duplicate for OpCommand {
    fn duplicate(&self) -> (r: Self) {
        *self
    }
}

impl Duplicate for OptionsCommand {
    fn duplicate(&self) -> (r: Self) {
        OptionsCommand {
            options: self.options.duplicate(),
        }
    }
}

impl Duplicate for ParamCommand {
    fn duplicate(&self) -> (r: Self) {
        ParamCommand {
            params: self.params.duplicate(),
        }
    }
}

impl Duplicate for ProbeSource {
    fn duplicate(&self) -> (r: Self) {
        *self
    }
}

impl Duplicate for PlotCommand {
    fn duplicate(&self) -> (r: Self) {
        PlotCommand {
            source: self.source.duplicate(),
            variables: self.variables.duplicate(),
        }
    }
}

impl Duplicate for PrintCommand {
    fn duplicate(&self) -> (r: Self) {
        PrintCommand {
            dgtlchg: self.dgtlchg.duplicate(),
            source: self.source.duplicate(),
            variables: self.variables.duplicate(),
        }
    }
}

impl Duplicate for ProbeCommand {
    fn duplicate(&self) -> (r: Self) {
        ProbeCommand {
            csdf: self.csdf.duplicate(),
            variables: self.variables.duplicate(),
        }
    }
}

impl Duplicate for SensCommand {
    fn duplicate(&self) -> (r: Self) {
        SensCommand {
            variables: self.variables.duplicate(),
        }
    }
}

impl Duplicate for StepCommand {
    fn duplicate(&self) -> (r: Self) {
        StepCommand {
            sweeps: self.sweeps.duplicate(),
        }
    }
}

impl Duplicate for EndsCommand {
    fn duplicate(&self) -> (r: Self) {
        EndsCommand {
            name: self.name.duplicate(),
        }
    }
}

impl Duplicate for TempCommand {
    fn duplicate(&self) -> (r: Self) {
        TempCommand {
            temps: self.temps.duplicate(),
        }
    }
}

impl Duplicate for TextCommand {
    fn duplicate(&self) -> (r: Self) {
        TextCommand {
            texts: self.texts.duplicate(),
        }
    }
}

impl Duplicate for TfCommand {
    fn duplicate(&self) -> (r: Self) {
        TfCommand {
            output: self.output.duplicate(),
            input: self.input.duplicate(),
        }
    }
}

impl Duplicate for TranCommandParams {
    fn duplicate(&self) -> (r: Self) {
        TranCommandParams {
            uic: self.uic.duplicate(),
            skipbp: self.skipbp.duplicate(),
        }
    }
}

impl Duplicate for TranCommand {
    fn duplicate(&self) -> (r: Self) {
        TranCommand {
            op: self.op.duplicate(),
            tstep: self.tstep.duplicate(),
            tstop: self.tstop.duplicate(),
            tstart: self.tstart.duplicate(),
            tmax: self.tmax.duplicate(),
            params: self.params.duplicate(),
        }
    }
}

impl Duplicate for WatchCommand {
    fn duplicate(&self) -> (r: Self) {
        WatchCommand {
            source: self.source.duplicate(),
            variables: self.variables.duplicate(),
        }
    }
}

impl Duplicate for WidthCommand {
    fn duplicate(&self) -> (r: Self) {
        WidthCommand {
            width: self.width.duplicate(),
        }
    }
}

impl Duplicate for BComponent {
    fn duplicate(&self) -> (r: Self) {
        BComponent {
            name: self.name.duplicate(),
            drain: self.drain.duplicate(),
            gate: self.gate.duplicate(),
            source: self.source.duplicate(),
            model: self.model.duplicate(),
            area: self.area.duplicate(),
        }
    }
}

impl Duplicate for CComponentParams {
    fn duplicate(&self) -> (r: Self) {
        CComponentParams {
            ic: self.ic.duplicate(),
        }
    }
}

impl Duplicate for CComponent {
    fn duplicate(&self) -> (r: Self) {
        CComponent {
            name: self.name.duplicate(),
            node1: self.node1.duplicate(),
            node2: self.node2.duplicate(),
            model: self.model.duplicate(),
            value: self.value.duplicate(),
            params: self.params.duplicate(),
        }
    }
}

impl Duplicate for DComponent {
    fn duplicate(&self) -> (r: Self) {
        DComponent {
            name: self.name.duplicate(),
            node1: self.node1.duplicate(),
            node2: self.node2.duplicate(),
            model: self.model.duplicate(),
            area: self.area.duplicate(),
        }
    }
}

impl Duplicate for EComponent {
    fn duplicate(&self) -> (r: Self) {
        EComponent {
            name: self.name.duplicate(),
            node1: self.node1.duplicate(),
            node2: self.node2.duplicate(),
            gain: self.gain.duplicate(),
        }
    }
}

impl Duplicate for FComponent {
    fn duplicate(&self) -> (r: Self) {
        FComponent {
            name: self.name.duplicate(),
            node1: self.node1.duplicate(),
            node2: self.node2.duplicate(),
            gain: self.gain.duplicate(),
        }
    }
}

impl Duplicate for GComponent {
    fn duplicate(&self) -> (r: Self) {
        GComponent {
            name: self.name.duplicate(),
            node1: self.node1.duplicate(),
            node2: self.node2.duplicate(),
            gain: self.gain.duplicate(),
        }
    }
}

impl Duplicate for HComponent {
    fn duplicate(&self) -> (r: Self) {
        HComponent {
            name: self.name.duplicate(),
            node1: self.node1.duplicate(),
            node2: self.node2.duplicate(),
            gain: self.gain.duplicate(),
        }
    }
}

impl Duplicate for IComponent {
    fn duplicate(&self) -> (r: Self) {
        IComponent {
            name: self.name.duplicate(),
            node1: self.node1.duplicate(),
            node2: self.node2.duplicate(),
            dc: self.dc.duplicate(),
            ac: self.ac.duplicate(),
            transient: self.transient.duplicate(),
        }
    }
}

impl Duplicate for JComponent {
    fn duplicate(&self) -> (r: Self) {
        JComponent {
            name: self.name.duplicate(),
            drain: self.drain.duplicate(),
            gate: self.gate.duplicate(),
            source: self.source.duplicate(),
            model: self.model.duplicate(),
            area: self.area.duplicate(),
        }
    }
}

impl Duplicate for KComponent {
    fn duplicate(&self) -> (r: Self) {
        KComponent {
            name: self.name.duplicate(),
            inducts: self.inducts.duplicate(),
            k: self.k.duplicate(),
            model: self.model.duplicate(),
        }
    }
}

impl Duplicate for LComponentParams {
    fn duplicate(&self) -> (r: Self) {
        LComponentParams {
            ic: self.ic.duplicate(),
        }
    }
}

impl Duplicate for LComponent {
    fn duplicate(&self) -> (r: Self) {
        LComponent {
            name: self.name.duplicate(),
            node1: self.node1.duplicate(),
            node2: self.node2.duplicate(),
            model: self.model.duplicate(),
            value: self.value.duplicate(),
            params: self.params.duplicate(),
        }
    }
}

impl Duplicate for MComponentParams {
    fn duplicate(&self) -> (r: Self) {
        MComponentParams {
            l: self.l.duplicate(),
            w: self.w.duplicate(),
            ad: self.ad.duplicate(),
            as_: self.as_.duplicate(),
            pd: self.pd.duplicate(),
            ps: self.ps.duplicate(),
            nrd: self.nrd.duplicate(),
            nrs: self.nrs.duplicate(),
            nrg: self.nrg.duplicate(),
            nrb: self.nrb.duplicate(),
            m: self.m.duplicate(),
            n: self.n.duplicate(),
        }
    }
}

impl Duplicate for MComponent {
    fn duplicate(&self) -> (r: Self) {
        MComponent {
            name: self.name.duplicate(),
            drain: self.drain.duplicate(),
            gate: self.gate.duplicate(),
            source: self.source.duplicate(),
            bulk: self.bulk.duplicate(),
            model: self.model.duplicate(),
            params: self.params.duplicate(),
        }
    }
}

impl Duplicate for QComponent {
    fn duplicate(&self) -> (r: Self) {
        QComponent {
            name: self.name.duplicate(),
            collector: self.collector.duplicate(),
            base: self.base.duplicate(),
            emitter: self.emitter.duplicate(),
            substrate: self.substrate.duplicate(),
            model: self.model.duplicate(),
            area: self.area.duplicate(),
        }
    }
}

impl Duplicate for RComponentParams {
    fn duplicate(&self) -> (r: Self) {
        RComponentParams {
            tc: self.tc.duplicate(),
        }
    }
}

impl Duplicate for RComponent {
    fn duplicate(&self) -> (r: Self) {
        RComponent {
            name: self.name.duplicate(),
            node1: self.node1.duplicate(),
            node2: self.node2.duplicate(),
            model: self.model.duplicate(),
            value: self.value.duplicate(),
            params: self.params.duplicate(),
        }
    }
}

impl Duplicate for SComponent {
    fn duplicate(&self) -> (r: Self) {
        SComponent {
            name: self.name.duplicate(),
            snode1: self.snode1.duplicate(),
            snode2: self.snode2.duplicate(),
            cnode1: self.cnode1.duplicate(),
            cnode2: self.cnode2.duplicate(),
            model: self.model.duplicate(),
        }
    }
}

impl Duplicate for TComponentParams {
    fn duplicate(&self) -> (r: Self) {
        TComponentParams {
            z0: self.z0.duplicate(),
            td: self.td.duplicate(),
            f: self.f.duplicate(),
            nl: self.nl.duplicate(),
            ic: self.ic.duplicate(),
            len: self.len.duplicate(),
            r: self.r.duplicate(),
            l: self.l.duplicate(),
            g: self.g.duplicate(),
            c: self.c.duplicate(),
        }
    }
}

impl Duplicate for TComponent {
    fn duplicate(&self) -> (r: Self) {
        TComponent {
            name: self.name.duplicate(),
            anode1: self.anode1.duplicate(),
            anode2: self.anode2.duplicate(),
            bnode1: self.bnode1.duplicate(),
            bnode2: self.bnode2.duplicate(),
            model: self.model.duplicate(),
            params: self.params.duplicate(),
        }
    }
}

impl Duplicate for VComponent {
    fn duplicate(&self) -> (r: Self) {
        VComponent {
            name: self.name.duplicate(),
            node1: self.node1.duplicate(),
            node2: self.node2.duplicate(),
            dc: self.dc.duplicate(),
            ac: self.ac.duplicate(),
            transient: self.transient.duplicate(),
        }
    }
}

impl Duplicate for WComponent {
    fn duplicate(&self) -> (r: Self) {
        WComponent {
            name: self.name.duplicate(),
            snode1: self.snode1.duplicate(),
            snode2: self.snode2.duplicate(),
            vdevice: self.vdevice.duplicate(),
            model: self.model.duplicate(),
        }
    }
}

impl Duplicate for XComponent {
    fn duplicate(&self) -> (r: Self) {
        XComponent {
            name: self.name.duplicate(),
            pins: self.pins.duplicate(),
            sname: self.sname.duplicate(),
            params: self.params.duplicate(),
            texts: self.texts.duplicate(),
        }
    }
}

impl Duplicate for ZComponentParams {
    fn duplicate(&self) -> (r: Self) {
        ZComponentParams {
            area: self.area.duplicate(),
            wb: self.wb.duplicate(),
            agd: self.agd.duplicate(),
            kp: self.kp.duplicate(),
            tau: self.tau.duplicate(),
        }
    }
}

impl Duplicate for ZComponent {
    fn duplicate(&self) -> (r: Self) {
        ZComponent {
            name: self.name.duplicate(),
            collector: self.collector.duplicate(),
            gate: self.gate.duplicate(),
            emitter: self.emitter.duplicate(),
            model: self.model.duplicate(),
            params: self.params.duplicate(),
        }
    }
}

impl Duplicate for Component {
    fn duplicate(&self) -> (r: Self) {
        match self {
            Component::B(x) => Component::B(x.duplicate()),
            Component::C(x) => Component::C(x.duplicate()),
            Component::D(x) => Component::D(x.duplicate()),
            Component::E(x) => Component::E(x.duplicate()),
            Component::F(x) => Component::F(x.duplicate()),
            Component::G(x) => Component::G(x.duplicate()),
            Component::H(x) => Component::H(x.duplicate()),
            Component::I(x) => Component::I(x.duplicate()),
            Component::J(x) => Component::J(x.duplicate()),
            Component::K(x) => Component::K(x.duplicate()),
            Component::L(x) => Component::L(x.duplicate()),
            Component::M(x) => Component::M(x.duplicate()),
            Component::Q(x) => Component::Q(x.duplicate()),
            Component::R(x) => Component::R(x.duplicate()),
            Component::S(x) => Component::S(x.duplicate()),
            Component::T(x) => Component::T(x.duplicate()),
            Component::V(x) => Component::V(x.duplicate()),
            Component::W(x) => Component::W(x.duplicate()),
            Component::X(x) => Component::X(x.duplicate()),
            Component::Z(x) => Component::Z(x.duplicate()),
        }
    }
}

impl Duplicate for Text {
    fn duplicate(&self) -> (r: Self) {
        self.clone()
    }
}

impl Duplicate for Expr {
    fn duplicate(&self) -> (r: Self) {
        self.clone()
    }
}

impl Duplicate for Number {
    fn duplicate(&self) -> (r: Self) {
        self.clone()
    }
}

impl Duplicate for SimpleVoltageGain {
    fn duplicate(&self) -> (r: Self) {
        SimpleVoltageGain {
            node1: self.node1.duplicate(),
            node2: self.node2.duplicate(),
            gain: self.gain.duplicate(),
        }
    }
}

impl Duplicate for SimpleCurrentGain {
    fn duplicate(&self) -> (r: Self) {
        SimpleCurrentGain {
            vdevice: self.vdevice.duplicate(),
            gain: self.gain.duplicate(),
        }
    }
}

impl Duplicate for PolyVoltageGain {
    fn duplicate(&self) -> (r: Self) {
        PolyVoltageGain {
            n: self.n.duplicate(),
            nodes: self.nodes.duplicate(),
            coefficients: self.coefficients.duplicate(),
        }
    }
}

impl Duplicate for PolyCurrentGain {
    fn duplicate(&self) -> (r: Self) {
        PolyCurrentGain {
            n: self.n.duplicate(),
            vdevices: self.vdevices.duplicate(),
            coefficients: self.coefficients.duplicate(),
        }
    }
}

impl Duplicate for ValueGain {
    fn duplicate(&self) -> (r: Self) {
        ValueGain {
            value: self.value.duplicate(),
        }
    }
}

impl Duplicate for TableGain {
    fn duplicate(&self) -> (r: Self) {
        TableGain {
            expression: self.expression.duplicate(),
            values: self.values.duplicate(),
        }
    }
}

impl Duplicate for LaplaceGain {
    fn duplicate(&self) -> (r: Self) {
        LaplaceGain {
            expression: self.expression.duplicate(),
            transform: self.transform.duplicate(),
        }
    }
}

impl Duplicate for FreqKeyword {
    fn duplicate(&self) -> (r: Self) {
        *self
    }
}

impl Duplicate for FreqGainParams {
    fn duplicate(&self) -> (r: Self) {
        FreqGainParams {
            delay: self.delay.duplicate(),
        }
    }
}

impl Duplicate for FreqGain {
    fn duplicate(&self) -> (r: Self) {
        FreqGain {
            expression: self.expression.duplicate(),
            keyword: self.keyword.duplicate(),
            values: self.values.duplicate(),
            params: self.params.duplicate(),
        }
    }
}

impl Duplicate for ChebyshevGainParams {
    fn duplicate(&self) -> (r: Self) {
        ChebyshevGainParams {
            lp: self.lp.duplicate(),
            hp: self.hp.duplicate(),
            bp: self.bp.duplicate(),
            br: self.br.duplicate(),
        }
    }
}

impl Duplicate for ChebyshevGain {
    fn duplicate(&self) -> (r: Self) {
        ChebyshevGain {
            expression: self.expression.duplicate(),
            params: self.params.duplicate(),
            cutoffs: self.cutoffs.duplicate(),
            attenuations: self.attenuations.duplicate(),
        }
    }
}

impl Duplicate for VoltageGain {
    fn duplicate(&self) -> (r: Self) {
        match self {
            VoltageGain::Simple(x) => VoltageGain::Simple(x.duplicate()),
            VoltageGain::Poly(x) => VoltageGain::Poly(x.duplicate()),
            VoltageGain::Value(x) => VoltageGain::Value(x.duplicate()),
            VoltageGain::Table(x) => VoltageGain::Table(x.duplicate()),
            VoltageGain::Laplace(x) => VoltageGain::Laplace(x.duplicate()),
            VoltageGain::Freq(x) => VoltageGain::Freq(x.duplicate()),
            VoltageGain::Chebyshev(x) => VoltageGain::Chebyshev(x.duplicate()),
        }
    }
}

impl Duplicate for CurrentGain {
    fn duplicate(&self) -> (r: Self) {
        match self {
            CurrentGain::Simple(x) => CurrentGain::Simple(x.duplicate()),
            CurrentGain::Poly(x) => CurrentGain::Poly(x.duplicate()),
        }
    }
}

impl Duplicate for SweepName {
    fn duplicate(&self) -> (r: Self) {
        match self {
            SweepName::Power { name } => SweepName::Power {
                name: name.duplicate(),
            },
            SweepName::ModelParam { name1, name2, param } => SweepName::ModelParam {
                name1: name1.duplicate(),
                name2: name2.duplicate(),
                param: param.duplicate(),
            },
            SweepName::Temp => SweepName::Temp,
            SweepName::Param { name } => SweepName::Param {
                name: name.duplicate(),
            },
        }
    }
}

impl Duplicate for Lin {
    fn duplicate(&self) -> (r: Self) {
        Lin {
            swname: self.swname.duplicate(),
            sstart: self.sstart.duplicate(),
            send: self.send.duplicate(),
            sinc: self.sinc.duplicate(),
        }
    }
}

impl Duplicate for Oct {
    fn duplicate(&self) -> (r: Self) {
        Oct {
            swname: self.swname.duplicate(),
            sstart: self.sstart.duplicate(),
            send: self.send.duplicate(),
            np: self.np.duplicate(),
        }
    }
}

impl Duplicate for Dec {
    fn duplicate(&self) -> (r: Self) {
        Dec {
            swname: self.swname.duplicate(),
            sstart: self.sstart.duplicate(),
            send: self.send.duplicate(),
            np: self.np.duplicate(),
        }
    }
}

impl Duplicate for List {
    fn duplicate(&self) -> (r: Self) {
        List {
            swname: self.swname.duplicate(),
            values: self.values.duplicate(),
        }
    }
}

impl Duplicate for Sweep {
    fn duplicate(&self) -> (r: Self) {
        match self {
            Sweep::Lin(x) => Sweep::Lin(x.duplicate()),
            Sweep::Oct(x) => Sweep::Oct(x.duplicate()),
            Sweep::Dec(x) => Sweep::Dec(x.duplicate()),
            Sweep::List(x) => Sweep::List(x.duplicate()),
        }
    }
}

impl Duplicate for DcSource {
    fn duplicate(&self) -> (r: Self) {
        DcSource {
            dc: self.dc.duplicate(),
            value: self.value.duplicate(),
        }
    }
}

impl Duplicate for AcSource {
    fn duplicate(&self) -> (r: Self) {
        AcSource {
            magnitude: self.magnitude.duplicate(),
            phase: self.phase.duplicate(),
        }
    }
}

impl Duplicate for Pulse {
    fn duplicate(&self) -> (r: Self) {
        Pulse {
            v1: self.v1.duplicate(),
            v2: self.v2.duplicate(),
            td: self.td.duplicate(),
            tr: self.tr.duplicate(),
            tf: self.tf.duplicate(),
            pw: self.pw.duplicate(),
            per: self.per.duplicate(),
        }
    }
}

impl Duplicate for Pwl {
    fn duplicate(&self) -> (r: Self) {
        Pwl {
            points: self.points.duplicate(),
        }
    }
}

impl Duplicate for Sin {
    fn duplicate(&self) -> (r: Self) {
        Sin {
            v0: self.v0.duplicate(),
            vampl: self.vampl.duplicate(),
            freq: self.freq.duplicate(),
            td: self.td.duplicate(),
            alpha: self.alpha.duplicate(),
            theta: self.theta.duplicate(),
        }
    }
}

impl Duplicate for Exp {
    fn duplicate(&self) -> (r: Self) {
        Exp {
            v1: self.v1.duplicate(),
            v2: self.v2.duplicate(),
            td1: self.td1.duplicate(),
            tc1: self.tc1.duplicate(),
            td2: self.td2.duplicate(),
            tc2: self.tc2.duplicate(),
        }
    }
}

impl Duplicate for Sffm {
    fn duplicate(&self) -> (r: Self) {
        Sffm {
            v0: self.v0.duplicate(),
            va: self.va.duplicate(),
            fc: self.fc.duplicate(),
            md: self.md.duplicate(),
            fs: self.fs.duplicate(),
        }
    }
}

impl Duplicate for Vac {
    fn duplicate(&self) -> (r: Self) {
        Vac {
            dc: self.dc.duplicate(),
            ac_mag: self.ac_mag.duplicate(),
            ac_phase: self.ac_phase.duplicate(),
        }
    }
}

impl Duplicate for Transient {
    fn duplicate(&self) -> (r: Self) {
        match self {
            Transient::Pulse(x) => Transient::Pulse(x.duplicate()),
            Transient::Pwl(x) => Transient::Pwl(x.duplicate()),
            Transient::Sin(x) => Transient::Sin(x.duplicate()),
            Transient::Exp(x) => Transient::Exp(x.duplicate()),
            Transient::Sffm(x) => Transient::Sffm(x.duplicate()),
            Transient::Vac(x) => Transient::Vac(x.duplicate()),
        }
    }
}

impl Duplicate for VoltageVariable {
    fn duplicate(&self) -> (r: Self) {
        match self {
            VoltageVariable::Node { node, suffix } => VoltageVariable::Node {
                node: node.duplicate(),
                suffix: *suffix,
            },
            VoltageVariable::Node2 { node1, node2, suffix } => VoltageVariable::Node2 {
                node1: node1.duplicate(),
                node2: node2.duplicate(),
                suffix: *suffix,
            },
            VoltageVariable::Name { name, suffix } => VoltageVariable::Name {
                name: name.duplicate(),
                suffix: *suffix,
            },
            VoltageVariable::NameX { name, x, suffix } => VoltageVariable::NameX {
                name: name.duplicate(),
                x: *x,
                suffix: *suffix,
            },
            VoltageVariable::NameZ { name, z, suffix } => VoltageVariable::NameZ {
                name: name.duplicate(),
                z: *z,
                suffix: *suffix,
            },
            VoltageVariable::NameXY { name, x, y, suffix } => VoltageVariable::NameXY {
                name: name.duplicate(),
                x: *x,
                y: *y,
                suffix: *suffix,
            },
        }
    }
}

impl Duplicate for CurrentVariable {
    fn duplicate(&self) -> (r: Self) {
        match self {
            CurrentVariable::Name { name, suffix } => CurrentVariable::Name {
                name: name.duplicate(),
                suffix: *suffix,
            },
            CurrentVariable::NameX { name, x, suffix } => CurrentVariable::NameX {
                name: name.duplicate(),
                x: *x,
                suffix: *suffix,
            },
            CurrentVariable::NameZ { name, z, suffix } => CurrentVariable::NameZ {
                name: name.duplicate(),
                z: *z,
                suffix: *suffix,
            },
        }
    }
}

impl Duplicate for PowerVariable {
    fn duplicate(&self) -> (r: Self) {
        PowerVariable {
            name: self.name.duplicate(),
            suffix: self.suffix,
        }
    }
}

impl Duplicate for OutputVariable {
    fn duplicate(&self) -> (r: Self) {
        match self {
            OutputVariable::Voltage(x) => OutputVariable::Voltage(x.duplicate()),
            OutputVariable::Current(x) => OutputVariable::Current(x.duplicate()),
            OutputVariable::Power(x) => OutputVariable::Power(x.duplicate()),
            OutputVariable::Noise(x) => OutputVariable::Noise(*x),
        }
    }
}

} // verus!
