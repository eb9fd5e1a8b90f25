//! Output variables: what an analysis reports.
//!
//! A variable is written as a letter, a suffix and an argument in
//! parentheses: `V(2)`, `VM(3,4)`, `IB(Q13)`, `W(R1)`. `INOISE`, `ONOISE`,
//! `DB(INOISE)` and `DB(ONOISE)` are the noise variables.

use crate::ast::{explicit_node_at, name_at, AtomView, ExplicitNode, Name};
use crate::parse::{
    eof_error, expect_at, parsed, quoting_error, unexpected_error, unknown_suffix_error, Outcome,
    ParseError, ParseErrorView, ParseResult, SpiceLineParser, TryParse,
};
use crate::text::{ascii_upper, chars_of, same_word, string_of, to_upper, upper};
use vstd::prelude::*;

verus! {

/// A terminal of a device with three or four of them.
#[derive(Debug, Clone, Copy, PartialEq, Eq, Structural)]
pub enum Terminal {
    /// `B`, base or bulk
    B,
    /// `C`, collector
    C,
    /// `D`, drain
    D,
    /// `E`, emitter
    E,
    /// `G`, gate
    G,
    /// `S`, source
    S,
}

/// An end of a transmission line.
#[derive(Debug, Clone, Copy, PartialEq, Eq, Structural)]
pub enum TransmissionEnd {
    A,
    B,
}

/// What of a variable is reported.
#[derive(Debug, Clone, Copy, PartialEq, Eq, Structural)]
pub enum Suffix {
    /// no suffix: magnitude
    Bare,
    /// `DB`, magnitude in decibels
    Db,
    /// `G`, group delay
    G,
    /// `I`, imaginary part
    I,
    /// `M`, magnitude
    M,
    /// `P`, phase in degrees
    P,
    /// `R`, real part
    R,
}

/// The terminal a letter stands for.
pub open spec fn terminal_of(c: char) -> Option<Terminal> {
    if c == 'B' {
        Some(Terminal::B)
    } else if c == 'C' {
        Some(Terminal::C)
    } else if c == 'D' {
        Some(Terminal::D)
    } else if c == 'E' {
        Some(Terminal::E)
    } else if c == 'G' {
        Some(Terminal::G)
    } else if c == 'S' {
        Some(Terminal::S)
    } else {
        None
    }
}

/// The terminal a text stands for: a single letter of `B C D E G S`.
pub open spec fn terminal_of_text(s: Seq<char>) -> Option<Terminal> {
    if s.len() == 1 {
        terminal_of(s[0])
    } else {
        None
    }
}

/// The line end a letter stands for.
pub open spec fn end_of(c: char) -> Option<TransmissionEnd> {
    if c == 'A' {
        Some(TransmissionEnd::A)
    } else if c == 'B' {
        Some(TransmissionEnd::B)
    } else {
        None
    }
}

/// The line end a text stands for: `A` or `B`.
pub open spec fn end_of_text(s: Seq<char>) -> Option<TransmissionEnd> {
    if s.len() == 1 {
        end_of(s[0])
    } else {
        None
    }
}

/// The suffix a text stands for.
pub open spec fn suffix_of_text(s: Seq<char>) -> Option<Suffix> {
    if s.len() == 0 {
        Some(Suffix::Bare)
    } else if s.len() == 2 && s[0] == 'D' && s[1] == 'B' {
        Some(Suffix::Db)
    } else if s.len() != 1 {
        None
    } else if s[0] == 'G' {
        Some(Suffix::G)
    } else if s[0] == 'I' {
        Some(Suffix::I)
    } else if s[0] == 'M' {
        Some(Suffix::M)
    } else if s[0] == 'P' {
        Some(Suffix::P)
    } else if s[0] == 'R' {
        Some(Suffix::R)
    } else {
        None
    }
}

fn terminal(c: char) -> (r: Option<Terminal>)
    ensures
        r == terminal_of(c),
{
    if c == 'B' {
        Some(Terminal::B)
    } else if c == 'C' {
        Some(Terminal::C)
    } else if c == 'D' {
        Some(Terminal::D)
    } else if c == 'E' {
        Some(Terminal::E)
    } else if c == 'G' {
        Some(Terminal::G)
    } else if c == 'S' {
        Some(Terminal::S)
    } else {
        None
    }
}

fn line_end(c: char) -> (r: Option<TransmissionEnd>)
    ensures
        r == end_of(c),
{
    if c == 'A' {
        Some(TransmissionEnd::A)
    } else if c == 'B' {
        Some(TransmissionEnd::B)
    } else {
        None
    }
}

/// The suffix that `chars[from..]` stands for.
fn suffix_from(chars: &Vec<char>, from: usize) -> (r: Option<Suffix>)
    requires
        from <= chars.len(),
    ensures
        r == suffix_of_text(chars@.subrange(from as int, chars.len() as int)),
{
    let n = chars.len() - from;
    if n == 0 {
        Some(Suffix::Bare)
    } else if n == 2 && chars[from] == 'D' && chars[from + 1] == 'B' {
        Some(Suffix::Db)
    } else if n != 1 {
        None
    } else {
        let c = chars[from];
        if c == 'G' {
            Some(Suffix::G)
        } else if c == 'I' {
            Some(Suffix::I)
        } else if c == 'M' {
            Some(Suffix::M)
        } else if c == 'P' {
            Some(Suffix::P)
        } else if c == 'R' {
            Some(Suffix::R)
        } else {
            None
        }
    }
}

impl Terminal {
    /// The terminal that a text names.
    pub fn try_from_str(s: &str) -> (r: Option<Terminal>)
        ensures
            r == terminal_of_text(s@),
    {
        let chars = chars_of(s);
        if chars.len() == 1 {
            terminal(chars[0])
        } else {
            None
        }
    }
}

impl TransmissionEnd {
    /// The line end that a text names.
    pub fn try_from_str(s: &str) -> (r: Option<TransmissionEnd>)
        ensures
            r == end_of_text(s@),
    {
        let chars = chars_of(s);
        if chars.len() == 1 {
            line_end(chars[0])
        } else {
            None
        }
    }
}

impl Suffix {
    /// The suffix that a text names.
    pub fn try_from_str(s: &str) -> (r: Option<Suffix>)
        ensures
            r == suffix_of_text(s@),
    {
        let chars = chars_of(s);
        let r = suffix_from(&chars, 0);
        assert(chars@.subrange(0, chars.len() as int) =~= s@);
        r
    }
}

/// A voltage.
#[derive(Debug, Clone, PartialEq)]
pub enum VoltageVariable {
    /// `V(2)`, `V([node])`
    Node { node: ExplicitNode, suffix: Suffix },
    /// `V(1,2)`, `V([vcc],[gnd])`
    Node2 { node1: ExplicitNode, node2: ExplicitNode, suffix: Suffix },
    /// `V(E1)`: across a device with two terminals
    Name { name: Name, suffix: Suffix },
    /// `VG(J2)`: at a terminal of a device with three or four
    NameX { name: Name, x: Terminal, suffix: Suffix },
    /// `VA(T1)`: at an end of a transmission line
    NameZ { name: Name, z: TransmissionEnd, suffix: Suffix },
    /// `VGB(J3)`: between two terminals
    NameXY { name: Name, x: Terminal, y: Terminal, suffix: Suffix },
}

/// Mathematical content of a [`VoltageVariable`].
pub enum VoltageVariableView {
    Node { node: AtomView, suffix: Suffix },
    Node2 { node1: AtomView, node2: AtomView, suffix: Suffix },
    Name { name: AtomView, suffix: Suffix },
    NameX { name: AtomView, x: Terminal, suffix: Suffix },
    NameZ { name: AtomView, z: TransmissionEnd, suffix: Suffix },
    NameXY { name: AtomView, x: Terminal, y: Terminal, suffix: Suffix },
}

impl DeepView for VoltageVariable {
    type V = VoltageVariableView;

    open spec fn deep_view(&self) -> VoltageVariableView {
        match self {
            VoltageVariable::Node { node, suffix } => VoltageVariableView::Node {
                node: node.deep_view(),
                suffix: *suffix,
            },
            VoltageVariable::Node2 { node1, node2, suffix } => VoltageVariableView::Node2 {
                node1: node1.deep_view(),
                node2: node2.deep_view(),
                suffix: *suffix,
            },
            VoltageVariable::Name { name, suffix } => VoltageVariableView::Name {
                name: name.deep_view(),
                suffix: *suffix,
            },
            VoltageVariable::NameX { name, x, suffix } => VoltageVariableView::NameX {
                name: name.deep_view(),
                x: *x,
                suffix: *suffix,
            },
            VoltageVariable::NameZ { name, z, suffix } => VoltageVariableView::NameZ {
                name: name.deep_view(),
                z: *z,
                suffix: *suffix,
            },
            VoltageVariable::NameXY { name, x, y, suffix } => VoltageVariableView::NameXY {
                name: name.deep_view(),
                x: *x,
                y: *y,
                suffix: *suffix,
            },
        }
    }
}

/// A current.
#[derive(Debug, Clone, PartialEq)]
pub enum CurrentVariable {
    /// `I(E2)`: through a device with two terminals
    Name { name: Name, suffix: Suffix },
    /// `IG(J2)`: into a terminal of a device with three or four
    NameX { name: Name, x: Terminal, suffix: Suffix },
    /// `IA(T1)`: at an end of a transmission line
    NameZ { name: Name, z: TransmissionEnd, suffix: Suffix },
}

/// Mathematical content of a [`CurrentVariable`].
pub enum CurrentVariableView {
    Name { name: AtomView, suffix: Suffix },
    NameX { name: AtomView, x: Terminal, suffix: Suffix },
    NameZ { name: AtomView, z: TransmissionEnd, suffix: Suffix },
}

impl DeepView for CurrentVariable {
    type V = CurrentVariableView;

    open spec fn deep_view(&self) -> CurrentVariableView {
        match self {
            CurrentVariable::Name { name, suffix } => CurrentVariableView::Name {
                name: name.deep_view(),
                suffix: *suffix,
            },
            CurrentVariable::NameX { name, x, suffix } => CurrentVariableView::NameX {
                name: name.deep_view(),
                x: *x,
                suffix: *suffix,
            },
            CurrentVariable::NameZ { name, z, suffix } => CurrentVariableView::NameZ {
                name: name.deep_view(),
                z: *z,
                suffix: *suffix,
            },
        }
    }
}

/// A power: `W(R1)`.
#[derive(Debug, Clone, PartialEq)]
pub struct PowerVariable {
    pub name: Name,
    pub suffix: Suffix,
}

/// Mathematical content of a [`PowerVariable`].
pub struct PowerVariableView {
    pub name: AtomView,
    pub suffix: Suffix,
}

impl DeepView for PowerVariable {
    type V = PowerVariableView;

    open spec fn deep_view(&self) -> PowerVariableView {
        PowerVariableView { name: self.name.deep_view(), suffix: self.suffix }
    }
}

/// A noise.
#[derive(Debug, Clone, Copy, PartialEq, Eq, Structural)]
pub enum NoiseVariable {
    /// `ONOISE`
    Onoise,
    /// `INOISE`
    Inoise,
    /// `DB(ONOISE)`
    DbOnoise,
    /// `DB(INOISE)`
    DbInoise,
}

/// An output variable.
#[derive(Debug, Clone, PartialEq)]
pub enum OutputVariable {
    /// `V(...)`
    Voltage(VoltageVariable),
    /// `I(...)`
    Current(CurrentVariable),
    /// `W(...)`
    Power(PowerVariable),
    /// `INOISE` and the like
    Noise(NoiseVariable),
}

/// Mathematical content of an [`OutputVariable`].
pub enum OutputVariableView {
    Voltage(VoltageVariableView),
    Current(CurrentVariableView),
    Power(PowerVariableView),
    Noise(NoiseVariable),
}

impl DeepView for OutputVariable {
    type V = OutputVariableView;

    open spec fn deep_view(&self) -> OutputVariableView {
        match self {
            OutputVariable::Voltage(v) => OutputVariableView::Voltage(v.deep_view()),
            OutputVariable::Current(v) => OutputVariableView::Current(v.deep_view()),
            OutputVariable::Power(v) => OutputVariableView::Power(v.deep_view()),
            OutputVariable::Noise(v) => OutputVariableView::Noise(*v),
        }
    }
}

/// The letters that the names of devices with two terminals begin with.
pub const TWO_TERMINAL_COMPONENTS: &'static str = "CDEFGHILRSVW";

/// The letters that the names of devices with three or four terminals
/// begin with.
pub const TRHEE_OR_FOUR_TERMINAL_COMPONENTS: &'static str = "BJMQZ";

/// The letter that the names of transmission lines begin with.
pub const TRANSMISSION_COMPONENTS: &'static str = "T";

/// Devices with two terminals, by the letter their names begin with.
pub open spec fn is_two_terminal(c: char) -> bool {
    c == 'C' || c == 'D' || c == 'E' || c == 'F' || c == 'G' || c == 'H' || c == 'I' || c == 'L'
        || c == 'R' || c == 'S' || c == 'V' || c == 'W'
}

/// Devices with three or four terminals.
pub open spec fn is_multi_terminal(c: char) -> bool {
    c == 'B' || c == 'J' || c == 'M' || c == 'Q' || c == 'Z'
}

/// Transmission lines.
pub open spec fn is_transmission(c: char) -> bool {
    c == 'T'
}

/// The suffixes that a rejection names as accepted.
pub open spec fn accepted_suffixes() -> Seq<char> {
    "<None>, `DB', `G', `I', `M', `P' or `R'"@
}

/// The suffix a text stands for; the rejection of any other text.
pub open spec fn checked_suffix(text: Seq<char>, place: (usize, usize)) -> Result<
    Suffix,
    ParseErrorView,
> {
    match suffix_of_text(text) {
        Some(s) => Ok(s),
        None => Err(unknown_suffix_error(text, accepted_suffixes(), Some(place))),
    }
}

/// The rejection of a device that has no such variable.
pub open spec fn unsupported_element(kind: char, place: (usize, usize)) -> ParseErrorView {
    quoting_error("Unsupported element type: `"@, seq![kind], "'"@, Some(place))
}

/// A rejection with a fixed reason.
pub open spec fn plain_error(reason: Seq<char>, place: (usize, usize)) -> ParseErrorView {
    ParseErrorView { reason, position: Some(place) }
}

/// The voltage of the device `name`, `suffix` being what follows the `V`
/// of the variable, in upper case: the terminals that the kind of the
/// device asks for, then what is reported.
#[verifier::opaque]
pub open spec fn voltage_of(name: AtomView, suffix: Seq<char>, place: (usize, usize)) -> Result<
    VoltageVariableView,
    ParseErrorView,
>
    recommends
        name.raw.len() > 0,
{
    let kind = ascii_upper(name.raw[0]);
    if is_two_terminal(kind) {
        match checked_suffix(suffix, place) {
            Ok(s) => Ok(VoltageVariableView::Name { name, suffix: s }),
            Err(e) => Err(e),
        }
    } else if is_multi_terminal(kind) {
        if suffix.len() > 0 && terminal_of(suffix[0]) is Some {
            let x = terminal_of(suffix[0])->Some_0;
            if suffix.len() > 1 && terminal_of(suffix[1]) is Some {
                let y = terminal_of(suffix[1])->Some_0;
                match checked_suffix(suffix.subrange(2, suffix.len() as int), place) {
                    Ok(s) => Ok(VoltageVariableView::NameXY { name, x, y, suffix: s }),
                    Err(e) => Err(e),
                }
            } else {
                match checked_suffix(suffix.subrange(1, suffix.len() as int), place) {
                    Ok(s) => Ok(VoltageVariableView::NameX { name, x, suffix: s }),
                    Err(e) => Err(e),
                }
            }
        } else {
            Err(plain_error("Voltage of Element must provide at least one terminal"@, place))
        }
    } else if is_transmission(kind) {
        if suffix.len() > 0 && end_of(suffix[0]) is Some {
            match checked_suffix(suffix.subrange(1, suffix.len() as int), place) {
                Ok(s) => Ok(
                    VoltageVariableView::NameZ { name, z: end_of(suffix[0])->Some_0, suffix: s },
                ),
                Err(e) => Err(e),
            }
        } else {
            Err(plain_error("Voltage of Transmission Line must provide A or B end"@, place))
        }
    } else {
        Err(unsupported_element(kind, place))
    }
}

/// The current of the device `name`, `suffix` being what follows the `I`
/// of the variable, in upper case.
#[verifier::opaque]
pub open spec fn current_of(name: AtomView, suffix: Seq<char>, place: (usize, usize)) -> Result<
    CurrentVariableView,
    ParseErrorView,
>
    recommends
        name.raw.len() > 0,
{
    let kind = ascii_upper(name.raw[0]);
    if is_two_terminal(kind) {
        match checked_suffix(suffix, place) {
            Ok(s) => Ok(CurrentVariableView::Name { name, suffix: s }),
            Err(e) => Err(e),
        }
    } else if is_multi_terminal(kind) {
        if suffix.len() > 0 && terminal_of(suffix[0]) is Some {
            match checked_suffix(suffix.subrange(1, suffix.len() as int), place) {
                Ok(s) => Ok(
                    CurrentVariableView::NameX {
                        name,
                        x: terminal_of(suffix[0])->Some_0,
                        suffix: s,
                    },
                ),
                Err(e) => Err(e),
            }
        } else {
            Err(plain_error("Current of Element must provide at least one terminal"@, place))
        }
    } else if is_transmission(kind) {
        if suffix.len() > 0 && end_of(suffix[0]) is Some {
            match checked_suffix(suffix.subrange(1, suffix.len() as int), place) {
                Ok(s) => Ok(
                    CurrentVariableView::NameZ { name, z: end_of(suffix[0])->Some_0, suffix: s },
                ),
                Err(e) => Err(e),
            }
        } else {
            Err(plain_error("Current of Transmission Line must provide A or B end"@, place))
        }
    } else {
        Err(unsupported_element(kind, place))
    }
}

/// A result together with the position it leaves the cursor at.
pub open spec fn at_end<V>(r: Result<V, ParseErrorView>, end: nat) -> Outcome<V> {
    (r, end)
}

/// The argument of a noise in decibels, from its `(` on.
#[verifier::opaque]
pub open spec fn db_noise_at(ts: Seq<AtomView>, pos: nat) -> Outcome<OutputVariableView> {
    match expect_at(ts, pos, "("@) {
        (Ok(_), p) => if p >= ts.len() {
            (Err(eof_error()), p)
        } else if same_word(ts[p as int].raw, "INOISE"@) {
            match expect_at(ts, p + 1, ")"@) {
                (Ok(_), end) => (Ok(OutputVariableView::Noise(NoiseVariable::DbInoise)), end),
                (Err(e), end) => (Err(e), end),
            }
        } else if same_word(ts[p as int].raw, "ONOISE"@) {
            match expect_at(ts, p + 1, ")"@) {
                (Ok(_), end) => (Ok(OutputVariableView::Noise(NoiseVariable::DbOnoise)), end),
                (Err(e), end) => (Err(e), end),
            }
        } else {
            (
                Err(
                    unexpected_error(
                        "INOISE' or `ONOISE"@,
                        ts[p as int].raw,
                        Some(ts[p as int].place()),
                    ),
                ),
                p,
            )
        },
        (Err(e), p) => (Err(e), p),
    }
}

/// The argument of a power, from its `(` on.
#[verifier::opaque]
pub open spec fn power_at(ts: Seq<AtomView>, pos: nat, suffix: Seq<char>, place: (usize, usize)) -> Outcome<
    OutputVariableView,
> {
    match expect_at(ts, pos, "("@) {
        (Ok(_), p) => match name_at(ts, p) {
            (Ok(name), q) => match expect_at(ts, q, ")"@) {
                (Ok(_), end) => match checked_suffix(suffix, place) {
                    Ok(s) => (
                        Ok(OutputVariableView::Power(PowerVariableView { name, suffix: s })),
                        end,
                    ),
                    Err(e) => (Err(e), end),
                },
                (Err(e), end) => (Err(e), end),
            },
            (Err(e), q) => (Err(e), q),
        },
        (Err(e), p) => (Err(e), p),
    }
}

/// The argument of a voltage, from its `(` on: one explicit node, two of
/// them, or the name of a device.
#[verifier::opaque]
pub open spec fn voltage_at(ts: Seq<AtomView>, pos: nat, suffix: Seq<char>, place: (usize, usize)) -> Outcome<
    OutputVariableView,
> {
    match expect_at(ts, pos, "("@) {
        (Ok(_), p) => match explicit_node_at(ts, p) {
            (Ok(node1), q) => match explicit_node_at(ts, q) {
                (Ok(node2), q2) => match expect_at(ts, q2, ")"@) {
                    (Ok(_), end) => match checked_suffix(suffix, place) {
                        Ok(s) => (
                            Ok(
                                OutputVariableView::Voltage(
                                    VoltageVariableView::Node2 { node1, node2, suffix: s },
                                ),
                            ),
                            end,
                        ),
                        Err(e) => (Err(e), end),
                    },
                    (Err(e), end) => (Err(e), end),
                },
                (Err(_), _) => match expect_at(ts, q, ")"@) {
                    (Ok(_), end) => match checked_suffix(suffix, place) {
                        Ok(s) => (
                            Ok(
                                OutputVariableView::Voltage(
                                    VoltageVariableView::Node { node: node1, suffix: s },
                                ),
                            ),
                            end,
                        ),
                        Err(e) => (Err(e), end),
                    },
                    (Err(e), end) => (Err(e), end),
                },
            },
            (Err(_), _) => match name_at(ts, p) {
                (Ok(name), q) => match expect_at(ts, q, ")"@) {
                    (Ok(_), end) => match voltage_of(name, suffix, place) {
                        Ok(v) => (Ok(OutputVariableView::Voltage(v)), end),
                        Err(e) => (Err(e), end),
                    },
                    (Err(e), end) => (Err(e), end),
                },
                (Err(e), q) => (Err(e), q),
            },
        },
        (Err(e), p) => (Err(e), p),
    }
}

/// The argument of a current, from its `(` on.
#[verifier::opaque]
pub open spec fn current_at(ts: Seq<AtomView>, pos: nat, suffix: Seq<char>, place: (usize, usize)) -> Outcome<
    OutputVariableView,
> {
    match expect_at(ts, pos, "("@) {
        (Ok(_), p) => match name_at(ts, p) {
            (Ok(name), q) => match expect_at(ts, q, ")"@) {
                (Ok(_), end) => match current_of(name, suffix, place) {
                    Ok(v) => (Ok(OutputVariableView::Current(v)), end),
                    Err(e) => (Err(e), end),
                },
                (Err(e), end) => (Err(e), end),
            },
            (Err(e), q) => (Err(e), q),
        },
        (Err(e), p) => (Err(e), p),
    }
}

/// The rejection of a token that begins no output variable.
pub open spec fn not_a_variable(t: AtomView) -> ParseErrorView {
    quoting_error("Expect `"@, t.raw, "' to be an output variable"@, Some(t.place()))
}

/// The rule of [`OutputVariable`]. The first token, in upper case, decides:
/// a noise keyword, or the letter `W`, `V` or `I` followed by the suffix.
#[verifier::opaque]
pub open spec fn output_variable_at(ts: Seq<AtomView>, pos: nat) -> Outcome<OutputVariableView> {
    if pos >= ts.len() {
        (Err(eof_error()), pos)
    } else {
        let t = ts[pos as int];
        let up = upper(t.raw);
        let suffix = up.subrange(1, up.len() as int);
        if same_word(t.raw, "INOISE"@) {
            (Ok(OutputVariableView::Noise(NoiseVariable::Inoise)), pos + 1)
        } else if same_word(t.raw, "ONOISE"@) {
            (Ok(OutputVariableView::Noise(NoiseVariable::Onoise)), pos + 1)
        } else if same_word(t.raw, "DB"@) {
            db_noise_at(ts, pos + 1)
        } else if up.len() > 0 && up[0] == 'W' {
            power_at(ts, pos + 1, suffix, t.place())
        } else if up.len() > 0 && up[0] == 'V' {
            voltage_at(ts, pos + 1, suffix, t.place())
        } else if up.len() > 0 && up[0] == 'I' {
            current_at(ts, pos + 1, suffix, t.place())
        } else {
            (Err(not_a_variable(t)), pos)
        }
    }
}

fn two_terminal(c: char) -> (r: bool)
    ensures
        r == is_two_terminal(c),
{
    c == 'C' || c == 'D' || c == 'E' || c == 'F' || c == 'G' || c == 'H' || c == 'I' || c == 'L'
        || c == 'R' || c == 'S' || c == 'V' || c == 'W'
}

fn multi_terminal(c: char) -> (r: bool)
    ensures
        r == is_multi_terminal(c),
{
    c == 'B' || c == 'J' || c == 'M' || c == 'Q' || c == 'Z'
}

/// The suffix that `up[from..]` stands for, or the rejection of that text.
fn check_suffix(up: &Vec<char>, from: usize, place: (usize, usize)) -> (r: Result<
    Suffix,
    ParseError,
>)
    requires
        from <= up.len(),
    ensures
        match r {
            Ok(s) => checked_suffix(up@.subrange(from as int, up.len() as int), place) == Ok::<
                Suffix,
                ParseErrorView,
            >(s),
            Err(e) => checked_suffix(up@.subrange(from as int, up.len() as int), place) == Err::<
                Suffix,
                ParseErrorView,
            >(e@),
        },
{
    match suffix_from(up, from) {
        Some(s) => Ok(s),
        None => {
            let text = string_of(up, from, up.len());
            Err(
                ParseError::unknown_suffix(
                    text.as_str(),
                    "<None>, `DB', `G', `I', `M', `P' or `R'",
                    Some(place),
                ),
            )
        },
    }
}

/// The kind of a device: the first letter of its name, in upper case.
fn kind_of(name: &Name) -> (r: char)
    requires
        name.0.raw@.len() > 0,
    ensures
        r == ascii_upper(name.0.raw@[0]),
{
    let up = chars_of(to_upper(name.0.raw.as_str()).as_str());
    up[0]
}

/// The error with a fixed reason at a place.
fn plain(reason: &str, place: (usize, usize)) -> (r: ParseError)
    ensures
        r@ == plain_error(reason@, place),
{
    ParseError { reason: reason.to_owned(), position: Some(place) }
}

/// The error for a device that has no such variable.
fn unsupported(kind: char, place: (usize, usize)) -> (r: ParseError)
    ensures
        r@ == unsupported_element(kind, place),
{
    let mut one: Vec<char> = Vec::new();
    one.push(kind);
    let text = string_of(&one, 0, 1);
    assert(text@ =~= seq![kind]);
    ParseError::quoting("Unsupported element type: `", text.as_str(), "'", Some(place))
}

/// The voltage of a device, given what follows the `V` of the variable.
pub fn voltage_variable_of(name: Name, up: &Vec<char>, place: (usize, usize)) -> (r: Result<
    VoltageVariable,
    ParseError,
>)
    requires
        up.len() >= 1,
        name.0.raw@.len() > 0,
    ensures
        match r {
            Ok(v) => voltage_of(name.deep_view(), up@.subrange(1, up.len() as int), place) == Ok::<
                VoltageVariableView,
                ParseErrorView,
            >(v.deep_view()),
            Err(e) => voltage_of(name.deep_view(), up@.subrange(1, up.len() as int), place)
                == Err::<VoltageVariableView, ParseErrorView>(e@),
        },
{
    reveal(voltage_of);
    let ghost suffix = up@.subrange(1, up.len() as int);
    let kind = kind_of(&name);
    if two_terminal(kind) {
        let suffix = check_suffix(up, 1, place)?;
        return Ok(VoltageVariable::Name { name, suffix });
    }
    if multi_terminal(kind) {
        if up.len() > 1 {
            assert(suffix[0] == up[1]);
            if let Some(x) = terminal(up[1]) {
                if up.len() > 2 {
                    assert(suffix[1] == up[2]);
                    if let Some(y) = terminal(up[2]) {
                        assert(suffix.subrange(2, suffix.len() as int) =~= up@.subrange(
                            3,
                            up.len() as int,
                        ));
                        let suffix = check_suffix(up, 3, place)?;
                        return Ok(VoltageVariable::NameXY { name, x, y, suffix });
                    }
                }
                assert(suffix.subrange(1, suffix.len() as int) =~= up@.subrange(
                    2,
                    up.len() as int,
                ));
                let suffix = check_suffix(up, 2, place)?;
                return Ok(VoltageVariable::NameX { name, x, suffix });
            }
        }
        return Err(plain("Voltage of Element must provide at least one terminal", place));
    }
    if kind == 'T' {
        if up.len() > 1 {
            assert(suffix[0] == up[1]);
            if let Some(z) = line_end(up[1]) {
                assert(suffix.subrange(1, suffix.len() as int) =~= up@.subrange(
                    2,
                    up.len() as int,
                ));
                let suffix = check_suffix(up, 2, place)?;
                return Ok(VoltageVariable::NameZ { name, z, suffix });
            }
        }
        return Err(plain("Voltage of Transmission Line must provide A or B end", place));
    }
    Err(unsupported(kind, place))
}

/// The current of a device, given what follows the `I` of the variable.
pub fn current_variable_of(name: Name, up: &Vec<char>, place: (usize, usize)) -> (r: Result<
    CurrentVariable,
    ParseError,
>)
    requires
        up.len() >= 1,
        name.0.raw@.len() > 0,
    ensures
        match r {
            Ok(v) => current_of(name.deep_view(), up@.subrange(1, up.len() as int), place) == Ok::<
                CurrentVariableView,
                ParseErrorView,
            >(v.deep_view()),
            Err(e) => current_of(name.deep_view(), up@.subrange(1, up.len() as int), place)
                == Err::<CurrentVariableView, ParseErrorView>(e@),
        },
{
    reveal(current_of);
    let ghost suffix = up@.subrange(1, up.len() as int);
    let kind = kind_of(&name);
    if two_terminal(kind) {
        let suffix = check_suffix(up, 1, place)?;
        return Ok(CurrentVariable::Name { name, suffix });
    }
    if multi_terminal(kind) {
        if up.len() > 1 {
            assert(suffix[0] == up[1]);
            if let Some(x) = terminal(up[1]) {
                assert(suffix.subrange(1, suffix.len() as int) =~= up@.subrange(
                    2,
                    up.len() as int,
                ));
                let suffix = check_suffix(up, 2, place)?;
                return Ok(CurrentVariable::NameX { name, x, suffix });
            }
        }
        return Err(plain("Current of Element must provide at least one terminal", place));
    }
    if kind == 'T' {
        if up.len() > 1 {
            assert(suffix[0] == up[1]);
            if let Some(z) = line_end(up[1]) {
                assert(suffix.subrange(1, suffix.len() as int) =~= up@.subrange(
                    2,
                    up.len() as int,
                ));
                let suffix = check_suffix(up, 2, place)?;
                return Ok(CurrentVariable::NameZ { name, z, suffix });
            }
        }
        return Err(plain("Current of Transmission Line must provide A or B end", place));
    }
    Err(unsupported(kind, place))
}

impl<'a> SpiceLineParser<'a> {
    /// Parses what follows `DB`.
    fn parse_db_noise(&mut self) -> (r: ParseResult<OutputVariable>)
        ensures
            parsed(*old(self), *final(self), r, db_noise_at(old(self).tokens(), old(self).cursor())),
            r is Ok ==> old(self).position < final(self).position <= old(self).vec.len(),
    {
        reveal(db_noise_at);
        self.expect("(")?;
        let token = self.token()?;
        if self.matches_consume("INOISE") {
            self.expect(")")?;
            Ok(OutputVariable::Noise(NoiseVariable::DbInoise))
        } else if self.matches_consume("ONOISE") {
            self.expect(")")?;
            Ok(OutputVariable::Noise(NoiseVariable::DbOnoise))
        } else {
            Err(
                ParseError::unexpected(
                    "INOISE' or `ONOISE",
                    token.raw.as_str(),
                    Some(token.place()),
                ),
            )
        }
    }

    /// Parses the argument of a power.
    fn parse_power(&mut self, up: &Vec<char>, place: (usize, usize)) -> (r: ParseResult<
        OutputVariable,
    >)
        requires
            up.len() >= 1,
        ensures
            parsed(
                *old(self),
                *final(self),
                r,
                power_at(
                    old(self).tokens(),
                    old(self).cursor(),
                    up@.subrange(1, up.len() as int),
                    place,
                ),
            ),
            r is Ok ==> old(self).position < final(self).position <= old(self).vec.len(),
    {
        reveal(power_at);
        self.expect("(")?;
        let name = self.parse_name()?;
        self.expect(")")?;
        let suffix = check_suffix(up, 1, place)?;
        Ok(OutputVariable::Power(PowerVariable { name, suffix }))
    }

    /// Parses the argument of a voltage.
    fn parse_voltage(&mut self, up: &Vec<char>, place: (usize, usize)) -> (r: ParseResult<
        OutputVariable,
    >)
        requires
            up.len() >= 1,
        ensures
            parsed(
                *old(self),
                *final(self),
                r,
                voltage_at(
                    old(self).tokens(),
                    old(self).cursor(),
                    up@.subrange(1, up.len() as int),
                    place,
                ),
            ),
            r is Ok ==> old(self).position < final(self).position <= old(self).vec.len(),
    {
        reveal(voltage_at);
        self.expect("(")?;
        let first = self.position;
        match self.parse_explicit_node() {
            Ok(node1) => {
                let second = self.position;
                match self.parse_explicit_node() {
                    Ok(node2) => {
                        self.expect(")")?;
                        let suffix = check_suffix(up, 1, place)?;
                        Ok(
                            OutputVariable::Voltage(
                                VoltageVariable::Node2 { node1, node2, suffix },
                            ),
                        )
                    },
                    Err(_) => {
                        self.position = second;
                        self.expect(")")?;
                        let suffix = check_suffix(up, 1, place)?;
                        Ok(OutputVariable::Voltage(VoltageVariable::Node { node: node1, suffix }))
                    },
                }
            },
            Err(_) => {
                self.position = first;
                let name = self.parse_name()?;
                self.expect(")")?;
                Ok(OutputVariable::Voltage(voltage_variable_of(name, up, place)?))
            },
        }
    }

    /// Parses the argument of a current.
    fn parse_current(&mut self, up: &Vec<char>, place: (usize, usize)) -> (r: ParseResult<
        OutputVariable,
    >)
        requires
            up.len() >= 1,
        ensures
            parsed(
                *old(self),
                *final(self),
                r,
                current_at(
                    old(self).tokens(),
                    old(self).cursor(),
                    up@.subrange(1, up.len() as int),
                    place,
                ),
            ),
            r is Ok ==> old(self).position < final(self).position <= old(self).vec.len(),
    {
        reveal(current_at);
        self.expect("(")?;
        let name = self.parse_name()?;
        self.expect(")")?;
        Ok(OutputVariable::Current(current_variable_of(name, up, place)?))
    }

    /// Parses an output variable.
    pub fn parse_output_variable(&mut self) -> (r: ParseResult<OutputVariable>)
        ensures
            parsed(
                *old(self),
                *final(self),
                r,
                output_variable_at(old(self).tokens(), old(self).cursor()),
            ),
            r is Ok ==> old(self).position < final(self).position <= old(self).vec.len(),
    {
        reveal(output_variable_at);
        let token = self.token()?;
        if self.matches_consume("INOISE") {
            return Ok(OutputVariable::Noise(NoiseVariable::Inoise));
        }
        if self.matches_consume("ONOISE") {
            return Ok(OutputVariable::Noise(NoiseVariable::Onoise));
        }
        if self.matches_consume("DB") {
            return self.parse_db_noise();
        }
        let up = chars_of(token.to_uppercase().as_str());
        if up.len() > 0 && up[0] == 'W' {
            self.position += 1;
            return self.parse_power(&up, token.place());
        }
        if up.len() > 0 && up[0] == 'V' {
            self.position += 1;
            return self.parse_voltage(&up, token.place());
        }
        if up.len() > 0 && up[0] == 'I' {
            self.position += 1;
            return self.parse_current(&up, token.place());
        }
        Err(
            ParseError::quoting(
                "Expect `",
                token.raw.as_str(),
                "' to be an output variable",
                Some(token.place()),
            ),
        )
    }
}

impl TryParse<OutputVariable> for SpiceLineParser<'_> {
    open spec fn rule(ts: Seq<AtomView>, pos: nat) -> Outcome<OutputVariableView> {
        output_variable_at(ts, pos)
    }

    fn try_parse(&mut self) -> (r: ParseResult<OutputVariable>) {
        self.parse_output_variable()
    }
}

} // verus!
