//! A circuit as its components and commands, and the inclusion of other
//! files.

use crate::ast::command::{
    instructions_view, instruction_view, Command, CommandView, Instruction, InstructionView,
    Program, ProgramView,
};
use crate::ast::component::{Component, ComponentView};
use crate::ast::expression::Text;
use crate::ast::{AtomView, Name};
use crate::lexer::lex;
use crate::parse::{ParseError, ParseErrorView, ParseResult};
use crate::program::{program_of, reversed};
use crate::text::{chars_of, same_text, string_of};
use vstd::prelude::*;

verus! {

/// What stands between the quotes of a quoted text; nothing where the text
/// is shorter than two characters.
pub open spec fn unquoted(raw: Seq<char>) -> Seq<char> {
    if raw.len() >= 2 {
        raw.subrange(1, raw.len() - 1)
    } else {
        Seq::empty()
    }
}

impl Text {
    /// The text without its quotes.
    pub fn to_string(&self) -> (r: String)
        ensures
            r@ == unquoted(self.0.raw@),
    {
        let chars = chars_of(self.0.raw.as_str());
        if chars.len() >= 2 {
            string_of(&chars, 1, chars.len() - 1)
        } else {
            String::new()
        }
    }
}

/// A file that an instruction asks for.
#[derive(Debug, Clone, PartialEq)]
pub enum Inclusion {
    /// `.INC "<file>"`: the file of that name
    File(String),
    /// `.LIB ["<file>"]`: the library of that name, or the library that
    /// goes with the including file
    Library(Option<String>),
}

/// Mathematical content of an [`Inclusion`].
pub enum InclusionView {
    File(Seq<char>),
    Library(Option<Seq<char>>),
}

impl DeepView for Inclusion {
    type V = InclusionView;

    open spec fn deep_view(&self) -> InclusionView {
        match self {
            Inclusion::File(name) => InclusionView::File(name@),
            Inclusion::Library(Some(name)) => InclusionView::Library(Some(name@)),
            Inclusion::Library(None) => InclusionView::Library(None),
        }
    }
}

/// The file that an instruction asks for, if it asks for one.
pub open spec fn inclusion_of(i: InstructionView) -> Option<InclusionView> {
    match i {
        InstructionView::Command(CommandView::Inc(inc)) => Some(
            InclusionView::File(unquoted(inc.filename.raw)),
        ),
        InstructionView::Command(CommandView::Lib(lib)) => Some(
            InclusionView::Library(
                match lib.filename {
                    Some(name) => Some(unquoted(name.raw)),
                    None => None,
                },
            ),
        ),
        _ => None,
    }
}

/// The file that an instruction asks for, if it asks for one.
pub fn inclusion(instruction: &Instruction) -> (r: Option<Inclusion>)
    ensures
        r.deep_view() == inclusion_of(instruction.deep_view()),
{
    proof {
        reveal_with_fuel(instruction_view, 3);
    }
    match instruction {
        Instruction::Command(Command::Inc(inc)) => Some(Inclusion::File(inc.filename.to_string())),
        Instruction::Command(Command::Lib(lib)) => match &lib.filename {
            Some(name) => Some(Inclusion::Library(Some(name.to_string()))),
            None => Some(Inclusion::Library(None)),
        },
        _ => None,
    }
}

/// A file whose instructions are being placed.
#[derive(Debug, Clone, PartialEq)]
pub struct Pending {
    /// The name of the file
    pub file: String,
    /// Its instructions that are not placed yet, the next one last
    pub rest: Vec<Instruction>,
}

/// Mathematical content of a [`Pending`].
pub struct PendingView {
    pub file: Seq<char>,
    pub rest: Seq<InstructionView>,
}

impl DeepView for Pending {
    type V = PendingView;

    open spec fn deep_view(&self) -> PendingView {
        PendingView { file: self.file@, rest: instructions_view(self.rest@) }
    }
}

/// The contents of the files that are being placed.
pub open spec fn pending_views(open: Seq<Pending>) -> Seq<PendingView> {
    open.map_values(|p: Pending| p.deep_view())
}

/// An expansion under way: the instructions of a file are placed one by
/// one, those of an included file in the place of the inclusion.
#[derive(Debug, Clone, PartialEq)]
pub struct Expansion {
    /// The title of the outermost file
    pub name: Option<Name>,
    /// The files on the inclusion path, the outermost first
    pub open: Vec<Pending>,
    /// The instructions placed so far
    pub placed: Vec<Instruction>,
}

/// Mathematical content of an [`Expansion`].
pub struct ExpansionView {
    pub name: Option<AtomView>,
    pub open: Seq<PendingView>,
    pub placed: Seq<InstructionView>,
}

impl DeepView for Expansion {
    type V = ExpansionView;

    open spec fn deep_view(&self) -> ExpansionView {
        ExpansionView {
            name: self.name.deep_view(),
            open: pending_views(self.open@),
            placed: instructions_view(self.placed@),
        }
    }
}

/// What an expansion needs next.
#[derive(Debug, Clone, PartialEq)]
pub enum Request {
    /// The text of the file that the file `from` asks for
    Read { from: String, asked: Inclusion },
    /// Nothing: every instruction is placed
    Finished,
}

/// Mathematical content of a [`Request`].
pub enum RequestView {
    Read { from: Seq<char>, asked: InclusionView },
    Finished,
}

impl DeepView for Request {
    type V = RequestView;

    open spec fn deep_view(&self) -> RequestView {
        match self {
            Request::Read { from, asked } => RequestView::Read {
                from: from@,
                asked: asked.deep_view(),
            },
            Request::Finished => RequestView::Finished,
        }
    }
}

/// The rejection of a file that is on the inclusion path already.
pub open spec fn recursive_include(file: Seq<char>) -> ParseErrorView {
    ParseErrorView { reason: "Recursive include detected: "@ + file, position: None }
}

/// Whether a file is on the inclusion path.
pub open spec fn on_path(open: Seq<PendingView>, file: Seq<char>) -> bool {
    exists|k: int| 0 <= k < open.len() && (#[trigger] open[k]).file == file
}

/// An expansion after the file `file` with the text `content` is entered:
/// its instructions are the next to place. The title of the outermost file
/// is kept. A file on the inclusion path is rejected, and so is a text
/// that is no program.
pub open spec fn entered(e: ExpansionView, file: Seq<char>, content: Seq<char>) -> Result<
    ExpansionView,
    ParseErrorView,
> {
    if on_path(e.open, file) {
        Err(recursive_include(file))
    } else {
        match program_of(lex(content)) {
            Ok(program) => Ok(
                ExpansionView {
                    name: if e.open.len() == 0 {
                        program.name
                    } else {
                        e.name
                    },
                    open: e.open.push(
                        PendingView { file, rest: program.instructions.reverse() },
                    ),
                    placed: e.placed,
                },
            ),
            Err(x) => Err(x),
        }
    }
}

/// Where the placing of one file's instructions stops.
pub struct Placed {
    pub rest: Seq<InstructionView>,
    pub placed: Seq<InstructionView>,
    pub asked: Option<InclusionView>,
}

/// Places the instructions of `rest`, from the last one down, up to the
/// first that asks for a file.
pub open spec fn place(rest: Seq<InstructionView>, placed: Seq<InstructionView>) -> Placed
    decreases rest.len(),
{
    if rest.len() == 0 {
        Placed { rest, placed, asked: None }
    } else {
        match inclusion_of(rest.last()) {
            Some(asked) => Placed { rest: rest.drop_last(), placed, asked: Some(asked) },
            None => place(rest.drop_last(), placed.push(rest.last())),
        }
    }
}

/// Where an expansion stops.
pub struct Settled {
    pub open: Seq<PendingView>,
    pub placed: Seq<InstructionView>,
    pub request: RequestView,
}

/// Places the instructions of the innermost file, then those of the file
/// that included it, and so on, up to the first instruction that asks for a
/// file. That file stays on the inclusion path; a file whose instructions
/// are all placed leaves it.
pub open spec fn settle(open: Seq<PendingView>, placed: Seq<InstructionView>) -> Settled
    decreases open.len(),
{
    if open.len() == 0 {
        Settled { open, placed, request: RequestView::Finished }
    } else {
        let top = open.last();
        let p = place(top.rest, placed);
        match p.asked {
            Some(asked) => Settled {
                open: open.drop_last().push(PendingView { file: top.file, rest: p.rest }),
                placed: p.placed,
                request: RequestView::Read { from: top.file, asked },
            },
            None => settle(open.drop_last(), p.placed),
        }
    }
}

/// Whether none of the instructions asks for a file.
pub open spec fn includes_nothing(instructions: Seq<InstructionView>) -> bool {
    forall|k: int|
        0 <= k < instructions.len() ==> inclusion_of(#[trigger] instructions[k]) is None
}

impl Expansion {
    /// An expansion with nothing entered and nothing placed.
    pub fn new() -> (r: Self)
        ensures
            r.deep_view() == (ExpansionView {
                name: None,
                open: Seq::empty(),
                placed: Seq::empty(),
            }),
    {
        let r = Expansion { name: None, open: Vec::new(), placed: Vec::new() };
        assert(r.deep_view().open =~= Seq::empty());
        assert(r.deep_view().placed =~= Seq::empty());
        r
    }

    /// Whether a file is on the inclusion path.
    pub fn is_open(&self, file: &str) -> (r: bool)
        ensures
            r == on_path(self.deep_view().open, file@),
    {
        let mut i: usize = 0;
        while i < self.open.len()
            invariant
                i <= self.open.len(),
                forall|k: int| 0 <= k < i ==> pending_views(self.open@)[k].file != file@,
            decreases self.open.len() - i,
        {
            if same_text(self.open[i].file.as_str(), file) {
                assert(pending_views(self.open@)[i as int].file == file@);
                return true;
            }
            i += 1;
        }
        false
    }

    /// Enters a file with its text: its instructions are the next to
    /// place. A file on the inclusion path is rejected, and so is a text
    /// that is no program; the expansion is then as it was.
    pub fn enter(&mut self, file: &str, content: &str) -> (r: ParseResult<()>)
        ensures
            match entered(old(self).deep_view(), file@, content@) {
                Ok(e) => r is Ok && final(self).deep_view() == e,
                Err(e) => r matches Err(x) && x@ == e && *final(self) == *old(self),
            },
    {
        if self.is_open(file) {
            let mut reason = "Recursive include detected: ".to_owned();
            reason.append(file);
            return Err(ParseError { reason, position: None });
        }
        let program = crate::try_parse_program(content)?;
        let ghost given = program.instructions@;
        let ghost before = self.open@;
        if self.open.len() == 0 {
            self.name = program.name;
        }
        let pending = Pending { file: file.to_owned(), rest: reversed(program.instructions) };
        assert(pending.deep_view().rest =~= instructions_view(given).reverse());
        self.open.push(pending);
        assert(pending_views(self.open@) =~= pending_views(before).push(pending.deep_view()));
        Ok(())
    }

    /// Places instructions up to the first that asks for a file, and says
    /// which file that is; or places all that are left.
    pub fn advance(&mut self) -> (r: Request)
        ensures
            settle(old(self).deep_view().open, old(self).deep_view().placed) == (Settled {
                open: final(self).deep_view().open,
                placed: final(self).deep_view().placed,
                request: r.deep_view(),
            }),
            final(self).name == old(self).name,
            r is Finished ==> final(self).open@.len() == 0,
            includes_nothing(old(self).deep_view().placed) ==> includes_nothing(
                final(self).deep_view().placed,
            ),
    {
        proof {
            lemma_settle_includes_nothing(old(self).deep_view().open, old(self).deep_view().placed);
        }
        let ghost goal = settle(old(self).deep_view().open, old(self).deep_view().placed);
        while self.open.len() > 0
            invariant
                self.name == old(self).name,
                goal == settle(old(self).deep_view().open, old(self).deep_view().placed),
                includes_nothing(old(self).deep_view().placed) ==> includes_nothing(goal.placed),
                settle(pending_views(self.open@), instructions_view(self.placed@)) == goal,
            decreases self.open.len(),
        {
            let ghost open0 = pending_views(self.open@);
            let ghost placed0 = instructions_view(self.placed@);
            let mut top = self.open.pop().unwrap();
            assert(pending_views(self.open@) =~= open0.drop_last());
            assert(top.deep_view() == open0.last());
            while top.rest.len() > 0
                invariant
                    self.name == old(self).name,
                    goal == settle(old(self).deep_view().open, old(self).deep_view().placed),
                    includes_nothing(old(self).deep_view().placed) ==> includes_nothing(
                        goal.placed,
                    ),
                    open0.len() > 0,
                    settle(open0, placed0) == goal,
                    pending_views(self.open@) == open0.drop_last(),
                    top.file@ == open0.last().file,
                    place(instructions_view(top.rest@), instructions_view(self.placed@)) == place(
                        open0.last().rest,
                        placed0,
                    ),
                decreases top.rest.len(),
            {
                let ghost rest0 = instructions_view(top.rest@);
                let ghost done0 = instructions_view(self.placed@);
                let instruction = top.rest.pop().unwrap();
                assert(instructions_view(top.rest@) =~= rest0.drop_last());
                assert(instruction_view(instruction) == rest0.last());
                match inclusion(&instruction) {
                    Some(asked) => {
                        let from = top.file.clone();
                        let ghost below = pending_views(self.open@);
                        self.open.push(top);
                        assert(pending_views(self.open@) =~= below.push(top.deep_view()));
                        assert(place(rest0, done0).asked == Some(asked.deep_view()));
                        return Request::Read { from, asked };
                    },
                    None => {
                        self.placed.push(instruction);
                        assert(instructions_view(self.placed@) =~= done0.push(rest0.last()));
                    },
                }
            }
        }
        Request::Finished
    }

    /// The program of the instructions that are placed, under the title of
    /// the outermost file.
    pub fn finish(self) -> (r: Program)
        ensures
            r.deep_view() == (ProgramView {
                name: self.deep_view().name,
                instructions: self.deep_view().placed,
            }),
    {
        Program { name: self.name, instructions: self.placed }
    }
}

/// Placing the instructions of a file adds no instruction that asks for a
/// file.
pub proof fn lemma_place_includes_nothing(rest: Seq<InstructionView>, placed: Seq<InstructionView>)
    requires
        includes_nothing(placed),
    ensures
        includes_nothing(place(rest, placed).placed),
    decreases rest.len(),
{
    if rest.len() > 0 && inclusion_of(rest.last()) is None {
        lemma_place_includes_nothing(rest.drop_last(), placed.push(rest.last()));
    }
}

/// An expansion places no instruction that asks for a file, and when it
/// has finished no file is left on the inclusion path.
pub proof fn lemma_settle_includes_nothing(open: Seq<PendingView>, placed: Seq<InstructionView>)
    ensures
        includes_nothing(placed) ==> includes_nothing(settle(open, placed).placed),
        settle(open, placed).request is Finished ==> settle(open, placed).open.len() == 0,
    decreases open.len(),
{
    if open.len() > 0 {
        let p = place(open.last().rest, placed);
        if includes_nothing(placed) {
            lemma_place_includes_nothing(open.last().rest, placed);
        }
        if p.asked is None {
            lemma_settle_includes_nothing(open.drop_last(), p.placed);
        }
    }
}

/// A program that asks for no file has a circuit.
pub proof fn lemma_expanded_has_circuit(instructions: Seq<InstructionView>, n: nat)
    requires
        includes_nothing(instructions),
    ensures
        sorted(instructions, n) is Ok,
    decreases n,
{
    if 0 < n <= instructions.len() {
        lemma_expanded_has_circuit(instructions, (n - 1) as nat);
    }
}

/// A part of a circuit that stands for a component. It holds nothing yet.
#[derive(Debug, Default, Clone)]
pub struct PSpiceComponent {}

/// A subcircuit as its components.
#[derive(Debug, Default, Clone)]
pub struct PSpiceSubckt {
    pub components: Vec<Component>,
}

/// A command of a circuit whose inclusions are expanded.
#[derive(Debug, Clone)]
pub struct PSpiceCommand(pub Command);

/// A circuit: its components and its commands.
#[derive(Debug, Default, Clone)]
pub struct PSpice {
    pub name: String,
    pub nodes: Vec<String>,
    pub components: Vec<Component>,
    pub subckt: Vec<PSpiceSubckt>,
    pub commands: Vec<Command>,
}

/// The commands and components of a circuit.
pub struct Sorted {
    pub commands: Seq<CommandView>,
    pub components: Seq<ComponentView>,
}

/// The rejection of an inclusion in a text that comes from no file.
pub open spec fn from_stdin(what: Seq<char>, file: Seq<char>) -> ParseErrorView {
    ParseErrorView { reason: "Requested "@ + what + file + ", but from stdin."@, position: None }
}

/// The rejection that an inclusion gets in a text that comes from no file.
pub open spec fn refused(i: InclusionView) -> ParseErrorView {
    match i {
        InclusionView::File(name) => from_stdin("INC "@, name),
        InclusionView::Library(Some(name)) => from_stdin("LIB "@, name),
        InclusionView::Library(None) => from_stdin("LIB "@, "?"@),
    }
}

/// The first `n` instructions sorted into commands and components, each
/// kind in its order; the rejection of the first inclusion among them.
pub open spec fn sorted(instructions: Seq<InstructionView>, n: nat) -> Result<
    Sorted,
    ParseErrorView,
>
    decreases n,
{
    if n == 0 || n > instructions.len() {
        Ok(Sorted { commands: Seq::empty(), components: Seq::empty() })
    } else {
        match sorted(instructions, (n - 1) as nat) {
            Ok(s) => match inclusion_of(instructions[n - 1]) {
                Some(i) => Err(refused(i)),
                None => match instructions[n - 1] {
                    InstructionView::Command(c) => Ok(
                        Sorted { commands: s.commands.push(c), components: s.components },
                    ),
                    InstructionView::Component(c) => Ok(
                        Sorted { commands: s.commands, components: s.components.push(c) },
                    ),
                },
            },
            Err(e) => Err(e),
        }
    }
}

/// The circuit of a program's instructions.
pub open spec fn circuit_of(instructions: Seq<InstructionView>) -> Result<Sorted, ParseErrorView> {
    sorted(instructions, instructions.len())
}

/// The error for an inclusion in a text that comes from no file.
fn refuse(i: &Inclusion) -> (r: ParseError)
    ensures
        r@ == refused(i.deep_view()),
{
    let mut reason = "Requested ".to_owned();
    match i {
        Inclusion::File(name) => {
            reason.append("INC ");
            reason.append(name.as_str());
        },
        Inclusion::Library(Some(name)) => {
            reason.append("LIB ");
            reason.append(name.as_str());
        },
        Inclusion::Library(None) => {
            reason.append("LIB ");
            reason.append("?");
        },
    }
    reason.append(", but from stdin.");
    ParseError { reason, position: None }
}

impl PSpice {
    /// The circuit of a program that includes no file: its commands and its
    /// components, each kind in the order of the program. A program that
    /// asks for a file is rejected.
    pub fn from_program(program: Program) -> (r: ParseResult<PSpice>)
        ensures
            match r {
                Ok(p) => circuit_of(program.deep_view().instructions) == Ok::<
                    Sorted,
                    ParseErrorView,
                >(
                    Sorted {
                        commands: p.commands.deep_view(),
                        components: p.components.deep_view(),
                    },
                ) && p.name@.len() == 0 && p.nodes@.len() == 0 && p.subckt@.len() == 0,
                Err(e) => circuit_of(program.deep_view().instructions) == Err::<
                    Sorted,
                    ParseErrorView,
                >(e@),
            },
    {
        let ghost given = program.instructions@;
        let ghost all = instructions_view(given);
        let mut rest = reversed(program.instructions);
        let mut commands: Vec<Command> = Vec::new();
        let mut components: Vec<Component> = Vec::new();
        assert(commands.deep_view() =~= Seq::empty());
        assert(components.deep_view() =~= Seq::empty());
        while rest.len() > 0
            invariant
                rest.len() <= given.len(),
                all == instructions_view(given),
                all == program.deep_view().instructions,
                forall|k: int| 0 <= k < rest.len() ==> rest[k] == given[given.len() - 1 - k],
                sorted(all, (given.len() - rest.len()) as nat) == Ok::<Sorted, ParseErrorView>(
                    Sorted {
                        commands: commands.deep_view(),
                        components: components.deep_view(),
                    },
                ),
            decreases rest.len(),
        {
            let ghost n = (given.len() - rest.len()) as int;
            let ghost commands0 = commands.deep_view();
            let ghost components0 = components.deep_view();
            let instruction = rest.pop().unwrap();
            assert(instruction == given[n]);
            assert(all[n] == instruction_view(instruction));
            proof {
                reveal_with_fuel(instruction_view, 3);
            }
            if let Some(i) = inclusion(&instruction) {
                proof {
                    lemma_first_refusal(all, (n + 1) as nat, all.len());
                }
                return Err(refuse(&i));
            }
            match instruction {
                Instruction::Command(c) => {
                    commands.push(c);
                    assert(commands.deep_view() =~= commands0.push(c.deep_view()));
                },
                Instruction::Component(c) => {
                    components.push(c);
                    assert(components.deep_view() =~= components0.push(c.deep_view()));
                },
            }
        }
        Ok(
            PSpice {
                name: String::new(),
                nodes: Vec::new(),
                components,
                subckt: Vec::new(),
                commands,
            },
        )
    }

    /// Parses a text that comes from no file into its circuit.
    pub fn try_parse_from_stdin(content: &str) -> (r: ParseResult<PSpice>)
        ensures
            match program_of(lex(content@)) {
                Ok(program) => match r {
                    Ok(p) => circuit_of(program.instructions) == Ok::<Sorted, ParseErrorView>(
                        Sorted {
                            commands: p.commands.deep_view(),
                            components: p.components.deep_view(),
                        },
                    ) && p.name@.len() == 0 && p.nodes@.len() == 0 && p.subckt@.len() == 0,
                    Err(e) => circuit_of(program.instructions) == Err::<Sorted, ParseErrorView>(
                        e@,
                    ),
                },
                Err(e) => r matches Err(x) && x@ == e,
            },
    {
        let program = crate::try_parse_program(content)?;
        PSpice::from_program(program)
    }
}

/// Once an inclusion is refused, so are all the instructions with it.
pub proof fn lemma_first_refusal(instructions: Seq<InstructionView>, mid: nat, to: nat)
    requires
        0 < mid <= to <= instructions.len(),
        sorted(instructions, mid) is Err,
    ensures
        sorted(instructions, to) == sorted(instructions, mid),
    decreases to - mid,
{
    if mid < to {
        lemma_first_refusal(instructions, mid, (to - 1) as nat);
    }
}

} // verus!
