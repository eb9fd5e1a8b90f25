//! Programs: from the lines of a source text to its instructions, those of
//! a subcircuit folded into its `.SUBCKT` command.

use crate::ast::{AtomView, Name};
use crate::ast::command::{
    command_at, instruction_view, instructions_view, Command, CommandView, EndsCommandView,
    Instruction, InstructionView, Program, ProgramView, SubcktCommand, SubcktCommandView,
};
use crate::ast::component::component_at;
use crate::lexer::{all_lines_filled, lex};
use crate::parse::{
    expect_eof_at, initial, initial_of, outcome_of, with_fallback, ParseError, ParseErrorView,
    ParseResult, SpiceLineParser, Token,
};
use vstd::prelude::*;

verus! {

/// Whether a line is a command: its first atom begins with a dot.
pub open spec fn is_command_line(ts: Seq<AtomView>) -> bool
    recommends
        ts.len() > 0,
{
    initial_of(ts[0].raw) == Some('.')
}

/// The instruction that a line stands for: a command or a component that
/// takes the whole line. A rejection without a place of its own, which is
/// that of the end of input, gets the place at which the line begins.
pub open spec fn line_instruction(ts: Seq<AtomView>) -> Result<InstructionView, ParseErrorView>
    recommends
        ts.len() > 0,
{
    if is_command_line(ts) {
        match command_at(ts, 0) {
            (Ok(c), end) => match expect_eof_at(ts, end) {
                Ok(_) => Ok(InstructionView::Command(c)),
                Err(e) => Err(e),
            },
            (Err(e), _) => Err(with_fallback(e, ts[0].place())),
        }
    } else {
        match component_at(ts, 0) {
            (Ok(c), end) => match expect_eof_at(ts, end) {
                Ok(_) => Ok(InstructionView::Component(c)),
                Err(e) => Err(e),
            },
            (Err(e), _) => Err(with_fallback(e, ts[0].place())),
        }
    }
}

/// The instructions of the lines `from..to`, or the rejection of the first
/// line that is rejected.
pub open spec fn line_instructions(lines: Seq<Seq<AtomView>>, from: nat, to: nat) -> Result<
    Seq<InstructionView>,
    ParseErrorView,
>
    decreases to,
{
    if to <= from || to > lines.len() {
        Ok(Seq::empty())
    } else {
        match line_instructions(lines, from, (to - 1) as nat) {
            Ok(before) => match line_instruction(lines[to - 1]) {
                Ok(i) => Ok(before.push(i)),
                Err(e) => Err(e),
            },
            Err(e) => Err(e),
        }
    }
}

/// Whether the first line names the program: a single atom that begins
/// with no dot.
pub open spec fn has_title(lines: Seq<Seq<AtomView>>) -> bool {
    lines.len() > 0 && lines[0].len() == 1 && initial_of(lines[0][0].raw) != Some('.')
}

/// The name of the program, if its first line gives one.
pub open spec fn title(lines: Seq<Seq<AtomView>>) -> Option<AtomView> {
    if has_title(lines) {
        Some(lines[0][0])
    } else {
        None
    }
}

/// The instructions of a source, one for each line after the title.
pub open spec fn flat_instructions(lines: Seq<Seq<AtomView>>) -> Result<
    Seq<InstructionView>,
    ParseErrorView,
> {
    line_instructions(
        lines,
        if has_title(lines) {
            1
        } else {
            0
        },
        lines.len(),
    )
}

/// The program of a source whose subcircuits are left as they stand: a
/// `.SUBCKT`, its lines and its `.ENDS` one after the other.
pub open spec fn flat_program(lines: Seq<Seq<AtomView>>) -> Result<ProgramView, ParseErrorView> {
    match flat_instructions(lines) {
        Ok(instructions) => Ok(ProgramView { name: title(lines), instructions }),
        Err(e) => Err(e),
    }
}

/// The subcircuits that are open, innermost last, and the instructions
/// read so far: of the program first, then of each open subcircuit.
pub struct Frames {
    pub open: Seq<SubcktCommandView>,
    pub bodies: Seq<Seq<InstructionView>>,
}

/// A structural rejection.
pub open spec fn structural(reason: Seq<char>) -> ParseErrorView {
    ParseErrorView { reason, position: None }
}

/// The frames before any instruction: no subcircuit open, and nothing read.
pub open spec fn no_frames() -> Frames {
    Frames { open: Seq::empty(), bodies: seq![Seq::empty()] }
}

/// The frames with one more instruction in the innermost body.
pub open spec fn appended(f: Frames, i: InstructionView) -> Frames {
    Frames { open: f.open, bodies: f.bodies.update(f.bodies.len() - 1, f.bodies.last().push(i)) }
}

/// A subcircuit with the given instructions.
pub open spec fn with_body(s: SubcktCommandView, body: Seq<InstructionView>) -> SubcktCommandView {
    SubcktCommandView {
        name: s.name,
        pins: s.pins,
        optionals: s.optionals,
        params: s.params,
        texts: s.texts,
        instructions: body,
    }
}

/// Whether an `.ENDS` may close the subcircuit `s`: it names none, or it
/// names `s`.
pub open spec fn closes(e: EndsCommandView, s: SubcktCommandView) -> bool {
    match e.name {
        Some(n) => n.raw == s.name.raw,
        None => true,
    }
}

/// The frames after one more instruction. `.SUBCKT` opens a subcircuit;
/// `.ENDS` closes the innermost, which takes its body and joins the body
/// around it; any other instruction joins the innermost body.
pub open spec fn folded_one(f: Frames, i: InstructionView) -> Result<Frames, ParseErrorView>
    recommends
        f.bodies.len() == f.open.len() + 1,
{
    match i {
        InstructionView::Command(CommandView::Subckt(s)) => Ok(
            Frames { open: f.open.push(s), bodies: f.bodies.push(Seq::empty()) },
        ),
        InstructionView::Command(CommandView::Ends(e)) => if f.open.len() == 0 {
            Err(structural("Unmatched .ENDS"@))
        } else if !closes(e, f.open.last()) {
            Err(structural("Unmatched .ENDS"@))
        } else {
            Ok(
                appended(
                    Frames { open: f.open.drop_last(), bodies: f.bodies.drop_last() },
                    InstructionView::Command(
                        CommandView::Subckt(with_body(f.open.last(), f.bodies.last())),
                    ),
                ),
            )
        },
        _ => Ok(appended(f, i)),
    }
}

/// The frames after the instructions `instructions[n..]`, starting from
/// `f`.
pub open spec fn folded_from(instructions: Seq<InstructionView>, n: nat, f: Frames) -> Result<
    Frames,
    ParseErrorView,
>
    decreases instructions.len() - n,
{
    if n >= instructions.len() {
        Ok(f)
    } else {
        match folded_one(f, instructions[n as int]) {
            Ok(next) => folded_from(instructions, n + 1, next),
            Err(e) => Err(e),
        }
    }
}

/// The instructions with every subcircuit folded into its `.SUBCKT`
/// command. An `.ENDS` that closes nothing, or that names another
/// subcircuit than the innermost, is rejected, and so is a `.SUBCKT` that is
/// still open at the end.
pub open spec fn assembled(instructions: Seq<InstructionView>) -> Result<
    Seq<InstructionView>,
    ParseErrorView,
> {
    match folded_from(instructions, 0, no_frames()) {
        Ok(f) => if f.bodies.len() != 1 {
            Err(structural("Missing .ENDS for .SUBCKT"@))
        } else {
            Ok(f.bodies[0])
        },
        Err(e) => Err(e),
    }
}

/// Whether an instruction is a `.SUBCKT`.
pub open spec fn opens(i: InstructionView) -> bool {
    i matches InstructionView::Command(CommandView::Subckt(_))
}

/// Whether an instruction is an `.ENDS`.
pub open spec fn ends(i: InstructionView) -> bool {
    i matches InstructionView::Command(CommandView::Ends(_))
}

/// How many of the instructions `instructions[n..]` are a `.SUBCKT`.
pub open spec fn opened(instructions: Seq<InstructionView>, n: nat) -> nat
    decreases instructions.len() - n,
{
    if n >= instructions.len() {
        0
    } else if opens(instructions[n as int]) {
        opened(instructions, n + 1) + 1
    } else {
        opened(instructions, n + 1)
    }
}

/// How many of the instructions `instructions[n..]` are an `.ENDS`.
pub open spec fn closed(instructions: Seq<InstructionView>, n: nat) -> nat
    decreases instructions.len() - n,
{
    if n >= instructions.len() {
        0
    } else if ends(instructions[n as int]) {
        closed(instructions, n + 1) + 1
    } else {
        closed(instructions, n + 1)
    }
}

/// Frames as the folding keeps them: one body for the program and one for
/// each open subcircuit.
pub open spec fn well_formed(f: Frames) -> bool {
    f.bodies.len() == f.open.len() + 1
}

/// Folding keeps the frames well formed, and where it succeeds it has
/// closed as many subcircuits as it met `.ENDS`, and opened as many as it
/// met `.SUBCKT`.
pub proof fn lemma_fold_counts(instructions: Seq<InstructionView>, n: nat, f: Frames)
    requires
        well_formed(f),
    ensures
        folded_from(instructions, n, f) matches Ok(g) ==> well_formed(g) && g.open.len() + closed(
            instructions,
            n,
        ) == f.open.len() + opened(instructions, n),
    decreases instructions.len() - n,
{
    if n < instructions.len() {
        match folded_one(f, instructions[n as int]) {
            Ok(next) => {
                lemma_fold_counts(instructions, n + 1, next);
            },
            Err(_) => {},
        }
    }
}

/// Subcircuit balance, first half: a source with other than as many
/// `.ENDS` as `.SUBCKT` is rejected. An `.ENDS` too many closes nothing,
/// and a `.SUBCKT` too many is never closed.
pub proof fn lemma_unbalanced_is_rejected(instructions: Seq<InstructionView>)
    requires
        opened(instructions, 0) != closed(instructions, 0),
    ensures
        assembled(instructions) is Err,
{
    lemma_fold_counts(instructions, 0, no_frames());
}

/// The frames after the first `k` instructions, starting from `f`.
pub open spec fn folded_to(instructions: Seq<InstructionView>, k: nat, f: Frames) -> Result<
    Frames,
    ParseErrorView,
> {
    folded_from(instructions.take(k as int), 0, f)
}

/// Folding from `n` on goes by the instructions from `n` on alone.
pub proof fn lemma_fold_of_prefix(
    instructions: Seq<InstructionView>,
    k: nat,
    n: nat,
    f: Frames,
)
    requires
        n <= k <= instructions.len(),
    ensures
        folded_from(instructions.take(k as int), n, f) is Err ==> folded_from(instructions, n, f)
            is Err,
    decreases k - n,
{
    let prefix = instructions.take(k as int);
    if n < k {
        assert(prefix[n as int] == instructions[n as int]);
        match folded_one(f, instructions[n as int]) {
            Ok(next) => {
                lemma_fold_of_prefix(instructions, k, n + 1, next);
            },
            Err(_) => {},
        }
    }
}

/// Subcircuit balance, unmatched `.ENDS`: a source is rejected if, up to
/// some line, it has more `.ENDS` than `.SUBCKT`.
pub proof fn lemma_unmatched_ends_is_rejected(instructions: Seq<InstructionView>, k: nat)
    requires
        k <= instructions.len(),
        closed(instructions.take(k as int), 0) > opened(instructions.take(k as int), 0),
    ensures
        assembled(instructions) is Err,
{
    lemma_fold_counts(instructions.take(k as int), 0, no_frames());
    lemma_fold_of_prefix(instructions, k, 0, no_frames());
}

/// Whether an instruction is neither a `.SUBCKT` nor an `.ENDS`.
pub open spec fn is_plain(i: InstructionView) -> bool {
    !opens(i) && !ends(i)
}

/// Instructions that are neither `.SUBCKT` nor `.ENDS` join the innermost
/// body in their order.
pub proof fn lemma_fold_plain(
    instructions: Seq<InstructionView>,
    n: nat,
    m: nat,
    f: Frames,
    rest: Frames,
)
    requires
        n <= m <= instructions.len(),
        f.bodies.len() > 0,
        forall|i: int| n <= i < m ==> is_plain(#[trigger] instructions[i]),
        rest == (Frames {
            open: f.open,
            bodies: f.bodies.update(
                f.bodies.len() - 1,
                f.bodies.last() + instructions.subrange(n as int, m as int),
            ),
        }),
    ensures
        folded_from(instructions, n, f) == folded_from(instructions, m, rest),
    decreases m - n,
{
    if n < m {
        let i = instructions[n as int];
        assert(is_plain(i));
        let next = appended(f, i);
        assert(folded_one(f, i) == Ok::<Frames, ParseErrorView>(next));
        assert(next.bodies.last() + instructions.subrange(n as int + 1, m as int) =~= f.bodies.last()
            + instructions.subrange(n as int, m as int));
        assert(next.bodies.update(
            next.bodies.len() - 1,
            next.bodies.last() + instructions.subrange(n as int + 1, m as int),
        ) =~= rest.bodies);
        lemma_fold_plain(instructions, n + 1, m, next, rest);
    } else {
        assert(instructions.subrange(n as int, m as int) =~= Seq::empty());
        assert(f.bodies.last() + Seq::<InstructionView>::empty() =~= f.bodies.last());
        assert(rest.bodies =~= f.bodies);
    }
}

/// Subcircuit balance, second half: a `.SUBCKT`, a body without `.SUBCKT`
/// and `.ENDS`, and an `.ENDS` that names nothing or names the subcircuit,
/// are assembled into exactly one instruction, the subcircuit with that
/// body.
pub proof fn lemma_subckt_takes_its_body(
    subckt: SubcktCommandView,
    body: Seq<InstructionView>,
    end: EndsCommandView,
)
    requires
        forall|i: int| 0 <= i < body.len() ==> is_plain(#[trigger] body[i]),
        closes(end, subckt),
    ensures
        assembled(
            seq![InstructionView::Command(CommandView::Subckt(subckt))] + body
                + seq![InstructionView::Command(CommandView::Ends(end))],
        ) == Ok::<Seq<InstructionView>, ParseErrorView>(
            seq![InstructionView::Command(CommandView::Subckt(with_body(subckt, body)))],
        ),
{
    let all = seq![InstructionView::Command(CommandView::Subckt(subckt))] + body
        + seq![InstructionView::Command(CommandView::Ends(end))];
    let m = (body.len() + 1) as nat;
    let f1 = Frames { open: seq![subckt], bodies: seq![Seq::empty(), Seq::empty()] };
    assert(no_frames().open.push(subckt) =~= f1.open);
    assert(no_frames().bodies.push(Seq::empty()) =~= f1.bodies);
    assert(folded_one(no_frames(), all[0]) == Ok::<Frames, ParseErrorView>(f1));
    assert(folded_from(all, 0, no_frames()) == folded_from(all, 1, f1));
    let f2 = Frames { open: seq![subckt], bodies: seq![Seq::empty(), body] };
    assert(all.subrange(1, m as int) =~= body);
    assert(f1.bodies.update(1, f1.bodies.last() + all.subrange(1, m as int)) =~= f2.bodies);
    assert forall|i: int| 1 <= i < m implies is_plain(#[trigger] all[i]) by {
        assert(all[i] == body[i - 1]);
    }
    lemma_fold_plain(all, 1, m, f1, f2);
    let closed_one = InstructionView::Command(CommandView::Subckt(with_body(subckt, body)));
    let f3 = Frames { open: Seq::empty(), bodies: seq![seq![closed_one]] };
    assert(all[m as int] == InstructionView::Command(CommandView::Ends(end)));
    assert(f2.open.drop_last() =~= f3.open);
    assert(f2.bodies.drop_last() =~= seq![Seq::<InstructionView>::empty()]);
    assert(appended(
        Frames { open: f2.open.drop_last(), bodies: f2.bodies.drop_last() },
        closed_one,
    ).bodies =~= f3.bodies);
    assert(folded_one(f2, all[m as int]) == Ok::<Frames, ParseErrorView>(f3));
    assert(folded_from(all, m, f2) == folded_from(all, m + 1, f3));
    assert(folded_from(all, m + 1, f3) == Ok::<Frames, ParseErrorView>(f3));
}

/// The program of a source: the instructions of its lines, assembled.
pub open spec fn program_of(lines: Seq<Seq<AtomView>>) -> Result<ProgramView, ParseErrorView> {
    match flat_instructions(lines) {
        Ok(flat) => match assembled(flat) {
            Ok(instructions) => Ok(ProgramView { name: title(lines), instructions }),
            Err(e) => Err(e),
        },
        Err(e) => Err(e),
    }
}

/// Parses one line as an instruction.
pub fn parse_line(line: &Vec<Token>) -> (r: ParseResult<Instruction>)
    requires
        line.len() > 0,
    ensures
        outcome_of(r) == line_instruction(line.deep_view()),
{
    let start = line[0].place();
    let mut parser = SpiceLineParser::new(line);
    let instruction = if initial(&line[0]) == Some('.') {
        match parser.parse_command() {
            Ok(c) => Instruction::Command(c),
            Err(e) => {
                return Err(e.fallback_position(start));
            },
        }
    } else {
        match parser.parse_component() {
            Ok(c) => Instruction::Component(c),
            Err(e) => {
                return Err(e.fallback_position(start));
            },
        }
    };
    parser.expect_eof()?;
    proof {
        reveal_with_fuel(instruction_view, 2);
    }
    Ok(instruction)
}

/// The name of the program, if the first line gives one.
fn parse_title(lines: &Vec<Vec<Token>>) -> (r: Option<Name>)
    ensures
        r.deep_view() == title(lines.deep_view()),
        r is Some == has_title(lines.deep_view()),
{
    if lines.len() > 0 && lines[0].len() == 1 && initial(&lines[0][0]) != Some('.') {
        Some(Name(lines[0][0].clone()))
    } else {
        None
    }
}

/// Parses the lines from `from` on, each as an instruction.
fn parse_lines(lines: &Vec<Vec<Token>>, from: usize) -> (r: ParseResult<Vec<Instruction>>)
    requires
        all_lines_filled(lines.deep_view()),
        from <= 1,
    ensures
        match r {
            Ok(v) => line_instructions(lines.deep_view(), from as nat, lines.len() as nat) == Ok::<
                Seq<InstructionView>,
                ParseErrorView,
            >(instructions_view(v@)),
            Err(e) => line_instructions(lines.deep_view(), from as nat, lines.len() as nat)
                == Err::<Seq<InstructionView>, ParseErrorView>(e@),
        },
{
    let ghost all = lines.deep_view();
    let mut instructions: Vec<Instruction> = Vec::new();
    let mut i: usize = from;
    if i > lines.len() {
        assert(instructions_view(instructions@) =~= Seq::empty());
        return Ok(instructions);
    }
    assert(instructions_view(instructions@) =~= Seq::empty());
    while i < lines.len()
        invariant
            from <= i <= lines.len(),
            all == lines.deep_view(),
            all_lines_filled(all),
            line_instructions(all, from as nat, i as nat) == Ok::<
                Seq<InstructionView>,
                ParseErrorView,
            >(instructions_view(instructions@)),
        decreases lines.len() - i,
    {
        assert(all[i as int] == lines[i as int].deep_view());
        assert(all[i as int].len() > 0);
        let ghost before = instructions_view(instructions@);
        match parse_line(&lines[i]) {
            Ok(instruction) => {
                instructions.push(instruction);
                assert(instructions_view(instructions@) =~= before.push(
                    instruction_view(instruction),
                ));
            },
            Err(e) => {
                proof {
                    lemma_first_rejection(all, from as nat, (i + 1) as nat, lines.len() as nat);
                }
                return Err(e);
            },
        }
        i += 1;
    }
    Ok(instructions)
}

/// Once a line is rejected, so are all the lines with it.
pub proof fn lemma_first_rejection(lines: Seq<Seq<AtomView>>, from: nat, mid: nat, to: nat)
    requires
        from < mid <= to <= lines.len(),
        line_instructions(lines, from, mid) is Err,
    ensures
        line_instructions(lines, from, to) == line_instructions(lines, from, mid),
    decreases to - mid,
{
    if mid < to {
        lemma_first_rejection(lines, from, mid, (to - 1) as nat);
    }
}

/// No instruction has no view.
pub proof fn lemma_no_instructions()
    ensures
        instructions_view(Seq::empty()) == Seq::<InstructionView>::empty(),
{
    assert(instructions_view(Seq::empty()) =~= Seq::<InstructionView>::empty());
}

/// The views of the bodies of a stack of frames.
pub open spec fn bodies_view(stack: Seq<Vec<Instruction>>) -> Seq<Seq<InstructionView>> {
    Seq::new(stack.len(), |i: int| instructions_view(stack[i]@))
}

/// The elements of a vector in reverse order.
pub fn reversed(v: Vec<Instruction>) -> (r: Vec<Instruction>)
    ensures
        r@ == v@.reverse(),
{
    let mut v = v;
    let ghost all = v@;
    let mut r: Vec<Instruction> = Vec::new();
    while v.len() > 0
        invariant
            v@ == all.subrange(0, v.len() as int),
            r.len() + v.len() == all.len(),
            forall|k: int| 0 <= k < r.len() ==> r[k] == all[all.len() - 1 - k],
        decreases v.len(),
    {
        let x = v.pop().unwrap();
        r.push(x);
    }
    assert(r@ =~= all.reverse());
    r
}

/// Folds the subcircuits of a list of instructions: every `.SUBCKT` takes
/// the instructions up to the `.ENDS` that closes it.
pub fn assemble(instructions: Vec<Instruction>) -> (r: ParseResult<Vec<Instruction>>)
    ensures
        match r {
            Ok(v) => assembled(instructions_view(instructions@)) == Ok::<
                Seq<InstructionView>,
                ParseErrorView,
            >(instructions_view(v@)),
            Err(e) => assembled(instructions_view(instructions@)) == Err::<
                Seq<InstructionView>,
                ParseErrorView,
            >(e@),
        },
{
    let ghost all = instructions_view(instructions@);
    let ghost given = instructions@;
    let mut rest = reversed(instructions);
    let mut stack: Vec<Vec<Instruction>> = Vec::new();
    stack.push(Vec::new());
    let mut subckts: Vec<SubcktCommand> = Vec::new();
    proof {
        lemma_no_instructions();
        assert(stack@[0]@ =~= Seq::empty());
        assert(bodies_view(stack@) =~= no_frames().bodies);
        assert(subckts.deep_view() =~= no_frames().open);
    }
    while rest.len() > 0
        invariant
            rest.len() <= given.len(),
            given == instructions@,
            all == instructions_view(given),
            forall|k: int| 0 <= k < rest.len() ==> rest[k] == given[given.len() - 1 - k],
            stack.len() == subckts.len() + 1,
            folded_from(
                all,
                (given.len() - rest.len()) as nat,
                Frames { open: subckts.deep_view(), bodies: bodies_view(stack@) },
            ) == folded_from(all, 0, no_frames()),
        decreases rest.len(),
    {
        let ghost n = (given.len() - rest.len()) as int;
        let ghost frames = Frames { open: subckts.deep_view(), bodies: bodies_view(stack@) };
        let ghost stack0 = stack@;
        let ghost subckts0 = subckts.deep_view();
        let inst = rest.pop().unwrap();
        assert(inst == given[n]);
        assert(all[n] == instruction_view(inst));
        proof {
            reveal_with_fuel(instruction_view, 3);
        }
        match inst {
            Instruction::Command(Command::Subckt(subckt_command)) => {
                subckts.push(subckt_command);
                let fresh: Vec<Instruction> = Vec::new();
                proof {
                    lemma_no_instructions();
                    assert(fresh@ =~= Seq::empty());
                }
                stack.push(fresh);
                assert(subckts.deep_view() =~= subckts0.push(subckt_command.deep_view()));
                assert(bodies_view(stack@) =~= bodies_view(stack0).push(Seq::empty()));
            },
            Instruction::Command(Command::Ends(ends_command)) => {
                if subckts.len() == 0 {
                    return Err(
                        ParseError { reason: "Unmatched .ENDS".to_owned(), position: None },
                    );
                }
                let mut subckt = subckts.pop().unwrap();
                assert(subckt.deep_view() == subckts0.last());
                assert(subckts.deep_view() =~= subckts0.drop_last());
                if let Some(name) = &ends_command.name {
                    if name.0.raw != subckt.name.0.raw {
                        return Err(
                            ParseError { reason: "Unmatched .ENDS".to_owned(), position: None },
                        );
                    }
                }
                let body = stack.pop().unwrap();
                let ghost stack1 = stack@;
                assert(instructions_view(body@) == bodies_view(stack0).last());
                subckt.instructions = body;
                assert(subckt.deep_view() == with_body(subckts0.last(), bodies_view(stack0).last()));
                let mut outer = stack.pop().unwrap();
                let ghost outer0 = instructions_view(outer@);
                let closed = Instruction::Command(Command::Subckt(subckt));
                outer.push(closed);
                assert(instructions_view(outer@) =~= outer0.push(instruction_view(closed)));
                stack.push(outer);
                assert(bodies_view(stack@) =~= appended(
                    Frames { open: subckts0.drop_last(), bodies: bodies_view(stack0).drop_last() },
                    instruction_view(closed),
                ).bodies);
            },
            other => {
                let mut inner = stack.pop().unwrap();
                let ghost inner0 = instructions_view(inner@);
                inner.push(other);
                assert(instructions_view(inner@) =~= inner0.push(instruction_view(other)));
                stack.push(inner);
                assert(bodies_view(stack@) =~= appended(frames, instruction_view(other)).bodies);
            },
        }
    }
    if stack.len() != 1 {
        return Err(ParseError { reason: "Missing .ENDS for .SUBCKT".to_owned(), position: None });
    }
    let instructions = stack.pop().unwrap();
    Ok(instructions)
}

/// Parser of a whole source, given as its lines of tokens.
pub struct SpiceFileParser<'a> {
    pub vec: &'a Vec<Vec<Token>>,
}

impl<'a> SpiceFileParser<'a> {
    pub fn new(vec: &'a Vec<Vec<Token>>) -> (r: Self)
        ensures
            r.vec == vec,
    {
        Self { vec }
    }

    /// Parses the program: an optional title line, then one instruction
    /// for each line, the lines of a subcircuit folded into its `.SUBCKT`.
    pub fn parse(&mut self) -> (r: ParseResult<Program>)
        requires
            all_lines_filled(old(self).vec.deep_view()),
        ensures
            final(self).vec == old(self).vec,
            outcome_of(r) == program_of(old(self).vec.deep_view()),
    {
        let name = parse_title(self.vec);
        let from: usize = if name.is_some() {
            1
        } else {
            0
        };
        let flat = parse_lines(self.vec, from)?;
        let instructions = assemble(flat)?;
        Ok(Program { name, instructions })
    }
}

/// Parser of a part of a source: subcircuits are left as they stand.
pub struct SpiceFilePartParser<'a> {
    pub vec: &'a Vec<Vec<Token>>,
}

impl<'a> SpiceFilePartParser<'a> {
    pub fn new(vec: &'a Vec<Vec<Token>>) -> (r: Self)
        ensures
            r.vec == vec,
    {
        Self { vec }
    }

    /// Parses the lines: an optional title line, then one instruction for
    /// each line.
    pub fn parse(&mut self) -> (r: ParseResult<Program>)
        requires
            all_lines_filled(old(self).vec.deep_view()),
        ensures
            final(self).vec == old(self).vec,
            outcome_of(r) == flat_program(old(self).vec.deep_view()),
    {
        let name = parse_title(self.vec);
        let from: usize = if name.is_some() {
            1
        } else {
            0
        };
        let instructions = parse_lines(self.vec, from)?;
        Ok(Program { name, instructions })
    }
}

/// The instructions of lines that are each accepted: one for each line, in
/// the order of the lines.
proof fn lemma_lines_accepted(lines: Seq<Seq<AtomView>>, all: Seq<InstructionView>, n: nat)
    requires
        all.len() == lines.len(),
        forall|k: int|
            0 <= k < lines.len() ==> line_instruction(#[trigger] lines[k]) == Ok::<
                InstructionView,
                ParseErrorView,
            >(all[k]),
        n <= lines.len(),
    ensures
        line_instructions(lines, 0, n) == Ok::<Seq<InstructionView>, ParseErrorView>(
            all.subrange(0, n as int),
        ),
    decreases n,
{
    if n == 0 {
        assert(all.subrange(0, 0) =~= Seq::empty());
    } else {
        lemma_lines_accepted(lines, all, (n - 1) as nat);
        assert(all.subrange(0, n as int) =~= all.subrange(0, n - 1).push(all[n - 1]));
    }
}

/// Subcircuit balance on a text: where the first logical line of a text is
/// a `.SUBCKT`, the last an `.ENDS` that names nothing or names that
/// subcircuit, and every line between is accepted as an instruction other
/// than these two, the program of the text has no name and exactly one
/// instruction, the subcircuit with the instructions of the lines between,
/// in their order, as its body.
pub proof fn lemma_text_of_one_subckt(
    code: Seq<char>,
    subckt: SubcktCommandView,
    body: Seq<InstructionView>,
    end: EndsCommandView,
)
    requires
        lex(code).len() == body.len() + 2,
        line_instruction(lex(code)[0]) == Ok::<InstructionView, ParseErrorView>(
            InstructionView::Command(CommandView::Subckt(subckt)),
        ),
        forall|k: int|
            0 <= k < body.len() ==> is_plain(#[trigger] body[k]) && line_instruction(
                lex(code)[k + 1],
            ) == Ok::<InstructionView, ParseErrorView>(body[k]),
        line_instruction(lex(code).last()) == Ok::<InstructionView, ParseErrorView>(
            InstructionView::Command(CommandView::Ends(end)),
        ),
        closes(end, subckt),
    ensures
        program_of(lex(code)) == Ok::<ProgramView, ParseErrorView>(
            ProgramView {
                name: None,
                instructions: seq![
                    InstructionView::Command(CommandView::Subckt(with_body(subckt, body))),
                ],
            },
        ),
{
    let lines = lex(code);
    let all = seq![InstructionView::Command(CommandView::Subckt(subckt))] + body
        + seq![InstructionView::Command(CommandView::Ends(end))];
    assert(is_command_line(lines[0]));
    assert(!has_title(lines));
    assert forall|k: int| 0 <= k < lines.len() implies line_instruction(#[trigger] lines[k])
        == Ok::<InstructionView, ParseErrorView>(all[k]) by {
        if 0 < k < lines.len() - 1 {
            assert(is_plain(body[k - 1]));
            assert(all[k] == body[k - 1]);
        }
    }
    lemma_lines_accepted(lines, all, lines.len());
    assert(all.subrange(0, lines.len() as int) =~= all);
    lemma_subckt_takes_its_body(subckt, body, end);
}

/// Subcircuit balance on a text, the rejections: a text whose lines are
/// all accepted is rejected if, up to some line, it has more `.ENDS` than
/// `.SUBCKT`, and if it has other than as many of the one as of the other.
pub proof fn lemma_text_unbalanced_is_rejected(code: Seq<char>, flat: Seq<InstructionView>, k: nat)
    requires
        flat_instructions(lex(code)) == Ok::<Seq<InstructionView>, ParseErrorView>(flat),
        k <= flat.len(),
        closed(flat.take(k as int), 0) > opened(flat.take(k as int), 0) || opened(flat, 0)
            != closed(flat, 0),
    ensures
        program_of(lex(code)) is Err,
{
    if opened(flat, 0) != closed(flat, 0) {
        lemma_unbalanced_is_rejected(flat);
    } else {
        lemma_unmatched_ends_is_rejected(flat, k);
    }
}

} // verus!
