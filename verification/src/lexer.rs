//! The tokenizer: source text to lines of atoms.
//!
//! A line is scanned left to right by a small state machine. Lines that
//! yield no atom are dropped, and a line whose first atom is `+` continues
//! the line before it.

use crate::ast::{Atom, AtomView};
use crate::text::{
    chars_of, digit, is_digit, is_space, is_white_space, string_of, utf8_width, width_of,
};
use vstd::prelude::*;

verus! {

/// Characters that are tokens of their own.
pub open spec fn is_special(c: char) -> bool {
    c == ')' || c == '(' || c == ']' || c == '[' || c == '}' || c == '{' || c == '=' || c == ':'
        || c == '*' || c == '<' || c == '>' || c == '!' || c == '~' || c == '&' || c == '|' || c
        == '+' || c == '-' || c == '^' || c == '/'
}

/// Characters that separate tokens and belong to none.
pub open spec fn is_blank(c: char) -> bool {
    is_white_space(c) || c == ','
}

/// The operators made of two special characters.
pub open spec fn is_long_operator(a: char, b: char) -> bool {
    (a == '!' && b == '=') || (a == '=' && b == '=') || (a == '<' && b == '=') || (a == '>' && b
        == '=') || (a == '*' && b == '*')
}

/// Whether the sign at `j` continues a number in scientific notation: the
/// run since `start` begins with a digit or a dot and ends in `e`, and a
/// digit follows the sign.
pub open spec fn inside_number(line: Seq<char>, start: nat, j: nat) -> bool {
    &&& start < j < line.len()
    &&& (line[start as int] == '.' || is_digit(line[start as int]))
    &&& (line[j - 1] == 'e' || line[j - 1] == 'E')
    &&& (line[j as int] == '+' || line[j as int] == '-')
    &&& j + 1 < line.len()
    &&& is_digit(line[(j + 1) as int])
}

/// State of the scan before a character: where the pending run began,
/// whether a quoted string is open, and whether this character is the
/// second half of a two-character operator.
pub struct Scan {
    pub start: nat,
    pub quoted: bool,
    pub skip: bool,
}

/// A half-open range of character positions in a line.
pub type Span = (nat, nat);

/// The pending run, if any, as a span ending before `j`.
pub open spec fn pending(start: nat, j: nat) -> Seq<Span> {
    if start < j {
        seq![(start, j)]
    } else {
        Seq::empty()
    }
}

/// One step of the scan: the state after character `j` and the spans it
/// completes.
pub open spec fn step(line: Seq<char>, j: nat, s: Scan) -> (Scan, Seq<Span>) {
    let c = line[j as int];
    if s.skip {
        (Scan { start: s.start, quoted: s.quoted, skip: false }, Seq::empty())
    } else if c == '"' {
        if s.quoted {
            (
                Scan { start: j + 1, quoted: false, skip: false },
                seq![((s.start - 1) as nat, j + 1)],
            )
        } else {
            (Scan { start: j + 1, quoted: true, skip: false }, Seq::empty())
        }
    } else if s.quoted {
        (s, Seq::empty())
    } else if is_blank(c) || is_special(c) {
        if inside_number(line, s.start, j) {
            (s, Seq::empty())
        } else if is_special(c) {
            if j + 1 < line.len() && is_long_operator(c, line[(j + 1) as int]) {
                (
                    Scan {
                        start: if is_blank(c) {
                            j + 1
                        } else {
                            j + 2
                        },
                        quoted: false,
                        skip: true,
                    },
                    pending(s.start, j).push((j, j + 2)),
                )
            } else {
                (
                    Scan { start: j + 1, quoted: false, skip: false },
                    pending(s.start, j).push((j, j + 1)),
                )
            }
        } else {
            (Scan { start: j + 1, quoted: false, skip: false }, pending(s.start, j))
        }
    } else {
        (s, Seq::empty())
    }
}

/// The spans completed from character `j` on, starting in state `s`. What
/// is pending at the end of the line is a span too.
pub open spec fn scan(line: Seq<char>, j: nat, s: Scan) -> Seq<Span>
    decreases line.len() - j,
{
    if j >= line.len() {
        pending(s.start, line.len())
    } else {
        let (next, out) = step(line, j, s);
        out + scan(line, j + 1, next)
    }
}

/// The position of the first `;` at or after `i`, or the line's length.
pub open spec fn comment_start(line: Seq<char>, i: nat) -> nat
    decreases line.len() - i,
{
    if i >= line.len() {
        line.len()
    } else if line[i as int] == ';' {
        i
    } else {
        comment_start(line, i + 1)
    }
}

/// The part of a line before its first `;`.
pub open spec fn before_comment(line: Seq<char>) -> Seq<char> {
    line.subrange(0, comment_start(line, 0) as int)
}

/// The position of the first character at or after `i` that is not white
/// space, or the line's length.
pub open spec fn text_start(line: Seq<char>, i: nat) -> nat
    decreases line.len() - i,
{
    if i >= line.len() {
        line.len()
    } else if is_white_space(line[i as int]) {
        text_start(line, i + 1)
    } else {
        i
    }
}

/// Whether the first character of a line that is not white space is `*`.
pub open spec fn is_comment(line: Seq<char>) -> bool {
    let k = text_start(line, 0);
    k < line.len() && line[k as int] == '*'
}

/// The byte offset of character `k` of a line in UTF-8, held at
/// `usize::MAX` where it would exceed it.
pub open spec fn byte_offset(line: Seq<char>, k: nat) -> usize
    decreases k,
{
    if k == 0 || k > line.len() {
        0
    } else {
        let before = byte_offset(line, (k - 1) as nat);
        let w = utf8_width(line[k - 1]);
        if before + w <= usize::MAX {
            (before + w) as usize
        } else {
            usize::MAX
        }
    }
}

/// The atom a span of a line stands for.
pub open spec fn atom_of(line: Seq<char>, span: Span, number: usize) -> AtomView {
    AtomView {
        raw: line.subrange(span.0 as int, span.1 as int),
        column: (byte_offset(line, span.0), byte_offset(line, span.1)),
        line: number,
    }
}

/// The spans of a line's tokens, in order.
pub open spec fn spans_of(line: Seq<char>) -> Seq<Span> {
    if is_comment(line) {
        Seq::empty()
    } else {
        scan(before_comment(line), 0, Scan { start: 0, quoted: false, skip: false })
    }
}

/// The atoms of one physical line, which is line `number` of its file.
pub open spec fn lex_line(line: Seq<char>, number: usize) -> Seq<AtomView> {
    spans_of(line).map_values(|span: Span| atom_of(before_comment(line), span, number))
}

/// A line without the carriage return that may end it.
pub open spec fn strip_cr(line: Seq<char>) -> Seq<char> {
    if line.len() > 0 && line.last() == '\r' {
        line.drop_last()
    } else {
        line
    }
}

/// The lines of `code` from `start` on, `i` being how far the current line
/// has been read. A line ends at a line feed, an optional carriage return
/// before it left out; text after the last line feed is a line as it
/// stands.
pub open spec fn lines_from(code: Seq<char>, start: nat, i: nat) -> Seq<Seq<char>>
    decreases code.len() - i,
{
    if i >= code.len() {
        if start < code.len() {
            seq![code.subrange(start as int, code.len() as int)]
        } else {
            Seq::empty()
        }
    } else if code[i as int] == '\n' {
        seq![strip_cr(code.subrange(start as int, i as int))] + lines_from(code, i + 1, i + 1)
    } else {
        lines_from(code, start, i + 1)
    }
}

/// The lines of a text.
pub open spec fn lines_of(code: Seq<char>) -> Seq<Seq<char>> {
    lines_from(code, 0, 0)
}

/// The atoms of the first `n` lines, line by line, without the lines that
/// have none.
pub open spec fn lexed(lines: Seq<Seq<char>>, n: nat) -> Seq<Seq<AtomView>>
    decreases n,
{
    if n == 0 || n > lines.len() {
        Seq::empty()
    } else {
        let before = lexed(lines, (n - 1) as nat);
        let atoms = lex_line(lines[n - 1], (n - 1) as usize);
        if atoms.len() == 0 {
            before
        } else {
            before.push(atoms)
        }
    }
}

/// Whether a line of atoms continues the line before it.
pub open spec fn is_continuation(atoms: Seq<AtomView>) -> bool {
    atoms.len() > 0 && atoms[0].raw == seq!['+']
}

/// The first `n` lines with every continuation line joined, without its
/// `+`, to the line it continues. The first line continues nothing.
pub open spec fn merged(lines: Seq<Seq<AtomView>>, n: nat) -> Seq<Seq<AtomView>>
    decreases n,
{
    if n == 0 || n > lines.len() {
        Seq::empty()
    } else {
        let before = merged(lines, (n - 1) as nat);
        let atoms = lines[n - 1];
        if before.len() > 0 && is_continuation(atoms) {
            before.update(before.len() - 1, before.last() + atoms.drop_first())
        } else {
            before.push(atoms)
        }
    }
}

/// The logical lines of a source text, each as its atoms.
pub open spec fn lex(code: Seq<char>) -> Seq<Seq<AtomView>> {
    let lines = lines_of(code);
    let atoms = lexed(lines, lines.len());
    merged(atoms, atoms.len())
}

/// The texts of a sequence of character vectors.
pub open spec fn texts(lines: Seq<Vec<char>>) -> Seq<Seq<char>> {
    lines.map_values(|l: Vec<char>| l@)
}

/// The characters `chars[from..to]` as a vector of their own.
fn slice_of(chars: &Vec<char>, from: usize, to: usize) -> (r: Vec<char>)
    requires
        from <= to <= chars.len(),
    ensures
        r@ == chars@.subrange(from as int, to as int),
{
    let mut r: Vec<char> = Vec::new();
    let mut i: usize = from;
    while i < to
        invariant
            from <= i <= to <= chars.len(),
            r@ == chars@.subrange(from as int, i as int),
        decreases to - i,
    {
        r.push(chars[i]);
        i += 1;
        assert(r@ =~= chars@.subrange(from as int, i as int));
    }
    r
}

/// Splits a text into its lines.
pub fn split_lines(code: &Vec<char>) -> (lines: Vec<Vec<char>>)
    ensures
        texts(lines@) == lines_of(code@),
{
    let mut lines: Vec<Vec<char>> = Vec::new();
    let mut start: usize = 0;
    let mut i: usize = 0;
    assert(texts(lines@) + lines_from(code@, 0, 0) =~= lines_of(code@));
    while i < code.len()
        invariant
            start <= i <= code.len(),
            texts(lines@) + lines_from(code@, start as nat, i as nat) == lines_of(code@),
        decreases code.len() - i,
    {
        if code[i] == '\n' {
            let end = if start < i && code[i - 1] == '\r' {
                i - 1
            } else {
                i
            };
            let line = slice_of(code, start, end);
            proof {
                let whole = code@.subrange(start as int, i as int);
                assert(line@ =~= strip_cr(whole));
                assert(texts(lines@.push(line)) =~= texts(lines@).push(line@));
                assert(texts(lines@).push(line@) + lines_from(code@, (i + 1) as nat, (i + 1) as nat)
                    =~= texts(lines@) + lines_from(code@, start as nat, i as nat));
            }
            lines.push(line);
            start = i + 1;
        }
        i += 1;
    }
    if start < code.len() {
        let line = slice_of(code, start, code.len());
        proof {
            assert(texts(lines@.push(line)) =~= texts(lines@).push(line@));
            assert(texts(lines@).push(line@) =~= texts(lines@) + lines_from(
                code@,
                start as nat,
                i as nat,
            ));
        }
        lines.push(line);
    } else {
        assert(texts(lines@) + lines_from(code@, start as nat, i as nat) =~= texts(lines@));
    }
    lines
}

/// Whether a line is a comment as a whole.
fn starts_comment(line: &Vec<char>) -> (r: bool)
    ensures
        r == is_comment(line@),
{
    let mut i: usize = 0;
    while i < line.len() && is_space(line[i])
        invariant
            i <= line.len(),
            text_start(line@, i as nat) == text_start(line@, 0),
        decreases line.len() - i,
    {
        i += 1;
    }
    i < line.len() && line[i] == '*'
}

/// The line without the comment that a `;` begins.
fn strip_comment(line: &Vec<char>) -> (r: Vec<char>)
    ensures
        r@ == before_comment(line@),
{
    let mut i: usize = 0;
    while i < line.len() && line[i] != ';'
        invariant
            i <= line.len(),
            comment_start(line@, i as nat) == comment_start(line@, 0),
        decreases line.len() - i,
    {
        i += 1;
    }
    slice_of(line, 0, i)
}

fn special(c: char) -> (r: bool)
    ensures
        r == is_special(c),
{
    c == ')' || c == '(' || c == ']' || c == '[' || c == '}' || c == '{' || c == '=' || c == ':'
        || c == '*' || c == '<' || c == '>' || c == '!' || c == '~' || c == '&' || c == '|' || c
        == '+' || c == '-' || c == '^' || c == '/'
}

fn long_operator(a: char, b: char) -> (r: bool)
    ensures
        r == is_long_operator(a, b),
{
    (a == '!' && b == '=') || (a == '=' && b == '=') || (a == '<' && b == '=') || (a == '>' && b
        == '=') || (a == '*' && b == '*')
}

/// The spans as the scan states them: pairs of positions.
pub open spec fn spans_view(spans: Seq<(usize, usize)>) -> Seq<Span> {
    spans.map_values(|s: (usize, usize)| (s.0 as nat, s.1 as nat))
}

/// Scans a line, already without its comment, for the spans of its tokens.
fn scan_line(line: &Vec<char>) -> (spans: Vec<(usize, usize)>)
    ensures
        spans_view(spans@) == scan(line@, 0, Scan { start: 0, quoted: false, skip: false }),
        forall|k: int| 0 <= k < spans.len() ==> (#[trigger] spans[k]).0 <= spans[k].1 <= line.len(),
{
    let ghost whole = scan(line@, 0, Scan { start: 0, quoted: false, skip: false });
    let mut spans: Vec<(usize, usize)> = Vec::new();
    let mut start: usize = 0;
    let mut quoted = false;
    let mut skip = false;
    let mut j: usize = 0;
    assert(spans_view(spans@) + whole =~= whole);
    while j < line.len()
        invariant
            j <= line.len(),
            start <= j + 1,
            start <= line.len(),
            !skip ==> start <= j,
            quoted ==> start >= 1,
            spans_view(spans@) + scan(line@, j as nat, Scan { start: start as nat, quoted, skip })
                == whole,
            forall|k: int|
                0 <= k < spans.len() ==> (#[trigger] spans[k]).0 <= spans[k].1 <= line.len(),
        decreases line.len() - j,
    {
        let ghost state = Scan { start: start as nat, quoted, skip };
        let ghost before = spans@;
        let c = line[j];
        if skip {
            skip = false;
        } else if c == '"' {
            if quoted {
                spans.push((start - 1, j + 1));
                quoted = false;
            } else {
                quoted = true;
            }
            start = j + 1;
        } else if quoted {
        } else {
            let blank = is_space(c) || c == ',';
            let is_special_char = special(c);
            if blank || is_special_char {
                let inside = start < j && (line[start] == '.' || digit(line[start])) && (line[j
                    - 1] == 'e' || line[j - 1] == 'E') && (c == '+' || c == '-') && j + 1
                    < line.len() && digit(line[j + 1]);
                assert(inside == inside_number(line@, start as nat, j as nat));
                if !inside {
                    if start < j {
                        spans.push((start, j));
                    }
                    if is_special_char {
                        if j + 1 < line.len() && long_operator(c, line[j + 1]) {
                            spans.push((j, j + 2));
                            start = j + 2;
                            skip = true;
                        } else {
                            spans.push((j, j + 1));
                            start = j + 1;
                        }
                    }
                    if blank {
                        start = j + 1;
                    }
                }
            }
        }
        proof {
            let (next, out) = step(line@, j as nat, state);
            assert(next == Scan { start: start as nat, quoted, skip });
            assert(spans_view(spans@) =~= spans_view(before) + out);
            assert(spans_view(before) + (out + scan(line@, (j + 1) as nat, next)) =~= spans_view(
                before,
            ) + out + scan(line@, (j + 1) as nat, next));
        }
        j += 1;
    }
    if start < line.len() {
        proof {
            assert(spans_view(spans@.push((start, line.len()))) =~= spans_view(spans@) + pending(
                start as nat,
                line@.len(),
            ));
        }
        spans.push((start, line.len()));
    } else {
        assert(spans_view(spans@) + pending(start as nat, line@.len()) =~= spans_view(spans@));
    }
    spans
}

/// The byte offset of every character position of a line, from 0 to its
/// length.
fn byte_offsets(line: &Vec<char>) -> (offsets: Vec<usize>)
    ensures
        offsets.len() == line.len() + 1,
        forall|k: int| 0 <= k <= line.len() ==> offsets[k] == byte_offset(line@, k as nat),
{
    let mut offsets: Vec<usize> = Vec::new();
    offsets.push(0);
    let mut i: usize = 0;
    let mut at: usize = 0;
    while i < line.len()
        invariant
            i <= line.len(),
            offsets.len() == i + 1,
            at == byte_offset(line@, i as nat),
            forall|k: int| 0 <= k <= i ==> offsets[k] == byte_offset(line@, k as nat),
        decreases line.len() - i,
    {
        let w = width_of(line[i]);
        at = if at <= usize::MAX - w {
            at + w
        } else {
            usize::MAX
        };
        i += 1;
        offsets.push(at);
    }
    offsets
}

/// Tokenizes one physical line, which is line `number` of its file.
pub fn tokenize_line(line: &Vec<char>, number: usize) -> (atoms: Vec<Atom>)
    ensures
        atoms.deep_view() == lex_line(line@, number),
{
    if starts_comment(line) {
        let atoms: Vec<Atom> = Vec::new();
        assert(atoms.deep_view() =~= lex_line(line@, number));
        return atoms;
    }
    let body = strip_comment(line);
    let spans = scan_line(&body);
    let offsets = byte_offsets(&body);
    let mut atoms: Vec<Atom> = Vec::new();
    let mut k: usize = 0;
    while k < spans.len()
        invariant
            k <= spans.len(),
            atoms.len() == k,
            body@ == before_comment(line@),
            spans_view(spans@) == spans_of(line@),
            offsets.len() == body.len() + 1,
            forall|i: int| 0 <= i <= body.len() ==> offsets[i] == byte_offset(body@, i as nat),
            forall|i: int| 0 <= i < spans.len() ==> (#[trigger] spans[i]).0 <= spans[i].1 <= body.len(),
            forall|i: int|
                0 <= i < k ==> (#[trigger] atoms[i]).deep_view() == lex_line(line@, number)[i],
        decreases spans.len() - k,
    {
        let (from, to) = spans[k];
        let atom = Atom {
            raw: string_of(&body, from, to),
            column: (offsets[from], offsets[to]),
            line: number,
        };
        assert(spans_view(spans@)[k as int] == (from as nat, to as nat));
        assert(atom.deep_view() == lex_line(line@, number)[k as int]);
        atoms.push(atom);
        k += 1;
    }
    assert(atoms.deep_view() =~= lex_line(line@, number));
    atoms
}

/// Joins every continuation line to the line it continues.
pub fn merge_lines(lines: Vec<Vec<Atom>>) -> (r: Vec<Vec<Atom>>)
    ensures
        r.deep_view() == merged(lines.deep_view(), lines.len() as nat),
{
    let ghost all = lines.deep_view();
    let mut r: Vec<Vec<Atom>> = Vec::new();
    let mut i: usize = 0;
    assert(r.deep_view() =~= merged(all, 0));
    while i < lines.len()
        invariant
            i <= lines.len(),
            all == lines.deep_view(),
            r.deep_view() == merged(all, i as nat),
        decreases lines.len() - i,
    {
        let line = &lines[i];
        let ghost before = r.deep_view();
        assert(all[i as int] == line.deep_view());
        if r.len() > 0 && line.len() > 0 && is_plus(&line[0]) {
            let mut last = r.pop().unwrap();
            let ghost shorter = r.deep_view();
            let ghost head = last.deep_view();
            assert(shorter =~= before.drop_last());
            assert(head == before.last());
            let mut k: usize = 1;
            assert(last.deep_view() =~= head + line.deep_view().subrange(1, 1));
            while k < line.len()
                invariant
                    1 <= k <= line.len(),
                    last.deep_view() == head + line.deep_view().subrange(1, k as int),
                decreases line.len() - k,
            {
                let ghost was = last.deep_view();
                last.push(line[k].clone());
                assert(last.deep_view() =~= was.push(line[k as int].deep_view()));
                k += 1;
                assert(last.deep_view() =~= head + line.deep_view().subrange(1, k as int));
            }
            assert(line.deep_view().subrange(1, k as int) =~= line.deep_view().drop_first());
            r.push(last);
            assert(r.deep_view() =~= before.update(
                before.len() - 1,
                before.last() + line.deep_view().drop_first(),
            ));
        } else {
            let copy = clone_atoms(line);
            r.push(copy);
            assert(r.deep_view() =~= before.push(line.deep_view()));
        }
        i += 1;
    }
    r
}

/// Whether an atom is a lone `+`.
fn is_plus(atom: &Atom) -> (r: bool)
    ensures
        r == (atom.raw@ == seq!['+']),
{
    let chars = chars_of(atom.raw.as_str());
    let r = chars.len() == 1 && chars[0] == '+';
    assert(r == (chars@ =~= seq!['+']));
    r
}

/// A copy of a line of atoms.
pub fn clone_atoms(line: &Vec<Atom>) -> (r: Vec<Atom>)
    ensures
        r.deep_view() == line.deep_view(),
        r@ == line@,
{
    let mut r: Vec<Atom> = Vec::new();
    let mut k: usize = 0;
    while k < line.len()
        invariant
            k <= line.len(),
            r@ == line@.subrange(0, k as int),
        decreases line.len() - k,
    {
        r.push(line[k].clone());
        k += 1;
        assert(r@ =~= line@.subrange(0, k as int));
    }
    assert(line@.subrange(0, k as int) =~= line@);
    assert(r.deep_view() =~= line.deep_view());
    r
}

/// Whether every line has an atom.
pub open spec fn all_lines_filled(lines: Seq<Seq<AtomView>>) -> bool {
    forall|i: int| 0 <= i < lines.len() ==> (#[trigger] lines[i]).len() > 0
}

/// Every line that the atoms of the first `n` lines are kept as has an
/// atom.
pub proof fn lemma_lexed_filled(lines: Seq<Seq<char>>, n: nat)
    ensures
        all_lines_filled(lexed(lines, n)),
    decreases n,
{
    if n != 0 && n <= lines.len() {
        lemma_lexed_filled(lines, (n - 1) as nat);
    }
}

/// Joining continuation lines leaves no line without an atom.
pub proof fn lemma_merged_filled(lines: Seq<Seq<AtomView>>, n: nat)
    requires
        all_lines_filled(lines),
    ensures
        all_lines_filled(merged(lines, n)),
    decreases n,
{
    if n != 0 && n <= lines.len() {
        lemma_merged_filled(lines, (n - 1) as nat);
        let before = merged(lines, (n - 1) as nat);
        let atoms = lines[n - 1];
        assert(atoms.len() > 0);
        if before.len() > 0 && is_continuation(atoms) {
            assert(before.last().len() > 0);
        }
    }
}

/// Whether no line but the first continues the line before it.
pub open spec fn no_continuation_left(lines: Seq<Seq<AtomView>>) -> bool {
    forall|i: int| 1 <= i < lines.len() ==> !is_continuation(#[trigger] lines[i])
}

/// Once continuation lines are joined, none is left: only the first line
/// may begin with `+`.
pub proof fn lemma_merged_has_no_continuation(lines: Seq<Seq<AtomView>>, n: nat)
    requires
        all_lines_filled(lines),
    ensures
        no_continuation_left(merged(lines, n)),
    decreases n,
{
    if n != 0 && n <= lines.len() {
        lemma_merged_has_no_continuation(lines, (n - 1) as nat);
        lemma_merged_filled(lines, (n - 1) as nat);
        let before = merged(lines, (n - 1) as nat);
        let atoms = lines[n - 1];
        if before.len() > 0 && is_continuation(atoms) {
            let last = before.last();
            assert(last.len() > 0);
            assert((last + atoms.drop_first())[0] == last[0]);
        }
    }
}

/// Every logical line of a source has an atom.
pub proof fn lemma_lex_filled(code: Seq<char>)
    ensures
        all_lines_filled(lex(code)),
{
    let lines = lines_of(code);
    lemma_lexed_filled(lines, lines.len());
    let atoms = lexed(lines, lines.len());
    lemma_merged_filled(atoms, atoms.len());
}

/// No logical line of a source but the first begins with `+`.
pub proof fn lemma_lex_has_no_continuation(code: Seq<char>)
    ensures
        no_continuation_left(lex(code)),
{
    let lines = lines_of(code);
    lemma_lexed_filled(lines, lines.len());
    let atoms = lexed(lines, lines.len());
    lemma_merged_has_no_continuation(atoms, atoms.len());
}

/// The tokenizer.
pub struct SpiceLexer;

impl SpiceLexer {
    /// Tokenizes a source text into its logical lines.
    pub fn tokenize(code: &str) -> (r: Vec<Vec<Atom>>)
        ensures
            r.deep_view() == lex(code@),
            all_lines_filled(r.deep_view()),
            no_continuation_left(r.deep_view()),
    {
        proof {
            lemma_lex_filled(code@);
            lemma_lex_has_no_continuation(code@);
        }
        let chars = chars_of(code);
        let lines = split_lines(&chars);
        let mut atoms: Vec<Vec<Atom>> = Vec::new();
        let mut n: usize = 0;
        assert(atoms.deep_view() =~= lexed(lines_of(code@), 0));
        while n < lines.len()
            invariant
                n <= lines.len(),
                texts(lines@) == lines_of(code@),
                atoms.deep_view() == lexed(lines_of(code@), n as nat),
            decreases lines.len() - n,
        {
            let ghost before = atoms.deep_view();
            let line = tokenize_line(&lines[n], n);
            assert(texts(lines@)[n as int] == lines[n as int]@);
            if line.len() > 0 {
                atoms.push(line);
                assert(atoms.deep_view() =~= before.push(line.deep_view()));
            }
            n += 1;
        }
        assert(atoms.deep_view().len() == atoms.len());
        merge_lines(atoms)
    }
}

} // verus!
