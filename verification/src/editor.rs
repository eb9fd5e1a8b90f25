//! Helpers for an editor: the word under a cursor, and the line and column
//! of an offset.

use crate::lexer::{lines_of, split_lines, texts};
use crate::parse::{ParseError, ParseErrorView};
use crate::text::{chars_of, string_of, utf8_width, width_of};
use vstd::prelude::*;

verus! {

/// Whether `[start, end)` is the word of `line` around `at`: a run without
/// a space that holds `at` and that a space or an end of the line bounds on
/// either side.
pub open spec fn is_word_around(line: Seq<char>, at: int, start: int, end: int) -> bool {
    &&& 0 <= start <= at < end <= line.len()
    &&& forall|i: int| start <= i < end ==> #[trigger] line[i] != ' '
    &&& start == 0 || line[start - 1] == ' '
    &&& end == line.len() || line[end] == ' '
}

/// Where the word that holds the character before `at` begins: after the
/// nearest space to the left, or at the start of the line.
pub open spec fn word_start(line: Seq<char>, at: nat) -> nat
    decreases at,
{
    if at == 0 || at > line.len() || line[at - 1] == ' ' {
        at
    } else {
        word_start(line, (at - 1) as nat)
    }
}

/// Where the word that holds the character at `at` ends: at the nearest
/// space to the right, or at the end of the line.
pub open spec fn word_end(line: Seq<char>, at: nat) -> nat
    decreases line.len() - at,
{
    if at >= line.len() || line[at as int] == ' ' {
        at
    } else {
        word_end(line, at + 1)
    }
}

/// The bounds of the word around `at`.
fn word_bounds(chars: &Vec<char>, at: usize) -> (r: (usize, usize))
    requires
        at < chars.len(),
    ensures
        r.0 == word_start(chars@, at as nat),
        r.1 == word_end(chars@, at as nat),
        r.0 <= at <= r.1 <= chars.len(),
{
    let mut start = at;
    while start > 0 && chars[start - 1] != ' '
        invariant
            start <= at < chars.len(),
            word_start(chars@, start as nat) == word_start(chars@, at as nat),
        decreases start,
    {
        start -= 1;
    }
    let mut end = at;
    while end < chars.len() && chars[end] != ' '
        invariant
            at <= end <= chars.len(),
            word_end(chars@, end as nat) == word_end(chars@, at as nat),
        decreases chars.len() - end,
    {
        end += 1;
    }
    (start, end)
}

/// The word of a line around the character at `location`: `None` where
/// that character is a space.
pub open spec fn word_at(line: Seq<char>, location: nat) -> Option<Seq<char>> {
    if location < line.len() && line[location as int] != ' ' {
        Some(line.subrange(word_start(line, location) as int, word_end(line, location) as int))
    } else {
        None
    }
}

/// The word of a line around the character at `location`: `None` where
/// that character is a space.
pub fn extract_word(line_text: &str, location: usize) -> (r: Option<String>)
    requires
        location < line_text@.len(),
    ensures
        r.deep_view() == word_at(line_text@, location as nat),
{
    let chars = chars_of(line_text);
    if chars[location] != ' ' {
        let (start, end) = word_bounds(&chars, location);
        Some(string_of(&chars, start, end))
    } else {
        None
    }
}

/// The length of the word of a line around the character at `location`:
/// `None` where that character is a space, and 1 past the end of the line.
pub open spec fn word_length_at(line: Seq<char>, location: nat) -> Option<nat> {
    if location >= line.len() {
        Some(1)
    } else if line[location as int] == ' ' {
        None
    } else {
        Some((word_end(line, location) - word_start(line, location)) as nat)
    }
}

/// The length of the word around the character at `location` of a line
/// that is held as its characters.
fn word_length_in(chars: &Vec<char>, location: usize) -> (r: Option<usize>)
    ensures
        r is Some == word_length_at(chars@, location as nat) is Some,
        r matches Some(n) ==> word_length_at(chars@, location as nat) == Some(n as nat),
{
    if location >= chars.len() {
        return Some(1);
    }
    if chars[location] != ' ' {
        let (start, end) = word_bounds(chars, location);
        Some(end - start)
    } else {
        None
    }
}

/// The length of the word of a line around the character at `location`:
/// `None` where that character is a space, and 1 past the end of the line.
pub fn word_length(line_text: &str, location: usize) -> (r: Option<usize>)
    ensures
        r is Some == word_length_at(line_text@, location as nat) is Some,
        r matches Some(n) ==> word_length_at(line_text@, location as nat) == Some(n as nat),
{
    let chars = chars_of(line_text);
    word_length_in(&chars, location)
}

/// The word around a character that is no space is a run without a space
/// that holds the character and that a space or an end of the line bounds
/// on either side.
pub proof fn lemma_word_bounds(line: Seq<char>, at: nat)
    requires
        at < line.len(),
        line[at as int] != ' ',
    ensures
        is_word_around(line, at as int, word_start(line, at) as int, word_end(line, at) as int),
{
    lemma_word_start(line, at);
    lemma_word_end(line, at);
}

/// No space stands from the start of a word up to the place it was looked
/// for from, and a space or the start of the line comes before it.
pub proof fn lemma_word_start(line: Seq<char>, at: nat)
    requires
        at <= line.len(),
    ensures
        word_start(line, at) <= at,
        forall|i: int| word_start(line, at) <= i < at ==> #[trigger] line[i] != ' ',
        word_start(line, at) == 0 || line[word_start(line, at) - 1] == ' ',
    decreases at,
{
    if !(at == 0 || line[at - 1] == ' ') {
        lemma_word_start(line, (at - 1) as nat);
    }
}

/// No space stands from the place a word was looked for from up to its
/// end, and a space or the end of the line comes after it.
pub proof fn lemma_word_end(line: Seq<char>, at: nat)
    requires
        at <= line.len(),
    ensures
        at <= word_end(line, at) <= line.len(),
        forall|i: int| at <= i < word_end(line, at) ==> #[trigger] line[i] != ' ',
        word_end(line, at) == line.len() || line[word_end(line, at) as int] == ' ',
    decreases line.len() - at,
{
    if !(at >= line.len() || line[at as int] == ' ') {
        lemma_word_end(line, at + 1);
    }
}

/// The number of bytes that the first `n` characters of a text take.
pub open spec fn bytes_of(source: Seq<char>, n: nat) -> nat
    decreases n,
{
    if n == 0 || n > source.len() {
        0
    } else {
        bytes_of(source, (n - 1) as nat) + utf8_width(source[n - 1])
    }
}

/// Every character takes a byte at least.
pub proof fn lemma_bytes_at_least(source: Seq<char>, n: nat)
    requires
        n <= source.len(),
    ensures
        bytes_of(source, n) >= n,
    decreases n,
{
    if n > 0 {
        lemma_bytes_at_least(source, (n - 1) as nat);
    }
}

/// How many characters come before the byte `offset`: the first count
/// whose characters take exactly `offset` bytes, looked for from `n` on, or
/// all of them.
pub open spec fn chars_before(source: Seq<char>, offset: nat, n: nat) -> nat
    decreases source.len() - n,
{
    if n >= source.len() || bytes_of(source, n) == offset {
        n
    } else {
        chars_before(source, offset, n + 1)
    }
}

/// The line of character `n`: the line feeds before it.
pub open spec fn line_of(source: Seq<char>, n: nat) -> nat
    decreases n,
{
    if n == 0 || n > source.len() {
        0
    } else if source[n - 1] == '\n' {
        line_of(source, (n - 1) as nat) + 1
    } else {
        line_of(source, (n - 1) as nat)
    }
}

/// The column of character `n`: the characters since the last line feed.
pub open spec fn column_of(source: Seq<char>, n: nat) -> nat
    decreases n,
{
    if n == 0 || n > source.len() {
        0
    } else if source[n - 1] == '\n' {
        0
    } else {
        column_of(source, (n - 1) as nat) + 1
    }
}

/// The line and the column, both from 0 and in characters, of the character
/// at the byte `offset`; of the end of the text where no character starts
/// there.
pub fn offset_to_line_col(source: &str, offset: usize) -> (r: (u32, u32))
    requires
        source@.len() <= u32::MAX,
    ensures
        r.0 == line_of(source@, chars_before(source@, offset as nat, 0)),
        r.1 == column_of(source@, chars_before(source@, offset as nat, 0)),
{
    let chars = chars_of(source);
    let mut line: u32 = 0;
    let mut col: u32 = 0;
    let mut current: usize = 0;
    let mut overflow = false;
    let mut n: usize = 0;
    while n < chars.len()
        invariant
            n <= chars.len(),
            chars@ == source@,
            chars.len() <= u32::MAX,
            line == line_of(source@, n as nat),
            col == column_of(source@, n as nat),
            line <= n,
            col <= n,
            !overflow ==> current == bytes_of(source@, n as nat),
            overflow ==> bytes_of(source@, n as nat) > usize::MAX,
            chars_before(source@, offset as nat, n as nat) == chars_before(source@, offset as nat, 0),
        decreases chars.len() - n,
    {
        if !overflow && current == offset {
            return (line, col);
        }
        let c = chars[n];
        if c == '\n' {
            line += 1;
            col = 0;
        } else {
            col += 1;
        }
        let w = width_of(c);
        if !overflow && current <= usize::MAX - w {
            current += w;
        } else {
            overflow = true;
        }
        n += 1;
    }
    (line, col)
}

/// A place in a document: a line and a character of it, both from 0.
#[derive(Debug, Clone, Copy, PartialEq, Eq, Hash, Structural)]
pub struct Position {
    pub line: u32,
    pub character: u32,
}

impl Position {
    pub fn new(line: u32, character: u32) -> (r: Self)
        ensures
            r == (Position { line, character }),
    {
        Position { line, character }
    }
}

/// A stretch of a document, from `start` up to `end`.
#[derive(Debug, Clone, Copy, PartialEq, Eq, Hash, Structural)]
pub struct Range {
    pub start: Position,
    pub end: Position,
}

/// The pieces of a text between its line feeds, from `start` on, `i` being
/// how far the current piece has been read. A text without a line feed is
/// one piece.
pub open spec fn pieces_from(text: Seq<char>, start: nat, i: nat) -> Seq<Seq<char>>
    decreases text.len() - i,
{
    if i >= text.len() {
        seq![text.subrange(start as int, text.len() as int)]
    } else if text[i as int] == '\n' {
        seq![text.subrange(start as int, i as int)] + pieces_from(text, i + 1, i + 1)
    } else {
        pieces_from(text, start, i + 1)
    }
}

/// The pieces of a text between its line feeds.
pub open spec fn pieces(text: Seq<char>) -> Seq<Seq<char>> {
    pieces_from(text, 0, 0)
}

/// Lines written one after the other, a line feed between them.
pub open spec fn stacked(lines: Seq<Seq<char>>) -> Seq<char>
    decreases lines.len(),
{
    if lines.len() == 0 {
        Seq::empty()
    } else if lines.len() == 1 {
        lines[0]
    } else {
        stacked(lines.drop_last()) + seq!['\n'] + lines.last()
    }
}

/// The first `n` characters of a line, or all of it.
pub open spec fn left_of(line: Seq<char>, n: nat) -> Seq<char> {
    if n < line.len() {
        line.subrange(0, n as int)
    } else {
        line
    }
}

/// A line without its first `n` characters.
pub open spec fn right_of(line: Seq<char>, n: nat) -> Seq<char> {
    if n < line.len() {
        line.subrange(n as int, line.len() as int)
    } else {
        Seq::empty()
    }
}

/// What stands on the first line of a range before the range begins.
pub open spec fn kept_left(lines: Seq<Seq<char>>, range: Range) -> Seq<char> {
    if range.start.line < lines.len() {
        left_of(lines[range.start.line as int], range.start.character as nat)
    } else {
        Seq::empty()
    }
}

/// What stands on the last line of a range after the range ends.
pub open spec fn kept_right(lines: Seq<Seq<char>>, range: Range) -> Seq<char> {
    if range.end.line < lines.len() {
        right_of(lines[range.end.line as int], range.end.character as nat)
    } else {
        Seq::empty()
    }
}

/// The lines before a range, each with its line feed.
pub open spec fn kept_above(lines: Seq<Seq<char>>, range: Range) -> Seq<char> {
    if range.start.line > 0 {
        stacked(lines.subrange(0, range.start.line as int)) + seq!['\n']
    } else {
        Seq::empty()
    }
}

/// The lines after a range, each after a line feed.
pub open spec fn kept_below(lines: Seq<Seq<char>>, range: Range) -> Seq<char> {
    if range.end.line + 1 < lines.len() {
        seq!['\n'] + stacked(lines.subrange(range.end.line + 1, lines.len() as int))
    } else {
        Seq::empty()
    }
}

/// A text with the range replaced by `new_text`: what stood before the
/// range, the new text, and what stood after the range.
pub open spec fn changed(text: Seq<char>, range: Range, new_text: Seq<char>) -> Seq<char> {
    let lines = pieces(text);
    kept_above(lines, range) + kept_left(lines, range) + new_text + kept_right(lines, range)
        + kept_below(lines, range)
}

/// The line on which a change begins, once it is made: what stood before
/// the range, the first line of the new text, and, where the new text is a
/// single line, what stood after the range.
pub open spec fn changed_line(text: Seq<char>, range: Range, new_text: Seq<char>) -> Seq<char> {
    let lines = pieces(text);
    let parts = pieces(new_text);
    if parts.len() == 1 {
        kept_left(lines, range) + parts[0] + kept_right(lines, range)
    } else {
        kept_left(lines, range) + parts[0]
    }
}

/// The texts of a list of lines.
pub open spec fn line_texts(lines: Seq<Vec<char>>) -> Seq<Seq<char>> {
    lines.map_values(|l: Vec<char>| l@)
}

/// The pieces of a text between its line feeds.
pub fn split_at_line_feeds(text: &Vec<char>) -> (lines: Vec<Vec<char>>)
    ensures
        line_texts(lines@) == pieces(text@),
        lines.len() >= 1,
{
    let mut lines: Vec<Vec<char>> = Vec::new();
    let mut start: usize = 0;
    let mut i: usize = 0;
    assert(line_texts(lines@) + pieces_from(text@, 0, 0) =~= pieces(text@));
    while i < text.len()
        invariant
            start <= i <= text.len(),
            line_texts(lines@) + pieces_from(text@, start as nat, i as nat) == pieces(text@),
        decreases text.len() - i,
    {
        if text[i] == '\n' {
            let line = copy_of(text, start, i);
            let ghost before = line_texts(lines@);
            lines.push(line);
            assert(line_texts(lines@) =~= before.push(line@));
            assert(before.push(line@) + pieces_from(text@, (i + 1) as nat, (i + 1) as nat) =~= before
                + pieces_from(text@, start as nat, i as nat));
            start = i + 1;
        }
        i += 1;
    }
    let line = copy_of(text, start, text.len());
    let ghost before = line_texts(lines@);
    lines.push(line);
    assert(line_texts(lines@) =~= before.push(line@));
    assert(before.push(line@) =~= before + pieces_from(text@, start as nat, i as nat));
    lines
}

/// The characters `chars[from..to]` as a vector of their own.
fn copy_of(chars: &Vec<char>, from: usize, to: usize) -> (r: Vec<char>)
    requires
        from <= to <= chars.len(),
    ensures
        r@ == chars@.subrange(from as int, to as int),
{
    let mut r: Vec<char> = Vec::new();
    let mut i: usize = from;
    while i < to
        invariant
            from <= i <= to <= chars.len(),
            r@ == chars@.subrange(from as int, i as int),
        decreases to - i,
    {
        r.push(chars[i]);
        i += 1;
        assert(r@ =~= chars@.subrange(from as int, i as int));
    }
    r
}

/// Adds `chars[from..to]` to a text.
fn append_chars(out: &mut Vec<char>, chars: &Vec<char>, from: usize, to: usize)
    requires
        from <= to <= chars.len(),
    ensures
        final(out)@ == old(out)@ + chars@.subrange(from as int, to as int),
{
    let ghost before = out@;
    let mut i: usize = from;
    assert(out@ =~= before + chars@.subrange(from as int, i as int));
    while i < to
        invariant
            from <= i <= to <= chars.len(),
            out@ == before + chars@.subrange(from as int, i as int),
        decreases to - i,
    {
        out.push(chars[i]);
        i += 1;
        assert(out@ =~= before + chars@.subrange(from as int, i as int));
    }
}

/// Adds the lines `lines[from..to]` to a text, a line feed between them.
fn add_stacked(out: &mut Vec<char>, lines: &Vec<Vec<char>>, from: usize, to: usize)
    requires
        from <= to <= lines.len(),
    ensures
        final(out)@ == old(out)@ + stacked(line_texts(lines@).subrange(from as int, to as int)),
{
    let ghost before = out@;
    let ghost all = line_texts(lines@);
    let mut i: usize = from;
    assert(all.subrange(from as int, from as int) =~= Seq::empty());
    assert(out@ =~= before + stacked(all.subrange(from as int, i as int)));
    while i < to
        invariant
            from <= i <= to <= lines.len(),
            all == line_texts(lines@),
            out@ == before + stacked(all.subrange(from as int, i as int)),
        decreases to - i,
    {
        let ghost was = all.subrange(from as int, i as int);
        let ghost now = all.subrange(from as int, i + 1);
        assert(now.drop_last() =~= was);
        assert(now.last() == lines[i as int]@);
        if i > from {
            out.push('\n');
        }
        append_chars(out, &lines[i], 0, lines[i].len());
        assert(lines[i as int]@.subrange(0, lines[i as int]@.len() as int) =~= lines[i as int]@);
        i += 1;
        assert(out@ =~= before + stacked(now)) by {
            if i - 1 > from {
                assert(stacked(now) == stacked(was) + seq!['\n'] + now.last());
            } else {
                assert(was.len() == 0);
                assert(stacked(now) == now.last());
            }
        }
    }
}

/// Replaces a range of a text by a new text. Characters are counted, not
/// bytes, and a place past the end of its line is the end of that line.
/// Yields the line on which the change begins, and that line as it is
/// after the change.
pub fn incremental_change(text: &mut String, range: &Range, new_text: &str) -> (r: (usize, String))
    requires
        range.start.line <= pieces(old(text)@).len(),
    ensures
        final(text)@ == changed(old(text)@, *range, new_text@),
        r.0 == range.start.line,
        r.1@ == changed_line(old(text)@, *range, new_text@),
{
    let chars = chars_of(text.as_str());
    let lines = split_at_line_feeds(&chars);
    let fresh = chars_of(new_text);
    let parts = split_at_line_feeds(&fresh);
    let ghost all = line_texts(lines@);
    let start_line = range.start.line as usize;
    let end_line = range.end.line as usize;
    let start_character = range.start.character as usize;
    let end_character = range.end.character as usize;

    // the line of the start, up to the start
    let mut new_start_line: Vec<char> = Vec::new();
    if start_line < lines.len() {
        let line = &lines[start_line];
        let n = if start_character < line.len() {
            start_character
        } else {
            line.len()
        };
        append_chars(&mut new_start_line, line, 0, n);
        assert(line@.subrange(0, line@.len() as int) =~= line@);
    }
    assert(new_start_line@ =~= kept_left(all, *range));

    // the line of the end, from the end on
    let mut right: Vec<char> = Vec::new();
    if end_line < lines.len() {
        let line = &lines[end_line];
        if end_character < line.len() {
            append_chars(&mut right, line, end_character, line.len());
        }
    }
    assert(right@ =~= kept_right(all, *range));

    let mut result: Vec<char> = Vec::new();
    if start_line > 0 {
        add_stacked(&mut result, &lines, 0, start_line);
        result.push('\n');
    }
    assert(result@ =~= kept_above(all, *range));
    append_chars(&mut result, &new_start_line, 0, new_start_line.len());
    assert(new_start_line@.subrange(0, new_start_line@.len() as int) =~= new_start_line@);
    append_chars(&mut result, &fresh, 0, fresh.len());
    assert(fresh@.subrange(0, fresh@.len() as int) =~= fresh@);
    append_chars(&mut result, &right, 0, right.len());
    assert(right@.subrange(0, right@.len() as int) =~= right@);
    if end_line < lines.len() && end_line + 1 < lines.len() {
        result.push('\n');
        add_stacked(&mut result, &lines, end_line + 1, lines.len());
    }
    assert(result@ =~= changed(text@, *range, new_text@));

    let first = &parts[0];
    append_chars(&mut new_start_line, first, 0, first.len());
    assert(first@.subrange(0, first@.len() as int) =~= first@);
    if parts.len() == 1 {
        append_chars(&mut new_start_line, &right, 0, right.len());
    }
    assert(line_texts(parts@)[0] == first@);
    assert(new_start_line@ =~= changed_line(text@, *range, new_text@));

    *text = string_of(&result, 0, result.len());
    assert(result@.subrange(0, result@.len() as int) =~= result@);
    let line = string_of(&new_start_line, 0, new_start_line.len());
    assert(new_start_line@.subrange(0, new_start_line@.len() as int) =~= new_start_line@);
    (start_line, line)
}

/// Line `line` of a text; the empty line where the text has no such line.
pub open spec fn line_at(source: Seq<char>, line: nat) -> Seq<char> {
    if line < lines_of(source).len() {
        lines_of(source)[line as int]
    } else {
        Seq::empty()
    }
}

/// A number as a `u32`; one that does not fit is held at the greatest.
pub open spec fn clipped(n: int) -> u32 {
    if n > u32::MAX {
        u32::MAX
    } else {
        n as u32
    }
}

/// A number as a `u32`; one that does not fit is held at the greatest.
pub fn clip(n: usize) -> (r: u32)
    ensures
        r == clipped(n as int),
{
    if n > 0xFFFF_FFFF {
        u32::MAX
    } else {
        n as u32
    }
}

/// The place that a rejection is reported at: line 0, character 0 where it
/// names none.
pub open spec fn reported_at(error: ParseErrorView) -> (usize, usize) {
    match error.position {
        Some(place) => place,
        None => (0, 0),
    }
}

/// What a rejection marks in a text: from the place it is reported at to
/// the end of a word that begins there, as long as the word of the line
/// around that place; one character where there is no word.
pub open spec fn marked(source: Seq<char>, error: ParseErrorView) -> Range {
    let (line, col) = reported_at(error);
    let length = match word_length_at(line_at(source, line as nat), col as nat) {
        Some(n) => n,
        None => 1,
    };
    Range {
        start: Position { line: clipped(line as int), character: clipped(col as int) },
        end: Position { line: clipped(line as int), character: clipped(col + length) },
    }
}

/// What a rejection marks in a text.
pub fn error_range(source: &str, error: &ParseError) -> (r: Range)
    ensures
        r == marked(source@, error@),
{
    let (line, col) = match error.position {
        Some(place) => place,
        None => (0, 0),
    };
    let chars = chars_of(source);
    let lines = split_lines(&chars);
    let length = if line < lines.len() {
        assert(texts(lines@)[line as int] == lines[line as int]@);
        word_length_in(&lines[line], col)
    } else {
        Some(1)
    };
    let n = match length {
        Some(n) => n,
        None => 1,
    };
    let end = if n > usize::MAX - col {
        usize::MAX
    } else {
        col + n
    };
    Range {
        start: Position { line: clip(line), character: clip(col) },
        end: Position { line: clip(line), character: clip(end) },
    }
}

} // verus!
