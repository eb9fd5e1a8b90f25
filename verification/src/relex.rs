//! Tokens survive being joined and tokenized again.
//!
//! The atoms of a line, written one after the other with a single space
//! between them, are a line with the same atoms: what separated them, and
//! how much of it, does not matter. Two kinds of lines are left out: those
//! in which a quote is left open, and those whose first atom begins with
//! `*`, which joined would be a comment.

use crate::ast::AtomView;
use crate::lexer::{
    before_comment, comment_start, inside_number, is_blank, is_comment, is_continuation,
    is_long_operator, is_special, lemma_lex_filled, lemma_lex_has_no_continuation, lex, lex_line,
    lexed, lines_from, lines_of, merged, no_continuation_left, pending, scan, spans_of, step,
    strip_cr, text_start, Scan, Span,
};
use crate::text::{is_digit, is_white_space};
use vstd::prelude::*;

verus! {

/// The texts of a line of atoms.
pub open spec fn raws(atoms: Seq<AtomView>) -> Seq<Seq<char>> {
    atoms.map_values(|a: AtomView| a.raw)
}

/// Texts written one after the other, a single space between them.
pub open spec fn joined(ts: Seq<Seq<char>>) -> Seq<char>
    decreases ts.len(),
{
    if ts.len() == 0 {
        Seq::empty()
    } else if ts.len() == 1 {
        ts[0]
    } else {
        ts[0] + seq![' '] + joined(ts.drop_first())
    }
}

/// Where the texts stand once joined, the first of them at `at`.
pub open spec fn placed(ts: Seq<Seq<char>>, at: nat) -> Seq<Span>
    decreases ts.len(),
{
    if ts.len() == 0 {
        Seq::empty()
    } else {
        seq![(at, at + ts[0].len())] + placed(ts.drop_first(), at + ts[0].len() + 1)
    }
}

/// Whether a quote is open at the end of a line, given whether one is open
/// before character `j`.
pub open spec fn open_at_end(line: Seq<char>, j: nat, open: bool) -> bool
    decreases line.len() - j,
{
    if j >= line.len() {
        open
    } else if line[j as int] == '"' {
        open_at_end(line, j + 1, !open)
    } else {
        open_at_end(line, j + 1, open)
    }
}

/// Whether a line, up to its comment, leaves a quote open.
pub open spec fn leaves_quote_open(line: Seq<char>) -> bool {
    open_at_end(before_comment(line), 0, false)
}

/// A word: it begins with a character that neither separates nor stands
/// alone, and goes on with such characters and with the signs of numbers in
/// scientific notation.
pub open spec fn is_word(w: Seq<char>) -> bool {
    &&& w.len() > 0
    &&& !is_blank(w[0]) && !is_special(w[0]) && w[0] != '"' && w[0] != ';'
    &&& forall|k: int|
        1 <= k < w.len() ==> !is_blank(#[trigger] w[k]) && w[k] != '"' && w[k] != ';' && (
        is_special(w[k]) ==> inside_number(w, 0, k as nat))
}

/// An operator: a special character, or two that make a long operator.
pub open spec fn is_operator(w: Seq<char>) -> bool {
    (w.len() == 1 && is_special(w[0])) || (w.len() == 2 && is_long_operator(w[0], w[1]))
}

/// A quoted string: from a quote to the next one.
pub open spec fn is_quoted_string(w: Seq<char>) -> bool {
    &&& w.len() >= 2
    &&& w[0] == '"'
    &&& w[w.len() - 1] == '"'
    &&& forall|k: int| 1 <= k < w.len() - 1 ==> #[trigger] w[k] != '"' && w[k] != ';'
}

/// What the scan of a line yields: words, operators and quoted strings.
pub open spec fn is_token(w: Seq<char>) -> bool {
    is_word(w) || is_operator(w) || is_quoted_string(w)
}

/// The state of a scan that begins at `at`.
pub open spec fn fresh(at: nat) -> Scan {
    Scan { start: at, quoted: false, skip: false }
}

/// What the scan keeps true of its state before character `j`: the run
/// since `start` is the beginning of a word, or of a quoted string.
pub open spec fn run_ok(x: Seq<char>, s: Scan, j: nat) -> bool {
    if s.skip {
        !s.quoted && s.start == j + 1 && j < x.len() && x[j as int] != '"'
    } else if s.quoted {
        &&& 1 <= s.start <= j
        &&& x[s.start - 1] == '"'
        &&& forall|k: int| s.start <= k < j ==> #[trigger] x[k] != '"'
    } else {
        &&& s.start <= j
        &&& s.start < j ==> !is_blank(x[s.start as int]) && !is_special(x[s.start as int])
            && x[s.start as int] != '"'
        &&& forall|k: int|
            s.start < k < j ==> !is_blank(#[trigger] x[k]) && x[k] != '"' && (is_special(x[k])
                ==> inside_number(x, s.start, k as nat))
    }
}

/// A span of `x` that holds a token.
pub open spec fn token_span(x: Seq<char>, span: Span) -> bool {
    span.0 <= span.1 <= x.len() && is_token(x.subrange(span.0 as int, span.1 as int))
}

/// The pending run of a scan that is not within quotes is a word.
proof fn lemma_pending_is_word(x: Seq<char>, s: Scan, j: nat)
    requires
        j <= x.len(),
        !s.skip,
        !s.quoted,
        run_ok(x, s, j),
        s.start < j,
        forall|k: int| 0 <= k < x.len() ==> #[trigger] x[k] != ';',
        j == x.len() || !is_digit(x[j as int]),
    ensures
        is_word(x.subrange(s.start as int, j as int)),
{
    let w = x.subrange(s.start as int, j as int);
    assert(w[0] == x[s.start as int]);
    assert forall|k: int| 1 <= k < w.len() implies !is_blank(#[trigger] w[k]) && w[k] != '"'
        && w[k] != ';' && (is_special(w[k]) ==> inside_number(w, 0, k as nat)) by {
        let i = s.start + k;
        assert(w[k] == x[i]);
        if is_special(w[k]) {
            assert(inside_number(x, s.start, i as nat));
            assert(i + 1 < j);
            assert(w[k - 1] == x[i - 1]);
            assert(w[k + 1] == x[i + 1]);
        }
    }
}

/// Every span that a scan completes holds a token, if the line holds no
/// `;` and leaves no quote open.
pub proof fn lemma_scan_yields_tokens(x: Seq<char>, j: nat, s: Scan)
    requires
        j <= x.len(),
        run_ok(x, s, j),
        !open_at_end(x, j, s.quoted),
        forall|k: int| 0 <= k < x.len() ==> #[trigger] x[k] != ';',
    ensures
        forall|i: int| 0 <= i < scan(x, j, s).len() ==> token_span(x, #[trigger] scan(x, j, s)[i]),
    decreases x.len() - j,
{
    if j >= x.len() {
        if s.start < x.len() {
            lemma_pending_is_word(x, s, j);
        }
    } else {
        let (next, out) = step(x, j, s);
        let c = x[j as int];
        assert(run_ok(x, next, j + 1) && !open_at_end(x, j + 1, next.quoted) && (forall|i: int|
            0 <= i < out.len() ==> token_span(x, #[trigger] out[i]))) by {
            if s.skip {
            } else if c == '"' {
                if s.quoted {
                    let w = x.subrange(s.start - 1, (j + 1) as int);
                    assert(w[0] == x[s.start - 1]);
                    assert(w[w.len() - 1] == x[j as int]);
                    assert forall|k: int| 1 <= k < w.len() - 1 implies #[trigger] w[k] != '"'
                        && w[k] != ';' by {
                        assert(w[k] == x[s.start - 1 + k]);
                    }
                    assert(is_quoted_string(w));
                }
            } else if s.quoted {
            } else if is_blank(c) || is_special(c) {
                if inside_number(x, s.start, j) {
                } else {
                    if s.start < j {
                        lemma_pending_is_word(x, s, j);
                    }
                    if is_special(c) {
                        if j + 1 < x.len() && is_long_operator(c, x[(j + 1) as int]) {
                            let w = x.subrange(j as int, (j + 2) as int);
                            assert(w[0] == c && w[1] == x[(j + 1) as int]);
                            assert(is_operator(w));
                        } else {
                            let w = x.subrange(j as int, (j + 1) as int);
                            assert(w[0] == c);
                            assert(is_operator(w));
                        }
                    }
                }
            } else {
            }
        }
        lemma_scan_yields_tokens(x, j + 1, next);
        let rest = scan(x, j + 1, next);
        assert forall|i: int| 0 <= i < scan(x, j, s).len() implies token_span(
            x,
            #[trigger] scan(x, j, s)[i],
        ) by {
            if i < out.len() {
                assert(scan(x, j, s)[i] == out[i]);
            } else {
                assert(scan(x, j, s)[i] == rest[i - out.len()]);
            }
        }
    }
}

/// The scan leaves its state as it is through the characters of a word.
proof fn lemma_scan_through_word(x: Seq<char>, at: nat, n: nat, k: nat)
    requires
        at + n <= x.len(),
        is_word(x.subrange(at as int, (at + n) as int)),
        k <= n,
    ensures
        scan(x, at, fresh(at)) == scan(x, at + k, fresh(at)),
    decreases k,
{
    if k > 0 {
        lemma_scan_through_word(x, at, n, (k - 1) as nat);
        let w = x.subrange(at as int, (at + n) as int);
        let j = (at + k - 1) as nat;
        let c = x[j as int];
        assert(w[k - 1] == c);
        if k - 1 >= 1 && is_special(c) {
            assert(inside_number(w, 0, (k - 1) as nat));
            assert(w[0] == x[at as int]);
            assert(w[k - 2] == x[j - 1]);
            assert(w[k as int] == x[(j + 1) as int]);
            assert(inside_number(x, at, j));
        }
        assert(step(x, j, fresh(at)) == (fresh(at), Seq::<Span>::empty()));
        assert(Seq::<Span>::empty() + scan(x, j + 1, fresh(at)) =~= scan(x, j + 1, fresh(at)));
    }
}

/// What follows a token in a line of joined tokens: the end of the line, or
/// a space and the scan of the rest.
pub open spec fn after_token(x: Seq<char>, end: nat) -> Seq<Span> {
    if end >= x.len() {
        Seq::empty()
    } else {
        scan(x, end + 1, fresh(end + 1))
    }
}

/// The scan of a token that a space or the end of the line follows: the
/// token, then the scan of what follows the space.
proof fn lemma_scan_token(x: Seq<char>, at: nat, n: nat)
    requires
        at + n <= x.len(),
        is_token(x.subrange(at as int, (at + n) as int)),
        at + n == x.len() || x[(at + n) as int] == ' ',
    ensures
        scan(x, at, fresh(at)) == seq![(at, at + n)] + after_token(x, at + n),
{
    let w = x.subrange(at as int, (at + n) as int);
    let end = (at + n) as nat;
    let tail = after_token(x, end);
    assert(w[0] == x[at as int]);
    if is_word(w) {
        lemma_scan_through_word(x, at, n, n);
        if end < x.len() {
            assert(step(x, end, fresh(at)) == (fresh(end + 1), pending(at, end)));
        }
        assert(scan(x, end, fresh(at)) =~= seq![(at, end)] + tail);
    } else if is_operator(w) {
        if n == 1 {
            assert(step(x, at, fresh(at)) == (fresh(at + 1), seq![(at, end)])) by {
                assert(pending(at, at).push((at, (at + 1) as nat)) =~= seq![(at, end)]);
            }
            if end < x.len() {
                assert(step(x, end, fresh(end)) == (fresh(end + 1), Seq::<Span>::empty()));
                assert(scan(x, end, fresh(end)) =~= tail);
            } else {
                assert(scan(x, end, fresh(end)) =~= tail);
            }
        } else {
            assert(w[1] == x[(at + 1) as int]);
            let skipping = Scan { start: end, quoted: false, skip: true };
            assert(step(x, at, fresh(at)) == (skipping, seq![(at, end)])) by {
                assert(pending(at, at).push((at, (at + 2) as nat)) =~= seq![(at, end)]);
            }
            assert(step(x, at + 1, skipping) == (fresh(end), Seq::<Span>::empty()));
            assert(scan(x, at + 1, skipping) =~= scan(x, end, fresh(end)));
            if end < x.len() {
                assert(step(x, end, fresh(end)) == (fresh(end + 1), Seq::<Span>::empty()));
                assert(scan(x, end, fresh(end)) =~= tail);
            } else {
                assert(scan(x, end, fresh(end)) =~= tail);
            }
        }
    } else {
        let inside = Scan { start: at + 1, quoted: true, skip: false };
        assert(step(x, at, fresh(at)) == (inside, Seq::<Span>::empty()));
        assert(scan(x, at, fresh(at)) =~= scan(x, at + 1, inside));
        lemma_scan_within_quotes(x, at, n, (n - 1) as nat);
        let close = (end - 1) as nat;
        assert(w[n - 1] == x[close as int]);
        assert(step(x, close, inside) == (fresh(end), seq![(at, end)]));
        if end < x.len() {
            assert(step(x, end, fresh(end)) == (fresh(end + 1), Seq::<Span>::empty()));
            assert(scan(x, end, fresh(end)) =~= tail);
        } else {
            assert(scan(x, end, fresh(end)) =~= tail);
        }
    }
}

/// The scan leaves its state as it is through what stands within quotes.
proof fn lemma_scan_within_quotes(x: Seq<char>, at: nat, n: nat, k: nat)
    requires
        at + n <= x.len(),
        is_quoted_string(x.subrange(at as int, (at + n) as int)),
        1 <= k <= n - 1,
    ensures
        scan(x, at + 1, Scan { start: at + 1, quoted: true, skip: false }) == scan(
            x,
            at + k,
            Scan { start: at + 1, quoted: true, skip: false },
        ),
    decreases k,
{
    if k > 1 {
        lemma_scan_within_quotes(x, at, n, (k - 1) as nat);
        let inside = Scan { start: at + 1, quoted: true, skip: false };
        let w = x.subrange(at as int, (at + n) as int);
        let j = (at + k - 1) as nat;
        assert(w[k - 1] == x[j as int]);
        assert(step(x, j, inside) == (inside, Seq::<Span>::empty()));
        assert(Seq::<Span>::empty() + scan(x, j + 1, inside) =~= scan(x, j + 1, inside));
    }
}

/// The scan of joined tokens yields the tokens where they stand.
pub proof fn lemma_scan_joined(x: Seq<char>, at: nat, ts: Seq<Seq<char>>)
    requires
        at <= x.len(),
        x.subrange(at as int, x.len() as int) == joined(ts),
        forall|i: int| 0 <= i < ts.len() ==> is_token(#[trigger] ts[i]),
    ensures
        scan(x, at, fresh(at)) == placed(ts, at),
        placed(ts, at).len() == ts.len(),
        forall|i: int|
            0 <= i < ts.len() ==> (#[trigger] placed(ts, at)[i]).1 <= x.len() && x.subrange(
                placed(ts, at)[i].0 as int,
                placed(ts, at)[i].1 as int,
            ) == ts[i],
    decreases ts.len(),
{
    let tail = x.subrange(at as int, x.len() as int);
    if ts.len() == 0 {
        assert(tail.len() == 0);
    } else {
        let t = ts[0];
        let n = t.len();
        let rest = ts.drop_first();
        assert(is_token(t));
        assert(n > 0);
        if ts.len() == 1 {
            assert(tail == t);
            assert(at + n == x.len());
            assert(x.subrange(at as int, (at + n) as int) =~= t);
            lemma_scan_token(x, at, n);
            assert(placed(rest, at + n + 1) =~= Seq::<Span>::empty());
            assert(placed(ts, at) =~= seq![(at, at + n)]);
        } else {
            let more = joined(rest);
            assert(tail == t + seq![' '] + more);
            assert(tail.len() == n + 1 + more.len());
            assert(x.subrange(at as int, (at + n) as int) =~= t) by {
                assert forall|k: int| 0 <= k < n implies x[at + k] == t[k] by {
                    assert(tail[k] == x[at + k]);
                }
            }
            assert(x[(at + n) as int] == ' ') by {
                assert(tail[n as int] == x[(at + n) as int]);
            }
            assert(x.subrange((at + n + 1) as int, x.len() as int) =~= more) by {
                assert forall|k: int| 0 <= k < more.len() implies x[at + n + 1 + k] == more[k] by {
                    assert(tail[n + 1 + k] == x[at + n + 1 + k]);
                }
            }
            lemma_scan_token(x, at, n);
            assert forall|i: int| 0 <= i < rest.len() implies is_token(#[trigger] rest[i]) by {
                assert(rest[i] == ts[i + 1]);
            }
            lemma_scan_joined(x, (at + n + 1) as nat, rest);
            let there = placed(rest, at + n + 1);
            assert(placed(ts, at) == seq![(at, at + n)] + there);
            assert forall|i: int| 0 <= i < ts.len() implies (#[trigger] placed(ts, at)[i]).1
                <= x.len() && x.subrange(placed(ts, at)[i].0 as int, placed(ts, at)[i].1 as int)
                == ts[i] by {
                if i > 0 {
                    assert(placed(ts, at)[i] == there[i - 1]);
                    assert(rest[i - 1] == ts[i]);
                }
            }
        }
    }
}

/// Joined tokens hold no `;`.
proof fn lemma_joined_has_no_comment(ts: Seq<Seq<char>>)
    requires
        forall|i: int| 0 <= i < ts.len() ==> is_token(#[trigger] ts[i]),
    ensures
        forall|k: int| 0 <= k < joined(ts).len() ==> #[trigger] joined(ts)[k] != ';',
    decreases ts.len(),
{
    if ts.len() > 0 {
        let t = ts[0];
        assert(is_token(t));
        assert forall|k: int| 0 <= k < t.len() implies #[trigger] t[k] != ';' by {
            if is_quoted_string(t) && (k == 0 || k == t.len() - 1) {
            }
        }
        if ts.len() > 1 {
            let rest = ts.drop_first();
            assert forall|i: int| 0 <= i < rest.len() implies is_token(#[trigger] rest[i]) by {
                assert(rest[i] == ts[i + 1]);
            }
            lemma_joined_has_no_comment(rest);
            let more = joined(rest);
            let all = joined(ts);
            assert(all == t + seq![' '] + more);
            assert forall|k: int| 0 <= k < all.len() implies #[trigger] all[k] != ';' by {
                if k < t.len() {
                    assert(all[k] == t[k]);
                } else if k == t.len() {
                    assert(all[k] == ' ');
                } else {
                    assert(all[k] == more[k - t.len() - 1]);
                }
            }
        }
    }
}

/// A line without `;` has no comment.
proof fn lemma_no_comment(x: Seq<char>, i: nat)
    requires
        forall|k: int| 0 <= k < x.len() ==> #[trigger] x[k] != ';',
    ensures
        comment_start(x, i) == x.len(),
    decreases x.len() - i,
{
    if i < x.len() {
        lemma_no_comment(x, i + 1);
    }
}

/// What stands before the comment of a line holds no `;`.
proof fn lemma_before_comment_is_clean(line: Seq<char>, i: nat)
    requires
        i <= line.len(),
    ensures
        i <= comment_start(line, i) <= line.len(),
        forall|k: int| i <= k < comment_start(line, i) ==> #[trigger] line[k] != ';',
    decreases line.len() - i,
{
    if i < line.len() && line[i as int] != ';' {
        lemma_before_comment_is_clean(line, i + 1);
    }
}

/// Tokens joined by single spaces are tokenized into atoms of these
/// texts, if the first of them does not begin with `*`.
pub proof fn lemma_joined_tokens(ts: Seq<Seq<char>>, number: usize)
    requires
        forall|i: int| 0 <= i < ts.len() ==> is_token(#[trigger] ts[i]),
        ts.len() > 0 ==> ts[0][0] != '*',
    ensures
        raws(lex_line(joined(ts), number)) == ts,
{
    let x = joined(ts);
    lemma_joined_has_no_comment(ts);
    lemma_no_comment(x, 0);
    assert(before_comment(x) =~= x);
    if ts.len() == 0 {
        assert(x.len() == 0);
        assert(!is_comment(x));
        assert(scan(x, 0, fresh(0)) =~= Seq::<Span>::empty());
        assert(raws(lex_line(x, number)) =~= ts);
    } else {
        assert(is_token(ts[0]));
        assert(x[0] == ts[0][0]) by {
            if ts.len() > 1 {
                assert(x == ts[0] + seq![' '] + joined(ts.drop_first()));
            }
        }
        assert(!is_white_space(x[0]));
        assert(text_start(x, 0) == 0);
        assert(!is_comment(x));
        assert(x.subrange(0, x.len() as int) =~= x);
        lemma_scan_joined(x, 0, ts);
        let there = placed(ts, 0);
        assert(spans_of(x) == there);
        assert(raws(lex_line(x, number)) =~= ts) by {
            assert forall|i: int| 0 <= i < ts.len() implies raws(lex_line(x, number))[i]
                == ts[i] by {
                assert(lex_line(x, number)[i].raw == x.subrange(
                    there[i].0 as int,
                    there[i].1 as int,
                ));
            }
        }
    }
}

/// The atoms of a line that leaves no quote open are tokens.
pub proof fn lemma_atoms_are_tokens(line: Seq<char>, number: usize)
    requires
        !leaves_quote_open(line),
    ensures
        forall|i: int|
            0 <= i < lex_line(line, number).len() ==> is_token(
                #[trigger] raws(lex_line(line, number))[i],
            ),
{
    let body = before_comment(line);
    let spans = spans_of(line);
    let ts = raws(lex_line(line, number));
    lemma_before_comment_is_clean(line, 0);
    assert forall|k: int| 0 <= k < body.len() implies #[trigger] body[k] != ';' by {
        assert(body[k] == line[k]);
    }
    assert(ts.len() == spans.len());
    assert forall|i: int| 0 <= i < ts.len() implies is_token(#[trigger] ts[i]) by {
        assert(!is_comment(line));
        lemma_scan_yields_tokens(body, 0, fresh(0));
        assert(token_span(body, spans[i]));
        assert(ts[i] == body.subrange(spans[i].0 as int, spans[i].1 as int));
    }
}

/// The round trip: the atoms of a line, joined by single spaces, are
/// tokenized into atoms of the same texts. This holds of every line that
/// leaves no quote open and whose first atom does not begin with `*`.
pub proof fn lemma_tokens_round_trip(line: Seq<char>, number: usize, again: usize)
    requires
        !leaves_quote_open(line),
        lex_line(line, number).len() > 0 ==> lex_line(line, number)[0].raw[0] != '*',
    ensures
        raws(lex_line(joined(raws(lex_line(line, number))), again)) == raws(
            lex_line(line, number),
        ),
{
    lemma_atoms_are_tokens(line, number);
    lemma_joined_tokens(raws(lex_line(line, number)), again);
}

/// Whether a text holds no line feed.
pub open spec fn is_one_line(text: Seq<char>) -> bool {
    forall|i: int| 0 <= i < text.len() ==> #[trigger] text[i] != '\n'
}

/// A text without a line feed is read as one line, from wherever the
/// reading stands.
proof fn lemma_lines_of_one_line(code: Seq<char>, start: nat, i: nat)
    requires
        is_one_line(code),
        start <= i,
    ensures
        lines_from(code, start, i) == if start < code.len() {
            seq![code.subrange(start as int, code.len() as int)]
        } else {
            Seq::<Seq<char>>::empty()
        },
    decreases code.len() - i,
{
    if i < code.len() {
        lemma_lines_of_one_line(code, start, i + 1);
    }
}

/// The logical lines of a text without a line feed: the atoms of the text
/// as line 0, or no line where it has no atom.
pub proof fn lemma_lex_of_one_line(text: Seq<char>)
    requires
        is_one_line(text),
    ensures
        lex(text) == if lex_line(text, 0).len() > 0 {
            seq![lex_line(text, 0)]
        } else {
            Seq::<Seq<AtomView>>::empty()
        },
{
    lemma_lines_of_one_line(text, 0, 0);
    let lines = lines_of(text);
    if text.len() > 0 {
        assert(text.subrange(0, text.len() as int) =~= text);
        assert(lines == seq![text]);
        assert(lexed(lines, 0) =~= Seq::<Seq<AtomView>>::empty());
        let atoms = lexed(lines, 1);
        if lex_line(text, 0).len() > 0 {
            assert(atoms =~= seq![lex_line(text, 0)]);
            assert(merged(atoms, 0) =~= Seq::<Seq<AtomView>>::empty());
            assert(merged(atoms, 1) =~= seq![lex_line(text, 0)]);
        } else {
            assert(atoms =~= Seq::<Seq<AtomView>>::empty());
            assert(merged(atoms, 0) =~= Seq::<Seq<AtomView>>::empty());
        }
    } else {
        assert(lines =~= Seq::<Seq<char>>::empty());
        assert(lexed(lines, 0) =~= Seq::<Seq<AtomView>>::empty());
        assert(merged(lexed(lines, 0), 0) =~= Seq::<Seq<AtomView>>::empty());
        assert(before_comment(text) =~= text);
        assert(scan(text, 0, fresh(0)) =~= Seq::<Span>::empty());
        assert(lex_line(text, 0) =~= Seq::<AtomView>::empty());
    }
}

/// Texts without a line feed, joined by single spaces, hold no line feed.
proof fn lemma_joined_is_one_line(ts: Seq<Seq<char>>)
    requires
        forall|k: int| 0 <= k < ts.len() ==> is_one_line(#[trigger] ts[k]),
    ensures
        is_one_line(joined(ts)),
    decreases ts.len(),
{
    if ts.len() == 1 {
        assert(is_one_line(ts[0]));
    } else if ts.len() > 1 {
        let rest = ts.drop_first();
        assert forall|k: int| 0 <= k < rest.len() implies is_one_line(#[trigger] rest[k]) by {
            assert(rest[k] == ts[k + 1]);
        }
        lemma_joined_is_one_line(rest);
        assert(is_one_line(ts[0]));
        let x = joined(ts);
        assert(x == ts[0] + seq![' '] + joined(rest));
        assert forall|i: int| 0 <= i < x.len() implies #[trigger] x[i] != '\n' by {
            if i < ts[0].len() {
                assert(x[i] == ts[0][i]);
            } else if i == ts[0].len() {
                assert(x[i] == ' ');
            } else {
                assert(x[i] == joined(rest)[i - ts[0].len() - 1]);
            }
        }
    }
}

/// The atoms of a text without a line feed hold no line feed.
proof fn lemma_atoms_are_one_line(line: Seq<char>, number: usize)
    requires
        is_one_line(line),
        !leaves_quote_open(line),
    ensures
        forall|k: int|
            0 <= k < lex_line(line, number).len() ==> is_one_line(
                #[trigger] raws(lex_line(line, number))[k],
            ),
{
    let body = before_comment(line);
    let spans = spans_of(line);
    let ts = raws(lex_line(line, number));
    lemma_before_comment_is_clean(line, 0);
    assert forall|k: int| 0 <= k < body.len() implies #[trigger] body[k] != ';' by {
        assert(body[k] == line[k]);
    }
    assert forall|k: int| 0 <= k < ts.len() implies is_one_line(#[trigger] ts[k]) by {
        assert(!is_comment(line));
        lemma_scan_yields_tokens(body, 0, fresh(0));
        assert(token_span(body, spans[k]));
        assert(ts[k] == body.subrange(spans[k].0 as int, spans[k].1 as int));
        assert forall|i: int| 0 <= i < ts[k].len() implies #[trigger] ts[k][i] != '\n' by {
            assert(ts[k][i] == body[spans[k].0 + i]);
            assert(body[spans[k].0 + i] == line[spans[k].0 + i]);
        }
    }
}

/// The round trip of a line of text: where a text without a line feed has
/// atoms, these atoms joined by single spaces are tokenized into one line
/// of atoms of the same texts, whatever white space and commas stood
/// between them. This holds of every text that leaves no quote open and
/// whose first atom does not begin with `*`.
pub proof fn lemma_line_round_trip(line: Seq<char>)
    requires
        is_one_line(line),
        !leaves_quote_open(line),
        lex(line).len() > 0,
        lex(line)[0][0].raw[0] != '*',
    ensures
        lex(joined(raws(lex(line)[0]))).len() == 1,
        raws(lex(joined(raws(lex(line)[0])))[0]) == raws(lex(line)[0]),
{
    lemma_lex_of_one_line(line);
    let atoms = lex_line(line, 0);
    assert(lex(line)[0] == atoms);
    let x = joined(raws(atoms));
    lemma_atoms_are_one_line(line, 0);
    lemma_joined_is_one_line(raws(atoms));
    lemma_lex_of_one_line(x);
    lemma_tokens_round_trip(line, 0, 0);
    assert(raws(lex_line(x, 0)).len() == raws(atoms).len());
}

/// The texts of the atoms of logical lines, line by line.
pub open spec fn line_raws(lines: Seq<Seq<AtomView>>) -> Seq<Seq<Seq<char>>> {
    lines.map_values(|l: Seq<AtomView>| raws(l))
}

/// Lines of text, each followed by a line feed but the last.
pub open spec fn stacked(lines: Seq<Seq<char>>) -> Seq<char>
    decreases lines.len(),
{
    if lines.len() == 0 {
        Seq::empty()
    } else if lines.len() == 1 {
        lines[0]
    } else {
        lines[0] + seq!['\n'] + stacked(lines.drop_first())
    }
}

/// The lines of a canonical text: the atoms of each logical line joined by
/// single spaces.
pub open spec fn spelt(lines: Seq<Seq<AtomView>>) -> Seq<Seq<char>> {
    lines.map_values(|l: Seq<AtomView>| joined(raws(l)))
}

/// The canonical text of logical lines: the atoms of each line joined by
/// single spaces, and the lines by line feeds.
pub open spec fn canonical(lines: Seq<Seq<AtomView>>) -> Seq<char> {
    stacked(spelt(lines))
}

/// Whether logical lines can be written down and read again: every line
/// has an atom, every atom is a token without a line feed, no line begins
/// with `*`, and none but the first with `+`.
pub open spec fn is_writable(lines: Seq<Seq<AtomView>>) -> bool {
    &&& forall|i: int| 0 <= i < lines.len() ==> (#[trigger] lines[i]).len() > 0
    &&& forall|i: int, k: int|
        0 <= i < lines.len() && 0 <= k < lines[i].len() ==> is_token(
            (#[trigger] lines[i][k]).raw,
        ) && is_one_line(lines[i][k].raw)
    &&& forall|i: int| 0 <= i < lines.len() ==> (#[trigger] lines[i])[0].raw[0] != '*'
    &&& forall|i: int| 1 <= i < lines.len() ==> !is_continuation(#[trigger] lines[i])
}

/// Reading goes on behind a text as it does on what follows it.
proof fn lemma_lines_behind(pre: Seq<char>, rest: Seq<char>, start: nat, i: nat)
    requires
        start <= i,
    ensures
        lines_from(pre + rest, pre.len() + start, pre.len() + i) == lines_from(rest, start, i),
    decreases rest.len() - i,
{
    let code = pre + rest;
    if i >= rest.len() {
        if start < rest.len() {
            assert(code.subrange((pre.len() + start) as int, code.len() as int) =~= rest.subrange(
                start as int,
                rest.len() as int,
            ));
        }
    } else {
        assert(code[(pre.len() + i) as int] == rest[i as int]);
        if rest[i as int] == '\n' {
            assert(code.subrange((pre.len() + start) as int, (pre.len() + i) as int)
                =~= rest.subrange(start as int, i as int));
            lemma_lines_behind(pre, rest, i + 1, i + 1);
        } else {
            lemma_lines_behind(pre, rest, start, i + 1);
        }
    }
}

/// A line is read up to the line feed that ends it.
proof fn lemma_line_up_to_feed(code: Seq<char>, start: nat, i: nat, feed: nat)
    requires
        start <= i <= feed < code.len(),
        code[feed as int] == '\n',
        forall|k: int| i <= k < feed ==> #[trigger] code[k] != '\n',
    ensures
        lines_from(code, start, i) == seq![strip_cr(code.subrange(start as int, feed as int))]
            + lines_from(code, feed + 1, feed + 1),
    decreases feed - i,
{
    if i < feed {
        lemma_line_up_to_feed(code, start, i + 1, feed);
    }
}

/// A token has a character, and does not end with a carriage return.
proof fn lemma_token_end(w: Seq<char>)
    requires
        is_token(w),
    ensures
        w.len() > 0,
        w.last() != '\r',
{
    if is_word(w) {
        assert(is_white_space('\r'));
        assert(!is_blank(w[w.len() - 1]));
    }
}

/// What tokens joined by single spaces begin and end with.
proof fn lemma_joined_ends(ts: Seq<Seq<char>>)
    requires
        ts.len() > 0,
        forall|i: int| 0 <= i < ts.len() ==> (#[trigger] ts[i]).len() > 0,
    ensures
        joined(ts).len() > 0,
        joined(ts)[0] == ts[0][0],
        joined(ts).last() == ts.last().last(),
    decreases ts.len(),
{
    if ts.len() > 1 {
        let rest = ts.drop_first();
        assert forall|i: int| 0 <= i < rest.len() implies (#[trigger] rest[i]).len() > 0 by {
            assert(rest[i] == ts[i + 1]);
        }
        lemma_joined_ends(rest);
        assert(rest.last() == ts.last());
        assert(ts[0].len() > 0);
        let x = joined(ts);
        assert(x == ts[0] + seq![' '] + joined(rest));
        assert(x.last() == joined(rest).last());
    }
}

/// Lines that are stacked are read as they were stacked, if each has a
/// character, holds no line feed and does not end with a carriage return.
proof fn lemma_lines_of_stacked(lines: Seq<Seq<char>>)
    requires
        forall|k: int|
            0 <= k < lines.len() ==> (#[trigger] lines[k]).len() > 0 && is_one_line(lines[k])
                && lines[k].last() != '\r',
    ensures
        lines_of(stacked(lines)) == lines,
    decreases lines.len(),
{
    let code = stacked(lines);
    if lines.len() == 0 {
        assert(lines_of(code) =~= lines);
    } else if lines.len() == 1 {
        assert(is_one_line(lines[0]));
        lemma_lines_of_one_line(code, 0, 0);
        assert(code.subrange(0, code.len() as int) =~= code);
        assert(lines_of(code) =~= lines);
    } else {
        let first = lines[0];
        let rest = lines.drop_first();
        assert forall|k: int| 0 <= k < rest.len() implies (#[trigger] rest[k]).len() > 0
            && is_one_line(rest[k]) && rest[k].last() != '\r' by {
            assert(rest[k] == lines[k + 1]);
        }
        lemma_lines_of_stacked(rest);
        let pre = first + seq!['\n'];
        assert(code == pre + stacked(rest));
        assert(is_one_line(first));
        assert forall|k: int| 0 <= k < first.len() implies #[trigger] code[k] != '\n' by {
            assert(code[k] == first[k]);
        }
        assert(code[first.len() as int] == '\n');
        lemma_line_up_to_feed(code, 0, 0, first.len());
        assert(code.subrange(0, first.len() as int) =~= first);
        assert(first.len() > 0 && first.last() != '\r');
        assert(strip_cr(first) == first);
        lemma_lines_behind(pre, stacked(rest), 0, 0);
        assert(pre.len() == first.len() + 1);
        assert(lines_of(code) =~= seq![first] + rest);
        assert(seq![first] + rest =~= lines);
    }
}

/// Lines that each have an atom are all kept, in their order.
proof fn lemma_lexed_keeps_all(lines: Seq<Seq<char>>, n: nat)
    requires
        n <= lines.len(),
        forall|k: int| 0 <= k < lines.len() ==> lex_line(#[trigger] lines[k], k as usize).len() > 0,
    ensures
        lexed(lines, n).len() == n,
        forall|k: int| 0 <= k < n ==> #[trigger] lexed(lines, n)[k] == lex_line(
            lines[k],
            k as usize,
        ),
    decreases n,
{
    if n > 0 {
        lemma_lexed_keeps_all(lines, (n - 1) as nat);
        assert(lex_line(lines[n - 1], (n - 1) as usize).len() > 0);
    }
}

/// Where no line but the first continues another, joining continuation
/// lines changes nothing.
proof fn lemma_merged_nothing(lines: Seq<Seq<AtomView>>, n: nat)
    requires
        n <= lines.len(),
        no_continuation_left(lines),
    ensures
        merged(lines, n) == lines.subrange(0, n as int),
    decreases n,
{
    if n == 0 {
        assert(merged(lines, n) =~= lines.subrange(0, 0));
    } else {
        lemma_merged_nothing(lines, (n - 1) as nat);
        let before = merged(lines, (n - 1) as nat);
        if before.len() > 0 {
            assert(!is_continuation(lines[n - 1]));
        }
        assert(before.push(lines[n - 1]) =~= lines.subrange(0, n as int));
    }
}

/// The canonical text of writable lines is tokenized into lines of atoms
/// of the same texts: what is written down is read again, line by line and
/// atom by atom.
pub proof fn lemma_canonical_round_trip(lines: Seq<Seq<AtomView>>)
    requires
        is_writable(lines),
    ensures
        line_raws(lex(canonical(lines))) == line_raws(lines),
{
    let texts = spelt(lines);
    let code = canonical(lines);
    assert forall|k: int| 0 <= k < texts.len() implies (#[trigger] texts[k]).len() > 0
        && is_one_line(texts[k]) && texts[k].last() != '\r' && raws(
        lex_line(texts[k], k as usize),
    ) == raws(lines[k]) by {
        let ts = raws(lines[k]);
        assert(lines[k].len() > 0);
        assert forall|i: int| 0 <= i < ts.len() implies is_token(#[trigger] ts[i]) && is_one_line(
            ts[i],
        ) && ts[i].len() > 0 by {
            assert(ts[i] == lines[k][i].raw);
            lemma_token_end(ts[i]);
        }
        assert(ts[0] == lines[k][0].raw);
        lemma_joined_ends(ts);
        lemma_joined_is_one_line(ts);
        lemma_token_end(ts.last());
        lemma_joined_tokens(ts, k as usize);
    }
    lemma_lines_of_stacked(texts);
    assert(lines_of(code) == texts);
    assert forall|k: int| 0 <= k < texts.len() implies lex_line(
        #[trigger] texts[k],
        k as usize,
    ).len() > 0 by {
        assert(raws(lex_line(texts[k], k as usize)).len() == raws(lines[k]).len());
        assert(lines[k].len() > 0);
    }
    lemma_lexed_keeps_all(texts, texts.len());
    let atoms = lexed(texts, texts.len());
    assert forall|k: int| 1 <= k < atoms.len() implies !is_continuation(#[trigger] atoms[k]) by {
        assert(atoms[k] == lex_line(texts[k], k as usize));
        assert(raws(atoms[k])[0] == raws(lines[k])[0]);
        assert(atoms[k][0].raw == lines[k][0].raw);
        assert(!is_continuation(lines[k]));
    }
    lemma_merged_nothing(atoms, atoms.len());
    assert(atoms.subrange(0, atoms.len() as int) =~= atoms);
    assert(lex(code) == atoms);
    assert(line_raws(lex(code)) =~= line_raws(lines)) by {
        assert forall|k: int| 0 <= k < lines.len() implies line_raws(lex(code))[k] == line_raws(
            lines,
        )[k] by {
            assert(atoms[k] == lex_line(texts[k], k as usize));
        }
    }
}

/// Idempotence of the canonical text: the canonical text of writable
/// lines is the canonical text of what it is tokenized into.
pub proof fn lemma_canonical_is_canonical(lines: Seq<Seq<AtomView>>)
    requires
        is_writable(lines),
    ensures
        canonical(lex(canonical(lines))) == canonical(lines),
{
    lemma_canonical_round_trip(lines);
    let again = lex(canonical(lines));
    assert(again.len() == lines.len()) by {
        assert(line_raws(again).len() == line_raws(lines).len());
    }
    assert(spelt(again) =~= spelt(lines)) by {
        assert forall|k: int| 0 <= k < lines.len() implies spelt(again)[k] == spelt(lines)[k] by {
            assert(line_raws(again)[k] == line_raws(lines)[k]);
        }
    }
}

/// Whether every atom of the lines is a token without a line feed.
pub open spec fn all_tokens(lines: Seq<Seq<AtomView>>) -> bool {
    forall|i: int, k: int|
        0 <= i < lines.len() && 0 <= k < lines[i].len() ==> is_token(
            (#[trigger] lines[i][k]).raw,
        ) && is_one_line(lines[i][k].raw)
}

/// The lines that a text is read as hold no line feed.
proof fn lemma_lines_are_one_line(code: Seq<char>, start: nat, i: nat)
    requires
        start <= i,
        forall|k: int| start <= k < i && k < code.len() ==> #[trigger] code[k] != '\n',
    ensures
        forall|k: int|
            0 <= k < lines_from(code, start, i).len() ==> is_one_line(
                #[trigger] lines_from(code, start, i)[k],
            ),
    decreases code.len() - i,
{
    if i >= code.len() {
        if start < code.len() {
            let line = code.subrange(start as int, code.len() as int);
            assert forall|k: int| 0 <= k < line.len() implies #[trigger] line[k] != '\n' by {
                assert(line[k] == code[start + k]);
            }
            assert(is_one_line(line));
            assert(lines_from(code, start, i) == seq![line]);
        } else {
            assert(lines_from(code, start, i).len() == 0);
        }
    } else if code[i as int] == '\n' {
        let whole = code.subrange(start as int, i as int);
        let line = strip_cr(whole);
        assert forall|k: int| 0 <= k < line.len() implies #[trigger] line[k] != '\n' by {
            assert(line[k] == whole[k]);
            assert(whole[k] == code[start + k]);
        }
        assert(is_one_line(line));
        lemma_lines_are_one_line(code, i + 1, i + 1);
        let rest = lines_from(code, i + 1, i + 1);
        let all = lines_from(code, start, i);
        assert(all == seq![line] + rest);
        assert forall|k: int| 0 <= k < all.len() implies is_one_line(#[trigger] all[k]) by {
            if k > 0 {
                assert(all[k] == rest[k - 1]);
            } else {
                assert(all[k] == line);
            }
        }
    } else {
        lemma_lines_are_one_line(code, start, i + 1);
        assert(lines_from(code, start, i) == lines_from(code, start, i + 1));
    }
}

/// The atoms of lines that leave no quote open are tokens.
proof fn lemma_lexed_tokens(lines: Seq<Seq<char>>, n: nat)
    requires
        forall|k: int|
            0 <= k < lines.len() ==> is_one_line(#[trigger] lines[k]) && !leaves_quote_open(
                lines[k],
            ),
    ensures
        all_tokens(lexed(lines, n)),
    decreases n,
{
    if n != 0 && n <= lines.len() {
        lemma_lexed_tokens(lines, (n - 1) as nat);
        let before = lexed(lines, (n - 1) as nat);
        let line = lines[n - 1];
        let atoms = lex_line(line, (n - 1) as usize);
        assert(is_one_line(line) && !leaves_quote_open(line));
        lemma_atoms_are_tokens(line, (n - 1) as usize);
        lemma_atoms_are_one_line(line, (n - 1) as usize);
        assert forall|k: int| 0 <= k < atoms.len() implies is_token((#[trigger] atoms[k]).raw)
            && is_one_line(atoms[k].raw) by {
            assert(raws(atoms)[k] == atoms[k].raw);
        }
        let after = lexed(lines, n);
        assert forall|i: int, k: int| 0 <= i < after.len() && 0 <= k < after[i].len() implies is_token(
            (#[trigger] after[i][k]).raw,
        ) && is_one_line(after[i][k].raw) by {
            if i < before.len() {
                assert(after[i] == before[i]);
            }
        }
    }
}

/// Joining continuation lines leaves every atom a token.
proof fn lemma_merged_tokens(lines: Seq<Seq<AtomView>>, n: nat)
    requires
        all_tokens(lines),
    ensures
        all_tokens(merged(lines, n)),
    decreases n,
{
    if n != 0 && n <= lines.len() {
        lemma_merged_tokens(lines, (n - 1) as nat);
        let before = merged(lines, (n - 1) as nat);
        let atoms = lines[n - 1];
        let after = merged(lines, n);
        assert forall|i: int, k: int| 0 <= i < after.len() && 0 <= k < after[i].len() implies is_token(
            (#[trigger] after[i][k]).raw,
        ) && is_one_line(after[i][k].raw) by {
            if before.len() > 0 && is_continuation(atoms) {
                if i == before.len() - 1 {
                    let last = before.last();
                    if k < last.len() {
                        assert(after[i][k] == last[k]);
                    } else {
                        assert(after[i][k] == atoms[k - last.len() + 1]);
                    }
                } else {
                    assert(after[i] == before[i]);
                }
            } else {
                if i < before.len() {
                    assert(after[i] == before[i]);
                } else {
                    assert(after[i][k] == atoms[k]);
                }
            }
        }
    }
}

/// The logical lines of a text can be written down and read again, if no
/// line of the text leaves a quote open and no logical line begins with
/// `*`.
pub proof fn lemma_lex_is_writable(code: Seq<char>)
    requires
        forall|k: int|
            0 <= k < lines_of(code).len() ==> !leaves_quote_open(#[trigger] lines_of(code)[k]),
        forall|i: int| 0 <= i < lex(code).len() ==> (#[trigger] lex(code)[i])[0].raw[0] != '*',
    ensures
        is_writable(lex(code)),
{
    let lines = lines_of(code);
    lemma_lines_are_one_line(code, 0, 0);
    lemma_lexed_tokens(lines, lines.len());
    let atoms = lexed(lines, lines.len());
    lemma_merged_tokens(atoms, atoms.len());
    lemma_lex_filled(code);
    lemma_lex_has_no_continuation(code);
}

/// The canonical text of a text: its logical lines, the atoms of each
/// joined by single spaces. Where no line of a text leaves a quote open and
/// no logical line begins with `*`, the canonical text is tokenized into
/// lines of atoms of the same texts as the text itself, and it is its own
/// canonical text.
pub proof fn lemma_text_round_trip(code: Seq<char>)
    requires
        forall|k: int|
            0 <= k < lines_of(code).len() ==> !leaves_quote_open(#[trigger] lines_of(code)[k]),
        forall|i: int| 0 <= i < lex(code).len() ==> (#[trigger] lex(code)[i])[0].raw[0] != '*',
    ensures
        line_raws(lex(canonical(lex(code)))) == line_raws(lex(code)),
        canonical(lex(canonical(lex(code)))) == canonical(lex(code)),
{
    lemma_lex_is_writable(code);
    lemma_canonical_round_trip(lex(code));
    lemma_canonical_is_canonical(lex(code));
}

} // verus!
